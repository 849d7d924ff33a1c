use vstd::prelude::*;

verus! {

/// The id that a UUID text denotes, as the uuid crate reads it; `None` when
/// the text is no UUID.
pub uninterp spec fn uuid_parse_of(s: Seq<char>) -> Option<u128>;

/// The canonical hyphenated lower-case text of a UUID, as the uuid crate writes it.
pub uninterp spec fn uuid_text_of(id: u128) -> Seq<char>;

/// Relies on uuid::Uuid::parse_str, read back as a big-endian 128-bit value
/// by Uuid::as_u128.
#[verifier::external_body]
pub(crate) fn parse_uuid(s: &str) -> (r: Option<u128>)
    ensures
        r == uuid_parse_of(s@),
{
    match uuid::Uuid::parse_str(s) {
        Ok(u) => Some(u.as_u128()),
        Err(_) => None,
    }
}

/// Relies on uuid::Uuid::from_u128 and the Display of Uuid::hyphenated,
/// which always writes 36 characters.
#[verifier::external_body]
pub(crate) fn uuid_text(id: u128) -> (r: String)
    ensures
        r@ == uuid_text_of(id),
        r@.len() == 36,
{
    uuid::Uuid::from_u128(id).hyphenated().to_string()
}

} // verus!
