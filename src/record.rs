use vstd::prelude::*;

verus! {

/// One uploaded file: its id, the caller's opaque hash, and the time the
/// store took it in (microseconds since the Unix epoch, UTC).
pub struct Record {
    pub id: u128,
    pub hash: String,
    pub created_at: i64,
}

impl Record {
    /// A field-by-field copy of the record.
    pub fn duplicate(&self) -> (r: Record)
        ensures
            r == *self,
    {
        Record { id: self.id, hash: self.hash.clone(), created_at: self.created_at }
    }
}

/// The ids of a sequence of records, in the same order.
pub open spec fn ids_of(s: Seq<Record>) -> Seq<u128> {
    s.map_values(|r: Record| r.id)
}

/// Some record of `s` carries `id`.
pub open spec fn has_id(s: Seq<Record>, id: u128) -> bool {
    exists|i: int| 0 <= i < s.len() && s[i].id == id
}

/// No two records of `s` share an id.
pub open spec fn ids_unique(s: Seq<Record>) -> bool {
    forall|i: int, j: int| 0 <= i < j < s.len() ==> s[i].id != s[j].id
}

} // verus!
