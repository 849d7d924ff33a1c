use vstd::prelude::*;

use crate::dates::{parse_rfc3339_micros, rfc3339_micros_of};
use crate::decimal::{parse_u64, u64_of, usize_of};
use crate::ids::{parse_uuid, uuid_parse_of};

verus! {

/// A path or query value that does not read as the type its route declares.
#[derive(Debug, Clone, Copy, PartialEq, Eq, Structural)]
pub enum RequestError {
    /// A file id, `src` or `dst` that is no UUID.
    InvalidId,
    /// A `page` or `per_page` that is no unsigned integer of its width.
    InvalidInteger,
    /// An `after_date` that is no RFC 3339 date-time.
    InvalidDate,
}

/// The page a listing asks for. Routes accept it; only `per_page` bounds
/// what they return.
#[derive(Debug, Clone, Copy, PartialEq, Eq, Structural)]
pub struct Pagination {
    pub page: u64,
    pub per_page: usize,
}

/// The two ids a path query asks about.
#[derive(Debug, Clone, Copy, PartialEq, Eq, Structural)]
pub struct PathQuery {
    pub src: u128,
    pub dst: u128,
}

/// What a file id text reads as.
pub open spec fn id_of(s: Seq<char>) -> Result<u128, RequestError> {
    match uuid_parse_of(s) {
        Some(v) => Ok(v),
        None => Err(RequestError::InvalidId),
    }
}

/// What the `page` and `per_page` texts read as.
pub open spec fn pagination_of(page: Seq<char>, per_page: Seq<char>) -> Result<
    Pagination,
    RequestError,
> {
    match (u64_of(page), usize_of(per_page)) {
        (Some(p), Some(n)) => Ok(Pagination { page: p, per_page: n }),
        _ => Err(RequestError::InvalidInteger),
    }
}

/// What the `src` and `dst` texts read as; `src` is read first.
pub open spec fn path_query_of(src: Seq<char>, dst: Seq<char>) -> Result<PathQuery, RequestError> {
    match (uuid_parse_of(src), uuid_parse_of(dst)) {
        (Some(a), Some(b)) => Ok(PathQuery { src: a, dst: b }),
        _ => Err(RequestError::InvalidId),
    }
}

/// What an `after_date` text reads as.
pub open spec fn date_of(s: Seq<char>) -> Result<i64, RequestError> {
    match rfc3339_micros_of(s) {
        Some(t) => Ok(t),
        None => Err(RequestError::InvalidDate),
    }
}

/// Reads a file id.
pub fn parse_id(s: &str) -> (r: Result<u128, RequestError>)
    ensures
        r == id_of(s@),
{
    match parse_uuid(s) {
        Some(v) => Ok(v),
        None => Err(RequestError::InvalidId),
    }
}

/// Reads an unsigned decimal number that must fit in a `usize`.
pub fn parse_usize(s: &str) -> (r: Option<usize>)
    ensures
        r == usize_of(s@),
{
    match parse_u64(s) {
        Some(v) => if v as u128 <= usize::MAX as u128 {

            Some(v as usize)
        } else {
            None
        },
        None => {
            assert(usize::MAX <= u64::MAX);
            None
        },
    }
}

/// Reads the `page` and `per_page` values of a listing query.
pub fn parse_pagination(page: &str, per_page: &str) -> (r: Result<Pagination, RequestError>)
    ensures
        r == pagination_of(page@, per_page@),
{
    match (parse_u64(page), parse_usize(per_page)) {
        (Some(p), Some(n)) => Ok(Pagination { page: p, per_page: n }),
        _ => Err(RequestError::InvalidInteger),
    }
}

/// Reads the `src` and `dst` values of a path query.
pub fn parse_path_query(src: &str, dst: &str) -> (r: Result<PathQuery, RequestError>)
    ensures
        r == path_query_of(src@, dst@),
{
    match (parse_uuid(src), parse_uuid(dst)) {
        (Some(a), Some(b)) => Ok(PathQuery { src: a, dst: b }),
        _ => Err(RequestError::InvalidId),
    }
}

/// Reads an `after_date` value, in microseconds since the Unix epoch.
pub fn parse_after_date(s: &str) -> (r: Result<i64, RequestError>)
    ensures
        r == date_of(s@),
{
    match parse_rfc3339_micros(s) {
        Some(t) => Ok(t),
        None => Err(RequestError::InvalidDate),
    }
}

} // verus!
