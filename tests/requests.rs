use analysis_api::decimal::parse_u64;
use analysis_api::request::{
    parse_after_date, parse_id, parse_pagination, parse_path_query, parse_usize, Pagination,
    PathQuery, RequestError,
};

const FIRST: u128 = 0xd7073ab3_10a2_47c4_a321_b4258c91fdb3;

#[test]
fn decimal_values() {
    assert_eq!(parse_u64("0"), Some(0));
    assert_eq!(parse_u64("42"), Some(42));
    assert_eq!(parse_u64("+5"), Some(5));
    assert_eq!(parse_u64("007"), Some(7));
    assert_eq!(parse_u64("18446744073709551615"), Some(u64::MAX));
}

#[test]
fn decimal_rejections() {
    assert_eq!(parse_u64(""), None);
    assert_eq!(parse_u64("+"), None);
    assert_eq!(parse_u64("-1"), None);
    assert_eq!(parse_u64("1a"), None);
    assert_eq!(parse_u64(" 1"), None);
    assert_eq!(parse_u64("18446744073709551616"), None);
    assert_eq!(parse_u64("99999999999999999999999"), None);
}

#[test]
fn usize_values() {
    assert_eq!(parse_usize("10"), Some(10));
    assert_eq!(parse_usize("ten"), None);
}

#[test]
fn id_reads_hyphenated_and_simple_forms() {
    assert_eq!(parse_id("d7073ab3-10a2-47c4-a321-b4258c91fdb3"), Ok(FIRST));
    assert_eq!(parse_id("D7073AB3-10A2-47C4-A321-B4258C91FDB3"), Ok(FIRST));
    assert_eq!(parse_id("d7073ab310a247c4a321b4258c91fdb3"), Ok(FIRST));
    assert_eq!(parse_id("00000000-0000-0000-0000-000000000000"), Ok(0));
}

#[test]
fn id_rejections() {
    assert_eq!(parse_id("42"), Err(RequestError::InvalidId));
    assert_eq!(parse_id(""), Err(RequestError::InvalidId));
    assert_eq!(parse_id("d7073ab3-10a2-47c4-a321-b4258c91fdbz"), Err(RequestError::InvalidId));
}

#[test]
fn pagination_values() {
    assert_eq!(parse_pagination("2", "10"), Ok(Pagination { page: 2, per_page: 10 }));
    assert_eq!(parse_pagination("x", "10"), Err(RequestError::InvalidInteger));
    assert_eq!(parse_pagination("1", "many"), Err(RequestError::InvalidInteger));
    assert_eq!(parse_pagination("1", "-3"), Err(RequestError::InvalidInteger));
}

#[test]
fn path_query_values() {
    assert_eq!(
        parse_path_query("d7073ab3-10a2-47c4-a321-b4258c91fdb3", "00000000-0000-0000-0000-000000000000"),
        Ok(PathQuery { src: FIRST, dst: 0 })
    );
    assert_eq!(
        parse_path_query("nope", "00000000-0000-0000-0000-000000000000"),
        Err(RequestError::InvalidId)
    );
    assert_eq!(
        parse_path_query("d7073ab3-10a2-47c4-a321-b4258c91fdb3", "nope"),
        Err(RequestError::InvalidId)
    );
}

#[test]
fn after_date_values() {
    assert_eq!(parse_after_date("2024-01-01T00:00:00Z"), Ok(1_704_067_200_000_000));
    assert_eq!(parse_after_date("1970-01-01T00:00:01.5+00:00"), Ok(1_500_000));
    assert_eq!(parse_after_date("1970-01-01T01:00:00+01:00"), Ok(0));
}

#[test]
fn after_date_rejections() {
    assert_eq!(parse_after_date("yesterday"), Err(RequestError::InvalidDate));
    assert_eq!(parse_after_date("2024-01-01"), Err(RequestError::InvalidDate));
    assert_eq!(parse_after_date(""), Err(RequestError::InvalidDate));
}
