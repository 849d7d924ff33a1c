use analysis_api::api::{get_analysis, get_files, get_path, get_results, post_upload, ApiError};
use analysis_api::request::RequestError;
use analysis_api::store::{MemoryStore, StoreError};

const FIRST_TEXT: &str = "d7073ab3-10a2-47c4-a321-b4258c91fdb3";
const FIRST: u128 = 0xd7073ab3_10a2_47c4_a321_b4258c91fdb3;
const ZERO_TEXT: &str = "00000000-0000-0000-0000-000000000000";
const RESULTS_BASE: &str = "https://ll09yudnr6.execute-api.us-east-1.amazonaws.com/v1/results/";

fn uploaded() -> MemoryStore {
    let mut s = MemoryStore::new();
    post_upload(&mut s, FIRST_TEXT, "abc".to_string(), 1_000).unwrap();
    s
}

#[test]
fn upload_answers_placeholder_url() {
    let mut s = MemoryStore::new();
    let r = post_upload(&mut s, FIRST_TEXT, "abc".to_string(), 5).unwrap();
    assert_eq!(r.upload_url, "https://example.com/upload/42");
    assert_eq!(s.len(), 1);
}

#[test]
fn upload_then_results_scenario() {
    let s = uploaded();
    let r = get_results(&s, ZERO_TEXT, "0", "10").unwrap();
    assert_eq!(r.status, "processed");
    assert_eq!(r.status_message, "");
    assert_eq!(r.related_file_ids, vec![FIRST]);
}

#[test]
fn upload_then_files_scenario() {
    let s = uploaded();
    let r = get_files(&s, FIRST_TEXT, "2020-01-01T00:00:00Z", "1", "10").unwrap();
    assert_eq!(r.files.len(), 1);
    assert_eq!(r.files[0].file_id, FIRST);
    assert_eq!(r.files[0].hash, "abc");
    assert_eq!(r.files[0].upload_date, 1_000);
}

#[test]
fn upload_then_path_scenario() {
    let s = uploaded();
    let r = get_path(&s, FIRST_TEXT, ZERO_TEXT, "1", "10").unwrap();
    assert_eq!(r.path, vec![FIRST]);
    let none = get_path(&s, ZERO_TEXT, "00000000-0000-0000-0000-000000000001", "1", "10").unwrap();
    assert!(none.path.is_empty());
}

#[test]
fn duplicate_upload_is_a_server_error() {
    let mut s = uploaded();
    let e = post_upload(&mut s, FIRST_TEXT, "again".to_string(), 2).err().unwrap();
    assert_eq!(e, ApiError::Store(StoreError::DuplicateId(FIRST)));
    assert_eq!(e.status_code(), 500);
    assert_eq!(s.len(), 1);
}

#[test]
fn analysis_is_repeatable_and_names_the_file() {
    let a = get_analysis(FIRST_TEXT).unwrap();
    let b = get_analysis(FIRST_TEXT).unwrap();
    assert_eq!(a.status, "processing");
    assert_eq!(a.status_message, "");
    assert_eq!(a.status, b.status);
    assert_eq!(a.status_message, b.status_message);
    assert_eq!(a.result_url, b.result_url);
    assert_eq!(a.result_url, format!("{}{}", RESULTS_BASE, FIRST_TEXT));
}

#[test]
fn analysis_writes_the_canonical_id() {
    let a = get_analysis("D7073AB310A247C4A321B4258C91FDB3").unwrap();
    assert_eq!(a.result_url, format!("{}{}", RESULTS_BASE, FIRST_TEXT));
}

#[test]
fn malformed_path_id_is_a_client_error() {
    let mut s = MemoryStore::new();
    let e = post_upload(&mut s, "not-a-uuid", "abc".to_string(), 1).err().unwrap();
    assert_eq!(e, ApiError::BadRequest(RequestError::InvalidId));
    assert_eq!(e.status_code(), 400);
    assert_eq!(s.len(), 0);
    assert_eq!(get_analysis("12").err(), Some(ApiError::BadRequest(RequestError::InvalidId)));
    assert_eq!(
        get_results(&s, "12", "1", "10").err(),
        Some(ApiError::BadRequest(RequestError::InvalidId))
    );
}

#[test]
fn malformed_per_page_is_a_client_error() {
    let s = uploaded();
    assert_eq!(
        get_results(&s, FIRST_TEXT, "1", "ten").err(),
        Some(ApiError::BadRequest(RequestError::InvalidInteger))
    );
    assert_eq!(
        get_files(&s, FIRST_TEXT, "2020-01-01T00:00:00Z", "1", "1.5").err(),
        Some(ApiError::BadRequest(RequestError::InvalidInteger))
    );
    assert_eq!(
        get_path(&s, FIRST_TEXT, ZERO_TEXT, "1", "").err(),
        Some(ApiError::BadRequest(RequestError::InvalidInteger))
    );
}

#[test]
fn malformed_after_date_is_a_client_error() {
    let s = uploaded();
    let e = get_files(&s, FIRST_TEXT, "last tuesday", "1", "10").err().unwrap();
    assert_eq!(e, ApiError::BadRequest(RequestError::InvalidDate));
    assert_eq!(e.status_code(), 400);
}

#[test]
fn malformed_src_or_dst_is_a_client_error() {
    let s = uploaded();
    assert_eq!(
        get_path(&s, "x", ZERO_TEXT, "1", "10").err(),
        Some(ApiError::BadRequest(RequestError::InvalidId))
    );
    assert_eq!(
        get_path(&s, FIRST_TEXT, "y", "1", "10").err(),
        Some(ApiError::BadRequest(RequestError::InvalidId))
    );
}

#[test]
fn results_limit_of_zero_is_empty() {
    let s = uploaded();
    assert!(get_results(&s, FIRST_TEXT, "1", "0").unwrap().related_file_ids.is_empty());
}
