use vstd::prelude::*;
use vstd::string::StringExecFns;

use crate::ids::{uuid_text, uuid_text_of};
use crate::record::{has_id, ids_of, Record};
use crate::request::{
    date_of, id_of, pagination_of, parse_after_date, parse_id, parse_pagination, parse_path_query,
    path_query_of, RequestError,
};
use crate::store::{inserted, looked_up, scanned, MemoryStore, StoreError};

verus! {

/// Why a request got no successful answer.
#[derive(Debug, PartialEq, Eq, Structural)]
pub enum ApiError {
    /// The request's path or query held a malformed value.
    BadRequest(RequestError),
    /// The store refused or failed the operation.
    Store(StoreError),
}

impl ApiError {
    /// The HTTP status that answers this error.
    pub fn status_code(&self) -> (r: u16)
        ensures
            r == (match self {
                ApiError::BadRequest(_) => 400u16,
                ApiError::Store(_) => 500u16,
            }),
    {
        match self {
            ApiError::BadRequest(_) => 400,
            ApiError::Store(_) => 500,
        }
    }
}

pub struct UploadResponse {
    pub upload_url: String,
}

pub struct AnalysisResponse {
    pub status: String,
    pub status_message: String,
    pub result_url: String,
}

pub struct ResultsResponse {
    pub status: String,
    pub status_message: String,
    pub related_file_ids: Vec<u128>,
}

/// One file of a files listing; `upload_date` is in microseconds since the
/// Unix epoch, UTC.
pub struct FileEntry {
    pub file_id: u128,
    pub upload_date: i64,
    pub hash: String,
}

pub struct FilesResponse {
    pub files: Vec<FileEntry>,
}

pub struct PathResponse {
    pub path: Vec<u128>,
}

/// Where an upload goes; the same placeholder for every file.
pub open spec fn upload_url_text() -> Seq<char> {
    "https://example.com/upload/42"@
}

/// The base that a file's results address extends.
pub open spec fn results_base() -> Seq<char> {
    "https://ll09yudnr6.execute-api.us-east-1.amazonaws.com/v1/results/"@
}

/// The address of a file's results.
pub open spec fn result_url_of(id: u128) -> Seq<char> {
    results_base() + uuid_text_of(id)
}

/// `r` is the analysis answer for file `id`.
pub open spec fn answers_analysis(id: u128, r: AnalysisResponse) -> bool {
    &&& r.status@ == "processing"@
    &&& r.status_message@ == Seq::<char>::empty()
    &&& r.result_url@ == result_url_of(id)
}

/// The files listing entry of each record, in the same order.
pub open spec fn entries_of(s: Seq<Record>) -> Seq<FileEntry> {
    s.map_values(|r: Record| FileEntry { file_id: r.id, upload_date: r.created_at, hash: r.hash })
}

/// The ids of the records, in the same order.
fn ids_from(records: &Vec<Record>) -> (r: Vec<u128>)
    ensures
        r@ == ids_of(records@),
{
    let mut out: Vec<u128> = Vec::new();
    let mut i: usize = 0;
    while i < records.len()
        invariant
            i <= records@.len(),
            out@ == ids_of(records@.subrange(0, i as int)),
        decreases records@.len() - i,
    {
        out.push(records[i].id);
        i = i + 1;
        assert(out@ == ids_of(records@.subrange(0, i as int)));
    }
    assert(records@.subrange(0, records@.len() as int) == records@);
    out
}

/// The files listing entries of the records, in the same order.
fn entries_from(records: &Vec<Record>) -> (r: Vec<FileEntry>)
    ensures
        r@ == entries_of(records@),
{
    let mut out: Vec<FileEntry> = Vec::new();
    let mut i: usize = 0;
    while i < records.len()
        invariant
            i <= records@.len(),
            out@ == entries_of(records@.subrange(0, i as int)),
        decreases records@.len() - i,
    {
        let rec = &records[i];
        out.push(FileEntry { file_id: rec.id, upload_date: rec.created_at, hash: rec.hash.clone() });
        i = i + 1;
        assert(out@ == entries_of(records@.subrange(0, i as int)));
    }
    assert(records@.subrange(0, records@.len() as int) == records@);
    out
}

/// `POST /v1/upload/{file_id}`: stores the file's hash, stamped with `now`,
/// and answers where to upload it.
pub fn post_upload(store: &mut MemoryStore, file_id: &str, hash: String, now: i64) -> (r: Result<
    UploadResponse,
    ApiError,
>)
    requires
        old(store).wf(),
    ensures
        final(store).wf(),
        match id_of(file_id@) {
            Err(e) => r == Err::<UploadResponse, ApiError>(ApiError::BadRequest(e)) && final(store)@
                == old(store)@,
            Ok(id) => if has_id(old(store)@, id) {
                r == Err::<UploadResponse, ApiError>(ApiError::Store(StoreError::DuplicateId(id)))
                    && final(store)@ == old(store)@
            } else {
                &&& r is Ok
                &&& r->Ok_0.upload_url@ == upload_url_text()
                &&& final(store)@ == inserted(old(store)@, id, hash, now)
            },
        },
{
    let id = match parse_id(file_id) {
        Ok(v) => v,
        Err(e) => return Err(ApiError::BadRequest(e)),
    };
    match store.insert(id, hash, now) {
        Ok(()) => Ok(UploadResponse { upload_url: String::from_str("https://example.com/upload/42") }),
        Err(e) => Err(ApiError::Store(e)),
    }
}

/// `GET /v1/analysis/{file_id}`: the file's analysis is always reported as
/// in progress, with the address of its results.
pub fn get_analysis(file_id: &str) -> (r: Result<AnalysisResponse, ApiError>)
    ensures
        match id_of(file_id@) {
            Err(e) => r == Err::<AnalysisResponse, ApiError>(ApiError::BadRequest(e)),
            Ok(id) => r is Ok && answers_analysis(id, r->Ok_0),
        },
{
    let id = match parse_id(file_id) {
        Ok(v) => v,
        Err(e) => return Err(ApiError::BadRequest(e)),
    };
    let text = uuid_text(id);
    let mut url = String::from_str(
        "https://ll09yudnr6.execute-api.us-east-1.amazonaws.com/v1/results/",
    );
    url.append(text.as_str());
    Ok(
        AnalysisResponse {
            status: String::from_str("processing"),
            status_message: String::new(),
            result_url: url,
        },
    )
}

/// `GET /v1/results/{file_id}?page=&per_page=`: the ids of the newest
/// `per_page` stored files. The file id and the page are read, not used.
pub fn get_results(store: &MemoryStore, file_id: &str, page: &str, per_page: &str) -> (r: Result<
    ResultsResponse,
    ApiError,
>)
    ensures
        match (id_of(file_id@), pagination_of(page@, per_page@)) {
            (Err(e), _) => r == Err::<ResultsResponse, ApiError>(ApiError::BadRequest(e)),
            (Ok(_), Err(e)) => r == Err::<ResultsResponse, ApiError>(ApiError::BadRequest(e)),
            (Ok(_), Ok(p)) => {
                &&& r is Ok
                &&& r->Ok_0.status@ == "processed"@
                &&& r->Ok_0.status_message@ == Seq::<char>::empty()
                &&& r->Ok_0.related_file_ids@ == ids_of(scanned(store@, p.per_page as nat))
            },
        },
{
    if let Err(e) = parse_id(file_id) {
        return Err(ApiError::BadRequest(e));
    }
    let p = match parse_pagination(page, per_page) {
        Ok(p) => p,
        Err(e) => return Err(ApiError::BadRequest(e)),
    };
    let items = store.scan(p.per_page);
    Ok(
        ResultsResponse {
            status: String::from_str("processed"),
            status_message: String::new(),
            related_file_ids: ids_from(&items),
        },
    )
}

/// `GET /v1/files/{file_id}?after_date=&page=&per_page=`: the newest
/// `per_page` stored files. The file id, the date and the page are read,
/// not used.
pub fn get_files(
    store: &MemoryStore,
    file_id: &str,
    after_date: &str,
    page: &str,
    per_page: &str,
) -> (r: Result<FilesResponse, ApiError>)
    ensures
        match (id_of(file_id@), date_of(after_date@), pagination_of(page@, per_page@)) {
            (Err(e), _, _) => r == Err::<FilesResponse, ApiError>(ApiError::BadRequest(e)),
            (Ok(_), Err(e), _) => r == Err::<FilesResponse, ApiError>(ApiError::BadRequest(e)),
            (Ok(_), Ok(_), Err(e)) => r == Err::<FilesResponse, ApiError>(ApiError::BadRequest(e)),
            (Ok(_), Ok(_), Ok(p)) => r is Ok && r->Ok_0.files@ == entries_of(
                scanned(store@, p.per_page as nat),
            ),
        },
{
    if let Err(e) = parse_id(file_id) {
        return Err(ApiError::BadRequest(e));
    }
    if let Err(e) = parse_after_date(after_date) {
        return Err(ApiError::BadRequest(e));
    }
    let p = match parse_pagination(page, per_page) {
        Ok(p) => p,
        Err(e) => return Err(ApiError::BadRequest(e)),
    };
    let items = store.scan(p.per_page);
    Ok(FilesResponse { files: entries_from(&items) })
}

/// `GET /v1/path?src=&dst=&page=&per_page=`: those of `src` and `dst` that
/// are stored, in store order. The page is read, not used.
pub fn get_path(store: &MemoryStore, src: &str, dst: &str, page: &str, per_page: &str) -> (r:
    Result<PathResponse, ApiError>)
    ensures
        match (path_query_of(src@, dst@), pagination_of(page@, per_page@)) {
            (Err(e), _) => r == Err::<PathResponse, ApiError>(ApiError::BadRequest(e)),
            (Ok(_), Err(e)) => r == Err::<PathResponse, ApiError>(ApiError::BadRequest(e)),
            (Ok(q), Ok(_)) => r is Ok && r->Ok_0.path@ == ids_of(looked_up(store@, q.src, q.dst)),
        },
{
    let q = match parse_path_query(src, dst) {
        Ok(q) => q,
        Err(e) => return Err(ApiError::BadRequest(e)),
    };
    if let Err(e) = parse_pagination(page, per_page) {
        return Err(ApiError::BadRequest(e));
    }
    let items = store.lookup(q.src, q.dst);
    Ok(PathResponse { path: ids_from(&items) })
}

/// Two answers to the analysis of one file agree in status and message,
/// and each carries the file's id, as text, right after the results base.
pub proof fn lemma_analysis_repeatable(id: u128, r1: AnalysisResponse, r2: AnalysisResponse)
    requires
        answers_analysis(id, r1),
        answers_analysis(id, r2),
    ensures
        r1.status@ == r2.status@,
        r1.status_message@ == r2.status_message@,
        r1.result_url@ == r2.result_url@,
        r1.result_url@.subrange(results_base().len() as int, r1.result_url@.len() as int)
            == uuid_text_of(id),
{
    let u = r1.result_url@;
    assert(u.subrange(results_base().len() as int, u.len() as int) == uuid_text_of(id));
}

} // verus!
