//! The upload handler's decisions: validating the parts of one multipart
//! request, planning the file writes, and fixing the exact responses.
//!
//! A request is handled atomically: every part is validated before any write
//! is planned, and a request with a malformed part is rejected whole, so a
//! bad part can never disturb what was already done for the parts before it.
//! Malformed input is answered with a 400 response and a write failure with a
//! 500 response; the JSON bodies are fixed here, character for character.

use vstd::prelude::*;
use vstd::string::StringExecFns;
use crate::key::{spec_key, storage_key};
use crate::timestamp::Timestamp;

verus! {

/// One part of a multipart request body, as the transport hands it over:
/// field name and file name as the client declared them (either may be
/// absent), and the part's full content.
pub struct RawPart {
    pub field_name: Option<String>,
    pub file_name: Option<String>,
    pub data: Vec<u8>,
}

/// One planned filesystem write: the storage key to create and the bytes to
/// put under it.
pub struct FileWrite {
    pub key: String,
    pub data: Vec<u8>,
}

/// An HTTP response the handler decided on: status code and JSON body.
pub struct HttpResponse {
    pub status: u16,
    pub body: String,
}

/// The outcome of planning one upload request: either every part was well
/// formed and the writes are laid out, or the request is rejected whole.
pub enum UploadPlan {
    Accepted { writes: Vec<FileWrite>, response: HttpResponse },
    Rejected { response: HttpResponse },
}

/// A part is well formed when it declares both a field name and a file name.
pub open spec fn part_wf(p: RawPart) -> bool {
    p.field_name.is_some() && p.file_name.is_some()
}

/// Every part of the request is well formed.
pub open spec fn all_parts_wf(parts: Seq<RawPart>) -> bool {
    forall|i: int| 0 <= i < parts.len() ==> #[trigger] part_wf(parts[i])
}

/// Body of the response to a fully successful upload.
pub open spec fn spec_success_body() -> Seq<char> {
    "{\"status\":\"success\",\"message\":\"File(s) uploaded successfully!\"}"@
}

/// Body of the rejection of a part with no field name.
pub open spec fn spec_missing_field_body() -> Seq<char> {
    "{\"status\":\"error\",\"message\":\"Missing field name\"}"@
}

/// Body of the rejection of a part with no file name.
pub open spec fn spec_missing_file_body() -> Seq<char> {
    "{\"status\":\"error\",\"message\":\"Missing file name\"}"@
}

/// Body of the response to a failed file creation.
pub open spec fn spec_write_error_body() -> Seq<char> {
    "{\"status\":\"error\",\"message\":\"Error creating file\"}"@
}

/// The body a malformed part is rejected with: a missing field name is
/// reported ahead of a missing file name, the order the part is read in.
pub open spec fn spec_rejection_body(p: RawPart) -> Seq<char> {
    if p.field_name.is_none() {
        spec_missing_field_body()
    } else {
        spec_missing_file_body()
    }
}

/// The name of the directory every upload is stored under, relative to the
/// process working directory.
pub fn upload_dir() -> (r: &'static str)
    ensures
        r@ == "uploads"@,
{
    "uploads"
}

/// The response to a fully successful upload: 200 with the fixed JSON body.
pub fn success_response() -> (r: HttpResponse)
    ensures
        r.status == 200,
        r.body@ == spec_success_body(),
{
    HttpResponse {
        status: 200,
        body: String::from_str(
            "{\"status\":\"success\",\"message\":\"File(s) uploaded successfully!\"}",
        ),
    }
}

/// The response a malformed part is rejected with: 400, naming the first
/// attribute found missing.
pub fn rejection_response(p: &RawPart) -> (r: HttpResponse)
    ensures
        r.status == 400,
        r.body@ == spec_rejection_body(*p),
{
    if p.field_name.is_none() {
        HttpResponse {
            status: 400,
            body: String::from_str("{\"status\":\"error\",\"message\":\"Missing field name\"}"),
        }
    } else {
        HttpResponse {
            status: 400,
            body: String::from_str("{\"status\":\"error\",\"message\":\"Missing file name\"}"),
        }
    }
}

/// The response to a file creation that failed: 500 with the fixed JSON
/// body. Planned writes after the failed one are abandoned.
pub fn write_failure_response() -> (r: HttpResponse)
    ensures
        r.status == 500,
        r.body@ == spec_write_error_body(),
{
    HttpResponse {
        status: 500,
        body: String::from_str("{\"status\":\"error\",\"message\":\"Error creating file\"}"),
    }
}

/// An element-for-element copy of a byte buffer.
pub(crate) fn copy_bytes(v: &Vec<u8>) -> (r: Vec<u8>)
    ensures
        r@ == v@,
{
    let mut r: Vec<u8> = Vec::new();
    let mut i: usize = 0;
    while i < v.len()
        invariant
            i <= v@.len(),
            r@ == v@.take(i as int),
        decreases v@.len() - i,
    {
        r.push(v[i]);
        i = i + 1;
        proof {
            assert(r@ =~= v@.take(i as int));
        }
    }
    proof {
        assert(v@.take(v@.len() as int) =~= v@);
    }
    r
}

/// Plans one upload request. `parts` are the parts of the request in arrival
/// order and `stamps[i]` is the instant part `i` was received at.
///
/// The plan is accepted exactly when every part declares both names. An
/// accepted plan holds one write per part, in arrival order, keyed by that
/// part's timestamp, category and file name, and the fixed success response.
/// A request with a malformed part is rejected whole — no write is planned
/// for any part, so the parts before the malformed one are untouched — with
/// a 400 response naming what the first malformed part lacks.
pub fn plan_upload(parts: &Vec<RawPart>, stamps: &Vec<Timestamp>) -> (r: UploadPlan)
    requires
        parts@.len() == stamps@.len(),
        forall|i: int| 0 <= i < stamps@.len() ==> (#[trigger] stamps@[i]).wf(),
    ensures
        (r is Accepted) == all_parts_wf(parts@),
        r matches UploadPlan::Accepted { writes, response } ==> {
            &&& writes@.len() == parts@.len()
            &&& forall|i: int|
                0 <= i < parts@.len() ==> (#[trigger] writes@[i]).key@ == spec_key(
                    stamps@[i],
                    parts@[i].field_name.unwrap()@,
                    parts@[i].file_name.unwrap()@,
                )
            &&& forall|i: int| 0 <= i < parts@.len() ==> (#[trigger] writes@[i]).data@ == parts@[i].data@
            &&& response.status == 200
            &&& response.body@ == spec_success_body()
        },
        r matches UploadPlan::Rejected { response } ==> {
            &&& response.status == 400
            &&& exists|i: int|
                {
                    &&& 0 <= i < parts@.len()
                    &&& !part_wf(#[trigger] parts@[i])
                    &&& forall|j: int| 0 <= j < i ==> part_wf(#[trigger] parts@[j])
                    &&& response.body@ == spec_rejection_body(parts@[i])
                }
        },
{
    let n: usize = parts.len();
    let mut idx: usize = 0;
    while idx < n
        invariant
            n == parts@.len(),
            idx <= n,
            forall|j: int| 0 <= j < idx ==> part_wf(#[trigger] parts@[j]),
        decreases n - idx,
    {
        if parts[idx].field_name.is_none() || parts[idx].file_name.is_none() {
            let response = rejection_response(&parts[idx]);
            proof {
                assert(!part_wf(parts@[idx as int]));
            }
            return UploadPlan::Rejected { response };
        }
        proof {
            assert(part_wf(parts@[idx as int]));
        }
        idx = idx + 1;
    }
    let mut writes: Vec<FileWrite> = Vec::new();
    let mut i: usize = 0;
    while i < n
        invariant
            n == parts@.len(),
            parts@.len() == stamps@.len(),
            i <= n,
            all_parts_wf(parts@),
            forall|k: int| 0 <= k < stamps@.len() ==> (#[trigger] stamps@[k]).wf(),
            writes@.len() == i as int,
            forall|j: int|
                0 <= j < i ==> (#[trigger] writes@[j]).key@ == spec_key(
                    stamps@[j],
                    parts@[j].field_name.unwrap()@,
                    parts@[j].file_name.unwrap()@,
                ),
            forall|j: int| 0 <= j < i ==> (#[trigger] writes@[j]).data@ == parts@[j].data@,
        decreases n - i,
    {
        proof {
            assert(part_wf(parts@[i as int]));
        }
        let p = &parts[i];
        let key = storage_key(
            &stamps[i],
            p.field_name.as_ref().unwrap().as_str(),
            p.file_name.as_ref().unwrap().as_str(),
        );
        let data = copy_bytes(&p.data);
        writes.push(FileWrite { key, data });
        i = i + 1;
    }
    let response = success_response();
    UploadPlan::Accepted { writes, response }
}

} // verus!
