//! The repository-side logic: decoding tracker responses and deciding on
//! HTTP status codes. The surrounding binary performs the HTTP calls and
//! hands the status and body text in; everything decided here is verified.

use vstd::prelude::*;
use vstd::string::{StrSliceExecFns, StringExecFns};
use crate::errors::FlowError;
use crate::text::dec_str;
use crate::text::u32_to_string;

verus! {

/// One unit of tracked work in the remote issue tracker.
pub struct Issue {
    pub id: i32,
    pub title: String,
    pub content: IssueContent,
}

/// The free-text body of an issue.
pub struct IssueContent {
    pub raw: String,
}

/// Legacy duplicate of the issue body shape, kept for compatibility.
pub struct Content {
    pub _raw: String,
}

/// The mathematical record of an issue: identifier, title, body.
pub open spec fn issue_rec(i: Issue) -> (int, Seq<char>, Seq<char>) {
    (i.id as int, i.title@, i.content.raw@)
}

/// The records of a sequence of issues.
pub open spec fn issue_recs(v: Seq<Issue>) -> Seq<(int, Seq<char>, Seq<char>)> {
    v.map_values(|i: Issue| issue_rec(i))
}

/// What decoding a tracker issue listing yields on the given body text:
/// nothing where the body is not the expected JSON shape, an inner `None`
/// where the `values` collection is null or absent, else the issue
/// records. The result depends on the body text alone.
pub uninterp spec fn tracker_issues_of(body: Seq<char>) -> Option<
    Option<Seq<(int, Seq<char>, Seq<char>)>>,
>;

/// The record view of a decoded issue listing.
pub open spec fn issues_opt_view(r: Option<Option<Vec<Issue>>>) -> Option<
    Option<Seq<(int, Seq<char>, Seq<char>)>>,
> {
    match r {
        None => None,
        Some(None) => Some(None),
        Some(Some(v)) => Some(Some(issue_recs(v@))),
    }
}

/// Relies on `serde_json::from_str`, `Value::get`, `Value::is_null`,
/// `Value::as_array`, `Value::as_i64` and `Value::as_str`: decodes the
/// tracker's issue listing `{"values": [{id, title, content: {raw}}, ...]}`.
/// `None` where the body or any listed issue does not decode; `Some(None)`
/// where `values` is null or absent.
#[verifier::external_body]
fn parse_tracker_issues(body: &str) -> (r: Option<Option<Vec<Issue>>>)
    ensures
        issues_opt_view(r) == tracker_issues_of(body@),
{
    let v: serde_json::Value = serde_json::from_str(body).ok()?;
    let values = match v.get("values") {
        None => return Some(None),
        Some(x) if x.is_null() => return Some(None),
        Some(x) => x,
    };
    let mut out = Vec::new();
    for it in values.as_array()? {
        out.push(Issue {
            id: i32::try_from(it.get("id")?.as_i64()?).ok()?,
            title: it.get("title")?.as_str()?.to_owned(),
            content: IssueContent { raw: it.get("content")?.get("raw")?.as_str()?.to_owned() },
        });
    }
    Some(Some(out))
}

/// Decodes an issue listing. An empty or absent `values` collection yields
/// an empty sequence, not an error; a body that does not decode is a
/// decode error carrying the body.
pub fn list_issues_from_body(body: &str) -> (r: Result<Vec<Issue>, FlowError>)
    ensures
        tracker_issues_of(body@) is None ==> (r matches Err(FlowError::Decode(m)) && m@ == body@),
        tracker_issues_of(body@) matches Some(None) ==> (r matches Ok(v) && v@.len() == 0),
        tracker_issues_of(body@) matches Some(Some(recs)) ==> (r matches Ok(v) && issue_recs(v@)
            == recs),
{
    match parse_tracker_issues(body) {
        None => Err(FlowError::Decode(String::from_str(body))),
        Some(None) => Ok(Vec::new()),
        Some(Some(v)) => Ok(v),
    }
}

/// What decoding a commit listing yields on the given body text: nothing
/// where the body is not JSON, an inner `None` where no first commit hash
/// is present, else the hash. The result depends on the body text alone.
pub uninterp spec fn commit_hash_of(body: Seq<char>) -> Option<Option<Seq<char>>>;

/// The view of a decoded commit hash.
pub open spec fn hash_opt_view(r: Option<Option<String>>) -> Option<Option<Seq<char>>> {
    match r {
        None => None,
        Some(None) => Some(None),
        Some(Some(h)) => Some(Some(h@)),
    }
}

/// Relies on `serde_json::from_str`, `Value::get` and `Value::as_str`:
/// reads `values[0].hash` from the tracker's commit listing. `None` where
/// the body is not JSON; `Some(None)` where no hash string is at that
/// path.
#[verifier::external_body]
fn parse_first_commit_hash(body: &str) -> (r: Option<Option<String>>)
    ensures
        hash_opt_view(r) == commit_hash_of(body@),
{
    let v: serde_json::Value = serde_json::from_str(body).ok()?;
    let hash = v.get("values").and_then(|a| a.get(0)).and_then(|c| c.get("hash")).and_then(
        |h| h.as_str(),
    ).map(|h| h.to_owned());
    Some(hash)
}

/// Reads the latest commit hash of the base branch from the commit
/// listing: the hash of the first listed commit. A body that does not
/// decode is a decode error carrying the body; a decoded listing without
/// a hash means the resource is absent.
pub fn latest_commit_from_body(body: &str) -> (r: Result<String, FlowError>)
    ensures
        commit_hash_of(body@) is None ==> (r matches Err(FlowError::Decode(m)) && m@ == body@),
        commit_hash_of(body@) matches Some(None) ==> r == Err::<String, FlowError>(
            FlowError::NotFound,
        ),
        commit_hash_of(body@) matches Some(Some(h)) ==> (r matches Ok(s) && s@ == h),
{
    match parse_first_commit_hash(body) {
        None => Err(FlowError::Decode(String::from_str(body))),
        Some(None) => Err(FlowError::NotFound),
        Some(Some(h)) => Ok(h),
    }
}

/// An HTTP success status.
pub open spec fn is_success_status(status: u16) -> bool {
    200 <= status < 300
}

/// Decides branch existence from the response to the branch lookup:
/// success means the branch exists, 404 means it does not, and anything
/// else is an error carrying the response body.
pub fn branch_exists_from_status(status: u16, body: &str) -> (r: Result<bool, FlowError>)
    ensures
        is_success_status(status) ==> r == Ok::<bool, FlowError>(true),
        status == 404 ==> r == Ok::<bool, FlowError>(false),
        !is_success_status(status) && status != 404 ==> (r matches Err(FlowError::Network(m)) && m@
            == body@),
{
    if 200 <= status && status < 300 {
        Ok(true)
    } else if status == 404 {
        Ok(false)
    } else {
        Err(FlowError::Network(String::from_str(body)))
    }
}

/// Decides the outcome of branch creation: success, or an error carrying
/// the response body.
pub fn create_branch_from_status(status: u16, body: &str) -> (r: Result<(), FlowError>)
    ensures
        is_success_status(status) ==> r is Ok,
        !is_success_status(status) ==> (r matches Err(FlowError::Network(m)) && m@ == body@),
{
    if 200 <= status && status < 300 {
        Ok(())
    } else {
        Err(FlowError::Network(String::from_str(body)))
    }
}

/// Decides the outcome of committing a file: success, or an error carrying
/// the status and the response body.
pub fn commit_file_from_status(status: u16, body: &str) -> (r: Result<(), FlowError>)
    ensures
        is_success_status(status) ==> r is Ok,
        !is_success_status(status) ==> (r matches Err(FlowError::Network(m)) && m@ == dec_str(
            status as nat,
        ) + " - "@ + body@),
{
    if 200 <= status && status < 300 {
        Ok(())
    } else {
        let mut m = u32_to_string(status as u32);
        m.append(" - ");
        m.append(body);
        Err(FlowError::Network(m))
    }
}

} // verus!
