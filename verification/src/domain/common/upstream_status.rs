//! How the proxy reads the HTTP status a substituter answers with.
use vstd::prelude::*;

verus! {

/// What a substituter's answer says.
#[derive(Debug, Clone, Copy, PartialEq, Eq, Hash)]
pub enum UpstreamStatus {
    /// The file is there.
    Found,
    /// The substituter does not have the file, or does not let it be read.
    Missing,
    /// The substituter failed.
    Failed,
}

pub open spec fn upstream_status_spec(status: u16) -> UpstreamStatus {
    if 200 <= status < 300 {
        UpstreamStatus::Found
    } else if status == 404 || status == 403 {
        UpstreamStatus::Missing
    } else {
        UpstreamStatus::Failed
    }
}

/// What the status `status` says: a success finds the file, `404` and
/// `403` mean the file is not there, anything else is a failure.
pub fn upstream_status(status: u16) -> (r: UpstreamStatus)
    ensures
        r == upstream_status_spec(status),
{
    if 200 <= status && status < 300 {
        UpstreamStatus::Found
    } else if status == 404 || status == 403 {
        UpstreamStatus::Missing
    } else {
        UpstreamStatus::Failed
    }
}

} // verus!
