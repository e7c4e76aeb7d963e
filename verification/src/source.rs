//! The manifest source: where a project's manifest is fetched from, and
//! which responses are taken for a manifest.

use vstd::prelude::*;
use vstd::string::*;
use crate::error::Failure;

verus! {

/// The address of the manifest of `project`, owned by `owner`, on the remote host.
pub open spec fn manifest_url_of(owner: Seq<char>, project: Seq<char>) -> Seq<char> {
    "https://raw.githubusercontent.com/"@ + owner + "/"@ + project + "/master/Cargo.toml"@
}

/// The address from which the manifest of a project is fetched.
pub fn manifest_url(owner: &str, project: &str) -> (url: String)
    ensures
        url@ == manifest_url_of(owner@, project@),
{
    "https://raw.githubusercontent.com/".to_owned().concat(owner).concat("/").concat(project).concat(
        "/master/Cargo.toml",
    )
}

/// Whether a response status reports success.
pub open spec fn is_success(status: u16) -> bool {
    200 <= status < 300
}

/// What a response from the remote host gives.
pub open spec fn response_outcome(status: u16, body: Option<String>) -> Result<Seq<char>, Failure> {
    if !is_success(status) {
        Err(Failure::BadStatus(status))
    } else {
        match body {
            Some(text) => Ok(text@),
            None => Err(Failure::UnreadableBody),
        }
    }
}

/// Takes the manifest text out of a response. The status is looked at
/// first: a response outside the success range fails whatever its body; a
/// successful one fails only if its body could not be read as text.
pub fn accept_response(status: u16, body: Option<String>) -> (r: Result<String, Failure>)
    ensures
        match response_outcome(status, body) {
            Ok(text) => r is Ok && r->Ok_0@ == text,
            Err(failure) => r == Err::<String, Failure>(failure),
        },
{
    if status < 200 || status >= 300 {
        Err(Failure::BadStatus(status))
    } else {
        match body {
            Some(text) => Ok(text),
            None => Err(Failure::UnreadableBody),
        }
    }
}

} // verus!
