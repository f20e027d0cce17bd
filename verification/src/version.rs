//! The authoritative remote version record and the envelope it arrives in.
//!
//! The caller performs the metadata request and hands the decoded fields
//! over as plain values; this module decides whether the envelope carries a
//! usable record and derives the artifact file name from it.

use vstd::prelude::*;

use crate::text::{spec_split, split_char};

verus! {

/// The latest state the server reports for the main artifact.
#[derive(Debug, Clone)]
pub struct VersionInfo {
    /// Version tag, e.g. `2.0`.
    pub version: String,
    /// Where the artifact is fetched from.
    pub download_url: String,
    /// Free-text release notes, if the server sent any.
    pub changelog: Option<String>,
    /// ISO-8601 timestamp of the release, if the server sent one.
    pub updated_at: Option<String>,
}

/// The envelope the version-metadata endpoint answers with.
#[derive(Debug, Clone)]
pub struct ApiResponse {
    pub success: bool,
    pub data: Option<VersionInfo>,
    pub message: Option<String>,
}

/// Extracts the version record from an envelope: an unsuccessful answer or a
/// missing record is an error carrying the server's message, if any.
pub fn version_from_response(r: ApiResponse) -> (out: Result<VersionInfo, Option<String>>)
    ensures
        r.success && r.data is Some ==> out == Result::<VersionInfo, Option<String>>::Ok(
            r.data->Some_0,
        ),
        !(r.success && r.data is Some) ==> out == Result::<VersionInfo, Option<String>>::Err(
            r.message,
        ),
{
    if r.success {
        match r.data {
            Some(v) => Ok(v),
            None => Err(r.message),
        }
    } else {
        Err(r.message)
    }
}

/// An update is on offer when the locally installed version tag differs from
/// the server's tag, or none is installed.
pub fn has_update(current: &Option<String>, server: &String) -> (r: bool)
    ensures
        r == match current {
            Some(c) => c@ != server@,
            None => true,
        },
{
    match current {
        Some(c) => !c.eq(server),
        None => true,
    }
}

/// Default artifact file name when the download URL ends in a separator:
/// a fixed stem with the version tag embedded.
pub open spec fn spec_default_client_name(version: Seq<char>) -> Seq<char> {
    "boolean-client-"@ + version + ".jar"@
}

/// The artifact file name a version record installs to: the last segment of
/// the download URL, or the default versioned name when that segment is
/// empty.
pub open spec fn spec_client_filename(url: Seq<char>, version: Seq<char>) -> Seq<char> {
    let parts = spec_split(url, '/');
    if parts.last().len() > 0 {
        parts.last()
    } else {
        spec_default_client_name(version)
    }
}

/// Derives the artifact file name from the download URL and version tag.
pub fn client_filename_from_url(url: &str, version: &str) -> (r: String)
    ensures
        r@ == spec_client_filename(url@, version@),
{
    let parts = split_char(url, '/');
    let n = parts.len();
    proof {
        assert(parts.deep_view()[n - 1] == parts.deep_view().last());
    }
    let last = &parts[n - 1];
    if last.as_str().unicode_len() > 0 {
        last.clone()
    } else {
        let r = String::from_str("boolean-client-").concat(version).concat(".jar");
        proof {
            assert(r@ =~= spec_default_client_name(version@));
        }
        r
    }
}

} // verus!
