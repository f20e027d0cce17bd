//! Download decision logic: when an existing destination file satisfies a
//! request, when it must be deleted first, and which integrity checks the
//! written result must pass. The network transfer itself is the caller's
//! work; every decision around it is made here.

use vstd::prelude::*;

use crate::errors::FetchError;
use crate::text::ends_with;

verus! {

/// A destination file below this size is treated as corrupt and removed.
pub const MIN_VALID_SIZE: u64 = 1000;

/// What to do about the destination file before any network traffic.
#[derive(Clone, Copy, Debug, PartialEq, Eq, Structural)]
pub enum PreAction {
    /// The existing file satisfies the request: no network call at all.
    UseExisting,
    /// Delete the existing file, then download.
    DeleteThenDownload,
    /// Nothing is there yet: download.
    DownloadFresh,
}

/// Decides how a download request treats an existing destination.
///
/// An existing file of at least `MIN_VALID_SIZE` bytes satisfies a non-forced
/// request with no network call; a smaller one is deleted and fetched again
/// whatever `force` says; a forced request always deletes first.
pub fn fetch_precheck(dest_exists: bool, dest_size: u64, force: bool) -> (r: PreAction)
    ensures
        !dest_exists ==> r == PreAction::DownloadFresh,
        dest_exists && force ==> r == PreAction::DeleteThenDownload,
        dest_exists && !force && dest_size < MIN_VALID_SIZE ==> r == PreAction::DeleteThenDownload,
        dest_exists && !force && dest_size >= MIN_VALID_SIZE ==> r == PreAction::UseExisting,
{
    if !dest_exists {
        PreAction::DownloadFresh
    } else if force {
        PreAction::DeleteThenDownload
    } else if dest_size < MIN_VALID_SIZE {
        PreAction::DeleteThenDownload
    } else {
        PreAction::UseExisting
    }
}

/// Maps an HTTP status to the download outcome: any non-success status is a
/// `FetchError::BadStatus` carrying that status.
pub fn check_status(status: u16, is_success: bool) -> (r: Result<(), FetchError>)
    ensures
        is_success <==> r is Ok,
        !is_success ==> r == Result::<(), FetchError>::Err(FetchError::BadStatus(status)),
{
    if is_success {
        Ok(())
    } else {
        Err(FetchError::BadStatus(status))
    }
}

/// The name has a `.zip` extension: it ends in `.zip` and a file name stem
/// stands before the dot.
pub open spec fn spec_is_zip_name(name: Seq<char>) -> bool {
    name.len() >= 5 && ends_with(name, ".zip"@)
}

/// Extension test for archive names.
pub fn is_zip_name(name: &str) -> (r: bool)
    ensures
        r == spec_is_zip_name(name@),
{
    let len = name.unicode_len();
    len >= 5 && crate::text::ends_with_str(name, ".zip")
}

/// The first bytes of a ZIP archive.
pub open spec fn spec_zip_magic_ok(head: Seq<u8>) -> bool {
    head.len() >= 4 ==> (head[0] == 0x50 && head[1] == 0x4b)
}

/// Validates a completed download: `dest_name` is the destination file name,
/// `final_size` its size on disk, and `head` its first bytes (up to four).
///
/// A zero-byte result is `EmptyFile`; a `.zip` destination whose first bytes
/// are readable but are not the ZIP signature is `BadFormat` — the guard
/// against an error page saved as if it were an archive. In both error cases
/// the caller must delete the file. A short head (under four bytes) passes
/// the signature check, as an unreadable header does.
pub fn validate_download(dest_name: &str, final_size: u64, head: &Vec<u8>) -> (r: Result<
    (),
    FetchError,
>)
    ensures
        final_size == 0 ==> r == Result::<(), FetchError>::Err(FetchError::EmptyFile),
        final_size > 0 && spec_is_zip_name(dest_name@) && !spec_zip_magic_ok(head@) ==> r
            == Result::<(), FetchError>::Err(FetchError::BadFormat),
        final_size > 0 && (!spec_is_zip_name(dest_name@) || spec_zip_magic_ok(head@)) ==> r is Ok,
{
    if final_size == 0 {
        return Err(FetchError::EmptyFile);
    }
    if is_zip_name(dest_name) {
        if head.len() >= 4 {
            let b0 = head[0];
            let b1 = head[1];
            if !(b0 == 0x50 && b1 == 0x4b) {
                return Err(FetchError::BadFormat);
            }
        }
    }
    Ok(())
}

/// Percentage of a download that is complete, for progress events.
pub fn progress_percent(downloaded: u64, total: u64) -> (r: u64)
    requires
        total > 0,
        downloaded <= total,
    ensures
        r == downloaded as int * 100 / total as int,
        r <= 100,
{
    proof {
        let d = downloaded as int;
        let t = total as int;
        assert(d * 100 <= t * 100) by (nonlinear_arith)
            requires
                d <= t,
        ;
        assert(d * 100 / t <= t * 100 / t) by (nonlinear_arith)
            requires
                d * 100 <= t * 100,
                t > 0,
        ;
        assert(t * 100 / t == 100) by (nonlinear_arith)
            requires
                t > 0,
        ;
    }
    ((downloaded as u128 * 100) / (total as u128)) as u64
}

} // verus!
