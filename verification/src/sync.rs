//! Main-artifact synchronization: the staleness decision table, the family
//! classifier that recognizes stale same-family files, the purge plans for
//! the private store and the public directory, and the complete plan a sync
//! run executes.
//!
//! The caller stats files, lists directories and performs downloads; every
//! decision about that work is made and proved here.

use vstd::prelude::*;

use crate::errors::SyncError;
use crate::fetch::MIN_VALID_SIZE;
use crate::text::{
    ends_with, ends_with_ci, contains_ci, eq_ci, has_substring, lex_lt, lower_seq, str_lt,
};
use crate::version::{spec_client_filename, client_filename_from_url, VersionInfo};

verus! {

/// What a sync run decides to do about the main artifact.
#[derive(Clone, Copy, Debug, PartialEq, Eq, Structural)]
pub enum SyncDecision {
    /// Purge stale copies, download the new artifact, persist new state.
    Update,
    /// Keep what is installed; at most repair the public copy.
    UpToDate,
}

/// View of an optional string as an optional character sequence.
pub open spec fn opt_view(o: Option<String>) -> Option<Seq<char>> {
    match o {
        Some(s) => Some(s@),
        None => None,
    }
}

/// The staleness decision table, over the server's `updatedAt`, the locally
/// persisted `updatedAt`, and whether a valid hidden copy is on disk.
///
/// A strictly newer server timestamp always updates; an equal or older one
/// updates only when the hidden copy is missing or invalid; a server record
/// without a timestamp falls back to the hidden-copy check alone.
pub open spec fn spec_decide(
    server: Option<Seq<char>>,
    saved: Option<Seq<char>>,
    hidden_valid: bool,
) -> SyncDecision {
    match server {
        Some(s) => match saved {
            Some(l) => if lex_lt(l, s) {
                SyncDecision::Update
            } else if !hidden_valid {
                SyncDecision::Update
            } else {
                SyncDecision::UpToDate
            },
            None => SyncDecision::Update,
        },
        None => if hidden_valid {
            SyncDecision::UpToDate
        } else {
            SyncDecision::Update
        },
    }
}

/// Decides between updating and keeping the installed artifact.
pub fn decide_update(server: &Option<String>, saved: &Option<String>, hidden_valid: bool) -> (r:
    SyncDecision)
    ensures
        r == spec_decide(opt_view(*server), opt_view(*saved), hidden_valid),
{
    match server {
        Some(s) => match saved {
            Some(l) => {
                if str_lt(l.as_str(), s.as_str()) {
                    SyncDecision::Update
                } else if !hidden_valid {
                    SyncDecision::Update
                } else {
                    SyncDecision::UpToDate
                }
            },
            None => SyncDecision::Update,
        },
        None => {
            if hidden_valid {
                SyncDecision::UpToDate
            } else {
                SyncDecision::Update
            }
        },
    }
}

/// A file stands in for the artifact only when it is a regular file of at
/// least the minimum valid size; anything smaller counts as corrupt.
pub fn valid_artifact(is_file: bool, size: u64) -> (r: bool)
    ensures
        r == (is_file && size >= MIN_VALID_SIZE),
{
    is_file && size >= MIN_VALID_SIZE
}

/// No sequence is lexicographically below itself.
pub proof fn lemma_lex_irrefl(s: Seq<char>)
    ensures
        !lex_lt(s, s),
    decreases s.len(),
{
    if s.len() > 0 {
        lemma_lex_irrefl(s.skip(1));
    }
}

/// Staleness law: a strictly newer server timestamp decides "update" no
/// matter what is on disk, and an equal-or-older one with a valid hidden
/// copy decides "up to date".
pub proof fn lemma_staleness_decision(s: Seq<char>, l: Seq<char>, hidden_valid: bool)
    ensures
        lex_lt(l, s) ==> spec_decide(Some(s), Some(l), hidden_valid) == SyncDecision::Update,
        !lex_lt(l, s) && hidden_valid ==> spec_decide(Some(s), Some(l), hidden_valid)
            == SyncDecision::UpToDate,
{
}

/// The persisted timestamp after a completed update: the server's value when
/// it sent one, the previous value otherwise.
pub open spec fn spec_saved_after_update(
    server: Option<Seq<char>>,
    saved_before: Option<Seq<char>>,
) -> Option<Seq<char>> {
    match server {
        Some(u) => Some(u),
        None => saved_before,
    }
}

/// Idempotence law: once an update has completed — the server's timestamp
/// persisted and a valid hidden copy in place — a second sync against an
/// unchanged server decides "up to date", and so plans no download and no
/// purge.
pub proof fn lemma_sync_idempotent(server: Option<Seq<char>>, saved_before: Option<Seq<char>>)
    ensures
        spec_decide(server, spec_saved_after_update(server, saved_before), true)
            == SyncDecision::UpToDate,
{
    match server {
        Some(u) => {
            lemma_lex_irrefl(u);
        },
        None => {},
    }
}

/// Repair safety: "up to date" is only ever decided while a valid hidden
/// copy is on disk, so the public-copy repair always has a source to copy
/// from.
pub proof fn lemma_up_to_date_has_hidden_copy(
    server: Option<Seq<char>>,
    saved: Option<Seq<char>>,
    hidden_valid: bool,
)
    ensures
        spec_decide(server, saved, hidden_valid) == SyncDecision::UpToDate ==> hidden_valid,
{
}

/// A name belongs to the main-artifact family: a `.jar` whose name contains
/// one of the known family aliases, compared without regard to ASCII case.
/// The `client` stem covers the server's own artifact naming and the
/// versioned default file name; the remaining aliases are the family's
/// historical brand names.
pub open spec fn spec_is_client_family(name: Seq<char>) -> bool {
    ends_with(lower_seq(name), lower_seq(".jar"@)) && (has_substring(
        lower_seq(name),
        lower_seq("client"@),
    ) || has_substring(lower_seq(name), lower_seq("boolean"@)) || has_substring(
        lower_seq(name),
        lower_seq("shakedown"@),
    ) || has_substring(lower_seq(name), lower_seq("arizon"@)) || has_substring(
        lower_seq(name),
        lower_seq("exosware"@),
    ))
}

/// Family classifier for artifact file names.
pub fn is_client_family_name(name: &str) -> (r: bool)
    ensures
        r == spec_is_client_family(name@),
{
    ends_with_ci(name, ".jar") && (contains_ci(name, "client") || contains_ci(name, "boolean")
        || contains_ci(name, "shakedown") || contains_ci(name, "arizon") || contains_ci(
        name,
        "exosware",
    ))
}

/// A public-directory entry left behind by an unpacked artifact: anything
/// named after the artifact aliases, or the archive directories it unpacks
/// into.
pub open spec fn spec_is_leftover(name: Seq<char>) -> bool {
    has_substring(lower_seq(name), lower_seq("arizon"@)) || has_substring(
        lower_seq(name),
        lower_seq("boolean"@),
    ) || lower_seq(name) == lower_seq("com"@) || lower_seq(name) == lower_seq("meta-inf"@)
}

/// Leftover classifier for public-directory entries.
pub fn is_leftover_name(name: &str) -> (r: bool)
    ensures
        r == spec_is_leftover(name@),
{
    contains_ci(name, "arizon") || contains_ci(name, "boolean") || eq_ci(name, "com") || eq_ci(
        name,
        "meta-inf",
    )
}

/// An entry of the private store is purged when it is a family file other
/// than the target (compared without regard to case).
pub open spec fn hidden_purged(name: Seq<char>, target: Seq<char>) -> bool {
    spec_is_client_family(name) && lower_seq(name) != lower_seq(target)
}

/// An entry of the public directory is purged when it is a family file other
/// than the target, or a leftover of an unpacked artifact.
pub open spec fn mods_purged(name: Seq<char>, target: Seq<char>) -> bool {
    hidden_purged(name, target) || spec_is_leftover(name)
}

/// Whether `name` is purged from the directory `rule` describes: the public
/// directory when `mods_rule` holds, the private store otherwise.
pub open spec fn spec_purged(name: Seq<char>, target: Seq<char>, mods_rule: bool) -> bool {
    if mods_rule {
        mods_purged(name, target)
    } else {
        hidden_purged(name, target)
    }
}

/// The directory entries a purge deletes, in listing order.
pub open spec fn spec_purge_deleted(
    names: Seq<Seq<char>>,
    target: Seq<char>,
    mods_rule: bool,
) -> Seq<Seq<char>>
    decreases names.len(),
{
    if names.len() == 0 {
        Seq::<Seq<char>>::empty()
    } else {
        let init = spec_purge_deleted(names.drop_last(), target, mods_rule);
        if spec_purged(names.last(), target, mods_rule) {
            init.push(names.last())
        } else {
            init
        }
    }
}

/// The directory entries a purge keeps, in listing order.
pub open spec fn spec_purge_kept(
    names: Seq<Seq<char>>,
    target: Seq<char>,
    mods_rule: bool,
) -> Seq<Seq<char>>
    decreases names.len(),
{
    if names.len() == 0 {
        Seq::<Seq<char>>::empty()
    } else {
        let init = spec_purge_kept(names.drop_last(), target, mods_rule);
        if spec_purged(names.last(), target, mods_rule) {
            init
        } else {
            init.push(names.last())
        }
    }
}

/// Every kept entry survived because it is not purged.
pub proof fn lemma_kept_not_purged(names: Seq<Seq<char>>, target: Seq<char>, mods_rule: bool)
    ensures
        forall|i: int|
            0 <= i < spec_purge_kept(names, target, mods_rule).len() ==> !spec_purged(
                #[trigger] spec_purge_kept(names, target, mods_rule)[i],
                target,
                mods_rule,
            ),
    decreases names.len(),
{
    if names.len() > 0 {
        lemma_kept_not_purged(names.drop_last(), target, mods_rule);
        let init = spec_purge_kept(names.drop_last(), target, mods_rule);
        let kept = spec_purge_kept(names, target, mods_rule);
        assert forall|i: int| 0 <= i < kept.len() implies !spec_purged(
            kept[i],
            target,
            mods_rule,
        ) by {
            if spec_purged(names.last(), target, mods_rule) {
                assert(kept[i] == init[i]);
            } else {
                if i < init.len() {
                    assert(kept[i] == init[i]);
                } else {
                    assert(kept[i] == names.last());
                }
            }
        }
    }
}

/// Purge safety: after a purge and the download of the target, every entry
/// of the directory that matches the artifact family aliases bears the
/// target's name. The final directory is what the purge kept plus the file
/// the download (re)creates.
pub proof fn lemma_purge_safety(names: Seq<Seq<char>>, target: Seq<char>, mods_rule: bool)
    ensures
        forall|i: int|
            0 <= i < spec_purge_kept(names, target, mods_rule).push(target).len()
                ==> spec_is_client_family(
                #[trigger] spec_purge_kept(names, target, mods_rule).push(target)[i],
            ) ==> lower_seq(spec_purge_kept(names, target, mods_rule).push(target)[i])
                == lower_seq(target),
{
    lemma_kept_not_purged(names, target, mods_rule);
    let kept = spec_purge_kept(names, target, mods_rule);
    assert forall|i: int|
        0 <= i < kept.push(target).len() && spec_is_client_family(
            kept.push(target)[i],
        ) implies lower_seq(kept.push(target)[i]) == lower_seq(target) by {
        if i < kept.len() {
            assert(kept.push(target)[i] == kept[i]);
            assert(!spec_purged(kept[i], target, mods_rule));
        } else {
            assert(kept.push(target)[i] == target);
        }
    }
}

/// Lists the entries a purge run deletes from a directory listing. With
/// `mods_rule` the public-directory rule applies (family files other than
/// the target, plus unpacked leftovers); without it, the private-store rule
/// (family files other than the target).
pub fn purge_plan(names: &Vec<String>, target: &str, mods_rule: bool) -> (r: Vec<String>)
    ensures
        r.deep_view() == spec_purge_deleted(names.deep_view(), target@, mods_rule),
{
    let mut del: Vec<String> = Vec::new();
    let mut i: usize = 0;
    proof {
        assert(names.deep_view().take(0) =~= Seq::<Seq<char>>::empty());
        assert(del.deep_view() =~= spec_purge_deleted(
            names.deep_view().take(0),
            target@,
            mods_rule,
        ));
    }
    while i < names.len()
        invariant
            0 <= i <= names@.len(),
            del.deep_view() == spec_purge_deleted(
                names.deep_view().take(i as int),
                target@,
                mods_rule,
            ),
        decreases names@.len() - i,
    {
        let name = &names[i];
        let fam = is_client_family_name(name.as_str());
        let same = eq_ci(name.as_str(), target);
        let leftover = if mods_rule {
            is_leftover_name(name.as_str())
        } else {
            false
        };
        let remove = (fam && !same) || leftover;
        let ghost old_del = del.deep_view();
        if remove {
            del.push(name.clone());
        }
        i += 1;
        proof {
            let dv = names.deep_view();
            let pre = dv.take(i - 1);
            let now = dv.take(i as int);
            assert(now.drop_last() =~= pre);
            assert(now.last() == dv[i - 1]);
            assert(remove == spec_purged(dv[i - 1], target@, mods_rule));
            if remove {
                assert(del.deep_view() =~= old_del.push(dv[i - 1]));
            }
            assert(del.deep_view() =~= spec_purge_deleted(now, target@, mods_rule));
        }
    }
    proof {
        assert(names.deep_view().take(names@.len() as int) =~= names.deep_view());
    }
    del
}

/// After a forced download reported success the file must be on disk;
/// its absence is the post-download error.
pub fn post_download_check(hidden_file_exists: bool) -> (r: Result<(), SyncError>)
    ensures
        hidden_file_exists <==> r is Ok,
        !hidden_file_exists ==> r == Result::<(), SyncError>::Err(SyncError::PostDownloadMissing),
{
    if hidden_file_exists {
        Ok(())
    } else {
        Err(SyncError::PostDownloadMissing)
    }
}

/// Everything a sync run will do, decided up front from the server record
/// and the observed state of the two directories.
pub struct SyncPlan {
    /// The staleness decision.
    pub decision: SyncDecision,
    /// The artifact file name the run installs to, in both directories.
    pub filename: String,
    /// Entries to delete from the private store before the download.
    pub purge_hidden: Vec<String>,
    /// Entries to delete from the public directory before the download.
    pub purge_mods: Vec<String>,
    /// Whether to force-download the artifact into the private store.
    pub download: bool,
    /// Whether to copy the private copy into the public directory.
    pub copy_to_mods: bool,
    /// Whether to persist the server's version tag after success.
    pub persist_version: bool,
    /// Whether to persist the server's `updatedAt` after success.
    pub persist_updated_at: bool,
}

/// Builds the complete plan for one sync run.
///
/// `hidden_is_file` and `hidden_size` describe the private copy of the
/// target file, `mods_file_exists` and `mods_size` the public copy;
/// `hidden_names` and `mods_names` list the two directories. On an update
/// the plan purges both directories, downloads, copies, and persists; the
/// timestamp is persisted only when the server sent one, and only after the
/// download and copy succeeded — the caller must stop at the first failing
/// step. When up to date, the plan only repairs a public copy whose size
/// differs from the private copy's.
pub fn build_sync_plan(
    server: &VersionInfo,
    saved_updated_at: &Option<String>,
    hidden_is_file: bool,
    hidden_size: u64,
    mods_file_exists: bool,
    mods_size: u64,
    hidden_names: &Vec<String>,
    mods_names: &Vec<String>,
) -> (r: SyncPlan)
    ensures
        r.decision == spec_decide(
            opt_view(server.updated_at),
            opt_view(*saved_updated_at),
            hidden_is_file && hidden_size >= MIN_VALID_SIZE,
        ),
        r.filename@ == spec_client_filename(server.download_url@, server.version@),
        r.decision == SyncDecision::Update ==> {
            &&& r.download
            &&& r.copy_to_mods
            &&& r.persist_version
            &&& r.persist_updated_at == (server.updated_at is Some)
            &&& r.purge_hidden.deep_view() == spec_purge_deleted(
                hidden_names.deep_view(),
                r.filename@,
                false,
            )
            &&& r.purge_mods.deep_view() == spec_purge_deleted(
                mods_names.deep_view(),
                r.filename@,
                true,
            )
        },
        r.decision == SyncDecision::UpToDate ==> {
            &&& !r.download
            &&& !r.persist_version
            &&& !r.persist_updated_at
            &&& r.purge_hidden@.len() == 0
            &&& r.purge_mods@.len() == 0
            &&& r.copy_to_mods == (!mods_file_exists || hidden_size != mods_size)
        },
{
    let hidden_valid = valid_artifact(hidden_is_file, hidden_size);
    let decision = decide_update(&server.updated_at, saved_updated_at, hidden_valid);
    let filename = client_filename_from_url(server.download_url.as_str(), server.version.as_str());
    match decision {
        SyncDecision::Update => {
            let purge_hidden = purge_plan(hidden_names, filename.as_str(), false);
            let purge_mods = purge_plan(mods_names, filename.as_str(), true);
            let persist_updated_at = match &server.updated_at {
                Some(_) => true,
                None => false,
            };
            SyncPlan {
                decision,
                filename,
                purge_hidden,
                purge_mods,
                download: true,
                copy_to_mods: true,
                persist_version: true,
                persist_updated_at,
            }
        },
        SyncDecision::UpToDate => {
            let copy_to_mods = !mods_file_exists || hidden_size != mods_size;
            SyncPlan {
                decision,
                filename,
                purge_hidden: Vec::new(),
                purge_mods: Vec::new(),
                download: false,
                copy_to_mods,
                persist_version: false,
                persist_updated_at: false,
            }
        },
    }
}

} // verus!
