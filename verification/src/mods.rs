//! The fixed auxiliary mod set, the readiness predicate over the installed
//! tree, the legacy-artifact cleanup, and the orchestrator's stage sequence.

use vstd::prelude::*;

use crate::fetch::{fetch_precheck, PreAction};
use crate::layout::{path_join, spec_path_join};
use crate::sync::{is_client_family_name, spec_is_client_family};
use crate::text::{contains_ci, ends_with, ends_with_ci, has_substring, lower_seq};

verus! {

/// The version-metadata server.
pub fn server_url() -> (r: &'static str)
    ensures
        r@ == "https://booleanclient.online"@,
{
    "https://booleanclient.online"
}

/// The pinned runtime-tree archive.
pub fn launch_zip_url() -> (r: &'static str)
    ensures
        r@ == "https://github.com/zxctehas1337/1/releases/download/Beta/launch.zip"@,
{
    "https://github.com/zxctehas1337/1/releases/download/Beta/launch.zip"
}

/// One pinned auxiliary artifact: a fixed URL, the file name it installs
/// under, and the version tag it is pinned to.
#[derive(Debug, Clone)]
pub struct PinnedMod {
    pub url: String,
    pub filename: String,
    pub version: String,
}

/// The fixed auxiliary mod set, pinned per run: the loader API and the
/// performance patch. No remote version negotiation happens for these.
pub fn pinned_mods() -> (r: Vec<PinnedMod>)
    ensures
        r@.len() == 2,
        r@[0].url@ == "https://cdn.modrinth.com/data/P7dR8mSH/versions/KEv54FjE/fabric-api-0.111.0%2B1.21.4.jar"@,
        r@[0].filename@ == "fabric-api-0.111.0+1.21.4.jar"@,
        r@[0].version@ == "0.111.0+1.21.4"@,
        r@[1].url@ == "https://cdn.modrinth.com/data/AANobbMI/versions/c3YkZvne/sodium-fabric-0.6.13%2Bmc1.21.4.jar"@,
        r@[1].filename@ == "sodium-fabric-0.6.13+mc1.21.4.jar"@,
        r@[1].version@ == "0.6.13+mc1.21.4"@,
{
    let mut r: Vec<PinnedMod> = Vec::new();
    r.push(
        PinnedMod {
            url: String::from_str(
                "https://cdn.modrinth.com/data/P7dR8mSH/versions/KEv54FjE/fabric-api-0.111.0%2B1.21.4.jar",
            ),
            filename: String::from_str("fabric-api-0.111.0+1.21.4.jar"),
            version: String::from_str("0.111.0+1.21.4"),
        },
    );
    r.push(
        PinnedMod {
            url: String::from_str(
                "https://cdn.modrinth.com/data/AANobbMI/versions/c3YkZvne/sodium-fabric-0.6.13%2Bmc1.21.4.jar",
            ),
            filename: String::from_str("sodium-fabric-0.6.13+mc1.21.4.jar"),
            version: String::from_str("0.6.13+mc1.21.4"),
        },
    );
    r
}

/// A pinned artifact is checked non-forced: an adequately sized file at the
/// pinned name is kept with no network call, anything else is (re)fetched.
pub fn pinned_mod_action(dest_exists: bool, dest_size: u64) -> (r: PreAction)
    ensures
        dest_exists && dest_size >= crate::fetch::MIN_VALID_SIZE ==> r == PreAction::UseExisting,
        dest_exists && dest_size < crate::fetch::MIN_VALID_SIZE ==> r
            == PreAction::DeleteThenDownload,
        !dest_exists ==> r == PreAction::DownloadFresh,
{
    fetch_precheck(dest_exists, dest_size, false)
}

/// Some `.jar` in the listing carries the alias in its name, without regard
/// to ASCII case.
pub open spec fn spec_has_mod(names: Seq<Seq<char>>, alias: Seq<char>) -> bool {
    exists|i: int|
        0 <= i < names.len() && ends_with(lower_seq(#[trigger] names[i]), lower_seq(".jar"@))
            && has_substring(lower_seq(names[i]), lower_seq(alias))
}

/// Scans a mods listing for a `.jar` matching the alias.
pub fn has_mod_file(names: &Vec<String>, alias: &str) -> (r: bool)
    ensures
        r == spec_has_mod(names.deep_view(), alias@),
{
    let mut i: usize = 0;
    while i < names.len()
        invariant
            0 <= i <= names@.len(),
            forall|k: int|
                0 <= k < i ==> !(ends_with(lower_seq(#[trigger] names.deep_view()[k]), lower_seq(".jar"@))
                    && has_substring(lower_seq(names.deep_view()[k]), lower_seq(alias@))),
        decreases names@.len() - i,
    {
        let name = &names[i];
        if ends_with_ci(name.as_str(), ".jar") && contains_ci(name.as_str(), alias) {
            proof {
                let dv = names.deep_view();
                assert(ends_with(lower_seq(dv[i as int]), lower_seq(".jar"@)) && has_substring(
                    lower_seq(dv[i as int]),
                    lower_seq(alias@),
                ));
            }
            return true;
        }
        i += 1;
    }
    false
}

/// Some entry of the listing is a main-artifact family file, by the one
/// family classifier the purge also goes through.
pub open spec fn spec_has_client_jar(names: Seq<Seq<char>>) -> bool {
    exists|i: int| 0 <= i < names.len() && spec_is_client_family(#[trigger] names[i])
}

/// Scans a mods listing for a main-artifact family file.
pub fn has_client_jar(names: &Vec<String>) -> (r: bool)
    ensures
        r == spec_has_client_jar(names.deep_view()),
{
    let mut i: usize = 0;
    while i < names.len()
        invariant
            0 <= i <= names@.len(),
            forall|k: int|
                0 <= k < i ==> !spec_is_client_family(#[trigger] names.deep_view()[k]),
        decreases names@.len() - i,
    {
        if is_client_family_name(names[i].as_str()) {
            proof {
                assert(spec_is_client_family(names.deep_view()[i as int]));
            }
            return true;
        }
        i += 1;
    }
    false
}

/// The runtime tree and the three required mods are all present: the
/// version descriptor and jar, the assets and libraries directories, and a
/// `.jar` in the public mods directory for each of the loader API, the
/// performance patch, and the main-artifact family.
pub open spec fn spec_mods_installed(
    runtime_json: bool,
    runtime_jar: bool,
    assets_dir: bool,
    libraries_dir: bool,
    names: Seq<Seq<char>>,
) -> bool {
    runtime_json && runtime_jar && assets_dir && libraries_dir && spec_has_mod(
        names,
        "fabric-api"@,
    ) && spec_has_mod(names, "sodium"@) && spec_has_client_jar(names)
}

/// The pure readiness predicate: may the runtime be relaunched without a
/// resync? An empty public mods directory always answers no, however
/// complete the runtime tree is.
pub fn check_mods_installed(
    runtime_json: bool,
    runtime_jar: bool,
    assets_dir: bool,
    libraries_dir: bool,
    mods_names: &Vec<String>,
) -> (r: bool)
    ensures
        r == spec_mods_installed(
            runtime_json,
            runtime_jar,
            assets_dir,
            libraries_dir,
            mods_names.deep_view(),
        ),
{
    if !(runtime_json && runtime_jar && assets_dir && libraries_dir) {
        return false;
    }
    has_mod_file(mods_names, "fabric-api") && has_mod_file(mods_names, "sodium") && has_client_jar(
        mods_names,
    )
}

/// The fixed version identifier of the runtime tree.
pub fn runtime_version_id() -> (r: &'static str)
    ensures
        r@ == "Fabric 1.21.4"@,
{
    "Fabric 1.21.4"
}

/// The four paths the readiness check stats under the runtime tree.
pub struct RuntimePaths {
    /// `<launch>/versions/<id>/<id>.json`
    pub version_json: String,
    /// `<launch>/versions/<id>/<id>.jar`
    pub version_jar: String,
    /// `<launch>/assets`
    pub assets_dir: String,
    /// `<launch>/libraries`
    pub libraries_dir: String,
}

/// Builds the runtime-tree paths the readiness check looks at.
pub fn runtime_paths(launch_dir: &str) -> (r: RuntimePaths)
    ensures
        r.version_json@ == spec_path_join(
            spec_path_join(spec_path_join(launch_dir@, "versions"@), "Fabric 1.21.4"@),
            "Fabric 1.21.4.json"@,
        ),
        r.version_jar@ == spec_path_join(
            spec_path_join(spec_path_join(launch_dir@, "versions"@), "Fabric 1.21.4"@),
            "Fabric 1.21.4.jar"@,
        ),
        r.assets_dir@ == spec_path_join(launch_dir@, "assets"@),
        r.libraries_dir@ == spec_path_join(launch_dir@, "libraries"@),
{
    let versions = path_join(launch_dir, "versions");
    let version_dir = path_join(versions.as_str(), "Fabric 1.21.4");
    RuntimePaths {
        version_json: path_join(version_dir.as_str(), "Fabric 1.21.4.json"),
        version_jar: path_join(version_dir.as_str(), "Fabric 1.21.4.jar"),
        assets_dir: path_join(launch_dir, "assets"),
        libraries_dir: path_join(launch_dir, "libraries"),
    }
}

/// A name of the unrelated legacy artifact family that is cleaned up
/// opportunistically.
pub open spec fn spec_is_legacy(name: Seq<char>) -> bool {
    has_substring(lower_seq(name), lower_seq("viafabric"@))
}

/// The legacy entries a cleanup deletes, in listing order.
pub open spec fn spec_legacy_deleted(names: Seq<Seq<char>>) -> Seq<Seq<char>>
    decreases names.len(),
{
    if names.len() == 0 {
        Seq::<Seq<char>>::empty()
    } else {
        let init = spec_legacy_deleted(names.drop_last());
        if spec_is_legacy(names.last()) {
            init.push(names.last())
        } else {
            init
        }
    }
}

/// Lists the legacy-family entries to delete from the public directory.
/// The deletions themselves are best-effort: a failure is swallowed.
pub fn legacy_purge_plan(names: &Vec<String>) -> (r: Vec<String>)
    ensures
        r.deep_view() == spec_legacy_deleted(names.deep_view()),
{
    let mut del: Vec<String> = Vec::new();
    let mut i: usize = 0;
    proof {
        assert(names.deep_view().take(0) =~= Seq::<Seq<char>>::empty());
        assert(del.deep_view() =~= spec_legacy_deleted(names.deep_view().take(0)));
    }
    while i < names.len()
        invariant
            0 <= i <= names@.len(),
            del.deep_view() == spec_legacy_deleted(names.deep_view().take(i as int)),
        decreases names@.len() - i,
    {
        let name = &names[i];
        let remove = contains_ci(name.as_str(), "viafabric");
        let ghost old_del = del.deep_view();
        if remove {
            del.push(name.clone());
        }
        i += 1;
        proof {
            let dv = names.deep_view();
            let pre = dv.take(i - 1);
            let now = dv.take(i as int);
            assert(now.drop_last() =~= pre);
            assert(now.last() == dv[i - 1]);
            if remove {
                assert(del.deep_view() =~= old_del.push(dv[i - 1]));
            }
            assert(del.deep_view() =~= spec_legacy_deleted(now));
        }
    }
    proof {
        assert(names.deep_view().take(names@.len() as int) =~= names.deep_view());
    }
    del
}

/// The provisioning stages, in order.
#[derive(Clone, Copy, Debug, PartialEq, Eq, Structural)]
pub enum Stage {
    /// Ensure the directory layout exists.
    Init,
    /// Install the runtime tree archive.
    LaunchFiles,
    /// Install the pinned loader API.
    FabricApi,
    /// Install the pinned performance patch.
    Sodium,
    /// Best-effort cleanup of the legacy artifact family.
    LegacyCleanup,
    /// Synchronize the main artifact.
    Client,
    /// Everything done.
    Complete,
}

/// The stage to run after `stage` finished with outcome `ok`: the next one
/// in sequence on success, `None` to abort on failure — except after the
/// best-effort cleanup, whose failure is swallowed, and the terminal stage,
/// which stays terminal.
pub open spec fn spec_next_stage(stage: Stage, ok: bool) -> Option<Stage> {
    match stage {
        Stage::Init => if ok {
            Some(Stage::LaunchFiles)
        } else {
            None
        },
        Stage::LaunchFiles => if ok {
            Some(Stage::FabricApi)
        } else {
            None
        },
        Stage::FabricApi => if ok {
            Some(Stage::Sodium)
        } else {
            None
        },
        Stage::Sodium => if ok {
            Some(Stage::LegacyCleanup)
        } else {
            None
        },
        Stage::LegacyCleanup => Some(Stage::Client),
        Stage::Client => if ok {
            Some(Stage::Complete)
        } else {
            None
        },
        Stage::Complete => Some(Stage::Complete),
    }
}

/// Advances the orchestrator by one stage.
pub fn next_stage(stage: Stage, ok: bool) -> (r: Option<Stage>)
    ensures
        r == spec_next_stage(stage, ok),
{
    match stage {
        Stage::Init => if ok {
            Some(Stage::LaunchFiles)
        } else {
            None
        },
        Stage::LaunchFiles => if ok {
            Some(Stage::FabricApi)
        } else {
            None
        },
        Stage::FabricApi => if ok {
            Some(Stage::Sodium)
        } else {
            None
        },
        Stage::Sodium => if ok {
            Some(Stage::LegacyCleanup)
        } else {
            None
        },
        Stage::LegacyCleanup => Some(Stage::Client),
        Stage::Client => if ok {
            Some(Stage::Complete)
        } else {
            None
        },
        Stage::Complete => Some(Stage::Complete),
    }
}

/// The progress percentage reported when a stage begins.
pub open spec fn spec_stage_percent(stage: Stage) -> int {
    match stage {
        Stage::Init => 0,
        Stage::LaunchFiles => 10,
        Stage::FabricApi => 35,
        Stage::Sodium => 55,
        Stage::LegacyCleanup => 70,
        Stage::Client => 75,
        Stage::Complete => 100,
    }
}

/// Progress percentage of a stage, for progress events.
pub fn stage_percent(stage: Stage) -> (r: u8)
    ensures
        r as int == spec_stage_percent(stage),
{
    match stage {
        Stage::Init => 0,
        Stage::LaunchFiles => 10,
        Stage::FabricApi => 35,
        Stage::Sodium => 55,
        Stage::LegacyCleanup => 70,
        Stage::Client => 75,
        Stage::Complete => 100,
    }
}

/// Progress law: stage progress never decreases along the stage sequence.
pub proof fn lemma_stage_progress_monotonic(stage: Stage, ok: bool)
    ensures
        match spec_next_stage(stage, ok) {
            Some(next) => spec_stage_percent(next) >= spec_stage_percent(stage),
            None => true,
        },
{
}

} // verus!
