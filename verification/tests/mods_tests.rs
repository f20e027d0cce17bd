use launcher_core::fetch::PreAction;
use launcher_core::mods::{
    check_mods_installed, has_mod_file, launch_zip_url, legacy_purge_plan, next_stage,
    pinned_mod_action, pinned_mods, runtime_paths, runtime_version_id, server_url, stage_percent,
    Stage,
};

fn s(v: &str) -> String {
    String::from(v)
}

#[test]
fn empty_mods_directory_is_never_installed() {
    // Even a fully present runtime tree does not count as installed while
    // the public mods directory is empty.
    let empty: Vec<String> = Vec::new();
    assert!(!check_mods_installed(true, true, true, true, &empty));
}

#[test]
fn all_three_mod_families_are_required() {
    let full = vec![
        s("fabric-api-0.111.0+1.21.4.jar"),
        s("sodium-fabric-0.6.13+mc1.21.4.jar"),
        s("boolean-client-2.0.jar"),
    ];
    assert!(check_mods_installed(true, true, true, true, &full));
    let missing_sodium = vec![s("fabric-api.jar"), s("boolean-client-2.0.jar")];
    assert!(!check_mods_installed(true, true, true, true, &missing_sodium));
    // A matching name that is not a .jar does not count.
    let not_jars = vec![s("fabric-api.txt"), s("sodium.txt"), s("boolean.txt")];
    assert!(!check_mods_installed(true, true, true, true, &not_jars));
}

#[test]
fn any_family_alias_counts_as_the_main_artifact() {
    // The main-artifact slot goes through the family classifier, so every
    // alias of the set satisfies it.
    for artifact in ["client-2.0.jar", "shakedown-x.jar", "ARIZON-build.jar", "exosware.jar"] {
        let names = vec![s("fabric-api.jar"), s("sodium.jar"), s(artifact)];
        assert!(check_mods_installed(true, true, true, true, &names));
    }
    let no_artifact = vec![s("fabric-api.jar"), s("sodium.jar"), s("optifine.jar")];
    assert!(!check_mods_installed(true, true, true, true, &no_artifact));
}

#[test]
fn incomplete_runtime_tree_is_not_installed() {
    let full = vec![s("fabric-api.jar"), s("sodium.jar"), s("boolean.jar")];
    assert!(!check_mods_installed(false, true, true, true, &full));
    assert!(!check_mods_installed(true, false, true, true, &full));
    assert!(!check_mods_installed(true, true, false, true, &full));
    assert!(!check_mods_installed(true, true, true, false, &full));
}

#[test]
fn mod_scan_ignores_ascii_case() {
    let names = vec![s("Fabric-API-0.111.0.JAR")];
    assert!(has_mod_file(&names, "fabric-api"));
    assert!(!has_mod_file(&names, "sodium"));
}

#[test]
fn pinned_checks_are_not_forced() {
    assert_eq!(pinned_mod_action(true, 200_000), PreAction::UseExisting);
    assert_eq!(pinned_mod_action(true, 12), PreAction::DeleteThenDownload);
    assert_eq!(pinned_mod_action(false, 0), PreAction::DownloadFresh);
}

#[test]
fn pinned_set_is_fixed() {
    let mods = pinned_mods();
    assert_eq!(mods.len(), 2);
    assert_eq!(mods[0].filename, "fabric-api-0.111.0+1.21.4.jar");
    assert_eq!(mods[0].version, "0.111.0+1.21.4");
    assert!(mods[0].url.contains("fabric-api"));
    assert_eq!(mods[1].filename, "sodium-fabric-0.6.13+mc1.21.4.jar");
    assert_eq!(mods[1].version, "0.6.13+mc1.21.4");
    assert!(mods[1].url.contains("sodium"));
    assert_eq!(server_url(), "https://booleanclient.online");
    assert!(launch_zip_url().ends_with("launch.zip"));
}

#[test]
fn runtime_paths_under_the_fixed_version_id() {
    assert_eq!(runtime_version_id(), "Fabric 1.21.4");
    let p = runtime_paths("/base/launch");
    assert_eq!(p.version_json, "/base/launch/versions/Fabric 1.21.4/Fabric 1.21.4.json");
    assert_eq!(p.version_jar, "/base/launch/versions/Fabric 1.21.4/Fabric 1.21.4.jar");
    assert_eq!(p.assets_dir, "/base/launch/assets");
    assert_eq!(p.libraries_dir, "/base/launch/libraries");
}

#[test]
fn legacy_cleanup_targets_only_its_family() {
    let names = vec![s("ViaFabric-1.0.jar"), s("sodium.jar"), s("viafabric-extra")];
    assert_eq!(legacy_purge_plan(&names), vec![s("ViaFabric-1.0.jar"), s("viafabric-extra")]);
}

#[test]
fn stages_run_in_order_and_abort_on_failure() {
    assert_eq!(next_stage(Stage::Init, true), Some(Stage::LaunchFiles));
    assert_eq!(next_stage(Stage::LaunchFiles, true), Some(Stage::FabricApi));
    assert_eq!(next_stage(Stage::FabricApi, true), Some(Stage::Sodium));
    assert_eq!(next_stage(Stage::Sodium, true), Some(Stage::LegacyCleanup));
    assert_eq!(next_stage(Stage::LegacyCleanup, true), Some(Stage::Client));
    assert_eq!(next_stage(Stage::Client, true), Some(Stage::Complete));
    // Any stage failure aborts — except the best-effort cleanup.
    assert_eq!(next_stage(Stage::Init, false), None);
    assert_eq!(next_stage(Stage::FabricApi, false), None);
    assert_eq!(next_stage(Stage::LegacyCleanup, false), Some(Stage::Client));
    assert_eq!(next_stage(Stage::Client, false), None);
}

#[test]
fn stage_progress_is_monotonic() {
    let order = [
        Stage::Init,
        Stage::LaunchFiles,
        Stage::FabricApi,
        Stage::Sodium,
        Stage::LegacyCleanup,
        Stage::Client,
        Stage::Complete,
    ];
    for w in order.windows(2) {
        assert!(stage_percent(w[0]) <= stage_percent(w[1]));
    }
    assert_eq!(stage_percent(Stage::Init), 0);
    assert_eq!(stage_percent(Stage::Complete), 100);
}
