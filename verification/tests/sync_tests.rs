use launcher_core::errors::SyncError;
use launcher_core::sync::{
    build_sync_plan, decide_update, is_client_family_name, is_leftover_name, post_download_check,
    purge_plan, valid_artifact, SyncDecision,
};
use launcher_core::version::VersionInfo;

fn s(v: &str) -> String {
    String::from(v)
}

#[test]
fn decision_table_all_rows() {
    let newer = Some(s("2024-06-01"));
    let older = Some(s("2024-05-01"));
    // Server strictly newer: update, with or without a hidden copy.
    assert_eq!(decide_update(&newer, &Some(s("2024-05-01")), true), SyncDecision::Update);
    assert_eq!(decide_update(&newer, &Some(s("2024-05-01")), false), SyncDecision::Update);
    // Server equal or older, hidden copy missing: update.
    assert_eq!(decide_update(&older, &Some(s("2024-06-01")), false), SyncDecision::Update);
    assert_eq!(decide_update(&newer, &Some(s("2024-06-01")), false), SyncDecision::Update);
    // Server equal or older, hidden copy present: up to date.
    assert_eq!(decide_update(&older, &Some(s("2024-06-01")), true), SyncDecision::UpToDate);
    assert_eq!(decide_update(&newer, &Some(s("2024-06-01")), true), SyncDecision::UpToDate);
    // No local timestamp: update.
    assert_eq!(decide_update(&newer, &None, true), SyncDecision::Update);
    assert_eq!(decide_update(&newer, &None, false), SyncDecision::Update);
    // Server sent no timestamp: the hidden copy decides.
    assert_eq!(decide_update(&None, &Some(s("2024-06-01")), true), SyncDecision::UpToDate);
    assert_eq!(decide_update(&None, &Some(s("2024-06-01")), false), SyncDecision::Update);
    assert_eq!(decide_update(&None, &None, true), SyncDecision::UpToDate);
    assert_eq!(decide_update(&None, &None, false), SyncDecision::Update);
}

#[test]
fn artifact_validity_threshold() {
    assert!(valid_artifact(true, 1000));
    assert!(!valid_artifact(true, 999));
    assert!(!valid_artifact(false, 5000));
}

#[test]
fn family_classifier() {
    assert!(is_client_family_name("boolean-client-1.0.jar"));
    assert!(is_client_family_name("client-1.0.jar"));
    assert!(is_client_family_name("Client-2.0.JAR"));
    assert!(is_client_family_name("Shakedown-2.JAR"));
    assert!(is_client_family_name("old-ARIZON.jar"));
    assert!(is_client_family_name("exosware-build.jar"));
    assert!(!is_client_family_name("boolean-client-1.0.txt"));
    assert!(!is_client_family_name("client-2.0.zip"));
    assert!(!is_client_family_name("sodium-fabric.jar"));
    assert!(!is_client_family_name("fabric-api.jar"));
}

#[test]
fn leftover_classifier() {
    assert!(is_leftover_name("com"));
    assert!(is_leftover_name("META-INF"));
    assert!(is_leftover_name("arizon-stuff"));
    assert!(is_leftover_name("boolean-client-2.0.jar"));
    assert!(!is_leftover_name("commons-io.jar"));
    assert!(!is_leftover_name("sodium.jar"));
}

#[test]
fn hidden_purge_removes_stale_family_files_only() {
    let names = vec![
        s("boolean-client-1.0.jar"),
        s("boolean-client-2.0.jar"),
        s("Shakedown-old.jar"),
        s("unrelated.jar"),
        s("notes.txt"),
    ];
    let del = purge_plan(&names, "boolean-client-2.0.jar", false);
    assert_eq!(del, vec![s("boolean-client-1.0.jar"), s("Shakedown-old.jar")]);
}

#[test]
fn mods_purge_also_removes_unpacked_leftovers() {
    let names = vec![
        s("boolean-client-1.0.jar"),
        s("boolean-client-2.0.jar"),
        s("com"),
        s("META-INF"),
        s("arizon-unpacked"),
        s("fabric-api.jar"),
    ];
    let del = purge_plan(&names, "boolean-client-2.0.jar", true);
    // The target itself carries a family alias, so the public-directory
    // rule removes it too; the later copy step recreates it.
    assert_eq!(
        del,
        vec![
            s("boolean-client-1.0.jar"),
            s("boolean-client-2.0.jar"),
            s("com"),
            s("META-INF"),
            s("arizon-unpacked"),
        ]
    );
}

#[test]
fn purge_safety_leaves_exactly_the_target_family_file() {
    let names = vec![
        s("boolean-client-1.0.jar"),
        s("EXOSWARE-9.jar"),
        s("unrelated.jar"),
        s("boolean-client-2.0.jar"),
    ];
    let target = "boolean-client-2.0.jar";
    let del = purge_plan(&names, target, false);
    let mut kept: Vec<String> = names.iter().filter(|n| !del.contains(n)).cloned().collect();
    // The forced download then (re)creates the target in the directory.
    if !kept.contains(&s(target)) {
        kept.push(s(target));
    }
    let family: Vec<&String> =
        kept.iter().filter(|n| is_client_family_name(n.as_str())).collect();
    assert_eq!(family, vec![&s(target)]);
}

fn server_record() -> VersionInfo {
    VersionInfo {
        version: s("2.0"),
        download_url: s("https://example.invalid/files/client-2.0.jar"),
        changelog: None,
        updated_at: Some(s("2024-06-01")),
    }
}

#[test]
fn newer_server_record_plans_a_full_update() {
    // Server offers version 2.0 updated 2024-06-01 at .../client-2.0.jar;
    // locally 2024-05-01 is persisted and client-1.0.jar sits in both
    // directories. The plan purges the old jar from both, downloads into
    // the private store, copies to the public directory, and persists the
    // new version tag and timestamp.
    let server = server_record();
    let hidden_names = vec![s("client-1.0.jar")];
    let mods_names = vec![s("client-1.0.jar"), s("fabric-api.jar")];
    let plan = build_sync_plan(
        &server,
        &Some(s("2024-05-01")),
        false,
        0,
        false,
        0,
        &hidden_names,
        &mods_names,
    );
    assert_eq!(plan.decision, SyncDecision::Update);
    assert_eq!(plan.filename, "client-2.0.jar");
    assert!(plan.download);
    assert!(plan.copy_to_mods);
    assert!(plan.persist_version);
    assert!(plan.persist_updated_at);
    // The stale family jar leaves both directories; the pinned mod stays.
    assert_eq!(plan.purge_hidden, vec![s("client-1.0.jar")]);
    assert_eq!(plan.purge_mods, vec![s("client-1.0.jar")]);
}

#[test]
fn second_sync_after_update_is_idempotent() {
    let server = server_record();
    // State after the first run: timestamp persisted, valid hidden copy,
    // public copy of the same size.
    let plan = build_sync_plan(
        &server,
        &Some(s("2024-06-01")),
        true,
        5000,
        true,
        5000,
        &vec![s("client-2.0.jar")],
        &vec![s("client-2.0.jar"), s("fabric-api.jar")],
    );
    assert_eq!(plan.decision, SyncDecision::UpToDate);
    assert!(!plan.download);
    assert!(!plan.persist_version);
    assert!(!plan.persist_updated_at);
    assert!(!plan.copy_to_mods);
    assert_eq!(plan.purge_hidden.len(), 0);
    assert_eq!(plan.purge_mods.len(), 0);
}

#[test]
fn up_to_date_repairs_a_wiped_public_copy() {
    let server = server_record();
    let plan = build_sync_plan(
        &server,
        &Some(s("2024-06-01")),
        true,
        5000,
        false,
        0,
        &vec![s("client-2.0.jar")],
        &vec![],
    );
    assert_eq!(plan.decision, SyncDecision::UpToDate);
    assert!(!plan.download);
    assert!(plan.copy_to_mods);
}

#[test]
fn missing_file_after_download_is_an_error() {
    assert_eq!(post_download_check(false), Err(SyncError::PostDownloadMissing));
    assert_eq!(post_download_check(true), Ok(()));
}
