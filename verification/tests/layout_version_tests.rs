use launcher_core::layout::{
    hidden_dir_fallback_unix, hidden_dir_fallback_windows, hidden_dir_under_home,
    hidden_dir_under_local_low, path_join, wipe_targets, ClientInstaller,
};
use launcher_core::version::{client_filename_from_url, has_update, version_from_response, ApiResponse, VersionInfo};

fn s(v: &str) -> String {
    String::from(v)
}

#[test]
fn default_layout_derivation() {
    let c = ClientInstaller::new(s("/base"), s("/hidden/cache"));
    assert_eq!(c.base_dir, "/base");
    assert_eq!(c.get_launch_dir(), "/base/launch");
    assert_eq!(c.get_mods_dir(), "/base/launch/run/mods");
    assert_eq!(c.get_hidden_client_dir_path(), "/hidden/cache");
    assert_eq!(c.get_java_dir(), "/base/java");
}

#[test]
fn user_install_path_overrides_the_base() {
    let c = ClientInstaller::new_with_path(s("/base"), Some(s("/custom")), s("/h"));
    assert_eq!(c.get_launch_dir(), "/custom/launch");
    assert_eq!(c.get_mods_dir(), "/custom/launch/run/mods");
    // An empty override falls back to the base directory.
    let c2 = ClientInstaller::new_with_path(s("/base"), Some(s("")), s("/h"));
    assert_eq!(c2.get_launch_dir(), "/base/launch");
}

#[test]
fn state_file_locations() {
    let c = ClientInstaller::new(s("/base"), s("/h"));
    assert_eq!(c.version_file(), "/base/client-version.txt");
    assert_eq!(c.updated_at_file(), "/base/client-updated-at.txt");
    assert_eq!(
        c.directories_to_create(),
        vec![s("/base"), s("/base/launch"), s("/base/launch/run/mods"), s("/h")]
    );
}

#[test]
fn hidden_store_locations() {
    assert_eq!(
        hidden_dir_under_local_low("C:\\Users\\me\\AppData"),
        "C:\\Users\\me\\AppData/LocalLow/Microsoft/CrashDump/cache"
    );
    assert_eq!(hidden_dir_under_home("/home/me"), "/home/me/.cache/.system/crash");
    assert!(hidden_dir_fallback_windows().contains("LocalLow"));
    assert_eq!(hidden_dir_fallback_unix(), "/tmp/.system/crash");
    assert_eq!(path_join("/a", "b"), "/a/b");
}

#[test]
fn wipe_covers_every_run_artifact() {
    let t = wipe_targets("/base", "/hidden/cache");
    assert_eq!(t.len(), 6);
    assert_eq!(t[0].path, "/base/launch");
    assert!(t[0].is_dir);
    assert_eq!(t[1].path, "/base/temp_launch");
    assert!(t[1].is_dir);
    assert_eq!(t[2].path, "/hidden/cache");
    assert!(t[2].is_dir);
    assert_eq!(t[3].path, "/base/launch.zip");
    assert!(!t[3].is_dir);
    assert_eq!(t[4].path, "/base/client-version.txt");
    assert_eq!(t[5].path, "/base/client-updated-at.txt");
}

fn record(updated_at: Option<&str>) -> VersionInfo {
    VersionInfo {
        version: s("2.0"),
        download_url: s("https://example.invalid/client-2.0.jar"),
        changelog: Some(s("notes")),
        updated_at: updated_at.map(String::from),
    }
}

#[test]
fn envelope_extraction() {
    let ok = ApiResponse { success: true, data: Some(record(None)), message: None };
    let v = version_from_response(ok).unwrap();
    assert_eq!(v.version, "2.0");
    let no_data = ApiResponse { success: true, data: None, message: Some(s("empty")) };
    assert_eq!(version_from_response(no_data).unwrap_err(), Some(s("empty")));
    let failed = ApiResponse { success: false, data: Some(record(None)), message: Some(s("down")) };
    assert_eq!(version_from_response(failed).unwrap_err(), Some(s("down")));
}

#[test]
fn update_offer_detection() {
    assert!(has_update(&None, &s("2.0")));
    assert!(has_update(&Some(s("1.0")), &s("2.0")));
    assert!(!has_update(&Some(s("2.0")), &s("2.0")));
}

#[test]
fn filename_from_download_url() {
    assert_eq!(
        client_filename_from_url("https://example.invalid/files/client-2.0.jar", "2.0"),
        "client-2.0.jar"
    );
    // A URL ending in a separator falls back to the versioned default name.
    assert_eq!(
        client_filename_from_url("https://example.invalid/files/", "2.0"),
        "boolean-client-2.0.jar"
    );
}
