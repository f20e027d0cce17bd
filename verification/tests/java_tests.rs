use launcher_core::errors::ProvisionError;
use launcher_core::java::{
    after_install_check, choose_java_source, extraction_result, java_archive_name,
    java_download_url, java_exe_candidates, java_exe_name, java_pinned_version,
    java_version_matches, parse_java_version_output, parse_quoted, pick_first_existing, JavaChoice,
    OsKind,
};

fn s(v: &str) -> String {
    String::from(v)
}

#[test]
fn version_output_matching() {
    assert!(java_version_matches("openjdk version \"21.0.5\" 2024-10-15"));
    assert!(java_version_matches("java version \"21.1.7\""));
    assert!(!java_version_matches("openjdk version \"17.0.9\" 2023-10-17"));
    assert!(!java_version_matches(""));
}

#[test]
fn quoted_token_extraction() {
    assert_eq!(parse_quoted("openjdk version \"21.0.5\" 2024"), Some(s("21.0.5")));
    assert_eq!(parse_quoted("no quotes here"), None);
    assert_eq!(parse_quoted("one \" quote"), None);
    assert_eq!(parse_quoted("\"\""), Some(s("")));
}

#[test]
fn version_parse_takes_first_usable_line() {
    let out = "openjdk version \"21.0.5\" 2024-10-15\nOpenJDK Runtime Environment\nmixed mode";
    assert_eq!(parse_java_version_output(out), Some(s("21.0.5")));
    // A version line without quotes is skipped in favour of a later usable one.
    let out2 = "version unknown\njava version \"21.0.5\"";
    assert_eq!(parse_java_version_output(out2), Some(s("21.0.5")));
    assert_eq!(parse_java_version_output("nothing to see"), None);
}

#[test]
fn executable_candidates_in_probe_order() {
    let subdirs = vec![s("jdk-21.0.5+11-jre")];
    let c = java_exe_candidates("/base/java", &subdirs, "java");
    assert_eq!(
        c,
        vec![s("/base/java/bin/java"), s("/base/java/jdk-21.0.5+11-jre/bin/java")]
    );
}

#[test]
fn first_existing_candidate_wins() {
    let c = vec![s("a"), s("b"), s("c")];
    assert_eq!(pick_first_existing(&c, &vec![false, true, true]), Some(s("b")));
    assert_eq!(pick_first_existing(&c, &vec![false, false, false]), None);
}

#[test]
fn runtime_source_probe_order() {
    assert_eq!(choose_java_source(true, true), JavaChoice::Managed);
    assert_eq!(choose_java_source(true, false), JavaChoice::Managed);
    assert_eq!(choose_java_source(false, true), JavaChoice::System);
    assert_eq!(choose_java_source(false, false), JavaChoice::Install);
}

#[test]
fn provisioning_errors() {
    assert_eq!(extraction_result(false), Err(ProvisionError::ExtractionFailed));
    assert_eq!(extraction_result(true), Ok(()));
    assert_eq!(after_install_check(false), Err(ProvisionError::RuntimeMissingAfterInstall));
    assert_eq!(after_install_check(true), Ok(()));
}

#[test]
fn pinned_platform_configuration() {
    assert_eq!(java_pinned_version(), "21.0.5");
    assert_eq!(java_archive_name(OsKind::Windows), "java.zip");
    assert_eq!(java_archive_name(OsKind::Linux), "java.tar.gz");
    assert_eq!(java_exe_name(OsKind::Windows), "java.exe");
    assert_eq!(java_exe_name(OsKind::MacOs), "java");
    assert!(java_download_url(OsKind::Windows).ends_with(".zip"));
    assert!(java_download_url(OsKind::Linux).ends_with(".tar.gz"));
    assert!(java_download_url(OsKind::MacOs).contains("mac"));
}
