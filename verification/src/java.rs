//! Runtime provisioning decisions: where a managed runtime executable may
//! live, how its self-reported version output is parsed and judged, and the
//! order in which a managed install, the ambient search path and a fresh
//! download are tried.

use vstd::prelude::*;

use crate::errors::ProvisionError;
use crate::layout::{path_join, spec_path_join};
use crate::text::{contains_sub, has_substring, spec_find, find_char_from, spec_split, split_char};

verus! {

/// Which platform the run provisions for; decides archive format, URL and
/// executable name.
#[derive(Clone, Copy, Debug, PartialEq, Eq, Structural)]
pub enum OsKind {
    Windows,
    Linux,
    MacOs,
}

/// The runtime version this launcher pins.
pub fn java_pinned_version() -> (r: &'static str)
    ensures
        r@ == "21.0.5"@,
{
    "21.0.5"
}

/// The pinned runtime archive for the platform.
pub fn java_download_url(os: OsKind) -> (r: &'static str)
    ensures
        os == OsKind::Windows ==> r@
            == "https://github.com/adoptium/temurin21-binaries/releases/download/jdk-21.0.5%2B11/OpenJDK21U-jre_x64_windows_hotspot_21.0.5_11.zip"@,
        os == OsKind::Linux ==> r@
            == "https://github.com/adoptium/temurin21-binaries/releases/download/jdk-21.0.5%2B11/OpenJDK21U-jre_x64_linux_hotspot_21.0.5_11.tar.gz"@,
        os == OsKind::MacOs ==> r@
            == "https://github.com/adoptium/temurin21-binaries/releases/download/jdk-21.0.5%2B11/OpenJDK21U-jre_x64_mac_hotspot_21.0.5_11.tar.gz"@,
{
    match os {
        OsKind::Windows => {
            "https://github.com/adoptium/temurin21-binaries/releases/download/jdk-21.0.5%2B11/OpenJDK21U-jre_x64_windows_hotspot_21.0.5_11.zip"
        },
        OsKind::Linux => {
            "https://github.com/adoptium/temurin21-binaries/releases/download/jdk-21.0.5%2B11/OpenJDK21U-jre_x64_linux_hotspot_21.0.5_11.tar.gz"
        },
        OsKind::MacOs => {
            "https://github.com/adoptium/temurin21-binaries/releases/download/jdk-21.0.5%2B11/OpenJDK21U-jre_x64_mac_hotspot_21.0.5_11.tar.gz"
        },
    }
}

/// The file name the runtime archive downloads to before extraction.
pub fn java_archive_name(os: OsKind) -> (r: &'static str)
    ensures
        os == OsKind::Windows ==> r@ == "java.zip"@,
        os != OsKind::Windows ==> r@ == "java.tar.gz"@,
{
    match os {
        OsKind::Windows => "java.zip",
        _ => "java.tar.gz",
    }
}

/// The runtime executable's file name on the platform.
pub fn java_exe_name(os: OsKind) -> (r: &'static str)
    ensures
        os == OsKind::Windows ==> r@ == "java.exe"@,
        os != OsKind::Windows ==> r@ == "java"@,
{
    match os {
        OsKind::Windows => "java.exe",
        _ => "java",
    }
}

/// Every path a managed runtime executable may stand at: directly under
/// `<java dir>/bin`, or one directory level down — archives commonly unpack
/// into a version-named folder — in the order they are probed.
pub fn java_exe_candidates(java_dir: &str, subdirs: &Vec<String>, exe: &str) -> (r: Vec<String>)
    ensures
        r@.len() == 1 + subdirs@.len(),
        r.deep_view()[0] == spec_path_join(spec_path_join(java_dir@, "bin"@), exe@),
        forall|i: int|
            0 <= i < subdirs@.len() ==> r.deep_view()[i + 1] == spec_path_join(
                spec_path_join(
                    spec_path_join(java_dir@, #[trigger] subdirs.deep_view()[i]),
                    "bin"@,
                ),
                exe@,
            ),
{
    let mut r: Vec<String> = Vec::new();
    let bin = path_join(java_dir, "bin");
    r.push(path_join(bin.as_str(), exe));
    let mut i: usize = 0;
    while i < subdirs.len()
        invariant
            0 <= i <= subdirs@.len(),
            r@.len() == 1 + i,
            r.deep_view()[0] == spec_path_join(spec_path_join(java_dir@, "bin"@), exe@),
            forall|k: int|
                0 <= k < i ==> r.deep_view()[k + 1] == spec_path_join(
                    spec_path_join(
                        spec_path_join(java_dir@, #[trigger] subdirs.deep_view()[k]),
                        "bin"@,
                    ),
                    exe@,
                ),
        decreases subdirs@.len() - i,
    {
        let sub = path_join(java_dir, subdirs[i].as_str());
        let sub_bin = path_join(sub.as_str(), "bin");
        r.push(path_join(sub_bin.as_str(), exe));
        i += 1;
    }
    r
}

/// Picks the first candidate that exists on disk; `exists` gives, for each
/// candidate, whether a probe found it.
pub fn pick_first_existing(candidates: &Vec<String>, exists: &Vec<bool>) -> (r: Option<String>)
    requires
        candidates@.len() == exists@.len(),
    ensures
        match r {
            Some(p) => exists|i: int|
                0 <= i < exists@.len() && exists@[i] && p@ == candidates.deep_view()[i] && forall|
                    j: int,
                |
                    0 <= j < i ==> !exists@[j],
            None => forall|j: int| 0 <= j < exists@.len() ==> !exists@[j],
        },
{
    let mut i: usize = 0;
    while i < exists.len()
        invariant
            candidates@.len() == exists@.len(),
            0 <= i <= exists@.len(),
            forall|j: int| 0 <= j < i ==> !exists@[j],
        decreases exists@.len() - i,
    {
        if exists[i] {
            let p = candidates[i].clone();
            proof {
                assert(exists@[i as int] && p@ == candidates.deep_view()[i as int]);
            }
            return Some(p);
        }
        i += 1;
    }
    None
}

/// The version output names the pinned major line: it carries `21.0` or a
/// quoted tag beginning `"21.`.
pub open spec fn spec_version_matches(out: Seq<char>) -> bool {
    has_substring(out, "21.0"@) || has_substring(out, "\"21."@)
}

/// Judges a runtime's self-reported diagnostic output. A mismatch means
/// "not installed", a normal negative result, never an error.
pub fn java_version_matches(out: &str) -> (r: bool)
    ensures
        r == spec_version_matches(out@),
{
    contains_sub(out, "21.0") || contains_sub(out, "\"21.")
}

/// The text between the first two double quotes of a line, if both stand
/// there.
pub open spec fn spec_quoted(line: Seq<char>) -> Option<Seq<char>> {
    match spec_find(line, '"') {
        None => None,
        Some(i) => match spec_find(line.skip(i + 1), '"') {
            None => None,
            Some(j) => Some(line.subrange(i + 1, i + 1 + j)),
        },
    }
}

/// Extracts the quoted token of one line.
pub fn parse_quoted(line: &str) -> (r: Option<String>)
    ensures
        match r {
            Some(s) => spec_quoted(line@) == Some(s@),
            None => spec_quoted(line@) is None,
        },
{
    let _len: usize = line.unicode_len();
    match find_char_from(line, '"', 0) {
        None => {
            proof {
                assert(line@.skip(0) =~= line@);
            }
            None
        },
        Some(i) => {
            proof {
                assert(line@.skip(0) =~= line@);
            }
            match find_char_from(line, '"', i + 1) {
                None => None,
                Some(j) => {
                    let piece = line.substring_char(i + 1, j);
                    let r = String::from_str(piece);
                    proof {
                        let fj = spec_find(line@.skip(i + 1), '"')->Some_0;
                        assert(fj == j - (i + 1));
                        assert(r@ == line@.subrange(i + 1, i + 1 + fj));
                    }
                    Some(r)
                },
            }
        },
    }
}

/// A line reports a version when it contains the word `version` and carries
/// a quoted token; the first such line's token is the version.
pub open spec fn spec_version_from_lines(lines: Seq<Seq<char>>) -> Option<Seq<char>>
    decreases lines.len(),
{
    if lines.len() == 0 {
        None
    } else if has_substring(lines[0], "version"@) && spec_quoted(lines[0]) is Some {
        spec_quoted(lines[0])
    } else {
        spec_version_from_lines(lines.skip(1))
    }
}

/// The version the diagnostic output reports: the quoted token of the first
/// line that mentions `version` and carries one.
pub open spec fn spec_version_from_output(out: Seq<char>) -> Option<Seq<char>> {
    spec_version_from_lines(spec_split(out, '\n'))
}

/// Parses the self-reported version from a runtime's diagnostic output.
pub fn parse_java_version_output(out: &str) -> (r: Option<String>)
    ensures
        match r {
            Some(s) => spec_version_from_output(out@) == Some(s@),
            None => spec_version_from_output(out@) is None,
        },
{
    let lines = split_char(out, '\n');
    let mut i: usize = 0;
    proof {
        assert(lines.deep_view().skip(0) =~= lines.deep_view());
    }
    while i < lines.len()
        invariant
            0 <= i <= lines@.len(),
            spec_version_from_lines(lines.deep_view()) == spec_version_from_lines(
                lines.deep_view().skip(i as int),
            ),
            spec_version_from_output(out@) == spec_version_from_lines(lines.deep_view()),
        decreases lines@.len() - i,
    {
        let line = &lines[i];
        let ghost dv = lines.deep_view();
        let ghost tail = dv.skip(i as int);
        proof {
            assert(tail.len() > 0);
            assert(tail[0] == dv[i as int]);
        }
        if contains_sub(line.as_str(), "version") {
            match parse_quoted(line.as_str()) {
                Some(v) => {
                    proof {
                        assert(spec_version_from_lines(tail) == spec_quoted(tail[0]));
                    }
                    return Some(v);
                },
                None => {},
            }
        }
        i += 1;
        proof {
            assert(tail.skip(1) =~= dv.skip(i as int));
        }
    }
    proof {
        assert(lines.deep_view().skip(lines@.len() as int) =~= Seq::<Seq<char>>::empty());
    }
    None
}

/// Where the runtime comes from, in probing order.
#[derive(Clone, Copy, Debug, PartialEq, Eq, Structural)]
pub enum JavaChoice {
    /// A managed install under the runtime directory reported the pinned
    /// version.
    Managed,
    /// The ambient search path's runtime reported the pinned version.
    System,
    /// Neither did: download and install the pinned runtime.
    Install,
}

/// Chooses the runtime source: the managed install first, the ambient
/// search path second, a fresh install last.
pub fn choose_java_source(managed_ok: bool, system_ok: bool) -> (r: JavaChoice)
    ensures
        managed_ok ==> r == JavaChoice::Managed,
        !managed_ok && system_ok ==> r == JavaChoice::System,
        !managed_ok && !system_ok ==> r == JavaChoice::Install,
{
    if managed_ok {
        JavaChoice::Managed
    } else if system_ok {
        JavaChoice::System
    } else {
        JavaChoice::Install
    }
}

/// Maps an extraction outcome: a failed unpack is fatal for provisioning.
pub fn extraction_result(ok: bool) -> (r: Result<(), ProvisionError>)
    ensures
        ok <==> r is Ok,
        !ok ==> r == Result::<(), ProvisionError>::Err(ProvisionError::ExtractionFailed),
{
    if ok {
        Ok(())
    } else {
        Err(ProvisionError::ExtractionFailed)
    }
}

/// After an install the executable must resolve; its absence is the
/// provisioning error.
pub fn after_install_check(exe_exists: bool) -> (r: Result<(), ProvisionError>)
    ensures
        exe_exists <==> r is Ok,
        !exe_exists ==> r == Result::<(), ProvisionError>::Err(
            ProvisionError::RuntimeMissingAfterInstall,
        ),
{
    if exe_exists {
        Ok(())
    } else {
        Err(ProvisionError::RuntimeMissingAfterInstall)
    }
}

} // verus!
