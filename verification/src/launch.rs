//! Launch command assembly: the ordered classpath, the JVM tuning flags,
//! the deterministic offline identity token, and the complete argument
//! list, each pinned down to the exact character sequences the spawned
//! process receives.

use vstd::prelude::*;

use vstd::utf8::encode_utf8;

use crate::text::{
    dec_digits, hex_digits, lemma_join_then_split, no_char, spec_join, spec_split, join_with,
    u64_to_hex, u64_to_string,
};

verus! {

/// What the caller asks of a launch.
#[derive(Debug, Clone)]
pub struct LaunchOptions {
    pub username: String,
    /// Resolved runtime executable; the ambient `java` when absent.
    pub java_path: Option<String>,
    /// RAM budget in megabytes (e.g. 4096 for 4 GB).
    pub ram_mb: Option<u32>,
    /// Window width in pixels.
    pub window_width: Option<u32>,
    /// Window height in pixels.
    pub window_height: Option<u32>,
    /// Fullscreen mode.
    pub fullscreen: Option<bool>,
    /// Custom install path from user settings.
    pub install_path: Option<String>,
}

/// Everything the command builder needs, resolved from the version
/// descriptor and the installation layout into plain values.
#[derive(Debug, Clone)]
pub struct LaunchManifest {
    /// Working directory of the spawned process.
    pub launch_dir: String,
    /// Version identifier passed to the runtime.
    pub version_id: String,
    /// The main artifact jar, last entry of the classpath.
    pub version_jar_path: String,
    /// Directory of native libraries.
    pub natives_dir: String,
    /// Assets directory.
    pub assets_dir: String,
    /// Game directory.
    pub game_dir: String,
    /// Main class name from the version descriptor.
    pub main_class: String,
    /// Asset index identifier from the version descriptor.
    pub asset_index_id: String,
    /// Library jar paths from the version descriptor, in order.
    pub libraries: Vec<String>,
}

/// The ordered classpath: every library path, then the main jar last.
pub open spec fn spec_classpath(libraries: Seq<Seq<char>>, main_jar: Seq<char>) -> Seq<Seq<char>> {
    libraries.push(main_jar)
}

/// Builds the classpath entry list: the libraries in order, the main jar
/// last.
pub fn build_classpath(libraries: &Vec<String>, main_jar: &str) -> (r: Vec<String>)
    ensures
        r.deep_view() == spec_classpath(libraries.deep_view(), main_jar@),
{
    let mut r: Vec<String> = Vec::new();
    let mut i: usize = 0;
    while i < libraries.len()
        invariant
            0 <= i <= libraries@.len(),
            r.deep_view() == libraries.deep_view().take(i as int),
        decreases libraries@.len() - i,
    {
        let ghost old_r = r.deep_view();
        r.push(libraries[i].clone());
        proof {
            assert(r.deep_view() =~= old_r.push(libraries.deep_view()[i as int]));
            assert(old_r.push(libraries.deep_view()[i as int]) =~= libraries.deep_view().take(
                i + 1,
            ));
        }
        i += 1;
    }
    proof {
        assert(libraries.deep_view().take(libraries@.len() as int) =~= libraries.deep_view());
    }
    r.push(String::from_str(main_jar));
    proof {
        assert(r.deep_view() =~= spec_classpath(libraries.deep_view(), main_jar@));
    }
    r
}

/// The platform's path-list separator.
pub fn classpath_separator(is_windows: bool) -> (r: &'static str)
    ensures
        is_windows ==> r@ == ";"@,
        !is_windows ==> r@ == ":"@,
        r@.len() == 1,
{
    let r = if is_windows {
        ";"
    } else {
        ":"
    };
    proof {
        reveal_strlit(";");
        reveal_strlit(":");
    }
    r
}

/// Classpath round trip: splitting the joined classpath string at the
/// separator yields every library path exactly at its position, exactly
/// once, with the main jar last — provided no entry contains the separator.
pub proof fn lemma_classpath_round_trip(
    libraries: Seq<Seq<char>>,
    main_jar: Seq<char>,
    sep: char,
)
    requires
        forall|i: int| 0 <= i < libraries.len() ==> no_char(#[trigger] libraries[i], sep),
        no_char(main_jar, sep),
    ensures
        spec_split(spec_join(spec_classpath(libraries, main_jar), sep), sep) == spec_classpath(
            libraries,
            main_jar,
        ),
        spec_split(spec_join(spec_classpath(libraries, main_jar), sep), sep).last() == main_jar,
        forall|i: int|
            0 <= i < libraries.len() ==> spec_split(
                spec_join(spec_classpath(libraries, main_jar), sep),
                sep,
            )[i] == libraries[i],
{
    let cp = spec_classpath(libraries, main_jar);
    assert(forall|i: int| 0 <= i < cp.len() ==> no_char(#[trigger] cp[i], sep)) by {
        assert(forall|i: int| 0 <= i < libraries.len() ==> cp[i] == libraries[i]);
        assert(cp[cp.len() - 1] == main_jar);
    }
    lemma_join_then_split(cp, sep);
}

/// One step of the 64-bit FNV-1a fold.
pub open spec fn fnv_step(h: u64, b: u8) -> u64 {
    vstd::wrapping::u64_specs::wrapping_mul(h ^ (b as u64), 0x100000001b3)
}

/// The 64-bit FNV-1a fold of a byte sequence from a seed.
pub open spec fn fnv_fold(bytes: Seq<u8>, seed: u64) -> u64
    decreases bytes.len(),
{
    if bytes.len() == 0 {
        seed
    } else {
        fnv_step(fnv_fold(bytes.drop_last(), seed), bytes.last())
    }
}

/// The standard FNV-1a offset basis, and a second seed for the low half of
/// the identity token.
pub const FNV_SEED_HIGH: u64 = 0xcbf29ce484222325;

pub const FNV_SEED_LOW: u64 = 0x84222325cbf29ce4;

/// Folds a byte sequence with 64-bit FNV-1a.
pub fn fnv1a_64(bytes: &Vec<u8>, seed: u64) -> (r: u64)
    ensures
        r == fnv_fold(bytes@, seed),
{
    let mut h: u64 = seed;
    let mut i: usize = 0;
    proof {
        assert(bytes@.take(0) =~= Seq::<u8>::empty());
    }
    while i < bytes.len()
        invariant
            0 <= i <= bytes@.len(),
            h == fnv_fold(bytes@.take(i as int), seed),
        decreases bytes@.len() - i,
    {
        let b = bytes[i];
        h = (h ^ (b as u64)).wrapping_mul(0x100000001b3);
        i += 1;
        proof {
            assert(bytes@.take(i as int).drop_last() =~= bytes@.take(i - 1));
            assert(bytes@.take(i as int).last() == bytes@[i - 1]);
        }
    }
    proof {
        assert(bytes@.take(bytes@.len() as int) =~= bytes@);
    }
    h
}

/// The canonical grouping of the two hash halves into an identity token:
/// 8, 4, 4, 4 and 12 hexadecimal digits, dash-separated.
pub open spec fn spec_token_of_hashes(h1: u64, h2: u64) -> Seq<char> {
    hex_digits((h1 >> 32) as int, 8) + "-"@ + hex_digits(((h1 >> 16) & 0xffff) as int, 4) + "-"@
        + hex_digits((h1 & 0xffff) as int, 4) + "-"@ + hex_digits((h2 >> 48) as int, 4) + "-"@
        + hex_digits((h2 & 0xffffffffffff) as int, 12)
}

/// The deterministic offline identity token of a username: two FNV-1a
/// folds of its UTF-8 bytes, rendered in the canonical dashed grouping.
/// The same username always yields the same token; it is no real account
/// identity.
pub open spec fn spec_offline_uuid(name: Seq<char>) -> Seq<char> {
    spec_token_of_hashes(
        fnv_fold(encode_utf8(name), FNV_SEED_HIGH),
        fnv_fold(encode_utf8(name), FNV_SEED_LOW),
    )
}

/// Derives the offline identity token for a username.
pub fn offline_uuid_for_username(name: &str) -> (r: String)
    ensures
        r@ == spec_offline_uuid(name@),
{
    let bytes = name.as_bytes_vec();
    let h1 = fnv1a_64(&bytes, FNV_SEED_HIGH);
    let h2 = fnv1a_64(&bytes, FNV_SEED_LOW);
    let r = u64_to_hex(h1 >> 32, 8).concat("-").concat(
        u64_to_hex((h1 >> 16) & 0xffff, 4).as_str(),
    ).concat("-").concat(u64_to_hex(h1 & 0xffff, 4).as_str()).concat("-").concat(
        u64_to_hex(h2 >> 48, 4).as_str(),
    ).concat("-").concat(u64_to_hex(h2 & 0xffffffffffff, 12).as_str());
    proof {
        assert(r@ =~= spec_token_of_hashes(h1, h2));
    }
    r
}

/// The fixed garbage-collector tuning flags, in order.
pub open spec fn spec_gc_flags() -> Seq<Seq<char>> {
    seq![
        "-XX:+UnlockExperimentalVMOptions"@,
        "-XX:+UseG1GC"@,
        "-XX:G1NewSizePercent=20"@,
        "-XX:G1ReservePercent=20"@,
        "-XX:MaxGCPauseMillis=50"@,
        "-XX:G1HeapRegionSize=32M"@,
    ]
}

/// The RAM budget in megabytes, defaulted when the caller set none.
pub open spec fn spec_ram_mb(o: LaunchOptions) -> u32 {
    match o.ram_mb {
        Some(r) => r,
        None => 4096,
    }
}

/// The full argument list handed to the runtime executable, in order: heap
/// sizing (initial heap half of the maximum), the garbage-collector flags,
/// the natives path property, the joined classpath, the main class, the
/// game arguments — username, offline identity token, a placeholder access
/// token, a literal user type, version id, game and assets directories,
/// asset index — and the optional window geometry.
pub open spec fn spec_java_args(m: LaunchManifest, o: LaunchOptions, is_windows: bool) -> Seq<
    Seq<char>,
> {
    let ram = spec_ram_mb(o);
    let sep: char = if is_windows {
        ';'
    } else {
        ':'
    };
    seq!["-Xms"@ + dec_digits(ram as int / 2) + "M"@, "-Xmx"@ + dec_digits(ram as int) + "M"@]
        + spec_gc_flags() + seq![
        "-Djava.library.path="@ + m.natives_dir@,
        "-cp"@,
        spec_join(spec_classpath(m.libraries.deep_view(), m.version_jar_path@), sep),
        m.main_class@,
        "--username"@,
        o.username@,
        "--uuid"@,
        spec_offline_uuid(o.username@),
        "--accessToken"@,
        "0"@,
        "--userType"@,
        "mojang"@,
        "--version"@,
        m.version_id@,
        "--gameDir"@,
        m.game_dir@,
        "--assetsDir"@,
        m.assets_dir@,
        "--assetIndex"@,
        m.asset_index_id@,
    ] + (match o.window_width {
        Some(w) => seq!["--width"@, dec_digits(w as int)],
        None => Seq::<Seq<char>>::empty(),
    }) + (match o.window_height {
        Some(h) => seq!["--height"@, dec_digits(h as int)],
        None => Seq::<Seq<char>>::empty(),
    }) + (if o.fullscreen == Some(true) {
        seq!["--fullscreen"@]
    } else {
        Seq::<Seq<char>>::empty()
    })
}

/// Builds the full argument list for the launch command.
#[verifier::rlimit(100)]
pub fn build_java_args(m: &LaunchManifest, o: &LaunchOptions, is_windows: bool) -> (r: Vec<String>)
    ensures
        r.deep_view() == spec_java_args(*m, *o, is_windows),
{
    let ram: u32 = match o.ram_mb {
        Some(r) => r,
        None => 4096,
    };
    let mut v: Vec<String> = Vec::new();
    v.push(String::from_str("-Xms").concat(u64_to_string((ram / 2) as u64).as_str()).concat("M"));
    v.push(String::from_str("-Xmx").concat(u64_to_string(ram as u64).as_str()).concat("M"));
    v.push(String::from_str("-XX:+UnlockExperimentalVMOptions"));
    v.push(String::from_str("-XX:+UseG1GC"));
    v.push(String::from_str("-XX:G1NewSizePercent=20"));
    v.push(String::from_str("-XX:G1ReservePercent=20"));
    v.push(String::from_str("-XX:MaxGCPauseMillis=50"));
    v.push(String::from_str("-XX:G1HeapRegionSize=32M"));
    v.push(String::from_str("-Djava.library.path=").concat(m.natives_dir.as_str()));
    v.push(String::from_str("-cp"));
    let cp = build_classpath(&m.libraries, m.version_jar_path.as_str());
    let sep = classpath_separator(is_windows);
    v.push(join_with(&cp, sep));
    v.push(m.main_class.clone());
    v.push(String::from_str("--username"));
    v.push(o.username.clone());
    v.push(String::from_str("--uuid"));
    v.push(offline_uuid_for_username(o.username.as_str()));
    v.push(String::from_str("--accessToken"));
    v.push(String::from_str("0"));
    v.push(String::from_str("--userType"));
    v.push(String::from_str("mojang"));
    v.push(String::from_str("--version"));
    v.push(m.version_id.clone());
    v.push(String::from_str("--gameDir"));
    v.push(m.game_dir.clone());
    v.push(String::from_str("--assetsDir"));
    v.push(m.assets_dir.clone());
    v.push(String::from_str("--assetIndex"));
    v.push(m.asset_index_id.clone());
    match o.window_width {
        Some(w) => {
            v.push(String::from_str("--width"));
            v.push(u64_to_string(w as u64));
        },
        None => {},
    }
    match o.window_height {
        Some(h) => {
            v.push(String::from_str("--height"));
            v.push(u64_to_string(h as u64));
        },
        None => {},
    }
    let fullscreen = match o.fullscreen {
        Some(b) => b,
        None => false,
    };
    if fullscreen {
        v.push(String::from_str("--fullscreen"));
    }
    proof {
        let sepc: char = if is_windows {
            ';'
        } else {
            ':'
        };
        reveal_strlit(";");
        reveal_strlit(":");
        assert(sep@ =~= seq![sepc]);
        assert(v.deep_view() =~= spec_java_args(*m, *o, is_windows));
    }
    v
}

/// Maps the spawn outcome: a process that could not be started is the
/// terminal launch error; once it is running, the launch has succeeded,
/// whatever the process later does.
pub fn spawn_check(spawned: bool) -> (r: Result<(), crate::errors::LaunchError>)
    ensures
        spawned <==> r is Ok,
        !spawned ==> r == Result::<(), crate::errors::LaunchError>::Err(
            crate::errors::LaunchError::SpawnFailed,
        ),
{
    if spawned {
        Ok(())
    } else {
        Err(crate::errors::LaunchError::SpawnFailed)
    }
}

/// The header written at the top of each launch's log file.
pub open spec fn spec_log_header(
    version_id: Seq<char>,
    assets_dir: Seq<char>,
    game_dir: Seq<char>,
) -> Seq<char> {
    "version_id="@ + version_id + "\nassets_dir="@ + assets_dir + "\ngame_dir="@ + game_dir
        + "\n\n"@
}

/// Builds the log-file header naming the version, assets and game
/// directories of this launch.
pub fn log_header(version_id: &str, assets_dir: &str, game_dir: &str) -> (r: String)
    ensures
        r@ == spec_log_header(version_id@, assets_dir@, game_dir@),
{
    let r = String::from_str("version_id=").concat(version_id).concat("\nassets_dir=").concat(
        assets_dir,
    ).concat("\ngame_dir=").concat(game_dir).concat("\n\n");
    proof {
        assert(r@ =~= spec_log_header(version_id@, assets_dir@, game_dir@));
    }
    r
}

} // verus!
