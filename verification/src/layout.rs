//! The per-run installation layout: where metadata, the runtime tree, the
//! public mods directory and the hidden private store live, and which paths
//! a full data wipe touches.
//!
//! Paths are modelled as plain strings joined with `/`; the surrounding
//! application turns them into platform paths and creates or removes them.

use vstd::prelude::*;

verus! {

/// Joined path: `base`, a separator, then `comp`.
pub open spec fn spec_path_join(base: Seq<char>, comp: Seq<char>) -> Seq<char> {
    base + "/"@ + comp
}

/// Joins one path component onto a base path.
pub fn path_join(base: &str, comp: &str) -> (r: String)
    ensures
        r@ == spec_path_join(base@, comp@),
{
    let r = String::from_str(base).concat("/").concat(comp);
    proof {
        assert(r@ =~= spec_path_join(base@, comp@));
    }
    r
}

/// The directory for the runtime/game tree: the user-chosen install path
/// when one is set and non-empty, the base metadata directory otherwise.
pub open spec fn spec_user_dir(base: Seq<char>, user_install_path: Option<Seq<char>>) -> Seq<
    char,
> {
    match user_install_path {
        Some(p) => if p.len() > 0 {
            p
        } else {
            base
        },
        None => base,
    }
}

/// Immutable per-run directory layout for one installation.
#[derive(Debug, Clone)]
pub struct ClientInstaller {
    /// Base metadata directory; the persisted state files live here.
    pub base_dir: String,
    /// Runtime/game tree: `<user dir>/launch`.
    pub launch_dir: String,
    /// Public mods directory the runtime scans: `<launch>/run/mods`.
    pub mods_dir: String,
    /// Hidden private store holding the authoritative artifact copy.
    pub hidden_client_dir: String,
}

impl ClientInstaller {
    /// Derives the layout from the base directory, an optional user install
    /// path, and the platform-specific hidden store location.
    pub fn new_with_path(
        base_dir: String,
        user_install_path: Option<String>,
        hidden_client_dir: String,
    ) -> (r: Self)
        ensures
            r.base_dir@ == base_dir@,
            r.launch_dir@ == spec_path_join(
                spec_user_dir(base_dir@, crate::sync::opt_view(user_install_path)),
                "launch"@,
            ),
            r.mods_dir@ == spec_path_join(spec_path_join(r.launch_dir@, "run"@), "mods"@),
            r.hidden_client_dir@ == hidden_client_dir@,
    {
        let user_dir: &str = match &user_install_path {
            Some(p) => {
                if p.as_str().unicode_len() > 0 {
                    p.as_str()
                } else {
                    base_dir.as_str()
                }
            },
            None => base_dir.as_str(),
        };
        let launch_dir = path_join(user_dir, "launch");
        let run_dir = path_join(launch_dir.as_str(), "run");
        let mods_dir = path_join(run_dir.as_str(), "mods");
        ClientInstaller { base_dir, launch_dir, mods_dir, hidden_client_dir }
    }

    /// Derives the layout with the default install path.
    pub fn new(base_dir: String, hidden_client_dir: String) -> (r: Self)
        ensures
            r.base_dir@ == base_dir@,
            r.launch_dir@ == spec_path_join(base_dir@, "launch"@),
            r.mods_dir@ == spec_path_join(spec_path_join(r.launch_dir@, "run"@), "mods"@),
            r.hidden_client_dir@ == hidden_client_dir@,
    {
        Self::new_with_path(base_dir, None, hidden_client_dir)
    }

    /// The public mods directory.
    pub fn get_mods_dir(&self) -> (r: &String)
        ensures
            r@ == self.mods_dir@,
    {
        &self.mods_dir
    }

    /// The hidden private store.
    pub fn get_hidden_client_dir_path(&self) -> (r: &String)
        ensures
            r@ == self.hidden_client_dir@,
    {
        &self.hidden_client_dir
    }

    /// The runtime/game tree.
    pub fn get_launch_dir(&self) -> (r: &String)
        ensures
            r@ == self.launch_dir@,
    {
        &self.launch_dir
    }

    /// The managed runtime install directory: `<base>/java`.
    pub fn get_java_dir(&self) -> (r: String)
        ensures
            r@ == spec_path_join(self.base_dir@, "java"@),
    {
        path_join(self.base_dir.as_str(), "java")
    }

    /// The four directories that must exist before any write, in creation
    /// order; creating them again is harmless.
    pub fn directories_to_create(&self) -> (r: Vec<String>)
        ensures
            r.deep_view() =~= seq![
                self.base_dir@,
                self.launch_dir@,
                self.mods_dir@,
                self.hidden_client_dir@,
            ],
    {
        let mut r: Vec<String> = Vec::new();
        r.push(self.base_dir.clone());
        r.push(self.launch_dir.clone());
        r.push(self.mods_dir.clone());
        r.push(self.hidden_client_dir.clone());
        r
    }

    /// The file persisting the last synchronized version tag.
    pub fn version_file(&self) -> (r: String)
        ensures
            r@ == spec_path_join(self.base_dir@, "client-version.txt"@),
    {
        path_join(self.base_dir.as_str(), "client-version.txt")
    }

    /// The file persisting the last synchronized `updatedAt` timestamp.
    pub fn updated_at_file(&self) -> (r: String)
        ensures
            r@ == spec_path_join(self.base_dir@, "client-updated-at.txt"@),
    {
        path_join(self.base_dir.as_str(), "client-updated-at.txt")
    }
}

/// Hidden store under the Windows `LocalLow` tree, beside the local
/// application data directory whose parent is given.
pub fn hidden_dir_under_local_low(local_app_data_parent: &str) -> (r: String)
    ensures
        r@ == spec_path_join(
            spec_path_join(
                spec_path_join(
                    spec_path_join(local_app_data_parent@, "LocalLow"@),
                    "Microsoft"@,
                ),
                "CrashDump"@,
            ),
            "cache"@,
        ),
{
    let a = path_join(local_app_data_parent, "LocalLow");
    let b = path_join(a.as_str(), "Microsoft");
    let c = path_join(b.as_str(), "CrashDump");
    path_join(c.as_str(), "cache")
}

/// Hidden store fallback when no local application data path is known.
pub fn hidden_dir_fallback_windows() -> (r: String)
    ensures
        r@ == "C:\\Users\\Default\\AppData\\LocalLow\\Microsoft\\CrashDump\\cache"@,
{
    String::from_str("C:\\Users\\Default\\AppData\\LocalLow\\Microsoft\\CrashDump\\cache")
}

/// Hidden store under a Unix home directory.
pub fn hidden_dir_under_home(home: &str) -> (r: String)
    ensures
        r@ == spec_path_join(
            spec_path_join(spec_path_join(home@, ".cache"@), ".system"@),
            "crash"@,
        ),
{
    let a = path_join(home, ".cache");
    let b = path_join(a.as_str(), ".system");
    path_join(b.as_str(), "crash")
}

/// Hidden store fallback when no home directory is known.
pub fn hidden_dir_fallback_unix() -> (r: String)
    ensures
        r@ == "/tmp/.system/crash"@,
{
    String::from_str("/tmp/.system/crash")
}

/// One target of a full data wipe.
#[derive(Debug, Clone)]
pub struct WipeTarget {
    /// Absolute path to remove.
    pub path: String,
    /// Remove as a directory tree; otherwise as a single file.
    pub is_dir: bool,
}

/// Everything a full data wipe removes, directories first: the default
/// runtime tree, the temporary extraction tree, the hidden store, then the
/// downloaded archive and the two persisted state files under the base
/// directory.
pub fn wipe_targets(base_dir: &str, hidden_client_dir: &str) -> (r: Vec<WipeTarget>)
    ensures
        r@.len() == 6,
        r@[0].path@ == spec_path_join(base_dir@, "launch"@) && r@[0].is_dir,
        r@[1].path@ == spec_path_join(base_dir@, "temp_launch"@) && r@[1].is_dir,
        r@[2].path@ == hidden_client_dir@ && r@[2].is_dir,
        r@[3].path@ == spec_path_join(base_dir@, "launch.zip"@) && !r@[3].is_dir,
        r@[4].path@ == spec_path_join(base_dir@, "client-version.txt"@) && !r@[4].is_dir,
        r@[5].path@ == spec_path_join(base_dir@, "client-updated-at.txt"@) && !r@[5].is_dir,
{
    let mut r: Vec<WipeTarget> = Vec::new();
    r.push(WipeTarget { path: path_join(base_dir, "launch"), is_dir: true });
    r.push(WipeTarget { path: path_join(base_dir, "temp_launch"), is_dir: true });
    r.push(WipeTarget { path: String::from_str(hidden_client_dir), is_dir: true });
    r.push(WipeTarget { path: path_join(base_dir, "launch.zip"), is_dir: false });
    r.push(WipeTarget { path: path_join(base_dir, "client-version.txt"), is_dir: false });
    r.push(WipeTarget { path: path_join(base_dir, "client-updated-at.txt"), is_dir: false });
    r
}

} // verus!
