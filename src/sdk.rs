//! Finding the root directory of a Cangjie SDK installation by an ordered
//! chain of fallbacks: the configured path, the `CANGJIE_HOME` variable,
//! the location of the running executable, and the usual install locations.
//! Where all of them fail, resolution fails: the working directory is never
//! taken for an SDK.
use vstd::prelude::*;
use crate::{opt_view, strings_view};
use crate::paths::{
    file_name, file_name_of, is_absolute, join, join_path, parent, parent_of, path_is_absolute,
};
use crate::platform::OsFamily;
use crate::probe::{entry_of, fs_is_dir, EntryView, PathProbe};

verus! {

/// The environment variable that names the SDK root.
pub const ENV_CANGJIE_HOME: &'static str = "CANGJIE_HOME";

/// The settings key that names the SDK root.
pub const CONFIG_SDK_PATH_KEY: &'static str = "cangjie.sdkPath";

/// What the host reports that SDK-root resolution reads, besides the
/// filesystem.
pub struct SdkSearch {
    /// The `cangjie.sdkPath` setting.
    pub configured_path: Option<String>,
    /// The value of `CANGJIE_HOME`.
    pub env_home: Option<String>,
    /// The path of the running executable.
    pub exe_path: Option<String>,
    /// The operating-system family of the host.
    pub os: OsFamily,
}

/// Why a path could not be resolved.
#[derive(Debug, PartialEq, Eq)]
pub enum ResolveError {
    /// No tier of SDK-root resolution produced a directory.
    SdkNotFound,
    /// The tool's file is not at the path that was probed.
    ToolNotFound { tool: String, probed: String },
    /// The path exists but has no canonical form.
    Canonicalize { path: String },
}

/// What the user is told of `e`.
pub open spec fn resolve_message(e: ResolveError) -> Seq<char> {
    match e {
        ResolveError::SdkNotFound => SDK_NOT_FOUND_MESSAGE@,
        ResolveError::ToolNotFound { tool, probed } => "Tool '"@ + tool@
            + "' not found at expected location: "@ + probed@,
        ResolveError::Canonicalize { path } => "Failed to canonicalize path: "@ + path@,
    }
}

impl ResolveError {
    /// What went wrong, for the user.
    pub fn message(&self) -> (r: String)
        ensures
            r@ == resolve_message(*self),
    {
        match self {
            ResolveError::SdkNotFound => SDK_NOT_FOUND_MESSAGE.to_owned(),
            ResolveError::ToolNotFound { tool, probed } => "Tool '".to_owned().concat(
                tool.as_str(),
            ).concat("' not found at expected location: ").concat(probed.as_str()),
            ResolveError::Canonicalize { path } => "Failed to canonicalize path: ".to_owned().concat(
                path.as_str(),
            ),
        }
    }
}

/// What the user is told when no SDK is found: how to point at one.
pub const SDK_NOT_FOUND_MESSAGE: &'static str = "Cangjie SDK not found. Please set the 'CANGJIE_HOME' environment variable, set 'cangjie.sdkPath' in your project settings, or place this extension within a standard Cangjie SDK structure.";

/// A candidate `c` is taken for an SDK root: it is an absolute path to a
/// directory that holds a `bin` directory. A directory stands at `c/bin`
/// only where `c` is itself a directory, so `c/bin` is what is probed.
pub open spec fn accepts_root(os: OsFamily, fs: Seq<EntryView>, c: Seq<char>) -> bool {
    is_absolute(os, c) && fs_is_dir(fs, join(os, c, "bin"@))
}

/// Tier 1: the configured path, where it is an absolute path to a
/// directory.
pub open spec fn config_tier(search: SdkSearch, fs: Seq<EntryView>) -> Option<Seq<char>> {
    match opt_view(search.configured_path) {
        Some(p) => if is_absolute(search.os, p) && fs_is_dir(fs, p) {
            Some(p)
        } else {
            None
        },
        None => None,
    }
}

/// Tier 2: `CANGJIE_HOME`, where it is an absolute path to a directory.
pub open spec fn env_tier(search: SdkSearch, fs: Seq<EntryView>) -> Option<Seq<char>> {
    match opt_view(search.env_home) {
        Some(p) => if is_absolute(search.os, p) && fs_is_dir(fs, p) {
            Some(p)
        } else {
            None
        },
        None => None,
    }
}

/// The root above an executable that lies directly in a `bin` directory.
pub open spec fn exe_bin_candidate(os: OsFamily, exe: Seq<char>) -> Option<Seq<char>> {
    match parent(os, exe) {
        Some(b) => if file_name(os, b) == Some("bin"@) {
            parent(os, b)
        } else {
            None
        },
        None => None,
    }
}

/// The root above an executable that lies in `<root>/tools/bin`.
pub open spec fn exe_tools_bin_candidate(os: OsFamily, exe: Seq<char>) -> Option<Seq<char>> {
    match parent(os, exe) {
        Some(b) => if file_name(os, b) == Some("bin"@) {
            match parent(os, b) {
                Some(t) => if file_name(os, t) == Some("tools"@) {
                    parent(os, t)
                } else {
                    None
                },
                None => None,
            }
        } else {
            None
        },
        None => None,
    }
}

/// Tier 3: the root inferred from the executable's location.
pub open spec fn exe_tier(search: SdkSearch, fs: Seq<EntryView>) -> Option<Seq<char>> {
    match opt_view(search.exe_path) {
        Some(e) => {
            let a = exe_bin_candidate(search.os, e);
            let b = exe_tools_bin_candidate(search.os, e);
            if a is Some && accepts_root(search.os, fs, a.unwrap()) {
                a
            } else if b is Some && accepts_root(search.os, fs, b.unwrap()) {
                b
            } else {
                None
            }
        },
        None => None,
    }
}

/// The usual install locations on `os`, in the order they are tried.
pub open spec fn default_roots(os: OsFamily) -> (Seq<char>, Seq<char>) {
    match os {
        OsFamily::Windows => ("C:\\Program Files\\Cangjie"@, "C:\\Program Files (x86)\\Cangjie"@),
        OsFamily::Mac => ("/usr/local/opt/cangjie"@, "/opt/homebrew/opt/cangjie"@),
        _ => ("/usr/local/cangjie"@, "/opt/cangjie"@),
    }
}

/// Tier 4: the first usual install location that holds an SDK.
pub open spec fn default_tier(search: SdkSearch, fs: Seq<EntryView>) -> Option<Seq<char>> {
    let (first, second) = default_roots(search.os);
    if accepts_root(search.os, fs, first) {
        Some(first)
    } else if accepts_root(search.os, fs, second) {
        Some(second)
    } else {
        None
    }
}

/// Tier `k` of the chain, counted from 1.
pub open spec fn sdk_tier(search: SdkSearch, fs: Seq<EntryView>, k: int) -> Option<Seq<char>> {
    if k == 1 {
        config_tier(search, fs)
    } else if k == 2 {
        env_tier(search, fs)
    } else if k == 3 {
        exe_tier(search, fs)
    } else if k == 4 {
        default_tier(search, fs)
    } else {
        None
    }
}

/// The SDK root: the result of the first tier that produces one.
pub open spec fn sdk_root(search: SdkSearch, fs: Seq<EntryView>) -> Option<Seq<char>> {
    if config_tier(search, fs) is Some {
        config_tier(search, fs)
    } else if env_tier(search, fs) is Some {
        env_tier(search, fs)
    } else if exe_tier(search, fs) is Some {
        exe_tier(search, fs)
    } else {
        default_tier(search, fs)
    }
}

/// Where tier `k` produces a root and no earlier tier does, the SDK root is
/// the one of tier `k`.
pub proof fn lemma_first_satisfied_tier_wins(search: SdkSearch, fs: Seq<EntryView>, k: int)
    requires
        1 <= k <= 4,
        sdk_tier(search, fs, k) is Some,
        forall|j: int| 1 <= j < k ==> #[trigger] sdk_tier(search, fs, j) is None,
    ensures
        sdk_root(search, fs) == sdk_tier(search, fs, k),
{
    if k > 1 {
        assert(sdk_tier(search, fs, 1) is None);
    }
    if k > 2 {
        assert(sdk_tier(search, fs, 2) is None);
    }
    if k > 3 {
        assert(sdk_tier(search, fs, 3) is None);
    }
}

/// The `bin` directory of `c`, where there is a candidate `c`.
pub open spec fn bin_of(os: OsFamily, c: Option<Seq<char>>) -> Seq<Seq<char>> {
    match c {
        Some(r) => seq![join(os, r, "bin"@)],
        None => Seq::empty(),
    }
}

pub open spec fn maybe(p: Option<Seq<char>>) -> Seq<Seq<char>> {
    match p {
        Some(x) => seq![x],
        None => Seq::empty(),
    }
}

/// Every path whose entry SDK-root resolution may read.
pub open spec fn sdk_probe_list(search: SdkSearch) -> Seq<Seq<char>> {
    let exe_paths = match opt_view(search.exe_path) {
        Some(e) => bin_of(search.os, exe_bin_candidate(search.os, e)) + bin_of(
            search.os,
            exe_tools_bin_candidate(search.os, e),
        ),
        None => Seq::empty(),
    };
    maybe(opt_view(search.configured_path)) + maybe(opt_view(search.env_home)) + exe_paths
        + bin_of(search.os, Some(default_roots(search.os).0))
        + bin_of(search.os, Some(default_roots(search.os).1))
}

/// SDK-root resolution reads the filesystem only at the listed paths: two
/// snapshots that agree there give the same root.
pub proof fn lemma_sdk_root_reads_only_listed_paths(
    search: SdkSearch,
    fs1: Seq<EntryView>,
    fs2: Seq<EntryView>,
)
    requires
        forall|p: Seq<char>| #[trigger]
            sdk_probe_list(search).contains(p) ==> entry_of(fs1, p) == entry_of(fs2, p),
    ensures
        sdk_root(search, fs1) == sdk_root(search, fs2),
{
    let list = sdk_probe_list(search);
    let cfg = maybe(opt_view(search.configured_path));
    let env = maybe(opt_view(search.env_home));
    let exe_paths = match opt_view(search.exe_path) {
        Some(e) => bin_of(search.os, exe_bin_candidate(search.os, e)) + bin_of(
            search.os,
            exe_tools_bin_candidate(search.os, e),
        ),
        None => Seq::<Seq<char>>::empty(),
    };
    let d0 = bin_of(search.os, Some(default_roots(search.os).0));
    let d1 = bin_of(search.os, Some(default_roots(search.os).1));
    assert(list == cfg + env + exe_paths + d0 + d1);
    if let Some(p) = opt_view(search.configured_path) {
        assert(list[0] == p);
        assert(list.contains(p));
    }
    if let Some(p) = opt_view(search.env_home) {
        assert(list[cfg.len() as int] == p);
        assert(list.contains(p));
    }
    if let Some(e) = opt_view(search.exe_path) {
        let a = bin_of(search.os, exe_bin_candidate(search.os, e));
        let b = bin_of(search.os, exe_tools_bin_candidate(search.os, e));
        let base: int = (cfg.len() + env.len()) as int;
        if let Some(c) = exe_bin_candidate(search.os, e) {
            assert(list[base] == join(search.os, c, "bin"@));
            assert(list.contains(join(search.os, c, "bin"@)));
        }
        if let Some(c) = exe_tools_bin_candidate(search.os, e) {
            assert(list[base + a.len()] == join(search.os, c, "bin"@));
            assert(list.contains(join(search.os, c, "bin"@)));
        }
    }
    let base: int = (cfg.len() + env.len() + exe_paths.len()) as int;
    let (r0, r1) = default_roots(search.os);
    assert(list[base] == join(search.os, r0, "bin"@));
    assert(list[base + 1] == join(search.os, r1, "bin"@));
    assert(list.contains(join(search.os, r0, "bin"@)));
    assert(list.contains(join(search.os, r1, "bin"@)));
}

fn push_bin_of(os: OsFamily, v: &mut Vec<String>, c: &str)
    ensures
        strings_view(final(v)@) == strings_view(old(v)@) + bin_of(os, Some(c@)),
{
    let ghost before = strings_view(v@);
    v.push(join_path(os, c, "bin"));
    proof {
        assert(strings_view(v@) =~= before + bin_of(os, Some(c@)));
    }
}

fn push_candidate(os: OsFamily, v: &mut Vec<String>, c: &Option<String>)
    ensures
        strings_view(final(v)@) == strings_view(old(v)@) + bin_of(os, opt_view(*c)),
{
    match c {
        Some(r) => push_bin_of(os, v, r),
        None => {
            proof {
                assert(strings_view(v@) =~= strings_view(v@) + bin_of(os, opt_view(*c)));
            }
        },
    }
}

fn push_maybe(v: &mut Vec<String>, p: &Option<String>)
    ensures
        strings_view(final(v)@) == strings_view(old(v)@) + maybe(opt_view(*p)),
{
    let ghost before = strings_view(v@);
    if let Some(x) = p {
        v.push(x.clone());
    }
    proof {
        assert(strings_view(v@) =~= before + maybe(opt_view(*p)));
    }
}

/// The paths whose entries SDK-root resolution may read, for a host to
/// record in the snapshot it hands over.
pub fn sdk_probe_paths(search: &SdkSearch) -> (r: Vec<String>)
    ensures
        strings_view(r@) == sdk_probe_list(*search),
{
    let mut v: Vec<String> = Vec::new();
    proof {
        assert(strings_view(v@) =~= Seq::<Seq<char>>::empty());
    }
    push_maybe(&mut v, &search.configured_path);
    push_maybe(&mut v, &search.env_home);
    let ghost before_exe = strings_view(v@);
    if let Some(e) = &search.exe_path {
        push_candidate(search.os, &mut v, &exe_bin_candidate_of(search.os, e));
        push_candidate(search.os, &mut v, &exe_tools_bin_candidate_of(search.os, e));
    }
    let ghost exe_paths = match opt_view(search.exe_path) {
        Some(e) => bin_of(search.os, exe_bin_candidate(search.os, e)) + bin_of(
            search.os,
            exe_tools_bin_candidate(search.os, e),
        ),
        None => Seq::<Seq<char>>::empty(),
    };
    proof {
        assert(strings_view(v@) =~= before_exe + exe_paths);
    }
    let (first, second) = default_roots_of(search.os);
    push_bin_of(search.os, &mut v, first);
    push_bin_of(search.os, &mut v, second);
    proof {
        assert(strings_view(v@) =~= sdk_probe_list(*search));
    }
    v
}

fn accepts_root_exec(os: OsFamily, fs: &mut PathProbe, c: &str) -> (r: bool)
    ensures
        r == accepts_root(os, old(fs)@, c@),
        final(fs)@ == old(fs)@,
{
    path_is_absolute(os, c) && fs.is_dir(&join_path(os, c, "bin"))
}

fn named(os: OsFamily, p: &str, name: &str) -> (r: bool)
    ensures
        r == (file_name(os, p@) == Some(name@)),
{
    match file_name_of(os, p) {
        Some(n) => n == name.to_owned(),
        None => false,
    }
}

fn exe_bin_candidate_of(os: OsFamily, exe: &str) -> (r: Option<String>)
    ensures
        opt_view(r) == exe_bin_candidate(os, exe@),
{
    match parent_of(os, exe) {
        Some(b) => if named(os, &b, "bin") {
            parent_of(os, &b)
        } else {
            None
        },
        None => None,
    }
}

fn exe_tools_bin_candidate_of(os: OsFamily, exe: &str) -> (r: Option<String>)
    ensures
        opt_view(r) == exe_tools_bin_candidate(os, exe@),
{
    match parent_of(os, exe) {
        Some(b) => if named(os, &b, "bin") {
            match parent_of(os, &b) {
                Some(t) => if named(os, &t, "tools") {
                    parent_of(os, &t)
                } else {
                    None
                },
                None => None,
            }
        } else {
            None
        },
        None => None,
    }
}

fn default_roots_of(os: OsFamily) -> (r: (&'static str, &'static str))
    ensures
        (r.0@, r.1@) == default_roots(os),
{
    match os {
        OsFamily::Windows => ("C:\\Program Files\\Cangjie", "C:\\Program Files (x86)\\Cangjie"),
        OsFamily::Mac => ("/usr/local/opt/cangjie", "/opt/homebrew/opt/cangjie"),
        _ => ("/usr/local/cangjie", "/opt/cangjie"),
    }
}

/// Finds the SDK root: the configured path if it is an absolute path to a
/// directory; else `CANGJIE_HOME` if it is one; else the root
/// above the running executable (in `<root>/bin` or `<root>/tools/bin`) if
/// it is absolute and holds `bin`; else the first usual install location
/// that holds `bin`. The root found is always an absolute path.
pub fn resolve_sdk_root(search: &SdkSearch, fs: &mut PathProbe) -> (r: Result<String, ResolveError>)
    ensures
        match sdk_root(*search, old(fs)@) {
            Some(root) => r matches Ok(s) && s@ == root,
            None => r == Err::<String, ResolveError>(ResolveError::SdkNotFound),
        },
        r matches Ok(p) ==> is_absolute(search.os, p@),
        final(fs)@ == old(fs)@,
{
    if let Some(p) = &search.configured_path {
        if path_is_absolute(search.os, p) && fs.is_dir(p) {
            return Ok(p.clone());
        }
    }
    if let Some(p) = &search.env_home {
        if path_is_absolute(search.os, p) && fs.is_dir(p) {
            return Ok(p.clone());
        }
    }
    if let Some(e) = &search.exe_path {
        if let Some(c) = exe_bin_candidate_of(search.os, e) {
            if accepts_root_exec(search.os, fs, &c) {
                return Ok(c);
            }
        }
        if let Some(c) = exe_tools_bin_candidate_of(search.os, e) {
            if accepts_root_exec(search.os, fs, &c) {
                return Ok(c);
            }
        }
    }
    let (first, second) = default_roots_of(search.os);
    if accepts_root_exec(search.os, fs, first) {
        return Ok(first.to_owned());
    }
    if accepts_root_exec(search.os, fs, second) {
        return Ok(second.to_owned());
    }
    Err(ResolveError::SdkNotFound)
}

} // verus!
