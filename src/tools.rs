//! Where a tool's binary is found: a user override, else the SDK's default
//! location for it.
use vstd::prelude::*;
use crate::paths::{is_absolute, is_plain_name, join, lemma_parent_and_name_of_child, trimmed};
use crate::platform::binary_name;
use crate::probe::{fs_canonical, fs_is_dir, fs_is_file_or_symlink, EntryView};
use crate::sdk::{exe_bin_candidate, sdk_root, ResolveError, SdkSearch};
use crate::opt_view;

verus! {

/// The name of the compiler.
pub const CJC_NAME: &'static str = "cjc";

/// The name of the compiler frontend that drives the debugger.
pub const CJC_FRONTEND_NAME: &'static str = "cjc-frontend";

/// The name of the language server.
pub const SERVER_NAME: &'static str = "cangjie-lsp";

/// The language whose settings carry the SDK path and the override of the
/// compiler tools' path.
pub const LANGUAGE_SETTINGS_NAME: &'static str = "cangjie";

/// The SDK directory that holds the toolchain's executables.
pub const BIN_DIR: &'static str = "bin";

/// The cache key of the tool `name`: `tool_path_<name>`.
pub open spec fn cache_key(name: Seq<char>) -> Seq<char> {
    "tool_path_"@ + name
}

/// How a lookup of a path on the filesystem ends.
pub ghost enum ToolOutcome {
    /// The tool is at this canonical path.
    Found(Seq<char>),
    /// No SDK root could be resolved.
    SdkMissing,
    /// Nothing runnable is at this probed path.
    Missing(Seq<char>),
    /// This path exists but has no canonical form.
    NoCanonical(Seq<char>),
}

/// The canonical form of `p`, which is known to be a file or a link.
pub open spec fn canonical_outcome(fs: Seq<EntryView>, p: Seq<char>) -> ToolOutcome {
    match fs_canonical(fs, p) {
        Some(c) => ToolOutcome::Found(c),
        None => ToolOutcome::NoCanonical(p),
    }
}

/// Where `<root>/<subdir>/<file>` leads.
pub open spec fn sdk_tool_outcome(
    search: SdkSearch,
    fs: Seq<EntryView>,
    subdir: Seq<char>,
    file: Seq<char>,
) -> ToolOutcome {
    match sdk_root(search, fs) {
        None => ToolOutcome::SdkMissing,
        Some(root) => {
            let p = join(search.os, join(search.os, root, subdir), file);
            if fs_is_file_or_symlink(fs, p) {
                canonical_outcome(fs, p)
            } else {
                ToolOutcome::Missing(p)
            }
        },
    }
}

/// Where a tool is found without the cache: at the override, where a file or
/// link stands there; else in the SDK.
pub open spec fn tool_outcome(
    path_override: Option<Seq<char>>,
    search: SdkSearch,
    fs: Seq<EntryView>,
    subdir: Seq<char>,
    file: Seq<char>,
) -> ToolOutcome {
    match path_override {
        Some(o) => if fs_is_file_or_symlink(fs, o) {
            canonical_outcome(fs, o)
        } else {
            sdk_tool_outcome(search, fs, subdir, file)
        },
        None => sdk_tool_outcome(search, fs, subdir, file),
    }
}

/// Where the tool `name` is found given the cache: the cached path, where
/// there is one; else as `tool_outcome` says.
pub open spec fn resolved_tool(
    cache: Map<Seq<char>, Seq<char>>,
    path_override: Option<Seq<char>>,
    search: SdkSearch,
    fs: Seq<EntryView>,
    name: Seq<char>,
    subdir: Seq<char>,
    file: Seq<char>,
) -> ToolOutcome {
    if cache.contains_key(cache_key(name)) {
        ToolOutcome::Found(cache[cache_key(name)])
    } else {
        tool_outcome(path_override, search, fs, subdir, file)
    }
}

/// The cache after resolving the tool `name`: a path found on the
/// filesystem is added under the tool's key.
pub open spec fn cache_after(
    cache: Map<Seq<char>, Seq<char>>,
    path_override: Option<Seq<char>>,
    search: SdkSearch,
    fs: Seq<EntryView>,
    name: Seq<char>,
    subdir: Seq<char>,
    file: Seq<char>,
) -> Map<Seq<char>, Seq<char>> {
    if cache.contains_key(cache_key(name)) {
        cache
    } else {
        match tool_outcome(path_override, search, fs, subdir, file) {
            ToolOutcome::Found(p) => cache.insert(cache_key(name), p),
            _ => cache,
        }
    }
}

/// `r` is what resolving the tool `name` returns for `outcome`.
pub open spec fn reports(r: Result<String, ResolveError>, name: Seq<char>, outcome: ToolOutcome) -> bool {
    match outcome {
        ToolOutcome::Found(p) => r matches Ok(s) && s@ == p,
        ToolOutcome::SdkMissing => r matches Err(ResolveError::SdkNotFound),
        ToolOutcome::Missing(p) => r matches Err(ResolveError::ToolNotFound { tool, probed }) && tool@
            == name && probed@ == p,
        ToolOutcome::NoCanonical(p) => r matches Err(ResolveError::Canonicalize { path }) && path@
            == p,
    }
}

/// Resolving a tool twice gives the same path: once found, the second
/// resolution answers from the cache, whatever the override, the search
/// inputs and the filesystem are by then, and leaves the cache as it is.
pub proof fn lemma_resolution_idempotent(
    cache: Map<Seq<char>, Seq<char>>,
    path_override: Option<Seq<char>>,
    search: SdkSearch,
    fs: Seq<EntryView>,
    path_override2: Option<Seq<char>>,
    search2: SdkSearch,
    fs2: Seq<EntryView>,
    name: Seq<char>,
    subdir: Seq<char>,
    file: Seq<char>,
)
    requires
        resolved_tool(cache, path_override, search, fs, name, subdir, file) is Found,
    ensures
        ({
            let cache1 = cache_after(cache, path_override, search, fs, name, subdir, file);
            &&& cache1.contains_key(cache_key(name))
            &&& resolved_tool(cache1, path_override2, search2, fs2, name, subdir, file)
                == resolved_tool(cache, path_override, search, fs, name, subdir, file)
            &&& cache_after(cache1, path_override2, search2, fs2, name, subdir, file) == cache1
        }),
{
}

/// An override at which no file or link stands is passed over: resolution
/// goes on as if no override were set.
pub proof fn lemma_missing_override_falls_through(
    path_override: Seq<char>,
    search: SdkSearch,
    fs: Seq<EntryView>,
    subdir: Seq<char>,
    file: Seq<char>,
)
    requires
        !fs_is_file_or_symlink(fs, path_override),
    ensures
        tool_outcome(Some(path_override), search, fs, subdir, file) == tool_outcome(
            None,
            search,
            fs,
            subdir,
            file,
        ),
{
}

/// With no configured SDK path, no `CANGJIE_HOME`, the running executable
/// at `<root>/bin/<exe_name>` for an absolute `<root>`, and, with `c` that
/// root spelled without trailing separators, a `c/bin` directory holding
/// the compiler: the SDK root is `c`, and resolving the
/// compiler without override on an empty cache finds it at its canonical
/// path and caches it under `tool_path_cjc`.
pub proof fn lemma_compiler_found_beside_executable(
    search: SdkSearch,
    fs: Seq<EntryView>,
    root: Seq<char>,
    exe_name: Seq<char>,
    canonical: Seq<char>,
)
    requires
        search.configured_path is None,
        search.env_home is None,
        opt_view(search.exe_path) == Some(root + "/"@ + "bin"@ + "/"@ + exe_name),
        is_absolute(search.os, root),
        is_absolute(search.os, trimmed(search.os, root)),
        is_plain_name(search.os, exe_name),
        fs_is_dir(fs, join(search.os, trimmed(search.os, root), "bin"@)),
        fs_is_file_or_symlink(
            fs,
            join(
                search.os,
                join(search.os, trimmed(search.os, root), "bin"@),
                binary_name(search.os, "cjc"@),
            ),
        ),
        fs_canonical(
            fs,
            join(
                search.os,
                join(search.os, trimmed(search.os, root), "bin"@),
                binary_name(search.os, "cjc"@),
            ),
        ) == Some(canonical),
    ensures
        sdk_root(search, fs) == Some(trimmed(search.os, root)),
        resolved_tool(
            Map::empty(),
            None,
            search,
            fs,
            "cjc"@,
            "bin"@,
            binary_name(search.os, "cjc"@),
        ) == ToolOutcome::Found(canonical),
        cache_after(Map::empty(), None, search, fs, "cjc"@, "bin"@, binary_name(search.os, "cjc"@))
            == Map::<Seq<char>, Seq<char>>::empty().insert("tool_path_cjc"@, canonical),
{
    let os = search.os;
    let b = root + "/"@ + "bin"@;
    reveal_strlit("bin");
    reveal_strlit(".");
    reveal_strlit("..");
    assert(is_plain_name(os, "bin"@)) by {
        assert("bin"@ != "."@ && "bin"@ != ".."@) by {
            assert("bin"@.len() != "."@.len() && "bin"@[0] != ".."@[0]);
        }
    }
    lemma_parent_and_name_of_child(os, root, "bin"@);
    lemma_parent_and_name_of_child(os, b, exe_name);
    assert(exe_bin_candidate(os, b + "/"@ + exe_name) == Some(trimmed(os, root)));
    reveal_strlit("tool_path_");
    reveal_strlit("cjc");
    reveal_strlit("tool_path_cjc");
    assert(cache_key("cjc"@) =~= "tool_path_cjc"@);
}

} // verus!
