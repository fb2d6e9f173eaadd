//! Locating, caching and provisioning the binaries of the Cangjie toolchain
//! (the `cjc` compiler, its `cjc-frontend` debugger driver and the
//! `cangjie-lsp` language server) for an editor host.
use vstd::prelude::*;

pub mod cache;
pub mod commands;
pub mod install;
pub mod json;
pub mod paths;
pub mod platform;
pub mod probe;
pub mod sdk;
pub mod throttle;
pub mod tools;

use crate::cache::ToolPathCache;
use crate::commands::CommandOutput;
use crate::json::{json_string_member, string_member_of_document};
use crate::paths::join_path;
use crate::platform::{
    asset_name, asset_name_for_platform, binary_name, binary_name_for, CpuArch, OsFamily,
    PlatformError,
};
use crate::probe::{fs_canonical, PathProbe};
use crate::sdk::{resolve_sdk_root, ResolveError, SdkSearch};
use crate::throttle::{throttled, UpdateCheckThrottle};
use crate::tools::{
    cache_after, cache_key, reports, resolved_tool, BIN_DIR, CJC_FRONTEND_NAME, CJC_NAME,
};

verus! {

/// The characters of each string.
pub open spec fn strings_view(v: Seq<String>) -> Seq<Seq<char>> {
    v.map_values(|s: String| s@)
}

/// The characters of an optional string.
pub open spec fn opt_view(o: Option<String>) -> Option<Seq<char>> {
    match o {
        Some(s) => Some(s@),
        None => None,
    }
}

/// The engine: resolves toolchain paths, caching what it finds, and
/// throttles update checks.
pub struct CangjieExtension {
    cached_tool_paths: ToolPathCache,
    update_throttle: UpdateCheckThrottle,
}

impl CangjieExtension {
    /// The resolved tool paths, by cache key.
    pub closed spec fn tool_paths(&self) -> Map<Seq<char>, Seq<char>> {
        self.cached_tool_paths@
    }

    /// The time of the last update check, in seconds since the Unix epoch.
    pub closed spec fn last_update_check(&self) -> Option<u64> {
        self.update_throttle.last()
    }

    /// An engine with nothing cached and no update check recorded.
    pub fn new() -> (r: CangjieExtension)
        ensures
            r.tool_paths() == Map::<Seq<char>, Seq<char>>::empty(),
            r.last_update_check() is None,
    {
        CangjieExtension {
            cached_tool_paths: ToolPathCache::new(),
            update_throttle: UpdateCheckThrottle::new(),
        }
    }

    fn canonical_path(fs: &mut PathProbe, path: String) -> (r: Result<String, ResolveError>)
        ensures
            match fs_canonical(old(fs)@, path@) {
                Some(c) => r matches Ok(s) && s@ == c,
                None => r matches Err(ResolveError::Canonicalize { path: p }) && p@ == path@,
            },
            final(fs)@ == old(fs)@,
    {
        match fs.canonicalize(&path) {
            Some(c) => Ok(c),
            None => Err(ResolveError::Canonicalize { path }),
        }
    }

    /// Resolves the path of the tool `tool_name`: the cached path, where the
    /// tool was resolved before, without a look at the filesystem; else
    /// `path_override`, where a file or link stands there; else
    /// `<sdk root>/<default_subdir>/<default_filename>`, where a file or link
    /// stands there. A path found on the filesystem is canonicalized and
    /// cached under `tool_path_<tool_name>`.
    pub fn resolve_tool_binary_path(
        &mut self,
        path_override: &Option<String>,
        search: &SdkSearch,
        fs: &mut PathProbe,
        tool_name: &str,
        default_subdir: &str,
        default_filename: &str,
    ) -> (r: Result<String, ResolveError>)
        ensures
            reports(
                r,
                tool_name@,
                resolved_tool(
                    old(self).tool_paths(),
                    opt_view(*path_override),
                    *search,
                    old(fs)@,
                    tool_name@,
                    default_subdir@,
                    default_filename@,
                ),
            ),
            final(self).tool_paths() == cache_after(
                old(self).tool_paths(),
                opt_view(*path_override),
                *search,
                old(fs)@,
                tool_name@,
                default_subdir@,
                default_filename@,
            ),
            final(self).last_update_check() == old(self).last_update_check(),
            final(fs)@ == old(fs)@,
            old(self).tool_paths().contains_key(cache_key(tool_name@)) ==> *final(fs) == *old(fs),
    {
        let cache_key = "tool_path_".to_owned().concat(tool_name);
        if let Some(cached) = self.cached_tool_paths.get(&cache_key) {
            return Ok(cached);
        }
        if let Some(o) = path_override {
            if fs.is_file_or_symlink(o) {
                let resolved = Self::canonical_path(fs, o.clone())?;
                self.cached_tool_paths.insert(cache_key, resolved.clone());
                return Ok(resolved);
            }
        }
        let sdk_root = resolve_sdk_root(search, fs)?;
        let tool_path = join_path(
            search.os,
            &join_path(search.os, &sdk_root, default_subdir),
            default_filename,
        );
        if fs.is_file_or_symlink(&tool_path) {
            let resolved = Self::canonical_path(fs, tool_path)?;
            self.cached_tool_paths.insert(cache_key, resolved.clone());
            Ok(resolved)
        } else {
            Err(ResolveError::ToolNotFound { tool: tool_name.to_owned(), probed: tool_path })
        }
    }

    /// The path cached for the tool `tool_name`, under `tool_path_<tool_name>`.
    pub fn cached_tool_path(&self, tool_name: &str) -> (r: Option<String>)
        ensures
            opt_view(r) == self.tool_paths().get(cache_key(tool_name@)),
    {
        let key = "tool_path_".to_owned().concat(tool_name);
        self.cached_tool_paths.get(&key)
    }

    /// Resolves the compiler `cjc`: as `resolve_tool_binary_path` does, with
    /// the SDK's `bin` directory and the host's executable name for it.
    pub fn cjc_binary_path(
        &mut self,
        path_override: &Option<String>,
        search: &SdkSearch,
        fs: &mut PathProbe,
    ) -> (r: Result<String, ResolveError>)
        ensures
            reports(
                r,
                "cjc"@,
                resolved_tool(
                    old(self).tool_paths(),
                    opt_view(*path_override),
                    *search,
                    old(fs)@,
                    "cjc"@,
                    "bin"@,
                    binary_name(search.os, "cjc"@),
                ),
            ),
            final(self).tool_paths() == cache_after(
                old(self).tool_paths(),
                opt_view(*path_override),
                *search,
                old(fs)@,
                "cjc"@,
                "bin"@,
                binary_name(search.os, "cjc"@),
            ),
            final(self).last_update_check() == old(self).last_update_check(),
            final(fs)@ == old(fs)@,
    {
        let file = binary_name_for(search.os, CJC_NAME);
        self.resolve_tool_binary_path(path_override, search, fs, CJC_NAME, BIN_DIR, &file)
    }

    /// Resolves the compiler frontend `cjc-frontend` that drives the
    /// debugger: as `resolve_tool_binary_path` does, with the SDK's `bin`
    /// directory and the host's executable name for it.
    pub fn cjc_frontend_binary_path(
        &mut self,
        path_override: &Option<String>,
        search: &SdkSearch,
        fs: &mut PathProbe,
    ) -> (r: Result<String, ResolveError>)
        ensures
            reports(
                r,
                "cjc-frontend"@,
                resolved_tool(
                    old(self).tool_paths(),
                    opt_view(*path_override),
                    *search,
                    old(fs)@,
                    "cjc-frontend"@,
                    "bin"@,
                    binary_name(search.os, "cjc-frontend"@),
                ),
            ),
            final(self).tool_paths() == cache_after(
                old(self).tool_paths(),
                opt_view(*path_override),
                *search,
                old(fs)@,
                "cjc-frontend"@,
                "bin"@,
                binary_name(search.os, "cjc-frontend"@),
            ),
            final(self).last_update_check() == old(self).last_update_check(),
            final(fs)@ == old(fs)@,
    {
        let file = binary_name_for(search.os, CJC_FRONTEND_NAME);
        self.resolve_tool_binary_path(path_override, search, fs, CJC_FRONTEND_NAME, BIN_DIR, &file)
    }

    /// The name of the release artifact of `base_name` for `os` and `arch`.
    pub fn get_asset_name_for_platform(&self, os: OsFamily, arch: CpuArch, base_name: &str) -> (r:
        Result<String, PlatformError>)
        ensures
            match r {
                Ok(s) => asset_name(os, arch, base_name@) == Ok::<Seq<char>, PlatformError>(s@),
                Err(e) => asset_name(os, arch, base_name@) == Err::<Seq<char>, PlatformError>(e),
            },
    {
        asset_name_for_platform(os, arch, base_name)
    }

    /// The answer of an update check that was held back.
    pub open spec fn skipped_text() -> Seq<char> {
        "Update check performed recently. Skipping..."@
    }

    /// Whether an update check at `now` may go ahead: none was recorded
    /// less than an hour before.
    pub fn should_check_updates(&self, now: u64) -> (r: bool)
        ensures
            r == !throttled(self.last_update_check(), now),
    {
        self.update_throttle.should_check(now)
    }

    /// Completes an update check made at `now`, given the latest release's
    /// tag as read from the release information (`Ok(None)`: it names none;
    /// `Err`: the information could not be read, with why). A tag is
    /// reported, and the check recorded; otherwise nothing is recorded.
    pub fn finish_update_check(&mut self, now: u64, tag: Result<Option<String>, String>) -> (r:
        Result<CommandOutput, String>)
        ensures
            match tag {
                Ok(Some(t)) => r matches Ok(out) && out.text@ == "Latest Cangjie LSP release: **"@
                    + t@ + "**"@ && out.label@ == "Update Info"@ && final(self).last_update_check()
                    == Some(now),
                Ok(None) => r matches Err(m) && m@ == "Could not find 'tag_name' in release info."@
                    && final(self).last_update_check() == old(self).last_update_check(),
                Err(e) => r matches Err(m) && m@ == "Failed to parse release info: "@ + e@
                    && final(self).last_update_check() == old(self).last_update_check(),
            },
            final(self).tool_paths() == old(self).tool_paths(),
    {
        match tag {
            Ok(Some(t)) => {
                self.update_throttle.record_checked(now);
                let text = "Latest Cangjie LSP release: **".to_owned().concat(t.as_str()).concat("**");
                Ok(CommandOutput { text, label: "Update Info".to_owned() })
            },
            Ok(None) => Err("Could not find 'tag_name' in release info.".to_owned()),
            Err(e) => Err("Failed to parse release info: ".to_owned().concat(e.as_str())),
        }
    }

    /// Checks for a newer language-server release at `now`, from the JSON
    /// `release_info` of the latest release: held back (and nothing read)
    /// where a check was recorded less than an hour before; else reads the
    /// release's `tag_name`, reports it and records the check.
    pub fn handle_check_updates_command(&mut self, now: u64, release_info: &str) -> (r: Result<
        CommandOutput,
        String,
    >)
        ensures
            throttled(old(self).last_update_check(), now) ==> (r matches Ok(out) && out.text@
                == Self::skipped_text() && out.label@ == "Status"@ && final(self).last_update_check()
                == old(self).last_update_check()),
            !throttled(old(self).last_update_check(), now) ==> match json_string_member(
                release_info@,
                "tag_name"@,
            ) {
                Ok(Some(t)) => r matches Ok(out) && out.text@ == "Latest Cangjie LSP release: **"@ + t
                    + "**"@ && out.label@ == "Update Info"@ && final(self).last_update_check()
                    == Some(now),
                Ok(None) => r matches Err(m) && m@ == "Could not find 'tag_name' in release info."@
                    && final(self).last_update_check() == old(self).last_update_check(),
                Err(e) => r matches Err(m) && m@ == "Failed to parse release info: "@ + e
                    && final(self).last_update_check() == old(self).last_update_check(),
            },
            final(self).tool_paths() == old(self).tool_paths(),
    {
        if !self.update_throttle.should_check(now) {
            let text = "Update check performed recently. Skipping...".to_owned();
            return Ok(CommandOutput { text, label: "Status".to_owned() });
        }
        let tag = string_member_of_document(release_info, "tag_name");
        self.finish_update_check(now, tag)
    }
}

} // verus!

pub use crate::commands::project_name;
pub use crate::platform::get_binary_name;
