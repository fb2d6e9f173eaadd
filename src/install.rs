//! Provisioning the language server: an explicit override, else the SDK's
//! copy, else the matching artifact of the latest release, downloaded into
//! the user's extension directory.
use vstd::prelude::*;
use crate::opt_view;
use crate::paths::{join, join_path};
use crate::platform::{asset_name, asset_name_for_platform, binary_name, binary_name_for, CpuArch, OsFamily, PlatformError};
use crate::probe::{fs_canonical, fs_is_file_or_symlink, EntryView, PathProbe};
use crate::sdk::{resolve_sdk_root, sdk_root, SdkSearch};
use crate::tools::{BIN_DIR, SERVER_NAME};

verus! {

/// Why the language server could not be provided.
#[derive(Debug, PartialEq, Eq)]
pub enum InstallError {
    /// The configured override names no file or link.
    OverrideMissing { path: String },
    /// The path exists but has no canonical form.
    Canonicalize { path: String },
    /// No release artifact is built for the host.
    UnsupportedPlatform(PlatformError),
    /// The release feed could not be read.
    ReleaseUnavailable { reason: String },
    /// The latest release has no artifact of this name.
    AssetNotFound { asset_name: String },
    /// Neither `HOME` nor `USERPROFILE` is set.
    HomeDirectoryUnknown,
    /// The download failed.
    DownloadFailed { reason: String },
    /// The downloaded file could not be made executable.
    MakeExecutableFailed { reason: String },
}

impl InstallError {
    /// What went wrong, for the user.
    pub fn message(&self) -> (r: String)
        ensures
            match self {
                InstallError::OverrideMissing { path } => r@ == "LSP override path does not exist: "@
                    + path@,
                InstallError::Canonicalize { path } => r@ == "Failed to canonicalize LSP path: "@
                    + path@,
                InstallError::UnsupportedPlatform(PlatformError::UnsupportedArchitecture) => r@
                    == "Unsupported architecture"@,
                InstallError::UnsupportedPlatform(PlatformError::UnsupportedOs) => r@
                    == "Unsupported OS"@,
                InstallError::ReleaseUnavailable { reason } => r@
                    == "Failed to fetch GitHub release: "@ + reason@,
                InstallError::AssetNotFound { asset_name } => r@ == "No asset found matching '"@
                    + asset_name@ + "'"@,
                InstallError::HomeDirectoryUnknown => r@
                    == "Could not find HOME or USERPROFILE directory"@,
                InstallError::DownloadFailed { reason } => r@ == "Download failed: "@ + reason@,
                InstallError::MakeExecutableFailed { reason } => r@
                    == "Failed to make executable: "@ + reason@,
            },
    {
        match self {
            InstallError::OverrideMissing { path } => "LSP override path does not exist: ".to_owned().concat(
                path.as_str(),
            ),
            InstallError::Canonicalize { path } => "Failed to canonicalize LSP path: ".to_owned().concat(
                path.as_str(),
            ),
            InstallError::UnsupportedPlatform(e) => e.message(),
            InstallError::ReleaseUnavailable { reason } => "Failed to fetch GitHub release: ".to_owned().concat(
                reason.as_str(),
            ),
            InstallError::AssetNotFound { asset_name } => "No asset found matching '".to_owned().concat(
                asset_name.as_str(),
            ).concat("'"),
            InstallError::HomeDirectoryUnknown => "Could not find HOME or USERPROFILE directory".to_owned(),
            InstallError::DownloadFailed { reason } => "Download failed: ".to_owned().concat(
                reason.as_str(),
            ),
            InstallError::MakeExecutableFailed { reason } => "Failed to make executable: ".to_owned().concat(
                reason.as_str(),
            ),
        }
    }
}

/// The repository whose releases carry the language server.
pub const RELEASE_REPOSITORY: &'static str = "cangjie-lang/cangjie";

/// A downloadable artifact of a release.
pub struct ReleaseAsset {
    pub name: String,
    pub download_url: String,
}

/// Where the language server stands, or what must be downloaded.
#[derive(Debug, PartialEq, Eq)]
pub enum ServerLocation {
    /// The server is at this canonical path; nothing is fetched.
    Installed(String),
    /// The server is absent: the release artifact of this name is needed.
    MustDownload { asset_name: String },
}

/// A download to perform.
#[derive(Debug, PartialEq, Eq)]
pub struct DownloadPlan {
    pub url: String,
    pub destination: String,
    /// The file must be marked executable once downloaded.
    pub make_executable: bool,
}

/// How locating the language server ends, as plain values.
pub ghost enum LocateOutcome {
    Installed(Seq<char>),
    MustDownload(Seq<char>),
    OverrideMissing(Seq<char>),
    NoCanonical(Seq<char>),
    Unsupported(PlatformError),
}

/// The server's path in the SDK's `bin` directory, for an SDK rooted at
/// `root`.
pub open spec fn server_in_sdk(root: Seq<char>, os: OsFamily) -> Seq<char> {
    join(os, join(os, root, "bin"@), binary_name(os, "cangjie-lsp"@))
}

pub open spec fn found_at(fs: Seq<EntryView>, p: Seq<char>) -> LocateOutcome {
    match fs_canonical(fs, p) {
        Some(c) => LocateOutcome::Installed(c),
        None => LocateOutcome::NoCanonical(p),
    }
}

/// Where the language server is: at the override, which must name a file or
/// link; else in the SDK's `bin` directory, where an SDK is found and holds
/// it; else it must be downloaded, as the artifact built for `os` and
/// `arch`.
pub open spec fn locate_outcome(
    path_override: Option<Seq<char>>,
    search: SdkSearch,
    arch: CpuArch,
    fs: Seq<EntryView>,
) -> LocateOutcome {
    match path_override {
        Some(o) => if fs_is_file_or_symlink(fs, o) {
            found_at(fs, o)
        } else {
            LocateOutcome::OverrideMissing(o)
        },
        None => {
            let root = sdk_root(search, fs);
            if root is Some && fs_is_file_or_symlink(fs, server_in_sdk(root.unwrap(), search.os)) {
                found_at(fs, server_in_sdk(root.unwrap(), search.os))
            } else {
                match asset_name(search.os, arch, "cangjie-lsp"@) {
                    Ok(n) => LocateOutcome::MustDownload(n),
                    Err(e) => LocateOutcome::Unsupported(e),
                }
            }
        },
    }
}

pub open spec fn locate_reports(r: Result<ServerLocation, InstallError>, o: LocateOutcome) -> bool {
    match o {
        LocateOutcome::Installed(p) => r matches Ok(ServerLocation::Installed(s)) && s@ == p,
        LocateOutcome::MustDownload(n) => r matches Ok(ServerLocation::MustDownload { asset_name })
            && asset_name@ == n,
        LocateOutcome::OverrideMissing(p) => r matches Err(InstallError::OverrideMissing { path })
            && path@ == p,
        LocateOutcome::NoCanonical(p) => r matches Err(InstallError::Canonicalize { path }) && path@
            == p,
        LocateOutcome::Unsupported(e) => r == Err::<ServerLocation, InstallError>(
            InstallError::UnsupportedPlatform(e),
        ),
    }
}

/// An explicit override that names nothing is an error for the installer:
/// it neither searches the SDK nor downloads.
pub proof fn lemma_installer_rejects_missing_override(
    path_override: Seq<char>,
    search: SdkSearch,
    arch: CpuArch,
    fs: Seq<EntryView>,
)
    requires
        !fs_is_file_or_symlink(fs, path_override),
    ensures
        locate_outcome(Some(path_override), search, arch, fs) == LocateOutcome::OverrideMissing(
            path_override,
        ),
{
}

/// Once the SDK holds the server, locating it finds it there and asks for
/// no download.
pub proof fn lemma_server_in_sdk_needs_no_download(
    search: SdkSearch,
    arch: CpuArch,
    fs: Seq<EntryView>,
    root: Seq<char>,
    canonical: Seq<char>,
)
    requires
        sdk_root(search, fs) == Some(root),
        fs_is_file_or_symlink(fs, server_in_sdk(root, search.os)),
        fs_canonical(fs, server_in_sdk(root, search.os)) == Some(canonical),
    ensures
        locate_outcome(None, search, arch, fs) == LocateOutcome::Installed(canonical),
{
}

fn canonical_server(fs: &mut PathProbe, path: String) -> (r: Result<ServerLocation, InstallError>)
    ensures
        locate_reports(r, found_at(old(fs)@, path@)),
        final(fs)@ == old(fs)@,
{
    match fs.canonicalize(&path) {
        Some(c) => Ok(ServerLocation::Installed(c)),
        None => Err(InstallError::Canonicalize { path }),
    }
}

/// Locates the language server: at `path_override`, where one is set (an
/// override that names no file or link is an error); else in the SDK's
/// `bin` directory; else names the release artifact to download for the
/// host's `search.os` and `arch`.
pub fn locate_language_server(
    path_override: &Option<String>,
    search: &SdkSearch,
    arch: CpuArch,
    fs: &mut PathProbe,
) -> (r: Result<ServerLocation, InstallError>)
    ensures
        locate_reports(r, locate_outcome(opt_view(*path_override), *search, arch, old(fs)@)),
        final(fs)@ == old(fs)@,
{
    if let Some(o) = path_override {
        if fs.is_file_or_symlink(o) {
            return canonical_server(fs, o.clone());
        } else {
            return Err(InstallError::OverrideMissing { path: o.clone() });
        }
    }
    if let Ok(root) = resolve_sdk_root(search, fs) {
        let path = join_path(
            search.os,
            &join_path(search.os, &root, BIN_DIR),
            &binary_name_for(search.os, SERVER_NAME),
        );
        if fs.is_file_or_symlink(&path) {
            return canonical_server(fs, path);
        }
    }
    match asset_name_for_platform(search.os, arch, SERVER_NAME) {
        Ok(n) => Ok(ServerLocation::MustDownload { asset_name: n }),
        Err(e) => Err(InstallError::UnsupportedPlatform(e)),
    }
}

/// Where a downloaded artifact named `name` is stored under the home
/// directory `home`: `<home>/.zed/extensions/<name>`.
pub open spec fn install_destination(os: OsFamily, home: Seq<char>, name: Seq<char>) -> Seq<char> {
    join(os, join(os, join(os, home, ".zed"@), "extensions"@), name)
}

/// The home directory: `HOME`, else `USERPROFILE`.
pub open spec fn home_directory(home: Option<String>, user_profile: Option<String>) -> Option<
    Seq<char>,
> {
    match home {
        Some(h) => Some(h@),
        None => opt_view(user_profile),
    }
}

/// `i` is the first asset named `name`.
pub open spec fn first_asset_named(assets: Seq<ReleaseAsset>, name: Seq<char>, i: int) -> bool {
    &&& 0 <= i < assets.len()
    &&& assets[i].name@ == name
    &&& forall|j: int| 0 <= j < i ==> assets[j].name@ != name
}

fn find_asset(assets: &Vec<ReleaseAsset>, name: &str) -> (r: Option<usize>)
    ensures
        match r {
            Some(i) => first_asset_named(assets@, name@, i as int),
            None => forall|j: int| 0 <= j < assets@.len() ==> assets@[j].name@ != name@,
        },
{
    let wanted = name.to_owned();
    let mut i: usize = 0;
    while i < assets.len()
        invariant
            i <= assets@.len(),
            wanted@ == name@,
            forall|j: int| 0 <= j < i ==> assets@[j].name@ != name@,
        decreases assets@.len() - i,
    {
        if assets[i].name == wanted {
            return Some(i);
        }
        i = i + 1;
    }
    None
}

/// Plans the download of the artifact `asset_name` from the latest
/// `release`: the first asset of that exact name, stored as
/// `<home>/.zed/extensions/<asset_name>` under `HOME` (else `USERPROFILE`),
/// and made executable on every family but Windows.
pub fn plan_download(
    release: &Result<Vec<ReleaseAsset>, String>,
    asset_name: &str,
    home: &Option<String>,
    user_profile: &Option<String>,
    os: OsFamily,
) -> (r: Result<DownloadPlan, InstallError>)
    ensures
        match release {
            Err(reason) => r matches Err(InstallError::ReleaseUnavailable { reason: e }) && e@
                == reason@,
            Ok(assets) => if forall|j: int| 0 <= j < assets@.len() ==> assets@[j].name@ != asset_name@ {
                r matches Err(InstallError::AssetNotFound { asset_name: n }) && n@ == asset_name@
            } else if home_directory(*home, *user_profile) is None {
                r == Err::<DownloadPlan, InstallError>(InstallError::HomeDirectoryUnknown)
            } else {
                r matches Ok(plan) && exists|i: int|
                    #![trigger assets@[i]]
                    first_asset_named(assets@, asset_name@, i) && plan.url@ == assets@[i].download_url@
                        && plan.destination@ == install_destination(
                        os,
                        home_directory(*home, *user_profile).unwrap(),
                        asset_name@,
                    ) && plan.make_executable == !(os is Windows)
            },
        },
{
    let assets = match release {
        Err(reason) => return Err(InstallError::ReleaseUnavailable { reason: reason.clone() }),
        Ok(assets) => assets,
    };
    let i = match find_asset(assets, asset_name) {
        Some(i) => i,
        None => return Err(InstallError::AssetNotFound { asset_name: asset_name.to_owned() }),
    };
    let home_dir = match home {
        Some(h) => h.clone(),
        None => match user_profile {
            Some(u) => u.clone(),
            None => return Err(InstallError::HomeDirectoryUnknown),
        },
    };
    let asset = &assets[i];
    let destination = join_path(
        os,
        &join_path(os, &join_path(os, &home_dir, ".zed"), "extensions"),
        &asset.name,
    );
    Ok(DownloadPlan {
        url: asset.download_url.clone(),
        destination,
        make_executable: !(os == OsFamily::Windows),
    })
}

/// The end of an installation that followed `plan`: the downloaded path,
/// unless the download failed, or marking the file executable (where it
/// was attempted) failed.
pub fn complete_install(
    plan: DownloadPlan,
    downloaded: Result<(), String>,
    made_executable: Option<Result<(), String>>,
) -> (r: Result<String, InstallError>)
    ensures
        match downloaded {
            Err(reason) => r matches Err(InstallError::DownloadFailed { reason: e }) && e@ == reason@,
            Ok(_) => match made_executable {
                Some(Err(reason)) => r matches Err(InstallError::MakeExecutableFailed { reason: e })
                    && e@ == reason@,
                _ => r matches Ok(p) && p@ == plan.destination@,
            },
        },
{
    match downloaded {
        Err(reason) => Err(InstallError::DownloadFailed { reason }),
        Ok(()) => match made_executable {
            Some(Err(reason)) => Err(InstallError::MakeExecutableFailed { reason }),
            _ => Ok(plan.destination),
        },
    }
}

} // verus!
