//! Operating-system and CPU families, and the names that binaries and
//! release artifacts carry on each of them.
use vstd::prelude::*;

verus! {

/// The operating-system family of a host.
#[derive(Clone, Copy, Debug, PartialEq, Eq, Structural)]
pub enum OsFamily {
    Mac,
    Linux,
    Windows,
    /// Any other operating system.
    Other,
}

/// The CPU architecture of a host.
#[allow(non_camel_case_types)]
#[derive(Clone, Copy, Debug, PartialEq, Eq, Structural)]
pub enum CpuArch {
    /// 64-bit x86.
    X86_64,
    /// 64-bit ARM.
    Aarch64,
    /// 32-bit x86.
    X86,
    /// Any other architecture.
    Other,
}

/// Why no release artifact exists for a platform.
#[derive(Clone, Copy, Debug, PartialEq, Eq, Structural)]
pub enum PlatformError {
    UnsupportedArchitecture,
    UnsupportedOs,
}

impl PlatformError {
    pub fn message(&self) -> (r: String)
        ensures
            self is UnsupportedArchitecture ==> r@ == "Unsupported architecture"@,
            self is UnsupportedOs ==> r@ == "Unsupported OS"@,
    {
        match self {
            PlatformError::UnsupportedArchitecture => "Unsupported architecture".to_owned(),
            PlatformError::UnsupportedOs => "Unsupported OS".to_owned(),
        }
    }
}

/// The suffix that executables carry on `os`.
pub open spec fn exe_suffix(os: OsFamily) -> Seq<char> {
    if os is Windows {
        ".exe"@
    } else {
        Seq::empty()
    }
}

/// The file name of the executable `base` on `os`.
pub open spec fn binary_name(os: OsFamily, base: Seq<char>) -> Seq<char> {
    base + exe_suffix(os)
}

/// The architecture part of a release artifact's name.
pub open spec fn arch_tag(arch: CpuArch) -> Option<Seq<char>> {
    match arch {
        CpuArch::X86_64 => Some("x86_64"@),
        CpuArch::Aarch64 => Some("aarch64"@),
        _ => None,
    }
}

/// The target-triple tail of a release artifact's name on `os`.
pub open spec fn os_tag(os: OsFamily) -> Option<Seq<char>> {
    match os {
        OsFamily::Mac => Some("apple-darwin"@),
        OsFamily::Linux => Some("unknown-linux-gnu"@),
        OsFamily::Windows => Some("pc-windows-msvc"@),
        OsFamily::Other => None,
    }
}

/// The name of the release artifact of `base` built for `os` and `arch`:
/// `<base>-<arch>-<os><suffix>`.
pub open spec fn asset_name(os: OsFamily, arch: CpuArch, base: Seq<char>) -> Result<
    Seq<char>,
    PlatformError,
> {
    match arch_tag(arch) {
        None => Err(PlatformError::UnsupportedArchitecture),
        Some(a) => match os_tag(os) {
            None => Err(PlatformError::UnsupportedOs),
            Some(o) => Ok(base + "-"@ + a + "-"@ + o + exe_suffix(os)),
        },
    }
}

fn exe_suffix_str(os: OsFamily) -> (r: &'static str)
    ensures
        r@ == exe_suffix(os),
{
    proof {
        reveal_strlit("");
    }
    match os {
        OsFamily::Windows => ".exe",
        _ => "",
    }
}

/// The file name of the executable `base_name` on `os`.
pub fn binary_name_for(os: OsFamily, base_name: &str) -> (r: String)
    ensures
        r@ == binary_name(os, base_name@),
{
    base_name.to_owned().concat(exe_suffix_str(os))
}

/// Relies on `std::path::MAIN_SEPARATOR`: the path separator of the platform
/// the crate is built for, which is `\` on the Windows family.
#[verifier::external_body]
fn main_separator() -> (c: char) {
    std::path::MAIN_SEPARATOR
}

/// The file name of the executable `base_name` on the platform this crate
/// is built for: with `.exe` on the Windows family, unchanged elsewhere.
pub fn get_binary_name(base_name: &str) -> (r: String)
    ensures
        r@ == binary_name(OsFamily::Windows, base_name@) || r@ == binary_name(
            OsFamily::Linux,
            base_name@,
        ),
{
    if main_separator() == '\\' {
        binary_name_for(OsFamily::Windows, base_name)
    } else {
        binary_name_for(OsFamily::Linux, base_name)
    }
}

/// The name of the release artifact of `base_name` for `os` and `arch`.
pub fn asset_name_for_platform(os: OsFamily, arch: CpuArch, base_name: &str) -> (r: Result<
    String,
    PlatformError,
>)
    ensures
        match r {
            Ok(s) => asset_name(os, arch, base_name@) == Ok::<Seq<char>, PlatformError>(s@),
            Err(e) => asset_name(os, arch, base_name@) == Err::<Seq<char>, PlatformError>(e),
        },
{
    let arch_str = match arch {
        CpuArch::X86_64 => "x86_64",
        CpuArch::Aarch64 => "aarch64",
        _ => return Err(PlatformError::UnsupportedArchitecture),
    };
    let os_str = match os {
        OsFamily::Mac => "apple-darwin",
        OsFamily::Linux => "unknown-linux-gnu",
        OsFamily::Windows => "pc-windows-msvc",
        OsFamily::Other => return Err(PlatformError::UnsupportedOs),
    };
    let name = base_name.to_owned().concat("-").concat(arch_str).concat("-").concat(os_str).concat(
        exe_suffix_str(os),
    );
    Ok(name)
}

} // verus!
