//! Which published server program can be fetched for a missing executable.
//!
//! Looking at the file system and downloading are left to the caller; these
//! functions decide what to fetch and whether the fetched bytes will do.
use vstd::prelude::*;

use crate::error::PumpkinError;
use crate::model::pumpkin_config::{default_executable_name, Platform};
use crate::paths::{file_name_of, path_file_name};
use crate::text::{owned, str_equal};

verus! {

/// Where the nightly builds of the server are published.
pub const NIGHTLY_BASE_URL: &'static str = "https://github.com/Pumpkin-MC/Pumpkin/releases/download/nightly";

/// The download address of the published program `name` for the operating
/// system `os` and the processor architecture `arch` (as Rust names them in
/// `std::env::consts`), where the project publishes one.
pub open spec fn release_url(os: Seq<char>, arch: Seq<char>, name: Seq<char>) -> Option<Seq<char>> {
    if os == "windows"@ && arch == "x86_64"@ && name == "pumpkin-X64-Windows.exe"@ {
        Some("https://github.com/Pumpkin-MC/Pumpkin/releases/download/nightly/pumpkin-X64-Windows.exe"@)
    } else if os == "windows"@ && arch == "aarch64"@ && name == "pumpkin-ARM64-Windows.exe"@ {
        Some("https://github.com/Pumpkin-MC/Pumpkin/releases/download/nightly/pumpkin-ARM64-Windows.exe"@)
    } else if os == "macos"@ && arch == "x86_64"@ && name == "pumpkin-X64-macOS"@ {
        Some("https://github.com/Pumpkin-MC/Pumpkin/releases/download/nightly/pumpkin-X64-macOS"@)
    } else if os == "macos"@ && arch == "aarch64"@ && name == "pumpkin-ARM64-macOS"@ {
        Some("https://github.com/Pumpkin-MC/Pumpkin/releases/download/nightly/pumpkin-ARM64-macOS"@)
    } else if os == "linux"@ && arch == "x86_64"@ && name == "pumpkin-X64-Linux"@ {
        Some("https://github.com/Pumpkin-MC/Pumpkin/releases/download/nightly/pumpkin-X64-Linux"@)
    } else if os == "linux"@ && arch == "aarch64"@ && name == "pumpkin-ARM64-Linux"@ {
        Some("https://github.com/Pumpkin-MC/Pumpkin/releases/download/nightly/pumpkin-ARM64-Linux"@)
    } else {
        None
    }
}

/// The download address for the executable at `path`: the one published
/// under its file name, if any.
pub open spec fn executable_url_of(os: Seq<char>, arch: Seq<char>, path: Seq<char>) -> Option<
    Seq<char>,
> {
    match path_file_name(path) {
        Some(name) => release_url(os, arch, name),
        None => None,
    }
}

fn release_url_exec(os: &str, arch: &str, name: &str) -> (r: Option<&'static str>)
    ensures
        match r {
            Some(u) => release_url(os@, arch@, name@) == Some(u@),
            None => release_url(os@, arch@, name@) is None,
        },
{
    if str_equal(os, "windows") && str_equal(arch, "x86_64") && str_equal(
        name,
        "pumpkin-X64-Windows.exe",
    ) {
        Some(
            "https://github.com/Pumpkin-MC/Pumpkin/releases/download/nightly/pumpkin-X64-Windows.exe",
        )
    } else if str_equal(os, "windows") && str_equal(arch, "aarch64") && str_equal(
        name,
        "pumpkin-ARM64-Windows.exe",
    ) {
        Some(
            "https://github.com/Pumpkin-MC/Pumpkin/releases/download/nightly/pumpkin-ARM64-Windows.exe",
        )
    } else if str_equal(os, "macos") && str_equal(arch, "x86_64") && str_equal(
        name,
        "pumpkin-X64-macOS",
    ) {
        Some("https://github.com/Pumpkin-MC/Pumpkin/releases/download/nightly/pumpkin-X64-macOS")
    } else if str_equal(os, "macos") && str_equal(arch, "aarch64") && str_equal(
        name,
        "pumpkin-ARM64-macOS",
    ) {
        Some("https://github.com/Pumpkin-MC/Pumpkin/releases/download/nightly/pumpkin-ARM64-macOS")
    } else if str_equal(os, "linux") && str_equal(arch, "x86_64") && str_equal(
        name,
        "pumpkin-X64-Linux",
    ) {
        Some("https://github.com/Pumpkin-MC/Pumpkin/releases/download/nightly/pumpkin-X64-Linux")
    } else if str_equal(os, "linux") && str_equal(arch, "aarch64") && str_equal(
        name,
        "pumpkin-ARM64-Linux",
    ) {
        Some("https://github.com/Pumpkin-MC/Pumpkin/releases/download/nightly/pumpkin-ARM64-Linux")
    } else {
        None
    }
}

/// The download address for the executable at `path` on `os` and `arch`.
pub fn executable_url(os: &str, arch: &str, path: &str) -> (r: Option<&'static str>)
    ensures
        match r {
            Some(u) => executable_url_of(os@, arch@, path@) == Some(u@),
            None => executable_url_of(os@, arch@, path@) is None,
        },
{
    match file_name_of(path) {
        Some(name) => release_url_exec(os, arch, name.as_str()),
        None => None,
    }
}

/// What it takes to have the executable at `path`, given whether it
/// `exists`: nothing where it exists (`Ok(None)`), a download from the
/// returned address where one is published, else `MissingExecutable`.
pub fn ensure_executable(exists: bool, os: &str, arch: &str, path: &str) -> (r: Result<
    Option<&'static str>,
    PumpkinError,
>)
    ensures
        exists ==> r == Ok::<Option<&'static str>, PumpkinError>(None),
        !exists ==> match executable_url_of(os@, arch@, path@) {
            Some(u) => r matches Ok(Some(x)) && x@ == u,
            None => r matches Err(PumpkinError::MissingExecutable(p)) && p@ == path@,
        },
{
    if exists {
        return Ok(None);
    }
    match executable_url(os, arch, path) {
        Some(url) => Ok(Some(url)),
        None => Err(PumpkinError::MissingExecutable(owned(path))),
    }
}

/// Whether a download of `len` bytes can serve as the executable: an empty
/// one is refused.
pub fn check_download(len: usize) -> (r: Result<(), PumpkinError>)
    ensures
        len > 0 <==> r is Ok,
        r matches Err(e) ==> (e matches PumpkinError::StartFailed(m) && m@
            == "downloaded executable was empty"@),
{
    if len == 0 {
        return Err(PumpkinError::StartFailed(owned("downloaded executable was empty")));
    }
    Ok(())
}

/// The tag by which the published file names tell processor architectures
/// apart.
pub open spec fn arch_tag(arch: Seq<char>) -> Option<Seq<char>> {
    if arch == "x86_64"@ {
        Some("X64"@)
    } else if arch == "aarch64"@ {
        Some("ARM64"@)
    } else {
        None
    }
}

/// The end by which the published file names tell operating systems apart.
pub open spec fn os_tag(os: Seq<char>) -> Option<Seq<char>> {
    if os == "windows"@ {
        Some("Windows.exe"@)
    } else if os == "macos"@ {
        Some("macOS"@)
    } else if os == "linux"@ {
        Some("Linux"@)
    } else {
        None
    }
}

/// A build is published for exactly the supported operating systems and
/// architectures, under the name `pumpkin-<arch tag>-<os tag>`, and its
/// address is that name below the nightly release address.
pub proof fn law_release_url_shape(os: Seq<char>, arch: Seq<char>, name: Seq<char>)
    ensures
        release_url(os, arch, name) is Some <==> (os_tag(os) is Some && arch_tag(arch) is Some
            && name == "pumpkin-"@ + arch_tag(arch)->0 + "-"@ + os_tag(os)->0),
        release_url(os, arch, name) matches Some(u) ==> u == NIGHTLY_BASE_URL@ + "/"@ + name,
{
    reveal_strlit("windows");
    reveal_strlit("macos");
    reveal_strlit("linux");
    reveal_strlit("x86_64");
    reveal_strlit("aarch64");
    reveal_strlit("X64");
    reveal_strlit("ARM64");
    reveal_strlit("Windows.exe");
    reveal_strlit("macOS");
    reveal_strlit("Linux");
    reveal_strlit("pumpkin-");
    reveal_strlit("-");
    reveal_strlit("/");
    reveal_strlit("https://github.com/Pumpkin-MC/Pumpkin/releases/download/nightly");
    reveal_strlit("pumpkin-X64-Windows.exe");
    reveal_strlit("pumpkin-ARM64-Windows.exe");
    reveal_strlit("pumpkin-X64-macOS");
    reveal_strlit("pumpkin-ARM64-macOS");
    reveal_strlit("pumpkin-X64-Linux");
    reveal_strlit("pumpkin-ARM64-Linux");
    reveal_strlit("https://github.com/Pumpkin-MC/Pumpkin/releases/download/nightly/pumpkin-X64-Windows.exe");
    reveal_strlit("https://github.com/Pumpkin-MC/Pumpkin/releases/download/nightly/pumpkin-ARM64-Windows.exe");
    reveal_strlit("https://github.com/Pumpkin-MC/Pumpkin/releases/download/nightly/pumpkin-X64-macOS");
    reveal_strlit("https://github.com/Pumpkin-MC/Pumpkin/releases/download/nightly/pumpkin-ARM64-macOS");
    reveal_strlit("https://github.com/Pumpkin-MC/Pumpkin/releases/download/nightly/pumpkin-X64-Linux");
    reveal_strlit("https://github.com/Pumpkin-MC/Pumpkin/releases/download/nightly/pumpkin-ARM64-Linux");
    assert("pumpkin-X64-Windows.exe"@ =~= "pumpkin-"@ + "X64"@ + "-"@ + "Windows.exe"@);
    assert("pumpkin-ARM64-Windows.exe"@ =~= "pumpkin-"@ + "ARM64"@ + "-"@ + "Windows.exe"@);
    assert("pumpkin-X64-macOS"@ =~= "pumpkin-"@ + "X64"@ + "-"@ + "macOS"@);
    assert("pumpkin-ARM64-macOS"@ =~= "pumpkin-"@ + "ARM64"@ + "-"@ + "macOS"@);
    assert("pumpkin-X64-Linux"@ =~= "pumpkin-"@ + "X64"@ + "-"@ + "Linux"@);
    assert("pumpkin-ARM64-Linux"@ =~= "pumpkin-"@ + "ARM64"@ + "-"@ + "Linux"@);
    assert("aarch64"@[0] != "x86_64"@[0]);
    assert("windows"@[0] != "macos"@[0]);
    assert("windows"@[0] != "linux"@[0]);
    assert("macos"@[0] != "linux"@[0]);
    let base = NIGHTLY_BASE_URL@ + "/"@;
    assert("https://github.com/Pumpkin-MC/Pumpkin/releases/download/nightly/pumpkin-X64-Windows.exe"@
        =~= base + "pumpkin-X64-Windows.exe"@);
    assert("https://github.com/Pumpkin-MC/Pumpkin/releases/download/nightly/pumpkin-ARM64-Windows.exe"@
        =~= base + "pumpkin-ARM64-Windows.exe"@);
    assert("https://github.com/Pumpkin-MC/Pumpkin/releases/download/nightly/pumpkin-X64-macOS"@
        =~= base + "pumpkin-X64-macOS"@);
    assert("https://github.com/Pumpkin-MC/Pumpkin/releases/download/nightly/pumpkin-ARM64-macOS"@
        =~= base + "pumpkin-ARM64-macOS"@);
    assert("https://github.com/Pumpkin-MC/Pumpkin/releases/download/nightly/pumpkin-X64-Linux"@
        =~= base + "pumpkin-X64-Linux"@);
    assert("https://github.com/Pumpkin-MC/Pumpkin/releases/download/nightly/pumpkin-ARM64-Linux"@
        =~= base + "pumpkin-ARM64-Linux"@);
}

/// The name under which Rust's `std::env::consts::OS` gives each platform.
pub open spec fn os_name(platform: Platform) -> Option<Seq<char>> {
    match platform {
        Platform::Windows => Some("windows"@),
        Platform::MacOs => Some("macos"@),
        Platform::Linux => Some("linux"@),
        Platform::Other => None,
    }
}

/// On each supported platform the executable of the default configuration
/// is a build published for x86_64, so it can be fetched when missing.
pub proof fn law_default_executable_published(platform: Platform)
    ensures
        os_name(platform) matches Some(os) ==> release_url(
            os,
            "x86_64"@,
            default_executable_name(platform),
        ) is Some,
{
    law_release_url_shape(
        match os_name(platform) {
            Some(os) => os,
            None => "linux"@,
        },
        "x86_64"@,
        default_executable_name(platform),
    );
    reveal_strlit("windows");
    reveal_strlit("macos");
    reveal_strlit("linux");
    reveal_strlit("x86_64");
    reveal_strlit("aarch64");
    reveal_strlit("X64");
    reveal_strlit("Windows.exe");
    reveal_strlit("macOS");
    reveal_strlit("Linux");
    reveal_strlit("pumpkin-");
    reveal_strlit("-");
    reveal_strlit("pumpkin-X64-Windows.exe");
    reveal_strlit("pumpkin-X64-macOS");
    reveal_strlit("pumpkin-X64-Linux");
    assert("windows"@[0] != "macos"@[0]);
    assert("windows"@[0] != "linux"@[0]);
    assert("macos"@[0] != "linux"@[0]);
    assert("pumpkin-X64-Windows.exe"@ =~= "pumpkin-"@ + "X64"@ + "-"@ + "Windows.exe"@);
    assert("pumpkin-X64-macOS"@ =~= "pumpkin-"@ + "X64"@ + "-"@ + "macOS"@);
    assert("pumpkin-X64-Linux"@ =~= "pumpkin-"@ + "X64"@ + "-"@ + "Linux"@);
}

} // verus!
