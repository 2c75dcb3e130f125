//! The platforms for which an agent build exists, and the names that
//! are derived from a platform: the installed file, the archive, the
//! download address and the paths inside the archive.

use crate::text::{joined, same_text};
use vstd::prelude::*;

verus! {

/// An operating system family with an agent build.
#[derive(Clone, Copy, Debug, PartialEq, Eq, Structural)]
pub enum Os {
    Windows,
    Linux,
    Darwin,
}

/// A processor architecture with an agent build.
#[derive(Clone, Copy, Debug, PartialEq, Eq, Structural)]
pub enum Arch {
    X86,
    Amd64,
    Arm,
    Arm64,
}

/// A supported pair of operating system and architecture.
#[derive(Clone, Copy, Debug, PartialEq, Eq, Structural)]
pub struct Platform {
    pub os: Os,
    pub arch: Arch,
}

/// Why a machine has no agent build. The operating system is looked at
/// first.
#[derive(Clone, Copy, Debug, PartialEq, Eq, Structural)]
pub enum Unsupported {
    Os,
    Arch,
}

/// The operating system that the running machine reports under `name`.
pub open spec fn os_named(name: Seq<char>) -> Option<Os> {
    if name == "windows"@ {
        Some(Os::Windows)
    } else if name == "linux"@ {
        Some(Os::Linux)
    } else if name == "macos"@ {
        Some(Os::Darwin)
    } else {
        None
    }
}

/// The architecture that the running machine reports under `name`.
pub open spec fn arch_named(name: Seq<char>) -> Option<Arch> {
    if name == "x86"@ {
        Some(Arch::X86)
    } else if name == "x86_64"@ {
        Some(Arch::Amd64)
    } else if name == "arm"@ {
        Some(Arch::Arm)
    } else if name == "aarch64"@ {
        Some(Arch::Arm64)
    } else {
        None
    }
}

/// The platform of a machine that reports `os` and `arch`, or the reason
/// why it has none.
pub open spec fn resolved(os: Seq<char>, arch: Seq<char>) -> Result<Platform, Unsupported> {
    match os_named(os) {
        None => Err(Unsupported::Os),
        Some(o) => match arch_named(arch) {
            None => Err(Unsupported::Arch),
            Some(a) => Ok(Platform { os: o, arch: a }),
        },
    }
}

/// The operating system as the artifact names write it.
pub open spec fn os_label(os: Os) -> Seq<char> {
    match os {
        Os::Windows => "windows"@,
        Os::Linux => "linux"@,
        Os::Darwin => "darwin"@,
    }
}

/// The architecture as the artifact names write it.
pub open spec fn arch_label(arch: Arch) -> Seq<char> {
    match arch {
        Arch::X86 => "386"@,
        Arch::Amd64 => "amd64"@,
        Arch::Arm => "arm"@,
        Arch::Arm64 => "arm64"@,
    }
}

/// `frpc_{os}_{arch}`: what every name of a platform's artifact starts
/// with.
pub open spec fn artifact_stem(p: Platform) -> Seq<char> {
    "frpc_"@ + os_label(p.os) + "_"@ + arch_label(p.arch)
}

/// The name under which the agent is installed: the stem, with `.exe` on
/// the Windows family.
pub open spec fn installed_name(p: Platform) -> Seq<char> {
    match p.os {
        Os::Windows => artifact_stem(p) + ".exe"@,
        _ => artifact_stem(p),
    }
}

/// The extension of the archive that holds the agent: `zip` on the
/// Windows family, `tar.gz` elsewhere.
pub open spec fn archive_extension(os: Os) -> Seq<char> {
    match os {
        Os::Windows => "zip"@,
        _ => "tar.gz"@,
    }
}

/// Where the archive is fetched from: the source's base address, the
/// version, the stem, a dot and the archive extension, with nothing in
/// between.
pub open spec fn download_address(base: Seq<char>, version: Seq<char>, p: Platform) -> Seq<char> {
    base + version + artifact_stem(p) + "."@ + archive_extension(p.os)
}

/// The directory that the archive unpacks into.
pub open spec fn unpacked_dir(p: Platform) -> Seq<char> {
    artifact_stem(p) + "64"@
}

/// The agent inside the unpacked directory.
pub open spec fn unpacked_executable(p: Platform) -> Seq<char> {
    match p.os {
        Os::Windows => unpacked_dir(p) + "/frpc.exe"@,
        _ => unpacked_dir(p) + "/frpc"@,
    }
}

/// `{os}-{arch}`, as the machine reports the two.
pub open spec fn system_label(os: Seq<char>, arch: Seq<char>) -> Seq<char> {
    os + "-"@ + arch
}

impl Os {
    /// The operating system that the running machine reports under `name`.
    pub fn named(name: &str) -> (r: Option<Os>)
        ensures
            r == os_named(name@),
    {
        if same_text(name, "windows") {
            Some(Os::Windows)
        } else if same_text(name, "linux") {
            Some(Os::Linux)
        } else if same_text(name, "macos") {
            Some(Os::Darwin)
        } else {
            None
        }
    }

    /// The operating system as the artifact names write it.
    pub fn label(self) -> (r: &'static str)
        ensures
            r@ == os_label(self),
    {
        match self {
            Os::Windows => "windows",
            Os::Linux => "linux",
            Os::Darwin => "darwin",
        }
    }

    /// The extension of the archive that holds the agent.
    pub fn archive_extension(self) -> (r: &'static str)
        ensures
            r@ == archive_extension(self),
    {
        match self {
            Os::Windows => "zip",
            _ => "tar.gz",
        }
    }

    /// Whether installed files carry permission bits that have to be set.
    pub fn has_permission_bits(self) -> (r: bool)
        ensures
            r == (self != Os::Windows),
    {
        match self {
            Os::Windows => false,
            _ => true,
        }
    }
}

impl Arch {
    /// The architecture that the running machine reports under `name`.
    pub fn named(name: &str) -> (r: Option<Arch>)
        ensures
            r == arch_named(name@),
    {
        if same_text(name, "x86") {
            Some(Arch::X86)
        } else if same_text(name, "x86_64") {
            Some(Arch::Amd64)
        } else if same_text(name, "arm") {
            Some(Arch::Arm)
        } else if same_text(name, "aarch64") {
            Some(Arch::Arm64)
        } else {
            None
        }
    }

    /// The architecture as the artifact names write it.
    pub fn label(self) -> (r: &'static str)
        ensures
            r@ == arch_label(self),
    {
        match self {
            Arch::X86 => "386",
            Arch::Amd64 => "amd64",
            Arch::Arm => "arm",
            Arch::Arm64 => "arm64",
        }
    }
}

impl Platform {
    /// The platform of a machine that reports `os` and `arch`. Fails on an
    /// operating system without a build, and then on an architecture
    /// without one.
    pub fn resolve(os: &str, arch: &str) -> (r: Result<Platform, Unsupported>)
        ensures
            r == resolved(os@, arch@),
    {
        match Os::named(os) {
            None => Err(Unsupported::Os),
            Some(o) => match Arch::named(arch) {
                None => Err(Unsupported::Arch),
                Some(a) => Ok(Platform { os: o, arch: a }),
            },
        }
    }

    /// `frpc_{os}_{arch}`.
    pub fn stem(&self) -> (r: String)
        ensures
            r@ == artifact_stem(*self),
    {
        let a = joined("frpc_", self.os.label());
        let b = a.concat("_");
        b.concat(self.arch.label())
    }

    /// The name under which the agent is installed.
    pub fn target_filename(&self) -> (r: String)
        ensures
            r@ == installed_name(*self),
    {
        let stem = self.stem();
        match self.os {
            Os::Windows => stem.concat(".exe"),
            _ => stem,
        }
    }

    /// The address of the archive that holds `version`, under the source
    /// at `base`.
    pub fn download_url(&self, base: &str, version: &str) -> (r: String)
        ensures
            r@ == download_address(base@, version@, *self),
    {
        let a = joined(base, version);
        let stem = self.stem();
        let b = a.concat(stem.as_str());
        let c = b.concat(".");
        c.concat(self.os.archive_extension())
    }

    /// The directory that the archive unpacks into.
    pub fn extraction_dir(&self) -> (r: String)
        ensures
            r@ == unpacked_dir(*self),
    {
        self.stem().concat("64")
    }

    /// The agent inside the unpacked directory.
    pub fn extracted_executable(&self) -> (r: String)
        ensures
            r@ == unpacked_executable(*self),
    {
        let dir = self.extraction_dir();
        match self.os {
            Os::Windows => dir.concat("/frpc.exe"),
            _ => dir.concat("/frpc"),
        }
    }
}

/// `{os}-{arch}`, from the names that the machine reports.
pub fn system_info(os: &str, arch: &str) -> (r: String)
    ensures
        r@ == system_label(os@, arch@),
{
    joined(os, "-").concat(arch)
}

/// A machine has a platform exactly when its operating system is one of
/// `windows`, `linux`, `macos` and its architecture one of `x86`,
/// `x86_64`, `arm`, `aarch64`.
pub proof fn supported_set(os: Seq<char>, arch: Seq<char>)
    ensures
        resolved(os, arch) is Ok <==> (os == "windows"@ || os == "linux"@ || os == "macos"@) && (arch
            == "x86"@ || arch == "x86_64"@ || arch == "arm"@ || arch == "aarch64"@),
{
}

/// The installed name of every platform, written out: `frpc_{os}_{arch}`
/// with the operating system as one of `windows`, `linux`, `darwin` and
/// the architecture as one of `386`, `amd64`, `arm`, `arm64`, and with
/// `.exe` behind it on the Windows family only.
pub proof fn installed_names(p: Platform)
    ensures
        installed_name(p) == match p.os {
            Os::Windows => match p.arch {
                Arch::X86 => "frpc_windows_386.exe"@,
                Arch::Amd64 => "frpc_windows_amd64.exe"@,
                Arch::Arm => "frpc_windows_arm.exe"@,
                Arch::Arm64 => "frpc_windows_arm64.exe"@,
            },
            Os::Linux => match p.arch {
                Arch::X86 => "frpc_linux_386"@,
                Arch::Amd64 => "frpc_linux_amd64"@,
                Arch::Arm => "frpc_linux_arm"@,
                Arch::Arm64 => "frpc_linux_arm64"@,
            },
            Os::Darwin => match p.arch {
                Arch::X86 => "frpc_darwin_386"@,
                Arch::Amd64 => "frpc_darwin_amd64"@,
                Arch::Arm => "frpc_darwin_arm"@,
                Arch::Arm64 => "frpc_darwin_arm64"@,
            },
        },
{
    reveal_strlit("frpc_");
    reveal_strlit("_");
    reveal_strlit(".exe");
    reveal_strlit("windows");
    reveal_strlit("linux");
    reveal_strlit("darwin");
    reveal_strlit("386");
    reveal_strlit("amd64");
    reveal_strlit("arm");
    reveal_strlit("arm64");
    match p.os {
        Os::Windows => {
            reveal_strlit("frpc_windows_386.exe");
            reveal_strlit("frpc_windows_amd64.exe");
            reveal_strlit("frpc_windows_arm.exe");
            reveal_strlit("frpc_windows_arm64.exe");
            assert(installed_name(Platform { os: Os::Windows, arch: Arch::X86 })
                =~= "frpc_windows_386.exe"@);
            assert(installed_name(Platform { os: Os::Windows, arch: Arch::Amd64 })
                =~= "frpc_windows_amd64.exe"@);
            assert(installed_name(Platform { os: Os::Windows, arch: Arch::Arm })
                =~= "frpc_windows_arm.exe"@);
            assert(installed_name(Platform { os: Os::Windows, arch: Arch::Arm64 })
                =~= "frpc_windows_arm64.exe"@);
        },
        Os::Linux => {
            reveal_strlit("frpc_linux_386");
            reveal_strlit("frpc_linux_amd64");
            reveal_strlit("frpc_linux_arm");
            reveal_strlit("frpc_linux_arm64");
            assert(installed_name(Platform { os: Os::Linux, arch: Arch::X86 }) =~= "frpc_linux_386"@);
            assert(installed_name(Platform { os: Os::Linux, arch: Arch::Amd64 })
                =~= "frpc_linux_amd64"@);
            assert(installed_name(Platform { os: Os::Linux, arch: Arch::Arm }) =~= "frpc_linux_arm"@);
            assert(installed_name(Platform { os: Os::Linux, arch: Arch::Arm64 })
                =~= "frpc_linux_arm64"@);
        },
        Os::Darwin => {
            reveal_strlit("frpc_darwin_386");
            reveal_strlit("frpc_darwin_amd64");
            reveal_strlit("frpc_darwin_arm");
            reveal_strlit("frpc_darwin_arm64");
            assert(installed_name(Platform { os: Os::Darwin, arch: Arch::X86 })
                =~= "frpc_darwin_386"@);
            assert(installed_name(Platform { os: Os::Darwin, arch: Arch::Amd64 })
                =~= "frpc_darwin_amd64"@);
            assert(installed_name(Platform { os: Os::Darwin, arch: Arch::Arm })
                =~= "frpc_darwin_arm"@);
            assert(installed_name(Platform { os: Os::Darwin, arch: Arch::Arm64 })
                =~= "frpc_darwin_arm64"@);
        },
    }
}

} // verus!
