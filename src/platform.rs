use vstd::prelude::*;

verus! {

/// Operating systems for which release archives are published.
#[derive(Clone, Copy, Debug, PartialEq, Eq, Structural)]
pub enum Os {
    Mac,
    Linux,
    Windows,
}

/// CPU architectures that the host can report.
#[derive(Clone, Copy, Debug, PartialEq, Eq, Structural)]
pub enum Architecture {
    Aarch64,
    X8664,
    X86,
}

/// How a downloaded release archive is packed.
#[derive(Clone, Copy, Debug, PartialEq, Eq, Structural)]
pub enum ArchiveFormat {
    GzipTar,
    Zip,
}

/// The operating-system part of an asset name.
pub open spec fn os_label(os: Os) -> Seq<char> {
    match os {
        Os::Mac => "darwin"@,
        Os::Linux => "linux"@,
        Os::Windows => "win32"@,
    }
}

/// The architecture part of an asset name; 32-bit x86 has none.
pub open spec fn arch_label(os: Os, arch: Architecture) -> Option<Seq<char>> {
    match arch {
        Architecture::Aarch64 => if os == Os::Linux {
            Some("aarch64"@)
        } else {
            Some("arm64"@)
        },
        Architecture::X8664 => Some("x64"@),
        Architecture::X86 => None,
    }
}

/// Linux builds name the oldest glibc they run on.
pub open spec fn glibc_label(os: Os) -> Seq<char> {
    if os == Os::Linux {
        "-glibc.2.17"@
    } else {
        ""@
    }
}

pub open spec fn archive_extension(os: Os) -> Seq<char> {
    if os == Os::Windows {
        "zip"@
    } else {
        "tar.gz"@
    }
}

/// `emmylua_ls-{os}-{arch}{glibc}.{extension}`, or nothing on 32-bit x86.
pub open spec fn spec_asset_file_name(os: Os, arch: Architecture) -> Option<Seq<char>> {
    match arch_label(os, arch) {
        Some(a) => Some(
            "emmylua_ls-"@ + os_label(os) + "-"@ + a + glibc_label(os) + "."@ + archive_extension(os),
        ),
        None => None,
    }
}

pub open spec fn spec_archive_format(os: Os) -> ArchiveFormat {
    if os == Os::Windows {
        ArchiveFormat::Zip
    } else {
        ArchiveFormat::GzipTar
    }
}

/// The directory that holds the server of one release.
pub open spec fn spec_version_dir(version: Seq<char>) -> Seq<char> {
    "emmylua-"@ + version
}

/// Where the server executable lies once a release is unpacked.
pub open spec fn spec_binary_path(os: Os, version: Seq<char>) -> Seq<char> {
    if os == Os::Windows {
        spec_version_dir(version) + "/emmylua_ls"@ + ".exe"@
    } else {
        spec_version_dir(version) + "/emmylua_ls"@
    }
}

/// The name of the release asset built for `os` and `arch`.
pub fn asset_file_name(os: Os, arch: Architecture) -> (r: Option<String>)
    ensures
        r.is_some() == spec_asset_file_name(os, arch).is_some(),
        r.is_some() ==> r->0@ == spec_asset_file_name(os, arch)->0,
        r.is_none() <==> arch == Architecture::X86,
{
    let arch_part: &str = match arch {
        Architecture::Aarch64 => match os {
            Os::Linux => "aarch64",
            Os::Mac | Os::Windows => "arm64",
        },
        Architecture::X8664 => "x64",
        Architecture::X86 => {
            return None;
        },
    };
    let os_part: &str = match os {
        Os::Mac => "darwin",
        Os::Linux => "linux",
        Os::Windows => "win32",
    };
    let glibc_part: &str = match os {
        Os::Linux => "-glibc.2.17",
        Os::Mac | Os::Windows => "",
    };
    let extension: &str = match os {
        Os::Mac | Os::Linux => "tar.gz",
        Os::Windows => "zip",
    };
    let mut name = String::from_str("emmylua_ls-");
    name.append(os_part);
    name.append("-");
    name.append(arch_part);
    name.append(glibc_part);
    name.append(".");
    name.append(extension);
    Some(name)
}

/// The archive format of the assets published for `os`.
pub fn archive_format(os: Os) -> (r: ArchiveFormat)
    ensures
        r == spec_archive_format(os),
{
    match os {
        Os::Mac | Os::Linux => ArchiveFormat::GzipTar,
        Os::Windows => ArchiveFormat::Zip,
    }
}

/// The directory name for the release `version`.
pub fn version_dir(version: &str) -> (r: String)
    ensures
        r@ == spec_version_dir(version@),
{
    let mut dir = String::from_str("emmylua-");
    dir.append(version);
    dir
}

/// The path of the server executable inside the directory of `version`.
pub fn binary_path(os: Os, version: &str) -> (r: String)
    ensures
        r@ == spec_binary_path(os, version@),
{
    let mut path = version_dir(version);
    path.append("/emmylua_ls");
    match os {
        Os::Mac | Os::Linux => {},
        Os::Windows => path.append(".exe"),
    }
    path
}

} // verus!
