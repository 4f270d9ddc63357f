//! Runtime adapters: each ecosystem's own (os, arch) vocabulary and the
//! resolved download descriptor for one version on one platform. An
//! unmapped platform pair is a resolution failure, never a silently chosen
//! default. The raw `os` and `arch` inputs use the platform names of the
//! compiler's target constants ("linux", "macos", "windows"; "x86_64",
//! "aarch64", "x86"), handed in by the surrounding application.

use vstd::prelude::*;
use vstd::string::StringExecFns;
use crate::Runtime;
use crate::errors::{ErrorKind, MlvmError};
use crate::extract::{ext_of, ArchiveKind};
use crate::strutil::str_eq;

verus! {

/// The resolved, concrete download contract for one version on one
/// platform: where to fetch, how to unpack, and which top-level folder the
/// unpacked payload carries.
#[derive(Debug, Clone)]
pub struct ArchiveDescriptor {
    pub url: String,
    pub kind: ArchiveKind,
    pub top_folder: String,
}

/// Node's name for a supported operating system.
pub open spec fn node_os_name(os: Seq<char>) -> Option<Seq<char>> {
    if os == "windows"@ {
        Some("win"@)
    } else if os == "macos"@ {
        Some("darwin"@)
    } else if os == "linux"@ {
        Some("linux"@)
    } else {
        None
    }
}

/// Node's name for a supported architecture.
pub open spec fn node_arch_name(arch: Seq<char>) -> Option<Seq<char>> {
    if arch == "x86_64"@ {
        Some("x64"@)
    } else if arch == "aarch64"@ {
        Some("arm64"@)
    } else {
        None
    }
}

/// Node ships zip archives for Windows and tar+gzip elsewhere.
pub open spec fn node_kind(os: Seq<char>) -> ArchiveKind {
    if os == "windows"@ {
        ArchiveKind::Zip
    } else {
        ArchiveKind::TarGz
    }
}

/// The top-level folder inside a Node archive.
pub open spec fn node_top_folder(v: Seq<char>, osn: Seq<char>, an: Seq<char>) -> Seq<char> {
    "node-"@ + v + "-"@ + osn + "-"@ + an
}

/// The download URL of a Node archive.
pub open spec fn node_url(v: Seq<char>, osn: Seq<char>, an: Seq<char>, k: ArchiveKind) -> Seq<
    char,
> {
    "https://nodejs.org/dist/"@ + v + "/"@ + node_top_folder(v, osn, an) + "."@ + ext_of(k)
}

fn node_os(os: &str) -> (r: Option<&'static str>)
    ensures
        r is Some <==> node_os_name(os@) is Some,
        r matches Some(x) ==> Some(x@) == node_os_name(os@),
{
    if str_eq(os, "windows") {
        Some("win")
    } else if str_eq(os, "macos") {
        Some("darwin")
    } else if str_eq(os, "linux") {
        Some("linux")
    } else {
        None
    }
}

fn node_arch(arch: &str) -> (r: Option<&'static str>)
    ensures
        r is Some <==> node_arch_name(arch@) is Some,
        r matches Some(x) ==> Some(x@) == node_arch_name(arch@),
{
    if str_eq(arch, "x86_64") {
        Some("x64")
    } else if str_eq(arch, "aarch64") {
        Some("arm64")
    } else {
        None
    }
}

/// Build the platform-pair text used in resolution-failure reports.
fn platform_detail(os: &str, arch: &str) -> (r: String)
    ensures
        r@ == "unsupported platform: "@ + os@ + " "@ + arch@,
{
    let r = String::from_str("unsupported platform: ").concat(os).concat(" ").concat(arch);
    proof {
        assert(r@ =~= "unsupported platform: "@ + os@ + " "@ + arch@);
    }
    r
}

/// Resolve a normalized Node version to its download descriptor.
/// Fails exactly on an unmapped (os, arch) pair.
pub fn resolve_node(version: &str, os: &str, arch: &str) -> (r: Result<
    ArchiveDescriptor,
    MlvmError,
>)
    ensures
        r is Ok <==> (node_os_name(os@) is Some && node_arch_name(arch@) is Some),
        r matches Ok(d) ==> ({
            &&& d.kind == node_kind(os@)
            &&& d.top_folder@ == node_top_folder(
                version@,
                node_os_name(os@)->Some_0,
                node_arch_name(arch@)->Some_0,
            )
            &&& d.url@ == node_url(
                version@,
                node_os_name(os@)->Some_0,
                node_arch_name(arch@)->Some_0,
                node_kind(os@),
            )
        }),
        r matches Err(e) ==> e.kind == ErrorKind::Resolution && e.runtime == Runtime::Node
            && e.version@ == version@ && e.detail@ == "unsupported platform: "@ + os@ + " "@
            + arch@,
{
    let osn = match node_os(os) {
        Some(x) => x,
        None => {
            return Err(
                MlvmError::new(
                    ErrorKind::Resolution,
                    Runtime::Node,
                    String::from_str(version),
                    platform_detail(os, arch),
                ),
            );
        },
    };
    let an = match node_arch(arch) {
        Some(x) => x,
        None => {
            return Err(
                MlvmError::new(
                    ErrorKind::Resolution,
                    Runtime::Node,
                    String::from_str(version),
                    platform_detail(os, arch),
                ),
            );
        },
    };
    let kind = if str_eq(os, "windows") {
        ArchiveKind::Zip
    } else {
        ArchiveKind::TarGz
    };
    let top = String::from_str("node-").concat(version).concat("-").concat(osn).concat(
        "-",
    ).concat(an);
    let url = String::from_str("https://nodejs.org/dist/").concat(version).concat("/").concat(
        top.as_str(),
    ).concat(".").concat(kind.ext_str());
    proof {
        assert(top@ =~= node_top_folder(version@, node_os_name(os@)->Some_0, node_arch_name(arch@)->Some_0));
        assert(url@ =~= node_url(
            version@,
            node_os_name(os@)->Some_0,
            node_arch_name(arch@)->Some_0,
            node_kind(os@),
        ));
    }
    Ok(ArchiveDescriptor { url, kind, top_folder: top })
}

/// Go's platform table: its own (os, arch) names and the archive kind it
/// ships for that pair.
pub open spec fn go_platform(os: Seq<char>, arch: Seq<char>) -> Option<
    (Seq<char>, Seq<char>, ArchiveKind),
> {
    if os == "windows"@ && arch == "x86_64"@ {
        Some(("windows"@, "amd64"@, ArchiveKind::Zip))
    } else if os == "windows"@ && arch == "x86"@ {
        Some(("windows"@, "386"@, ArchiveKind::Zip))
    } else if os == "linux"@ && arch == "x86_64"@ {
        Some(("linux"@, "amd64"@, ArchiveKind::TarGz))
    } else if os == "linux"@ && arch == "aarch64"@ {
        Some(("linux"@, "arm64"@, ArchiveKind::TarGz))
    } else if os == "macos"@ && arch == "x86_64"@ {
        Some(("darwin"@, "amd64"@, ArchiveKind::TarGz))
    } else if os == "macos"@ && arch == "aarch64"@ {
        Some(("darwin"@, "arm64"@, ArchiveKind::TarGz))
    } else {
        None
    }
}

/// The download URL of a Go archive; `v` is the normalized version, with
/// no `go` marker.
pub open spec fn go_url(v: Seq<char>, osn: Seq<char>, an: Seq<char>, k: ArchiveKind) -> Seq<
    char,
> {
    "https://go.dev/dl/go"@ + v + "."@ + osn + "-"@ + an + "."@ + ext_of(k)
}

/// Resolve a normalized Go version to its download descriptor. Go archives
/// extract into a `go` folder. Fails exactly on an unmapped (os, arch)
/// pair.
pub fn resolve_go(version: &str, os: &str, arch: &str) -> (r: Result<
    ArchiveDescriptor,
    MlvmError,
>)
    ensures
        r is Ok <==> go_platform(os@, arch@) is Some,
        r matches Ok(d) ==> ({
            let (osn, an, k) = go_platform(os@, arch@)->Some_0;
            &&& d.kind == k
            &&& d.top_folder@ == "go"@
            &&& d.url@ == go_url(version@, osn, an, k)
        }),
        r matches Err(e) ==> e.kind == ErrorKind::Resolution && e.runtime == Runtime::Go
            && e.version@ == version@ && e.detail@ == "unsupported platform: "@ + os@ + " "@
            + arch@,
{
    let win = str_eq(os, "windows");
    let lin = str_eq(os, "linux");
    let mac = str_eq(os, "macos");
    let x64 = str_eq(arch, "x86_64");
    let x86 = str_eq(arch, "x86");
    let a64 = str_eq(arch, "aarch64");
    let triple: Option<(&'static str, &'static str, ArchiveKind)> = if win && x64 {
        Some(("windows", "amd64", ArchiveKind::Zip))
    } else if win && x86 {
        Some(("windows", "386", ArchiveKind::Zip))
    } else if lin && x64 {
        Some(("linux", "amd64", ArchiveKind::TarGz))
    } else if lin && a64 {
        Some(("linux", "arm64", ArchiveKind::TarGz))
    } else if mac && x64 {
        Some(("darwin", "amd64", ArchiveKind::TarGz))
    } else if mac && a64 {
        Some(("darwin", "arm64", ArchiveKind::TarGz))
    } else {
        None
    };
    match triple {
        None => Err(
            MlvmError::new(
                ErrorKind::Resolution,
                Runtime::Go,
                String::from_str(version),
                platform_detail(os, arch),
            ),
        ),
        Some((osn, an, kind)) => {
            let url = String::from_str("https://go.dev/dl/go").concat(version).concat(
                ".",
            ).concat(osn).concat("-").concat(an).concat(".").concat(kind.ext_str());
            proof {
                let (sosn, san, sk) = go_platform(os@, arch@)->Some_0;
                assert(url@ =~= go_url(version@, sosn, san, sk));
            }
            Ok(ArchiveDescriptor { url, kind, top_folder: String::from_str("go") })
        },
    }
}

/// Bun's platform table: the asset name for a supported (os, arch) pair,
/// which is also the top-level folder inside the zip.
pub open spec fn bun_target(os: Seq<char>, arch: Seq<char>) -> Option<Seq<char>> {
    if os == "windows"@ && arch == "x86_64"@ {
        Some("bun-windows-x64"@)
    } else if os == "linux"@ && arch == "x86_64"@ {
        Some("bun-linux-x64"@)
    } else if os == "linux"@ && arch == "aarch64"@ {
        Some("bun-linux-aarch64"@)
    } else if os == "macos"@ && arch == "x86_64"@ {
        Some("bun-darwin-x64"@)
    } else if os == "macos"@ && arch == "aarch64"@ {
        Some("bun-darwin-aarch64"@)
    } else {
        None
    }
}

/// The download URL of a Bun release asset; `v` is the normalized version,
/// with its leading `v`.
pub open spec fn bun_url(v: Seq<char>, target: Seq<char>) -> Seq<char> {
    "https://github.com/oven-sh/bun/releases/download/"@ + v + "/"@ + target + ".zip"@
}

/// Resolve a normalized Bun version to its download descriptor. Bun ships
/// zip archives whose top-level folder is named like the asset. Fails
/// exactly on an unmapped (os, arch) pair.
pub fn resolve_bun(version: &str, os: &str, arch: &str) -> (r: Result<
    ArchiveDescriptor,
    MlvmError,
>)
    ensures
        r is Ok <==> bun_target(os@, arch@) is Some,
        r matches Ok(d) ==> ({
            &&& d.kind == ArchiveKind::Zip
            &&& d.top_folder@ == bun_target(os@, arch@)->Some_0
            &&& d.url@ == bun_url(version@, bun_target(os@, arch@)->Some_0)
        }),
        r matches Err(e) ==> e.kind == ErrorKind::Resolution && e.runtime == Runtime::Bun
            && e.version@ == version@ && e.detail@ == "unsupported platform: "@ + os@ + " "@
            + arch@,
{
    let win = str_eq(os, "windows");
    let lin = str_eq(os, "linux");
    let mac = str_eq(os, "macos");
    let x64 = str_eq(arch, "x86_64");
    let a64 = str_eq(arch, "aarch64");
    let target: Option<&'static str> = if win && x64 {
        Some("bun-windows-x64")
    } else if lin && x64 {
        Some("bun-linux-x64")
    } else if lin && a64 {
        Some("bun-linux-aarch64")
    } else if mac && x64 {
        Some("bun-darwin-x64")
    } else if mac && a64 {
        Some("bun-darwin-aarch64")
    } else {
        None
    };
    match target {
        None => Err(
            MlvmError::new(
                ErrorKind::Resolution,
                Runtime::Bun,
                String::from_str(version),
                platform_detail(os, arch),
            ),
        ),
        Some(t) => {
            let url = String::from_str("https://github.com/oven-sh/bun/releases/download/")
                .concat(version).concat("/").concat(t).concat(".zip");
            proof {
                assert(url@ =~= bun_url(version@, bun_target(os@, arch@)->Some_0));
            }
            Ok(ArchiveDescriptor { url, kind: ArchiveKind::Zip, top_folder: String::from_str(t) })
        },
    }
}

/// Python's name for a supported architecture, as used by the standalone
/// build distribution.
pub open spec fn python_arch_name(arch: Seq<char>) -> Option<Seq<char>> {
    if arch == "x86_64"@ {
        Some("x86_64"@)
    } else if arch == "aarch64"@ {
        Some("aarch64"@)
    } else {
        None
    }
}

/// Python's name for a supported operating system.
pub open spec fn python_os_name(os: Seq<char>) -> Option<Seq<char>> {
    if os == "linux"@ {
        Some("unknown-linux-gnu"@)
    } else if os == "macos"@ {
        Some("apple-darwin"@)
    } else if os == "windows"@ {
        Some("pc-windows-msvc"@)
    } else {
        None
    }
}

/// The platform identifier inside a Python build's asset name.
pub open spec fn python_platform_of(os: Seq<char>, arch: Seq<char>) -> Option<Seq<char>> {
    if python_arch_name(arch) is Some && python_os_name(os) is Some {
        Some(python_arch_name(arch)->Some_0 + "-"@ + python_os_name(os)->Some_0)
    } else {
        None
    }
}

/// The platform identifier a Python build's asset name must carry, e.g.
/// `x86_64-unknown-linux-gnu`. Fails exactly on an unmapped (os, arch)
/// pair.
pub fn python_platform(version: &str, os: &str, arch: &str) -> (r: Result<String, MlvmError>)
    ensures
        r is Ok <==> python_platform_of(os@, arch@) is Some,
        r matches Ok(p) ==> Some(p@) == python_platform_of(os@, arch@),
        r matches Err(e) ==> e.kind == ErrorKind::Resolution && e.runtime == Runtime::Python
            && e.version@ == version@ && e.detail@ == "unsupported platform: "@ + os@ + " "@
            + arch@,
{
    let an: &'static str = if str_eq(arch, "x86_64") {
        "x86_64"
    } else if str_eq(arch, "aarch64") {
        "aarch64"
    } else {
        return Err(
            MlvmError::new(
                ErrorKind::Resolution,
                Runtime::Python,
                String::from_str(version),
                platform_detail(os, arch),
            ),
        );
    };
    let osn: &'static str = if str_eq(os, "linux") {
        "unknown-linux-gnu"
    } else if str_eq(os, "macos") {
        "apple-darwin"
    } else if str_eq(os, "windows") {
        "pc-windows-msvc"
    } else {
        return Err(
            MlvmError::new(
                ErrorKind::Resolution,
                Runtime::Python,
                String::from_str(version),
                platform_detail(os, arch),
            ),
        );
    };
    let p = String::from_str(an).concat("-").concat(osn);
    proof {
        assert(p@ =~= python_platform_of(os@, arch@)->Some_0);
    }
    Ok(p)
}

/// The descriptor for a chosen Python build asset: Python's standalone
/// builds are tar+zstd archives with a top-level `python` folder.
pub fn python_descriptor(asset_url: String) -> (r: ArchiveDescriptor)
    ensures
        r.url == asset_url,
        r.kind == ArchiveKind::TarZst,
        r.top_folder@ == "python"@,
{
    ArchiveDescriptor {
        url: asset_url,
        kind: ArchiveKind::TarZst,
        top_folder: String::from_str("python"),
    }
}

} // verus!
