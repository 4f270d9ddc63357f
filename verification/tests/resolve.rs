use mlvm::descriptor::{python_descriptor, python_platform, resolve_bun, resolve_go, resolve_node};
use mlvm::errors::ErrorKind;
use mlvm::extract::ArchiveKind;
use mlvm::paths::{current_path, install_path, runtime_root, scratch_member_path, scratch_path};
use mlvm::Runtime;

#[test]
fn node_linux_descriptor() {
    let d = resolve_node("v18.17.1", "linux", "x86_64").unwrap();
    assert_eq!(d.url, "https://nodejs.org/dist/v18.17.1/node-v18.17.1-linux-x64.tar.gz");
    assert_eq!(d.top_folder, "node-v18.17.1-linux-x64");
    assert!(matches!(d.kind, ArchiveKind::TarGz));
}

#[test]
fn node_windows_descriptor_is_zip() {
    let d = resolve_node("v20.0.0", "windows", "x86_64").unwrap();
    assert_eq!(d.url, "https://nodejs.org/dist/v20.0.0/node-v20.0.0-win-x64.zip");
    assert_eq!(d.top_folder, "node-v20.0.0-win-x64");
    assert!(matches!(d.kind, ArchiveKind::Zip));
}

#[test]
fn node_unmapped_platform_fails() {
    let e = resolve_node("v18.17.1", "plan9", "x86_64").unwrap_err();
    assert_eq!(e.kind, ErrorKind::Resolution);
    assert_eq!(e.runtime, Runtime::Node);
    assert_eq!(e.version, "v18.17.1");
    let e2 = resolve_node("v18.17.1", "linux", "riscv64").unwrap_err();
    assert_eq!(e2.kind, ErrorKind::Resolution);
}

#[test]
fn go_descriptor_and_unmapped_pair() {
    let d = resolve_go("1.21.0", "macos", "aarch64").unwrap();
    assert_eq!(d.url, "https://go.dev/dl/go1.21.0.darwin-arm64.tar.gz");
    assert_eq!(d.top_folder, "go");
    assert!(matches!(d.kind, ArchiveKind::TarGz));

    let z = resolve_go("1.21.0", "windows", "x86").unwrap();
    assert_eq!(z.url, "https://go.dev/dl/go1.21.0.windows-386.zip");
    assert!(matches!(z.kind, ArchiveKind::Zip));

    // windows on aarch64 has no entry in Go's table: it must fail, not default
    let e = resolve_go("1.21.0", "windows", "aarch64").unwrap_err();
    assert_eq!(e.kind, ErrorKind::Resolution);
    assert_eq!(e.runtime, Runtime::Go);
}

#[test]
fn bun_descriptor_and_unmapped_pair() {
    let d = resolve_bun("v1.0.0", "linux", "aarch64").unwrap();
    assert_eq!(
        d.url,
        "https://github.com/oven-sh/bun/releases/download/v1.0.0/bun-linux-aarch64.zip"
    );
    assert_eq!(d.top_folder, "bun-linux-aarch64");
    assert!(matches!(d.kind, ArchiveKind::Zip));

    let e = resolve_bun("v1.0.0", "windows", "aarch64").unwrap_err();
    assert_eq!(e.kind, ErrorKind::Resolution);
    assert_eq!(e.runtime, Runtime::Bun);
}

#[test]
fn python_platform_names() {
    assert_eq!(
        python_platform("3.11.9", "linux", "x86_64").unwrap(),
        "x86_64-unknown-linux-gnu"
    );
    assert_eq!(
        python_platform("3.11.9", "macos", "aarch64").unwrap(),
        "aarch64-apple-darwin"
    );
    assert_eq!(
        python_platform("3.11.9", "windows", "x86_64").unwrap(),
        "x86_64-pc-windows-msvc"
    );
    let e = python_platform("3.11.9", "linux", "mips").unwrap_err();
    assert_eq!(e.kind, ErrorKind::Resolution);
    assert_eq!(e.runtime, Runtime::Python);
    assert_eq!(e.version, "3.11.9");
}

#[test]
fn python_descriptor_shape() {
    let d = python_descriptor(String::from("https://example.invalid/cpython.tar.zst"));
    assert_eq!(d.url, "https://example.invalid/cpython.tar.zst");
    assert_eq!(d.top_folder, "python");
    assert!(matches!(d.kind, ArchiveKind::TarZst));
}

#[test]
fn layout_paths() {
    assert_eq!(runtime_root("/home/u", Runtime::Node), "/home/u/.mlvm/node");
    assert_eq!(
        install_path("/home/u", Runtime::Node, "v18.17.1"),
        "/home/u/.mlvm/node/v18.17.1"
    );
    assert_eq!(scratch_path("/home/u", Runtime::Go), "/home/u/.mlvm/go/temp_unpack");
    assert_eq!(current_path("/home/u", Runtime::Bun), "/home/u/.mlvm/bun/current");
    assert_eq!(
        scratch_member_path("/home/u", Runtime::Python, "python"),
        "/home/u/.mlvm/python/temp_unpack/python"
    );
}

#[test]
fn archive_kind_extensions() {
    assert!(matches!(ArchiveKind::from_ext("zip"), Some(ArchiveKind::Zip)));
    assert!(matches!(ArchiveKind::from_ext("tar.gz"), Some(ArchiveKind::TarGz)));
    assert!(matches!(ArchiveKind::from_ext("tar.zst"), Some(ArchiveKind::TarZst)));
    assert!(ArchiveKind::from_ext("rar").is_none());
    assert_eq!(ArchiveKind::TarGz.ext_str(), "tar.gz");
}
