use mlvm::cli::{BunCommand, Cli, GoCommand, Language, NodeCommand, PythonCommand};
use mlvm::errors::{ErrorKind, MlvmError};
use mlvm::Runtime;

#[test]
fn error_message_names_runtime_and_version() {
    let e = MlvmError::new(
        ErrorKind::Download,
        Runtime::Node,
        String::from("v18.17.1"),
        String::new(),
    );
    assert_eq!(e.message(), "download failed (node v18.17.1)");
}

#[test]
fn error_message_appends_detail() {
    let e = MlvmError::new(
        ErrorKind::Resolution,
        Runtime::Go,
        String::from("1.21.0"),
        String::from("unsupported platform: plan9 mips"),
    );
    assert_eq!(
        e.message(),
        "no matching release or asset (go 1.21.0): unsupported platform: plan9 mips"
    );
}

#[test]
fn each_failure_class_has_its_text() {
    let texts = [
        (ErrorKind::Resolution, "no matching release or asset"),
        (ErrorKind::Download, "download failed"),
        (ErrorKind::Format, "unrecognized or corrupt archive"),
        (ErrorKind::Layout, "extracted tree missing expected top-level folder"),
        (ErrorKind::Relocation, "relocation into final directory exhausted retries"),
        (ErrorKind::NotInstalled, "version is not installed"),
        (ErrorKind::Permission, "link creation denied by OS policy"),
    ];
    for (kind, text) in texts {
        let e = MlvmError::new(kind, Runtime::Bun, String::from("v1.0.0"), String::new());
        assert_eq!(e.kind_str(), text);
    }
}

#[test]
fn runtime_directory_names() {
    assert_eq!(Runtime::Node.dir_name(), "node");
    assert_eq!(Runtime::Python.dir_name(), "python");
    assert_eq!(Runtime::Go.dir_name(), "go");
    assert_eq!(Runtime::Bun.dir_name(), "bun");
}

#[test]
fn cli_invocations_hold_their_commands() {
    let c = Cli {
        language: Language::Node {
            command: NodeCommand::Install { version: String::from("18.17.1") },
        },
    };
    match c.language {
        Language::Node { command: NodeCommand::Install { version } } => {
            assert_eq!(version, "18.17.1")
        }
        _ => panic!("wrong language parsed"),
    }
    let u = Language::Python { command: PythonCommand::Use { version: String::from("3.11.9") } };
    assert!(matches!(u, Language::Python { .. }));
    let g = Language::Go { command: GoCommand::ListRemote };
    assert!(matches!(g, Language::Go { command: GoCommand::ListRemote }));
    let b = Language::Bun { command: BunCommand::ListRemote };
    assert!(matches!(b, Language::Bun { .. }));
}
