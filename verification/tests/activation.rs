use mlvm::activate::{begin_activation, finish_activation, plan_pointer_removal, LinkOutcome,
    PointerProbe, PointerRemoval};
use mlvm::errors::ErrorKind;
use mlvm::Runtime;

#[test]
fn activation_of_missing_version_fails() {
    let e = begin_activation(Runtime::Node, "v18.17.1", "/home/u", false, PointerProbe::Absent)
        .unwrap_err();
    assert_eq!(e.kind, ErrorKind::NotInstalled);
    assert_eq!(e.runtime, Runtime::Node);
    assert_eq!(e.version, "v18.17.1");
    assert_eq!(e.message(), "version is not installed (node v18.17.1)");
}

#[test]
fn activation_plan_points_at_the_version() {
    let p = begin_activation(Runtime::Node, "v18.17.1", "/home/u", true, PointerProbe::Absent)
        .unwrap();
    assert_eq!(p.link_path, "/home/u/.mlvm/node/current");
    assert_eq!(p.target_path, "/home/u/.mlvm/node/v18.17.1");
    assert_eq!(p.removal, PointerRemoval::NoRemoval);
}

#[test]
fn stale_slot_content_is_removed_defensively() {
    assert_eq!(plan_pointer_removal(PointerProbe::Directory), PointerRemoval::RemoveDirectory);
    assert_eq!(plan_pointer_removal(PointerProbe::Other), PointerRemoval::RemoveFile);
    assert_eq!(plan_pointer_removal(PointerProbe::Absent), PointerRemoval::NoRemoval);
}

#[test]
fn denied_link_creation_carries_remediation() {
    let e = finish_activation(
        Runtime::Node,
        "v18.17.1",
        "/home/u",
        true,
        LinkOutcome::PermissionDenied,
    )
    .unwrap_err();
    assert_eq!(e.kind, ErrorKind::Permission);
    assert!(e.detail.contains("Developer Mode"));
    assert!(e.message().contains("link creation denied by OS policy"));
}

#[test]
fn reported_path_follows_runtime_convention() {
    let node = finish_activation(Runtime::Node, "v18.17.1", "/home/u", false, LinkOutcome::Created)
        .unwrap();
    assert_eq!(node.bin_path, "/home/u/.mlvm/node/current/bin");
    let node_win =
        finish_activation(Runtime::Node, "v18.17.1", "C:/u", true, LinkOutcome::Created).unwrap();
    assert_eq!(node_win.bin_path, "C:/u/.mlvm/node/current");
    let go = finish_activation(Runtime::Go, "1.21.0", "/home/u", true, LinkOutcome::Created)
        .unwrap();
    assert_eq!(go.bin_path, "/home/u/.mlvm/go/current/bin");
    let bun = finish_activation(Runtime::Bun, "v1.0.0", "/home/u", false, LinkOutcome::Created)
        .unwrap();
    assert_eq!(bun.bin_path, "/home/u/.mlvm/bun/current");
}

#[test]
fn consecutive_activations_leave_one_pointer_at_the_last() {
    // the pointer slot of one runtime root, as the application maintains it:
    // remove whatever is there, then link to the planned target
    let mut current: Option<String> = Some(String::from("/home/u/.mlvm/node/v16.0.0"));
    let versions = ["v16.20.2", "v18.17.1", "v20.5.0"];
    for v in versions {
        let probe = if current.is_some() { PointerProbe::Directory } else { PointerProbe::Absent };
        let plan = begin_activation(Runtime::Node, v, "/home/u", true, probe).unwrap();
        // the removal, then the relink; at no point does the slot hold two targets
        current = None;
        current = Some(plan.target_path);
    }
    assert_eq!(current.unwrap(), "/home/u/.mlvm/node/v20.5.0");
}
