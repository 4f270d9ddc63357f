use std::collections::HashMap;
use std::io::Write;

use mlvm::activate::{begin_activation, finish_activation, LinkOutcome, PointerProbe};
use mlvm::descriptor::resolve_node;
use mlvm::extract::{prepare_payload, ArchiveKind, Unpackable};
use mlvm::install::{InstallAction, InstallEvent, InstallPlanner};
use mlvm::paths::{install_path, runtime_root, scratch_path};
use mlvm::version::normalize;
use mlvm::Runtime;

/// Build, in memory, the fixture archive: a tar.gz whose root folder is
/// `node-v18.17.1-linux-x64` containing a `bin/node` file.
fn fixture_tar_gz() -> Vec<u8> {
    let mut builder = tar::Builder::new(Vec::new());
    let data = b"#!/usr/bin/env node\n";
    let mut header = tar::Header::new_gnu();
    header.set_size(data.len() as u64);
    header.set_mode(0o755);
    header.set_cksum();
    builder
        .append_data(&mut header, "node-v18.17.1-linux-x64/bin/node", &data[..])
        .unwrap();
    let tar_bytes = builder.into_inner().unwrap();
    let mut gz = flate2::write::GzEncoder::new(Vec::new(), flate2::Compression::default());
    gz.write_all(&tar_bytes).unwrap();
    gz.finish().unwrap()
}

/// List the entry paths of an unpackable payload, the way a disk unpack
/// would lay them out under the destination.
fn entry_paths(payload: Unpackable) -> Vec<String> {
    match payload {
        Unpackable::TarGz { bytes } => {
            let gz = flate2::read::GzDecoder::new(&bytes[..]);
            let mut archive = tar::Archive::new(gz);
            archive
                .entries()
                .unwrap()
                .map(|e| e.unwrap().path().unwrap().to_string_lossy().into_owned())
                .collect()
        }
        other => panic!("fixture is tar.gz, got {:?}", other),
    }
}

#[test]
fn install_and_activate_node_18_17_1() {
    let home = "/home/u";
    let version = normalize(Runtime::Node, "18.17.1");
    assert_eq!(version, "v18.17.1");

    // the runtime adapter's descriptor; the download it names is stubbed
    // below by the fixture archive
    let desc = resolve_node(&version, "linux", "x86_64").unwrap();
    assert_eq!(desc.top_folder, "node-v18.17.1-linux-x64");
    assert!(matches!(desc.kind, ArchiveKind::TarGz));

    // the directories of this runtime root: path -> contained files
    let mut dirs: HashMap<String, Vec<String>> = HashMap::new();
    let root = runtime_root(home, Runtime::Node);
    let slot = install_path(home, Runtime::Node, &version);
    let scratch = scratch_path(home, Runtime::Node);

    let mut planner = InstallPlanner::new(Runtime::Node, version.clone());
    let mut action = planner.pending_action();
    assert_eq!(action, InstallAction::ProbeSlot);
    action = planner.step(InstallEvent::SlotChecked { exists: dirs.contains_key(&slot) });
    assert_eq!(action, InstallAction::ResolveDescriptor);
    action = planner.step(InstallEvent::Resolved { ok: true });
    assert_eq!(action, InstallAction::FetchPayload);
    let payload = fixture_tar_gz();
    action = planner.step(InstallEvent::Downloaded { ok: true });
    assert_eq!(action, InstallAction::RemoveScratch);
    dirs.remove(&scratch);
    action = planner.step(InstallEvent::ScratchCleared);
    assert_eq!(action, InstallAction::Unpack);
    let prepared = prepare_payload(payload, desc.kind, Runtime::Node, &version).unwrap();
    let entries = entry_paths(prepared);
    dirs.insert(scratch.clone(), entries.clone());
    action = planner.step(InstallEvent::Extracted { ok: true });
    assert_eq!(action, InstallAction::LocateTopFolder);
    let top_prefix = format!("{}/", desc.top_folder);
    let found = entries.iter().any(|e| e.starts_with(&top_prefix));
    action = planner.step(InstallEvent::Located { found });
    assert_eq!(action, InstallAction::Relocate);
    // the single commit rename: the top folder's tree moves to the slot
    dirs.insert(root.clone(), Vec::new());
    let moved: Vec<String> = entries
        .iter()
        .filter(|e| e.starts_with(&top_prefix))
        .map(|e| e[top_prefix.len()..].to_string())
        .collect();
    dirs.insert(slot.clone(), moved);
    action = planner.step(InstallEvent::Renamed { ok: true });
    assert_eq!(action, InstallAction::RemoveScratch);
    dirs.remove(&scratch);
    action = planner.step(InstallEvent::ScratchRemoved);
    assert_eq!(action, InstallAction::Finish);
    assert!(planner.failure().is_none());

    // the final path <root>/node/v18.17.1/bin/node exists
    assert_eq!(slot, "/home/u/.mlvm/node/v18.17.1");
    assert!(dirs.get(&slot).unwrap().iter().any(|f| f == "bin/node"));
    assert!(!dirs.contains_key(&scratch));

    // activation: <root>/node/current resolves to that directory
    let plan = begin_activation(
        Runtime::Node,
        &version,
        home,
        dirs.contains_key(&slot),
        PointerProbe::Absent,
    )
    .unwrap();
    let mut current: Option<String> = None;
    current = Some(plan.target_path.clone());
    assert_eq!(plan.link_path, "/home/u/.mlvm/node/current");
    assert_eq!(current.as_deref(), Some("/home/u/.mlvm/node/v18.17.1"));
    let info =
        finish_activation(Runtime::Node, &version, home, false, LinkOutcome::Created).unwrap();
    assert_eq!(info.bin_path, "/home/u/.mlvm/node/current/bin");
    // the pointer names the installed directory, which holds bin/node
    let target = current.unwrap();
    assert!(dirs.get(&target).unwrap().iter().any(|f| f == "bin/node"));
}
