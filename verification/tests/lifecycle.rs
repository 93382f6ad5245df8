use dynamic_hibernate::error::{ErrorKind, HibernateError};
use dynamic_hibernate::probe::{SwapProbe, ZswapProbe};
use dynamic_hibernate::swap::manager::{swapon_verdict, CleanupStage, CreateStage};
use dynamic_hibernate::swap::{SwapManager, SwapMetadata};
use dynamic_hibernate::system::{Action, CommandOutcome, Event, StdioMode};
use dynamic_hibernate::systemd::boot_control::selected_entry_id;
use dynamic_hibernate::systemd::{BootControl, BootEntry};

const SWAP_FILE: &str = "/var/lib/dynamic-hibernate/dynamic-hibernate.swapfile";
const META_FILE: &str = "/var/lib/dynamic-hibernate/.dynamic-hibernate.metadata";

fn ok_run() -> CommandOutcome {
    CommandOutcome { code: Some(0), status_text: "exit status: 0".to_string(), stdout: vec![], stderr: vec![] }
}

fn failed_run(code: i32) -> CommandOutcome {
    CommandOutcome { code: Some(code), status_text: format!("exit status: {code}"), stdout: vec![], stderr: vec![] }
}

fn run(tool: &str, args: &[&str], stdio: StdioMode) -> Action {
    Action::RunTool { tool: tool.to_string(), args: args.iter().map(|s| s.to_string()).collect(), stdio }
}

fn swaps(lines: &[&str]) -> SwapProbe {
    SwapProbe { lines: lines.iter().map(|s| s.to_string()).collect() }
}

fn err(kind: ErrorKind, m: &str) -> HibernateError {
    HibernateError::new(kind, m.to_string())
}

#[test]
fn manager_uses_the_standard_locations() {
    let m = SwapManager::new();
    assert_eq!(m.swap_dir, "/var/lib/dynamic-hibernate");
    assert_eq!(m.swap_file, SWAP_FILE);
    assert_eq!(m.meta_file, META_FILE);
    assert_eq!(SwapManager::default(), m);
}

#[test]
fn metadata_records_the_creation_time() {
    let m = SwapMetadata::new("/f".to_string(), "8:2".to_string(), "100".to_string(), 1_700_000_000);
    assert_eq!(m.created_at, 1_700_000_000);
    assert_eq!(m.old_resume, "8:2");
    let m = SwapMetadata::new("/f".to_string(), String::new(), String::new(), u64::MAX);
    assert_eq!(m.created_at, -1);
}

/// Runs `create` up to the size estimate, answering the preflight and the
/// resume reads as a healthy system would.
fn create_until_swaps(required_kb: u64) -> dynamic_hibernate::swap::manager::CreateRun {
    let (mut c, a) = SwapManager::new().create();
    assert_eq!(a, Action::LocateTool { name: "swapon".to_string() });
    assert_eq!(c.step(Event::Located(Ok(()))), Action::LocateTool { name: "swapoff".to_string() });
    assert_eq!(c.step(Event::Located(Ok(()))), Action::LocateTool { name: "btrfs".to_string() });
    assert_eq!(c.step(Event::Located(Ok(()))), Action::ReportCompressorAlignment);
    assert_eq!(c.step(Event::Acknowledged), Action::ReadSysfs { path: "/sys/power/resume".to_string() });
    assert_eq!(c.step(Event::Read(Err("ENOENT".to_string()))), Action::ReadSysfs { path: "/sys/power/resume_offset".to_string() });
    match c.step(Event::Read(Ok("123\n".to_string()))) {
        Action::WriteSysfs { write } => assert_eq!((write.path.as_str(), write.value.as_str()), ("/sys/power/image_size", "0\n")),
        other => panic!("{other:?}"),
    }
    assert_eq!(c.old_resume, "0:0");
    assert_eq!(c.old_resume_offset, "123");
    assert_eq!(c.step(Event::Done(Ok(()))), Action::EstimateSize);
    assert_eq!(c.step(Event::Size(Ok(required_kb))), Action::ProbeSwaps);
    c
}

#[test]
fn create_makes_activates_and_records_a_swapfile() {
    let mut c = create_until_swaps(2048);
    let small = swaps(&["header", "/dev/sda2 partition 1000 0 -2"]);
    assert_eq!(c.step(Event::Swaps(Ok(small))), Action::EnsureSubvolume { path: "/var/lib/dynamic-hibernate".to_string() });
    assert_eq!(c.step(Event::Completed(Ok(()))), Action::ReadFreeSpace { path: "/var/lib/dynamic-hibernate".to_string() });
    assert_eq!(c.step(Event::Space(Ok((1_000_000, 4096)))), Action::PathExists { path: SWAP_FILE.to_string() });
    assert_eq!(c.step(Event::Flag(true)), run("swapoff", &[SWAP_FILE], StdioMode::Inherit));
    assert_eq!(c.step(Event::Ran(Err("ENOENT".to_string()))), Action::RemoveFile { path: SWAP_FILE.to_string() });
    assert_eq!(c.step(Event::Done(Ok(()))), Action::MakeSwapfile { path: SWAP_FILE.to_string(), size_kb: 2048 });
    assert_eq!(c.step(Event::Completed(Ok(()))), run("swapon", &[SWAP_FILE], StdioMode::Inherit));
    assert_eq!(c.step(Event::Ran(Ok(ok_run()))), Action::ConfigureResume { path: SWAP_FILE.to_string() });
    assert_eq!(
        c.step(Event::Completed(Ok(()))),
        Action::WriteMetadata {
            path: META_FILE.to_string(),
            swap_file: SWAP_FILE.to_string(),
            old_resume: "0:0".to_string(),
            old_resume_offset: "123".to_string(),
        }
    );
    assert_eq!(c.step(Event::Completed(Ok(()))), Action::HideBootMenu);
    assert_eq!(c.step(Event::Acknowledged), Action::Finish { result: Ok(()) });
    assert_eq!(c.stage, CreateStage::Finished);
}

#[test]
fn create_reuses_a_large_enough_swap() {
    let mut c = create_until_swaps(1000);
    let table = ["header", "/dev/zram0 partition 9000000 0 100", "/dev/sda2 partition 5000 1000 -2", "/dev/sdb1 partition 3000 0 -3"];
    assert_eq!(c.step(Event::Swaps(Ok(swaps(&table)))), Action::ProbeSwaps);
    assert_eq!(c.step(Event::Swaps(Ok(swaps(&table)))), Action::ConfigureResume { path: "/dev/sda2".to_string() });
    let failure = err(ErrorKind::ResumeConfigFailed, "write /sys/power/resume");
    assert_eq!(c.step(Event::Completed(Err(failure.clone()))), Action::Finish { result: Err(failure) });
}

#[test]
fn create_stops_without_tools() {
    let (mut c, _) = SwapManager::new().create();
    match c.step(Event::Located(Err("cannot find binary path".to_string()))) {
        Action::Finish { result: Err(e) } => {
            assert_eq!(e.kind, ErrorKind::ToolNotFound);
            assert_eq!(e.message, "swapon not found in PATH");
            assert_eq!(e.cause.as_deref(), Some("cannot find binary path"));
            assert_eq!(e.to_chain_string(), "swapon not found in PATH: cannot find binary path");
        },
        other => panic!("{other:?}"),
    }
    let (mut c, _) = SwapManager::new().create();
    c.step(Event::Located(Ok(())));
    c.step(Event::Located(Ok(())));
    match c.step(Event::Located(Err("cannot find binary path".to_string()))) {
        Action::Finish { result: Err(e) } => assert_eq!(e.message, "btrfs-progs not found in PATH — is btrfs-progs installed?"),
        other => panic!("{other:?}"),
    }
}

#[test]
fn create_refuses_when_space_is_short() {
    let mut c = create_until_swaps(2048);
    c.step(Event::Swaps(Ok(swaps(&["header"]))));
    c.step(Event::Completed(Ok(())));
    match c.step(Event::Space(Ok((10, 4096)))) {
        Action::Finish { result: Err(e) } => {
            assert_eq!(e.kind, ErrorKind::DiskSpaceInsufficient);
            assert_eq!(e.message, "not enough space in /var/lib/dynamic-hibernate — need 2048 KB, have 40 KB");
        },
        other => panic!("{other:?}"),
    }
}

#[test]
fn failed_activation_removes_the_swapfile() {
    let mut c = create_until_swaps(10);
    c.step(Event::Swaps(Ok(swaps(&["header"]))));
    c.step(Event::Completed(Ok(())));
    c.step(Event::Space(Ok((1000, 4096))));
    c.step(Event::Flag(false));
    c.step(Event::Completed(Ok(())));
    assert_eq!(c.step(Event::Ran(Ok(failed_run(255)))), Action::RemoveFile { path: SWAP_FILE.to_string() });
    match c.step(Event::Done(Ok(()))) {
        Action::Finish { result: Err(e) } => {
            assert_eq!(e.kind, ErrorKind::SwapfileActivationFailed);
            assert_eq!(e.message, format!("swapon {SWAP_FILE} exited with exit status: 255"));
        },
        other => panic!("{other:?}"),
    }
}

#[test]
fn failed_resume_configuration_undoes_the_swapfile() {
    let mut c = create_until_swaps(10);
    c.step(Event::Swaps(Ok(swaps(&["header"]))));
    c.step(Event::Completed(Ok(())));
    c.step(Event::Space(Ok((1000, 4096))));
    c.step(Event::Flag(false));
    c.step(Event::Completed(Ok(())));
    c.step(Event::Ran(Ok(ok_run())));
    let failure = err(ErrorKind::DeviceLookupFailed, "no mount covers x");
    assert_eq!(c.step(Event::Completed(Err(failure.clone()))), run("swapoff", &[SWAP_FILE], StdioMode::Inherit));
    assert_eq!(c.step(Event::Ran(Ok(ok_run()))), Action::RemoveFile { path: SWAP_FILE.to_string() });
    assert_eq!(c.step(Event::Done(Err("EBUSY".to_string()))), Action::Finish { result: Err(failure) });
}

#[test]
fn swapon_outcomes() {
    assert!(swapon_verdict("/f", Ok(ok_run())).is_ok());
    assert_eq!(swapon_verdict("/f", Err("x".to_string())).unwrap_err().message, "exec swapon");
}

#[test]
fn cleanup_without_metadata_does_nothing() {
    let (mut c, a) = SwapManager::new().cleanup();
    assert_eq!(a, Action::PathExists { path: META_FILE.to_string() });
    assert_eq!(c.step(Event::Flag(false)), Action::Finish { result: Ok(()) });
    assert_eq!(c.stage, CleanupStage::Finished);
}

#[test]
fn cleanup_removes_the_swapfile_and_restores_resume() {
    let (mut c, _) = SwapManager::new().cleanup();
    assert_eq!(c.step(Event::Flag(true)), Action::ReadMetadata { path: META_FILE.to_string() });
    let meta = SwapMetadata::new("/s/f".to_string(), "8:2".to_string(), "777".to_string(), 5);
    assert_eq!(c.step(Event::Metadata(Ok(meta))), Action::PathExists { path: "/s/f".to_string() });
    assert_eq!(c.step(Event::Flag(true)), run("swapoff", &["/s/f"], StdioMode::Inherit));
    assert_eq!(c.step(Event::Ran(Ok(failed_run(1)))), Action::RemoveFile { path: "/s/f".to_string() });
    match c.step(Event::Done(Ok(()))) {
        Action::WriteSysfs { write } => assert_eq!((write.path.as_str(), write.value.as_str()), ("/sys/power/resume", "8:2")),
        other => panic!("{other:?}"),
    }
    match c.step(Event::Done(Ok(()))) {
        Action::WriteSysfs { write } => assert_eq!((write.path.as_str(), write.value.as_str()), ("/sys/power/resume_offset", "777")),
        other => panic!("{other:?}"),
    }
    match c.step(Event::Done(Ok(()))) {
        Action::WriteSysfs { write } => assert_eq!(write.value, "0\n"),
        other => panic!("{other:?}"),
    }
    assert_eq!(c.step(Event::Done(Ok(()))), Action::RemoveFile { path: META_FILE.to_string() });
    assert_eq!(c.step(Event::Done(Ok(()))), Action::RestoreBootMenu);
    assert_eq!(c.step(Event::Acknowledged), Action::Finish { result: Ok(()) });
}

#[test]
fn cleanup_reports_the_failed_step() {
    let (mut c, _) = SwapManager::new().cleanup();
    c.step(Event::Flag(true));
    let meta = SwapMetadata::new("/s/f".to_string(), "8:2".to_string(), "777".to_string(), 5);
    c.step(Event::Metadata(Ok(meta)));
    c.step(Event::Flag(false));
    match c.step(Event::Done(Err("EINVAL".to_string()))) {
        Action::Finish { result: Err(e) } => {
            assert_eq!(e.kind, ErrorKind::CleanupFailed);
            assert_eq!(e.message, "restore /sys/power/resume");
        },
        other => panic!("{other:?}"),
    }
}

fn lzo() -> ZswapProbe {
    ZswapProbe {
        zswap_compressor_file: Some("lzo\n".to_string()),
        hibernate_compressor_file: Some("LZO\n".to_string()),
        stored_pages_file: None,
        pool_total_size_file: None,
    }
}

#[test]
fn status_reports_swap_metadata_estimate_and_compressors() {
    let (mut r, a) = SwapManager::new().status();
    assert_eq!(a, Action::ProbeSwaps);
    let table = swaps(&["header", "/dev/sda2 partition 1000 400 -2"]);
    assert_eq!(r.step(Event::Swaps(Ok(table))), Action::PathExists { path: META_FILE.to_string() });
    assert_eq!(r.step(Event::Flag(true)), Action::ReadMetadata { path: META_FILE.to_string() });
    let meta = SwapMetadata::new("/s/f".to_string(), "8:2".to_string(), "777".to_string(), 42);
    assert_eq!(r.step(Event::Metadata(Ok(meta))), Action::EstimateSize);
    assert_eq!(r.step(Event::Size(Ok(2048))), Action::FormatMegabytes { kb: 2048 });
    assert_eq!(r.step(Event::Formatted("2.0".to_string())), Action::ProbeZswap);
    let lines = match r.step(Event::Zswap(lzo())) {
        Action::Print { lines } => lines,
        other => panic!("{other:?}"),
    };
    assert_eq!(
        lines,
        vec![
            "=== dynamic-hibernate status ===",
            "Swap        : /dev/sda2 — 600/1000 KB free",
            "Swapfile    : /s/f",
            "Created at  : 42 (unix)",
            "Old resume  : 8:2 @ 777",
            "Estimate    : 2048 KB  (2.0 MB)",
            "Compressors : zswap=lzo  hibernate=lzo  ✓ aligned",
        ]
    );
    assert_eq!(r.step(Event::Acknowledged), Action::Finish { result: Ok(()) });
}

#[test]
fn status_reports_what_is_missing() {
    let (mut r, _) = SwapManager::new().status();
    r.step(Event::Swaps(Ok(swaps(&["header"]))));
    r.step(Event::Flag(false));
    r.step(Event::Size(Err(err(ErrorKind::ProbeFailed, "failed to read /proc/meminfo"))));
    let z = ZswapProbe { zswap_compressor_file: Some("lz4".to_string()), ..lzo() };
    let lines = match r.step(Event::Zswap(z)) {
        Action::Print { lines } => lines,
        other => panic!("{other:?}"),
    };
    assert_eq!(
        lines,
        vec![
            "=== dynamic-hibernate status ===",
            "Active swap : none",
            "Metadata    : none",
            "Estimate    : unavailable — [ProbeFailed] failed to read /proc/meminfo",
            "Compressors : zswap=lz4  hibernate=lzo  ✗ MISMATCH — ratio unusable",
        ]
    );
}

#[test]
fn status_fails_only_on_unreadable_swaps() {
    let (mut r, _) = SwapManager::new().status();
    let failure = err(ErrorKind::ProbeFailed, "cannot open /proc/swaps");
    assert_eq!(
        r.step(Event::Swaps(Err(failure.clone()))),
        Action::Print { lines: vec!["=== dynamic-hibernate status ===".to_string()] }
    );
    assert_eq!(r.step(Event::Acknowledged), Action::Finish { result: Err(failure) });
}

#[test]
fn corrupt_metadata_is_reported_in_status() {
    let (mut r, _) = SwapManager::new().status();
    r.step(Event::Swaps(Ok(swaps(&["header"]))));
    r.step(Event::Flag(true));
    r.step(Event::Metadata(Err(err(ErrorKind::CleanupFailed, "parse metadata JSON"))));
    r.step(Event::Size(Err(err(ErrorKind::ProbeFailed, "x"))));
    let none = ZswapProbe { zswap_compressor_file: None, hibernate_compressor_file: None, stored_pages_file: None, pool_total_size_file: None };
    let lines = match r.step(Event::Zswap(none)) {
        Action::Print { lines } => lines,
        other => panic!("{other:?}"),
    };
    assert_eq!(lines[2], "Metadata    : corrupt — [CleanupFailed] parse metadata JSON");
    assert_eq!(lines[4], "Compressors : zswap=?  hibernate=?  ✗ MISMATCH — ratio unusable");
}

fn entry(id: Option<&str>, sel: Option<bool>) -> BootEntry {
    BootEntry { id: id.map(|s| s.to_string()), is_selected: sel }
}

#[test]
fn selected_boot_entry() {
    let es = vec![entry(Some("a.conf"), Some(false)), entry(Some("b.conf"), Some(true)), entry(Some("c.conf"), Some(true))];
    assert_eq!(selected_entry_id(&es).as_deref(), Some("b.conf"));
    let es = vec![entry(None, Some(true)), entry(Some("c.conf"), Some(true))];
    assert_eq!(selected_entry_id(&es), None);
    assert_eq!(selected_entry_id(&vec![entry(Some("a"), None)]), None);
}

#[test]
fn hiding_the_menu_pins_the_selected_entry() {
    let (mut b, a) = BootControl::hide_menu();
    assert_eq!(a, Action::LocateTool { name: "bootctl".to_string() });
    assert_eq!(b.step(Event::Located(Ok(()))), run("bootctl", &["is-installed"], StdioMode::Discard));
    assert_eq!(b.step(Event::Ran(Ok(ok_run()))), run("bootctl", &["list", "--json=short", "--no-pager"], StdioMode::Capture));
    let listed = CommandOutcome { stdout: b"[]".to_vec(), ..ok_run() };
    assert_eq!(b.step(Event::Ran(Ok(listed))), Action::ParseBootEntries { json: b"[]".to_vec() });
    let es = vec![entry(Some("arch.conf"), Some(true))];
    assert_eq!(b.step(Event::BootEntries(Some(es))), run("bootctl", &["set-oneshot", "arch.conf"], StdioMode::Inherit));
    assert_eq!(b.step(Event::Ran(Ok(failed_run(1)))), run("bootctl", &["set-timeout", "0"], StdioMode::Inherit));
    assert_eq!(b.step(Event::Ran(Err("x".to_string()))), Action::Finish { result: Ok(()) });
}

#[test]
fn restoring_the_menu_unsets_the_timeout() {
    let (mut b, _) = BootControl::restore_menu();
    b.step(Event::Located(Ok(())));
    assert_eq!(b.step(Event::Ran(Ok(ok_run()))), run("bootctl", &["set-timeout", ""], StdioMode::Inherit));
    assert_eq!(b.step(Event::Ran(Ok(ok_run()))), Action::Finish { result: Ok(()) });
}

#[test]
fn boot_menu_is_left_alone_without_systemd_boot() {
    let (mut b, _) = BootControl::hide_menu();
    assert_eq!(b.step(Event::Located(Err("cannot find binary path".to_string()))), Action::Finish { result: Ok(()) });
    let (mut b, _) = BootControl::hide_menu();
    b.step(Event::Located(Ok(())));
    assert_eq!(b.step(Event::Ran(Ok(failed_run(1)))), Action::Finish { result: Ok(()) });
}

#[test]
fn second_cleanup_finds_nothing_to_do() {
    // first run: every request succeeds, the metadata file is removed
    let (mut c, _) = SwapManager::new().cleanup();
    c.step(Event::Flag(true));
    let meta = SwapMetadata::new("/s/f".to_string(), "0:0".to_string(), "0".to_string(), 5);
    c.step(Event::Metadata(Ok(meta)));
    c.step(Event::Flag(false));
    c.step(Event::Done(Ok(())));
    c.step(Event::Done(Ok(())));
    c.step(Event::Done(Ok(())));
    c.step(Event::Done(Ok(())));
    assert_eq!(c.step(Event::Acknowledged), Action::Finish { result: Ok(()) });
    // second run: the metadata is gone
    let (mut again, a) = SwapManager::new().cleanup();
    assert_eq!(a, Action::PathExists { path: META_FILE.to_string() });
    assert_eq!(again.step(Event::Flag(false)), Action::Finish { result: Ok(()) });
    assert_eq!(again.stage, CleanupStage::Finished);
}
