use dynamic_hibernate::error::ErrorKind;
use dynamic_hibernate::power::{
    decode_octal_escapes, device_id, parse_mount_line, select_backing_source,
    swap_offset_from_output, sysfs_read, ImageSize, PlanRun, ResumeConfigStage, ResumeParams,
};
use dynamic_hibernate::swap::btrfs::{MakerStage, SubvolumeStage};
use dynamic_hibernate::swap::BtrfsOps;
use dynamic_hibernate::system::{Action, CommandOutcome, Event, StdioMode};

fn outcome(code: i32, stdout: &str, stderr: &str) -> CommandOutcome {
    CommandOutcome {
        code: Some(code),
        status_text: format!("exit status: {code}"),
        stdout: stdout.as_bytes().to_vec(),
        stderr: stderr.as_bytes().to_vec(),
    }
}

fn run_of(a: &Action) -> (String, Vec<String>, StdioMode) {
    match a {
        Action::RunTool { tool, args, stdio } => (tool.clone(), args.clone(), *stdio),
        other => panic!("expected a tool run, got {other:?}"),
    }
}

#[test]
fn sysfs_values_are_trimmed() {
    assert_eq!(ResumeParams::read_resume(Ok("259:2\n".to_string())).unwrap(), "259:2");
    assert_eq!(ResumeParams::read_resume_offset(Ok(" 533760 \n".to_string())).unwrap(), "533760");
    let e = ResumeParams::read_resume(Err("No such file".to_string())).unwrap_err();
    assert_eq!(e.kind, ErrorKind::ResumeConfigFailed);
    assert_eq!(e.message, "/sys/power/resume");
    assert_eq!(e.cause.as_deref(), Some("No such file"));
    let e = sysfs_read("/x", ErrorKind::ProbeFailed, Err(String::new())).unwrap_err();
    assert_eq!((e.kind, e.message.as_str()), (ErrorKind::ProbeFailed, "/x"));
}

#[test]
fn restore_plans_write_device_then_offset() {
    let plan = ResumeParams::restore("8:2", "1234");
    assert_eq!(plan.len(), 2);
    assert_eq!((plan[0].path.as_str(), plan[0].value.as_str()), ("/sys/power/resume", "8:2"));
    assert_eq!(plan[0].kind, ErrorKind::CleanupFailed);
    assert_eq!(plan[0].context, "restore /sys/power/resume");
    assert_eq!((plan[1].path.as_str(), plan[1].value.as_str()), ("/sys/power/resume_offset", "1234"));
    assert_eq!(plan[1].context, "restore /sys/power/resume_offset");
    let clear = ResumeParams::clear();
    assert_eq!((clear[0].value.as_str(), clear[1].value.as_str()), ("0:0", "0"));
    let z = ImageSize::set_zero();
    assert_eq!((z.path.as_str(), z.value.as_str()), ("/sys/power/image_size", "0\n"));
    assert_eq!(z.kind, ErrorKind::ResumeConfigFailed);
    assert_eq!(z.context, "write /sys/power/image_size");
}

#[test]
fn octal_escapes_decode() {
    assert_eq!(decode_octal_escapes("/mnt/my\\040disk"), "/mnt/my disk");
    assert_eq!(decode_octal_escapes("/a\\011b\\134c"), "/a\tb\\c");
    // not octal, too large for a byte, or cut short: kept as written
    assert_eq!(decode_octal_escapes("/a\\089"), "/a\\089");
    assert_eq!(decode_octal_escapes("/a\\777"), "/a\\777");
    assert_eq!(decode_octal_escapes("\\04"), "\\04");
    // a decoded byte that is not UTF-8 is replaced
    assert_eq!(decode_octal_escapes("/x\\377"), "/x\u{fffd}");
    assert_eq!(decode_octal_escapes("/plain/päth"), "/plain/päth");
}

#[test]
fn mount_lines_parse() {
    assert_eq!(
        parse_mount_line("/dev/nvme0n1p2 /mnt/data\\040x btrfs rw 0 0"),
        Some(("/dev/nvme0n1p2".to_string(), "/mnt/data x".to_string()))
    );
    assert_eq!(parse_mount_line("lonely"), None);
}

const MOUNTS: &str = "/dev/nvme0n1p2 / btrfs rw 0 0\n\
proc /proc proc rw 0 0\n\
/dev/nvme0n1p3 /var/lib btrfs rw 0 0\n\
/dev/sdb1 /var/lib btrfs rw 0 0\n\
/dev/sdc1 /var/library ext4 rw 0 0\n";

#[test]
fn backing_source_is_the_deepest_mount() {
    let src = select_backing_source("/var/lib/dynamic-hibernate/dynamic-hibernate.swapfile", MOUNTS);
    assert_eq!(src.unwrap(), "/dev/sdb1");
    assert_eq!(select_backing_source("/home/u/f", MOUNTS).unwrap(), "/dev/nvme0n1p2");
    assert_eq!(select_backing_source("/var/libraryx", MOUNTS).unwrap(), "/dev/nvme0n1p2");
    let e = select_backing_source("relative/file", MOUNTS).unwrap_err();
    assert_eq!(e.kind, ErrorKind::DeviceLookupFailed);
    assert_eq!(e.message, "no mount covers relative/file");
}

#[test]
fn device_numbers_print_as_major_minor() {
    assert_eq!(device_id(0x802), "8:2");
    assert_eq!(device_id((259 << 8) | 1), "259:1");
    // the large encoding: major 0x234, minor 0x56789
    let major: u64 = 0x234;
    let minor: u64 = 0x56789;
    let rdev = (minor & 0xff) | ((major & 0xfff) << 8) | ((minor & !0xff) << 12) | ((major & !0xfff) << 32);
    assert_eq!(device_id(rdev), format!("{major}:{minor}"));
    // a major past 12 bits also lands in the minor's upper bits
    let rdev: u64 = 0x1000_0000_0102;
    assert_eq!(device_id(rdev), "4097:4294967298");
}

#[test]
fn offset_comes_from_btrfs_output() {
    assert_eq!(swap_offset_from_output(&outcome(0, "533760\n", "")).unwrap(), "533760");
    let e = swap_offset_from_output(&outcome(1, "", " not a swapfile \n")).unwrap_err();
    assert_eq!(e.kind, ErrorKind::ResumeConfigFailed);
    assert_eq!(e.message, "btrfs map-swapfile failed: not a swapfile");
}

#[test]
fn resume_configuration_writes_device_then_offset() {
    let (mut m, a) = ResumeParams::configure_for_swapfile("/swap/f");
    assert_eq!(a, Action::FindBackingDevice { path: "/swap/f".to_string() });
    let a = m.step(Event::Device(Ok("259:2".to_string())));
    assert_eq!(
        run_of(&a),
        (
            "btrfs".to_string(),
            vec!["inspect-internal".to_string(), "map-swapfile".to_string(), "-r".to_string(), "/swap/f".to_string()],
            StdioMode::Capture
        )
    );
    let a = m.step(Event::Ran(Ok(outcome(0, "4096\n", ""))));
    assert_eq!(a, Action::ReadSysfs { path: "/sys/power/resume".to_string() });
    assert_eq!(m.stage, ResumeConfigStage::ReadingResume);
    let a = m.step(Event::Read(Ok("0:0\n".to_string())));
    match a {
        Action::WriteSysfs { write } => assert_eq!((write.path.as_str(), write.value.as_str()), ("/sys/power/resume", "259:2")),
        other => panic!("{other:?}"),
    }
    let a = m.step(Event::Done(Ok(())));
    match a {
        Action::WriteSysfs { write } => assert_eq!((write.path.as_str(), write.value.as_str()), ("/sys/power/resume_offset", "4096")),
        other => panic!("{other:?}"),
    }
    assert_eq!(m.step(Event::Done(Ok(()))), Action::Finish { result: Ok(()) });
    assert_eq!(m.stage, ResumeConfigStage::Finished);
}

#[test]
fn failed_offset_write_rolls_back_the_device() {
    let (mut m, _) = ResumeParams::configure_for_swapfile("/swap/f");
    m.step(Event::Device(Ok("8:2".to_string())));
    m.step(Event::Ran(Ok(outcome(0, "1\n", ""))));
    m.step(Event::Read(Ok("259:3\n".to_string())));
    m.step(Event::Done(Ok(())));
    let a = m.step(Event::Done(Err("EINVAL".to_string())));
    match a {
        Action::WriteSysfs { write } => assert_eq!((write.path.as_str(), write.value.as_str()), ("/sys/power/resume", "259:3")),
        other => panic!("{other:?}"),
    }
    match m.step(Event::Done(Err("still broken".to_string()))) {
        Action::Finish { result: Err(e) } => {
            assert_eq!(e.kind, ErrorKind::ResumeConfigFailed);
            assert_eq!(e.message, "write /sys/power/resume_offset");
            assert_eq!(e.cause.as_deref(), Some("EINVAL"));
        },
        other => panic!("{other:?}"),
    }
}

#[test]
fn rollback_falls_back_to_cleared_device_when_unreadable() {
    let (mut m, _) = ResumeParams::configure_for_swapfile("/swap/f");
    m.step(Event::Device(Ok("8:2".to_string())));
    m.step(Event::Ran(Ok(outcome(0, "1\n", ""))));
    m.step(Event::Read(Err("EACCES".to_string())));
    m.step(Event::Done(Ok(())));
    match m.step(Event::Done(Err("EINVAL".to_string()))) {
        Action::WriteSysfs { write } => assert_eq!((write.path.as_str(), write.value.as_str()), ("/sys/power/resume", "0:0")),
        other => panic!("{other:?}"),
    }
    assert_eq!(m.stage, ResumeConfigStage::RollingBack);
}

#[test]
fn failed_device_write_keeps_its_cause() {
    let (mut m, _) = ResumeParams::configure_for_swapfile("/swap/f");
    m.step(Event::Device(Ok("8:2".to_string())));
    m.step(Event::Ran(Ok(outcome(0, "1\n", ""))));
    m.step(Event::Read(Ok("0:0".to_string())));
    match m.step(Event::Done(Err("EBUSY".to_string()))) {
        Action::Finish { result: Err(e) } => {
            assert_eq!(e.message, "write /sys/power/resume");
            assert_eq!(e.to_chain_string(), "write /sys/power/resume: EBUSY");
        },
        other => panic!("{other:?}"),
    }
}

#[test]
fn resume_configuration_stops_on_lookup_failures() {
    let (mut m, _) = ResumeParams::configure_for_swapfile("/swap/f");
    match m.step(Event::Device(Err(dynamic_hibernate::HibernateError::new(ErrorKind::DeviceLookupFailed, "x".to_string())))) {
        Action::Finish { result: Err(e) } => assert_eq!(e.kind, ErrorKind::DeviceLookupFailed),
        other => panic!("{other:?}"),
    }
    let (mut m, _) = ResumeParams::configure_for_swapfile("/swap/f");
    m.step(Event::Device(Ok("8:2".to_string())));
    match m.step(Event::Ran(Err("ENOENT".to_string()))) {
        Action::Finish { result: Err(e) } => {
            assert_eq!(e.message, "exec btrfs map-swapfile");
            assert_eq!(e.cause.as_deref(), Some("ENOENT"));
        },
        other => panic!("{other:?}"),
    }
}

#[test]
fn btrfs_availability_and_free_space() {
    assert!(BtrfsOps::check_available(Ok(())).is_ok());
    let e = BtrfsOps::check_available(Err("cannot find binary path".to_string())).unwrap_err();
    assert_eq!(e.kind, ErrorKind::ToolNotFound);
    assert_eq!(e.cause.as_deref(), Some("cannot find binary path"));
    assert!(BtrfsOps::check_free_space("/d", 4096 * 10, Ok((10, 4096))).is_ok());
    let e = BtrfsOps::check_free_space("/d", 2 * 1024 * 1024, Ok((100, 4096))).unwrap_err();
    assert_eq!(e.kind, ErrorKind::DiskSpaceInsufficient);
    assert_eq!(e.message, "not enough space in /d — need 2048 KB, have 400 KB");
    let e = BtrfsOps::check_free_space("/d", 1, Err("EIO".to_string())).unwrap_err();
    assert_eq!(e.message, "statvfs failed");
    assert_eq!(e.cause.as_deref(), Some("EIO"));
}

#[test]
fn subvolume_show_exit_codes() {
    assert_eq!(BtrfsOps::subvolume_verdict(Ok(outcome(0, "", ""))).unwrap(), true);
    assert_eq!(BtrfsOps::subvolume_verdict(Ok(outcome(1, "", ""))).unwrap(), false);
    let e = BtrfsOps::subvolume_verdict(Ok(outcome(2, "", "boom\n"))).unwrap_err();
    assert_eq!(e.message, "btrfs subvolume show unexpected exit: boom");
    let e = BtrfsOps::create_verdict(Ok(outcome(1, "", "exists"))).unwrap_err();
    assert_eq!(e.message, "btrfs subvolume create failed: exists");
    assert_eq!(BtrfsOps::create_verdict(Err("ENOENT".to_string())).unwrap_err().message, "ENOENT");
}

#[test]
fn mkswapfile_asks_for_whole_mebibytes() {
    let (mut m, a) = BtrfsOps::mkswapfile("/s/f", 2048);
    let (tool, args, stdio) = run_of(&a);
    assert_eq!(tool, "btrfs");
    assert_eq!(args, vec!["filesystem", "mkswapfile", "--size", "3m", "--uuid", "clear", "/s/f"]);
    assert_eq!(stdio, StdioMode::Capture);
    assert_eq!(m.step(Event::Ran(Ok(outcome(0, "", "")))), Action::Finish { result: Ok(()) });
    let (_, a) = BtrfsOps::mkswapfile("/s/f", 1000);
    assert_eq!(run_of(&a).1[3], "1m");
}

#[test]
fn failed_mkswapfile_removes_the_file() {
    let (mut m, _) = BtrfsOps::mkswapfile("/s/f", 1);
    assert_eq!(m.step(Event::Ran(Ok(outcome(1, "", "no space\n")))), Action::RemoveFile { path: "/s/f".to_string() });
    match m.step(Event::Done(Err("gone".to_string()))) {
        Action::Finish { result: Err(e) } => {
            assert_eq!(e.kind, ErrorKind::SwapfileCreationFailed);
            assert_eq!(e.message, "btrfs mkswapfile failed: no space");
        },
        other => panic!("{other:?}"),
    }
    assert_eq!(m.stage, MakerStage::Finished);
}

#[test]
fn existing_subvolume_is_kept() {
    let (mut s, a) = BtrfsOps::ensure_subvolume("/v");
    assert_eq!(a, Action::PathExists { path: "/v".to_string() });
    assert_eq!(s.step(Event::Flag(true)), Action::PathExists { path: "/v".to_string() });
    let a = s.step(Event::Flag(true));
    assert_eq!(run_of(&a).1, vec!["subvolume", "show", "/v"]);
    assert_eq!(s.step(Event::Ran(Ok(outcome(0, "", "")))), Action::Finish { result: Ok(()) });
}

#[test]
fn missing_subvolume_is_created() {
    let (mut s, _) = BtrfsOps::ensure_subvolume("/v");
    assert_eq!(s.step(Event::Flag(false)), Action::CreateParentDirs { path: "/v".to_string() });
    let a = s.step(Event::Done(Ok(())));
    assert_eq!(run_of(&a).1, vec!["subvolume", "create", "/v"]);
    assert_eq!(s.step(Event::Ran(Ok(outcome(0, "", "")))), Action::Finish { result: Ok(()) });
    assert_eq!(s.stage, SubvolumeStage::Finished);
}

#[test]
fn plain_directory_is_replaced_unless_it_has_subdirectories() {
    let (mut s, _) = BtrfsOps::ensure_subvolume("/v");
    s.step(Event::Flag(true));
    s.step(Event::Flag(true));
    assert_eq!(s.step(Event::Ran(Ok(outcome(1, "", "")))), Action::PathIsDir { path: "/v".to_string() });
    assert_eq!(s.step(Event::Flag(true)), Action::HasSubdirectory { path: "/v".to_string() });
    match s.step(Event::Listing(Ok(true))) {
        Action::Finish { result: Err(e) } => {
            assert_eq!(e.kind, ErrorKind::SubvolumePreparationFailed);
            assert_eq!(e.message, "refusing to remove non-empty non-subvolume dir: /v");
        },
        other => panic!("{other:?}"),
    }
    let (mut s, _) = BtrfsOps::ensure_subvolume("/v");
    s.step(Event::Flag(true));
    s.step(Event::Flag(true));
    s.step(Event::Ran(Ok(outcome(1, "", ""))));
    s.step(Event::Flag(true));
    assert_eq!(s.step(Event::Listing(Ok(false))), Action::RemoveDirAll { path: "/v".to_string() });
    assert_eq!(s.step(Event::Done(Ok(()))), Action::CreateParentDirs { path: "/v".to_string() });
}

#[test]
fn plain_file_in_the_way_is_removed() {
    let (mut s, _) = BtrfsOps::ensure_subvolume("/v");
    s.step(Event::Flag(true));
    assert_eq!(s.step(Event::Flag(false)), Action::PathIsDir { path: "/v".to_string() });
    assert_eq!(s.step(Event::Flag(false)), Action::RemoveFile { path: "/v".to_string() });
    match s.step(Event::Done(Err("EPERM".to_string()))) {
        Action::Finish { result: Err(e) } => assert_eq!(e.message, "EPERM"),
        other => panic!("{other:?}"),
    }
}

#[test]
fn restore_plan_stops_at_the_first_failed_write() {
    let (mut run, a) = PlanRun::start(ResumeParams::restore("8:2", "1234"));
    match a {
        Action::WriteSysfs { write } => assert_eq!((write.path.as_str(), write.value.as_str()), ("/sys/power/resume", "8:2")),
        other => panic!("{other:?}"),
    }
    match run.step(Event::Done(Err("EPERM".to_string()))) {
        Action::Finish { result: Err(e) } => {
            assert_eq!(e.kind, ErrorKind::CleanupFailed);
            assert_eq!(e.message, "restore /sys/power/resume");
            assert_eq!(e.cause.as_deref(), Some("EPERM"));
        },
        other => panic!("{other:?}"),
    }
    assert!(run.finished);
}

#[test]
fn clear_plan_writes_both_pointers_in_order() {
    let (mut run, a) = PlanRun::start(ResumeParams::clear());
    match a {
        Action::WriteSysfs { write } => assert_eq!((write.path.as_str(), write.value.as_str()), ("/sys/power/resume", "0:0")),
        other => panic!("{other:?}"),
    }
    match run.step(Event::Done(Ok(()))) {
        Action::WriteSysfs { write } => assert_eq!((write.path.as_str(), write.value.as_str()), ("/sys/power/resume_offset", "0")),
        other => panic!("{other:?}"),
    }
    assert_eq!(run.step(Event::Done(Ok(()))), Action::Finish { result: Ok(()) });
    let (run, a) = PlanRun::start(Vec::new());
    assert!(run.finished);
    assert_eq!(a, Action::Finish { result: Ok(()) });
}
