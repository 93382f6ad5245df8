use dynamic_hibernate::probe::zswap::CompressionRatio;
use dynamic_hibernate::probe::swap::parse_swap_line;
use dynamic_hibernate::probe::vram::first_line_of;
use dynamic_hibernate::probe::{MemProbe, SwapEntry, SwapProbe, VramProbe, ZswapProbe};
use dynamic_hibernate::sizing::compute_swapfile_kb;

fn meminfo() -> MemProbe {
    MemProbe {
        mem_total: 16_000_000,
        mem_free: 2_000_000,
        buffers: 100_000,
        cached: 5_000_000,
        dirty: 200_000,
        s_reclaimable: Some(300_000),
    }
}

fn zswap(z: &str, h: &str, stored: &str, pool: &str) -> ZswapProbe {
    ZswapProbe {
        zswap_compressor_file: Some(z.to_string()),
        hibernate_compressor_file: Some(h.to_string()),
        stored_pages_file: Some(stored.to_string()),
        pool_total_size_file: Some(pool.to_string()),
    }
}

fn unity() -> CompressionRatio {
    CompressionRatio { uncompressed_bytes: 1, compressed_bytes: 1 }
}

#[test]
fn must_save_subtracts_free_and_reclaimable() {
    // reclaimable = 100000 + (5000000 - 200000) + 300000 = 5200000
    assert_eq!(meminfo().must_save_kb(), 16_000_000 - 2_000_000 - 5_200_000);
}

#[test]
fn must_save_floors_at_zero() {
    let m = MemProbe { mem_total: 100, mem_free: 90, buffers: 50, cached: 10, dirty: 20, s_reclaimable: None };
    assert_eq!(m.must_save_kb(), 0);
    let m = MemProbe { mem_total: 100, mem_free: 10, buffers: 5, cached: 10, dirty: 20, s_reclaimable: None };
    assert_eq!(m.must_save_kb(), 85);
}

#[test]
fn compressor_names_are_trimmed_and_lowercased() {
    let z = zswap("LZO\n", "lzo\n", "0", "0");
    assert_eq!(z.zswap_compressor().as_deref(), Some("lzo"));
    assert_eq!(z.hibernate_compressor().as_deref(), Some("lzo"));
    assert!(z.compressors_aligned());
    let z = zswap("lz4\n", "lzo\n", "0", "0");
    assert!(!z.compressors_aligned());
    let mut z = zswap("lzo", "lzo", "0", "0");
    z.hibernate_compressor_file = None;
    assert_eq!(z.hibernate_compressor(), None);
    assert!(!z.compressors_aligned());
}

#[test]
fn ratio_is_sampled_from_a_large_aligned_pool() {
    let z = zswap("lzo\n", "lzo\n", "60000\n", "100000000\n");
    assert_eq!(
        z.compression_ratio(),
        CompressionRatio { uncompressed_bytes: 60_000 * 4096, compressed_bytes: 100_000_000 }
    );
}

#[test]
fn ratio_falls_back_to_one() {
    // misaligned compressors
    assert_eq!(zswap("lz4", "lzo", "60000", "100000000").compression_ratio(), unity());
    // too few pages
    assert_eq!(zswap("lzo", "lzo", "51199", "1000").compression_ratio(), unity());
    // empty pool
    assert_eq!(zswap("lzo", "lzo", "60000", "0").compression_ratio(), unity());
    // unparsable counter
    assert_eq!(zswap("lzo", "lzo", "many", "1000").compression_ratio(), unity());
    // a sample below 1 counts as 1
    assert_eq!(zswap("lzo", "lzo", "51200", "999999999").compression_ratio(), unity());
    // exactly the minimum sample is used
    assert_eq!(
        zswap("lzo", "lzo", "51200", "1000").compression_ratio(),
        CompressionRatio { uncompressed_bytes: 51_200 * 4096, compressed_bytes: 1000 }
    );
}

#[test]
fn vram_is_read_from_the_first_line() {
    assert_eq!(VramProbe { smi_output: Some("2048\n".as_bytes().to_vec()) }.used_kb(), 2048 * 1024);
    assert_eq!(VramProbe { smi_output: Some(" 512 \r\n1024\n".as_bytes().to_vec()) }.used_kb(), 512 * 1024);
    assert_eq!(first_line_of("a\nb"), "a");
    assert_eq!(first_line_of("abc"), "abc");
}

#[test]
fn vram_defaults_to_zero() {
    assert_eq!(VramProbe { smi_output: None }.used_kb(), 0);
    assert_eq!(VramProbe { smi_output: Some("[N/A]\n".as_bytes().to_vec()) }.used_kb(), 0);
    assert_eq!(VramProbe { smi_output: Some(Vec::new()) }.used_kb(), 0);
    assert_eq!(VramProbe { smi_output: Some("\n2048\n".as_bytes().to_vec()) }.used_kb(), 0);
    // an invalid byte decodes to U+FFFD, which is no digit
    assert_eq!(VramProbe { smi_output: Some(vec![b'1', b'2', 0xff, b'\n']) }.used_kb(), 0);
}

const SWAPS: &str = "Filename\t\t\t\tType\t\tSize\t\tUsed\t\tPriority\n\
/dev/zram0                              partition\t8388604\t\t0\t\t100\n\
/dev/nvme0n1p3                          partition\t4194300\t\t1000\t\t-2\n\
/swap/file                              file\t\t4194304\t\t1004\t\t-3\n\
garbage line\n";

fn swaps() -> SwapProbe {
    SwapProbe { lines: SWAPS.lines().map(|l| l.to_string()).collect() }
}

#[test]
fn swap_lines_parse() {
    let e = parse_swap_line("/dev/sda2 partition 100 40 -2").unwrap();
    assert_eq!(e, SwapEntry { path: "/dev/sda2".to_string(), size_kb: 100, used_kb: 40 });
    assert_eq!(e.free_kb(), 60);
    assert!(parse_swap_line("/dev/sda2 partition 100").is_none());
    assert!(parse_swap_line("/dev/sda2 partition x 40").is_none());
    let full = SwapEntry { path: "/dev/zram1".to_string(), size_kb: 10, used_kb: 20 };
    assert_eq!(full.free_kb(), 0);
    assert!(full.is_zram());
}

#[test]
fn swap_entries_skip_header_zram_and_garbage() {
    let es = swaps().entries();
    assert_eq!(
        es.iter().map(|e| e.path.as_str()).collect::<Vec<_>>(),
        vec!["/dev/nvme0n1p3", "/swap/file"]
    );
    assert!(SwapProbe { lines: vec![] }.entries().is_empty());
    let header_only = SwapProbe { lines: vec!["/dev/sda1 partition 9 0 0".to_string()] };
    assert!(header_only.entries().is_empty());
}

#[test]
fn largest_free_prefers_the_last_of_equals() {
    let p = swaps();
    assert_eq!(p.largest_free_kb(), 4_193_300);
    assert_eq!(p.largest_free_path().as_deref(), Some("/swap/file"));
    let none = SwapProbe { lines: vec!["header".to_string()] };
    assert_eq!(none.largest_free_kb(), 0);
    assert_eq!(none.largest_free_path(), None);
}

#[test]
fn swapfile_size_formula() {
    let mem = meminfo();
    let no_vram = VramProbe { smi_output: None };
    // ratio 1: 8800000 + 880000 + 0 + 1024
    let flat = zswap("lz4", "lzo", "60000", "100000000");
    assert_eq!(compute_swapfile_kb(&mem, &flat, &no_vram), 8_800_000 + 880_000 + 1024);
    // sampled ratio 245760000 / 100000000, plus 2 GiB of VRAM uncompressed
    let z = zswap("lzo", "lzo", "60000", "100000000");
    let vram = VramProbe { smi_output: Some("2048".as_bytes().to_vec()) };
    let compressed = 8_800_000u64 * 100_000_000 / 245_760_000;
    assert_eq!(compressed, 3_580_729);
    assert_eq!(
        compute_swapfile_kb(&mem, &z, &vram),
        compressed + compressed / 10 + 2048 * 1024 + 1024
    );
}

#[test]
fn swapfile_size_saturates() {
    let mem = MemProbe { mem_total: u64::MAX, mem_free: 0, buffers: 0, cached: 0, dirty: 0, s_reclaimable: None };
    let flat = zswap("a", "b", "", "");
    assert_eq!(compute_swapfile_kb(&mem, &flat, &VramProbe { smi_output: None }), u64::MAX);
}

#[test]
fn estimate_grows_with_ram_and_vram_and_covers_overhead() {
    let z = zswap("lzo", "lzo", "60000", "100000000");
    let mut last = 0;
    for (ram_free, vram) in [(15_000_000u64, "0"), (10_000_000, "0"), (10_000_000, "512"), (2_000_000, "4096")] {
        let mem = MemProbe { mem_free: ram_free, ..meminfo() };
        let v = VramProbe { smi_output: Some(vram.as_bytes().to_vec()) };
        let kb = compute_swapfile_kb(&mem, &z, &v);
        assert!(kb >= last);
        assert!(kb >= v.used_kb() + 1024);
        last = kb;
    }
    let empty = MemProbe { mem_total: 0, mem_free: 0, buffers: 0, cached: 0, dirty: 0, s_reclaimable: None };
    assert_eq!(compute_swapfile_kb(&empty, &z, &VramProbe { smi_output: None }), 1024);
}

#[test]
fn estimate_grows_as_the_ratio_gets_worse() {
    let mem = meminfo();
    let none = VramProbe { smi_output: None };
    // 60000 pages of 4096 bytes stored: ratio 3, then ratio 2, then none usable
    let three = compute_swapfile_kb(&mem, &zswap("lzo", "lzo", "60000", "81920000"), &none);
    let two = compute_swapfile_kb(&mem, &zswap("lzo", "lzo", "60000", "122880000"), &none);
    let one = compute_swapfile_kb(&mem, &zswap("lzo", "lz4", "60000", "122880000"), &none);
    assert!(three <= two && two <= one);
    assert!(three < one);
}
