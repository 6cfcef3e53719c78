//! The ABI struct translator: field mapping and byte-exact layout.

use emscripten_marshal::instance::Instance;
use emscripten_marshal::stat::{
    copy_stat_into_wasm, GuestStat, HostStat, GUEST_STAT_SIZE,
};

/// A runtime type for instances whose allocator is never consulted.
enum NoRuntime {}

impl emscripten_marshal::instance::EmscriptenRuntime for NoRuntime {
    fn malloc(&mut self, _byte_count: u32) -> u32 {
        match *self {}
    }

    fn stack_alloc(&mut self, _byte_count: u32) -> u32 {
        match *self {}
    }
}

fn sample_host_stat() -> HostStat {
    HostStat {
        st_dev: 0x1_0000_0007,
        st_ino: 0x1234_5678_9ABC_DEF0,
        st_mode: 0o100644,
        st_nlink: 0x2_0000_0003,
        st_uid: 1000,
        st_gid: 1001,
        st_rdev: 0x5_0000_0009,
        st_size: 0,
        st_blksize: 65536,
        st_blocks: 8,
        st_atime: 1_600_000_000,
        st_mtime: 1_600_000_001,
        st_ctime: -1,
    }
}

#[test]
fn blksize_is_fixed_regardless_of_host_fields() {
    let guest = GuestStat::of_host(&sample_host_stat());
    assert_eq!(guest.st_blksize, 4096);
}

#[test]
fn inode_is_kept_in_both_conventions() {
    let guest = GuestStat::of_host(&sample_host_stat());
    assert_eq!(guest.st_ino, 0x1234_5678_9ABC_DEF0);
    assert_eq!(guest.__st_ino_truncated, 0x9ABC_DEF0);
}

#[test]
fn wide_fields_are_narrowed_and_padding_is_zero() {
    let guest = GuestStat::of_host(&sample_host_stat());
    assert_eq!(guest.st_dev, 7);
    assert_eq!(guest.__st_dev_padding, 0);
    assert_eq!(guest.st_nlink, 3);
    assert_eq!(guest.st_rdev, 9);
    assert_eq!(guest.__st_rdev_padding, 0);
    assert_eq!(guest.st_mode, 0o100644);
    assert_eq!(guest.st_uid, 1000);
    assert_eq!(guest.st_gid, 1001);
    assert_eq!(guest.st_size, 0);
    assert_eq!(guest.st_blocks, 8);
}

#[test]
fn timestamps_are_widened_twos_complement() {
    let guest = GuestStat::of_host(&sample_host_stat());
    assert_eq!(guest.st_atime, 1_600_000_000);
    assert_eq!(guest.st_mtime, 1_600_000_001);
    // a pre-1970 timestamp keeps its two's complement bit pattern
    assert_eq!(guest.st_ctime, u64::MAX);
}

#[test]
fn negative_size_truncates_to_low_bits() {
    let mut host = sample_host_stat();
    host.st_size = -1;
    let guest = GuestStat::of_host(&host);
    assert_eq!(guest.st_size, 0xFFFF_FFFF);
}

#[test]
fn serialized_layout_puts_every_field_at_its_offset() {
    let guest = GuestStat::of_host(&sample_host_stat());
    let bytes = guest.serialize();
    assert_eq!(bytes.len(), GUEST_STAT_SIZE);
    assert_eq!(&bytes[0..4], &7u32.to_le_bytes());
    assert_eq!(&bytes[4..8], &[0, 0, 0, 0]);
    assert_eq!(&bytes[8..12], &0x9ABC_DEF0u32.to_le_bytes());
    assert_eq!(&bytes[12..16], &0o100644u32.to_le_bytes());
    assert_eq!(&bytes[16..20], &3u32.to_le_bytes());
    assert_eq!(&bytes[20..24], &1000u32.to_le_bytes());
    assert_eq!(&bytes[24..28], &1001u32.to_le_bytes());
    assert_eq!(&bytes[28..32], &9u32.to_le_bytes());
    assert_eq!(&bytes[32..36], &[0, 0, 0, 0]);
    assert_eq!(&bytes[36..40], &0u32.to_le_bytes());
    assert_eq!(&bytes[40..44], &4096u32.to_le_bytes());
    assert_eq!(&bytes[44..48], &8u32.to_le_bytes());
    assert_eq!(&bytes[48..56], &1_600_000_000u64.to_le_bytes());
    assert_eq!(&bytes[56..64], &1_600_000_001u64.to_le_bytes());
    assert_eq!(&bytes[64..72], &u64::MAX.to_le_bytes());
    assert_eq!(&bytes[72..80], &0x1234_5678_9ABC_DEF0u64.to_le_bytes());
}

#[test]
fn copy_stat_writes_at_offset_and_nowhere_else() {
    let mut instance: Instance<NoRuntime> = Instance {
        memory: vec![0x55; 100],
        emscripten_data: None,
    };
    copy_stat_into_wasm(&mut instance, 10, &sample_host_stat());
    // untouched on both sides of the record
    assert!(instance.memory[..10].iter().all(|&b| b == 0x55));
    assert!(instance.memory[10 + GUEST_STAT_SIZE..].iter().all(|&b| b == 0x55));
    // spot checks inside the record, shifted by the offset
    assert_eq!(&instance.memory[10..14], &7u32.to_le_bytes());
    assert_eq!(&instance.memory[50..54], &4096u32.to_le_bytes());
    assert_eq!(&instance.memory[82..90], &0x1234_5678_9ABC_DEF0u64.to_le_bytes());
}
