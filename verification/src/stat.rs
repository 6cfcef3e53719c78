//! The ABI struct translator: re-packs a host-native `stat` result into
//! the exact field layout, widths and padding the guest C runtime
//! expects, and writes it byte for byte into guest memory.

use vstd::prelude::*;
use crate::bytes::{push_le32, push_le64, spec_le32, spec_le64};
use crate::instance::Instance;
use crate::memory::write_to_buf;

verus! {

/// A host-native file-status result, held as plain values: exactly the
/// fields the translation reads. Hosts that report no block count hand
/// over `st_blocks == 0`; `st_blksize` is carried but deliberately
/// ignored, since guests assume a fixed block size.
#[derive(Clone, Copy, Debug)]
pub struct HostStat {
    pub st_dev: u64,
    pub st_ino: u64,
    pub st_mode: u32,
    pub st_nlink: u64,
    pub st_uid: u32,
    pub st_gid: u32,
    pub st_rdev: u64,
    pub st_size: i64,
    pub st_blksize: i64,
    pub st_blocks: i64,
    pub st_atime: i64,
    pub st_mtime: i64,
    pub st_ctime: i64,
}

/// The guest ABI's view of a POSIX `stat` result: field order, widths
/// and explicit padding exactly as guest binaries were compiled to
/// expect. Serialized little-endian, field after field, with no implicit
/// padding anywhere.
#[derive(Clone, Copy, Debug, PartialEq, Eq, Structural)]
pub struct GuestStat {
    pub st_dev: u32,
    pub __st_dev_padding: u32,
    pub __st_ino_truncated: u32,
    pub st_mode: u32,
    pub st_nlink: u32,
    pub st_uid: u32,
    pub st_gid: u32,
    pub st_rdev: u32,
    pub __st_rdev_padding: u32,
    pub st_size: u32,
    pub st_blksize: u32,
    pub st_blocks: u32,
    pub st_atime: u64,
    pub st_mtime: u64,
    pub st_ctime: u64,
    pub st_ino: u64,
}

/// The serialized size of a `GuestStat`: twelve 32-bit fields followed by
/// four 64-bit fields.
pub const GUEST_STAT_SIZE: usize = 80;

/// The fixed block size every guest assumes, whatever the host reports.
pub const GUEST_BLOCK_SIZE: u32 = 4096;

/// The low 32 bits of `x`: narrowing a 64-bit host field to a 32-bit
/// guest field keeps `x` modulo 2^32.
pub open spec fn lo32(x: u64) -> u32 {
    (x % 0x1_0000_0000) as u32
}

/// `x` reinterpreted as unsigned, two's complement: `x` itself when
/// non-negative, `x + 2^64` otherwise.
pub open spec fn wrap_u64(x: i64) -> u64 {
    if x >= 0 {
        x as u64
    } else {
        (x + 0x1_0000_0000_0000_0000) as u64
    }
}

/// The low 32 bits of a signed 64-bit host field.
pub open spec fn lo32_of_i64(x: i64) -> u32 {
    lo32(wrap_u64(x))
}

/// The `GuestStat` that a host stat translates to, field by field:
/// 64-bit identifiers narrowed to their low 32 bits, the inode value
/// kept both truncated and in full, timestamps widened to 64 bits, and
/// the block size pinned to the fixed constant guests assume.
pub open spec fn guest_stat_of(host: HostStat) -> GuestStat {
    GuestStat {
        st_dev: lo32(host.st_dev),
        __st_dev_padding: 0,
        __st_ino_truncated: lo32(host.st_ino),
        st_mode: host.st_mode,
        st_nlink: lo32(host.st_nlink),
        st_uid: host.st_uid,
        st_gid: host.st_gid,
        st_rdev: lo32(host.st_rdev),
        __st_rdev_padding: 0,
        st_size: lo32_of_i64(host.st_size),
        st_blksize: GUEST_BLOCK_SIZE,
        st_blocks: lo32_of_i64(host.st_blocks),
        st_atime: wrap_u64(host.st_atime),
        st_mtime: wrap_u64(host.st_mtime),
        st_ctime: wrap_u64(host.st_ctime),
        st_ino: host.st_ino,
    }
}

/// The byte-exact serialized form of a `GuestStat`: every field at its
/// documented offset, little-endian, with the two explicit padding
/// fields and no gaps.
pub open spec fn guest_stat_bytes(g: GuestStat) -> Seq<u8> {
    spec_le32(g.st_dev) + spec_le32(g.__st_dev_padding) + spec_le32(g.__st_ino_truncated)
        + spec_le32(g.st_mode) + spec_le32(g.st_nlink) + spec_le32(g.st_uid) + spec_le32(g.st_gid)
        + spec_le32(g.st_rdev) + spec_le32(g.__st_rdev_padding) + spec_le32(g.st_size)
        + spec_le32(g.st_blksize) + spec_le32(g.st_blocks) + spec_le64(g.st_atime) + spec_le64(
        g.st_mtime,
    ) + spec_le64(g.st_ctime) + spec_le64(g.st_ino)
}

/// Law: whatever block size the host reports, the translated record
/// carries the fixed block size guests assume.
pub proof fn lemma_block_size_fixed(host: HostStat)
    ensures
        guest_stat_of(host).st_blksize == GUEST_BLOCK_SIZE,
{
}

/// Law: the translated record serves both inode conventions at once —
/// the tail `st_ino` field keeps the host's 64-bit inode value exactly,
/// and the truncated field keeps it modulo 2^32.
pub proof fn lemma_inode_both_conventions(host: HostStat)
    ensures
        guest_stat_of(host).st_ino == host.st_ino,
        guest_stat_of(host).__st_ino_truncated == host.st_ino % 0x1_0000_0000,
{
}

fn truncate_low_u32(x: u64) -> (r: u32)
    ensures
        r == lo32(x),
{
    (x % 0x1_0000_0000u64) as u32
}

fn reinterpret_u64(x: i64) -> (r: u64)
    ensures
        r == wrap_u64(x),
{
    if x >= 0 {
        x as u64
    } else {
        let magnitude: u64 = (-(x + 1)) as u64;
        u64::MAX - magnitude
    }
}

fn truncate_low_u32_of_i64(x: i64) -> (r: u32)
    ensures
        r == lo32_of_i64(x),
{
    truncate_low_u32(reinterpret_u64(x))
}

impl GuestStat {
    /// Translates a host stat into the guest's field widths and order:
    /// the explicit padding fields are zero, the block size is the fixed
    /// constant, the inode is stored both truncated and in full, and the
    /// timestamps are widened.
    pub fn of_host(host: &HostStat) -> (g: GuestStat)
        ensures
            g == guest_stat_of(*host),
    {
        GuestStat {
            st_dev: truncate_low_u32(host.st_dev),
            __st_dev_padding: 0,
            __st_ino_truncated: truncate_low_u32(host.st_ino),
            st_mode: host.st_mode,
            st_nlink: truncate_low_u32(host.st_nlink),
            st_uid: host.st_uid,
            st_gid: host.st_gid,
            st_rdev: truncate_low_u32(host.st_rdev),
            __st_rdev_padding: 0,
            st_size: truncate_low_u32_of_i64(host.st_size),
            st_blksize: GUEST_BLOCK_SIZE,
            st_blocks: truncate_low_u32_of_i64(host.st_blocks),
            st_atime: reinterpret_u64(host.st_atime),
            st_mtime: reinterpret_u64(host.st_mtime),
            st_ctime: reinterpret_u64(host.st_ctime),
            st_ino: host.st_ino,
        }
    }

    /// Serializes the record into its byte-exact guest layout.
    #[verifier::rlimit(100)]
    pub fn serialize(&self) -> (v: Vec<u8>)
        ensures
            v@ == guest_stat_bytes(*self),
            v@.len() == GUEST_STAT_SIZE,
    {
        let mut v: Vec<u8> = Vec::new();
        push_le32(&mut v, self.st_dev);
        push_le32(&mut v, self.__st_dev_padding);
        push_le32(&mut v, self.__st_ino_truncated);
        push_le32(&mut v, self.st_mode);
        push_le32(&mut v, self.st_nlink);
        push_le32(&mut v, self.st_uid);
        push_le32(&mut v, self.st_gid);
        push_le32(&mut v, self.st_rdev);
        push_le32(&mut v, self.__st_rdev_padding);
        push_le32(&mut v, self.st_size);
        push_le32(&mut v, self.st_blksize);
        push_le32(&mut v, self.st_blocks);
        push_le64(&mut v, self.st_atime);
        push_le64(&mut v, self.st_mtime);
        push_le64(&mut v, self.st_ctime);
        push_le64(&mut v, self.st_ino);
        assert(v@ =~= guest_stat_bytes(*self));
        v
    }
}

/// Renders a host-native stat result into the `GuestStat` layout at
/// offset `buf` in guest memory 0: all `GUEST_STAT_SIZE` bytes are
/// written in one call, and no byte outside that range changes. The
/// caller guarantees the destination range lies within the memory's
/// bounds.
pub fn copy_stat_into_wasm<R>(instance: &mut Instance<R>, buf: u32, stat: &HostStat)
    requires
        buf as int + GUEST_STAT_SIZE as int <= old(instance).memory@.len(),
    ensures
        final(instance).memory@.len() == old(instance).memory@.len(),
        final(instance).emscripten_data == old(instance).emscripten_data,
        final(instance).memory@.subrange(buf as int, buf as int + GUEST_STAT_SIZE as int)
            == guest_stat_bytes(guest_stat_of(*stat)),
        forall|i: int|
            0 <= i < old(instance).memory@.len() && !(buf as int <= i < buf as int
                + GUEST_STAT_SIZE as int) ==> final(instance).memory@[i]
                == old(instance).memory@[i],
{
    let guest = GuestStat::of_host(stat);
    let bytes = guest.serialize();
    write_to_buf(bytes.as_slice(), buf, GUEST_STAT_SIZE as u32, instance);
    assert(instance.memory@.subrange(buf as int, buf as int + GUEST_STAT_SIZE as int)
        =~= guest_stat_bytes(guest_stat_of(*stat)));
}

} // verus!
