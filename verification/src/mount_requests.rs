//! Requests that change which filesystems are mounted: what they ask for.

use crate::status::Status;
use crate::wire::{get_bytes, reg_bytes};
use vstd::prelude::*;

verus! {

/// Longest path or source that a request carries.
pub const MAX_STR_LEN: u64 = 128;

/// Longest name of a filesystem that a request carries.
pub const MAX_FS_TYPE_LEN: u64 = 16;

/// Longest options that a request carries.
pub const MAX_OPTS_LEN: u64 = 128;

/// Most bytes that a request to mount carries.
pub const MAX_MOUNT_PAYLOAD: u64 = 216;

/// Most bytes that fit behind the first two words of a request.
pub const MAX_TWO_WORD_PAYLOAD: u64 = 240;

/// A request to mount a filesystem.
pub struct MountRequest {
    pub target: Vec<u8>,
    pub fs_type: Vec<u8>,
    pub flags: u32,
    pub opts: Vec<u8>,
}

/// A request to mount a filesystem anew, with other flags and options.
pub struct RemountRequest {
    pub target: Vec<u8>,
    pub flags: u32,
    pub opts: Vec<u8>,
}

/// A request to take a mount away.
pub struct UmountRequest {
    pub target: Vec<u8>,
    pub flags: u32,
}

/// A request to put another filesystem at the root.
pub struct PivotRequest {
    pub new_root: Vec<u8>,
    pub put_old: Vec<u8>,
}

/// `n` bytes that stand `from` bytes behind register `start`.
pub open spec fn part_of(regs: Seq<u64>, start: int, from: int, n: int) -> Seq<u8> {
    reg_bytes(regs, start, from + n).skip(from)
}

/// Reads `n` bytes that stand `from` bytes behind register `start`.
fn copy_payload(regs: &[u64; 32], start: usize, from: usize, n: usize) -> (r: Vec<u8>)
    requires
        start <= 32,
        from + n <= 8 * (32 - start),
    ensures
        r@ == part_of(regs@, start as int, from as int, n as int),
{
    let all = get_bytes(regs, start, from + n);
    let mut out: Vec<u8> = Vec::new();
    let mut i: usize = 0;
    while i < n
        invariant
            i <= n,
            start <= 32,
            from + n <= 8 * (32 - start),
            all@.len() == from + n,
            out@ == all@.skip(from as int).take(i as int),
        decreases n - i,
    {
        out.push(all[from + i]);
        assert(out@ =~= all@.skip(from as int).take(i + 1));
        i = i + 1;
    }
    assert(out@ =~= all@.skip(from as int));
    out
}

/// Lengths of source, target, filesystem and options in a request to mount; the bytes
/// follow behind the fifth word in this order.
pub open spec fn mount_lengths_fit(regs: Seq<u64>) -> bool {
    &&& regs[0] <= MAX_STR_LEN
    &&& regs[1] <= MAX_STR_LEN
    &&& 0 < regs[2] <= MAX_FS_TYPE_LEN
    &&& regs[4] <= MAX_OPTS_LEN
}

/// The bytes that a request to mount carries.
pub open spec fn mount_payload(regs: Seq<u64>) -> int {
    regs[0] + regs[1] + regs[2] + regs[4]
}

/// What a request to mount a filesystem asks for.
pub open spec fn mount_asked(regs: Seq<u64>, r: Result<MountRequest, Status>) -> bool {
    if !mount_lengths_fit(regs) {
        r matches Err(e) && e == Status::InvalidArgument
    } else if mount_payload(regs) > MAX_MOUNT_PAYLOAD {
        r matches Err(e) && e == Status::TooLarge
    } else {
        let source = regs[0] as int;
        let target = regs[1] as int;
        let fs_type = regs[2] as int;
        &&& r matches Ok(q)
        &&& q.target@ == part_of(regs, 5, source, target)
        &&& q.fs_type@ == part_of(regs, 5, source + target, fs_type)
        &&& q.flags == regs[3] as u32
        &&& q.opts@ == part_of(regs, 5, source + target + fs_type, regs[4] as int)
    }
}

/// Reads a request to mount a filesystem. A part that is too long, or no filesystem, is
/// `InvalidArgument`; parts that do not fit together are `TooLarge`.
pub fn handle_vfs_mount(regs: &[u64; 32]) -> (r: Result<MountRequest, Status>)
    ensures
        mount_asked(regs@, r),
{
    if regs[0] > MAX_STR_LEN || regs[1] > MAX_STR_LEN || regs[2] == 0 || regs[2] > MAX_FS_TYPE_LEN
        || regs[4] > MAX_OPTS_LEN {
        return Err(Status::InvalidArgument);
    }
    if regs[0] + regs[1] + regs[2] + regs[4] > MAX_MOUNT_PAYLOAD {
        return Err(Status::TooLarge);
    }
    let source: usize = regs[0] as usize;
    let target: usize = regs[1] as usize;
    let fs_type: usize = regs[2] as usize;
    let opts: usize = regs[4] as usize;
    Ok(
        MountRequest {
            target: copy_payload(regs, 5, source, target),
            fs_type: copy_payload(regs, 5, source + target, fs_type),
            flags: regs[3] as u32,
            opts: copy_payload(regs, 5, source + target + fs_type, opts),
        },
    )
}

/// Lengths in a request to mount anew: there is a target, and the filesystem may be left
/// out.
pub open spec fn remount_lengths_fit(regs: Seq<u64>) -> bool {
    &&& regs[0] <= MAX_STR_LEN
    &&& 0 < regs[1] <= MAX_STR_LEN
    &&& regs[2] <= MAX_FS_TYPE_LEN
    &&& regs[4] <= MAX_OPTS_LEN
}

/// What a request to mount a filesystem anew asks for.
pub open spec fn remount_asked(regs: Seq<u64>, r: Result<RemountRequest, Status>) -> bool {
    if !remount_lengths_fit(regs) {
        r matches Err(e) && e == Status::InvalidArgument
    } else if mount_payload(regs) > MAX_MOUNT_PAYLOAD {
        r matches Err(e) && e == Status::TooLarge
    } else {
        let source = regs[0] as int;
        let target = regs[1] as int;
        &&& r matches Ok(q)
        &&& q.target@ == part_of(regs, 5, source, target)
        &&& q.flags == regs[3] as u32
        &&& q.opts@ == part_of(regs, 5, source + target + regs[2], regs[4] as int)
    }
}

/// Reads a request to mount a filesystem anew. A part that is too long, or no target, is
/// `InvalidArgument`; parts that do not fit together are `TooLarge`.
pub fn handle_vfs_remount(regs: &[u64; 32]) -> (r: Result<RemountRequest, Status>)
    ensures
        remount_asked(regs@, r),
{
    if regs[1] == 0 || regs[1] > MAX_STR_LEN || regs[0] > MAX_STR_LEN || regs[2] > MAX_FS_TYPE_LEN
        || regs[4] > MAX_OPTS_LEN {
        return Err(Status::InvalidArgument);
    }
    if regs[0] + regs[1] + regs[2] + regs[4] > MAX_MOUNT_PAYLOAD {
        return Err(Status::TooLarge);
    }
    let source: usize = regs[0] as usize;
    let target: usize = regs[1] as usize;
    let fs_type: usize = regs[2] as usize;
    let opts: usize = regs[4] as usize;
    Ok(
        RemountRequest {
            target: copy_payload(regs, 5, source, target),
            flags: regs[3] as u32,
            opts: copy_payload(regs, 5, source + target + fs_type, opts),
        },
    )
}

/// What a request to take a mount away asks for.
pub open spec fn umount_asked(regs: Seq<u64>, r: Result<UmountRequest, Status>) -> bool {
    if regs[0] == 0 || regs[0] > MAX_STR_LEN {
        r matches Err(e) && e == Status::InvalidArgument
    } else {
        &&& r matches Ok(q)
        &&& q.target@ == part_of(regs, 2, 0, regs[0] as int)
        &&& q.flags == regs[1] as u32
    }
}

/// Reads a request to take a mount away. No target, or one that is too long, is
/// `InvalidArgument`.
pub fn handle_vfs_umount(regs: &[u64; 32]) -> (r: Result<UmountRequest, Status>)
    ensures
        umount_asked(regs@, r),
{
    if regs[0] == 0 || regs[0] > MAX_STR_LEN {
        return Err(Status::InvalidArgument);
    }
    Ok(
        UmountRequest {
            target: copy_payload(regs, 2, 0, regs[0] as usize),
            flags: regs[1] as u32,
        },
    )
}

/// Both paths of a request to change the root are there, neither is too long, and the
/// registers hold both.
pub open spec fn pivot_lengths_fit(regs: Seq<u64>) -> bool {
    &&& 0 < regs[0] <= MAX_STR_LEN
    &&& 0 < regs[1] <= MAX_STR_LEN
    &&& regs[0] + regs[1] <= MAX_TWO_WORD_PAYLOAD
}

/// What a request to change the root asks for.
pub open spec fn pivot_asked(regs: Seq<u64>, r: Result<PivotRequest, Status>) -> bool {
    if !pivot_lengths_fit(regs) {
        r matches Err(e) && e == Status::InvalidArgument
    } else {
        &&& r matches Ok(q)
        &&& q.new_root@ == part_of(regs, 2, 0, regs[0] as int)
        &&& q.put_old@ == part_of(regs, 2, regs[0] as int, regs[1] as int)
    }
}

/// Reads a request to change the root. A path that is empty or too long is
/// `InvalidArgument`, and so are two paths that the registers cannot hold.
pub fn handle_vfs_pivot_root(regs: &[u64; 32]) -> (r: Result<PivotRequest, Status>)
    ensures
        pivot_asked(regs@, r),
{
    if regs[0] == 0 || regs[0] > MAX_STR_LEN || regs[1] == 0 || regs[1] > MAX_STR_LEN {
        return Err(Status::InvalidArgument);
    }
    if regs[0] + regs[1] > MAX_TWO_WORD_PAYLOAD {
        return Err(Status::InvalidArgument);
    }
    let new_root: usize = regs[0] as usize;
    let put_old: usize = regs[1] as usize;
    Ok(
        PivotRequest {
            new_root: copy_payload(regs, 2, 0, new_root),
            put_old: copy_payload(regs, 2, new_root, put_old),
        },
    )
}

} // verus!
