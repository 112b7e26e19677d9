//! Numbers of filesystems: how large they are, how much is free, and which are mounted.

use crate::arena::Handle;
use crate::backend_rpc::{Progress, RpcCore};
use crate::bytes::{copy_prefix, prefix, SLASH};
use crate::continuation::{adopt_deferred_op_for_continuation, op_adopted, Adoption};
use crate::fs::proc_rpc::is_bare;
use crate::fs::records::{TmpNodeView, TmpfsMountData, TmpfsNode};
use crate::fs::tmpfs::{
    find_mount_data_handle, floored_diff, parse_mount_opts, stated_opts, TMPFS_NAME_MAX,
    TMPFS_REMOUNT_FLAG_MASK,
};
use crate::mount::{MountView, MNT_CASEFOLD, MNT_RDONLY};
use crate::namei::{lookup_path_dynamic_absolute, plain_mode, walk_settled};
use crate::namei_state::{namei_aux_statvfs, NameiResumeAux, StatvfsContBody};
use crate::path::is_absolute;
use crate::pending_ops::{PendingOpId, PO_KIND_STATVFS_CONT};
use crate::state::{VfsModel, VfsState, MM_PAGE_SIZE};
use crate::status::Status;
use crate::vnode::Backend;
use crate::wire::{get_bytes, reg_bytes, Reply, SysMemInfo};
use vstd::prelude::*;

verus! {

/// Numbers of a filesystem.
#[derive(Clone, Copy, PartialEq, Eq, Structural, Debug)]
pub struct StatfsSnapshot {
    pub f_bsize: u64,
    pub f_frsize: u64,
    pub f_blocks: u64,
    pub f_bfree: u64,
    pub f_bavail: u64,
    pub f_files: u64,
    pub f_ffree: u64,
    pub f_favail: u64,
    pub f_fsid: u64,
    pub f_flag: u64,
    pub f_namemax: u64,
}

impl StatfsSnapshot {
    /// Numbers of nothing.
    #[verifier::allow_in_spec]
    pub fn zeroed() -> (r: StatfsSnapshot)
        returns
            (StatfsSnapshot {
                f_bsize: 0,
                f_frsize: 0,
                f_blocks: 0,
                f_bfree: 0,
                f_bavail: 0,
                f_files: 0,
                f_ffree: 0,
                f_favail: 0,
                f_fsid: 0,
                f_flag: 0,
                f_namemax: 0,
            }),
    {
        StatfsSnapshot {
            f_bsize: 0,
            f_frsize: 0,
            f_blocks: 0,
            f_bfree: 0,
            f_bavail: 0,
            f_files: 0,
            f_ffree: 0,
            f_favail: 0,
            f_fsid: 0,
            f_flag: 0,
            f_namemax: 0,
        }
    }
}

/// Which nodes of mount `mount` are mapped by someone.
pub open spec fn mapped_on(mount: Handle) -> spec_fn(Handle, TmpNodeView) -> bool {
    |h: Handle, n: TmpNodeView| n.owner_mount == mount && n.mmap_export_refs > 0
}

impl VfsModel {
    /// Numbers of a mount of the in-memory filesystem. A mount without a limit shows what
    /// the machine has, as far as `mem` tells.
    pub open spec fn tmp_numbers(self, mount: Handle, mem: Option<SysMemInfo>) -> Result<
        StatfsSnapshot,
        Status,
    > {
        match self.tmp_data(mount) {
            None => Err(Status::InvalidOperation),
            Some(h) => {
                let d = self.tmpfs_mounts.at(h);
                let (blocks, bfree) = if d.max_bytes != 0 {
                    (
                        d.max_bytes / MM_PAGE_SIZE,
                        floored_diff(d.max_bytes, d.accounted_bytes) / MM_PAGE_SIZE,
                    )
                } else {
                    match mem {
                        Some(i) => (i.pages_total, i.pages_free),
                        None => (0u64, 0u64),
                    }
                };
                let (files, ffree) = if d.max_inodes != 0 {
                    (d.max_inodes, floored_diff(d.max_inodes, d.used_inodes))
                } else {
                    (
                        self.tmpfs_nodes.limit as u64,
                        floored_diff(self.tmpfs_nodes.limit as u64, self.tmpfs_nodes.count() as u64),
                    )
                };
                Ok(
                    StatfsSnapshot {
                        f_bsize: MM_PAGE_SIZE,
                        f_frsize: MM_PAGE_SIZE,
                        f_blocks: blocks,
                        f_bfree: bfree,
                        f_bavail: bfree,
                        f_files: files,
                        f_ffree: ffree,
                        f_favail: ffree,
                        f_fsid: d.fs_instance_id.0,
                        f_flag: self.flags_of(mount) as u64,
                        f_namemax: TMPFS_NAME_MAX as u64,
                    },
                )
            },
        }
    }

    /// Why a mount of the in-memory filesystem cannot be remounted.
    pub open spec fn tmp_remount_refusal(self, mount: Handle, new_flags: u32) -> Option<Status> {
        let flags = self.flags_of(mount);
        if (flags ^ new_flags) & !TMPFS_REMOUNT_FLAG_MASK != 0 {
            Some(Status::InvalidOperation)
        } else if flags & MNT_RDONLY == 0 && new_flags & MNT_RDONLY != 0
            && self.tmpfs_nodes.first(mapped_on(mount)) is Some {
            Some(Status::Busy)
        } else if self.tmp_data(mount) is None {
            Some(Status::InvalidOperation)
        } else {
            None
        }
    }

    /// The state after a mount of the in-memory filesystem was remounted: limits that are
    /// not named stay.
    pub open spec fn tmp_remounted(self, mount: Handle, new_flags: u32, opts: Seq<u8>) -> VfsModel {
        let h = self.tmp_data(mount).unwrap();
        let d = self.tmpfs_mounts.at(h);
        let o = stated_opts(opts);
        VfsModel {
            tmpfs_mounts: self.tmpfs_mounts.put(
                h,
                TmpfsMountData {
                    max_bytes: match o.max_bytes {
                        Some(v) => v,
                        None => d.max_bytes,
                    },
                    max_inodes: match o.max_inodes {
                        Some(v) => v,
                        None => d.max_inodes,
                    },
                    casefold: o.casefold == Some(true) || new_flags & MNT_CASEFOLD != 0,
                    ..d
                },
            ),
            ..self
        }
    }
}

/// Numbers of a mount of the in-memory filesystem.
pub fn tmpfs_statfs(state: &VfsState, mount: Handle, mem: Option<SysMemInfo>) -> (r: Result<
    StatfsSnapshot,
    Status,
>)
    ensures
        r == state@.tmp_numbers(mount, mem),
{
    let h: Handle = match find_mount_data_handle(state, mount) {
        Some(h) => h,
        None => {
            return Err(Status::InvalidOperation);
        },
    };
    let d: TmpfsMountData = match state.tmpfs_mounts.get(h) {
        Some(d) => *d,
        None => {
            return Err(Status::InvalidOperation);
        },
    };
    let mut s = StatfsSnapshot::zeroed();
    s.f_bsize = MM_PAGE_SIZE;
    s.f_frsize = MM_PAGE_SIZE;
    s.f_namemax = TMPFS_NAME_MAX as u64;
    s.f_fsid = d.fs_instance_id.0;
    s.f_flag = match state.mounts.get(mount) {
        Some(mt) => mt.flags as u64,
        None => 0,
    };
    if d.max_bytes != 0 {
        s.f_blocks = d.max_bytes / MM_PAGE_SIZE;
        s.f_bfree = d.max_bytes.saturating_sub(d.accounted_bytes) / MM_PAGE_SIZE;
    } else if let Some(i) = mem {
        s.f_blocks = i.pages_total;
        s.f_bfree = i.pages_free;
    }
    s.f_bavail = s.f_bfree;
    if d.max_inodes != 0 {
        s.f_files = d.max_inodes;
        s.f_ffree = d.max_inodes.saturating_sub(d.used_inodes);
    } else {
        let cap: u64 = state.tmpfs_nodes.limit() as u64;
        s.f_files = cap;
        s.f_ffree = cap.saturating_sub(state.tmpfs_nodes.len() as u64);
    }
    s.f_favail = s.f_ffree;
    Ok(s)
}

/// Remounts a mount of the in-memory filesystem. It does not become read-only while someone
/// has a file of it mapped.
pub fn tmpfs_remount(state: &mut VfsState, mount: Handle, new_flags: u32, opts: &[u8]) -> (r: Status)
    ensures
        match old(state)@.tmp_remount_refusal(mount, new_flags) {
            Some(e) => r == e && final(state)@ == old(state)@,
            None => r == Status::Success && final(state)@ == old(state)@.tmp_remounted(
                mount,
                new_flags,
                opts@,
            ),
        },
{
    let flags: u32 = match state.mounts.get(mount) {
        Some(mt) => mt.flags,
        None => 0,
    };
    if (flags ^ new_flags) & !TMPFS_REMOUNT_FLAG_MASK != 0 {
        return Status::InvalidOperation;
    }
    if flags & MNT_RDONLY == 0 && new_flags & MNT_RDONLY != 0 {
        let mapped = state.tmpfs_nodes.find(
            |h: Handle, n: &TmpfsNode| -> (b: bool) ensures b == (n@.owner_mount == mount && n@.mmap_export_refs > 0) { n.owner_mount == mount && n.mmap_export_refs > 0 },
            Ghost(mapped_on(mount)),
        );
        if mapped.is_some() {
            return Status::Busy;
        }
    }
    let parsed = parse_mount_opts(opts);
    let h: Handle = match find_mount_data_handle(state, mount) {
        Some(h) => h,
        None => {
            return Status::InvalidOperation;
        },
    };
    if let Some(d) = state.tmpfs_mounts.get_mut(h) {
        if let Some(v) = parsed.max_bytes {
            d.max_bytes = v;
        }
        if let Some(v) = parsed.max_inodes {
            d.max_inodes = v;
        }
        let token: bool = match parsed.casefold {
            Some(b) => b,
            None => false,
        };
        d.casefold = token || new_flags & MNT_CASEFOLD != 0;
    }
    Status::Success
}

// ---- requests ----------------------------------------------------------------------

impl VfsModel {
    /// Numbers of the filesystem that mount `mount` is of. Only the in-memory filesystem
    /// has any.
    pub open spec fn mount_numbers(self, mount: Handle, mem: Option<SysMemInfo>) -> Result<
        StatfsSnapshot,
        Status,
    > {
        match self.mounts.entry(mount) {
            Some(mt) => if mt.vfsops == Some(Backend::Tmpfs) {
                self.tmp_numbers(mount, mem)
            } else {
                Err(Status::NotSupported)
            },
            None => Err(Status::NotSupported),
        }
    }

    /// Numbers of the filesystem that vnode `v` is on.
    pub open spec fn vnode_numbers(self, v: Handle, mem: Option<SysMemInfo>) -> Result<
        StatfsSnapshot,
        Status,
    > {
        match self.vnodes.entry(v) {
            None => Err(Status::NotFound),
            Some(vn) => if vn.mount.handle.is_valid() {
                self.mount_numbers(vn.mount.handle, mem)
            } else {
                Err(Status::InvalidOperation)
            },
        }
    }

    /// Numbers of the filesystem that descriptor `fd` of the client of `who` is on.
    pub open spec fn file_numbers(self, who: u64, fd: u64, mem: Option<SysMemInfo>) -> Result<
        StatfsSnapshot,
        Status,
    > {
        match self.client_of_badge(who) {
            Some(c) => match self.file_of(c, fd as int) {
                Some(f) if fd <= usize::MAX => self.vnode_numbers(f.vnode, mem),
                _ => Err(Status::InvalidArgument),
            },
            None => Err(Status::InvalidArgument),
        }
    }
}

/// Numbers of the filesystem that a mount is of.
pub fn run_backend_statfs(state: &VfsState, mount: Handle, mem: Option<SysMemInfo>) -> (r: Result<
    StatfsSnapshot,
    Status,
>)
    ensures
        r == state@.mount_numbers(mount, mem),
{
    let ours: bool = match state.mounts.get(mount) {
        Some(mt) => matches!(mt.vfsops, Some(Backend::Tmpfs)),
        None => false,
    };
    if ours {
        tmpfs_statfs(state, mount, mem)
    } else {
        Err(Status::NotSupported)
    }
}

/// The numbers in the order in which a reply carries them.
pub open spec fn in_order(s: StatfsSnapshot) -> Seq<u64> {
    seq![
        s.f_bsize,
        s.f_frsize,
        s.f_blocks,
        s.f_bfree,
        s.f_bavail,
        s.f_files,
        s.f_ffree,
        s.f_favail,
        s.f_fsid,
        s.f_flag,
        s.f_namemax,
    ]
}

/// `r` carries the numbers `s`.
pub open spec fn carries_numbers(r: Reply, s: StatfsSnapshot) -> bool {
    &&& r.label == Status::Success
    &&& r.length == 11
    &&& forall|i: int| 0 <= i < 11 ==> #[trigger] r.regs@[i] == in_order(s)[i]
    &&& forall|i: int| 11 <= i < 32 ==> #[trigger] r.regs@[i] == 0
}

fn write_statfs_reply(s: &StatfsSnapshot) -> (r: Reply)
    ensures
        carries_numbers(r, *s),
{
    let mut r = Reply::bare(Status::Success);
    r.length = 11;
    r.regs[0] = s.f_bsize;
    r.regs[1] = s.f_frsize;
    r.regs[2] = s.f_blocks;
    r.regs[3] = s.f_bfree;
    r.regs[4] = s.f_bavail;
    r.regs[5] = s.f_files;
    r.regs[6] = s.f_ffree;
    r.regs[7] = s.f_favail;
    r.regs[8] = s.f_fsid;
    r.regs[9] = s.f_flag;
    r.regs[10] = s.f_namemax;
    r
}

/// The answer to the question for the numbers that `n` are.
pub open spec fn statfs_answer(n: Result<StatfsSnapshot, Status>, r: Reply) -> bool {
    match n {
        Ok(s) => carries_numbers(r, s),
        Err(e) => is_bare(r, e),
    }
}

/// Answers with the numbers of the filesystem that a vnode is on.
pub fn emit_statfs_for_vnode(state: &VfsState, vnode: Handle, mem: Option<SysMemInfo>) -> (r: Reply)
    ensures
        statfs_answer(state@.vnode_numbers(vnode, mem), r),
{
    let mount: Handle = match state.vnodes.get(vnode) {
        Some(vn) => vn.mount.handle,
        None => {
            return Reply::bare(Status::NotFound);
        },
    };
    if !mount.is_valid() {
        return Reply::bare(Status::InvalidOperation);
    }
    match run_backend_statfs(state, mount, mem) {
        Ok(s) => write_statfs_reply(&s),
        Err(e) => Reply::bare(e),
    }
}

/// Answers with the numbers of the filesystem that an open file of a client is on. A
/// request that names another client, in its second word, is about that one.
pub fn handle_vfs_fstatfs(
    state: &VfsState,
    badge: u64,
    length: u64,
    fd: u64,
    other: u64,
    mem: Option<SysMemInfo>,
) -> (r: Reply)
    ensures
        statfs_answer(
            state@.file_numbers(
                if length >= 2 && other != 0 {
                    other
                } else {
                    badge
                },
                fd,
                mem,
            ),
            r,
        ),
{
    let who: u64 = if length >= 2 && other != 0 {
        other
    } else {
        badge
    };
    let client: Handle = match state.lookup_client(who) {
        Some(c) => c,
        None => {
            return Reply::bare(Status::InvalidArgument);
        },
    };
    if fd > usize::MAX as u64 {
        return Reply::bare(Status::InvalidArgument);
    }
    match state.client_open_file(client, fd as usize) {
        Some(f) => emit_statfs_for_vnode(state, f.vnode, mem),
        None => Reply::bare(Status::InvalidArgument),
    }
}

/// Longest path that the question can carry.
pub const MAX_STATFS_PATH: u64 = 248;

/// What became of the question for the numbers of the filesystem that a path leads to.
pub enum StatfsStart {
    /// The caller is answered.
    Reply(Reply),
    /// The caller's kept reply is released and the caller answered.
    ReleaseAndReply { release: Option<u64>, label: Status },
    /// The disk server is asked first, and this worker is to be woken.
    Deferred { worker: usize },
}

/// The client of a badge, or no client.
pub open spec fn client_or_none(m: VfsModel, badge: u64) -> Handle {
    match m.client_of_badge(badge) {
        Some(c) => c,
        None => Handle::invalid(),
    }
}

/// What is made of the walk `x` to the file whose filesystem is asked for.
pub open spec fn statfs_walked(
    m: VfsModel,
    mid: &RpcCore,
    post: &RpcCore,
    badge: u64,
    path: Seq<u8>,
    reply_slot: Option<u64>,
    mem: Option<SysMemInfo>,
    x: Result<Progress<Option<Handle>>, Status>,
    r: StatfsStart,
) -> bool {
    match x {
        Ok(Progress::Complete(Some(v))) => {
            &&& r matches StatfsStart::Reply(a) && statfs_answer(m.vnode_numbers(v, mem), a)
            &&& *post == *mid
        },
        Ok(Progress::Complete(None)) => {
            &&& r matches StatfsStart::Reply(a) && is_bare(a, Status::NotFound)
            &&& *post == *mid
        },
        Err(e) => r matches StatfsStart::Reply(a) && is_bare(a, e) && *post == *mid,
        Ok(Progress::Deferred { op, worker }) => {
            &&& RpcCore::queue_unchanged(mid, post)
            &&& exists|a: Adoption| #[trigger]
                op_adopted(
                    mid.pool@,
                    post.pool@,
                    op,
                    PO_KIND_STATVFS_CONT,
                    badge,
                    client_or_none(m, badge),
                    reply_slot,
                    path,
                    NameiResumeAux::Statvfs(StatvfsContBody {  }),
                    a,
                ) && match a {
                    Adoption::Adopted => r == (StatfsStart::Deferred { worker }),
                    Adoption::Refused(release) => r == (StatfsStart::ReleaseAndReply {
                        release,
                        label: Status::OutOfMemory,
                    }),
                }
        },
    }
}

/// What becomes of the question for the numbers of the filesystem that a path leads to:
/// the path is absolute and as long as the first word says.
pub open spec fn statfs_asked(
    m: VfsModel,
    pre: &RpcCore,
    post: &RpcCore,
    badge: u64,
    regs: Seq<u64>,
    reply_slot: Option<u64>,
    mem: Option<SysMemInfo>,
    r: StatfsStart,
) -> bool {
    let path = reg_bytes(regs, 1, regs[0] as int);
    if regs[0] == 0 || regs[0] > MAX_STATFS_PATH || !is_absolute(path) {
        &&& r matches StatfsStart::Reply(a) && is_bare(a, Status::InvalidArgument)
        &&& *post == *pre
    } else {
        exists|mid: RpcCore, x: Result<Progress<Option<Handle>>, Status>|
            #![trigger statfs_walked(m, &mid, post, badge, path, reply_slot, mem, x, r)]
            walk_settled(
                m,
                pre,
                &mid,
                x,
                m.walk_path(path, 0, plain_mode(true)),
                plain_mode(true),
            ) && statfs_walked(m, &mid, post, badge, path, reply_slot, mem, x, r)
    }
}

/// Hands a walk that waits for the disk server over to the question that it is for.
fn statfs_continuation_adopt(
    state: &VfsState,
    rpc: &mut RpcCore,
    badge: u64,
    op: PendingOpId,
    path: &[u8],
    reply_slot: Option<u64>,
) -> (r: Adoption)
    requires
        old(rpc).wf(),
    ensures
        final(rpc).wf(),
        RpcCore::queue_unchanged(old(rpc), final(rpc)),
        op_adopted(
            old(rpc).pool@,
            final(rpc).pool@,
            op,
            PO_KIND_STATVFS_CONT,
            badge,
            client_or_none(state@, badge),
            reply_slot,
            path@,
            NameiResumeAux::Statvfs(StatvfsContBody {  }),
            r,
        ),
{
    let client: Handle = match state.lookup_client(badge) {
        Some(c) => c,
        None => Handle::invalid(),
    };
    adopt_deferred_op_for_continuation(
        &mut rpc.pool,
        op,
        PO_KIND_STATVFS_CONT,
        badge,
        client,
        reply_slot,
        path,
        namei_aux_statvfs(StatvfsContBody {  }),
    )
}

/// Answers with the numbers of the filesystem that a path leads to. The registers hold the
/// length of the path, and the path; `reply_slot` is the caller's kept reply, where it
/// could be kept.
pub fn handle_vfs_statfs(
    state: &VfsState,
    rpc: &mut RpcCore,
    badge: u64,
    regs: &[u64; 32],
    reply_slot: Option<u64>,
    mem: Option<SysMemInfo>,
) -> (r: StatfsStart)
    requires
        old(rpc).wf(),
    ensures
        final(rpc).wf(),
        statfs_asked(state@, old(rpc), final(rpc), badge, regs@, reply_slot, mem, r),
{
    if regs[0] == 0 || regs[0] > MAX_STATFS_PATH {
        return StatfsStart::Reply(Reply::bare(Status::InvalidArgument));
    }
    let path = get_bytes(regs, 1, regs[0] as usize);
    if path.len() == 0 || path[0] != SLASH {
        return StatfsStart::Reply(Reply::bare(Status::InvalidArgument));
    }
    let x = lookup_path_dynamic_absolute(state, rpc, path.as_slice(), false);
    let ghost mid = *rpc;
    assert(walk_settled(
        state@,
        old(rpc),
        &mid,
        x,
        state@.walk_path(path@, 0, plain_mode(true)),
        plain_mode(true),
    ));
    let r = match x {
        Ok(Progress::Complete(Some(v))) => StatfsStart::Reply(emit_statfs_for_vnode(state, v, mem)),
        Ok(Progress::Complete(None)) => StatfsStart::Reply(Reply::bare(Status::NotFound)),
        Err(e) => StatfsStart::Reply(Reply::bare(e)),
        Ok(Progress::Deferred { op, worker }) => {
            match statfs_continuation_adopt(state, rpc, badge, op, path.as_slice(), reply_slot) {
                Adoption::Adopted => StatfsStart::Deferred { worker },
                Adoption::Refused(release) => StatfsStart::ReleaseAndReply {
                    release,
                    label: Status::OutOfMemory,
                },
            }
        },
    };
    assert(statfs_walked(state@, &mid, rpc, badge, path@, reply_slot, mem, x, r));
    r
}

// ---- the list of mounts ------------------------------------------------------------

/// Most mounts that one answer lists.
pub const MOUNT_LIST_MAX_ENTRIES: usize = 16;

/// Most bytes of a filesystem's name that are listed.
pub const MOUNT_INFO_FS_TYPE_LEN: usize = 16;

/// Most bytes of a mount's path that are listed.
pub const MOUNT_INFO_PATH_LEN: usize = 128;

/// Most bytes of a mount's options that are listed.
pub const MOUNT_INFO_OPTS_LEN: usize = 128;

/// One mount in the list.
pub struct MountInfo {
    pub mount_id: u64,
    pub flags: u32,
    pub fs_type: Vec<u8>,
    pub mount_path: Vec<u8>,
    pub opts: Vec<u8>,
    pub statvfs: StatfsSnapshot,
}

/// Value of a [`MountInfo`].
#[verifier::ext_equal]
pub struct MountInfoView {
    pub mount_id: u64,
    pub flags: u32,
    pub fs_type: Seq<u8>,
    pub mount_path: Seq<u8>,
    pub opts: Seq<u8>,
    pub statvfs: StatfsSnapshot,
}

impl View for MountInfo {
    type V = MountInfoView;

    open spec fn view(&self) -> MountInfoView {
        MountInfoView {
            mount_id: self.mount_id,
            flags: self.flags,
            fs_type: self.fs_type@,
            mount_path: self.mount_path@,
            opts: self.opts@,
            statvfs: self.statvfs,
        }
    }
}

/// What the list shows of a mount. A mount whose filesystem has no numbers shows zeros.
pub open spec fn mount_info(mt: MountView, numbers: Result<StatfsSnapshot, Status>) -> MountInfoView {
    MountInfoView {
        mount_id: mt.id as u64,
        flags: mt.flags,
        fs_type: prefix(mt.fs_type, MOUNT_INFO_FS_TYPE_LEN as int),
        mount_path: prefix(mt.mount_path, MOUNT_INFO_PATH_LEN as int),
        opts: prefix(mt.opts, MOUNT_INFO_OPTS_LEN as int),
        statvfs: match numbers {
            Ok(s) => s,
            Err(_) => StatfsSnapshot::zeroed(),
        },
    }
}

impl VfsModel {
    /// The mounts of the global namespace.
    pub open spec fn global_mounts(self) -> Seq<Handle> {
        match self.namespaces.entry(self.global_ns) {
            Some(ns) => ns.mounts,
            None => Seq::empty(),
        }
    }

    /// What the list shows of the first `n` mounts `hs`, at most `cap` of them, in their
    /// order. Mounts that are gone are passed by.
    pub open spec fn mounts_shown(self, hs: Seq<Handle>, n: int, cap: nat, mem: Option<SysMemInfo>) -> Seq<
        MountInfoView,
    >
        decreases n,
    {
        if n <= 0 {
            Seq::empty()
        } else {
            let before = self.mounts_shown(hs, n - 1, cap, mem);
            if before.len() < cap && hs[n - 1].is_valid() && self.mounts.has(hs[n - 1]) {
                before.push(
                    mount_info(self.mounts.at(hs[n - 1]), self.mount_numbers(hs[n - 1], mem)),
                )
            } else {
                before
            }
        }
    }
}

/// How many of the first `n` handles name a mount.
pub open spec fn valid_count(hs: Seq<Handle>, n: int) -> nat
    decreases n,
{
    if n <= 0 {
        0
    } else {
        valid_count(hs, n - 1) + if hs[n - 1].is_valid() {
            1nat
        } else {
            0nat
        }
    }
}

/// The list of mounts: what is shown, and how many mounts there are. A caller that gives no
/// room is told the number alone.
pub fn handle_vfs_mount_list(state: &VfsState, max_caller: u64, mem: Option<SysMemInfo>) -> (r: (
    Vec<MountInfo>,
    u64,
))
    ensures
        ({
            let hs = state@.global_mounts();
            let cap = if max_caller < MOUNT_LIST_MAX_ENTRIES {
                max_caller as nat
            } else {
                MOUNT_LIST_MAX_ENTRIES as nat
            };
            &&& r.0@.map_values(|i: MountInfo| i@) == state@.mounts_shown(
                hs,
                hs.len() as int,
                cap,
                mem,
            )
            &&& r.1 == if cap == 0 {
                hs.len()
            } else {
                valid_count(hs, hs.len() as int)
            }
        }),
{
    let cap: usize = if max_caller < MOUNT_LIST_MAX_ENTRIES as u64 {
        max_caller as usize
    } else {
        MOUNT_LIST_MAX_ENTRIES
    };
    let mut out: Vec<MountInfo> = Vec::new();
    assert(out@.map_values(|i: MountInfo| i@) =~= Seq::<MountInfoView>::empty());
    let ns = match state.namespaces.get(state.global_ns) {
        Some(ns) => ns,
        None => {
            return (out, 0);
        },
    };
    let mut available: u64 = 0;
    let mut i: usize = 0;
    while i < ns.mounts.len()
        invariant
            i <= ns.mounts@.len(),
            available == valid_count(ns.mounts@, i as int),
            available <= i,
            out@.map_values(|i: MountInfo| i@) == state@.mounts_shown(
                ns.mounts@,
                i as int,
                cap as nat,
                mem,
            ),
        decreases ns.mounts@.len() - i,
    {
        let mh: Handle = ns.mounts[i];
        let ghost before = out@;
        if mh.is_valid() {
            available += 1;
            if out.len() < cap {
                if let Some(mt) = state.mounts.get(mh) {
                    let numbers = match run_backend_statfs(state, mh, mem) {
                        Ok(s) => s,
                        Err(_) => StatfsSnapshot::zeroed(),
                    };
                    let info = MountInfo {
                        mount_id: mt.id as u64,
                        flags: mt.flags,
                        fs_type: copy_prefix(mt.fs_type.as_slice(), MOUNT_INFO_FS_TYPE_LEN),
                        mount_path: copy_prefix(mt.mount_path.as_slice(), MOUNT_INFO_PATH_LEN),
                        opts: copy_prefix(mt.opts.as_slice(), MOUNT_INFO_OPTS_LEN),
                        statvfs: numbers,
                    };
                    let ghost shown = info@;
                    out.push(info);
                    assert(out@.map_values(|i: MountInfo| i@) =~= before.map_values(
                        |i: MountInfo| i@,
                    ).push(shown));
                }
            }
        }
        i += 1;
    }
    if cap == 0 {
        (out, ns.mounts.len() as u64)
    } else {
        (out, available)
    }
}

} // verus!
