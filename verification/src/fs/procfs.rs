//! The process filesystem: a few files about the machine, laid out once, and a directory
//! for each process, whose vnodes are made when somebody asks for them.

use crate::arena::Handle;
use crate::bootstrap::{mode_for, DirItem, DirItemView};
use crate::bytes::{
    bytes_eq, copy_prefix, cut, decimal, find_byte, first_at, has_prefix, key_value,
    parse_decimal_u32, parsed, pieces, prefix, push_decimal, split_bytes, split_kv, COMMA,
    DIGIT_ZERO, SLASH,
};
use crate::files::{O_ACCMODE, O_APPEND, O_CREAT, O_RDONLY, O_TRUNC, PERS_POSIX};
use crate::fs::mounting::{fill_mount, mount_number, mounted_root, reserve_slots};
use crate::fs::proctext::{
    format_cpuinfo, format_filesystems, format_meminfo, format_mounts, format_pid_comm,
    format_pid_stat, format_pid_statm, format_pid_status, format_root_loadavg, format_root_stat,
    format_uptime, format_version, sizes_fit, SystemStats, PROC_TEXT_MAX,
};
use crate::fs::proctext::{
    cpuinfo_text, loadavg_text, meminfo_text, pid_comm_text, pid_stat_text, pid_statm_text,
    pid_status_text, root_stat_text, uptime_text, version_text,
};
use crate::fs::records::{ProcNode, ProcNodeKind, ProcfsMountData};
use crate::fs::sysctlfs::{part_of, read_part};
use crate::identity::{BackendNodeId, FsInstanceId, VnodeKey};
use crate::mount::{Mount, VfsOps, VnodeOps};
use crate::state::{VfsModel, VfsState};
use crate::status::Status;
use crate::vnode::{Backend, Vnode, VnodeType, DT_DIR, DT_LNK, DT_REG, S_IFDIR, S_IFLNK, S_IFREG};
use crate::wire::{KinfoProc, KinfoView, ProcMemSnapshot, SysCpu, SysInfo, SysMemInfo};
use vstd::prelude::*;
use vstd::string::*;

verus! {

/// Most nodes that dropping a mount lets go of.
pub const NODES_PER_MOUNT: usize = 128;

/// Longest path of a program.
pub const EXE_PATH_MAX: usize = 512;

/// A mount of the process filesystem.
#[verifier::allow_in_spec]
pub fn mount_is_procfs(backend: Backend) -> (r: bool)
    returns
        backend == Backend::Procfs,
{
    backend == Backend::Procfs
}

/// Mount operations of the process filesystem.
#[verifier::allow_in_spec]
pub fn procfs_vfsops() -> (r: VfsOps)
    returns
        (VfsOps { remount: true, ..VfsOps::empty() }),
{
    let mut ops = VfsOps::empty();
    ops.remount = true;
    ops
}

/// Vnode operations of the process filesystem.
#[verifier::allow_in_spec]
pub fn procfs_vops() -> (r: VnodeOps)
    returns
        (VnodeOps {
            readlink_inline: true,
            read_regular: true,
            write_regular: true,
            validate_open_regular: true,
            readdir_dir: true,
            supports_pager_backing: true,
            ..VnodeOps::empty()
        }),
{
    let mut ops = VnodeOps::empty();
    ops.readlink_inline = true;
    ops.read_regular = true;
    ops.write_regular = true;
    ops.validate_open_regular = true;
    ops.readdir_dir = true;
    ops.supports_pager_backing = true;
    ops
}

/// Number of a kind of node.
#[verifier::allow_in_spec]
pub fn kind_number(kind: ProcNodeKind) -> (r: u64)
    returns
        (match kind {
            ProcNodeKind::SelfLink => 1u64,
            ProcNodeKind::RootStat => 2,
            ProcNodeKind::RootMeminfo => 3,
            ProcNodeKind::RootUptime => 4,
            ProcNodeKind::RootCpuinfo => 5,
            ProcNodeKind::RootLoadavg => 6,
            ProcNodeKind::RootVersion => 7,
            ProcNodeKind::RootMounts => 8,
            ProcNodeKind::RootFilesystems => 9,
            ProcNodeKind::PidDir => 10,
            ProcNodeKind::PidStat => 11,
            ProcNodeKind::PidStatus => 12,
            ProcNodeKind::PidCmdline => 13,
            ProcNodeKind::PidComm => 14,
            ProcNodeKind::PidStatm => 15,
            ProcNodeKind::PidExe => 16,
        }),
{
    match kind {
        ProcNodeKind::SelfLink => 1,
        ProcNodeKind::RootStat => 2,
        ProcNodeKind::RootMeminfo => 3,
        ProcNodeKind::RootUptime => 4,
        ProcNodeKind::RootCpuinfo => 5,
        ProcNodeKind::RootLoadavg => 6,
        ProcNodeKind::RootVersion => 7,
        ProcNodeKind::RootMounts => 8,
        ProcNodeKind::RootFilesystems => 9,
        ProcNodeKind::PidDir => 10,
        ProcNodeKind::PidStat => 11,
        ProcNodeKind::PidStatus => 12,
        ProcNodeKind::PidCmdline => 13,
        ProcNodeKind::PidComm => 14,
        ProcNodeKind::PidStatm => 15,
        ProcNodeKind::PidExe => 16,
    }
}

/// Inode number of a node: its kind and the process it belongs to.
#[verifier::allow_in_spec]
pub fn proc_inode(kind: ProcNodeKind, pid: u32) -> (r: u64)
    returns
        ((kind_number(kind) << 32) | pid as u64),
{
    (kind_number(kind) << 32) | pid as u64
}

/// Two nodes of different kinds or processes have different inode numbers.
pub proof fn law_proc_inodes_are_distinct(k: ProcNodeKind, p: u32, l: ProcNodeKind, q: u32)
    ensures
        proc_inode(k, p) == proc_inode(l, q) <==> k == l && p == q,
{
    let a = kind_number(k);
    let b = kind_number(l);
    assert(((a << 32) | p as u64) == ((b << 32) | q as u64) <==> a == b && p == q) by (bit_vector)
        requires
            a <= 16,
            b <= 16,
    ;
}

// ---- mounts ------------------------------------------------------------------------

/// What the options say of hiding processes; the last word counts.
pub open spec fn hidepid_of(tokens: Seq<Seq<u8>>) -> Option<u8>
    decreases tokens.len(),
{
    if tokens.len() == 0 {
        None
    } else {
        let rest = hidepid_of(tokens.drop_last());
        match key_value(tokens.last()) {
            Some((k, v)) => if k == "hidepid".spec_bytes() && v.len() == 1 && DIGIT_ZERO <= v[0]
                <= DIGIT_ZERO + 2 {
                Some((v[0] - DIGIT_ZERO) as u8)
            } else {
                rest
            },
            None => rest,
        }
    }
}

/// Reads the option that hides processes.
pub fn parse_procfs_hidepid(opts: &[u8]) -> (r: Option<u8>)
    ensures
        r == hidepid_of(pieces(opts@, COMMA)),
{
    let tokens: Vec<Vec<u8>> = split_bytes(opts, COMMA);
    let ghost all = pieces(opts@, COMMA);
    let mut value: Option<u8> = None;
    let mut i: usize = 0;
    assert(all.take(0) =~= Seq::<Seq<u8>>::empty());
    while i < tokens.len()
        invariant
            i <= tokens@.len(),
            tokens@.len() == all.len(),
            forall|k: int| 0 <= k < all.len() ==> (#[trigger] tokens@[k])@ == all[k],
            value == hidepid_of(all.take(i as int)),
        decreases tokens@.len() - i,
    {
        let token = tokens[i].as_slice();
        proof {
            assert(all.take(i + 1).drop_last() =~= all.take(i as int));
            assert(all.take(i + 1).last() == all[i as int]);
            assert(token@ == all[i as int]);
        }
        if let Some((key, val)) = split_kv(token) {
            if bytes_eq(key, "hidepid".as_bytes()) && val.len() == 1 && val[0] >= DIGIT_ZERO
                && val[0] <= DIGIT_ZERO + 2 {
                value = Some(val[0] - DIGIT_ZERO);
            }
        }
        i = i + 1;
    }
    assert(all.take(i as int) =~= all);
    value
}

impl VfsModel {
    /// The record of the process-filesystem mount `mount`.
    pub open spec fn proc_data(self, mount: Handle) -> Option<Handle> {
        self.procfs_mounts.first(|h: Handle, d: ProcfsMountData| d.owner_mount == mount)
    }

    /// How far a process-filesystem mount hides processes.
    pub open spec fn hidepid(self, mount: Handle) -> u8 {
        match self.proc_data(mount) {
            Some(h) => self.procfs_mounts.at(h).hidepid,
            None => 0,
        }
    }

    /// The state without node `h`; its vnode no longer leads to it.
    pub open spec fn proc_node_dropped(self, h: Handle) -> VfsModel {
        match self.proc_nodes.entry(h) {
            None => self,
            Some(n) => {
                let s = match self.vnodes.entry(n.vnode) {
                    Some(vn) => self.with_vnode(
                        n.vnode,
                        Vnode { backend_ref: Handle::invalid(), ..vn },
                    ),
                    None => self,
                }.uncached(n.vnode);
                VfsModel { proc_nodes: s.proc_nodes.dropped(h), ..s }
            },
        }
    }

    /// The state without the nodes `hs`.
    pub open spec fn proc_nodes_dropped(self, hs: Seq<Handle>) -> VfsModel
        decreases hs.len(),
    {
        if hs.len() == 0 {
            self
        } else {
            self.proc_nodes_dropped(hs.drop_last()).proc_node_dropped(hs.last())
        }
    }

    /// The state after a process-filesystem mount was dropped.
    pub open spec fn proc_unmounted(self, mount: Handle) -> VfsModel {
        let s = self.proc_nodes_dropped(
            self.proc_nodes.listed(
                |h: Handle, n: ProcNode| n.owner_mount == mount,
                0,
                NODES_PER_MOUNT as nat,
            ),
        );
        match s.proc_data(mount) {
            Some(h) => VfsModel { procfs_mounts: s.procfs_mounts.dropped(h), ..s },
            None => s,
        }
    }
}

/// The record of a process-filesystem mount.
pub fn find_proc_data(state: &VfsState, mount: Handle) -> (r: Option<Handle>)
    ensures
        r == state@.proc_data(mount),
        r matches Some(h) ==> state@.procfs_mounts.has(h),
{
    state.procfs_mounts.find(
        |h: Handle, d: &ProcfsMountData| -> (b: bool) ensures b == (d@.owner_mount == mount) { d.owner_mount == mount },
        Ghost(|h: Handle, d: ProcfsMountData| d.owner_mount == mount),
    )
}

/// How far a process-filesystem mount hides processes.
pub fn hidepid_of_mount(state: &VfsState, mount: Handle) -> (r: u8)
    ensures
        r == state@.hidepid(mount),
{
    match find_proc_data(state, mount) {
        Some(h) => match state.procfs_mounts.get(h) {
            Some(d) => d.hidepid,
            None => 0,
        },
        None => 0,
    }
}

/// Changes what a mount hides; options that say nothing of it are ignored.
pub fn procfs_remount(state: &mut VfsState, mount: Handle, opts: &[u8]) -> (r: Status)
    ensures
        match old(state)@.proc_data(mount) {
            None => r == Status::InvalidOperation && final(state)@ == old(state)@,
            Some(h) => r == Status::Success && final(state)@ == (match hidepid_of(
                pieces(opts@, COMMA),
            ) {
                Some(v) => VfsModel {
                    procfs_mounts: old(state)@.procfs_mounts.put(
                        h,
                        ProcfsMountData { hidepid: v, ..old(state)@.procfs_mounts.at(h) },
                    ),
                    ..old(state)@
                },
                None => old(state)@,
            }),
        },
{
    let h: Handle = match find_proc_data(state, mount) {
        Some(h) => h,
        None => {
            return Status::InvalidOperation;
        },
    };
    if let Some(v) = parse_procfs_hidepid(opts) {
        if let Some(d) = state.procfs_mounts.get_mut(h) {
            d.hidepid = v;
        }
    }
    Status::Success
}

impl VfsModel {
    /// The state after a mount of this filesystem was made, and the mount. Where a table is
    /// full, what was reserved by then stays reserved.
    pub open spec fn procfs_made(self, path: Seq<u8>, flags: u32, opts: Seq<u8>) -> (VfsModel, Option<Handle>) {
        let s = self.slots_reserved();
        match self.mount_slots() {
            None => (s, None),
            Some((rv, mh)) => if s.procfs_mounts.next() is None {
                (s, None)
            } else {
                let fs_id = s.next_fs_instance_id;
                (
                    VfsModel {
                        procfs_mounts: s.procfs_mounts.grown(
                            ProcfsMountData {
                                owner_mount: mh,
                                fs_instance_id: fs_id,
                                root_vnode: rv,
                                hidepid: match hidepid_of(pieces(opts, COMMA)) {
                                    Some(v) => v,
                                    None => 0,
                                },
                            },
                        ),
                        ..s
                    }.instance_taken().backend_mounted(
                        rv,
                        mh,
                        fs_id,
                        Backend::Procfs,
                        flags,
                        "procfs".spec_bytes(),
                        path,
                    ),
                    Some(mh),
                )
            },
        }
    }
}

/// Mounts the process filesystem. `None` when a table is full; what was reserved by then
/// stays reserved.
pub fn alloc_procfs_mount(state: &mut VfsState, mount_path: &[u8], flags: u32, opts: &[u8]) -> (r:
    Option<Handle>)
    ensures
        (final(state)@, r) == old(state)@.procfs_made(mount_path@, flags, opts@),
{
    let hidepid: u8 = match parse_procfs_hidepid(opts) {
        Some(v) => v,
        None => 0,
    };
    let (rv, mh) = match reserve_slots(state) {
        Some(p) => p,
        None => {
            return None;
        },
    };
    let fs_id = state.next_fs_instance_id;
    if state.procfs_mounts.reserve(
        ProcfsMountData { owner_mount: mh, fs_instance_id: fs_id, root_vnode: rv, hidepid },
    ).is_none() {
        return None;
    }
    let _ = state.alloc_fs_instance_id();
    let mt = Mount::new_structural(
        mount_number(mh.slot),
        flags,
        fs_id,
        rv,
        Backend::Procfs,
        "procfs".as_bytes(),
        mount_path,
    );
    fill_mount(state, rv, mounted_root(Backend::Procfs, fs_id, mh), mh, mt);
    Some(mh)
}

fn drop_node(state: &mut VfsState, h: Handle)
    ensures
        final(state)@ == old(state)@.proc_node_dropped(h),
{
    let n: ProcNode = match state.proc_nodes.get(h) {
        Some(n) => *n,
        None => {
            return;
        },
    };
    if let Some(vn) = state.vnodes.get_mut(n.vnode) {
        vn.backend_ref = Handle::invalid();
    }
    state.uncache_vnode_key(n.vnode);
    let _ = state.proc_nodes.release(h);
}

/// Drops what is kept of a process-filesystem mount.
pub fn release_procfs_mount(state: &mut VfsState, owner_mount: Handle) -> (r: bool)
    ensures
        r,
        final(state)@ == old(state)@.proc_unmounted(owner_mount),
{
    let nodes = state.proc_nodes.collect(
        |h: Handle, n: &ProcNode| -> (b: bool) ensures b == (n@.owner_mount == owner_mount) { n.owner_mount == owner_mount },
        NODES_PER_MOUNT,
        Ghost(|h: Handle, n: ProcNode| n.owner_mount == owner_mount),
    );
    let ghost start = state@;
    let mut i: usize = 0;
    assert(nodes@.take(0) =~= Seq::<Handle>::empty());
    while i < nodes.len()
        invariant
            i <= nodes@.len(),
            state@ == start.proc_nodes_dropped(nodes@.take(i as int)),
        decreases nodes@.len() - i,
    {
        drop_node(state, nodes[i]);
        assert(nodes@.take(i + 1).drop_last() =~= nodes@.take(i as int));
        i = i + 1;
    }
    assert(nodes@.take(i as int) =~= nodes@);
    match find_proc_data(state, owner_mount) {
        Some(h) => state.procfs_mounts.release(h),
        None => true,
    }
}

// ---- nodes -------------------------------------------------------------------------

/// Type, mode and size of a file that is laid out once.
pub open spec fn root_file_shape(kind: ProcNodeKind) -> (VnodeType, u32, u64) {
    match kind {
        ProcNodeKind::SelfLink => (VnodeType::Lnk, S_IFLNK | 0o777u32, 16),
        ProcNodeKind::RootStat => (VnodeType::Reg, S_IFREG | 0o444u32, 1024),
        ProcNodeKind::RootMeminfo => (VnodeType::Reg, S_IFREG | 0o444u32, 1024),
        ProcNodeKind::RootUptime => (VnodeType::Reg, S_IFREG | 0o444u32, 64),
        ProcNodeKind::RootCpuinfo => (VnodeType::Reg, S_IFREG | 0o444u32, 2048),
        ProcNodeKind::RootLoadavg => (VnodeType::Reg, S_IFREG | 0o444u32, 64),
        ProcNodeKind::RootVersion => (VnodeType::Reg, S_IFREG | 0o444u32, 128),
        ProcNodeKind::RootMounts => (VnodeType::Reg, S_IFREG | 0o444u32, 1024),
        ProcNodeKind::RootFilesystems => (VnodeType::Reg, S_IFREG | 0o444u32, 512),
        _ => (VnodeType::Reg, S_IFREG | 0o444u32, 0),
    }
}

/// Type, mode and size of a file that is laid out once.
pub fn proc_root_static_mode(kind: ProcNodeKind) -> (r: (VnodeType, u32, u64))
    ensures
        r == root_file_shape(kind),
{
    let mode: u32 = S_IFREG | 0o444;
    match kind {
        ProcNodeKind::SelfLink => (VnodeType::Lnk, S_IFLNK | 0o777, 16),
        ProcNodeKind::RootStat => (VnodeType::Reg, mode, 1024),
        ProcNodeKind::RootMeminfo => (VnodeType::Reg, mode, 1024),
        ProcNodeKind::RootUptime => (VnodeType::Reg, mode, 64),
        ProcNodeKind::RootCpuinfo => (VnodeType::Reg, mode, 2048),
        ProcNodeKind::RootLoadavg => (VnodeType::Reg, mode, 64),
        ProcNodeKind::RootVersion => (VnodeType::Reg, mode, 128),
        ProcNodeKind::RootMounts => (VnodeType::Reg, mode, 1024),
        ProcNodeKind::RootFilesystems => (VnodeType::Reg, mode, 512),
        _ => (VnodeType::Reg, mode, 0),
    }
}

/// Type, mode and size of what is made on demand for a process; `None` for what is not.
pub open spec fn pid_file_shape(kind: ProcNodeKind) -> Option<(VnodeType, u32, u64)> {
    match kind {
        ProcNodeKind::PidDir => Some((VnodeType::Dir, S_IFDIR | 0o555u32, 0)),
        ProcNodeKind::PidExe => Some((VnodeType::Lnk, S_IFLNK | 0o777u32, 64)),
        ProcNodeKind::PidStatus => Some((VnodeType::Reg, S_IFREG | 0o444u32, 1024)),
        ProcNodeKind::PidStat => Some((VnodeType::Reg, S_IFREG | 0o444u32, 1024)),
        ProcNodeKind::PidCmdline => Some((VnodeType::Reg, S_IFREG | 0o444u32, 1024)),
        ProcNodeKind::PidComm => Some((VnodeType::Reg, S_IFREG | 0o444u32, 1024)),
        ProcNodeKind::PidStatm => Some((VnodeType::Reg, S_IFREG | 0o444u32, 1024)),
        _ => None,
    }
}

fn pid_shape(kind: ProcNodeKind) -> (r: Option<(VnodeType, u32, u64)>)
    ensures
        r == pid_file_shape(kind),
{
    let mode: u32 = S_IFREG | 0o444;
    match kind {
        ProcNodeKind::PidDir => Some((VnodeType::Dir, S_IFDIR | 0o555, 0)),
        ProcNodeKind::PidExe => Some((VnodeType::Lnk, S_IFLNK | 0o777, 64)),
        ProcNodeKind::PidStatus => Some((VnodeType::Reg, mode, 1024)),
        ProcNodeKind::PidStat => Some((VnodeType::Reg, mode, 1024)),
        ProcNodeKind::PidCmdline => Some((VnodeType::Reg, mode, 1024)),
        ProcNodeKind::PidComm => Some((VnodeType::Reg, mode, 1024)),
        ProcNodeKind::PidStatm => Some((VnodeType::Reg, mode, 1024)),
        _ => None,
    }
}

/// The vnode of a node that is made on demand.
#[verifier::allow_in_spec]
pub fn pid_vnode(
    shape: (VnodeType, u32, u64),
    fs_id: FsInstanceId,
    mount: Handle,
    kind: ProcNodeKind,
    pid: u32,
) -> (r: Vnode)
    returns
        (Vnode {
            backend: Backend::Procfs,
            id: proc_inode(kind, pid),
            size: shape.2,
            ops: Some(Backend::Procfs),
            ..Vnode::new_bootstrap(shape.0, fs_id, mount, shape.1)
        }),
{
    let mut v = Vnode::new_bootstrap(shape.0, fs_id, mount, shape.1);
    v.backend = Backend::Procfs;
    v.id = proc_inode(kind, pid);
    v.size = shape.2;
    v.ops = Some(Backend::Procfs);
    v
}

impl VfsModel {
    /// The root directory of the process filesystem.
    pub open spec fn proc_root(self) -> Option<Handle> {
        self.boot_named("/proc".spec_bytes())
    }

    /// The mount of the process filesystem.
    pub open spec fn proc_root_mount(self) -> Option<Handle> {
        match self.proc_root() {
            None => None,
            Some(v) => match self.vnodes.entry(v) {
                None => None,
                Some(vn) => match self.mounts.entry(vn.mount.handle) {
                    None => None,
                    Some(mt) => if mt.backend == Backend::Procfs {
                        Some(vn.mount.handle)
                    } else {
                        None
                    },
                },
            },
        }
    }

    /// Inode number of the root directory of the process filesystem.
    pub open spec fn proc_root_ino(self) -> u64 {
        match self.proc_root() {
            Some(v) => match self.vnodes.entry(v) {
                Some(vn) => vn.id,
                None => 1,
            },
            None => 1,
        }
    }

    /// The state with a node for vnode `v`, and whether there was room for it.
    pub open spec fn proc_registered(
        self,
        v: Handle,
        mount: Handle,
        kind: ProcNodeKind,
        pid: u32,
        ephemeral: bool,
    ) -> (VfsModel, bool) {
        match self.proc_nodes.next() {
            None => (self, false),
            Some(h) => {
                let s = VfsModel {
                    proc_nodes: self.proc_nodes.grown(
                        ProcNode { owner_mount: mount, vnode: v, kind, pid, ephemeral },
                    ),
                    ..self
                };
                (
                    match s.vnodes.entry(v) {
                        Some(vn) => s.with_vnode(v, Vnode { backend_ref: h, ..vn }),
                        None => s,
                    },
                    true,
                )
            },
        }
    }

    /// The key of a node of mount `mount`.
    pub open spec fn proc_key(self, mount: Handle, kind: ProcNodeKind, pid: u32) -> VnodeKey {
        VnodeKey {
            fs_instance_id: self.mounts.at(mount).fs_instance_id,
            backend_id: BackendNodeId { ino: proc_inode(kind, pid), seq: 0 },
        }
    }

    /// The vnode of a node that is there already, and the state after the lookup.
    pub open spec fn proc_found(self, mount: Handle, kind: ProcNodeKind, pid: u32) -> (
        VfsModel,
        Option<Handle>,
    ) {
        if !self.mounts.has(mount) {
            (self, None)
        } else {
            let key = self.proc_key(mount, kind, pid);
            let s = self.key_looked_up(key);
            match self.vnode_of_key(key) {
                None => (s, None),
                Some(v) => match s.proc_node_of(v) {
                    None => (s, None),
                    Some(n) => (s, Some(s.proc_nodes.at(n).vnode)),
                },
            }
        }
    }

    /// A vnode for a node of a process is made.
    pub open spec fn pid_node_made(self, mount: Handle, kind: ProcNodeKind, pid: u32) -> (
        VfsModel,
        Option<Handle>,
    ) {
        match (self.mounts.entry(mount), self.vnodes.next()) {
            (Some(mt), Some(v)) => match pid_file_shape(kind) {
                None => (
                    VfsModel { vnodes: self.vnodes.grown(Vnode::zeroed()), ..self },
                    None,
                ),
                Some(shape) => {
                    let s = VfsModel {
                        vnodes: self.vnodes.grown(
                            pid_vnode(shape, mt.fs_instance_id, mount, kind, pid),
                        ),
                        ..self
                    }.cached(v);
                    let (t, ok) = s.proc_registered(v, mount, kind, pid, true);
                    if !ok {
                        let u = t.uncached(v);
                        (VfsModel { vnodes: u.vnodes.dropped(v), ..u }, None)
                    } else {
                        (
                            match t.vnodes.entry(mt.root_vnode) {
                                Some(root) => t.with_vnode(
                                    mt.root_vnode,
                                    Vnode {
                                        nlink: if root.nlink < 1 {
                                            1
                                        } else {
                                            root.nlink
                                        },
                                        ..root
                                    },
                                ),
                                None => t,
                            },
                            Some(v),
                        )
                    }
                },
            },
            _ => (self, None),
        }
    }

    /// The vnode of a node of a process, made if it is not there. `alive` says whether the
    /// process was there when the lookup began and `still` whether it was there once the
    /// node had been found.
    pub open spec fn pid_node(
        self,
        mount: Handle,
        kind: ProcNodeKind,
        pid: u32,
        alive: bool,
        still: bool,
    ) -> (VfsModel, Option<Handle>) {
        if pid != 0 && !alive {
            (self, None)
        } else {
            let (s, found) = self.proc_found(mount, kind, pid);
            match found {
                Some(v) => if pid == 0 || still || kind == ProcNodeKind::PidExe {
                    (s, Some(v))
                } else {
                    let t = if s.vnodes.has(v) && s.vnodes.at(v).open_count == 0 {
                        s.reclaimed(v)
                    } else {
                        s
                    };
                    t.pid_node_made(mount, kind, pid)
                },
                None => s.pid_node_made(mount, kind, pid),
            }
        }
    }
}

fn proc_root_vnode(state: &VfsState) -> (r: Option<Handle>)
    ensures
        r == state@.proc_root(),
{
    state.bootstrap_lookup_path("/proc".as_bytes())
}

/// The mount of the process filesystem.
pub fn proc_root_mount(state: &VfsState) -> (r: Option<Handle>)
    ensures
        r == state@.proc_root_mount(),
{
    match proc_root_vnode(state) {
        None => None,
        Some(v) => match state.vnodes.get(v) {
            None => None,
            Some(vn) => match state.mounts.get(vn.mount.handle) {
                None => None,
                Some(mt) => {
                    if mount_is_procfs(mt.backend) {
                        Some(vn.mount.handle)
                    } else {
                        None
                    }
                },
            },
        },
    }
}

fn proc_root_id(state: &VfsState) -> (r: u64)
    ensures
        r == state@.proc_root_ino(),
{
    match proc_root_vnode(state) {
        Some(v) => match state.vnodes.get(v) {
            Some(vn) => vn.id,
            None => 1,
        },
        None => 1,
    }
}

/// The process that a client is: the low half of its badge.
pub open spec fn pid_of_client(m: VfsModel, client: Handle) -> u32 {
    match m.clients.entry(client) {
        Some(c) => c.badge as u32,
        None => 0,
    }
}

/// The process that a client is.
pub fn current_pid(state: &VfsState, client: Handle) -> (r: u32)
    ensures
        r == pid_of_client(state@, client),
{
    match state.clients.get(client) {
        Some(c) => c.badge_of() as u32,
        None => 0,
    }
}

/// Makes the node of a vnode; `false` when there is no room.
pub fn register_node(
    state: &mut VfsState,
    vnode: Handle,
    owner_mount: Handle,
    kind: ProcNodeKind,
    pid: u32,
    ephemeral: bool,
) -> (r: bool)
    ensures
        (final(state)@, r) == old(state)@.proc_registered(vnode, owner_mount, kind, pid, ephemeral),
{
    match state.proc_nodes.reserve(ProcNode { owner_mount, vnode, kind, pid, ephemeral }) {
        None => false,
        Some(h) => {
            if let Some(vn) = state.vnodes.get_mut(vnode) {
                vn.backend_ref = h;
            }
            true
        },
    }
}

fn find_node_by_key(state: &mut VfsState, mount: Handle, kind: ProcNodeKind, pid: u32) -> (r:
    Option<Handle>)
    ensures
        (final(state)@, r) == old(state)@.proc_found(mount, kind, pid),
{
    let fs_instance_id: FsInstanceId = match state.mounts.get(mount) {
        Some(mt) => mt.fs_instance_id,
        None => {
            return None;
        },
    };
    let key = VnodeKey {
        fs_instance_id,
        backend_id: BackendNodeId { ino: proc_inode(kind, pid), seq: 0 },
    };
    match state.vnode_by_key(key) {
        None => None,
        Some(v) => match state.find_proc_node(v) {
            None => None,
            Some(n) => match state.proc_nodes.get(n) {
                Some(node) => Some(node.vnode),
                None => None,
            },
        },
    }
}

fn make_pid_node(state: &mut VfsState, mount: Handle, kind: ProcNodeKind, pid: u32) -> (r: Option<
    Handle,
>)
    ensures
        (final(state)@, r) == old(state)@.pid_node_made(mount, kind, pid),
{
    let ghost before = state@;
    let (fs_id, root): (FsInstanceId, Handle) = match state.mounts.get(mount) {
        Some(mt) => (mt.fs_instance_id, mt.root_vnode),
        None => {
            return None;
        },
    };
    let v: Handle = match state.vnodes.reserve(Vnode::zeroed()) {
        Some(v) => v,
        None => {
            return None;
        },
    };
    let shape: (VnodeType, u32, u64) = match pid_shape(kind) {
        Some(s) => s,
        None => {
            return None;
        },
    };
    let vn: Vnode = pid_vnode(shape, fs_id, mount, kind, pid);
    let _ = state.vnodes.set(v, vn);
    proof {
        before.vnodes.lemma_grown_put(Vnode::zeroed(), vn);
    }
    state.cache_vnode_key(v);
    if !register_node(state, v, mount, kind, pid, true) {
        state.uncache_vnode_key(v);
        let _ = state.vnodes.release(v);
        return None;
    }
    if let Some(r) = state.vnodes.get_mut(root) {
        if r.nlink < 1 {
            r.nlink = 1;
        }
    }
    Some(v)
}

/// The vnode of a node of a process, made if it is not there; `None` where the process is
/// gone or there is no room.
pub fn ensure_dynamic_vnode(
    state: &mut VfsState,
    owner_mount: Handle,
    kind: ProcNodeKind,
    pid: u32,
    alive: bool,
    still: bool,
) -> (r: Option<Handle>)
    ensures
        (final(state)@, r) == old(state)@.pid_node(owner_mount, kind, pid, alive, still),
{
    if pid != 0 && !alive {
        return None;
    }
    if let Some(v) = find_node_by_key(state, owner_mount, kind, pid) {
        if pid == 0 || still || kind == ProcNodeKind::PidExe {
            return Some(v);
        }
        let unused: bool = match state.vnodes.get(v) {
            Some(vn) => vn.open_count == 0,
            None => false,
        };
        if unused {
            state.reclaim_bootstrap_vnode(v);
        }
    }
    make_pid_node(state, owner_mount, kind, pid)
}

// ---- the files that are laid out once ----------------------------------------------

/// A file of the root.
#[derive(Clone, Copy)]
pub struct RootDef {
    pub path: &'static str,
    pub kind: ProcNodeKind,
}

/// A file of the root.
#[verifier::allow_in_spec]
pub fn root_def(path: &'static str, kind: ProcNodeKind) -> (r: RootDef)
    returns
        (RootDef { path, kind }),
{
    RootDef { path, kind }
}

/// The files of the root.
pub open spec fn root_defs() -> Seq<RootDef> {
    seq![
        root_def("/proc/self", ProcNodeKind::SelfLink),
        root_def("/proc/stat", ProcNodeKind::RootStat),
        root_def("/proc/meminfo", ProcNodeKind::RootMeminfo),
        root_def("/proc/uptime", ProcNodeKind::RootUptime),
        root_def("/proc/cpuinfo", ProcNodeKind::RootCpuinfo),
        root_def("/proc/loadavg", ProcNodeKind::RootLoadavg),
        root_def("/proc/version", ProcNodeKind::RootVersion),
        root_def("/proc/mounts", ProcNodeKind::RootMounts),
        root_def("/proc/filesystems", ProcNodeKind::RootFilesystems),
    ]
}

fn root_def_list() -> (r: Vec<RootDef>)
    ensures
        r@ == root_defs(),
{
    let mut v: Vec<RootDef> = Vec::new();
    v.push(root_def("/proc/self", ProcNodeKind::SelfLink));
    v.push(root_def("/proc/stat", ProcNodeKind::RootStat));
    v.push(root_def("/proc/meminfo", ProcNodeKind::RootMeminfo));
    v.push(root_def("/proc/uptime", ProcNodeKind::RootUptime));
    v.push(root_def("/proc/cpuinfo", ProcNodeKind::RootCpuinfo));
    v.push(root_def("/proc/loadavg", ProcNodeKind::RootLoadavg));
    v.push(root_def("/proc/version", ProcNodeKind::RootVersion));
    v.push(root_def("/proc/mounts", ProcNodeKind::RootMounts));
    v.push(root_def("/proc/filesystems", ProcNodeKind::RootFilesystems));
    assert(v@ =~= root_defs());
    v
}

impl VfsModel {
    /// A file of the root laid out, and whether it could be.
    pub open spec fn root_file_made(self, d: RootDef, mount: Handle, now: u64) -> (VfsModel, bool) {
        let (s, made) = if d.kind == ProcNodeKind::SelfLink {
            self.link_path_made(d.path.spec_bytes(), S_IFLNK | 0o777u32, "0".spec_bytes(), now)
        } else {
            self.regular_path_made(d.path.spec_bytes(), S_IFREG | 0o444u32, now)
        };
        match made {
            Err(_) => (s, false),
            Ok(v) => {
                let t = match s.vnodes.entry(v) {
                    Some(vn) => s.with_vnode(
                        v,
                        Vnode {
                            backend: Backend::Procfs,
                            id: proc_inode(d.kind, 0),
                            mode: root_file_shape(d.kind).1,
                            size: root_file_shape(d.kind).2,
                            ops: Some(Backend::Procfs),
                            ..vn
                        },
                    ),
                    None => s,
                };
                t.proc_registered(v, mount, d.kind, 0, false)
            },
        }
    }

    /// The files of `defs` laid out in turn, up to the first that cannot be.
    pub open spec fn root_files_made(self, defs: Seq<RootDef>, mount: Handle, now: u64) -> (
        VfsModel,
        bool,
    )
        decreases defs.len(),
    {
        if defs.len() == 0 {
            (self, true)
        } else {
            let (s, ok) = self.root_file_made(defs.first(), mount, now);
            if ok {
                s.root_files_made(defs.drop_first(), mount, now)
            } else {
                (s, false)
            }
        }
    }

    /// The files of the process filesystem laid out.
    pub open spec fn proc_populated(self, now: u64) -> (VfsModel, bool) {
        match self.proc_root_mount() {
            None => (self, false),
            Some(mount) => {
                let (s, ok) = self.root_files_made(root_defs(), mount, now);
                if ok {
                    let (t, made) = s.link_path_made(
                        "/proc/sys".spec_bytes(),
                        S_IFLNK | 0o777u32,
                        "/sys".spec_bytes(),
                        now,
                    );
                    (t, made is Ok)
                } else {
                    (s, false)
                }
            },
        }
    }
}

fn make_root_file(state: &mut VfsState, d: RootDef, mount: Handle, now: u64) -> (r: bool)
    ensures
        (final(state)@, r) == old(state)@.root_file_made(d, mount, now),
{
    let made: Result<Handle, Status> = if d.kind == ProcNodeKind::SelfLink {
        state.bootstrap_create_symlink_path(
            d.path.as_bytes(),
            S_IFLNK | 0o777,
            "0".as_bytes(),
            now,
        )
    } else {
        state.bootstrap_create_regular_file_path(d.path.as_bytes(), S_IFREG | 0o444, now)
    };
    let v: Handle = match made {
        Ok(v) => v,
        Err(_) => {
            return false;
        },
    };
    let (_, mode, size) = proc_root_static_mode(d.kind);
    if let Some(vn) = state.vnodes.get_mut(v) {
        vn.backend = Backend::Procfs;
        vn.id = proc_inode(d.kind, 0);
        vn.mode = mode;
        vn.size = size;
        vn.ops = Some(Backend::Procfs);
    }
    register_node(state, v, mount, d.kind, 0, false)
}

/// Lays out the files of the process filesystem; `false` when one cannot be made.
pub fn populate_proc_tree(state: &mut VfsState, now: u64) -> (r: bool)
    ensures
        (final(state)@, r) == old(state)@.proc_populated(now),
{
    let mount: Handle = match proc_root_mount(state) {
        Some(m) => m,
        None => {
            return false;
        },
    };
    let defs = root_def_list();
    let ghost start = state@;
    let mut i: usize = 0;
    assert(defs@.skip(0) =~= defs@);
    while i < defs.len()
        invariant
            i <= defs@.len(),
            defs@ == root_defs(),
            start == old(state)@,
            start.proc_root_mount() == Some(mount),
            state@.root_files_made(defs@.skip(i as int), mount, now) == start.root_files_made(
                defs@,
                mount,
                now,
            ),
        decreases defs@.len() - i,
    {
        assert(defs@.skip(i as int).drop_first() =~= defs@.skip(i + 1));
        if !make_root_file(state, defs[i], mount, now) {
            return false;
        }
        i = i + 1;
    }
    state.bootstrap_create_symlink_path(
        "/proc/sys".as_bytes(),
        S_IFLNK | 0o777,
        "/sys".as_bytes(),
        now,
    ).is_ok()
}

// ---- looking up --------------------------------------------------------------------

/// What a path below the root directory of the process filesystem says behind it.
pub open spec fn below_proc(path: Seq<u8>) -> Option<Seq<u8>> {
    if path == "/proc".spec_bytes() {
        Some(Seq::empty())
    } else if "/proc/".spec_bytes().is_prefix_of(path) {
        Some(path.skip("/proc/".spec_bytes().len() as int))
    } else {
        None
    }
}

/// The first component and what follows the slash behind it.
pub open spec fn head_tail(path: Seq<u8>) -> (Seq<u8>, Seq<u8>) {
    let k = first_at(path, SLASH);
    if k < path.len() {
        (path.take(k), path.skip(k + 1))
    } else {
        (path, Seq::empty())
    }
}

/// The kind of node that a name in the directory of a process stands for.
pub open spec fn pid_entry(name: Seq<u8>) -> Option<ProcNodeKind> {
    if name == "stat".spec_bytes() {
        Some(ProcNodeKind::PidStat)
    } else if name == "status".spec_bytes() {
        Some(ProcNodeKind::PidStatus)
    } else if name == "cmdline".spec_bytes() {
        Some(ProcNodeKind::PidCmdline)
    } else if name == "comm".spec_bytes() {
        Some(ProcNodeKind::PidComm)
    } else if name == "statm".spec_bytes() {
        Some(ProcNodeKind::PidStatm)
    } else if name == "exe".spec_bytes() {
        Some(ProcNodeKind::PidExe)
    } else {
        None
    }
}

fn trim_proc_prefix(path: &[u8]) -> (r: Option<&[u8]>)
    ensures
        match r {
            Some(s) => below_proc(path@) == Some(s@),
            None => below_proc(path@) is None,
        },
{
    if bytes_eq(path, "/proc".as_bytes()) {
        let s = cut(path, 0, 0);
        assert(s@ =~= Seq::<u8>::empty());
        return Some(s);
    }
    let p = "/proc/".as_bytes();
    if has_prefix(path, p) {
        let s = cut(path, p.len(), path.len());
        assert(s@ =~= path@.skip(p@.len() as int));
        return Some(s);
    }
    None
}

fn split_one(path: &[u8]) -> (r: (&[u8], &[u8]))
    ensures
        (r.0@, r.1@) == head_tail(path@),
{
    let k: usize = find_byte(path, SLASH);
    if k < path.len() {
        let h = cut(path, 0, k);
        let t = cut(path, k + 1, path.len());
        assert(h@ =~= path@.take(k as int));
        assert(t@ =~= path@.skip(k + 1));
        (h, t)
    } else {
        let t = cut(path, 0, 0);
        assert(t@ =~= Seq::<u8>::empty());
        (path, t)
    }
}

fn pid_name(name: &[u8]) -> (r: Option<ProcNodeKind>)
    ensures
        r == pid_entry(name@),
{
    if bytes_eq(name, "stat".as_bytes()) {
        Some(ProcNodeKind::PidStat)
    } else if bytes_eq(name, "status".as_bytes()) {
        Some(ProcNodeKind::PidStatus)
    } else if bytes_eq(name, "cmdline".as_bytes()) {
        Some(ProcNodeKind::PidCmdline)
    } else if bytes_eq(name, "comm".as_bytes()) {
        Some(ProcNodeKind::PidComm)
    } else if bytes_eq(name, "statm".as_bytes()) {
        Some(ProcNodeKind::PidStatm)
    } else if bytes_eq(name, "exe".as_bytes()) {
        Some(ProcNodeKind::PidExe)
    } else {
        None
    }
}

/// What the process manager tells of the process that a path names.
pub struct PidFacts {
    pub alive: bool,
    pub still_alive: bool,
    pub exe: Option<Vec<u8>>,
}

/// Those facts with the path of the program as a sequence.
#[verifier::ext_equal]
pub struct PidFactsView {
    pub alive: bool,
    pub still_alive: bool,
    pub exe: Option<Seq<u8>>,
}

impl View for PidFacts {
    type V = PidFactsView;

    open spec fn view(&self) -> PidFactsView {
        PidFactsView {
            alive: self.alive,
            still_alive: self.still_alive,
            exe: match self.exe {
                Some(p) => Some(p@),
                None => None,
            },
        }
    }
}

/// The process whose directory a path leads into for client `client`.
pub open spec fn named_pid(m: VfsModel, client: Handle, path: Seq<u8>) -> Option<u32> {
    match below_proc(path) {
        None => None,
        Some(rest) => {
            let head = head_tail(rest).0;
            if head == "self".spec_bytes() {
                Some(pid_of_client(m, client))
            } else {
                match parsed(head, u32::MAX as nat) {
                    Some(n) => Some(n as u32),
                    None => None,
                }
            }
        },
    }
}

impl VfsModel {
    /// What `tail` names in the directory of a process.
    pub open spec fn in_pid_dir(
        self,
        mount: Handle,
        pid: u32,
        tail: Seq<u8>,
        no_follow: bool,
        personality: u8,
        f: PidFactsView,
    ) -> (VfsModel, Option<Handle>) {
        if tail.len() == 0 {
            self.pid_node(mount, ProcNodeKind::PidDir, pid, f.alive, f.still_alive)
        } else {
            match pid_entry(tail) {
                None => (self, None),
                Some(kind) => if kind == ProcNodeKind::PidExe && !no_follow {
                    (
                        self,
                        match f.exe {
                            None => None,
                            Some(p) => self.boot_lookup(
                                prefix(p, EXE_PATH_MAX as int),
                                0,
                                mode_for(personality, true),
                            ),
                        },
                    )
                } else {
                    self.pid_node(mount, kind, pid, f.alive, f.still_alive)
                },
            }
        }
    }

    /// What a path of the process filesystem names for client `client`.
    pub open spec fn proc_looked_up(
        self,
        client: Handle,
        path: Seq<u8>,
        no_follow: bool,
        f: PidFactsView,
    ) -> (VfsModel, Option<Handle>) {
        match below_proc(path) {
            None => (self, None),
            Some(rest) => if rest.len() == 0 {
                (self, self.proc_root())
            } else {
                match self.proc_root_mount() {
                    None => (self, None),
                    Some(mount) => {
                        let (head, tail) = head_tail(rest);
                        let personality = match self.clients.entry(client) {
                            Some(c) => c.personality,
                            None => PERS_POSIX,
                        };
                        let own = pid_of_client(self, client);
                        if head == "self".spec_bytes() {
                            if tail.len() == 0 && no_follow {
                                (
                                    self,
                                    match self.proc_root() {
                                        Some(root) => crate::bootstrap::boot_child(
                                            self.boot_entries,
                                            root,
                                            "self".spec_bytes(),
                                            false,
                                        ),
                                        None => None,
                                    },
                                )
                            } else {
                                self.in_pid_dir(mount, own, tail, no_follow, personality, f)
                            }
                        } else {
                            match parsed(head, u32::MAX as nat) {
                                None => (self, None),
                                Some(n) => if self.hidepid(mount) >= 1 && n as u32 != own {
                                    (self, None)
                                } else {
                                    self.in_pid_dir(
                                        mount,
                                        n as u32,
                                        tail,
                                        no_follow,
                                        personality,
                                        f,
                                    )
                                },
                            }
                        }
                    },
                }
            },
        }
    }
}

/// The process whose directory a path leads into, so that its facts can be asked for.
pub fn pid_named_by_path(state: &VfsState, client: Handle, path: &[u8]) -> (r: Option<u32>)
    ensures
        r == named_pid(state@, client, path@),
{
    let rest = match trim_proc_prefix(path) {
        Some(s) => s,
        None => {
            return None;
        },
    };
    let (head, _tail) = split_one(rest);
    if bytes_eq(head, "self".as_bytes()) {
        Some(current_pid(state, client))
    } else {
        parse_decimal_u32(head)
    }
}

fn lookup_in_pid_dir(
    state: &mut VfsState,
    mount: Handle,
    pid: u32,
    tail: &[u8],
    no_follow: bool,
    personality: u8,
    facts: &PidFacts,
) -> (r: Option<Handle>)
    ensures
        (final(state)@, r) == old(state)@.in_pid_dir(
            mount,
            pid,
            tail@,
            no_follow,
            personality,
            facts@,
        ),
{
    if tail.len() == 0 {
        return ensure_dynamic_vnode(
            state,
            mount,
            ProcNodeKind::PidDir,
            pid,
            facts.alive,
            facts.still_alive,
        );
    }
    match pid_name(tail) {
        None => None,
        Some(kind) => {
            if kind == ProcNodeKind::PidExe && !no_follow {
                match &facts.exe {
                    None => None,
                    Some(p) => {
                        let path = copy_prefix(p.as_slice(), EXE_PATH_MAX);
                        state.bootstrap_lookup_path_for_personality(
                            path.as_slice(),
                            false,
                            personality,
                        )
                    },
                }
            } else {
                ensure_dynamic_vnode(state, mount, kind, pid, facts.alive, facts.still_alive)
            }
        },
    }
}

/// What a path of the process filesystem names for a client. The directory `self` stands
/// for the client's own process; where processes are hidden, no other directory is found.
/// `facts` tell of the process that the path names.
pub fn lookup_dynamic_path(
    state: &mut VfsState,
    client: Handle,
    path: &[u8],
    no_follow: bool,
    facts: &PidFacts,
) -> (r: Option<Handle>)
    ensures
        (final(state)@, r) == old(state)@.proc_looked_up(client, path@, no_follow, facts@),
{
    let rest = match trim_proc_prefix(path) {
        Some(s) => s,
        None => {
            return None;
        },
    };
    if rest.len() == 0 {
        return proc_root_vnode(state);
    }
    let mount: Handle = match proc_root_mount(state) {
        Some(m) => m,
        None => {
            return None;
        },
    };
    let personality: u8 = state.client_personality(client);
    let own: u32 = current_pid(state, client);
    let (head, tail) = split_one(rest);
    if bytes_eq(head, "self".as_bytes()) {
        if tail.len() == 0 && no_follow {
            return match proc_root_vnode(state) {
                Some(root) => state.bootstrap_lookup_child(root, "self".as_bytes()),
                None => None,
            };
        }
        return lookup_in_pid_dir(state, mount, own, tail, no_follow, personality, facts);
    }
    let pid: u32 = match parse_decimal_u32(head) {
        Some(p) => p,
        None => {
            return None;
        },
    };
    if hidepid_of_mount(state, mount) >= 1 && pid != own {
        return None;
    }
    lookup_in_pid_dir(state, mount, pid, tail, no_follow, personality, facts)
}

/// Where processes are hidden, a client finds below the root nothing that belongs to
/// another process.
pub proof fn law_hidden_processes_stay_hidden(
    m: VfsModel,
    client: Handle,
    path: Seq<u8>,
    no_follow: bool,
    f: PidFactsView,
)
    requires
        m.proc_root_mount() is Some,
        m.hidepid(m.proc_root_mount()->0) >= 1,
        named_pid(m, client, path) is Some,
        named_pid(m, client, path)->0 != pid_of_client(m, client),
    ensures
        m.proc_looked_up(client, path, no_follow, f) == (m, None::<Handle>),
{
}

// ---- reading -----------------------------------------------------------------------

/// What the kernel and the process manager tell that a file shows.
pub struct ProcFacts {
    pub kinfo: Option<KinfoProc>,
    /// Time in user mode and in the kernel, and the number of threads.
    pub times: Option<(u64, u64, u64)>,
    pub argv: Option<Vec<u8>>,
    pub mem: ProcMemSnapshot,
    pub stats: SystemStats,
    pub info: SysInfo,
    pub cpus: Vec<SysCpu>,
    pub meminfo: SysMemInfo,
}

/// Those facts with their texts as sequences.
pub struct ProcFactsView {
    pub kinfo: Option<KinfoView>,
    pub times: Option<(u64, u64, u64)>,
    pub argv: Option<Seq<u8>>,
    pub mem: ProcMemSnapshot,
    pub stats: SystemStats,
    pub info: SysInfo,
    pub cpus: Seq<SysCpu>,
    pub meminfo: SysMemInfo,
}

impl View for ProcFacts {
    type V = ProcFactsView;

    open spec fn view(&self) -> ProcFactsView {
        ProcFactsView {
            kinfo: match self.kinfo {
                Some(k) => Some(k@),
                None => None,
            },
            times: self.times,
            argv: match self.argv {
                Some(a) => Some(a@),
                None => None,
            },
            mem: self.mem,
            stats: self.stats,
            info: self.info,
            cpus: self.cpus@,
            meminfo: self.meminfo,
        }
    }
}

impl VfsModel {
    /// What a node shows to a client.
    pub open spec fn node_text(self, client: Handle, n: ProcNode, f: ProcFactsView) -> Seq<u8> {
        match n.kind {
            ProcNodeKind::RootStat => root_stat_text(f.info, f.cpus, f.stats),
            ProcNodeKind::RootMeminfo => meminfo_text(f.meminfo),
            ProcNodeKind::RootUptime => uptime_text(f.info, f.cpus),
            ProcNodeKind::RootCpuinfo => cpuinfo_text(f.info),
            ProcNodeKind::RootLoadavg => loadavg_text(f.stats),
            ProcNodeKind::RootVersion => version_text(),
            ProcNodeKind::RootMounts => self.mounts_text(),
            ProcNodeKind::RootFilesystems => self.filesystems_text(),
            ProcNodeKind::PidStatus => match f.kinfo {
                Some(k) => pid_status_text(k),
                None => Seq::empty(),
            },
            ProcNodeKind::PidStat => match f.kinfo {
                Some(k) => match f.times {
                    Some((u, s, t)) => pid_stat_text(k, u, s, t),
                    None => pid_stat_text(k, 0, 0, 0),
                },
                None => Seq::empty(),
            },
            ProcNodeKind::PidCmdline => match f.argv {
                Some(a) => a,
                None => Seq::empty(),
            },
            ProcNodeKind::PidComm => match f.kinfo {
                Some(k) => pid_comm_text(k),
                None => Seq::empty(),
            },
            ProcNodeKind::PidStatm => pid_statm_text(f.mem),
            ProcNodeKind::SelfLink => decimal(pid_of_client(self, client) as nat),
            ProcNodeKind::PidDir => Seq::empty(),
            ProcNodeKind::PidExe => Seq::empty(),
        }
    }

    /// The node of vnode `v`.
    pub open spec fn proc_node(self, v: Handle) -> Option<ProcNode> {
        match self.proc_node_of(v) {
            Some(h) => Some(self.proc_nodes.at(h)),
            None => None,
        }
    }

    /// Whether vnode `v` shows how much memory there is.
    pub open spec fn shows_meminfo(self, v: Handle) -> bool {
        self.proc_node(v) matches Some(n) && n.kind == ProcNodeKind::RootMeminfo
    }

    /// What reading a file from `offset` on gives: at most `cap` bytes.
    pub open spec fn proc_read(
        self,
        client: Handle,
        v: Handle,
        offset: u64,
        cap: int,
        f: ProcFactsView,
    ) -> Option<Seq<u8>> {
        match self.proc_node(v) {
            None => None,
            Some(n) => Some(
                part_of(
                    prefix(self.node_text(client, n, f), PROC_TEXT_MAX as int),
                    offset,
                    cap,
                ),
            ),
        }
    }

    /// What a link of the process filesystem leads to: at most `cap` bytes.
    pub open spec fn proc_link(self, client: Handle, v: Handle, cap: int, exe: Option<Seq<u8>>) -> Option<
        Seq<u8>,
    > {
        match self.proc_node(v) {
            None => None,
            Some(n) => match n.kind {
                ProcNodeKind::SelfLink => Some(
                    prefix(decimal(pid_of_client(self, client) as nat), cap),
                ),
                ProcNodeKind::PidExe => match exe {
                    Some(p) => Some(prefix(prefix(p, EXE_PATH_MAX as int), cap)),
                    None => None,
                },
                _ => None,
            },
        }
    }
}

/// A copy of the node of a vnode.
pub fn node_of_vnode(state: &VfsState, vnode: Handle) -> (r: Option<ProcNode>)
    ensures
        r == state@.proc_node(vnode),
{
    match state.find_proc_node(vnode) {
        Some(h) => match state.proc_nodes.get(h) {
            Some(n) => Some(*n),
            None => None,
        },
        None => None,
    }
}

fn pid_digits(pid: u32) -> (r: Vec<u8>)
    ensures
        r@ == decimal(pid as nat),
{
    let mut v: Vec<u8> = Vec::new();
    push_decimal(&mut v, pid as u64);
    assert(v@ =~= decimal(pid as nat));
    v
}

fn nothing() -> (r: Vec<u8>)
    ensures
        r@ == prefix(Seq::<u8>::empty(), PROC_TEXT_MAX as int),
{
    let v: Vec<u8> = Vec::new();
    assert(v@ =~= prefix(Seq::<u8>::empty(), PROC_TEXT_MAX as int));
    v
}

/// What a node shows to a client, as far as a file of the process filesystem reaches.
pub fn read_proc_node(state: &VfsState, client: Handle, node: &ProcNode, facts: &ProcFacts) -> (r:
    Vec<u8>)
    requires
        node.kind == ProcNodeKind::RootMeminfo ==> sizes_fit(facts.meminfo),
    ensures
        r@ == prefix(state@.node_text(client, *node, facts@), PROC_TEXT_MAX as int),
{
    match node.kind {
        ProcNodeKind::RootStat => format_root_stat(
            &facts.info,
            facts.cpus.as_slice(),
            &facts.stats,
        ),
        ProcNodeKind::RootMeminfo => format_meminfo(&facts.meminfo),
        ProcNodeKind::RootUptime => format_uptime(&facts.info, facts.cpus.as_slice()),
        ProcNodeKind::RootCpuinfo => format_cpuinfo(&facts.info),
        ProcNodeKind::RootLoadavg => format_root_loadavg(&facts.stats),
        ProcNodeKind::RootVersion => format_version(),
        ProcNodeKind::RootMounts => format_mounts(state),
        ProcNodeKind::RootFilesystems => format_filesystems(state),
        ProcNodeKind::PidStatus => match &facts.kinfo {
            Some(k) => format_pid_status(k),
            None => nothing(),
        },
        ProcNodeKind::PidStat => match &facts.kinfo {
            Some(k) => match facts.times {
                Some((u, s, t)) => format_pid_stat(k, u, s, t),
                None => format_pid_stat(k, 0, 0, 0),
            },
            None => nothing(),
        },
        ProcNodeKind::PidCmdline => match &facts.argv {
            Some(a) => copy_prefix(a.as_slice(), PROC_TEXT_MAX),
            None => nothing(),
        },
        ProcNodeKind::PidComm => match &facts.kinfo {
            Some(k) => format_pid_comm(k),
            None => nothing(),
        },
        ProcNodeKind::PidStatm => format_pid_statm(&facts.mem),
        ProcNodeKind::SelfLink => {
            let digits = pid_digits(current_pid(state, client));
            copy_prefix(digits.as_slice(), PROC_TEXT_MAX)
        },
        ProcNodeKind::PidDir => nothing(),
        ProcNodeKind::PidExe => nothing(),
    }
}

/// Reads a file of the process filesystem from `offset` on, at most `cap` bytes; `None`
/// where the vnode has no node.
pub fn read_regular(
    state: &VfsState,
    client: Handle,
    vnode: Handle,
    offset: u64,
    cap: usize,
    facts: &ProcFacts,
) -> (r: Option<Vec<u8>>)
    requires
        state@.shows_meminfo(vnode) ==> sizes_fit(facts.meminfo),
    ensures
        match r {
            Some(b) => state@.proc_read(client, vnode, offset, cap as int, facts@) == Some(b@),
            None => state@.proc_read(client, vnode, offset, cap as int, facts@) is None,
        },
{
    match node_of_vnode(state, vnode) {
        None => None,
        Some(n) => {
            let text = read_proc_node(state, client, &n, facts);
            Some(read_part(text.as_slice(), offset, cap))
        },
    }
}

/// Reads a file of the process filesystem for a request, which must come from a client.
pub fn procfs_read_regular(
    state: &VfsState,
    client: Option<Handle>,
    vnode: Handle,
    offset: u64,
    cap: usize,
    facts: &ProcFacts,
) -> (r: Result<Vec<u8>, Status>)
    requires
        state@.shows_meminfo(vnode) ==> sizes_fit(facts.meminfo),
    ensures
        match client {
            None => r == Err::<Vec<u8>, Status>(Status::NotSupported),
            Some(c) => match state@.proc_read(c, vnode, offset, cap as int, facts@) {
                Some(b) => r is Ok && r->Ok_0@ == b,
                None => r == Err::<Vec<u8>, Status>(Status::NotSupported),
            },
        },
{
    match client {
        None => Err(Status::NotSupported),
        Some(c) => match read_regular(state, c, vnode, offset, cap, facts) {
            Some(b) => Ok(b),
            None => Err(Status::NotSupported),
        },
    }
}

/// Files of the process filesystem cannot be written.
#[verifier::allow_in_spec]
pub fn procfs_write_regular() -> (r: Result<u64, Status>)
    returns
        Err::<u64, Status>(Status::InvalidOperation),
{
    Err(Status::InvalidOperation)
}

/// A file of the process filesystem may be opened for nothing but reading.
#[verifier::allow_in_spec]
pub fn procfs_validate_open(flags: u32) -> (r: Status)
    returns
        (if flags & O_ACCMODE != O_RDONLY || flags & (O_CREAT | O_TRUNC | O_APPEND) != 0 {
            Status::InvalidOperation
        } else {
            Status::Success
        }),
{
    if flags & O_ACCMODE != O_RDONLY || flags & (O_CREAT | O_TRUNC | O_APPEND) != 0 {
        Status::InvalidOperation
    } else {
        Status::Success
    }
}

/// What a link of the process filesystem leads to, at most `cap` bytes; `None` where the
/// vnode is no such link or its program is not known.
pub fn readlink_target(
    state: &VfsState,
    client: Handle,
    vnode: Handle,
    cap: usize,
    exe: Option<Vec<u8>>,
) -> (r: Option<Vec<u8>>)
    ensures
        ({
            let path = match exe {
                Some(p) => Some(p@),
                None => None,
            };
            match r {
                Some(b) => state@.proc_link(client, vnode, cap as int, path) == Some(b@),
                None => state@.proc_link(client, vnode, cap as int, path) is None,
            }
        }),
{
    let n: ProcNode = match node_of_vnode(state, vnode) {
        Some(n) => n,
        None => {
            return None;
        },
    };
    match n.kind {
        ProcNodeKind::SelfLink => {
            let digits = pid_digits(current_pid(state, client));
            Some(copy_prefix(digits.as_slice(), cap))
        },
        ProcNodeKind::PidExe => match exe {
            Some(p) => {
                let path = copy_prefix(p.as_slice(), EXE_PATH_MAX);
                Some(copy_prefix(path.as_slice(), cap))
            },
            None => None,
        },
        _ => None,
    }
}

// ---- listing -----------------------------------------------------------------------

/// A name of a directory of the process filesystem.
#[derive(Clone, Copy)]
pub struct NameDef {
    pub name: &'static str,
    pub kind: ProcNodeKind,
    pub d_type: u8,
}

/// A name of a directory of the process filesystem.
#[verifier::allow_in_spec]
pub fn name_def(name: &'static str, kind: ProcNodeKind, d_type: u8) -> (r: NameDef)
    returns
        (NameDef { name, kind, d_type }),
{
    NameDef { name, kind, d_type }
}

/// How many names the root directory always has.
pub const ROOT_NAMES: u64 = 10;

/// How many names the directory of a process has.
pub const PID_NAMES: u64 = 6;

/// Name `i` of the root directory.
pub open spec fn root_name(i: int) -> NameDef {
    if i == 0 {
        name_def("self", ProcNodeKind::SelfLink, DT_LNK)
    } else if i == 1 {
        name_def("stat", ProcNodeKind::RootStat, DT_REG)
    } else if i == 2 {
        name_def("meminfo", ProcNodeKind::RootMeminfo, DT_REG)
    } else if i == 3 {
        name_def("uptime", ProcNodeKind::RootUptime, DT_REG)
    } else if i == 4 {
        name_def("cpuinfo", ProcNodeKind::RootCpuinfo, DT_REG)
    } else if i == 5 {
        name_def("loadavg", ProcNodeKind::RootLoadavg, DT_REG)
    } else if i == 6 {
        name_def("version", ProcNodeKind::RootVersion, DT_REG)
    } else if i == 7 {
        name_def("mounts", ProcNodeKind::RootMounts, DT_REG)
    } else if i == 8 {
        name_def("filesystems", ProcNodeKind::RootFilesystems, DT_REG)
    } else {
        name_def("sys", ProcNodeKind::SelfLink, DT_LNK)
    }
}

/// Name `i` of the directory of a process.
pub open spec fn pid_dir_name(i: int) -> NameDef {
    if i == 0 {
        name_def("stat", ProcNodeKind::PidStat, DT_REG)
    } else if i == 1 {
        name_def("status", ProcNodeKind::PidStatus, DT_REG)
    } else if i == 2 {
        name_def("cmdline", ProcNodeKind::PidCmdline, DT_REG)
    } else if i == 3 {
        name_def("comm", ProcNodeKind::PidComm, DT_REG)
    } else if i == 4 {
        name_def("statm", ProcNodeKind::PidStatm, DT_REG)
    } else {
        name_def("exe", ProcNodeKind::PidExe, DT_LNK)
    }
}

fn root_name_at(i: u64) -> (r: NameDef)
    requires
        i < ROOT_NAMES,
    ensures
        r == root_name(i as int),
{
    match i {
        0 => name_def("self", ProcNodeKind::SelfLink, DT_LNK),
        1 => name_def("stat", ProcNodeKind::RootStat, DT_REG),
        2 => name_def("meminfo", ProcNodeKind::RootMeminfo, DT_REG),
        3 => name_def("uptime", ProcNodeKind::RootUptime, DT_REG),
        4 => name_def("cpuinfo", ProcNodeKind::RootCpuinfo, DT_REG),
        5 => name_def("loadavg", ProcNodeKind::RootLoadavg, DT_REG),
        6 => name_def("version", ProcNodeKind::RootVersion, DT_REG),
        7 => name_def("mounts", ProcNodeKind::RootMounts, DT_REG),
        8 => name_def("filesystems", ProcNodeKind::RootFilesystems, DT_REG),
        _ => name_def("sys", ProcNodeKind::SelfLink, DT_LNK),
    }
}

fn pid_name_at(i: u64) -> (r: NameDef)
    requires
        i < PID_NAMES,
    ensures
        r == pid_dir_name(i as int),
{
    match i {
        0 => name_def("stat", ProcNodeKind::PidStat, DT_REG),
        1 => name_def("status", ProcNodeKind::PidStatus, DT_REG),
        2 => name_def("cmdline", ProcNodeKind::PidCmdline, DT_REG),
        3 => name_def("comm", ProcNodeKind::PidComm, DT_REG),
        4 => name_def("statm", ProcNodeKind::PidStatm, DT_REG),
        _ => name_def("exe", ProcNodeKind::PidExe, DT_LNK),
    }
}

impl VfsModel {
    /// Vnode `v` lies on a mount of the process filesystem.
    pub open spec fn on_procfs(self, v: Handle) -> bool {
        self.vnodes.has(v) && self.mounts.has(self.vnodes.at(v).mount.handle) && self.mounts.at(
            self.vnodes.at(v).mount.handle,
        ).backend == Backend::Procfs
    }

    /// Inode number of a name of the root directory.
    pub open spec fn root_name_ino(self, d: NameDef) -> u64 {
        match self.proc_root() {
            None => proc_inode(d.kind, 0),
            Some(root) => match crate::bootstrap::boot_child(
                self.boot_entries,
                root,
                d.name.spec_bytes(),
                false,
            ) {
                None => proc_inode(d.kind, 0),
                Some(v) => match self.vnodes.entry(v) {
                    Some(vn) => vn.id,
                    None => proc_inode(d.kind, 0),
                },
            },
        }
    }

    /// What follows cursor `cursor` in a directory of the process filesystem: `None` where
    /// there is no such directory, `Some(None)` at its end. `pid` is the process that the
    /// process manager lists at this place, if any.
    pub open spec fn proc_listing(self, dir: Handle, cursor: u64, pid: Option<u32>) -> Option<
        Option<DirItemView>,
    > {
        if !self.on_procfs(dir) {
            None
        } else {
            let own = self.vnodes.at(dir).id;
            let next = (cursor + 1) as u64;
            let node = self.proc_node(dir);
            if cursor == 0 {
                Some(
                    Some(
                        DirItemView {
                            next_cursor: 1,
                            name: ".".spec_bytes(),
                            ino: own,
                            d_type: DT_DIR,
                        },
                    ),
                )
            } else if cursor == 1 {
                Some(
                    Some(
                        DirItemView {
                            next_cursor: 2,
                            name: "..".spec_bytes(),
                            ino: match node {
                                Some(n) => if n.kind == ProcNodeKind::PidDir {
                                    self.proc_root_ino()
                                } else {
                                    own
                                },
                                None => own,
                            },
                            d_type: DT_DIR,
                        },
                    ),
                )
            } else {
                let want = cursor - 2;
                match node {
                    None => if want < ROOT_NAMES {
                        let d = root_name(want);
                        Some(
                            Some(
                                DirItemView {
                                    next_cursor: next,
                                    name: d.name.spec_bytes(),
                                    ino: self.root_name_ino(d),
                                    d_type: d.d_type,
                                },
                            ),
                        )
                    } else if self.hidepid(self.vnodes.at(dir).mount.handle) >= 1 {
                        Some(None)
                    } else {
                        match pid {
                            None => Some(None),
                            Some(p) => Some(
                                Some(
                                    DirItemView {
                                        next_cursor: next,
                                        name: decimal(p as nat),
                                        ino: proc_inode(ProcNodeKind::PidDir, p),
                                        d_type: DT_DIR,
                                    },
                                ),
                            ),
                        }
                    },
                    Some(n) => if n.kind != ProcNodeKind::PidDir || want >= PID_NAMES {
                        Some(None)
                    } else {
                        let d = pid_dir_name(want);
                        Some(
                            Some(
                                DirItemView {
                                    next_cursor: next,
                                    name: d.name.spec_bytes(),
                                    ino: proc_inode(d.kind, n.pid),
                                    d_type: d.d_type,
                                },
                            ),
                        )
                    },
                }
            }
        }
    }

    /// The listing of a directory has come to the process `pid`.
    pub open spec fn lists_process(self, dir: Handle, cursor: u64, pid: Option<u32>) -> bool {
        &&& self.on_procfs(dir)
        &&& self.proc_node(dir) is None
        &&& cursor >= 2 + ROOT_NAMES
        &&& self.hidepid(self.vnodes.at(dir).mount.handle) == 0
        &&& pid is Some
    }

    /// The place among the processes that a listing of the root directory needs next.
    pub open spec fn pid_place(self, dir: Handle, cursor: u64) -> Option<u64> {
        let in_pid_dir = match self.proc_node(dir) {
            Some(n) => n.kind == ProcNodeKind::PidDir,
            None => false,
        };
        if !self.on_procfs(dir) || in_pid_dir || cursor < 2 + ROOT_NAMES {
            None
        } else {
            Some((cursor - 2 - ROOT_NAMES) as u64)
        }
    }
}

fn vnode_on_procfs(state: &VfsState, v: Handle) -> (r: bool)
    ensures
        r == state@.on_procfs(v),
{
    match state.vnodes.get(v) {
        Some(vn) => match state.mounts.get(vn.mount.handle) {
            Some(mt) => mount_is_procfs(mt.backend),
            None => false,
        },
        None => false,
    }
}

fn root_entry_ino(state: &VfsState, d: NameDef) -> (r: u64)
    ensures
        r == state@.root_name_ino(d),
{
    match proc_root_vnode(state) {
        None => proc_inode(d.kind, 0),
        Some(root) => match state.bootstrap_lookup_child(root, d.name.as_bytes()) {
            None => proc_inode(d.kind, 0),
            Some(v) => match state.vnodes.get(v) {
                Some(vn) => vn.id,
                None => proc_inode(d.kind, 0),
            },
        },
    }
}

fn item(next_cursor: u64, name: &[u8], ino: u64, d_type: u8) -> (r: DirItem)
    ensures
        r@ == (DirItemView { next_cursor, name: name@, ino, d_type }),
{
    DirItem { next_cursor, name: vstd::slice::slice_to_vec(name), ino, d_type }
}

/// What follows `cursor` in a directory of the process filesystem. `pid` is the process that
/// the process manager lists at the place that [`procfs_readdir_pid_index`] names, if any.
pub fn readdir_entry(state: &VfsState, dir: Handle, cursor: u64, pid: Option<u32>) -> (r: Option<
    Option<DirItem>,
>)
    requires
        state@.lists_process(dir, cursor, pid) ==> cursor < u64::MAX,
    ensures
        match state@.proc_listing(dir, cursor, pid) {
            None => r is None,
            Some(None) => r is Some && r->0 is None,
            Some(Some(d)) => r is Some && r->0 is Some && r->0->0@ == d,
        },
{
    if !vnode_on_procfs(state, dir) {
        return None;
    }
    let (own, mount): (u64, Handle) = match state.vnodes.get(dir) {
        Some(vn) => (vn.id, vn.mount.handle),
        None => {
            return None;
        },
    };
    let node: Option<ProcNode> = node_of_vnode(state, dir);
    if cursor == 0 {
        return Some(Some(item(1, ".".as_bytes(), own, DT_DIR)));
    }
    if cursor == 1 {
        let parent: u64 = match node {
            Some(n) => {
                if n.kind == ProcNodeKind::PidDir {
                    proc_root_id(state)
                } else {
                    own
                }
            },
            None => own,
        };
        return Some(Some(item(2, "..".as_bytes(), parent, DT_DIR)));
    }
    let want: u64 = cursor - 2;
    match node {
        None => {
            if want < ROOT_NAMES {
                let d: NameDef = root_name_at(want);
                let ino: u64 = root_entry_ino(state, d);
                return Some(Some(item(cursor + 1, d.name.as_bytes(), ino, d.d_type)));
            }
            if hidepid_of_mount(state, mount) >= 1 {
                return Some(None);
            }
            match pid {
                None => Some(None),
                Some(p) => {
                    let digits = pid_digits(p);
                    Some(
                        Some(
                            item(
                                cursor + 1,
                                digits.as_slice(),
                                proc_inode(ProcNodeKind::PidDir, p),
                                DT_DIR,
                            ),
                        ),
                    )
                },
            }
        },
        Some(n) => {
            if n.kind != ProcNodeKind::PidDir || want >= PID_NAMES {
                return Some(None);
            }
            let d: NameDef = pid_name_at(want);
            Some(Some(item(cursor + 1, d.name.as_bytes(), proc_inode(d.kind, n.pid), d.d_type)))
        },
    }
}

/// The place among the processes that a listing of the root directory needs next; `None`
/// where the listing goes on without the process manager.
pub fn procfs_readdir_pid_index(state: &VfsState, dir: Handle, cursor: u64) -> (r: Option<u64>)
    ensures
        r == state@.pid_place(dir, cursor),
{
    if !vnode_on_procfs(state, dir) {
        return None;
    }
    if let Some(n) = node_of_vnode(state, dir) {
        if n.kind == ProcNodeKind::PidDir {
            return None;
        }
    }
    if cursor < 2 + ROOT_NAMES {
        return None;
    }
    Some(cursor - 2 - ROOT_NAMES)
}

/// A listing of the directory of a process names each of its files once, in a fixed order,
/// and then ends, whatever the process manager says.
pub proof fn law_pid_directory_listing(m: VfsModel, dir: Handle, i: u64, pid: Option<u32>)
    requires
        m.on_procfs(dir),
        m.proc_node(dir) matches Some(n) && n.kind == ProcNodeKind::PidDir,
        i < u64::MAX - 2,
    ensures
        match m.proc_listing(dir, (i + 2) as u64, pid) {
            Some(Some(d)) => i < PID_NAMES && d.name == pid_dir_name(i as int).name.spec_bytes()
                && d.next_cursor == i + 3 && d.ino == proc_inode(
                pid_dir_name(i as int).kind,
                m.proc_node(dir)->0.pid,
            ),
            Some(None) => i >= PID_NAMES,
            None => false,
        },
{
}

} // verus!
