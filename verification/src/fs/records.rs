//! Per-mount and per-node records of the filesystems.

use crate::arena::Handle;
use crate::identity::{BackendNodeId, FsInstanceId};
use crate::vnode::VnodeType;
use vstd::prelude::*;

verus! {

/// A run of stored bytes: the contents of a file or the target of a link.
pub struct Blob {
    pub bytes: Vec<u8>,
}

impl View for Blob {
    type V = Seq<u8>;

    open spec fn view(&self) -> Seq<u8> {
        self.bytes@
    }
}

/// A mount of a filesystem that keeps nothing else per mount.
#[derive(Clone, Copy, PartialEq, Eq, Structural, Debug)]
pub struct PlainMount {
    pub owner_mount: Handle,
    pub fs_instance_id: FsInstanceId,
    pub root_vnode: Handle,
}

impl View for PlainMount {
    type V = PlainMount;

    open spec fn view(&self) -> PlainMount {
        *self
    }
}

/// A mount of the in-memory filesystem with its limits and what is used of them. A limit
/// of zero is no limit.
#[derive(Clone, Copy, PartialEq, Eq, Structural, Debug)]
pub struct TmpfsMountData {
    pub owner_mount: Handle,
    pub fs_instance_id: FsInstanceId,
    pub root_vnode: Handle,
    pub next_inode: u64,
    pub max_bytes: u64,
    pub max_inodes: u64,
    pub accounted_bytes: u64,
    pub used_inodes: u64,
    pub casefold: bool,
}

impl View for TmpfsMountData {
    type V = TmpfsMountData;

    open spec fn view(&self) -> TmpfsMountData {
        *self
    }
}

/// One name in a directory of the in-memory filesystem.
pub struct TmpfsEntry {
    pub child: Handle,
    pub name: Vec<u8>,
}

/// A directory entry with its name as a sequence.
#[verifier::ext_equal]
pub struct EntryView {
    pub child: Handle,
    pub name: Seq<u8>,
}

impl View for TmpfsEntry {
    type V = EntryView;

    open spec fn view(&self) -> EntryView {
        EntryView { child: self.child, name: self.name@ }
    }
}

/// Directory entries with their names as sequences.
pub open spec fn entry_views(s: Seq<TmpfsEntry>) -> Seq<EntryView> {
    s.map_values(|e: TmpfsEntry| e@)
}

/// A node of the in-memory filesystem.
pub struct TmpfsNode {
    pub owner_mount: Handle,
    pub vnode: Handle,
    pub parent: Handle,
    pub kind: VnodeType,
    pub name: Vec<u8>,
    pub mode: u32,
    pub uid: u32,
    pub gid: u32,
    pub nlink: u32,
    pub atime_ns: u64,
    pub mtime_ns: u64,
    pub ctime_ns: u64,
    pub size: u64,
    /// Memory object behind a regular file: capability, handle and size in bytes. All are
    /// zero until something is written.
    pub mo_cap: u64,
    pub mo_handle: u64,
    pub mo_capacity: u64,
    /// Bytes of the memory object that were touched so far; the ones above are zero.
    pub content: Vec<u8>,
    /// Names in a directory, the newest first.
    pub children: Vec<TmpfsEntry>,
    pub symlink: Handle,
    /// How many mappings hold the memory object.
    pub mmap_export_refs: u32,
    /// The vnode is gone and only mappings keep the storage.
    pub pending_release: bool,
    /// Inode number that mappings name the node by.
    pub mmap_id: u64,
}

/// A node of the in-memory filesystem with its contents as sequences.
#[verifier::ext_equal]
pub struct TmpNodeView {
    pub owner_mount: Handle,
    pub vnode: Handle,
    pub parent: Handle,
    pub kind: VnodeType,
    pub name: Seq<u8>,
    pub mode: u32,
    pub uid: u32,
    pub gid: u32,
    pub nlink: u32,
    pub atime_ns: u64,
    pub mtime_ns: u64,
    pub ctime_ns: u64,
    pub size: u64,
    pub mo_cap: u64,
    pub mo_handle: u64,
    pub mo_capacity: u64,
    pub content: Seq<u8>,
    pub children: Seq<EntryView>,
    pub symlink: Handle,
    pub mmap_export_refs: u32,
    pub pending_release: bool,
    pub mmap_id: u64,
}

impl View for TmpfsNode {
    type V = TmpNodeView;

    open spec fn view(&self) -> TmpNodeView {
        TmpNodeView {
            owner_mount: self.owner_mount,
            vnode: self.vnode,
            parent: self.parent,
            kind: self.kind,
            name: self.name@,
            mode: self.mode,
            uid: self.uid,
            gid: self.gid,
            nlink: self.nlink,
            atime_ns: self.atime_ns,
            mtime_ns: self.mtime_ns,
            ctime_ns: self.ctime_ns,
            size: self.size,
            mo_cap: self.mo_cap,
            mo_handle: self.mo_handle,
            mo_capacity: self.mo_capacity,
            content: self.content@,
            children: entry_views(self.children@),
            symlink: self.symlink,
            mmap_export_refs: self.mmap_export_refs,
            pending_release: self.pending_release,
            mmap_id: self.mmap_id,
        }
    }
}

impl TmpNodeView {
    /// A node with nothing set.
    pub open spec fn blank() -> TmpNodeView {
        TmpNodeView {
            owner_mount: Handle::invalid(),
            vnode: Handle::invalid(),
            parent: Handle::invalid(),
            kind: VnodeType::Unset,
            name: Seq::empty(),
            mode: 0,
            uid: 0,
            gid: 0,
            nlink: 0,
            atime_ns: 0,
            mtime_ns: 0,
            ctime_ns: 0,
            size: 0,
            mo_cap: 0,
            mo_handle: 0,
            mo_capacity: 0,
            content: Seq::empty(),
            children: Seq::empty(),
            symlink: Handle::invalid(),
            mmap_export_refs: 0,
            pending_release: false,
            mmap_id: 0,
        }
    }
}

impl TmpfsNode {
    /// A node with nothing set.
    pub fn blank() -> (r: TmpfsNode)
        ensures
            r@ == TmpNodeView::blank(),
    {
        let none = Handle::invalid();
        let r = TmpfsNode {
            owner_mount: none,
            vnode: none,
            parent: none,
            kind: VnodeType::Unset,
            name: Vec::new(),
            mode: 0,
            uid: 0,
            gid: 0,
            nlink: 0,
            atime_ns: 0,
            mtime_ns: 0,
            ctime_ns: 0,
            size: 0,
            mo_cap: 0,
            mo_handle: 0,
            mo_capacity: 0,
            content: Vec::new(),
            children: Vec::new(),
            symlink: none,
            mmap_export_refs: 0,
            pending_release: false,
            mmap_id: 0,
        };
        assert(r@ =~= TmpNodeView::blank());
        r
    }
}

/// A mount of the process filesystem. `hidepid` of one or more hides the directories of
/// other processes.
#[derive(Clone, Copy, PartialEq, Eq, Structural, Debug)]
pub struct ProcfsMountData {
    pub owner_mount: Handle,
    pub fs_instance_id: FsInstanceId,
    pub root_vnode: Handle,
    pub hidepid: u8,
}

impl View for ProcfsMountData {
    type V = ProcfsMountData;

    open spec fn view(&self) -> ProcfsMountData {
        *self
    }
}

/// What a node of the process filesystem shows.
#[derive(Clone, Copy, PartialEq, Eq, Structural, Debug)]
pub enum ProcNodeKind {
    SelfLink,
    RootStat,
    RootMeminfo,
    RootUptime,
    RootCpuinfo,
    RootLoadavg,
    RootVersion,
    RootMounts,
    RootFilesystems,
    PidDir,
    PidStat,
    PidStatus,
    PidCmdline,
    PidComm,
    PidStatm,
    PidExe,
}

/// A node of the process filesystem.
#[derive(Clone, Copy, PartialEq, Eq, Structural, Debug)]
pub struct ProcNode {
    pub owner_mount: Handle,
    pub vnode: Handle,
    pub kind: ProcNodeKind,
    pub pid: u32,
    /// Made on demand; goes away when nobody has it open.
    pub ephemeral: bool,
}

impl View for ProcNode {
    type V = ProcNode;

    open spec fn view(&self) -> ProcNode {
        *self
    }
}

/// A mount of the system-variable filesystem with its settable values.
pub struct SysctlfsMountData {
    pub owner_mount: Handle,
    pub fs_instance_id: FsInstanceId,
    pub root_vnode: Handle,
    pub hostname: Vec<u8>,
    pub securelevel: i32,
}

/// A system-variable mount with the host name as a sequence.
#[verifier::ext_equal]
pub struct SysctlMountView {
    pub owner_mount: Handle,
    pub fs_instance_id: FsInstanceId,
    pub root_vnode: Handle,
    pub hostname: Seq<u8>,
    pub securelevel: i32,
}

impl View for SysctlfsMountData {
    type V = SysctlMountView;

    open spec fn view(&self) -> SysctlMountView {
        SysctlMountView {
            owner_mount: self.owner_mount,
            fs_instance_id: self.fs_instance_id,
            root_vnode: self.root_vnode,
            hostname: self.hostname@,
            securelevel: self.securelevel,
        }
    }
}

/// Which variable a leaf of the system-variable filesystem shows.
#[derive(Clone, Copy, PartialEq, Eq, Structural, Debug)]
pub enum SysctlLeafKind {
    KernOstype,
    KernOsrelease,
    KernHostname,
    KernVersion,
    KernMaxproc,
    KernBoottime,
    KernUptime,
    KernContextSwitches,
    HwNcpu,
    HwPagesize,
    HwPhysmem,
    VmPhysmem,
    VmPagesFree,
    VmPageSize,
    SecuritySecurelevel,
}

/// A leaf of the system-variable filesystem.
#[derive(Clone, Copy, PartialEq, Eq, Structural, Debug)]
pub struct SysctlLeaf {
    pub owner_mount: Handle,
    pub vnode: Handle,
    pub kind: SysctlLeafKind,
}

impl View for SysctlLeaf {
    type V = SysctlLeaf;

    open spec fn view(&self) -> SysctlLeaf {
        *self
    }
}

/// A mount of the disk filesystem: its session with the disk server.
#[derive(Clone, Copy, PartialEq, Eq, Structural, Debug)]
pub struct SaltyfsMountData {
    pub owner_mount: Handle,
    pub fs_instance_id: FsInstanceId,
    pub root_vnode: Handle,
    pub fs_cap: u64,
    pub session_id: u32,
    pub max_inflight: u16,
    pub root_node: BackendNodeId,
    pub feature_bits: u64,
    pub shm_active: bool,
    pub noatime: bool,
    pub shm_vaddr: u64,
    pub shm_size: u64,
}

impl View for SaltyfsMountData {
    type V = SaltyfsMountData;

    open spec fn view(&self) -> SaltyfsMountData {
        *self
    }
}

/// What the service knows of a node of the disk filesystem.
pub struct SaltyfsNode {
    pub owner_mount: Handle,
    pub vnode: Handle,
    pub node_id: BackendNodeId,
    pub parent_node: Handle,
    pub blocks: u64,
    /// The root of its mount: it has no name.
    pub is_root: bool,
    pub name: Vec<u8>,
}

/// A node of the disk filesystem with its name as a sequence.
#[verifier::ext_equal]
pub struct SaltyNodeView {
    pub owner_mount: Handle,
    pub vnode: Handle,
    pub node_id: BackendNodeId,
    pub parent_node: Handle,
    pub blocks: u64,
    pub is_root: bool,
    pub name: Seq<u8>,
}

impl View for SaltyfsNode {
    type V = SaltyNodeView;

    open spec fn view(&self) -> SaltyNodeView {
        SaltyNodeView {
            owner_mount: self.owner_mount,
            vnode: self.vnode,
            node_id: self.node_id,
            parent_node: self.parent_node,
            blocks: self.blocks,
            is_root: self.is_root,
            name: self.name@,
        }
    }
}

} // verus!
