//! The state of the service: every table in one place, and the rules that keep the tables
//! of vnodes, mounts and clients together.

use crate::arena::{Arena, Handle, Table};
use crate::files::{
    ClientState, ClientView, EpollState, FifoState, OpenFile, PathAnchor, PipeState, PipeView,
    ShmState, SockView, UnixSocketState,
};
use crate::fs::records::{
    Blob, PlainMount, ProcNode, ProcfsMountData, SaltyNodeView, SaltyfsMountData, SaltyfsNode,
    SysctlLeaf, SysctlMountView, SysctlfsMountData, TmpNodeView, TmpfsMountData, TmpfsNode,
};
use crate::identity::{FsInstanceId, VnodeKey};
use crate::mount::{Mount, MountNamespace, MountView, NamespaceView};
use crate::vnode::Vnode;
use crate::vnode_index::{indexable, VnodeKeyIndex};
use crate::win32::{Win32Cwds, Win32View};
use vstd::prelude::*;

verus! {

// How many entries each table has room for.

pub const INITIAL_VNODE_CAP: u32 = 256;
pub const INITIAL_VNODE_KEY_INDEX_CAP: u32 = 1024;
pub const INITIAL_MOUNT_CAP: u32 = 32;
pub const INITIAL_MOUNT_NS_CAP: u32 = 8;
pub const INITIAL_CLIENT_CAP: u32 = 32;
pub const INITIAL_OPEN_FILE_CAP: u32 = 256;
pub const INITIAL_FIFO_CAP: u32 = 64;
pub const INITIAL_PIPE_CAP: u32 = 64;
pub const INITIAL_SHM_CAP: u32 = 64;
pub const INITIAL_EPOLL_CAP: u32 = 16;
pub const INITIAL_UNIX_SOCKET_CAP: u32 = 64;
pub const INITIAL_PIPEFS_MOUNT_CAP: u32 = 4;
pub const INITIAL_DEVFS_MOUNT_CAP: u32 = 4;
pub const INITIAL_PROCFS_MOUNT_CAP: u32 = 4;
pub const INITIAL_SYSCTLFS_MOUNT_CAP: u32 = 4;
pub const INITIAL_SYSCTL_LEAF_CAP: u32 = 32;
pub const INITIAL_PROC_NODE_CAP: u32 = 256;
pub const INITIAL_TMPFS_MOUNT_CAP: u32 = 8;
pub const INITIAL_TMPFS_NODE_CAP: u32 = 512;
pub const INITIAL_TMPFS_DIR_ENTRY_CAP: u32 = 1024;
pub const INITIAL_TMPFS_SYMLINK_CAP: u32 = 64;
pub const INITIAL_SALTYFS_MOUNT_CAP: u32 = 4;
pub const INITIAL_SALTYFS_NODE_CAP: u32 = 512;

/// Bytes in a page.
pub const MM_PAGE_SIZE: u64 = 4096;

/// One name in the bootstrap tree. Removed names leave an inactive entry behind.
pub struct BootEntry {
    pub active: bool,
    pub parent: Handle,
    pub vnode: Handle,
    pub name: Vec<u8>,
}

/// A name in the bootstrap tree as plain values.
#[verifier::ext_equal]
pub struct BootEntryView {
    pub active: bool,
    pub parent: Handle,
    pub vnode: Handle,
    pub name: Seq<u8>,
}

impl View for BootEntry {
    type V = BootEntryView;

    open spec fn view(&self) -> BootEntryView {
        BootEntryView {
            active: self.active,
            parent: self.parent,
            vnode: self.vnode,
            name: self.name@,
        }
    }
}

impl BootEntryView {
    /// What a removed name leaves behind.
    pub open spec fn removed() -> BootEntryView {
        BootEntryView {
            active: false,
            parent: Handle::invalid(),
            vnode: Handle::invalid(),
            name: Seq::empty(),
        }
    }
}

/// Entries of the bootstrap tree as plain values.
pub open spec fn boot_views(s: Seq<BootEntry>) -> Seq<BootEntryView> {
    s.map_values(|e: BootEntry| e@)
}

/// The directories of the bootstrap tree that mounts hang off, and the mounts that take
/// part in the change of the root.
#[derive(Clone, Copy, PartialEq, Eq, Structural, Debug)]
pub struct BootDirs {
    pub etc_dir: Handle,
    pub dev_dir: Handle,
    pub proc_dir: Handle,
    pub sys_dir: Handle,
    pub tmp_dir: Handle,
    pub pipe_dir: Handle,
    pub initramfs_dir: Handle,
    pub new_root_dir: Handle,
    pub put_old_dir: Handle,
    pub boot_root_mount: Handle,
    pub real_root_mount: Handle,
}

impl BootDirs {
    /// No directory is known yet.
    #[verifier::allow_in_spec]
    pub fn unset() -> (r: BootDirs)
        returns
            (BootDirs {
                etc_dir: Handle { slot: u32::MAX, epoch: 0 },
                dev_dir: Handle { slot: u32::MAX, epoch: 0 },
                proc_dir: Handle { slot: u32::MAX, epoch: 0 },
                sys_dir: Handle { slot: u32::MAX, epoch: 0 },
                tmp_dir: Handle { slot: u32::MAX, epoch: 0 },
                pipe_dir: Handle { slot: u32::MAX, epoch: 0 },
                initramfs_dir: Handle { slot: u32::MAX, epoch: 0 },
                new_root_dir: Handle { slot: u32::MAX, epoch: 0 },
                put_old_dir: Handle { slot: u32::MAX, epoch: 0 },
                boot_root_mount: Handle { slot: u32::MAX, epoch: 0 },
                real_root_mount: Handle { slot: u32::MAX, epoch: 0 },
            }),
    {
        let none = Handle { slot: u32::MAX, epoch: 0 };
        BootDirs {
            etc_dir: none,
            dev_dir: none,
            proc_dir: none,
            sys_dir: none,
            tmp_dir: none,
            pipe_dir: none,
            initramfs_dir: none,
            new_root_dir: none,
            put_old_dir: none,
            boot_root_mount: none,
            real_root_mount: none,
        }
    }
}

/// Something that another server or a waiting client must be told, in the order in which
/// it came up.
#[derive(Clone, Copy, PartialEq, Eq, Structural, Debug)]
pub enum Effect {
    /// A shared-memory object is to be destroyed.
    ShmDestroy { id: u64 },
    /// A network connection is to be closed.
    NetClose { conn_id: u32 },
    /// One side of a terminal was closed.
    PtyClose { pty_id: u32, master: bool },
    /// Whatever the client of this badge waits for ends.
    CancelWaiters { badge: u64 },
    /// Requests that wait for this local socket end.
    CancelSocketWaiters { socket: Handle },
    /// Requests that wait for any local socket are tried again.
    DriveSocketWaiters,
    /// Requests that wait for this network connection end.
    CancelInetWaiters { conn_id: u32 },
    /// A memory object is given back.
    MoFree { cap: u64, handle: u64 },
    /// A memory object gets another size.
    MoResize { cap: u64, old_pages: u64, new_pages: u64 },
    /// A session with the disk server ends.
    DiskClose { cap: u64, session_id: u32 },
    /// Memory that is shared with the disk server is unmapped.
    DiskUnmap { vaddr: u64 },
}

/// Which other servers can be reached.
#[derive(Clone, Copy, PartialEq, Eq, Structural, Debug)]
pub struct Services {
    /// Endpoint of the terminal server, zero when there is none.
    pub ttysrv_ep: u64,
    /// Endpoint of the network server, zero when there is none.
    pub netsrv_ep: u64,
    /// Endpoint that the network server calls back on, zero when there is none.
    pub netsrv_callback_ep: u64,
}

/// All state of the service.
pub struct VfsState {
    pub vnodes: Arena<Vnode>,
    pub blobs: Arena<Blob>,
    pub index: VnodeKeyIndex,
    pub mounts: Arena<Mount>,
    pub namespaces: Arena<MountNamespace>,
    pub root_mount: Handle,
    pub global_ns: Handle,
    pub open_files: Arena<OpenFile>,
    pub fifos: Arena<FifoState>,
    pub pipes: Arena<PipeState>,
    pub shms: Arena<ShmState>,
    pub epolls: Arena<EpollState>,
    pub unix_sockets: Arena<UnixSocketState>,
    pub clients: Arena<ClientState>,
    pub win32: Win32Cwds,
    pub boot_entries: Vec<BootEntry>,
    pub boot_dirs: BootDirs,
    pub next_fs_instance_id: FsInstanceId,
    pub devfs_mounts: Arena<PlainMount>,
    pub pipefs_mounts: Arena<PlainMount>,
    pub procfs_mounts: Arena<ProcfsMountData>,
    pub proc_nodes: Arena<ProcNode>,
    pub sysctlfs_mounts: Arena<SysctlfsMountData>,
    pub sysctl_leaves: Arena<SysctlLeaf>,
    pub tmpfs_mounts: Arena<TmpfsMountData>,
    pub tmpfs_nodes: Arena<TmpfsNode>,
    /// Directory entries of the in-memory filesystem in use.
    pub tmpfs_entries: u32,
    pub tmpfs_symlinks: Arena<Blob>,
    pub saltyfs_mounts: Arena<SaltyfsMountData>,
    pub saltyfs_nodes: Arena<SaltyfsNode>,
    pub services: Services,
    /// What is to be told to others, oldest first.
    pub outbox: Vec<Effect>,
}

/// All state of the service as plain mathematical values.
#[verifier::ext_equal]
pub struct VfsModel {
    pub vnodes: Table<Vnode>,
    pub blobs: Table<Seq<u8>>,
    pub index: Map<VnodeKey, Handle>,
    pub index_room: u32,
    pub mounts: Table<MountView>,
    pub namespaces: Table<NamespaceView>,
    pub root_mount: Handle,
    pub global_ns: Handle,
    pub open_files: Table<OpenFile>,
    pub fifos: Table<FifoState>,
    pub pipes: Table<PipeView>,
    pub shms: Table<ShmState>,
    pub epolls: Table<EpollState>,
    pub unix_sockets: Table<SockView>,
    pub clients: Table<ClientView>,
    pub win32: Seq<Win32View>,
    pub boot_entries: Seq<BootEntryView>,
    pub boot_dirs: BootDirs,
    pub next_fs_instance_id: FsInstanceId,
    pub devfs_mounts: Table<PlainMount>,
    pub pipefs_mounts: Table<PlainMount>,
    pub procfs_mounts: Table<ProcfsMountData>,
    pub proc_nodes: Table<ProcNode>,
    pub sysctlfs_mounts: Table<SysctlMountView>,
    pub sysctl_leaves: Table<SysctlLeaf>,
    pub tmpfs_mounts: Table<TmpfsMountData>,
    pub tmpfs_nodes: Table<TmpNodeView>,
    pub tmpfs_entries: u32,
    pub tmpfs_symlinks: Table<Seq<u8>>,
    pub saltyfs_mounts: Table<SaltyfsMountData>,
    pub saltyfs_nodes: Table<SaltyNodeView>,
    pub services: Services,
    pub outbox: Seq<Effect>,
}

impl View for VfsState {
    type V = VfsModel;

    open spec fn view(&self) -> VfsModel {
        VfsModel {
            vnodes: self.vnodes@,
            blobs: self.blobs@,
            index: self.index@,
            index_room: self.index.capacity(),
            mounts: self.mounts@,
            namespaces: self.namespaces@,
            root_mount: self.root_mount,
            global_ns: self.global_ns,
            open_files: self.open_files@,
            fifos: self.fifos@,
            pipes: self.pipes@,
            shms: self.shms@,
            epolls: self.epolls@,
            unix_sockets: self.unix_sockets@,
            clients: self.clients@,
            win32: self.win32@,
            boot_entries: boot_views(self.boot_entries@),
            boot_dirs: self.boot_dirs,
            next_fs_instance_id: self.next_fs_instance_id,
            devfs_mounts: self.devfs_mounts@,
            pipefs_mounts: self.pipefs_mounts@,
            procfs_mounts: self.procfs_mounts@,
            proc_nodes: self.proc_nodes@,
            sysctlfs_mounts: self.sysctlfs_mounts@,
            sysctl_leaves: self.sysctl_leaves@,
            tmpfs_mounts: self.tmpfs_mounts@,
            tmpfs_nodes: self.tmpfs_nodes@,
            tmpfs_entries: self.tmpfs_entries,
            tmpfs_symlinks: self.tmpfs_symlinks@,
            saltyfs_mounts: self.saltyfs_mounts@,
            saltyfs_nodes: self.saltyfs_nodes@,
            services: self.services,
            outbox: self.outbox@,
        }
    }
}

/// A table without entries.
pub open spec fn empty_table<V>(limit: u32) -> Table<V> {
    Table { live: Map::empty(), epochs: Seq::empty(), limit }
}

/// The index after an attempt to store `h` under `key`.
pub open spec fn index_put(
    index: Map<VnodeKey, Handle>,
    room: u32,
    key: VnodeKey,
    h: Handle,
) -> Map<VnodeKey, Handle> {
    if indexable(key) && h.is_valid() && (index.contains_key(key) || index.dom().len() < room) {
        index.insert(key, h)
    } else {
        index
    }
}

/// The index after `key` was dropped if `h` was stored under it.
pub open spec fn index_drop(index: Map<VnodeKey, Handle>, key: VnodeKey, h: Handle) -> Map<
    VnodeKey,
    Handle,
> {
    if index.contains_key(key) && index[key] == h {
        index.remove(key)
    } else {
        index
    }
}

/// The instance identity that follows `id`. Zero is skipped.
pub open spec fn instance_after(id: FsInstanceId) -> FsInstanceId {
    if id.0 == u64::MAX {
        FsInstanceId(1)
    } else {
        FsInstanceId((id.0 + 1) as u64)
    }
}

impl VfsModel {
    /// The state at start, before the namespace is built.
    pub open spec fn initial(services: Services) -> VfsModel {
        VfsModel {
            vnodes: empty_table(INITIAL_VNODE_CAP),
            blobs: empty_table(INITIAL_VNODE_CAP),
            index: Map::empty(),
            index_room: INITIAL_VNODE_KEY_INDEX_CAP,
            mounts: empty_table(INITIAL_MOUNT_CAP),
            namespaces: empty_table(INITIAL_MOUNT_NS_CAP),
            root_mount: Handle::invalid(),
            global_ns: Handle::invalid(),
            open_files: empty_table(INITIAL_OPEN_FILE_CAP),
            fifos: empty_table(INITIAL_FIFO_CAP),
            pipes: empty_table(INITIAL_PIPE_CAP),
            shms: empty_table(INITIAL_SHM_CAP),
            epolls: empty_table(INITIAL_EPOLL_CAP),
            unix_sockets: empty_table(INITIAL_UNIX_SOCKET_CAP),
            clients: empty_table(INITIAL_CLIENT_CAP),
            win32: Seq::empty(),
            boot_entries: Seq::empty(),
            boot_dirs: BootDirs::unset(),
            next_fs_instance_id: FsInstanceId(1),
            devfs_mounts: empty_table(INITIAL_DEVFS_MOUNT_CAP),
            pipefs_mounts: empty_table(INITIAL_PIPEFS_MOUNT_CAP),
            procfs_mounts: empty_table(INITIAL_PROCFS_MOUNT_CAP),
            proc_nodes: empty_table(INITIAL_PROC_NODE_CAP),
            sysctlfs_mounts: empty_table(INITIAL_SYSCTLFS_MOUNT_CAP),
            sysctl_leaves: empty_table(INITIAL_SYSCTL_LEAF_CAP),
            tmpfs_mounts: empty_table(INITIAL_TMPFS_MOUNT_CAP),
            tmpfs_nodes: empty_table(INITIAL_TMPFS_NODE_CAP),
            tmpfs_entries: 0,
            tmpfs_symlinks: empty_table(INITIAL_TMPFS_SYMLINK_CAP),
            saltyfs_mounts: empty_table(INITIAL_SALTYFS_MOUNT_CAP),
            saltyfs_nodes: empty_table(INITIAL_SALTYFS_NODE_CAP),
            services,
            outbox: Seq::empty(),
        }
    }

    /// The state with vnode `v` replaced, where it is live.
    pub open spec fn with_vnode(self, v: Handle, vn: Vnode) -> VfsModel {
        VfsModel { vnodes: self.vnodes.put(v, vn), ..self }
    }

    /// The state with vnode `v` in the index under its present key.
    pub open spec fn cached(self, v: Handle) -> VfsModel {
        if self.vnodes.has(v) {
            VfsModel {
                index: index_put(self.index, self.index_room, self.vnodes.at(v).vnode_key(), v),
                ..self
            }
        } else {
            self
        }
    }

    /// The state without vnode `v` in the index under its present key.
    pub open spec fn uncached(self, v: Handle) -> VfsModel {
        if self.vnodes.has(v) {
            VfsModel {
                index: index_drop(self.index, self.vnodes.at(v).vnode_key(), v),
                ..self
            }
        } else {
            self
        }
    }

    /// The state with something more to be told to others.
    pub open spec fn telling(self, e: Effect) -> VfsModel {
        VfsModel { outbox: self.outbox.push(e), ..self }
    }

    /// The root directory of the namespace.
    pub open spec fn root_vnode(self) -> Option<Handle> {
        match self.mounts.entry(self.root_mount) {
            Some(mt) => Some(mt.root_vnode),
            None => None,
        }
    }

    /// The mount with instance identity `id`.
    pub open spec fn mount_of_instance(self, id: FsInstanceId) -> Option<Handle> {
        self.mounts.first(|h: Handle, mt: MountView| mt.fs_instance_id == id)
    }

    /// The vnode that the index or, failing that, a scan finds under `key`.
    pub open spec fn vnode_of_key(self, key: VnodeKey) -> Option<Handle> {
        if self.index.contains_key(key) && self.vnodes.has(self.index[key]) && self.vnodes.at(
            self.index[key],
        ).vnode_key() == key {
            Some(self.index[key])
        } else {
            self.vnodes.first(|h: Handle, vn: Vnode| vn.vnode_key() == key)
        }
    }

    /// The state after a vnode was looked up by `key`: what the scan found is in the index
    /// and a stale entry is gone.
    pub open spec fn key_looked_up(self, key: VnodeKey) -> VfsModel {
        if self.index.contains_key(key) && self.vnodes.has(self.index[key]) && self.vnodes.at(
            self.index[key],
        ).vnode_key() == key {
            self
        } else {
            let cleared = if self.index.contains_key(key) {
                self.index.remove(key)
            } else {
                self.index
            };
            match self.vnode_of_key(key) {
                Some(h) => VfsModel {
                    index: index_put(cleared, self.index_room, key, h),
                    ..self
                },
                None => VfsModel { index: cleared, ..self },
            }
        }
    }

    /// The place that vnode `v` stands for.
    pub open spec fn anchor_of(self, v: Handle) -> Option<PathAnchor> {
        match self.vnodes.entry(v) {
            Some(vn) => Some(PathAnchor { mount: vn.mount, vnode: vn.vnode_key() }),
            None => None,
        }
    }

    /// The client that sends under `badge`: the first whose badge agrees with it, fully or
    /// in the low sixteen bits.
    pub open spec fn client_of_badge(self, badge: u64) -> Option<Handle> {
        self.clients.first(
            |h: Handle, c: ClientView| c.badge == badge || (c.badge & 0xffff) == (badge & 0xffff),
        )
    }
}

impl VfsState {
    /// The state at start. `None` only where no index can be made.
    pub fn new(services: Services) -> (r: Option<VfsState>)
        ensures
            r is Some,
            r->0@ == VfsModel::initial(services),
    {
        assert(1024u32 & 1023u32 == 0) by (bit_vector);
        let index = match VnodeKeyIndex::new(INITIAL_VNODE_KEY_INDEX_CAP) {
            Some(i) => i,
            None => {
                return None;
            },
        };
        let r = VfsState {
            vnodes: Arena::new(INITIAL_VNODE_CAP),
            blobs: Arena::new(INITIAL_VNODE_CAP),
            index,
            mounts: Arena::new(INITIAL_MOUNT_CAP),
            namespaces: Arena::new(INITIAL_MOUNT_NS_CAP),
            root_mount: Handle::invalid(),
            global_ns: Handle::invalid(),
            open_files: Arena::new(INITIAL_OPEN_FILE_CAP),
            fifos: Arena::new(INITIAL_FIFO_CAP),
            pipes: Arena::new(INITIAL_PIPE_CAP),
            shms: Arena::new(INITIAL_SHM_CAP),
            epolls: Arena::new(INITIAL_EPOLL_CAP),
            unix_sockets: Arena::new(INITIAL_UNIX_SOCKET_CAP),
            clients: Arena::new(INITIAL_CLIENT_CAP),
            win32: Win32Cwds::new(),
            boot_entries: Vec::new(),
            boot_dirs: BootDirs::unset(),
            next_fs_instance_id: FsInstanceId(1),
            devfs_mounts: Arena::new(INITIAL_DEVFS_MOUNT_CAP),
            pipefs_mounts: Arena::new(INITIAL_PIPEFS_MOUNT_CAP),
            procfs_mounts: Arena::new(INITIAL_PROCFS_MOUNT_CAP),
            proc_nodes: Arena::new(INITIAL_PROC_NODE_CAP),
            sysctlfs_mounts: Arena::new(INITIAL_SYSCTLFS_MOUNT_CAP),
            sysctl_leaves: Arena::new(INITIAL_SYSCTL_LEAF_CAP),
            tmpfs_mounts: Arena::new(INITIAL_TMPFS_MOUNT_CAP),
            tmpfs_nodes: Arena::new(INITIAL_TMPFS_NODE_CAP),
            tmpfs_entries: 0,
            tmpfs_symlinks: Arena::new(INITIAL_TMPFS_SYMLINK_CAP),
            saltyfs_mounts: Arena::new(INITIAL_SALTYFS_MOUNT_CAP),
            saltyfs_nodes: Arena::new(INITIAL_SALTYFS_NODE_CAP),
            services,
            outbox: Vec::new(),
        };
        assert(r@.boot_entries =~= Seq::<BootEntryView>::empty());
        assert(r@ =~= VfsModel::initial(services));
        Some(r)
    }

    /// Takes the next instance identity. It is never zero.
    pub fn alloc_fs_instance_id(&mut self) -> (r: FsInstanceId)
        ensures
            r == old(self)@.next_fs_instance_id,
            final(self)@ == (VfsModel {
                next_fs_instance_id: instance_after(old(self)@.next_fs_instance_id),
                ..old(self)@
            }),
    {
        let current = self.next_fs_instance_id;
        let next: u64 = current.0.wrapping_add(1);
        self.next_fs_instance_id = FsInstanceId(
            if next == 0 {
                1
            } else {
                next
            },
        );
        current
    }

    /// Takes everything that is to be told to others.
    pub fn take_effects(&mut self) -> (r: Vec<Effect>)
        ensures
            r@ == old(self)@.outbox,
            final(self)@ == (VfsModel { outbox: Seq::empty(), ..old(self)@ }),
    {
        let mut out: Vec<Effect> = Vec::new();
        std::mem::swap(&mut out, &mut self.outbox);
        assert(self.outbox@ =~= Seq::<Effect>::empty());
        out
    }

    /// Puts a vnode in the index under its present key, where the key can be indexed.
    pub fn cache_vnode_key(&mut self, vnode: Handle)
        ensures
            final(self)@ == old(self)@.cached(vnode),
    {
        let key = match self.vnodes.get(vnode) {
            Some(vn) => vn.vnode_key(),
            None => {
                return;
            },
        };
        let _ = self.index.insert(key, vnode);
    }

    /// Takes a vnode out of the index.
    pub fn uncache_vnode_key(&mut self, vnode: Handle)
        ensures
            final(self)@ == old(self)@.uncached(vnode),
    {
        let key = match self.vnodes.get(vnode) {
            Some(vn) => vn.vnode_key(),
            None => {
                return;
            },
        };
        let _ = self.index.remove(key, Some(vnode));
    }

    /// Moves a vnode in the index from the key it had to its present one.
    pub fn refresh_vnode_key(&mut self, vnode: Handle, old_key: VnodeKey)
        ensures
            final(self)@ == (VfsModel {
                index: index_drop(old(self)@.index, old_key, vnode),
                ..old(self)@
            }).cached(vnode),
    {
        let _ = self.index.remove(old_key, Some(vnode));
        self.cache_vnode_key(vnode);
    }

    /// The root directory of the namespace.
    pub fn root_vnode(&self) -> (r: Option<Handle>)
        ensures
            r == self@.root_vnode(),
    {
        match self.mounts.get(self.root_mount) {
            Some(mt) => Some(mt.root_vnode),
            None => None,
        }
    }

    /// The mount with instance identity `id`.
    pub fn mount_by_fs_instance_id(&self, id: FsInstanceId) -> (r: Option<Handle>)
        ensures
            r == self@.mount_of_instance(id),
            match r {
                Some(h) => self@.mounts.has(h) && self@.mounts.at(h).fs_instance_id == id,
                None => forall|h: Handle| #[trigger]
                    self@.mounts.has(h) ==> self@.mounts.at(h).fs_instance_id != id,
            },
    {
        self.mounts.find(
            |h: Handle, mt: &Mount| -> (b: bool) ensures b == (mt@.fs_instance_id == id) { mt.fs_instance_id == id },
            Ghost(|h: Handle, mt: MountView| mt.fs_instance_id == id),
        )
    }

    /// The vnode with identity `key`, through the index where it knows one. What a scan
    /// finds goes into the index; a stale entry leaves it.
    pub fn vnode_by_key(&mut self, key: VnodeKey) -> (r: Option<Handle>)
        ensures
            r == old(self)@.vnode_of_key(key),
            final(self)@ == old(self)@.key_looked_up(key),
            match r {
                Some(h) => old(self)@.vnodes.has(h) && old(self)@.vnodes.at(h).vnode_key() == key,
                None => forall|h: Handle| #[trigger]
                    old(self)@.vnodes.has(h) ==> old(self)@.vnodes.at(h).vnode_key() != key,
            },
    {
        if let Some(vh) = self.index.lookup(key) {
            let current: bool = match self.vnodes.get(vh) {
                Some(vn) => vn.vnode_key() == key,
                None => false,
            };
            if current {
                return Some(vh);
            }
            let _ = self.index.remove(key, Some(vh));
        }
        let found = self.vnodes.find(
            |h: Handle, vn: &Vnode| -> (b: bool) ensures b == (vn@.vnode_key() == key) { vn.vnode_key() == key },
            Ghost(|h: Handle, vn: Vnode| vn.vnode_key() == key),
        );
        if let Some(h) = found {
            let _ = self.index.insert(key, h);
        }
        found
    }

    /// The place that a vnode stands for.
    pub fn anchor_for_vnode(&self, vnode: Handle) -> (r: Option<PathAnchor>)
        ensures
            r == self@.anchor_of(vnode),
    {
        match self.vnodes.get(vnode) {
            Some(vn) => Some(PathAnchor { mount: vn.mount, vnode: vn.vnode_key() }),
            None => None,
        }
    }

    /// The vnode at a place, if the place names one.
    pub fn resolve_anchor_vnode(&mut self, anchor: PathAnchor) -> (r: Option<Handle>)
        ensures
            r == (if anchor.is_valid() {
                old(self)@.vnode_of_key(anchor.vnode)
            } else {
                None
            }),
            final(self)@ == (if anchor.is_valid() {
                old(self)@.key_looked_up(anchor.vnode)
            } else {
                old(self)@
            }),
    {
        if !anchor.is_valid() {
            return None;
        }
        self.vnode_by_key(anchor.vnode)
    }

    /// The client that sends under `badge`.
    pub fn lookup_client(&self, badge: u64) -> (r: Option<Handle>)
        ensures
            r == self@.client_of_badge(badge),
            r matches Some(h) ==> self@.clients.has(h),
    {
        self.clients.find(
            |h: Handle, c: &ClientState| -> (b: bool) ensures b == (c@.badge == badge || (c@.badge & 0xffff) == (badge & 0xffff)) { c.badge_of() == badge || (c.badge_of() & 0xffff) == (badge & 0xffff) },
            Ghost(
                |h: Handle, c: ClientView|
                    c.badge == badge || (c.badge & 0xffff) == (badge & 0xffff),
            ),
        )
    }
}

/// An instance identity is never zero, and two in a row differ.
pub proof fn law_instance_ids_are_valid(id: FsInstanceId)
    requires
        id != FsInstanceId::invalid(),
    ensures
        instance_after(id) != FsInstanceId::invalid(),
        instance_after(id) != id,
{
}

/// A vnode that was just indexed is found under its key, and one that was taken out and
/// has gone is not, unless another live vnode has the same key.
pub proof fn law_index_tracks_vnodes(m: VfsModel, v: Handle)
    requires
        m.vnodes.wf(),
        m.vnodes.has(v),
        indexable(m.vnodes.at(v).vnode_key()),
        v.is_valid(),
        m.index.contains_key(m.vnodes.at(v).vnode_key()) || m.index.dom().len() < m.index_room,
    ensures
        m.cached(v).vnode_of_key(m.vnodes.at(v).vnode_key()) == Some(v),
        !m.cached(v).uncached(v).index.contains_key(m.vnodes.at(v).vnode_key()),
        (forall|o: Handle| #[trigger]
            m.vnodes.has(o) && o != v ==> m.vnodes.at(o).vnode_key() != m.vnodes.at(v).vnode_key())
            ==> (VfsModel {
            vnodes: m.vnodes.dropped(v),
            ..m.cached(v).uncached(v)
        }).vnode_of_key(m.vnodes.at(v).vnode_key()) is None,
{
    let key = m.vnodes.at(v).vnode_key();
    let gone = VfsModel { vnodes: m.vnodes.dropped(v), ..m.cached(v).uncached(v) };
    assert(gone.vnodes.wf()) by {
        assert forall|h: Handle| #[trigger] gone.vnodes.live.contains_key(h) implies h.slot
            < gone.vnodes.epochs.len() && gone.vnodes.epochs[h.slot as int] == h.epoch by {
            assert(m.vnodes.live.contains_key(h));
            assert(m.vnodes.live.contains_key(v));
        }
    }
    gone.vnodes.lemma_scan(|h: Handle, vn: Vnode| vn.vnode_key() == key, 0);
    if gone.vnode_of_key(key) is Some {
        let o = gone.vnode_of_key(key)->0;
        assert(gone.vnodes.has(o));
        assert(m.vnodes.has(o));
    }
}

} // verus!
