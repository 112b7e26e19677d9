//! Making and dropping the mounts of the filesystems.

use crate::arena::Handle;
use crate::fs::records::{PlainMount, TmpNodeView, TmpfsMountData, TmpfsNode};
use crate::fs::tmpfs::{
    find_mount_data_handle, parse_mount_opts, release_node_storage, stated_opts,
};
use crate::identity::FsInstanceId;
use crate::mount::{Mount, MountView, VfsOps, VnodeOps, MNT_CASEFOLD};
use crate::state::{instance_after, VfsModel, VfsState};
use crate::vnode::{Backend, MountRef, Vnode, VnodeType, S_IFDIR};
use vstd::prelude::*;
use vstd::slice::slice_to_vec;
use vstd::string::*;

verus! {

/// Root vnode of a mount: the backend serves it.
#[verifier::allow_in_spec]
pub fn mounted_root(backend: Backend, fs_id: FsInstanceId, mount: Handle) -> (r: Vnode)
    returns
        (Vnode {
            backend,
            ops: Some(backend),
            mount: MountRef { id: fs_id, handle: mount },
            ..Vnode::new_root_dir(fs_id)
        }),
{
    let mut v = Vnode::new_root_dir(fs_id);
    v.backend = backend;
    v.ops = Some(backend);
    v.mount = MountRef { id: fs_id, handle: mount };
    v
}

/// Number that a mount in slot `slot` shows.
#[verifier::allow_in_spec]
pub fn mount_number(slot: u32) -> (r: u16)
    returns
        (slot.saturating_add(1) as u16),
{
    slot.saturating_add(1) as u16
}

impl VfsModel {
    /// The root vnode and the mount that the next mount gets, if both can be had.
    pub open spec fn mount_slots(self) -> Option<(Handle, Handle)> {
        match (self.vnodes.next(), self.mounts.next()) {
            (Some(v), Some(mh)) => Some((v, mh)),
            _ => None,
        }
    }

    /// The state with a root vnode and a mount reserved, as far as they can be had.
    pub open spec fn slots_reserved(self) -> VfsModel {
        if self.vnodes.next() is None {
            self
        } else {
            VfsModel {
                vnodes: self.vnodes.grown(Vnode::zeroed()),
                mounts: self.mounts.grown(MountView::blank()),
                ..self
            }
        }
    }

    /// The state with an instance identity taken.
    pub open spec fn instance_taken(self) -> VfsModel {
        VfsModel { next_fs_instance_id: instance_after(self.next_fs_instance_id), ..self }
    }

    /// The state with reserved mount `mh` and its root `rv` filled in.
    pub open spec fn mount_filled(
        self,
        rv: Handle,
        root: Vnode,
        mh: Handle,
        mt: MountView,
    ) -> VfsModel {
        VfsModel {
            vnodes: self.vnodes.put(rv, root),
            mounts: self.mounts.put(mh, mt),
            ..self
        }.cached(rv)
    }

    /// The state with reserved mount `mh` and its root `rv` filled in for a backend.
    pub open spec fn backend_mounted(
        self,
        rv: Handle,
        mh: Handle,
        fs_id: FsInstanceId,
        backend: Backend,
        flags: u32,
        name: Seq<u8>,
        path: Seq<u8>,
    ) -> VfsModel {
        self.mount_filled(
            rv,
            mounted_root(backend, fs_id, mh),
            mh,
            MountView::structural(mount_number(mh.slot), flags, fs_id, rv, backend, name, path),
        )
    }
}

pub(crate) fn reserve_slots(state: &mut VfsState) -> (r: Option<(Handle, Handle)>)
    ensures
        r == old(state)@.mount_slots(),
        final(state)@ == old(state)@.slots_reserved(),
        r matches Some(p) ==> final(state)@.vnodes.has(p.0) && final(state)@.mounts.has(p.1),
{
    let rv = match state.vnodes.reserve(Vnode::zeroed()) {
        Some(h) => h,
        None => {
            return None;
        },
    };
    match state.mounts.reserve(Mount::blank()) {
        Some(mh) => Some((rv, mh)),
        None => None,
    }
}

pub(crate) fn fill_mount(state: &mut VfsState, rv: Handle, root: Vnode, mh: Handle, mt: Mount)
    ensures
        final(state)@ == old(state)@.mount_filled(rv, root, mh, mt@),
{
    let _ = state.vnodes.set(rv, root);
    let _ = state.mounts.set(mh, mt);
    state.cache_vnode_key(rv);
}

// ---- devices and pipes -------------------------------------------------------------

/// A mount of the device filesystem.
#[verifier::allow_in_spec]
pub fn mount_is_devfs(backend: Backend) -> (r: bool)
    returns
        backend == Backend::Devfs,
{
    backend == Backend::Devfs
}

/// Mount operations of the device filesystem.
#[verifier::allow_in_spec]
pub fn devfs_vfsops() -> (r: VfsOps)
    returns
        VfsOps::empty(),
{
    VfsOps::empty()
}

/// Vnode operations of the device filesystem: devices are served elsewhere.
#[verifier::allow_in_spec]
pub fn devfs_vops() -> (r: VnodeOps)
    returns
        VnodeOps::empty(),
{
    VnodeOps::empty()
}

/// A mount of the pipe filesystem.
#[verifier::allow_in_spec]
pub fn mount_is_pipefs(backend: Backend) -> (r: bool)
    returns
        backend == Backend::Pipefs,
{
    backend == Backend::Pipefs
}

/// Mount operations of the pipe filesystem.
#[verifier::allow_in_spec]
pub fn pipefs_vfsops() -> (r: VfsOps)
    returns
        VfsOps::empty(),
{
    VfsOps::empty()
}

/// Vnode operations of the pipe filesystem.
#[verifier::allow_in_spec]
pub fn pipefs_vops() -> (r: VnodeOps)
    returns
        VnodeOps::empty(),
{
    VnodeOps::empty()
}

impl VfsModel {
    /// The state after a mount of this filesystem was made, and the mount. Where a table is
    /// full, what was reserved by then stays reserved.
    pub open spec fn devfs_made(self, path: Seq<u8>, flags: u32) -> (VfsModel, Option<Handle>) {
        let s = self.slots_reserved();
        match self.mount_slots() {
            None => (s, None),
            Some((rv, mh)) => if s.devfs_mounts.next() is None {
                (s, None)
            } else {
                let fs_id = s.next_fs_instance_id;
                (
                    VfsModel {
                        devfs_mounts: s.devfs_mounts.grown(
                            PlainMount { owner_mount: mh, fs_instance_id: fs_id, root_vnode: rv },
                        ),
                        ..s
                    }.instance_taken().backend_mounted(
                        rv,
                        mh,
                        fs_id,
                        Backend::Devfs,
                        flags,
                        "devfs".spec_bytes(),
                        path,
                    ),
                    Some(mh),
                )
            },
        }
    }

    /// The state after a mount of this filesystem was made, and the mount. Where a table is
    /// full, what was reserved by then stays reserved.
    pub open spec fn pipefs_made(self, path: Seq<u8>, flags: u32) -> (VfsModel, Option<Handle>) {
        let s = self.slots_reserved();
        match self.mount_slots() {
            None => (s, None),
            Some((rv, mh)) => if s.pipefs_mounts.next() is None {
                (s, None)
            } else {
                let fs_id = s.next_fs_instance_id;
                (
                    VfsModel {
                        pipefs_mounts: s.pipefs_mounts.grown(
                            PlainMount { owner_mount: mh, fs_instance_id: fs_id, root_vnode: rv },
                        ),
                        ..s
                    }.instance_taken().backend_mounted(
                        rv,
                        mh,
                        fs_id,
                        Backend::Pipefs,
                        flags,
                        "pipefs".spec_bytes(),
                        path,
                    ),
                    Some(mh),
                )
            },
        }
    }
}

/// Mounts the device filesystem. `None` when a table is full; what was reserved by then
/// stays reserved.
pub fn alloc_devfs_mount(state: &mut VfsState, mount_path: &[u8], flags: u32) -> (r: Option<Handle>)
    ensures
        (final(state)@, r) == old(state)@.devfs_made(mount_path@, flags),
{
    let (rv, mh) = match reserve_slots(state) {
        Some(p) => p,
        None => {
            return None;
        },
    };
    let fs_id = state.next_fs_instance_id;
    if state.devfs_mounts.reserve(
        PlainMount { owner_mount: mh, fs_instance_id: fs_id, root_vnode: rv },
    ).is_none() {
        return None;
    }
    let _ = state.alloc_fs_instance_id();
    let mt = Mount::new_structural(
        mount_number(mh.slot),
        flags,
        fs_id,
        rv,
        Backend::Devfs,
        "devfs".as_bytes(),
        mount_path,
    );
    fill_mount(state, rv, mounted_root(Backend::Devfs, fs_id, mh), mh, mt);
    Some(mh)
}

/// Mounts the pipe filesystem. `None` when a table is full; what was reserved by then
/// stays reserved.
pub fn alloc_pipefs_mount(state: &mut VfsState, mount_path: &[u8], flags: u32) -> (r: Option<
    Handle,
>)
    ensures
        (final(state)@, r) == old(state)@.pipefs_made(mount_path@, flags),
{
    let (rv, mh) = match reserve_slots(state) {
        Some(p) => p,
        None => {
            return None;
        },
    };
    let fs_id = state.next_fs_instance_id;
    if state.pipefs_mounts.reserve(
        PlainMount { owner_mount: mh, fs_instance_id: fs_id, root_vnode: rv },
    ).is_none() {
        return None;
    }
    let _ = state.alloc_fs_instance_id();
    let mt = Mount::new_structural(
        mount_number(mh.slot),
        flags,
        fs_id,
        rv,
        Backend::Pipefs,
        "pipefs".as_bytes(),
        mount_path,
    );
    fill_mount(state, rv, mounted_root(Backend::Pipefs, fs_id, mh), mh, mt);
    Some(mh)
}

/// Drops the record of a mount of the device filesystem, if it has one.
pub fn release_devfs_mount(state: &mut VfsState, owner_mount: Handle) -> (r: bool)
    ensures
        r,
        final(state)@ == (match old(state)@.devfs_mounts.first(
            |h: Handle, d: PlainMount| d.owner_mount == owner_mount,
        ) {
            Some(h) => VfsModel { devfs_mounts: old(state)@.devfs_mounts.dropped(h), ..old(state)@ },
            None => old(state)@,
        }),
{
    let found = state.devfs_mounts.find(
        |h: Handle, d: &PlainMount| -> (b: bool) ensures b == (d@.owner_mount == owner_mount) { d.owner_mount == owner_mount },
        Ghost(|h: Handle, d: PlainMount| d.owner_mount == owner_mount),
    );
    match found {
        Some(h) => state.devfs_mounts.release(h),
        None => true,
    }
}

/// Drops the record of a mount of the pipe filesystem, if it has one.
pub fn release_pipefs_mount(state: &mut VfsState, owner_mount: Handle) -> (r: bool)
    ensures
        r,
        final(state)@ == (match old(state)@.pipefs_mounts.first(
            |h: Handle, d: PlainMount| d.owner_mount == owner_mount,
        ) {
            Some(h) => VfsModel {
                pipefs_mounts: old(state)@.pipefs_mounts.dropped(h),
                ..old(state)@
            },
            None => old(state)@,
        }),
{
    let found = state.pipefs_mounts.find(
        |h: Handle, d: &PlainMount| -> (b: bool) ensures b == (d@.owner_mount == owner_mount) { d.owner_mount == owner_mount },
        Ghost(|h: Handle, d: PlainMount| d.owner_mount == owner_mount),
    );
    match found {
        Some(h) => state.pipefs_mounts.release(h),
        None => true,
    }
}

// ---- memory ------------------------------------------------------------------------

/// A mount record that belongs to no mount yet.
#[verifier::allow_in_spec]
pub fn unused_tmp_record() -> (r: TmpfsMountData)
    returns
        (TmpfsMountData {
            owner_mount: Handle { slot: u32::MAX, epoch: 0 },
            fs_instance_id: FsInstanceId(0),
            root_vnode: Handle { slot: u32::MAX, epoch: 0 },
            next_inode: 0,
            max_bytes: 0,
            max_inodes: 0,
            accounted_bytes: 0,
            used_inodes: 0,
            casefold: false,
        }),
{
    TmpfsMountData {
        owner_mount: Handle { slot: u32::MAX, epoch: 0 },
        fs_instance_id: FsInstanceId(0),
        root_vnode: Handle { slot: u32::MAX, epoch: 0 },
        next_inode: 0,
        max_bytes: 0,
        max_inodes: 0,
        accounted_bytes: 0,
        used_inodes: 0,
        casefold: false,
    }
}

impl VfsModel {
    /// Whether a mount with these flags and options folds case.
    pub open spec fn asks_to_fold(flags: u32, opts: Seq<u8>) -> bool {
        stated_opts(opts).casefold == Some(true) || flags & MNT_CASEFOLD != 0
    }

    /// A limit that was not asked for is no limit.
    pub open spec fn limit_of(asked: Option<u64>) -> u64 {
        match asked {
            Some(n) => n,
            None => 0,
        }
    }

    /// The mount record of a new in-memory filesystem.
    pub open spec fn tmp_mount_record(
        mh: Handle,
        fs_id: FsInstanceId,
        rv: Handle,
        flags: u32,
        opts: Seq<u8>,
    ) -> TmpfsMountData {
        TmpfsMountData {
            owner_mount: mh,
            fs_instance_id: fs_id,
            root_vnode: rv,
            next_inode: 2,
            max_bytes: VfsModel::limit_of(stated_opts(opts).max_bytes),
            max_inodes: VfsModel::limit_of(stated_opts(opts).max_inodes),
            accounted_bytes: 0,
            used_inodes: 1,
            casefold: VfsModel::asks_to_fold(flags, opts),
        }
    }

    /// The root node of a new in-memory filesystem.
    pub open spec fn tmp_root_node(mh: Handle, rv: Handle, now: u64) -> TmpNodeView {
        TmpNodeView {
            owner_mount: mh,
            vnode: rv,
            kind: VnodeType::Dir,
            mode: S_IFDIR | 0o1777,
            nlink: 2,
            atime_ns: now,
            mtime_ns: now,
            ctime_ns: now,
            mmap_id: 1,
            ..TmpNodeView::blank()
        }
    }
}

impl VfsModel {
    /// The state after an in-memory filesystem was mounted, and the mount. Where a table is
    /// full, what was reserved by then stays reserved.
    pub open spec fn tmpfs_made(self, path: Seq<u8>, flags: u32, opts: Seq<u8>, now: u64) -> (
        VfsModel,
        Option<Handle>,
    ) {
        let s = self.slots_reserved();
        match self.mount_slots() {
            None => (s, None),
            Some((rv, mh)) => {
                let fs_id = s.next_fs_instance_id;
                if s.tmpfs_mounts.next() is None {
                    (s, None)
                } else if s.tmpfs_nodes.next() is None {
                    (
                        VfsModel {
                            tmpfs_mounts: s.tmpfs_mounts.grown(unused_tmp_record()),
                            ..s
                        },
                        None,
                    )
                } else {
                    (
                        VfsModel {
                            tmpfs_mounts: s.tmpfs_mounts.grown(
                                VfsModel::tmp_mount_record(mh, fs_id, rv, flags, opts),
                            ),
                            tmpfs_nodes: s.tmpfs_nodes.grown(VfsModel::tmp_root_node(mh, rv, now)),
                            ..s
                        }.instance_taken().mount_filled(
                            rv,
                            Vnode {
                                mode: S_IFDIR | 0o1777,
                                nlink: 2,
                                atime_ns: now,
                                mtime_ns: now,
                                backend_ref: s.tmpfs_nodes.next()->0,
                                ..mounted_root(Backend::Tmpfs, fs_id, mh)
                            },
                            mh,
                            MountView::structural(
                                mount_number(mh.slot),
                                if VfsModel::asks_to_fold(flags, opts) {
                                    flags | MNT_CASEFOLD
                                } else {
                                    flags
                                },
                                fs_id,
                                rv,
                                Backend::Tmpfs,
                                "tmpfs".spec_bytes(),
                                path,
                            ),
                        ),
                        Some(mh),
                    )
                }
            },
        }
    }
}

/// Mounts an in-memory filesystem. `None` when a table is full; what was reserved by then
/// stays reserved.
pub fn alloc_tmpfs_mount(
    state: &mut VfsState,
    mount_path: &[u8],
    flags: u32,
    opts: &[u8],
    now: u64,
) -> (r: Option<Handle>)
    ensures
        (final(state)@, r) == old(state)@.tmpfs_made(mount_path@, flags, opts@, now),
{
    let parsed = parse_mount_opts(opts);
    let asked: bool = match parsed.casefold {
        Some(b) => b,
        None => false,
    };
    let fold: bool = asked || flags & MNT_CASEFOLD != 0;
    let max_bytes: u64 = match parsed.max_bytes {
        Some(n) => n,
        None => 0,
    };
    let max_inodes: u64 = match parsed.max_inodes {
        Some(n) => n,
        None => 0,
    };
    let (rv, mh) = match reserve_slots(state) {
        Some(p) => p,
        None => {
            return None;
        },
    };
    let fs_id = state.next_fs_instance_id;
    let data = TmpfsMountData {
        owner_mount: mh,
        fs_instance_id: fs_id,
        root_vnode: rv,
        next_inode: 2,
        max_bytes,
        max_inodes,
        accounted_bytes: 0,
        used_inodes: 1,
        casefold: fold,
    };
    let ghost reserved = state@;
    let data_h = match state.tmpfs_mounts.reserve(unused_tmp_record()) {
        Some(h) => h,
        None => {
            return None;
        },
    };
    let mut node = TmpfsNode::blank();
    node.owner_mount = mh;
    node.vnode = rv;
    node.kind = VnodeType::Dir;
    node.mode = S_IFDIR | 0o1777;
    node.nlink = 2;
    node.atime_ns = now;
    node.mtime_ns = now;
    node.ctime_ns = now;
    node.mmap_id = 1;
    let node_h = match state.tmpfs_nodes.reserve(node) {
        Some(h) => h,
        None => {
            return None;
        },
    };
    let _ = state.tmpfs_mounts.set(data_h, data);
    proof {
        reserved.tmpfs_mounts.lemma_grown_put(unused_tmp_record(), data);
    }
    let _ = state.alloc_fs_instance_id();
    let mut root = mounted_root(Backend::Tmpfs, fs_id, mh);
    root.mode = S_IFDIR | 0o1777;
    root.nlink = 2;
    root.atime_ns = now;
    root.mtime_ns = now;
    root.backend_ref = node_h;
    let mt = Mount::new_structural(
        mount_number(mh.slot),
        if fold {
            flags | MNT_CASEFOLD
        } else {
            flags
        },
        fs_id,
        rv,
        Backend::Tmpfs,
        "tmpfs".as_bytes(),
        mount_path,
    );
    fill_mount(state, rv, root, mh, mt);
    Some(mh)
}

/// Entries in use after `n` of them were given back.
pub open spec fn entries_left(used: u32, n: nat) -> u32 {
    if n <= used {
        (used - n) as u32
    } else {
        0
    }
}

impl VfsModel {
    /// The state with every node of the mount gone that lies in slot `i` or above, lowest
    /// slot first.
    pub open spec fn tmp_swept(self, mount: Handle, i: int) -> VfsModel
        decreases self.tmpfs_nodes.epochs.len() - i,
    {
        if 0 <= i < self.tmpfs_nodes.epochs.len() {
            let h = self.tmpfs_nodes.handle_at(i);
            if self.tmpfs_nodes.has(h) && self.tmpfs_nodes.at(h).owner_mount == mount {
                VfsModel {
                    tmpfs_entries: entries_left(
                        self.tmpfs_entries,
                        self.tmpfs_nodes.at(h).children.len(),
                    ),
                    ..self.tmp_node_dropped(h)
                }.tmp_swept(mount, i + 1)
            } else {
                self.tmp_swept(mount, i + 1)
            }
        } else {
            self
        }
    }
}

impl VfsModel {
    /// The state without what an in-memory filesystem keeps of the mount: its nodes with
    /// their storage, its names and its record.
    pub open spec fn tmp_unmounted(self, mount: Handle) -> VfsModel {
        let s = self.tmp_swept(mount, 0);
        match s.tmp_data(mount) {
            Some(h) => VfsModel { tmpfs_mounts: s.tmpfs_mounts.dropped(h), ..s },
            None => s,
        }
    }
}

/// Drops everything that an in-memory filesystem keeps of a mount: its nodes with their
/// storage, its names and its record.
pub fn release_tmpfs_mount(state: &mut VfsState, owner_mount: Handle) -> (r: bool)
    ensures
        r,
        final(state)@ == old(state)@.tmp_unmounted(owner_mount),
{
    let n: u32 = state.tmpfs_nodes.slot_count();
    let mut i: u32 = 0;
    while i < n
        invariant
            n == state@.tmpfs_nodes.epochs.len(),
            i <= n,
            state@.tmp_swept(owner_mount, i as int) == old(state)@.tmp_swept(owner_mount, 0),
        decreases n - i,
    {
        if let Some(h) = state.tmpfs_nodes.live_at(i) {
            let (mine, names, symlink) = match state.tmpfs_nodes.get(h) {
                Some(nd) => {
                    assert(nd@.children.len() == nd.children@.len());
                    (nd.owner_mount == owner_mount, nd.children.len(), nd.symlink)
                },
                None => (false, 0, Handle::invalid()),
            };
            if mine {
                release_node_storage(state, h);
                if symlink.is_valid() {
                    let _ = state.tmpfs_symlinks.release(symlink);
                }
                let _ = state.tmpfs_nodes.release(h);
                state.tmpfs_entries = if names <= state.tmpfs_entries as usize {
                    state.tmpfs_entries - names as u32
                } else {
                    0
                };
            }
        }
        i = i + 1;
    }
    match find_mount_data_handle(state, owner_mount) {
        Some(h) => state.tmpfs_mounts.release(h),
        None => true,
    }
}

} // verus!
