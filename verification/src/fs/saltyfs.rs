//! The disk filesystem: what the service keeps of the nodes of a disk that another server
//! reads and writes.

use crate::arena::{Handle, Table};
use crate::bytes::{bytes_eq, cut, pieces, split_bytes, COMMA};
use crate::fs::mounting::{mount_number, mounted_root, reserve_slots};
use crate::fs::records::{Blob, SaltyNodeView, SaltyfsMountData, SaltyfsNode};
use crate::fs::saltyfs_wire::{
    mode_to_vtype, vtype_of, AttrSnapshot, LookupSnapshot, SessionReply,
    StatSnapshot, SALTYFS_NAME_MAX, SALTYFS_SHM_PAGES, SALTYFS_SHM_VADDR,
};
use crate::identity::{BackendNodeId, FsInstanceId, VnodeKey};
use crate::mount::{Mount, MountView, VfsOps, VnodeOps, MNT_NOATIME, MNT_RDONLY};
use crate::state::{index_drop, Effect, VfsModel, VfsState, MM_PAGE_SIZE};
use crate::status::Status;
use crate::vnode::{Backend, MountRef, Vnode, VnodeType, DT_DIR};
use vstd::prelude::*;
use vstd::slice::slice_to_vec;
use vstd::string::*;

verus! {

/// Nanoseconds in `secs` seconds, as many as fit.
pub open spec fn nanos(secs: u64) -> u64 {
    if secs * 1_000_000_000 > u64::MAX {
        u64::MAX
    } else {
        (secs * 1_000_000_000) as u64
    }
}

/// Nanoseconds in `secs` seconds, as many as fit.
pub fn to_nanos(secs: u64) -> (r: u64)
    ensures
        r == nanos(secs),
{
    if secs > u64::MAX / 1_000_000_000 {
        u64::MAX
    } else {
        secs * 1_000_000_000
    }
}

// ---- finding what is kept ----------------------------------------------------------

/// Which record belongs to a mount.
pub open spec fn salty_mount_is(mount: Handle) -> spec_fn(Handle, SaltyfsMountData) -> bool {
    |h: Handle, d: SaltyfsMountData| d.owner_mount == mount
}

/// Which node is `name` in the directory of node `parent`.
pub open spec fn salty_node_named(parent: Handle, name: Seq<u8>) -> spec_fn(
    Handle,
    SaltyNodeView,
) -> bool {
    |h: Handle, n: SaltyNodeView| n.parent_node == parent && n.name == name
}

impl VfsModel {
    /// The record of a mount of the disk filesystem.
    pub open spec fn salty_mount(self, mount: Handle) -> Option<Handle> {
        self.saltyfs_mounts.first(salty_mount_is(mount))
    }

    /// The record of the mount that vnode `v` lies on, and the mount.
    pub open spec fn salty_record(self, v: Handle) -> Option<(SaltyfsMountData, Handle)> {
        match self.vnodes.entry(v) {
            None => None,
            Some(vn) => match self.mounts.entry(vn.mount.handle) {
                None => None,
                Some(mt) => if mt.backend != Backend::Saltyfs {
                    None
                } else {
                    match self.salty_mount(vn.mount.handle) {
                        None => None,
                        Some(h) => Some((self.saltyfs_mounts.at(h), vn.mount.handle)),
                    }
                },
            },
        }
    }

    /// The node of vnode `v`.
    pub open spec fn salty_node(self, v: Handle) -> Option<Handle> {
        match self.vnodes.entry(v) {
            None => None,
            Some(vn) => if self.saltyfs_nodes.has(vn.backend_ref) && self.saltyfs_nodes.at(
                vn.backend_ref,
            ).vnode == v {
                Some(vn.backend_ref)
            } else {
                None
            },
        }
    }

    /// The node called `name` in directory `parent`, where it is known.
    pub open spec fn salty_child(self, parent: Handle, name: Seq<u8>) -> Option<Handle> {
        match self.salty_node(parent) {
            None => None,
            Some(p) => self.saltyfs_nodes.first(salty_node_named(p, name)),
        }
    }

    /// Whether vnode `v` is on the disk.
    pub open spec fn on_disk(self, v: Handle) -> bool {
        self.vnodes.has(v) && self.vnodes.at(v).backend == Backend::Saltyfs
    }

    /// Whether vnode `v` is on a mount that must not be written to.
    pub open spec fn disk_sealed(self, v: Handle) -> bool {
        self.vnodes.has(v) && self.mounts.has(self.vnodes.at(v).mount.handle) && self.mounts.at(
            self.vnodes.at(v).mount.handle,
        ).flags & MNT_RDONLY != 0
    }
}

/// Whether a mount is one of the disk filesystem.
#[verifier::allow_in_spec]
pub fn mount_is_saltyfs(backend: Backend) -> (r: bool)
    returns
        (backend == Backend::Saltyfs),
{
    matches!(backend, Backend::Saltyfs)
}

/// Filesystem operations of the disk filesystem: it can be remounted.
#[verifier::allow_in_spec]
pub fn saltyfs_vfsops() -> (r: VfsOps)
    returns
        (VfsOps { remount: true, ..VfsOps::empty() }),
{
    let mut ops = VfsOps::empty();
    ops.remount = true;
    ops
}

/// Vnode operations of the disk filesystem: all but links that are read in place and
/// backing for a pager.
#[verifier::allow_in_spec]
pub fn saltyfs_vops() -> (r: VnodeOps)
    returns
        (VnodeOps {
            lookup_child: true,
            build_path: true,
            ensure_symlink_target: true,
            readlink_inline: false,
            read_regular: true,
            write_regular: true,
            create_regular_child: true,
            mkdir_child: true,
            symlink_child: true,
            remove_child: true,
            rename_child: true,
            link_vnode_into: true,
            set_mode: true,
            set_owner: true,
            set_times: true,
            truncate: true,
            validate_open_regular: true,
            readdir_dir: true,
            supports_pager_backing: false,
        }),
{
    VnodeOps {
        lookup_child: true,
        build_path: true,
        ensure_symlink_target: true,
        readlink_inline: false,
        read_regular: true,
        write_regular: true,
        create_regular_child: true,
        mkdir_child: true,
        symlink_child: true,
        remove_child: true,
        rename_child: true,
        link_vnode_into: true,
        set_mode: true,
        set_owner: true,
        set_times: true,
        truncate: true,
        validate_open_regular: true,
        readdir_dir: true,
        supports_pager_backing: false,
    }
}

/// The record of a mount of the disk filesystem.
pub fn find_mount_data_handle(state: &VfsState, owner_mount: Handle) -> (r: Option<Handle>)
    ensures
        r == state@.salty_mount(owner_mount),
        r matches Some(h) ==> state@.saltyfs_mounts.has(h),
{
    state.saltyfs_mounts.find(
        |h: Handle, d: &SaltyfsMountData| -> (b: bool) ensures b == (d@.owner_mount == owner_mount) { d.owner_mount == owner_mount },
        Ghost(salty_mount_is(owner_mount)),
    )
}

/// The record of the mount that a vnode lies on, and the mount.
pub fn mount_data_for_vnode(state: &VfsState, vnode: Handle) -> (r: Option<
    (SaltyfsMountData, Handle),
>)
    ensures
        r == state@.salty_record(vnode),
{
    let mount: Handle = match state.vnodes.get(vnode) {
        Some(vn) => vn.mount.handle,
        None => {
            return None;
        },
    };
    let ours: bool = match state.mounts.get(mount) {
        Some(mt) => mount_is_saltyfs(mt.backend),
        None => false,
    };
    if !ours {
        return None;
    }
    match find_mount_data_handle(state, mount) {
        Some(h) => match state.saltyfs_mounts.get(h) {
            Some(d) => Some((*d, mount)),
            None => None,
        },
        None => None,
    }
}

/// Whether a vnode is on the disk.
pub fn vnode_is_saltyfs(state: &VfsState, vnode: Handle) -> (r: bool)
    ensures
        r == state@.on_disk(vnode),
{
    match state.vnodes.get(vnode) {
        Some(vn) => matches!(vn.backend, Backend::Saltyfs),
        None => false,
    }
}

/// Refuses to write on a read-only mount.
pub fn ensure_writable(state: &VfsState, vnode: Handle) -> (r: Result<(), Status>)
    ensures
        r == (if state@.disk_sealed(vnode) {
            Err(Status::ReadOnly)
        } else {
            Ok(())
        }),
{
    let mount: Handle = match state.vnodes.get(vnode) {
        Some(vn) => vn.mount.handle,
        None => {
            return Ok(());
        },
    };
    match state.mounts.get(mount) {
        Some(mt) => if mt.flags & MNT_RDONLY != 0 {
            Err(Status::ReadOnly)
        } else {
            Ok(())
        },
        None => Ok(()),
    }
}

/// Whether reading a file of this mount leaves its access time alone.
pub fn mount_is_noatime(state: &VfsState, vnode: Handle) -> (r: bool)
    ensures
        r == (match state@.salty_record(vnode) {
            Some((d, _)) => d.noatime,
            None => false,
        }),
{
    match mount_data_for_vnode(state, vnode) {
        Some((d, _)) => d.noatime,
        None => false,
    }
}

/// The node of a vnode.
pub fn find_node_handle_by_vnode(state: &VfsState, vnode: Handle) -> (r: Option<Handle>)
    ensures
        r == state@.salty_node(vnode),
{
    match state.vnodes.get(vnode) {
        None => None,
        Some(vn) => {
            let h: Handle = vn.backend_ref;
            match state.saltyfs_nodes.get(h) {
                Some(n) => if n.vnode == vnode {
                    Some(h)
                } else {
                    None
                },
                None => None,
            }
        },
    }
}

/// The node called `name` in a directory, where it is known.
pub fn find_child_node_handle_by_name(state: &VfsState, parent: Handle, name: &[u8]) -> (r: Option<
    Handle,
>)
    ensures
        r == state@.salty_child(parent, name@),
        r matches Some(h) ==> state@.saltyfs_nodes.has(h),
{
    let p: Handle = match find_node_handle_by_vnode(state, parent) {
        Some(p) => p,
        None => {
            return None;
        },
    };
    state.saltyfs_nodes.find(
        |h: Handle, n: &SaltyfsNode| -> (b: bool) ensures b == (n@.parent_node == p && n@.name == name@) { n.parent_node == p && bytes_eq(n.name.as_slice(), name) },
        Ghost(salty_node_named(p, name@)),
    )
}

// ---- what becomes of nodes ---------------------------------------------------------

/// As much of a name as is kept.
pub open spec fn kept_name(name: Seq<u8>) -> Seq<u8> {
    if name.len() > SALTYFS_NAME_MAX {
        name.take(SALTYFS_NAME_MAX as int)
    } else {
        name
    }
}

fn keep_name(name: &[u8]) -> (r: Vec<u8>)
    ensures
        r@ == kept_name(name@),
{
    if name.len() > SALTYFS_NAME_MAX {
        let r = slice_to_vec(cut(name, 0, SALTYFS_NAME_MAX));
        assert(r@ =~= name@.take(SALTYFS_NAME_MAX as int));
        r
    } else {
        slice_to_vec(name)
    }
}

/// A vnode as the disk server describes it.
pub open spec fn described(vn: Vnode, fs_id: FsInstanceId, mount: Handle, s: LookupSnapshot) -> Vnode {
    let base = if vn.mount.handle == Handle::invalid() || vn.fs_instance_id != fs_id {
        Vnode::new_bootstrap(vtype_of(s.mode, s.dir_type), fs_id, mount, s.mode)
    } else {
        vn
    };
    Vnode {
        vtype: vtype_of(s.mode, s.dir_type),
        mode: s.mode,
        id: s.ino,
        backend_seq: s.seq,
        uid: s.uid,
        gid: s.gid,
        nlink: s.nlink,
        size: s.size,
        atime_ns: nanos(s.mtime),
        mtime_ns: nanos(s.mtime),
        fs_instance_id: fs_id,
        mount: MountRef { id: fs_id, handle: mount },
        backend: Backend::Saltyfs,
        ops: Some(Backend::Saltyfs),
        ..base
    }
}

/// A vnode with the attributes that the disk server reports. What is stored of the vnode is
/// let go unless it is a link.
pub open spec fn with_attrs(vn: Vnode, a: AttrSnapshot) -> Vnode {
    Vnode {
        mode: a.mode,
        uid: a.uid,
        gid: a.gid,
        size: a.size,
        nlink: a.nlink,
        atime_ns: nanos(a.atime),
        mtime_ns: nanos(a.mtime),
        vtype: vtype_of(a.mode, 0),
        data: if vtype_of(a.mode, 0) != VnodeType::Lnk && vn.data.is_valid() && a.size != 0 {
            Handle::invalid()
        } else {
            vn.data
        },
        ..vn
    }
}

/// A vnode with what a stat says of it.
pub open spec fn with_stat(vn: Vnode, a: StatSnapshot) -> Vnode {
    Vnode {
        mode: a.mode,
        uid: a.uid,
        gid: a.gid,
        size: a.size,
        nlink: a.nlink,
        atime_ns: nanos(a.mtime),
        mtime_ns: nanos(a.mtime),
        backend_seq: a.seq,
        vtype: vtype_of(a.mode, 0),
        data: if vtype_of(a.mode, 0) != VnodeType::Lnk && vn.data.is_valid() && a.size != 0 {
            Handle::invalid()
        } else {
            vn.data
        },
        ..vn
    }
}

impl VfsModel {
    /// The state with vnode `v` replaced by `vn`, its stored bytes gone if `vn` has none, and
    /// the index following its key.
    pub open spec fn reported(self, v: Handle, vn: Vnode) -> VfsModel {
        let was = self.vnodes.at(v);
        VfsModel {
            blobs: if vn.data == was.data {
                self.blobs
            } else {
                self.blobs.dropped(was.data)
            },
            index: index_drop(self.index, was.vnode_key(), v),
            ..self.with_vnode(v, vn)
        }.cached(v)
    }

    /// The state with the node of vnode `v` filled in, and the node.
    pub open spec fn node_installed(
        self,
        mount: Handle,
        v: Handle,
        id: BackendNodeId,
        parent: Handle,
        name: Seq<u8>,
        blocks: u64,
    ) -> (VfsModel, Option<Handle>) {
        let n = SaltyNodeView {
            owner_mount: mount,
            vnode: v,
            node_id: id,
            parent_node: parent,
            blocks,
            is_root: !parent.is_valid(),
            name: kept_name(name),
        };
        let (s, node) = match self.salty_node(v) {
            Some(h) => (
                VfsModel { saltyfs_nodes: self.saltyfs_nodes.put(h, n), ..self },
                Some(h),
            ),
            None => (
                VfsModel { saltyfs_nodes: self.saltyfs_nodes.grown(n), ..self },
                self.saltyfs_nodes.next(),
            ),
        };
        match node {
            None => (s, None),
            Some(h) => match s.vnodes.entry(v) {
                None => (s, None),
                Some(vn) => (s.with_vnode(v, Vnode { backend_ref: h, ..vn }).cached(v), Some(h)),
            },
        }
    }

    /// The state with a vnode for the node that the disk server describes as `name` in
    /// directory `parent`, and the vnode. A vnode of the same identity is used again.
    #[verifier::opaque]
    pub open spec fn materialized(
        self,
        mount: Handle,
        parent: Handle,
        name: Seq<u8>,
        snap: LookupSnapshot,
    ) -> (VfsModel, Option<Handle>) {
        match (self.mounts.entry(mount), self.salty_node(parent)) {
            (Some(mt), Some(pn)) => {
                let fs_id = mt.fs_instance_id;
                let id = BackendNodeId { ino: snap.ino, seq: snap.seq };
                let key = VnodeKey { fs_instance_id: fs_id, backend_id: id };
                let s = self.key_looked_up(key);
                let (t, found) = match self.vnode_of_key(key) {
                    Some(v) => (s, Some(v)),
                    None => (
                        VfsModel { vnodes: s.vnodes.grown(Vnode::zeroed()), ..s },
                        s.vnodes.next(),
                    ),
                };
                match found {
                    None => (t, None),
                    Some(v) => {
                        let was = t.vnodes.at(v);
                        let u = VfsModel {
                            index: index_drop(t.index, was.vnode_key(), v),
                            ..t.with_vnode(v, described(was, fs_id, mount, snap))
                        }.cached(v);
                        let (w, node) = u.node_installed(mount, v, id, pn, name, snap.blocks);
                        (
                            w,
                            if node is Some {
                                Some(v)
                            } else {
                                None
                            },
                        )
                    },
                }
            },
            _ => (self, None),
        }
    }

    /// The state with link `v` holding `bytes`, and whether there was room for them.
    pub open spec fn link_filled(self, v: Handle, bytes: Seq<u8>) -> (VfsModel, bool) {
        match self.vnodes.entry(v) {
            None => (self, false),
            Some(vn) => {
                let s = if vn.data.is_valid() && vn.size != 0 {
                    VfsModel { blobs: self.blobs.dropped(vn.data), ..self }.with_vnode(
                        v,
                        Vnode { data: Handle::invalid(), size: 0, ..vn },
                    )
                } else {
                    self
                };
                if bytes.len() == 0 {
                    (s, true)
                } else {
                    let t = VfsModel { blobs: s.blobs.grown(bytes), ..s };
                    match s.blobs.next() {
                        None => (t, false),
                        Some(b) => (
                            t.with_vnode(
                                v,
                                Vnode { data: b, size: bytes.len() as u64, ..t.vnodes.at(v) },
                            ),
                            true,
                        ),
                    }
                }
            },
        }
    }

    /// The state with node `h` without a name.
    pub open spec fn node_unnamed(self, h: Handle) -> VfsModel {
        if self.saltyfs_nodes.has(h) {
            VfsModel {
                saltyfs_nodes: self.saltyfs_nodes.put(
                    h,
                    SaltyNodeView { name: Seq::empty(), ..self.saltyfs_nodes.at(h) },
                ),
                ..self
            }
        } else {
            self
        }
    }

    /// The state with `nlink` names left of vnode `v`, which the index forgets.
    pub open spec fn links_left(self, v: Handle, nlink: u32) -> VfsModel {
        match self.vnodes.entry(v) {
            Some(vn) => self.with_vnode(v, Vnode { nlink, ..vn }).uncached(v),
            None => self,
        }
    }

    /// The state after `name` was removed from directory `parent` on the disk.
    pub open spec fn disk_unlinked(self, parent: Handle, name: Seq<u8>, dir: bool) -> VfsModel {
        match self.salty_child(parent, name) {
            None => self,
            Some(h) => {
                let v = self.saltyfs_nodes.at(h).vnode;
                let n = self.vnodes.at(v).nlink;
                self.links_left(
                    v,
                    if dir || n == 0 {
                        0
                    } else {
                        (n - 1) as u32
                    },
                ).node_unnamed(h)
            },
        }
    }

    /// The state after `old_name` of directory `old_parent` became `new_name` of
    /// `new_parent` on the disk; a node that had that name loses it.
    pub open spec fn disk_renamed(
        self,
        old_parent: Handle,
        old_name: Seq<u8>,
        new_parent: Handle,
        new_name: Seq<u8>,
    ) -> VfsModel {
        let moved = self.salty_child(old_parent, old_name);
        let s = match self.salty_child(new_parent, new_name) {
            Some(o) => if Some(o) == moved {
                self
            } else {
                self.links_left(self.saltyfs_nodes.at(o).vnode, 0).node_unnamed(o)
            },
            None => self,
        };
        match (moved, s.salty_node(new_parent)) {
            (Some(h), Some(p)) => if s.saltyfs_nodes.has(h) {
                VfsModel {
                    saltyfs_nodes: s.saltyfs_nodes.put(
                        h,
                        SaltyNodeView {
                            parent_node: p,
                            name: kept_name(new_name),
                            ..s.saltyfs_nodes.at(h)
                        },
                    ),
                    ..s
                }
            } else {
                s
            },
            _ => s,
        }
    }
}

/// Fills in the node of a vnode; nothing when there is no room for one or the vnode is gone.
pub fn install_node_state(
    state: &mut VfsState,
    owner_mount: Handle,
    vnode: Handle,
    node_id: BackendNodeId,
    parent_node: Handle,
    name: &[u8],
    blocks: u64,
) -> (r: Option<Handle>)
    ensures
        (final(state)@, r) == old(state)@.node_installed(
            owner_mount,
            vnode,
            node_id,
            parent_node,
            name@,
            blocks,
        ),
{
    let n = SaltyfsNode {
        owner_mount,
        vnode,
        node_id,
        parent_node,
        blocks,
        is_root: !parent_node.is_valid(),
        name: keep_name(name),
    };
    let handle: Handle = match find_node_handle_by_vnode(state, vnode) {
        Some(h) => {
            let _ = state.saltyfs_nodes.set(h, n);
            h
        },
        None => match state.saltyfs_nodes.reserve(n) {
            Some(h) => h,
            None => {
                return None;
            },
        },
    };
    match state.vnodes.get_mut(vnode) {
        Some(vn) => {
            vn.backend_ref = handle;
        },
        None => {
            return None;
        },
    }
    state.cache_vnode_key(vnode);
    Some(handle)
}

/// Makes a vnode for a node that the disk server describes, or brings the one of the same
/// identity up to date.
pub fn materialize_child_vnode(
    state: &mut VfsState,
    owner_mount: Handle,
    parent: Handle,
    name: &[u8],
    snap: LookupSnapshot,
) -> (r: Option<Handle>)
    ensures
        (final(state)@, r) == old(state)@.materialized(owner_mount, parent, name@, snap),
{
    proof {
        reveal(VfsModel::materialized);
    }
    let fs_id: FsInstanceId = match state.mounts.get(owner_mount) {
        Some(mt) => mt.fs_instance_id,
        None => {
            return None;
        },
    };
    let parent_node: Handle = match find_node_handle_by_vnode(state, parent) {
        Some(p) => p,
        None => {
            return None;
        },
    };
    let id = BackendNodeId { ino: snap.ino, seq: snap.seq };
    let key = VnodeKey { fs_instance_id: fs_id, backend_id: id };
    let vnode: Handle = match state.vnode_by_key(key) {
        Some(v) => v,
        None => match state.vnodes.reserve(Vnode::zeroed()) {
            Some(v) => v,
            None => {
                return None;
            },
        },
    };
    let mut old_key: VnodeKey = VnodeKey::invalid();
    if let Some(vn) = state.vnodes.get_mut(vnode) {
        old_key = vn.vnode_key();
        let vtype: VnodeType = mode_to_vtype(snap.mode, snap.dir_type);
        if vn.mount.handle == Handle::invalid() || vn.fs_instance_id != fs_id {
            *vn = Vnode::new_bootstrap(vtype, fs_id, owner_mount, snap.mode);
        }
        vn.vtype = vtype;
        vn.mode = snap.mode;
        vn.id = snap.ino;
        vn.backend_seq = snap.seq;
        vn.uid = snap.uid;
        vn.gid = snap.gid;
        vn.nlink = snap.nlink;
        vn.size = snap.size;
        vn.atime_ns = to_nanos(snap.mtime);
        vn.mtime_ns = to_nanos(snap.mtime);
        vn.fs_instance_id = fs_id;
        vn.mount = MountRef { id: fs_id, handle: owner_mount };
        vn.backend = Backend::Saltyfs;
        vn.ops = Some(Backend::Saltyfs);
    }
    state.refresh_vnode_key(vnode, old_key);
    match install_node_state(state, owner_mount, vnode, id, parent_node, name, snap.blocks) {
        Some(_) => Some(vnode),
        None => None,
    }
}

/// Makes a vnode for a node in a directory of the disk; nothing when the directory is on no
/// mount of the disk filesystem.
pub fn materialize_snapshot_child(
    state: &mut VfsState,
    parent: Handle,
    name: &[u8],
    snap: LookupSnapshot,
) -> (r: Option<Handle>)
    ensures
        (final(state)@, r) == (match old(state)@.salty_record(parent) {
            Some((_, mh)) => old(state)@.materialized(mh, parent, name@, snap),
            None => (old(state)@, None),
        }),
{
    match mount_data_for_vnode(state, parent) {
        Some((_, mh)) => materialize_child_vnode(state, mh, parent, name, snap),
        None => None,
    }
}

/// Stores what a link leads to; `false` when there is no such vnode or no room.
pub fn update_symlink_payload(state: &mut VfsState, vnode: Handle, bytes: &[u8]) -> (r: bool)
    ensures
        (final(state)@, r) == old(state)@.link_filled(vnode, bytes@),
{
    let vn: Vnode = match state.vnodes.get(vnode) {
        Some(vn) => *vn,
        None => {
            return false;
        },
    };
    if vn.data.is_valid() && vn.size != 0 {
        let _ = state.blobs.release(vn.data);
        if let Some(x) = state.vnodes.get_mut(vnode) {
            x.data = Handle::invalid();
            x.size = 0;
        }
    }
    if bytes.len() == 0 {
        return true;
    }
    match state.blobs.reserve(Blob { bytes: slice_to_vec(bytes) }) {
        Some(b) => {
            if let Some(x) = state.vnodes.get_mut(vnode) {
                x.data = b;
                x.size = bytes.len() as u64;
            }
            true
        },
        None => false,
    }
}

fn set_links(state: &mut VfsState, v: Handle, nlink: u32)
    ensures
        final(state)@ == old(state)@.links_left(v, nlink),
{
    if let Some(vn) = state.vnodes.get_mut(v) {
        vn.nlink = nlink;
    }
    state.uncache_vnode_key(v);
}

fn drop_name(state: &mut VfsState, h: Handle)
    ensures
        final(state)@ == old(state)@.node_unnamed(h),
{
    let ghost start = state@;
    if let Some(n) = state.saltyfs_nodes.get_mut(h) {
        n.name = Vec::new();
        assert(n@.name =~= Seq::<u8>::empty());
    }
}

/// Notes that a name was removed from a directory of the disk.
pub fn mark_cached_child_unlinked(state: &mut VfsState, parent: Handle, name: &[u8], remove_dir: bool)
    ensures
        final(state)@ == old(state)@.disk_unlinked(parent, name@, remove_dir),
{
    let h: Handle = match find_child_node_handle_by_name(state, parent, name) {
        Some(h) => h,
        None => {
            return;
        },
    };
    let v: Handle = match state.saltyfs_nodes.get(h) {
        Some(n) => n.vnode,
        None => {
            return;
        },
    };
    let n: u32 = match state.vnodes.get(v) {
        Some(vn) => vn.nlink,
        None => 0,
    };
    set_links(
        state,
        v,
        if remove_dir || n == 0 {
            0
        } else {
            n - 1
        },
    );
    drop_name(state, h);
}

/// Notes that a name was moved on the disk.
pub fn note_cached_child_renamed(
    state: &mut VfsState,
    old_parent: Handle,
    old_name: &[u8],
    new_parent: Handle,
    new_name: &[u8],
)
    ensures
        final(state)@ == old(state)@.disk_renamed(old_parent, old_name@, new_parent, new_name@),
{
    let moved = find_child_node_handle_by_name(state, old_parent, old_name);
    let overwritten = find_child_node_handle_by_name(state, new_parent, new_name);
    if let Some(o) = overwritten {
        let same: bool = match moved {
            Some(h) => h == o,
            None => false,
        };
        if !same {
            if let Some(n) = state.saltyfs_nodes.get(o) {
                let v: Handle = n.vnode;
                set_links(state, v, 0);
            }
            drop_name(state, o);
        }
    }
    let h: Handle = match moved {
        Some(h) => h,
        None => {
            return;
        },
    };
    let p: Handle = match find_node_handle_by_vnode(state, new_parent) {
        Some(p) => p,
        None => {
            return;
        },
    };
    if let Some(n) = state.saltyfs_nodes.get_mut(h) {
        n.parent_node = p;
        n.name = keep_name(new_name);
    }
}

fn report(state: &mut VfsState, v: Handle, vn: Vnode)
    requires
        old(state)@.vnodes.has(v),
    ensures
        final(state)@ == old(state)@.reported(v, vn),
{
    if let Some(was) = state.vnodes.get(v) {
        let was: Vnode = *was;
        if vn.data != was.data {
            let _ = state.blobs.release(was.data);
        }
        let _ = state.vnodes.set(v, vn);
        state.refresh_vnode_key(v, was.vnode_key());
    }
}

/// Brings a vnode up to the attributes that the disk server reports.
pub fn apply_attr_snapshot(state: &mut VfsState, vnode: Handle, snap: AttrSnapshot) -> (r: Result<
    (),
    Status,
>)
    ensures
        match old(state)@.vnodes.entry(vnode) {
            None => r == Err::<(), Status>(Status::NotFound) && final(state)@ == old(state)@,
            Some(vn) => r == Ok::<(), Status>(()) && final(state)@ == old(state)@.reported(
                vnode,
                with_attrs(vn, snap),
            ),
        },
{
    let mut vn: Vnode = match state.vnodes.get(vnode) {
        Some(vn) => *vn,
        None => {
            return Err(Status::NotFound);
        },
    };
    vn.mode = snap.mode;
    vn.uid = snap.uid;
    vn.gid = snap.gid;
    vn.size = snap.size;
    vn.nlink = snap.nlink;
    vn.atime_ns = to_nanos(snap.atime);
    vn.mtime_ns = to_nanos(snap.mtime);
    vn.vtype = mode_to_vtype(snap.mode, 0);
    if vn.vtype != VnodeType::Lnk && vn.data.is_valid() && vn.size != 0 {
        vn.data = Handle::invalid();
    }
    report(state, vnode, vn);
    Ok(())
}

/// Brings a vnode up to what a stat of it said.
pub fn refresh_vnode_attrs(
    state: &mut VfsState,
    vnode: Handle,
    stat: Result<StatSnapshot, Status>,
) -> (r: Result<(), Status>)
    ensures
        match old(state)@.vnodes.entry(vnode) {
            None => r == Err::<(), Status>(Status::NotFound) && final(state)@ == old(state)@,
            Some(vn) => if old(state)@.salty_record(vnode) is None {
                r == Err::<(), Status>(Status::InvalidArgument) && final(state)@ == old(state)@
            } else {
                match stat {
                    Err(e) => r == Err::<(), Status>(e) && final(state)@ == old(state)@,
                    Ok(a) => r == Ok::<(), Status>(()) && final(state)@ == old(state)@.reported(
                        vnode,
                        with_stat(vn, a),
                    ),
                }
            },
        },
{
    let mut vn: Vnode = match state.vnodes.get(vnode) {
        Some(vn) => *vn,
        None => {
            return Err(Status::NotFound);
        },
    };
    if mount_data_for_vnode(state, vnode).is_none() {
        return Err(Status::InvalidArgument);
    }
    let a: StatSnapshot = match stat {
        Ok(a) => a,
        Err(e) => {
            return Err(e);
        },
    };
    vn.size = a.size;
    vn.mode = a.mode;
    vn.nlink = a.nlink;
    vn.mtime_ns = to_nanos(a.mtime);
    vn.atime_ns = to_nanos(a.mtime);
    vn.uid = a.uid;
    vn.gid = a.gid;
    vn.backend_seq = a.seq;
    vn.vtype = mode_to_vtype(a.mode, 0);
    if vn.vtype != VnodeType::Lnk && vn.data.is_valid() && vn.size != 0 {
        vn.data = Handle::invalid();
    }
    report(state, vnode, vn);
    Ok(())
}

// ---- mounts ------------------------------------------------------------------------

/// What the options say of writing; the last word counts.
pub open spec fn opt_readonly(tokens: Seq<Seq<u8>>) -> Option<bool>
    decreases tokens.len(),
{
    if tokens.len() == 0 {
        None
    } else if tokens.last() == "ro".spec_bytes() || tokens.last() == "readonly".spec_bytes() {
        Some(true)
    } else if tokens.last() == "rw".spec_bytes() {
        Some(false)
    } else {
        opt_readonly(tokens.drop_last())
    }
}

/// What the options say of access times; the last word counts.
pub open spec fn opt_noatime(tokens: Seq<Seq<u8>>) -> Option<bool>
    decreases tokens.len(),
{
    if tokens.len() == 0 {
        None
    } else if tokens.last() == "noatime".spec_bytes() {
        Some(true)
    } else if tokens.last() == "atime".spec_bytes() {
        Some(false)
    } else {
        opt_noatime(tokens.drop_last())
    }
}

/// What the options of a mount say.
#[derive(Clone, Copy, PartialEq, Eq, Structural, Debug)]
pub struct ParsedSaltyfsOpts {
    pub readonly: Option<bool>,
    pub noatime: Option<bool>,
}

/// Reads the options of a mount.
pub fn parse_saltyfs_opts(opts: &[u8]) -> (r: ParsedSaltyfsOpts)
    ensures
        r.readonly == opt_readonly(pieces(opts@, COMMA)),
        r.noatime == opt_noatime(pieces(opts@, COMMA)),
{
    let tokens: Vec<Vec<u8>> = split_bytes(opts, COMMA);
    let ghost all = pieces(opts@, COMMA);
    let mut r = ParsedSaltyfsOpts { readonly: None, noatime: None };
    let mut i: usize = 0;
    assert(all.take(0) =~= Seq::<Seq<u8>>::empty());
    proof {
        lemma_words_differ();
    }
    while i < tokens.len()
        invariant
            i <= tokens@.len(),
            tokens@.len() == all.len(),
            forall|k: int| 0 <= k < all.len() ==> (#[trigger] tokens@[k])@ == all[k],
            r.readonly == opt_readonly(all.take(i as int)),
            r.noatime == opt_noatime(all.take(i as int)),
            "ro".spec_bytes() != "noatime".spec_bytes(),
            "ro".spec_bytes() != "atime".spec_bytes(),
            "readonly".spec_bytes() != "noatime".spec_bytes(),
            "readonly".spec_bytes() != "atime".spec_bytes(),
            "rw".spec_bytes() != "noatime".spec_bytes(),
            "rw".spec_bytes() != "atime".spec_bytes(),
        decreases tokens@.len() - i,
    {
        let token = tokens[i].as_slice();
        proof {
            assert(all.take(i + 1).drop_last() =~= all.take(i as int));
            assert(all.take(i + 1).last() == all[i as int]);
            assert(token@ == all[i as int]);
        }
        if bytes_eq(token, "ro".as_bytes()) || bytes_eq(token, "readonly".as_bytes()) {
            r.readonly = Some(true);
        } else if bytes_eq(token, "rw".as_bytes()) {
            r.readonly = Some(false);
        } else if bytes_eq(token, "noatime".as_bytes()) {
            r.noatime = Some(true);
        } else if bytes_eq(token, "atime".as_bytes()) {
            r.noatime = Some(false);
        }
        i = i + 1;
    }
    assert(all.take(i as int) =~= all);
    r
}

proof fn lemma_words_differ()
    ensures
        "ro".spec_bytes() != "noatime".spec_bytes(),
        "ro".spec_bytes() != "atime".spec_bytes(),
        "readonly".spec_bytes() != "noatime".spec_bytes(),
        "readonly".spec_bytes() != "atime".spec_bytes(),
        "rw".spec_bytes() != "noatime".spec_bytes(),
        "rw".spec_bytes() != "atime".spec_bytes(),
{
    reveal_strlit("ro");
    reveal_strlit("rw");
    reveal_strlit("readonly");
    reveal_strlit("noatime");
    reveal_strlit("atime");
    is_ascii_spec_bytes("ro");
    is_ascii_spec_bytes("rw");
    is_ascii_spec_bytes("readonly");
    is_ascii_spec_bytes("noatime");
    is_ascii_spec_bytes("atime");
    assert("ro".spec_bytes().len() == 2);
    assert("rw".spec_bytes().len() == 2);
    assert("readonly".spec_bytes().len() == 8);
    assert("noatime".spec_bytes().len() == 7);
    assert("atime".spec_bytes().len() == 5);
}

/// The flags of a mount with what the options add to them.
pub open spec fn salty_flags(flags: u32, opts: Seq<u8>) -> u32 {
    let tokens = pieces(opts, COMMA);
    flags | (if opt_readonly(tokens) == Some(true) {
        MNT_RDONLY
    } else {
        0
    }) | (if opt_noatime(tokens) == Some(true) {
        MNT_NOATIME
    } else {
        0
    })
}

/// The flags of a mount with what the options add to them. A session is asked for under
/// these.
pub fn effective_saltyfs_flags(flags: u32, opts: &[u8]) -> (r: u32)
    ensures
        r == salty_flags(flags, opts@),
{
    let parsed = parse_saltyfs_opts(opts);
    let ro: u32 = match parsed.readonly {
        Some(true) => MNT_RDONLY,
        _ => 0,
    };
    let na: u32 = match parsed.noatime {
        Some(true) => MNT_NOATIME,
        _ => 0,
    };
    flags | ro | na
}

/// Changes whether access times are kept: as the options say, else as the flags say.
pub fn saltyfs_remount(state: &mut VfsState, mount: Handle, new_flags: u32, opts: &[u8]) -> (r:
    Status)
    ensures
        match old(state)@.salty_mount(mount) {
            None => r == Status::InvalidOperation && final(state)@ == old(state)@,
            Some(h) => r == Status::Success && final(state)@ == (VfsModel {
                saltyfs_mounts: old(state)@.saltyfs_mounts.put(
                    h,
                    SaltyfsMountData {
                        noatime: match opt_noatime(pieces(opts@, COMMA)) {
                            Some(b) => b,
                            None => new_flags & MNT_NOATIME != 0,
                        },
                        ..old(state)@.saltyfs_mounts.at(h)
                    },
                ),
                ..old(state)@
            }),
        },
{
    let parsed = parse_saltyfs_opts(opts);
    match find_mount_data_handle(state, mount) {
        None => Status::InvalidOperation,
        Some(h) => {
            if let Some(d) = state.saltyfs_mounts.get_mut(h) {
                d.noatime = match parsed.noatime {
                    Some(b) => b,
                    None => new_flags & MNT_NOATIME != 0,
                };
            }
            Status::Success
        },
    }
}

/// What the disk server and the memory server said when a disk was mounted.
pub struct DiskAnswers {
    /// The endpoint of the disk server.
    pub endpoint: Result<u64, Status>,
    /// The session that it opened.
    pub session: Result<SessionReply, Status>,
    /// What it says of the root, where it could be asked.
    pub root: Option<StatSnapshot>,
    /// Both sides use shared memory.
    pub shm_ready: bool,
}

/// The root vnode of a disk.
pub open spec fn disk_root(
    fs_id: FsInstanceId,
    mount: Handle,
    node: BackendNodeId,
    stat: Option<StatSnapshot>,
) -> Vnode {
    let vn = Vnode {
        id: node.ino,
        backend_seq: node.seq,
        ..mounted_root(Backend::Saltyfs, fs_id, mount)
    };
    match stat {
        None => vn,
        Some(a) => Vnode {
            vtype: vtype_of(a.mode, DT_DIR),
            mode: a.mode,
            size: a.size,
            nlink: a.nlink,
            uid: a.uid,
            gid: a.gid,
            backend_seq: a.seq,
            atime_ns: nanos(a.mtime),
            mtime_ns: nanos(a.mtime),
            ..vn
        },
    }
}

/// The record of a mounted disk.
pub open spec fn disk_data(
    fs_id: FsInstanceId,
    mount: Handle,
    root: Handle,
    cap: u64,
    s: SessionReply,
    noatime: bool,
    shm: bool,
) -> SaltyfsMountData {
    SaltyfsMountData {
        owner_mount: mount,
        fs_instance_id: fs_id,
        root_vnode: root,
        fs_cap: cap,
        session_id: s.session_id,
        max_inflight: s.max_inflight,
        root_node: s.root_node,
        feature_bits: s.feature_bits,
        shm_active: shm,
        noatime,
        shm_vaddr: if shm {
            SALTYFS_SHM_VADDR
        } else {
            0
        },
        shm_size: if shm {
            (SALTYFS_SHM_PAGES * MM_PAGE_SIZE) as u64
        } else {
            0
        },
    }
}

impl VfsModel {
    /// The state with a disk mounted, attached nowhere, and the mount. What was reserved
    /// when a table is full stays reserved.
    pub open spec fn disk_mounted(
        self,
        path: Seq<u8>,
        flags: u32,
        opts: Seq<u8>,
        a: DiskAnswers,
    ) -> (VfsModel, Result<Handle, Status>) {
        match (a.endpoint, a.session) {
            (Err(e), _) => (self, Err(e)),
            (Ok(_), Err(e)) => (self, Err(e)),
            (Ok(cap), Ok(sess)) => {
                let s = self.slots_reserved();
                match self.mount_slots() {
                    None => (s, Err(Status::OutOfMemory)),
                    Some((rv, mh)) => if s.saltyfs_mounts.next() is None {
                        (s, Err(Status::OutOfMemory))
                    } else {
                        let fs_id = s.next_fs_instance_id;
                        let t = VfsModel {
                            vnodes: s.vnodes.put(rv, disk_root(fs_id, mh, sess.root_node, a.root)),
                            mounts: s.mounts.put(
                                mh,
                                MountView::structural(
                                    mount_number(mh.slot),
                                    salty_flags(flags, opts),
                                    fs_id,
                                    rv,
                                    Backend::Saltyfs,
                                    "saltyfs".spec_bytes(),
                                    path,
                                ),
                            ),
                            saltyfs_mounts: s.saltyfs_mounts.grown(
                                disk_data(
                                    fs_id,
                                    mh,
                                    rv,
                                    cap,
                                    sess,
                                    opt_noatime(pieces(opts, COMMA)) == Some(true) || flags
                                        & MNT_NOATIME != 0,
                                    a.shm_ready,
                                ),
                            ),
                            ..s.instance_taken()
                        };
                        let (u, node) = t.node_installed(
                            mh,
                            rv,
                            sess.root_node,
                            Handle::invalid(),
                            Seq::empty(),
                            match a.root {
                                Some(st) => st.blocks,
                                None => 0,
                            },
                        );
                        (
                            u,
                            if node is Some {
                                Ok(mh)
                            } else {
                                Err(Status::OutOfMemory)
                            },
                        )
                    },
                }
            },
        }
    }
}

fn make_disk_root(fs_id: FsInstanceId, mount: Handle, node: BackendNodeId, stat: &Option<StatSnapshot>)
    -> (r: Vnode)
    ensures
        r == disk_root(fs_id, mount, node, *stat),
{
    let mut vn = mounted_root(Backend::Saltyfs, fs_id, mount);
    vn.id = node.ino;
    vn.backend_seq = node.seq;
    if let Some(a) = stat {
        vn.vtype = mode_to_vtype(a.mode, DT_DIR);
        vn.mode = a.mode;
        vn.size = a.size;
        vn.nlink = a.nlink;
        vn.uid = a.uid;
        vn.gid = a.gid;
        vn.backend_seq = a.seq;
        vn.atime_ns = to_nanos(a.mtime);
        vn.mtime_ns = to_nanos(a.mtime);
    }
    vn
}

/// Mounts a disk whose server answered as told. An answer that is an error is the error
/// here; a full table is `OutOfMemory`, with what was reserved by then still reserved.
pub fn alloc_saltyfs_mount(
    state: &mut VfsState,
    mount_path: &[u8],
    flags: u32,
    opts: &[u8],
    answers: &DiskAnswers,
) -> (r: Result<Handle, Status>)
    ensures
        (final(state)@, r) == old(state)@.disk_mounted(mount_path@, flags, opts@, *answers),
{
    let parsed = parse_saltyfs_opts(opts);
    let effective: u32 = effective_saltyfs_flags(flags, opts);
    let cap: u64 = match answers.endpoint {
        Ok(c) => c,
        Err(e) => {
            return Err(e);
        },
    };
    let sess: SessionReply = match answers.session {
        Ok(s) => s,
        Err(e) => {
            return Err(e);
        },
    };
    let (rv, mh): (Handle, Handle) = match reserve_slots(state) {
        Some(p) => p,
        None => {
            return Err(Status::OutOfMemory);
        },
    };
    let fs_id: FsInstanceId = state.next_fs_instance_id;
    let asked: bool = match parsed.noatime {
        Some(b) => b,
        None => false,
    };
    let data = SaltyfsMountData {
        owner_mount: mh,
        fs_instance_id: fs_id,
        root_vnode: rv,
        fs_cap: cap,
        session_id: sess.session_id,
        max_inflight: sess.max_inflight,
        root_node: sess.root_node,
        feature_bits: sess.feature_bits,
        shm_active: answers.shm_ready,
        noatime: asked || flags & MNT_NOATIME != 0,
        shm_vaddr: if answers.shm_ready {
            SALTYFS_SHM_VADDR
        } else {
            0
        },
        shm_size: if answers.shm_ready {
            SALTYFS_SHM_PAGES * MM_PAGE_SIZE
        } else {
            0
        },
    };
    if state.saltyfs_mounts.reserve(data).is_none() {
        return Err(Status::OutOfMemory);
    }
    let _ = state.alloc_fs_instance_id();
    let _ = state.vnodes.set(rv, make_disk_root(fs_id, mh, sess.root_node, &answers.root));
    let _ = state.mounts.set(
        mh,
        Mount::new_structural(
            mount_number(mh.slot),
            effective,
            fs_id,
            rv,
            Backend::Saltyfs,
            "saltyfs".as_bytes(),
            mount_path,
        ),
    );
    let blocks: u64 = match answers.root {
        Some(st) => st.blocks,
        None => 0,
    };
    let none: Vec<u8> = Vec::new();
    assert(none@ =~= Seq::<u8>::empty());
    match install_node_state(
        state,
        mh,
        rv,
        sess.root_node,
        Handle::invalid(),
        none.as_slice(),
        blocks,
    ) {
        Some(_) => Ok(mh),
        None => Err(Status::OutOfMemory),
    }
}

/// Most nodes that go with a mount.
pub const SALTYFS_NODES_PER_MOUNT: usize = 512;

/// Which nodes belong to vnodes of instance `id`.
pub open spec fn salty_node_of_instance(vnodes: Table<Vnode>, id: FsInstanceId) -> spec_fn(
    Handle,
    SaltyNodeView,
) -> bool {
    |h: Handle, n: SaltyNodeView|
        vnodes.has(n.vnode) && vnodes.at(n.vnode).fs_instance_id == id
}

impl VfsModel {
    /// The state without node `h`, its vnode and what is stored of a link.
    pub open spec fn disk_node_dropped(self, h: Handle) -> VfsModel {
        match self.saltyfs_nodes.entry(h) {
            None => self,
            Some(n) => {
                let s = match self.vnodes.entry(n.vnode) {
                    None => self,
                    Some(vn) => {
                        let t = VfsModel {
                            blobs: if vn.vtype == VnodeType::Lnk && vn.data.is_valid() && vn.size
                                != 0 {
                                self.blobs.dropped(vn.data)
                            } else {
                                self.blobs
                            },
                            ..self
                        }.uncached(n.vnode);
                        VfsModel { vnodes: t.vnodes.dropped(n.vnode), ..t }
                    },
                };
                VfsModel { saltyfs_nodes: s.saltyfs_nodes.dropped(h), ..s }
            },
        }
    }

    /// The state without the nodes `hs`.
    pub open spec fn disk_nodes_dropped(self, hs: Seq<Handle>) -> VfsModel
        decreases hs.len(),
    {
        if hs.len() == 0 {
            self
        } else {
            self.disk_nodes_dropped(hs.drop_last()).disk_node_dropped(hs.last())
        }
    }

    /// The state after the session of a disk was ended.
    pub open spec fn disk_let_go(self, d: SaltyfsMountData) -> VfsModel {
        let s = if d.fs_cap != 0 {
            self.telling(Effect::DiskClose { cap: d.fs_cap, session_id: d.session_id })
        } else {
            self
        };
        if d.shm_active && d.shm_vaddr != 0 {
            s.telling(Effect::DiskUnmap { vaddr: d.shm_vaddr })
        } else {
            s
        }
    }

    /// The state after a disk was unmounted.
    pub open spec fn disk_unmounted(self, mount: Handle) -> VfsModel {
        match self.salty_mount(mount) {
            None => self,
            Some(h) => {
                let d = self.saltyfs_mounts.at(h);
                let s = self.disk_let_go(d).disk_nodes_dropped(
                    self.saltyfs_nodes.listed(
                        salty_node_of_instance(self.vnodes, d.fs_instance_id),
                        0,
                        SALTYFS_NODES_PER_MOUNT as nat,
                    ),
                );
                VfsModel { saltyfs_mounts: s.saltyfs_mounts.dropped(h), ..s }
            },
        }
    }
}

fn drop_disk_node(state: &mut VfsState, h: Handle)
    ensures
        final(state)@ == old(state)@.disk_node_dropped(h),
{
    let v: Handle = match state.saltyfs_nodes.get(h) {
        Some(n) => n.vnode,
        None => {
            return;
        },
    };
    if let Some(vn) = state.vnodes.get(v) {
        let vn: Vnode = *vn;
        if vn.vtype == VnodeType::Lnk && vn.data.is_valid() && vn.size != 0 {
            let _ = state.blobs.release(vn.data);
        }
        state.uncache_vnode_key(v);
        let _ = state.vnodes.release(v);
    }
    let _ = state.saltyfs_nodes.release(h);
}

fn end_disk_session(state: &mut VfsState, d: &SaltyfsMountData)
    ensures
        final(state)@ == old(state)@.disk_let_go(*d),
{
    if d.fs_cap != 0 {
        state.outbox.push(Effect::DiskClose { cap: d.fs_cap, session_id: d.session_id });
    }
    if d.shm_active && d.shm_vaddr != 0 {
        state.outbox.push(Effect::DiskUnmap { vaddr: d.shm_vaddr });
    }
}

/// Ends the session of a disk and drops what is kept of it.
pub fn release_saltyfs_mount(state: &mut VfsState, owner_mount: Handle) -> (r: bool)
    ensures
        r,
        final(state)@ == old(state)@.disk_unmounted(owner_mount),
{
    let data_h: Handle = match find_mount_data_handle(state, owner_mount) {
        Some(h) => h,
        None => {
            return true;
        },
    };
    let d: SaltyfsMountData = match state.saltyfs_mounts.get(data_h) {
        Some(d) => *d,
        None => {
            return true;
        },
    };
    let fs_id: FsInstanceId = d.fs_instance_id;
    let vnodes = &state.vnodes;
    let nodes = state.saltyfs_nodes.collect(
        |h: Handle, n: &SaltyfsNode| -> (b: bool) ensures b == (vnodes@.has(n@.vnode) && vnodes@.at(n@.vnode).fs_instance_id == fs_id) { match vnodes.get(n.vnode) { Some(vn) => vn.fs_instance_id == fs_id, None => false } },
        SALTYFS_NODES_PER_MOUNT,
        Ghost(salty_node_of_instance(vnodes@, fs_id)),
    );
    end_disk_session(state, &d);
    let ghost start = state@;
    let mut i: usize = 0;
    assert(nodes@.take(0) =~= Seq::<Handle>::empty());
    while i < nodes.len()
        invariant
            i <= nodes@.len(),
            state@ == start.disk_nodes_dropped(nodes@.take(i as int)),
            state@.saltyfs_mounts.has(data_h),
        decreases nodes@.len() - i,
    {
        drop_disk_node(state, nodes[i]);
        assert(nodes@.take(i + 1).drop_last() =~= nodes@.take(i as int));
        i = i + 1;
    }
    assert(nodes@.take(i as int) =~= nodes@);
    state.saltyfs_mounts.release(data_h)
}

/// What is known of a name follows the disk: after a name was removed, no node is found
/// under it that the service had found there before.
pub proof fn law_removed_name_is_forgotten(m: VfsModel, parent: Handle, name: Seq<u8>, dir: bool)
    requires
        m.saltyfs_nodes.wf(),
        m.salty_child(parent, name) is Some,
        name.len() > 0,
    ensures
        ({
            let h = m.salty_child(parent, name).unwrap();
            let s = m.disk_unlinked(parent, name, dir);
            &&& s.saltyfs_nodes.at(h).name == Seq::<u8>::empty()
            &&& s.salty_child(parent, name) != Some(h)
        }),
{
    let p = m.salty_node(parent).unwrap();
    let h = m.salty_child(parent, name).unwrap();
    m.saltyfs_nodes.lemma_scan(salty_node_named(p, name), 0);
    let s = m.disk_unlinked(parent, name, dir);
    assert(s.saltyfs_nodes.has(h));
    if let Some(q) = s.salty_node(parent) {
        s.saltyfs_nodes.lemma_scan(salty_node_named(q, name), 0);
    }
}

/// No two vnodes stand for `key`.
pub open spec fn key_is_unique(m: VfsModel, key: VnodeKey) -> bool {
    forall|a: Handle, b: Handle|
        (#[trigger] m.vnodes.has(a) && #[trigger] m.vnodes.has(b) && m.vnodes.at(a).vnode_key()
            == key && m.vnodes.at(b).vnode_key() == key) ==> a == b
}

/// A search by key finds a vnode that stands for it, if there is one.
proof fn lemma_found_by_key(m: VfsModel, key: VnodeKey)
    requires
        m.vnodes.wf(),
    ensures
        match m.vnode_of_key(key) {
            Some(v) => m.vnodes.has(v) && m.vnodes.at(v).vnode_key() == key,
            None => forall|o: Handle| #[trigger]
                m.vnodes.has(o) ==> m.vnodes.at(o).vnode_key() != key,
        },
{
    m.vnodes.lemma_scan(|h: Handle, vn: Vnode| vn.vnode_key() == key, 0);
}

/// A file of the disk has one vnode however often it is looked up, and under whatever name.
pub proof fn law_disk_file_has_one_vnode(
    m: VfsModel,
    mount: Handle,
    parent: Handle,
    name: Seq<u8>,
    snap: LookupSnapshot,
    parent2: Handle,
    name2: Seq<u8>,
    snap2: LookupSnapshot,
)
    requires
        m.vnodes.wf(),
        m.mounts.has(mount),
        m.materialized(mount, parent, name, snap).1 is Some,
        snap2.ino == snap.ino && snap2.seq == snap.seq,
        key_is_unique(
            m,
            VnodeKey {
                fs_instance_id: m.mounts.at(mount).fs_instance_id,
                backend_id: BackendNodeId { ino: snap.ino, seq: snap.seq },
            },
        ),
    ensures
        ({
            let (s, v) = m.materialized(mount, parent, name, snap);
            let again = s.materialized(mount, parent2, name2, snap2).1;
            let key = VnodeKey {
                fs_instance_id: m.mounts.at(mount).fs_instance_id,
                backend_id: BackendNodeId { ino: snap.ino, seq: snap.seq },
            };
            &&& key_is_unique(s, key)
            &&& s.vnode_of_key(key) == v
            &&& again is Some ==> again == v
        }),
{
    reveal(VfsModel::materialized);
    let fs_id = m.mounts.at(mount).fs_instance_id;
    let id = BackendNodeId { ino: snap.ino, seq: snap.seq };
    let key = VnodeKey { fs_instance_id: fs_id, backend_id: id };
    let (s, found) = m.materialized(mount, parent, name, snap);
    let v = found->0;
    lemma_found_by_key(m, key);
    m.vnodes.lemma_vacant(0);
    assert(s.mounts == m.mounts);
    assert(s.vnodes.has(v) && s.vnodes.at(v).vnode_key() == key);
    assert forall|o: Handle| #[trigger] s.vnodes.has(o) && o != v implies m.vnodes.has(o)
        && s.vnodes.at(o) == m.vnodes.at(o) by {}
    assert(s.vnodes.wf()) by {
        assert forall|h: Handle| #[trigger] s.vnodes.live.contains_key(h) implies h.slot
            < s.vnodes.epochs.len() && s.vnodes.epochs[h.slot as int] == h.epoch by {
            if h != v {
                assert(s.vnodes.has(h));
                assert(m.vnodes.live.contains_key(h));
            }
        }
    }
    lemma_found_by_key(s, key);
}

} // verus!
