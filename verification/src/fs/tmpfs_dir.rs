//! Directories of the in-memory filesystem: looking up, making, linking, removing and
//! renaming names.

use crate::arena::Handle;
use crate::bytes::{name_eq, same_name};
use crate::fs::records::{entry_views, Blob, EntryView, TmpNodeView, TmpfsEntry, TmpfsNode};
use crate::fs::tmpfs::{
    alloc_inode, casefold_for_mount, ensure_writable, find_node_handle_by_vnode, mount_of_vnode,
    release_inode_account, try_account_inode, vnode_is_tmpfs, TMPFS_NAME_MAX, TMPFS_SYMLINK_MAX,
};
use crate::identity::FsInstanceId;
use crate::state::{VfsModel, VfsState, INITIAL_TMPFS_DIR_ENTRY_CAP};
use crate::status::Status;
use crate::vnode::{Backend, MountRef, Vnode, VnodeType, S_IFDIR, S_IFLNK, S_IFMT, S_IFREG};
use vstd::prelude::*;
use vstd::slice::slice_to_vec;

verus! {

/// One more, up to the largest value.
pub open spec fn one_more(n: u32) -> u32 {
    if n < u32::MAX {
        (n + 1) as u32
    } else {
        n
    }
}

/// One less, down to zero.
pub open spec fn one_less(n: u32) -> u32 {
    if n > 0 {
        (n - 1) as u32
    } else {
        0
    }
}

/// The first name from `i` on that agrees with `name`.
pub open spec fn child_pos(es: Seq<EntryView>, name: Seq<u8>, fold: bool, i: int) -> Option<int>
    decreases es.len() - i,
{
    if 0 <= i < es.len() {
        if same_name(es[i].name, name, fold) {
            Some(i)
        } else {
            child_pos(es, name, fold, i + 1)
        }
    } else {
        None
    }
}

/// What the search finds lies in the directory and fits.
pub proof fn lemma_child_pos(es: Seq<EntryView>, name: Seq<u8>, fold: bool, i: int)
    requires
        0 <= i,
    ensures
        match child_pos(es, name, fold, i) {
            Some(k) => i <= k < es.len() && same_name(es[k].name, name, fold) && forall|j: int|
                i <= j < k ==> !same_name((#[trigger] es[j]).name, name, fold),
            None => forall|k: int|
                i <= k < es.len() ==> !same_name((#[trigger] es[k]).name, name, fold),
        },
    decreases es.len() - i,
{
    if i < es.len() {
        lemma_child_pos(es, name, fold, i + 1);
    }
}

impl VfsModel {
    /// Position of a name in directory node `dir`.
    pub open spec fn tmp_pos(self, dir: Handle, name: Seq<u8>, fold: bool) -> Option<int> {
        match self.tmpfs_nodes.entry(dir) {
            Some(n) => child_pos(n.children, name, fold, 0),
            None => None,
        }
    }

    /// What looking `name` up in directory vnode `parent` gives.
    pub open spec fn tmp_looked_up(self, parent: Handle, name: Seq<u8>) -> Result<
        Option<Handle>,
        Status,
    > {
        if !self.on_tmpfs(parent) {
            Err(Status::InvalidArgument)
        } else {
            match self.tmp_node_of(parent) {
                None => Ok(None),
                Some(dir) => match self.tmp_pos(dir, name, self.folds(self.mount_of(parent))) {
                    None => Ok(None),
                    Some(i) => match self.tmpfs_nodes.entry(
                        self.tmpfs_nodes.at(dir).children[i].child,
                    ) {
                        Some(c) => Ok(Some(c.vnode)),
                        None => Ok(None),
                    },
                },
            }
        }
    }

    /// Instance identity of a mount, none where there is no such mount.
    pub open spec fn instance_of(self, mount: Handle) -> FsInstanceId {
        match self.mounts.entry(mount) {
            Some(mt) => mt.fs_instance_id,
            None => FsInstanceId::invalid(),
        }
    }

    /// All directory entries are in use.
    pub open spec fn entries_used_up(self) -> bool {
        self.tmpfs_entries >= INITIAL_TMPFS_DIR_ENTRY_CAP
    }

    /// Why no node called `name` can be made on the mount.
    pub open spec fn node_refused(self, mount: Handle, name: Seq<u8>) -> Option<Status> {
        if name.len() == 0 || name.len() > TMPFS_NAME_MAX {
            Some(Status::InvalidArgument)
        } else {
            match self.inode_refused(mount) {
                Some(e) => Some(e),
                None => if self.entries_used_up() || self.tmpfs_nodes.next() is None
                    || self.vnodes.next() is None {
                    Some(Status::OutOfMemory)
                } else {
                    None
                },
            }
        }
    }

    /// The state after a node was refused: what was reserved on the way was given back.
    pub open spec fn node_not_made(self, mount: Handle, name: Seq<u8>) -> VfsModel {
        if name.len() == 0 || name.len() > TMPFS_NAME_MAX || self.inode_refused(mount) is Some {
            self
        } else {
            let c = self.inode_charged(mount);
            (if c.entries_used_up() {
                c
            } else {
                match c.tmpfs_nodes.next() {
                    None => c,
                    Some(h) => VfsModel {
                        tmpfs_nodes: c.tmpfs_nodes.grown(TmpNodeView::blank()).dropped(h),
                        ..c
                    },
                }
            }).inode_credited(mount)
        }
    }

    /// A directory with `child` as its newest name.
    pub open spec fn dir_with(n: TmpNodeView, child: Handle, name: Seq<u8>, now: u64) -> TmpNodeView {
        TmpNodeView {
            children: n.children.insert(0, EntryView { child, name }),
            mtime_ns: now,
            ctime_ns: now,
            ..n
        }
    }

    /// The state with a new node called `name` in directory node `dir`.
    pub open spec fn node_made(
        self,
        dir: Handle,
        mount: Handle,
        name: Seq<u8>,
        mode: u32,
        kind: VnodeType,
        now: u64,
    ) -> VfsModel {
        let c = self.inode_charged(mount);
        let nh = self.tmpfs_nodes.next()->0;
        let vh = self.vnodes.next()->0;
        let inode = match c.fresh_inode(mount) {
            Some(i) => i,
            None => 0,
        };
        let s = c.inode_numbered(mount);
        let fs_id = self.instance_of(mount);
        let links = if kind == VnodeType::Dir {
            2u32
        } else {
            1u32
        };
        let node = TmpNodeView {
            owner_mount: mount,
            vnode: vh,
            parent: dir,
            kind,
            name,
            mode,
            nlink: links,
            atime_ns: now,
            mtime_ns: now,
            ctime_ns: now,
            mmap_id: inode,
            ..TmpNodeView::blank()
        };
        let parent = VfsModel::dir_with(self.tmpfs_nodes.at(dir), nh, name, now);
        VfsModel {
            tmpfs_entries: (s.tmpfs_entries + 1) as u32,
            tmpfs_nodes: s.tmpfs_nodes.grown(node).put(
                dir,
                TmpNodeView {
                    nlink: if kind == VnodeType::Dir {
                        one_more(parent.nlink)
                    } else {
                        parent.nlink
                    },
                    ..parent
                },
            ),
            vnodes: s.vnodes.grown(
                Vnode {
                    vtype: kind,
                    backend: Backend::Tmpfs,
                    mode,
                    id: inode,
                    atime_ns: now,
                    mtime_ns: now,
                    fs_instance_id: fs_id,
                    mount: MountRef { id: fs_id, handle: mount },
                    ops: Some(Backend::Tmpfs),
                    nlink: links,
                    backend_ref: nh,
                    ..Vnode::zeroed()
                },
            ),
            ..s
        }.cached(vh)
    }

    /// Why nothing called `name` can be made in directory vnode `parent`, before anything
    /// is reserved for it.
    pub open spec fn new_name_refused(self, parent: Handle, name: Seq<u8>) -> Option<Status> {
        if !self.on_tmpfs(parent) {
            Some(Status::InvalidArgument)
        } else if self.read_only(parent) {
            Some(Status::ReadOnly)
        } else {
            match self.tmp_node_of(parent) {
                None => Some(Status::NotFound),
                Some(dir) => if self.tmp_pos(dir, name, self.folds(self.mount_of(parent)))
                    is Some {
                    Some(Status::AlreadyExists)
                } else {
                    None
                },
            }
        }
    }

    /// What comes of making a node called `name` in directory vnode `parent`.
    pub open spec fn child_outcome(self, parent: Handle, name: Seq<u8>) -> Result<Handle, Status> {
        match self.new_name_refused(parent, name) {
            Some(e) => Err(e),
            None => match self.node_refused(self.mount_of(parent), name) {
                Some(e) => Err(e),
                None => Ok(self.vnodes.next()->0),
            },
        }
    }

    /// The state after an attempt to make a node called `name` in directory vnode `parent`.
    pub open spec fn child_made(
        self,
        parent: Handle,
        name: Seq<u8>,
        mode: u32,
        kind: VnodeType,
        now: u64,
    ) -> VfsModel {
        if self.new_name_refused(parent, name) is Some {
            self
        } else if self.node_refused(self.mount_of(parent), name) is Some {
            self.node_not_made(self.mount_of(parent), name)
        } else {
            self.node_made(self.tmp_node_of(parent)->0, self.mount_of(parent), name, mode, kind, now)
        }
    }
}

/// Finds a name in a directory node.
pub fn find_dir_entry(state: &VfsState, parent_node: Handle, name: &[u8], casefold: bool) -> (r:
    Option<usize>)
    ensures
        match r {
            Some(i) => {
                &&& state@.tmp_pos(parent_node, name@, casefold) == Some(i as int)
                &&& state@.tmpfs_nodes.has(parent_node)
                &&& i < state@.tmpfs_nodes.at(parent_node).children.len()
            },
            None => state@.tmp_pos(parent_node, name@, casefold) is None,
        },
{
    let n = match state.tmpfs_nodes.get(parent_node) {
        Some(n) => n,
        None => {
            return None;
        },
    };
    let ghost es = n@.children;
    let mut i: usize = 0;
    while i < n.children.len()
        invariant
            i <= n.children@.len(),
            es == n@.children,
            state@.tmpfs_nodes.has(parent_node),
            es == state@.tmpfs_nodes.at(parent_node).children,
            child_pos(es, name@, casefold, 0) == child_pos(es, name@, casefold, i as int),
        decreases n.children@.len() - i,
    {
        assert(es[i as int] == n.children@[i as int]@);
        if name_eq(n.children[i].name.as_slice(), name, casefold) {
            return Some(i);
        }
        i = i + 1;
    }
    None
}

fn entry_child(state: &VfsState, dir: Handle, i: usize) -> (r: Handle)
    requires
        state@.tmpfs_nodes.has(dir),
        i < state@.tmpfs_nodes.at(dir).children.len(),
    ensures
        r == state@.tmpfs_nodes.at(dir).children[i as int].child,
{
    match state.tmpfs_nodes.get(dir) {
        Some(n) => {
            assert(n@.children[i as int] == n.children@[i as int]@);
            n.children[i].child
        },
        None => Handle::invalid(),
    }
}

/// Looks a name up in a directory.
pub fn lookup_child(state: &VfsState, parent: Handle, name: &[u8]) -> (r: Result<
    Option<Handle>,
    Status,
>)
    ensures
        r == state@.tmp_looked_up(parent, name@),
{
    if !vnode_is_tmpfs(state, parent) {
        return Err(Status::InvalidArgument);
    }
    let dir = match find_node_handle_by_vnode(state, parent) {
        Some(h) => h,
        None => {
            return Ok(None);
        },
    };
    let fold: bool = casefold_for_mount(state, mount_of_vnode(state, parent));
    let i: usize = match find_dir_entry(state, dir, name, fold) {
        Some(i) => i,
        None => {
            return Ok(None);
        },
    };
    let child = entry_child(state, dir, i);
    match state.tmpfs_nodes.get(child) {
        Some(c) => Ok(Some(c.vnode)),
        None => Ok(None),
    }
}

/// Makes a node in a directory node: charges the limits, reserves the records and fills
/// them in. What was reserved is given back when something is missing.
pub fn allocate_child_node(
    state: &mut VfsState,
    parent_node: Handle,
    parent_mount: Handle,
    name: &[u8],
    mode: u32,
    kind: VnodeType,
    now: u64,
) -> (r: Result<(Handle, Handle), Status>)
    requires
        old(state)@.tmpfs_nodes.has(parent_node),
    ensures
        match old(state)@.node_refused(parent_mount, name@) {
            Some(e) => {
                &&& r == Err::<(Handle, Handle), Status>(e)
                &&& final(state)@ == old(state)@.node_not_made(parent_mount, name@)
            },
            None => {
                &&& r == Ok::<(Handle, Handle), Status>(
                    (old(state)@.tmpfs_nodes.next()->0, old(state)@.vnodes.next()->0),
                )
                &&& final(state)@ == old(state)@.node_made(
                    parent_node,
                    parent_mount,
                    name@,
                    mode,
                    kind,
                    now,
                )
                &&& final(state)@.tmpfs_nodes.has(old(state)@.tmpfs_nodes.next()->0)
                &&& final(state)@.vnodes.has(old(state)@.vnodes.next()->0)
            },
        },
{
    if name.len() == 0 || name.len() > TMPFS_NAME_MAX {
        return Err(Status::InvalidArgument);
    }
    match try_account_inode(state, parent_mount) {
        Ok(_) => {},
        Err(e) => {
            return Err(e);
        },
    }
    let ghost charged = state@;
    if state.tmpfs_entries >= INITIAL_TMPFS_DIR_ENTRY_CAP {
        release_inode_account(state, parent_mount);
        return Err(Status::OutOfMemory);
    }
    let node_h = match state.tmpfs_nodes.reserve(TmpfsNode::blank()) {
        Some(h) => h,
        None => {
            release_inode_account(state, parent_mount);
            return Err(Status::OutOfMemory);
        },
    };
    let vnode_h = match state.vnodes.reserve(Vnode::zeroed()) {
        Some(h) => h,
        None => {
            let _ = state.tmpfs_nodes.release(node_h);
            release_inode_account(state, parent_mount);
            return Err(Status::OutOfMemory);
        },
    };
    let inode: u64 = match alloc_inode(state, parent_mount) {
        Some(i) => i,
        None => 0,
    };
    let fs_id = match state.mounts.get(parent_mount) {
        Some(mt) => mt.fs_instance_id,
        None => FsInstanceId::invalid(),
    };
    let links: u32 = if kind == VnodeType::Dir {
        2
    } else {
        1
    };
    state.tmpfs_entries = state.tmpfs_entries + 1;
    let mut node = TmpfsNode::blank();
    node.owner_mount = parent_mount;
    node.vnode = vnode_h;
    node.parent = parent_node;
    node.kind = kind;
    node.name = slice_to_vec(name);
    node.mode = mode;
    node.nlink = links;
    node.atime_ns = now;
    node.mtime_ns = now;
    node.ctime_ns = now;
    node.mmap_id = inode;
    let ghost node_view = node@;
    let _ = state.tmpfs_nodes.set(node_h, node);
    let mut vn = Vnode::zeroed();
    vn.vtype = kind;
    vn.backend = Backend::Tmpfs;
    vn.mode = mode;
    vn.id = inode;
    vn.atime_ns = now;
    vn.mtime_ns = now;
    vn.fs_instance_id = fs_id;
    vn.mount = MountRef { id: fs_id, handle: parent_mount };
    vn.ops = Some(Backend::Tmpfs);
    vn.nlink = links;
    vn.backend_ref = node_h;
    let _ = state.vnodes.set(vnode_h, vn);
    proof {
        charged.tmpfs_nodes.lemma_grown_put(TmpNodeView::blank(), node_view);
        charged.vnodes.lemma_grown_put(Vnode::zeroed(), vn);
    }
    attach_entry(state, parent_node, node_h, name, kind == VnodeType::Dir, now);
    state.cache_vnode_key(vnode_h);
    Ok((node_h, vnode_h))
}

/// Puts a name first in a directory node.
fn attach_entry(
    state: &mut VfsState,
    dir: Handle,
    child: Handle,
    name: &[u8],
    is_dir: bool,
    now: u64,
)
    ensures
        final(state)@ == (match old(state)@.tmpfs_nodes.entry(dir) {
            Some(n) => {
                let p = VfsModel::dir_with(n, child, name@, now);
                old(state)@.with_tmp_node(
                    dir,
                    TmpNodeView {
                        nlink: if is_dir {
                            one_more(p.nlink)
                        } else {
                            p.nlink
                        },
                        ..p
                    },
                )
            },
            None => old(state)@,
        }),
{
    if let Some(n) = state.tmpfs_nodes.get_mut(dir) {
        let ghost before = n@;
        n.children.insert(0, TmpfsEntry { child, name: slice_to_vec(name) });
        assert(entry_views(n.children@) =~= before.children.insert(
            0,
            EntryView { child, name: name@ },
        ));
        n.mtime_ns = now;
        n.ctime_ns = now;
        if is_dir {
            n.nlink = n.nlink.saturating_add(1);
        }
    }
}

/// Takes a name out of a directory node.
fn detach_entry(state: &mut VfsState, dir: Handle, i: usize)
    requires
        old(state)@.tmpfs_nodes.has(dir),
        i < old(state)@.tmpfs_nodes.at(dir).children.len(),
    ensures
        final(state)@ == old(state)@.with_tmp_node(
            dir,
            TmpNodeView {
                children: old(state)@.tmpfs_nodes.at(dir).children.remove(i as int),
                ..old(state)@.tmpfs_nodes.at(dir)
            },
        ),
{
    if let Some(n) = state.tmpfs_nodes.get_mut(dir) {
        let ghost before = n@;
        let _ = n.children.remove(i);
        assert(entry_views(n.children@) =~= before.children.remove(i as int));
    }
}

fn make_child(
    state: &mut VfsState,
    parent: Handle,
    name: &[u8],
    mode: u32,
    kind: VnodeType,
    now: u64,
) -> (r: Result<Handle, Status>)
    ensures
        r == old(state)@.child_outcome(parent, name@),
        final(state)@ == old(state)@.child_made(parent, name@, mode, kind, now),
{
    if !vnode_is_tmpfs(state, parent) {
        return Err(Status::InvalidArgument);
    }
    match ensure_writable(state, parent) {
        Ok(_) => {},
        Err(e) => {
            return Err(e);
        },
    }
    let dir = match find_node_handle_by_vnode(state, parent) {
        Some(h) => h,
        None => {
            return Err(Status::NotFound);
        },
    };
    let mount = mount_of_vnode(state, parent);
    let fold: bool = casefold_for_mount(state, mount);
    if find_dir_entry(state, dir, name, fold).is_some() {
        return Err(Status::AlreadyExists);
    }
    match allocate_child_node(state, dir, mount, name, mode, kind, now) {
        Ok(pair) => Ok(pair.1),
        Err(e) => Err(e),
    }
}

/// Makes a regular file.
pub fn create_regular_child(state: &mut VfsState, parent: Handle, name: &[u8], mode: u32, now: u64)
    -> (r: Result<Handle, Status>)
    ensures
        r == old(state)@.child_outcome(parent, name@),
        final(state)@ == old(state)@.child_made(
            parent,
            name@,
            (mode & !S_IFMT) | S_IFREG,
            VnodeType::Reg,
            now,
        ),
{
    make_child(state, parent, name, (mode & !S_IFMT) | S_IFREG, VnodeType::Reg, now)
}

/// Makes a directory.
pub fn mkdir_child(state: &mut VfsState, parent: Handle, name: &[u8], mode: u32, now: u64) -> (r:
    Result<Handle, Status>)
    ensures
        r == old(state)@.child_outcome(parent, name@),
        final(state)@ == old(state)@.child_made(
            parent,
            name@,
            (mode & !S_IFMT) | S_IFDIR,
            VnodeType::Dir,
            now,
        ),
{
    make_child(state, parent, name, (mode & !S_IFMT) | S_IFDIR, VnodeType::Dir, now)
}

impl VfsModel {
    /// Why no symlink called `name` to `target` can be made in directory vnode `parent`.
    pub open spec fn symlink_refused(self, parent: Handle, name: Seq<u8>, target: Seq<u8>) -> Option<
        Status,
    > {
        if !self.on_tmpfs(parent) {
            Some(Status::InvalidArgument)
        } else if target.len() == 0 || target.len() > TMPFS_SYMLINK_MAX {
            Some(Status::InvalidArgument)
        } else {
            match self.new_name_refused(parent, name) {
                Some(e) => Some(e),
                None => if self.tmpfs_symlinks.next() is None {
                    Some(Status::OutOfMemory)
                } else {
                    self.node_refused(self.mount_of(parent), name)
                },
            }
        }
    }

    /// The state after an attempt to make a symlink called `name` to `target`.
    pub open spec fn symlink_made(
        self,
        parent: Handle,
        name: Seq<u8>,
        target: Seq<u8>,
        now: u64,
    ) -> VfsModel {
        if !self.on_tmpfs(parent) || target.len() == 0 || target.len() > TMPFS_SYMLINK_MAX
            || self.new_name_refused(parent, name) is Some || self.tmpfs_symlinks.next() is None {
            self
        } else {
            let sh = self.tmpfs_symlinks.next()->0;
            let s = VfsModel { tmpfs_symlinks: self.tmpfs_symlinks.grown(target), ..self };
            let mount = self.mount_of(parent);
            if self.node_refused(mount, name) is Some {
                let t = s.node_not_made(mount, name);
                VfsModel { tmpfs_symlinks: t.tmpfs_symlinks.dropped(sh), ..t }
            } else {
                let nh = self.tmpfs_nodes.next()->0;
                let vh = self.vnodes.next()->0;
                let t = s.node_made(
                    self.tmp_node_of(parent)->0,
                    mount,
                    name,
                    S_IFLNK | 0o777,
                    VnodeType::Lnk,
                    now,
                );
                t.with_tmp_node(
                    nh,
                    TmpNodeView {
                        symlink: sh,
                        size: target.len() as u64,
                        ..t.tmpfs_nodes.at(nh)
                    },
                ).with_vnode(vh, Vnode { size: target.len() as u64, ..t.vnodes.at(vh) })
            }
        }
    }
}

/// Makes a symlink.
pub fn symlink_child(state: &mut VfsState, parent: Handle, name: &[u8], target: &[u8], now: u64)
    -> (r: Result<Handle, Status>)
    ensures
        r == (match old(state)@.symlink_refused(parent, name@, target@) {
            Some(e) => Err(e),
            None => Ok(old(state)@.vnodes.next()->0),
        }),
        final(state)@ == old(state)@.symlink_made(parent, name@, target@, now),
{
    if !vnode_is_tmpfs(state, parent) {
        return Err(Status::InvalidArgument);
    }
    if target.len() == 0 || target.len() > TMPFS_SYMLINK_MAX {
        return Err(Status::InvalidArgument);
    }
    match ensure_writable(state, parent) {
        Ok(_) => {},
        Err(e) => {
            return Err(e);
        },
    }
    let dir = match find_node_handle_by_vnode(state, parent) {
        Some(h) => h,
        None => {
            return Err(Status::NotFound);
        },
    };
    let mount = mount_of_vnode(state, parent);
    let fold: bool = casefold_for_mount(state, mount);
    if find_dir_entry(state, dir, name, fold).is_some() {
        return Err(Status::AlreadyExists);
    }
    let symlink_h = match state.tmpfs_symlinks.reserve(Blob { bytes: slice_to_vec(target) }) {
        Some(h) => h,
        None => {
            return Err(Status::OutOfMemory);
        },
    };
    let ghost with_target = state@;
    assert(with_target.node_refused(mount, name@) == old(state)@.node_refused(mount, name@));
    match allocate_child_node(state, dir, mount, name, S_IFLNK | 0o777, VnodeType::Lnk, now) {
        Ok((node_h, vnode_h)) => {
            if let Some(n) = state.tmpfs_nodes.get_mut(node_h) {
                n.symlink = symlink_h;
                n.size = target.len() as u64;
            }
            if let Some(vn) = state.vnodes.get_mut(vnode_h) {
                vn.size = target.len() as u64;
            }
            Ok(vnode_h)
        },
        Err(e) => {
            let _ = state.tmpfs_symlinks.release(symlink_h);
            Err(e)
        },
    }
}

impl VfsModel {
    /// Why vnode `source` cannot be given the name `name` in directory vnode `dir`.
    pub open spec fn link_refused(self, source: Handle, dir: Handle, name: Seq<u8>) -> Option<
        Status,
    > {
        if !self.on_tmpfs(source) || !self.on_tmpfs(dir) {
            Some(Status::InvalidArgument)
        } else if self.read_only(dir) {
            Some(Status::ReadOnly)
        } else if self.tmp_node_of(dir) is None || self.tmp_node_of(source) is None {
            Some(Status::NotFound)
        } else if self.mount_of(dir) != self.mount_of(source) {
            Some(Status::CrossDevice)
        } else if name.len() == 0 || name.len() > TMPFS_NAME_MAX {
            Some(Status::InvalidArgument)
        } else if self.tmp_pos(self.tmp_node_of(dir)->0, name, self.folds(self.mount_of(dir)))
            is Some {
            Some(Status::AlreadyExists)
        } else if self.tmpfs_nodes.at(self.tmp_node_of(source)->0).kind == VnodeType::Dir {
            Some(Status::InvalidOperation)
        } else if self.entries_used_up() {
            Some(Status::OutOfMemory)
        } else {
            None
        }
    }

    /// The state with the name `name` for vnode `source` in directory vnode `dir`.
    pub open spec fn linked(self, source: Handle, dir: Handle, name: Seq<u8>, now: u64) -> VfsModel {
        let dn = self.tmp_node_of(dir)->0;
        let sn = self.tmp_node_of(source)->0;
        let s = VfsModel { tmpfs_entries: (self.tmpfs_entries + 1) as u32, ..self }.with_tmp_node(
            dn,
            VfsModel::dir_with(self.tmpfs_nodes.at(dn), sn, name, now),
        );
        let n = s.tmpfs_nodes.at(sn);
        s.with_tmp_node(
            sn,
            TmpNodeView { nlink: one_more(n.nlink), ctime_ns: now, ..n },
        ).with_vnode(
            source,
            Vnode { nlink: one_more(s.vnodes.at(source).nlink), ..s.vnodes.at(source) },
        )
    }
}

/// Gives a file one more name.
pub fn link_vnode_into(
    state: &mut VfsState,
    source: Handle,
    new_parent: Handle,
    name: &[u8],
    now: u64,
) -> (r: Result<(), Status>)
    ensures
        match old(state)@.link_refused(source, new_parent, name@) {
            Some(e) => r == Err::<(), Status>(e) && final(state)@ == old(state)@,
            None => r == Ok::<(), Status>(()) && final(state)@ == old(state)@.linked(
                source,
                new_parent,
                name@,
                now,
            ),
        },
{
    if !vnode_is_tmpfs(state, source) || !vnode_is_tmpfs(state, new_parent) {
        return Err(Status::InvalidArgument);
    }
    match ensure_writable(state, new_parent) {
        Ok(_) => {},
        Err(e) => {
            return Err(e);
        },
    }
    let dir = match find_node_handle_by_vnode(state, new_parent) {
        Some(h) => h,
        None => {
            return Err(Status::NotFound);
        },
    };
    let source_node = match find_node_handle_by_vnode(state, source) {
        Some(h) => h,
        None => {
            return Err(Status::NotFound);
        },
    };
    let mount = mount_of_vnode(state, new_parent);
    if mount != mount_of_vnode(state, source) {
        return Err(Status::CrossDevice);
    }
    if name.len() == 0 || name.len() > TMPFS_NAME_MAX {
        return Err(Status::InvalidArgument);
    }
    let fold: bool = casefold_for_mount(state, mount);
    if find_dir_entry(state, dir, name, fold).is_some() {
        return Err(Status::AlreadyExists);
    }
    match state.tmpfs_nodes.get(source_node) {
        Some(n) => {
            if n.kind == VnodeType::Dir {
                return Err(Status::InvalidOperation);
            }
        },
        None => {
            return Err(Status::InvalidOperation);
        },
    }
    if state.tmpfs_entries >= INITIAL_TMPFS_DIR_ENTRY_CAP {
        return Err(Status::OutOfMemory);
    }
    state.tmpfs_entries = state.tmpfs_entries + 1;
    attach_entry(state, dir, source_node, name, false, now);
    if let Some(n) = state.tmpfs_nodes.get_mut(source_node) {
        n.nlink = n.nlink.saturating_add(1);
        n.ctime_ns = now;
    }
    if let Some(vn) = state.vnodes.get_mut(source) {
        vn.nlink = vn.nlink.saturating_add(1);
    }
    Ok(())
}

impl VfsModel {
    /// The node that directory node `dir` holds at position `i`.
    pub open spec fn tmp_child_at(self, dir: Handle, i: int) -> Handle {
        self.tmpfs_nodes.at(dir).children[i].child
    }

    /// Kind of a node, unset where there is no such node.
    pub open spec fn tmp_kind(self, h: Handle) -> VnodeType {
        match self.tmpfs_nodes.entry(h) {
            Some(n) => n.kind,
            None => VnodeType::Unset,
        }
    }

    /// Directory node `h` holds a name.
    pub open spec fn tmp_occupied(self, h: Handle) -> bool {
        self.tmpfs_nodes.has(h) && self.tmpfs_nodes.at(h).children.len() != 0
    }

    /// Why the name `name` cannot be taken out of directory vnode `parent`.
    pub open spec fn removal_refused(self, parent: Handle, name: Seq<u8>, want_dir: bool) -> Option<
        Status,
    > {
        if !self.on_tmpfs(parent) {
            Some(Status::InvalidArgument)
        } else if self.read_only(parent) {
            Some(Status::ReadOnly)
        } else {
            match self.tmp_node_of(parent) {
                None => Some(Status::NotFound),
                Some(dir) => match self.tmp_pos(dir, name, self.folds(self.mount_of(parent))) {
                    None => Some(Status::NotFound),
                    Some(i) => {
                        let child = self.tmp_child_at(dir, i);
                        if want_dir {
                            if self.tmp_kind(child) != VnodeType::Dir || self.tmp_occupied(child) {
                                Some(Status::InvalidOperation)
                            } else {
                                None
                            }
                        } else if self.tmp_kind(child) == VnodeType::Dir {
                            Some(Status::IsDirectory)
                        } else {
                            None
                        }
                    },
                },
            }
        }
    }

    /// The state with the name at position `i` of directory node `dir` gone, and whether the
    /// node had another name. A directory loses its own link to itself with its name.
    pub open spec fn name_unlinked(self, dir: Handle, i: int, now: u64) -> (VfsModel, bool) {
        let child = self.tmp_child_at(dir, i);
        let is_dir = self.tmp_kind(child) == VnodeType::Dir;
        let d = self.tmpfs_nodes.at(dir);
        let s = VfsModel { tmpfs_entries: one_less(self.tmpfs_entries), ..self }.with_tmp_node(
            dir,
            TmpNodeView {
                children: d.children.remove(i),
                mtime_ns: now,
                ctime_ns: now,
                nlink: if is_dir {
                    one_less(d.nlink)
                } else {
                    d.nlink
                },
                ..d
            },
        );
        match s.tmpfs_nodes.entry(child) {
            None => (s, true),
            Some(n) => {
                let left = if is_dir {
                    0u32
                } else {
                    one_less(n.nlink)
                };
                let t = s.with_tmp_node(child, TmpNodeView { nlink: left, ctime_ns: now, ..n });
                let u = match t.vnodes.entry(n.vnode) {
                    None => t,
                    Some(vn) => t.with_vnode(
                        n.vnode,
                        if left == 0 {
                            Vnode { nlink: 0, doomed: true, ..vn }
                        } else {
                            Vnode { nlink: one_less(vn.nlink), ..vn }
                        },
                    ),
                };
                if left == 0 {
                    (u.uncached(n.vnode), false)
                } else {
                    (u, true)
                }
            },
        }
    }

    /// The state with the name at position `i` of directory node `dir` gone. A node that
    /// loses its last name goes too, unless something else keeps its vnode.
    pub open spec fn name_removed(self, dir: Handle, i: int, now: u64) -> VfsModel {
        let (s, named) = self.name_unlinked(dir, i, now);
        if named {
            s
        } else {
            s.reclaimed(s.tmpfs_nodes.at(self.tmp_child_at(dir, i)).vnode)
        }
    }

    /// The state with the name `name` gone from directory vnode `parent`.
    pub open spec fn child_removed(self, parent: Handle, name: Seq<u8>, now: u64) -> VfsModel {
        let dir = self.tmp_node_of(parent)->0;
        self.name_removed(dir, self.tmp_pos(dir, name, self.folds(self.mount_of(parent)))->0, now)
    }
}

/// Takes the name at position `i` out of a directory node; a node without a name is
/// reclaimed.
fn drop_name(state: &mut VfsState, dir: Handle, i: usize, now: u64)
    requires
        old(state)@.tmpfs_nodes.has(dir),
        i < old(state)@.tmpfs_nodes.at(dir).children.len(),
    ensures
        final(state)@ == old(state)@.name_removed(dir, i as int, now),
{
    let child = entry_child(state, dir, i);
    let is_dir: bool = match state.tmpfs_nodes.get(child) {
        Some(n) => n.kind == VnodeType::Dir,
        None => false,
    };
    let ghost d = state@.tmpfs_nodes.at(dir);
    state.tmpfs_entries = state.tmpfs_entries.saturating_sub(1);
    if let Some(n) = state.tmpfs_nodes.get_mut(dir) {
        let _ = n.children.remove(i);
        assert(entry_views(n.children@) =~= d.children.remove(i as int));
        n.mtime_ns = now;
        n.ctime_ns = now;
        if is_dir {
            n.nlink = n.nlink.saturating_sub(1);
        }
    }
    let ghost s = VfsModel {
        tmpfs_entries: one_less(old(state)@.tmpfs_entries),
        ..old(state)@
    }.with_tmp_node(
        dir,
        TmpNodeView {
            children: d.children.remove(i as int),
            mtime_ns: now,
            ctime_ns: now,
            nlink: if is_dir {
                one_less(d.nlink)
            } else {
                d.nlink
            },
            ..d
        },
    );
    assert(state@ == s);
    let (child_vnode, gone) = match state.tmpfs_nodes.get_mut(child) {
        Some(n) => {
            if is_dir {
                n.nlink = 0;
            } else {
                n.nlink = n.nlink.saturating_sub(1);
            }
            n.ctime_ns = now;
            (n.vnode, n.nlink == 0)
        },
        None => {
            return;
        },
    };
    if let Some(vn) = state.vnodes.get_mut(child_vnode) {
        if gone {
            vn.nlink = 0;
            vn.doomed = true;
        } else {
            vn.nlink = vn.nlink.saturating_sub(1);
        }
    }
    if gone {
        state.uncache_vnode_key(child_vnode);
        state.reclaim_bootstrap_vnode(child_vnode);
    }
}

/// Takes a name out of a directory.
pub fn remove_child(state: &mut VfsState, parent: Handle, name: &[u8], remove_dir: bool, now: u64)
    -> (r: Result<(), Status>)
    ensures
        match old(state)@.removal_refused(parent, name@, remove_dir) {
            Some(e) => r == Err::<(), Status>(e) && final(state)@ == old(state)@,
            None => r == Ok::<(), Status>(()) && final(state)@ == old(state)@.child_removed(
                parent,
                name@,
                now,
            ),
        },
{
    if !vnode_is_tmpfs(state, parent) {
        return Err(Status::InvalidArgument);
    }
    match ensure_writable(state, parent) {
        Ok(_) => {},
        Err(e) => {
            return Err(e);
        },
    }
    let dir = match find_node_handle_by_vnode(state, parent) {
        Some(h) => h,
        None => {
            return Err(Status::NotFound);
        },
    };
    let fold: bool = casefold_for_mount(state, mount_of_vnode(state, parent));
    let i: usize = match find_dir_entry(state, dir, name, fold) {
        Some(i) => i,
        None => {
            return Err(Status::NotFound);
        },
    };
    let child = entry_child(state, dir, i);
    let (kind, occupied) = match state.tmpfs_nodes.get(child) {
        Some(n) => {
            assert(n@.children.len() == n.children@.len());
            (n.kind, n.children.len() != 0)
        },
        None => (VnodeType::Unset, false),
    };
    if remove_dir {
        if kind != VnodeType::Dir {
            return Err(Status::InvalidOperation);
        }
        if occupied {
            return Err(Status::InvalidOperation);
        }
    } else if kind == VnodeType::Dir {
        return Err(Status::IsDirectory);
    }
    drop_name(state, dir, i, now);
    Ok(())
}

impl VfsModel {
    /// Why the name `old_name` in `old_parent` cannot become `new_name` in `new_parent`,
    /// seen before anything is changed.
    pub open spec fn rename_refused(
        self,
        old_parent: Handle,
        old_name: Seq<u8>,
        new_parent: Handle,
        new_name: Seq<u8>,
    ) -> Option<Status> {
        if !self.on_tmpfs(old_parent) || !self.on_tmpfs(new_parent) {
            Some(Status::InvalidArgument)
        } else if self.read_only(old_parent) || self.read_only(new_parent) {
            Some(Status::ReadOnly)
        } else if self.tmp_node_of(old_parent) is None || self.tmp_node_of(new_parent) is None {
            Some(Status::NotFound)
        } else if self.mount_of(old_parent) != self.mount_of(new_parent) {
            Some(Status::CrossDevice)
        } else if new_name.len() == 0 || new_name.len() > TMPFS_NAME_MAX {
            Some(Status::InvalidArgument)
        } else {
            let fold = self.folds(self.mount_of(old_parent));
            let from = self.tmp_node_of(old_parent)->0;
            let to = self.tmp_node_of(new_parent)->0;
            match self.tmp_pos(from, old_name, fold) {
                None => Some(Status::NotFound),
                Some(i) => match self.tmp_pos(to, new_name, fold) {
                    None => None,
                    Some(j) => {
                        let moved = self.tmp_child_at(from, i);
                        let target = self.tmp_child_at(to, j);
                        if moved == target {
                            None
                        } else if self.tmp_kind(target) == VnodeType::Dir {
                            if self.tmp_kind(moved) != VnodeType::Dir {
                                Some(Status::IsDirectory)
                            } else if self.tmp_occupied(target) {
                                Some(Status::InvalidOperation)
                            } else {
                                None
                            }
                        } else if self.tmp_kind(moved) == VnodeType::Dir {
                            Some(Status::InvalidOperation)
                        } else {
                            None
                        }
                    },
                },
            }
        }
    }

    /// The old and the new name already name one node.
    pub open spec fn rename_is_idle(
        self,
        old_parent: Handle,
        old_name: Seq<u8>,
        new_parent: Handle,
        new_name: Seq<u8>,
    ) -> bool {
        let fold = self.folds(self.mount_of(old_parent));
        let from = self.tmp_node_of(old_parent)->0;
        let to = self.tmp_node_of(new_parent)->0;
        match (self.tmp_pos(from, old_name, fold), self.tmp_pos(to, new_name, fold)) {
            (Some(i), Some(j)) => self.tmp_child_at(from, i) == self.tmp_child_at(to, j),
            _ => false,
        }
    }

    /// The state before the move: what had the new name has lost it.
    pub open spec fn way_cleared(
        self,
        old_parent: Handle,
        new_parent: Handle,
        new_name: Seq<u8>,
        now: u64,
    ) -> VfsModel {
        let fold = self.folds(self.mount_of(old_parent));
        let to = self.tmp_node_of(new_parent)->0;
        match self.tmp_pos(to, new_name, fold) {
            Some(j) => self.name_removed(to, j, now),
            None => self,
        }
    }

    /// The state with the name at position `i` of directory node `from` moved to the front
    /// of directory node `to` as `new_name`. A directory that changes its parent takes its
    /// link to the parent along.
    pub open spec fn entry_moved(
        self,
        from: Handle,
        i: int,
        to: Handle,
        new_name: Seq<u8>,
        now: u64,
    ) -> VfsModel {
        let child = self.tmp_child_at(from, i);
        let f = self.tmpfs_nodes.at(from);
        let a = self.with_tmp_node(from, TmpNodeView { children: f.children.remove(i), ..f });
        let b = a.with_tmp_node(
            to,
            VfsModel::dir_with(a.tmpfs_nodes.at(to), child, new_name, now),
        );
        let c = if from == to {
            b
        } else {
            let is_dir = b.tmp_kind(child) == VnodeType::Dir;
            let x = match b.tmpfs_nodes.entry(child) {
                Some(n) => b.with_tmp_node(child, TmpNodeView { parent: to, ..n }),
                None => b,
            };
            let y = match x.tmpfs_nodes.entry(from) {
                Some(n) => x.with_tmp_node(
                    from,
                    TmpNodeView {
                        mtime_ns: now,
                        ctime_ns: now,
                        nlink: if is_dir {
                            one_less(n.nlink)
                        } else {
                            n.nlink
                        },
                        ..n
                    },
                ),
                None => x,
            };
            match y.tmpfs_nodes.entry(to) {
                Some(n) => if is_dir {
                    y.with_tmp_node(to, TmpNodeView { nlink: one_more(n.nlink), ..n })
                } else {
                    y
                },
                None => y,
            }
        };
        match c.tmpfs_nodes.entry(child) {
            Some(n) => c.with_tmp_node(child, TmpNodeView { name: new_name, ctime_ns: now, ..n }),
            None => c,
        }
    }
}

#[verifier::rlimit(60)]
#[verifier::spinoff_prover]
fn move_entry(state: &mut VfsState, from: Handle, i: usize, to: Handle, new_name: &[u8], now: u64)
    requires
        old(state)@.tmpfs_nodes.has(from),
        old(state)@.tmpfs_nodes.has(to),
        i < old(state)@.tmpfs_nodes.at(from).children.len(),
    ensures
        final(state)@ == old(state)@.entry_moved(from, i as int, to, new_name@, now),
{
    let child = entry_child(state, from, i);
    detach_entry(state, from, i);
    attach_entry(state, to, child, new_name, false, now);
    if from != to {
        let is_dir: bool = match state.tmpfs_nodes.get(child) {
            Some(n) => n.kind == VnodeType::Dir,
            None => false,
        };
        if let Some(n) = state.tmpfs_nodes.get_mut(child) {
            n.parent = to;
        }
        if let Some(n) = state.tmpfs_nodes.get_mut(from) {
            n.mtime_ns = now;
            n.ctime_ns = now;
            if is_dir {
                n.nlink = n.nlink.saturating_sub(1);
            }
        }
        if is_dir {
            if let Some(n) = state.tmpfs_nodes.get_mut(to) {
                n.nlink = n.nlink.saturating_add(1);
            }
        }
    }
    if let Some(n) = state.tmpfs_nodes.get_mut(child) {
        n.name = slice_to_vec(new_name);
        n.ctime_ns = now;
    }
}

/// Gives what `old_name` names in `old_parent` the name `new_name` in `new_parent`; what
/// had that name loses it.
pub fn rename_child(
    state: &mut VfsState,
    old_parent: Handle,
    old_name: &[u8],
    new_parent: Handle,
    new_name: &[u8],
    now: u64,
) -> (r: Result<(), Status>)
    ensures
        match old(state)@.rename_refused(old_parent, old_name@, new_parent, new_name@) {
            Some(e) => r == Err::<(), Status>(e) && final(state)@ == old(state)@,
            None => if old(state)@.rename_is_idle(old_parent, old_name@, new_parent, new_name@) {
                r == Ok::<(), Status>(()) && final(state)@ == old(state)@
            } else {
                let s = old(state)@.way_cleared(old_parent, new_parent, new_name@, now);
                let fold = old(state)@.folds(old(state)@.mount_of(old_parent));
                let from = old(state)@.tmp_node_of(old_parent)->0;
                let to = old(state)@.tmp_node_of(new_parent)->0;
                match s.tmp_pos(from, old_name@, fold) {
                    Some(i) if s.tmpfs_nodes.has(to) => r == Ok::<(), Status>(()) && final(state)@
                        == s.entry_moved(from, i, to, new_name@, now),
                    _ => r == Err::<(), Status>(Status::NotFound) && final(state)@ == s,
                }
            },
        },
{
    if !vnode_is_tmpfs(state, old_parent) || !vnode_is_tmpfs(state, new_parent) {
        return Err(Status::InvalidArgument);
    }
    match ensure_writable(state, old_parent) {
        Ok(_) => {},
        Err(e) => {
            return Err(e);
        },
    }
    match ensure_writable(state, new_parent) {
        Ok(_) => {},
        Err(e) => {
            return Err(e);
        },
    }
    let from = match find_node_handle_by_vnode(state, old_parent) {
        Some(h) => h,
        None => {
            return Err(Status::NotFound);
        },
    };
    let to = match find_node_handle_by_vnode(state, new_parent) {
        Some(h) => h,
        None => {
            return Err(Status::NotFound);
        },
    };
    let mount = mount_of_vnode(state, old_parent);
    if mount != mount_of_vnode(state, new_parent) {
        return Err(Status::CrossDevice);
    }
    if new_name.len() == 0 || new_name.len() > TMPFS_NAME_MAX {
        return Err(Status::InvalidArgument);
    }
    let fold: bool = casefold_for_mount(state, mount);
    let i: usize = match find_dir_entry(state, from, old_name, fold) {
        Some(i) => i,
        None => {
            return Err(Status::NotFound);
        },
    };
    let moved = entry_child(state, from, i);
    if let Some(j) = find_dir_entry(state, to, new_name, fold) {
        let target = entry_child(state, to, j);
        if target == moved {
            return Ok(());
        }
        let moved_kind = match state.tmpfs_nodes.get(moved) {
            Some(n) => n.kind,
            None => VnodeType::Unset,
        };
        let (target_kind, occupied) = match state.tmpfs_nodes.get(target) {
            Some(n) => {
                assert(n@.children.len() == n.children@.len());
                (n.kind, n.children.len() != 0)
            },
            None => (VnodeType::Unset, false),
        };
        if target_kind == VnodeType::Dir {
            if moved_kind != VnodeType::Dir {
                return Err(Status::IsDirectory);
            }
            if occupied {
                return Err(Status::InvalidOperation);
            }
        } else if moved_kind == VnodeType::Dir {
            return Err(Status::InvalidOperation);
        }
        match remove_child(state, new_parent, new_name, target_kind == VnodeType::Dir, now) {
            Ok(_) => {},
            Err(e) => {
                return Err(e);
            },
        }
    }
    let ghost cleared = state@;
    assert(cleared == old(state)@.way_cleared(old_parent, new_parent, new_name@, now));
    let at: usize = match find_dir_entry(state, from, old_name, fold) {
        Some(at) => at,
        None => {
            return Err(Status::NotFound);
        },
    };
    if !state.tmpfs_nodes.contains(to) {
        return Err(Status::NotFound);
    }
    move_entry(state, from, at, to, new_name, now);
    Ok(())
}

} // verus!
