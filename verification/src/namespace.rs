//! How mounts sit on the tree, and how the real root takes the place of the first one.

use crate::arena::Handle;
use crate::bootstrap::{boot_child, passes_by, WalkMode};
use crate::bytes::bytes_eq;
use crate::identity::{FsInstanceId, VnodeKey};
use crate::mount::{Mount, MountView, NamespaceView, VnodeRef, MOUNT_PATH_MAX};
use crate::state::{BootDirs, VfsModel, VfsState};
use crate::vnode::{
    bootstrap_dynamic_vnode_id, dynamic_id, MountRef, Vnode, VnodeType, S_IFDIR,
};
use vstd::prelude::*;
use vstd::string::*;

verus! {

// ---- mounts on the tree ------------------------------------------------------------

impl VfsModel {
    /// The state with no mount on vnode `v`.
    pub open spec fn uncovered(self, v: Handle) -> VfsModel {
        match self.vnodes.entry(v) {
            Some(vn) => self.with_vnode(
                v,
                Vnode { covered: false, covered_by: MountRef::invalid(), ..vn.let_go() },
            ),
            None => self,
        }
    }

    /// The state with mount `mh` on vnode `target` and below mount `parent`, and whether it
    /// could be put there. A path that is too long is found out after the mount has left
    /// its old place.
    pub open spec fn attached(self, mh: Handle, parent: Handle, target: Handle, path: Seq<u8>) -> (
        VfsModel,
        bool,
    ) {
        if !self.vnodes.has(target) || !self.mounts.has(parent) || !self.mounts.has(mh) {
            (self, false)
        } else {
            let key = self.vnodes.at(target).vnode_key();
            let was = self.mounts.at(mh).covered.handle;
            let s = if was.is_valid() {
                self.uncovered(was)
            } else {
                self
            };
            let t = VfsModel {
                mounts: s.mounts.put(
                    mh,
                    MountView {
                        parent: MountRef {
                            id: self.mounts.at(parent).fs_instance_id,
                            handle: parent,
                        },
                        covered: VnodeRef { id: key, handle: target },
                        ..s.mounts.at(mh)
                    }.placed(path),
                ),
                ..s
            };
            if path.len() > MOUNT_PATH_MAX {
                (t, false)
            } else {
                (
                    t.with_vnode(
                        target,
                        Vnode {
                            covered: true,
                            covered_by: MountRef {
                                id: self.mounts.at(mh).fs_instance_id,
                                handle: mh,
                            },
                            ..t.vnodes.at(target)
                        }.held(),
                    ),
                    true,
                )
            }
        }
    }

    /// The mount that a mount on vnode `target` lies below.
    pub open spec fn mount_below(self, target: Handle) -> Handle {
        match self.vnodes.entry(target) {
            Some(vn) => if vn.mount.handle.is_valid() {
                vn.mount.handle
            } else {
                self.root_mount
            },
            None => self.root_mount,
        }
    }

    /// The state with mount `mh` on what `path` names in the bootstrap tree.
    pub open spec fn grafted(self, mh: Handle, path: Seq<u8>) -> (VfsModel, bool) {
        match self.boot_named(path) {
            None => (self, false),
            Some(target) => {
                let (s, ok) = self.attached(mh, self.root_mount, target, path);
                (
                    if ok && path == "/newroot".spec_bytes() {
                        VfsModel {
                            boot_dirs: BootDirs { real_root_mount: mh, ..s.boot_dirs },
                            ..s
                        }
                    } else {
                        s
                    },
                    ok,
                )
            },
        }
    }
}

impl VfsState {
    /// Takes the mount off a vnode.
    pub fn clear_mount_covering_link(&mut self, target: Handle)
        ensures
            final(self)@ == old(self)@.uncovered(target),
    {
        if let Some(vn) = self.vnodes.get_mut(target) {
            vn.covered = false;
            vn.covered_by = MountRef::invalid();
            vn.unpin();
        }
    }

    /// Puts a mount on a vnode, below another mount; `false` when one of them is not there
    /// or the path is too long to keep.
    pub fn attach_mount_at_vnode(
        &mut self,
        mount: Handle,
        parent: Handle,
        target: Handle,
        path: &[u8],
    ) -> (r: bool)
        ensures
            (final(self)@, r) == old(self)@.attached(mount, parent, target, path@),
    {
        let key: VnodeKey = match self.vnodes.get(target) {
            Some(vn) => vn.vnode_key(),
            None => {
                return false;
            },
        };
        let parent_id: FsInstanceId = match self.mounts.get(parent) {
            Some(mt) => mt.fs_instance_id,
            None => {
                return false;
            },
        };
        let (child_id, was): (FsInstanceId, Handle) = match self.mounts.get(mount) {
            Some(mt) => (mt.fs_instance_id, mt.covered.handle),
            None => {
                return false;
            },
        };
        if was.is_valid() {
            self.clear_mount_covering_link(was);
        }
        let mut kept: bool = false;
        if let Some(mt) = self.mounts.get_mut(mount) {
            mt.parent = MountRef { id: parent_id, handle: parent };
            mt.covered = VnodeRef { id: key, handle: target };
            kept = mt.set_mount_path(path);
        }
        if !kept {
            return false;
        }
        match self.vnodes.get_mut(target) {
            Some(vn) => {
                vn.covered = true;
                vn.covered_by = MountRef { id: child_id, handle: mount };
                vn.pin();
                true
            },
            None => false,
        }
    }

    /// Puts a mount on a vnode of the live tree, below the mount that the vnode lies on.
    pub fn graft_mount_at_vnode(&mut self, mount: Handle, target: Handle, path: &[u8]) -> (r: bool)
        ensures
            (final(self)@, r) == old(self)@.attached(
                mount,
                old(self)@.mount_below(target),
                target,
                path@,
            ),
    {
        let parent: Handle = match self.vnodes.get(target) {
            Some(vn) => {
                if vn.mount.handle.is_valid() {
                    vn.mount.handle
                } else {
                    self.root_mount
                }
            },
            None => self.root_mount,
        };
        self.attach_mount_at_vnode(mount, parent, target, path)
    }

    /// Puts a mount on a place of the bootstrap tree; what is put on `/newroot` is the root
    /// that the service will change over to.
    pub fn graft_mount_at_bootstrap_path(&mut self, mount: Handle, path: &[u8]) -> (r: bool)
        ensures
            (final(self)@, r) == old(self)@.grafted(mount, path@),
    {
        let target: Handle = match self.bootstrap_lookup_path(path) {
            Some(v) => v,
            None => {
                return false;
            },
        };
        let parent: Handle = self.root_mount;
        if !self.attach_mount_at_vnode(mount, parent, target, path) {
            return false;
        }
        if bytes_eq(path, "/newroot".as_bytes()) {
            self.boot_dirs.real_root_mount = mount;
        }
        true
    }
}

/// A mount that was put on a vnode is found there: the vnode and the mount name each other,
/// the vnode is held, and a walk that reaches the vnode and does not pass the mount by goes
/// on at the root of the mount.
pub proof fn law_attached_mount_is_found(
    m: VfsModel,
    mh: Handle,
    parent: Handle,
    target: Handle,
    path: Seq<u8>,
    mode: WalkMode,
)
    requires
        m.attached(mh, parent, target, path).1,
        mh.is_valid(),
        m.mounts.at(mh).fs_instance_id != FsInstanceId::invalid(),
        !passes_by(m.mounts.at(mh).flags, mode),
        m.vnodes.has(m.mounts.at(mh).root_vnode),
    ensures
        ({
            let s = m.attached(mh, parent, target, path).0;
            &&& s.vnodes.at(target).covered
            &&& s.vnodes.at(target).pinned
            &&& s.vnodes.at(target).covered_by.handle == mh
            &&& s.mounts.at(mh).covered.handle == target
            &&& s.mounts.at(mh).parent.handle == parent
            &&& s.mounts.at(mh).mount_path == path
            &&& s.crossed(target, mode) == Some(m.mounts.at(mh).root_vnode)
        }),
{
}

// ---- changing over to the real root ------------------------------------------------

/// Mode of a directory that the service makes for itself.
pub open spec fn dir_mode(name: Seq<u8>) -> u32 {
    if name == "tmp".spec_bytes() {
        S_IFDIR | 0o1777u32
    } else {
        S_IFDIR | 0o755u32
    }
}

/// Mode of a directory that the service makes for itself.
pub fn bootstrap_dir_mode(name: &[u8]) -> (r: u32)
    ensures
        r == dir_mode(name@),
{
    if bytes_eq(name, "tmp".as_bytes()) {
        S_IFDIR | 0o1777
    } else {
        S_IFDIR | 0o755
    }
}

/// The directories that the new root needs, in this order.
pub open spec fn post_pivot_dirs() -> Seq<&'static str> {
    seq!["dev", "proc", "tmp", "sys", "pipe", "initramfs"]
}

/// The place of a mount that moves to the new root, among those directories.
pub open spec fn moving_place(path: Seq<u8>) -> Option<int> {
    if path == "/dev".spec_bytes() {
        Some(0)
    } else if path == "/proc".spec_bytes() {
        Some(1)
    } else if path == "/tmp".spec_bytes() {
        Some(2)
    } else if path == "/sys".spec_bytes() {
        Some(3)
    } else if path == "/pipe".spec_bytes() {
        Some(4)
    } else {
        None
    }
}

/// Which mounts move from the old root, of instance `id`, to the new one.
pub open spec fn moves_over(old_root: Handle, new_root: Handle, id: FsInstanceId) -> spec_fn(
    Handle,
    MountView,
) -> bool {
    |mh: Handle, mt: MountView|
        mh != old_root && mh != new_root && mt.parent.id == id && moving_place(
            mt.mount_path,
        ) is Some
}

/// Most mounts that move to the new root.
pub const MOVING_MOUNTS: usize = 5;

fn place_of(path: &[u8]) -> (r: Option<usize>)
    ensures
        match r {
            Some(i) => moving_place(path@) == Some(i as int),
            None => moving_place(path@) is None,
        },
{
    if bytes_eq(path, "/dev".as_bytes()) {
        Some(0)
    } else if bytes_eq(path, "/proc".as_bytes()) {
        Some(1)
    } else if bytes_eq(path, "/tmp".as_bytes()) {
        Some(2)
    } else if bytes_eq(path, "/sys".as_bytes()) {
        Some(3)
    } else if bytes_eq(path, "/pipe".as_bytes()) {
        Some(4)
    } else {
        None
    }
}

fn post_pivot_list() -> (r: Vec<&'static str>)
    ensures
        r@ == post_pivot_dirs(),
{
    let mut v: Vec<&'static str> = Vec::new();
    v.push("dev");
    v.push("proc");
    v.push("tmp");
    v.push("sys");
    v.push("pipe");
    v.push("initramfs");
    assert(v@ =~= post_pivot_dirs());
    v
}

impl VfsModel {
    /// A directory called `name` in `parent`, made if it is not there.
    pub open spec fn overlay_dir(
        self,
        parent: Handle,
        mount: Handle,
        fs_id: FsInstanceId,
        name: Seq<u8>,
        id: u64,
    ) -> (VfsModel, Option<Handle>) {
        match boot_child(self.boot_entries, parent, name, false) {
            Some(v) => (self, Some(v)),
            None => {
                let (s, made) = self.object_added(
                    parent,
                    name,
                    Vnode {
                        id,
                        ..Vnode::new_bootstrap(VnodeType::Dir, fs_id, mount, dir_mode(name))
                    },
                );
                match made {
                    None => (s, None),
                    Some(v) => (
                        s.renumbered(v, dynamic_id(v, VnodeType::Dir)).cached(v),
                        Some(v),
                    ),
                }
            },
        }
    }

    /// The first `n` directories that the new root needs, made if they are not there.
    pub open spec fn new_root_dirs(self, root: Handle, mount: Handle, fs_id: FsInstanceId, n: int) -> (
        VfsModel,
        Option<Seq<Handle>>,
    )
        decreases n,
    {
        if n <= 0 {
            (self, Some(Seq::empty()))
        } else {
            let (s, done) = self.new_root_dirs(root, mount, fs_id, n - 1);
            match done {
                None => (s, None),
                Some(hs) => {
                    let (t, v) = s.overlay_dir(
                        root,
                        mount,
                        fs_id,
                        post_pivot_dirs()[n - 1].spec_bytes(),
                        (0x100 + n - 1) as u64,
                    );
                    match v {
                        None => (t, None),
                        Some(h) => (t, Some(hs.push(h))),
                    }
                },
            }
        }
    }

    /// The directories that the new root needs, made if they are not there.
    pub open spec fn pivot_targets(self, mh: Handle) -> (VfsModel, Option<Seq<Handle>>) {
        match self.mounts.entry(mh) {
            None => (self, None),
            Some(mt) => self.new_root_dirs(mt.root_vnode, mh, mt.fs_instance_id, 6),
        }
    }

    /// The mounts that move from the old root to the new one.
    pub open spec fn moving(self, old_root: Handle, new_root: Handle) -> Seq<Handle> {
        let fs_id = self.mounts.at(old_root).fs_instance_id;
        self.mounts.listed(moves_over(old_root, new_root, fs_id), 0, MOVING_MOUNTS as nat)
    }

    /// The state with the first `n` of the mounts `hs` on their new places, and whether all
    /// could be put there.
    pub open spec fn moved_over(
        self,
        hs: Seq<Handle>,
        new_root: Handle,
        targets: Seq<Handle>,
        n: int,
    ) -> (VfsModel, bool)
        decreases n,
    {
        if n <= 0 {
            (self, true)
        } else {
            let (s, ok) = self.moved_over(hs, new_root, targets, n - 1);
            if !ok || !s.mounts.has(hs[n - 1]) {
                (s, false)
            } else {
                let path = s.mounts.at(hs[n - 1]).mount_path;
                let place = match moving_place(path) {
                    Some(i) => i,
                    None => 4,
                };
                s.attached(hs[n - 1], new_root, targets[place], path)
            }
        }
    }

    /// The state with `mh` as the root of the global namespace.
    pub open spec fn rooted_at(self, mh: Handle) -> (VfsModel, bool) {
        let s = VfsModel { root_mount: mh, ..self };
        match s.namespaces.entry(s.global_ns) {
            None => (s, false),
            Some(ns) => (
                VfsModel {
                    namespaces: s.namespaces.put(
                        s.global_ns,
                        NamespaceView {
                            root_mount: mh,
                            mounts: if ns.mounts.len() != 0 {
                                ns.mounts.update(0, mh)
                            } else {
                                ns.mounts
                            },
                            ..ns
                        },
                    ),
                    ..s
                },
                true,
            ),
        }
    }

    /// The state in which mount `mh` sits on nothing.
    pub open spec fn at_the_top(self, mh: Handle) -> VfsModel {
        match self.mounts.entry(mh) {
            None => self,
            Some(mt) => VfsModel {
                mounts: self.mounts.put(
                    mh,
                    MountView {
                        parent: MountRef::invalid(),
                        covered: VnodeRef::invalid(),
                        mount_path: "/".spec_bytes(),
                        ..mt
                    },
                ),
                ..self
            },
        }
    }

    /// The changeover to the real root: the pseudo filesystems move over, the old root goes
    /// below the new one, and the new one becomes the root of the namespace.
    pub open spec fn pivoted(self) -> (VfsModel, bool) {
        let new_root = self.boot_dirs.real_root_mount;
        let old_root = self.root_mount;
        if !new_root.is_valid() || !old_root.is_valid() || new_root == old_root {
            (self, false)
        } else {
            let (s, made) = self.pivot_targets(new_root);
            match made {
                None => (s, false),
                Some(targets) => if !s.mounts.has(old_root) || !s.mounts.has(new_root) {
                    (s, false)
                } else {
                    let was = s.mounts.at(new_root).covered.handle;
                    let hs = s.moving(old_root, new_root);
                    let (t, moved) = s.moved_over(hs, new_root, targets, hs.len() as int);
                    if !moved {
                        (t, false)
                    } else {
                        let (u, put) = t.attached(
                            old_root,
                            new_root,
                            targets[5],
                            "/initramfs".spec_bytes(),
                        );
                        if !put {
                            (u, false)
                        } else {
                            let v = if was.is_valid() {
                                u.uncovered(was)
                            } else {
                                u
                            };
                            let (w, named) = v.rooted_at(new_root);
                            if !named || !w.mounts.has(new_root) {
                                (w, false)
                            } else {
                                let x = w.at_the_top(new_root);
                                (
                                    VfsModel {
                                        boot_dirs: BootDirs {
                                            dev_dir: targets[0],
                                            proc_dir: targets[1],
                                            tmp_dir: targets[2],
                                            sys_dir: targets[3],
                                            pipe_dir: targets[4],
                                            initramfs_dir: targets[5],
                                            put_old_dir: targets[5],
                                            ..x.boot_dirs
                                        },
                                        ..x
                                    },
                                    true,
                                )
                            }
                        }
                    }
                },
            }
        }
    }

    proof fn lemma_new_root_dirs(self, root: Handle, mount: Handle, fs_id: FsInstanceId, n: int)
        requires
            0 <= n,
        ensures
            self.new_root_dirs(root, mount, fs_id, n).1 matches Some(hs) ==> hs.len() == n,
        decreases n,
    {
        if n > 0 {
            self.lemma_new_root_dirs(root, mount, fs_id, n - 1);
        }
    }
}

impl VfsState {
    /// A directory called `name` in `parent`, made if it is not there.
    pub fn ensure_bootstrap_overlay_dir(
        &mut self,
        parent: Handle,
        mount: Handle,
        fs_id: FsInstanceId,
        name: &[u8],
        id: u64,
    ) -> (r: Option<Handle>)
        ensures
            (final(self)@, r) == old(self)@.overlay_dir(parent, mount, fs_id, name@, id),
    {
        if let Some(v) = self.bootstrap_lookup_child(parent, name) {
            return Some(v);
        }
        let mode: u32 = bootstrap_dir_mode(name);
        match self.create_bootstrap_dir(parent, mount, fs_id, name, id, mode) {
            None => None,
            Some(v) => {
                if let Some(vn) = self.vnodes.get_mut(v) {
                    vn.id = bootstrap_dynamic_vnode_id(v, VnodeType::Dir);
                }
                self.cache_vnode_key(v);
                Some(v)
            },
        }
    }

    /// Makes the directories that the new root needs.
    pub fn prepare_post_pivot_scaffold(&mut self, new_root: Handle) -> (r: Option<Vec<Handle>>)
        ensures
            match r {
                Some(hs) => hs@.len() == 6 && old(self)@.pivot_targets(new_root) == (
                    final(self)@,
                    Some(hs@),
                ),
                None => old(self)@.pivot_targets(new_root) == (final(self)@, None::<Seq<Handle>>),
            },
    {
        let (root, fs_id): (Handle, FsInstanceId) = match self.mounts.get(new_root) {
            Some(mt) => (mt.root_vnode, mt.fs_instance_id),
            None => {
                return None;
            },
        };
        let names = post_pivot_list();
        let ghost start = self@;
        let mut out: Vec<Handle> = Vec::new();
        let mut i: usize = 0;
        while i < names.len()
            invariant
                i <= names@.len(),
                names@ == post_pivot_dirs(),
                names@.len() == 6,
                start.new_root_dirs(root, new_root, fs_id, i as int) == (self@, Some(out@)),
                out@.len() == i,
                old(self)@.pivot_targets(new_root) == start.new_root_dirs(
                    root,
                    new_root,
                    fs_id,
                    6,
                ),
            decreases names@.len() - i,
        {
            let ghost before = out@;
            match self.ensure_bootstrap_overlay_dir(
                root,
                new_root,
                fs_id,
                names[i].as_bytes(),
                0x100 + i as u64,
            ) {
                Some(v) => {
                    out.push(v);
                },
                None => {
                    proof {
                        start.lemma_stuck(root, new_root, fs_id, i + 1, 6);
                    }
                    return None;
                },
            }
            i = i + 1;
        }
        Some(out)
    }
}

impl VfsModel {
    /// Once a directory cannot be made, nothing more happens.
    proof fn lemma_stuck(self, root: Handle, mount: Handle, fs_id: FsInstanceId, k: int, n: int)
        requires
            0 <= k <= n,
            self.new_root_dirs(root, mount, fs_id, k).1 is None,
        ensures
            self.new_root_dirs(root, mount, fs_id, n) == self.new_root_dirs(root, mount, fs_id, k),
        decreases n,
    {
        if k < n {
            self.lemma_stuck(root, mount, fs_id, k, n - 1);
        }
    }

    /// Once a mount cannot be moved, nothing more happens.
    proof fn lemma_stopped(
        self,
        hs: Seq<Handle>,
        new_root: Handle,
        targets: Seq<Handle>,
        k: int,
        n: int,
    )
        requires
            0 <= k <= n,
            !self.moved_over(hs, new_root, targets, k).1,
        ensures
            self.moved_over(hs, new_root, targets, n) == self.moved_over(hs, new_root, targets, k),
        decreases n,
    {
        if k < n {
            self.lemma_stopped(hs, new_root, targets, k, n - 1);
        }
    }
}

impl VfsState {
    fn move_over(&mut self, hs: &Vec<Handle>, new_root: Handle, targets: &Vec<Handle>) -> (r: bool)
        requires
            targets@.len() == 6,
        ensures
            (final(self)@, r) == old(self)@.moved_over(
                hs@,
                new_root,
                targets@,
                hs@.len() as int,
            ),
    {
        let ghost start = self@;
        let mut i: usize = 0;
        while i < hs.len()
            invariant
                i <= hs@.len(),
                targets@.len() == 6,
                start == old(self)@,
                start.moved_over(hs@, new_root, targets@, i as int) == (self@, true),
            decreases hs@.len() - i,
        {
            let child: Handle = hs[i];
            let path: Vec<u8> = match self.mounts.get(child) {
                Some(mt) => vstd::slice::slice_to_vec(mt.mount_path.as_slice()),
                None => {
                    proof {
                        start.lemma_stopped(
                            hs@,
                            new_root,
                            targets@,
                            i + 1,
                            hs@.len() as int,
                        );
                    }
                    return false;
                },
            };
            let place: usize = match place_of(path.as_slice()) {
                Some(k) => k,
                None => 4,
            };
            if !self.attach_mount_at_vnode(child, new_root, targets[place], path.as_slice()) {
                proof {
                    start.lemma_stopped(hs@, new_root, targets@, i + 1, hs@.len() as int);
                }
                return false;
            }
            i = i + 1;
        }
        true
    }

    fn root_at(&mut self, mh: Handle) -> (r: bool)
        ensures
            (final(self)@, r) == old(self)@.rooted_at(mh),
    {
        self.root_mount = mh;
        match self.namespaces.get_mut(self.global_ns) {
            Some(ns) => {
                ns.root_mount = mh;
                if ns.mounts.len() != 0 {
                    ns.mounts.set(0, mh);
                }
                true
            },
            None => false,
        }
    }

    /// Makes the mount on `/newroot` the root of the namespace and moves the old root to
    /// `/initramfs` below it, with the pseudo filesystems at their places. `false` when
    /// there is no such mount or a part of this cannot be done.
    pub fn pivot_root_to_real_root(&mut self) -> (r: bool)
        ensures
            (final(self)@, r) == old(self)@.pivoted(),
    {
        let new_root: Handle = self.boot_dirs.real_root_mount;
        let old_root: Handle = self.root_mount;
        if !new_root.is_valid() || !old_root.is_valid() || new_root == old_root {
            return false;
        }
        let targets: Vec<Handle> = match self.prepare_post_pivot_scaffold(new_root) {
            Some(t) => t,
            None => {
                return false;
            },
        };
        let old_id: FsInstanceId = match self.mounts.get(old_root) {
            Some(mt) => mt.fs_instance_id,
            None => {
                return false;
            },
        };
        let was: Handle = match self.mounts.get(new_root) {
            Some(mt) => mt.covered.handle,
            None => {
                return false;
            },
        };
        let moving = self.mounts.collect(
            |mh: Handle, mt: &Mount| -> (b: bool) ensures b == (mh != old_root && mh != new_root && mt@.parent.id == old_id && moving_place(mt@.mount_path) is Some) { mh != old_root && mh != new_root && mt.parent.id == old_id && place_of(mt.mount_path.as_slice()).is_some() },
            MOVING_MOUNTS,
            Ghost(moves_over(old_root, new_root, old_id)),
        );
        assert(moving@ == self@.moving(old_root, new_root));
        if !self.move_over(&moving, new_root, &targets) {
            return false;
        }
        if !self.attach_mount_at_vnode(
            old_root,
            new_root,
            targets[5],
            "/initramfs".as_bytes(),
        ) {
            return false;
        }
        if was.is_valid() {
            self.clear_mount_covering_link(was);
        }
        if !self.root_at(new_root) {
            return false;
        }
        match self.mounts.get_mut(new_root) {
            Some(mt) => {
                mt.parent = MountRef::invalid();
                mt.covered = VnodeRef::invalid();
                mt.mount_path = vstd::slice::slice_to_vec("/".as_bytes());
            },
            None => {
                return false;
            },
        }
        self.boot_dirs.dev_dir = targets[0];
        self.boot_dirs.proc_dir = targets[1];
        self.boot_dirs.tmp_dir = targets[2];
        self.boot_dirs.sys_dir = targets[3];
        self.boot_dirs.pipe_dir = targets[4];
        self.boot_dirs.initramfs_dir = targets[5];
        self.boot_dirs.put_old_dir = targets[5];
        true
    }
}

/// After the changeover the real root is the root of the namespace, sits on nothing, and the
/// old root is found on `/initramfs` below it.
pub proof fn law_pivot_swaps_the_roots(m: VfsModel)
    requires
        m.pivoted().1,
    ensures
        m.pivoted().0.root_mount == m.boot_dirs.real_root_mount,
        m.pivoted().0.namespaces.at(m.pivoted().0.global_ns).root_mount
            == m.boot_dirs.real_root_mount,
        m.pivoted().0.mounts.at(m.boot_dirs.real_root_mount).covered == VnodeRef::invalid(),
        m.pivoted().0.mounts.at(m.boot_dirs.real_root_mount).mount_path == "/".spec_bytes(),
        m.pivoted().0.mounts.at(m.root_mount).parent.handle == m.boot_dirs.real_root_mount,
        m.pivoted().0.mounts.at(m.root_mount).mount_path == "/initramfs".spec_bytes(),
        m.pivoted().0.mounts.at(m.root_mount).covered.handle == m.pivoted().0.boot_dirs.put_old_dir,
{
}

} // verus!
