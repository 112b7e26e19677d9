//! The path of a vnode, on whichever filesystem it lies.

use crate::arena::Handle;
use crate::bootstrap::extended;
use crate::bytes::{push_bytes, SLASH};
use crate::files::PathAnchor;
use crate::fs::saltyfs::find_node_handle_by_vnode;
use crate::fs::tmpfs_file;
use crate::identity::VnodeKey;
use crate::mount::{Mount, MountView};
use crate::namei_state::BOOTSTRAP_PATH_MAX;
use crate::state::{VfsModel, VfsState, INITIAL_MOUNT_CAP};
use crate::vnode::{Backend, Vnode};
use vstd::prelude::*;
use vstd::slice::slice_to_vec;

verus! {

/// Most directories between a node of the disk and the root of its mount.
pub const SALTYFS_CHAIN_MAX: usize = 64;

/// Which mounts have `v` as their root.
pub open spec fn rooted_in(v: Handle) -> spec_fn(Handle, MountView) -> bool {
    |h: Handle, mt: MountView| mt.root_vnode == v
}

/// The path `p` with `names` behind it; nothing when a name is empty or it grows longer than
/// `cap`.
pub open spec fn with_names(p: Seq<u8>, names: Seq<Seq<u8>>, cap: int) -> Option<Seq<u8>>
    decreases names.len(),
{
    if names.len() == 0 {
        Some(p)
    } else {
        match with_names(p, names.drop_last(), cap) {
            None => None,
            Some(q) => if names.last().len() == 0 || extended(q, names.last()).len() > cap {
                None
            } else {
                Some(extended(q, names.last()))
            },
        }
    }
}

impl VfsModel {
    /// The mount that node `h` of the disk lies on and the names down to it, at most `n`.
    pub open spec fn disk_trail(self, h: Handle, n: nat) -> Option<(Handle, Seq<Seq<u8>>)>
        decreases n,
    {
        match self.saltyfs_nodes.entry(h) {
            None => None,
            Some(nd) => if nd.is_root {
                Some((nd.owner_mount, Seq::empty()))
            } else if n == 0 || !nd.parent_node.is_valid() {
                None
            } else {
                match self.disk_trail(nd.parent_node, (n - 1) as nat) {
                    None => None,
                    Some((mh, names)) => Some((mh, names.push(nd.name))),
                }
            },
        }
    }

    /// The vnode that mount `mt` sits on.
    pub open spec fn covered_vnode(self, mt: MountView) -> Option<Handle> {
        if mt.covered.handle.is_valid() {
            Some(mt.covered.handle)
        } else if mt.covered.id != VnodeKey::invalid() {
            self.vnode_of_key(mt.covered.id)
        } else {
            None
        }
    }

    /// The path of the place that mount `mh` of the disk filesystem sits on, through at most
    /// `n` mounts.
    pub open spec fn mount_prefix(self, mh: Handle, n: nat) -> Option<Seq<u8>>
        decreases n, 0int,
    {
        match self.mounts.entry(mh) {
            None => None,
            Some(mt) => match self.covered_vnode(mt) {
                Some(c) => match self.anchor_of(c) {
                    None => None,
                    Some(a) => if n == 0 || !a.is_valid() {
                        None
                    } else {
                        match self.vnode_of_key(a.vnode) {
                            None => None,
                            Some(v) => self.path_of(v, (n - 1) as nat),
                        }
                    },
                },
                None => if mt.mount_path.len() != 0 && mt.mount_path.len() <= BOOTSTRAP_PATH_MAX {
                    Some(mt.mount_path)
                } else {
                    None
                },
            },
        }
    }

    /// The path of vnode `v` of the disk filesystem, through at most `n` mounts.
    pub open spec fn disk_path(self, v: Handle, n: nat) -> Option<Seq<u8>>
        decreases n, 1int,
    {
        match self.salty_node(v) {
            None => None,
            Some(h) => match self.disk_trail(h, SALTYFS_CHAIN_MAX as nat) {
                None => None,
                Some((mh, names)) => match self.mount_prefix(mh, n) {
                    None => None,
                    Some(p) => with_names(p, names, BOOTSTRAP_PATH_MAX as int),
                },
            },
        }
    }

    /// The path of vnode `v` as the filesystem that serves it says.
    pub open spec fn served_path(self, v: Handle, n: nat) -> Option<Seq<u8>>
        decreases n, 2int,
    {
        match self.vnodes.entry(v) {
            None => None,
            Some(vn) => match vn.ops {
                Some(Backend::Tmpfs) => self.tmp_path(v, BOOTSTRAP_PATH_MAX as int),
                Some(Backend::Saltyfs) => self.disk_path(v, n),
                _ => None,
            },
        }
    }

    /// The path of vnode `v`: its place in the bootstrap tree, or the place that a mount
    /// with this root sits on, or what the filesystem that serves it says.
    pub open spec fn path_of(self, v: Handle, n: nat) -> Option<Seq<u8>>
        decreases n, 3int,
    {
        match self.boot_path(v) {
            Some(p) => Some(p),
            None => match self.mounts.first(rooted_in(v)) {
                None => self.served_path(v, n),
                Some(mh) => {
                    let mt = self.mounts.at(mh);
                    match self.covered_vnode(mt) {
                        Some(c) => self.boot_path(c),
                        None => if mt.covered.id == VnodeKey::invalid() && mt.mount_path.len() != 0
                            && mt.mount_path.len() <= BOOTSTRAP_PATH_MAX {
                            Some(mt.mount_path)
                        } else {
                            self.served_path(v, n)
                        },
                    }
                },
            },
        }
    }
}

/// `r` is the path `want`, and no longer than a path can be.
pub open spec fn is_path(r: Option<Vec<u8>>, want: Option<Seq<u8>>) -> bool {
    match r {
        Some(p) => want == Some(p@) && p@.len() <= BOOTSTRAP_PATH_MAX,
        None => want is None,
    }
}

impl VfsState {
    /// The vnode with identity `key`; the index stays as it is.
    pub fn peek_vnode_by_key(&self, key: VnodeKey) -> (r: Option<Handle>)
        ensures
            r == self@.vnode_of_key(key),
    {
        if let Some(v) = self.index.lookup(key) {
            if let Some(vn) = self.vnodes.get(v) {
                if vn.vnode_key() == key {
                    return Some(v);
                }
            }
        }
        self.vnodes.find(
            |h: Handle, vn: &Vnode| -> (b: bool) ensures b == (vn@.vnode_key() == key) { vn.vnode_key() == key },
            Ghost(|h: Handle, vn: Vnode| vn.vnode_key() == key),
        )
    }

    fn covered_vnode_of(&self, mt: &Mount) -> (r: Option<Handle>)
        ensures
            r == self@.covered_vnode(mt@),
    {
        if mt.covered.handle.is_valid() {
            Some(mt.covered.handle)
        } else if mt.covered.id != VnodeKey::invalid() {
            self.peek_vnode_by_key(mt.covered.id)
        } else {
            None
        }
    }

    fn trail_on_disk(&self, h: Handle, n: usize) -> (r: Option<(Handle, Vec<Vec<u8>>)>)
        ensures
            match r {
                Some((mh, names)) => self@.disk_trail(h, n as nat) == Some(
                    (mh, names@.map_values(|s: Vec<u8>| s@)),
                ),
                None => self@.disk_trail(h, n as nat) is None,
            },
        decreases n,
    {
        let nd = match self.saltyfs_nodes.get(h) {
            Some(nd) => nd,
            None => {
                return None;
            },
        };
        if nd.is_root {
            let names: Vec<Vec<u8>> = Vec::new();
            assert(names@.map_values(|s: Vec<u8>| s@) =~= Seq::<Seq<u8>>::empty());
            return Some((nd.owner_mount, names));
        }
        if n == 0 || !nd.parent_node.is_valid() {
            return None;
        }
        match self.trail_on_disk(nd.parent_node, n - 1) {
            None => None,
            Some((mh, names)) => {
                let mut all: Vec<Vec<u8>> = names;
                let ghost before = all@;
                all.push(slice_to_vec(nd.name.as_slice()));
                assert(all@.map_values(|s: Vec<u8>| s@) =~= before.map_values(
                    |s: Vec<u8>| s@,
                ).push(nd.name@));
                Some((mh, all))
            },
        }
    }

    /// The path of the place that a mount of the disk filesystem sits on.
    pub fn render_mount_prefix_path(&self, mount: Handle, n: usize) -> (r: Option<Vec<u8>>)
        ensures
            is_path(r, self@.mount_prefix(mount, n as nat)),
        decreases n, 0int,
    {
        let mt = match self.mounts.get(mount) {
            Some(mt) => mt,
            None => {
                return None;
            },
        };
        match self.covered_vnode_of(mt) {
            Some(c) => {
                let a: PathAnchor = match self.anchor_for_vnode(c) {
                    Some(a) => a,
                    None => {
                        return None;
                    },
                };
                if n == 0 || !a.is_valid() {
                    return None;
                }
                match self.peek_vnode_by_key(a.vnode) {
                    Some(v) => self.path_for_vnode_within(v, n - 1),
                    None => None,
                }
            },
            None => if mt.mount_path.len() != 0 && mt.mount_path.len() <= BOOTSTRAP_PATH_MAX {
                Some(slice_to_vec(mt.mount_path.as_slice()))
            } else {
                None
            },
        }
    }

    /// The path of a vnode of the disk filesystem.
    pub fn build_disk_path(&self, vnode: Handle, n: usize) -> (r: Option<Vec<u8>>)
        ensures
            is_path(r, self@.disk_path(vnode, n as nat)),
        decreases n, 1int,
    {
        let h: Handle = match find_node_handle_by_vnode(self, vnode) {
            Some(h) => h,
            None => {
                return None;
            },
        };
        let (mh, names): (Handle, Vec<Vec<u8>>) = match self.trail_on_disk(h, SALTYFS_CHAIN_MAX) {
            Some(t) => t,
            None => {
                return None;
            },
        };
        let mut p: Vec<u8> = match self.render_mount_prefix_path(mh, n) {
            Some(p) => p,
            None => {
                return None;
            },
        };
        let ghost top = p@;
        let ghost all = names@.map_values(|s: Vec<u8>| s@);
        let mut i: usize = 0;
        assert(all.take(0) =~= Seq::<Seq<u8>>::empty());
        while i < names.len()
            invariant
                i <= names@.len(),
                all == names@.map_values(|s: Vec<u8>| s@),
                p@.len() <= BOOTSTRAP_PATH_MAX,
                with_names(top, all.take(i as int), BOOTSTRAP_PATH_MAX as int) == Some(p@),
                self@.disk_path(vnode, n as nat) == with_names(
                    top,
                    all,
                    BOOTSTRAP_PATH_MAX as int,
                ),
            decreases names@.len() - i,
        {
            let ghost up = p@;
            proof {
                assert(all.take(i + 1).drop_last() =~= all.take(i as int));
                assert(all.take(i + 1).last() == names@[i as int]@);
            }
            let len: usize = names[i].len();
            if len == 0 || len > BOOTSTRAP_PATH_MAX {
                proof {
                    lemma_no_names(top, all, i + 1, BOOTSTRAP_PATH_MAX as int);
                }
                return None;
            }
            if p.len() > 1 {
                p.push(SLASH);
            }
            push_bytes(&mut p, names[i].as_slice());
            assert(p@ =~= extended(up, names@[i as int]@));
            if p.len() > BOOTSTRAP_PATH_MAX {
                proof {
                    lemma_no_names(top, all, i + 1, BOOTSTRAP_PATH_MAX as int);
                }
                return None;
            }
            i += 1;
        }
        assert(all.take(i as int) =~= all);
        Some(p)
    }

    fn build_served_path(&self, vnode: Handle, n: usize) -> (r: Option<Vec<u8>>)
        ensures
            is_path(r, self@.served_path(vnode, n as nat)),
        decreases n, 2int,
    {
        let ops: Option<Backend> = match self.vnodes.get(vnode) {
            Some(vn) => vn.ops,
            None => {
                return None;
            },
        };
        match ops {
            Some(Backend::Tmpfs) => tmpfs_file::build_path_for_vnode(
                self,
                vnode,
                BOOTSTRAP_PATH_MAX,
            ),
            Some(Backend::Saltyfs) => self.build_disk_path(vnode, n),
            _ => None,
        }
    }

    fn path_for_vnode_within(&self, vnode: Handle, n: usize) -> (r: Option<Vec<u8>>)
        ensures
            is_path(r, self@.path_of(vnode, n as nat)),
        decreases n, 3int,
    {
        if let Some(p) = self.bootstrap_build_absolute_path(vnode) {
            return Some(p);
        }
        let found = self.mounts.find(
            |h: Handle, mt: &Mount| -> (b: bool) ensures b == (mt@.root_vnode == vnode) { mt.root_vnode == vnode },
            Ghost(rooted_in(vnode)),
        );
        let mt = match found {
            Some(mh) => match self.mounts.get(mh) {
                Some(mt) => mt,
                None => {
                    return None;
                },
            },
            None => {
                return self.build_served_path(vnode, n);
            },
        };
        match self.covered_vnode_of(mt) {
            Some(c) => self.bootstrap_build_absolute_path(c),
            None => if mt.covered.id == VnodeKey::invalid() && mt.mount_path.len() != 0
                && mt.mount_path.len() <= BOOTSTRAP_PATH_MAX {
                Some(slice_to_vec(mt.mount_path.as_slice()))
            } else {
                self.build_served_path(vnode, n)
            },
        }
    }

    /// The path of a vnode; nothing when it has none or the path is longer than `cap`.
    /// Mounts lie within one another no deeper than there are mounts.
    pub fn bootstrap_path_for_vnode(&self, vnode: Handle, cap: usize) -> (r: Option<Vec<u8>>)
        ensures
            match self@.path_of(vnode, INITIAL_MOUNT_CAP as nat) {
                Some(p) => if p.len() <= cap {
                    r matches Some(x) && x@ == p
                } else {
                    r is None
                },
                None => r is None,
            },
    {
        match self.path_for_vnode_within(vnode, INITIAL_MOUNT_CAP as usize) {
            Some(p) => if p.len() <= cap {
                Some(p)
            } else {
                None
            },
            None => None,
        }
    }

    /// The path of a place.
    pub fn render_anchor_path(&self, anchor: PathAnchor, cap: usize) -> (r: Option<Vec<u8>>)
        ensures
            match (if anchor.is_valid() {
                self@.vnode_of_key(anchor.vnode)
            } else {
                None
            }) {
                Some(v) => match self@.path_of(v, INITIAL_MOUNT_CAP as nat) {
                    Some(p) => if p.len() <= cap {
                        r matches Some(x) && x@ == p
                    } else {
                        r is None
                    },
                    None => r is None,
                },
                None => r is None,
            },
    {
        if !anchor.is_valid() {
            return None;
        }
        match self.peek_vnode_by_key(anchor.vnode) {
            Some(v) => self.bootstrap_path_for_vnode(v, cap),
            None => None,
        }
    }
}

proof fn lemma_no_names(p: Seq<u8>, names: Seq<Seq<u8>>, k: int, cap: int)
    requires
        0 <= k <= names.len(),
        with_names(p, names.take(k), cap) is None,
    ensures
        with_names(p, names, cap) is None,
    decreases names.len() - k,
{
    if k == names.len() {
        assert(names.take(k) =~= names);
    } else {
        assert(names.take(k + 1).drop_last() =~= names.take(k));
        lemma_no_names(p, names, k + 1, cap);
    }
}

} // verus!
