//! When vnodes, named pipes and their records go away.

use crate::arena::Handle;
use crate::files::{FifoState, PipeState, PipeView};
use crate::fs::tmpfs::tmpfs_reclaim_vnode;
use crate::state::{VfsModel, VfsState};
use crate::vnode::{Backend, Vnode};
use vstd::prelude::*;

verus! {

impl VfsModel {
    /// The named-pipe record of vnode `v`.
    pub open spec fn fifo_of(self, v: Handle) -> Option<Handle> {
        self.fifos.first(|h: Handle, f: FifoState| f.vnode == v)
    }

    /// The state with a named-pipe record for vnode `v`, if there is room for one.
    pub open spec fn with_fifo(self, v: Handle) -> VfsModel {
        if self.fifo_of(v) is Some {
            self
        } else {
            VfsModel {
                fifos: self.fifos.grown(
                    FifoState { vnode: v, pipe: Handle::invalid(), unlinked: false },
                ),
                ..self
            }
        }
    }

    /// The named-pipe record that vnode `v` has once one was asked for.
    pub open spec fn fifo_for(self, v: Handle) -> Option<Handle> {
        match self.fifo_of(v) {
            Some(h) => Some(h),
            None => self.fifos.next(),
        }
    }

    /// The state with the name of a named pipe marked as gone.
    pub open spec fn fifo_unlinked(self, v: Handle) -> VfsModel {
        match self.fifo_of(v) {
            Some(h) => VfsModel {
                fifos: self.fifos.put(h, FifoState { unlinked: true, ..self.fifos.at(h) }),
                ..self
            },
            None => self,
        }
    }

    /// Nobody can reach the named pipe of vnode `v` any more: no descriptor and no name.
    pub open spec fn fifo_unreachable(self, v: Handle, f: FifoState) -> bool {
        match self.vnodes.entry(v) {
            Some(vn) => vn.open_count == 0 && (vn.nlink == 0 || f.unlinked),
            None => true,
        }
    }

    /// The state without the named-pipe record and the pipe of vnode `v`, if nobody can
    /// reach them.
    pub open spec fn fifo_let_go(self, v: Handle) -> VfsModel {
        match self.fifo_of(v) {
            None => self,
            Some(h) => {
                let f = self.fifos.at(h);
                if self.fifo_unreachable(v, f) {
                    VfsModel {
                        pipes: if f.pipe.is_valid() {
                            self.pipes.dropped(f.pipe)
                        } else {
                            self.pipes
                        },
                        fifos: self.fifos.dropped(h),
                        ..self
                    }
                } else {
                    self
                }
            },
        }
    }

    /// The process-filesystem node of vnode `v`.
    pub open spec fn proc_node_of(self, v: Handle) -> Option<Handle> {
        match self.vnodes.entry(v) {
            None => None,
            Some(vn) => if self.proc_nodes.has(vn.backend_ref) && self.proc_nodes.at(
                vn.backend_ref,
            ).vnode == v {
                Some(vn.backend_ref)
            } else {
                None
            },
        }
    }

    /// Vnode `v` was made on demand and goes away when nobody has it open.
    pub open spec fn ephemeral(self, v: Handle) -> bool {
        match self.proc_node_of(v) {
            Some(h) => self.proc_nodes.at(h).ephemeral,
            None => false,
        }
    }

    /// The state without the process-filesystem node of vnode `v`.
    pub open spec fn proc_node_released(self, v: Handle) -> VfsModel {
        match self.proc_node_of(v) {
            Some(h) => VfsModel { proc_nodes: self.proc_nodes.dropped(h), ..self }.with_vnode(
                v,
                Vnode { backend_ref: Handle::invalid(), ..self.vnodes.at(v) },
            ).uncached(v),
            None => self.uncached(v),
        }
    }

    /// The system-variable leaf of vnode `v`.
    pub open spec fn sysctl_leaf_of(self, v: Handle) -> Option<Handle> {
        match self.vnodes.entry(v) {
            None => None,
            Some(vn) => if self.sysctl_leaves.has(vn.backend_ref) && self.sysctl_leaves.at(
                vn.backend_ref,
            ).vnode == v {
                Some(vn.backend_ref)
            } else {
                None
            },
        }
    }

    /// The state without the system-variable leaf of vnode `v`.
    pub open spec fn sysctl_leaf_released(self, v: Handle) -> VfsModel {
        match self.sysctl_leaf_of(v) {
            Some(h) => VfsModel { sysctl_leaves: self.sysctl_leaves.dropped(h), ..self }.with_vnode(
                v,
                Vnode { backend_ref: Handle::invalid(), ..self.vnodes.at(v) },
            ).uncached(v),
            None => self.uncached(v),
        }
    }

    /// Nothing keeps vnode `v`: it is live, not held in place, has no name (one made on
    /// demand needs none), no descriptor and no mount on it.
    pub open spec fn reclaimable(self, v: Handle) -> bool {
        &&& self.vnodes.has(v)
        &&& !self.vnodes.at(v).pinned
        &&& !self.vnodes.at(v).root
        &&& (self.ephemeral(v) || self.vnodes.at(v).nlink == 0)
        &&& self.vnodes.at(v).open_count == 0
        &&& !self.vnodes.at(v).covered_by.handle.is_valid()
    }

    /// The mount of vnode `v` has the in-memory filesystem's operations.
    pub open spec fn served_by_tmpfs(self, v: Handle) -> bool {
        match self.vnodes.entry(v) {
            Some(vn) => self.mounts.has(vn.mount.handle) && self.mounts.at(vn.mount.handle).vfsops
                == Some(Backend::Tmpfs),
            None => false,
        }
    }

    /// The state after the backends let go of vnode `v`.
    pub open spec fn backends_let_go(self, v: Handle) -> VfsModel {
        let s = self.fifo_let_go(v).proc_node_released(v).sysctl_leaf_released(v);
        if s.served_by_tmpfs(v) {
            s.tmp_reclaimed(v)
        } else {
            s
        }
    }

    /// The state after an attempt to reclaim vnode `v`: where nothing keeps it, it is gone
    /// with its records and its stored bytes.
    #[verifier::opaque]
    pub open spec fn reclaimed(self, v: Handle) -> VfsModel {
        if self.reclaimable(v) {
            let s = self.backends_let_go(v).uncached(v);
            VfsModel {
                vnodes: s.vnodes.dropped(v),
                blobs: s.blobs.dropped(self.vnodes.at(v).data),
                ..s
            }
        } else {
            self
        }
    }
}

impl VfsState {
    /// Finds the named-pipe record of a vnode.
    pub fn fifo_state_handle_for_vnode(&self, vnode: Handle) -> (r: Option<Handle>)
        ensures
            r == self@.fifo_of(vnode),
            r matches Some(h) ==> self@.fifos.has(h) && self@.fifos.at(h).vnode == vnode,
    {
        self.fifos.find(
            |h: Handle, f: &FifoState| -> (b: bool) ensures b == (f@.vnode == vnode) { f.vnode == vnode },
            Ghost(|h: Handle, f: FifoState| f.vnode == vnode),
        )
    }

    /// The named-pipe record of a vnode, made if there is none; `None` when there is no room.
    pub fn ensure_fifo_state_for_vnode(&mut self, vnode: Handle) -> (r: Option<Handle>)
        ensures
            r == old(self)@.fifo_for(vnode),
            final(self)@ == old(self)@.with_fifo(vnode),
            r matches Some(h) ==> final(self)@.fifos.has(h),
    {
        if let Some(h) = self.fifo_state_handle_for_vnode(vnode) {
            return Some(h);
        }
        self.fifos.reserve(FifoState { vnode, pipe: Handle::invalid(), unlinked: false })
    }

    /// Makes a pipe that nobody has open.
    pub fn alloc_pipe(&mut self) -> (r: Option<Handle>)
        ensures
            r == old(self)@.pipes.next(),
            final(self)@ == (VfsModel {
                pipes: old(self)@.pipes.grown(PipeView::fresh()),
                ..old(self)@
            }),
    {
        self.pipes.reserve(PipeState::new())
    }

    /// The pipe behind a named pipe, made on first use.
    pub fn ensure_fifo_pipe_for_vnode(&mut self, vnode: Handle) -> (r: Option<Handle>)
        ensures
            ({
                let s = old(self)@.with_fifo(vnode);
                match old(self)@.fifo_for(vnode) {
                    None => r is None && final(self)@ == s,
                    Some(h) => if s.fifos.at(h).pipe.is_valid() {
                        r == Some(s.fifos.at(h).pipe) && final(self)@ == s
                    } else {
                        match s.pipes.next() {
                            None => r is None && final(self)@ == s,
                            Some(p) => {
                                &&& r == Some(p)
                                &&& final(self)@ == (VfsModel {
                                    pipes: s.pipes.grown(PipeView::fresh()),
                                    fifos: s.fifos.put(h, FifoState { pipe: p, ..s.fifos.at(h) }),
                                    ..s
                                })
                            },
                        }
                    },
                }
            }),
    {
        let fifo_h = match self.ensure_fifo_state_for_vnode(vnode) {
            Some(h) => h,
            None => {
                return None;
            },
        };
        let pipe = match self.fifos.get(fifo_h) {
            Some(f) => f.pipe,
            None => {
                return None;
            },
        };
        if pipe.is_valid() {
            return Some(pipe);
        }
        let made = match self.alloc_pipe() {
            Some(p) => p,
            None => {
                assert(self@ =~= old(self)@.with_fifo(vnode));
                return None;
            },
        };
        if let Some(f) = self.fifos.get_mut(fifo_h) {
            f.pipe = made;
        }
        Some(made)
    }

    /// Marks the name of a named pipe as gone.
    pub fn mark_fifo_unlinked(&mut self, vnode: Handle)
        ensures
            final(self)@ == old(self)@.fifo_unlinked(vnode),
    {
        if let Some(h) = self.fifo_state_handle_for_vnode(vnode) {
            if let Some(f) = self.fifos.get_mut(h) {
                f.unlinked = true;
            }
        }
    }

    /// Drops the named-pipe record and the pipe of a vnode once nobody can reach them.
    pub fn release_fifo_state_if_unused(&mut self, vnode: Handle)
        ensures
            final(self)@ == old(self)@.fifo_let_go(vnode),
    {
        let h = match self.fifo_state_handle_for_vnode(vnode) {
            Some(h) => h,
            None => {
                return;
            },
        };
        let (pipe, unlinked) = match self.fifos.get(h) {
            Some(f) => (f.pipe, f.unlinked),
            None => {
                return;
            },
        };
        let can_drop: bool = match self.vnodes.get(vnode) {
            Some(vn) => vn.open_count == 0 && (vn.nlink == 0 || unlinked),
            None => true,
        };
        if !can_drop {
            return;
        }
        if pipe.is_valid() {
            let _ = self.pipes.release(pipe);
        }
        let _ = self.fifos.release(h);
    }

    /// Finds the process-filesystem node of a vnode.
    pub fn find_proc_node(&self, vnode: Handle) -> (r: Option<Handle>)
        ensures
            r == self@.proc_node_of(vnode),
            r matches Some(h) ==> self@.proc_nodes.has(h),
    {
        let h = match self.vnodes.get(vnode) {
            Some(vn) => vn.backend_ref,
            None => {
                return None;
            },
        };
        match self.proc_nodes.get(h) {
            Some(n) => if n.vnode == vnode {
                Some(h)
            } else {
                None
            },
            None => None,
        }
    }

    /// Whether a vnode was made on demand.
    pub fn node_is_ephemeral(&self, vnode: Handle) -> (r: bool)
        ensures
            r == self@.ephemeral(vnode),
    {
        match self.find_proc_node(vnode) {
            Some(h) => match self.proc_nodes.get(h) {
                Some(n) => n.ephemeral,
                None => false,
            },
            None => false,
        }
    }

    /// Drops the process-filesystem node of a vnode.
    pub fn release_proc_node_for_vnode(&mut self, vnode: Handle)
        ensures
            final(self)@ == old(self)@.proc_node_released(vnode),
    {
        if let Some(h) = self.find_proc_node(vnode) {
            let _ = self.proc_nodes.release(h);
            if let Some(vn) = self.vnodes.get_mut(vnode) {
                vn.backend_ref = Handle::invalid();
            }
        }
        self.uncache_vnode_key(vnode);
    }

    /// Finds the system-variable leaf of a vnode.
    pub fn find_leaf_handle_by_vnode(&self, vnode: Handle) -> (r: Option<Handle>)
        ensures
            r == self@.sysctl_leaf_of(vnode),
            r matches Some(h) ==> self@.sysctl_leaves.has(h),
    {
        let h = match self.vnodes.get(vnode) {
            Some(vn) => vn.backend_ref,
            None => {
                return None;
            },
        };
        match self.sysctl_leaves.get(h) {
            Some(l) => if l.vnode == vnode {
                Some(h)
            } else {
                None
            },
            None => None,
        }
    }

    /// Drops the system-variable leaf of a vnode.
    pub fn release_leaf_for_vnode(&mut self, vnode: Handle)
        ensures
            final(self)@ == old(self)@.sysctl_leaf_released(vnode),
    {
        if let Some(h) = self.find_leaf_handle_by_vnode(vnode) {
            let _ = self.sysctl_leaves.release(h);
            if let Some(vn) = self.vnodes.get_mut(vnode) {
                vn.backend_ref = Handle::invalid();
            }
        }
        self.uncache_vnode_key(vnode);
    }

    /// Drops a vnode with its records and its stored bytes, where nothing keeps it.
    pub fn reclaim_bootstrap_vnode(&mut self, vnode: Handle)
        ensures
            final(self)@ == old(self)@.reclaimed(vnode),
    {
        reveal(VfsModel::reclaimed);
        let ephemeral: bool = self.node_is_ephemeral(vnode);
        let vn: Vnode = match self.vnodes.get(vnode) {
            Some(vn) => *vn,
            None => {
                return;
            },
        };
        if vn.pinned || vn.root || (!ephemeral && vn.nlink != 0) || vn.open_count != 0
            || vn.covered_by.handle.is_valid() {
            return;
        }
        self.release_fifo_state_if_unused(vnode);
        self.release_proc_node_for_vnode(vnode);
        self.release_leaf_for_vnode(vnode);
        let tmpfs: bool = match self.vnodes.get(vnode) {
            Some(vn) => match self.mounts.get(vn.mount.handle) {
                Some(mt) => match mt.vfsops {
                    Some(b) => b == Backend::Tmpfs,
                    None => false,
                },
                None => false,
            },
            None => false,
        };
        if tmpfs {
            tmpfs_reclaim_vnode(self, vnode);
        }
        self.uncache_vnode_key(vnode);
        let _ = self.vnodes.release(vnode);
        let _ = self.blobs.release(vn.data);
    }
}

impl VfsModel {
    /// Reclaiming a vnode leaves the sockets, the clients, the open files and the mounts.
    pub proof fn lemma_reclaim_frame(self, v: Handle)
        ensures
            self.reclaimed(v).unix_sockets == self.unix_sockets,
            self.reclaimed(v).clients == self.clients,
            self.reclaimed(v).open_files == self.open_files,
            self.reclaimed(v).mounts == self.mounts,
            self.reclaimed(v).services == self.services,
    {
        reveal(VfsModel::reclaimed);
        law_reclaim_is_safe(self, v, Handle { slot: v.slot, epoch: v.epoch.wrapping_add(1) });
        let a = self.fifo_let_go(v);
        let b = a.proc_node_released(v);
        let c = b.sysctl_leaf_released(v);
        let d = self.backends_let_go(v);
        assert(a.unix_sockets == self.unix_sockets && a.services == self.services);
        assert(b.unix_sockets == self.unix_sockets && b.services == self.services);
        assert(c.unix_sockets == self.unix_sockets && c.services == self.services);
        assert(d.unix_sockets == self.unix_sockets && d.services == self.services);
    }
}

/// Reclaiming touches nothing while a name, a descriptor, a pin or a mount keeps the
/// vnode; otherwise the handle is retired and no other vnode is lost.
pub proof fn law_reclaim_is_safe(m: VfsModel, v: Handle, o: Handle)
    requires
        o != v,
    ensures
        !m.reclaimable(v) ==> m.reclaimed(v) == m,
        m.reclaimable(v) ==> !m.reclaimed(v).vnodes.has(v),
        m.reclaimed(v).vnodes.entry(o) == m.vnodes.entry(o),
        m.reclaimed(v).mounts == m.mounts,
        m.reclaimed(v).open_files == m.open_files,
        m.reclaimed(v).clients == m.clients,
{
    reveal(VfsModel::reclaimed);
    if m.reclaimable(v) {
        let a = m.fifo_let_go(v);
        let b = a.proc_node_released(v);
        let c = b.sysctl_leaf_released(v);
        let d = m.backends_let_go(v);
        assert(a.vnodes.entry(o) == m.vnodes.entry(o));
        assert(b.vnodes.entry(o) == m.vnodes.entry(o));
        assert(c.vnodes.entry(o) == m.vnodes.entry(o));
        assert(d.vnodes.entry(o) == m.vnodes.entry(o));
        assert(d.vnodes.has(v));
    }
}

} // verus!
