//! Letting go of open files. The last descriptor of a local socket takes the open files
//! along that travel in the socket's queues, so one release may set off many.

use crate::arena::Handle;
use crate::files::{
    dgram_views, Dgram, DgramView, ObjKind, OpenFile, PipeView, ShmState, SockType, SockView,
    UnixSocketState, DEV_PTMX, DEV_PTY_SLAVE, O_ACCMODE, O_RDONLY, O_WRONLY,
};
use crate::fs::tmpfs_dir::{one_less, one_more};
use crate::state::{Effect, VfsModel, VfsState};
use crate::vnode::Vnode;
use vstd::prelude::*;

verus! {

/// Something that is to be let go of.
#[derive(Clone, Copy, PartialEq, Eq, Structural, Debug)]
pub enum Release {
    /// One hold on an open file.
    File(Handle),
    /// A socket's hold on the vnode that names it or its peer.
    Name(Handle),
    /// A connected socket that nobody accepted.
    Accepted(Handle),
    /// A socket learns that its peer is gone.
    PeerClosed(Handle),
    /// A socket learns that the socket it may be connected to is gone.
    PeerGone { socket: Handle, peer: Handle },
    /// Whoever waits for the socket is told.
    WaitersOf(Handle),
}

/// The valid handles among `hs`, each a hold on an open file.
pub open spec fn file_releases(hs: Seq<Handle>) -> Seq<Release>
    decreases hs.len(),
{
    if hs.len() == 0 {
        Seq::empty()
    } else {
        let rest = file_releases(hs.drop_last());
        if hs.last().is_valid() {
            rest.push(Release::File(hs.last()))
        } else {
            rest
        }
    }
}

/// The valid handles among `hs`, each a socket that nobody accepted.
pub open spec fn accept_releases(hs: Seq<Handle>) -> Seq<Release>
    decreases hs.len(),
{
    if hs.len() == 0 {
        Seq::empty()
    } else {
        let rest = accept_releases(hs.drop_last());
        if hs.last().is_valid() {
            rest.push(Release::Accepted(hs.last()))
        } else {
            rest
        }
    }
}

/// A hold on a naming vnode, if there is one.
pub open spec fn name_release(v: Handle) -> Seq<Release> {
    if v.is_valid() {
        seq![Release::Name(v)]
    } else {
        Seq::empty()
    }
}

/// What queued datagrams hold, in order: the sender's name and the open files.
pub open spec fn dgram_releases(ds: Seq<DgramView>) -> Seq<Release>
    decreases ds.len(),
{
    if ds.len() == 0 {
        Seq::empty()
    } else {
        dgram_releases(ds.drop_last()) + name_release(ds.last().src_vnode) + file_releases(
            ds.last().rights,
        )
    }
}

/// The names that a socket holds: its own and, where it differs, its peer's.
pub open spec fn socket_names(s: SockView) -> Seq<Release> {
    name_release(s.bound_vnode) + (if s.peer_name_vnode != s.bound_vnode {
        name_release(s.peer_name_vnode)
    } else {
        Seq::empty()
    })
}

/// What a socket that is destroyed lets go of, in order.
pub open spec fn socket_releases(h: Handle, s: SockView) -> Seq<Release> {
    file_releases(s.rights) + dgram_releases(s.dgrams) + accept_releases(s.accepts) + socket_names(
        s,
    ) + (if s.peer.is_valid() {
        seq![Release::PeerGone { socket: h, peer: s.peer }]
    } else {
        Seq::empty()
    }) + seq![Release::WaitersOf(h)]
}

/// What a socket that nobody accepted lets go of, in order.
pub open spec fn accepted_releases(s: SockView) -> Seq<Release> {
    file_releases(s.rights) + socket_names(s) + (if s.peer.is_valid() {
        seq![Release::PeerClosed(s.peer)]
    } else {
        Seq::empty()
    })
}

impl VfsModel {
    /// The state with one descriptor less on vnode `v`.
    pub open spec fn vnode_closed(self, v: Handle) -> VfsModel {
        match self.vnodes.entry(v) {
            Some(vn) => self.with_vnode(v, Vnode { open_count: one_less(vn.open_count), ..vn }),
            None => self,
        }
    }

    /// The state with one descriptor more on vnode `v`.
    pub open spec fn vnode_opened(self, v: Handle) -> VfsModel {
        match self.vnodes.entry(v) {
            Some(vn) => self.with_vnode(v, Vnode { open_count: one_more(vn.open_count), ..vn }),
            None => self,
        }
    }

    /// The state with one end of a pipe closed. A pipe without ends goes.
    pub open spec fn pipe_closed(self, pipe: Handle, flags: u32) -> VfsModel {
        match self.pipes.entry(pipe) {
            None => self,
            Some(p) => {
                let left = PipeView {
                    read_refs: if flags & O_ACCMODE != O_WRONLY {
                        one_less(p.read_refs)
                    } else {
                        p.read_refs
                    },
                    write_refs: if flags & O_ACCMODE != O_RDONLY {
                        one_less(p.write_refs)
                    } else {
                        p.write_refs
                    },
                    ..p
                };
                VfsModel {
                    pipes: if left.read_refs == 0 && left.write_refs == 0 {
                        self.pipes.put(pipe, left).dropped(pipe)
                    } else {
                        self.pipes.put(pipe, left)
                    },
                    ..self
                }
            },
        }
    }

    /// The state with one descriptor less on a shared-memory object. One without
    /// descriptors and without a name is destroyed.
    pub open spec fn shm_closed(self, shm: Handle, v: Handle) -> VfsModel {
        match self.shms.entry(shm) {
            None => self,
            Some(sh) => {
                let left = ShmState { open_refs: one_less(sh.open_refs), ..sh };
                let s = VfsModel { shms: self.shms.put(shm, left), ..self }.vnode_closed(v);
                if left.open_refs == 0 && left.unlinked {
                    VfsModel { shms: s.shms.dropped(shm), ..s }.telling(
                        Effect::ShmDestroy { id: sh.id },
                    ).reclaimed(v)
                } else {
                    s
                }
            },
        }
    }

    /// The state after a hold on naming vnode `v` was given up.
    pub open spec fn name_let_go(self, v: Handle) -> VfsModel {
        self.vnode_closed(v).reclaimed(v)
    }

    /// The state after the last hold on an open file `f` that is no local socket went.
    pub open spec fn object_closed(self, f: OpenFile) -> VfsModel {
        match f.kind {
            ObjKind::Pipe => {
                let s = self.pipe_closed(f.pipe, f.status_flags);
                if f.vnode.is_valid() {
                    s.vnode_closed(f.vnode).fifo_let_go(f.vnode)
                } else {
                    s
                }
            },
            ObjKind::Shm => self.shm_closed(f.shm, f.vnode),
            ObjKind::Epoll => VfsModel { epolls: self.epolls.dropped(f.epoll), ..self },
            ObjKind::Socket => if f.socket_conn_id != 0 && self.services.netsrv_ep != 0 {
                self.telling(Effect::CancelInetWaiters { conn_id: f.socket_conn_id }).telling(
                    Effect::NetClose { conn_id: f.socket_conn_id },
                )
            } else {
                self
            },
            ObjKind::Device => {
                let s = if (f.device_dev_type == DEV_PTMX || f.device_dev_type == DEV_PTY_SLAVE)
                    && self.services.ttysrv_ep != 0 {
                    self.telling(
                        Effect::PtyClose {
                            pty_id: f.device_pty_id,
                            master: f.device_dev_type == DEV_PTMX,
                        },
                    )
                } else {
                    self
                };
                s.name_let_go(f.vnode)
            },
            ObjKind::File => self.name_let_go(f.vnode),
            ObjKind::Directory => self.name_let_go(f.vnode),
        }
    }

    /// One step of letting go: the state after it, and what is to be let go of next.
    pub open spec fn release_step(self, t: Release) -> (VfsModel, Seq<Release>) {
        match t {
            Release::File(h) => match self.open_files.entry(h) {
                None => (self, Seq::empty()),
                Some(f) => if one_less(f.refcount) != 0 {
                    (
                        VfsModel {
                            open_files: self.open_files.put(
                                h,
                                OpenFile { refcount: one_less(f.refcount), ..f },
                            ),
                            ..self
                        },
                        Seq::empty(),
                    )
                } else {
                    let s = VfsModel { open_files: self.open_files.dropped(h), ..self };
                    if f.kind == ObjKind::Socket && f.unix_socket.is_valid() {
                        match self.unix_sockets.entry(f.unix_socket) {
                            None => (s, Seq::empty()),
                            Some(sk) => if one_less(sk.refcount) != 0 {
                                (
                                    VfsModel {
                                        unix_sockets: s.unix_sockets.put(
                                            f.unix_socket,
                                            SockView { refcount: one_less(sk.refcount), ..sk },
                                        ),
                                        ..s
                                    },
                                    Seq::empty(),
                                )
                            } else {
                                (
                                    VfsModel {
                                        unix_sockets: s.unix_sockets.dropped(f.unix_socket),
                                        ..s
                                    },
                                    socket_releases(f.unix_socket, sk),
                                )
                            },
                        }
                    } else {
                        (s.object_closed(f), Seq::empty())
                    }
                },
            },
            Release::Name(v) => (self.name_let_go(v), Seq::empty()),
            Release::Accepted(h) => match self.unix_sockets.entry(h) {
                None => (self, Seq::empty()),
                Some(sk) => (
                    VfsModel { unix_sockets: self.unix_sockets.dropped(h), ..self },
                    accepted_releases(sk),
                ),
            },
            Release::PeerClosed(p) => match self.unix_sockets.entry(p) {
                None => (self, Seq::empty()),
                Some(sk) => (
                    VfsModel {
                        unix_sockets: self.unix_sockets.put(
                            p,
                            SockView { peer_closed: true, ..sk },
                        ),
                        ..self
                    },
                    Seq::empty(),
                ),
            },
            Release::PeerGone { socket, peer } => match self.unix_sockets.entry(peer) {
                None => (self, Seq::empty()),
                Some(sk) => if sk.socket_type != SockType::Dgram {
                    (
                        VfsModel {
                            unix_sockets: self.unix_sockets.put(
                                peer,
                                SockView { peer_closed: true, ..sk },
                            ),
                            ..self
                        },
                        Seq::empty(),
                    )
                } else if sk.peer == socket {
                    (
                        VfsModel {
                            unix_sockets: self.unix_sockets.put(
                                peer,
                                SockView {
                                    peer: Handle::invalid(),
                                    peer_name_vnode: Handle::invalid(),
                                    peer_name_path: Seq::empty(),
                                    peer_name_abstract: Seq::empty(),
                                    ..sk
                                },
                            ),
                            ..self
                        },
                        Seq::empty(),
                    )
                } else {
                    (self, Seq::empty())
                },
            },
            Release::WaitersOf(s) => (
                self.telling(Effect::CancelSocketWaiters { socket: s }).telling(
                    Effect::DriveSocketWaiters,
                ),
                Seq::empty(),
            ),
        }
    }

    /// The state after everything in `work` was let go of, in order, and all that this set
    /// off.
    pub open spec fn settled(self, work: Seq<Release>) -> VfsModel
        decreases self.unix_sockets.count(), work.len(),
        when self.unix_sockets.wf()
    {
        if work.len() == 0 {
            self
        } else {
            proof {
                self.lemma_release_step(work.first());
            }
            let (s, more) = self.release_step(work.first());
            s.settled(more + work.drop_first())
        }
    }

    /// The state after one hold on open file `h` was given up.
    pub open spec fn file_released(self, h: Handle) -> VfsModel {
        self.settled(seq![Release::File(h)])
    }

    /// Closing an object that is no local socket leaves the sockets, the clients, the open
    /// files and the mounts.
    pub proof fn lemma_close_frame(self, f: OpenFile)
        ensures
            self.object_closed(f).unix_sockets == self.unix_sockets,
            self.object_closed(f).clients == self.clients,
            self.object_closed(f).open_files == self.open_files,
            self.object_closed(f).mounts == self.mounts,
    {
        let v = f.vnode;
        match f.kind {
            ObjKind::Pipe => {
                let s = self.pipe_closed(f.pipe, f.status_flags);
                let t = s.vnode_closed(v);
                let u = t.fifo_let_go(v);
                assert(t.unix_sockets == self.unix_sockets && t.clients == self.clients
                    && t.open_files == self.open_files && t.mounts == self.mounts);
                assert(u.unix_sockets == self.unix_sockets && u.clients == self.clients
                    && u.open_files == self.open_files && u.mounts == self.mounts);
            },
            ObjKind::Shm => {
                if self.shms.has(f.shm) {
                    let sh = self.shms.at(f.shm);
                    let left = ShmState { open_refs: one_less(sh.open_refs), ..sh };
                    let s = VfsModel { shms: self.shms.put(f.shm, left), ..self }.vnode_closed(v);
                    let t = VfsModel { shms: s.shms.dropped(f.shm), ..s }.telling(
                        Effect::ShmDestroy { id: sh.id },
                    );
                    t.lemma_reclaim_frame(v);
                }
            },
            ObjKind::Device => {
                let t = self.telling(
                    Effect::PtyClose {
                        pty_id: f.device_pty_id,
                        master: f.device_dev_type == DEV_PTMX,
                    },
                );
                self.vnode_closed(v).lemma_reclaim_frame(v);
                t.vnode_closed(v).lemma_reclaim_frame(v);
            },
            ObjKind::File => {
                self.vnode_closed(v).lemma_reclaim_frame(v);
            },
            ObjKind::Directory => {
                self.vnode_closed(v).lemma_reclaim_frame(v);
            },
            _ => {},
        }
    }

    /// A step either sets nothing off and keeps the number of sockets, or takes one socket
    /// away.
    pub proof fn lemma_release_step(self, t: Release)
        requires
            self.unix_sockets.wf(),
        ensures
            self.release_step(t).0.unix_sockets.wf(),
            self.release_step(t).1.len() == 0 ==> self.release_step(t).0.unix_sockets.count()
                <= self.unix_sockets.count(),
            self.release_step(t).1.len() != 0 ==> self.release_step(t).0.unix_sockets.count()
                < self.unix_sockets.count(),
            self.release_step(t).0.clients == self.clients,
            self.release_step(t).0.mounts == self.mounts,
    {
        let n = self.unix_sockets.epochs.len() as int;
        assert forall|h: Handle, v: SockView| self.unix_sockets.put(h, v).wf() && #[trigger]
            self.unix_sockets.put(h, v).count() == self.unix_sockets.count() by {
            self.unix_sockets.lemma_count(h, v, n);
        }
        assert forall|h: Handle| self.unix_sockets.has(h) implies self.unix_sockets.dropped(h).wf()
            && #[trigger] self.unix_sockets.dropped(h).count() < self.unix_sockets.count() by {
            self.unix_sockets.lemma_count(h, self.unix_sockets.at(h), n);
        }
        match t {
            Release::File(h) => {
                if self.open_files.has(h) {
                    let f = self.open_files.at(h);
                    let s = VfsModel { open_files: self.open_files.dropped(h), ..self };
                    if !(f.kind == ObjKind::Socket && f.unix_socket.is_valid()) {
                        s.lemma_close_frame(f);
                    }
                }
            },
            Release::Name(v) => {
                self.vnode_closed(v).lemma_reclaim_frame(v);
            },
            _ => {},
        }
    }
}

impl VfsModel {
    /// Letting go leaves the clients and the mounts.
    pub proof fn lemma_settled_frame(self, work: Seq<Release>)
        requires
            self.unix_sockets.wf(),
        ensures
            self.settled(work).clients == self.clients,
            self.settled(work).mounts == self.mounts,
            self.settled(work).unix_sockets.wf(),
        decreases self.unix_sockets.count(), work.len(),
    {
        if work.len() > 0 {
            let (s, more) = self.release_step(work.first());
            self.lemma_release_step(work.first());
            s.lemma_settled_frame(more + work.drop_first());
        }
    }
}

/// A stack of things to let go of, read from the top.
pub open spec fn from_top(stack: Seq<Release>) -> Seq<Release> {
    stack.reverse()
}

/// Appends a hold on an open file for every valid handle.
fn push_files(out: &mut Vec<Release>, hs: &Vec<Handle>)
    ensures
        final(out)@ == old(out)@ + file_releases(hs@),
{
    let ghost start = out@;
    let mut i: usize = 0;
    assert(hs@.take(0) =~= Seq::<Handle>::empty());
    assert(out@ =~= start + file_releases(hs@.take(0)));
    while i < hs.len()
        invariant
            i <= hs@.len(),
            out@ == start + file_releases(hs@.take(i as int)),
        decreases hs@.len() - i,
    {
        assert(hs@.take(i + 1).drop_last() =~= hs@.take(i as int));
        if hs[i].is_valid() {
            out.push(Release::File(hs[i]));
        }
        i = i + 1;
        assert(out@ =~= start + file_releases(hs@.take(i as int)));
    }
    assert(hs@.take(i as int) =~= hs@);
}

/// Appends an unaccepted socket for every valid handle.
fn push_accepts(out: &mut Vec<Release>, hs: &Vec<Handle>)
    ensures
        final(out)@ == old(out)@ + accept_releases(hs@),
{
    let ghost start = out@;
    let mut i: usize = 0;
    assert(hs@.take(0) =~= Seq::<Handle>::empty());
    assert(out@ =~= start + accept_releases(hs@.take(0)));
    while i < hs.len()
        invariant
            i <= hs@.len(),
            out@ == start + accept_releases(hs@.take(i as int)),
        decreases hs@.len() - i,
    {
        assert(hs@.take(i + 1).drop_last() =~= hs@.take(i as int));
        if hs[i].is_valid() {
            out.push(Release::Accepted(hs[i]));
        }
        i = i + 1;
        assert(out@ =~= start + accept_releases(hs@.take(i as int)));
    }
    assert(hs@.take(i as int) =~= hs@);
}

/// Appends a hold on a naming vnode, if there is one.
fn push_name(out: &mut Vec<Release>, v: Handle)
    ensures
        final(out)@ == old(out)@ + name_release(v),
{
    if v.is_valid() {
        out.push(Release::Name(v));
    }
    assert(out@ =~= old(out)@ + name_release(v));
}

/// Appends what queued datagrams hold.
fn push_dgrams(out: &mut Vec<Release>, ds: &Vec<Dgram>)
    ensures
        final(out)@ == old(out)@ + dgram_releases(dgram_views(ds@)),
{
    let ghost start = out@;
    let ghost all = dgram_views(ds@);
    let mut i: usize = 0;
    assert(all.take(0) =~= Seq::<DgramView>::empty());
    assert(out@ =~= start + dgram_releases(all.take(0)));
    while i < ds.len()
        invariant
            i <= ds@.len(),
            all == dgram_views(ds@),
            out@ == start + dgram_releases(all.take(i as int)),
        decreases ds@.len() - i,
    {
        assert(all.take(i + 1).drop_last() =~= all.take(i as int));
        assert(all.take(i + 1).last() == ds@[i as int]@);
        push_name(out, ds[i].src_vnode);
        push_files(out, &ds[i].rights);
        i = i + 1;
        assert(out@ =~= start + dgram_releases(all.take(i as int)));
    }
    assert(all.take(i as int) =~= all);
}

/// Appends the names that a socket holds.
fn push_names(out: &mut Vec<Release>, s: &UnixSocketState)
    ensures
        final(out)@ == old(out)@ + socket_names(s@),
{
    push_name(out, s.bound_vnode);
    if s.peer_name_vnode != s.bound_vnode {
        push_name(out, s.peer_name_vnode);
    }
    assert(out@ =~= old(out)@ + socket_names(s@));
}

/// What a socket that is destroyed lets go of, in order.
fn releases_of_socket(h: Handle, s: &UnixSocketState) -> (r: Vec<Release>)
    ensures
        r@ == socket_releases(h, s@),
{
    let mut out: Vec<Release> = Vec::new();
    push_files(&mut out, &s.rights);
    push_dgrams(&mut out, &s.dgrams);
    push_accepts(&mut out, &s.accepts);
    push_names(&mut out, s);
    if s.peer.is_valid() {
        out.push(Release::PeerGone { socket: h, peer: s.peer });
    }
    out.push(Release::WaitersOf(h));
    assert(out@ =~= socket_releases(h, s@));
    out
}

/// What a socket that nobody accepted lets go of, in order.
fn releases_of_accepted(s: &UnixSocketState) -> (r: Vec<Release>)
    ensures
        r@ == accepted_releases(s@),
{
    let mut out: Vec<Release> = Vec::new();
    push_files(&mut out, &s.rights);
    push_names(&mut out, s);
    if s.peer.is_valid() {
        out.push(Release::PeerClosed(s.peer));
    }
    assert(out@ =~= accepted_releases(s@));
    out
}

/// Puts `more` on top of the stack, its first element uppermost.
fn push_all(stack: &mut Vec<Release>, more: &Vec<Release>)
    ensures
        from_top(final(stack)@) == more@ + from_top(old(stack)@),
        final(stack)@.len() == old(stack)@.len() + more@.len(),
{
    let ghost start = stack@;
    let mut i: usize = more.len();
    assert(from_top(stack@) =~= more@.skip(i as int) + from_top(start));
    while i > 0
        invariant
            i <= more@.len(),
            from_top(stack@) == more@.skip(i as int) + from_top(start),
            stack@.len() == start.len() + more@.len() - i,
        decreases i,
    {
        i = i - 1;
        let ghost before = stack@;
        stack.push(more[i]);
        assert(from_top(stack@) =~= seq![more@[i as int]] + from_top(before));
        assert(more@.skip(i as int) =~= seq![more@[i as int]] + more@.skip(i + 1));
        assert(from_top(stack@) =~= more@.skip(i as int) + from_top(start));
    }
    assert(more@.skip(0) =~= more@);
}

impl VfsState {
    /// Records something that others must be told.
    pub fn tell(&mut self, e: Effect)
        ensures
            final(self)@ == old(self)@.telling(e),
    {
        self.outbox.push(e);
    }

    /// One descriptor less on a vnode.
    pub fn close_vnode(&mut self, vnode: Handle)
        ensures
            final(self)@ == old(self)@.vnode_closed(vnode),
    {
        if let Some(vn) = self.vnodes.get_mut(vnode) {
            vn.open_count = vn.open_count.saturating_sub(1);
        }
    }

    /// A hold on a vnode that names a socket; `false` when there is no such vnode.
    pub fn retain_socket_name_vnode(&mut self, vnode: Handle) -> (r: bool)
        ensures
            r == old(self)@.vnodes.has(vnode),
            final(self)@ == old(self)@.vnode_opened(vnode),
    {
        match self.vnodes.get_mut(vnode) {
            Some(vn) => {
                vn.open_count = vn.open_count.saturating_add(1);
                true
            },
            None => false,
        }
    }

    /// Gives up a hold on a vnode that names a socket.
    pub fn release_socket_name_vnode(&mut self, vnode: Handle)
        ensures
            final(self)@ == old(self)@.name_let_go(vnode),
    {
        self.close_vnode(vnode);
        self.reclaim_bootstrap_vnode(vnode);
    }

    /// Closes one end of a pipe.
    fn close_pipe_end(&mut self, pipe: Handle, flags: u32)
        ensures
            final(self)@ == old(self)@.pipe_closed(pipe, flags),
    {
        let access: u32 = flags & O_ACCMODE;
        let mut unused: bool = false;
        if let Some(p) = self.pipes.get_mut(pipe) {
            if access != O_WRONLY {
                p.read_refs = p.read_refs.saturating_sub(1);
            }
            if access != O_RDONLY {
                p.write_refs = p.write_refs.saturating_sub(1);
            }
            unused = p.read_refs == 0 && p.write_refs == 0;
        }
        if unused {
            let _ = self.pipes.release(pipe);
        }
    }

    /// Closes one descriptor of a shared-memory object.
    fn close_shm(&mut self, shm: Handle, vnode: Handle)
        ensures
            final(self)@ == old(self)@.shm_closed(shm, vnode),
    {
        let mut unused: bool = false;
        let mut id: u64 = 0;
        match self.shms.get_mut(shm) {
            Some(sh) => {
                sh.open_refs = sh.open_refs.saturating_sub(1);
                unused = sh.open_refs == 0 && sh.unlinked;
                id = sh.id;
            },
            None => {
                return;
            },
        }
        self.close_vnode(vnode);
        if unused {
            let _ = self.shms.release(shm);
            self.tell(Effect::ShmDestroy { id });
            self.reclaim_bootstrap_vnode(vnode);
        }
    }

    /// Closes the object behind an open file that is no local socket.
    fn close_object(&mut self, f: OpenFile)
        ensures
            final(self)@ == old(self)@.object_closed(f),
    {
        match f.kind {
            ObjKind::Pipe => {
                self.close_pipe_end(f.pipe, f.status_flags);
                if f.vnode.is_valid() {
                    self.close_vnode(f.vnode);
                    self.release_fifo_state_if_unused(f.vnode);
                }
            },
            ObjKind::Shm => {
                self.close_shm(f.shm, f.vnode);
            },
            ObjKind::Epoll => {
                let _ = self.epolls.release(f.epoll);
            },
            ObjKind::Socket => {
                if f.socket_conn_id != 0 && self.services.netsrv_ep != 0 {
                    self.tell(Effect::CancelInetWaiters { conn_id: f.socket_conn_id });
                    self.tell(Effect::NetClose { conn_id: f.socket_conn_id });
                }
            },
            ObjKind::Device => {
                if (f.device_dev_type == DEV_PTMX || f.device_dev_type == DEV_PTY_SLAVE)
                    && self.services.ttysrv_ep != 0 {
                    self.tell(
                        Effect::PtyClose {
                            pty_id: f.device_pty_id,
                            master: f.device_dev_type == DEV_PTMX,
                        },
                    );
                }
                self.release_socket_name_vnode(f.vnode);
            },
            ObjKind::File => {
                self.release_socket_name_vnode(f.vnode);
            },
            ObjKind::Directory => {
                self.release_socket_name_vnode(f.vnode);
            },
        }
    }

    /// Gives up one hold on open file `h`; what that sets off is returned.
    fn drop_hold(&mut self, h: Handle) -> (r: Vec<Release>)
        ensures
            (final(self)@, r@) == old(self)@.release_step(Release::File(h)),
    {
        let ghost before = self@;
        let f: OpenFile = match self.open_files.get_mut(h) {
            Some(f) => {
                f.refcount = f.refcount.saturating_sub(1);
                *f
            },
            None => {
                return Vec::new();
            },
        };
        if f.refcount != 0 {
            return Vec::new();
        }
        let _ = self.open_files.release(h);
        let ghost s = VfsModel { open_files: before.open_files.dropped(h), ..before };
        assert(self@.open_files =~= s.open_files);
        if f.kind == ObjKind::Socket && f.unix_socket.is_valid() {
            let mut last: bool = false;
            if let Some(sk) = self.unix_sockets.get_mut(f.unix_socket) {
                sk.refcount = sk.refcount.saturating_sub(1);
                last = sk.refcount == 0;
            }
            if !last {
                return Vec::new();
            }
            match self.unix_sockets.take(f.unix_socket) {
                Some(sk) => {
                    let r = releases_of_socket(f.unix_socket, &sk);
                    assert(self@.unix_sockets =~= s.unix_sockets.dropped(f.unix_socket));
                    r
                },
                None => Vec::new(),
            }
        } else {
            assert(self@ == s);
            self.close_object(f);
            Vec::new()
        }
    }

    /// One step of letting go.
    fn release_one(&mut self, t: Release) -> (r: Vec<Release>)
        ensures
            (final(self)@, r@) == old(self)@.release_step(t),
    {
        match t {
            Release::File(h) => self.drop_hold(h),
            Release::Name(v) => {
                self.release_socket_name_vnode(v);
                Vec::new()
            },
            Release::Accepted(h) => match self.unix_sockets.take(h) {
                Some(sk) => releases_of_accepted(&sk),
                None => Vec::new(),
            },
            Release::PeerClosed(p) => {
                if let Some(sk) = self.unix_sockets.get_mut(p) {
                    sk.peer_closed = true;
                }
                Vec::new()
            },
            Release::PeerGone { socket, peer } => {
                if let Some(sk) = self.unix_sockets.get_mut(peer) {
                    if sk.socket_type != SockType::Dgram {
                        sk.peer_closed = true;
                    } else if sk.peer == socket {
                        sk.peer = Handle::invalid();
                        sk.peer_name_vnode = Handle::invalid();
                        sk.peer_name_path = Vec::new();
                        sk.peer_name_abstract = Vec::new();
                    }
                }
                Vec::new()
            },
            Release::WaitersOf(s) => {
                self.tell(Effect::CancelSocketWaiters { socket: s });
                self.tell(Effect::DriveSocketWaiters);
                Vec::new()
            },
        }
    }

    /// Gives up one hold on an open file. The last hold closes what the file refers to; a
    /// local socket that goes lets go of all that its queues hold.
    pub fn release_open_file(&mut self, handle: Handle)
        ensures
            final(self)@ == old(self)@.file_released(handle),
    {
        let mut stack: Vec<Release> = Vec::new();
        stack.push(Release::File(handle));
        proof {
            self.unix_sockets.lemma_wf();
            assert(from_top(stack@) =~= seq![Release::File(handle)]);
        }
        while stack.len() > 0
            invariant
                self@.unix_sockets.wf(),
                self@.settled(from_top(stack@)) == old(self)@.file_released(handle),
            decreases self@.unix_sockets.count(), stack@.len(),
        {
            let ghost before = self@;
            let ghost work = from_top(stack@);
            match stack.pop() {
                Some(t) => {
                    proof {
                        assert(work.first() == t);
                        assert(from_top(stack@) =~= work.drop_first());
                        before.lemma_release_step(t);
                    }
                    let more = self.release_one(t);
                    push_all(&mut stack, &more);
                },
                None => {},
            }
        }
        assert(from_top(stack@) =~= Seq::<Release>::empty());
    }
}

} // verus!
