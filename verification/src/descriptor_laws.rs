//! What opening, sharing and closing descriptors does, told from the tables alone.

use crate::arena::{Handle, Table};
use crate::clients::law_lowest_descriptor_first;
use crate::files::{
    free_fd, DgramView, EpollState, ObjKind, OpenFile, OpenSlot, PipeView, ShmState, SockType, SockView,
    DEV_PTMX, DEV_PTY_SLAVE, FD_CLOEXEC, MAX_CLIENT_OBJECTS, O_ACCMODE, O_RDONLY, O_WRONLY,
};
use crate::fs::tmpfs_dir::one_less;
use crate::lifecycle::law_reclaim_is_safe;
use crate::release::{accept_releases, dgram_releases, file_releases, name_release, Release};
use crate::state::{Effect, VfsModel};
use crate::vnode::Vnode;
use vstd::prelude::*;

verus! {

/// `b` counts one more than `a`, unless `a` is the largest count.
pub open spec fn counts_up(a: u32, b: u32) -> bool {
    b == a + 1 || (a == u32::MAX && b == a)
}

/// `b` counts one less than `a`, unless `a` is zero.
pub open spec fn counts_down(a: u32, b: u32) -> bool {
    b == a - 1 || (a == 0 && b == 0)
}

/// Apart from `h`, both tables have the same entries.
pub open spec fn others_stay<V>(a: Table<V>, b: Table<V>, h: Handle) -> bool {
    &&& forall|o: Handle| o != h ==> (#[trigger] a.live.contains_key(o) <==> b.live.contains_key(o))
    &&& forall|o: Handle| o != h && #[trigger] a.live.contains_key(o) ==> a.live[o] == b.live[o]
}

/// Descriptor `fd` of client `c` is the lowest that was free and now leads to the open file
/// `of`; no other descriptor changed.
pub open spec fn descriptor_given(
    m: VfsModel,
    s: VfsModel,
    c: Handle,
    fd: usize,
    of: Handle,
    fd_flags: u32,
) -> bool {
    &&& m.clients.has(c)
    &&& s.clients.has(c)
    &&& fd < m.clients.at(c).slots.len()
    &&& !m.clients.at(c).slots[fd as int].active
    &&& forall|k: int| 0 <= k < fd ==> (#[trigger] m.clients.at(c).slots[k]).active
    &&& s.clients.at(c).slots.len() == m.clients.at(c).slots.len()
    &&& s.clients.at(c).slots[fd as int].active
    &&& s.clients.at(c).slots[fd as int].fd_flags == fd_flags
    &&& s.clients.at(c).slots[fd as int].open_file == of
    &&& forall|k: int|
        0 <= k < m.clients.at(c).slots.len() && k != fd ==> #[trigger] s.clients.at(c).slots[k]
            == m.clients.at(c).slots[k]
    &&& s.clients.at(c).badge == m.clients.at(c).badge
    &&& s.clients.at(c).personality == m.clients.at(c).personality
    &&& s.clients.at(c).mount_ns == m.clients.at(c).mount_ns
    &&& s.clients.at(c).cwd_anchor == m.clients.at(c).cwd_anchor
    &&& others_stay(m.clients, s.clients, c)
}

/// `of` is a new open file that is `f`, held once.
pub open spec fn file_held_once(m: VfsModel, s: VfsModel, of: Handle, f: OpenFile) -> bool {
    &&& !m.open_files.has(of)
    &&& s.open_files.has(of)
    &&& s.open_files.at(of).refcount == 1
    &&& s.open_files.at(of).kind == f.kind
    &&& s.open_files.at(of).vnode == f.vnode
    &&& s.open_files.at(of).pipe == f.pipe
    &&& s.open_files.at(of).shm == f.shm
    &&& s.open_files.at(of).epoll == f.epoll
    &&& s.open_files.at(of).unix_socket == f.unix_socket
    &&& s.open_files.at(of).socket_conn_id == f.socket_conn_id
    &&& s.open_files.at(of).status_flags == f.status_flags
    &&& s.open_files.at(of).device_dev_type == f.device_dev_type
    &&& s.open_files.at(of).device_pty_id == f.device_pty_id
    &&& s.open_files.at(of).device_generation == f.device_generation
    &&& s.open_files.at(of).offset == f.offset
    &&& s.open_files.at(of).dir_cursor_state == f.dir_cursor_state
    &&& s.open_files.at(of).dir_cursor == f.dir_cursor
    &&& others_stay(m.open_files, s.open_files, of)
}

/// Vnode `v` is open once more and is otherwise as it was, as every other vnode is.
pub open spec fn opened_once_more(m: VfsModel, s: VfsModel, v: Handle) -> bool {
    &&& others_stay(m.vnodes, s.vnodes, v)
    &&& m.vnodes.has(v) <==> s.vnodes.has(v)
    &&& m.vnodes.has(v) ==> counts_up(m.vnodes.at(v).open_count, s.vnodes.at(v).open_count)
        && s.vnodes.at(v) == (Vnode {
        open_count: s.vnodes.at(v).open_count,
        ..m.vnodes.at(v)
    })
}

/// Vnode `v` is open once less and is otherwise as it was, as every other vnode is.
pub open spec fn open_once_less(m: VfsModel, s: VfsModel, v: Handle) -> bool {
    &&& others_stay(m.vnodes, s.vnodes, v)
    &&& m.vnodes.has(v) <==> s.vnodes.has(v)
    &&& m.vnodes.has(v) ==> counts_down(m.vnodes.at(v).open_count, s.vnodes.at(v).open_count)
        && s.vnodes.at(v) == (Vnode {
        open_count: s.vnodes.at(v).open_count,
        ..m.vnodes.at(v)
    })
}

proof fn lemma_new_entry<V>(t: Table<V>, x: V, y: V)
    requires
        t.wf(),
        t.next() is Some,
    ensures
        !t.has(t.next()->0),
        t.next()->0.is_valid(),
        t.grown(x).has(t.next()->0),
        t.grown(x).at(t.next()->0) == x,
        others_stay(t, t.grown(x), t.next()->0),
        others_stay(t, t.grown(x).put(t.next()->0, y), t.next()->0),
{
    t.lemma_vacant(0);
}

/// What is opened on a descriptor lies behind the lowest one that was free, as a new open
/// file that is held once; the vnode is open once more, and so is the pipe, the memory or
/// the socket: a pipe for reading unless it was opened for writing only, for writing unless
/// for reading only.
pub proof fn law_opened_file_lies_behind_its_descriptor(
    m: VfsModel,
    c: Handle,
    f: OpenFile,
    fd_flags: u32,
)
    requires
        m.open_files.wf(),
        m.clients.has(c) ==> m.clients.at(c).slots.len() <= MAX_CLIENT_OBJECTS,
    ensures
        m.opened_on_fd(c, f, fd_flags) matches (s, Some(fd)) ==> {
            let of = s.clients.at(c).slots[fd as int].open_file;
            &&& descriptor_given(m, s, c, fd, of, fd_flags)
            &&& file_held_once(m, s, of, f)
            &&& opened_once_more(m, s, f.vnode)
            &&& f.kind == ObjKind::Pipe ==> m.pipes.has(f.pipe) && s.pipes.has(f.pipe)
                && others_stay(m.pipes, s.pipes, f.pipe) && s.pipes.at(f.pipe) == (PipeView {
                read_refs: s.pipes.at(f.pipe).read_refs,
                write_refs: s.pipes.at(f.pipe).write_refs,
                ..m.pipes.at(f.pipe)
            }) && (if f.status_flags & O_ACCMODE == O_WRONLY {
                s.pipes.at(f.pipe).read_refs == m.pipes.at(f.pipe).read_refs
            } else {
                counts_up(m.pipes.at(f.pipe).read_refs, s.pipes.at(f.pipe).read_refs)
            }) && (if f.status_flags & O_ACCMODE == O_RDONLY {
                s.pipes.at(f.pipe).write_refs == m.pipes.at(f.pipe).write_refs
            } else {
                counts_up(m.pipes.at(f.pipe).write_refs, s.pipes.at(f.pipe).write_refs)
            })
            &&& f.kind != ObjKind::Pipe ==> s.pipes == m.pipes
            &&& f.kind == ObjKind::Shm ==> m.shms.has(f.shm) && s.shms.has(f.shm) && others_stay(
                m.shms,
                s.shms,
                f.shm,
            ) && counts_up(m.shms.at(f.shm).open_refs, s.shms.at(f.shm).open_refs) && s.shms.at(
                f.shm,
            ) == (ShmState { open_refs: s.shms.at(f.shm).open_refs, ..m.shms.at(f.shm) })
            &&& f.kind != ObjKind::Shm ==> s.shms == m.shms
            &&& f.kind == ObjKind::Socket && m.unix_sockets.has(f.unix_socket) ==> {
                let (a, b) = (m.unix_sockets.at(f.unix_socket), s.unix_sockets.at(f.unix_socket));
                &&& counts_up(a.refcount, b.refcount)
                &&& b == (SockView { refcount: b.refcount, ..a })
                &&& others_stay(m.unix_sockets, s.unix_sockets, f.unix_socket)
            }
            &&& f.kind != ObjKind::Socket ==> s.unix_sockets == m.unix_sockets
            &&& s.epolls == m.epolls
            &&& s.fifos == m.fifos
            &&& s.outbox == m.outbox
            &&& s.mounts == m.mounts
        },
{
    if m.clients.has(c) {
        law_lowest_descriptor_first(m.clients.at(c).slots, 0);
    }
    if m.open_files.next() is Some {
        lemma_new_entry(m.open_files, f, OpenFile { refcount: 1, ..f });
    }
}

/// Opening on a descriptor fails for want of a free descriptor, of room for the open file or
/// of the pipe, memory or socket it is to lead to, and for nothing else; no descriptor has
/// changed then.
pub proof fn law_opening_is_owed(m: VfsModel, c: Handle, f: OpenFile, fd_flags: u32)
    requires
        m.clients.has(c) ==> m.clients.at(c).slots.len() <= MAX_CLIENT_OBJECTS,
    ensures
        m.opened_on_fd(c, f, fd_flags).1 is None <==> {
            ||| !m.clients.has(c)
            ||| forall|k: int|
                0 <= k < m.clients.at(c).slots.len() ==> (#[trigger] m.clients.at(
                    c,
                ).slots[k]).active
            ||| m.open_files.next() is None
            ||| f.kind == ObjKind::Pipe && !m.pipes.has(f.pipe)
            ||| f.kind == ObjKind::Shm && !m.shms.has(f.shm)
            ||| f.kind == ObjKind::Socket && f.unix_socket.is_valid() && !m.unix_sockets.has(
                f.unix_socket,
            )
        },
        m.opened_on_fd(c, f, fd_flags).1 is None ==> m.opened_on_fd(c, f, fd_flags).0.clients
            == m.clients,
        m.bare_on_fd(c, f, fd_flags).1 is None <==> {
            ||| !m.clients.has(c)
            ||| forall|k: int|
                0 <= k < m.clients.at(c).slots.len() ==> (#[trigger] m.clients.at(
                    c,
                ).slots[k]).active
            ||| m.open_files.next() is None
        },
        m.bare_on_fd(c, f, fd_flags).1 is None ==> m.bare_on_fd(c, f, fd_flags).0 == m,
{
    if m.clients.has(c) {
        law_lowest_descriptor_first(m.clients.at(c).slots, 0);
        if let Some(fd) = free_fd(m.clients.at(c).slots, 0) {
            assert(!m.clients.at(c).slots[fd as int].active);
        }
    }
}

/// What a vnode stands for is opened on the lowest free descriptor as a new open file that
/// is held once; the vnode is open once more and nothing else counts it.
pub proof fn law_opened_vnode_lies_behind_its_descriptor(
    m: VfsModel,
    c: Handle,
    f: OpenFile,
    fd_flags: u32,
)
    requires
        m.open_files.wf(),
        m.clients.has(c) ==> m.clients.at(c).slots.len() <= MAX_CLIENT_OBJECTS,
    ensures
        m.bare_on_fd(c, f, fd_flags) matches (s, Some(fd)) ==> {
            let of = s.clients.at(c).slots[fd as int].open_file;
            &&& descriptor_given(m, s, c, fd, of, fd_flags)
            &&& file_held_once(m, s, of, f)
            &&& opened_once_more(m, s, f.vnode)
            &&& s.pipes == m.pipes
            &&& s.shms == m.shms
            &&& s.unix_sockets == m.unix_sockets
            &&& s.epolls == m.epolls
        },
{
    if m.clients.has(c) {
        law_lowest_descriptor_first(m.clients.at(c).slots, 0);
    }
    if m.open_files.next() is Some {
        lemma_new_entry(m.open_files, f, OpenFile { refcount: 1, ..f });
    }
}

/// An event-poll object that is made lies behind the lowest free descriptor and is active;
/// where it cannot be opened none stays behind.
pub proof fn law_made_event_poll_is_open(m: VfsModel, c: Handle, h: Handle)
    requires
        m.open_files.wf(),
        m.epolls.wf(),
        m.clients.has(c) ==> m.clients.at(c).slots.len() <= MAX_CLIENT_OBJECTS,
    ensures
        match m.epoll_on_fd(c) {
            (s, Some(fd)) => {
                let of = s.clients.at(c).slots[fd as int].open_file;
                let e = s.open_files.at(of).epoll;
                &&& descriptor_given(m, s, c, fd, of, 0)
                &&& s.open_files.at(of).kind == ObjKind::Epoll
                &&& s.open_files.at(of).refcount == 1
                &&& !m.open_files.has(of)
                &&& !m.epolls.has(e)
                &&& s.epolls.has(e)
                &&& s.epolls.at(e).active
                &&& others_stay(m.epolls, s.epolls, e)
            },
            (s, None) => {
                &&& s.clients == m.clients
                &&& s.open_files == m.open_files
                &&& s.epolls.has(h) <==> m.epolls.has(h)
                &&& {
                    ||| !m.clients.has(c)
                    ||| forall|k: int|
                        0 <= k < m.clients.at(c).slots.len() ==> (#[trigger] m.clients.at(
                            c,
                        ).slots[k]).active
                    ||| m.open_files.next() is None
                    ||| m.epolls.next() is None
                }
            },
        },
{
    if let Some(e) = m.epolls.next() {
        lemma_new_entry(m.epolls, EpollState { active: true }, EpollState { active: true });
        let s = VfsModel { epolls: m.epolls.grown(EpollState { active: true }), ..m };
        let f = OpenFile { epoll: e, kind: ObjKind::Epoll, ..OpenFile::zeroed() };
        law_opened_file_lies_behind_its_descriptor(s, c, f, 0);
        law_opening_is_owed(s, c, f, 0);
    }
    if m.clients.has(c) {
        law_lowest_descriptor_first(m.clients.at(c).slots, 0);
    }
}

proof fn lemma_one_release(m: VfsModel, h: Handle)
    requires
        m.unix_sockets.wf(),
        m.open_files.has(h),
        m.open_files.at(h).refcount > 1 || !(m.open_files.at(h).kind == ObjKind::Socket
            && m.open_files.at(h).unix_socket.is_valid()) || !m.unix_sockets.has(
            m.open_files.at(h).unix_socket,
        ) || m.unix_sockets.at(m.open_files.at(h).unix_socket).refcount > 1,
    ensures
        m.file_released(h) == m.release_step(Release::File(h)).0,
{
    let work = seq![Release::File(h)];
    let (s, more) = m.release_step(Release::File(h));
    m.lemma_release_step(Release::File(h));
    assert(more =~= Seq::<Release>::empty());
    assert(more + work.drop_first() =~= Seq::<Release>::empty());
    assert(m.settled(work) == s.settled(more + work.drop_first()));
}

/// While others hold an open file, giving up one hold takes one off its count and changes
/// nothing else.
pub proof fn law_held_file_stays(m: VfsModel, h: Handle)
    requires
        m.unix_sockets.wf(),
        m.open_files.has(h),
        m.open_files.at(h).refcount > 1,
    ensures
        ({
            let s = m.file_released(h);
            &&& s.open_files.has(h)
            &&& s.open_files.at(h).refcount == m.open_files.at(h).refcount - 1
            &&& s.open_files.at(h) == (OpenFile {
                refcount: s.open_files.at(h).refcount,
                ..m.open_files.at(h)
            })
            &&& others_stay(m.open_files, s.open_files, h)
            &&& s == VfsModel { open_files: s.open_files, ..m }
        }),
{
    lemma_one_release(m, h);
}

/// The last hold takes an open file away. The pipe behind it loses an end of each kind that
/// the file had, and goes with its last end.
pub proof fn law_last_hold_closes_a_pipe_end(m: VfsModel, h: Handle)
    requires
        m.unix_sockets.wf(),
        m.open_files.has(h),
        m.open_files.at(h).refcount <= 1,
        m.open_files.at(h).kind == ObjKind::Pipe,
        !m.open_files.at(h).vnode.is_valid(),
    ensures
        ({
            let s = m.file_released(h);
            let f = m.open_files.at(h);
            let (p, q) = (m.pipes.at(f.pipe), s.pipes.at(f.pipe));
            let reads = f.status_flags & O_ACCMODE != O_WRONLY;
            let writes = f.status_flags & O_ACCMODE != O_RDONLY;
            let r: int = p.read_refs - if reads {
                1int
            } else {
                0
            };
            let w: int = p.write_refs - if writes {
                1int
            } else {
                0
            };
            &&& !s.open_files.has(h)
            &&& others_stay(m.open_files, s.open_files, h)
            &&& others_stay(m.pipes, s.pipes, f.pipe)
            &&& m.pipes.has(f.pipe) ==> (s.pipes.has(f.pipe) <==> r > 0 || w > 0)
            &&& s.pipes.has(f.pipe) ==> q.read_refs == (if r < 0 {
                0
            } else {
                r
            }) && q.write_refs == (if w < 0 {
                0
            } else {
                w
            }) && q.data == p.data && q.room == p.room
            &&& s.vnodes == m.vnodes
            &&& s.outbox == m.outbox
        }),
{
    lemma_one_release(m, h);
}

/// The last hold on an event-poll object takes the object along.
pub proof fn law_last_hold_takes_the_event_poll(m: VfsModel, h: Handle)
    requires
        m.unix_sockets.wf(),
        m.open_files.has(h),
        m.open_files.at(h).refcount <= 1,
        m.open_files.at(h).kind == ObjKind::Epoll,
    ensures
        ({
            let s = m.file_released(h);
            &&& !s.open_files.has(h)
            &&& others_stay(m.open_files, s.open_files, h)
            &&& !s.epolls.has(m.open_files.at(h).epoll)
            &&& others_stay(m.epolls, s.epolls, m.open_files.at(h).epoll)
            &&& s.vnodes == m.vnodes
            &&& s.outbox == m.outbox
        }),
{
    lemma_one_release(m, h);
}

/// The last hold on a network connection ends the requests that wait for it and closes it,
/// in this order, where there is a network server to tell.
pub proof fn law_last_hold_closes_the_connection(m: VfsModel, h: Handle)
    requires
        m.unix_sockets.wf(),
        m.open_files.has(h),
        m.open_files.at(h).refcount <= 1,
        m.open_files.at(h).kind == ObjKind::Socket,
        !m.open_files.at(h).unix_socket.is_valid(),
    ensures
        ({
            let s = m.file_released(h);
            let id = m.open_files.at(h).socket_conn_id;
            &&& !s.open_files.has(h)
            &&& others_stay(m.open_files, s.open_files, h)
            &&& s.outbox == m.outbox + (if id != 0 && m.services.netsrv_ep != 0 {
                seq![
                    Effect::CancelInetWaiters { conn_id: id },
                    Effect::NetClose { conn_id: id },
                ]
            } else {
                Seq::empty()
            })
            &&& s.vnodes == m.vnodes
        }),
{
    lemma_one_release(m, h);
    let id = m.open_files.at(h).socket_conn_id;
    assert(m.outbox.push(Effect::CancelInetWaiters { conn_id: id }).push(
        Effect::NetClose { conn_id: id },
    ) =~= m.outbox + seq![
        Effect::CancelInetWaiters { conn_id: id },
        Effect::NetClose { conn_id: id },
    ]);
    assert(m.outbox + Seq::<Effect>::empty() =~= m.outbox);
}

/// Vnode `v` of `m` would go once its count of descriptors were `left`: nothing holds it in
/// place, it has no name (or needs none), no descriptor and no mount on it.
pub open spec fn nothing_keeps(m: VfsModel, v: Handle, left: u32) -> bool {
    let vn = m.vnodes.at(v);
    let p = m.proc_nodes.at(vn.backend_ref);
    &&& m.vnodes.has(v)
    &&& left == 0
    &&& !vn.pinned
    &&& !vn.root
    &&& !vn.covered_by.handle.is_valid()
    &&& vn.nlink == 0 || (m.proc_nodes.has(vn.backend_ref) && p.vnode == v && p.ephemeral)
}

proof fn lemma_let_go(m: VfsModel, v: Handle, o: Handle)
    requires
        o != v,
    ensures
        ({
            let s = m.name_let_go(v);
            let n = m.vnodes.at(v).open_count;
            let left: u32 = if n > 0 {
                (n - 1) as u32
            } else {
                0
            };
            &&& s.vnodes.entry(o) == m.vnodes.entry(o)
            &&& m.vnodes.has(v) ==> (s.vnodes.has(v) <==> !nothing_keeps(m, v, left))
            &&& s.vnodes.has(v) ==> s.vnodes.at(v) == (Vnode { open_count: left, ..m.vnodes.at(v) })
            &&& nothing_keeps(m, v, left) && m.vnodes.at(v).data.is_valid() ==> !s.blobs.has(
                m.vnodes.at(v).data,
            )
        }),
{
    reveal(VfsModel::reclaimed);
    let n = m.vnode_closed(v);
    law_reclaim_is_safe(n, v, o);
    if m.vnodes.has(v) {
        let left: u32 = if m.vnodes.at(v).open_count > 0 {
            (m.vnodes.at(v).open_count - 1) as u32
        } else {
            0
        };
        assert(n.vnodes.at(v) == (Vnode { open_count: left, ..m.vnodes.at(v) }));
        assert(n.reclaimable(v) <==> nothing_keeps(m, v, left));
    }
}

/// The last hold on an open file of a vnode leaves the vnode open once less. The vnode goes,
/// with its stored bytes, exactly if nothing else keeps it; no other vnode is touched.
pub proof fn law_last_hold_closes_the_vnode(m: VfsModel, h: Handle, o: Handle)
    requires
        m.unix_sockets.wf(),
        m.open_files.has(h),
        m.open_files.at(h).refcount <= 1,
        m.open_files.at(h).kind == ObjKind::File || m.open_files.at(h).kind == ObjKind::Directory
            || m.open_files.at(h).kind == ObjKind::Device,
        o != m.open_files.at(h).vnode,
    ensures
        ({
            let s = m.file_released(h);
            let v = m.open_files.at(h).vnode;
            let n = m.vnodes.at(v).open_count;
            let left: u32 = if n > 0 {
                (n - 1) as u32
            } else {
                0
            };
            &&& !s.open_files.has(h)
            &&& others_stay(m.open_files, s.open_files, h)
            &&& s.vnodes.entry(o) == m.vnodes.entry(o)
            &&& m.vnodes.has(v) ==> (s.vnodes.has(v) <==> !nothing_keeps(m, v, left))
            &&& s.vnodes.has(v) ==> s.vnodes.at(v) == (Vnode { open_count: left, ..m.vnodes.at(v) })
            &&& nothing_keeps(m, v, left) && m.vnodes.at(v).data.is_valid() ==> !s.blobs.has(
                m.vnodes.at(v).data,
            )
        }),
{
    lemma_one_release(m, h);
    let f = m.open_files.at(h);
    let a = VfsModel { open_files: m.open_files.dropped(h), ..m };
    a.lemma_close_frame(f);
    lemma_let_go(a, f.vnode, o);
    let b = a.telling(
        Effect::PtyClose { pty_id: f.device_pty_id, master: f.device_dev_type == DEV_PTMX },
    );
    lemma_let_go(b, f.vnode, o);
}

/// Where the last hold on a terminal goes, the terminal server is told which side of which
/// terminal was closed; of other devices it is told nothing.
pub proof fn law_closed_terminal_is_told(m: VfsModel, h: Handle)
    requires
        m.unix_sockets.wf(),
        m.open_files.has(h),
        m.open_files.at(h).refcount <= 1,
        m.open_files.at(h).kind == ObjKind::Device,
        !m.vnodes.has(m.open_files.at(h).vnode),
    ensures
        ({
            let f = m.open_files.at(h);
            let t = f.device_dev_type;
            m.file_released(h).outbox == m.outbox + (if m.services.ttysrv_ep != 0 && (t == DEV_PTMX
                || t == DEV_PTY_SLAVE) {
                seq![Effect::PtyClose { pty_id: f.device_pty_id, master: t == DEV_PTMX }]
            } else {
                Seq::empty()
            })
        }),
{
    reveal(VfsModel::reclaimed);
    lemma_one_release(m, h);
    let f = m.open_files.at(h);
    let e = Effect::PtyClose {
        pty_id: f.device_pty_id,
        master: f.device_dev_type == DEV_PTMX,
    };
    assert(m.outbox.push(e) =~= m.outbox + seq![e]);
    assert(m.outbox + Seq::<Effect>::empty() =~= m.outbox);
}

/// The last hold on an open file of a memory object leaves the object open once less. The
/// object goes exactly if it has no name and no descriptor, and the memory server is told
/// first of all.
pub proof fn law_last_hold_closes_the_memory(m: VfsModel, h: Handle)
    requires
        m.unix_sockets.wf(),
        m.open_files.has(h),
        m.open_files.at(h).refcount <= 1,
        m.open_files.at(h).kind == ObjKind::Shm,
        m.shms.has(m.open_files.at(h).shm),
    ensures
        ({
            let s = m.file_released(h);
            let f = m.open_files.at(h);
            let a = m.shms.at(f.shm);
            &&& !s.open_files.has(h)
            &&& others_stay(m.open_files, s.open_files, h)
            &&& others_stay(m.shms, s.shms, f.shm)
            &&& !s.shms.has(f.shm) <==> a.open_refs <= 1 && a.unlinked
            &&& s.shms.has(f.shm) ==> counts_down(a.open_refs, s.shms.at(f.shm).open_refs)
                && s.shms.at(f.shm) == (ShmState { open_refs: s.shms.at(f.shm).open_refs, ..a })
                && s.outbox == m.outbox && open_once_less(m, s, f.vnode)
            &&& !s.shms.has(f.shm) && !m.vnodes.has(f.vnode) ==> s.outbox == m.outbox.push(
                Effect::ShmDestroy { id: a.id },
            )
        }),
{
    lemma_one_release(m, h);
    let f = m.open_files.at(h);
    let a = VfsModel { open_files: m.open_files.dropped(h), ..m };
    a.lemma_close_frame(f);
    reveal(VfsModel::reclaimed);
    let sh = a.shms.at(f.shm);
    let left = ShmState { open_refs: one_less(sh.open_refs), ..sh };
    let b = VfsModel { shms: a.shms.put(f.shm, left), ..a }.vnode_closed(f.vnode);
    let d = VfsModel { shms: b.shms.dropped(f.shm), ..b }.telling(Effect::ShmDestroy { id: sh.id });
    lemma_reclaim_keeps_memory(d, f.vnode);
}

proof fn lemma_reclaim_keeps_memory(m: VfsModel, v: Handle)
    ensures
        m.reclaimed(v).shms == m.shms,
{
    reveal(VfsModel::reclaimed);
    let a = m.fifo_let_go(v);
    let b = a.proc_node_released(v);
    let c = b.sysctl_leaf_released(v);
    let d = m.backends_let_go(v);
    assert(a.shms == m.shms);
    assert(b.shms == m.shms);
    assert(c.shms == m.shms);
    assert(d.shms == m.shms);
}

/// A closed descriptor is free; every other descriptor of the client, and every other
/// client, is as it was.
pub proof fn law_closed_descriptor_is_free(m: VfsModel, c: Handle, fd: int)
    requires
        m.unix_sockets.wf(),
        m.clients.has(c),
        m.clients.at(c).slots.len() == MAX_CLIENT_OBJECTS,
        0 <= fd < MAX_CLIENT_OBJECTS,
        m.clients.at(c).slots[fd].active,
    ensures
        ({
            let s = m.slot_released(c, fd);
            let h = m.clients.at(c).slots[fd].open_file;
            &&& s.clients.has(c)
            &&& !s.clients.at(c).slots[fd].active
            &&& s.clients.at(c).slots.len() == MAX_CLIENT_OBJECTS
            &&& forall|k: int|
                0 <= k < MAX_CLIENT_OBJECTS && k != fd ==> #[trigger] s.clients.at(c).slots[k]
                    == m.clients.at(c).slots[k]
            &&& others_stay(m.clients, s.clients, c)
            &&& m.open_files.has(h) && m.open_files.at(h).refcount > 1 ==> s.open_files.has(h)
                && s.open_files.at(h).refcount == m.open_files.at(h).refcount - 1
            &&& m.open_files.has(h) && m.open_files.at(h).refcount <= 1 && m.open_files.at(h).kind
                != ObjKind::Socket ==> !s.open_files.has(h)
        }),
{
    let h = m.clients.at(c).slots[fd].open_file;
    let a = m.with_slot(c, fd, OpenSlot::empty());
    a.lemma_settled_frame(seq![Release::File(h)]);
    if m.open_files.has(h) {
        if m.open_files.at(h).refcount > 1 {
            law_held_file_stays(a, h);
        } else if m.open_files.at(h).kind != ObjKind::Socket {
            lemma_one_release(a, h);
            let f = a.open_files.at(h);
            let b = VfsModel { open_files: a.open_files.dropped(h), ..a };
            b.lemma_close_frame(f);
        }
    }
}

/// A descriptor that was free and is made to share an open file leads to that file and to
/// nothing else, keeps no flag but close-on-exec, and the file is held once more.
pub proof fn law_shared_file_is_held_once_more(
    m: VfsModel,
    c: Handle,
    fd: int,
    of: Handle,
    fd_flags: u32,
)
    requires
        m.unix_sockets.wf(),
        m.clients.has(c),
        m.clients.at(c).slots.len() == MAX_CLIENT_OBJECTS,
        0 <= fd < MAX_CLIENT_OBJECTS,
        m.open_files.has(of),
    ensures
        ({
            let (s, ok) = m.installed(c, fd, of, fd_flags);
            let was = m.clients.at(c).slots[fd];
            &&& ok
            &&& s.clients.has(c)
            &&& s.clients.at(c).slots.len() == MAX_CLIENT_OBJECTS
            &&& s.clients.at(c).slots[fd].active
            &&& s.clients.at(c).slots[fd].open_file == of
            &&& s.clients.at(c).slots[fd].fd_flags == fd_flags & FD_CLOEXEC
            &&& forall|k: int|
                0 <= k < MAX_CLIENT_OBJECTS && k != fd ==> #[trigger] s.clients.at(c).slots[k]
                    == m.clients.at(c).slots[k]
            &&& others_stay(m.clients, s.clients, c)
            &&& !was.active || !was.open_file.is_valid() ==> s.open_files.has(of) && counts_up(
                m.open_files.at(of).refcount,
                s.open_files.at(of).refcount,
            ) && others_stay(m.open_files, s.open_files, of)
            &&& was.active && was.open_file.is_valid() && was.open_file != of && m.open_files.has(
                was.open_file,
            ) && m.open_files.at(was.open_file).refcount > 1 ==> s.open_files.has(of) && counts_up(
                m.open_files.at(of).refcount,
                s.open_files.at(of).refcount,
            ) && s.open_files.at(was.open_file).refcount == m.open_files.at(was.open_file).refcount
                - 1
            &&& was.active && was.open_file.is_valid() && was.open_file == of && 0
                < m.open_files.at(of).refcount < u32::MAX ==> s.open_files.has(of)
                && s.open_files.at(of).refcount == m.open_files.at(of).refcount
        }),
{
    let held = m.retained(of);
    let was = m.clients.at(c).slots[fd];
    if was.active && was.open_file.is_valid() {
        held.lemma_settled_frame(seq![Release::File(was.open_file)]);
        if held.open_files.has(was.open_file) && held.open_files.at(was.open_file).refcount > 1 {
            law_held_file_stays(held, was.open_file);
        }
    }
}

/// Sharing on any descriptor takes the lowest free one, and fails only for want of one or
/// of the open file.
pub proof fn law_sharing_takes_the_lowest_descriptor(
    m: VfsModel,
    c: Handle,
    of: Handle,
    fd_flags: u32,
)
    requires
        m.unix_sockets.wf(),
        m.clients.has(c),
        m.clients.at(c).slots.len() == MAX_CLIENT_OBJECTS,
    ensures
        match m.shared_on_fd(c, of, fd_flags) {
            (s, Some(fd)) => {
                &&& descriptor_given(m, s, c, fd, of, fd_flags & FD_CLOEXEC)
                &&& m.open_files.has(of)
                &&& s.open_files.has(of)
                &&& counts_up(m.open_files.at(of).refcount, s.open_files.at(of).refcount)
                &&& others_stay(m.open_files, s.open_files, of)
            },
            (s, None) => {
                &&& s == m
                &&& !m.open_files.has(of) || forall|k: int|
                    0 <= k < MAX_CLIENT_OBJECTS ==> (#[trigger] m.clients.at(c).slots[k]).active
            },
        },
{
    law_lowest_descriptor_first(m.clients.at(c).slots, 0);
    if m.open_files.has(of) {
        if let Some(fd) = free_fd(m.clients.at(c).slots, 0) {
            law_shared_file_is_held_once_more(m, c, fd as int, of, fd_flags);
        }
    }
}

proof fn lemma_holds_of_files(hs: Seq<Handle>, i: int)
    requires
        0 <= i < hs.len(),
        hs[i].is_valid(),
    ensures
        file_releases(hs).contains(Release::File(hs[i])),
    decreases hs.len(),
{
    let d = hs.drop_last();
    if i < d.len() {
        lemma_holds_of_files(d, i);
        let k = choose|k: int|
            0 <= k < file_releases(d).len() && file_releases(d)[k] == Release::File(d[i]);
        assert(file_releases(hs)[k] == Release::File(hs[i]));
    } else {
        assert(file_releases(hs).last() == Release::File(hs[i]));
    }
}

proof fn lemma_holds_of_accepts(hs: Seq<Handle>, i: int)
    requires
        0 <= i < hs.len(),
        hs[i].is_valid(),
    ensures
        accept_releases(hs).contains(Release::Accepted(hs[i])),
    decreases hs.len(),
{
    let d = hs.drop_last();
    if i < d.len() {
        lemma_holds_of_accepts(d, i);
        let k = choose|k: int|
            0 <= k < accept_releases(d).len() && accept_releases(d)[k] == Release::Accepted(d[i]);
        assert(accept_releases(hs)[k] == Release::Accepted(hs[i]));
    } else {
        assert(accept_releases(hs).last() == Release::Accepted(hs[i]));
    }
}

proof fn lemma_contains_part<A>(a: Seq<A>, b: Seq<A>, c: Seq<A>, x: A)
    requires
        b.contains(x),
    ensures
        (a + b + c).contains(x),
{
    let k = choose|k: int| 0 <= k < b.len() && b[k] == x;
    assert((a + b + c)[a.len() + k] == x);
}

proof fn lemma_holds_of_datagrams(ds: Seq<DgramView>, i: int, j: int)
    requires
        0 <= i < ds.len(),
    ensures
        ds[i].src_vnode.is_valid() ==> dgram_releases(ds).contains(Release::Name(ds[i].src_vnode)),
        0 <= j < ds[i].rights.len() && ds[i].rights[j].is_valid() ==> dgram_releases(ds).contains(
            Release::File(ds[i].rights[j]),
        ),
    decreases ds.len(),
{
    let d = ds.drop_last();
    let e = Seq::<Release>::empty();
    let (x, y, z) = (
        dgram_releases(d),
        name_release(ds.last().src_vnode),
        file_releases(ds.last().rights),
    );
    assert(dgram_releases(ds) == x + y + z);
    assert(x + y + z =~= e + x + (y + z));
    assert(x + y + z =~= (x + y) + z + e);
    if i < d.len() {
        lemma_holds_of_datagrams(d, i, j);
        assert(d[i] == ds[i]);
        if ds[i].src_vnode.is_valid() {
            lemma_contains_part(e, x, y + z, Release::Name(ds[i].src_vnode));
        }
        if 0 <= j < ds[i].rights.len() && ds[i].rights[j].is_valid() {
            lemma_contains_part(e, x, y + z, Release::File(ds[i].rights[j]));
        }
    } else {
        assert(ds[i] == ds.last());
        if ds[i].src_vnode.is_valid() {
            assert(y[0] == Release::Name(ds[i].src_vnode));
            lemma_contains_part(x, y, z, Release::Name(ds[i].src_vnode));
        }
        if 0 <= j < ds[i].rights.len() && ds[i].rights[j].is_valid() {
            lemma_holds_of_files(ds[i].rights, j);
            lemma_contains_part(x + y, z, e, Release::File(ds[i].rights[j]));
        }
    }
}

/// When the last hold on a local socket goes, everything that the socket holds is let go of
/// after it: every open file on its way to it, alone or with a datagram, the name of every
/// datagram's sender, every connection that nobody accepted, its own name and its peer's.
pub proof fn law_socket_lets_go_of_all_it_holds(m: VfsModel, h: Handle, i: int, j: int)
    requires
        m.open_files.has(h),
        m.open_files.at(h).refcount <= 1,
        m.open_files.at(h).kind == ObjKind::Socket,
        m.open_files.at(h).unix_socket.is_valid(),
        m.unix_sockets.has(m.open_files.at(h).unix_socket),
        m.unix_sockets.at(m.open_files.at(h).unix_socket).refcount <= 1,
    ensures
        ({
            let u = m.open_files.at(h).unix_socket;
            let k = m.unix_sockets.at(u);
            let (s, next) = m.release_step(Release::File(h));
            &&& !s.unix_sockets.has(u)
            &&& !s.open_files.has(h)
            &&& 0 <= i < k.rights.len() && k.rights[i].is_valid() ==> next.contains(
                Release::File(k.rights[i]),
            )
            &&& 0 <= i < k.dgrams.len() && 0 <= j < k.dgrams[i].rights.len()
                && k.dgrams[i].rights[j].is_valid() ==> next.contains(
                Release::File(k.dgrams[i].rights[j]),
            )
            &&& 0 <= i < k.dgrams.len() && k.dgrams[i].src_vnode.is_valid() ==> next.contains(
                Release::Name(k.dgrams[i].src_vnode),
            )
            &&& 0 <= i < k.accepts.len() && k.accepts[i].is_valid() ==> next.contains(
                Release::Accepted(k.accepts[i]),
            )
            &&& k.bound_vnode.is_valid() ==> next.contains(Release::Name(k.bound_vnode))
            &&& k.peer_name_vnode.is_valid() ==> next.contains(Release::Name(k.peer_name_vnode))
            &&& k.peer.is_valid() ==> next.contains(Release::PeerGone { socket: u, peer: k.peer })
            &&& next.last() == Release::WaitersOf(u)
        }),
{
    let u = m.open_files.at(h).unix_socket;
    let k = m.unix_sockets.at(u);
    let e = Seq::<Release>::empty();
    let next = m.release_step(Release::File(h)).1;
    let r = file_releases(k.rights);
    let d = dgram_releases(k.dgrams);
    let c = accept_releases(k.accepts);
    let own = name_release(k.bound_vnode);
    let other = if k.peer_name_vnode != k.bound_vnode {
        name_release(k.peer_name_vnode)
    } else {
        e
    };
    let gone = if k.peer.is_valid() {
        seq![Release::PeerGone { socket: u, peer: k.peer }]
    } else {
        e
    };
    let end = seq![Release::WaitersOf(u)];
    assert(next == r + d + c + (own + other) + gone + end);
    assert(next =~= e + r + (d + c + own + other + gone + end));
    assert(next =~= r + d + (c + own + other + gone + end));
    assert(next =~= r + d + c + (own + other + gone + end));
    assert(next =~= (r + d + c) + own + (other + gone + end));
    assert(next =~= (r + d + c + own) + other + (gone + end));
    assert(next =~= (r + d + c + own + other) + gone + end);
    if 0 <= i < k.rights.len() && k.rights[i].is_valid() {
        lemma_holds_of_files(k.rights, i);
        lemma_contains_part(
            e,
            r,
            d + c + own + other + gone + end,
            Release::File(k.rights[i]),
        );
    }
    if 0 <= i < k.dgrams.len() {
        lemma_holds_of_datagrams(k.dgrams, i, j);
        let rest = c + own + other + gone + end;
        if 0 <= j < k.dgrams[i].rights.len() && k.dgrams[i].rights[j].is_valid() {
            lemma_contains_part(r, d, rest, Release::File(k.dgrams[i].rights[j]));
        }
        if k.dgrams[i].src_vnode.is_valid() {
            lemma_contains_part(r, d, rest, Release::Name(k.dgrams[i].src_vnode));
        }
    }
    if 0 <= i < k.accepts.len() && k.accepts[i].is_valid() {
        lemma_holds_of_accepts(k.accepts, i);
        lemma_contains_part(r + d, c, own + other + gone + end, Release::Accepted(k.accepts[i]));
    }
    if k.bound_vnode.is_valid() {
        assert(own[0] == Release::Name(k.bound_vnode));
        lemma_contains_part(r + d + c, own, other + gone + end, Release::Name(k.bound_vnode));
    }
    if k.peer_name_vnode.is_valid() && k.peer_name_vnode != k.bound_vnode {
        assert(other[0] == Release::Name(k.peer_name_vnode));
        lemma_contains_part(
            r + d + c + own,
            other,
            gone + end,
            Release::Name(k.peer_name_vnode),
        );
    }
    if k.peer.is_valid() {
        assert(gone[0] == Release::PeerGone { socket: u, peer: k.peer });
        lemma_contains_part(
            r + d + c + own + other,
            gone,
            end,
            Release::PeerGone { socket: u, peer: k.peer },
        );
    }
}

/// The last hold on a local socket that has nothing queued and no name takes the socket
/// away; a stream peer learns that nobody is left at the other end, a datagram peer that was
/// connected to it is connected to nobody, and whoever waits for the socket is told.
pub proof fn law_last_hold_takes_the_local_socket(m: VfsModel, h: Handle)
    requires
        m.unix_sockets.wf(),
        m.open_files.has(h),
        m.open_files.at(h).refcount <= 1,
        m.open_files.at(h).kind == ObjKind::Socket,
        m.open_files.at(h).unix_socket.is_valid(),
        m.unix_sockets.has(m.open_files.at(h).unix_socket),
        ({
            let k = m.unix_sockets.at(m.open_files.at(h).unix_socket);
            &&& k.refcount <= 1
            &&& k.rights.len() == 0
            &&& k.dgrams.len() == 0
            &&& k.accepts.len() == 0
            &&& !k.bound_vnode.is_valid()
            &&& !k.peer_name_vnode.is_valid()
            &&& k.peer != m.open_files.at(h).unix_socket
        }),
    ensures
        ({
            let s = m.file_released(h);
            let u = m.open_files.at(h).unix_socket;
            let p = m.unix_sockets.at(u).peer;
            let (a, b) = (m.unix_sockets.at(p), s.unix_sockets.at(p));
            &&& !s.open_files.has(h)
            &&& others_stay(m.open_files, s.open_files, h)
            &&& !s.unix_sockets.has(u)
            &&& forall|o: Handle|
                o != u && o != p ==> #[trigger] s.unix_sockets.entry(o) == m.unix_sockets.entry(o)
            &&& p.is_valid() && m.unix_sockets.has(p) ==> s.unix_sockets.has(p)
                && if a.socket_type != SockType::Dgram {
                b == (SockView { peer_closed: true, ..a })
            } else if a.peer == u {
                &&& !b.peer.is_valid()
                &&& !b.peer_name_vnode.is_valid()
                &&& b.peer_name_path.len() == 0
                &&& b.peer_name_abstract.len() == 0
                &&& b.data == a.data
                &&& b.dgrams == a.dgrams
                &&& b.refcount == a.refcount
            } else {
                b == a
            }
            &&& s.outbox == m.outbox + seq![
                Effect::CancelSocketWaiters { socket: u },
                Effect::DriveSocketWaiters,
            ]
            &&& s.vnodes == m.vnodes
        }),
{
    let f = m.open_files.at(h);
    let u = f.unix_socket;
    let k = m.unix_sockets.at(u);
    let work = seq![Release::File(h)];
    let (a, more) = m.release_step(Release::File(h));
    m.lemma_release_step(Release::File(h));
    let told = Release::PeerGone { socket: u, peer: k.peer };
    if k.peer.is_valid() {
        assert(more + work.drop_first() =~= seq![told, Release::WaitersOf(u)]);
        a.lemma_release_step(told);
        let (b, none) = a.release_step(told);
        assert(none + seq![told, Release::WaitersOf(u)].drop_first() =~= seq![
            Release::WaitersOf(u),
        ]);
        lemma_waiters_told(b, u);
        assert(a.settled(seq![told, Release::WaitersOf(u)]) == b.settled(
            seq![Release::WaitersOf(u)],
        ));
        assert(m.settled(work) == a.settled(seq![told, Release::WaitersOf(u)]));
    } else {
        assert(more + work.drop_first() =~= seq![Release::WaitersOf(u)]);
        lemma_waiters_told(a, u);
        assert(m.settled(work) == a.settled(seq![Release::WaitersOf(u)]));
    }
}

proof fn lemma_waiters_told(m: VfsModel, u: Handle)
    requires
        m.unix_sockets.wf(),
    ensures
        ({
            let s = m.settled(seq![Release::WaitersOf(u)]);
            &&& s == VfsModel { outbox: s.outbox, ..m }
            &&& s.outbox == m.outbox + seq![
                Effect::CancelSocketWaiters { socket: u },
                Effect::DriveSocketWaiters,
            ]
        }),
{
    let work = seq![Release::WaitersOf(u)];
    let (s, more) = m.release_step(Release::WaitersOf(u));
    m.lemma_release_step(Release::WaitersOf(u));
    assert(more + work.drop_first() =~= Seq::<Release>::empty());
    assert(m.settled(work) == s.settled(Seq::<Release>::empty()));
    assert(s.outbox =~= m.outbox + seq![
        Effect::CancelSocketWaiters { socket: u },
        Effect::DriveSocketWaiters,
    ]);
}

} // verus!
