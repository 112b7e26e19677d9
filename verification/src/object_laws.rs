//! What pipes, local sockets, clients and their drives do, told from the tables and bytes alone.

use crate::arena::Handle;
use crate::descriptor_laws::others_stay;
use crate::files::{
    ClientView, DgramView, PathAnchor, SockView, MAX_CLIENT_OBJECTS, PERS_POSIX, PERS_WIN32,
    UNIX_DGRAM_QUEUE_CAP,
};
use crate::fs::sysctlfs::part_of;
use crate::ring::{drained, fed, fitting, front};
use crate::state::VfsModel;
use crate::win32::{entry_of, with_copy, with_dir, with_seed, without, Win32View};
use vstd::prelude::*;

verus! {

/// A write to a pipe takes as many bytes as there is room for, from the first on, and puts
/// them behind what is queued; the ends of the pipe and every other pipe stay.
pub proof fn law_pipe_takes_what_fits(m: VfsModel, pipe: Handle, src: Seq<u8>)
    requires
        m.pipes.has(pipe),
        m.pipes.at(pipe).data.len() <= m.pipes.at(pipe).room,
    ensures
        ({
            let p = m.pipes.at(pipe);
            let n = fitting(p.data, p.room, src);
            let s = m.with_pipe_data(pipe, fed(p.data, p.room, src));
            let q = s.pipes.at(pipe);
            &&& 0 <= n <= src.len()
            &&& n == src.len() || p.data.len() + n == p.room
            &&& s.pipes.has(pipe)
            &&& q.data == p.data + src.take(n)
            &&& q.room == p.room
            &&& q.read_refs == p.read_refs
            &&& q.write_refs == p.write_refs
            &&& others_stay(m.pipes, s.pipes, pipe)
            &&& s == (VfsModel { pipes: s.pipes, ..m })
        }),
{
}

/// A read from a pipe gives the oldest bytes, as many as were asked for or all there are,
/// and leaves the others in their order.
pub proof fn law_pipe_gives_the_oldest_bytes(m: VfsModel, pipe: Handle, len: int)
    requires
        m.pipes.has(pipe),
        0 <= len,
    ensures
        ({
            let p = m.pipes.at(pipe);
            let got = front(p.data, len);
            let s = m.with_pipe_data(pipe, drained(p.data, len));
            let q = s.pipes.at(pipe);
            &&& got.len() <= len
            &&& got.len() == len || got.len() == p.data.len()
            &&& got + q.data == p.data
            &&& q.room == p.room
            &&& q.read_refs == p.read_refs
            &&& q.write_refs == p.write_refs
            &&& others_stay(m.pipes, s.pipes, pipe)
        }),
{
    let d = m.pipes.at(pipe).data;
    assert(front(d, len) + drained(d, len) =~= d);
}

/// Bytes that are written to a local socket and read from it come out as they went in, and
/// nothing else of the socket, and no other socket, is touched.
pub proof fn law_socket_passes_bytes_on(m: VfsModel, socket: Handle, src: Seq<u8>, len: int)
    requires
        m.unix_sockets.has(socket),
        m.unix_sockets.at(socket).data.len() <= m.unix_sockets.at(socket).room,
        0 <= len,
    ensures
        ({
            let k = m.unix_sockets.at(socket);
            let n = fitting(k.data, k.room, src);
            let w = m.with_socket_data(socket, fed(k.data, k.room, src));
            let r = m.with_socket_data(socket, drained(k.data, len));
            &&& n == src.len() || k.data.len() + n == k.room
            &&& w.unix_sockets.at(socket) == (SockView { data: k.data + src.take(n), ..k })
            &&& others_stay(m.unix_sockets, w.unix_sockets, socket)
            &&& front(k.data, len) + r.unix_sockets.at(socket).data == k.data
            &&& front(k.data, len).len() == len || front(k.data, len).len() == k.data.len()
            &&& r.unix_sockets.at(socket) == (SockView {
                data: r.unix_sockets.at(socket).data,
                ..k
            })
            &&& others_stay(m.unix_sockets, r.unix_sockets, socket)
        }),
{
    let d = m.unix_sockets.at(socket).data;
    assert(front(d, len) + drained(d, len) =~= d);
}

/// A datagram that is queued stands behind those that were there; a queue that is full takes
/// none.
pub proof fn law_datagrams_queue_up(m: VfsModel, socket: Handle, d: DgramView)
    requires
        m.unix_sockets.has(socket),
    ensures
        ({
            let k = m.unix_sockets.at(socket);
            let s = m.datagram_queued(socket, d);
            &&& k.dgrams.len() < UNIX_DGRAM_QUEUE_CAP ==> s.unix_sockets.at(socket) == (SockView {
                dgrams: k.dgrams + seq![d],
                ..k
            })
            &&& k.dgrams.len() >= UNIX_DGRAM_QUEUE_CAP ==> s == m
            &&& others_stay(m.unix_sockets, s.unix_sockets, socket)
        }),
{
    let k = m.unix_sockets.at(socket);
    assert(k.dgrams.push(d) =~= k.dgrams + seq![d]);
}

/// The part of a text that a read at `offset` gives holds the text's bytes from there on, and
/// ends only at the end of the text or of the room for it.
pub proof fn law_parts_make_up_the_text(text: Seq<u8>, offset: u64, cap: int, i: int)
    requires
        0 <= cap,
    ensures
        ({
            let r = part_of(text, offset, cap);
            &&& r.len() <= cap
            &&& offset + r.len() <= text.len() || r.len() == 0
            &&& 0 <= i < r.len() ==> r[i] == text[offset + i]
            &&& offset < text.len() ==> r.len() == cap || offset + r.len() == text.len()
        }),
{
}

proof fn lemma_drive_entry(s: Seq<Win32View>, client: Handle, i: int)
    requires
        0 <= i,
    ensures
        match entry_of(s, client, i) {
            Some(k) => i <= k < s.len() && s[k].client == client && forall|j: int|
                i <= j < k ==> (#[trigger] s[j]).client != client,
            None => forall|j: int| i <= j < s.len() ==> (#[trigger] s[j]).client != client,
        },
    decreases s.len() - i,
{
    if i < s.len() && s[i].client != client {
        lemma_drive_entry(s, client, i + 1);
    }
}

proof fn lemma_drive_entry_is(s: Seq<Win32View>, client: Handle, k: int)
    requires
        0 <= k < s.len(),
        s[k].client == client,
        forall|j: int| 0 <= j < k ==> (#[trigger] s[j]).client != client,
    ensures
        entry_of(s, client, 0) == Some(k),
{
    lemma_drive_entry(s, client, 0);
    if let Some(i) = entry_of(s, client, 0) {
        if i < k {
            assert(s[i].client != client);
        }
        if k < i {
            assert(s[k].client != client);
        }
    } else {
        assert(s[k].client != client);
    }
}

/// A client that is given drives is on C, with the root as its directory there and none
/// anywhere else; one that has drives keeps them.
pub proof fn law_new_client_is_on_drive_c(
    s: Seq<Win32View>,
    client: Handle,
    root: PathAnchor,
    d: int,
)
    requires
        forall|i: int| 0 <= i < s.len() ==> (#[trigger] s[i]).client != client,
        0 <= d < 26,
    ensures
        ({
            let t = with_seed(s, client, root);
            let e = t[s.len() as int];
            &&& t.len() == s.len() + 1
            &&& t.take(s.len() as int) == s
            &&& entry_of(t, client, 0) == Some(s.len() as int)
            &&& e.client == client
            &&& e.current_drive == 2
            &&& e.dirs.len() == 26
            &&& d == 2 ==> e.dirs[d] == root
            &&& d != 2 ==> !e.dirs[d].is_valid()
            &&& with_seed(t, client, root) == t
        }),
{
    lemma_drive_entry(s, client, 0);
    let t = with_seed(s, client, root);
    assert(t.take(s.len() as int) =~= s);
    assert forall|j: int| 0 <= j < s.len() implies (#[trigger] t[j]).client != client by {
        assert(t[j] == s[j]);
    }
    lemma_drive_entry_is(t, client, s.len() as int);
}

/// A directory that is set on a drive is the client's directory there; the drive it is on,
/// its other drives and every other client stay.
pub proof fn law_set_directory_is_kept(
    s: Seq<Win32View>,
    client: Handle,
    drive: int,
    a: PathAnchor,
    i: int,
)
    requires
        entry_of(s, client, 0) == Some(i),
        0 <= drive < s[i].dirs.len(),
    ensures
        ({
            let t = with_dir(s, client, drive, a);
            &&& t.len() == s.len()
            &&& entry_of(t, client, 0) == Some(i)
            &&& t[i].dirs[drive] == a
            &&& t[i].dirs.len() == s[i].dirs.len()
            &&& t[i].current_drive == s[i].current_drive
            &&& forall|d: int|
                0 <= d < s[i].dirs.len() && d != drive ==> #[trigger] t[i].dirs[d] == s[i].dirs[d]
            &&& forall|j: int| 0 <= j < s.len() && j != i ==> #[trigger] t[j] == s[j]
        }),
{
    lemma_drive_entry(s, client, 0);
    let t = with_dir(s, client, drive, a);
    assert forall|j: int| 0 <= j < i implies (#[trigger] t[j]).client != client by {
        assert(t[j] == s[j]);
    }
    lemma_drive_entry_is(t, client, i);
}

/// A client whose drives are dropped has none, where it had them once; the others keep
/// theirs in their order.
pub proof fn law_dropped_drives_are_gone(s: Seq<Win32View>, client: Handle, i: int)
    requires
        entry_of(s, client, 0) == Some(i),
        forall|j: int| 0 <= j < s.len() && j != i ==> (#[trigger] s[j]).client != client,
    ensures
        entry_of(without(s, client), client, 0) is None,
        without(s, client) == s.take(i) + s.skip(i + 1),
{
    lemma_drive_entry(s, client, 0);
    let t = without(s, client);
    assert(t =~= s.take(i) + s.skip(i + 1));
    lemma_drive_entry(t, client, 0);
    if let Some(k) = entry_of(t, client, 0) {
        let back = if k < i {
            k
        } else {
            k + 1
        };
        assert(t[k] == s[back]);
        assert(s[back].client != client);
    }
}

/// A client that takes over the drives of another is on the same drive with the same
/// directories, and the other keeps its own.
pub proof fn law_copied_drives_are_alike(
    s: Seq<Win32View>,
    src: Handle,
    dst: Handle,
    root: PathAnchor,
    i: int,
)
    requires
        src != dst,
        entry_of(s, src, 0) == Some(i),
        forall|j: int| 0 <= j < s.len() ==> (#[trigger] s[j]).client != dst,
    ensures
        ({
            let t = with_copy(s, src, dst, root);
            let n = s.len() as int;
            &&& entry_of(t, src, 0) == Some(i)
            &&& t[i] == s[i]
            &&& entry_of(t, dst, 0) == Some(n)
            &&& t[n].current_drive == s[i].current_drive
            &&& t[n].dirs == s[i].dirs
        }),
{
    lemma_drive_entry(s, src, 0);
    lemma_drive_entry(s, dst, 0);
    let t = with_copy(s, src, dst, root);
    let n = s.len() as int;
    assert forall|j: int| 0 <= j < n implies #[trigger] t[j] == s[j] by {}
    assert forall|j: int| 0 <= j < i implies (#[trigger] t[j]).client != src by {
        assert(t[j] == s[j]);
    }
    lemma_drive_entry_is(t, src, i);
    assert forall|j: int| 0 <= j < n implies (#[trigger] t[j]).client != dst by {
        assert(t[j] == s[j]);
    }
    lemma_drive_entry_is(t, dst, n);
}

/// A path on a drive starts at the root of the drive, or of everything, if it is absolute or
/// the client has no directory there; else at the directory, where it is still to be found. A
/// letter behind Z names no drive. A client without drives is on C.
pub proof fn law_drive_paths_start_somewhere(
    m: VfsModel,
    c: Handle,
    drive: usize,
    absolute: bool,
    drive_root: Option<Handle>,
    i: int,
)
    ensures
        ({
            let (s, r) = m.drive_base(c, drive, absolute, drive_root);
            let top = if drive_root is Some {
                drive_root
            } else if m.mounts.has(m.root_mount) {
                Some(m.mounts.at(m.root_mount).root_vnode)
            } else {
                None
            };
            let dir = m.win32[i].dirs[drive as int];
            &&& drive > 25 ==> r is None && s == m
            &&& drive <= 25 && absolute ==> r == top && s == m
            &&& drive <= 25 && entry_of(m.win32, c, 0) is None ==> r == top && s == m
            &&& drive <= 25 && !absolute && entry_of(m.win32, c, 0) == Some(i) && drive
                < m.win32[i].dirs.len() && dir.is_valid() ==> r == if m.vnode_of_key(
                dir.vnode,
            ) is Some {
                m.vnode_of_key(dir.vnode)
            } else {
                top
            }
            &&& entry_of(m.win32, c, 0) is None ==> m.drive_of(c) == 2
            &&& entry_of(m.win32, c, 0) == Some(i) && m.win32[i].current_drive <= 25 ==> m.drive_of(
                c,
            ) == m.win32[i].current_drive
        }),
{
}

/// The directory of a drive can be set for Win32 clients only, on the drives from A to Z, and
/// to a vnode that is there; it then is where that vnode stands.
pub proof fn law_drive_directory_is_owed(m: VfsModel, c: Handle, drive: int, v: Handle)
    requires
        0 <= drive,
    ensures
        ({
            let s = m.drive_dir_set(c, drive, v);
            let ok = m.clients.has(c) && m.clients.at(c).personality == PERS_WIN32 && drive <= 25
                && m.vnodes.has(v);
            &&& !ok ==> s == m
            &&& ok ==> s == (VfsModel {
                win32: with_dir(
                    m.win32,
                    c,
                    drive,
                    PathAnchor {
                        mount: m.vnodes.at(v).mount,
                        vnode: m.vnodes.at(v).vnode_key(),
                    },
                ),
                ..m
            })
        }),
{
}

/// The client of a badge keeps its descriptors when it is asked for again; a new one has
/// none, and stands in the root directory.
pub proof fn law_asked_for_client_is_there(m: VfsModel, badge: u64, personality: u8, k: int)
    requires
        m.clients.wf(),
        0 <= k < MAX_CLIENT_OBJECTS,
    ensures
        ({
            let (s, r) = m.client_ensured(badge, personality);
            let wants = if personality == PERS_WIN32 {
                PERS_WIN32
            } else {
                PERS_POSIX
            };
            &&& r matches Some(c) ==> {
                let (a, b) = (m.clients.at(c), s.clients.at(c));
                let top = m.vnodes.at(m.mounts.at(m.root_mount).root_vnode);
                &&& s.clients.has(c)
                &&& b.personality == wants
                &&& others_stay(m.clients, s.clients, c)
                &&& m.clients.has(c) ==> m.client_of_badge(badge) == Some(c) && b.slots == a.slots
                    && b.badge == a.badge && b.cwd_anchor == a.cwd_anchor && b.mount_ns
                    == a.mount_ns
                &&& !m.clients.has(c) ==> b.badge == badge && b.mount_ns == m.global_ns
                    && !b.slots[k].active && b.cwd_anchor == (PathAnchor {
                    mount: top.mount,
                    vnode: top.vnode_key(),
                })
            }
            &&& r is None ==> m.client_of_badge(badge) is None && (m.clients.next() is None
                || !m.mounts.has(m.root_mount) || !m.vnodes.has(
                m.mounts.at(m.root_mount).root_vnode,
            ))
        }),
{
    m.clients.lemma_vacant(0);
    m.clients.lemma_scan(
        |h: Handle, c: ClientView| c.badge == badge || (c.badge & 0xffff) == (badge & 0xffff),
        0,
    );
}

} // verus!
