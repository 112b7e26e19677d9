//! Shared memory, pipes and local sockets.

use crate::arena::Handle;
use crate::bytes::{copy_prefix, prefix};
use crate::files::{
    dgram_views, Dgram, DgramView, PipeView, ShmState, SockView, UNIX_DGRAM_MAX_PAYLOAD,
    UNIX_DGRAM_QUEUE_CAP, UNIX_SOCKET_ADDR_MAX, UNIX_SOCKET_MAX_RIGHTS,
};
use crate::identity::FsInstanceId;
use crate::ring::{drained, fed, fitting, front};
use crate::state::{VfsModel, VfsState};
use crate::vnode::Vnode;
use vstd::prelude::*;

verus! {

/// High bits of every shared-memory id.
pub const SHM_ID_TAG: u64 = 0x5348_4D00_0000_0000;

/// The id under which the memory server knows a shared-memory object.
#[verifier::allow_in_spec]
pub fn shm_id(h: Handle) -> (r: u64)
    returns
        (SHM_ID_TAG | ((h.slot as u64) << 32) | h.epoch as u64),
{
    SHM_ID_TAG | ((h.slot as u64) << 32) | h.epoch as u64
}

/// Two objects have one id only if their handles agree in the generation and in every bit
/// of the slot that the tag leaves open.
pub proof fn law_shm_ids_are_distinct(a: Handle, b: Handle)
    ensures
        shm_id(a) == shm_id(b) <==> a.epoch == b.epoch && a.slot | 0x5348_4D00 == b.slot
            | 0x5348_4D00,
{
    let (s, t, e, f) = (a.slot, b.slot, a.epoch, b.epoch);
    assert((0x5348_4D00_0000_0000u64 | ((s as u64) << 32) | e as u64 == 0x5348_4D00_0000_0000u64 | ((
    t as u64) << 32) | f as u64) <==> (e == f && s | 0x5348_4D00u32 == t | 0x5348_4D00u32))
        by (bit_vector);
}

impl VfsModel {
    /// The shared-memory object that vnode `v` names.
    pub open spec fn shm_of(self, v: Handle) -> Option<Handle> {
        self.shms.first(|h: Handle, s: ShmState| s.vnode == v)
    }

    /// A shared-memory object for vnode `v` is made, if there is room.
    pub open spec fn shm_made(self, v: Handle) -> VfsModel {
        match self.shms.next() {
            Some(h) => VfsModel {
                shms: self.shms.grown(
                    ShmState { vnode: v, id: shm_id(h), open_refs: 0, unlinked: false },
                ),
                ..self
            },
            None => self,
        }
    }

    /// The vnode of inode `ino` of a filesystem instance.
    pub open spec fn vnode_of_inode(self, fs: FsInstanceId, ino: u64) -> Option<Handle> {
        self.vnodes.first(|h: Handle, vn: Vnode| vn.fs_instance_id == fs && vn.id == ino)
    }

    /// The state with the bytes queued in a pipe replaced.
    pub open spec fn with_pipe_data(self, pipe: Handle, data: Seq<u8>) -> VfsModel {
        match self.pipes.entry(pipe) {
            Some(p) => VfsModel { pipes: self.pipes.put(pipe, PipeView { data, ..p }), ..self },
            None => self,
        }
    }

    /// The state with the bytes queued in a local socket replaced.
    pub open spec fn with_socket_data(self, socket: Handle, data: Seq<u8>) -> VfsModel {
        match self.unix_sockets.entry(socket) {
            Some(s) => VfsModel {
                unix_sockets: self.unix_sockets.put(socket, SockView { data, ..s }),
                ..self
            },
            None => self,
        }
    }

    /// The state with a datagram appended to the queue of a local socket that has room.
    pub open spec fn datagram_queued(self, socket: Handle, d: DgramView) -> VfsModel {
        match self.unix_sockets.entry(socket) {
            Some(s) => if s.dgrams.len() < UNIX_DGRAM_QUEUE_CAP {
                VfsModel {
                    unix_sockets: self.unix_sockets.put(
                        socket,
                        SockView { dgrams: s.dgrams.push(d), ..s },
                    ),
                    ..self
                }
            } else {
                self
            },
            None => self,
        }
    }
}

impl VfsState {
    /// Makes a shared-memory object for a vnode; `None` when there is no room.
    pub fn alloc_shm_state(&mut self, vnode: Handle) -> (r: Option<Handle>)
        ensures
            r == old(self)@.shms.next(),
            final(self)@ == old(self)@.shm_made(vnode),
    {
        let blank = ShmState { vnode, id: 0, open_refs: 0, unlinked: false };
        let ghost before = self@;
        match self.shms.reserve(blank) {
            Some(h) => {
                let made = ShmState { vnode, id: shm_id(h), open_refs: 0, unlinked: false };
                let _ = self.shms.set(h, made);
                proof {
                    before.shms.lemma_grown_put(blank, made);
                }
                Some(h)
            },
            None => None,
        }
    }

    /// The shared-memory object that a vnode names.
    pub fn shm_by_vnode(&self, vnode: Handle) -> (r: Option<Handle>)
        ensures
            r == self@.shm_of(vnode),
    {
        self.shms.find(
            |h: Handle, s: &ShmState| -> (b: bool) ensures b == (s@.vnode == vnode) { s.vnode == vnode },
            Ghost(|h: Handle, s: ShmState| s.vnode == vnode),
        )
    }

    /// A shared-memory object.
    pub fn shm_state(&self, handle: Handle) -> (r: Option<ShmState>)
        ensures
            r == self@.shms.entry(handle),
    {
        match self.shms.get(handle) {
            Some(s) => Some(*s),
            None => None,
        }
    }

    /// The vnode of an inode of a filesystem instance.
    pub fn vnode_by_fs_instance_and_inode_id(&self, fs: FsInstanceId, ino: u64) -> (r: Option<
        Handle,
    >)
        ensures
            r == self@.vnode_of_inode(fs, ino),
    {
        self.vnodes.find(
            |h: Handle, vn: &Vnode| -> (b: bool) ensures b == (vn@.fs_instance_id == fs && vn@.id == ino) { vn.fs_instance_id == fs && vn.id == ino },
            Ghost(|h: Handle, vn: Vnode| vn.fs_instance_id == fs && vn.id == ino),
        )
    }

    /// How many open files read and write a pipe.
    pub fn pipe_refcounts(&self, pipe: Handle) -> (r: Option<(u32, u32)>)
        ensures
            r == (match self@.pipes.entry(pipe) {
                Some(p) => Some((p.read_refs, p.write_refs)),
                None => None,
            }),
    {
        match self.pipes.get(pipe) {
            Some(p) => Some((p.read_refs, p.write_refs)),
            None => None,
        }
    }

    /// How many bytes a pipe holds.
    pub fn pipe_buffer_len(&self, pipe: Handle) -> (r: Option<u16>)
        ensures
            match r {
                Some(n) => self@.pipes.has(pipe) && n == self@.pipes.at(pipe).data.len(),
                None => !self@.pipes.has(pipe),
            },
    {
        match self.pipes.get(pipe) {
            Some(p) => Some(p.ring.len()),
            None => None,
        }
    }

    /// How many bytes a pipe still takes.
    pub fn pipe_buffer_free(&self, pipe: Handle) -> (r: Option<u16>)
        ensures
            match r {
                Some(n) => self@.pipes.has(pipe) && n == self@.pipes.at(pipe).room
                    - self@.pipes.at(pipe).data.len(),
                None => !self@.pipes.has(pipe),
            },
    {
        match self.pipes.get(pipe) {
            Some(p) => Some(p.ring.free()),
            None => None,
        }
    }

    /// Writes as many bytes to a pipe as fit and says how many.
    pub fn pipe_write(&mut self, pipe: Handle, src: &[u8]) -> (r: Option<usize>)
        ensures
            match old(self)@.pipes.entry(pipe) {
                Some(p) => r == Some(fitting(p.data, p.room, src@) as usize) && final(self)@ == old(
                    self,
                )@.with_pipe_data(pipe, fed(p.data, p.room, src@)),
                None => r is None && final(self)@ == old(self)@,
            },
    {
        match self.pipes.get_mut(pipe) {
            Some(p) => Some(p.ring.write(src)),
            None => None,
        }
    }

    /// Reads at most `len` bytes from a pipe.
    pub fn pipe_read(&mut self, pipe: Handle, len: usize) -> (r: Option<Vec<u8>>)
        ensures
            match old(self)@.pipes.entry(pipe) {
                Some(p) => r is Some && r->0@ == front(p.data, len as int) && final(self)@ == old(
                    self,
                )@.with_pipe_data(pipe, drained(p.data, len as int)),
                None => r is None && final(self)@ == old(self)@,
            },
    {
        match self.pipes.get_mut(pipe) {
            Some(p) => Some(p.ring.read(len)),
            None => None,
        }
    }

    /// How many bytes a local socket holds.
    pub fn unix_socket_buffer_len(&self, socket: Handle) -> (r: Option<u16>)
        ensures
            match r {
                Some(n) => self@.unix_sockets.has(socket) && n == self@.unix_sockets.at(
                    socket,
                ).data.len(),
                None => !self@.unix_sockets.has(socket),
            },
    {
        match self.unix_sockets.get(socket) {
            Some(s) => Some(s.ring.len()),
            None => None,
        }
    }

    /// How many bytes a local socket still takes.
    pub fn unix_socket_buffer_free(&self, socket: Handle) -> (r: Option<u16>)
        ensures
            match r {
                Some(n) => self@.unix_sockets.has(socket) && n == self@.unix_sockets.at(socket).room
                    - self@.unix_sockets.at(socket).data.len(),
                None => !self@.unix_sockets.has(socket),
            },
    {
        match self.unix_sockets.get(socket) {
            Some(s) => Some(s.ring.free()),
            None => None,
        }
    }

    /// Writes as many bytes to a local socket as fit and says how many.
    pub fn unix_socket_write(&mut self, socket: Handle, src: &[u8]) -> (r: Option<usize>)
        ensures
            match old(self)@.unix_sockets.entry(socket) {
                Some(s) => r == Some(fitting(s.data, s.room, src@) as usize) && final(self)@ == old(
                    self,
                )@.with_socket_data(socket, fed(s.data, s.room, src@)),
                None => r is None && final(self)@ == old(self)@,
            },
    {
        match self.unix_sockets.get_mut(socket) {
            Some(s) => Some(s.ring.write(src)),
            None => None,
        }
    }

    /// Reads at most `len` bytes from a local socket.
    pub fn unix_socket_read(&mut self, socket: Handle, len: usize) -> (r: Option<Vec<u8>>)
        ensures
            match old(self)@.unix_sockets.entry(socket) {
                Some(s) => r is Some && r->0@ == front(s.data, len as int) && final(self)@ == old(
                    self,
                )@.with_socket_data(socket, drained(s.data, len as int)),
                None => r is None && final(self)@ == old(self)@,
            },
    {
        match self.unix_sockets.get_mut(socket) {
            Some(s) => Some(s.ring.read(len)),
            None => None,
        }
    }

    /// The first `len` bytes that a local socket holds, which stay queued.
    pub fn unix_socket_peek(&self, socket: Handle, len: usize) -> (r: Option<Vec<u8>>)
        ensures
            match self@.unix_sockets.entry(socket) {
                Some(s) => r is Some && r->0@ == front(s.data, len as int),
                None => r is None,
            },
    {
        match self.unix_sockets.get(socket) {
            Some(s) => Some(s.ring.peek(len)),
            None => None,
        }
    }

    /// How many datagrams a local socket holds.
    pub fn unix_socket_dgram_count(&self, socket: Handle) -> (r: Option<usize>)
        ensures
            match r {
                Some(n) => self@.unix_sockets.has(socket) && n == self@.unix_sockets.at(
                    socket,
                ).dgrams.len(),
                None => !self@.unix_sockets.has(socket),
            },
    {
        match self.unix_sockets.get(socket) {
            Some(s) => Some(s.dgrams.len()),
            None => None,
        }
    }

    /// Whether a local socket takes another datagram.
    pub fn unix_socket_dgram_has_space(&self, socket: Handle) -> (r: Option<bool>)
        ensures
            r == (match self@.unix_sockets.entry(socket) {
                Some(s) => Some(s.dgrams.len() < UNIX_DGRAM_QUEUE_CAP),
                None => None,
            }),
    {
        match self.unix_sockets.get(socket) {
            Some(s) => Some(s.dgrams.len() < UNIX_DGRAM_QUEUE_CAP),
            None => None,
        }
    }

    /// Queues a datagram on a local socket. Addresses and payload are cut to what a queued
    /// datagram holds. `Some(false)` when the queue is full, `None` without a socket.
    pub fn unix_socket_dgram_enqueue(
        &mut self,
        socket: Handle,
        src_vnode: Handle,
        src_path: &[u8],
        src_abstract: &[u8],
        rights: &[Handle],
        data: &[u8],
    ) -> (r: Option<bool>)
        requires
            rights@.len() <= UNIX_SOCKET_MAX_RIGHTS,
        ensures
            r == (match old(self)@.unix_sockets.entry(socket) {
                Some(s) => Some(s.dgrams.len() < UNIX_DGRAM_QUEUE_CAP),
                None => None,
            }),
            final(self)@ == old(self)@.datagram_queued(
                socket,
                DgramView {
                    src_vnode,
                    src_path: prefix(src_path@, UNIX_SOCKET_ADDR_MAX as int),
                    src_abstract: prefix(src_abstract@, UNIX_SOCKET_ADDR_MAX as int),
                    rights: rights@,
                    data: prefix(data@, UNIX_DGRAM_MAX_PAYLOAD as int),
                },
            ),
    {
        match self.unix_sockets.get_mut(socket) {
            Some(s) => {
                if s.dgrams.len() >= UNIX_DGRAM_QUEUE_CAP {
                    return Some(false);
                }
                let d = Dgram {
                    src_vnode,
                    src_path: copy_prefix(src_path, UNIX_SOCKET_ADDR_MAX),
                    src_abstract: copy_prefix(src_abstract, UNIX_SOCKET_ADDR_MAX),
                    rights: vstd::slice::slice_to_vec(rights),
                    data: copy_prefix(data, UNIX_DGRAM_MAX_PAYLOAD),
                };
                let ghost before = dgram_views(s.dgrams@);
                let ghost dv = d@;
                s.dgrams.push(d);
                assert(dgram_views(s.dgrams@) =~= before.push(dv));
                Some(true)
            },
            None => None,
        }
    }
}

} // verus!
