//! Open files, descriptor tables and the objects that open files refer to.

use crate::arena::Handle;
use crate::identity::VnodeKey;
use crate::ring::ByteRing;
use crate::vnode::MountRef;
use vstd::prelude::*;

verus! {

pub const O_ACCMODE: u32 = 0o3;
pub const O_RDONLY: u32 = 0o0;
pub const O_WRONLY: u32 = 0o1;
pub const O_RDWR: u32 = 0o2;
pub const O_CREAT: u32 = 0o100;
pub const O_TRUNC: u32 = 0o1000;
pub const O_APPEND: u32 = 0o2000;
pub const O_NONBLOCK: u32 = 0o4000;
pub const O_CLOEXEC: u32 = 0o2000000;

pub const FD_CLOEXEC: u32 = 1;

/// Descriptors per client.
pub const MAX_CLIENT_OBJECTS: usize = 256;

/// Bytes in the ring of a pipe, of which one stays free.
pub const PIPE_BUF_SIZE: u16 = 4096;

/// Bytes in the ring of a local stream socket, of which one stays free.
pub const UNIX_SOCKET_BUF_SIZE: u16 = 8192;

/// Datagrams that a local socket queues.
pub const UNIX_DGRAM_QUEUE_CAP: usize = 16;

/// Longest datagram that a local socket takes; the rest is cut off.
pub const UNIX_DGRAM_MAX_PAYLOAD: usize = 1024;

/// Longest local socket address.
pub const UNIX_SOCKET_ADDR_MAX: usize = 108;

/// Open files that may travel with one message.
pub const UNIX_SOCKET_MAX_RIGHTS: usize = 8;

/// Personality of clients that see the namespace as POSIX does.
pub const PERS_POSIX: u8 = 0;

/// Personality of clients that see the namespace as Win32 does: without regard to case.
pub const PERS_WIN32: u8 = 1;

pub const DEV_CONSOLE: u8 = 1;
pub const DEV_PTMX: u8 = 2;
pub const DEV_PTY_SLAVE: u8 = 3;

/// What an open file refers to.
#[derive(Clone, Copy, PartialEq, Eq, Structural, Debug)]
pub enum ObjKind {
    File,
    Directory,
    Pipe,
    Shm,
    Epoll,
    Socket,
    Device,
}

/// A shared open-file description.
#[derive(Clone, Copy, PartialEq, Eq, Structural, Debug)]
pub struct OpenFile {
    pub kind: ObjKind,
    pub vnode: Handle,
    pub pipe: Handle,
    pub shm: Handle,
    pub epoll: Handle,
    pub unix_socket: Handle,
    pub socket_conn_id: u32,
    pub status_flags: u32,
    pub device_dev_type: u8,
    pub device_pty_id: u32,
    pub device_generation: u32,
    pub refcount: u32,
    pub offset: u64,
    pub dir_cursor_state: u8,
    pub dir_cursor: u64,
}

impl View for OpenFile {
    type V = OpenFile;

    open spec fn view(&self) -> OpenFile {
        *self
    }
}

impl OpenFile {
    /// A description that refers to nothing and that nobody holds.
    #[verifier::allow_in_spec]
    pub fn zeroed() -> (r: OpenFile)
        returns
            (OpenFile {
                kind: ObjKind::File,
                vnode: Handle { slot: u32::MAX, epoch: 0 },
                pipe: Handle { slot: u32::MAX, epoch: 0 },
                shm: Handle { slot: u32::MAX, epoch: 0 },
                epoll: Handle { slot: u32::MAX, epoch: 0 },
                unix_socket: Handle { slot: u32::MAX, epoch: 0 },
                socket_conn_id: 0,
                status_flags: 0,
                device_dev_type: 0,
                device_pty_id: 0,
                device_generation: 0,
                refcount: 0,
                offset: 0,
                dir_cursor_state: 0,
                dir_cursor: 0,
            }),
    {
        let none = Handle { slot: u32::MAX, epoch: 0 };
        OpenFile {
            kind: ObjKind::File,
            vnode: none,
            pipe: none,
            shm: none,
            epoll: none,
            unix_socket: none,
            socket_conn_id: 0,
            status_flags: 0,
            device_dev_type: 0,
            device_pty_id: 0,
            device_generation: 0,
            refcount: 0,
            offset: 0,
            dir_cursor_state: 0,
            dir_cursor: 0,
        }
    }
}

/// The flags of an open call that stay with the open file: how it may be accessed,
/// appending and non-blocking.
#[verifier::allow_in_spec]
pub fn normalize_status_flags(flags: u32) -> (r: u32)
    returns
        ((flags & O_ACCMODE) | (flags & (O_APPEND | O_NONBLOCK))),
{
    (flags & O_ACCMODE) | (flags & (O_APPEND | O_NONBLOCK))
}

/// The close-on-exec bit of a new descriptor.
#[verifier::allow_in_spec]
pub fn cloexec_bit(flags: u32) -> (r: u32)
    returns
        (if flags & O_CLOEXEC != 0 {
            FD_CLOEXEC
        } else {
            0u32
        }),
{
    if flags & O_CLOEXEC != 0 {
        FD_CLOEXEC
    } else {
        0
    }
}

/// Status flags keep nothing but access mode, append and non-blocking, and reducing them
/// again changes nothing.
pub proof fn law_status_flags_are_stable(flags: u32)
    ensures
        normalize_status_flags(normalize_status_flags(flags)) == normalize_status_flags(flags),
        normalize_status_flags(flags) & O_CREAT == 0,
        normalize_status_flags(flags) & O_TRUNC == 0,
        normalize_status_flags(flags) & O_CLOEXEC == 0,
        normalize_status_flags(flags) & O_ACCMODE == flags & O_ACCMODE,
{
    let n: u32 = (flags & 3) | (flags & (0o2000u32 | 0o4000u32));
    assert((n & 3) | (n & (0o2000u32 | 0o4000u32)) == n && n & 0o100u32 == 0 && n & 0o1000u32 == 0
        && n & 0o2000000u32 == 0 && n & 3 == flags & 3) by (bit_vector)
        requires
            n == (flags & 3) | (flags & (0o2000u32 | 0o4000u32)),
    ;
}

/// One descriptor of a client.
#[derive(Clone, Copy, PartialEq, Eq, Structural, Debug)]
pub struct OpenSlot {
    pub active: bool,
    pub fd_flags: u32,
    pub open_file: Handle,
}

impl OpenSlot {
    /// A descriptor that is not in use.
    #[verifier::allow_in_spec]
    pub fn empty() -> (r: OpenSlot)
        returns
            (OpenSlot {
                active: false,
                fd_flags: 0,
                open_file: Handle { slot: u32::MAX, epoch: 0 },
            }),
    {
        OpenSlot { active: false, fd_flags: 0, open_file: Handle { slot: u32::MAX, epoch: 0 } }
    }
}

/// A place in the namespace by stable identity.
#[derive(Clone, Copy, PartialEq, Eq, Structural, Debug)]
pub struct PathAnchor {
    pub mount: MountRef,
    pub vnode: VnodeKey,
}

impl PathAnchor {
    /// No place.
    #[verifier::allow_in_spec]
    pub fn invalid() -> (r: PathAnchor)
        returns
            (PathAnchor { mount: MountRef::invalid(), vnode: VnodeKey::invalid() }),
    {
        PathAnchor { mount: MountRef::invalid(), vnode: VnodeKey::invalid() }
    }

    /// Whether the anchor names a place.
    #[verifier::allow_in_spec]
    pub fn is_valid(&self) -> (r: bool)
        returns
            self.vnode != VnodeKey::invalid(),
    {
        self.vnode != VnodeKey::invalid()
    }
}

/// A client of the service.
pub struct ClientState {
    badge: u64,
    personality: u8,
    mount_ns: Handle,
    cwd_anchor: PathAnchor,
    slots: Vec<OpenSlot>,
}

/// A client with its descriptor table as a sequence of fixed length.
#[verifier::ext_equal]
pub struct ClientView {
    pub badge: u64,
    pub personality: u8,
    pub mount_ns: Handle,
    pub cwd_anchor: PathAnchor,
    pub slots: Seq<OpenSlot>,
}

impl View for ClientState {
    type V = ClientView;

    closed spec fn view(&self) -> ClientView {
        ClientView {
            badge: self.badge,
            personality: self.personality,
            mount_ns: self.mount_ns,
            cwd_anchor: self.cwd_anchor,
            slots: Seq::new(
                MAX_CLIENT_OBJECTS as nat,
                |i: int|
                    if i < self.slots@.len() {
                        self.slots@[i]
                    } else {
                        OpenSlot::empty()
                    },
            ),
        }
    }
}

/// The lowest descriptor from `fd` on that is not in use.
pub open spec fn free_fd(slots: Seq<OpenSlot>, fd: int) -> Option<usize>
    decreases slots.len() - fd,
{
    if 0 <= fd < slots.len() {
        if !slots[fd].active {
            Some(fd as usize)
        } else {
            free_fd(slots, fd + 1)
        }
    } else {
        None
    }
}

impl ClientView {
    /// A client with nothing open.
    pub open spec fn fresh(badge: u64, personality: u8, ns: Handle, cwd: PathAnchor) -> ClientView {
        ClientView {
            badge,
            personality,
            mount_ns: ns,
            cwd_anchor: cwd,
            slots: Seq::new(MAX_CLIENT_OBJECTS as nat, |i: int| OpenSlot::empty()),
        }
    }

    /// The client with descriptor `fd` replaced.
    pub open spec fn with_slot(self, fd: int, s: OpenSlot) -> ClientView {
        ClientView { slots: self.slots.update(fd, s), ..self }
    }
}

impl ClientState {
    /// A client with nothing open.
    pub fn new(badge: u64, personality: u8, mount_ns: Handle, cwd_anchor: PathAnchor) -> (r: Self)
        ensures
            r@ == ClientView::fresh(badge, personality, mount_ns, cwd_anchor),
    {
        let r = ClientState { badge, personality, mount_ns, cwd_anchor, slots: Vec::new() };
        assert(r@.slots =~= ClientView::fresh(badge, personality, mount_ns, cwd_anchor).slots);
        r
    }

    /// The badge that the client sends requests under.
    pub fn badge_of(&self) -> (r: u64)
        ensures
            r == self@.badge,
    {
        self.badge
    }

    /// How the client sees the namespace.
    pub fn personality_of(&self) -> (r: u8)
        ensures
            r == self@.personality,
    {
        self.personality
    }

    /// Changes how the client sees the namespace.
    pub fn set_personality(&mut self, personality: u8)
        ensures
            final(self)@ == (ClientView { personality, ..old(self)@ }),
    {
        self.personality = personality;
        assert(self@.slots =~= old(self)@.slots);
    }

    /// Descriptor `fd`; one that is out of range is never in use.
    pub fn slot(&self, fd: usize) -> (r: OpenSlot)
        ensures
            fd < MAX_CLIENT_OBJECTS ==> r == self@.slots[fd as int],
            fd >= MAX_CLIENT_OBJECTS ==> !r.active,
            self@.slots.len() == MAX_CLIENT_OBJECTS,
    {
        if fd < MAX_CLIENT_OBJECTS && fd < self.slots.len() {
            self.slots[fd]
        } else {
            OpenSlot::empty()
        }
    }

    /// Replaces descriptor `fd`.
    pub fn set_slot(&mut self, fd: usize, s: OpenSlot)
        requires
            fd < MAX_CLIENT_OBJECTS,
        ensures
            final(self)@ == old(self)@.with_slot(fd as int, s),
    {
        let ghost before = self@;
        while self.slots.len() <= fd
            invariant
                fd < MAX_CLIENT_OBJECTS,
                self@ == before,
                before == old(self)@,
            decreases fd + 1 - self.slots@.len(),
        {
            self.slots.push(OpenSlot::empty());
            assert(self@.slots =~= before.slots);
        }
        self.slots.set(fd, s);
        assert(self@.slots =~= before.slots.update(fd as int, s));
    }

    /// The lowest descriptor that is not in use.
    pub fn first_free(&self) -> (r: Option<usize>)
        ensures
            r == free_fd(self@.slots, 0),
            r matches Some(fd) ==> fd < MAX_CLIENT_OBJECTS && !self@.slots[fd as int].active,
    {
        let mut fd: usize = 0;
        while fd < MAX_CLIENT_OBJECTS
            invariant
                fd <= MAX_CLIENT_OBJECTS,
                free_fd(self@.slots, 0) == free_fd(self@.slots, fd as int),
                self@.slots.len() == MAX_CLIENT_OBJECTS,
            decreases MAX_CLIENT_OBJECTS - fd,
        {
            if !self.slot(fd).active {
                return Some(fd);
            }
            fd = fd + 1;
        }
        None
    }
}

/// A pipe: its queued bytes and how many open files may read and write it.
pub struct PipeState {
    pub ring: ByteRing,
    pub read_refs: u32,
    pub write_refs: u32,
}

/// A pipe with its queue as a sequence of at most `room` bytes.
#[verifier::ext_equal]
pub struct PipeView {
    pub data: Seq<u8>,
    pub room: int,
    pub read_refs: u32,
    pub write_refs: u32,
}

impl View for PipeState {
    type V = PipeView;

    open spec fn view(&self) -> PipeView {
        PipeView {
            data: self.ring@,
            room: self.ring.capacity(),
            read_refs: self.read_refs,
            write_refs: self.write_refs,
        }
    }
}

impl PipeView {
    /// A pipe that nobody has open.
    pub open spec fn fresh() -> PipeView {
        PipeView { data: Seq::empty(), room: PIPE_BUF_SIZE - 1, read_refs: 0, write_refs: 0 }
    }
}

impl PipeState {
    /// A pipe that nobody has open.
    pub fn new() -> (r: PipeState)
        ensures
            r@ == PipeView::fresh(),
    {
        PipeState { ring: ByteRing::new(PIPE_BUF_SIZE), read_refs: 0, write_refs: 0 }
    }
}

/// A named pipe: the vnode that names it and the pipe behind it, once somebody opened it.
#[derive(Clone, Copy, PartialEq, Eq, Structural, Debug)]
pub struct FifoState {
    pub vnode: Handle,
    pub pipe: Handle,
    pub unlinked: bool,
}

impl View for FifoState {
    type V = FifoState;

    open spec fn view(&self) -> FifoState {
        *self
    }
}

/// A shared-memory object.
#[derive(Clone, Copy, PartialEq, Eq, Structural, Debug)]
pub struct ShmState {
    pub vnode: Handle,
    pub id: u64,
    pub open_refs: u32,
    pub unlinked: bool,
}

impl View for ShmState {
    type V = ShmState;

    open spec fn view(&self) -> ShmState {
        *self
    }
}

/// An event-poll object.
#[derive(Clone, Copy, PartialEq, Eq, Structural, Debug)]
pub struct EpollState {
    pub active: bool,
}

impl View for EpollState {
    type V = EpollState;

    open spec fn view(&self) -> EpollState {
        *self
    }
}

/// How a local socket transfers data.
#[derive(Clone, Copy, PartialEq, Eq, Structural, Debug)]
pub enum SockType {
    Stream,
    Dgram,
    SeqPacket,
}

/// One queued datagram.
pub struct Dgram {
    pub src_vnode: Handle,
    pub src_path: Vec<u8>,
    pub src_abstract: Vec<u8>,
    pub rights: Vec<Handle>,
    pub data: Vec<u8>,
}

/// A queued datagram with its parts as sequences.
#[verifier::ext_equal]
pub struct DgramView {
    pub src_vnode: Handle,
    pub src_path: Seq<u8>,
    pub src_abstract: Seq<u8>,
    pub rights: Seq<Handle>,
    pub data: Seq<u8>,
}

impl View for Dgram {
    type V = DgramView;

    open spec fn view(&self) -> DgramView {
        DgramView {
            src_vnode: self.src_vnode,
            src_path: self.src_path@,
            src_abstract: self.src_abstract@,
            rights: self.rights@,
            data: self.data@,
        }
    }
}

/// Datagrams with their parts as sequences.
pub open spec fn dgram_views(s: Seq<Dgram>) -> Seq<DgramView> {
    s.map_values(|d: Dgram| d@)
}

/// A local socket.
pub struct UnixSocketState {
    pub socket_type: SockType,
    pub refcount: u32,
    pub peer: Handle,
    pub peer_closed: bool,
    pub bound_vnode: Handle,
    pub peer_name_vnode: Handle,
    pub peer_name_path: Vec<u8>,
    pub peer_name_abstract: Vec<u8>,
    pub ring: ByteRing,
    /// Open files sent along with the queued bytes.
    pub rights: Vec<Handle>,
    pub dgrams: Vec<Dgram>,
    /// Connected sockets that wait to be accepted.
    pub accepts: Vec<Handle>,
}

/// A local socket with its queues as sequences.
#[verifier::ext_equal]
pub struct SockView {
    pub socket_type: SockType,
    pub refcount: u32,
    pub peer: Handle,
    pub peer_closed: bool,
    pub bound_vnode: Handle,
    pub peer_name_vnode: Handle,
    pub peer_name_path: Seq<u8>,
    pub peer_name_abstract: Seq<u8>,
    pub data: Seq<u8>,
    pub room: int,
    pub rights: Seq<Handle>,
    pub dgrams: Seq<DgramView>,
    pub accepts: Seq<Handle>,
}

impl View for UnixSocketState {
    type V = SockView;

    open spec fn view(&self) -> SockView {
        SockView {
            socket_type: self.socket_type,
            refcount: self.refcount,
            peer: self.peer,
            peer_closed: self.peer_closed,
            bound_vnode: self.bound_vnode,
            peer_name_vnode: self.peer_name_vnode,
            peer_name_path: self.peer_name_path@,
            peer_name_abstract: self.peer_name_abstract@,
            data: self.ring@,
            room: self.ring.capacity(),
            rights: self.rights@,
            dgrams: dgram_views(self.dgrams@),
            accepts: self.accepts@,
        }
    }
}

impl SockView {
    /// A socket that is connected to nothing.
    pub open spec fn fresh() -> SockView {
        SockView {
            socket_type: SockType::Stream,
            refcount: 0,
            peer: Handle::invalid(),
            peer_closed: false,
            bound_vnode: Handle::invalid(),
            peer_name_vnode: Handle::invalid(),
            peer_name_path: Seq::empty(),
            peer_name_abstract: Seq::empty(),
            data: Seq::empty(),
            room: UNIX_SOCKET_BUF_SIZE - 1,
            rights: Seq::empty(),
            dgrams: Seq::empty(),
            accepts: Seq::empty(),
        }
    }
}

impl UnixSocketState {
    /// A socket that is connected to nothing.
    pub fn new() -> (r: UnixSocketState)
        ensures
            r@ == SockView::fresh(),
    {
        let r = UnixSocketState {
            socket_type: SockType::Stream,
            refcount: 0,
            peer: Handle::invalid(),
            peer_closed: false,
            bound_vnode: Handle::invalid(),
            peer_name_vnode: Handle::invalid(),
            peer_name_path: Vec::new(),
            peer_name_abstract: Vec::new(),
            ring: ByteRing::new(UNIX_SOCKET_BUF_SIZE),
            rights: Vec::new(),
            dgrams: Vec::new(),
            accepts: Vec::new(),
        };
        assert(r@.dgrams =~= Seq::<DgramView>::empty());
        r
    }
}

} // verus!
