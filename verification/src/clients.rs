//! Clients and their descriptors.

use crate::arena::Handle;
use crate::files::{
    cloexec_bit, free_fd, normalize_status_flags, ClientState, ClientView, EpollState, ObjKind,
    OpenFile, OpenSlot, PathAnchor, PipeView, ShmState, SockView, UnixSocketState, FD_CLOEXEC,
    MAX_CLIENT_OBJECTS, O_ACCMODE, O_RDONLY, O_WRONLY, PERS_POSIX, PERS_WIN32,
};
use crate::fs::tmpfs_dir::one_more;
use crate::release::Release;
use crate::state::{VfsModel, VfsState};
use crate::win32::{entry_of, with_copy, with_dir, with_seed, without};
use vstd::prelude::*;

verus! {

/// The last drive, Z.
pub const LAST_DRIVE: usize = 25;

/// The drive that a client without drive directories is on.
pub const DRIVE_C: usize = 2;

impl VfsModel {
    /// Descriptor `fd` of client `c`, if it is in use.
    pub open spec fn slot_of(self, c: Handle, fd: int) -> Option<OpenSlot> {
        match self.clients.entry(c) {
            Some(cl) => if 0 <= fd < MAX_CLIENT_OBJECTS && cl.slots[fd].active {
                Some(cl.slots[fd])
            } else {
                None
            },
            None => None,
        }
    }

    /// The open file behind descriptor `fd` of client `c`.
    pub open spec fn file_of(self, c: Handle, fd: int) -> Option<OpenFile> {
        match self.slot_of(c, fd) {
            Some(s) => self.open_files.entry(s.open_file),
            None => None,
        }
    }

    /// The lowest unused descriptor of client `c`.
    pub open spec fn free_fd_of(self, c: Handle) -> Option<usize> {
        match self.clients.entry(c) {
            Some(cl) => free_fd(cl.slots, 0),
            None => None,
        }
    }

    /// The state with descriptor `fd` of client `c` replaced.
    pub open spec fn with_slot(self, c: Handle, fd: int, s: OpenSlot) -> VfsModel {
        match self.clients.entry(c) {
            Some(cl) => VfsModel { clients: self.clients.put(c, cl.with_slot(fd, s)), ..self },
            None => self,
        }
    }

    /// The state with one hold more on open file `h`.
    pub open spec fn retained(self, h: Handle) -> VfsModel {
        match self.open_files.entry(h) {
            Some(f) => VfsModel {
                open_files: self.open_files.put(
                    h,
                    OpenFile { refcount: one_more(f.refcount), ..f },
                ),
                ..self
            },
            None => self,
        }
    }

    /// The state with a new open file that nobody holds; its vnode has one descriptor more.
    pub open spec fn file_opened(self, f: OpenFile) -> VfsModel {
        match self.open_files.next() {
            Some(h) => VfsModel { open_files: self.open_files.grown(f), ..self }.vnode_opened(
                f.vnode,
            ),
            None => self,
        }
    }

    /// The state with one more open end on a pipe.
    pub open spec fn pipe_opened(self, pipe: Handle, flags: u32) -> VfsModel {
        match self.pipes.entry(pipe) {
            None => self,
            Some(p) => VfsModel {
                pipes: self.pipes.put(
                    pipe,
                    PipeView {
                        read_refs: if flags & O_ACCMODE != O_WRONLY {
                            one_more(p.read_refs)
                        } else {
                            p.read_refs
                        },
                        write_refs: if flags & O_ACCMODE != O_RDONLY {
                            one_more(p.write_refs)
                        } else {
                            p.write_refs
                        },
                        ..p
                    },
                ),
                ..self
            },
        }
    }

    /// The object that an open file refers to is there.
    pub open spec fn object_there(self, f: OpenFile) -> bool {
        match f.kind {
            ObjKind::Pipe => self.pipes.has(f.pipe),
            ObjKind::Shm => self.shms.has(f.shm),
            ObjKind::Socket => f.unix_socket.is_valid() ==> self.unix_sockets.has(f.unix_socket),
            _ => true,
        }
    }

    /// The state with one open file more on the object that `f` refers to.
    pub open spec fn object_opened(self, f: OpenFile) -> VfsModel {
        match f.kind {
            ObjKind::Pipe => self.pipe_opened(f.pipe, f.status_flags),
            ObjKind::Shm => match self.shms.entry(f.shm) {
                Some(sh) => VfsModel {
                    shms: self.shms.put(
                        f.shm,
                        ShmState { open_refs: one_more(sh.open_refs), ..sh },
                    ),
                    ..self
                },
                None => self,
            },
            ObjKind::Socket => match self.unix_sockets.entry(f.unix_socket) {
                Some(sk) => VfsModel {
                    unix_sockets: self.unix_sockets.put(
                        f.unix_socket,
                        SockView { refcount: one_more(sk.refcount), ..sk },
                    ),
                    ..self
                },
                None => self,
            },
            _ => self,
        }
    }

    /// The state after descriptor `fd` of client `c` was tied to open file `of`, which
    /// nobody else holds.
    pub open spec fn fd_bound(self, c: Handle, fd: int, of: Handle, fd_flags: u32) -> VfsModel {
        let s = self.with_slot(c, fd, OpenSlot { active: true, fd_flags, open_file: of });
        match s.open_files.entry(of) {
            Some(f) => VfsModel {
                open_files: s.open_files.put(of, OpenFile { refcount: 1, ..f }),
                ..s
            },
            None => s,
        }
    }

    /// Opens `f` on the lowest free descriptor of client `c`. Without a descriptor, without
    /// room for the open file, or without the object that it refers to there is no result;
    /// in the last case the open file has been made and stays.
    pub open spec fn opened_on_fd(self, c: Handle, f: OpenFile, fd_flags: u32) -> (
        VfsModel,
        Option<usize>,
    ) {
        match (self.free_fd_of(c), self.open_files.next()) {
            (Some(fd), Some(of)) => {
                let s = self.file_opened(f);
                if s.object_there(f) {
                    (s.object_opened(f).fd_bound(c, fd as int, of, fd_flags), Some(fd))
                } else {
                    (s, None)
                }
            },
            _ => (self, None),
        }
    }

    /// Opens `f` on the lowest free descriptor of client `c` without a look at the object that
    /// it may refer to.
    pub open spec fn bare_on_fd(self, c: Handle, f: OpenFile, fd_flags: u32) -> (
        VfsModel,
        Option<usize>,
    ) {
        match (self.free_fd_of(c), self.open_files.next()) {
            (Some(fd), Some(of)) => (
                self.file_opened(f).fd_bound(c, fd as int, of, fd_flags),
                Some(fd),
            ),
            _ => (self, None),
        }
    }

    /// Opens an event-poll object on a descriptor of client `c`.
    pub open spec fn epoll_on_fd(self, c: Handle) -> (VfsModel, Option<usize>) {
        match (self.free_fd_of(c), self.epolls.next()) {
            (Some(fd), Some(e)) => {
                let s = VfsModel {
                    epolls: self.epolls.grown(EpollState { active: true }),
                    ..self
                };
                match s.open_files.next() {
                    None => (VfsModel { epolls: s.epolls.dropped(e), ..s }, None),
                    Some(of) => s.opened_on_fd(
                        c,
                        OpenFile { epoll: e, kind: ObjKind::Epoll, ..OpenFile::zeroed() },
                        0,
                    ),
                }
            },
            _ => (self, None),
        }
    }

    /// Makes descriptor `fd` of client `c` share open file `of`; what it referred to before
    /// is let go of.
    pub open spec fn installed(self, c: Handle, fd: int, of: Handle, fd_flags: u32) -> (
        VfsModel,
        bool,
    ) {
        if fd >= MAX_CLIENT_OBJECTS || !self.open_files.has(of) {
            (self, false)
        } else {
            let held = self.retained(of);
            match held.clients.entry(c) {
                None => (held.file_released(of), false),
                Some(cl) => {
                    let s = if cl.slots[fd].active && cl.slots[fd].open_file.is_valid() {
                        held.file_released(cl.slots[fd].open_file)
                    } else {
                        held
                    };
                    (
                        s.with_slot(
                            c,
                            fd,
                            OpenSlot {
                                active: true,
                                fd_flags: fd_flags & FD_CLOEXEC,
                                open_file: of,
                            },
                        ),
                        true,
                    )
                },
            }
        }
    }

    /// Shares open file `of` on the lowest free descriptor of client `c`.
    pub open spec fn shared_on_fd(self, c: Handle, of: Handle, fd_flags: u32) -> (
        VfsModel,
        Option<usize>,
    ) {
        match self.free_fd_of(c) {
            None => (self, None),
            Some(fd) => {
                let (s, ok) = self.installed(c, fd as int, of, fd_flags);
                (
                    s,
                    if ok {
                        Some(fd)
                    } else {
                        None
                    },
                )
            },
        }
    }

    /// Closes descriptor `fd` of client `c`; nothing happens where it is not in use.
    pub open spec fn slot_released(self, c: Handle, fd: int) -> VfsModel {
        match self.slot_of(c, fd) {
            None => self,
            Some(s) => self.with_slot(c, fd, OpenSlot::empty()).file_released(s.open_file),
        }
    }

    /// Closes the descriptors of client `c` below `n`, from the lowest up.
    pub open spec fn slots_released(self, c: Handle, n: int) -> VfsModel
        decreases n,
    {
        if n <= 0 {
            self
        } else {
            self.slots_released(c, n - 1).slot_released(c, n - 1)
        }
    }

    /// The state without the client of `badge`, all of whose descriptors were closed.
    pub open spec fn client_removed(self, badge: u64) -> VfsModel {
        match self.client_of_badge(badge) {
            None => self,
            Some(c) => {
                let s = VfsModel { win32: without(self.win32, c), ..self }.slots_released(
                    c,
                    MAX_CLIENT_OBJECTS as int,
                );
                VfsModel { clients: s.clients.dropped(c), ..s }
            },
        }
    }

    /// The anchor of the root directory.
    pub open spec fn root_anchor(self) -> PathAnchor {
        match self.root_vnode() {
            Some(v) => match self.anchor_of(v) {
                Some(a) => a,
                None => PathAnchor::invalid(),
            },
            None => PathAnchor::invalid(),
        }
    }

    /// The state in which client `c` has drive directories.
    pub open spec fn drives_seeded(self, c: Handle) -> VfsModel {
        VfsModel { win32: with_seed(self.win32, c, self.root_anchor()), ..self }
    }

    /// The drive that client `c` is on.
    pub open spec fn drive_of(self, c: Handle) -> usize {
        match entry_of(self.win32, c, 0) {
            Some(i) => if self.win32[i].current_drive <= LAST_DRIVE {
                self.win32[i].current_drive as usize
            } else {
                LAST_DRIVE
            },
            None => DRIVE_C,
        }
    }

    /// Where a path on a drive starts, and the state after the lookup.
    pub open spec fn drive_base(
        self,
        c: Handle,
        drive: usize,
        absolute: bool,
        drive_root: Option<Handle>,
    ) -> (VfsModel, Option<Handle>) {
        let dir = match entry_of(self.win32, c, 0) {
            Some(i) => if drive < self.win32[i].dirs.len()
                && self.win32[i].dirs[drive as int].is_valid() {
                Some(self.win32[i].dirs[drive as int])
            } else {
                None
            },
            None => None,
        };
        let fallback = if drive_root is Some {
            drive_root
        } else {
            self.root_vnode()
        };
        if drive > LAST_DRIVE {
            (self, None)
        } else if absolute || dir is None {
            (self, fallback)
        } else {
            (
                self.key_looked_up(dir->0.vnode),
                if self.vnode_of_key(dir->0.vnode) is Some {
                    self.vnode_of_key(dir->0.vnode)
                } else {
                    fallback
                },
            )
        }
    }

    /// The state in which vnode `v` is the directory of Win32 client `c` on `drive`.
    pub open spec fn drive_dir_set(self, c: Handle, drive: int, v: Handle) -> VfsModel {
        if self.clients.has(c) && self.clients.at(c).personality == PERS_WIN32
            && drive <= LAST_DRIVE && self.vnodes.has(v) {
            VfsModel { win32: with_dir(self.win32, c, drive, self.anchor_of(v)->0), ..self }
        } else {
            self
        }
    }

    /// The client of `badge` with the personality asked for, made if there is none.
    pub open spec fn client_ensured(self, badge: u64, personality: u8) -> (
        VfsModel,
        Option<Handle>,
    ) {
        let target = known_personality(personality);
        match self.client_of_badge(badge) {
            Some(c) => {
                let was = self.clients.at(c).personality;
                let s = VfsModel {
                    clients: self.clients.put(
                        c,
                        ClientView { personality: target, ..self.clients.at(c) },
                    ),
                    ..self
                };
                (
                    if was == PERS_WIN32 && target != PERS_WIN32 {
                        VfsModel { win32: without(s.win32, c), ..s }
                    } else if target == PERS_WIN32 {
                        s.drives_seeded(c)
                    } else {
                        s
                    },
                    Some(c),
                )
            },
            None => match self.clients.next() {
                None => (self, None),
                Some(c) => {
                    let blank = ClientView::fresh(
                        0,
                        PERS_POSIX,
                        Handle::invalid(),
                        PathAnchor::invalid(),
                    );
                    let kept = VfsModel { clients: self.clients.grown(blank), ..self };
                    match self.root_vnode() {
                        None => (kept, None),
                        Some(v) => match self.anchor_of(v) {
                            None => (kept, None),
                            Some(a) => {
                                let s = VfsModel {
                                    clients: self.clients.grown(
                                        ClientView::fresh(badge, target, self.global_ns, a),
                                    ),
                                    ..self
                                };
                                (
                                    if target == PERS_WIN32 {
                                        s.drives_seeded(c)
                                    } else {
                                        s
                                    },
                                    Some(c),
                                )
                            },
                        },
                    }
                },
            },
        }
    }
}

/// The personality that a request for `personality` gives: Win32 or POSIX.
#[verifier::allow_in_spec]
pub fn known_personality(personality: u8) -> (r: u8)
    returns
        (if personality == PERS_WIN32 {
            PERS_WIN32
        } else {
            PERS_POSIX
        }),
{
    if personality == PERS_WIN32 {
        PERS_WIN32
    } else {
        PERS_POSIX
    }
}

impl VfsState {
    /// Puts a client on its drives.
    pub fn seed_win32_client_state(&mut self, client: Handle)
        ensures
            final(self)@ == old(self)@.drives_seeded(client),
    {
        let root: PathAnchor = self.root_place();
        self.win32.ensure_seeded(client, root);
    }

    /// The anchor of the root directory.
    fn root_place(&self) -> (r: PathAnchor)
        ensures
            r == self@.root_anchor(),
    {
        match self.root_vnode() {
            Some(v) => match self.anchor_for_vnode(v) {
                Some(a) => a,
                None => PathAnchor::invalid(),
            },
            None => PathAnchor::invalid(),
        }
    }

    /// The drive that a client is on; without a record it is drive C.
    pub fn win32_current_drive(&self, client: Handle) -> (r: usize)
        ensures
            r == self@.drive_of(client),
    {
        match self.win32.current_drive(client) {
            Some(d) => if d as usize <= LAST_DRIVE {
                d as usize
            } else {
                LAST_DRIVE
            },
            None => DRIVE_C,
        }
    }

    /// Where a path on a drive starts: the client's directory there for a relative path, as
    /// long as it still exists, else the root of the drive, else the root directory.
    pub fn win32_drive_base_vnode(
        &mut self,
        client: Handle,
        drive: usize,
        absolute: bool,
        drive_root: Option<Handle>,
    ) -> (r: Option<Handle>)
        ensures
            (final(self)@, r) == old(self)@.drive_base(client, drive, absolute, drive_root),
    {
        if drive > LAST_DRIVE {
            return None;
        }
        if !absolute {
            if let Some(anchor) = self.win32.drive_cwd_anchor(client, drive) {
                if let Some(vh) = self.resolve_anchor_vnode(anchor) {
                    return Some(vh);
                }
            }
        }
        if drive_root.is_some() {
            return drive_root;
        }
        self.root_vnode()
    }

    /// Remembers a directory as the client's on the drive that it is on.
    pub fn update_win32_client_cwd(&mut self, client: Handle, vnode: Handle)
        ensures
            final(self)@ == old(self)@.drive_dir_set(
                client,
                old(self)@.drive_of(client) as int,
                vnode,
            ),
    {
        let drive: usize = self.win32_current_drive(client);
        self.update_win32_client_cwd_for_drive(client, drive, vnode);
    }

    /// Remembers a directory as the client's on a drive.
    pub fn update_win32_client_cwd_for_drive(&mut self, client: Handle, drive: usize, vnode: Handle)
        ensures
            final(self)@ == old(self)@.drive_dir_set(client, drive as int, vnode),
    {
        match self.clients.get(client) {
            Some(c) => {
                if c.personality_of() != PERS_WIN32 || drive > LAST_DRIVE {
                    return;
                }
            },
            None => {
                return;
            },
        }
        if let Some(anchor) = self.anchor_for_vnode(vnode) {
            self.win32.set_drive_cwd(client, drive, anchor);
        }
    }

    /// Puts client `dst` on the drives and directories of `src`.
    pub fn clone_win32_client_state(&mut self, src: Handle, dst: Handle)
        ensures
            final(self)@ == (VfsModel {
                win32: with_copy(old(self)@.win32, src, dst, old(self)@.root_anchor()),
                ..old(self)@
            }),
    {
        let root: PathAnchor = self.root_place();
        self.win32.clone_from(src, dst, root);
    }

    /// The client of `badge`, made if there is none, with the personality asked for.
    pub fn ensure_client(&mut self, badge: u64, personality: u8) -> (r: Option<Handle>)
        ensures
            (final(self)@, r) == old(self)@.client_ensured(badge, personality),
    {
        let target: u8 = known_personality(personality);
        if let Some(c) = self.lookup_client(badge) {
            let mut was: u8 = PERS_POSIX;
            if let Some(cl) = self.clients.get_mut(c) {
                was = cl.personality_of();
                cl.set_personality(target);
            }
            if was == PERS_WIN32 && target != PERS_WIN32 {
                self.win32.deregister(c);
            } else if target == PERS_WIN32 {
                self.seed_win32_client_state(c);
            }
            return Some(c);
        }
        let blank = ClientState::new(0, PERS_POSIX, Handle::invalid(), PathAnchor::invalid());
        let ghost before = self@;
        let c: Handle = match self.clients.reserve(blank) {
            Some(c) => c,
            None => {
                return None;
            },
        };
        let root: Handle = match self.root_vnode() {
            Some(v) => v,
            None => {
                return None;
            },
        };
        let anchor: PathAnchor = match self.anchor_for_vnode(root) {
            Some(a) => a,
            None => {
                return None;
            },
        };
        let _ = self.clients.set(c, ClientState::new(badge, target, self.global_ns, anchor));
        proof {
            before.clients.lemma_grown_put(
                ClientView::fresh(0, PERS_POSIX, Handle::invalid(), PathAnchor::invalid()),
                ClientView::fresh(badge, target, before.global_ns, anchor),
            );
        }
        if target == PERS_WIN32 {
            self.seed_win32_client_state(c);
        }
        Some(c)
    }

    /// Forgets the client of `badge` and closes all it had open; `false` when there is none.
    pub fn remove_client(&mut self, badge: u64) -> (r: bool)
        ensures
            r == (old(self)@.client_of_badge(badge) is Some),
            final(self)@ == old(self)@.client_removed(badge),
    {
        let c: Handle = match self.lookup_client(badge) {
            Some(c) => c,
            None => {
                return false;
            },
        };
        self.win32.deregister(c);
        let ghost start = self@;
        let mut fd: usize = 0;
        proof {
            self.unix_sockets.lemma_wf();
        }
        while fd < MAX_CLIENT_OBJECTS
            invariant
                fd <= MAX_CLIENT_OBJECTS,
                self@ == start.slots_released(c, fd as int),
                self@.clients.has(c),
            decreases MAX_CLIENT_OBJECTS - fd,
        {
            proof {
                self.unix_sockets.lemma_wf();
            }
            let ghost before = self@;
            let _ = self.release_client_slot(c, fd);
            proof {
                if before.slot_of(c, fd as int) is Some {
                    let s = before.with_slot(c, fd as int, OpenSlot::empty());
                    s.lemma_settled_frame(
                        seq![Release::File(before.slot_of(c, fd as int)->0.open_file)],
                    );
                }
            }
            fd = fd + 1;
        }
        self.clients.release(c)
    }

    /// Descriptor `fd` of a client, if it is in use.
    pub fn client_slot(&self, client: Handle, fd: usize) -> (r: Option<OpenSlot>)
        ensures
            r == self@.slot_of(client, fd as int),
    {
        match self.clients.get(client) {
            Some(cl) => {
                let s: OpenSlot = cl.slot(fd);
                if s.active {
                    Some(s)
                } else {
                    None
                }
            },
            None => None,
        }
    }

    /// Replaces descriptor `fd` of a client if it is in use.
    pub fn set_client_slot(&mut self, client: Handle, fd: usize, s: OpenSlot) -> (r: bool)
        ensures
            r == (old(self)@.slot_of(client, fd as int) is Some),
            final(self)@ == (if r {
                old(self)@.with_slot(client, fd as int, s)
            } else {
                old(self)@
            }),
    {
        if self.client_slot(client, fd).is_none() {
            return false;
        }
        if let Some(cl) = self.clients.get_mut(client) {
            cl.set_slot(fd, s);
        }
        true
    }

    /// The handle of the open file behind a descriptor.
    pub fn client_open_file_handle(&self, client: Handle, fd: usize) -> (r: Option<Handle>)
        ensures
            r == (match self@.slot_of(client, fd as int) {
                Some(s) => Some(s.open_file),
                None => None,
            }),
    {
        match self.client_slot(client, fd) {
            Some(s) => Some(s.open_file),
            None => None,
        }
    }

    /// The open file behind a descriptor.
    pub fn client_open_file(&self, client: Handle, fd: usize) -> (r: Option<OpenFile>)
        ensures
            r == self@.file_of(client, fd as int),
    {
        match self.client_open_file_handle(client, fd) {
            Some(h) => match self.open_files.get(h) {
                Some(f) => Some(*f),
                None => None,
            },
            None => None,
        }
    }

    /// Replaces the open file behind a descriptor; `false` when there is none.
    pub fn set_client_open_file(&mut self, client: Handle, fd: usize, f: OpenFile) -> (r: bool)
        ensures
            r == (old(self)@.file_of(client, fd as int) is Some),
            final(self)@ == (if r {
                VfsModel {
                    open_files: old(self)@.open_files.put(
                        old(self)@.slot_of(client, fd as int)->0.open_file,
                        f,
                    ),
                    ..old(self)@
                }
            } else {
                old(self)@
            }),
    {
        match self.client_open_file_handle(client, fd) {
            Some(h) => self.open_files.set(h, f),
            None => false,
        }
    }

    /// The directory behind a descriptor and how far it was listed.
    pub fn client_directory_slot(&self, client: Handle, fd: usize) -> (r: Option<(Handle, u8, u64)>)
        ensures
            r == (match self@.file_of(client, fd as int) {
                Some(f) => Some((f.vnode, f.dir_cursor_state, f.dir_cursor)),
                None => None,
            }),
    {
        match self.client_open_file(client, fd) {
            Some(f) => Some((f.vnode, f.dir_cursor_state, f.dir_cursor)),
            None => None,
        }
    }

    /// The lowest descriptor of a client that is not in use.
    pub fn first_free_fd(&self, client: Handle) -> (r: Option<usize>)
        ensures
            r == self@.free_fd_of(client),
            r matches Some(fd) ==> fd < MAX_CLIENT_OBJECTS,
    {
        match self.clients.get(client) {
            Some(cl) => cl.first_free(),
            None => None,
        }
    }

    /// Adds a hold to an open file; `false` when there is no such file.
    pub fn retain_open_file_handle(&mut self, handle: Handle) -> (r: bool)
        ensures
            r == old(self)@.open_files.has(handle),
            final(self)@ == old(self)@.retained(handle),
    {
        match self.open_files.get_mut(handle) {
            Some(f) => {
                f.refcount = f.refcount.saturating_add(1);
                true
            },
            None => false,
        }
    }

    /// Makes descriptor `fd` share an open file; `false` when there is no such descriptor,
    /// client or file.
    pub fn install_client_slot_shared(
        &mut self,
        client: Handle,
        fd: usize,
        open_file: Handle,
        fd_flags: u32,
    ) -> (r: bool)
        ensures
            (final(self)@, r) == old(self)@.installed(client, fd as int, open_file, fd_flags),
    {
        if fd >= MAX_CLIENT_OBJECTS || !self.retain_open_file_handle(open_file) {
            return false;
        }
        let ghost held = self@;
        let old_file: Handle = match self.clients.get(client) {
            Some(cl) => {
                let s: OpenSlot = cl.slot(fd);
                if s.active {
                    s.open_file
                } else {
                    Handle::invalid()
                }
            },
            None => {
                self.release_open_file(open_file);
                return false;
            },
        };
        proof {
            self.unix_sockets.lemma_wf();
            self@.lemma_settled_frame(seq![Release::File(old_file)]);
        }
        if old_file.is_valid() {
            self.release_open_file(old_file);
        }
        if let Some(cl) = self.clients.get_mut(client) {
            cl.set_slot(
                fd,
                OpenSlot { active: true, fd_flags: fd_flags & FD_CLOEXEC, open_file },
            );
        }
        true
    }

    /// Shares an open file on the lowest free descriptor of a client.
    pub fn alloc_shared_fd_for_client(
        &mut self,
        client: Handle,
        open_file: Handle,
        fd_flags: u32,
    ) -> (r: Option<usize>)
        ensures
            (final(self)@, r) == old(self)@.shared_on_fd(client, open_file, fd_flags),
    {
        match self.first_free_fd(client) {
            Some(fd) => {
                if self.install_client_slot_shared(client, fd, open_file, fd_flags) {
                    Some(fd)
                } else {
                    None
                }
            },
            None => None,
        }
    }

    /// Makes an open file that nobody holds.
    pub(crate) fn alloc_open_file(&mut self, f: OpenFile) -> (r: Option<Handle>)
        ensures
            r == old(self)@.open_files.next(),
            final(self)@ == old(self)@.file_opened(f),
    {
        match self.open_files.reserve(f) {
            Some(h) => {
                let _ = self.retain_socket_name_vnode(f.vnode);
                Some(h)
            },
            None => None,
        }
    }

    /// One open file more on the object that `f` refers to; `false` when it is not there.
    fn open_object(&mut self, f: OpenFile) -> (r: bool)
        ensures
            r == old(self)@.object_there(f),
            final(self)@ == old(self)@.object_opened(f),
    {
        match f.kind {
            ObjKind::Pipe => {
                let access: u32 = f.status_flags & O_ACCMODE;
                match self.pipes.get_mut(f.pipe) {
                    Some(p) => {
                        if access != O_WRONLY {
                            p.read_refs = p.read_refs.saturating_add(1);
                        }
                        if access != O_RDONLY {
                            p.write_refs = p.write_refs.saturating_add(1);
                        }
                        true
                    },
                    None => false,
                }
            },
            ObjKind::Shm => match self.shms.get_mut(f.shm) {
                Some(sh) => {
                    sh.open_refs = sh.open_refs.saturating_add(1);
                    true
                },
                None => false,
            },
            ObjKind::Socket => match self.unix_sockets.get_mut(f.unix_socket) {
                Some(sk) => {
                    sk.refcount = sk.refcount.saturating_add(1);
                    true
                },
                None => !f.unix_socket.is_valid(),
            },
            _ => true,
        }
    }

    /// Opens `f` on the lowest free descriptor of a client.
    pub fn open_on_fd(&mut self, client: Handle, f: OpenFile, fd_flags: u32) -> (r: Option<usize>)
        ensures
            (final(self)@, r) == old(self)@.opened_on_fd(client, f, fd_flags),
    {
        let fd: usize = match self.first_free_fd(client) {
            Some(fd) => fd,
            None => {
                return None;
            },
        };
        let of: Handle = match self.alloc_open_file(f) {
            Some(h) => h,
            None => {
                return None;
            },
        };
        if !self.open_object(f) {
            return None;
        }
        self.bind_fd(client, fd, of, fd_flags);
        Some(fd)
    }

    fn bind_fd(&mut self, client: Handle, fd: usize, of: Handle, fd_flags: u32)
        requires
            fd < MAX_CLIENT_OBJECTS,
        ensures
            final(self)@ == old(self)@.fd_bound(client, fd as int, of, fd_flags),
    {
        if let Some(cl) = self.clients.get_mut(client) {
            cl.set_slot(fd, OpenSlot { active: true, fd_flags, open_file: of });
        }
        if let Some(f) = self.open_files.get_mut(of) {
            f.refcount = 1;
        }
    }

    /// Opens what a vnode stands for on a descriptor. No pipe, memory or socket is counted
    /// for it, whatever its kind.
    pub fn alloc_client_slot(&mut self, client: Handle, vnode: Handle, kind: ObjKind, flags: u32) -> (r:
        Option<usize>)
        ensures
            (final(self)@, r) == old(self)@.bare_on_fd(
                client,
                OpenFile {
                    vnode,
                    kind,
                    status_flags: normalize_status_flags(flags),
                    ..OpenFile::zeroed()
                },
                cloexec_bit(flags),
            ),
    {
        let mut f = OpenFile::zeroed();
        f.vnode = vnode;
        f.kind = kind;
        f.status_flags = normalize_status_flags(flags);
        let fd: usize = match self.first_free_fd(client) {
            Some(fd) => fd,
            None => {
                return None;
            },
        };
        match self.alloc_open_file(f) {
            Some(of) => {
                self.bind_fd(client, fd, of, cloexec_bit(flags));
                Some(fd)
            },
            None => None,
        }
    }

    /// Opens an end of a pipe on a descriptor.
    pub fn alloc_pipe_client_slot(&mut self, client: Handle, vnode: Handle, pipe: Handle, flags: u32) -> (r:
        Option<usize>)
        ensures
            (final(self)@, r) == old(self)@.opened_on_fd(
                client,
                OpenFile {
                    vnode,
                    pipe,
                    kind: ObjKind::Pipe,
                    status_flags: normalize_status_flags(flags),
                    ..OpenFile::zeroed()
                },
                cloexec_bit(flags),
            ),
    {
        let mut f = OpenFile::zeroed();
        f.vnode = vnode;
        f.pipe = pipe;
        f.kind = ObjKind::Pipe;
        f.status_flags = normalize_status_flags(flags);
        self.open_on_fd(client, f, cloexec_bit(flags))
    }

    /// Opens a shared-memory object on a descriptor.
    pub fn alloc_shm_client_slot(&mut self, client: Handle, vnode: Handle, shm: Handle, flags: u32) -> (r:
        Option<usize>)
        ensures
            (final(self)@, r) == old(self)@.opened_on_fd(
                client,
                OpenFile {
                    vnode,
                    shm,
                    kind: ObjKind::Shm,
                    status_flags: normalize_status_flags(flags),
                    ..OpenFile::zeroed()
                },
                cloexec_bit(flags),
            ),
    {
        let mut f = OpenFile::zeroed();
        f.vnode = vnode;
        f.shm = shm;
        f.kind = ObjKind::Shm;
        f.status_flags = normalize_status_flags(flags);
        self.open_on_fd(client, f, cloexec_bit(flags))
    }

    /// Makes an event-poll object and opens it on a descriptor.
    pub fn alloc_epoll_client_slot(&mut self, client: Handle) -> (r: Option<usize>)
        ensures
            (final(self)@, r) == old(self)@.epoll_on_fd(client),
    {
        if self.first_free_fd(client).is_none() {
            return None;
        }
        let epoll: Handle = match self.epolls.reserve(EpollState { active: true }) {
            Some(e) => e,
            None => {
                return None;
            },
        };
        let mut f = OpenFile::zeroed();
        f.epoll = epoll;
        f.kind = ObjKind::Epoll;
        let r = self.open_on_fd(client, f, 0);
        if r.is_none() {
            let _ = self.epolls.release(epoll);
        }
        r
    }

    /// Opens a network connection on a descriptor.
    pub fn alloc_socket_client_slot(&mut self, client: Handle, conn_id: u32, flags: u32) -> (r:
        Option<usize>)
        ensures
            (final(self)@, r) == old(self)@.opened_on_fd(
                client,
                OpenFile {
                    socket_conn_id: conn_id,
                    kind: ObjKind::Socket,
                    status_flags: normalize_status_flags(flags),
                    ..OpenFile::zeroed()
                },
                cloexec_bit(flags),
            ),
    {
        let mut f = OpenFile::zeroed();
        f.socket_conn_id = conn_id;
        f.kind = ObjKind::Socket;
        f.status_flags = normalize_status_flags(flags);
        self.open_on_fd(client, f, cloexec_bit(flags))
    }

    /// Makes a local socket that nobody has open.
    pub fn alloc_unix_socket(&mut self) -> (r: Option<Handle>)
        ensures
            r == old(self)@.unix_sockets.next(),
            final(self)@ == (VfsModel {
                unix_sockets: old(self)@.unix_sockets.grown(SockView::fresh()),
                ..old(self)@
            }),
            r matches Some(h) ==> h.is_valid(),
    {
        self.unix_sockets.reserve(UnixSocketState::new())
    }

    /// Opens a local socket on a descriptor. Where there is no such socket the open file has
    /// been made and stays.
    pub fn alloc_unix_socket_client_slot(&mut self, client: Handle, socket: Handle, flags: u32) -> (r:
        Option<usize>)
        ensures
            ({
                let f = OpenFile {
                    unix_socket: socket,
                    kind: ObjKind::Socket,
                    status_flags: normalize_status_flags(flags),
                    ..OpenFile::zeroed()
                };
                if socket.is_valid() {
                    (final(self)@, r) == old(self)@.opened_on_fd(client, f, cloexec_bit(flags))
                } else {
                    &&& r is None
                    &&& final(self)@ == if old(self)@.free_fd_of(client) is Some {
                        old(self)@.file_opened(f)
                    } else {
                        old(self)@
                    }
                }
            }),
    {
        let mut f = OpenFile::zeroed();
        f.unix_socket = socket;
        f.kind = ObjKind::Socket;
        f.status_flags = normalize_status_flags(flags);
        if !socket.is_valid() {
            if self.first_free_fd(client).is_some() {
                let _ = self.alloc_open_file(f);
            }
            return None;
        }
        self.open_on_fd(client, f, cloexec_bit(flags))
    }

    /// Makes an open file for a device, held by nobody.
    pub fn alloc_device_open_file(
        &mut self,
        vnode: Handle,
        dev_type: u8,
        pty_id: u32,
        generation: u32,
        flags: u32,
    ) -> (r: Option<Handle>)
        ensures
            r == old(self)@.open_files.next(),
            final(self)@ == old(self)@.file_opened(
                device_file(vnode, dev_type, pty_id, generation, flags),
            ),
    {
        self.alloc_open_file(device_file(vnode, dev_type, pty_id, generation, flags))
    }

    /// Opens a device on a descriptor.
    pub fn alloc_device_client_slot(
        &mut self,
        client: Handle,
        vnode: Handle,
        dev_type: u8,
        pty_id: u32,
        generation: u32,
        flags: u32,
    ) -> (r: Option<usize>)
        ensures
            (final(self)@, r) == old(self)@.opened_on_fd(
                client,
                device_file(vnode, dev_type, pty_id, generation, flags),
                cloexec_bit(flags),
            ),
    {
        let f: OpenFile = device_file(vnode, dev_type, pty_id, generation, flags);
        self.open_on_fd(client, f, cloexec_bit(flags))
    }

    /// Closes a descriptor; `false` when it is not in use.
    pub fn release_client_slot(&mut self, client: Handle, fd: usize) -> (r: bool)
        ensures
            r == (old(self)@.slot_of(client, fd as int) is Some),
            final(self)@ == old(self)@.slot_released(client, fd as int),
    {
        let s: OpenSlot = match self.client_slot(client, fd) {
            Some(s) => s,
            None => {
                return false;
            },
        };
        let _ = self.set_client_slot(client, fd, OpenSlot::empty());
        self.release_open_file(s.open_file);
        true
    }
}

/// An open file for a device, held by nobody.
#[verifier::allow_in_spec]
pub fn device_file(vnode: Handle, dev_type: u8, pty_id: u32, generation: u32, flags: u32) -> (r:
    OpenFile)
    returns
        (OpenFile {
            vnode,
            kind: ObjKind::Device,
            status_flags: normalize_status_flags(flags),
            device_dev_type: dev_type,
            device_pty_id: pty_id,
            device_generation: generation,
            ..OpenFile::zeroed()
        }),
{
    let mut f = OpenFile::zeroed();
    f.vnode = vnode;
    f.kind = ObjKind::Device;
    f.status_flags = normalize_status_flags(flags);
    f.device_dev_type = dev_type;
    f.device_pty_id = pty_id;
    f.device_generation = generation;
    f
}

/// A new descriptor is the lowest one that is not in use.
pub proof fn law_lowest_descriptor_first(slots: Seq<OpenSlot>, i: int)
    requires
        0 <= i,
        slots.len() <= MAX_CLIENT_OBJECTS,
    ensures
        match free_fd(slots, i) {
            Some(fd) => i <= fd < slots.len() && !slots[fd as int].active && forall|k: int|
                i <= k < fd ==> slots[k].active,
            None => forall|k: int| i <= k < slots.len() ==> slots[k].active,
        },
    decreases slots.len() - i,
{
    if i < slots.len() && slots[i].active {
        law_lowest_descriptor_first(slots, i + 1);
    }
}

/// Giving up a hold undoes taking it, as long as somebody else holds the open file and its
/// count has not reached its bound.
pub proof fn law_release_undoes_retain(m: VfsModel, h: Handle)
    requires
        m.unix_sockets.wf(),
        m.open_files.has(h),
        0 < m.open_files.at(h).refcount < u32::MAX,
    ensures
        m.retained(h).file_released(h) == m,
{
    let r = m.retained(h);
    let (s, more) = r.release_step(Release::File(h));
    assert(s.open_files.live =~= m.open_files.live);
    assert(s =~= m);
    assert(more =~= Seq::<Release>::empty());
    let work = seq![Release::File(h)];
    assert(more + work.drop_first() =~= Seq::<Release>::empty());
    assert(r.settled(work) == s.settled(more + work.drop_first()));
}

} // verus!
