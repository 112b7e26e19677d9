//! Giving a new client its three standard descriptors on a terminal.

use crate::arena::{packed, unpack_handle, unpacked, Handle};
use crate::backend_rpc::{
    op_started, table_full, BackendOpCtx, PendingBackendCompletion, PendingBackendJob, Progress, RpcCore,
    BACKEND_OP_TTYSRV_GET_GENERATION, BACKEND_OP_TTYSRV_OPEN_SLAVE,
};
use crate::bytes::{decimal, push_decimal};
use crate::clients::device_file;
use crate::continuation::fail_continuation;
use crate::files::{
    OpenFile, OpenSlot, DEV_CONSOLE, DEV_PTY_SLAVE, MAX_CLIENT_OBJECTS, O_RDWR, PERS_POSIX,
};
use crate::fs::saltyfs_done::{op_of, outcome_of};
use crate::fs::saltyfs_wire::{asks_words, call_outcome, one_word_request, two_word_request};
use crate::namei::{lookup_path_dynamic_absolute, plain_mode, rpc_same, walk_settled};
use crate::namei_resume::reply_sent;
use crate::path::is_absolute;
use crate::pending_ops::{
    pack_client_handle, unpack_client_handle, OpState, PendingOpId, PoolView, ReplyAction,
    PO_KIND_TTY_STDIO,
};
use crate::state::{VfsModel, VfsState};
use crate::status::Status;
use crate::wire::Opcode;
use vstd::prelude::*;
use vstd::slice::slice_to_vec;
use vstd::string::*;

verus! {

/// Number of the console among terminals.
pub const TTY_DEV_CONSOLE: u64 = 0x501;

/// Numbers of pseudo terminals start here.
pub const TTY_DEV_PTS_BASE: u64 = 0x8800;

/// The last of the standard descriptors.
pub const LAST_STDIO_FD: usize = 2;

/// A terminal that standard descriptors are put on.
pub struct TtyTarget {
    pub path: Vec<u8>,
    pub dev_type: u8,
    pub pty_id: u32,
}

/// Value of a [`TtyTarget`].
#[verifier::ext_equal]
pub struct TtyTargetView {
    pub path: Seq<u8>,
    pub dev_type: u8,
    pub pty_id: u32,
}

impl View for TtyTarget {
    type V = TtyTargetView;

    open spec fn view(&self) -> TtyTargetView {
        TtyTargetView { path: self.path@, dev_type: self.dev_type, pty_id: self.pty_id }
    }
}

/// The terminal with number `tty_dev`.
pub open spec fn tty_target(tty_dev: u64) -> Option<TtyTargetView> {
    if tty_dev == TTY_DEV_CONSOLE {
        Some(
            TtyTargetView {
                path: "/dev/console".spec_bytes(),
                dev_type: DEV_CONSOLE,
                pty_id: 0,
            },
        )
    } else if tty_dev < TTY_DEV_PTS_BASE || tty_dev - TTY_DEV_PTS_BASE > u32::MAX {
        None
    } else {
        Some(
            TtyTargetView {
                path: "/dev/pts/".spec_bytes() + decimal((tty_dev - TTY_DEV_PTS_BASE) as nat),
                dev_type: DEV_PTY_SLAVE,
                pty_id: (tty_dev - TTY_DEV_PTS_BASE) as u32,
            },
        )
    }
}

/// The terminal with number `tty_dev`.
pub fn tty_stdio_path(tty_dev: u64) -> (r: Option<TtyTarget>)
    ensures
        match r {
            Some(t) => tty_target(tty_dev) == Some(t@),
            None => tty_target(tty_dev) is None,
        },
{
    if tty_dev == TTY_DEV_CONSOLE {
        return Some(
            TtyTarget {
                path: slice_to_vec("/dev/console".as_bytes()),
                dev_type: DEV_CONSOLE,
                pty_id: 0,
            },
        );
    }
    if tty_dev < TTY_DEV_PTS_BASE || tty_dev - TTY_DEV_PTS_BASE > u32::MAX as u64 {
        return None;
    }
    let pty_id: u32 = (tty_dev - TTY_DEV_PTS_BASE) as u32;
    let mut path: Vec<u8> = slice_to_vec("/dev/pts/".as_bytes());
    push_decimal(&mut path, pty_id as u64);
    Some(TtyTarget { path, dev_type: DEV_PTY_SLAVE, pty_id })
}

// ---- descriptors -------------------------------------------------------------------

impl VfsModel {
    /// The state with device `f` opened on descriptor `fd` of client `c`, and whether it
    /// could be. A file that was opened for a client that is not there stays open.
    pub open spec fn stdio_installed(self, c: Handle, fd: int, f: OpenFile) -> (VfsModel, bool) {
        if fd >= MAX_CLIENT_OBJECTS || self.slot_of(c, fd) is Some {
            (self, false)
        } else {
            match self.open_files.next() {
                None => (self, false),
                Some(of) => {
                    let s = self.file_opened(f);
                    if s.clients.has(c) {
                        (s.fd_bound(c, fd, of, 0), true)
                    } else {
                        (s, false)
                    }
                },
            }
        }
    }

    /// The state with the standard descriptors of client `c` closed up to `upto`.
    pub open spec fn stdio_rolled_back(self, c: Handle, upto: int) -> VfsModel {
        self.slots_released(
            c,
            if upto < LAST_STDIO_FD {
                upto + 1
            } else {
                LAST_STDIO_FD + 1
            },
        )
    }

    /// The state with the standard descriptors of client `c` from `fd` on opened on device
    /// `f`; when one cannot be, those before it are closed again.
    pub open spec fn stdio_opened(self, c: Handle, fd: int, f: OpenFile) -> (VfsModel, bool)
        decreases LAST_STDIO_FD + 1 - fd,
    {
        if fd > LAST_STDIO_FD {
            (self, true)
        } else {
            let (s, ok) = self.stdio_installed(c, fd, f);
            if ok {
                s.stdio_opened(c, fd + 1, f)
            } else {
                (
                    s.stdio_rolled_back(
                        c,
                        if fd > 0 {
                            fd - 1
                        } else {
                            0
                        },
                    ),
                    false,
                )
            }
        }
    }

    /// The client of `badge`, made if there is none.
    pub open spec fn stdio_client(self, badge: u64) -> (VfsModel, Option<Handle>) {
        match self.client_of_badge(badge) {
            Some(c) => (self, Some(c)),
            None => self.client_ensured(badge, PERS_POSIX),
        }
    }

    /// Whether client `c` has a standard descriptor in use, or is not there.
    pub open spec fn stdio_busy(self, c: Handle) -> bool {
        !self.clients.has(c) || self.slot_of(c, 0) is Some || self.slot_of(c, 1) is Some
            || self.slot_of(c, 2) is Some
    }
}

/// Opens a device on a standard descriptor.
pub fn install_provisioned_stdio_slot(state: &mut VfsState, client: Handle, fd: usize, f: OpenFile) -> (r:
    bool)
    ensures
        (final(state)@, r) == old(state)@.stdio_installed(client, fd as int, f),
{
    if fd >= MAX_CLIENT_OBJECTS {
        return false;
    }
    if state.client_slot(client, fd).is_some() {
        return false;
    }
    let of: Handle = match state.alloc_open_file(f) {
        Some(of) => of,
        None => {
            return false;
        },
    };
    match state.clients.get_mut(client) {
        Some(cl) => {
            cl.set_slot(fd, OpenSlot { active: true, fd_flags: 0, open_file: of });
        },
        None => {
            return false;
        },
    }
    if let Some(x) = state.open_files.get_mut(of) {
        x.refcount = 1;
    }
    true
}

/// Closes the standard descriptors of a client again.
pub fn rollback_provisioned_stdio_slots(state: &mut VfsState, client: Handle, upto_fd: usize)
    ensures
        final(state)@ == old(state)@.stdio_rolled_back(client, upto_fd as int),
{
    let n: usize = if upto_fd < LAST_STDIO_FD {
        upto_fd + 1
    } else {
        LAST_STDIO_FD + 1
    };
    let ghost start = state@;
    let mut fd: usize = 0;
    while fd < n
        invariant
            fd <= n <= LAST_STDIO_FD + 1,
            state@ == start.slots_released(client, fd as int),
        decreases n - fd,
    {
        let _ = state.release_client_slot(client, fd);
        fd += 1;
    }
}

fn open_stdio(state: &mut VfsState, client: Handle, f: OpenFile) -> (r: bool)
    ensures
        (final(state)@, r) == old(state)@.stdio_opened(client, 0, f),
{
    let mut fd: usize = 0;
    while fd <= LAST_STDIO_FD
        invariant
            fd <= LAST_STDIO_FD + 1,
            state@.stdio_opened(client, fd as int, f) == old(state)@.stdio_opened(client, 0, f),
        decreases LAST_STDIO_FD + 1 - fd,
    {
        if !install_provisioned_stdio_slot(state, client, fd, f) {
            rollback_provisioned_stdio_slots(
                state,
                client,
                if fd > 0 {
                    fd - 1
                } else {
                    0
                },
            );
            return false;
        }
        fd += 1;
    }
    true
}

// ---- the request -------------------------------------------------------------------

/// What became of a request for standard descriptors.
#[derive(Clone, Copy, PartialEq, Eq, Structural, Debug)]
pub enum ProvisionStart {
    /// The caller is answered.
    Reply(Status),
    /// The caller's kept reply is released and the caller answered.
    ReleaseAndReply { release: u64, label: Status },
    /// The caller's reply could not be kept; it has been answered.
    Unsaved,
    /// The terminal server is asked first, and this worker is to be woken.
    Deferred { worker: usize },
}

/// The words that travel with a call for standard descriptors.
pub open spec fn provision_data(a: u64, b: u64, c: u64, d: u64, e: u64) -> Seq<u64> {
    seq![a, b, c, d, e, 0]
}

/// A job of operation `op` was queued that asks the terminal server for the generation of
/// terminal `pty`.
pub open spec fn lookup_queued(
    pre: &RpcCore,
    post: &RpcCore,
    op: PendingOpId,
    ep: u64,
    badge: u64,
    client: Handle,
    tty_dev: u64,
    pty: u32,
) -> bool {
    let job = post.jobs@.last();
    &&& RpcCore::enqueued(pre, post, job)
    &&& job.target_ep == ep
    &&& job.op_kind == BACKEND_OP_TTYSRV_GET_GENERATION
    &&& job.payload_out_bytes == 0
    &&& job.op_id == op.0
    &&& asks_words(job.request, Opcode::PtyLookup, seq![pty as u64])
    &&& job.ctx.badge == badge
    &&& job.ctx.client_handle_raw == packed(client)
    &&& job.ctx.stage == 0
    &&& job.ctx.data@ == provision_data(tty_dev, pty as u64, 0, 0, 0)
}

/// A job of operation `op` was queued that opens terminal `pty` for descriptor `fd`.
pub open spec fn open_queued(
    pre: &RpcCore,
    post: &RpcCore,
    op: PendingOpId,
    ep: u64,
    badge: u64,
    client: Handle,
    tty_dev: u64,
    pty: u32,
    vnode: Handle,
    dev_type: u8,
    generation: u32,
    fd: int,
) -> bool {
    let job = post.jobs@.last();
    &&& RpcCore::enqueued(pre, post, job)
    &&& job.target_ep == ep
    &&& job.op_kind == BACKEND_OP_TTYSRV_OPEN_SLAVE
    &&& job.payload_out_bytes == 0
    &&& job.op_id == op.0
    &&& asks_words(job.request, Opcode::PtyOpenSlave, seq![pty as u64, generation as u64])
    &&& job.ctx.badge == badge
    &&& job.ctx.client_handle_raw == packed(client)
    &&& job.ctx.stage == fd + 1
    &&& job.ctx.data@ == provision_data(
        tty_dev,
        pty as u64,
        packed(vnode),
        generation as u64,
        dev_type as u64,
    )
}

/// Queues the call that asks for the generation of a terminal.
pub fn enqueue_provision_lookup(
    rpc: &mut RpcCore,
    ep: u64,
    client: Handle,
    badge: u64,
    tty_dev: u64,
    pty_id: u32,
    op: PendingOpId,
) -> (r: Option<usize>)
    requires
        old(rpc).wf(),
    ensures
        final(rpc).wf(),
        final(rpc).pool@ == old(rpc).pool@,
        match r {
            Some(worker) => old(rpc).accepts() && worker == old(rpc).workers.turn()
                && lookup_queued(old(rpc), final(rpc), op, ep, badge, client, tty_dev, pty_id),
            None => !old(rpc).accepts() && RpcCore::queue_unchanged(old(rpc), final(rpc)),
        },
{
    let data: [u64; 6] = [tty_dev, pty_id as u64, 0, 0, 0, 0];
    assert(data@ =~= provision_data(tty_dev, pty_id as u64, 0, 0, 0));
    rpc.try_enqueue_job(
        PendingBackendJob {
            target_ep: ep,
            op_kind: BACKEND_OP_TTYSRV_GET_GENERATION,
            payload_out_bytes: 0,
            op_id: op.raw(),
            request: one_word_request(Opcode::PtyLookup, pty_id as u64),
            ctx: BackendOpCtx {
                badge,
                client_handle_raw: pack_client_handle(client),
                stage: 0,
                data,
            },
        },
    )
}

/// Queues the call that opens a terminal for a standard descriptor.
pub fn enqueue_provision_open_slave(
    rpc: &mut RpcCore,
    ep: u64,
    client: Handle,
    badge: u64,
    tty_dev: u64,
    pty_id: u32,
    vnode: Handle,
    dev_type: u8,
    generation: u32,
    fd: u32,
    op: PendingOpId,
) -> (r: Option<usize>)
    requires
        old(rpc).wf(),
        fd <= LAST_STDIO_FD,
    ensures
        final(rpc).wf(),
        final(rpc).pool@ == old(rpc).pool@,
        match r {
            Some(worker) => old(rpc).accepts() && worker == old(rpc).workers.turn() && open_queued(
                old(rpc),
                final(rpc),
                op,
                ep,
                badge,
                client,
                tty_dev,
                pty_id,
                vnode,
                dev_type,
                generation,
                fd as int,
            ),
            None => !old(rpc).accepts() && RpcCore::queue_unchanged(old(rpc), final(rpc)),
        },
{
    let data: [u64; 6] = [
        tty_dev,
        pty_id as u64,
        pack_client_handle(vnode),
        generation as u64,
        dev_type as u64,
        0,
    ];
    assert(data@ =~= provision_data(
        tty_dev,
        pty_id as u64,
        packed(vnode),
        generation as u64,
        dev_type as u64,
    ));
    rpc.try_enqueue_job(
        PendingBackendJob {
            target_ep: ep,
            op_kind: BACKEND_OP_TTYSRV_OPEN_SLAVE,
            payload_out_bytes: 0,
            op_id: op.raw(),
            request: two_word_request(Opcode::PtyOpenSlave, pty_id as u64, generation as u64),
            ctx: BackendOpCtx {
                badge,
                client_handle_raw: pack_client_handle(client),
                stage: fd + 1,
                data,
            },
        },
    )
}

/// A call for a pseudo terminal was made of the request, or why not.
pub open spec fn pty_provision_started(
    pre: &RpcCore,
    post: &RpcCore,
    r: ProvisionStart,
    ep: u64,
    badge: u64,
    client: Handle,
    tty_dev: u64,
    pty: u32,
    reply_slot: Option<u64>,
) -> bool {
    match reply_slot {
        None => r is Unsaved && rpc_same(pre, post),
        Some(slot) => if table_full(pre.pool@) {
            r == (ProvisionStart::ReleaseAndReply { release: slot, label: Status::OutOfMemory })
                && rpc_same(pre, post)
        } else {
            exists|op: PendingOpId, mid: PoolView| #[trigger]
                op_started(pre.pool@, mid, op, PO_KIND_TTY_STDIO, badge, client, slot)
                    && if pre.accepts() {
                    &&& r == (ProvisionStart::Deferred { worker: pre.workers.turn() as usize })
                    &&& post.pool@ == mid
                    &&& lookup_queued(pre, post, op, ep, badge, client, tty_dev, pty)
                } else {
                    &&& r == (ProvisionStart::ReleaseAndReply {
                        release: slot,
                        label: Status::InvalidOperation,
                    })
                    &&& post.pool@ == mid.freed(op)
                    &&& RpcCore::queue_unchanged(pre, post)
                }
        },
    }
}

fn start_pty_provision(
    rpc: &mut RpcCore,
    ep: u64,
    badge: u64,
    client: Handle,
    tty_dev: u64,
    pty_id: u32,
    reply_slot: Option<u64>,
) -> (r: ProvisionStart)
    requires
        old(rpc).wf(),
    ensures
        final(rpc).wf(),
        pty_provision_started(
            old(rpc),
            final(rpc),
            r,
            ep,
            badge,
            client,
            tty_dev,
            pty_id,
            reply_slot,
        ),
{
    let slot: u64 = match reply_slot {
        Some(s) => s,
        None => {
            return ProvisionStart::Unsaved;
        },
    };
    let op: PendingOpId = match rpc.pool.allocate(PO_KIND_TTY_STDIO, badge, client, slot) {
        Some(op) => op,
        None => {
            return ProvisionStart::ReleaseAndReply { release: slot, label: Status::OutOfMemory };
        },
    };
    let ghost mid = rpc.pool@;
    proof {
        assert(op_started(old(rpc).pool@, mid, op, PO_KIND_TTY_STDIO, badge, client, slot));
        assert(old(rpc).pool@.ops[op.slot_of()].state == OpState::Free);
    }
    match enqueue_provision_lookup(rpc, ep, client, badge, tty_dev, pty_id, op) {
        Some(worker) => ProvisionStart::Deferred { worker },
        None => {
            rpc.pool.free(op);
            ProvisionStart::ReleaseAndReply { release: slot, label: Status::InvalidOperation }
        },
    }
}

/// What becomes of a request to give the client of `badge` standard descriptors on the
/// terminal with number `tty_dev`.
pub open spec fn provision_handled(
    m: VfsModel,
    post: VfsModel,
    before: &RpcCore,
    after: &RpcCore,
    badge: u64,
    tty_dev: u64,
    reply_slot: Option<u64>,
    r: ProvisionStart,
) -> bool {
    if badge == 0 {
        post == m && rpc_same(before, after) && r == ProvisionStart::Reply(Status::InvalidArgument)
    } else {
        let (n, client) = m.stdio_client(badge);
        match client {
            None => post == n && rpc_same(before, after) && r == ProvisionStart::Reply(
                Status::OutOfMemory,
            ),
            Some(c) => if n.stdio_busy(c) {
                post == n && rpc_same(before, after) && r == ProvisionStart::Reply(
                    Status::InvalidOperation,
                )
            } else {
                match tty_target(tty_dev) {
                    None => post == n && rpc_same(before, after) && r == ProvisionStart::Reply(
                        Status::InvalidArgument,
                    ),
                    Some(t) => if t.dev_type == DEV_PTY_SLAVE {
                        post == n && pty_provision_started(
                            before,
                            after,
                            r,
                            m.services.ttysrv_ep,
                            badge,
                            c,
                            tty_dev,
                            t.pty_id,
                            reply_slot,
                        )
                    } else {
                        exists|x: Result<Progress<Option<Handle>>, Status>| #[trigger]
                            walk_settled(
                                n,
                                before,
                                after,
                                x,
                                n.walk_path(t.path, 0, plain_mode(true)),
                                plain_mode(true),
                            ) && match x {
                                Ok(Progress::Complete(Some(v))) => {
                                    let (s, ok) = n.stdio_opened(
                                        c,
                                        0,
                                        device_file(v, t.dev_type, t.pty_id, 0, O_RDWR),
                                    );
                                    post == s && r == ProvisionStart::Reply(
                                        if ok {
                                            Status::Success
                                        } else {
                                            Status::OutOfMemory
                                        },
                                    )
                                },
                                _ => post == n && r == ProvisionStart::Reply(
                                    Status::InvalidArgument,
                                ),
                            }
                    },
                }
            },
        }
    }
}

/// Gives the client of a badge standard descriptors on a terminal. On the console this is
/// done at once; a pseudo terminal is opened by its server first, once for each descriptor.
/// `reply_slot` is the caller's kept reply, where it could be kept.
pub fn handle_provision_tty_stdio_to(
    state: &mut VfsState,
    rpc: &mut RpcCore,
    badge: u64,
    tty_dev: u64,
    reply_slot: Option<u64>,
) -> (r: ProvisionStart)
    requires
        old(rpc).wf(),
    ensures
        final(rpc).wf(),
        provision_handled(
            old(state)@,
            final(state)@,
            old(rpc),
            final(rpc),
            badge,
            tty_dev,
            reply_slot,
            r,
        ),
{
    if badge == 0 {
        return ProvisionStart::Reply(Status::InvalidArgument);
    }
    let ep: u64 = state.services.ttysrv_ep;
    let found = state.lookup_client(badge);
    let made = match found {
        Some(c) => Some(c),
        None => state.ensure_client(badge, PERS_POSIX),
    };
    let client: Handle = match made {
        Some(c) => c,
        None => {
            return ProvisionStart::Reply(Status::OutOfMemory);
        },
    };
    if !state.clients.contains(client) || state.client_slot(client, 0).is_some()
        || state.client_slot(client, 1).is_some() || state.client_slot(client, 2).is_some() {
        return ProvisionStart::Reply(Status::InvalidOperation);
    }
    let t: TtyTarget = match tty_stdio_path(tty_dev) {
        Some(t) => t,
        None => {
            return ProvisionStart::Reply(Status::InvalidArgument);
        },
    };
    if t.dev_type == DEV_PTY_SLAVE {
        return start_pty_provision(rpc, ep, badge, client, tty_dev, t.pty_id, reply_slot);
    }
    let ghost n = state@;
    let x = lookup_path_dynamic_absolute(state, rpc, t.path.as_slice(), false);
    proof {
        lemma_console_is_absolute();
        assert(walk_settled(
            n,
            old(rpc),
            rpc,
            x,
            n.walk_path(t.path@, 0, plain_mode(true)),
            plain_mode(true),
        ));
    }
    match x {
        Ok(Progress::Complete(Some(v))) => {
            if open_stdio(state, client, device_file(v, t.dev_type, t.pty_id, 0, O_RDWR)) {
                ProvisionStart::Reply(Status::Success)
            } else {
                ProvisionStart::Reply(Status::OutOfMemory)
            }
        },
        _ => ProvisionStart::Reply(Status::InvalidArgument),
    }
}

proof fn lemma_console_is_absolute()
    ensures
        is_absolute("/dev/console".spec_bytes()),
{
    reveal_strlit("/dev/console");
    is_ascii_spec_bytes("/dev/console");
    assert("/dev/console".spec_bytes()[0] == 47u8);
}

// ---- the answers -------------------------------------------------------------------

/// What became of an answer of the terminal server to such a request.
#[derive(Clone, Copy, PartialEq, Eq, Structural, Debug)]
pub enum ProvisionDone {
    /// No such request waited for it.
    NotMine,
    /// The request has ended; this is owed to its caller.
    Ended { answer: Option<ReplyAction> },
    /// The next call is queued, and this worker is to be woken.
    Waits { worker: usize },
    /// The request was cancelled meanwhile; whoever cancelled it sees to the reply.
    Cancelled,
}

/// Operation `id` can go on to another call.
pub open spec fn can_go_on(p: PoolView, id: PendingOpId) -> bool {
    p.live(id) && p.op(id).state == OpState::Completing
}

/// What becomes of operation `id` when its next call is to be queued: `queued` says that it
/// was. Without room for it the caller is told that it cannot be done.
pub open spec fn next_call(
    pre: PoolView,
    before: &RpcCore,
    after: &RpcCore,
    id: PendingOpId,
    queued: bool,
    r: ProvisionDone,
) -> bool {
    let mid = pre.moved(id, OpState::Completing, OpState::Queued);
    if before.accepts() {
        &&& r == (ProvisionDone::Waits { worker: before.workers.turn() as usize })
        &&& after.pool@ == mid
        &&& queued
    } else {
        &&& r == (ProvisionDone::Ended { answer: reply_sent(mid, id, Status::InvalidOperation) })
        &&& after.pool@ == mid.freed(id)
        &&& RpcCore::queue_unchanged(before, after)
    }
}

/// The request ended with `label`.
pub open spec fn provision_ended(
    before: &RpcCore,
    after: &RpcCore,
    id: PendingOpId,
    label: Status,
    r: ProvisionDone,
) -> bool {
    &&& r == (ProvisionDone::Ended { answer: reply_sent(before.pool@, id, label) })
    &&& after.pool@ == before.pool@.freed(id)
    &&& RpcCore::queue_unchanged(before, after)
}

fn fail_provision_op(rpc: &mut RpcCore, id: PendingOpId, label: Status) -> (r: ProvisionDone)
    requires
        old(rpc).wf(),
    ensures
        final(rpc).wf(),
        provision_ended(old(rpc), final(rpc), id, label, r),
{
    ProvisionDone::Ended { answer: fail_continuation(&mut rpc.pool, id, label) }
}

/// What becomes of the generation of a terminal: its vnode is looked up and the terminal
/// opened for the first descriptor.
pub open spec fn generation_known(
    m: VfsModel,
    before: &RpcCore,
    after: &RpcCore,
    c: &PendingBackendCompletion,
    r: ProvisionDone,
) -> bool {
    let id = op_of(c);
    let tty_dev = c.ctx.data@[0];
    if outcome_of(c) != Status::Success {
        provision_ended(before, after, id, Status::InvalidOperation, r)
    } else {
        match tty_target(tty_dev) {
            None => provision_ended(before, after, id, Status::InvalidArgument, r),
            Some(t) => exists|mid: RpcCore, x: Result<Progress<Option<Handle>>, Status>| #[trigger]
                walk_settled(
                    m,
                    before,
                    &mid,
                    x,
                    m.walk_path(t.path, 0, plain_mode(true)),
                    plain_mode(true),
                ) && match x {
                    Ok(Progress::Complete(Some(v))) => if !can_go_on(mid.pool@, id) {
                        r is Cancelled && rpc_same(&mid, after)
                    } else {
                        next_call(
                            mid.pool@,
                            &mid,
                            after,
                            id,
                            open_queued(
                                &mid,
                                after,
                                id,
                                m.services.ttysrv_ep,
                                c.ctx.badge,
                                unpacked(c.ctx.client_handle_raw),
                                tty_dev,
                                c.ctx.data@[1] as u32,
                                v,
                                t.dev_type,
                                c.backend_reply.regs@[0] as u32,
                                0,
                            ),
                            r,
                        )
                    },
                    _ => provision_ended(&mid, after, id, Status::InvalidArgument, r),
                },
        }
    }
}

/// Takes the generation of a terminal.
pub fn handle_provision_lookup_completion(
    state: &VfsState,
    rpc: &mut RpcCore,
    c: &PendingBackendCompletion,
) -> (r: ProvisionDone)
    requires
        old(rpc).wf(),
    ensures
        final(rpc).wf(),
        generation_known(state@, old(rpc), final(rpc), c, r),
{
    let id = PendingOpId::from_raw(c.op_id);
    let tty_dev: u64 = c.ctx.data[0];
    if call_outcome(c.backend_err, c.backend_reply.label) != Status::Success {
        return fail_provision_op(rpc, id, Status::InvalidOperation);
    }
    let generation: u32 = c.backend_reply.regs[0] as u32;
    let t: TtyTarget = match tty_stdio_path(tty_dev) {
        Some(t) => t,
        None => {
            return fail_provision_op(rpc, id, Status::InvalidArgument);
        },
    };
    let x = lookup_path_dynamic_absolute(state, rpc, t.path.as_slice(), false);
    let ghost mid = *rpc;
    proof {
        lemma_console_is_absolute();
        lemma_pts_is_absolute(t.path@);
        assert(walk_settled(
            state@,
            old(rpc),
            &mid,
            x,
            state@.walk_path(t.path@, 0, plain_mode(true)),
            plain_mode(true),
        ));
    }
    let v: Handle = match x {
        Ok(Progress::Complete(Some(v))) => v,
        _ => {
            return fail_provision_op(rpc, id, Status::InvalidArgument);
        },
    };
    if !rpc.pool.requeue(id) {
        return ProvisionDone::Cancelled;
    }
    match enqueue_provision_open_slave(
        rpc,
        state.services.ttysrv_ep,
        unpack_client_handle(c.ctx.client_handle_raw),
        c.ctx.badge,
        tty_dev,
        c.ctx.data[1] as u32,
        v,
        t.dev_type,
        generation,
        0,
        id,
    ) {
        Some(worker) => ProvisionDone::Waits { worker },
        None => fail_provision_op(rpc, id, Status::InvalidOperation),
    }
}

proof fn lemma_pts_is_absolute(path: Seq<u8>)
    ensures
        forall|n: nat| path == "/dev/pts/".spec_bytes() + #[trigger] decimal(n) ==> is_absolute(
            path,
        ),
{
    reveal_strlit("/dev/pts/");
    is_ascii_spec_bytes("/dev/pts/");
    assert("/dev/pts/".spec_bytes()[0] == 47u8);
    assert("/dev/pts/".spec_bytes().len() == 9);
}

/// The descriptor that an answer to the opening of a terminal is for.
pub open spec fn fd_of_stage(stage: u32) -> int {
    if stage > 0 {
        stage - 1
    } else {
        0
    }
}

/// The descriptor before `fd`.
pub open spec fn fd_before(fd: int) -> int {
    if fd > 0 {
        fd - 1
    } else {
        0
    }
}

/// What becomes of the opening of a terminal for a descriptor: the descriptor is put in
/// place and the terminal opened for the next one. When any of this fails the descriptors
/// that are in place are closed again.
pub open spec fn terminal_opened(
    m: VfsModel,
    post: VfsModel,
    before: &RpcCore,
    after: &RpcCore,
    c: &PendingBackendCompletion,
    r: ProvisionDone,
) -> bool {
    let id = op_of(c);
    let client = unpacked(c.ctx.client_handle_raw);
    let fd = fd_of_stage(c.ctx.stage);
    let pty = c.ctx.data@[1] as u32;
    let v = unpacked(c.ctx.data@[2]);
    let generation = c.ctx.data@[3] as u32;
    let dev_type = c.ctx.data@[4] as u8;
    if outcome_of(c) != Status::Success {
        &&& post == m.stdio_rolled_back(client, fd_before(fd))
        &&& provision_ended(before, after, id, Status::InvalidOperation, r)
    } else {
        let (s, ok) = m.stdio_installed(
            client,
            fd,
            device_file(v, dev_type, pty, generation, O_RDWR),
        );
        if !ok {
            &&& post == s.stdio_rolled_back(client, fd_before(fd))
            &&& provision_ended(before, after, id, Status::OutOfMemory, r)
        } else if fd >= LAST_STDIO_FD {
            post == s && provision_ended(before, after, id, Status::Success, r)
        } else if !can_go_on(before.pool@, id) {
            post == s.stdio_rolled_back(client, fd) && r is Cancelled && rpc_same(before, after)
        } else {
            &&& post == (if before.accepts() {
                s
            } else {
                s.stdio_rolled_back(client, fd)
            })
            &&& next_call(
                before.pool@,
                before,
                after,
                id,
                open_queued(
                    before,
                    after,
                    id,
                    m.services.ttysrv_ep,
                    c.ctx.badge,
                    client,
                    c.ctx.data@[0],
                    pty,
                    v,
                    dev_type,
                    generation,
                    fd + 1,
                ),
                r,
            )
        }
    }
}

/// Takes the opening of a terminal for a descriptor.
pub fn handle_provision_open_slave_completion(
    state: &mut VfsState,
    rpc: &mut RpcCore,
    c: &PendingBackendCompletion,
) -> (r: ProvisionDone)
    requires
        old(rpc).wf(),
    ensures
        final(rpc).wf(),
        terminal_opened(old(state)@, final(state)@, old(rpc), final(rpc), c, r),
{
    let id = PendingOpId::from_raw(c.op_id);
    let client: Handle = unpack_client_handle(c.ctx.client_handle_raw);
    let pty: u32 = c.ctx.data[1] as u32;
    let v: Handle = unpack_handle(c.ctx.data[2]);
    let generation: u32 = c.ctx.data[3] as u32;
    let dev_type: u8 = c.ctx.data[4] as u8;
    let ep: u64 = state.services.ttysrv_ep;
    let fd: u32 = if c.ctx.stage > 0 {
        c.ctx.stage - 1
    } else {
        0
    };
    let before: u32 = if fd > 0 {
        fd - 1
    } else {
        0
    };
    if call_outcome(c.backend_err, c.backend_reply.label) != Status::Success {
        rollback_provisioned_stdio_slots(state, client, before as usize);
        return fail_provision_op(rpc, id, Status::InvalidOperation);
    }
    let f: OpenFile = device_file(v, dev_type, pty, generation, O_RDWR);
    if !install_provisioned_stdio_slot(state, client, fd as usize, f) {
        rollback_provisioned_stdio_slots(state, client, before as usize);
        return fail_provision_op(rpc, id, Status::OutOfMemory);
    }
    if fd as usize >= LAST_STDIO_FD {
        return fail_provision_op(rpc, id, Status::Success);
    }
    if !rpc.pool.requeue(id) {
        rollback_provisioned_stdio_slots(state, client, fd as usize);
        return ProvisionDone::Cancelled;
    }
    match enqueue_provision_open_slave(
        rpc,
        ep,
        client,
        c.ctx.badge,
        c.ctx.data[0],
        pty,
        v,
        dev_type,
        generation,
        fd + 1,
        id,
    ) {
        Some(worker) => ProvisionDone::Waits { worker },
        None => {
            rollback_provisioned_stdio_slots(state, client, fd as usize);
            fail_provision_op(rpc, id, Status::InvalidOperation)
        },
    }
}

/// What becomes of an answer of the terminal server: one that no request for standard
/// descriptors waited for is left alone.
pub open spec fn provision_answered(
    m: VfsModel,
    post: VfsModel,
    before: &RpcCore,
    after: &RpcCore,
    c: &PendingBackendCompletion,
    r: ProvisionDone,
) -> bool {
    let p = before.pool@;
    let mine = p.live(op_of(c)) && p.op(op_of(c)).kind == PO_KIND_TTY_STDIO;
    if mine && c.op_kind == BACKEND_OP_TTYSRV_GET_GENERATION {
        post == m && generation_known(m, before, after, c, r) && r !is NotMine
    } else if mine && c.op_kind == BACKEND_OP_TTYSRV_OPEN_SLAVE {
        terminal_opened(m, post, before, after, c, r) && r !is NotMine
    } else {
        r is NotMine && post == m && *after == *before
    }
}

/// Takes an answer of the terminal server that a request for standard descriptors waited
/// for.
pub fn complete_provision_tty_stdio_to(
    state: &mut VfsState,
    rpc: &mut RpcCore,
    c: &PendingBackendCompletion,
) -> (r: ProvisionDone)
    requires
        old(rpc).wf(),
    ensures
        final(rpc).wf(),
        provision_answered(old(state)@, final(state)@, old(rpc), final(rpc), c, r),
{
    let id = PendingOpId::from_raw(c.op_id);
    let mine: bool = match rpc.pool.get(id) {
        Some(op) => op.kind == PO_KIND_TTY_STDIO,
        None => false,
    };
    if !mine {
        return ProvisionDone::NotMine;
    }
    if c.op_kind == BACKEND_OP_TTYSRV_GET_GENERATION {
        handle_provision_lookup_completion(state, rpc, c)
    } else if c.op_kind == BACKEND_OP_TTYSRV_OPEN_SLAVE {
        handle_provision_open_slave_completion(state, rpc, c)
    } else {
        ProvisionDone::NotMine
    }
}

/// A client that was given standard descriptors has all three of them: on success each of
/// the three is in use.
pub proof fn law_standard_descriptors_are_given(m: VfsModel, c: Handle, f: OpenFile)
    requires
        m.clients.has(c),
        m.clients.at(c).slots.len() == MAX_CLIENT_OBJECTS,
        m.stdio_opened(c, 0, f).1,
    ensures
        m.stdio_opened(c, 0, f).0.slot_of(c, 0) is Some,
        m.stdio_opened(c, 0, f).0.slot_of(c, 1) is Some,
        m.stdio_opened(c, 0, f).0.slot_of(c, 2) is Some,
{
    reveal_with_fuel(VfsModel::stdio_opened, 4);
    let a = m.stdio_installed(c, 0, f).0;
    let b = a.stdio_installed(c, 1, f).0;
    let d = b.stdio_installed(c, 2, f).0;
    assert(m.stdio_opened(c, 0, f).0 == d);
}

} // verus!
