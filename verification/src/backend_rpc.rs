//! Calls to other servers that a worker carries out for the owner.
//!
//! The owner queues a job and wakes a worker; the worker makes the call and queues a
//! completion; the owner acts on it and sends the reply that the operation owes.

use vstd::prelude::*;

use crate::bytes::{copy_prefix, prefix};
use crate::arena::Handle;
use crate::pending_ops::{
    first_from, id_word, initial_op, next_generation, pool_wf, started_op, worker_enter,
    worker_leave, OpState, OwnerPool, PayloadView, PendingOpId, PendingOpKind, PoolView,
    WorkerInflight, MAX_PAYLOAD_BUFS, MAX_PENDING_OPS, MAX_WORKERS,
};
use crate::ring::Ring;
use crate::status::Status;
use crate::wire::{KinfoProc, KinfoView, ProcMemSnapshot, Reply, Request};

verus! {

pub const BACKEND_JOB_RING_CAP: u32 = 16;

pub type BackendOpKind = u32;

pub const BACKEND_OP_NONE: BackendOpKind = 0;

pub const BACKEND_OP_TTYSRV_OPEN_SLAVE: BackendOpKind = 6;

pub const BACKEND_OP_TTYSRV_GET_GENERATION: BackendOpKind = 7;

pub const BACKEND_OP_PROCFS_READ_PID_STATUS: BackendOpKind = 8;

pub const BACKEND_OP_PROCFS_READ_PID_COMM: BackendOpKind = 9;

pub const BACKEND_OP_PROCFS_READ_PID_STATM: BackendOpKind = 10;

pub const BACKEND_OP_PROCFS_READ_PID_CMDLINE: BackendOpKind = 11;

pub const BACKEND_OP_PROCFS_READ_PID_STAT_STAGE0: BackendOpKind = 12;

pub const BACKEND_OP_PROCFS_READ_PID_STAT_STAGE1: BackendOpKind = 13;

pub const BACKEND_OP_PROCFS_READLINK_PID_EXE: BackendOpKind = 14;

pub const BACKEND_OP_PROCFS_READDIR_PIDS: BackendOpKind = 15;

pub const BACKEND_OP_PROCFS_READ_ROOT_STAT: BackendOpKind = 16;

pub const BACKEND_OP_PROCFS_READ_ROOT_LOADAVG: BackendOpKind = 17;

pub const BACKEND_OP_SALTYFS_LOOKUP_CHILD: BackendOpKind = 18;

pub const BACKEND_OP_SALTYFS_READ: BackendOpKind = 19;

pub const BACKEND_OP_SALTYFS_WRITE: BackendOpKind = 20;

pub const BACKEND_OP_SALTYFS_MKDIR: BackendOpKind = 21;

pub const BACKEND_OP_SALTYFS_CREATE: BackendOpKind = 22;

pub const BACKEND_OP_SALTYFS_TRUNCATE: BackendOpKind = 23;

pub const BACKEND_OP_SALTYFS_UNLINK: BackendOpKind = 24;

pub const BACKEND_OP_SALTYFS_SYMLINK: BackendOpKind = 25;

pub const BACKEND_OP_SALTYFS_LINK: BackendOpKind = 26;

pub const BACKEND_OP_SALTYFS_RENAME: BackendOpKind = 27;

pub const BACKEND_OP_SALTYFS_SETMODE: BackendOpKind = 28;

pub const BACKEND_OP_SALTYFS_SETOWNER: BackendOpKind = 29;

pub const BACKEND_OP_SALTYFS_SETTIMES: BackendOpKind = 30;

pub const BACKEND_OP_SALTYFS_READLINK: BackendOpKind = 31;

pub const BACKEND_OP_TTYSRV_PROVISION_STDIO: BackendOpKind = 32;

pub const BACKEND_OP_TTYSRV_PTY_LOOKUP: BackendOpKind = 33;

pub const BACKEND_OP_TTYSRV_PTY_READ: BackendOpKind = 34;

pub const BACKEND_OP_MMSRV_SHM_CREATE: BackendOpKind = 35;

pub const BACKEND_OP_MMSRV_SHM_DESTROY: BackendOpKind = 36;

pub const BACKEND_OP_MMSRV_SHM_MAP: BackendOpKind = 37;

pub const BACKEND_OP_MMSRV_SHM_UNMAP: BackendOpKind = 38;

pub const BACKEND_OP_NETSRV_OPEN: BackendOpKind = 39;

pub const BACKEND_OP_NETSRV_CONNECT: BackendOpKind = 40;

pub const BACKEND_OP_NETSRV_LISTEN: BackendOpKind = 41;

pub const BACKEND_OP_NETSRV_BIND: BackendOpKind = 42;

pub const BACKEND_OP_NETSRV_SEND: BackendOpKind = 43;

pub const BACKEND_OP_NETSRV_SENDTO: BackendOpKind = 44;

pub const BACKEND_OP_NETSRV_GET_SOCKNAME: BackendOpKind = 45;

pub const BACKEND_OP_NETSRV_GET_PEERNAME: BackendOpKind = 46;

/// Most payload bytes that a completion carries.
pub const BACKEND_PAYLOAD_MAX: usize = 512;

/// Notification bit that workers signal the owner with; the low bits belong to
/// terminals.
pub const WORKER_COMPLETION_NTFN_BIT: u64 = 0x8000_0000_0000_0000;

/// Values that travel with a call and come back with its completion.
#[derive(Clone, Copy)]
pub struct BackendOpCtx {
    pub badge: u64,
    pub client_handle_raw: u64,
    pub stage: u32,
    pub data: [u64; 6],
}

/// One queued call.
#[derive(Clone, Copy)]
pub struct PendingBackendJob {
    pub target_ep: u64,
    pub op_kind: BackendOpKind,
    /// Payload bytes that are wanted with the reply; zero when the registers are enough.
    pub payload_out_bytes: u32,
    pub op_id: u64,
    pub request: Request,
    pub ctx: BackendOpCtx,
}

/// What a reply carries beside its registers.
pub enum BackendPayload {
    Empty,
    Kinfo(KinfoProc),
    MemSnapshot(ProcMemSnapshot),
    Pid(u32),
    Bytes(Vec<u8>),
}

/// Value of a [`BackendPayload`].
#[verifier::ext_equal]
pub enum BackendPayloadView {
    Empty,
    Kinfo(KinfoView),
    MemSnapshot(ProcMemSnapshot),
    Pid(u32),
    Bytes(Seq<u8>),
}

impl View for BackendPayload {
    type V = BackendPayloadView;

    open spec fn view(&self) -> BackendPayloadView {
        match self {
            BackendPayload::Empty => BackendPayloadView::Empty,
            BackendPayload::Kinfo(k) => BackendPayloadView::Kinfo(k@),
            BackendPayload::MemSnapshot(s) => BackendPayloadView::MemSnapshot(*s),
            BackendPayload::Pid(p) => BackendPayloadView::Pid(*p),
            BackendPayload::Bytes(b) => BackendPayloadView::Bytes(b@),
        }
    }
}

/// The answer to one call.
pub struct PendingBackendCompletion {
    pub op_kind: BackendOpKind,
    pub op_id: u64,
    pub backend_err: u64,
    pub backend_reply: Reply,
    pub ctx: BackendOpCtx,
    pub payload: BackendPayload,
}

impl PendingBackendCompletion {
    /// The call went through and the other server answered with success.
    pub open spec fn succeeded(&self) -> bool {
        self.backend_err == 0 && self.backend_reply.label == Status::Success
    }
}

/// The worker threads as the owner sees them: how many run, whose turn it is, and the
/// counter that each one sleeps on.
pub struct WorkerPool {
    pub spawned: usize,
    pub next_wake: u32,
    pub wake: [u32; 4],
}

impl WorkerPool {
    /// No more threads than there is room for.
    pub open spec fn wf(&self) -> bool {
        self.spawned <= MAX_WORKERS
    }

    /// The worker whose turn it is.
    pub open spec fn turn(&self) -> int {
        self.next_wake as int % self.spawned as int
    }

    /// How many workers run; none means that calls cannot be deferred.
    pub fn worker_count(&self) -> (r: usize)
        ensures
            r == self.spawned,
    {
        self.spawned
    }

    /// Bumps the counter of worker `idx`.
    pub fn wake_worker(&mut self, idx: usize)
        ensures
            final(self).spawned == old(self).spawned,
            final(self).next_wake == old(self).next_wake,
            final(self).wake@ == (if idx < MAX_WORKERS {
                old(self).wake@.update(idx as int, old(self).wake@[idx as int].wrapping_add(1))
            } else {
                old(self).wake@
            }),
    {
        if idx >= MAX_WORKERS {
            return;
        }
        let v: u32 = self.wake[idx];
        self.wake[idx] = v.wrapping_add(1);
    }

    /// Chooses the next worker in turn and bumps its counter; `None` when none runs. The
    /// caller wakes the thread.
    pub fn wake_one_worker(&mut self) -> (r: Option<usize>)
        requires
            old(self).wf(),
        ensures
            final(self).wf(),
            final(self).spawned == old(self).spawned,
            match r {
                Some(idx) => {
                    &&& old(self).spawned > 0
                    &&& idx == old(self).turn()
                    &&& final(self).next_wake == old(self).next_wake.wrapping_add(1)
                    &&& final(self).wake@ == old(self).wake@.update(
                        idx as int,
                        old(self).wake@[idx as int].wrapping_add(1),
                    )
                },
                None => old(self).spawned == 0 && *final(self) == *old(self),
            },
    {
        if self.spawned == 0 {
            return None;
        }
        let idx: usize = (self.next_wake as usize) % self.spawned;
        self.next_wake = self.next_wake.wrapping_add(1);
        self.wake_worker(idx);
        Some(idx)
    }
}

/// What became of an operation that may need another server.
pub enum Progress<T> {
    /// It is done.
    Complete(T),
    /// It goes on when the call of this operation is answered; this worker is to be woken.
    Deferred { op: PendingOpId, worker: usize },
}

/// What the owner needs to defer a call: the table of operations, the queue of jobs and
/// the workers.
pub struct RpcCore {
    pub pool: OwnerPool,
    pub jobs: Ring<PendingBackendJob>,
    pub workers: WorkerPool,
}

impl RpcCore {
    /// Each part is in order.
    pub open spec fn wf(&self) -> bool {
        &&& pool_wf(self.pool@)
        &&& self.jobs.wf()
        &&& self.jobs.capacity() == BACKEND_JOB_RING_CAP - 1
        &&& self.workers.wf()
    }

    /// A job would be taken: a worker runs and the queue has room.
    pub open spec fn accepts(&self) -> bool {
        self.workers.spawned > 0 && self.jobs@.len() < BACKEND_JOB_RING_CAP - 1
    }

    /// The state `post` is `pre` with one more job at the end of the queue and one worker
    /// woken in turn.
    pub open spec fn enqueued(pre: &RpcCore, post: &RpcCore, job: PendingBackendJob) -> bool {
        &&& post.jobs@ == pre.jobs@.push(job)
        &&& post.workers.spawned == pre.workers.spawned
        &&& post.workers.next_wake == pre.workers.next_wake.wrapping_add(1)
        &&& post.workers.wake@ == pre.workers.wake@.update(
            pre.workers.turn(),
            pre.workers.wake@[pre.workers.turn()].wrapping_add(1),
        )
    }

    /// Queue and workers are as before.
    pub open spec fn queue_unchanged(pre: &RpcCore, post: &RpcCore) -> bool {
        post.jobs@ == pre.jobs@ && post.workers == pre.workers
    }

    /// Empty table and queue, no worker.
    pub fn new() -> (r: RpcCore)
        ensures
            r.wf(),
            r.pool@ == (PoolView {
                ops: Seq::new(MAX_PENDING_OPS as nat, |i: int| initial_op()),
                hint: 0,
                payloads: Seq::new(MAX_PAYLOAD_BUFS as nat, |i: int| PayloadView::Empty),
                in_use: Seq::new(MAX_PAYLOAD_BUFS as nat, |i: int| false),
                payload_hint: 0,
            }),
            r.jobs@ == Seq::<PendingBackendJob>::empty(),
            r.workers.spawned == 0,
            r.workers.next_wake == 0,
            r.workers.wake@ == seq![0u32, 0u32, 0u32, 0u32],
    {
        RpcCore {
            pool: OwnerPool::new(),
            jobs: Ring::new(BACKEND_JOB_RING_CAP),
            workers: WorkerPool { spawned: 0, next_wake: 0, wake: [0u32; 4] },
        }
    }

    /// Queues a job and chooses the worker to wake; `None`, with nothing changed, when no
    /// worker runs or the queue is full.
    pub fn try_enqueue_job(&mut self, job: PendingBackendJob) -> (r: Option<usize>)
        requires
            old(self).wf(),
        ensures
            final(self).wf(),
            final(self).pool@ == old(self).pool@,
            match r {
                Some(idx) => {
                    &&& old(self).accepts()
                    &&& idx == old(self).workers.turn()
                    &&& RpcCore::enqueued(old(self), final(self), job)
                },
                None => !old(self).accepts() && RpcCore::queue_unchanged(old(self), final(self)),
            },
    {
        if self.workers.worker_count() == 0 {
            return None;
        }
        if !self.jobs.push(job) {
            return None;
        }
        self.workers.wake_one_worker()
    }

    /// The job of a deferred call of the remote filesystem.
    pub open spec fn remote_job(
        op_id: PendingOpId,
        backend_op: BackendOpKind,
        target_ep: u64,
        request: Request,
        data: [u64; 6],
        payload_out_bytes: u32,
    ) -> PendingBackendJob {
        PendingBackendJob {
            target_ep,
            op_kind: backend_op,
            payload_out_bytes,
            op_id: op_id.0,
            request,
            ctx: BackendOpCtx { badge: 0, client_handle_raw: 0, stage: 0, data },
        }
    }

    /// Queues a call to a remote filesystem server; the reply's registers are enough.
    pub fn enqueue_saltyfs_op(
        &mut self,
        op_id: PendingOpId,
        backend_op: BackendOpKind,
        target_ep: u64,
        request: Request,
        data: [u64; 6],
    ) -> (r: Option<usize>)
        requires
            old(self).wf(),
        ensures
            final(self).wf(),
            final(self).pool@ == old(self).pool@,
            match r {
                Some(idx) => {
                    &&& old(self).accepts()
                    &&& idx == old(self).workers.turn()
                    &&& RpcCore::enqueued(
                        old(self),
                        final(self),
                        RpcCore::remote_job(op_id, backend_op, target_ep, request, data, 0),
                    )
                },
                None => !old(self).accepts() && RpcCore::queue_unchanged(old(self), final(self)),
            },
    {
        self.enqueue_backend_op(op_id, backend_op, target_ep, request, data, 0)
    }

    /// Queues a call to any other server.
    pub fn enqueue_backend_op(
        &mut self,
        op_id: PendingOpId,
        backend_op: BackendOpKind,
        target_ep: u64,
        request: Request,
        data: [u64; 6],
        payload_out_bytes: u32,
    ) -> (r: Option<usize>)
        requires
            old(self).wf(),
        ensures
            final(self).wf(),
            final(self).pool@ == old(self).pool@,
            match r {
                Some(idx) => {
                    &&& old(self).accepts()
                    &&& idx == old(self).workers.turn()
                    &&& RpcCore::enqueued(
                        old(self),
                        final(self),
                        RpcCore::remote_job(
                            op_id,
                            backend_op,
                            target_ep,
                            request,
                            data,
                            payload_out_bytes,
                        ),
                    )
                },
                None => !old(self).accepts() && RpcCore::queue_unchanged(old(self), final(self)),
            },
    {
        let job = PendingBackendJob {
            target_ep,
            op_kind: backend_op,
            payload_out_bytes,
            op_id: op_id.raw(),
            request,
            ctx: BackendOpCtx { badge: 0, client_handle_raw: 0, stage: 0, data },
        };
        self.try_enqueue_job(job)
    }
}

/// The table `post` is `pre` with a new operation `id` in the first free slot from the hint
/// on.
pub open spec fn op_started(
    pre: PoolView,
    post: PoolView,
    id: PendingOpId,
    kind: PendingOpKind,
    badge: u64,
    client: Handle,
    reply_slot: u64,
) -> bool {
    let i = id.slot_of();
    &&& first_from(
        pre.hint as int,
        i,
        MAX_PENDING_OPS as int,
        |k: int| pre.ops[k].state == OpState::Free,
    )
    &&& id.0 == id_word(i as u32, next_generation(pre.ops[i].generation))
    &&& post == (PoolView {
        hint: ((i + 1) % MAX_PENDING_OPS as int) as u32,
        ..pre.with_op(id, started_op(pre.ops[i], kind, badge, client, reply_slot))
    })
    &&& post.live(id)
}

/// Every slot of the table is taken.
pub open spec fn table_full(p: PoolView) -> bool {
    forall|i: int| 0 <= i < MAX_PENDING_OPS ==> (#[trigger] p.ops[i]).state != OpState::Free
}

impl RpcCore {
    /// A call was queued for operation `id`, which was put into the table for it.
    pub open spec fn call_queued(
        pre: &RpcCore,
        post: &RpcCore,
        id: PendingOpId,
        kind: PendingOpKind,
        badge: u64,
        client: Handle,
        reply_slot: u64,
        job: PendingBackendJob,
    ) -> bool {
        &&& pre.accepts()
        &&& op_started(pre.pool@, post.pool@, id, kind, badge, client, reply_slot)
        &&& job.op_id == id.0
        &&& RpcCore::enqueued(pre, post, job)
    }

    /// No call was queued: the table is full, or the operation was put into it and taken out
    /// again because no job can be taken.
    pub open spec fn call_refused(
        pre: &RpcCore,
        post: &RpcCore,
        kind: PendingOpKind,
        badge: u64,
        client: Handle,
        reply_slot: u64,
    ) -> bool {
        &&& RpcCore::queue_unchanged(pre, post)
        &&& (table_full(pre.pool@) && post.pool@ == pre.pool@) || (!pre.accepts() && exists|
            id: PendingOpId,
            mid: PoolView,
        | #[trigger]
            op_started(pre.pool@, mid, id, kind, badge, client, reply_slot) && post.pool@
                == mid.freed(id))
    }

    /// Puts an operation into the table and queues its call. `None` when that cannot be; the
    /// caller's reply is then still the caller's. The operation's identifier is put into the
    /// job.
    pub fn start_call(
        &mut self,
        kind: PendingOpKind,
        badge: u64,
        client: Handle,
        reply_slot: u64,
        job: PendingBackendJob,
    ) -> (r: Option<(PendingOpId, usize)>)
        requires
            old(self).wf(),
        ensures
            final(self).wf(),
            match r {
                Some((id, idx)) => RpcCore::call_queued(
                    old(self),
                    final(self),
                    id,
                    kind,
                    badge,
                    client,
                    reply_slot,
                    (PendingBackendJob { op_id: id.0, ..job }),
                ) && idx == old(self).workers.turn(),
                None => RpcCore::call_refused(
                    old(self),
                    final(self),
                    kind,
                    badge,
                    client,
                    reply_slot,
                ),
            },
            r is Some <==> old(self).accepts() && !table_full(old(self).pool@),
    {
        let id: PendingOpId = match self.pool.allocate(kind, badge, client, reply_slot) {
            Some(id) => id,
            None => {
                return None;
            },
        };
        proof {
            assert(old(self).pool@.ops[id.slot_of()].state == OpState::Free);
            assert(op_started(
                old(self).pool@,
                self.pool@,
                id,
                kind,
                badge,
                client,
                reply_slot,
            ));
        }
        let mut queued = job;
        queued.op_id = id.raw();
        match self.try_enqueue_job(queued) {
            Some(idx) => Some((id, idx)),
            None => {
                let _ = self.pool.take_reply_and_free(id);
                None
            },
        }
    }
}

/// Where the workers signal completions, and with which bits.
pub struct CompletionSignal {
    pub cap: u64,
    pub bits: u64,
}

/// Sets the notification that workers signal.
pub fn set_worker_completion_ntfn(signal: &mut CompletionSignal, cap: u64, bits: u64)
    ensures
        final(signal).cap == cap,
        final(signal).bits == bits,
{
    signal.cap = cap;
    signal.bits = bits;
}

/// The notification to signal; `None` before one was set.
pub fn signal_owner_completion(signal: &CompletionSignal) -> (r: Option<(u64, u64)>)
    ensures
        r == (if signal.cap == 0 {
            None
        } else {
            Some((signal.cap, signal.bits))
        }),
{
    if signal.cap == 0 {
        None
    } else {
        Some((signal.cap, signal.bits))
    }
}

/// A worker takes up a job: it may make the call only when the operation was still
/// queued.
pub fn begin_backend_job(
    pool: &mut OwnerPool,
    inflight: &mut WorkerInflight,
    idx: usize,
    job: &PendingBackendJob,
) -> (r: bool)
    requires
        pool_wf(old(pool)@),
    ensures
        pool_wf(final(pool)@),
        ({
            let id = PendingOpId(job.op_id);
            &&& r == (old(pool)@.live(id) && old(pool)@.op(id).state == OpState::Queued)
            &&& final(pool)@ == old(pool)@.moved(id, OpState::Queued, OpState::Running)
            &&& final(inflight).slots@ == (if r && idx < MAX_WORKERS {
                old(inflight).slots@.update(idx as int, job.op_id)
            } else {
                old(inflight).slots@
            })
        }),
{
    let id: PendingOpId = PendingOpId::from_raw(job.op_id);
    if !pool.mark_running(id) {
        return false;
    }
    worker_enter(inflight, idx, id);
    true
}

/// The payload that a completion carries: none when the call failed or none was asked
/// for, and raw bytes cut to what was asked for and to the maximum.
pub open spec fn delivered(
    payload: BackendPayloadView,
    backend_err: u64,
    wanted: u32,
) -> BackendPayloadView {
    if backend_err != 0 || wanted == 0 {
        BackendPayloadView::Empty
    } else {
        match payload {
            BackendPayloadView::Bytes(b) => BackendPayloadView::Bytes(
                prefix(prefix(b, wanted as int), BACKEND_PAYLOAD_MAX as int),
            ),
            other => other,
        }
    }
}

/// A worker is back from the call: it becomes idle, and the answer is passed on unless
/// the operation was cancelled meanwhile.
pub fn finish_backend_job(
    pool: &mut OwnerPool,
    inflight: &mut WorkerInflight,
    idx: usize,
    job: &PendingBackendJob,
    backend_err: u64,
    backend_reply: Reply,
    payload: BackendPayload,
) -> (r: Option<PendingBackendCompletion>)
    requires
        pool_wf(old(pool)@),
    ensures
        pool_wf(final(pool)@),
        ({
            let id = PendingOpId(job.op_id);
            &&& final(pool)@ == old(pool)@.moved(id, OpState::Running, OpState::Completing)
            &&& final(inflight).slots@ == (if idx < MAX_WORKERS {
                old(inflight).slots@.update(idx as int, 0)
            } else {
                old(inflight).slots@
            })
            &&& match r {
                Some(c) => {
                    &&& old(pool)@.live(id) && old(pool)@.op(id).state == OpState::Running
                    &&& c.op_kind == job.op_kind
                    &&& c.op_id == job.op_id
                    &&& c.backend_err == backend_err
                    &&& c.backend_reply == backend_reply
                    &&& c.ctx == job.ctx
                    &&& c.payload@ == delivered(payload@, backend_err, job.payload_out_bytes)
                },
                None => !(old(pool)@.live(id) && old(pool)@.op(id).state == OpState::Running),
            }
        }),
{
    let id: PendingOpId = PendingOpId::from_raw(job.op_id);
    worker_leave(inflight, idx);
    if !pool.try_complete(id) {
        return None;
    }
    let carried: BackendPayload = if backend_err == 0 && job.payload_out_bytes > 0 {
        match payload {
            BackendPayload::Bytes(b) => {
                let first: Vec<u8> = copy_prefix(b.as_slice(), job.payload_out_bytes as usize);
                BackendPayload::Bytes(copy_prefix(first.as_slice(), BACKEND_PAYLOAD_MAX))
            },
            other => other,
        }
    } else {
        BackendPayload::Empty
    };
    Some(
        PendingBackendCompletion {
            op_kind: job.op_kind,
            op_id: job.op_id,
            backend_err,
            backend_reply,
            ctx: job.ctx,
            payload: carried,
        },
    )
}

/// Jobs reach the workers in the order in which they were queued: what is queued behind
/// `q` comes out after all of `q`.
pub proof fn law_jobs_are_served_in_order(q: Seq<PendingBackendJob>, job: PendingBackendJob)
    ensures
        q.push(job).take(q.len() as int) == q,
        q.push(job)[q.len() as int] == job,
        q.len() > 0 ==> q.push(job)[0] == q[0] && q.push(job).skip(1) == q.skip(1).push(job),
{
    assert(q.push(job).take(q.len() as int) =~= q);
    if q.len() > 0 {
        assert(q.push(job).skip(1) =~= q.skip(1).push(job));
    }
}

} // verus!
