//! The loop that owns all state: what each message and each answer leads to, and how the
//! service comes up.

use crate::backend_rpc::{PendingBackendCompletion, RpcCore, BACKEND_OP_NONE, WORKER_COMPLETION_NTFN_BIT};
use crate::fs::proc_rpc::{
    complete_procfs_read, complete_procfs_readdir, complete_procfs_readlink, is_bare, link_taken,
    listing_goes_on, listing_taken, read_taken, Done, KernelFacts, ReadDone,
};
use crate::fs::saltyfs_done::{complete_saltyfs_op, disk_done, op_of, DiskDone};
use crate::namei_resume::{complete_namei_resume, walk_taken, ResumeDone};
use crate::pending_ops::{PendingOpId, ReplyAction, MAX_WORKERS};
use crate::provision::{complete_provision_tty_stdio_to, provision_answered, ProvisionDone};
use crate::state::{VfsModel, VfsState};
use crate::status::Status;
use crate::wire::{put_bytes, reg_bytes, Opcode, Reply, Request};
use vstd::prelude::*;
use vstd::string::*;

verus! {

/// How long the loop waits when nothing else is due.
pub const OWNER_IDLE_TICK_NS: u64 = 100_000_000;

/// The loop tells of its state once in so many ticks.
pub const OWNER_TIMEOUT_LOG_EVERY: u64 = 10;

/// A request that takes so long is told of.
pub const OWNER_SLOW_OP_MS: u64 = 25;

/// The filesystem of the disk is ready.
pub const ROOTFS_STATUS_READY: u8 = 1;

/// The bits of a notification that terminals signal.
pub const TTY_NTFN_BITS_MASK: u64 = 0x7fff_ffff_ffff_ffff;

// ---- answers -----------------------------------------------------------------------

/// What became of an answer of another server.
pub enum Settled {
    /// A request for standard descriptors waited for it.
    Provision(ProvisionDone),
    /// A read of a process file waited for it.
    ProcRead(ReadDone),
    /// A link of a process waited for it.
    ProcLink(Done),
    /// A listing of processes waited for it.
    ProcList(Done),
    /// A request to the disk has ended; this is owed to its caller.
    Disk { answer: Option<ReplyAction> },
    /// A walk waited for it.
    Walk(ResumeDone),
    /// None of these waited for it.
    Unclaimed,
}

/// What a walk that waited makes of an answer once the disk's part of it has been kept.
pub open spec fn walk_after_disk(
    m: VfsModel,
    post: VfsModel,
    before: &RpcCore,
    after: &RpcCore,
    c: &PendingBackendCompletion,
    r: Settled,
) -> bool {
    let (s, p, done) = disk_done(m, before.pool@, c);
    match done {
        DiskDone::Ended { answer } => {
            &&& r == (Settled::Disk { answer })
            &&& post == s
            &&& after.pool@ == p
            &&& RpcCore::queue_unchanged(before, after)
        },
        DiskDone::GoesOn => exists|mid: RpcCore, d: ResumeDone|
            #![trigger walk_taken(s, post, &mid, after, c, d)]
            {
                &&& mid.pool@ == p
                &&& RpcCore::queue_unchanged(before, &mid)
                &&& walk_taken(s, post, &mid, after, c, d)
                &&& if d is NotMine {
                    r is Unclaimed
                } else {
                    r == Settled::Walk(d)
                }
            },
    }
}

/// What becomes of an answer. The requests that may have waited for it are asked in turn:
/// standard descriptors, process files, links and listings, the disk, and walks. What the
/// disk tells is kept before a walk goes on with it.
pub open spec fn settled(
    m: VfsModel,
    post: VfsModel,
    before: &RpcCore,
    after: &RpcCore,
    init_ep: u64,
    c: &PendingBackendCompletion,
    f: &KernelFacts,
    r: Settled,
) -> bool {
    match r {
        Settled::Provision(d) => d !is NotMine && provision_answered(m, post, before, after, c, d),
        _ => {
            &&& provision_answered(m, m, before, before, c, ProvisionDone::NotMine)
            &&& match r {
                Settled::ProcRead(d) => d !is NotMine && read_taken(
                    m,
                    post,
                    before,
                    after,
                    init_ep,
                    c,
                    f,
                    d,
                ),
                _ => {
                    &&& read_taken(m, m, before, before, init_ep, c, f, ReadDone::NotMine)
                    &&& match r {
                        Settled::ProcLink(d) => d !is NotMine && post == m && link_taken(
                            before,
                            after,
                            c,
                            d,
                        ) && RpcCore::queue_unchanged(before, after),
                        _ => {
                            &&& link_taken(before, before, c, Done::NotMine)
                            &&& match r {
                                Settled::ProcList(d) => d !is NotMine && listing_taken(
                                    m,
                                    post,
                                    before,
                                    after,
                                    c,
                                    d,
                                ) && RpcCore::queue_unchanged(before, after),
                                _ => {
                                    &&& listing_taken(m, m, before, before, c, Done::NotMine)
                                    &&& walk_after_disk(m, post, before, after, c, r)
                                },
                            }
                        },
                    }
                },
            }
        },
    }
}

/// Takes an answer of another server. An answer that is unclaimed may be waited for
/// elsewhere; see [`pass_reply_through`] for one that nobody waits for.
pub fn complete_backend_op(
    state: &mut VfsState,
    rpc: &mut RpcCore,
    init_ep: u64,
    c: &PendingBackendCompletion,
    f: &KernelFacts,
) -> (r: Settled)
    requires
        old(rpc).wf(),
        listing_goes_on(old(state)@, old(rpc).pool@, c) ==> c.ctx.data@[2] < u64::MAX,
    ensures
        final(rpc).wf(),
        settled(old(state)@, final(state)@, old(rpc), final(rpc), init_ep, c, f, r),
{
    match complete_provision_tty_stdio_to(state, rpc, c) {
        ProvisionDone::NotMine => {},
        d => {
            return Settled::Provision(d);
        },
    }
    match complete_procfs_read(state, rpc, init_ep, c, f) {
        ReadDone::NotMine => {},
        d => {
            return Settled::ProcRead(d);
        },
    }
    match complete_procfs_readlink(rpc, c) {
        Done::NotMine => {},
        d => {
            return Settled::ProcLink(d);
        },
    }
    match complete_procfs_readdir(state, rpc, c) {
        Done::NotMine => {},
        d => {
            return Settled::ProcList(d);
        },
    }
    match complete_saltyfs_op(state, &mut rpc.pool, c) {
        DiskDone::Ended { answer } => {
            return Settled::Disk { answer };
        },
        DiskDone::GoesOn => {},
    }
    let ghost mid = *rpc;
    let ghost s = state@;
    let d = complete_namei_resume(state, rpc, c);
    assert(walk_taken(s, state@, &mid, rpc, c, d));
    let ghost told = d;
    let r = match d {
        ResumeDone::NotMine => Settled::Unclaimed,
        x => Settled::Walk(x),
    };
    assert(mid.pool@ == disk_done(old(state)@, old(rpc).pool@, c).1);
    assert(s == disk_done(old(state)@, old(rpc).pool@, c).0);
    assert(RpcCore::queue_unchanged(old(rpc), &mid));
    assert(told is NotMine ==> r is Unclaimed);
    assert(told !is NotMine ==> r == Settled::Walk(told));
    assert(walk_after_disk(old(state)@, state@, old(rpc), rpc, c, r));
    r
}

/// Sees to an answer that nobody waits for: the caller of the operation gets it as it is
/// when it was asked for so, and is told that it was unexpected otherwise. The result is the
/// caller's kept reply, or zero, and what to send.
pub fn pass_reply_through(rpc: &mut RpcCore, c: &PendingBackendCompletion) -> (r: (u64, Reply))
    requires
        old(rpc).wf(),
    ensures
        final(rpc).wf(),
        RpcCore::queue_unchanged(old(rpc), final(rpc)),
        final(rpc).pool@ == old(rpc).pool@.freed(op_of(c)),
        r.0 == old(rpc).pool@.owed_reply(op_of(c)),
        if c.op_kind == BACKEND_OP_NONE {
            r.1 == c.backend_reply
        } else {
            is_bare(r.1, Status::InvalidOperation)
        },
{
    let reply: Reply = if c.op_kind == BACKEND_OP_NONE {
        c.backend_reply
    } else {
        Reply::bare(Status::InvalidOperation)
    };
    let slot: u64 = rpc.pool.take_reply_and_free(PendingOpId::from_raw(c.op_id));
    (slot, reply)
}

// ---- messages ----------------------------------------------------------------------

/// How long the loop waits: until the next thing that is due, and no longer than a tick.
/// Zero means that nothing is due.
pub fn owner_timer_ns(poll_timeout_ns: u64) -> (r: u64)
    ensures
        r == if poll_timeout_ns == 0 || poll_timeout_ns > OWNER_IDLE_TICK_NS {
            OWNER_IDLE_TICK_NS
        } else {
            poll_timeout_ns
        },
{
    if poll_timeout_ns == 0 || poll_timeout_ns > OWNER_IDLE_TICK_NS {
        OWNER_IDLE_TICK_NS
    } else {
        poll_timeout_ns
    }
}

/// How many endpoints the loop listens on: that of the service, and that of the network
/// server's calls once there is one.
pub fn endpoint_count(netsrv_callback_ep: u64) -> (r: usize)
    ensures
        r == if netsrv_callback_ep != 0 {
            2usize
        } else {
            1usize
        },
{
    if netsrv_callback_ep != 0 {
        2
    } else {
        1
    }
}

/// What woke the loop.
#[derive(Clone, Copy, PartialEq, Eq, Structural, Debug)]
pub enum Wake {
    /// The timer: answers are taken, and whatever waits is tried again.
    Tick,
    /// Terminals signalled: answers are taken, and these terminals are seen to.
    Terminals { bits: u64 },
    /// Something else signalled: answers are taken, and whatever waits is tried again.
    Signal,
    /// A request.
    Request,
}

/// What woke the loop. The timer counts before all else.
pub fn classify_wake(is_timeout: bool, is_notification: bool, badge: u64) -> (r: Wake)
    ensures
        r == if is_timeout {
            Wake::Tick
        } else if !is_notification {
            Wake::Request
        } else if badge & TTY_NTFN_BITS_MASK != 0 {
            Wake::Terminals { bits: badge & TTY_NTFN_BITS_MASK }
        } else {
            Wake::Signal
        },
{
    if is_timeout {
        return Wake::Tick;
    }
    if !is_notification {
        return Wake::Request;
    }
    let bits: u64 = badge & TTY_NTFN_BITS_MASK;
    if bits != 0 {
        Wake::Terminals { bits }
    } else {
        Wake::Signal
    }
}

/// Workers that signal are not taken for a terminal: with their bit or without it, the same
/// terminals are seen to.
pub proof fn law_workers_are_no_terminal(bits: u64)
    ensures
        (bits | WORKER_COMPLETION_NTFN_BIT) & TTY_NTFN_BITS_MASK == bits & TTY_NTFN_BITS_MASK,
{
    assert((bits | 0x8000_0000_0000_0000u64) & 0x7fff_ffff_ffff_ffffu64 == bits
        & 0x7fff_ffff_ffff_ffffu64) by (bit_vector);
}

/// The state of the disk's filesystem in a word.
pub fn rootfs_status_name(status: u8) -> (r: &'static str)
    ensures
        r@ == if status == 0 {
            "pending"@
        } else if status == 1 {
            "ready"@
        } else if status == 2 {
            "failed"@
        } else {
            "unknown"@
        },
{
    if status == 0 {
        "pending"
    } else if status == 1 {
        "ready"
    } else if status == 2 {
        "failed"
    } else {
        "unknown"
    }
}

/// Whether the loop tells of its state: the disk is not ready, or it is mounted and not yet
/// the root.
pub fn should_log_owner_timeout_state(state: &VfsState, rootfs_status: u8) -> (r: bool)
    ensures
        r == (rootfs_status != ROOTFS_STATUS_READY || (state@.boot_dirs.real_root_mount.is_valid()
            && state@.boot_dirs.real_root_mount != state@.root_mount)),
{
    rootfs_status != ROOTFS_STATUS_READY || (state.boot_dirs.real_root_mount.is_valid()
        && state.boot_dirs.real_root_mount != state.root_mount)
}

/// Counts a tick, and says whether the loop tells of its state at it.
pub fn count_tick(ticks: u64) -> (r: (u64, bool))
    ensures
        r.0 == ticks.wrapping_add(1),
        r.1 == (r.0 % OWNER_TIMEOUT_LOG_EVERY == 0),
{
    let next: u64 = ticks.wrapping_add(1);
    (next, next % OWNER_TIMEOUT_LOG_EVERY == 0)
}

/// How long a request took, when it took long. A clock that cannot be read shows zero.
pub fn slow_op_ns(start_ns: u64, end_ns: u64) -> (r: Option<u64>)
    ensures
        r == if start_ns != 0 && end_ns >= start_ns && (end_ns - start_ns) / 1_000_000
            >= OWNER_SLOW_OP_MS {
            Some((end_ns - start_ns) as u64)
        } else {
            None
        },
{
    if start_ns == 0 || end_ns < start_ns {
        return None;
    }
    let took: u64 = end_ns - start_ns;
    if took / 1_000_000 >= OWNER_SLOW_OP_MS {
        Some(took)
    } else {
        None
    }
}

// ---- coming up ---------------------------------------------------------------------

/// Length of a request that carries flags in its last word.
pub const REGISTER_LENGTH: u64 = 32;

/// Everyone who looks the service up gets an endpoint with a badge of their own.
pub const ENTRY_FLAG_BADGE_AS_CALLER: u64 = 1;

/// The request that makes the service known by its name.
pub fn register_request() -> (r: Request)
    ensures
        r.op == Opcode::NamesrvRegister,
        r.length == REGISTER_LENGTH,
        r.regs@[0] == 3,
        reg_bytes(r.regs@, 1, 3) == "vfs".spec_bytes(),
        r.regs@[31] == ENTRY_FLAG_BADGE_AS_CALLER,
        forall|i: int| 2 <= i < 31 ==> #[trigger] r.regs@[i] == 0,
{
    proof {
        reveal_strlit("vfs");
        is_ascii_spec_bytes("vfs");
    }
    let mut r = Request::bare(Opcode::NamesrvRegister);
    put_bytes(&mut r.regs, 1, "vfs".as_bytes());
    let ghost named = r.regs@;
    r.regs[0] = 3;
    r.regs[31] = ENTRY_FLAG_BADGE_AS_CALLER;
    r.length = REGISTER_LENGTH;
    assert(reg_bytes(r.regs@, 1, 3) =~= reg_bytes(named, 1, 3));
    r
}

/// How workers signal the loop.
#[derive(Clone, Copy, PartialEq, Eq, Structural, Debug)]
pub enum Binding {
    /// There is nothing to signal.
    Unbound,
    /// Workers signal this notification with these bits of their own.
    Bound { ntfn: u64, bits: u64 },
    /// The same, and this slot is given back.
    BoundAndFree { ntfn: u64, bits: u64, free: u64 },
}

/// Chooses how workers signal the loop. It can be bound to one notification only, that of
/// terminals. Workers signal it through a copy that carries their bit, or, where none could
/// be made, with their bit. `alias` is the slot for the copy, if there was one, and how
/// making the copy went.
pub fn bind_boot_notifications(pty_ntfn: u64, bind_err: u64, alias: Option<(u64, u64)>) -> (r: Binding)
    ensures
        r == if pty_ntfn == 0 || bind_err != 0 {
            Binding::Unbound
        } else {
            match alias {
                None => Binding::Bound { ntfn: pty_ntfn, bits: WORKER_COMPLETION_NTFN_BIT },
                Some((slot, err)) => if err == 0 {
                    Binding::Bound { ntfn: slot, bits: 0 }
                } else {
                    Binding::BoundAndFree {
                        ntfn: pty_ntfn,
                        bits: WORKER_COMPLETION_NTFN_BIT,
                        free: slot,
                    }
                },
            }
        },
{
    if pty_ntfn == 0 || bind_err != 0 {
        return Binding::Unbound;
    }
    match alias {
        None => Binding::Bound { ntfn: pty_ntfn, bits: WORKER_COMPLETION_NTFN_BIT },
        Some((slot, err)) => {
            if err == 0 {
                Binding::Bound { ntfn: slot, bits: 0 }
            } else {
                Binding::BoundAndFree {
                    ntfn: pty_ntfn,
                    bits: WORKER_COMPLETION_NTFN_BIT,
                    free: slot,
                }
            }
        },
    }
}

/// The endpoint that the network server calls back on, and a slot that is given back. There
/// is an endpoint when there is a network server, a slot, memory, and all went well.
pub fn allocate_netsrv_callback_ep(
    netsrv_ep: u64,
    slot: Option<u64>,
    memory: bool,
    retype_err: u64,
) -> (r: (Option<u64>, Option<u64>))
    ensures
        r == if netsrv_ep == 0 || slot is None {
            (None, None)
        } else if memory && retype_err == 0 {
            (slot, None)
        } else {
            (None, slot)
        },
{
    if netsrv_ep == 0 {
        return (None, None);
    }
    match slot {
        None => (None, None),
        Some(s) => if memory && retype_err == 0 {
            (Some(s), None)
        } else {
            (None, Some(s))
        },
    }
}

/// How many of the first `n` threads came up before one did not.
pub open spec fn up_to_failure(started: Seq<bool>, n: int) -> nat
    decreases n,
{
    if n <= 0 {
        0
    } else if up_to_failure(started, n - 1) == n - 1 && started[n - 1] {
        n as nat
    } else {
        up_to_failure(started, n - 1)
    }
}

/// How many workers run after an attempt to start them: those before the first that could
/// not be started. Workers that run already are not started again.
pub fn spawn_workers(running: usize, started: &[bool; 4]) -> (r: usize)
    ensures
        r <= MAX_WORKERS,
        r == if running != 0 {
            0
        } else {
            up_to_failure(started@, MAX_WORKERS as int)
        },
{
    if running != 0 {
        return 0;
    }
    let mut n: usize = 0;
    while n < MAX_WORKERS && started[n]
        invariant
            n <= MAX_WORKERS,
            started@.len() == MAX_WORKERS,
            up_to_failure(started@, n as int) == n,
        decreases MAX_WORKERS - n,
    {
        n = n + 1;
    }
    proof {
        lemma_failure_stops(started@, n as int, MAX_WORKERS as int);
    }
    n
}

proof fn lemma_failure_stops(started: Seq<bool>, n: int, k: int)
    requires
        0 <= n <= k <= started.len(),
        up_to_failure(started, n) == n,
        n < k ==> !started[n],
    ensures
        up_to_failure(started, k) == n,
    decreases k - n,
{
    if n < k {
        if n + 1 < k {
            lemma_failure_stops(started, n, k - 1);
        }
    }
}

/// Keeps the slot that a worker receives on; there is no worker with a higher number.
pub fn set_worker_recv_slot(slots: &mut [u64; 4], idx: usize, slot: u64)
    ensures
        final(slots)@ == if idx < MAX_WORKERS {
            old(slots)@.update(idx as int, slot)
        } else {
            old(slots)@
        },
{
    if idx >= MAX_WORKERS {
        return;
    }
    slots[idx] = slot;
}

/// What a worker does once no job is left: it sleeps on the counter that it last saw, unless
/// the counter has moved meanwhile.
pub fn worker_sleeps(observed: u32, counter: u32) -> (r: bool)
    ensures
        r == (observed == counter),
{
    observed == counter
}

} // verus!
