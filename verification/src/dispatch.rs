//! Requests to the service: which part of it sees to each, and what the caller is told.

use crate::backend_rpc::RpcCore;
use crate::fs::proc_rpc::is_bare;
use crate::fs::statfs::{
    handle_vfs_fstatfs, handle_vfs_mount_list, handle_vfs_statfs, statfs_answer, statfs_asked,
    valid_count, MountInfo, StatfsStart, MOUNT_LIST_MAX_ENTRIES,
};
use crate::fs::tmpfs::{acquire_export_ref, release_export_ref};
use crate::mount_requests::{
    handle_vfs_mount, handle_vfs_pivot_root, handle_vfs_remount, handle_vfs_umount, mount_asked,
    pivot_asked, remount_asked, umount_asked, MountRequest, PivotRequest, RemountRequest,
    UmountRequest,
};
use crate::pending_ops::{active, badge_cancelled, pool_wf, CancelDisposition, OwnerPool, PoolView};
use crate::provision::{handle_provision_tty_stdio_to, provision_handled, ProvisionStart};
use crate::state::{Effect, VfsModel, VfsState};
use crate::status::Status;
use crate::wire::{zero_regs, Reply, SysMemInfo};
use vstd::prelude::*;

verus! {

/// Where requests of the network server arrive, once it has an endpoint to call back on.
pub const SOURCE_NETSRV_CALLBACK_EP: u32 = 1;

/// The badge that the network server calls back with.
pub const NETSRV_CALLBACK_BADGE: u64 = 0x4e45_5453_5256_4342;

/// A file of the in-memory filesystem backs a mapping.
pub const MMAP_BACKING_TMPFS: u64 = 3;

/// What a request asks for.
#[derive(Clone, Copy, PartialEq, Eq, Structural, Debug)]
pub enum Label {
    NetComplete,
    ResolveBacking,
    ResolvePathBacking,
    PagerRead,
    PagerWrite,
    ClientRegister,
    ClientExit,
    ProcClientCreate,
    ProcClientClone,
    ProcClientExec,
    ProcClientDrop,
    ProvisionTtyStdioTo,
    Mount,
    Umount,
    PivotRoot,
    Remount,
    Statfs,
    Fstatfs,
    MountList,
    ReleaseTmpfs,
    AcquireTmpfs,
    /// A request of a personality.
    Other(u64),
}

/// A request to the service.
#[derive(Clone, Copy)]
pub struct Call {
    pub label: Label,
    pub length: u64,
    pub regs: [u64; 32],
}

/// A part of the service that sees to a request itself.
#[derive(Clone, Copy, PartialEq, Eq, Structural, Debug)]
pub enum Place {
    /// An answer of the network server.
    NetCompletion,
    ResolveBacking,
    ResolvePathBacking,
    PagerRead,
    PagerWrite,
    /// Descriptors are copied to a new client.
    CloneFds,
    /// A client runs another program.
    ClientExec,
    /// The personalities are asked in turn.
    Personality,
}

/// What became of a request.
pub enum Dispatch {
    /// The caller is answered.
    Reply(Reply),
    /// The caller's kept reply is released and the caller answered.
    ReleaseAndReply { release: Option<u64>, label: Status },
    /// The caller's reply could not be kept; it has been answered.
    Unsaved,
    /// The caller is answered later, and this worker is to be woken.
    Deferred { worker: usize },
    /// The caller is sent the list of mounts.
    Mounts { shown: Vec<MountInfo>, available: u64 },
    Mount(MountRequest),
    Remount(RemountRequest),
    Umount(UmountRequest),
    Pivot(PivotRequest),
    /// Another part sees to it.
    Elsewhere(Place),
}

// ---- cancelling --------------------------------------------------------------------

/// Ends whatever the client of a badge waits for: first what waits for files and sockets,
/// then the operations.
pub fn vfs_cancel_for_badge(
    state: &mut VfsState,
    pool: &mut OwnerPool,
    badge: u64,
    disposition: CancelDisposition,
)
    requires
        pool_wf(old(pool)@),
    ensures
        pool_wf(final(pool)@),
        final(state)@ == old(state)@.telling(Effect::CancelWaiters { badge }),
        final(pool)@ == badge_cancelled(old(pool)@, badge, disposition),
{
    state.tell(Effect::CancelWaiters { badge });
    let _ = pool.cancel_for_badge(badge, disposition);
}

// ---- dispatch ----------------------------------------------------------------------

/// A reply of one word.
pub open spec fn says_word(r: Reply, word: u64) -> bool {
    &&& r.label == Status::Success
    &&& r.length == 1
    &&& r.regs@ == zero_regs().update(0, word)
}

fn word_reply(word: u64) -> (r: Reply)
    ensures
        says_word(r, word),
{
    let mut r = Reply::bare(Status::Success);
    r.length = 1;
    r.regs[0] = word;
    r
}

/// The request came in where only the network server calls.
pub open spec fn from_netsrv(m: VfsModel, source: u32) -> bool {
    source == SOURCE_NETSRV_CALLBACK_EP && m.services.netsrv_callback_ep != 0
}

/// The caller is answered with a bare label.
pub open spec fn tells(r: Dispatch, label: Status) -> bool {
    r matches Dispatch::Reply(a) && is_bare(a, label)
}

/// Neither the state nor the operations changed.
pub open spec fn untouched(m: VfsModel, post: VfsModel, before: &RpcCore, after: &RpcCore) -> bool {
    post == m && *after == *before
}

/// The state after the client of a badge has gone.
pub open spec fn client_gone(
    m: VfsModel,
    post: VfsModel,
    before: &RpcCore,
    after: &RpcCore,
    badge: u64,
    r: Dispatch,
) -> bool {
    &&& post == m.telling(Effect::CancelWaiters { badge }).client_removed(badge)
    &&& after.pool@ == badge_cancelled(before.pool@, badge, CancelDisposition::Drop)
    &&& RpcCore::queue_unchanged(before, after)
    &&& tells(r, Status::Success)
}

/// How the start of a request for standard descriptors is told.
pub open spec fn provision_told(s: ProvisionStart, r: Dispatch) -> bool {
    match s {
        ProvisionStart::Reply(e) => tells(r, e),
        ProvisionStart::ReleaseAndReply { release, label } => r == (Dispatch::ReleaseAndReply {
            release: Some(release),
            label,
        }),
        ProvisionStart::Unsaved => r is Unsaved,
        ProvisionStart::Deferred { worker } => r == (Dispatch::Deferred { worker }),
    }
}

/// How the start of a question for numbers is told.
pub open spec fn statfs_told(s: StatfsStart, r: Dispatch) -> bool {
    match s {
        StatfsStart::Reply(a) => r == Dispatch::Reply(a),
        StatfsStart::ReleaseAndReply { release, label } => r == (Dispatch::ReleaseAndReply {
            release,
            label,
        }),
        StatfsStart::Deferred { worker } => r == (Dispatch::Deferred { worker }),
    }
}

/// What becomes of a request. The network server can do nothing but answer, and nobody else
/// can answer for it.
pub open spec fn dispatched(
    m: VfsModel,
    post: VfsModel,
    before: &RpcCore,
    after: &RpcCore,
    call: &Call,
    badge: u64,
    source: u32,
    reply_slot: Option<u64>,
    mem: Option<SysMemInfo>,
    r: Dispatch,
) -> bool {
    let regs = call.regs@;
    let same = untouched(m, post, before, after);
    if call.label == Label::NetComplete {
        &&& same
        &&& if from_netsrv(m, source) && badge == NETSRV_CALLBACK_BADGE {
            r == Dispatch::Elsewhere(Place::NetCompletion)
        } else {
            tells(r, Status::InvalidOperation)
        }
    } else if from_netsrv(m, source) {
        same && tells(r, Status::InvalidOperation)
    } else {
        match call.label {
            Label::NetComplete => true,
            Label::ResolveBacking => same && r == Dispatch::Elsewhere(Place::ResolveBacking),
            Label::ResolvePathBacking => same && r == Dispatch::Elsewhere(
                Place::ResolvePathBacking,
            ),
            Label::PagerRead => same && r == Dispatch::Elsewhere(Place::PagerRead),
            Label::PagerWrite => same && r == Dispatch::Elsewhere(Place::PagerWrite),
            Label::ClientRegister => {
                let (s, c) = m.client_ensured(regs[0], regs[1] as u8);
                &&& post == s && *after == *before
                &&& tells(
                    r,
                    if c is Some {
                        Status::Success
                    } else {
                        Status::OutOfMemory
                    },
                )
            },
            Label::ProcClientCreate => {
                let (s, c) = m.client_ensured(regs[0], regs[2] as u8);
                &&& post == s && *after == *before
                &&& if c is Some {
                    r matches Dispatch::Reply(a) && says_word(a, regs[0])
                } else {
                    tells(r, Status::OutOfMemory)
                }
            },
            Label::ClientExit => client_gone(m, post, before, after, regs[0], r),
            Label::ProcClientDrop => client_gone(m, post, before, after, regs[0], r),
            Label::ProcClientClone => same && r == Dispatch::Elsewhere(Place::CloneFds),
            Label::ProcClientExec => same && r == Dispatch::Elsewhere(Place::ClientExec),
            Label::ProvisionTtyStdioTo => exists|s: ProvisionStart| #[trigger]
                provision_told(s, r) && provision_handled(
                    m,
                    post,
                    before,
                    after,
                    regs[0],
                    regs[1],
                    reply_slot,
                    s,
                ),
            Label::Mount => same && exists|q: Result<MountRequest, Status>| #[trigger]
                mount_asked(regs, q) && match q {
                    Ok(x) => r == Dispatch::Mount(x),
                    Err(e) => tells(r, e),
                },
            Label::Remount => same && exists|q: Result<RemountRequest, Status>| #[trigger]
                remount_asked(regs, q) && match q {
                    Ok(x) => r == Dispatch::Remount(x),
                    Err(e) => tells(r, e),
                },
            Label::Umount => same && exists|q: Result<UmountRequest, Status>| #[trigger]
                umount_asked(regs, q) && match q {
                    Ok(x) => r == Dispatch::Umount(x),
                    Err(e) => tells(r, e),
                },
            Label::PivotRoot => same && exists|q: Result<PivotRequest, Status>| #[trigger]
                pivot_asked(regs, q) && match q {
                    Ok(x) => r == Dispatch::Pivot(x),
                    Err(e) => tells(r, e),
                },
            Label::Statfs => {
                &&& post == m
                &&& exists|s: StatfsStart| #[trigger]
                    statfs_told(s, r) && statfs_asked(
                        m,
                        before,
                        after,
                        badge,
                        regs,
                        reply_slot,
                        mem,
                        s,
                    )
            },
            Label::Fstatfs => {
                &&& same
                &&& r matches Dispatch::Reply(a)
                &&& statfs_answer(
                    m.file_numbers(
                        if call.length >= 2 && regs[1] != 0 {
                            regs[1]
                        } else {
                            badge
                        },
                        regs[0],
                        mem,
                    ),
                    a,
                )
            },
            Label::MountList => {
                let hs = m.global_mounts();
                let cap = if regs[0] < MOUNT_LIST_MAX_ENTRIES {
                    regs[0] as nat
                } else {
                    MOUNT_LIST_MAX_ENTRIES as nat
                };
                &&& same
                &&& r matches Dispatch::Mounts { shown, available }
                &&& shown@.map_values(|i: MountInfo| i@) == m.mounts_shown(
                    hs,
                    hs.len() as int,
                    cap,
                    mem,
                )
                &&& available == if cap == 0 {
                    hs.len()
                } else {
                    valid_count(hs, hs.len() as int)
                }
            },
            Label::ReleaseTmpfs => if regs[0] != MMAP_BACKING_TMPFS {
                same && tells(r, Status::InvalidArgument)
            } else {
                &&& post == m.export_released(regs[1], regs[2]).0
                &&& *after == *before
                &&& tells(r, Status::Success)
            },
            Label::AcquireTmpfs => if regs[0] != MMAP_BACKING_TMPFS {
                same && tells(r, Status::InvalidArgument)
            } else {
                &&& post == m.export_counted(
                    regs[1],
                    regs[2],
                    if regs[3] == 0 {
                        1
                    } else {
                        regs[3]
                    },
                ).0
                &&& *after == *before
                &&& tells(r, Status::Success)
            },
            Label::Other(_) => same && r == Dispatch::Elsewhere(Place::Personality),
        }
    }
}

/// Forgets the client of a badge, with all that it waits for and has open.
fn drop_client(state: &mut VfsState, rpc: &mut RpcCore, badge: u64) -> (r: Dispatch)
    requires
        old(rpc).wf(),
    ensures
        final(rpc).wf(),
        client_gone(old(state)@, final(state)@, old(rpc), final(rpc), badge, r),
{
    vfs_cancel_for_badge(state, &mut rpc.pool, badge, CancelDisposition::Drop);
    let _ = state.remove_client(badge);
    Dispatch::Reply(Reply::bare(Status::Success))
}

/// Sees to a request. `reply_slot` is the caller's kept reply, where it could be kept; `mem`
/// is what the kernel tells of memory.
pub fn dispatch_request(
    state: &mut VfsState,
    rpc: &mut RpcCore,
    call: &Call,
    badge: u64,
    source: u32,
    reply_slot: Option<u64>,
    mem: Option<SysMemInfo>,
) -> (r: Dispatch)
    requires
        old(rpc).wf(),
    ensures
        final(rpc).wf(),
        dispatched(
            old(state)@,
            final(state)@,
            old(rpc),
            final(rpc),
            call,
            badge,
            source,
            reply_slot,
            mem,
            r,
        ),
{
    let callback: bool = source == SOURCE_NETSRV_CALLBACK_EP && state.services.netsrv_callback_ep
        != 0;
    if call.label == Label::NetComplete {
        if !callback || badge != NETSRV_CALLBACK_BADGE {
            return Dispatch::Reply(Reply::bare(Status::InvalidOperation));
        }
        return Dispatch::Elsewhere(Place::NetCompletion);
    }
    if callback {
        return Dispatch::Reply(Reply::bare(Status::InvalidOperation));
    }
    match call.label {
        Label::NetComplete => Dispatch::Unsaved,
        Label::ResolveBacking => Dispatch::Elsewhere(Place::ResolveBacking),
        Label::ResolvePathBacking => Dispatch::Elsewhere(Place::ResolvePathBacking),
        Label::PagerRead => Dispatch::Elsewhere(Place::PagerRead),
        Label::PagerWrite => Dispatch::Elsewhere(Place::PagerWrite),
        Label::ClientRegister => {
            let made = state.ensure_client(call.regs[0], call.regs[1] as u8);
            if made.is_some() {
                Dispatch::Reply(Reply::bare(Status::Success))
            } else {
                Dispatch::Reply(Reply::bare(Status::OutOfMemory))
            }
        },
        Label::ProcClientCreate => {
            let made = state.ensure_client(call.regs[0], call.regs[2] as u8);
            if made.is_some() {
                Dispatch::Reply(word_reply(call.regs[0]))
            } else {
                Dispatch::Reply(Reply::bare(Status::OutOfMemory))
            }
        },
        Label::ClientExit => drop_client(state, rpc, call.regs[0]),
        Label::ProcClientDrop => drop_client(state, rpc, call.regs[0]),
        Label::ProcClientClone => Dispatch::Elsewhere(Place::CloneFds),
        Label::ProcClientExec => Dispatch::Elsewhere(Place::ClientExec),
        Label::ProvisionTtyStdioTo => {
            let s = handle_provision_tty_stdio_to(
                state,
                rpc,
                call.regs[0],
                call.regs[1],
                reply_slot,
            );
            let r = match s {
                ProvisionStart::Reply(e) => Dispatch::Reply(Reply::bare(e)),
                ProvisionStart::ReleaseAndReply { release, label } => Dispatch::ReleaseAndReply {
                    release: Some(release),
                    label,
                },
                ProvisionStart::Unsaved => Dispatch::Unsaved,
                ProvisionStart::Deferred { worker } => Dispatch::Deferred { worker },
            };
            assert(provision_told(s, r));
            r
        },
        Label::Mount => {
            let q = handle_vfs_mount(&call.regs);
            assert(mount_asked(call.regs@, q));
            match q {
                Ok(x) => Dispatch::Mount(x),
                Err(e) => Dispatch::Reply(Reply::bare(e)),
            }
        },
        Label::Remount => {
            let q = handle_vfs_remount(&call.regs);
            assert(remount_asked(call.regs@, q));
            match q {
                Ok(x) => Dispatch::Remount(x),
                Err(e) => Dispatch::Reply(Reply::bare(e)),
            }
        },
        Label::Umount => {
            let q = handle_vfs_umount(&call.regs);
            assert(umount_asked(call.regs@, q));
            match q {
                Ok(x) => Dispatch::Umount(x),
                Err(e) => Dispatch::Reply(Reply::bare(e)),
            }
        },
        Label::PivotRoot => {
            let q = handle_vfs_pivot_root(&call.regs);
            assert(pivot_asked(call.regs@, q));
            match q {
                Ok(x) => Dispatch::Pivot(x),
                Err(e) => Dispatch::Reply(Reply::bare(e)),
            }
        },
        Label::Statfs => {
            let s = handle_vfs_statfs(state, rpc, badge, &call.regs, reply_slot, mem);
            let ghost told = s;
            let r = match s {
                StatfsStart::Reply(a) => Dispatch::Reply(a),
                StatfsStart::ReleaseAndReply { release, label } => Dispatch::ReleaseAndReply {
                    release,
                    label,
                },
                StatfsStart::Deferred { worker } => Dispatch::Deferred { worker },
            };
            assert(statfs_told(told, r));
            r
        },
        Label::Fstatfs => Dispatch::Reply(
            handle_vfs_fstatfs(state, badge, call.length, call.regs[0], call.regs[1], mem),
        ),
        Label::MountList => {
            let (shown, available) = handle_vfs_mount_list(state, call.regs[0], mem);
            Dispatch::Mounts { shown, available }
        },
        Label::ReleaseTmpfs => {
            if call.regs[0] != MMAP_BACKING_TMPFS {
                return Dispatch::Reply(Reply::bare(Status::InvalidArgument));
            }
            let _ = release_export_ref(state, call.regs[1], call.regs[2]);
            Dispatch::Reply(Reply::bare(Status::Success))
        },
        Label::AcquireTmpfs => {
            if call.regs[0] != MMAP_BACKING_TMPFS {
                return Dispatch::Reply(Reply::bare(Status::InvalidArgument));
            }
            let delta: u64 = if call.regs[3] == 0 {
                1
            } else {
                call.regs[3]
            };
            let _ = acquire_export_ref(state, call.regs[1], call.regs[2], delta);
            Dispatch::Reply(Reply::bare(Status::Success))
        },
        Label::Other(_) => Dispatch::Elsewhere(Place::Personality),
    }
}

/// The answer to a request for a client's copy or another program: when it was done, the
/// badge of the client, which a copy names second and another program first.
pub fn finish_client_request(call: &Call, done: Status) -> (r: Reply)
    requires
        call.label == Label::ProcClientClone || call.label == Label::ProcClientExec,
    ensures
        if done == Status::Success {
            says_word(
                r,
                if call.label == Label::ProcClientClone {
                    call.regs@[1]
                } else {
                    call.regs@[0]
                },
            )
        } else {
            is_bare(r, done)
        },
{
    if done != Status::Success {
        return Reply::bare(done);
    }
    if call.label == Label::ProcClientClone {
        word_reply(call.regs[1])
    } else {
        word_reply(call.regs[0])
    }
}

/// What a request is told that the personalities have been asked about: their answer, or
/// that there is no such request.
pub fn finish_personality_request(posix: Option<Reply>, win32: Option<Reply>) -> (r: Reply)
    ensures
        match posix {
            Some(a) => r == a,
            None => match win32 {
                Some(a) => r == a,
                None => is_bare(r, Status::NotSupported),
            },
        },
{
    match posix {
        Some(a) => a,
        None => match win32 {
            Some(a) => a,
            None => Reply::bare(Status::NotSupported),
        },
    }
}

// ---- laws --------------------------------------------------------------------------

/// Answers for the network server count only where the network server calls, and with its
/// badge. Whoever asks otherwise is refused and changes nothing.
pub proof fn law_net_answers_are_isolated(
    m: VfsModel,
    post: VfsModel,
    before: &RpcCore,
    after: &RpcCore,
    call: &Call,
    badge: u64,
    source: u32,
    reply_slot: Option<u64>,
    mem: Option<SysMemInfo>,
    r: Dispatch,
)
    requires
        dispatched(m, post, before, after, call, badge, source, reply_slot, mem, r),
    ensures
        r == Dispatch::Elsewhere(Place::NetCompletion) <==> call.label == Label::NetComplete
            && from_netsrv(m, source) && badge == NETSRV_CALLBACK_BADGE,
        call.label == Label::NetComplete && !(from_netsrv(m, source) && badge
            == NETSRV_CALLBACK_BADGE) ==> tells(r, Status::InvalidOperation) && untouched(
            m,
            post,
            before,
            after,
        ),
        call.label != Label::NetComplete && from_netsrv(m, source) ==> tells(
            r,
            Status::InvalidOperation,
        ) && untouched(m, post, before, after),
{
}

/// Cancelling for a badge leaves none of its operations active, and every operation of
/// another badge as it was.
pub proof fn law_cancel_ends_operations(p: PoolView, badge: u64, disposition: CancelDisposition, i: int)
    requires
        0 <= i < p.ops.len(),
    ensures
        ({
            let op = badge_cancelled(p, badge, disposition).ops[i];
            if p.ops[i].badge == badge {
                !active(op) && op.reply_slot == p.ops[i].reply_slot
            } else {
                op == p.ops[i]
            }
        }),
{
}

/// The handle of a client that has gone leads nowhere.
pub proof fn law_gone_client_is_forgotten(m: VfsModel, badge: u64)
    requires
        m.client_of_badge(badge) is Some,
    ensures
        !m.client_removed(badge).clients.has(m.client_of_badge(badge)->0),
{
}

} // verus!
