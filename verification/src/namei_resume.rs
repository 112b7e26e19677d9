//! Walks that go on after an answer, terminals that paths name, and lookups for clients.

use crate::arena::Handle;
use crate::backend_rpc::{
    BackendOpCtx, PendingBackendCompletion, PendingBackendJob, Progress, RpcCore,
    BACKEND_OP_TTYSRV_GET_GENERATION,
};
use crate::boot_ops::device_inode;
use crate::bootstrap::{boot_child, mode_for, WalkMode};
use crate::bytes::{
    cut, decimal, has_prefix, law_decimal_round_trip, parse_decimal_u32, parsed, push_decimal,
    SLASH,
};
use crate::continuation::{chained, done_state, fail_continuation, transition_to_chained_op};
use crate::files::{PathAnchor, DEV_PTY_SLAVE, PERS_POSIX};
use crate::fs::procfs::{lookup_dynamic_path, PidFacts, PidFactsView};
use crate::fs::saltyfs_done::{keep_walk, kept_walk, op_of, outcome_of, walk_of, with_walk};
use crate::fs::saltyfs_ops::{
    call_fits, call_noted, job_queued, lemma_noted_and_freed, no_disk_call, note_call, two_words,
};
use crate::fs::saltyfs_wire::{asks_words, call_outcome, one_word_request};
use crate::identity::{FsInstanceId, VnodeKey};
use crate::namei::{
    lookup_path_dynamic_inner, lookup_path_dynamic_walk, rpc_same, walk_settled, WalkView,
};
use crate::namei_state::{
    NameiResumeAux, NameiResumeState, ResumeView, NAMEI_STEP_AFTER_ENSURE_SYMLINK,
    NAMEI_STEP_AFTER_LOOKUP_CHILD, NAMEI_STEP_AFTER_PTS_LOOKUP, NAMEI_STEP_DONE,
};
use crate::path::{is_absolute, leaf_position, leaf_start};
use crate::pending_ops::{
    PendingOp, PendingOpId, PendingOpKind, PoolView, ReplyAction, PO_KIND_ACCESS_CONT,
    PO_KIND_CHDIR_CONT, PO_KIND_CHMOD_CONT, PO_KIND_CHOWN_CONT, PO_KIND_LINK_CONT,
    PO_KIND_MKDIR_CONT, PO_KIND_MOUNT_CONT, PO_KIND_NAMEI_RESUME, PO_KIND_OPEN_CONT,
    PO_KIND_READLINK_CONT, PO_KIND_RENAME_CONT, PO_KIND_RESOLVE_PATH_BACKING_CONT,
    PO_KIND_STATVFS_CONT, PO_KIND_STAT_CONT, PO_KIND_SYMLINK_CONT, PO_KIND_TRUNCATE_CONT,
    PO_KIND_UMOUNT_CONT, PO_KIND_UNLINK_CONT, PO_KIND_UTIMES_CONT,
};
use crate::state::{index_drop, VfsModel, VfsState};
use crate::status::Status;
use crate::vnode::{Vnode, S_IFCHR};
use crate::wire::{Opcode, Reply, Request};
use vstd::prelude::*;
use vstd::string::*;

verus! {

// ---- terminals ---------------------------------------------------------------------

/// The terminal that `path` names: a number behind `/dev/pts/`.
pub open spec fn pts_named(path: Seq<u8>) -> Option<nat> {
    let p = "/dev/pts/".spec_bytes();
    if p.len() <= path.len() && path.take(p.len() as int) == p {
        parsed(path.skip(p.len() as int), u32::MAX as nat)
    } else {
        None
    }
}

/// The terminal that a path names.
pub fn parse_pts_slave_path(path: &[u8]) -> (r: Option<u32>)
    ensures
        match r {
            Some(n) => pts_named(path@) == Some(n as nat),
            None => pts_named(path@) is None,
        },
{
    let p = "/dev/pts/".as_bytes();
    if !has_prefix(path, p) {
        return None;
    }
    let tail = cut(path, p.len(), path.len());
    assert(tail@ =~= path@.skip(p@.len() as int));
    parse_decimal_u32(tail)
}

/// The path that is made of a terminal's number names that terminal.
pub proof fn law_terminal_paths(n: u32)
    ensures
        pts_named("/dev/pts/".spec_bytes() + decimal(n as nat)) == Some(n as nat),
{
    let p = "/dev/pts/".spec_bytes();
    let path = p + decimal(n as nat);
    law_decimal_round_trip(n as nat);
    assert(path.take(p.len() as int) =~= p);
    assert(path.skip(p.len() as int) =~= decimal(n as nat));
}

/// The vnode of terminal `pty` in its present generation.
pub open spec fn pts_vnode(vn: Vnode, pty: u32, generation: u32) -> Vnode {
    Vnode {
        backend_seq: generation,
        id: device_inode(DEV_PTY_SLAVE, pty),
        mode: S_IFCHR | 0o666u32,
        ..vn
    }
}

impl VfsModel {
    /// The state with a vnode for terminal `pty`, and the vnode.
    pub open spec fn pts_ensured(self, pty: u32, generation: u32) -> (VfsModel, Option<Handle>) {
        match self.boot_named("/dev/pts".spec_bytes()) {
            None => (self, None),
            Some(dir) => match self.vnodes.entry(dir) {
                None => (self, None),
                Some(dn) => if !dn.mount.handle.is_valid() {
                    (self, None)
                } else {
                    match boot_child(self.boot_entries, dir, decimal(pty as nat), false) {
                        Some(v) => (
                            match self.vnodes.entry(v) {
                                Some(vn) => VfsModel {
                                    index: index_drop(self.index, vn.vnode_key(), v),
                                    ..self.with_vnode(v, pts_vnode(vn, pty, generation))
                                }.cached(v),
                                None => VfsModel {
                                    index: index_drop(self.index, VnodeKey::invalid(), v),
                                    ..self
                                },
                            },
                            Some(v),
                        ),
                        None => {
                            let (s, made) = self.device_added(
                                dir,
                                dn.mount.handle,
                                dn.fs_instance_id,
                                decimal(pty as nat),
                                S_IFCHR | 0o666u32,
                                device_inode(DEV_PTY_SLAVE, pty),
                                generation,
                            );
                            match made {
                                None => (s, None),
                                Some(v) => (
                                    match s.vnodes.entry(v) {
                                        Some(vn) => s.with_vnode(
                                            v,
                                            Vnode {
                                                backend_seq: generation,
                                                id: device_inode(DEV_PTY_SLAVE, pty),
                                                ..vn
                                            },
                                        ).cached(v),
                                        None => s,
                                    },
                                    Some(v),
                                ),
                            }
                        },
                    }
                },
            },
        }
    }
}

/// The vnode of a terminal, made or brought to the generation that the terminal server
/// reports.
pub fn ensure_pts_slave_vnode_with_generation(state: &mut VfsState, pty_id: u32, generation: u32) -> (r:
    Option<Handle>)
    ensures
        (final(state)@, r) == old(state)@.pts_ensured(pty_id, generation),
{
    let dir: Handle = match state.bootstrap_lookup_path("/dev/pts".as_bytes()) {
        Some(v) => v,
        None => {
            return None;
        },
    };
    let (mount, fs_id): (Handle, FsInstanceId) = match state.vnodes.get(dir) {
        Some(vn) => (vn.mount.handle, vn.fs_instance_id),
        None => {
            return None;
        },
    };
    if !mount.is_valid() {
        return None;
    }
    let mut name: Vec<u8> = Vec::new();
    push_decimal(&mut name, pty_id as u64);
    assert(name@ =~= decimal(pty_id as nat));
    if let Some(v) = state.bootstrap_lookup_child(dir, name.as_slice()) {
        let mut old_key: VnodeKey = VnodeKey::invalid();
        if let Some(vn) = state.vnodes.get_mut(v) {
            old_key = vn.vnode_key();
            vn.backend_seq = generation;
            vn.id = device_inode(DEV_PTY_SLAVE, pty_id);
            vn.mode = S_IFCHR | 0o666;
        }
        state.refresh_vnode_key(v, old_key);
        return Some(v);
    }
    let v: Handle = match state.create_bootstrap_char_device(
        dir,
        mount,
        fs_id,
        name.as_slice(),
        S_IFCHR | 0o666,
        DEV_PTY_SLAVE,
        pty_id,
        generation,
    ) {
        Some(v) => v,
        None => {
            return None;
        },
    };
    if let Some(vn) = state.vnodes.get_mut(v) {
        vn.id = device_inode(DEV_PTY_SLAVE, pty_id);
        vn.backend_seq = generation;
    }
    state.cache_vnode_key(v);
    Some(v)
}

/// What a walk keeps that waits for a terminal.
pub open spec fn pts_walk() -> ResumeView {
    ResumeView {
        resume_step: NAMEI_STEP_AFTER_PTS_LOOKUP,
        ..done_state(Handle { slot: 0, epoch: 0 }, NameiResumeAux::Nothing)
    }
}

/// What is made of a path that names terminal `pty`: the terminal server at `ep` is asked
/// for its generation and the walk is kept. Without a server or room for the call the path
/// leads nowhere.
pub open spec fn pts_asked(
    pre: &RpcCore,
    post: &RpcCore,
    r: Result<Progress<Option<Handle>>, Status>,
    ep: u64,
    pty: u32,
) -> bool {
    if ep != 0 && call_fits(pre, false) {
        &&& r matches Ok(Progress::Deferred { op, worker })
        &&& job_queued(
            pre,
            post,
            op,
            worker,
            BACKEND_OP_TTYSRV_GET_GENERATION,
            ep,
            two_words(pty as u64, 0),
        )
        &&& asks_words(post.jobs@.last().request, Opcode::PtyLookup, seq![pty as u64])
        &&& kept_walk(post.pool@, op) == Some(pts_walk())
        &&& call_noted(
            pre.pool@,
            with_walk(
                post.pool@,
                op,
                done_state(Handle { slot: 0, epoch: 0 }, NameiResumeAux::Nothing),
            ),
            op,
            PO_KIND_NAMEI_RESUME,
            Handle { slot: 0, epoch: 0 },
            None,
        )
    } else {
        r matches Ok(Progress::Complete(None)) && no_disk_call(pre, post)
    }
}

/// Asks the terminal server for the generation of a terminal.
pub fn ensure_pts_slave_vnode(rpc: &mut RpcCore, ttysrv_ep: u64, pty_id: u32) -> (r: Result<
    Progress<Option<Handle>>,
    Status,
>)
    requires
        old(rpc).wf(),
    ensures
        final(rpc).wf(),
        pts_asked(old(rpc), final(rpc), r, ttysrv_ep, pty_id),
{
    if ttysrv_ep == 0 {
        return Ok(Progress::Complete(None));
    }
    let start = Handle { slot: 0, epoch: 0 };
    let op: PendingOpId = match note_call(&mut rpc.pool, PO_KIND_NAMEI_RESUME, start, None) {
        Some(op) => op,
        None => {
            return Ok(Progress::Complete(None));
        },
    };
    let ghost noted = rpc.pool@;
    let data: [u64; 6] = [pty_id as u64, 0, 0, 0, 0, 0];
    assert(data@ =~= two_words(pty_id as u64, 0));
    let job = PendingBackendJob {
        target_ep: ttysrv_ep,
        op_kind: BACKEND_OP_TTYSRV_GET_GENERATION,
        payload_out_bytes: 0,
        op_id: op.raw(),
        request: one_word_request(Opcode::PtyLookup, pty_id as u64),
        ctx: BackendOpCtx { badge: 0, client_handle_raw: 0, stage: 0, data },
    };
    match rpc.try_enqueue_job(job) {
        Some(worker) => {
            if let Some(mut s) = walk_of(&rpc.pool, op) {
                s.resume_step = NAMEI_STEP_AFTER_PTS_LOOKUP;
                assert(s@ =~= pts_walk());
                keep_walk(&mut rpc.pool, op, s);
                proof {
                    assert(with_walk(
                        rpc.pool@,
                        op,
                        done_state(start, NameiResumeAux::Nothing),
                    ).payloads =~= noted.payloads);
                }
            }
            Ok(Progress::Deferred { op, worker })
        },
        None => {
            rpc.pool.free(op);
            proof {
                lemma_noted_and_freed(
                    old(rpc).pool@,
                    noted,
                    op,
                    PO_KIND_NAMEI_RESUME,
                    start,
                    None,
                );
            }
            Ok(Progress::Complete(None))
        },
    }
}

/// The request that asks the terminal server at once for the generation of a terminal;
/// `None` without a server.
pub fn live_pty_request(ttysrv_ep: u64, pty_id: u32) -> (r: Option<Request>)
    ensures
        r is Some <==> ttysrv_ep != 0,
        r matches Some(q) ==> asks_words(q, Opcode::PtyLookup, seq![pty_id as u64]),
{
    if ttysrv_ep == 0 {
        return None;
    }
    Some(one_word_request(Opcode::PtyLookup, pty_id as u64))
}

/// The generation of a terminal in the terminal server's answer. There is none when the call
/// or the server failed.
pub fn lookup_live_pty_generation(err: u64, reply: &Reply) -> (r: Option<u32>)
    ensures
        r == if err == 0 && reply.label == Status::Success {
            Some(reply.regs@[0] as u32)
        } else {
            None
        },
{
    if err != 0 || reply.label != Status::Success {
        return None;
    }
    Some(reply.regs[0] as u32)
}

// ---- going on ----------------------------------------------------------------------

/// How a kept walk is walked.
pub open spec fn mode_of(s: ResumeView) -> WalkMode {
    WalkMode {
        follow: s.follow_final_symlink,
        fold: s.ignore_case,
        skip_posix_only: s.skip_posix_only,
        skip_win32_only: s.skip_win32_only,
    }
}

/// What a kept walk becomes with the answer that it waited for. Only a walk whose question
/// was answered well goes on: what was not found ends it, and an error is its error.
pub open spec fn resumed(m: VfsModel, s: ResumeView, c: &PendingBackendCompletion) -> (
    VfsModel,
    WalkView,
) {
    let goes_on = m.walk_from(s.path, s.pos as int, s.current, s.depth as nat, mode_of(s));
    if s.resume_step == NAMEI_STEP_AFTER_PTS_LOOKUP {
        if outcome_of(c) == Status::Success {
            let (n, v) = m.pts_ensured(c.ctx.data[0] as u32, c.backend_reply.regs[0] as u32);
            (n, WalkView::End(v))
        } else {
            (m, WalkView::End(None))
        }
    } else if s.resume_step == NAMEI_STEP_AFTER_LOOKUP_CHILD || s.resume_step
        == NAMEI_STEP_AFTER_ENSURE_SYMLINK {
        match outcome_of(c) {
            Status::Success => (m, goes_on),
            Status::NotFound => (m, WalkView::End(None)),
            e => (m, WalkView::Error(e)),
        }
    } else {
        (m, goes_on)
    }
}

/// Goes on with a kept walk.
pub fn lookup_path_dynamic_resume(
    state: &mut VfsState,
    rpc: &mut RpcCore,
    saved: &NameiResumeState,
    c: &PendingBackendCompletion,
) -> (r: Result<Progress<Option<Handle>>, Status>)
    requires
        old(rpc).wf(),
    ensures
        final(rpc).wf(),
        final(state)@ == resumed(old(state)@, saved@, c).0,
        walk_settled(
            final(state)@,
            old(rpc),
            final(rpc),
            r,
            resumed(old(state)@, saved@, c).1,
            mode_of(saved@),
        ),
{
    let outcome: Status = call_outcome(c.backend_err, c.backend_reply.label);
    if saved.resume_step == NAMEI_STEP_AFTER_PTS_LOOKUP {
        if outcome != Status::Success {
            return Ok(Progress::Complete(None));
        }
        let v = ensure_pts_slave_vnode_with_generation(
            state,
            c.ctx.data[0] as u32,
            c.backend_reply.regs[0] as u32,
        );
        return Ok(Progress::Complete(v));
    }
    if saved.resume_step == NAMEI_STEP_AFTER_LOOKUP_CHILD || saved.resume_step
        == NAMEI_STEP_AFTER_ENSURE_SYMLINK {
        match outcome {
            Status::Success => {},
            Status::NotFound => {
                return Ok(Progress::Complete(None));
            },
            e => {
                return Err(e);
            },
        }
    }
    let mode = WalkMode {
        follow: saved.follow_final_symlink,
        fold: saved.ignore_case,
        skip_posix_only: saved.skip_posix_only,
        skip_win32_only: saved.skip_win32_only,
    };
    lookup_path_dynamic_walk(
        state,
        rpc,
        saved.path.as_slice(),
        saved.pos as usize,
        saved.current,
        saved.depth,
        mode,
    )
}

/// What became of an answer that a walk waited for.
pub enum ResumeDone {
    /// No walk waited for it.
    NotMine,
    /// The request has ended; this is to be done with the caller's reply.
    Ended { answer: Option<ReplyAction> },
    /// The walk has ended: the request of this kind goes on with what the walk keeps.
    Dispatch { op: PendingOpId, kind: PendingOpKind, saved: NameiResumeState },
    /// The walk goes on with another call, and this worker is to be woken.
    Waits { worker: usize },
}

/// Whether operations of a kind wait for a walk.
#[verifier::allow_in_spec]
pub fn waits_for_walk(kind: PendingOpKind) -> (r: bool)
    returns
        (kind == PO_KIND_NAMEI_RESUME || (PO_KIND_OPEN_CONT <= kind && kind
            <= PO_KIND_RESOLVE_PATH_BACKING_CONT)),
{
    kind == PO_KIND_NAMEI_RESUME || (PO_KIND_OPEN_CONT <= kind && kind
        <= PO_KIND_RESOLVE_PATH_BACKING_CONT)
}

/// What is done with the reply of operation `id` when nobody is to be told anything.
pub open spec fn reply_dropped(p: PoolView, id: PendingOpId) -> Option<ReplyAction> {
    if p.owed_reply(id) == 0 {
        None
    } else {
        Some(ReplyAction::Release { reply_slot: p.owed_reply(id) })
    }
}

/// What is done with the reply of operation `id` when its caller is told `label`.
pub open spec fn reply_sent(p: PoolView, id: PendingOpId, label: Status) -> Option<ReplyAction> {
    if p.owed_reply(id) == 0 {
        None
    } else {
        Some(ReplyAction::Send { reply_slot: p.owed_reply(id), label })
    }
}

/// What a walk keeps when it has ended at `v`, or at nothing.
pub open spec fn walk_over(s: ResumeView, v: Option<Handle>) -> ResumeView {
    ResumeView {
        resume_step: NAMEI_STEP_DONE,
        current: match v {
            Some(h) => h,
            None => Handle::invalid(),
        },
        ..s
    }
}

/// What becomes of operation `id` of kind `kind` when its walk, kept as `s`, went on with
/// result `x`: `mid` is the state of calls then, `post` the one after.
pub open spec fn walk_answered(
    mid: &RpcCore,
    post: &RpcCore,
    id: PendingOpId,
    kind: PendingOpKind,
    s: ResumeView,
    x: Result<Progress<Option<Handle>>, Status>,
    r: ResumeDone,
) -> bool {
    &&& RpcCore::queue_unchanged(mid, post)
    &&& match x {
        Ok(Progress::Complete(v)) => if kind == PO_KIND_NAMEI_RESUME {
            &&& r == (ResumeDone::Ended { answer: reply_dropped(mid.pool@, id) })
            &&& post.pool@ == mid.pool@.freed(id)
        } else {
            &&& r matches ResumeDone::Dispatch { op, kind: k, saved } && op == id && k == kind
                && saved@ == walk_over(s, v)
            &&& post.pool@ == with_walk(mid.pool@, id, walk_over(s, v))
        },
        Ok(Progress::Deferred { op, worker }) => if mid.pool@.live(id) && mid.pool@.live(op) {
            &&& r == (ResumeDone::Waits { worker })
            &&& post.pool@ == chained(mid.pool@, id, op, mid.pool@.op(id).kind)
        } else {
            &&& r == (ResumeDone::Ended {
                answer: reply_sent(mid.pool@, id, Status::InvalidOperation),
            })
            &&& post.pool@ == mid.pool@.freed(id)
        },
        Err(e) => {
            &&& r == (ResumeDone::Ended { answer: reply_sent(mid.pool@, id, e) })
            &&& post.pool@ == mid.pool@.freed(id)
        },
    }
}

fn drop_reply(rpc: &mut RpcCore, id: PendingOpId) -> (r: ResumeDone)
    requires
        old(rpc).wf(),
    ensures
        final(rpc).wf(),
        RpcCore::queue_unchanged(old(rpc), final(rpc)),
        final(rpc).pool@ == old(rpc).pool@.freed(id),
        r == (ResumeDone::Ended { answer: reply_dropped(old(rpc).pool@, id) }),
{
    let reply_slot: u64 = rpc.pool.take_reply_and_free(id);
    ResumeDone::Ended {
        answer: if reply_slot != 0 {
            Some(ReplyAction::Release { reply_slot })
        } else {
            None
        },
    }
}

/// What becomes of an answer that a walk waited for. A walk that is over leads to the request
/// that it was for; where it was for none, nobody is told anything.
pub open spec fn walk_taken(
    m: VfsModel,
    post: VfsModel,
    before: &RpcCore,
    after: &RpcCore,
    c: &PendingBackendCompletion,
    r: ResumeDone,
) -> bool {
    let p = before.pool@;
    let id = op_of(c);
    if !p.live(id) || !waits_for_walk(p.op(id).kind) {
        r is NotMine && *after == *before && post == m
    } else {
        match kept_walk(p, id) {
            None => {
                &&& r == (ResumeDone::Ended { answer: reply_dropped(p, id) })
                &&& RpcCore::queue_unchanged(before, after)
                &&& after.pool@ == p.freed(id)
                &&& post == m
            },
            Some(s) => if s.resume_step == NAMEI_STEP_DONE && p.op(id).kind
                == PO_KIND_NAMEI_RESUME {
                &&& r == (ResumeDone::Ended { answer: reply_dropped(p, id) })
                &&& RpcCore::queue_unchanged(before, after)
                &&& after.pool@ == p.freed(id)
                &&& post == m
            } else if s.resume_step == NAMEI_STEP_DONE {
                &&& r matches ResumeDone::Dispatch { op, kind, saved } && op == id && kind
                    == p.op(id).kind && saved@ == s
                &&& rpc_same(before, after)
                &&& post == m
            } else {
                &&& post == resumed(m, s, c).0
                &&& exists|mid: RpcCore, x: Result<Progress<Option<Handle>>, Status>|
                    #![trigger walk_answered(&mid, after, id, p.op(id).kind, s, x, r)]
                    walk_settled(
                        post,
                        before,
                        &mid,
                        x,
                        resumed(m, s, c).1,
                        mode_of(s),
                    ) && walk_answered(&mid, after, id, p.op(id).kind, s, x, r)
            },
        }
    }
}

/// Takes an answer that a walk waited for.
pub fn complete_namei_resume(state: &mut VfsState, rpc: &mut RpcCore, c: &PendingBackendCompletion) -> (r:
    ResumeDone)
    requires
        old(rpc).wf(),
    ensures
        final(rpc).wf(),
        walk_taken(old(state)@, final(state)@, old(rpc), final(rpc), c, r),
{
    let id = PendingOpId::from_raw(c.op_id);
    let op: PendingOp = match rpc.pool.get(id) {
        Some(op) => op,
        None => {
            return ResumeDone::NotMine;
        },
    };
    if !waits_for_walk(op.kind) {
        return ResumeDone::NotMine;
    }
    let mut saved: NameiResumeState = match walk_of(&rpc.pool, id) {
        Some(s) => s,
        None => {
            return drop_reply(rpc, id);
        },
    };
    if saved.resume_step == NAMEI_STEP_DONE {
        if op.kind == PO_KIND_NAMEI_RESUME {
            return drop_reply(rpc, id);
        }
        return ResumeDone::Dispatch { op: id, kind: op.kind, saved };
    }
    let ghost s = saved@;
    let x = lookup_path_dynamic_resume(state, rpc, &saved, c);
    let ghost mid = *rpc;
    let ghost gx = x;
    let done = match x {
        Ok(Progress::Complete(v)) => {
            if op.kind == PO_KIND_NAMEI_RESUME {
                drop_reply(rpc, id)
            } else {
                saved.resume_step = NAMEI_STEP_DONE;
                saved.current = match v {
                    Some(h) => h,
                    None => Handle::invalid(),
                };
                assert(saved@ =~= walk_over(s, v));
                keep_walk(&mut rpc.pool, id, saved.duplicate());
                ResumeDone::Dispatch { op: id, kind: op.kind, saved }
            }
        },
        Ok(Progress::Deferred { op: next, worker }) => {
            if transition_to_chained_op(&mut rpc.pool, id, next) {
                ResumeDone::Waits { worker }
            } else {
                ResumeDone::Ended {
                    answer: fail_continuation(&mut rpc.pool, id, Status::InvalidOperation),
                }
            }
        },
        Err(e) => ResumeDone::Ended { answer: fail_continuation(&mut rpc.pool, id, e) },
    };
    assert(walk_answered(&mid, rpc, id, op.kind, s, gx, done));
    done
}

/// The requests that go on after a walk.
#[derive(Clone, Copy, PartialEq, Eq, Structural, Debug)]
pub enum Continuation {
    Open,
    Stat,
    Access,
    Chmod,
    Chown,
    Utimes,
    Truncate,
    Readlink,
    Unlink,
    Mkdir,
    Rename,
    Symlink,
    Link,
    Chdir,
    Statvfs,
    Mount,
    Umount,
    ResolvePathBacking,
}

/// The request that goes on for operations of a kind; nothing for any other kind.
pub open spec fn continuation_of(kind: PendingOpKind) -> Option<Continuation> {
    if kind == PO_KIND_OPEN_CONT {
        Some(Continuation::Open)
    } else if kind == PO_KIND_STAT_CONT {
        Some(Continuation::Stat)
    } else if kind == PO_KIND_ACCESS_CONT {
        Some(Continuation::Access)
    } else if kind == PO_KIND_CHMOD_CONT {
        Some(Continuation::Chmod)
    } else if kind == PO_KIND_CHOWN_CONT {
        Some(Continuation::Chown)
    } else if kind == PO_KIND_UTIMES_CONT {
        Some(Continuation::Utimes)
    } else if kind == PO_KIND_TRUNCATE_CONT {
        Some(Continuation::Truncate)
    } else if kind == PO_KIND_READLINK_CONT {
        Some(Continuation::Readlink)
    } else if kind == PO_KIND_UNLINK_CONT {
        Some(Continuation::Unlink)
    } else if kind == PO_KIND_MKDIR_CONT {
        Some(Continuation::Mkdir)
    } else if kind == PO_KIND_RENAME_CONT {
        Some(Continuation::Rename)
    } else if kind == PO_KIND_SYMLINK_CONT {
        Some(Continuation::Symlink)
    } else if kind == PO_KIND_LINK_CONT {
        Some(Continuation::Link)
    } else if kind == PO_KIND_CHDIR_CONT {
        Some(Continuation::Chdir)
    } else if kind == PO_KIND_STATVFS_CONT {
        Some(Continuation::Statvfs)
    } else if kind == PO_KIND_MOUNT_CONT {
        Some(Continuation::Mount)
    } else if kind == PO_KIND_UMOUNT_CONT {
        Some(Continuation::Umount)
    } else if kind == PO_KIND_RESOLVE_PATH_BACKING_CONT {
        Some(Continuation::ResolvePathBacking)
    } else {
        None
    }
}

/// The request that goes on for operations of a kind. An operation of any other kind ends:
/// its caller is told that this is not supported.
pub fn dispatch_syscall_continuation(rpc: &mut RpcCore, op: PendingOpId, kind: PendingOpKind) -> (r:
    Result<Continuation, Option<ReplyAction>>)
    requires
        old(rpc).wf(),
    ensures
        final(rpc).wf(),
        RpcCore::queue_unchanged(old(rpc), final(rpc)),
        match continuation_of(kind) {
            Some(c) => r == Ok::<Continuation, Option<ReplyAction>>(c) && final(rpc).pool@
                == old(rpc).pool@,
            None => r == Err::<Continuation, Option<ReplyAction>>(
                reply_sent(old(rpc).pool@, op, Status::NotSupported),
            ) && final(rpc).pool@ == old(rpc).pool@.freed(op),
        },
{
    if kind == PO_KIND_OPEN_CONT {
        Ok(Continuation::Open)
    } else if kind == PO_KIND_STAT_CONT {
        Ok(Continuation::Stat)
    } else if kind == PO_KIND_ACCESS_CONT {
        Ok(Continuation::Access)
    } else if kind == PO_KIND_CHMOD_CONT {
        Ok(Continuation::Chmod)
    } else if kind == PO_KIND_CHOWN_CONT {
        Ok(Continuation::Chown)
    } else if kind == PO_KIND_UTIMES_CONT {
        Ok(Continuation::Utimes)
    } else if kind == PO_KIND_TRUNCATE_CONT {
        Ok(Continuation::Truncate)
    } else if kind == PO_KIND_READLINK_CONT {
        Ok(Continuation::Readlink)
    } else if kind == PO_KIND_UNLINK_CONT {
        Ok(Continuation::Unlink)
    } else if kind == PO_KIND_MKDIR_CONT {
        Ok(Continuation::Mkdir)
    } else if kind == PO_KIND_RENAME_CONT {
        Ok(Continuation::Rename)
    } else if kind == PO_KIND_SYMLINK_CONT {
        Ok(Continuation::Symlink)
    } else if kind == PO_KIND_LINK_CONT {
        Ok(Continuation::Link)
    } else if kind == PO_KIND_CHDIR_CONT {
        Ok(Continuation::Chdir)
    } else if kind == PO_KIND_STATVFS_CONT {
        Ok(Continuation::Statvfs)
    } else if kind == PO_KIND_MOUNT_CONT {
        Ok(Continuation::Mount)
    } else if kind == PO_KIND_UMOUNT_CONT {
        Ok(Continuation::Umount)
    } else if kind == PO_KIND_RESOLVE_PATH_BACKING_CONT {
        Ok(Continuation::ResolvePathBacking)
    } else {
        Err(fail_continuation(&mut rpc.pool, op, Status::NotSupported))
    }
}

// ---- lookups for clients -----------------------------------------------------------

/// The personality of a client.
pub open spec fn personality_of(m: VfsModel, client: Handle) -> u8 {
    match m.clients.entry(client) {
        Some(c) => c.personality,
        None => PERS_POSIX,
    }
}

/// What a path is for a client: what the process filesystem names, a terminal, or what a
/// walk over the tree finds. `post` is the state after, `after` that of calls.
pub open spec fn looked_up_for(
    m: VfsModel,
    post: VfsModel,
    before: &RpcCore,
    after: &RpcCore,
    client: Handle,
    path: Seq<u8>,
    no_follow: bool,
    facts: PidFactsView,
    r: Result<Progress<Option<Handle>>, Status>,
) -> bool {
    let (n, found) = m.proc_looked_up(client, path, no_follow, facts);
    &&& post == n
    &&& match found {
        Some(v) => r matches Ok(Progress::Complete(x)) && x == Some(v) && rpc_same(before, after),
        None => match pts_named(path) {
            Some(pty) => pts_asked(before, after, r, m.services.ttysrv_ep, pty as u32),
            None => {
                let mode = mode_for(personality_of(n, client), !no_follow);
                walk_settled(n, before, after, r, n.walk_path(path, 0, mode), mode)
            },
        },
    }
}

/// Looks a path up for a client. `facts` tell of the process that the path names, where it
/// names one.
pub fn lookup_path_dynamic_for_client(
    state: &mut VfsState,
    rpc: &mut RpcCore,
    client: Handle,
    path: &[u8],
    no_follow: bool,
    facts: &PidFacts,
) -> (r: Result<Progress<Option<Handle>>, Status>)
    requires
        old(rpc).wf(),
    ensures
        final(rpc).wf(),
        looked_up_for(
            old(state)@,
            final(state)@,
            old(rpc),
            final(rpc),
            client,
            path@,
            no_follow,
            facts@,
            r,
        ),
{
    let ep: u64 = state.services.ttysrv_ep;
    if let Some(v) = lookup_dynamic_path(state, client, path, no_follow, facts) {
        return Ok(Progress::Complete(Some(v)));
    }
    if let Some(pty) = parse_pts_slave_path(path) {
        return ensure_pts_slave_vnode(rpc, ep, pty);
    }
    let mode = mode_for(state.client_personality(client), !no_follow);
    lookup_path_dynamic_inner(state, rpc, path, 0, mode)
}

/// A place that was found.
#[derive(Clone, Copy, PartialEq, Eq, Structural, Debug)]
pub struct LookupResult {
    pub anchor: PathAnchor,
    pub handle: Handle,
}

/// The directory in which a path names an entry, and where the name starts.
#[derive(Clone, Copy, PartialEq, Eq, Structural, Debug)]
pub struct ParentLookup {
    pub parent: LookupResult,
    pub leaf_offset: usize,
}

/// What is known of directory `v`, in which a name starts at `leaf`.
pub open spec fn parent_found(m: VfsModel, v: Handle, leaf: int) -> Option<ParentLookup> {
    match m.anchor_of(v) {
        Some(anchor) => Some(
            ParentLookup {
                parent: LookupResult { anchor, handle: v },
                leaf_offset: leaf as usize,
            },
        ),
        None => None,
    }
}

/// A path whose last component can be split off.
pub open spec fn has_leaf(path: Seq<u8>) -> bool {
    is_absolute(path) && leaf_position(path) < path.len()
}

/// A place, where the vnode is there.
pub fn lookup_result_for_vnode(state: &VfsState, vnode: Handle) -> (r: Option<LookupResult>)
    ensures
        r == (match state@.anchor_of(vnode) {
            Some(anchor) => Some(LookupResult { anchor, handle: vnode }),
            None => None,
        }),
{
    match state.anchor_for_vnode(vnode) {
        Some(anchor) => Some(LookupResult { anchor, handle: vnode }),
        None => None,
    }
}

/// What the directory of a path is for a client.
pub open spec fn parent_looked_up(
    m: VfsModel,
    post: VfsModel,
    before: &RpcCore,
    after: &RpcCore,
    client: Handle,
    path: Seq<u8>,
    facts: PidFactsView,
    r: Result<Progress<Option<ParentLookup>>, Status>,
) -> bool {
    let leaf = leaf_position(path);
    if !has_leaf(path) {
        r matches Ok(Progress::Complete(None)) && rpc_same(before, after) && post == m
    } else if leaf <= 1 {
        &&& rpc_same(before, after)
        &&& post == m
        &&& r matches Ok(Progress::Complete(x)) && x == (match m.root_vnode() {
            Some(v) => parent_found(m, v, leaf),
            None => None,
        })
    } else {
        exists|x: Result<Progress<Option<Handle>>, Status>| #[trigger]
            looked_up_for(m, post, before, after, client, path.take(leaf - 1), false, facts, x)
                && (match x {
                Ok(Progress::Complete(Some(v))) => r matches Ok(Progress::Complete(p)) && p
                    == parent_found(post, v, leaf),
                Ok(Progress::Complete(None)) => r matches Ok(Progress::Complete(None)),
                Ok(Progress::Deferred { op, worker }) => r matches Ok(
                    Progress::Deferred { op: o, worker: w },
                ) && o == op && w == worker,
                Err(e) => r matches Err(y) && y == e,
            })
    }
}

/// Looks up the directory in which a path names an entry; the walk may have to wait.
pub fn lookup_parent_for_client_deferred(
    state: &mut VfsState,
    rpc: &mut RpcCore,
    client: Handle,
    path: &[u8],
    facts: &PidFacts,
) -> (r: Result<Progress<Option<ParentLookup>>, Status>)
    requires
        old(rpc).wf(),
    ensures
        final(rpc).wf(),
        parent_looked_up(
            old(state)@,
            final(state)@,
            old(rpc),
            final(rpc),
            client,
            path@,
            facts@,
            r,
        ),
{
    if path.len() == 0 || path[0] != SLASH {
        return Ok(Progress::Complete(None));
    }
    let leaf: usize = leaf_start(path);
    if leaf >= path.len() {
        return Ok(Progress::Complete(None));
    }
    let parent: Handle = if leaf <= 1 {
        match state.root_vnode() {
            Some(v) => v,
            None => {
                return Ok(Progress::Complete(None));
            },
        }
    } else {
        let dir = cut(path, 0, leaf - 1);
        assert(dir@ =~= path@.take(leaf - 1));
        let x = lookup_path_dynamic_for_client(state, rpc, client, dir, false, facts);
        let ghost gx = x;
        assert(looked_up_for(
            old(state)@,
            state@,
            old(rpc),
            rpc,
            client,
            path@.take(leaf - 1),
            false,
            facts@,
            gx,
        ));
        match x {
            Ok(Progress::Complete(Some(v))) => v,
            Ok(Progress::Complete(None)) => {
                return Ok(Progress::Complete(None));
            },
            Ok(Progress::Deferred { op, worker }) => {
                return Ok(Progress::Deferred { op, worker });
            },
            Err(e) => {
                return Err(e);
            },
        }
    };
    match lookup_result_for_vnode(state, parent) {
        Some(p) => Ok(Progress::Complete(Some(ParentLookup { parent: p, leaf_offset: leaf }))),
        None => Ok(Progress::Complete(None)),
    }
}

/// Looks up the directory in which a path names an entry, where that can be had at once.
pub fn lookup_parent_for_client(
    state: &mut VfsState,
    rpc: &mut RpcCore,
    client: Handle,
    path: &[u8],
    facts: &PidFacts,
) -> (r: Option<ParentLookup>)
    requires
        old(rpc).wf(),
    ensures
        final(rpc).wf(),
        exists|x: Result<Progress<Option<ParentLookup>>, Status>| #[trigger]
            parent_looked_up(
                old(state)@,
                final(state)@,
                old(rpc),
                final(rpc),
                client,
                path@,
                facts@,
                x,
            ) && r == (match x {
                Ok(Progress::Complete(p)) => p,
                _ => None,
            }),
{
    let x = lookup_parent_for_client_deferred(state, rpc, client, path, facts);
    match x {
        Ok(Progress::Complete(p)) => p,
        _ => None,
    }
}

/// Why a lookup gives no vnode.
#[derive(Clone, Copy, PartialEq, Eq, Structural, Debug)]
pub enum LookupStop {
    /// The caller is told this.
    Label(Status),
    /// The caller is answered later.
    Deferred { op: PendingOpId, worker: usize },
}

/// The vnode that a lookup found, or what its caller is told.
pub fn unwrap_lookup_or_set_label(x: Result<Progress<Option<Handle>>, Status>) -> (r: Result<
    Handle,
    LookupStop,
>)
    ensures
        r == (match x {
            Ok(Progress::Complete(Some(v))) => Ok(v),
            Ok(Progress::Complete(None)) => Err(LookupStop::Label(Status::NotFound)),
            Ok(Progress::Deferred { op, worker }) => Err(LookupStop::Deferred { op, worker }),
            Err(e) => Err(LookupStop::Label(e)),
        }),
{
    match x {
        Ok(Progress::Complete(Some(v))) => Ok(v),
        Ok(Progress::Complete(None)) => Err(LookupStop::Label(Status::NotFound)),
        Ok(Progress::Deferred { op, worker }) => Err(LookupStop::Deferred { op, worker }),
        Err(e) => Err(LookupStop::Label(e)),
    }
}

} // verus!
