//! What happens when the disk server has answered.

use crate::arena::{unpack_handle, unpacked, Handle};
use crate::backend_rpc::{
    BackendOpKind, PendingBackendCompletion, BACKEND_OP_SALTYFS_CREATE, BACKEND_OP_SALTYFS_LINK,
    BACKEND_OP_SALTYFS_LOOKUP_CHILD, BACKEND_OP_SALTYFS_MKDIR, BACKEND_OP_SALTYFS_READLINK,
    BACKEND_OP_SALTYFS_RENAME, BACKEND_OP_SALTYFS_SETMODE, BACKEND_OP_SALTYFS_SETOWNER,
    BACKEND_OP_SALTYFS_SETTIMES, BACKEND_OP_SALTYFS_SYMLINK, BACKEND_OP_SALTYFS_TRUNCATE,
    BACKEND_OP_SALTYFS_UNLINK,
};
use crate::bytes::cut;
use crate::continuation::fail_continuation;
use crate::fs::saltyfs::{
    apply_attr_snapshot, mark_cached_child_unlinked, materialize_snapshot_child,
    note_cached_child_renamed, update_symlink_payload, with_attrs,
};
use crate::fs::saltyfs_wire::{
    attrs_of, call_outcome, counted_bytes, lookup_of, parse_attr_snapshot, parse_lookup_snapshot,
    read_counted_bytes, read_lookup, AttrSnapshot, LookupSnapshot,
    BACKEND_SETATTR_REPLY_REG_COUNT, INLINE_TRANSFER_WIRE_MAX,
};
use crate::namei_state::{NameiResumeState, ResumeView, NAMEI_STEP_DONE};
use crate::path::{component_end, past_component, past_slashes, skip_slashes};
use crate::pending_ops::{
    pool_wf, OwnerPool, Payload, PayloadView, PendingOp, PendingOpId, PoolView, ReplyAction,
    MAX_PAYLOAD_BUFS, PO_KIND_BACKEND_RPC, PO_KIND_OPEN_CONT,
};
use crate::state::{VfsModel, VfsState};
use crate::status::Status;
use crate::wire::{ArgsView, DeferredChange, SaltyfsDeferredArgs};
use vstd::prelude::*;

verus! {

/// What became of an answer of the disk server.
pub enum DiskDone {
    /// The request that waited has ended; this is owed to its caller.
    Ended { answer: Option<ReplyAction> },
    /// The request goes on with what the answer brought.
    GoesOn,
}

/// The operation that an answer belongs to.
pub open spec fn op_of(c: &PendingBackendCompletion) -> PendingOpId {
    PendingOpId(c.op_id)
}

/// How the call of an answer ended.
pub open spec fn outcome_of(c: &PendingBackendCompletion) -> Status {
    call_outcome(c.backend_err, c.backend_reply.label)
}

/// The table after operation `id` ended with `label`, and what is owed to its caller.
pub open spec fn ended(p: PoolView, id: PendingOpId, label: Status) -> (PoolView, DiskDone) {
    (
        p.freed(id),
        DiskDone::Ended {
            answer: if p.owed_reply(id) == 0 {
                None
            } else {
                Some(ReplyAction::Send { reply_slot: p.owed_reply(id), label })
            },
        },
    )
}

/// The walk that operation `id` keeps.
pub open spec fn kept_walk(p: PoolView, id: PendingOpId) -> Option<ResumeView> {
    if p.live(id) && p.op(id).payload_ref < MAX_PAYLOAD_BUFS {
        match p.payloads[p.op(id).payload_ref as int] {
            PayloadView::Resume(s) => Some(s),
            _ => None,
        }
    } else {
        None
    }
}

/// The arguments that operation `id` keeps.
pub open spec fn kept_args(p: PoolView, id: PendingOpId) -> Option<ArgsView> {
    if p.live(id) && p.op(id).args_payload_ref < MAX_PAYLOAD_BUFS {
        match p.payloads[p.op(id).args_payload_ref as int] {
            PayloadView::Args(a) => Some(a),
            _ => None,
        }
    } else {
        None
    }
}

/// The table with another walk kept by operation `id`.
pub open spec fn with_walk(p: PoolView, id: PendingOpId, s: ResumeView) -> PoolView {
    p.with_payload(p.op(id).payload_ref, PayloadView::Resume(s))
}

/// The table with the walk of operation `id` ended at `v`, and how the request stands.
pub open spec fn arrived(p: PoolView, id: PendingOpId, v: Handle) -> (PoolView, DiskDone) {
    match kept_walk(p, id) {
        Some(s) => (
            with_walk(p, id, ResumeView { resume_step: NAMEI_STEP_DONE, current: v, ..s }),
            DiskDone::GoesOn,
        ),
        None => ended(p, id, Status::InvalidOperation),
    }
}

/// What becomes of a request that changed node `v`: an open goes on with it, any other has
/// ended well.
pub open spec fn changed(p: PoolView, id: PendingOpId, v: Handle) -> (PoolView, DiskDone) {
    if p.live(id) && p.op(id).kind == PO_KIND_OPEN_CONT {
        arrived(p, id, v)
    } else {
        ended(p, id, Status::Success)
    }
}

fn end_with(pool: &mut OwnerPool, id: PendingOpId, label: Status) -> (r: DiskDone)
    requires
        pool_wf(old(pool)@),
    ensures
        pool_wf(final(pool)@),
        (final(pool)@, r) == ended(old(pool)@, id, label),
{
    DiskDone::Ended { answer: fail_continuation(pool, id, label) }
}

pub(crate) fn walk_of(pool: &OwnerPool, id: PendingOpId) -> (r: Option<NameiResumeState>)
    requires
        pool_wf(pool@),
    ensures
        match r {
            Some(s) => kept_walk(pool@, id) == Some(s@),
            None => kept_walk(pool@, id) is None,
        },
{
    match pool.get(id) {
        None => None,
        Some(op) => match pool.payload_bytes(op.payload_ref) {
            Some(Payload::Resume(s)) => Some(s.duplicate()),
            _ => None,
        },
    }
}

fn args_of(pool: &OwnerPool, id: PendingOpId) -> (r: Option<SaltyfsDeferredArgs>)
    requires
        pool_wf(pool@),
    ensures
        match r {
            Some(a) => kept_args(pool@, id) == Some(a@),
            None => kept_args(pool@, id) is None,
        },
{
    match pool.get(id) {
        None => None,
        Some(op) => match pool.payload_bytes(op.args_payload_ref) {
            Some(Payload::Args(a)) => Some(a.duplicate()),
            _ => None,
        },
    }
}

pub(crate) fn keep_walk(pool: &mut OwnerPool, id: PendingOpId, s: NameiResumeState)
    requires
        pool_wf(old(pool)@),
        kept_walk(old(pool)@, id) is Some,
    ensures
        pool_wf(final(pool)@),
        final(pool)@ == with_walk(old(pool)@, id, s@),
{
    if let Some(op) = pool.get(id) {
        let _ = pool.set_payload(op.payload_ref, Payload::Resume(s));
    }
}

fn arrive(pool: &mut OwnerPool, id: PendingOpId, v: Handle) -> (r: DiskDone)
    requires
        pool_wf(old(pool)@),
    ensures
        pool_wf(final(pool)@),
        (final(pool)@, r) == arrived(old(pool)@, id, v),
{
    match walk_of(pool, id) {
        Some(mut s) => {
            s.resume_step = NAMEI_STEP_DONE;
            s.current = v;
            keep_walk(pool, id, s);
            DiskDone::GoesOn
        },
        None => end_with(pool, id, Status::InvalidOperation),
    }
}

fn settle_change(pool: &mut OwnerPool, id: PendingOpId, v: Handle) -> (r: DiskDone)
    requires
        pool_wf(old(pool)@),
    ensures
        pool_wf(final(pool)@),
        (final(pool)@, r) == changed(old(pool)@, id, v),
{
    let open: bool = match pool.get(id) {
        Some(op) => op.kind == PO_KIND_OPEN_CONT,
        None => false,
    };
    if open {
        arrive(pool, id, v)
    } else {
        end_with(pool, id, Status::Success)
    }
}

// ---- lookups and links -------------------------------------------------------------

/// Where the component starts that a walk has come to.
pub open spec fn component_at(s: ResumeView) -> int {
    if s.pos < s.path.len() {
        s.pos as int
    } else {
        s.path.len() as int
    }
}

/// The component that a walk has come to.
pub open spec fn component_of(s: ResumeView) -> Seq<u8> {
    s.path.subrange(component_at(s), past_component(s.path, component_at(s)))
}

/// Where the next component starts.
pub open spec fn next_component(s: ResumeView) -> int {
    past_slashes(s.path, past_component(s.path, component_at(s)))
}

/// What becomes of the answer to a lookup: the walk goes on at the node that was found,
/// behind its name. A walk that nobody waits for has ended. When the lookup failed or nothing
/// was found, the walk is over and has come to nothing.
pub open spec fn lookup_done(m: VfsModel, p: PoolView, c: &PendingBackendCompletion) -> (
    VfsModel,
    PoolView,
    DiskDone,
) {
    let id = op_of(c);
    if !p.live(id) {
        (m, p, DiskDone::Ended { answer: None })
    } else {
        match kept_walk(p, id) {
            None => (m, p.freed(id), DiskDone::Ended { answer: None }),
            Some(s) => if p.op(id).kind == PO_KIND_BACKEND_RPC {
                (m, p.freed(id), DiskDone::Ended { answer: None })
            } else if outcome_of(c) != Status::Success {
                (
                    m,
                    with_walk(
                        p,
                        id,
                        ResumeView {
                            resume_step: NAMEI_STEP_DONE,
                            current: Handle::invalid(),
                            ..s
                        },
                    ),
                    DiskDone::GoesOn,
                )
            } else {
                let parent = unpacked(c.ctx.data[0]);
                match m.salty_record(parent) {
                    None => (m, p, DiskDone::GoesOn),
                    Some((_, mh)) => {
                        let (n, child) = m.materialized(
                            mh,
                            parent,
                            component_of(s),
                            lookup_of(c.backend_reply.regs@),
                        );
                        match child {
                            None => (n, p, DiskDone::GoesOn),
                            Some(v) => (
                                n,
                                with_walk(
                                    p,
                                    id,
                                    ResumeView { current: v, pos: next_component(s) as u16, ..s },
                                ),
                                DiskDone::GoesOn,
                            ),
                        }
                    },
                }
            },
        }
    }
}

/// Takes the answer to a lookup.
pub fn complete_saltyfs_lookup_child(
    state: &mut VfsState,
    pool: &mut OwnerPool,
    c: &PendingBackendCompletion,
) -> (r: DiskDone)
    requires
        pool_wf(old(pool)@),
    ensures
        pool_wf(final(pool)@),
        (final(state)@, final(pool)@, r) == lookup_done(old(state)@, old(pool)@, c),
{
    let id = PendingOpId::from_raw(c.op_id);
    let op: PendingOp = match pool.get(id) {
        Some(op) => op,
        None => {
            return DiskDone::Ended { answer: None };
        },
    };
    let mut s: NameiResumeState = match walk_of(pool, id) {
        Some(s) => s,
        None => {
            pool.free(id);
            return DiskDone::Ended { answer: None };
        },
    };
    if op.kind == PO_KIND_BACKEND_RPC {
        pool.free(id);
        return DiskDone::Ended { answer: None };
    }
    if call_outcome(c.backend_err, c.backend_reply.label) != Status::Success {
        s.resume_step = NAMEI_STEP_DONE;
        s.current = Handle::invalid();
        keep_walk(pool, id, s);
        return DiskDone::GoesOn;
    }
    let start: usize = if (s.pos as usize) < s.path.len() {
        s.pos as usize
    } else {
        s.path.len()
    };
    let end: usize = component_end(s.path.as_slice(), start);
    let next: usize = skip_slashes(s.path.as_slice(), end);
    let parent: Handle = unpack_handle(c.ctx.data[0]);
    let snap: LookupSnapshot = read_lookup(&c.backend_reply);
    let child = materialize_snapshot_child(state, parent, cut(s.path.as_slice(), start, end), snap);
    if let Some(v) = child {
        s.current = v;
        s.pos = next as u16;
        keep_walk(pool, id, s);
    }
    DiskDone::GoesOn
}

/// What becomes of the answer to the reading of a link: what it leads to is stored.
pub open spec fn readlink_done(m: VfsModel, c: &PendingBackendCompletion) -> VfsModel {
    let bytes = counted_bytes(c.backend_reply.regs@, INLINE_TRANSFER_WIRE_MAX);
    if outcome_of(c) == Status::Success && bytes.len() > 0 {
        m.link_filled(unpacked(c.ctx.data[0]), bytes).0
    } else {
        m
    }
}

/// Takes the answer to the reading of a link. The walk that needs it goes on.
pub fn complete_saltyfs_readlink(state: &mut VfsState, c: &PendingBackendCompletion) -> (r: DiskDone)
    ensures
        final(state)@ == readlink_done(old(state)@, c),
        r is GoesOn,
{
    if call_outcome(c.backend_err, c.backend_reply.label) == Status::Success {
        let bytes = read_counted_bytes(&c.backend_reply, INLINE_TRANSFER_WIRE_MAX);
        if bytes.len() > 0 {
            let v: Handle = unpack_handle(c.ctx.data[0]);
            let _ = update_symlink_payload(state, v, bytes.as_slice());
        }
    }
    DiskDone::GoesOn
}

// ---- changes -----------------------------------------------------------------------

/// What becomes of the answer to a request that made a name.
pub open spec fn create_done(m: VfsModel, p: PoolView, c: &PendingBackendCompletion) -> (
    VfsModel,
    PoolView,
    DiskDone,
) {
    let id = op_of(c);
    if outcome_of(c) != Status::Success {
        let (q, d) = ended(p, id, outcome_of(c));
        (m, q, d)
    } else if c.backend_reply.length < 10 || kept_args(p, id) is None {
        let (q, d) = ended(p, id, Status::InvalidOperation);
        (m, q, d)
    } else {
        let a = kept_args(p, id).unwrap();
        let parent = unpacked(c.ctx.data[0]);
        let (n, child) = match m.salty_record(parent) {
            Some((_, mh)) => m.materialized(
                mh,
                parent,
                a.name_a,
                lookup_of(c.backend_reply.regs@),
            ),
            None => (m, None),
        };
        match child {
            None => {
                let (q, d) = ended(p, id, Status::OutOfMemory);
                (n, q, d)
            },
            Some(v) => {
                let (k, ok) = if a.op == DeferredChange::Symlink {
                    n.link_filled(v, a.target)
                } else {
                    (n, true)
                };
                let (q, d) = if ok {
                    changed(p, id, v)
                } else {
                    ended(p, id, Status::OutOfMemory)
                };
                (k, q, d)
            },
        }
    }
}

/// Takes the answer to a request that made a name.
pub fn complete_saltyfs_create_like(
    state: &mut VfsState,
    pool: &mut OwnerPool,
    c: &PendingBackendCompletion,
) -> (r: DiskDone)
    requires
        pool_wf(old(pool)@),
    ensures
        pool_wf(final(pool)@),
        (final(state)@, final(pool)@, r) == create_done(old(state)@, old(pool)@, c),
{
    let id = PendingOpId::from_raw(c.op_id);
    let outcome: Status = call_outcome(c.backend_err, c.backend_reply.label);
    if outcome != Status::Success {
        return end_with(pool, id, outcome);
    }
    let snap: LookupSnapshot = match parse_lookup_snapshot(&c.backend_reply) {
        Some(s) => s,
        None => {
            return end_with(pool, id, Status::InvalidOperation);
        },
    };
    let a: SaltyfsDeferredArgs = match args_of(pool, id) {
        Some(a) => a,
        None => {
            return end_with(pool, id, Status::InvalidOperation);
        },
    };
    let parent: Handle = unpack_handle(c.ctx.data[0]);
    let v: Handle = match materialize_snapshot_child(state, parent, a.name_a.as_slice(), snap) {
        Some(v) => v,
        None => {
            return end_with(pool, id, Status::OutOfMemory);
        },
    };
    if a.op == DeferredChange::Symlink && !update_symlink_payload(state, v, a.target.as_slice()) {
        return end_with(pool, id, Status::OutOfMemory);
    }
    settle_change(pool, id, v)
}

/// What becomes of the answer to a request that removed a name.
pub open spec fn unlink_done(m: VfsModel, p: PoolView, c: &PendingBackendCompletion) -> (
    VfsModel,
    PoolView,
    DiskDone,
) {
    let id = op_of(c);
    if outcome_of(c) != Status::Success {
        let (q, d) = ended(p, id, outcome_of(c));
        (m, q, d)
    } else {
        match kept_args(p, id) {
            None => {
                let (q, d) = ended(p, id, Status::InvalidOperation);
                (m, q, d)
            },
            Some(a) => {
                let (q, d) = ended(p, id, Status::Success);
                (
                    m.disk_unlinked(
                        unpacked(c.ctx.data[0]),
                        a.name_a,
                        a.op == DeferredChange::Rmdir,
                    ),
                    q,
                    d,
                )
            },
        }
    }
}

/// Takes the answer to a request that removed a name.
pub fn complete_saltyfs_unlink_like(
    state: &mut VfsState,
    pool: &mut OwnerPool,
    c: &PendingBackendCompletion,
) -> (r: DiskDone)
    requires
        pool_wf(old(pool)@),
    ensures
        pool_wf(final(pool)@),
        (final(state)@, final(pool)@, r) == unlink_done(old(state)@, old(pool)@, c),
{
    let id = PendingOpId::from_raw(c.op_id);
    let outcome: Status = call_outcome(c.backend_err, c.backend_reply.label);
    if outcome != Status::Success {
        return end_with(pool, id, outcome);
    }
    let a: SaltyfsDeferredArgs = match args_of(pool, id) {
        Some(a) => a,
        None => {
            return end_with(pool, id, Status::InvalidOperation);
        },
    };
    let parent: Handle = unpack_handle(c.ctx.data[0]);
    mark_cached_child_unlinked(
        state,
        parent,
        a.name_a.as_slice(),
        a.op == DeferredChange::Rmdir,
    );
    end_with(pool, id, Status::Success)
}

/// What becomes of the answer to a request that moved a name.
pub open spec fn rename_done(m: VfsModel, p: PoolView, c: &PendingBackendCompletion) -> (
    VfsModel,
    PoolView,
    DiskDone,
) {
    let id = op_of(c);
    if outcome_of(c) != Status::Success {
        let (q, d) = ended(p, id, outcome_of(c));
        (m, q, d)
    } else {
        match kept_args(p, id) {
            None => {
                let (q, d) = ended(p, id, Status::InvalidOperation);
                (m, q, d)
            },
            Some(a) => {
                let (q, d) = ended(p, id, Status::Success);
                (
                    m.disk_renamed(
                        unpacked(c.ctx.data[0]),
                        a.name_a,
                        unpacked(c.ctx.data[1]),
                        a.name_b,
                    ),
                    q,
                    d,
                )
            },
        }
    }
}

/// Takes the answer to a request that moved a name.
pub fn complete_saltyfs_rename_like(
    state: &mut VfsState,
    pool: &mut OwnerPool,
    c: &PendingBackendCompletion,
) -> (r: DiskDone)
    requires
        pool_wf(old(pool)@),
    ensures
        pool_wf(final(pool)@),
        (final(state)@, final(pool)@, r) == rename_done(old(state)@, old(pool)@, c),
{
    let id = PendingOpId::from_raw(c.op_id);
    let outcome: Status = call_outcome(c.backend_err, c.backend_reply.label);
    if outcome != Status::Success {
        return end_with(pool, id, outcome);
    }
    let a: SaltyfsDeferredArgs = match args_of(pool, id) {
        Some(a) => a,
        None => {
            return end_with(pool, id, Status::InvalidOperation);
        },
    };
    let old_parent: Handle = unpack_handle(c.ctx.data[0]);
    let new_parent: Handle = unpack_handle(c.ctx.data[1]);
    note_cached_child_renamed(
        state,
        old_parent,
        a.name_a.as_slice(),
        new_parent,
        a.name_b.as_slice(),
    );
    end_with(pool, id, Status::Success)
}

/// What becomes of the answer to a change of attributes.
pub open spec fn setattr_done(m: VfsModel, p: PoolView, c: &PendingBackendCompletion) -> (
    VfsModel,
    PoolView,
    DiskDone,
) {
    let id = op_of(c);
    let v = unpacked(c.ctx.data[0]);
    if outcome_of(c) != Status::Success {
        let (q, d) = ended(p, id, outcome_of(c));
        (m, q, d)
    } else if c.backend_reply.length < BACKEND_SETATTR_REPLY_REG_COUNT {
        let (q, d) = ended(p, id, Status::InvalidOperation);
        (m, q, d)
    } else if !m.vnodes.has(v) {
        let (q, d) = ended(p, id, Status::NotFound);
        (m, q, d)
    } else {
        let (q, d) = changed(p, id, v);
        (
            m.reported(v, with_attrs(m.vnodes.at(v), attrs_of(c.backend_reply.regs@))),
            q,
            d,
        )
    }
}

/// Takes the answer to a change of attributes.
pub fn complete_saltyfs_setattr_like(
    state: &mut VfsState,
    pool: &mut OwnerPool,
    c: &PendingBackendCompletion,
) -> (r: DiskDone)
    requires
        pool_wf(old(pool)@),
    ensures
        pool_wf(final(pool)@),
        (final(state)@, final(pool)@, r) == setattr_done(old(state)@, old(pool)@, c),
{
    let id = PendingOpId::from_raw(c.op_id);
    let outcome: Status = call_outcome(c.backend_err, c.backend_reply.label);
    if outcome != Status::Success {
        return end_with(pool, id, outcome);
    }
    let snap: AttrSnapshot = match parse_attr_snapshot(&c.backend_reply) {
        Some(s) => s,
        None => {
            return end_with(pool, id, Status::InvalidOperation);
        },
    };
    let v: Handle = unpack_handle(c.ctx.data[0]);
    if let Err(e) = apply_attr_snapshot(state, v, snap) {
        return end_with(pool, id, e);
    }
    settle_change(pool, id, v)
}

// ---- every answer ------------------------------------------------------------------

/// A call that makes a name.
pub open spec fn makes_name(k: BackendOpKind) -> bool {
    k == BACKEND_OP_SALTYFS_CREATE || k == BACKEND_OP_SALTYFS_MKDIR || k
        == BACKEND_OP_SALTYFS_SYMLINK || k == BACKEND_OP_SALTYFS_LINK
}

/// A call that changes attributes.
pub open spec fn sets_attrs(k: BackendOpKind) -> bool {
    k == BACKEND_OP_SALTYFS_TRUNCATE || k == BACKEND_OP_SALTYFS_SETMODE || k
        == BACKEND_OP_SALTYFS_SETOWNER || k == BACKEND_OP_SALTYFS_SETTIMES
}

/// What becomes of an answer of the disk server.
pub open spec fn disk_done(m: VfsModel, p: PoolView, c: &PendingBackendCompletion) -> (
    VfsModel,
    PoolView,
    DiskDone,
) {
    let k = c.op_kind;
    if k == BACKEND_OP_SALTYFS_LOOKUP_CHILD {
        lookup_done(m, p, c)
    } else if k == BACKEND_OP_SALTYFS_READLINK {
        (readlink_done(m, c), p, DiskDone::GoesOn)
    } else if makes_name(k) {
        create_done(m, p, c)
    } else if k == BACKEND_OP_SALTYFS_UNLINK {
        unlink_done(m, p, c)
    } else if k == BACKEND_OP_SALTYFS_RENAME {
        rename_done(m, p, c)
    } else if sets_attrs(k) {
        setattr_done(m, p, c)
    } else {
        (m, p, DiskDone::GoesOn)
    }
}

/// Takes an answer of the disk server.
pub fn complete_saltyfs_op(state: &mut VfsState, pool: &mut OwnerPool, c: &PendingBackendCompletion) -> (r:
    DiskDone)
    requires
        pool_wf(old(pool)@),
    ensures
        pool_wf(final(pool)@),
        (final(state)@, final(pool)@, r) == disk_done(old(state)@, old(pool)@, c),
{
    let k: BackendOpKind = c.op_kind;
    if k == BACKEND_OP_SALTYFS_LOOKUP_CHILD {
        complete_saltyfs_lookup_child(state, pool, c)
    } else if k == BACKEND_OP_SALTYFS_READLINK {
        complete_saltyfs_readlink(state, c)
    } else if k == BACKEND_OP_SALTYFS_CREATE || k == BACKEND_OP_SALTYFS_MKDIR || k
        == BACKEND_OP_SALTYFS_SYMLINK || k == BACKEND_OP_SALTYFS_LINK {
        complete_saltyfs_create_like(state, pool, c)
    } else if k == BACKEND_OP_SALTYFS_UNLINK {
        complete_saltyfs_unlink_like(state, pool, c)
    } else if k == BACKEND_OP_SALTYFS_RENAME {
        complete_saltyfs_rename_like(state, pool, c)
    } else if k == BACKEND_OP_SALTYFS_TRUNCATE || k == BACKEND_OP_SALTYFS_SETMODE || k
        == BACKEND_OP_SALTYFS_SETOWNER || k == BACKEND_OP_SALTYFS_SETTIMES {
        complete_saltyfs_setattr_like(state, pool, c)
    } else {
        DiskDone::GoesOn
    }
}

/// An answer changes nothing of any request but the one that waits for it.
pub proof fn law_answers_leave_other_requests(
    m: VfsModel,
    p: PoolView,
    c: &PendingBackendCompletion,
    other: PendingOpId,
)
    requires
        pool_wf(p),
        p.live(other),
        other.slot_of() != op_of(c).slot_of(),
    ensures
        disk_done(m, p, c).1.live(other),
        disk_done(m, p, c).1.op(other) == p.op(other),
{
}

/// A change that the disk server refused leaves what is known of the disk as it was, and
/// its caller, where one waits, is told why.
pub proof fn law_refused_change_is_answered(m: VfsModel, p: PoolView, c: &PendingBackendCompletion)
    requires
        pool_wf(p),
        outcome_of(c) != Status::Success,
        makes_name(c.op_kind) || sets_attrs(c.op_kind) || c.op_kind == BACKEND_OP_SALTYFS_UNLINK
            || c.op_kind == BACKEND_OP_SALTYFS_RENAME,
    ensures
        disk_done(m, p, c).0 == m,
        disk_done(m, p, c).2 == (DiskDone::Ended {
            answer: if p.owed_reply(op_of(c)) == 0 {
                None
            } else {
                Some(
                    ReplyAction::Send {
                        reply_slot: p.owed_reply(op_of(c)),
                        label: outcome_of(c),
                    },
                )
            },
        }),
        !disk_done(m, p, c).1.live(op_of(c)),
{
}

} // verus!
