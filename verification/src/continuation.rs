//! Requests that go on after another server has answered.
//!
//! A handler that cannot finish at once leaves an operation in the table that holds the
//! caller's reply and the tail of the request. These helpers move such operations about
//! without losing a reply on the way.

use vstd::prelude::*;

use crate::arena::{packed, Handle};
use crate::bytes::{copy_prefix, prefix};
use crate::namei_state::{
    NameiResumeAux, NameiResumeState, ResumeView, BOOTSTRAP_PATH_MAX, NAMEI_STEP_DONE,
};
use crate::pending_ops::{
    pack_client_handle, pool_wf, started_op, OpState, OwnerPool, Payload, PayloadView, PendingOp,
    PendingOpId, PendingOpKind, PoolView, ReplyAction, MAX_PAYLOAD_BUFS, MAX_PENDING_OPS,
};
use crate::status::Status;

verus! {

/// A walk that has ended at `current`.
pub open spec fn done_state(current: Handle, aux: NameiResumeAux) -> ResumeView {
    ResumeView {
        path: Seq::empty(),
        pos: 0,
        depth: 0,
        follow_final_symlink: false,
        ignore_case: false,
        skip_posix_only: false,
        skip_win32_only: false,
        resume_step: NAMEI_STEP_DONE,
        current,
        aux,
    }
}

/// What became of a request to leave an operation behind.
pub enum Prepared {
    /// The operation is in the table; the reply is deferred.
    Deferred(PendingOpId),
    /// No slot: the captured reply, if any, is to be released and the caller answered.
    Refused(Option<u64>),
}

/// Leaves an operation with the caller's captured reply. `reply_slot` is `None` when the
/// reply could not be captured.
pub fn prepare_continuation(
    pool: &mut OwnerPool,
    kind: PendingOpKind,
    badge: u64,
    client: Handle,
    reply_slot: Option<u64>,
) -> (r: Prepared)
    requires
        pool_wf(old(pool)@),
    ensures
        pool_wf(final(pool)@),
        match r {
            Prepared::Deferred(id) => {
                &&& reply_slot is Some
                &&& old(pool)@.ops[id.slot_of()].state == OpState::Free
                &&& final(pool)@.live(id)
                &&& final(pool)@.op(id) == started_op(
                    old(pool)@.op(id),
                    kind,
                    badge,
                    client,
                    reply_slot->0,
                )
                &&& final(pool)@.ops == old(pool)@.ops.update(id.slot_of(), final(pool)@.op(id))
                &&& final(pool)@.payloads == old(pool)@.payloads
                &&& final(pool)@.in_use == old(pool)@.in_use
            },
            Prepared::Refused(release) => {
                &&& final(pool)@ == old(pool)@
                &&& release == reply_slot
                &&& reply_slot is Some ==> forall|i: int|
                    0 <= i < MAX_PENDING_OPS ==> (#[trigger] old(pool)@.ops[i]).state
                        != OpState::Free
            },
        },
{
    match reply_slot {
        None => Prepared::Refused(None),
        Some(slot) => match pool.allocate(kind, badge, client, slot) {
            Some(id) => Prepared::Deferred(id),
            None => Prepared::Refused(Some(slot)),
        },
    }
}

/// Gives an operation a payload that says its walk has ended at `current`. Fails when no
/// payload buffer is free or the operation has ended.
pub fn init_continuation_payload_done(
    pool: &mut OwnerPool,
    op_id: PendingOpId,
    current: Handle,
    aux: NameiResumeAux,
) -> (r: bool)
    requires
        pool_wf(old(pool)@),
    ensures
        pool_wf(final(pool)@),
        r ==> {
            let p = final(pool)@.op(op_id).payload_ref;
            &&& old(pool)@.live(op_id)
            &&& p < MAX_PAYLOAD_BUFS
            &&& !old(pool)@.in_use[p as int]
            &&& final(pool)@.ops == old(pool)@.ops.update(
                op_id.slot_of(),
                PendingOp { payload_ref: p, ..old(pool)@.op(op_id) },
            )
            &&& final(pool)@.in_use == old(pool)@.in_use.update(p as int, true)
            &&& final(pool)@.payloads == old(pool)@.payloads.update(
                p as int,
                PayloadView::Resume(done_state(current, aux)),
            )
            &&& final(pool)@.hint == old(pool)@.hint
        },
        !r ==> {
            &&& final(pool)@.ops == old(pool)@.ops
            &&& final(pool)@.in_use == old(pool)@.in_use
            &&& final(pool)@.hint == old(pool)@.hint
        },
        forall|k: int|
            0 <= k < MAX_PAYLOAD_BUFS && old(pool)@.in_use[k] ==> #[trigger] final(pool)@.payloads[k]
                == old(pool)@.payloads[k],
        r <==> old(pool)@.live(op_id) && exists|i: int|
            0 <= i < MAX_PAYLOAD_BUFS && !(#[trigger] old(pool)@.in_use[i]),
{
    let p: u32 = match pool.alloc_payload() {
        Some(p) => p,
        None => {
            return false;
        },
    };
    assert(!old(pool)@.in_use[p as int]);
    let state = NameiResumeState {
        path: Vec::new(),
        pos: 0,
        depth: 0,
        follow_final_symlink: false,
        ignore_case: false,
        skip_posix_only: false,
        skip_win32_only: false,
        resume_step: NAMEI_STEP_DONE,
        current,
        aux,
    };
    assert(state@ =~= done_state(current, aux));
    match pool.get_mut(op_id) {
        Some(op) => {
            op.payload_ref = p;
        },
        None => {
            pool.release_payload(p);
            assert(pool@.in_use =~= old(pool)@.in_use);
            return false;
        },
    }
    pool.set_payload(p, Payload::Resume(state));
    assert(pool@.payloads =~= old(pool)@.payloads.update(
        p as int,
        PayloadView::Resume(done_state(current, aux)),
    ));
    true
}

/// The suspended walk with the request's own path and tail put in.
pub open spec fn adopted_state(s: ResumeView, path: Seq<u8>, aux: NameiResumeAux) -> ResumeView {
    ResumeView { path: prefix(path, BOOTSTRAP_PATH_MAX as int), aux, ..s }
}

/// Outcome of handing an operation over to a request.
pub enum Adoption {
    /// The operation now belongs to the request; its reply is deferred.
    Adopted,
    /// It does not; the captured reply, if any, is to be released.
    Refused(Option<u64>),
}

/// What becomes of operation `op_id` when a request takes it over: kind, badge, client,
/// reply, path and tail become the request's. This takes a kept reply and an operation that
/// carries a walk.
pub open spec fn op_adopted(
    before: PoolView,
    after: PoolView,
    op_id: PendingOpId,
    new_kind: PendingOpKind,
    badge: u64,
    client: Handle,
    reply_slot: Option<u64>,
    path: Seq<u8>,
    aux: NameiResumeAux,
    r: Adoption,
) -> bool {
    let p = before.op(op_id).payload_ref;
    let carries = p < MAX_PAYLOAD_BUFS && before.payloads[p as int] is Resume;
    let taken = |slot: u64|
        PendingOp {
            kind: new_kind,
            badge,
            client_handle_raw: packed(client),
            reply_slot: slot,
            ..before.op(op_id)
        };
    match r {
        Adoption::Adopted => {
            &&& reply_slot is Some && before.live(op_id) && carries
            &&& after == before.with_op(op_id, taken(reply_slot->0)).with_payload(
                p,
                PayloadView::Resume(adopted_state(before.payloads[p as int]->Resume_0, path, aux)),
            )
        },
        Adoption::Refused(release) => {
            &&& release == reply_slot
            &&& reply_slot is None || !before.live(op_id) || !carries
            &&& reply_slot is None || !before.live(op_id) ==> after == before
            &&& reply_slot is Some && before.live(op_id) ==> after == before.with_op(
                op_id,
                taken(0),
            )
        },
    }
}

/// Hands an operation that a lookup or a backend left behind over to the request that is
/// waiting for it: kind, badge, client, reply, path and tail become the request's.
pub fn adopt_deferred_op_for_continuation(
    pool: &mut OwnerPool,
    op_id: PendingOpId,
    new_kind: PendingOpKind,
    badge: u64,
    client: Handle,
    reply_slot: Option<u64>,
    abs_path: &[u8],
    aux: NameiResumeAux,
) -> (r: Adoption)
    requires
        pool_wf(old(pool)@),
    ensures
        pool_wf(final(pool)@),
        op_adopted(
            old(pool)@,
            final(pool)@,
            op_id,
            new_kind,
            badge,
            client,
            reply_slot,
            abs_path@,
            aux,
            r,
        ),
{
    let slot: u64 = match reply_slot {
        Some(s) => s,
        None => {
            return Adoption::Refused(None);
        },
    };
    let op: PendingOp = match pool.get(op_id) {
        Some(op) => op,
        None => {
            return Adoption::Refused(Some(slot));
        },
    };
    let next: Option<NameiResumeState> = match pool.payload_bytes(op.payload_ref) {
        Some(Payload::Resume(state)) => {
            let mut copy: NameiResumeState = state.duplicate();
            copy.path = copy_prefix(abs_path, BOOTSTRAP_PATH_MAX);
            copy.aux = aux;
            Some(copy)
        },
        _ => None,
    };
    match pool.get_mut(op_id) {
        Some(m) => {
            m.kind = new_kind;
            m.badge = badge;
            m.client_handle_raw = pack_client_handle(client);
            m.reply_slot = if next.is_some() {
                slot
            } else {
                0
            };
        },
        None => {},
    }
    match next {
        Some(state) => {
            pool.set_payload(op.payload_ref, Payload::Resume(state));
            Adoption::Adopted
        },
        None => Adoption::Refused(Some(slot)),
    }
}

/// Ends an operation with an error: the result says whom to tell.
pub fn fail_continuation(pool: &mut OwnerPool, op_id: PendingOpId, err: Status) -> (r: Option<
    ReplyAction,
>)
    requires
        pool_wf(old(pool)@),
    ensures
        pool_wf(final(pool)@),
        final(pool)@ == old(pool)@.freed(op_id),
        r == (if old(pool)@.owed_reply(op_id) == 0 {
            None
        } else {
            Some(ReplyAction::Send { reply_slot: old(pool)@.owed_reply(op_id), label: err })
        }),
{
    let reply_slot: u64 = pool.take_reply_and_free(op_id);
    if reply_slot != 0 {
        Some(ReplyAction::Send { reply_slot, label: err })
    } else {
        None
    }
}

/// Ends an operation: the result is the reply that is still owed, if one is.
pub fn finish_continuation(pool: &mut OwnerPool, op_id: PendingOpId) -> (r: Option<u64>)
    requires
        pool_wf(old(pool)@),
    ensures
        pool_wf(final(pool)@),
        final(pool)@ == old(pool)@.freed(op_id),
        r == (if old(pool)@.owed_reply(op_id) == 0 {
            None
        } else {
            Some(old(pool)@.owed_reply(op_id))
        }),
{
    let reply_slot: u64 = pool.take_reply_and_free(op_id);
    if reply_slot != 0 {
        Some(reply_slot)
    } else {
        None
    }
}

/// The table after the caller of `from` was moved to `to` and `from` has ended.
pub open spec fn chained(p: PoolView, from: PendingOpId, to: PendingOpId, kind: PendingOpKind) -> PoolView {
    let a = p.with_op(
        to,
        PendingOp {
            kind,
            badge: p.op(from).badge,
            client_handle_raw: p.op(from).client_handle_raw,
            reply_slot: p.op(from).reply_slot,
            ..p.op(to)
        },
    );
    a.reply_taken(from).freed(from)
}

/// Moves the caller of one operation to the operation that follows it. Fails, with
/// nothing changed, when either has ended.
pub fn transition_to_chained_op(pool: &mut OwnerPool, old_op_id: PendingOpId, new_op_id: PendingOpId) -> (r:
    bool)
    requires
        pool_wf(old(pool)@),
    ensures
        pool_wf(final(pool)@),
        r == (old(pool)@.live(old_op_id) && old(pool)@.live(new_op_id)),
        final(pool)@ == (if r {
            chained(old(pool)@, old_op_id, new_op_id, old(pool)@.op(old_op_id).kind)
        } else {
            old(pool)@
        }),
{
    let from: PendingOp = match pool.get(old_op_id) {
        Some(op) => op,
        None => {
            return false;
        },
    };
    match pool.get_mut(new_op_id) {
        Some(m) => {
            m.kind = from.kind;
            m.badge = from.badge;
            m.client_handle_raw = from.client_handle_raw;
            m.reply_slot = from.reply_slot;
        },
        None => {
            return false;
        },
    }
    let _ = pool.take_reply_slot(old_op_id);
    pool.free(old_op_id);
    true
}

/// As [`transition_to_chained_op`], and the tail of the request is replaced too. Fails when
/// either operation has ended or the new one carries no suspended walk; in that last case
/// the new operation already bears the caller's data, and the old one still holds it.
pub fn transition_to_chained_op_with_aux(
    pool: &mut OwnerPool,
    old_op_id: PendingOpId,
    new_op_id: PendingOpId,
    new_kind: PendingOpKind,
    aux: NameiResumeAux,
) -> (r: bool)
    requires
        pool_wf(old(pool)@),
    ensures
        pool_wf(final(pool)@),
        ({
            let before = old(pool)@;
            let p = before.op(new_op_id).payload_ref;
            let carries = p < MAX_PAYLOAD_BUFS && before.payloads[p as int] is Resume;
            let both = before.live(old_op_id) && before.live(new_op_id);
            &&& r == (both && carries)
            &&& final(pool)@ == (if r {
                chained(
                    before.with_payload(
                        p,
                        PayloadView::Resume(
                            ResumeView { aux, ..before.payloads[p as int]->Resume_0 },
                        ),
                    ),
                    old_op_id,
                    new_op_id,
                    new_kind,
                )
            } else if both {
                before.with_op(
                    new_op_id,
                    PendingOp {
                        kind: new_kind,
                        badge: before.op(old_op_id).badge,
                        client_handle_raw: before.op(old_op_id).client_handle_raw,
                        reply_slot: before.op(old_op_id).reply_slot,
                        ..before.op(new_op_id)
                    },
                )
            } else {
                before
            })
        }),
{
    let from: PendingOp = match pool.get(old_op_id) {
        Some(op) => op,
        None => {
            return false;
        },
    };
    let to: PendingOp = match pool.get(new_op_id) {
        Some(op) => op,
        None => {
            return false;
        },
    };
    match pool.get_mut(new_op_id) {
        Some(m) => {
            m.kind = new_kind;
            m.badge = from.badge;
            m.client_handle_raw = from.client_handle_raw;
            m.reply_slot = from.reply_slot;
        },
        None => {},
    }
    let next: NameiResumeState = match pool.payload_bytes(to.payload_ref) {
        Some(Payload::Resume(state)) => {
            let mut copy: NameiResumeState = state.duplicate();
            copy.aux = aux;
            copy
        },
        _ => {
            return false;
        },
    };
    pool.set_payload(to.payload_ref, Payload::Resume(next));
    let _ = pool.take_reply_slot(old_op_id);
    pool.free(old_op_id);
    true
}

/// Puts the caller into an operation that was made without one. Fails when the reply
/// could not be captured or the operation has ended; the captured reply is then to be
/// released.
pub fn populate_alloced_op_for_caller(
    pool: &mut OwnerPool,
    op_id: PendingOpId,
    badge: u64,
    client: Handle,
    reply_slot: Option<u64>,
) -> (r: Adoption)
    requires
        pool_wf(old(pool)@),
    ensures
        pool_wf(final(pool)@),
        match r {
            Adoption::Adopted => {
                &&& reply_slot is Some && old(pool)@.live(op_id)
                &&& final(pool)@ == old(pool)@.with_op(
                    op_id,
                    PendingOp {
                        badge,
                        client_handle_raw: packed(client),
                        reply_slot: reply_slot->0,
                        ..old(pool)@.op(op_id)
                    },
                )
            },
            Adoption::Refused(release) => {
                &&& reply_slot is None || !old(pool)@.live(op_id)
                &&& release == reply_slot
                &&& final(pool)@ == old(pool)@
            },
        },
{
    let slot: u64 = match reply_slot {
        Some(s) => s,
        None => {
            return Adoption::Refused(None);
        },
    };
    match pool.get_mut(op_id) {
        Some(m) => {
            m.badge = badge;
            m.client_handle_raw = pack_client_handle(client);
            m.reply_slot = slot;
            Adoption::Adopted
        },
        None => Adoption::Refused(Some(slot)),
    }
}

/// Chaining two different operations moves the owed reply and loses none: afterwards the
/// new operation owes what the old one owed, and the old one is gone.
pub proof fn law_chaining_moves_the_reply(
    p: PoolView,
    from: PendingOpId,
    to: PendingOpId,
    kind: PendingOpKind,
)
    requires
        pool_wf(p),
        p.live(from),
        p.live(to),
        from.slot_of() != to.slot_of(),
    ensures
        chained(p, from, to, kind).live(to),
        chained(p, from, to, kind).owed_reply(to) == p.owed_reply(from),
        !chained(p, from, to, kind).live(from),
        chained(p, from, to, kind).owed_reply(from) == 0,
{
}

} // verus!
