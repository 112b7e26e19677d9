//! Operations that wait, jobs for workers, and requests that go on later.

use vfs::arena::Handle;
use vfs::backend_rpc::{
    begin_backend_job, finish_backend_job, set_worker_completion_ntfn, signal_owner_completion,
    BackendOpCtx, BackendPayload, CompletionSignal, PendingBackendJob, RpcCore, WorkerPool,
    BACKEND_OP_NONE, BACKEND_OP_SALTYFS_LOOKUP_CHILD,
};
use vfs::continuation::{
    adopt_deferred_op_for_continuation, fail_continuation, finish_continuation,
    init_continuation_payload_done, populate_alloced_op_for_caller, prepare_continuation,
    transition_to_chained_op, transition_to_chained_op_with_aux, Adoption, Prepared,
};
use vfs::namei_state::{namei_aux_chmod, namei_aux_none, ChmodContBody, NameiResumeAux, NAMEI_STEP_DONE};
use vfs::pending_ops::{
    apply_cancel_reply, pack_client_handle, unpack_client_handle, worker_enter, worker_leave,
    CancelDisposition, OpState, OwnerPool, Payload, PendingOpId, ReplyAction, WorkerInflight,
    MAX_PENDING_OPS, PO_KIND_BACKEND_RPC, PO_KIND_CHMOD_CONT, PO_KIND_OPEN_CONT, PO_KIND_STAT_CONT,
};
use vfs::status::Status;
use vfs::wire::{Opcode, Reply, Request};

fn h(slot: u32, epoch: u32) -> Handle {
    Handle { slot, epoch }
}

fn job(op: PendingOpId, kind: u32) -> PendingBackendJob {
    PendingBackendJob {
        target_ep: 77,
        op_kind: kind,
        payload_out_bytes: 0,
        op_id: op.raw(),
        request: Request::bare(Opcode::BackendLookup),
        ctx: BackendOpCtx { badge: 1, client_handle_raw: 0, stage: 0, data: [0; 6] },
    }
}

#[test]
fn operation_ids_round_trip() {
    let id = PendingOpId::pack(5, 9);
    assert_eq!(id.raw(), 0x0000_0009_0000_0005);
    assert_eq!(id.slot(), 5);
    assert_eq!(id.generation(), 9);
    assert_eq!(PendingOpId::from_raw(id.raw()), id);
    assert!(PendingOpId::from_raw(0).is_none());
    assert!(!id.is_none());
    assert_eq!(unpack_client_handle(pack_client_handle(h(3, 4))), h(3, 4));
}

#[test]
fn ended_operation_is_stale() {
    let mut p = OwnerPool::new();
    let a = p.allocate(PO_KIND_STAT_CONT, 7, h(1, 0), 40).unwrap();
    let b = p.allocate(PO_KIND_STAT_CONT, 8, h(2, 0), 41).unwrap();
    assert_eq!(p.get(a).unwrap().badge, 7);
    assert_eq!(p.for_each_active_kind(PO_KIND_STAT_CONT), vec![a, b]);
    p.free(a);
    assert!(p.get(a).is_none());
    assert_eq!(p.get(b).unwrap().reply_slot, 41);
    assert_eq!(p.for_each_active_kind(PO_KIND_STAT_CONT), vec![b]);
    for _ in 0..MAX_PENDING_OPS {
        let c = p.allocate(PO_KIND_STAT_CONT, 9, h(3, 0), 0);
        if let Some(c) = c {
            assert_ne!(c, a);
        }
    }
    assert!(p.allocate(PO_KIND_STAT_CONT, 9, h(3, 0), 0).is_none());
}

#[test]
fn operation_lives_through_its_states() {
    let mut p = OwnerPool::new();
    let a = p.allocate(PO_KIND_BACKEND_RPC, 7, h(1, 0), 40).unwrap();
    assert_eq!(p.get(a).unwrap().state, OpState::Queued);
    assert!(!p.try_complete(a));
    assert!(p.mark_running(a));
    assert!(!p.mark_running(a));
    assert!(p.try_complete(a));
    assert_eq!(p.get(a).unwrap().state, OpState::Completing);
    assert!(p.requeue(a));
    assert_eq!(p.get(a).unwrap().state, OpState::Queued);
    assert!(!p.requeue(a));
}

#[test]
fn cancelled_operation_never_completes() {
    let mut p = OwnerPool::new();
    let a = p.allocate(PO_KIND_BACKEND_RPC, 7, h(1, 0), 40).unwrap();
    let b = p.allocate(PO_KIND_BACKEND_RPC, 8, h(1, 0), 41).unwrap();
    assert!(p.mark_running(a));
    assert_eq!(p.cancel_for_badge(7, CancelDisposition::Cancelled), 1);
    assert!(!p.try_complete(a));
    assert!(p.mark_running(b));
    assert_eq!(
        p.drain_cancelled(),
        vec![ReplyAction::Send { reply_slot: 40, label: Status::Cancelled }]
    );
    assert!(p.get(a).is_none());
    assert!(p.get(b).is_some());
    assert_eq!(p.drain_cancelled(), vec![]);
}

#[test]
fn cancelling_says_what_callers_are_told() {
    assert_eq!(
        apply_cancel_reply(9, CancelDisposition::Drop),
        Some(ReplyAction::Release { reply_slot: 9 })
    );
    assert_eq!(
        apply_cancel_reply(9, CancelDisposition::ServerDied),
        Some(ReplyAction::Send { reply_slot: 9, label: Status::ServerDied })
    );
    assert_eq!(apply_cancel_reply(0, CancelDisposition::Cancelled), None);
}

#[test]
fn reply_is_taken_once() {
    let mut p = OwnerPool::new();
    let a = p.allocate(PO_KIND_STAT_CONT, 7, h(1, 0), 40).unwrap();
    assert_eq!(p.take_reply_slot(a), 40);
    assert_eq!(p.take_reply_slot(a), 0);
    assert_eq!(p.take_reply_and_free(a), 0);
    assert!(p.get(a).is_none());
    assert_eq!(p.take_reply_slot(a), 0);
}

#[test]
fn payloads_are_handed_out_and_given_back() {
    let mut p = OwnerPool::new();
    let i = p.alloc_payload().unwrap();
    assert!(p.set_payload(i, Payload::Empty));
    assert!(p.payload_bytes(i).is_some());
    p.release_payload(i);
    let mut n: u32 = 0;
    while p.alloc_payload().is_some() {
        n += 1;
    }
    assert_eq!(n, 128);
}

#[test]
fn workers_are_marked_busy() {
    let mut w = WorkerInflight { slots: [0; 4] };
    worker_enter(&mut w, 2, PendingOpId::from_raw(9));
    assert_eq!(w.slots, [0, 0, 9, 0]);
    worker_enter(&mut w, 7, PendingOpId::from_raw(9));
    worker_leave(&mut w, 2);
    assert_eq!(w.slots, [0, 0, 0, 0]);
}

#[test]
fn jobs_are_served_in_order() {
    let mut rpc = RpcCore::new();
    rpc.workers.spawned = 2;
    let a = rpc.start_call(PO_KIND_BACKEND_RPC, 1, h(0, 0), 5, job(PendingOpId::from_raw(0), 18));
    let (first, worker) = a.unwrap();
    assert_eq!(worker, 0);
    let (second, worker) =
        rpc.start_call(PO_KIND_BACKEND_RPC, 1, h(0, 0), 6, job(PendingOpId::from_raw(0), 18)).unwrap();
    assert_eq!(worker, 1);
    assert_eq!(rpc.jobs.pop().unwrap().op_id, first.raw());
    assert_eq!(rpc.jobs.pop().unwrap().op_id, second.raw());
    assert!(rpc.jobs.pop().is_none());
}

#[test]
fn without_workers_nothing_is_deferred() {
    let mut rpc = RpcCore::new();
    assert!(rpc.try_enqueue_job(job(PendingOpId::from_raw(1), BACKEND_OP_NONE)).is_none());
    rpc.workers.spawned = 1;
    assert_eq!(rpc.try_enqueue_job(job(PendingOpId::from_raw(1), BACKEND_OP_NONE)), Some(0));
    assert_eq!(
        rpc.enqueue_saltyfs_op(
            PendingOpId::from_raw(3),
            BACKEND_OP_SALTYFS_LOOKUP_CHILD,
            9,
            Request::bare(Opcode::BackendLookup),
            [1, 2, 3, 4, 5, 6]
        ),
        Some(0)
    );
    rpc.jobs.pop();
    let j = rpc.jobs.pop().unwrap();
    assert_eq!((j.target_ep, j.op_kind, j.op_id), (9, BACKEND_OP_SALTYFS_LOOKUP_CHILD, 3));
    assert_eq!(j.ctx.data, [1, 2, 3, 4, 5, 6]);
}

#[test]
fn full_queue_refuses_jobs() {
    let mut rpc = RpcCore::new();
    rpc.workers.spawned = 1;
    for _ in 0..15 {
        assert!(rpc.try_enqueue_job(job(PendingOpId::from_raw(1), BACKEND_OP_NONE)).is_some());
    }
    assert!(rpc.try_enqueue_job(job(PendingOpId::from_raw(1), BACKEND_OP_NONE)).is_none());
}

#[test]
fn workers_take_turns() {
    let mut w = WorkerPool { spawned: 3, next_wake: 0, wake: [0; 4] };
    assert_eq!(w.worker_count(), 3);
    assert_eq!(w.wake_one_worker(), Some(0));
    assert_eq!(w.wake_one_worker(), Some(1));
    assert_eq!(w.wake_one_worker(), Some(2));
    assert_eq!(w.wake_one_worker(), Some(0));
    assert_eq!(w.wake, [2, 1, 1, 0]);
    w.wake_worker(9);
    assert_eq!(w.wake, [2, 1, 1, 0]);
    w.spawned = 0;
    assert_eq!(w.wake_one_worker(), None);
}

#[test]
fn worker_runs_a_job_that_still_waits() {
    let mut p = OwnerPool::new();
    let mut w = WorkerInflight { slots: [0; 4] };
    let a = p.allocate(PO_KIND_BACKEND_RPC, 7, h(1, 0), 40).unwrap();
    let mut j = job(a, 18);
    j.payload_out_bytes = 4;
    assert!(begin_backend_job(&mut p, &mut w, 1, &j));
    assert!(!begin_backend_job(&mut p, &mut w, 1, &j));
    let c = finish_backend_job(
        &mut p,
        &mut w,
        1,
        &j,
        0,
        Reply::bare(Status::Success),
        BackendPayload::Bytes(b"abcdef".to_vec()),
    );
    let c = c.unwrap();
    assert_eq!(c.op_id, a.raw());
    assert!(matches!(c.payload, BackendPayload::Bytes(b) if b == b"abcd".to_vec()));
    assert_eq!(w.slots, [0; 4]);
}

#[test]
fn worker_drops_the_answer_of_a_cancelled_job() {
    let mut p = OwnerPool::new();
    let mut w = WorkerInflight { slots: [0; 4] };
    let a = p.allocate(PO_KIND_BACKEND_RPC, 7, h(1, 0), 40).unwrap();
    let j = job(a, 18);
    assert!(begin_backend_job(&mut p, &mut w, 0, &j));
    p.cancel_for_badge(7, CancelDisposition::Drop);
    let c = finish_backend_job(
        &mut p,
        &mut w,
        0,
        &j,
        0,
        Reply::bare(Status::Success),
        BackendPayload::Empty,
    );
    assert!(c.is_none());
    assert_eq!(p.drain_cancelled(), vec![ReplyAction::Release { reply_slot: 40 }]);
}

#[test]
fn owner_is_signalled_once_there_is_a_notification() {
    let mut s = CompletionSignal { cap: 0, bits: 0 };
    assert_eq!(signal_owner_completion(&s), None);
    set_worker_completion_ntfn(&mut s, 12, 3);
    assert_eq!(signal_owner_completion(&s), Some((12, 3)));
}

#[test]
fn request_goes_on_later_or_is_refused() {
    let mut p = OwnerPool::new();
    assert!(matches!(
        prepare_continuation(&mut p, PO_KIND_CHMOD_CONT, 7, h(1, 0), None),
        Prepared::Refused(None)
    ));
    let id = match prepare_continuation(&mut p, PO_KIND_CHMOD_CONT, 7, h(1, 0), Some(40)) {
        Prepared::Deferred(id) => id,
        Prepared::Refused(_) => panic!("there is room"),
    };
    assert!(init_continuation_payload_done(
        &mut p,
        id,
        h(9, 0),
        namei_aux_chmod(ChmodContBody { mode: 0o600 })
    ));
    let r = p.get(id).unwrap().payload_ref;
    match p.payload_bytes(r) {
        Some(Payload::Resume(s)) => {
            assert_eq!(s.resume_step, NAMEI_STEP_DONE);
            assert_eq!(s.current, h(9, 0));
            assert!(matches!(s.aux, NameiResumeAux::Chmod(b) if b.mode == 0o600));
        }
        _ => panic!("a walk is kept"),
    }
    assert_eq!(
        fail_continuation(&mut p, id, Status::NotFound),
        Some(ReplyAction::Send { reply_slot: 40, label: Status::NotFound })
    );
    assert_eq!(fail_continuation(&mut p, id, Status::NotFound), None);
}

#[test]
fn operation_is_handed_over_to_a_request() {
    let mut p = OwnerPool::new();
    let id = p.allocate(PO_KIND_BACKEND_RPC, 0, h(0, 0), 0).unwrap();
    assert!(init_continuation_payload_done(&mut p, id, h(9, 0), namei_aux_none()));
    let a = adopt_deferred_op_for_continuation(
        &mut p,
        id,
        PO_KIND_OPEN_CONT,
        7,
        h(1, 0),
        Some(40),
        b"/a/b",
        namei_aux_none(),
    );
    assert!(matches!(a, Adoption::Adopted));
    let op = p.get(id).unwrap();
    assert_eq!((op.kind, op.badge, op.reply_slot), (PO_KIND_OPEN_CONT, 7, 40));
    assert_eq!(finish_continuation(&mut p, id), Some(40));
    assert_eq!(finish_continuation(&mut p, id), None);
    let bare = p.allocate(PO_KIND_BACKEND_RPC, 0, h(0, 0), 0).unwrap();
    assert!(matches!(
        adopt_deferred_op_for_continuation(
            &mut p,
            bare,
            PO_KIND_OPEN_CONT,
            7,
            h(1, 0),
            Some(41),
            b"/a",
            namei_aux_none()
        ),
        Adoption::Refused(Some(41))
    ));
}

#[test]
fn chaining_moves_the_reply() {
    let mut p = OwnerPool::new();
    let a = p.allocate(PO_KIND_OPEN_CONT, 7, h(1, 0), 40).unwrap();
    let b = p.allocate(PO_KIND_BACKEND_RPC, 0, h(0, 0), 0).unwrap();
    assert!(init_continuation_payload_done(&mut p, a, h(9, 0), namei_aux_none()));
    assert!(transition_to_chained_op(&mut p, a, b));
    assert!(p.get(a).is_none());
    let op = p.get(b).unwrap();
    assert_eq!((op.kind, op.badge, op.reply_slot), (PO_KIND_OPEN_CONT, 7, 40));
    let c = p.allocate(PO_KIND_BACKEND_RPC, 0, h(0, 0), 0).unwrap();
    assert!(init_continuation_payload_done(&mut p, c, h(9, 0), namei_aux_none()));
    assert!(transition_to_chained_op_with_aux(
        &mut p,
        b,
        c,
        PO_KIND_CHMOD_CONT,
        namei_aux_chmod(ChmodContBody { mode: 1 })
    ));
    assert_eq!(p.take_reply_slot(c), 40);
    let d = p.allocate(PO_KIND_BACKEND_RPC, 0, h(0, 0), 0).unwrap();
    assert!(matches!(
        populate_alloced_op_for_caller(&mut p, d, 3, h(2, 0), Some(50)),
        Adoption::Adopted
    ));
    assert_eq!(p.get(d).unwrap().badge, 3);
}

#[test]
fn new_core_is_idle() {
    let mut rpc = RpcCore::new();
    assert_eq!((rpc.workers.spawned, rpc.workers.next_wake), (0, 0));
    assert_eq!(rpc.workers.wake, [0, 0, 0, 0]);
    assert!(rpc.jobs.pop().is_none());
    assert!(rpc.pool.for_each_active_kind(PO_KIND_BACKEND_RPC).is_empty());
    let none = rpc.start_call(PO_KIND_BACKEND_RPC, 1, h(0, 0), 5, job(PendingOpId::from_raw(0), 18));
    assert!(none.is_none());
    assert!(rpc.pool.for_each_active_kind(PO_KIND_BACKEND_RPC).is_empty());
}
