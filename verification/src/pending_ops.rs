//! Table of deferred operations.
//!
//! Every call to another server that is answered later holds a slot here: the reply
//! that is owed, who asked, and references to larger state. A slot moves from queued to
//! running to completing; a cancelled slot only leaves the table.

use vstd::prelude::*;

use crate::arena::{unpacked, pack_handle, packed, unpack_handle, Handle};
use crate::namei_state::{NameiResumeState, ResumeView};
use crate::status::Status;
use crate::vnode_index::{step_to, steps_between};
use crate::wire::{ArgsView, KinfoProc, KinfoView, SaltyfsDeferredArgs};

verus! {

pub const MAX_PENDING_OPS: usize = 256;

pub const MAX_PAYLOAD_BUFS: usize = 128;

/// Threads that carry out calls to other servers.
pub const MAX_WORKERS: usize = 4;

/// The reference that names no payload.
pub const INVALID_PAYLOAD_REF: u32 = 0xffff_ffff;

/// Identifier of a deferred operation: slot in the low half, generation in the high half.
/// Zero names no operation.
#[derive(Clone, Copy, PartialEq, Eq, Structural, Debug)]
pub struct PendingOpId(pub u64);

/// The word with `slot` in the low half and `generation` in the high half.
pub open spec fn id_word(slot: u32, generation: u32) -> u64 {
    (slot as u64) | ((generation as u64) << 32)
}

proof fn lemma_id_word(slot: u32, generation: u32)
    ensures
        id_word(slot, generation) == slot as int + generation as int * 0x1_0000_0000,
        id_word(slot, generation) % 0x1_0000_0000 == slot,
        id_word(slot, generation) / 0x1_0000_0000 == generation,
{
    let s: u64 = slot as u64;
    let g: u64 = generation as u64;
    assert(s | (g << 32) == s + g * 0x1_0000_0000) by (bit_vector)
        requires
            s <= 0xffff_ffff,
            g <= 0xffff_ffff,
    ;
}

impl PendingOpId {
    /// Slot that the identifier names.
    pub open spec fn slot_of(self) -> int {
        (self.0 % 0x1_0000_0000) as int
    }

    /// Generation that the identifier names.
    pub open spec fn generation_of(self) -> int {
        (self.0 / 0x1_0000_0000) as int
    }

    pub fn pack(slot: u32, generation: u32) -> (r: PendingOpId)
        ensures
            r.0 == id_word(slot, generation),
            r.slot_of() == slot,
            r.generation_of() == generation,
    {
        proof {
            lemma_id_word(slot, generation);
        }
        PendingOpId((slot as u64) | ((generation as u64) << 32))
    }

    pub fn raw(self) -> (r: u64)
        ensures
            r == self.0,
    {
        self.0
    }

    pub fn from_raw(raw: u64) -> (r: PendingOpId)
        ensures
            r.0 == raw,
    {
        PendingOpId(raw)
    }

    pub fn slot(self) -> (r: u32)
        ensures
            r == self.slot_of(),
    {
        let raw: u64 = self.0;
        assert((raw & 0xffff_ffff) as u32 == raw % 0x1_0000_0000) by (bit_vector);
        (raw & 0xffff_ffff) as u32
    }

    pub fn generation(self) -> (r: u32)
        ensures
            r == self.generation_of(),
    {
        let raw: u64 = self.0;
        assert((raw >> 32) as u32 == raw / 0x1_0000_0000) by (bit_vector);
        (raw >> 32) as u32
    }

    pub fn is_none(self) -> (r: bool)
        ensures
            r == (self.0 == 0),
    {
        self.0 == 0
    }
}

/// Slot and generation determine the identifier and are read back from it; an identifier
/// with a generation above zero names an operation.
pub proof fn law_op_id_round_trip(slot: u32, generation: u32, id: PendingOpId)
    ensures
        PendingOpId(id_word(slot, generation)).slot_of() == slot,
        PendingOpId(id_word(slot, generation)).generation_of() == generation,
        id_word(id.slot_of() as u32, id.generation_of() as u32) == id.0,
        generation != 0 ==> id_word(slot, generation) != 0,
{
    lemma_id_word(slot, generation);
    lemma_id_word(id.slot_of() as u32, id.generation_of() as u32);
}

/// Packs a client handle into one word.
pub fn pack_client_handle(h: Handle) -> (r: u64)
    ensures
        r == packed(h),
        r == h.epoch as int * 0x1_0000_0000 + h.slot as int,
{
    pack_handle(h)
}

/// Splits a packed client handle.
pub fn unpack_client_handle(v: u64) -> (r: Handle)
    ensures
        r == unpacked(v),
        r.slot == v % 0x1_0000_0000,
        r.epoch == v / 0x1_0000_0000,
{
    unpack_handle(v)
}

/// Where a slot stands in its life.
#[derive(Clone, Copy, PartialEq, Eq, Structural, Debug)]
pub enum OpState {
    Free,
    Queued,
    Running,
    Completing,
    Cancelled,
}

/// What a cancelled operation's caller is told.
#[derive(Clone, Copy, PartialEq, Eq, Structural, Debug)]
pub enum CancelDisposition {
    Drop,
    Cancelled,
    ServerDied,
}

pub type PendingOpKind = u8;

pub const PO_KIND_NONE: PendingOpKind = 0;

pub const PO_KIND_TTY_STDIO: PendingOpKind = 1;

pub const PO_KIND_TTY_GET_GEN: PendingOpKind = 2;

pub const PO_KIND_TTY_OPEN_SLAVE: PendingOpKind = 3;

pub const PO_KIND_PROCFS_READ: PendingOpKind = 4;

pub const PO_KIND_PROCFS_PID_STAT: PendingOpKind = 5;

pub const PO_KIND_PROCFS_READLINK: PendingOpKind = 6;

pub const PO_KIND_PROCFS_READDIR: PendingOpKind = 7;

pub const PO_KIND_NAMEI_RESUME: PendingOpKind = 8;

pub const PO_KIND_DEVICE: PendingOpKind = 9;

pub const PO_KIND_SHM: PendingOpKind = 10;

pub const PO_KIND_NET: PendingOpKind = 11;

pub const PO_KIND_BACKEND_RPC: PendingOpKind = 12;

pub const PO_KIND_OPEN_CONT: PendingOpKind = 13;

pub const PO_KIND_STAT_CONT: PendingOpKind = 14;

pub const PO_KIND_ACCESS_CONT: PendingOpKind = 15;

pub const PO_KIND_CHMOD_CONT: PendingOpKind = 16;

pub const PO_KIND_CHOWN_CONT: PendingOpKind = 17;

pub const PO_KIND_UTIMES_CONT: PendingOpKind = 18;

pub const PO_KIND_TRUNCATE_CONT: PendingOpKind = 19;

pub const PO_KIND_READLINK_CONT: PendingOpKind = 20;

pub const PO_KIND_UNLINK_CONT: PendingOpKind = 21;

pub const PO_KIND_MKDIR_CONT: PendingOpKind = 22;

pub const PO_KIND_RENAME_CONT: PendingOpKind = 23;

pub const PO_KIND_SYMLINK_CONT: PendingOpKind = 24;

pub const PO_KIND_LINK_CONT: PendingOpKind = 25;

pub const PO_KIND_MKNOD_CONT: PendingOpKind = 26;

pub const PO_KIND_CHDIR_CONT: PendingOpKind = 27;

pub const PO_KIND_STATVFS_CONT: PendingOpKind = 28;

pub const PO_KIND_MOUNT_CONT: PendingOpKind = 29;

pub const PO_KIND_UMOUNT_CONT: PendingOpKind = 30;

pub const PO_KIND_RESOLVE_PATH_BACKING_CONT: PendingOpKind = 31;

pub const PO_KIND_TTY_WAIT: PendingOpKind = 45;

pub const PO_KIND_INET_WAIT: PendingOpKind = 46;

pub const PO_KIND_SOCKET_WAIT: PendingOpKind = 47;

pub const PO_KIND_FIFO_OPEN: PendingOpKind = 48;

pub const PO_KIND_POLL_WAIT: PendingOpKind = 49;

pub const PO_KIND_EPOLL_WAIT: PendingOpKind = 50;

pub const PO_KIND_PIPE_READ_WAIT: PendingOpKind = 51;

pub const PO_KIND_PIPE_WRITE_WAIT: PendingOpKind = 52;

/// One slot of the table.
#[derive(Clone, Copy)]
pub struct PendingOp {
    pub state: OpState,
    pub kind: PendingOpKind,
    pub cancel_disposition: CancelDisposition,
    pub generation: u32,
    pub reply_slot: u64,
    pub badge: u64,
    pub client_handle_raw: u64,
    pub stage: u32,
    pub payload_ref: u32,
    pub args_payload_ref: u32,
    pub scratch: [u64; 8],
}

/// Eight zero words.
pub open spec fn zero_scratch() -> [u64; 8] {
    [0u64, 0u64, 0u64, 0u64, 0u64, 0u64, 0u64, 0u64]
}

/// A slot that was never used.
pub open spec fn initial_op() -> PendingOp {
    PendingOp {
        state: OpState::Free,
        kind: PO_KIND_NONE,
        cancel_disposition: CancelDisposition::Drop,
        generation: 0,
        reply_slot: 0,
        badge: 0,
        client_handle_raw: 0,
        stage: 0,
        payload_ref: INVALID_PAYLOAD_REF,
        args_payload_ref: INVALID_PAYLOAD_REF,
        scratch: zero_scratch(),
    }
}

/// A slot after its operation has ended. Its generation stays.
pub open spec fn ended_op(op: PendingOp) -> PendingOp {
    PendingOp {
        state: OpState::Free,
        kind: PO_KIND_NONE,
        reply_slot: 0,
        badge: 0,
        client_handle_raw: 0,
        stage: 0,
        payload_ref: INVALID_PAYLOAD_REF,
        args_payload_ref: INVALID_PAYLOAD_REF,
        scratch: zero_scratch(),
        ..op
    }
}

/// Generation that follows `g`; it is never zero.
pub open spec fn next_generation(g: u32) -> u32 {
    if g == u32::MAX {
        1
    } else {
        (g + 1) as u32
    }
}

/// A slot after an operation was put in it.
pub open spec fn started_op(
    op: PendingOp,
    kind: PendingOpKind,
    badge: u64,
    client: Handle,
    reply_slot: u64,
) -> PendingOp {
    PendingOp {
        state: OpState::Queued,
        kind,
        cancel_disposition: CancelDisposition::Drop,
        generation: next_generation(op.generation),
        reply_slot,
        badge,
        client_handle_raw: packed(client),
        stage: 0,
        payload_ref: INVALID_PAYLOAD_REF,
        args_payload_ref: INVALID_PAYLOAD_REF,
        scratch: zero_scratch(),
    }
}

/// Larger state that an operation refers to.
pub enum Payload {
    Empty,
    Resume(NameiResumeState),
    Args(SaltyfsDeferredArgs),
    Kinfo(KinfoProc),
}

/// Value of a [`Payload`].
#[verifier::ext_equal]
pub enum PayloadView {
    Empty,
    Resume(ResumeView),
    Args(ArgsView),
    Kinfo(KinfoView),
}

impl View for Payload {
    type V = PayloadView;

    open spec fn view(&self) -> PayloadView {
        match self {
            Payload::Empty => PayloadView::Empty,
            Payload::Resume(s) => PayloadView::Resume(s@),
            Payload::Args(a) => PayloadView::Args(a@),
            Payload::Kinfo(k) => PayloadView::Kinfo(k@),
        }
    }
}

/// The table: slots, payload buffers, and where the next search for a free one starts.
pub struct OwnerPool {
    slots: Vec<PendingOp>,
    next_alloc_hint: u32,
    payloads: Vec<Payload>,
    payload_in_use: Vec<bool>,
    next_payload_hint: u32,
}

/// Value of an [`OwnerPool`].
#[verifier::ext_equal]
pub struct PoolView {
    pub ops: Seq<PendingOp>,
    pub hint: u32,
    pub payloads: Seq<PayloadView>,
    pub in_use: Seq<bool>,
    pub payload_hint: u32,
}

impl PoolView {
    /// The identifier names a slot of the table in that slot's current generation.
    pub open spec fn names(self, id: PendingOpId) -> bool {
        &&& id.0 != 0
        &&& id.slot_of() < MAX_PENDING_OPS
        &&& self.ops[id.slot_of()].generation == id.generation_of()
    }

    /// The identifier names an operation that has not ended.
    pub open spec fn live(self, id: PendingOpId) -> bool {
        self.names(id) && self.ops[id.slot_of()].state != OpState::Free
    }

    /// The operation that `id` names.
    pub open spec fn op(self, id: PendingOpId) -> PendingOp {
        self.ops[id.slot_of()]
    }

    /// The table with another value in the slot of `id`.
    pub open spec fn with_op(self, id: PendingOpId, op: PendingOp) -> PoolView {
        PoolView { ops: self.ops.update(id.slot_of(), op), ..self }
    }

    /// The table with payload buffer `r` given back.
    pub open spec fn payload_released(self, r: u32) -> PoolView {
        if r < MAX_PAYLOAD_BUFS {
            PoolView { in_use: self.in_use.update(r as int, false), ..self }
        } else {
            self
        }
    }

    /// The table with payload buffer `r` holding `p`.
    pub open spec fn with_payload(self, r: u32, p: PayloadView) -> PoolView {
        PoolView { payloads: self.payloads.update(r as int, p), ..self }
    }

    /// The table after the operation of `id` has ended.
    pub open spec fn freed(self, id: PendingOpId) -> PoolView {
        if self.names(id) {
            let op = self.op(id);
            self.payload_released(op.payload_ref).payload_released(op.args_payload_ref).with_op(
                id,
                ended_op(op),
            )
        } else {
            self
        }
    }

    /// The reply that the operation of `id` owes.
    pub open spec fn owed_reply(self, id: PendingOpId) -> u64 {
        if self.live(id) {
            self.op(id).reply_slot
        } else {
            0
        }
    }

    /// The table with the reply of `id` handed over.
    pub open spec fn reply_taken(self, id: PendingOpId) -> PoolView {
        if self.live(id) {
            self.with_op(id, PendingOp { reply_slot: 0, ..self.op(id) })
        } else {
            self
        }
    }

    /// The table with the operation of `id` moved from one state to another, if it is in
    /// the first.
    pub open spec fn moved(self, id: PendingOpId, from: OpState, to: OpState) -> PoolView {
        if self.live(id) && self.op(id).state == from {
            self.with_op(id, PendingOp { state: to, ..self.op(id) })
        } else {
            self
        }
    }
}

impl View for OwnerPool {
    type V = PoolView;

    closed spec fn view(&self) -> PoolView {
        PoolView {
            ops: self.slots@,
            hint: self.next_alloc_hint,
            payloads: self.payloads@.map_values(|p: Payload| p@),
            in_use: self.payload_in_use@,
            payload_hint: self.next_payload_hint,
        }
    }
}

/// Sizes of the table's parts and range of its hints.
pub open spec fn pool_wf(p: PoolView) -> bool {
    &&& p.ops.len() == MAX_PENDING_OPS
    &&& p.payloads.len() == MAX_PAYLOAD_BUFS
    &&& p.in_use.len() == MAX_PAYLOAD_BUFS
    &&& p.hint < MAX_PENDING_OPS
    &&& p.payload_hint < MAX_PAYLOAD_BUFS
}

/// `i` is the first slot at or after the hint, going round, that satisfies `p`.
pub open spec fn first_from(hint: int, i: int, cap: int, p: spec_fn(int) -> bool) -> bool {
    &&& 0 <= i < cap
    &&& p(i)
    &&& forall|k: int|
        0 <= k < steps_between(hint, i, cap) ==> !p(#[trigger] step_to(hint, k, cap))
}

/// An operation that counts as active: neither free nor cancelled.
pub open spec fn active(op: PendingOp) -> bool {
    op.state != OpState::Free && op.state != OpState::Cancelled
}

/// How many of the first `n` operations are active and belong to `badge`.
pub open spec fn active_count(ops: Seq<PendingOp>, badge: u64, n: int) -> nat
    decreases n,
{
    if n <= 0 {
        0
    } else {
        active_count(ops, badge, n - 1) + (if active(ops[n - 1]) && ops[n - 1].badge == badge {
            1nat
        } else {
            0nat
        })
    }
}

/// Identifiers of the active operations of one kind among the first `n`, in slot order.
pub open spec fn active_ids(ops: Seq<PendingOp>, kind: PendingOpKind, n: int) -> Seq<PendingOpId>
    decreases n,
{
    if n <= 0 {
        Seq::empty()
    } else if active(ops[n - 1]) && ops[n - 1].kind == kind {
        active_ids(ops, kind, n - 1).push(
            PendingOpId(id_word((n - 1) as u32, ops[n - 1].generation)),
        )
    } else {
        active_ids(ops, kind, n - 1)
    }
}

/// The table with every active operation of `badge` cancelled.
pub open spec fn badge_cancelled(p: PoolView, badge: u64, disposition: CancelDisposition) -> PoolView {
    PoolView {
        ops: p.ops.map_values(
            |op: PendingOp|
                if active(op) && op.badge == badge {
                    PendingOp { state: OpState::Cancelled, cancel_disposition: disposition, ..op }
                } else {
                    op
                },
        ),
        ..p
    }
}

/// What is to be done with the reply of a cancelled operation: drop it, or send a status.
#[derive(Clone, Copy, PartialEq, Eq, Structural, Debug)]
pub enum ReplyAction {
    Release { reply_slot: u64 },
    Send { reply_slot: u64, label: Status },
}

/// The action that a cancelled operation's disposition asks for.
pub open spec fn cancel_action(reply_slot: u64, disposition: CancelDisposition) -> ReplyAction {
    match disposition {
        CancelDisposition::Cancelled => ReplyAction::Send { reply_slot, label: Status::Cancelled },
        CancelDisposition::ServerDied => ReplyAction::Send { reply_slot, label: Status::ServerDied },
        CancelDisposition::Drop => ReplyAction::Release { reply_slot },
    }
}

/// Actions for the cancelled operations among the first `n` that owe a reply.
pub open spec fn cancel_actions(ops: Seq<PendingOp>, n: int) -> Seq<ReplyAction>
    decreases n,
{
    if n <= 0 {
        Seq::empty()
    } else if ops[n - 1].state == OpState::Cancelled && ops[n - 1].reply_slot != 0 {
        cancel_actions(ops, n - 1).push(
            cancel_action(ops[n - 1].reply_slot, ops[n - 1].cancel_disposition),
        )
    } else {
        cancel_actions(ops, n - 1)
    }
}

/// The table after the cancelled operations among the first `n` slots have ended.
pub open spec fn drained(p: PoolView, n: int) -> PoolView
    decreases n,
{
    if n <= 0 {
        p
    } else {
        let q = drained(p, n - 1);
        let op = q.ops[n - 1];
        if op.state == OpState::Cancelled {
            let t = q.payload_released(op.payload_ref).payload_released(op.args_payload_ref);
            PoolView { ops: t.ops.update(n - 1, ended_op(op)), ..t }
        } else {
            q
        }
    }
}

/// What happens to a cancelled operation's reply.
pub fn apply_cancel_reply(reply_slot: u64, disposition: CancelDisposition) -> (r: Option<
    ReplyAction,
>)
    ensures
        r == (if reply_slot == 0 {
            None
        } else {
            Some(cancel_action(reply_slot, disposition))
        }),
{
    if reply_slot == 0 {
        return None;
    }
    match disposition {
        CancelDisposition::Cancelled => Some(
            ReplyAction::Send { reply_slot, label: Status::Cancelled },
        ),
        CancelDisposition::ServerDied => Some(
            ReplyAction::Send { reply_slot, label: Status::ServerDied },
        ),
        CancelDisposition::Drop => Some(ReplyAction::Release { reply_slot }),
    }
}

fn blank_op() -> (r: PendingOp)
    ensures
        r == initial_op(),
{
    let scratch: [u64; 8] = [0u64; 8];
    assert(scratch =~= zero_scratch());
    PendingOp {
        state: OpState::Free,
        kind: PO_KIND_NONE,
        cancel_disposition: CancelDisposition::Drop,
        generation: 0,
        reply_slot: 0,
        badge: 0,
        client_handle_raw: 0,
        stage: 0,
        payload_ref: INVALID_PAYLOAD_REF,
        args_payload_ref: INVALID_PAYLOAD_REF,
        scratch,
    }
}

impl OwnerPool {
    /// An empty table.
    pub fn new() -> (r: OwnerPool)
        ensures
            pool_wf(r@),
            r@ == (PoolView {
                ops: Seq::new(MAX_PENDING_OPS as nat, |i: int| initial_op()),
                hint: 0,
                payloads: Seq::new(MAX_PAYLOAD_BUFS as nat, |i: int| PayloadView::Empty),
                in_use: Seq::new(MAX_PAYLOAD_BUFS as nat, |i: int| false),
                payload_hint: 0,
            }),
    {
        let mut slots: Vec<PendingOp> = Vec::new();
        let mut i: usize = 0;
        while i < MAX_PENDING_OPS
            invariant
                i <= MAX_PENDING_OPS,
                slots@.len() == i,
                forall|j: int| 0 <= j < i ==> slots@[j] == initial_op(),
            decreases MAX_PENDING_OPS - i,
        {
            slots.push(blank_op());
            i = i + 1;
        }
        let mut payloads: Vec<Payload> = Vec::new();
        let mut payload_in_use: Vec<bool> = Vec::new();
        let mut j: usize = 0;
        while j < MAX_PAYLOAD_BUFS
            invariant
                j <= MAX_PAYLOAD_BUFS,
                payloads@.len() == j,
                payload_in_use@.len() == j,
                forall|k: int| 0 <= k < j ==> payloads@[k]@ == PayloadView::Empty,
                forall|k: int| 0 <= k < j ==> payload_in_use@[k] == false,
            decreases MAX_PAYLOAD_BUFS - j,
        {
            payloads.push(Payload::Empty);
            payload_in_use.push(false);
            j = j + 1;
        }
        OwnerPool { slots, next_alloc_hint: 0, payloads, payload_in_use, next_payload_hint: 0 }
    }

    /// Takes the first free slot, going round from the hint, for a new operation. `None`
    /// when every slot is taken.
    pub fn allocate(&mut self, kind: PendingOpKind, badge: u64, client: Handle, reply_slot: u64) -> (r:
        Option<PendingOpId>)
        requires
            pool_wf(old(self)@),
        ensures
            pool_wf(final(self)@),
            match r {
                Some(id) => {
                    let i = id.slot_of();
                    &&& first_from(
                        old(self)@.hint as int,
                        i,
                        MAX_PENDING_OPS as int,
                        |k: int| old(self)@.ops[k].state == OpState::Free,
                    )
                    &&& id.0 == id_word(i as u32, next_generation(old(self)@.ops[i].generation))
                    &&& final(self)@ == (PoolView {
                        hint: ((i + 1) % MAX_PENDING_OPS as int) as u32,
                        ..old(self)@.with_op(
                            id,
                            started_op(old(self)@.ops[i], kind, badge, client, reply_slot),
                        )
                    })
                    &&& final(self)@.live(id)
                },
                None => {
                    &&& forall|i: int|
                        0 <= i < MAX_PENDING_OPS ==> (#[trigger] old(self)@.ops[i]).state
                            != OpState::Free
                    &&& final(self)@ == old(self)@
                },
            },
    {
        let start: usize = self.next_alloc_hint as usize;
        let mut idx: usize = start;
        let mut step: usize = 0;
        while step < MAX_PENDING_OPS
            invariant
                *self == *old(self),
                pool_wf(self@),
                start == self@.hint,
                step <= MAX_PENDING_OPS,
                step < MAX_PENDING_OPS ==> idx == step_to(
                    start as int,
                    step as int,
                    MAX_PENDING_OPS as int,
                ),
                forall|k: int|
                    0 <= k < step ==> self@.ops[#[trigger] step_to(
                        start as int,
                        k,
                        MAX_PENDING_OPS as int,
                    )].state != OpState::Free,
            decreases MAX_PENDING_OPS - step,
        {
            let op: PendingOp = self.slots[idx];
            if op.state == OpState::Free {
                let generation: u32 = if op.generation == u32::MAX {
                    1
                } else {
                    op.generation + 1
                };
                let fresh_op: PendingOp = blank_op();
                let id: PendingOpId = PendingOpId::pack(idx as u32, generation);
                self.slots.set(
                    idx,
                    PendingOp {
                        state: OpState::Queued,
                        kind,
                        cancel_disposition: CancelDisposition::Drop,
                        generation,
                        reply_slot,
                        badge,
                        client_handle_raw: pack_client_handle(client),
                        stage: 0,
                        payload_ref: INVALID_PAYLOAD_REF,
                        args_payload_ref: INVALID_PAYLOAD_REF,
                        scratch: fresh_op.scratch,
                    },
                );
                self.next_alloc_hint = ((idx + 1) % MAX_PENDING_OPS) as u32;
                proof {
                    law_op_id_round_trip(idx as u32, generation, id);
                    assert(steps_between(start as int, idx as int, MAX_PENDING_OPS as int) == step);
                }
                return Some(id);
            }
            idx = if idx + 1 == MAX_PENDING_OPS {
                0
            } else {
                idx + 1
            };
            step = step + 1;
        }
        proof {
            assert forall|i: int| 0 <= i < MAX_PENDING_OPS implies (#[trigger] old(self)@.ops[i]).state
                != OpState::Free by {
                let d = steps_between(start as int, i, MAX_PENDING_OPS as int);
                assert(step_to(start as int, d, MAX_PENDING_OPS as int) == i);
            }
        }
        None
    }

    /// Ends the operation that `id` names and gives its payload buffers back. The reply
    /// that it owes must have been taken before.
    pub fn free(&mut self, id: PendingOpId)
        requires
            pool_wf(old(self)@),
        ensures
            pool_wf(final(self)@),
            final(self)@ == old(self)@.freed(id),
    {
        if id.is_none() {
            return;
        }
        let idx: usize = id.slot() as usize;
        if idx >= MAX_PENDING_OPS {
            return;
        }
        let op: PendingOp = self.slots[idx];
        if op.generation != id.generation() {
            return;
        }
        self.release_payload(op.payload_ref);
        self.release_payload(op.args_payload_ref);
        let ended: PendingOp = blank_op();
        self.slots.set(
            idx,
            PendingOp {
                state: OpState::Free,
                kind: PO_KIND_NONE,
                cancel_disposition: op.cancel_disposition,
                generation: op.generation,
                reply_slot: 0,
                badge: 0,
                client_handle_raw: 0,
                stage: 0,
                payload_ref: INVALID_PAYLOAD_REF,
                args_payload_ref: INVALID_PAYLOAD_REF,
                scratch: ended.scratch,
            },
        );
        assert(self@ =~= old(self)@.freed(id));
    }

    /// The operation that `id` names, unless it has ended.
    pub fn get(&self, id: PendingOpId) -> (r: Option<PendingOp>)
        requires
            pool_wf(self@),
        ensures
            r == (if self@.live(id) {
                Some(self@.op(id))
            } else {
                None
            }),
    {
        if id.is_none() {
            return None;
        }
        let idx: usize = id.slot() as usize;
        if idx >= MAX_PENDING_OPS {
            return None;
        }
        let op: PendingOp = self.slots[idx];
        if op.state == OpState::Free || op.generation != id.generation() {
            return None;
        }
        Some(op)
    }

    /// Mutable access to the operation that `id` names, unless it has ended.
    pub fn get_mut(&mut self, id: PendingOpId) -> (r: Option<&mut PendingOp>)
        requires
            pool_wf(old(self)@),
        ensures
            pool_wf(final(self)@),
            match r {
                Some(op) => {
                    &&& old(self)@.live(id)
                    &&& *op == old(self)@.op(id)
                    &&& final(self)@ == old(self)@.with_op(id, *final(op))
                },
                None => !old(self)@.live(id) && final(self)@ == old(self)@,
            },
    {
        if self.get(id).is_none() {
            return None;
        }
        let idx: usize = id.slot() as usize;
        Some(&mut self.slots[idx])
    }

    /// Hands over the reply that the operation owes; zero when it owes none.
    pub fn take_reply_slot(&mut self, id: PendingOpId) -> (r: u64)
        requires
            pool_wf(old(self)@),
        ensures
            pool_wf(final(self)@),
            r == old(self)@.owed_reply(id),
            final(self)@ == old(self)@.reply_taken(id),
    {
        match self.get_mut(id) {
            Some(op) => {
                let slot: u64 = op.reply_slot;
                op.reply_slot = 0;
                slot
            },
            None => 0,
        }
    }

    /// Hands over the reply that the operation owes and ends the operation.
    pub fn take_reply_and_free(&mut self, id: PendingOpId) -> (r: u64)
        requires
            pool_wf(old(self)@),
        ensures
            pool_wf(final(self)@),
            r == old(self)@.owed_reply(id),
            final(self)@ == old(self)@.freed(id),
    {
        let slot: u64 = self.take_reply_slot(id);
        self.free(id);
        assert(self@ =~= old(self)@.freed(id));
        slot
    }

    /// The active operations of one kind, in slot order.
    pub fn for_each_active_kind(&self, kind: PendingOpKind) -> (r: Vec<PendingOpId>)
        requires
            pool_wf(self@),
        ensures
            r@ == active_ids(self@.ops, kind, MAX_PENDING_OPS as int),
    {
        let mut out: Vec<PendingOpId> = Vec::new();
        let mut i: usize = 0;
        while i < MAX_PENDING_OPS
            invariant
                pool_wf(self@),
                i <= MAX_PENDING_OPS,
                out@ == active_ids(self@.ops, kind, i as int),
            decreases MAX_PENDING_OPS - i,
        {
            let op: PendingOp = self.slots[i];
            if op.state != OpState::Free && op.state != OpState::Cancelled && op.kind == kind {
                out.push(PendingOpId::pack(i as u32, op.generation));
            }
            i = i + 1;
        }
        out
    }

    fn advance(&mut self, id: PendingOpId, from: OpState, to: OpState) -> (r: bool)
        requires
            pool_wf(old(self)@),
        ensures
            pool_wf(final(self)@),
            r == (old(self)@.live(id) && old(self)@.op(id).state == from),
            final(self)@ == old(self)@.moved(id, from, to),
    {
        match self.get_mut(id) {
            Some(op) => {
                if op.state == from {
                    op.state = to;
                    true
                } else {
                    proof {
                        assert(old(self)@.with_op(id, *op) =~= old(self)@);
                    }
                    false
                }
            },
            None => false,
        }
    }

    /// A worker picks the operation up. Fails when it was cancelled or has ended.
    pub fn mark_running(&mut self, id: PendingOpId) -> (r: bool)
        requires
            pool_wf(old(self)@),
        ensures
            pool_wf(final(self)@),
            r == (old(self)@.live(id) && old(self)@.op(id).state == OpState::Queued),
            final(self)@ == old(self)@.moved(id, OpState::Queued, OpState::Running),
    {
        self.advance(id, OpState::Queued, OpState::Running)
    }

    /// A worker has the answer. Fails when the operation was cancelled meanwhile; the
    /// answer is then dropped.
    pub fn try_complete(&mut self, id: PendingOpId) -> (r: bool)
        requires
            pool_wf(old(self)@),
        ensures
            pool_wf(final(self)@),
            r == (old(self)@.live(id) && old(self)@.op(id).state == OpState::Running),
            final(self)@ == old(self)@.moved(id, OpState::Running, OpState::Completing),
    {
        self.advance(id, OpState::Running, OpState::Completing)
    }

    /// The operation goes on to another call. Fails when it was cancelled meanwhile.
    pub fn requeue(&mut self, id: PendingOpId) -> (r: bool)
        requires
            pool_wf(old(self)@),
        ensures
            pool_wf(final(self)@),
            r == (old(self)@.live(id) && old(self)@.op(id).state == OpState::Completing),
            final(self)@ == old(self)@.moved(id, OpState::Completing, OpState::Queued),
    {
        self.advance(id, OpState::Completing, OpState::Queued)
    }

    /// Cancels every active operation of `badge` and counts them.
    pub fn cancel_for_badge(&mut self, badge: u64, disposition: CancelDisposition) -> (r: usize)
        requires
            pool_wf(old(self)@),
        ensures
            pool_wf(final(self)@),
            r == active_count(old(self)@.ops, badge, MAX_PENDING_OPS as int),
            final(self)@ == badge_cancelled(old(self)@, badge, disposition),
    {
        let mut count: usize = 0;
        let mut i: usize = 0;
        let ghost f = |op: PendingOp|
            if active(op) && op.badge == badge {
                PendingOp { state: OpState::Cancelled, cancel_disposition: disposition, ..op }
            } else {
                op
            };
        while i < MAX_PENDING_OPS
            invariant
                pool_wf(self@),
                pool_wf(old(self)@),
                i <= MAX_PENDING_OPS,
                count <= i,
                count == active_count(old(self)@.ops, badge, i as int),
                f == (|op: PendingOp|
                    if active(op) && op.badge == badge {
                        PendingOp { state: OpState::Cancelled, cancel_disposition: disposition, ..op }
                    } else {
                        op
                    }),
                self@.hint == old(self)@.hint,
                self@.payloads == old(self)@.payloads,
                self@.in_use == old(self)@.in_use,
                self@.payload_hint == old(self)@.payload_hint,
                forall|k: int| 0 <= k < i ==> #[trigger] self@.ops[k] == f(old(self)@.ops[k]),
                forall|k: int|
                    i <= k < MAX_PENDING_OPS ==> #[trigger] self@.ops[k] == old(self)@.ops[k],
            decreases MAX_PENDING_OPS - i,
        {
            let mut op: PendingOp = self.slots[i];
            if op.state != OpState::Free && op.state != OpState::Cancelled && op.badge == badge {
                op.cancel_disposition = disposition;
                op.state = OpState::Cancelled;
                self.slots.set(i, op);
                count = count + 1;
            }
            i = i + 1;
        }
        assert(self@.ops =~= old(self)@.ops.map_values(f));
        count
    }

    /// Ends every cancelled operation. The result says, in slot order, what to do with
    /// the replies that they owe.
    pub fn drain_cancelled(&mut self) -> (r: Vec<ReplyAction>)
        requires
            pool_wf(old(self)@),
        ensures
            pool_wf(final(self)@),
            r@ == cancel_actions(old(self)@.ops, MAX_PENDING_OPS as int),
            final(self)@ == drained(old(self)@, MAX_PENDING_OPS as int),
    {
        let mut out: Vec<ReplyAction> = Vec::new();
        let mut i: usize = 0;
        while i < MAX_PENDING_OPS
            invariant
                pool_wf(self@),
                pool_wf(old(self)@),
                i <= MAX_PENDING_OPS,
                out@ == cancel_actions(old(self)@.ops, i as int),
                self@ == drained(old(self)@, i as int),
                forall|k: int|
                    i <= k < MAX_PENDING_OPS ==> #[trigger] self@.ops[k] == old(self)@.ops[k],
            decreases MAX_PENDING_OPS - i,
        {
            let op: PendingOp = self.slots[i];
            let ghost before = self@;
            if op.state == OpState::Cancelled {
                match apply_cancel_reply(op.reply_slot, op.cancel_disposition) {
                    Some(action) => {
                        out.push(action);
                    },
                    None => {},
                }
                self.release_payload(op.payload_ref);
                self.release_payload(op.args_payload_ref);
                let ended: PendingOp = blank_op();
                self.slots.set(
                    i,
                    PendingOp {
                        state: OpState::Free,
                        kind: PO_KIND_NONE,
                        cancel_disposition: op.cancel_disposition,
                        generation: op.generation,
                        reply_slot: 0,
                        badge: 0,
                        client_handle_raw: 0,
                        stage: 0,
                        payload_ref: INVALID_PAYLOAD_REF,
                        args_payload_ref: INVALID_PAYLOAD_REF,
                        scratch: ended.scratch,
                    },
                );
                assert(self@ =~= drained(old(self)@, i + 1));
            }
            i = i + 1;
        }
        out
    }

    /// Takes the first free payload buffer, going round from the hint, and empties it.
    pub fn alloc_payload(&mut self) -> (r: Option<u32>)
        requires
            pool_wf(old(self)@),
        ensures
            pool_wf(final(self)@),
            match r {
                Some(i) => {
                    &&& first_from(
                        old(self)@.payload_hint as int,
                        i as int,
                        MAX_PAYLOAD_BUFS as int,
                        |k: int| !old(self)@.in_use[k],
                    )
                    &&& final(self)@ == (PoolView {
                        in_use: old(self)@.in_use.update(i as int, true),
                        payloads: old(self)@.payloads.update(i as int, PayloadView::Empty),
                        payload_hint: ((i + 1) % MAX_PAYLOAD_BUFS as int) as u32,
                        ..old(self)@
                    })
                },
                None => {
                    &&& forall|i: int|
                        0 <= i < MAX_PAYLOAD_BUFS ==> #[trigger] old(self)@.in_use[i]
                    &&& final(self)@ == old(self)@
                },
            },
    {
        let start: usize = self.next_payload_hint as usize;
        let mut idx: usize = start;
        let mut step: usize = 0;
        while step < MAX_PAYLOAD_BUFS
            invariant
                *self == *old(self),
                pool_wf(self@),
                start == self@.payload_hint,
                step <= MAX_PAYLOAD_BUFS,
                step < MAX_PAYLOAD_BUFS ==> idx == step_to(
                    start as int,
                    step as int,
                    MAX_PAYLOAD_BUFS as int,
                ),
                forall|k: int|
                    0 <= k < step ==> self@.in_use[#[trigger] step_to(
                        start as int,
                        k,
                        MAX_PAYLOAD_BUFS as int,
                    )],
            decreases MAX_PAYLOAD_BUFS - step,
        {
            if !self.payload_in_use[idx] {
                self.payload_in_use.set(idx, true);
                self.payloads.set(idx, Payload::Empty);
                self.next_payload_hint = ((idx + 1) % MAX_PAYLOAD_BUFS) as u32;
                proof {
                    assert(self@.payloads =~= old(self)@.payloads.update(
                        idx as int,
                        PayloadView::Empty,
                    ));
                    assert(steps_between(start as int, idx as int, MAX_PAYLOAD_BUFS as int) == step);
                }
                return Some(idx as u32);
            }
            idx = if idx + 1 == MAX_PAYLOAD_BUFS {
                0
            } else {
                idx + 1
            };
            step = step + 1;
        }
        proof {
            assert forall|i: int| 0 <= i < MAX_PAYLOAD_BUFS implies #[trigger] old(self)@.in_use[i] by {
                let d = steps_between(start as int, i, MAX_PAYLOAD_BUFS as int);
                assert(step_to(start as int, d, MAX_PAYLOAD_BUFS as int) == i);
            }
        }
        None
    }

    /// Gives a payload buffer back. References that name no buffer are ignored.
    pub fn release_payload(&mut self, payload_ref: u32)
        requires
            pool_wf(old(self)@),
        ensures
            pool_wf(final(self)@),
            final(self)@ == old(self)@.payload_released(payload_ref),
    {
        let idx: usize = payload_ref as usize;
        if idx >= MAX_PAYLOAD_BUFS {
            return;
        }
        self.payload_in_use.set(idx, false);
    }

    /// What a payload buffer holds; `None` when the reference names no buffer.
    pub fn payload_bytes(&self, payload_ref: u32) -> (r: Option<&Payload>)
        requires
            pool_wf(self@),
        ensures
            match r {
                Some(p) => payload_ref < MAX_PAYLOAD_BUFS && p@ == self@.payloads[payload_ref as int],
                None => payload_ref >= MAX_PAYLOAD_BUFS,
            },
    {
        let idx: usize = payload_ref as usize;
        if idx >= MAX_PAYLOAD_BUFS {
            return None;
        }
        Some(&self.payloads[idx])
    }

    /// Stores a payload; `false` when the reference names no buffer.
    pub fn set_payload(&mut self, payload_ref: u32, payload: Payload) -> (r: bool)
        requires
            pool_wf(old(self)@),
        ensures
            pool_wf(final(self)@),
            r == (payload_ref < MAX_PAYLOAD_BUFS),
            final(self)@ == (if r {
                old(self)@.with_payload(payload_ref, payload@)
            } else {
                old(self)@
            }),
    {
        let idx: usize = payload_ref as usize;
        if idx >= MAX_PAYLOAD_BUFS {
            return false;
        }
        self.payloads.set(idx, payload);
        assert(self@.payloads =~= old(self)@.payloads.update(idx as int, payload@));
        true
    }
}

/// The operation that each worker is busy with; zero when it is idle.
pub struct WorkerInflight {
    pub slots: [u64; 4],
}

/// Notes that worker `idx` enters a call for `op_id`.
pub fn worker_enter(inflight: &mut WorkerInflight, idx: usize, op_id: PendingOpId)
    ensures
        final(inflight).slots@ == (if idx < MAX_WORKERS {
            old(inflight).slots@.update(idx as int, op_id.0)
        } else {
            old(inflight).slots@
        }),
{
    if idx >= MAX_WORKERS {
        return;
    }
    inflight.slots[idx] = op_id.raw();
}

/// Notes that worker `idx` is idle.
pub fn worker_leave(inflight: &mut WorkerInflight, idx: usize)
    ensures
        final(inflight).slots@ == (if idx < MAX_WORKERS {
            old(inflight).slots@.update(idx as int, 0)
        } else {
            old(inflight).slots@
        }),
{
    if idx >= MAX_WORKERS {
        return;
    }
    inflight.slots[idx] = 0;
}

/// An identifier stays dead once its operation has ended, also when the slot is taken
/// again, and ending it twice changes nothing more.
pub proof fn law_ended_op_is_stale(
    p: PoolView,
    id: PendingOpId,
    kind: PendingOpKind,
    badge: u64,
    client: Handle,
    reply: u64,
)
    requires
        pool_wf(p),
        p.live(id),
    ensures
        !p.freed(id).live(id),
        p.freed(id).freed(id) == p.freed(id),
        p.freed(id).owed_reply(id) == 0,
        !p.freed(id).with_op(id, started_op(p.freed(id).op(id), kind, badge, client, reply)).live(
            id,
        ),
        p.freed(id).with_op(id, started_op(p.freed(id).op(id), kind, badge, client, reply)).freed(
            id,
        ) == p.freed(id).with_op(id, started_op(p.freed(id).op(id), kind, badge, client, reply)),
{
    assert(p.freed(id).freed(id) =~= p.freed(id));
}

/// Ending one operation leaves every other operation as it was.
pub proof fn law_free_leaves_others(p: PoolView, id: PendingOpId, other: PendingOpId)
    requires
        pool_wf(p),
        p.live(other),
        other.slot_of() != id.slot_of(),
    ensures
        p.freed(id).live(other),
        p.freed(id).op(other) == p.op(other),
{
}

/// A cancelled operation can neither be picked up, nor completed, nor queued again: its
/// caller hears only what the cancellation says.
pub proof fn law_cancelled_op_never_completes(p: PoolView, id: PendingOpId)
    requires
        p.live(id),
        p.op(id).state == OpState::Cancelled,
    ensures
        p.moved(id, OpState::Queued, OpState::Running) == p,
        p.moved(id, OpState::Running, OpState::Completing) == p,
        p.moved(id, OpState::Completing, OpState::Queued) == p,
{
}

/// An operation goes queued, running, completing and can be queued again from there.
pub proof fn law_op_life_cycle(p: PoolView, id: PendingOpId)
    requires
        pool_wf(p),
        p.live(id),
        p.op(id).state == OpState::Queued,
    ensures
        ({
            let a = p.moved(id, OpState::Queued, OpState::Running);
            let b = a.moved(id, OpState::Running, OpState::Completing);
            let c = b.moved(id, OpState::Completing, OpState::Queued);
            &&& a.live(id) && a.op(id).state == OpState::Running
            &&& b.live(id) && b.op(id).state == OpState::Completing
            &&& c == p
        }),
{
    let a = p.moved(id, OpState::Queued, OpState::Running);
    let b = a.moved(id, OpState::Running, OpState::Completing);
    let c = b.moved(id, OpState::Completing, OpState::Queued);
    assert(c.ops =~= p.ops);
}

/// A reply is handed over once.
pub proof fn law_reply_taken_once(p: PoolView, id: PendingOpId)
    requires
        pool_wf(p),
    ensures
        p.reply_taken(id).owed_reply(id) == 0,
        p.freed(id).owed_reply(id) == 0,
{
}

/// After a drain no operation is cancelled any more, and the others are untouched.
pub proof fn law_drain_ends_cancelled(p: PoolView, n: int)
    requires
        pool_wf(p),
        0 <= n <= MAX_PENDING_OPS,
    ensures
        pool_wf(drained(p, n)),
        forall|i: int| #![trigger drained(p, n).ops[i]]
            0 <= i < n ==> drained(p, n).ops[i] == (if p.ops[i].state == OpState::Cancelled {
                ended_op(p.ops[i])
            } else {
                p.ops[i]
            }),
        forall|i: int| #![trigger drained(p, n).ops[i]]
            n <= i < MAX_PENDING_OPS ==> drained(p, n).ops[i] == p.ops[i],
    decreases n,
{
    if n > 0 {
        law_drain_ends_cancelled(p, n - 1);
    }
}

} // verus!
