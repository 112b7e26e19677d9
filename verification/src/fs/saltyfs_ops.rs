//! Operations on the disk filesystem that end when the disk server has answered.

use crate::arena::{packed, Handle};
use crate::backend_rpc::{
    table_full, BackendOpKind, Progress, RpcCore, BACKEND_OP_SALTYFS_CREATE,
    BACKEND_OP_SALTYFS_LINK, BACKEND_OP_SALTYFS_LOOKUP_CHILD, BACKEND_OP_SALTYFS_MKDIR,
    BACKEND_OP_SALTYFS_READLINK, BACKEND_OP_SALTYFS_RENAME, BACKEND_OP_SALTYFS_SETMODE,
    BACKEND_OP_SALTYFS_SETOWNER, BACKEND_OP_SALTYFS_SETTIMES, BACKEND_OP_SALTYFS_SYMLINK,
    BACKEND_OP_SALTYFS_TRUNCATE, BACKEND_OP_SALTYFS_UNLINK,
};
use crate::bootstrap::boot_child;
use crate::bytes::cut;
use crate::continuation::{done_state, init_continuation_payload_done};
use crate::files::{O_ACCMODE, O_APPEND, O_RDWR};
use crate::fs::records::SaltyfsMountData;
use crate::fs::saltyfs::{
    ensure_writable, kept_name, mount_data_for_vnode, refresh_vnode_attrs, vnode_is_saltyfs,
    with_stat,
};
use crate::fs::saltyfs_wire::{
    asks_name, asks_two_names, asks_words, call_outcome, choose_read_transfer, counted_bytes,
    entry_dtype, entry_name_len, little_word, make_request, name_request, one_word_request,
    read_counted_bytes, read_dir_entry, read_request, read_transfer, readdir_dtype,
    readdir_request, rename_request, setattr_request, setattr_words, symlink_request,
    transfer_words, write_request, AttrChange, StatSnapshot, Transfer, BACKEND_READDIR_F_EOF,
    SALTYFS_READDIR_ENTRY_BYTES,
    SALTYFS_CREATE_NAME_WIRE_MAX, SALTYFS_NAME_MAX, SALTYFS_RENAME_NAME_WIRE_MAX,
    SALTYFS_SYMLINK_NAME_WIRE_MAX, SALTYFS_TARGET_INLINE_MAX, SETATTR_MASK_ATIME,
    SETATTR_MASK_GID, SETATTR_MASK_MODE, SETATTR_MASK_MTIME, SETATTR_MASK_SIZE, SETATTR_MASK_UID,
};
use crate::namei_state::{namei_aux_none, NameiResumeAux};
use crate::pending_ops::{
    pack_client_handle, started_op, OpState, OwnerPool, Payload, PayloadView, PendingOp,
    PendingOpId, PendingOpKind, PoolView, INVALID_PAYLOAD_REF, MAX_PAYLOAD_BUFS,
    PO_KIND_BACKEND_RPC,
};
use crate::state::{VfsModel, VfsState};
use crate::status::Status;
use crate::vnode::{Vnode, VnodeType};
use crate::wire::{
    ArgsView, DeferredChange, Opcode, Reply, Request, SaltyfsDeferredArgs, MSG_REGS,
};
use vstd::prelude::*;
use vstd::slice::slice_to_vec;

verus! {

// ---- leaving a call behind ---------------------------------------------------------

/// The table `post` is `pre` with a new operation `id` that waits for another server: its
/// walk stands at `current`, and `args` are kept for the answer.
pub open spec fn call_noted(
    pre: PoolView,
    post: PoolView,
    id: PendingOpId,
    kind: PendingOpKind,
    current: Handle,
    args: Option<ArgsView>,
) -> bool {
    let i = id.slot_of();
    let p = post.op(id).payload_ref;
    let q = post.op(id).args_payload_ref;
    &&& post.live(id)
    &&& pre.ops[i].state == OpState::Free
    &&& post.ops == pre.ops.update(
        i,
        PendingOp {
            payload_ref: p,
            args_payload_ref: q,
            ..started_op(pre.ops[i], kind, 0, Handle::invalid(), 0)
        },
    )
    &&& p < MAX_PAYLOAD_BUFS
    &&& !pre.in_use[p as int]
    &&& post.payloads[p as int] == PayloadView::Resume(done_state(current, NameiResumeAux::Nothing))
    &&& match args {
        None => q == INVALID_PAYLOAD_REF && post.in_use == pre.in_use.update(p as int, true),
        Some(a) => {
            &&& q < MAX_PAYLOAD_BUFS
            &&& !pre.in_use[q as int]
            &&& q != p
            &&& post.payloads[q as int] == PayloadView::Args(a)
            &&& post.in_use == pre.in_use.update(p as int, true).update(q as int, true)
        },
    }
    &&& forall|k: int|
        0 <= k < MAX_PAYLOAD_BUFS && pre.in_use[k] ==> #[trigger] post.payloads[k]
            == pre.payloads[k]
}

/// The table `post` holds the operations of `pre` and no other, and what they refer to.
pub open spec fn nothing_noted(pre: PoolView, post: PoolView) -> bool {
    &&& post.in_use == pre.in_use
    &&& post.ops.len() == pre.ops.len()
    &&& forall|i: int|
        0 <= i < pre.ops.len() && pre.ops[i].state != OpState::Free ==> #[trigger] post.ops[i]
            == pre.ops[i]
    &&& forall|i: int|
        0 <= i < pre.ops.len() && pre.ops[i].state == OpState::Free ==> (#[trigger] post.ops[i]).state
            == OpState::Free
    &&& forall|k: int|
        0 <= k < MAX_PAYLOAD_BUFS && pre.in_use[k] ==> #[trigger] post.payloads[k]
            == pre.payloads[k]
}

/// `n` payload buffers are free, for `n` up to two.
pub open spec fn buffers_free(p: PoolView, two: bool) -> bool {
    exists|i: int, j: int|
        0 <= i < MAX_PAYLOAD_BUFS && 0 <= j < MAX_PAYLOAD_BUFS && !(#[trigger] p.in_use[i])
            && !(#[trigger] p.in_use[j]) && (two ==> i != j)
}

/// A call can be left behind.
pub open spec fn call_fits(c: &RpcCore, with_args: bool) -> bool {
    c.accepts() && !table_full(c.pool@) && buffers_free(c.pool@, with_args)
}

/// Six words of which the first two are set.
pub open spec fn two_words(a: u64, b: u64) -> Seq<u64> {
    seq![a, b, 0, 0, 0, 0]
}

/// A job of operation `op` was queued, for `worker`.
pub open spec fn job_queued(
    pre: &RpcCore,
    post: &RpcCore,
    op: PendingOpId,
    worker: usize,
    kind: BackendOpKind,
    cap: u64,
    data: Seq<u64>,
) -> bool {
    let job = post.jobs@.last();
    &&& worker == pre.workers.turn()
    &&& RpcCore::enqueued(pre, post, job)
    &&& job.target_ep == cap
    &&& job.op_kind == kind
    &&& job.payload_out_bytes == 0
    &&& job.op_id == op.0
    &&& job.ctx.badge == 0
    &&& job.ctx.client_handle_raw == 0
    &&& job.ctx.stage == 0
    &&& job.ctx.data@ == data
}

/// A call was left behind: operation `op` waits for it and `worker` makes it.
pub open spec fn disk_call(
    pre: &RpcCore,
    post: &RpcCore,
    op: PendingOpId,
    worker: usize,
    kind: BackendOpKind,
    cap: u64,
    data: Seq<u64>,
    current: Handle,
    args: Option<ArgsView>,
) -> bool {
    &&& job_queued(pre, post, op, worker, kind, cap, data)
    &&& call_noted(pre.pool@, post.pool@, op, PO_KIND_BACKEND_RPC, current, args)
}

/// No call was left behind.
pub open spec fn no_disk_call(pre: &RpcCore, post: &RpcCore) -> bool {
    RpcCore::queue_unchanged(pre, post) && nothing_noted(pre.pool@, post.pool@)
}

/// What is kept for the answer, as a value.
pub open spec fn args_view(args: Option<SaltyfsDeferredArgs>) -> Option<ArgsView> {
    match args {
        Some(a) => Some(a@),
        None => None,
    }
}

/// Puts an operation into the table that waits for another server.
pub(crate) fn note_call(
    pool: &mut OwnerPool,
    kind: PendingOpKind,
    current: Handle,
    args: Option<SaltyfsDeferredArgs>,
) -> (r: Option<PendingOpId>)
    requires
        crate::pending_ops::pool_wf(old(pool)@),
    ensures
        crate::pending_ops::pool_wf(final(pool)@),
        match r {
            Some(id) => call_noted(
                old(pool)@,
                final(pool)@,
                id,
                kind,
                current,
                args_view(args),
            ),
            None => nothing_noted(old(pool)@, final(pool)@),
        },
        r is Some <==> !table_full(old(pool)@) && buffers_free(old(pool)@, args is Some),
{
    let id: PendingOpId = match pool.allocate(kind, 0, Handle::invalid(), 0) {
        Some(id) => id,
        None => {
            return None;
        },
    };
    let ghost started = pool@;
    if !init_continuation_payload_done(pool, id, current, namei_aux_none()) {
        pool.free(id);
        return None;
    }
    let ghost mid = pool@;
    match args {
        None => {
            proof {
                let p = mid.op(id).payload_ref as int;
                assert(!old(pool)@.in_use[p]);
                assert(mid.ops =~= old(pool)@.ops.update(id.slot_of(), mid.op(id)));
            }
            Some(id)
        },
        Some(a) => {
            let q: u32 = match pool.alloc_payload() {
                Some(q) => q,
                None => {
                    pool.free(id);
                    assert(pool@.in_use =~= old(pool)@.in_use);
                    return None;
                },
            };
            let _ = pool.set_payload(q, Payload::Args(a));
            let ghost stored = pool@;
            match pool.get_mut(id) {
                Some(op) => {
                    op.args_payload_ref = q;
                },
                None => {},
            }
            proof {
                let p = mid.op(id).payload_ref as int;
                assert(!old(pool)@.in_use[p]);
                assert(!old(pool)@.in_use[q as int]);
                assert(pool@.ops =~= old(pool)@.ops.update(id.slot_of(), pool@.op(id)));
            }
            Some(id)
        },
    }
}

/// Leaves a call to the disk server behind. Without room for it, or without a worker, it is
/// `OutOfMemory` and nothing stays behind.
pub fn enqueue_saltyfs_request(
    rpc: &mut RpcCore,
    backend_op: BackendOpKind,
    cap: u64,
    request: Request,
    a: u64,
    b: u64,
    current: Handle,
    args: Option<SaltyfsDeferredArgs>,
) -> (r: Result<(PendingOpId, usize), Status>)
    requires
        old(rpc).wf(),
    ensures
        final(rpc).wf(),
        match r {
            Ok((op, worker)) => {
                &&& disk_call(
                    old(rpc),
                    final(rpc),
                    op,
                    worker,
                    backend_op,
                    cap,
                    two_words(a, b),
                    current,
                    args_view(args),
                )
                &&& final(rpc).jobs@.last().request == request
            },
            Err(e) => e == Status::OutOfMemory && no_disk_call(old(rpc), final(rpc)),
        },
        r is Ok <==> call_fits(old(rpc), args is Some),
{
    let ghost view = args_view(args);
    let id: PendingOpId = match note_call(&mut rpc.pool, PO_KIND_BACKEND_RPC, current, args) {
        Some(id) => id,
        None => {
            return Err(Status::OutOfMemory);
        },
    };
    let ghost noted = rpc.pool@;
    let data: [u64; 6] = [a, b, 0, 0, 0, 0];
    assert(data@ =~= two_words(a, b));
    match rpc.enqueue_saltyfs_op(id, backend_op, cap, request, data) {
        Some(worker) => Ok((id, worker)),
        None => {
            rpc.pool.free(id);
            proof {
                lemma_noted_and_freed(old(rpc).pool@, noted, id, PO_KIND_BACKEND_RPC, current, view);
            }
            Err(Status::OutOfMemory)
        },
    }
}

pub(crate) proof fn lemma_noted_and_freed(
    pre: PoolView,
    mid: PoolView,
    id: PendingOpId,
    kind: PendingOpKind,
    current: Handle,
    args: Option<ArgsView>,
)
    requires
        crate::pending_ops::pool_wf(pre),
        crate::pending_ops::pool_wf(mid),
        call_noted(pre, mid, id, kind, current, args),
    ensures
        nothing_noted(pre, mid.freed(id)),
{
    let post = mid.freed(id);
    assert(post.in_use =~= pre.in_use);
}

/// What an operation gives: a call left behind, or the error `e` without one.
pub open spec fn failed<T>(pre: &RpcCore, post: &RpcCore, r: Result<Progress<T>, Status>, e: Status) -> bool {
    r matches Err(x) && x == e && RpcCore::queue_unchanged(pre, post) && post.pool@ == pre.pool@
}

/// What an operation gives that leaves a call behind where one fits: `asked` says of the
/// request that it is the right one.
pub open spec fn deferred<T>(
    pre: &RpcCore,
    post: &RpcCore,
    r: Result<Progress<T>, Status>,
    kind: BackendOpKind,
    cap: u64,
    data: Seq<u64>,
    current: Handle,
    args: Option<ArgsView>,
    asked: spec_fn(Request) -> bool,
) -> bool {
    match r {
        Ok(Progress::Deferred { op, worker }) => {
            &&& call_fits(pre, args is Some)
            &&& disk_call(pre, post, op, worker, kind, cap, data, current, args)
            &&& asked(post.jobs@.last().request)
        },
        Ok(Progress::Complete(_)) => false,
        Err(e) => {
            &&& e == Status::OutOfMemory
            &&& !call_fits(pre, args is Some)
            &&& no_disk_call(pre, post)
        },
    }
}

fn defer<T>(
    rpc: &mut RpcCore,
    backend_op: BackendOpKind,
    cap: u64,
    request: Request,
    a: u64,
    b: u64,
    current: Handle,
    args: Option<SaltyfsDeferredArgs>,
    Ghost(asked): Ghost<spec_fn(Request) -> bool>,
) -> (r: Result<Progress<T>, Status>)
    requires
        old(rpc).wf(),
        asked(request),
    ensures
        final(rpc).wf(),
        deferred(
            old(rpc),
            final(rpc),
            r,
            backend_op,
            cap,
            two_words(a, b),
            current,
            args_view(args),
            asked,
        ),
{
    match enqueue_saltyfs_request(rpc, backend_op, cap, request, a, b, current, args) {
        Ok((op, worker)) => Ok(Progress::Deferred { op, worker }),
        Err(e) => Err(e),
    }
}

// ---- looking up --------------------------------------------------------------------

/// Asks the disk server for `name` in a directory. A directory that is on no mount of the
/// disk filesystem has no such name.
pub fn lookup_child(state: &VfsState, rpc: &mut RpcCore, parent: Handle, name: &[u8]) -> (r: Result<
    Progress<Option<Handle>>,
    Status,
>)
    requires
        old(rpc).wf(),
    ensures
        final(rpc).wf(),
        match state@.vnodes.entry(parent) {
            None => failed(old(rpc), final(rpc), r, Status::NotFound),
            Some(vn) => if vn.vtype != VnodeType::Dir {
                failed(old(rpc), final(rpc), r, Status::NotDirectory)
            } else {
                match state@.salty_record(parent) {
                    None => r matches Ok(Progress::Complete(None)) && RpcCore::queue_unchanged(
                        old(rpc),
                        final(rpc),
                    ) && final(rpc).pool@ == old(rpc).pool@,
                    Some((d, _)) => deferred(
                        old(rpc),
                        final(rpc),
                        r,
                        BACKEND_OP_SALTYFS_LOOKUP_CHILD,
                        d.fs_cap,
                        two_words(packed(parent), kept_name(name@).len() as u64),
                        Handle::invalid(),
                        None,
                        asks_lookup(vn.id, kept_name(name@)),
                    ),
                }
            },
        },
{
    let (dir, ino): (bool, u64) = match state.vnodes.get(parent) {
        Some(vn) => (vn.vtype == VnodeType::Dir, vn.id),
        None => {
            return Err(Status::NotFound);
        },
    };
    if !dir {
        return Err(Status::NotDirectory);
    }
    let d: SaltyfsMountData = match mount_data_for_vnode(state, parent) {
        Some((d, _)) => d,
        None => {
            return Ok(Progress::Complete(None));
        },
    };
    let n: usize = if name.len() > SALTYFS_NAME_MAX {
        SALTYFS_NAME_MAX
    } else {
        name.len()
    };
    let kept = cut(name, 0, n);
    assert(kept@ =~= kept_name(name@));
    let request = name_request(Opcode::BackendLookup, ino, kept);
    defer(
        rpc,
        BACKEND_OP_SALTYFS_LOOKUP_CHILD,
        d.fs_cap,
        request,
        pack_client_handle(parent),
        n as u64,
        Handle::invalid(),
        None,
        Ghost(asks_lookup(ino, kept_name(name@))),
    )
}

/// A request that looks up `name` in directory `ino`.
pub open spec fn asks_lookup(ino: u64, name: Seq<u8>) -> spec_fn(Request) -> bool {
    |q: Request| asks_name(q, Opcode::BackendLookup, seq![ino, name.len() as u64], name)
}

// ---- making and removing names -----------------------------------------------------

/// Arguments without names.
pub open spec fn plain_args(op: DeferredChange) -> ArgsView {
    ArgsView {
        op,
        mode: 0,
        flags: 0,
        name_a: Seq::empty(),
        name_b: Seq::empty(),
        target: Seq::empty(),
    }
}

fn make_args(op: DeferredChange, mode: u32, flags: u32, name_a: &[u8], name_b: &[u8], target: &[u8]) -> (r:
    SaltyfsDeferredArgs)
    ensures
        r@ == (ArgsView {
            op,
            mode,
            flags,
            name_a: name_a@,
            name_b: name_b@,
            target: target@,
        }),
{
    SaltyfsDeferredArgs {
        op,
        mode,
        flags,
        name_a: slice_to_vec(name_a),
        name_b: slice_to_vec(name_b),
        target: slice_to_vec(target),
    }
}

fn no_bytes() -> (r: Vec<u8>)
    ensures
        r@ == Seq::<u8>::empty(),
{
    let v: Vec<u8> = Vec::new();
    assert(v@ =~= Seq::<u8>::empty());
    v
}

/// A name that a request can carry.
pub open spec fn name_fits(name: Seq<u8>, max: usize) -> bool {
    0 < name.len() <= max
}

impl VfsModel {
    /// Why a name cannot be made in, or removed from, directory `parent`.
    pub open spec fn disk_dir_refusal(self, parent: Handle, fits: bool) -> Option<Status> {
        if !self.on_disk(parent) || !fits {
            Some(Status::InvalidArgument)
        } else if self.disk_sealed(parent) {
            Some(Status::ReadOnly)
        } else if self.salty_record(parent) is None {
            Some(Status::InvalidArgument)
        } else {
            None
        }
    }

    /// Why a name cannot be moved.
    pub open spec fn disk_rename_refusal(
        self,
        old_parent: Handle,
        old_name: Seq<u8>,
        new_parent: Handle,
        new_name: Seq<u8>,
    ) -> Option<Status> {
        if !self.on_disk(old_parent) || !self.on_disk(new_parent) {
            Some(Status::CrossDevice)
        } else if self.disk_sealed(old_parent) || self.disk_sealed(new_parent) {
            Some(Status::ReadOnly)
        } else if self.vnodes.at(old_parent).mount.handle != self.vnodes.at(
            new_parent,
        ).mount.handle {
            Some(Status::InvalidOperation)
        } else if !name_fits(old_name, SALTYFS_RENAME_NAME_WIRE_MAX) || !name_fits(
            new_name,
            SALTYFS_RENAME_NAME_WIRE_MAX,
        ) {
            Some(Status::InvalidArgument)
        } else if self.salty_record(old_parent) is None {
            Some(Status::InvalidArgument)
        } else {
            None
        }
    }

    /// Why a node cannot be given a further name.
    pub open spec fn disk_link_refusal(self, source: Handle, parent: Handle, name: Seq<u8>) -> Option<
        Status,
    > {
        if !self.on_disk(source) || !self.on_disk(parent) {
            Some(Status::CrossDevice)
        } else if self.disk_sealed(parent) {
            Some(Status::ReadOnly)
        } else if self.vnodes.at(source).mount.handle != self.vnodes.at(parent).mount.handle {
            Some(Status::InvalidOperation)
        } else if !name_fits(name, SALTYFS_CREATE_NAME_WIRE_MAX) {
            Some(Status::InvalidArgument)
        } else if self.salty_record(source) is None {
            Some(Status::InvalidArgument)
        } else {
            None
        }
    }

    /// Why attributes of node `v` cannot be changed.
    pub open spec fn disk_attr_refusal(self, v: Handle) -> Option<Status> {
        if self.disk_sealed(v) {
            Some(Status::ReadOnly)
        } else if !self.vnodes.has(v) {
            Some(Status::NotFound)
        } else if self.salty_record(v) is None {
            Some(Status::InvalidArgument)
        } else {
            None
        }
    }

    /// The endpoint of the server of the disk that vnode `v` is on.
    pub open spec fn disk_cap(self, v: Handle) -> u64 {
        self.salty_record(v).unwrap().0.fs_cap
    }
}

fn directory_on_disk(state: &VfsState, parent: Handle, fits: bool) -> (r: Result<(u64, u64), Status>)
    ensures
        match state@.disk_dir_refusal(parent, fits) {
            Some(e) => r == Err::<(u64, u64), Status>(e),
            None => r == Ok::<(u64, u64), Status>(
                (state@.vnodes.at(parent).id, state@.disk_cap(parent)),
            ),
        },
{
    if !vnode_is_saltyfs(state, parent) || !fits {
        return Err(Status::InvalidArgument);
    }
    if let Err(e) = ensure_writable(state, parent) {
        return Err(e);
    }
    let ino: u64 = match state.vnodes.get(parent) {
        Some(vn) => vn.id,
        None => {
            return Err(Status::NotFound);
        },
    };
    match mount_data_for_vnode(state, parent) {
        Some((d, _)) => Ok((ino, d.fs_cap)),
        None => Err(Status::InvalidArgument),
    }
}

/// A request that makes `name` in directory `ino`.
pub open spec fn asks_make(op: Opcode, a: u64, b: u64, name: Seq<u8>) -> spec_fn(Request) -> bool {
    |q: Request| asks_name(q, op, seq![a, b, name.len() as u64], name)
}

/// Asks the disk server to make a directory.
pub fn mkdir_child(state: &VfsState, rpc: &mut RpcCore, parent: Handle, name: &[u8], mode: u32) -> (r:
    Result<Progress<Handle>, Status>)
    requires
        old(rpc).wf(),
    ensures
        final(rpc).wf(),
        match state@.disk_dir_refusal(parent, name_fits(name@, SALTYFS_CREATE_NAME_WIRE_MAX)) {
            Some(e) => failed(old(rpc), final(rpc), r, e),
            None => deferred(
                old(rpc),
                final(rpc),
                r,
                BACKEND_OP_SALTYFS_MKDIR,
                state@.disk_cap(parent),
                two_words(packed(parent), 0),
                Handle::invalid(),
                Some(ArgsView { mode, name_a: name@, ..plain_args(DeferredChange::Mkdir) }),
                asks_make(
                    Opcode::BackendMkdir,
                    state@.vnodes.at(parent).id,
                    mode as u64,
                    name@,
                ),
            ),
        },
{
    let fits: bool = name.len() > 0 && name.len() <= SALTYFS_CREATE_NAME_WIRE_MAX;
    let (ino, cap): (u64, u64) = match directory_on_disk(state, parent, fits) {
        Ok(p) => p,
        Err(e) => {
            return Err(e);
        },
    };
    let request = make_request(Opcode::BackendMkdir, ino, mode as u64, name);
    let e = no_bytes();
    let args = make_args(DeferredChange::Mkdir, mode, 0, name, e.as_slice(), e.as_slice());
    defer(
        rpc,
        BACKEND_OP_SALTYFS_MKDIR,
        cap,
        request,
        pack_client_handle(parent),
        0,
        Handle::invalid(),
        Some(args),
        Ghost(asks_make(Opcode::BackendMkdir, ino, mode as u64, name@)),
    )
}

/// Asks the disk server to make a file.
pub fn create_regular_child(
    state: &VfsState,
    rpc: &mut RpcCore,
    parent: Handle,
    name: &[u8],
    mode: u32,
) -> (r: Result<Progress<Handle>, Status>)
    requires
        old(rpc).wf(),
    ensures
        final(rpc).wf(),
        match state@.disk_dir_refusal(parent, name_fits(name@, SALTYFS_CREATE_NAME_WIRE_MAX)) {
            Some(e) => failed(old(rpc), final(rpc), r, e),
            None => deferred(
                old(rpc),
                final(rpc),
                r,
                BACKEND_OP_SALTYFS_CREATE,
                state@.disk_cap(parent),
                two_words(packed(parent), 0),
                Handle::invalid(),
                Some(ArgsView { mode, name_a: name@, ..plain_args(DeferredChange::Create) }),
                asks_make(
                    Opcode::BackendCreate,
                    state@.vnodes.at(parent).id,
                    mode as u64,
                    name@,
                ),
            ),
        },
{
    let fits: bool = name.len() > 0 && name.len() <= SALTYFS_CREATE_NAME_WIRE_MAX;
    let (ino, cap): (u64, u64) = match directory_on_disk(state, parent, fits) {
        Ok(p) => p,
        Err(e) => {
            return Err(e);
        },
    };
    let request = make_request(Opcode::BackendCreate, ino, mode as u64, name);
    let e = no_bytes();
    let args = make_args(DeferredChange::Create, mode, 0, name, e.as_slice(), e.as_slice());
    defer(
        rpc,
        BACKEND_OP_SALTYFS_CREATE,
        cap,
        request,
        pack_client_handle(parent),
        0,
        Handle::invalid(),
        Some(args),
        Ghost(asks_make(Opcode::BackendCreate, ino, mode as u64, name@)),
    )
}

/// A request that makes link `name` to `target` in directory `ino`.
pub open spec fn asks_symlink(ino: u64, name: Seq<u8>, target: Seq<u8>) -> spec_fn(Request) -> bool {
    |q: Request|
        asks_two_names(
            q,
            Opcode::BackendSymlink,
            seq![ino, name.len() as u64, target.len() as u64],
            name,
            target,
        )
}

/// Asks the disk server to make a link.
pub fn symlink_child(
    state: &VfsState,
    rpc: &mut RpcCore,
    parent: Handle,
    name: &[u8],
    target: &[u8],
) -> (r: Result<Progress<Handle>, Status>)
    requires
        old(rpc).wf(),
    ensures
        final(rpc).wf(),
        match state@.disk_dir_refusal(
            parent,
            name_fits(name@, SALTYFS_SYMLINK_NAME_WIRE_MAX) && name_fits(
                target@,
                SALTYFS_TARGET_INLINE_MAX,
            ),
        ) {
            Some(e) => failed(old(rpc), final(rpc), r, e),
            None => deferred(
                old(rpc),
                final(rpc),
                r,
                BACKEND_OP_SALTYFS_SYMLINK,
                state@.disk_cap(parent),
                two_words(packed(parent), 0),
                Handle::invalid(),
                Some(
                    ArgsView {
                        name_a: name@,
                        target: target@,
                        ..plain_args(DeferredChange::Symlink)
                    },
                ),
                asks_symlink(state@.vnodes.at(parent).id, name@, target@),
            ),
        },
{
    let fits: bool = name.len() > 0 && name.len() <= SALTYFS_SYMLINK_NAME_WIRE_MAX && target.len()
        > 0 && target.len() <= SALTYFS_TARGET_INLINE_MAX;
    let (ino, cap): (u64, u64) = match directory_on_disk(state, parent, fits) {
        Ok(p) => p,
        Err(e) => {
            return Err(e);
        },
    };
    let request = symlink_request(ino, name, target);
    let e = no_bytes();
    let args = make_args(DeferredChange::Symlink, 0, 0, name, e.as_slice(), target);
    defer(
        rpc,
        BACKEND_OP_SALTYFS_SYMLINK,
        cap,
        request,
        pack_client_handle(parent),
        0,
        Handle::invalid(),
        Some(args),
        Ghost(asks_symlink(ino, name@, target@)),
    )
}

/// A request that removes `name` from directory `ino`.
pub open spec fn asks_remove(dir: bool, ino: u64, name: Seq<u8>) -> spec_fn(Request) -> bool {
    |q: Request|
        asks_name(
            q,
            if dir {
                Opcode::BackendRmdir
            } else {
                Opcode::BackendUnlink
            },
            seq![ino, name.len() as u64],
            name,
        )
}

/// Asks the disk server to remove a name.
pub fn remove_child(
    state: &VfsState,
    rpc: &mut RpcCore,
    parent: Handle,
    name: &[u8],
    remove_dir: bool,
) -> (r: Result<Progress<()>, Status>)
    requires
        old(rpc).wf(),
    ensures
        final(rpc).wf(),
        match state@.disk_dir_refusal(parent, name_fits(name@, SALTYFS_NAME_MAX)) {
            Some(e) => failed(old(rpc), final(rpc), r, e),
            None => deferred(
                old(rpc),
                final(rpc),
                r,
                BACKEND_OP_SALTYFS_UNLINK,
                state@.disk_cap(parent),
                two_words(packed(parent), 0),
                Handle::invalid(),
                Some(
                    ArgsView {
                        flags: if remove_dir {
                            1
                        } else {
                            0
                        },
                        name_a: name@,
                        ..plain_args(
                            if remove_dir {
                                DeferredChange::Rmdir
                            } else {
                                DeferredChange::Unlink
                            },
                        )
                    },
                ),
                asks_remove(remove_dir, state@.vnodes.at(parent).id, name@),
            ),
        },
{
    let fits: bool = name.len() > 0 && name.len() <= SALTYFS_NAME_MAX;
    let (ino, cap): (u64, u64) = match directory_on_disk(state, parent, fits) {
        Ok(p) => p,
        Err(e) => {
            return Err(e);
        },
    };
    let (op, change, flag): (Opcode, DeferredChange, u32) = if remove_dir {
        (Opcode::BackendRmdir, DeferredChange::Rmdir, 1)
    } else {
        (Opcode::BackendUnlink, DeferredChange::Unlink, 0)
    };
    let request = name_request(op, ino, name);
    let e = no_bytes();
    let args = make_args(change, 0, flag, name, e.as_slice(), e.as_slice());
    defer(
        rpc,
        BACKEND_OP_SALTYFS_UNLINK,
        cap,
        request,
        pack_client_handle(parent),
        0,
        Handle::invalid(),
        Some(args),
        Ghost(asks_remove(remove_dir, ino, name@)),
    )
}

/// A request that moves a name.
pub open spec fn asks_rename(a: u64, old_name: Seq<u8>, b: u64, new_name: Seq<u8>) -> spec_fn(
    Request,
) -> bool {
    |q: Request|
        asks_two_names(
            q,
            Opcode::BackendRename,
            seq![a, old_name.len() as u64, b, new_name.len() as u64],
            old_name,
            new_name,
        )
}

/// Asks the disk server to move a name.
pub fn rename_child(
    state: &VfsState,
    rpc: &mut RpcCore,
    old_parent: Handle,
    old_name: &[u8],
    new_parent: Handle,
    new_name: &[u8],
) -> (r: Result<Progress<()>, Status>)
    requires
        old(rpc).wf(),
    ensures
        final(rpc).wf(),
        match state@.disk_rename_refusal(old_parent, old_name@, new_parent, new_name@) {
            Some(e) => failed(old(rpc), final(rpc), r, e),
            None => deferred(
                old(rpc),
                final(rpc),
                r,
                BACKEND_OP_SALTYFS_RENAME,
                state@.disk_cap(old_parent),
                two_words(packed(old_parent), packed(new_parent)),
                Handle::invalid(),
                Some(
                    ArgsView {
                        name_a: old_name@,
                        name_b: new_name@,
                        ..plain_args(DeferredChange::Rename)
                    },
                ),
                asks_rename(
                    state@.vnodes.at(old_parent).id,
                    old_name@,
                    state@.vnodes.at(new_parent).id,
                    new_name@,
                ),
            ),
        },
{
    if !vnode_is_saltyfs(state, old_parent) || !vnode_is_saltyfs(state, new_parent) {
        return Err(Status::CrossDevice);
    }
    if let Err(e) = ensure_writable(state, old_parent) {
        return Err(e);
    }
    if let Err(e) = ensure_writable(state, new_parent) {
        return Err(e);
    }
    let (old_ino, old_mount): (u64, Handle) = match state.vnodes.get(old_parent) {
        Some(vn) => (vn.id, vn.mount.handle),
        None => {
            return Err(Status::NotFound);
        },
    };
    let (new_ino, new_mount): (u64, Handle) = match state.vnodes.get(new_parent) {
        Some(vn) => (vn.id, vn.mount.handle),
        None => {
            return Err(Status::NotFound);
        },
    };
    if old_mount != new_mount {
        return Err(Status::InvalidOperation);
    }
    if old_name.len() == 0 || new_name.len() == 0 || old_name.len() > SALTYFS_RENAME_NAME_WIRE_MAX
        || new_name.len() > SALTYFS_RENAME_NAME_WIRE_MAX {
        return Err(Status::InvalidArgument);
    }
    let cap: u64 = match mount_data_for_vnode(state, old_parent) {
        Some((d, _)) => d.fs_cap,
        None => {
            return Err(Status::InvalidArgument);
        },
    };
    let request = rename_request(old_ino, old_name, new_ino, new_name);
    let e = no_bytes();
    let args = make_args(DeferredChange::Rename, 0, 0, old_name, new_name, e.as_slice());
    defer(
        rpc,
        BACKEND_OP_SALTYFS_RENAME,
        cap,
        request,
        pack_client_handle(old_parent),
        pack_client_handle(new_parent),
        Handle::invalid(),
        Some(args),
        Ghost(asks_rename(old_ino, old_name@, new_ino, new_name@)),
    )
}

/// Asks the disk server for a further name of a node.
pub fn link_vnode_into(
    state: &VfsState,
    rpc: &mut RpcCore,
    source: Handle,
    parent: Handle,
    name: &[u8],
) -> (r: Result<Progress<()>, Status>)
    requires
        old(rpc).wf(),
    ensures
        final(rpc).wf(),
        match state@.disk_link_refusal(source, parent, name@) {
            Some(e) => failed(old(rpc), final(rpc), r, e),
            None => deferred(
                old(rpc),
                final(rpc),
                r,
                BACKEND_OP_SALTYFS_LINK,
                state@.disk_cap(source),
                two_words(packed(parent), packed(source)),
                Handle::invalid(),
                Some(ArgsView { name_a: name@, ..plain_args(DeferredChange::Link) }),
                asks_make(
                    Opcode::BackendLink,
                    state@.vnodes.at(source).id,
                    state@.vnodes.at(parent).id,
                    name@,
                ),
            ),
        },
{
    if !vnode_is_saltyfs(state, source) || !vnode_is_saltyfs(state, parent) {
        return Err(Status::CrossDevice);
    }
    if let Err(e) = ensure_writable(state, parent) {
        return Err(e);
    }
    let (source_ino, source_mount): (u64, Handle) = match state.vnodes.get(source) {
        Some(vn) => (vn.id, vn.mount.handle),
        None => {
            return Err(Status::NotFound);
        },
    };
    let (parent_ino, parent_mount): (u64, Handle) = match state.vnodes.get(parent) {
        Some(vn) => (vn.id, vn.mount.handle),
        None => {
            return Err(Status::NotFound);
        },
    };
    if source_mount != parent_mount {
        return Err(Status::InvalidOperation);
    }
    if name.len() == 0 || name.len() > SALTYFS_CREATE_NAME_WIRE_MAX {
        return Err(Status::InvalidArgument);
    }
    let cap: u64 = match mount_data_for_vnode(state, source) {
        Some((d, _)) => d.fs_cap,
        None => {
            return Err(Status::InvalidArgument);
        },
    };
    let request = make_request(Opcode::BackendLink, source_ino, parent_ino, name);
    let e = no_bytes();
    let args = make_args(DeferredChange::Link, 0, 0, name, e.as_slice(), e.as_slice());
    defer(
        rpc,
        BACKEND_OP_SALTYFS_LINK,
        cap,
        request,
        pack_client_handle(parent),
        pack_client_handle(source),
        Handle::invalid(),
        Some(args),
        Ghost(asks_make(Opcode::BackendLink, source_ino, parent_ino, name@)),
    )
}

// ---- attributes --------------------------------------------------------------------

/// A change of nothing.
#[verifier::allow_in_spec]
pub fn no_change() -> (r: AttrChange)
    returns
        (AttrChange { mask: 0, mode: 0, uid: 0, gid: 0, atime: 0, mtime: 0, size: 0 }),
{
    AttrChange { mask: 0, mode: 0, uid: 0, gid: 0, atime: 0, mtime: 0, size: 0 }
}

/// A request that changes attributes of node `ino`.
pub open spec fn asks_setattr(ino: u64, c: AttrChange) -> spec_fn(Request) -> bool {
    |q: Request| asks_words(q, Opcode::BackendSetattr, setattr_words(ino, c))
}

/// The call for a change of attributes of vnode `v`.
pub open spec fn attr_call(
    m: VfsModel,
    pre: &RpcCore,
    post: &RpcCore,
    r: Result<Progress<()>, Status>,
    kind: BackendOpKind,
    v: Handle,
    c: AttrChange,
) -> bool {
    match m.disk_attr_refusal(v) {
        Some(e) => failed(pre, post, r, e),
        None => deferred(
            pre,
            post,
            r,
            kind,
            m.disk_cap(v),
            two_words(packed(v), 0),
            Handle::invalid(),
            Some(plain_args(DeferredChange::Setattr)),
            asks_setattr(m.vnodes.at(v).id, c),
        ),
    }
}

fn change_attrs(
    state: &VfsState,
    rpc: &mut RpcCore,
    kind: BackendOpKind,
    vnode: Handle,
    c: AttrChange,
) -> (r: Result<Progress<()>, Status>)
    requires
        old(rpc).wf(),
    ensures
        final(rpc).wf(),
        attr_call(state@, old(rpc), final(rpc), r, kind, vnode, c),
{
    if let Err(e) = ensure_writable(state, vnode) {
        return Err(e);
    }
    let ino: u64 = match state.vnodes.get(vnode) {
        Some(vn) => vn.id,
        None => {
            return Err(Status::NotFound);
        },
    };
    let cap: u64 = match mount_data_for_vnode(state, vnode) {
        Some((d, _)) => d.fs_cap,
        None => {
            return Err(Status::InvalidArgument);
        },
    };
    let e = no_bytes();
    let args = make_args(
        DeferredChange::Setattr,
        0,
        0,
        e.as_slice(),
        e.as_slice(),
        e.as_slice(),
    );
    assert(args@ == plain_args(DeferredChange::Setattr));
    defer(
        rpc,
        kind,
        cap,
        setattr_request(ino, c),
        pack_client_handle(vnode),
        0,
        Handle::invalid(),
        Some(args),
        Ghost(asks_setattr(ino, c)),
    )
}

/// Which call a change is: of the mode before the owner before the times.
#[verifier::allow_in_spec]
pub fn setattr_kind(mask: u32) -> (r: BackendOpKind)
    returns
        (if mask & SETATTR_MASK_MODE != 0 {
            BACKEND_OP_SALTYFS_SETMODE
        } else if mask & (SETATTR_MASK_UID | SETATTR_MASK_GID) != 0 {
            BACKEND_OP_SALTYFS_SETOWNER
        } else {
            BACKEND_OP_SALTYFS_SETTIMES
        }),
{
    if mask & SETATTR_MASK_MODE != 0 {
        BACKEND_OP_SALTYFS_SETMODE
    } else if mask & (SETATTR_MASK_UID | SETATTR_MASK_GID) != 0 {
        BACKEND_OP_SALTYFS_SETOWNER
    } else {
        BACKEND_OP_SALTYFS_SETTIMES
    }
}

/// Asks the disk server to change attributes of a node.
pub fn enqueue_setattr_vnode(state: &VfsState, rpc: &mut RpcCore, vnode: Handle, c: AttrChange) -> (r:
    Result<Progress<()>, Status>)
    requires
        old(rpc).wf(),
    ensures
        final(rpc).wf(),
        attr_call(state@, old(rpc), final(rpc), r, setattr_kind(c.mask), vnode, c),
{
    change_attrs(state, rpc, setattr_kind(c.mask), vnode, c)
}

/// Asks the disk server for another mode of a node.
pub fn set_mode_vnode(state: &VfsState, rpc: &mut RpcCore, vnode: Handle, mode: u32) -> (r: Result<
    Progress<()>,
    Status,
>)
    requires
        old(rpc).wf(),
    ensures
        final(rpc).wf(),
        attr_call(
            state@,
            old(rpc),
            final(rpc),
            r,
            BACKEND_OP_SALTYFS_SETMODE,
            vnode,
            (AttrChange { mask: SETATTR_MASK_MODE, mode, ..no_change() }),
        ),
{
    let mut c = no_change();
    c.mask = SETATTR_MASK_MODE;
    c.mode = mode;
    change_attrs(state, rpc, BACKEND_OP_SALTYFS_SETMODE, vnode, c)
}

/// Asks the disk server for another owner and group of a node.
pub fn set_owner_vnode(state: &VfsState, rpc: &mut RpcCore, vnode: Handle, uid: u32, gid: u32) -> (r:
    Result<Progress<()>, Status>)
    requires
        old(rpc).wf(),
    ensures
        final(rpc).wf(),
        attr_call(
            state@,
            old(rpc),
            final(rpc),
            r,
            BACKEND_OP_SALTYFS_SETOWNER,
            vnode,
            (AttrChange { mask: SETATTR_MASK_UID | SETATTR_MASK_GID, uid, gid, ..no_change() }),
        ),
{
    let mut c = no_change();
    c.mask = SETATTR_MASK_UID | SETATTR_MASK_GID;
    c.uid = uid;
    c.gid = gid;
    change_attrs(state, rpc, BACKEND_OP_SALTYFS_SETOWNER, vnode, c)
}

/// The change that sets the times that are given, in nanoseconds, to whole seconds.
pub open spec fn times_change(atime: Option<u64>, mtime: Option<u64>) -> AttrChange {
    AttrChange {
        mask: (if atime is Some {
            SETATTR_MASK_ATIME
        } else {
            0u32
        }) | (if mtime is Some {
            SETATTR_MASK_MTIME
        } else {
            0u32
        }),
        atime: match atime {
            Some(t) => t / 1_000_000_000,
            None => 0,
        },
        mtime: match mtime {
            Some(t) => t / 1_000_000_000,
            None => 0,
        },
        ..no_change()
    }
}

/// Asks the disk server for other times of a node. Times that are asked for are always set,
/// on a mount without access times too; with none given there is nothing to do.
pub fn set_times_vnode(
    state: &VfsState,
    rpc: &mut RpcCore,
    vnode: Handle,
    atime: Option<u64>,
    mtime: Option<u64>,
) -> (r: Result<Progress<()>, Status>)
    requires
        old(rpc).wf(),
    ensures
        final(rpc).wf(),
        if atime is None && mtime is None {
            r matches Ok(Progress::Complete(())) && RpcCore::queue_unchanged(old(rpc), final(rpc))
                && final(rpc).pool@ == old(rpc).pool@
        } else {
            attr_call(
                state@,
                old(rpc),
                final(rpc),
                r,
                BACKEND_OP_SALTYFS_SETTIMES,
                vnode,
                times_change(atime, mtime),
            )
        },
{
    if atime.is_none() && mtime.is_none() {
        return Ok(Progress::Complete(()));
    }
    let mut c = no_change();
    let am: u32 = match atime {
        Some(t) => {
            c.atime = t / 1_000_000_000;
            SETATTR_MASK_ATIME
        },
        None => 0,
    };
    let mm: u32 = match mtime {
        Some(t) => {
            c.mtime = t / 1_000_000_000;
            SETATTR_MASK_MTIME
        },
        None => 0,
    };
    c.mask = am | mm;
    change_attrs(state, rpc, BACKEND_OP_SALTYFS_SETTIMES, vnode, c)
}

/// Asks the disk server for another size of a file.
pub fn truncate_vnode(state: &VfsState, rpc: &mut RpcCore, vnode: Handle, new_size: u64) -> (r: Result<
    Progress<()>,
    Status,
>)
    requires
        old(rpc).wf(),
    ensures
        final(rpc).wf(),
        attr_call(
            state@,
            old(rpc),
            final(rpc),
            r,
            BACKEND_OP_SALTYFS_TRUNCATE,
            vnode,
            (AttrChange { mask: SETATTR_MASK_SIZE, size: new_size, ..no_change() }),
        ),
{
    let mut c = no_change();
    c.mask = SETATTR_MASK_SIZE;
    c.size = new_size;
    change_attrs(state, rpc, BACKEND_OP_SALTYFS_TRUNCATE, vnode, c)
}

/// A request that reads link `ino`.
pub open spec fn asks_readlink(ino: u64) -> spec_fn(Request) -> bool {
    |q: Request| asks_words(q, Opcode::BackendReadlink, seq![ino])
}

/// Whether what a link leads to is stored; asks the disk server for it where it is not.
pub fn ensure_symlink_target(state: &VfsState, rpc: &mut RpcCore, vnode: Handle) -> (r: Result<
    Progress<bool>,
    Status,
>)
    requires
        old(rpc).wf(),
    ensures
        final(rpc).wf(),
        ({
            let is_link = state@.vnodes.has(vnode) && state@.vnodes.at(vnode).vtype
                == VnodeType::Lnk;
            let stored = is_link && state@.vnodes.at(vnode).data.is_valid();
            if is_link && !stored && state@.salty_record(vnode) is Some {
                deferred(
                    old(rpc),
                    final(rpc),
                    r,
                    BACKEND_OP_SALTYFS_READLINK,
                    state@.disk_cap(vnode),
                    two_words(packed(vnode), 0),
                    vnode,
                    None,
                    asks_readlink(state@.vnodes.at(vnode).id),
                )
            } else {
                &&& r matches Ok(Progress::Complete(b)) && b == stored
                &&& RpcCore::queue_unchanged(old(rpc), final(rpc))
                &&& final(rpc).pool@ == old(rpc).pool@
            }
        }),
{
    let vn: Vnode = match state.vnodes.get(vnode) {
        Some(vn) => *vn,
        None => {
            return Ok(Progress::Complete(false));
        },
    };
    if vn.vtype != VnodeType::Lnk {
        return Ok(Progress::Complete(false));
    }
    if vn.data.is_valid() {
        return Ok(Progress::Complete(true));
    }
    let cap: u64 = match mount_data_for_vnode(state, vnode) {
        Some((d, _)) => d.fs_cap,
        None => {
            return Ok(Progress::Complete(false));
        },
    };
    defer(
        rpc,
        BACKEND_OP_SALTYFS_READLINK,
        cap,
        one_word_request(Opcode::BackendReadlink, vn.id),
        pack_client_handle(vnode),
        0,
        vnode,
        None,
        Ghost(asks_readlink(vn.id)),
    )
}

/// Whether a file of the disk can be opened this way: appending is not there.
#[verifier::allow_in_spec]
pub fn validate_open_regular(flags: u32) -> (r: Status)
    returns
        (if flags & O_ACCMODE > O_RDWR {
            Status::InvalidArgument
        } else if flags & O_APPEND != 0 {
            Status::NotSupported
        } else {
            Status::Success
        }),
{
    if flags & O_ACCMODE > O_RDWR {
        Status::InvalidArgument
    } else if flags & O_APPEND != 0 {
        Status::NotSupported
    } else {
        Status::Success
    }
}

// ---- bytes of files ----------------------------------------------------------------

/// The server and the node that a read, a write or a listing of vnode `v` goes to.
pub open spec fn node_on_disk(m: VfsModel, v: Handle) -> Result<(SaltyfsMountData, u64), Status> {
    match m.vnodes.entry(v) {
        None => Err(Status::NotFound),
        Some(vn) => match m.salty_record(v) {
            None => Err(Status::InvalidArgument),
            Some((d, _)) => Ok((d, vn.id)),
        },
    }
}

fn find_node_on_disk(state: &VfsState, vnode: Handle) -> (r: Result<(SaltyfsMountData, u64), Status>)
    ensures
        r == node_on_disk(state@, vnode),
{
    let ino: u64 = match state.vnodes.get(vnode) {
        Some(vn) => vn.id,
        None => {
            return Err(Status::NotFound);
        },
    };
    match mount_data_for_vnode(state, vnode) {
        Some((d, _)) => Ok((d, ino)),
        None => Err(Status::InvalidArgument),
    }
}

/// The read of `cap` bytes at `file_offset`: the server, the request, and whether the bytes
/// come in shared memory.
pub fn read_regular_call(state: &VfsState, vnode: Handle, file_offset: u64, cap: u64) -> (r: Result<
    (u64, Request, bool),
    Status,
>)
    ensures
        match node_on_disk(state@, vnode) {
            Err(e) => r == Err::<(u64, Request, bool), Status>(e),
            Ok((d, ino)) => {
                let t = read_transfer(d.shm_active, cap);
                r matches Ok((ep, q, shm)) && ep == d.fs_cap && (shm <==> t is Shm) && asks_words(
                    q,
                    Opcode::BackendRead,
                    seq![
                        ino,
                        file_offset,
                        transfer_words(t).0,
                        transfer_words(t).1,
                        transfer_words(t).2,
                    ],
                )
            },
        },
{
    let (d, ino): (SaltyfsMountData, u64) = match find_node_on_disk(state, vnode) {
        Ok(p) => p,
        Err(e) => {
            return Err(e);
        },
    };
    let t = choose_read_transfer(d.shm_active, cap);
    let shm: bool = match t {
        Transfer::Shm { .. } => true,
        Transfer::Inline { .. } => false,
    };
    Ok((d.fs_cap, read_request(ino, file_offset, t), shm))
}

/// The bytes that a read of `cap` bytes gave: from shared memory, or from the registers
/// behind the first, as far as they go.
pub fn read_regular_done(err: u64, reply: &Reply, cap: u64, shm: Option<&[u8]>) -> (r: Result<
    Vec<u8>,
    Status,
>)
    requires
        shm matches Some(b) ==> b@.len() >= cap,
    ensures
        match r {
            Err(e) => e == call_outcome(err, reply.label) && e != Status::Success,
            Ok(b) => call_outcome(err, reply.label) == Status::Success && b@ == (match shm {
                Some(m) => m@.take(
                    if reply.regs@[0] < cap {
                        reply.regs@[0] as int
                    } else {
                        cap as int
                    },
                ),
                None => counted_bytes(
                    reply.regs@,
                    if cap < 8 * (MSG_REGS - 1) {
                        cap
                    } else {
                        (8 * (MSG_REGS - 1)) as u64
                    },
                ),
            }),
        },
{
    let s: Status = call_outcome(err, reply.label);
    if s != Status::Success {
        return Err(s);
    }
    match shm {
        Some(m) => {
            let n: u64 = if reply.regs[0] < cap {
                reply.regs[0]
            } else {
                cap
            };
            let room: usize = m.len();
            assert(n <= room);
            let b = slice_to_vec(cut(m, 0, n as usize));
            assert(b@ =~= m@.take(n as int));
            Ok(b)
        },
        None => Ok(
            read_counted_bytes(
                reply,
                if cap < 8 * (MSG_REGS as u64 - 1) {
                    cap
                } else {
                    8 * (MSG_REGS as u64 - 1)
                },
            ),
        ),
    }
}

/// The write of `src` at `file_offset`: the server and the request. A read-only mount
/// refuses it.
pub fn write_regular_call(state: &VfsState, vnode: Handle, file_offset: u64, src: &[u8]) -> (r: Result<
    (u64, Request),
    Status,
>)
    requires
        src@.len() <= 8 * (MSG_REGS - 5),
    ensures
        if state@.disk_sealed(vnode) {
            r == Err::<(u64, Request), Status>(Status::ReadOnly)
        } else {
            match node_on_disk(state@, vnode) {
                Err(e) => r == Err::<(u64, Request), Status>(e),
                Ok((d, ino)) => r matches Ok((ep, q)) && ep == d.fs_cap && asks_name(
                    q,
                    Opcode::BackendWrite,
                    seq![ino, file_offset, 0, 0, src@.len() as u64],
                    src@,
                ),
            }
        },
{
    if let Err(e) = ensure_writable(state, vnode) {
        return Err(e);
    }
    match find_node_on_disk(state, vnode) {
        Ok((d, ino)) => Ok((d.fs_cap, write_request(ino, file_offset, src))),
        Err(e) => Err(e),
    }
}

/// Ends a write: the bytes that the disk server wrote, with the vnode brought up to the
/// stat that followed. When the stat failed, so did the write.
pub fn write_vnode(
    state: &mut VfsState,
    vnode: Handle,
    written: Result<u64, Status>,
    stat: Result<StatSnapshot, Status>,
) -> (r: Result<u64, Status>)
    ensures
        match (node_on_disk(old(state)@, vnode), written, stat) {
            (Err(e), _, _) => r == Err::<u64, Status>(e) && final(state)@ == old(state)@,
            (Ok(_), Err(e), _) => r == Err::<u64, Status>(e) && final(state)@ == old(state)@,
            (Ok(_), Ok(_), Err(e)) => r == Err::<u64, Status>(e) && final(state)@ == old(state)@,
            (Ok(_), Ok(n), Ok(a)) => r == Ok::<u64, Status>(n) && final(state)@
                == old(state)@.reported(vnode, with_stat(old(state)@.vnodes.at(vnode), a)),
        },
{
    if let Err(e) = find_node_on_disk(state, vnode) {
        return Err(e);
    }
    let n: u64 = match written {
        Ok(n) => n,
        Err(e) => {
            return Err(e);
        },
    };
    match refresh_vnode_attrs(state, vnode, stat) {
        Ok(()) => Ok(n),
        Err(e) => Err(e),
    }
}

// ---- listing directories -----------------------------------------------------------

/// The listing of a directory from `cursor` on: the server and the request.
pub fn readdir_call(state: &VfsState, vnode: Handle, cursor: u64) -> (r: Result<
    (u64, Request),
    Status,
>)
    ensures
        match state@.vnodes.entry(vnode) {
            None => r == Err::<(u64, Request), Status>(Status::NotFound),
            Some(vn) => if vn.vtype != VnodeType::Dir {
                r == Err::<(u64, Request), Status>(Status::NotDirectory)
            } else {
                match state@.salty_record(vnode) {
                    None => r == Err::<(u64, Request), Status>(Status::InvalidArgument),
                    Some((d, _)) => if !d.shm_active || d.shm_vaddr == 0 || d.shm_size
                        < SALTYFS_READDIR_ENTRY_BYTES {
                        r == Err::<(u64, Request), Status>(Status::InvalidOperation)
                    } else {
                        r matches Ok((ep, q)) && ep == d.fs_cap && asks_words(
                            q,
                            Opcode::BackendReaddir,
                            seq![vn.id, cursor, 0, SALTYFS_READDIR_ENTRY_BYTES],
                        )
                    },
                }
            },
        },
{
    let vn: Vnode = match state.vnodes.get(vnode) {
        Some(vn) => *vn,
        None => {
            return Err(Status::NotFound);
        },
    };
    if vn.vtype != VnodeType::Dir {
        return Err(Status::NotDirectory);
    }
    let d: SaltyfsMountData = match mount_data_for_vnode(state, vnode) {
        Some((d, _)) => d,
        None => {
            return Err(Status::InvalidArgument);
        },
    };
    if !d.shm_active || d.shm_vaddr == 0 || d.shm_size < SALTYFS_READDIR_ENTRY_BYTES {
        return Err(Status::InvalidOperation);
    }
    Ok((d.fs_cap, readdir_request(vn.id, cursor)))
}

/// What the answer to a listing gives.
pub enum DirStep {
    /// There is no further entry.
    End,
    /// The entry is not shown: the listing goes on from here.
    Again { cursor: u64 },
    /// An entry.
    Entry { next_cursor: u64, eof_after: bool, ino: u64, d_type: u8, name: Vec<u8> },
}

/// The entry in the answer to a listing. A name that the bootstrap tree has in the same
/// directory is not shown twice.
pub fn readdir_done(
    state: &VfsState,
    vnode: Handle,
    ignore_case: bool,
    err: u64,
    reply: &Reply,
    shm: &[u8],
) -> (r: Result<DirStep, Status>)
    requires
        shm@.len() >= SALTYFS_READDIR_ENTRY_BYTES,
    ensures
        ({
            let eof = reply.regs@[3] & BACKEND_READDIR_F_EOF != 0;
            let name = shm@.subrange(52, 52 + entry_name_len(shm@));
            if call_outcome(err, reply.label) != Status::Success {
                r matches Err(e) && e == call_outcome(err, reply.label)
            } else if reply.regs@[1] == 0 || reply.regs@[2] < SALTYFS_READDIR_ENTRY_BYTES {
                r matches Ok(DirStep::End)
            } else if boot_child(state@.boot_entries, vnode, name, ignore_case) is Some {
                if eof {
                    r matches Ok(DirStep::End)
                } else {
                    r matches Ok(DirStep::Again { cursor }) && cursor == reply.regs@[0]
                }
            } else {
                r matches Ok(
                    DirStep::Entry { next_cursor, eof_after, ino, d_type, name: n },
                ) && next_cursor == reply.regs@[0] && eof_after == eof && ino == little_word(
                    shm@,
                    0,
                    8,
                ) && d_type == entry_dtype(little_word(shm@, 32, 4) as u32, shm@[48]) && n@ == name
            }
        }),
{
    let s: Status = call_outcome(err, reply.label);
    if s != Status::Success {
        return Err(s);
    }
    if reply.regs[1] == 0 || reply.regs[2] < SALTYFS_READDIR_ENTRY_BYTES {
        return Ok(DirStep::End);
    }
    let eof: bool = reply.regs[3] & BACKEND_READDIR_F_EOF != 0;
    let e = read_dir_entry(shm);
    if state.bootstrap_lookup_child_with_case(vnode, e.name.as_slice(), ignore_case).is_some() {
        if eof {
            return Ok(DirStep::End);
        }
        return Ok(DirStep::Again { cursor: reply.regs[0] });
    }
    Ok(
        DirStep::Entry {
            next_cursor: reply.regs[0],
            eof_after: eof,
            ino: e.ino,
            d_type: readdir_dtype(e.mode, e.d_type),
            name: e.name,
        },
    )
}

/// A directory on the disk under `name`, where one can be had at once. The disk server is
/// asked for the name, but its answer is not waited for, so that none ever can; whoever
/// needs the directory makes it without the disk.
pub fn ensure_dir_child(state: &VfsState, rpc: &mut RpcCore, parent: Handle, name: &[u8]) -> (r: Option<
    Handle,
>)
    requires
        old(rpc).wf(),
    ensures
        final(rpc).wf(),
        r is None,
        nothing_noted(old(rpc).pool@, final(rpc).pool@),
        match state@.salty_record(parent) {
            Some((d, _)) => if state@.vnodes.at(parent).vtype == VnodeType::Dir && call_fits(
                old(rpc),
                false,
            ) {
                let job = final(rpc).jobs@.last();
                &&& job_queued(
                    old(rpc),
                    final(rpc),
                    PendingOpId(job.op_id),
                    old(rpc).workers.turn() as usize,
                    BACKEND_OP_SALTYFS_LOOKUP_CHILD,
                    d.fs_cap,
                    two_words(packed(parent), kept_name(name@).len() as u64),
                )
                &&& asks_lookup(state@.vnodes.at(parent).id, kept_name(name@))(job.request)
                &&& !final(rpc).pool@.live(PendingOpId(job.op_id))
            } else {
                RpcCore::queue_unchanged(old(rpc), final(rpc))
            },
            None => RpcCore::queue_unchanged(old(rpc), final(rpc)),
        },
{
    match lookup_child(state, rpc, parent, name) {
        Ok(Progress::Deferred { op, worker: _ }) => {
            let ghost noted = rpc.pool@;
            rpc.pool.free(op);
            proof {
                lemma_noted_and_freed(
                    old(rpc).pool@,
                    noted,
                    op,
                    PO_KIND_BACKEND_RPC,
                    Handle::invalid(),
                    None,
                );
            }
            None
        },
        Ok(Progress::Complete(v)) => v,
        Err(_) => None,
    }
}

} // verus!
