//! Files of the process filesystem whose content only the process manager knows. The owner
//! never waits for it: the call goes to a worker, and the answer is turned into the reply
//! when it comes back.

use crate::arena::{packed, unpack_handle, unpacked, Handle};
use crate::backend_rpc::{
    BackendOpCtx, BackendOpKind, BackendPayload, BackendPayloadView, PendingBackendCompletion,
    PendingBackendJob, RpcCore, BACKEND_OP_PROCFS_READDIR_PIDS,
    BACKEND_OP_PROCFS_READLINK_PID_EXE, BACKEND_OP_PROCFS_READ_PID_CMDLINE,
    BACKEND_OP_PROCFS_READ_PID_COMM, BACKEND_OP_PROCFS_READ_PID_STATM,
    BACKEND_OP_PROCFS_READ_PID_STATUS, BACKEND_OP_PROCFS_READ_PID_STAT_STAGE0,
    BACKEND_OP_PROCFS_READ_PID_STAT_STAGE1, BACKEND_OP_PROCFS_READ_ROOT_LOADAVG,
    BACKEND_OP_PROCFS_READ_ROOT_STAT, BACKEND_PAYLOAD_MAX,
};
use crate::backend_rpc::table_full;
use crate::bytes::{copy_prefix, decimal, least, prefix, push_decimal};
use crate::files::{ObjKind, OpenFile};
use crate::fs::procfs::{kind_number, node_of_vnode, proc_inode};
use crate::fs::proctext::{
    format_pid_comm, format_pid_stat, format_pid_statm, format_pid_status, format_root_loadavg,
    format_root_stat, loadavg_text, pid_comm_text, pid_stat_text, pid_statm_text, pid_status_text,
    root_stat_text, SystemStats, PROC_TEXT_MAX,
};
use crate::fs::records::ProcNodeKind;
use crate::fs::sysctlfs::{part_of, read_part};
use crate::pending_ops::{
    first_from, pool_wf, OpState, Payload, PayloadView, PendingOp, PendingOpId, PendingOpKind,
    PoolView, MAX_PAYLOAD_BUFS, PO_KIND_PROCFS_PID_STAT, PO_KIND_PROCFS_READ,
    PO_KIND_PROCFS_READDIR, PO_KIND_PROCFS_READLINK,
};
use crate::state::{VfsModel, VfsState};
use crate::status::Status;
use crate::vnode::DT_DIR;
use crate::wire::{
    get_bytes, put_bytes, reg_bytes, regs_for, zero_regs, KinfoProc, KinfoView, Opcode, Reply,
    Request, SysCpu, SysInfo, KINFO_PROC_BYTES, MEM_SNAPSHOT_BYTES,
};
use vstd::prelude::*;

verus! {

/// Most bytes that a reply carries in its registers.
pub const INLINE_READ_MAX: usize = 152;

/// The listing goes on with an entry that another server knows.
pub const DIR_CURSOR_BACKEND: u8 = 1;

/// The listing has ended.
pub const DIR_CURSOR_EOF: u8 = 2;

/// Whether reading a node needs the process manager.
#[verifier::allow_in_spec]
pub fn proc_read_needs_deferred(kind: ProcNodeKind) -> (r: bool)
    returns
        (kind == ProcNodeKind::PidStatus || kind == ProcNodeKind::PidStat || kind
            == ProcNodeKind::PidStatm || kind == ProcNodeKind::PidCmdline || kind
            == ProcNodeKind::PidComm || kind == ProcNodeKind::RootStat || kind
            == ProcNodeKind::RootLoadavg),
{
    kind == ProcNodeKind::PidStatus || kind == ProcNodeKind::PidStat || kind
        == ProcNodeKind::PidStatm || kind == ProcNodeKind::PidCmdline || kind
        == ProcNodeKind::PidComm || kind == ProcNodeKind::RootStat || kind
        == ProcNodeKind::RootLoadavg
}

/// Whether following a link needs the process manager.
#[verifier::allow_in_spec]
pub fn proc_readlink_needs_deferred(kind: ProcNodeKind) -> (r: bool)
    returns
        kind == ProcNodeKind::PidExe,
{
    kind == ProcNodeKind::PidExe
}

/// Kind and process of the node of a vnode.
pub fn proc_read_kind(state: &VfsState, vnode: Handle) -> (r: Option<(ProcNodeKind, u32)>)
    ensures
        r == (match state@.proc_node(vnode) {
            Some(n) => Some((n.kind, n.pid)),
            None => None,
        }),
{
    match node_of_vnode(state, vnode) {
        Some(n) => Some((n.kind, n.pid)),
        None => None,
    }
}

/// The call that reading a node makes: its operation, what it asks for and how much comes
/// back beside the registers.
pub open spec fn read_call(kind: ProcNodeKind) -> Option<(BackendOpKind, Opcode, u32)> {
    match kind {
        ProcNodeKind::PidStatus => Some(
            (BACKEND_OP_PROCFS_READ_PID_STATUS, Opcode::InitGetKinfoProc, KINFO_PROC_BYTES),
        ),
        ProcNodeKind::PidComm => Some(
            (BACKEND_OP_PROCFS_READ_PID_COMM, Opcode::InitGetKinfoProc, KINFO_PROC_BYTES),
        ),
        ProcNodeKind::PidStat => Some(
            (BACKEND_OP_PROCFS_READ_PID_STAT_STAGE0, Opcode::InitGetKinfoProc, KINFO_PROC_BYTES),
        ),
        ProcNodeKind::PidStatm => Some(
            (BACKEND_OP_PROCFS_READ_PID_STATM, Opcode::InitGetClientVmStats, MEM_SNAPSHOT_BYTES),
        ),
        ProcNodeKind::PidCmdline => Some(
            (
                BACKEND_OP_PROCFS_READ_PID_CMDLINE,
                Opcode::InitGetArgv,
                BACKEND_PAYLOAD_MAX as u32,
            ),
        ),
        ProcNodeKind::RootStat => Some(
            (BACKEND_OP_PROCFS_READ_ROOT_STAT, Opcode::InitGetSystemStats, 0),
        ),
        ProcNodeKind::RootLoadavg => Some(
            (BACKEND_OP_PROCFS_READ_ROOT_LOADAVG, Opcode::InitGetSystemStats, 0),
        ),
        _ => None,
    }
}

fn read_call_of(kind: ProcNodeKind) -> (r: Option<(BackendOpKind, Opcode, u32)>)
    ensures
        r == read_call(kind),
{
    match kind {
        ProcNodeKind::PidStatus => Some(
            (BACKEND_OP_PROCFS_READ_PID_STATUS, Opcode::InitGetKinfoProc, KINFO_PROC_BYTES),
        ),
        ProcNodeKind::PidComm => Some(
            (BACKEND_OP_PROCFS_READ_PID_COMM, Opcode::InitGetKinfoProc, KINFO_PROC_BYTES),
        ),
        ProcNodeKind::PidStat => Some(
            (BACKEND_OP_PROCFS_READ_PID_STAT_STAGE0, Opcode::InitGetKinfoProc, KINFO_PROC_BYTES),
        ),
        ProcNodeKind::PidStatm => Some(
            (BACKEND_OP_PROCFS_READ_PID_STATM, Opcode::InitGetClientVmStats, MEM_SNAPSHOT_BYTES),
        ),
        ProcNodeKind::PidCmdline => Some(
            (
                BACKEND_OP_PROCFS_READ_PID_CMDLINE,
                Opcode::InitGetArgv,
                BACKEND_PAYLOAD_MAX as u32,
            ),
        ),
        ProcNodeKind::RootStat => Some(
            (BACKEND_OP_PROCFS_READ_ROOT_STAT, Opcode::InitGetSystemStats, 0),
        ),
        ProcNodeKind::RootLoadavg => Some(
            (BACKEND_OP_PROCFS_READ_ROOT_LOADAVG, Opcode::InitGetSystemStats, 0),
        ),
        _ => None,
    }
}

/// The nodes that are about no single process.
#[verifier::allow_in_spec]
pub fn asks_for_no_process(kind: ProcNodeKind) -> (r: bool)
    returns
        (kind == ProcNodeKind::RootStat || kind == ProcNodeKind::RootLoadavg),
{
    kind == ProcNodeKind::RootStat || kind == ProcNodeKind::RootLoadavg
}

/// What became of a request to defer a call.
#[derive(Clone, Copy, PartialEq, Eq, Structural, Debug)]
pub enum Deferral {
    /// The caller's reply could not be kept; it has been answered.
    Unsaved,
    /// The call is queued, this worker is to be woken, and the reply comes later.
    Queued { worker: usize },
    /// It cannot be deferred: the kept reply is to be released and the request carried out
    /// at once.
    Inline { release: u64 },
}

/// The badge of a client, zero when there is no such client.
pub open spec fn badge_of(m: VfsModel, client: Handle) -> u64 {
    match m.clients.entry(client) {
        Some(c) => c.badge,
        None => 0,
    }
}

fn client_badge(state: &VfsState, client: Handle) -> (r: u64)
    ensures
        r == badge_of(state@, client),
{
    match state.clients.get(client) {
        Some(c) => c.badge_of(),
        None => 0,
    }
}

/// The first word that travels with a read: the kind of node and the descriptor.
#[verifier::allow_in_spec]
pub fn kind_and_fd(kind: ProcNodeKind, fd: i32) -> (r: u64)
    returns
        (kind_number(kind) | ((fd as u32 as u64) << 32)),
{
    kind_number(kind) | ((fd as u32 as u64) << 32)
}

/// The descriptor in the upper half of a word.
#[verifier::allow_in_spec]
pub fn fd_in_upper(word: u64) -> (r: i32)
    returns
        ((word >> 32) as u32 as i32),
{
    (word >> 32) as u32 as i32
}

/// The descriptor that travels with a read comes back unchanged.
pub proof fn law_descriptor_travels(kind: ProcNodeKind, fd: i32)
    ensures
        fd_in_upper(kind_and_fd(kind, fd)) == fd,
{
    let k = kind_number(kind);
    assert(((k | ((fd as u32 as u64) << 32)) >> 32) as u32 as i32 == fd) by (bit_vector)
        requires
            k <= 16,
    ;
}

fn request_with(op: Opcode, words: u64, a: u64, b: u64) -> (r: Request)
    requires
        words <= 2,
    ensures
        r.op == op,
        r.length == words,
        r.regs@ == zero_regs().update(0, a).update(1, b),
{
    let mut req = Request::bare(op);
    req.length = words;
    req.regs[0] = a;
    req.regs[1] = b;
    req
}

/// The job asks the process manager for what a node shows.
pub open spec fn is_read_job(
    m: VfsModel,
    job: PendingBackendJob,
    init_ep: u64,
    client: Handle,
    fd: i32,
    vnode: Handle,
    offset: u64,
    want: u64,
    kind: ProcNodeKind,
    pid: u32,
    is_pread: bool,
) -> bool {
    &&& job.target_ep == init_ep
    &&& read_call(kind) == Some((job.op_kind, job.request.op, job.payload_out_bytes))
    &&& job.request.length == (if asks_for_no_process(kind) {
        0u64
    } else {
        1u64
    })
    &&& job.request.regs@ == zero_regs().update(
        0,
        if asks_for_no_process(kind) {
            0u64
        } else {
            pid as u64
        },
    ).update(1, 0)
    &&& job.ctx.badge == badge_of(m, client)
    &&& job.ctx.client_handle_raw == packed(client)
    &&& job.ctx.stage == 0
    &&& job.ctx.data@ == seq![
        kind_and_fd(kind, fd),
        packed(vnode),
        offset,
        want,
        pid as u64,
        if is_pread {
            1u64
        } else {
            0u64
        },
    ]
}

/// The kind of operation that waits for what a node shows.
#[verifier::allow_in_spec]
pub fn read_op_kind(kind: ProcNodeKind) -> (r: PendingOpKind)
    returns
        (if kind == ProcNodeKind::PidStat {
            PO_KIND_PROCFS_PID_STAT
        } else {
            PO_KIND_PROCFS_READ
        }),
{
    if kind == ProcNodeKind::PidStat {
        PO_KIND_PROCFS_PID_STAT
    } else {
        PO_KIND_PROCFS_READ
    }
}

/// Defers reading a node. `reply_slot` is the caller's kept reply, if it could be kept.
pub fn defer_procfs_read(
    state: &VfsState,
    rpc: &mut RpcCore,
    init_ep: u64,
    client: Handle,
    fd: i32,
    vnode: Handle,
    offset: u64,
    want: u64,
    kind: ProcNodeKind,
    pid: u32,
    is_pread: bool,
    reply_slot: Option<u64>,
) -> (r: Deferral)
    requires
        old(rpc).wf(),
    ensures
        final(rpc).wf(),
        match r {
            Deferral::Unsaved => reply_slot is None && *final(rpc) == *old(rpc),
            Deferral::Queued { worker } => {
                &&& reply_slot is Some
                &&& worker == old(rpc).workers.turn()
                &&& is_read_job(
                    state@,
                    final(rpc).jobs@.last(),
                    init_ep,
                    client,
                    fd,
                    vnode,
                    offset,
                    want,
                    kind,
                    pid,
                    is_pread,
                )
                &&& RpcCore::call_queued(
                    old(rpc),
                    final(rpc),
                    PendingOpId(final(rpc).jobs@.last().op_id),
                    read_op_kind(kind),
                    badge_of(state@, client),
                    client,
                    reply_slot->0,
                    final(rpc).jobs@.last(),
                )
            },
            Deferral::Inline { release } => {
                &&& reply_slot == Some(release)
                &&& if read_call(kind) is None {
                    *final(rpc) == *old(rpc)
                } else {
                    RpcCore::call_refused(
                        old(rpc),
                        final(rpc),
                        read_op_kind(kind),
                        badge_of(state@, client),
                        client,
                        release,
                    )
                }
            },
        },
        r is Queued <==> reply_slot is Some && read_call(kind) is Some && old(rpc).accepts()
            && !table_full(old(rpc).pool@),
{
    let slot: u64 = match reply_slot {
        Some(s) => s,
        None => {
            return Deferral::Unsaved;
        },
    };
    let (op_kind, op, payload): (BackendOpKind, Opcode, u32) = match read_call_of(kind) {
        Some(c) => c,
        None => {
            return Deferral::Inline { release: slot };
        },
    };
    let request: Request = if asks_for_no_process(kind) {
        request_with(op, 0, 0, 0)
    } else {
        request_with(op, 1, pid as u64, 0)
    };
    let badge: u64 = client_badge(state, client);
    let pread: u64 = if is_pread {
        1
    } else {
        0
    };
    let ctx = BackendOpCtx {
        badge,
        client_handle_raw: crate::pending_ops::pack_client_handle(client),
        stage: 0,
        data: [
            kind_and_fd(kind, fd),
            crate::arena::pack_handle(vnode),
            offset,
            want,
            pid as u64,
            pread,
        ],
    };
    let job = PendingBackendJob {
        target_ep: init_ep,
        op_kind,
        payload_out_bytes: payload,
        op_id: 0,
        request,
        ctx,
    };
    match rpc.start_call(read_op_kind(kind), badge, client, slot, job) {
        Some((id, worker)) => Deferral::Queued { worker },
        None => Deferral::Inline { release: slot },
    }
}

// ---- answers -----------------------------------------------------------------------

impl VfsModel {
    /// Descriptor `fd` of a client still leads to vnode `v`.
    pub open spec fn fd_still_leads_to(self, client: Handle, fd: i32, v: Handle) -> bool {
        self.clients.has(client) && fd >= 0 && (match self.file_of(client, fd as int) {
            Some(f) => f.vnode == v,
            None => false,
        })
    }

    /// The state with the position of descriptor `fd` moved on by `n` bytes.
    pub open spec fn position_moved(self, client: Handle, fd: int, n: u64) -> VfsModel {
        match self.file_of(client, fd) {
            Some(f) => VfsModel {
                open_files: self.open_files.put(
                    self.slot_of(client, fd)->0.open_file,
                    OpenFile { offset: f.offset.saturating_add(n), ..f },
                ),
                ..self
            },
            None => self,
        }
    }
}

/// Whether a descriptor still leads to the vnode that a deferred request was about.
pub fn validate_pending_fd_vnode(state: &VfsState, client: Handle, fd: i32, saved: Handle) -> (r:
    bool)
    ensures
        r == state@.fd_still_leads_to(client, fd, saved),
{
    if !state.clients.contains(client) || fd < 0 {
        return false;
    }
    match state.client_open_file(client, fd as usize) {
        Some(f) => f.vnode == saved,
        None => false,
    }
}

/// What the answer to a deferred read leads to.
pub enum ReadAnswer {
    /// It belongs to somebody else.
    NotMine,
    /// Nobody waits for it any more.
    Drop,
    /// The reader is told that the read failed.
    Fail,
    /// A second call is needed; the record is kept until it is answered.
    Chain(KinfoView),
    /// The reader gets a part of this text.
    Show(Seq<u8>),
}

/// The kernel's figures at the time of the answer.
pub struct KernelFacts {
    pub info: SysInfo,
    pub cpus: Vec<SysCpu>,
}

/// The numbers of a reply about all processes.
pub open spec fn stats_of(regs: Seq<u64>) -> SystemStats {
    SystemStats { procs_total: regs[0], procs_running: regs[1], last_pid: regs[2] }
}

/// What the answer `c` leads to.
pub open spec fn read_answer(
    m: VfsModel,
    p: PoolView,
    c: &PendingBackendCompletion,
    f: &KernelFacts,
) -> ReadAnswer {
    let id = PendingOpId(c.op_id);
    let ok = c.succeeded();
    let regs = c.backend_reply.regs@;
    if !p.live(id) || (p.op(id).kind != PO_KIND_PROCFS_READ && p.op(id).kind
        != PO_KIND_PROCFS_PID_STAT) {
        ReadAnswer::NotMine
    } else if c.op_kind != BACKEND_OP_PROCFS_READ_PID_STAT_STAGE0 && !m.fd_still_leads_to(
        unpacked(c.ctx.client_handle_raw),
        fd_in_upper(c.ctx.data@[0]),
        unpacked(c.ctx.data@[1]),
    ) {
        ReadAnswer::Drop
    } else if c.op_kind == BACKEND_OP_PROCFS_READ_PID_STATUS {
        match c.payload@ {
            BackendPayloadView::Kinfo(k) => if ok {
                ReadAnswer::Show(pid_status_text(k))
            } else {
                ReadAnswer::Fail
            },
            _ => ReadAnswer::Fail,
        }
    } else if c.op_kind == BACKEND_OP_PROCFS_READ_PID_COMM {
        match c.payload@ {
            BackendPayloadView::Kinfo(k) => if ok {
                ReadAnswer::Show(pid_comm_text(k))
            } else {
                ReadAnswer::Fail
            },
            _ => ReadAnswer::Fail,
        }
    } else if c.op_kind == BACKEND_OP_PROCFS_READ_PID_STATM {
        match c.payload@ {
            BackendPayloadView::MemSnapshot(s) => if ok {
                ReadAnswer::Show(pid_statm_text(s))
            } else {
                ReadAnswer::Fail
            },
            _ => ReadAnswer::Fail,
        }
    } else if c.op_kind == BACKEND_OP_PROCFS_READ_PID_CMDLINE {
        if ok {
            match c.payload@ {
                BackendPayloadView::Bytes(b) => ReadAnswer::Show(prefix(b, regs[0] as int)),
                _ => ReadAnswer::Show(Seq::empty()),
            }
        } else {
            ReadAnswer::Fail
        }
    } else if c.op_kind == BACKEND_OP_PROCFS_READ_PID_STAT_STAGE0 {
        match c.payload@ {
            BackendPayloadView::Kinfo(k) => if ok {
                ReadAnswer::Chain(k)
            } else {
                ReadAnswer::Fail
            },
            _ => ReadAnswer::Fail,
        }
    } else if c.op_kind == BACKEND_OP_PROCFS_READ_PID_STAT_STAGE1 {
        let kept = p.op(id).payload_ref;
        if ok && kept < MAX_PAYLOAD_BUFS && p.payloads[kept as int] is Kinfo {
            ReadAnswer::Show(
                pid_stat_text(p.payloads[kept as int]->Kinfo_0, regs[0], regs[1], regs[2]),
            )
        } else {
            ReadAnswer::Fail
        }
    } else if c.op_kind == BACKEND_OP_PROCFS_READ_ROOT_STAT {
        if ok {
            ReadAnswer::Show(root_stat_text(f.info, f.cpus@, stats_of(regs)))
        } else {
            ReadAnswer::Fail
        }
    } else if c.op_kind == BACKEND_OP_PROCFS_READ_ROOT_LOADAVG {
        if ok {
            ReadAnswer::Show(loadavg_text(stats_of(regs)))
        } else {
            ReadAnswer::Fail
        }
    } else {
        ReadAnswer::NotMine
    }
}

/// The answer as executable code sees it.
enum Judged {
    NotMine,
    Drop,
    Fail,
    Chain(KinfoProc),
    Show(Vec<u8>),
}

/// The code's judgement is the answer, texts cut to what a file shows.
spec fn judged(j: Judged, a: ReadAnswer) -> bool {
    match a {
        ReadAnswer::NotMine => j is NotMine,
        ReadAnswer::Drop => j is Drop,
        ReadAnswer::Fail => j is Fail,
        ReadAnswer::Chain(k) => j is Chain && j->Chain_0@ == k,
        ReadAnswer::Show(t) => j is Show && j->Show_0@ == prefix(t, PROC_TEXT_MAX as int),
    }
}

fn succeeded(c: &PendingBackendCompletion) -> (r: bool)
    ensures
        r == c.succeeded(),
{
    c.backend_err == 0 && c.backend_reply.label == Status::Success
}

fn judge_by_payload(c: &PendingBackendCompletion) -> (r: Judged)
    requires
        c.op_kind == BACKEND_OP_PROCFS_READ_PID_STATUS || c.op_kind
            == BACKEND_OP_PROCFS_READ_PID_COMM || c.op_kind == BACKEND_OP_PROCFS_READ_PID_STATM
            || c.op_kind == BACKEND_OP_PROCFS_READ_PID_STAT_STAGE0,
    ensures
        match c.payload@ {
            BackendPayloadView::Kinfo(k) => if !c.succeeded() || c.op_kind
                == BACKEND_OP_PROCFS_READ_PID_STATM {
                r is Fail
            } else if c.op_kind == BACKEND_OP_PROCFS_READ_PID_STAT_STAGE0 {
                r is Chain && r->Chain_0@ == k
            } else if c.op_kind == BACKEND_OP_PROCFS_READ_PID_STATUS {
                r is Show && r->Show_0@ == prefix(pid_status_text(k), PROC_TEXT_MAX as int)
            } else {
                r is Show && r->Show_0@ == prefix(pid_comm_text(k), PROC_TEXT_MAX as int)
            },
            BackendPayloadView::MemSnapshot(s) => if c.succeeded() && c.op_kind
                == BACKEND_OP_PROCFS_READ_PID_STATM {
                r is Show && r->Show_0@ == prefix(pid_statm_text(s), PROC_TEXT_MAX as int)
            } else {
                r is Fail
            },
            _ => r is Fail,
        },
{
    if !succeeded(c) {
        return Judged::Fail;
    }
    match &c.payload {
        BackendPayload::Kinfo(k) => {
            if c.op_kind == BACKEND_OP_PROCFS_READ_PID_STATUS {
                Judged::Show(format_pid_status(k))
            } else if c.op_kind == BACKEND_OP_PROCFS_READ_PID_COMM {
                Judged::Show(format_pid_comm(k))
            } else if c.op_kind == BACKEND_OP_PROCFS_READ_PID_STAT_STAGE0 {
                Judged::Chain(k.duplicate())
            } else {
                Judged::Fail
            }
        },
        BackendPayload::MemSnapshot(s) => {
            if c.op_kind == BACKEND_OP_PROCFS_READ_PID_STATM {
                Judged::Show(format_pid_statm(s))
            } else {
                Judged::Fail
            }
        },
        _ => Judged::Fail,
    }
}

fn cmdline_text(c: &PendingBackendCompletion) -> (r: Vec<u8>)
    ensures
        r@ == prefix(
            (match c.payload@ {
                BackendPayloadView::Bytes(b) => prefix(b, c.backend_reply.regs@[0] as int),
                _ => Seq::empty(),
            }),
            PROC_TEXT_MAX as int,
        ),
{
    match &c.payload {
        BackendPayload::Bytes(b) => {
            let n: u64 = c.backend_reply.regs[0];
            let first: Vec<u8> = if n >= b.len() as u64 {
                copy_prefix(b.as_slice(), b.len())
            } else {
                copy_prefix(b.as_slice(), n as usize)
            };
            assert(first@ =~= prefix(b@, n as int));
            copy_prefix(first.as_slice(), PROC_TEXT_MAX)
        },
        _ => {
            let v: Vec<u8> = Vec::new();
            assert(v@ =~= prefix(Seq::<u8>::empty(), PROC_TEXT_MAX as int));
            v
        },
    }
}

fn judge(state: &VfsState, rpc: &RpcCore, c: &PendingBackendCompletion, f: &KernelFacts) -> (r:
    Judged)
    requires
        rpc.wf(),
    ensures
        judged(r, read_answer(state@, rpc.pool@, c, f)),
{
    let id = PendingOpId::from_raw(c.op_id);
    let op: PendingOp = match rpc.pool.get(id) {
        Some(op) => op,
        None => {
            return Judged::NotMine;
        },
    };
    if op.kind != PO_KIND_PROCFS_READ && op.kind != PO_KIND_PROCFS_PID_STAT {
        return Judged::NotMine;
    }
    if c.op_kind != BACKEND_OP_PROCFS_READ_PID_STAT_STAGE0 && !validate_pending_fd_vnode(
        state,
        unpack_handle(c.ctx.client_handle_raw),
        fd_in_upper(c.ctx.data[0]),
        unpack_handle(c.ctx.data[1]),
    ) {
        return Judged::Drop;
    }
    let k: BackendOpKind = c.op_kind;
    if k == BACKEND_OP_PROCFS_READ_PID_STATUS || k == BACKEND_OP_PROCFS_READ_PID_COMM || k
        == BACKEND_OP_PROCFS_READ_PID_STATM || k == BACKEND_OP_PROCFS_READ_PID_STAT_STAGE0 {
        return judge_by_payload(c);
    }
    if k == BACKEND_OP_PROCFS_READ_PID_CMDLINE {
        if !succeeded(c) {
            return Judged::Fail;
        }
        return Judged::Show(cmdline_text(c));
    }
    let s = SystemStats {
        procs_total: c.backend_reply.regs[0],
        procs_running: c.backend_reply.regs[1],
        last_pid: c.backend_reply.regs[2],
    };
    if k == BACKEND_OP_PROCFS_READ_PID_STAT_STAGE1 {
        if !succeeded(c) {
            return Judged::Fail;
        }
        return match rpc.pool.payload_bytes(op.payload_ref) {
            Some(Payload::Kinfo(kp)) => Judged::Show(
                format_pid_stat(
                    kp,
                    c.backend_reply.regs[0],
                    c.backend_reply.regs[1],
                    c.backend_reply.regs[2],
                ),
            ),
            _ => Judged::Fail,
        };
    }
    if k == BACKEND_OP_PROCFS_READ_ROOT_STAT {
        if !succeeded(c) {
            return Judged::Fail;
        }
        return Judged::Show(format_root_stat(&f.info, f.cpus.as_slice(), &s));
    }
    if k == BACKEND_OP_PROCFS_READ_ROOT_LOADAVG {
        if !succeeded(c) {
            return Judged::Fail;
        }
        return Judged::Show(format_root_loadavg(&s));
    }
    Judged::NotMine
}

/// The reply carries these bytes: their number first, then the bytes themselves.
pub open spec fn carries(r: Reply, bytes: Seq<u8>) -> bool {
    &&& r.label == Status::Success
    &&& r.length == 1 + regs_for(bytes.len() as int)
    &&& r.regs@[0] == bytes.len()
    &&& reg_bytes(r.regs@, 1, bytes.len() as int) == bytes
    &&& forall|i: int|
        1 + regs_for(bytes.len() as int) <= i < r.regs@.len() ==> r.regs@[i] == 0
}

/// A reply that carries bytes.
pub fn inline_reply(bytes: &[u8]) -> (r: Reply)
    requires
        bytes@.len() <= INLINE_READ_MAX,
    ensures
        carries(r, bytes@),
{
    let mut reply = Reply::bare(Status::Success);
    let n: usize = bytes.len();
    put_bytes(&mut reply.regs, 1, bytes);
    let ghost mid = reply.regs@;
    reply.regs[0] = n as u64;
    reply.length = 1 + ((n as u64 + 7) / 8);
    proof {
        assert forall|i: int| 0 <= i < n implies #[trigger] crate::wire::reg_byte(
            reply.regs@,
            1,
            i,
        ) == crate::wire::reg_byte(mid, 1, i) by {
            assert(reply.regs@[1 + i / 8] == mid[1 + i / 8]);
        }
        assert(reg_bytes(reply.regs@, 1, n as int) =~= reg_bytes(mid, 1, n as int));
    }
    reply
}

/// The part of a text that a deferred read asked for.
pub open spec fn asked_part(text: Seq<u8>, offset: u64, want: u64) -> Seq<u8> {
    part_of(
        prefix(text, PROC_TEXT_MAX as int),
        offset,
        least(want as int, INLINE_READ_MAX as int),
    )
}

/// What is to be done once an answer was handled.
pub enum ReadDone {
    /// The answer belongs to somebody else.
    NotMine,
    /// The kept reply is released; nobody waits for it.
    Dropped { release: u64 },
    /// The reader is told with this label that the read failed.
    Failed { reply_slot: u64, label: Status },
    /// Another call is queued and this worker is to be woken.
    Chained { worker: usize },
    /// The request was cancelled while it was answered; nothing is to be done.
    Cancelled,
    /// The reader gets its reply.
    Answered { reply_slot: u64, reply: Reply },
}

/// The table with a process record kept for operation `id` in buffer `i`.
pub open spec fn record_kept(p: PoolView, id: PendingOpId, i: u32, k: KinfoView) -> PoolView {
    PoolView {
        in_use: p.in_use.update(i as int, true),
        payloads: p.payloads.update(i as int, PayloadView::Kinfo(k)),
        payload_hint: ((i + 1) % MAX_PAYLOAD_BUFS as int) as u32,
        ..p.with_op(id, PendingOp { payload_ref: i, stage: 1, ..p.op(id) })
    }
}

/// The job asks for the times of the process that the answered job was about.
pub open spec fn is_times_job(job: PendingBackendJob, init_ep: u64, c: &PendingBackendCompletion) -> bool {
    &&& job.target_ep == init_ep
    &&& job.op_kind == BACKEND_OP_PROCFS_READ_PID_STAT_STAGE1
    &&& job.payload_out_bytes == 0
    &&& job.op_id == c.op_id
    &&& job.request.op == Opcode::InitGetProcTimes
    &&& job.request.length == 1
    &&& job.request.regs@ == zero_regs().update(0, (c.ctx.data@[4] as u32) as u64).update(1, 0)
    &&& job.ctx == (BackendOpCtx { stage: 1, ..c.ctx })
}

/// How a first answer about the times of a process leads to the second call.
pub open spec fn chain_outcome(
    pre: &RpcCore,
    post: &RpcCore,
    init_ep: u64,
    c: &PendingBackendCompletion,
    k: KinfoView,
    r: ReadDone,
) -> bool {
    let id = PendingOpId(c.op_id);
    let p = pre.pool@;
    if forall|i: int| 0 <= i < MAX_PAYLOAD_BUFS ==> #[trigger] p.in_use[i] {
        &&& r == (ReadDone::Failed {
            reply_slot: p.owed_reply(id),
            label: Status::InvalidOperation,
        })
        &&& post.pool@ == p.freed(id)
        &&& RpcCore::queue_unchanged(pre, post)
    } else {
        exists|i: u32|
            {
                let q = #[trigger] record_kept(p, id, i, k);
                let go = q.moved(id, OpState::Completing, OpState::Queued);
                &&& i < MAX_PAYLOAD_BUFS
                &&& first_from(
                    p.payload_hint as int,
                    i as int,
                    MAX_PAYLOAD_BUFS as int,
                    |j: int| !p.in_use[j],
                )
                &&& if p.op(id).state != OpState::Completing {
                    r is Cancelled && post.pool@ == q && RpcCore::queue_unchanged(pre, post)
                } else if pre.accepts() {
                    &&& r == (ReadDone::Chained { worker: pre.workers.turn() as usize })
                    &&& post.pool@ == go
                    &&& is_times_job(post.jobs@.last(), init_ep, c)
                    &&& RpcCore::enqueued(pre, post, post.jobs@.last())
                } else {
                    &&& r == (ReadDone::Failed {
                        reply_slot: p.owed_reply(id),
                        label: Status::InvalidOperation,
                    })
                    &&& post.pool@ == go.freed(id)
                    &&& RpcCore::queue_unchanged(pre, post)
                }
            }
    }
}

fn chain_times(rpc: &mut RpcCore, init_ep: u64, c: &PendingBackendCompletion, k: KinfoProc) -> (r:
    ReadDone)
    requires
        old(rpc).wf(),
        old(rpc).pool@.live(PendingOpId(c.op_id)),
    ensures
        final(rpc).wf(),
        chain_outcome(old(rpc), final(rpc), init_ep, c, k@, r),
{
    let id = PendingOpId::from_raw(c.op_id);
    let ghost p = rpc.pool@;
    let ghost kv = k@;
    let i: u32 = match rpc.pool.alloc_payload() {
        Some(i) => i,
        None => {
            let reply_slot: u64 = rpc.pool.take_reply_and_free(id);
            return ReadDone::Failed { reply_slot, label: Status::InvalidOperation };
        },
    };
    assert(!p.in_use[i as int]);
    let _ = rpc.pool.set_payload(i, Payload::Kinfo(k));
    match rpc.pool.get_mut(id) {
        Some(op) => {
            op.payload_ref = i;
            op.stage = 1;
        },
        None => {},
    }
    let ghost q = record_kept(p, id, i, kv);
    assert(rpc.pool@ =~= q);
    if !rpc.pool.requeue(id) {
        return ReadDone::Cancelled;
    }
    let mut ctx = c.ctx;
    ctx.stage = 1;
    let pid: u32 = c.ctx.data[4] as u32;
    let job = PendingBackendJob {
        target_ep: init_ep,
        op_kind: BACKEND_OP_PROCFS_READ_PID_STAT_STAGE1,
        payload_out_bytes: 0,
        op_id: c.op_id,
        request: request_with(Opcode::InitGetProcTimes, 1, pid as u64, 0),
        ctx,
    };
    match rpc.try_enqueue_job(job) {
        Some(worker) => {
            assert(rpc.jobs@.last() == job);
            ReadDone::Chained { worker }
        },
        None => {
            let reply_slot: u64 = rpc.pool.take_reply_and_free(id);
            ReadDone::Failed { reply_slot, label: Status::InvalidOperation }
        },
    }
}

/// What becomes of the answer to a deferred read.
pub open spec fn read_taken(
    m: VfsModel,
    post: VfsModel,
    before: &RpcCore,
    after: &RpcCore,
    init_ep: u64,
    c: &PendingBackendCompletion,
    f: &KernelFacts,
    r: ReadDone,
) -> bool {
    let id = PendingOpId(c.op_id);
    let p = before.pool@;
    let owed = p.owed_reply(id);
    match read_answer(m, p, c, f) {
        ReadAnswer::NotMine => r is NotMine && *after == *before && post
            == m,
        ReadAnswer::Drop => {
            &&& r == (ReadDone::Dropped { release: owed })
            &&& after.pool@ == p.freed(id)
            &&& RpcCore::queue_unchanged(before, after)
            &&& post == m
        },
        ReadAnswer::Fail => {
            &&& r == (ReadDone::Failed { reply_slot: owed, label: Status::InvalidOperation })
            &&& after.pool@ == p.freed(id)
            &&& RpcCore::queue_unchanged(before, after)
            &&& post == m
        },
        ReadAnswer::Chain(k) => chain_outcome(before, after, init_ep, c, k, r)
            && post == m,
        ReadAnswer::Show(text) => {
            let part = asked_part(text, c.ctx.data@[2], c.ctx.data@[3]);
            &&& r is Answered
            &&& r->Answered_reply_slot == owed
            &&& carries(r->Answered_reply, part)
            &&& after.pool@ == p.freed(id)
            &&& RpcCore::queue_unchanged(before, after)
            &&& post == (if c.ctx.data@[5] != 0 {
                m
            } else {
                m.position_moved(
                    unpacked(c.ctx.client_handle_raw),
                    fd_in_upper(c.ctx.data@[0]) as int,
                    part.len() as u64,
                )
            })
        },
    }
}

/// Acts on the answer to a deferred read: the reader gets its part of the text, or is told
/// that the read failed, or, where a second call is needed, goes on waiting. An answer
/// whose descriptor has been closed or reopened elsewhere is dropped.
pub fn complete_procfs_read(
    state: &mut VfsState,
    rpc: &mut RpcCore,
    init_ep: u64,
    c: &PendingBackendCompletion,
    f: &KernelFacts,
) -> (r: ReadDone)
    requires
        old(rpc).wf(),
    ensures
        final(rpc).wf(),
        read_taken(old(state)@, final(state)@, old(rpc), final(rpc), init_ep, c, f, r),
{
    let id = PendingOpId::from_raw(c.op_id);
    match judge(state, rpc, c, f) {
        Judged::NotMine => ReadDone::NotMine,
        Judged::Drop => {
            let release: u64 = rpc.pool.take_reply_and_free(id);
            ReadDone::Dropped { release }
        },
        Judged::Fail => {
            let reply_slot: u64 = rpc.pool.take_reply_and_free(id);
            ReadDone::Failed { reply_slot, label: Status::InvalidOperation }
        },
        Judged::Chain(k) => chain_times(rpc, init_ep, c, k),
        Judged::Show(text) => {
            let reply_slot: u64 = rpc.pool.take_reply_and_free(id);
            let want: u64 = c.ctx.data[3];
            let cap: usize = if want <= INLINE_READ_MAX as u64 {
                want as usize
            } else {
                INLINE_READ_MAX
            };
            let part: Vec<u8> = read_part(text.as_slice(), c.ctx.data[2], cap);
            let reply = inline_reply(part.as_slice());
            if c.ctx.data[5] == 0 {
                let client = unpack_handle(c.ctx.client_handle_raw);
                let fd: usize = fd_in_upper(c.ctx.data[0]) as usize;
                if let Some(of) = state.client_open_file(client, fd) {
                    let mut moved = of;
                    moved.offset = of.offset.saturating_add(part.len() as u64);
                    let _ = state.set_client_open_file(client, fd, moved);
                }
            }
            ReadDone::Answered { reply_slot, reply }
        },
    }
}

// ---- links -------------------------------------------------------------------------

/// The job asks for the program of a process.
pub open spec fn is_link_job(
    m: VfsModel,
    job: PendingBackendJob,
    init_ep: u64,
    client: Handle,
    vnode: Handle,
    pid: u32,
) -> bool {
    &&& job.target_ep == init_ep
    &&& job.op_kind == BACKEND_OP_PROCFS_READLINK_PID_EXE
    &&& job.payload_out_bytes == 0
    &&& job.request.op == Opcode::InitGetExePath
    &&& job.request.length == 1
    &&& job.request.regs@ == zero_regs().update(0, pid as u64).update(1, 0)
    &&& job.ctx.badge == badge_of(m, client)
    &&& job.ctx.client_handle_raw == packed(client)
    &&& job.ctx.stage == 0
    &&& job.ctx.data@ == seq![0u64, packed(vnode), 0u64, 0u64, pid as u64, 0u64]
}

/// Defers following the link to a program.
pub fn defer_procfs_readlink(
    state: &VfsState,
    rpc: &mut RpcCore,
    init_ep: u64,
    client: Handle,
    vnode: Handle,
    pid: u32,
    reply_slot: Option<u64>,
) -> (r: Deferral)
    requires
        old(rpc).wf(),
    ensures
        final(rpc).wf(),
        match r {
            Deferral::Unsaved => reply_slot is None && *final(rpc) == *old(rpc),
            Deferral::Queued { worker } => {
                &&& reply_slot is Some
                &&& worker == old(rpc).workers.turn()
                &&& is_link_job(
                    state@,
                    final(rpc).jobs@.last(),
                    init_ep,
                    client,
                    vnode,
                    pid,
                )
                &&& RpcCore::call_queued(
                    old(rpc),
                    final(rpc),
                    PendingOpId(final(rpc).jobs@.last().op_id),
                    PO_KIND_PROCFS_READLINK,
                    badge_of(state@, client),
                    client,
                    reply_slot->0,
                    final(rpc).jobs@.last(),
                )
            },
            Deferral::Inline { release } => reply_slot == Some(release) && RpcCore::call_refused(
                old(rpc),
                final(rpc),
                PO_KIND_PROCFS_READLINK,
                badge_of(state@, client),
                client,
                release,
            ),
        },
        r is Queued <==> reply_slot is Some && old(rpc).accepts() && !table_full(old(rpc).pool@),
{
    let slot: u64 = match reply_slot {
        Some(s) => s,
        None => {
            return Deferral::Unsaved;
        },
    };
    let badge: u64 = client_badge(state, client);
    let job = PendingBackendJob {
        target_ep: init_ep,
        op_kind: BACKEND_OP_PROCFS_READLINK_PID_EXE,
        payload_out_bytes: 0,
        op_id: 0,
        request: request_with(Opcode::InitGetExePath, 1, pid as u64, 0),
        ctx: BackendOpCtx {
            badge,
            client_handle_raw: crate::pending_ops::pack_client_handle(client),
            stage: 0,
            data: [0, crate::arena::pack_handle(vnode), 0, 0, pid as u64, 0],
        },
    };
    match rpc.start_call(PO_KIND_PROCFS_READLINK, badge, client, slot, job) {
        Some((id, worker)) => Deferral::Queued { worker },
        None => Deferral::Inline { release: slot },
    }
}

/// What is to be done once the answer to a deferred request was handled.
pub enum Done {
    /// The answer belongs to somebody else.
    NotMine,
    /// The kept reply is released; nobody waits for it.
    Dropped { release: u64 },
    /// The caller gets this reply.
    Answered { reply_slot: u64, reply: Reply },
}

/// The answer belongs to a waiting operation of `kind` that made call `call`.
pub open spec fn answers(
    p: PoolView,
    c: &PendingBackendCompletion,
    call: BackendOpKind,
    kind: PendingOpKind,
) -> bool {
    c.op_kind == call && p.live(PendingOpId(c.op_id)) && p.op(PendingOpId(c.op_id)).kind == kind
}

/// A reply without registers that says `label`.
pub open spec fn is_bare(r: Reply, label: Status) -> bool {
    r.label == label && r.length == 0 && r.regs@ == zero_regs()
}

/// What becomes of the answer to a deferred link.
pub open spec fn link_taken(
    before: &RpcCore,
    after: &RpcCore,
    c: &PendingBackendCompletion,
    r: Done,
) -> bool {
    let p = before.pool@;
    let id = PendingOpId(c.op_id);
    if !answers(p, c, BACKEND_OP_PROCFS_READLINK_PID_EXE, PO_KIND_PROCFS_READLINK) {
        r is NotMine && *after == *before
    } else {
        &&& after.pool@ == p.freed(id)
        &&& r is Answered
        &&& r->Answered_reply_slot == p.owed_reply(id)
        &&& if c.succeeded() {
            carries(
                r->Answered_reply,
                reg_bytes(
                    c.backend_reply.regs@,
                    1,
                    least(c.backend_reply.regs@[0] as int, INLINE_READ_MAX as int),
                ),
            )
        } else {
            is_bare(r->Answered_reply, Status::InvalidOperation)
        }
    }
}

/// Acts on the answer to a deferred link: the caller gets the path of the program, as much
/// of it as the registers hold.
pub fn complete_procfs_readlink(rpc: &mut RpcCore, c: &PendingBackendCompletion) -> (r: Done)
    requires
        old(rpc).wf(),
    ensures
        final(rpc).wf(),
        RpcCore::queue_unchanged(old(rpc), final(rpc)),
        link_taken(old(rpc), final(rpc), c, r),
{
    if c.op_kind != BACKEND_OP_PROCFS_READLINK_PID_EXE {
        return Done::NotMine;
    }
    let id = PendingOpId::from_raw(c.op_id);
    match rpc.pool.get(id) {
        Some(op) => {
            if op.kind != PO_KIND_PROCFS_READLINK {
                return Done::NotMine;
            }
        },
        None => {
            return Done::NotMine;
        },
    }
    let reply_slot: u64 = rpc.pool.take_reply_and_free(id);
    if !succeeded(c) {
        return Done::Answered { reply_slot, reply: Reply::bare(Status::InvalidOperation) };
    }
    let n: u64 = c.backend_reply.regs[0];
    let actual: usize = if n <= INLINE_READ_MAX as u64 {
        n as usize
    } else {
        INLINE_READ_MAX
    };
    let path: Vec<u8> = get_bytes(&c.backend_reply.regs, 1, actual);
    Done::Answered { reply_slot, reply: inline_reply(path.as_slice()) }
}

// ---- listings ----------------------------------------------------------------------

/// The job asks for the process at a place among all processes.
pub open spec fn is_list_job(
    m: VfsModel,
    job: PendingBackendJob,
    init_ep: u64,
    client: Handle,
    fd: i32,
    dir: Handle,
    cursor: u64,
    place: u64,
) -> bool {
    &&& job.target_ep == init_ep
    &&& job.op_kind == BACKEND_OP_PROCFS_READDIR_PIDS
    &&& job.payload_out_bytes == 4
    &&& job.request.op == Opcode::InitListPidsBuf
    &&& job.request.length == 2
    &&& job.request.regs@ == zero_regs().update(0, place).update(1, 1)
    &&& job.ctx.badge == badge_of(m, client)
    &&& job.ctx.client_handle_raw == packed(client)
    &&& job.ctx.stage == 0
    &&& job.ctx.data@ == seq![fd as u32 as u64, packed(dir), cursor, 0u64, 0u64, 0u64]
}

/// Defers listing the process at a place of the root directory.
pub fn defer_procfs_readdir(
    state: &VfsState,
    rpc: &mut RpcCore,
    init_ep: u64,
    client: Handle,
    fd: i32,
    dir: Handle,
    cursor: u64,
    place: u64,
    reply_slot: Option<u64>,
) -> (r: Deferral)
    requires
        old(rpc).wf(),
    ensures
        final(rpc).wf(),
        match r {
            Deferral::Unsaved => reply_slot is None && *final(rpc) == *old(rpc),
            Deferral::Queued { worker } => {
                &&& reply_slot is Some
                &&& worker == old(rpc).workers.turn()
                &&& is_list_job(
                    state@,
                    final(rpc).jobs@.last(),
                    init_ep,
                    client,
                    fd,
                    dir,
                    cursor,
                    place,
                )
                &&& RpcCore::call_queued(
                    old(rpc),
                    final(rpc),
                    PendingOpId(final(rpc).jobs@.last().op_id),
                    PO_KIND_PROCFS_READDIR,
                    badge_of(state@, client),
                    client,
                    reply_slot->0,
                    final(rpc).jobs@.last(),
                )
            },
            Deferral::Inline { release } => reply_slot == Some(release) && RpcCore::call_refused(
                old(rpc),
                final(rpc),
                PO_KIND_PROCFS_READDIR,
                badge_of(state@, client),
                client,
                release,
            ),
        },
        r is Queued <==> reply_slot is Some && old(rpc).accepts() && !table_full(old(rpc).pool@),
{
    let slot: u64 = match reply_slot {
        Some(s) => s,
        None => {
            return Deferral::Unsaved;
        },
    };
    let badge: u64 = client_badge(state, client);
    let job = PendingBackendJob {
        target_ep: init_ep,
        op_kind: BACKEND_OP_PROCFS_READDIR_PIDS,
        payload_out_bytes: 4,
        op_id: 0,
        request: request_with(Opcode::InitListPidsBuf, 2, place, 1),
        ctx: BackendOpCtx {
            badge,
            client_handle_raw: crate::pending_ops::pack_client_handle(client),
            stage: 0,
            data: [fd as u32 as u64, crate::arena::pack_handle(dir), cursor, 0, 0, 0],
        },
    };
    match rpc.start_call(PO_KIND_PROCFS_READDIR, badge, client, slot, job) {
        Some((id, worker)) => Deferral::Queued { worker },
        None => Deferral::Inline { release: slot },
    }
}

/// The descriptor in the lower half of a word.
#[verifier::allow_in_spec]
pub fn fd_in_lower(word: u64) -> (r: i32)
    returns
        (word as u32 as i32),
{
    word as u32 as i32
}

/// The process that an answer names; one that came without a payload names none.
pub open spec fn answered_pid(p: BackendPayloadView) -> u32 {
    match p {
        BackendPayloadView::Pid(p) => p,
        _ => 0,
    }
}

/// The reply lists a process: length of the name, a zero, inode number, type, name.
pub open spec fn lists_pid(r: Reply, pid: u32) -> bool {
    let name = decimal(pid as nat);
    &&& r.label == Status::Success
    &&& r.length == 5 + regs_for(name.len() as int)
    &&& r.regs@[0] == name.len()
    &&& r.regs@[1] == 0
    &&& r.regs@[2] == proc_inode(ProcNodeKind::PidDir, pid)
    &&& r.regs@[3] == DT_DIR
    &&& reg_bytes(r.regs@, 4, name.len() as int) == name
    &&& forall|i: int| 4 + regs_for(name.len() as int) <= i < r.regs@.len() ==> r.regs@[i] == 0
}

/// The number of digits of a number below ten to the power of ten.
proof fn lemma_short_decimal(n: nat, k: nat)
    requires
        n < vstd::arithmetic::power::pow(10, k),
        k >= 1,
    ensures
        1 <= decimal(n).len() <= k,
    decreases k,
{
    if n >= 10 {
        assert(k > 1) by {
            vstd::arithmetic::power::lemma_pow1(10);
        }
        assert(vstd::arithmetic::power::pow(10, k) == 10 * vstd::arithmetic::power::pow(
            10,
            (k - 1) as nat,
        )) by {
            reveal(vstd::arithmetic::power::pow);
        }
        lemma_short_decimal(n / 10, (k - 1) as nat);
    }
}

fn pid_reply(pid: u32) -> (r: Reply)
    ensures
        lists_pid(r, pid),
{
    let mut name: Vec<u8> = Vec::new();
    push_decimal(&mut name, pid as u64);
    assert(name@ =~= decimal(pid as nat));
    proof {
        assert(vstd::arithmetic::power::pow(10, 10) == 10_000_000_000) by {
            reveal_with_fuel(vstd::arithmetic::power::pow, 12);
        }
        lemma_short_decimal(pid as nat, 10);
    }
    let n: usize = name.len();
    let mut reply = Reply::bare(Status::Success);
    put_bytes(&mut reply.regs, 4, name.as_slice());
    let ghost mid = reply.regs@;
    reply.regs[0] = n as u64;
    reply.regs[1] = 0;
    reply.regs[2] = proc_inode(ProcNodeKind::PidDir, pid);
    reply.regs[3] = DT_DIR as u64;
    reply.length = 5 + ((n as u64 + 7) / 8);
    proof {
        assert forall|i: int| 0 <= i < n implies #[trigger] crate::wire::reg_byte(
            reply.regs@,
            4,
            i,
        ) == crate::wire::reg_byte(mid, 4, i) by {
            assert(reply.regs@[4 + i / 8] == mid[4 + i / 8]);
        }
        assert(reg_bytes(reply.regs@, 4, n as int) =~= reg_bytes(mid, 4, n as int));
    }
    reply
}

impl VfsModel {
    /// The state with the listing of descriptor `fd` moved to a cursor, where the descriptor
    /// is a directory's.
    pub open spec fn listing_moved(self, client: Handle, fd: int, state: u8, cursor: u64) -> VfsModel {
        match self.file_of(client, fd) {
            Some(f) => if f.kind == ObjKind::Directory {
                VfsModel {
                    open_files: self.open_files.put(
                        self.slot_of(client, fd)->0.open_file,
                        OpenFile { dir_cursor_state: state, dir_cursor: cursor, ..f },
                    ),
                    ..self
                }
            } else {
                self
            },
            None => self,
        }
    }
}

fn move_listing(state: &mut VfsState, client: Handle, fd: usize, to: u8, cursor: u64) -> (r: bool)
    ensures
        final(state)@ == old(state)@.listing_moved(client, fd as int, to, cursor),
        r == (match old(state)@.file_of(client, fd as int) {
            Some(f) => f.kind == ObjKind::Directory,
            None => false,
        }),
{
    match state.client_open_file(client, fd) {
        Some(f) => {
            if f.kind != ObjKind::Directory {
                return false;
            }
            let mut moved = f;
            moved.dir_cursor_state = to;
            moved.dir_cursor = cursor;
            let _ = state.set_client_open_file(client, fd, moved);
            true
        },
        None => false,
    }
}

/// The answer `c` is to a deferred listing that still has its descriptor, and names one more
/// process.
pub open spec fn listing_goes_on(m: VfsModel, p: PoolView, c: &PendingBackendCompletion) -> bool {
    &&& answers(p, c, BACKEND_OP_PROCFS_READDIR_PIDS, PO_KIND_PROCFS_READDIR)
    &&& m.fd_still_leads_to(
        unpacked(c.ctx.client_handle_raw),
        fd_in_lower(c.ctx.data@[0]),
        unpacked(c.ctx.data@[1]),
    )
    &&& c.succeeded()
    &&& c.backend_reply.regs@[0] != 0
}

/// What becomes of the answer to a deferred listing.
pub open spec fn listing_taken(
    m: VfsModel,
    post: VfsModel,
    before: &RpcCore,
    after: &RpcCore,
    c: &PendingBackendCompletion,
    r: Done,
) -> bool {
    let p = before.pool@;
    let id = PendingOpId(c.op_id);
    let client = unpacked(c.ctx.client_handle_raw);
    let fd = fd_in_lower(c.ctx.data@[0]);
    let next = (c.ctx.data@[2] + 1) as u64;
    if !answers(p, c, BACKEND_OP_PROCFS_READDIR_PIDS, PO_KIND_PROCFS_READDIR) {
        r is NotMine && *after == *before && post == m
    } else if !m.fd_still_leads_to(client, fd, unpacked(c.ctx.data@[1])) {
        &&& r == (Done::Dropped { release: p.owed_reply(id) })
        &&& after.pool@ == p.freed(id)
        &&& post == m
    } else {
        &&& after.pool@ == p.freed(id)
        &&& r is Answered
        &&& r->Answered_reply_slot == p.owed_reply(id)
        &&& if !c.succeeded() {
            is_bare(r->Answered_reply, Status::InvalidOperation) && post == m
        } else if c.backend_reply.regs@[0] == 0 {
            &&& r->Answered_reply.label == Status::Success
            &&& r->Answered_reply.length == 1
            &&& r->Answered_reply.regs@ == zero_regs()
            &&& post == m.listing_moved(client, fd as int, DIR_CURSOR_EOF, 0)
        } else {
            &&& post == m.listing_moved(
                client,
                fd as int,
                DIR_CURSOR_BACKEND,
                next,
            )
            &&& if m.file_of(client, fd as int)->0.kind == ObjKind::Directory {
                lists_pid(r->Answered_reply, answered_pid(c.payload@))
            } else {
                is_bare(r->Answered_reply, Status::InvalidArgument)
            }
        }
    }
}

/// Acts on the answer to a deferred listing: the caller gets the next process, or the
/// listing ends. An answer whose descriptor has been closed or reopened elsewhere is
/// dropped.
pub fn complete_procfs_readdir(
    state: &mut VfsState,
    rpc: &mut RpcCore,
    c: &PendingBackendCompletion,
) -> (r: Done)
    requires
        old(rpc).wf(),
        listing_goes_on(old(state)@, old(rpc).pool@, c) ==> c.ctx.data@[2] < u64::MAX,
    ensures
        final(rpc).wf(),
        RpcCore::queue_unchanged(old(rpc), final(rpc)),
        listing_taken(old(state)@, final(state)@, old(rpc), final(rpc), c, r),
{
    if c.op_kind != BACKEND_OP_PROCFS_READDIR_PIDS {
        return Done::NotMine;
    }
    let id = PendingOpId::from_raw(c.op_id);
    match rpc.pool.get(id) {
        Some(op) => {
            if op.kind != PO_KIND_PROCFS_READDIR {
                return Done::NotMine;
            }
        },
        None => {
            return Done::NotMine;
        },
    }
    let client = unpack_handle(c.ctx.client_handle_raw);
    let fd: i32 = fd_in_lower(c.ctx.data[0]);
    let still: bool = validate_pending_fd_vnode(state, client, fd, unpack_handle(c.ctx.data[1]));
    let reply_slot: u64 = rpc.pool.take_reply_and_free(id);
    if !still {
        return Done::Dropped { release: reply_slot };
    }
    if !succeeded(c) {
        return Done::Answered { reply_slot, reply: Reply::bare(Status::InvalidOperation) };
    }
    let fd: usize = fd as usize;
    if c.backend_reply.regs[0] == 0 {
        let _ = move_listing(state, client, fd, DIR_CURSOR_EOF, 0);
        let mut reply = Reply::bare(Status::Success);
        reply.length = 1;
        return Done::Answered { reply_slot, reply };
    }
    if !move_listing(state, client, fd, DIR_CURSOR_BACKEND, c.ctx.data[2] + 1) {
        return Done::Answered { reply_slot, reply: Reply::bare(Status::InvalidArgument) };
    }
    let pid: u32 = match &c.payload {
        BackendPayload::Pid(p) => *p,
        _ => 0,
    };
    Done::Answered { reply_slot, reply: pid_reply(pid) }
}

/// Every answer is settled exactly once: whatever became of it, its operation owes no reply
/// afterwards unless a second call is on its way, and a second answer to the same operation
/// is nobody's.
pub proof fn law_answers_are_settled_once(
    p: PoolView,
    c: &PendingBackendCompletion,
    call: BackendOpKind,
    kind: PendingOpKind,
)
    requires
        pool_wf(p),
        answers(p, c, call, kind),
    ensures
        p.freed(PendingOpId(c.op_id)).owed_reply(PendingOpId(c.op_id)) == 0,
        !answers(p.freed(PendingOpId(c.op_id)), c, call, kind),
{
}

} // verus!
