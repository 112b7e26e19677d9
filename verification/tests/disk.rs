//! The filesystem on disk: requests to its server, and what its answers change.

use vfs::arena::Handle;
use vfs::backend_rpc::{
    BackendPayload, PendingBackendCompletion, Progress, RpcCore, BACKEND_OP_SALTYFS_LOOKUP_CHILD,
    BACKEND_OP_SALTYFS_SETMODE, BACKEND_OP_SALTYFS_SETOWNER,
};
use vfs::continuation::{adopt_deferred_op_for_continuation, Adoption};
use vfs::files::{O_RDONLY, O_WRONLY};
use vfs::fs::saltyfs::{
    alloc_saltyfs_mount, apply_attr_snapshot, effective_saltyfs_flags, find_child_node_handle_by_name,
    mark_cached_child_unlinked, materialize_child_vnode, materialize_snapshot_child,
    note_cached_child_renamed, parse_saltyfs_opts, refresh_vnode_attrs, release_saltyfs_mount,
    saltyfs_remount, to_nanos, update_symlink_payload, DiskAnswers,
};
use vfs::fs::saltyfs_done::{complete_saltyfs_op, DiskDone};
use vfs::fs::saltyfs_ops::{
    create_regular_child, ensure_dir_child, ensure_symlink_target, lookup_child, mkdir_child, read_regular_call,
    read_regular_done, readdir_call, readdir_done, remove_child, rename_child, set_mode_vnode,
    setattr_kind, symlink_child, truncate_vnode, validate_open_regular, write_regular_call,
    write_vnode, DirStep,
};
use vfs::fs::saltyfs_wire::{
    call_outcome, choose_read_transfer, encode_transfer, lookup_outcome, mode_to_vtype, name_request,
    open_session_request, owner_word, parse_attr_snapshot, parse_lookup_snapshot, read_dir_entry,
    readdir_dtype, readlink_outcome, rename_request, resolve_request, session_outcome, shm_next,
    shm_request, stat_outcome, word_outcome, AttrSnapshot, LookupSnapshot, SessionReply, ShmStep,
    StatSnapshot, Transfer, SETATTR_MASK_GID, SETATTR_MASK_MODE, SETATTR_MASK_UID,
};
use vfs::identity::BackendNodeId;
use vfs::mount::{MNT_NOATIME, MNT_RDONLY};
use vfs::namei_state::namei_aux_none;
use vfs::pending_ops::{PendingOpId, ReplyAction, PO_KIND_MKDIR_CONT, PO_KIND_OPEN_CONT, PO_KIND_UNLINK_CONT};
use vfs::state::{Effect, Services, VfsState};
use vfs::status::Status;
use vfs::vnode::{VnodeType, DT_DIR, DT_REG, S_IFDIR, S_IFLNK, S_IFREG};
use vfs::wire::{get_bytes, put_bytes, Opcode, Reply};

fn stat(mode: u32) -> StatSnapshot {
    StatSnapshot { size: 10, mode, nlink: 1, mtime: 3, blocks: 2, uid: 5, gid: 6, seq: 1 }
}

fn answers() -> DiskAnswers {
    DiskAnswers {
        endpoint: Ok(90),
        session: Ok(SessionReply {
            session_id: 4,
            max_inflight: 8,
            root_node: BackendNodeId { ino: 2, seq: 1 },
            feature_bits: 0,
        }),
        root: Some(stat(S_IFDIR | 0o755)),
        shm_ready: false,
    }
}

fn mounted() -> (VfsState, RpcCore, Handle, Handle) {
    let s = Services { ttysrv_ep: 0, netsrv_ep: 0, netsrv_callback_ep: 0 };
    let mut st = VfsState::new(s).unwrap();
    let m = alloc_saltyfs_mount(&mut st, b"/", 0, b"", &answers()).unwrap();
    let root = st.mounts.get(m).unwrap().root_vnode;
    let mut rpc = RpcCore::new();
    rpc.workers.spawned = 1;
    (st, rpc, m, root)
}

fn snap(ino: u64, mode: u32) -> LookupSnapshot {
    LookupSnapshot {
        ino,
        seq: 1,
        mode,
        size: 10,
        nlink: 1,
        mtime: 3,
        uid: 5,
        gid: 6,
        dir_type: 0,
        blocks: 2,
    }
}

fn lookup_reply(ino: u64, mode: u32) -> Reply {
    let mut r = Reply::bare(Status::Success);
    r.length = 10;
    r.regs[0] = ino;
    r.regs[1] = 1;
    r.regs[2] = mode as u64;
    r.regs[3] = 10;
    r.regs[4] = 1;
    r
}

fn answer(rpc: &mut RpcCore, err: u64, reply: Reply) -> PendingBackendCompletion {
    let job = rpc.jobs.pop().unwrap();
    let id = PendingOpId::from_raw(job.op_id);
    assert!(rpc.pool.mark_running(id));
    assert!(rpc.pool.try_complete(id));
    PendingBackendCompletion {
        op_kind: job.op_kind,
        op_id: job.op_id,
        backend_err: err,
        backend_reply: reply,
        ctx: job.ctx,
        payload: BackendPayload::Empty,
    }
}

fn adopt(rpc: &mut RpcCore, op: PendingOpId, kind: u8) {
    let a = adopt_deferred_op_for_continuation(
        &mut rpc.pool,
        op,
        kind,
        7,
        Handle { slot: 1, epoch: 0 },
        Some(40),
        b"/a",
        namei_aux_none(),
    );
    assert!(matches!(a, Adoption::Adopted));
}

#[test]
fn options_set_flags() {
    let o = parse_saltyfs_opts(b"ro,noatime");
    assert_eq!((o.readonly, o.noatime), (Some(true), Some(true)));
    let o = parse_saltyfs_opts(b"rw,atime");
    assert_eq!((o.readonly, o.noatime), (Some(false), Some(false)));
    assert_eq!(effective_saltyfs_flags(0, b"ro"), MNT_RDONLY);
    assert_eq!(
        effective_saltyfs_flags(MNT_RDONLY | MNT_NOATIME, b"rw"),
        MNT_RDONLY | MNT_NOATIME
    );
    assert_eq!(to_nanos(3), 3_000_000_000);
    assert_eq!(to_nanos(u64::MAX), u64::MAX);
}

#[test]
fn requests_carry_words_and_names() {
    let q = name_request(Opcode::BackendLookup, 9, b"file");
    assert_eq!((q.op, q.regs[0], q.regs[1]), (Opcode::BackendLookup, 9, 4));
    assert_eq!(get_bytes(&q.regs, 2, 4), b"file".to_vec());
    let q = rename_request(1, b"a", 2, b"bb");
    assert_eq!(q.op, Opcode::BackendRename);
    assert_eq!(owner_word(1, 2), 0x2_0000_0001);
    assert_eq!(open_session_request(5).op, Opcode::BackendOpenSession);
    assert_eq!(resolve_request().op, Opcode::NamesrvLookup);
    assert_eq!(choose_read_transfer(false, 1000), Transfer::Inline { len: 152 });
    assert_eq!(choose_read_transfer(true, 1000), Transfer::Shm { offset: 0, len: 1000 });
    assert_eq!(choose_read_transfer(true, 10), Transfer::Inline { len: 10 });
    assert_eq!(encode_transfer(Transfer::Shm { offset: 3, len: 9 }), (1, 3, 9));
}

#[test]
fn answers_are_read() {
    assert_eq!(call_outcome(1, Status::Success), Status::IoError);
    assert_eq!(call_outcome(0, Status::NotFound), Status::NotFound);
    let r = lookup_reply(12, S_IFREG | 0o644);
    assert_eq!(lookup_outcome(0, &r).unwrap().unwrap().ino, 12);
    assert_eq!(lookup_outcome(0, &Reply::bare(Status::NotFound)), Ok(None));
    assert_eq!(lookup_outcome(3, &r), Err(Status::IoError));
    assert_eq!(parse_lookup_snapshot(&r).unwrap().mode, S_IFREG | 0o644);
    assert!(parse_lookup_snapshot(&Reply::bare(Status::Success)).is_none());
    let mut a = Reply::bare(Status::Success);
    a.length = 7;
    a.regs[0] = 0o600;
    assert_eq!(parse_attr_snapshot(&a).unwrap().mode, 0o600);
    a.length = 6;
    assert!(parse_attr_snapshot(&a).is_none());
    assert_eq!(stat_outcome(0, &Reply::bare(Status::Busy)), Err(Status::Busy));
    a.regs[0] = 77;
    assert_eq!(word_outcome(0, &a), Ok(77));
    let mut l = Reply::bare(Status::Success);
    l.regs[0] = 4;
    put_bytes(&mut l.regs, 1, b"/usr");
    assert_eq!(readlink_outcome(0, &l), Ok(b"/usr".to_vec()));
    let mut s = Reply::bare(Status::AlreadyExists);
    s.regs[0] = (8u64 << 32) | 4;
    s.regs[1] = 2;
    let s = session_outcome(0, &s).unwrap();
    assert_eq!((s.session_id, s.max_inflight, s.root_node.ino), (4, 8, 2));
    assert_eq!(session_outcome(0, &Reply::bare(Status::Busy)), Err(Status::Busy));
}

#[test]
fn types_come_from_the_mode() {
    assert_eq!(mode_to_vtype(S_IFDIR | 0o755, 0), VnodeType::Dir);
    assert_eq!(mode_to_vtype(S_IFREG, 0), VnodeType::Reg);
    assert_eq!(readdir_dtype(S_IFDIR, 0), DT_DIR);
    assert_eq!(readdir_dtype(0, DT_REG), DT_REG);
    let mut e = [0u8; 96];
    e[0] = 9;
    e[1] = 1;
    e[33] = 0x41;
    e[48] = 4;
    e[49] = 3;
    e[52..55].copy_from_slice(b"abc");
    let d = read_dir_entry(&e);
    assert_eq!((d.ino, d.mode, d.d_type, d.name), (265, 0x4100, 4, b"abc".to_vec()));
}

#[test]
fn refused_memory_is_unmapped() {
    let mut step = ShmStep::Create;
    step = shm_next(step, Status::AlreadyExists);
    assert_eq!(step, ShmStep::Attach);
    step = shm_next(step, Status::Success);
    assert_eq!(step, ShmStep::Announce);
    assert_eq!(shm_next(step, Status::Success), ShmStep::Ready);
    step = shm_next(step, Status::NotSupported);
    assert_eq!(step, ShmStep::Detach);
    assert_eq!(shm_request(step).unwrap().0.op, Opcode::MmShmUnmap);
    assert_eq!(shm_next(step, Status::Success), ShmStep::Unused);
    assert!(shm_request(ShmStep::Unused).is_none());
    assert_eq!(shm_next(ShmStep::Create, Status::OutOfMemory), ShmStep::Unused);
}

#[test]
fn disk_is_mounted_when_its_server_answers() {
    let (st, _, m, root) = mounted();
    assert_eq!(st.mounts.get(m).unwrap().fs_type, b"saltyfs".to_vec());
    assert_eq!(st.vnodes.get(root).unwrap().id, 2);
    let s = Services { ttysrv_ep: 0, netsrv_ep: 0, netsrv_callback_ep: 0 };
    let mut st = VfsState::new(s).unwrap();
    let mut a = answers();
    a.endpoint = Err(Status::NotFound);
    assert_eq!(alloc_saltyfs_mount(&mut st, b"/", 0, b"", &a), Err(Status::NotFound));
    let mut a = answers();
    a.session = Err(Status::Busy);
    assert_eq!(alloc_saltyfs_mount(&mut st, b"/", 0, b"", &a), Err(Status::Busy));
}

#[test]
fn disk_file_has_one_vnode() {
    let (mut st, _, m, root) = mounted();
    let a = materialize_child_vnode(&mut st, m, root, b"a", snap(12, S_IFREG | 0o644)).unwrap();
    let b = materialize_snapshot_child(&mut st, root, b"b", snap(12, S_IFREG | 0o600)).unwrap();
    assert_eq!(a, b);
    assert_eq!(st.vnodes.get(a).unwrap().mode, S_IFREG | 0o600);
    let c = materialize_child_vnode(&mut st, m, root, b"c", snap(13, S_IFREG)).unwrap();
    assert_ne!(a, c);
    assert!(materialize_child_vnode(&mut st, m, c, b"x", snap(14, S_IFREG)).is_some());
    assert!(materialize_child_vnode(&mut st, Handle::invalid(), root, b"c", snap(15, 0)).is_none());
}

#[test]
fn removed_name_is_forgotten() {
    let (mut st, _, m, root) = mounted();
    materialize_child_vnode(&mut st, m, root, b"a", snap(12, S_IFREG)).unwrap();
    assert!(find_child_node_handle_by_name(&st, root, b"a").is_some());
    mark_cached_child_unlinked(&mut st, root, b"a", false);
    assert!(find_child_node_handle_by_name(&st, root, b"a").is_none());
    let b = materialize_child_vnode(&mut st, m, root, b"b", snap(13, S_IFREG)).unwrap();
    note_cached_child_renamed(&mut st, root, b"b", root, b"c");
    assert!(find_child_node_handle_by_name(&st, root, b"b").is_none());
    let n = find_child_node_handle_by_name(&st, root, b"c").unwrap();
    assert_eq!(st.saltyfs_nodes.get(n).unwrap().vnode, b);
}

#[test]
fn attributes_follow_the_disk() {
    let (mut st, _, m, root) = mounted();
    let a = materialize_child_vnode(&mut st, m, root, b"a", snap(12, S_IFREG)).unwrap();
    let s = AttrSnapshot { mode: S_IFREG | 0o400, uid: 1, gid: 2, size: 99, nlink: 3, atime: 1, mtime: 2 };
    assert_eq!(apply_attr_snapshot(&mut st, a, s), Ok(()));
    let vn = *st.vnodes.get(a).unwrap();
    assert_eq!((vn.size, vn.nlink, vn.uid, vn.mtime_ns), (99, 3, 1, 2_000_000_000));
    assert!(apply_attr_snapshot(&mut st, Handle::invalid(), s).is_err());
    assert_eq!(refresh_vnode_attrs(&mut st, a, Ok(stat(S_IFREG | 0o644))), Ok(()));
    assert_eq!(st.vnodes.get(a).unwrap().size, 10);
    assert_eq!(refresh_vnode_attrs(&mut st, a, Err(Status::IoError)), Err(Status::IoError));
    let l = materialize_child_vnode(&mut st, m, root, b"l", snap(13, S_IFLNK)).unwrap();
    assert!(update_symlink_payload(&mut st, l, b"/usr"));
    let vn = *st.vnodes.get(l).unwrap();
    assert_eq!(&st.blobs.get(vn.data).unwrap().bytes[..4], b"/usr");
}

#[test]
fn lookup_asks_the_disk_server() {
    let (st, mut rpc, _, root) = mounted();
    match lookup_child(&st, &mut rpc, root, b"file") {
        Ok(Progress::Deferred { worker, .. }) => assert_eq!(worker, 0),
        _ => panic!("the server is asked"),
    }
    let j = rpc.jobs.pop().unwrap();
    assert_eq!((j.target_ep, j.op_kind), (90, BACKEND_OP_SALTYFS_LOOKUP_CHILD));
    assert_eq!((j.request.op, j.request.regs[0]), (Opcode::BackendLookup, 2));
    assert_eq!(get_bytes(&j.request.regs, 2, 4), b"file".to_vec());
    rpc.workers.spawned = 0;
    assert!(matches!(lookup_child(&st, &mut rpc, root, b"x"), Err(Status::OutOfMemory)));
}

#[test]
fn made_directory_comes_back() {
    let (mut st, mut rpc, _, root) = mounted();
    let op = match mkdir_child(&st, &mut rpc, root, b"d", 0o755) {
        Ok(Progress::Deferred { op, .. }) => op,
        _ => panic!("the server is asked"),
    };
    adopt(&mut rpc, op, PO_KIND_MKDIR_CONT);
    let a = answer(&mut rpc, 0, lookup_reply(20, S_IFDIR | 0o755));
    match complete_saltyfs_op(&mut st, &mut rpc.pool, &a) {
        DiskDone::Ended { answer } => assert_eq!(
            answer,
            Some(ReplyAction::Send { reply_slot: 40, label: Status::Success })
        ),
        DiskDone::GoesOn => panic!("the caller is answered"),
    }
    assert!(find_child_node_handle_by_name(&st, root, b"d").is_some());
    let op = match create_regular_child(&st, &mut rpc, root, b"f", 0o644) {
        Ok(Progress::Deferred { op, .. }) => op,
        _ => panic!("the server is asked"),
    };
    adopt(&mut rpc, op, PO_KIND_OPEN_CONT);
    let a = answer(&mut rpc, 0, lookup_reply(21, S_IFREG | 0o644));
    assert!(matches!(complete_saltyfs_op(&mut st, &mut rpc.pool, &a), DiskDone::GoesOn));
    assert_eq!(rpc.pool.take_reply_slot(op), 40);
}

#[test]
fn refused_change_is_answered() {
    let (mut st, mut rpc, _, root) = mounted();
    let op = match remove_child(&st, &mut rpc, root, b"d", false) {
        Ok(Progress::Deferred { op, .. }) => op,
        _ => panic!("the server is asked"),
    };
    let other = match create_regular_child(&st, &mut rpc, root, b"f", 0o600) {
        Ok(Progress::Deferred { op, .. }) => op,
        _ => panic!("the server is asked"),
    };
    adopt(&mut rpc, op, PO_KIND_UNLINK_CONT);
    let a = answer(&mut rpc, 0, Reply::bare(Status::NotFound));
    match complete_saltyfs_op(&mut st, &mut rpc.pool, &a) {
        DiskDone::Ended { answer } => assert_eq!(
            answer,
            Some(ReplyAction::Send { reply_slot: 40, label: Status::NotFound })
        ),
        DiskDone::GoesOn => panic!("the caller is answered"),
    }
    assert!(rpc.pool.get(op).is_none());
    assert!(rpc.pool.get(other).is_some());
}

#[test]
fn sealed_disk_takes_no_change() {
    let (mut st, mut rpc, m, root) = mounted();
    assert_eq!(saltyfs_remount(&mut st, m, MNT_RDONLY, b""), Status::Success);
    st.mounts.get_mut(m).unwrap().flags = MNT_RDONLY;
    assert!(matches!(mkdir_child(&st, &mut rpc, root, b"d", 0), Err(Status::ReadOnly)));
    assert!(matches!(rename_child(&st, &mut rpc, root, b"a", root, b"b"), Err(Status::ReadOnly)));
    assert!(matches!(set_mode_vnode(&st, &mut rpc, root, 0), Err(Status::ReadOnly)));
    assert!(matches!(truncate_vnode(&st, &mut rpc, root, 0), Err(Status::ReadOnly)));
    assert!(matches!(symlink_child(&st, &mut rpc, root, b"a", b"b"), Err(Status::ReadOnly)));
}

#[test]
fn change_of_attributes_is_told_apart() {
    assert_eq!(setattr_kind(SETATTR_MASK_MODE), BACKEND_OP_SALTYFS_SETMODE);
    assert_eq!(setattr_kind(SETATTR_MASK_UID | SETATTR_MASK_GID), BACKEND_OP_SALTYFS_SETOWNER);
    let (mut st, mut rpc, _, root) = mounted();
    assert!(matches!(set_mode_vnode(&st, &mut rpc, root, 0o700), Ok(Progress::Deferred { .. })));
    let mut r = Reply::bare(Status::Success);
    r.length = 7;
    r.regs[0] = (S_IFDIR | 0o700) as u64;
    let a = answer(&mut rpc, 0, r);
    complete_saltyfs_op(&mut st, &mut rpc.pool, &a);
    assert_eq!(st.vnodes.get(root).unwrap().mode, S_IFDIR | 0o700);
}

#[test]
fn files_of_the_disk_are_read_and_written() {
    let (mut st, _, m, root) = mounted();
    let f = materialize_child_vnode(&mut st, m, root, b"f", snap(12, S_IFREG)).unwrap();
    let (ep, q, shm) = read_regular_call(&st, f, 5, 20).unwrap();
    assert_eq!((ep, shm, q.op), (90, false, Opcode::BackendRead));
    assert_eq!((q.regs[0], q.regs[1]), (12, 5));
    let mut r = Reply::bare(Status::Success);
    r.regs[0] = 3;
    put_bytes(&mut r.regs, 1, b"abc");
    assert_eq!(read_regular_done(0, &r, 20, None), Ok(b"abc".to_vec()));
    assert_eq!(read_regular_done(0, &r, 2, Some(&b"xy"[..])), Ok(b"xy".to_vec()));
    assert_eq!(read_regular_done(9, &r, 20, None), Err(Status::IoError));
    let (ep, q) = write_regular_call(&st, f, 0, b"hi").unwrap();
    assert_eq!((ep, q.op), (90, Opcode::BackendWrite));
    assert_eq!(write_vnode(&mut st, f, Ok(2), Ok(stat(S_IFREG))), Ok(2));
    assert_eq!(write_vnode(&mut st, f, Err(Status::NoSpace), Ok(stat(S_IFREG))), Err(Status::NoSpace));
    assert!(read_regular_call(&st, Handle::invalid(), 0, 1).is_err());
    assert_eq!(validate_open_regular(O_RDONLY), Status::Success);
    assert_eq!(validate_open_regular(O_WRONLY), Status::Success);
}

#[test]
fn directories_of_the_disk_are_listed() {
    let (st, _, _, root) = mounted();
    assert!(matches!(readdir_call(&st, root, 7), Err(Status::InvalidOperation)));
    let s = Services { ttysrv_ep: 0, netsrv_ep: 0, netsrv_callback_ep: 0 };
    let mut st = VfsState::new(s).unwrap();
    let mut shared = answers();
    shared.shm_ready = true;
    let m = alloc_saltyfs_mount(&mut st, b"/", 0, b"", &shared).unwrap();
    let root = st.mounts.get(m).unwrap().root_vnode;
    let (_, q) = readdir_call(&st, root, 7).unwrap();
    assert_eq!((q.op, q.regs[0], q.regs[1]), (Opcode::BackendReaddir, 2, 7));
    let mut e = [0u8; 96];
    e[0] = 9;
    e[48] = 8;
    e[49] = 1;
    e[52] = b'f';
    let mut r = Reply::bare(Status::Success);
    r.regs[0] = 8;
    r.regs[1] = 1;
    r.regs[2] = 96;
    r.regs[3] = 1;
    match readdir_done(&st, root, false, 0, &r, &e) {
        Ok(DirStep::Entry { next_cursor, eof_after, ino, d_type, name }) => {
            assert_eq!((next_cursor, eof_after, ino, d_type), (8, true, 9, 8));
            assert_eq!(name, b"f".to_vec());
        }
        _ => panic!("an entry follows"),
    }
    r.regs[1] = 0;
    assert!(matches!(readdir_done(&st, root, false, 0, &r, &e), Ok(DirStep::End)));
    assert!(matches!(readdir_done(&st, root, false, 1, &r, &e), Err(Status::IoError)));
}

#[test]
fn link_of_the_disk_is_asked_for_once() {
    let (mut st, mut rpc, m, root) = mounted();
    let l = materialize_child_vnode(&mut st, m, root, b"l", snap(13, S_IFLNK)).unwrap();
    assert!(matches!(ensure_symlink_target(&st, &mut rpc, l), Ok(Progress::Deferred { .. })));
    let mut r = Reply::bare(Status::Success);
    r.regs[0] = 4;
    put_bytes(&mut r.regs, 1, b"/usr");
    let a = answer(&mut rpc, 0, r);
    complete_saltyfs_op(&mut st, &mut rpc.pool, &a);
    assert!(matches!(ensure_symlink_target(&st, &mut rpc, l), Ok(Progress::Complete(true))));
}

#[test]
fn unmounted_disk_is_let_go() {
    let (mut st, _, m, root) = mounted();
    materialize_child_vnode(&mut st, m, root, b"a", snap(12, S_IFREG)).unwrap();
    assert!(release_saltyfs_mount(&mut st, m));
    assert_eq!(st.saltyfs_mounts.len(), 0);
    assert_eq!(st.saltyfs_nodes.len(), 0);
    assert!(st.take_effects().contains(&Effect::DiskClose { cap: 90, session_id: 4 }));
}

#[test]
fn directory_on_the_disk_is_asked_for_but_not_waited_for() {
    let (st, mut rpc, _, root) = mounted();
    assert_eq!(ensure_dir_child(&st, &mut rpc, root, b"var"), None);
    let job = rpc.jobs.pop().unwrap();
    assert_eq!((job.op_kind, job.target_ep), (BACKEND_OP_SALTYFS_LOOKUP_CHILD, 90));
    assert_eq!(job.request.op, Opcode::BackendLookup);
    assert_eq!(job.ctx.data, [root.slot as u64 | (root.epoch as u64) << 32, 3, 0, 0, 0, 0]);
    assert!(rpc.pool.get(PendingOpId::from_raw(job.op_id)).is_none());
    assert_eq!(rpc.workers.wake, [1, 0, 0, 0]);
    assert_eq!(ensure_dir_child(&st, &mut rpc, Handle::invalid(), b"var"), None);
    assert!(rpc.jobs.pop().is_none());
}

#[test]
fn read_without_shared_memory_takes_what_the_registers_hold() {
    let mut r = Reply::bare(Status::Success);
    let bytes: Vec<u8> = (0..248u16).map(|i| i as u8).collect();
    put_bytes(&mut r.regs, 1, &bytes);
    r.regs[0] = 200;
    assert_eq!(read_regular_done(0, &r, 4096, None), Ok(bytes[..200].to_vec()));
    assert_eq!(read_regular_done(0, &r, 180, None), Ok(bytes[..180].to_vec()));
    r.regs[0] = 300;
    assert_eq!(read_regular_done(0, &r, 4096, None), Ok(bytes));
}

#[test]
fn write_fills_the_registers() {
    let (mut st, _, m, root) = mounted();
    let f = materialize_child_vnode(&mut st, m, root, b"f", snap(12, S_IFREG)).unwrap();
    let (_, q) = write_regular_call(&st, f, 7, &[9u8; 216]).unwrap();
    assert_eq!((q.regs[0], q.regs[1], q.regs[4], q.length), (12, 7, 216, 32));
    assert_eq!(q.regs[31], 0x0909_0909_0909_0909);
}
