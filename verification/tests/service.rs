//! Requests to the service, walks that wait for the disk, and the loop around it all.

use vfs::arena::Handle;
use vfs::backend_rpc::{
    BackendOpCtx, BackendPayload, PendingBackendCompletion, Progress, RpcCore, BACKEND_OP_NONE,
    WORKER_COMPLETION_NTFN_BIT,
};
use vfs::dispatch::{
    dispatch_request, finish_client_request, finish_personality_request, vfs_cancel_for_badge, Call,
    Dispatch, Label, Place, MMAP_BACKING_TMPFS, NETSRV_CALLBACK_BADGE, SOURCE_NETSRV_CALLBACK_EP,
};
use vfs::files::{ObjKind, DEV_CONSOLE, DEV_PTMX, DEV_PTY_SLAVE, O_RDONLY, PERS_POSIX};
use vfs::fs::proc_rpc::KernelFacts;
use vfs::fs::procfs::PidFacts;
use vfs::fs::saltyfs::{alloc_saltyfs_mount, DiskAnswers};
use vfs::fs::saltyfs_wire::{SessionReply, StatSnapshot};
use vfs::identity::BackendNodeId;
use vfs::layout::{DeviceSeed, FileSeed, Layout};
use vfs::mount_requests::{
    handle_vfs_mount, handle_vfs_pivot_root, handle_vfs_remount, handle_vfs_umount,
};
use vfs::namei::{lookup_path_dynamic_absolute, plain_mode, walk_from, walk_path, Walk};
use vfs::namei_resume::{
    complete_namei_resume, dispatch_syscall_continuation, ensure_pts_slave_vnode_with_generation,
    live_pty_request, lookup_live_pty_generation, lookup_parent_for_client,
    lookup_path_dynamic_for_client, parse_pts_slave_path, unwrap_lookup_or_set_label,
    waits_for_walk, Continuation, LookupStop, ResumeDone,
};
use vfs::namei_state::{BOOTSTRAP_SYMLINK_DEPTH_MAX, NAMEI_STEP_DONE};
use vfs::owner_loop::{
    allocate_netsrv_callback_ep, bind_boot_notifications, classify_wake, complete_backend_op,
    count_tick, endpoint_count, owner_timer_ns, pass_reply_through, register_request,
    rootfs_status_name, set_worker_recv_slot, should_log_owner_timeout_state, slow_op_ns,
    spawn_workers, worker_sleeps, Binding, Settled, Wake,
};
use vfs::pending_ops::{
    CancelDisposition, PendingOpId, ReplyAction, PO_KIND_BACKEND_RPC, PO_KIND_NAMEI_RESUME,
    PO_KIND_OPEN_CONT, PO_KIND_STATVFS_CONT,
};
use vfs::provision::{
    handle_provision_tty_stdio_to, tty_stdio_path, ProvisionDone, ProvisionStart, TTY_DEV_CONSOLE,
    TTY_DEV_PTS_BASE,
};
use vfs::state::{Effect, Services, VfsState};
use vfs::status::Status;
use vfs::vnode::{S_IFDIR, S_IFREG};
use vfs::wire::{get_bytes, put_bytes, Opcode, Reply, SysInfo};

fn booted() -> VfsState {
    let s = Services { ttysrv_ep: 50, netsrv_ep: 51, netsrv_callback_ep: 52 };
    let mut st = VfsState::new(s).unwrap();
    let mut root_dirs: Vec<Vec<u8>> = Vec::new();
    for d in ["etc", "dev", "proc", "sys", "tmp", "pipe", "initramfs", "newroot", "mnt"] {
        root_dirs.push(d.as_bytes().to_vec());
    }
    let l = Layout {
        root_dirs,
        etc_files: vec![FileSeed { name: b"passwd".to_vec(), mode: 0o644, content: vec![1, 2] }],
        devices: vec![
            DeviceSeed { name: b"console".to_vec(), mode: 0o666, kind: DEV_CONSOLE },
            DeviceSeed { name: b"ptmx".to_vec(), mode: 0o666, kind: DEV_PTMX },
        ],
    };
    assert!(st.initialize_bootstrap_namespace(&l, 1000));
    st
}

fn one_worker() -> RpcCore {
    let mut rpc = RpcCore::new();
    rpc.workers.spawned = 1;
    rpc
}

fn call(label: Label, words: &[u64]) -> Call {
    let mut regs = [0u64; 32];
    regs[..words.len()].copy_from_slice(words);
    Call { label, length: words.len() as u64, regs }
}

fn status_of(d: &Dispatch) -> Status {
    match d {
        Dispatch::Reply(r) => r.label,
        _ => panic!("the caller is answered"),
    }
}

fn facts() -> KernelFacts {
    KernelFacts {
        info: SysInfo { cpu_count: 1, boot_time_ns: 0, uptime_ns: 0, context_switches_total: 0 },
        cpus: vec![],
    }
}

fn pid_facts() -> PidFacts {
    PidFacts { alive: true, still_alive: true, exe: None }
}

fn answer(rpc: &mut RpcCore, err: u64, reply: Reply) -> PendingBackendCompletion {
    let job = rpc.jobs.pop().unwrap();
    let id = PendingOpId::from_raw(job.op_id);
    assert!(rpc.pool.mark_running(id));
    assert!(rpc.pool.try_complete(id));
    PendingBackendCompletion {
        op_kind: job.op_kind,
        op_id: job.op_id,
        backend_err: err,
        backend_reply: reply,
        ctx: job.ctx,
        payload: BackendPayload::Empty,
    }
}

fn lookup_reply(ino: u64, mode: u32) -> Reply {
    let mut r = Reply::bare(Status::Success);
    r.length = 10;
    r.regs[0] = ino;
    r.regs[1] = 1;
    r.regs[2] = mode as u64;
    r.regs[4] = 1;
    r
}

/// A booted service with the disk mounted on `/mnt`.
fn with_disk() -> VfsState {
    let mut st = booted();
    let a = DiskAnswers {
        endpoint: Ok(90),
        session: Ok(SessionReply {
            session_id: 4,
            max_inflight: 8,
            root_node: BackendNodeId { ino: 2, seq: 1 },
            feature_bits: 0,
        }),
        root: Some(StatSnapshot {
            size: 0,
            mode: S_IFDIR | 0o755,
            nlink: 2,
            mtime: 0,
            blocks: 0,
            uid: 0,
            gid: 0,
            seq: 1,
        }),
        shm_ready: false,
    };
    let m = alloc_saltyfs_mount(&mut st, b"/mnt", 0, b"", &a).unwrap();
    let target = st.bootstrap_lookup_path(b"/mnt").unwrap();
    assert!(st.graft_mount_at_vnode(m, target, b"/mnt"));
    st
}

#[test]
fn only_the_network_server_answers_for_itself() {
    let mut st = booted();
    let mut rpc = one_worker();
    let c = call(Label::NetComplete, &[]);
    let ok = dispatch_request(
        &mut st, &mut rpc, &c, NETSRV_CALLBACK_BADGE, SOURCE_NETSRV_CALLBACK_EP, None, None,
    );
    assert!(matches!(ok, Dispatch::Elsewhere(Place::NetCompletion)));
    let wrong_source = dispatch_request(&mut st, &mut rpc, &c, NETSRV_CALLBACK_BADGE, 0, None, None);
    assert_eq!(status_of(&wrong_source), Status::InvalidOperation);
    let wrong_badge =
        dispatch_request(&mut st, &mut rpc, &c, 7, SOURCE_NETSRV_CALLBACK_EP, None, None);
    assert_eq!(status_of(&wrong_badge), Status::InvalidOperation);
    let other = call(Label::ClientRegister, &[9, 0]);
    let d = dispatch_request(
        &mut st, &mut rpc, &other, NETSRV_CALLBACK_BADGE, SOURCE_NETSRV_CALLBACK_EP, None, None,
    );
    assert_eq!(status_of(&d), Status::InvalidOperation);
    assert_eq!(st.lookup_client(9), None);
    let long = call(Label::PivotRoot, &[128, 128]);
    let d = dispatch_request(&mut st, &mut rpc, &long, 7, SOURCE_NETSRV_CALLBACK_EP, None, None);
    assert_eq!(status_of(&d), Status::InvalidOperation);
    let d = dispatch_request(&mut st, &mut rpc, &long, 7, 0, None, None);
    assert_eq!(status_of(&d), Status::InvalidArgument);
}

#[test]
fn clients_come_and_go_by_request() {
    let mut st = booted();
    let mut rpc = one_worker();
    let d = dispatch_request(&mut st, &mut rpc, &call(Label::ClientRegister, &[9, 0]), 1, 0, None, None);
    assert_eq!(status_of(&d), Status::Success);
    let c = st.lookup_client(9).unwrap();
    match dispatch_request(&mut st, &mut rpc, &call(Label::ProcClientCreate, &[10, 0, 0]), 1, 0, None, None) {
        Dispatch::Reply(r) => assert_eq!((r.label, r.length, r.regs[0]), (Status::Success, 1, 10)),
        _ => panic!("the caller is answered"),
    }
    let op = rpc.pool.allocate(PO_KIND_BACKEND_RPC, 9, c, 40).unwrap();
    let d = dispatch_request(&mut st, &mut rpc, &call(Label::ClientExit, &[9]), 1, 0, None, None);
    assert_eq!(status_of(&d), Status::Success);
    assert_eq!(st.lookup_client(9), None);
    assert!(st.clients.get(c).is_none());
    assert!(st.take_effects().contains(&Effect::CancelWaiters { badge: 9 }));
    assert!(!rpc.pool.mark_running(op));
    assert_eq!(rpc.pool.drain_cancelled(), vec![ReplyAction::Release { reply_slot: 40 }]);
    let d = dispatch_request(&mut st, &mut rpc, &call(Label::ProcClientDrop, &[10]), 1, 0, None, None);
    assert_eq!(status_of(&d), Status::Success);
    assert_eq!(st.lookup_client(10), None);
}

#[test]
fn cancelling_leaves_other_clients() {
    let mut st = booted();
    let mut rpc = one_worker();
    let a = rpc.pool.allocate(PO_KIND_BACKEND_RPC, 9, Handle::invalid(), 40).unwrap();
    let b = rpc.pool.allocate(PO_KIND_BACKEND_RPC, 8, Handle::invalid(), 41).unwrap();
    vfs_cancel_for_badge(&mut st, &mut rpc.pool, 9, CancelDisposition::Cancelled);
    assert!(!rpc.pool.mark_running(a));
    assert!(rpc.pool.mark_running(b));
}

#[test]
fn other_parts_see_to_their_requests() {
    let mut st = booted();
    let mut rpc = one_worker();
    for (label, place) in [
        (Label::ResolveBacking, Place::ResolveBacking),
        (Label::ResolvePathBacking, Place::ResolvePathBacking),
        (Label::PagerRead, Place::PagerRead),
        (Label::PagerWrite, Place::PagerWrite),
        (Label::ProcClientClone, Place::CloneFds),
        (Label::ProcClientExec, Place::ClientExec),
        (Label::Other(5), Place::Personality),
    ] {
        match dispatch_request(&mut st, &mut rpc, &call(label, &[]), 1, 0, None, None) {
            Dispatch::Elsewhere(p) => assert_eq!(p, place),
            _ => panic!("another part sees to it"),
        }
    }
    let r = finish_client_request(&call(Label::ProcClientClone, &[3, 4]), Status::Success);
    assert_eq!((r.length, r.regs[0]), (1, 4));
    let r = finish_client_request(&call(Label::ProcClientExec, &[3, 4]), Status::Success);
    assert_eq!((r.length, r.regs[0]), (1, 3));
    let r = finish_client_request(&call(Label::ProcClientExec, &[3, 4]), Status::NotFound);
    assert_eq!((r.label, r.length), (Status::NotFound, 0));
    assert_eq!(finish_personality_request(None, None).label, Status::NotSupported);
    assert_eq!(
        finish_personality_request(None, Some(Reply::bare(Status::Busy))).label,
        Status::Busy
    );
    assert_eq!(
        finish_personality_request(Some(Reply::bare(Status::Success)), None).label,
        Status::Success
    );
}

#[test]
fn mappings_are_counted_by_request() {
    let mut st = booted();
    let mut rpc = one_worker();
    let f = st.bootstrap_create_regular_file_path(b"/tmp/f", 0o600, 1).unwrap();
    let vn = *st.vnodes.get(f).unwrap();
    let n = vfs::fs::tmpfs::find_node_handle_by_vnode(&st, f).unwrap();
    let words = [MMAP_BACKING_TMPFS, vn.fs_instance_id.0, vn.id, 0];
    let d = dispatch_request(&mut st, &mut rpc, &call(Label::AcquireTmpfs, &words), 1, 0, None, None);
    assert_eq!(status_of(&d), Status::Success);
    assert_eq!(st.tmpfs_nodes.get(n).unwrap().mmap_export_refs, 1);
    let d = dispatch_request(&mut st, &mut rpc, &call(Label::ReleaseTmpfs, &words), 1, 0, None, None);
    assert_eq!(status_of(&d), Status::Success);
    assert_eq!(st.tmpfs_nodes.get(n).unwrap().mmap_export_refs, 0);
    let d = dispatch_request(&mut st, &mut rpc, &call(Label::ReleaseTmpfs, &words), 1, 0, None, None);
    assert_eq!(status_of(&d), Status::Success);
    let d = dispatch_request(&mut st, &mut rpc, &call(Label::AcquireTmpfs, &[0, 1, 2]), 1, 0, None, None);
    assert_eq!(status_of(&d), Status::InvalidArgument);
}

fn mount_words(source: &[u8], target: &[u8], fs: &[u8], flags: u64, opts: &[u8]) -> [u64; 32] {
    let mut regs = [0u64; 32];
    let mut all = source.to_vec();
    all.extend_from_slice(target);
    all.extend_from_slice(fs);
    all.extend_from_slice(opts);
    put_bytes(&mut regs, 5, &all);
    regs[0] = source.len() as u64;
    regs[1] = target.len() as u64;
    regs[2] = fs.len() as u64;
    regs[3] = flags;
    regs[4] = opts.len() as u64;
    regs
}

#[test]
fn mount_requests_are_read() {
    let q = handle_vfs_mount(&mount_words(b"none", b"/mnt", b"tmpfs", 3, b"size=1m")).unwrap();
    assert_eq!(q.target, b"/mnt".to_vec());
    assert_eq!(q.fs_type, b"tmpfs".to_vec());
    assert_eq!((q.flags, q.opts), (3, b"size=1m".to_vec()));
    assert!(matches!(
        handle_vfs_mount(&mount_words(b"", b"/mnt", b"", 0, b"")),
        Err(Status::InvalidArgument)
    ));
    let mut big = mount_words(b"", b"/mnt", b"tmpfs", 0, b"");
    big[0] = 129;
    assert!(matches!(handle_vfs_mount(&big), Err(Status::InvalidArgument)));
    big[0] = 128;
    big[1] = 128;
    assert!(matches!(handle_vfs_mount(&big), Err(Status::TooLarge)));
    let q = handle_vfs_remount(&mount_words(b"s", b"/mnt", b"", 1, b"ro")).unwrap();
    assert_eq!((q.target, q.flags, q.opts), (b"/mnt".to_vec(), 1, b"ro".to_vec()));
    assert!(matches!(
        handle_vfs_remount(&mount_words(b"s", b"", b"", 1, b"ro")),
        Err(Status::InvalidArgument)
    ));
    assert!(matches!(handle_vfs_remount(&big), Err(Status::TooLarge)));
}

#[test]
fn unmount_and_pivot_requests_are_read() {
    let mut regs = [0u64; 32];
    put_bytes(&mut regs, 2, b"/new/old");
    regs[0] = 4;
    regs[1] = 9;
    let q = handle_vfs_umount(&regs).unwrap();
    assert_eq!((q.target, q.flags), (b"/new".to_vec(), 9));
    regs[1] = 4;
    let q = handle_vfs_pivot_root(&regs).unwrap();
    assert_eq!((q.new_root, q.put_old), (b"/new".to_vec(), b"/old".to_vec()));
    regs[0] = 0;
    assert!(matches!(handle_vfs_umount(&regs), Err(Status::InvalidArgument)));
    assert!(matches!(handle_vfs_pivot_root(&regs), Err(Status::InvalidArgument)));
    regs[0] = 129;
    assert!(matches!(handle_vfs_umount(&regs), Err(Status::InvalidArgument)));
    regs[0] = 128;
    regs[1] = 112;
    assert!(handle_vfs_pivot_root(&regs).is_ok());
    regs[1] = 113;
    assert!(matches!(handle_vfs_pivot_root(&regs), Err(Status::InvalidArgument)));
    let mut st = booted();
    let mut rpc = one_worker();
    let c = Call {
        label: Label::Mount,
        length: 5,
        regs: mount_words(b"", b"/mnt", b"tmpfs", 0, b""),
    };
    match dispatch_request(&mut st, &mut rpc, &c, 1, 0, None, None) {
        Dispatch::Mount(q) => assert_eq!(q.target, b"/mnt".to_vec()),
        _ => panic!("the request is read"),
    }
}

#[test]
fn numbers_are_asked_for_by_path_and_descriptor() {
    let mut st = booted();
    let mut rpc = one_worker();
    let ask = |path: &[u8]| {
        let mut regs = [0u64; 32];
        put_bytes(&mut regs, 1, path);
        regs[0] = path.len() as u64;
        Call { label: Label::Statfs, length: 2, regs }
    };
    match dispatch_request(&mut st, &mut rpc, &ask(b"/tmp"), 1, 0, None, None) {
        Dispatch::Reply(r) => {
            assert_eq!((r.label, r.length), (Status::Success, 11));
            assert_eq!((r.regs[0], r.regs[5], r.regs[10]), (4096, 512, 255));
        }
        _ => panic!("the caller is answered"),
    }
    let d = dispatch_request(&mut st, &mut rpc, &ask(b"/etc"), 1, 0, None, None);
    assert_eq!(status_of(&d), Status::NotSupported);
    let d = dispatch_request(&mut st, &mut rpc, &ask(b"/nowhere"), 1, 0, None, None);
    assert_eq!(status_of(&d), Status::NotFound);
    let d = dispatch_request(&mut st, &mut rpc, &ask(b"tmp"), 1, 0, None, None);
    assert_eq!(status_of(&d), Status::InvalidArgument);
    let d = dispatch_request(&mut st, &mut rpc, &ask(b""), 1, 0, None, None);
    assert_eq!(status_of(&d), Status::InvalidArgument);
    let c = st.ensure_client(7, PERS_POSIX).unwrap();
    let t = st.bootstrap_lookup_path(b"/tmp").unwrap();
    let fd = st.alloc_client_slot(c, t, ObjKind::Directory, O_RDONLY).unwrap() as u64;
    let d = dispatch_request(&mut st, &mut rpc, &call(Label::Fstatfs, &[fd]), 7, 0, None, None);
    assert_eq!(status_of(&d), Status::Success);
    let d = dispatch_request(&mut st, &mut rpc, &call(Label::Fstatfs, &[fd, 7]), 1, 0, None, None);
    assert_eq!(status_of(&d), Status::Success);
    let d = dispatch_request(&mut st, &mut rpc, &call(Label::Fstatfs, &[99]), 7, 0, None, None);
    assert_eq!(status_of(&d), Status::InvalidArgument);
    let d = dispatch_request(&mut st, &mut rpc, &call(Label::Fstatfs, &[fd]), 1, 0, None, None);
    assert_eq!(status_of(&d), Status::InvalidArgument);
}

#[test]
fn mounts_are_listed_by_request() {
    let mut st = booted();
    let mut rpc = one_worker();
    match dispatch_request(&mut st, &mut rpc, &call(Label::MountList, &[4]), 1, 0, None, None) {
        Dispatch::Mounts { shown, available } => {
            assert_eq!((shown.len(), available), (4, 6));
            assert_eq!(shown[1].fs_type, b"devfs".to_vec());
            assert_eq!(shown[3].mount_path, b"/tmp".to_vec());
            assert_eq!(shown[3].statvfs.f_files, 512);
            assert_eq!(shown[1].statvfs.f_files, 0);
        }
        _ => panic!("mounts are listed"),
    }
    match dispatch_request(&mut st, &mut rpc, &call(Label::MountList, &[0]), 1, 0, None, None) {
        Dispatch::Mounts { shown, available } => assert_eq!((shown.len(), available), (0, 6)),
        _ => panic!("mounts are counted"),
    }
}

#[test]
fn terminals_have_paths() {
    assert_eq!(parse_pts_slave_path(b"/dev/pts/12"), Some(12));
    assert_eq!(parse_pts_slave_path(b"/dev/pts/"), None);
    assert_eq!(parse_pts_slave_path(b"/dev/pts/4294967296"), None);
    assert_eq!(parse_pts_slave_path(b"/dev/tty"), None);
    let t = tty_stdio_path(TTY_DEV_PTS_BASE + 12).unwrap();
    assert_eq!((t.path.clone(), t.dev_type, t.pty_id), (b"/dev/pts/12".to_vec(), DEV_PTY_SLAVE, 12));
    assert_eq!(parse_pts_slave_path(&t.path), Some(12));
    assert_eq!(tty_stdio_path(TTY_DEV_CONSOLE).unwrap().path, b"/dev/console".to_vec());
    assert!(tty_stdio_path(3).is_none());
    let mut st = booted();
    let v = ensure_pts_slave_vnode_with_generation(&mut st, 12, 5).unwrap();
    assert_eq!(st.vnodes.get(v).unwrap().backend_seq, 5);
    assert_eq!(ensure_pts_slave_vnode_with_generation(&mut st, 12, 6), Some(v));
    assert_eq!(st.vnodes.get(v).unwrap().backend_seq, 6);
}

#[test]
fn console_is_given_at_once() {
    let mut st = booted();
    let mut rpc = one_worker();
    assert_eq!(
        handle_provision_tty_stdio_to(&mut st, &mut rpc, 9, TTY_DEV_CONSOLE, Some(40)),
        ProvisionStart::Reply(Status::Success)
    );
    let c = st.lookup_client(9).unwrap();
    for fd in 0..3 {
        assert_eq!(st.client_open_file(c, fd).unwrap().device_dev_type, DEV_CONSOLE);
    }
    assert_eq!(
        handle_provision_tty_stdio_to(&mut st, &mut rpc, 9, TTY_DEV_CONSOLE, Some(40)),
        ProvisionStart::Reply(Status::InvalidOperation)
    );
    assert_eq!(
        handle_provision_tty_stdio_to(&mut st, &mut rpc, 0, TTY_DEV_CONSOLE, Some(40)),
        ProvisionStart::Reply(Status::InvalidArgument)
    );
    assert_eq!(
        handle_provision_tty_stdio_to(&mut st, &mut rpc, 10, 3, Some(40)),
        ProvisionStart::Reply(Status::InvalidArgument)
    );
    assert_eq!(
        handle_provision_tty_stdio_to(&mut st, &mut rpc, 11, TTY_DEV_PTS_BASE, None),
        ProvisionStart::Unsaved
    );
    rpc.workers.spawned = 0;
    assert_eq!(
        handle_provision_tty_stdio_to(&mut st, &mut rpc, 11, TTY_DEV_PTS_BASE, Some(40)),
        ProvisionStart::ReleaseAndReply { release: 40, label: Status::InvalidOperation }
    );
}

#[test]
fn terminal_is_opened_for_each_descriptor() {
    let mut st = booted();
    let mut rpc = one_worker();
    ensure_pts_slave_vnode_with_generation(&mut st, 4, 1).unwrap();
    let c = call(Label::ProvisionTtyStdioTo, &[9, TTY_DEV_PTS_BASE + 4]);
    assert!(matches!(
        dispatch_request(&mut st, &mut rpc, &c, 1, 0, Some(40), None),
        Dispatch::Deferred { worker: 0 }
    ));
    let mut generation = Reply::bare(Status::Success);
    generation.regs[0] = 6;
    let a = answer(&mut rpc, 0, generation);
    let s = complete_backend_op(&mut st, &mut rpc, 60, &a, &facts());
    assert!(matches!(s, Settled::Provision(ProvisionDone::Waits { worker: 0 })));
    for _ in 0..2 {
        let a = answer(&mut rpc, 0, Reply::bare(Status::Success));
        assert_eq!(a.ctx.data[3], 6);
        let s = complete_backend_op(&mut st, &mut rpc, 60, &a, &facts());
        assert!(matches!(s, Settled::Provision(ProvisionDone::Waits { worker: 0 })));
    }
    let a = answer(&mut rpc, 0, Reply::bare(Status::Success));
    match complete_backend_op(&mut st, &mut rpc, 60, &a, &facts()) {
        Settled::Provision(ProvisionDone::Ended { answer }) => assert_eq!(
            answer,
            Some(ReplyAction::Send { reply_slot: 40, label: Status::Success })
        ),
        _ => panic!("the request has ended"),
    }
    let c = st.lookup_client(9).unwrap();
    for fd in 0..3 {
        assert_eq!(st.client_open_file(c, fd).unwrap().device_pty_id, 4);
    }
}

#[test]
fn refused_terminal_takes_descriptors_back() {
    let mut st = booted();
    let mut rpc = one_worker();
    ensure_pts_slave_vnode_with_generation(&mut st, 4, 1).unwrap();
    let c = call(Label::ProvisionTtyStdioTo, &[9, TTY_DEV_PTS_BASE + 4]);
    dispatch_request(&mut st, &mut rpc, &c, 1, 0, Some(40), None);
    let a = answer(&mut rpc, 0, Reply::bare(Status::Success));
    complete_backend_op(&mut st, &mut rpc, 60, &a, &facts());
    let a = answer(&mut rpc, 0, Reply::bare(Status::Success));
    complete_backend_op(&mut st, &mut rpc, 60, &a, &facts());
    let a = answer(&mut rpc, 0, Reply::bare(Status::Busy));
    match complete_backend_op(&mut st, &mut rpc, 60, &a, &facts()) {
        Settled::Provision(ProvisionDone::Ended { answer }) => assert_eq!(
            answer,
            Some(ReplyAction::Send { reply_slot: 40, label: Status::InvalidOperation })
        ),
        _ => panic!("the request has ended"),
    }
    let c = st.lookup_client(9).unwrap();
    assert!(st.client_open_file(c, 0).is_none());
}

#[test]
fn walks_end_or_wait_for_the_disk() {
    let mut st = with_disk();
    let mut rpc = one_worker();
    assert!(matches!(
        lookup_path_dynamic_absolute(&st, &mut rpc, b"/etc/passwd", false),
        Ok(Progress::Complete(Some(_)))
    ));
    assert!(matches!(
        lookup_path_dynamic_absolute(&st, &mut rpc, b"etc", false),
        Ok(Progress::Complete(None))
    ));
    assert!(matches!(
        lookup_path_dynamic_absolute(&st, &mut rpc, b"/tmp/none", false),
        Ok(Progress::Complete(None))
    ));
    assert!(matches!(
        walk_path(&st, b"/mnt/a", 0, plain_mode(true)),
        Walk::AskChild { .. }
    ));
    assert!(matches!(
        lookup_path_dynamic_absolute(&st, &mut rpc, b"/mnt/a/b", false),
        Ok(Progress::Deferred { worker: 0, .. })
    ));
    let c = st.ensure_client(7, PERS_POSIX).unwrap();
    let p = lookup_parent_for_client(&mut st, &mut rpc, c, b"/etc/new", &pid_facts()).unwrap();
    assert_eq!(p.leaf_offset, 5);
    assert_eq!(p.parent.handle, st.boot_dirs.etc_dir);
    assert!(matches!(
        lookup_path_dynamic_for_client(&mut st, &mut rpc, c, b"/proc/42/stat", false, &pid_facts()),
        Ok(Progress::Complete(Some(_)))
    ));
    assert!(matches!(
        unwrap_lookup_or_set_label(Ok(Progress::Complete(None))),
        Err(LookupStop::Label(Status::NotFound))
    ));
}

#[test]
fn walk_goes_on_after_each_answer() {
    let mut st = with_disk();
    let mut rpc = one_worker();
    let mut regs = [0u64; 32];
    put_bytes(&mut regs, 1, b"/mnt/a/b");
    regs[0] = 8;
    let c = Call { label: Label::Statfs, length: 2, regs };
    assert!(matches!(
        dispatch_request(&mut st, &mut rpc, &c, 7, 0, Some(40), None),
        Dispatch::Deferred { worker: 0 }
    ));
    let a = answer(&mut rpc, 0, lookup_reply(20, S_IFDIR | 0o755));
    match complete_backend_op(&mut st, &mut rpc, 60, &a, &facts()) {
        Settled::Walk(ResumeDone::Waits { worker }) => assert_eq!(worker, 0),
        _ => panic!("the walk goes on"),
    }
    let a = answer(&mut rpc, 0, lookup_reply(21, S_IFREG | 0o644));
    match complete_backend_op(&mut st, &mut rpc, 60, &a, &facts()) {
        Settled::Walk(ResumeDone::Dispatch { op, kind, saved }) => {
            assert_eq!(kind, PO_KIND_STATVFS_CONT);
            assert_eq!(st.vnodes.get(saved.current).unwrap().id, 21);
            assert_eq!(rpc.pool.get(op).unwrap().reply_slot, 40);
            assert_eq!(
                dispatch_syscall_continuation(&mut rpc, op, kind).ok(),
                Some(Continuation::Statvfs)
            );
        }
        _ => panic!("the walk has ended"),
    }
}

#[test]
fn walk_that_finds_nothing_is_passed_on() {
    let mut st = with_disk();
    let mut rpc = one_worker();
    let mut regs = [0u64; 32];
    put_bytes(&mut regs, 1, b"/mnt/a");
    regs[0] = 6;
    let c = Call { label: Label::Statfs, length: 2, regs };
    dispatch_request(&mut st, &mut rpc, &c, 7, 0, Some(40), None);
    let a = answer(&mut rpc, 0, Reply::bare(Status::NotFound));
    match complete_namei_resume(&mut st, &mut rpc, &a) {
        ResumeDone::Dispatch { kind, saved, .. } => {
            assert_eq!(kind, PO_KIND_STATVFS_CONT);
            assert!(!saved.current.is_valid());
        }
        _ => panic!("the request decides"),
    }
    assert!(waits_for_walk(PO_KIND_OPEN_CONT));
    assert!(!waits_for_walk(PO_KIND_BACKEND_RPC));
    dispatch_request(&mut st, &mut rpc, &c, 7, 0, Some(41), None);
    let a = answer(&mut rpc, 3, Reply::bare(Status::Success));
    match complete_namei_resume(&mut st, &mut rpc, &a) {
        ResumeDone::Ended { answer } => assert_eq!(
            answer,
            Some(ReplyAction::Send { reply_slot: 41, label: Status::IoError })
        ),
        _ => panic!("the request has ended"),
    }
}

#[test]
fn question_without_a_kept_reply_is_refused() {
    let mut st = with_disk();
    let mut rpc = one_worker();
    let mut regs = [0u64; 32];
    put_bytes(&mut regs, 1, b"/mnt/a");
    regs[0] = 6;
    let c = Call { label: Label::Statfs, length: 2, regs };
    assert!(matches!(
        dispatch_request(&mut st, &mut rpc, &c, 7, 0, None, None),
        Dispatch::ReleaseAndReply { release: None, label: Status::OutOfMemory }
    ));
}

#[test]
fn answer_that_nobody_waits_for_is_passed_through() {
    let mut st = booted();
    let mut rpc = one_worker();
    let op = rpc.pool.allocate(PO_KIND_BACKEND_RPC, 9, Handle::invalid(), 40).unwrap();
    let mut reply = Reply::bare(Status::Busy);
    reply.regs[0] = 5;
    let mut c = PendingBackendCompletion {
        op_kind: BACKEND_OP_NONE,
        op_id: op.raw(),
        backend_err: 0,
        backend_reply: reply,
        ctx: BackendOpCtx { badge: 9, client_handle_raw: 0, stage: 0, data: [0; 6] },
        payload: BackendPayload::Empty,
    };
    assert!(matches!(
        complete_backend_op(&mut st, &mut rpc, 60, &c, &facts()),
        Settled::Unclaimed
    ));
    let (slot, r) = pass_reply_through(&mut rpc, &c);
    assert_eq!((slot, r.label, r.regs[0]), (40, Status::Busy, 5));
    assert!(rpc.pool.get(op).is_none());
    let op = rpc.pool.allocate(PO_KIND_BACKEND_RPC, 9, Handle::invalid(), 41).unwrap();
    c.op_id = op.raw();
    c.op_kind = 46;
    let (slot, r) = pass_reply_through(&mut rpc, &c);
    assert_eq!((slot, r.label, r.regs[0]), (41, Status::InvalidOperation, 0));
}

#[test]
fn loop_waits_no_longer_than_a_tick() {
    assert_eq!(owner_timer_ns(0), 100_000_000);
    assert_eq!(owner_timer_ns(5), 5);
    assert_eq!(owner_timer_ns(200_000_000), 100_000_000);
    assert_eq!(endpoint_count(0), 1);
    assert_eq!(endpoint_count(9), 2);
    assert_eq!(count_tick(8), (9, false));
    assert_eq!(count_tick(9), (10, true));
    assert_eq!(count_tick(u64::MAX), (0, true));
    assert_eq!(slow_op_ns(0, 100_000_000), None);
    assert_eq!(slow_op_ns(1, 24_999_999), None);
    assert_eq!(slow_op_ns(1, 25_000_001), Some(25_000_000));
    assert_eq!(slow_op_ns(9, 3), None);
}

#[test]
fn workers_are_not_taken_for_a_terminal() {
    assert_eq!(classify_wake(true, true, 1), Wake::Tick);
    assert_eq!(classify_wake(false, false, 1), Wake::Request);
    assert_eq!(classify_wake(false, true, 5), Wake::Terminals { bits: 5 });
    assert_eq!(classify_wake(false, true, WORKER_COMPLETION_NTFN_BIT), Wake::Signal);
    assert_eq!(
        classify_wake(false, true, WORKER_COMPLETION_NTFN_BIT | 5),
        Wake::Terminals { bits: 5 }
    );
}

#[test]
fn state_of_the_disk_is_told() {
    assert_eq!(rootfs_status_name(0), "pending");
    assert_eq!(rootfs_status_name(1), "ready");
    assert_eq!(rootfs_status_name(2), "failed");
    assert_eq!(rootfs_status_name(3), "unknown");
    let mut st = booted();
    assert!(should_log_owner_timeout_state(&st, 0));
    assert!(!should_log_owner_timeout_state(&st, 1));
    st.boot_dirs.real_root_mount = Handle { slot: 9, epoch: 0 };
    assert!(should_log_owner_timeout_state(&st, 1));
}

#[test]
fn service_comes_up() {
    let q = register_request();
    assert_eq!((q.op, q.length, q.regs[0], q.regs[31]), (Opcode::NamesrvRegister, 32, 3, 1));
    assert_eq!(get_bytes(&q.regs, 1, 3), b"vfs".to_vec());
    assert_eq!(bind_boot_notifications(0, 0, None), Binding::Unbound);
    assert_eq!(bind_boot_notifications(5, 1, None), Binding::Unbound);
    assert_eq!(
        bind_boot_notifications(5, 0, None),
        Binding::Bound { ntfn: 5, bits: WORKER_COMPLETION_NTFN_BIT }
    );
    assert_eq!(bind_boot_notifications(5, 0, Some((8, 0))), Binding::Bound { ntfn: 8, bits: 0 });
    assert_eq!(
        bind_boot_notifications(5, 0, Some((8, 3))),
        Binding::BoundAndFree { ntfn: 5, bits: WORKER_COMPLETION_NTFN_BIT, free: 8 }
    );
    assert_eq!(allocate_netsrv_callback_ep(0, Some(3), true, 0), (None, None));
    assert_eq!(allocate_netsrv_callback_ep(9, None, true, 0), (None, None));
    assert_eq!(allocate_netsrv_callback_ep(9, Some(3), true, 0), (Some(3), None));
    assert_eq!(allocate_netsrv_callback_ep(9, Some(3), false, 0), (None, Some(3)));
    assert_eq!(allocate_netsrv_callback_ep(9, Some(3), true, 7), (None, Some(3)));
    assert_eq!(spawn_workers(0, &[true, true, false, true]), 2);
    assert_eq!(spawn_workers(0, &[true; 4]), 4);
    assert_eq!(spawn_workers(1, &[true; 4]), 0);
    let mut slots = [0u64; 4];
    set_worker_recv_slot(&mut slots, 3, 9);
    set_worker_recv_slot(&mut slots, 4, 9);
    assert_eq!(slots, [0, 0, 0, 9]);
    assert!(worker_sleeps(3, 3));
    assert!(!worker_sleeps(3, 4));
}

#[test]
fn terminal_is_asked_for_its_generation() {
    assert!(live_pty_request(0, 4).is_none());
    let q = live_pty_request(50, 4).unwrap();
    assert_eq!(q.op, Opcode::PtyLookup);
    assert_eq!((q.length, q.regs[0], q.regs[1]), (1, 4, 0));
    let mut a = Reply::bare(Status::Success);
    a.regs[0] = 0x1_0000_0009;
    assert_eq!(lookup_live_pty_generation(0, &a), Some(9));
    assert_eq!(lookup_live_pty_generation(1, &a), None);
    assert_eq!(lookup_live_pty_generation(0, &Reply::bare(Status::NotFound)), None);
}

#[test]
fn failed_lookup_ends_the_walk() {
    let mut regs = [0u64; 32];
    put_bytes(&mut regs, 1, b"/mnt/a");
    regs[0] = 6;
    let c = Call { label: Label::Statfs, length: 2, regs };
    for (err, label) in [(0, Status::NotFound), (0, Status::Busy), (3, Status::Success)] {
        let mut st = with_disk();
        let mut rpc = one_worker();
        let vnodes = st.vnodes.len();
        dispatch_request(&mut st, &mut rpc, &c, 7, 0, Some(40), None);
        let a = answer(&mut rpc, err, Reply::bare(label));
        match complete_backend_op(&mut st, &mut rpc, 0, &a, &facts()) {
            Settled::Walk(ResumeDone::Dispatch { op, kind, saved }) => {
                assert_eq!(kind, PO_KIND_STATVFS_CONT);
                assert_eq!(saved.resume_step, NAMEI_STEP_DONE);
                assert!(!saved.current.is_valid());
                assert_eq!(saved.path, b"/mnt/a".to_vec());
                assert_eq!(rpc.pool.get(op).unwrap().reply_slot, 40);
            }
            _ => panic!("the request decides"),
        }
        assert_eq!(st.vnodes.len(), vnodes);
    }
    // A walk for no request drops the reply.
    let mut st = with_disk();
    let mut rpc = one_worker();
    dispatch_request(&mut st, &mut rpc, &c, 7, 0, Some(40), None);
    let a = answer(&mut rpc, 0, Reply::bare(Status::NotFound));
    let op = PendingOpId::from_raw(a.op_id);
    rpc.pool.get_mut(op).unwrap().kind = PO_KIND_NAMEI_RESUME;
    match complete_backend_op(&mut st, &mut rpc, 0, &a, &facts()) {
        Settled::Walk(ResumeDone::Ended { answer }) => {
            assert_eq!(answer, Some(ReplyAction::Release { reply_slot: 40 }));
        }
        _ => panic!("nobody is told"),
    }
    assert!(rpc.pool.get(op).is_none());
}

#[test]
fn depth_of_links_counts_where_one_is_followed() {
    let mut st = booted();
    st.bootstrap_create_symlink_path(b"/mnt/l", 0o777, b"/etc", 5).unwrap();
    let root = st.root_vnode().unwrap();
    let etc = st.bootstrap_lookup_path(b"/etc").unwrap();
    let ended = |w: Walk| match w {
        Walk::End(v) => v,
        _ => panic!("the walk ends"),
    };
    let deep = BOOTSTRAP_SYMLINK_DEPTH_MAX + 1;
    let m = plain_mode(true);
    assert_eq!(ended(walk_from(&st, b"/etc", 1, root, deep, m)), Some(etc));
    assert_eq!(ended(walk_from(&st, b"/mnt/l", 1, root, deep, m)), None);
    assert_eq!(ended(walk_from(&st, b"/mnt/l", 1, root, deep - 2, m)), Some(etc));
    assert_eq!(ended(walk_from(&st, b"/mnt/l", 1, root, deep - 1, m)), None);
    assert_eq!(ended(walk_path(&st, b"/etc", deep, m)), None);
}
