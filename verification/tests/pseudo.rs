//! Processes and system variables as files.

use vfs::arena::Handle;
use vfs::backend_rpc::{BackendPayload, PendingBackendCompletion, RpcCore};
use vfs::files::{ObjKind, DEV_CONSOLE, DEV_PTMX, O_RDONLY, O_WRONLY, PERS_POSIX};
use vfs::fs::mounting::{
    alloc_devfs_mount, alloc_pipefs_mount, devfs_vfsops, devfs_vops, mount_is_devfs,
    mount_is_pipefs, mount_number, pipefs_vfsops, pipefs_vops, release_devfs_mount,
    release_pipefs_mount,
};
use vfs::fs::proc_rpc::{
    complete_procfs_read, complete_procfs_readdir, complete_procfs_readlink, defer_procfs_read,
    defer_procfs_readdir, defer_procfs_readlink, fd_in_lower, fd_in_upper, inline_reply,
    kind_and_fd, proc_read_kind, proc_read_needs_deferred, proc_readlink_needs_deferred, Deferral,
    Done, KernelFacts, ReadDone,
};
use vfs::fs::procfs::{
    current_pid, lookup_dynamic_path, parse_procfs_hidepid, pid_named_by_path, proc_inode,
    proc_root_mount, procfs_read_regular, procfs_remount, procfs_validate_open,
    procfs_write_regular, readdir_entry, readlink_target, PidFacts, ProcFacts,
};
use vfs::fs::proctext::{
    format_cpuinfo, format_filesystems, format_meminfo, format_mounts, format_pid_comm,
    format_pid_stat, format_pid_statm, format_pid_status, format_root_loadavg, format_root_stat,
    format_uptime, format_version, proc_state_char, SystemStats,
};
use vfs::fs::records::ProcNodeKind;
use vfs::fs::sysctlfs::{
    parse_i32, parse_sysctlfs_flags, read_part, sysctlfs_read_regular, sysctlfs_write_regular,
    SysFacts,
};
use vfs::layout::{DeviceSeed, FileSeed, Layout};
use vfs::mount::MNT_RDONLY;
use vfs::state::{Services, VfsState};
use vfs::owner_loop::{complete_backend_op, Settled};
use vfs::status::Status;
use vfs::vnode::Backend;
use vfs::wire::{get_bytes, put_bytes, KinfoProc, ProcMemSnapshot, Reply, SysCpu, SysInfo, SysMemInfo};

fn booted() -> VfsState {
    let s = Services { ttysrv_ep: 50, netsrv_ep: 51, netsrv_callback_ep: 52 };
    let mut st = VfsState::new(s).unwrap();
    let mut root_dirs: Vec<Vec<u8>> = Vec::new();
    for d in ["etc", "dev", "proc", "sys", "tmp", "pipe", "initramfs", "newroot"] {
        root_dirs.push(d.as_bytes().to_vec());
    }
    let l = Layout {
        root_dirs,
        etc_files: vec![FileSeed { name: b"passwd".to_vec(), mode: 0o644, content: vec![] }],
        devices: vec![
            DeviceSeed { name: b"console".to_vec(), mode: 0o666, kind: DEV_CONSOLE },
            DeviceSeed { name: b"ptmx".to_vec(), mode: 0o666, kind: DEV_PTMX },
        ],
    };
    assert!(st.initialize_bootstrap_namespace(&l, 1000));
    st
}

fn kinfo() -> KinfoProc {
    KinfoProc {
        comm: b"sh\0xx".to_vec(),
        state: 1,
        pid: 42,
        ppid: 1,
        pgid: 40,
        sid: 41,
        tty_dev: 5,
        num_threads: 2,
        vm_size: 8192,
        vm_rss: 4096,
        start_time_ns: 30_000_000,
    }
}

fn info() -> SysInfo {
    SysInfo {
        cpu_count: 2,
        boot_time_ns: 5_000_000_000,
        uptime_ns: 12_345_678_901,
        context_switches_total: 99,
    }
}

fn cpus() -> Vec<SysCpu> {
    vec![
        SysCpu { user_time_ns: 20_000_000, system_time_ns: 30_000_000, idle_time_ns: 1_500_000_000 },
        SysCpu { user_time_ns: 10_000_000, system_time_ns: 0, idle_time_ns: 500_000_000 },
    ]
}

fn memory() -> SysMemInfo {
    SysMemInfo {
        page_size: 4096,
        pages_total: 100,
        pages_free: 40,
        pages_page_cache: 10,
        pages_dirty_file: 1,
        pages_writeback_file: 2,
        pages_active: 3,
        pages_inactive: 4,
        pages_anon_private: 5,
        pages_anon_shared: 6,
        pages_file: 7,
        pages_kernel_slab: 8,
        pages_kernel_pagetable: 9,
        pages_kernel_stack: 11,
        pages_emergency_reserve: 12,
    }
}

fn stats() -> SystemStats {
    SystemStats { procs_total: 12, procs_running: 3, last_pid: 77 }
}

fn proc_facts() -> ProcFacts {
    ProcFacts {
        kinfo: Some(kinfo()),
        times: Some((20_000_000, 10_000_000, 2)),
        argv: Some(b"sh\0-c\0".to_vec()),
        mem: snapshot(),
        stats: stats(),
        info: info(),
        cpus: cpus(),
        meminfo: memory(),
    }
}

fn snapshot() -> ProcMemSnapshot {
    ProcMemSnapshot {
        vm_reserved_bytes: 8192,
        vm_resident_pages: 3,
        resident_file: 1,
        vm_exe_bytes: 4096,
        vm_lib_bytes: 0,
        vm_data_bytes: 12288,
    }
}

fn pid_facts(alive: bool) -> PidFacts {
    PidFacts { alive, still_alive: alive, exe: Some(b"/bin/sh".to_vec()) }
}

fn text(v: Vec<u8>) -> String {
    String::from_utf8(v).unwrap()
}

#[test]
fn process_files_have_their_text() {
    let k = kinfo();
    assert_eq!(
        text(format_pid_status(&k)),
        "Name:\tsh\nState:\tR\nPid:\t42\nPPid:\t1\nPgid:\t40\nSid:\t41\nThreads:\t2\nVmSize:\t8 kB\nVmRSS:\t4 kB\n"
    );
    assert_eq!(
        text(format_pid_stat(&k, 20_000_000, 10_000_000, 2)),
        "42 (sh) R 1 40 41 5 0 0 0 0 0 2 1 0 0 20 0 2 0 0 3 8192 1\n"
    );
    assert_eq!(text(format_pid_comm(&k)), "sh\n");
    assert_eq!(text(format_pid_statm(&snapshot())), "2 3 1 1 0 3 0\n");
    assert_eq!(proc_state_char(2), b'Z');
    assert_eq!(proc_state_char(3), b'T');
    assert_eq!(proc_state_char(0), b'S');
}

#[test]
fn machine_files_have_their_text() {
    assert_eq!(
        text(format_root_stat(&info(), &cpus(), &stats())),
        "cpu 3 0 3 200 0 0 0 0\ncpu0 2 0 3 150 0 0 0 0\ncpu1 1 0 0 50 0 0 0 0\nintr 0\nctxt 99\nbtime 5\nprocesses 12\nprocs_running 3\nprocs_blocked 0\n"
    );
    assert_eq!(text(format_uptime(&info(), &cpus())), "12.34 2.00\n");
    assert_eq!(text(format_root_loadavg(&stats())), "0.00 0.00 0.00 3/12 77\n");
    assert_eq!(
        text(format_version()),
        "SaltyOS version 0.1.0 (salty@salty) #1 SMP PREEMPT\n"
    );
    let m = text(format_meminfo(&memory()));
    assert!(m.starts_with("MemTotal: 400 kB\nMemFree: 160 kB\nMemAvailable: 152 kB\nCached: 40 kB\n"));
    assert!(m.ends_with("PageTables: 36 kB\nSwapTotal: 0 kB\nSwapFree: 0 kB\n"));
    let c = text(format_cpuinfo(&info()));
    assert_eq!(c.matches("processor\t: ").count(), 2);
    assert!(c.contains("siblings\t: 2\ncore id\t\t: 1\n"));
}

#[test]
fn mounts_and_filesystems_are_listed() {
    let st = booted();
    let m = text(format_mounts(&st));
    assert!(m.contains("tmpfs /tmp tmpfs rw 0 0\n"));
    assert!(m.contains("procfs /proc procfs rw 0 0\n"));
    let f = text(format_filesystems(&st));
    assert_eq!(
        f,
        "nodev\tbootfs\nnodev\tdevfs\nnodev\tprocfs\nnodev\ttmpfs\nnodev\tsysctlfs\nnodev\tpipefs\n"
    );
}

#[test]
fn process_nodes_are_numbered_apart() {
    assert_eq!(proc_inode(ProcNodeKind::PidDir, 7), (10u64 << 32) | 7);
    assert_ne!(proc_inode(ProcNodeKind::PidStat, 7), proc_inode(ProcNodeKind::PidStatus, 7));
    assert_ne!(proc_inode(ProcNodeKind::PidStat, 7), proc_inode(ProcNodeKind::PidStat, 8));
}

#[test]
fn processes_are_found_by_path() {
    let mut st = booted();
    let c = st.ensure_client(7, PERS_POSIX).unwrap();
    assert_eq!(current_pid(&st, c), 7);
    assert_eq!(pid_named_by_path(&st, c, b"/proc/42/stat"), Some(42));
    assert_eq!(pid_named_by_path(&st, c, b"/etc"), None);
    let v = lookup_dynamic_path(&mut st, c, b"/proc/42/stat", false, &pid_facts(true)).unwrap();
    assert_eq!(proc_read_kind(&st, v), Some((ProcNodeKind::PidStat, 42)));
    assert_eq!(
        lookup_dynamic_path(&mut st, c, b"/proc/42/stat", false, &pid_facts(true)),
        Some(v)
    );
    assert!(lookup_dynamic_path(&mut st, c, b"/proc/43", false, &pid_facts(false)).is_none());
    assert!(lookup_dynamic_path(&mut st, c, b"/proc/42/nothing", false, &pid_facts(true)).is_none());
    assert_eq!(
        procfs_read_regular(&st, Some(c), v, 0, 100, &proc_facts()),
        Ok(b"42 (sh) R 1 40 41 5 0 0 0 0 0 2 1 0 0 20 0 2 0 0 3 8192 1\n".to_vec())
    );
    assert_eq!(procfs_read_regular(&st, Some(c), v, 3, 4, &proc_facts()), Ok(b"(sh)".to_vec()));
    assert!(procfs_read_regular(&st, Some(c), Handle::invalid(), 0, 4, &proc_facts()).is_err());
    let exe = lookup_dynamic_path(&mut st, c, b"/proc/42/exe", true, &pid_facts(true)).unwrap();
    assert_eq!(
        readlink_target(&st, c, exe, 64, Some(b"/bin/sh".to_vec())),
        Some(b"/bin/sh".to_vec())
    );
}

#[test]
fn hidden_processes_stay_hidden() {
    let mut st = booted();
    let c = st.ensure_client(7, PERS_POSIX).unwrap();
    let m = proc_root_mount(&st).unwrap();
    assert_eq!(parse_procfs_hidepid(b"hidepid=2"), Some(2));
    assert_eq!(parse_procfs_hidepid(b"hidepid=3"), None);
    assert_eq!(parse_procfs_hidepid(b"x,hidepid=0"), Some(0));
    assert_eq!(procfs_remount(&mut st, m, b"hidepid=1"), Status::Success);
    assert!(lookup_dynamic_path(&mut st, c, b"/proc/42", false, &pid_facts(true)).is_none());
    assert!(lookup_dynamic_path(&mut st, c, b"/proc/7", false, &pid_facts(true)).is_some());
    assert_eq!(procfs_remount(&mut st, m, b"hidepid=0"), Status::Success);
    assert!(lookup_dynamic_path(&mut st, c, b"/proc/42", false, &pid_facts(true)).is_some());
}

#[test]
fn process_files_take_no_writes() {
    assert_eq!(procfs_validate_open(O_RDONLY), Status::Success);
    assert_ne!(procfs_validate_open(O_WRONLY), Status::Success);
    assert!(procfs_write_regular().is_err());
}

#[test]
fn directory_of_a_process_is_listed() {
    let mut st = booted();
    let c = st.ensure_client(7, PERS_POSIX).unwrap();
    let d = lookup_dynamic_path(&mut st, c, b"/proc/42", false, &pid_facts(true)).unwrap();
    let mut names: Vec<Vec<u8>> = Vec::new();
    let mut cursor: u64 = 0;
    while let Some(Some(e)) = readdir_entry(&st, d, cursor, None) {
        names.push(e.name);
        cursor = e.next_cursor;
    }
    assert_eq!(names.len(), 8);
    assert_eq!(names[0], b".".to_vec());
    for n in ["..", "stat", "status", "cmdline", "comm", "statm", "exe"] {
        assert!(names.contains(&n.as_bytes().to_vec()));
    }
    assert!(readdir_entry(&st, Handle::invalid(), 0, None).is_none());
}

#[test]
fn descriptors_travel_in_a_word() {
    for fd in [0i32, 7, 255, -1] {
        assert_eq!(fd_in_upper(kind_and_fd(ProcNodeKind::PidStat, fd)), fd);
    }
    assert_eq!(fd_in_lower(0xffff_ffff), -1);
    assert_eq!(fd_in_lower(9), 9);
    assert!(proc_read_needs_deferred(ProcNodeKind::PidStatus));
    assert!(!proc_read_needs_deferred(ProcNodeKind::RootVersion));
    assert!(proc_readlink_needs_deferred(ProcNodeKind::PidExe));
    let r = inline_reply(b"hello");
    assert_eq!(r.label, Status::Success);
    assert_eq!(r.regs[0], 5);
    assert_eq!(get_bytes(&r.regs, 1, 5), b"hello".to_vec());
}

fn answer(
    rpc: &mut RpcCore,
    err: u64,
    reply: Reply,
    payload: BackendPayload,
) -> PendingBackendCompletion {
    let job = rpc.jobs.pop().unwrap();
    let id = vfs::pending_ops::PendingOpId::from_raw(job.op_id);
    assert!(rpc.pool.mark_running(id));
    assert!(rpc.pool.try_complete(id));
    PendingBackendCompletion {
        op_kind: job.op_kind,
        op_id: job.op_id,
        backend_err: err,
        backend_reply: reply,
        ctx: job.ctx,
        payload,
    }
}

fn facts() -> KernelFacts {
    KernelFacts { info: info(), cpus: cpus() }
}

#[test]
fn deferred_read_answers_its_reader() {
    let mut st = booted();
    let mut rpc = RpcCore::new();
    rpc.workers.spawned = 1;
    let c = st.ensure_client(7, PERS_POSIX).unwrap();
    let v = lookup_dynamic_path(&mut st, c, b"/proc/42/status", false, &pid_facts(true)).unwrap();
    let fd = st.alloc_client_slot(c, v, ObjKind::File, O_RDONLY).unwrap() as i32;
    let d = defer_procfs_read(
        &st, &mut rpc, 60, c, fd, v, 0, 8, ProcNodeKind::PidStatus, 42, false, Some(40),
    );
    assert_eq!(d, Deferral::Queued { worker: 0 });
    let a = answer(&mut rpc, 0, Reply::bare(Status::Success), BackendPayload::Kinfo(kinfo()));
    match complete_procfs_read(&mut st, &mut rpc, 60, &a, &facts()) {
        ReadDone::Answered { reply_slot, reply } => {
            assert_eq!(reply_slot, 40);
            assert_eq!(reply.regs[0], 8);
            assert_eq!(get_bytes(&reply.regs, 1, 8), b"Name:\tsh".to_vec());
        }
        _ => panic!("the reader is answered"),
    }
    assert_eq!(st.client_open_file(c, fd as usize).unwrap().offset, 8);
    assert!(matches!(
        complete_procfs_read(&mut st, &mut rpc, 60, &a, &facts()),
        ReadDone::NotMine
    ));
}

#[test]
fn deferred_read_fails_or_is_dropped() {
    let mut st = booted();
    let mut rpc = RpcCore::new();
    rpc.workers.spawned = 1;
    let c = st.ensure_client(7, PERS_POSIX).unwrap();
    let v = lookup_dynamic_path(&mut st, c, b"/proc/42/comm", false, &pid_facts(true)).unwrap();
    let fd = st.alloc_client_slot(c, v, ObjKind::File, O_RDONLY).unwrap();
    let start = |st: &VfsState, rpc: &mut RpcCore| {
        defer_procfs_read(
            st, rpc, 60, c, fd as i32, v, 0, 8, ProcNodeKind::PidComm, 42, false, Some(40),
        )
    };
    assert_eq!(start(&st, &mut rpc), Deferral::Queued { worker: 0 });
    let a = answer(&mut rpc, 5, Reply::bare(Status::Success), BackendPayload::Empty);
    assert!(matches!(
        complete_procfs_read(&mut st, &mut rpc, 60, &a, &facts()),
        ReadDone::Failed { reply_slot: 40, label: Status::InvalidOperation }
    ));
    assert_eq!(start(&st, &mut rpc), Deferral::Queued { worker: 0 });
    let a = answer(&mut rpc, 0, Reply::bare(Status::Success), BackendPayload::Kinfo(kinfo()));
    st.release_client_slot(c, fd);
    assert!(matches!(
        complete_procfs_read(&mut st, &mut rpc, 60, &a, &facts()),
        ReadDone::Dropped { release: 40 }
    ));
    let none = defer_procfs_read(
        &st, &mut rpc, 60, c, 0, v, 0, 8, ProcNodeKind::PidComm, 42, false, None,
    );
    assert_eq!(none, Deferral::Unsaved);
}

#[test]
fn stat_of_a_process_takes_two_calls() {
    let mut st = booted();
    let mut rpc = RpcCore::new();
    rpc.workers.spawned = 1;
    let c = st.ensure_client(7, PERS_POSIX).unwrap();
    let v = lookup_dynamic_path(&mut st, c, b"/proc/42/stat", false, &pid_facts(true)).unwrap();
    let fd = st.alloc_client_slot(c, v, ObjKind::File, O_RDONLY).unwrap() as i32;
    let d = defer_procfs_read(
        &st, &mut rpc, 60, c, fd, v, 0, 100, ProcNodeKind::PidStat, 42, true, Some(40),
    );
    assert_eq!(d, Deferral::Queued { worker: 0 });
    let a = answer(&mut rpc, 0, Reply::bare(Status::Success), BackendPayload::Kinfo(kinfo()));
    assert!(matches!(
        complete_procfs_read(&mut st, &mut rpc, 60, &a, &facts()),
        ReadDone::Chained { worker: 0 }
    ));
    let mut times = Reply::bare(Status::Success);
    times.length = 3;
    times.regs[0] = 20_000_000;
    times.regs[1] = 10_000_000;
    times.regs[2] = 2;
    let a = answer(&mut rpc, 0, times, BackendPayload::Empty);
    match complete_procfs_read(&mut st, &mut rpc, 60, &a, &facts()) {
        ReadDone::Answered { reply, .. } => {
            assert_eq!(get_bytes(&reply.regs, 1, 7), b"42 (sh)".to_vec());
        }
        _ => panic!("the reader is answered"),
    }
    assert_eq!(st.client_open_file(c, fd as usize).unwrap().offset, 0);
}

#[test]
fn deferred_link_and_listing_are_answered() {
    let mut st = booted();
    let mut rpc = RpcCore::new();
    rpc.workers.spawned = 1;
    let c = st.ensure_client(7, PERS_POSIX).unwrap();
    let v = lookup_dynamic_path(&mut st, c, b"/proc/42/exe", true, &pid_facts(true)).unwrap();
    assert_eq!(
        defer_procfs_readlink(&st, &mut rpc, 60, c, v, 42, Some(40)),
        Deferral::Queued { worker: 0 }
    );
    let mut r = Reply::bare(Status::Success);
    r.regs[0] = 7;
    put_bytes(&mut r.regs, 1, b"/bin/sh");
    let a = answer(&mut rpc, 0, r, BackendPayload::Empty);
    match complete_procfs_readlink(&mut rpc, &a) {
        Done::Answered { reply_slot: 40, reply } => {
            assert_eq!(get_bytes(&reply.regs, 1, 7), b"/bin/sh".to_vec());
        }
        _ => panic!("the caller is answered"),
    }
    let dir = st.bootstrap_lookup_path(b"/proc").unwrap();
    let fd = st.alloc_client_slot(c, dir, ObjKind::Directory, O_RDONLY).unwrap() as i32;
    assert_eq!(
        defer_procfs_readdir(&st, &mut rpc, 60, c, fd, dir, 11, 0, Some(41)),
        Deferral::Queued { worker: 0 }
    );
    let mut r = Reply::bare(Status::Success);
    r.regs[0] = 1;
    let a = answer(&mut rpc, 0, r, BackendPayload::Pid(42));
    match complete_procfs_readdir(&mut st, &mut rpc, &a) {
        Done::Answered { reply_slot: 41, reply } => assert_eq!(reply.label, Status::Success),
        _ => panic!("the caller is answered"),
    }
}

#[test]
fn host_name_reads_back() {
    let mut st = booted();
    let v = st.bootstrap_lookup_path(b"/sys/kern/hostname").unwrap();
    let f = SysFacts { info: info(), mem: memory() };
    assert_eq!(sysctlfs_write_regular(&mut st, v, 0, b"box\n"), Ok(4));
    assert_eq!(sysctlfs_read_regular(&st, v, 0, 64, &f), Ok(b"box\n".to_vec()));
    assert_eq!(sysctlfs_read_regular(&st, v, 1, 1, &f), Ok(b"o".to_vec()));
    assert_eq!(sysctlfs_write_regular(&mut st, v, 1, b"x"), Err(Status::InvalidOperation));
}

#[test]
fn secure_level_reads_back() {
    let mut st = booted();
    let v = st.bootstrap_lookup_path(b"/sys/security/securelevel").unwrap();
    let f = SysFacts { info: info(), mem: memory() };
    assert_eq!(sysctlfs_write_regular(&mut st, v, 0, b"-1\n"), Ok(3));
    assert_eq!(sysctlfs_read_regular(&st, v, 0, 64, &f), Ok(b"-1\n".to_vec()));
    assert_eq!(sysctlfs_write_regular(&mut st, v, 0, b"abc"), Err(Status::InvalidArgument));
    assert_eq!(parse_i32(b" -2147483647\n"), Some(-2147483647));
    assert_eq!(parse_i32(b"-2147483648"), None);
    assert_eq!(parse_i32(b"2147483648"), None);
}

#[test]
fn fixed_variables_show_the_machine() {
    let mut st = booted();
    let f = SysFacts { info: info(), mem: memory() };
    for (path, want) in [
        ("/sys/kern/ostype", "SaltyOS\n"),
        ("/sys/kern/osrelease", "0.1.0\n"),
        ("/sys/kern/maxproc", "256\n"),
        ("/sys/kern/context_switches", "99\n"),
        ("/sys/hw/ncpu", "2\n"),
        ("/sys/hw/pagesize", "4096\n"),
        ("/sys/hw/physmem", "409600\n"),
        ("/sys/vm/pages_free", "163840\n"),
    ] {
        let v = st.bootstrap_lookup_path(path.as_bytes()).unwrap();
        assert_eq!(sysctlfs_read_regular(&st, v, 0, 64, &f), Ok(want.as_bytes().to_vec()));
    }
    let v = st.bootstrap_lookup_path(b"/sys/kern/ostype").unwrap();
    assert_eq!(sysctlfs_write_regular(&mut st, v, 0, b"x"), Err(Status::InvalidOperation));
    assert_eq!(read_part(b"hello", 3, 10), b"lo".to_vec());
    assert_eq!(read_part(b"hello", 9, 10), b"".to_vec());
    assert_eq!(parse_sysctlfs_flags(0, b"ro"), MNT_RDONLY);
    assert_eq!(parse_sysctlfs_flags(MNT_RDONLY, b"rw"), MNT_RDONLY);
}

#[test]
fn device_and_pipe_mounts_come_and_go() {
    let mut st = booted();
    assert!(mount_is_devfs(Backend::Devfs));
    assert!(!mount_is_devfs(Backend::Tmpfs));
    assert!(mount_is_pipefs(Backend::Pipefs));
    assert!(!devfs_vfsops().statfs);
    assert!(!pipefs_vfsops().remount);
    assert_eq!(devfs_vops(), pipefs_vops());
    let d = alloc_devfs_mount(&mut st, b"/d", 0).unwrap();
    assert_eq!(st.mounts.get(d).unwrap().fs_type, b"devfs".to_vec());
    assert_eq!(st.mounts.get(d).unwrap().id, mount_number(d.slot));
    let n = st.devfs_mounts.len();
    assert!(release_devfs_mount(&mut st, d));
    assert_eq!(st.devfs_mounts.len(), n - 1);
    let p = alloc_pipefs_mount(&mut st, b"/p", 0).unwrap();
    let n = st.pipefs_mounts.len();
    assert!(release_pipefs_mount(&mut st, p));
    assert_eq!(st.pipefs_mounts.len(), n - 1);
}

#[test]
fn deferred_read_behind_the_end_gives_nothing() {
    let mut st = booted();
    let mut rpc = RpcCore::new();
    rpc.workers.spawned = 1;
    let c = st.ensure_client(7, PERS_POSIX).unwrap();
    let v = lookup_dynamic_path(&mut st, c, b"/proc/42/status", false, &pid_facts(true)).unwrap();
    let fd = st.alloc_client_slot(c, v, ObjKind::File, O_RDONLY).unwrap() as i32;
    defer_procfs_read(
        &st, &mut rpc, 60, c, fd, v, u64::MAX, 8, ProcNodeKind::PidStatus, 42, true, Some(40),
    );
    let a = answer(&mut rpc, 0, Reply::bare(Status::Success), BackendPayload::Kinfo(kinfo()));
    match complete_backend_op(&mut st, &mut rpc, 60, &a, &facts()) {
        Settled::ProcRead(ReadDone::Answered { reply_slot, reply }) => {
            assert_eq!(reply_slot, 40);
            assert_eq!((reply.label, reply.regs[0], reply.length), (Status::Success, 0, 1));
        }
        _ => panic!("the reader is answered"),
    }
}
