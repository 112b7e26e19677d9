//! Operations on the namespace by its directories, and what filesystems offer.

use vfs::arena::Handle;
use vfs::backend_rpc::RpcCore;
use vfs::files::{ObjKind, DEV_CONSOLE, DEV_PTMX, FD_CLOEXEC, O_CLOEXEC, O_RDWR, PERS_POSIX, PERS_WIN32};
use vfs::fs::procfs::{
    procfs_readdir_pid_index, readdir_entry, procfs_vfsops, procfs_vops, release_procfs_mount, ROOT_NAMES,
};
use vfs::fs::saltyfs::{mount_is_noatime, saltyfs_vfsops, saltyfs_vops};
use vfs::fs::saltyfs_ops::{enqueue_setattr_vnode, no_change};
use vfs::fs::sysctlfs::{
    mount_is_sysctlfs, release_sysctlfs_mount, sysctlfs_vfsops, sysctlfs_vops,
};
use vfs::fs::tmpfs::{mount_is_tmpfs, tmpfs_vfsops, tmpfs_vops};
use vfs::layout::{DeviceSeed, FileSeed, Layout};
use vfs::mount::pager_backing;
use vfs::state::{Services, VfsState};
use vfs::status::Status;
use vfs::vnode::{Backend, VnodeType};

fn service() -> VfsState {
    let s = Services { ttysrv_ep: 50, netsrv_ep: 0, netsrv_callback_ep: 0 };
    let mut st = VfsState::new(s).unwrap();
    let mut root_dirs: Vec<Vec<u8>> = Vec::new();
    for d in ["etc", "dev", "proc", "sys", "tmp", "pipe", "initramfs", "newroot", "put_old", "mnt"] {
        root_dirs.push(d.as_bytes().to_vec());
    }
    let l = Layout {
        root_dirs,
        etc_files: vec![FileSeed {
            name: b"passwd".to_vec(),
            mode: 0o644,
            content: b"hi\n".to_vec(),
        }],
        devices: vec![
            DeviceSeed { name: b"console".to_vec(), mode: 0o666, kind: DEV_CONSOLE },
            DeviceSeed { name: b"ptmx".to_vec(), mode: 0o666, kind: DEV_PTMX },
            DeviceSeed { name: b"urandom".to_vec(), mode: 0o444, kind: 9 },
            DeviceSeed { name: b"fb0".to_vec(), mode: 0o666, kind: 10 },
        ],
    };
    assert!(st.initialize_bootstrap_namespace(&l, 1));
    st
}

fn mnt(st: &VfsState) -> Handle {
    st.bootstrap_lookup_path(b"/mnt").unwrap()
}

#[test]
fn child_is_made_once_whatever_its_case() {
    let mut st = service();
    let d = mnt(&st);
    let f = st.bootstrap_create_regular_child_for_personality(d, b"Readme", 0o644, PERS_POSIX);
    let f = f.unwrap();
    assert_eq!(st.vnodes.get(f).unwrap().vtype, VnodeType::Reg);
    assert_eq!(
        st.bootstrap_create_regular_child_for_personality(d, b"README", 0o644, PERS_WIN32),
        Err(Status::AlreadyExists)
    );
    let g = st.bootstrap_create_regular_child_for_personality(d, b"README", 0o644, PERS_POSIX);
    assert_ne!(g.unwrap(), f);
    assert_eq!(
        st.bootstrap_create_regular_child_for_personality(f, b"x", 0o644, PERS_POSIX),
        Err(Status::NotDirectory)
    );
}

#[test]
fn made_directory_holds_links_and_sockets() {
    let mut st = service();
    let d = mnt(&st);
    let sub = st.bootstrap_mkdir_child_for_personality(d, b"sub", 0o755, PERS_POSIX).unwrap();
    let link = st
        .bootstrap_create_symlink_child_for_personality(sub, b"m", 0o777, b"/etc/passwd", PERS_POSIX)
        .unwrap();
    assert_eq!(st.vnodes.get(link).unwrap().vtype, VnodeType::Lnk);
    assert_eq!(
        st.bootstrap_lookup_path(b"/mnt/sub/m"),
        st.bootstrap_lookup_path(b"/etc/passwd")
    );
    let sock =
        st.bootstrap_create_socket_path_for_personality(b"/mnt/sub/s", 0o600, PERS_POSIX).unwrap();
    assert_eq!(st.vnodes.get(sock).unwrap().vtype, VnodeType::Sock);
    assert_eq!(
        st.bootstrap_create_socket_path_for_personality(b"/mnt/sub/s", 0o600, PERS_POSIX),
        Err(Status::AlreadyExists)
    );
    assert_eq!(
        st.bootstrap_remove_child_for_personality(d, b"sub", true, PERS_POSIX),
        Status::Busy
    );
    for name in ["m", "s"] {
        assert_eq!(
            st.bootstrap_remove_child_for_personality(sub, name.as_bytes(), false, PERS_POSIX),
            Status::Success
        );
    }
    assert_eq!(
        st.bootstrap_remove_child_for_personality(d, b"SUB", true, PERS_POSIX),
        Status::NotFound
    );
    assert_eq!(
        st.bootstrap_remove_child_for_personality(d, b"SUB", true, PERS_WIN32),
        Status::Success
    );
    assert!(st.bootstrap_lookup_path(b"/mnt/sub").is_none());
}

#[test]
fn removed_entry_is_the_one_that_was_named() {
    let mut st = service();
    let d = mnt(&st);
    let f = st.bootstrap_create_regular_child_for_personality(d, b"f", 0o644, PERS_POSIX).unwrap();
    assert_eq!(st.bootstrap_remove_entry(d, b"g"), None);
    assert_eq!(st.bootstrap_remove_entry(d, b"f"), Some(f));
    assert_eq!(st.bootstrap_remove_entry(d, b"f"), None);
    assert_eq!(st.bootstrap_lookup_child(d, b"f"), None);
}

#[test]
fn descriptors_of_each_kind() {
    let mut st = service();
    let c = st.ensure_client(7, PERS_POSIX).unwrap();
    let v = st.bootstrap_lookup_path(b"/etc/passwd").unwrap();
    assert_eq!(st.alloc_shm_client_slot(c, v, Handle::invalid(), O_RDWR), None);
    let shm = st.alloc_shm_state(v).unwrap();
    let fd = st.alloc_shm_client_slot(c, v, shm, O_RDWR | O_CLOEXEC).unwrap();
    let f = st.client_open_file(c, fd).unwrap();
    assert!(f.kind == ObjKind::Shm);
    assert_eq!(f.vnode, v);
    assert_eq!(st.client_slot(c, fd).unwrap().fd_flags, FD_CLOEXEC);
    assert_eq!(st.client_directory_slot(c, fd), Some((v, 0, 0)));
    let e = st.alloc_epoll_client_slot(c).unwrap();
    assert_eq!(e, fd + 1);
    assert!(st.client_open_file(c, e).unwrap().kind == ObjKind::Epoll);
    assert_eq!(st.client_directory_slot(c, e + 1), None);
    let h = st.alloc_device_open_file(v, DEV_CONSOLE, 3, 4, O_RDWR).unwrap();
    let f = st.open_files.get(h).unwrap();
    assert!(f.kind == ObjKind::Device);
    assert_eq!(f.device_pty_id, 3);
}

#[test]
fn process_names_come_after_fixed_ones() {
    let st = service();
    let proc_dir = st.boot_dirs.proc_dir;
    assert_eq!(procfs_readdir_pid_index(&st, proc_dir, 0), None);
    assert_eq!(procfs_readdir_pid_index(&st, proc_dir, 1 + ROOT_NAMES), None);
    assert_eq!(procfs_readdir_pid_index(&st, proc_dir, 2 + ROOT_NAMES), Some(0));
    assert_eq!(procfs_readdir_pid_index(&st, proc_dir, 9 + ROOT_NAMES), Some(7));
    assert_eq!(procfs_readdir_pid_index(&st, st.boot_dirs.etc_dir, 9 + ROOT_NAMES), None);
    assert!(matches!(readdir_entry(&st, proc_dir, u64::MAX, None), Some(None)));
    assert!(readdir_entry(&st, st.boot_dirs.etc_dir, u64::MAX, Some(1)).is_none());
}

#[test]
fn released_filesystems_forget_their_nodes() {
    let mut st = service();
    assert!(st.procfs_mounts.len() > 0);
    let m = st.vnodes.get(st.boot_dirs.proc_dir).unwrap();
    let mount = st.mount_by_fs_instance_id(m.fs_instance_id).unwrap();
    assert!(release_procfs_mount(&mut st, mount));
    assert_eq!(st.procfs_mounts.len(), 0);
    assert_eq!(st.proc_nodes.len(), 0);
    let m = st.vnodes.get(st.boot_dirs.sys_dir).unwrap();
    let mount = st.mount_by_fs_instance_id(m.fs_instance_id).unwrap();
    assert!(release_sysctlfs_mount(&mut st, mount));
    assert_eq!(st.sysctlfs_mounts.len(), 0);
    assert_eq!(st.sysctl_leaves.len(), 0);
}

#[test]
fn operations_that_filesystems_offer() {
    assert!(tmpfs_vops().rename_child && tmpfs_vops().truncate && tmpfs_vops().lookup_child);
    assert!(tmpfs_vfsops().statfs && tmpfs_vfsops().resolve_backing);
    assert!(saltyfs_vops().rename_child && saltyfs_vops().link_vnode_into);
    assert!(saltyfs_vfsops().remount && !saltyfs_vfsops().statfs);
    assert!(procfs_vops().readlink_inline && !procfs_vops().mkdir_child);
    assert!(procfs_vfsops().remount && !procfs_vfsops().statfs);
    assert!(sysctlfs_vops().write_regular && !sysctlfs_vops().lookup_child);
    assert!(!sysctlfs_vfsops().statfs);
    assert!(mount_is_tmpfs(Backend::Tmpfs) && !mount_is_tmpfs(Backend::Sysctlfs));
    assert!(mount_is_sysctlfs(Backend::Sysctlfs) && !mount_is_sysctlfs(Backend::Tmpfs));
    assert_eq!(pager_backing(Backend::Procfs), Some(false));
    assert_eq!(pager_backing(Backend::Tmpfs), None);
}

#[test]
fn disk_operations_need_a_disk() {
    let st = service();
    let mut rpc = RpcCore::new();
    let v = st.bootstrap_lookup_path(b"/etc/passwd").unwrap();
    assert!(!mount_is_noatime(&st, v));
    assert!(enqueue_setattr_vnode(&st, &mut rpc, v, no_change()).is_err());
    assert_eq!(st.vnode_by_fs_instance_and_inode_id(st.vnodes.get(v).unwrap().fs_instance_id, u64::MAX), None);
}

#[test]
fn tables_have_room_for_a_number_of_entries() {
    let s = Services { ttysrv_ep: 0, netsrv_ep: 0, netsrv_callback_ep: 0 };
    let st = VfsState::new(s).unwrap();
    assert_eq!((st.vnodes.limit(), st.mounts.limit(), st.clients.limit()), (256, 32, 32));
    assert_eq!((st.open_files.limit(), st.namespaces.limit(), st.epolls.limit()), (256, 8, 16));
    assert_eq!((st.devfs_mounts.limit(), st.pipefs_mounts.limit()), (4, 4));
    assert_eq!((st.procfs_mounts.limit(), st.sysctlfs_mounts.limit()), (4, 4));
    assert_eq!((st.tmpfs_mounts.limit(), st.saltyfs_mounts.limit()), (8, 4));
}
