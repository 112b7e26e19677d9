//! The namespace: how it is laid out, names, mounts, clients and what they have open.

use vfs::arena::Handle;
use vfs::boot_ops::{bootstrap_file_mode, device_inode, personality_ignore_case};
use vfs::bootstrap::{mode_for, page_align_up, passes_by};
use vfs::files::{
    ObjKind, DEV_CONSOLE, DEV_PTMX, FD_CLOEXEC, O_CLOEXEC, O_RDONLY, O_RDWR, PERS_POSIX, PERS_WIN32,
};
use vfs::fs::mounting::alloc_tmpfs_mount;
use vfs::layout::{DeviceSeed, FileSeed, Layout};
use vfs::mount::{MNT_POSIX_ONLY, MNT_WIN32_ONLY};
use vfs::namespace::bootstrap_dir_mode;
use vfs::objects::shm_id;
use vfs::state::{Effect, Services, VfsState};
use vfs::status::Status;
use vfs::vnode::{VnodeType, S_IFDIR, S_IFREG};

fn layout() -> Layout {
    let mut root_dirs: Vec<Vec<u8>> = Vec::new();
    for d in ["etc", "dev", "proc", "sys", "tmp", "pipe", "initramfs", "newroot", "put_old", "mnt"] {
        root_dirs.push(d.as_bytes().to_vec());
    }
    Layout {
        root_dirs,
        etc_files: vec![FileSeed {
            name: b"passwd".to_vec(),
            mode: 0o644,
            content: b"root:x:0:0\n".to_vec(),
        }],
        devices: vec![
            DeviceSeed { name: b"console".to_vec(), mode: 0o666, kind: DEV_CONSOLE },
            DeviceSeed { name: b"ptmx".to_vec(), mode: 0o666, kind: DEV_PTMX },
            DeviceSeed { name: b"urandom".to_vec(), mode: 0o444, kind: 9 },
            DeviceSeed { name: b"fb0".to_vec(), mode: 0o666, kind: 10 },
        ],
    }
}

fn booted() -> VfsState {
    let s = Services { ttysrv_ep: 50, netsrv_ep: 51, netsrv_callback_ep: 52 };
    let mut st = VfsState::new(s).unwrap();
    assert!(st.initialize_bootstrap_namespace(&layout(), 1000));
    st
}

fn find(st: &VfsState, path: &[u8]) -> Handle {
    st.bootstrap_lookup_path(path).unwrap()
}

#[test]
fn layout_has_every_place() {
    let st = booted();
    assert_eq!(find(&st, b"/etc"), st.boot_dirs.etc_dir);
    assert_eq!(find(&st, b"/dev"), st.boot_dirs.dev_dir);
    assert_eq!(find(&st, b"/tmp"), st.boot_dirs.tmp_dir);
    assert_eq!(find(&st, b"/proc"), st.boot_dirs.proc_dir);
    assert_eq!(find(&st, b"/sys"), st.boot_dirs.sys_dir);
    assert_eq!(find(&st, b"/pipe"), st.boot_dirs.pipe_dir);
    assert_eq!(find(&st, b"/newroot"), st.boot_dirs.new_root_dir);
    assert!(st.bootstrap_lookup_path(b"/dev/pts/ptmx").is_some());
    assert_eq!(find(&st, b"/dev/tty0"), find(&st, b"/dev/console"));
    assert!(st.bootstrap_lookup_path(b"/nowhere").is_none());
    let ns = st.namespaces.get(st.global_ns).unwrap();
    assert_eq!(ns.mounts.len(), 6);
    assert_eq!(st.root_vnode(), st.bootstrap_lookup_path(b"/"));
    assert_eq!(st.vnodes.get(find(&st, b"/etc/passwd")).unwrap().size, 11);
}

#[test]
fn layout_without_its_parts_is_refused() {
    let s = Services { ttysrv_ep: 0, netsrv_ep: 0, netsrv_callback_ep: 0 };
    let mut st = VfsState::new(s).unwrap();
    let l = Layout { root_dirs: vec![b"etc".to_vec()], etc_files: vec![], devices: vec![] };
    assert!(!st.initialize_bootstrap_namespace(&l, 1));
}

#[test]
fn instances_are_numbered_apart() {
    let s = Services { ttysrv_ep: 0, netsrv_ep: 0, netsrv_callback_ep: 0 };
    let mut st = VfsState::new(s).unwrap();
    let a = st.alloc_fs_instance_id();
    let b = st.alloc_fs_instance_id();
    assert_ne!(a, b);
    assert_ne!(a.0, 0);
    assert_eq!(b.0, a.0 + 1);
}

#[test]
fn small_rules_of_the_tree() {
    assert_eq!(bootstrap_dir_mode(b"tmp"), S_IFDIR | 0o1777);
    assert_eq!(bootstrap_dir_mode(b"etc"), S_IFDIR | 0o755);
    assert_eq!(bootstrap_file_mode(0o644), S_IFREG | 0o644);
    assert_eq!(device_inode(3, 7), 0x3_0000_0007);
    assert!(personality_ignore_case(PERS_WIN32));
    assert!(!personality_ignore_case(PERS_POSIX));
    assert_eq!(page_align_up(1), 4096);
    assert_eq!(page_align_up(4096), 4096);
    assert_eq!(page_align_up(0), 0);
    assert!(passes_by(MNT_WIN32_ONLY, mode_for(PERS_POSIX, true)));
    assert!(passes_by(MNT_POSIX_ONLY, mode_for(PERS_WIN32, true)));
    assert!(!passes_by(MNT_POSIX_ONLY, mode_for(PERS_POSIX, true)));
}

#[test]
fn files_are_made_found_and_taken_away() {
    let mut st = booted();
    let d = st.bootstrap_mkdir_path(b"/mnt/a", 0o755, 5).unwrap();
    let f = st.bootstrap_create_regular_file_path(b"/mnt/a/f", 0o600, 5).unwrap();
    assert_eq!(find(&st, b"/mnt/a/f"), f);
    assert_eq!(st.bootstrap_lookup_child(d, b"f"), Some(f));
    assert_eq!(st.bootstrap_parent_dir(d), find(&st, b"/mnt"));
    assert_eq!(
        st.bootstrap_create_regular_file_path(b"/mnt/a/f", 0o600, 5),
        Err(Status::AlreadyExists)
    );
    assert_eq!(st.bootstrap_create_regular_file_path(b"/mnt/zz/f", 0, 5), Err(Status::InvalidArgument));
    assert_eq!(st.bootstrap_create_regular_file_path(b"/mnt/a/f/g", 0, 5), Err(Status::NotDirectory));
    assert_eq!(st.bootstrap_remove_path(b"/mnt/a", true), Status::Busy);
    assert_eq!(st.bootstrap_remove_path(b"/mnt/a", false), Status::IsDirectory);
    assert_eq!(st.bootstrap_remove_path(b"/mnt/a/f", true), Status::NotDirectory);
    assert_eq!(st.bootstrap_remove_path(b"/mnt/a/f", false), Status::Success);
    assert!(st.vnodes.get(f).is_none());
    assert_eq!(st.bootstrap_remove_path(b"/mnt/a/f", false), Status::NotFound);
    assert!(st.bootstrap_dir_is_empty(d));
    assert_eq!(st.bootstrap_remove_path(b"/mnt/a", true), Status::Success);
    assert!(st.bootstrap_lookup_path(b"/mnt/a").is_none());
    assert_eq!(st.bootstrap_remove_path(b"/tmp", true), Status::Busy);
}

#[test]
fn names_are_hidden_from_case() {
    let mut st = booted();
    let f = st.bootstrap_create_regular_file_path(b"/mnt/ReadMe", 0o600, 5).unwrap();
    assert!(st.bootstrap_lookup_path_for_personality(b"/MNT/readme", false, PERS_POSIX).is_none());
    assert_eq!(st.bootstrap_lookup_path_for_personality(b"/MNT/readme", false, PERS_WIN32), Some(f));
}

#[test]
fn rename_moves_one_name() {
    let mut st = booted();
    let mnt = find(&st, b"/mnt");
    let d = st.bootstrap_mkdir_path(b"/mnt/d", 0o755, 5).unwrap();
    let a = st.bootstrap_create_regular_file_path(b"/mnt/a", 0o600, 5).unwrap();
    let b = st.bootstrap_create_regular_file_path(b"/mnt/d/b", 0o600, 5).unwrap();
    let other = st.bootstrap_create_regular_file_path(b"/mnt/other", 0o600, 5).unwrap();
    assert_eq!(
        st.bootstrap_rename_child_for_personality(mnt, b"a", d, b"b", PERS_POSIX),
        Status::Success
    );
    assert_eq!(find(&st, b"/mnt/d/b"), a);
    assert!(st.bootstrap_lookup_path(b"/mnt/a").is_none());
    assert!(st.vnodes.get(b).is_none());
    assert_eq!(find(&st, b"/mnt/other"), other);
    assert_eq!(
        st.bootstrap_rename_child_for_personality(mnt, b"d", d, b"x", PERS_POSIX),
        Status::InvalidArgument
    );
    assert_eq!(
        st.bootstrap_rename_child_for_personality(mnt, b"zz", d, b"x", PERS_POSIX),
        Status::NotFound
    );
}

#[test]
fn second_name_keeps_a_file() {
    let mut st = booted();
    let mnt = find(&st, b"/mnt");
    let f = st.bootstrap_create_regular_file_path(b"/mnt/f", 0o600, 5).unwrap();
    assert_eq!(
        st.bootstrap_link_vnode_child_for_personality(f, mnt, b"g", PERS_POSIX),
        Status::Success
    );
    assert_eq!(st.vnodes.get(f).unwrap().nlink, 2);
    assert_eq!(st.bootstrap_remove_path(b"/mnt/f", false), Status::Success);
    assert_eq!(find(&st, b"/mnt/g"), f);
    assert_eq!(
        st.bootstrap_link_vnode_child_for_personality(mnt, mnt, b"h", PERS_POSIX),
        Status::InvalidOperation
    );
}

#[test]
fn links_lead_on() {
    let mut st = booted();
    let f = st.bootstrap_create_regular_file_path(b"/mnt/f", 0o600, 5).unwrap();
    let l = st.bootstrap_create_symlink_path(b"/mnt/l", 0o777, b"f", 5).unwrap();
    assert_eq!(find(&st, b"/mnt/l"), f);
    assert_eq!(st.bootstrap_lookup_path_for_personality(b"/mnt/l", true, PERS_POSIX), Some(l));
    st.bootstrap_create_symlink_path(b"/mnt/x", 0o777, b"y", 5).unwrap();
    st.bootstrap_create_symlink_path(b"/mnt/y", 0o777, b"x", 5).unwrap();
    assert!(st.bootstrap_lookup_path(b"/mnt/x").is_none());
}

#[test]
fn files_are_written_and_resized() {
    let mut st = booted();
    let f = st.bootstrap_create_regular_file_path(b"/mnt/f", 0o600, 5).unwrap();
    assert_eq!(st.bootstrap_write_file(f, 2, b"abc"), Some(3));
    let vn = *st.vnodes.get(f).unwrap();
    assert_eq!(vn.size, 5);
    assert_eq!(&st.blobs.get(vn.data).unwrap().bytes[..5], b"\0\0abc");
    assert!(st.bootstrap_resize_file(f, 3));
    assert!(st.bootstrap_resize_file(f, 4));
    let vn = *st.vnodes.get(f).unwrap();
    assert_eq!(&st.blobs.get(vn.data).unwrap().bytes[..4], b"\0\0a\0");
    assert_eq!(st.bootstrap_write_file(find(&st, b"/mnt"), 0, b"x"), None);
    assert!(!st.bootstrap_resize_file(find(&st, b"/mnt"), 1));
}

#[test]
fn attributes_change() {
    let mut st = booted();
    let f = st.bootstrap_create_regular_file_path(b"/mnt/f", 0o600, 5).unwrap();
    assert_eq!(st.bootstrap_set_mode_vnode(f, 0o4755), Status::Success);
    assert_eq!(st.vnodes.get(f).unwrap().mode, S_IFREG | 0o4755);
    assert_eq!(st.bootstrap_set_owner_vnode(f, 5, u32::MAX), Status::Success);
    assert_eq!(st.vnodes.get(f).unwrap().uid, 5);
    assert_eq!(st.vnodes.get(f).unwrap().gid, 0);
    assert_eq!(st.bootstrap_set_times_vnode(f, Some(7), None), Status::Success);
    assert_eq!(st.vnodes.get(f).unwrap().atime_ns, 7);
    assert_eq!(st.bootstrap_set_mode_vnode(Handle::invalid(), 0), Status::NotFound);
}

#[test]
fn listing_shows_every_name_once() {
    let mut st = booted();
    st.bootstrap_create_regular_file_path(b"/mnt/a", 0o600, 5).unwrap();
    st.bootstrap_create_regular_file_path(b"/mnt/b", 0o600, 5).unwrap();
    let mnt = find(&st, b"/mnt");
    let mut names: Vec<Vec<u8>> = Vec::new();
    let mut cursor: u64 = 0;
    while let Some(e) = st.bootstrap_readdir_entry_for_personality(mnt, cursor, PERS_POSIX) {
        names.push(e.name);
        cursor = e.next_cursor;
    }
    assert_eq!(names, vec![b".".to_vec(), b"..".to_vec(), b"a".to_vec(), b"b".to_vec()]);
}

#[test]
fn attached_mount_is_found() {
    let mut st = booted();
    let m = alloc_tmpfs_mount(&mut st, b"/mnt", 0, b"", 9).unwrap();
    let root = st.mounts.get(m).unwrap().root_vnode;
    let target = find(&st, b"/mnt");
    assert!(st.graft_mount_at_vnode(m, target, b"/mnt"));
    assert_eq!(find(&st, b"/mnt"), root);
    assert_eq!(st.mounts.get(m).unwrap().covered.handle, target);
    st.clear_mount_covering_link(target);
    assert_eq!(find(&st, b"/mnt"), target);
    assert!(!st.attach_mount_at_vnode(Handle::invalid(), st.root_mount, target, b"/mnt"));
    assert!(!st.attach_mount_at_vnode(m, st.root_mount, target, &[b'a'; 200]));
}

#[test]
fn pivot_swaps_the_roots() {
    let mut st = booted();
    let was = st.root_mount;
    assert!(!st.pivot_root_to_real_root());
    let m = alloc_tmpfs_mount(&mut st, b"/newroot", 0, b"", 9).unwrap();
    assert!(st.graft_mount_at_bootstrap_path(m, b"/newroot"));
    assert_eq!(st.boot_dirs.real_root_mount, m);
    assert!(st.pivot_root_to_real_root());
    assert_eq!(st.root_mount, m);
    assert_eq!(st.mounts.get(m).unwrap().mount_path, b"/".to_vec());
    assert_eq!(st.mounts.get(was).unwrap().parent.handle, m);
}

#[test]
fn vnodes_are_found_by_their_key() {
    let mut st = booted();
    let f = find(&st, b"/etc/passwd");
    let key = st.vnodes.get(f).unwrap().vnode_key();
    st.cache_vnode_key(f);
    assert_eq!(st.vnode_by_key(key), Some(f));
    st.uncache_vnode_key(f);
    assert_eq!(st.vnode_by_key(key), Some(f));
    let a = st.anchor_for_vnode(f).unwrap();
    assert_eq!(st.resolve_anchor_vnode(a), Some(f));
    let id = st.vnodes.get(f).unwrap().fs_instance_id;
    assert_eq!(st.mount_by_fs_instance_id(id), Some(st.root_mount));
}

#[test]
fn vnode_in_use_is_not_reclaimed() {
    let mut st = booted();
    let f = find(&st, b"/etc/passwd");
    st.reclaim_bootstrap_vnode(f);
    assert!(st.vnodes.get(f).is_some());
    let c = st.ensure_client(7, PERS_POSIX).unwrap();
    let fd = st.alloc_client_slot(c, f, ObjKind::File, O_RDONLY).unwrap();
    assert_eq!(st.bootstrap_remove_path(b"/etc/passwd", false), Status::Success);
    assert!(st.vnodes.get(f).is_some());
    assert!(st.release_client_slot(c, fd));
    assert!(st.vnodes.get(f).is_none());
}

#[test]
fn descriptors_are_given_lowest_first() {
    let mut st = booted();
    let f = find(&st, b"/etc/passwd");
    let c = st.ensure_client(7, PERS_POSIX).unwrap();
    assert_eq!(st.lookup_client(7), Some(c));
    assert_eq!(st.ensure_client(7, PERS_POSIX), Some(c));
    assert_eq!(st.alloc_client_slot(c, f, ObjKind::File, O_RDWR | O_CLOEXEC), Some(0));
    assert_eq!(st.alloc_client_slot(c, f, ObjKind::File, O_RDWR), Some(1));
    assert_eq!(st.alloc_client_slot(c, f, ObjKind::File, O_RDWR), Some(2));
    assert_eq!(st.client_slot(c, 0).unwrap().fd_flags, FD_CLOEXEC);
    assert_eq!(st.vnodes.get(f).unwrap().open_count, 3);
    assert!(st.release_client_slot(c, 1));
    assert_eq!(st.first_free_fd(c), Some(1));
    assert_eq!(st.alloc_device_client_slot(c, f, DEV_CONSOLE, 0, 0, O_RDWR), Some(1));
    assert_eq!(st.client_open_file(c, 1).unwrap().kind, ObjKind::Device);
    assert!(!st.release_client_slot(c, 99));
    assert!(st.client_open_file(c, 99).is_none());
}

#[test]
fn shared_descriptor_keeps_its_file() {
    let mut st = booted();
    let f = find(&st, b"/etc/passwd");
    let c = st.ensure_client(7, PERS_POSIX).unwrap();
    let fd = st.alloc_client_slot(c, f, ObjKind::File, O_RDWR).unwrap();
    let of = st.client_open_file_handle(c, fd).unwrap();
    let dup = st.alloc_shared_fd_for_client(c, of, 0).unwrap();
    assert_eq!(st.open_files.get(of).unwrap().refcount, 2);
    assert!(st.release_client_slot(c, fd));
    assert_eq!(st.client_open_file_handle(c, dup), Some(of));
    assert!(st.retain_open_file_handle(of));
    st.release_open_file(of);
    assert!(st.release_client_slot(c, dup));
    assert!(st.open_files.get(of).is_none());
    assert!(!st.retain_open_file_handle(of));
}

#[test]
fn client_that_goes_closes_all_it_had() {
    let mut st = booted();
    let c = st.ensure_client(7, PERS_POSIX).unwrap();
    assert_eq!(st.alloc_socket_client_slot(c, 33, O_RDWR), Some(0));
    assert!(st.remove_client(7));
    assert!(!st.remove_client(7));
    assert_eq!(st.lookup_client(7), None);
    assert!(st.clients.get(c).is_none());
    let told = st.take_effects();
    assert!(told.contains(&Effect::NetClose { conn_id: 33 }));
    assert!(st.take_effects().is_empty());
}

#[test]
fn pipes_carry_bytes_in_order() {
    let mut st = booted();
    let p = st.alloc_pipe().unwrap();
    assert_eq!(st.pipe_write(p, b"hello"), Some(5));
    assert_eq!(st.pipe_buffer_len(p), Some(5));
    assert_eq!(st.pipe_buffer_free(p), Some(4090));
    assert_eq!(st.pipe_read(p, 2), Some(b"he".to_vec()));
    assert_eq!(st.pipe_read(p, 9), Some(b"llo".to_vec()));
    assert_eq!(st.pipe_write(Handle::invalid(), b"x"), None);
}

#[test]
fn pipe_ends_are_counted() {
    let mut st = booted();
    let c = st.ensure_client(7, PERS_POSIX).unwrap();
    let p = st.alloc_pipe().unwrap();
    let r = st.alloc_pipe_client_slot(c, Handle::invalid(), p, O_RDONLY).unwrap();
    let w = st.alloc_pipe_client_slot(c, Handle::invalid(), p, 1).unwrap();
    assert_eq!(st.pipe_refcounts(p), Some((1, 1)));
    assert!(st.release_client_slot(c, r));
    assert_eq!(st.pipe_refcounts(p), Some((0, 1)));
    assert!(st.release_client_slot(c, w));
    assert_eq!(st.pipe_refcounts(p), None);
}

#[test]
fn named_pipe_is_let_go_with_its_name() {
    let mut st = booted();
    let f = st
        .bootstrap_create_fifo_path_for_personality(b"/mnt/p", 0o600, PERS_POSIX)
        .unwrap();
    assert_eq!(st.vnodes.get(f).unwrap().vtype, VnodeType::Fifo);
    let p = st.ensure_fifo_pipe_for_vnode(f).unwrap();
    assert_eq!(st.ensure_fifo_pipe_for_vnode(f), Some(p));
    assert!(st.fifo_state_handle_for_vnode(f).is_some());
    assert_eq!(st.bootstrap_remove_path(b"/mnt/p", false), Status::Success);
    assert!(st.vnodes.get(f).is_none());
    assert!(st.pipes.get(p).is_none());
}

#[test]
fn local_sockets_carry_bytes_and_datagrams() {
    let mut st = booted();
    let s = st.alloc_unix_socket().unwrap();
    assert_eq!(st.unix_socket_write(s, b"abc"), Some(3));
    assert_eq!(st.unix_socket_peek(s, 2), Some(b"ab".to_vec()));
    assert_eq!(st.unix_socket_read(s, 9), Some(b"abc".to_vec()));
    assert_eq!(st.unix_socket_buffer_len(s), Some(0));
    for _ in 0..16 {
        assert_eq!(
            st.unix_socket_dgram_enqueue(s, Handle::invalid(), b"/p", b"", &[], b"data"),
            Some(true)
        );
    }
    assert_eq!(st.unix_socket_dgram_has_space(s), Some(false));
    assert_eq!(
        st.unix_socket_dgram_enqueue(s, Handle::invalid(), b"/p", b"", &[], b"data"),
        Some(false)
    );
    assert_eq!(st.unix_socket_dgram_count(s), Some(16));
    assert_eq!(st.unix_socket_dgram_count(Handle::invalid()), None);
}

#[test]
fn closing_a_socket_lets_go_of_passed_files() {
    let mut st = booted();
    let f = find(&st, b"/etc/passwd");
    let c = st.ensure_client(7, PERS_POSIX).unwrap();
    let fd = st.alloc_client_slot(c, f, ObjKind::File, O_RDWR).unwrap();
    let of = st.client_open_file_handle(c, fd).unwrap();
    let s = st.alloc_unix_socket().unwrap();
    let sfd = st.alloc_unix_socket_client_slot(c, s, O_RDWR).unwrap();
    assert!(st.retain_open_file_handle(of));
    assert_eq!(
        st.unix_socket_dgram_enqueue(s, Handle::invalid(), b"", b"", &[of], b"x"),
        Some(true)
    );
    assert_eq!(st.open_files.get(of).unwrap().refcount, 2);
    assert!(st.release_client_slot(c, sfd));
    assert!(st.unix_sockets.get(s).is_none());
    assert_eq!(st.open_files.get(of).unwrap().refcount, 1);
}

#[test]
fn shared_memory_is_numbered_by_its_handle() {
    assert_eq!(shm_id(Handle { slot: 2, epoch: 5 }), 0x5348_4D02_0000_0005);
    let mut st = booted();
    let f = find(&st, b"/etc/passwd");
    let s = st.alloc_shm_state(f).unwrap();
    assert_eq!(st.shm_by_vnode(f), Some(s));
    assert_eq!(st.shm_state(s).unwrap().id, shm_id(s));
    assert!(st.shm_state(Handle::invalid()).is_none());
}

#[test]
fn drives_have_directories_of_their_own() {
    let mut st = booted();
    let c = st.ensure_client(7, PERS_WIN32).unwrap();
    assert_eq!(st.win32_current_drive(c), 2);
    let mnt = find(&st, b"/mnt");
    st.update_win32_client_cwd_for_drive(c, 3, mnt);
    assert_eq!(st.win32_drive_base_vnode(c, 3, false, None), Some(mnt));
    let d = st.ensure_client(8, PERS_WIN32).unwrap();
    st.clone_win32_client_state(c, d);
    assert_eq!(st.win32_drive_base_vnode(d, 3, false, None), Some(mnt));
}

#[test]
fn paths_are_built_back() {
    let mut st = booted();
    st.bootstrap_mkdir_path(b"/mnt/a", 0o755, 5).unwrap();
    let f = st.bootstrap_create_regular_file_path(b"/mnt/a/f", 0o600, 5).unwrap();
    assert_eq!(st.bootstrap_build_absolute_path(f), Some(b"/mnt/a/f".to_vec()));
    assert_eq!(st.bootstrap_path_for_vnode(f, 256), Some(b"/mnt/a/f".to_vec()));
    assert_eq!(st.bootstrap_path_for_vnode(f, 4), None);
    let t = st.bootstrap_create_regular_file_path(b"/tmp/g", 0o600, 5).unwrap();
    assert_eq!(st.bootstrap_path_for_vnode(t, 256), Some(b"/g".to_vec()));
    assert_eq!(st.bootstrap_path_for_vnode(find(&st, b"/tmp"), 256), Some(b"/tmp".to_vec()));
    let a = st.anchor_for_vnode(f).unwrap();
    assert_eq!(st.render_anchor_path(a, 256), Some(b"/mnt/a/f".to_vec()));
    assert!(st.bootstrap_is_descendant_of(f, find(&st, b"/mnt")));
    assert!(!st.bootstrap_is_descendant_of(find(&st, b"/mnt"), f));
}
