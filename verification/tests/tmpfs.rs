//! The in-memory filesystem.

use vfs::arena::Handle;
use vfs::fs::mounting::{alloc_tmpfs_mount, release_tmpfs_mount};
use vfs::fs::statfs::{tmpfs_remount, tmpfs_statfs};
use vfs::fs::tmpfs::{
    acquire_export_ref, find_mount_data_handle, find_node_handle_by_vnode, mo_request,
    parse_mount_opts, parse_size_with_suffix, pow2_pages, refused_bytes, release_bytes_account,
    release_export_ref, release_inode_account, tmpfs_reclaim_vnode, tmpfs_resolve_backing,
    try_account_bytes, try_account_inode, MoOutcome, MoRequest,
};
use vfs::fs::tmpfs_dir::{
    create_regular_child, link_vnode_into, lookup_child, mkdir_child, remove_child, rename_child,
    symlink_child,
};
use vfs::fs::tmpfs_file::{
    build_path_for_vnode, pick_owner, pick_time, read_regular, readdir_dir, readlink_inline,
    set_mode_vnode, set_owner_vnode, set_times_vnode, truncate_vnode, write_regular,
};
use vfs::mount::{MNT_CASEFOLD, MNT_NOATIME, MNT_RDONLY};
use vfs::state::{Effect, Services, VfsState};
use vfs::status::Status;
use vfs::vnode::{VnodeType, DT_DIR, DT_LNK, DT_REG};
use vfs::wire::SysMemInfo;

fn mounted(flags: u32, opts: &[u8]) -> (VfsState, Handle, Handle) {
    let s = Services { ttysrv_ep: 0, netsrv_ep: 0, netsrv_callback_ep: 0 };
    let mut st = VfsState::new(s).unwrap();
    let m = alloc_tmpfs_mount(&mut st, b"/t", flags, opts, 1).unwrap();
    let root = st.mounts.get(m).unwrap().root_vnode;
    (st, m, root)
}

fn granted(pages: u64) -> MoOutcome {
    MoOutcome::Granted { cap: 70, handle: 71, pages }
}

fn mem(total: u64, free: u64) -> SysMemInfo {
    SysMemInfo {
        page_size: 4096,
        pages_total: total,
        pages_free: free,
        pages_page_cache: 0,
        pages_dirty_file: 0,
        pages_writeback_file: 0,
        pages_active: 0,
        pages_inactive: 0,
        pages_anon_private: 0,
        pages_anon_shared: 0,
        pages_file: 0,
        pages_kernel_slab: 0,
        pages_kernel_pagetable: 0,
        pages_kernel_stack: 0,
        pages_emergency_reserve: 0,
    }
}

#[test]
fn sizes_have_suffixes() {
    assert_eq!(parse_size_with_suffix(b"4k"), Some(4096));
    assert_eq!(parse_size_with_suffix(b"4K"), Some(4096));
    assert_eq!(parse_size_with_suffix(b"1m"), Some(1 << 20));
    assert_eq!(parse_size_with_suffix(b"2G"), Some(2 << 30));
    assert_eq!(parse_size_with_suffix(b"77"), Some(77));
    assert_eq!(parse_size_with_suffix(b"k"), Some(0));
    assert_eq!(parse_size_with_suffix(b"4x"), None);
    assert_eq!(parse_size_with_suffix(b""), None);
    assert_eq!(parse_size_with_suffix(b"99999999999999999999g"), None);
}

#[test]
fn options_are_read() {
    let o = parse_mount_opts(b"size=1m,nr_inodes=10,casefold,junk");
    assert_eq!(o.max_bytes, Some(1 << 20));
    assert_eq!(o.max_inodes, Some(10));
    assert_eq!(o.casefold, Some(true));
    let none = parse_mount_opts(b"");
    assert_eq!((none.max_bytes, none.max_inodes, none.casefold), (None, None, None));
}

#[test]
fn made_node_is_found() {
    let (mut st, _, root) = mounted(0, b"");
    let a = create_regular_child(&mut st, root, b"a", 0o644, 5).unwrap();
    let b = mkdir_child(&mut st, root, b"b", 0o755, 5).unwrap();
    assert_eq!(lookup_child(&st, root, b"a"), Ok(Some(a)));
    assert_eq!(lookup_child(&st, root, b"b"), Ok(Some(b)));
    assert_eq!(lookup_child(&st, root, b"A"), Ok(None));
    assert_eq!(create_regular_child(&mut st, root, b"a", 0o644, 5), Err(Status::AlreadyExists));
    assert_eq!(create_regular_child(&mut st, root, b"", 0o644, 5), Err(Status::InvalidArgument));
    assert_eq!(
        create_regular_child(&mut st, root, &[b'x'; 256], 0o644, 5),
        Err(Status::InvalidArgument)
    );
    assert_eq!(
        create_regular_child(&mut st, Handle::invalid(), b"q", 0o644, 5),
        Err(Status::InvalidArgument)
    );
    assert_eq!(lookup_child(&st, Handle::invalid(), b"a"), Err(Status::InvalidArgument));
}

#[test]
fn names_agree_without_case_on_such_a_mount() {
    let (mut st, _, root) = mounted(MNT_CASEFOLD, b"");
    let a = create_regular_child(&mut st, root, b"File", 0o644, 5).unwrap();
    assert_eq!(lookup_child(&st, root, b"fILE"), Ok(Some(a)));
    assert_eq!(create_regular_child(&mut st, root, b"FILE", 0o644, 5), Err(Status::AlreadyExists));
}

#[test]
fn removed_name_is_not_found() {
    let (mut st, _, root) = mounted(0, b"");
    let a = create_regular_child(&mut st, root, b"a", 0o644, 5).unwrap();
    let d = mkdir_child(&mut st, root, b"d", 0o755, 5).unwrap();
    create_regular_child(&mut st, d, b"x", 0o644, 5).unwrap();
    assert_eq!(remove_child(&mut st, root, b"d", false, 6), Err(Status::IsDirectory));
    assert_eq!(remove_child(&mut st, root, b"d", true, 6), Err(Status::InvalidOperation));
    assert_eq!(remove_child(&mut st, root, b"a", true, 6), Err(Status::InvalidOperation));
    assert_eq!(remove_child(&mut st, root, b"z", false, 6), Err(Status::NotFound));
    assert_eq!(remove_child(&mut st, root, b"a", false, 6), Ok(()));
    assert_eq!(lookup_child(&st, root, b"a"), Ok(None));
    assert!(st.vnodes.get(a).is_none());
    assert_eq!(remove_child(&mut st, d, b"x", false, 6), Ok(()));
    assert_eq!(remove_child(&mut st, root, b"d", true, 6), Ok(()));
    assert_eq!(lookup_child(&st, root, b"d"), Ok(None));
}

#[test]
fn renamed_node_is_found() {
    let (mut st, _, root) = mounted(0, b"");
    let a = create_regular_child(&mut st, root, b"a", 0o644, 5).unwrap();
    let b = create_regular_child(&mut st, root, b"b", 0o644, 5).unwrap();
    let d = mkdir_child(&mut st, root, b"d", 0o755, 5).unwrap();
    assert_eq!(rename_child(&mut st, root, b"a", d, b"c", 6), Ok(()));
    assert_eq!(lookup_child(&st, d, b"c"), Ok(Some(a)));
    assert_eq!(lookup_child(&st, root, b"a"), Ok(None));
    assert_eq!(rename_child(&mut st, root, b"b", d, b"c", 6), Ok(()));
    assert_eq!(lookup_child(&st, d, b"c"), Ok(Some(b)));
    assert!(st.vnodes.get(a).is_none());
    assert_eq!(rename_child(&mut st, root, b"zz", d, b"q", 6), Err(Status::NotFound));
    assert_eq!(rename_child(&mut st, d, b"c", root, b"d", 6), Err(Status::IsDirectory));
    assert_eq!(rename_child(&mut st, d, b"c", d, b"c", 6), Ok(()));
    assert_eq!(rename_child(&mut st, d, b"c", d, b"", 6), Err(Status::InvalidArgument));
    let m2 = alloc_tmpfs_mount(&mut st, b"/u", 0, b"", 1).unwrap();
    let root2 = st.mounts.get(m2).unwrap().root_vnode;
    assert_eq!(rename_child(&mut st, d, b"c", root2, b"c", 6), Err(Status::CrossDevice));
    assert_eq!(link_vnode_into(&mut st, b, root2, b"c", 6), Err(Status::CrossDevice));
}

#[test]
fn linked_file_is_found_under_both_names() {
    let (mut st, _, root) = mounted(0, b"");
    let a = create_regular_child(&mut st, root, b"a", 0o644, 5).unwrap();
    let d = mkdir_child(&mut st, root, b"d", 0o755, 5).unwrap();
    assert_eq!(link_vnode_into(&mut st, a, d, b"a2", 6), Ok(()));
    assert_eq!(lookup_child(&st, d, b"a2"), Ok(Some(a)));
    assert_eq!(st.vnodes.get(a).unwrap().nlink, 2);
    assert_eq!(remove_child(&mut st, root, b"a", false, 6), Ok(()));
    assert_eq!(lookup_child(&st, d, b"a2"), Ok(Some(a)));
    assert_eq!(link_vnode_into(&mut st, a, d, b"a2", 6), Err(Status::AlreadyExists));
    assert_eq!(link_vnode_into(&mut st, d, root, b"d2", 6), Err(Status::InvalidOperation));
}

#[test]
fn read_gives_back_what_was_written() {
    let (mut st, _, root) = mounted(0, b"");
    let a = create_regular_child(&mut st, root, b"a", 0o644, 5).unwrap();
    assert_eq!(write_regular(&mut st, a, 3, b"hello", granted(1), 6), Ok(5));
    assert_eq!(read_regular(&st, a, 3, 5), Ok(b"hello".to_vec()));
    assert_eq!(read_regular(&st, a, 0, 5), Ok(b"\0\0\0he".to_vec()));
    assert_eq!(read_regular(&st, a, 100, 5), Ok(b"".to_vec()));
    assert_eq!(st.vnodes.get(a).unwrap().size, 8);
    assert_eq!(truncate_vnode(&mut st, a, 4, granted(1), 7), Ok(()));
    assert_eq!(truncate_vnode(&mut st, a, 6, granted(1), 7), Ok(()));
    assert_eq!(read_regular(&st, a, 0, 9), Ok(b"\0\0\0h\0\0".to_vec()));
    assert!(read_regular(&st, root, 0, 1).is_err());
}

#[test]
fn refused_memory_leaves_the_file() {
    let (mut st, m, root) = mounted(0, b"size=8k");
    let a = create_regular_child(&mut st, root, b"a", 0o644, 5).unwrap();
    let no = MoOutcome::Refused { err: Status::OutOfMemory };
    assert_eq!(write_regular(&mut st, a, 0, b"hello", no, 6), Err(Status::OutOfMemory));
    assert_eq!(st.vnodes.get(a).unwrap().size, 0);
    let h = find_mount_data_handle(&st, m).unwrap();
    assert_eq!(st.tmpfs_mounts.get(h).unwrap().accounted_bytes, 0);
    assert_eq!(truncate_vnode(&mut st, a, 9000, granted(4), 7), Err(Status::NoSpace));
    assert_eq!(truncate_vnode(&mut st, a, 8192, granted(2), 7), Ok(()));
    assert_eq!(st.tmpfs_mounts.get(h).unwrap().accounted_bytes, 8192);
}

#[test]
fn memory_that_is_not_mapped_is_given_back() {
    let (mut st, m, root) = mounted(0, b"size=16k");
    let a = create_regular_child(&mut st, root, b"a", 0o644, 5).unwrap();
    let n = find_node_handle_by_vnode(&st, a).unwrap();
    let no = MoOutcome::Unmapped { cap: 80, handle: 81, err: Status::OutOfMemory };
    assert_eq!(write_regular(&mut st, a, 0, b"hello", no, 6), Err(Status::OutOfMemory));
    assert_eq!(st.take_effects(), vec![Effect::MoFree { cap: 80, handle: 81 }]);
    assert_eq!(write_regular(&mut st, a, 0, b"hello", granted(1), 6), Ok(5));
    assert_eq!(truncate_vnode(&mut st, a, 5000, no, 7), Err(Status::OutOfMemory));
    assert_eq!(
        st.take_effects(),
        vec![Effect::MoResize { cap: 70, old_pages: 2, new_pages: 1 }]
    );
    let h = find_mount_data_handle(&st, m).unwrap();
    assert_eq!(st.tmpfs_mounts.get(h).unwrap().accounted_bytes, 4096);
    assert_eq!(mo_request(&st, n, 16384), Some(MoRequest::Resize {
        cap: 70,
        old_pages: 1,
        new_pages: 4
    }));
    assert_eq!(mo_request(&st, n, 16385), None);
    assert_eq!(refused_bytes(&st, m, 12289), Some(Status::NoSpace));
    assert_eq!(refused_bytes(&st, m, 12288), None);
}

#[test]
fn memory_is_asked_for_in_powers_of_two() {
    assert_eq!(pow2_pages(0), 1);
    assert_eq!(pow2_pages(1), 1);
    assert_eq!(pow2_pages(3), 4);
    assert_eq!(pow2_pages(4), 4);
    assert_eq!(pow2_pages((1 << 51) + 1), 1 << 52);
    assert_eq!(pow2_pages((1 << 62) + 1), 1 << 63);
    assert_eq!(pow2_pages(1 << 63), 1 << 63);
    let (mut st, _, root) = mounted(0, b"");
    let a = create_regular_child(&mut st, root, b"a", 0o644, 5).unwrap();
    let n = find_node_handle_by_vnode(&st, a).unwrap();
    assert_eq!(mo_request(&st, n, 5000), Some(MoRequest::Make { pages: 2 }));
    assert_eq!(write_regular(&mut st, a, 0, &[1; 5000], granted(2), 6), Ok(5000));
    assert_eq!(mo_request(&st, n, 8192), None);
    assert_eq!(
        mo_request(&st, n, 8193),
        Some(MoRequest::Resize { cap: 70, old_pages: 2, new_pages: 4 })
    );
    assert_eq!(tmpfs_resolve_backing(&mut st, a, granted(2)), Ok(70));
}

#[test]
fn limits_are_kept_and_charges_undone() {
    let (mut st, m, root) = mounted(0, b"size=8k,nr_inodes=3");
    let h = find_mount_data_handle(&st, m).unwrap();
    let before = *st.tmpfs_mounts.get(h).unwrap();
    assert_eq!(try_account_bytes(&mut st, m, 8192), Ok(()));
    assert_eq!(try_account_bytes(&mut st, m, 1), Err(Status::NoSpace));
    release_bytes_account(&mut st, m, 8192);
    assert_eq!(try_account_inode(&mut st, m), Ok(()));
    release_inode_account(&mut st, m);
    assert_eq!(*st.tmpfs_mounts.get(h).unwrap(), before);
    let mut made: u32 = 0;
    while create_regular_child(&mut st, root, &[b'a' + made as u8], 0o644, 5).is_ok() {
        made += 1;
    }
    assert!(made <= 3);
    assert_eq!(create_regular_child(&mut st, root, b"zz", 0o644, 5), Err(Status::NoSpace));
    assert_eq!(try_account_bytes(&mut st, Handle::invalid(), 1), Err(Status::InvalidOperation));
}

#[test]
fn listing_of_a_directory_shows_every_name() {
    let (mut st, _, root) = mounted(0, b"");
    create_regular_child(&mut st, root, b"a", 0o644, 5).unwrap();
    mkdir_child(&mut st, root, b"b", 0o755, 5).unwrap();
    symlink_child(&mut st, root, b"c", b"a", 5).unwrap();
    let mut seen: Vec<(Vec<u8>, u8)> = Vec::new();
    let mut cursor: u64 = 0;
    while let Ok(Some(e)) = readdir_dir(&st, root, cursor) {
        assert_eq!(e.eof_after, cursor == 2);
        seen.push((e.name, e.d_type));
        cursor = e.next_cursor;
    }
    assert_eq!(
        seen,
        vec![(b"c".to_vec(), DT_LNK), (b"b".to_vec(), DT_DIR), (b"a".to_vec(), DT_REG)]
    );
    assert!(matches!(readdir_dir(&st, Handle::invalid(), 0), Err(Status::NotFound)));
}

#[test]
fn links_hold_their_target() {
    let (mut st, _, root) = mounted(0, b"");
    let l = symlink_child(&mut st, root, b"l", b"/some/where", 5).unwrap();
    let t = readlink_inline(&st, l, 5).unwrap();
    assert_eq!((t.bytes, t.full_len), (b"/some".to_vec(), 11));
    assert!(readlink_inline(&st, root, 5).is_err());
}

#[test]
fn paths_lead_back_to_the_root_of_the_mount() {
    let (mut st, _, root) = mounted(0, b"");
    let d = mkdir_child(&mut st, root, b"d", 0o755, 5).unwrap();
    let a = create_regular_child(&mut st, d, b"a", 0o644, 5).unwrap();
    assert_eq!(build_path_for_vnode(&st, a, 256), Some(b"/d/a".to_vec()));
    assert_eq!(build_path_for_vnode(&st, a, 3), None);
}

#[test]
fn attributes_of_files_change() {
    let (mut st, _, root) = mounted(0, b"");
    let a = create_regular_child(&mut st, root, b"a", 0o644, 5).unwrap();
    assert_eq!(set_mode_vnode(&mut st, a, 0o4700, 8), Ok(()));
    assert_eq!(st.vnodes.get(a).unwrap().mode & 0o7777, 0o4700);
    assert_eq!(set_owner_vnode(&mut st, a, 3, u32::MAX, 8), Ok(()));
    assert_eq!(st.vnodes.get(a).unwrap().uid, 3);
    assert_eq!(set_times_vnode(&mut st, a, Some(1), None, 8), Ok(()));
    assert_eq!(st.vnodes.get(a).unwrap().atime_ns, 1);
    assert_eq!(st.vnodes.get(a).unwrap().mtime_ns, 5);
    assert_eq!(pick_time(None, 4), 4);
    assert_eq!(pick_owner(u32::MAX, 4), 4);
    assert_eq!(pick_owner(1, 4), 1);
    assert!(set_mode_vnode(&mut st, Handle::invalid(), 0, 8).is_err());
}

#[test]
fn sealed_mount_takes_no_change() {
    let (mut st, m, root) = mounted(0, b"");
    let a = create_regular_child(&mut st, root, b"a", 0o644, 5).unwrap();
    st.mounts.get_mut(m).unwrap().flags = MNT_RDONLY;
    assert_eq!(create_regular_child(&mut st, root, b"b", 0o644, 5), Err(Status::ReadOnly));
    assert_eq!(remove_child(&mut st, root, b"a", false, 5), Err(Status::ReadOnly));
    assert_eq!(rename_child(&mut st, root, b"a", root, b"b", 5), Err(Status::ReadOnly));
    assert_eq!(set_mode_vnode(&mut st, a, 0, 5), Err(Status::ReadOnly));
}

#[test]
fn mapping_keeps_the_storage() {
    let (mut st, _, root) = mounted(0, b"");
    let a = create_regular_child(&mut st, root, b"a", 0o644, 5).unwrap();
    let n = find_node_handle_by_vnode(&st, a).unwrap();
    let (fs, ino) = {
        let vn = st.vnodes.get(a).unwrap();
        (vn.fs_instance_id.0, vn.id)
    };
    assert_eq!(acquire_export_ref(&mut st, fs, ino, 1), Status::Success);
    assert_eq!(release_export_ref(&mut st, fs, ino), Status::Success);
    assert_eq!(release_export_ref(&mut st, fs, ino), Status::InvalidOperation);
    assert_eq!(acquire_export_ref(&mut st, fs, ino, 1), Status::Success);
    assert_eq!(acquire_export_ref(&mut st, fs, 999, 1), Status::NotFound);
    assert_eq!(remove_child(&mut st, root, b"a", false, 6), Ok(()));
    assert!(st.tmpfs_nodes.get(n).unwrap().pending_release);
    assert_eq!(release_export_ref(&mut st, fs, ino), Status::Success);
    assert!(st.tmpfs_nodes.get(n).is_none());
    tmpfs_reclaim_vnode(&mut st, root);
}

#[test]
fn numbers_of_a_mount() {
    let (mut st, m, root) = mounted(0, b"size=64k,nr_inodes=10");
    let a = create_regular_child(&mut st, root, b"a", 0o644, 5).unwrap();
    assert_eq!(write_regular(&mut st, a, 0, b"x", granted(1), 6), Ok(1));
    let s = tmpfs_statfs(&st, m, None).unwrap();
    assert_eq!((s.f_bsize, s.f_blocks, s.f_bfree, s.f_bavail), (4096, 16, 15, 15));
    assert_eq!(s.f_files, 10);
    assert_eq!(s.f_ffree, s.f_favail);
    assert!(s.f_ffree < 10);
    assert_eq!((s.f_flag, s.f_namemax), (0, 255));
    assert_eq!(tmpfs_statfs(&st, Handle::invalid(), None), Err(Status::InvalidOperation));
    let (st, m, _) = mounted(0, b"");
    let s = tmpfs_statfs(&st, m, Some(mem(1000, 400))).unwrap();
    assert_eq!((s.f_blocks, s.f_bfree, s.f_files, s.f_ffree), (1000, 400, 512, 511));
    let s = tmpfs_statfs(&st, m, None).unwrap();
    assert_eq!((s.f_blocks, s.f_bfree), (0, 0));
}

#[test]
fn remount_changes_what_it_names() {
    let (mut st, m, root) = mounted(0, b"size=64k,nr_inodes=10");
    let h = find_mount_data_handle(&st, m).unwrap();
    assert_eq!(tmpfs_remount(&mut st, m, MNT_NOATIME, b"size=128k"), Status::Success);
    let d = *st.tmpfs_mounts.get(h).unwrap();
    assert_eq!((d.max_bytes, d.max_inodes, d.casefold), (131072, 10, false));
    assert_eq!(tmpfs_remount(&mut st, m, MNT_CASEFOLD, b""), Status::Success);
    assert!(st.tmpfs_mounts.get(h).unwrap().casefold);
    assert_eq!(tmpfs_remount(&mut st, m, 0x100, b""), Status::InvalidOperation);
    let a = create_regular_child(&mut st, root, b"a", 0o644, 5).unwrap();
    let vn = *st.vnodes.get(a).unwrap();
    acquire_export_ref(&mut st, vn.fs_instance_id.0, vn.id, 1);
    assert_eq!(tmpfs_remount(&mut st, m, MNT_RDONLY, b""), Status::Busy);
    release_export_ref(&mut st, vn.fs_instance_id.0, vn.id);
    assert_eq!(tmpfs_remount(&mut st, m, MNT_RDONLY, b""), Status::Success);
    assert_eq!(tmpfs_remount(&mut st, Handle::invalid(), 0, b""), Status::InvalidOperation);
}

#[test]
fn released_mount_leaves_nothing() {
    let (mut st, m, root) = mounted(0, b"");
    create_regular_child(&mut st, root, b"a", 0o644, 5).unwrap();
    for i in 0..70u8 {
        create_regular_child(&mut st, root, &[b'f', i + 1], 0o644, 5).unwrap();
    }
    let other = alloc_tmpfs_mount(&mut st, b"/o", 0, b"", 1).unwrap();
    let oroot = st.mounts.get(other).unwrap().root_vnode;
    let kept = create_regular_child(&mut st, oroot, b"a", 0o644, 5).unwrap();
    let link = symlink_child(&mut st, oroot, b"l", b"a", 5).unwrap();
    let record = *st.tmpfs_mounts.get(find_mount_data_handle(&st, other).unwrap()).unwrap();
    assert!(release_tmpfs_mount(&mut st, m));
    assert!(find_mount_data_handle(&st, m).is_none());
    assert_eq!(st.tmpfs_nodes.len(), 3);
    assert_eq!(lookup_child(&st, oroot, b"a"), Ok(Some(kept)));
    assert_eq!(readlink_inline(&st, link, 9).ok().unwrap().bytes, b"a".to_vec());
    assert_eq!(*st.tmpfs_mounts.get(find_mount_data_handle(&st, other).unwrap()).unwrap(), record);
    let entries = st.tmpfs_entries;
    assert!(release_tmpfs_mount(&mut st, m));
    assert_eq!((st.tmpfs_nodes.len(), st.tmpfs_entries), (3, entries));
}

#[test]
fn rename_leaves_other_names() {
    let (mut st, _, root) = mounted(0, b"");
    let d = mkdir_child(&mut st, root, b"d", 0o755, 5).unwrap();
    let a = create_regular_child(&mut st, root, b"a", 0o644, 5).unwrap();
    let x = create_regular_child(&mut st, root, b"x", 0o644, 5).unwrap();
    let b = create_regular_child(&mut st, d, b"b", 0o644, 5).unwrap();
    let y = create_regular_child(&mut st, d, b"y", 0o644, 5).unwrap();
    assert_eq!(link_vnode_into(&mut st, b, root, b"b2", 6), Ok(()));
    assert_eq!(rename_child(&mut st, root, b"a", d, b"b", 7), Ok(()));
    assert_eq!(lookup_child(&st, d, b"b"), Ok(Some(a)));
    assert_eq!(lookup_child(&st, root, b"a"), Ok(None));
    assert_eq!(lookup_child(&st, root, b"x"), Ok(Some(x)));
    assert_eq!(lookup_child(&st, root, b"d"), Ok(Some(d)));
    assert_eq!(lookup_child(&st, d, b"y"), Ok(Some(y)));
    assert_eq!(lookup_child(&st, root, b"b2"), Ok(Some(b)));
}

/// Every name is that of a node, no directory holds two names that are the same, and no node
/// has more names than it counts.
fn in_order(st: &VfsState) -> bool {
    let live: Vec<Handle> =
        (0..st.tmpfs_nodes.slot_count()).filter_map(|i| st.tmpfs_nodes.live_at(i)).collect();
    live.iter().all(|h| {
        let n = st.tmpfs_nodes.get(*h).unwrap();
        let names: Vec<(Handle, &Vec<u8>)> = live
            .iter()
            .flat_map(|d| {
                let es = &st.tmpfs_nodes.get(*d).unwrap().children;
                es.iter().filter(|e| e.child == *h).map(|e| (*d, &e.name))
            })
            .collect();
        let allowed = if n.kind == VnodeType::Dir { 1 } else { n.nlink as usize };
        names.len() <= allowed
            && (!n.vnode.is_valid() || find_node_handle_by_vnode(st, n.vnode) == Some(*h))
            && n.children.iter().enumerate().all(|(i, e)| {
                e.child != *h
                    && st.tmpfs_nodes.get(e.child).is_some()
                    && n.children[..i].iter().all(|o| o.name != e.name)
            })
    })
}

#[test]
fn filesystem_stays_in_order() {
    let s = Services { ttysrv_ep: 0, netsrv_ep: 0, netsrv_callback_ep: 0 };
    assert!(in_order(&VfsState::new(s).unwrap()));
    let (mut st, m, root) = mounted(0, b"");
    assert!(in_order(&st));
    let d = mkdir_child(&mut st, root, b"d", 0o755, 5).unwrap();
    let a = create_regular_child(&mut st, root, b"a", 0o644, 5).unwrap();
    assert_eq!(create_regular_child(&mut st, root, b"a", 0o644, 5), Err(Status::AlreadyExists));
    symlink_child(&mut st, root, b"l", b"a", 5).unwrap();
    assert!(in_order(&st));
    assert_eq!(link_vnode_into(&mut st, a, d, b"a2", 6), Ok(()));
    assert_eq!(link_vnode_into(&mut st, a, d, b"a3", 6), Ok(()));
    assert!(in_order(&st));
    assert_eq!(remove_child(&mut st, root, b"a", false, 7), Ok(()));
    assert!(in_order(&st));
    assert_eq!(rename_child(&mut st, d, b"a2", root, b"l", 8), Ok(()));
    assert_eq!(st.tmpfs_symlinks.len(), 0);
    assert_eq!(rename_child(&mut st, root, b"d", root, b"e", 8), Ok(()));
    assert!(in_order(&st));
    assert_eq!(write_regular(&mut st, a, 3, b"abc", granted(1), 8), Ok(3));
    assert!(in_order(&st));
    assert_eq!(truncate_vnode(&mut st, a, 2, granted(1), 9), Ok(()));
    assert!(in_order(&st));
    let vn = *st.vnodes.get(a).unwrap();
    assert_eq!(acquire_export_ref(&mut st, vn.fs_instance_id.0, vn.id, 1), Status::Success);
    assert_eq!(remove_child(&mut st, root, b"l", false, 9), Ok(()));
    assert_eq!(remove_child(&mut st, d, b"a3", false, 9), Ok(()));
    assert!(st.vnodes.get(a).is_none() && in_order(&st));
    assert_eq!(release_export_ref(&mut st, vn.fs_instance_id.0, vn.id), Status::Success);
    assert!(in_order(&st));
    assert_eq!(st.tmpfs_nodes.len(), 2);
    let open = create_regular_child(&mut st, root, b"o", 0o644, 5).unwrap();
    st.vnodes.get_mut(open).unwrap().open_count = 1;
    assert_eq!(remove_child(&mut st, root, b"o", false, 9), Ok(()));
    assert!(in_order(&st));
    st.vnodes.get_mut(open).unwrap().open_count = 0;
    st.reclaim_bootstrap_vnode(open);
    assert!(in_order(&st));
    assert_eq!(st.tmpfs_nodes.len(), 2);
    let other = alloc_tmpfs_mount(&mut st, b"/o", 0, b"", 1).unwrap();
    let oroot = st.mounts.get(other).unwrap().root_vnode;
    create_regular_child(&mut st, oroot, b"a", 0o644, 5).unwrap();
    assert!(in_order(&st));
    assert!(release_tmpfs_mount(&mut st, m));
    assert!(in_order(&st));
    assert_eq!(st.tmpfs_nodes.len(), 2);
}

#[test]
fn directory_moved_into_itself_holds_itself() {
    let (mut st, _, root) = mounted(0, b"");
    let d = mkdir_child(&mut st, root, b"d", 0o755, 5).unwrap();
    assert_eq!(rename_child(&mut st, root, b"d", d, b"d", 6), Ok(()));
    assert_eq!(lookup_child(&st, d, b"d"), Ok(Some(d)));
    assert!(!in_order(&st));
}

#[test]
fn write_that_reaches_no_storage_may_lie_anywhere() {
    let (mut st, _, root) = mounted(0, b"");
    let f = create_regular_child(&mut st, root, b"f", 0o644, 5).unwrap();
    let far = u64::MAX - 1;
    assert_eq!(write_regular(&mut st, f, far, b"", granted(1), 6), Ok(0));
    assert_eq!(write_regular(&mut st, f, far, b"ab", granted(1), 6), Err(Status::InvalidArgument));
    assert_eq!(write_regular(&mut st, root, far, b"a", granted(1), 6), Err(Status::InvalidOperation));
    assert_eq!(
        write_regular(&mut st, Handle::invalid(), far, b"a", granted(1), 6),
        Err(Status::NotFound)
    );
    let (mut ro, _, sealed) = mounted(MNT_RDONLY, b"");
    assert_eq!(write_regular(&mut ro, sealed, far, b"a", granted(1), 6), Err(Status::ReadOnly));
}
