//! Tables, bytes, paths, rings, text and messages.

use vfs::arena::{pack_handle, unpack_handle, Arena, Handle};
use vfs::bytes::{
    bytes_eq, copy_prefix, cut, find_byte, has_byte, has_prefix, name_eq, parse_decimal,
    parse_decimal_u32, push_bytes, push_decimal, split_bytes, split_kv,
};
use vfs::files::{cloexec_bit, normalize_status_flags, OpenFile, O_APPEND, O_CLOEXEC, O_CREAT, O_RDWR, O_TRUNC};
use vfs::identity::{BackendNodeId, FsInstanceId, VnodeKey};
use vfs::path::{
    component_end, compose_dynamic_symlink_path, compose_symlink_in, leaf_start,
    normalize_bootstrap_absolute_path, skip_slashes,
};
use vfs::ring::{ByteRing, Ring};
use vfs::status::Status;
use vfs::text::Text;
use vfs::vnode::{bootstrap_dynamic_vnode_id, dirent_type, type_code, Vnode, VnodeType};
use vfs::vnode_index::VnodeKeyIndex;
use vfs::wire::{fill_area, get_bytes, put_bytes, Opcode, Reply, Request};

fn h(slot: u32, epoch: u32) -> Handle {
    Handle { slot, epoch }
}

fn key(fs: u64, ino: u64, seq: u32) -> VnodeKey {
    VnodeKey { fs_instance_id: FsInstanceId(fs), backend_id: BackendNodeId { ino, seq } }
}

#[test]
fn handles_pack_and_unpack() {
    assert_eq!(pack_handle(h(5, 7)), 0x0000_0007_0000_0005);
    assert_eq!(unpack_handle(0x0000_0007_0000_0005), h(5, 7));
    assert_eq!(unpack_handle(pack_handle(h(u32::MAX, 3))), h(u32::MAX, 3));
    assert!(!Handle::invalid().is_valid());
    assert!(h(0, 0).is_valid());
}

#[test]
fn released_handle_leads_nowhere() {
    let mut a: Arena<OpenFile> = Arena::new(2);
    let x = a.reserve(OpenFile::zeroed()).unwrap();
    assert_eq!(x, h(0, 0));
    assert!(a.contains(x));
    assert_eq!(a.len(), 1);
    assert!(a.release(x));
    assert!(!a.release(x));
    assert!(a.get(x).is_none());
    let y = a.reserve(OpenFile::zeroed()).unwrap();
    assert_eq!(y, h(0, 1));
    assert!(a.get(x).is_none());
    assert!(a.get(y).is_some());
}

#[test]
fn table_is_full_at_its_limit() {
    let mut a: Arena<OpenFile> = Arena::new(2);
    assert_eq!(a.limit(), 2);
    let x = a.reserve(OpenFile::zeroed()).unwrap();
    let y = a.reserve(OpenFile::zeroed()).unwrap();
    assert_eq!(y.slot, 1);
    assert!(a.reserve(OpenFile::zeroed()).is_none());
    assert!(a.take(x).is_some());
    assert!(a.take(x).is_none());
    assert_eq!(a.reserve(OpenFile::zeroed()).unwrap().slot, 0);
    assert_eq!(a.slot_count(), 2);
    assert_eq!(a.live_at(1), Some(y));
    let mut f = OpenFile::zeroed();
    f.offset = 9;
    assert!(a.set(y, f));
    assert_eq!(a.get(y).unwrap().offset, 9);
    a.get_mut(y).unwrap().offset = 10;
    assert_eq!(a.get(y).unwrap().offset, 10);
    assert!(!a.set(h(9, 0), f));
}

#[test]
fn decimals_round_trip() {
    for n in [0u64, 7, 10, 4096, u32::MAX as u64, u64::MAX] {
        let mut out: Vec<u8> = Vec::new();
        push_decimal(&mut out, n);
        assert_eq!(out, n.to_string().into_bytes());
        assert_eq!(parse_decimal(&out), Some(n));
    }
    assert_eq!(parse_decimal(b""), None);
    assert_eq!(parse_decimal(b"12a"), None);
    assert_eq!(parse_decimal(b"18446744073709551616"), None);
    assert_eq!(parse_decimal_u32(b"4294967295"), Some(u32::MAX));
    assert_eq!(parse_decimal_u32(b"4294967296"), None);
}

#[test]
fn names_compare_with_and_without_case() {
    assert!(name_eq(b"Readme", b"rEADME", true));
    assert!(!name_eq(b"Readme", b"rEADME", false));
    assert!(name_eq(b"a", b"a", false));
    assert!(!name_eq(b"a", b"ab", true));
    assert!(!name_eq(b"[", b"{", true));
    assert!(bytes_eq(b"xy", b"xy"));
    assert!(!bytes_eq(b"xy", b"xz"));
}

#[test]
fn bytes_are_cut_and_split() {
    assert_eq!(copy_prefix(b"hello", 3), b"hel".to_vec());
    assert_eq!(copy_prefix(b"hi", 3), b"hi".to_vec());
    assert_eq!(cut(b"hello", 1, 4), b"ell");
    assert!(has_prefix(b"/dev/pts/3", b"/dev/pts/"));
    assert!(!has_prefix(b"/dev", b"/dev/pts/"));
    assert!(has_byte(b"a=b", b'='));
    assert_eq!(find_byte(b"a=b", b'='), 1);
    assert_eq!(find_byte(b"ab", b'='), 2);
    assert_eq!(split_bytes(b"a,,b", b','), vec![b"a".to_vec(), b"".to_vec(), b"b".to_vec()]);
    assert_eq!(split_kv(b"size=4k"), Some((&b"size"[..], &b"4k"[..])));
    assert_eq!(split_kv(b"size"), None);
    let mut v = b"ab".to_vec();
    push_bytes(&mut v, b"cd");
    assert_eq!(v, b"abcd".to_vec());
}

#[test]
fn paths_have_a_normal_form() {
    let n = |p: &[u8]| normalize_bootstrap_absolute_path(p);
    assert_eq!(n(b"/a//b/./c/../d"), Some(b"/a/b/d".to_vec()));
    assert_eq!(n(b"a/b"), Some(b"/a/b".to_vec()));
    assert_eq!(n(b"/"), Some(b"/".to_vec()));
    assert_eq!(n(b"/a/b/"), Some(b"/a/b".to_vec()));
    assert_eq!(n(b""), None);
    assert_eq!(n(&[b'a'; 257]), None);
    assert_eq!(n(&n(b"/x/../y//z").unwrap()), n(b"/x/../y//z"));
}

#[test]
fn going_up_from_the_root_stays_there() {
    assert_eq!(normalize_bootstrap_absolute_path(b"/.."), Some(b"/".to_vec()));
    assert_eq!(normalize_bootstrap_absolute_path(b"/../../a"), Some(b"/a".to_vec()));
}

#[test]
fn paths_that_go_too_deep_have_no_normal_form() {
    let mut p: Vec<u8> = Vec::new();
    for _ in 0..65 {
        p.extend_from_slice(b"/a");
    }
    assert_eq!(normalize_bootstrap_absolute_path(&p), None);
    p.truncate(128);
    assert_eq!(normalize_bootstrap_absolute_path(&p), Some(p.clone()));
}

#[test]
fn path_components_are_found() {
    assert_eq!(skip_slashes(b"//a/b", 0), 2);
    assert_eq!(component_end(b"//ab/b", 2), 4);
    assert_eq!(component_end(b"ab", 0), 2);
    assert_eq!(leaf_start(b"/a/bc"), 3);
    assert_eq!(leaf_start(b"bc"), 0);
}

#[test]
fn symlinks_lead_from_their_directory() {
    assert_eq!(
        compose_dynamic_symlink_path(b"/a/link/rest", 3, b"../b", b"rest"),
        Some(b"/b/rest".to_vec())
    );
    assert_eq!(
        compose_dynamic_symlink_path(b"/a/link", 3, b"/x", b""),
        Some(b"/x".to_vec())
    );
    assert_eq!(compose_symlink_in(b"/usr", b"lib", b"c.so"), Some(b"/usr/lib/c.so".to_vec()));
    assert_eq!(compose_symlink_in(b"/", b"lib", b""), Some(b"/lib".to_vec()));
}

#[test]
fn jobs_come_out_in_order() {
    let mut r: Ring<u64> = Ring::new(3);
    assert!(r.push(1));
    assert!(r.push(2));
    assert!(!r.push(3));
    assert_eq!(r.pop(), Some(1));
    assert!(r.push(3));
    assert_eq!(r.pop(), Some(2));
    assert_eq!(r.pop(), Some(3));
    assert_eq!(r.pop(), None);
}

#[test]
fn bytes_come_out_as_they_went_in() {
    let mut r = ByteRing::new(8);
    assert_eq!(r.free(), 7);
    assert_eq!(r.write(b"abcdefghij"), 7);
    assert_eq!(r.len(), 7);
    assert_eq!(r.write(b"k"), 0);
    assert_eq!(r.peek(3), b"abc".to_vec());
    assert_eq!(r.read(3), b"abc".to_vec());
    assert_eq!(r.write(b"xyz"), 3);
    assert_eq!(r.read(100), b"defgxyz".to_vec());
    assert_eq!(r.read(1), b"".to_vec());
}

#[test]
fn text_stops_at_its_room() {
    let t = Text::new(8).lit("ab").num(42).byte(b'-').bytes(b"xyzw");
    assert!(t.is_full());
    assert_eq!(t.finish(), b"ab42-xyz".to_vec());
    assert_eq!(Text::of(16, "n=").two(7).finish(), b"n=07".to_vec());
}

#[test]
fn registers_carry_bytes() {
    let mut r = Request::bare(Opcode::BackendLookup);
    assert_eq!(r.length, 0);
    put_bytes(&mut r.regs, 1, b"hello world");
    assert_eq!(r.regs[1], u64::from_le_bytes(*b"hello wo"));
    assert_eq!(get_bytes(&r.regs, 1, 11), b"hello world".to_vec());
    let mut a = Reply::bare(Status::NotFound);
    assert_eq!(a.label, Status::NotFound);
    fill_area(&mut a.regs, 4, 2, b"abc");
    assert_eq!(get_bytes(&a.regs, 4, 5), b"abc\0\0".to_vec());
}

#[test]
fn vnodes_are_found_by_key() {
    let mut x = VnodeKeyIndex::new(8).unwrap();
    assert!(VnodeKeyIndex::new(4).is_none());
    assert!(!VnodeKeyIndex::key_is_indexable(key(0, 1, 1)));
    assert!(!x.insert(key(0, 1, 1), h(1, 0)));
    assert!(x.insert(key(1, 1, 0), h(1, 0)));
    assert!(x.insert(key(1, 2, 0), h(2, 0)));
    assert_eq!(x.lookup(key(1, 1, 0)), Some(h(1, 0)));
    assert!(x.insert(key(1, 1, 0), h(3, 0)));
    assert_eq!(x.lookup(key(1, 1, 0)), Some(h(3, 0)));
    assert!(!x.remove(key(1, 1, 0), Some(h(9, 0))));
    assert!(x.remove(key(1, 1, 0), Some(h(3, 0))));
    assert_eq!(x.lookup(key(1, 1, 0)), None);
    assert_eq!(x.lookup(key(1, 2, 0)), Some(h(2, 0)));
    assert!(x.remove(key(1, 2, 0), None));
}

#[test]
fn index_takes_no_more_than_it_has_room_for() {
    let mut x = VnodeKeyIndex::new(8).unwrap();
    let mut kept: u64 = 0;
    for i in 1..10u64 {
        if x.insert(key(1, i, 0), h(i as u32, 0)) {
            kept += 1;
        }
    }
    assert_eq!(kept, 8);
    assert!(VnodeKeyIndex::new(12).is_none());
    assert_eq!(VnodeKeyIndex::hash(key(0, 0, 0)), 0);
    assert_ne!(VnodeKeyIndex::hash(key(1, 1, 0)), VnodeKeyIndex::hash(key(1, 2, 0)));
}

#[test]
fn vnode_numbers_are_made_of_the_slot() {
    assert_eq!(type_code(VnodeType::Sock), 7);
    assert_eq!(dirent_type(VnodeType::Lnk), 10);
    assert_eq!(dirent_type(VnodeType::Blk), 0);
    assert_eq!(
        bootstrap_dynamic_vnode_id(h(3, 1), VnodeType::Dir),
        (2u64 << 56) | (3u64 << 24) | 1
    );
    assert_ne!(
        bootstrap_dynamic_vnode_id(h(3, 1), VnodeType::Dir),
        bootstrap_dynamic_vnode_id(h(4, 1), VnodeType::Dir)
    );
    let mut v = Vnode::zeroed();
    v.pin();
    v.pin();
    v.unpin();
    assert!(v.pinned);
    v.unpin();
    assert!(!v.pinned);
    v.id = 5;
    v.backend_seq = 2;
    v.fs_instance_id = FsInstanceId(9);
    assert_eq!(v.vnode_key(), key(9, 5, 2));
}

#[test]
fn status_flags_keep_what_an_open_file_has() {
    let f = normalize_status_flags(O_RDWR | O_APPEND | O_CREAT | O_TRUNC | O_CLOEXEC);
    assert_eq!(f, O_RDWR | O_APPEND);
    assert_eq!(normalize_status_flags(f), f);
    assert_eq!(cloexec_bit(O_CLOEXEC), 1);
    assert_eq!(cloexec_bit(O_RDWR), 0);
}
