//! What changing the names of the in-memory filesystem does, told from its nodes alone.

use crate::arena::Handle;
use crate::bytes::{prefix, same_name};
use crate::descriptor_laws::{counts_down, counts_up, others_stay};
use crate::fs::records::{EntryView, TmpNodeView, TmpfsMountData};
use crate::fs::tmpfs::TMPFS_NAME_MAX;
use crate::fs::tmpfs_dir::lemma_child_pos;
use crate::fs::tmpfs_file::{TmpDirItemView, LISTED_NAME_MAX};
use crate::mount::{MNT_CASEFOLD, MNT_RDONLY};
use crate::state::{VfsModel, INITIAL_TMPFS_DIR_ENTRY_CAP};
use crate::status::Status;
use crate::vnode::{Backend, Vnode, VnodeType};
use crate::wire::SysMemInfo;
use vstd::prelude::*;

verus! {

/// Vnode `v` and node `d` of the in-memory filesystem stand for each other.
pub open spec fn stands_for(m: VfsModel, v: Handle, d: Handle) -> bool {
    &&& m.vnodes.has(v)
    &&& m.vnodes.at(v).backend == Backend::Tmpfs
    &&& m.vnodes.at(v).backend_ref == d
    &&& d.is_valid()
    &&& m.tmpfs_nodes.has(d)
    &&& m.tmpfs_nodes.at(d).vnode == v
}

/// The mount that vnode `v` lies on has all of `flag` unset.
pub open spec fn lacks_flag(m: VfsModel, v: Handle, flag: u32) -> bool {
    !m.mounts.has(m.vnodes.at(v).mount.handle) || m.mounts.at(
        m.vnodes.at(v).mount.handle,
    ).flags & flag == 0
}

/// Position `i` of directory node `d` is the first whose name agrees with `name`, for a
/// vnode `v` on the mount.
pub open spec fn is_at(m: VfsModel, v: Handle, d: Handle, name: Seq<u8>, i: int) -> bool {
    let es = m.tmpfs_nodes.at(d).children;
    let fold = !lacks_flag(m, v, MNT_CASEFOLD);
    &&& 0 <= i < es.len()
    &&& same_name(es[i].name, name, fold)
    &&& forall|j: int| 0 <= j < i ==> !same_name((#[trigger] es[j]).name, name, fold)
}

/// No name of directory node `d` agrees with `name`, for a vnode `v` on the mount.
pub open spec fn is_nowhere(m: VfsModel, v: Handle, d: Handle, name: Seq<u8>) -> bool {
    let es = m.tmpfs_nodes.at(d).children;
    let fold = !lacks_flag(m, v, MNT_CASEFOLD);
    forall|j: int| 0 <= j < es.len() ==> !same_name((#[trigger] es[j]).name, name, fold)
}

proof fn lemma_at(m: VfsModel, v: Handle, d: Handle, name: Seq<u8>, i: int)
    requires
        stands_for(m, v, d),
    ensures
        m.on_tmpfs(v),
        m.tmp_node_of(v) == Some(d),
        m.read_only(v) == !lacks_flag(m, v, MNT_RDONLY),
        m.folds(m.mount_of(v)) == !lacks_flag(m, v, MNT_CASEFOLD),
        is_at(m, v, d, name, i) ==> m.tmp_pos(d, name, m.folds(m.mount_of(v))) == Some(i),
        is_nowhere(m, v, d, name) ==> m.tmp_pos(d, name, m.folds(m.mount_of(v))) is None,
{
    lemma_child_pos(m.tmpfs_nodes.at(d).children, name, m.folds(m.mount_of(v)), 0);
}

/// A name is looked up among the names of its directory: what the first that agrees with it
/// leads to is found, and nothing where none does.
pub proof fn law_lookup_finds_the_first_that_agrees(
    m: VfsModel,
    parent: Handle,
    d: Handle,
    name: Seq<u8>,
    i: int,
)
    requires
        stands_for(m, parent, d),
    ensures
        is_at(m, parent, d, name, i) && m.tmpfs_nodes.has(m.tmpfs_nodes.at(d).children[i].child)
            ==> m.tmp_looked_up(parent, name) == Ok::<Option<Handle>, Status>(
            Some(m.tmpfs_nodes.at(m.tmpfs_nodes.at(d).children[i].child).vnode),
        ),
        is_nowhere(m, parent, d, name) ==> m.tmp_looked_up(parent, name) == Ok::<
            Option<Handle>,
            Status,
        >(None),
{
    lemma_at(m, parent, d, name, i);
}

/// Exactly when a name can be taken away, and what is answered where it cannot: nothing on a
/// mount that may not be changed, a directory only as a directory and only without names of
/// its own, anything else only as a file.
pub proof fn law_removal_is_owed(
    m: VfsModel,
    parent: Handle,
    d: Handle,
    name: Seq<u8>,
    want_dir: bool,
    i: int,
)
    requires
        stands_for(m, parent, d),
        is_at(m, parent, d, name, i) || is_nowhere(m, parent, d, name),
    ensures
        ({
            let c = m.tmpfs_nodes.at(d).children[i].child;
            let n = m.tmpfs_nodes.at(c);
            let is_dir = m.tmpfs_nodes.has(c) && n.kind == VnodeType::Dir;
            m.removal_refused(parent, name, want_dir) == if !lacks_flag(m, parent, MNT_RDONLY) {
                Some(Status::ReadOnly)
            } else if is_nowhere(m, parent, d, name) {
                Some(Status::NotFound)
            } else if want_dir && (!is_dir || n.children.len() > 0) {
                Some(Status::InvalidOperation)
            } else if !want_dir && is_dir {
                Some(Status::IsDirectory)
            } else {
                None
            }
        }),
{
    lemma_at(m, parent, d, name, i);
    if is_at(m, parent, d, name, i) {
        assert(!is_nowhere(m, parent, d, name)) by {
            if is_nowhere(m, parent, d, name) {
                assert(!same_name(
                    m.tmpfs_nodes.at(d).children[i].name,
                    name,
                    !lacks_flag(m, parent, MNT_CASEFOLD),
                ));
            }
        }
    }
}

/// A name that is taken away leaves the others in their order. A file that has other names
/// stays with one link less, on its node and on its vnode; its directory counts its links as
/// before.
pub proof fn law_removed_name_leaves_the_file(
    m: VfsModel,
    parent: Handle,
    d: Handle,
    name: Seq<u8>,
    i: int,
    now: u64,
)
    requires
        stands_for(m, parent, d),
        is_at(m, parent, d, name, i),
        ({
            let c = m.tmpfs_nodes.at(d).children[i].child;
            &&& c != d
            &&& m.tmpfs_nodes.has(c)
            &&& m.tmpfs_nodes.at(c).kind != VnodeType::Dir
            &&& m.tmpfs_nodes.at(c).nlink > 1
        }),
    ensures
        ({
            let s = m.child_removed(parent, name, now);
            let (x, y) = (m.tmpfs_nodes.at(d), s.tmpfs_nodes.at(d));
            let c = x.children[i].child;
            let (p, q) = (m.tmpfs_nodes.at(c), s.tmpfs_nodes.at(c));
            let v = p.vnode;
            &&& y == (TmpNodeView {
                children: x.children.remove(i),
                mtime_ns: now,
                ctime_ns: now,
                ..x
            })
            &&& s.tmpfs_nodes.has(c)
            &&& q.nlink == p.nlink - 1
            &&& q == (TmpNodeView { nlink: q.nlink, ctime_ns: now, ..p })
            &&& m.vnodes.has(v) ==> s.vnodes.has(v) && counts_down(
                m.vnodes.at(v).nlink,
                s.vnodes.at(v).nlink,
            ) && s.vnodes.at(v) == (Vnode { nlink: s.vnodes.at(v).nlink, ..m.vnodes.at(v) })
            &&& others_stay(m.vnodes, s.vnodes, v)
            &&& forall|o: Handle|
                o != d && o != c ==> #[trigger] s.tmpfs_nodes.entry(o) == m.tmpfs_nodes.entry(o)
            &&& counts_down(m.tmpfs_entries, s.tmpfs_entries)
        }),
{
    lemma_at(m, parent, d, name, i);
}

/// A file or directory that loses its last name has no link left, and its vnode is marked as
/// one that goes. The directory it was in has one link less for a directory.
pub proof fn law_last_removed_name_dooms(m: VfsModel, d: Handle, i: int, now: u64)
    requires
        m.tmpfs_nodes.has(d),
        0 <= i < m.tmpfs_nodes.at(d).children.len(),
        ({
            let c = m.tmpfs_nodes.at(d).children[i].child;
            &&& c != d
            &&& m.tmpfs_nodes.has(c)
            &&& m.tmpfs_nodes.at(c).kind == VnodeType::Dir || m.tmpfs_nodes.at(c).nlink <= 1
        }),
    ensures
        ({
            let (s, named) = m.name_unlinked(d, i, now);
            let (x, y) = (m.tmpfs_nodes.at(d), s.tmpfs_nodes.at(d));
            let c = x.children[i].child;
            let (p, q) = (m.tmpfs_nodes.at(c), s.tmpfs_nodes.at(c));
            let v = p.vnode;
            &&& !named
            &&& y.children == x.children.remove(i)
            &&& if p.kind == VnodeType::Dir {
                counts_down(x.nlink, y.nlink)
            } else {
                y.nlink == x.nlink
            }
            &&& q.nlink == 0
            &&& q.ctime_ns == now
            &&& m.vnodes.has(v) ==> s.vnodes.at(v).nlink == 0 && s.vnodes.at(v).doomed
            &&& others_stay(m.vnodes, s.vnodes, v)
            &&& q.kind == p.kind && q.vnode == p.vnode && q.children == p.children
            &&& q.content == p.content && q.size == p.size
        }),
{
}

/// Exactly when a file can be given another name, and what is answered where it cannot.
pub proof fn law_linking_is_owed(
    m: VfsModel,
    source: Handle,
    f: Handle,
    dir: Handle,
    d: Handle,
    name: Seq<u8>,
    i: int,
)
    requires
        stands_for(m, source, f),
        stands_for(m, dir, d),
        is_at(m, dir, d, name, i) || is_nowhere(m, dir, d, name),
    ensures
        m.link_refused(source, dir, name) == if !lacks_flag(m, dir, MNT_RDONLY) {
            Some(Status::ReadOnly)
        } else if m.vnodes.at(source).mount.handle != m.vnodes.at(dir).mount.handle {
            Some(Status::CrossDevice)
        } else if name.len() == 0 || name.len() > TMPFS_NAME_MAX {
            Some(Status::InvalidArgument)
        } else if !is_nowhere(m, dir, d, name) {
            Some(Status::AlreadyExists)
        } else if m.tmpfs_nodes.at(f).kind == VnodeType::Dir {
            Some(Status::InvalidOperation)
        } else if m.tmpfs_entries >= INITIAL_TMPFS_DIR_ENTRY_CAP {
            Some(Status::OutOfMemory)
        } else {
            None
        },
{
    lemma_at(m, source, f, name, i);
    lemma_at(m, dir, d, name, i);
    lemma_not_both(m, dir, d, name, i);
}

proof fn lemma_not_both(m: VfsModel, v: Handle, d: Handle, name: Seq<u8>, i: int)
    ensures
        !(is_at(m, v, d, name, i) && is_nowhere(m, v, d, name)),
{
    if is_at(m, v, d, name, i) && is_nowhere(m, v, d, name) {
        assert(!same_name(
            m.tmpfs_nodes.at(d).children[i].name,
            name,
            !lacks_flag(m, v, MNT_CASEFOLD),
        ));
    }
}

/// A file that is given another name has one link more, on its node and on its vnode; the
/// directory has the new name in front of the others, and nothing else changes.
pub proof fn law_linked_file_counts_its_names(
    m: VfsModel,
    source: Handle,
    f: Handle,
    dir: Handle,
    d: Handle,
    name: Seq<u8>,
    now: u64,
)
    requires
        stands_for(m, source, f),
        stands_for(m, dir, d),
        f != d,
        m.tmpfs_entries < u32::MAX,
    ensures
        ({
            let s = m.linked(source, dir, name, now);
            let (x, y) = (m.tmpfs_nodes.at(d), s.tmpfs_nodes.at(d));
            let (p, q) = (m.tmpfs_nodes.at(f), s.tmpfs_nodes.at(f));
            &&& y == (TmpNodeView {
                children: seq![EntryView { child: f, name }] + x.children,
                mtime_ns: now,
                ctime_ns: now,
                ..x
            })
            &&& counts_up(p.nlink, q.nlink)
            &&& q == (TmpNodeView { nlink: q.nlink, ctime_ns: now, ..p })
            &&& counts_up(m.vnodes.at(source).nlink, s.vnodes.at(source).nlink)
            &&& s.vnodes.at(source) == (Vnode {
                nlink: s.vnodes.at(source).nlink,
                ..m.vnodes.at(source)
            })
            &&& others_stay(m.vnodes, s.vnodes, source)
            &&& forall|o: Handle|
                o != d && o != f ==> #[trigger] s.tmpfs_nodes.entry(o) == m.tmpfs_nodes.entry(o)
            &&& s.tmpfs_entries == m.tmpfs_entries + 1
        }),
{
    lemma_at(m, source, f, name, 0);
    lemma_at(m, dir, d, name, 0);
    let es = m.tmpfs_nodes.at(d).children;
    assert(es.insert(0, EntryView { child: f, name }) =~= seq![EntryView { child: f, name }] + es);
}

/// Exactly when a name can be changed into another, and what is answered where it cannot. A
/// directory takes the place of an empty directory only, anything else that of anything but
/// a directory.
pub proof fn law_renaming_is_owed(
    m: VfsModel,
    old_parent: Handle,
    from: Handle,
    old_name: Seq<u8>,
    i: int,
    new_parent: Handle,
    to: Handle,
    new_name: Seq<u8>,
    j: int,
)
    requires
        stands_for(m, old_parent, from),
        stands_for(m, new_parent, to),
        is_at(m, old_parent, from, old_name, i) || is_nowhere(m, old_parent, from, old_name),
        is_at(m, new_parent, to, new_name, j) || is_nowhere(m, new_parent, to, new_name),
    ensures
        ({
            let moved = m.tmpfs_nodes.at(from).children[i].child;
            let target = m.tmpfs_nodes.at(to).children[j].child;
            let a = m.tmpfs_nodes.has(moved) && m.tmpfs_nodes.at(moved).kind == VnodeType::Dir;
            let b = m.tmpfs_nodes.has(target) && m.tmpfs_nodes.at(target).kind == VnodeType::Dir;
            m.rename_refused(old_parent, old_name, new_parent, new_name) == if !lacks_flag(
                m,
                old_parent,
                MNT_RDONLY,
            ) || !lacks_flag(m, new_parent, MNT_RDONLY) {
                Some(Status::ReadOnly)
            } else if m.vnodes.at(old_parent).mount.handle != m.vnodes.at(
                new_parent,
            ).mount.handle {
                Some(Status::CrossDevice)
            } else if new_name.len() == 0 || new_name.len() > TMPFS_NAME_MAX {
                Some(Status::InvalidArgument)
            } else if is_nowhere(m, old_parent, from, old_name) {
                Some(Status::NotFound)
            } else if is_nowhere(m, new_parent, to, new_name) || moved == target {
                None
            } else if b && !a {
                Some(Status::IsDirectory)
            } else if b && m.tmpfs_nodes.at(target).children.len() > 0 {
                Some(Status::InvalidOperation)
            } else if a && !b {
                Some(Status::InvalidOperation)
            } else {
                None
            }
        }),
{
    lemma_at(m, old_parent, from, old_name, i);
    lemma_at(m, new_parent, to, new_name, j);
    lemma_not_both(m, old_parent, from, old_name, i);
    lemma_not_both(m, new_parent, to, new_name, j);
}

/// A name that moves between two directories goes to the front of the new one and leaves the
/// others in their order. The node knows its new name and parent. A directory takes its link
/// to the parent along.
pub proof fn law_moved_name_counts_the_links(
    m: VfsModel,
    from: Handle,
    i: int,
    to: Handle,
    new_name: Seq<u8>,
    now: u64,
)
    requires
        m.tmpfs_nodes.has(from),
        m.tmpfs_nodes.has(to),
        0 <= i < m.tmpfs_nodes.at(from).children.len(),
        ({
            let c = m.tmpfs_nodes.at(from).children[i].child;
            m.tmpfs_nodes.has(c) && c != from && c != to
        }),
    ensures
        ({
            let s = m.entry_moved(from, i, to, new_name, now);
            let c = m.tmpfs_nodes.at(from).children[i].child;
            let is_dir = m.tmpfs_nodes.at(c).kind == VnodeType::Dir;
            let (p, q) = (m.tmpfs_nodes.at(c), s.tmpfs_nodes.at(c));
            let (x, y) = (m.tmpfs_nodes.at(from), s.tmpfs_nodes.at(from));
            let (u, w) = (m.tmpfs_nodes.at(to), s.tmpfs_nodes.at(to));
            &&& q.name == new_name
            &&& q.ctime_ns == now
            &&& q.nlink == p.nlink
            &&& q.content == p.content && q.size == p.size && q.children == p.children
            &&& y.mtime_ns == now && y.ctime_ns == now && w.mtime_ns == now && w.ctime_ns == now
            &&& from != to ==> {
                &&& q.parent == to
                &&& y.children == x.children.remove(i)
                &&& w.children == seq![EntryView { child: c, name: new_name }] + u.children
                &&& is_dir ==> counts_down(x.nlink, y.nlink) && counts_up(u.nlink, w.nlink)
                &&& !is_dir ==> y.nlink == x.nlink && w.nlink == u.nlink
            }
            &&& from == to ==> {
                &&& q.parent == p.parent
                &&& y.children == seq![EntryView { child: c, name: new_name }]
                    + x.children.remove(i)
                &&& y.nlink == x.nlink
            }
            &&& forall|o: Handle|
                o != from && o != to && o != c ==> #[trigger] s.tmpfs_nodes.entry(o)
                    == m.tmpfs_nodes.entry(o)
            &&& s.vnodes == m.vnodes
            &&& s.tmpfs_entries == m.tmpfs_entries
        }),
{
    let c = m.tmpfs_nodes.at(from).children[i].child;
    let e = EntryView { child: c, name: new_name };
    let x = m.tmpfs_nodes.at(from).children.remove(i);
    let u = m.tmpfs_nodes.at(to).children;
    assert(x.insert(0, e) =~= seq![e] + x);
    assert(u.insert(0, e) =~= seq![e] + u);
}

/// A listing shows at each place below the number of names the name that stands there, cut
/// at the longest that is listed, with the inode of its vnode and a type that tells
/// directories and symlinks from the rest; behind the last name it shows nothing.
pub proof fn law_listing_shows_the_names(m: VfsModel, v: Handle, d: Handle, cursor: u64)
    requires
        stands_for(m, v, d),
        m.tmpfs_nodes.at(d).kind == VnodeType::Dir,
        m.tmpfs_nodes.at(d).children.len() <= u64::MAX,
    ensures
        ({
            let es = m.tmpfs_nodes.at(d).children;
            let e = es[cursor as int];
            let c = m.tmpfs_nodes.at(e.child);
            &&& cursor >= es.len() ==> m.tmp_listed(v, cursor) == Ok::<
                Option<TmpDirItemView>,
                Status,
            >(None)
            &&& cursor < es.len() && m.tmpfs_nodes.has(e.child) ==> {
                &&& m.tmp_listed(v, cursor) matches Ok(Some(t))
                &&& t.next_cursor == cursor + 1
                &&& t.eof_after <==> cursor + 1 == es.len()
                &&& e.name.len() <= LISTED_NAME_MAX ==> t.name == e.name
                &&& t.name == e.name.take(t.name.len() as int)
                &&& e.name.len() > LISTED_NAME_MAX ==> t.name.len() == LISTED_NAME_MAX
                &&& m.vnodes.has(c.vnode) ==> t.ino == m.vnodes.at(c.vnode).id
                &&& t.d_type == (match c.kind {
                    VnodeType::Dir => 4u8,
                    VnodeType::Lnk => 10u8,
                    _ => 8u8,
                })
            }
        }),
{
    let es = m.tmpfs_nodes.at(d).children;
    if cursor < es.len() {
        let n = es[cursor as int].name;
        let t = prefix(n, LISTED_NAME_MAX as int);
        assert(n.take(n.len() as int) =~= n);
        assert(t =~= n.take(t.len() as int));
    }
}

/// The numbers of a mount of the in-memory filesystem: in pages, all that its limit allows
/// and what is not charged yet, or what the machine has where there is no limit; the files
/// likewise. Nothing is set aside for anybody.
pub proof fn law_numbers_add_up(m: VfsModel, mount: Handle, h: Handle, mem: SysMemInfo)
    requires
        m.tmpfs_mounts.wf(),
        m.tmpfs_mounts.has(h),
        m.tmpfs_mounts.at(h).owner_mount == mount,
        forall|o: Handle| #[trigger]
            m.tmpfs_mounts.has(o) && m.tmpfs_mounts.at(o).owner_mount == mount ==> o == h,
    ensures
        ({
            let d = m.tmpfs_mounts.at(h);
            &&& m.tmp_numbers(mount, Some(mem)) matches Ok(n)
            &&& n.f_bsize == 4096 && n.f_frsize == 4096
            &&& d.max_bytes != 0 ==> n.f_blocks == d.max_bytes / 4096
            &&& d.max_bytes != 0 && d.accounted_bytes <= d.max_bytes ==> n.f_bfree == (d.max_bytes
                - d.accounted_bytes) / 4096
            &&& d.max_bytes != 0 && d.accounted_bytes > d.max_bytes ==> n.f_bfree == 0
            &&& d.max_bytes == 0 ==> n.f_blocks == mem.pages_total && n.f_bfree == mem.pages_free
            &&& n.f_bavail == n.f_bfree
            &&& d.max_inodes != 0 ==> n.f_files == d.max_inodes
            &&& d.max_inodes != 0 && d.used_inodes <= d.max_inodes ==> n.f_ffree == d.max_inodes
                - d.used_inodes
            &&& d.max_inodes == 0 ==> n.f_files == m.tmpfs_nodes.limit
            &&& n.f_favail == n.f_ffree
            &&& n.f_fsid == d.fs_instance_id.0
            &&& m.mounts.has(mount) ==> n.f_flag == m.mounts.at(mount).flags
            &&& n.f_namemax == TMPFS_NAME_MAX
        }),
{
    let p = |o: Handle, d: TmpfsMountData| d.owner_mount == mount;
    m.tmpfs_mounts.lemma_scan(p, 0);
    if m.tmp_data(mount) is None {
        assert(m.tmpfs_mounts.has(h));
    }
}

} // verus!
