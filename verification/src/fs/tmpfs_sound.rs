//! How the nodes, names, link targets and records of the in-memory filesystem hang together,
//! from the start and whatever is made, linked, removed, renamed, mounted or unmounted.

use crate::arena::{Handle, Table};
use crate::bytes::{law_same_name_is_equivalence, same_name};
use crate::fs::mounting::{entries_left, unused_tmp_record};
use crate::fs::records::{EntryView, TmpNodeView, TmpfsMountData};
use crate::fs::tmpfs_dir::{child_pos, lemma_child_pos};
use crate::fs::tmpfs::{inode_is, MoOutcome, TMPFS_SYMLINK_MAX};
use crate::fs::tmpfs_file::{overwritten, zeroed_between};
use crate::fs::tmpfs_laws::{
    dir_sound, found_in, lemma_move_frame, lemma_new_name_free, lemma_newest_keeps_apart,
    lemma_removal_keeps_apart, lemma_way_cleared, law_unmounted_leaves_nothing, links_sound,
    names_differ, nodes_tied,
};
use crate::mount::MountView;
use crate::state::{Services, VfsModel};
use crate::vnode::{Backend, Vnode, VnodeType};
use vstd::prelude::*;

verus! {

// ---- what holds --------------------------------------------------------------------

/// Node `h` lies on a mount of this filesystem. Its vnode, where it has one, is a vnode of
/// the same mount and has no other node; a node that only mappings keep has none.
pub open spec fn node_tied(m: VfsModel, h: Handle) -> bool {
    let n = m.tmpfs_nodes.at(h);
    &&& m.mounts.has(n.owner_mount)
    &&& m.mounts.at(n.owner_mount).vfsops == Some(Backend::Tmpfs)
    &&& n.vnode.is_valid() ==> m.on_tmpfs(n.vnode) && m.vnodes.at(n.vnode).backend_ref == h
        && m.mount_of(n.vnode) == n.owner_mount
    &&& n.pending_release ==> !n.vnode.is_valid()
}

/// Only a directory holds names. No two of them agree, and each is that of a node of the same
/// mount other than the directory.
pub open spec fn names_in_order(m: VfsModel, h: Handle) -> bool {
    let n = m.tmpfs_nodes.at(h);
    &&& n.kind != VnodeType::Dir ==> n.children.len() == 0
    &&& names_differ(n.children, m.folds(n.owner_mount))
    &&& forall|i: int|
        0 <= i < n.children.len() ==> {
            let c = (#[trigger] n.children[i]).child;
            m.tmpfs_nodes.has(c) && c != h && m.tmpfs_nodes.at(c).owner_mount == n.owner_mount
        }
}

/// The names of node `c`: the directories that hold one, and how it is called there.
pub open spec fn names_of(m: VfsModel, c: Handle) -> Set<(Handle, Seq<u8>)> {
    Set::new(
        |p: (Handle, Seq<u8>)|
            m.tmpfs_nodes.has(p.0) && m.tmpfs_nodes.at(p.0).children.contains(
                EntryView { child: c, name: p.1 },
            ),
    )
}

/// As many names as a node may have: a directory one, another node as many as it counts.
pub open spec fn names_allowed(n: TmpNodeView) -> nat {
    if n.kind == VnodeType::Dir {
        1
    } else {
        n.nlink as nat
    }
}

/// Node `c` has no more names than it may have, and its vnode counts them too. Without a vnode
/// it has none.
pub open spec fn names_counted(m: VfsModel, c: Handle) -> bool {
    let n = m.tmpfs_nodes.at(c);
    &&& names_of(m, c).finite()
    &&& names_of(m, c).len() <= names_allowed(n)
    &&& n.vnode.is_valid() ==> names_of(m, c).len() <= m.vnodes.at(n.vnode).nlink && (n.kind
        != VnodeType::Dir ==> m.vnodes.at(n.vnode).nlink == n.nlink)
    &&& !n.vnode.is_valid() ==> names_of(m, c).len() == 0
}

/// Every link target is that of one node and is kept.
pub open spec fn targets_held(m: VfsModel) -> bool {
    &&& forall|a: Handle| #[trigger]
        m.tmpfs_nodes.has(a) && m.tmpfs_nodes.at(a).symlink.is_valid() ==> m.tmpfs_symlinks.has(
            m.tmpfs_nodes.at(a).symlink,
        )
    &&& forall|a: Handle, b: Handle|
        #![trigger m.tmpfs_nodes.has(a), m.tmpfs_nodes.has(b)]
        m.tmpfs_nodes.has(a) && m.tmpfs_nodes.has(b) && m.tmpfs_nodes.at(a).symlink.is_valid()
            && m.tmpfs_nodes.at(a).symlink == m.tmpfs_nodes.at(b).symlink ==> a == b
}

/// Every record in use is that of one mount, and no mount has two.
pub open spec fn records_held(m: VfsModel) -> bool {
    &&& forall|a: Handle| #[trigger]
        m.tmpfs_mounts.has(a) && m.tmpfs_mounts.at(a).owner_mount.is_valid() ==> m.mounts.has(
            m.tmpfs_mounts.at(a).owner_mount,
        )
    &&& forall|a: Handle, b: Handle|
        #![trigger m.tmpfs_mounts.has(a), m.tmpfs_mounts.has(b)]
        m.tmpfs_mounts.has(a) && m.tmpfs_mounts.has(b) && m.tmpfs_mounts.at(
            a,
        ).owner_mount.is_valid() && m.tmpfs_mounts.at(a).owner_mount == m.tmpfs_mounts.at(
            b,
        ).owner_mount ==> a == b
}

/// Vnode `v` is that of node `p` of another filesystem.
pub open spec fn vnode_elsewhere(m: VfsModel, v: Handle, p: Handle) -> bool {
    m.vnodes.has(v) && !m.on_tmpfs(v) && m.vnodes.at(v).backend_ref == p
}

/// No node of another filesystem claims a vnode of this one, or one that has a node already.
pub open spec fn others_apart(m: VfsModel) -> bool {
    &&& forall|p: Handle| #[trigger]
        m.proc_nodes.has(p) && m.proc_nodes.at(p).vnode.is_valid() ==> vnode_elsewhere(
            m,
            m.proc_nodes.at(p).vnode,
            p,
        )
    &&& forall|p: Handle| #[trigger]
        m.sysctl_leaves.has(p) && m.sysctl_leaves.at(p).vnode.is_valid() ==> vnode_elsewhere(
            m,
            m.sysctl_leaves.at(p).vnode,
            p,
        )
    &&& forall|p: Handle, q: Handle|
        #![trigger m.proc_nodes.has(p), m.sysctl_leaves.has(q)]
        m.proc_nodes.has(p) && m.sysctl_leaves.has(q) && m.proc_nodes.at(p).vnode.is_valid()
            ==> m.proc_nodes.at(p).vnode != m.sysctl_leaves.at(q).vnode
}

/// The tables in play hold live handles only.
pub open spec fn tables_wf(m: VfsModel) -> bool {
    &&& m.vnodes.wf()
    &&& m.mounts.wf()
    &&& m.tmpfs_nodes.wf()
    &&& m.tmpfs_mounts.wf()
    &&& m.tmpfs_symlinks.wf()
}

/// The in-memory filesystem is in order.
pub open spec fn tmp_sound(m: VfsModel) -> bool {
    &&& tables_wf(m)
    &&& forall|h: Handle| #[trigger]
        m.tmpfs_nodes.has(h) ==> node_tied(m, h) && names_in_order(m, h) && names_counted(m, h)
    &&& targets_held(m)
    &&& records_held(m)
    &&& others_apart(m)
}

/// At the start the in-memory filesystem is in order.
pub proof fn law_sound_at_start(services: Services)
    ensures
        tmp_sound(VfsModel::initial(services)),
{
}

// ---- lists of names ----------------------------------------------------------------

proof fn lemma_added(es: Seq<EntryView>, e: EntryView, x: EntryView)
    ensures
        es.insert(0, e).contains(x) <==> x == e || es.contains(x),
{
    let big = es.insert(0, e);
    assert(big[0] == e);
    if es.contains(x) {
        let k = choose|k: int| 0 <= k < es.len() && es[k] == x;
        assert(big[k + 1] == x);
    }
    if big.contains(x) {
        let k = choose|k: int| 0 <= k < big.len() && big[k] == x;
        if k > 0 {
            assert(es[k - 1] == x);
        }
    }
}

proof fn lemma_taken(es: Seq<EntryView>, i: int, fold: bool, x: EntryView)
    requires
        0 <= i < es.len(),
        names_differ(es, fold),
    ensures
        es.remove(i).contains(x) <==> x != es[i] && es.contains(x),
{
    let less = es.remove(i);
    if es.contains(x) && x != es[i] {
        let k = choose|k: int| 0 <= k < es.len() && es[k] == x;
        let q = if k < i {
            k
        } else {
            k - 1
        };
        assert(less[q] == x);
    }
    if less.contains(x) {
        let q = choose|q: int| 0 <= q < less.len() && less[q] == x;
        let k = if q < i {
            q
        } else {
            q + 1
        };
        assert(es[k] == x);
        law_same_name_is_equivalence(x.name, x.name, x.name, fold);
        assert(k < i ==> !same_name(es[k].name, es[i].name, fold));
        assert(i < k ==> !same_name(es[i].name, es[k].name, fold));
    }
}

// ---- steps -------------------------------------------------------------------------

/// The two nodes differ in their names, counts, times and contents at most.
spec fn alike(a: TmpNodeView, b: TmpNodeView) -> bool {
    a.owner_mount == b.owner_mount && a.vnode == b.vnode && a.kind == b.kind && a.symlink
        == b.symlink && a.pending_release == b.pending_release
}

/// Vnode `v` is still there and still where it was.
spec fn vnode_stays(m: VfsModel, s: VfsModel, v: Handle) -> bool {
    m.vnodes.has(v) ==> {
        &&& s.vnodes.has(v)
        &&& s.vnodes.at(v).backend == m.vnodes.at(v).backend
        &&& s.vnodes.at(v).backend_ref == m.vnodes.at(v).backend_ref
        &&& s.vnodes.at(v).mount == m.vnodes.at(v).mount
    }
}

/// The node and its vnode count as many names as before.
spec fn counts_stay(m: VfsModel, s: VfsModel, h: Handle) -> bool {
    let n = m.tmpfs_nodes.at(h);
    &&& n.kind != VnodeType::Dir ==> s.tmpfs_nodes.at(h).nlink == n.nlink
    &&& n.vnode.is_valid() ==> s.vnodes.at(n.vnode).nlink == m.vnodes.at(n.vnode).nlink
}

/// The node and its vnode count the same names, `k` of them at least.
spec fn counts(s: VfsModel, h: Handle, k: int) -> bool {
    let n = s.tmpfs_nodes.at(h);
    &&& n.kind != VnodeType::Dir ==> k <= n.nlink
    &&& n.vnode.is_valid() ==> k <= s.vnodes.at(n.vnode).nlink && (n.kind != VnodeType::Dir
        ==> s.vnodes.at(n.vnode).nlink == n.nlink)
    &&& !n.vnode.is_valid() ==> k <= 0
}

/// Mounts, records and the nodes of other filesystems are as they were.
spec fn rest_stays(m: VfsModel, s: VfsModel) -> bool {
    &&& s.mounts == m.mounts
    &&& s.proc_nodes == m.proc_nodes
    &&& s.sysctl_leaves == m.sysctl_leaves
    &&& forall|d: Handle| #[trigger] s.tmpfs_mounts.has(d) == m.tmpfs_mounts.has(d)
    &&& forall|d: Handle|
        m.tmpfs_mounts.has(d) ==> (#[trigger] s.tmpfs_mounts.at(d)).owner_mount
            == m.tmpfs_mounts.at(d).owner_mount
}

/// The same nodes are there, on the same vnodes and with the same link targets; only those of
/// directory `d` are called otherwise, and only the names of `c` are counted otherwise.
spec fn nodes_stay(m: VfsModel, s: VfsModel, d: Handle, c: Handle) -> bool {
    &&& tables_wf(s)
    &&& rest_stays(m, s)
    &&& s.tmpfs_symlinks == m.tmpfs_symlinks
    &&& forall|v: Handle| #[trigger] m.vnodes.has(v) ==> vnode_stays(m, s, v)
    &&& forall|h: Handle| #[trigger] s.tmpfs_nodes.has(h) == m.tmpfs_nodes.has(h)
    &&& forall|h: Handle|
        m.tmpfs_nodes.has(h) ==> alike(m.tmpfs_nodes.at(h), #[trigger] s.tmpfs_nodes.at(h)) && (h
            != d ==> s.tmpfs_nodes.at(h).children == m.tmpfs_nodes.at(h).children) && (h != c
            ==> counts_stay(m, s, h))
}

/// Where the nodes stay, so do their vnodes, targets and records.
proof fn lemma_nodes_stay(m: VfsModel, s: VfsModel, d: Handle, c: Handle)
    requires
        tmp_sound(m),
        nodes_stay(m, s, d, c),
    ensures
        forall|h: Handle| #[trigger] s.tmpfs_nodes.has(h) ==> node_tied(s, h),
        targets_held(s),
        records_held(s),
        others_apart(s),
        forall|h: Handle| #[trigger]
            s.tmpfs_nodes.has(h) && h != d ==> names_in_order(s, h),
{
    assert forall|h: Handle| #[trigger] s.tmpfs_nodes.has(h) implies node_tied(s, h) by {
        assert(m.tmpfs_nodes.has(h) && node_tied(m, h));
        assert(alike(m.tmpfs_nodes.at(h), s.tmpfs_nodes.at(h)));
        let v = m.tmpfs_nodes.at(h).vnode;
        if v.is_valid() {
            assert(m.vnodes.has(v));
            assert(vnode_stays(m, s, v));
        }
    }
    assert forall|h: Handle| #[trigger] s.tmpfs_nodes.has(h) && h != d implies names_in_order(
        s,
        h,
    ) by {
        assert(m.tmpfs_nodes.has(h) && names_in_order(m, h));
        let n = s.tmpfs_nodes.at(h);
        assert(alike(m.tmpfs_nodes.at(h), n));
        assert forall|i: int| 0 <= i < n.children.len() implies {
            let x = (#[trigger] n.children[i]).child;
            s.tmpfs_nodes.has(x) && x != h && s.tmpfs_nodes.at(x).owner_mount == n.owner_mount
        } by {
            let x = n.children[i].child;
            assert(m.tmpfs_nodes.at(h).children[i].child == x);
            assert(m.tmpfs_nodes.has(x));
            assert(alike(m.tmpfs_nodes.at(x), s.tmpfs_nodes.at(x)));
        }
    }
    lemma_targets_stay(m, s);
    lemma_records_stay(m, s);
}

proof fn lemma_targets_stay(m: VfsModel, s: VfsModel)
    requires
        targets_held(m),
        forall|h: Handle| #[trigger]
            s.tmpfs_nodes.has(h) ==> m.tmpfs_nodes.has(h) && s.tmpfs_nodes.at(h).symlink
                == m.tmpfs_nodes.at(h).symlink,
        forall|h: Handle| #[trigger]
            s.tmpfs_nodes.has(h) && s.tmpfs_nodes.at(h).symlink.is_valid() ==> s.tmpfs_symlinks.has(
                s.tmpfs_nodes.at(h).symlink,
            ) == m.tmpfs_symlinks.has(s.tmpfs_nodes.at(h).symlink),
    ensures
        targets_held(s),
{
}

proof fn lemma_records_stay(m: VfsModel, s: VfsModel)
    requires
        records_held(m),
        others_apart(m),
        rest_stays(m, s),
        forall|v: Handle| #[trigger]
            m.vnodes.has(v) && !m.on_tmpfs(v) ==> s.vnodes.has(v) && !s.on_tmpfs(v)
                && s.vnodes.at(v).backend_ref == m.vnodes.at(v).backend_ref,
    ensures
        records_held(s),
        others_apart(s),
{
    assert forall|a: Handle, b: Handle|
        #![trigger s.tmpfs_mounts.has(a), s.tmpfs_mounts.has(b)]
        s.tmpfs_mounts.has(a) && s.tmpfs_mounts.has(b) && s.tmpfs_mounts.at(
            a,
        ).owner_mount.is_valid() && s.tmpfs_mounts.at(a).owner_mount == s.tmpfs_mounts.at(
            b,
        ).owner_mount implies a == b by {
        assert(m.tmpfs_mounts.has(a) && m.tmpfs_mounts.has(b));
    }
}

/// The names of a node that was given one more.
proof fn lemma_names_added(
    m: VfsModel,
    s: VfsModel,
    d: Handle,
    c: Handle,
    name: Seq<u8>,
    x: Handle,
)
    requires
        nodes_stay(m, s, d, c),
        m.tmpfs_nodes.has(d),
        s.tmpfs_nodes.at(d).children == m.tmpfs_nodes.at(d).children.insert(
            0,
            EntryView { child: c, name },
        ),
    ensures
        names_of(s, x) == if x == c {
            names_of(m, x).insert((d, name))
        } else {
            names_of(m, x)
        },
{
    let e = EntryView { child: c, name };
    let want = if x == c {
        names_of(m, x).insert((d, name))
    } else {
        names_of(m, x)
    };
    assert forall|p: (Handle, Seq<u8>)| #[trigger] names_of(s, x).contains(p) == want.contains(
        p,
    ) by {
        let y = EntryView { child: x, name: p.1 };
        assert(s.tmpfs_nodes.has(p.0) == m.tmpfs_nodes.has(p.0));
        if p.0 == d {
            lemma_added(m.tmpfs_nodes.at(d).children, e, y);
        } else if m.tmpfs_nodes.has(p.0) {
            assert(s.tmpfs_nodes.at(p.0).children == m.tmpfs_nodes.at(p.0).children);
        }
        assert(p == (p.0, p.1));
    }
    assert(names_of(s, x) =~= want);
}

/// The names of a node that has lost one.
proof fn lemma_names_taken(m: VfsModel, s: VfsModel, d: Handle, i: int, c: Handle, x: Handle)
    requires
        nodes_stay(m, s, d, c),
        m.tmpfs_nodes.has(d),
        0 <= i < m.tmpfs_nodes.at(d).children.len(),
        m.tmpfs_nodes.at(d).children[i].child == c,
        names_in_order(m, d),
        s.tmpfs_nodes.at(d).children == m.tmpfs_nodes.at(d).children.remove(i),
    ensures
        names_of(s, x) == if x == c {
            names_of(m, x).remove((d, m.tmpfs_nodes.at(d).children[i].name))
        } else {
            names_of(m, x)
        },
        names_of(m, c).contains((d, m.tmpfs_nodes.at(d).children[i].name)),
{
    let es = m.tmpfs_nodes.at(d).children;
    let want = if x == c {
        names_of(m, x).remove((d, es[i].name))
    } else {
        names_of(m, x)
    };
    let fold = m.folds(m.tmpfs_nodes.at(d).owner_mount);
    assert forall|p: (Handle, Seq<u8>)| #[trigger] names_of(s, x).contains(p) == want.contains(
        p,
    ) by {
        let y = EntryView { child: x, name: p.1 };
        assert(s.tmpfs_nodes.has(p.0) == m.tmpfs_nodes.has(p.0));
        if p.0 == d {
            lemma_taken(es, i, fold, y);
        } else if m.tmpfs_nodes.has(p.0) {
            assert(s.tmpfs_nodes.at(p.0).children == m.tmpfs_nodes.at(p.0).children);
        }
        assert(p == (p.0, p.1));
    }
    assert(names_of(s, x) =~= want);
    assert(es[i] == EntryView { child: c, name: es[i].name });
    assert(es.contains(es[i]));
}

/// A directory that is given a name for a node that may have one more stays in order.
proof fn lemma_entry_added(m: VfsModel, s: VfsModel, d: Handle, c: Handle, name: Seq<u8>)
    requires
        tmp_sound(m),
        nodes_stay(m, s, d, c),
        m.tmpfs_nodes.has(d),
        m.tmpfs_nodes.has(c),
        c != d,
        m.tmpfs_nodes.at(d).kind == VnodeType::Dir,
        m.tmpfs_nodes.at(c).owner_mount == m.tmpfs_nodes.at(d).owner_mount,
        s.tmpfs_nodes.at(d).children == m.tmpfs_nodes.at(d).children.insert(
            0,
            EntryView { child: c, name },
        ),
        child_pos(
            m.tmpfs_nodes.at(d).children,
            name,
            m.folds(m.tmpfs_nodes.at(d).owner_mount),
            0,
        ) is None,
        names_of(m, c).len() + 1 <= names_allowed(s.tmpfs_nodes.at(c)),
        counts(s, c, names_of(m, c).len() as int + 1),
    ensures
        tmp_sound(s),
{
    lemma_nodes_stay(m, s, d, c);
    let es = m.tmpfs_nodes.at(d).children;
    let big = s.tmpfs_nodes.at(d).children;
    let e = EntryView { child: c, name };
    assert(alike(m.tmpfs_nodes.at(d), s.tmpfs_nodes.at(d)));
    assert(alike(m.tmpfs_nodes.at(c), s.tmpfs_nodes.at(c)));
    assert(names_in_order(m, d));
    assert(names_in_order(s, d)) by {
        lemma_newest_keeps_apart(es, e, m.folds(m.tmpfs_nodes.at(d).owner_mount));
        assert forall|i: int| 0 <= i < big.len() implies {
            let x = (#[trigger] big[i]).child;
            s.tmpfs_nodes.has(x) && x != d && s.tmpfs_nodes.at(x).owner_mount == s.tmpfs_nodes.at(
                d,
            ).owner_mount
        } by {
            if i == 0 {
                assert(big[i] == e);
            } else {
                assert(big[i] == es[i - 1]);
                let x = es[i - 1].child;
                assert(m.tmpfs_nodes.has(x));
                assert(alike(m.tmpfs_nodes.at(x), s.tmpfs_nodes.at(x)));
            }
        }
    }
    assert forall|x: Handle| #[trigger] s.tmpfs_nodes.has(x) implies names_counted(s, x) by {
        assert(m.tmpfs_nodes.has(x) && names_counted(m, x));
        assert(alike(m.tmpfs_nodes.at(x), s.tmpfs_nodes.at(x)));
        lemma_names_added(m, s, d, c, name, x);
    }
}

/// A directory that loses a name stays in order, and so does the node that had it, where it
/// counts one name less at most.
proof fn lemma_entry_taken(m: VfsModel, s: VfsModel, d: Handle, i: int, c: Handle)
    requires
        tmp_sound(m),
        nodes_stay(m, s, d, c),
        m.tmpfs_nodes.has(d),
        0 <= i < m.tmpfs_nodes.at(d).children.len(),
        m.tmpfs_nodes.at(d).children[i].child == c,
        s.tmpfs_nodes.at(d).children == m.tmpfs_nodes.at(d).children.remove(i),
        counts(s, c, names_of(m, c).len() as int - 1),
    ensures
        tmp_sound(s),
        names_of(s, c).len() + 1 == names_of(m, c).len(),
{
    lemma_nodes_stay(m, s, d, c);
    let es = m.tmpfs_nodes.at(d).children;
    let less = s.tmpfs_nodes.at(d).children;
    assert(names_in_order(m, d));
    assert(m.tmpfs_nodes.has(c));
    assert(alike(m.tmpfs_nodes.at(d), s.tmpfs_nodes.at(d)));
    assert(alike(m.tmpfs_nodes.at(c), s.tmpfs_nodes.at(c)));
    assert(names_in_order(s, d)) by {
        lemma_removal_keeps_apart(es, i, m.folds(m.tmpfs_nodes.at(d).owner_mount));
        assert forall|q: int| 0 <= q < less.len() implies {
            let x = (#[trigger] less[q]).child;
            s.tmpfs_nodes.has(x) && x != d && s.tmpfs_nodes.at(x).owner_mount == s.tmpfs_nodes.at(
                d,
            ).owner_mount
        } by {
            let k = if q < i {
                q
            } else {
                q + 1
            };
            assert(less[q] == es[k]);
            let x = es[k].child;
            assert(m.tmpfs_nodes.has(x));
            assert(alike(m.tmpfs_nodes.at(x), s.tmpfs_nodes.at(x)));
        }
    }
    assert(names_counted(m, c));
    lemma_names_taken(m, s, d, i, c, c);
    assert forall|x: Handle| #[trigger] s.tmpfs_nodes.has(x) implies names_counted(s, x) by {
        assert(m.tmpfs_nodes.has(x) && names_counted(m, x));
        assert(alike(m.tmpfs_nodes.at(x), s.tmpfs_nodes.at(x)));
        lemma_names_taken(m, s, d, i, c, x);
    }
}

/// A handle that names no node has no name.
proof fn lemma_unknown_unnamed(m: VfsModel, c: Handle)
    requires
        tmp_sound(m),
        !m.tmpfs_nodes.has(c),
    ensures
        names_of(m, c) == Set::<(Handle, Seq<u8>)>::empty(),
{
    assert forall|p: (Handle, Seq<u8>)| !(#[trigger] names_of(m, c).contains(p)) by {
        if names_of(m, c).contains(p) {
            let es = m.tmpfs_nodes.at(p.0).children;
            let k = choose|k: int|
                0 <= k < es.len() && es[k] == EntryView { child: c, name: p.1 };
            assert(names_in_order(m, p.0));
            assert(m.tmpfs_nodes.has(es[k].child));
        }
    }
    assert(names_of(m, c) =~= Set::<(Handle, Seq<u8>)>::empty());
}

/// One more node without a name, on a vnode and with a link target of its own, changes
/// nothing for the others.
proof fn lemma_node_added(m: VfsModel, s: VfsModel, nh: Handle)
    requires
        tmp_sound(m),
        tables_wf(s),
        rest_stays(m, s),
        forall|v: Handle| #[trigger] m.vnodes.has(v) ==> vnode_stays(m, s, v),
        forall|t: Handle| #[trigger] m.tmpfs_symlinks.has(t) ==> s.tmpfs_symlinks.has(t),
        !m.tmpfs_nodes.has(nh),
        forall|h: Handle| #[trigger]
            s.tmpfs_nodes.has(h) <==> m.tmpfs_nodes.has(h) || h == nh,
        forall|h: Handle| #[trigger]
            m.tmpfs_nodes.has(h) ==> s.tmpfs_nodes.at(h) == m.tmpfs_nodes.at(h) && counts_stay(m, s, h),
        s.tmpfs_nodes.at(nh).children.len() == 0,
        node_tied(s, nh),
        counts(s, nh, 0),
        s.tmpfs_nodes.at(nh).symlink.is_valid() ==> s.tmpfs_symlinks.has(
            s.tmpfs_nodes.at(nh).symlink,
        ) && !m.tmpfs_symlinks.has(s.tmpfs_nodes.at(nh).symlink),
    ensures
        tmp_sound(s),
        names_of(s, nh) == Set::<(Handle, Seq<u8>)>::empty(),
{
    lemma_unknown_unnamed(m, nh);
    assert forall|x: Handle| #[trigger] names_of(s, x) == names_of(m, x) by {
        assert forall|p: (Handle, Seq<u8>)| #[trigger] names_of(s, x).contains(p) == names_of(
            m,
            x,
        ).contains(p) by {
            assert(s.tmpfs_nodes.has(p.0) <==> m.tmpfs_nodes.has(p.0) || p.0 == nh);
        }
        assert(names_of(s, x) =~= names_of(m, x));
    }
    assert forall|h: Handle| #[trigger] s.tmpfs_nodes.has(h) implies node_tied(s, h)
        && names_in_order(s, h) && names_counted(s, h) by {
        assert(names_of(s, h) == names_of(m, h));
        if h != nh {
            assert(m.tmpfs_nodes.has(h) && node_tied(m, h) && names_in_order(m, h));
            let n = m.tmpfs_nodes.at(h);
            if n.vnode.is_valid() {
                assert(m.vnodes.has(n.vnode));
                assert(vnode_stays(m, s, n.vnode));
            }
            assert forall|i: int| 0 <= i < n.children.len() implies {
                let x = (#[trigger] n.children[i]).child;
                s.tmpfs_nodes.has(x) && x != h && s.tmpfs_nodes.at(x).owner_mount == n.owner_mount
            } by {
                assert(m.tmpfs_nodes.has(n.children[i].child));
            }
        }
    }
    assert forall|v: Handle| #[trigger] m.vnodes.has(v) && !m.on_tmpfs(v) implies s.vnodes.has(v)
        && !s.on_tmpfs(v) && s.vnodes.at(v).backend_ref == m.vnodes.at(v).backend_ref by {
        assert(vnode_stays(m, s, v));
    }
    lemma_records_stay(m, s);
    assert forall|a: Handle, b: Handle|
        #![trigger s.tmpfs_nodes.has(a), s.tmpfs_nodes.has(b)]
        s.tmpfs_nodes.has(a) && s.tmpfs_nodes.has(b) && s.tmpfs_nodes.at(a).symlink.is_valid()
            && s.tmpfs_nodes.at(a).symlink == s.tmpfs_nodes.at(b).symlink implies a == b by {
        assert(a != nh ==> m.tmpfs_nodes.has(a));
        assert(b != nh ==> m.tmpfs_nodes.has(b));
    }
    assert forall|a: Handle| #[trigger]
        s.tmpfs_nodes.has(a) && s.tmpfs_nodes.at(a).symlink.is_valid() implies s.tmpfs_symlinks.has(
        s.tmpfs_nodes.at(a).symlink,
    ) by {
        assert(a != nh ==> m.tmpfs_nodes.has(a));
    }
}

/// A node without a name that goes, or that is cut loose from its vnode, is missed by none.
proof fn lemma_node_gone(m: VfsModel, s: VfsModel, c: Handle)
    requires
        tmp_sound(m),
        tables_wf(s),
        rest_stays(m, s),
        m.tmpfs_nodes.has(c),
        names_of(m, c).len() == 0,
        forall|v: Handle| #[trigger]
            m.vnodes.has(v) && v != m.tmpfs_nodes.at(c).vnode ==> vnode_stays(m, s, v),
        forall|t: Handle| #[trigger]
            m.tmpfs_symlinks.has(t) && (s.tmpfs_nodes.has(c) || t != m.tmpfs_nodes.at(c).symlink)
                ==> s.tmpfs_symlinks.has(t),
        forall|h: Handle| h != c ==> #[trigger] s.tmpfs_nodes.has(h) == m.tmpfs_nodes.has(h),
        forall|h: Handle|
            h != c && m.tmpfs_nodes.has(h) ==> #[trigger] s.tmpfs_nodes.at(h) == m.tmpfs_nodes.at(h)
                && counts_stay(m, s, h),
        s.tmpfs_nodes.has(c) ==> {
            let n = s.tmpfs_nodes.at(c);
            let o = m.tmpfs_nodes.at(c);
            &&& !n.vnode.is_valid()
            &&& n.owner_mount == o.owner_mount && n.kind == o.kind && n.symlink == o.symlink
            &&& n.children == o.children && n.nlink == o.nlink
        },
    ensures
        tmp_sound(s),
{
    assert(names_counted(m, c));
    names_of(m, c).lemma_len0_is_empty();
    assert forall|x: Handle| s.tmpfs_nodes.has(x) implies #[trigger] names_counted(s, x) by {
        assert(m.tmpfs_nodes.has(x) && names_counted(m, x));
        assert(names_of(s, x).subset_of(names_of(m, x))) by {
            assert forall|p: (Handle, Seq<u8>)| #[trigger] names_of(s, x).contains(p) implies names_of(
                m,
                x,
            ).contains(p) by {
                assert(s.tmpfs_nodes.has(p.0));
                if p.0 != c {
                    assert(m.tmpfs_nodes.has(p.0));
                    assert(s.tmpfs_nodes.at(p.0) == m.tmpfs_nodes.at(p.0));
                }
            }
        }
        vstd::set_lib::lemma_len_subset(names_of(s, x), names_of(m, x));
        if x != c {
            assert(s.tmpfs_nodes.at(x) == m.tmpfs_nodes.at(x));
        }
    }
    assert forall|h: Handle| #[trigger] s.tmpfs_nodes.has(h) implies node_tied(s, h)
        && names_in_order(s, h) by {
        assert(m.tmpfs_nodes.has(h) && node_tied(m, h) && names_in_order(m, h));
        let n = m.tmpfs_nodes.at(h);
        if h != c {
            assert(s.tmpfs_nodes.at(h) == n);
            if n.vnode.is_valid() {
                assert(node_tied(m, c));
                assert(m.vnodes.has(n.vnode) && n.vnode != m.tmpfs_nodes.at(c).vnode);
                assert(vnode_stays(m, s, n.vnode));
            }
        }
        assert(s.tmpfs_nodes.at(h).children == n.children);
        assert forall|i: int| 0 <= i < n.children.len() implies {
            let x = (#[trigger] n.children[i]).child;
            s.tmpfs_nodes.has(x) && x != h && s.tmpfs_nodes.at(x).owner_mount == n.owner_mount
        } by {
            let x = n.children[i].child;
            assert(m.tmpfs_nodes.has(x));
            assert(x != c) by {
                if x == c {
                    assert(n.children.contains(n.children[i]));
                    assert(n.children[i] == EntryView { child: c, name: n.children[i].name });
                    assert(names_of(m, c).contains((h, n.children[i].name)));
                }
            }
            assert(s.tmpfs_nodes.has(x) == m.tmpfs_nodes.has(x));
            assert(s.tmpfs_nodes.at(x) == m.tmpfs_nodes.at(x));
        }
    }
    assert forall|v: Handle| #[trigger] m.vnodes.has(v) && !m.on_tmpfs(v) implies s.vnodes.has(v)
        && !s.on_tmpfs(v) && s.vnodes.at(v).backend_ref == m.vnodes.at(v).backend_ref by {
        assert(node_tied(m, c));
        assert(v != m.tmpfs_nodes.at(c).vnode || !v.is_valid());
        assert(v.slot < m.vnodes.epochs.len()) by {
            assert(m.vnodes.live.contains_key(v));
        }
        assert(vnode_stays(m, s, v));
    }
    lemma_records_stay(m, s);
    assert forall|h: Handle| #[trigger] s.tmpfs_nodes.has(h) implies m.tmpfs_nodes.has(h)
        && s.tmpfs_nodes.at(h).symlink == m.tmpfs_nodes.at(h).symlink by {
        if h != c {
            assert(s.tmpfs_nodes.at(h) == m.tmpfs_nodes.at(h));
        }
    }
    assert forall|h: Handle| #[trigger]
        s.tmpfs_nodes.has(h) && s.tmpfs_nodes.at(h).symlink.is_valid() implies s.tmpfs_symlinks.has(
        s.tmpfs_nodes.at(h).symlink,
    ) == m.tmpfs_symlinks.has(s.tmpfs_nodes.at(h).symlink) by {
        assert(m.tmpfs_nodes.has(h) && m.tmpfs_nodes.has(c));
        let t = m.tmpfs_nodes.at(h).symlink;
        assert(m.tmpfs_symlinks.has(t));
    }
    lemma_targets_stay(m, s);
}

/// Where nothing is called otherwise, all stays in order.
proof fn lemma_all_stays(m: VfsModel, s: VfsModel)
    requires
        tmp_sound(m),
        nodes_stay(m, s, Handle::invalid(), Handle::invalid()),
    ensures
        tmp_sound(s),
{
    let none = Handle::invalid();
    lemma_nodes_stay(m, s, none, none);
    assert(!m.tmpfs_nodes.has(none)) by {
        assert(m.tmpfs_nodes.live.contains_key(none) ==> none.slot < m.tmpfs_nodes.epochs.len());
    }
    assert forall|x: Handle| #[trigger] s.tmpfs_nodes.has(x) implies names_counted(s, x) by {
        assert(m.tmpfs_nodes.has(x) && names_counted(m, x));
        assert(alike(m.tmpfs_nodes.at(x), s.tmpfs_nodes.at(x)));
        assert forall|p: (Handle, Seq<u8>)| #[trigger] names_of(s, x).contains(p) == names_of(
            m,
            x,
        ).contains(p) by {
            assert(s.tmpfs_nodes.has(p.0) == m.tmpfs_nodes.has(p.0));
            if m.tmpfs_nodes.has(p.0) {
                assert(s.tmpfs_nodes.at(p.0).children == m.tmpfs_nodes.at(p.0).children);
            }
        }
        assert(names_of(s, x) =~= names_of(m, x));
    }
}

/// What a new entry does to a table.
proof fn lemma_fresh<V>(t: Table<V>, v: V)
    requires
        t.wf(),
        t.next() is Some,
    ensures
        !t.has(t.next()->0),
        t.next()->0.is_valid(),
        t.grown(v).wf(),
        forall|o: Handle| #[trigger] t.grown(v).has(o) <==> t.has(o) || o == t.next()->0,
        forall|o: Handle| #[trigger] t.has(o) ==> t.grown(v).at(o) == t.at(o),
        t.grown(v).at(t.next()->0) == v,
{
    t.lemma_vacant(0);
    let h = t.next()->0;
    let g = t.grown(v);
    assert forall|o: Handle| #[trigger] g.live.contains_key(o) implies o.slot < g.epochs.len()
        && g.epochs[o.slot as int] == o.epoch by {
        assert(o != h ==> t.live.contains_key(o));
    }
}

/// What the loss of an entry does to a table.
proof fn lemma_lost<V>(t: Table<V>, h: Handle)
    requires
        t.wf(),
    ensures
        t.dropped(h).wf(),
        forall|o: Handle| #[trigger] t.dropped(h).has(o) <==> t.has(o) && o != h,
        forall|o: Handle| #[trigger]
            t.dropped(h).has(o) ==> t.dropped(h).at(o) == t.at(o),
{
    let g = t.dropped(h);
    assert forall|o: Handle| #[trigger] g.live.contains_key(o) implies o.slot < g.epochs.len()
        && g.epochs[o.slot as int] == o.epoch by {
        assert(t.live.contains_key(o));
        if t.has(h) {
            assert(t.live.contains_key(h));
        }
    }
}

// ---- making ------------------------------------------------------------------------

/// Making a node in a directory, or failing to, leaves the filesystem in order.
pub proof fn law_making_keeps_sound(
    m: VfsModel,
    parent: Handle,
    name: Seq<u8>,
    mode: u32,
    kind: VnodeType,
    now: u64,
)
    requires
        tmp_sound(m),
        m.tmp_node_of(parent) matches Some(d) ==> m.tmpfs_nodes.at(d).kind == VnodeType::Dir,
    ensures
        tmp_sound(m.child_made(parent, name, mode, kind, now)),
{
    let mount = m.mount_of(parent);
    let s = m.child_made(parent, name, mode, kind, now);
    if m.new_name_refused(parent, name) is None {
        if m.node_refused(mount, name) is Some {
            lemma_not_made(m, mount, name);
        } else {
            let d = m.tmp_node_of(parent)->0;
            let nh = m.tmpfs_nodes.next()->0;
            let vh = m.vnodes.next()->0;
            let node = TmpNodeView {
                children: Seq::empty(),
                ..s.tmpfs_nodes.at(nh)
            };
            let a = VfsModel { tmpfs_nodes: m.tmpfs_nodes.grown(node), ..s };
            lemma_fresh(m.tmpfs_nodes, node);
            lemma_fresh(m.vnodes, s.vnodes.at(vh));
            assert(node_tied(m, d));
            assert(s.tmpfs_nodes.at(nh).children.len() == 0);
            assert(a.tmpfs_nodes.at(nh) == s.tmpfs_nodes.at(nh));
            assert(m.vnodes.grown(s.vnodes.at(vh)).live =~= s.vnodes.live);
            assert(s.vnodes.wf());
            assert(node_tied(a, nh));
            lemma_node_added(m, a, nh);
            assert(names_of(a, nh).len() == 0);
            assert(nodes_stay(a, s, d, nh));
            lemma_entry_added(a, s, d, nh, name);
        }
    }
}

/// A node that could not be made has left no trace.
proof fn lemma_not_made(m: VfsModel, mount: Handle, name: Seq<u8>)
    requires
        tmp_sound(m),
    ensures
        tmp_sound(m.node_not_made(mount, name)),
        m.node_not_made(mount, name).tmpfs_symlinks == m.tmpfs_symlinks,
{
    let s = m.node_not_made(mount, name);
    if m.tmpfs_nodes.next() is Some {
        let h = m.tmpfs_nodes.next()->0;
        lemma_fresh(m.tmpfs_nodes, TmpNodeView::blank());
        lemma_lost(m.tmpfs_nodes.grown(TmpNodeView::blank()), h);
    }
    assert(nodes_stay(m, s, Handle::invalid(), Handle::invalid()));
    lemma_all_stays(m, s);
}

/// Making a symlink, or failing to, leaves the filesystem in order.
pub proof fn law_symlinking_keeps_sound(
    m: VfsModel,
    parent: Handle,
    name: Seq<u8>,
    target: Seq<u8>,
    now: u64,
)
    requires
        tmp_sound(m),
        m.tmp_node_of(parent) matches Some(d) ==> m.tmpfs_nodes.at(d).kind == VnodeType::Dir,
    ensures
        tmp_sound(m.symlink_made(parent, name, target, now)),
{
    let mount = m.mount_of(parent);
    let s = m.symlink_made(parent, name, target, now);
    if m.on_tmpfs(parent) && 0 < target.len() <= TMPFS_SYMLINK_MAX && m.new_name_refused(
        parent,
        name,
    ) is None && m.tmpfs_symlinks.next() is Some {
        let sh = m.tmpfs_symlinks.next()->0;
        let b = VfsModel { tmpfs_symlinks: m.tmpfs_symlinks.grown(target), ..m };
        lemma_fresh(m.tmpfs_symlinks, target);
        if m.node_refused(mount, name) is Some {
            lemma_lost(b.tmpfs_symlinks, sh);
            let t = b.node_not_made(mount, name);
            let u = m.node_not_made(mount, name);
            assert(t == VfsModel { tmpfs_symlinks: b.tmpfs_symlinks, ..u });
            lemma_not_made(m, mount, name);
            lemma_targets_stay(u, s);
            lemma_symlinks_alone(u, s);
        } else {
            let d = m.tmp_node_of(parent)->0;
            let nh = m.tmpfs_nodes.next()->0;
            let vh = m.vnodes.next()->0;
            let node = s.tmpfs_nodes.at(nh);
            let a = VfsModel { tmpfs_nodes: m.tmpfs_nodes.grown(node), ..s };
            lemma_fresh(m.tmpfs_nodes, node);
            lemma_fresh(m.vnodes, s.vnodes.at(vh));
            assert(node_tied(m, d));
            assert(node.children.len() == 0);
            assert(m.vnodes.grown(s.vnodes.at(vh)).live =~= s.vnodes.live);
            assert(s.vnodes.wf());
            assert(node_tied(a, nh));
            lemma_node_added(m, a, nh);
            assert(names_of(a, nh).len() == 0);
            assert(a.tmpfs_nodes.at(nh) == node && d != nh);
            assert forall|h: Handle| a.tmpfs_nodes.has(h) && h != d implies
                #[trigger] s.tmpfs_nodes.at(h) == a.tmpfs_nodes.at(h) by {
                if h != nh {
                    assert(m.tmpfs_nodes.has(h));
                }
            }
            assert(s.tmpfs_nodes.epochs == a.tmpfs_nodes.epochs);
            assert(s.tmpfs_nodes.live.dom() =~= a.tmpfs_nodes.live.dom());
            assert forall|h: Handle| #[trigger] s.tmpfs_nodes.has(h) == a.tmpfs_nodes.has(h) by {
                assert(s.tmpfs_nodes.live.dom().contains(h) == a.tmpfs_nodes.live.dom().contains(h));
            }
            assert forall|h: Handle| #[trigger] s.tmpfs_nodes.live.contains_key(h) implies h.slot
                < s.tmpfs_nodes.epochs.len() && s.tmpfs_nodes.epochs[h.slot as int] == h.epoch by {
                assert(a.tmpfs_nodes.live.contains_key(h));
            }
            assert(nodes_stay(a, s, d, nh));
            lemma_entry_added(a, s, d, nh, name);
        }
    }
}

/// Only link targets that no node has differ.
proof fn lemma_symlinks_alone(m: VfsModel, s: VfsModel)
    requires
        tmp_sound(m),
        s == (VfsModel { tmpfs_symlinks: s.tmpfs_symlinks, ..m }),
        s.tmpfs_symlinks.wf(),
        targets_held(s),
    ensures
        tmp_sound(s),
{
    assert forall|h: Handle| #[trigger] s.tmpfs_nodes.has(h) implies node_tied(s, h)
        && names_in_order(s, h) && names_counted(s, h) by {
        assert(node_tied(m, h) && names_in_order(m, h) && names_counted(m, h));
        assert(names_of(s, h) =~= names_of(m, h));
    }
}

// ---- linking -----------------------------------------------------------------------

/// Giving a file one more name in a directory leaves the filesystem in order, as long as the
/// file can count the name.
pub proof fn law_linking_keeps_sound(
    m: VfsModel,
    source: Handle,
    dir: Handle,
    name: Seq<u8>,
    now: u64,
)
    requires
        tmp_sound(m),
        m.link_refused(source, dir, name) is None,
        m.tmpfs_nodes.at(m.tmp_node_of(dir)->0).kind == VnodeType::Dir,
        m.tmpfs_nodes.at(m.tmp_node_of(source)->0).nlink < u32::MAX,
    ensures
        tmp_sound(m.linked(source, dir, name, now)),
{
    let s = m.linked(source, dir, name, now);
    let d = m.tmp_node_of(dir)->0;
    let c = m.tmp_node_of(source)->0;
    assert(node_tied(m, d) && node_tied(m, c) && names_counted(m, c));
    assert(nodes_stay(m, s, d, c));
    lemma_entry_added(m, s, d, c, name);
}

// ---- removing ----------------------------------------------------------------------

/// A vnode whose node has no name may be reclaimed.
proof fn lemma_reclaim_keeps_sound(m: VfsModel, v: Handle, c: Handle)
    requires
        tmp_sound(m),
        m.tmpfs_nodes.has(c),
        m.tmpfs_nodes.at(c).vnode == v,
        names_of(m, c).len() == 0,
    ensures
        tmp_sound(m.reclaimed(v)),
        m.reclaimed(v).mounts == m.mounts,
        forall|h: Handle|
            h != c && m.tmpfs_nodes.has(h) ==> #[trigger] m.reclaimed(v).tmpfs_nodes.has(h),
        forall|h: Handle|
            h != c && m.tmpfs_nodes.has(h) ==> #[trigger] m.reclaimed(v).tmpfs_nodes.at(h)
                == m.tmpfs_nodes.at(h),
{
    reveal(VfsModel::reclaimed);
    if m.reclaimable(v) {
        let s = m.reclaimed(v);
        assert(v.is_valid()) by {
            assert(m.vnodes.live.contains_key(v));
        }
        assert(node_tied(m, c));
        let r = m.vnodes.at(v).backend_ref;
        assert(m.proc_node_of(v) is None) by {
            assert(m.proc_nodes.has(r) ==> m.proc_nodes.at(r).vnode != v);
        }
        assert(m.sysctl_leaf_of(v) is None) by {
            assert(m.sysctl_leaves.has(r) ==> m.sysctl_leaves.at(r).vnode != v);
        }
        assert(c.is_valid()) by {
            assert(m.tmpfs_nodes.live.contains_key(c));
        }
        let b = m.fifo_let_go(v).proc_node_released(v).sysctl_leaf_released(v);
        assert(b.vnodes == m.vnodes && b.mounts == m.mounts && b.tmpfs_nodes == m.tmpfs_nodes
            && b.tmpfs_mounts == m.tmpfs_mounts && b.tmpfs_symlinks == m.tmpfs_symlinks
            && b.proc_nodes == m.proc_nodes && b.sysctl_leaves == m.sysctl_leaves);
        assert(b.served_by_tmpfs(v));
        assert(b.tmp_node_of(v) == Some(c));
        let t = b.tmp_reclaimed(v);
        lemma_tmp_reclaimed(b, v, c);
        lemma_lost(t.vnodes, v);
        assert(s.vnodes == t.vnodes.dropped(v));
        lemma_node_gone(m, s, c);
    }
}

/// What letting go of vnode `v` leaves behind.
proof fn lemma_tmp_reclaimed(m: VfsModel, v: Handle, c: Handle)
    requires
        tables_wf(m),
        m.on_tmpfs(v),
        m.tmp_node_of(v) == Some(c),
    ensures
        ({
            let t = m.tmp_reclaimed(v);
            let n = m.tmpfs_nodes.at(c);
            &&& tables_wf(t)
            &&& rest_stays(m, t)
            &&& forall|o: Handle| #[trigger] t.vnodes.has(o) == m.vnodes.has(o)
            &&& forall|o: Handle| o != v ==> #[trigger] t.vnodes.at(o) == m.vnodes.at(o)
            &&& forall|h: Handle| h != c ==> #[trigger] t.tmpfs_nodes.has(h) == m.tmpfs_nodes.has(h)
            &&& forall|h: Handle| h != c ==> #[trigger] t.tmpfs_nodes.at(h) == m.tmpfs_nodes.at(h)
            &&& t.tmpfs_nodes.has(c) ==> t.tmpfs_nodes.at(c) == TmpNodeView {
                pending_release: true,
                vnode: Handle::invalid(),
                ..n
            } && t.tmpfs_symlinks == m.tmpfs_symlinks
            &&& forall|x: Handle| #[trigger]
                m.tmpfs_symlinks.has(x) && x != n.symlink ==> t.tmpfs_symlinks.has(x)
        }),
{
    let n = m.tmpfs_nodes.at(c);
    if n.mmap_export_refs == 0 {
        let a = m.storage_released(c);
        assert(rest_stays(m, a) && a.vnodes == m.vnodes && a.tmpfs_symlinks == m.tmpfs_symlinks);
        assert(a.tmpfs_nodes.wf() && a.tmpfs_mounts.wf());
        lemma_lost(a.tmpfs_nodes, c);
        lemma_lost(m.tmpfs_symlinks, n.symlink);
        let b = m.tmp_node_dropped(c);
        assert(b.tmpfs_nodes == a.tmpfs_nodes.dropped(c));
        assert(rest_stays(m, b));
        assert(tables_wf(b));
    }
}

/// What the loss of a name does to the other nodes.
spec fn others_stay(m: VfsModel, s: VfsModel, c: Handle) -> bool {
    &&& s.mounts == m.mounts
    &&& forall|h: Handle| h != c && m.tmpfs_nodes.has(h) ==> #[trigger] s.tmpfs_nodes.has(h)
    &&& forall|h: Handle|
        h != c && m.tmpfs_nodes.has(h) ==> alike(
            m.tmpfs_nodes.at(h),
            #[trigger] s.tmpfs_nodes.at(h),
        )
}

proof fn lemma_name_removed(m: VfsModel, d: Handle, i: int, now: u64)
    requires
        tmp_sound(m),
        m.tmpfs_nodes.has(d),
        0 <= i < m.tmpfs_nodes.at(d).children.len(),
    ensures
        tmp_sound(m.name_removed(d, i, now)),
        others_stay(m, m.name_removed(d, i, now), m.tmp_child_at(d, i)),
{
    let c = m.tmp_child_at(d, i);
    assert(names_in_order(m, d));
    assert(m.tmpfs_nodes.at(d).children[i].child == c);
    assert(m.tmpfs_nodes.has(c) && c != d);
    assert(node_tied(m, c) && names_counted(m, c));
    let (b, named) = m.name_unlinked(d, i, now);
    assert(m.tmp_kind(c) == m.tmpfs_nodes.at(c).kind);
    lemma_names_taken_count(m, c, d, i);
    assert(nodes_stay(m, b, d, c));
    lemma_entry_taken(m, b, d, i, c);
    assert(others_stay(m, b, c));
    if !named {
        assert(b.tmpfs_nodes.at(c).vnode == m.tmpfs_nodes.at(c).vnode);
        let v = b.tmpfs_nodes.at(c).vnode;
        lemma_reclaim_keeps_sound(b, v, c);
        let s = b.reclaimed(v);
        assert forall|h: Handle| h != c && m.tmpfs_nodes.has(h) implies #[trigger] s.tmpfs_nodes.has(
            h,
        ) by {
            assert(b.tmpfs_nodes.has(h));
        }
        assert forall|h: Handle| h != c && m.tmpfs_nodes.has(h) implies alike(
            m.tmpfs_nodes.at(h),
            #[trigger] s.tmpfs_nodes.at(h),
        ) by {
            assert(b.tmpfs_nodes.has(h));
            assert(alike(m.tmpfs_nodes.at(h), b.tmpfs_nodes.at(h)));
        }
    }
}

/// A node that has a name counts it.
proof fn lemma_names_taken_count(m: VfsModel, c: Handle, d: Handle, i: int)
    requires
        m.tmpfs_nodes.has(d),
        0 <= i < m.tmpfs_nodes.at(d).children.len(),
        m.tmpfs_nodes.at(d).children[i].child == c,
        names_counted(m, c),
    ensures
        names_allowed(m.tmpfs_nodes.at(c)) >= 1,
{
    let es = m.tmpfs_nodes.at(d).children;
    assert(es[i] == EntryView { child: c, name: es[i].name });
    assert(es.contains(es[i]));
    assert(names_of(m, c).contains((d, es[i].name)));
    if names_of(m, c).len() == 0 {
        names_of(m, c).lemma_len0_is_empty();
    }
}

/// Taking a name out of a directory leaves the filesystem in order.
pub proof fn law_removing_keeps_sound(
    m: VfsModel,
    parent: Handle,
    name: Seq<u8>,
    want_dir: bool,
    now: u64,
)
    requires
        tmp_sound(m),
        m.removal_refused(parent, name, want_dir) is None,
    ensures
        tmp_sound(m.child_removed(parent, name, now)),
{
    let d = m.tmp_node_of(parent)->0;
    let fold = m.folds(m.mount_of(parent));
    lemma_child_pos(m.tmpfs_nodes.at(d).children, name, fold, 0);
    lemma_name_removed(m, d, m.tmp_pos(d, name, fold)->0, now);
}

// ---- what follows ------------------------------------------------------------------

/// What the laws on names ask of the nodes.
pub proof fn lemma_sound_parts(m: VfsModel)
    requires
        tmp_sound(m),
    ensures
        nodes_tied(m),
        links_sound(m),
{
    assert forall|h: Handle| #[trigger]
        m.tmpfs_nodes.has(h) && m.vnodes.has(m.tmpfs_nodes.at(h).vnode) implies m.tmp_node_of(
        m.tmpfs_nodes.at(h).vnode,
    ) == Some(h) by {
        assert(node_tied(m, h));
        let v = m.tmpfs_nodes.at(h).vnode;
        assert(m.vnodes.live.contains_key(v) && m.tmpfs_nodes.live.contains_key(h));
    }
    assert forall|a: Handle, i: int, b: Handle, j: int|
        #![trigger m.tmpfs_nodes.at(a).children[i], m.tmpfs_nodes.at(b).children[j]]
        m.tmpfs_nodes.has(a) && m.tmpfs_nodes.has(b) && 0 <= i < m.tmpfs_nodes.at(a).children.len()
            && 0 <= j < m.tmpfs_nodes.at(b).children.len() && !(a == b && i == j)
            && m.tmpfs_nodes.at(a).children[i].child == m.tmpfs_nodes.at(b).children[j].child
            && m.tmpfs_nodes.has(m.tmpfs_nodes.at(a).children[i].child) implies ({
        let n = m.tmpfs_nodes.at(m.tmpfs_nodes.at(a).children[i].child);
        n.kind != VnodeType::Dir && n.nlink >= 2
    }) by {
        lemma_two_names(m, a, i, b, j);
    }
}

proof fn lemma_two_names(m: VfsModel, a: Handle, i: int, b: Handle, j: int)
    requires
        tmp_sound(m),
        m.tmpfs_nodes.has(a),
        m.tmpfs_nodes.has(b),
        0 <= i < m.tmpfs_nodes.at(a).children.len(),
        0 <= j < m.tmpfs_nodes.at(b).children.len(),
        !(a == b && i == j),
        m.tmpfs_nodes.at(a).children[i].child == m.tmpfs_nodes.at(b).children[j].child,
    ensures
        ({
            let n = m.tmpfs_nodes.at(m.tmpfs_nodes.at(a).children[i].child);
            n.kind != VnodeType::Dir && n.nlink >= 2
        }),
{
    let x = m.tmpfs_nodes.at(a).children;
    let y = m.tmpfs_nodes.at(b).children;
    let c = x[i].child;
    assert(names_in_order(m, a) && names_in_order(m, b));
    assert(m.tmpfs_nodes.has(c) && names_counted(m, c));
    assert(x.contains(x[i]) && y.contains(y[j]));
    assert(x[i] == EntryView { child: c, name: x[i].name });
    assert(y[j] == EntryView { child: c, name: y[j].name });
    let p = (a, x[i].name);
    let q = (b, y[j].name);
    assert(p != q) by {
        if a == b {
            let fold = m.folds(m.tmpfs_nodes.at(a).owner_mount);
            law_same_name_is_equivalence(x[i].name, x[i].name, x[i].name, fold);
            assert(i < j ==> !same_name(x[i].name, x[j].name, fold));
            assert(j < i ==> !same_name(x[j].name, x[i].name, fold));
        }
    }
    let all = names_of(m, c);
    assert(all.contains(p) && all.contains(q));
    assert(all.remove(p).contains(q));
    assert(all.remove(p).finite() && all.remove(p).len() + 1 == all.len());
    if all.remove(p).len() == 0 {
        all.remove(p).lemma_len0_is_empty();
    }
}

/// What the laws on names ask of a directory.
pub proof fn lemma_sound_dir(m: VfsModel, parent: Handle)
    requires
        tmp_sound(m),
        m.tmp_node_of(parent) is Some,
        m.tmpfs_nodes.at(m.tmp_node_of(parent)->0).kind == VnodeType::Dir || m.tmpfs_nodes.at(
            m.tmp_node_of(parent)->0,
        ).children.len() > 0,
    ensures
        dir_sound(m, m.tmp_node_of(parent)->0, m.folds(m.mount_of(parent))),
{
    let d = m.tmp_node_of(parent)->0;
    let es = m.tmpfs_nodes.at(d).children;
    assert(node_tied(m, d) && names_in_order(m, d));
    assert(parent.is_valid()) by {
        assert(m.vnodes.live.contains_key(parent));
    }
    assert forall|i: int| 0 <= i < es.len() implies {
        &&& (#[trigger] es[i]).child != d
        &&& m.tmpfs_nodes.has(es[i].child) ==> m.tmpfs_nodes.at(es[i].child).vnode
            != m.tmpfs_nodes.at(d).vnode
    } by {
        assert(m.tmpfs_nodes.has(es[i].child));
        assert(node_tied(m, es[i].child));
    }
}

// ---- renaming ----------------------------------------------------------------------

/// Moving a name from one directory to another leaves the filesystem in order.
proof fn lemma_entry_moved(s: VfsModel, from: Handle, k: int, to: Handle, name: Seq<u8>, now: u64)
    requires
        tmp_sound(s),
        s.tmpfs_nodes.has(from),
        s.tmpfs_nodes.has(to),
        s.tmpfs_nodes.at(to).kind == VnodeType::Dir,
        s.tmpfs_nodes.at(to).owner_mount == s.tmpfs_nodes.at(from).owner_mount,
        0 <= k < s.tmpfs_nodes.at(from).children.len(),
        s.tmp_child_at(from, k) != to,
        child_pos(
            s.tmpfs_nodes.at(to).children,
            name,
            s.folds(s.tmpfs_nodes.at(to).owner_mount),
            0,
        ) is None,
    ensures
        tmp_sound(s.entry_moved(from, k, to, name, now)),
{
    let c = s.tmp_child_at(from, k);
    let f = s.tmpfs_nodes.at(from);
    let fold = s.folds(f.owner_mount);
    assert(names_in_order(s, from));
    assert(f.children[k].child == c);
    assert(s.tmpfs_nodes.has(c) && c != from && names_counted(s, c));
    let a = s.with_tmp_node(from, TmpNodeView { children: f.children.remove(k), ..f });
    assert(nodes_stay(s, a, from, c));
    lemma_entry_taken(s, a, from, k, c);
    assert(names_of(a, c).len() + 1 == names_of(s, c).len());
    let es = a.tmpfs_nodes.at(to).children;
    lemma_child_pos(s.tmpfs_nodes.at(to).children, name, fold, 0);
    lemma_child_pos(es, name, fold, 0);
    if from == to {
        if let Some(x) = child_pos(es, name, fold, 0) {
            let back = if x < k {
                x
            } else {
                x + 1
            };
            assert(es[x] == f.children[back]);
        }
    }
    let t = s.entry_moved(from, k, to, name, now);
    assert(nodes_stay(a, t, to, c)) by {
        lemma_moved_stay(s, from, k, to, name, now);
    }
    lemma_move_frame(s, from, k, to, name, now);
    lemma_entry_added(a, t, to, c, name);
}

proof fn lemma_moved_stay(s: VfsModel, from: Handle, k: int, to: Handle, name: Seq<u8>, now: u64)
    requires
        tables_wf(s),
        s.tmpfs_nodes.has(from),
        s.tmpfs_nodes.has(to),
        s.tmpfs_nodes.at(from).kind == VnodeType::Dir,
        s.tmpfs_nodes.at(to).kind == VnodeType::Dir,
        s.tmpfs_nodes.has(s.tmp_child_at(from, k)),
        s.tmp_child_at(from, k) != to,
        s.tmp_child_at(from, k) != from,
    ensures
        ({
            let c = s.tmp_child_at(from, k);
            let f = s.tmpfs_nodes.at(from);
            let a = s.with_tmp_node(from, TmpNodeView { children: f.children.remove(k), ..f });
            nodes_stay(a, s.entry_moved(from, k, to, name, now), to, c)
        }),
        names_allowed(s.entry_moved(from, k, to, name, now).tmpfs_nodes.at(s.tmp_child_at(from, k)))
            == names_allowed(s.tmpfs_nodes.at(s.tmp_child_at(from, k))),
{
    let c = s.tmp_child_at(from, k);
    let f = s.tmpfs_nodes.at(from);
    let a = s.with_tmp_node(from, TmpNodeView { children: f.children.remove(k), ..f });
    let t = s.entry_moved(from, k, to, name, now);
    assert(t.vnodes == a.vnodes && t.mounts == a.mounts && t.tmpfs_mounts == a.tmpfs_mounts
        && t.tmpfs_symlinks == a.tmpfs_symlinks && t.proc_nodes == a.proc_nodes && t.sysctl_leaves
        == a.sysctl_leaves);
    assert(t.tmpfs_nodes.epochs == s.tmpfs_nodes.epochs && t.tmpfs_nodes.limit
        == s.tmpfs_nodes.limit);
    assert(t.tmpfs_nodes.live.dom() =~= s.tmpfs_nodes.live.dom());
    assert forall|h: Handle| #[trigger] t.tmpfs_nodes.has(h) == a.tmpfs_nodes.has(h) by {
        assert(t.tmpfs_nodes.live.dom().contains(h) == s.tmpfs_nodes.live.dom().contains(h));
    }
    assert forall|h: Handle| #[trigger] t.tmpfs_nodes.live.contains_key(h) implies h.slot
        < t.tmpfs_nodes.epochs.len() && t.tmpfs_nodes.epochs[h.slot as int] == h.epoch by {
        assert(s.tmpfs_nodes.live.contains_key(h));
    }
}

/// A rename leaves the filesystem in order, unless it puts a directory into itself.
pub proof fn law_renaming_keeps_sound(
    m: VfsModel,
    old_parent: Handle,
    old_name: Seq<u8>,
    new_parent: Handle,
    new_name: Seq<u8>,
    now: u64,
)
    requires
        tmp_sound(m),
        m.rename_refused(old_parent, old_name, new_parent, new_name) is None,
        !m.rename_is_idle(old_parent, old_name, new_parent, new_name),
        m.tmpfs_nodes.at(m.tmp_node_of(new_parent)->0).kind == VnodeType::Dir,
        found_in(m, old_parent, old_name) != Some(new_parent),
    ensures
        ({
            let from = m.tmp_node_of(old_parent)->0;
            let to = m.tmp_node_of(new_parent)->0;
            let s = m.way_cleared(old_parent, new_parent, new_name, now);
            let k = s.tmp_pos(from, old_name, m.folds(m.mount_of(old_parent)));
            tmp_sound(s.entry_moved(from, k->0, to, new_name, now))
        }),
{
    let fold = m.folds(m.mount_of(old_parent));
    let from = m.tmp_node_of(old_parent)->0;
    let to = m.tmp_node_of(new_parent)->0;
    let s = m.way_cleared(old_parent, new_parent, new_name, now);
    let i = m.tmp_pos(from, old_name, fold)->0;
    let moved = m.tmp_child_at(from, i);
    lemma_child_pos(m.tmpfs_nodes.at(from).children, old_name, fold, 0);
    lemma_child_pos(m.tmpfs_nodes.at(to).children, new_name, fold, 0);
    assert(node_tied(m, from) && node_tied(m, to) && names_in_order(m, from));
    assert(m.tmpfs_nodes.at(from).children[i].child == moved);
    assert(m.tmpfs_nodes.has(moved));
    assert(moved != to);
    lemma_sound_parts(m);
    lemma_sound_dir(m, old_parent);
    lemma_sound_dir(m, new_parent);
    lemma_way_cleared(m, old_parent, old_name, new_parent, new_name, now);
    lemma_new_name_free(m, old_parent, old_name, new_parent, new_name, now);
    if let Some(j) = m.tmp_pos(to, new_name, fold) {
        assert(names_in_order(m, to));
        assert(m.tmpfs_nodes.at(to).children[j].child == m.tmp_child_at(to, j));
        lemma_name_removed(m, to, j, now);
        assert(m.tmp_child_at(to, j) != to);
        assert(alike(m.tmpfs_nodes.at(to), s.tmpfs_nodes.at(to)));
    }
    assert(tmp_sound(s));
    assert(node_tied(s, from) && node_tied(s, to));
    let k = s.tmp_pos(from, old_name, fold)->0;
    lemma_child_pos(s.tmpfs_nodes.at(from).children, old_name, fold, 0);
    assert(s.tmp_child_at(from, k) == moved);
    lemma_entry_moved(s, from, k, to, new_name, now);
}

// ---- reclaiming --------------------------------------------------------------------

/// Reclaiming a vnode, of this filesystem or another, leaves the filesystem in order.
pub proof fn law_reclaiming_keeps_sound(m: VfsModel, v: Handle)
    requires
        tmp_sound(m),
    ensures
        tmp_sound(m.reclaimed(v)),
{
    let c = m.vnodes.at(v).backend_ref;
    if !m.reclaimable(v) {
        reveal(VfsModel::reclaimed);
    } else if m.tmpfs_nodes.has(c) && m.tmpfs_nodes.at(c).vnode == v {
        assert(v.is_valid()) by {
            assert(m.vnodes.live.contains_key(v));
        }
        assert(node_tied(m, c) && names_counted(m, c));
        assert(m.proc_node_of(v) is None) by {
            assert(m.proc_nodes.has(c) ==> m.proc_nodes.at(c).vnode != v);
        }
        assert(m.vnodes.at(v).nlink == 0);
        lemma_reclaim_keeps_sound(m, v, c);
    } else {
        lemma_reclaimed_elsewhere(m, v);
    }
}

/// Reclaiming the vnode of no node of this filesystem.
proof fn lemma_reclaimed_elsewhere(m: VfsModel, v: Handle)
    requires
        tmp_sound(m),
        m.reclaimable(v),
        m.tmp_node_of(v) is None,
    ensures
        tmp_sound(m.reclaimed(v)),
{
    reveal(VfsModel::reclaimed);
    let s = m.reclaimed(v);
    assert(v.is_valid()) by {
        assert(m.vnodes.live.contains_key(v));
    }
    let a = m.fifo_let_go(v).proc_node_released(v);
    let b = a.sysctl_leaf_released(v);
    assert(a.sysctl_leaves == m.sysctl_leaves);
    assert(b.tmpfs_nodes == m.tmpfs_nodes && b.tmpfs_mounts == m.tmpfs_mounts && b.tmpfs_symlinks
        == m.tmpfs_symlinks && b.mounts == m.mounts);
    assert(a.vnodes.wf() && b.vnodes.wf());
    assert(b.tmp_node_of(v) is None);
    assert(m.backends_let_go(v) == b);
    assert(s.vnodes == b.vnodes.dropped(v));
    lemma_lost(b.vnodes, v);
    assert forall|w: Handle| w != v implies #[trigger] s.vnodes.has(w) == m.vnodes.has(w) by {
        assert(b.vnodes.has(w) == m.vnodes.has(w));
    }
    assert forall|w: Handle| w != v && m.vnodes.has(w) implies #[trigger] s.vnodes.at(w)
        == m.vnodes.at(w) by {
        assert(b.vnodes.at(w) == m.vnodes.at(w));
        assert(s.vnodes.has(w));
    }
    assert forall|h: Handle| #[trigger] s.tmpfs_nodes.has(h) implies node_tied(s, h)
        && names_in_order(s, h) && names_counted(s, h) by {
        assert(node_tied(m, h) && names_in_order(m, h) && names_counted(m, h));
        assert(names_of(s, h) =~= names_of(m, h));
        let w = m.tmpfs_nodes.at(h).vnode;
        assert(h.is_valid()) by {
            assert(m.tmpfs_nodes.live.contains_key(h));
        }
        assert(w.is_valid() ==> w != v && m.vnodes.has(w));
        assert(w.is_valid() ==> s.vnodes.has(w) && s.vnodes.at(w) == m.vnodes.at(w));
    }
    let r = m.vnodes.at(v).backend_ref;
    assert forall|p: Handle| #[trigger]
        s.proc_nodes.has(p) && s.proc_nodes.at(p).vnode.is_valid() implies vnode_elsewhere(
        s,
        s.proc_nodes.at(p).vnode,
        p,
    ) by {
        assert(m.proc_nodes.has(p) && s.proc_nodes.at(p) == m.proc_nodes.at(p));
        let w = m.proc_nodes.at(p).vnode;
        assert(w != v);
        assert(s.vnodes.has(w) && s.vnodes.at(w) == m.vnodes.at(w));
    }
    assert forall|p: Handle| #[trigger]
        s.sysctl_leaves.has(p) && s.sysctl_leaves.at(p).vnode.is_valid() implies vnode_elsewhere(
        s,
        s.sysctl_leaves.at(p).vnode,
        p,
    ) by {
        assert(m.sysctl_leaves.has(p) && s.sysctl_leaves.at(p) == m.sysctl_leaves.at(p));
        let w = m.sysctl_leaves.at(p).vnode;
        assert(w != v) by {
            if w == v {
                assert(vnode_elsewhere(m, v, p));
                assert(r == p);
                assert(!(m.proc_nodes.has(r) && m.proc_nodes.at(r).vnode == v));
                assert(a.vnodes == m.vnodes);
            }
        }
        assert(s.vnodes.has(w) && s.vnodes.at(w) == m.vnodes.at(w));
    }
    assert forall|p: Handle, q: Handle|
        #![trigger s.proc_nodes.has(p), s.sysctl_leaves.has(q)]
        s.proc_nodes.has(p) && s.sysctl_leaves.has(q) && s.proc_nodes.at(
            p,
        ).vnode.is_valid() implies s.proc_nodes.at(p).vnode != s.sysctl_leaves.at(q).vnode by {
        assert(m.proc_nodes.has(p) && m.sysctl_leaves.has(q));
    }
}

// ---- contents ----------------------------------------------------------------------

/// The storage of a node may grow.
proof fn lemma_grown_stays(m: VfsModel, h: Handle, needed: u64, outcome: MoOutcome)
    requires
        tmp_sound(m),
    ensures
        tmp_sound(m.grown_for(h, needed, outcome)),
        m.grown_for(h, needed, outcome).vnodes == m.vnodes,
{
    let g = m.grown_for(h, needed, outcome);
    assert(nodes_stay(m, g, Handle::invalid(), Handle::invalid()));
    lemma_all_stays(m, g);
}

/// What a node holds may change, and so may what its vnode says of it.
proof fn lemma_refilled(m: VfsModel, h: Handle, n: TmpNodeView, v: Handle, vn: Vnode)
    requires
        tmp_sound(m),
        alike(m.tmpfs_nodes.at(h), n),
        n.children == m.tmpfs_nodes.at(h).children,
        n.nlink == m.tmpfs_nodes.at(h).nlink,
        vn.backend == m.vnodes.at(v).backend,
        vn.backend_ref == m.vnodes.at(v).backend_ref,
        vn.mount == m.vnodes.at(v).mount,
        vn.nlink == m.vnodes.at(v).nlink,
    ensures
        tmp_sound(m.with_tmp_node(h, n).with_vnode(v, vn)),
{
    let s = m.with_tmp_node(h, n).with_vnode(v, vn);
    assert(nodes_stay(m, s, Handle::invalid(), Handle::invalid()));
    lemma_all_stays(m, s);
}

/// Writing to a file, or failing to, leaves the filesystem in order.
pub proof fn law_writing_keeps_sound(
    m: VfsModel,
    v: Handle,
    off: u64,
    data: Seq<u8>,
    outcome: MoOutcome,
    now: u64,
)
    requires
        tmp_sound(m),
    ensures
        tmp_sound(m.written(v, off, data, outcome, now)),
{
    if let Some(h) = m.tmp_node_of(v) {
        if off + data.len() <= u64::MAX {
            let end = (off + data.len()) as u64;
            lemma_grown_stays(m, h, end, outcome);
            let g = m.grown_for(h, end, outcome);
            let n = g.tmpfs_nodes.at(h);
            let size = if end > n.size {
                end
            } else {
                n.size
            };
            lemma_refilled(
                g,
                h,
                TmpNodeView {
                    content: overwritten(n.content, off as int, data),
                    size,
                    mtime_ns: now,
                    ctime_ns: now,
                    ..n
                },
                v,
                Vnode { size, mtime_ns: now, ..g.vnodes.at(v) },
            );
        }
    }
}

/// Giving a file another size, or failing to, leaves the filesystem in order.
pub proof fn law_truncating_keeps_sound(
    m: VfsModel,
    v: Handle,
    size: u64,
    outcome: MoOutcome,
    now: u64,
)
    requires
        tmp_sound(m),
    ensures
        tmp_sound(m.truncated(v, size, outcome, now)),
{
    if let Some(h) = m.tmp_node_of(v) {
        if size == 0 {
            let g = m.storage_released(h);
            assert(nodes_stay(m, g, Handle::invalid(), Handle::invalid()));
            lemma_all_stays(m, g);
            lemma_refilled(
                g,
                h,
                TmpNodeView { mtime_ns: now, ctime_ns: now, ..g.tmpfs_nodes.at(h) },
                v,
                Vnode { size: 0, mtime_ns: now, ..g.vnodes.at(v) },
            );
        } else {
            lemma_grown_stays(m, h, size, outcome);
            let g = m.grown_for(h, size, outcome);
            let n = g.tmpfs_nodes.at(h);
            let end = if size <= n.mo_capacity {
                size
            } else {
                n.mo_capacity
            };
            lemma_refilled(
                g,
                h,
                TmpNodeView {
                    content: if size > n.size && n.mo_capacity != 0 {
                        zeroed_between(n.content, n.size as int, end as int)
                    } else {
                        n.content
                    },
                    size,
                    mtime_ns: now,
                    ctime_ns: now,
                    ..n
                },
                v,
                Vnode { size, mtime_ns: now, ..g.vnodes.at(v) },
            );
        }
    }
}

/// Giving a mapping of a file back leaves the filesystem in order, also where the storage goes
/// with it.
pub proof fn law_unmapping_keeps_sound(m: VfsModel, fs_id: u64, ino: u64)
    requires
        tmp_sound(m),
    ensures
        tmp_sound(m.export_released(fs_id, ino).0),
{
    let s = m.export_released(fs_id, ino).0;
    if let Some(h) = m.tmp_node_of_inode(fs_id, ino) {
        let none = Handle::invalid();
        let n = m.tmpfs_nodes.at(h);
        let a = m.with_tmp_node(
            h,
            TmpNodeView { mmap_export_refs: (n.mmap_export_refs - 1) as u32, ..n },
        );
        m.tmpfs_nodes.lemma_scan(inode_is(m.mounts, fs_id, ino), 0);
        assert(nodes_stay(m, a, none, none));
        lemma_all_stays(m, a);
        if n.mmap_export_refs == 1 && n.pending_release {
            assert(m.tmpfs_nodes.has(h) && node_tied(m, h));
            assert(a.tmpfs_nodes.has(h) && names_counted(a, h));
            let b = a.storage_released(h);
            assert(rest_stays(a, b) && b.vnodes == a.vnodes && b.tmpfs_symlinks
                == a.tmpfs_symlinks);
            assert(b.tmpfs_nodes.wf() && b.tmpfs_mounts.wf());
            lemma_lost(b.tmpfs_nodes, h);
            lemma_lost(a.tmpfs_symlinks, n.symlink);
            let d = a.tmp_node_dropped(h);
            assert(d.tmpfs_nodes == b.tmpfs_nodes.dropped(h));
            assert(rest_stays(a, d) && tables_wf(d));
            assert(rest_stays(a, s) && tables_wf(s));
            lemma_node_gone(a, s, h);
        }
    }
}

// ---- mounting ----------------------------------------------------------------------

/// More mounts, with records of their own, change nothing for the nodes there are.
proof fn lemma_mounts_added(m: VfsModel, s: VfsModel)
    requires
        tmp_sound(m),
        tables_wf(s),
        s.tmpfs_nodes == m.tmpfs_nodes,
        s.tmpfs_symlinks == m.tmpfs_symlinks,
        s.proc_nodes == m.proc_nodes,
        s.sysctl_leaves == m.sysctl_leaves,
        forall|v: Handle| #[trigger]
            m.vnodes.has(v) ==> vnode_stays(m, s, v) && s.vnodes.at(v).nlink == m.vnodes.at(v).nlink,
        forall|o: Handle| #[trigger]
            m.mounts.has(o) ==> s.mounts.has(o) && s.mounts.at(o) == m.mounts.at(o),
        records_held(s),
    ensures
        tmp_sound(s),
{
    assert forall|h: Handle| #[trigger] s.tmpfs_nodes.has(h) implies node_tied(s, h)
        && names_in_order(s, h) && names_counted(s, h) by {
        assert(node_tied(m, h) && names_in_order(m, h) && names_counted(m, h));
        let n = m.tmpfs_nodes.at(h);
        if n.vnode.is_valid() {
            assert(m.vnodes.has(n.vnode));
            assert(vnode_stays(m, s, n.vnode));
        }
        assert(names_of(s, h) =~= names_of(m, h));
    }
    assert forall|v: Handle| #[trigger] m.vnodes.has(v) && !m.on_tmpfs(v) implies s.vnodes.has(v)
        && !s.on_tmpfs(v) && s.vnodes.at(v).backend_ref == m.vnodes.at(v).backend_ref by {
        assert(vnode_stays(m, s, v));
    }
}

/// Mounting an in-memory filesystem, or failing to, leaves all of them in order.
pub proof fn law_mounting_keeps_sound(
    m: VfsModel,
    path: Seq<u8>,
    flags: u32,
    opts: Seq<u8>,
    now: u64,
)
    requires
        tmp_sound(m),
    ensures
        tmp_sound(m.tmpfs_made(path, flags, opts, now).0),
{
    let s = m.tmpfs_made(path, flags, opts, now).0;
    if m.vnodes.next() is Some {
        let rv = m.vnodes.next()->0;
        lemma_fresh(m.vnodes, Vnode::zeroed());
        if m.mounts.next() is None {
            lemma_mounts_added(m, s);
        } else {
            let mh = m.mounts.next()->0;
            lemma_fresh(m.mounts, MountView::blank());
            if m.tmpfs_mounts.next() is None {
                lemma_mounts_added(m, s);
            } else if m.tmpfs_nodes.next() is None {
                lemma_fresh(m.tmpfs_mounts, unused_tmp_record());
                lemma_record_added(m, s, unused_tmp_record());
                lemma_mounts_added(m, s);
            } else {
                let nh = m.tmpfs_nodes.next()->0;
                let d = s.tmpfs_mounts.at(m.tmpfs_mounts.next()->0);
                let node = VfsModel::tmp_root_node(mh, rv, now);
                lemma_fresh(m.tmpfs_mounts, d);
                lemma_fresh(m.tmpfs_nodes, node);
                let a = VfsModel { tmpfs_nodes: m.tmpfs_nodes, ..s };
                assert(s.tmpfs_mounts == m.tmpfs_mounts.grown(d));
                assert(s.tmpfs_nodes == m.tmpfs_nodes.grown(node));
                assert(a.vnodes.wf() && a.mounts.wf());
                lemma_record_added(m, a, d);
                lemma_mounts_added(m, a);
                assert(node_tied(s, nh));
                lemma_node_added(a, s, nh);
            }
        }
    }
}

/// One more record, for a mount that was not there or for none.
proof fn lemma_record_added(m: VfsModel, s: VfsModel, d: TmpfsMountData)
    requires
        records_held(m),
        m.tmpfs_mounts.wf(),
        m.tmpfs_mounts.next() is Some,
        s.tmpfs_mounts == m.tmpfs_mounts.grown(d),
        forall|o: Handle| #[trigger] m.mounts.has(o) ==> s.mounts.has(o),
        d.owner_mount.is_valid() ==> s.mounts.has(d.owner_mount) && !m.mounts.has(d.owner_mount),
    ensures
        records_held(s),
{
    lemma_fresh(m.tmpfs_mounts, d);
    let x = m.tmpfs_mounts.next()->0;
    assert forall|a: Handle| #[trigger]
        s.tmpfs_mounts.has(a) && s.tmpfs_mounts.at(a).owner_mount.is_valid() implies s.mounts.has(
        s.tmpfs_mounts.at(a).owner_mount,
    ) by {
        assert(a != x ==> m.tmpfs_mounts.has(a));
    }
    assert forall|a: Handle, b: Handle|
        #![trigger s.tmpfs_mounts.has(a), s.tmpfs_mounts.has(b)]
        s.tmpfs_mounts.has(a) && s.tmpfs_mounts.has(b) && s.tmpfs_mounts.at(
            a,
        ).owner_mount.is_valid() && s.tmpfs_mounts.at(a).owner_mount == s.tmpfs_mounts.at(
            b,
        ).owner_mount implies a == b by {
        assert(a != x ==> m.tmpfs_mounts.has(a));
        assert(b != x ==> m.tmpfs_mounts.has(b));
    }
}

// ---- unmounting --------------------------------------------------------------------

/// Unmounting an in-memory filesystem leaves the others in order.
pub proof fn law_unmounting_keeps_sound(m: VfsModel, mount: Handle)
    requires
        tmp_sound(m),
        mount.is_valid(),
    ensures
        tmp_sound(m.tmp_unmounted(mount)),
{
    let s = m.tmp_unmounted(mount);
    law_unmounted_leaves_nothing(m, mount);
    lemma_unmounted_tables(m, mount);
    lemma_nodes_filtered(m, s, mount);
    assert forall|a: Handle, b: Handle|
        #![trigger s.tmpfs_mounts.has(a), s.tmpfs_mounts.has(b)]
        s.tmpfs_mounts.has(a) && s.tmpfs_mounts.has(b) && s.tmpfs_mounts.at(
            a,
        ).owner_mount.is_valid() && s.tmpfs_mounts.at(a).owner_mount == s.tmpfs_mounts.at(
            b,
        ).owner_mount implies a == b by {
        assert(s.tmpfs_mounts.entry(a) is Some && s.tmpfs_mounts.entry(b) is Some);
        assert(m.tmpfs_mounts.has(a) && m.tmpfs_mounts.has(b));
    }
    assert forall|a: Handle| #[trigger]
        s.tmpfs_mounts.has(a) && s.tmpfs_mounts.at(a).owner_mount.is_valid() implies s.mounts.has(
        s.tmpfs_mounts.at(a).owner_mount,
    ) by {
        assert(s.tmpfs_mounts.entry(a) is Some);
        assert(m.tmpfs_mounts.has(a));
    }
    assert(others_apart(s));
}

/// The nodes of the other mounts, without those of one mount, are in order.
proof fn lemma_nodes_filtered(m: VfsModel, s: VfsModel, mount: Handle)
    requires
        tmp_sound(m),
        s.mounts == m.mounts,
        s.vnodes == m.vnodes,
        forall|h: Handle| #[trigger]
            s.tmpfs_nodes.entry(h) == if m.tmpfs_nodes.has(h) && m.tmpfs_nodes.at(h).owner_mount
                != mount {
                Some(m.tmpfs_nodes.at(h))
            } else {
                None
            },
        forall|h: Handle| #[trigger]
            s.tmpfs_nodes.has(h) && m.tmpfs_nodes.at(h).symlink.is_valid()
                ==> s.tmpfs_symlinks.entry(m.tmpfs_nodes.at(h).symlink) == m.tmpfs_symlinks.entry(
                m.tmpfs_nodes.at(h).symlink,
            ),
    ensures
        forall|h: Handle| #[trigger]
            s.tmpfs_nodes.has(h) ==> node_tied(s, h) && names_in_order(s, h) && names_counted(s, h),
        targets_held(s),
{
    assert forall|h: Handle| #[trigger] s.tmpfs_nodes.has(h) implies m.tmpfs_nodes.has(h)
        && s.tmpfs_nodes.at(h) == m.tmpfs_nodes.at(h) && m.tmpfs_nodes.at(h).owner_mount
        != mount by {
        assert(s.tmpfs_nodes.entry(h) is Some);
    }
    assert forall|h: Handle| #[trigger] s.tmpfs_nodes.has(h) implies node_tied(s, h)
        && names_in_order(s, h) && names_counted(s, h) by {
        assert(node_tied(m, h) && names_in_order(m, h) && names_counted(m, h));
        let n = m.tmpfs_nodes.at(h);
        assert forall|i: int| 0 <= i < n.children.len() implies {
            let x = (#[trigger] n.children[i]).child;
            s.tmpfs_nodes.has(x) && x != h && s.tmpfs_nodes.at(x).owner_mount == n.owner_mount
        } by {
            let x = n.children[i].child;
            assert(m.tmpfs_nodes.has(x));
            assert(s.tmpfs_nodes.entry(x) is Some);
        }
        assert forall|p: (Handle, Seq<u8>)| #[trigger] names_of(s, h).contains(p) implies names_of(
            m,
            h,
        ).contains(p) by {
            assert(s.tmpfs_nodes.has(p.0));
        }
        vstd::set_lib::lemma_len_subset(names_of(s, h), names_of(m, h));
    }
    assert forall|h: Handle| #[trigger]
        s.tmpfs_nodes.has(h) && s.tmpfs_nodes.at(h).symlink.is_valid() implies s.tmpfs_symlinks.has(
        s.tmpfs_nodes.at(h).symlink,
    ) == m.tmpfs_symlinks.has(s.tmpfs_nodes.at(h).symlink) by {
        let t = m.tmpfs_nodes.at(h).symlink;
        assert(s.tmpfs_symlinks.entry(t) == m.tmpfs_symlinks.entry(t));
    }
    lemma_targets_stay(m, s);
}

proof fn lemma_unmounted_tables(m: VfsModel, mount: Handle)
    requires
        tables_wf(m),
    ensures
        tables_wf(m.tmp_unmounted(mount)),
        m.tmp_unmounted(mount).proc_nodes == m.proc_nodes,
        m.tmp_unmounted(mount).sysctl_leaves == m.sysctl_leaves,
{
    let s = m.tmp_swept(mount, 0);
    lemma_swept_tables(m, mount, 0);
    if let Some(h) = s.tmp_data(mount) {
        lemma_lost(s.tmpfs_mounts, h);
    }
}

proof fn lemma_swept_tables(m: VfsModel, mount: Handle, i: int)
    requires
        tables_wf(m),
        0 <= i,
    ensures
        tables_wf(m.tmp_swept(mount, i)),
        m.tmp_swept(mount, i).proc_nodes == m.proc_nodes,
        m.tmp_swept(mount, i).sysctl_leaves == m.sysctl_leaves,
    decreases m.tmpfs_nodes.epochs.len() - i,
{
    if i < m.tmpfs_nodes.epochs.len() {
        let x = m.tmpfs_nodes.handle_at(i);
        if m.tmpfs_nodes.has(x) && m.tmpfs_nodes.at(x).owner_mount == mount {
            let n = m.tmpfs_nodes.at(x);
            let a = m.storage_released(x);
            assert(a.tmpfs_nodes.wf() && a.tmpfs_mounts.wf());
            lemma_lost(a.tmpfs_nodes, x);
            lemma_lost(m.tmpfs_symlinks, n.symlink);
            let next = VfsModel {
                tmpfs_entries: entries_left(m.tmpfs_entries, n.children.len()),
                ..m.tmp_node_dropped(x)
            };
            assert(next.tmpfs_nodes == a.tmpfs_nodes.dropped(x));
            lemma_swept_tables(next, mount, i + 1);
        } else {
            lemma_swept_tables(m, mount, i + 1);
        }
    }
}

} // verus!
