//! What holds of the in-memory filesystem whatever is asked of it.

use crate::arena::Handle;
use crate::bytes::{law_same_name_is_equivalence, prefix, same_name};
use crate::fs::mounting::entries_left;
use crate::fs::records::{EntryView, TmpNodeView, TmpfsMountData};
use crate::fs::statfs::mapped_on;
use crate::fs::tmpfs::{capped_sum, inode_is, stated_opts};
use crate::fs::tmpfs_dir::{child_pos, lemma_child_pos};
use crate::fs::tmpfs_file::LISTED_NAME_MAX;
use crate::fs::tmpfs_sound::{lemma_sound_dir, lemma_sound_parts, tmp_sound};
use crate::lifecycle::law_reclaim_is_safe;
use crate::mount::MNT_RDONLY;
use crate::state::VfsModel;
use crate::vnode::VnodeType;
use crate::wire::SysMemInfo;
use vstd::prelude::*;

verus! {

// ---- names -------------------------------------------------------------------------

/// The vnode that `name` names in directory vnode `parent`, if any.
pub open spec fn found_in(m: VfsModel, parent: Handle, name: Seq<u8>) -> Option<Handle> {
    match m.tmp_looked_up(parent, name) {
        Ok(v) => v,
        Err(_) => None,
    }
}

/// No two names agree.
pub open spec fn names_differ(es: Seq<EntryView>, fold: bool) -> bool {
    forall|i: int, j: int|
        0 <= i < j < es.len() ==> !same_name((#[trigger] es[i]).name, (#[trigger] es[j]).name, fold)
}

/// Node `dir` is a directory, and holds no two names that agree, nor itself, nor another node
/// of its own vnode.
pub open spec fn dir_sound(m: VfsModel, dir: Handle, fold: bool) -> bool {
    let es = m.tmpfs_nodes.at(dir).children;
    &&& m.tmpfs_nodes.has(dir)
    &&& m.tmpfs_nodes.at(dir).kind == VnodeType::Dir
    &&& names_differ(es, fold)
    &&& forall|i: int|
        0 <= i < es.len() ==> {
            &&& (#[trigger] es[i]).child != dir
            &&& m.tmpfs_nodes.has(es[i].child) ==> m.tmpfs_nodes.at(es[i].child).vnode
                != m.tmpfs_nodes.at(dir).vnode
        }
}

/// The search through a directory whose newest name does not agree is one place later.
proof fn lemma_newest_passed(es: Seq<EntryView>, e: EntryView, name: Seq<u8>, fold: bool, i: int)
    requires
        0 <= i,
    ensures
        child_pos(es.insert(0, e), name, fold, i + 1) == match child_pos(es, name, fold, i) {
            Some(k) => Some(k + 1),
            None => None,
        },
    decreases es.len() - i,
{
    let big = es.insert(0, e);
    if i < es.len() {
        assert(big[i + 1] == es[i]);
        lemma_newest_passed(es, e, name, fold, i + 1);
    }
}

/// Where a name is taken away, others are found as before.
proof fn lemma_taken_away(es: Seq<EntryView>, at: int, name: Seq<u8>, fold: bool)
    requires
        0 <= at < es.len(),
        !same_name(es[at].name, name, fold),
    ensures
        child_pos(es.remove(at), name, fold, 0) == match child_pos(es, name, fold, 0) {
            Some(k) => Some(if k < at {
                k
            } else {
                k - 1
            }),
            None => None,
        },
{
    let less = es.remove(at);
    lemma_child_pos(es, name, fold, 0);
    lemma_child_pos(less, name, fold, 0);
    match child_pos(es, name, fold, 0) {
        Some(k) => {
            let q = if k < at {
                k
            } else {
                k - 1
            };
            assert(less[q] == es[k]);
            match child_pos(less, name, fold, 0) {
                Some(x) => {
                    let back = if x < at {
                        x
                    } else {
                        x + 1
                    };
                    assert(less[x] == es[back]);
                    if x < q {
                        assert(back < k);
                    }
                },
                None => {},
            }
        },
        None => {
            if let Some(x) = child_pos(less, name, fold, 0) {
                let back = if x < at {
                    x
                } else {
                    x + 1
                };
                assert(less[x] == es[back]);
            }
        },
    }
}

/// A node that was made is found under its name, and every other name still names what it
/// named. The directory stays in order.
pub proof fn law_made_node_is_found(
    m: VfsModel,
    parent: Handle,
    name: Seq<u8>,
    mode: u32,
    kind: VnodeType,
    now: u64,
    other: Seq<u8>,
)
    requires
        tmp_sound(m),
        m.child_outcome(parent, name) is Ok,
        m.tmpfs_nodes.at(m.tmp_node_of(parent)->0).kind == VnodeType::Dir,
    ensures
        ({
            let s = m.child_made(parent, name, mode, kind, now);
            let fold = m.folds(m.mount_of(parent));
            &&& found_in(s, parent, name) == Some(m.child_outcome(parent, name)->Ok_0)
            &&& !same_name(other, name, fold) && found_in(m, parent, other) is Some ==> found_in(
                s,
                parent,
                other,
            ) == found_in(m, parent, other)
            &&& names_differ(s.tmpfs_nodes.at(m.tmp_node_of(parent)->0).children, fold)
        }),
{
    lemma_sound_dir(m, parent);
    let fold = m.folds(m.mount_of(parent));
    let dir = m.tmp_node_of(parent)->0;
    let s = m.child_made(parent, name, mode, kind, now);
    let nh = m.tmpfs_nodes.next()->0;
    let vh = m.vnodes.next()->0;
    m.tmpfs_nodes.lemma_vacant(0);
    m.vnodes.lemma_vacant(0);
    law_same_name_is_equivalence(name, name, name, fold);
    law_same_name_is_equivalence(name, other, name, fold);
    let es = m.tmpfs_nodes.at(dir).children;
    let e = EntryView { child: nh, name };
    assert(s.tmpfs_nodes.at(dir).children == es.insert(0, e));
    assert(s.vnodes.entry(parent) == m.vnodes.entry(parent));
    assert(s.mounts == m.mounts);
    assert(es.insert(0, e)[0] == e);
    assert(child_pos(es.insert(0, e), name, fold, 0) == Some(0int));
    lemma_newest_passed(es, e, other, fold, 0);
    lemma_child_pos(es, name, fold, 0);
    lemma_child_pos(es, other, fold, 0);
    if let Some(k) = child_pos(es, other, fold, 0) {
        assert(es.insert(0, e)[k + 1] == es[k]);
    }
    assert forall|i: int, j: int| 0 <= i < j < es.insert(0, e).len() implies !same_name(
        (#[trigger] es.insert(0, e)[i]).name,
        (#[trigger] es.insert(0, e)[j]).name,
        fold,
    ) by {
        assert(es.insert(0, e)[j] == es[j - 1]);
        law_same_name_is_equivalence(name, es[j - 1].name, name, fold);
        if i > 0 {
            assert(es.insert(0, e)[i] == es[i - 1]);
        }
    }
}

/// Reclaiming a vnode leaves the nodes of other vnodes.
proof fn lemma_reclaim_keeps_node(m: VfsModel, v: Handle, h: Handle)
    requires
        m.tmp_node_of(v) != Some(h),
    ensures
        m.reclaimed(v).tmpfs_nodes.entry(h) == m.tmpfs_nodes.entry(h),
{
    reveal(VfsModel::reclaimed);
    if m.reclaimable(v) {
        let a = m.fifo_let_go(v);
        let b = a.proc_node_released(v);
        let c = b.sysctl_leaf_released(v);
        assert(a.tmpfs_nodes == m.tmpfs_nodes && a.vnodes == m.vnodes);
        assert(b.tmpfs_nodes == m.tmpfs_nodes);
        assert(c.tmpfs_nodes == m.tmpfs_nodes);
        assert(b.tmp_node_of(v) is None || b.tmp_node_of(v) == m.tmp_node_of(v));
        assert(c.tmp_node_of(v) is None || c.tmp_node_of(v) == m.tmp_node_of(v));
    }
}

/// A name that was taken out of a directory is not found there any more.
pub proof fn law_removed_name_is_not_found(
    m: VfsModel,
    parent: Handle,
    name: Seq<u8>,
    want_dir: bool,
    now: u64,
)
    requires
        tmp_sound(m),
        m.removal_refused(parent, name, want_dir) is None,
    ensures
        found_in(m.child_removed(parent, name, now), parent, name) is None,
{
    let fold = m.folds(m.mount_of(parent));
    let dir = m.tmp_node_of(parent)->0;
    let es = m.tmpfs_nodes.at(dir).children;
    let i = m.tmp_pos(dir, name, fold)->0;
    lemma_child_pos(es, name, fold, 0);
    lemma_sound_dir(m, parent);
    let less = es.remove(i);
    lemma_child_pos(less, name, fold, 0);
    if let Some(x) = child_pos(less, name, fold, 0) {
        let back = if x < i {
            x
        } else {
            x + 1
        };
        assert(less[x] == es[back]);
        law_same_name_is_equivalence(es[back].name, name, es[i].name, fold);
        law_same_name_is_equivalence(es[i].name, name, es[i].name, fold);
        law_same_name_is_equivalence(es[i].name, es[back].name, es[i].name, fold);
    }
    let child = m.tmp_child_at(dir, i);
    assert(child == es[i].child);
    let s = m.child_removed(parent, name, now);
    if m.tmpfs_nodes.has(child) {
        let v = m.tmpfs_nodes.at(child).vnode;
        assert(v != parent);
        assert(s.tmpfs_nodes.has(dir) && s.tmpfs_nodes.at(dir).children == less && s.vnodes.entry(
            parent,
        ) is Some && s.tmp_node_of(parent) == Some(dir) && s.mounts == m.mounts && s.mount_of(parent)
            == m.mount_of(parent) && s.on_tmpfs(parent)) by {
            lemma_removal_frame(m, dir, i, now, parent);
        }
    }
}

/// Taking a name out of directory node `dir` leaves the directory in place.
proof fn lemma_removal_frame(m: VfsModel, dir: Handle, i: int, now: u64, parent: Handle)
    requires
        m.on_tmpfs(parent),
        m.tmp_node_of(parent) == Some(dir),
        0 <= i < m.tmpfs_nodes.at(dir).children.len(),
        m.tmp_child_at(dir, i) != dir,
        m.tmpfs_nodes.has(m.tmp_child_at(dir, i)) ==> m.tmpfs_nodes.at(
            m.tmp_child_at(dir, i),
        ).vnode != parent,
    ensures
        ({
            let s = m.name_removed(dir, i, now);
            &&& s.tmpfs_nodes.has(dir)
            &&& s.tmpfs_nodes.at(dir).children == m.tmpfs_nodes.at(dir).children.remove(i)
            &&& s.vnodes.entry(parent) == m.vnodes.entry(parent)
            &&& s.tmp_node_of(parent) == Some(dir)
            &&& s.mounts == m.mounts
        }),
{
    let child = m.tmp_child_at(dir, i);
    let (base, named) = m.name_unlinked(dir, i, now);
    assert(base.vnodes.entry(parent) == m.vnodes.entry(parent));
    assert(base.tmpfs_nodes.has(dir) && base.tmpfs_nodes.at(dir).vnode == parent);
    if !named {
        let v = base.tmpfs_nodes.at(child).vnode;
        assert(v == m.tmpfs_nodes.at(child).vnode);
        lemma_reclaim_keeps_node(base, v, dir);
        law_reclaim_is_safe(base, v, parent);
    }
}

/// Every node that has a vnode is the node of that vnode.
pub open spec fn nodes_tied(m: VfsModel) -> bool {
    forall|h: Handle| #[trigger]
        m.tmpfs_nodes.has(h) && m.vnodes.has(m.tmpfs_nodes.at(h).vnode) ==> m.tmp_node_of(
            m.tmpfs_nodes.at(h).vnode,
        ) == Some(h)
}

/// What taking name `j` out of directory node `to` leaves: the directory without the name, and
/// every other node and vnode. A node that has another name stays too.
pub(crate) open spec fn removal_leaves(m: VfsModel, s: VfsModel, to: Handle, j: int) -> bool {
    let target = m.tmpfs_nodes.at(to).children[j].child;
    let n = m.tmpfs_nodes.at(target);
    &&& s.mounts == m.mounts
    &&& s.tmpfs_nodes.has(to)
    &&& s.tmpfs_nodes.at(to).children == m.tmpfs_nodes.at(to).children.remove(j)
    &&& forall|h: Handle| #[trigger]
        s.tmpfs_nodes.has(h) != m.tmpfs_nodes.has(h) ==> h == target && !(n.kind != VnodeType::Dir
            && n.nlink >= 2)
    &&& forall|h: Handle|
        m.tmpfs_nodes.has(h) && s.tmpfs_nodes.has(h) ==> (#[trigger] s.tmpfs_nodes.at(h)).vnode
            == m.tmpfs_nodes.at(h).vnode || h == target && !(n.kind != VnodeType::Dir && n.nlink
            >= 2)
    &&& forall|h: Handle|
        h != to && h != target && m.tmpfs_nodes.has(h) ==> #[trigger] s.tmpfs_nodes.at(h)
            == m.tmpfs_nodes.at(h)
    &&& forall|v: Handle|
        !(m.tmpfs_nodes.has(target) && v == n.vnode) ==> #[trigger] s.vnodes.entry(v)
            == m.vnodes.entry(v)
}

proof fn lemma_removal_leaves(m: VfsModel, to: Handle, j: int, now: u64)
    requires
        nodes_tied(m),
        m.tmpfs_nodes.has(to),
        0 <= j < m.tmpfs_nodes.at(to).children.len(),
        m.tmp_child_at(to, j) != to,
        m.tmpfs_nodes.has(m.tmp_child_at(to, j)) ==> m.tmpfs_nodes.at(m.tmp_child_at(to, j)).vnode
            != m.tmpfs_nodes.at(to).vnode,
    ensures
        removal_leaves(m, m.name_removed(to, j, now), to, j),
{
    let target = m.tmp_child_at(to, j);
    assert(m.tmpfs_nodes.at(to).children[j].child == target);
    let (base, named) = m.name_unlinked(to, j, now);
    assert(removal_leaves(m, base, to, j));
    let s = m.name_removed(to, j, now);
    if !named {
        let v = m.tmpfs_nodes.at(target).vnode;
        assert(m.tmpfs_nodes.has(target));
        assert(base.tmpfs_nodes.at(target).vnode == v);
        if base.vnodes.has(v) {
            assert(base.tmp_node_of(v) == Some(target));
        }
        assert forall|h: Handle| h != target implies #[trigger] s.tmpfs_nodes.entry(h)
            == base.tmpfs_nodes.entry(h) by {
            lemma_reclaim_keeps_node(base, v, h);
        }
        assert forall|w: Handle| w != v implies #[trigger] s.vnodes.entry(w) == base.vnodes.entry(
            w,
        ) by {
            law_reclaim_is_safe(base, v, w);
        }
        base.lemma_reclaim_frame(v);
        lemma_reclaimed_leaves(m, base, s, to, j);
    }
}

proof fn lemma_reclaimed_leaves(m: VfsModel, base: VfsModel, s: VfsModel, to: Handle, j: int)
    requires
        removal_leaves(m, base, to, j),
        m.tmpfs_nodes.at(to).children[j].child != to,
        m.tmpfs_nodes.has(m.tmpfs_nodes.at(to).children[j].child),
        ({
            let n = m.tmpfs_nodes.at(m.tmpfs_nodes.at(to).children[j].child);
            n.kind == VnodeType::Dir || n.nlink < 2
        }),
        s.mounts == base.mounts,
        forall|h: Handle|
            h != m.tmpfs_nodes.at(to).children[j].child ==> #[trigger] s.tmpfs_nodes.entry(h)
                == base.tmpfs_nodes.entry(h),
        forall|w: Handle|
            w != m.tmpfs_nodes.at(m.tmpfs_nodes.at(to).children[j].child).vnode
                ==> #[trigger] s.vnodes.entry(w) == base.vnodes.entry(w),
    ensures
        removal_leaves(m, s, to, j),
{
    let target = m.tmpfs_nodes.at(to).children[j].child;
    assert(s.tmpfs_nodes.entry(to) == base.tmpfs_nodes.entry(to));
    assert forall|h: Handle| h != target implies #[trigger] s.tmpfs_nodes.has(h)
        == base.tmpfs_nodes.has(h) by {
        assert(s.tmpfs_nodes.entry(h) == base.tmpfs_nodes.entry(h));
    }
    assert forall|h: Handle| h != target && base.tmpfs_nodes.has(h) implies #[trigger] s.tmpfs_nodes.at(
        h,
    ) == base.tmpfs_nodes.at(h) by {
        assert(s.tmpfs_nodes.entry(h) == base.tmpfs_nodes.entry(h));
    }
    assert forall|h: Handle| #[trigger]
        s.tmpfs_nodes.has(h) != m.tmpfs_nodes.has(h) implies h == target by {
        assert(base.tmpfs_nodes.has(h) == m.tmpfs_nodes.has(h) || h == target);
    }
    assert forall|h: Handle|
        h != to && h != target && m.tmpfs_nodes.has(h) implies #[trigger] s.tmpfs_nodes.at(h)
        == m.tmpfs_nodes.at(h) by {
        assert(base.tmpfs_nodes.has(h) == m.tmpfs_nodes.has(h));
        assert(base.tmpfs_nodes.at(h) == m.tmpfs_nodes.at(h));
    }
    assert forall|h: Handle| m.tmpfs_nodes.has(h) && s.tmpfs_nodes.has(h) implies (
    #[trigger] s.tmpfs_nodes.at(h)).vnode == m.tmpfs_nodes.at(h).vnode || h == target by {
        if h != target {
            assert(base.tmpfs_nodes.has(h));
            assert(base.tmpfs_nodes.at(h).vnode == m.tmpfs_nodes.at(h).vnode);
        }
    }
}

/// The two directories, and the node that moves, once the way for a new name is clear.
pub(crate) open spec fn way_clear(
    m: VfsModel,
    s: VfsModel,
    old_parent: Handle,
    old_name: Seq<u8>,
    new_parent: Handle,
) -> bool {
    let fold = m.folds(m.mount_of(old_parent));
    let from = m.tmp_node_of(old_parent)->0;
    let to = m.tmp_node_of(new_parent)->0;
    let i = m.tmp_pos(from, old_name, fold)->0;
    let moved = m.tmp_child_at(from, i);
    let es = s.tmpfs_nodes.at(from).children;
    &&& s.mounts == m.mounts
    &&& s.vnodes.entry(old_parent) == m.vnodes.entry(old_parent)
    &&& s.vnodes.entry(new_parent) == m.vnodes.entry(new_parent)
    &&& s.tmp_node_of(old_parent) == Some(from)
    &&& s.tmp_node_of(new_parent) == Some(to)
    &&& s.tmpfs_nodes.has(moved) == m.tmpfs_nodes.has(moved)
    &&& s.tmpfs_nodes.has(moved) ==> s.tmpfs_nodes.at(moved).vnode == m.tmpfs_nodes.at(moved).vnode
    &&& names_differ(es, fold)
    &&& child_pos(es, old_name, fold, 0) matches Some(k) && es[k].child == moved
    &&& from != to ==> es == m.tmpfs_nodes.at(from).children
}

proof fn lemma_way_clear(
    m: VfsModel,
    s: VfsModel,
    old_parent: Handle,
    old_name: Seq<u8>,
    new_parent: Handle,
    new_name: Seq<u8>,
    j: int,
)
    requires
        nodes_tied(m),
        m.rename_refused(old_parent, old_name, new_parent, new_name) is None,
        !m.rename_is_idle(old_parent, old_name, new_parent, new_name),
        dir_sound(m, m.tmp_node_of(old_parent)->0, m.folds(m.mount_of(old_parent))),
        dir_sound(m, m.tmp_node_of(new_parent)->0, m.folds(m.mount_of(old_parent))),
        m.tmp_pos(m.tmp_node_of(new_parent)->0, new_name, m.folds(m.mount_of(old_parent))) == Some(
            j,
        ),
        removal_leaves(m, s, m.tmp_node_of(new_parent)->0, j),
    ensures
        way_clear(m, s, old_parent, old_name, new_parent),
{
    let fold = m.folds(m.mount_of(old_parent));
    let from = m.tmp_node_of(old_parent)->0;
    let to = m.tmp_node_of(new_parent)->0;
    let i = m.tmp_pos(from, old_name, fold)->0;
    let moved = m.tmp_child_at(from, i);
    let fs = m.tmpfs_nodes.at(from).children;
    let ts = m.tmpfs_nodes.at(to).children;
    lemma_child_pos(fs, old_name, fold, 0);
    lemma_child_pos(ts, new_name, fold, 0);
    let target = ts[j].child;
    assert(fs[i].child == moved);
    assert(m.tmp_child_at(to, j) == target);
    assert(target != moved && target != to);
    if m.tmpfs_nodes.has(target) {
        let v = m.tmpfs_nodes.at(target).vnode;
        assert(m.vnodes.has(v) ==> m.tmp_node_of(v) == Some(target));
    }
    assert(target != from) by {
        if target == from {
            assert(m.tmpfs_nodes.at(from).children.len() > 0);
        }
    }
    assert(s.vnodes.entry(old_parent) == m.vnodes.entry(old_parent));
    assert(s.vnodes.entry(new_parent) == m.vnodes.entry(new_parent));
    assert(s.tmpfs_nodes.has(from) == m.tmpfs_nodes.has(from));
    assert(s.tmpfs_nodes.at(from).vnode == m.tmpfs_nodes.at(from).vnode);
    assert(s.tmpfs_nodes.at(to).vnode == m.tmpfs_nodes.at(to).vnode);
    assert(s.tmpfs_nodes.has(moved) == m.tmpfs_nodes.has(moved));
    if m.tmpfs_nodes.has(moved) {
        assert(s.tmpfs_nodes.at(moved).vnode == m.tmpfs_nodes.at(moved).vnode);
    }
    if from == to {
        assert(j != i);
        law_same_name_is_equivalence(fs[j].name, old_name, fs[i].name, fold);
        law_same_name_is_equivalence(fs[i].name, old_name, fs[j].name, fold);
        lemma_taken_away(fs, j, old_name, fold);
        lemma_removal_keeps_apart(fs, j, fold);
        let k = child_pos(fs.remove(j), old_name, fold, 0)->0;
        assert(fs.remove(j)[k] == fs[i]);
    } else {
        assert(s.tmpfs_nodes.at(from) == m.tmpfs_nodes.at(from));
    }
}

/// What clearing the way for a new name leaves: both directories, and the node that moves.
pub(crate) proof fn lemma_way_cleared(
    m: VfsModel,
    old_parent: Handle,
    old_name: Seq<u8>,
    new_parent: Handle,
    new_name: Seq<u8>,
    now: u64,
)
    requires
        nodes_tied(m),
        m.rename_refused(old_parent, old_name, new_parent, new_name) is None,
        !m.rename_is_idle(old_parent, old_name, new_parent, new_name),
        dir_sound(m, m.tmp_node_of(old_parent)->0, m.folds(m.mount_of(old_parent))),
        dir_sound(m, m.tmp_node_of(new_parent)->0, m.folds(m.mount_of(old_parent))),
    ensures
        way_clear(
            m,
            m.way_cleared(old_parent, new_parent, new_name, now),
            old_parent,
            old_name,
            new_parent,
        ),
{
    let fold = m.folds(m.mount_of(old_parent));
    let from = m.tmp_node_of(old_parent)->0;
    let to = m.tmp_node_of(new_parent)->0;
    lemma_child_pos(m.tmpfs_nodes.at(from).children, old_name, fold, 0);
    lemma_child_pos(m.tmpfs_nodes.at(to).children, new_name, fold, 0);
    if let Some(j) = m.tmp_pos(to, new_name, fold) {
        assert(m.tmpfs_nodes.at(to).children[j].child == m.tmp_child_at(to, j));
        lemma_removal_leaves(m, to, j, now);
        lemma_way_clear(
            m,
            m.name_removed(to, j, now),
            old_parent,
            old_name,
            new_parent,
            new_name,
            j,
        );
    }
}

/// Moving a name changes which names the two directories hold, and no vnode of a node.
pub(crate) open spec fn move_effect(
    s: VfsModel,
    t: VfsModel,
    from: Handle,
    k: int,
    to: Handle,
    name: Seq<u8>,
) -> bool {
    let less = s.tmpfs_nodes.at(from).children.remove(k);
    let e = EntryView { child: s.tmp_child_at(from, k), name };
    &&& t.mounts == s.mounts
    &&& t.vnodes == s.vnodes
    &&& forall|h: Handle| #[trigger] t.tmpfs_nodes.has(h) == s.tmpfs_nodes.has(h)
    &&& forall|h: Handle|
        s.tmpfs_nodes.has(h) ==> (#[trigger] t.tmpfs_nodes.at(h)).vnode == s.tmpfs_nodes.at(h).vnode
    &&& t.tmpfs_nodes.at(to).children == (if from == to {
        less
    } else {
        s.tmpfs_nodes.at(to).children
    }).insert(0, e)
    &&& from != to ==> t.tmpfs_nodes.at(from).children == less
}

pub(crate) proof fn lemma_move_frame(s: VfsModel, from: Handle, k: int, to: Handle, name: Seq<u8>, now: u64)
    requires
        s.tmpfs_nodes.has(from),
        s.tmpfs_nodes.has(to),
        0 <= k < s.tmpfs_nodes.at(from).children.len(),
    ensures
        move_effect(s, s.entry_moved(from, k, to, name, now), from, k, to, name),
{
    let child = s.tmp_child_at(from, k);
    let f = s.tmpfs_nodes.at(from);
    let a = s.with_tmp_node(from, TmpNodeView { children: f.children.remove(k), ..f });
    let b = a.with_tmp_node(to, VfsModel::dir_with(a.tmpfs_nodes.at(to), child, name, now));
    let less = f.children.remove(k);
    let e = EntryView { child, name };
    assert(b.tmpfs_nodes.at(to).children == (if from == to {
        less
    } else {
        s.tmpfs_nodes.at(to).children
    }).insert(0, e));
    assert(from != to ==> b.tmpfs_nodes.at(from).children == less);
    let t = s.entry_moved(from, k, to, name, now);
    assert forall|h: Handle| s.tmpfs_nodes.has(h) implies (#[trigger] t.tmpfs_nodes.at(h)).vnode
        == s.tmpfs_nodes.at(h).vnode && t.tmpfs_nodes.at(h).children == b.tmpfs_nodes.at(
        h,
    ).children by {}
    assert(t.tmpfs_nodes.at(to).children == b.tmpfs_nodes.at(to).children);
    assert(t.tmpfs_nodes.at(from).children == b.tmpfs_nodes.at(from).children);
}

/// A name that was renamed names, under its new name, what it named before; under the old
/// one nothing is found, unless the two agree in one directory.
pub proof fn law_renamed_node_is_found(
    m: VfsModel,
    old_parent: Handle,
    old_name: Seq<u8>,
    new_parent: Handle,
    new_name: Seq<u8>,
    now: u64,
)
    requires
        tmp_sound(m),
        m.rename_refused(old_parent, old_name, new_parent, new_name) is None,
        !m.rename_is_idle(old_parent, old_name, new_parent, new_name),
        m.tmpfs_nodes.at(m.tmp_node_of(new_parent)->0).kind == VnodeType::Dir,
    ensures
        ({
            let fold = m.folds(m.mount_of(old_parent));
            let from = m.tmp_node_of(old_parent)->0;
            let to = m.tmp_node_of(new_parent)->0;
            let s = m.way_cleared(old_parent, new_parent, new_name, now);
            let k = s.tmp_pos(from, old_name, fold);
            let t = s.entry_moved(from, k->0, to, new_name, now);
            &&& k is Some && s.tmpfs_nodes.has(to)
            &&& found_in(t, new_parent, new_name) == found_in(m, old_parent, old_name)
            &&& from != to || !same_name(old_name, new_name, fold) ==> found_in(
                t,
                old_parent,
                old_name,
            ) is None
        }),
{
    let fold = m.folds(m.mount_of(old_parent));
    let from = m.tmp_node_of(old_parent)->0;
    let to = m.tmp_node_of(new_parent)->0;
    let s = m.way_cleared(old_parent, new_parent, new_name, now);
    lemma_child_pos(m.tmpfs_nodes.at(from).children, old_name, fold, 0);
    lemma_sound_parts(m);
    lemma_sound_dir(m, old_parent);
    lemma_sound_dir(m, new_parent);
    lemma_way_cleared(m, old_parent, old_name, new_parent, new_name, now);
    let es = s.tmpfs_nodes.at(from).children;
    let k = s.tmp_pos(from, old_name, fold)->0;
    lemma_child_pos(es, old_name, fold, 0);
    let moved = es[k].child;
    let t = s.entry_moved(from, k, to, new_name, now);
    let less = es.remove(k);
    let e = EntryView { child: moved, name: new_name };
    lemma_move_frame(s, from, k, to, new_name, now);
    assert(t.tmpfs_nodes.at(to).children[0] == e);
    assert(t.tmpfs_nodes.has(from) && t.tmpfs_nodes.has(to));
    assert(t.tmp_node_of(old_parent) == Some(from));
    assert(t.tmp_node_of(new_parent) == Some(to));
    law_same_name_is_equivalence(new_name, new_name, new_name, fold);
    law_same_name_is_equivalence(new_name, old_name, new_name, fold);
    assert(t.tmp_pos(to, new_name, fold) == Some(0int));
    assert(t.tmpfs_nodes.has(moved) == s.tmpfs_nodes.has(moved));
    assert(t.tmpfs_nodes.has(moved) ==> t.tmpfs_nodes.at(moved).vnode == s.tmpfs_nodes.at(
        moved,
    ).vnode);
    // What is left in the old directory does not agree with the old name.
    lemma_child_pos(less, old_name, fold, 0);
    if let Some(x) = child_pos(less, old_name, fold, 0) {
        let back = if x < k {
            x
        } else {
            x + 1
        };
        assert(less[x] == es[back]);
        law_same_name_is_equivalence(es[back].name, old_name, es[k].name, fold);
        law_same_name_is_equivalence(es[k].name, old_name, es[k].name, fold);
        law_same_name_is_equivalence(es[k].name, es[back].name, es[k].name, fold);
    }
    if from == to {
        lemma_newest_passed(less, e, old_name, fold, 0);
    }
}

/// What a name of a list of names names.
spec fn vnode_named(m: VfsModel, es: Seq<EntryView>, name: Seq<u8>, fold: bool) -> Option<Handle> {
    match child_pos(es, name, fold, 0) {
        Some(i) => match m.tmpfs_nodes.entry(es[i].child) {
            Some(c) => Some(c.vnode),
            None => None,
        },
        None => None,
    }
}

proof fn lemma_named_after_removal(
    m: VfsModel,
    es: Seq<EntryView>,
    at: int,
    name: Seq<u8>,
    fold: bool,
)
    requires
        0 <= at < es.len(),
        !same_name(es[at].name, name, fold),
    ensures
        vnode_named(m, es.remove(at), name, fold) == vnode_named(m, es, name, fold),
{
    lemma_taken_away(es, at, name, fold);
    lemma_child_pos(es, name, fold, 0);
    if let Some(k) = child_pos(es, name, fold, 0) {
        let q = if k < at {
            k
        } else {
            k - 1
        };
        assert(es.remove(at)[q] == es[k]);
    }
}

proof fn lemma_named_behind_newest(
    m: VfsModel,
    es: Seq<EntryView>,
    e: EntryView,
    name: Seq<u8>,
    fold: bool,
)
    requires
        !same_name(e.name, name, fold),
    ensures
        vnode_named(m, es.insert(0, e), name, fold) == vnode_named(m, es, name, fold),
{
    let big = es.insert(0, e);
    assert(big[0] == e);
    lemma_newest_passed(es, e, name, fold, 0);
    lemma_child_pos(es, name, fold, 0);
    if let Some(k) = child_pos(es, name, fold, 0) {
        assert(big[k + 1] == es[k]);
    }
}

pub(crate) proof fn lemma_removal_keeps_apart(es: Seq<EntryView>, at: int, fold: bool)
    requires
        0 <= at < es.len(),
        names_differ(es, fold),
    ensures
        names_differ(es.remove(at), fold),
{
    let less = es.remove(at);
    assert forall|a: int, b: int| 0 <= a < b < less.len() implies !same_name(
        (#[trigger] less[a]).name,
        (#[trigger] less[b]).name,
        fold,
    ) by {
        let x = if a < at {
            a
        } else {
            a + 1
        };
        let y = if b < at {
            b
        } else {
            b + 1
        };
        assert(less[a] == es[x] && less[b] == es[y]);
    }
}

pub(crate) proof fn lemma_newest_keeps_apart(es: Seq<EntryView>, e: EntryView, fold: bool)
    requires
        names_differ(es, fold),
        child_pos(es, e.name, fold, 0) is None,
    ensures
        names_differ(es.insert(0, e), fold),
{
    let big = es.insert(0, e);
    lemma_child_pos(es, e.name, fold, 0);
    assert forall|a: int, b: int| 0 <= a < b < big.len() implies !same_name(
        (#[trigger] big[a]).name,
        (#[trigger] big[b]).name,
        fold,
    ) by {
        assert(big[b] == es[b - 1]);
        law_same_name_is_equivalence(e.name, es[b - 1].name, e.name, fold);
        if a > 0 {
            assert(big[a] == es[a - 1]);
        }
    }
}

/// The name that was found and taken away was the only one to agree.
proof fn lemma_none_left(es: Seq<EntryView>, name: Seq<u8>, fold: bool)
    requires
        names_differ(es, fold),
        child_pos(es, name, fold, 0) is Some,
    ensures
        child_pos(es.remove(child_pos(es, name, fold, 0)->0), name, fold, 0) is None,
{
    lemma_child_pos(es, name, fold, 0);
    let j = child_pos(es, name, fold, 0)->0;
    let less = es.remove(j);
    lemma_child_pos(less, name, fold, 0);
    if let Some(x) = child_pos(less, name, fold, 0) {
        let back = if x < j {
            x
        } else {
            x + 1
        };
        assert(less[x] == es[back]);
        law_same_name_is_equivalence(es[back].name, name, es[j].name, fold);
        law_same_name_is_equivalence(es[j].name, name, es[back].name, fold);
    }
}

/// A node with two names is no directory, and has both of them counted.
pub open spec fn links_sound(m: VfsModel) -> bool {
    forall|a: Handle, i: int, b: Handle, j: int|
        #![trigger m.tmpfs_nodes.at(a).children[i], m.tmpfs_nodes.at(b).children[j]]
        m.tmpfs_nodes.has(a) && m.tmpfs_nodes.has(b) && 0 <= i < m.tmpfs_nodes.at(a).children.len()
            && 0 <= j < m.tmpfs_nodes.at(b).children.len() && !(a == b && i == j)
            && m.tmpfs_nodes.at(a).children[i].child == m.tmpfs_nodes.at(b).children[j].child
            && m.tmpfs_nodes.has(m.tmpfs_nodes.at(a).children[i].child) ==> {
            let n = m.tmpfs_nodes.at(m.tmpfs_nodes.at(a).children[i].child);
            n.kind != VnodeType::Dir && n.nlink >= 2
        }
}

/// Clearing the way for a new name leaves what every other name of the two directories names,
/// and nothing that agrees with the new one.
proof fn lemma_way_cleared_names(
    m: VfsModel,
    old_parent: Handle,
    old_name: Seq<u8>,
    new_parent: Handle,
    new_name: Seq<u8>,
    now: u64,
    dir: Handle,
    other: Seq<u8>,
)
    requires
        nodes_tied(m),
        links_sound(m),
        m.rename_refused(old_parent, old_name, new_parent, new_name) is None,
        !m.rename_is_idle(old_parent, old_name, new_parent, new_name),
        dir_sound(m, m.tmp_node_of(old_parent)->0, m.folds(m.mount_of(old_parent))),
        dir_sound(m, m.tmp_node_of(new_parent)->0, m.folds(m.mount_of(old_parent))),
        dir == m.tmp_node_of(old_parent)->0 || dir == m.tmp_node_of(new_parent)->0,
        !(dir == m.tmp_node_of(new_parent)->0 && same_name(
            other,
            new_name,
            m.folds(m.mount_of(old_parent)),
        )),
    ensures
        ({
            let fold = m.folds(m.mount_of(old_parent));
            let to = m.tmp_node_of(new_parent)->0;
            let s = m.way_cleared(old_parent, new_parent, new_name, now);
            &&& vnode_named(s, s.tmpfs_nodes.at(dir).children, other, fold) == vnode_named(
                m,
                m.tmpfs_nodes.at(dir).children,
                other,
                fold,
            )
            &&& names_differ(s.tmpfs_nodes.at(to).children, fold)
            &&& child_pos(s.tmpfs_nodes.at(to).children, new_name, fold, 0) is None
        }),
{
    let fold = m.folds(m.mount_of(old_parent));
    let from = m.tmp_node_of(old_parent)->0;
    let to = m.tmp_node_of(new_parent)->0;
    let s = m.way_cleared(old_parent, new_parent, new_name, now);
    let ts = m.tmpfs_nodes.at(to).children;
    let es = m.tmpfs_nodes.at(dir).children;
    lemma_way_cleared(m, old_parent, old_name, new_parent, new_name, now);
    lemma_child_pos(ts, new_name, fold, 0);
    lemma_child_pos(es, other, fold, 0);
    if let Some(j) = m.tmp_pos(to, new_name, fold) {
        assert(ts[j].child == m.tmp_child_at(to, j));
        lemma_removal_leaves(m, to, j, now);
        lemma_removal_keeps_apart(ts, j, fold);
        lemma_none_left(ts, new_name, fold);
        if dir == to {
            assert(!same_name(ts[j].name, other, fold)) by {
                law_same_name_is_equivalence(other, ts[j].name, new_name, fold);
            }
            lemma_named_after_removal(s, ts, j, other, fold);
        }
        if let Some(k) = child_pos(es, other, fold, 0) {
            let c = es[k].child;
            if dir == to && k == j {
                law_same_name_is_equivalence(other, ts[j].name, new_name, fold);
            }
            assert(c == ts[j].child && m.tmpfs_nodes.has(c) ==> m.tmpfs_nodes.at(c).kind
                != VnodeType::Dir && m.tmpfs_nodes.at(c).nlink >= 2);
            assert(s.tmpfs_nodes.has(c) == m.tmpfs_nodes.has(c));
            assert(s.tmpfs_nodes.has(c) ==> s.tmpfs_nodes.at(c).vnode == m.tmpfs_nodes.at(c).vnode);
        }
        assert(vnode_named(s, es, other, fold) == vnode_named(m, es, other, fold));
    }
}

/// Once the way for a new name is clear, nothing in the directory agrees with it.
pub(crate) proof fn lemma_new_name_free(
    m: VfsModel,
    old_parent: Handle,
    old_name: Seq<u8>,
    new_parent: Handle,
    new_name: Seq<u8>,
    now: u64,
)
    requires
        nodes_tied(m),
        m.rename_refused(old_parent, old_name, new_parent, new_name) is None,
        !m.rename_is_idle(old_parent, old_name, new_parent, new_name),
        dir_sound(m, m.tmp_node_of(new_parent)->0, m.folds(m.mount_of(old_parent))),
    ensures
        child_pos(
            m.way_cleared(old_parent, new_parent, new_name, now).tmpfs_nodes.at(
                m.tmp_node_of(new_parent)->0,
            ).children,
            new_name,
            m.folds(m.mount_of(old_parent)),
            0,
        ) is None,
{
    let fold = m.folds(m.mount_of(old_parent));
    let to = m.tmp_node_of(new_parent)->0;
    let ts = m.tmpfs_nodes.at(to).children;
    lemma_child_pos(ts, new_name, fold, 0);
    if let Some(j) = m.tmp_pos(to, new_name, fold) {
        assert(ts[j].child == m.tmp_child_at(to, j));
        lemma_removal_leaves(m, to, j, now);
        lemma_none_left(ts, new_name, fold);
    }
}

/// Moving a name leaves what every other name of the two directories names.
proof fn lemma_move_keeps_named(
    s: VfsModel,
    t: VfsModel,
    from: Handle,
    k: int,
    to: Handle,
    name: Seq<u8>,
    dir: Handle,
    other: Seq<u8>,
    fold: bool,
)
    requires
        move_effect(s, t, from, k, to, name),
        0 <= k < s.tmpfs_nodes.at(from).children.len(),
        dir == from || dir == to,
        !(dir == from && same_name(s.tmpfs_nodes.at(from).children[k].name, other, fold)),
        !(dir == to && same_name(name, other, fold)),
    ensures
        vnode_named(t, t.tmpfs_nodes.at(dir).children, other, fold) == vnode_named(
            s,
            s.tmpfs_nodes.at(dir).children,
            other,
            fold,
        ),
{
    let es = s.tmpfs_nodes.at(dir).children;
    let e = EntryView { child: s.tmp_child_at(from, k), name };
    lemma_child_pos(es, other, fold, 0);
    assert(vnode_named(t, es, other, fold) == vnode_named(s, es, other, fold)) by {
        if let Some(x) = child_pos(es, other, fold, 0) {
            let c = es[x].child;
            assert(t.tmpfs_nodes.has(c) == s.tmpfs_nodes.has(c));
            assert(s.tmpfs_nodes.has(c) ==> t.tmpfs_nodes.at(c).vnode == s.tmpfs_nodes.at(c).vnode);
        }
    }
    if dir == from {
        lemma_named_after_removal(t, es, k, other, fold);
    }
    if dir == to {
        let base = if from == to {
            es.remove(k)
        } else {
            es
        };
        lemma_named_behind_newest(t, base, e, other, fold);
    }
}

/// A move keeps the names of the two directories apart.
proof fn lemma_move_keeps_apart(
    s: VfsModel,
    t: VfsModel,
    from: Handle,
    k: int,
    to: Handle,
    name: Seq<u8>,
    fold: bool,
)
    requires
        move_effect(s, t, from, k, to, name),
        0 <= k < s.tmpfs_nodes.at(from).children.len(),
        names_differ(s.tmpfs_nodes.at(from).children, fold),
        names_differ(s.tmpfs_nodes.at(to).children, fold),
        child_pos(s.tmpfs_nodes.at(to).children, name, fold, 0) is None,
    ensures
        names_differ(t.tmpfs_nodes.at(from).children, fold),
        names_differ(t.tmpfs_nodes.at(to).children, fold),
{
    let es = s.tmpfs_nodes.at(from).children;
    lemma_removal_keeps_apart(es, k, fold);
    let e = EntryView { child: s.tmp_child_at(from, k), name };
    let base = if from == to {
        es.remove(k)
    } else {
        s.tmpfs_nodes.at(to).children
    };
    lemma_child_pos(s.tmpfs_nodes.at(to).children, name, fold, 0);
    lemma_child_pos(base, name, fold, 0);
    if from == to {
        if let Some(x) = child_pos(base, name, fold, 0) {
            let back = if x < k {
                x
            } else {
                x + 1
            };
            assert(base[x] == es[back]);
        }
    }
    lemma_newest_keeps_apart(base, e, fold);
}

/// What the two directories hold after a name was moved, once the way was clear in `s`.
proof fn lemma_moved_found(
    m: VfsModel,
    s: VfsModel,
    old_parent: Handle,
    old_name: Seq<u8>,
    new_parent: Handle,
    new_name: Seq<u8>,
    now: u64,
    parent: Handle,
    other: Seq<u8>,
)
    requires
        m.tmp_node_of(old_parent) is Some,
        m.tmp_node_of(new_parent) is Some,
        m.on_tmpfs(old_parent),
        m.on_tmpfs(new_parent),
        m.mount_of(old_parent) == m.mount_of(new_parent),
        way_clear(m, s, old_parent, old_name, new_parent),
        names_differ(
            s.tmpfs_nodes.at(m.tmp_node_of(new_parent)->0).children,
            m.folds(m.mount_of(old_parent)),
        ),
        child_pos(
            s.tmpfs_nodes.at(m.tmp_node_of(new_parent)->0).children,
            new_name,
            m.folds(m.mount_of(old_parent)),
            0,
        ) is None,
        vnode_named(
            s,
            s.tmpfs_nodes.at(m.tmp_node_of(parent)->0).children,
            other,
            m.folds(m.mount_of(old_parent)),
        ) == vnode_named(
            m,
            m.tmpfs_nodes.at(m.tmp_node_of(parent)->0).children,
            other,
            m.folds(m.mount_of(old_parent)),
        ),
        parent == old_parent || parent == new_parent,
        !(parent == old_parent && same_name(other, old_name, m.folds(m.mount_of(old_parent)))),
        !(parent == new_parent && same_name(other, new_name, m.folds(m.mount_of(old_parent)))),
    ensures
        ({
            let fold = m.folds(m.mount_of(old_parent));
            let from = m.tmp_node_of(old_parent)->0;
            let to = m.tmp_node_of(new_parent)->0;
            let t = s.entry_moved(from, s.tmp_pos(from, old_name, fold)->0, to, new_name, now);
            &&& found_in(t, parent, other) == found_in(m, parent, other)
            &&& names_differ(t.tmpfs_nodes.at(from).children, fold)
            &&& names_differ(t.tmpfs_nodes.at(to).children, fold)
        }),
{
    let fold = m.folds(m.mount_of(old_parent));
    let from = m.tmp_node_of(old_parent)->0;
    let to = m.tmp_node_of(new_parent)->0;
    let dir = m.tmp_node_of(parent)->0;
    assert(dir == to ==> parent == new_parent);
    assert(dir == from ==> parent == old_parent);
    let es = s.tmpfs_nodes.at(from).children;
    let k = s.tmp_pos(from, old_name, fold)->0;
    lemma_child_pos(es, old_name, fold, 0);
    let t = s.entry_moved(from, k, to, new_name, now);
    lemma_move_frame(s, from, k, to, new_name, now);
    law_same_name_is_equivalence(es[k].name, other, old_name, fold);
    law_same_name_is_equivalence(other, es[k].name, old_name, fold);
    law_same_name_is_equivalence(new_name, other, new_name, fold);
    lemma_move_keeps_named(s, t, from, k, to, new_name, dir, other, fold);
    lemma_move_keeps_apart(s, t, from, k, to, new_name, fold);
    assert(t.tmp_node_of(old_parent) == Some(from));
    assert(t.tmp_node_of(new_parent) == Some(to));
}

/// A rename changes nothing but the two names: every other name of the two directories names
/// what it named. No two names agree afterwards, so what had the new name has lost it.
pub proof fn law_rename_leaves_other_names(
    m: VfsModel,
    old_parent: Handle,
    old_name: Seq<u8>,
    new_parent: Handle,
    new_name: Seq<u8>,
    now: u64,
    parent: Handle,
    other: Seq<u8>,
)
    requires
        tmp_sound(m),
        m.rename_refused(old_parent, old_name, new_parent, new_name) is None,
        !m.rename_is_idle(old_parent, old_name, new_parent, new_name),
        m.tmpfs_nodes.at(m.tmp_node_of(new_parent)->0).kind == VnodeType::Dir,
        parent == old_parent || parent == new_parent,
        !(parent == old_parent && same_name(other, old_name, m.folds(m.mount_of(old_parent)))),
        !(parent == new_parent && same_name(other, new_name, m.folds(m.mount_of(old_parent)))),
    ensures
        ({
            let fold = m.folds(m.mount_of(old_parent));
            let from = m.tmp_node_of(old_parent)->0;
            let to = m.tmp_node_of(new_parent)->0;
            let s = m.way_cleared(old_parent, new_parent, new_name, now);
            let t = s.entry_moved(from, s.tmp_pos(from, old_name, fold)->0, to, new_name, now);
            &&& found_in(t, parent, other) == found_in(m, parent, other)
            &&& names_differ(t.tmpfs_nodes.at(from).children, fold)
            &&& names_differ(t.tmpfs_nodes.at(to).children, fold)
        }),
{
    let fold = m.folds(m.mount_of(old_parent));
    let from = m.tmp_node_of(old_parent)->0;
    let to = m.tmp_node_of(new_parent)->0;
    let s = m.way_cleared(old_parent, new_parent, new_name, now);
    let dir = m.tmp_node_of(parent)->0;
    assert(dir == to ==> parent == new_parent);
    assert(dir == from ==> parent == old_parent);
    lemma_child_pos(m.tmpfs_nodes.at(from).children, old_name, fold, 0);
    lemma_sound_parts(m);
    lemma_sound_dir(m, old_parent);
    lemma_sound_dir(m, new_parent);
    lemma_way_cleared(m, old_parent, old_name, new_parent, new_name, now);
    lemma_way_cleared_names(m, old_parent, old_name, new_parent, new_name, now, dir, other);
    lemma_moved_found(m, s, old_parent, old_name, new_parent, new_name, now, parent, other);
}

/// A file that was given one more name is found under it.
pub proof fn law_linked_file_is_found(
    m: VfsModel,
    source: Handle,
    dir: Handle,
    name: Seq<u8>,
    now: u64,
)
    requires
        m.link_refused(source, dir, name) is None,
    ensures
        found_in(m.linked(source, dir, name, now), dir, name) == Some(source),
{
    let fold = m.folds(m.mount_of(dir));
    let dn = m.tmp_node_of(dir)->0;
    let sn = m.tmp_node_of(source)->0;
    let t = m.linked(source, dir, name, now);
    law_same_name_is_equivalence(name, name, name, fold);
    let e = EntryView { child: sn, name };
    assert(t.tmpfs_nodes.at(dn).children[0] == e);
    assert(t.tmpfs_nodes.at(dn).vnode == m.tmpfs_nodes.at(dn).vnode);
    assert(t.tmpfs_nodes.at(sn).vnode == source);
    assert(t.tmp_node_of(dir) == Some(dn));
    assert(t.tmp_pos(dn, name, fold) == Some(0int));
}

// ---- listings ----------------------------------------------------------------------

/// The names that a listing of directory vnode `v` shows from `cursor` on, each step taking
/// up where the one before left off; `n` bounds the steps.
pub open spec fn names_listed(m: VfsModel, v: Handle, cursor: u64, n: nat) -> Seq<Seq<u8>>
    decreases n,
{
    if n == 0 {
        Seq::empty()
    } else {
        match m.tmp_listed(v, cursor) {
            Ok(Some(i)) => seq![i.name] + names_listed(m, v, i.next_cursor, (n - 1) as nat),
            _ => Seq::empty(),
        }
    }
}

proof fn lemma_names_listed(m: VfsModel, v: Handle, cursor: u64, n: nat)
    requires
        m.tmp_node_of(v) is Some,
        m.tmpfs_nodes.at(m.tmp_node_of(v)->0).kind == VnodeType::Dir,
        m.tmpfs_nodes.at(m.tmp_node_of(v)->0).children.len() < u64::MAX,
        forall|i: int|
            0 <= i < m.tmpfs_nodes.at(m.tmp_node_of(v)->0).children.len() ==> m.tmpfs_nodes.has(
                (#[trigger] m.tmpfs_nodes.at(m.tmp_node_of(v)->0).children[i]).child,
            ),
        cursor + n > m.tmpfs_nodes.at(m.tmp_node_of(v)->0).children.len(),
        cursor <= m.tmpfs_nodes.at(m.tmp_node_of(v)->0).children.len(),
    ensures
        names_listed(m, v, cursor, n) == m.tmpfs_nodes.at(m.tmp_node_of(v)->0).children.skip(
            cursor as int,
        ).map_values(|e: EntryView| prefix(e.name, LISTED_NAME_MAX as int)),
    decreases n,
{
    let es = m.tmpfs_nodes.at(m.tmp_node_of(v)->0).children;
    let f = |e: EntryView| prefix(e.name, LISTED_NAME_MAX as int);
    if cursor < es.len() {
        assert(m.tmpfs_nodes.has(es[cursor as int].child));
        lemma_names_listed(m, v, (cursor + 1) as u64, (n - 1) as nat);
        assert(es.skip(cursor as int).map_values(f) =~= seq![f(es[cursor as int])] + es.skip(
            cursor + 1,
        ).map_values(f));
    } else {
        assert(es.skip(cursor as int).map_values(f) =~= Seq::<Seq<u8>>::empty());
    }
}

/// A listing from the start shows every name of the directory once, in the directory's
/// order, and then ends.
pub proof fn law_listing_shows_every_name(m: VfsModel, v: Handle)
    requires
        m.tmp_node_of(v) is Some,
        m.tmpfs_nodes.at(m.tmp_node_of(v)->0).kind == VnodeType::Dir,
        m.tmpfs_nodes.at(m.tmp_node_of(v)->0).children.len() < u64::MAX,
        forall|i: int|
            0 <= i < m.tmpfs_nodes.at(m.tmp_node_of(v)->0).children.len() ==> m.tmpfs_nodes.has(
                (#[trigger] m.tmpfs_nodes.at(m.tmp_node_of(v)->0).children[i]).child,
            ),
    ensures
        ({
            let es = m.tmpfs_nodes.at(m.tmp_node_of(v)->0).children;
            names_listed(m, v, 0, es.len() + 1) == es.map_values(
                |e: EntryView| prefix(e.name, LISTED_NAME_MAX as int),
            )
        }),
{
    let es = m.tmpfs_nodes.at(m.tmp_node_of(v)->0).children;
    lemma_names_listed(m, v, 0, es.len() + 1);
    assert(es.skip(0) =~= es);
}

// ---- room --------------------------------------------------------------------------

/// What is charged to the mount whose record is under `h` is within its limits.
pub open spec fn within_limits(m: VfsModel, h: Handle) -> bool {
    let d = m.tmpfs_mounts.at(h);
    &&& d.max_bytes != 0 ==> d.accounted_bytes <= d.max_bytes
    &&& d.max_inodes != 0 ==> d.used_inodes <= d.max_inodes
}

/// A mount is never charged more than its limits allow: what would exceed them is refused,
/// and giving back only lowers the charge.
pub proof fn law_limits_are_kept(m: VfsModel, mount: Handle, delta: u64)
    requires
        m.tmpfs_mounts.wf(),
        m.tmp_data(mount) is Some,
        within_limits(m, m.tmp_data(mount)->0),
    ensures
        ({
            let h = m.tmp_data(mount)->0;
            &&& m.inode_refused(mount) is None ==> within_limits(m.inode_charged(mount), h)
            &&& m.bytes_refused(mount, delta) is None ==> within_limits(
                m.bytes_charged(mount, delta),
                h,
            )
            &&& within_limits(m.inode_credited(mount), h)
            &&& within_limits(m.bytes_credited(mount, delta), h)
        }),
{
    m.tmpfs_mounts.lemma_scan(|h: Handle, d: TmpfsMountData| d.owner_mount == mount, 0);
}

/// The record of a mount is found also after it was charged.
proof fn lemma_record_stays(m: VfsModel, mount: Handle, d: TmpfsMountData)
    requires
        m.tmpfs_mounts.wf(),
        m.tmp_data(mount) is Some,
        d.owner_mount == mount,
    ensures
        m.with_tmp_data(m.tmp_data(mount)->0, d).tmp_data(mount) == m.tmp_data(mount),
{
    let h = m.tmp_data(mount)->0;
    let p = |h: Handle, d: TmpfsMountData| d.owner_mount == mount;
    let t = m.tmpfs_mounts.put(h, d);
    m.tmpfs_mounts.lemma_scan(p, 0);
    assert(t.wf()) by {
        assert forall|g: Handle| #[trigger] t.live.contains_key(g) implies g.slot < t.epochs.len()
            && t.epochs[g.slot as int] == g.epoch by {
            assert(m.tmpfs_mounts.live.contains_key(g));
        }
    }
    t.lemma_scan(p, 0);
    assert(t.has(h) && p(h, t.at(h)));
    match t.scan(p, 0) {
        Some(g) => {
            assert(m.tmpfs_mounts.has(g));
            if g != h {
                assert(p(g, m.tmpfs_mounts.at(g)));
                assert(g.slot != h.slot) by {
                    assert(m.tmpfs_mounts.live.contains_key(g) && m.tmpfs_mounts.live.contains_key(h));
                }
            }
        },
        None => {},
    }
}

/// Giving back what was charged leaves the mount charged as before.
pub proof fn law_credit_undoes_charge(m: VfsModel, mount: Handle, delta: u64)
    requires
        m.tmpfs_mounts.wf(),
        m.tmp_data(mount) is Some,
        m.tmpfs_mounts.at(m.tmp_data(mount)->0).accounted_bytes + delta <= u64::MAX,
        m.tmpfs_mounts.at(m.tmp_data(mount)->0).used_inodes < u64::MAX,
    ensures
        m.bytes_charged(mount, delta).bytes_credited(mount, delta) == m,
        m.inode_charged(mount).inode_credited(mount) == m,
{
    let h = m.tmp_data(mount)->0;
    let d = m.tmpfs_mounts.at(h);
    m.tmpfs_mounts.lemma_scan(|h: Handle, d: TmpfsMountData| d.owner_mount == mount, 0);
    let more = TmpfsMountData { accounted_bytes: capped_sum(d.accounted_bytes, delta), ..d };
    let one = TmpfsMountData { used_inodes: capped_sum(d.used_inodes, 1), ..d };
    lemma_record_stays(m, mount, more);
    lemma_record_stays(m, mount, one);
    assert(m.tmpfs_mounts.put(h, more).put(h, d).live =~= m.tmpfs_mounts.live);
    assert(m.tmpfs_mounts.put(h, one).put(h, d).live =~= m.tmpfs_mounts.live);
    assert(m.tmpfs_mounts.put(h, more).put(h, d) == m.tmpfs_mounts);
    assert(m.tmpfs_mounts.put(h, one).put(h, d) == m.tmpfs_mounts);
}

/// A mount never shows more room free than it has.
pub proof fn law_free_room_is_part_of_all(m: VfsModel, mount: Handle, mem: Option<SysMemInfo>)
    requires
        mem matches Some(i) ==> i.pages_free <= i.pages_total,
    ensures
        m.tmp_numbers(mount, mem) matches Ok(s) ==> s.f_bfree <= s.f_blocks && s.f_ffree <= s.f_files
            && s.f_bavail == s.f_bfree && s.f_favail == s.f_ffree,
{
}

/// A remount changes no limit that its options do not name.
pub proof fn law_remount_keeps_other_limits(m: VfsModel, mount: Handle, flags: u32, opts: Seq<u8>)
    requires
        m.tmpfs_mounts.wf(),
        m.tmp_remount_refusal(mount, flags) is None,
    ensures
        ({
            let h = m.tmp_data(mount)->0;
            let d = m.tmp_remounted(mount, flags, opts).tmpfs_mounts.at(h);
            &&& stated_opts(opts).max_bytes is None ==> d.max_bytes == m.tmpfs_mounts.at(
                h,
            ).max_bytes
            &&& stated_opts(opts).max_inodes is None ==> d.max_inodes == m.tmpfs_mounts.at(
                h,
            ).max_inodes
            &&& d.accounted_bytes == m.tmpfs_mounts.at(h).accounted_bytes
            &&& d.used_inodes == m.tmpfs_mounts.at(h).used_inodes
        }),
{
    m.tmpfs_mounts.lemma_scan(|h: Handle, d: TmpfsMountData| d.owner_mount == mount, 0);
}

// ---- mappings ----------------------------------------------------------------------

/// A file that someone has mapped keeps its mount from becoming read-only.
pub proof fn law_mapped_file_keeps_mount_writable(m: VfsModel, mount: Handle, flags: u32, h: Handle)
    requires
        m.tmpfs_nodes.wf(),
        m.tmpfs_nodes.has(h),
        m.tmpfs_nodes.at(h).owner_mount == mount,
        m.tmpfs_nodes.at(h).mmap_export_refs > 0,
        m.flags_of(mount) & MNT_RDONLY == 0,
        flags & MNT_RDONLY != 0,
    ensures
        m.tmp_remount_refusal(mount, flags) is Some,
{
    m.tmpfs_nodes.lemma_scan(mapped_on(mount), 0);
}

/// Counting a mapping and taking it back leaves the file as it was, unless it waited for its
/// last mapping to go.
pub proof fn law_release_undoes_acquire(m: VfsModel, fs_id: u64, ino: u64)
    requires
        m.tmpfs_nodes.wf(),
        m.tmp_node_of_inode(fs_id, ino) matches Some(h) ==> m.tmpfs_nodes.at(h).mmap_export_refs
            < u32::MAX && !(m.tmpfs_nodes.at(h).mmap_export_refs == 0 && m.tmpfs_nodes.at(
            h,
        ).pending_release),
    ensures
        m.export_counted(fs_id, ino, 1).0.export_released(fs_id, ino) == (
            m,
            m.export_counted(fs_id, ino, 1).1,
        ),
{
    if let Some(h) = m.tmp_node_of_inode(fs_id, ino) {
        let p = inode_is(m.mounts, fs_id, ino);
        let n = m.tmpfs_nodes.at(h);
        let t = m.export_counted(fs_id, ino, 1).0;
        m.tmpfs_nodes.lemma_scan(p, 0);
        assert(t.tmpfs_nodes.wf()) by {
            assert forall|g: Handle| #[trigger] t.tmpfs_nodes.live.contains_key(g) implies g.slot
                < t.tmpfs_nodes.epochs.len() && t.tmpfs_nodes.epochs[g.slot as int] == g.epoch by {
                assert(m.tmpfs_nodes.live.contains_key(g));
            }
        }
        t.tmpfs_nodes.lemma_scan(p, 0);
        assert(t.tmpfs_nodes.has(h) && p(h, t.tmpfs_nodes.at(h)));
        let g = t.tmpfs_nodes.scan(p, 0)->0;
        assert(m.tmpfs_nodes.has(g));
        if g != h {
            assert(p(g, m.tmpfs_nodes.at(g)));
            assert(g.slot != h.slot) by {
                assert(m.tmpfs_nodes.live.contains_key(g) && m.tmpfs_nodes.live.contains_key(h));
            }
        }
        assert(t.tmpfs_nodes.put(h, n).live =~= m.tmpfs_nodes.live);
        assert(t.tmpfs_nodes.put(h, n) == m.tmpfs_nodes);
    }
}

// ---- unmounting --------------------------------------------------------------------

/// A sweep from slot `i` on takes the nodes of the mount that lie there, and nothing of
/// another mount.
proof fn lemma_swept(m: VfsModel, mount: Handle, i: int, h: Handle, d: Handle, t: Handle)
    requires
        m.tmpfs_nodes.wf(),
        m.tmpfs_mounts.wf(),
        0 <= i,
        forall|o: Handle| #[trigger]
            m.tmpfs_nodes.has(o) && m.tmpfs_nodes.at(o).owner_mount == mount ==> m.tmpfs_nodes.at(
                o,
            ).symlink != t || !t.is_valid(),
    ensures
        ({
            let s = m.tmp_swept(mount, i);
            &&& s.tmpfs_nodes.wf() && s.tmpfs_mounts.wf()
            &&& s.tmpfs_nodes.entry(h) == if m.tmpfs_nodes.has(h) && (h.slot < i
                || m.tmpfs_nodes.at(h).owner_mount != mount) {
                Some(m.tmpfs_nodes.at(h))
            } else {
                None
            }
            &&& s.tmpfs_mounts.has(d) == m.tmpfs_mounts.has(d)
            &&& m.tmpfs_mounts.has(d) ==> s.tmpfs_mounts.at(d).owner_mount == m.tmpfs_mounts.at(
                d,
            ).owner_mount
            &&& m.tmpfs_mounts.has(d) && m.tmpfs_mounts.at(d).owner_mount != mount
                ==> s.tmpfs_mounts.at(d) == m.tmpfs_mounts.at(d)
            &&& t.is_valid() ==> s.tmpfs_symlinks.entry(t) == m.tmpfs_symlinks.entry(t)
            &&& s.vnodes == m.vnodes
            &&& s.mounts == m.mounts
            &&& s.clients == m.clients
            &&& s.boot_entries == m.boot_entries
        }),
    decreases m.tmpfs_nodes.epochs.len() - i,
{
    if i < m.tmpfs_nodes.epochs.len() {
        let x = m.tmpfs_nodes.handle_at(i);
        if m.tmpfs_nodes.has(x) && m.tmpfs_nodes.at(x).owner_mount == mount {
            let n = m.tmpfs_nodes.at(x);
            m.tmpfs_mounts.lemma_scan(|y: Handle, r: TmpfsMountData| r.owner_mount == mount, 0);
            let dropped = m.tmp_node_dropped(x);
            let next = VfsModel {
                tmpfs_entries: entries_left(m.tmpfs_entries, n.children.len()),
                ..dropped
            };
            assert(next.tmpfs_nodes.live =~= m.tmpfs_nodes.live.remove(x));
            assert(next.tmpfs_nodes.epochs == m.tmpfs_nodes.epochs.update(
                i,
                x.epoch.wrapping_add(1),
            ));
            assert(next.tmpfs_nodes.wf());
            assert(next.tmpfs_mounts.wf());
            assert(next.tmpfs_mounts.has(d) == m.tmpfs_mounts.has(d));
            assert(t.is_valid() ==> next.tmpfs_symlinks.entry(t) == m.tmpfs_symlinks.entry(t));
            assert forall|o: Handle| #[trigger]
                next.tmpfs_nodes.has(o) && next.tmpfs_nodes.at(o).owner_mount
                    == mount implies next.tmpfs_nodes.at(o).symlink != t || !t.is_valid() by {
                assert(m.tmpfs_nodes.has(o));
            }
            lemma_swept(next, mount, i + 1, h, d, t);
        } else {
            lemma_swept(m, mount, i + 1, h, d, t);
        }
    }
}

proof fn lemma_nothing_swept(m: VfsModel, mount: Handle, i: int)
    requires
        0 <= i,
        forall|h: Handle| #[trigger]
            m.tmpfs_nodes.has(h) ==> m.tmpfs_nodes.at(h).owner_mount != mount,
    ensures
        m.tmp_swept(mount, i) == m,
    decreases m.tmpfs_nodes.epochs.len() - i,
{
    if i < m.tmpfs_nodes.epochs.len() {
        lemma_nothing_swept(m, mount, i + 1);
    }
}

/// Of a mount that was taken away nothing is left, neither a node with its names nor a record.
/// Nodes with their names, link targets and records of other mounts are as they were. Taking
/// it away once more changes nothing.
pub proof fn law_unmounted_leaves_nothing(m: VfsModel, mount: Handle)
    requires
        tmp_sound(m),
        mount.is_valid(),
    ensures
        ({
            let s = m.tmp_unmounted(mount);
            &&& forall|h: Handle| #[trigger]
                s.tmpfs_nodes.entry(h) == if m.tmpfs_nodes.has(h) && m.tmpfs_nodes.at(h).owner_mount
                    != mount {
                    Some(m.tmpfs_nodes.at(h))
                } else {
                    None
                }
            &&& forall|d: Handle| #[trigger]
                s.tmpfs_mounts.entry(d) == if m.tmpfs_mounts.has(d) && m.tmpfs_mounts.at(
                    d,
                ).owner_mount != mount {
                    Some(m.tmpfs_mounts.at(d))
                } else {
                    None
                }
            &&& s.tmp_data(mount) is None
            &&& forall|h: Handle| #[trigger]
                s.tmpfs_nodes.has(h) && m.tmpfs_nodes.at(h).symlink.is_valid()
                    ==> s.tmpfs_symlinks.entry(m.tmpfs_nodes.at(h).symlink)
                    == m.tmpfs_symlinks.entry(m.tmpfs_nodes.at(h).symlink)
            &&& s.vnodes == m.vnodes
            &&& s.mounts == m.mounts
            &&& s.clients == m.clients
            &&& s.boot_entries == m.boot_entries
            &&& s.tmp_unmounted(mount) == s
        }),
{
    let w = m.tmp_swept(mount, 0);
    let s = m.tmp_unmounted(mount);
    let none = Handle::invalid();
    let p = |y: Handle, r: TmpfsMountData| r.owner_mount == mount;
    lemma_swept(m, mount, 0, none, none, none);
    w.tmpfs_mounts.lemma_scan(p, 0);
    assert forall|h: Handle| #[trigger]
        s.tmpfs_nodes.entry(h) == if m.tmpfs_nodes.has(h) && m.tmpfs_nodes.at(h).owner_mount
            != mount {
            Some(m.tmpfs_nodes.at(h))
        } else {
            None
        } by {
        lemma_swept(m, mount, 0, h, none, none);
    }
    assert forall|d: Handle| #[trigger]
        s.tmpfs_mounts.entry(d) == if m.tmpfs_mounts.has(d) && m.tmpfs_mounts.at(d).owner_mount
            != mount {
            Some(m.tmpfs_mounts.at(d))
        } else {
            None
        } by {
        lemma_swept(m, mount, 0, none, d, none);
        if let Some(x) = w.tmp_data(mount) {
            lemma_swept(m, mount, 0, none, x, none);
            assert(m.tmpfs_mounts.has(x) && m.tmpfs_mounts.at(x).owner_mount == mount);
        }
        assert(w.tmpfs_mounts.has(d) == m.tmpfs_mounts.has(d));
    }
    assert forall|h: Handle| #[trigger]
        s.tmpfs_nodes.has(h) && m.tmpfs_nodes.at(h).symlink.is_valid() implies s.tmpfs_symlinks.entry(
        m.tmpfs_nodes.at(h).symlink,
    ) == m.tmpfs_symlinks.entry(m.tmpfs_nodes.at(h).symlink) by {
        assert(s.tmpfs_nodes.entry(h) is Some);
        assert(m.tmpfs_nodes.has(h) && m.tmpfs_nodes.at(h).owner_mount != mount);
        lemma_swept(m, mount, 0, none, none, m.tmpfs_nodes.at(h).symlink);
    }
    assert(s.tmpfs_mounts.wf());
    s.tmpfs_mounts.lemma_scan(p, 0);
    if let Some(x) = s.tmp_data(mount) {
        assert(s.tmpfs_mounts.entry(x) is Some);
    }
    assert forall|h: Handle| #[trigger] s.tmpfs_nodes.has(h) implies s.tmpfs_nodes.at(h).owner_mount
        != mount by {
        assert(s.tmpfs_nodes.entry(h) is Some);
    }
    lemma_nothing_swept(s, mount, 0);
}

} // verus!
