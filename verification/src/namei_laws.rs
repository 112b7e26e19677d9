//! What holds of every walk over a path.

use crate::arena::Handle;
use crate::backend_rpc::{Progress, RpcCore};
use crate::bootstrap::{entry_index, lemma_entry_index, WalkMode};
use crate::bytes::{same_name, SLASH};
use crate::mount::{MNT_POSIX_ONLY, MNT_WIN32_ONLY};
use crate::namei::{walk_settled, Child, LinkTarget, StandingView, WalkView};
use crate::namei_state::{BOOTSTRAP_PATH_MAX, BOOTSTRAP_SYMLINK_DEPTH_MAX};
use crate::path::{
    followed, is_absolute, link_directory, normalized, past_component,
    past_slashes,
};
use crate::state::{BootEntryView, VfsModel};
use crate::status::Status;
use crate::vnode::{Backend, VnodeType};
use vstd::prelude::*;

verus! {

/// A component of a path: it is not empty and holds no slash.
pub open spec fn is_component(name: Seq<u8>) -> bool {
    name.len() > 0 && !name.contains(SLASH)
}

/// What may follow a component: nothing, or a slash and more.
pub open spec fn follows_component(rest: Seq<u8>) -> bool {
    rest.len() > 0 ==> rest[0] == SLASH
}

/// Slashes and nothing else.
pub open spec fn only_slashes(rest: Seq<u8>) -> bool {
    forall|i: int| 0 <= i < rest.len() ==> #[trigger] rest[i] == SLASH
}

proof fn lemma_component_scanned(path: Seq<u8>, pos: int, end: int)
    requires
        0 <= pos <= end <= path.len(),
        forall|i: int| pos <= i < end ==> #[trigger] path[i] != SLASH,
        end < path.len() ==> path[end] == SLASH,
    ensures
        past_component(path, pos) == end,
    decreases end - pos,
{
    if pos < end {
        lemma_component_scanned(path, pos + 1, end);
    }
}

pub(crate) proof fn lemma_slashes_scanned(path: Seq<u8>, pos: int)
    requires
        0 <= pos <= path.len(),
    ensures
        pos <= past_slashes(path, pos) <= path.len(),
        forall|i: int| pos <= i < past_slashes(path, pos) ==> #[trigger] path[i] == SLASH,
        past_slashes(path, pos) < path.len() ==> path[past_slashes(path, pos)] != SLASH,
    decreases path.len() - pos,
{
    if pos < path.len() && path[pos] == SLASH {
        lemma_slashes_scanned(path, pos + 1);
    }
}

/// A slash is walked past: it makes no difference how many there are.
pub proof fn law_walk_passes_slashes(
    m: VfsModel,
    path: Seq<u8>,
    pos: int,
    cur: Handle,
    depth: nat,
    mode: WalkMode,
)
    requires
        0 <= pos < path.len(),
        path[pos] == SLASH,
    ensures
        m.walk_from(path, pos, cur, depth, mode) == m.walk_from(path, pos + 1, cur, depth, mode),
{
    assert(past_component(path, pos) == pos);
    lemma_slashes_scanned(path, pos);
    lemma_slashes_scanned(path, pos + 1);
    let next = past_slashes(path, pos);
    assert(next == past_slashes(path, pos + 1));
    if pos + 1 < path.len() && path[pos + 1] == SLASH {
        assert(past_component(path, pos + 1) == pos + 1);
    }
}

/// A walk that has nothing more to walk ends where it stands.
pub proof fn law_walk_ends_where_it_stands(
    m: VfsModel,
    path: Seq<u8>,
    cur: Handle,
    depth: nat,
    mode: WalkMode,
)
    ensures
        m.walk_from(path, path.len() as int, cur, depth, mode) == WalkView::End(Some(cur)),
{
}

/// A walk over a whole path starts at the root of the root mount; the empty path is the root.
pub proof fn law_walk_starts_at_the_root(m: VfsModel, path: Seq<u8>, depth: nat, mode: WalkMode)
    requires
        m.mounts.has(m.root_mount),
        depth <= BOOTSTRAP_SYMLINK_DEPTH_MAX,
    ensures
        m.walk_path(path, depth, mode) == m.walk_from(
            path,
            0,
            m.mounts.at(m.root_mount).root_vnode,
            depth,
            mode,
        ),
        path.len() == 0 ==> m.walk_path(path, depth, mode) == WalkView::End(
            Some(m.mounts.at(m.root_mount).root_vnode),
        ),
{
    let root = m.mounts.at(m.root_mount).root_vnode;
    if path.len() > 0 {
        lemma_slashes_scanned(path, 0);
        if path[0] == SLASH {
            assert(past_component(path, 0) == 0);
            if path == seq![SLASH] {
                assert(past_slashes(path, 0) == past_slashes(path, 1));
                assert(m.walk_from(path, 1, root, depth, mode) == WalkView::End(Some(root)));
            }
        } else {
            assert(past_slashes(path, 0) == 0);
        }
    }
}

/// A component is looked up in the directory that the walk stands on. Where there is nothing,
/// the walk ends at nothing; where the disk must be asked, it stops before the component; and
/// from what is found it goes on with the rest of the path.
pub proof fn law_walk_goes_down(
    m: VfsModel,
    head: Seq<u8>,
    name: Seq<u8>,
    rest: Seq<u8>,
    cur: Handle,
    depth: nat,
    mode: WalkMode,
)
    requires
        is_component(name),
        follows_component(rest),
    ensures
        ({
            let path = head + name + rest;
            let pos = head.len() as int;
            let w = m.walk_from(path, pos, cur, depth, mode);
            match m.entry_in(cur, name, mode.fold) {
                Child::Missing => w == WalkView::End(None),
                Child::Error(e) => w == WalkView::Error(e),
                Child::Ask => w == (WalkView::AskChild {
                    dir: cur,
                    at: StandingView { path, start: pos, depth },
                }),
                Child::Found(c) => match m.crossed(c, mode) {
                    None => w == WalkView::End(None),
                    Some(v) => m.vnodes.at(v).vtype != VnodeType::Lnk ==> w == m.walk_from(
                        path,
                        pos + name.len(),
                        v,
                        depth,
                        mode,
                    ),
                },
            }
        }),
{
    let path = head + name + rest;
    let pos = head.len() as int;
    let end = pos + name.len();
    lemma_component_of(head, name, rest);
    lemma_slashes_scanned(path, end);
    if end < path.len() {
        assert(past_component(path, end) == end);
    }
}

pub(crate) proof fn lemma_component_of(head: Seq<u8>, name: Seq<u8>, rest: Seq<u8>)
    requires
        is_component(name),
        follows_component(rest),
    ensures
        past_component(head + name + rest, head.len() as int) == head.len() + name.len(),
        (head + name + rest).subrange(head.len() as int, (head.len() + name.len()) as int) == name,
{
    let path = head + name + rest;
    let pos = head.len() as int;
    let end = pos + name.len();
    assert forall|i: int| pos <= i < end implies #[trigger] path[i] != SLASH by {
        assert(path[i] == name[i - pos]);
    }
    assert(end < path.len() ==> path[end] == rest[0]);
    lemma_component_scanned(path, pos, end);
    assert(path.subrange(pos, end) =~= name);
}

/// A link is followed with the rest of the path: the walk over `head`, the link and `rest` ends
/// where the walk over the link's target and `rest` ends, with the target taken from the
/// directory of the link unless it is absolute. Only where the link is the last component and
/// links at the end are not followed does the walk end at the link itself; and it follows no
/// more links than there may be.
pub proof fn law_link_leads_on_with_the_rest(
    m: VfsModel,
    head: Seq<u8>,
    name: Seq<u8>,
    rest: Seq<u8>,
    cur: Handle,
    depth: nat,
    mode: WalkMode,
    c: Handle,
    v: Handle,
)
    requires
        is_component(name),
        follows_component(rest),
        only_slashes(rest) || rest[1] != SLASH,
        head.len() > 0,
        head[0] == SLASH,
        head.last() == SLASH,
        head.len() > 1 ==> head[head.len() - 2] != SLASH,
        m.entry_in(cur, name, mode.fold) == Child::Found(c),
        m.crossed(c, mode) == Some(v),
        m.vnodes.at(v).vtype == VnodeType::Lnk,
        m.vnodes.at(v).data.is_valid(),
        m.blobs.has(m.vnodes.at(v).data),
        m.vnodes.at(v).size == m.blobs.at(m.vnodes.at(v).data).len(),
        0 < m.vnodes.at(v).size <= BOOTSTRAP_PATH_MAX,
        m.blobs.at(m.vnodes.at(v).data).last() != SLASH,
    ensures
        ({
            let w = m.walk_from(head + name + rest, head.len() as int, cur, depth, mode);
            let t = m.blobs.at(m.vnodes.at(v).data);
            let from = if t[0] == SLASH {
                Seq::<u8>::empty()
            } else {
                head
            };
            let behind = if only_slashes(rest) {
                Seq::<u8>::empty()
            } else {
                rest
            };
            if only_slashes(rest) && !mode.follow {
                w == WalkView::End(Some(v))
            } else if depth >= BOOTSTRAP_SYMLINK_DEPTH_MAX {
                w == WalkView::End(None)
            } else {
                match normalized(from + t + behind) {
                    Some(p) => w == m.walk_path(p, depth + 1, mode),
                    None => w == WalkView::End(None),
                }
            }
        }),
{
    let path = head + name + rest;
    let pos = head.len() as int;
    let end = pos + name.len();
    lemma_component_of(head, name, rest);
    lemma_slashes_scanned(path, end);
    let next = past_slashes(path, end);
    if only_slashes(rest) {
        if next < path.len() {
            assert(path[next] == rest[next - end]);
        }
        assert(path.skip(next) =~= Seq::<u8>::empty());
    } else {
        assert(rest.len() > 1) by {
            if rest.len() == 1 {
                assert(only_slashes(rest));
            }
        }
        assert(path[end] == rest[0]);
        assert(path[end + 1] == rest[1]);
        assert(next == end + 1);
        assert(path.skip(next) =~= rest.skip(1));
        assert(rest =~= seq![SLASH] + rest.skip(1));
    }
    let vn = m.vnodes.at(v);
    let t = m.blobs.at(vn.data);
    assert(m.target_of(v) == LinkTarget::Stored);
    assert(m.link_bytes(vn)->0 =~= t);
    assert(link_directory(path, pos) =~= head) by {
        if pos > 1 {
            assert(path.take(pos - 1) =~= head.take(pos - 1));
            assert(head =~= head.take(pos - 1) + seq![SLASH]);
        } else {
            assert(path.take(1) =~= head);
        }
    }
    let from = if is_absolute(t) {
        Seq::<u8>::empty()
    } else {
        head
    };
    let behind = if only_slashes(rest) {
        Seq::<u8>::empty()
    } else {
        rest
    };
    let whole = from + t + behind;
    let tail = path.skip(next);
    let a = from + t;
    assert(a.last() == t.last());
    assert(a.len() > 1) by {
        if t.len() == 1 {
            assert(t.last() == t[0]);
        }
    }
    if only_slashes(rest) {
        assert(whole =~= a);
    } else {
        assert(a + seq![SLASH] + tail =~= whole);
    }
    assert(whole[0] == SLASH);
    assert(m.led_to(v, path, pos, next) == followed(from, t, tail));
}

/// A link whose target, with the rest of the path behind it, is a plain absolute path ends
/// where that path ends.
pub proof fn law_absolute_link_stands_for_its_target(
    m: VfsModel,
    head: Seq<u8>,
    name: Seq<u8>,
    rest: Seq<u8>,
    cur: Handle,
    depth: nat,
    mode: WalkMode,
    c: Handle,
    v: Handle,
)
    requires
        is_component(name),
        rest.len() > 1,
        rest[0] == SLASH,
        rest[1] != SLASH,
        head.len() > 0,
        head[0] == SLASH,
        head.last() == SLASH,
        head.len() > 1 ==> head[head.len() - 2] != SLASH,
        depth < BOOTSTRAP_SYMLINK_DEPTH_MAX,
        m.entry_in(cur, name, mode.fold) == Child::Found(c),
        m.crossed(c, mode) == Some(v),
        m.vnodes.at(v).vtype == VnodeType::Lnk,
        m.vnodes.at(v).data.is_valid(),
        m.blobs.has(m.vnodes.at(v).data),
        m.vnodes.at(v).size == m.blobs.at(m.vnodes.at(v).data).len(),
        0 < m.vnodes.at(v).size <= BOOTSTRAP_PATH_MAX,
        m.blobs.at(m.vnodes.at(v).data)[0] == SLASH,
        m.blobs.at(m.vnodes.at(v).data).last() != SLASH,
        normalized(m.blobs.at(m.vnodes.at(v).data) + rest) == Some(
            m.blobs.at(m.vnodes.at(v).data) + rest,
        ),
    ensures
        m.walk_from(head + name + rest, head.len() as int, cur, depth, mode) == m.walk_path(
            m.blobs.at(m.vnodes.at(v).data) + rest,
            depth + 1,
            mode,
        ),
{
    law_link_leads_on_with_the_rest(m, head, name, rest, cur, depth, mode, c, v);
    let t = m.blobs.at(m.vnodes.at(v).data);
    assert(!only_slashes(rest)) by {
        assert(rest[1] != SLASH);
    }
    assert(Seq::<u8>::empty() + t + rest =~= t + rest);
}

/// What a walk finds under a name: the first of the names of the bootstrap tree that the
/// directory holds and that agree, and only without one what the directory's own filesystem
/// says. The disk filesystem must be asked.
pub proof fn law_tree_comes_before_filesystem(
    m: VfsModel,
    dir: Handle,
    name: Seq<u8>,
    fold: bool,
    k: int,
)
    ensures
        0 <= k < m.boot_entries.len() && m.boot_entries[k].active && m.boot_entries[k].parent == dir
            && same_name(m.boot_entries[k].name, name, fold) && (forall|j: int|
            0 <= j < k ==> !((#[trigger] m.boot_entries[j]).active && m.boot_entries[j].parent
                == dir && same_name(m.boot_entries[j].name, name, fold))) ==> m.entry_in(
            dir,
            name,
            fold,
        ) == Child::Found(m.boot_entries[k].vnode),
        (forall|j: int|
            0 <= j < m.boot_entries.len() ==> !((#[trigger] m.boot_entries[j]).active
                && m.boot_entries[j].parent == dir && same_name(
                m.boot_entries[j].name,
                name,
                fold,
            ))) ==> ({
            let r = m.entry_in(dir, name, fold);
            if !m.vnodes.has(dir) {
                r == Child::Error(Status::NotFound)
            } else {
                let vn = m.vnodes.at(dir);
                if vn.ops == Some(Backend::Tmpfs) {
                    match m.tmp_looked_up(dir, name) {
                        Ok(Some(v)) => r == Child::Found(v),
                        Ok(None) => r == Child::Missing,
                        Err(e) => r == Child::Error(e),
                    }
                } else if vn.ops == Some(Backend::Saltyfs) {
                    if vn.vtype != VnodeType::Dir {
                        r == Child::Error(Status::NotDirectory)
                    } else {
                        r == Child::Ask <==> m.salty_record(dir) is Some
                    }
                } else {
                    r == Child::Missing
                }
            }
        }),
{
    lemma_entry_index(m.boot_entries, dir, name, fold, 0);
    if 0 <= k < m.boot_entries.len() && m.boot_entries[k].active && m.boot_entries[k].parent == dir
        && same_name(m.boot_entries[k].name, name, fold) && (forall|j: int|
        0 <= j < k ==> !((#[trigger] m.boot_entries[j]).active && m.boot_entries[j].parent == dir
            && same_name(m.boot_entries[j].name, name, fold))) {
        lemma_first_entry(m.boot_entries, dir, name, fold, 0, k);
    }
}

proof fn lemma_first_entry(
    es: Seq<BootEntryView>,
    dir: Handle,
    name: Seq<u8>,
    fold: bool,
    i: int,
    k: int,
)
    requires
        0 <= i <= k < es.len(),
        es[k].active && es[k].parent == dir && same_name(es[k].name, name, fold),
        forall|j: int|
            i <= j < k ==> !((#[trigger] es[j]).active && es[j].parent == dir && same_name(
                es[j].name,
                name,
                fold,
            )),
    ensures
        entry_index(es, dir, name, fold, i) == Some(k),
    decreases k - i,
{
    if i < k {
        lemma_first_entry(es, dir, name, fold, i + 1, k);
    }
}

/// A walk that reaches a vnode stands on it, unless a mount covers it: then it stands on the
/// root of that mount, if the mount is not for the other personality only.
pub proof fn law_walk_crosses_mounts(m: VfsModel, v: Handle, mode: WalkMode)
    requires
        m.vnodes.has(v),
    ensures
        ({
            let cover = m.vnodes.at(v).covered_by;
            &&& cover.id.0 == 0 ==> m.crossed(v, mode) == Some(v)
            &&& cover.id.0 != 0 && m.mounts.has(cover.handle) && m.mounts.wf() ==> {
                let mt = m.mounts.at(cover.handle);
                if (mode.skip_posix_only && mt.flags & MNT_POSIX_ONLY != 0) || (mode.skip_win32_only
                    && mt.flags & MNT_WIN32_ONLY != 0) {
                    m.crossed(v, mode) == Some(v)
                } else if m.vnodes.has(mt.root_vnode) {
                    m.crossed(v, mode) == Some(mt.root_vnode)
                } else {
                    m.crossed(v, mode) is None
                }
            }
        }),
{
    let cover = m.vnodes.at(v).covered_by;
    if m.mounts.has(cover.handle) && m.mounts.wf() {
        assert(m.mounts.live.contains_key(cover.handle));
    }
}

/// Where a walk ended is what its caller gets, and what it failed with, without anything left
/// to wait for. A walk that must ask the disk ends with a call in the queue, or with the error
/// that there is no room for one.
pub proof fn law_walk_is_answered(
    m: VfsModel,
    pre: &RpcCore,
    post: &RpcCore,
    r: Result<Progress<Option<Handle>>, Status>,
    w: WalkView,
    mode: WalkMode,
)
    requires
        walk_settled(m, pre, post, r, w, mode),
    ensures
        match w {
            WalkView::End(v) => r == Ok::<Progress<Option<Handle>>, Status>(Progress::Complete(v))
                && post.jobs@ == pre.jobs@ && post.pool@ == pre.pool@,
            WalkView::Error(e) => r == Err::<Progress<Option<Handle>>, Status>(e) && post.jobs@
                == pre.jobs@ && post.pool@ == pre.pool@,
            _ => match r {
                Ok(Progress::Deferred { op, worker: _ }) => post.jobs@.len() == pre.jobs@.len() + 1
                    && post.jobs@.last().op_id == op.0 && post.jobs@.drop_last() == pre.jobs@,
                Ok(_) => false,
                Err(e) => e == Status::OutOfMemory && post.jobs@ == pre.jobs@,
            },
        },
{
    if let Ok(Progress::Deferred { op: _, worker: _ }) = r {
        assert(post.jobs@.drop_last() =~= pre.jobs@);
    }
}

} // verus!
