//! Walking paths over every filesystem. Where a disk must be asked the walk stops, is kept,
//! and goes on when the disk server has answered.

use crate::arena::{packed, Handle};
use crate::backend_rpc::{
    BackendOpKind, Progress, RpcCore, BACKEND_OP_SALTYFS_LOOKUP_CHILD,
    BACKEND_OP_SALTYFS_READLINK,
};
use crate::bootstrap::{boot_child, WalkMode};
use crate::bytes::{copy_prefix, cut, prefix, SLASH};
use crate::continuation::done_state;
use crate::fs::saltyfs::kept_name;
use crate::fs::saltyfs_done::{keep_walk, kept_walk, with_walk};
use crate::fs::saltyfs_ops;
use crate::fs::saltyfs_ops::{
    asks_lookup, asks_readlink, call_fits, call_noted, job_queued, no_disk_call, two_words,
};
use crate::fs::tmpfs_dir;
use crate::fs::tmpfs_file;
use crate::namei_state::{
    namei_aux_none, NameiResumeAux, NameiResumeState, ResumeView, BOOTSTRAP_PATH_MAX,
    BOOTSTRAP_SYMLINK_DEPTH_MAX, NAMEI_STEP_AFTER_ENSURE_SYMLINK, NAMEI_STEP_AFTER_LOOKUP_CHILD,
};
use crate::path::{
    component_end, compose_dynamic_symlink_path, followed, is_absolute, lemma_scan_bounds,
    link_directory, past_component, past_slashes, skip_slashes,
};
use crate::pending_ops::{
    pool_wf, OwnerPool, PayloadView, PendingOpId, PoolView, MAX_PAYLOAD_BUFS,
    PO_KIND_BACKEND_RPC,
};
use crate::state::{VfsModel, VfsState};
use crate::status::Status;
use crate::vnode::{Backend, Vnode, VnodeType};
use vstd::prelude::*;
use vstd::slice::slice_to_vec;

verus! {

// ---- the walk ----------------------------------------------------------------------

/// Where a walk stands that must ask a disk: the path it walks now, where in the path the
/// component starts, and how many links it has followed.
pub struct Standing {
    pub path: Vec<u8>,
    pub start: usize,
    pub depth: u8,
}

/// Value of a [`Standing`].
#[verifier::ext_equal]
pub struct StandingView {
    pub path: Seq<u8>,
    pub start: int,
    pub depth: nat,
}

impl View for Standing {
    type V = StandingView;

    open spec fn view(&self) -> StandingView {
        StandingView { path: self.path@, start: self.start as int, depth: self.depth as nat }
    }
}

/// How a walk ends.
pub enum Walk {
    /// At a vnode, or at nothing.
    End(Option<Handle>),
    /// With an error.
    Error(Status),
    /// The disk must be asked for the component in directory `dir`.
    AskChild { dir: Handle, at: Standing },
    /// The disk must be asked what link `link`, found in directory `dir`, leads to.
    AskLink { link: Handle, dir: Handle, at: Standing },
}

/// Value of a [`Walk`].
#[verifier::ext_equal]
pub enum WalkView {
    End(Option<Handle>),
    Error(Status),
    AskChild { dir: Handle, at: StandingView },
    AskLink { link: Handle, dir: Handle, at: StandingView },
}

impl View for Walk {
    type V = WalkView;

    open spec fn view(&self) -> WalkView {
        match self {
            Walk::End(v) => WalkView::End(*v),
            Walk::Error(e) => WalkView::Error(*e),
            Walk::AskChild { dir, at } => WalkView::AskChild { dir: *dir, at: at@ },
            Walk::AskLink { link, dir, at } => WalkView::AskLink {
                link: *link,
                dir: *dir,
                at: at@,
            },
        }
    }
}

/// What a directory says of a name.
#[derive(Clone, Copy, PartialEq, Eq, Structural, Debug)]
pub enum Child {
    Found(Handle),
    Missing,
    Error(Status),
    /// The disk must be asked.
    Ask,
}

/// What is known of where a link leads.
#[derive(Clone, Copy, PartialEq, Eq, Structural, Debug)]
pub enum LinkTarget {
    /// It is stored with the vnode.
    Stored,
    /// There is a target, but not where a walk can follow it.
    Apart,
    /// There is none.
    Absent,
    /// The disk must be asked.
    Ask,
}

impl VfsModel {
    /// What directory `dir` says of `name`, through the filesystem that serves it. Only the
    /// in-memory filesystem and the disk filesystem look names up.
    pub open spec fn child_in(self, dir: Handle, name: Seq<u8>) -> Child {
        match self.vnodes.entry(dir) {
            None => Child::Error(Status::NotFound),
            Some(vn) => match vn.ops {
                Some(Backend::Tmpfs) => match self.tmp_looked_up(dir, name) {
                    Ok(Some(v)) => Child::Found(v),
                    Ok(None) => Child::Missing,
                    Err(e) => Child::Error(e),
                },
                Some(Backend::Saltyfs) => if vn.vtype != VnodeType::Dir {
                    Child::Error(Status::NotDirectory)
                } else if self.salty_record(dir) is None {
                    Child::Missing
                } else {
                    Child::Ask
                },
                _ => Child::Missing,
            },
        }
    }

    /// What the entry `name` of directory `dir` is: what the bootstrap tree has there, or
    /// else what the filesystem says.
    pub open spec fn entry_in(self, dir: Handle, name: Seq<u8>, fold: bool) -> Child {
        match boot_child(self.boot_entries, dir, name, fold) {
            Some(c) => Child::Found(c),
            None => self.child_in(dir, name),
        }
    }

    /// What is known of where link `v` leads.
    pub open spec fn target_of(self, v: Handle) -> LinkTarget {
        let vn = self.vnodes.at(v);
        if vn.data.is_valid() {
            LinkTarget::Stored
        } else {
            match vn.ops {
                Some(Backend::Tmpfs) => match self.tmp_node_of(v) {
                    Some(h) => if self.tmpfs_nodes.at(h).kind == VnodeType::Lnk
                        && self.tmpfs_nodes.at(h).symlink.is_valid() {
                        LinkTarget::Apart
                    } else {
                        LinkTarget::Absent
                    },
                    None => LinkTarget::Absent,
                },
                Some(Backend::Saltyfs) => if self.salty_record(v) is Some {
                    LinkTarget::Ask
                } else {
                    LinkTarget::Absent
                },
                _ => LinkTarget::Absent,
            }
        }
    }

    /// The path that link `v`, met at `start` of `path`, leads to, with the rest of the
    /// path from `next` on behind it.
    pub open spec fn led_to(self, v: Handle, path: Seq<u8>, start: int, next: int) -> Option<
        Seq<u8>,
    > {
        match self.link_bytes(self.vnodes.at(v)) {
            None => None,
            Some(t) => followed(
                if is_absolute(t) {
                    Seq::empty()
                } else {
                    link_directory(path, start)
                },
                t,
                path.skip(next),
            ),
        }
    }

    /// How the walk ends that stands on `cur` with `path` walked up to `pos` after `depth`
    /// links. It follows no more links than there may be.
    pub open spec fn walk_from(
        self,
        path: Seq<u8>,
        pos: int,
        cur: Handle,
        depth: nat,
        mode: WalkMode,
    ) -> WalkView
        decreases BOOTSTRAP_SYMLINK_DEPTH_MAX + 1 - depth, path.len() - pos,
    {
        if !(0 <= pos < path.len()) {
            WalkView::End(Some(cur))
        } else {
            let end = past_component(path, pos);
            let next = past_slashes(path, end);
            proof {
                lemma_scan_bounds(path, pos);
                lemma_scan_bounds(path, end);
                lemma_scan_bounds(path, pos + 1);
            }
            let at = StandingView { path, start: pos, depth };
            if end == pos {
                self.walk_from(path, next, cur, depth, mode)
            } else {
                match self.entry_in(cur, path.subrange(pos, end), mode.fold) {
                    Child::Missing => WalkView::End(None),
                    Child::Error(e) => WalkView::Error(e),
                    Child::Ask => WalkView::AskChild { dir: cur, at },
                    Child::Found(c) => match self.crossed(c, mode) {
                        None => WalkView::End(None),
                        Some(v) => if self.vnodes.at(v).vtype != VnodeType::Lnk {
                            self.walk_from(path, next, v, depth, mode)
                        } else {
                            let last = next >= path.len() && !mode.follow;
                            match self.target_of(v) {
                                LinkTarget::Absent => WalkView::End(None),
                                LinkTarget::Ask => WalkView::AskLink { link: v, dir: cur, at },
                                LinkTarget::Apart => WalkView::End(
                                    if last {
                                        Some(v)
                                    } else {
                                        None
                                    },
                                ),
                                LinkTarget::Stored => if last {
                                    WalkView::End(Some(v))
                                } else if depth >= BOOTSTRAP_SYMLINK_DEPTH_MAX {
                                    WalkView::End(None)
                                } else {
                                    match self.led_to(v, path, pos, next) {
                                        None => WalkView::End(None),
                                        Some(p) => self.walk_path(p, depth + 1, mode),
                                    }
                                },
                            }
                        },
                    },
                }
            }
        }
    }

    /// How the walk over `path` ends that starts at the root after `depth` links.
    pub open spec fn walk_path(self, path: Seq<u8>, depth: nat, mode: WalkMode) -> WalkView
        decreases BOOTSTRAP_SYMLINK_DEPTH_MAX + 1 - depth, path.len() + 1,
    {
        if depth > BOOTSTRAP_SYMLINK_DEPTH_MAX {
            WalkView::End(None)
        } else {
            match self.root_vnode() {
                None => WalkView::End(None),
                Some(root) => if path.len() == 0 || path == seq![SLASH] {
                    WalkView::End(Some(root))
                } else {
                    proof {
                        lemma_scan_bounds(path, 0);
                    }
                    self.walk_from(path, past_slashes(path, 0), root, depth, mode)
                },
            }
        }
    }
}

/// What a directory says of a name, through the filesystem that serves it.
fn child_in(state: &VfsState, dir: Handle, name: &[u8]) -> (r: Child)
    ensures
        r == state@.child_in(dir, name@),
{
    let vn: Vnode = match state.vnodes.get(dir) {
        Some(vn) => *vn,
        None => {
            return Child::Error(Status::NotFound);
        },
    };
    match vn.ops {
        Some(Backend::Tmpfs) => match tmpfs_dir::lookup_child(state, dir, name) {
            Ok(Some(v)) => Child::Found(v),
            Ok(None) => Child::Missing,
            Err(e) => Child::Error(e),
        },
        Some(Backend::Saltyfs) => if vn.vtype != VnodeType::Dir {
            Child::Error(Status::NotDirectory)
        } else if crate::fs::saltyfs::mount_data_for_vnode(state, dir).is_none() {
            Child::Missing
        } else {
            Child::Ask
        },
        _ => Child::Missing,
    }
}

fn entry_in(state: &VfsState, dir: Handle, name: &[u8], fold: bool) -> (r: Child)
    ensures
        r == state@.entry_in(dir, name@, fold),
{
    match state.bootstrap_lookup_child_with_case(dir, name, fold) {
        Some(c) => Child::Found(c),
        None => child_in(state, dir, name),
    }
}

fn target_of(state: &VfsState, v: Handle, vn: &Vnode) -> (r: LinkTarget)
    requires
        *vn == state@.vnodes.at(v),
    ensures
        r == state@.target_of(v),
{
    if vn.data.is_valid() {
        return LinkTarget::Stored;
    }
    match vn.ops {
        Some(Backend::Tmpfs) => if tmpfs_file::ensure_symlink_target(state, v) {
            LinkTarget::Apart
        } else {
            LinkTarget::Absent
        },
        Some(Backend::Saltyfs) => if crate::fs::saltyfs::mount_data_for_vnode(state, v).is_some() {
            LinkTarget::Ask
        } else {
            LinkTarget::Absent
        },
        _ => LinkTarget::Absent,
    }
}

fn led_to(state: &VfsState, vn: &Vnode, path: &[u8], start: usize, next: usize, Ghost(v): Ghost<
    Handle,
>) -> (r: Option<Vec<u8>>)
    requires
        *vn == state@.vnodes.at(v),
        path@.len() >= 1,
        start <= path@.len(),
        next <= path@.len(),
    ensures
        match r {
            Some(p) => state@.led_to(v, path@, start as int, next as int) == Some(p@),
            None => state@.led_to(v, path@, start as int, next as int) is None,
        },
{
    let target = match state.read_link_bytes(vn) {
        Some(t) => t,
        None => {
            return None;
        },
    };
    let tail = cut(path, next, path.len());
    assert(tail@ =~= path@.skip(next as int));
    compose_dynamic_symlink_path(path, start, target.as_slice(), tail)
}

fn stand(path: &[u8], start: usize, depth: u8) -> (r: Standing)
    ensures
        r@ == (StandingView { path: path@, start: start as int, depth: depth as nat }),
{
    Standing { path: slice_to_vec(path), start, depth }
}

/// Walks on from a vnode.
pub fn walk_from(
    state: &VfsState,
    path: &[u8],
    pos: usize,
    current: Handle,
    depth: u8,
    mode: WalkMode,
) -> (r: Walk)
    ensures
        r@ == state@.walk_from(path@, pos as int, current, depth as nat, mode),
    decreases BOOTSTRAP_SYMLINK_DEPTH_MAX + 1 - depth, 0int,
{
    let mut at: usize = pos;
    let mut cur: Handle = current;
    while at < path.len()
        invariant
            state@.walk_from(path@, pos as int, current, depth as nat, mode) == state@.walk_from(
                path@,
                at as int,
                cur,
                depth as nat,
                mode,
            ),
        decreases path@.len() - at,
    {
        proof {
            lemma_scan_bounds(path@, at as int);
            lemma_scan_bounds(path@, past_component(path@, at as int));
            lemma_scan_bounds(path@, at + 1);
        }
        let end: usize = component_end(path, at);
        let next: usize = skip_slashes(path, end);
        if end == at {
            at = next;
            continue;
        }
        let child: Handle = match entry_in(state, cur, cut(path, at, end), mode.fold) {
            Child::Found(c) => c,
            Child::Missing => {
                return Walk::End(None);
            },
            Child::Error(e) => {
                return Walk::Error(e);
            },
            Child::Ask => {
                return Walk::AskChild { dir: cur, at: stand(path, at, depth) };
            },
        };
        let v: Handle = match state.cross_mount(child, mode) {
            Some(v) => v,
            None => {
                return Walk::End(None);
            },
        };
        let vn: Vnode = match state.vnodes.get(v) {
            Some(vn) => *vn,
            None => {
                return Walk::End(None);
            },
        };
        if vn.vtype == VnodeType::Lnk {
            let last: bool = next >= path.len() && !mode.follow;
            match target_of(state, v, &vn) {
                LinkTarget::Absent => {
                    return Walk::End(None);
                },
                LinkTarget::Ask => {
                    return Walk::AskLink { link: v, dir: cur, at: stand(path, at, depth) };
                },
                LinkTarget::Apart => {
                    return Walk::End(
                        if last {
                            Some(v)
                        } else {
                            None
                        },
                    );
                },
                LinkTarget::Stored => {
                    if last {
                        return Walk::End(Some(v));
                    }
                    if depth >= BOOTSTRAP_SYMLINK_DEPTH_MAX {
                        return Walk::End(None);
                    }
                    return match led_to(state, &vn, path, at, next, Ghost(v)) {
                        Some(p) => walk_path(state, p.as_slice(), depth + 1, mode),
                        None => Walk::End(None),
                    };
                },
            }
        }
        cur = v;
        at = next;
    }
    Walk::End(Some(cur))
}

/// Walks a path from the root.
pub fn walk_path(state: &VfsState, path: &[u8], depth: u8, mode: WalkMode) -> (r: Walk)
    ensures
        r@ == state@.walk_path(path@, depth as nat, mode),
    decreases BOOTSTRAP_SYMLINK_DEPTH_MAX + 1 - depth, 1int,
{
    if depth > BOOTSTRAP_SYMLINK_DEPTH_MAX {
        return Walk::End(None);
    }
    let root: Handle = match state.root_vnode() {
        Some(r) => r,
        None => {
            return Walk::End(None);
        },
    };
    if path.len() == 0 {
        return Walk::End(Some(root));
    }
    if path.len() == 1 && path[0] == SLASH {
        assert(path@ =~= seq![SLASH]);
        return Walk::End(Some(root));
    }
    let pos: usize = skip_slashes(path, 0);
    walk_from(state, path, pos, root, depth, mode)
}

// ---- keeping a walk ----------------------------------------------------------------

/// What a walk that stopped keeps.
pub open spec fn stopped(at: StandingView, dir: Handle, mode: WalkMode, step: u8) -> ResumeView {
    ResumeView {
        path: prefix(at.path, BOOTSTRAP_PATH_MAX as int),
        pos: at.start as u16,
        depth: at.depth as u8,
        follow_final_symlink: mode.follow,
        ignore_case: mode.fold,
        skip_posix_only: mode.skip_posix_only,
        skip_win32_only: mode.skip_win32_only,
        resume_step: step,
        current: dir,
        aux: NameiResumeAux::Nothing,
    }
}

/// The component that a walk stands before.
pub open spec fn component_before(at: StandingView) -> Seq<u8> {
    at.path.subrange(at.start, past_component(at.path, at.start))
}

/// A walk waits for the disk: operation `op` keeps it as `walk` and `worker` makes the call.
pub open spec fn walk_waits(
    pre: &RpcCore,
    post: &RpcCore,
    op: PendingOpId,
    worker: usize,
    kind: BackendOpKind,
    cap: u64,
    data: Seq<u64>,
    current: Handle,
    walk: ResumeView,
) -> bool {
    &&& job_queued(pre, post, op, worker, kind, cap, data)
    &&& kept_walk(post.pool@, op) == Some(walk)
    &&& call_noted(
        pre.pool@,
        with_walk(post.pool@, op, done_state(current, NameiResumeAux::Nothing)),
        op,
        PO_KIND_BACKEND_RPC,
        current,
        None,
    )
}

/// Neither an operation nor a job was added or taken.
pub open spec fn rpc_same(pre: &RpcCore, post: &RpcCore) -> bool {
    RpcCore::queue_unchanged(pre, post) && post.pool@ == pre.pool@
}

/// What is made of a walk that ended as `w`: its end, its error, or a call to the disk
/// server with the walk kept for the answer. Without room for the call it is
/// `OutOfMemory`, with nothing kept.
pub open spec fn walk_settled(
    m: VfsModel,
    pre: &RpcCore,
    post: &RpcCore,
    r: Result<Progress<Option<Handle>>, Status>,
    w: WalkView,
    mode: WalkMode,
) -> bool {
    match w {
        WalkView::End(v) => r matches Ok(Progress::Complete(x)) && x == v && rpc_same(pre, post),
        WalkView::Error(e) => r matches Err(x) && x == e && rpc_same(pre, post),
        WalkView::AskChild { dir, at } => if call_fits(pre, false) {
            let name = kept_name(component_before(at));
            &&& r matches Ok(Progress::Deferred { op, worker })
            &&& walk_waits(
                pre,
                post,
                op,
                worker,
                BACKEND_OP_SALTYFS_LOOKUP_CHILD,
                m.disk_cap(dir),
                two_words(packed(dir), name.len() as u64),
                Handle::invalid(),
                stopped(at, dir, mode, NAMEI_STEP_AFTER_LOOKUP_CHILD),
            )
            &&& asks_lookup(m.vnodes.at(dir).id, name)(post.jobs@.last().request)
        } else {
            r matches Err(x) && x == Status::OutOfMemory && no_disk_call(pre, post)
        },
        WalkView::AskLink { link, dir, at } => if call_fits(pre, false) {
            &&& r matches Ok(Progress::Deferred { op, worker })
            &&& walk_waits(
                pre,
                post,
                op,
                worker,
                BACKEND_OP_SALTYFS_READLINK,
                m.disk_cap(link),
                two_words(packed(link), 0),
                link,
                stopped(at, dir, mode, NAMEI_STEP_AFTER_ENSURE_SYMLINK),
            )
            &&& asks_readlink(m.vnodes.at(link).id)(post.jobs@.last().request)
        } else {
            r matches Err(x) && x == Status::OutOfMemory && no_disk_call(pre, post)
        },
    }
}

/// A walk that asks has reason to.
pub open spec fn asks_truly(m: VfsModel, w: WalkView) -> bool {
    match w {
        WalkView::AskChild { dir, at } => {
            &&& m.vnodes.has(dir)
            &&& m.vnodes.at(dir).vtype == VnodeType::Dir
            &&& m.salty_record(dir) is Some
            &&& 0 <= at.start < at.path.len()
        },
        WalkView::AskLink { link, dir, at } => {
            &&& m.vnodes.has(link)
            &&& m.vnodes.at(link).vtype == VnodeType::Lnk
            &&& !m.vnodes.at(link).data.is_valid()
            &&& m.salty_record(link) is Some
            &&& 0 <= at.start < at.path.len()
        },
        _ => true,
    }
}

impl VfsModel {
    proof fn lemma_walk_asks(self, path: Seq<u8>, pos: int, cur: Handle, depth: nat, mode: WalkMode)
        ensures
            asks_truly(self, self.walk_from(path, pos, cur, depth, mode)),
        decreases BOOTSTRAP_SYMLINK_DEPTH_MAX + 1 - depth, path.len() - pos,
    {
        if 0 <= pos < path.len() {
            let end = past_component(path, pos);
            let next = past_slashes(path, end);
            lemma_scan_bounds(path, pos);
            lemma_scan_bounds(path, end);
            lemma_scan_bounds(path, pos + 1);
            if end == pos {
                self.lemma_walk_asks(path, next, cur, depth, mode);
            } else if let Child::Found(c) = self.entry_in(
                cur,
                path.subrange(pos, end),
                mode.fold,
            ) {
                if let Some(v) = self.crossed(c, mode) {
                    if self.vnodes.at(v).vtype != VnodeType::Lnk {
                        self.lemma_walk_asks(path, next, v, depth, mode);
                    } else if depth < BOOTSTRAP_SYMLINK_DEPTH_MAX {
                        if let Some(p) = self.led_to(v, path, pos, next) {
                            self.lemma_walk_path_asks(p, depth + 1, mode);
                        }
                    }
                }
            }
        }
    }

    proof fn lemma_walk_path_asks(self, path: Seq<u8>, depth: nat, mode: WalkMode)
        ensures
            asks_truly(self, self.walk_path(path, depth, mode)),
        decreases BOOTSTRAP_SYMLINK_DEPTH_MAX + 1 - depth, path.len() + 1,
    {
        if depth <= BOOTSTRAP_SYMLINK_DEPTH_MAX {
            if let Some(root) = self.root_vnode() {
                lemma_scan_bounds(path, 0);
                self.lemma_walk_asks(path, past_slashes(path, 0), root, depth, mode);
            }
        }
    }
}

/// Has an operation keep a walk that stopped. The operation must have a payload buffer.
pub fn save_namei_resume_state(
    pool: &mut OwnerPool,
    op: PendingOpId,
    dir: Handle,
    at: &Standing,
    mode: WalkMode,
    step: u8,
)
    requires
        pool_wf(old(pool)@),
        kept_walk(old(pool)@, op) is Some,
    ensures
        pool_wf(final(pool)@),
        final(pool)@ == with_walk(old(pool)@, op, stopped(at@, dir, mode, step)),
{
    let s = NameiResumeState {
        path: copy_prefix(at.path.as_slice(), BOOTSTRAP_PATH_MAX),
        pos: at.start as u16,
        depth: at.depth,
        follow_final_symlink: mode.follow,
        ignore_case: mode.fold,
        skip_posix_only: mode.skip_posix_only,
        skip_win32_only: mode.skip_win32_only,
        resume_step: step,
        current: dir,
        aux: namei_aux_none(),
    };
    assert(s@ =~= stopped(at@, dir, mode, step));
    keep_walk(pool, op, s);
}

/// Makes of a walk what it needs: nothing, or a call to the disk server.
fn settle_walk(state: &VfsState, rpc: &mut RpcCore, w: Walk, mode: WalkMode) -> (r: Result<
    Progress<Option<Handle>>,
    Status,
>)
    requires
        old(rpc).wf(),
        asks_truly(state@, w@),
    ensures
        final(rpc).wf(),
        walk_settled(state@, old(rpc), final(rpc), r, w@, mode),
{
    match w {
        Walk::End(v) => Ok(Progress::Complete(v)),
        Walk::Error(e) => Err(e),
        Walk::AskChild { dir, at } => {
            let end: usize = component_end(at.path.as_slice(), at.start);
            let name = cut(at.path.as_slice(), at.start, end);
            match saltyfs_ops::lookup_child(state, rpc, dir, name) {
                Ok(Progress::Deferred { op, worker }) => {
                    let ghost noted = rpc.pool@;
                    save_namei_resume_state(
                        &mut rpc.pool,
                        op,
                        dir,
                        &at,
                        mode,
                        NAMEI_STEP_AFTER_LOOKUP_CHILD,
                    );
                    proof {
                        lemma_walk_put_back(noted, rpc.pool@, op, Handle::invalid());
                    }
                    Ok(Progress::Deferred { op, worker })
                },
                x => x,
            }
        },
        Walk::AskLink { link, dir, at } => match saltyfs_ops::ensure_symlink_target(
            state,
            rpc,
            link,
        ) {
            Ok(Progress::Deferred { op, worker }) => {
                let ghost noted = rpc.pool@;
                save_namei_resume_state(
                    &mut rpc.pool,
                    op,
                    dir,
                    &at,
                    mode,
                    NAMEI_STEP_AFTER_ENSURE_SYMLINK,
                );
                proof {
                    lemma_walk_put_back(noted, rpc.pool@, op, link);
                }
                Ok(Progress::Deferred { op, worker })
            },
            Ok(Progress::Complete(_)) => Ok(Progress::Complete(None)),
            Err(e) => Err(e),
        },
    }
}

proof fn lemma_walk_put_back(noted: PoolView, kept: PoolView, op: PendingOpId, current: Handle)
    requires
        pool_wf(noted),
        noted.live(op),
        noted.op(op).payload_ref < MAX_PAYLOAD_BUFS,
        noted.payloads[noted.op(op).payload_ref as int] == PayloadView::Resume(
            done_state(current, NameiResumeAux::Nothing),
        ),
        exists|s: ResumeView| kept == #[trigger] with_walk(noted, op, s),
    ensures
        with_walk(kept, op, done_state(current, NameiResumeAux::Nothing)) == noted,
{
    let s = choose|s: ResumeView| kept == #[trigger] with_walk(noted, op, s);
    assert(with_walk(kept, op, done_state(current, NameiResumeAux::Nothing)).payloads
        =~= noted.payloads);
}

/// Walks on from a vnode, asking the disk server where that is needed.
pub fn lookup_path_dynamic_walk(
    state: &VfsState,
    rpc: &mut RpcCore,
    path: &[u8],
    pos: usize,
    current: Handle,
    depth: u8,
    mode: WalkMode,
) -> (r: Result<Progress<Option<Handle>>, Status>)
    requires
        old(rpc).wf(),
    ensures
        final(rpc).wf(),
        walk_settled(
            state@,
            old(rpc),
            final(rpc),
            r,
            state@.walk_from(path@, pos as int, current, depth as nat, mode),
            mode,
        ),
{
    let w = walk_from(state, path, pos, current, depth, mode);
    proof {
        state@.lemma_walk_asks(path@, pos as int, current, depth as nat, mode);
    }
    settle_walk(state, rpc, w, mode)
}

/// Walks a path from the root, asking the disk server where that is needed.
pub fn lookup_path_dynamic_inner(
    state: &VfsState,
    rpc: &mut RpcCore,
    path: &[u8],
    depth: u8,
    mode: WalkMode,
) -> (r: Result<Progress<Option<Handle>>, Status>)
    requires
        old(rpc).wf(),
    ensures
        final(rpc).wf(),
        walk_settled(
            state@,
            old(rpc),
            final(rpc),
            r,
            state@.walk_path(path@, depth as nat, mode),
            mode,
        ),
{
    let w = walk_path(state, path, depth, mode);
    proof {
        state@.lemma_walk_path_asks(path@, depth as nat, mode);
    }
    settle_walk(state, rpc, w, mode)
}

/// How the service itself walks a path.
#[verifier::allow_in_spec]
pub fn plain_mode(follow: bool) -> (r: WalkMode)
    returns
        (WalkMode { follow, fold: false, skip_posix_only: false, skip_win32_only: false }),
{
    WalkMode { follow, fold: false, skip_posix_only: false, skip_win32_only: false }
}

/// Walks an absolute path; any other leads nowhere.
pub fn lookup_path_dynamic_absolute(
    state: &VfsState,
    rpc: &mut RpcCore,
    path: &[u8],
    no_follow: bool,
) -> (r: Result<Progress<Option<Handle>>, Status>)
    requires
        old(rpc).wf(),
    ensures
        final(rpc).wf(),
        walk_settled(
            state@,
            old(rpc),
            final(rpc),
            r,
            if is_absolute(path@) {
                state@.walk_path(path@, 0, plain_mode(!no_follow))
            } else {
                WalkView::End(None)
            },
            plain_mode(!no_follow),
        ),
{
    if path.len() == 0 || path[0] != SLASH {
        return Ok(Progress::Complete(None));
    }
    lookup_path_dynamic_inner(state, rpc, path, 0, plain_mode(!no_follow))
}

} // verus!
