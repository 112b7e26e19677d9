//! What mounting does, told from the mounts, the vnodes and the requests alone.

use crate::arena::{Handle, Table};
use crate::descriptor_laws::others_stay;
use crate::fs::mounting::mount_number;
use crate::fs::tmpfs::stated_opts;
use crate::identity::FsInstanceId;
use crate::mount::{
    MountView, VnodeRef, MNT_CASEFOLD, MOUNT_PATH_MAX,
};
use crate::mount_requests::{
    mount_asked, part_of, pivot_asked, remount_asked, umount_asked, MountRequest, PivotRequest,
    RemountRequest, UmountRequest, MAX_FS_TYPE_LEN, MAX_MOUNT_PAYLOAD, MAX_OPTS_LEN, MAX_STR_LEN,
    MAX_TWO_WORD_PAYLOAD,
};
use crate::namespace::{moves_over, moving_place, MOVING_MOUNTS};
use crate::state::{BootDirs, VfsModel};
use crate::status::Status;
use crate::vnode::{Backend, MountRef, Vnode, VnodeType};
use crate::wire::reg_bytes;
use vstd::prelude::*;
use vstd::string::*;

verus! {

// ---- on the tree -------------------------------------------------------------------

/// Vnode `b` is vnode `a` with nothing mounted on it and held once less.
pub open spec fn is_bared(a: Vnode, b: Vnode) -> bool {
    &&& !b.covered
    &&& !b.covered_by.handle.is_valid()
    &&& b.pin_count == (if a.pin_count > 0 {
        a.pin_count - 1
    } else {
        0
    })
    &&& b.pinned <==> a.pinned && a.pin_count > 1
    &&& b == (Vnode {
        covered: b.covered,
        covered_by: b.covered_by,
        pin_count: b.pin_count,
        pinned: b.pinned,
        ..a
    })
}

/// A mount that is put on a vnode sits there, below its parent and under its path; the vnode
/// names the mount and is held once more. The place that the mount had before is bare. No
/// other mount and no other vnode is touched.
pub proof fn law_mount_moves_to_its_place(
    m: VfsModel,
    mh: Handle,
    parent: Handle,
    target: Handle,
    path: Seq<u8>,
)
    requires
        m.vnodes.has(target),
        m.mounts.has(parent),
        m.mounts.has(mh),
        path.len() <= MOUNT_PATH_MAX,
        m.mounts.at(mh).covered.handle != target,
    ensures
        ({
            let (s, ok) = m.attached(mh, parent, target, path);
            let was = m.mounts.at(mh).covered.handle;
            let (a, b) = (m.vnodes.at(target), s.vnodes.at(target));
            &&& ok
            &&& s.mounts.has(mh)
            &&& s.mounts.at(mh) == (MountView {
                parent: MountRef { id: m.mounts.at(parent).fs_instance_id, handle: parent },
                covered: VnodeRef { id: a.vnode_key(), handle: target },
                mount_path: path,
                ..m.mounts.at(mh)
            })
            &&& others_stay(m.mounts, s.mounts, mh)
            &&& s.vnodes.has(target)
            &&& b.covered
            &&& b.covered_by == MountRef { id: m.mounts.at(mh).fs_instance_id, handle: mh }
            &&& b.pinned
            &&& b.pin_count == (if a.pin_count < u32::MAX {
                a.pin_count + 1
            } else {
                a.pin_count as int
            })
            &&& b == (Vnode {
                covered: true,
                covered_by: b.covered_by,
                pinned: true,
                pin_count: b.pin_count,
                ..a
            })
            &&& was.is_valid() && m.vnodes.has(was) ==> s.vnodes.has(was) && is_bared(
                m.vnodes.at(was),
                s.vnodes.at(was),
            )
            &&& forall|o: Handle|
                o != target && !(o == was && was.is_valid()) ==> #[trigger] s.vnodes.entry(o)
                    == m.vnodes.entry(o)
        }),
{
    let (s, ok) = m.attached(mh, parent, target, path);
    assert(s.mounts.at(mh) =~= MountView {
        parent: MountRef { id: m.mounts.at(parent).fs_instance_id, handle: parent },
        covered: VnodeRef { id: m.vnodes.at(target).vnode_key(), handle: target },
        mount_path: path,
        ..m.mounts.at(mh)
    });
}

/// A mount is put on a vnode exactly if the vnode, the mount and its parent are there and the
/// path is short enough to keep. Where one of them is missing nothing changes.
pub proof fn law_attaching_is_owed(
    m: VfsModel,
    mh: Handle,
    parent: Handle,
    target: Handle,
    path: Seq<u8>,
)
    ensures
        m.attached(mh, parent, target, path).1 <==> m.vnodes.has(target) && m.mounts.has(parent)
            && m.mounts.has(mh) && path.len() <= MOUNT_PATH_MAX,
        !(m.vnodes.has(target) && m.mounts.has(parent) && m.mounts.has(mh)) ==> m.attached(
            mh,
            parent,
            target,
            path,
        ).0 == m,
{
}

/// Taking a mount off a vnode bares the vnode and touches nothing else.
pub proof fn law_uncovered_vnode_is_bare(m: VfsModel, v: Handle)
    requires
        m.vnodes.has(v),
    ensures
        m.uncovered(v).vnodes.has(v),
        is_bared(m.vnodes.at(v), m.uncovered(v).vnodes.at(v)),
        others_stay(m.vnodes, m.uncovered(v).vnodes, v),
        m.uncovered(v) == (VfsModel { vnodes: m.uncovered(v).vnodes, ..m }),
{
}

// ---- new mounts --------------------------------------------------------------------

/// `mh` is a new mount of `backend` under `path`, attached nowhere, with a root directory of
/// its own and an instance number that no later one gets at once.
pub open spec fn is_new_mount(
    m: VfsModel,
    s: VfsModel,
    mh: Handle,
    backend: Backend,
    flags: u32,
    name: Seq<u8>,
    path: Seq<u8>,
) -> bool {
    let mt = s.mounts.at(mh);
    let rv = mt.root_vnode;
    let vn = s.vnodes.at(rv);
    &&& !m.mounts.has(mh)
    &&& s.mounts.has(mh)
    &&& mt.id == mount_number(mh.slot)
    &&& mt.flags == flags
    &&& mt.backend == backend
    &&& mt.vfsops == Some(backend)
    &&& mt.vops == Some(backend)
    &&& mt.fs_type == name
    &&& path.len() <= MOUNT_PATH_MAX ==> mt.mount_path == path
    &&& !mt.parent.handle.is_valid()
    &&& !mt.covered.handle.is_valid()
    &&& mt.fs_instance_id == m.next_fs_instance_id
    &&& s.next_fs_instance_id.0 == (if m.next_fs_instance_id.0 == u64::MAX {
        1
    } else {
        m.next_fs_instance_id.0 + 1
    })
    &&& others_stay(m.mounts, s.mounts, mh)
    &&& !m.vnodes.has(rv)
    &&& s.vnodes.has(rv)
    &&& vn.root
    &&& vn.vtype == VnodeType::Dir
    &&& vn.backend == backend
    &&& vn.ops == Some(backend)
    &&& vn.mount == MountRef { id: m.next_fs_instance_id, handle: mh }
    &&& vn.fs_instance_id == m.next_fs_instance_id
    &&& others_stay(m.vnodes, s.vnodes, rv)
}

proof fn lemma_two_new<A, B>(a: Table<A>, b: Table<B>, x: A, y: B, v: A, w: B)
    requires
        a.wf(),
        b.wf(),
        a.next() is Some,
        b.next() is Some,
    ensures
        !a.has(a.next()->0),
        !b.has(b.next()->0),
        a.grown(x).put(a.next()->0, v).has(a.next()->0),
        a.grown(x).put(a.next()->0, v).at(a.next()->0) == v,
        b.grown(y).put(b.next()->0, w).has(b.next()->0),
        b.grown(y).put(b.next()->0, w).at(b.next()->0) == w,
        others_stay(a, a.grown(x).put(a.next()->0, v), a.next()->0),
        others_stay(b, b.grown(y).put(b.next()->0, w), b.next()->0),
{
    a.lemma_vacant(0);
    b.lemma_vacant(0);
}

/// A device or pipe filesystem that is mounted is a new mount as asked, and fails only where
/// a table is full.
pub proof fn law_plain_mount_is_as_asked(m: VfsModel, path: Seq<u8>, flags: u32)
    requires
        m.vnodes.wf(),
        m.mounts.wf(),
        m.devfs_mounts.wf(),
        m.pipefs_mounts.wf(),
    ensures
        match m.devfs_made(path, flags) {
            (s, Some(mh)) => is_new_mount(
                m,
                s,
                mh,
                Backend::Devfs,
                flags,
                "devfs".spec_bytes(),
                path,
            ) && exists|d: Handle|
                !m.devfs_mounts.has(d) && #[trigger] s.devfs_mounts.has(d) && s.devfs_mounts.at(
                    d,
                ).owner_mount == mh && s.devfs_mounts.at(d).root_vnode == s.mounts.at(
                    mh,
                ).root_vnode && s.devfs_mounts.at(d).fs_instance_id == s.mounts.at(
                    mh,
                ).fs_instance_id,
            (_, None) => m.vnodes.next() is None || m.mounts.next() is None
                || m.devfs_mounts.next() is None,
        },
        match m.pipefs_made(path, flags) {
            (s, Some(mh)) => is_new_mount(
                m,
                s,
                mh,
                Backend::Pipefs,
                flags,
                "pipefs".spec_bytes(),
                path,
            ) && exists|d: Handle|
                !m.pipefs_mounts.has(d) && #[trigger] s.pipefs_mounts.has(d)
                    && s.pipefs_mounts.at(d).owner_mount == mh && s.pipefs_mounts.at(d).root_vnode
                    == s.mounts.at(mh).root_vnode && s.pipefs_mounts.at(d).fs_instance_id
                    == s.mounts.at(mh).fs_instance_id,
            (_, None) => m.vnodes.next() is None || m.mounts.next() is None
                || m.pipefs_mounts.next() is None,
        },
{
    m.devfs_mounts.lemma_vacant(0);
    m.pipefs_mounts.lemma_vacant(0);
    if m.vnodes.next() is Some && m.mounts.next() is Some {
        let (rv, mh) = (m.vnodes.next()->0, m.mounts.next()->0);
        lemma_two_new(
            m.vnodes,
            m.mounts,
            Vnode::zeroed(),
            MountView::blank(),
            m.devfs_made(path, flags).0.vnodes.at(rv),
            m.devfs_made(path, flags).0.mounts.at(mh),
        );
        lemma_two_new(
            m.vnodes,
            m.mounts,
            Vnode::zeroed(),
            MountView::blank(),
            m.pipefs_made(path, flags).0.vnodes.at(rv),
            m.pipefs_made(path, flags).0.mounts.at(mh),
        );
        if let Some(d) = m.devfs_mounts.next() {
            assert(m.devfs_made(path, flags).0.devfs_mounts.has(d));
        }
        if let Some(d) = m.pipefs_mounts.next() {
            assert(m.pipefs_made(path, flags).0.pipefs_mounts.has(d));
        }
    }
}

/// An in-memory filesystem that is mounted is a new mount as asked, and fails only where a
/// table is full. It folds case exactly if the flags or the options ask for it, has the
/// limits that the options state, holds one directory that anybody may write to, and nothing
/// in it is charged yet.
pub proof fn law_memory_mount_is_as_asked(
    m: VfsModel,
    path: Seq<u8>,
    flags: u32,
    opts: Seq<u8>,
    now: u64,
)
    requires
        m.vnodes.wf(),
        m.mounts.wf(),
        m.tmpfs_mounts.wf(),
        m.tmpfs_nodes.wf(),
    ensures
        ({
            let asked = stated_opts(opts);
            let fold = flags & MNT_CASEFOLD != 0 || asked.casefold == Some(true);
            match m.tmpfs_made(path, flags, opts, now) {
                (s, Some(mh)) => {
                    let rv = s.mounts.at(mh).root_vnode;
                    let vn = s.vnodes.at(rv);
                    let n = vn.backend_ref;
                    let nd = s.tmpfs_nodes.at(n);
                    &&& is_new_mount(
                        m,
                        s,
                        mh,
                        Backend::Tmpfs,
                        if fold {
                            flags | MNT_CASEFOLD
                        } else {
                            flags
                        },
                        "tmpfs".spec_bytes(),
                        path,
                    )
                    &&& vn.mode == 0o41777
                    &&& vn.nlink == 2
                    &&& vn.mtime_ns == now
                    &&& !m.tmpfs_nodes.has(n)
                    &&& s.tmpfs_nodes.has(n)
                    &&& nd.vnode == rv
                    &&& nd.owner_mount == mh
                    &&& nd.kind == VnodeType::Dir
                    &&& nd.mode == 0o41777
                    &&& nd.nlink == 2
                    &&& nd.children.len() == 0
                    &&& nd.mtime_ns == now && nd.ctime_ns == now && nd.atime_ns == now
                    &&& others_stay(m.tmpfs_nodes, s.tmpfs_nodes, n)
                    &&& exists|d: Handle|
                        {
                            let r = s.tmpfs_mounts.at(d);
                            &&& !m.tmpfs_mounts.has(d)
                            &&& #[trigger] s.tmpfs_mounts.has(d)
                            &&& r.owner_mount == mh
                            &&& r.root_vnode == rv
                            &&& r.fs_instance_id == s.mounts.at(mh).fs_instance_id
                            &&& r.casefold == fold
                            &&& r.max_bytes == (match asked.max_bytes {
                                Some(k) => k,
                                None => 0,
                            })
                            &&& r.max_inodes == (match asked.max_inodes {
                                Some(k) => k,
                                None => 0,
                            })
                            &&& r.accounted_bytes == 0
                            &&& r.used_inodes == 1
                        }
                },
                (_, None) => m.vnodes.next() is None || m.mounts.next() is None
                    || m.tmpfs_mounts.next() is None || m.tmpfs_nodes.next() is None,
            }
        }),
{
    m.tmpfs_mounts.lemma_vacant(0);
    m.tmpfs_nodes.lemma_vacant(0);
    assert(0o40000u32 | 0o1777u32 == 0o41777u32) by (bit_vector);
    let s = m.tmpfs_made(path, flags, opts, now).0;
    if m.vnodes.next() is Some && m.mounts.next() is Some {
        let (rv, mh) = (m.vnodes.next()->0, m.mounts.next()->0);
        lemma_two_new(
            m.vnodes,
            m.mounts,
            Vnode::zeroed(),
            MountView::blank(),
            s.vnodes.at(rv),
            s.mounts.at(mh),
        );
        if m.tmpfs_mounts.next() is Some && m.tmpfs_nodes.next() is Some {
            let d = m.tmpfs_mounts.next()->0;
            assert(s.tmpfs_mounts.has(d));
        }
    }
}

// ---- requests ----------------------------------------------------------------------

proof fn lemma_parts(regs: Seq<u64>, start: int, a: Seq<u8>, b: Seq<u8>, c: Seq<u8>)
    requires
        reg_bytes(regs, start, (a + b + c).len() as int) == a + b + c,
    ensures
        part_of(regs, start, a.len() as int, b.len() as int) == b,
{
    let n = (a + b).len() as int;
    assert(reg_bytes(regs, start, n) =~= a + b) by {
        assert(reg_bytes(regs, start, n) =~= reg_bytes(
            regs,
            start,
            (a + b + c).len() as int,
        ).take(n));
    }
    assert((a + b).skip(a.len() as int) =~= b);
}

/// A request to mount that carries a source, a target, a filesystem and options one behind
/// the other is read as it was sent.
pub proof fn law_sent_mount_request_is_read(
    regs: Seq<u64>,
    source: Seq<u8>,
    target: Seq<u8>,
    fs_type: Seq<u8>,
    opts: Seq<u8>,
    r: Result<MountRequest, Status>,
    again: Result<RemountRequest, Status>,
)
    requires
        regs.len() == 32,
        regs[0] == source.len(),
        regs[1] == target.len(),
        regs[2] == fs_type.len(),
        regs[4] == opts.len(),
        reg_bytes(regs, 5, (source + target + fs_type + opts).len() as int) == source + target
            + fs_type + opts,
        mount_asked(regs, r),
        remount_asked(regs, again),
    ensures
        r is Ok <==> source.len() <= MAX_STR_LEN && target.len() <= MAX_STR_LEN && 0
            < fs_type.len() <= MAX_FS_TYPE_LEN && opts.len() <= MAX_OPTS_LEN && source.len()
            + target.len() + fs_type.len() + opts.len() <= MAX_MOUNT_PAYLOAD,
        r matches Ok(q) ==> q.target@ == target && q.fs_type@ == fs_type && q.opts@ == opts
            && q.flags == regs[3] as u32,
        again is Ok <==> source.len() <= MAX_STR_LEN && 0 < target.len() <= MAX_STR_LEN
            && fs_type.len() <= MAX_FS_TYPE_LEN && opts.len() <= MAX_OPTS_LEN && source.len()
            + target.len() + fs_type.len() + opts.len() <= MAX_MOUNT_PAYLOAD,
        again matches Ok(q) ==> q.target@ == target && q.opts@ == opts && q.flags
            == regs[3] as u32,
{
    let e = Seq::<u8>::empty();
    let all = source + target + fs_type + opts;
    assert(all =~= source + target + (fs_type + opts));
    assert(all =~= (source + target) + fs_type + opts);
    assert(all =~= (source + target + fs_type) + opts + e);
    lemma_parts(regs, 5, source, target, fs_type + opts);
    lemma_parts(regs, 5, source + target, fs_type, opts);
    lemma_parts(regs, 5, source + target + fs_type, opts, e);
}

/// A request to take a mount away is read as it was sent.
pub proof fn law_sent_unmount_request_is_read(
    regs: Seq<u64>,
    target: Seq<u8>,
    r: Result<UmountRequest, Status>,
)
    requires
        regs.len() == 32,
        regs[0] == target.len(),
        reg_bytes(regs, 2, target.len() as int) == target,
        umount_asked(regs, r),
    ensures
        r is Ok <==> 0 < target.len() <= MAX_STR_LEN,
        r matches Ok(q) ==> q.target@ == target && q.flags == regs[1] as u32,
{
    assert(reg_bytes(regs, 2, target.len() as int).skip(0) =~= target);
}

/// A request to change the root is read as it was sent.
pub proof fn law_sent_pivot_request_is_read(
    regs: Seq<u64>,
    new_root: Seq<u8>,
    put_old: Seq<u8>,
    r: Result<PivotRequest, Status>,
)
    requires
        regs.len() == 32,
        regs[0] == new_root.len(),
        regs[1] == put_old.len(),
        reg_bytes(regs, 2, (new_root + put_old).len() as int) == new_root + put_old,
        pivot_asked(regs, r),
    ensures
        r is Ok <==> 0 < new_root.len() <= MAX_STR_LEN && 0 < put_old.len() <= MAX_STR_LEN
            && new_root.len() + put_old.len() <= MAX_TWO_WORD_PAYLOAD,
        r matches Ok(q) ==> q.new_root@ == new_root && q.put_old@ == put_old,
{
    let e = Seq::<u8>::empty();
    assert(new_root + put_old =~= e + new_root + put_old);
    assert(new_root + put_old =~= new_root + put_old + e);
    lemma_parts(regs, 2, e, new_root, put_old);
    lemma_parts(regs, 2, new_root, put_old, e);
}

// ---- the changeover ----------------------------------------------------------------

proof fn lemma_listed<V>(t: Table<V>, p: spec_fn(Handle, V) -> bool, i: int, n: nat)
    requires
        t.wf(),
        0 <= i,
    ensures
        t.listed(p, i, n).len() <= n,
        forall|k: int|
            0 <= k < t.listed(p, i, n).len() ==> {
                let h = #[trigger] t.listed(p, i, n)[k];
                t.has(h) && p(h, t.at(h)) && i <= h.slot
            },
        forall|j: int, k: int|
            0 <= j < k < t.listed(p, i, n).len() ==> (#[trigger] t.listed(p, i, n)[j]).slot < (
            #[trigger] t.listed(p, i, n)[k]).slot,
        t.listed(p, i, n).len() < n ==> forall|o: Handle| #[trigger]
            t.has(o) && i <= o.slot && p(o, t.at(o)) ==> t.listed(p, i, n).contains(o),
    decreases t.epochs.len() - i,
{
    if n > 0 && i < t.epochs.len() {
        let h = t.handle_at(i);
        let whole = t.listed(p, i, n);
        assert(i <= u32::MAX);
        if t.has(h) && p(h, t.at(h)) {
            let rest = t.listed(p, i + 1, (n - 1) as nat);
            lemma_listed(t, p, i + 1, (n - 1) as nat);
            assert(whole =~= seq![h] + rest);
            assert(whole[0] == h);
            assert forall|k: int| 0 <= k < whole.len() implies {
                let x = #[trigger] whole[k];
                t.has(x) && p(x, t.at(x)) && i <= x.slot
            } by {
                if k > 0 {
                    assert(whole[k] == rest[k - 1]);
                }
            }
            assert forall|j: int, k: int| 0 <= j < k < whole.len() implies (
            #[trigger] whole[j]).slot < (#[trigger] whole[k]).slot by {
                assert(whole[k] == rest[k - 1]);
                if j > 0 {
                    assert(whole[j] == rest[j - 1]);
                }
            }
            if whole.len() < n {
                assert forall|o: Handle| #[trigger]
                    t.has(o) && i <= o.slot && p(o, t.at(o)) implies whole.contains(o) by {
                    if o.slot == i {
                        assert(o == h);
                    } else {
                        assert(rest.contains(o));
                        let k = choose|k: int| 0 <= k < rest.len() && rest[k] == o;
                        assert(whole[k + 1] == o);
                    }
                }
            }
        } else {
            lemma_listed(t, p, i + 1, n);
            assert forall|o: Handle| #[trigger] t.has(o) && o.slot == i implies o == h by {}
        }
    }
}

proof fn lemma_moved_over(
    m: VfsModel,
    hs: Seq<Handle>,
    new_root: Handle,
    targets: Seq<Handle>,
    n: int,
)
    requires
        0 <= n <= hs.len(),
        forall|j: int, k: int|
            0 <= j < k < hs.len() ==> (#[trigger] hs[j]).slot < (#[trigger] hs[k]).slot,
        forall|k: int| 0 <= k < hs.len() ==> moving_place(m.mounts.at(#[trigger] hs[k]).mount_path)
            is Some,
        m.moved_over(hs, new_root, targets, n).1,
    ensures
        ({
            let s = m.moved_over(hs, new_root, targets, n).0;
            &&& forall|k: int|
                0 <= k < n ==> {
                    let (a, b) = (m.mounts.at(#[trigger] hs[k]), s.mounts.at(hs[k]));
                    &&& s.mounts.has(hs[k])
                    &&& b.parent.handle == new_root
                    &&& b.covered.handle == targets[moving_place(a.mount_path)->0]
                    &&& b.mount_path == a.mount_path
                    &&& b.root_vnode == a.root_vnode
                }
            &&& forall|o: Handle|
                !hs.take(n).contains(o) ==> #[trigger] s.mounts.entry(o) == m.mounts.entry(o)
        }),
    decreases n,
{
    if n > 0 {
        let t = m.moved_over(hs, new_root, targets, n - 1).0;
        let s = m.moved_over(hs, new_root, targets, n).0;
        lemma_moved_over(m, hs, new_root, targets, n - 1);
        let h = hs[n - 1];
        assert(!hs.take(n - 1).contains(h)) by {
            let q = hs.take(n - 1);
            if q.contains(h) {
                let j = choose|j: int| 0 <= j < q.len() && q[j] == h;
                assert(hs[j] == h);
                assert(hs[j].slot < hs[n - 1].slot);
            }
        }
        assert(t.mounts.entry(h) == m.mounts.entry(h));
        assert forall|k: int| 0 <= k < n implies {
            let (a, b) = (m.mounts.at(#[trigger] hs[k]), s.mounts.at(hs[k]));
            &&& s.mounts.has(hs[k])
            &&& b.parent.handle == new_root
            &&& b.covered.handle == targets[moving_place(a.mount_path)->0]
            &&& b.mount_path == a.mount_path
            &&& b.root_vnode == a.root_vnode
        } by {
            if k < n - 1 {
                assert(hs[k].slot < hs[n - 1].slot);
                assert(s.mounts.at(hs[k]) == t.mounts.at(hs[k]));
            }
        }
        assert forall|o: Handle| !hs.take(n).contains(o) implies #[trigger] s.mounts.entry(o)
            == m.mounts.entry(o) by {
            assert(hs.take(n)[n - 1] == h);
            assert(o != h);
            let q = hs.take(n - 1);
            if q.contains(o) {
                let j = choose|j: int| 0 <= j < q.len() && q[j] == o;
                assert(hs.take(n)[j] == o);
            }
            assert(t.mounts.entry(o) == m.mounts.entry(o));
            assert(s.mounts.entry(o) == t.mounts.entry(o));
        }
    }
}

/// `path` names one of the places whose mounts move to the new root, and `dirs` remembers
/// `place` for it.
pub open spec fn is_moving_place(dirs: BootDirs, path: Seq<u8>, place: Handle) -> bool {
    ||| path == "/dev".spec_bytes() && place == dirs.dev_dir
    ||| path == "/proc".spec_bytes() && place == dirs.proc_dir
    ||| path == "/tmp".spec_bytes() && place == dirs.tmp_dir
    ||| path == "/sys".spec_bytes() && place == dirs.sys_dir
    ||| path == "/pipe".spec_bytes() && place == dirs.pipe_dir
}

/// The places whose mounts move to the new root.
pub open spec fn moving_names() -> Seq<&'static str> {
    seq!["/dev", "/proc", "/tmp", "/sys", "/pipe"]
}

proof fn lemma_new_dirs_keep_mounts(
    m: VfsModel,
    root: Handle,
    mount: Handle,
    fs_id: FsInstanceId,
    n: int,
)
    ensures
        m.new_root_dirs(root, mount, fs_id, n).0.mounts == m.mounts,
        m.new_root_dirs(root, mount, fs_id, n).1 matches Some(hs) ==> hs.len() == (if n < 0 {
            0
        } else {
            n
        }),
    decreases n,
{
    if n > 0 {
        lemma_new_dirs_keep_mounts(m, root, mount, fs_id, n - 1);
    }
}

/// `hs` are five mounts, no two of them in one slot, that lie below the new root.
pub open spec fn five_moved(m: VfsModel, s: VfsModel, hs: Seq<Handle>) -> bool {
    &&& hs.len() == 5
    &&& forall|k: int|
        0 <= k < 5 ==> s.mounts.at(#[trigger] hs[k]).parent.handle == m.boot_dirs.real_root_mount
    &&& forall|j: int, k: int|
        0 <= j < k < 5 ==> (#[trigger] hs[j]).slot != (#[trigger] hs[k]).slot
}

/// At the changeover every mount on `/dev`, `/proc`, `/tmp`, `/sys` or `/pipe` of the old
/// root keeps its path and its contents and moves below the new root, onto the directory
/// that the service remembers for it from then on, unless five others moved in its place.
pub proof fn law_pivot_takes_the_pseudo_filesystems_along(m: VfsModel, mh: Handle)
    requires
        m.mounts.wf(),
        m.pivoted().1,
        m.mounts.has(mh),
        mh != m.root_mount,
        mh != m.boot_dirs.real_root_mount,
        m.mounts.at(mh).parent.id == m.mounts.at(m.root_mount).fs_instance_id,
        exists|i: int|
            0 <= i < 5 && m.mounts.at(mh).mount_path
                == #[trigger] moving_names()[i].spec_bytes(),
    ensures
        ({
            let s = m.pivoted().0;
            let (a, b) = (m.mounts.at(mh), s.mounts.at(mh));
            ||| {
                &&& s.mounts.has(mh)
                &&& b.parent.handle == m.boot_dirs.real_root_mount
                &&& b.mount_path == a.mount_path
                &&& b.root_vnode == a.root_vnode
                &&& is_moving_place(s.boot_dirs, a.mount_path, b.covered.handle)
            }
            ||| exists|hs: Seq<Handle>|
                !hs.contains(mh) && #[trigger] five_moved(m, s, hs)
        }),
{
    let new_root = m.boot_dirs.real_root_mount;
    let old_root = m.root_mount;
    let (s, made) = m.pivot_targets(new_root);
    lemma_new_dirs_keep_mounts(
        m,
        m.mounts.at(new_root).root_vnode,
        new_root,
        m.mounts.at(new_root).fs_instance_id,
        6,
    );
    assert(s.mounts == m.mounts);
    let targets = made->0;
    let hs = s.moving(old_root, new_root);
    let p = moves_over(old_root, new_root, m.mounts.at(old_root).fs_instance_id);
    lemma_listed(m.mounts, p, 0, MOVING_MOUNTS as nat);
    assert(hs == m.mounts.listed(p, 0, MOVING_MOUNTS as nat));
    lemma_moved_over(s, hs, new_root, targets, hs.len() as int);
    assert(hs.take(hs.len() as int) =~= hs);
    assert(p(mh, m.mounts.at(mh)));
    let t = s.moved_over(hs, new_root, targets, hs.len() as int).0;
    let end = m.pivoted().0;
    assert forall|k: int| 0 <= k < hs.len() implies end.mounts.at(#[trigger] hs[k])
        == t.mounts.at(hs[k]) && end.mounts.has(hs[k]) by {
        assert(hs[k] != old_root && hs[k] != new_root);
    }
    if hs.contains(mh) {
        let k = choose|k: int| 0 <= k < hs.len() && hs[k] == mh;
        assert(hs[k] == mh);
    } else {
        assert(hs.len() == 5);
        assert(five_moved(m, end, hs));
    }
}

} // verus!
