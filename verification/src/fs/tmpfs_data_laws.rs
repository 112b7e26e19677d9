//! What holds of the files of the in-memory filesystem: their bytes, sizes and attributes.

use crate::arena::Handle;
use crate::fs::tmpfs::{lemma_object_bytes, page_bytes, MoOutcome, MO_PAGES_MAX, TMPFS_FILE_MAX};
use crate::fs::tmpfs_file::file_bytes;
use crate::mount::MNT_RDONLY;
use crate::state::{VfsModel, MM_PAGE_SIZE};
use crate::status::Status;
use crate::vnode::{Backend, VnodeType, S_IFLNK};
use vstd::prelude::*;

verus! {

// ---- reading -----------------------------------------------------------------------

/// Reading gives as many bytes as there are behind the offset, but no more than were asked for.
/// Each is the byte that reading it alone gives, so that a read may be cut into pieces.
pub proof fn law_read_is_made_of_bytes(m: VfsModel, v: Handle, off: u64, cap: int, b: Seq<u8>)
    requires
        m.tmp_node_of(v) is Some,
        0 <= cap,
        m.tmp_read(v, off, cap) == Ok::<Seq<u8>, Status>(b),
    ensures
        ({
            let size = m.tmpfs_nodes.at(m.tmp_node_of(v)->0).size;
            &&& off >= size ==> b.len() == 0
            &&& off < size ==> b.len() == if size - off <= cap {
                size - off
            } else {
                cap
            }
            &&& forall|i: int|
                #![trigger b[i]]
                0 <= i < b.len() ==> m.tmp_read(v, (off + i) as u64, 1) == Ok::<
                    Seq<u8>,
                    Status,
                >(seq![b[i]])
        }),
{
    let n = m.tmpfs_nodes.at(m.tmp_node_of(v)->0);
    assert forall|i: int|
        #![trigger b[i]]
        0 <= i < b.len() implies m.tmp_read(v, (off + i) as u64, 1) == Ok::<Seq<u8>, Status>(
        seq![b[i]],
    ) by {
        assert(file_bytes(n.content, off + i, 1) =~= seq![b[i]]);
    }
}

/// Only what is not there, what is no regular file, and what has a size but no storage cannot be
/// read.
pub proof fn law_read_is_owed(m: VfsModel, v: Handle, off: u64, cap: int)
    ensures
        match m.tmp_node_of(v) {
            None => m.tmp_read(v, off, cap) == Err::<Seq<u8>, Status>(Status::NotFound),
            Some(h) => {
                let n = m.tmpfs_nodes.at(h);
                &&& n.kind != VnodeType::Reg ==> m.tmp_read(v, off, cap) == Err::<Seq<u8>, Status>(
                    Status::InvalidOperation,
                )
                &&& n.kind == VnodeType::Reg && (n.mo_capacity != 0 || off >= n.size || cap == 0)
                    ==> m.tmp_read(v, off, cap) is Ok
            },
        },
{
}

/// A vnode has the node that it refers to and that refers back to it.
pub proof fn law_node_and_vnode_refer_to_each_other(m: VfsModel, v: Handle, h: Handle)
    ensures
        m.tmp_node_of(v) == Some(h) <==> m.vnodes.has(v) && m.vnodes.at(v).backend_ref == h
            && h.is_valid() && m.tmpfs_nodes.has(h) && m.tmpfs_nodes.at(h).vnode == v,
{
}

// ---- writing -----------------------------------------------------------------------

/// The memory server gives what it may give.
pub open spec fn grants_pages(outcome: MoOutcome) -> bool {
    outcome matches MoOutcome::Granted { pages, .. } ==> 0 < pages <= MO_PAGES_MAX
}

proof fn lemma_grown(m: VfsModel, h: Handle, needed: u64, outcome: MoOutcome)
    requires
        m.tmpfs_nodes.has(h),
        0 < needed <= TMPFS_FILE_MAX,
        grants_pages(outcome),
        m.growth_refused(h, needed, outcome) is None,
    ensures
        ({
            let s = m.grown_for(h, needed, outcome);
            &&& s.tmpfs_nodes.has(h)
            &&& s.tmpfs_nodes.at(h).mo_capacity > 0
            &&& s.tmpfs_nodes.at(h).content == m.tmpfs_nodes.at(h).content
            &&& s.tmpfs_nodes.at(h).size == m.tmpfs_nodes.at(h).size
            &&& s.tmpfs_nodes.at(h).kind == m.tmpfs_nodes.at(h).kind
            &&& s.tmpfs_nodes.at(h).vnode == m.tmpfs_nodes.at(h).vnode
            &&& s.vnodes == m.vnodes
            &&& forall|o: Handle| o != h ==> #[trigger] s.tmpfs_nodes.entry(o)
                == m.tmpfs_nodes.entry(o)
        }),
{
    lemma_object_bytes(needed);
    if let MoOutcome::Granted { pages, .. } = outcome {
        assert(0 < pages * MM_PAGE_SIZE <= u64::MAX) by (nonlinear_arith)
            requires
                0 < pages <= MO_PAGES_MAX,
                MM_PAGE_SIZE == 4096,
                MO_PAGES_MAX * 4096 <= u64::MAX,
        ;
    }
}

/// A write makes the file reach to its end and never shortens it. What was written is read back,
/// every other byte of the file reads as before, and so does every other file.
pub proof fn law_write_changes_only_its_range(
    m: VfsModel,
    v: Handle,
    off: u64,
    data: Seq<u8>,
    outcome: MoOutcome,
    now: u64,
    at: u64,
    w: Handle,
    cap: int,
)
    requires
        data.len() > 0,
        m.write_refused(v, off, data.len() as int, outcome) is None,
        off + data.len() <= TMPFS_FILE_MAX,
        grants_pages(outcome),
    ensures
        ({
            let s = m.written(v, off, data, outcome, now);
            let h = m.tmp_node_of(v)->0;
            let size = m.tmpfs_nodes.at(h).size;
            &&& m.tmp_node_of(v) is Some && s.tmp_node_of(v) == Some(h)
            &&& s.tmpfs_nodes.at(h).size == if off + data.len() > size {
                off + data.len()
            } else {
                size as int
            }
            &&& s.vnodes.at(v).size == s.tmpfs_nodes.at(h).size
            &&& s.tmpfs_nodes.at(h).mtime_ns == now && s.vnodes.at(v).mtime_ns == now
            &&& off <= at < off + data.len() ==> s.tmp_read(v, at, 1) == Ok::<Seq<u8>, Status>(
                seq![data[at - off]],
            )
            &&& at < size && !(off <= at < off + data.len()) && m.tmp_read(v, at, 1) is Ok
                ==> s.tmp_read(v, at, 1) == m.tmp_read(v, at, 1)
            &&& w != v ==> s.tmp_read(w, at, cap) == m.tmp_read(w, at, cap)
        }),
{
    let h = m.tmp_node_of(v)->0;
    let end = (off + data.len()) as u64;
    lemma_grown(m, h, end, outcome);
    let g = m.grown_for(h, end, outcome);
    let s = m.written(v, off, data, outcome, now);
    let old = m.tmpfs_nodes.at(h).content;
    let new = s.tmpfs_nodes.at(h).content;
    if off <= at < end {
        assert(file_bytes(new, at as int, 1) =~= seq![data[at - off]]);
    } else {
        assert(file_bytes(new, at as int, 1) =~= file_bytes(old, at as int, 1));
    }
    if w != v {
        lemma_other_read(m, g, s, h, v, w, at, cap);
    }
}

proof fn lemma_other_read(
    m: VfsModel,
    g: VfsModel,
    s: VfsModel,
    h: Handle,
    v: Handle,
    w: Handle,
    at: u64,
    cap: int,
)
    requires
        w != v,
        m.tmpfs_nodes.has(h) && m.tmpfs_nodes.at(h).vnode == v,
        s.tmpfs_nodes.has(h) && s.tmpfs_nodes.at(h).vnode == v,
        s.vnodes.entry(w) == m.vnodes.entry(w),
        forall|o: Handle| o != h ==> #[trigger] g.tmpfs_nodes.entry(o) == m.tmpfs_nodes.entry(o),
        forall|o: Handle| o != h ==> #[trigger] s.tmpfs_nodes.entry(o) == g.tmpfs_nodes.entry(o),
    ensures
        s.tmp_read(w, at, cap) == m.tmp_read(w, at, cap),
{
    if m.vnodes.has(w) {
        let r = m.vnodes.at(w).backend_ref;
        if r != h {
            assert(s.tmpfs_nodes.entry(r) == g.tmpfs_nodes.entry(r));
            assert(g.tmpfs_nodes.entry(r) == m.tmpfs_nodes.entry(r));
        }
    }
}

/// Why a write is refused, in the order in which it is tested: the mount is read-only, the file
/// is not there or not regular, or the end is no file position. A write of no bytes to any other
/// file, and one into memory that the file has already, succeeds.
pub proof fn law_write_is_owed(m: VfsModel, v: Handle, off: u64, data: Seq<u8>, outcome: MoOutcome)
    requires
        m.vnodes.has(v),
    ensures
        ({
            let why = m.write_refused(v, off, data.len() as int, outcome);
            let mount = m.vnodes.at(v).mount.handle;
            let sealed = m.mounts.has(mount) && m.mounts.at(mount).flags & MNT_RDONLY != 0;
            let h = m.tmp_node_of(v)->0;
            let n = m.tmpfs_nodes.at(h);
            if sealed {
                why == Some(Status::ReadOnly)
            } else if m.tmp_node_of(v) is None {
                why == Some(Status::NotFound)
            } else if n.kind != VnodeType::Reg {
                why == Some(Status::InvalidOperation)
            } else if data.len() == 0 {
                why is None
            } else if off + data.len() > u64::MAX {
                why == Some(Status::InvalidArgument)
            } else {
                &&& off + data.len() <= n.mo_capacity && n.mo_capacity % MM_PAGE_SIZE == 0
                    ==> why is None
                &&& outcome is Granted && m.tmp_data(n.owner_mount) is Some
                    && m.tmpfs_mounts.at(m.tmp_data(n.owner_mount)->0).max_bytes == 0
                    ==> why is None
            }
        }),
{
    let h = m.tmp_node_of(v)->0;
    let n = m.tmpfs_nodes.at(h);
    let end = off + data.len();
    if data.len() > 0 && end <= n.mo_capacity && n.mo_capacity % MM_PAGE_SIZE == 0 {
        assert(page_bytes(end as u64) <= n.mo_capacity) by {
            lemma_pages_fit(end, n.mo_capacity as int);
        }
    }
}

proof fn lemma_pages_fit(end: int, cap: int)
    requires
        0 < end <= cap <= u64::MAX,
        cap % (MM_PAGE_SIZE as int) == 0,
    ensures
        page_bytes(end as u64) <= cap,
{
}

/// A write that is refused changes no byte and no size of any file.
pub proof fn law_refused_write_changes_no_file(
    m: VfsModel,
    v: Handle,
    off: u64,
    data: Seq<u8>,
    outcome: MoOutcome,
    now: u64,
    w: Handle,
)
    requires
        m.write_refused(v, off, data.len() as int, outcome) is Some,
    ensures
        ({
            let s = m.written(v, off, data, outcome, now);
            &&& s.vnodes == m.vnodes
            &&& s.tmpfs_nodes == m.tmpfs_nodes
            &&& s.boot_entries == m.boot_entries
        }),
{
}

// ---- sizes -------------------------------------------------------------------------

/// A file that is given another size has that size. Every byte below the old and the new size
/// reads as before, and every other file does.
pub proof fn law_truncation_keeps_what_is_left(
    m: VfsModel,
    v: Handle,
    size: u64,
    outcome: MoOutcome,
    now: u64,
    at: u64,
    w: Handle,
    cap: int,
)
    requires
        m.truncate_refused(v, size, outcome) is None,
        size <= TMPFS_FILE_MAX,
        grants_pages(outcome),
    ensures
        ({
            let s = m.truncated(v, size, outcome, now);
            let h = m.tmp_node_of(v)->0;
            &&& m.tmp_node_of(v) is Some && s.tmp_node_of(v) == Some(h)
            &&& s.tmpfs_nodes.at(h).size == size
            &&& s.vnodes.at(v).size == size
            &&& s.tmpfs_nodes.at(h).mtime_ns == now && s.vnodes.at(v).mtime_ns == now
            &&& at >= size ==> s.tmp_read(v, at, cap) == Ok::<Seq<u8>, Status>(Seq::empty())
            &&& at < size && at < m.tmpfs_nodes.at(h).size && m.tmp_read(v, at, 1) is Ok
                ==> s.tmp_read(v, at, 1) == m.tmp_read(v, at, 1)
            &&& w != v ==> s.tmp_read(w, at, cap) == m.tmp_read(w, at, cap)
        }),
{
    let h = m.tmp_node_of(v)->0;
    let s = m.truncated(v, size, outcome, now);
    if size == 0 {
        let g = m.storage_released(h);
        if w != v {
            lemma_other_read(m, g, s, h, v, w, at, cap);
        }
    } else {
        lemma_grown(m, h, size, outcome);
        let g = m.grown_for(h, size, outcome);
        let old = m.tmpfs_nodes.at(h).content;
        let new = s.tmpfs_nodes.at(h).content;
        if at < size && at < m.tmpfs_nodes.at(h).size {
            assert(file_bytes(new, at as int, 1) =~= file_bytes(old, at as int, 1));
        }
        if w != v {
            lemma_other_read(m, g, s, h, v, w, at, cap);
        }
    }
}

/// A file on a mount that can be written can always be emptied, and can be given any size that
/// its memory holds already.
pub proof fn law_truncation_is_owed(m: VfsModel, v: Handle, size: u64, outcome: MoOutcome)
    requires
        m.vnodes.has(v),
        m.tmp_node_of(v) is Some,
    ensures
        ({
            let why = m.truncate_refused(v, size, outcome);
            let mount = m.vnodes.at(v).mount.handle;
            let sealed = m.mounts.has(mount) && m.mounts.at(mount).flags & MNT_RDONLY != 0;
            let n = m.tmpfs_nodes.at(m.tmp_node_of(v)->0);
            if sealed {
                why == Some(Status::ReadOnly)
            } else if n.kind != VnodeType::Reg {
                why == Some(Status::InvalidOperation)
            } else {
                &&& size == 0 ==> why is None
                &&& size <= n.mo_capacity && n.mo_capacity % MM_PAGE_SIZE == 0 ==> why is None
            }
        }),
{
    let n = m.tmpfs_nodes.at(m.tmp_node_of(v)->0);
    if 0 < size <= n.mo_capacity && n.mo_capacity % MM_PAGE_SIZE == 0 {
        lemma_pages_fit(size as int, n.mo_capacity as int);
    }
}

// ---- making ------------------------------------------------------------------------

/// A node that is made is of the kind and mode that were asked for, empty, without names of its
/// own, on the mount of its directory, and its vnode says the same. Nothing else is changed
/// but the directory.
pub proof fn law_made_node_is_as_asked(
    m: VfsModel,
    parent: Handle,
    name: Seq<u8>,
    mode: u32,
    kind: VnodeType,
    now: u64,
    o: Handle,
)
    requires
        m.vnodes.wf(),
        m.tmpfs_nodes.wf(),
        m.child_outcome(parent, name) is Ok,
    ensures
        ({
            let s = m.child_made(parent, name, mode, kind, now);
            let v = m.child_outcome(parent, name)->Ok_0;
            let h = s.vnodes.at(v).backend_ref;
            let vn = s.vnodes.at(v);
            let n = s.tmpfs_nodes.at(h);
            let mount = m.vnodes.at(parent).mount.handle;
            &&& !m.vnodes.has(v) && s.vnodes.has(v) && s.tmp_node_of(v) == Some(h)
            &&& !m.tmpfs_nodes.has(h)
            &&& vn.vtype == kind && vn.mode == mode && vn.size == 0
            &&& vn.backend == Backend::Tmpfs && vn.mount.handle == mount
            &&& vn.mtime_ns == now && vn.atime_ns == now
            &&& vn.nlink == (if kind == VnodeType::Dir {
                2u32
            } else {
                1u32
            }) && n.nlink == vn.nlink
            &&& n.kind == kind && n.mode == mode && n.size == 0 && n.children.len() == 0
            &&& n.owner_mount == mount && n.content.len() == 0
            &&& o != v ==> s.vnodes.entry(o) == m.vnodes.entry(o)
            &&& o != h && m.tmp_node_of(parent) != Some(o) ==> s.tmpfs_nodes.entry(o)
                == m.tmpfs_nodes.entry(o)
            &&& s.mounts == m.mounts
        }),
{
    m.vnodes.lemma_vacant(0);
    m.tmpfs_nodes.lemma_vacant(0);
}

/// A link that is made reads as its target.
pub proof fn law_made_link_reads_as_its_target(
    m: VfsModel,
    parent: Handle,
    name: Seq<u8>,
    target: Seq<u8>,
    now: u64,
)
    requires
        m.vnodes.wf(),
        m.tmpfs_nodes.wf(),
        m.tmpfs_symlinks.wf(),
        m.symlink_refused(parent, name, target) is None,
    ensures
        ({
            let s = m.symlink_made(parent, name, target, now);
            let v = m.vnodes.next()->0;
            &&& s.tmp_target(v) == Ok::<Seq<u8>, Status>(target)
            &&& s.vnodes.at(v).vtype == VnodeType::Lnk
            &&& s.vnodes.at(v).mode == S_IFLNK | 0o777
            &&& s.vnodes.at(v).size == target.len()
            &&& forall|t: Handle| #[trigger]
                m.tmpfs_symlinks.has(t) ==> s.tmpfs_symlinks.entry(t) == m.tmpfs_symlinks.entry(t)
        }),
{
    m.vnodes.lemma_vacant(0);
    m.tmpfs_nodes.lemma_vacant(0);
    m.tmpfs_symlinks.lemma_vacant(0);
}

} // verus!
