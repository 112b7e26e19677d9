//! Files and mounts of the in-memory filesystem: reading, writing, attributes, listings
//! and the life of a mount.

use crate::arena::Handle;
use crate::bytes::{copy_prefix, prefix, push_bytes, SLASH};
use crate::fs::records::TmpNodeView;
use crate::fs::tmpfs::{
    ensure_mo_capacity, ensure_writable, find_node_handle_by_vnode, release_node_storage,
    MoOutcome, MO_PAGES_MAX, TMPFS_FILE_MAX,
};
use crate::state::{VfsModel, VfsState};
use crate::status::Status;
use crate::vnode::{Vnode, VnodeType, DT_DIR, DT_LNK, DT_REG, S_IFMT};
use vstd::prelude::*;
use vstd::slice::slice_to_vec;
use vstd::string::*;

verus! {

// ---- contents ----------------------------------------------------------------------

/// `n` bytes of a file from `off` on; bytes that were never touched are zero.
pub open spec fn file_bytes(content: Seq<u8>, off: int, n: int) -> Seq<u8> {
    Seq::new(
        n as nat,
        |i: int|
            if off + i < content.len() {
                content[off + i]
            } else {
                0u8
            },
    )
}

/// A file after `data` was written at `off`.
pub open spec fn overwritten(content: Seq<u8>, off: int, data: Seq<u8>) -> Seq<u8> {
    Seq::new(
        if off + data.len() > content.len() {
            (off + data.len()) as nat
        } else {
            content.len()
        },
        |i: int|
            if off <= i < off + data.len() {
                data[i - off]
            } else if i < content.len() {
                content[i]
            } else {
                0u8
            },
    )
}

/// A file with the bytes from `a` up to `b` set to zero.
pub open spec fn zeroed_between(content: Seq<u8>, a: int, b: int) -> Seq<u8> {
    Seq::new(
        content.len(),
        |i: int|
            if a <= i < b {
                0u8
            } else {
                content[i]
            },
    )
}

/// Appends zeros up to a length.
pub fn pad_to(content: &mut Vec<u8>, n: usize)
    ensures
        final(content)@.len() == (if n > old(content)@.len() {
            n as nat
        } else {
            old(content)@.len()
        }),
        forall|i: int|
            0 <= i < final(content)@.len() ==> #[trigger] final(content)@[i] == (if i < old(
                content,
            )@.len() {
                old(content)@[i]
            } else {
                0u8
            }),
{
    while content.len() < n
        invariant
            content@.len() >= old(content)@.len(),
            content@.len() <= n || content@.len() == old(content)@.len(),
            forall|i: int|
                0 <= i < content@.len() ==> #[trigger] content@[i] == (if i < old(content)@.len() {
                    old(content)@[i]
                } else {
                    0u8
                }),
        decreases n - content@.len(),
    {
        content.push(0);
    }
}

/// Writes bytes over a file's contents; a gap before them is filled with zeros.
pub fn write_over(content: &mut Vec<u8>, off: usize, data: &[u8])
    requires
        off + data@.len() <= usize::MAX,
    ensures
        final(content)@ == overwritten(old(content)@, off as int, data@),
{
    pad_to(content, off + data.len());
    let ghost padded = content@;
    let mut i: usize = 0;
    while i < data.len()
        invariant
            off + data@.len() <= usize::MAX,
            off + data@.len() <= content@.len(),
            content@.len() == padded.len(),
            i <= data@.len(),
            forall|k: int|
                0 <= k < content@.len() ==> #[trigger] content@[k] == (if off <= k < off + i {
                    data@[k - off]
                } else {
                    padded[k]
                }),
        decreases data@.len() - i,
    {
        content.set(off + i, data[i]);
        i = i + 1;
    }
    assert(content@ =~= overwritten(old(content)@, off as int, data@));
}

fn zero_between(content: &mut Vec<u8>, a: usize, b: usize)
    ensures
        final(content)@ == zeroed_between(old(content)@, a as int, b as int),
{
    let mut i: usize = a;
    while i < b && i < content.len()
        invariant
            content@.len() == old(content)@.len(),
            a <= i,
            i <= b || i == a,
            forall|k: int|
                0 <= k < content@.len() ==> #[trigger] content@[k] == (if a <= k < i {
                    0u8
                } else {
                    old(content)@[k]
                }),
        decreases b - i,
    {
        content.set(i, 0);
        i = i + 1;
    }
    assert(content@ =~= zeroed_between(old(content)@, a as int, b as int));
}

impl VfsModel {
    /// What reading at most `cap` bytes from `off` on gives.
    pub open spec fn tmp_read(self, v: Handle, off: u64, cap: int) -> Result<Seq<u8>, Status> {
        match self.tmp_node_of(v) {
            None => Err(Status::NotFound),
            Some(h) => {
                let n = self.tmpfs_nodes.at(h);
                if n.kind != VnodeType::Reg {
                    Err(Status::InvalidOperation)
                } else if off >= n.size || cap == 0 {
                    Ok(Seq::empty())
                } else if n.mo_capacity == 0 {
                    Err(Status::InvalidOperation)
                } else {
                    Ok(
                        file_bytes(
                            n.content,
                            off as int,
                            if n.size - off <= cap {
                                n.size - off
                            } else {
                                cap
                            },
                        ),
                    )
                }
            },
        }
    }

    /// A write of `len` bytes at `off` reaches the storage of the file: the mount can be
    /// written, the file is a regular one, there are bytes to write, and their end is a
    /// file position.
    pub open spec fn takes_bytes(self, v: Handle, off: u64, len: int) -> bool {
        &&& !self.read_only(v)
        &&& self.tmp_node_of(v) matches Some(h)
        &&& self.tmpfs_nodes.at(h).kind == VnodeType::Reg
        &&& len > 0
        &&& off + len <= u64::MAX
    }

    /// Why `len` bytes cannot be written at `off`.
    pub open spec fn write_refused(self, v: Handle, off: u64, len: int, outcome: MoOutcome) -> Option<
        Status,
    > {
        if self.read_only(v) {
            Some(Status::ReadOnly)
        } else {
            match self.tmp_node_of(v) {
                None => Some(Status::NotFound),
                Some(h) => if self.tmpfs_nodes.at(h).kind != VnodeType::Reg {
                    Some(Status::InvalidOperation)
                } else if len == 0 {
                    None
                } else if off + len > u64::MAX {
                    Some(Status::InvalidArgument)
                } else {
                    self.growth_refused(h, (off + len) as u64, outcome)
                },
            }
        }
    }

    /// The state after an attempt to write `data` at `off`.
    pub open spec fn written(
        self,
        v: Handle,
        off: u64,
        data: Seq<u8>,
        outcome: MoOutcome,
        now: u64,
    ) -> VfsModel {
        match self.tmp_node_of(v) {
            None => self,
            Some(h) => if self.read_only(v) || self.tmpfs_nodes.at(h).kind != VnodeType::Reg
                || data.len() == 0 || off + data.len() > u64::MAX {
                self
            } else {
                let end = (off + data.len()) as u64;
                let s = self.grown_for(h, end, outcome);
                if self.growth_refused(h, end, outcome) is Some {
                    s
                } else {
                    let n = s.tmpfs_nodes.at(h);
                    let size = if end > n.size {
                        end
                    } else {
                        n.size
                    };
                    s.with_tmp_node(
                        h,
                        TmpNodeView {
                            content: overwritten(n.content, off as int, data),
                            size,
                            mtime_ns: now,
                            ctime_ns: now,
                            ..n
                        },
                    ).with_vnode(v, Vnode { size, mtime_ns: now, ..s.vnodes.at(v) })
                }
            },
        }
    }

    /// Why a file cannot be given the size `size`.
    pub open spec fn truncate_refused(self, v: Handle, size: u64, outcome: MoOutcome) -> Option<
        Status,
    > {
        if self.read_only(v) {
            Some(Status::ReadOnly)
        } else {
            match self.tmp_node_of(v) {
                None => Some(Status::NotFound),
                Some(h) => if self.tmpfs_nodes.at(h).kind != VnodeType::Reg {
                    Some(Status::InvalidOperation)
                } else if size == 0 {
                    None
                } else {
                    self.growth_refused(h, size, outcome)
                },
            }
        }
    }

    /// The state after an attempt to give a file the size `size`. A file cut to nothing
    /// gives its storage back; what a longer file gains is zero.
    pub open spec fn truncated(self, v: Handle, size: u64, outcome: MoOutcome, now: u64) -> VfsModel {
        match self.tmp_node_of(v) {
            None => self,
            Some(h) => if self.read_only(v) || self.tmpfs_nodes.at(h).kind != VnodeType::Reg {
                self
            } else if size == 0 {
                let s = self.storage_released(h);
                s.with_tmp_node(
                    h,
                    TmpNodeView { mtime_ns: now, ctime_ns: now, ..s.tmpfs_nodes.at(h) },
                ).with_vnode(v, Vnode { size: 0, mtime_ns: now, ..s.vnodes.at(v) })
            } else {
                let s = self.grown_for(h, size, outcome);
                if self.growth_refused(h, size, outcome) is Some {
                    s
                } else {
                    let n = s.tmpfs_nodes.at(h);
                    let end = if size <= n.mo_capacity {
                        size
                    } else {
                        n.mo_capacity
                    };
                    s.with_tmp_node(
                        h,
                        TmpNodeView {
                            content: if size > n.size && n.mo_capacity != 0 {
                                zeroed_between(n.content, n.size as int, end as int)
                            } else {
                                n.content
                            },
                            size,
                            mtime_ns: now,
                            ctime_ns: now,
                            ..n
                        },
                    ).with_vnode(v, Vnode { size, mtime_ns: now, ..s.vnodes.at(v) })
                }
            },
        }
    }
}

/// Reads from a regular file.
pub fn read_regular(state: &VfsState, vnode: Handle, file_offset: u64, cap: usize) -> (r: Result<
    Vec<u8>,
    Status,
>)
    ensures
        match r {
            Ok(out) => state@.tmp_read(vnode, file_offset, cap as int) == Ok::<Seq<u8>, Status>(
                out@,
            ),
            Err(e) => state@.tmp_read(vnode, file_offset, cap as int) == Err::<Seq<u8>, Status>(e),
        },
{
    let node_h = match find_node_handle_by_vnode(state, vnode) {
        Some(h) => h,
        None => {
            return Err(Status::NotFound);
        },
    };
    let n = match state.tmpfs_nodes.get(node_h) {
        Some(n) => n,
        None => {
            return Err(Status::InvalidOperation);
        },
    };
    if n.kind != VnodeType::Reg {
        return Err(Status::InvalidOperation);
    }
    let mut out: Vec<u8> = Vec::new();
    if file_offset >= n.size || cap == 0 {
        assert(out@ =~= Seq::<u8>::empty());
        return Ok(out);
    }
    if n.mo_capacity == 0 {
        return Err(Status::InvalidOperation);
    }
    let available: u64 = n.size - file_offset;
    let count: usize = if available <= cap as u64 {
        available as usize
    } else {
        cap
    };
    let ghost want = file_bytes(n.content@, file_offset as int, count as int);
    let mut i: usize = 0;
    while i < count
        invariant
            i <= count,
            file_offset + count <= n.size,
            want == file_bytes(n.content@, file_offset as int, count as int),
            out@ == want.take(i as int),
        decreases count - i,
    {
        let at: u64 = file_offset + i as u64;
        out.push(
            if at < n.content.len() as u64 {
                n.content[at as usize]
            } else {
                0
            },
        );
        i = i + 1;
        assert(out@ =~= want.take(i as int));
    }
    assert(out@ =~= want);
    Ok(out)
}

/// Writes to a regular file, given what came of the request to the memory server that
/// the write needs.
pub fn write_regular(
    state: &mut VfsState,
    vnode: Handle,
    file_offset: u64,
    src: &[u8],
    outcome: MoOutcome,
    now: u64,
) -> (r: Result<u64, Status>)
    requires
        old(state)@.takes_bytes(vnode, file_offset, src@.len() as int) ==> file_offset
            + src@.len() <= TMPFS_FILE_MAX && file_offset + src@.len() <= usize::MAX,
        outcome matches MoOutcome::Granted { pages, .. } ==> pages <= MO_PAGES_MAX,
    ensures
        r == (match old(state)@.write_refused(vnode, file_offset, src@.len() as int, outcome) {
            Some(e) => Err(e),
            None => Ok(src@.len() as u64),
        }),
        final(state)@ == old(state)@.written(vnode, file_offset, src@, outcome, now),
{
    match ensure_writable(state, vnode) {
        Ok(_) => {},
        Err(e) => {
            return Err(e);
        },
    }
    let node_h = match find_node_handle_by_vnode(state, vnode) {
        Some(h) => h,
        None => {
            return Err(Status::NotFound);
        },
    };
    let kind = match state.tmpfs_nodes.get(node_h) {
        Some(n) => n.kind,
        None => {
            return Err(Status::InvalidOperation);
        },
    };
    if kind != VnodeType::Reg {
        return Err(Status::InvalidOperation);
    }
    if src.len() == 0 {
        return Ok(0);
    }
    let end: u64 = match file_offset.checked_add(src.len() as u64) {
        Some(e) => e,
        None => {
            return Err(Status::InvalidArgument);
        },
    };
    match ensure_mo_capacity(state, node_h, end, outcome) {
        Ok(_) => {},
        Err(e) => {
            return Err(e);
        },
    }
    let ghost s = state@;
    assert(s.tmpfs_nodes.has(node_h));
    let mut size: u64 = 0;
    if let Some(n) = state.tmpfs_nodes.get_mut(node_h) {
        write_over(&mut n.content, file_offset as usize, src);
        n.mtime_ns = now;
        n.ctime_ns = now;
        if end > n.size {
            n.size = end;
        }
        size = n.size;
    }
    if let Some(vn) = state.vnodes.get_mut(vnode) {
        vn.size = size;
        vn.mtime_ns = now;
    }
    Ok(src.len() as u64)
}

/// Gives a regular file another size.
pub fn truncate_vnode(
    state: &mut VfsState,
    vnode: Handle,
    new_size: u64,
    outcome: MoOutcome,
    now: u64,
) -> (r: Result<(), Status>)
    requires
        new_size <= TMPFS_FILE_MAX,
        outcome matches MoOutcome::Granted { pages, .. } ==> pages <= MO_PAGES_MAX,
    ensures
        r == (match old(state)@.truncate_refused(vnode, new_size, outcome) {
            Some(e) => Err(e),
            None => Ok(()),
        }),
        final(state)@ == old(state)@.truncated(vnode, new_size, outcome, now),
{
    match ensure_writable(state, vnode) {
        Ok(_) => {},
        Err(e) => {
            return Err(e);
        },
    }
    let node_h = match find_node_handle_by_vnode(state, vnode) {
        Some(h) => h,
        None => {
            return Err(Status::NotFound);
        },
    };
    let kind = match state.tmpfs_nodes.get(node_h) {
        Some(n) => n.kind,
        None => {
            return Err(Status::NotFound);
        },
    };
    if kind != VnodeType::Reg {
        return Err(Status::InvalidOperation);
    }
    if new_size == 0 {
        release_node_storage(state, node_h);
        if let Some(n) = state.tmpfs_nodes.get_mut(node_h) {
            n.mtime_ns = now;
            n.ctime_ns = now;
        }
        if let Some(vn) = state.vnodes.get_mut(vnode) {
            vn.size = 0;
            vn.mtime_ns = now;
        }
        return Ok(());
    }
    match ensure_mo_capacity(state, node_h, new_size, outcome) {
        Ok(_) => {},
        Err(e) => {
            return Err(e);
        },
    }
    if let Some(n) = state.tmpfs_nodes.get_mut(node_h) {
        if new_size > n.size && n.mo_capacity != 0 {
            let end: u64 = if new_size <= n.mo_capacity {
                new_size
            } else {
                n.mo_capacity
            };
            let len: u64 = n.content.len() as u64;
            if n.size < len {
                let a: usize = n.size as usize;
                let b: usize = if end < len {
                    end as usize
                } else {
                    n.content.len()
                };
                let ghost before = n.content@;
                zero_between(&mut n.content, a, b);
                assert(n.content@ =~= zeroed_between(before, n.size as int, end as int));
            } else {
                assert(n.content@ =~= zeroed_between(n.content@, n.size as int, end as int));
            }
        }
        n.size = new_size;
        n.mtime_ns = now;
        n.ctime_ns = now;
    }
    if let Some(vn) = state.vnodes.get_mut(vnode) {
        vn.size = new_size;
        vn.mtime_ns = now;
    }
    Ok(())
}

/// What was written is read back: reading the written range gives the written bytes, and
/// the other bytes of the file are as they were.
pub proof fn law_read_gives_back_what_was_written(
    m: VfsModel,
    v: Handle,
    off: u64,
    data: Seq<u8>,
    outcome: MoOutcome,
    now: u64,
)
    requires
        data.len() > 0,
        m.write_refused(v, off, data.len() as int, outcome) is None,
        m.grown_for(m.tmp_node_of(v)->0, (off + data.len()) as u64, outcome).tmpfs_nodes.at(
            m.tmp_node_of(v)->0,
        ).mo_capacity != 0,
    ensures
        m.written(v, off, data, outcome, now).tmp_read(v, off, data.len() as int) == Ok::<
            Seq<u8>,
            Status,
        >(data),
        forall|i: int|
            0 <= i < m.tmpfs_nodes.at(m.tmp_node_of(v)->0).size && !(off <= i < off + data.len())
                ==> #[trigger] file_bytes(
                m.written(v, off, data, outcome, now).tmpfs_nodes.at(m.tmp_node_of(v)->0).content,
                i,
                1,
            ) == file_bytes(m.tmpfs_nodes.at(m.tmp_node_of(v)->0).content, i, 1),
{
    let h = m.tmp_node_of(v)->0;
    let end = (off + data.len()) as u64;
    let s = m.grown_for(h, end, outcome);
    let w = m.written(v, off, data, outcome, now);
    assert(s.tmpfs_nodes.has(h));
    assert(s.vnodes == m.vnodes);
    assert(s.tmpfs_nodes.at(h).content == m.tmpfs_nodes.at(h).content);
    assert(w.tmp_node_of(v) == Some(h));
    let c = w.tmpfs_nodes.at(h).content;
    assert(c == overwritten(m.tmpfs_nodes.at(h).content, off as int, data));
    assert(file_bytes(c, off as int, data.len() as int) =~= data);
    assert forall|i: int|
        0 <= i < m.tmpfs_nodes.at(h).size && !(off <= i < off + data.len()) implies #[trigger] file_bytes(
        c,
        i,
        1,
    ) == file_bytes(m.tmpfs_nodes.at(h).content, i, 1) by {
        assert(file_bytes(c, i, 1) =~= file_bytes(m.tmpfs_nodes.at(h).content, i, 1));
    }
}

/// What a file gains by growing reads as zeros: no byte above the old size shows what was
/// stored there before.
pub proof fn law_growth_reads_as_zeros(
    m: VfsModel,
    v: Handle,
    size: u64,
    outcome: MoOutcome,
    now: u64,
    at: u64,
)
    requires
        m.truncate_refused(v, size, outcome) is None,
        m.tmpfs_nodes.at(m.tmp_node_of(v)->0).size <= at < size,
        size <= m.grown_for(m.tmp_node_of(v)->0, size, outcome).tmpfs_nodes.at(
            m.tmp_node_of(v)->0,
        ).mo_capacity,
    ensures
        m.truncated(v, size, outcome, now).tmp_read(v, at, 1) == Ok::<Seq<u8>, Status>(seq![0u8]),
{
    let h = m.tmp_node_of(v)->0;
    let s = m.grown_for(h, size, outcome);
    let t = m.truncated(v, size, outcome, now);
    assert(s.tmpfs_nodes.has(h));
    assert(t.tmp_node_of(v) == Some(h));
    assert(file_bytes(t.tmpfs_nodes.at(h).content, at as int, 1) =~= seq![0u8]);
}

// ---- attributes and listings -------------------------------------------------------

impl VfsModel {
    /// Why the attributes of vnode `v` cannot be changed.
    pub open spec fn tmp_attr_refused(self, v: Handle) -> Option<Status> {
        if self.read_only(v) {
            Some(Status::ReadOnly)
        } else if self.tmp_node_of(v) is None {
            Some(Status::NotFound)
        } else {
            None
        }
    }
}

/// Changes the permission bits; the type bits stay.
pub fn set_mode_vnode(state: &mut VfsState, vnode: Handle, mode: u32, now: u64) -> (r: Result<
    (),
    Status,
>)
    ensures
        match old(state)@.tmp_attr_refused(vnode) {
            Some(e) => r == Err::<(), Status>(e) && final(state)@ == old(state)@,
            None => {
                let h = old(state)@.tmp_node_of(vnode)->0;
                let n = old(state)@.tmpfs_nodes.at(h);
                let full = (n.mode & S_IFMT) | (mode & 0o7777);
                &&& r == Ok::<(), Status>(())
                &&& final(state)@ == old(state)@.with_tmp_node(
                    h,
                    TmpNodeView { mode: full, ctime_ns: now, ..n },
                ).with_vnode(vnode, Vnode { mode: full, ..old(state)@.vnodes.at(vnode) })
            },
        },
{
    match ensure_writable(state, vnode) {
        Ok(_) => {},
        Err(e) => {
            return Err(e);
        },
    }
    let node_h = match find_node_handle_by_vnode(state, vnode) {
        Some(h) => h,
        None => {
            return Err(Status::NotFound);
        },
    };
    let mut full: u32 = 0;
    if let Some(n) = state.tmpfs_nodes.get_mut(node_h) {
        full = (n.mode & S_IFMT) | (mode & 0o7777);
        n.mode = full;
        n.ctime_ns = now;
    }
    if let Some(vn) = state.vnodes.get_mut(vnode) {
        vn.mode = full;
    }
    Ok(())
}

/// The new value of an owner field: the largest value leaves it.
pub open spec fn owner_or(new: u32, before: u32) -> u32 {
    if new != u32::MAX {
        new
    } else {
        before
    }
}

/// The new value of a time field: none leaves it.
pub open spec fn time_or(new: Option<u64>, before: u64) -> u64 {
    match new {
        Some(t) => t,
        None => before,
    }
}

/// Picks the new value of a time field.
pub fn pick_time(new: Option<u64>, before: u64) -> (r: u64)
    ensures
        r == time_or(new, before),
{
    match new {
        Some(t) => t,
        None => before,
    }
}

/// Picks the new value of an owner field.
pub fn pick_owner(new: u32, before: u32) -> (r: u32)
    ensures
        r == owner_or(new, before),
{
    if new != u32::MAX {
        new
    } else {
        before
    }
}

/// Changes owner and group.
pub fn set_owner_vnode(state: &mut VfsState, vnode: Handle, uid: u32, gid: u32, now: u64) -> (r:
    Result<(), Status>)
    ensures
        match old(state)@.tmp_attr_refused(vnode) {
            Some(e) => r == Err::<(), Status>(e) && final(state)@ == old(state)@,
            None => {
                let h = old(state)@.tmp_node_of(vnode)->0;
                let n = old(state)@.tmpfs_nodes.at(h);
                let vn = old(state)@.vnodes.at(vnode);
                &&& r == Ok::<(), Status>(())
                &&& final(state)@ == old(state)@.with_tmp_node(
                    h,
                    TmpNodeView {
                        uid: owner_or(uid, n.uid),
                        gid: owner_or(gid, n.gid),
                        ctime_ns: now,
                        ..n
                    },
                ).with_vnode(
                    vnode,
                    Vnode { uid: owner_or(uid, vn.uid), gid: owner_or(gid, vn.gid), ..vn },
                )
            },
        },
{
    match ensure_writable(state, vnode) {
        Ok(_) => {},
        Err(e) => {
            return Err(e);
        },
    }
    let node_h = match find_node_handle_by_vnode(state, vnode) {
        Some(h) => h,
        None => {
            return Err(Status::NotFound);
        },
    };
    if let Some(n) = state.tmpfs_nodes.get_mut(node_h) {
        n.uid = pick_owner(uid, n.uid);
        n.gid = pick_owner(gid, n.gid);
        n.ctime_ns = now;
    }
    if let Some(vn) = state.vnodes.get_mut(vnode) {
        vn.uid = pick_owner(uid, vn.uid);
        vn.gid = pick_owner(gid, vn.gid);
    }
    Ok(())
}

/// Changes access and modification times.
pub fn set_times_vnode(
    state: &mut VfsState,
    vnode: Handle,
    atime_ns: Option<u64>,
    mtime_ns: Option<u64>,
    now: u64,
) -> (r: Result<(), Status>)
    ensures
        match old(state)@.tmp_attr_refused(vnode) {
            Some(e) => r == Err::<(), Status>(e) && final(state)@ == old(state)@,
            None => {
                let h = old(state)@.tmp_node_of(vnode)->0;
                let n = old(state)@.tmpfs_nodes.at(h);
                let vn = old(state)@.vnodes.at(vnode);
                &&& r == Ok::<(), Status>(())
                &&& final(state)@ == old(state)@.with_tmp_node(
                    h,
                    TmpNodeView {
                        atime_ns: time_or(atime_ns, n.atime_ns),
                        mtime_ns: time_or(mtime_ns, n.mtime_ns),
                        ctime_ns: now,
                        ..n
                    },
                ).with_vnode(
                    vnode,
                    Vnode {
                        atime_ns: time_or(atime_ns, vn.atime_ns),
                        mtime_ns: time_or(mtime_ns, vn.mtime_ns),
                        ..vn
                    },
                )
            },
        },
{
    match ensure_writable(state, vnode) {
        Ok(_) => {},
        Err(e) => {
            return Err(e);
        },
    }
    let node_h = match find_node_handle_by_vnode(state, vnode) {
        Some(h) => h,
        None => {
            return Err(Status::NotFound);
        },
    };
    if let Some(n) = state.tmpfs_nodes.get_mut(node_h) {
        n.atime_ns = pick_time(atime_ns, n.atime_ns);
        n.mtime_ns = pick_time(mtime_ns, n.mtime_ns);
        n.ctime_ns = now;
    }
    if let Some(vn) = state.vnodes.get_mut(vnode) {
        vn.atime_ns = pick_time(atime_ns, vn.atime_ns);
        vn.mtime_ns = pick_time(mtime_ns, vn.mtime_ns);
    }
    Ok(())
}

/// Whether a vnode is a symlink with a target.
pub fn ensure_symlink_target(state: &VfsState, vnode: Handle) -> (r: bool)
    ensures
        r == (match state@.tmp_node_of(vnode) {
            Some(h) => state@.tmpfs_nodes.at(h).kind == VnodeType::Lnk && state@.tmpfs_nodes.at(
                h,
            ).symlink.is_valid(),
            None => false,
        }),
{
    match find_node_handle_by_vnode(state, vnode) {
        Some(h) => match state.tmpfs_nodes.get(h) {
            Some(n) => n.kind == VnodeType::Lnk && n.symlink.is_valid(),
            None => false,
        },
        None => false,
    }
}

/// What reading a symlink gives: as much of the target as fits, and its full length.
pub struct LinkText {
    pub bytes: Vec<u8>,
    pub full_len: usize,
}

impl VfsModel {
    /// The target of symlink vnode `v`.
    pub open spec fn tmp_target(self, v: Handle) -> Result<Seq<u8>, Status> {
        match self.tmp_node_of(v) {
            None => Err(Status::NotFound),
            Some(h) => {
                let n = self.tmpfs_nodes.at(h);
                if n.kind != VnodeType::Lnk || !n.symlink.is_valid() || !self.tmpfs_symlinks.has(
                    n.symlink,
                ) {
                    Err(Status::InvalidOperation)
                } else {
                    Ok(self.tmpfs_symlinks.at(n.symlink))
                }
            },
        }
    }
}

/// Reads a symlink.
pub fn readlink_inline(state: &VfsState, vnode: Handle, cap: usize) -> (r: Result<LinkText, Status>)
    ensures
        match r {
            Ok(t) => state@.tmp_target(vnode) is Ok && t.bytes@ == prefix(
                state@.tmp_target(vnode)->Ok_0,
                cap as int,
            ) && t.full_len == state@.tmp_target(vnode)->Ok_0.len(),
            Err(e) => state@.tmp_target(vnode) == Err::<Seq<u8>, Status>(e),
        },
{
    let node_h = match find_node_handle_by_vnode(state, vnode) {
        Some(h) => h,
        None => {
            return Err(Status::NotFound);
        },
    };
    let symlink = match state.tmpfs_nodes.get(node_h) {
        Some(n) => {
            if n.kind != VnodeType::Lnk {
                return Err(Status::InvalidOperation);
            }
            n.symlink
        },
        None => {
            return Err(Status::InvalidOperation);
        },
    };
    if !symlink.is_valid() {
        return Err(Status::InvalidOperation);
    }
    match state.tmpfs_symlinks.get(symlink) {
        Some(b) => Ok(
            LinkText {
                bytes: copy_prefix(b.bytes.as_slice(), cap),
                full_len: b.bytes.len(),
            },
        ),
        None => Err(Status::InvalidOperation),
    }
}

/// One entry of a listing of the in-memory filesystem.
pub struct TmpDirItem {
    pub next_cursor: u64,
    /// No entry follows.
    pub eof_after: bool,
    pub name: Vec<u8>,
    pub ino: u64,
    pub d_type: u8,
}

/// Value of a [`TmpDirItem`].
#[verifier::ext_equal]
pub struct TmpDirItemView {
    pub next_cursor: u64,
    pub eof_after: bool,
    pub name: Seq<u8>,
    pub ino: u64,
    pub d_type: u8,
}

impl View for TmpDirItem {
    type V = TmpDirItemView;

    open spec fn view(&self) -> TmpDirItemView {
        TmpDirItemView {
            next_cursor: self.next_cursor,
            eof_after: self.eof_after,
            name: self.name@,
            ino: self.ino,
            d_type: self.d_type,
        }
    }
}

/// Longest name in a listing; longer ones are cut off.
pub const LISTED_NAME_MAX: usize = 128;

/// Entry type of a node in listings.
#[verifier::allow_in_spec]
pub fn listed_type(kind: VnodeType) -> (r: u8)
    returns
        (match kind {
            VnodeType::Dir => DT_DIR,
            VnodeType::Lnk => DT_LNK,
            _ => DT_REG,
        }),
{
    match kind {
        VnodeType::Dir => DT_DIR,
        VnodeType::Lnk => DT_LNK,
        _ => DT_REG,
    }
}

impl VfsModel {
    /// What a listing of directory vnode `v` shows at `cursor`: the name at that place, or
    /// nothing behind the last.
    pub open spec fn tmp_listed(self, v: Handle, cursor: u64) -> Result<
        Option<TmpDirItemView>,
        Status,
    > {
        match self.tmp_node_of(v) {
            None => Err(Status::NotFound),
            Some(h) => {
                let n = self.tmpfs_nodes.at(h);
                if n.kind != VnodeType::Dir {
                    Err(Status::InvalidOperation)
                } else if cursor >= n.children.len() || !self.tmpfs_nodes.has(
                    n.children[cursor as int].child,
                ) {
                    Ok(None)
                } else {
                    let e = n.children[cursor as int];
                    let c = self.tmpfs_nodes.at(e.child);
                    Ok(
                        Some(
                            TmpDirItemView {
                                next_cursor: (cursor + 1) as u64,
                                eof_after: cursor + 1 == n.children.len(),
                                name: prefix(e.name, LISTED_NAME_MAX as int),
                                ino: match self.vnodes.entry(c.vnode) {
                                    Some(vn) => vn.id,
                                    None => 0,
                                },
                                d_type: listed_type(c.kind),
                            },
                        ),
                    )
                }
            },
        }
    }
}

/// The entry of a directory at `cursor`.
pub fn readdir_dir(state: &VfsState, vnode: Handle, cursor: u64) -> (r: Result<
    Option<TmpDirItem>,
    Status,
>)
    ensures
        match r {
            Ok(Some(i)) => state@.tmp_listed(vnode, cursor) == Ok::<
                Option<TmpDirItemView>,
                Status,
            >(Some(i@)),
            Ok(None) => state@.tmp_listed(vnode, cursor) == Ok::<Option<TmpDirItemView>, Status>(
                None,
            ),
            Err(e) => state@.tmp_listed(vnode, cursor) == Err::<Option<TmpDirItemView>, Status>(e),
        },
{
    let node_h = match find_node_handle_by_vnode(state, vnode) {
        Some(h) => h,
        None => {
            return Err(Status::NotFound);
        },
    };
    let n = match state.tmpfs_nodes.get(node_h) {
        Some(n) => n,
        None => {
            return Err(Status::InvalidOperation);
        },
    };
    if n.kind != VnodeType::Dir {
        return Err(Status::InvalidOperation);
    }
    assert(n@.children.len() == n.children@.len());
    if cursor >= n.children.len() as u64 {
        return Ok(None);
    }
    let i: usize = cursor as usize;
    assert(n@.children[i as int] == n.children@[i as int]@);
    let child = n.children[i].child;
    let (kind, child_vnode) = match state.tmpfs_nodes.get(child) {
        Some(c) => (c.kind, c.vnode),
        None => {
            return Ok(None);
        },
    };
    let ino: u64 = match state.vnodes.get(child_vnode) {
        Some(vn) => vn.id,
        None => 0,
    };
    Ok(
        Some(
            TmpDirItem {
                next_cursor: cursor + 1,
                eof_after: i + 1 == n.children.len(),
                name: copy_prefix(n.children[i].name.as_slice(), LISTED_NAME_MAX),
                ino,
                d_type: listed_type(kind),
            },
        ),
    )
}

impl VfsModel {
    /// Components from the root of the mount down to node `h`, at most `n` of them, each
    /// with a slash before it. The root has no name and adds nothing.
    pub open spec fn tmp_trail(self, h: Handle, n: nat) -> Option<Seq<u8>>
        decreases n,
    {
        if n == 0 {
            None
        } else {
            match self.tmpfs_nodes.entry(h) {
                None => None,
                Some(nd) => {
                    let up = if nd.parent.is_valid() {
                        self.tmp_trail(nd.parent, (n - 1) as nat)
                    } else {
                        Some(Seq::empty())
                    };
                    match up {
                        None => None,
                        Some(p) => Some(
                            if nd.name.len() == 0 {
                                p
                            } else {
                                p + seq![SLASH] + nd.name
                            },
                        ),
                    }
                },
            }
        }
    }

    /// Path of vnode `v` within its mount, if it fits in `cap` bytes.
    pub open spec fn tmp_path(self, v: Handle, cap: int) -> Option<Seq<u8>> {
        match self.tmp_node_of(v) {
            None => None,
            Some(h) => match self.tmp_trail(h, 64) {
                None => None,
                Some(p) => {
                    let path = if p.len() == 0 {
                        seq![SLASH]
                    } else {
                        p
                    };
                    if path.len() <= cap {
                        Some(path)
                    } else {
                        None
                    }
                },
            },
        }
    }
}

fn trail(state: &VfsState, h: Handle, n: usize, cap: usize) -> (r: Option<Vec<u8>>)
    requires
        cap <= usize::MAX / 2,
    ensures
        match r {
            Some(p) => state@.tmp_trail(h, n as nat) == Some(p@) && p@.len() <= cap,
            None => match state@.tmp_trail(h, n as nat) {
                Some(p) => p.len() > cap,
                None => true,
            },
        },
    decreases n,
{
    if n == 0 {
        return None;
    }
    let nd = match state.tmpfs_nodes.get(h) {
        Some(nd) => nd,
        None => {
            return None;
        },
    };
    let mut p: Vec<u8> = if nd.parent.is_valid() {
        match trail(state, nd.parent, n - 1, cap) {
            Some(p) => p,
            None => {
                return None;
            },
        }
    } else {
        let none: Vec<u8> = Vec::new();
        assert(none@ =~= Seq::<u8>::empty());
        none
    };
    if nd.name.len() == 0 {
        return Some(p);
    }
    if nd.name.len() > cap {
        return None;
    }
    let ghost up = p@;
    p.push(SLASH);
    push_bytes(&mut p, nd.name.as_slice());
    assert(p@ =~= up + seq![SLASH] + nd.name@);
    if p.len() > cap {
        return None;
    }
    Some(p)
}

/// Path of a vnode within its mount.
pub fn build_path_for_vnode(state: &VfsState, vnode: Handle, cap: usize) -> (r: Option<Vec<u8>>)
    requires
        cap <= usize::MAX / 2,
    ensures
        match r {
            Some(p) => state@.tmp_path(vnode, cap as int) == Some(p@),
            None => state@.tmp_path(vnode, cap as int) is None,
        },
{
    let node_h = match find_node_handle_by_vnode(state, vnode) {
        Some(h) => h,
        None => {
            return None;
        },
    };
    let mut p: Vec<u8> = match trail(state, node_h, 64, cap) {
        Some(p) => p,
        None => {
            return None;
        },
    };
    if p.len() == 0 {
        if cap == 0 {
            return None;
        }
        p.push(SLASH);
        assert(p@ =~= seq![SLASH]);
    }
    Some(p)
}

} // verus!
