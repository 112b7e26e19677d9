//! What holds of the disk filesystem: what the disk server reports is what is shown.

use crate::arena::{unpacked, Handle};
use crate::backend_rpc::PendingBackendCompletion;
use crate::bytes::SLASH;
use crate::fs::saltyfs::{described, salty_node_named, with_attrs, with_stat, DiskAnswers};
use crate::fs::saltyfs_done::{
    create_done, kept_args, kept_walk, lookup_done, op_of, readlink_done, rename_done,
    setattr_done, unlink_done, DiskDone,
};
use crate::fs::saltyfs_wire::{
    asks_name, asks_two_names, asks_words, attrs_of, entry_dtype, little_word, lookup_of,
    read_transfer, session_of, setattr_words, stat_of, transfer_words, vtype_of, AttrChange,
    AttrSnapshot, LookupSnapshot, StatSnapshot,
};
use crate::identity::{BackendNodeId, VnodeKey};
use crate::namei_laws::{
    follows_component, is_component, lemma_component_of, lemma_slashes_scanned,
};
use crate::namei_state::NAMEI_STEP_DONE;
use crate::pending_ops::{
    pool_wf, PoolView, ReplyAction, PO_KIND_BACKEND_RPC, PO_KIND_OPEN_CONT,
};
use crate::state::{index_drop, VfsModel};
use crate::status::Status;
use crate::vnode::{Backend, Vnode, VnodeType};
use crate::wire::{reg_bytes, DeferredChange, Opcode, Request, MSG_REGS};
use vstd::prelude::*;

verus! {

// ---- words of a message ------------------------------------------------------------

/// Where in its answers the disk server puts what it reports.
pub proof fn law_words_of_an_answer(regs: Seq<u64>)
    ensures
        ({
            let a = lookup_of(regs);
            &&& a.ino == regs[0] && a.seq == regs[1] as u32 && a.mode == regs[2] as u32
            &&& a.size == regs[3] && a.nlink == regs[4] as u32 && a.mtime == regs[5]
            &&& a.uid == regs[6] as u32 && a.gid == regs[7] as u32
            &&& a.dir_type == regs[8] as u8 && a.blocks == regs[9]
        }),
        ({
            let a = attrs_of(regs);
            &&& a.mode == regs[0] as u32 && a.uid == regs[1] as u32 && a.gid == regs[2] as u32
            &&& a.size == regs[3] && a.nlink == regs[4] as u32
            &&& a.atime == regs[5] && a.mtime == regs[6]
        }),
        ({
            let a = stat_of(regs);
            &&& a.size == regs[1] && a.mode == regs[2] as u32 && a.nlink == regs[3] as u32
            &&& a.mtime == regs[4] && a.blocks == regs[5]
            &&& a.uid == regs[6] as u32 && a.gid == regs[7] as u32 && a.seq == regs[8] as u32
        }),
        ({
            let a = session_of(regs);
            &&& a.session_id == regs[0] as u32 && a.max_inflight == (regs[0] >> 32) as u16
            &&& a.root_node.ino == regs[1] && a.root_node.seq == regs[2] as u32
            &&& a.feature_bits == regs[3]
        }),
{
}

/// A name that is sent is what the receiver finds behind the words, and the words are the ones
/// that were meant.
pub proof fn law_sent_name_arrives(r: Request, op: Opcode, words: Seq<u64>, name: Seq<u8>)
    requires
        asks_name(r, op, words, name),
        words.len() <= MSG_REGS,
    ensures
        r.op == op,
        reg_bytes(r.regs@, words.len() as int, name.len() as int) == name,
        forall|i: int| 0 <= i < words.len() ==> #[trigger] r.regs@[i] == words[i],
        r.length == words.len() + (name.len() + 7) / 8,
{
    assert(reg_bytes(r.regs@, words.len() as int, name.len() as int) =~= name);
}

/// Two names that are sent are what the receiver finds, each in its place.
pub proof fn law_sent_names_arrive(
    r: Request,
    op: Opcode,
    words: Seq<u64>,
    a: Seq<u8>,
    b: Seq<u8>,
)
    requires
        asks_two_names(r, op, words, a, b),
        words.len() <= 12,
    ensures
        r.op == op,
        reg_bytes(r.regs@, words.len() as int, a.len() as int) == a,
        reg_bytes(r.regs@, 12, b.len() as int) == b,
        forall|i: int| 0 <= i < words.len() ==> #[trigger] r.regs@[i] == words[i],
{
    assert(reg_bytes(r.regs@, words.len() as int, a.len() as int) =~= a);
    assert(reg_bytes(r.regs@, 12, b.len() as int) =~= b);
}

/// Words that are sent alone are what the receiver finds.
pub proof fn law_sent_words_arrive(r: Request, op: Opcode, words: Seq<u64>)
    requires
        asks_words(r, op, words),
        words.len() <= MSG_REGS,
    ensures
        r.op == op,
        r.length == words.len(),
        forall|i: int| 0 <= i < words.len() ==> #[trigger] r.regs@[i] == words[i],
{
}

/// A byte area holds its bytes lowest first: the low byte of a register, then the next, and
/// after eight of them the next register.
pub proof fn law_bytes_lie_lowest_first(regs: Seq<u64>, start: int, n: int, i: int)
    requires
        0 <= i < n,
    ensures
        reg_bytes(regs, start, n).len() == n,
        reg_bytes(regs, start, n)[i] == ((regs[start + i / 8] >> ((8 * (i % 8)) as u64)) & 0xff) as u8,
{
}

/// Where a request that changes attributes puts them.
pub proof fn law_words_of_a_change(ino: u64, c: AttrChange)
    ensures
        ({
            let w = setattr_words(ino, c);
            &&& w.len() == 7
            &&& w[0] == ino && w[1] == c.mask && w[2] == c.mode
            &&& w[3] == (c.uid as u64 | ((c.gid as u64) << 32))
            &&& w[4] == c.atime && w[5] == c.mtime && w[6] == c.size
        }),
{
}

/// A read of at most 152 bytes, and any read without shared memory, travels in the registers;
/// a longer one travels in shared memory whole.
pub proof fn law_reads_travel_whole_in_shared_memory(shm: bool, cap: u64)
    ensures
        shm && cap > 152 ==> transfer_words(read_transfer(shm, cap)) == (1u64, 0u64, cap),
        !shm || cap <= 152 ==> transfer_words(read_transfer(shm, cap)) == (
            0u64,
            0u64,
            if cap < 152 {
                cap
            } else {
                152u64
            },
        ),
{
}

/// A word in memory has its lowest byte first.
pub proof fn law_words_in_memory(b: Seq<u8>, at: int)
    ensures
        little_word(b, at, 4) == b[at] + 0x100 * b[at + 1] + 0x1_0000 * b[at + 2] + 0x100_0000 * b[at
            + 3],
        little_word(b, at, 8) == little_word(b, at, 4) + 0x1_0000_0000 * little_word(b, at + 4, 4),
{
    reveal_with_fuel(little_word, 9);
}

/// The kind of a node is what the type bits of its mode say; only where they say none is it
/// that of the directory entry, and a regular file where that says none either.
pub proof fn law_kind_of_a_node(mode: u32, d: u8)
    ensures
        ({
            let fmt = mode & 0o170000;
            let t = vtype_of(mode, d);
            &&& fmt == 0o040000 ==> t == VnodeType::Dir
            &&& fmt == 0o100000 ==> t == VnodeType::Reg
            &&& fmt == 0o120000 ==> t == VnodeType::Lnk
            &&& fmt == 0o020000 ==> t == VnodeType::Chr
            &&& fmt == 0o010000 ==> t == VnodeType::Fifo
            &&& fmt == 0o140000 ==> t == VnodeType::Sock
            &&& fmt == 0 ==> t == (if d == 4 {
                VnodeType::Dir
            } else if d == 10 {
                VnodeType::Lnk
            } else {
                VnodeType::Reg
            })
            &&& d != 0 ==> entry_dtype(mode, d) == d
            &&& fmt == 0o040000 ==> entry_dtype(mode, 0) == 4
            &&& fmt == 0o100000 ==> entry_dtype(mode, 0) == 8
            &&& fmt == 0o120000 ==> entry_dtype(mode, 0) == 10
        }),
{
}

// ---- what is shown -----------------------------------------------------------------

/// Nanoseconds of a number of seconds, as many as there may be.
pub open spec fn in_nanoseconds(secs: u64) -> int {
    if secs * 1_000_000_000 <= u64::MAX {
        secs * 1_000_000_000
    } else {
        u64::MAX as int
    }
}

proof fn lemma_installed(
    u: VfsModel,
    mount: Handle,
    v: Handle,
    id: BackendNodeId,
    parent: Handle,
    name: Seq<u8>,
    blocks: u64,
    o: Handle,
)
    requires
        u.saltyfs_nodes.wf(),
        u.vnodes.has(v),
        u.node_installed(mount, v, id, parent, name, blocks).1 is Some,
    ensures
        ({
            let (w, node) = u.node_installed(mount, v, id, parent, name, blocks);
            let h = node->0;
            let n = w.saltyfs_nodes.at(h);
            &&& w.vnodes.has(v)
            &&& w.vnodes.at(v) == (Vnode { backend_ref: h, ..u.vnodes.at(v) })
            &&& o != v ==> w.vnodes.entry(o) == u.vnodes.entry(o)
            &&& w.saltyfs_nodes.has(h)
            &&& n.vnode == v && n.owner_mount == mount && n.blocks == blocks && n.node_id == id
            &&& n.parent_node == parent
            &&& name.len() <= 144 ==> n.name == name
            &&& o != h ==> w.saltyfs_nodes.entry(o) == u.saltyfs_nodes.entry(o)
            &&& w.mounts == u.mounts && w.boot_entries == u.boot_entries && w.blobs == u.blobs
        }),
{
    u.saltyfs_nodes.lemma_vacant(0);
}

/// A vnode that a lookup led to shows what the disk server reported, each in its place. It is
/// known under the name that was looked up, in the directory it was looked up in. Other vnodes
/// stay as they are.
pub proof fn law_lookup_is_shown(
    m: VfsModel,
    mount: Handle,
    parent: Handle,
    name: Seq<u8>,
    snap: LookupSnapshot,
    v: Handle,
    o: Handle,
)
    requires
        m.vnodes.wf(),
        m.saltyfs_nodes.wf(),
        m.materialized(mount, parent, name, snap).1 == Some(v),
    ensures
        ({
            let s = m.materialized(mount, parent, name, snap).0;
            let vn = s.vnodes.at(v);
            let n = s.saltyfs_nodes.at(vn.backend_ref);
            &&& s.vnodes.has(v)
            &&& vn.id == snap.ino && vn.backend_seq == snap.seq
            &&& vn.mode == snap.mode && vn.vtype == vtype_of(snap.mode, snap.dir_type)
            &&& vn.size == snap.size
            &&& vn.uid == snap.uid && vn.gid == snap.gid
            &&& vn.nlink == snap.nlink
            &&& vn.mtime_ns == in_nanoseconds(snap.mtime)
            &&& vn.fs_instance_id == m.mounts.at(mount).fs_instance_id
            &&& vn.mount.handle == mount && vn.backend == Backend::Saltyfs
            &&& vn.ops == Some(Backend::Saltyfs)
            &&& s.salty_node(v) == Some(vn.backend_ref)
            &&& n.vnode == v && n.owner_mount == mount && n.blocks == snap.blocks
            &&& n.node_id.ino == snap.ino && n.node_id.seq == snap.seq
            &&& Some(n.parent_node) == m.salty_node(parent)
            &&& name.len() <= 144 ==> n.name == name
            &&& o != v ==> s.vnodes.entry(o) == m.vnodes.entry(o)
            &&& o != vn.backend_ref ==> s.saltyfs_nodes.entry(o) == m.saltyfs_nodes.entry(o)
            &&& s.mounts == m.mounts && s.boot_entries == m.boot_entries && s.blobs == m.blobs
        }),
{
    reveal(VfsModel::materialized);
    m.vnodes.lemma_vacant(0);
    let fs_id = m.mounts.at(mount).fs_instance_id;
    let id = BackendNodeId { ino: snap.ino, seq: snap.seq };
    let key = VnodeKey { fs_instance_id: fs_id, backend_id: id };
    m.vnodes.lemma_scan(|h: Handle, vn: Vnode| vn.vnode_key() == key, 0);
    let a = m.key_looked_up(key);
    let t = match m.vnode_of_key(key) {
        Some(_) => a,
        None => VfsModel { vnodes: a.vnodes.grown(Vnode::zeroed()), ..a },
    };
    assert(a.vnodes == m.vnodes && a.saltyfs_nodes == m.saltyfs_nodes && a.mounts == m.mounts);
    assert(t.vnodes.has(v));
    assert(o != v ==> t.vnodes.entry(o) == m.vnodes.entry(o));
    let was = t.vnodes.at(v);
    let u = VfsModel {
        index: index_drop(t.index, was.vnode_key(), v),
        ..t.with_vnode(v, described(was, fs_id, mount, snap))
    }.cached(v);
    let pn = m.salty_node(parent)->0;
    assert(u.vnodes.at(v) == described(was, fs_id, mount, snap));
    assert(u.vnodes.has(v) && u.saltyfs_nodes == m.saltyfs_nodes && u.blobs == m.blobs);
    assert(u.mounts == m.mounts && u.boot_entries == m.boot_entries);
    lemma_installed(u, mount, v, id, pn, name, snap.blocks, o);
}

/// A lookup that was answered leads to a vnode wherever the mount and the directory are known
/// and there is room.
pub proof fn law_lookup_is_owed(
    m: VfsModel,
    mount: Handle,
    parent: Handle,
    name: Seq<u8>,
    snap: LookupSnapshot,
)
    requires
        m.vnodes.wf(),
        m.mounts.has(mount),
        m.salty_node(parent) is Some,
        m.vnodes.next() is Some,
        m.saltyfs_nodes.next() is Some,
    ensures
        m.materialized(mount, parent, name, snap).1 is Some,
{
    reveal(VfsModel::materialized);
    m.vnodes.lemma_vacant(0);
    let key = VnodeKey {
        fs_instance_id: m.mounts.at(mount).fs_instance_id,
        backend_id: BackendNodeId { ino: snap.ino, seq: snap.seq },
    };
    m.vnodes.lemma_scan(|h: Handle, vn: Vnode| vn.vnode_key() == key, 0);
}

/// After a change of attributes the vnode shows what the disk server reported, each in its
/// place; nothing else of it changes, and no other vnode does.
pub proof fn law_attributes_are_shown(m: VfsModel, v: Handle, a: AttrSnapshot, o: Handle)
    requires
        m.vnodes.has(v),
    ensures
        ({
            let was = m.vnodes.at(v);
            let s = m.reported(v, with_attrs(was, a));
            let vn = s.vnodes.at(v);
            &&& s.vnodes.has(v)
            &&& vn.mode == a.mode && vn.uid == a.uid && vn.gid == a.gid
            &&& vn.size == a.size && vn.nlink == a.nlink
            &&& vn.atime_ns == in_nanoseconds(a.atime) && vn.mtime_ns == in_nanoseconds(a.mtime)
            &&& vn.vtype == vtype_of(a.mode, 0)
            &&& vn.id == was.id && vn.backend_seq == was.backend_seq && vn.mount == was.mount
            &&& vn.open_count == was.open_count && vn.backend_ref == was.backend_ref
            &&& o != v ==> s.vnodes.entry(o) == m.vnodes.entry(o)
        }),
{
}

/// After a stat the vnode shows what the disk server reported, each in its place.
pub proof fn law_stat_is_shown(m: VfsModel, v: Handle, a: StatSnapshot, o: Handle)
    requires
        m.vnodes.has(v),
    ensures
        ({
            let was = m.vnodes.at(v);
            let s = m.reported(v, with_stat(was, a));
            let vn = s.vnodes.at(v);
            &&& s.vnodes.has(v)
            &&& vn.mode == a.mode && vn.uid == a.uid && vn.gid == a.gid
            &&& vn.size == a.size && vn.nlink == a.nlink && vn.backend_seq == a.seq
            &&& vn.mtime_ns == in_nanoseconds(a.mtime)
            &&& vn.vtype == vtype_of(a.mode, 0)
            &&& vn.id == was.id && vn.mount == was.mount && vn.open_count == was.open_count
            &&& o != v ==> s.vnodes.entry(o) == m.vnodes.entry(o)
        }),
{
}

/// A link that was read holds the bytes that the disk server gave for it.
pub proof fn law_link_holds_what_was_read(m: VfsModel, v: Handle, bytes: Seq<u8>)
    requires
        m.blobs.wf(),
        m.vnodes.has(v),
        bytes.len() > 0,
        bytes.len() <= u64::MAX,
        m.link_filled(v, bytes).1,
    ensures
        ({
            let s = m.link_filled(v, bytes).0;
            &&& s.blobs.has(s.vnodes.at(v).data)
            &&& s.blobs.at(s.vnodes.at(v).data) == bytes
            &&& s.vnodes.at(v).size == bytes.len()
            &&& s.vnodes.at(v).vtype == m.vnodes.at(v).vtype
        }),
        m.blobs.next() is Some && !m.vnodes.at(v).data.is_valid() ==> m.link_filled(v, bytes).1,
{
    let vn = m.vnodes.at(v);
    let less = if vn.data.is_valid() && vn.size != 0 {
        m.blobs.dropped(vn.data)
    } else {
        m.blobs
    };
    assert(less.wf()) by {
        assert forall|h: Handle| #[trigger] less.live.contains_key(h) implies h.slot
            < less.epochs.len() && less.epochs[h.slot as int] == h.epoch by {
            assert(m.blobs.live.contains_key(h));
            if m.blobs.has(vn.data) {
                assert(m.blobs.live.contains_key(vn.data));
            }
        }
    }
    less.lemma_vacant(0);
}

// ---- answers -----------------------------------------------------------------------

/// The answer to a lookup takes the walk that waited for it on: it stands on the vnode that the
/// answer led to, behind the component that was looked up, with the rest of the path still to be
/// walked. An answer that found nothing, or failed, ends the walk at nothing.
pub proof fn law_answered_walk_goes_on(
    m: VfsModel,
    p: PoolView,
    c: &PendingBackendCompletion,
    head: Seq<u8>,
    name: Seq<u8>,
    rest: Seq<u8>,
)
    requires
        pool_wf(p),
        p.live(op_of(c)),
        p.op(op_of(c)).kind != PO_KIND_BACKEND_RPC,
        kept_walk(p, op_of(c)) is Some,
        kept_walk(p, op_of(c))->0.path == head + name + rest,
        kept_walk(p, op_of(c))->0.pos == head.len(),
        is_component(name),
        follows_component(rest),
        (head + name + rest).len() <= u16::MAX,
    ensures
        ({
            let (s, q, d) = lookup_done(m, p, c);
            let was = kept_walk(p, op_of(c))->0;
            let now = kept_walk(q, op_of(c));
            let parent = unpacked(c.ctx.data[0]);
            &&& d is GoesOn && now is Some
            &&& now->0.path == was.path && now->0.depth == was.depth
            &&& if c.backend_err != 0 || c.backend_reply.label != Status::Success {
                now->0.resume_step == NAMEI_STEP_DONE && !now->0.current.is_valid() && s == m
            } else if m.salty_record(parent) is None {
                now->0 == was && s == m
            } else {
                let (_, mount) = m.salty_record(parent)->0;
                let found = m.materialized(
                    mount,
                    parent,
                    name,
                    lookup_of(c.backend_reply.regs@),
                );
                &&& s == found.0
                &&& match found.1 {
                    None => now->0 == was,
                    Some(v) => {
                        let at = now->0.pos as int;
                        &&& now->0.current == v
                        &&& head.len() + name.len() <= at <= was.path.len()
                        &&& forall|i: int|
                            head.len() + name.len() <= i < at ==> #[trigger] was.path[i] == SLASH
                        &&& at < was.path.len() ==> was.path[at] != SLASH
                    },
                }
            }
        }),
{
    lemma_component_of(head, name, rest);
    let path = head + name + rest;
    lemma_slashes_scanned(path, (head.len() + name.len()) as int);
    let id = op_of(c);
    assert(p.op(id).payload_ref < crate::pending_ops::MAX_PAYLOAD_BUFS);
}

/// An operation that has ended is gone from the table, and the caller that waits for it is told
/// how it ended; nobody is told anything where nobody waits.
pub open spec fn is_ended(
    p: PoolView,
    q: PoolView,
    d: DiskDone,
    c: &PendingBackendCompletion,
    label: Status,
) -> bool {
    let id = op_of(c);
    &&& !q.live(id)
    &&& d == (DiskDone::Ended {
        answer: if p.live(id) && p.op(id).reply_slot != 0 {
            Some(ReplyAction::Send { reply_slot: p.op(id).reply_slot, label })
        } else {
            None
        },
    })
}

/// A change that the disk server refused is refused with its words, and changes nothing here.
pub proof fn law_refusal_is_passed_on(m: VfsModel, p: PoolView, c: &PendingBackendCompletion)
    requires
        pool_wf(p),
        c.backend_err != 0 || c.backend_reply.label != Status::Success,
    ensures
        ({
            let why = if c.backend_err != 0 {
                Status::IoError
            } else {
                c.backend_reply.label
            };
            let (s1, q1, d1) = create_done(m, p, c);
            let (s2, q2, d2) = unlink_done(m, p, c);
            let (s3, q3, d3) = rename_done(m, p, c);
            let (s4, q4, d4) = setattr_done(m, p, c);
            &&& s1 == m && is_ended(p, q1, d1, c, why)
            &&& s2 == m && is_ended(p, q2, d2, c, why)
            &&& s3 == m && is_ended(p, q3, d3, c, why)
            &&& s4 == m && is_ended(p, q4, d4, c, why)
            &&& readlink_done(m, c) == m
        }),
{
}

/// What the disk server has made is there: the vnode shows what it reported, under the name that
/// was asked for, and a link is given its target. Who waited for it is told so, and an open goes on
/// with the new vnode.
pub proof fn law_made_name_is_there(
    m: VfsModel,
    p: PoolView,
    c: &PendingBackendCompletion,
    mount: Handle,
    v: Handle,
)
    requires
        pool_wf(p),
        m.vnodes.wf(),
        m.saltyfs_nodes.wf(),
        m.blobs.wf(),
        p.live(op_of(c)),
        c.backend_err == 0,
        c.backend_reply.label == Status::Success,
        c.backend_reply.length >= 10,
        kept_args(p, op_of(c)) is Some,
        m.salty_record(unpacked(c.ctx.data[0])) matches Some((_, mh)) && mh == mount,
        m.materialized(
            mount,
            unpacked(c.ctx.data[0]),
            kept_args(p, op_of(c))->0.name_a,
            lookup_of(c.backend_reply.regs@),
        ).1 == Some(v),
    ensures
        ({
            let (s, q, d) = create_done(m, p, c);
            let a = kept_args(p, op_of(c))->0;
            let regs = c.backend_reply.regs@;
            let vn = s.vnodes.at(v);
            let link = a.op == DeferredChange::Symlink;
            &&& !link ==> s.vnodes.has(v)
            &&& link ==> s == m.materialized(
                mount,
                unpacked(c.ctx.data[0]),
                a.name_a,
                lookup_of(regs),
            ).0.link_filled(v, a.target).0
            &&& !link ==> vn.id == regs[0] && vn.mode == regs[2] as u32 && vn.uid == regs[6] as u32
            &&& !link ==> vn.size == regs[3] && vn.nlink == regs[4] as u32
            &&& !link && p.op(op_of(c)).kind != PO_KIND_OPEN_CONT ==> is_ended(
                p,
                q,
                d,
                c,
                Status::Success,
            )
            &&& !link && p.op(op_of(c)).kind == PO_KIND_OPEN_CONT && kept_walk(p, op_of(c)) is Some
                ==> d is GoesOn && kept_walk(q, op_of(c)) is Some && kept_walk(
                q,
                op_of(c),
            )->0.current == v && kept_walk(q, op_of(c))->0.resume_step == NAMEI_STEP_DONE
        }),
{
    let parent = unpacked(c.ctx.data[0]);
    let a = kept_args(p, op_of(c))->0;
    let snap = lookup_of(c.backend_reply.regs@);
    law_lookup_is_shown(m, mount, parent, a.name_a, snap, v, v);
}

/// A name that was removed on the disk takes a name off its vnode, or all of them where it was
/// a directory. Other nodes and vnodes stay.
pub proof fn law_removed_name_is_counted(
    m: VfsModel,
    parent: Handle,
    name: Seq<u8>,
    dir: bool,
    o: Handle,
)
    requires
        m.saltyfs_nodes.wf(),
        m.salty_child(parent, name) is Some,
        m.vnodes.has(m.saltyfs_nodes.at(m.salty_child(parent, name)->0).vnode),
    ensures
        ({
            let h = m.salty_child(parent, name)->0;
            let v = m.saltyfs_nodes.at(h).vnode;
            let s = m.disk_unlinked(parent, name, dir);
            let was = m.vnodes.at(v).nlink;
            &&& s.vnodes.has(v)
            &&& s.vnodes.at(v).nlink == if dir || was == 0 {
                0
            } else {
                was - 1
            }
            &&& o != v ==> s.vnodes.entry(o) == m.vnodes.entry(o)
            &&& o != h ==> s.saltyfs_nodes.entry(o) == m.saltyfs_nodes.entry(o)
        }),
        m.salty_child(parent, name) is None ==> m.disk_unlinked(parent, name, dir) == m,
{
    let p = m.salty_node(parent)->0;
    m.saltyfs_nodes.lemma_scan(salty_node_named(p, name), 0);
}

/// A node that was renamed on the disk is known under its new name in its new directory. What
/// had that name has lost it, with all its links. Other nodes stay.
pub proof fn law_renamed_node_is_known_anew(
    m: VfsModel,
    old_parent: Handle,
    old_name: Seq<u8>,
    new_parent: Handle,
    new_name: Seq<u8>,
    o: Handle,
)
    requires
        m.saltyfs_nodes.wf(),
        m.salty_child(old_parent, old_name) is Some,
        m.salty_node(new_parent) is Some,
        new_name.len() <= 144,
    ensures
        ({
            let h = m.salty_child(old_parent, old_name)->0;
            let s = m.disk_renamed(old_parent, old_name, new_parent, new_name);
            let gone = m.salty_child(new_parent, new_name);
            &&& s.saltyfs_nodes.has(h)
            &&& s.saltyfs_nodes.at(h).name == new_name
            &&& Some(s.saltyfs_nodes.at(h).parent_node) == m.salty_node(new_parent)
            &&& s.saltyfs_nodes.at(h).vnode == m.saltyfs_nodes.at(h).vnode
            &&& gone is Some && gone != Some(h) ==> s.saltyfs_nodes.at(gone->0).name.len() == 0
                && (m.vnodes.has(m.saltyfs_nodes.at(gone->0).vnode) ==> s.vnodes.at(
                m.saltyfs_nodes.at(gone->0).vnode,
            ).nlink == 0)
            &&& o != h && Some(o) != gone ==> s.saltyfs_nodes.entry(o) == m.saltyfs_nodes.entry(o)
        }),
{
    let p = m.salty_node(old_parent)->0;
    let q = m.salty_node(new_parent)->0;
    m.saltyfs_nodes.lemma_scan(salty_node_named(p, old_name), 0);
    m.saltyfs_nodes.lemma_scan(salty_node_named(q, new_name), 0);
}

/// A disk that was mounted is served by the server that was found, under the session that it
/// gave, and its root shows what the server reported of it.
pub proof fn law_mounted_disk_is_served(
    m: VfsModel,
    path: Seq<u8>,
    flags: u32,
    opts: Seq<u8>,
    a: DiskAnswers,
    mh: Handle,
)
    requires
        m.vnodes.wf(),
        m.mounts.wf(),
        m.saltyfs_mounts.wf(),
        m.saltyfs_nodes.wf(),
        m.disk_mounted(path, flags, opts, a).1 == Ok::<Handle, Status>(mh),
    ensures
        ({
            let s = m.disk_mounted(path, flags, opts, a).0;
            let mt = s.mounts.at(mh);
            let vn = s.vnodes.at(mt.root_vnode);
            let d = s.saltyfs_mounts.at(m.saltyfs_mounts.next()->0);
            let sess = a.session->Ok_0;
            &&& !m.mounts.has(mh) && s.mounts.has(mh)
            &&& !m.vnodes.has(mt.root_vnode) && s.vnodes.has(mt.root_vnode)
            &&& mt.backend == Backend::Saltyfs && mt.vfsops == Some(Backend::Saltyfs)
            &&& vn.id == sess.root_node.ino && vn.mount.handle == mh && vn.root
            &&& a.root matches Some(st) ==> vn.mode == st.mode && vn.size == st.size && vn.nlink
                == st.nlink && vn.uid == st.uid && vn.gid == st.gid
            &&& d.owner_mount == mh && d.root_vnode == mt.root_vnode
            &&& a.endpoint == Ok::<u64, Status>(d.fs_cap)
            &&& d.session_id == sess.session_id && d.max_inflight == sess.max_inflight
            &&& d.shm_active == a.shm_ready
            &&& forall|o: Handle| #[trigger] m.mounts.has(o) ==> s.mounts.at(o) == m.mounts.at(o)
            &&& forall|o: Handle| #[trigger] m.vnodes.has(o) ==> s.vnodes.at(o) == m.vnodes.at(o)
        }),
{
    m.vnodes.lemma_vacant(0);
    m.mounts.lemma_vacant(0);
    m.saltyfs_mounts.lemma_vacant(0);
    m.saltyfs_nodes.lemma_vacant(0);
}

} // verus!
