//! Requests to the disk server, and what its replies say.

use crate::identity::BackendNodeId;
use crate::status::Status;
use crate::vnode::{
    VnodeType, DT_CHR, DT_DIR, DT_FIFO, DT_LNK, DT_REG, DT_SOCK, DT_UNKNOWN, S_IFCHR, S_IFDIR,
    S_IFIFO, S_IFLNK, S_IFMT, S_IFREG, S_IFSOCK,
};
use crate::wire::{
    area_holds, fill_area, get_bytes, reg_bytes, regs_for, Opcode, Reply, Request, MSG_REGS,
};
use vstd::prelude::*;
use vstd::string::*;

verus! {

/// Longest name in the disk filesystem.
pub const SALTYFS_NAME_MAX: usize = 144;

/// Longest name in a request that makes something.
pub const SALTYFS_CREATE_NAME_WIRE_MAX: usize = 136;

/// Longest name in a request that makes a link.
pub const SALTYFS_SYMLINK_NAME_WIRE_MAX: usize = 72;

/// Longest name in a request that moves something.
pub const SALTYFS_RENAME_NAME_WIRE_MAX: usize = 64;

/// Longest target in a request that makes a link.
pub const SALTYFS_TARGET_INLINE_MAX: usize = 64;

/// Most bytes of a file that travel in registers.
pub const INLINE_TRANSFER_WIRE_MAX: u64 = 152;

/// Bytes that one directory entry takes in shared memory.
pub const SALTYFS_READDIR_ENTRY_BYTES: u64 = 96;

/// Longest name in a directory entry in shared memory.
pub const SALTYFS_READDIR_NAME_MAX: usize = 44;

/// Where shared memory with the disk server is mapped.
pub const SALTYFS_SHM_VADDR: u64 = 0x5000_0000;

/// Pages of shared memory.
pub const SALTYFS_SHM_PAGES: u64 = 256;

/// Identifier of the shared memory.
pub const SALTYFS_SHM_ID: u64 = 0x5653_4653;

/// Registers of a request that changes attributes.
pub const BACKEND_SETATTR_REG_COUNT: u64 = 7;

/// Registers of the reply to it.
pub const BACKEND_SETATTR_REPLY_REG_COUNT: u64 = 7;

/// Attributes that a request changes.
pub const SETATTR_MASK_MODE: u32 = 1;
pub const SETATTR_MASK_UID: u32 = 2;
pub const SETATTR_MASK_GID: u32 = 4;
pub const SETATTR_MASK_ATIME: u32 = 8;
pub const SETATTR_MASK_MTIME: u32 = 16;
pub const SETATTR_MASK_SIZE: u32 = 32;

/// The reply holds the last entry of the directory.
pub const BACKEND_READDIR_F_EOF: u64 = 1;

/// Access to shared memory: read and write.
pub const SHM_PROT_READ_WRITE: u64 = 3;

// ---- requests ----------------------------------------------------------------------

/// The registers of `r` up to `upto` hold `words`, and zeros behind them.
pub open spec fn leads(r: Request, words: Seq<u64>, upto: int) -> bool {
    forall|i: int|
        0 <= i < upto ==> #[trigger] r.regs@[i] == (if i < words.len() {
            words[i]
        } else {
            0
        })
}

/// `r` asks for `op` with `words` alone.
pub open spec fn asks_words(r: Request, op: Opcode, words: Seq<u64>) -> bool {
    r.op == op && r.length == words.len() && leads(r, words, MSG_REGS as int)
}

/// `r` asks for `op` with `words`, of which the last is the length of `name`, and `name`.
pub open spec fn asks_name(r: Request, op: Opcode, words: Seq<u64>, name: Seq<u8>) -> bool {
    &&& r.op == op
    &&& r.length == words.len() + regs_for(name.len() as int)
    &&& leads(r, words, words.len() as int)
    &&& area_holds(r.regs@, words.len() as int, MSG_REGS - words.len(), name)
}

/// `r` asks for `op` with `words` and two names: `a` behind the words, `b` from register 12
/// on.
pub open spec fn asks_two_names(r: Request, op: Opcode, words: Seq<u64>, a: Seq<u8>, b: Seq<u8>) -> bool {
    &&& r.op == op
    &&& r.length == 20
    &&& leads(r, words, words.len() as int)
    &&& area_holds(r.regs@, words.len() as int, 12 - words.len(), a)
    &&& area_holds(r.regs@, 12, MSG_REGS - 12, b)
}

/// A request with one word.
pub fn one_word_request(op: Opcode, a: u64) -> (r: Request)
    ensures
        asks_words(r, op, seq![a]),
{
    let mut q = Request::bare(op);
    q.regs[0] = a;
    q.length = 1;
    q
}

/// A request with two words.
pub fn two_word_request(op: Opcode, a: u64, b: u64) -> (r: Request)
    ensures
        asks_words(r, op, seq![a, b]),
{
    let mut q = Request::bare(op);
    q.regs[0] = a;
    q.regs[1] = b;
    q.length = 2;
    q
}

/// A request with three words.
pub fn three_word_request(op: Opcode, a: u64, b: u64, c: u64) -> (r: Request)
    ensures
        asks_words(r, op, seq![a, b, c]),
{
    let mut q = Request::bare(op);
    q.regs[0] = a;
    q.regs[1] = b;
    q.regs[2] = c;
    q.length = 3;
    q
}

/// A request with four words.
pub fn four_word_request(op: Opcode, a: u64, b: u64, c: u64, d: u64) -> (r: Request)
    ensures
        asks_words(r, op, seq![a, b, c, d]),
{
    let mut q = Request::bare(op);
    q.regs[0] = a;
    q.regs[1] = b;
    q.regs[2] = c;
    q.regs[3] = d;
    q.length = 4;
    q
}

/// A request that looks up or removes `name` in directory `dir`.
pub fn name_request(op: Opcode, dir: u64, name: &[u8]) -> (r: Request)
    requires
        name@.len() <= 8 * (MSG_REGS - 2),
    ensures
        asks_name(r, op, seq![dir, name@.len() as u64], name@),
{
    let mut q = Request::bare(op);
    let n: u64 = name.len() as u64;
    q.regs[0] = dir;
    q.regs[1] = n;
    fill_area(&mut q.regs, 2, 30, name);
    q.length = 2 + (n + 7) / 8;
    q
}

/// A request that makes `name`: in directory `a` with mode `b`, or a further name of `a` in
/// directory `b`.
pub fn make_request(op: Opcode, a: u64, b: u64, name: &[u8]) -> (r: Request)
    requires
        name@.len() <= 8 * (MSG_REGS - 3),
    ensures
        asks_name(r, op, seq![a, b, name@.len() as u64], name@),
{
    let mut q = Request::bare(op);
    let n: u64 = name.len() as u64;
    q.regs[0] = a;
    q.regs[1] = b;
    q.regs[2] = n;
    fill_area(&mut q.regs, 3, 29, name);
    q.length = 3 + (n + 7) / 8;
    q
}

/// A request that makes link `name` to `target` in directory `dir`.
pub fn symlink_request(dir: u64, name: &[u8], target: &[u8]) -> (r: Request)
    requires
        name@.len() <= SALTYFS_SYMLINK_NAME_WIRE_MAX,
        target@.len() <= SALTYFS_TARGET_INLINE_MAX,
    ensures
        asks_two_names(
            r,
            Opcode::BackendSymlink,
            seq![dir, name@.len() as u64, target@.len() as u64],
            name@,
            target@,
        ),
{
    let mut q = Request::bare(Opcode::BackendSymlink);
    q.regs[0] = dir;
    q.regs[1] = name.len() as u64;
    q.regs[2] = target.len() as u64;
    fill_area(&mut q.regs, 3, 9, name);
    let ghost mid = q.regs@;
    fill_area(&mut q.regs, 12, 20, target);
    proof {
        lemma_area_stays(mid, q.regs@, 3, 9, name@);
    }
    q.length = 20;
    q
}

/// A request that moves `old_name` of directory `old_dir` to `new_name` of `new_dir`.
pub fn rename_request(old_dir: u64, old_name: &[u8], new_dir: u64, new_name: &[u8]) -> (r: Request)
    requires
        old_name@.len() <= SALTYFS_RENAME_NAME_WIRE_MAX,
        new_name@.len() <= SALTYFS_RENAME_NAME_WIRE_MAX,
    ensures
        asks_two_names(
            r,
            Opcode::BackendRename,
            seq![old_dir, old_name@.len() as u64, new_dir, new_name@.len() as u64],
            old_name@,
            new_name@,
        ),
{
    let mut q = Request::bare(Opcode::BackendRename);
    q.regs[0] = old_dir;
    q.regs[1] = old_name.len() as u64;
    q.regs[2] = new_dir;
    q.regs[3] = new_name.len() as u64;
    fill_area(&mut q.regs, 4, 8, old_name);
    let ghost mid = q.regs@;
    fill_area(&mut q.regs, 12, 20, new_name);
    proof {
        lemma_area_stays(mid, q.regs@, 4, 8, old_name@);
    }
    q.length = 20;
    q
}

proof fn lemma_area_stays(a: Seq<u64>, b: Seq<u64>, start: int, words: int, bytes: Seq<u8>)
    requires
        0 <= start,
        area_holds(a, start, words, bytes),
        forall|i: int| start <= i < start + words ==> a[i] == b[i],
    ensures
        area_holds(b, start, words, bytes),
{
    assert forall|j: int| 0 <= j < 8 * words implies #[trigger] crate::wire::reg_byte(b, start, j)
        == crate::wire::reg_byte(a, start, j) by {
        assert(a[start + j / 8] == b[start + j / 8]);
    }
}

/// Owner and group in one word.
#[verifier::allow_in_spec]
pub fn owner_word(uid: u32, gid: u32) -> (r: u64)
    returns
        ((uid as u64) | ((gid as u64) << 32)),
{
    (uid as u64) | ((gid as u64) << 32)
}

/// What a change of attributes sets.
#[derive(Clone, Copy, PartialEq, Eq, Structural, Debug)]
pub struct AttrChange {
    pub mask: u32,
    pub mode: u32,
    pub uid: u32,
    pub gid: u32,
    pub atime: u64,
    pub mtime: u64,
    pub size: u64,
}

/// The words of a request that changes attributes of node `ino`.
pub open spec fn setattr_words(ino: u64, c: AttrChange) -> Seq<u64> {
    seq![
        ino,
        c.mask as u64,
        c.mode as u64,
        owner_word(c.uid, c.gid),
        c.atime,
        c.mtime,
        c.size,
    ]
}

/// A request that changes attributes of node `ino`.
pub fn setattr_request(ino: u64, c: AttrChange) -> (r: Request)
    ensures
        asks_words(r, Opcode::BackendSetattr, setattr_words(ino, c)),
{
    let mut q = Request::bare(Opcode::BackendSetattr);
    q.regs[0] = ino;
    q.regs[1] = c.mask as u64;
    q.regs[2] = c.mode as u64;
    q.regs[3] = owner_word(c.uid, c.gid);
    q.regs[4] = c.atime;
    q.regs[5] = c.mtime;
    q.regs[6] = c.size;
    q.length = BACKEND_SETATTR_REG_COUNT;
    q
}

/// How the bytes of a file travel.
#[derive(Clone, Copy, PartialEq, Eq, Structural, Debug)]
pub enum Transfer {
    /// In the registers of the message.
    Inline { len: u64 },
    /// In shared memory, from `offset` on.
    Shm { offset: u64, len: u64 },
}

/// The three words that describe a transfer.
pub open spec fn transfer_words(t: Transfer) -> (u64, u64, u64) {
    match t {
        Transfer::Inline { len } => (0, 0, len),
        Transfer::Shm { offset, len } => (1, offset, len),
    }
}

/// How a read of `cap` bytes travels.
pub open spec fn read_transfer(shm_active: bool, cap: u64) -> Transfer {
    if shm_active && cap > INLINE_TRANSFER_WIRE_MAX {
        Transfer::Shm { offset: 0, len: cap }
    } else {
        Transfer::Inline {
            len: if cap < INLINE_TRANSFER_WIRE_MAX {
                cap
            } else {
                INLINE_TRANSFER_WIRE_MAX
            },
        }
    }
}

/// How a read of `cap` bytes travels.
pub fn choose_read_transfer(shm_active: bool, cap: u64) -> (r: Transfer)
    ensures
        r == read_transfer(shm_active, cap),
{
    if shm_active && cap > INLINE_TRANSFER_WIRE_MAX {
        Transfer::Shm { offset: 0, len: cap }
    } else if cap < INLINE_TRANSFER_WIRE_MAX {
        Transfer::Inline { len: cap }
    } else {
        Transfer::Inline { len: INLINE_TRANSFER_WIRE_MAX }
    }
}

/// The three words that describe a transfer.
pub fn encode_transfer(t: Transfer) -> (r: (u64, u64, u64))
    ensures
        r == transfer_words(t),
{
    match t {
        Transfer::Inline { len } => (0, 0, len),
        Transfer::Shm { offset, len } => (1, offset, len),
    }
}

/// A request that reads from file `ino` at `offset`.
pub fn read_request(ino: u64, offset: u64, t: Transfer) -> (r: Request)
    ensures
        asks_words(
            r,
            Opcode::BackendRead,
            seq![ino, offset, transfer_words(t).0, transfer_words(t).1, transfer_words(t).2],
        ),
{
    let (a, b, c): (u64, u64, u64) = encode_transfer(t);
    let mut q = Request::bare(Opcode::BackendRead);
    q.regs[0] = ino;
    q.regs[1] = offset;
    q.regs[2] = a;
    q.regs[3] = b;
    q.regs[4] = c;
    q.length = 5;
    q
}

/// A request that writes `src` to file `ino` at `offset`, in registers.
pub fn write_request(ino: u64, offset: u64, src: &[u8]) -> (r: Request)
    requires
        src@.len() <= 8 * (MSG_REGS - 5),
    ensures
        asks_name(r, Opcode::BackendWrite, seq![ino, offset, 0, 0, src@.len() as u64], src@),
{
    let n: u64 = src.len() as u64;
    let mut q = Request::bare(Opcode::BackendWrite);
    q.regs[0] = ino;
    q.regs[1] = offset;
    q.regs[4] = n;
    fill_area(&mut q.regs, 5, 27, src);
    q.length = 5 + (n + 7) / 8;
    q
}

/// A request that reads the directory entry at `cursor` into shared memory.
pub fn readdir_request(dir: u64, cursor: u64) -> (r: Request)
    ensures
        asks_words(
            r,
            Opcode::BackendReaddir,
            seq![dir, cursor, 0, SALTYFS_READDIR_ENTRY_BYTES],
        ),
{
    four_word_request(Opcode::BackendReaddir, dir, cursor, 0, SALTYFS_READDIR_ENTRY_BYTES)
}

/// A request that opens a session; the lowest flag asks for a read-only one.
pub fn open_session_request(flags: u32) -> (r: Request)
    ensures
        asks_words(
            r,
            Opcode::BackendOpenSession,
            seq![
                if flags & 1 != 0 {
                    1u64
                } else {
                    0u64
                },
            ],
        ),
{
    one_word_request(
        Opcode::BackendOpenSession,
        if flags & 1 != 0 {
            1
        } else {
            0
        },
    )
}

/// The request to the name server that finds the disk server.
pub fn resolve_request() -> (r: Request)
    ensures
        asks_name(
            r,
            Opcode::NamesrvLookup,
            seq!["saltyfs".spec_bytes().len() as u64],
            "saltyfs".spec_bytes(),
        ),
{
    let name = "saltyfs".as_bytes();
    proof {
        reveal_strlit("saltyfs");
        is_ascii_spec_bytes("saltyfs");
    }
    let n: u64 = name.len() as u64;
    let mut q = Request::bare(Opcode::NamesrvLookup);
    q.regs[0] = n;
    fill_area(&mut q.regs, 1, 31, name);
    q.length = 1 + (n + 7) / 8;
    q
}

// ---- replies -----------------------------------------------------------------------

/// What a lookup says of a node.
#[derive(Clone, Copy, PartialEq, Eq, Structural, Debug)]
pub struct LookupSnapshot {
    pub ino: u64,
    pub seq: u32,
    pub mode: u32,
    pub size: u64,
    pub nlink: u32,
    pub mtime: u64,
    pub uid: u32,
    pub gid: u32,
    pub dir_type: u8,
    pub blocks: u64,
}

/// What a change of attributes leaves.
#[derive(Clone, Copy, PartialEq, Eq, Structural, Debug)]
pub struct AttrSnapshot {
    pub mode: u32,
    pub uid: u32,
    pub gid: u32,
    pub size: u64,
    pub nlink: u32,
    pub atime: u64,
    pub mtime: u64,
}

/// What the disk server knows of a node.
#[derive(Clone, Copy, PartialEq, Eq, Structural, Debug)]
pub struct StatSnapshot {
    pub size: u64,
    pub mode: u32,
    pub nlink: u32,
    pub mtime: u64,
    pub blocks: u64,
    pub uid: u32,
    pub gid: u32,
    pub seq: u32,
}

/// A session with the disk server.
#[derive(Clone, Copy, PartialEq, Eq, Structural, Debug)]
pub struct SessionReply {
    pub session_id: u32,
    pub max_inflight: u16,
    pub root_node: BackendNodeId,
    pub feature_bits: u64,
}

/// What the registers of a lookup say.
pub open spec fn lookup_of(regs: Seq<u64>) -> LookupSnapshot {
    LookupSnapshot {
        ino: regs[0],
        seq: regs[1] as u32,
        mode: regs[2] as u32,
        size: regs[3],
        nlink: regs[4] as u32,
        mtime: regs[5],
        uid: regs[6] as u32,
        gid: regs[7] as u32,
        dir_type: regs[8] as u8,
        blocks: regs[9],
    }
}

/// What the registers of a lookup say.
pub fn read_lookup(reply: &Reply) -> (r: LookupSnapshot)
    ensures
        r == lookup_of(reply.regs@),
{
    LookupSnapshot {
        ino: reply.regs[0],
        seq: reply.regs[1] as u32,
        mode: reply.regs[2] as u32,
        size: reply.regs[3],
        nlink: reply.regs[4] as u32,
        mtime: reply.regs[5],
        uid: reply.regs[6] as u32,
        gid: reply.regs[7] as u32,
        dir_type: reply.regs[8] as u8,
        blocks: reply.regs[9],
    }
}

/// The node in the reply to a request that made one; nothing when the reply is not a
/// success or too short.
pub fn parse_lookup_snapshot(reply: &Reply) -> (r: Option<LookupSnapshot>)
    ensures
        r == (if reply.label == Status::Success && reply.length >= 10 {
            Some(lookup_of(reply.regs@))
        } else {
            None
        }),
{
    if reply.label == Status::Success && reply.length >= 10 {
        Some(read_lookup(reply))
    } else {
        None
    }
}

/// What the registers of a change of attributes say.
pub open spec fn attrs_of(regs: Seq<u64>) -> AttrSnapshot {
    AttrSnapshot {
        mode: regs[0] as u32,
        uid: regs[1] as u32,
        gid: regs[2] as u32,
        size: regs[3],
        nlink: regs[4] as u32,
        atime: regs[5],
        mtime: regs[6],
    }
}

/// The attributes in the reply to a change; nothing when the reply is not a success or too
/// short.
pub fn parse_attr_snapshot(reply: &Reply) -> (r: Option<AttrSnapshot>)
    ensures
        r == (if reply.label == Status::Success && reply.length
            >= BACKEND_SETATTR_REPLY_REG_COUNT {
            Some(attrs_of(reply.regs@))
        } else {
            None
        }),
{
    if reply.label == Status::Success && reply.length >= BACKEND_SETATTR_REPLY_REG_COUNT {
        Some(
            AttrSnapshot {
                mode: reply.regs[0] as u32,
                uid: reply.regs[1] as u32,
                gid: reply.regs[2] as u32,
                size: reply.regs[3],
                nlink: reply.regs[4] as u32,
                atime: reply.regs[5],
                mtime: reply.regs[6],
            },
        )
    } else {
        None
    }
}

/// How a call ended: with an I/O error when it did not get through, else as the reply says.
#[verifier::allow_in_spec]
pub fn call_outcome(err: u64, label: Status) -> (r: Status)
    returns
        (if err != 0 {
            Status::IoError
        } else {
            label
        }),
{
    if err != 0 {
        Status::IoError
    } else {
        label
    }
}

/// What the registers of a stat say.
pub open spec fn stat_of(regs: Seq<u64>) -> StatSnapshot {
    StatSnapshot {
        size: regs[1],
        mode: regs[2] as u32,
        nlink: regs[3] as u32,
        mtime: regs[4],
        blocks: regs[5],
        uid: regs[6] as u32,
        gid: regs[7] as u32,
        seq: regs[8] as u32,
    }
}

/// The outcome of a stat.
pub fn stat_outcome(err: u64, reply: &Reply) -> (r: Result<StatSnapshot, Status>)
    ensures
        r == (if call_outcome(err, reply.label) == Status::Success {
            Ok(stat_of(reply.regs@))
        } else {
            Err(call_outcome(err, reply.label))
        }),
{
    let s: Status = call_outcome(err, reply.label);
    if s != Status::Success {
        return Err(s);
    }
    Ok(
        StatSnapshot {
            size: reply.regs[1],
            mode: reply.regs[2] as u32,
            nlink: reply.regs[3] as u32,
            mtime: reply.regs[4],
            blocks: reply.regs[5],
            uid: reply.regs[6] as u32,
            gid: reply.regs[7] as u32,
            seq: reply.regs[8] as u32,
        },
    )
}

/// The outcome of a lookup: a node, none of that name, or an error.
pub fn lookup_outcome(err: u64, reply: &Reply) -> (r: Result<Option<LookupSnapshot>, Status>)
    ensures
        r == (match call_outcome(err, reply.label) {
            Status::Success => Ok(Some(lookup_of(reply.regs@))),
            Status::NotFound => Ok(None),
            s => Err(s),
        }),
{
    match call_outcome(err, reply.label) {
        Status::Success => Ok(Some(read_lookup(reply))),
        Status::NotFound => Ok(None),
        s => Err(s),
    }
}

/// The outcome of a call whose reply carries one word.
pub fn word_outcome(err: u64, reply: &Reply) -> (r: Result<u64, Status>)
    ensures
        r == (if call_outcome(err, reply.label) == Status::Success {
            Ok(reply.regs@[0])
        } else {
            Err(call_outcome(err, reply.label))
        }),
{
    let s: Status = call_outcome(err, reply.label);
    if s == Status::Success {
        Ok(reply.regs[0])
    } else {
        Err(s)
    }
}

/// The bytes in a reply that carries their number and then the bytes, `cap` at most.
pub open spec fn counted_bytes(regs: Seq<u64>, cap: u64) -> Seq<u8> {
    reg_bytes(
        regs,
        1,
        if regs[0] < cap {
            regs[0] as int
        } else {
            cap as int
        },
    )
}

/// The bytes in a reply that carries their number and then the bytes, `cap` at most.
pub fn read_counted_bytes(reply: &Reply, cap: u64) -> (r: Vec<u8>)
    requires
        cap <= 8 * (MSG_REGS - 1),
    ensures
        r@ == counted_bytes(reply.regs@, cap),
{
    let n: u64 = if reply.regs[0] < cap {
        reply.regs[0]
    } else {
        cap
    };
    get_bytes(&reply.regs, 1, n as usize)
}

/// The outcome of reading a link.
pub fn readlink_outcome(err: u64, reply: &Reply) -> (r: Result<Vec<u8>, Status>)
    ensures
        match r {
            Ok(b) => call_outcome(err, reply.label) == Status::Success && b@ == counted_bytes(
                reply.regs@,
                INLINE_TRANSFER_WIRE_MAX,
            ),
            Err(s) => s == call_outcome(err, reply.label) && s != Status::Success,
        },
{
    let s: Status = call_outcome(err, reply.label);
    if s != Status::Success {
        return Err(s);
    }
    Ok(read_counted_bytes(reply, INLINE_TRANSFER_WIRE_MAX))
}

/// The session in the registers of a reply.
pub open spec fn session_of(regs: Seq<u64>) -> SessionReply {
    SessionReply {
        session_id: regs[0] as u32,
        max_inflight: (regs[0] >> 32) as u16,
        root_node: BackendNodeId { ino: regs[1], seq: regs[2] as u32 },
        feature_bits: regs[3],
    }
}

/// The outcome of opening a session. A session that is open already is as good as a new
/// one.
pub fn session_outcome(err: u64, reply: &Reply) -> (r: Result<SessionReply, Status>)
    ensures
        r == (if call_outcome(err, reply.label) == Status::Success || call_outcome(
            err,
            reply.label,
        ) == Status::AlreadyExists {
            Ok(session_of(reply.regs@))
        } else {
            Err(call_outcome(err, reply.label))
        }),
{
    let s: Status = call_outcome(err, reply.label);
    if s != Status::Success && s != Status::AlreadyExists {
        return Err(s);
    }
    Ok(
        SessionReply {
            session_id: reply.regs[0] as u32,
            max_inflight: (reply.regs[0] >> 32) as u16,
            root_node: BackendNodeId { ino: reply.regs[1], seq: reply.regs[2] as u32 },
            feature_bits: reply.regs[3],
        },
    )
}

/// One directory entry in shared memory.
pub struct DirEntry {
    pub ino: u64,
    pub mode: u32,
    pub d_type: u8,
    pub name: Vec<u8>,
}

/// The word that `bytes` hold at `at`, lowest byte first.
pub open spec fn little_word(bytes: Seq<u8>, at: int, n: nat) -> int
    decreases n,
{
    if n == 0 {
        0
    } else {
        bytes[at] + 256 * little_word(bytes, at + 1, (n - 1) as nat)
    }
}

proof fn lemma_little_bound(bytes: Seq<u8>, at: int, n: nat)
    requires
        n <= 8,
    ensures
        0 <= little_word(bytes, at, n),
        n == 4 ==> little_word(bytes, at, n) <= u32::MAX,
        n == 8 ==> little_word(bytes, at, n) <= u64::MAX,
{
    reveal_with_fuel(little_word, 9);
}

/// Length of the name in an entry.
pub open spec fn entry_name_len(bytes: Seq<u8>) -> int {
    if bytes[49] < SALTYFS_READDIR_NAME_MAX {
        bytes[49] as int
    } else {
        SALTYFS_READDIR_NAME_MAX as int
    }
}

/// The directory entry at the start of shared memory.
pub fn read_dir_entry(bytes: &[u8]) -> (r: DirEntry)
    requires
        bytes@.len() >= SALTYFS_READDIR_ENTRY_BYTES,
    ensures
        r.ino == little_word(bytes@, 0, 8),
        r.mode == little_word(bytes@, 32, 4),
        r.d_type == bytes@[48],
        r.name@ == bytes@.subrange(52, 52 + entry_name_len(bytes@)),
{
    proof {
        reveal_with_fuel(little_word, 9);
        lemma_little_bound(bytes@, 0, 8);
        lemma_little_bound(bytes@, 32, 4);
    }
    let ino: u64 = bytes[0] as u64 + 256 * (bytes[1] as u64 + 256 * (bytes[2] as u64 + 256 * (
    bytes[3] as u64 + 256 * (bytes[4] as u64 + 256 * (bytes[5] as u64 + 256 * (bytes[6] as u64 + 256
        * (bytes[7] as u64)))))));
    let mode: u32 = bytes[32] as u32 + 256 * (bytes[33] as u32 + 256 * (bytes[34] as u32 + 256 * (
    bytes[35] as u32)));
    let n: usize = if (bytes[49] as usize) < SALTYFS_READDIR_NAME_MAX {
        bytes[49] as usize
    } else {
        SALTYFS_READDIR_NAME_MAX
    };
    let name = vstd::slice::slice_to_vec(vstd::slice::slice_subrange(bytes, 52, 52 + n));
    DirEntry { ino, mode, d_type: bytes[48], name }
}

// ---- kinds of nodes ----------------------------------------------------------------

/// The kind of node that a mode says, or the type of its directory entry where the mode
/// says none.
pub open spec fn vtype_of(mode: u32, dir_type: u8) -> VnodeType {
    let fmt = mode & S_IFMT;
    if fmt == S_IFDIR {
        VnodeType::Dir
    } else if fmt == S_IFREG {
        VnodeType::Reg
    } else if fmt == S_IFLNK {
        VnodeType::Lnk
    } else if fmt == S_IFCHR {
        VnodeType::Chr
    } else if fmt == S_IFIFO {
        VnodeType::Fifo
    } else if fmt == S_IFSOCK {
        VnodeType::Sock
    } else if dir_type == DT_DIR {
        VnodeType::Dir
    } else if dir_type == DT_LNK {
        VnodeType::Lnk
    } else {
        VnodeType::Reg
    }
}

/// The kind of node that a mode says, or the type of its directory entry where the mode
/// says none.
pub fn mode_to_vtype(mode: u32, dir_type: u8) -> (r: VnodeType)
    ensures
        r == vtype_of(mode, dir_type),
{
    let fmt: u32 = mode & S_IFMT;
    if fmt == S_IFDIR {
        VnodeType::Dir
    } else if fmt == S_IFREG {
        VnodeType::Reg
    } else if fmt == S_IFLNK {
        VnodeType::Lnk
    } else if fmt == S_IFCHR {
        VnodeType::Chr
    } else if fmt == S_IFIFO {
        VnodeType::Fifo
    } else if fmt == S_IFSOCK {
        VnodeType::Sock
    } else if dir_type == DT_DIR {
        VnodeType::Dir
    } else if dir_type == DT_LNK {
        VnodeType::Lnk
    } else {
        VnodeType::Reg
    }
}

/// Type of a directory entry: what the disk server says, or what the mode says where it
/// says none.
pub open spec fn entry_dtype(mode: u32, raw: u8) -> u8 {
    if raw != 0 {
        raw
    } else {
        match vtype_of(mode, 0) {
            VnodeType::Dir => DT_DIR,
            VnodeType::Reg => DT_REG,
            VnodeType::Lnk => DT_LNK,
            VnodeType::Chr => DT_CHR,
            VnodeType::Fifo => DT_FIFO,
            VnodeType::Sock => DT_SOCK,
            _ => DT_UNKNOWN,
        }
    }
}

/// Type of a directory entry: what the disk server says, or what the mode says where it
/// says none.
pub fn readdir_dtype(mode: u32, raw_dtype: u8) -> (r: u8)
    ensures
        r == entry_dtype(mode, raw_dtype),
{
    if raw_dtype != 0 {
        return raw_dtype;
    }
    match mode_to_vtype(mode, 0) {
        VnodeType::Dir => DT_DIR,
        VnodeType::Reg => DT_REG,
        VnodeType::Lnk => DT_LNK,
        VnodeType::Chr => DT_CHR,
        VnodeType::Fifo => DT_FIFO,
        VnodeType::Sock => DT_SOCK,
        _ => DT_UNKNOWN,
    }
}

// ---- shared memory with the disk server --------------------------------------------

/// How far setting up shared memory is.
#[derive(Clone, Copy, PartialEq, Eq, Structural, Debug)]
pub enum ShmStep {
    /// The memory is to be made.
    Create,
    /// It is to be mapped here.
    Attach,
    /// The disk server is to be told of it.
    Announce,
    /// The disk server refused it: it is to be unmapped.
    Detach,
    /// Both sides use it.
    Ready,
    /// It is not used.
    Unused,
}

/// What to ask next: the request, and whether it goes to the disk server (else to the
/// memory server).
pub fn shm_request(step: ShmStep) -> (r: Option<(Request, bool)>)
    ensures
        match step {
            ShmStep::Create => r matches Some((q, d)) && !d && asks_words(
                q,
                Opcode::MmShmCreate,
                seq![SALTYFS_SHM_ID, SALTYFS_SHM_PAGES],
            ),
            ShmStep::Attach => r matches Some((q, d)) && !d && asks_words(
                q,
                Opcode::MmShmMap,
                seq![SALTYFS_SHM_ID, 0, SALTYFS_SHM_VADDR, SHM_PROT_READ_WRITE],
            ),
            ShmStep::Announce => r matches Some((q, d)) && d && asks_words(
                q,
                Opcode::BackendShmSetup,
                seq![SALTYFS_SHM_ID],
            ),
            ShmStep::Detach => r matches Some((q, d)) && !d && asks_words(
                q,
                Opcode::MmShmUnmap,
                seq![SALTYFS_SHM_ID, 0, SALTYFS_SHM_VADDR],
            ),
            ShmStep::Ready | ShmStep::Unused => r is None,
        },
{
    match step {
        ShmStep::Create => Some(
            (two_word_request(Opcode::MmShmCreate, SALTYFS_SHM_ID, SALTYFS_SHM_PAGES), false),
        ),
        ShmStep::Attach => Some(
            (
                four_word_request(
                    Opcode::MmShmMap,
                    SALTYFS_SHM_ID,
                    0,
                    SALTYFS_SHM_VADDR,
                    SHM_PROT_READ_WRITE,
                ),
                false,
            ),
        ),
        ShmStep::Announce => Some(
            (one_word_request(Opcode::BackendShmSetup, SALTYFS_SHM_ID), true),
        ),
        ShmStep::Detach => Some(
            (
                three_word_request(Opcode::MmShmUnmap, SALTYFS_SHM_ID, 0, SALTYFS_SHM_VADDR),
                false,
            ),
        ),
        ShmStep::Ready | ShmStep::Unused => None,
    }
}

/// The step that follows, after the request of `step` ended with `outcome`. Memory that is
/// there already is as good as new memory; memory that the disk server refuses is unmapped.
#[verifier::allow_in_spec]
pub fn shm_next(step: ShmStep, outcome: Status) -> (r: ShmStep)
    returns
        (match step {
            ShmStep::Create => if outcome == Status::Success || outcome == Status::AlreadyExists {
                ShmStep::Attach
            } else {
                ShmStep::Unused
            },
            ShmStep::Attach => if outcome == Status::Success {
                ShmStep::Announce
            } else {
                ShmStep::Unused
            },
            ShmStep::Announce => if outcome == Status::Success {
                ShmStep::Ready
            } else {
                ShmStep::Detach
            },
            ShmStep::Detach => ShmStep::Unused,
            ShmStep::Ready => ShmStep::Ready,
            ShmStep::Unused => ShmStep::Unused,
        }),
{
    match step {
        ShmStep::Create => if outcome == Status::Success || outcome == Status::AlreadyExists {
            ShmStep::Attach
        } else {
            ShmStep::Unused
        },
        ShmStep::Attach => if outcome == Status::Success {
            ShmStep::Announce
        } else {
            ShmStep::Unused
        },
        ShmStep::Announce => if outcome == Status::Success {
            ShmStep::Ready
        } else {
            ShmStep::Detach
        },
        ShmStep::Detach => ShmStep::Unused,
        ShmStep::Ready => ShmStep::Ready,
        ShmStep::Unused => ShmStep::Unused,
    }
}

/// Shared memory is used only when the disk server took it, and what it refuses does not
/// stay mapped: from the step in which it was mapped, either both sides use it or the next
/// request unmaps it.
pub proof fn law_refused_memory_is_unmapped(outcome: Status, last: Status)
    ensures
        shm_next(ShmStep::Announce, outcome) == ShmStep::Ready <==> outcome == Status::Success,
        outcome != Status::Success ==> shm_next(ShmStep::Announce, outcome) == ShmStep::Detach,
        shm_next(ShmStep::Detach, last) == ShmStep::Unused,
{
}

} // verus!
