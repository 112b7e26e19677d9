//! Messages exchanged with other servers, and the records that they carry.

use vstd::prelude::*;

use crate::status::Status;

verus! {

/// Registers in one message.
pub const MSG_REGS: usize = 32;

/// What a request asks another server to do.
#[derive(Clone, Copy, PartialEq, Eq, Structural, Debug)]
pub enum Opcode {
    Nothing,
    BackendLookup,
    BackendStat,
    BackendRead,
    BackendWrite,
    BackendReaddir,
    BackendReadlink,
    BackendCreate,
    BackendMkdir,
    BackendSymlink,
    BackendUnlink,
    BackendRmdir,
    BackendRename,
    BackendLink,
    BackendSetattr,
    BackendTruncate,
    BackendOpenSession,
    BackendCloseSession,
    BackendShmSetup,
    InitGetKinfoProc,
    InitGetProcTimes,
    InitGetClientVmStats,
    InitGetArgv,
    InitGetExePath,
    InitGetSystemStats,
    InitListPidsBuf,
    PtyLookup,
    PtyGetGeneration,
    PtyOpenSlave,
    MmShmCreate,
    MmShmMap,
    MmShmUnmap,
    NamesrvLookup,
    NamesrvRegister,
}

/// All registers zero.
pub open spec fn zero_regs() -> Seq<u64> {
    Seq::new(MSG_REGS as nat, |i: int| 0u64)
}

/// A request to another server: operation, number of registers in use, registers.
#[derive(Clone, Copy)]
pub struct Request {
    pub op: Opcode,
    pub length: u64,
    pub regs: [u64; 32],
}

/// The reply to a request.
#[derive(Clone, Copy)]
pub struct Reply {
    pub label: Status,
    pub length: u64,
    pub regs: [u64; 32],
}

impl Request {
    /// A request without registers.
    pub fn bare(op: Opcode) -> (r: Request)
        ensures
            r.op == op,
            r.length == 0,
            r.regs@ == zero_regs(),
    {
        let regs: [u64; 32] = [0u64; 32];
        assert(regs@ =~= zero_regs());
        Request { op, length: 0, regs }
    }
}

impl Reply {
    /// A reply without registers.
    pub fn bare(label: Status) -> (r: Reply)
        ensures
            r.label == label,
            r.length == 0,
            r.regs@ == zero_regs(),
    {
        let regs: [u64; 32] = [0u64; 32];
        assert(regs@ =~= zero_regs());
        Reply { label, length: 0, regs }
    }
}

/// Number of whole registers that `n` bytes take.
pub open spec fn regs_for(n: int) -> int {
    (n + 7) / 8
}

/// Byte `i` of the byte area that starts at register `start`; the lowest byte of a
/// register comes first.
pub open spec fn reg_byte(regs: Seq<u64>, start: int, i: int) -> u8 {
    ((regs[start + i / 8] >> ((8 * (i % 8)) as u64)) & 0xff) as u8
}

/// The first `n` bytes of the byte area that starts at register `start`.
pub open spec fn reg_bytes(regs: Seq<u64>, start: int, n: int) -> Seq<u8> {
    Seq::new(n as nat, |i: int| reg_byte(regs, start, i))
}

proof fn lemma_byte_in_word(w: u64, b: u8, k: u64)
    requires
        k < 8,
    ensures
        ({
            let n = (w & !(0xffu64 << (8 * k) as u64)) | ((b as u64) << (8 * k) as u64);
            &&& ((n >> (8 * k) as u64) & 0xff) as u8 == b
            &&& forall|j: u64|
                j < 8 && j != k ==> ((#[trigger] (n >> (8 * j) as u64)) & 0xff) as u8 == ((w >> (8
                    * j) as u64) & 0xff) as u8
        }),
{
    let n = (w & !(0xffu64 << (8 * k) as u64)) | ((b as u64) << (8 * k) as u64);
    assert(((n >> (8 * k) as u64) & 0xff) as u8 == b) by (bit_vector)
        requires
            k < 8,
            n == (w & !(0xffu64 << (8 * k) as u64)) | ((b as u64) << (8 * k) as u64),
    ;
    assert forall|j: u64| j < 8 && j != k implies ((#[trigger] (n >> (8 * j) as u64)) & 0xff) as u8
        == ((w >> (8 * j) as u64) & 0xff) as u8 by {
        assert(((n >> (8 * j) as u64) & 0xff) as u8 == ((w >> (8 * j) as u64) & 0xff) as u8)
            by (bit_vector)
            requires
                k < 8,
                j < 8,
                j != k,
                n == (w & !(0xffu64 << (8 * k) as u64)) | ((b as u64) << (8 * k) as u64),
        ;
    }
}

/// The `words` registers from `start` on hold `bytes`, and zeros behind them.
pub open spec fn area_holds(regs: Seq<u64>, start: int, words: int, bytes: Seq<u8>) -> bool {
    &&& bytes.len() <= 8 * words
    &&& forall|j: int|
        0 <= j < 8 * words ==> #[trigger] reg_byte(regs, start, j) == (if j < bytes.len() {
            bytes[j]
        } else {
            0u8
        })
}

/// A register of zero holds zeros.
pub proof fn lemma_zero_area(regs: Seq<u64>, start: int, words: int)
    requires
        0 <= start,
        0 <= words,
        forall|r: int| start <= r < start + words ==> regs[r] == 0,
    ensures
        area_holds(regs, start, words, Seq::empty()),
{
    assert forall|j: int| 0 <= j < 8 * words implies #[trigger] reg_byte(regs, start, j) == 0u8 by {
        let shift = (8 * (j % 8)) as u64;
        assert(regs[start + j / 8] == 0);
        assert(((0u64 >> shift) & 0xff) as u8 == 0u8) by (bit_vector);
    }
}

/// Writes `src` into the byte area that starts at register `start`. The bytes behind it and
/// the registers outside the area keep their value.
pub fn put_bytes(regs: &mut [u64; 32], start: usize, src: &[u8])
    requires
        start <= MSG_REGS,
        src@.len() <= 8 * (MSG_REGS - start),
    ensures
        reg_bytes(final(regs)@, start as int, src@.len() as int) == src@,
        forall|j: int|
            src@.len() <= j < 8 * (MSG_REGS - start) ==> #[trigger] reg_byte(
                final(regs)@,
                start as int,
                j,
            ) == reg_byte(old(regs)@, start as int, j),
        forall|r: int|
            0 <= r < MSG_REGS && !(start <= r < start + regs_for(src@.len() as int)) ==> final(regs)@[r]
                == old(regs)@[r],
{
    let mut i: usize = 0;
    while i < src.len()
        invariant
            start <= MSG_REGS,
            src@.len() <= 8 * (MSG_REGS - start),
            i <= src@.len(),
            regs@.len() == MSG_REGS,
            forall|j: int| 0 <= j < i ==> #[trigger] reg_byte(regs@, start as int, j) == src@[j],
            forall|j: int|
                i <= j < 8 * (MSG_REGS - start) ==> #[trigger] reg_byte(regs@, start as int, j)
                    == reg_byte(old(regs)@, start as int, j),
            forall|r: int|
                0 <= r < MSG_REGS && !(start <= r < start + regs_for(src@.len() as int))
                    ==> regs@[r] == old(regs)@[r],
        decreases src@.len() - i,
    {
        let at: usize = start + i / 8;
        let k: u64 = (i % 8) as u64;
        let word: u64 = regs[at];
        let b: u8 = src[i];
        let shift: u64 = 8 * k;
        let ghost before = regs@;
        proof {
            lemma_byte_in_word(word, b, k);
        }
        let next: u64 = (word & !(0xffu64 << shift)) | ((b as u64) << shift);
        regs[at] = next;
        proof {
            assert forall|j: int|
                0 <= j < 8 * (MSG_REGS - start) && j != i implies #[trigger] reg_byte(
                regs@,
                start as int,
                j,
            ) == reg_byte(before, start as int, j) by {
                if start + j / 8 == at {
                    let jk: u64 = (j % 8) as u64;
                    assert(jk != k);
                    assert(((next >> (8 * jk) as u64) & 0xff) as u8 == ((word >> (8
                        * jk) as u64) & 0xff) as u8);
                }
            }
            assert(reg_byte(regs@, start as int, i as int) == b);
        }
        i = i + 1;
    }
    assert(reg_bytes(regs@, start as int, src@.len() as int) =~= src@);
}

/// Writes `src` into an area of zeros.
pub fn fill_area(regs: &mut [u64; 32], start: usize, words: usize, src: &[u8])
    requires
        start + words <= MSG_REGS,
        src@.len() <= 8 * words,
        forall|r: int| start <= r < start + words ==> old(regs)@[r] == 0,
    ensures
        area_holds(final(regs)@, start as int, words as int, src@),
        forall|r: int|
            0 <= r < MSG_REGS && !(start <= r < start + words) ==> #[trigger] final(regs)@[r]
                == old(regs)@[r],
{
    proof {
        lemma_zero_area(regs@, start as int, words as int);
    }
    let ghost before = regs@;
    put_bytes(regs, start, src);
    proof {
        assert forall|j: int| 0 <= j < 8 * words implies #[trigger] reg_byte(
            regs@,
            start as int,
            j,
        ) == (if j < src@.len() {
            src@[j]
        } else {
            0u8
        }) by {
            if j < src@.len() {
                assert(reg_bytes(regs@, start as int, src@.len() as int)[j] == src@[j]);
            } else {
                assert(reg_byte(before, start as int, j) == 0u8);
            }
        }
    }
}

/// Reads `n` bytes from the byte area that starts at register `start`.
pub fn get_bytes(regs: &[u64; 32], start: usize, n: usize) -> (r: Vec<u8>)
    requires
        start <= MSG_REGS,
        n <= 8 * (MSG_REGS - start),
    ensures
        r@ == reg_bytes(regs@, start as int, n as int),
{
    let mut out: Vec<u8> = Vec::new();
    let mut i: usize = 0;
    while i < n
        invariant
            start <= MSG_REGS,
            n <= 8 * (MSG_REGS - start),
            i <= n,
            regs@.len() == MSG_REGS,
            out@ == reg_bytes(regs@, start as int, i as int),
        decreases n - i,
    {
        let word: u64 = regs[start + i / 8];
        let shift: u64 = 8 * ((i % 8) as u64);
        assert(((word >> shift) & 0xff) <= 0xff) by (bit_vector);
        let b: u8 = ((word >> shift) & 0xff) as u8;
        out.push(b);
        assert(out@ =~= reg_bytes(regs@, start as int, i + 1));
        i = i + 1;
    }
    out
}

/// Size of a process record in a reply.
pub const KINFO_PROC_BYTES: u32 = 128;

/// Size of the memory figures of a process in a reply.
pub const MEM_SNAPSHOT_BYTES: u32 = 48;

/// Process record kept by the process manager.
pub struct KinfoProc {
    pub comm: Vec<u8>,
    pub state: u8,
    pub pid: u32,
    pub ppid: u32,
    pub pgid: u32,
    pub sid: u32,
    pub tty_dev: u32,
    pub num_threads: u32,
    pub vm_size: u64,
    pub vm_rss: u64,
    pub start_time_ns: u64,
}

/// Value of a [`KinfoProc`].
#[verifier::ext_equal]
pub struct KinfoView {
    pub comm: Seq<u8>,
    pub state: u8,
    pub pid: u32,
    pub ppid: u32,
    pub pgid: u32,
    pub sid: u32,
    pub tty_dev: u32,
    pub num_threads: u32,
    pub vm_size: u64,
    pub vm_rss: u64,
    pub start_time_ns: u64,
}

impl View for KinfoProc {
    type V = KinfoView;

    open spec fn view(&self) -> KinfoView {
        KinfoView {
            comm: self.comm@,
            state: self.state,
            pid: self.pid,
            ppid: self.ppid,
            pgid: self.pgid,
            sid: self.sid,
            tty_dev: self.tty_dev,
            num_threads: self.num_threads,
            vm_size: self.vm_size,
            vm_rss: self.vm_rss,
            start_time_ns: self.start_time_ns,
        }
    }
}

impl KinfoProc {
    /// A copy with the same value.
    pub fn duplicate(&self) -> (r: KinfoProc)
        ensures
            r@ == self@,
    {
        KinfoProc {
            comm: vstd::slice::slice_to_vec(self.comm.as_slice()),
            state: self.state,
            pid: self.pid,
            ppid: self.ppid,
            pgid: self.pgid,
            sid: self.sid,
            tty_dev: self.tty_dev,
            num_threads: self.num_threads,
            vm_size: self.vm_size,
            vm_rss: self.vm_rss,
            start_time_ns: self.start_time_ns,
        }
    }
}

/// Memory figures of one process.
#[derive(Clone, Copy)]
pub struct ProcMemSnapshot {
    pub vm_reserved_bytes: u64,
    pub vm_resident_pages: u64,
    pub resident_file: u64,
    pub vm_exe_bytes: u64,
    pub vm_lib_bytes: u64,
    pub vm_data_bytes: u64,
}

/// What the kernel tells of the machine.
#[derive(Clone, Copy, PartialEq, Eq, Structural, Debug)]
pub struct SysInfo {
    pub cpu_count: u32,
    pub boot_time_ns: u64,
    pub uptime_ns: u64,
    pub context_switches_total: u64,
}

/// What the kernel tells of one processor.
#[derive(Clone, Copy, PartialEq, Eq, Structural, Debug)]
pub struct SysCpu {
    pub user_time_ns: u64,
    pub system_time_ns: u64,
    pub idle_time_ns: u64,
}

/// What the kernel tells of memory, counted in pages.
#[derive(Clone, Copy, PartialEq, Eq, Structural, Debug)]
pub struct SysMemInfo {
    pub page_size: u64,
    pub pages_total: u64,
    pub pages_free: u64,
    pub pages_page_cache: u64,
    pub pages_dirty_file: u64,
    pub pages_writeback_file: u64,
    pub pages_active: u64,
    pub pages_inactive: u64,
    pub pages_anon_private: u64,
    pub pages_anon_shared: u64,
    pub pages_file: u64,
    pub pages_kernel_slab: u64,
    pub pages_kernel_pagetable: u64,
    pub pages_kernel_stack: u64,
    pub pages_emergency_reserve: u64,
}

/// The change that a deferred call of the remote filesystem makes once it is answered.
#[derive(Clone, Copy, PartialEq, Eq, Structural, Debug)]
pub enum DeferredChange {
    Nothing,
    Create,
    Mkdir,
    Symlink,
    Unlink,
    Rmdir,
    Rename,
    Link,
    Setattr,
}

/// Arguments of such a call that are needed again when the answer comes.
pub struct SaltyfsDeferredArgs {
    pub op: DeferredChange,
    pub mode: u32,
    pub flags: u32,
    pub name_a: Vec<u8>,
    pub name_b: Vec<u8>,
    pub target: Vec<u8>,
}

/// Value of a [`SaltyfsDeferredArgs`].
#[verifier::ext_equal]
pub struct ArgsView {
    pub op: DeferredChange,
    pub mode: u32,
    pub flags: u32,
    pub name_a: Seq<u8>,
    pub name_b: Seq<u8>,
    pub target: Seq<u8>,
}

impl View for SaltyfsDeferredArgs {
    type V = ArgsView;

    open spec fn view(&self) -> ArgsView {
        ArgsView {
            op: self.op,
            mode: self.mode,
            flags: self.flags,
            name_a: self.name_a@,
            name_b: self.name_b@,
            target: self.target@,
        }
    }
}

impl SaltyfsDeferredArgs {
    /// A copy with the same value.
    pub fn duplicate(&self) -> (r: SaltyfsDeferredArgs)
        ensures
            r@ == self@,
    {
        SaltyfsDeferredArgs {
            op: self.op,
            mode: self.mode,
            flags: self.flags,
            name_a: vstd::slice::slice_to_vec(self.name_a.as_slice()),
            name_b: vstd::slice::slice_to_vec(self.name_b.as_slice()),
            target: vstd::slice::slice_to_vec(self.target.as_slice()),
        }
    }
}

} // verus!
