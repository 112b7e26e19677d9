//! The text that files of the process filesystem show.

use crate::bytes::{bytes_eq, cut, decimal, find_byte, first_at, prefix};
use crate::mount::{Mount, MountView};
use crate::state::{VfsModel, VfsState};
use crate::text::{two_digits, Text};
use crate::wire::{KinfoProc, KinfoView, ProcMemSnapshot, SysCpu, SysInfo, SysMemInfo};
use vstd::prelude::*;
use vstd::string::*;

verus! {

/// Most bytes that a file of the process filesystem shows.
pub const PROC_TEXT_MAX: usize = 4096;

/// Most processors that are listed.
pub const PROC_CPUS_MAX: usize = 64;

/// Nanoseconds in a clock tick.
pub const TICK_NS: u64 = 10_000_000;

pub const SECOND_NS: u64 = 1_000_000_000;

/// The letter that stands for a process state.
#[verifier::allow_in_spec]
pub fn proc_state_char(state: u8) -> (r: u8)
    returns
        (if state == 1 {
            82u8
        } else if state == 2 {
            90u8
        } else if state == 3 {
            84u8
        } else {
            83u8
        }),
{
    match state {
        1 => 82,
        2 => 90,
        3 => 84,
        _ => 83,
    }
}

/// The command name: what stands before the first zero byte.
pub open spec fn command_name(k: KinfoView) -> Seq<u8> {
    k.comm.take(first_at(k.comm, 0))
}

fn command_slice(k: &KinfoProc) -> (r: &[u8])
    ensures
        r@ == command_name(k@),
{
    let n: usize = find_byte(k.comm.as_slice(), 0);
    let r = cut(k.comm.as_slice(), 0, n);
    assert(r@ =~= command_name(k@));
    r
}

// ---- processes ---------------------------------------------------------------------

/// The status file of a process.
pub open spec fn pid_status_text(k: KinfoView) -> Seq<u8> {
    "Name:\t".spec_bytes() + command_name(k) + "\nState:\t".spec_bytes() + seq![
        proc_state_char(k.state),
    ] + "\nPid:\t".spec_bytes() + decimal(k.pid as nat) + "\nPPid:\t".spec_bytes() + decimal(
        k.ppid as nat,
    ) + "\nPgid:\t".spec_bytes() + decimal(k.pgid as nat) + "\nSid:\t".spec_bytes() + decimal(
        k.sid as nat,
    ) + "\nThreads:\t".spec_bytes() + decimal(k.num_threads as nat) + "\nVmSize:\t".spec_bytes()
        + decimal((k.vm_size / 1024) as nat) + " kB\nVmRSS:\t".spec_bytes() + decimal(
        (k.vm_rss / 1024) as nat,
    ) + " kB\n".spec_bytes()
}

/// Formats the status file of a process.
pub fn format_pid_status(k: &KinfoProc) -> (r: Vec<u8>)
    ensures
        r@ == prefix(pid_status_text(k@), PROC_TEXT_MAX as int),
{
    let t = Text::of(PROC_TEXT_MAX, "Name:\t").bytes(command_slice(k)).lit("\nState:\t").byte(
        proc_state_char(k.state),
    ).lit("\nPid:\t").num(k.pid as u64).lit("\nPPid:\t").num(k.ppid as u64).lit("\nPgid:\t").num(
        k.pgid as u64,
    ).lit("\nSid:\t").num(k.sid as u64).lit("\nThreads:\t").num(k.num_threads as u64).lit(
        "\nVmSize:\t",
    ).num(k.vm_size / 1024).lit(" kB\nVmRSS:\t").num(k.vm_rss / 1024).lit(" kB\n");
    t.finish()
}

/// The stat file of a process that used `utime` and `stime` nanoseconds in `threads`
/// threads.
pub open spec fn pid_stat_text(k: KinfoView, utime: u64, stime: u64, threads: u64) -> Seq<u8> {
    decimal(k.pid as nat) + " (".spec_bytes() + command_name(k) + ") ".spec_bytes() + seq![
        proc_state_char(k.state),
    ] + " ".spec_bytes() + decimal(k.ppid as nat) + " ".spec_bytes() + decimal(k.pgid as nat)
        + " ".spec_bytes() + decimal(k.sid as nat) + " ".spec_bytes() + decimal(k.tty_dev as nat)
        + " 0 0 0 0 0 ".spec_bytes() + decimal((utime / TICK_NS) as nat) + " ".spec_bytes()
        + decimal((stime / TICK_NS) as nat) + " 0 0 20 0 ".spec_bytes() + decimal(threads as nat)
        + " 0 0 ".spec_bytes() + decimal((k.start_time_ns / TICK_NS) as nat) + " ".spec_bytes()
        + decimal(k.vm_size as nat) + " ".spec_bytes() + decimal((k.vm_rss / 4096) as nat)
        + "\n".spec_bytes()
}

/// Formats the stat file of a process.
pub fn format_pid_stat(k: &KinfoProc, utime: u64, stime: u64, threads: u64) -> (r: Vec<u8>)
    ensures
        r@ == prefix(pid_stat_text(k@, utime, stime, threads), PROC_TEXT_MAX as int),
{
    let t = Text::new(PROC_TEXT_MAX).num(k.pid as u64);
    assert(t@ =~= decimal(k.pid as nat));
    let t = t.lit(" (").bytes(command_slice(k)).lit(") ").byte(proc_state_char(k.state)).lit(
        " ",
    ).num(k.ppid as u64).lit(" ").num(k.pgid as u64).lit(" ").num(k.sid as u64).lit(" ").num(
        k.tty_dev as u64,
    ).lit(" 0 0 0 0 0 ").num(utime / TICK_NS).lit(" ").num(stime / TICK_NS).lit(
        " 0 0 20 0 ",
    ).num(threads).lit(" 0 0 ").num(k.start_time_ns / TICK_NS).lit(" ").num(k.vm_size).lit(
        " ",
    ).num(k.vm_rss / 4096).lit("\n");
    t.finish()
}

/// The comm file of a process: its command name, cut so that the line still ends.
pub open spec fn pid_comm_text(k: KinfoView) -> Seq<u8> {
    prefix(command_name(k), PROC_TEXT_MAX - 1) + "\n".spec_bytes()
}

/// Formats the comm file of a process.
pub fn format_pid_comm(k: &KinfoProc) -> (r: Vec<u8>)
    ensures
        r@ == prefix(pid_comm_text(k@), PROC_TEXT_MAX as int),
{
    let name = crate::bytes::copy_prefix(command_slice(k), PROC_TEXT_MAX - 1);
    let t = Text::new(PROC_TEXT_MAX).bytes(name.as_slice());
    assert(t@ =~= name@);
    t.lit("\n").finish()
}

/// The statm file of a process.
pub open spec fn pid_statm_text(s: ProcMemSnapshot) -> Seq<u8> {
    decimal((s.vm_reserved_bytes / 4096) as nat) + " ".spec_bytes() + decimal(
        s.vm_resident_pages as nat,
    ) + " ".spec_bytes() + decimal(s.resident_file as nat) + " ".spec_bytes() + decimal(
        (s.vm_exe_bytes / 4096) as nat,
    ) + " ".spec_bytes() + decimal((s.vm_lib_bytes / 4096) as nat) + " ".spec_bytes() + decimal(
        (s.vm_data_bytes / 4096) as nat,
    ) + " 0\n".spec_bytes()
}

/// Formats the statm file of a process.
pub fn format_pid_statm(s: &ProcMemSnapshot) -> (r: Vec<u8>)
    ensures
        r@ == prefix(pid_statm_text(*s), PROC_TEXT_MAX as int),
{
    let t = Text::new(PROC_TEXT_MAX).num(s.vm_reserved_bytes / 4096);
    assert(t@ =~= decimal((s.vm_reserved_bytes / 4096) as nat));
    t.lit(" ").num(s.vm_resident_pages).lit(" ").num(s.resident_file).lit(" ").num(
        s.vm_exe_bytes / 4096,
    ).lit(" ").num(s.vm_lib_bytes / 4096).lit(" ").num(s.vm_data_bytes / 4096).lit(" 0\n").finish()
}

// ---- the machine -------------------------------------------------------------------

/// A sum that stops at the largest number there is.
pub open spec fn capped_add(a: u64, b: u64) -> u64 {
    a.saturating_add(b)
}

/// Ticks that the first `n` processors spent, by what `f` picks.
pub open spec fn total_ticks(cpus: Seq<SysCpu>, f: spec_fn(SysCpu) -> u64, n: int) -> u64
    decreases n,
{
    if n <= 0 {
        0
    } else {
        capped_add(total_ticks(cpus, f, n - 1), f(cpus[n - 1]) / TICK_NS)
    }
}

/// Nanoseconds that the first `n` processors were idle.
pub open spec fn total_idle(cpus: Seq<SysCpu>, n: int) -> u64
    decreases n,
{
    if n <= 0 {
        0
    } else {
        capped_add(total_idle(cpus, n - 1), cpus[n - 1].idle_time_ns)
    }
}

/// `t` with a line of processor times appended.
pub open spec fn with_times(t: Seq<u8>, user: u64, system: u64, idle: u64) -> Seq<u8> {
    t + decimal(user as nat) + " 0 ".spec_bytes() + decimal(system as nat) + " ".spec_bytes()
        + decimal(idle as nat) + " 0 0 0 0\n".spec_bytes()
}

fn add_times(t: Text, user: u64, system: u64, idle: u64) -> (r: Text)
    ensures
        r@ == with_times(t@, user, system, idle),
        r.room() == t.room(),
{
    t.num(user).lit(" 0 ").num(system).lit(" ").num(idle).lit(" 0 0 0 0\n")
}

/// `t` with one line for each of the first `n` processors appended.
pub open spec fn with_cpus(t: Seq<u8>, cpus: Seq<SysCpu>, n: int) -> Seq<u8>
    decreases n,
{
    if n <= 0 {
        t
    } else {
        let c = cpus[n - 1];
        with_times(
            with_cpus(t, cpus, n - 1) + "cpu".spec_bytes() + decimal((n - 1) as nat)
                + " ".spec_bytes(),
            c.user_time_ns / TICK_NS,
            c.system_time_ns / TICK_NS,
            c.idle_time_ns / TICK_NS,
        )
    }
}

/// How many processes there are, how many run, and the last process id given out.
#[derive(Clone, Copy, PartialEq, Eq, Structural, Debug)]
pub struct SystemStats {
    pub procs_total: u64,
    pub procs_running: u64,
    pub last_pid: u64,
}

/// The processors that are listed.
pub open spec fn listed_cpus(cpus: Seq<SysCpu>) -> Seq<SysCpu> {
    if cpus.len() <= PROC_CPUS_MAX {
        cpus
    } else {
        cpus.take(PROC_CPUS_MAX as int)
    }
}

/// The stat file of the root.
pub open spec fn root_stat_text(i: SysInfo, all: Seq<SysCpu>, s: SystemStats) -> Seq<u8> {
    let cpus = listed_cpus(all);
    let n = cpus.len() as int;
    with_cpus(
        with_times(
            "cpu ".spec_bytes(),
            total_ticks(cpus, |c: SysCpu| c.user_time_ns, n),
            total_ticks(cpus, |c: SysCpu| c.system_time_ns, n),
            total_ticks(cpus, |c: SysCpu| c.idle_time_ns, n),
        ),
        cpus,
        n,
    ) + "intr 0\nctxt ".spec_bytes() + decimal(i.context_switches_total as nat)
        + "\nbtime ".spec_bytes() + decimal((i.boot_time_ns / SECOND_NS) as nat)
        + "\nprocesses ".spec_bytes() + decimal(s.procs_total as nat)
        + "\nprocs_running ".spec_bytes() + decimal(s.procs_running as nat)
        + "\nprocs_blocked 0\n".spec_bytes()
}

/// Formats the stat file of the root.
pub fn format_root_stat(info: &SysInfo, cpus: &[SysCpu], s: &SystemStats) -> (r: Vec<u8>)
    ensures
        r@ == prefix(root_stat_text(*info, cpus@, *s), PROC_TEXT_MAX as int),
{
    let n: usize = if cpus.len() <= PROC_CPUS_MAX {
        cpus.len()
    } else {
        PROC_CPUS_MAX
    };
    let ghost shown = listed_cpus(cpus@);
    let mut user: u64 = 0;
    let mut system: u64 = 0;
    let mut idle: u64 = 0;
    let mut i: usize = 0;
    while i < n
        invariant
            i <= n <= cpus@.len(),
            n == shown.len(),
            shown == listed_cpus(cpus@),
            user == total_ticks(shown, |c: SysCpu| c.user_time_ns, i as int),
            system == total_ticks(shown, |c: SysCpu| c.system_time_ns, i as int),
            idle == total_ticks(shown, |c: SysCpu| c.idle_time_ns, i as int),
        decreases n - i,
    {
        assert(shown[i as int] == cpus@[i as int]);
        user = user.saturating_add(cpus[i].user_time_ns / TICK_NS);
        system = system.saturating_add(cpus[i].system_time_ns / TICK_NS);
        idle = idle.saturating_add(cpus[i].idle_time_ns / TICK_NS);
        i = i + 1;
    }
    let mut t = add_times(Text::of(PROC_TEXT_MAX, "cpu "), user, system, idle);
    let ghost head = t@;
    let mut k: usize = 0;
    while k < n
        invariant
            k <= n <= cpus@.len(),
            n == shown.len(),
            shown == listed_cpus(cpus@),
            t@ == with_cpus(head, shown, k as int),
            t.room() == PROC_TEXT_MAX,
        decreases n - k,
    {
        assert(shown[k as int] == cpus@[k as int]);
        let c: SysCpu = cpus[k];
        t = add_times(
            t.lit("cpu").num(k as u64).lit(" "),
            c.user_time_ns / TICK_NS,
            c.system_time_ns / TICK_NS,
            c.idle_time_ns / TICK_NS,
        );
        k = k + 1;
    }
    t.lit("intr 0\nctxt ").num(info.context_switches_total).lit("\nbtime ").num(
        info.boot_time_ns / SECOND_NS,
    ).lit("\nprocesses ").num(s.procs_total).lit("\nprocs_running ").num(s.procs_running).lit(
        "\nprocs_blocked 0\n",
    ).finish()
}

/// `t` with a line that shows a size in kilobytes appended.
pub open spec fn with_kb(t: Seq<u8>, label: &'static str, bytes: int) -> Seq<u8> {
    t + label.spec_bytes() + ": ".spec_bytes() + decimal((bytes / 1024) as nat)
        + " kB\n".spec_bytes()
}

fn add_kb(t: Text, label: &'static str, bytes: u64) -> (r: Text)
    ensures
        r@ == with_kb(t@, label, bytes as int),
        r.room() == t.room(),
{
    t.lit(label).lit(": ").num(bytes / 1024).lit(" kB\n")
}

/// Bytes in a page, where a size of zero counts as one.
pub open spec fn page_bytes(m: SysMemInfo) -> int {
    if m.page_size == 0 {
        1
    } else {
        m.page_size as int
    }
}

/// Every count of pages, in bytes, is a number that the machine can hold.
pub open spec fn sizes_fit(m: SysMemInfo) -> bool {
    let p = page_bytes(m);
    &&& m.pages_total * p <= u64::MAX
    &&& m.pages_free * p <= u64::MAX
    &&& m.pages_page_cache * p <= u64::MAX
    &&& m.pages_dirty_file * p <= u64::MAX
    &&& m.pages_writeback_file * p <= u64::MAX
    &&& m.pages_active * p <= u64::MAX
    &&& m.pages_inactive * p <= u64::MAX
    &&& m.pages_anon_private * p <= u64::MAX
    &&& m.pages_anon_shared * p <= u64::MAX
    &&& m.pages_file * p <= u64::MAX
    &&& m.pages_kernel_slab * p <= u64::MAX
    &&& m.pages_kernel_pagetable * p <= u64::MAX
    &&& m.pages_kernel_stack * p <= u64::MAX
    &&& m.pages_emergency_reserve * p <= u64::MAX
}

/// Memory that can be had: what is free beyond the reserve and what is cached, at most all
/// there is.
pub open spec fn available_bytes(m: SysMemInfo) -> int {
    let p = page_bytes(m);
    let free = m.pages_free * p;
    let kept = m.pages_emergency_reserve * p;
    let spare = if free >= kept {
        free - kept
    } else {
        0
    };
    let sum = spare + m.pages_page_cache * p;
    if sum <= m.pages_total * p {
        sum
    } else {
        m.pages_total * p
    }
}

/// The meminfo file of the root.
pub open spec fn meminfo_text(m: SysMemInfo) -> Seq<u8> {
    let p = page_bytes(m);
    let a = with_kb(Seq::empty(), "MemTotal", m.pages_total * p);
    let b = with_kb(a, "MemFree", m.pages_free * p);
    let c = with_kb(b, "MemAvailable", available_bytes(m));
    let d = with_kb(c, "Cached", m.pages_page_cache * p);
    let e = with_kb(d, "Active", m.pages_active * p);
    let f = with_kb(e, "Inactive", m.pages_inactive * p);
    let g = with_kb(f, "AnonPages", m.pages_anon_private * p);
    let h = with_kb(g, "Mapped", m.pages_file * p);
    let i = with_kb(h, "Shmem", m.pages_anon_shared * p);
    let j = with_kb(i, "Dirty", m.pages_dirty_file * p);
    let k = with_kb(j, "Writeback", m.pages_writeback_file * p);
    let l = with_kb(k, "Slab", m.pages_kernel_slab * p);
    let n = with_kb(l, "KernelStack", m.pages_kernel_stack * p);
    let o = with_kb(n, "PageTables", m.pages_kernel_pagetable * p);
    with_kb(with_kb(o, "SwapTotal", 0), "SwapFree", 0)
}

/// Formats the meminfo file of the root.
pub fn format_meminfo(m: &SysMemInfo) -> (r: Vec<u8>)
    requires
        sizes_fit(*m),
    ensures
        r@ == prefix(meminfo_text(*m), PROC_TEXT_MAX as int),
{
    let p: u64 = if m.page_size == 0 {
        1
    } else {
        m.page_size
    };
    let total: u64 = m.pages_total * p;
    let free: u64 = m.pages_free * p;
    let cached: u64 = m.pages_page_cache * p;
    let kept: u64 = m.pages_emergency_reserve * p;
    let sum: u64 = free.saturating_sub(kept).saturating_add(cached);
    let available: u64 = if sum <= total {
        sum
    } else {
        total
    };
    let t = add_kb(Text::new(PROC_TEXT_MAX), "MemTotal", total);
    let t = add_kb(t, "MemFree", free);
    let t = add_kb(t, "MemAvailable", available);
    let t = add_kb(t, "Cached", cached);
    let t = add_kb(t, "Active", m.pages_active * p);
    let t = add_kb(t, "Inactive", m.pages_inactive * p);
    let t = add_kb(t, "AnonPages", m.pages_anon_private * p);
    let t = add_kb(t, "Mapped", m.pages_file * p);
    let t = add_kb(t, "Shmem", m.pages_anon_shared * p);
    let t = add_kb(t, "Dirty", m.pages_dirty_file * p);
    let t = add_kb(t, "Writeback", m.pages_writeback_file * p);
    let t = add_kb(t, "Slab", m.pages_kernel_slab * p);
    let t = add_kb(t, "KernelStack", m.pages_kernel_stack * p);
    let t = add_kb(t, "PageTables", m.pages_kernel_pagetable * p);
    let t = add_kb(t, "SwapTotal", 0);
    add_kb(t, "SwapFree", 0).finish()
}

/// `t` with a time appended in seconds and hundredths.
pub open spec fn with_seconds(t: Seq<u8>, ns: u64) -> Seq<u8> {
    t + decimal((ns / SECOND_NS) as nat) + ".".spec_bytes() + two_digits(
        (ns % SECOND_NS) as int / TICK_NS as int,
    )
}

fn add_seconds(t: Text, ns: u64) -> (r: Text)
    ensures
        r@ == with_seconds(t@, ns),
        r.room() == t.room(),
{
    t.num(ns / SECOND_NS).lit(".").two((ns % SECOND_NS) / TICK_NS)
}

/// The uptime file of the root: how long the machine runs and how long its processors were
/// idle.
pub open spec fn uptime_text(i: SysInfo, all: Seq<SysCpu>) -> Seq<u8> {
    let cpus = listed_cpus(all);
    with_seconds(
        with_seconds(Seq::empty(), i.uptime_ns) + " ".spec_bytes(),
        total_idle(cpus, cpus.len() as int),
    ) + "\n".spec_bytes()
}

/// Formats the uptime file of the root.
pub fn format_uptime(info: &SysInfo, cpus: &[SysCpu]) -> (r: Vec<u8>)
    ensures
        r@ == prefix(uptime_text(*info, cpus@), PROC_TEXT_MAX as int),
{
    let n: usize = if cpus.len() <= PROC_CPUS_MAX {
        cpus.len()
    } else {
        PROC_CPUS_MAX
    };
    let ghost shown = listed_cpus(cpus@);
    let mut idle: u64 = 0;
    let mut i: usize = 0;
    while i < n
        invariant
            i <= n <= cpus@.len(),
            n == shown.len(),
            shown == listed_cpus(cpus@),
            idle == total_idle(shown, i as int),
        decreases n - i,
    {
        assert(shown[i as int] == cpus@[i as int]);
        idle = idle.saturating_add(cpus[i].idle_time_ns);
        i = i + 1;
    }
    let t = add_seconds(Text::new(PROC_TEXT_MAX), info.uptime_ns).lit(" ");
    add_seconds(t, idle).lit("\n").finish()
}

/// `t` with the description of the first `n` of `count` processors appended.
pub open spec fn with_processors(t: Seq<u8>, count: u32, n: int) -> Seq<u8>
    decreases n,
{
    if n <= 0 {
        t
    } else {
        with_processors(t, count, n - 1) + "processor\t: ".spec_bytes() + decimal((n - 1) as nat)
            + "\nvendor_id\t: SaltyOS\nmodel name\t: SaltyOS Generic CPU\ncpu MHz\t\t: 0.000\ncache size\t: 0 KB\nphysical id\t: 0\nsiblings\t: ".spec_bytes()
            + decimal(count as nat) + "\ncore id\t\t: ".spec_bytes() + decimal((n - 1) as nat)
            + "\ncpu cores\t: ".spec_bytes() + decimal(count as nat)
            + "\nflags\t\t:\n\n".spec_bytes()
    }
}

/// How many processors are described: at least one.
#[verifier::allow_in_spec]
pub fn described_cpus(info: SysInfo) -> (r: u32)
    returns
        (if info.cpu_count == 0 {
            1u32
        } else {
            info.cpu_count
        }),
{
    if info.cpu_count == 0 {
        1
    } else {
        info.cpu_count
    }
}

/// The cpuinfo file of the root.
pub open spec fn cpuinfo_text(i: SysInfo) -> Seq<u8> {
    with_processors(Seq::empty(), described_cpus(i), described_cpus(i) as int)
}

proof fn lemma_processors_only_add(t: Seq<u8>, count: u32, k: int, n: int, room: int)
    requires
        0 <= k <= n,
        with_processors(t, count, k).len() >= room,
        room >= 0,
    ensures
        with_processors(t, count, n).len() >= room,
        prefix(with_processors(t, count, n), room) == prefix(with_processors(t, count, k), room),
    decreases n,
{
    if k < n {
        lemma_processors_only_add(t, count, k, n - 1, room);
        let a = with_processors(t, count, n - 1);
        let b = with_processors(t, count, n);
        assert(b.take(a.len() as int) =~= a);
        assert(prefix(b, room) =~= prefix(a, room));
    }
}

/// Formats the cpuinfo file of the root.
pub fn format_cpuinfo(info: &SysInfo) -> (r: Vec<u8>)
    ensures
        r@ == prefix(cpuinfo_text(*info), PROC_TEXT_MAX as int),
{
    let count: u32 = described_cpus(*info);
    let mut t = Text::new(PROC_TEXT_MAX);
    let mut i: u32 = 0;
    while i < count && !t.is_full()
        invariant
            i <= count,
            count == described_cpus(*info),
            t@ == with_processors(Seq::empty(), count, i as int),
            t.room() == PROC_TEXT_MAX,
        decreases count - i,
    {
        t = t.lit("processor\t: ").num(i as u64).lit(
            "\nvendor_id\t: SaltyOS\nmodel name\t: SaltyOS Generic CPU\ncpu MHz\t\t: 0.000\ncache size\t: 0 KB\nphysical id\t: 0\nsiblings\t: ",
        ).num(count as u64).lit("\ncore id\t\t: ").num(i as u64).lit("\ncpu cores\t: ").num(
            count as u64,
        ).lit("\nflags\t\t:\n\n");
        i = i + 1;
    }
    proof {
        if i < count {
            lemma_processors_only_add(
                Seq::empty(),
                count,
                i as int,
                count as int,
                PROC_TEXT_MAX as int,
            );
        }
    }
    t.finish()
}

/// The loadavg file of the root.
pub open spec fn loadavg_text(s: SystemStats) -> Seq<u8> {
    "0.00 0.00 0.00 ".spec_bytes() + decimal(s.procs_running as nat) + "/".spec_bytes() + decimal(
        s.procs_total as nat,
    ) + " ".spec_bytes() + decimal(s.last_pid as nat) + "\n".spec_bytes()
}

/// Formats the loadavg file of the root.
pub fn format_root_loadavg(s: &SystemStats) -> (r: Vec<u8>)
    ensures
        r@ == prefix(loadavg_text(*s), PROC_TEXT_MAX as int),
{
    Text::of(PROC_TEXT_MAX, "0.00 0.00 0.00 ").num(s.procs_running).lit("/").num(
        s.procs_total,
    ).lit(" ").num(s.last_pid).lit("\n").finish()
}

/// The version file of the root.
pub open spec fn version_text() -> Seq<u8> {
    "SaltyOS version 0.1.0 (salty@salty) #1 SMP PREEMPT\n".spec_bytes()
}

/// Formats the version file of the root.
pub fn format_version() -> (r: Vec<u8>)
    ensures
        r@ == prefix(version_text(), PROC_TEXT_MAX as int),
{
    Text::of(PROC_TEXT_MAX, "SaltyOS version 0.1.0 (salty@salty) #1 SMP PREEMPT\n").finish()
}

// ---- mounts ------------------------------------------------------------------------

/// `t` with the line of a mount appended; a mount without a place or a type has none.
pub open spec fn with_mount_line(t: Seq<u8>, m: MountView) -> Seq<u8> {
    if m.mount_path.len() == 0 || m.fs_type.len() == 0 {
        t
    } else {
        t + m.fs_type + " ".spec_bytes() + m.mount_path + " ".spec_bytes() + m.fs_type
            + " rw 0 0\n".spec_bytes()
    }
}

/// A filesystem that is listed whether or not it is mounted.
pub open spec fn is_built_in(name: Seq<u8>) -> bool {
    name == "bootfs".spec_bytes() || name == "devfs".spec_bytes() || name == "procfs".spec_bytes()
        || name == "tmpfs".spec_bytes() || name == "sysctlfs".spec_bytes() || name
        == "pipefs".spec_bytes()
}

/// `t` with the line of a filesystem appended.
pub open spec fn with_fs_line(t: Seq<u8>, name: Seq<u8>) -> Seq<u8> {
    t + "nodev\t".spec_bytes() + name + "\n".spec_bytes()
}

/// `t` with the line of a mount's filesystem appended, unless it is built in or unnamed.
pub open spec fn with_mounted_fs(t: Seq<u8>, m: MountView) -> Seq<u8> {
    if m.fs_type.len() == 0 || is_built_in(m.fs_type) {
        t
    } else {
        with_fs_line(t, m.fs_type)
    }
}

impl VfsModel {
    /// `t` with what `f` appends for every mount in a slot below `i`, in slot order.
    pub open spec fn with_mounts(
        self,
        t: Seq<u8>,
        f: spec_fn(Seq<u8>, MountView) -> Seq<u8>,
        i: int,
    ) -> Seq<u8>
        decreases i,
    {
        if i <= 0 {
            t
        } else {
            let before = self.with_mounts(t, f, i - 1);
            let h = self.mounts.handle_at(i - 1);
            if self.mounts.has(h) {
                f(before, self.mounts.at(h))
            } else {
                before
            }
        }
    }

    /// The mounts file of the root.
    pub open spec fn mounts_text(self) -> Seq<u8> {
        self.with_mounts(
            Seq::empty(),
            |t: Seq<u8>, m: MountView| with_mount_line(t, m),
            self.mounts.epochs.len() as int,
        )
    }

    /// The filesystems file of the root.
    pub open spec fn filesystems_text(self) -> Seq<u8> {
        self.with_mounts(
            built_in_lines(),
            |t: Seq<u8>, m: MountView| with_mounted_fs(t, m),
            self.mounts.epochs.len() as int,
        )
    }
}

/// The lines of the filesystems that are always listed.
pub open spec fn built_in_lines() -> Seq<u8> {
    let a = with_fs_line(Seq::empty(), "bootfs".spec_bytes());
    let b = with_fs_line(a, "devfs".spec_bytes());
    let c = with_fs_line(b, "procfs".spec_bytes());
    let d = with_fs_line(c, "tmpfs".spec_bytes());
    let e = with_fs_line(d, "sysctlfs".spec_bytes());
    with_fs_line(e, "pipefs".spec_bytes())
}

fn add_mount_line(t: Text, m: &Mount) -> (r: Text)
    ensures
        r@ == with_mount_line(t@, m@),
        r.room() == t.room(),
{
    if m.mount_path.len() == 0 || m.fs_type.len() == 0 {
        t
    } else {
        t.bytes(m.fs_type.as_slice()).lit(" ").bytes(m.mount_path.as_slice()).lit(" ").bytes(
            m.fs_type.as_slice(),
        ).lit(" rw 0 0\n")
    }
}

/// Formats the mounts file of the root.
pub fn format_mounts(state: &VfsState) -> (r: Vec<u8>)
    ensures
        r@ == prefix(state@.mounts_text(), PROC_TEXT_MAX as int),
{
    let n: u32 = state.mounts.slot_count();
    let ghost f = |t: Seq<u8>, m: MountView| with_mount_line(t, m);
    let mut t = Text::new(PROC_TEXT_MAX);
    let mut i: u32 = 0;
    while i < n
        invariant
            i <= n,
            n == state@.mounts.epochs.len(),
            f == (|t: Seq<u8>, m: MountView| with_mount_line(t, m)),
            t@ == state@.with_mounts(Seq::empty(), f, i as int),
            t.room() == PROC_TEXT_MAX,
        decreases n - i,
    {
        if let Some(h) = state.mounts.live_at(i) {
            if let Some(m) = state.mounts.get(h) {
                t = add_mount_line(t, m);
            }
        }
        i = i + 1;
    }
    t.finish()
}

fn built_in(name: &[u8]) -> (r: bool)
    ensures
        r == is_built_in(name@),
{
    bytes_eq(name, "bootfs".as_bytes()) || bytes_eq(name, "devfs".as_bytes()) || bytes_eq(
        name,
        "procfs".as_bytes(),
    ) || bytes_eq(name, "tmpfs".as_bytes()) || bytes_eq(name, "sysctlfs".as_bytes()) || bytes_eq(
        name,
        "pipefs".as_bytes(),
    )
}

fn add_fs_line(t: Text, name: &[u8]) -> (r: Text)
    ensures
        r@ == with_fs_line(t@, name@),
        r.room() == t.room(),
{
    t.lit("nodev\t").bytes(name).lit("\n")
}

/// Formats the filesystems file of the root.
pub fn format_filesystems(state: &VfsState) -> (r: Vec<u8>)
    ensures
        r@ == prefix(state@.filesystems_text(), PROC_TEXT_MAX as int),
{
    let n: u32 = state.mounts.slot_count();
    let ghost f = |t: Seq<u8>, m: MountView| with_mounted_fs(t, m);
    let t0 = add_fs_line(Text::new(PROC_TEXT_MAX), "bootfs".as_bytes());
    let t0 = add_fs_line(t0, "devfs".as_bytes());
    let t0 = add_fs_line(t0, "procfs".as_bytes());
    let t0 = add_fs_line(t0, "tmpfs".as_bytes());
    let t0 = add_fs_line(t0, "sysctlfs".as_bytes());
    let mut t = add_fs_line(t0, "pipefs".as_bytes());
    let mut i: u32 = 0;
    while i < n
        invariant
            i <= n,
            n == state@.mounts.epochs.len(),
            f == (|t: Seq<u8>, m: MountView| with_mounted_fs(t, m)),
            t@ == state@.with_mounts(built_in_lines(), f, i as int),
            t.room() == PROC_TEXT_MAX,
        decreases n - i,
    {
        if let Some(h) = state.mounts.live_at(i) {
            if let Some(m) = state.mounts.get(h) {
                if m.fs_type.len() != 0 && !built_in(m.fs_type.as_slice()) {
                    t = add_fs_line(t, m.fs_type.as_slice());
                }
            }
        }
        i = i + 1;
    }
    t.finish()
}

} // verus!
