//! System variables: a fixed tree of small files, two of which can be written.

use crate::arena::Handle;
use crate::bytes::{
    all_digits, bytes_eq, copy_prefix, cut, decimal, number, parse_decimal, pieces, prefix,
    split_bytes, COMMA, MINUS, NEWLINE, SPACE, TAB,
};
use crate::fs::mounting::{fill_mount, mount_number, mounted_root, reserve_slots};
use crate::fs::records::{SysctlLeaf, SysctlLeafKind, SysctlMountView, SysctlfsMountData};
use crate::mount::{Mount, VfsOps, VnodeOps, MNT_RDONLY};
use crate::state::{VfsModel, VfsState};
use crate::status::Status;
use crate::text::Text;
use crate::vnode::{Backend, Vnode, S_IFDIR, S_IFREG};
use crate::wire::{SysInfo, SysMemInfo};
use vstd::prelude::*;
use vstd::string::*;

verus! {

/// Longest host name.
pub const HOSTNAME_MAX: usize = 255;

/// Most bytes that reading a variable gives.
pub const LEAF_TEXT_MAX: usize = 160;

/// Most leaves that dropping a mount lets go of.
pub const LEAVES_PER_MOUNT: usize = 64;

/// A mount of the system-variable filesystem.
#[verifier::allow_in_spec]
pub fn mount_is_sysctlfs(backend: Backend) -> (r: bool)
    returns
        backend == Backend::Sysctlfs,
{
    backend == Backend::Sysctlfs
}

/// Mount operations of the system-variable filesystem.
#[verifier::allow_in_spec]
pub fn sysctlfs_vfsops() -> (r: VfsOps)
    returns
        VfsOps::empty(),
{
    VfsOps::empty()
}

// ---- values ------------------------------------------------------------------------

/// What the kernel tells that system variables show.
#[derive(Clone, Copy, PartialEq, Eq, Structural, Debug)]
pub struct SysFacts {
    pub info: SysInfo,
    pub mem: SysMemInfo,
}

/// A number of pages in bytes, at most the largest number there is.
pub open spec fn pages_in_bytes(pages: u64, size: u64) -> u64 {
    if pages * size <= u64::MAX {
        (pages * size) as u64
    } else {
        u64::MAX
    }
}

/// A number of pages in bytes, at most the largest number there is.
fn bytes_of_pages(pages: u64, size: u64) -> (r: u64)
    ensures
        r == pages_in_bytes(pages, size),
{
    match pages.checked_mul(size) {
        Some(n) => n,
        None => u64::MAX,
    }
}

/// A number on a line of its own.
pub open spec fn number_line(n: u64) -> Seq<u8> {
    decimal(n as nat) + seq![NEWLINE]
}

/// A number with a sign on a line of its own.
pub open spec fn signed_line(n: i32) -> Seq<u8> {
    if n < 0 {
        seq![MINUS] + decimal((-n) as nat) + seq![NEWLINE]
    } else {
        decimal(n as nat) + seq![NEWLINE]
    }
}

/// What a variable shows.
pub open spec fn leaf_text(kind: SysctlLeafKind, m: SysctlMountView, f: SysFacts) -> Seq<u8> {
    match kind {
        SysctlLeafKind::KernOstype => "SaltyOS\n".spec_bytes(),
        SysctlLeafKind::KernOsrelease => "0.1.0\n".spec_bytes(),
        SysctlLeafKind::KernHostname => m.hostname + seq![NEWLINE],
        SysctlLeafKind::KernVersion => "SaltyOS 0.1.0\n".spec_bytes(),
        SysctlLeafKind::KernMaxproc => number_line(256),
        SysctlLeafKind::KernBoottime => number_line(f.info.boot_time_ns),
        SysctlLeafKind::KernUptime => number_line(f.info.uptime_ns),
        SysctlLeafKind::KernContextSwitches => number_line(f.info.context_switches_total),
        SysctlLeafKind::HwNcpu => number_line(f.info.cpu_count as u64),
        SysctlLeafKind::HwPagesize => number_line(4096),
        SysctlLeafKind::HwPhysmem => number_line(
            pages_in_bytes(f.mem.pages_total, f.mem.page_size),
        ),
        SysctlLeafKind::VmPhysmem => number_line(
            pages_in_bytes(f.mem.pages_total, f.mem.page_size),
        ),
        SysctlLeafKind::VmPagesFree => number_line(
            pages_in_bytes(f.mem.pages_free, f.mem.page_size),
        ),
        SysctlLeafKind::VmPageSize => number_line(f.mem.page_size),
        SysctlLeafKind::SecuritySecurelevel => signed_line(m.securelevel),
    }
}

fn write_u64_line(t: Text, n: u64) -> (r: Text)
    requires
        t@.len() == 0,
    ensures
        r@ == number_line(n),
        r.room() == t.room(),
{
    let r = t.num(n).byte(NEWLINE);
    assert(r@ =~= number_line(n));
    r
}

fn write_i32_line(t: Text, n: i32) -> (r: Text)
    requires
        t@.len() == 0,
    ensures
        r@ == signed_line(n),
        r.room() == t.room(),
{
    if n < 0 {
        let size: u64 = (-(n as i64)) as u64;
        let r = t.byte(MINUS).num(size).byte(NEWLINE);
        assert(r@ =~= signed_line(n));
        r
    } else {
        let r = t.num(n as u64).byte(NEWLINE);
        assert(r@ =~= signed_line(n));
        r
    }
}

fn leaf_content(kind: SysctlLeafKind, m: &SysctlfsMountData, f: &SysFacts) -> (r: Vec<u8>)
    ensures
        r@ == prefix(leaf_text(kind, m@, *f), LEAF_TEXT_MAX as int),
{
    let t = Text::new(LEAF_TEXT_MAX);
    let r: Text = match kind {
        SysctlLeafKind::KernOstype => t.lit("SaltyOS\n"),
        SysctlLeafKind::KernOsrelease => t.lit("0.1.0\n"),
        SysctlLeafKind::KernHostname => t.bytes(m.hostname.as_slice()).byte(NEWLINE),
        SysctlLeafKind::KernVersion => t.lit("SaltyOS 0.1.0\n"),
        SysctlLeafKind::KernMaxproc => write_u64_line(t, 256),
        SysctlLeafKind::KernBoottime => write_u64_line(t, f.info.boot_time_ns),
        SysctlLeafKind::KernUptime => write_u64_line(t, f.info.uptime_ns),
        SysctlLeafKind::KernContextSwitches => write_u64_line(t, f.info.context_switches_total),
        SysctlLeafKind::HwNcpu => write_u64_line(t, f.info.cpu_count as u64),
        SysctlLeafKind::HwPagesize => write_u64_line(t, 4096),
        SysctlLeafKind::HwPhysmem => write_u64_line(
            t,
            bytes_of_pages(f.mem.pages_total, f.mem.page_size),
        ),
        SysctlLeafKind::VmPhysmem => write_u64_line(
            t,
            bytes_of_pages(f.mem.pages_total, f.mem.page_size),
        ),
        SysctlLeafKind::VmPagesFree => write_u64_line(
            t,
            bytes_of_pages(f.mem.pages_free, f.mem.page_size),
        ),
        SysctlLeafKind::VmPageSize => write_u64_line(t, f.mem.page_size),
        SysctlLeafKind::SecuritySecurelevel => write_i32_line(t, m.securelevel),
    };
    assert(r@ =~= leaf_text(kind, m@, *f));
    r.finish()
}

// ---- numbers with a sign -----------------------------------------------------------

/// White space around a number.
pub open spec fn is_blank(b: u8) -> bool {
    b == SPACE || b == NEWLINE || b == TAB
}

/// `s` without the white space before it.
pub open spec fn left_trimmed(s: Seq<u8>) -> Seq<u8>
    decreases s.len(),
{
    if s.len() > 0 && is_blank(s[0]) {
        left_trimmed(s.drop_first())
    } else {
        s
    }
}

/// `s` without the white space behind it.
pub open spec fn right_trimmed(s: Seq<u8>) -> Seq<u8>
    decreases s.len(),
{
    if s.len() > 0 && is_blank(s.last()) {
        right_trimmed(s.drop_last())
    } else {
        s
    }
}

/// The number that digits write, where no digits write zero.
pub open spec fn digits_value(s: Seq<u8>) -> Option<int> {
    if all_digits(s) && number(s) <= i32::MAX {
        Some(number(s) as int)
    } else {
        None
    }
}

/// What reading a number with an optional sign gives.
pub open spec fn signed_value(s: Seq<u8>) -> Option<int> {
    let t = right_trimmed(left_trimmed(s));
    if t.len() == 0 {
        None
    } else if t[0] == MINUS {
        match digits_value(t.skip(1)) {
            Some(n) => Some(-n),
            None => None,
        }
    } else {
        digits_value(t)
    }
}

fn blank(b: u8) -> (r: bool)
    ensures
        r == is_blank(b),
{
    b == SPACE || b == NEWLINE || b == TAB
}

fn parse_digits(s: &[u8]) -> (r: Option<i32>)
    ensures
        match r {
            Some(n) => digits_value(s@) == Some(n as int),
            None => digits_value(s@) is None,
        },
{
    if s.len() == 0 {
        assert(number(s@) == 0);
        return Some(0);
    }
    match parse_decimal(s) {
        Some(n) => {
            if n <= i32::MAX as u64 {
                Some(n as i32)
            } else {
                None
            }
        },
        None => None,
    }
}

/// Reads a number with an optional sign and white space around it.
pub fn parse_i32(s: &[u8]) -> (r: Option<i32>)
    ensures
        match r {
            Some(n) => signed_value(s@) == Some(n as int),
            None => signed_value(s@) is None,
        },
{
    let mut start: usize = 0;
    assert(s@.skip(0) =~= s@);
    while start < s.len() && blank(s[start])
        invariant
            start <= s@.len(),
            left_trimmed(s@) == left_trimmed(s@.skip(start as int)),
        decreases s@.len() - start,
    {
        assert(s@.skip(start as int).drop_first() =~= s@.skip(start + 1));
        start = start + 1;
    }
    let left = cut(s, start, s.len());
    assert(left@ =~= s@.skip(start as int));
    assert(left@ == left_trimmed(s@));
    let mut end: usize = left.len();
    assert(left@.take(end as int) =~= left@);
    while end > 0 && blank(left[end - 1])
        invariant
            end <= left@.len(),
            right_trimmed(left@) == right_trimmed(left@.take(end as int)),
        decreases end,
    {
        assert(left@.take(end as int).drop_last() =~= left@.take(end - 1));
        end = end - 1;
    }
    let t = cut(left, 0, end);
    assert(t@ =~= left@.take(end as int));
    assert(t@ == right_trimmed(left_trimmed(s@)));
    if t.len() == 0 {
        return None;
    }
    if t[0] == MINUS {
        let digits = cut(t, 1, t.len());
        assert(digits@ =~= t@.skip(1));
        match parse_digits(digits) {
            Some(n) => Some(-n),
            None => None,
        }
    } else {
        parse_digits(t)
    }
}

// ---- mounts ------------------------------------------------------------------------

/// The options ask for a mount that cannot be written.
pub open spec fn asks_read_only(opts: Seq<u8>) -> bool {
    exists|i: int|
        0 <= i < pieces(opts, COMMA).len() && (#[trigger] pieces(opts, COMMA)[i]
            == "ro".spec_bytes() || pieces(opts, COMMA)[i] == "readonly".spec_bytes())
}

/// The flags of a mount with what its options add.
pub open spec fn sysctl_flags(flags: u32, opts: Seq<u8>) -> u32 {
    if asks_read_only(opts) {
        flags | MNT_RDONLY
    } else {
        flags
    }
}

/// The flags of a mount with what its options add.
pub fn parse_sysctlfs_flags(flags: u32, opts: &[u8]) -> (r: u32)
    ensures
        r == sysctl_flags(flags, opts@),
{
    let tokens: Vec<Vec<u8>> = split_bytes(opts, COMMA);
    let ghost all = pieces(opts@, COMMA);
    let mut i: usize = 0;
    while i < tokens.len()
        invariant
            i <= tokens@.len(),
            all == pieces(opts@, COMMA),
            tokens@.len() == all.len(),
            forall|k: int| 0 <= k < all.len() ==> (#[trigger] tokens@[k])@ == all[k],
            forall|k: int|
                0 <= k < i ==> #[trigger] all[k] != "ro".spec_bytes() && all[k]
                    != "readonly".spec_bytes(),
        decreases tokens@.len() - i,
    {
        let token = tokens[i].as_slice();
        assert(token@ == all[i as int]);
        if bytes_eq(token, "ro".as_bytes()) || bytes_eq(token, "readonly".as_bytes()) {
            return flags | MNT_RDONLY;
        }
        i = i + 1;
    }
    flags
}

/// The mount record of a new mount.
pub open spec fn sysctl_record(mh: Handle, fs: crate::identity::FsInstanceId, rv: Handle) -> SysctlMountView {
    SysctlMountView {
        owner_mount: mh,
        fs_instance_id: fs,
        root_vnode: rv,
        hostname: "saltyos".spec_bytes(),
        securelevel: 0,
    }
}

impl VfsModel {
    /// The state after a mount of this filesystem was made, and the mount. Where a table is
    /// full, what was reserved by then stays reserved.
    pub open spec fn sysctlfs_made(self, path: Seq<u8>, flags: u32, opts: Seq<u8>) -> (VfsModel, Option<Handle>) {
        let s = self.slots_reserved();
        match self.mount_slots() {
            None => (s, None),
            Some((rv, mh)) => if s.sysctlfs_mounts.next() is None {
                (s, None)
            } else {
                let fs_id = s.next_fs_instance_id;
                (
                    VfsModel {
                        sysctlfs_mounts: s.sysctlfs_mounts.grown(sysctl_record(mh, fs_id, rv)),
                        ..s
                    }.instance_taken().backend_mounted(
                        rv,
                        mh,
                        fs_id,
                        Backend::Sysctlfs,
                        sysctl_flags(flags, opts),
                        "sysctlfs".spec_bytes(),
                        path,
                    ),
                    Some(mh),
                )
            },
        }
    }
}

/// Mounts the system-variable filesystem. `None` when a table is full; what was reserved by
/// then stays reserved.
pub fn alloc_sysctlfs_mount(state: &mut VfsState, mount_path: &[u8], flags: u32, opts: &[u8]) -> (r:
    Option<Handle>)
    ensures
        (final(state)@, r) == old(state)@.sysctlfs_made(mount_path@, flags, opts@),
{
    let effective: u32 = parse_sysctlfs_flags(flags, opts);
    let (rv, mh) = match reserve_slots(state) {
        Some(p) => p,
        None => {
            return None;
        },
    };
    let fs_id = state.next_fs_instance_id;
    let record = SysctlfsMountData {
        owner_mount: mh,
        fs_instance_id: fs_id,
        root_vnode: rv,
        hostname: vstd::slice::slice_to_vec("saltyos".as_bytes()),
        securelevel: 0,
    };
    assert(record@ =~= sysctl_record(mh, fs_id, rv));
    if state.sysctlfs_mounts.reserve(record).is_none() {
        return None;
    }
    let _ = state.alloc_fs_instance_id();
    let mt = Mount::new_structural(
        mount_number(mh.slot),
        effective,
        fs_id,
        rv,
        Backend::Sysctlfs,
        "sysctlfs".as_bytes(),
        mount_path,
    );
    fill_mount(state, rv, mounted_root(Backend::Sysctlfs, fs_id, mh), mh, mt);
    Some(mh)
}

impl VfsModel {
    /// The record of the system-variable mount `mount`.
    pub open spec fn sysctl_data(self, mount: Handle) -> Option<Handle> {
        self.sysctlfs_mounts.first(|h: Handle, d: SysctlMountView| d.owner_mount == mount)
    }

    /// The state without leaf `h`; its vnode no longer leads to it.
    pub open spec fn leaf_dropped(self, h: Handle) -> VfsModel {
        match self.sysctl_leaves.entry(h) {
            None => self,
            Some(l) => {
                let s = match self.vnodes.entry(l.vnode) {
                    Some(vn) => self.with_vnode(
                        l.vnode,
                        Vnode { backend_ref: Handle::invalid(), ..vn },
                    ),
                    None => self,
                }.uncached(l.vnode);
                VfsModel { sysctl_leaves: s.sysctl_leaves.dropped(h), ..s }
            },
        }
    }

    /// The state without the leaves `hs`.
    pub open spec fn leaves_dropped(self, hs: Seq<Handle>) -> VfsModel
        decreases hs.len(),
    {
        if hs.len() == 0 {
            self
        } else {
            self.leaves_dropped(hs.drop_last()).leaf_dropped(hs.last())
        }
    }

    /// The state after a system-variable mount was dropped: its leaves and its record are
    /// gone.
    pub open spec fn sysctl_unmounted(self, mount: Handle) -> VfsModel {
        let s = self.leaves_dropped(
            self.sysctl_leaves.listed(
                |h: Handle, l: SysctlLeaf| l.owner_mount == mount,
                0,
                LEAVES_PER_MOUNT as nat,
            ),
        );
        match s.sysctl_data(mount) {
            Some(h) => VfsModel { sysctlfs_mounts: s.sysctlfs_mounts.dropped(h), ..s },
            None => s,
        }
    }

    /// A regular file at `path` that shows variable `kind`.
    pub open spec fn leaf_registered(
        self,
        path: Seq<u8>,
        mode: u32,
        kind: SysctlLeafKind,
        now: u64,
    ) -> (VfsModel, Result<(), Status>) {
        let (s, made) = self.regular_path_made(path, mode, now);
        match made {
            Err(e) => (s, Err(e)),
            Ok(v) => match s.vnodes.entry(v) {
                None => (s, Err(Status::InvalidOperation)),
                Some(vn) => {
                    let mount = vn.mount.handle;
                    match s.sysctl_leaves.next() {
                        None => (s, Err(Status::OutOfMemory)),
                        Some(h) => (
                            VfsModel {
                                sysctl_leaves: s.sysctl_leaves.grown(
                                    SysctlLeaf { owner_mount: mount, vnode: v, kind },
                                ),
                                ..s
                            }.with_vnode(
                                v,
                                Vnode {
                                    backend_ref: h,
                                    size: leaf_size(kind, s.host_name_len(mount)),
                                    ..vn
                                },
                            ).cached(v),
                            Ok(()),
                        ),
                    }
                },
            },
        }
    }

    /// Length of the host name of a system-variable mount, if it has a record.
    pub open spec fn host_name_len(self, mount: Handle) -> Option<nat> {
        match self.sysctl_data(mount) {
            Some(h) => Some(self.sysctlfs_mounts.at(h).hostname.len()),
            None => None,
        }
    }

    /// The variables of `defs` registered in turn, up to the first that cannot be.
    pub open spec fn all_leaves_registered(self, defs: Seq<LeafDef>, now: u64) -> (VfsModel, bool)
        decreases defs.len(),
    {
        if defs.len() == 0 {
            (self, true)
        } else {
            let d = defs.first();
            let (s, r) = self.leaf_registered(d.path.spec_bytes(), d.mode, d.kind, now);
            if r is Err {
                (s, false)
            } else {
                s.all_leaves_registered(defs.drop_first(), now)
            }
        }
    }

    /// The directories of `paths` made in turn, up to the first that neither can be made nor
    /// is there.
    pub open spec fn all_dirs_made(self, paths: Seq<&'static str>, mode: u32, now: u64) -> (
        VfsModel,
        bool,
    )
        decreases paths.len(),
    {
        if paths.len() == 0 {
            (self, true)
        } else {
            let p = paths.first().spec_bytes();
            let (s, r) = self.dir_path_made(p, mode, now);
            if r is Err && s.boot_named(p) is None {
                (s, false)
            } else {
                s.all_dirs_made(paths.drop_first(), mode, now)
            }
        }
    }

    /// The tree of system variables laid out.
    pub open spec fn sysctl_populated(self, now: u64) -> (VfsModel, bool) {
        let (s, ok) = self.all_dirs_made(sysctl_dirs(), S_IFDIR | 0o555, now);
        if ok {
            s.all_leaves_registered(sysctl_defs(), now)
        } else {
            (s, false)
        }
    }

    /// The leaf of vnode `v` and the record of its mount.
    pub open spec fn leaf_with_record(self, v: Handle) -> Option<(SysctlLeaf, Handle)> {
        match self.sysctl_leaf_of(v) {
            None => None,
            Some(h) => {
                let l = self.sysctl_leaves.at(h);
                match self.sysctl_data(l.owner_mount) {
                    Some(d) => Some((l, d)),
                    None => None,
                }
            },
        }
    }

    /// What reading a variable from `offset` on gives: at most `cap` bytes.
    pub open spec fn leaf_read(self, v: Handle, offset: u64, cap: int, f: SysFacts) -> Option<
        Seq<u8>,
    > {
        match self.leaf_with_record(v) {
            None => None,
            Some((l, d)) => Some(
                part_of(
                    prefix(
                        leaf_text(l.kind, self.sysctlfs_mounts.at(d), f),
                        LEAF_TEXT_MAX as int,
                    ),
                    offset,
                    cap,
                ),
            ),
        }
    }

    /// The vnode of a variable after it was written.
    pub open spec fn leaf_touched(self, v: Handle, size: u64) -> VfsModel {
        match self.vnodes.entry(v) {
            Some(vn) => self.with_vnode(
                v,
                Vnode { size, mtime_ns: vn.mtime_ns.saturating_add(1), ..vn },
            ),
            None => self,
        }
    }

    /// Writing `src` to a variable.
    pub open spec fn leaf_written(self, v: Handle, offset: u64, src: Seq<u8>) -> (
        VfsModel,
        Result<u64, Status>,
    ) {
        if offset != 0 {
            (self, Err(Status::InvalidOperation))
        } else {
            match self.leaf_with_record(v) {
                None => (self, Err(Status::NotSupported)),
                Some((l, d)) => {
                    let m = self.sysctlfs_mounts.at(d);
                    match l.kind {
                        SysctlLeafKind::KernHostname => {
                            let name = stored_name(src);
                            (
                                VfsModel {
                                    sysctlfs_mounts: self.sysctlfs_mounts.put(
                                        d,
                                        SysctlMountView { hostname: name, ..m },
                                    ),
                                    ..self
                                }.leaf_touched(v, (name.len() + 1) as u64),
                                Ok(src.len() as u64),
                            )
                        },
                        SysctlLeafKind::SecuritySecurelevel => match signed_value(src) {
                            None => (self, Err(Status::InvalidArgument)),
                            Some(n) => (
                                VfsModel {
                                    sysctlfs_mounts: self.sysctlfs_mounts.put(
                                        d,
                                        SysctlMountView { securelevel: n as i32, ..m },
                                    ),
                                    ..self
                                }.leaf_touched(
                                    v,
                                    if n < 0 {
                                        3
                                    } else {
                                        2
                                    },
                                ),
                                Ok(src.len() as u64),
                            ),
                        },
                        _ => (self, Err(Status::InvalidOperation)),
                    }
                },
            }
        }
    }

    /// The mount of vnode `v` cannot be written.
    pub open spec fn on_read_only_mount(self, v: Handle) -> bool {
        match self.vnodes.entry(v) {
            Some(vn) => match self.mounts.entry(vn.mount.handle) {
                Some(mt) => mt.flags & MNT_RDONLY != 0,
                None => false,
            },
            None => false,
        }
    }
}

/// The bytes of `text` from `offset` on, at most `cap` of them.
pub open spec fn part_of(text: Seq<u8>, offset: u64, cap: int) -> Seq<u8> {
    if offset >= text.len() {
        Seq::empty()
    } else {
        prefix(text.skip(offset as int), cap)
    }
}

/// The bytes of `text` from `offset` on, at most `cap` of them.
pub fn read_part(text: &[u8], offset: u64, cap: usize) -> (r: Vec<u8>)
    ensures
        r@ == part_of(text@, offset, cap as int),
{
    if offset >= text.len() as u64 {
        let r: Vec<u8> = Vec::new();
        return r;
    }
    let rest = cut(text, offset as usize, text.len());
    assert(rest@ =~= text@.skip(offset as int));
    copy_prefix(rest, cap)
}

/// The host name that writing `src` stores: without a final newline, cut to its maximum.
pub open spec fn stored_name(src: Seq<u8>) -> Seq<u8> {
    let t = if src.len() > 0 && src.last() == NEWLINE {
        src.drop_last()
    } else {
        src
    };
    prefix(t, HOSTNAME_MAX as int)
}

/// Size that a variable's file shows before it was read.
pub open spec fn leaf_size(kind: SysctlLeafKind, host_name_len: Option<nat>) -> u64 {
    match kind {
        SysctlLeafKind::KernOstype => 8,
        SysctlLeafKind::KernOsrelease => 6,
        SysctlLeafKind::KernVersion => 14,
        SysctlLeafKind::KernMaxproc => 4,
        SysctlLeafKind::KernBoottime => 24,
        SysctlLeafKind::KernUptime => 24,
        SysctlLeafKind::KernContextSwitches => 24,
        SysctlLeafKind::HwNcpu => 4,
        SysctlLeafKind::HwPagesize => 6,
        SysctlLeafKind::HwPhysmem => 24,
        SysctlLeafKind::VmPhysmem => 24,
        SysctlLeafKind::VmPagesFree => 24,
        SysctlLeafKind::VmPageSize => 6,
        SysctlLeafKind::KernHostname => match host_name_len {
            Some(n) => if n < u64::MAX {
                (n + 1) as u64
            } else {
                u64::MAX
            },
            None => 0,
        },
        SysctlLeafKind::SecuritySecurelevel => 4,
    }
}

/// A variable of the tree: where it stands, how it may be used, what it shows.
#[derive(Clone, Copy)]
pub struct LeafDef {
    pub path: &'static str,
    pub mode: u32,
    pub kind: SysctlLeafKind,
}

/// The directories of the tree.
pub open spec fn sysctl_dirs() -> Seq<&'static str> {
    seq!["/sys/kern", "/sys/hw", "/sys/net", "/sys/vm", "/sys/vfs", "/sys/security"]
}

/// The mode of a variable that can only be read.
#[verifier::allow_in_spec]
pub fn fixed_mode() -> (r: u32)
    returns
        S_IFREG | 0o444u32,
{
    S_IFREG | 0o444
}

/// The mode of a variable that can be written.
#[verifier::allow_in_spec]
pub fn settable_mode() -> (r: u32)
    returns
        S_IFREG | 0o644u32,
{
    S_IFREG | 0o644
}

/// A variable of the tree.
#[verifier::allow_in_spec]
pub fn leaf_def(path: &'static str, mode: u32, kind: SysctlLeafKind) -> (r: LeafDef)
    returns
        (LeafDef { path, mode, kind }),
{
    LeafDef { path, mode, kind }
}

/// The variables of the tree.
pub open spec fn sysctl_defs() -> Seq<LeafDef> {
    seq![
        leaf_def("/sys/kern/ostype", fixed_mode(), SysctlLeafKind::KernOstype),
        leaf_def("/sys/kern/osrelease", fixed_mode(), SysctlLeafKind::KernOsrelease),
        leaf_def("/sys/kern/hostname", settable_mode(), SysctlLeafKind::KernHostname),
        leaf_def("/sys/kern/version", fixed_mode(), SysctlLeafKind::KernVersion),
        leaf_def("/sys/kern/maxproc", fixed_mode(), SysctlLeafKind::KernMaxproc),
        leaf_def("/sys/kern/boottime", fixed_mode(), SysctlLeafKind::KernBoottime),
        leaf_def("/sys/kern/uptime", fixed_mode(), SysctlLeafKind::KernUptime),
        leaf_def(
            "/sys/kern/context_switches",
            fixed_mode(),
            SysctlLeafKind::KernContextSwitches,
        ),
        leaf_def("/sys/hw/ncpu", fixed_mode(), SysctlLeafKind::HwNcpu),
        leaf_def("/sys/hw/pagesize", fixed_mode(), SysctlLeafKind::HwPagesize),
        leaf_def("/sys/hw/physmem", fixed_mode(), SysctlLeafKind::HwPhysmem),
        leaf_def("/sys/vm/physmem", fixed_mode(), SysctlLeafKind::VmPhysmem),
        leaf_def("/sys/vm/pages_free", fixed_mode(), SysctlLeafKind::VmPagesFree),
        leaf_def("/sys/vm/page_size", fixed_mode(), SysctlLeafKind::VmPageSize),
        leaf_def(
            "/sys/security/securelevel",
            settable_mode(),
            SysctlLeafKind::SecuritySecurelevel,
        ),
    ]
}

/// The record of a system-variable mount.
pub fn find_sysctl_data(state: &VfsState, mount: Handle) -> (r: Option<Handle>)
    ensures
        r == state@.sysctl_data(mount),
        r matches Some(h) ==> state@.sysctlfs_mounts.has(h),
{
    state.sysctlfs_mounts.find(
        |h: Handle, d: &SysctlfsMountData| -> (b: bool) ensures b == (d@.owner_mount == mount) { d.owner_mount == mount },
        Ghost(|h: Handle, d: SysctlMountView| d.owner_mount == mount),
    )
}

fn drop_leaf(state: &mut VfsState, h: Handle)
    ensures
        final(state)@ == old(state)@.leaf_dropped(h),
{
    let l: SysctlLeaf = match state.sysctl_leaves.get(h) {
        Some(l) => *l,
        None => {
            return;
        },
    };
    if let Some(vn) = state.vnodes.get_mut(l.vnode) {
        vn.backend_ref = Handle::invalid();
    }
    state.uncache_vnode_key(l.vnode);
    let _ = state.sysctl_leaves.release(h);
}

/// Drops what is kept of a system-variable mount.
pub fn release_sysctlfs_mount(state: &mut VfsState, owner_mount: Handle) -> (r: bool)
    ensures
        r,
        final(state)@ == old(state)@.sysctl_unmounted(owner_mount),
{
    let leaves = state.sysctl_leaves.collect(
        |h: Handle, l: &SysctlLeaf| -> (b: bool) ensures b == (l@.owner_mount == owner_mount) { l.owner_mount == owner_mount },
        LEAVES_PER_MOUNT,
        Ghost(|h: Handle, l: SysctlLeaf| l.owner_mount == owner_mount),
    );
    let ghost start = state@;
    let mut i: usize = 0;
    assert(leaves@.take(0) =~= Seq::<Handle>::empty());
    while i < leaves.len()
        invariant
            i <= leaves@.len(),
            state@ == start.leaves_dropped(leaves@.take(i as int)),
        decreases leaves@.len() - i,
    {
        drop_leaf(state, leaves[i]);
        assert(leaves@.take(i + 1).drop_last() =~= leaves@.take(i as int));
        i = i + 1;
    }
    assert(leaves@.take(i as int) =~= leaves@);
    match find_sysctl_data(state, owner_mount) {
        Some(h) => state.sysctlfs_mounts.release(h),
        None => true,
    }
}

/// Size that a variable's file shows before it was read.
pub fn leaf_size_hint(state: &VfsState, mount: Handle, kind: SysctlLeafKind) -> (r: u64)
    ensures
        r == leaf_size(kind, state@.host_name_len(mount)),
{
    match kind {
        SysctlLeafKind::KernOstype => 8,
        SysctlLeafKind::KernOsrelease => 6,
        SysctlLeafKind::KernVersion => 14,
        SysctlLeafKind::KernMaxproc => 4,
        SysctlLeafKind::KernBoottime => 24,
        SysctlLeafKind::KernUptime => 24,
        SysctlLeafKind::KernContextSwitches => 24,
        SysctlLeafKind::HwNcpu => 4,
        SysctlLeafKind::HwPagesize => 6,
        SysctlLeafKind::HwPhysmem => 24,
        SysctlLeafKind::VmPhysmem => 24,
        SysctlLeafKind::VmPagesFree => 24,
        SysctlLeafKind::VmPageSize => 6,
        SysctlLeafKind::KernHostname => match find_sysctl_data(state, mount) {
            Some(h) => match state.sysctlfs_mounts.get(h) {
                Some(d) => (d.hostname.len() as u64).saturating_add(1),
                None => 0,
            },
            None => 0,
        },
        SysctlLeafKind::SecuritySecurelevel => 4,
    }
}

/// Makes the file that shows a variable.
pub fn register_leaf(
    state: &mut VfsState,
    path: &[u8],
    mode: u32,
    kind: SysctlLeafKind,
    now: u64,
) -> (r: Result<(), Status>)
    ensures
        (final(state)@, r) == old(state)@.leaf_registered(path@, mode, kind, now),
{
    let vh: Handle = match state.bootstrap_create_regular_file_path(path, mode, now) {
        Ok(h) => h,
        Err(e) => {
            return Err(e);
        },
    };
    let ghost s = state@;
    let mount: Handle = match state.vnodes.get(vh) {
        Some(vn) => vn.mount.handle,
        None => {
            return Err(Status::InvalidOperation);
        },
    };
    let leaf: Handle = match state.sysctl_leaves.reserve(
        SysctlLeaf { owner_mount: mount, vnode: vh, kind },
    ) {
        Some(h) => h,
        None => {
            return Err(Status::OutOfMemory);
        },
    };
    let size: u64 = leaf_size_hint(state, mount, kind);
    assert(state@.host_name_len(mount) == s.host_name_len(mount));
    if let Some(vn) = state.vnodes.get_mut(vh) {
        vn.backend_ref = leaf;
        vn.size = size;
    }
    state.cache_vnode_key(vh);
    Ok(())
}

fn dir_list() -> (r: Vec<&'static str>)
    ensures
        r@ == sysctl_dirs(),
{
    let mut v: Vec<&'static str> = Vec::new();
    v.push("/sys/kern");
    v.push("/sys/hw");
    v.push("/sys/net");
    v.push("/sys/vm");
    v.push("/sys/vfs");
    v.push("/sys/security");
    assert(v@ =~= sysctl_dirs());
    v
}

fn def_list() -> (r: Vec<LeafDef>)
    ensures
        r@ == sysctl_defs(),
{
    let ro: u32 = fixed_mode();
    let rw: u32 = settable_mode();
    let mut v: Vec<LeafDef> = Vec::new();
    v.push(leaf_def("/sys/kern/ostype", ro, SysctlLeafKind::KernOstype));
    v.push(leaf_def("/sys/kern/osrelease", ro, SysctlLeafKind::KernOsrelease));
    v.push(leaf_def("/sys/kern/hostname", rw, SysctlLeafKind::KernHostname));
    v.push(leaf_def("/sys/kern/version", ro, SysctlLeafKind::KernVersion));
    v.push(leaf_def("/sys/kern/maxproc", ro, SysctlLeafKind::KernMaxproc));
    v.push(leaf_def("/sys/kern/boottime", ro, SysctlLeafKind::KernBoottime));
    v.push(leaf_def("/sys/kern/uptime", ro, SysctlLeafKind::KernUptime));
    v.push(leaf_def("/sys/kern/context_switches", ro, SysctlLeafKind::KernContextSwitches));
    v.push(leaf_def("/sys/hw/ncpu", ro, SysctlLeafKind::HwNcpu));
    v.push(leaf_def("/sys/hw/pagesize", ro, SysctlLeafKind::HwPagesize));
    v.push(leaf_def("/sys/hw/physmem", ro, SysctlLeafKind::HwPhysmem));
    v.push(leaf_def("/sys/vm/physmem", ro, SysctlLeafKind::VmPhysmem));
    v.push(leaf_def("/sys/vm/pages_free", ro, SysctlLeafKind::VmPagesFree));
    v.push(leaf_def("/sys/vm/page_size", ro, SysctlLeafKind::VmPageSize));
    v.push(leaf_def("/sys/security/securelevel", rw, SysctlLeafKind::SecuritySecurelevel));
    assert(v@ =~= sysctl_defs());
    v
}

/// Makes directories in turn; `false` at the first that neither can be made nor is there.
pub fn make_dirs(state: &mut VfsState, paths: &Vec<&'static str>, mode: u32, now: u64) -> (r: bool)
    ensures
        (final(state)@, r) == old(state)@.all_dirs_made(paths@, mode, now),
{
    let mut i: usize = 0;
    assert(paths@.skip(0) =~= paths@);
    while i < paths.len()
        invariant
            i <= paths@.len(),
            state@.all_dirs_made(paths@.skip(i as int), mode, now) == old(state)@.all_dirs_made(
                paths@,
                mode,
                now,
            ),
        decreases paths@.len() - i,
    {
        let p = paths[i].as_bytes();
        assert(paths@.skip(i as int).drop_first() =~= paths@.skip(i + 1));
        if state.bootstrap_mkdir_path(p, mode, now).is_err() && state.bootstrap_lookup_path(
            p,
        ).is_none() {
            return false;
        }
        i = i + 1;
    }
    true
}

/// Lays out the tree of system variables; `false` when a part of it cannot be made.
pub fn populate_sysctl_tree(state: &mut VfsState, now: u64) -> (r: bool)
    ensures
        (final(state)@, r) == old(state)@.sysctl_populated(now),
{
    let dirs = dir_list();
    if !make_dirs(state, &dirs, S_IFDIR | 0o555, now) {
        return false;
    }
    let defs = def_list();
    let ghost start = state@;
    let mut i: usize = 0;
    assert(defs@.skip(0) =~= defs@);
    while i < defs.len()
        invariant
            i <= defs@.len(),
            old(state)@.sysctl_populated(now) == start.all_leaves_registered(defs@, now),
            state@.all_leaves_registered(defs@.skip(i as int), now) == start.all_leaves_registered(
                defs@,
                now,
            ),
        decreases defs@.len() - i,
    {
        let d: LeafDef = defs[i];
        assert(defs@.skip(i as int).drop_first() =~= defs@.skip(i + 1));
        if register_leaf(state, d.path.as_bytes(), d.mode, d.kind, now).is_err() {
            return false;
        }
        i = i + 1;
    }
    true
}

/// The leaf of a vnode and the record of its mount.
pub fn lookup_leaf(state: &VfsState, vnode: Handle) -> (r: Option<(SysctlLeaf, Handle)>)
    ensures
        r == state@.leaf_with_record(vnode),
        r matches Some(p) ==> state@.sysctlfs_mounts.has(p.1),
{
    let h: Handle = match state.find_leaf_handle_by_vnode(vnode) {
        Some(h) => h,
        None => {
            return None;
        },
    };
    match state.sysctl_leaves.get(h) {
        Some(l) => match find_sysctl_data(state, l.owner_mount) {
            Some(d) => Some((*l, d)),
            None => None,
        },
        None => None,
    }
}

/// Reads a variable from `offset` on, at most `cap` bytes; `None` where the vnode shows no
/// variable.
pub fn read_leaf(state: &VfsState, vnode: Handle, offset: u64, cap: usize, facts: &SysFacts) -> (r:
    Option<Vec<u8>>)
    ensures
        match r {
            Some(b) => state@.leaf_read(vnode, offset, cap as int, *facts) == Some(b@),
            None => state@.leaf_read(vnode, offset, cap as int, *facts) is None,
        },
{
    let (leaf, d) = match lookup_leaf(state, vnode) {
        Some(p) => p,
        None => {
            return None;
        },
    };
    match state.sysctlfs_mounts.get(d) {
        Some(m) => {
            let text: Vec<u8> = leaf_content(leaf.kind, m, facts);
            Some(read_part(text.as_slice(), offset, cap))
        },
        None => None,
    }
}

fn touch_leaf(state: &mut VfsState, vnode: Handle, size: u64)
    ensures
        final(state)@ == old(state)@.leaf_touched(vnode, size),
{
    if let Some(vn) = state.vnodes.get_mut(vnode) {
        vn.size = size;
        vn.mtime_ns = vn.mtime_ns.saturating_add(1);
    }
}

fn name_to_store(src: &[u8]) -> (r: Vec<u8>)
    ensures
        r@ == stored_name(src@),
{
    let n: usize = src.len();
    if n > 0 && src[n - 1] == NEWLINE {
        let t = cut(src, 0, n - 1);
        assert(t@ =~= src@.drop_last());
        copy_prefix(t, HOSTNAME_MAX)
    } else {
        copy_prefix(src, HOSTNAME_MAX)
    }
}

/// Writes a variable as a whole: the host name or the security level.
pub fn write_leaf(state: &mut VfsState, vnode: Handle, offset: u64, src: &[u8]) -> (r: Result<
    u64,
    Status,
>)
    ensures
        (final(state)@, r) == old(state)@.leaf_written(vnode, offset, src@),
{
    if offset != 0 {
        return Err(Status::InvalidOperation);
    }
    let (leaf, d) = match lookup_leaf(state, vnode) {
        Some(p) => p,
        None => {
            return Err(Status::NotSupported);
        },
    };
    match leaf.kind {
        SysctlLeafKind::KernHostname => {
            let name: Vec<u8> = name_to_store(src);
            let size: u64 = name.len() as u64 + 1;
            if let Some(m) = state.sysctlfs_mounts.get_mut(d) {
                m.hostname = name;
            }
            touch_leaf(state, vnode, size);
            Ok(src.len() as u64)
        },
        SysctlLeafKind::SecuritySecurelevel => match parse_i32(src) {
            None => Err(Status::InvalidArgument),
            Some(n) => {
                if let Some(m) = state.sysctlfs_mounts.get_mut(d) {
                    m.securelevel = n;
                }
                let size: u64 = if n < 0 {
                    3
                } else {
                    2
                };
                touch_leaf(state, vnode, size);
                Ok(src.len() as u64)
            },
        },
        _ => Err(Status::InvalidOperation),
    }
}

/// Reads a file of the system-variable filesystem.
pub fn sysctlfs_read_regular(
    state: &VfsState,
    vnode: Handle,
    offset: u64,
    cap: usize,
    facts: &SysFacts,
) -> (r: Result<Vec<u8>, Status>)
    ensures
        match r {
            Ok(b) => state@.leaf_read(vnode, offset, cap as int, *facts) == Some(b@),
            Err(e) => state@.leaf_read(vnode, offset, cap as int, *facts) is None && e
                == Status::NotSupported,
        },
{
    match read_leaf(state, vnode, offset, cap, facts) {
        Some(b) => Ok(b),
        None => Err(Status::NotSupported),
    }
}

/// Writes a file of the system-variable filesystem, unless its mount is read-only.
pub fn sysctlfs_write_regular(state: &mut VfsState, vnode: Handle, offset: u64, src: &[u8]) -> (r:
    Result<u64, Status>)
    ensures
        (final(state)@, r) == (if old(state)@.on_read_only_mount(vnode) {
            (old(state)@, Err(Status::ReadOnly))
        } else {
            old(state)@.leaf_written(vnode, offset, src@)
        }),
{
    let read_only: bool = match state.vnodes.get(vnode) {
        Some(vn) => match state.mounts.get(vn.mount.handle) {
            Some(mt) => mt.flags & MNT_RDONLY != 0,
            None => false,
        },
        None => false,
    };
    if read_only {
        return Err(Status::ReadOnly);
    }
    write_leaf(state, vnode, offset, src)
}

/// Vnode operations of the system-variable filesystem.
#[verifier::allow_in_spec]
pub fn sysctlfs_vops() -> (r: VnodeOps)
    returns
        (VnodeOps {
            read_regular: true,
            write_regular: true,
            supports_pager_backing: true,
            ..VnodeOps::empty()
        }),
{
    let mut ops = VnodeOps::empty();
    ops.read_regular = true;
    ops.write_regular = true;
    ops.supports_pager_backing = true;
    ops
}

/// Reading the host name gives back what was written last, on a line of its own and as far
/// as a read reaches.
pub proof fn law_host_name_reads_back(m: VfsModel, v: Handle, src: Seq<u8>, f: SysFacts)
    requires
        m.leaf_with_record(v) matches Some(p) && p.0.kind == SysctlLeafKind::KernHostname,
        m.sysctlfs_mounts.wf(),
    ensures
        m.leaf_written(v, 0, src).1 == Ok::<u64, Status>(src.len() as u64),
        m.leaf_written(v, 0, src).0.leaf_read(v, 0, LEAF_TEXT_MAX as int, f) == Some(
            prefix(stored_name(src) + seq![NEWLINE], LEAF_TEXT_MAX as int),
        ),
{
    let (l, d) = m.leaf_with_record(v)->0;
    let after = m.leaf_written(v, 0, src).0;
    let p = |h: Handle, d: SysctlMountView| d.owner_mount == l.owner_mount;
    m.sysctlfs_mounts.lemma_scan(p, 0);
    assert(after.sysctl_leaf_of(v) == m.sysctl_leaf_of(v));
    assert(after.sysctlfs_mounts.has(d));
    assert(after.sysctlfs_mounts.live.dom() =~= m.sysctlfs_mounts.live.dom());
    lemma_same_data(m, after, l.owner_mount, d, 0);
    assert(after.sysctl_data(l.owner_mount) == Some(d));
    let text = prefix(leaf_text(l.kind, after.sysctlfs_mounts.at(d), f), LEAF_TEXT_MAX as int);
    assert(part_of(text, 0, LEAF_TEXT_MAX as int) =~= text);
}

/// Reading the security level gives back the number that was written last; what is no
/// number changes nothing.
pub proof fn law_secure_level_reads_back(m: VfsModel, v: Handle, src: Seq<u8>, f: SysFacts)
    requires
        m.leaf_with_record(v) matches Some(p) && p.0.kind == SysctlLeafKind::SecuritySecurelevel,
        m.sysctlfs_mounts.wf(),
    ensures
        match signed_value(src) {
            Some(n) => m.leaf_written(v, 0, src).0.leaf_read(v, 0, LEAF_TEXT_MAX as int, f) == Some(
                prefix(signed_line(n as i32), LEAF_TEXT_MAX as int),
            ),
            None => m.leaf_written(v, 0, src) == (m, Err::<u64, Status>(Status::InvalidArgument)),
        },
{
    if signed_value(src) is Some {
        let (l, d) = m.leaf_with_record(v)->0;
        let after = m.leaf_written(v, 0, src).0;
        let p = |h: Handle, d: SysctlMountView| d.owner_mount == l.owner_mount;
        m.sysctlfs_mounts.lemma_scan(p, 0);
        assert(after.sysctl_leaf_of(v) == m.sysctl_leaf_of(v));
        assert(after.sysctlfs_mounts.has(d));
        assert(after.sysctlfs_mounts.live.dom() =~= m.sysctlfs_mounts.live.dom());
        lemma_same_data(m, after, l.owner_mount, d, 0);
        assert(after.sysctl_data(l.owner_mount) == Some(d));
        let text = prefix(leaf_text(l.kind, after.sysctlfs_mounts.at(d), f), LEAF_TEXT_MAX as int);
        assert(part_of(text, 0, LEAF_TEXT_MAX as int) =~= text);
    }
}

/// Changing the values of one record leaves which record belongs to which mount.
proof fn lemma_same_data(a: VfsModel, b: VfsModel, mount: Handle, d: Handle, i: int)
    requires
        0 <= i,
        a.sysctlfs_mounts.has(d),
        b.sysctlfs_mounts.epochs == a.sysctlfs_mounts.epochs,
        b.sysctlfs_mounts.live.dom() == a.sysctlfs_mounts.live.dom(),
        forall|h: Handle| #[trigger]
            a.sysctlfs_mounts.has(h) ==> b.sysctlfs_mounts.at(h).owner_mount
                == a.sysctlfs_mounts.at(h).owner_mount,
    ensures
        b.sysctlfs_mounts.scan(|h: Handle, d: SysctlMountView| d.owner_mount == mount, i)
            == a.sysctlfs_mounts.scan(|h: Handle, d: SysctlMountView| d.owner_mount == mount, i),
    decreases a.sysctlfs_mounts.epochs.len() - i,
{
    if i < a.sysctlfs_mounts.epochs.len() {
        lemma_same_data(a, b, mount, d, i + 1);
        assert(b.sysctlfs_mounts.handle_at(i) == a.sysctlfs_mounts.handle_at(i));
        let h = a.sysctlfs_mounts.handle_at(i);
        assert(b.sysctlfs_mounts.has(h) == a.sysctlfs_mounts.has(h));
    }
}

} // verus!
