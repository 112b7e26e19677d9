//! The in-memory filesystem.
//!
//! Directories hold their names newest first. Regular files sit in memory objects that
//! other servers map, so the storage of a file outlives its last name and its last open
//! descriptor for as long as a mapping holds it.

use crate::arena::{Handle, Table};
use crate::bootstrap::page_rounded;
use crate::bytes::{
    all_digits, bytes_eq, key_value, number, parse_decimal, parsed, pieces, split_bytes, split_kv,
    COMMA,
};
use crate::fs::records::{TmpNodeView, TmpfsMountData, TmpfsNode};
use crate::mount::{MountView, VfsOps, VnodeOps, MNT_CASEFOLD, MNT_NOATIME, MNT_RDONLY};
use crate::state::{Effect, VfsModel, VfsState, MM_PAGE_SIZE};
use crate::status::Status;
use crate::vnode::{Backend, Vnode, VnodeType};
use vstd::prelude::*;
use vstd::slice::slice_subrange;
use vstd::string::*;

verus! {

/// Longest name.
pub const TMPFS_NAME_MAX: usize = 255;

/// Longest symlink target.
pub const TMPFS_SYMLINK_MAX: usize = 1024;

/// Flags that a remount may change.
pub const TMPFS_REMOUNT_FLAG_MASK: u32 = MNT_CASEFOLD | MNT_NOATIME | MNT_RDONLY;

/// A mount of this filesystem.
#[verifier::allow_in_spec]
pub fn mount_is_tmpfs(backend: Backend) -> (r: bool)
    returns
        backend == Backend::Tmpfs,
{
    backend == Backend::Tmpfs
}

/// Mount operations of this filesystem.
#[verifier::allow_in_spec]
pub fn tmpfs_vfsops() -> (r: VfsOps)
    returns
        (VfsOps {
            statfs: true,
            sync: false,
            remount: true,
            resolve_backing: true,
            reclaim_vnode: true,
        }),
{
    VfsOps { statfs: true, sync: false, remount: true, resolve_backing: true, reclaim_vnode: true }
}

/// Vnode operations of this filesystem: all but a statement on paging.
#[verifier::allow_in_spec]
pub fn tmpfs_vops() -> (r: VnodeOps)
    returns
        (VnodeOps {
            lookup_child: true,
            build_path: true,
            ensure_symlink_target: true,
            readlink_inline: true,
            read_regular: true,
            write_regular: true,
            create_regular_child: true,
            mkdir_child: true,
            symlink_child: true,
            remove_child: true,
            rename_child: true,
            link_vnode_into: true,
            set_mode: true,
            set_owner: true,
            set_times: true,
            truncate: true,
            validate_open_regular: true,
            readdir_dir: true,
            supports_pager_backing: false,
        }),
{
    VnodeOps {
        lookup_child: true,
        build_path: true,
        ensure_symlink_target: true,
        readlink_inline: true,
        read_regular: true,
        write_regular: true,
        create_regular_child: true,
        mkdir_child: true,
        symlink_child: true,
        remove_child: true,
        rename_child: true,
        link_vnode_into: true,
        set_mode: true,
        set_owner: true,
        set_times: true,
        truncate: true,
        validate_open_regular: true,
        readdir_dir: true,
        supports_pager_backing: false,
    }
}

// ---- mount options -----------------------------------------------------------------

/// Factor that a size suffix stands for, or one.
pub open spec fn suffix_factor(b: u8) -> nat {
    if b == 0x6b || b == 0x4b {
        1024
    } else if b == 0x6d || b == 0x4d {
        1024 * 1024
    } else if b == 0x67 || b == 0x47 {
        1024 * 1024 * 1024
    } else {
        1
    }
}

/// The size that a text states: digits with an optional `k`, `m` or `g` behind them.
pub open spec fn stated_size(value: Seq<u8>) -> Option<nat> {
    if value.len() == 0 {
        None
    } else {
        let f = suffix_factor(value.last());
        let digits = if f == 1 {
            value
        } else {
            value.drop_last()
        };
        if all_digits(digits) && number(digits) * f <= u64::MAX {
            Some(number(digits) * f)
        } else {
            None
        }
    }
}

/// Reads a size with an optional suffix.
pub fn parse_size_with_suffix(value: &[u8]) -> (r: Option<u64>)
    ensures
        match r {
            Some(n) => stated_size(value@) == Some(n as nat),
            None => stated_size(value@) is None,
        },
{
    if value.len() == 0 {
        return None;
    }
    let last: u8 = value[value.len() - 1];
    let factor: u64 = if last == 0x6b || last == 0x4b {
        1024
    } else if last == 0x6d || last == 0x4d {
        1024 * 1024
    } else if last == 0x67 || last == 0x47 {
        1024 * 1024 * 1024
    } else {
        1
    };
    let n: usize = if factor == 1 {
        value.len()
    } else {
        value.len() - 1
    };
    let digits = slice_subrange(value, 0, n);
    proof {
        if factor == 1 {
            assert(digits@ =~= value@);
        } else {
            assert(digits@ =~= value@.drop_last());
        }
    }
    if n == 0 {
        proof {
            let k = number(digits@);
            let f = suffix_factor(value@.last());
            assert(k == 0);
            assert(k * f == 0) by (nonlinear_arith)
                requires
                    k == 0,
            ;
        }
        return Some(0);
    }
    match parse_decimal(digits) {
        Some(v) => {
            proof {
                let a = v as int;
                let f = factor as int;
                assert(a * f <= u64::MAX ==> v as nat * factor as nat == a * f) by (nonlinear_arith)
                    requires
                        a == v,
                        f == factor,
                ;
            }
            v.checked_mul(factor)
        },
        None => {
            proof {
                if all_digits(digits@) {
                    assert(number(digits@) > u64::MAX);
                    let k = number(digits@);
                    let f = factor as nat;
                    assert(k * f >= k) by (nonlinear_arith)
                        requires
                            f >= 1,
                    ;
                }
            }
            None
        },
    }
}

/// What mount options ask for; what they do not mention is `None`.
#[derive(Clone, Copy, PartialEq, Eq, Structural, Debug)]
pub struct ParsedTmpfsOpts {
    pub max_bytes: Option<u64>,
    pub max_inodes: Option<u64>,
    pub casefold: Option<bool>,
}

/// The options with one more token taken into account. Unknown tokens and values that
/// cannot be read change nothing.
pub open spec fn opts_with(p: ParsedTmpfsOpts, token: Seq<u8>) -> ParsedTmpfsOpts {
    if token == "nocase".spec_bytes() || token == "casefold".spec_bytes() {
        ParsedTmpfsOpts { casefold: Some(true), ..p }
    } else {
        match key_value(token) {
            None => p,
            Some((key, value)) => if key == "size".spec_bytes() {
                match stated_size(value) {
                    Some(v) => if page_rounded(v as int) <= u64::MAX {
                        ParsedTmpfsOpts { max_bytes: Some(page_rounded(v as int) as u64), ..p }
                    } else {
                        p
                    },
                    None => p,
                }
            } else if key == "nr_inodes".spec_bytes() {
                match parsed(value, u64::MAX as nat) {
                    Some(v) => ParsedTmpfsOpts { max_inodes: Some(v as u64), ..p },
                    None => p,
                }
            } else {
                p
            },
        }
    }
}

/// What a list of tokens asks for.
pub open spec fn opts_of(tokens: Seq<Seq<u8>>) -> ParsedTmpfsOpts
    decreases tokens.len(),
{
    if tokens.len() == 0 {
        ParsedTmpfsOpts { max_bytes: None, max_inodes: None, casefold: None }
    } else {
        opts_with(opts_of(tokens.drop_last()), tokens.last())
    }
}

/// What a text of comma-separated options asks for.
pub open spec fn stated_opts(opts: Seq<u8>) -> ParsedTmpfsOpts {
    opts_of(pieces(opts, COMMA))
}

/// Reads mount options.
pub fn parse_mount_opts(opts: &[u8]) -> (r: ParsedTmpfsOpts)
    ensures
        r == stated_opts(opts@),
{
    let tokens: Vec<Vec<u8>> = split_bytes(opts, COMMA);
    let ghost all = pieces(opts@, COMMA);
    let mut p = ParsedTmpfsOpts { max_bytes: None, max_inodes: None, casefold: None };
    let mut i: usize = 0;
    assert(all.take(0) =~= Seq::<Seq<u8>>::empty());
    while i < tokens.len()
        invariant
            i <= tokens@.len(),
            tokens@.len() == all.len(),
            forall|k: int| 0 <= k < all.len() ==> (#[trigger] tokens@[k])@ == all[k],
            p == opts_of(all.take(i as int)),
        decreases tokens@.len() - i,
    {
        let token = tokens[i].as_slice();
        proof {
            assert(all.take(i + 1).drop_last() =~= all.take(i as int));
            assert(all.take(i + 1).last() == all[i as int]);
            assert(token@ == all[i as int]);
        }
        if bytes_eq(token, "nocase".as_bytes()) || bytes_eq(token, "casefold".as_bytes()) {
            p.casefold = Some(true);
        } else if let Some((key, value)) = split_kv(token) {
            if bytes_eq(key, "size".as_bytes()) {
                if let Some(v) = parse_size_with_suffix(value) {
                    if v <= u64::MAX - (MM_PAGE_SIZE - 1) {
                        p.max_bytes = Some(crate::bootstrap::page_align_up(v));
                    }
                }
            } else if bytes_eq(key, "nr_inodes".as_bytes()) {
                if let Some(v) = parse_decimal(value) {
                    p.max_inodes = Some(v);
                }
            }
        }
        i = i + 1;
    }
    assert(all.take(i as int) =~= all);
    p
}

// ---- records and limits ------------------------------------------------------------

/// A sum that stops at the largest value.
pub open spec fn capped_sum(a: u64, b: u64) -> u64 {
    if a + b <= u64::MAX {
        (a + b) as u64
    } else {
        u64::MAX
    }
}

/// A difference that stops at zero.
pub open spec fn floored_diff(a: u64, b: u64) -> u64 {
    if a >= b {
        (a - b) as u64
    } else {
        0
    }
}

impl VfsModel {
    /// The record of mount `mount`.
    pub open spec fn tmp_data(self, mount: Handle) -> Option<Handle> {
        self.tmpfs_mounts.first(|h: Handle, d: TmpfsMountData| d.owner_mount == mount)
    }

    /// The state with the record under `h` replaced.
    pub open spec fn with_tmp_data(self, h: Handle, d: TmpfsMountData) -> VfsModel {
        VfsModel { tmpfs_mounts: self.tmpfs_mounts.put(h, d), ..self }
    }

    /// The state with node `h` replaced.
    pub open spec fn with_tmp_node(self, h: Handle, n: TmpNodeView) -> VfsModel {
        VfsModel { tmpfs_nodes: self.tmpfs_nodes.put(h, n), ..self }
    }

    /// The node of vnode `v`.
    pub open spec fn tmp_node_of(self, v: Handle) -> Option<Handle> {
        match self.vnodes.entry(v) {
            None => None,
            Some(vn) => if vn.backend_ref.is_valid() && self.tmpfs_nodes.has(vn.backend_ref)
                && self.tmpfs_nodes.at(vn.backend_ref).vnode == v {
                Some(vn.backend_ref)
            } else {
                None
            },
        }
    }

    /// Vnode `v` belongs to this filesystem.
    pub open spec fn on_tmpfs(self, v: Handle) -> bool {
        self.vnodes.has(v) && self.vnodes.at(v).backend == Backend::Tmpfs
    }

    /// The mount of vnode `v`.
    pub open spec fn mount_of(self, v: Handle) -> Handle {
        match self.vnodes.entry(v) {
            Some(vn) => vn.mount.handle,
            None => Handle::invalid(),
        }
    }

    /// Flags of a mount, none where there is no such mount.
    pub open spec fn flags_of(self, mount: Handle) -> u32 {
        match self.mounts.entry(mount) {
            Some(mt) => mt.flags,
            None => 0,
        }
    }

    /// Names on the mount are compared without regard to case.
    pub open spec fn folds(self, mount: Handle) -> bool {
        self.mounts.has(mount) && self.mounts.at(mount).flags & MNT_CASEFOLD != 0
    }

    /// The mount of vnode `v` may not be changed.
    pub open spec fn read_only(self, v: Handle) -> bool {
        let mount = self.mount_of(v);
        self.mounts.has(mount) && self.mounts.at(mount).flags & MNT_RDONLY != 0
    }

    /// The inode number that a new node on the mount gets.
    pub open spec fn fresh_inode(self, mount: Handle) -> Option<u64> {
        match self.tmp_data(mount) {
            Some(h) => Some(self.tmpfs_mounts.at(h).next_inode),
            None => None,
        }
    }

    /// The state after an inode number was taken. After the last one numbering starts over
    /// behind the root's.
    pub open spec fn inode_numbered(self, mount: Handle) -> VfsModel {
        match self.tmp_data(mount) {
            Some(h) => {
                let d = self.tmpfs_mounts.at(h);
                self.with_tmp_data(
                    h,
                    TmpfsMountData {
                        next_inode: if d.next_inode < u64::MAX {
                            (d.next_inode + 1) as u64
                        } else {
                            2
                        },
                        ..d
                    },
                )
            },
            None => self,
        }
    }

    /// Why one more node may not be made on the mount.
    pub open spec fn inode_refused(self, mount: Handle) -> Option<Status> {
        match self.tmp_data(mount) {
            None => Some(Status::InvalidOperation),
            Some(h) => {
                let d = self.tmpfs_mounts.at(h);
                if d.max_inodes != 0 && d.used_inodes >= d.max_inodes {
                    Some(Status::NoSpace)
                } else {
                    None
                }
            },
        }
    }

    /// The state with one more node charged to the mount.
    pub open spec fn inode_charged(self, mount: Handle) -> VfsModel {
        match self.tmp_data(mount) {
            Some(h) => {
                let d = self.tmpfs_mounts.at(h);
                self.with_tmp_data(
                    h,
                    TmpfsMountData { used_inodes: capped_sum(d.used_inodes, 1), ..d },
                )
            },
            None => self,
        }
    }

    /// The state with one node less charged to the mount.
    pub open spec fn inode_credited(self, mount: Handle) -> VfsModel {
        match self.tmp_data(mount) {
            Some(h) => {
                let d = self.tmpfs_mounts.at(h);
                self.with_tmp_data(
                    h,
                    TmpfsMountData { used_inodes: floored_diff(d.used_inodes, 1), ..d },
                )
            },
            None => self,
        }
    }

    /// Why `delta` more bytes may not be used on the mount.
    pub open spec fn bytes_refused(self, mount: Handle, delta: u64) -> Option<Status> {
        if delta == 0 {
            None
        } else {
            match self.tmp_data(mount) {
                None => Some(Status::InvalidOperation),
                Some(h) => {
                    let d = self.tmpfs_mounts.at(h);
                    if d.max_bytes != 0 && capped_sum(d.accounted_bytes, delta) > d.max_bytes {
                        Some(Status::NoSpace)
                    } else {
                        None
                    }
                },
            }
        }
    }

    /// The state with `delta` more bytes charged to the mount.
    pub open spec fn bytes_charged(self, mount: Handle, delta: u64) -> VfsModel {
        if delta == 0 {
            self
        } else {
            match self.tmp_data(mount) {
                Some(h) => {
                    let d = self.tmpfs_mounts.at(h);
                    self.with_tmp_data(
                        h,
                        TmpfsMountData {
                            accounted_bytes: capped_sum(d.accounted_bytes, delta),
                            ..d
                        },
                    )
                },
                None => self,
            }
        }
    }

    /// The state with `bytes` fewer bytes charged to the mount.
    pub open spec fn bytes_credited(self, mount: Handle, bytes: u64) -> VfsModel {
        if bytes == 0 {
            self
        } else {
            match self.tmp_data(mount) {
                Some(h) => {
                    let d = self.tmpfs_mounts.at(h);
                    self.with_tmp_data(
                        h,
                        TmpfsMountData {
                            accounted_bytes: floored_diff(d.accounted_bytes, bytes),
                            ..d
                        },
                    )
                },
                None => self,
            }
        }
    }

    /// The state with the storage of node `h` given back: the memory object is freed and
    /// its bytes are no longer charged.
    pub open spec fn storage_released(self, h: Handle) -> VfsModel {
        match self.tmpfs_nodes.entry(h) {
            None => self,
            Some(n) => {
                let told = if n.mo_cap != 0 {
                    self.telling(Effect::MoFree { cap: n.mo_cap, handle: n.mo_handle })
                } else {
                    self
                };
                told.bytes_credited(n.owner_mount, n.mo_capacity).with_tmp_node(
                    h,
                    TmpNodeView {
                        mo_cap: 0,
                        mo_handle: 0,
                        mo_capacity: 0,
                        size: 0,
                        content: Seq::empty(),
                        ..n
                    },
                )
            },
        }
    }

    /// The state without node `h`: its storage and its link target are gone too.
    pub open spec fn tmp_node_dropped(self, h: Handle) -> VfsModel {
        match self.tmpfs_nodes.entry(h) {
            None => self,
            Some(n) => {
                let s = self.storage_released(h);
                VfsModel {
                    tmpfs_symlinks: if n.symlink.is_valid() {
                        s.tmpfs_symlinks.dropped(n.symlink)
                    } else {
                        s.tmpfs_symlinks
                    },
                    tmpfs_nodes: s.tmpfs_nodes.dropped(h),
                    ..s
                }
            },
        }
    }

    /// The state after the in-memory filesystem let go of vnode `v`. While mappings hold
    /// the storage, only the tie between node and vnode is cut and the rest waits for the
    /// last mapping.
    pub open spec fn tmp_reclaimed(self, v: Handle) -> VfsModel {
        match self.tmp_node_of(v) {
            None => self,
            Some(h) => {
                let n = self.tmpfs_nodes.at(h);
                let loose = Vnode { backend_ref: Handle::invalid(), ..self.vnodes.at(v) };
                if n.mmap_export_refs > 0 {
                    self.with_tmp_node(
                        h,
                        TmpNodeView {
                            pending_release: true,
                            vnode: Handle::invalid(),
                            ..n
                        },
                    ).with_vnode(v, loose)
                } else if self.on_tmpfs(v) {
                    self.tmp_node_dropped(h).with_vnode(v, loose).inode_credited(n.owner_mount)
                } else {
                    self
                }
            },
        }
    }

    /// The node that mappings know as inode `ino` of instance `fs_id`.
    pub open spec fn tmp_node_of_inode(self, fs_id: u64, ino: u64) -> Option<Handle> {
        self.tmpfs_nodes.first(inode_is(self.mounts, fs_id, ino))
    }
}

/// Which node has number `ino` on a mount of instance `fs_id`.
pub open spec fn inode_is(mounts: Table<MountView>, fs_id: u64, ino: u64) -> spec_fn(
    Handle,
    TmpNodeView,
) -> bool {
    |h: Handle, n: TmpNodeView|
        (match mounts.entry(n.owner_mount) {
            Some(mt) => mt.fs_instance_id.0,
            None => u64::MAX,
        }) == fs_id && n.mmap_id == ino
}

/// Finds the record of a mount.
pub fn find_mount_data_handle(state: &VfsState, owner_mount: Handle) -> (r: Option<Handle>)
    ensures
        r == state@.tmp_data(owner_mount),
        r matches Some(h) ==> state@.tmpfs_mounts.has(h) && state@.tmpfs_mounts.at(h).owner_mount
            == owner_mount,
{
    state.tmpfs_mounts.find(
        |h: Handle, d: &TmpfsMountData| -> (b: bool) ensures b == (d@.owner_mount == owner_mount) { d.owner_mount == owner_mount },
        Ghost(|h: Handle, d: TmpfsMountData| d.owner_mount == owner_mount),
    )
}

/// Finds the node of a vnode.
pub fn find_node_handle_by_vnode(state: &VfsState, vnode: Handle) -> (r: Option<Handle>)
    ensures
        r == state@.tmp_node_of(vnode),
        r matches Some(h) ==> state@.tmpfs_nodes.has(h),
{
    let h = match state.vnodes.get(vnode) {
        Some(vn) => vn.backend_ref,
        None => {
            return None;
        },
    };
    if !h.is_valid() {
        return None;
    }
    match state.tmpfs_nodes.get(h) {
        Some(n) => if n.vnode == vnode {
            Some(h)
        } else {
            None
        },
        None => None,
    }
}

/// Whether a vnode belongs to this filesystem.
pub fn vnode_is_tmpfs(state: &VfsState, vnode: Handle) -> (r: bool)
    ensures
        r == state@.on_tmpfs(vnode),
{
    match state.vnodes.get(vnode) {
        Some(vn) => vn.backend == Backend::Tmpfs,
        None => false,
    }
}

/// The mount of a vnode.
pub fn mount_of_vnode(state: &VfsState, vnode: Handle) -> (r: Handle)
    ensures
        r == state@.mount_of(vnode),
{
    match state.vnodes.get(vnode) {
        Some(vn) => vn.mount.handle,
        None => Handle::invalid(),
    }
}

/// Whether names on a mount are compared without regard to case.
pub fn casefold_for_mount(state: &VfsState, mount: Handle) -> (r: bool)
    ensures
        r == state@.folds(mount),
{
    match state.mounts.get(mount) {
        Some(mt) => mt.flags & MNT_CASEFOLD != 0,
        None => false,
    }
}

/// Refuses changes on a read-only mount.
pub fn ensure_writable(state: &VfsState, vnode: Handle) -> (r: Result<(), Status>)
    ensures
        r == (if state@.read_only(vnode) {
            Err(Status::ReadOnly)
        } else {
            Ok(())
        }),
{
    let mount = mount_of_vnode(state, vnode);
    match state.mounts.get(mount) {
        Some(mt) => if mt.flags & MNT_RDONLY != 0 {
            Err(Status::ReadOnly)
        } else {
            Ok(())
        },
        None => Ok(()),
    }
}

/// Takes the next inode number of a mount.
pub fn alloc_inode(state: &mut VfsState, owner_mount: Handle) -> (r: Option<u64>)
    ensures
        r == old(state)@.fresh_inode(owner_mount),
        final(state)@ == old(state)@.inode_numbered(owner_mount),
{
    let h = match find_mount_data_handle(state, owner_mount) {
        Some(h) => h,
        None => {
            return None;
        },
    };
    match state.tmpfs_mounts.get_mut(h) {
        Some(d) => {
            let inode: u64 = d.next_inode;
            d.next_inode = if inode < u64::MAX {
                inode + 1
            } else {
                2
            };
            Some(inode)
        },
        None => None,
    }
}

/// Charges one more node to a mount.
pub fn try_account_inode(state: &mut VfsState, mount: Handle) -> (r: Result<(), Status>)
    ensures
        match old(state)@.inode_refused(mount) {
            Some(e) => r == Err::<(), Status>(e) && final(state)@ == old(state)@,
            None => r == Ok::<(), Status>(()) && final(state)@ == old(state)@.inode_charged(mount),
        },
{
    let h = match find_mount_data_handle(state, mount) {
        Some(h) => h,
        None => {
            return Err(Status::InvalidOperation);
        },
    };
    match state.tmpfs_mounts.get_mut(h) {
        Some(d) => {
            if d.max_inodes != 0 && d.used_inodes >= d.max_inodes {
                return Err(Status::NoSpace);
            }
            d.used_inodes = d.used_inodes.saturating_add(1);
            Ok(())
        },
        None => Err(Status::InvalidOperation),
    }
}

/// Takes one node off what a mount is charged with.
pub fn release_inode_account(state: &mut VfsState, mount: Handle)
    ensures
        final(state)@ == old(state)@.inode_credited(mount),
{
    if let Some(h) = find_mount_data_handle(state, mount) {
        if let Some(d) = state.tmpfs_mounts.get_mut(h) {
            d.used_inodes = d.used_inodes.saturating_sub(1);
        }
    }
}

/// Charges more bytes to a mount.
pub fn try_account_bytes(state: &mut VfsState, mount: Handle, delta: u64) -> (r: Result<
    (),
    Status,
>)
    ensures
        match old(state)@.bytes_refused(mount, delta) {
            Some(e) => r == Err::<(), Status>(e) && final(state)@ == old(state)@,
            None => r == Ok::<(), Status>(()) && final(state)@ == old(state)@.bytes_charged(
                mount,
                delta,
            ),
        },
{
    if delta == 0 {
        return Ok(());
    }
    let h = match find_mount_data_handle(state, mount) {
        Some(h) => h,
        None => {
            return Err(Status::InvalidOperation);
        },
    };
    match state.tmpfs_mounts.get_mut(h) {
        Some(d) => {
            if d.max_bytes != 0 && d.accounted_bytes.saturating_add(delta) > d.max_bytes {
                return Err(Status::NoSpace);
            }
            d.accounted_bytes = d.accounted_bytes.saturating_add(delta);
            Ok(())
        },
        None => Err(Status::InvalidOperation),
    }
}

/// Takes bytes off what a mount is charged with.
pub fn release_bytes_account(state: &mut VfsState, mount: Handle, bytes: u64)
    ensures
        final(state)@ == old(state)@.bytes_credited(mount, bytes),
{
    if bytes == 0 {
        return;
    }
    if let Some(h) = find_mount_data_handle(state, mount) {
        if let Some(d) = state.tmpfs_mounts.get_mut(h) {
            d.accounted_bytes = d.accounted_bytes.saturating_sub(bytes);
        }
    }
}

/// Gives the storage of a node back.
pub fn release_node_storage(state: &mut VfsState, node_h: Handle)
    ensures
        final(state)@ == old(state)@.storage_released(node_h),
{
    let (mount, cap, handle, capacity) = match state.tmpfs_nodes.get(node_h) {
        Some(n) => (n.owner_mount, n.mo_cap, n.mo_handle, n.mo_capacity),
        None => {
            return;
        },
    };
    if cap != 0 {
        state.outbox.push(Effect::MoFree { cap, handle });
    }
    release_bytes_account(state, mount, capacity);
    if let Some(n) = state.tmpfs_nodes.get_mut(node_h) {
        n.mo_cap = 0;
        n.mo_handle = 0;
        n.mo_capacity = 0;
        n.size = 0;
        n.content = Vec::new();
        assert(n.content@ =~= Seq::<u8>::empty());
    }
}

fn drop_node(state: &mut VfsState, node_h: Handle)
    ensures
        final(state)@ == old(state)@.tmp_node_dropped(node_h),
{
    let symlink = match state.tmpfs_nodes.get(node_h) {
        Some(n) => n.symlink,
        None => {
            return;
        },
    };
    release_node_storage(state, node_h);
    if symlink.is_valid() {
        let _ = state.tmpfs_symlinks.release(symlink);
    }
    let _ = state.tmpfs_nodes.release(node_h);
}

/// Tears down the node of a vnode that nothing refers to any more: its memory object, its
/// share of the limits and its link target.
pub fn release_node_for_vnode(state: &mut VfsState, vnode: Handle)
    ensures
        final(state)@ == (match old(state)@.tmp_node_of(vnode) {
            Some(h) => if old(state)@.on_tmpfs(vnode) {
                old(state)@.tmp_node_dropped(h).with_vnode(
                    vnode,
                    Vnode { backend_ref: Handle::invalid(), ..old(state)@.vnodes.at(vnode) },
                ).inode_credited(old(state)@.tmpfs_nodes.at(h).owner_mount)
            } else {
                old(state)@
            },
            None => old(state)@,
        }),
{
    if !vnode_is_tmpfs(state, vnode) {
        return;
    }
    let node_h = match find_node_handle_by_vnode(state, vnode) {
        Some(h) => h,
        None => {
            return;
        },
    };
    let mount = match state.tmpfs_nodes.get(node_h) {
        Some(n) => n.owner_mount,
        None => {
            return;
        },
    };
    drop_node(state, node_h);
    if let Some(vn) = state.vnodes.get_mut(vnode) {
        vn.backend_ref = Handle::invalid();
    }
    release_inode_account(state, mount);
}

/// Lets go of a vnode that nothing but a mapping may still refer to.
pub fn tmpfs_reclaim_vnode(state: &mut VfsState, vnode: Handle)
    ensures
        final(state)@ == old(state)@.tmp_reclaimed(vnode),
{
    let node_h = match find_node_handle_by_vnode(state, vnode) {
        Some(h) => h,
        None => {
            return;
        },
    };
    let exported: u32 = match state.tmpfs_nodes.get(node_h) {
        Some(n) => n.mmap_export_refs,
        None => 0,
    };
    if exported > 0 {
        if let Some(n) = state.tmpfs_nodes.get_mut(node_h) {
            n.pending_release = true;
            n.vnode = Handle::invalid();
        }
        if let Some(vn) = state.vnodes.get_mut(vnode) {
            vn.backend_ref = Handle::invalid();
        }
        return;
    }
    release_node_for_vnode(state, vnode);
}

/// Finds the node that mappings know by instance and inode number.
pub fn find_node_by_fs_inode(state: &VfsState, fs_id: u64, ino: u64) -> (r: Option<Handle>)
    ensures
        r == state@.tmp_node_of_inode(fs_id, ino),
        r matches Some(h) ==> state@.tmpfs_nodes.has(h),
{
    let mounts = &state.mounts;
    state.tmpfs_nodes.find(
        |h: Handle, n: &TmpfsNode| -> (b: bool) ensures b == ((match mounts@.entry(n@.owner_mount) { Some(mt) => mt.fs_instance_id.0, None => u64::MAX }) == fs_id && n@.mmap_id == ino) {
            let id: u64 = match mounts.get(n.owner_mount) {
                Some(mt) => mt.fs_instance_id.0,
                None => u64::MAX,
            };
            id == fs_id && n.mmap_id == ino
        },
        Ghost(inode_is(state@.mounts, fs_id, ino)),
    )
}

// ---- memory objects ----------------------------------------------------------------

/// Largest file: above it the size in whole powers of two of pages cannot be stated.
pub const TMPFS_FILE_MAX: u64 = 0x8000_0000_0000_0000;

/// Largest page count of a memory object that can be stated in bytes.
pub const MO_PAGES_MAX: u64 = 0x000f_ffff_ffff_ffff;

/// The least power of two that is not below `pages`, of those from `p` on.
pub open spec fn doubled_to(p: nat, pages: nat) -> nat
    decreases
            if p < pages {
                pages - p
            } else {
                0
            },
    when p >= 1
{
    if p >= pages {
        p
    } else {
        doubled_to(2 * p, pages)
    }
}

/// Rounds a page count up to a power of two.
pub fn pow2_pages(pages: u64) -> (r: u64)
    requires
        pages <= 0x8000_0000_0000_0000,
    ensures
        r == doubled_to(1, pages as nat),
        pages <= r,
        r == 1 || r / 2 < pages,
{
    let mut p: u64 = 1;
    let ghost mut k: nat = 0;
    proof {
        vstd::arithmetic::power2::lemma2_to64();
        vstd::arithmetic::power2::lemma2_to64_rest();
    }
    while p < pages
        invariant
            pages <= 0x8000_0000_0000_0000,
            1 <= p <= 0x8000_0000_0000_0000,
            k <= 63,
            p == vstd::arithmetic::power2::pow2(k),
            p == 1 || p / 2 < pages,
            vstd::arithmetic::power2::pow2(63) == 0x8000_0000_0000_0000,
            doubled_to(1, pages as nat) == doubled_to(p as nat, pages as nat),
        decreases 0x8000_0000_0000_0000 - p,
    {
        proof {
            if k >= 63 {
                assert(false);
            }
            vstd::arithmetic::power2::lemma_pow2_unfold((k + 1) as nat);
            if k + 1 < 63 {
                vstd::arithmetic::power2::lemma_pow2_strictly_increases((k + 1) as nat, 63);
            }
            k = k + 1;
        }
        p = p * 2;
    }
    p
}

/// Page counts grow in powers of two: the result is one, no smaller one would do.
pub proof fn law_page_counts_are_powers_of_two(pages: nat, k: nat)
    ensures
        exists|j: nat| doubled_to(1, pages) == #[trigger] vstd::arithmetic::power2::pow2(j),
        doubled_to(1, pages) >= pages,
        vstd::arithmetic::power2::pow2(k) >= pages ==> doubled_to(1, pages)
            <= vstd::arithmetic::power2::pow2(k),
{
    vstd::arithmetic::power2::lemma2_to64();
        vstd::arithmetic::power2::lemma2_to64_rest();
    lemma_doubling(0, pages, k);
}

proof fn lemma_doubling(i: nat, pages: nat, k: nat)
    ensures
        exists|j: nat|
            doubled_to(vstd::arithmetic::power2::pow2(i), pages)
                == #[trigger] vstd::arithmetic::power2::pow2(j),
        doubled_to(vstd::arithmetic::power2::pow2(i), pages) >= pages,
        k >= i && vstd::arithmetic::power2::pow2(k) >= pages ==> doubled_to(
            vstd::arithmetic::power2::pow2(i),
            pages,
        ) <= vstd::arithmetic::power2::pow2(k),
    decreases
            if vstd::arithmetic::power2::pow2(i) < pages {
                pages - vstd::arithmetic::power2::pow2(i)
            } else {
                0
            },
{
    let p = vstd::arithmetic::power2::pow2(i);
    vstd::arithmetic::power2::lemma_pow2_pos(i);
    if p >= pages {
        if k > i {
            vstd::arithmetic::power2::lemma_pow2_strictly_increases(i, k);
        }
    } else {
        vstd::arithmetic::power2::lemma_pow2_unfold((i + 1) as nat);
        lemma_doubling((i + 1) as nat, pages, k);
    }
}

/// Bytes of the memory object that holds at least `needed` bytes.
pub open spec fn object_bytes(needed: u64) -> int {
    let want = page_rounded(
        if needed >= MM_PAGE_SIZE {
            needed as int
        } else {
            MM_PAGE_SIZE as int
        },
    );
    doubled_to(1, (want / MM_PAGE_SIZE as int) as nat) * MM_PAGE_SIZE
}

/// Bytes in whole pages that `needed` bytes take, one page at least.
pub open spec fn page_bytes(needed: u64) -> int {
    page_rounded(
        if needed >= MM_PAGE_SIZE {
            needed as int
        } else {
            MM_PAGE_SIZE as int
        },
    )
}

/// What must be asked of the memory server before a node holds so many bytes.
#[derive(Clone, Copy, PartialEq, Eq, Structural, Debug)]
pub enum MoRequest {
    /// A new object.
    Make { pages: u64 },
    /// More pages for the object the node has.
    Resize { cap: u64, old_pages: u64, new_pages: u64 },
}

/// What came of the request to the memory server.
#[derive(Clone, Copy, PartialEq, Eq, Structural, Debug)]
pub enum MoOutcome {
    /// The object is there and mapped; for a new one, what it is and how many pages it got.
    Granted { cap: u64, handle: u64, pages: u64 },
    Refused { err: Status },
    /// The object is there and could not be mapped; for a new one, what it is.
    Unmapped { cap: u64, handle: u64, err: Status },
}

impl VfsModel {
    /// The memory object of node `h` must grow for `needed` bytes.
    pub open spec fn must_grow(self, h: Handle, needed: u64) -> bool {
        self.tmpfs_nodes.has(h) && page_bytes(needed) > self.tmpfs_nodes.at(h).mo_capacity
    }

    /// Bytes that node `h` is charged in addition when it grows for `needed` bytes.
    pub open spec fn growth(self, h: Handle, needed: u64) -> u64 {
        (object_bytes(needed) - self.tmpfs_nodes.at(h).mo_capacity) as u64
    }

    /// Why node `h` cannot hold `needed` bytes.
    pub open spec fn growth_refused(self, h: Handle, needed: u64, outcome: MoOutcome) -> Option<
        Status,
    > {
        if !self.tmpfs_nodes.has(h) {
            Some(Status::InvalidOperation)
        } else if !self.must_grow(h, needed) {
            None
        } else {
            match self.bytes_refused(self.tmpfs_nodes.at(h).owner_mount, self.growth(h, needed)) {
                Some(e) => Some(e),
                None => match outcome {
                    MoOutcome::Refused { err } => Some(err),
                    MoOutcome::Unmapped { err, .. } => Some(err),
                    MoOutcome::Granted { .. } => None,
                },
            }
        }
    }

    /// What undoes a request for node `h` whose object could not be mapped: a new object is
    /// given back, and one that has grown gets the size that it had.
    pub open spec fn undoing(self, h: Handle, needed: u64, cap: u64, handle: u64) -> Effect {
        let n = self.tmpfs_nodes.at(h);
        if n.mo_cap == 0 {
            Effect::MoFree { cap, handle }
        } else {
            Effect::MoResize {
                cap: n.mo_cap,
                old_pages: (object_bytes(needed) / (MM_PAGE_SIZE as int)) as u64,
                new_pages: n.mo_capacity / MM_PAGE_SIZE,
            }
        }
    }

    /// The state after node `h` was made to hold `needed` bytes. What was charged for a
    /// request that failed is taken off again.
    pub open spec fn grown_for(self, h: Handle, needed: u64, outcome: MoOutcome) -> VfsModel {
        if !self.must_grow(h, needed) {
            self
        } else {
            let n = self.tmpfs_nodes.at(h);
            let delta = self.growth(h, needed);
            if self.bytes_refused(n.owner_mount, delta) is Some {
                self
            } else {
                let charged = self.bytes_charged(n.owner_mount, delta);
                match outcome {
                    MoOutcome::Refused { .. } => charged.bytes_credited(n.owner_mount, delta),
                    MoOutcome::Unmapped { cap, handle, .. } => charged.bytes_credited(
                        n.owner_mount,
                        delta,
                    ).telling(self.undoing(h, needed, cap, handle)),
                    MoOutcome::Granted { cap, handle, pages } => charged.with_tmp_node(
                        h,
                        if n.mo_cap == 0 {
                            TmpNodeView {
                                mo_cap: cap,
                                mo_handle: handle,
                                mo_capacity: (pages * MM_PAGE_SIZE) as u64,
                                ..n
                            }
                        } else {
                            TmpNodeView { mo_capacity: object_bytes(needed) as u64, ..n }
                        },
                    ),
                }
            }
        }
    }
}

pub(crate) proof fn lemma_object_bytes(needed: u64)
    requires
        needed <= TMPFS_FILE_MAX,
    ensures
        page_bytes(needed) <= object_bytes(needed) <= TMPFS_FILE_MAX,
        page_bytes(needed) % (MM_PAGE_SIZE as int) == 0,
        1 <= page_bytes(needed) / (MM_PAGE_SIZE as int) <= 0x8_0000_0000_0000,
        needed <= page_bytes(needed),
{
    let pages = (page_bytes(needed) / (MM_PAGE_SIZE as int)) as nat;
    vstd::arithmetic::power2::lemma2_to64();
        vstd::arithmetic::power2::lemma2_to64_rest();
    law_page_counts_are_powers_of_two(pages, 51);
}

/// Why a mount cannot be charged more bytes.
pub fn refused_bytes(state: &VfsState, mount: Handle, delta: u64) -> (r: Option<Status>)
    ensures
        r == state@.bytes_refused(mount, delta),
{
    if delta == 0 {
        return None;
    }
    let h = match find_mount_data_handle(state, mount) {
        Some(h) => h,
        None => {
            return Some(Status::InvalidOperation);
        },
    };
    match state.tmpfs_mounts.get(h) {
        Some(d) => if d.max_bytes != 0 && d.accounted_bytes.saturating_add(delta) > d.max_bytes {
            Some(Status::NoSpace)
        } else {
            None
        },
        None => Some(Status::InvalidOperation),
    }
}

/// What must be asked of the memory server before a node can hold `needed` bytes, if
/// anything: nothing is asked where the limits of the mount forbid it.
pub fn mo_request(state: &VfsState, node_h: Handle, needed: u64) -> (r: Option<MoRequest>)
    requires
        needed <= TMPFS_FILE_MAX,
    ensures
        r == (if state@.must_grow(node_h, needed) && state@.bytes_refused(
            state@.tmpfs_nodes.at(node_h).owner_mount,
            state@.growth(node_h, needed),
        ) is None {
            let n = state@.tmpfs_nodes.at(node_h);
            let pages = (object_bytes(needed) / (MM_PAGE_SIZE as int)) as u64;
            Some(
                if n.mo_cap == 0 {
                    MoRequest::Make { pages }
                } else {
                    MoRequest::Resize {
                        cap: n.mo_cap,
                        old_pages: n.mo_capacity / MM_PAGE_SIZE,
                        new_pages: pages,
                    }
                },
            )
        } else {
            None
        }),
{
    let (mount, cap, capacity) = match state.tmpfs_nodes.get(node_h) {
        Some(n) => (n.owner_mount, n.mo_cap, n.mo_capacity),
        None => {
            return None;
        },
    };
    proof {
        lemma_object_bytes(needed);
    }
    let least: u64 = if needed >= MM_PAGE_SIZE {
        needed
    } else {
        MM_PAGE_SIZE
    };
    let target: u64 = crate::bootstrap::page_align_up(least);
    if target <= capacity {
        return None;
    }
    let pages: u64 = pow2_pages(target / MM_PAGE_SIZE);
    let delta: u64 = pages * MM_PAGE_SIZE - capacity;
    assert(delta == state@.growth(node_h, needed));
    if refused_bytes(state, mount, delta).is_some() {
        return None;
    }
    if cap == 0 {
        Some(MoRequest::Make { pages })
    } else {
        Some(MoRequest::Resize { cap, old_pages: capacity / MM_PAGE_SIZE, new_pages: pages })
    }
}

/// Makes a node hold at least `needed` bytes, given what came of the request to the memory
/// server. The outcome counts only where the node must grow and the limits allow it.
pub fn ensure_mo_capacity(
    state: &mut VfsState,
    node_h: Handle,
    needed: u64,
    outcome: MoOutcome,
) -> (r: Result<(), Status>)
    requires
        needed <= TMPFS_FILE_MAX,
        outcome matches MoOutcome::Granted { pages, .. } ==> pages <= MO_PAGES_MAX,
    ensures
        r == (match old(state)@.growth_refused(node_h, needed, outcome) {
            Some(e) => Err(e),
            None => Ok(()),
        }),
        final(state)@ == old(state)@.grown_for(node_h, needed, outcome),
{
    let (mount, old_cap, capacity) = match state.tmpfs_nodes.get(node_h) {
        Some(n) => (n.owner_mount, n.mo_cap, n.mo_capacity),
        None => {
            return Err(Status::InvalidOperation);
        },
    };
    proof {
        lemma_object_bytes(needed);
    }
    let least: u64 = if needed >= MM_PAGE_SIZE {
        needed
    } else {
        MM_PAGE_SIZE
    };
    let target: u64 = crate::bootstrap::page_align_up(least);
    if target <= capacity {
        return Ok(());
    }
    let target_pages: u64 = pow2_pages(target / MM_PAGE_SIZE);
    let new_capacity: u64 = target_pages * MM_PAGE_SIZE;
    let delta: u64 = new_capacity - capacity;
    assert(delta == state@.growth(node_h, needed));
    match try_account_bytes(state, mount, delta) {
        Ok(_) => {},
        Err(e) => {
            return Err(e);
        },
    }
    match outcome {
        MoOutcome::Refused { err } => {
            release_bytes_account(state, mount, delta);
            Err(err)
        },
        MoOutcome::Unmapped { cap, handle, err } => {
            release_bytes_account(state, mount, delta);
            if old_cap == 0 {
                state.tell(Effect::MoFree { cap, handle });
            } else {
                state.tell(
                    Effect::MoResize {
                        cap: old_cap,
                        old_pages: target_pages,
                        new_pages: capacity / MM_PAGE_SIZE,
                    },
                );
            }
            Err(err)
        },
        MoOutcome::Granted { cap, handle, pages } => {
            if let Some(n) = state.tmpfs_nodes.get_mut(node_h) {
                if old_cap == 0 {
                    n.mo_cap = cap;
                    n.mo_handle = handle;
                    n.mo_capacity = pages * MM_PAGE_SIZE;
                } else {
                    n.mo_capacity = new_capacity;
                }
            }
            Ok(())
        },
    }
}

/// Hands the memory object of a regular file to a mapping: a file without one gets a page
/// first, and the mapping is counted so that the storage outlives the file.
pub fn tmpfs_resolve_backing(state: &mut VfsState, vnode: Handle, outcome: MoOutcome) -> (r: Result<
    u64,
    Status,
>)
    requires
        outcome matches MoOutcome::Granted { pages, .. } ==> pages <= MO_PAGES_MAX,
    ensures
        match old(state)@.tmp_node_of(vnode) {
            None => r == Err::<u64, Status>(Status::NotFound) && final(state)@ == old(state)@,
            Some(h) => {
                let n = old(state)@.tmpfs_nodes.at(h);
                if n.kind != VnodeType::Reg {
                    r == Err::<u64, Status>(Status::InvalidOperation) && final(state)@ == old(
                        state,
                    )@
                } else {
                    let s = if n.mo_capacity == 0 {
                        old(state)@.grown_for(h, MM_PAGE_SIZE, outcome)
                    } else {
                        old(state)@
                    };
                    if n.mo_capacity == 0 && old(state)@.growth_refused(
                        h,
                        MM_PAGE_SIZE,
                        outcome,
                    ) is Some {
                        r == Err::<u64, Status>(
                            old(state)@.growth_refused(h, MM_PAGE_SIZE, outcome)->0,
                        ) && final(state)@ == s
                    } else if s.tmpfs_nodes.at(h).mo_cap == 0 {
                        r == Err::<u64, Status>(Status::InvalidOperation) && final(state)@ == s
                    } else {
                        let g = s.tmpfs_nodes.at(h);
                        &&& r == Ok::<u64, Status>(g.mo_cap)
                        &&& final(state)@ == s.with_tmp_node(
                            h,
                            TmpNodeView {
                                mmap_export_refs: if g.mmap_export_refs < u32::MAX {
                                    (g.mmap_export_refs + 1) as u32
                                } else {
                                    u32::MAX
                                },
                                ..g
                            },
                        )
                    }
                }
            },
        },
{
    let node_h = match find_node_handle_by_vnode(state, vnode) {
        Some(h) => h,
        None => {
            return Err(Status::NotFound);
        },
    };
    let (kind, capacity) = match state.tmpfs_nodes.get(node_h) {
        Some(n) => (n.kind, n.mo_capacity),
        None => {
            return Err(Status::InvalidOperation);
        },
    };
    if kind != VnodeType::Reg {
        return Err(Status::InvalidOperation);
    }
    if capacity == 0 {
        match ensure_mo_capacity(state, node_h, MM_PAGE_SIZE, outcome) {
            Ok(_) => {},
            Err(e) => {
                return Err(e);
            },
        }
    }
    match state.tmpfs_nodes.get_mut(node_h) {
        Some(n) => {
            if n.mo_cap == 0 {
                return Err(Status::InvalidOperation);
            }
            n.mmap_export_refs = n.mmap_export_refs.saturating_add(1);
            Ok(n.mo_cap)
        },
        None => Err(Status::InvalidOperation),
    }
}

impl VfsModel {
    /// The state with `delta` more mappings of a file counted, and whether there is such a
    /// file.
    pub open spec fn export_counted(self, fs_id: u64, ino: u64, delta: u64) -> (VfsModel, Status) {
        match self.tmp_node_of_inode(fs_id, ino) {
            None => (self, Status::NotFound),
            Some(h) => {
                let n = self.tmpfs_nodes.at(h);
                (
                    self.with_tmp_node(
                        h,
                        TmpNodeView {
                            mmap_export_refs: if n.mmap_export_refs + delta <= u32::MAX {
                                (n.mmap_export_refs + delta) as u32
                            } else {
                                u32::MAX
                            },
                            ..n
                        },
                    ),
                    Status::Success,
                )
            },
        }
    }

    /// The state with one mapping less of a file counted, and whether there was one. The
    /// storage of a file whose vnode is gone goes with its last mapping.
    pub open spec fn export_released(self, fs_id: u64, ino: u64) -> (VfsModel, Status) {
        match self.tmp_node_of_inode(fs_id, ino) {
            None => (self, Status::NotFound),
            Some(h) => {
                let n = self.tmpfs_nodes.at(h);
                if n.mmap_export_refs == 0 {
                    (self, Status::InvalidOperation)
                } else {
                    let s = self.with_tmp_node(
                        h,
                        TmpNodeView { mmap_export_refs: (n.mmap_export_refs - 1) as u32, ..n },
                    );
                    (
                        if n.mmap_export_refs == 1 && n.pending_release {
                            s.tmp_node_dropped(h).inode_credited(n.owner_mount)
                        } else {
                            s
                        },
                        Status::Success,
                    )
                }
            },
        }
    }
}

/// Counts `delta` more mappings of a file.
pub fn acquire_export_ref(state: &mut VfsState, fs_id: u64, ino: u64, delta: u64) -> (r: Status)
    ensures
        (final(state)@, r) == old(state)@.export_counted(fs_id, ino, delta),
{
    let node_h = match find_node_by_fs_inode(state, fs_id, ino) {
        Some(h) => h,
        None => {
            return Status::NotFound;
        },
    };
    if let Some(n) = state.tmpfs_nodes.get_mut(node_h) {
        let bump: u32 = if delta <= u32::MAX as u64 {
            delta as u32
        } else {
            u32::MAX
        };
        n.mmap_export_refs = n.mmap_export_refs.saturating_add(bump);
    }
    Status::Success
}

/// Counts one mapping less of a file. When it was the last of a file whose vnode is gone,
/// the storage goes too.
pub fn release_export_ref(state: &mut VfsState, fs_id: u64, ino: u64) -> (r: Status)
    ensures
        (final(state)@, r) == old(state)@.export_released(fs_id, ino),
{
    let node_h = match find_node_by_fs_inode(state, fs_id, ino) {
        Some(h) => h,
        None => {
            return Status::NotFound;
        },
    };
    let pending: bool = match state.tmpfs_nodes.get_mut(node_h) {
        Some(n) => {
            if n.mmap_export_refs == 0 {
                return Status::InvalidOperation;
            }
            n.mmap_export_refs = n.mmap_export_refs - 1;
            n.mmap_export_refs == 0 && n.pending_release
        },
        None => {
            return Status::NotFound;
        },
    };
    if pending {
        finalize_pending_release(state, node_h);
    }
    Status::Success
}

/// Drops a node that only mappings kept.
pub fn finalize_pending_release(state: &mut VfsState, node_h: Handle)
    ensures
        final(state)@ == (match old(state)@.tmpfs_nodes.entry(node_h) {
            Some(n) => old(state)@.tmp_node_dropped(node_h).inode_credited(n.owner_mount),
            None => old(state)@,
        }),
{
    let mount = match state.tmpfs_nodes.get(node_h) {
        Some(n) => n.owner_mount,
        None => {
            return;
        },
    };
    drop_node(state, node_h);
    release_inode_account(state, mount);
}

} // verus!
