//! The bootstrap tree: a flat list of names that the namespace starts from, and the
//! path walk over it.

use crate::arena::Handle;
use crate::bytes::{
    cut, law_same_name_is_equivalence, name_eq, push_bytes, same_name, SLASH,
};
use crate::files::PERS_WIN32;
use crate::identity::FsInstanceId;
use crate::mount::{MNT_POSIX_ONLY, MNT_WIN32_ONLY};
use crate::namei_state::{
    BOOTSTRAP_PATH_DEPTH_MAX, BOOTSTRAP_PATH_MAX, BOOTSTRAP_SYMLINK_DEPTH_MAX,
};
use crate::path::{
    component_end, compose_symlink_in, followed, is_absolute, leaf_position, leaf_start,
    lemma_leaf_position, lemma_scan_bounds, names_an_entry, past_component, past_slashes,
    skip_slashes,
};
use crate::state::{BootEntry, BootEntryView, VfsModel, VfsState, MM_PAGE_SIZE};
use crate::vnode::{dirent_type, Vnode, VnodeType, DT_UNKNOWN};
use vstd::prelude::*;
use vstd::slice::slice_to_vec;
use vstd::string::*;

verus! {

/// Names that the bootstrap tree has room for, removed ones counted.
pub const BOOTSTRAP_ENTRY_CAP: usize = 255;

/// Longest name in the bootstrap tree.
pub const BOOTSTRAP_NAME_MAX: usize = 64;

// ---- names -------------------------------------------------------------------------

/// The first name from `i` on that `parent` holds and that agrees with `name`.
pub open spec fn entry_index(
    es: Seq<BootEntryView>,
    parent: Handle,
    name: Seq<u8>,
    fold: bool,
    i: int,
) -> Option<int>
    decreases es.len() - i,
{
    if 0 <= i < es.len() {
        if es[i].active && es[i].parent == parent && same_name(es[i].name, name, fold) {
            Some(i)
        } else {
            entry_index(es, parent, name, fold, i + 1)
        }
    } else {
        None
    }
}

/// What `parent` holds under `name`.
pub open spec fn boot_child(
    es: Seq<BootEntryView>,
    parent: Handle,
    name: Seq<u8>,
    fold: bool,
) -> Option<Handle> {
    match entry_index(es, parent, name, fold, 0) {
        Some(i) => Some(es[i].vnode),
        None => None,
    }
}

/// The first name from `i` on for vnode `v`.
pub open spec fn name_of_vnode(es: Seq<BootEntryView>, v: Handle, i: int) -> Option<int>
    decreases es.len() - i,
{
    if 0 <= i < es.len() {
        if es[i].active && es[i].vnode == v {
            Some(i)
        } else {
            name_of_vnode(es, v, i + 1)
        }
    } else {
        None
    }
}

/// What the searches find lies in the list and fits.
pub proof fn lemma_entry_index(
    es: Seq<BootEntryView>,
    parent: Handle,
    name: Seq<u8>,
    fold: bool,
    i: int,
)
    requires
        0 <= i,
    ensures
        match entry_index(es, parent, name, fold, i) {
            Some(k) => i <= k < es.len() && es[k].active && es[k].parent == parent && same_name(
                es[k].name,
                name,
                fold,
            ),
            None => forall|k: int|
                i <= k < es.len() ==> !((#[trigger] es[k]).active && es[k].parent == parent
                    && same_name(es[k].name, name, fold)),
        },
    decreases es.len() - i,
{
    if i < es.len() {
        lemma_entry_index(es, parent, name, fold, i + 1);
    }
}

/// A name at the end of the list is found only where no earlier one fits.
proof fn lemma_entry_index_push(
    es: Seq<BootEntryView>,
    e: BootEntryView,
    parent: Handle,
    name: Seq<u8>,
    fold: bool,
    i: int,
)
    requires
        0 <= i <= es.len(),
    ensures
        entry_index(es.push(e), parent, name, fold, i) == match entry_index(
            es,
            parent,
            name,
            fold,
            i,
        ) {
            Some(k) => Some(k),
            None => if e.active && e.parent == parent && same_name(e.name, name, fold) {
                Some(es.len() as int)
            } else {
                None
            },
        },
    decreases es.len() - i,
{
    reveal_with_fuel(entry_index, 2);
    if i < es.len() {
        assert(es.push(e)[i] == es[i]);
        lemma_entry_index_push(es, e, parent, name, fold, i + 1);
    } else {
        assert(es.push(e)[i] == e);
    }
}

/// What the search for a vnode finds lies in the list and fits.
pub proof fn lemma_name_of_vnode(es: Seq<BootEntryView>, v: Handle, i: int)
    requires
        0 <= i,
    ensures
        match name_of_vnode(es, v, i) {
            Some(k) => i <= k < es.len() && es[k].active && es[k].vnode == v,
            None => forall|k: int|
                i <= k < es.len() ==> !((#[trigger] es[k]).active && es[k].vnode == v),
        },
    decreases es.len() - i,
{
    if i < es.len() {
        lemma_name_of_vnode(es, v, i + 1);
    }
}

/// A new name fits in the tree.
pub open spec fn name_fits(es: Seq<BootEntryView>, name: Seq<u8>) -> bool {
    name.len() <= BOOTSTRAP_NAME_MAX && es.len() < BOOTSTRAP_ENTRY_CAP
}

/// No name lies in directory `dir`.
pub open spec fn dir_empty(es: Seq<BootEntryView>, dir: Handle) -> bool {
    forall|i: int| 0 <= i < es.len() ==> !((#[trigger] es[i]).active && es[i].parent == dir)
}

impl VfsModel {
    /// The state with the name `name` for `vnode` in directory `parent`, if it fits.
    pub open spec fn named(self, parent: Handle, vnode: Handle, name: Seq<u8>) -> VfsModel {
        if name_fits(self.boot_entries, name) {
            VfsModel {
                boot_entries: self.boot_entries.push(
                    BootEntryView { active: true, parent, vnode, name },
                ),
                ..self
            }
        } else {
            self
        }
    }

    /// The state with the name at position `i` gone.
    pub open spec fn unnamed(self, i: int) -> VfsModel {
        VfsModel {
            boot_entries: self.boot_entries.update(i, BootEntryView::removed()),
            ..self
        }
    }

    /// The directory that holds `child`: that of its first name, or the root.
    pub open spec fn boot_parent(self, child: Handle) -> Handle {
        match name_of_vnode(self.boot_entries, child, 0) {
            Some(i) => self.boot_entries[i].parent,
            None => match self.root_vnode() {
                Some(r) => r,
                None => Handle::invalid(),
            },
        }
    }

    /// `v` is a directory that the namespace hangs on.
    pub open spec fn is_anchor(self, v: Handle) -> bool {
        ||| v == self.boot_dirs.etc_dir
        ||| v == self.boot_dirs.dev_dir
        ||| v == self.boot_dirs.proc_dir
        ||| v == self.boot_dirs.sys_dir
        ||| v == self.boot_dirs.tmp_dir
        ||| v == self.boot_dirs.pipe_dir
        ||| v == self.boot_dirs.initramfs_dir
        ||| v == self.boot_dirs.new_root_dir
        ||| v == self.boot_dirs.put_old_dir
        ||| v == (match self.root_vnode() {
            Some(r) => r,
            None => Handle::invalid(),
        })
    }

    /// Going up from `v` by at most `n` steps leads to `ancestor`.
    pub open spec fn leads_up_to(self, v: Handle, ancestor: Handle, n: nat) -> bool
        decreases n,
    {
        if !v.is_valid() {
            false
        } else if v == ancestor {
            true
        } else if n == 0 || self.boot_parent(v) == v {
            false
        } else {
            self.leads_up_to(self.boot_parent(v), ancestor, (n - 1) as nat)
        }
    }

    /// `v` lies in the tree below `ancestor` or is it. The tree has no deeper paths than
    /// it has names.
    pub open spec fn below(self, v: Handle, ancestor: Handle) -> bool {
        self.leads_up_to(v, ancestor, self.boot_entries.len() + 1)
    }
}

/// `path` with one more component behind it.
pub open spec fn extended(path: Seq<u8>, name: Seq<u8>) -> Seq<u8> {
    if path.len() > 1 {
        path + seq![SLASH] + name
    } else {
        path + name
    }
}

impl VfsModel {
    /// Path of `v` from the root of the namespace, in at most `n` components.
    pub open spec fn boot_path_within(self, v: Handle, n: nat) -> Option<Seq<u8>>
        decreases n,
    {
        if self.root_vnode() == Some(v) {
            Some(seq![SLASH])
        } else if n == 0 || !v.is_valid() {
            None
        } else {
            match name_of_vnode(self.boot_entries, v, 0) {
                Some(i) => match self.boot_path_within(
                    self.boot_entries[i].parent,
                    (n - 1) as nat,
                ) {
                    Some(p) => if extended(p, self.boot_entries[i].name).len()
                        <= BOOTSTRAP_PATH_MAX {
                        Some(extended(p, self.boot_entries[i].name))
                    } else {
                        None
                    },
                    None => None,
                },
                None => None,
            }
        }
    }

    /// Path of `v` from the root of the namespace.
    pub open spec fn boot_path(self, v: Handle) -> Option<Seq<u8>> {
        if self.root_vnode() is Some {
            self.boot_path_within(v, BOOTSTRAP_PATH_DEPTH_MAX as nat)
        } else {
            None
        }
    }
}

/// How a path is walked: whether a symlink at its end is followed, whether case counts,
/// and which mounts are passed by.
#[derive(Clone, Copy, PartialEq, Eq, Structural, Debug)]
pub struct WalkMode {
    pub follow: bool,
    pub fold: bool,
    pub skip_posix_only: bool,
    pub skip_win32_only: bool,
}

/// How clients of a personality walk paths.
#[verifier::allow_in_spec]
pub fn mode_for(personality: u8, follow: bool) -> (r: WalkMode)
    returns
        (WalkMode {
            follow,
            fold: personality == PERS_WIN32,
            skip_posix_only: personality == PERS_WIN32,
            skip_win32_only: personality != PERS_WIN32,
        }),
{
    WalkMode {
        follow,
        fold: personality == PERS_WIN32,
        skip_posix_only: personality == PERS_WIN32,
        skip_win32_only: personality != PERS_WIN32,
    }
}

/// How the service itself walks the bootstrap tree.
#[verifier::allow_in_spec]
pub fn service_mode() -> (r: WalkMode)
    returns
        (WalkMode { follow: true, fold: false, skip_posix_only: false, skip_win32_only: true }),
{
    WalkMode { follow: true, fold: false, skip_posix_only: false, skip_win32_only: true }
}

/// A walk passes by a mount with these flags.
#[verifier::allow_in_spec]
pub fn passes_by(flags: u32, mode: WalkMode) -> (r: bool)
    returns
        ((mode.skip_posix_only && flags & MNT_POSIX_ONLY != 0) || (mode.skip_win32_only && flags
            & MNT_WIN32_ONLY != 0)),
{
    (mode.skip_posix_only && flags & MNT_POSIX_ONLY != 0) || (mode.skip_win32_only && flags
        & MNT_WIN32_ONLY != 0)
}

impl VfsModel {
    /// The mount that sits on a vnode.
    pub open spec fn mount_on(self, vn: Vnode) -> Option<Handle> {
        if vn.covered_by.handle.is_valid() {
            Some(vn.covered_by.handle)
        } else {
            self.mount_of_instance(vn.covered_by.id)
        }
    }

    /// Where a walk that reached `v` stands: on the root of the mount that covers it,
    /// unless the walk passes that mount by.
    pub open spec fn crossed(self, v: Handle, mode: WalkMode) -> Option<Handle> {
        match self.vnodes.entry(v) {
            None => None,
            Some(vn) => if vn.covered_by.id == FsInstanceId::invalid() {
                Some(v)
            } else {
                match self.mount_on(vn) {
                    None => None,
                    Some(mh) => match self.mounts.entry(mh) {
                        None => None,
                        Some(mt) => if passes_by(mt.flags, mode) {
                            Some(v)
                        } else if self.vnodes.has(mt.root_vnode) {
                            Some(mt.root_vnode)
                        } else {
                            None
                        },
                    },
                }
            },
        }
    }

    /// The bytes that a link vnode stores: as many as its size says, zeros past the stored
    /// ones. `None` when nothing is stored or no path could hold them.
    pub open spec fn link_bytes(self, vn: Vnode) -> Option<Seq<u8>> {
        match self.blobs.entry(vn.data) {
            Some(b) => if vn.size <= BOOTSTRAP_PATH_MAX {
                Some(
                    Seq::new(
                        vn.size as nat,
                        |i: int|
                            if i < b.len() {
                                b[i]
                            } else {
                                0u8
                            },
                    ),
                )
            } else {
                None
            },
            None => None,
        }
    }

    /// The normal path that link `link` with target `target` leads to, with the unwalked
    /// rest of the path behind it.
    pub open spec fn link_leads_to(self, link: Handle, target: Seq<u8>, tail: Seq<u8>) -> Option<
        Seq<u8>,
    > {
        if is_absolute(target) {
            followed(Seq::empty(), target, tail)
        } else {
            match self.boot_path(self.boot_parent(link)) {
                Some(p) => followed(
                    if p.len() > 1 {
                        p + seq![SLASH]
                    } else {
                        p
                    },
                    target,
                    tail,
                ),
                None => None,
            }
        }
    }

    /// Where the walk over the bootstrap tree ends that stands on `cur` with the path
    /// walked up to `pos` after `depth` links.
    pub open spec fn boot_walk(
        self,
        path: Seq<u8>,
        pos: int,
        cur: Handle,
        depth: nat,
        mode: WalkMode,
    ) -> Option<Handle>
        decreases BOOTSTRAP_SYMLINK_DEPTH_MAX + 1 - depth, path.len() - pos,
    {
        if depth > BOOTSTRAP_SYMLINK_DEPTH_MAX {
            None
        } else if !(0 <= pos < path.len()) {
            Some(cur)
        } else {
            let end = past_component(path, pos);
            let next = past_slashes(path, end);
            proof {
                lemma_scan_bounds(path, pos);
                lemma_scan_bounds(path, end);
                if path[pos] == SLASH {
                    lemma_scan_bounds(path, pos + 1);
                } else {
                    lemma_scan_bounds(path, pos + 1);
                }
            }
            if end == pos {
                self.boot_walk(path, next, cur, depth, mode)
            } else {
                match boot_child(self.boot_entries, cur, path.subrange(pos, end), mode.fold) {
                    None => None,
                    Some(c) => match self.crossed(c, mode) {
                        None => None,
                        Some(v) => if self.vnodes.at(v).vtype != VnodeType::Lnk {
                            self.boot_walk(path, next, v, depth, mode)
                        } else if next >= path.len() && !mode.follow {
                            Some(v)
                        } else {
                            match self.link_bytes(self.vnodes.at(v)) {
                                None => None,
                                Some(t) => match self.link_leads_to(v, t, path.skip(next)) {
                                    None => None,
                                    Some(p) => self.boot_lookup(p, depth + 1, mode),
                                },
                            }
                        },
                    },
                }
            }
        }
    }

    /// What `path` names in the bootstrap tree, after `depth` links.
    pub open spec fn boot_lookup(self, path: Seq<u8>, depth: nat, mode: WalkMode) -> Option<Handle>
        decreases BOOTSTRAP_SYMLINK_DEPTH_MAX + 1 - depth, path.len() + 1,
    {
        if depth > BOOTSTRAP_SYMLINK_DEPTH_MAX {
            None
        } else {
            match self.root_vnode() {
                None => None,
                Some(root) => if path.len() == 0 || path == seq![SLASH] {
                    Some(root)
                } else {
                    proof {
                        lemma_scan_bounds(path, 0);
                    }
                    self.boot_walk(path, past_slashes(path, 0), root, depth, mode)
                },
            }
        }
    }

    /// What `path` names when the service itself looks it up.
    pub open spec fn boot_named(self, path: Seq<u8>) -> Option<Handle> {
        self.boot_lookup(path, 0, service_mode())
    }

    /// The directory in which `path` names an entry, and where the name starts.
    pub open spec fn boot_parent_of_path(self, path: Seq<u8>, mode: WalkMode) -> Option<
        (Handle, int),
    > {
        if !names_an_entry(path) {
            None
        } else {
            let leaf = leaf_position(path);
            let parent = if leaf == 1 {
                self.root_vnode()
            } else {
                self.boot_lookup(path.take(leaf - 1), 0, mode)
            };
            match parent {
                Some(p) => Some((p, leaf)),
                None => None,
            }
        }
    }
}

/// What `bytes` round up to in whole pages.
pub open spec fn page_rounded(bytes: int) -> int {
    ((bytes + MM_PAGE_SIZE - 1) / MM_PAGE_SIZE as int) * MM_PAGE_SIZE
}

/// Rounds up to whole pages.
pub fn page_align_up(bytes: u64) -> (r: u64)
    requires
        bytes <= u64::MAX - (MM_PAGE_SIZE - 1),
    ensures
        r == page_rounded(bytes as int),
{
    ((bytes + (MM_PAGE_SIZE - 1)) / MM_PAGE_SIZE) * MM_PAGE_SIZE
}

/// Rounding up to pages gives the least multiple of the page size that is not below.
pub proof fn law_page_rounding(bytes: int)
    requires
        0 <= bytes,
    ensures
        page_rounded(bytes) % (MM_PAGE_SIZE as int) == 0,
        bytes <= page_rounded(bytes) < bytes + MM_PAGE_SIZE,
        page_rounded(page_rounded(bytes)) == page_rounded(bytes),
{
}

impl VfsState {
    /// The entry list of the model is the list entry by entry.
    proof fn lemma_boot_entry(&self, i: int)
        requires
            0 <= i < self.boot_entries@.len(),
        ensures
            self@.boot_entries.len() == self.boot_entries@.len(),
            self@.boot_entries[i] == self.boot_entries@[i]@,
    {
    }

    /// Adds a name to the bootstrap tree; `false` when the name is too long or the tree is
    /// full.
    pub fn add_bootstrap_dir_entry(&mut self, parent: Handle, vnode: Handle, name: &[u8]) -> (r:
        bool)
        ensures
            r == name_fits(old(self)@.boot_entries, name@),
            final(self)@ == old(self)@.named(parent, vnode, name@),
    {
        if name.len() > BOOTSTRAP_NAME_MAX {
            return false;
        }
        if self.boot_entries.len() >= BOOTSTRAP_ENTRY_CAP {
            return false;
        }
        let ghost before = self@;
        self.boot_entries.push(
            BootEntry { active: true, parent, vnode, name: slice_to_vec(name) },
        );
        assert(self@.boot_entries =~= before.named(parent, vnode, name@).boot_entries);
        true
    }

    /// Position of the name that `parent` holds.
    pub fn bootstrap_entry_index_with_case(
        &self,
        parent: Handle,
        name: &[u8],
        ignore_case: bool,
    ) -> (r: Option<usize>)
        ensures
            match r {
                Some(i) => {
                    &&& entry_index(self@.boot_entries, parent, name@, ignore_case, 0) == Some(
                        i as int,
                    )
                    &&& i < self.boot_entries@.len()
                    &&& i < self@.boot_entries.len()
                },
                None => entry_index(self@.boot_entries, parent, name@, ignore_case, 0) is None,
            },
    {
        let mut i: usize = 0;
        while i < self.boot_entries.len()
            invariant
                i <= self.boot_entries@.len(),
                entry_index(self@.boot_entries, parent, name@, ignore_case, 0) == entry_index(
                    self@.boot_entries,
                    parent,
                    name@,
                    ignore_case,
                    i as int,
                ),
            decreases self.boot_entries@.len() - i,
        {
            proof {
                self.lemma_boot_entry(i as int);
            }
            let e = &self.boot_entries[i];
            if e.active && e.parent == parent && name_eq(e.name.as_slice(), name, ignore_case) {
                return Some(i);
            }
            i = i + 1;
        }
        None
    }

    /// Position of the name that `parent` holds, case counting.
    pub fn bootstrap_entry_index(&self, parent: Handle, name: &[u8]) -> (r: Option<usize>)
        ensures
            match r {
                Some(i) => {
                    &&& entry_index(self@.boot_entries, parent, name@, false, 0) == Some(i as int)
                    &&& i < self.boot_entries@.len()
                    &&& i < self@.boot_entries.len()
                },
                None => entry_index(self@.boot_entries, parent, name@, false, 0) is None,
            },
    {
        self.bootstrap_entry_index_with_case(parent, name, false)
    }

    /// What `parent` holds under `name`.
    pub fn bootstrap_lookup_child_with_case(
        &self,
        parent: Handle,
        name: &[u8],
        ignore_case: bool,
    ) -> (r: Option<Handle>)
        ensures
            r == boot_child(self@.boot_entries, parent, name@, ignore_case),
    {
        match self.bootstrap_entry_index_with_case(parent, name, ignore_case) {
            Some(i) => {
                proof {
                    self.lemma_boot_entry(i as int);
                }
                Some(self.boot_entries[i].vnode)
            },
            None => None,
        }
    }

    /// What `parent` holds under `name`, case counting.
    pub fn bootstrap_lookup_child(&self, parent: Handle, name: &[u8]) -> (r: Option<Handle>)
        ensures
            r == boot_child(self@.boot_entries, parent, name@, false),
    {
        self.bootstrap_lookup_child_with_case(parent, name, false)
    }

    /// Takes away the name at position `i`.
    pub fn clear_bootstrap_entry(&mut self, i: usize)
        requires
            i < old(self)@.boot_entries.len(),
        ensures
            final(self)@ == old(self)@.unnamed(i as int),
    {
        let ghost before = self@;
        self.boot_entries.set(
            i,
            BootEntry {
                active: false,
                parent: Handle::invalid(),
                vnode: Handle::invalid(),
                name: Vec::new(),
            },
        );
        assert(self@.boot_entries =~= before.unnamed(i as int).boot_entries);
    }

    /// Takes away a name, case counting, and says what it named.
    pub fn bootstrap_remove_entry(&mut self, parent: Handle, name: &[u8]) -> (r: Option<Handle>)
        ensures
            r == boot_child(old(self)@.boot_entries, parent, name@, false),
            final(self)@ == (match entry_index(
                old(self)@.boot_entries,
                parent,
                name@,
                false,
                0,
            ) {
                Some(i) => old(self)@.unnamed(i),
                None => old(self)@,
            }),
    {
        match self.bootstrap_entry_index(parent, name) {
            Some(i) => {
                proof {
                    self.lemma_boot_entry(i as int);
                }
                let vnode = self.boot_entries[i].vnode;
                self.clear_bootstrap_entry(i);
                Some(vnode)
            },
            None => None,
        }
    }

    /// Position of the first name of a vnode.
    fn entry_of_vnode(&self, v: Handle) -> (r: Option<usize>)
        ensures
            match r {
                Some(i) => name_of_vnode(self@.boot_entries, v, 0) == Some(i as int) && i
                    < self.boot_entries@.len(),
                None => name_of_vnode(self@.boot_entries, v, 0) is None,
            },
    {
        let mut i: usize = 0;
        while i < self.boot_entries.len()
            invariant
                i <= self.boot_entries@.len(),
                name_of_vnode(self@.boot_entries, v, 0) == name_of_vnode(
                    self@.boot_entries,
                    v,
                    i as int,
                ),
            decreases self.boot_entries@.len() - i,
        {
            proof {
                self.lemma_boot_entry(i as int);
            }
            if self.boot_entries[i].active && self.boot_entries[i].vnode == v {
                return Some(i);
            }
            i = i + 1;
        }
        None
    }

    /// The directory that holds a vnode.
    pub fn bootstrap_parent_dir(&self, child: Handle) -> (r: Handle)
        ensures
            r == self@.boot_parent(child),
    {
        match self.entry_of_vnode(child) {
            Some(i) => {
                proof {
                    self.lemma_boot_entry(i as int);
                }
                self.boot_entries[i].parent
            },
            None => match self.root_vnode() {
                Some(r) => r,
                None => Handle::invalid(),
            },
        }
    }

    /// Whether a directory of the bootstrap tree holds no name.
    pub fn bootstrap_dir_is_empty(&self, dir_vh: Handle) -> (r: bool)
        ensures
            r == dir_empty(self@.boot_entries, dir_vh),
    {
        let mut i: usize = 0;
        while i < self.boot_entries.len()
            invariant
                i <= self.boot_entries@.len(),
                forall|k: int|
                    0 <= k < i ==> !((#[trigger] self@.boot_entries[k]).active
                        && self@.boot_entries[k].parent == dir_vh),
            decreases self.boot_entries@.len() - i,
        {
            proof {
                self.lemma_boot_entry(i as int);
            }
            if self.boot_entries[i].active && self.boot_entries[i].parent == dir_vh {
                assert(self@.boot_entries[i as int].active);
                return false;
            }
            i = i + 1;
        }
        true
    }

    /// Whether a vnode is a directory that the namespace hangs on.
    pub fn bootstrap_is_anchor(&self, vnode: Handle) -> (r: bool)
        ensures
            r == self@.is_anchor(vnode),
    {
        let d = self.boot_dirs;
        let root = match self.root_vnode() {
            Some(r) => r,
            None => Handle::invalid(),
        };
        vnode == d.etc_dir || vnode == d.dev_dir || vnode == d.proc_dir || vnode == d.sys_dir
            || vnode == d.tmp_dir || vnode == d.pipe_dir || vnode == d.initramfs_dir || vnode
            == d.new_root_dir || vnode == d.put_old_dir || vnode == root
    }

    /// Whether a vnode is `ancestor` or lies in the tree below it.
    pub fn bootstrap_is_descendant_of(&self, vnode: Handle, ancestor: Handle) -> (r: bool)
        ensures
            r == self@.below(vnode, ancestor),
    {
        let mut v = vnode;
        let mut n: u128 = self.boot_entries.len() as u128 + 1;
        while v.is_valid()
            invariant
                self@.below(vnode, ancestor) == self@.leads_up_to(v, ancestor, n as nat),
            decreases n,
        {
            if v == ancestor {
                return true;
            }
            let parent = self.bootstrap_parent_dir(v);
            if n == 0 || parent == v {
                return false;
            }
            v = parent;
            n = n - 1;
        }
        false
    }
}

/// One entry of a directory listing: where to go on, and what the entry is.
pub struct DirItem {
    pub next_cursor: u64,
    pub name: Vec<u8>,
    pub ino: u64,
    pub d_type: u8,
}

/// A listing entry with its name as a sequence.
#[verifier::ext_equal]
pub struct DirItemView {
    pub next_cursor: u64,
    pub name: Seq<u8>,
    pub ino: u64,
    pub d_type: u8,
}

impl View for DirItem {
    type V = DirItemView;

    open spec fn view(&self) -> DirItemView {
        DirItemView {
            next_cursor: self.next_cursor,
            name: self.name@,
            ino: self.ino,
            d_type: self.d_type,
        }
    }
}

impl VfsModel {
    /// Entry type of a vnode in listings.
    pub open spec fn dtype_of(self, v: Handle) -> u8 {
        match self.vnodes.entry(v) {
            Some(vn) => dirent_type(vn.vtype),
            None => DT_UNKNOWN,
        }
    }

    /// Clients of the personality see `v` in listings: no mount for the other personality
    /// only sits on it.
    pub open spec fn visible(self, v: Handle, personality: u8) -> bool {
        match self.vnodes.entry(v) {
            None => false,
            Some(vn) => vn.covered_by.id == FsInstanceId::invalid() || (match self.mount_on(vn) {
                None => true,
                Some(mh) => match self.mounts.entry(mh) {
                    None => true,
                    Some(mt) => if personality == PERS_WIN32 {
                        mt.flags & MNT_POSIX_ONLY == 0
                    } else {
                        mt.flags & MNT_WIN32_ONLY == 0
                    },
                },
            }),
        }
    }

    /// The name at position `i` is listed in directory `dir`.
    pub open spec fn listed(self, dir: Handle, i: int, personality: u8) -> bool {
        &&& self.boot_entries[i].active
        &&& self.boot_entries[i].parent == dir
        &&& self.visible(self.boot_entries[i].vnode, personality)
    }

    /// Position of the name that is number `want` of those listed from position `i` on.
    pub open spec fn nth_listed(self, dir: Handle, personality: u8, want: int, i: int) -> Option<
        int,
    >
        decreases self.boot_entries.len() - i,
    {
        if 0 <= i < self.boot_entries.len() {
            if !self.listed(dir, i, personality) {
                self.nth_listed(dir, personality, want, i + 1)
            } else if want == 0 {
                Some(i)
            } else {
                self.nth_listed(dir, personality, want - 1, i + 1)
            }
        } else {
            None
        }
    }

    /// The entry of directory `dir` at `cursor`: itself, its parent, then its listed names.
    pub open spec fn boot_listing(self, dir: Handle, cursor: u64, personality: u8) -> Option<
        DirItemView,
    > {
        match self.vnodes.entry(dir) {
            None => None,
            Some(vn) => if cursor == 0 {
                Some(
                    DirItemView {
                        next_cursor: 1,
                        name: ".".spec_bytes(),
                        ino: vn.id,
                        d_type: self.dtype_of(dir),
                    },
                )
            } else if cursor == 1 {
                let parent = self.boot_parent(dir);
                Some(
                    DirItemView {
                        next_cursor: 2,
                        name: "..".spec_bytes(),
                        ino: match self.vnodes.entry(parent) {
                            Some(p) => p.id,
                            None => vn.id,
                        },
                        d_type: self.dtype_of(parent),
                    },
                )
            } else {
                match self.nth_listed(dir, personality, cursor - 2, 0) {
                    None => None,
                    Some(i) => Some(
                        DirItemView {
                            next_cursor: cursor.wrapping_add(1),
                            name: self.boot_entries[i].name,
                            ino: self.vnodes.at(self.boot_entries[i].vnode).id,
                            d_type: self.dtype_of(self.boot_entries[i].vnode),
                        },
                    ),
                }
            },
        }
    }
}

impl VfsState {
    fn build_path_within(&self, v: Handle, n: usize) -> (r: Option<Vec<u8>>)
        ensures
            match r {
                Some(p) => self@.boot_path_within(v, n as nat) == Some(p@) && p@.len()
                    <= BOOTSTRAP_PATH_MAX,
                None => self@.boot_path_within(v, n as nat) is None,
            },
        decreases n,
    {
        if let Some(root) = self.root_vnode() {
            if v == root {
                let mut p: Vec<u8> = Vec::new();
                p.push(SLASH);
                assert(p@ =~= seq![SLASH]);
                return Some(p);
            }
        }
        if n == 0 || !v.is_valid() {
            return None;
        }
        let i: usize = match self.entry_of_vnode(v) {
            Some(i) => i,
            None => {
                return None;
            },
        };
        proof {
            self.lemma_boot_entry(i as int);
        }
        let mut p: Vec<u8> = match self.build_path_within(self.boot_entries[i].parent, n - 1) {
            Some(p) => p,
            None => {
                return None;
            },
        };
        let ghost up = p@;
        if p.len() > 1 {
            p.push(SLASH);
        }
        if self.boot_entries[i].name.len() > BOOTSTRAP_PATH_MAX {
            return None;
        }
        push_bytes(&mut p, self.boot_entries[i].name.as_slice());
        assert(p@ =~= extended(up, self.boot_entries@[i as int].name@));
        if p.len() > BOOTSTRAP_PATH_MAX {
            return None;
        }
        Some(p)
    }

    /// Path of a vnode of the bootstrap tree.
    pub fn bootstrap_build_absolute_path(&self, vnode: Handle) -> (r: Option<Vec<u8>>)
        ensures
            match r {
                Some(p) => self@.boot_path(vnode) == Some(p@) && p@.len() <= BOOTSTRAP_PATH_MAX,
                None => self@.boot_path(vnode) is None,
            },
    {
        if self.root_vnode().is_none() {
            return None;
        }
        self.build_path_within(vnode, BOOTSTRAP_PATH_DEPTH_MAX)
    }

    /// The mount that sits on a vnode.
    pub fn mount_covering(&self, vn: &Vnode) -> (r: Option<Handle>)
        ensures
            r == self@.mount_on(*vn),
    {
        if vn.covered_by.handle.is_valid() {
            Some(vn.covered_by.handle)
        } else {
            self.mount_by_fs_instance_id(vn.covered_by.id)
        }
    }

    /// Where a walk that reached `v` stands.
    pub fn cross_mount(&self, v: Handle, mode: WalkMode) -> (r: Option<Handle>)
        ensures
            r == self@.crossed(v, mode),
            r matches Some(h) ==> self@.vnodes.has(h),
    {
        let vn: Vnode = match self.vnodes.get(v) {
            Some(vn) => *vn,
            None => {
                return None;
            },
        };
        if vn.covered_by.id == FsInstanceId::invalid() {
            return Some(v);
        }
        let mh = match self.mount_covering(&vn) {
            Some(mh) => mh,
            None => {
                return None;
            },
        };
        match self.mounts.get(mh) {
            None => None,
            Some(mt) => {
                if passes_by(mt.flags, mode) {
                    Some(v)
                } else if self.vnodes.contains(mt.root_vnode) {
                    Some(mt.root_vnode)
                } else {
                    None
                }
            },
        }
    }

    /// The bytes that a link vnode stores.
    pub fn read_link_bytes(&self, vn: &Vnode) -> (r: Option<Vec<u8>>)
        ensures
            match r {
                Some(t) => self@.link_bytes(*vn) == Some(t@),
                None => self@.link_bytes(*vn) is None,
            },
    {
        let blob = match self.blobs.get(vn.data) {
            Some(b) => b,
            None => {
                return None;
            },
        };
        if vn.size > BOOTSTRAP_PATH_MAX as u64 {
            return None;
        }
        let n: usize = vn.size as usize;
        let mut out: Vec<u8> = Vec::new();
        let ghost want = self@.link_bytes(*vn)->0;
        let mut i: usize = 0;
        while i < n
            invariant
                i <= n == want.len(),
                out@ == want.take(i as int),
                forall|k: int|
                    0 <= k < n ==> #[trigger] want[k] == (if k < blob@.len() {
                        blob@[k]
                    } else {
                        0u8
                    }),
            decreases n - i,
        {
            out.push(
                if i < blob.bytes.len() {
                    blob.bytes[i]
                } else {
                    0
                },
            );
            i = i + 1;
            assert(out@ =~= want.take(i as int));
        }
        assert(out@ =~= want);
        Some(out)
    }

    /// The normal path that a link of the bootstrap tree leads to.
    pub fn bootstrap_compose_symlink_path(&self, link: Handle, target: &[u8], tail: &[u8]) -> (r:
        Option<Vec<u8>>)
        ensures
            match r {
                Some(p) => self@.link_leads_to(link, target@, tail@) == Some(p@),
                None => self@.link_leads_to(link, target@, tail@) is None,
            },
    {
        if target.len() > 0 && target[0] == SLASH {
            let none: Vec<u8> = Vec::new();
            return compose_symlink_in(none.as_slice(), target, tail);
        }
        let parent = self.bootstrap_parent_dir(link);
        match self.bootstrap_build_absolute_path(parent) {
            Some(p) => compose_symlink_in(p.as_slice(), target, tail),
            None => None,
        }
    }

    /// What a path names in the bootstrap tree, after `depth` links.
    pub fn bootstrap_lookup_path_inner(&self, path: &[u8], depth: u8, mode: WalkMode) -> (r:
        Option<Handle>)
        ensures
            r == self@.boot_lookup(path@, depth as nat, mode),
        decreases BOOTSTRAP_SYMLINK_DEPTH_MAX + 1 - depth,
    {
        if depth > BOOTSTRAP_SYMLINK_DEPTH_MAX {
            return None;
        }
        let root = match self.root_vnode() {
            Some(r) => r,
            None => {
                return None;
            },
        };
        if path.len() == 0 {
            return Some(root);
        }
        if path.len() == 1 && path[0] == SLASH {
            assert(path@ =~= seq![SLASH]);
            return Some(root);
        }
        let mut current = root;
        let mut pos: usize = skip_slashes(path, 0);
        proof {
            lemma_scan_bounds(path@, 0);
        }
        while pos < path.len()
            invariant
                pos <= path@.len(),
                depth <= BOOTSTRAP_SYMLINK_DEPTH_MAX,
                self@.boot_lookup(path@, depth as nat, mode) == self@.boot_walk(
                    path@,
                    pos as int,
                    current,
                    depth as nat,
                    mode,
                ),
            decreases path@.len() - pos,
        {
            proof {
                lemma_scan_bounds(path@, pos as int);
                lemma_scan_bounds(path@, past_component(path@, pos as int));
                lemma_scan_bounds(path@, pos + 1);
            }
            let end: usize = component_end(path, pos);
            let next: usize = skip_slashes(path, end);
            if end == pos {
                pos = next;
                continue;
            }
            let child = match self.bootstrap_lookup_child_with_case(
                current,
                cut(path, pos, end),
                mode.fold,
            ) {
                Some(c) => c,
                None => {
                    return None;
                },
            };
            let v = match self.cross_mount(child, mode) {
                Some(v) => v,
                None => {
                    return None;
                },
            };
            let vn: Vnode = match self.vnodes.get(v) {
                Some(vn) => *vn,
                None => {
                    return None;
                },
            };
            if vn.vtype == VnodeType::Lnk {
                if next >= path.len() && !mode.follow {
                    return Some(v);
                }
                let target = match self.read_link_bytes(&vn) {
                    Some(t) => t,
                    None => {
                        return None;
                    },
                };
                let tail = cut(path, next, path.len());
                assert(tail@ =~= path@.skip(next as int));
                return match self.bootstrap_compose_symlink_path(v, target.as_slice(), tail) {
                    Some(p) => self.bootstrap_lookup_path_inner(p.as_slice(), depth + 1, mode),
                    None => None,
                };
            }
            current = v;
            pos = next;
        }
        Some(current)
    }

    /// What an absolute path names in the bootstrap tree.
    pub fn bootstrap_lookup_path(&self, path: &[u8]) -> (r: Option<Handle>)
        ensures
            r == self@.boot_named(path@),
    {
        self.bootstrap_lookup_path_inner(path, 0, service_mode())
    }

    /// What an absolute path names in the bootstrap tree for clients of a personality.
    pub fn bootstrap_lookup_path_for_personality(
        &self,
        path: &[u8],
        no_follow: bool,
        personality: u8,
    ) -> (r: Option<Handle>)
        ensures
            r == self@.boot_lookup(path@, 0, mode_for(personality, !no_follow)),
    {
        self.bootstrap_lookup_path_inner(path, 0, mode_for(personality, !no_follow))
    }

    fn lookup_parent_with(&self, path: &[u8], mode: WalkMode) -> (r: Option<(Handle, usize)>)
        ensures
            match r {
                Some(pl) => self@.boot_parent_of_path(path@, mode) == Some((pl.0, pl.1 as int))
                    && 1 <= pl.1 < path@.len(),
                None => self@.boot_parent_of_path(path@, mode) is None,
            },
    {
        if path.len() <= 1 || path[0] != SLASH {
            return None;
        }
        let leaf: usize = leaf_start(path);
        proof {
            lemma_leaf_position(path@);
        }
        if leaf >= path.len() {
            return None;
        }
        let parent = if leaf == 1 {
            self.root_vnode()
        } else {
            let dir = cut(path, 0, leaf - 1);
            assert(dir@ =~= path@.take(leaf - 1));
            self.bootstrap_lookup_path_inner(dir, 0, mode)
        };
        match parent {
            Some(p) => Some((p, leaf)),
            None => None,
        }
    }

    /// The directory in which a path names an entry, and where the name starts.
    pub fn bootstrap_lookup_parent_and_name(&self, path: &[u8]) -> (r: Option<(Handle, usize)>)
        ensures
            match r {
                Some(pl) => self@.boot_parent_of_path(path@, service_mode()) == Some(
                    (pl.0, pl.1 as int),
                ) && 1 <= pl.1 < path@.len(),
                None => self@.boot_parent_of_path(path@, service_mode()) is None,
            },
    {
        self.lookup_parent_with(path, service_mode())
    }

    /// The directory in which a path names an entry for clients of a personality, and where
    /// the name starts.
    pub fn bootstrap_lookup_parent_and_name_for_personality(&self, path: &[u8], personality: u8)
        -> (r: Option<(Handle, usize)>)
        ensures
            match r {
                Some(pl) => self@.boot_parent_of_path(path@, mode_for(personality, true)) == Some(
                    (pl.0, pl.1 as int),
                ) && 1 <= pl.1 < path@.len(),
                None => self@.boot_parent_of_path(path@, mode_for(personality, true)) is None,
            },
    {
        self.lookup_parent_with(path, mode_for(personality, true))
    }

    /// Entry type of a vnode in listings.
    pub fn bootstrap_dtype(&self, vnode: Handle) -> (r: u8)
        ensures
            r == self@.dtype_of(vnode),
    {
        match self.vnodes.get(vnode) {
            Some(vn) => dirent_type(vn.vtype),
            None => DT_UNKNOWN,
        }
    }

    /// Whether clients of a personality see a vnode in listings.
    pub fn bootstrap_entry_visible_for_personality(&self, vnode: Handle, personality: u8) -> (r:
        bool)
        ensures
            r == self@.visible(vnode, personality),
    {
        let vn: Vnode = match self.vnodes.get(vnode) {
            Some(vn) => *vn,
            None => {
                return false;
            },
        };
        if vn.covered_by.id == FsInstanceId::invalid() {
            return true;
        }
        let mh = match self.mount_covering(&vn) {
            Some(mh) => mh,
            None => {
                return true;
            },
        };
        match self.mounts.get(mh) {
            None => true,
            Some(mt) => if personality == PERS_WIN32 {
                mt.flags & MNT_POSIX_ONLY == 0
            } else {
                mt.flags & MNT_WIN32_ONLY == 0
            },
        }
    }

    /// The entry of a directory of the bootstrap tree at `cursor`, as clients of a
    /// personality see it.
    pub fn bootstrap_readdir_entry_for_personality(
        &self,
        dir_vh: Handle,
        cursor: u64,
        personality: u8,
    ) -> (r: Option<DirItem>)
        ensures
            match r {
                Some(e) => self@.boot_listing(dir_vh, cursor, personality) == Some(e@),
                None => self@.boot_listing(dir_vh, cursor, personality) is None,
            },
    {
        let own_id: u64 = match self.vnodes.get(dir_vh) {
            Some(vn) => vn.id,
            None => {
                return None;
            },
        };
        if cursor == 0 {
            return Some(
                DirItem {
                    next_cursor: 1,
                    name: slice_to_vec(".".as_bytes()),
                    ino: own_id,
                    d_type: self.bootstrap_dtype(dir_vh),
                },
            );
        }
        if cursor == 1 {
            let parent = self.bootstrap_parent_dir(dir_vh);
            let ino: u64 = match self.vnodes.get(parent) {
                Some(p) => p.id,
                None => own_id,
            };
            return Some(
                DirItem {
                    next_cursor: 2,
                    name: slice_to_vec("..".as_bytes()),
                    ino,
                    d_type: self.bootstrap_dtype(parent),
                },
            );
        }
        let mut want: u64 = cursor - 2;
        let mut i: usize = 0;
        while i < self.boot_entries.len()
            invariant
                i <= self.boot_entries@.len(),
                want <= cursor - 2,
                cursor >= 2,
                (cursor - 2) - want <= i,
                self@.nth_listed(dir_vh, personality, cursor - 2, 0) == self@.nth_listed(
                    dir_vh,
                    personality,
                    want as int,
                    i as int,
                ),
                self@.vnodes.has(dir_vh),
            decreases self.boot_entries@.len() - i,
        {
            proof {
                self.lemma_boot_entry(i as int);
            }
            let e = &self.boot_entries[i];
            if e.active && e.parent == dir_vh && self.bootstrap_entry_visible_for_personality(
                e.vnode,
                personality,
            ) {
                if want == 0 {
                    let ino: u64 = match self.vnodes.get(e.vnode) {
                        Some(c) => c.id,
                        None => {
                            return None;
                        },
                    };
                    return Some(
                        DirItem {
                            next_cursor: cursor.wrapping_add(1),
                            name: slice_to_vec(e.name.as_slice()),
                            ino,
                            d_type: self.bootstrap_dtype(e.vnode),
                        },
                    );
                }
                want = want - 1;
            }
            i = i + 1;
        }
        None
    }
}

/// No two names of one directory agree.
pub open spec fn names_apart(es: Seq<BootEntryView>, fold: bool) -> bool {
    forall|a: int, b: int|
        #![trigger es[a], es[b]]
        0 <= a < b < es.len() && es[a].active && es[b].active && es[a].parent == es[b].parent
            ==> !same_name(es[a].name, es[b].name, fold)
}

/// Where no two names agree, the one that fits is the one that is found.
pub proof fn lemma_only_entry(
    es: Seq<BootEntryView>,
    parent: Handle,
    name: Seq<u8>,
    fold: bool,
    k: int,
)
    requires
        names_apart(es, fold),
        0 <= k < es.len(),
        es[k].active,
        es[k].parent == parent,
        same_name(es[k].name, name, fold),
    ensures
        entry_index(es, parent, name, fold, 0) == Some(k),
{
    lemma_entry_index(es, parent, name, fold, 0);
    let i = entry_index(es, parent, name, fold, 0)->0;
    law_same_name_is_equivalence(es[i].name, name, es[k].name, fold);
    law_same_name_is_equivalence(es[k].name, name, es[i].name, fold);
}

/// Two lists of which each has the names of the other that fit find the same.
pub proof fn lemma_same_entry(
    es: Seq<BootEntryView>,
    fs: Seq<BootEntryView>,
    parent: Handle,
    name: Seq<u8>,
    fold: bool,
)
    requires
        es.len() == fs.len(),
        forall|k: int|
            #![trigger es[k]]
            #![trigger fs[k]]
            0 <= k < es.len() && ((es[k].active && es[k].parent == parent && same_name(
                es[k].name,
                name,
                fold,
            )) || (fs[k].active && fs[k].parent == parent && same_name(fs[k].name, name, fold)))
                ==> es[k] == fs[k],
    ensures
        boot_child(es, parent, name, fold) == boot_child(fs, parent, name, fold),
{
    lemma_same_entry_from(es, fs, parent, name, fold, 0);
    lemma_entry_index(es, parent, name, fold, 0);
}

proof fn lemma_same_entry_from(
    es: Seq<BootEntryView>,
    fs: Seq<BootEntryView>,
    parent: Handle,
    name: Seq<u8>,
    fold: bool,
    i: int,
)
    requires
        0 <= i <= es.len(),
        es.len() == fs.len(),
        forall|k: int|
            #![trigger es[k]]
            #![trigger fs[k]]
            0 <= k < es.len() && ((es[k].active && es[k].parent == parent && same_name(
                es[k].name,
                name,
                fold,
            )) || (fs[k].active && fs[k].parent == parent && same_name(fs[k].name, name, fold)))
                ==> es[k] == fs[k],
    ensures
        entry_index(es, parent, name, fold, i) == entry_index(fs, parent, name, fold, i),
    decreases es.len() - i,
{
    if i < es.len() {
        lemma_same_entry_from(es, fs, parent, name, fold, i + 1);
    }
}

/// A name that was added is found, and every name that was found before still names what it
/// named. Names that were apart stay so.
pub proof fn law_added_name_is_found(
    m: VfsModel,
    parent: Handle,
    v: Handle,
    name: Seq<u8>,
    fold: bool,
    other_parent: Handle,
    other: Seq<u8>,
)
    requires
        name_fits(m.boot_entries, name),
        boot_child(m.boot_entries, parent, name, fold) is None,
    ensures
        boot_child(m.named(parent, v, name).boot_entries, parent, name, fold) == Some(v),
        boot_child(m.boot_entries, other_parent, other, fold) is Some ==> boot_child(
            m.named(parent, v, name).boot_entries,
            other_parent,
            other,
            fold,
        ) == boot_child(m.boot_entries, other_parent, other, fold),
        names_apart(m.boot_entries, fold) ==> names_apart(
            m.named(parent, v, name).boot_entries,
            fold,
        ),
{
    let e = BootEntryView { active: true, parent, vnode: v, name };
    assert(m.named(parent, v, name).boot_entries == m.boot_entries.push(e));
    law_same_name_is_equivalence(name, name, name, fold);
    lemma_entry_index_push(m.boot_entries, e, parent, name, fold, 0);
    lemma_entry_index_push(m.boot_entries, e, other_parent, other, fold, 0);
    lemma_entry_index(m.boot_entries, other_parent, other, fold, 0);
    lemma_entry_index(m.boot_entries, parent, name, fold, 0);
}

} // verus!
