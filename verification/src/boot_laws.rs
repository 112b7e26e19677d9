//! What holds of the bootstrap tree whatever is asked of it.

use crate::arena::{Handle, Table};
use crate::bootstrap::{
    boot_child, entry_index, law_added_name_is_found, lemma_entry_index, WalkMode,
    BOOTSTRAP_ENTRY_CAP, BOOTSTRAP_NAME_MAX,
};
use crate::bytes::{law_same_name_is_equivalence, DOT, SLASH};
use crate::files::PERS_WIN32;
use crate::mount::{MNT_POSIX_ONLY, MNT_WIN32_ONLY};
use crate::namei_laws::{
    follows_component, is_component, lemma_component_of, lemma_slashes_scanned, only_slashes,
};
use crate::namei_state::{BOOTSTRAP_PATH_MAX, BOOTSTRAP_SYMLINK_DEPTH_MAX};
use crate::path::{followed, normalized, past_component, past_slashes};
use crate::state::{BootEntryView, VfsModel};
use crate::status::Status;
use crate::vnode::{Vnode, VnodeType, S_IFMT, S_IFREG};
use vstd::prelude::*;
use vstd::string::*;

verus! {

// ---- contents ----------------------------------------------------------------------

/// The byte at `at` of what file `v` stores; what was never stored is zero.
pub open spec fn byte_stored(m: VfsModel, v: Handle, at: int) -> u8 {
    let data = m.vnodes.at(v).data;
    if m.blobs.has(data) && 0 <= at < m.blobs.at(data).len() {
        m.blobs.at(data)[at]
    } else {
        0
    }
}

/// A write to a file of the bootstrap tree puts the bytes where they belong, leaves every other
/// byte of the file, and fills a gap behind the old end with zeros. The file grows to the end
/// of what was written and never shrinks.
pub proof fn law_write_leaves_the_other_bytes(
    m: VfsModel,
    v: Handle,
    offset: u64,
    src: Seq<u8>,
    at: int,
)
    requires
        m.blobs.wf(),
        m.file_written(v, offset, src).1 is Some,
        m.blobs.has(m.vnodes.at(v).data) ==> m.blobs.at(m.vnodes.at(v).data).len()
            == m.vnodes.at(v).size,
        0 <= at,
    ensures
        ({
            let s = m.file_written(v, offset, src).0;
            let size = m.vnodes.at(v).size;
            &&& m.file_written(v, offset, src).1 == Some(src.len() as u64)
            &&& s.vnodes.at(v).size == if offset + src.len() > size {
                offset + src.len()
            } else {
                size as int
            }
            &&& byte_stored(s, v, at) == if offset <= at < offset + src.len() {
                src[at - offset]
            } else if at < size {
                byte_stored(m, v, at)
            } else {
                0
            }
            &&& forall|w: Handle| w != v ==> #[trigger] s.vnodes.entry(w) == m.vnodes.entry(w)
            &&& forall|w: Handle, k: int|
                w != v && m.blobs.has(m.vnodes.at(w).data) && m.vnodes.at(w).data != m.vnodes.at(
                    v,
                ).data ==> #[trigger] byte_stored(s, w, k) == byte_stored(m, w, k)
            &&& s.boot_entries == m.boot_entries
        }),
{
    m.blobs.lemma_vacant(0);
    if m.blobs.has(m.vnodes.at(v).data) {
        assert(m.blobs.live.contains_key(m.vnodes.at(v).data));
    }
}

/// A write to a regular file of the bootstrap tree succeeds where the bytes have a place: they
/// lie within what is stored, or there is room for a larger copy.
pub proof fn law_write_is_owed(m: VfsModel, v: Handle, offset: u64, src: Seq<u8>)
    requires
        m.blobs.wf(),
        m.vnodes.has(v),
        m.vnodes.at(v).vtype == VnodeType::Reg,
        offset + src.len() <= u64::MAX,
        m.vnodes.at(v).data.is_valid() ==> m.blobs.has(m.vnodes.at(v).data),
    ensures
        offset + src.len() <= m.vnodes.at(v).size && m.blobs.has(m.vnodes.at(v).data)
            ==> m.file_written(v, offset, src).1 == Some(src.len() as u64),
        offset + src.len() > m.vnodes.at(v).size && m.blobs.next() is Some ==> m.file_written(
            v,
            offset,
            src,
        ).1 == Some(src.len() as u64),
{
    m.blobs.lemma_vacant(0);
    if m.blobs.has(m.vnodes.at(v).data) {
        assert(m.blobs.live.contains_key(m.vnodes.at(v).data));
    }
}

/// A file of the bootstrap tree that is given another size keeps its bytes up to the smaller of
/// the two sizes, and what it gains is zero.
pub proof fn law_resize_keeps_the_bytes(m: VfsModel, v: Handle, size: u64, at: int)
    requires
        m.blobs.wf(),
        m.can_resize(v, size),
        m.blobs.has(m.vnodes.at(v).data) ==> m.blobs.at(m.vnodes.at(v).data).len()
            == m.vnodes.at(v).size,
        0 <= at,
    ensures
        ({
            let s = m.file_resized(v, size);
            &&& s.vnodes.at(v).size == size
            &&& byte_stored(s, v, at) == if at < size && at < m.vnodes.at(v).size {
                byte_stored(m, v, at)
            } else {
                0
            }
            &&& forall|w: Handle| w != v ==> #[trigger] s.vnodes.entry(w) == m.vnodes.entry(w)
            &&& s.boot_entries == m.boot_entries
        }),
        m.vnodes.has(v) && m.vnodes.at(v).vtype == VnodeType::Reg,
{
    m.blobs.lemma_vacant(0);
    if m.blobs.has(m.vnodes.at(v).data) {
        assert(m.blobs.live.contains_key(m.vnodes.at(v).data));
    }
    assert(!m.blobs.has(Handle::invalid())) by {
        if m.blobs.has(Handle::invalid()) {
            assert(m.blobs.live.contains_key(Handle::invalid()));
        }
    }
}

/// Any regular file can be emptied or left at its size, and can be given any size where there
/// is room for another copy; nothing but a regular file can.
pub proof fn law_resize_is_owed(m: VfsModel, v: Handle, size: u64)
    ensures
        m.can_resize(v, size) <==> m.vnodes.has(v) && m.vnodes.at(v).vtype == VnodeType::Reg && (size
            == 0 || size == m.vnodes.at(v).size || m.blobs.next() is Some),
{
}

// ---- listings ----------------------------------------------------------------------

/// Clients of the personality are shown name `e` in directory `dir`: it is a name of the
/// directory for a vnode that is there, and no mount for the other personality only sits on the
/// vnode.
pub open spec fn is_shown(m: VfsModel, e: BootEntryView, dir: Handle, personality: u8) -> bool {
    &&& e.active
    &&& e.parent == dir
    &&& m.vnodes.has(e.vnode)
    &&& {
        let vn = m.vnodes.at(e.vnode);
        let other = if personality == PERS_WIN32 {
            MNT_POSIX_ONLY
        } else {
            MNT_WIN32_ONLY
        };
        ||| vn.covered_by.id.0 == 0
        ||| match m.mount_on(vn) {
            Some(mh) => m.mounts.has(mh) ==> m.mounts.at(mh).flags & other == 0,
            None => true,
        }
    }
}

/// Number that an object of this type has in listings.
pub open spec fn type_shown(t: VnodeType) -> u8 {
    match t {
        VnodeType::Fifo => 1,
        VnodeType::Chr => 2,
        VnodeType::Dir => 4,
        VnodeType::Reg => 8,
        VnodeType::Lnk => 10,
        VnodeType::Sock => 12,
        VnodeType::Blk => 0,
        VnodeType::Unset => 0,
    }
}

/// The names of directory `dir` from position `i` of the tree on, in the order of the tree, each
/// with the number and the type of what it names.
pub open spec fn names_shown(m: VfsModel, dir: Handle, personality: u8, i: int) -> Seq<
    (Seq<u8>, u64, u8),
>
    decreases m.boot_entries.len() - i,
{
    if 0 <= i < m.boot_entries.len() {
        let e = m.boot_entries[i];
        let rest = names_shown(m, dir, personality, i + 1);
        if is_shown(m, e, dir, personality) {
            seq![(e.name, m.vnodes.at(e.vnode).id, type_shown(m.vnodes.at(e.vnode).vtype))] + rest
        } else {
            rest
        }
    } else {
        Seq::empty()
    }
}

/// What a listing of directory `dir` gives from `cursor` on, each step taking up where the one
/// before left off; `n` bounds the steps.
pub open spec fn items_listed(m: VfsModel, dir: Handle, cursor: u64, personality: u8, n: nat) -> Seq<
    (Seq<u8>, u64, u8),
>
    decreases n,
{
    if n == 0 {
        Seq::empty()
    } else {
        match m.boot_listing(dir, cursor, personality) {
            Some(it) => seq![(it.name, it.ino, it.d_type)] + items_listed(
                m,
                dir,
                it.next_cursor,
                personality,
                (n - 1) as nat,
            ),
            None => Seq::empty(),
        }
    }
}

proof fn lemma_nth_shown(m: VfsModel, dir: Handle, personality: u8, want: int, i: int)
    requires
        0 <= want,
        0 <= i,
    ensures
        names_shown(m, dir, personality, i).len() <= m.boot_entries.len() - i || i
            > m.boot_entries.len(),
        match m.nth_listed(dir, personality, want, i) {
            Some(k) => 0 <= k < m.boot_entries.len() && want < names_shown(
                m,
                dir,
                personality,
                i,
            ).len() && names_shown(m, dir, personality, i)[want] == (
                m.boot_entries[k].name,
                m.vnodes.at(m.boot_entries[k].vnode).id,
                m.dtype_of(m.boot_entries[k].vnode),
            ),
            None => want >= names_shown(m, dir, personality, i).len(),
        },
    decreases m.boot_entries.len() - i,
{
    if i < m.boot_entries.len() {
        let e = m.boot_entries[i];
        assert(m.listed(dir, i, personality) == is_shown(m, e, dir, personality));
        lemma_nth_shown(m, dir, personality, want, i + 1);
        if want > 0 {
            lemma_nth_shown(m, dir, personality, want - 1, i + 1);
        }
    }
}

proof fn lemma_items_listed(m: VfsModel, dir: Handle, cursor: u64, personality: u8, n: nat)
    requires
        m.vnodes.has(dir),
        m.boot_entries.len() + 2 < u64::MAX,
        2 <= cursor,
        cursor - 2 <= names_shown(m, dir, personality, 0).len(),
        cursor + n > names_shown(m, dir, personality, 0).len() + 2,
    ensures
        items_listed(m, dir, cursor, personality, n) == names_shown(m, dir, personality, 0).skip(
            cursor - 2,
        ),
    decreases n,
{
    let all = names_shown(m, dir, personality, 0);
    lemma_nth_shown(m, dir, personality, cursor - 2, 0);
    if cursor - 2 < all.len() {
        lemma_items_listed(m, dir, (cursor + 1) as u64, personality, (n - 1) as nat);
        assert(seq![all[cursor - 2]] + all.skip(cursor - 1) =~= all.skip(cursor - 2));
    } else {
        assert(all.skip(cursor - 2) =~= Seq::empty());
    }
}

/// A listing from the start shows the directory itself, its parent, and then, once each and in
/// the order of the tree, every name that the directory holds and that clients of the
/// personality may see, whatever it names; then it ends.
pub proof fn law_listing_shows_the_directory(m: VfsModel, dir: Handle, personality: u8, n: nat)
    requires
        m.vnodes.has(dir),
        m.boot_entries.len() + 2 < u64::MAX,
        n > m.boot_entries.len() + 2,
    ensures
        ({
            let shown = items_listed(m, dir, 0, personality, n);
            let parent = m.boot_parent(dir);
            &&& shown.len() == 2 + names_shown(m, dir, personality, 0).len()
            &&& shown[0] == (seq![DOT], m.vnodes.at(dir).id, type_shown(m.vnodes.at(dir).vtype))
            &&& shown[1].0 == seq![DOT, DOT]
            &&& m.vnodes.has(parent) ==> shown[1] == (
                seq![DOT, DOT],
                m.vnodes.at(parent).id,
                type_shown(m.vnodes.at(parent).vtype),
            )
            &&& shown.skip(2) == names_shown(m, dir, personality, 0)
        }),
{
    reveal_strlit(".");
    reveal_strlit("..");
    is_ascii_spec_bytes(".");
    is_ascii_spec_bytes("..");
    assert(".".spec_bytes() =~= seq![DOT]);
    assert("..".spec_bytes() =~= seq![DOT, DOT]);
    lemma_nth_shown(m, dir, personality, 0, 0);
    lemma_items_listed(m, dir, 2, personality, (n - 2) as nat);
    let all = names_shown(m, dir, personality, 0);
    assert(all.skip(0) =~= all);
    let one = m.boot_listing(dir, 0, personality)->0;
    let two = m.boot_listing(dir, 1, personality)->0;
    let tail = items_listed(m, dir, 2, personality, (n - 2) as nat);
    let mid = items_listed(m, dir, 1, personality, (n - 1) as nat);
    assert(mid == seq![(two.name, two.ino, two.d_type)] + tail);
    let shown = items_listed(m, dir, 0, personality, n);
    assert(shown == seq![(one.name, one.ino, one.d_type)] + mid);
    assert(shown.skip(2) =~= tail);
}

// ---- making ------------------------------------------------------------------------

/// What a new object of the bootstrap tree is: a vnode that was not there, found under the name
/// it was given, of the type and mode that were asked for, with one name, on the filesystem of
/// its directory. Everything else is as it was.
pub open spec fn is_new_object(
    m: VfsModel,
    s: VfsModel,
    parent: Handle,
    name: Seq<u8>,
    fold: bool,
    v: Handle,
    t: VnodeType,
    mode: u32,
    size: int,
) -> bool {
    let vn = s.vnodes.at(v);
    &&& !m.vnodes.has(v)
    &&& s.vnodes.has(v)
    &&& boot_child(s.boot_entries, parent, name, fold) == Some(v)
    &&& s.boot_entries == m.boot_entries.push(
        BootEntryView { active: true, parent, vnode: v, name },
    )
    &&& vn.vtype == t
    &&& vn.mode == mode
    &&& vn.size == size
    &&& vn.nlink == 1
    &&& vn.open_count == 0
    &&& !vn.root
    &&& vn.fs_instance_id == m.vnodes.at(parent).fs_instance_id
    &&& forall|w: Handle| w != v ==> #[trigger] s.vnodes.entry(w) == m.vnodes.entry(w)
    &&& s.mounts == m.mounts
    &&& s.clients == m.clients
}

proof fn lemma_next<V>(t: Table<V>, x: V)
    requires
        t.wf(),
        t.next() is Some,
    ensures
        !t.has(t.next()->0),
        t.next()->0.is_valid(),
        t.grown(x).has(t.next()->0),
        t.grown(x).at(t.next()->0) == x,
{
    t.lemma_vacant(0);
}

/// A file that is made is empty and regular, with the permissions that were asked for.
pub proof fn law_made_file_is_empty(
    m: VfsModel,
    parent: Handle,
    name: Seq<u8>,
    mode: u32,
    fold: bool,
    v: Handle,
)
    requires
        m.vnodes.wf(),
        m.regular_made(parent, name, mode, fold).1 == Ok::<Handle, Status>(v),
    ensures
        is_new_object(
            m,
            m.regular_made(parent, name, mode, fold).0,
            parent,
            name,
            fold,
            v,
            VnodeType::Reg,
            (mode & !S_IFMT) | S_IFREG,
            0,
        ),
        m.regular_made(parent, name, mode, fold).0.blobs == m.blobs,
{
    lemma_unheld(m.boot_entries, parent, name, fold);
    lemma_next(m.vnodes, Vnode::zeroed());
    law_added_name_is_found(m, parent, v, name, fold, parent, name);
}

proof fn lemma_unheld(es: Seq<BootEntryView>, parent: Handle, name: Seq<u8>, fold: bool)
    ensures
        boot_child(es, parent, name, fold) is None ==> boot_child(es, parent, name, false) is None,
{
    lemma_entry_index(es, parent, name, fold, 0);
    lemma_entry_index(es, parent, name, false, 0);
    if let Some(k) = entry_index(es, parent, name, false, 0) {
        law_same_name_is_equivalence(es[k].name, name, name, true);
    }
}

/// A directory that is made is a directory of the mode that was asked for.
pub proof fn law_made_directory_is_one(
    m: VfsModel,
    parent: Handle,
    name: Seq<u8>,
    mode: u32,
    fold: bool,
    v: Handle,
)
    requires
        m.vnodes.wf(),
        m.dir_made(parent, name, mode, fold).1 == Ok::<Handle, Status>(v),
    ensures
        is_new_object(
            m,
            m.dir_made(parent, name, mode, fold).0,
            parent,
            name,
            fold,
            v,
            VnodeType::Dir,
            mode,
            0,
        ),
        m.dir_made(parent, name, mode, fold).0.blobs == m.blobs,
{
    lemma_next(m.vnodes, Vnode::zeroed());
    law_added_name_is_found(m, parent, v, name, fold, parent, name);
}

/// A link that is made stores its target.
pub proof fn law_made_link_stores_its_target(
    m: VfsModel,
    parent: Handle,
    name: Seq<u8>,
    mode: u32,
    target: Seq<u8>,
    fold: bool,
    v: Handle,
)
    requires
        m.vnodes.wf(),
        m.blobs.wf(),
        target.len() <= u64::MAX,
        m.link_made(parent, name, mode, target, fold).1 == Ok::<Handle, Status>(v),
    ensures
        ({
            let s = m.link_made(parent, name, mode, target, fold).0;
            &&& is_new_object(
                m,
                s,
                parent,
                name,
                fold,
                v,
                VnodeType::Lnk,
                mode,
                target.len() as int,
            )
            &&& target.len() > 0 ==> s.blobs.has(s.vnodes.at(v).data) && s.blobs.at(
                s.vnodes.at(v).data,
            ) == target && !m.blobs.has(s.vnodes.at(v).data)
            &&& 0 < target.len() <= BOOTSTRAP_PATH_MAX ==> s.link_bytes(s.vnodes.at(v)) == Some(
                target,
            )
            &&& forall|b: Handle| #[trigger] m.blobs.has(b) ==> s.blobs.entry(b) == m.blobs.entry(b)
        }),
{
    lemma_next(m.vnodes, Vnode::zeroed());
    law_added_name_is_found(m, parent, v, name, fold, parent, name);
    let s = m.link_made(parent, name, mode, target, fold).0;
    if target.len() > 0 {
        lemma_next(m.blobs, target);
        if target.len() <= BOOTSTRAP_PATH_MAX {
            assert(s.link_bytes(s.vnodes.at(v))->0 =~= target);
        }
    }
}

/// A named pipe or socket that is made is one.
pub proof fn law_made_special_is_one(
    m: VfsModel,
    parent: Handle,
    name: Seq<u8>,
    mode: u32,
    t: VnodeType,
    fold: bool,
    v: Handle,
)
    requires
        m.vnodes.wf(),
        m.special_made(parent, name, mode, t, fold).1 == Ok::<Handle, Status>(v),
    ensures
        is_new_object(
            m,
            m.special_made(parent, name, mode, t, fold).0,
            parent,
            name,
            fold,
            v,
            t,
            mode,
            0,
        ),
{
    lemma_next(m.vnodes, Vnode::zeroed());
    law_added_name_is_found(m, parent, v, name, fold, parent, name);
}

/// Why nothing is made, in the order in which it is tested: the directory is not there, it is
/// none, it holds the name already, or there is no room. Where none of this holds the object is
/// made, and a refusal leaves the names of the tree.
pub proof fn law_making_is_owed(
    m: VfsModel,
    parent: Handle,
    name: Seq<u8>,
    mode: u32,
    target: Seq<u8>,
    t: VnodeType,
    fold: bool,
)
    requires
        m.vnodes.wf(),
    ensures
        ({
            let file = m.regular_made(parent, name, mode, fold);
            let dir = m.dir_made(parent, name, mode, fold);
            let link = m.link_made(parent, name, mode, target, fold);
            let special = m.special_made(parent, name, mode, t, fold);
            let room = m.vnodes.next() is Some && name.len() <= BOOTSTRAP_NAME_MAX
                && m.boot_entries.len() < BOOTSTRAP_ENTRY_CAP;
            let stored = target.len() == 0 || m.blobs.next() is Some;
            let why = if !m.vnodes.has(parent) {
                Some(Status::NotFound)
            } else if m.vnodes.at(parent).vtype != VnodeType::Dir {
                Some(Status::NotDirectory)
            } else if boot_child(m.boot_entries, parent, name, fold) is Some {
                Some(Status::AlreadyExists)
            } else if !room {
                Some(Status::OutOfMemory)
            } else {
                None
            };
            &&& match why {
                None => file.1 is Ok && dir.1 is Ok && special.1 is Ok && (link.1 is Ok <==> stored)
                    && (link.1 matches Err(e) ==> e == Status::OutOfMemory),
                Some(e) => file.1 == Err::<Handle, Status>(e) && dir.1 == Err::<Handle, Status>(e)
                    && special.1 == Err::<Handle, Status>(e) && link.1 == Err::<Handle, Status>(e),
            }
            &&& file.1 is Err ==> file.0.boot_entries == m.boot_entries
            &&& dir.1 is Err ==> dir.0.boot_entries == m.boot_entries
            &&& special.1 is Err ==> special.0.boot_entries == m.boot_entries
            &&& link.1 is Err ==> link.0.boot_entries == m.boot_entries
        }),
{
    lemma_unheld(m.boot_entries, parent, name, fold);
    if let Some(v) = m.vnodes.next() {
        lemma_next(m.vnodes, Vnode::zeroed());
        let (b, _) = m.bytes_stored(target);
        let vn = Vnode::new_bootstrap(
            t,
            m.vnodes.at(parent).fs_instance_id,
            m.home_mount(parent),
            mode,
        );
        m.lemma_plain_names(parent, name, vn);
        let data = if target.len() == 0 {
            Handle::invalid()
        } else {
            m.blobs.next()->0
        };
        b.lemma_plain_names(
            parent,
            name,
            Vnode {
                size: target.len() as u64,
                data,
                ..Vnode::new_bootstrap(
                    VnodeType::Lnk,
                    m.vnodes.at(parent).fs_instance_id,
                    m.home_mount(parent),
                    mode,
                )
            },
        );
    }
}

impl VfsModel {
    proof fn lemma_plain_names(self, parent: Handle, name: Seq<u8>, vn: Vnode)
        ensures
            self.plain_made(parent, name, vn).1 is Err ==> self.plain_made(
                parent,
                name,
                vn,
            ).0.boot_entries == self.boot_entries,
    {
        if let Some(v) = self.vnodes.next() {
            let s = VfsModel {
                vnodes: self.vnodes.grown(
                    Vnode { id: crate::vnode::dynamic_id(v, vn.vtype), ..vn },
                ),
                ..self
            }.cached(v);
            s.lemma_reclaim_keeps_names(v);
        }
    }
}

// ---- removing and renaming ---------------------------------------------------------

/// Directory `dir` holds a name.
pub open spec fn holds_a_name(m: VfsModel, dir: Handle) -> bool {
    exists|i: int|
        0 <= i < m.boot_entries.len() && (#[trigger] m.boot_entries[i]).active
            && m.boot_entries[i].parent == dir
}

/// Why a name is not taken away, in the order in which it is tested: there is none, it names
/// nothing, it names no directory where one was meant, or one that holds names, or one where
/// none was meant, or what it names is the root of a mount or has a mount on it. Only where none
/// of this holds is it taken away; otherwise nothing changes.
pub proof fn law_unlink_is_refused_for_a_reason(
    m: VfsModel,
    parent: Handle,
    name: Seq<u8>,
    want_dir: bool,
    fold: bool,
)
    ensures
        ({
            let (s, r) = m.unlinked(parent, name, want_dir, fold);
            &&& r == (match boot_child(m.boot_entries, parent, name, fold) {
                None => Status::NotFound,
                Some(c) => if !m.vnodes.has(c) {
                    Status::NotFound
                } else if want_dir && m.vnodes.at(c).vtype != VnodeType::Dir {
                    Status::NotDirectory
                } else if want_dir && holds_a_name(m, c) {
                    Status::Busy
                } else if !want_dir && m.vnodes.at(c).vtype == VnodeType::Dir {
                    Status::IsDirectory
                } else if m.vnodes.at(c).root || m.vnodes.at(c).covered_by.handle.is_valid() {
                    Status::Busy
                } else {
                    Status::Success
                },
            })
            &&& r != Status::Success ==> s == m
        }),
{
}

/// A vnode whose name was taken away counts one name less. It goes with its last name, unless
/// something has it open or holds it in place. Other vnodes stay.
pub proof fn law_last_name_takes_the_vnode(
    m: VfsModel,
    parent: Handle,
    name: Seq<u8>,
    want_dir: bool,
    fold: bool,
    o: Handle,
)
    requires
        m.unlinked(parent, name, want_dir, fold).1 == Status::Success,
        o != boot_child(m.boot_entries, parent, name, fold)->0,
    ensures
        ({
            let s = m.unlinked(parent, name, want_dir, fold).0;
            let c = boot_child(m.boot_entries, parent, name, fold)->0;
            let vn = m.vnodes.at(c);
            &&& s.vnodes.entry(o) == m.vnodes.entry(o)
            &&& vn.nlink > 1 && !m.ephemeral(c) ==> s.vnodes.has(c) && s.vnodes.at(c).nlink
                == vn.nlink - 1
            &&& vn.nlink == 1 && (vn.open_count > 0 || vn.pinned) ==> s.vnodes.has(c)
                && s.vnodes.at(c).nlink == 0 && s.vnodes.at(c).doomed
            &&& vn.nlink <= 1 && vn.open_count == 0 && !vn.pinned ==> !s.vnodes.has(c)
        }),
{
    let i = entry_index(m.boot_entries, parent, name, fold, 0)->0;
    let c = boot_child(m.boot_entries, parent, name, fold)->0;
    let a = m.unnamed(i).name_lost(c);
    let b = a.fifo_unlinked(c);
    assert(b.vnodes == a.vnodes && b.proc_nodes == m.proc_nodes);
    crate::lifecycle::law_reclaim_is_safe(b, c, o);
}

/// Why a name is not changed, in the order in which it is tested. A directory that the
/// namespace hangs on, that is the root of a mount or that has a mount on it stays where it is;
/// a directory is not moved into itself or below; and what has the new name makes way only if it
/// is of the same sort and, as a directory, holds nothing.
pub proof fn law_rename_is_refused_for_a_reason(
    m: VfsModel,
    old_parent: Handle,
    old_name: Seq<u8>,
    new_parent: Handle,
    new_name: Seq<u8>,
    fold: bool,
)
    ensures
        ({
            let (s, r) = m.renamed(old_parent, old_name, new_parent, new_name, fold);
            let held = |v: Handle|
                m.is_anchor(v) || m.vnodes.at(v).root || m.vnodes.at(
                    v,
                ).covered_by.handle.is_valid();
            &&& r == (match entry_index(m.boot_entries, old_parent, old_name, fold, 0) {
                None => Status::NotFound,
                Some(i) => {
                    let moved = m.boot_entries[i].vnode;
                    let is_dir = m.vnodes.at(moved).vtype == VnodeType::Dir;
                    if !m.vnodes.has(moved) {
                        Status::NotFound
                    } else if held(moved) {
                        Status::Busy
                    } else if !m.vnodes.has(new_parent) || m.vnodes.at(new_parent).vtype
                        != VnodeType::Dir {
                        Status::NotDirectory
                    } else if is_dir && m.below(new_parent, moved) {
                        Status::InvalidArgument
                    } else {
                        match entry_index(m.boot_entries, new_parent, new_name, fold, 0) {
                            None => Status::Success,
                            Some(j) => {
                                let target = m.boot_entries[j].vnode;
                                let onto_dir = m.vnodes.at(target).vtype == VnodeType::Dir;
                                if j == i {
                                    Status::Success
                                } else if !m.vnodes.has(target) {
                                    Status::NotFound
                                } else if held(target) {
                                    Status::Busy
                                } else if is_dir && !onto_dir {
                                    Status::NotDirectory
                                } else if !is_dir && onto_dir {
                                    Status::IsDirectory
                                } else if onto_dir && holds_a_name(m, target) {
                                    Status::Busy
                                } else {
                                    Status::Success
                                }
                            },
                        }
                    }
                },
            })
            &&& r != Status::Success ==> s == m
        }),
{
}

/// A vnode lies below itself, and below what its directory lies below.
pub proof fn law_below_goes_up_by_directories(m: VfsModel, v: Handle, ancestor: Handle)
    requires
        v.is_valid(),
    ensures
        m.below(v, v),
        m.boot_parent(v).is_valid() && m.boot_parent(v) == ancestor ==> m.below(v, ancestor),
        v != ancestor && m.boot_parent(v) == v ==> !m.below(v, ancestor),
{
    reveal_with_fuel(VfsModel::leads_up_to, 3);
}

/// The directory of a vnode is that of its first name; without a name it is the root.
pub proof fn law_directory_of_first_name(m: VfsModel, v: Handle, k: int)
    ensures
        0 <= k < m.boot_entries.len() && m.boot_entries[k].active && m.boot_entries[k].vnode == v
            && (forall|j: int|
            0 <= j < k ==> !((#[trigger] m.boot_entries[j]).active && m.boot_entries[j].vnode
                == v)) ==> m.boot_parent(v) == m.boot_entries[k].parent,
        (forall|j: int|
            0 <= j < m.boot_entries.len() ==> !((#[trigger] m.boot_entries[j]).active
                && m.boot_entries[j].vnode == v)) && m.mounts.has(m.root_mount) ==> m.boot_parent(v)
            == m.mounts.at(m.root_mount).root_vnode,
{
    crate::bootstrap::lemma_name_of_vnode(m.boot_entries, v, 0);
    if 0 <= k < m.boot_entries.len() && m.boot_entries[k].active && m.boot_entries[k].vnode == v
        && (forall|j: int|
        0 <= j < k ==> !((#[trigger] m.boot_entries[j]).active && m.boot_entries[j].vnode == v)) {
        lemma_first_name(m.boot_entries, v, 0, k);
    }
}

proof fn lemma_first_name(es: Seq<BootEntryView>, v: Handle, i: int, k: int)
    requires
        0 <= i <= k < es.len(),
        es[k].active && es[k].vnode == v,
        forall|j: int| i <= j < k ==> !((#[trigger] es[j]).active && es[j].vnode == v),
    ensures
        crate::bootstrap::name_of_vnode(es, v, i) == Some(k),
    decreases k - i,
{
    if i < k {
        lemma_first_name(es, v, i + 1, k);
    }
}

// ---- walks -------------------------------------------------------------------------

/// A walk over the bootstrap tree starts at the root, passes slashes, and ends where it stands.
pub proof fn law_tree_walk_starts_and_ends(
    m: VfsModel,
    path: Seq<u8>,
    pos: int,
    cur: Handle,
    depth: nat,
    mode: WalkMode,
)
    requires
        depth <= BOOTSTRAP_SYMLINK_DEPTH_MAX,
    ensures
        m.mounts.has(m.root_mount) ==> m.boot_lookup(path, depth, mode) == m.boot_walk(
            path,
            0,
            m.mounts.at(m.root_mount).root_vnode,
            depth,
            mode,
        ),
        0 <= pos < path.len() && path[pos] == SLASH ==> m.boot_walk(path, pos, cur, depth, mode)
            == m.boot_walk(path, pos + 1, cur, depth, mode),
        m.boot_walk(path, path.len() as int, cur, depth, mode) == Some(cur),
{
    let root = m.mounts.at(m.root_mount).root_vnode;
    if path.len() > 0 {
        lemma_slashes_scanned(path, 0);
        if path[0] == SLASH {
            assert(past_component(path, 0) == 0);
            if path == seq![SLASH] {
                assert(past_slashes(path, 0) == past_slashes(path, 1));
                assert(m.boot_walk(path, 1, root, depth, mode) == Some(root));
            }
        } else {
            assert(past_slashes(path, 0) == 0);
        }
    }
    if 0 <= pos < path.len() && path[pos] == SLASH {
        assert(past_component(path, pos) == pos);
        lemma_slashes_scanned(path, pos);
        lemma_slashes_scanned(path, pos + 1);
        assert(past_slashes(path, pos) == past_slashes(path, pos + 1));
        if pos + 1 < path.len() && path[pos + 1] == SLASH {
            assert(past_component(path, pos + 1) == pos + 1);
        }
    }
}

/// A walk over the bootstrap tree goes down by one component to what the directory holds under
/// it. Through a link it goes on with the link's target, taken from the link's directory unless
/// it is absolute, and the rest of the path behind it.
pub proof fn law_tree_walk_goes_down(
    m: VfsModel,
    head: Seq<u8>,
    name: Seq<u8>,
    rest: Seq<u8>,
    cur: Handle,
    depth: nat,
    mode: WalkMode,
)
    requires
        is_component(name),
        follows_component(rest),
        only_slashes(rest) || rest[1] != SLASH,
        depth <= BOOTSTRAP_SYMLINK_DEPTH_MAX,
    ensures
        ({
            let w = m.boot_walk(head + name + rest, head.len() as int, cur, depth, mode);
            match boot_child(m.boot_entries, cur, name, mode.fold) {
                None => w is None,
                Some(c) => match m.crossed(c, mode) {
                    None => w is None,
                    Some(v) => {
                        let t = m.blobs.at(m.vnodes.at(v).data);
                        let dir = m.boot_path(m.boot_parent(v));
                        let behind = if only_slashes(rest) {
                            Seq::<u8>::empty()
                        } else {
                            rest
                        };
                        if m.vnodes.at(v).vtype != VnodeType::Lnk {
                            w == m.boot_walk(
                                head + name + rest,
                                (head.len() + name.len()) as int,
                                v,
                                depth,
                                mode,
                            )
                        } else if only_slashes(rest) && !mode.follow {
                            w == Some(v)
                        } else if m.blobs.has(m.vnodes.at(v).data) && m.vnodes.at(v).size == t.len()
                            && 0 < t.len() <= BOOTSTRAP_PATH_MAX && t.last() != SLASH {
                            if depth >= BOOTSTRAP_SYMLINK_DEPTH_MAX {
                                w is None
                            } else if t[0] == SLASH {
                                w == match normalized(t + behind) {
                                    Some(p) => m.boot_lookup(p, depth + 1, mode),
                                    None => None,
                                }
                            } else {
                                dir is Some && dir->0.len() > 1 && dir->0[0] == SLASH ==> w
                                    == match normalized(dir->0 + seq![SLASH] + t + behind) {
                                    Some(p) => m.boot_lookup(p, depth + 1, mode),
                                    None => None,
                                }
                            }
                        } else {
                            true
                        }
                    },
                },
            }
        }),
{
    let path = head + name + rest;
    let pos = head.len() as int;
    let end = pos + name.len();
    lemma_component_of(head, name, rest);
    lemma_slashes_scanned(path, end);
    let next = past_slashes(path, end);
    if end < path.len() {
        assert(past_component(path, end) == end);
    }
    if only_slashes(rest) {
        if next < path.len() {
            assert(path[next] == rest[next - end]);
        }
        assert(path.skip(next) =~= Seq::<u8>::empty());
    } else {
        assert(rest.len() > 1) by {
            if rest.len() == 1 {
                assert(only_slashes(rest));
            }
        }
        assert(path[end] == rest[0]);
        assert(path[end + 1] == rest[1]);
        assert(next == end + 1);
        assert(path.skip(next) =~= rest.skip(1));
        assert(rest =~= seq![SLASH] + rest.skip(1));
    }
    if let Some(c) = boot_child(m.boot_entries, cur, name, mode.fold) {
        if let Some(v) = m.crossed(c, mode) {
            let vn = m.vnodes.at(v);
            let t = m.blobs.at(vn.data);
            let behind = if only_slashes(rest) {
                Seq::<u8>::empty()
            } else {
                rest
            };
            let tail = path.skip(next);
            if m.blobs.has(vn.data) && vn.size == t.len() && 0 < t.len() <= BOOTSTRAP_PATH_MAX
                && t.last() != SLASH {
                assert(m.link_bytes(vn)->0 =~= t);
                if t[0] == SLASH {
                    assert(t.len() > 1);
                    assert(Seq::<u8>::empty() + t =~= t);
                    lemma_led_on(t, tail, behind);
                } else if let Some(d) = m.boot_path(m.boot_parent(v)) {
                    if d.len() > 1 && d[0] == SLASH {
                        let a = d + seq![SLASH] + t;
                        assert(a.last() == t.last());
                        lemma_led_on(a, tail, behind);
                        assert((d + seq![SLASH]) + t =~= a);
                    }
                }
            }
        }
    }
}

proof fn lemma_led_on(a: Seq<u8>, tail: Seq<u8>, behind: Seq<u8>)
    requires
        a.len() > 1,
        a[0] == SLASH,
        a.last() != SLASH,
        behind == if tail.len() == 0 {
            Seq::<u8>::empty()
        } else {
            seq![SLASH] + tail
        },
    ensures
        forall|x: Seq<u8>, y: Seq<u8>|
            #![trigger followed(x, y, tail)]
            x + y == a ==> followed(x, y, tail) == normalized(a + behind),
{
    if tail.len() == 0 {
        assert(a + behind =~= a);
    } else {
        assert(a + seq![SLASH] + tail =~= a + behind);
    }
    assert((a + behind)[0] == SLASH);
}

} // verus!
