//! Current drive and per-drive directories of clients with the Win32 personality.

use crate::arena::Handle;
use crate::files::PathAnchor;
use vstd::prelude::*;

verus! {

/// Number of drive letters.
pub const DRIVES: usize = 26;

/// Drive that a client starts on.
pub const START_DRIVE: u8 = 2;

/// Drives of one client.
pub struct Win32Entry {
    pub client: Handle,
    pub current_drive: u8,
    /// Directory per drive; a drive that was never visited has none.
    pub dirs: Vec<PathAnchor>,
}

/// Drives of one client as plain values.
#[verifier::ext_equal]
pub struct Win32View {
    pub client: Handle,
    pub current_drive: u8,
    pub dirs: Seq<PathAnchor>,
}

impl View for Win32Entry {
    type V = Win32View;

    open spec fn view(&self) -> Win32View {
        Win32View { client: self.client, current_drive: self.current_drive, dirs: self.dirs@ }
    }
}

/// Drives of all clients, at most one entry per client.
pub struct Win32Cwds {
    entries: Vec<Win32Entry>,
}

impl View for Win32Cwds {
    type V = Seq<Win32View>;

    closed spec fn view(&self) -> Seq<Win32View> {
        self.entries@.map_values(|e: Win32Entry| e@)
    }
}

/// Position of a client's entry from `i` on.
pub open spec fn entry_of(s: Seq<Win32View>, client: Handle, i: int) -> Option<int>
    decreases s.len() - i,
{
    if 0 <= i < s.len() {
        if s[i].client == client {
            Some(i)
        } else {
            entry_of(s, client, i + 1)
        }
    } else {
        None
    }
}

/// Drives of a client that has visited nothing but the root of its start drive.
pub open spec fn seeded(client: Handle, root: PathAnchor) -> Win32View {
    Win32View {
        client,
        current_drive: START_DRIVE,
        dirs: Seq::new(
            DRIVES as nat,
            |d: int|
                if d == START_DRIVE {
                    root
                } else {
                    PathAnchor::invalid()
                },
        ),
    }
}

/// The entries with one for `client`, made from `root` if there was none.
pub open spec fn with_seed(s: Seq<Win32View>, client: Handle, root: PathAnchor) -> Seq<Win32View> {
    if entry_of(s, client, 0) is Some {
        s
    } else {
        s.push(seeded(client, root))
    }
}

/// The entries without the one for `client`.
pub open spec fn without(s: Seq<Win32View>, client: Handle) -> Seq<Win32View> {
    match entry_of(s, client, 0) {
        Some(i) => s.remove(i),
        None => s,
    }
}

/// The entries with the directory of one drive of `client` replaced.
pub open spec fn with_dir(s: Seq<Win32View>, client: Handle, drive: int, a: PathAnchor) -> Seq<
    Win32View,
> {
    match entry_of(s, client, 0) {
        Some(i) => if 0 <= drive < s[i].dirs.len() {
            s.update(i, Win32View { dirs: s[i].dirs.update(drive, a), ..s[i] })
        } else {
            s
        },
        None => s,
    }
}

/// The entries with `dst` on the drives of `src`, or seeded where `src` has none.
pub open spec fn with_copy(
    s: Seq<Win32View>,
    src: Handle,
    dst: Handle,
    root: PathAnchor,
) -> Seq<Win32View> {
    match entry_of(s, src, 0) {
        Some(i) => without(s, dst).push(Win32View { client: dst, ..s[i] }),
        None => with_seed(s, dst, root),
    }
}

proof fn lemma_entry_of(s: Seq<Win32View>, client: Handle, i: int)
    requires
        0 <= i,
    ensures
        entry_of(s, client, i) matches Some(k) ==> i <= k < s.len() && s[k].client == client,
    decreases s.len() - i,
{
    if i < s.len() && s[i].client != client {
        lemma_entry_of(s, client, i + 1);
    }
}

impl Win32Cwds {
    /// No entries.
    pub fn new() -> (r: Win32Cwds)
        ensures
            r@ == Seq::<Win32View>::empty(),
    {
        let r = Win32Cwds { entries: Vec::new() };
        assert(r@ =~= Seq::<Win32View>::empty());
        r
    }

    /// Position of a client's entry.
    fn position(&self, client: Handle) -> (r: Option<usize>)
        ensures
            match r {
                Some(i) => i < self.entries@.len() && entry_of(self@, client, 0) == Some(i as int),
                None => entry_of(self@, client, 0) is None,
            },
    {
        let mut i: usize = 0;
        while i < self.entries.len()
            invariant
                i <= self.entries@.len(),
                entry_of(self@, client, 0) == entry_of(self@, client, i as int),
            decreases self.entries@.len() - i,
        {
            assert(self@[i as int] == self.entries@[i as int]@);
            if self.entries[i].client == client {
                return Some(i);
            }
            i = i + 1;
        }
        None
    }

    /// Makes an entry for a client that has none.
    pub fn ensure_seeded(&mut self, client: Handle, root: PathAnchor)
        ensures
            final(self)@ == with_seed(old(self)@, client, root),
    {
        if self.position(client).is_some() {
            return;
        }
        let mut dirs: Vec<PathAnchor> = Vec::new();
        let mut d: usize = 0;
        while d < DRIVES
            invariant
                d <= DRIVES,
                dirs@ == seeded(client, root).dirs.take(d as int),
            decreases DRIVES - d,
        {
            dirs.push(
                if d == START_DRIVE as usize {
                    root
                } else {
                    PathAnchor::invalid()
                },
            );
            d = d + 1;
            assert(dirs@ =~= seeded(client, root).dirs.take(d as int));
        }
        assert(dirs@ =~= seeded(client, root).dirs);
        let ghost before = self@;
        self.entries.push(Win32Entry { client, current_drive: START_DRIVE, dirs });
        assert(self@ =~= before.push(seeded(client, root)));
    }

    /// The drive that a client is on, if it has an entry.
    pub fn current_drive(&self, client: Handle) -> (r: Option<u8>)
        ensures
            r == (match entry_of(self@, client, 0) {
                Some(i) => Some(self@[i].current_drive),
                None => None,
            }),
    {
        match self.position(client) {
            Some(i) => {
                assert(self@[i as int] == self.entries@[i as int]@);
                Some(self.entries[i].current_drive)
            },
            None => None,
        }
    }

    /// The directory of a client on a drive, if it has visited the drive.
    pub fn drive_cwd_anchor(&self, client: Handle, drive: usize) -> (r: Option<PathAnchor>)
        ensures
            r == (match entry_of(self@, client, 0) {
                Some(i) => if drive < self@[i].dirs.len() && self@[i].dirs[drive as int].is_valid() {
                    Some(self@[i].dirs[drive as int])
                } else {
                    None
                },
                None => None,
            }),
    {
        match self.position(client) {
            Some(i) => {
                assert(self@[i as int] == self.entries@[i as int]@);
                if drive < self.entries[i].dirs.len() && self.entries[i].dirs[drive].is_valid() {
                    Some(self.entries[i].dirs[drive])
                } else {
                    None
                }
            },
            None => None,
        }
    }

    /// Replaces the directory of a client on a drive.
    pub fn set_drive_cwd(&mut self, client: Handle, drive: usize, anchor: PathAnchor)
        ensures
            final(self)@ == with_dir(old(self)@, client, drive as int, anchor),
    {
        let ghost before = self@;
        if let Some(i) = self.position(client) {
            assert(self@[i as int] == self.entries@[i as int]@);
            if drive < self.entries[i].dirs.len() {
                self.entries[i].dirs[drive] = anchor;
                assert(self@ =~= with_dir(before, client, drive as int, anchor));
            }
        }
    }

    /// Drops a client's entry.
    pub fn deregister(&mut self, client: Handle)
        ensures
            final(self)@ == without(old(self)@, client),
    {
        let ghost before = self@;
        if let Some(i) = self.position(client) {
            let _ = self.entries.remove(i);
            assert(self@ =~= before.remove(i as int));
        }
    }

    /// Puts `dst` on the drives of `src`.
    pub fn clone_from(&mut self, src: Handle, dst: Handle, root: PathAnchor)
        ensures
            final(self)@ == with_copy(old(self)@, src, dst, root),
    {
        match self.position(src) {
            Some(i) => {
                assert(self@[i as int] == self.entries@[i as int]@);
                let drive: u8 = self.entries[i].current_drive;
                let dirs = vstd::slice::slice_to_vec(self.entries[i].dirs.as_slice());
                self.deregister(dst);
                let ghost before = self@;
                self.entries.push(Win32Entry { client: dst, current_drive: drive, dirs });
                assert(self@ =~= with_copy(old(self)@, src, dst, root));
            },
            None => {
                self.ensure_seeded(dst, root);
            },
        }
    }
}

} // verus!
