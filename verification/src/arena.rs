//! Slot tables with generation-checked handles.

use vstd::prelude::*;

verus! {

/// Reference to one entry of an [`Arena`]: the slot it lives in and the generation that
/// the slot had when the entry was made.
#[derive(Clone, Copy, PartialEq, Eq, Structural, Debug)]
pub struct Handle {
    pub slot: u32,
    pub epoch: u32,
}

impl Handle {
    /// The handle that names no entry.
    #[verifier::allow_in_spec]
    pub fn invalid() -> (r: Handle)
        returns
            (Handle { slot: u32::MAX, epoch: 0 }),
    {
        Handle { slot: u32::MAX, epoch: 0 }
    }

    /// False for handles in the slot reserved for "no entry".
    #[verifier::allow_in_spec]
    pub fn is_valid(&self) -> (r: bool)
        returns
            self.slot != u32::MAX,
    {
        self.slot != u32::MAX
    }
}

/// Word with the slot in the low half and the epoch in the high half.
pub open spec fn packed(h: Handle) -> u64 {
    ((h.epoch as u64) << 32) | (h.slot as u64)
}

/// Packs a handle into one word: epoch in the high half, slot in the low half.
pub fn pack_handle(h: Handle) -> (r: u64)
    ensures
        r == packed(h),
        r == h.epoch as int * 0x1_0000_0000 + h.slot as int,
{
    let e: u64 = h.epoch as u64;
    let s: u64 = h.slot as u64;
    assert((e << 32) | s == e * 0x1_0000_0000 + s) by (bit_vector)
        requires
            e <= 0xffff_ffff,
            s <= 0xffff_ffff,
    ;
    (e << 32) | s
}

/// The handle that a word packs.
pub open spec fn unpacked(raw: u64) -> Handle {
    Handle { slot: (raw % 0x1_0000_0000) as u32, epoch: (raw / 0x1_0000_0000) as u32 }
}

/// Splits a packed word back into a handle.
pub fn unpack_handle(raw: u64) -> (r: Handle)
    ensures
        r == unpacked(raw),
        r.slot == raw % 0x1_0000_0000,
        r.epoch == raw / 0x1_0000_0000,
{
    assert((raw & 0xffff_ffff) as u32 == raw % 0x1_0000_0000) by (bit_vector);
    assert((raw >> 32) as u32 == raw / 0x1_0000_0000) by (bit_vector);
    Handle { slot: (raw & 0xffff_ffff) as u32, epoch: (raw >> 32) as u32 }
}

/// A handle survives being packed and split again, and every word is the packing of the
/// handle it splits into.
pub proof fn law_handle_packing_round_trip(h: Handle, raw: u64)
    ensures
        packed(h) % 0x1_0000_0000 == h.slot,
        packed(h) / 0x1_0000_0000 == h.epoch,
        unpacked(packed(h)) == h,
        packed(unpacked(raw)) == raw,
{
    let e: u64 = h.epoch as u64;
    let s: u64 = h.slot as u64;
    assert((e << 32) | s == e * 0x1_0000_0000 + s) by (bit_vector)
        requires
            e <= 0xffff_ffff,
            s <= 0xffff_ffff,
    ;
    let hi: u64 = raw / 0x1_0000_0000;
    let lo: u64 = raw % 0x1_0000_0000;
    assert((hi << 32) | lo == raw) by (bit_vector)
        requires
            hi == raw / 0x1_0000_0000,
            lo == raw % 0x1_0000_0000,
    ;
}

/// What an [`Arena`] holds: the live entries by handle, the current generation of every
/// slot that was ever used, and the number of slots there may be.
#[verifier::ext_equal]
pub struct Table<V> {
    pub live: Map<Handle, V>,
    pub epochs: Seq<u32>,
    pub limit: u32,
}

impl<V> Table<V> {
    /// `h` names a live entry.
    pub open spec fn has(self, h: Handle) -> bool {
        self.live.contains_key(h)
    }

    /// The entry that `h` names.
    pub open spec fn at(self, h: Handle) -> V {
        self.live[h]
    }

    /// The entry that `h` names, if it names one.
    pub open spec fn entry(self, h: Handle) -> Option<V> {
        if self.has(h) {
            Some(self.at(h))
        } else {
            None
        }
    }

    /// The only handle under which slot `s` may hold an entry now.
    pub open spec fn handle_at(self, s: int) -> Handle {
        Handle {
            slot: s as u32,
            epoch: if 0 <= s < self.epochs.len() {
                self.epochs[s]
            } else {
                0
            },
        }
    }

    /// Every live handle carries the current generation of a slot within the limit.
    pub open spec fn wf(self) -> bool {
        &&& self.epochs.len() <= self.limit
        &&& forall|h: Handle| #[trigger]
            self.live.contains_key(h) ==> h.slot < self.epochs.len() && self.epochs[h.slot as int]
                == h.epoch
    }

    /// The lowest slot from `i` on that holds no live entry.
    pub open spec fn vacant_from(self, i: int) -> int
        decreases self.epochs.len() - i,
    {
        if 0 <= i < self.epochs.len() && self.has(self.handle_at(i)) {
            self.vacant_from(i + 1)
        } else {
            i
        }
    }

    /// The handle that the next entry is stored under: that of the lowest slot without a
    /// live entry, unless all slots are taken.
    pub open spec fn next(self) -> Option<Handle> {
        let s = self.vacant_from(0);
        if s < self.limit {
            Some(self.handle_at(s))
        } else {
            None
        }
    }

    /// The table with `v` stored under the next handle, where there is one.
    pub open spec fn grown(self, v: V) -> Table<V> {
        match self.next() {
            Some(h) => Table {
                live: self.live.insert(h, v),
                epochs: if h.slot < self.epochs.len() {
                    self.epochs
                } else {
                    self.epochs.push(0)
                },
                limit: self.limit,
            },
            None => self,
        }
    }

    /// The table with the entry under `h` replaced, where there is one.
    pub open spec fn put(self, h: Handle, v: V) -> Table<V> {
        if self.has(h) {
            Table { live: self.live.insert(h, v), ..self }
        } else {
            self
        }
    }

    /// The table without the entry under `h`; its slot has moved to the next generation.
    pub open spec fn dropped(self, h: Handle) -> Table<V> {
        if self.has(h) {
            Table {
                live: self.live.remove(h),
                epochs: self.epochs.update(h.slot as int, h.epoch.wrapping_add(1)),
                limit: self.limit,
            }
        } else {
            self
        }
    }

    /// The live entry in the lowest slot from `i` on that satisfies `p`.
    pub open spec fn scan(self, p: spec_fn(Handle, V) -> bool, i: int) -> Option<Handle>
        decreases self.epochs.len() - i,
    {
        if 0 <= i < self.epochs.len() {
            let h = self.handle_at(i);
            if self.has(h) && p(h, self.at(h)) {
                Some(h)
            } else {
                self.scan(p, i + 1)
            }
        } else {
            None
        }
    }

    /// The live entry in the lowest slot that satisfies `p`.
    pub open spec fn first(self, p: spec_fn(Handle, V) -> bool) -> Option<Handle> {
        self.scan(p, 0)
    }

    /// The first `n` live entries from slot `i` on that satisfy `p`, lowest slot first.
    pub open spec fn listed(self, p: spec_fn(Handle, V) -> bool, i: int, n: nat) -> Seq<Handle>
        decreases self.epochs.len() - i,
    {
        if n > 0 && 0 <= i < self.epochs.len() {
            let h = self.handle_at(i);
            if self.has(h) && p(h, self.at(h)) {
                seq![h] + self.listed(p, i + 1, (n - 1) as nat)
            } else {
                self.listed(p, i + 1, n)
            }
        } else {
            Seq::empty()
        }
    }

    /// Number of live entries in the slots below `i`.
    pub open spec fn count_below(self, i: int) -> nat
        decreases i,
    {
        if i <= 0 {
            0
        } else {
            self.count_below(i - 1) + if self.has(self.handle_at(i - 1)) {
                1nat
            } else {
                0nat
            }
        }
    }

    /// Number of live entries.
    pub open spec fn count(self) -> nat {
        self.count_below(self.epochs.len() as int)
    }

    /// A scan ends at a live entry that satisfies `p` with none before it, or there is none.
    pub proof fn lemma_scan(self, p: spec_fn(Handle, V) -> bool, i: int)
        requires
            self.wf(),
            0 <= i,
        ensures
            match self.scan(p, i) {
                Some(h) => {
                    &&& self.has(h)
                    &&& p(h, self.at(h))
                    &&& forall|o: Handle| #[trigger]
                        self.has(o) && i <= o.slot < h.slot ==> !p(o, self.at(o))
                },
                None => forall|o: Handle| #[trigger]
                    self.has(o) && i <= o.slot ==> !p(o, self.at(o)),
            },
        decreases self.epochs.len() - i,
    {
        if i < self.epochs.len() {
            let h = self.handle_at(i);
            if self.has(h) && p(h, self.at(h)) {
            } else {
                self.lemma_scan(p, i + 1);
                assert forall|o: Handle| #[trigger] self.has(o) && o.slot == i implies o == h by {}
            }
        }
    }

    /// The slot of the next entry is vacant, and no lower slot is.
    pub proof fn lemma_vacant(self, i: int)
        requires
            self.wf(),
            0 <= i <= self.epochs.len(),
        ensures
            i <= self.vacant_from(i) <= self.epochs.len(),
            !self.has(self.handle_at(self.vacant_from(i))),
            forall|s: int| i <= s < self.vacant_from(i) ==> self.has(#[trigger] self.handle_at(s)),
        decreases self.epochs.len() - i,
    {
        if i < self.epochs.len() && self.has(self.handle_at(i)) {
            self.lemma_vacant(i + 1);
        } else if i == self.epochs.len() {
            let h = self.handle_at(i);
            assert(i <= u32::MAX);
            assert(h.slot == i);
        }
    }

    /// Storing an entry and replacing it at once is storing the replacement.
    pub proof fn lemma_grown_put(self, a: V, b: V)
        ensures
            match self.next() {
                Some(h) => self.grown(a).put(h, b) == self.grown(b),
                None => true,
            },
    {
        if let Some(h) = self.next() {
            assert(self.grown(a).put(h, b).live =~= self.grown(b).live);
        }
    }

    /// Replacing entries leaves the count; dropping one takes one off.
    pub proof fn lemma_count(self, h: Handle, v: V, i: int)
        requires
            self.wf(),
            0 <= i <= self.epochs.len(),
        ensures
            self.put(h, v).count_below(i) == self.count_below(i),
            self.has(h) ==> self.dropped(h).count_below(i) == self.count_below(i) - (if h.slot < i {
                1int
            } else {
                0int
            }),
            self.has(h) && h.slot < i ==> self.count_below(i) > 0,
        decreases i,
    {
        if i > 0 {
            self.lemma_count(h, v, i - 1);
            let g = self.handle_at(i - 1);
            assert(self.put(h, v).handle_at(i - 1) == g);
            if self.has(h) {
                let d = self.dropped(h);
                if h.slot == i - 1 {
                    assert(g == h);
                    assert(!d.has(d.handle_at(i - 1))) by {
                        assert(d.handle_at(i - 1).epoch == h.epoch.wrapping_add(1));
                        assert(d.handle_at(i - 1) != h);
                        assert(d.live == self.live.remove(h));
                        assert(!self.has(d.handle_at(i - 1)));
                    }
                } else {
                    assert(d.handle_at(i - 1) == g);
                }
            }
        }
    }
}

/// One slot: its current generation and the entry it holds, if any.
pub struct Slot<T> {
    epoch: u32,
    value: Option<T>,
}

/// Table of at most `limit` entries. An entry is found only through the handle that it
/// was created under: releasing it moves the slot to the next generation.
pub struct Arena<T> {
    slots: Vec<Slot<T>>,
    limit: u32,
}

impl<T: View> Arena<T> {
    /// Number of slots in use at some time.
    closed spec fn width(&self) -> nat {
        if self.slots@.len() <= self.limit {
            self.slots@.len()
        } else {
            self.limit as nat
        }
    }
}

impl<T: View> View for Arena<T> {
    type V = Table<T::V>;

    closed spec fn view(&self) -> Table<T::V> {
        Table {
            live: Map::new(
                |h: Handle|
                    h.slot < self.width() && self.slots@[h.slot as int].epoch == h.epoch
                        && self.slots@[h.slot as int].value is Some,
                |h: Handle| self.slots@[h.slot as int].value->0@,
            ),
            epochs: Seq::new(self.width(), |i: int| self.slots@[i].epoch),
            limit: self.limit,
        }
    }
}

impl<T: View> Arena<T> {
    /// An empty table with room for `limit` entries.
    pub fn new(limit: u32) -> (r: Self)
        ensures
            r@ == (Table::<T::V> { live: Map::empty(), epochs: Seq::empty(), limit }),
    {
        let r = Arena { slots: Vec::new(), limit };
        assert(r@ =~= Table::<T::V> { live: Map::empty(), epochs: Seq::empty(), limit });
        r
    }

    /// What an arena holds is a well-formed table.
    pub proof fn lemma_wf(&self)
        ensures
            self@.wf(),
    {
    }

    /// Room for how many entries the table was made with.
    pub fn limit(&self) -> (r: u32)
        ensures
            r == self@.limit,
    {
        self.limit
    }

    /// The entry that `h` names, or `None` when it names no live entry.
    pub fn get(&self, h: Handle) -> (r: Option<&T>)
        ensures
            match r {
                Some(v) => self@.has(h) && v@ == self@.at(h),
                None => !self@.has(h),
            },
    {
        let i: usize = h.slot as usize;
        if h.slot < self.limit && i < self.slots.len() && self.slots[i].epoch == h.epoch {
            return self.slots[i].value.as_ref();
        }
        None
    }

    /// Mutable access to the entry that `h` names.
    pub fn get_mut(&mut self, h: Handle) -> (r: Option<&mut T>)
        ensures
            match r {
                Some(v) => {
                    &&& old(self)@.has(h)
                    &&& v@ == old(self)@.at(h)
                    &&& final(self)@ == old(self)@.put(h, final(v)@)
                },
                None => !old(self)@.has(h) && final(self)@ == old(self)@,
            },
    {
        let i: usize = h.slot as usize;
        if h.slot < self.limit && i < self.slots.len() && self.slots[i].epoch == h.epoch {
            if self.slots[i].value.is_none() {
                return None;
            }
            match &mut self.slots[i].value {
                Some(v) => {
                    return Some(v);
                },
                None => {},
            }
        }
        None
    }

    /// Whether `h` names a live entry.
    pub fn contains(&self, h: Handle) -> (r: bool)
        ensures
            r == self@.has(h),
    {
        self.get(h).is_some()
    }

    /// Replaces the entry that `h` names; `false` when it names none.
    pub fn set(&mut self, h: Handle, value: T) -> (r: bool)
        ensures
            r == old(self)@.has(h),
            final(self)@ == old(self)@.put(h, value@),
    {
        match self.get_mut(h) {
            Some(v) => {
                *v = value;
                true
            },
            None => false,
        }
    }

    /// Stores `value` in the lowest free slot; `None` when no slot is free.
    pub fn reserve(&mut self, value: T) -> (r: Option<Handle>)
        ensures
            r == old(self)@.next(),
            final(self)@ == old(self)@.grown(value@),
            match r {
                Some(h) => h.is_valid() && !old(self)@.has(h) && final(self)@.has(h)
                    && final(self)@.at(h) == value@,
                None => final(self)@ == old(self)@,
            },
    {
        let mut i: usize = 0;
        proof {
            self.lemma_wf();
            self@.lemma_vacant(0);
        }
        while i < self.slots.len() && i < self.limit as usize
            invariant_except_break
                *self == *old(self),
                i <= self.width(),
                self@.vacant_from(0) == self@.vacant_from(i as int),
            ensures
                *self == *old(self),
                i <= self.width(),
                self@.vacant_from(0) == self@.vacant_from(i as int),
                i < self.width() ==> self.slots@[i as int].value is None,
            decreases self.slots@.len() - i,
        {
            if self.slots[i].value.is_none() {
                break;
            }
            assert(self@.has(self@.handle_at(i as int)));
            i = i + 1;
        }
        proof {
            assert(self@.epochs.len() == self.width());
            if i < self.width() {
                assert(!self@.has(self@.handle_at(i as int)));
            }
            assert(self@.vacant_from(0) == i);
        }
        if i >= self.limit as usize {
            return None;
        }
        let ghost before = self@;
        if i < self.slots.len() {
            let epoch: u32 = self.slots[i].epoch;
            let h = Handle { slot: i as u32, epoch };
            assert(h == self@.handle_at(i as int));
            self.slots.set(i, Slot { epoch, value: Some(value) });
            assert(self@.live =~= before.live.insert(h, value@));
            assert(self@.epochs =~= before.epochs);
            return Some(h);
        }
        let h = Handle { slot: i as u32, epoch: 0 };
        assert(h == self@.handle_at(i as int));
        self.slots.push(Slot { epoch: 0, value: Some(value) });
        assert(self@.live =~= before.live.insert(h, value@));
        assert(self@.epochs =~= before.epochs.push(0));
        Some(h)
    }

    /// Drops the entry that `h` names and retires the handle; `false` when it names none.
    pub fn release(&mut self, h: Handle) -> (r: bool)
        ensures
            r == old(self)@.has(h),
            final(self)@ == old(self)@.dropped(h),
    {
        let i: usize = h.slot as usize;
        if h.slot < self.limit && i < self.slots.len() && self.slots[i].epoch == h.epoch
            && self.slots[i].value.is_some() {
            let epoch: u32 = h.epoch.wrapping_add(1);
            let ghost before = self@;
            self.slots.set(i, Slot { epoch, value: None });
            assert(self@.live =~= before.live.remove(h));
            assert(self@.epochs =~= before.epochs.update(i as int, epoch));
            return true;
        }
        false
    }

    /// Drops the entry that `h` names and hands it out.
    pub fn take(&mut self, h: Handle) -> (r: Option<T>)
        ensures
            match r {
                Some(v) => old(self)@.has(h) && v@ == old(self)@.at(h),
                None => !old(self)@.has(h),
            },
            final(self)@ == old(self)@.dropped(h),
    {
        let i: usize = h.slot as usize;
        if h.slot < self.limit && i < self.slots.len() && self.slots[i].epoch == h.epoch
            && self.slots[i].value.is_some() {
            let epoch: u32 = h.epoch.wrapping_add(1);
            let ghost before = self@;
            let mut slot = Slot { epoch, value: None };
            std::mem::swap(&mut slot, &mut self.slots[i]);
            assert(self@.live =~= before.live.remove(h));
            assert(self@.epochs =~= before.epochs.update(i as int, epoch));
            return slot.value;
        }
        None
    }

    /// Upper end of a scan over the slots.
    pub fn slot_count(&self) -> (r: u32)
        ensures
            r == self@.epochs.len(),
    {
        if self.slots.len() <= self.limit as usize {
            self.slots.len() as u32
        } else {
            self.limit
        }
    }

    /// The handle of the live entry in slot `i`, if there is one.
    pub fn live_at(&self, i: u32) -> (r: Option<Handle>)
        requires
            i < self@.epochs.len(),
        ensures
            r == if self@.has(self@.handle_at(i as int)) {
                Some(self@.handle_at(i as int))
            } else {
                None
            },
    {
        let k: usize = i as usize;
        let h = Handle { slot: i, epoch: self.slots[k].epoch };
        assert(h == self@.handle_at(i as int));
        if self.slots[k].value.is_some() {
            return Some(h);
        }
        None
    }

    /// The live entry in the lowest slot that `f` accepts; `p` says which those are.
    pub fn find<F: Fn(Handle, &T) -> bool>(
        &self,
        f: F,
        Ghost(p): Ghost<spec_fn(Handle, T::V) -> bool>,
    ) -> (r: Option<Handle>)
        requires
            forall|h: Handle, v: &T| #[trigger] f.requires((h, v)),
            forall|h: Handle, v: &T, b: bool| #[trigger] f.ensures((h, v), b) ==> b == p(h, v@),
        ensures
            r == self@.first(p),
            match r {
                Some(h) => self@.has(h) && p(h, self@.at(h)),
                None => forall|o: Handle| #[trigger] self@.has(o) ==> !p(o, self@.at(o)),
            },
    {
        proof {
            self.lemma_wf();
            self@.lemma_scan(p, 0);
        }
        let n: u32 = self.slot_count();
        let mut i: u32 = 0;
        while i < n
            invariant
                forall|h: Handle, v: &T| #[trigger] f.requires((h, v)),
                forall|h: Handle, v: &T, b: bool|
                    #[trigger] f.ensures((h, v), b) ==> b == p(h, v@),
                n == self@.epochs.len(),
                i <= n,
                self@.first(p) == self@.scan(p, i as int),
            decreases n - i,
        {
            if let Some(h) = self.live_at(i) {
                if let Some(v) = self.get(h) {
                    if f(h, v) {
                        return Some(h);
                    }
                }
            }
            i = i + 1;
        }
        None
    }

    /// The first `limit` live entries that `f` accepts, lowest slot first; `p` says which
    /// those are.
    pub fn collect<F: Fn(Handle, &T) -> bool>(
        &self,
        f: F,
        limit: usize,
        Ghost(p): Ghost<spec_fn(Handle, T::V) -> bool>,
    ) -> (r: Vec<Handle>)
        requires
            forall|h: Handle, v: &T| #[trigger] f.requires((h, v)),
            forall|h: Handle, v: &T, b: bool| #[trigger] f.ensures((h, v), b) ==> b == p(h, v@),
        ensures
            r@ == self@.listed(p, 0, limit as nat),
    {
        let n: u32 = self.slot_count();
        let mut out: Vec<Handle> = Vec::new();
        let mut i: u32 = 0;
        assert(out@ + self@.listed(p, 0, limit as nat) =~= self@.listed(p, 0, limit as nat));
        while i < n && out.len() < limit
            invariant
                forall|h: Handle, v: &T| #[trigger] f.requires((h, v)),
                forall|h: Handle, v: &T, b: bool|
                    #[trigger] f.ensures((h, v), b) ==> b == p(h, v@),
                n == self@.epochs.len(),
                i <= n,
                out@.len() <= limit,
                out@ + self@.listed(p, i as int, (limit - out@.len()) as nat) == self@.listed(
                    p,
                    0,
                    limit as nat,
                ),
            decreases n - i,
        {
            let ghost before = out@;
            if let Some(h) = self.live_at(i) {
                if let Some(v) = self.get(h) {
                    if f(h, v) {
                        out.push(h);
                        assert(before + (seq![h] + self@.listed(
                            p,
                            i + 1,
                            (limit - before.len() - 1) as nat,
                        )) =~= out@ + self@.listed(p, i + 1, (limit - out@.len()) as nat));
                    }
                }
            }
            i = i + 1;
        }
        assert(out@ + Seq::<Handle>::empty() =~= out@);
        out
    }

    /// Number of live entries.
    pub fn len(&self) -> (r: u32)
        ensures
            r == self@.count(),
    {
        let n: u32 = self.slot_count();
        let mut i: u32 = 0;
        let mut count: u32 = 0;
        while i < n
            invariant
                n == self@.epochs.len(),
                i <= n,
                count <= i,
                count == self@.count_below(i as int),
            decreases n - i,
        {
            if self.live_at(i).is_some() {
                count = count + 1;
            }
            i = i + 1;
        }
        count
    }
}

/// A handle that was given out is live until it is released and is refused from then on,
/// also once its slot is used again, while every other entry is untouched.
pub proof fn law_release_retires_handle<V>(t: Table<V>, v: V, w: V, o: Handle)
    requires
        t.wf(),
        t.next() is Some,
        o != t.next()->0,
    ensures
        ({
            let h = t.next()->0;
            &&& t.grown(v).has(h) && t.grown(v).at(h) == v
            &&& t.grown(v).entry(o) == t.entry(o)
            &&& !t.grown(v).dropped(h).has(h)
            &&& t.grown(v).dropped(h).entry(o) == t.entry(o)
            &&& !t.grown(v).dropped(h).grown(w).has(h)
        }),
{
    t.lemma_vacant(0);
    let h = t.next()->0;
    let g = t.grown(v);
    let d = g.dropped(h);
    assert(g.wf());
    assert(d.wf());
    d.lemma_vacant(0);
    if d.next() is Some {
        let n = d.next()->0;
        if n == h {
            assert(d.epochs[h.slot as int] == h.epoch.wrapping_add(1));
            assert(h.slot < d.epochs.len());
        }
    }
}

} // verus!
