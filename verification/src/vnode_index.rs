//! Fixed-capacity index from a vnode's structural identity to its handle.
//!
//! The table is open-addressed: a key is stored in the first usable slot at or after
//! its home position. Removed keys leave a tombstone so that later probes go on.

use vstd::prelude::*;

use crate::arena::Handle;
use crate::identity::{BackendNodeId, FsInstanceId, VnodeKey};

verus! {

/// What a slot of the table holds.
#[derive(Clone, Copy, PartialEq, Eq, Structural, Debug)]
pub enum SlotState {
    Empty,
    Full,
    Tombstone,
}

/// One slot of the table.
#[derive(Clone, Copy, PartialEq, Eq, Structural, Debug)]
pub struct VnodeKeyIndexSlot {
    pub key: VnodeKey,
    pub vnode: Handle,
    pub state: SlotState,
}

impl VnodeKeyIndexSlot {
    /// A slot that was never used.
    #[verifier::allow_in_spec]
    pub fn zeroed() -> (r: Self)
        returns
            (VnodeKeyIndexSlot {
                key: VnodeKey::invalid(),
                vnode: Handle::invalid(),
                state: SlotState::Empty,
            }),
    {
        VnodeKeyIndexSlot {
            key: VnodeKey::invalid(),
            vnode: Handle::invalid(),
            state: SlotState::Empty,
        }
    }
}

/// Keys with both parts set can be indexed.
pub open spec fn indexable(key: VnodeKey) -> bool {
    key.fs_instance_id != FsInstanceId::invalid() && key.backend_id != BackendNodeId::invalid()
}

/// Mixed hash of a key: its parts are folded into one word, which is then scrambled by
/// two rounds of shift, xor and multiplication.
pub open spec fn spec_hash(key: VnodeKey) -> u64 {
    let ino = key.backend_id.ino;
    let a = key.fs_instance_id.0 ^ ((ino << 17) | (ino >> 47));
    let b = a ^ (key.backend_id.seq as u64).wrapping_mul(0x9E37_79B1);
    let c = (b ^ (b >> 33)).wrapping_mul(0xff51afd7ed558ccd);
    let d = (c ^ (c >> 33)).wrapping_mul(0xc4ceb9fe1a85ec53);
    d ^ (d >> 33)
}

/// The slot `i` steps after `h` in a table of `cap` slots.
pub open spec fn step_to(h: int, i: int, cap: int) -> int {
    if h + i < cap {
        h + i
    } else {
        h + i - cap
    }
}

/// How many steps lead from slot `h` to slot `p`.
pub open spec fn steps_between(h: int, p: int, cap: int) -> int {
    if p >= h {
        p - h
    } else {
        p + cap - h
    }
}

/// Index of live vnodes by structural identity.
pub struct VnodeKeyIndex {
    slots: Vec<VnodeKeyIndexSlot>,
    cap: u32,
}

/// Slot where the search for a key starts.
pub open spec fn home(key: VnodeKey, cap: u32) -> int {
    (spec_hash(key) & ((cap - 1) as u64)) as int
}

spec fn holds(s: Seq<VnodeKeyIndexSlot>, p: int, key: VnodeKey) -> bool {
    0 <= p < s.len() && s[p].state == SlotState::Full && s[p].key == key
}

spec fn stored(s: Seq<VnodeKeyIndexSlot>, key: VnodeKey) -> bool {
    exists|p: int| holds(s, p, key)
}

spec fn place(s: Seq<VnodeKeyIndexSlot>, key: VnodeKey) -> int {
    choose|p: int| holds(s, p, key)
}

spec fn reachable(s: Seq<VnodeKeyIndexSlot>, cap: u32, p: int) -> bool {
    forall|i: int|
        0 <= i < steps_between(home(s[p].key, cap), p, cap as int)
            ==> s[#[trigger] step_to(home(s[p].key, cap), i, cap as int)].state != SlotState::Empty
}

spec fn table_inv(s: Seq<VnodeKeyIndexSlot>, cap: u32) -> bool {
    &&& s.len() == cap
    &&& forall|p: int| #![trigger s[p]]
        0 <= p < s.len() && s[p].state == SlotState::Full ==> indexable(s[p].key) && reachable(
            s,
            cap,
            p,
        )
    &&& forall|p: int, q: int| #![trigger s[p], s[q]]
        0 <= p < s.len() && 0 <= q < s.len() && s[p].state == SlotState::Full && s[q].state
            == SlotState::Full && s[p].key == s[q].key ==> p == q
}

spec fn contents(s: Seq<VnodeKeyIndexSlot>) -> Map<VnodeKey, Handle> {
    Map::new(|k: VnodeKey| stored(s, k), |k: VnodeKey| s[place(s, k)].vnode)
}

spec fn keys_below(s: Seq<VnodeKeyIndexSlot>, n: int) -> Set<VnodeKey>
    decreases n,
{
    if n <= 0 {
        Set::empty()
    } else if s[n - 1].state == SlotState::Full {
        keys_below(s, n - 1).insert(s[n - 1].key)
    } else {
        keys_below(s, n - 1)
    }
}

spec fn full_below(s: Seq<VnodeKeyIndexSlot>, n: int) -> nat
    decreases n,
{
    if n <= 0 {
        0
    } else if s[n - 1].state == SlotState::Full {
        full_below(s, n - 1) + 1
    } else {
        full_below(s, n - 1)
    }
}

proof fn lemma_keys_below(s: Seq<VnodeKeyIndexSlot>, cap: u32, n: int)
    requires
        table_inv(s, cap),
        0 <= n <= s.len(),
    ensures
        keys_below(s, n).finite(),
        keys_below(s, n).len() == full_below(s, n),
        full_below(s, n) <= n,
        forall|k: VnodeKey|
            #[trigger] keys_below(s, n).contains(k) <==> exists|p: int| p < n && holds(s, p, k),
        full_below(s, n) == n <==> forall|p: int|
            0 <= p < n ==> (#[trigger] s[p]).state == SlotState::Full,
    decreases n,
{
    if n > 0 {
        lemma_keys_below(s, cap, n - 1);
        if s[n - 1].state == SlotState::Full {
            let k0 = s[n - 1].key;
            assert(!keys_below(s, n - 1).contains(k0)) by {
                if keys_below(s, n - 1).contains(k0) {
                    let p = choose|p: int| p < n - 1 && holds(s, p, k0);
                    assert(s[p].key == s[n - 1].key);
                    assert(false);
                }
            }
            assert forall|k: VnodeKey| #[trigger] keys_below(s, n).contains(k) implies (exists|p: int|
                p < n && holds(s, p, k)) by {
                if k == k0 {
                    assert(holds(s, n - 1, k));
                } else {
                    assert(keys_below(s, n - 1).contains(k));
                }
            }
            assert forall|k: VnodeKey| (exists|p: int| p < n && holds(s, p, k)) implies #[trigger] keys_below(
                s,
                n,
            ).contains(k) by {
                let p = choose|p: int| p < n && holds(s, p, k);
                if p < n - 1 {
                    assert(keys_below(s, n - 1).contains(k));
                }
            }
        } else {
            assert forall|k: VnodeKey| (exists|p: int| p < n && holds(s, p, k)) implies #[trigger] keys_below(
                s,
                n,
            ).contains(k) by {
                let p = choose|p: int| p < n && holds(s, p, k);
                assert(p < n - 1);
            }
            assert(s[n - 1].state != SlotState::Full);
        }
    }
}

proof fn lemma_cardinality(s: Seq<VnodeKeyIndexSlot>, cap: u32)
    requires
        table_inv(s, cap),
    ensures
        contents(s).dom().finite(),
        contents(s).dom().len() <= cap,
        contents(s).dom().len() == cap <==> forall|p: int|
            0 <= p < cap ==> (#[trigger] s[p]).state == SlotState::Full,
{
    lemma_keys_below(s, cap, s.len() as int);
    assert(contents(s).dom() =~= keys_below(s, s.len() as int)) by {
        assert forall|k: VnodeKey| keys_below(s, s.len() as int).contains(k) <==> stored(s, k) by {
            if stored(s, k) {
                assert(holds(s, place(s, k), k));
            }
        }
    }
}

proof fn lemma_store(
    s: Seq<VnodeKeyIndexSlot>,
    cap: u32,
    t: int,
    key: VnodeKey,
    vnode: Handle,
    h: int,
    i: int,
)
    requires
        table_inv(s, cap),
        cap > 0,
        indexable(key),
        h == home(key, cap),
        0 <= h < cap,
        0 <= i < cap,
        t == step_to(h, i, cap as int),
        s[t].state != SlotState::Full,
        !stored(s, key),
        forall|j: int|
            0 <= j < i ==> s[#[trigger] step_to(h, j, cap as int)].state != SlotState::Empty,
    ensures
        ({
            let n = s.update(t, VnodeKeyIndexSlot { key, vnode, state: SlotState::Full });
            &&& table_inv(n, cap)
            &&& contents(n) == contents(s).insert(key, vnode)
        }),
{
    let n = s.update(t, VnodeKeyIndexSlot { key, vnode, state: SlotState::Full });
    assert forall|p: int| #![trigger n[p]] 0 <= p < n.len() && n[p].state == SlotState::Full implies indexable(
        n[p].key,
    ) && reachable(n, cap, p) by {
        if p != t {
            assert(s[p].state == SlotState::Full);
            assert(reachable(s, cap, p));
        }
    }
    assert forall|p: int, q: int| #![trigger n[p], n[q]]
        0 <= p < n.len() && 0 <= q < n.len() && n[p].state == SlotState::Full && n[q].state
            == SlotState::Full && n[p].key == n[q].key implies p == q by {
        if p == t && q != t {
            assert(holds(s, q, key));
        }
        if q == t && p != t {
            assert(holds(s, p, key));
        }
    }
    assert(table_inv(n, cap));
    assert forall|k: VnodeKey| stored(n, k) <==> (stored(s, k) || k == key) by {
        if stored(n, k) && k != key {
            let p = place(n, k);
            assert(holds(n, p, k));
            assert(holds(s, p, k));
        }
        if stored(s, k) {
            let p = place(s, k);
            assert(holds(s, p, k));
            assert(holds(n, p, k));
        }
        if k == key {
            assert(holds(n, t, k));
        }
    }
    assert forall|k: VnodeKey| stored(n, k) implies n[place(n, k)].vnode == (if k == key {
        vnode
    } else {
        s[place(s, k)].vnode
    }) by {
        assert(holds(n, place(n, k), k));
        if k == key {
            assert(holds(n, t, k));
            assert(place(n, k) == t);
        } else {
            assert(holds(s, place(s, k), k));
            assert(holds(n, place(s, k), k));
            assert(n[place(n, k)].key == n[place(s, k)].key);
        }
    }
    assert(contents(n) =~= contents(s).insert(key, vnode));
}

proof fn lemma_replace(s: Seq<VnodeKeyIndexSlot>, cap: u32, t: int, key: VnodeKey, vnode: Handle)
    requires
        table_inv(s, cap),
        holds(s, t, key),
    ensures
        ({
            let n = s.update(t, VnodeKeyIndexSlot { key, vnode, state: SlotState::Full });
            &&& table_inv(n, cap)
            &&& contents(n) == contents(s).insert(key, vnode)
            &&& stored(s, key)
        }),
{
    let n = s.update(t, VnodeKeyIndexSlot { key, vnode, state: SlotState::Full });
    assert forall|p: int| #![trigger n[p]] 0 <= p < n.len() && n[p].state == SlotState::Full implies indexable(
        n[p].key,
    ) && reachable(n, cap, p) by {
        assert(s[p].state == SlotState::Full);
        assert(reachable(s, cap, p));
    }
    assert forall|p: int, q: int| #![trigger n[p], n[q]]
        0 <= p < n.len() && 0 <= q < n.len() && n[p].state == SlotState::Full && n[q].state
            == SlotState::Full && n[p].key == n[q].key implies p == q by {
        assert(s[p].key == s[q].key);
    }
    assert forall|k: VnodeKey, p: int| holds(n, p, k) <==> holds(s, p, k) by {}
    assert forall|k: VnodeKey| stored(n, k) <==> stored(s, k) by {
        if stored(s, k) {
            assert(holds(n, place(s, k), k));
        }
        if stored(n, k) {
            assert(holds(s, place(n, k), k));
        }
    }
    assert forall|k: VnodeKey| stored(n, k) implies n[place(n, k)].vnode == (if k == key {
        vnode
    } else {
        s[place(s, k)].vnode
    }) by {
        assert(holds(n, place(n, k), k));
        assert(holds(s, place(s, k), k));
        assert(holds(n, place(s, k), k));
        if k == key {
            assert(n[place(n, k)].key == n[t].key);
        } else {
            assert(n[place(n, k)].key == n[place(s, k)].key);
        }
    }
    assert(holds(s, t, key));
    assert(contents(n) =~= contents(s).insert(key, vnode));
}

proof fn lemma_bury(s: Seq<VnodeKeyIndexSlot>, cap: u32, t: int, key: VnodeKey)
    requires
        table_inv(s, cap),
        holds(s, t, key),
    ensures
        ({
            let n = s.update(
                t,
                VnodeKeyIndexSlot {
                    key: VnodeKey::invalid(),
                    vnode: Handle::invalid(),
                    state: SlotState::Tombstone,
                },
            );
            &&& table_inv(n, cap)
            &&& contents(n) == contents(s).remove(key)
            &&& stored(s, key)
            &&& contents(s)[key] == s[t].vnode
        }),
{
    let n = s.update(
        t,
        VnodeKeyIndexSlot {
            key: VnodeKey::invalid(),
            vnode: Handle::invalid(),
            state: SlotState::Tombstone,
        },
    );
    assert forall|p: int| #![trigger n[p]] 0 <= p < n.len() && n[p].state == SlotState::Full implies indexable(
        n[p].key,
    ) && reachable(n, cap, p) by {
        assert(s[p].state == SlotState::Full);
        assert(reachable(s, cap, p));
    }
    assert forall|p: int, q: int| #![trigger n[p], n[q]]
        0 <= p < n.len() && 0 <= q < n.len() && n[p].state == SlotState::Full && n[q].state
            == SlotState::Full && n[p].key == n[q].key implies p == q by {
        assert(s[p].key == s[q].key);
    }
    assert(holds(s, place(s, key), key));
    assert(s[place(s, key)].key == s[t].key);
    assert forall|k: VnodeKey| stored(n, k) <==> (stored(s, k) && k != key) by {
        if stored(n, k) {
            let p = place(n, k);
            assert(holds(n, p, k));
            assert(holds(s, p, k));
            if k == key {
                assert(s[p].key == s[t].key);
                assert(false);
            }
        }
        if stored(s, k) && k != key {
            assert(holds(s, place(s, k), k));
            assert(holds(n, place(s, k), k));
        }
    }
    assert forall|k: VnodeKey| stored(n, k) implies n[place(n, k)].vnode == s[place(s, k)].vnode by {
        assert(holds(n, place(n, k), k));
        assert(holds(s, place(n, k), k));
        assert(holds(s, place(s, k), k));
        assert(s[place(n, k)].key == s[place(s, k)].key);
    }
    assert(contents(n) =~= contents(s).remove(key));
}

impl View for VnodeKeyIndex {
    type V = Map<VnodeKey, Handle>;

    closed spec fn view(&self) -> Map<VnodeKey, Handle> {
        contents(self.slots@)
    }
}

impl VnodeKeyIndex {
    /// Number of keys that the table has room for.
    pub closed spec fn capacity(&self) -> u32 {
        if self.slots@.len() == 0 {
            0
        } else {
            self.cap
        }
    }

    /// Every stored key is found by probing from its home slot, and is stored once.
    #[verifier::type_invariant]
    spec fn wf(self) -> bool {
        self.slots@.len() == 0 || (self.cap > 0 && table_inv(self.slots@, self.cap))
    }

    /// An empty table; its capacity must be a power of two and at least eight.
    pub fn new(cap: u32) -> (r: Option<Self>)
        ensures
            r is Some <==> (cap >= 8 && cap & ((cap - 1) as u32) == 0),
            r matches Some(t) ==> t.capacity() == cap && t@ == Map::<
                VnodeKey,
                Handle,
            >::empty(),
    {
        if cap < 8 || (cap & (cap - 1)) != 0 {
            return None;
        }
        let mut slots: Vec<VnodeKeyIndexSlot> = Vec::new();
        let mut i: u32 = 0;
        while i < cap
            invariant
                i <= cap,
                slots@.len() == i,
                forall|p: int| 0 <= p < i ==> (#[trigger] slots@[p]) == VnodeKeyIndexSlot::zeroed(),
            decreases cap - i,
        {
            slots.push(VnodeKeyIndexSlot::zeroed());
            i = i + 1;
        }
        let t = VnodeKeyIndex { slots, cap };
        assert(t@ =~= Map::<VnodeKey, Handle>::empty()) by {
            assert forall|k: VnodeKey| !stored(t.slots@, k) by {
                if stored(t.slots@, k) {
                    assert(holds(t.slots@, place(t.slots@, k), k));
                }
            }
        }
        Some(t)
    }

    /// Whether a key can be put in the table at all.
    pub fn key_is_indexable(key: VnodeKey) -> (r: bool)
        ensures
            r == indexable(key),
    {
        key.fs_instance_id != FsInstanceId::invalid() && key.backend_id
            != BackendNodeId::invalid()
    }

    /// The word that decides where the search for a key starts.
    pub fn hash(key: VnodeKey) -> (r: u64)
        ensures
            r == spec_hash(key),
    {
        let ino: u64 = key.backend_id.ino;
        let a: u64 = key.fs_instance_id.0 ^ ((ino << 17) | (ino >> 47));
        let b: u64 = a ^ (key.backend_id.seq as u64).wrapping_mul(0x9E37_79B1);
        let c: u64 = (b ^ (b >> 33)).wrapping_mul(0xff51afd7ed558ccd);
        let d: u64 = (c ^ (c >> 33)).wrapping_mul(0xc4ceb9fe1a85ec53);
        d ^ (d >> 33)
    }

    fn write_slot(&mut self, at: usize, slot: VnodeKeyIndexSlot)
        requires
            old(self).cap > 0,
            at < old(self).slots@.len(),
            table_inv(old(self).slots@.update(at as int, slot), old(self).cap),
        ensures
            final(self).slots@ == old(self).slots@.update(at as int, slot),
            final(self).cap == old(self).cap,
    {
        let mut slots: Vec<VnodeKeyIndexSlot> = Vec::new();
        std::mem::swap(&mut self.slots, &mut slots);
        slots.set(at, slot);
        self.slots = slots;
    }

    fn home_slot(&self, key: VnodeKey) -> (r: usize)
        requires
            self.slots@.len() > 0,
        ensures
            r == home(key, self.cap),
            r < self.cap,
    {
        proof {
            use_type_invariant(self);
        }
        let mask: u64 = (self.cap - 1) as u64;
        let h: u64 = Self::hash(key);
        assert(h & mask <= mask) by (bit_vector);
        (h & mask) as usize
    }

    /// The handle stored under `key`.
    pub fn lookup(&self, key: VnodeKey) -> (r: Option<Handle>)
        ensures
            r == (if self@.contains_key(key) {
                Some(self@[key])
            } else {
                None
            }),
            !indexable(key) ==> r is None,
    {
        proof {
            use_type_invariant(self);
        }
        if self.slots.len() == 0 || !Self::key_is_indexable(key) {
            proof {
                if stored(self.slots@, key) {
                    assert(holds(self.slots@, place(self.slots@, key), key));
                }
            }
            return None;
        }
        let start: usize = self.home_slot(key);
        let mut idx: usize = start;
        let mut step: u32 = 0;
        while step < self.cap
            invariant
                self.slots@.len() > 0,
                self.wf(),
                start == home(key, self.cap),
                start < self.cap,
                step <= self.cap,
                step < self.cap ==> idx == step_to(start as int, step as int, self.cap as int),
                forall|j: int| #![trigger step_to(start as int, j, self.cap as int)]
                    0 <= j < step ==> {
                        let p = step_to(start as int, j, self.cap as int);
                        self.slots@[p].state != SlotState::Empty && !holds(self.slots@, p, key)
                    },
            decreases self.cap - step,
        {
            let slot = self.slots[idx];
            if slot.state == SlotState::Empty {
                proof {
                    if stored(self.slots@, key) {
                        let p = place(self.slots@, key);
                        assert(holds(self.slots@, p, key));
                        let d = steps_between(start as int, p, self.cap as int);
                        assert(step_to(start as int, d, self.cap as int) == p);
                        assert(reachable(self.slots@, self.cap, p));
                        if d > step {
                            assert(self.slots@[step_to(
                                start as int,
                                step as int,
                                self.cap as int,
                            )].state != SlotState::Empty);
                        }
                        assert(false);
                    }
                }
                return None;
            }
            if slot.state == SlotState::Full && slot.key == key {
                proof {
                    assert(holds(self.slots@, idx as int, key));
                    assert(holds(self.slots@, place(self.slots@, key), key));
                    assert(self.slots@[place(self.slots@, key)].key == self.slots@[idx as int].key);
                }
                return Some(slot.vnode);
            }
            idx = if idx + 1 == self.cap as usize {
                0
            } else {
                idx + 1
            };
            step = step + 1;
        }
        proof {
            if stored(self.slots@, key) {
                let p = place(self.slots@, key);
                assert(holds(self.slots@, p, key));
                let d = steps_between(start as int, p, self.cap as int);
                assert(step_to(start as int, d, self.cap as int) == p);
                assert(false);
            }
        }
        None
    }

    /// Stores `vnode` under `key`. Fails for keys and handles that name nothing, and when
    /// the key is new and every slot is taken.
    pub fn insert(&mut self, key: VnodeKey, vnode: Handle) -> (r: bool)
        ensures
            final(self).capacity() == old(self).capacity(),
            r <==> indexable(key) && vnode.is_valid() && (old(self)@.contains_key(key)
                || old(self)@.dom().len() < old(self).capacity()),
            final(self)@ == (if r {
                old(self)@.insert(key, vnode)
            } else {
                old(self)@
            }),
    {
        proof {
            use_type_invariant(&*self);
        }
        if !Self::key_is_indexable(key) || !vnode.is_valid() {
            return false;
        }
        if self.slots.len() == 0 {
            assert(!stored(self.slots@, key)) by {
                if stored(self.slots@, key) {
                    assert(holds(self.slots@, place(self.slots@, key), key));
                }
            }
            return false;
        }
        proof {
            lemma_cardinality(self.slots@, self.cap);
        }
        let start: usize = self.home_slot(key);
        let mut idx: usize = start;
        let mut step: u32 = 0;
        let mut first_tombstone: Option<usize> = None;
        let ghost mut tomb_step: int = 0;
        while step < self.cap
            invariant
                *self == *old(self),
                self.slots@.len() > 0,
                self.wf(),
                indexable(key),
                vnode.is_valid(),
                start == home(key, self.cap),
                start < self.cap,
                step <= self.cap,
                step < self.cap ==> idx == step_to(start as int, step as int, self.cap as int),
                contents(self.slots@).dom().len() == self.cap <==> forall|p: int|
                    0 <= p < self.cap ==> (#[trigger] self.slots@[p]).state == SlotState::Full,
                contents(self.slots@).dom().len() <= self.cap,
                match first_tombstone {
                    Some(t) => 0 <= tomb_step < step && t == step_to(
                        start as int,
                        tomb_step,
                        self.cap as int,
                    ) && self.slots@[t as int].state == SlotState::Tombstone,
                    None => true,
                },
                forall|j: int| #![trigger step_to(start as int, j, self.cap as int)]
                    0 <= j < step ==> {
                        let p = step_to(start as int, j, self.cap as int);
                        &&& self.slots@[p].state != SlotState::Empty
                        &&& !holds(self.slots@, p, key)
                        &&& first_tombstone is None ==> self.slots@[p].state == SlotState::Full
                    },
            decreases self.cap - step,
        {
            let slot = self.slots[idx];
            if slot.state == SlotState::Empty {
                proof {
                    if stored(self.slots@, key) {
                        let p = place(self.slots@, key);
                        assert(holds(self.slots@, p, key));
                        let d = steps_between(start as int, p, self.cap as int);
                        assert(step_to(start as int, d, self.cap as int) == p);
                        assert(reachable(self.slots@, self.cap, p));
                        if d > step {
                            assert(self.slots@[step_to(
                                start as int,
                                step as int,
                                self.cap as int,
                            )].state != SlotState::Empty);
                        }
                        assert(false);
                    }
                    assert(self.slots@[idx as int].state != SlotState::Full);
                }
                let target: usize = match first_tombstone {
                    Some(t) => t,
                    None => idx,
                };
                proof {
                    let i = if first_tombstone is Some {
                        tomb_step
                    } else {
                        step as int
                    };
                    lemma_store(self.slots@, self.cap, target as int, key, vnode, start as int, i);
                }
                self.write_slot(target, VnodeKeyIndexSlot { key, vnode, state: SlotState::Full });
                return true;
            }
            if slot.state == SlotState::Tombstone {
                if first_tombstone.is_none() {
                    first_tombstone = Some(idx);
                    proof {
                        tomb_step = step as int;
                    }
                }
            } else if slot.key == key {
                proof {
                    assert(holds(self.slots@, idx as int, key));
                    lemma_replace(self.slots@, self.cap, idx as int, key, vnode);
                }
                self.write_slot(idx, VnodeKeyIndexSlot { key, vnode, state: SlotState::Full });
                return true;
            }
            idx = if idx + 1 == self.cap as usize {
                0
            } else {
                idx + 1
            };
            step = step + 1;
        }
        proof {
            if stored(self.slots@, key) {
                let p = place(self.slots@, key);
                assert(holds(self.slots@, p, key));
                let d = steps_between(start as int, p, self.cap as int);
                assert(step_to(start as int, d, self.cap as int) == p);
                assert(false);
            }
        }
        if let Some(t) = first_tombstone {
            proof {
                assert(self.slots@[t as int].state != SlotState::Full);
                lemma_store(self.slots@, self.cap, t as int, key, vnode, start as int, tomb_step);
            }
            self.write_slot(t, VnodeKeyIndexSlot { key, vnode, state: SlotState::Full });
            return true;
        }
        proof {
            assert forall|p: int| 0 <= p < self.cap implies (#[trigger] self.slots@[p]).state
                == SlotState::Full by {
                let d = steps_between(start as int, p, self.cap as int);
                assert(step_to(start as int, d, self.cap as int) == p);
            }
        }
        false
    }

    /// Drops `key`. With an expected handle, only when that handle is stored.
    pub fn remove(&mut self, key: VnodeKey, vnode: Option<Handle>) -> (r: bool)
        ensures
            final(self).capacity() == old(self).capacity(),
            r <==> old(self)@.contains_key(key) && (vnode matches Some(v) ==> old(self)@[key] == v),
            final(self)@ == (if r {
                old(self)@.remove(key)
            } else {
                old(self)@
            }),
    {
        proof {
            use_type_invariant(&*self);
        }
        if self.slots.len() == 0 || !Self::key_is_indexable(key) {
            proof {
                if stored(self.slots@, key) {
                    assert(holds(self.slots@, place(self.slots@, key), key));
                }
            }
            return false;
        }
        let start: usize = self.home_slot(key);
        let mut idx: usize = start;
        let mut step: u32 = 0;
        while step < self.cap
            invariant
                *self == *old(self),
                self.slots@.len() > 0,
                self.wf(),
                start == home(key, self.cap),
                start < self.cap,
                step <= self.cap,
                step < self.cap ==> idx == step_to(start as int, step as int, self.cap as int),
                forall|j: int| #![trigger step_to(start as int, j, self.cap as int)]
                    0 <= j < step ==> {
                        let p = step_to(start as int, j, self.cap as int);
                        &&& self.slots@[p].state != SlotState::Empty
                        &&& holds(self.slots@, p, key) ==> vnode is Some && vnode->0
                            != self.slots@[p].vnode
                    },
            decreases self.cap - step,
        {
            let slot = self.slots[idx];
            if slot.state == SlotState::Empty {
                proof {
                    if stored(self.slots@, key) {
                        let p = place(self.slots@, key);
                        assert(holds(self.slots@, p, key));
                        let d = steps_between(start as int, p, self.cap as int);
                        assert(step_to(start as int, d, self.cap as int) == p);
                        assert(reachable(self.slots@, self.cap, p));
                        if d > step {
                            assert(self.slots@[step_to(
                                start as int,
                                step as int,
                                self.cap as int,
                            )].state != SlotState::Empty);
                        }
                    }
                }
                return false;
            }
            if slot.state == SlotState::Full && slot.key == key {
                let matched: bool = match vnode {
                    Some(expected) => slot.vnode == expected,
                    None => true,
                };
                if matched {
                    proof {
                        assert(holds(self.slots@, idx as int, key));
                        lemma_bury(self.slots@, self.cap, idx as int, key);
                    }
                    self.write_slot(
                        idx,
                        VnodeKeyIndexSlot {
                            key: VnodeKey::invalid(),
                            vnode: Handle::invalid(),
                            state: SlotState::Tombstone,
                        },
                    );
                    return true;
                }
            }
            idx = if idx + 1 == self.cap as usize {
                0
            } else {
                idx + 1
            };
            step = step + 1;
        }
        proof {
            if stored(self.slots@, key) {
                let p = place(self.slots@, key);
                assert(holds(self.slots@, p, key));
                let d = steps_between(start as int, p, self.cap as int);
                assert(step_to(start as int, d, self.cap as int) == p);
            }
        }
        false
    }
}

} // verus!
