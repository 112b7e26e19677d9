//! Bounded queues.

use vstd::prelude::*;

use crate::bytes::least;
use crate::vnode_index::step_to;

verus! {

/// Number of entries between two positions of a ring with `cap` slots.
pub open spec fn distance(head: int, tail: int, cap: int) -> int {
    if tail >= head {
        tail - head
    } else {
        cap - head + tail
    }
}

/// Queue of values in a ring of `cap` slots, of which one always stays free.
pub struct Ring<T> {
    slots: Vec<Option<T>>,
    head: u32,
    tail: u32,
}

impl<T> View for Ring<T> {
    type V = Seq<T>;

    closed spec fn view(&self) -> Seq<T> {
        Seq::new(
            distance(self.head as int, self.tail as int, self.slots@.len() as int) as nat,
            |i: int|
                self.slots@[step_to(self.head as int, i, self.slots@.len() as int)]->0,
        )
    }
}

impl<T> Ring<T> {
    /// How many values fit.
    pub closed spec fn capacity(&self) -> int {
        self.slots@.len() - 1
    }

    /// The positions lie in the ring and every queued slot holds a value.
    pub closed spec fn wf(&self) -> bool {
        &&& 1 <= self.slots@.len() <= u32::MAX
        &&& self.head < self.slots@.len()
        &&& self.tail < self.slots@.len()
        &&& forall|i: int|
            0 <= i < distance(self.head as int, self.tail as int, self.slots@.len() as int)
                ==> self.slots@[#[trigger] step_to(
                self.head as int,
                i,
                self.slots@.len() as int,
            )] is Some
    }

    /// An empty ring of `cap` slots.
    pub fn new(cap: u32) -> (r: Ring<T>)
        requires
            cap >= 1,
        ensures
            r.wf(),
            r.capacity() == cap - 1,
            r@ == Seq::<T>::empty(),
    {
        let mut slots: Vec<Option<T>> = Vec::new();
        let mut i: u32 = 0;
        while i < cap
            invariant
                i <= cap,
                slots@.len() == i,
            decreases cap - i,
        {
            slots.push(None);
            i = i + 1;
        }
        let r = Ring { slots, head: 0, tail: 0 };
        assert(r@ =~= Seq::<T>::empty());
        r
    }

    /// Appends a value; `false` when the ring is full.
    pub fn push(&mut self, value: T) -> (r: bool)
        requires
            old(self).wf(),
        ensures
            final(self).wf(),
            final(self).capacity() == old(self).capacity(),
            r == (old(self)@.len() < old(self).capacity()),
            final(self)@ == (if r {
                old(self)@.push(value)
            } else {
                old(self)@
            }),
    {
        let cap: u32 = self.slots.len() as u32;
        let next: u32 = if self.tail + 1 == cap {
            0
        } else {
            self.tail + 1
        };
        if next == self.head {
            return false;
        }
        let at: usize = self.tail as usize;
        self.slots.set(at, Some(value));
        self.tail = next;
        proof {
            let n = old(self)@.len() as int;
            assert(step_to(self.head as int, n, cap as int) == at);
            assert forall|i: int| 0 <= i < n implies step_to(self.head as int, i, cap as int) != at by {}
            assert(self@ =~= old(self)@.push(value));
        }
        true
    }

    /// Removes the oldest value; `None` when the ring is empty.
    pub fn pop(&mut self) -> (r: Option<T>)
        requires
            old(self).wf(),
        ensures
            final(self).wf(),
            final(self).capacity() == old(self).capacity(),
            match r {
                Some(v) => {
                    &&& old(self)@.len() > 0
                    &&& v == old(self)@[0]
                    &&& final(self)@ == old(self)@.skip(1)
                },
                None => old(self)@.len() == 0 && final(self)@ == old(self)@,
            },
    {
        if self.head == self.tail {
            return None;
        }
        let cap: u32 = self.slots.len() as u32;
        let at: usize = self.head as usize;
        assert(step_to(self.head as int, 0, cap as int) == at);
        let value = self.slots[at].take();
        self.head = if self.head + 1 == cap {
            0
        } else {
            self.head + 1
        };
        proof {
            assert forall|i: int|
                0 <= i < distance(self.head as int, self.tail as int, cap as int) implies #[trigger] step_to(
                self.head as int,
                i,
                cap as int,
            ) == step_to(old(self).head as int, i + 1, cap as int) && step_to(
                self.head as int,
                i,
                cap as int,
            ) != at by {}
            assert(self@ =~= old(self)@.skip(1));
        }
        value
    }
}

/// How many bytes of `s` fit into a queue of at most `room` bytes.
pub open spec fn fitting(q: Seq<u8>, room: int, s: Seq<u8>) -> int {
    least(s.len() as int, room - q.len())
}

/// A queue of at most `room` bytes after `s` was written to it.
pub open spec fn fed(q: Seq<u8>, room: int, s: Seq<u8>) -> Seq<u8> {
    q + s.take(fitting(q, room, s))
}

/// The first `n` bytes of a queue, or all of them.
pub open spec fn front(q: Seq<u8>, n: int) -> Seq<u8> {
    q.take(least(n, q.len() as int))
}

/// A queue after its first `n` bytes, or all of them, were read.
pub open spec fn drained(q: Seq<u8>, n: int) -> Seq<u8> {
    q.skip(least(n, q.len() as int))
}

/// Queue of bytes in a ring of fixed size, of which one byte always stays free.
pub struct ByteRing {
    data: Vec<u8>,
    head: u16,
    tail: u16,
}

impl View for ByteRing {
    type V = Seq<u8>;

    closed spec fn view(&self) -> Seq<u8> {
        Seq::new(
            distance(self.tail as int, self.head as int, self.data@.len() as int) as nat,
            |i: int| self.data@[step_to(self.tail as int, i, self.data@.len() as int)],
        )
    }
}

impl ByteRing {
    /// How many bytes fit.
    pub closed spec fn capacity(&self) -> int {
        self.data@.len() - 1
    }

    /// The positions lie in the ring.
    #[verifier::type_invariant]
    spec fn wf(self) -> bool {
        &&& 1 <= self.data@.len() <= u16::MAX
        &&& self.head < self.data@.len()
        &&& self.tail < self.data@.len()
    }

    /// An empty ring of `size` bytes.
    pub fn new(size: u16) -> (r: ByteRing)
        requires
            size >= 1,
        ensures
            r.capacity() == size - 1,
            r@ == Seq::<u8>::empty(),
    {
        let mut data: Vec<u8> = Vec::new();
        let mut i: u16 = 0;
        while i < size
            invariant
                i <= size,
                data@.len() == i,
            decreases size - i,
        {
            data.push(0);
            i = i + 1;
        }
        let r = ByteRing { data, head: 0, tail: 0 };
        assert(r@ =~= Seq::<u8>::empty());
        r
    }

    /// Number of queued bytes.
    pub fn len(&self) -> (r: u16)
        ensures
            r == self@.len(),
            r <= self.capacity(),
    {
        proof {
            use_type_invariant(self);
        }
        if self.head >= self.tail {
            self.head - self.tail
        } else {
            (self.data.len() as u16 - self.tail) + self.head
        }
    }

    /// Number of bytes that still fit.
    pub fn free(&self) -> (r: u16)
        ensures
            r == self.capacity() - self@.len(),
    {
        proof {
            use_type_invariant(self);
        }
        (self.data.len() as u16 - 1) - self.len()
    }

    /// Appends as many bytes of `src` as fit and says how many.
    pub fn write(&mut self, src: &[u8]) -> (r: usize)
        ensures
            final(self).capacity() == old(self).capacity(),
            r == fitting(old(self)@, old(self).capacity(), src@),
            final(self)@ == fed(old(self)@, old(self).capacity(), src@),
    {
        proof {
            use_type_invariant(&*self);
        }
        let room: usize = self.free() as usize;
        let actual: usize = if src.len() <= room {
            src.len()
        } else {
            room
        };
        let size: u16 = self.data.len() as u16;
        let mut i: usize = 0;
        assert(src@.take(0) =~= Seq::<u8>::empty());
        assert(self@ =~= old(self)@ + src@.take(0));
        while i < actual
            invariant
                self.wf(),
                size == self.data@.len(),
                self.data@.len() == old(self).data@.len(),
                i <= actual <= src@.len(),
                old(self)@.len() + actual <= size - 1,
                self@ == old(self)@ + src@.take(i as int),
            decreases actual - i,
        {
            let at: usize = self.head as usize;
            let ghost before = self@;
            let ghost before_ring = *self;
            self.data[at] = src[i];
            self.head = if self.head + 1 == size {
                0
            } else {
                self.head + 1
            };
            proof {
                let n = before.len() as int;
                assert(n == old(self)@.len() + i);
                assert(step_to(self.tail as int, n, size as int) == at);
                assert(self@ =~= before.push(src@[i as int]));
                assert(src@.take(i + 1) =~= src@.take(i as int).push(src@[i as int]));
                assert(self@ =~= old(self)@ + src@.take(i + 1));
            }
            i = i + 1;
        }
        actual
    }

    /// The first `len` queued bytes, or all of them; the queue is unchanged.
    pub fn peek(&self, len: usize) -> (r: Vec<u8>)
        ensures
            r@ == front(self@, len as int),
    {
        proof {
            use_type_invariant(self);
        }
        let avail: usize = self.len() as usize;
        let actual: usize = if len <= avail {
            len
        } else {
            avail
        };
        let size: u16 = self.data.len() as u16;
        let mut out: Vec<u8> = Vec::new();
        let mut at: u16 = self.tail;
        let mut i: usize = 0;
        while i < actual
            invariant
                self.wf(),
                size == self.data@.len(),
                i <= actual <= self@.len(),
                i < actual ==> at == step_to(self.tail as int, i as int, size as int),
                out@ == self@.take(i as int),
            decreases actual - i,
        {
            out.push(self.data[at as usize]);
            assert(out@ =~= self@.take(i + 1));
            at = if at + 1 == size {
                0
            } else {
                at + 1
            };
            i = i + 1;
        }
        out
    }

    /// Removes and returns the first `len` queued bytes, or all of them.
    pub fn read(&mut self, len: usize) -> (r: Vec<u8>)
        ensures
            final(self).capacity() == old(self).capacity(),
            r@ == front(old(self)@, len as int),
            final(self)@ == drained(old(self)@, len as int),
    {
        proof {
            use_type_invariant(&*self);
        }
        let out: Vec<u8> = self.peek(len);
        let n: usize = out.len();
        let size: usize = self.data.len();
        let moved: usize = self.tail as usize + n;
        self.tail = if moved >= size {
            (moved - size) as u16
        } else {
            moved as u16
        };
        proof {
            assert(self@.len() == old(self)@.len() - n);
            assert(self@ =~= old(self)@.skip(n as int));
        }
        out
    }
}

/// Bytes come out of a queue in the order in which they went in, and none is lost or
/// repeated: after `s` was written to queue `q`, two reads one after the other give the
/// beginning of what was queued followed by what was taken of `s`, and the queue never
/// holds more than its room.
pub proof fn law_bytes_come_out_in_order(q: Seq<u8>, room: int, s: Seq<u8>, n: int, k: int)
    requires
        q.len() <= room,
        0 <= n,
        0 <= k,
    ensures
        fed(q, room, s).len() <= room,
        front(fed(q, room, s), n) + front(drained(fed(q, room, s), n), k) == front(
            q + s.take(fitting(q, room, s)),
            n + k,
        ),
        front(fed(q, room, s), n) + drained(fed(q, room, s), n) == fed(q, room, s),
{
    let f = fed(q, room, s);
    assert(front(f, n) + front(drained(f, n), k) =~= front(f, n + k));
    assert(front(f, n) + drained(f, n) =~= f);
}

} // verus!
