//! Text that is built up piece by piece into a buffer of fixed size.

use crate::bytes::{decimal, prefix, push_decimal, DIGIT_ZERO};
use vstd::prelude::*;
use vstd::string::*;

verus! {

/// Text of which at most the first `room` bytes are kept. Its view is all that was
/// appended.
pub struct Text {
    kept: Vec<u8>,
    room: usize,
    whole: Ghost<Seq<u8>>,
}

impl View for Text {
    type V = Seq<u8>;

    closed spec fn view(&self) -> Seq<u8> {
        self.whole@
    }
}

impl Text {
    /// How many bytes are kept.
    pub closed spec fn room(&self) -> int {
        self.room as int
    }

    /// The first bytes are kept.
    #[verifier::type_invariant]
    spec fn wf(self) -> bool {
        self.kept@ == prefix(self.whole@, self.room as int)
    }

    /// No text yet.
    pub fn new(room: usize) -> (r: Text)
        ensures
            r@ == Seq::<u8>::empty(),
            r.room() == room,
    {
        let kept: Vec<u8> = Vec::new();
        assert(kept@ =~= prefix(Seq::<u8>::empty(), room as int));
        Text { kept, room, whole: Ghost(Seq::empty()) }
    }

    /// A literal to begin with.
    pub fn of(room: usize, s: &str) -> (r: Text)
        ensures
            r@ == s.spec_bytes(),
            r.room() == room,
    {
        let r = Text::new(room).lit(s);
        assert(r@ =~= s.spec_bytes());
        r
    }

    /// The text with `s` appended.
    pub fn bytes(self, s: &[u8]) -> (r: Text)
        ensures
            r@ == self@ + s@,
            r.room() == self.room(),
    {
        proof {
            use_type_invariant(&self);
        }
        let Text { mut kept, room, whole } = self;
        let ghost before = kept@;
        let mut i: usize = 0;
        assert(s@.take(0) =~= Seq::<u8>::empty());
        assert(kept@ =~= prefix(whole@ + s@.take(0), room as int));
        while i < s.len() && kept.len() < room
            invariant
                i <= s@.len(),
                kept@.len() <= room,
                kept@ == prefix(whole@ + s@.take(i as int), room as int),
            decreases s@.len() - i,
        {
            kept.push(s[i]);
            assert(s@.take(i + 1) =~= s@.take(i as int).push(s@[i as int]));
            assert(kept@ =~= prefix(whole@ + s@.take(i + 1), room as int));
            i = i + 1;
        }
        let ghost all = whole@ + s@;
        assert(kept@ =~= prefix(all, room as int)) by {
            assert(s@.take(s@.len() as int) =~= s@);
        }
        Text { kept, room, whole: Ghost(all) }
    }

    /// The text with a literal appended.
    pub fn lit(self, s: &str) -> (r: Text)
        ensures
            r@ == self@ + s.spec_bytes(),
            r.room() == self.room(),
    {
        self.bytes(s.as_bytes())
    }

    /// The text with a number appended in base ten.
    pub fn num(self, n: u64) -> (r: Text)
        ensures
            r@ == self@ + decimal(n as nat),
            r.room() == self.room(),
    {
        let mut digits: Vec<u8> = Vec::new();
        push_decimal(&mut digits, n);
        assert(digits@ =~= decimal(n as nat));
        self.bytes(digits.as_slice())
    }

    /// The text with one byte appended.
    pub fn byte(self, b: u8) -> (r: Text)
        ensures
            r@ == self@ + seq![b],
            r.room() == self.room(),
    {
        let mut one: Vec<u8> = Vec::new();
        one.push(b);
        assert(one@ =~= seq![b]);
        self.bytes(one.as_slice())
    }

    /// The bytes that were kept.
    pub fn finish(self) -> (r: Vec<u8>)
        ensures
            r@ == prefix(self@, self.room()),
    {
        proof {
            use_type_invariant(&self);
        }
        self.kept
    }

    /// Whether more would be dropped.
    pub fn is_full(&self) -> (r: bool)
        ensures
            r == (self@.len() >= self.room()),
    {
        proof {
            use_type_invariant(self);
        }
        self.kept.len() >= self.room
    }
}

/// Two decimal digits of a number below one hundred.
pub open spec fn two_digits(n: int) -> Seq<u8> {
    seq![(DIGIT_ZERO + n / 10) as u8, (DIGIT_ZERO + n % 10) as u8]
}

impl Text {
    /// The text with a number below one hundred appended in two digits.
    pub fn two(self, n: u64) -> (r: Text)
        requires
            n < 100,
        ensures
            r@ == self@ + two_digits(n as int),
            r.room() == self.room(),
    {
        let t = self.byte(DIGIT_ZERO + (n / 10) as u8).byte(DIGIT_ZERO + (n % 10) as u8);
        assert(t@ =~= self@ + two_digits(n as int));
        t
    }
}

} // verus!
