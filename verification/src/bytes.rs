//! Byte strings: comparison, copying, decimal numbers and option lists.

use vstd::prelude::*;
use vstd::slice::slice_subrange;
use vstd::slice::slice_to_vec;

verus! {

pub const SLASH: u8 = 47;

pub const DOT: u8 = 46;

pub const NEWLINE: u8 = 10;

pub const TAB: u8 = 9;

pub const SPACE: u8 = 32;

pub const MINUS: u8 = 45;

pub const COMMA: u8 = 44;

pub const EQUALS: u8 = 61;

pub const DIGIT_ZERO: u8 = 48;

pub const DIGIT_NINE: u8 = 57;

/// The smaller of two lengths.
pub open spec fn least(a: int, b: int) -> int {
    if a <= b {
        a
    } else {
        b
    }
}

/// The first `n` bytes, or all of them when there are fewer.
pub open spec fn prefix(s: Seq<u8>, n: int) -> Seq<u8> {
    s.take(least(s.len() as int, n))
}

/// Whether two byte strings are equal.
pub fn bytes_eq(x: &[u8], y: &[u8]) -> (r: bool)
    ensures
        r == (x@ == y@),
{
    if x.len() != y.len() {
        return false;
    }
    let mut i: usize = 0;
    while i < x.len()
        invariant
            i <= x@.len(),
            x@.len() == y@.len(),
            forall|j: int| 0 <= j < i ==> x@[j] == y@[j],
        decreases x@.len() - i,
    {
        if x[i] != y[i] {
            return false;
        }
        i = i + 1;
    }
    assert(x@ =~= y@);
    true
}

/// An ASCII capital letter in lower case, any other byte unchanged.
pub open spec fn folded(b: u8) -> u8 {
    if 65 <= b <= 90 {
        (b + 32) as u8
    } else {
        b
    }
}

/// Two names are the same entry: equal, or equal up to ASCII case where case is folded.
pub open spec fn same_name(x: Seq<u8>, y: Seq<u8>, fold: bool) -> bool {
    if fold {
        x.map_values(|b: u8| folded(b)) == y.map_values(|b: u8| folded(b))
    } else {
        x == y
    }
}

fn fold_byte(b: u8) -> (r: u8)
    ensures
        r == folded(b),
{
    if 65 <= b && b <= 90 {
        b + 32
    } else {
        b
    }
}

/// Whether two names denote the same entry.
pub fn name_eq(x: &[u8], y: &[u8], fold: bool) -> (r: bool)
    ensures
        r == same_name(x@, y@, fold),
{
    if !fold {
        return bytes_eq(x, y);
    }
    let ghost fx = x@.map_values(|b: u8| folded(b));
    let ghost fy = y@.map_values(|b: u8| folded(b));
    if x.len() != y.len() {
        assert(fx.len() != fy.len());
        return false;
    }
    let mut i: usize = 0;
    while i < x.len()
        invariant
            i <= x@.len(),
            x@.len() == y@.len(),
            fx == x@.map_values(|b: u8| folded(b)),
            fy == y@.map_values(|b: u8| folded(b)),
            forall|j: int| 0 <= j < i ==> fx[j] == fy[j],
        decreases x@.len() - i,
    {
        if fold_byte(x[i]) != fold_byte(y[i]) {
            assert(fx[i as int] != fy[i as int]);
            return false;
        }
        i = i + 1;
    }
    assert(fx =~= fy);
    true
}

/// Sameness of names is reflexive, symmetric and transitive, whether or not case counts.
pub proof fn law_same_name_is_equivalence(x: Seq<u8>, y: Seq<u8>, z: Seq<u8>, fold: bool)
    ensures
        same_name(x, x, fold),
        same_name(x, y, fold) == same_name(y, x, fold),
        same_name(x, y, fold) && same_name(y, z, fold) ==> same_name(x, z, fold),
        same_name(x, y, false) ==> same_name(x, y, true),
{
}

/// Where case counts, names are the same only when they are equal. Where it does not, they
/// are the same when they are as long as each other and differ, byte by byte, at most in the
/// case of a letter.
pub proof fn law_names_differ_in_case_at_most(x: Seq<u8>, y: Seq<u8>)
    ensures
        same_name(x, y, false) <==> x == y,
        same_name(x, y, true) <==> x.len() == y.len() && forall|i: int|
            0 <= i < x.len() ==> {
                ||| #[trigger] x[i] == y[i]
                ||| 65 <= x[i] <= 90 && y[i] == x[i] + 32
                ||| 65 <= y[i] <= 90 && x[i] == y[i] + 32
            },
{
    let fx = x.map_values(|b: u8| folded(b));
    let fy = y.map_values(|b: u8| folded(b));
    if same_name(x, y, true) {
        assert(fx.len() == fy.len());
        assert forall|i: int| 0 <= i < x.len() implies {
            ||| #[trigger] x[i] == y[i]
            ||| 65 <= x[i] <= 90 && y[i] == x[i] + 32
            ||| 65 <= y[i] <= 90 && x[i] == y[i] + 32
        } by {
            assert(fx[i] == folded(x[i]) && fy[i] == folded(y[i]));
        }
    }
    if x.len() == y.len() && forall|i: int|
        0 <= i < x.len() ==> {
            ||| #[trigger] x[i] == y[i]
            ||| 65 <= x[i] <= 90 && y[i] == x[i] + 32
            ||| 65 <= y[i] <= 90 && x[i] == y[i] + 32
        } {
        assert(fx =~= fy);
    }
}

/// A copy of the first `n` bytes of `s`, or of all of it.
pub fn copy_prefix(s: &[u8], n: usize) -> (r: Vec<u8>)
    ensures
        r@ == prefix(s@, n as int),
{
    if s.len() <= n {
        assert(s@.take(s@.len() as int) =~= s@);
        slice_to_vec(s)
    } else {
        slice_to_vec(slice_subrange(s, 0, n))
    }
}

/// Appends `src` to `dst`.
pub fn push_bytes(dst: &mut Vec<u8>, src: &[u8])
    ensures
        final(dst)@ == old(dst)@ + src@,
{
    let mut i: usize = 0;
    while i < src.len()
        invariant
            i <= src@.len(),
            dst@ == old(dst)@ + src@.take(i as int),
        decreases src@.len() - i,
    {
        dst.push(src[i]);
        assert(src@.take(i + 1) =~= src@.take(i as int).push(src@[i as int]));
        i = i + 1;
    }
    assert(src@.take(src@.len() as int) =~= src@);
}

/// The bytes of `s` from `i` up to `j`.
pub fn cut(s: &[u8], i: usize, j: usize) -> (r: &[u8])
    requires
        i <= j <= s@.len(),
    ensures
        r@ == s@.subrange(i as int, j as int),
{
    slice_subrange(s, i, j)
}

/// Whether `s` starts with `p`.
pub fn has_prefix(s: &[u8], p: &[u8]) -> (r: bool)
    ensures
        r == p@.is_prefix_of(s@),
{
    if s.len() < p.len() {
        return false;
    }
    let head = cut(s, 0, p.len());
    let r = bytes_eq(head, p);
    r
}

/// Whether byte `b` occurs in `s`.
pub fn has_byte(s: &[u8], b: u8) -> (r: bool)
    ensures
        r == s@.contains(b),
{
    let mut i: usize = 0;
    while i < s.len()
        invariant
            i <= s@.len(),
            forall|j: int| 0 <= j < i ==> s@[j] != b,
        decreases s@.len() - i,
    {
        if s[i] == b {
            return true;
        }
        i = i + 1;
    }
    false
}

// ---- decimal numbers -------------------------------------------------------------

/// An ASCII digit.
pub open spec fn is_digit(b: u8) -> bool {
    DIGIT_ZERO <= b <= DIGIT_NINE
}

/// Only digits.
pub open spec fn all_digits(s: Seq<u8>) -> bool {
    forall|i: int| 0 <= i < s.len() ==> is_digit(#[trigger] s[i])
}

/// The number that a string of digits writes in base ten.
pub open spec fn number(s: Seq<u8>) -> nat
    decreases s.len(),
{
    if s.len() == 0 {
        0
    } else {
        number(s.drop_last()) * 10 + (s.last() - DIGIT_ZERO) as nat
    }
}

/// The base-ten digits of `n`, without leading zeros; `0` for zero.
pub open spec fn decimal(n: nat) -> Seq<u8>
    decreases n,
{
    if n < 10 {
        seq![(DIGIT_ZERO + n) as u8]
    } else {
        decimal(n / 10).push((DIGIT_ZERO + n % 10) as u8)
    }
}

/// A prefix of a digit string writes a number no larger than the whole.
pub proof fn lemma_number_prefix(s: Seq<u8>, k: int)
    requires
        all_digits(s),
        0 <= k <= s.len(),
    ensures
        number(s.take(k)) <= number(s),
    decreases s.len(),
{
    if k < s.len() {
        let t = s.drop_last();
        assert(t.take(k) =~= s.take(k));
        assert(all_digits(t));
        lemma_number_prefix(t, k);
        assert(is_digit(s[s.len() - 1]));
    } else {
        assert(s.take(k) =~= s);
    }
}

/// Reading a number back gives what was written, and only digits are written.
pub proof fn law_decimal_round_trip(n: nat)
    ensures
        all_digits(decimal(n)),
        decimal(n).len() > 0,
        number(decimal(n)) == n,
    decreases n,
{
    if n < 10 {
        assert(decimal(n).drop_last() =~= Seq::<u8>::empty());
        assert(number(Seq::<u8>::empty()) == 0);
    } else {
        law_decimal_round_trip(n / 10);
        assert(decimal(n).drop_last() =~= decimal(n / 10));
        assert(n == (n / 10) * 10 + n % 10);
    }
}

/// What reading a decimal number of at most `max` gives.
pub open spec fn parsed(s: Seq<u8>, max: nat) -> Option<nat> {
    if s.len() > 0 && all_digits(s) && number(s) <= max {
        Some(number(s))
    } else {
        None
    }
}

/// Reads a decimal number that fits in 64 bits: only digits, and at least one.
pub fn parse_decimal(value: &[u8]) -> (r: Option<u64>)
    ensures
        match r {
            Some(v) => parsed(value@, u64::MAX as nat) == Some(v as nat),
            None => parsed(value@, u64::MAX as nat) is None,
        },
{
    if value.len() == 0 {
        return None;
    }
    let mut acc: u64 = 0;
    let mut i: usize = 0;
    while i < value.len()
        invariant
            i <= value@.len(),
            forall|j: int| 0 <= j < i ==> is_digit(#[trigger] value@[j]),
            acc == number(value@.take(i as int)),
        decreases value@.len() - i,
    {
        let b: u8 = value[i];
        if b < DIGIT_ZERO || b > DIGIT_NINE {
            assert(!is_digit(value@[i as int]));
            return None;
        }
        let ghost head = value@.take(i + 1);
        assert(head.drop_last() =~= value@.take(i as int));
        assert(number(head) == acc * 10 + (b - DIGIT_ZERO));
        let digit: u64 = (b - DIGIT_ZERO) as u64;
        if acc > (u64::MAX - digit) / 10 {
            proof {
                if all_digits(value@) {
                    lemma_number_prefix(value@, i + 1);
                }
            }
            return None;
        }
        acc = acc * 10 + digit;
        i = i + 1;
    }
    assert(value@.take(value@.len() as int) =~= value@);
    Some(acc)
}

/// Reads a decimal number that fits in 32 bits.
pub fn parse_decimal_u32(value: &[u8]) -> (r: Option<u32>)
    ensures
        match r {
            Some(v) => parsed(value@, u32::MAX as nat) == Some(v as nat),
            None => parsed(value@, u32::MAX as nat) is None,
        },
{
    match parse_decimal(value) {
        Some(v) => {
            if v <= u32::MAX as u64 {
                Some(v as u32)
            } else {
                None
            }
        },
        None => None,
    }
}

/// Appends the base-ten digits of `n`.
pub fn push_decimal(dst: &mut Vec<u8>, n: u64)
    ensures
        final(dst)@ == old(dst)@ + decimal(n as nat),
    decreases n,
{
    if n < 10 {
        dst.push(DIGIT_ZERO + n as u8);
        assert(dst@ =~= old(dst)@ + decimal(n as nat));
    } else {
        push_decimal(dst, n / 10);
        let ghost mid = dst@;
        dst.push(DIGIT_ZERO + (n % 10) as u8);
        assert(dst@ =~= old(dst)@ + decimal(n as nat));
    }
}

// ---- option lists ----------------------------------------------------------------

/// Position of the first `b` in `s`, or the length of `s`.
pub open spec fn first_at(s: Seq<u8>, b: u8) -> int
    decreases s.len(),
{
    if s.len() == 0 {
        0
    } else if s[0] == b {
        0
    } else {
        1 + first_at(s.drop_first(), b)
    }
}

proof fn lemma_first_at(s: Seq<u8>, b: u8)
    ensures
        0 <= first_at(s, b) <= s.len(),
        first_at(s, b) < s.len() ==> s[first_at(s, b)] == b,
        forall|i: int| 0 <= i < first_at(s, b) ==> s[i] != b,
    decreases s.len(),
{
    if s.len() > 0 && s[0] != b {
        let t = s.drop_first();
        lemma_first_at(t, b);
        assert forall|i: int| 0 <= i < first_at(s, b) implies s[i] != b by {
            if i > 0 {
                assert(t[i - 1] == s[i]);
            }
        }
    }
}

proof fn lemma_first_at_unique(s: Seq<u8>, b: u8, k: int)
    requires
        0 <= k <= s.len(),
        k < s.len() ==> s[k] == b,
        forall|i: int| 0 <= i < k ==> s[i] != b,
    ensures
        first_at(s, b) == k,
{
    lemma_first_at(s, b);
}

/// Position of the first `b` in `s`, or the length of `s`.
pub fn find_byte(s: &[u8], b: u8) -> (r: usize)
    ensures
        r == first_at(s@, b),
        r <= s@.len(),
        r < s@.len() ==> s@[r as int] == b,
        forall|i: int| 0 <= i < r ==> s@[i] != b,
{
    let mut i: usize = 0;
    while i < s.len()
        invariant_except_break
            i <= s@.len(),
            forall|j: int| 0 <= j < i ==> s@[j] != b,
        ensures
            i <= s@.len(),
            i < s@.len() ==> s@[i as int] == b,
            forall|j: int| 0 <= j < i ==> s@[j] != b,
        decreases s@.len() - i,
    {
        if s[i] == b {
            break;
        }
        i = i + 1;
    }
    proof {
        lemma_first_at_unique(s@, b, i as int);
    }
    i
}

/// The pieces of `s` between separators `b`, in order.
pub open spec fn pieces(s: Seq<u8>, b: u8) -> Seq<Seq<u8>>
    decreases s.len(),
    via pieces_decreases
{
    let k = first_at(s, b);
    if k >= s.len() {
        seq![s]
    } else {
        seq![s.take(k)] + pieces(s.skip(k + 1), b)
    }
}

#[via_fn]
proof fn pieces_decreases(s: Seq<u8>, b: u8) {
    lemma_first_at(s, b);
}

/// A list of byte strings by value.
pub open spec fn all_views(v: Seq<Vec<u8>>) -> Seq<Seq<u8>> {
    v.map_values(|x: Vec<u8>| x@)
}

/// Splits `s` at every `b`.
pub fn split_bytes(s: &[u8], b: u8) -> (r: Vec<Vec<u8>>)
    ensures
        all_views(r@) == pieces(s@, b),
{
    let mut out: Vec<Vec<u8>> = Vec::new();
    let mut rest: &[u8] = s;
    let k0: usize = find_byte(rest, b);
    let mut k: usize = k0;
    assert(all_views(out@) + pieces(rest@, b) =~= pieces(s@, b));
    while k < rest.len()
        invariant
            k == first_at(rest@, b),
            k <= rest@.len(),
            all_views(out@) + pieces(rest@, b) == pieces(s@, b),
        decreases rest@.len(),
    {
        let head = slice_to_vec(cut(rest, 0, k));
        let ghost before = out@;
        let ghost old_rest = rest@;
        assert(rest@.subrange(0, k as int) =~= rest@.take(k as int));
        out.push(head);
        rest = cut(rest, k + 1, rest.len());
        assert(rest@ =~= old_rest.skip(k + 1));
        assert(all_views(out@) =~= all_views(before).push(head@));
        assert(all_views(out@) + pieces(rest@, b) =~= all_views(before) + pieces(old_rest, b));
        k = find_byte(rest, b);
    }
    let ghost before = out@;
    let tail = slice_to_vec(rest);
    out.push(tail);
    assert(all_views(out@) =~= all_views(before).push(tail@));
    assert(all_views(out@) =~= all_views(before) + pieces(rest@, b));
    out
}

/// The part before the first `=` and the part after it, if there is one.
pub open spec fn key_value(token: Seq<u8>) -> Option<(Seq<u8>, Seq<u8>)> {
    let k = first_at(token, EQUALS);
    if k < token.len() {
        Some((token.take(k), token.skip(k + 1)))
    } else {
        None
    }
}

/// Splits an option of the form `key=value`.
pub fn split_kv(token: &[u8]) -> (r: Option<(&[u8], &[u8])>)
    ensures
        match r {
            Some((k, v)) => key_value(token@) == Some((k@, v@)),
            None => key_value(token@) is None,
        },
{
    let k: usize = find_byte(token, EQUALS);
    if k < token.len() {
        let key = cut(token, 0, k);
        let value = cut(token, k + 1, token.len());
        assert(key@ =~= token@.take(k as int));
        assert(value@ =~= token@.skip(k + 1));
        Some((key, value))
    } else {
        None
    }
}

} // verus!
