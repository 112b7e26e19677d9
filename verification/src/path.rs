//! Paths as byte strings: components, normal form, and the path that a symlink leads to.

use vstd::prelude::*;
use vstd::string::*;

use crate::bytes::{all_views, cut, first_at, pieces, push_bytes, split_bytes, DOT, SLASH};
use crate::namei_state::{BOOTSTRAP_PATH_DEPTH_MAX, BOOTSTRAP_PATH_MAX};

verus! {

// ---- scanning ----------------------------------------------------------------------

/// First position at or after `pos` that is not a slash, or the end.
pub open spec fn past_slashes(path: Seq<u8>, pos: int) -> int
    decreases path.len() - pos,
{
    if 0 <= pos < path.len() && path[pos] == SLASH {
        past_slashes(path, pos + 1)
    } else {
        pos
    }
}

/// First position at or after `pos` that is a slash, or the end.
pub open spec fn past_component(path: Seq<u8>, pos: int) -> int
    decreases path.len() - pos,
{
    if 0 <= pos < path.len() && path[pos] != SLASH {
        past_component(path, pos + 1)
    } else {
        pos
    }
}

/// Scanning never goes back and stays within the path.
pub proof fn lemma_scan_bounds(path: Seq<u8>, pos: int)
    requires
        0 <= pos <= path.len(),
    ensures
        pos <= past_slashes(path, pos) <= path.len(),
        pos <= past_component(path, pos) <= path.len(),
        past_slashes(path, pos) < path.len() ==> path[past_slashes(path, pos)] != SLASH,
        past_component(path, pos) < path.len() ==> path[past_component(path, pos)] == SLASH,
        forall|i: int| pos <= i < past_component(path, pos) ==> path[i] != SLASH,
    decreases path.len() - pos,
{
    if pos < path.len() {
        lemma_scan_bounds(path, pos + 1);
    }
}

/// Skips the slashes at `pos`.
pub fn skip_slashes(path: &[u8], pos: usize) -> (r: usize)
    requires
        pos <= path@.len(),
    ensures
        r == past_slashes(path@, pos as int),
        pos <= r <= path@.len(),
{
    let mut i: usize = pos;
    while i < path.len() && path[i] == SLASH
        invariant
            pos <= i <= path@.len(),
            past_slashes(path@, pos as int) == past_slashes(path@, i as int),
        decreases path@.len() - i,
    {
        i = i + 1;
    }
    i
}

/// The end of the component that starts at `pos`.
pub fn component_end(path: &[u8], pos: usize) -> (r: usize)
    requires
        pos <= path@.len(),
    ensures
        r == past_component(path@, pos as int),
        pos <= r <= path@.len(),
{
    let mut i: usize = pos;
    while i < path.len() && path[i] != SLASH
        invariant
            pos <= i <= path@.len(),
            past_component(path@, pos as int) == past_component(path@, i as int),
        decreases path@.len() - i,
    {
        i = i + 1;
    }
    i
}

/// Position after the last slash; zero when there is none.
pub open spec fn leaf_position(path: Seq<u8>) -> int
    decreases path.len(),
{
    if path.len() == 0 || path.last() == SLASH {
        path.len() as int
    } else {
        leaf_position(path.drop_last())
    }
}

/// What follows the last slash holds no slash.
pub proof fn lemma_leaf_position(path: Seq<u8>)
    ensures
        0 <= leaf_position(path) <= path.len(),
        forall|i: int| leaf_position(path) <= i < path.len() ==> path[i] != SLASH,
        leaf_position(path) > 0 ==> path[leaf_position(path) - 1] == SLASH,
    decreases path.len(),
{
    if path.len() > 0 && path.last() != SLASH {
        let t = path.drop_last();
        lemma_leaf_position(t);
        assert forall|i: int| leaf_position(path) <= i < path.len() implies path[i] != SLASH by {
            if i < t.len() {
                assert(t[i] == path[i]);
            }
        }
    }
}

/// Position after the last slash; zero when there is none.
pub fn leaf_start(path: &[u8]) -> (r: usize)
    ensures
        r == leaf_position(path@),
        r <= path@.len(),
{
    let mut i: usize = path.len();
    assert(path@.take(path@.len() as int) =~= path@);
    while i > 0 && path[i - 1] != SLASH
        invariant
            i <= path@.len(),
            leaf_position(path@.take(i as int)) == leaf_position(path@),
        decreases i,
    {
        assert(path@.take(i as int).drop_last() =~= path@.take(i - 1));
        i = i - 1;
    }
    i
}

/// A path that names an entry of a directory splits into the directory's part and the
/// entry's name: it is absolute and does not end in a slash.
pub open spec fn names_an_entry(path: Seq<u8>) -> bool {
    path.len() > 1 && path[0] == SLASH && leaf_position(path) < path.len()
}

// ---- normal form -------------------------------------------------------------------

/// The component that stands for the directory itself.
pub open spec fn is_dot(c: Seq<u8>) -> bool {
    c == seq![DOT]
}

/// The component that stands for the parent directory.
pub open spec fn is_dotdot(c: Seq<u8>) -> bool {
    c == seq![DOT, DOT]
}

/// One component applied to the directories that a path has gone down so far. `None` when
/// that would be too many.
pub open spec fn descend(stack: Seq<Seq<u8>>, c: Seq<u8>) -> Option<Seq<Seq<u8>>> {
    if c.len() == 0 || is_dot(c) {
        Some(stack)
    } else if is_dotdot(c) {
        if stack.len() > 0 {
            Some(stack.drop_last())
        } else {
            Some(stack)
        }
    } else if stack.len() >= BOOTSTRAP_PATH_DEPTH_MAX {
        None
    } else {
        Some(stack.push(c))
    }
}

/// The directories that remain after the components in `cs`, starting at the root.
pub open spec fn resolved(cs: Seq<Seq<u8>>) -> Option<Seq<Seq<u8>>>
    decreases cs.len(),
{
    if cs.len() == 0 {
        Some(Seq::empty())
    } else {
        match resolved(cs.drop_last()) {
            Some(stack) => descend(stack, cs.last()),
            None => None,
        }
    }
}

/// Each component with a slash in front, one after the other.
pub open spec fn joined(stack: Seq<Seq<u8>>) -> Seq<u8>
    decreases stack.len(),
{
    if stack.len() == 0 {
        Seq::empty()
    } else {
        joined(stack.drop_last()) + seq![SLASH] + stack.last()
    }
}

/// The absolute path of a stack of directories.
pub open spec fn rendered(stack: Seq<Seq<u8>>) -> Seq<u8> {
    if stack.len() == 0 {
        seq![SLASH]
    } else {
        joined(stack)
    }
}

/// Length that a path has once it is made absolute.
pub open spec fn absolute_len(path: Seq<u8>) -> int {
    if path.len() > 0 && path[0] != SLASH {
        path.len() as int + 1
    } else {
        path.len() as int
    }
}

/// The normal form of a path: absolute, one slash between components, no component that
/// stays or goes up. `None` for an empty, too long or too deep path.
pub open spec fn normalized(path: Seq<u8>) -> Option<Seq<u8>> {
    if path.len() == 0 || absolute_len(path) > BOOTSTRAP_PATH_MAX {
        None
    } else {
        match resolved(pieces(path, SLASH)) {
            Some(stack) => Some(rendered(stack)),
            None => None,
        }
    }
}

fn is_dot_name(c: &[u8]) -> (r: bool)
    ensures
        r == is_dot(c@),
{
    let r = c.len() == 1 && c[0] == DOT;
    assert(r ==> c@ =~= seq![DOT]);
    r
}

fn is_dotdot_name(c: &[u8]) -> (r: bool)
    ensures
        r == is_dotdot(c@),
{
    let r = c.len() == 2 && c[0] == DOT && c[1] == DOT;
    assert(r ==> c@ =~= seq![DOT, DOT]);
    r
}

/// Brings a path into normal form; `None` when it is empty, longer than the service
/// handles, or goes down too deep on the way.
pub fn normalize_bootstrap_absolute_path(path: &[u8]) -> (r: Option<Vec<u8>>)
    ensures
        match r {
            Some(out) => normalized(path@) == Some(out@),
            None => normalized(path@) is None,
        },
{
    if path.len() == 0 {
        return None;
    }
    let extra: usize = if path[0] != SLASH {
        1
    } else {
        0
    };
    if path.len() > BOOTSTRAP_PATH_MAX - extra {
        return None;
    }
    let cs: Vec<Vec<u8>> = split_bytes(path, SLASH);
    let ghost all = all_views(cs@);
    let mut stack: Vec<Vec<u8>> = Vec::new();
    let mut i: usize = 0;
    assert(all.take(0) =~= Seq::<Seq<u8>>::empty());
    assert(all_views(stack@) =~= Seq::<Seq<u8>>::empty());
    while i < cs.len()
        invariant
            i <= cs@.len(),
            all == all_views(cs@),
            resolved(all.take(i as int)) == Some(all_views(stack@)),
            path@.len() > 0,
            absolute_len(path@) <= BOOTSTRAP_PATH_MAX,
            all == pieces(path@, SLASH),
        decreases cs@.len() - i,
    {
        let c: &[u8] = cs[i].as_slice();
        let ghost before = all_views(stack@);
        assert(all.take(i + 1).drop_last() =~= all.take(i as int));
        assert(all.take(i + 1).last() == c@);
        if c.len() == 0 || is_dot_name(c) {
        } else if is_dotdot_name(c) {
            if stack.len() > 0 {
                let _ = stack.pop();
                assert(all_views(stack@) =~= before.drop_last());
            }
        } else {
            if stack.len() >= BOOTSTRAP_PATH_DEPTH_MAX {
                proof {
                    lemma_unresolved_prefix(all, i + 1);
                }
                return None;
            }
            stack.push(vstd::slice::slice_to_vec(c));
            assert(all_views(stack@) =~= before.push(c@));
        }
        i = i + 1;
    }
    assert(all.take(all.len() as int) =~= all);
    let mut out: Vec<u8> = Vec::new();
    if stack.len() == 0 {
        out.push(SLASH);
        assert(out@ =~= seq![SLASH]);
        return Some(out);
    }
    let ghost st = all_views(stack@);
    let mut j: usize = 0;
    assert(st.take(0) =~= Seq::<Seq<u8>>::empty());
    while j < stack.len()
        invariant
            j <= stack@.len(),
            st == all_views(stack@),
            out@ == joined(st.take(j as int)),
        decreases stack@.len() - j,
    {
        let ghost before = out@;
        out.push(SLASH);
        push_bytes(&mut out, stack[j].as_slice());
        assert(st.take(j + 1).drop_last() =~= st.take(j as int));
        assert(out@ =~= before + seq![SLASH] + st[j as int]);
        j = j + 1;
    }
    assert(st.take(st.len() as int) =~= st);
    Some(out)
}

proof fn lemma_unresolved_prefix(cs: Seq<Seq<u8>>, k: int)
    requires
        0 <= k <= cs.len(),
        resolved(cs.take(k)) is None,
    ensures
        resolved(cs) is None,
    decreases cs.len(),
{
    if k < cs.len() {
        assert(cs.drop_last().take(k) =~= cs.take(k));
        lemma_unresolved_prefix(cs.drop_last(), k);
    } else {
        assert(cs.take(k) =~= cs);
    }
}

/// A component that a normal form may hold.
pub open spec fn plain_component(c: Seq<u8>) -> bool {
    c.len() > 0 && !is_dot(c) && !is_dotdot(c) && !c.contains(SLASH)
}

/// All components are plain.
pub open spec fn all_plain(stack: Seq<Seq<u8>>) -> bool {
    forall|i: int| 0 <= i < stack.len() ==> plain_component(#[trigger] stack[i])
}

proof fn lemma_pieces_no_slash(s: Seq<u8>, b: u8)
    ensures
        forall|i: int| 0 <= i < pieces(s, b).len() ==> !(#[trigger] pieces(s, b)[i]).contains(b),
        pieces(s, b).len() > 0,
    decreases s.len(),
{
    lemma_first_at_facts(s, b);
    let k = first_at(s, b);
    if k < s.len() {
        lemma_pieces_no_slash(s.skip(k + 1), b);
        assert forall|i: int| 0 <= i < pieces(s, b).len() implies !(#[trigger] pieces(s, b)[i]).contains(b) by {
            if i > 0 {
                assert(pieces(s, b)[i] == pieces(s.skip(k + 1), b)[i - 1]);
            }
        }
    }
}

proof fn lemma_first_at_facts(s: Seq<u8>, b: u8)
    ensures
        0 <= first_at(s, b) <= s.len(),
        first_at(s, b) < s.len() ==> s[first_at(s, b)] == b,
        forall|i: int| 0 <= i < first_at(s, b) ==> s[i] != b,
    decreases s.len(),
{
    if s.len() > 0 && s[0] != b {
        let t = s.drop_first();
        lemma_first_at_facts(t, b);
        assert forall|i: int| 0 <= i < first_at(s, b) implies s[i] != b by {
            if i > 0 {
                assert(t[i - 1] == s[i]);
            }
        }
    }
}

proof fn lemma_first_at_is(s: Seq<u8>, b: u8, k: int)
    requires
        0 <= k <= s.len(),
        k < s.len() ==> s[k] == b,
        forall|i: int| 0 <= i < k ==> s[i] != b,
    ensures
        first_at(s, b) == k,
{
    lemma_first_at_facts(s, b);
}

proof fn lemma_resolved_plain(cs: Seq<Seq<u8>>)
    requires
        forall|i: int| 0 <= i < cs.len() ==> !(#[trigger] cs[i]).contains(SLASH),
    ensures
        resolved(cs) matches Some(stack) ==> all_plain(stack) && stack.len()
            <= BOOTSTRAP_PATH_DEPTH_MAX && stack.len() <= cs.len(),
    decreases cs.len(),
{
    if cs.len() > 0 {
        assert forall|i: int| 0 <= i < cs.drop_last().len() implies !(#[trigger] cs.drop_last()[i]).contains(
        SLASH) by {
            assert(cs.drop_last()[i] == cs[i]);
        }
        lemma_resolved_plain(cs.drop_last());
        assert(!cs[cs.len() - 1].contains(SLASH));
    }
}

proof fn lemma_resolve_plain_is_itself(cs: Seq<Seq<u8>>)
    requires
        all_plain(cs),
        cs.len() <= BOOTSTRAP_PATH_DEPTH_MAX,
    ensures
        resolved(cs) == Some(cs),
    decreases cs.len(),
{
    if cs.len() > 0 {
        assert(all_plain(cs.drop_last())) by {
            assert forall|i: int| 0 <= i < cs.drop_last().len() implies plain_component(
                #[trigger] cs.drop_last()[i],
            ) by {
                assert(cs.drop_last()[i] == cs[i]);
            }
        }
        lemma_resolve_plain_is_itself(cs.drop_last());
        assert(plain_component(cs[cs.len() - 1]));
        assert(cs.drop_last().push(cs.last()) =~= cs);
    } else {
        assert(cs =~= Seq::<Seq<u8>>::empty());
    }
}

proof fn lemma_resolved_skips_empty_first(cs: Seq<Seq<u8>>)
    ensures
        resolved(seq![Seq::<u8>::empty()] + cs) == resolved(cs),
    decreases cs.len(),
{
    let e = seq![Seq::<u8>::empty()];
    if cs.len() == 0 {
        assert(e + cs =~= e);
        assert(e.drop_last() =~= Seq::<Seq<u8>>::empty());
        assert(resolved(e.drop_last()) == Some(Seq::<Seq<u8>>::empty()));
        assert(cs =~= Seq::<Seq<u8>>::empty());
    } else {
        lemma_resolved_skips_empty_first(cs.drop_last());
        assert((e + cs).drop_last() =~= e + cs.drop_last());
        assert((e + cs).last() == cs.last());
    }
}

proof fn lemma_pieces_leading_slash(x: Seq<u8>)
    ensures
        pieces(seq![SLASH] + x, SLASH) == seq![Seq::<u8>::empty()] + pieces(x, SLASH),
{
    let s = seq![SLASH] + x;
    lemma_first_at_is(s, SLASH, 0);
    assert(s.skip(1) =~= x);
    assert(s.take(0) =~= Seq::<u8>::empty());
}

proof fn lemma_pieces_append(x: Seq<u8>, c: Seq<u8>)
    requires
        !c.contains(SLASH),
    ensures
        pieces(x + seq![SLASH] + c, SLASH) == pieces(x, SLASH).push(c),
    decreases x.len(),
{
    let s = x + seq![SLASH] + c;
    lemma_first_at_facts(x, SLASH);
    let k = first_at(x, SLASH);
    lemma_first_at_is(s, SLASH, k);
    if k < x.len() {
        assert(s.skip(k + 1) =~= x.skip(k + 1) + seq![SLASH] + c);
        lemma_pieces_append(x.skip(k + 1), c);
        assert(s.take(k) =~= x.take(k));
        assert(pieces(s, SLASH) =~= pieces(x, SLASH).push(c));
    } else {
        assert(s.take(k) =~= x);
        assert(s.skip(k + 1) =~= c);
        lemma_first_at_facts(c, SLASH);
        if first_at(c, SLASH) < c.len() {
            assert(c[first_at(c, SLASH)] == SLASH);
            assert(c.contains(SLASH));
        }
        assert(pieces(c, SLASH) =~= seq![c]);
        assert(pieces(s, SLASH) =~= pieces(x, SLASH).push(c));
    }
}

proof fn lemma_pieces_joined(stack: Seq<Seq<u8>>)
    requires
        all_plain(stack),
        stack.len() > 0,
    ensures
        pieces(joined(stack), SLASH) == seq![Seq::<u8>::empty()] + stack,
    decreases stack.len(),
{
    let rest = stack.drop_last();
    assert(plain_component(stack[stack.len() - 1]));
    if rest.len() == 0 {
        assert(rest =~= Seq::<Seq<u8>>::empty());
        assert(joined(rest) =~= Seq::<u8>::empty());
        let e = Seq::<u8>::empty();
        lemma_pieces_append(e, stack.last());
        lemma_first_at_facts(e, SLASH);
        assert(pieces(e, SLASH) =~= seq![e]);
        assert(stack =~= seq![stack.last()]);
        assert(seq![e].push(stack.last()) =~= seq![e] + stack);
    } else {
        assert(all_plain(rest)) by {
            assert forall|i: int| 0 <= i < rest.len() implies plain_component(#[trigger] rest[i]) by {
                assert(rest[i] == stack[i]);
            }
        }
        lemma_pieces_joined(rest);
        lemma_pieces_append(joined(rest), stack.last());
        assert((seq![Seq::<u8>::empty()] + rest).push(stack.last()) =~= seq![Seq::<u8>::empty()]
            + stack);
    }
}

proof fn lemma_joined_front(stack: Seq<Seq<u8>>)
    requires
        stack.len() > 0,
    ensures
        joined(stack).len() > 0,
        joined(stack)[0] == SLASH,
    decreases stack.len(),
{
    if stack.len() > 1 {
        lemma_joined_front(stack.drop_last());
    } else {
        assert(stack.drop_last() =~= Seq::<Seq<u8>>::empty());
        assert(joined(stack.drop_last()) =~= Seq::<u8>::empty());
    }
}

/// Number of bytes in the components of a stack, with a slash before each.
proof fn lemma_resolved_len(path: Seq<u8>, cs: Seq<Seq<u8>>)
    requires
        resolved(cs) is Some,
    ensures
        joined(resolved(cs)->0).len() <= joined(cs).len(),
    decreases cs.len(),
{
    if cs.len() > 0 {
        lemma_resolved_len(path, cs.drop_last());
        let stack = resolved(cs.drop_last())->0;
        let c = cs.last();
        if c.len() == 0 || is_dot(c) {
        } else if is_dotdot(c) {
            if stack.len() > 0 {
                assert(joined(stack).len() >= joined(stack.drop_last()).len());
            }
        } else {
            assert(stack.push(c).drop_last() =~= stack);
        }
    } else {
        assert(cs =~= Seq::<Seq<u8>>::empty());
    }
}

proof fn lemma_joined_push_front(c: Seq<u8>, cs: Seq<Seq<u8>>)
    ensures
        joined(seq![c] + cs).len() == 1 + c.len() + joined(cs).len(),
    decreases cs.len(),
{
    let s = seq![c] + cs;
    if cs.len() == 0 {
        assert(s =~= seq![c]);
        assert(s.drop_last() =~= Seq::<Seq<u8>>::empty());
        assert(joined(s.drop_last()) =~= Seq::<u8>::empty());
        assert(cs =~= Seq::<Seq<u8>>::empty());
    } else {
        lemma_joined_push_front(c, cs.drop_last());
        assert(s.drop_last() =~= seq![c] + cs.drop_last());
    }
}

proof fn lemma_joined_pieces_len(s: Seq<u8>)
    ensures
        joined(pieces(s, SLASH)).len() == s.len() + 1,
    decreases s.len(),
{
    lemma_first_at_facts(s, SLASH);
    let k = first_at(s, SLASH);
    if k < s.len() {
        lemma_joined_pieces_len(s.skip(k + 1));
        lemma_joined_push_front(s.take(k), pieces(s.skip(k + 1), SLASH));
    } else {
        let one = seq![s];
        assert(one.drop_last() =~= Seq::<Seq<u8>>::empty());
        assert(joined(one.drop_last()) =~= Seq::<u8>::empty());
    }
}

/// A normal form is an absolute path of plain components, and no longer than the path it
/// stands for once that is made absolute.
pub proof fn law_normal_form_is_canonical(path: Seq<u8>)
    requires
        normalized(path) is Some,
    ensures
        normalized(path)->0.len() > 0,
        normalized(path)->0[0] == SLASH,
        normalized(path)->0.len() <= BOOTSTRAP_PATH_MAX,
        exists|stack: Seq<Seq<u8>>|
            all_plain(stack) && stack.len() <= BOOTSTRAP_PATH_DEPTH_MAX && normalized(path)->0
                == #[trigger] rendered(stack),
{
    let cs = pieces(path, SLASH);
    lemma_pieces_no_slash(path, SLASH);
    lemma_resolved_plain(cs);
    let stack = resolved(cs)->0;
    assert(normalized(path)->0 == rendered(stack));
    if stack.len() > 0 {
        lemma_joined_front(stack);
        if path[0] == SLASH {
            assert(path =~= seq![SLASH] + path.skip(1));
            lemma_pieces_leading_slash(path.skip(1));
            let rest = pieces(path.skip(1), SLASH);
            lemma_resolved_skips_empty_first(rest);
            lemma_resolved_len(path, rest);
            lemma_joined_pieces_len(path.skip(1));
        } else {
            lemma_resolved_len(path, cs);
            lemma_joined_pieces_len(path);
        }
    }
}

/// Normalising twice changes nothing more.
pub proof fn law_normalisation_is_idempotent(path: Seq<u8>)
    requires
        normalized(path) is Some,
    ensures
        normalized(normalized(path)->0) == normalized(path),
{
    law_normal_form_is_canonical(path);
    let n = normalized(path)->0;
    let cs = pieces(path, SLASH);
    lemma_pieces_no_slash(path, SLASH);
    lemma_resolved_plain(cs);
    let stack = resolved(cs)->0;
    if stack.len() == 0 {
        assert(n =~= seq![SLASH] + Seq::<u8>::empty());
        lemma_pieces_leading_slash(Seq::<u8>::empty());
        let e = Seq::<u8>::empty();
        lemma_first_at_facts(e, SLASH);
        assert(pieces(e, SLASH) =~= seq![e]);
        lemma_resolved_skips_empty_first(seq![e]);
        assert(seq![e] =~= seq![e] + Seq::<Seq<u8>>::empty());
        lemma_resolved_skips_empty_first(Seq::<Seq<u8>>::empty());
        assert(stack =~= Seq::<Seq<u8>>::empty());
    } else {
        lemma_pieces_joined(stack);
        lemma_resolved_skips_empty_first(stack);
        lemma_resolve_plain_is_itself(stack);
    }
}

/// Going up from the root stays at the root: a path that first goes up leads where it leads
/// without that.
pub proof fn law_root_has_no_parent(cs: Seq<Seq<u8>>)
    ensures
        resolved(seq![seq![DOT, DOT]] + cs) == resolved(cs),
    decreases cs.len(),
{
    let up = seq![seq![DOT, DOT]];
    if cs.len() == 0 {
        assert(up + cs =~= up);
        assert(up.drop_last() =~= Seq::<Seq<u8>>::empty());
        assert(resolved(up.drop_last()) == Some(Seq::<Seq<u8>>::empty()));
    } else {
        law_root_has_no_parent(cs.drop_last());
        assert((up + cs).drop_last() =~= up + cs.drop_last());
        assert((up + cs).last() == cs.last());
    }
}

/// How many slashes a path holds.
pub open spec fn slashes_in(path: Seq<u8>) -> nat
    decreases path.len(),
{
    if path.len() == 0 {
        0
    } else {
        slashes_in(path.drop_last()) + if path.last() == SLASH {
            1nat
        } else {
            0nat
        }
    }
}

proof fn lemma_slashes_append(a: Seq<u8>, c: Seq<u8>)
    requires
        !c.contains(SLASH),
    ensures
        slashes_in(a + c) == slashes_in(a),
    decreases c.len(),
{
    if c.len() == 0 {
        assert(a + c =~= a);
    } else {
        assert(c[c.len() - 1] != SLASH);
        assert((a + c).drop_last() =~= a + c.drop_last());
        assert(!c.drop_last().contains(SLASH)) by {
            if c.drop_last().contains(SLASH) {
                let k = choose|k: int| 0 <= k < c.drop_last().len() && c.drop_last()[k] == SLASH;
                assert(c[k] == SLASH);
            }
        }
        lemma_slashes_append(a, c.drop_last());
    }
}

proof fn lemma_slashes_joined(stack: Seq<Seq<u8>>)
    requires
        all_plain(stack),
    ensures
        slashes_in(joined(stack)) == stack.len(),
    decreases stack.len(),
{
    if stack.len() > 0 {
        let rest = stack.drop_last();
        assert(plain_component(stack[stack.len() - 1]));
        assert(all_plain(rest)) by {
            assert forall|i: int| 0 <= i < rest.len() implies plain_component(
                #[trigger] rest[i],
            ) by {
                assert(rest[i] == stack[i]);
            }
        }
        lemma_slashes_joined(rest);
        let b = joined(rest) + seq![SLASH];
        assert(b.drop_last() =~= joined(rest));
        assert(b.last() == SLASH);
        lemma_slashes_append(b, stack.last());
    }
}

/// A path that goes on by one component has the normal form of what came before it with the
/// component behind, unless it grows too long or goes down too deep. A component that is empty
/// or stays changes nothing, and one that goes up takes the last one back.
pub proof fn law_normal_form_goes_on(path: Seq<u8>, c: Seq<u8>)
    requires
        normalized(path) is Some,
        path[0] == SLASH,
        !c.contains(SLASH),
        path.len() + 1 + c.len() <= BOOTSTRAP_PATH_MAX,
    ensures
        ({
            let n = normalized(path)->0;
            let longer = normalized(path + seq![SLASH] + c);
            if c.len() == 0 || c == seq![DOT] {
                longer == Some(n)
            } else if c == seq![DOT, DOT] {
                ||| n == seq![SLASH] && longer == Some(n)
                ||| exists|up: Seq<u8>, last: Seq<u8>|
                    #![trigger up + seq![SLASH] + last]
                    n == up + seq![SLASH] + last && !last.contains(SLASH) && longer == Some(
                        if up.len() == 0 {
                            seq![SLASH]
                        } else {
                            up
                        },
                    )
            } else if n == seq![SLASH] {
                longer == Some(seq![SLASH] + c)
            } else if slashes_in(n) < BOOTSTRAP_PATH_DEPTH_MAX {
                longer == Some(n + seq![SLASH] + c)
            } else {
                longer is None
            }
        }),
        normalized(seq![SLASH]) == Some(seq![SLASH]),
{
    let whole = path + seq![SLASH] + c;
    let cs = pieces(path, SLASH);
    lemma_pieces_append(path, c);
    assert(pieces(whole, SLASH) == cs.push(c));
    assert(cs.push(c).drop_last() =~= cs);
    assert(cs.push(c).last() == c);
    lemma_pieces_no_slash(path, SLASH);
    lemma_resolved_plain(cs);
    let stack = resolved(cs)->0;
    let n = normalized(path)->0;
    assert(whole[0] == SLASH);
    let e = Seq::<Seq<u8>>::empty();
    assert(joined(e) =~= Seq::<u8>::empty());
    if stack.len() > 0 {
        lemma_slashes_joined(stack);
        let rest = stack.drop_last();
        assert(plain_component(stack[stack.len() - 1]));
        let last = stack.last();
        if stack.len() == 1 {
            assert(rest =~= e);
            assert(n =~= seq![SLASH] + last);
        } else {
            lemma_joined_front(rest);
        }
        assert(n == joined(rest) + seq![SLASH] + last);
        assert(n != seq![SLASH]) by {
            assert(n.len() >= 1 + last.len());
        }
        assert(stack.push(c).drop_last() =~= stack);
    } else {
        assert(stack =~= e);
        assert(e.push(c).drop_last() =~= e);
        assert(joined(e.push(c)) =~= seq![SLASH] + c);
    }
    let one = seq![SLASH];
    let none = Seq::<u8>::empty();
    assert(one =~= one + none);
    lemma_pieces_leading_slash(none);
    lemma_first_at_facts(none, SLASH);
    assert(pieces(none, SLASH) =~= seq![none]);
    lemma_resolved_skips_empty_first(seq![none]);
    assert(seq![none] =~= seq![none] + e);
    lemma_resolved_skips_empty_first(e);
}

// ---- symlinks ----------------------------------------------------------------------

/// `head` with `target` and `tail` behind it, with a slash before `tail` where one is
/// needed; `None` when it grows too long on the way.
pub open spec fn followed(head: Seq<u8>, target: Seq<u8>, tail: Seq<u8>) -> Option<Seq<u8>> {
    let a = head + target;
    let b = if tail.len() == 0 {
        a
    } else if a.len() > 1 && a.last() != SLASH {
        a + seq![SLASH] + tail
    } else {
        a + tail
    };
    if b.len() > BOOTSTRAP_PATH_MAX {
        None
    } else {
        normalized(b)
    }
}

/// Directory part that a relative target is resolved against: the path up to the
/// component, with a slash behind it.
pub open spec fn link_directory(full_path: Seq<u8>, component_start: int) -> Seq<u8> {
    let n = if component_start > 1 {
        component_start - 1
    } else {
        1
    };
    let head = full_path.take(n);
    if n > 1 && head.last() != SLASH {
        head + seq![SLASH]
    } else {
        head
    }
}

/// A target that starts at the root.
pub open spec fn is_absolute(target: Seq<u8>) -> bool {
    target.len() > 0 && target[0] == SLASH
}

fn follow_from(head: Vec<u8>, target: &[u8], tail: &[u8]) -> (r: Option<Vec<u8>>)
    requires
        head@.len() <= usize::MAX / 4,
    ensures
        match r {
            Some(out) => followed(head@, target@, tail@) == Some(out@),
            None => followed(head@, target@, tail@) is None,
        },
{
    let mut raw: Vec<u8> = head;
    if raw.len() > BOOTSTRAP_PATH_MAX || target.len() > BOOTSTRAP_PATH_MAX - raw.len() {
        return None;
    }
    push_bytes(&mut raw, target);
    if tail.len() > 0 {
        if raw.len() > 1 && raw[raw.len() - 1] != SLASH {
            if raw.len() >= BOOTSTRAP_PATH_MAX {
                return None;
            }
            raw.push(SLASH);
        }
        if tail.len() > BOOTSTRAP_PATH_MAX - raw.len() {
            return None;
        }
        let ghost before = raw@;
        push_bytes(&mut raw, tail);
    }
    proof {
        let a = head@ + target@;
        let b = if tail@.len() == 0 {
            a
        } else if a.len() > 1 && a.last() != SLASH {
            a + seq![SLASH] + tail@
        } else {
            a + tail@
        };
        assert(raw@ =~= b);
    }
    normalize_bootstrap_absolute_path(raw.as_slice())
}

/// The normal path that a symlink met at `component_start` leads to, with the unwalked
/// rest of the path behind it.
pub fn compose_dynamic_symlink_path(
    full_path: &[u8],
    component_start: usize,
    target: &[u8],
    tail: &[u8],
) -> (r: Option<Vec<u8>>)
    requires
        1 <= full_path@.len(),
        component_start <= full_path@.len(),
    ensures
        ({
            let head = if is_absolute(target@) {
                Seq::<u8>::empty()
            } else {
                link_directory(full_path@, component_start as int)
            };
            match r {
                Some(out) => followed(head, target@, tail@) == Some(out@),
                None => followed(head, target@, tail@) is None,
            }
        }),
{
    let mut head: Vec<u8> = Vec::new();
    if target.len() > 0 && target[0] == SLASH {
        assert(head@ =~= Seq::<u8>::empty());
        return follow_from(head, target, tail);
    }
    let n: usize = if component_start > 1 {
        component_start - 1
    } else {
        1
    };
    if n > BOOTSTRAP_PATH_MAX {
        return None;
    }
    push_bytes(&mut head, cut(full_path, 0, n));
    assert(head@ =~= full_path@.take(n as int));
    if n > 1 && head[n - 1] != SLASH {
        if n >= BOOTSTRAP_PATH_MAX {
            proof {
                let h = link_directory(full_path@, component_start as int);
                assert(h.len() == n + 1);
            }
            return None;
        }
        head.push(SLASH);
    }
    assert(head@ =~= link_directory(full_path@, component_start as int));
    follow_from(head, target, tail)
}

/// The normal path that a symlink in the directory `parent_path` leads to.
pub fn compose_symlink_in(parent_path: &[u8], target: &[u8], tail: &[u8]) -> (r: Option<Vec<u8>>)
    requires
        parent_path@.len() <= BOOTSTRAP_PATH_MAX,
    ensures
        ({
            let head = if is_absolute(target@) {
                Seq::<u8>::empty()
            } else if parent_path@.len() > 1 {
                parent_path@ + seq![SLASH]
            } else {
                parent_path@
            };
            match r {
                Some(out) => followed(head, target@, tail@) == Some(out@),
                None => followed(head, target@, tail@) is None,
            }
        }),
{
    let mut head: Vec<u8> = Vec::new();
    if target.len() > 0 && target[0] == SLASH {
        assert(head@ =~= Seq::<u8>::empty());
        return follow_from(head, target, tail);
    }
    push_bytes(&mut head, parent_path);
    assert(head@ =~= parent_path@);
    if parent_path.len() > 1 {
        if parent_path.len() >= BOOTSTRAP_PATH_MAX {
            return None;
        }
        head.push(SLASH);
        assert(head@ =~= parent_path@ + seq![SLASH]);
    }
    follow_from(head, target, tail)
}

} // verus!
