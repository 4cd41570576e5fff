//! Small helpers on strings, over their views as sequences of characters.

use vstd::prelude::*;
use vstd::string::StringExecFns;

verus! {

/// Whether `needle` stands in `hay` at position `at`.
pub open spec fn occurs_at(hay: Seq<char>, needle: Seq<char>, at: int) -> bool {
    &&& 0 <= at
    &&& at + needle.len() <= hay.len()
    &&& hay.subrange(at, at + needle.len()) == needle
}

/// Whether `hay` begins with `prefix`.
pub open spec fn has_prefix(hay: Seq<char>, prefix: Seq<char>) -> bool {
    occurs_at(hay, prefix, 0)
}

/// The characters of `s`, in order.
pub fn chars_of(s: &str) -> (chars: Vec<char>)
    ensures
        chars@ == s@,
{
    let mut chars: Vec<char> = Vec::new();
    for c in it: s.chars()
        invariant
            chars@ == it.seq().take(it.index() as int),
            it.seq() == s@,
    {
        chars.push(c);
    }
    chars
}

/// Whether `needle` stands in `hay` at position `at`.
pub fn matches_at(hay: &Vec<char>, needle: &Vec<char>, at: usize) -> (found: bool)
    ensures
        found == occurs_at(hay@, needle@, at as int),
{
    if needle.len() > hay.len() || at > hay.len() - needle.len() {
        return false;
    }
    let mut k: usize = 0;
    while k < needle.len()
        invariant
            k <= needle.len(),
            at + needle.len() <= hay.len(),
            forall|j: int| 0 <= j < k ==> hay@[at + j] == needle@[j],
        decreases needle.len() - k,
    {
        if hay[at + k] != needle[k] {
            assert(hay@.subrange(at as int, at + needle.len())[k as int] != needle@[k as int]);
            return false;
        }
        k += 1;
    }
    assert(hay@.subrange(at as int, at + needle.len()) =~= needle@);
    true
}

/// The text `a` followed by `b`.
pub fn join2(a: &str, b: &str) -> (joined: String)
    ensures
        joined@ == a@ + b@,
{
    let mut joined = a.to_owned();
    joined.append(b);
    joined
}

/// The text `a` followed by `b` and `c`.
pub fn join3(a: &str, b: &str, c: &str) -> (joined: String)
    ensures
        joined@ == a@ + b@ + c@,
{
    let mut joined = a.to_owned();
    joined.append(b);
    joined.append(c);
    joined
}

/// Whether `a` and `b` hold the same characters.
pub fn same_text(a: &str, b: &str) -> (same: bool)
    ensures
        same == (a@ == b@),
{
    let left = chars_of(a);
    let right = chars_of(b);
    if left.len() != right.len() {
        return false;
    }
    let found = matches_at(&left, &right, 0);
    proof {
        if found {
            assert(left@.subrange(0, left@.len() as int) =~= left@);
        } else if left@ == right@ {
            assert(left@.subrange(0, right@.len() as int) =~= right@);
        }
    }
    found
}

/// The characters of `s` from position `from` up to `to`.
pub(crate) fn slice_text(s: &str, from: usize, to: usize) -> (piece: String)
    requires
        from <= to <= s@.len(),
    ensures
        piece@ == s@.subrange(from as int, to as int),
{
    s.substring_char(from, to).to_owned()
}

/// Filtering the first `n + 1` items is filtering the first `n` and then,
/// if it passes, keeping the next.
pub proof fn lemma_filter_step<A>(items: Seq<A>, keep: spec_fn(A) -> bool, n: int)
    requires
        0 <= n < items.len(),
    ensures
        items.take(n + 1).filter(keep) == if keep(items[n]) {
            items.take(n).filter(keep).push(items[n])
        } else {
            items.take(n).filter(keep)
        },
        items.take(0).filter(keep) == Seq::<A>::empty(),
{
    reveal(Seq::filter);
    assert(items.take(n + 1).drop_last() =~= items.take(n));
    assert(items.take(0) =~= Seq::<A>::empty());
}

} // verus!
