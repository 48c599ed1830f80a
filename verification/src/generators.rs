//! Randomized content toolkit: uniform draws, bounded random delays,
//! fixed-length hexadecimal strings, and non-repeating selection from a
//! candidate pool.

use vstd::prelude::*;
use vstd::string::StringExecFns;

verus! {

/// Relies on `rand::random_range` (rand crate): a uniform draw from the
/// half-open range `0..n`; it panics only on an empty range, which the
/// precondition rules out.
#[verifier::external_body]
fn random_below(n: u64) -> (r: u64)
    requires
        n > 0,
    ensures
        r < n,
{
    rand::random_range(0..n)
}

/// A position drawn uniformly from a non-empty collection of `n` slots.
pub fn random_index(n: usize) -> (r: usize)
    requires
        n > 0,
    ensures
        r < n,
{
    let pick = random_below(n as u64);
    assert(pick <= usize::MAX as u64);
    pick as usize
}

/// A delay drawn uniformly from `[min, max)`. Calling it with an empty range
/// is a programming error, excluded by the precondition.
pub fn random_delay(min: u64, max: u64) -> (r: u64)
    requires
        min < max,
    ensures
        min <= r < max,
{
    min + random_below(max - min)
}

/// The lowercase hexadecimal digit for a value below sixteen.
pub open spec fn hex_digit_char(d: int) -> char {
    if d == 0 {
        '0'
    } else if d == 1 {
        '1'
    } else if d == 2 {
        '2'
    } else if d == 3 {
        '3'
    } else if d == 4 {
        '4'
    } else if d == 5 {
        '5'
    } else if d == 6 {
        '6'
    } else if d == 7 {
        '7'
    } else if d == 8 {
        '8'
    } else if d == 9 {
        '9'
    } else if d == 10 {
        'a'
    } else if d == 11 {
        'b'
    } else if d == 12 {
        'c'
    } else if d == 13 {
        'd'
    } else if d == 14 {
        'e'
    } else {
        'f'
    }
}

/// A lowercase hexadecimal character, `0-9` or `a-f`.
pub open spec fn is_hex_digit(c: char) -> bool {
    ('0' <= c && c <= '9') || ('a' <= c && c <= 'f')
}

pub(crate) fn hex_digit_str(d: u64) -> (r: &'static str)
    requires
        d < 16,
    ensures
        r@.len() == 1,
        r@[0] == hex_digit_char(d as int),
        is_hex_digit(r@[0]),
{
    proof {
        reveal_strlit("0");
        reveal_strlit("1");
        reveal_strlit("2");
        reveal_strlit("3");
        reveal_strlit("4");
        reveal_strlit("5");
        reveal_strlit("6");
        reveal_strlit("7");
        reveal_strlit("8");
        reveal_strlit("9");
        reveal_strlit("a");
        reveal_strlit("b");
        reveal_strlit("c");
        reveal_strlit("d");
        reveal_strlit("e");
        reveal_strlit("f");
    }
    match d {
        0 => "0",
        1 => "1",
        2 => "2",
        3 => "3",
        4 => "4",
        5 => "5",
        6 => "6",
        7 => "7",
        8 => "8",
        9 => "9",
        10 => "a",
        11 => "b",
        12 => "c",
        13 => "d",
        14 => "e",
        _ => "f",
    }
}

/// A string of exactly `len` lowercase hexadecimal characters, each drawn
/// independently and uniformly.
pub fn gen_hex_string(len: usize) -> (r: String)
    ensures
        r@.len() == len,
        forall|i: int| 0 <= i < r@.len() ==> is_hex_digit(#[trigger] r@[i]),
{
    let mut s = String::new();
    let mut i: usize = 0;
    while i < len
        invariant
            i <= len,
            s@.len() == i,
            forall|j: int| 0 <= j < s@.len() ==> is_hex_digit(#[trigger] s@[j]),
        decreases len - i,
    {
        let d = random_below(16);
        s.append(hex_digit_str(d));
        i = i + 1;
    }
    s
}

/// The character sequences of a sequence of strings.
pub open spec fn views_of(s: Seq<String>) -> Seq<Seq<char>> {
    s.map_values(|x: String| x@)
}

proof fn lemma_views_remove(s: Seq<String>, i: int)
    requires
        0 <= i < s.len(),
    ensures
        views_of(s.remove(i)) =~= views_of(s).remove(i),
{
}

proof fn lemma_views_push(s: Seq<String>, x: String)
    ensures
        views_of(s.push(x)) =~= views_of(s).push(x@),
{
}

fn clone_strings(v: &Vec<String>) -> (r: Vec<String>)
    ensures
        r@.len() == v@.len(),
        views_of(r@) =~= views_of(v@),
{
    let mut r: Vec<String> = Vec::new();
    let mut i: usize = 0;
    while i < v.len()
        invariant
            i <= v@.len(),
            r@.len() == i,
            forall|j: int| 0 <= j < i ==> #[trigger] r@[j]@ == v@[j]@,
        decreases v@.len() - i,
    {
        r.push(v[i].clone());
        i = i + 1;
    }
    r
}

/// Chooses up to `count` elements from `candidates`, without repetition and
/// in random order. A request for more elements than the pool holds is
/// clamped: the whole pool comes back.
pub fn choose_without_replacement(candidates: &Vec<String>, count: usize) -> (r: Vec<String>)
    ensures
        r@.len() == if count as int <= candidates@.len() {
            count as int
        } else {
            candidates@.len() as int
        },
        forall|x: Seq<char>|
            #[trigger] views_of(r@).to_multiset().count(x) <= views_of(
                candidates@,
            ).to_multiset().count(x),
        forall|i: int| 0 <= i < r@.len() ==> views_of(candidates@).contains(#[trigger] r@[i]@),
        views_of(candidates@).no_duplicates() ==> views_of(r@).no_duplicates(),
{
    broadcast use vstd::seq_lib::group_to_multiset_ensures;
    broadcast use vstd::multiset::group_multiset_axioms;

    let mut pool = clone_strings(candidates);
    let mut out: Vec<String> = Vec::new();
    proof {
        assert(views_of(out@).to_multiset().add(views_of(pool@).to_multiset()) =~= views_of(
            candidates@,
        ).to_multiset());
    }
    while out.len() < count && pool.len() > 0
        invariant
            out@.len() + pool@.len() == candidates@.len(),
            out@.len() <= count,
            views_of(out@).to_multiset().add(views_of(pool@).to_multiset()) =~= views_of(
                candidates@,
            ).to_multiset(),
        decreases pool@.len(),
    {
        let ghost pool0 = pool@;
        let ghost out0 = out@;
        let i = random_index(pool.len());
        let x = pool.remove(i);
        out.push(x);
        proof {
            lemma_views_remove(pool0, i as int);
            lemma_views_push(out0, x);
            vstd::seq_lib::to_multiset_remove(views_of(pool0), i as int);
            vstd::seq_lib::to_multiset_build(views_of(out0), x@);
            vstd::seq_lib::to_multiset_contains(views_of(pool0), x@);
            assert(views_of(pool0)[i as int] == x@);
            assert(views_of(pool0).contains(x@));
            assert(views_of(pool0).to_multiset().count(x@) > 0);
            assert(views_of(pool@).to_multiset() =~= views_of(pool0).to_multiset().remove(x@));
            assert(views_of(out@).to_multiset() =~= views_of(out0).to_multiset().insert(x@));
            assert(views_of(out@).to_multiset().add(views_of(pool@).to_multiset()) =~= views_of(
                candidates@,
            ).to_multiset());
        }
    }
    proof {
        assert forall|j: int| 0 <= j < out@.len() implies views_of(candidates@).contains(
            #[trigger] out@[j]@,
        ) by {
            assert(views_of(out@)[j] == out@[j]@);
            assert(views_of(out@).contains(out@[j]@));
            assert(views_of(out@).to_multiset().count(out@[j]@) > 0);
            assert(views_of(candidates@).to_multiset().count(out@[j]@) > 0);
        }
        if views_of(candidates@).no_duplicates() {
            views_of(candidates@).lemma_multiset_has_no_duplicates();
            assert forall|x: Seq<char>|
                views_of(out@).to_multiset().contains(x) implies views_of(
                out@,
            ).to_multiset().count(x) == 1 by {
                assert(views_of(candidates@).to_multiset().count(x) > 0);
            }
            views_of(out@).lemma_multiset_has_no_duplicates_conv();
        }
    }
    out
}

} // verus!
