//! Ordering by date, most recent first: the order in which interrupted
//! sessions and stored recordings are listed.

use vstd::prelude::*;
use vstd::string::*;

use crate::text::{lemma_seq_lt_irreflexive, lemma_seq_lt_transitive, seq_lt, str_lt};

verus! {

/// Something listed by a date written as sortable text.
pub trait Dated {
    /// The date's text.
    spec fn date(&self) -> Seq<char>;

    /// The date's text, to compare in executable code.
    fn date_str(&self) -> (r: &str)
        ensures
            r@ == self.date();
}

/// Most recent first: no item has an earlier date than one after it.
pub open spec fn newest_first<T: Dated>(s: Seq<T>) -> bool {
    forall|a: int, b: int| 0 <= a < b < s.len() ==> !seq_lt(#[trigger] s[a].date(), #[trigger] s[b].date())
}

/// No two positions of `s` hold the same value.
pub open spec fn all_different<T>(s: Seq<T>) -> bool {
    forall|a: int, b: int| 0 <= a < s.len() && 0 <= b < s.len() && a != b ==> #[trigger] s[a] != #[trigger] s[b]
}

/// Every element of `out` is one of the first `n` elements of `orig`.
#[verifier::opaque]
pub open spec fn drawn_from<T>(out: Seq<T>, orig: Seq<T>, n: int) -> bool {
    forall|k: int|
        #![trigger out[k]]
        0 <= k < out.len() ==> exists|j: int| #![trigger orig[j]] 0 <= j < n && out[k] == orig[j]
}

/// Each of the first `n` elements of `orig` is in `out`.
#[verifier::opaque]
pub open spec fn holds_all<T>(out: Seq<T>, orig: Seq<T>, n: int) -> bool {
    forall|j: int|
        #![trigger orig[j]]
        0 <= j < n ==> exists|k: int| #![trigger out[k]] 0 <= k < out.len() && out[k] == orig[j]
}

proof fn lemma_insert_drawn<T>(
    before: Seq<T>,
    orig: Seq<T>,
    n: int,
    p: int,
)
    requires
        0 <= n < orig.len(),
        0 <= p <= before.len(),
        drawn_from(before, orig, n),
    ensures
        drawn_from(before.insert(p, orig[n]), orig, n + 1),
{
    reveal(drawn_from);
    let after = before.insert(p, orig[n]);
    before.insert_ensures(p, orig[n]);
    assert forall|k: int| #![trigger after[k]] 0 <= k < after.len() implies exists|j: int|
        #![trigger orig[j]]
        0 <= j < n + 1 && after[k] == orig[j] by {
        if k < p {
            assert(after[k] == before[k]);
            let j = choose|j: int| #![trigger orig[j]] 0 <= j < n && before[k] == orig[j];
            assert(after[k] == orig[j]);
        } else if k == p {
            assert(after[k] == orig[n]);
        } else {
            assert(after[k] == before[k - 1]);
            let j = choose|j: int| #![trigger orig[j]] 0 <= j < n && before[k - 1] == orig[j];
            assert(after[k] == orig[j]);
        }
    }
}

proof fn lemma_insert_holds<T>(
    before: Seq<T>,
    orig: Seq<T>,
    n: int,
    p: int,
)
    requires
        0 <= n < orig.len(),
        0 <= p <= before.len(),
        holds_all(before, orig, n),
    ensures
        holds_all(before.insert(p, orig[n]), orig, n + 1),
{
    reveal(holds_all);
    let after = before.insert(p, orig[n]);
    before.insert_ensures(p, orig[n]);
    assert forall|j: int| #![trigger orig[j]] 0 <= j < n + 1 implies exists|k: int|
        #![trigger after[k]]
        0 <= k < after.len() && after[k] == orig[j] by {
        if j < n {
            let k = choose|k: int| #![trigger before[k]] 0 <= k < before.len() && before[k] == orig[j];
            if k < p {
                assert(after[k] == before[k]);
            } else {
                assert(after[k + 1] == before[k]);
            }
        } else {
            assert(after[p] == orig[j]);
        }
    }
}

proof fn lemma_insert_all_different<T>(before: Seq<T>, orig: Seq<T>, n: int, p: int)
    requires
        0 <= n < orig.len(),
        0 <= p <= before.len(),
        drawn_from(before, orig, n),
        all_different(before),
        all_different(orig),
    ensures
        all_different(before.insert(p, orig[n])),
{
    reveal(drawn_from);
    let after = before.insert(p, orig[n]);
    before.insert_ensures(p, orig[n]);
    assert forall|a: int, b: int|
        0 <= a < after.len() && 0 <= b < after.len() && a != b implies #[trigger] after[a]
        != #[trigger] after[b] by {
        if a != p && b != p {
            let a0 = if a < p { a } else { a - 1 };
            let b0 = if b < p { b } else { b - 1 };
            assert(after[a] == before[a0]);
            assert(after[b] == before[b0]);
        } else {
            let o = if a == p { b } else { a };
            let o0 = if o < p { o } else { o - 1 };
            assert(after[o] == before[o0]);
            let jo = choose|j: int| #![trigger orig[j]] 0 <= j < n && before[o0] == orig[j];
            assert(orig[jo] != orig[n]);
        }
    }
}

proof fn lemma_insert_sorted<T: Dated>(before: Seq<T>, x: T, p: int)
    requires
        0 <= p <= before.len(),
        newest_first(before),
        forall|a: int| 0 <= a < p ==> !seq_lt(#[trigger] before[a].date(), x.date()),
        p < before.len() ==> seq_lt(before[p].date(), x.date()),
    ensures
        newest_first(before.insert(p, x)),
{
    let after = before.insert(p, x);
    before.insert_ensures(p, x);
    assert forall|a: int, b: int| 0 <= a < b < after.len() implies !seq_lt(
        #[trigger] after[a].date(),
        #[trigger] after[b].date(),
    ) by {
        let xt = x.date();
        if b < p {
            assert(after[a] == before[a]);
            assert(after[b] == before[b]);
        } else if b == p {
            assert(after[a] == before[a]);
        } else if a < p {
            assert(after[a] == before[a]);
            assert(after[b] == before[b - 1]);
        } else if a == p {
            assert(after[b] == before[b - 1]);
            let pt = before[p].date();
            let bt = before[b - 1].date();
            if seq_lt(xt, bt) {
                lemma_seq_lt_transitive(pt, xt, bt);
                if b - 1 > p {
                    assert(!seq_lt(before[p].date(), before[b - 1].date()));
                } else {
                    lemma_seq_lt_irreflexive(pt);
                }
            }
        } else {
            assert(after[a] == before[a - 1]);
            assert(after[b] == before[b - 1]);
        }
    }
}

/// Orders items most recent first, keeping the given order among items
/// with equal dates.
pub fn sort_newest_first<T: Dated>(groups: Vec<T>) -> (r: Vec<T>)
    ensures
        r@.len() == groups@.len(),
        drawn_from(r@, groups@, groups@.len() as int),
        holds_all(r@, groups@, groups@.len() as int),
        all_different(groups@) ==> all_different(r@),
        newest_first(r@),
{
    let ghost orig = groups@;
    let mut rest = groups;
    let mut out: Vec<T> = Vec::new();
    let mut n: usize = 0;
    assert(orig.skip(0) =~= orig);
    proof {
        reveal(drawn_from);
        reveal(holds_all);
    }
    while rest.len() > 0
        invariant
            n <= orig.len(),
            rest@ == orig.skip(n as int),
            rest@.len() == orig.len() - n,
            out@.len() == n,
            all_different(orig) ==> all_different(out@),
            drawn_from(out@, orig, n as int),
            holds_all(out@, orig, n as int),
            newest_first(out@),
        decreases rest.len(),
    {
        let x = rest.remove(0);
        assert(x == orig[n as int]);
        assert(rest@ =~= orig.skip(n + 1));
        let mut p: usize = 0;
        while p < out.len() && !str_lt(out[p].date_str(), x.date_str())
            invariant
                p <= out@.len(),
                forall|a: int| 0 <= a < p ==> !seq_lt(#[trigger] out@[a].date(), x.date()),
            decreases out.len() - p,
        {
            p = p + 1;
        }
        let ghost before = out@;
        proof {
            lemma_insert_drawn(before, orig, n as int, p as int);
            lemma_insert_holds(before, orig, n as int, p as int);
            if all_different(orig) {
                lemma_insert_all_different(before, orig, n as int, p as int);
            }
            lemma_insert_sorted(before, x, p as int);
        }
        out.insert(p, x);
        n = out.len();
    }
    assert(orig.skip(n as int).len() == 0);
    out
}


} // verus!
