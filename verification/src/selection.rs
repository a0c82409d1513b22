use crate::apitypes::Run;
use crate::strutil::{lemma_lex_lt_connected, lemma_lex_lt_irrefl, lemma_lex_lt_trans, lex_lt,
    str_lt};
use vstd::prelude::*;

verus! {

/// A run that carries no verification timestamp.
pub open spec fn unverified(r: Run) -> bool {
    r.run.status.verify_date is None
}

/// The verification timestamp of a verified run (the empty sequence for an
/// unverified one, which the selection rule never compares by date).
pub open spec fn verify_date_of(r: Run) -> Seq<char> {
    match r.run.status.verify_date {
        Option::Some(d) => d@,
        Option::None => Seq::empty(),
    }
}

/// Whether `next` displaces `held` in the selection fold. A missing
/// verification timestamp counts as the greatest possible value, so a run
/// without one always displaces the held candidate; otherwise a strictly
/// later timestamp displaces an earlier one, and a run can never displace a
/// held candidate that has no timestamp.
pub open spec fn displaces(next: Run, held: Run) -> bool {
    match next.run.status.verify_date {
        Option::None => true,
        Option::Some(n) => match held.run.status.verify_date {
            Option::None => false,
            Option::Some(h) => lex_lt(h@, n@),
        },
    }
}

/// The selection rule: fold the listing left to right, keeping the held
/// candidate unless the next run displaces it.
pub open spec fn spec_select(runs: Seq<Run>) -> Option<Run>
    decreases runs.len(),
{
    if runs.len() == 0 {
        Option::None
    } else {
        match spec_select(runs.drop_last()) {
            Option::None => Option::Some(runs.last()),
            Option::Some(y) => if displaces(runs.last(), y) {
                Option::Some(runs.last())
            } else {
                Option::Some(y)
            },
        }
    }
}

fn run_displaces(next: &Run, held: &Run) -> (r: bool)
    ensures
        r == displaces(*next, *held),
{
    match &next.run.status.verify_date {
        Option::None => true,
        Option::Some(n) => match &held.run.status.verify_date {
            Option::None => false,
            Option::Some(h) => str_lt(h, n),
        },
    }
}

/// Selects the latest personal-best of a listing, by the fold above.
/// Returns the index of the selected run; nothing only for an empty listing.
pub fn select_latest_run(runs: &Vec<Run>) -> (r: Option<usize>)
    ensures
        match r {
            Option::None => runs@.len() == 0,
            Option::Some(i) => i < runs@.len() && spec_select(runs@) == Option::Some(
                runs@[i as int],
            ),
        },
{
    if runs.len() == 0 {
        return Option::None;
    }
    let mut best: usize = 0;
    let mut i: usize = 1;
    proof {
        assert(runs@.take(1).drop_last() =~= Seq::<Run>::empty());
        assert(runs@.take(1).last() == runs@[0]);
        assert(spec_select(Seq::<Run>::empty()) is None);
    }
    while i < runs.len()
        invariant
            0 < i <= runs@.len(),
            best < i,
            spec_select(runs@.take(i as int)) == Option::Some(runs@[best as int]),
        decreases runs@.len() - i,
    {
        let ghost t = runs@.take(i as int);
        let ghost t1 = runs@.take(i + 1);
        proof {
            assert(t1.drop_last() =~= t);
            assert(t1.last() == runs@[i as int]);
        }
        if run_displaces(&runs[i], &runs[best]) {
            best = i;
        }
        i = i + 1;
    }
    proof {
        assert(runs@.take(runs@.len() as int) =~= runs@);
    }
    Option::Some(best)
}

// ---------------------------------------------------------------------------
// Laws of the selection rule
// ---------------------------------------------------------------------------

/// Some run of the listing has no verification timestamp.
pub open spec fn has_unverified(s: Seq<Run>) -> bool {
    exists|q: Run| s.contains(q) && unverified(q)
}

/// No two distinct runs of the listing both lack a verification timestamp.
pub open spec fn at_most_one_unverified(s: Seq<Run>) -> bool {
    forall|p: Run, q: Run|
        s.contains(p) && s.contains(q) && unverified(p) && unverified(q) ==> p == q
}

/// No two distinct verified runs of the listing share a verification
/// timestamp.
pub open spec fn distinct_verify_dates(s: Seq<Run>) -> bool {
    forall|p: Run, q: Run|
        s.contains(p) && s.contains(q) && !unverified(p) && !unverified(q) && verify_date_of(p)
            == verify_date_of(q) ==> p == q
}

/// What it means for `r` to be the run the selection rule must produce,
/// stated without reference to the order of the listing: `r` is a member;
/// when some run is unverified, `r` is unverified; otherwise `r` has a
/// strictly later verification timestamp than every other member.
pub open spec fn is_selected(s: Seq<Run>, r: Run) -> bool {
    &&& s.contains(r)
    &&& if has_unverified(s) {
        unverified(r)
    } else {
        forall|q: Run|
            s.contains(q) && q != r ==> lex_lt(verify_date_of(q), verify_date_of(r))
    }
}

proof fn lemma_drop_last_contains(s: Seq<Run>, q: Run)
    requires
        s.len() > 0,
        s.contains(q),
    ensures
        s.drop_last().contains(q) || q == s.last(),
{
    let i = choose|i: int| 0 <= i < s.len() && s[i] == q;
    if i < s.len() - 1 {
        assert(s.drop_last()[i] == q);
    }
}

proof fn lemma_contains_drop_last(s: Seq<Run>, q: Run)
    requires
        s.len() > 0,
        s.drop_last().contains(q),
    ensures
        s.contains(q),
{
    let i = choose|i: int| 0 <= i < s.drop_last().len() && s.drop_last()[i] == q;
    assert(s[i] == q);
}

/// The fold's result satisfies the order-free description `is_selected`,
/// provided at most one run is unverified, and — when every run is verified
/// — no two distinct runs share a timestamp.
proof fn lemma_select_characterizes(s: Seq<Run>)
    requires
        s.len() > 0,
        at_most_one_unverified(s),
        has_unverified(s) || distinct_verify_dates(s),
    ensures
        spec_select(s) is Some,
        is_selected(s, spec_select(s)->0),
    decreases s.len(),
{
    let t = s.drop_last();
    let x = s.last();
    assert(s.contains(x)) by {
        assert(s[s.len() - 1] == x);
    }
    assert forall|q: Run| t.contains(q) implies s.contains(q) by {
        lemma_contains_drop_last(s, q);
    }
    if t.len() == 0 {
        let r = spec_select(s)->0;
        assert(r == x);
        assert forall|q: Run| s.contains(q) implies q == x by {
            let i = choose|i: int| 0 <= i < s.len() && s[i] == q;
        }
        if has_unverified(s) {
            let u = choose|u: Run| s.contains(u) && unverified(u);
            assert(u == x);
        }
    } else if unverified(x) {
        // the newcomer has no timestamp: it displaces whatever is held
        lemma_select_member(t);
        assert(spec_select(s) == Option::Some(x));
        assert(has_unverified(s));
    } else {
        assert(has_unverified(t) || distinct_verify_dates(t)) by {
            if has_unverified(s) {
                let u = choose|u: Run| s.contains(u) && unverified(u);
                lemma_drop_last_contains(s, u);
                assert(u != x);
            }
        }
        lemma_select_characterizes(t);
        let y = spec_select(t)->0;
        if has_unverified(t) {
            // the held candidate has no timestamp and is never displaced
            assert(unverified(y));
            assert(!displaces(x, y));
            assert(spec_select(s) == Option::Some(y));
            assert(has_unverified(s));
        } else {
            // everything is verified: the fold keeps the latest timestamp
            assert(!has_unverified(s)) by {
                if has_unverified(s) {
                    let u = choose|u: Run| s.contains(u) && unverified(u);
                    lemma_drop_last_contains(s, u);
                }
            }
            let xd = verify_date_of(x);
            let yd = verify_date_of(y);
            if displaces(x, y) {
                assert(lex_lt(yd, xd));
                assert(spec_select(s) == Option::Some(x));
                assert forall|q: Run| s.contains(q) && q != x implies lex_lt(
                    verify_date_of(q),
                    verify_date_of(x),
                ) by {
                    lemma_drop_last_contains(s, q);
                    if q != y {
                        assert(lex_lt(verify_date_of(q), yd));
                        lemma_lex_lt_trans(verify_date_of(q), yd, xd);
                    }
                }
            } else {
                assert(!lex_lt(yd, xd));
                assert(spec_select(s) == Option::Some(y));
                assert forall|q: Run| s.contains(q) && q != y implies lex_lt(
                    verify_date_of(q),
                    verify_date_of(y),
                ) by {
                    lemma_drop_last_contains(s, q);
                    if q == x {
                        if !lex_lt(xd, yd) {
                            lemma_lex_lt_connected(yd, xd);
                            assert(verify_date_of(x) == verify_date_of(y));
                            assert(x == y);
                            assert(false);
                        }
                    }
                }
            }
        }
    }
}

/// Two listings with the same members agree on `is_selected`.
proof fn lemma_selected_transfers(s1: Seq<Run>, s2: Seq<Run>, r: Run)
    requires
        forall|q: Run| s1.contains(q) <==> s2.contains(q),
        is_selected(s1, r),
    ensures
        is_selected(s2, r),
{
    if has_unverified(s1) {
        let u = choose|u: Run| s1.contains(u) && unverified(u);
        assert(s2.contains(u));
        assert(has_unverified(s2));
    } else {
        assert(!has_unverified(s2)) by {
            if has_unverified(s2) {
                let u = choose|u: Run| s2.contains(u) && unverified(u);
                assert(s1.contains(u));
            }
        }
    }
}

/// Only one run can satisfy the order-free description.
proof fn lemma_selected_unique(s: Seq<Run>, r1: Run, r2: Run)
    requires
        at_most_one_unverified(s),
        is_selected(s, r1),
        is_selected(s, r2),
    ensures
        r1 == r2,
{
    if has_unverified(s) {
        assert(unverified(r1) && unverified(r2));
    } else {
        if r1 != r2 {
            assert(lex_lt(verify_date_of(r2), verify_date_of(r1)));
            assert(lex_lt(verify_date_of(r1), verify_date_of(r2)));
            lemma_lex_lt_trans(verify_date_of(r1), verify_date_of(r2), verify_date_of(r1));
            lemma_lex_lt_irrefl(verify_date_of(r1));
        }
    }
}

/// Law: whatever the selection rule returns is a member of the listing.
pub proof fn lemma_select_member(s: Seq<Run>)
    ensures
        s.len() == 0 ==> spec_select(s) is None,
        s.len() > 0 ==> spec_select(s) is Some && s.contains(spec_select(s)->0),
    decreases s.len(),
{
    if s.len() > 0 {
        let t = s.drop_last();
        lemma_select_member(t);
        assert(s[s.len() - 1] == s.last());
        if t.len() > 0 && !displaces(s.last(), spec_select(t)->0) {
            lemma_contains_drop_last(s, spec_select(t)->0);
        }
    }
}

/// Law: the selection rule is invariant to the order of the listing, as
/// long as at most one run is unverified and — when every run is verified —
/// no two distinct runs share a verification timestamp. Neither restriction
/// can be dropped: of two distinct unverified runs, and likewise of two
/// all-verified runs sharing the latest timestamp, the fold keeps the one
/// that comes later or earlier in the listing respectively.
pub proof fn lemma_select_order_invariant(s1: Seq<Run>, s2: Seq<Run>)
    requires
        s1.to_multiset() == s2.to_multiset(),
        at_most_one_unverified(s1),
        has_unverified(s1) || distinct_verify_dates(s1),
    ensures
        spec_select(s1) == spec_select(s2),
{
    broadcast use vstd::seq_lib::group_to_multiset_ensures;

    assert forall|q: Run| s1.contains(q) <==> s2.contains(q) by {
        assert(s1.contains(q) <==> s1.to_multiset().count(q) > 0);
        assert(s2.contains(q) <==> s2.to_multiset().count(q) > 0);
    }
    assert(s1.len() == s1.to_multiset().len());
    assert(s2.len() == s2.to_multiset().len());
    if s1.len() == 0 {
        assert(s2.len() == 0);
    } else {
        assert(at_most_one_unverified(s2));
        if has_unverified(s1) {
            let u = choose|u: Run| s1.contains(u) && unverified(u);
            assert(s2.contains(u));
            assert(has_unverified(s2));
        } else {
            assert(distinct_verify_dates(s2));
        }
        lemma_select_characterizes(s1);
        lemma_select_characterizes(s2);
        let w1 = spec_select(s1)->0;
        let w2 = spec_select(s2)->0;
        lemma_selected_transfers(s2, s1, w2);
        lemma_selected_unique(s1, w1, w2);
    }
}

/// Law: a run without a verification timestamp is selected over every
/// verified run, whatever their timestamps and wherever it stands in the
/// listing — provided it is the only unverified one.
pub proof fn lemma_unverified_wins(s: Seq<Run>, u: Run)
    requires
        s.contains(u),
        unverified(u),
        at_most_one_unverified(s),
    ensures
        spec_select(s) == Option::Some(u),
{
    assert(s.len() > 0);
    assert(has_unverified(s));
    lemma_select_characterizes(s);
    let w = spec_select(s)->0;
    assert(unverified(w));
}

} // verus!
