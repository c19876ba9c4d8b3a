//! Repeat guard for the greedy decode loops of the vision-language OCR engines.
//!
//! A page with a dense, visually repetitive region can push a plain argmax decoder into a run of
//! tokens that reproduces the same short unit for ever instead of ending the text. This module
//! recognises an exactly periodic tail and lets the caller stop early, keeping one copy of the
//! unit.

use vstd::prelude::*;

verus! {

/// Number of trailing token ids examined for an exactly periodic run.
///
/// A wide table row of identical cells has period 2 or 3, so 32 tokens are well within legitimate
/// output; 64 tokens are outside anything that a real page produces.
pub const REPEAT_GUARD_WINDOW: usize = 64;

/// Largest period, in tokens, that counts as a degenerate repeat.
pub const REPEAT_GUARD_MAX_PERIOD: usize = 8;

/// Every id that has one `period` positions before it equals that one.
pub open spec fn periodic(ids: Seq<u32>, period: int) -> bool {
    forall|i: int| #![trigger ids[i]] period <= i < ids.len() ==> ids[i] == ids[i - period]
}

/// The last `window` ids, the part of the output that the guard looks at.
pub open spec fn tail(ids: Seq<u32>, window: int) -> Seq<u32> {
    ids.subrange(ids.len() - window, ids.len() as int)
}

/// `period` is one that the guard reports for a tail: positive, at most `max_period`, and the
/// tail repeats with it.
pub open spec fn degenerate(tail: Seq<u32>, max_period: int, period: int) -> bool {
    &&& 1 <= period <= max_period
    &&& period <= tail.len()
    &&& periodic(tail, period)
}

/// From `from` on, every id repeats the one `period` positions before it.
pub open spec fn repeats_from(ids: Seq<u32>, period: int, from: int) -> bool {
    forall|i: int| #![trigger ids[i]] from <= i < ids.len() ==> ids[i] == ids[i - period]
}

/// The last `period` ids are a copy of the `period` ids before them.
pub open spec fn ends_in_repeat(ids: Seq<u32>, period: int) -> bool {
    &&& ids.len() >= 2 * period
    &&& forall|i: int|
        #![trigger ids[i]]
        ids.len() - period <= i < ids.len() ==> ids[i] == ids[i - period]
}

/// `kept` is `ids` without the trailing whole copies of its last unit of `period` ids: only whole
/// units are cut off, each of them repeats what stands before it, and what is kept ends in no
/// further repeat.
pub open spec fn collapsed(ids: Seq<u32>, period: int, kept: Seq<u32>) -> bool {
    &&& period <= kept.len() <= ids.len()
    &&& kept == ids.take(kept.len() as int)
    &&& (ids.len() - kept.len()) % period == 0
    &&& repeats_from(ids, period, kept.len() as int)
    &&& !ends_in_repeat(kept, period)
}

/// What truncation makes of `ids`: `collapsed` where `period` is usable, `ids` itself where it is
/// zero or longer than `ids`.
pub open spec fn truncated(ids: Seq<u32>, period: int, kept: Seq<u32>) -> bool {
    if period == 0 || period > ids.len() {
        kept == ids
    } else {
        collapsed(ids, period, kept)
    }
}

/// Wrapping around the first `period` ids and looking back by `period` come to the same.
pub proof fn lemma_periodic_wraps(ids: Seq<u32>, period: int)
    requires
        period > 0,
    ensures
        periodic(ids, period) <==> (forall|i: int|
            #![trigger ids[i]]
            0 <= i < ids.len() ==> ids[i] == ids[i % period]),
{
    if periodic(ids, period) {
        assert forall|i: int| #![trigger ids[i]] 0 <= i < ids.len() implies ids[i] == ids[i
            % period] by {
            lemma_periodic_at(ids, period, i);
        }
    }
    if forall|i: int| #![trigger ids[i]] 0 <= i < ids.len() ==> ids[i] == ids[i % period] {
        assert forall|i: int| #![trigger ids[i]] period <= i < ids.len() implies ids[i] == ids[i
            - period] by {
            assert(i % period == (i - period) % period) by {
                vstd::arithmetic::div_mod::lemma_mod_sub_multiples_vanish(i, period);
            }
            assert(ids[i - period] == ids[(i - period) % period]);
        }
    }
}

proof fn lemma_periodic_at(ids: Seq<u32>, period: int, i: int)
    requires
        period > 0,
        periodic(ids, period),
        0 <= i < ids.len(),
    ensures
        ids[i] == ids[i % period],
    decreases i,
{
    if i < period {
        vstd::arithmetic::div_mod::lemma_small_mod(i as nat, period as nat);
    } else {
        lemma_periodic_at(ids, period, i - period);
        vstd::arithmetic::div_mod::lemma_mod_sub_multiples_vanish(i, period);
    }
}

/// True when every element of `tail` equals the element `period` positions earlier. A period of
/// zero is none.
pub fn is_periodic(tail: &[u32], period: usize) -> (r: bool)
    ensures
        r == (period > 0 && periodic(tail@, period as int)),
        r <==> period > 0 && forall|i: int|
            #![trigger tail@[i]]
            0 <= i < tail@.len() ==> tail@[i] == tail@[i % period as int],
{
    if period == 0 {
        return false;
    }
    let mut index: usize = 0;
    while index < tail.len()
        invariant
            period > 0,
            index <= tail.len(),
            forall|i: int| #![trigger tail@[i]] 0 <= i < index ==> tail@[i] == tail@[i % period as int],
        decreases tail.len() - index,
    {
        proof {
            vstd::arithmetic::div_mod::lemma_mod_decreases(index as nat, period as nat);
        }
        if tail[index] != tail[index % period] {
            proof {
                lemma_periodic_wraps(tail@, period as int);
            }
            return false;
        }
        index += 1;
    }
    proof {
        lemma_periodic_wraps(tail@, period as int);
    }
    true
}

/// Return `Some(period)` when the last `window` ids of `ids` are exactly periodic with some
/// period in `1..=max_period`; the smallest such period is the one reported. Return `None` when
/// `window` is zero, when `ids` is shorter than `window`, or when no such period exists.
#[must_use]
pub fn degenerate_tail_period(ids: &[u32], window: usize, max_period: usize) -> (r: Option<usize>)
    ensures
        match r {
            Some(period) => {
                &&& 0 < window <= ids@.len()
                &&& degenerate(tail(ids@, window as int), max_period as int, period as int)
                &&& forall|p: int|
                    p < period ==> !degenerate(tail(ids@, window as int), max_period as int, p)
            },
            None => window == 0 || window > ids@.len() || forall|p: int|
                !degenerate(tail(ids@, window as int), max_period as int, p),
        },
        r matches Some(period) ==> 1 <= period <= max_period && period <= window <= ids@.len()
            && forall|i: int|
            #![trigger ids@[i]]
            ids@.len() - window + period <= i < ids@.len() ==> ids@[i] == ids@[i - period],
        ids@.len() < window || window == 0 ==> r is None,
{
    if ids.len() < window || window == 0 {
        return None;
    }
    let tail_ids: &[u32] = vstd::slice::slice_subrange(ids, ids.len() - window, ids.len());
    let limit: usize = if max_period < window {
        max_period
    } else {
        window
    };
    let mut period: usize = 0;
    while period < limit
        invariant
            period <= limit,
            limit <= window,
            limit <= max_period,
            limit == max_period || limit == window,
            window == tail_ids@.len(),
            0 < window <= ids@.len(),
            tail_ids@ == tail(ids@, window as int),
            forall|p: int| p <= period ==> !degenerate(tail_ids@, max_period as int, p),
        decreases limit - period,
    {
        period += 1;
        if is_periodic(tail_ids, period) {
            proof {
                law_degenerate_is_repetition(
                    ids@,
                    window as int,
                    max_period as int,
                    period as int,
                );
            }
            return Some(period);
        }
    }
    None
}

/// Truncate a trailing run of `ids` that is exactly periodic with `period`, keeping exactly one
/// copy of the repeating unit. Any non-periodic prefix is left untouched.
///
/// Does nothing when `period` is zero or larger than `ids`.
pub fn truncate_degenerate_tail(ids: &mut Vec<u32>, period: usize)
    ensures
        truncated(old(ids)@, period as int, final(ids)@),
        final(ids)@.len() <= old(ids)@.len(),
        final(ids)@ == old(ids)@.take(final(ids)@.len() as int),
        period == 0 || period > old(ids)@.len() ==> final(ids)@ == old(ids)@,
        period > 0 ==> forall|i: int|
            #![trigger old(ids)@[i]]
            final(ids)@.len() <= i < old(ids)@.len() ==> old(ids)@[i] == old(ids)@[i - period],
{
    if period == 0 || period > ids.len() {
        return;
    }
    let mut boundary: usize = ids.len();
    let ghost original = ids@;
    proof {
        assert(original.take(boundary as int) == original);
        assert(0int % (period as int) == 0) by {
            vstd::arithmetic::div_mod::lemma_small_mod(0, period as nat);
        }
    }
    while boundary - period >= period && same_unit(ids, boundary, period)
        invariant
            ids@ == original,
            0 < period <= boundary <= original.len(),
            (original.len() - boundary) % (period as int) == 0,
            repeats_from(original, period as int, boundary as int),
        decreases boundary,
    {
        proof {
            vstd::arithmetic::div_mod::lemma_mod_add_multiples_vanish(
                original.len() - boundary,
                period as int,
            );
        }
        boundary -= period;
    }
    ids.truncate(boundary);
    proof {
        assert(ids@ == original.take(boundary as int));
        assert(!ends_in_repeat(ids@, period as int)) by {
            if ends_in_repeat(ids@, period as int) {
                assert forall|i: int| #![trigger original[i]]
                    boundary - period <= i < boundary implies original[i] == original[i
                    - period] by {
                    assert(ids@[i] == ids@[i - period]);
                }
            }
        }
    }
}

/// The unit that ends at `boundary` equals the unit before it.
fn same_unit(ids: &Vec<u32>, boundary: usize, period: usize) -> (r: bool)
    requires
        2 * period <= boundary <= ids@.len(),
    ensures
        r == (forall|i: int|
            #![trigger ids@[i]]
            boundary - period <= i < boundary ==> ids@[i] == ids@[i - period]),
{
    let mut i: usize = boundary - period;
    while i < boundary
        invariant
            2 * period <= boundary <= ids@.len(),
            boundary - period <= i <= boundary,
            forall|j: int|
                #![trigger ids@[j]]
                boundary - period <= j < i ==> ids@[j] == ids@[j - period],
        decreases boundary - i,
    {
        if ids[i] != ids[i - period] {
            return false;
        }
        i += 1;
    }
    true
}

/// Check the trailing [`REPEAT_GUARD_WINDOW`] ids of `ids` for a degenerate period and, if one is
/// found, truncate the run in place, keeping one copy of the unit, and return the period.
#[must_use]
pub fn stop_if_degenerate(ids: &mut Vec<u32>) -> (r: Option<usize>)
    ensures
        r matches Some(period) ==> 1 <= period <= 8 && old(ids)@.len() >= 64 && forall|i: int|
            #![trigger old(ids)@[i]]
            old(ids)@.len() - 64 + period <= i < old(ids)@.len() ==> old(ids)@[i] == old(ids)@[i
                - period],
        r is None ==> final(ids)@ == old(ids)@,
        r is None && old(ids)@.len() >= 64 ==> forall|p: int|
            1 <= p <= 8 ==> !#[trigger] repeats_from(old(ids)@, p, old(ids)@.len() - 64 + p),
        match r {
            Some(period) => {
                &&& REPEAT_GUARD_WINDOW <= old(ids)@.len()
                &&& degenerate(
                    tail(old(ids)@, REPEAT_GUARD_WINDOW as int),
                    REPEAT_GUARD_MAX_PERIOD as int,
                    period as int,
                )
                &&& forall|p: int|
                    p < period ==> !degenerate(
                        tail(old(ids)@, REPEAT_GUARD_WINDOW as int),
                        REPEAT_GUARD_MAX_PERIOD as int,
                        p,
                    )
                &&& collapsed(old(ids)@, period as int, final(ids)@)
            },
            None => {
                &&& final(ids)@ == old(ids)@
                &&& REPEAT_GUARD_WINDOW > old(ids)@.len() || forall|p: int|
                    !degenerate(
                        tail(old(ids)@, REPEAT_GUARD_WINDOW as int),
                        REPEAT_GUARD_MAX_PERIOD as int,
                        p,
                    )
            },
        },
{
    match degenerate_tail_period(ids.as_slice(), REPEAT_GUARD_WINDOW, REPEAT_GUARD_MAX_PERIOD) {
        Some(period) => {
            truncate_degenerate_tail(ids, period);
            Some(period)
        },
        None => {
            proof {
                if ids@.len() >= 64 {
                    assert forall|p: int| 1 <= p <= 8 implies !#[trigger] repeats_from(
                        ids@,
                        p,
                        ids@.len() - 64 + p,
                    ) by {
                        law_degenerate_is_repetition(ids@, 64, 8, p);
                    }
                }
            }
            None
        },
    }
}

/// Law: a degenerate run is cut to exactly one copy of its unit. Everything that truncation
/// removes is that last kept unit, over and over.
pub proof fn law_removed_run_is_the_kept_unit(ids: Seq<u32>, period: int, kept: Seq<u32>, i: int)
    requires
        0 < period <= ids.len(),
        truncated(ids, period, kept),
        kept.len() <= i < ids.len(),
    ensures
        ids[i] == kept[kept.len() - period + (i - kept.len()) % period],
    decreases i,
{
    let b = kept.len() as int;
    if i < b + period {
        vstd::arithmetic::div_mod::lemma_small_mod((i - b) as nat, period as nat);
        assert(ids[i] == ids[i - period]);
    } else {
        law_removed_run_is_the_kept_unit(ids, period, kept, i - period);
        vstd::arithmetic::div_mod::lemma_mod_sub_multiples_vanish(i - b, period);
        assert((i - b) % period == (i - period - b) % period);
        assert(ids[i] == ids[i - period]);
    }
}

/// Law: truncation has one possible result.
pub proof fn law_truncation_is_determined(
    ids: Seq<u32>,
    period: int,
    first: Seq<u32>,
    second: Seq<u32>,
)
    requires
        period >= 0,
        truncated(ids, period, first),
        truncated(ids, period, second),
    ensures
        first == second,
{
    if 0 < period <= ids.len() {
        lemma_not_shorter(ids, period, first, second);
        lemma_not_shorter(ids, period, second, first);
        assert(first == second);
    }
}

proof fn lemma_not_shorter(ids: Seq<u32>, period: int, first: Seq<u32>, second: Seq<u32>)
    requires
        0 < period <= ids.len(),
        collapsed(ids, period, first),
        collapsed(ids, period, second),
    ensures
        first.len() <= second.len(),
{
    let a = first.len() as int;
    let b = second.len() as int;
    if b < a {
        vstd::arithmetic::div_mod::lemma_sub_mod_noop(ids.len() - b, ids.len() - a, period);
        assert((a - b) % period == 0) by {
            vstd::arithmetic::div_mod::lemma_small_mod(0, period as nat);
            assert((ids.len() - b) - (ids.len() - a) == a - b);
        }
        assert(a - b >= period) by {
            if a - b < period {
                vstd::arithmetic::div_mod::lemma_small_mod((a - b) as nat, period as nat);
            }
        }
        assert forall|i: int| #![trigger first[i]] a - period <= i < a implies first[i] == first[i
            - period] by {
            assert(ids[i] == ids[i - period]);
        }
        assert(ends_in_repeat(first, period));
    }
}

/// Law: truncating twice is truncating once.
pub proof fn law_truncation_is_idempotent(
    ids: Seq<u32>,
    period: int,
    once: Seq<u32>,
    twice: Seq<u32>,
)
    requires
        period >= 0,
        truncated(ids, period, once),
        truncated(once, period, twice),
    ensures
        twice == once,
{
    if 0 < period <= ids.len() {
        assert(once.take(once.len() as int) == once);
        vstd::arithmetic::div_mod::lemma_small_mod(0, period as nat);
        assert(collapsed(once, period, once));
        law_truncation_is_determined(once, period, once, twice);
    }
}

/// Law: where the tail of length `window` is degenerate, truncation leaves less than two units of
/// it. With the guard's window and largest period at least 54 of the 64 ids examined are dropped.
pub proof fn law_truncation_shortens_a_degenerate_tail(
    ids: Seq<u32>,
    window: int,
    max_period: int,
    period: int,
    kept: Seq<u32>,
)
    requires
        0 < window <= ids.len(),
        degenerate(tail(ids, window), max_period, period),
        truncated(ids, period, kept),
    ensures
        kept.len() < ids.len() - window + 2 * period,
        window == REPEAT_GUARD_WINDOW && max_period == REPEAT_GUARD_MAX_PERIOD ==> ids.len()
            - kept.len() >= 54,
{
    let t = tail(ids, window);
    let b = kept.len() as int;
    if b >= ids.len() - window + 2 * period {
        assert forall|i: int| #![trigger kept[i]] b - period <= i < b implies kept[i] == kept[i
            - period] by {
            let j = i - (ids.len() - window);
            assert(t[j] == t[j - period]);
        }
        assert(ends_in_repeat(kept, period));
    }
    if window == REPEAT_GUARD_WINDOW && max_period == REPEAT_GUARD_MAX_PERIOD {
        let dropped = ids.len() - kept.len();
        assert(dropped % period == 0);
        assert(dropped > 64 - 2 * period);
        if period == 5 {
            assert(dropped % 5 == 0);
        } else if period == 6 {
            assert(dropped % 6 == 0);
        } else if period == 7 {
            assert(dropped % 7 == 0);
        } else if period == 8 {
            assert(dropped % 8 == 0);
        }
    }
}

/// Law: a prefix that does not belong to the run survives. Where the last id of the prefix is not
/// repeated one period later, truncation stops before it reaches the prefix.
pub proof fn law_truncation_keeps_the_prefix(
    ids: Seq<u32>,
    period: int,
    kept: Seq<u32>,
    start: int,
)
    requires
        0 < period,
        truncated(ids, period, kept),
        0 <= start <= ids.len() - period,
        start == 0 || ids[start - 1] != ids[start - 1 + period],
    ensures
        start <= kept.len(),
        kept.take(start) == ids.take(start),
{
    if kept.len() < start {
        assert(start - 1 + period < ids.len());
        assert(ids[start - 1 + period] == ids[start - 1]);
    }
    assert(kept.take(start) == ids.take(start));
}

/// A unit, `n` times over.
pub open spec fn copies(unit: Seq<u32>, n: nat) -> Seq<u32>
    decreases n,
{
    if n == 0 {
        Seq::empty()
    } else {
        copies(unit, (n - 1) as nat) + unit
    }
}

proof fn lemma_copies_at(unit: Seq<u32>, n: nat)
    requires
        unit.len() > 0,
    ensures
        copies(unit, n).len() == n * unit.len(),
        forall|i: int|
            #![trigger copies(unit, n)[i]]
            0 <= i < copies(unit, n).len() ==> copies(unit, n)[i] == unit[i % (unit.len() as int)],
    decreases n,
{
    let p = unit.len() as int;
    if n > 0 {
        let less = copies(unit, (n - 1) as nat);
        lemma_copies_at(unit, (n - 1) as nat);
        assert(n * p == (n - 1) * p + p) by (nonlinear_arith);
        assert forall|i: int|
            #![trigger copies(unit, n)[i]]
            0 <= i < copies(unit, n).len() implies copies(unit, n)[i] == unit[i % p] by {
            if i < less.len() {
                assert(copies(unit, n)[i] == less[i]);
            } else {
                let k = i - less.len();
                vstd::arithmetic::div_mod::lemma_mod_multiples_vanish(n - 1, k, p);
                vstd::arithmetic::div_mod::lemma_small_mod(k as nat, p as nat);
                assert((n - 1) * p == p * (n - 1)) by (nonlinear_arith);
                assert(i % p == k);
            }
        }
    } else {
        assert(0 * p == 0);
    }
}

/// Law: truncation keeps the prefix and exactly one copy of the unit, however often the unit is
/// repeated after a prefix that does not itself end in it.
pub proof fn law_run_collapses_to_one_unit(
    prefix: Seq<u32>,
    unit: Seq<u32>,
    n: nat,
    kept: Seq<u32>,
)
    requires
        unit.len() > 0,
        n > 0,
        !unit.is_suffix_of(prefix),
        truncated(prefix + copies(unit, n), unit.len() as int, kept),
    ensures
        kept == prefix + unit,
{
    let p = unit.len() as int;
    let run = copies(unit, n);
    let ids = prefix + run;
    let once = prefix + unit;
    lemma_copies_at(unit, n);
    assert(run.len() >= p) by (nonlinear_arith)
        requires
            run.len() == n * p,
            n > 0,
            p > 0,
    ;
    assert forall|i: int| 0 <= i < p implies run[i] == unit[i] by {
        vstd::arithmetic::div_mod::lemma_small_mod(i as nat, p as nat);
    }
    assert(once == ids.take(once.len() as int));
    assert((ids.len() - once.len()) % p == 0) by {
        assert(ids.len() - once.len() == (n - 1) * p) by (nonlinear_arith)
            requires
                ids.len() == prefix.len() + n * p,
                once.len() == prefix.len() + p,
        ;
        vstd::arithmetic::div_mod::lemma_mod_multiples_basic(n - 1, p);
    }
    assert forall|i: int| #![trigger ids[i]] once.len() <= i < ids.len() implies ids[i] == ids[i
        - p] by {
        let k = i - prefix.len();
        assert(ids[i] == run[k]);
        assert(ids[i - p] == run[k - p]);
        vstd::arithmetic::div_mod::lemma_mod_sub_multiples_vanish(k, p);
    }
    if ends_in_repeat(once, p) {
        assert forall|i: int| 0 <= i < p implies unit[i] == prefix[prefix.len() - p + i] by {
            let at = prefix.len() + i;
            assert(once[at] == once[at - p]);
        }
        assert(unit =~= prefix.subrange(prefix.len() - p, prefix.len() as int));
    }
    assert(collapsed(ids, p, once));
    law_truncation_is_determined(ids, p, once, kept);
}

/// Law: a tail is degenerate with a period exactly when the period is in range and every id of the
/// tail equals the one a period before it; equally, when the tail is its first ids over and over.
pub proof fn law_degenerate_is_repetition(ids: Seq<u32>, window: int, max_period: int, period: int)
    requires
        0 < window <= ids.len(),
    ensures
        tail(ids, window).len() == window,
        degenerate(tail(ids, window), max_period, period) <==> (1 <= period <= max_period && period
            <= window && forall|i: int|
            #![trigger ids[i]]
            ids.len() - window + period <= i < ids.len() ==> ids[i] == ids[i - period]),
{
    let t = tail(ids, window);
    let from = ids.len() - window;
    if degenerate(t, max_period, period) {
        assert forall|i: int| #![trigger ids[i]] from + period <= i < ids.len() implies ids[i]
            == ids[i - period] by {
            assert(t[i - from] == t[i - from - period]);
        }
    }
    if 1 <= period <= max_period && period <= window && forall|i: int|
        #![trigger ids[i]]
        from + period <= i < ids.len() ==> ids[i] == ids[i - period] {
        assert forall|i: int| #![trigger t[i]] period <= i < t.len() implies t[i] == t[i
            - period] by {
            assert(ids[from + i] == ids[from + i - period]);
        }
    }
}

/// Law: a run of a short unit is recognised. Where the last `window` ids are a unit over and over,
/// some period up to the length of the unit is reported for them.
pub proof fn law_run_is_degenerate(before: Seq<u32>, unit: Seq<u32>, n: nat, max_period: int)
    requires
        0 < unit.len() <= max_period,
        n > 0,
    ensures
        degenerate(
            tail(before + copies(unit, n), copies(unit, n).len() as int),
            max_period,
            unit.len() as int,
        ),
{
    let run = copies(unit, n);
    let p = unit.len() as int;
    lemma_copies_at(unit, n);
    assert(run.len() >= p) by (nonlinear_arith)
        requires
            run.len() == n * p,
            n > 0,
            p > 0,
    ;
    assert(tail(before + run, run.len() as int) == run);
    assert forall|i: int| #![trigger run[i]] p <= i < run.len() implies run[i] == run[i - p] by {
        vstd::arithmetic::div_mod::lemma_mod_sub_multiples_vanish(i, p);
        assert(run[i - p] == unit[(i - p) % p]);
    }
}

/// Law: the guard examines the last 64 ids for periods of up to 8, and what it calls a repeat from
/// some position on is one at every id from there.
pub proof fn law_guard_examines_sixty_four_ids(ids: Seq<u32>, period: int, from: int)
    ensures
        REPEAT_GUARD_WINDOW == 64,
        REPEAT_GUARD_MAX_PERIOD == 8,
        repeats_from(ids, period, from) <==> (forall|i: int|
            #![trigger ids[i]]
            from <= i < ids.len() ==> ids[i] == ids[i - period]),
{
}

} // verus!
