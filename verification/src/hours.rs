//! Hour-of-day interval compression and merging.
//!
//! A list of "best hours" (ascending, duplicate-free hour-of-day indices) is
//! run-length-encoded into inclusive `(start, end)` ranges for display, and
//! two hour lists can be merged into their sorted, deduplicated union.

use vstd::prelude::*;

verus! {

/// The hour indices are strictly ascending (hence duplicate-free).
pub open spec fn hours_sorted_unique(s: Seq<usize>) -> bool {
    forall|i: int, j: int| 0 <= i < j < s.len() ==> s[i] < s[j]
}

/// Every entry is an hour of the day (at most 23).
pub open spec fn hours_in_day(s: Seq<usize>) -> bool {
    forall|i: int| 0 <= i < s.len() ==> s[i] <= 23
}

/// The consecutive run of integers `start..=end`, as a sequence.
pub open spec fn expand_range(start: int, end: int) -> Seq<int>
    decreases end - start + 1,
{
    if start > end {
        Seq::empty()
    } else {
        seq![start] + expand_range(start + 1, end)
    }
}

/// Flattens a list of inclusive ranges back into the hour values they cover,
/// in order.
pub open spec fn expand_ranges(rs: Seq<(int, int)>) -> Seq<int>
    decreases rs.len(),
{
    if rs.len() == 0 {
        Seq::empty()
    } else {
        expand_range(rs[0].0, rs[0].1) + expand_ranges(rs.drop_first())
    }
}

/// Each range is nonempty: its start does not exceed its end.
pub open spec fn ranges_wf(rs: Seq<(int, int)>) -> bool {
    forall|i: int| 0 <= i < rs.len() ==> (#[trigger] rs[i]).0 <= rs[i].1
}

/// Consecutive ranges are separated by a gap of at least two, so no two
/// ranges could be joined into one.
pub open spec fn ranges_separated(rs: Seq<(int, int)>) -> bool {
    forall|i: int| 0 <= i < rs.len() - 1 ==> (#[trigger] rs[i]).1 + 2 <= rs[i + 1].0
}

/// `rs` is the canonical run-length encoding of the hour list `h`.
pub open spec fn is_compression_of(rs: Seq<(int, int)>, h: Seq<int>) -> bool {
    &&& expand_ranges(rs) == h
    &&& ranges_wf(rs)
    &&& ranges_separated(rs)
}

/// The hour values of a list, as mathematical integers.
pub open spec fn hour_view(s: Seq<usize>) -> Seq<int> {
    s.map_values(|h: usize| h as int)
}

/// The ranges of a list, as pairs of mathematical integers.
pub open spec fn range_view(s: Seq<(usize, usize)>) -> Seq<(int, int)> {
    s.map_values(|p: (usize, usize)| (p.0 as int, p.1 as int))
}

pub proof fn lemma_expand_range_props(start: int, end: int)
    requires
        start <= end,
    ensures
        expand_range(start, end).len() == end - start + 1,
        forall|i: int|
            0 <= i <= end - start ==> #[trigger] expand_range(start, end)[i] == start + i,
    decreases end - start,
{
    if start == end {
        assert(expand_range(start + 1, end) =~= Seq::<int>::empty());
        assert(expand_range(start, end) =~= seq![start]);
    } else {
        lemma_expand_range_props(start + 1, end);
        assert forall|i: int| 0 <= i <= end - start implies #[trigger] expand_range(start, end)[i]
            == start + i by {
            if i > 0 {
                assert(expand_range(start, end)[i] == expand_range(start + 1, end)[i - 1]);
            }
        }
    }
}

/// Extending a run by one hour appends that hour to its expansion.
pub proof fn lemma_expand_range_snoc(start: int, end: int)
    requires
        start <= end,
    ensures
        expand_range(start, end + 1) == expand_range(start, end) + seq![end + 1],
{
    lemma_expand_range_props(start, end);
    lemma_expand_range_props(start, end + 1);
    assert(expand_range(start, end + 1) =~= expand_range(start, end) + seq![end + 1]);
}

/// Appending a range to the list appends its expansion to the flattening.
pub proof fn lemma_expand_ranges_push(rs: Seq<(int, int)>, p: (int, int))
    ensures
        expand_ranges(rs.push(p)) == expand_ranges(rs) + expand_range(p.0, p.1),
    decreases rs.len(),
{
    if rs.len() == 0 {
        assert(rs.push(p).drop_first() =~= Seq::<(int, int)>::empty());
        assert(expand_ranges(rs.push(p).drop_first()) =~= Seq::<int>::empty());
        assert(expand_ranges(rs) =~= Seq::<int>::empty());
        assert(rs.push(p)[0] == p);
        assert(expand_ranges(rs.push(p)) =~= expand_ranges(rs) + expand_range(p.0, p.1));
    } else {
        lemma_expand_ranges_push(rs.drop_first(), p);
        assert(rs.push(p).drop_first() =~= rs.drop_first().push(p));
        assert(rs.push(p)[0] == rs[0]);
        assert(expand_ranges(rs.push(p)) == expand_range(rs[0].0, rs[0].1) + expand_ranges(
            rs.drop_first().push(p),
        ));
        assert(expand_ranges(rs.push(p)) =~= expand_ranges(rs) + expand_range(p.0, p.1));
    }
}

/// Run-length-encodes a sorted, deduplicated list of hour indices into
/// inclusive `(start, end)` ranges: each maximal run of consecutive hours
/// becomes one range, in order.  The empty list yields the empty list; the
/// encoding never reorders hours and never wraps across midnight.
pub fn compress_hours(hours: &Vec<usize>) -> (r: Vec<(usize, usize)>)
    requires
        hours_sorted_unique(hours@),
    ensures
        is_compression_of(range_view(r@), hour_view(hours@)),
{
    let mut intervals: Vec<(usize, usize)> = Vec::new();
    if hours.len() == 0 {
        assert(range_view(intervals@) =~= Seq::<(int, int)>::empty());
        assert(expand_ranges(range_view(intervals@)) =~= hour_view(hours@));
        return intervals;
    }
    let mut start: usize = hours[0];
    let mut end: usize = start;
    let mut i: usize = 1;
    proof {
        assert(expand_ranges(range_view(intervals@)) =~= Seq::<int>::empty());
        assert(expand_range(start as int + 1, end as int) =~= Seq::<int>::empty());
        assert(expand_range(start as int, end as int) =~= seq![start as int]);
        assert(hour_view(hours@).take(1) =~= seq![hours@[0] as int]);
    }
    while i < hours.len()
        invariant
            1 <= i <= hours@.len(),
            hours_sorted_unique(hours@),
            ranges_wf(range_view(intervals@)),
            ranges_separated(range_view(intervals@)),
            start <= end,
            end == hours@[i - 1],
            range_view(intervals@).len() > 0 ==> range_view(intervals@).last().1 + 2 <= start,
            expand_ranges(range_view(intervals@)) + expand_range(start as int, end as int)
                == hour_view(hours@).take(i as int),
        decreases hours@.len() - i,
    {
        let h = hours[i];
        proof {
            lemma_expand_range_props(start as int, end as int);
            assert(hours@[i - 1] < hours@[i as int]);
            assert(hour_view(hours@).take(i + 1) =~= hour_view(hours@).take(i as int) + seq![
                h as int,
            ]);
        }
        if h == end + 1 {
            proof {
                lemma_expand_range_snoc(start as int, end as int);
            }
            end = h;
        } else {
            let ghost old_iv = intervals@;
            proof {
                lemma_expand_ranges_push(range_view(old_iv), (start as int, end as int));
            }
            intervals.push((start, end));
            proof {
                assert(intervals@ =~= old_iv.push((start, end)));
                assert(range_view(intervals@) =~= range_view(old_iv).push(
                    (start as int, end as int),
                ));
                assert(expand_range(h as int + 1, h as int) =~= Seq::<int>::empty());
                assert(expand_range(h as int, h as int) =~= seq![h as int]);
                assert(range_view(intervals@).last() == (start as int, end as int));
            }
            start = h;
            end = h;
        }
        i = i + 1;
    }
    let ghost old_iv = intervals@;
    proof {
        lemma_expand_ranges_push(range_view(old_iv), (start as int, end as int));
        assert(hour_view(hours@).take(i as int) =~= hour_view(hours@));
    }
    intervals.push((start, end));
    proof {
        assert(intervals@ =~= old_iv.push((start, end)));
        assert(range_view(intervals@) =~= range_view(old_iv).push((start as int, end as int)));
    }
    intervals
}

/// Two canonical encodings of the same hour list are identical: together with
/// the contract of `compress_hours` (whose re-expansion returns the input),
/// compressing the re-expanded output of a compression reproduces the same
/// ranges, i.e. compression is idempotent.
pub proof fn lemma_compression_unique(rs1: Seq<(int, int)>, rs2: Seq<(int, int)>, h: Seq<int>)
    requires
        is_compression_of(rs1, h),
        is_compression_of(rs2, h),
    ensures
        rs1 == rs2,
    decreases rs1.len(),
{
    if rs1.len() == 0 || rs2.len() == 0 {
        lemma_compression_of_empty(rs1, h);
        lemma_compression_of_empty(rs2, h);
        assert(rs1 =~= rs2);
    } else {
        lemma_compression_unique_step(rs1, rs2, h);
        let rest = h.skip(rs1[0].1 - rs1[0].0 + 1);
        lemma_compression_unique(rs1.drop_first(), rs2.drop_first(), rest);
        lemma_seq_eq_from_head_tail(rs1, rs2);
    }
}

/// Sequences with equal heads and equal tails are equal.
proof fn lemma_seq_eq_from_head_tail(rs1: Seq<(int, int)>, rs2: Seq<(int, int)>)
    requires
        rs1.len() > 0,
        rs2.len() > 0,
        rs1[0] == rs2[0],
        rs1.drop_first() == rs2.drop_first(),
    ensures
        rs1 == rs2,
{
    assert(rs1.drop_first().len() == rs1.len() - 1);
    assert(rs2.drop_first().len() == rs2.len() - 1);
    assert(rs1.len() == rs2.len());
    assert forall|i: int| 0 <= i < rs1.len() implies rs1[i] == rs2[i] by {
        if i > 0 {
            assert(rs1.drop_first()[i - 1] == rs1[i]);
            assert(rs2.drop_first()[i - 1] == rs2[i]);
            assert(rs1.drop_first()[i - 1] == rs2.drop_first()[i - 1]);
        }
    }
    assert(rs1 =~= rs2);
}

/// Compression is idempotent: re-expanding an encoding and compressing the
/// result reproduces the same ranges.  Together with the contract of
/// `compress_hours` — whose output re-expands to its input — this is the
/// round-trip law for the run-length encoding.
pub proof fn lemma_compression_idempotent(
    rs1: Seq<(int, int)>,
    h: Seq<int>,
    rs2: Seq<(int, int)>,
)
    requires
        is_compression_of(rs1, h),
        is_compression_of(rs2, expand_ranges(rs1)),
    ensures
        rs2 == rs1,
{
    lemma_compression_unique(rs2, rs1, h);
}

/// An encoding of an hour list is empty exactly when the list is.
proof fn lemma_compression_of_empty(rs: Seq<(int, int)>, h: Seq<int>)
    requires
        is_compression_of(rs, h),
    ensures
        rs.len() == 0 <==> h.len() == 0,
{
    if rs.len() == 0 {
        assert(expand_ranges(rs) =~= Seq::<int>::empty());
    } else {
        assert(rs[0].0 <= rs[0].1);
        lemma_expand_range_len(rs[0].0, rs[0].1);
        assert(h == expand_range(rs[0].0, rs[0].1) + expand_ranges(rs.drop_first()));
        assert(h.len() > 0);
    }
}

/// Two nonempty encodings of the same hour list agree on their first range,
/// and their tails encode the remaining hours.
proof fn lemma_compression_unique_step(rs1: Seq<(int, int)>, rs2: Seq<(int, int)>, h: Seq<int>)
    requires
        is_compression_of(rs1, h),
        is_compression_of(rs2, h),
        rs1.len() > 0,
        rs2.len() > 0,
    ensures
        rs1[0] == rs2[0],
        is_compression_of(rs1.drop_first(), h.skip(rs1[0].1 - rs1[0].0 + 1)),
        is_compression_of(rs2.drop_first(), h.skip(rs1[0].1 - rs1[0].0 + 1)),
{
    let (s1, e1) = rs1[0];
    let (s2, e2) = rs2[0];
    assert(rs1[0].0 <= rs1[0].1);
    assert(rs2[0].0 <= rs2[0].1);
    lemma_expand_range_len(s1, e1);
    lemma_expand_range_len(s2, e2);
    assert(h == expand_range(s1, e1) + expand_ranges(rs1.drop_first()));
    assert(h == expand_range(s2, e2) + expand_ranges(rs2.drop_first()));
    assert(s1 == s2) by {
        lemma_expand_range_at(s1, e1, 0);
        lemma_expand_range_at(s2, e2, 0);
        assert(h[0] == s1);
        assert(h[0] == s2);
    }
    if e1 != e2 {
        // Without loss of generality let the first run of `rs1` be the
        // shorter one; the hour just past it contradicts the gap that
        // `rs1` requires after its first range.
        if e1 < e2 {
            lemma_first_run_not_shorter(rs1, rs2, h);
        } else {
            lemma_first_run_not_shorter(rs2, rs1, h);
        }
    }
    let rest = h.skip(e1 - s1 + 1);
    lemma_add_skip(expand_range(s1, e1), expand_ranges(rs1.drop_first()));
    lemma_add_skip(expand_range(s2, e2), expand_ranges(rs2.drop_first()));
    assert(expand_ranges(rs1.drop_first()) == rest);
    assert(expand_ranges(rs2.drop_first()) == rest);
    assert(ranges_wf(rs1.drop_first()) && ranges_separated(rs1.drop_first())) by {
        assert(forall|i: int|
            0 <= i < rs1.drop_first().len() ==> #[trigger] rs1.drop_first()[i] == rs1[i + 1]);
    }
    assert(ranges_wf(rs2.drop_first()) && ranges_separated(rs2.drop_first())) by {
        assert(forall|i: int|
            0 <= i < rs2.drop_first().len() ==> #[trigger] rs2.drop_first()[i] == rs2[i + 1]);
    }
}

/// The length of a consecutive run.
proof fn lemma_expand_range_len(start: int, end: int)
    ensures
        start <= end ==> expand_range(start, end).len() == end - start + 1,
        start > end ==> expand_range(start, end).len() == 0,
    decreases end - start + 1,
{
    if start <= end {
        lemma_expand_range_len(start + 1, end);
    }
}

/// A single element of a consecutive run.
proof fn lemma_expand_range_at(start: int, end: int, i: int)
    requires
        0 <= i <= end - start,
    ensures
        expand_range(start, end)[i] == start + i,
    decreases i,
{
    if i > 0 {
        lemma_expand_range_len(start + 1, end);
        lemma_expand_range_at(start + 1, end, i - 1);
        assert(expand_range(start, end) == seq![start] + expand_range(start + 1, end));
        assert(expand_range(start, end)[i] == expand_range(start + 1, end)[i - 1]);
    }
}

/// Dropping the left part of a concatenation leaves the right part.
proof fn lemma_add_skip<T>(a: Seq<T>, b: Seq<T>)
    ensures
        (a + b).skip(a.len() as int) == b,
{
    assert((a + b).skip(a.len() as int) =~= b);
}

/// The first run of an encoding cannot be strictly shorter than the first
/// run of another encoding of the same hour list: the hour just past the
/// shorter run would contradict the gap required after it.
proof fn lemma_first_run_not_shorter(rs1: Seq<(int, int)>, rs2: Seq<(int, int)>, h: Seq<int>)
    requires
        is_compression_of(rs1, h),
        is_compression_of(rs2, h),
        rs1.len() > 0,
        rs2.len() > 0,
        rs1[0].0 == rs2[0].0,
    ensures
        rs1[0].1 >= rs2[0].1,
{
    if rs1[0].1 >= rs2[0].1 {
        return;
    }
    let s = rs1[0].0;
    let e1 = rs1[0].1;
    let e2 = rs2[0].1;
    assert(rs1[0].0 <= rs1[0].1);
    assert(rs2[0].0 <= rs2[0].1);
    lemma_expand_range_len(s, e1);
    lemma_expand_range_len(s, e2);
    let k = e1 - s + 1;
    assert(h == expand_range(s, e2) + expand_ranges(rs2.drop_first()));
    assert(h.len() >= e2 - s + 1);
    lemma_expand_range_at(s, e2, k);
    assert(expand_range(s, e2)[k] == s + k);
    assert(h[k] == e1 + 1);
    assert(h == expand_range(s, e1) + expand_ranges(rs1.drop_first()));
    let rest = rs1.drop_first();
    if rest.len() == 0 {
        assert(expand_ranges(rest) =~= Seq::<int>::empty());
        assert(h.len() == k);
        assert(false);
    } else {
        assert(expand_ranges(rest) == expand_range(rest[0].0, rest[0].1) + expand_ranges(
            rest.drop_first(),
        ));
        assert(rest[0] == rs1[1]);
        assert(rs1[1].0 <= rs1[1].1);
        lemma_expand_range_at(rs1[1].0, rs1[1].1, 0);
        assert(expand_ranges(rest)[0] == rs1[1].0);
        assert(h[k] == rs1[1].0);
        assert(rs1[0].1 + 2 <= rs1[1].0);
        assert(false);
    }
}

/// Merges two hour lists into the sorted, deduplicated union: the result is
/// strictly ascending and contains an hour exactly when either input does.
pub fn merge_best_hours(a: &Vec<usize>, b: &Vec<usize>) -> (r: Vec<usize>)
    requires
        hours_in_day(a@),
        hours_in_day(b@),
    ensures
        hours_sorted_unique(r@),
        hours_in_day(r@),
        forall|h: usize| r@.contains(h) <==> (a@.contains(h) || b@.contains(h)),
{
    let mut present: Vec<bool> = Vec::new();
    let mut h: usize = 0;
    while h < 24
        invariant
            present@.len() == h,
            h <= 24,
            forall|k: int| 0 <= k < h ==> !present@[k],
        decreases 24 - h,
    {
        present.push(false);
        h = h + 1;
    }
    let mut i: usize = 0;
    while i < a.len()
        invariant
            present@.len() == 24,
            hours_in_day(a@),
            i <= a@.len(),
            forall|k: int|
                0 <= k < 24 ==> (present@[k] <==> a@.take(i as int).contains(k as usize)),
        decreases a@.len() - i,
    {
        let v = a[i];
        let ghost old_p = present@;
        present.set(v, true);
        proof {
            assert(a@.take(i + 1) =~= a@.take(i as int).push(a@[i as int]));
            assert forall|k: int| 0 <= k < 24 implies (present@[k] <==> a@.take(
                i + 1,
            ).contains(k as usize)) by {
                if present@[k] {
                    if k == v as int {
                        assert(a@.take(i + 1).last() == k as usize);
                        assert(a@.take(i + 1).contains(k as usize));
                    } else {
                        assert(old_p[k]);
                        let w = choose|w: int|
                            0 <= w < a@.take(i as int).len() && #[trigger] a@.take(i as int)[w]
                                == k as usize;
                        assert(a@.take(i + 1)[w] == k as usize);
                        assert(a@.take(i + 1).contains(k as usize));
                    }
                }
                if a@.take(i + 1).contains(k as usize) {
                    let w = choose|w: int|
                        0 <= w < a@.take(i + 1).len() && #[trigger] a@.take(i + 1)[w]
                            == k as usize;
                    if w < i {
                        assert(a@.take(i as int)[w] == k as usize);
                        assert(a@.take(i as int).contains(k as usize));
                        assert(old_p[k]);
                        assert(present@[k]);
                    } else {
                        assert(k == v as int);
                        assert(present@[k]);
                    }
                }
            }
        }
        i = i + 1;
    }
    proof {
        assert(a@.take(a@.len() as int) =~= a@);
    }
    let mut j: usize = 0;
    while j < b.len()
        invariant
            present@.len() == 24,
            hours_in_day(a@),
            hours_in_day(b@),
            j <= b@.len(),
            forall|k: int|
                0 <= k < 24 ==> (present@[k] <==> a@.contains(k as usize) || b@.take(
                    j as int,
                ).contains(k as usize)),
        decreases b@.len() - j,
    {
        let v = b[j];
        let ghost old_p = present@;
        present.set(v, true);
        proof {
            assert(b@.take(j + 1) =~= b@.take(j as int).push(b@[j as int]));
            assert forall|k: int| 0 <= k < 24 implies (present@[k] <==> a@.contains(k as usize)
                || b@.take(j + 1).contains(k as usize)) by {
                if present@[k] {
                    if k == v as int {
                        assert(b@.take(j + 1).last() == k as usize);
                        assert(b@.take(j + 1).contains(k as usize));
                    } else {
                        assert(old_p[k]);
                        if b@.take(j as int).contains(k as usize) {
                            let w = choose|w: int|
                                0 <= w < b@.take(j as int).len() && #[trigger] b@.take(j as int)[w]
                                    == k as usize;
                            assert(b@.take(j + 1)[w] == k as usize);
                            assert(b@.take(j + 1).contains(k as usize));
                        }
                    }
                }
                if b@.take(j + 1).contains(k as usize) {
                    let w = choose|w: int|
                        0 <= w < b@.take(j + 1).len() && #[trigger] b@.take(j + 1)[w]
                            == k as usize;
                    if w < j {
                        assert(b@.take(j as int)[w] == k as usize);
                        assert(b@.take(j as int).contains(k as usize));
                        assert(old_p[k]);
                        assert(present@[k]);
                    } else {
                        assert(k == v as int);
                        assert(present@[k]);
                    }
                }
            }
        }
        j = j + 1;
    }
    proof {
        assert(b@.take(b@.len() as int) =~= b@);
    }
    let mut r: Vec<usize> = Vec::new();
    let mut h2: usize = 0;
    while h2 < 24
        invariant
            present@.len() == 24,
            h2 <= 24,
            forall|k: int|
                0 <= k < 24 ==> (present@[k] <==> a@.contains(k as usize) || b@.contains(
                    k as usize,
                )),
            forall|i1: int, j1: int| 0 <= i1 < j1 < r@.len() ==> r@[i1] < r@[j1],
            forall|i1: int| 0 <= i1 < r@.len() ==> r@[i1] < h2,
            forall|v: usize| r@.contains(v) <==> (v < h2 && present@[v as int]),
        decreases 24 - h2,
    {
        let ghost old_r = r@;
        if present[h2] {
            r.push(h2);
        }
        proof {
            assert forall|v: usize| r@.contains(v) <==> (v < h2 + 1 && present@[v as int]) by {
                if r@.contains(v) {
                    let w = choose|w: int| 0 <= w < r@.len() && #[trigger] r@[w] == v;
                    if w < old_r.len() {
                        assert(old_r[w] == v);
                        assert(old_r.contains(v));
                    } else {
                        assert(v == h2);
                    }
                }
                if v < h2 + 1 && present@[v as int] {
                    if v < h2 {
                        assert(old_r.contains(v));
                        let w = choose|w: int| 0 <= w < old_r.len() && #[trigger] old_r[w] == v;
                        assert(r@[w] == v);
                        assert(r@.contains(v));
                    } else {
                        assert(r@.last() == v);
                        assert(r@.contains(v));
                    }
                }
            }
        }
        h2 = h2 + 1;
    }
    proof {
        assert forall|v: usize| r@.contains(v) <==> (a@.contains(v) || b@.contains(v)) by {
            if a@.contains(v) || b@.contains(v) {
                assert(v <= 23);
                assert(present@[v as int]);
            }
        }
        assert(hours_in_day(r@)) by {
            assert forall|i1: int| 0 <= i1 < r@.len() implies r@[i1] <= 23 by {
                assert(r@.contains(r@[i1]));
            }
        }
    }
    r
}

} // verus!
