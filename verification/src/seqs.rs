//! Picking entries out of a list: the first that fits, and those that fit, in order.

use vstd::prelude::*;

verus! {

/// Position of the first entry of `s` at or after `from` that `fits`.
pub open spec fn first_from<T>(s: Seq<T>, fits: spec_fn(T) -> bool, from: int) -> Option<int>
    decreases s.len() - from,
{
    if from < 0 || from >= s.len() {
        None
    } else if fits(s[from]) {
        Some(from)
    } else {
        first_from(s, fits, from + 1)
    }
}

/// Position of the first entry of `s` that `fits`.
pub open spec fn first_place<T>(s: Seq<T>, fits: spec_fn(T) -> bool) -> Option<int> {
    first_from(s, fits, 0)
}

/// The first entry of `s` that `fits`.
pub open spec fn first_where<T>(s: Seq<T>, fits: spec_fn(T) -> bool) -> Option<T> {
    match first_place(s, fits) {
        Some(i) => Some(s[i]),
        None => None,
    }
}

/// Position of the first `x` in `s` at or after `from`.
pub open spec fn place_from<T>(s: Seq<T>, x: T, from: int) -> Option<int>
    decreases s.len() - from,
{
    if from < 0 || from >= s.len() {
        None
    } else if s[from] == x {
        Some(from)
    } else {
        place_from(s, x, from + 1)
    }
}

/// Position of the first `x` in `s`.
pub open spec fn place_of<T>(s: Seq<T>, x: T) -> Option<int> {
    place_from(s, x, 0)
}

/// What `pick` makes of the entries of `s`, in order, without those it makes nothing of.
pub open spec fn picked<A, B>(s: Seq<A>, pick: spec_fn(A) -> Option<B>) -> Seq<B>
    decreases s.len(),
{
    if s.len() == 0 {
        Seq::empty()
    } else {
        let before = picked(s.drop_last(), pick);
        match pick(s.last()) {
            Some(b) => before.push(b),
            None => before,
        }
    }
}

/// The entries of `s` that `fits`, in order.
pub open spec fn kept<T>(s: Seq<T>, fits: spec_fn(T) -> bool) -> Seq<T> {
    picked(
        s,
        |x: T|
            if fits(x) {
                Some(x)
            } else {
                None
            },
    )
}

/// What the first entry that fits is: it fits, and nothing before it does.
pub proof fn lemma_first_from<T>(s: Seq<T>, fits: spec_fn(T) -> bool, from: int)
    requires
        0 <= from,
    ensures
        match first_from(s, fits, from) {
            Some(i) => from <= i < s.len() && fits(s[i]) && (forall|j: int| from <= j < i ==> !fits(#[trigger] s[j])),
            None => forall|j: int| from <= j < s.len() ==> !fits(#[trigger] s[j]),
        },
    decreases s.len() - from,
{
    if from < s.len() && !fits(s[from]) {
        lemma_first_from(s, fits, from + 1);
    }
}

/// What the position of `x` is: `x` is there, and nowhere before it.
pub proof fn lemma_place_from<T>(s: Seq<T>, x: T, from: int)
    requires
        0 <= from,
    ensures
        match place_from(s, x, from) {
            Some(i) => from <= i < s.len() && s[i] == x && (forall|j: int| from <= j < i ==> #[trigger] s[j] != x),
            None => forall|j: int| from <= j < s.len() ==> #[trigger] s[j] != x,
        },
    decreases s.len() - from,
{
    if from < s.len() && s[from] != x {
        lemma_place_from(s, x, from + 1);
    }
}

/// One more entry adds what is picked of it to what was picked.
pub proof fn lemma_picked_step<A, B>(s: Seq<A>, pick: spec_fn(A) -> Option<B>, i: int)
    requires
        0 <= i < s.len(),
    ensures
        picked(s.take(i + 1), pick) == match pick(s[i]) {
            Some(b) => picked(s.take(i), pick).push(b),
            None => picked(s.take(i), pick),
        },
{
    assert(s.take(i + 1).drop_last() =~= s.take(i));
    assert(s.take(i + 1).last() == s[i]);
}

/// Nothing is picked of an empty list, and all of a list is all of its entries.
pub proof fn lemma_picked_ends<A, B>(s: Seq<A>, pick: spec_fn(A) -> Option<B>)
    ensures
        picked(s.take(0), pick) == Seq::<B>::empty(),
        picked(s.take(s.len() as int), pick) == picked(s, pick),
{
    assert(s.take(0) =~= Seq::empty());
    assert(s.take(s.len() as int) =~= s);
}

/// Everything picked was picked of some entry.
pub proof fn lemma_picked_from<A, B>(s: Seq<A>, pick: spec_fn(A) -> Option<B>)
    ensures
        picked(s, pick).len() <= s.len(),
        forall|k: int|
            0 <= k < picked(s, pick).len() ==> exists|i: int| 0 <= i < s.len() && pick(#[trigger] s[i]) == Some(#[trigger] picked(s, pick)[k]),
    decreases s.len(),
{
    if s.len() > 0 {
        let head = s.drop_last();
        lemma_picked_from(head, pick);
        let all = picked(s, pick);
        let before = picked(head, pick);
        assert forall|k: int| 0 <= k < all.len() implies exists|i: int|
            0 <= i < s.len() && pick(#[trigger] s[i]) == Some(#[trigger] all[k]) by {
            if k < before.len() {
                assert(all[k] == before[k]);
                let i = choose|i: int| 0 <= i < head.len() && pick(#[trigger] head[i]) == Some(before[k]);
                assert(s[i] == head[i]);
            } else {
                assert(pick(s[s.len() - 1]) == Some(all[k]));
            }
        }
    }
}

/// Whatever an entry gives is among what is picked.
pub proof fn lemma_picked_has<A, B>(s: Seq<A>, pick: spec_fn(A) -> Option<B>, i: int)
    requires
        0 <= i < s.len(),
        pick(s[i]) is Some,
    ensures
        picked(s, pick).contains(pick(s[i])->0),
    decreases s.len(),
{
    let all = picked(s, pick);
    let before = picked(s.drop_last(), pick);
    if i == s.len() - 1 {
        assert(all[all.len() - 1] == pick(s[i])->0);
    } else {
        assert(s.drop_last()[i] == s[i]);
        lemma_picked_has(s.drop_last(), pick, i);
        let k = choose|k: int| 0 <= k < before.len() && before[k] == pick(s[i])->0;
        assert(all[k] == before[k]);
    }
}

/// Appending an entry adds it to the entries there are.
pub proof fn lemma_push_to_set<T>(s: Seq<T>, x: T)
    ensures
        s.push(x).to_set() == s.to_set().insert(x),
{
    assert forall|y: T| s.push(x).to_set().contains(y) == s.to_set().insert(x).contains(y) by {
        if s.push(x).contains(y) {
            let i = choose|i: int| 0 <= i < s.push(x).len() && s.push(x)[i] == y;
            if i < s.len() {
                assert(s[i] == y);
            }
        }
        if s.contains(y) {
            let i = choose|i: int| 0 <= i < s.len() && s[i] == y;
            assert(s.push(x)[i] == y);
        }
        assert(s.push(x)[s.len() as int] == x);
    }
    assert(s.push(x).to_set() =~= s.to_set().insert(x));
}

/// Taking an entry out leaves the other entries.
pub proof fn lemma_without_to_set<T>(s: Seq<T>, fits: spec_fn(T) -> bool, x: T)
    requires
        forall|y: T| #[trigger] fits(y) == (y != x),
    ensures
        kept(s, fits).to_set() == s.to_set().remove(x),
{
    let pick = |y: T|
        if fits(y) {
            Some(y)
        } else {
            None
        };
    let rest = kept(s, fits);
    assert(rest == picked(s, pick));
    lemma_picked_from(s, pick);
    assert forall|y: T| rest.to_set().contains(y) == s.to_set().remove(x).contains(y) by {
        if rest.contains(y) {
            let k = choose|k: int| 0 <= k < rest.len() && rest[k] == y;
            let i = choose|i: int| 0 <= i < s.len() && pick(#[trigger] s[i]) == Some(picked(s, pick)[k]);
            assert(pick(s[i]) == Some(y));
            assert(s[i] == y);
        }
        if s.contains(y) && y != x {
            let i = choose|i: int| 0 <= i < s.len() && s[i] == y;
            lemma_picked_has(s, pick, i);
        }
    }
    assert(rest.to_set() =~= s.to_set().remove(x));
}

/// A value that can be told from others of its kind.
pub trait Same: Copy {
    /// Whether this is `other`.
    fn same(self, other: Self) -> (r: bool)
        ensures
            r == (self == other),
    ;
}

/// Whether `x` is among `list`.
pub fn is_among<T: Same>(list: &Vec<T>, x: T) -> (r: bool)
    ensures
        r == list@.contains(x),
{
    let mut i: usize = 0;
    while i < list.len()
        invariant
            i <= list.len(),
            forall|k: int| 0 <= k < i ==> #[trigger] list@[k] != x,
        decreases list.len() - i,
    {
        if list[i].same(x) {
            assert(list@[i as int] == x);
            return true;
        }
        i += 1;
    }
    false
}

/// The entries of `list` again.
pub fn copied<T: Copy>(list: &Vec<T>) -> (r: Vec<T>)
    ensures
        r@ == list@,
{
    let mut out: Vec<T> = Vec::new();
    let mut i: usize = 0;
    while i < list.len()
        invariant
            i <= list.len(),
            out@ == list@.take(i as int),
        decreases list.len() - i,
    {
        out.push(list[i]);
        i += 1;
        assert(out@ =~= list@.take(i as int));
    }
    assert(list@.take(list@.len() as int) =~= list@);
    out
}

/// The number of entries that `fits`.
pub open spec fn count_of<T>(s: Seq<T>, fits: spec_fn(T) -> bool) -> nat {
    kept(s, fits).len()
}

/// Whether `r` is what `pick` makes of the entries of `s` at the places `at`: the places are in order, each
/// gives what is there, and no place that gives something is left out.
pub open spec fn picks_at<A, B>(s: Seq<A>, pick: spec_fn(A) -> Option<B>, r: Seq<B>, at: Seq<int>) -> bool {
    &&& at.len() == r.len()
    &&& forall|k: int| 0 <= k < at.len() ==> 0 <= #[trigger] at[k] < s.len() && pick(s[at[k]]) == Some(r[k])
    &&& forall|j: int, k: int| 0 <= j < k < at.len() ==> #[trigger] at[j] < #[trigger] at[k]
    &&& forall|i: int| 0 <= i < s.len() && pick(#[trigger] s[i]) is Some ==> at.contains(i)
}

/// Whether `r` is what `pick` makes of the entries of `s`, one by one: in their order, with nothing left out
/// and nothing made up.
pub open spec fn picks<A, B>(s: Seq<A>, pick: spec_fn(A) -> Option<B>, r: Seq<B>) -> bool {
    exists|at: Seq<int>| #[trigger] picks_at(s, pick, r, at)
}

/// Whether `r` is the entries of `s` that `fits`, in their order, with none left out.
pub open spec fn sifts<T>(s: Seq<T>, fits: spec_fn(T) -> bool, r: Seq<T>) -> bool {
    picks(
        s,
        |x: T|
            if fits(x) {
                Some(x)
            } else {
                None
            },
        r,
    )
}

proof fn lemma_picked_places<A, B>(s: Seq<A>, pick: spec_fn(A) -> Option<B>) -> (at: Seq<int>)
    ensures
        picks_at(s, pick, picked(s, pick), at),
    decreases s.len(),
{
    if s.len() == 0 {
        Seq::empty()
    } else {
        let head = s.drop_last();
        let last = s.len() - 1;
        let before = lemma_picked_places(head, pick);
        assert forall|i: int| 0 <= i < head.len() implies head[i] == s[i] by {}
        if pick(s.last()) is Some {
            let at = before.push(last);
            assert forall|k: int| 0 <= k < at.len() implies 0 <= #[trigger] at[k] < s.len() && pick(s[at[k]]) == Some(picked(s, pick)[k]) by {
                if k < before.len() {
                    assert(before[k] == at[k]);
                    assert(head[before[k]] == s[before[k]]);
                }
            }
            assert forall|j: int, k: int| 0 <= j < k < at.len() implies #[trigger] at[j] < #[trigger] at[k] by {
                assert(before[j] == at[j]);
                if k < before.len() {
                    assert(before[k] == at[k]);
                }
            }
            assert forall|i: int| 0 <= i < s.len() && pick(#[trigger] s[i]) is Some implies at.contains(i) by {
                if i < last {
                    assert(head[i] == s[i]);
                    assert(before.contains(i));
                    let k = choose|k: int| 0 <= k < before.len() && before[k] == i;
                    assert(at[k] == i);
                } else {
                    assert(at[before.len() as int] == i);
                }
            }
            at
        } else {
            assert forall|k: int| 0 <= k < before.len() implies 0 <= #[trigger] before[k] < s.len() && pick(s[before[k]]) == Some(
                picked(s, pick)[k],
            ) by {
                assert(head[before[k]] == s[before[k]]);
            }
            assert forall|i: int| 0 <= i < s.len() && pick(#[trigger] s[i]) is Some implies before.contains(i) by {
                if i < last {
                    assert(head[i] == s[i]);
                }
            }
            before
        }
    }
}

/// Picking goes through a list entry by entry: what it gives is in the list's order, each from an entry of
/// it, and no entry that gives something is passed over.
pub proof fn picking_goes_entry_by_entry<A, B>(s: Seq<A>, pick: spec_fn(A) -> Option<B>)
    ensures
        picks(s, pick, picked(s, pick)),
{
    let at = lemma_picked_places(s, pick);
    assert(picks_at(s, pick, picked(s, pick), at));
}

/// What is kept of a list is what fits, in order, with none left out.
pub proof fn keeping_leaves_out_only_what_does_not_fit<T>(s: Seq<T>, fits: spec_fn(T) -> bool)
    ensures
        sifts(s, fits, kept(s, fits)),
        forall|x: T| #[trigger] kept(s, fits).contains(x) <==> s.contains(x) && fits(x),
        kept(s, fits).len() <= s.len(),
        (forall|i: int| 0 <= i < s.len() ==> fits(#[trigger] s[i])) ==> kept(s, fits) == s,
    decreases s.len(),
{
    let pick = |x: T|
        if fits(x) {
            Some(x)
        } else {
            None
        };
    let r = kept(s, fits);
    assert(r == picked(s, pick));
    picking_goes_entry_by_entry(s, pick);
    lemma_picked_from(s, pick);
    assert forall|x: T| #[trigger] r.contains(x) == (s.contains(x) && fits(x)) by {
        if r.contains(x) {
            let k = choose|k: int| 0 <= k < r.len() && r[k] == x;
            let i = choose|i: int| 0 <= i < s.len() && pick(#[trigger] s[i]) == Some(picked(s, pick)[k]);
            assert(pick(s[i]) == Some(r[k]));
        }
        if s.contains(x) && fits(x) {
            let i = choose|i: int| 0 <= i < s.len() && s[i] == x;
            lemma_picked_has(s, pick, i);
        }
    }
    if forall|i: int| 0 <= i < s.len() ==> fits(#[trigger] s[i]) {
        if s.len() > 0 {
            let head = s.drop_last();
            assert forall|i: int| 0 <= i < head.len() implies fits(#[trigger] head[i]) by {
                assert(head[i] == s[i]);
            }
            keeping_leaves_out_only_what_does_not_fit(head, fits);
            assert(kept(head, fits) == picked(head, pick));
            assert(fits(s[s.len() - 1]));
            assert(r =~= head.push(s.last()));
            assert(head.push(s.last()) =~= s);
        } else {
            assert(r =~= s);
        }
    }
}

/// The first entry that fits is one that fits, and none before it does; there is none only where nothing
/// fits.
pub proof fn the_first_that_fits_comes_first<T>(s: Seq<T>, fits: spec_fn(T) -> bool)
    ensures
        match first_place(s, fits) {
            Some(i) => 0 <= i < s.len() && fits(s[i]) && (forall|j: int| 0 <= j < i ==> !fits(#[trigger] s[j])),
            None => forall|j: int| 0 <= j < s.len() ==> !fits(#[trigger] s[j]),
        },
        match first_where(s, fits) {
            Some(x) => exists|i: int| 0 <= i < s.len() && #[trigger] s[i] == x && fits(x) && (forall|j: int| 0 <= j < i ==> !fits(#[trigger] s[j])),
            None => forall|j: int| 0 <= j < s.len() ==> !fits(#[trigger] s[j]),
        },
{
    lemma_first_from(s, fits, 0);
    if let Some(i) = first_place(s, fits) {
        assert(s[i] == first_where(s, fits)->0);
    }
}

/// The place of an entry is the first at which it stands; there is none only where it is not in the list.
pub proof fn the_place_of_an_entry_is_its_first<T>(s: Seq<T>, x: T)
    ensures
        match place_of(s, x) {
            Some(i) => 0 <= i < s.len() && s[i] == x && (forall|j: int| 0 <= j < i ==> #[trigger] s[j] != x),
            None => !s.contains(x),
        },
{
    lemma_place_from(s, x, 0);
}

/// As many entries are counted as fit: none of an empty list, and each entry counts for one or for none.
pub proof fn counting_counts_each_entry_once<T>(s: Seq<T>, fits: spec_fn(T) -> bool, x: T)
    ensures
        count_of(Seq::<T>::empty(), fits) == 0,
        count_of(s.push(x), fits) == count_of(s, fits) + (if fits(x) {
            1nat
        } else {
            0nat
        }),
{
    assert(s.push(x).drop_last() =~= s);
}

proof fn lemma_picks_is_picked<A, B>(s: Seq<A>, pick: spec_fn(A) -> Option<B>, r: Seq<B>, at: Seq<int>)
    requires
        picks_at(s, pick, r, at),
    ensures
        r == picked(s, pick),
    decreases s.len(),
{
    if s.len() == 0 {
        if at.len() > 0 {
            assert(0 <= at[0] < s.len());
        }
        assert(r =~= picked(s, pick));
    } else {
        let head = s.drop_last();
        let last = s.len() - 1;
        assert forall|i: int| 0 <= i < head.len() implies head[i] == s[i] by {}
        if pick(s.last()) is Some {
            assert(s[last] == s.last());
            assert(at.contains(last));
            let k = choose|k: int| 0 <= k < at.len() && at[k] == last;
            let end = at.len() - 1;
            if k < end {
                assert(at[k] < at[end]);
            }
            let places = at.drop_last();
            let rest = r.drop_last();
            assert forall|j: int| 0 <= j < places.len() implies 0 <= #[trigger] places[j] < head.len() && pick(head[places[j]]) == Some(rest[j]) by {
                assert(places[j] == at[j]);
                assert(at[j] < at[end]);
            }
            assert forall|i: int, j: int| 0 <= i < j < places.len() implies #[trigger] places[i] < #[trigger] places[j] by {
                assert(places[i] == at[i] && places[j] == at[j]);
            }
            assert forall|i: int| 0 <= i < head.len() && pick(#[trigger] head[i]) is Some implies places.contains(i) by {
                assert(head[i] == s[i]);
                assert(at.contains(i));
                let j = choose|j: int| 0 <= j < at.len() && at[j] == i;
                assert(places[j] == i);
            }
            lemma_picks_is_picked(head, pick, rest, places);
            assert(r =~= rest.push(r.last()));
        } else {
            assert forall|j: int| 0 <= j < at.len() implies 0 <= #[trigger] at[j] < head.len() && pick(head[at[j]]) == Some(r[j]) by {
                assert(pick(s[at[j]]) == Some(r[j]));
                if at[j] == last {
                    assert(s[at[j]] == s.last());
                }
            }
            assert forall|i: int| 0 <= i < head.len() && pick(#[trigger] head[i]) is Some implies at.contains(i) by {
                assert(head[i] == s[i]);
            }
            lemma_picks_is_picked(head, pick, r, at);
        }
    }
}

/// Only one list is what picking makes of a list: as long as what there is to pick, and the same at each place.
pub proof fn what_is_picked_is_settled<A, B>(s: Seq<A>, pick: spec_fn(A) -> Option<B>, r: Seq<B>, other: Seq<B>)
    requires
        picks(s, pick, r),
        picks(s, pick, other),
    ensures
        r == other,
{
    let at = choose|at: Seq<int>| #[trigger] picks_at(s, pick, r, at);
    lemma_picks_is_picked(s, pick, r, at);
    let places = choose|at: Seq<int>| #[trigger] picks_at(s, pick, other, at);
    lemma_picks_is_picked(s, pick, other, places);
}

} // verus!
