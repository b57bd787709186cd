//! The sequence of break offsets of a text, and what holds of every such
//! sequence.
use vstd::prelude::*;
use crate::scan::{all_breaks, breaks_from, lemma_scan_bounds, scan};

verus! {

/// The offsets, in code units, of the breaks from the position `from` on.
/// `offsets` gives the offset of each position.
pub open spec fn break_offsets(classes: Seq<u8>, offsets: Seq<int>, from: int) -> Seq<int> {
    breaks_from(classes, from).map_values(|b: int| offsets[b])
}

/// `offsets` gives each position of a text of `length` code points an
/// offset: zero to the first, more to each than to the one before.
pub open spec fn offsets_fit(offsets: Seq<int>, length: int) -> bool {
    &&& offsets.len() == length + 1
    &&& offsets[0] == 0
    &&& forall|i: int, j: int| 0 <= i < j < offsets.len() ==> offsets[i] < offsets[j]
}

/// Each entry is smaller than the one after it.
pub open spec fn strictly_increasing(values: Seq<int>) -> bool {
    forall|i: int, j: int| 0 <= i < j < values.len() ==> values[i] < values[j]
}

/// The breaks from a position inside the text are the next break and the
/// breaks from there on; from the end of the text there are none.
pub proof fn lemma_breaks_unfold(classes: Seq<u8>, offsets: Seq<int>, from: int)
    requires
        0 <= from <= classes.len(),
    ensures
        from == classes.len() ==> break_offsets(classes, offsets, from) == Seq::<int>::empty(),
        from < classes.len() ==> break_offsets(classes, offsets, from) == seq![
            offsets[scan(classes, from)],
        ] + break_offsets(classes, offsets, scan(classes, from)),
{
    if from < classes.len() {
        lemma_scan_bounds(classes, from);
        let next = scan(classes, from);
        assert(breaks_from(classes, from) == seq![next] + breaks_from(classes, next));
        assert(break_offsets(classes, offsets, from) =~= seq![offsets[next]] + break_offsets(
            classes,
            offsets,
            next,
        ));
    } else {
        assert(break_offsets(classes, offsets, from) =~= Seq::<int>::empty());
    }
}

/// Monotonicity and termination, in positions: the breaks from a position
/// inside the text lie behind it, each behind the one before, and the last
/// one is the end of the text.
pub proof fn lemma_breaks_ascend(classes: Seq<u8>, from: int)
    requires
        0 <= from < classes.len(),
    ensures
        breaks_from(classes, from).len() >= 1,
        breaks_from(classes, from).len() <= classes.len() - from,
        forall|k: int|
            0 <= k < breaks_from(classes, from).len() ==> from < #[trigger] breaks_from(
                classes,
                from,
            )[k] <= classes.len(),
        strictly_increasing(breaks_from(classes, from)),
        breaks_from(classes, from).last() == classes.len(),
    decreases classes.len() - from,
{
    lemma_scan_bounds(classes, from);
    let next = scan(classes, from);
    let rest = breaks_from(classes, next);
    assert(breaks_from(classes, from) == seq![next] + rest);
    if next < classes.len() {
        lemma_breaks_ascend(classes, next);
    } else {
        assert(rest =~= Seq::<int>::empty());
    }
}

/// Each break offset is the offset of a position of the text behind its
/// start: a break never falls inside a code point.
pub proof fn lemma_breaks_are_offsets(classes: Seq<u8>, offsets: Seq<int>, which: int)
    requires
        0 <= which < break_offsets(classes, offsets, 0).len(),
    ensures
        0 < all_breaks(classes)[which] <= classes.len(),
        break_offsets(classes, offsets, 0)[which] == offsets[all_breaks(classes)[which]],
{
    if classes.len() > 0 {
        lemma_breaks_ascend(classes, 0);
    }
}

/// Monotonicity and termination, in offsets: the offsets of the breaks of
/// a text that is not empty are greater than zero, each greater than the
/// one before, and the last one is the length of the text in code units.
/// An empty text has no break.
pub proof fn lemma_break_offsets_ascend(classes: Seq<u8>, offsets: Seq<int>)
    requires
        offsets_fit(offsets, classes.len() as int),
    ensures
        classes.len() == 0 ==> break_offsets(classes, offsets, 0).len() == 0,
        classes.len() > 0 ==> break_offsets(classes, offsets, 0).len() >= 1
            && break_offsets(classes, offsets, 0)[0] > 0 && break_offsets(
            classes,
            offsets,
            0,
        ).last() == offsets.last(),
        strictly_increasing(break_offsets(classes, offsets, 0)),
{
    if classes.len() > 0 {
        lemma_breaks_ascend(classes, 0);
    }
}

} // verus!
