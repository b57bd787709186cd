//! The capability that the break engine needs of a text: to read the code
//! point at a cursor, to step over it, to go back to a saved position, and
//! to tell the cursor's offset in code units.
use vstd::prelude::*;

verus! {

/// A text in some encoding, with a cursor on one of its code points or at
/// its end. A cursor is a plain value: a copy of it is a saved position.
pub trait CodepointCursor: Sized {
    /// The cursor's fields agree with each other and with the text.
    spec fn well_formed(&self) -> bool;

    /// The text, decoded.
    spec fn codes(&self) -> Seq<u32>;

    /// The offset in code units of each code point, and behind them the
    /// length of the text: one entry more than `codes` has.
    spec fn offsets(&self) -> Seq<int>;

    /// The number of code points before the cursor.
    spec fn index(&self) -> int;

    /// The offsets start at zero, ascend, and fit the machine; the cursor
    /// stands inside the text or at its end.
    proof fn lemma_well_formed(&self)
        requires
            self.well_formed(),
        ensures
            0 <= self.index() <= self.codes().len(),
            self.offsets().len() == self.codes().len() + 1,
            self.offsets()[0] == 0,
            forall|i: int, j: int|
                0 <= i < j < self.offsets().len() ==> self.offsets()[i] < self.offsets()[j],
            self.offsets().last() <= usize::MAX,
    ;

    /// Whether the cursor stands at the end of the text.
    fn is_eof(&self) -> (eof: bool)
        requires
            self.well_formed(),
        ensures
            eof == (self.index() == self.codes().len()),
    ;

    /// The code point at the cursor.
    fn current(&self) -> (code: u32)
        requires
            self.well_formed(),
            self.index() < self.codes().len(),
        ensures
            code == self.codes()[self.index()],
    ;

    /// Steps over the code point at the cursor.
    fn advance(&mut self)
        requires
            old(self).well_formed(),
            old(self).index() < old(self).codes().len(),
        ensures
            final(self).well_formed(),
            final(self).codes() == old(self).codes(),
            final(self).offsets() == old(self).offsets(),
            final(self).index() == old(self).index() + 1,
    ;

    /// The cursor's position, to come back to.
    fn save(&self) -> (saved: Self)
        ensures
            saved == *self,
    ;

    /// Goes back to a saved position.
    fn restore(&mut self, saved: Self)
        ensures
            *final(self) == saved,
    ;

    /// The cursor's offset in code units.
    fn offset(&self) -> (offset: usize)
        requires
            self.well_formed(),
        ensures
            offset == self.offsets()[self.index()],
    ;
}

} // verus!
