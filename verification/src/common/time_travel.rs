use vstd::prelude::*;
use crate::common::chars::Char;

verus! {

/// RefClone clones a shared view of a value, the way Clone on Rc or Arc
/// duplicates a handle
pub trait RefClone where Self: Sized {
    /// Clone a shared reference
    fn ref_clone(&self) -> Self;
}

/// Abstraction of a cursor over a timeline that stores historical records.
///
/// The specification names of the trait describe the state every
/// implementation must maintain: `toks` is the whole token history, past and
/// future; `buffered` counts how much of it has been pulled from the
/// underlying source so far; `cursor` is the reading position; `settled`
/// tells whether the last fetch has been confirmed; `over` tells whether the
/// source has reported exhaustion.
pub trait TimeTravel where Self: Sized {
    /// Internal consistency of the cursor state
    spec fn inv(&self) -> bool;

    /// Every token the timeline will ever yield, buffered or not
    spec fn toks(&self) -> Seq<Char>;

    /// How many tokens are buffered so far
    spec fn buffered(&self) -> int;

    /// The current reading position
    spec fn cursor(&self) -> int;

    /// Whether the position is confirmed (no dangling tentative fetch)
    spec fn settled(&self) -> bool;

    /// Whether the underlying source has reported its end
    spec fn over(&self) -> bool;

    /// Get the value of the specified position, pulling from the source as
    /// needed; the reading position does not move.
    /// - None if the timeline is completed but not found
    fn get(&mut self, index: usize) -> (r: Option<Char>)
        requires
            old(self).inv(),
        ensures
            final(self).inv(),
            final(self).toks() == old(self).toks(),
            final(self).cursor() == old(self).cursor(),
            final(self).settled() == old(self).settled(),
            old(self).buffered() <= final(self).buffered(),
            old(self).over() ==> final(self).over(),
            index < old(self).buffered() ==> final(self).buffered() == old(self).buffered()
                && final(self).over() == old(self).over(),
            index < old(self).toks().len() ==> r == Some(old(self).toks()[index as int])
                && index < final(self).buffered(),
            index >= old(self).toks().len() ==> r is None && final(self).over()
                && final(self).buffered() == final(self).toks().len(),
    ;

    /// Check if the timeline is complete: the source is exhausted and the
    /// position has caught up with everything buffered
    fn is_complete(&self) -> (r: bool)
        requires
            self.inv(),
        ensures
            r == (self.over() && self.cursor() >= self.buffered()),
    ;

    /// Settle a dangling tentative fetch: retreat one step unless the
    /// position is already confirmed
    fn re_ready(&mut self)
        requires
            old(self).inv(),
        ensures
            final(self).inv(),
            final(self).toks() == old(self).toks(),
            final(self).buffered() == old(self).buffered(),
            final(self).over() == old(self).over(),
            final(self).settled(),
            old(self).settled() ==> final(self).cursor() == old(self).cursor(),
            !old(self).settled() ==> final(self).cursor() == old(self).cursor() - 1,
    ;

    /// Confirm the current position without moving it
    fn do_ready(&mut self)
        requires
            old(self).inv(),
        ensures
            final(self).inv(),
            final(self).toks() == old(self).toks(),
            final(self).buffered() == old(self).buffered(),
            final(self).over() == old(self).over(),
            final(self).cursor() == old(self).cursor(),
            final(self).settled(),
    ;

    /// Save the current time point
    fn save(&self) -> (r: usize)
        requires
            self.inv(),
        ensures
            r == self.cursor(),
    ;

    /// Time travel to a point in history; never forgets buffered tokens.
    /// A point past the buffered history is cut back to its edge.
    fn back(&mut self, index: usize)
        requires
            old(self).inv(),
        ensures
            final(self).inv(),
            final(self).toks() == old(self).toks(),
            final(self).buffered() == old(self).buffered(),
            final(self).over() == old(self).over(),
            final(self).settled(),
            index <= old(self).buffered() ==> final(self).cursor() == index,
            index > old(self).buffered() ==> final(self).cursor() == old(self).buffered(),
    ;

    /// Calculate the range from save point to current
    fn make_range(&self, from: usize) -> (r: core::ops::Range<usize>)
        requires
            self.inv(),
        ensures
            r.start == from,
            r.end == self.cursor(),
    ;
}

/// Make another instance equal to yourself
pub trait SyncTo {
    /// let other = self
    fn sync_to(&self, other: &mut Self);
}

/// Calculate String
pub trait ComString {
    type ComStringData;

    /// Calculate String
    fn com_string(&self, data: Self::ComStringData) -> Option<String>;
}

/// Get String
pub trait GetString {
    /// Get String
    fn get_string(&self) -> String;
}

/// Calculate char
pub trait ComChar {
    type ComCharData;

    /// Calculate char
    fn com_char(&self, data: Self::ComCharData) -> Option<char>;
}

/// Get char
pub trait GetChar {
    /// Get char
    fn get_char(&self) -> char;
}

} // verus!
