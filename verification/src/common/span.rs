use vstd::prelude::*;
use crate::common::chars::{Char, CharChars, chars_to_string};
use crate::common::loc::{ComLoc, ComLocRange, GetLoc, Loc, LocRange};
use crate::common::time_travel::{ComString, RefClone, SyncTo, TimeTravel};
use crate::common::timeline::Timeline;

verus! {

/// The plain characters that a slice of the token history spells
pub open spec fn text_of(toks: Seq<Char>, from: int, to: int) -> Seq<char> {
    toks.subrange(from, to).map_values(|t: Char| t.spec_c())
}

/// A time-travelable collection: a reading position over a [`Timeline`],
/// with save/restore and a confirmation flag for tentative fetches.
/// See [`TimeTravel`]
#[derive(Debug)]
pub struct Span {
    timeline: Timeline,
    index: usize,
    ready: bool,
}

impl Span {
    pub fn new(src: CharChars) -> (r: Self)
        ensures
            src.inv() ==> r.inv(),
            r.toks() == src.remaining(),
            r.buffered() == 0,
            r.cursor() == 0,
            r.settled(),
            !r.over(),
    {
        Self { timeline: Timeline::new(src), index: 0, ready: true }
    }

    /// The position has consumed the whole history and the source is done
    pub open spec fn complete(&self) -> bool {
        self.over() && self.cursor() >= self.buffered()
    }

    /// The buffered part never outruns the whole history, and a consistent
    /// cursor stays inside it
    pub proof fn lemma_bounds(&self)
        ensures
            0 <= self.buffered() <= self.toks().len(),
            self.inv() ==> 0 <= self.cursor() <= self.buffered(),
            self.inv() && self.over() ==> self.buffered() == self.toks().len(),
            self.inv() ==> self.toks().len() <= usize::MAX,
    {
        self.timeline.lemma_buffered_le_toks();
    }

    /// Return the token at the current position and advance by one, marking
    /// the new position unconfirmed; None at the end of input
    pub fn next(&mut self) -> (r: Option<Char>)
        requires
            old(self).inv(),
        ensures
            final(self).inv(),
            final(self).toks() == old(self).toks(),
            old(self).buffered() <= final(self).buffered(),
            old(self).over() ==> final(self).over(),
            old(self).cursor() < old(self).toks().len() ==> r == Some(
                old(self).toks()[old(self).cursor()],
            ) && final(self).cursor() == old(self).cursor() + 1 && !final(self).settled()
                && final(self).cursor() <= final(self).buffered(),
            old(self).cursor() >= old(self).toks().len() ==> r is None
                && final(self).cursor() == old(self).cursor()
                && final(self).settled() == old(self).settled()
                && final(self).over()
                && final(self).buffered() == final(self).toks().len(),
    {
        let got = self.timeline.get(self.index);
        match got {
            Some(c) => {
                self.index = self.index + 1;
                self.ready = false;
                Some(c)
            },
            None => None,
        }
    }

    /// A fresh position over the same buffered history, reset to the start:
    /// an independent read head that re-reads without re-tokenizing
    pub fn restart(&self) -> (r: Self)
        ensures
            self.inv() ==> r.inv(),
            r.toks() == self.toks(),
            r.buffered() == self.buffered(),
            r.over() == self.over(),
            r.cursor() == 0,
            r.settled(),
    {
        Self { timeline: self.timeline.ref_clone(), index: 0, ready: true }
    }
}

impl TimeTravel for Span {
    closed spec fn inv(&self) -> bool {
        &&& self.timeline.inv()
        &&& self.index <= self.timeline.buffered()
        &&& (!self.ready ==> self.index >= 1)
    }

    closed spec fn toks(&self) -> Seq<Char> {
        self.timeline.toks()
    }

    closed spec fn buffered(&self) -> int {
        self.timeline.buffered()
    }

    closed spec fn cursor(&self) -> int {
        self.index as int
    }

    closed spec fn settled(&self) -> bool {
        self.ready
    }

    closed spec fn over(&self) -> bool {
        self.timeline.ended()
    }

    fn get(&mut self, index: usize) -> (r: Option<Char>) {
        self.timeline.get(index)
    }

    fn is_complete(&self) -> (r: bool) {
        proof {
            self.timeline.lemma_buffered_le_toks();
        }
        self.timeline.is_end() && self.index >= self.timeline.now_len()
    }

    fn re_ready(&mut self) {
        if !self.ready {
            self.index = self.index - 1;
            self.ready = true;
        }
    }

    fn do_ready(&mut self) {
        self.ready = true;
    }

    fn save(&self) -> (r: usize) {
        self.index
    }

    fn back(&mut self, index: usize) {
        let edge = self.timeline.now_len();
        if index <= edge {
            self.index = index;
        } else {
            self.index = edge;
        }
        self.ready = true;
    }

    fn make_range(&self, from: usize) -> (r: core::ops::Range<usize>) {
        from..self.index
    }
}

impl RefClone for Span {
    /// An alias in value form: a snapshot sharing the whole buffered history
    /// and the position; advancing one is published to the other with
    /// [`SyncTo::sync_to`]
    fn ref_clone(&self) -> (r: Self)
        ensures
            r.inv() == self.inv(),
            r.toks() == self.toks(),
            r.buffered() == self.buffered(),
            r.cursor() == self.cursor(),
            r.settled() == self.settled(),
            r.over() == self.over(),
    {
        Self { timeline: self.timeline.ref_clone(), index: self.index, ready: self.ready }
    }
}

impl SyncTo for Span {
    /// Publish this cursor's state into another handle: after the call the
    /// other cursor reads the same history at the same position
    fn sync_to(&self, other: &mut Self)
        ensures
            final(other).inv() == self.inv(),
            final(other).toks() == self.toks(),
            final(other).buffered() == self.buffered(),
            final(other).cursor() == self.cursor(),
            final(other).settled() == self.settled(),
            final(other).over() == self.over(),
    {
        *other = self.ref_clone();
    }
}

impl ComString for Span {
    type ComStringData = core::ops::Range<usize>;

    /// The text the given index range spells, if it is fully buffered;
    /// None for a range past the buffered history or a backwards range
    fn com_string(&self, data: core::ops::Range<usize>) -> (r: Option<String>)
        ensures
            self.inv() ==> {
                &&& (data.start <= data.end && data.end <= self.buffered()) ==> (r matches Some(s)
                    && s@ == text_of(self.toks(), data.start as int, data.end as int))
                &&& !(data.start <= data.end && data.end <= self.buffered()) ==> r is None
            },
    {
        let start = data.start;
        let end = data.end;
        if start > end || end > self.timeline.now_len() {
            return None;
        }
        let mut v: Vec<char> = Vec::new();
        let mut i: usize = start;
        proof {
            if self.inv() {
                self.timeline.lemma_buffered_le_toks();
                assert(text_of(self.toks(), start as int, start as int) =~= Seq::<char>::empty());
            }
        }
        while i < end
            invariant
                start <= i <= end,
                self.inv() ==> end <= self.buffered() && v@ == text_of(
                    self.toks(),
                    start as int,
                    i as int,
                ),
            decreases end - i,
        {
            match self.timeline.peek(i) {
                Some(c) => {
                    v.push(c.c());
                    proof {
                        if self.inv() {
                            self.timeline.lemma_buffered_le_toks();
                            assert(v@ =~= text_of(self.toks(), start as int, i + 1 as int));
                        }
                    }
                },
                None => {
                    return None;
                },
            }
            i = i + 1;
        }
        Some(chars_to_string(&v))
    }
}

impl ComLoc for Span {
    type ComLocData = usize;

    /// The location of the token at a buffered index
    fn loc(&self, data: usize) -> (r: Option<Loc>)
        ensures
            self.inv() ==> {
                &&& data < self.buffered() ==> r == Some(self.toks()[data as int].spec_loc())
                &&& data >= self.buffered() ==> r is None
            },
    {
        match self.timeline.peek(data) {
            Some(c) => Some(c.loc()),
            None => None,
        }
    }
}

impl ComLocRange for Span {
    type ComLocRangeData = core::ops::Range<usize>;

    /// The locations the given index range covers, from its first token to
    /// its last one; None for an empty range or one not fully buffered
    fn loc_range(&self, data: core::ops::Range<usize>) -> (r: Option<LocRange>)
        ensures
            self.inv() ==> {
                &&& (data.start < data.end && data.end <= self.buffered()) ==> r == Some(
                    LocRange {
                        from: self.toks()[data.start as int].spec_loc(),
                        to: self.toks()[data.end - 1].spec_loc(),
                    },
                )
                &&& !(data.start < data.end && data.end <= self.buffered()) ==> r is None
            },
    {
        let start = data.start;
        let end = data.end;
        if start >= end || end > self.timeline.now_len() {
            return None;
        }
        let s = self.timeline.peek(start);
        let e = self.timeline.peek(end - 1);
        match (s, e) {
            (Some(sc), Some(ec)) => Some(LocRange::new(sc.loc(), ec.loc())),
            _ => None,
        }
    }
}

} // verus!
