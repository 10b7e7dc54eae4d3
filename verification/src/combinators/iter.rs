use vstd::prelude::*;
use crate::common::chars::CharChars;
use crate::common::span::Span;
use crate::common::time_travel::TimeTravel;
use crate::{Outcome, Parser};

verus! {

/// Continuously parse into a restartable puller: each pull attempts the
/// part once; the pulling stops, leaving the cursor at the last successful
/// position, the first time the part fails
#[derive(Debug, PartialEq, Eq, Clone)]
pub struct Iter<A> {
    a: A,
}

impl<A> Iter<A> {
    pub fn new(a: A) -> (r: Self)
        ensures
            r.spec_a() == a,
    {
        Self { a }
    }

    pub closed spec fn spec_a(&self) -> A {
        self.a
    }
}

impl<A: Parser> Iter<A> {
    /// Turn the cursor into a puller of successive matches
    pub fn parse(self, input: Span) -> (r: ParserIter<A>)
        requires
            self.spec_a().wf(),
            input.inv(),
            input.settled(),
        ensures
            r.wf(),
            r.spec_a() == self.spec_a(),
            r.spec_input().toks() == input.toks(),
            r.spec_input().cursor() == input.cursor(),
    {
        ParserIter { a: self.a, input }
    }
}

/// The puller an [`Iter`] makes: it owns the cursor and hands out one
/// output per successful attempt
#[derive(Debug)]
pub struct ParserIter<A> {
    a: A,
    input: Span,
}

impl<A: Parser> ParserIter<A> {
    pub closed spec fn spec_a(&self) -> A {
        self.a
    }

    pub closed spec fn spec_input(&self) -> Span {
        self.input
    }

    pub open spec fn wf(&self) -> bool {
        &&& self.spec_a().wf()
        &&& self.spec_input().inv()
        &&& self.spec_input().settled()
    }

    /// The cursor as the puller has left it
    pub fn input(&self) -> (r: &Span)
        ensures
            *r == self.spec_input(),
    {
        &self.input
    }

    /// Attempt the part once more; None restores the position it started
    /// this attempt at
    pub fn next(&mut self) -> (r: Option<A::Output>)
        requires
            old(self).wf(),
        ensures
            final(self).wf(),
            final(self).spec_a() == old(self).spec_a(),
            final(self).spec_input().toks() == old(self).spec_input().toks(),
            r is None ==> final(self).spec_input().cursor() == old(self).spec_input().cursor(),
            r is Some && old(self).spec_a().progressive() ==> old(self).spec_input().cursor()
                < final(self).spec_input().cursor(),
            old(self).spec_a().is_exact() ==> (match old(self).spec_a().spec_parse(
                old(self).spec_input().toks(),
                old(self).spec_input().cursor(),
            ) {
                Outcome::Pass { end, val } => r == Some(val) && final(self).spec_input().cursor()
                    == end,
                Outcome::Fail { .. } => r is None,
            }),
    {
        let mut tmp = Span::new(CharChars::new(Vec::new()));
        core::mem::swap(&mut self.input, &mut tmp);
        proof {
            tmp.lemma_bounds();
        }
        let from = tmp.save();
        let (ra, tmp2) = self.a.parse(tmp);
        let mut tmp = tmp2;
        if ra.is_none() {
            tmp.back(from);
        }
        core::mem::swap(&mut self.input, &mut tmp);
        ra
    }
}

} // verus!
