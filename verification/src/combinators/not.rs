use vstd::prelude::*;
use crate::common::chars::Char;
use crate::common::span::Span;
use crate::common::time_travel::TimeTravel;
use crate::{Outcome, Parser};

verus! {

/// Pass if the subparser fails: a negative lookahead. Whatever the
/// subparser consumed is discarded, so the position always comes back to
/// where the lookahead began.
#[derive(Debug, PartialEq, Eq, Clone)]
pub struct Not<A> {
    a: A,
}

impl<A> Not<A> {
    pub fn new(a: A) -> (r: Self)
        ensures
            r.spec_a() == a,
    {
        Self { a }
    }

    pub closed spec fn spec_a(&self) -> A {
        self.a
    }
}

impl<A: Parser> Parser for Not<A> {
    type Output = ();

    open spec fn wf(&self) -> bool {
        self.spec_a().wf()
    }

    open spec fn progressive(&self) -> bool {
        false
    }

    open spec fn restoring(&self) -> bool {
        true
    }

    open spec fn is_exact(&self) -> bool {
        self.spec_a().is_exact()
    }

    open spec fn spec_parse(&self, toks: Seq<Char>, from: int) -> Outcome<()> {
        match self.spec_a().spec_parse(toks, from) {
            Outcome::Pass { .. } => Outcome::Fail { at: from },
            Outcome::Fail { .. } => Outcome::Pass { end: from, val: () },
        }
    }

    proof fn lemma_spec_parse(&self, toks: Seq<Char>, from: int) {
        self.spec_a().lemma_spec_parse(toks, from);
    }

    fn parse(&self, input: Span) -> (r: (Option<()>, Span)) {
        proof {
            input.lemma_bounds();
        }
        let from = input.save();
        let (ra, input) = self.a.parse(input);
        let mut input = input;
        input.back(from);
        match ra {
            Some(_) => (None, input),
            None => (Some(()), input),
        }
    }
}

} // verus!
