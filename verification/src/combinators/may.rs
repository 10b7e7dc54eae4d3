use vstd::prelude::*;
use crate::common::chars::Char;
use crate::common::span::Span;
use crate::common::time_travel::TimeTravel;
use crate::{Outcome, Parser};

verus! {

/// Match the subparser zero or one time: always passes, with the
/// subparser's output when it matched, and with the position restored
/// when it did not
#[derive(Debug, PartialEq, Eq, Clone)]
pub struct May<A> {
    a: A,
}

impl<A> May<A> {
    pub fn new(a: A) -> (r: Self)
        ensures
            r.spec_a() == a,
    {
        Self { a }
    }

    pub closed spec fn spec_a(&self) -> A {
        self.a
    }
}

impl<A: Parser> Parser for May<A> {
    type Output = Option<A::Output>;

    open spec fn wf(&self) -> bool {
        self.spec_a().wf()
    }

    open spec fn progressive(&self) -> bool {
        false
    }

    open spec fn restoring(&self) -> bool {
        true
    }

    open spec fn is_exact(&self) -> bool {
        self.spec_a().is_exact()
    }

    open spec fn spec_parse(&self, toks: Seq<Char>, from: int) -> Outcome<Option<A::Output>> {
        match self.spec_a().spec_parse(toks, from) {
            Outcome::Pass { end, val } => Outcome::Pass { end, val: Some(val) },
            Outcome::Fail { .. } => Outcome::Pass { end: from, val: None },
        }
    }

    proof fn lemma_spec_parse(&self, toks: Seq<Char>, from: int) {
        self.spec_a().lemma_spec_parse(toks, from);
    }

    fn parse(&self, input: Span) -> (r: (Option<Option<A::Output>>, Span)) {
        proof {
            input.lemma_bounds();
        }
        let from = input.save();
        let (ra, input) = self.a.parse(input);
        let mut input = input;
        match ra {
            Some(va) => {
                input.re_ready();
                (Some(Some(va)), input)
            },
            None => {
                input.back(from);
                (Some(None), input)
            },
        }
    }
}

} // verus!
