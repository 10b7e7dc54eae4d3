use vstd::prelude::*;
use crate::common::chars::Char;
use crate::common::span::Span;
use crate::common::time_travel::TimeTravel;
use crate::{Outcome, Parser};

verus! {

/// Only pass if both subparsers pass, the second starting where the first
/// ended. The sequence does not roll back the first part's consumption if
/// the second fails: atomicity across both is the enclosing alternation's
/// job.
#[derive(Debug, PartialEq, Eq, Clone)]
pub struct And<A, B> {
    a: A,
    b: B,
}

impl<A, B> And<A, B> {
    pub fn new(a: A, b: B) -> (r: Self)
        ensures
            r.spec_a() == a,
            r.spec_b() == b,
    {
        Self { a, b }
    }

    pub closed spec fn spec_a(&self) -> A {
        self.a
    }

    pub closed spec fn spec_b(&self) -> B {
        self.b
    }
}

impl<A: Parser, B: Parser> Parser for And<A, B> {
    type Output = (A::Output, B::Output);

    open spec fn wf(&self) -> bool {
        self.spec_a().wf() && self.spec_b().wf()
    }

    open spec fn progressive(&self) -> bool {
        self.spec_a().progressive() || self.spec_b().progressive()
    }

    open spec fn restoring(&self) -> bool {
        false
    }

    open spec fn is_exact(&self) -> bool {
        self.spec_a().is_exact() && self.spec_b().is_exact()
    }

    open spec fn spec_parse(&self, toks: Seq<Char>, from: int) -> Outcome<(A::Output, B::Output)> {
        match self.spec_a().spec_parse(toks, from) {
            Outcome::Pass { end: j, val: va } => match self.spec_b().spec_parse(toks, j) {
                Outcome::Pass { end: k, val: vb } => Outcome::Pass { end: k, val: (va, vb) },
                Outcome::Fail { at } => Outcome::Fail { at },
            },
            Outcome::Fail { at } => Outcome::Fail { at },
        }
    }

    proof fn lemma_spec_parse(&self, toks: Seq<Char>, from: int) {
        self.spec_a().lemma_spec_parse(toks, from);
        if let Outcome::Pass { end: j, val: _ } = self.spec_a().spec_parse(toks, from) {
            self.spec_b().lemma_spec_parse(toks, j);
        }
    }

    fn parse(&self, input: Span) -> (r: (Option<(A::Output, B::Output)>, Span)) {
        proof {
            input.lemma_bounds();
        }
        let (ra, input) = self.a.parse(input);
        match ra {
            Some(va) => {
                let mut input = input;
                input.re_ready();
                let (rb, input) = self.b.parse(input);
                match rb {
                    Some(vb) => (Some((va, vb)), input),
                    None => (None, input),
                }
            },
            None => (None, input),
        }
    }
}

} // verus!
