use vstd::prelude::*;
use crate::common::chars::Char;
use crate::common::span::Span;
use crate::common::time_travel::TimeTravel;
use crate::{Outcome, Parser};

verus! {

/// Pass when any subparser passes: snapshot, try the first on the shared
/// cursor; on failure restore and try the second; restore again if both
/// fail, so the position ends exactly where the alternation began
#[derive(Debug, PartialEq, Eq, Clone)]
pub struct Or<A, B> {
    a: A,
    b: B,
}

impl<A, B> Or<A, B> {
    pub fn new(a: A, b: B) -> (r: Self)
        ensures
            r.spec_a() == a,
            r.spec_b() == b,
    {
        Self { a, b }
    }

    pub closed spec fn spec_a(&self) -> A {
        self.a
    }

    pub closed spec fn spec_b(&self) -> B {
        self.b
    }
}

impl<A: Parser, B: Parser<Output = A::Output>> Parser for Or<A, B> {
    type Output = A::Output;

    open spec fn wf(&self) -> bool {
        self.spec_a().wf() && self.spec_b().wf()
    }

    open spec fn progressive(&self) -> bool {
        self.spec_a().progressive() && self.spec_b().progressive()
    }

    open spec fn restoring(&self) -> bool {
        true
    }

    open spec fn is_exact(&self) -> bool {
        self.spec_a().is_exact() && self.spec_b().is_exact()
    }

    open spec fn spec_parse(&self, toks: Seq<Char>, from: int) -> Outcome<A::Output> {
        match self.spec_a().spec_parse(toks, from) {
            Outcome::Pass { end, val } => Outcome::Pass { end, val },
            Outcome::Fail { .. } => match self.spec_b().spec_parse(toks, from) {
                Outcome::Pass { end, val } => Outcome::Pass { end, val },
                Outcome::Fail { .. } => Outcome::Fail { at: from },
            },
        }
    }

    proof fn lemma_spec_parse(&self, toks: Seq<Char>, from: int) {
        self.spec_a().lemma_spec_parse(toks, from);
        self.spec_b().lemma_spec_parse(toks, from);
    }

    fn parse(&self, input: Span) -> (r: (Option<A::Output>, Span)) {
        proof {
            input.lemma_bounds();
        }
        let from = input.save();
        let (ra, input) = self.a.parse(input);
        match ra {
            Some(va) => (Some(va), input),
            None => {
                let mut input = input;
                input.back(from);
                let (rb, input) = self.b.parse(input);
                match rb {
                    Some(vb) => (Some(vb), input),
                    None => {
                        let mut input = input;
                        input.back(from);
                        (None, input)
                    },
                }
            },
        }
    }
}

/// Alternation restores fully on total failure: when both branches fail,
/// the outcome leaves the cursor exactly at its pre-call position. The
/// parse contract then carries this to the running cursor through
/// `restoring`.
pub proof fn lemma_alternation_restores<A: Parser, B: Parser<Output = A::Output>>(
    o: &Or<A, B>,
    toks: Seq<Char>,
    from: int,
)
    ensures
        o.restoring(),
        (o.spec_parse(toks, from) matches Outcome::Fail { at } ==> at == from),
{
}

} // verus!
