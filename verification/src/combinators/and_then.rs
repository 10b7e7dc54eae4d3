use vstd::prelude::*;
use crate::combinators::apply::{apply_det, apply_full, apply_some, apply_total, apply_value, Apply};
use crate::common::chars::Char;
use crate::common::span::Span;
use crate::common::time_travel::TimeTravel;
use crate::{Outcome, Parser};

verus! {

/// Fail if the subparser fails; otherwise build a new parser from its
/// output and run that in sequence. This is what lets a grammar depend on
/// data it parsed earlier: when the part passes with `x`, the matcher the
/// builder makes of `x` continues from where the part ended, and the
/// builder is never consulted on failure.
#[derive(Debug, PartialEq, Eq, Clone)]
pub struct AndThen<B, M> {
    base: B,
    f: M,
}

impl<B, M> AndThen<B, M> {
    pub fn new(base: B, f: M) -> (r: Self)
        ensures
            r.spec_base() == base,
            r.spec_f() == f,
    {
        Self { base, f }
    }

    pub closed spec fn spec_base(&self) -> B {
        self.base
    }

    pub closed spec fn spec_f(&self) -> M {
        self.f
    }
}

impl<B: Parser, M: Apply<<B as Parser>::Output>> Parser for AndThen<B, M> where M::Out: Parser {
    type Output = <M::Out as Parser>::Output;

    open spec fn wf(&self) -> bool {
        &&& self.spec_base().wf()
        &&& apply_total(self.spec_f())
        &&& (forall|x: B::Output, u: M::Out| #[trigger]
            self.spec_f().post(x, u) ==> u.wf())
    }

    open spec fn progressive(&self) -> bool {
        self.spec_base().progressive()
    }

    open spec fn restoring(&self) -> bool {
        false
    }

    open spec fn is_exact(&self) -> bool {
        &&& self.spec_base().is_exact()
        &&& apply_det(self.spec_f())
        &&& apply_full(self.spec_f())
        &&& (forall|x: B::Output, u: M::Out| #[trigger]
            self.spec_f().post(x, u) ==> u.is_exact())
    }

    open spec fn spec_parse(&self, toks: Seq<Char>, from: int) -> Outcome<Self::Output> {
        match self.spec_base().spec_parse(toks, from) {
            Outcome::Pass { end: j, val: x } => apply_value(self.spec_f(), x).spec_parse(toks, j),
            Outcome::Fail { at } => Outcome::Fail { at },
        }
    }

    proof fn lemma_spec_parse(&self, toks: Seq<Char>, from: int) {
        self.spec_base().lemma_spec_parse(toks, from);
        if let Outcome::Pass { end: j, val: x } = self.spec_base().spec_parse(toks, from) {
            let u = apply_value(self.spec_f(), x);
            assert(apply_some(self.spec_f(), x));
            assert(self.spec_f().post(x, u));
            u.lemma_spec_parse(toks, j);
        }
    }

    fn parse(&self, input: Span) -> (r: (Option<Self::Output>, Span)) {
        let (rb, input) = self.base.parse(input);
        match rb {
            Some(x) => {
                let mut input = input;
                input.re_ready();
                let u = self.f.apply(x);
                proof {
                    if self.is_exact() {
                        assert(self.spec_f().post(x, u));
                        assert(apply_some(self.spec_f(), x));
                        assert(self.spec_f().post(x, apply_value(self.spec_f(), x)));
                    }
                }
                u.parse(input)
            },
            None => (None, input),
        }
    }
}

} // verus!
