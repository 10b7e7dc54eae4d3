use vstd::prelude::*;
use crate::combinators::apply::{apply_det, apply_total, apply_value, Apply};
use crate::common::chars::Char;
use crate::common::span::Span;
use crate::{Outcome, Parser};

verus! {

/// Map a parser's output through a function; failure passes through
/// unchanged
#[derive(Debug, PartialEq, Eq, Clone)]
pub struct Mapped<B, M> {
    base: B,
    f: M,
}

impl<B, M> Mapped<B, M> {
    pub fn new(base: B, f: M) -> (r: Self)
        ensures
            r.spec_base() == base,
            r.spec_f() == f,
    {
        Self { base, f }
    }

    pub closed spec fn spec_base(&self) -> B {
        self.base
    }

    pub closed spec fn spec_f(&self) -> M {
        self.f
    }
}

impl<B: Parser, M: Apply<<B as Parser>::Output>> Parser for Mapped<B, M> {
    type Output = M::Out;

    open spec fn wf(&self) -> bool {
        self.spec_base().wf() && apply_total(self.spec_f())
    }

    open spec fn progressive(&self) -> bool {
        self.spec_base().progressive()
    }

    open spec fn restoring(&self) -> bool {
        self.spec_base().restoring()
    }

    open spec fn is_exact(&self) -> bool {
        self.spec_base().is_exact() && apply_det(self.spec_f())
    }

    open spec fn spec_parse(&self, toks: Seq<Char>, from: int) -> Outcome<M::Out> {
        match self.spec_base().spec_parse(toks, from) {
            Outcome::Pass { end, val } => Outcome::Pass {
                end,
                val: apply_value(self.spec_f(), val),
            },
            Outcome::Fail { at } => Outcome::Fail { at },
        }
    }

    proof fn lemma_spec_parse(&self, toks: Seq<Char>, from: int) {
        self.spec_base().lemma_spec_parse(toks, from);
    }

    fn parse(&self, input: Span) -> (r: (Option<M::Out>, Span)) {
        let (rb, input) = self.base.parse(input);
        match rb {
            Some(v) => {
                let y = self.f.apply(v);
                proof {
                    if apply_det(self.spec_f()) {
                        assert(self.spec_f().post(v, y));
                        assert(self.spec_f().post(v, apply_value(self.spec_f(), v)));
                    }
                }
                (Some(y), input)
            },
            None => (None, input),
        }
    }
}

} // verus!
