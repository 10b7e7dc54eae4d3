use vstd::prelude::*;
use crate::combinators::apply::{supply_det, supply_some, supply_value, Supply};
use crate::common::chars::Char;
use crate::common::span::Span;
use crate::common::time_travel::TimeTravel;
use crate::{Outcome, Parser};

verus! {

/// Pass if the subparser passes; otherwise restore the position, build a
/// replacement parser lazily and run that from the original position
/// instead. The builder runs only on failure, and the outcome on success
/// is the subparser's alone.
#[derive(Debug, PartialEq, Eq, Clone)]
pub struct OrElse<B, M> {
    base: B,
    f: M,
}

impl<B, M> OrElse<B, M> {
    pub fn new(base: B, f: M) -> (r: Self)
        ensures
            r.spec_base() == base,
            r.spec_f() == f,
    {
        Self { base, f }
    }

    pub closed spec fn spec_base(&self) -> B {
        self.base
    }

    pub closed spec fn spec_f(&self) -> M {
        self.f
    }
}

impl<B: Parser, M: Supply> Parser for OrElse<B, M> where M::Out: Parser<
    Output = <B as Parser>::Output,
> {
    type Output = B::Output;

    open spec fn wf(&self) -> bool {
        &&& self.spec_base().wf()
        &&& self.spec_f().pre0()
        &&& (forall|u: M::Out| #[trigger] self.spec_f().post0(u) ==> u.wf())
    }

    open spec fn progressive(&self) -> bool {
        self.spec_base().progressive() && (forall|u: M::Out| #[trigger]
            self.spec_f().post0(u) ==> u.progressive())
    }

    open spec fn restoring(&self) -> bool {
        forall|u: M::Out| #[trigger] self.spec_f().post0(u) ==> u.restoring()
    }

    open spec fn is_exact(&self) -> bool {
        &&& self.spec_base().is_exact()
        &&& supply_det(self.spec_f())
        &&& supply_some(self.spec_f())
        &&& (forall|u: M::Out| #[trigger] self.spec_f().post0(u) ==> u.is_exact())
    }

    open spec fn spec_parse(&self, toks: Seq<Char>, from: int) -> Outcome<B::Output> {
        match self.spec_base().spec_parse(toks, from) {
            Outcome::Pass { end, val } => Outcome::Pass { end, val },
            Outcome::Fail { .. } => supply_value(self.spec_f()).spec_parse(toks, from),
        }
    }

    proof fn lemma_spec_parse(&self, toks: Seq<Char>, from: int) {
        self.spec_base().lemma_spec_parse(toks, from);
        if self.spec_base().spec_parse(toks, from) is Fail {
            let u = supply_value(self.spec_f());
            assert(self.spec_f().post0(u));
            u.lemma_spec_parse(toks, from);
        }
    }

    fn parse(&self, input: Span) -> (r: (Option<B::Output>, Span)) {
        proof {
            input.lemma_bounds();
        }
        let from = input.save();
        let (rb, input) = self.base.parse(input);
        match rb {
            Some(v) => (Some(v), input),
            None => {
                let mut input = input;
                input.back(from);
                let u = self.f.supply();
                proof {
                    if self.is_exact() {
                        assert(self.spec_f().post0(u));
                        assert(self.spec_f().post0(supply_value(self.spec_f())));
                    }
                }
                u.parse(input)
            },
        }
    }
}

} // verus!
