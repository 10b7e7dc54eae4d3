use vstd::prelude::*;
use crate::combinators::apply::Apply;
use crate::common::chars::Char;
use crate::common::span::Span;
use crate::common::time_travel::TimeTravel;
use crate::{Outcome, Parser};

verus! {

/// Make a plain function a parser again. Mutually recursive grammar rules
/// (a value referencing an array referencing a value) are written as
/// ordinary functions from cursor to outcome-and-cursor; wrapping a rule
/// in `Dyn` erases the composed matcher type growing inside its body, so
/// the recursion does not grow types without bound.
#[derive(Debug, PartialEq, Eq, Clone)]
pub struct Dyn<M> {
    f: M,
}

impl<M> Dyn<M> {
    pub fn new(f: M) -> (r: Self)
        ensures
            r.spec_f() == f,
    {
        Self { f }
    }

    pub closed spec fn spec_f(&self) -> M {
        self.f
    }
}

impl<O, M: Apply<Span, Out = (Option<O>, Span)>> Parser for Dyn<M> {
    type Output = O;

    open spec fn wf(&self) -> bool {
        &&& (forall|s: Span| s.inv() && s.settled() ==> #[trigger] self.spec_f().pre(s))
        &&& (forall|s: Span, r: (Option<O>, Span)| #[trigger]
            self.spec_f().post(s, r) ==> r.1.inv() && r.1.settled() && r.1.toks() == s.toks()
                && s.buffered() <= r.1.buffered() && (s.over() ==> r.1.over()) && (r.0 is Some
                ==> s.cursor() <= r.1.cursor()))
    }

    open spec fn progressive(&self) -> bool {
        forall|s: Span, r: (Option<O>, Span)| #[trigger]
            self.spec_f().post(s, r) ==> (r.0 is Some ==> s.cursor() < r.1.cursor())
    }

    open spec fn restoring(&self) -> bool {
        forall|s: Span, r: (Option<O>, Span)| #[trigger]
            self.spec_f().post(s, r) ==> (r.0 is None ==> s.cursor() == r.1.cursor())
    }

    open spec fn is_exact(&self) -> bool {
        false
    }

    open spec fn spec_parse(&self, toks: Seq<Char>, from: int) -> Outcome<O> {
        arbitrary()
    }

    proof fn lemma_spec_parse(&self, toks: Seq<Char>, from: int) {
    }

    fn parse(&self, input: Span) -> (r: (Option<O>, Span))
        ensures
            self.spec_f().post(input, r),
    {
        let r = self.f.apply(input);
        proof {
            assert(self.spec_f().post(input, r));
        }
        r
    }
}

/// The wrapped rule answers as a function of the token history and the
/// reading position alone: its outcome and final position ignore how much
/// happened to be buffered when it ran
pub open spec fn dyn_det<O, M: Apply<Span, Out = (Option<O>, Span)>>(m: M) -> bool {
    forall|s1: Span, s2: Span, r1: (Option<O>, Span), r2: (Option<O>, Span)|
        m.post(s1, r1) && m.post(s2, r2) && s1.toks() == s2.toks() && s1.cursor() == s2.cursor()
            ==> r1.0 == r2.0 && r1.1.cursor() == r2.1.cursor()

}

/// Replay idempotence for a wrapped rule: running it twice from the same
/// position over the same history yields identical output and an
/// identical final position. Each run of `Dyn::parse` ensures the rule's
/// own postcondition, so this applies to any two runs of a
/// position-determined rule.
pub proof fn lemma_dyn_replay<O, M: Apply<Span, Out = (Option<O>, Span)>>(
    d: &Dyn<M>,
    s1: Span,
    s2: Span,
    r1: (Option<O>, Span),
    r2: (Option<O>, Span),
)
    requires
        dyn_det(d.spec_f()),
        d.spec_f().post(s1, r1),
        d.spec_f().post(s2, r2),
        s1.toks() == s2.toks(),
        s1.cursor() == s2.cursor(),
    ensures
        r1.0 == r2.0,
        r1.1.cursor() == r2.1.cursor(),
{
}

} // verus!
