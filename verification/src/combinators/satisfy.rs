use vstd::prelude::*;
use crate::combinators::apply::{apply_det, apply_total, apply_value, Apply};
use crate::common::chars::Char;
use crate::common::span::Span;
use crate::common::time_travel::TimeTravel;
use crate::{Outcome, Parser};

verus! {

/// Match one token accepted by a predicate
#[derive(Debug, PartialEq, Eq, Clone)]
pub struct Satisfy<M> {
    f: M,
}

impl<M> Satisfy<M> {
    pub fn new(f: M) -> (r: Self)
        ensures
            r.spec_f() == f,
    {
        Self { f }
    }

    /// The predicate this matcher asks
    pub closed spec fn spec_f(&self) -> M {
        self.f
    }
}

impl<M: Apply<Char, Out = bool>> Parser for Satisfy<M> {
    type Output = core::ops::Range<usize>;

    open spec fn wf(&self) -> bool {
        apply_total(self.spec_f())
    }

    open spec fn progressive(&self) -> bool {
        true
    }

    open spec fn restoring(&self) -> bool {
        false
    }

    open spec fn is_exact(&self) -> bool {
        apply_det(self.spec_f())
    }

    open spec fn spec_parse(&self, toks: Seq<Char>, from: int) -> Outcome<core::ops::Range<usize>> {
        if 0 <= from < toks.len() {
            if apply_value(self.spec_f(), toks[from]) {
                Outcome::Pass {
                    end: from + 1,
                    val: (core::ops::Range { start: from as usize, end: (from + 1) as usize }),
                }
            } else {
                Outcome::Fail { at: from + 1 }
            }
        } else {
            Outcome::Fail { at: from }
        }
    }

    proof fn lemma_spec_parse(&self, toks: Seq<Char>, from: int) {
    }

    fn parse(&self, input: Span) -> (r: (Option<core::ops::Range<usize>>, Span)) {
        let mut input = input;
        proof {
            input.lemma_bounds();
        }
        let from = input.save();
        let t = input.next();
        match t {
            None => (None, input),
            Some(c) => {
                input.do_ready();
                let ok = self.f.apply(c);
                proof {
                    if apply_det(self.spec_f()) {
                        assert(self.spec_f().post(c, ok));
                        assert(self.spec_f().post(c, apply_value(self.spec_f(), c)));
                    }
                }
                if ok {
                    let rg = input.make_range(from);
                    (Some(rg), input)
                } else {
                    (None, input)
                }
            },
        }
    }
}

/// Match one token accepted by the predicate `f`
pub fn satisfy<M: Apply<Char, Out = bool>>(f: M) -> (r: Satisfy<M>)
    ensures
        r.spec_f() == f,
{
    Satisfy::new(f)
}

} // verus!
