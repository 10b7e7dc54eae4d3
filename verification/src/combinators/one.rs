use vstd::prelude::*;
use crate::common::chars::Char;
use crate::common::span::Span;
use crate::common::time_travel::TimeTravel;
use crate::{Outcome, Parser};

verus! {

/// Match one token equal to a given character; a line-break token counts
/// as `'\n'`
#[derive(Debug, PartialEq, Eq, Clone)]
pub struct One {
    val: char,
}

impl One {
    pub fn new(val: char) -> (r: Self)
        ensures
            r.spec_val() == val,
    {
        Self { val }
    }

    /// The character this matcher accepts
    pub closed spec fn spec_val(&self) -> char {
        self.val
    }
}

impl Parser for One {
    type Output = core::ops::Range<usize>;

    open spec fn wf(&self) -> bool {
        true
    }

    open spec fn progressive(&self) -> bool {
        true
    }

    open spec fn restoring(&self) -> bool {
        false
    }

    open spec fn is_exact(&self) -> bool {
        true
    }

    open spec fn spec_parse(&self, toks: Seq<Char>, from: int) -> Outcome<core::ops::Range<usize>> {
        if 0 <= from < toks.len() {
            if toks[from].spec_c() == self.spec_val() {
                Outcome::Pass {
                    end: from + 1,
                    val: (core::ops::Range { start: from as usize, end: (from + 1) as usize }),
                }
            } else {
                Outcome::Fail { at: from + 1 }
            }
        } else {
            Outcome::Fail { at: from }
        }
    }

    proof fn lemma_spec_parse(&self, toks: Seq<Char>, from: int) {
    }

    fn parse(&self, input: Span) -> (r: (Option<core::ops::Range<usize>>, Span)) {
        let mut input = input;
        proof {
            input.lemma_bounds();
        }
        let from = input.save();
        let t = input.next();
        match t {
            None => (None, input),
            Some(c) => {
                input.do_ready();
                if c.c() == self.val {
                    let rg = input.make_range(from);
                    (Some(rg), input)
                } else {
                    (None, input)
                }
            },
        }
    }
}

/// Match an item
pub fn one(val: char) -> (r: One)
    ensures
        r.spec_val() == val,
{
    One::new(val)
}

} // verus!
