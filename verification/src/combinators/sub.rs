use vstd::prelude::*;
use crate::common::chars::Char;
use crate::common::char_span::str_to_chars;
use crate::common::span::Span;
use crate::common::time_travel::TimeTravel;
use crate::{Outcome, Parser};

verus! {

/// What matching a literal sequence does: an empty pattern passes on the
/// spot with nothing consumed; a pattern longer than the remaining input
/// fails at the end of input; a mismatch fails just past the offending
/// token; otherwise the whole pattern is consumed
pub open spec fn spec_sub(toks: Seq<Char>, from: int, pat: Seq<char>) -> Outcome<()>
    decreases pat.len(),
{
    if pat.len() == 0 {
        Outcome::Pass { end: from, val: () }
    } else if !(0 <= from < toks.len()) {
        Outcome::Fail { at: toks.len() as int }
    } else if toks[from].spec_c() != pat[0] {
        Outcome::Fail { at: from + 1 }
    } else {
        spec_sub(toks, from + 1, pat.drop_first())
    }
}

/// A pass of `spec_sub` consumes exactly the pattern, and a failure stays
/// inside the history
pub proof fn lemma_spec_sub(toks: Seq<Char>, from: int, pat: Seq<char>)
    requires
        0 <= from <= toks.len(),
    ensures
        (match spec_sub(toks, from, pat) {
            Outcome::Pass { end, .. } => end == from + pat.len() && end <= toks.len(),
            Outcome::Fail { at } => 0 <= at <= toks.len(),
        }),
    decreases pat.len(),
{
    if pat.len() == 0 {
    } else if !(0 <= from < toks.len()) {
    } else if toks[from].spec_c() != pat[0] {
    } else {
        lemma_spec_sub(toks, from + 1, pat.drop_first());
    }
}

/// Match subpart: a whole literal sequence, contiguously
#[derive(Debug, PartialEq, Eq, Clone)]
pub struct Sub {
    sub: Vec<char>,
}

impl Sub {
    pub fn new(sub: Vec<char>) -> (r: Self)
        ensures
            r.spec_sub_pat() == sub@,
    {
        Self { sub }
    }

    /// The literal sequence this matcher looks for
    pub closed spec fn spec_sub_pat(&self) -> Seq<char> {
        self.sub@
    }
}

impl Parser for Sub {
    type Output = core::ops::Range<usize>;

    open spec fn wf(&self) -> bool {
        true
    }

    open spec fn progressive(&self) -> bool {
        self.spec_sub_pat().len() >= 1
    }

    open spec fn restoring(&self) -> bool {
        false
    }

    open spec fn is_exact(&self) -> bool {
        true
    }

    open spec fn spec_parse(&self, toks: Seq<Char>, from: int) -> Outcome<core::ops::Range<usize>> {
        match spec_sub(toks, from, self.spec_sub_pat()) {
            Outcome::Pass { end, .. } => Outcome::Pass {
                end,
                val: (core::ops::Range { start: from as usize, end: end as usize }),
            },
            Outcome::Fail { at } => Outcome::Fail { at },
        }
    }

    proof fn lemma_spec_parse(&self, toks: Seq<Char>, from: int) {
        lemma_spec_sub(toks, from, self.spec_sub_pat());
    }

    #[verifier::loop_isolation(false)]
    fn parse(&self, input: Span) -> (r: (Option<core::ops::Range<usize>>, Span)) {
        let ghost toks = input.toks();
        let ghost pat = self.sub@;
        let ghost b0 = input.buffered();
        let ghost o0 = input.over();
        let mut input = input;
        proof {
            input.lemma_bounds();
            assert(pat.skip(0) =~= pat);
        }
        let from = input.save();
        let mut i: usize = 0;
        while i < self.sub.len()
            invariant
                input.inv(),
                input.settled(),
                input.toks() == toks,
                b0 <= input.buffered(),
                o0 ==> input.over(),
                pat == self.sub@,
                i <= pat.len(),
                from + i == input.cursor(),
                from <= input.buffered(),
                spec_sub(toks, from as int, pat) == spec_sub(toks, from + i, pat.skip(i as int)),
            decreases pat.len() - i,
        {
            proof {
                input.lemma_bounds();
            }
            let t = input.next();
            match t {
                None => {
                    proof {
                        assert(input.cursor() == toks.len());
                        assert(pat.skip(i as int).len() > 0);
                        assert(spec_sub(toks, from + i, pat.skip(i as int)) == Outcome::<
                            (),
                        >::Fail { at: toks.len() as int });
                    }
                    return (None, input);
                },
                Some(c) => {
                    input.do_ready();
                    if c.c() != self.sub[i] {
                        proof {
                            assert(pat.skip(i as int)[0] == pat[i as int]);
                            assert(spec_sub(toks, from + i, pat.skip(i as int)) == Outcome::<
                                (),
                            >::Fail { at: from + i + 1 });
                        }
                        return (None, input);
                    }
                    proof {
                        assert(pat.skip(i as int)[0] == pat[i as int]);
                        assert(pat.skip(i as int).drop_first() =~= pat.skip(i + 1));
                        assert(spec_sub(toks, from + i, pat.skip(i as int)) == spec_sub(
                            toks,
                            from + i + 1,
                            pat.skip(i + 1),
                        ));
                    }
                    i = i + 1;
                },
            }
        }
        proof {
            assert(pat.skip(pat.len() as int) =~= Seq::<char>::empty());
            assert(spec_sub(toks, from as int, pat) == Outcome::<()>::Pass {
                end: from + pat.len(),
                val: (),
            });
        }
        let rg = input.make_range(from);
        (Some(rg), input)
    }
}

/// Match subpart
pub fn sub(c: Vec<char>) -> (r: Sub)
    ensures
        r.spec_sub_pat() == c@,
{
    Sub::new(c)
}

/// Match substring
pub fn substr(c: &str) -> (r: Sub)
    ensures
        r.spec_sub_pat() == c@,
{
    Sub::new(str_to_chars(c))
}

/// Literal-sequence edges: matching the empty sequence passes on any
/// input with a zero-length range at the current position, and a sequence
/// longer than the remaining input always fails
pub proof fn lemma_literal_edges(toks: Seq<Char>, from: int, pat: Seq<char>)
    requires
        0 <= from <= toks.len(),
    ensures
        pat.len() == 0 ==> spec_sub(toks, from, pat) == (Outcome::Pass { end: from, val: () }),
        from + pat.len() > toks.len() ==> spec_sub(toks, from, pat) is Fail,
    decreases pat.len(),
{
    if pat.len() == 0 {
    } else if !(0 <= from < toks.len()) {
    } else if toks[from].spec_c() != pat[0] {
    } else {
        lemma_literal_edges(toks, from + 1, pat.drop_first());
    }
}

} // verus!
