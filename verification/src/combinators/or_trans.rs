use vstd::prelude::*;
use crate::combinators::apply::Apply2;
use crate::common::chars::Char;
use crate::common::span::Span;
use crate::common::time_travel::{RefClone, TimeTravel};
use crate::{Outcome, Parser};

verus! {

/// The synthesis callback answers every cursor and range
pub open spec fn orp_total<M: Apply2<Span, core::ops::Range<usize>>>(m: M) -> bool {
    forall|s: Span, rg: core::ops::Range<usize>| #[trigger] m.pre2(s, rg)
}

/// The synthesis callback is a function of the range alone: any two
/// answers for the same range agree, whatever cursor they saw
pub open spec fn orp_det<M: Apply2<Span, core::ops::Range<usize>>>(m: M) -> bool {
    forall|s1: Span, s2: Span, rg: core::ops::Range<usize>, y1: M::Out, y2: M::Out|
        m.post2(s1, rg, y1) && m.post2(s2, rg, y2) ==> y1 == y2
}

/// Some cursor lets the callback answer `y` for this range
pub open spec fn orp_can<M: Apply2<Span, core::ops::Range<usize>>>(
    m: M,
    rg: core::ops::Range<usize>,
    y: M::Out,
) -> bool {
    exists|s: Span| #[trigger] m.post2(s, rg, y)
}

/// The one answer a range-determined synthesis callback gives
pub open spec fn orp_value<M: Apply2<Span, core::ops::Range<usize>>>(
    m: M,
    rg: core::ops::Range<usize>,
) -> M::Out {
    choose|y: M::Out| orp_can(m, rg, y)
}

/// Resynchronization scan: retry the part one token further ahead until it
/// matches or the input is exhausted. Finding a match at `k` recovers with
/// a diagnostic over the skipped `[from, k)` and leaves the cursor at `k`;
/// exhaustion gives up, with a diagnostic over `[from, end)` (backed up one
/// step when that span would be empty on a non-empty input) unless
/// end-of-input suppression asks for a plain failure.
pub open spec fn spec_scan<B: Parser, M: Apply2<Span, core::ops::Range<usize>, Out = <B as Parser>::Output>>(
    b: B,
    m: M,
    no_eof: bool,
    from: int,
    toks: Seq<Char>,
    k: int,
) -> Outcome<B::Output>
    decreases toks.len() - k,
{
    if k >= toks.len() {
        if no_eof {
            Outcome::Fail { at: from }
        } else {
            let start = if from == toks.len() && toks.len() > 0 {
                from - 1
            } else {
                from
            };
            Outcome::Pass {
                end: toks.len() as int,
                val: orp_value(
                    m,
                    core::ops::Range { start: start as usize, end: toks.len() as usize },
                ),
            }
        }
    } else {
        match b.spec_parse(toks, k) {
            Outcome::Pass { .. } => Outcome::Pass {
                end: k,
                val: orp_value(m, core::ops::Range { start: from as usize, end: k as usize }),
            },
            Outcome::Fail { .. } => spec_scan(b, m, no_eof, from, toks, k + 1),
        }
    }
}

/// Pass if the subparser passes; otherwise synthesize a value from the
/// failed range: match failure becomes a located diagnostic the grammar
/// carries in its own result type. `no_eof` suppresses synthesis exactly
/// at end of input; `no_retry` reports at once instead of rescanning.
pub struct OrTrans<B, M> {
    base: B,
    no_eof: bool,
    no_retry: bool,
    f: M,
}

impl<B, M> OrTrans<B, M> {
    pub fn new(base: B, no_eof: bool, no_retry: bool, f: M) -> (r: Self)
        ensures
            r.spec_base() == base,
            r.spec_no_eof() == no_eof,
            r.spec_no_retry() == no_retry,
            r.spec_f() == f,
    {
        Self { base, no_eof, no_retry, f }
    }

    pub closed spec fn spec_base(&self) -> B {
        self.base
    }

    pub closed spec fn spec_no_eof(&self) -> bool {
        self.no_eof
    }

    pub closed spec fn spec_no_retry(&self) -> bool {
        self.no_retry
    }

    pub closed spec fn spec_f(&self) -> M {
        self.f
    }

    /// The range handed to the synthesis callback when the part fails at
    /// `at` without rescanning: everything from the snapshot up to where
    /// the failed attempt stopped, backed up one step only when that span
    /// is empty at the true end of a non-empty input, so diagnostics at
    /// genuine end of input still span a location
    pub open spec fn spec_failed_range(
        &self,
        toks: Seq<Char>,
        from: int,
        at: int,
    ) -> core::ops::Range<usize> {
        if from == at && at == toks.len() && toks.len() > 0 {
            core::ops::Range { start: (from - 1) as usize, end: at as usize }
        } else {
            core::ops::Range { start: from as usize, end: at as usize }
        }
    }
}

impl<B: Parser, M: Apply2<Span, core::ops::Range<usize>, Out = <B as Parser>::Output>> Parser for OrTrans<
    B,
    M,
> {
    type Output = B::Output;

    open spec fn wf(&self) -> bool {
        self.spec_base().wf() && orp_total(self.spec_f())
    }

    open spec fn progressive(&self) -> bool {
        false
    }

    open spec fn restoring(&self) -> bool {
        true
    }

    open spec fn is_exact(&self) -> bool {
        self.spec_base().is_exact() && orp_det(self.spec_f())
    }

    open spec fn spec_parse(&self, toks: Seq<Char>, from: int) -> Outcome<B::Output> {
        match self.spec_base().spec_parse(toks, from) {
            Outcome::Pass { end, val } => Outcome::Pass { end, val },
            Outcome::Fail { at } => {
                if self.spec_no_retry() {
                    if self.spec_no_eof() && at == toks.len() {
                        Outcome::Fail { at: from }
                    } else {
                        Outcome::Pass {
                            end: from,
                            val: orp_value(self.spec_f(), self.spec_failed_range(toks, from, at)),
                        }
                    }
                } else {
                    spec_scan(
                        self.spec_base(),
                        self.spec_f(),
                        self.spec_no_eof(),
                        from,
                        toks,
                        from + 1,
                    )
                }
            },
        }
    }

    proof fn lemma_spec_parse(&self, toks: Seq<Char>, from: int) {
        self.spec_base().lemma_spec_parse(toks, from);
        if let Outcome::Fail { at } = self.spec_base().spec_parse(toks, from) {
            if !self.spec_no_retry() {
                lemma_spec_scan(
                    self.spec_base(),
                    self.spec_f(),
                    self.spec_no_eof(),
                    from,
                    toks,
                    from + 1,
                );
            }
        }
    }

    #[verifier::loop_isolation(false)]
    fn parse(&self, input: Span) -> (r: (Option<B::Output>, Span)) {
        let ghost toks = input.toks();
        let ghost b0 = input.buffered();
        let ghost o0 = input.over();
        let mut input = input;
        proof {
            input.lemma_bounds();
        }
        let from = input.save();
        let (rb, input2) = self.base.parse(input);
        let mut input = input2;
        proof {
            input.lemma_bounds();
        }
        if let Some(v) = rb {
            return (Some(v), input);
        }
        if self.no_retry {
            let now = input.save();
            let probe = input.get(now);
            if probe.is_none() {
                if self.no_eof {
                    input.back(from);
                    return (None, input);
                }
                let start = if from == now && now != 0 {
                    from - 1
                } else {
                    from
                };
                input.back(from);
                let snap = input.ref_clone();
                let y = self.f.apply2(snap, start..now);
                proof {
                    if self.is_exact() {
                        lemma_orp_choice(self.spec_f(), snap, start..now, y);
                    }
                }
                return (Some(y), input);
            } else {
                input.back(from);
                let snap = input.ref_clone();
                let y = self.f.apply2(snap, from..now);
                proof {
                    if self.is_exact() {
                        lemma_orp_choice(self.spec_f(), snap, from..now, y);
                    }
                }
                return (Some(y), input);
            }
        }
        if from == usize::MAX {
            if self.no_eof {
                input.back(from);
                return (None, input);
            }
            input.back(usize::MAX);
            let now = input.save();
            let start = if from == now && now != 0 {
                from - 1
            } else {
                from
            };
            let snap = input.ref_clone();
            let y = self.f.apply2(snap, start..now);
            proof {
                if self.is_exact() {
                    lemma_orp_choice(self.spec_f(), snap, start..now, y);
                }
            }
            return (Some(y), input);
        }
        let mut k = from + 1;
        loop
            invariant
                input.inv(),
                input.settled(),
                input.toks() == toks,
                b0 <= input.buffered(),
                o0 ==> input.over(),
                from < k,
                k <= toks.len() + 1,
                self.is_exact() ==> spec_scan(
                    self.spec_base(),
                    self.spec_f(),
                    self.spec_no_eof(),
                    from as int,
                    toks,
                    from + 1,
                ) == spec_scan(
                    self.spec_base(),
                    self.spec_f(),
                    self.spec_no_eof(),
                    from as int,
                    toks,
                    k as int,
                ),
            decreases toks.len() + 1 - k,
        {
            proof {
                input.lemma_bounds();
            }
            let probe = input.get(k);
            if probe.is_none() {
                if self.no_eof {
                    input.back(from);
                    return (None, input);
                }
                input.back(k);
                let now = input.save();
                let start = if from == now && now != 0 {
                    from - 1
                } else {
                    from
                };
                let snap = input.ref_clone();
                let y = self.f.apply2(snap, start..now);
                proof {
                    if self.is_exact() {
                        lemma_orp_choice(self.spec_f(), snap, start..now, y);
                    }
                }
                return (Some(y), input);
            }
            input.back(k);
            let (rb2, input3) = self.base.parse(input);
            input = input3;
            proof {
                input.lemma_bounds();
            }
            if rb2.is_some() {
                input.back(k);
                let snap = input.ref_clone();
                let y = self.f.apply2(snap, from..k);
                proof {
                    if self.is_exact() {
                        lemma_orp_choice(self.spec_f(), snap, from..k, y);
                    }
                }
                return (Some(y), input);
            }
            k = k + 1;
        }
    }
}

/// What the scan guarantees: a recovery never ends before the snapshot nor
/// past the end of input, and giving up with suppression on reports plain
/// failure at the snapshot
pub proof fn lemma_spec_scan<B: Parser, M: Apply2<Span, core::ops::Range<usize>, Out = <B as Parser>::Output>>(
    b: B,
    m: M,
    no_eof: bool,
    from: int,
    toks: Seq<Char>,
    k: int,
)
    requires
        0 <= from <= toks.len(),
        from < k,
    ensures
        (match spec_scan(b, m, no_eof, from, toks, k) {
            Outcome::Pass { end, .. } => from <= end <= toks.len(),
            Outcome::Fail { at } => at == from,
        }),
    decreases toks.len() - k,
{
    if k >= toks.len() {
    } else {
        match b.spec_parse(toks, k) {
            Outcome::Pass { .. } => {},
            Outcome::Fail { .. } => {
                lemma_spec_scan(b, m, no_eof, from, toks, k + 1);
            },
        }
    }
}

/// A witnessed answer of a range-determined callback is the chosen one
proof fn lemma_orp_choice<M: Apply2<Span, core::ops::Range<usize>>>(
    m: M,
    s: Span,
    rg: core::ops::Range<usize>,
    y: M::Out,
)
    requires
        orp_det(m),
        m.post2(s, rg, y),
    ensures
        y == orp_value(m, rg),
{
    assert(orp_can(m, rg, y));
    let y2 = orp_value(m, rg);
    assert(orp_can(m, rg, y2));
    let s2 = choose|s2: Span| #[trigger] m.post2(s2, rg, y2);
    assert(m.post2(s2, rg, y2));
}

/// Error range synthesis: with rescanning off, a failure of the part at
/// `at` recovers as a success whose synthesized value is the callback's
/// answer for exactly the failed range `[from, at)`, backed up one step
/// only when that span is empty at the true end of a non-empty input, and
/// the cursor is restored to the snapshot. With end-of-input suppression
/// on, a failure exactly at the end falls through instead.
pub proof fn lemma_recovery_range<B: Parser, M: Apply2<Span, core::ops::Range<usize>, Out = <B as Parser>::Output>>(
    o: &OrTrans<B, M>,
    toks: Seq<Char>,
    from: int,
    at: int,
)
    requires
        o.spec_no_retry(),
        o.spec_base().spec_parse(toks, from) == (Outcome::<B::Output>::Fail { at }),
    ensures
        !(o.spec_no_eof() && at == toks.len()) ==> o.spec_parse(toks, from) == (Outcome::Pass {
            end: from,
            val: orp_value(o.spec_f(), o.spec_failed_range(toks, from, at)),
        }),
        o.spec_no_eof() && at == toks.len() ==> o.spec_parse(toks, from) == (Outcome::<
            B::Output,
        >::Fail { at: from }),
        !(from == at && at == toks.len() && toks.len() > 0) ==> o.spec_failed_range(toks, from, at)
            == (core::ops::Range { start: from as usize, end: at as usize }),
{
}

} // verus!
