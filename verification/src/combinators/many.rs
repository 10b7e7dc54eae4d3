use vstd::prelude::*;
use crate::common::chars::Char;
use crate::common::span::Span;
use crate::common::time_travel::TimeTravel;
use crate::{Outcome, Parser};

verus! {

/// What bounded repetition does: try the part at the current position;
/// each success is accumulated, and one success past the upper bound makes
/// the whole repetition fail outright; the first failure of the part stops
/// the loop at the last successful position, and the repetition passes iff
/// the count reached the lower bound
pub open spec fn spec_rep<A: Parser>(
    a: A,
    min: int,
    max: Option<usize>,
    toks: Seq<Char>,
    from: int,
    acc: Seq<A::Output>,
) -> Outcome<Seq<A::Output>>
    decreases toks.len() - from,
{
    match a.spec_parse(toks, from) {
        Outcome::Pass { end: j, val: v } => {
            if from < j <= toks.len() {
                if (match max {
                    Some(m) => acc.len() + 1 > m,
                    None => false,
                }) {
                    Outcome::Fail { at: j }
                } else {
                    spec_rep(a, min, max, toks, j, acc.push(v))
                }
            } else {
                Outcome::Fail { at: from }
            }
        },
        Outcome::Fail { .. } => {
            if acc.len() >= min {
                Outcome::Pass { end: from, val: acc }
            } else {
                Outcome::Fail { at: from }
            }
        },
    }
}

/// A repetition stays inside the history and keeps what it accumulated:
/// a pass ends where it began or later, extends the accumulator, and holds
/// at least `min` and at most `max` parts
pub proof fn lemma_spec_rep<A: Parser>(
    a: A,
    min: int,
    max: Option<usize>,
    toks: Seq<Char>,
    from: int,
    acc: Seq<A::Output>,
)
    requires
        a.wf(),
        a.is_exact(),
        a.progressive(),
        0 <= from <= toks.len(),
    ensures
        (match spec_rep(a, min, max, toks, from, acc) {
            Outcome::Pass { end, val } => from <= end <= toks.len() && val.len() >= min
                && acc.len() <= val.len() && (match max {
                Some(m) => val.len() <= m || acc.len() > m,
                None => true,
            }),
            Outcome::Fail { at } => 0 <= at <= toks.len(),
        }),
    decreases toks.len() - from,
{
    a.lemma_spec_parse(toks, from);
    match a.spec_parse(toks, from) {
        Outcome::Pass { end: j, val: v } => {
            if from < j <= toks.len() {
                if (match max {
                    Some(m) => acc.len() + 1 > m,
                    None => false,
                }) {
                } else {
                    lemma_spec_rep(a, min, max, toks, j, acc.push(v));
                }
            }
        },
        Outcome::Fail { .. } => {},
    }
}

/// Match the part between `min` and `max` times (`max` absent for
/// unbounded)
#[derive(Debug, PartialEq, Eq, Clone)]
pub struct Many<A> {
    a: A,
    min: usize,
    max: Option<usize>,
}

impl<A> Many<A> {
    pub fn new(a: A, min: usize, max: Option<usize>) -> (r: Self)
        requires
            max matches Some(m) ==> min <= m,
        ensures
            r.spec_a() == a,
            r.spec_min() == min,
            r.spec_max() == max,
    {
        Self { a, min, max }
    }

    pub closed spec fn spec_a(&self) -> A {
        self.a
    }

    pub closed spec fn spec_min(&self) -> usize {
        self.min
    }

    pub closed spec fn spec_max(&self) -> Option<usize> {
        self.max
    }
}

impl<A: Parser> Parser for Many<A> {
    type Output = Vec<A::Output>;

    open spec fn wf(&self) -> bool {
        &&& self.spec_a().wf()
        &&& self.spec_a().progressive()
        &&& (self.spec_max() matches Some(m) ==> self.spec_min() <= m)
    }

    open spec fn progressive(&self) -> bool {
        self.spec_min() >= 1
    }

    open spec fn restoring(&self) -> bool {
        false
    }

    open spec fn is_exact(&self) -> bool {
        false
    }

    open spec fn spec_parse(&self, toks: Seq<Char>, from: int) -> Outcome<Vec<A::Output>> {
        arbitrary()
    }

    proof fn lemma_spec_parse(&self, toks: Seq<Char>, from: int) {
    }

    #[verifier::loop_isolation(false)]
    fn parse(&self, input: Span) -> (r: (Option<Vec<A::Output>>, Span))
        ensures
            r.0 matches Some(v) ==> self.spec_min() <= v@.len() && (self.spec_max() matches Some(
                m,
            ) ==> v@.len() <= m),
            self.spec_a().is_exact() ==> (match spec_rep(
                self.spec_a(),
                self.spec_min() as int,
                self.spec_max(),
                input.toks(),
                input.cursor(),
                Seq::empty(),
            ) {
                Outcome::Pass { end, val } => (r.0 matches Some(v) && v@ == val) && r.1.cursor()
                    == end,
                Outcome::Fail { at } => r.0 is None && r.1.cursor() == at,
            }),
    {
        let ghost toks = input.toks();
        let ghost from0 = input.cursor();
        let ghost b0 = input.buffered();
        let ghost o0 = input.over();
        let mut input = input;
        proof {
            input.lemma_bounds();
        }
        let mut vec: Vec<A::Output> = Vec::new();
        loop
            invariant
                input.inv(),
                input.settled(),
                input.toks() == toks,
                b0 <= input.buffered(),
                o0 ==> input.over(),
                from0 <= input.cursor() <= toks.len(),
                vec@.len() >= 1 ==> from0 < input.cursor(),
                (self.spec_max() matches Some(m) ==> vec@.len() <= m),
                self.spec_a().is_exact() ==> spec_rep(
                    self.spec_a(),
                    self.spec_min() as int,
                    self.spec_max(),
                    toks,
                    from0,
                    Seq::empty(),
                ) == spec_rep(
                    self.spec_a(),
                    self.spec_min() as int,
                    self.spec_max(),
                    toks,
                    input.cursor(),
                    vec@,
                ),
            decreases toks.len() - input.cursor(),
        {
            proof {
                input.lemma_bounds();
            }
            let from = input.save();
            let ghost pre = input.cursor();
            let (ra, input2) = self.a.parse(input);
            input = input2;
            proof {
                input.lemma_bounds();
            }
            match ra {
                Some(v) => {
                    vec.push(v);
                    if let Some(m) = self.max {
                        if vec.len() > m {
                            return (None, input);
                        }
                    }
                    input.re_ready();
                },
                None => {
                    input.back(from);
                    proof {
                        assert(input.cursor() == pre);
                        assert(vec@.len() >= 1 ==> from0 < pre);
                        if self.spec_a().is_exact() {
                            assert(self.spec_a().spec_parse(toks, pre) is Fail);
                            assert(spec_rep(
                                self.spec_a(),
                                self.spec_min() as int,
                                self.spec_max(),
                                toks,
                                pre,
                                vec@,
                            ) == (if vec@.len() >= self.spec_min() {
                                Outcome::Pass { end: pre, val: vec@ }
                            } else {
                                Outcome::<Seq<A::Output>>::Fail { at: pre }
                            }));
                        }
                    }
                    if vec.len() >= self.min {
                        return (Some(vec), input);
                    } else {
                        return (None, input);
                    }
                },
            }
        }
    }
}

/// Repetition boundary, lower side: a part that matches exactly twice
/// makes `repetition(p, 2, 3)` pass with exactly those two results,
/// ending where the second match ended
pub proof fn lemma_repetition_boundary<A: Parser>(
    a: A,
    toks: Seq<Char>,
    from: int,
    j1: int,
    j2: int,
    v1: A::Output,
    v2: A::Output,
)
    requires
        a.wf(),
        a.is_exact(),
        a.progressive(),
        0 <= from <= toks.len(),
        a.spec_parse(toks, from) == (Outcome::Pass { end: j1, val: v1 }),
        a.spec_parse(toks, j1) == (Outcome::Pass { end: j2, val: v2 }),
        a.spec_parse(toks, j2) is Fail,
    ensures
        spec_rep(a, 2, Some(3usize), toks, from, Seq::empty()) == (Outcome::Pass {
            end: j2,
            val: seq![v1, v2],
        }),
{
    a.lemma_spec_parse(toks, from);
    a.lemma_spec_parse(toks, j1);
    let e = Seq::<A::Output>::empty();
    assert(spec_rep(a, 2, Some(3usize), toks, from, e) == spec_rep(
        a,
        2,
        Some(3usize),
        toks,
        j1,
        e.push(v1),
    ));
    assert(spec_rep(a, 2, Some(3usize), toks, j1, e.push(v1)) == spec_rep(
        a,
        2,
        Some(3usize),
        toks,
        j2,
        e.push(v1).push(v2),
    ));
    assert(spec_rep(a, 2, Some(3usize), toks, j2, e.push(v1).push(v2)) == (Outcome::Pass {
        end: j2,
        val: e.push(v1).push(v2),
    }));
    assert(e.push(v1).push(v2) =~= seq![v1, v2]);
}

/// Repetition boundary, upper side: a part that matches four times in a
/// row makes `repetition(p, 2, 3)` fail outright rather than capping at
/// three results
pub proof fn lemma_repetition_overrun<A: Parser>(
    a: A,
    toks: Seq<Char>,
    from: int,
    j1: int,
    j2: int,
    j3: int,
    j4: int,
    v1: A::Output,
    v2: A::Output,
    v3: A::Output,
    v4: A::Output,
)
    requires
        a.wf(),
        a.is_exact(),
        a.progressive(),
        0 <= from <= toks.len(),
        a.spec_parse(toks, from) == (Outcome::Pass { end: j1, val: v1 }),
        a.spec_parse(toks, j1) == (Outcome::Pass { end: j2, val: v2 }),
        a.spec_parse(toks, j2) == (Outcome::Pass { end: j3, val: v3 }),
        a.spec_parse(toks, j3) == (Outcome::Pass { end: j4, val: v4 }),
    ensures
        spec_rep(a, 2, Some(3usize), toks, from, Seq::empty()) == (Outcome::<
            Seq<A::Output>,
        >::Fail { at: j4 }),
{
    a.lemma_spec_parse(toks, from);
    a.lemma_spec_parse(toks, j1);
    a.lemma_spec_parse(toks, j2);
    a.lemma_spec_parse(toks, j3);
    let e = Seq::<A::Output>::empty();
    assert(spec_rep(a, 2, Some(3usize), toks, from, e) == spec_rep(
        a,
        2,
        Some(3usize),
        toks,
        j1,
        e.push(v1),
    ));
    assert(spec_rep(a, 2, Some(3usize), toks, j1, e.push(v1)) == spec_rep(
        a,
        2,
        Some(3usize),
        toks,
        j2,
        e.push(v1).push(v2),
    ));
    assert(spec_rep(a, 2, Some(3usize), toks, j2, e.push(v1).push(v2)) == spec_rep(
        a,
        2,
        Some(3usize),
        toks,
        j3,
        e.push(v1).push(v2).push(v3),
    ));
    assert(spec_rep(a, 2, Some(3usize), toks, j3, e.push(v1).push(v2).push(v3)) == (Outcome::<
        Seq<A::Output>,
    >::Fail { at: j4 }));
}

} // verus!
