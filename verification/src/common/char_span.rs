use vstd::prelude::*;
use crate::common::chars::CharChars;
use crate::common::chars::spec_tokens;
use crate::common::loc::Loc;
use crate::common::span::Span;
use crate::common::time_travel::TimeTravel;

verus! {

/// A Span over located character tokens
pub type CharSpan = Span;

/// Turn raw text into the vector of its characters
pub fn str_to_chars(s: &str) -> (r: Vec<char>)
    ensures
        r@ == s@,
{
    let n = s.unicode_len();
    let mut v: Vec<char> = Vec::new();
    let mut i: usize = 0;
    while i < n
        invariant
            i <= n,
            n == s@.len(),
            v@ == s@.take(i as int),
        decreases n - i,
    {
        let c = s.get_char(i);
        v.push(c);
        proof {
            assert(v@ =~= s@.take(i + 1 as int));
        }
        i = i + 1;
    }
    proof {
        assert(s@.take(n as int) =~= s@);
    }
    v
}

/// Into Span
pub trait SpanOf where Self: Sized {
    type SpanOfTarget;

    fn span(self) -> Self::SpanOfTarget;
}

impl SpanOf for CharChars {
    type SpanOfTarget = CharSpan;

    fn span(self) -> (r: CharSpan)
        ensures
            self.inv() ==> r.inv() && r.toks() == self.remaining() && r.cursor() == 0
                && r.settled() && r.buffered() == 0,
    {
        CharSpan::new(self)
    }
}

impl SpanOf for Vec<char> {
    type SpanOfTarget = CharSpan;

    fn span(self) -> (r: CharSpan)
        ensures
            r.inv(),
            r.toks() == spec_tokens(self@, Loc::zero()),
            r.cursor() == 0,
            r.settled(),
            r.buffered() == 0,
    {
        CharChars::new(self).span()
    }
}

impl<'a> SpanOf for &'a str {
    type SpanOfTarget = CharSpan;

    fn span(self) -> (r: CharSpan)
        ensures
            r.inv(),
            r.toks() == spec_tokens(self@, Loc::zero()),
            r.cursor() == 0,
            r.settled(),
            r.buffered() == 0,
    {
        str_to_chars(self).span()
    }
}

impl<'a> SpanOf for &'a String {
    type SpanOfTarget = CharSpan;

    fn span(self) -> (r: CharSpan)
        ensures
            r.inv(),
            r.toks() == spec_tokens(self@, Loc::zero()),
            r.cursor() == 0,
            r.settled(),
            r.buffered() == 0,
    {
        self.as_str().span()
    }
}

} // verus!
