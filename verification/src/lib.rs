//! A parser combinator library over a backtracking cursor.
//!
//! Small matcher values compose into larger parsers for hand-built
//! recursive-descent grammars, with full backtracking, source-location
//! tracking and configurable error recovery. A [`Span`] buffers a
//! single-pass token source into a randomly addressable history, so a
//! combinator may look arbitrarily far ahead and then hand the cursor back
//! without re-reading the source.

use vstd::prelude::*;

pub mod combinators;
pub mod common;
pub mod parser_fuck;
pub mod utils;

pub use common::loc::Loc;
pub use common::loc::LocRange;
pub use common::loc::loc_of;
pub use common::loc::loc_range_of;
pub use common::loc::ComLoc;
pub use common::loc::ComLocRange;
pub use common::loc::GetLoc;
pub use common::loc::GetLocRange;
pub use common::chars::Char;
pub use common::chars::CharChars;
pub use common::chars::chars_to_string;
pub use common::chars::spec_tokens;
pub use common::cell::ExtRefCell;
pub use common::cell::ExtRefCellExt;
pub use common::time_travel::RefClone;
pub use common::time_travel::TimeTravel;
pub use common::time_travel::SyncTo;
pub use common::time_travel::ComString;
pub use common::time_travel::GetString;
pub use common::time_travel::ComChar;
pub use common::time_travel::GetChar;
pub use common::timeline::Timeline;
pub use common::span::Span;
pub use common::span::text_of;
pub use common::char_span::CharSpan;
pub use common::char_span::SpanOf;
pub use common::char_span::str_to_chars;
pub use combinators::and::And;
pub use combinators::and_then::AndThen;
pub use combinators::apply::Apply;
pub use combinators::apply::Apply2;
pub use combinators::apply::Supply;
pub use combinators::dyns::Dyn;
pub use combinators::iter::Iter;
pub use combinators::iter::ParserIter;
pub use combinators::many::Many;
pub use combinators::map::Mapped;
pub use combinators::may::May;
pub use combinators::not::Not;
pub use combinators::one::One;
pub use combinators::one::one;
pub use combinators::or::Or;
pub use combinators::or_else::OrElse;
pub use combinators::or_trans::OrTrans;
pub use combinators::satisfy::Satisfy;
pub use combinators::satisfy::satisfy;
pub use combinators::sub::Sub;
pub use combinators::sub::substr;
pub use combinators::sub::spec_sub;
pub use combinators::sub::lemma_spec_sub;
pub use combinators::sub::lemma_literal_edges;
pub use combinators::many::spec_rep;
pub use combinators::many::lemma_spec_rep;
pub use combinators::many::lemma_repetition_boundary;
pub use combinators::many::lemma_repetition_overrun;
pub use combinators::or::lemma_alternation_restores;
pub use combinators::or_trans::lemma_recovery_range;
pub use combinators::or_trans::spec_scan;
pub use combinators::or_trans::lemma_spec_scan;
pub use combinators::or_trans::orp_total;
pub use combinators::or_trans::orp_det;
pub use combinators::or_trans::orp_can;
pub use combinators::or_trans::orp_value;
pub use combinators::dyns::dyn_det;
pub use combinators::dyns::lemma_dyn_replay;
pub use combinators::apply::apply_total;
pub use combinators::apply::apply_det;
pub use combinators::apply::apply_some;
pub use combinators::apply::apply_full;
pub use combinators::apply::apply_value;
pub use combinators::apply::supply_det;
pub use combinators::apply::supply_some;
pub use combinators::apply::supply_value;
pub use parser_fuck::ParserError;
pub use parser_fuck::JsonParserError;
pub use parser_fuck::JsonResults;
pub use utils::range_of_many1;
pub use utils::range_of_many1_many;
pub use utils::range_of_many1_many1;
pub use utils::range_of_many_many1;
pub use utils::range_of_many_many;
pub use utils::range_of_range_many;
pub use utils::range_of_range_many1;
pub use utils::range_of_many1_range;
pub use utils::range_of_many_range;
pub use utils::range_of_range_range;
pub use utils::range_of_optrange_range;
pub use utils::range_of_range_optrange;
pub use utils::range_of_optrange_optrange;

verus! {

/// What a matcher does on a given token history at a given position:
/// either it passes, ending at `end` with a value, or it fails, leaving
/// the cursor at `at` (restoring is the caller's job)
pub enum Outcome<V> {
    Pass { end: int, val: V },
    Fail { at: int },
}

/// Abstract Parser with chain call.
///
/// Every parser maintains the cursor protocol: it never changes the token
/// history, only extends how much of it is buffered, and it hands the
/// cursor back settled. A parser whose meaning is pinned down
/// (`is_exact`) behaves exactly as its `spec_parse` says, on success and
/// on failure alike; `progressive` promises that success consumes at
/// least one token, and `restoring` promises the position comes back to
/// the start on failure.
pub trait Parser where Self: Sized {
    type Output;

    /// The parser is well formed: its pieces are well formed and its
    /// callbacks can be called and behave like functions of their inputs
    spec fn wf(&self) -> bool;

    /// Every success consumes at least one token
    spec fn progressive(&self) -> bool;

    /// Every failure leaves the cursor where the parse began
    spec fn restoring(&self) -> bool;

    /// The parser's meaning is fully captured by `spec_parse`
    spec fn is_exact(&self) -> bool;

    /// The meaning of this matcher over a token history
    spec fn spec_parse(&self, toks: Seq<crate::common::chars::Char>, from: int) -> Outcome<
        Self::Output,
    >;

    /// `spec_parse` stays inside the history: a pass ends no earlier than
    /// it began and no later than the end of input, and a failure points
    /// into the history
    proof fn lemma_spec_parse(&self, toks: Seq<crate::common::chars::Char>, from: int)
        requires
            self.wf(),
            self.is_exact(),
            0 <= from <= toks.len(),
        ensures
            (match self.spec_parse(toks, from) {
                Outcome::Pass { end, val } => from <= end <= toks.len() && (self.progressive()
                    ==> from < end),
                Outcome::Fail { at } => 0 <= at <= toks.len() && (self.restoring() ==> at == from),
            }),
    ;

    /// Map a parser's output by applying a function to a contained value
    fn map<M>(self, f: M) -> (r: crate::combinators::map::Mapped<Self, M>) {
        crate::combinators::map::Mapped::new(self, f)
    }

    /// Only pass if both subparsers pass
    fn and<B>(self, b: B) -> (r: crate::combinators::and::And<Self, B>) {
        crate::combinators::and::And::new(self, b)
    }

    /// Pass when any subparser passes
    fn or<B>(self, b: B) -> (r: crate::combinators::or::Or<Self, B>) {
        crate::combinators::or::Or::new(self, b)
    }

    /// Pass if the subparser fails
    fn not(self) -> (r: crate::combinators::not::Not<Self>) {
        crate::combinators::not::Not::new(self)
    }

    /// `*, >= 0`
    fn many(self) -> (r: crate::combinators::many::Many<Self>) {
        crate::combinators::many::Many::new(self, 0, None)
    }

    /// `+, >= 1`
    fn many1(self) -> (r: crate::combinators::many::Many<Self>) {
        crate::combinators::many::Many::new(self, 1, None)
    }

    /// `{n,}, >= n`
    fn many_min(self, min: usize) -> (r: crate::combinators::many::Many<Self>) {
        crate::combinators::many::Many::new(self, min, None)
    }

    /// `{,m}, <= m`
    fn many_max(self, max: usize) -> (r: crate::combinators::many::Many<Self>) {
        crate::combinators::many::Many::new(self, 0, Some(max))
    }

    /// `{1,m}, >= 1 && <= m`
    fn many1_max(self, max: usize) -> (r: crate::combinators::many::Many<Self>)
        requires
            max >= 1,
    {
        crate::combinators::many::Many::new(self, 1, Some(max))
    }

    /// `{n,m}, >= n && <= m`
    fn many_min_max(self, min: usize, max: usize) -> (r: crate::combinators::many::Many<Self>)
        requires
            min <= max,
    {
        crate::combinators::many::Many::new(self, min, Some(max))
    }

    /// `{n}, == n`
    fn some(self, count: usize) -> (r: crate::combinators::many::Many<Self>) {
        crate::combinators::many::Many::new(self, count, Some(count))
    }

    /// `?, 0 or 1`
    fn may(self) -> (r: crate::combinators::may::May<Self>) {
        crate::combinators::may::May::new(self)
    }

    /// Continuously parse into a puller of successive matches
    fn iter(self) -> (r: crate::combinators::iter::Iter<Self>) {
        crate::combinators::iter::Iter::new(self)
    }

    /// Fail if the subparser fails, otherwise call f with the output and
    /// parse the parser it builds
    fn and_then<M>(self, f: M) -> (r: crate::combinators::and_then::AndThen<Self, M>) {
        crate::combinators::and_then::AndThen::new(self, f)
    }

    /// Pass if the subparser passes, otherwise call f and parse the result
    fn or_else<M>(self, f: M) -> (r: crate::combinators::or_else::OrElse<Self, M>) {
        crate::combinators::or_else::OrElse::new(self, f)
    }

    /// Pass if the subparser passes, otherwise call f with the error point
    fn or_trans<M>(self, f: M) -> (r: crate::combinators::or_trans::OrTrans<Self, M>) {
        crate::combinators::or_trans::OrTrans::new(self, false, true, f)
    }

    /// As `or_trans`, but fall through with a plain failure when the error
    /// point is exactly the end of input
    fn or_trans_noend<M>(self, f: M) -> (r: crate::combinators::or_trans::OrTrans<Self, M>) {
        crate::combinators::or_trans::OrTrans::new(self, true, true, f)
    }

    /// do parse
    fn parse(&self, input: Span) -> (r: (Option<Self::Output>, Span))
        requires
            self.wf(),
            input.inv(),
            input.settled(),
        ensures
            r.1.inv(),
            r.1.settled(),
            r.1.toks() == input.toks(),
            input.buffered() <= r.1.buffered(),
            input.over() ==> r.1.over(),
            r.0 is Some ==> input.cursor() <= r.1.cursor(),
            r.0 is Some && self.progressive() ==> input.cursor() < r.1.cursor(),
            r.0 is None && self.restoring() ==> r.1.cursor() == input.cursor(),
            self.is_exact() ==> (match self.spec_parse(input.toks(), input.cursor()) {
                Outcome::Pass { end, val } => r.0 == Some(val) && r.1.cursor() == end,
                Outcome::Fail { at } => r.0 is None && r.1.cursor() == at,
            }),
    ;
}

/// Two runs of an exact matcher from the same position over the same
/// history give the same outcome: saving, running a rule, restoring and
/// running it again at the same index yields identical output and an
/// identical final index, because both runs are pinned to the one value
/// of `spec_parse`
pub proof fn lemma_replay_idempotent<P: Parser>(
    p: &P,
    toks: Seq<crate::common::chars::Char>,
    from: int,
)
    requires
        p.wf(),
        p.is_exact(),
        0 <= from <= toks.len(),
    ensures
        (match (p.spec_parse(toks, from), p.spec_parse(toks, from)) {
            (Outcome::Pass { end: e1, val: v1 }, Outcome::Pass { end: e2, val: v2 }) => e1 == e2
                && v1 == v2,
            (Outcome::Fail { at: a1 }, Outcome::Fail { at: a2 }) => a1 == a2,
            _ => false,
        }),
{
    p.lemma_spec_parse(toks, from);
}

} // verus!
