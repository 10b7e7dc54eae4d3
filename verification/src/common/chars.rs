use vstd::prelude::*;
use crate::common::loc::Loc;
use crate::common::time_travel::{GetChar, GetString};
use crate::common::loc::GetLoc;

verus! {

/// Characters and newlines with location
#[derive(Debug, Clone, PartialEq, Eq, Copy, Hash, Structural)]
pub enum Char {
    /// char and Loc
    Char(char, Loc),
    /// wrap `'\n'` | `'\r'` | `"\r\n"` and Loc
    Wrap(Loc),
}

impl Char {
    /// The plain character this token stands for: a line break reads as `'\n'`
    pub open spec fn spec_c(self) -> char {
        match self {
            Char::Char(c, _) => c,
            Char::Wrap(_) => '\n',
        }
    }

    /// The location this token was read at
    pub open spec fn spec_loc(self) -> Loc {
        match self {
            Char::Char(_, l) => l,
            Char::Wrap(l) => l,
        }
    }

    /// map char
    /// None if it's not `Char`
    pub fn char<R, F: Fn(char, Loc) -> R>(&self, f: F) -> (r: Option<R>)
        requires
            forall|c: char, l: Loc| #[trigger] f.requires((c, l)),
        ensures
            r is Some <==> self is Char,
            (*self) matches Char::Char(c, l) ==> r matches Some(y) && f.ensures((c, l), y),
    {
        match self {
            Char::Char(c, l) => Some(f(*c, *l)),
            _ => None,
        }
    }

    /// map wrap
    /// None if it's not `Wrap`
    pub fn wrap<R, F: Fn(Loc) -> R>(&self, f: F) -> (r: Option<R>)
        requires
            forall|l: Loc| #[trigger] f.requires((l,)),
        ensures
            r is Some <==> self is Wrap,
            (*self) matches Char::Wrap(l) ==> r matches Some(y) && f.ensures((l,), y),
    {
        match self {
            Char::Wrap(l) => Some(f(*l)),
            _ => None,
        }
    }

    /// is `Char`
    pub fn is_char(&self) -> (r: bool)
        ensures
            r == (self is Char),
    {
        matches!(self, Char::Char(_, _))
    }

    /// is `Wrap`
    pub fn is_wrap(&self) -> (r: bool)
        ensures
            r == (self is Wrap),
    {
        matches!(self, Char::Wrap(_))
    }

    /// just equivalent to eq, but ignore Loc
    pub fn char_eq(&self, other: &Self) -> (r: bool)
        ensures
            r == (match *self {
                Char::Char(c, _) => other matches Char::Char(oc, _) && c == oc,
                Char::Wrap(_) => other is Wrap,
            }),
    {
        match self {
            Char::Char(c, _) => {
                if let Char::Char(oc, _) = other {
                    c == oc
                } else {
                    false
                }
            },
            Char::Wrap(_) => matches!(other, Char::Wrap(_)),
        }
    }

    /// just equivalent to ne, but ignore Loc
    pub fn char_ne(&self, other: &Self) -> (r: bool)
        ensures
            r == !(match *self {
                Char::Char(c, _) => other matches Char::Char(oc, _) && c == oc,
                Char::Wrap(_) => other is Wrap,
            }),
    {
        !self.char_eq(other)
    }

    /// Get the char
    /// when it is Wrap return `'\n'`
    pub fn c(&self) -> (r: char)
        ensures
            r == self.spec_c(),
    {
        match self {
            Char::Char(c, _) => *c,
            Char::Wrap(_) => '\n',
        }
    }
}

impl GetLoc for Char {
    fn loc(&self) -> (r: Loc)
        ensures
            r == self.spec_loc(),
    {
        match self {
            Char::Char(_, l) => *l,
            Char::Wrap(l) => *l,
        }
    }
}

impl PartialEq<char> for Char {
    /// Checks if a char is equal to it
    /// when it is Wrap check eq to `'\n'`
    fn eq(&self, other: &char) -> (r: bool)
        ensures
            r == (self.spec_c() == *other),
    {
        self.c() == *other
    }
}

impl vstd::std_specs::cmp::PartialEqSpecImpl<char> for Char {
    open spec fn obeys_eq_spec() -> bool {
        true
    }

    open spec fn eq_spec(&self, other: &char) -> bool {
        self.spec_c() == *other
    }
}

/// Relies on String::push: it appends the given character to the end of
/// the string.
#[verifier::external_body]
fn push_char(s: &mut String, c: char)
    ensures
        final(s)@ == old(s)@.push(c),
{
    s.push(c)
}

/// Build the string spelling exactly the characters of the vector
pub fn chars_to_string(v: &Vec<char>) -> (r: String)
    ensures
        r@ == v@,
{
    let mut s = String::new();
    let mut i: usize = 0;
    while i < v.len()
        invariant
            i <= v.len(),
            s@ == v@.take(i as int),
        decreases v.len() - i,
    {
        push_char(&mut s, v[i]);
        proof {
            assert(s@ =~= v@.take(i + 1 as int));
        }
        i = i + 1;
    }
    proof {
        assert(v@.take(v@.len() as int) =~= v@);
    }
    s
}

impl GetString for Char {
    fn get_string(&self) -> (r: String)
        ensures
            r@ == seq![self.spec_c()],
    {
        let v: Vec<char> = vec![self.c()];
        chars_to_string(&v)
    }
}

impl GetChar for Char {
    fn get_char(&self) -> (r: char)
        ensures
            r == self.spec_c(),
    {
        self.c()
    }
}

/// The location one column further on
pub open spec fn loc_next_col(loc: Loc) -> Loc {
    Loc { offset: (loc.offset + 1) as usize, line: loc.line, char: (loc.char + 1) as usize }
}

/// The location at the start of the next line, after consuming `k` raw
/// characters of line break
pub open spec fn loc_next_line(loc: Loc, k: int) -> Loc {
    Loc { offset: (loc.offset + k) as usize, line: (loc.line + 1) as usize, char: 0 }
}

/// A character round-trips through its code point
pub proof fn lemma_char_id(c: char)
    ensures
        ((c as u32) as char) == c,
{
}

/// The token sequence that reading the raw characters `s` from location
/// `loc` produces: LF, CR and CRLF each yield exactly one line-break token,
/// located at their first character; anything else yields a literal token.
pub open spec fn spec_tokens(s: Seq<char>, loc: Loc) -> Seq<Char>
    decreases s.len(),
{
    if s.len() == 0 {
        Seq::empty()
    } else if s[0] == '\r' {
        if s.len() >= 2 && s[1] == '\n' {
            seq![Char::Wrap(loc)] + spec_tokens(s.skip(2), loc_next_line(loc, 2))
        } else {
            seq![Char::Wrap(loc)] + spec_tokens(s.skip(1), loc_next_line(loc, 1))
        }
    } else if s[0] == '\n' {
        seq![Char::Wrap(loc)] + spec_tokens(s.skip(1), loc_next_line(loc, 1))
    } else {
        seq![Char::Char(((s[0] as u32) as char), loc)] + spec_tokens(s.skip(1), loc_next_col(loc))
    }
}

/// A non-empty raw text yields at least one token, and never more tokens
/// than raw characters
pub proof fn lemma_spec_tokens_len(s: Seq<char>, loc: Loc)
    ensures
        spec_tokens(s, loc).len() <= s.len(),
        s.len() > 0 ==> spec_tokens(s, loc).len() >= 1,
    decreases s.len(),
{
    if s.len() == 0 {
    } else if s[0] == '\r' {
        if s.len() >= 2 && s[1] == '\n' {
            lemma_spec_tokens_len(s.skip(2), loc_next_line(loc, 2));
        } else {
            lemma_spec_tokens_len(s.skip(1), loc_next_line(loc, 1));
        }
    } else if s[0] == '\n' {
        lemma_spec_tokens_len(s.skip(1), loc_next_line(loc, 1));
    } else {
        lemma_spec_tokens_len(s.skip(1), loc_next_col(loc));
    }
}

/// An iterator that produces [`Char`] tokens from raw characters, pulling
/// one token at a time and normalizing line endings
#[derive(Debug, Clone, PartialEq, Eq)]
pub struct CharChars {
    src: Vec<char>,
    pos: usize,
    loc: Loc,
}

impl CharChars {
    /// The tokens this reader has not yet produced
    pub closed spec fn remaining(&self) -> Seq<Char> {
        spec_tokens(self.src@.skip(self.pos as int), self.loc)
    }

    /// Internal consistency: the location is exactly the amount of raw text
    /// consumed so far
    pub closed spec fn inv(&self) -> bool {
        &&& self.pos <= self.src@.len()
        &&& self.loc.offset == self.pos
        &&& self.loc.line <= self.pos
        &&& self.loc.char <= self.pos
        &&& self.remaining().len() <= usize::MAX
    }

    /// The reader never yields more tokens than fit in an index
    pub proof fn lemma_remaining_bound(&self)
        requires
            self.inv(),
        ensures
            self.remaining().len() <= usize::MAX,
    {
    }

    pub fn new(src: Vec<char>) -> (r: Self)
        ensures
            r.inv(),
            r.remaining() == spec_tokens(src@, Loc::zero()),
    {
        let n = src.len();
        let r = Self { src, pos: 0, loc: Loc::new() };
        proof {
            assert(r.src@.skip(0) =~= r.src@);
            lemma_spec_tokens_len(r.src@, Loc::zero());
        }
        r
    }

    /// Produce the next token, or None at the end of the raw text
    pub fn next(&mut self) -> (r: Option<Char>)
        requires
            old(self).inv(),
        ensures
            final(self).inv(),
            old(self).remaining().len() == 0 ==> r is None && final(self).remaining().len() == 0,
            old(self).remaining().len() > 0 ==> r == Some(old(self).remaining()[0])
                && final(self).remaining() == old(self).remaining().drop_first(),
    {
        proof {
            lemma_spec_tokens_len(self.src@.skip(self.pos as int), self.loc);
        }
        if self.pos == self.src.len() {
            proof {
                assert(self.src@.skip(self.pos as int) =~= Seq::<char>::empty());
            }
            return None;
        }
        let ghost s0 = self.src@.skip(self.pos as int);
        let l = self.loc;
        let c = self.src[self.pos];
        assert(c == s0[0]);
        if c == '\r' {
            if self.pos + 1 < self.src.len() && self.src[self.pos + 1] == '\n' {
                assert(s0.len() >= 2 && s0[1] == '\n');
                self.pos = self.pos + 2;
                self.loc = Loc { offset: l.offset + 2, line: l.line + 1, char: 0 };
                proof {
                    assert(self.src@.skip(self.pos as int) =~= s0.skip(2));
                    lemma_spec_tokens_len(self.src@.skip(self.pos as int), self.loc);
                    assert(self.remaining() =~= old(self).remaining().drop_first());
                }
                Some(Char::Wrap(l))
            } else {
                assert(!(s0.len() >= 2 && s0[1] == '\n'));
                self.pos = self.pos + 1;
                self.loc = Loc { offset: l.offset + 1, line: l.line + 1, char: 0 };
                proof {
                    assert(self.src@.skip(self.pos as int) =~= s0.skip(1));
                    lemma_spec_tokens_len(self.src@.skip(self.pos as int), self.loc);
                    assert(self.remaining() =~= old(self).remaining().drop_first());
                }
                Some(Char::Wrap(l))
            }
        } else if c == '\n' {
            self.pos = self.pos + 1;
            self.loc = Loc { offset: l.offset + 1, line: l.line + 1, char: 0 };
            proof {
                assert(self.src@.skip(self.pos as int) =~= s0.skip(1));
                lemma_spec_tokens_len(self.src@.skip(self.pos as int), self.loc);
                assert(self.remaining() =~= old(self).remaining().drop_first());
            }
            Some(Char::Wrap(l))
        } else {
            self.pos = self.pos + 1;
            self.loc = Loc { offset: l.offset + 1, line: l.line, char: l.char + 1 };
            proof {
                assert(self.src@.skip(self.pos as int) =~= s0.skip(1));
                lemma_char_id(c);
                assert(spec_tokens(s0, l) == seq![Char::Char(((s0[0] as u32) as char), l)]
                    + spec_tokens(s0.skip(1), loc_next_col(l)));
                assert(self.loc == loc_next_col(l));
                assert(self.remaining() =~= old(self).remaining().drop_first());
            }
            Some(Char::Char(c, l))
        }
    }
}

impl crate::common::time_travel::RefClone for CharChars {
    fn ref_clone(&self) -> (r: Self)
        ensures
            r.inv() == self.inv(),
            r.remaining() == self.remaining(),
    {
        let mut src: Vec<char> = Vec::new();
        let mut i: usize = 0;
        while i < self.src.len()
            invariant
                i <= self.src.len(),
                src@ == self.src@.take(i as int),
            decreases self.src.len() - i,
        {
            src.push(self.src[i]);
            proof {
                assert(src@ =~= self.src@.take(i + 1 as int));
            }
            i = i + 1;
        }
        proof {
            assert(self.src@.take(self.src@.len() as int) =~= self.src@);
        }
        let r = Self { src, pos: self.pos, loc: self.loc };
        proof {
            assert(r.src@ == self.src@);
        }
        r
    }
}

} // verus!
