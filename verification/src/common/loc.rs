use vstd::prelude::*;

verus! {

/// Location in source code
#[derive(Debug, PartialEq, Eq, Clone, Copy, Hash, Structural)]
pub struct Loc {
    /// nth of characters
    pub offset: usize,
    /// nth of line
    pub line: usize,
    /// nth of characters in current line
    pub char: usize,
}

impl Loc {
    /// New empty
    pub fn new() -> (r: Self)
        ensures
            r == Loc::zero(),
    {
        Self { offset: 0, line: 0, char: 0 }
    }

    /// New at
    pub fn new_at(offset: usize, line: usize, char: usize) -> (r: Self)
        ensures
            r.offset == offset,
            r.line == line,
            r.char == char,
    {
        Self { offset, line, char }
    }

    /// The all-zero location
    pub open spec fn zero() -> Self {
        Loc { offset: 0, line: 0, char: 0 }
    }
}

impl Default for Loc {
    fn default() -> (r: Self)
        ensures
            r == Loc::zero(),
    {
        Self::new()
    }
}

impl From<(usize, usize, usize)> for Loc {
    fn from(t: (usize, usize, usize)) -> (r: Self)
        ensures
            r.offset == t.0 && r.line == t.1 && r.char == t.2,
    {
        Self::new_at(t.0, t.1, t.2)
    }
}

impl vstd::std_specs::convert::FromSpecImpl<(usize, usize, usize)> for Loc {
    open spec fn obeys_from_spec() -> bool {
        true
    }

    open spec fn from_spec(t: (usize, usize, usize)) -> Self {
        Loc { offset: t.0, line: t.1, char: t.2 }
    }
}

impl From<()> for Loc {
    fn from(t: ()) -> (r: Self)
        ensures
            r == Loc::zero(),
    {
        Self::new()
    }
}

impl vstd::std_specs::convert::FromSpecImpl<()> for Loc {
    open spec fn obeys_from_spec() -> bool {
        true
    }

    open spec fn from_spec(t: ()) -> Self {
        Loc::zero()
    }
}

/// Shorthand for Loc::new_at
pub fn loc_of(offset: usize, line: usize, char: usize) -> (r: Loc)
    ensures
        r.offset == offset,
        r.line == line,
        r.char == char,
{
    Loc::new_at(offset, line, char)
}

/// Range of Location in source code
#[derive(Debug, PartialEq, Eq, Clone, Copy, Hash, Structural)]
pub struct LocRange {
    /// from
    pub from: Loc,
    /// to
    pub to: Loc,
}

impl LocRange {
    /// New at
    pub fn new(from: Loc, to: Loc) -> (r: Self)
        ensures
            r.from == from,
            r.to == to,
    {
        Self { from, to }
    }

    /// New empty
    pub fn new_empty() -> (r: Self)
        ensures
            r.from == Loc::zero(),
            r.to == Loc::zero(),
    {
        Self { from: Loc::new(), to: Loc::new() }
    }
}

impl Default for LocRange {
    fn default() -> (r: Self)
        ensures
            r.from == Loc::zero(),
            r.to == Loc::zero(),
    {
        Self::new_empty()
    }
}

impl From<(usize, usize, usize, usize, usize, usize)> for LocRange {
    fn from(t: (usize, usize, usize, usize, usize, usize)) -> (r: Self)
        ensures
            r.from == (Loc { offset: t.0, line: t.1, char: t.2 }),
            r.to == (Loc { offset: t.3, line: t.4, char: t.5 }),
    {
        Self::new(Loc::new_at(t.0, t.1, t.2), Loc::new_at(t.3, t.4, t.5))
    }
}

impl vstd::std_specs::convert::FromSpecImpl<(usize, usize, usize, usize, usize, usize)> for LocRange {
    open spec fn obeys_from_spec() -> bool {
        true
    }

    open spec fn from_spec(t: (usize, usize, usize, usize, usize, usize)) -> Self {
        LocRange {
            from: Loc { offset: t.0, line: t.1, char: t.2 },
            to: Loc { offset: t.3, line: t.4, char: t.5 },
        }
    }
}

impl From<(usize, usize, usize)> for LocRange {
    fn from(t: (usize, usize, usize)) -> (r: Self)
        ensures
            r.from == (Loc { offset: t.0, line: t.1, char: t.2 }),
            r.to == (Loc { offset: t.0, line: t.1, char: t.2 }),
    {
        Self::new(Loc::new_at(t.0, t.1, t.2), Loc::new_at(t.0, t.1, t.2))
    }
}

impl vstd::std_specs::convert::FromSpecImpl<(usize, usize, usize)> for LocRange {
    open spec fn obeys_from_spec() -> bool {
        true
    }

    open spec fn from_spec(t: (usize, usize, usize)) -> Self {
        LocRange {
            from: Loc { offset: t.0, line: t.1, char: t.2 },
            to: Loc { offset: t.0, line: t.1, char: t.2 },
        }
    }
}

impl From<()> for LocRange {
    fn from(t: ()) -> (r: Self)
        ensures
            r.from == Loc::zero(),
            r.to == Loc::zero(),
    {
        Self::new_empty()
    }
}

impl vstd::std_specs::convert::FromSpecImpl<()> for LocRange {
    open spec fn obeys_from_spec() -> bool {
        true
    }

    open spec fn from_spec(t: ()) -> Self {
        LocRange { from: Loc::zero(), to: Loc::zero() }
    }
}

impl From<(Loc, Loc)> for LocRange {
    fn from(t: (Loc, Loc)) -> (r: Self)
        ensures
            r.from == t.0,
            r.to == t.1,
    {
        Self::new(t.0, t.1)
    }
}

impl vstd::std_specs::convert::FromSpecImpl<(Loc, Loc)> for LocRange {
    open spec fn obeys_from_spec() -> bool {
        true
    }

    open spec fn from_spec(t: (Loc, Loc)) -> Self {
        LocRange { from: t.0, to: t.1 }
    }
}

/// Shorthand for LocRange::new
pub fn loc_range_of(from: Loc, to: Loc) -> (r: LocRange)
    ensures
        r.from == from,
        r.to == to,
{
    LocRange::new(from, to)
}

/// Calculate Loc
pub trait ComLoc {
    type ComLocData;

    /// Calculate Loc
    fn loc(&self, data: Self::ComLocData) -> Option<Loc>;
}

/// Calculate LocRange
pub trait ComLocRange {
    type ComLocRangeData;

    /// Calculate ComLocRange
    fn loc_range(&self, data: Self::ComLocRangeData) -> Option<LocRange>;
}

/// Get Loc
pub trait GetLoc {
    /// Get Loc
    fn loc(&self) -> Loc;
}

/// Get LocRange
pub trait GetLocRange {
    /// Get LocRange
    fn loc_range(&self) -> LocRange;
}

} // verus!
