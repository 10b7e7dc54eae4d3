use vstd::prelude::*;

verus! {

/// Vec<len >= 1>
pub fn range_of_many1(a: Vec<core::ops::Range<usize>>) -> (r: core::ops::Range<usize>)
    requires
        a@.len() >= 1,
    ensures
        r.start == a@.first().start,
        r.end == a@.last().end,
{
    let start = a[0].start;
    let end = a[a.len() - 1].end;
    start..end
}

/// (Vec<len >= 1>, Vec<len >= 0>)
pub fn range_of_many1_many(
    t: (Vec<core::ops::Range<usize>>, Vec<core::ops::Range<usize>>),
) -> (r: core::ops::Range<usize>)
    requires
        t.0@.len() >= 1,
    ensures
        r.start == t.0@.first().start,
        t.1@.len() == 0 ==> r.end == t.0@.last().end,
        t.1@.len() > 0 ==> r.end == t.1@.last().end,
{
    let (a, b) = t;
    let start = a[0].start;
    let end = if b.len() == 0 {
        a[a.len() - 1].end
    } else {
        b[b.len() - 1].end
    };
    start..end
}

/// (Vec<len >= 1>, Vec<len >= 1>)
pub fn range_of_many1_many1(
    t: (Vec<core::ops::Range<usize>>, Vec<core::ops::Range<usize>>),
) -> (r: core::ops::Range<usize>)
    requires
        t.0@.len() >= 1,
        t.1@.len() >= 1,
    ensures
        r.start == t.0@.first().start,
        r.end == t.1@.last().end,
{
    let (a, b) = t;
    let start = a[0].start;
    let end = b[b.len() - 1].end;
    start..end
}

/// (Vec<len >= 0>, Vec<len >= 1>)
pub fn range_of_many_many1(
    t: (Vec<core::ops::Range<usize>>, Vec<core::ops::Range<usize>>),
) -> (r: core::ops::Range<usize>)
    requires
        t.1@.len() >= 1,
    ensures
        t.0@.len() == 0 ==> r.start == t.1@.first().start,
        t.0@.len() > 0 ==> r.start == t.0@.first().start,
        r.end == t.1@.last().end,
{
    let (a, b) = t;
    let start = if a.len() == 0 {
        b[0].start
    } else {
        a[0].start
    };
    let end = b[b.len() - 1].end;
    start..end
}

/// (Vec<len >= 0>, Vec<len >= 0>)
pub fn range_of_many_many(
    t: (Vec<core::ops::Range<usize>>, Vec<core::ops::Range<usize>>),
) -> (r: Option<core::ops::Range<usize>>)
    ensures
        t.0@.len() == 0 && t.1@.len() == 0 ==> r is None,
        t.0@.len() > 0 || t.1@.len() > 0 ==> (r matches Some(v) && v.start == (
        if t.0@.len() == 0 {
            t.1@.first().start
        } else {
            t.0@.first().start
        }) && v.end == (
        if t.1@.len() == 0 {
            t.0@.last().end
        } else {
            t.1@.last().end
        })),
{
    let (a, b) = t;
    if a.len() == 0 && b.len() == 0 {
        return None;
    }
    let start = if a.len() == 0 {
        b[0].start
    } else {
        a[0].start
    };
    let end = if b.len() == 0 {
        a[a.len() - 1].end
    } else {
        b[b.len() - 1].end
    };
    Some(start..end)
}

/// (Range, Vec<len >= 0>)
pub fn range_of_range_many(
    t: (core::ops::Range<usize>, Vec<core::ops::Range<usize>>),
) -> (r: core::ops::Range<usize>)
    ensures
        r.start == t.0.start,
        t.1@.len() == 0 ==> r.end == t.0.end,
        t.1@.len() > 0 ==> r.end == t.1@.last().end,
{
    let (a, b) = t;
    let start = a.start;
    let end = if b.len() == 0 {
        a.end
    } else {
        b[b.len() - 1].end
    };
    start..end
}

/// (Range, Vec<len >= 1>)
pub fn range_of_range_many1(
    t: (core::ops::Range<usize>, Vec<core::ops::Range<usize>>),
) -> (r: core::ops::Range<usize>)
    requires
        t.1@.len() >= 1,
    ensures
        r.start == t.0.start,
        r.end == t.1@.last().end,
{
    let (a, b) = t;
    let start = a.start;
    let end = b[b.len() - 1].end;
    start..end
}

/// (Vec<len >= 1>, Range)
pub fn range_of_many1_range(
    t: (Vec<core::ops::Range<usize>>, core::ops::Range<usize>),
) -> (r: core::ops::Range<usize>)
    requires
        t.0@.len() >= 1,
    ensures
        r.start == t.0@.first().start,
        r.end == t.1.end,
{
    let (a, b) = t;
    let start = a[0].start;
    let end = b.end;
    start..end
}

/// (Vec<len >= 0>, Range)
pub fn range_of_many_range(
    t: (Vec<core::ops::Range<usize>>, core::ops::Range<usize>),
) -> (r: core::ops::Range<usize>)
    ensures
        t.0@.len() == 0 ==> r.start == t.1.start,
        t.0@.len() > 0 ==> r.start == t.0@.first().start,
        r.end == t.1.end,
{
    let (a, b) = t;
    let start = if a.len() == 0 {
        b.start
    } else {
        a[0].start
    };
    let end = b.end;
    start..end
}

/// (Range, Range)
pub fn range_of_range_range(
    t: (core::ops::Range<usize>, core::ops::Range<usize>),
) -> (r: core::ops::Range<usize>)
    ensures
        r.start == t.0.start,
        r.end == t.1.end,
{
    let (a, b) = t;
    (a.start)..(b.end)
}

/// (Option<Range>, Range)
pub fn range_of_optrange_range(
    t: (Option<core::ops::Range<usize>>, core::ops::Range<usize>),
) -> (r: core::ops::Range<usize>)
    ensures
        t.0 matches Some(a) ==> r.start == a.start,
        t.0 is None ==> r.start == t.1.start,
        r.end == t.1.end,
{
    let (a, b) = t;
    let start = if let Some(a) = a {
        a.start
    } else {
        b.start
    };
    start..(b.end)
}

/// (Range, Option<Range>)
pub fn range_of_range_optrange(
    t: (core::ops::Range<usize>, Option<core::ops::Range<usize>>),
) -> (r: core::ops::Range<usize>)
    ensures
        r.start == t.0.start,
        t.1 matches Some(b) ==> r.end == b.end,
        t.1 is None ==> r.end == t.0.end,
{
    let (a, b) = t;
    let end = if let Some(b) = b {
        b.end
    } else {
        a.end
    };
    (a.start)..end
}

/// (Option<Range>, Option<Range>)
pub fn range_of_optrange_optrange(
    t: (Option<core::ops::Range<usize>>, Option<core::ops::Range<usize>>),
) -> (r: Option<core::ops::Range<usize>>)
    ensures
        t.0 is None && t.1 is None ==> r is None,
        !(t.0 is None && t.1 is None) ==> (r matches Some(v) && v.start == (
        match t.0 {
            Some(a) => a.start,
            None => t.1->Some_0.start,
        }) && v.end == (
        match t.1 {
            Some(b) => b.end,
            None => t.0->Some_0.end,
        })),
{
    let (a, b) = t;
    match (a, b) {
        (None, None) => None,
        (Some(a), None) => Some((a.start)..(a.end)),
        (None, Some(b)) => Some((b.start)..(b.end)),
        (Some(a), Some(b)) => Some((a.start)..(b.end)),
    }
}

} // verus!
