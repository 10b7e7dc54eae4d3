use vstd::prelude::*;
use crate::common::chars::{Char, CharChars};
use crate::common::time_travel::RefClone;

verus! {

/// Collection of storage history.
/// Wraps a token reader and buffers everything it yields, so that any
/// already-seen position can be read again without re-driving the reader.
#[derive(Debug)]
pub struct Timeline {
    src: CharChars,
    buf: Vec<Char>,
    end: bool,
}

impl Timeline {
    /// Every token this timeline will ever hold: the buffered ones followed
    /// by whatever the reader has not yielded yet
    pub closed spec fn toks(&self) -> Seq<Char> {
        self.buf@ + self.src.remaining()
    }

    /// How many tokens are buffered so far
    pub closed spec fn buffered(&self) -> int {
        self.buf@.len() as int
    }

    /// Whether the reader has reported exhaustion
    pub closed spec fn ended(&self) -> bool {
        self.end
    }

    /// Internal consistency
    pub closed spec fn inv(&self) -> bool {
        &&& self.src.inv()
        &&& (self.end ==> self.src.remaining().len() == 0)
        &&& self.buf@.len() + self.src.remaining().len() <= usize::MAX
    }

    pub proof fn lemma_buffered_le_toks(&self)
        ensures
            0 <= self.buffered() <= self.toks().len(),
            self.ended() && self.inv() ==> self.buffered() == self.toks().len(),
            self.inv() ==> self.toks().len() <= usize::MAX,
    {
    }

    pub fn new(src: CharChars) -> (r: Self)
        ensures
            src.inv() ==> r.inv(),
            r.toks() == src.remaining(),
            r.buffered() == 0,
            !r.ended(),
    {
        let r = Self { src, buf: Vec::new(), end: false };
        proof {
            assert(r.toks() =~= r.src.remaining());
            if r.src.inv() {
                r.src.lemma_remaining_bound();
            }
        }
        r
    }

    /// Number of history records currently stored
    pub fn now_len(&self) -> (r: usize)
        ensures
            r == self.buffered(),
    {
        self.buf.len()
    }

    /// Check if the internal reader has been completed
    pub fn is_end(&self) -> (r: bool)
        ensures
            r == self.ended(),
    {
        self.end
    }

    /// Pull one more token from the reader into the buffer and return it;
    /// None once the reader is exhausted
    pub fn next(&mut self) -> (r: Option<Char>)
        requires
            old(self).inv(),
        ensures
            final(self).inv(),
            final(self).toks() == old(self).toks(),
            old(self).ended() ==> final(self).ended(),
            old(self).buffered() < old(self).toks().len() ==> r == Some(
                old(self).toks()[old(self).buffered()],
            ) && final(self).buffered() == old(self).buffered() + 1,
            old(self).buffered() >= old(self).toks().len() ==> r is None && final(self).ended()
                && final(self).buffered() == old(self).buffered(),
    {
        if self.end {
            return None;
        }
        let ghost pre = *self;
        let got = self.src.next();
        match got {
            Some(c) => {
                self.buf.push(c);
                proof {
                    assert(self.toks() =~= pre.toks());
                    assert(self.toks()[pre.buffered()] == c);
                }
                Some(c)
            },
            None => {
                self.end = true;
                proof {
                    assert(self.toks() =~= pre.toks());
                }
                None
            },
        }
    }

    /// Iterate the internal reader to completion
    pub fn to_end(&mut self)
        requires
            old(self).inv(),
        ensures
            final(self).inv(),
            final(self).toks() == old(self).toks(),
            final(self).ended(),
            final(self).buffered() == final(self).toks().len(),
    {
        loop
            invariant
                self.inv(),
                self.toks() == old(self).toks(),
            decreases self.toks().len() - self.buffered() + (if self.ended() {
                0int
            } else {
                1int
            }),
        {
            proof {
                self.lemma_buffered_le_toks();
            }
            let r = self.next();
            if r.is_none() {
                return ;
            }
        }
    }

    /// Get the value of the specified position, pulling further tokens from
    /// the reader until the position is available or the reader is exhausted
    /// - None if the internal reader is completed but not found
    pub fn get(&mut self, index: usize) -> (r: Option<Char>)
        requires
            old(self).inv(),
        ensures
            final(self).inv(),
            final(self).toks() == old(self).toks(),
            old(self).buffered() <= final(self).buffered(),
            old(self).ended() ==> final(self).ended(),
            index < old(self).buffered() ==> final(self).buffered() == old(self).buffered()
                && final(self).ended() == old(self).ended(),
            index < old(self).toks().len() ==> r == Some(old(self).toks()[index as int])
                && index < final(self).buffered() && final(self).buffered() <= usize::MAX,
            index >= old(self).toks().len() ==> r is None && final(self).ended()
                && final(self).buffered() == final(self).toks().len(),
    {
        loop
            invariant
                self.inv(),
                self.toks() == old(self).toks(),
                old(self).buffered() <= self.buffered(),
                old(self).ended() ==> self.ended(),
                index < old(self).buffered() ==> self.buffered() == old(self).buffered()
                    && self.ended() == old(self).ended(),
            decreases self.toks().len() - self.buffered() + (if self.ended() {
                0int
            } else {
                1int
            }),
        {
            proof {
                self.lemma_buffered_le_toks();
            }
            if index < self.buf.len() {
                proof {
                    assert(self.buf@.len() <= usize::MAX);
                }
                return Some(self.buf[index]);
            }
            if self.end {
                return None;
            }
            let _ = self.next();
        }
    }

    /// Read an already-buffered position without driving the reader
    pub fn peek(&self, index: usize) -> (r: Option<Char>)
        ensures
            index < self.buffered() ==> r == Some(self.toks()[index as int]),
            index >= self.buffered() ==> r is None,
    {
        if index < self.buf.len() {
            Some(self.buf[index])
        } else {
            None
        }
    }
}

impl RefClone for Timeline {
    fn ref_clone(&self) -> (r: Self)
        ensures
            r.inv() == self.inv(),
            r.toks() == self.toks(),
            r.buffered() == self.buffered(),
            r.ended() == self.ended(),
    {
        let src = self.src.ref_clone();
        let mut buf: Vec<Char> = Vec::new();
        let mut i: usize = 0;
        while i < self.buf.len()
            invariant
                i <= self.buf.len(),
                buf@ == self.buf@.take(i as int),
            decreases self.buf.len() - i,
        {
            buf.push(self.buf[i]);
            proof {
                assert(buf@ =~= self.buf@.take(i + 1 as int));
            }
            i = i + 1;
        }
        proof {
            assert(self.buf@.take(self.buf@.len() as int) =~= self.buf@);
        }
        let r = Self { src, buf, end: self.end };
        proof {
            assert(r.toks() =~= self.toks());
        }
        r
    }
}

} // verus!
