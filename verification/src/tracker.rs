//! The position tracker.
//!
//! [`CharPositions`] walks a text once, left to right, pulling each character
//! and its byte range from the boundary collaborator and pairing it with the
//! line and column it falls on. Lines and columns are 1-indexed; a line feed
//! is reported with the column it occupies, and only the character after it
//! starts a new line at column 1. The type parameter picks, through
//! [`Project`], which projection of the maximal record each pull yields.

use vstd::prelude::*;
use core::marker::PhantomData;
use char_ranges::CharRanges;
use crate::boundary::boundary_next;
use crate::boundary::boundary_rest;
use crate::boundary::boundary_start;
use crate::boundary::cr_offset;
use crate::boundary::cr_rest;
use crate::model::byte_len;
use crate::model::pos_seq;
use crate::model::utf8_len;
use crate::model::PosRec;
use crate::records::ByteRange;
use crate::records::LineCol;
use crate::records::LineColByteRange;
use crate::records::Project;

verus! {

broadcast use vstd::seq_lib::lemma_seq_skip_index, vstd::seq_lib::lemma_seq_skip_len;

/// An iterator over the characters of a text and their positions.
///
/// Construct it with [`CharPositionsExt::char_positions`]; pull with
/// [`CharPositions::next`]. Exhaustion is sticky: once the text is consumed,
/// every further pull yields nothing.
pub struct CharPositions<'a, T> {
    iter: CharRanges<'a>,
    pos: LineCol,
    phantom: PhantomData<T>,
}

impl<'a, T> CharPositions<'a, T> {
    /// The characters not yet yielded, in text order.
    pub closed spec fn rest(self) -> Seq<char> {
        cr_rest(self.iter)
    }

    /// The byte offset at which the not-yet-yielded characters begin.
    pub closed spec fn offset(self) -> usize {
        cr_offset(self.iter)
    }

    /// The line the next character will be reported on.
    pub closed spec fn cur_line(self) -> usize {
        self.pos.0
    }

    /// The column the next character will be reported in.
    pub closed spec fn cur_col(self) -> usize {
        self.pos.1
    }

    /// A reachable tracker state: line and column are 1-indexed, they can
    /// have grown at most one per byte already consumed, and the whole text
    /// fits below `usize::MAX` bytes, so the counters cannot overflow.
    pub closed spec fn wf(self) -> bool {
        &&& 1 <= self.cur_line()
        &&& 1 <= self.cur_col()
        &&& self.cur_line() + self.cur_col() <= self.offset() + 2
        &&& self.offset() + byte_len(self.rest()) < usize::MAX
    }

    pub(crate) fn new(s: &'a str) -> (it: Self)
        ensures
            it.wf(),
            it.rest() == s@,
            it.offset() == 0,
            it.cur_line() == 1,
            it.cur_col() == 1,
    {
        CharPositions { iter: boundary_start(s), pos: LineCol(1, 1), phantom: PhantomData }
    }

    /// The remaining substring: the characters not yet yielded, as a borrow
    /// of the original text.
    pub fn as_str(&self) -> (s: &'a str)
        ensures
            s@ == self.rest(),
    {
        boundary_rest(&self.iter)
    }
}

impl<'a, T: Project> CharPositions<'a, T> {
    /// Yield the next character with its position, or nothing if the text is
    /// exhausted.
    ///
    /// The position handed out is the projection of the maximal record
    /// `(line, col, byte range)` of the character; the line and column
    /// counters are advanced only afterwards, so a line feed keeps the
    /// column it falls on.
    pub fn next(&mut self) -> (r: Option<(T, char)>)
        requires
            old(self).wf(),
        ensures
            final(self).wf(),
            old(self).rest().len() == 0 ==> ({
                &&& r is None
                &&& final(self).rest() == old(self).rest()
                &&& final(self).offset() == old(self).offset()
                &&& final(self).cur_line() == old(self).cur_line()
                &&& final(self).cur_col() == old(self).cur_col()
            }),
            old(self).rest().len() > 0 ==> ({
                let c = old(self).rest()[0];
                let rec = LineColByteRange(
                    old(self).cur_line(),
                    old(self).cur_col(),
                    ByteRange(old(self).offset(), (old(self).offset() + utf8_len(c)) as usize),
                );
                &&& r == Some((T::projected(rec), c))
                &&& final(self).rest() == old(self).rest().drop_first()
                &&& final(self).offset() == old(self).offset() + utf8_len(c)
                &&& (c == '\n' ==> final(self).cur_line() == old(self).cur_line() + 1
                    && final(self).cur_col() == 1)
                &&& (c != '\n' ==> final(self).cur_line() == old(self).cur_line()
                    && final(self).cur_col() == old(self).cur_col() + 1)
            }),
    {
        match boundary_next(&mut self.iter) {
            None => None,
            Some((start, end, c)) => {
                let rec = LineColByteRange(self.pos.0, self.pos.1, ByteRange(start, end));
                if c == '\n' {
                    self.pos.0 = self.pos.0 + 1;
                    self.pos.1 = 1;
                } else {
                    self.pos.1 = self.pos.1 + 1;
                }
                Some((T::project(rec), c))
            },
        }
    }

    /// Run the iterator to exhaustion, collecting every yielded pair.
    ///
    /// The result is exactly the position stream of the not-yet-yielded text
    /// from the iterator's current state: pair `i` holds character `i` of
    /// the remainder and the projection of its maximal record.
    pub fn collect_positions(self) -> (v: Vec<(T, char)>)
        requires
            self.wf(),
        ensures
            v@.len() == self.rest().len(),
            forall|i: int|
                #![trigger v@[i]]
                0 <= i < v@.len() ==> v@[i] == (
                    T::projected(
                        record_of(
                            pos_seq(
                                self.rest(),
                                self.cur_line() as int,
                                self.cur_col() as int,
                                self.offset() as int,
                            )[i],
                        ),
                    ),
                    self.rest()[i],
                ),
    {
        let ghost s0 = self.rest();
        let ghost m = pos_seq(s0, self.cur_line() as int, self.cur_col() as int, self.offset() as int);
        let mut it = self;
        let mut v: Vec<(T, char)> = Vec::new();
        proof {
            crate::model::lemma_pos_seq_len(
                s0,
                self.cur_line() as int,
                self.cur_col() as int,
                self.offset() as int,
            );
            assert(s0.skip(0) =~= s0);
            assert(m.skip(0) =~= m);
        }
        loop
            invariant
                it.wf(),
                m.len() == s0.len(),
                v@.len() <= s0.len(),
                it.rest() == s0.skip(v@.len() as int),
                pos_seq(it.rest(), it.cur_line() as int, it.cur_col() as int, it.offset() as int)
                    == m.skip(v@.len() as int),
                forall|i: int|
                    #![trigger v@[i]]
                    0 <= i < v@.len() ==> v@[i] == (T::projected(record_of(m[i])), s0[i]),
            ensures
                it.rest().len() == 0,
                v@.len() == s0.len(),
                forall|i: int|
                    #![trigger v@[i]]
                    0 <= i < v@.len() ==> v@[i] == (T::projected(record_of(m[i])), s0[i]),
            decreases it.rest().len(),
        {
            let ghost prev = it;
            let ghost k = v@.len() as int;
            match it.next() {
                None => {
                    break;
                },
                Some(tc) => {
                    proof {
                        crate::laws::lemma_resume_consistent(
                            prev.rest(),
                            prev.cur_line() as int,
                            prev.cur_col() as int,
                            prev.offset() as int,
                        );
                        assert(m.skip(k)[0] == m[k]);
                        assert(prev.rest()[0] == s0[k]);
                        assert(prev.rest().drop_first() =~= s0.skip(k + 1));
                        assert(m.skip(k).drop_first() =~= m.skip(k + 1));
                    }
                    v.push(tc);
                },
            }
        }
        v
    }
}

/// The maximal record a model position stands for: the same line, column
/// and byte range, as machine integers.
pub open spec fn record_of(p: PosRec) -> LineColByteRange {
    LineColByteRange(p.line as usize, p.col as usize, ByteRange(p.start as usize, p.end as usize))
}

/// The entry point: ask a text for an iterator over characters and their
/// positions, in the record shape named by the type parameter.
pub trait CharPositionsExt: View<V = Seq<char>> {
    /// Returns an iterator over the characters of this text and their
    /// positions, starting at line 1, column 1, byte offset 0.
    fn char_positions<'a, T: Project>(&'a self) -> (it: CharPositions<'a, T>)
        ensures
            it.wf(),
            it.rest() == self@,
            it.offset() == 0,
            it.cur_line() == 1,
            it.cur_col() == 1,
    ;
}

impl CharPositionsExt for str {
    fn char_positions<'a, T: Project>(&'a self) -> (it: CharPositions<'a, T>) {
        CharPositions::new(self)
    }
}

} // verus!
