//! The laws of the position stream.
//!
//! These proof functions state, over the model of [`crate::model`], what
//! holds of the records a tracker yields for any text: the byte ranges tile
//! the encoded buffer exactly, line numbers never decrease and columns reset
//! only after a line feed, every shape reports the maximal record's own
//! fields, and iteration can be resumed from any reachable state.

use vstd::prelude::*;
use crate::model::byte_len;
use crate::model::pos_seq;
use crate::model::step_col;
use crate::model::step_line;
use crate::model::text_positions;
use crate::model::utf8_len;
use crate::model::PosRec;
use crate::records::Project;
use crate::records::ByteEnd;
use crate::records::ByteRange;
use crate::records::ByteStart;
use crate::records::Col;
use crate::records::Line;
use crate::records::LineCol;
use crate::records::LineColByte;
use crate::records::LineColByteRange;
use vstd::std_specs::convert::FromSpec;

verus! {

/// The byte range of record `i` of a stream started at byte offset `off`
/// runs from the end of the bytes of the characters before character `i` to
/// the end of its own.
proof fn lemma_pos_seq_ranges(s: Seq<char>, line: int, col: int, off: int)
    ensures
        pos_seq(s, line, col, off).len() == s.len(),
        forall|i: int|
            #![trigger pos_seq(s, line, col, off)[i]]
            0 <= i < s.len() ==> {
                let r = pos_seq(s, line, col, off)[i];
                &&& r.start == off + byte_len(s.take(i))
                &&& r.end == off + byte_len(s.take(i + 1))
            },
    decreases s.len(),
{
    if s.len() > 0 {
        let c = s[0];
        let rest = s.drop_first();
        let off1 = off + utf8_len(c);
        let tail = pos_seq(rest, step_line(line, c), step_col(col, c), off1);
        assert(pos_seq(s, line, col, off) == seq![
            PosRec { line, col, start: off, end: off1 },
        ] + tail);
        lemma_pos_seq_ranges(rest, step_line(line, c), step_col(col, c), off1);
        assert(s.take(0) =~= Seq::<char>::empty());
        assert(s.take(1) =~= Seq::<char>::empty().push(c));
        crate::model::lemma_byte_len_push(Seq::<char>::empty(), c);
        assert forall|i: int| 1 <= i < s.len() implies {
            let r = #[trigger] pos_seq(s, line, col, off)[i];
            &&& r.start == off + byte_len(s.take(i))
            &&& r.end == off + byte_len(s.take(i + 1))
        } by {
            assert(pos_seq(s, line, col, off)[i] == tail[i - 1]);
            assert(s.take(i).drop_first() =~= rest.take(i - 1));
            assert(s.take(i + 1).drop_first() =~= rest.take(i));
            assert(byte_len(s.take(i)) == utf8_len(c) + byte_len(rest.take(i - 1)));
            assert(byte_len(s.take(i + 1)) == utf8_len(c) + byte_len(rest.take(i)));
        }
    }
}

/// A stream started on line `line`, column `col` reports that state for its
/// first record; lines only grow, and each later record's line and column
/// step from its predecessor's by the line-feed rule.
proof fn lemma_pos_seq_track(s: Seq<char>, line: int, col: int, off: int)
    ensures
        pos_seq(s, line, col, off).len() == s.len(),
        s.len() > 0 ==> pos_seq(s, line, col, off)[0].line == line && pos_seq(
            s,
            line,
            col,
            off,
        )[0].col == col,
        forall|i: int|
            #![trigger pos_seq(s, line, col, off)[i]]
            0 <= i < s.len() ==> pos_seq(s, line, col, off)[i].line >= line,
        forall|i: int, j: int|
            0 <= i <= j < s.len() ==> #[trigger] pos_seq(s, line, col, off)[i].line
                <= #[trigger] pos_seq(s, line, col, off)[j].line,
        forall|i: int|
            #![trigger pos_seq(s, line, col, off)[i]]
            0 <= i < s.len() - 1 ==> {
                let r = pos_seq(s, line, col, off)[i];
                let nxt = pos_seq(s, line, col, off)[i + 1];
                &&& nxt.line == step_line(r.line, s[i])
                &&& nxt.col == step_col(r.col, s[i])
            },
    decreases s.len(),
{
    if s.len() > 0 {
        let c = s[0];
        let rest = s.drop_first();
        let line1 = step_line(line, c);
        let col1 = step_col(col, c);
        let off1 = off + utf8_len(c);
        let tail = pos_seq(rest, line1, col1, off1);
        assert(pos_seq(s, line, col, off) == seq![
            PosRec { line, col, start: off, end: off1 },
        ] + tail);
        lemma_pos_seq_track(rest, line1, col1, off1);
        assert forall|i: int| 0 <= i < s.len() implies #[trigger] pos_seq(
            s,
            line,
            col,
            off,
        )[i].line >= line by {
            if i > 0 {
                assert(pos_seq(s, line, col, off)[i] == tail[i - 1]);
                assert(tail[i - 1].line >= line1);
            }
        }
        assert forall|i: int, j: int| 0 <= i <= j < s.len() implies #[trigger] pos_seq(
            s,
            line,
            col,
            off,
        )[i].line <= #[trigger] pos_seq(s, line, col, off)[j].line by {
            if 0 < i {
                assert(pos_seq(s, line, col, off)[i] == tail[i - 1]);
                assert(pos_seq(s, line, col, off)[j] == tail[j - 1]);
            } else if 0 < j {
                assert(pos_seq(s, line, col, off)[j] == tail[j - 1]);
                assert(tail[j - 1].line >= line1);
            }
        }
        assert forall|i: int| 0 <= i < s.len() - 1 implies {
            let r = #[trigger] pos_seq(s, line, col, off)[i];
            let nxt = pos_seq(s, line, col, off)[i + 1];
            &&& nxt.line == step_line(r.line, s[i])
            &&& nxt.col == step_col(r.col, s[i])
        } by {
            if i == 0 {
                assert(pos_seq(s, line, col, off)[1] == tail[0]);
                assert(rest.len() > 0);
            } else {
                assert(pos_seq(s, line, col, off)[i] == tail[i - 1]);
                assert(pos_seq(s, line, col, off)[i + 1] == tail[i]);
                assert(rest[i - 1] == s[i]);
            }
        }
    }
}

/// Exhaustiveness and contiguity: the byte ranges of a text's records tile
/// `[0, byte_len)` in order — the first starts at 0, each record's range is
/// exactly the encoding of its character, consecutive ranges touch, and the
/// last ends at the text's byte length.
pub proof fn lemma_ranges_contiguous(s: Seq<char>)
    ensures
        text_positions(s).len() == s.len(),
        forall|i: int|
            #![trigger text_positions(s)[i]]
            0 <= i < s.len() ==> {
                let r = text_positions(s)[i];
                &&& r.start == byte_len(s.take(i))
                &&& r.end == byte_len(s.take(i + 1))
                &&& r.end == r.start + utf8_len(s[i])
            },
        s.len() > 0 ==> text_positions(s)[0].start == 0,
        forall|i: int|
            #![trigger text_positions(s)[i]]
            0 <= i < s.len() - 1 ==> text_positions(s)[i + 1].start == text_positions(s)[i].end,
        s.len() > 0 ==> text_positions(s)[s.len() - 1].end == byte_len(s),
{
    lemma_pos_seq_ranges(s, 1, 1, 0);
    assert forall|i: int| 0 <= i < s.len() implies {
        let r = #[trigger] text_positions(s)[i];
        r.end == r.start + utf8_len(s[i])
    } by {
        crate::model::lemma_byte_len_take_succ(s, i);
    }
    if s.len() > 0 {
        assert(s.take(0) =~= Seq::<char>::empty());
        assert(s.take(s.len() as int) =~= s);
    }
}

/// Line and column monotonicity: the first character of a text is reported
/// at line 1, column 1; line numbers never decrease; and right after a line
/// feed the column is 1 and the line one higher, while after any other
/// character the line stays and the column grows by one.
pub proof fn lemma_line_col_monotone(s: Seq<char>)
    ensures
        text_positions(s).len() == s.len(),
        s.len() > 0 ==> text_positions(s)[0].line == 1 && text_positions(s)[0].col == 1,
        forall|i: int, j: int|
            0 <= i <= j < s.len() ==> #[trigger] text_positions(s)[i].line
                <= #[trigger] text_positions(s)[j].line,
        forall|i: int|
            #![trigger text_positions(s)[i]]
            0 <= i < s.len() - 1 ==> {
                let r = text_positions(s)[i];
                let nxt = text_positions(s)[i + 1];
                &&& (s[i] == '\n' ==> nxt.line == r.line + 1 && nxt.col == 1)
                &&& (s[i] != '\n' ==> nxt.line == r.line && nxt.col == r.col + 1)
            },
{
    lemma_pos_seq_track(s, 1, 1, 0);
}

/// Resuming is consistent: from any state, the first record is the head
/// character's with the state's own line, column and offset, and the rest of
/// the stream is exactly the stream of the remaining text from the stepped
/// state — so an iterator that reports its remaining substring will, going
/// forward, yield the positions of exactly those characters in that order.
pub proof fn lemma_resume_consistent(s: Seq<char>, line: int, col: int, off: int)
    requires
        s.len() > 0,
    ensures
        pos_seq(s, line, col, off).len() == s.len(),
        pos_seq(s, line, col, off)[0] == (PosRec {
            line,
            col,
            start: off,
            end: off + utf8_len(s[0]),
        }),
        pos_seq(s, line, col, off).drop_first() == pos_seq(
            s.drop_first(),
            step_line(line, s[0]),
            step_col(col, s[0]),
            off + utf8_len(s[0]),
        ),
{
    lemma_pos_seq_ranges(s, line, col, off);
    let c = s[0];
    let tail = pos_seq(s.drop_first(), step_line(line, c), step_col(col, c), off + utf8_len(c));
    assert(pos_seq(s, line, col, off) == seq![
        PosRec { line, col, start: off, end: off + utf8_len(c) },
    ] + tail);
    assert(pos_seq(s, line, col, off).drop_first() =~= tail);
}

/// Projection consistency: every record shape reports exactly the
/// corresponding fields of the maximal record, and the `From` conversions
/// out of the maximal record agree with the projections the tracker uses.
pub proof fn lemma_projection_consistent(m: LineColByteRange)
    ensures
        Line::projected(m) == Line(m.0) && Line::from_spec(m) == Line::projected(m),
        Col::projected(m) == Col(m.1) && Col::from_spec(m) == Col::projected(m),
        ByteStart::projected(m) == ByteStart(m.2.0) && ByteStart::from_spec(m)
            == ByteStart::projected(m),
        ByteEnd::projected(m) == ByteEnd(m.2.1) && ByteEnd::from_spec(m) == ByteEnd::projected(m),
        ByteRange::projected(m) == m.2 && ByteRange::from_spec(m) == ByteRange::projected(m),
        LineCol::projected(m) == LineCol(m.0, m.1) && LineCol::from_spec(m) == LineCol::projected(
            m,
        ),
        LineColByte::projected(m) == LineColByte(m.0, m.1, m.2.0) && LineColByte::from_spec(m)
            == LineColByte::projected(m),
        LineColByteRange::projected(m) == m,
        <usize as Project>::projected(m) == m.2.0 && <usize as FromSpec<
            LineColByteRange,
        >>::from_spec(m) == <usize as Project>::projected(m),
{
}

/// Projection consistency for tuples: each slot of a tuple shape is,
/// independently, that slot's own projection of the same maximal record.
pub proof fn lemma_tuple_projection<A: Project, B: Project>(m: LineColByteRange)
    ensures
        <(A, B) as Project>::projected(m) == (A::projected(m), B::projected(m)),
{
}

} // verus!
