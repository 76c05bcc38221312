//! The mathematical model of a position-annotated text.
//!
//! A text is a sequence of Unicode scalar values. Each scalar value occupies
//! [`utf8_len`] bytes in the UTF-8 encoding of the text, so the whole text
//! occupies [`byte_len`] bytes. [`pos_seq`] assigns to every character its
//! line number, column number and byte range, the way a single forward pass
//! does: lines and columns are 1-indexed, and a line feed keeps the column it
//! falls on while resetting the column of the character after it.

use vstd::prelude::*;

verus! {

/// The number of bytes the UTF-8 encoding of a scalar value occupies.
pub open spec fn utf8_len(c: char) -> nat {
    if (c as u32) < 0x80 {
        1
    } else if (c as u32) < 0x800 {
        2
    } else if (c as u32) < 0x10000 {
        3
    } else {
        4
    }
}

/// The number of bytes the UTF-8 encoding of a text occupies.
pub open spec fn byte_len(s: Seq<char>) -> nat
    decreases s.len(),
{
    if s.len() == 0 {
        0
    } else {
        utf8_len(s[0]) + byte_len(s.drop_first())
    }
}

/// The line number of the character following one on line `line`.
pub open spec fn step_line(line: int, c: char) -> int {
    if c == '\n' {
        line + 1
    } else {
        line
    }
}

/// The column number of the character following one in column `col`.
pub open spec fn step_col(col: int, c: char) -> int {
    if c == '\n' {
        1
    } else {
        col + 1
    }
}

/// The position of one character of the text: the line and column it falls
/// on and the byte range it occupies. The record at index `i` of a stream
/// belongs to character `i` of the text it was built from.
pub struct PosRec {
    pub line: int,
    pub col: int,
    pub start: int,
    pub end: int,
}

/// The position records of a text, one per character in order, where the
/// first character sits on line `line`, in column `col`, at byte offset `off`.
pub open spec fn pos_seq(s: Seq<char>, line: int, col: int, off: int) -> Seq<PosRec>
    decreases s.len(),
{
    if s.len() == 0 {
        Seq::empty()
    } else {
        let c = s[0];
        seq![
            PosRec { line, col, start: off, end: off + utf8_len(c) },
        ] + pos_seq(s.drop_first(), step_line(line, c), step_col(col, c), off + utf8_len(c))
    }
}

/// The position records of a whole text: line 1, column 1, byte offset 0.
pub open spec fn text_positions(s: Seq<char>) -> Seq<PosRec> {
    pos_seq(s, 1, 1, 0)
}

/// A text has exactly one position record per character.
pub proof fn lemma_pos_seq_len(s: Seq<char>, line: int, col: int, off: int)
    ensures
        pos_seq(s, line, col, off).len() == s.len(),
    decreases s.len(),
{
    if s.len() > 0 {
        let c = s[0];
        assert(pos_seq(s, line, col, off) == seq![
            PosRec { line, col, start: off, end: off + utf8_len(c) },
        ] + pos_seq(s.drop_first(), step_line(line, c), step_col(col, c), off + utf8_len(c)));
        lemma_pos_seq_len(s.drop_first(), step_line(line, c), step_col(col, c), off + utf8_len(c));
    }
}

/// Appending a character adds its encoded length to the byte length.
pub proof fn lemma_byte_len_push(s: Seq<char>, c: char)
    ensures
        byte_len(s.push(c)) == byte_len(s) + utf8_len(c),
    decreases s.len(),
{
    if s.len() == 0 {
        assert(s.push(c)[0] == c);
        assert(s.push(c).drop_first() =~= Seq::<char>::empty());
        assert(byte_len(s.push(c)) == utf8_len(c) + byte_len(Seq::<char>::empty()));
    } else {
        assert(s.push(c)[0] == s[0]);
        assert(s.push(c).drop_first() =~= s.drop_first().push(c));
        lemma_byte_len_push(s.drop_first(), c);
        assert(byte_len(s.push(c)) == utf8_len(s[0]) + byte_len(s.drop_first().push(c)));
    }
}

/// The first `i + 1` characters occupy the bytes of the first `i` characters
/// plus the encoded length of character `i`.
pub proof fn lemma_byte_len_take_succ(s: Seq<char>, i: int)
    requires
        0 <= i < s.len(),
    ensures
        byte_len(s.take(i + 1)) == byte_len(s.take(i)) + utf8_len(s[i]),
{
    assert(s.take(i + 1) =~= s.take(i).push(s[i]));
    lemma_byte_len_push(s.take(i), s[i]);
}

} // verus!
