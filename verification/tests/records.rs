//! The record family: getters and the conversion lattice.

use char_positions::ByteEnd;
use char_positions::ByteRange;
use char_positions::ByteStart;
use char_positions::CharPositionsExt;
use char_positions::Col;
use char_positions::Line;
use char_positions::LineCol;
use char_positions::LineColByte;
use char_positions::LineColByteRange;

#[test]
fn getters_report_their_fields() {
    let max = LineColByteRange(3, 7, ByteRange(12, 16));
    assert_eq!(max.line(), 3);
    assert_eq!(max.column(), 7);
    assert_eq!(max.byte_start(), 12);
    assert_eq!(max.byte_end(), 16);
    assert_eq!(max.byte_range(), ByteRange(12, 16));
    assert_eq!(max.byte_range().start(), 12);
    assert_eq!(max.byte_range().end(), 16);

    let lcb = LineColByte(3, 7, 12);
    assert_eq!(lcb.line(), 3);
    assert_eq!(lcb.column(), 7);
    assert_eq!(lcb.byte_start(), 12);

    let lc = LineCol(3, 7);
    assert_eq!(lc.line(), 3);
    assert_eq!(lc.column(), 7);
}

#[test]
fn narrowing_from_the_maximal_record() {
    let max = LineColByteRange(3, 7, ByteRange(12, 16));
    assert_eq!(Line::from(max), Line(3));
    assert_eq!(Col::from(max), Col(7));
    assert_eq!(ByteStart::from(max), ByteStart(12));
    assert_eq!(ByteEnd::from(max), ByteEnd(16));
    assert_eq!(ByteRange::from(max), ByteRange(12, 16));
    assert_eq!(LineCol::from(max), LineCol(3, 7));
    assert_eq!(LineColByte::from(max), LineColByte(3, 7, 12));
    assert_eq!(usize::from(max), 12);
}

#[test]
fn narrowing_from_the_smaller_records() {
    assert_eq!(Line::from(LineCol(3, 7)), Line(3));
    assert_eq!(Col::from(LineCol(3, 7)), Col(7));
    assert_eq!(Line::from(LineColByte(3, 7, 12)), Line(3));
    assert_eq!(Col::from(LineColByte(3, 7, 12)), Col(7));
    assert_eq!(LineCol::from(LineColByte(3, 7, 12)), LineCol(3, 7));
    assert_eq!(usize::from(ByteStart(12)), 12);
    assert_eq!(usize::from(ByteEnd(16)), 16);
}

#[test]
fn tuple_conversions_duplicate_the_record() {
    let max = LineColByteRange(3, 7, ByteRange(12, 16));
    assert_eq!(<(Line,)>::from(max), (Line(3),));
    assert_eq!(<(Line, Col)>::from(max), (Line(3), Col(7)));
    assert_eq!(
        <(Line, Col, ByteStart, ByteEnd)>::from(max),
        (Line(3), Col(7), ByteStart(12), ByteEnd(16))
    );
    // Duplicated shapes are allowed: both slots get the same value.
    assert_eq!(<(Line, Line)>::from(max), (Line(3), Line(3)));
    assert_eq!(
        <(Line, Col, ByteStart, ByteEnd, ByteRange, LineCol)>::from(max),
        (
            Line(3),
            Col(7),
            ByteStart(12),
            ByteEnd(16),
            ByteRange(12, 16),
            LineCol(3, 7)
        )
    );
}

#[test]
fn tuple_shapes_from_the_tracker() {
    let mut it = "é!".char_positions::<(LineCol, ByteRange)>();
    assert_eq!(it.next(), Some(((LineCol(1, 1), ByteRange(0, 2)), 'é')));
    assert_eq!(it.next(), Some(((LineCol(1, 2), ByteRange(2, 3)), '!')));
    assert_eq!(it.next(), None);
}

#[test]
fn usize_shape_reports_the_start_byte() {
    let mut it = "é!".char_positions::<usize>();
    assert_eq!(it.next(), Some((0, 'é')));
    assert_eq!(it.next(), Some((2, '!')));
    assert_eq!(it.next(), None);
}

#[test]
fn single_field_shapes_from_the_tracker() {
    let mut it = "a\nb".char_positions::<ByteEnd>();
    assert_eq!(it.next(), Some((ByteEnd(1), 'a')));
    assert_eq!(it.next(), Some((ByteEnd(2), '\n')));
    assert_eq!(it.next(), Some((ByteEnd(3), 'b')));
    assert_eq!(it.next(), None);

    let mut it = "a\nb".char_positions::<ByteStart>();
    assert_eq!(it.next(), Some((ByteStart(0), 'a')));
    assert_eq!(it.next(), Some((ByteStart(1), '\n')));
    assert_eq!(it.next(), Some((ByteStart(2), 'b')));
    assert_eq!(it.next(), None);

    let mut it = "a\nb".char_positions::<Line>();
    assert_eq!(it.next(), Some((Line(1), 'a')));
    assert_eq!(it.next(), Some((Line(1), '\n')));
    assert_eq!(it.next(), Some((Line(2), 'b')));
    assert_eq!(it.next(), None);
}
