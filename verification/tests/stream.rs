//! The position stream over whole texts: scenarios and the stream laws on
//! concrete inputs.

use char_positions::ByteRange;
use char_positions::CharPositionsExt;
use char_positions::Col;
use char_positions::Line;
use char_positions::LineCol;
use char_positions::LineColByteRange;

const TEXT: &str = "Hello 👋\nWorld 🌏\n🦀🦀";

#[test]
fn maximal_records_of_mixed_width_text() {
    let mut it = TEXT.char_positions::<LineColByteRange>();
    let expected = [
        (1, 1, 0, 1, 'H'),
        (1, 2, 1, 2, 'e'),
        (1, 3, 2, 3, 'l'),
        (1, 4, 3, 4, 'l'),
        (1, 5, 4, 5, 'o'),
        (1, 6, 5, 6, ' '),
        (1, 7, 6, 10, '👋'),
        (1, 8, 10, 11, '\n'),
        (2, 1, 11, 12, 'W'),
        (2, 2, 12, 13, 'o'),
        (2, 3, 13, 14, 'r'),
        (2, 4, 14, 15, 'l'),
        (2, 5, 15, 16, 'd'),
        (2, 6, 16, 17, ' '),
        (2, 7, 17, 21, '🌏'),
        (2, 8, 21, 22, '\n'),
        (3, 1, 22, 26, '🦀'),
        (3, 2, 26, 30, '🦀'),
    ];
    for &(line, col, start, end, c) in expected.iter() {
        assert_eq!(
            it.next(),
            Some((LineColByteRange(line, col, ByteRange(start, end)), c))
        );
    }
    assert_eq!(it.next(), None);
}

#[test]
fn empty_text_yields_nothing_immediately() {
    let mut it = "".char_positions::<LineCol>();
    assert_eq!(it.next(), None);
}

#[test]
fn column_shape_on_two_lines() {
    let mut it = "ab\ncd".char_positions::<Col>();
    let mut cols = Vec::new();
    while let Some((Col(c), _)) = it.next() {
        cols.push(c);
    }
    assert_eq!(cols, vec![1, 2, 3, 1, 2]);
}

#[test]
fn byte_ranges_tile_the_buffer() {
    let mut it = TEXT.char_positions::<ByteRange>();
    let mut next_start: usize = 0;
    while let Some((ByteRange(start, end), c)) = it.next() {
        assert_eq!(start, next_start);
        assert_eq!(end, start + c.len_utf8());
        next_start = end;
    }
    assert_eq!(next_start, TEXT.len());
}

#[test]
fn lines_never_decrease_and_columns_reset() {
    let mut it = TEXT.char_positions::<LineCol>();
    let mut prev: Option<(usize, usize, char)> = None;
    while let Some((LineCol(line, col), c)) = it.next() {
        match prev {
            None => {
                assert_eq!(line, 1);
                assert_eq!(col, 1);
            }
            Some((prev_line, prev_col, prev_char)) => {
                assert!(line >= prev_line);
                if prev_char == '\n' {
                    assert_eq!(line, prev_line + 1);
                    assert_eq!(col, 1);
                } else {
                    assert_eq!(line, prev_line);
                    assert_eq!(col, prev_col + 1);
                }
            }
        }
        prev = Some((line, col, c));
    }
}

#[test]
fn every_shape_reports_the_maximal_fields() {
    let mut maximal = TEXT.char_positions::<LineColByteRange>();
    let mut tuple = TEXT.char_positions::<(Line, Col, usize, ByteRange)>();
    loop {
        let m = maximal.next();
        let t = tuple.next();
        match (m, t) {
            (None, None) => break,
            (Some((rec, mc)), Some(((line, col, start, range), tc))) => {
                assert_eq!(mc, tc);
                assert_eq!(line, Line(rec.line()));
                assert_eq!(col, Col(rec.column()));
                assert_eq!(start, rec.byte_start());
                assert_eq!(range, rec.byte_range());
            }
            _ => panic!("streams of different shapes disagree on length"),
        }
    }
}

#[test]
fn rest_query_is_consistent_with_resuming() {
    let mut it = "ab\ncd".char_positions::<LineCol>();
    assert_eq!(it.as_str(), "ab\ncd");
    it.next();
    it.next();
    assert_eq!(it.as_str(), "\ncd");
    // Querying does not advance the iterator.
    assert_eq!(it.as_str(), "\ncd");
    // Going forward, the characters reported are the remainder, in order.
    let rest = it.as_str();
    let mut reported = String::new();
    while let Some((_, c)) = it.next() {
        reported.push(c);
    }
    assert_eq!(reported, rest);
    assert_eq!(it.as_str(), "");
}

#[test]
fn exhaustion_is_sticky() {
    let mut it = "x".char_positions::<Line>();
    assert_eq!(it.next(), Some((Line(1), 'x')));
    assert_eq!(it.next(), None);
    assert_eq!(it.next(), None);
    assert_eq!(it.next(), None);
    assert_eq!(it.as_str(), "");
}

#[test]
fn carriage_return_is_an_ordinary_character() {
    let mut it = "a\r\nb".char_positions::<LineCol>();
    assert_eq!(it.next(), Some((LineCol(1, 1), 'a')));
    assert_eq!(it.next(), Some((LineCol(1, 2), '\r')));
    assert_eq!(it.next(), Some((LineCol(1, 3), '\n')));
    assert_eq!(it.next(), Some((LineCol(2, 1), 'b')));
    assert_eq!(it.next(), None);
}

#[test]
fn trailing_newline_opens_an_empty_line() {
    let mut it = "a\n".char_positions::<LineCol>();
    assert_eq!(it.next(), Some((LineCol(1, 1), 'a')));
    assert_eq!(it.next(), Some((LineCol(1, 2), '\n')));
    assert_eq!(it.next(), None);
}

#[test]
fn collecting_equals_pulling_one_by_one() {
    let collected = TEXT.char_positions::<LineColByteRange>().collect_positions();
    let mut it = TEXT.char_positions::<LineColByteRange>();
    let mut pulled = Vec::new();
    while let Some(pair) = it.next() {
        pulled.push(pair);
    }
    assert_eq!(collected, pulled);
    assert_eq!(collected.len(), TEXT.chars().count());
}

#[test]
fn collecting_after_a_pull_takes_the_remainder() {
    let mut it = "a\nb".char_positions::<LineCol>();
    it.next();
    let collected = it.collect_positions();
    assert_eq!(collected, vec![(LineCol(1, 2), '\n'), (LineCol(2, 1), 'b')]);
}

#[test]
fn collecting_empty_text_gives_an_empty_vector() {
    let collected = "".char_positions::<LineCol>().collect_positions();
    assert_eq!(collected, Vec::new());
}

#[test]
fn independent_iterators_do_not_interfere() {
    let text = "ab";
    let mut first = text.char_positions::<Col>();
    let mut second = text.char_positions::<Col>();
    assert_eq!(first.next(), Some((Col(1), 'a')));
    assert_eq!(second.next(), Some((Col(1), 'a')));
    assert_eq!(first.next(), Some((Col(2), 'b')));
    assert_eq!(second.next(), Some((Col(2), 'b')));
}
