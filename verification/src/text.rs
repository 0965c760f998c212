//! Clipped text placement.
//!
//! Text is written into a bounded rectangular region, left to right and
//! top to bottom.  A string that fits on one row is written as it is;
//! otherwise it is split at spaces and wrapped segment by segment, and
//! whatever would overflow the region's row budget is dropped rather than
//! scrolled.  Text never touches the grid's edge descriptors: it is a
//! pure stream of pending screen writes.

use vstd::prelude::*;

verus! {

use crate::draw::CellWrite;

/// Splits a character sequence at every space, keeping empty pieces, with
/// `piece` the piece accumulated so far.
pub open spec fn split_spaces_rec(s: Seq<char>, piece: Seq<char>) -> Seq<Seq<char>>
    decreases s.len(),
{
    if s.len() == 0 {
        seq![piece]
    } else if s[0] == ' ' {
        seq![piece] + split_spaces_rec(s.skip(1), Seq::empty())
    } else {
        split_spaces_rec(s.skip(1), piece.push(s[0]))
    }
}

/// The pieces of `s` between its spaces, in order.  Consecutive spaces
/// yield empty pieces, and a leading or trailing space yields an empty
/// first or last piece, exactly as splitting on a single-space separator
/// does.
pub open spec fn split_spaces(s: Seq<char>) -> Seq<Seq<char>> {
    split_spaces_rec(s, Seq::empty())
}

/// The pending write that places `glyph` at the given cell.
pub open spec fn write_at(column: int, row: int, glyph: char) -> CellWrite {
    CellWrite { column: column as u16, row: row as u16, glyph }
}

/// The characters of `s` written left to right from the given cell.
pub open spec fn run_writes(column: int, row: int, s: Seq<char>) -> Seq<CellWrite> {
    Seq::new(s.len(), |i: int| write_at(column + i, row, s[i]))
}

/// The wrap-mode layout.  Each segment is placed at the running column
/// position of the current row, followed by one space; a segment whose
/// length plus that space does not fit in what remains of the row is
/// moved to the start of the next row first.  As soon as the row budget
/// is used up, the remaining segments are dropped.
pub open spec fn wrap_writes(
    segments: Seq<Seq<char>>,
    column_count: int,
    row_count: int,
    width_span: int,
    height_span: int,
    column_start: int,
    row_start: int,
) -> Seq<CellWrite>
    decreases segments.len(),
{
    if segments.len() == 0 {
        Seq::empty()
    } else {
        let advance = segments[0].len() + 1;
        let wrapped = column_count + advance > width_span;
        let cc = if wrapped { 0 } else { column_count };
        let rc = if wrapped { row_count + 1 } else { row_count };
        if rc >= height_span {
            Seq::empty()
        } else {
            run_writes(column_start + cc, row_start + rc, segments[0].push(' ')) + wrap_writes(
                segments.skip(1),
                cc + advance,
                rc,
                width_span,
                height_span,
                column_start,
                row_start,
            )
        }
    }
}

/// Everything a text placement emits: the whole string on the region's
/// first row when it fits within the column span, and the wrapped layout
/// of its space-separated segments (each followed by one space) when it
/// does not.
pub open spec fn text_writes(
    text: Seq<char>,
    column_start: int,
    column_end: int,
    row_start: int,
    row_end: int,
) -> Seq<CellWrite> {
    if text.len() < column_end - column_start {
        run_writes(column_start, row_start, text)
    } else {
        wrap_writes(
            split_spaces(text),
            0,
            0,
            column_end - column_start,
            row_end - row_start,
            column_start,
            row_start,
        )
    }
}

/// Writes `text` into the rectangular region with the given
/// (exclusive-end) bounds and returns the pending screen writes in
/// emission order.  The grid is not involved: text placement has no edge
/// descriptors to merge.
///
/// A string shorter than the region's column span goes out unwrapped on
/// the first row.  Anything longer is split at spaces and wrapped, one
/// space after each segment; rows past the region's row budget are
/// dropped.  A single segment wider than the region overflows it to the
/// right, which is why the text's length plus the left bound must stay
/// inside the terminal's coordinate space.
pub fn draw_text(
    column_start: u16,
    column_end: u16,
    row_start: u16,
    row_end: u16,
    text: &str,
) -> (writes: Vec<CellWrite>)
    requires
        column_start <= column_end,
        row_start <= row_end,
        text@.len() + column_start <= u16::MAX,
    ensures
        writes@ == text_writes(
            text@,
            column_start as int,
            column_end as int,
            row_start as int,
            row_end as int,
        ),
{
    let length = text.unicode_len();
    let width_span = (column_end - column_start) as usize;
    let mut writes: Vec<CellWrite> = Vec::new();

    if length < width_span {
        let mut i: usize = 0;
        proof {
            assert(writes@ =~= run_writes(column_start as int, row_start as int, text@.take(0)));
        }
        while i < length
            invariant
                length == text@.len(),
                i <= length,
                length < width_span,
                width_span == column_end - column_start,
                column_start <= column_end,
                writes@ == run_writes(column_start as int, row_start as int, text@.take(i as int)),
            decreases length - i,
        {
            let glyph = text.get_char(i);
            writes.push(
                CellWrite { column: column_start + i as u16, row: row_start, glyph },
            );
            proof {
                assert(writes@ =~= run_writes(
                    column_start as int,
                    row_start as int,
                    text@.take(i as int + 1),
                ));
            }
            i = i + 1;
        }
        proof {
            assert(text@.take(length as int) =~= text@);
        }
        return writes;
    }

    let segments = split_segments(text);

    // Lay the segments out, wrapping where a segment and its trailing
    // space would overflow the column span.

    let ghost all_segments = split_spaces(text@);
    let height_span = row_end - row_start;
    let mut column_count: usize = 0;
    let mut row_count: u16 = 0;
    let mut k: usize = 0;
    proof {
        assert(all_segments.skip(0) =~= all_segments);
        assert(writes@ + wrap_writes(
            all_segments,
            0,
            0,
            width_span as int,
            height_span as int,
            column_start as int,
            row_start as int,
        ) =~= wrap_writes(
            all_segments,
            0,
            0,
            width_span as int,
            height_span as int,
            column_start as int,
            row_start as int,
        ));
    }
    while k < segments.len()
        invariant
            length == text@.len(),
            length + column_start <= u16::MAX,
            column_start <= column_end,
            row_start <= row_end,
            width_span == column_end - column_start,
            height_span == row_end - row_start,
            all_segments == segments@.map_values(
                |p: (usize, usize)| text@.subrange(p.0 as int, p.1 as int),
            ),
            forall|t: int|
                0 <= t < segments@.len()
                    ==> (#[trigger] segments@[t]).0 <= segments@[t].1 <= length,
            k <= segments@.len(),
            column_count <= 65536,
            row_count < height_span || row_count == 0,
            text_writes(
                text@,
                column_start as int,
                column_end as int,
                row_start as int,
                row_end as int,
            ) == writes@ + wrap_writes(
                all_segments.skip(k as int),
                column_count as int,
                row_count as int,
                width_span as int,
                height_span as int,
                column_start as int,
                row_start as int,
            ),
        decreases segments@.len() - k,
    {
        let segment = segments[k];
        let segment_len = segment.1 - segment.0;
        let advance = segment_len + 1;
        let ghost cc0 = column_count as int;
        let ghost rc0 = row_count as int;
        proof {
            assert(all_segments.skip(k as int)[0] == all_segments[k as int]);
            assert(all_segments[k as int] == text@.subrange(
                segments@[k as int].0 as int,
                segments@[k as int].1 as int,
            ));
            assert(all_segments.skip(k as int).skip(1) =~= all_segments.skip(k as int + 1));
        }
        if column_count + advance > width_span {
            column_count = 0;
            row_count = row_count + 1;
        }
        if row_count >= height_span {
            proof {
                assert(wrap_writes(
                    all_segments.skip(k as int),
                    cc0,
                    rc0,
                    width_span as int,
                    height_span as int,
                    column_start as int,
                    row_start as int,
                ) == Seq::<CellWrite>::empty());
                assert(writes@ + Seq::<CellWrite>::empty() =~= writes@);
            }
            return writes;
        }
        let base_column = column_start + column_count as u16;
        let row = row_start + row_count;
        let ghost writes_before = writes@;
        let ghost piece = all_segments[k as int];
        let mut j: usize = segment.0;
        proof {
            assert(writes@ =~= writes_before + run_writes(
                base_column as int,
                row as int,
                piece.take(0),
            ));
        }
        while j < segment.1
            invariant
                length == text@.len(),
                length + column_start <= u16::MAX,
                segment.0 <= j <= segment.1 <= length,
                piece == text@.subrange(segment.0 as int, segment.1 as int),
                base_column + (segment.1 - segment.0) <= u16::MAX,
                writes@ == writes_before + run_writes(
                    base_column as int,
                    row as int,
                    piece.take(j - segment.0),
                ),
            decreases segment.1 - j,
        {
            let glyph = text.get_char(j);
            writes.push(
                CellWrite { column: base_column + (j - segment.0) as u16, row, glyph },
            );
            proof {
                assert(piece[j - segment.0] == text@[j as int]);
                assert(writes@ =~= writes_before + run_writes(
                    base_column as int,
                    row as int,
                    piece.take(j - segment.0 + 1),
                ));
            }
            j = j + 1;
        }
        writes.push(
            CellWrite { column: base_column + segment_len as u16, row, glyph: ' ' },
        );
        proof {
            assert(piece.take(piece.len() as int) =~= piece);
            assert(writes@ =~= writes_before + run_writes(
                base_column as int,
                row as int,
                piece.push(' '),
            ));
        }
        column_count = column_count + advance;
        proof {
            assert(wrap_writes(
                all_segments.skip(k as int),
                cc0,
                rc0,
                width_span as int,
                height_span as int,
                column_start as int,
                row_start as int,
            ) == run_writes(base_column as int, row as int, piece.push(' ')) + wrap_writes(
                all_segments.skip(k as int + 1),
                column_count as int,
                row_count as int,
                width_span as int,
                height_span as int,
                column_start as int,
                row_start as int,
            ));
            assert(writes_before + (run_writes(base_column as int, row as int, piece.push(' '))
                + wrap_writes(
                all_segments.skip(k as int + 1),
                column_count as int,
                row_count as int,
                width_span as int,
                height_span as int,
                column_start as int,
                row_start as int,
            )) =~= writes@ + wrap_writes(
                all_segments.skip(k as int + 1),
                column_count as int,
                row_count as int,
                width_span as int,
                height_span as int,
                column_start as int,
                row_start as int,
            ));
        }
        k = k + 1;
    }
    proof {
        assert(all_segments.skip(segments@.len() as int).len() == 0);
        assert(writes@ + wrap_writes(
            all_segments.skip(segments@.len() as int),
            column_count as int,
            row_count as int,
            width_span as int,
            height_span as int,
            column_start as int,
            row_start as int,
        ) =~= writes@);
    }
    writes
}


/// Splits `text` at its spaces into character index ranges, one pair per
/// piece of `split_spaces`, in order.
pub(crate) fn split_segments(text: &str) -> (segments: Vec<(usize, usize)>)
    ensures
        segments@.map_values(|p: (usize, usize)| text@.subrange(p.0 as int, p.1 as int))
            == split_spaces(text@),
        forall|k: int|
            0 <= k < segments@.len() ==> (#[trigger] segments@[k]).0 <= segments@[k].1
                <= text@.len(),
        segments@.len() <= text@.len() + 1,
{
    let length = text.unicode_len();
    // Split the text at its spaces into character index ranges.
    let mut segments: Vec<(usize, usize)> = Vec::new();
    let mut piece_start: usize = 0;
    let mut i: usize = 0;
    proof {
        assert(text@.skip(0) =~= text@);
        assert(text@.subrange(0, 0) =~= Seq::<char>::empty());
        assert(segments@.map_values(
            |p: (usize, usize)| text@.subrange(p.0 as int, p.1 as int),
        ) =~= Seq::<Seq<char>>::empty());
        assert(Seq::<Seq<char>>::empty() + split_spaces_rec(text@, Seq::<char>::empty())
            =~= split_spaces_rec(text@, Seq::<char>::empty()));
    }
    while i < length
        invariant
            length == text@.len(),
            piece_start <= i <= length,
            segments@.len() <= i,
            forall|k: int|
                0 <= k < segments@.len()
                    ==> (#[trigger] segments@[k]).0 <= segments@[k].1 <= length,
            split_spaces(text@) == segments@.map_values(
                |p: (usize, usize)| text@.subrange(p.0 as int, p.1 as int),
            ) + split_spaces_rec(
                text@.skip(i as int),
                text@.subrange(piece_start as int, i as int),
            ),
        decreases length - i,
    {
        let ghost done = segments@.map_values(
            |p: (usize, usize)| text@.subrange(p.0 as int, p.1 as int),
        );
        proof {
            assert(text@.skip(i as int).len() == length - i);
            assert(text@.skip(i as int)[0] == text@[i as int]);
            assert(text@.skip(i as int).skip(1) =~= text@.skip(i as int + 1));
        }
        let c = text.get_char(i);
        if c == ' ' {
            segments.push((piece_start, i));
            proof {
                assert(segments@.map_values(
                    |p: (usize, usize)| text@.subrange(p.0 as int, p.1 as int),
                ) =~= done.push(text@.subrange(piece_start as int, i as int)));
                assert(done.push(text@.subrange(piece_start as int, i as int))
                    + split_spaces_rec(text@.skip(i as int + 1), Seq::empty()) =~= done + (seq![
                    text@.subrange(piece_start as int, i as int),
                ] + split_spaces_rec(text@.skip(i as int + 1), Seq::empty())));
            }
            piece_start = i + 1;
            proof {
                assert(text@.subrange(piece_start as int, i as int + 1) =~= Seq::<char>::empty());
            }
        } else {
            proof {
                assert(text@.subrange(piece_start as int, i as int).push(text@[i as int])
                    =~= text@.subrange(piece_start as int, i as int + 1));
            }
        }
        i = i + 1;
    }
    segments.push((piece_start, length));
    proof {
        assert(text@.skip(length as int).len() == 0);
        assert(split_spaces(text@) =~= segments@.map_values(
            |p: (usize, usize)| text@.subrange(p.0 as int, p.1 as int),
        ));
    }


    segments
}

} // verus!
