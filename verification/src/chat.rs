//! The chat transcript screen: lays out as many of the newest messages
//! as fit in a rectangular region, each message followed by a bold
//! separator line carrying a "Sent" or "Received" label.
//!
//! The row count of each message is estimated by word-wrapping its
//! space-separated words across the region's column span; messages are
//! then taken from the newest end while the estimate plus one separator
//! row per message still fits, and drawn top to bottom with the text and
//! line primitives.

use vstd::prelude::*;

verus! {

use crate::BOLD;
use crate::descriptor::BoxCharacterKey;
use crate::draw::{CellWrite, draw_line, line_cell, line_writes};
use crate::grid::TerminalGrid;
use crate::text::{draw_text, split_segments, split_spaces, text_writes};

/// The word-wrap fold behind the row estimate: the number of row breaks
/// that placing the words (the non-empty pieces of a message) takes,
/// starting from a row already holding `cur` columns.  Every word counts
/// its length plus one following space; a word that no longer fits opens
/// a new row.
pub open spec fn rows_from(segments: Seq<Seq<char>>, cur: int, width: int) -> int
    decreases segments.len(),
{
    if segments.len() == 0 {
        0
    } else if segments[0].len() == 0 {
        rows_from(segments.skip(1), cur, width)
    } else {
        let word = segments[0].len() as int + 1;
        if cur + word > width {
            1 + rows_from(segments.skip(1), word, width)
        } else {
            rows_from(segments.skip(1), cur + word, width)
        }
    }
}

/// The estimated number of rows a message occupies when word-wrapped
/// into the given column span.
pub open spec fn message_rows(message: Seq<char>, width: int) -> int {
    1 + rows_from(split_spaces(message), 0, width)
}

/// The row estimate of every message in the transcript.
pub open spec fn chat_rows(content: Seq<Seq<char>>, width: int) -> Seq<int> {
    Seq::new(content.len(), |i: int| message_rows(content[i], width))
}

/// How many messages, taken from the newest end, fit in `budget` rows
/// when each occupies its estimated rows plus one separator row.
pub open spec fn onscreen_count(rows: Seq<int>, budget: int) -> int
    decreases rows.len(),
{
    if rows.len() == 0 {
        0
    } else if rows.last() + 1 > budget {
        0
    } else {
        1 + onscreen_count(rows.drop_last(), budget - (rows.last() + 1))
    }
}

/// The rows that the messages from `idx` on occupy on screen: each one's
/// estimate plus its separator row.
pub open spec fn used_rows_from(rows: Seq<int>, idx: int) -> int
    decreases rows.len() - idx,
{
    if idx < rows.len() {
        rows[idx] + 1 + used_rows_from(rows, idx + 1)
    } else {
        0
    }
}

/// The separator label under a message: sent messages carry a leading
/// NUL marker.
pub open spec fn label_of(message: Seq<char>) -> Seq<char> {
    if message.len() > 0 && message[0] == '\u{0}' {
        "Sent"@
    } else {
        "Received"@
    }
}

/// The grid after a horizontal line lands on row `row`, cell by cell.
pub open spec fn hline_grid(
    g: Seq<Seq<BoxCharacterKey>>,
    row: int,
    column_start: int,
    column_end: int,
    style: u8,
) -> Seq<Seq<BoxCharacterKey>> {
    Seq::new(
        g.len(),
        |r: int| Seq::new(g[r].len(), |c: int| line_cell(g, r, c, column_start, column_end, row, row, style)),
    )
}

/// The writes the transcript emits for the messages from `idx` on, with
/// the first of them starting at `row`: each message's wrapped text,
/// then a bold separator line resolved against the grid as it stands at
/// that point, then the label on the separator row.
pub open spec fn chat_writes_from(
    g: Seq<Seq<BoxCharacterKey>>,
    content: Seq<Seq<char>>,
    idx: int,
    row: int,
    column_start: int,
    column_end: int,
) -> Seq<CellWrite>
    decreases content.len() - idx,
{
    if idx < content.len() {
        let rows = message_rows(content[idx], column_end - column_start);
        let line_row = row + rows;
        text_writes(content[idx], column_start, column_end, row, line_row) + line_writes(
            g,
            column_start,
            column_end,
            line_row,
            line_row,
            BOLD,
        ) + text_writes(label_of(content[idx]), column_start, column_end, line_row, line_row + 1)
            + chat_writes_from(
            hline_grid(g, line_row, column_start, column_end, BOLD),
            content,
            idx + 1,
            line_row + 1,
            column_start,
            column_end,
        )
    } else {
        Seq::empty()
    }
}

/// The grid after the separator lines of the messages from `idx` on have
/// merged into it (the text and the labels never touch the grid).
pub open spec fn chat_grid_from(
    g: Seq<Seq<BoxCharacterKey>>,
    content: Seq<Seq<char>>,
    idx: int,
    row: int,
    column_start: int,
    column_end: int,
) -> Seq<Seq<BoxCharacterKey>>
    decreases content.len() - idx,
{
    if idx < content.len() {
        let line_row = row + message_rows(content[idx], column_end - column_start);
        chat_grid_from(
            hline_grid(g, line_row, column_start, column_end, BOLD),
            content,
            idx + 1,
            line_row + 1,
            column_start,
            column_end,
        )
    } else {
        g
    }
}

/// The word-wrap fold never takes a negative number of row breaks.
proof fn lemma_rows_from_nonneg(segments: Seq<Seq<char>>, cur: int, width: int)
    ensures
        rows_from(segments, cur, width) >= 0,
    decreases segments.len(),
{
    if segments.len() > 0 {
        if segments[0].len() == 0 {
            lemma_rows_from_nonneg(segments.skip(1), cur, width);
        } else {
            let word = segments[0].len() as int + 1;
            if cur + word > width {
                lemma_rows_from_nonneg(segments.skip(1), word, width);
            } else {
                lemma_rows_from_nonneg(segments.skip(1), cur + word, width);
            }
        }
    }
}

/// A suffix of non-negative row estimates occupies a non-negative number
/// of screen rows.
proof fn lemma_used_rows_from_nonneg(rows: Seq<int>, idx: int)
    requires
        forall|i: int| idx <= i < rows.len() ==> rows[i] >= 0,
    ensures
        used_rows_from(rows, idx) >= 0,
    decreases rows.len() - idx,
{
    if idx < rows.len() {
        lemma_used_rows_from_nonneg(rows, idx + 1);
    }
}

/// Counts the rows that `message` occupies when word-wrapped into a span
/// of `width_span` columns: one row, plus one more for every word (with
/// its following space) that no longer fits on the current row.
fn count_rows(message: &str, width_span: u16) -> (rows: usize)
    requires
        message@.len() <= u16::MAX,
    ensures
        rows as int == message_rows(message@, width_span as int),
        rows <= message@.len() + 2,
{
    let ghost all_segments = split_spaces(message@);
    let segments = split_segments(message);
    let mut rows: usize = 1;
    let mut cur: usize = 0;
    let mut k: usize = 0;
    proof {
        assert(all_segments.skip(0) =~= all_segments);
    }
    while k < segments.len()
        invariant
            message@.len() <= u16::MAX,
            all_segments == segments@.map_values(
                |p: (usize, usize)| message@.subrange(p.0 as int, p.1 as int),
            ),
            forall|t: int|
                0 <= t < segments@.len()
                    ==> (#[trigger] segments@[t]).0 <= segments@[t].1 <= message@.len(),
            segments@.len() <= message@.len() + 1,
            k <= segments@.len(),
            rows <= 1 + k,
            cur <= 131072,
            1 + rows_from(all_segments, 0, width_span as int) == rows + rows_from(
                all_segments.skip(k as int),
                cur as int,
                width_span as int,
            ),
        decreases segments@.len() - k,
    {
        let segment = segments[k];
        let segment_len = segment.1 - segment.0;
        proof {
            assert(all_segments.skip(k as int)[0] == all_segments[k as int]);
            assert(all_segments[k as int] == message@.subrange(
                segments@[k as int].0 as int,
                segments@[k as int].1 as int,
            ));
            assert(all_segments.skip(k as int).skip(1) =~= all_segments.skip(k as int + 1));
        }
        if segment_len > 0 {
            let word = segment_len + 1;
            if cur + word > width_span as usize {
                rows = rows + 1;
                cur = word;
            } else {
                cur = cur + word;
            }
        }
        k = k + 1;
    }
    proof {
        assert(all_segments.skip(segments@.len() as int).len() == 0);
    }
    rows
}

/// Lays out as much of the transcript in `content` as fits in the given
/// region, newest messages preferred, and draws it top to bottom: each
/// message's wrapped text, a bold separator line merged into the grid,
/// and a "Sent" or "Received" label on the separator row (sent messages
/// carry a leading NUL marker).  Returns the pending screen writes in
/// emission order; only the separator lines touch the grid.
///
/// The region must be wider than the longest label, so that labels sit
/// on one row, and each message plus the region's left bound must stay
/// inside the terminal's coordinate space.
pub fn render_chat(
    terminal: &mut TerminalGrid,
    column_start: u16,
    column_end: u16,
    row_start: u16,
    row_end: u16,
    content: Vec<&str>,
    _rendered: (u16, u16),
) -> (writes: Vec<CellWrite>)
    requires
        old(terminal).wf(),
        column_end - column_start > 8,
        column_start <= column_end,
        row_start <= row_end,
        column_end <= old(terminal).width,
        row_end <= old(terminal).height,
        forall|i: int|
            0 <= i < content@.len() ==> (#[trigger] content@[i])@.len() + column_start
                <= u16::MAX,
    ensures
        final(terminal).wf(),
        final(terminal).width == old(terminal).width,
        final(terminal).height == old(terminal).height,
        ({
            let msgs = content@.map_values(|m: &str| m@);
            let rows = chat_rows(msgs, column_end - column_start);
            let start = msgs.len() - onscreen_count(rows, row_end - row_start);
            let top_row = row_end - used_rows_from(rows, start);
            &&& writes@ == chat_writes_from(
                old(terminal)@,
                msgs,
                start,
                top_row,
                column_start as int,
                column_end as int,
            )
            &&& final(terminal)@ == chat_grid_from(
                old(terminal)@,
                msgs,
                start,
                top_row,
                column_start as int,
                column_end as int,
            )
        }),
{
    let ghost msgs = content@.map_values(|m: &str| m@);
    let ghost rows = chat_rows(msgs, column_end - column_start);
    let width_span = column_end - column_start;
    let budget = (row_end - row_start) as usize;
    let count = content.len();

    // Estimate the wrapped row count of every message.
    let mut messages: Vec<usize> = Vec::new();
    let mut j: usize = 0;
    while j < count
        invariant
            count == content@.len(),
            msgs == content@.map_values(|m: &str| m@),
            rows == chat_rows(msgs, width_span as int),
            width_span == column_end - column_start,
            forall|i: int|
                0 <= i < content@.len() ==> (#[trigger] content@[i])@.len() + column_start
                    <= u16::MAX,
            messages@.len() == j <= count,
            forall|i: int| 0 <= i < j ==> (#[trigger] messages@[i]) as int == rows[i],
            forall|i: int| 0 <= i < j ==> (#[trigger] messages@[i]) <= 65537,
        decreases count - j,
    {
        let message: &str = content[j];
        let message_row_count = count_rows(message, width_span);
        messages.push(message_row_count);
        j = j + 1;
    }

    // Take messages from the newest end while they fit.
    let mut onscreen: usize = 0;
    let mut used: usize = 0;
    let mut stopped = false;
    proof {
        assert(used_rows_from(rows, count as int) == 0);
        assert(rows.take(count as int) =~= rows);
    }
    while onscreen < count && !stopped
        invariant
            count == content@.len(),
            count == messages@.len(),
            count == rows.len(),
            budget == row_end - row_start,
            forall|i: int| 0 <= i < count ==> (#[trigger] messages@[i]) as int == rows[i],
            forall|i: int| 0 <= i < count ==> (#[trigger] messages@[i]) <= 65537,
            onscreen <= count,
            used <= budget,
            used as int == used_rows_from(rows, count - onscreen),
            if stopped {
                onscreen_count(rows, budget as int) == onscreen
            } else {
                onscreen_count(rows, budget as int) == onscreen + onscreen_count(
                    rows.take(count - onscreen),
                    budget - used,
                )
            },
        decreases count - onscreen + (if stopped { 0int } else { 1int }),
    {
        let message_row_count = messages[count - 1 - onscreen];
        proof {
            assert(rows.take(count - onscreen as int).last() == rows[count - 1 - onscreen as int]);
            assert(rows.take(count - onscreen as int).drop_last() =~= rows.take(
                count - onscreen - 1 as int,
            ));
        }
        if used + message_row_count + 1 > budget {
            stopped = true;
        } else {
            used = used + message_row_count + 1;
            onscreen = onscreen + 1;
        }
    }
    proof {
        if !stopped {
            assert(rows.take(count - onscreen as int).len() == 0);
        }
        assert(onscreen_count(rows, budget as int) == onscreen);
    }

    // Draw the selected suffix top to bottom.
    let ghost g0 = old(terminal)@;
    let start = count - onscreen;
    let ghost top_row = row_end - used_rows_from(rows, start as int);
    let mut current_row: u16 = row_end - used as u16;
    let mut idx: usize = start;
    let mut writes: Vec<CellWrite> = Vec::new();
    proof {
        assert(forall|i: int| 0 <= i < count ==> #[trigger] rows[i] >= 1) by {
            assert forall|i: int| 0 <= i < count implies #[trigger] rows[i] >= 1 by {
                lemma_rows_from_nonneg(split_spaces(msgs[i]), 0, width_span as int);
            }
        }
        assert(writes@ + chat_writes_from(
            terminal@,
            msgs,
            start as int,
            current_row as int,
            column_start as int,
            column_end as int,
        ) =~= chat_writes_from(
            g0,
            msgs,
            start as int,
            top_row,
            column_start as int,
            column_end as int,
        ));
    }
    while idx < count
        invariant
            terminal.wf(),
            terminal.width == old(terminal).width,
            terminal.height == old(terminal).height,
            count == content@.len(),
            count == rows.len(),
            msgs == content@.map_values(|m: &str| m@),
            rows == chat_rows(msgs, width_span as int),
            width_span == column_end - column_start,
            width_span > 8,
            column_end <= terminal.width,
            row_end <= terminal.height,
            row_start <= row_end,
            forall|i: int|
                0 <= i < content@.len() ==> (#[trigger] content@[i])@.len() + column_start
                    <= u16::MAX,
            forall|i: int| 0 <= i < count ==> #[trigger] rows[i] >= 1,
            start <= idx <= count,
            current_row as int + used_rows_from(rows, idx as int) == row_end,
            chat_writes_from(
                g0,
                msgs,
                start as int,
                top_row,
                column_start as int,
                column_end as int,
            ) == writes@ + chat_writes_from(
                terminal@,
                msgs,
                idx as int,
                current_row as int,
                column_start as int,
                column_end as int,
            ),
            chat_grid_from(
                g0,
                msgs,
                start as int,
                top_row,
                column_start as int,
                column_end as int,
            ) == chat_grid_from(
                terminal@,
                msgs,
                idx as int,
                current_row as int,
                column_start as int,
                column_end as int,
            ),
        decreases count - idx,
    {
        let ghost g_before = terminal@;
        let ghost writes_at_entry = writes@;
        let message: &str = content[idx];
        proof {
            assert(msgs[idx as int] == message@);
            lemma_used_rows_from_nonneg(rows, idx as int + 1);
        }
        let message_row_count = count_rows(message, width_span);
        proof {
            assert(message_row_count as int == rows[idx as int]);
        }
        let message_rows_u16 = message_row_count as u16;
        let line_row = current_row + message_rows_u16;

        let mut text_part = draw_text(
            column_start,
            column_end,
            current_row,
            line_row,
            message,
        );
        writes.append(&mut text_part);

        let mut line_part = draw_line(terminal, column_start, column_end, line_row, line_row, BOLD);
        writes.append(&mut line_part);
        proof {
            assert(terminal@ =~~= hline_grid(
                g_before,
                line_row as int,
                column_start as int,
                column_end as int,
                BOLD,
            ));
        }

        let sent = message.unicode_len() > 0 && message.get_char(0) == '\u{0}';
        let label: &str = if sent {
            "Sent"
        } else {
            "Received"
        };
        proof {
            reveal_strlit("Sent");
            reveal_strlit("Received");
            assert(label@ == label_of(msgs[idx as int]));
        }
        let mut label_part = draw_text(column_start, column_end, line_row, line_row + 1, label);
        writes.append(&mut label_part);

        proof {
            let tw = text_writes(
                msgs[idx as int],
                column_start as int,
                column_end as int,
                current_row as int,
                line_row as int,
            );
            let lw = line_writes(
                g_before,
                column_start as int,
                column_end as int,
                line_row as int,
                line_row as int,
                BOLD,
            );
            let bw = text_writes(
                label_of(msgs[idx as int]),
                column_start as int,
                column_end as int,
                line_row as int,
                line_row as int + 1,
            );
            let rest = chat_writes_from(
                terminal@,
                msgs,
                idx as int + 1,
                line_row as int + 1,
                column_start as int,
                column_end as int,
            );
            assert(chat_writes_from(
                g_before,
                msgs,
                idx as int,
                current_row as int,
                column_start as int,
                column_end as int,
            ) == tw + lw + bw + rest);
            assert(writes@ == ((writes_at_entry + tw) + lw) + bw);
            assert(writes_at_entry + (((tw + lw) + bw) + rest) =~= writes@ + rest);
            assert(chat_grid_from(
                g_before,
                msgs,
                idx as int,
                current_row as int,
                column_start as int,
                column_end as int,
            ) == chat_grid_from(
                terminal@,
                msgs,
                idx as int + 1,
                line_row as int + 1,
                column_start as int,
                column_end as int,
            ));
        }
        current_row = line_row + 1;
        idx = idx + 1;
    }
    proof {
        assert(chat_writes_from(
            g0,
            msgs,
            start as int,
            top_row,
            column_start as int,
            column_end as int,
        ) =~= writes@);
    }
    writes
}

} // verus!
