use boxgrid::chat::render_chat;
use boxgrid::descriptor::BoxCharacterKey;
use boxgrid::draw::CellWrite;
use boxgrid::grid::initialize;

fn w(column: u16, row: u16, glyph: char) -> CellWrite {
    CellWrite { column, row, glyph }
}

#[test]
fn chat_places_message_separator_and_label() {
    let mut terminal = initialize(20, 10);
    let writes = render_chat(&mut terminal, 0, 10, 0, 5, vec!["hi"], (0, 0));

    // One message of one row plus its separator: drawn at the bottom of
    // the region, rows 3 (text) and 4 (line and label).
    let mut expected = vec![w(0, 3, 'h'), w(1, 3, 'i')];
    // The bold separator line: its endpoint cells keep no outward stub,
    // and a bare bold half-edge has no glyph in the regular subset.
    expected.push(w(0, 4, ' '));
    for column in 1..9u16 {
        expected.push(w(column, 4, '━'));
    }
    expected.push(w(9, 4, ' '));
    // The label overwrites the start of the separator row.
    for (i, glyph) in "Received".chars().enumerate() {
        expected.push(w(i as u16, 4, glyph));
    }
    assert_eq!(writes, expected);

    // Only the separator line went into the grid.
    assert_eq!(
        terminal.cell(4, 3),
        BoxCharacterKey { up: 0, down: 0, left: 3, right: 3, dashes: 0, special: false },
    );
    assert_eq!(
        terminal.cell(3, 0),
        BoxCharacterKey { up: 0, down: 0, left: 0, right: 0, dashes: 0, special: false },
    );
}

#[test]
fn chat_labels_nul_prefixed_messages_as_sent() {
    let mut terminal = initialize(20, 10);
    let writes = render_chat(&mut terminal, 0, 10, 0, 5, vec!["\u{0}ok"], (0, 0));

    assert_eq!(writes[0], w(0, 3, '\u{0}'));
    assert_eq!(writes[1], w(1, 3, 'o'));
    assert_eq!(writes[2], w(2, 3, 'k'));
    let label: String = writes[writes.len() - 4..].iter().map(|cw| cw.glyph).collect();
    assert_eq!(label, "Sent");
}

#[test]
fn chat_keeps_newest_messages_when_short_of_rows() {
    let mut terminal = initialize(20, 10);
    // Two rows fit exactly one message with its separator.
    let writes = render_chat(&mut terminal, 0, 10, 0, 2, vec!["aaa", "bb"], (0, 0));

    assert_eq!(writes[0], w(0, 0, 'b'));
    assert_eq!(writes[1], w(1, 0, 'b'));
    assert!(writes.iter().all(|cw| cw.glyph != 'a'));
}

#[test]
fn chat_with_nothing_fitting_emits_nothing() {
    let mut terminal = initialize(20, 10);
    let writes = render_chat(&mut terminal, 0, 10, 3, 3, vec!["hello"], (0, 0));
    assert_eq!(writes, vec![]);
    assert_eq!(terminal.cell(3, 0).right, 0);
}

#[test]
fn chat_wraps_long_messages_in_row_estimate() {
    let mut terminal = initialize(30, 12);
    // Width 9: "one two three" wraps as "one two " / "three ", two rows,
    // so text sits on rows 3 and 4, the separator on row 5.
    let writes = render_chat(&mut terminal, 0, 9, 0, 6, vec!["one two three"], (0, 0));

    assert_eq!(writes[0], w(0, 3, 'o'));
    let t = writes
        .iter()
        .find(|cw| cw.glyph == 't' && cw.row == 4)
        .expect("wrapped word on its own row");
    assert_eq!(t.column, 0);
    assert_eq!(terminal.cell(5, 4).left, 3);
}

#[test]
fn chat_with_no_messages_emits_nothing() {
    let mut terminal = initialize(20, 10);
    let writes = render_chat(&mut terminal, 0, 10, 0, 5, vec![], (0, 0));
    assert_eq!(writes, vec![]);
}
