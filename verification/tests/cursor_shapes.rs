use desktop_probe::cursor::{get_cursor_shape, CursorShape, DefaultCursors};

fn distinct_cursors() -> DefaultCursors {
    DefaultCursors {
        arrow: 65539,
        ibeam: 65541,
        wait: 65543,
        cross: 65545,
        up_arrow: 65547,
        size_nwse: 65549,
        size_nesw: 65551,
        size_we: 65553,
        size_ns: 65555,
        size_all: 65557,
        no: 65559,
        hand: 65567,
        appstarting: 65561,
        help: 65563,
        pin: 65565,
        person: 65569,
    }
}

#[test]
fn each_cached_handle_gets_its_shape() {
    let cursors = distinct_cursors();
    let expected = [
        (cursors.arrow, CursorShape::Arrow),
        (cursors.ibeam, CursorShape::IBeam),
        (cursors.wait, CursorShape::Wait),
        (cursors.cross, CursorShape::Crosshair),
        (cursors.up_arrow, CursorShape::ResizeUp),
        (cursors.size_we, CursorShape::ResizeLeftRight),
        (cursors.size_ns, CursorShape::ResizeUpDown),
        (cursors.size_nwse, CursorShape::ResizeUpLeftAndDownRight),
        (cursors.size_nesw, CursorShape::ResizeUpRightAndDownLeft),
        (cursors.size_all, CursorShape::ResizeAll),
        (cursors.hand, CursorShape::OpenHand),
        (cursors.no, CursorShape::NotAllowed),
        (cursors.appstarting, CursorShape::Appstarting),
        (cursors.help, CursorShape::Help),
    ];
    for (handle, shape) in expected {
        assert_eq!(cursors.classify(handle), shape);
        assert_eq!(get_cursor_shape(&cursors, Some(handle)), shape);
    }
}

#[test]
fn pin_and_person_are_an_open_hand() {
    let cursors = distinct_cursors();
    assert_eq!(cursors.classify(cursors.pin), CursorShape::OpenHand);
    assert_eq!(cursors.classify(cursors.person), CursorShape::OpenHand);
    assert_eq!(cursors.classify(cursors.hand), CursorShape::OpenHand);
}

#[test]
fn handle_in_no_entry_is_hidden() {
    let cursors = distinct_cursors();
    assert_eq!(cursors.classify(0), CursorShape::Hidden);
    assert_eq!(cursors.classify(2), CursorShape::Hidden);
    assert_eq!(cursors.classify(-1), CursorShape::Hidden);
    assert_eq!(get_cursor_shape(&cursors, Some(0)), CursorShape::Hidden);
}

#[test]
fn failed_query_is_unknown() {
    let cursors = distinct_cursors();
    assert_eq!(get_cursor_shape(&cursors, None), CursorShape::Unknown);
}

#[test]
fn earlier_entry_wins_where_handles_coincide() {
    let mut cursors = distinct_cursors();
    cursors.ibeam = cursors.arrow;
    cursors.person = cursors.help;
    assert_eq!(cursors.classify(cursors.ibeam), CursorShape::Arrow);
    assert_eq!(cursors.classify(cursors.person), CursorShape::Help);
}

#[test]
fn null_handle_in_the_table_is_matched_like_any_other() {
    let mut cursors = distinct_cursors();
    cursors.wait = 0;
    assert_eq!(get_cursor_shape(&cursors, Some(0)), CursorShape::Wait);
}
