use hecto::{
    Buffer, Command, DecodeError, Direction, Editor, InputEvent, Key, Line, Location, Modifiers,
    Position, Size, View,
};

fn full(line: &Line) -> String {
    line.get_graphems(0..usize::MAX)
}

fn control() -> Modifiers {
    Modifiers { control: true, ..Modifiers::default() }
}

fn key(key: Key) -> InputEvent {
    InputEvent::Key { key, modifiers: Modifiers::default() }
}

fn drained(size: Size, contents: &str) -> View {
    let mut view = View::default(size);
    view.load_file(contents);
    view.render("hecto", "0.1.0");
    view
}

#[test]
fn graphemes_are_counted_as_clusters() {
    assert_eq!(Line::from("héllo").grapheme_len(), 5);
    assert_eq!(Line::from("a\u{310}e\u{301}o").grapheme_len(), 3);
    assert_eq!(Line::from("").grapheme_len(), 0);
}

#[test]
fn width_until_sums_cells() {
    let line = Line::from("a日b");
    assert_eq!(line.width_until(0), 0);
    assert_eq!(line.width_until(1), 1);
    assert_eq!(line.width_until(2), 3);
    assert_eq!(line.width_until(3), 4);
    assert_eq!(line.width_until(10), 4);
}

#[test]
fn tab_renders_as_one_space() {
    let line = Line::from("\tx");
    assert_eq!(line.width_until(1), 1);
    assert_eq!(full(&line), " x");
}

#[test]
fn other_whitespace_renders_as_open_box() {
    let line = Line::from("a\u{a0}b\u{3000}");
    assert_eq!(full(&line), "a␣b␣");
    assert_eq!(line.width_until(4), 4);
}

#[test]
fn zero_width_renders_as_middle_dot() {
    let line = Line::from("a\u{200b}b");
    assert_eq!(line.grapheme_len(), 3);
    assert_eq!(full(&line), "a·b");
    assert_eq!(line.width_until(3), 3);
}

#[test]
fn plain_space_is_kept() {
    assert_eq!(full(&Line::from("a b")), "a b");
}

#[test]
fn wide_graphemes_are_clipped_at_range_edges() {
    let line = Line::from("日本");
    assert_eq!(line.get_graphems(0..4), "日本");
    assert_eq!(line.get_graphems(1..4), "·本");
    assert_eq!(line.get_graphems(0..3), "日·");
    assert_eq!(line.get_graphems(1..3), "··");
}

#[test]
fn render_outside_fragments_is_empty() {
    let line = Line::from("ab");
    assert_eq!(line.get_graphems(2..10), "");
    assert_eq!(line.get_graphems(5..9), "");
    assert_eq!(line.get_graphems(1..1), "");
    assert_eq!(line.get_graphems(3..1), "");
}

#[test]
fn render_huge_range_is_full_render() {
    let line = Line::from("a日\tb");
    assert_eq!(line.get_graphems(0..usize::MAX), line.get_graphems(0..5));
    assert_eq!(line.get_graphems(0..usize::MAX), "a日 b");
}

#[test]
fn render_middle_range() {
    let line = Line::from("abcdef");
    assert_eq!(line.get_graphems(2..4), "cd");
}

#[test]
fn insert_at_adds_one_grapheme() {
    let mut line = Line::from("ac");
    line.insert_at(1, 'b');
    assert_eq!(line.grapheme_len(), 3);
    assert_eq!(line.get_graphems(0..3), "abc");
    line.insert_at(0, '>');
    line.insert_at(4, '<');
    assert_eq!(line.get_graphems(0..5), ">abc<");
}

#[test]
fn insert_at_classifies_the_new_character() {
    let mut line = Line::from("ab");
    line.insert_at(1, '\t');
    assert_eq!(line.grapheme_len(), 3);
    assert_eq!(line.get_graphems(0..3), "a b");
    line.insert_at(3, '日');
    assert_eq!(line.width_until(4), 5);
}

#[test]
fn combining_mark_inserted_stays_its_own_grapheme() {
    let mut line = Line::from("e");
    line.insert_at(1, '\u{301}');
    assert_eq!(line.grapheme_len(), 2);
}

#[test]
fn load_round_trip() {
    let mut buffer = Buffer::new();
    buffer.load_file("ab\n\nhéllo");
    assert_eq!(buffer.total_lines(), 3);
    assert_eq!(full(&buffer.lines[0]), "ab");
    assert_eq!(full(&buffer.lines[1]), "");
    assert_eq!(full(&buffer.lines[2]), "héllo");
}

#[test]
fn load_drops_final_newline_and_carriage_returns() {
    let mut buffer = Buffer::new();
    buffer.load_file("a\r\nb\n");
    assert_eq!(buffer.total_lines(), 2);
    assert_eq!(full(&buffer.lines[0]), "a");
    assert_eq!(full(&buffer.lines[1]), "b");

    let mut blank = Buffer::new();
    blank.load_file("x\n\n");
    assert_eq!(blank.total_lines(), 2);

    let mut empty = Buffer::new();
    empty.load_file("");
    assert!(empty.is_empty());
    assert_eq!(empty.total_lines(), 0);
}

#[test]
fn buffer_insert_past_end_adds_a_line() {
    let mut buffer = Buffer::new();
    buffer.insert_at(Location { grapheme_index: 0, line_index: 0 }, 'x');
    assert_eq!(buffer.total_lines(), 1);
    assert_eq!(full(&buffer.lines[0]), "x");
    buffer.insert_at(Location { grapheme_index: 0, line_index: 0 }, 'w');
    assert_eq!(full(&buffer.lines[0]), "wx");
    buffer.insert_at(Location { grapheme_index: 0, line_index: 5 }, 'y');
    assert_eq!(buffer.total_lines(), 2);
    assert_eq!(full(&buffer.lines[1]), "y");
}

#[test]
fn control_q_decodes_to_quit() {
    let event = InputEvent::Key { key: Key::Char('q'), modifiers: control() };
    assert_eq!(Command::try_from(event), Ok(Command::Quit));
}

#[test]
fn other_keys_are_unsupported() {
    assert_eq!(Command::try_from(key(Key::Char('q'))), Err(DecodeError::UnsupportedKey));
    let both = Modifiers { control: true, shift: true, ..Modifiers::default() };
    let event = InputEvent::Key { key: Key::Char('q'), modifiers: both };
    assert_eq!(Command::try_from(event), Err(DecodeError::UnsupportedKey));
    assert_eq!(Command::try_from(key(Key::Other)), Err(DecodeError::UnsupportedKey));
    assert_eq!(Command::try_from(InputEvent::Other), Err(DecodeError::UnsupportedEvent));
}

#[test]
fn navigation_keys_decode_to_moves() {
    let pairs = [
        (Key::Up, Direction::Up),
        (Key::Down, Direction::Down),
        (Key::Left, Direction::Left),
        (Key::Right, Direction::Right),
        (Key::PageUp, Direction::PageUp),
        (Key::PageDown, Direction::PageDown),
        (Key::Home, Direction::Home),
        (Key::End, Direction::End),
    ];
    for (k, d) in pairs {
        assert_eq!(Command::try_from(key(k)), Ok(Command::Move(d)));
    }
}

#[test]
fn resize_decodes_with_its_size() {
    assert_eq!(
        Command::try_from(InputEvent::Resize(80, 24)),
        Ok(Command::Resize(Size { width: 80, height: 24 }))
    );
}

#[test]
fn moving_right_scrolls_horizontally() {
    let mut view = drained(Size { width: 10, height: 5 }, "aaaaaaaaaaaaaaaaaaaa");
    assert!(!view.needs_redraw());
    for _ in 0..12 {
        view.move_location(Direction::Right);
    }
    assert_eq!(view.offset(), Position { col: 3, row: 0 });
    assert!(view.needs_redraw());
    assert_eq!(view.caret_position(), Position { col: 9, row: 0 });
}

#[test]
fn moves_inside_view_need_no_redraw() {
    let mut view = drained(Size { width: 10, height: 5 }, "abc\ndef");
    view.move_location(Direction::Right);
    view.move_location(Direction::Down);
    assert_eq!(view.location(), Location { grapheme_index: 1, line_index: 1 });
    assert!(!view.needs_redraw());
    assert_eq!(view.caret_position(), Position { col: 1, row: 1 });
}

#[test]
fn moving_left_scrolls_back() {
    let mut view = drained(Size { width: 10, height: 5 }, "aaaaaaaaaaaaaaaaaaaa");
    view.move_location(Direction::End);
    assert_eq!(view.offset().col, 11);
    view.move_location(Direction::Home);
    assert_eq!(view.offset().col, 0);
}

#[test]
fn moving_down_scrolls_vertically() {
    let mut view = drained(Size { width: 10, height: 3 }, "1\n2\n3\n4\n5\n6");
    view.move_location(Direction::Down);
    view.move_location(Direction::Down);
    assert_eq!(view.offset().row, 0);
    view.move_location(Direction::Down);
    assert_eq!(view.offset().row, 1);
    assert_eq!(view.caret_position(), Position { col: 0, row: 2 });
}

#[test]
fn vertical_moves_clamp() {
    let mut view = drained(Size { width: 10, height: 5 }, "abcdef\nxy");
    view.move_location(Direction::End);
    view.move_location(Direction::Down);
    assert_eq!(view.location(), Location { grapheme_index: 2, line_index: 1 });
    view.move_location(Direction::Down);
    assert_eq!(view.location(), Location { grapheme_index: 0, line_index: 2 });
    view.move_location(Direction::Down);
    assert_eq!(view.location(), Location { grapheme_index: 0, line_index: 2 });
    view.move_location(Direction::Up);
    view.move_location(Direction::Up);
    view.move_location(Direction::Up);
    assert_eq!(view.location(), Location { grapheme_index: 0, line_index: 0 });
}

#[test]
fn horizontal_moves_wrap_between_lines() {
    let mut view = drained(Size { width: 10, height: 5 }, "ab\ncd");
    view.move_location(Direction::End);
    view.move_location(Direction::Right);
    assert_eq!(view.location(), Location { grapheme_index: 0, line_index: 1 });
    view.move_location(Direction::Left);
    assert_eq!(view.location(), Location { grapheme_index: 2, line_index: 0 });
}

#[test]
fn paging_moves_by_height_less_one() {
    let mut view = drained(Size { width: 10, height: 4 }, "0\n1\n2\n3\n4\n5\n6\n7");
    view.move_location(Direction::PageDown);
    assert_eq!(view.location().line_index, 3);
    view.move_location(Direction::PageDown);
    assert_eq!(view.location().line_index, 6);
    assert_eq!(view.offset().row, 3);
    view.move_location(Direction::PageUp);
    assert_eq!(view.location().line_index, 3);
}

#[test]
fn render_twice_draws_once() {
    let mut view = View::default(Size { width: 20, height: 4 });
    view.load_file("hello");
    let first = view.render("hecto", "0.1.0");
    assert_eq!(first.len(), 4);
    assert!(!view.needs_redraw());
    let second = view.render("hecto", "0.1.0");
    assert!(second.is_empty());
    assert!(!view.needs_redraw());
}

#[test]
fn empty_buffer_shows_banner() {
    let mut view = View::default(Size { width: 80, height: 24 });
    let rows = view.render("hecto", "0.1.0");
    assert_eq!(rows.len(), 24);
    let title = "hecto -- version 0.1.0";
    let banner = format!("~{}{}", " ".repeat((80 - title.len()) / 2), title);
    for (i, row) in rows.iter().enumerate() {
        if i == 16 {
            assert_eq!(row, &banner);
        } else {
            assert_eq!(row, "~");
        }
    }
}

#[test]
fn banner_wider_than_terminal_is_a_tilde() {
    let mut view = View::default(Size { width: 10, height: 3 });
    let rows = view.render("hecto", "0.1.0");
    assert_eq!(rows, vec!["~".to_string(), "~".to_string(), "~".to_string()]);
}

#[test]
fn zero_sized_view_draws_nothing() {
    let mut view = View::default(Size { width: 0, height: 5 });
    assert!(view.render("hecto", "0.1.0").is_empty());
    assert!(view.needs_redraw());
}

#[test]
fn render_shows_lines_then_tildes() {
    let mut view = View::default(Size { width: 4, height: 3 });
    view.load_file("abcdef\n日本");
    let rows = view.render("hecto", "0.1.0");
    assert_eq!(rows, vec!["abcd".to_string(), "日本".to_string(), "~".to_string()]);
}

#[test]
fn insert_command_types_a_character() {
    let mut view = drained(Size { width: 10, height: 3 }, "");
    view.command_handler(Command::Insert('x'));
    assert_eq!(view.location(), Location { grapheme_index: 1, line_index: 0 });
    assert!(view.needs_redraw());
    view.command_handler(Command::Insert('y'));
    let rows = view.render("hecto", "0.1.0");
    assert_eq!(rows[0], "xy");
}

#[test]
fn resize_command_asks_for_redraw() {
    let mut view = drained(Size { width: 10, height: 3 }, "a");
    view.command_handler(Command::Resize(Size { width: 20, height: 6 }));
    assert_eq!(view.size(), Size { width: 20, height: 6 });
    assert!(view.needs_redraw());
    view.command_handler(Command::Quit);
    assert_eq!(view.render("hecto", "0.1.0").len(), 6);
}

#[test]
fn quit_event_ends_the_loop_without_drawing() {
    let mut editor = Editor::new(View::default(Size { width: 20, height: 4 }));
    let (rows, _) = editor.refresh_screen("hecto", "0.1.0");
    assert_eq!(rows.len(), 4);
    assert!(!editor.should_quit());
    editor.evaluate_event(InputEvent::Key { key: Key::Char('q'), modifiers: control() });
    assert!(editor.should_quit());
    let (rows, caret) = editor.refresh_screen("hecto", "0.1.0");
    assert!(rows.is_empty());
    assert_eq!(caret, Position { col: 0, row: 0 });
}

#[test]
fn unsupported_event_is_ignored() {
    let mut editor = Editor::new(View::default(Size { width: 20, height: 4 }));
    editor.refresh_screen("hecto", "0.1.0");
    editor.evaluate_event(key(Key::Char('a')));
    assert!(!editor.should_quit());
    assert!(editor.refresh_screen("hecto", "0.1.0").0.is_empty());
}

#[test]
fn position_subtract() {
    let p = Position { col: 7, row: 4 }.subtract(&Position { col: 3, row: 1 });
    assert_eq!(p, Position { col: 4, row: 3 });
}
