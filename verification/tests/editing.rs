use modal_editor::buffer::Buffer;
use modal_editor::cursor::{Cursor, Pending, Purpose};
use modal_editor::editor::Editor;
use modal_editor::exec::Outcome;
use modal_editor::key::{Inst, Key, KeyState};
use modal_editor::mode::{CommandMode, InsertMode, InsertOptions, Mode, PrimitiveMode};
use modal_editor::redraw::RedrawTask;
use modal_editor::text::invert;

fn edit_on(lines: &[&str]) -> Editor {
    Editor::new(Buffer::from_lines(lines.iter().map(|l| l.chars().collect()).collect()))
}

fn hit(editor: &mut Editor, c: char) -> Outcome {
    editor.exec(Inst::plain(Key::Char(c)))
}

fn hit_n(editor: &mut Editor, n: usize, c: char) -> Outcome {
    editor.exec(Inst::counted(n, Key::Char(c)))
}

fn lines_of(editor: &Editor) -> Vec<String> {
    (0..editor.buffer().len()).map(|y| editor.buffer().line(y).into_iter().collect()).collect()
}

fn chars(s: &str) -> Vec<char> {
    s.chars().collect()
}

fn buffer_lines(buffer: &Buffer) -> Vec<String> {
    (0..buffer.len()).map(|y| buffer.line(y).into_iter().collect()).collect()
}

const M_NORMAL: Mode = Mode::Command(CommandMode::Normal);
const M_INSERT: Mode = Mode::Primitive(PrimitiveMode::Insert(InsertOptions { mode: InsertMode::Insert }));
const M_REPLACE: Mode = Mode::Primitive(PrimitiveMode::Insert(InsertOptions { mode: InsertMode::Replace }));

#[test]
fn i_enters_insert_mode_where_the_cursor_stands() {
    let mut editor = edit_on(&["abc"]);
    editor.goto((1, 0));
    assert_eq!(hit(&mut editor, 'i'), Outcome::Done);
    assert_eq!(editor.mode(), M_INSERT);
    assert_eq!(editor.pos(), (1, 0));
    assert_eq!(lines_of(&editor), vec!["abc"]);
    assert_eq!(editor.redraw_task(), RedrawTask::Null);
}

#[test]
fn a_enters_insert_mode_one_column_to_the_right() {
    let mut editor = edit_on(&["abc", ""]);
    editor.goto((2, 0));
    hit(&mut editor, 'a');
    assert_eq!(editor.mode(), M_INSERT);
    assert_eq!(editor.pos(), (3, 0));
    let mut editor = edit_on(&["abc", ""]);
    hit(&mut editor, 'a');
    assert_eq!(editor.pos(), (1, 0));
    let mut editor = edit_on(&[""]);
    hit(&mut editor, 'a');
    assert_eq!(editor.pos(), (0, 0));
    assert_eq!(editor.mode(), M_INSERT);
}

#[test]
fn capital_r_enters_replace_mode() {
    let mut editor = edit_on(&["abc"]);
    editor.goto((1, 0));
    hit(&mut editor, 'R');
    assert_eq!(editor.mode(), M_REPLACE);
    assert_eq!(editor.pos(), (1, 0));
}

#[test]
fn o_opens_a_line_with_the_indentation_of_the_line_above() {
    let mut editor = edit_on(&["  foo", "bar"]);
    editor.goto((3, 0));
    assert_eq!(hit(&mut editor, 'o'), Outcome::Done);
    assert_eq!(lines_of(&editor), vec!["  foo", "  ", "bar"]);
    assert_eq!(editor.pos(), (2, 1));
    assert_eq!(editor.mode(), M_INSERT);
    let mut editor = edit_on(&["\t x", "y"]);
    hit(&mut editor, 'o');
    assert_eq!(lines_of(&editor), vec!["\t x", "\t ", "y"]);
    assert_eq!(editor.pos(), (2, 1));
    let mut editor = edit_on(&["   "]);
    hit(&mut editor, 'o');
    assert_eq!(lines_of(&editor), vec!["   ", "   "]);
    assert_eq!(editor.pos(), (3, 1));
}

#[test]
fn o_without_autoindent_opens_an_empty_line() {
    let mut editor = edit_on(&["  foo", "bar"]);
    editor.set_autoindent(false);
    assert!(!editor.options().autoindent);
    hit(&mut editor, 'o');
    assert_eq!(lines_of(&editor), vec!["  foo", "", "bar"]);
    assert_eq!(editor.pos(), (0, 1));
    assert_eq!(editor.mode(), M_INSERT);
}

#[test]
fn o_keeps_the_other_cursors_in_the_text() {
    let mut editor = edit_on(&["a", "bcdef"]);
    editor.goto((5, 1));
    hit(&mut editor, 'b');
    editor.goto((0, 0));
    hit(&mut editor, 'o');
    assert_eq!(lines_of(&editor), vec!["a", "", "bcdef"]);
    assert_eq!(editor.cursors()[0], Cursor { x: 0, y: 1, mode: M_NORMAL });
    assert_eq!(editor.cursors()[1], Cursor { x: 0, y: 1, mode: M_INSERT });
}

#[test]
fn x_deletes_the_character_under_the_cursor() {
    let mut editor = edit_on(&["abc"]);
    editor.goto((1, 0));
    assert_eq!(hit(&mut editor, 'x'), Outcome::Done);
    assert_eq!(lines_of(&editor), vec!["ac"]);
    assert_eq!(editor.pos(), (1, 0));
    hit(&mut editor, 'x');
    assert_eq!(lines_of(&editor), vec!["a"]);
    assert_eq!(editor.pos(), (0, 0));
    hit(&mut editor, 'x');
    assert_eq!(lines_of(&editor), vec![""]);
    assert_eq!(editor.pos(), (0, 0));
    hit(&mut editor, 'x');
    assert_eq!(lines_of(&editor), vec![""]);
    assert_eq!(editor.pos(), (0, 0));
    assert_eq!(editor.status(), "");
}

#[test]
fn x_behind_the_last_character_only_moves_the_cursor_back() {
    let mut editor = edit_on(&["abc"]);
    hit(&mut editor, 'L');
    assert_eq!(editor.pos(), (3, 0));
    hit(&mut editor, 'x');
    assert_eq!(lines_of(&editor), vec!["abc"]);
    assert_eq!(editor.pos(), (2, 0));
}

#[test]
fn capital_x_deletes_the_character_before_the_cursor() {
    let mut editor = edit_on(&["abc"]);
    assert_eq!(hit(&mut editor, 'X'), Outcome::Done);
    assert_eq!(lines_of(&editor), vec!["abc"]);
    assert_eq!(editor.pos(), (0, 0));
    editor.goto((2, 0));
    hit(&mut editor, 'X');
    assert_eq!(lines_of(&editor), vec!["ac"]);
    assert_eq!(editor.pos(), (1, 0));
    hit(&mut editor, 'L');
    hit(&mut editor, 'X');
    assert_eq!(lines_of(&editor), vec!["a"]);
    assert_eq!(editor.pos(), (0, 0));
}

#[test]
fn a_deletion_keeps_the_other_cursors_in_the_text() {
    let mut editor = edit_on(&["abc"]);
    hit(&mut editor, 'L');
    hit(&mut editor, 'b');
    hit(&mut editor, 'H');
    hit(&mut editor, 'x');
    assert_eq!(lines_of(&editor), vec!["bc"]);
    assert_eq!(editor.cursors()[0], Cursor { x: 2, y: 0, mode: M_NORMAL });
    assert_eq!(editor.cursors()[1], Cursor { x: 0, y: 0, mode: M_NORMAL });
}

#[test]
fn r_overwrites_the_character_under_the_cursor() {
    let mut editor = edit_on(&["abc"]);
    editor.goto((1, 0));
    assert_eq!(hit(&mut editor, 'r'), Outcome::NeedChar);
    assert_eq!(editor.pending(), Pending::Replace);
    assert_eq!(lines_of(&editor), vec!["abc"]);
    assert_eq!(hit(&mut editor, 'z'), Outcome::Done);
    assert_eq!(editor.pending(), Pending::Idle);
    assert_eq!(lines_of(&editor), vec!["azc"]);
    assert_eq!(editor.pos(), (1, 0));
    assert_eq!(editor.mode(), M_NORMAL);
}

#[test]
fn r_on_an_empty_line_still_puts_the_character_in() {
    let mut editor = edit_on(&["", "x"]);
    hit(&mut editor, 'r');
    hit(&mut editor, 'q');
    assert_eq!(lines_of(&editor), vec!["q", "x"]);
    assert_eq!(editor.pos(), (0, 0));
}

#[test]
fn r_behind_the_last_character_appends() {
    let mut editor = edit_on(&["abc"]);
    hit(&mut editor, 'L');
    hit(&mut editor, 'r');
    hit(&mut editor, 'z');
    assert_eq!(lines_of(&editor), vec!["abcz"]);
    assert_eq!(editor.pos(), (3, 0));
}

#[test]
fn r_waits_until_a_character_comes() {
    let mut editor = edit_on(&["abc"]);
    hit(&mut editor, 'r');
    assert_eq!(editor.exec(Inst::plain(Key::Backspace)), Outcome::NeedChar);
    assert_eq!(editor.exec(Inst::plain(Key::Null)), Outcome::NeedChar);
    assert_eq!(editor.pending(), Pending::Replace);
    assert_eq!(lines_of(&editor), vec!["abc"]);
    // the character is taken as it comes, whatever is held
    editor.set_key_state(KeyState { shift: true, alt: false });
    assert_eq!(hit(&mut editor, ' '), Outcome::Done);
    assert_eq!(lines_of(&editor), vec![" bc"]);
    assert_eq!(editor.mode(), M_NORMAL);
}

#[test]
fn d_deletes_up_to_a_motion_on_the_line() {
    let mut editor = edit_on(&["abcdef"]);
    editor.goto((1, 0));
    assert_eq!(hit(&mut editor, 'd'), Outcome::NeedInst);
    assert_eq!(editor.pending(), Pending::Motion(Purpose::Delete));
    assert_eq!(hit(&mut editor, 'l'), Outcome::Done);
    assert_eq!(editor.pending(), Pending::Idle);
    assert_eq!(lines_of(&editor), vec!["acdef"]);
    assert_eq!(editor.pos(), (1, 0));
    hit(&mut editor, 'd');
    hit_n(&mut editor, 3, 'l');
    assert_eq!(lines_of(&editor), vec!["af"]);
    assert_eq!(editor.pos(), (1, 0));
    // the motion of a removal may end one past the last character
    hit(&mut editor, 'd');
    hit(&mut editor, 'l');
    assert_eq!(lines_of(&editor), vec!["a"]);
    assert_eq!(editor.pos(), (1, 0));
}

#[test]
fn d_deletes_back_to_a_motion_on_the_line() {
    let mut editor = edit_on(&["abcdef"]);
    editor.goto((3, 0));
    hit(&mut editor, 'd');
    hit(&mut editor, 'h');
    assert_eq!(lines_of(&editor), vec!["abdef"]);
    assert_eq!(editor.pos(), (2, 0));
    hit(&mut editor, 'd');
    hit(&mut editor, 'H');
    assert_eq!(lines_of(&editor), vec!["def"]);
    assert_eq!(editor.pos(), (0, 0));
    editor.goto((1, 0));
    hit(&mut editor, 'd');
    hit(&mut editor, 'L');
    assert_eq!(lines_of(&editor), vec!["d"]);
    assert_eq!(editor.pos(), (1, 0));
}

#[test]
fn d_over_rows_deletes_whole_rows() {
    let mut editor = edit_on(&["a", "b", "c", "d"]);
    editor.goto((0, 1));
    hit(&mut editor, 'd');
    assert_eq!(hit(&mut editor, 'j'), Outcome::Done);
    assert_eq!(lines_of(&editor), vec!["a", "d"]);
    assert_eq!(editor.pos(), (0, 1));
    let mut editor = edit_on(&["a", "b", "c", "d"]);
    editor.goto((1, 1));
    hit(&mut editor, 'd');
    hit(&mut editor, 'G');
    assert_eq!(lines_of(&editor), vec!["a"]);
    assert_eq!(editor.pos(), (0, 0));
    let mut editor = edit_on(&["a", "b", "c", "d"]);
    editor.goto((0, 2));
    hit(&mut editor, 'd');
    hit(&mut editor, 'g');
    assert_eq!(lines_of(&editor), vec!["d"]);
    assert_eq!(editor.pos(), (0, 0));
    let mut editor = edit_on(&["a", "b", "c", "d"]);
    editor.goto((0, 3));
    hit(&mut editor, 'd');
    hit_n(&mut editor, 2, 'k');
    assert_eq!(lines_of(&editor), vec!["a"]);
    assert_eq!(editor.pos(), (0, 0));
}

#[test]
fn d_over_every_row_leaves_one_empty_line() {
    let mut editor = edit_on(&["ab", "cd"]);
    editor.goto((1, 0));
    hit(&mut editor, 'd');
    hit(&mut editor, 'G');
    assert_eq!(lines_of(&editor), vec![""]);
    assert_eq!(editor.pos(), (0, 0));
    assert_eq!(editor.buffer().len(), 1);
}

#[test]
fn d_with_a_search_deletes_up_to_the_occurrence() {
    let mut editor = edit_on(&["a-b-c"]);
    hit(&mut editor, 'd');
    assert_eq!(hit(&mut editor, 't'), Outcome::NeedChar);
    assert_eq!(editor.pending(), Pending::Find { purpose: Purpose::Delete, forward: true, n: 1 });
    assert_eq!(hit(&mut editor, 'b'), Outcome::Done);
    assert_eq!(lines_of(&editor), vec!["b-c"]);
    assert_eq!(editor.pos(), (0, 0));
    hit(&mut editor, 'd');
    hit(&mut editor, 't');
    hit(&mut editor, 'z');
    assert_eq!(lines_of(&editor), vec!["b-c"]);
    editor.goto((3, 0));
    hit(&mut editor, 'd');
    hit_n(&mut editor, 2, 'f');
    hit(&mut editor, '-');
    assert_eq!(lines_of(&editor), vec!["b-c"]);
    assert_eq!(editor.pos(), (3, 0));
    hit(&mut editor, 'd');
    hit(&mut editor, 'f');
    hit(&mut editor, '-');
    assert_eq!(lines_of(&editor), vec!["b"]);
    assert_eq!(editor.pos(), (1, 0));
}

#[test]
fn d_with_a_key_that_is_no_motion_does_nothing() {
    let mut editor = edit_on(&["abc", "de"]);
    editor.goto((1, 0));
    hit(&mut editor, 'd');
    assert_eq!(hit(&mut editor, 'q'), Outcome::Done);
    assert_eq!(lines_of(&editor), vec!["abc", "de"]);
    assert_eq!(editor.pos(), (1, 0));
    assert_eq!(editor.status(), "");
    assert_eq!(editor.pending(), Pending::Idle);
}

#[test]
fn a_removal_keeps_the_other_cursors_in_the_text() {
    let mut editor = edit_on(&["abcdef", "gh"]);
    editor.goto((5, 0));
    hit(&mut editor, 'b');
    editor.goto((1, 1));
    hit(&mut editor, 'b');
    editor.goto((0, 0));
    hit(&mut editor, 'd');
    hit(&mut editor, 'L');
    assert_eq!(lines_of(&editor), vec!["", "gh"]);
    assert_eq!(
        editor.cursors(),
        vec![
            Cursor { x: 0, y: 0, mode: M_NORMAL },
            Cursor { x: 1, y: 1, mode: M_NORMAL },
            Cursor { x: 0, y: 0, mode: M_NORMAL },
        ]
    );
    hit(&mut editor, 'd');
    hit(&mut editor, 'j');
    assert_eq!(lines_of(&editor), vec![""]);
    assert_eq!(editor.cursors()[1], Cursor { x: 0, y: 0, mode: M_NORMAL });
}

#[test]
fn remove_rb_moves_the_target_into_the_text() {
    let mut editor = edit_on(&["abc", "de"]);
    editor.goto((1, 0));
    editor.remove_rb((99, 0));
    assert_eq!(lines_of(&editor), vec!["a", "de"]);
    assert_eq!(editor.pos(), (1, 0));
    editor.remove_rb((0, 99));
    assert_eq!(lines_of(&editor), vec![""]);
    assert_eq!(editor.pos(), (0, 0));
}

#[test]
fn tilde_inverts_the_case_of_n_characters() {
    let mut editor = edit_on(&["aBc1d"]);
    assert_eq!(hit_n(&mut editor, 3, '~'), Outcome::Done);
    assert_eq!(lines_of(&editor), vec!["AbC1d"]);
    assert_eq!(editor.pos(), (3, 0));
    let mut editor = edit_on(&["aBc1d"]);
    hit(&mut editor, '~');
    assert_eq!(lines_of(&editor), vec!["ABc1d"]);
    assert_eq!(editor.pos(), (1, 0));
    hit_n(&mut editor, 9, '~');
    assert_eq!(lines_of(&editor), vec!["AbC1D"]);
    assert_eq!(editor.pos(), (4, 0));
    hit_n(&mut editor, usize::MAX, '~');
    assert_eq!(lines_of(&editor), vec!["AbC1d"]);
    assert_eq!(editor.pos(), (4, 0));
    let mut editor = edit_on(&[""]);
    hit(&mut editor, '~');
    assert_eq!(lines_of(&editor), vec![""]);
    assert_eq!(editor.pos(), (0, 0));
}

#[test]
fn case_is_inverted_for_ascii_letters_only() {
    assert_eq!(invert('a'), 'A');
    assert_eq!(invert('z'), 'Z');
    assert_eq!(invert('A'), 'a');
    assert_eq!(invert('Z'), 'z');
    assert_eq!(invert('m'), 'M');
    assert_eq!(invert('1'), '1');
    assert_eq!(invert('@'), '@');
    assert_eq!(invert('['), '[');
    assert_eq!(invert('`'), '`');
    assert_eq!(invert('{'), '{');
    assert_eq!(invert(' '), ' ');
    assert_eq!(invert('é'), 'é');
}

#[test]
fn typing_in_insert_mode_shifts_the_line() {
    let mut editor = edit_on(&["ac"]);
    editor.goto((1, 0));
    hit(&mut editor, 'i');
    assert_eq!(hit(&mut editor, 'b'), Outcome::Done);
    assert_eq!(lines_of(&editor), vec!["abc"]);
    assert_eq!(editor.pos(), (2, 0));
    assert_eq!(editor.mode(), M_INSERT);
    hit(&mut editor, 'i');
    assert_eq!(lines_of(&editor), vec!["abic"]);
    assert_eq!(editor.pos(), (3, 0));
    hit(&mut editor, ' ');
    assert_eq!(lines_of(&editor), vec!["abi c"]);
    editor.insert(Key::Char('!'), InsertOptions { mode: InsertMode::Insert });
    assert_eq!(lines_of(&editor), vec!["abi !c"]);
    assert_eq!(editor.pos(), (5, 0));
}

#[test]
fn typing_in_replace_mode_overwrites_then_appends() {
    let mut editor = edit_on(&["abc"]);
    hit(&mut editor, 'R');
    hit(&mut editor, 'x');
    hit(&mut editor, 'y');
    assert_eq!(lines_of(&editor), vec!["xyc"]);
    assert_eq!(editor.pos(), (2, 0));
    hit(&mut editor, 'z');
    assert_eq!(lines_of(&editor), vec!["xyz"]);
    assert_eq!(editor.pos(), (3, 0));
    hit(&mut editor, 'w');
    assert_eq!(lines_of(&editor), vec!["xyzw"]);
    assert_eq!(editor.pos(), (4, 0));
    assert_eq!(editor.mode(), M_REPLACE);
    editor.exec(Inst::plain(Key::Backspace));
    assert_eq!(lines_of(&editor), vec!["xyzw"]);
    assert_eq!(editor.pos(), (3, 0));
}

#[test]
fn a_newline_in_insert_mode_breaks_the_line() {
    let mut editor = edit_on(&["abcd", "e"]);
    editor.goto((2, 0));
    hit(&mut editor, 'i');
    assert_eq!(hit(&mut editor, '\n'), Outcome::Done);
    assert_eq!(lines_of(&editor), vec!["ab", "cd", "e"]);
    assert_eq!(editor.pos(), (0, 1));
    assert_eq!(editor.mode(), M_INSERT);
    hit(&mut editor, '\n');
    assert_eq!(lines_of(&editor), vec!["ab", "", "cd", "e"]);
    assert_eq!(editor.pos(), (0, 2));
    let mut editor = edit_on(&["ab"]);
    hit(&mut editor, 'L');
    hit(&mut editor, 'R');
    hit(&mut editor, '\n');
    assert_eq!(lines_of(&editor), vec!["ab", ""]);
    assert_eq!(editor.pos(), (0, 1));
}

#[test]
fn backspace_in_insert_mode_deletes_to_the_left() {
    let mut editor = edit_on(&["abc"]);
    editor.goto((2, 0));
    hit(&mut editor, 'i');
    assert_eq!(editor.exec(Inst::plain(Key::Backspace)), Outcome::Done);
    assert_eq!(lines_of(&editor), vec!["ac"]);
    assert_eq!(editor.pos(), (1, 0));
    editor.exec(Inst::plain(Key::Backspace));
    assert_eq!(lines_of(&editor), vec!["c"]);
    assert_eq!(editor.pos(), (0, 0));
    editor.exec(Inst::plain(Key::Backspace));
    assert_eq!(lines_of(&editor), vec!["c"]);
    assert_eq!(editor.pos(), (0, 0));
    assert_eq!(editor.mode(), M_INSERT);
}

#[test]
fn escape_leaves_insert_mode() {
    let mut editor = edit_on(&["abc"]);
    editor.goto((2, 0));
    hit(&mut editor, 'i');
    assert_eq!(editor.exec(Inst::plain(Key::Escape)), Outcome::Done);
    assert_eq!(editor.mode(), M_NORMAL);
    assert_eq!(editor.pos(), (1, 0));
    hit(&mut editor, 'i');
    editor.exec(Inst::plain(Key::Null));
    assert_eq!(editor.mode(), M_INSERT);
    assert_eq!(editor.pos(), (1, 0));
    assert_eq!(lines_of(&editor), vec!["abc"]);
    editor.escape();
    assert_eq!(editor.mode(), M_NORMAL);
    assert_eq!(editor.pos(), (0, 0));
}

#[test]
fn a_newline_in_the_prompt_hands_the_command_out() {
    let mut editor = edit_on(&["abc"]);
    assert_eq!(hit(&mut editor, ';'), Outcome::Done);
    assert_eq!(hit(&mut editor, 'w'), Outcome::Done);
    assert_eq!(editor.redraw_task(), RedrawTask::StatusBar);
    assert_eq!(hit(&mut editor, ' '), Outcome::Done);
    assert_eq!(hit(&mut editor, 'q'), Outcome::Done);
    assert_eq!(editor.prompt(), "w q");
    editor.take_redraw();
    assert_eq!(hit(&mut editor, '\n'), Outcome::Invoke("w q".to_string()));
    assert_eq!(editor.prompt(), "");
    assert_eq!(editor.mode(), M_NORMAL);
    assert_eq!(editor.redraw_task(), RedrawTask::StatusBar);
    assert_eq!(lines_of(&editor), vec!["abc"]);
    hit(&mut editor, ';');
    assert_eq!(hit(&mut editor, '\n'), Outcome::Invoke(String::new()));
}

#[test]
fn keys_typed_in_the_prompt_are_no_commands() {
    let mut editor = edit_on(&["abc"]);
    hit(&mut editor, ';');
    hit(&mut editor, 'x');
    hit(&mut editor, 'b');
    hit_n(&mut editor, 3, 'l');
    assert_eq!(editor.prompt(), "xbl");
    assert_eq!(lines_of(&editor), vec!["abc"]);
    assert_eq!(editor.cursor_count(), 1);
    assert_eq!(editor.pos(), (0, 0));
}

#[test]
fn a_buffer_is_never_empty() {
    let buffer = Buffer::new();
    assert_eq!(buffer.len(), 1);
    assert_eq!(buffer.line_len(0), 0);
    let buffer = Buffer::from_lines(Vec::new());
    assert_eq!(buffer.len(), 1);
    assert_eq!(buffer.line(0), Vec::<char>::new());
    let buffer = Buffer::from_lines(vec![chars("ab"), chars("")]);
    assert_eq!(buffer.len(), 2);
    assert_eq!(buffer.line_len(0), 2);
    assert_eq!(buffer.get(1, 0), 'b');
    assert_eq!(buffer_lines(&buffer), vec!["ab", ""]);
}

#[test]
fn buffer_lines_and_characters() {
    let mut buffer = Buffer::from_lines(vec![chars("  ab"), chars("cd")]);
    assert_eq!(buffer.get_indent(0), chars("  "));
    assert_eq!(buffer.get_indent(1), chars(""));
    buffer.insert_line(0, chars("new"));
    assert_eq!(buffer_lines(&buffer), vec!["  ab", "new", "cd"]);
    buffer.insert_line(2, chars("end"));
    assert_eq!(buffer_lines(&buffer), vec!["  ab", "new", "cd", "end"]);
    buffer.split_line(1, 1);
    assert_eq!(buffer_lines(&buffer), vec!["  ab", "n", "ew", "cd", "end"]);
    buffer.insert_char(0, 3, 'x');
    buffer.insert_char(3, 3, 'y');
    assert_eq!(buffer_lines(&buffer), vec!["  ab", "n", "ew", "xcdy", "end"]);
    assert_eq!(buffer.remove_char(1, 3), 'c');
    assert_eq!(buffer_lines(&buffer), vec!["  ab", "n", "ew", "xdy", "end"]);
    buffer.set_char(2, 4, 'D');
    assert_eq!(buffer_lines(&buffer), vec!["  ab", "n", "ew", "xdy", "enD"]);
    buffer.remove_span(0, 1, 3);
    assert_eq!(buffer_lines(&buffer), vec![" b", "n", "ew", "xdy", "enD"]);
    buffer.remove_span(0, 1, 1);
    assert_eq!(buffer_lines(&buffer), vec![" b", "n", "ew", "xdy", "enD"]);
    buffer.invert_span(4, 1, 3);
    assert_eq!(buffer_lines(&buffer), vec![" b", "n", "ew", "xdy", "eNd"]);
    buffer.remove_lines(1, 3);
    assert_eq!(buffer_lines(&buffer), vec![" b", "eNd"]);
    buffer.remove_lines(0, 1);
    assert_eq!(buffer_lines(&buffer), vec![""]);
    let mut blank = Buffer::from_lines(vec![chars(" \t "), chars("\tx y")]);
    assert_eq!(blank.get_indent(0), chars(" \t "));
    assert_eq!(blank.get_indent(1), chars("\t"));
    blank.remove_lines(1, 1);
    assert_eq!(buffer_lines(&blank), vec![" \t "]);
}
