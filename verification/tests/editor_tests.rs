use med::buffer::Buffer;
use med::command::{parse_input, Command};
use med::cursor::Cursor;
use med::editor::EditorState;

fn buffer_of(lines: &[&[u8]]) -> Buffer {
    Buffer::new(lines.iter().map(|l| l.to_vec()).collect())
}

#[test]
fn clamp_is_idempotent_on_wild_cursor() {
    let b = buffer_of(&[b"ab", b"wxyz"]);
    let once = Cursor { row: 9, col: 9 }.clamp(&b);
    let twice = once.clamp(&b);
    assert_eq!(once, Cursor { row: 1, col: 4 });
    assert_eq!(twice, once);
}

#[test]
fn clamp_is_idempotent_on_in_bounds_cursor() {
    let b = buffer_of(&[b"hello"]);
    let c = Cursor { row: 0, col: 3 };
    assert_eq!(c.clamp(&b), c);
    assert_eq!(c.clamp(&b).clamp(&b), c);
}

#[test]
fn up_saturates_at_row_zero() {
    let b = buffer_of(&[b"ab", b"cd"]);
    let c = Cursor { row: 0, col: 1 }.up(&b);
    assert_eq!(c, Cursor { row: 0, col: 1 });
}

#[test]
fn left_saturates_at_col_zero() {
    let b = buffer_of(&[b"ab", b"cd"]);
    let c = Cursor { row: 1, col: 0 }.left(&b);
    assert_eq!(c, Cursor { row: 1, col: 0 });
}

#[test]
fn down_stops_at_last_row() {
    let b = buffer_of(&[b"ab", b"cd"]);
    let c = Cursor { row: 1, col: 2 }.down(&b);
    assert_eq!(c, Cursor { row: 1, col: 2 });
}

#[test]
fn right_stops_at_append_position() {
    let b = buffer_of(&[b"ab"]);
    let c = Cursor { row: 0, col: 2 }.right(&b);
    assert_eq!(c, Cursor { row: 0, col: 2 });
}

#[test]
fn vertical_move_reclamps_col_to_destination_line() {
    // Moving down from a long line to a short one clamps the column to
    // the destination line's length, not the source line's.
    let b = buffer_of(&[b"abcdef", b"xy"]);
    let c = Cursor { row: 0, col: 6 }.down(&b);
    assert_eq!(c, Cursor { row: 1, col: 2 });
    let back = c.up(&b);
    assert_eq!(back, Cursor { row: 0, col: 2 });
}

#[test]
fn cursor_new_starts_at_one_one() {
    let c = Cursor::new();
    assert_eq!(c, Cursor { row: 1, col: 1 });
}

#[test]
fn move_to_col_sets_col_only() {
    let c = Cursor { row: 3, col: 7 }.move_to_col(0);
    assert_eq!(c, Cursor { row: 3, col: 0 });
}

#[test]
fn num_lines_and_num_chars() {
    let b = buffer_of(&[b"hello", b""]);
    assert_eq!(b.num_lines(), 2);
    assert_eq!(b.num_chars(0), 5);
    assert_eq!(b.num_chars(1), 0);
    // defensive bound: out-of-range row reads as empty
    assert_eq!(b.num_chars(2), 0);
}

#[test]
fn line_reads_one_row() {
    let b = buffer_of(&[b"ab", b"cd"]);
    assert_eq!(b.line(1), &b"cd".to_vec());
}

#[test]
fn clone_lines_copies_deeply() {
    let b = buffer_of(&[b"ab", b"cd"]);
    let copy = b._clone_lines();
    assert_eq!(copy, vec![b"ab".to_vec(), b"cd".to_vec()]);
}

#[test]
fn insert_lengthens_one_line_only() {
    let b = buffer_of(&[b"ab", b"cd"]);
    let b2 = b.insert(b'X', 0, 1);
    assert_eq!(b2.lines, vec![b"aXb".to_vec(), b"cd".to_vec()]);
    // the receiver is untouched
    assert_eq!(b.lines, vec![b"ab".to_vec(), b"cd".to_vec()]);
    assert_eq!(b2.num_lines(), b.num_lines());
}

#[test]
fn delete_removes_one_byte() {
    let b = buffer_of(&[b"abc"]);
    let b2 = b.delete(0, 1);
    assert_eq!(b2.lines, vec![b"ac".to_vec()]);
    assert_eq!(b.lines, vec![b"abc".to_vec()]);
    assert_eq!(b2.num_lines(), b.num_lines());
}

#[test]
fn delete_undoes_insert() {
    let b = buffer_of(&[b"abc", b"de"]);
    let b2 = b.insert(b'Q', 1, 2).delete(1, 2);
    assert_eq!(b2.lines, b.lines);
}

#[test]
fn split_line_in_the_middle() {
    let b = buffer_of(&[b"one", b"twothree", b"four"]);
    let b2 = b.split_line(1, 3);
    assert_eq!(
        b2.lines,
        vec![b"one".to_vec(), b"two".to_vec(), b"three".to_vec(), b"four".to_vec()]
    );
    assert_eq!(b2.num_lines(), b.num_lines() + 1);
}

#[test]
fn split_then_join_restores_line_content() {
    let b = buffer_of(&[b"hello"]);
    let b2 = b.split_line(0, 2);
    let mut joined = b2.lines[0].clone();
    joined.extend_from_slice(&b2.lines[1]);
    assert_eq!(joined, b"hello".to_vec());
}

#[test]
fn split_at_start_and_end() {
    let b = buffer_of(&[b"ab"]);
    let at_start = b.split_line(0, 0);
    assert_eq!(at_start.lines, vec![b"".to_vec(), b"ab".to_vec()]);
    let at_end = b.split_line(0, 2);
    assert_eq!(at_end.lines, vec![b"ab".to_vec(), b"".to_vec()]);
}

#[test]
fn parse_input_maps_every_control_byte() {
    assert_eq!(parse_input(17), Command::Quit);
    assert_eq!(parse_input(11), Command::MoveUp);
    assert_eq!(parse_input(10), Command::MoveDown);
    assert_eq!(parse_input(8), Command::MoveLeft);
    assert_eq!(parse_input(12), Command::MoveRight);
    assert_eq!(parse_input(13), Command::SplitLine);
    assert_eq!(parse_input(127), Command::Backspace);
    assert_eq!(parse_input(b'X'), Command::InsertChar(b'X'));
    assert_eq!(parse_input(0), Command::InsertChar(0));
}

#[test]
fn scenario_basic_quit() {
    let st = EditorState { buffer: buffer_of(&[b"hello"]), cursor: Cursor { row: 0, col: 0 } };
    let (st2, quit) = st.step(17);
    assert!(quit);
    assert_eq!(st2.buffer.lines, vec![b"hello".to_vec()]);
    assert_eq!(st2.cursor, Cursor { row: 0, col: 0 });
}

#[test]
fn scenario_insert_then_render() {
    let st = EditorState { buffer: buffer_of(&[b"ab"]), cursor: Cursor { row: 0, col: 1 } };
    let (st2, quit) = st.step(b'X');
    assert!(!quit);
    assert_eq!(st2.buffer.lines, vec![b"aXb".to_vec()]);
    assert_eq!(st2.cursor, Cursor { row: 0, col: 2 });
}

#[test]
fn scenario_backspace_at_line_start_is_a_no_op() {
    let st = EditorState {
        buffer: buffer_of(&[b"ab", b"cd"]),
        cursor: Cursor { row: 1, col: 0 },
    };
    let (st2, quit) = st.step(127);
    assert!(!quit);
    assert_eq!(st2.buffer.lines, vec![b"ab".to_vec(), b"cd".to_vec()]);
    assert_eq!(st2.cursor, Cursor { row: 1, col: 0 });
}

#[test]
fn scenario_split_at_end_of_line() {
    let st = EditorState { buffer: buffer_of(&[b"ab"]), cursor: Cursor { row: 0, col: 2 } };
    let (st2, quit) = st.step(13);
    assert!(!quit);
    assert_eq!(st2.buffer.lines, vec![b"ab".to_vec(), b"".to_vec()]);
    assert_eq!(st2.cursor, Cursor { row: 1, col: 0 });
}

#[test]
fn backspace_deletes_before_cursor() {
    let st = EditorState { buffer: buffer_of(&[b"abc"]), cursor: Cursor { row: 0, col: 2 } };
    let (st2, _) = st.step(127);
    assert_eq!(st2.buffer.lines, vec![b"ac".to_vec()]);
    assert_eq!(st2.cursor, Cursor { row: 0, col: 1 });
}

#[test]
fn movement_bytes_move_the_cursor() {
    let b = buffer_of(&[b"ab", b"cd"]);
    let st = EditorState { buffer: b, cursor: Cursor { row: 0, col: 1 } };
    let (st2, _) = st.step(10);
    assert_eq!(st2.cursor, Cursor { row: 1, col: 1 });
    let (st3, _) = st2.step(12);
    assert_eq!(st3.cursor, Cursor { row: 1, col: 2 });
    let (st4, _) = st3.step(8);
    assert_eq!(st4.cursor, Cursor { row: 1, col: 1 });
    let (st5, _) = st4.step(11);
    assert_eq!(st5.cursor, Cursor { row: 0, col: 1 });
}

#[test]
fn edits_on_empty_buffer_are_no_ops() {
    let st = EditorState { buffer: Buffer::new(Vec::new()), cursor: Cursor { row: 0, col: 0 } };
    let (st2, quit) = st.step(b'X');
    assert!(!quit);
    assert_eq!(st2.buffer.lines, Vec::<Vec<u8>>::new());
    assert_eq!(st2.cursor, Cursor { row: 0, col: 0 });
    let (st3, _) = st2.step(13);
    assert_eq!(st3.buffer.lines, Vec::<Vec<u8>>::new());
    assert_eq!(st3.cursor, Cursor { row: 0, col: 0 });
}

#[test]
fn editor_state_new_clamps_initial_cursor() {
    let st = EditorState::new(buffer_of(&[b"ab"]), Cursor::new());
    assert_eq!(st.cursor, Cursor { row: 0, col: 1 });
    let st2 = EditorState::new(buffer_of(&[b"a"]), Cursor { row: 5, col: 5 });
    assert_eq!(st2.cursor, Cursor { row: 0, col: 1 });
}
