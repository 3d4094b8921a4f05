//! The cursored input buffer and the named source file around it.

use pitusya::input::{Cli, CursoredFile, InputFile};

#[test]
fn cursor_moves_forward_and_back() {
    let mut f = InputFile::new(String::from("abc"));
    assert_eq!(f.get_cursor(), 0);
    assert_eq!(f.current_char(), 'a');
    assert!(!f.out_of_bounds());
    f.move_cursor(2);
    assert_eq!(f.get_cursor(), 2);
    assert_eq!(f.current_char(), 'c');
    f.move_back_cursor(1);
    assert_eq!(f.get_cursor(), 1);
    assert_eq!(f.current_char(), 'b');
    f.move_cursor(2);
    assert!(f.out_of_bounds());
}

#[test]
fn skip_spaces_stops_at_the_first_black_character() {
    let mut f = InputFile::new(String::from("  \t\nx y"));
    f.skip_spaces();
    assert_eq!(f.get_cursor(), 4);
    assert_eq!(f.current_char(), 'x');
    // no whitespace at the cursor: nothing moves
    f.skip_spaces();
    assert_eq!(f.get_cursor(), 4);
}

#[test]
fn skip_spaces_at_the_end_stays_put() {
    let mut f = InputFile::new(String::from("a"));
    f.move_cursor(1);
    f.skip_spaces();
    assert_eq!(f.get_cursor(), 1);
}

#[test]
fn the_text_reads_back_unchanged() {
    let f = InputFile::new(String::from("let x = 1;"));
    assert_eq!(f.read_to_string(), "let x = 1;");
    assert_eq!(f.get_str(), "let x = 1;");
}

#[test]
fn a_cursored_file_keeps_its_name() {
    let mut f = CursoredFile::new(String::from("prog.pit"), String::from("ret"));
    assert_eq!(f.name, "prog.pit");
    assert_eq!(f.get_cursor(), 0);
    assert_eq!(f.current_char(), 'r');
    f.move_cursor(3);
    assert!(f.out_of_bounds());
    f.move_back_cursor(3);
    assert!(!f.out_of_bounds());
    f.skip_spaces();
    assert_eq!(f.get_cursor(), 0);
}

#[test]
fn the_cli_carries_the_file_path() {
    let cli = Cli { file: String::from("examples/fib.pit") };
    assert_eq!(cli.file, "examples/fib.pit");
}

#[test]
fn exit_code_spells_a_greeting() {
    assert_eq!(pitusya::EXIT_CODE, 0x48_41_50_50_59_42_44_41_59);
}
