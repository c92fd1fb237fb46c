use cjn_os::vga_buffer::{
    Color, ColorCode, Writer, BUFFER_HEIGHT, BUFFER_WIDTH, UNPRINTABLE_GLYPH,
};

fn default_writer() -> Writer {
    Writer::new(ColorCode::new(Color::LightCyan, Color::Black))
}

#[test]
fn color_code_packs_nibbles() {
    assert_eq!(ColorCode::new(Color::LightCyan, Color::Black).0, 0x0b);
    assert_eq!(ColorCode::new(Color::White, Color::Blue).0, 0x1f);
    assert_eq!(ColorCode::new(Color::Black, Color::Black).0, 0x00);
    assert_eq!(ColorCode::new(Color::Yellow, Color::Red).0, 0x4e);
}

#[test]
fn fresh_writer_is_blank_at_origin() {
    let w = default_writer();
    assert_eq!(w.row_position(), 0);
    assert_eq!(w.column_position(), 0);
    assert_eq!(w.char_at(0, 0).ascii_character, b' ');
    assert_eq!(w.char_at(24, 79).ascii_character, b' ');
}

#[test]
fn printable_string_advances_column_by_length() {
    let mut w = default_writer();
    w.write_string("Hello");
    assert_eq!(w.column_position(), 5);
    assert_eq!(w.row_position(), 0);
    assert_eq!(w.char_at(0, 0).ascii_character, b'H');
    assert_eq!(w.char_at(0, 4).ascii_character, b'o');
}

#[test]
fn printable_overflow_wraps_without_loss() {
    let mut w = default_writer();
    // 81 printable bytes from column 0: the row fills, the 81st byte forces
    // one line break and lands at (1, 0); 81 % 80 == 1.
    for _ in 0..80 {
        w.write_byte(b'x');
    }
    assert_eq!(w.column_position(), 80);
    assert_eq!(w.row_position(), 0);
    w.write_byte(b'y');
    assert_eq!(w.row_position(), 1);
    assert_eq!(w.column_position(), 1);
    assert_eq!(w.char_at(0, 79).ascii_character, b'x');
    assert_eq!(w.char_at(1, 0).ascii_character, b'y');
}

#[test]
fn unprintable_byte_renders_as_fixed_glyph() {
    let mut w = default_writer();
    w.write_string("\x01");
    assert_eq!(w.char_at(0, 0).ascii_character, UNPRINTABLE_GLYPH);
    assert_eq!(w.column_position(), 1);
    // 0x7f (delete) is just past the printable range.
    w.write_string("\x7f");
    assert_eq!(w.char_at(0, 1).ascii_character, UNPRINTABLE_GLYPH);
}

#[test]
fn wide_character_renders_one_glyph_per_encoded_byte() {
    let mut w = default_writer();
    // Two-byte encoding: both bytes are outside the printable range.
    w.write_string("é");
    assert_eq!(w.column_position(), 2);
    assert_eq!(w.char_at(0, 0).ascii_character, UNPRINTABLE_GLYPH);
    assert_eq!(w.char_at(0, 1).ascii_character, UNPRINTABLE_GLYPH);
}

#[test]
fn tab_lands_on_next_multiple_of_four() {
    let mut w = default_writer();
    w.write_byte(b'\t');
    assert_eq!(w.column_position(), 4);
    w.write_byte(b'a');
    w.write_byte(b'\t');
    assert_eq!(w.column_position(), 8);
    // From a column already on a stop, the next stop is four further on.
    w.write_byte(b'\t');
    assert_eq!(w.column_position(), 12);
}

#[test]
fn tab_at_row_end_breaks_line_once() {
    let mut w = default_writer();
    for _ in 0..78 {
        w.write_byte(b'a');
    }
    assert_eq!(w.column_position(), 78);
    // Next stop would be 80, at the buffer width: exactly one line break.
    w.write_byte(b'\t');
    assert_eq!(w.row_position(), 1);
    assert_eq!(w.column_position(), 0);
}

#[test]
fn backspace_at_column_zero_is_noop() {
    let mut w = default_writer();
    w.write_byte(0x08);
    assert_eq!(w.column_position(), 0);
    assert_eq!(w.row_position(), 0);
}

#[test]
fn backspace_moves_left_without_erasing() {
    let mut w = default_writer();
    w.write_string("ab");
    w.write_byte(0x08);
    assert_eq!(w.column_position(), 1);
    // The cell written at column 1 is untouched.
    assert_eq!(w.char_at(0, 1).ascii_character, b'b');
    assert_eq!(w.char_at(0, 0).ascii_character, b'a');
}

#[test]
fn carriage_return_resets_column_only() {
    let mut w = default_writer();
    w.write_string("abc");
    w.write_byte(b'\r');
    assert_eq!(w.column_position(), 0);
    assert_eq!(w.row_position(), 0);
    assert_eq!(w.char_at(0, 2).ascii_character, b'c');
}

#[test]
fn newline_moves_to_next_row() {
    let mut w = default_writer();
    w.write_string("a\nb");
    assert_eq!(w.row_position(), 1);
    assert_eq!(w.column_position(), 1);
    assert_eq!(w.char_at(0, 0).ascii_character, b'a');
    assert_eq!(w.char_at(1, 0).ascii_character, b'b');
}

#[test]
fn buffer_height_newlines_scroll_row_one_to_row_zero() {
    let color = ColorCode::new(Color::Yellow, Color::Blue);
    let mut w = Writer::new(color);
    w.write_byte(b'A');
    w.write_byte(b'\n');
    w.write_byte(b'B');
    // One newline written so far; BUFFER_HEIGHT in total scrolls exactly once.
    for _ in 1..BUFFER_HEIGHT {
        w.write_byte(b'\n');
    }
    // The content originally on row 1 now sits on row 0.
    assert_eq!(w.char_at(0, 0).ascii_character, b'B');
    // The last row is blank in the writer's active color.
    for col in 0..BUFFER_WIDTH {
        let cell = w.char_at(BUFFER_HEIGHT - 1, col);
        assert_eq!(cell.ascii_character, b' ');
        assert_eq!(cell.color_code, color);
    }
    assert_eq!(w.row_position(), BUFFER_HEIGHT - 1);
    assert_eq!(w.column_position(), 0);
}

#[test]
fn cells_carry_the_active_color() {
    let color = ColorCode::new(Color::Green, Color::DarkGray);
    let mut w = Writer::new(color);
    w.write_byte(b'Z');
    assert_eq!(w.char_at(0, 0).color_code, color);
    assert_eq!(w.color_code(), color);
}

#[test]
fn write_char_renders_ascii_and_substitutes_controls() {
    let mut w = default_writer();
    w.write_char('a');
    assert_eq!(w.char_at(0, 0).ascii_character, b'a');
    w.write_char('\u{1}');
    assert_eq!(w.char_at(0, 1).ascii_character, UNPRINTABLE_GLYPH);
    w.write_char('\n');
    assert_eq!(w.row_position(), 1);
    assert_eq!(w.column_position(), 0);
}
