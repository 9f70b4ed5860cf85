use vga_console::screen::{BLANK, FALLBACK_GLYPH, NEWLINE, TAB};
use vga_console::{
    Buffer, Color, ColorCode, KernelWriter, KernelWriterInfos, ScreenChar, Writer, BUFFER_HEIGHT,
    BUFFER_WIDTH,
};
use volatile::Volatile;

fn white_on_black() -> ColorCode {
    ColorCode::new(Color::White, Color::Black)
}

fn filled_buffer(cell: ScreenChar) -> &'static mut Buffer {
    Box::leak(Box::new(Buffer {
        chars: core::array::from_fn(|_| core::array::from_fn(|_| Volatile::new(cell))),
    }))
}

fn writer_at(row: usize, column: usize) -> Writer {
    let color = white_on_black();
    Writer {
        infos: KernelWriterInfos { column_position: column, row_position: row, color_code: color },
        buffer: filled_buffer(ScreenChar { ascii_character: b'.', color_code: color }),
    }
}

fn snapshot(writer: &Writer) -> Vec<Vec<ScreenChar>> {
    (0..BUFFER_HEIGHT)
        .map(|row| (0..BUFFER_WIDTH).map(|col| writer.read(row, col)).collect())
        .collect()
}

fn row_text(writer: &Writer, row: usize) -> String {
    (0..BUFFER_WIDTH).map(|col| char::from(writer.read(row, col).ascii_character)).collect()
}

#[test]
fn grid_is_25_rows_of_80_cells() {
    assert_eq!(BUFFER_HEIGHT, 25);
    assert_eq!(BUFFER_WIDTH, 80);
}

#[test]
fn buffer_read_returns_what_was_written() {
    let color = white_on_black();
    let buffer = filled_buffer(ScreenChar { ascii_character: b' ', color_code: color });
    let cell = ScreenChar { ascii_character: b'Q', color_code: ColorCode::new(Color::Red, Color::Blue) };
    for (row, col) in [(0, 0), (0, 79), (24, 0), (24, 79), (12, 40)] {
        buffer.write(row, col, cell);
        assert_eq!(buffer.read(row, col), cell);
    }
}

#[test]
fn buffer_write_changes_one_cell_only() {
    let color = white_on_black();
    let blank = ScreenChar { ascii_character: b' ', color_code: color };
    let buffer = filled_buffer(blank);
    let cell = ScreenChar { ascii_character: b'Z', color_code: color };
    buffer.write(7, 13, cell);
    for row in 0..BUFFER_HEIGHT {
        for col in 0..BUFFER_WIDTH {
            let expected = if (row, col) == (7, 13) { cell } else { blank };
            assert_eq!(buffer.read(row, col), expected);
        }
    }
}

#[test]
fn writer_read_returns_what_was_written() {
    let mut writer = writer_at(0, 0);
    let cell = ScreenChar { ascii_character: b'#', color_code: ColorCode::new(Color::Pink, Color::Cyan) };
    writer.write(3, 5, cell);
    assert_eq!(writer.read(3, 5), cell);
    assert_eq!(writer.infos.row_position, 0);
    assert_eq!(writer.infos.column_position, 0);
}

#[test]
fn infos_hands_out_the_cursor() {
    let mut writer = writer_at(4, 9);
    assert_eq!(writer.infos().row_position, 4);
    assert_eq!(writer.infos().column_position, 9);
    writer.infos().column_position = 11;
    writer.infos().color_code = ColorCode::new(Color::Green, Color::Black);
    writer.write_byte(b'g');
    assert_eq!(
        writer.read(4, 11),
        ScreenChar { ascii_character: b'g', color_code: ColorCode::new(Color::Green, Color::Black) }
    );
}

#[test]
fn every_byte_value_is_taken() {
    for value in 0..=255u8 {
        let mut writer = writer_at(3, 5);
        let before = snapshot(&writer);
        writer.write_byte(value);
        let after = snapshot(&writer);
        if value == NEWLINE {
            assert_eq!((writer.infos.row_position, writer.infos.column_position), (4, 0));
            assert_eq!(after, before);
        } else if value == TAB {
            assert_eq!((writer.infos.row_position, writer.infos.column_position), (3, 8));
            assert_eq!(after, before);
        } else {
            let code = if (0x20..=0x7e).contains(&value) { value } else { FALLBACK_GLYPH };
            assert_eq!((writer.infos.row_position, writer.infos.column_position), (3, 6));
            for row in 0..BUFFER_HEIGHT {
                for col in 0..BUFFER_WIDTH {
                    if (row, col) == (3, 5) {
                        assert_eq!(
                            after[row][col],
                            ScreenChar { ascii_character: code, color_code: white_on_black() }
                        );
                    } else {
                        assert_eq!(after[row][col], before[row][col]);
                    }
                }
            }
        }
    }
}

#[test]
fn printable_edges_pass_and_their_neighbours_fall_back() {
    let mut writer = writer_at(0, 0);
    for value in [0x1f, 0x20, 0x7e, 0x7f, 0x00, 0x80, 0xff] {
        writer.write_byte(value);
    }
    let stored: Vec<u8> = (0..7).map(|col| writer.read(0, col).ascii_character).collect();
    assert_eq!(stored, vec![0xfe, 0x20, 0x7e, 0xfe, 0xfe, 0xfe, 0xfe]);
}

#[test]
fn non_ascii_text_shows_one_fallback_glyph_per_byte() {
    let mut writer = writer_at(0, 0);
    writer.write_string("é!");
    assert_eq!(writer.read(0, 0).ascii_character, FALLBACK_GLYPH);
    assert_eq!(writer.read(0, 1).ascii_character, FALLBACK_GLYPH);
    assert_eq!(writer.read(0, 2).ascii_character, b'!');
    assert_eq!(writer.infos.column_position, 3);
}

#[test]
fn tab_goes_to_the_next_multiple_of_four() {
    for (from, to) in [(0, 4), (1, 4), (2, 4), (3, 4), (4, 8), (5, 8), (7, 8), (76, 80), (79, 80)] {
        let mut writer = writer_at(2, from);
        let before = snapshot(&writer);
        writer.write_byte(TAB);
        assert_eq!(writer.infos.column_position, to);
        assert_eq!(writer.infos.row_position, 2);
        assert_eq!(snapshot(&writer), before);
    }
}

#[test]
fn tab_at_the_end_of_a_row_neither_wraps_nor_scrolls() {
    let mut writer = writer_at(BUFFER_HEIGHT - 1, BUFFER_WIDTH);
    let before = snapshot(&writer);
    writer.write_byte(TAB);
    assert_eq!(writer.infos.column_position, 84);
    writer.write_byte(TAB);
    assert_eq!(writer.infos.column_position, 88);
    assert_eq!(writer.infos.row_position, BUFFER_HEIGHT - 1);
    assert_eq!(snapshot(&writer), before);
}

#[test]
fn byte_after_a_tab_beyond_the_row_starts_the_next_row() {
    let mut writer = writer_at(6, BUFFER_WIDTH);
    writer.write_byte(TAB);
    writer.write_byte(b'x');
    assert_eq!((writer.infos.row_position, writer.infos.column_position), (7, 1));
    assert_eq!(writer.read(7, 0).ascii_character, b'x');
}

#[test]
fn newline_moves_to_the_start_of_the_next_row() {
    let mut writer = writer_at(10, 33);
    let before = snapshot(&writer);
    writer.new_line();
    assert_eq!((writer.infos.row_position, writer.infos.column_position), (11, 0));
    assert_eq!(snapshot(&writer), before);
}

#[test]
fn full_row_wraps_with_the_next_byte() {
    let mut writer = writer_at(5, 0);
    let line: String = (0..BUFFER_WIDTH).map(|i| char::from(b'a' + (i % 26) as u8)).collect();
    writer.write_string(&line);
    assert_eq!((writer.infos.row_position, writer.infos.column_position), (5, BUFFER_WIDTH));
    assert_eq!(row_text(&writer, 5), line);
    writer.write_byte(b'!');
    assert_eq!((writer.infos.row_position, writer.infos.column_position), (6, 1));
    assert_eq!(writer.read(6, 0).ascii_character, b'!');
    assert_eq!(row_text(&writer, 5), line);
    assert_eq!(row_text(&writer, 4), ".".repeat(BUFFER_WIDTH));
}

#[test]
fn full_last_row_scrolls_with_the_next_byte() {
    let mut writer = writer_at(BUFFER_HEIGHT - 1, 0);
    let line = "#".repeat(BUFFER_WIDTH);
    writer.write_string(&line);
    assert_eq!(writer.infos.row_position, BUFFER_HEIGHT - 1);
    writer.write_byte(b'!');
    assert_eq!((writer.infos.row_position, writer.infos.column_position), (BUFFER_HEIGHT - 1, 1));
    assert_eq!(row_text(&writer, BUFFER_HEIGHT - 2), line);
    assert_eq!(row_text(&writer, BUFFER_HEIGHT - 1), format!("!{}", " ".repeat(BUFFER_WIDTH - 1)));
}

#[test]
fn newline_on_the_last_row_shifts_every_row_up() {
    let mut writer = writer_at(0, 0);
    for row in 0..BUFFER_HEIGHT {
        let letter = char::from(b'A' + row as u8);
        writer.write_string(&letter.to_string().repeat(10));
        if row + 1 < BUFFER_HEIGHT {
            writer.write_byte(NEWLINE);
        }
    }
    assert_eq!(writer.infos.row_position, BUFFER_HEIGHT - 1);
    let before = snapshot(&writer);
    writer.write_byte(NEWLINE);
    assert_eq!((writer.infos.row_position, writer.infos.column_position), (BUFFER_HEIGHT - 1, 0));
    let after = snapshot(&writer);
    for row in 0..BUFFER_HEIGHT - 1 {
        assert_eq!(after[row], before[row + 1]);
    }
    let blank = ScreenChar { ascii_character: BLANK, color_code: white_on_black() };
    assert_eq!(after[BUFFER_HEIGHT - 1], vec![blank; BUFFER_WIDTH]);
    assert!(after.iter().all(|row| row[0].ascii_character != b'A'));
}

#[test]
fn clear_row_blanks_one_row_in_the_current_colour() {
    let mut writer = writer_at(2, 7);
    let before = snapshot(&writer);
    let green = ColorCode::new(Color::Green, Color::Black);
    writer.infos.color_code = green;
    writer.clear_row(9);
    let after = snapshot(&writer);
    for row in 0..BUFFER_HEIGHT {
        if row == 9 {
            assert_eq!(
                after[row],
                vec![ScreenChar { ascii_character: BLANK, color_code: green }; BUFFER_WIDTH]
            );
        } else {
            assert_eq!(after[row], before[row]);
        }
    }
    assert_eq!((writer.infos.row_position, writer.infos.column_position), (2, 7));
}

#[test]
fn single_line_string_lands_left_to_right() {
    let mut writer = writer_at(0, 0);
    let s = "Some test string that fits on a single line";
    writer.write_string(s);
    for (i, c) in s.chars().enumerate() {
        let cell = writer.read(0, i);
        assert_eq!(char::from(cell.ascii_character), c);
        assert_eq!(cell.color_code, white_on_black());
    }
    assert_eq!((writer.infos.row_position, writer.infos.column_position), (0, s.len()));
    assert_eq!(writer.read(0, s.len()).ascii_character, b'.');
    assert_eq!(row_text(&writer, 1), ".".repeat(BUFFER_WIDTH));
}

#[test]
fn split_writes_show_what_one_write_shows() {
    let text = "first\tline\nsecond line that is long enough to be split in the middle\n\tend";
    let mut whole = writer_at(BUFFER_HEIGHT - 2, 70);
    whole.write_string(text);
    for cut in [0, 1, 5, 6, 11, 40, text.len()] {
        let mut parts = writer_at(BUFFER_HEIGHT - 2, 70);
        parts.write_string(&text[..cut]);
        parts.write_string(&text[cut..]);
        assert_eq!(snapshot(&parts), snapshot(&whole));
        assert_eq!(parts.infos.row_position, whole.infos.row_position);
        assert_eq!(parts.infos.column_position, whole.infos.column_position);
    }
}

#[test]
fn write_string_is_write_byte_for_each_byte() {
    let text = "ab\tc\nd\u{7f}";
    let mut by_string = writer_at(1, 78);
    by_string.write_string(text);
    let mut by_byte = writer_at(1, 78);
    for byte in text.bytes() {
        by_byte.write_byte(byte);
    }
    assert_eq!(snapshot(&by_string), snapshot(&by_byte));
    assert_eq!(by_string.infos.row_position, by_byte.infos.row_position);
    assert_eq!(by_string.infos.column_position, by_byte.infos.column_position);
}

#[test]
fn write_str_never_fails() {
    let mut writer = writer_at(0, 0);
    assert!(writer.write_str("ok\n").is_ok());
    assert!(writer.write_str("").is_ok());
    assert_eq!(writer.read(0, 0).ascii_character, b'o');
    assert_eq!(writer.read(0, 1).ascii_character, b'k');
    assert_eq!((writer.infos.row_position, writer.infos.column_position), (1, 0));
}

#[test]
fn can_write_tests_the_row_and_the_length() {
    let text = "some text";
    assert!(writer_at(0, 0).can_write(text));
    assert!(writer_at(BUFFER_HEIGHT - 1, BUFFER_WIDTH + 8).can_write(text));
    assert!(!writer_at(BUFFER_HEIGHT, 0).can_write(text));
    assert!(writer_at(0, usize::MAX - 4 * text.len()).can_write(text));
    assert!(!writer_at(0, usize::MAX - 4 * text.len() + 1).can_write(text));
    assert!(writer_at(0, usize::MAX).can_write(""));
}

#[test]
fn test_println_simple() {
    let mut writer = writer_at(0, 0);
    writer.write_string("test_println_simple output\n");
    assert_eq!(&row_text(&writer, 0)[..26], "test_println_simple output");
    assert_eq!((writer.infos.row_position, writer.infos.column_position), (1, 0));
}

#[test]
fn test_println_many() {
    let mut writer = writer_at(0, 0);
    for _ in 0..200 {
        writer.write_string("test_println_many output\n");
    }
    assert_eq!((writer.infos.row_position, writer.infos.column_position), (BUFFER_HEIGHT - 1, 0));
    for row in 0..BUFFER_HEIGHT - 1 {
        assert_eq!(&row_text(&writer, row)[..24], "test_println_many output");
    }
    assert_eq!(row_text(&writer, BUFFER_HEIGHT - 1), " ".repeat(BUFFER_WIDTH));
}

#[test]
fn test_println_output() {
    let mut writer = writer_at(0, 0);
    let s = "Some test string that fits on a single line";
    writer.write_string(s);
    writer.write_string("\n");
    for (i, c) in s.chars().enumerate() {
        let screen_char = writer.read(writer.infos.row_position - 1, i);
        assert_eq!(char::from(screen_char.ascii_character), c);
    }
}
