use kernel_core::vga_buffer::{
    Color, VgaChar, VgaColor, Writer, _print, BUFFER_HEIGHT, BUFFER_WIDTH, UNPRINTABLE,
};

fn row_text(w: &Writer, row: usize) -> String {
    w.buffer[row].iter().map(|c| c.ascii_chara as char).collect()
}

#[test]
fn color_codes_pack_background_over_foreground() {
    assert_eq!(VgaColor::new(Color::Yellow, Color::Black).as_u8(), 0x0e);
    assert_eq!(VgaColor::new(Color::White, Color::Blue).as_u8(), 0x1f);
    assert_eq!(Color::Black.code(), 0);
    assert_eq!(Color::White.code(), 15);
}

#[test]
fn a_fresh_writer_is_blank_yellow_on_black() {
    let w = Writer::new();
    assert_eq!(w.col_position, 0);
    assert_eq!(w.row_position, 0);
    assert_eq!(w.cursor_position, 0);
    assert_eq!(w.buffer.len(), BUFFER_HEIGHT);
    let blank = VgaChar { ascii_chara: b' ', color_code: VgaColor::new(Color::Yellow, Color::Black) };
    for row in &w.buffer {
        assert_eq!(row.len(), BUFFER_WIDTH);
        assert!(row.iter().all(|&c| c == blank));
    }
}

#[test]
fn write_byte_places_the_cell_and_advances_the_cursor() {
    let mut w = Writer::new();
    w.write_byte(b'A');
    assert_eq!(w.buffer[0][0], VgaChar {
        ascii_chara: b'A',
        color_code: VgaColor::new(Color::Yellow, Color::Black),
    });
    assert_eq!(w.col_position, 1);
    assert_eq!(w.cursor_position, 1);

    w.write_byte(b'\n');
    assert_eq!(w.col_position, 0);
    assert_eq!(w.row_position, 1);
    assert_eq!(w.cursor_position, BUFFER_WIDTH as u16);
}

#[test]
fn write_string_sanitizes_unprintable_bytes() {
    let mut w = Writer::new();
    w.write_string("ok\u{7f}");
    assert_eq!(w.buffer[0][0].ascii_chara, b'o');
    assert_eq!(w.buffer[0][1].ascii_chara, b'k');
    assert_eq!(w.buffer[0][2].ascii_chara, UNPRINTABLE);
    assert_eq!(w.col_position, 3);
    // A multi-byte character turns into one placeholder per byte.
    let mut w2 = Writer::new();
    w2.write_string("é");
    assert_eq!(w2.buffer[0][0].ascii_chara, UNPRINTABLE);
    assert_eq!(w2.buffer[0][1].ascii_chara, UNPRINTABLE);
    assert_eq!(w2.col_position, 2);
}

#[test]
fn lines_wrap_at_the_buffer_width() {
    let mut w = Writer::new();
    for _ in 0..BUFFER_WIDTH {
        w.write_byte(b'x');
    }
    assert_eq!(w.col_position, BUFFER_WIDTH);
    assert_eq!(w.row_position, 0);
    w.write_byte(b'y');
    assert_eq!(w.row_position, 1);
    assert_eq!(w.col_position, 1);
    assert_eq!(w.buffer[1][0].ascii_chara, b'y');
}

#[test]
fn the_last_line_scrolls_the_screen_up() {
    let mut w = Writer::new();
    w.write_string("top");
    for _ in 0..(BUFFER_HEIGHT - 1) {
        w.write_byte(b'\n');
    }
    assert_eq!(w.row_position, BUFFER_HEIGHT - 1);
    w.write_string("bottom");
    // One more line break: everything moves up one row, the bottom row
    // clears, the cursor stays on the last row.
    w.write_byte(b'\n');
    assert_eq!(w.row_position, BUFFER_HEIGHT - 1);
    assert_eq!(w.col_position, 0);
    assert!(row_text(&w, 0).starts_with("   "));
    assert!(row_text(&w, BUFFER_HEIGHT - 2).starts_with("bottom"));
    assert!(row_text(&w, BUFFER_HEIGHT - 1).chars().all(|c| c == ' '));
    // "top" scrolled off the screen entirely.
    assert!(!row_text(&w, 0).contains("top"));
}

#[test]
fn clear_blanks_the_screen_and_homes_the_cursor() {
    let mut w = Writer::new();
    w.write_string("scribble\nmore");
    w.clear();
    assert_eq!(w.col_position, 0);
    assert_eq!(w.row_position, 0);
    assert_eq!(w.cursor_position, 0);
    for row in 0..BUFFER_HEIGHT {
        assert!(row_text(&w, row).chars().all(|c| c == ' '));
    }
}

#[test]
fn print_funnels_into_the_writer() {
    let mut w = Writer::new();
    _print(&mut w, "hello\nworld");
    assert!(row_text(&w, 0).starts_with("hello"));
    assert!(row_text(&w, 1).starts_with("world"));
    assert_eq!(w.row_position, 1);
    assert_eq!(w.col_position, 5);
    assert_eq!(w.cursor_position, (BUFFER_WIDTH + 5) as u16);
}
