use kernel_core::vga::{Color, ColorCode, VgaWriter};

#[test]
fn fresh_writer_shows_a_blank_screen() {
    let w = VgaWriter::new();
    assert_eq!(w.column(), 0);
    let cell = w.cell_at(0, 0);
    assert_eq!(cell.ascii_character, b' ');
    assert_eq!(cell.color_code, ColorCode::new(Color::White, Color::Black));
}

#[test]
fn bytes_land_on_the_bottom_row() {
    let mut w = VgaWriter::new();
    w.write_byte(b'H');
    w.write_byte(b'i');
    assert_eq!(w.column(), 2);
    assert_eq!(w.cell_at(24, 0).ascii_character, b'H');
    assert_eq!(w.cell_at(24, 1).ascii_character, b'i');
}

#[test]
fn newline_scrolls_the_screen_up() {
    let mut w = VgaWriter::new();
    w.write_string(b"Hi\n");
    assert_eq!(w.column(), 0);
    assert_eq!(w.cell_at(23, 0).ascii_character, b'H');
    assert_eq!(w.cell_at(23, 1).ascii_character, b'i');
    assert_eq!(w.cell_at(24, 0).ascii_character, b' ');
}

#[test]
fn unprintable_bytes_become_the_replacement_character() {
    let mut w = VgaWriter::new();
    w.write_string(&[0x01, 0x1F, 0x7F]);
    assert_eq!(w.cell_at(24, 0).ascii_character, 0xFE);
    assert_eq!(w.cell_at(24, 1).ascii_character, 0xFE);
    assert_eq!(w.cell_at(24, 2).ascii_character, 0xFE);
}

#[test]
fn a_full_row_wraps_onto_a_fresh_line() {
    let mut w = VgaWriter::new();
    for _ in 0..80 {
        w.write_byte(b'x');
    }
    assert_eq!(w.column(), 80);
    w.write_byte(b'y');
    // The row of x's scrolled up; y starts the new bottom row.
    assert_eq!(w.column(), 1);
    assert_eq!(w.cell_at(23, 0).ascii_character, b'x');
    assert_eq!(w.cell_at(23, 79).ascii_character, b'x');
    assert_eq!(w.cell_at(24, 0).ascii_character, b'y');
}

#[test]
fn clear_blanks_everything_and_keeps_the_cursor() {
    let mut w = VgaWriter::new();
    w.write_string(b"some text");
    let col = w.column();
    w.clear();
    assert_eq!(w.column(), col);
    assert_eq!(w.cell_at(24, 0).ascii_character, b' ');
    assert_eq!(w.cell_at(24, 8).ascii_character, b' ');
}

#[test]
fn color_codes_pack_background_high_and_foreground_low() {
    assert_eq!(ColorCode::new(Color::Yellow, Color::Blue).value(), 0x1E);
    assert_eq!(ColorCode::new(Color::White, Color::Black).value(), 0x0F);
    assert_eq!(Color::LightGreen.as_u8(), 10);
}
