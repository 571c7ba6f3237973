//! The text console model: a two-dimensional buffer of characters,
//! 25 rows of 80 columns, written at the bottom row and scrolled up.
//!
//! The hardware renders such a buffer from memory-mapped cells; this
//! type carries the same state as plain values and is verified, so the
//! memory-mapped side has only to copy cells out of it.

use vstd::prelude::*;

verus! {

/// Height of the text buffer, in rows.
pub const BUFFER_HEIGHT: usize = 25;

/// Width of the text buffer, in columns.
pub const BUFFER_WIDTH: usize = 80;

/// Cells of the whole buffer.
pub const BUFFER_CELLS: usize = 2000;

/// The sixteen text-mode colors.
#[derive(Debug, Clone, Copy, PartialEq, Eq, Structural)]
pub enum Color {
    Black,
    Blue,
    Green,
    Cyan,
    Red,
    Magenta,
    Brown,
    LightGray,
    DarkGray,
    LightBlue,
    LightGreen,
    LightCyan,
    LightRed,
    Pink,
    Yellow,
    White,
}

impl Color {
    /// The color's four-bit hardware value.
    pub open spec fn spec_u8(self) -> u8 {
        match self {
            Color::Black => 0,
            Color::Blue => 1,
            Color::Green => 2,
            Color::Cyan => 3,
            Color::Red => 4,
            Color::Magenta => 5,
            Color::Brown => 6,
            Color::LightGray => 7,
            Color::DarkGray => 8,
            Color::LightBlue => 9,
            Color::LightGreen => 10,
            Color::LightCyan => 11,
            Color::LightRed => 12,
            Color::Pink => 13,
            Color::Yellow => 14,
            Color::White => 15,
        }
    }

    pub fn as_u8(self) -> (r: u8)
        ensures
            r == self.spec_u8(),
            r < 16,
    {
        match self {
            Color::Black => 0,
            Color::Blue => 1,
            Color::Green => 2,
            Color::Cyan => 3,
            Color::Red => 4,
            Color::Magenta => 5,
            Color::Brown => 6,
            Color::LightGray => 7,
            Color::DarkGray => 8,
            Color::LightBlue => 9,
            Color::LightGreen => 10,
            Color::LightCyan => 11,
            Color::LightRed => 12,
            Color::Pink => 13,
            Color::Yellow => 14,
            Color::White => 15,
        }
    }
}

/// Foreground and background color packed in one byte.
#[derive(Debug, Clone, Copy, PartialEq, Eq, Structural)]
pub struct ColorCode {
    code: u8,
}

impl View for ColorCode {
    type V = u8;

    closed spec fn view(&self) -> u8 {
        self.code
    }
}

impl ColorCode {
    /// Background in the high four bits, foreground in the low four.
    pub fn new(foreground: Color, background: Color) -> (r: Self)
        ensures
            r@ == background.spec_u8() * 16 + foreground.spec_u8(),
    {
        let f = foreground.as_u8();
        let b = background.as_u8();
        proof {
            assert((b << 4u8) | f == b * 16 + f) by (bit_vector)
                requires
                    b < 16 && f < 16,
            ;
        }
        ColorCode { code: (b << 4u8) | f }
    }

    /// The packed byte itself.
    pub fn value(self) -> (r: u8)
        ensures
            r == self@,
    {
        self.code
    }
}

/// One cell of the buffer: a byte of text and its colors.
#[derive(Debug, Clone, Copy, PartialEq, Eq, Structural)]
pub struct ScreenCharacter {
    pub ascii_character: u8,
    pub color_code: ColorCode,
}

/// The cell a cleared position shows: a space in the writer's colors.
pub open spec fn blank_char(color: ColorCode) -> ScreenCharacter {
    ScreenCharacter { ascii_character: 32, color_code: color }
}

/// Every row moved up by one; the bottom row cleared.
pub open spec fn spec_scroll(s: Seq<ScreenCharacter>, blank: ScreenCharacter) -> Seq<
    ScreenCharacter,
> {
    Seq::new(2000, |i: int| if i < 1920 { s[i + 80] } else { blank })
}

/// What writing one byte does to the column and the screen: a newline
/// scrolls; any other byte lands on the bottom row at the current
/// column, scrolling first if the row is full.
pub open spec fn spec_write_byte(
    col: int,
    s: Seq<ScreenCharacter>,
    color: ColorCode,
    b: u8,
) -> (int, Seq<ScreenCharacter>) {
    if b == 10 {
        (0, spec_scroll(s, blank_char(color)))
    } else {
        let c0: int = if col >= 80 {
            0
        } else {
            col
        };
        let s0 = if col >= 80 {
            spec_scroll(s, blank_char(color))
        } else {
            s
        };
        (
            c0 + 1,
            s0.update(1920 + c0, ScreenCharacter { ascii_character: b, color_code: color }),
        )
    }
}

/// A byte as the writer prints it: printable ASCII and newline stand,
/// anything else becomes the replacement character 0xFE.
pub open spec fn spec_printable(b: u8) -> u8 {
    if b == 10 || (0x20 <= b && b <= 0x7E) {
        b
    } else {
        0xFE
    }
}

/// Writing a whole byte string: each byte filtered through
/// `spec_printable` and written in turn.
pub open spec fn spec_write_bytes(
    col: int,
    s: Seq<ScreenCharacter>,
    color: ColorCode,
    bytes: Seq<u8>,
) -> (int, Seq<ScreenCharacter>)
    decreases bytes.len(),
{
    if bytes.len() == 0 {
        (col, s)
    } else {
        let st = spec_write_byte(col, s, color, spec_printable(bytes[0]));
        spec_write_bytes(st.0, st.1, color, bytes.skip(1))
    }
}

/// The console writer: current column, current colors, and the screen.
#[derive(Debug)]
pub struct VgaWriter {
    column_position: usize,
    color_code: ColorCode,
    buffer: Vec<ScreenCharacter>,
}

impl VgaWriter {
    pub closed spec fn spec_column(self) -> int {
        self.column_position as int
    }

    pub closed spec fn spec_color(self) -> ColorCode {
        self.color_code
    }

    pub closed spec fn spec_screen(self) -> Seq<ScreenCharacter> {
        self.buffer@
    }

    pub open spec fn wf(self) -> bool {
        self.spec_screen().len() == 2000 && 0 <= self.spec_column() <= 80
    }

    /// A writer over a cleared screen, white on black, at column zero.
    pub fn new() -> (r: Self)
        ensures
            r.wf(),
            r.spec_column() == 0,
            r.spec_color()@ == 15,
            forall|k: int| 0 <= k < 2000 ==> r.spec_screen()[k] == blank_char(r.spec_color()),
    {
        let color_code = ColorCode::new(Color::White, Color::Black);
        let blank = ScreenCharacter { ascii_character: 32, color_code };
        let mut buffer: Vec<ScreenCharacter> = Vec::new();
        let mut i: usize = 0;
        while i < BUFFER_CELLS
            invariant
                i <= BUFFER_CELLS,
                buffer@.len() == i,
                forall|k: int| 0 <= k < i ==> buffer@[k] == blank,
            decreases BUFFER_CELLS - i,
        {
            buffer.push(blank);
            i = i + 1;
        }
        VgaWriter { column_position: 0, color_code, buffer }
    }

    /// Clear one row to blanks; everything else stays.
    fn clear_row(&mut self, row: usize)
        requires
            old(self).wf(),
            row < 25,
        ensures
            final(self).wf(),
            final(self).spec_column() == old(self).spec_column(),
            final(self).spec_color() == old(self).spec_color(),
            forall|k: int|
                80 * row <= k < 80 * row + 80 ==> final(self).spec_screen()[k] == blank_char(
                    old(self).spec_color(),
                ),
            forall|k: int|
                0 <= k < 2000 && !(80 * row <= k < 80 * row + 80) ==> final(self).spec_screen()[k] == old(self).spec_screen()[k],
    {
        let blank = ScreenCharacter { ascii_character: 32, color_code: self.color_code };
        let mut col: usize = 0;
        while col < BUFFER_WIDTH
            invariant
                self.wf(),
                row < 25,
                col <= 80,
                self.spec_column() == old(self).spec_column(),
                self.spec_color() == old(self).spec_color(),
                blank == blank_char(old(self).spec_color()),
                forall|k: int|
                    80 * row <= k < 80 * row + col ==> self.spec_screen()[k] == blank_char(
                        old(self).spec_color(),
                    ),
                forall|k: int|
                    0 <= k < 2000 && !(80 * row <= k < 80 * row + col) ==> self.spec_screen()[
                        k] == old(self).spec_screen()[k],
            decreases BUFFER_WIDTH - col,
        {
            self.buffer[BUFFER_WIDTH * row + col] = blank;
            col = col + 1;
        }
    }

    /// Move every row up one, clear the bottom row, return the cursor
    /// to column zero.
    fn new_line(&mut self)
        requires
            old(self).wf(),
        ensures
            final(self).wf(),
            final(self).spec_column() == 0,
            final(self).spec_color() == old(self).spec_color(),
            final(self).spec_screen() == spec_scroll(
                old(self).spec_screen(),
                blank_char(old(self).spec_color()),
            ),
    {
        let mut idx: usize = 0;
        while idx < 1920
            invariant
                self.wf(),
                idx <= 1920,
                self.spec_column() == old(self).spec_column(),
                self.spec_color() == old(self).spec_color(),
                forall|k: int|
                    0 <= k < idx ==> self.spec_screen()[k] == old(self).spec_screen()[k + 80],
                forall|k: int|
                    idx <= k < 2000 ==> self.spec_screen()[k] == old(self).spec_screen()[k],
            decreases 1920 - idx,
        {
            let ch = self.buffer[idx + 80];
            self.buffer[idx] = ch;
            idx = idx + 1;
        }
        self.clear_row(BUFFER_HEIGHT - 1);
        self.column_position = 0;
        proof {
            assert(self.spec_screen() =~= spec_scroll(
                old(self).spec_screen(),
                blank_char(old(self).spec_color()),
            ));
        }
    }

    /// Write one byte at the cursor, scrolling as `spec_write_byte`
    /// states it.
    pub fn write_byte(&mut self, byte: u8)
        requires
            old(self).wf(),
        ensures
            final(self).wf(),
            final(self).spec_color() == old(self).spec_color(),
            (final(self).spec_column(), final(self).spec_screen()) == spec_write_byte(
                old(self).spec_column(),
                old(self).spec_screen(),
                old(self).spec_color(),
                byte,
            ),
    {
        if byte == 10 {
            self.new_line();
        } else {
            if self.column_position >= BUFFER_WIDTH {
                self.new_line();
            }
            let col = self.column_position;
            let color_code = self.color_code;
            self.buffer[1920 + col] = ScreenCharacter { ascii_character: byte, color_code };
            self.column_position = col + 1;
        }
    }

    /// Write a byte string: printable ASCII and newlines as they are,
    /// anything else as the replacement character.
    pub fn write_string(&mut self, s: &[u8])
        requires
            old(self).wf(),
        ensures
            final(self).wf(),
            final(self).spec_color() == old(self).spec_color(),
            (final(self).spec_column(), final(self).spec_screen()) == spec_write_bytes(
                old(self).spec_column(),
                old(self).spec_screen(),
                old(self).spec_color(),
                s@,
            ),
    {
        let n = s.len();
        let mut i: usize = 0;
        proof {
            assert(s@.skip(0) =~= s@);
        }
        while i < n
            invariant
                self.wf(),
                n == s@.len(),
                i <= n,
                self.spec_color() == old(self).spec_color(),
                spec_write_bytes(
                    old(self).spec_column(),
                    old(self).spec_screen(),
                    old(self).spec_color(),
                    s@,
                ) == spec_write_bytes(
                    self.spec_column(),
                    self.spec_screen(),
                    self.spec_color(),
                    s@.skip(i as int),
                ),
            decreases n - i,
        {
            let byte = s[i];
            proof {
                assert(s@.skip(i as int)[0] == s@[i as int]);
                assert(s@.skip(i as int).skip(1) =~= s@.skip(i as int + 1));
            }
            if byte == 10 || (0x20 <= byte && byte <= 0x7E) {
                self.write_byte(byte);
            } else {
                self.write_byte(0xFE);
            }
            i = i + 1;
        }
        proof {
            assert(s@.skip(n as int).len() == 0);
        }
    }

    /// Clear the whole screen to blanks; the cursor stays where it is.
    pub fn clear(&mut self)
        requires
            old(self).wf(),
        ensures
            final(self).wf(),
            final(self).spec_column() == old(self).spec_column(),
            final(self).spec_color() == old(self).spec_color(),
            forall|k: int|
                0 <= k < 2000 ==> final(self).spec_screen()[k] == blank_char(
                    old(self).spec_color(),
                ),
    {
        let blank = ScreenCharacter { ascii_character: 32, color_code: self.color_code };
        let mut idx: usize = 0;
        while idx < BUFFER_CELLS
            invariant
                self.wf(),
                idx <= BUFFER_CELLS,
                self.spec_column() == old(self).spec_column(),
                self.spec_color() == old(self).spec_color(),
                blank == blank_char(old(self).spec_color()),
                forall|k: int|
                    0 <= k < idx ==> self.spec_screen()[k] == blank_char(old(self).spec_color()),
            decreases BUFFER_CELLS - idx,
        {
            self.buffer[idx] = blank;
            idx = idx + 1;
        }
    }

    /// The cell at `row`, `col`, for rendering the model to hardware.
    pub fn cell_at(&self, row: usize, col: usize) -> (r: ScreenCharacter)
        requires
            self.wf(),
            row < 25,
            col < 80,
        ensures
            r == self.spec_screen()[80 * row + col],
    {
        self.buffer[BUFFER_WIDTH * row + col]
    }

    /// The current column of the cursor.
    pub fn column(&self) -> (r: usize)
        ensures
            r == self.spec_column(),
    {
        self.column_position
    }
}

} // verus!
