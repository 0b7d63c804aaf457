//! The VGA text-mode writer used for diagnostic printing.
//!
//! The screen is a fixed grid of character cells, each an ASCII byte and
//! a color. The writer appends bytes at a cursor, wraps at the end of a
//! line, scrolls the grid up by one row when the last line overflows,
//! and replaces bytes outside the printable range by a placeholder. On
//! hardware the grid lives in the adapter's memory and the cursor is
//! programmed through two ports; here the grid is owned memory and the
//! cursor a field, and the unverified shell mirrors both to the device.

use vstd::prelude::*;

use vstd::string::StringSliceAdditionalSpecFns;

verus! {

/// Character cells per row.
pub const BUFFER_WIDTH: usize = 80;

/// Rows on the screen.
pub const BUFFER_HEIGHT: usize = 25;

/// Byte written for characters outside the printable range.
pub const UNPRINTABLE: u8 = 0xfe;

/// The sixteen VGA text-mode colors.
#[derive(Clone, Copy, PartialEq, Eq, Structural, Debug)]
pub enum Color {
    Black,
    Blue,
    Green,
    Cyan,
    Red,
    Magenta,
    Brown,
    LightGray,
    DarkGray,
    LightBlue,
    LightGreen,
    LightCyan,
    LightRed,
    Pink,
    Yellow,
    White,
}

impl Color {
    /// The four-bit code the adapter assigns this color.
    pub open spec fn spec_code(self) -> u8 {
        match self {
            Color::Black => 0,
            Color::Blue => 1,
            Color::Green => 2,
            Color::Cyan => 3,
            Color::Red => 4,
            Color::Magenta => 5,
            Color::Brown => 6,
            Color::LightGray => 7,
            Color::DarkGray => 8,
            Color::LightBlue => 9,
            Color::LightGreen => 10,
            Color::LightCyan => 11,
            Color::LightRed => 12,
            Color::Pink => 13,
            Color::Yellow => 14,
            Color::White => 15,
        }
    }

    pub fn code(self) -> (c: u8)
        ensures
            c == self.spec_code(),
    {
        match self {
            Color::Black => 0,
            Color::Blue => 1,
            Color::Green => 2,
            Color::Cyan => 3,
            Color::Red => 4,
            Color::Magenta => 5,
            Color::Brown => 6,
            Color::LightGray => 7,
            Color::DarkGray => 8,
            Color::LightBlue => 9,
            Color::LightGreen => 10,
            Color::LightCyan => 11,
            Color::LightRed => 12,
            Color::Pink => 13,
            Color::Yellow => 14,
            Color::White => 15,
        }
    }
}

/// A color attribute byte: background color in the high nibble,
/// foreground color in the low nibble.
#[derive(Clone, Copy, PartialEq, Eq, Structural, Debug)]
pub struct VgaColor(pub u8);

impl VgaColor {
    pub open spec fn spec_new(foreground: Color, background: Color) -> VgaColor {
        VgaColor((background.spec_code() << 4) | foreground.spec_code())
    }

    pub fn new(foreground: Color, background: Color) -> (c: VgaColor)
        ensures
            c == VgaColor::spec_new(foreground, background),
    {
        VgaColor((background.code() << 4) | foreground.code())
    }

    /// The raw attribute byte.
    pub fn as_u8(self) -> (b: u8)
        ensures
            b == self.0,
    {
        self.0
    }
}

/// One screen cell: an ASCII byte and its color attribute.
#[derive(Clone, Copy, PartialEq, Eq, Structural, Debug)]
pub struct VgaChar {
    pub ascii_chara: u8,
    pub color_code: VgaColor,
}

/// The writer's abstract state: the current color, the cursor column and
/// row, and the grid of cells.
pub ghost struct ScreenState {
    pub color: VgaColor,
    pub col: int,
    pub row: int,
    pub chars: Seq<Seq<VgaChar>>,
}

/// A blank cell in the given color.
pub open spec fn spec_blank(color: VgaColor) -> VgaChar {
    VgaChar { ascii_chara: 0x20, color_code: color }
}

/// A row of blank cells.
pub open spec fn spec_blank_row(color: VgaColor) -> Seq<VgaChar> {
    Seq::new(BUFFER_WIDTH as nat, |c: int| spec_blank(color))
}

/// The grid scrolled up one row: every row takes the contents of the row
/// below it and the bottom row becomes blank.
pub open spec fn spec_scroll(chars: Seq<Seq<VgaChar>>, color: VgaColor) -> Seq<Seq<VgaChar>> {
    Seq::new(
        BUFFER_HEIGHT as nat,
        |r: int|
            if r + 1 < BUFFER_HEIGHT {
                chars[r + 1]
            } else {
                spec_blank_row(color)
            },
    )
}

/// A line break: the cursor returns to column zero and moves down one
/// row, scrolling the grid when it already stands on the last row.
pub open spec fn spec_new_line(s: ScreenState) -> ScreenState {
    if s.row < BUFFER_HEIGHT - 1 {
        ScreenState { color: s.color, col: 0, row: s.row + 1, chars: s.chars }
    } else {
        ScreenState { color: s.color, col: 0, row: s.row, chars: spec_scroll(s.chars, s.color) }
    }
}

/// One byte placed at the cursor in the current color; the cursor moves
/// one column right.
pub open spec fn spec_put_char(s: ScreenState, b: u8) -> ScreenState {
    ScreenState {
        color: s.color,
        col: s.col + 1,
        row: s.row,
        chars: s.chars.update(
            s.row,
            s.chars[s.row].update(s.col, VgaChar { ascii_chara: b, color_code: s.color }),
        ),
    }
}

/// One byte written: a line feed breaks the line; any other byte is
/// placed at the cursor, after wrapping to a fresh line if the cursor
/// stands past the last column.
pub open spec fn spec_write_byte(s: ScreenState, b: u8) -> ScreenState {
    if b == 0x0a {
        spec_new_line(s)
    } else if s.col > BUFFER_WIDTH - 1 {
        spec_put_char(spec_new_line(s), b)
    } else {
        spec_put_char(s, b)
    }
}

/// Printable bytes and the line feed pass through; everything else is
/// replaced by the placeholder.
pub open spec fn spec_sanitize(b: u8) -> u8 {
    if (0x20 <= b && b <= 0x7e) || b == 0x0a {
        b
    } else {
        UNPRINTABLE
    }
}

/// A byte sequence written left to right, each byte sanitized.
pub open spec fn spec_write_bytes(s: ScreenState, bs: Seq<u8>) -> ScreenState
    decreases bs.len(),
{
    if bs.len() == 0 {
        s
    } else {
        spec_write_bytes(spec_write_byte(s, spec_sanitize(bs[0])), bs.drop_first())
    }
}

/// The cleared screen: every cell blank in the current color, the cursor
/// at the origin.
pub open spec fn spec_cleared(s: ScreenState) -> ScreenState {
    ScreenState {
        color: s.color,
        col: 0,
        row: 0,
        chars: Seq::new(BUFFER_HEIGHT as nat, |r: int| spec_blank_row(s.color)),
    }
}

/// Writing a sequence and then more bytes is writing the concatenation:
/// the step case of `spec_write_bytes`, taken from the right.
pub proof fn lemma_write_bytes_snoc(s: ScreenState, bs: Seq<u8>, b: u8)
    ensures
        spec_write_bytes(s, bs.push(b)) == spec_write_byte(
            spec_write_bytes(s, bs),
            spec_sanitize(b),
        ),
    decreases bs.len(),
{
    reveal_with_fuel(spec_write_bytes, 2);
    if bs.len() == 0 {
        assert(bs.push(b)[0] == b);
        assert(bs.push(b).drop_first() =~= Seq::<u8>::empty());
    } else {
        assert(bs.push(b)[0] == bs[0]);
        assert(bs.push(b).drop_first() =~= bs.drop_first().push(b));
        lemma_write_bytes_snoc(spec_write_byte(s, spec_sanitize(bs[0])), bs.drop_first(), b);
    }
}

/// The character writer.
pub struct Writer {
    pub color_code: VgaColor,
    pub col_position: usize,
    pub row_position: usize,
    pub cursor_position: u16,
    pub buffer: Vec<Vec<VgaChar>>,
}

impl View for Writer {
    type V = ScreenState;

    open spec fn view(&self) -> ScreenState {
        ScreenState {
            color: self.color_code,
            col: self.col_position as int,
            row: self.row_position as int,
            chars: self.buffer@.map_values(|row: Vec<VgaChar>| row@),
        }
    }
}

/// A freshly built row of blank cells.
fn blank_row(color: VgaColor) -> (v: Vec<VgaChar>)
    ensures
        v@ == spec_blank_row(color),
{
    let mut v: Vec<VgaChar> = Vec::new();
    let mut c: usize = 0;
    while c < BUFFER_WIDTH
        invariant
            c <= BUFFER_WIDTH,
            v@.len() == c,
            forall|j: int| 0 <= j < c ==> v@[j] == spec_blank(color),
        decreases BUFFER_WIDTH - c,
    {
        v.push(VgaChar { ascii_chara: 0x20, color_code: color });
        c = c + 1;
    }
    proof {
        assert(v@ =~= spec_blank_row(color));
    }
    v
}

impl Writer {
    /// The grid has its fixed dimensions, the cursor stands inside it
    /// (the column may rest one past the last cell until the next write
    /// wraps it), and the linear cursor position mirrors row and column.
    pub open spec fn wf(self) -> bool {
        &&& self.buffer@.len() == BUFFER_HEIGHT
        &&& forall|r: int|
            0 <= r < BUFFER_HEIGHT ==> (#[trigger] self.buffer@[r])@.len() == BUFFER_WIDTH
        &&& self.col_position <= BUFFER_WIDTH
        &&& self.row_position < BUFFER_HEIGHT
        &&& self.cursor_position == self.row_position * BUFFER_WIDTH + self.col_position
    }

    /// A fresh writer: yellow on black, cleared screen, cursor at the
    /// origin.
    pub fn new() -> (w: Writer)
        ensures
            w.wf(),
            w@ == (ScreenState {
                color: VgaColor::spec_new(Color::Yellow, Color::Black),
                col: 0,
                row: 0,
                chars: Seq::new(
                    BUFFER_HEIGHT as nat,
                    |r: int| spec_blank_row(VgaColor::spec_new(Color::Yellow, Color::Black)),
                ),
            }),
    {
        let color_code = VgaColor::new(Color::Yellow, Color::Black);
        let mut buffer: Vec<Vec<VgaChar>> = Vec::new();
        let mut r: usize = 0;
        while r < BUFFER_HEIGHT
            invariant
                r <= BUFFER_HEIGHT,
                buffer@.len() == r,
                forall|j: int| 0 <= j < r ==> (#[trigger] buffer@[j])@ == spec_blank_row(color_code),
            decreases BUFFER_HEIGHT - r,
        {
            buffer.push(blank_row(color_code));
            r = r + 1;
        }
        let w = Writer {
            color_code,
            col_position: 0,
            row_position: 0,
            cursor_position: 0,
            buffer,
        };
        proof {
            assert(w@.chars =~= Seq::new(
                BUFFER_HEIGHT as nat,
                |r: int| spec_blank_row(VgaColor::spec_new(Color::Yellow, Color::Black)),
            ));
        }
        w
    }

    /// Recompute the linear cursor position from row and column. On
    /// hardware this value is then programmed into the adapter's cursor
    /// registers by the shell.
    fn update_cursor(&mut self)
        requires
            old(self).row_position < BUFFER_HEIGHT,
            old(self).col_position <= BUFFER_WIDTH,
        ensures
            *final(self) == (Writer {
                cursor_position: (old(self).row_position * BUFFER_WIDTH
                    + old(self).col_position) as u16,
                ..*old(self)
            }),
    {
        self.cursor_position = (self.row_position * BUFFER_WIDTH + self.col_position) as u16;
    }

    /// Write one byte: a line feed breaks the line, anything else lands
    /// at the cursor, wrapping first when the line is full.
    pub fn write_byte(&mut self, byte: u8)
        requires
            old(self).wf(),
        ensures
            final(self).wf(),
            final(self)@ == spec_write_byte(old(self)@, byte),
    {
        if byte == 0x0a {
            self.new_line();
        } else {
            if self.col_position > BUFFER_WIDTH - 1 {
                self.new_line();
            }
            let row = self.row_position;
            let col = self.col_position;
            let color_code = self.color_code;
            self.buffer[row][col] = VgaChar { ascii_chara: byte, color_code };
            self.col_position = col + 1;
            self.update_cursor();
            proof {
                let prior = if old(self)@.col > BUFFER_WIDTH - 1 {
                    spec_new_line(old(self)@)
                } else {
                    old(self)@
                };
                assert(self@.chars =~= spec_put_char(prior, byte).chars);
            }
        }
    }

    /// Write a string byte by byte; bytes outside the printable range
    /// appear as the placeholder.
    pub fn write_string(&mut self, s: &str)
        requires
            old(self).wf(),
        ensures
            final(self).wf(),
            final(self)@ == spec_write_bytes(old(self)@, s.spec_bytes()),
    {
        let bytes = s.as_bytes();
        let n = bytes.len();
        let mut i: usize = 0;
        while i < n
            invariant
                self.wf(),
                i <= n,
                bytes@.len() == n,
                bytes@ == s.spec_bytes(),
                self@ == spec_write_bytes(old(self)@, bytes@.take(i as int)),
            decreases n - i,
        {
            let b = bytes[i];
            if (0x20 <= b && b <= 0x7e) || b == 0x0a {
                self.write_byte(b);
            } else {
                self.write_byte(UNPRINTABLE);
            }
            proof {
                lemma_write_bytes_snoc(old(self)@, bytes@.take(i as int), bytes@[i as int]);
                assert(bytes@.take(i + 1) =~= bytes@.take(i as int).push(bytes@[i as int]));
            }
            i = i + 1;
        }
        proof {
            assert(bytes@.take(n as int) =~= bytes@);
        }
    }

    /// Break the line: cursor to column zero, one row down, scrolling
    /// the grid when the cursor already stands on the last row.
    pub fn new_line(&mut self)
        requires
            old(self).wf(),
        ensures
            final(self).wf(),
            final(self)@ == spec_new_line(old(self)@),
    {
        if self.row_position < BUFFER_HEIGHT - 1 {
            self.row_position = self.row_position + 1;
        } else {
            self.buffer.remove(0);
            let row = blank_row(self.color_code);
            self.buffer.push(row);
            proof {
                assert(self@.chars =~= spec_scroll(old(self)@.chars, old(self)@.color));
            }
        }
        self.col_position = 0;
        self.update_cursor();
    }

    /// Blank one row in the current color.
    fn clear_row(&mut self, row: usize)
        requires
            old(self).wf(),
            row < BUFFER_HEIGHT,
        ensures
            final(self).wf(),
            *final(self) == (Writer {
                buffer: final(self).buffer,
                ..*old(self)
            }),
            final(self).buffer@.len() == BUFFER_HEIGHT,
            final(self).buffer@[row as int]@ == spec_blank_row(old(self).color_code),
            forall|j: int|
                0 <= j < BUFFER_HEIGHT && j != row ==> final(self).buffer@[j] == old(
                    self,
                ).buffer@[j],
    {
        let blank = blank_row(self.color_code);
        self.buffer[row] = blank;
    }

    /// Blank the whole screen and return the cursor to the origin.
    pub fn clear(&mut self)
        requires
            old(self).wf(),
        ensures
            final(self).wf(),
            final(self)@ == spec_cleared(old(self)@),
    {
        let mut row: usize = 0;
        while row < BUFFER_HEIGHT
            invariant
                self.wf(),
                row <= BUFFER_HEIGHT,
                self.color_code == old(self).color_code,
                self.col_position == old(self).col_position,
                self.row_position == old(self).row_position,
                self.buffer@.len() == BUFFER_HEIGHT,
                forall|j: int|
                    0 <= j < row ==> (#[trigger] self.buffer@[j])@ == spec_blank_row(
                        old(self).color_code,
                    ),
                forall|j: int|
                    row <= j < BUFFER_HEIGHT ==> #[trigger] self.buffer@[j] == old(
                        self,
                    ).buffer@[j],
            decreases BUFFER_HEIGHT - row,
        {
            self.clear_row(row);
            row = row + 1;
        }
        self.col_position = 0;
        self.row_position = 0;
        self.update_cursor();
        proof {
            assert(self@.chars =~= spec_cleared(old(self)@).chars);
        }
    }
}

/// Write a string through a writer: the single entry the print macros of
/// the shell funnel into.
pub fn _print(writer: &mut Writer, s: &str)
    requires
        old(writer).wf(),
    ensures
        final(writer).wf(),
        final(writer)@ == spec_write_bytes(old(writer)@, s.spec_bytes()),
{
    writer.write_string(s);
}

} // verus!
