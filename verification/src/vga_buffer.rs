//! Frame-buffer text console: cursor state, color packing, and the byte-write
//! policy (backspace, tab, newline, carriage return, printable glyphs) over a
//! fixed 25x80 grid of two-byte cells.
//!
//! The grid here is an owned, in-memory image of the screen. The memory-mapped
//! hardware buffer lives outside this crate; a caller mirrors the cells of
//! this image into it after each write, so all cursor arithmetic, scrolling
//! and substitution logic is decided and proved here.

use vstd::prelude::*;
use vstd::string::StringSliceAdditionalSpecFns;

verus! {

pub const BUFFER_HEIGHT: usize = 25;
pub const BUFFER_WIDTH: usize = 80;
/// Tab stops sit at every multiple of this column count.
pub const TAB_SIZE: usize = 4;
/// Glyph written in place of a byte that the console cannot render.
pub const UNPRINTABLE_GLYPH: u8 = 0xfe;
/// The blank cell character used when a row is cleared.
pub const BLANK_BYTE: u8 = 0x20;

pub const BACKSPACE_BYTE: u8 = 0x08;
pub const TAB_BYTE: u8 = 0x09;
pub const NEWLINE_BYTE: u8 = 0x0a;
pub const CARRIAGE_RETURN_BYTE: u8 = 0x0d;

/// The 16 fixed palette entries, in hardware order: `Black` is palette
/// index 0 and `White` is 15.
#[allow(dead_code)]
#[derive(Debug, Clone, Copy, PartialEq, Eq, Structural)]
pub enum Color {
    Black,
    Blue,
    Green,
    Cyan,
    Red,
    Magenta,
    Brown,
    LightGray,
    DarkGray,
    LightBlue,
    LightGreen,
    LightCyan,
    LightRed,
    Pink,
    Yellow,
    White,
}

impl Color {
    /// Palette index of this color.
    pub open spec fn spec_index_value(self) -> u8 {
        match self {
            Color::Black => 0,
            Color::Blue => 1,
            Color::Green => 2,
            Color::Cyan => 3,
            Color::Red => 4,
            Color::Magenta => 5,
            Color::Brown => 6,
            Color::LightGray => 7,
            Color::DarkGray => 8,
            Color::LightBlue => 9,
            Color::LightGreen => 10,
            Color::LightCyan => 11,
            Color::LightRed => 12,
            Color::Pink => 13,
            Color::Yellow => 14,
            Color::White => 15,
        }
    }

    pub fn index_value(self) -> (v: u8)
        ensures
            v == self.spec_index_value(),
            v < 16,
    {
        match self {
            Color::Black => 0,
            Color::Blue => 1,
            Color::Green => 2,
            Color::Cyan => 3,
            Color::Red => 4,
            Color::Magenta => 5,
            Color::Brown => 6,
            Color::LightGray => 7,
            Color::DarkGray => 8,
            Color::LightBlue => 9,
            Color::LightGreen => 10,
            Color::LightCyan => 11,
            Color::LightRed => 12,
            Color::Pink => 13,
            Color::Yellow => 14,
            Color::White => 15,
        }
    }
}

/// A packed color byte: foreground palette index in the low four bits,
/// background palette index in the high four bits.
#[derive(Debug, Clone, Copy, PartialEq, Eq, Structural)]
pub struct ColorCode(pub u8);

impl ColorCode {
    pub fn new(foreground: Color, background: Color) -> (c: ColorCode)
        ensures
            c.0 == background.spec_index_value() * 16 + foreground.spec_index_value(),
    {
        let fg = foreground.index_value();
        let bg = background.index_value();
        proof {
            assert(((bg << 4u8) | fg) == bg * 16 + fg) by (bit_vector)
                requires
                    fg < 16 && bg < 16,
            ;
        }
        ColorCode((bg << 4u8) | fg)
    }

    /// Foreground palette index packed into this code.
    pub open spec fn spec_foreground(self) -> u8 {
        self.0 % 16
    }

    /// Background palette index packed into this code.
    pub open spec fn spec_background(self) -> u8 {
        self.0 / 16
    }
}

/// Law: packing two palette indices into a color code loses nothing — the
/// foreground and background of the packed byte are the colors it was built
/// from.
pub proof fn lemma_color_code_round_trip(c: ColorCode, foreground: Color, background: Color)
    requires
        c.0 == background.spec_index_value() * 16 + foreground.spec_index_value(),
    ensures
        c.spec_foreground() == foreground.spec_index_value(),
        c.spec_background() == background.spec_index_value(),
{
    assert(foreground.spec_index_value() < 16);
    assert(background.spec_index_value() < 16);
}

/// One two-byte console cell: an ASCII code and a packed color.
#[derive(Debug, Clone, Copy, PartialEq, Eq, Structural)]
pub struct ScreenChar {
    pub ascii_character: u8,
    pub color_code: ColorCode,
}

/// Mathematical image of a `Writer`: cursor position, active color, and the
/// grid of cells, row-major.
#[verifier::ext_equal]
pub ghost struct WriterView {
    pub row: int,
    pub col: int,
    pub color: ColorCode,
    pub grid: Seq<Seq<ScreenChar>>,
}

/// The grid is exactly `BUFFER_HEIGHT` rows of `BUFFER_WIDTH` cells, the
/// cursor row is on the grid, and the cursor column is at most one past the
/// last cell (a column of `BUFFER_WIDTH` means the row is full and the next
/// printable byte breaks the line first).
pub open spec fn view_wf(w: WriterView) -> bool {
    &&& w.grid.len() == BUFFER_HEIGHT as int
    &&& forall|r: int| 0 <= r < w.grid.len() ==> (#[trigger] w.grid[r]).len() == BUFFER_WIDTH as int
    &&& 0 <= w.row < BUFFER_HEIGHT as int
    &&& 0 <= w.col <= BUFFER_WIDTH as int
}

pub open spec fn blank_char(color: ColorCode) -> ScreenChar {
    ScreenChar { ascii_character: BLANK_BYTE, color_code: color }
}

pub open spec fn blank_row(color: ColorCode) -> Seq<ScreenChar> {
    Seq::new(BUFFER_WIDTH as nat, |c: int| blank_char(color))
}

/// Every row moves up by one and the last row becomes blank in the given
/// color.
pub open spec fn scrolled(grid: Seq<Seq<ScreenChar>>, color: ColorCode) -> Seq<Seq<ScreenChar>> {
    grid.subrange(1, grid.len() as int).push(blank_row(color))
}

/// A line break: the cursor moves to the start of the next row; from the last
/// row the grid scrolls instead and the cursor stays on the last row.
pub open spec fn line_feed(w: WriterView) -> WriterView {
    if w.row + 1 >= BUFFER_HEIGHT as int {
        WriterView {
            row: BUFFER_HEIGHT as int - 1,
            col: 0,
            color: w.color,
            grid: scrolled(w.grid, w.color),
        }
    } else {
        WriterView { row: w.row + 1, col: 0, color: w.color, grid: w.grid }
    }
}

/// Backspace: one column left if possible; never past column 0, never across
/// a row boundary, and the cell contents stay untouched.
pub open spec fn backspace_spec(w: WriterView) -> WriterView {
    if w.col > 0 {
        WriterView { row: w.row, col: w.col - 1, color: w.color, grid: w.grid }
    } else {
        w
    }
}

/// The smallest multiple of `TAB_SIZE` strictly greater than `col`.
pub open spec fn next_tab_stop(col: int) -> int {
    col + (TAB_SIZE as int - col % (TAB_SIZE as int))
}

/// Tab: advance to the next tab stop, or break the line once when that stop
/// would be at or past the buffer width.
pub open spec fn tab_spec(w: WriterView) -> WriterView {
    if next_tab_stop(w.col) >= BUFFER_WIDTH as int {
        line_feed(w)
    } else {
        WriterView { row: w.row, col: next_tab_stop(w.col), color: w.color, grid: w.grid }
    }
}

/// Carriage return: back to column 0 on the same row.
pub open spec fn carriage_return_spec(w: WriterView) -> WriterView {
    WriterView { row: w.row, col: 0, color: w.color, grid: w.grid }
}

/// Write one glyph at the cursor in the active color, breaking the line
/// first when the row is full, and advance the column.
pub open spec fn put_char_spec(w: WriterView, byte: u8) -> WriterView {
    let v = if w.col >= BUFFER_WIDTH as int {
        line_feed(w)
    } else {
        w
    };
    WriterView {
        row: v.row,
        col: v.col + 1,
        color: v.color,
        grid: v.grid.update(
            v.row,
            v.grid[v.row].update(v.col, ScreenChar { ascii_character: byte, color_code: v.color }),
        ),
    }
}

/// The byte-write policy, in priority order.
pub open spec fn write_byte_spec(w: WriterView, byte: u8) -> WriterView {
    if byte == BACKSPACE_BYTE {
        backspace_spec(w)
    } else if byte == TAB_BYTE {
        tab_spec(w)
    } else if byte == NEWLINE_BYTE {
        line_feed(w)
    } else if byte == CARRIAGE_RETURN_BYTE {
        carriage_return_spec(w)
    } else {
        put_char_spec(w, byte)
    }
}

pub open spec fn write_bytes_spec(w: WriterView, bytes: Seq<u8>) -> WriterView
    decreases bytes.len(),
{
    if bytes.len() == 0 {
        w
    } else {
        write_bytes_spec(write_byte_spec(w, bytes[0]), bytes.skip(1))
    }
}

/// Printable ASCII, rendered as itself.
pub open spec fn is_printable_byte(b: u8) -> bool {
    0x20 <= b <= 0x7e
}

/// Bytes the string filter passes through to the byte-write policy
/// unchanged: printable ASCII plus the four cursor-control bytes.
pub open spec fn is_passthrough_byte(b: u8) -> bool {
    ||| is_printable_byte(b)
    ||| b == NEWLINE_BYTE
    ||| b == CARRIAGE_RETURN_BYTE
    ||| b == TAB_BYTE
    ||| b == BACKSPACE_BYTE
}

pub open spec fn filter_byte(b: u8) -> u8 {
    if is_passthrough_byte(b) {
        b
    } else {
        UNPRINTABLE_GLYPH
    }
}

pub open spec fn filtered(bytes: Seq<u8>) -> Seq<u8> {
    bytes.map_values(|b: u8| filter_byte(b))
}

/// What writing a string does: every byte runs through the filter and then
/// the byte-write policy, in order.
pub open spec fn write_string_spec(w: WriterView, bytes: Seq<u8>) -> WriterView {
    write_bytes_spec(w, filtered(bytes))
}

/// Folding the byte-write policy over a sequence takes appended bytes last.
pub proof fn lemma_write_bytes_push(w: WriterView, bytes: Seq<u8>, b: u8)
    ensures
        write_bytes_spec(w, bytes.push(b)) == write_byte_spec(write_bytes_spec(w, bytes), b),
    decreases bytes.len(),
{
    if bytes.len() == 0 {
        assert(bytes.push(b)[0] == b);
        assert(bytes.push(b).skip(1) =~= Seq::<u8>::empty());
        assert(write_bytes_spec(w, bytes.push(b)) == write_bytes_spec(
            write_byte_spec(w, b),
            Seq::<u8>::empty(),
        ));
        assert(write_bytes_spec(w, bytes) == w);
    } else {
        assert(bytes.push(b)[0] == bytes[0]);
        assert(bytes.push(b).skip(1) =~= bytes.skip(1).push(b));
        assert(write_bytes_spec(w, bytes.push(b)) == write_bytes_spec(
            write_byte_spec(w, bytes[0]),
            bytes.skip(1).push(b),
        ));
        lemma_write_bytes_push(write_byte_spec(w, bytes[0]), bytes.skip(1), b);
        assert(write_bytes_spec(w, bytes) == write_bytes_spec(
            write_byte_spec(w, bytes[0]),
            bytes.skip(1),
        ));
    }
}

/// The byte-write policy keeps the grid shape and the cursor bounds.
pub proof fn lemma_write_byte_wf(w: WriterView, byte: u8)
    requires
        view_wf(w),
    ensures
        view_wf(write_byte_spec(w, byte)),
{
    assert(view_wf(line_feed(w)));
}


/// The bytes the console renders for one character, exactly as its encoded
/// byte stream fares under the string filter: an ASCII character is one
/// filtered byte, and every byte of a longer encoding lies outside the
/// printable range, so such a character renders as one unprintable glyph per
/// encoded byte.
pub open spec fn char_render_bytes(c: char) -> Seq<u8> {
    if (c as u32) < 0x80 {
        seq![filter_byte((c as u32) as u8)]
    } else if (c as u32) < 0x800 {
        seq![UNPRINTABLE_GLYPH, UNPRINTABLE_GLYPH]
    } else if (c as u32) < 0x10000 {
        seq![UNPRINTABLE_GLYPH, UNPRINTABLE_GLYPH, UNPRINTABLE_GLYPH]
    } else {
        seq![UNPRINTABLE_GLYPH, UNPRINTABLE_GLYPH, UNPRINTABLE_GLYPH, UNPRINTABLE_GLYPH]
    }
}

/// Law: backspace at column 0 is a no-op; backspace only ever moves the
/// cursor one column left and never modifies a cell.
pub proof fn lemma_backspace_never_erases(w: WriterView)
    requires
        view_wf(w),
    ensures
        ({
            let w2 = write_byte_spec(w, BACKSPACE_BYTE);
            &&& w2.grid == w.grid
            &&& w2.row == w.row
            &&& w2.color == w.color
            &&& w2.col == if w.col > 0 {
                w.col - 1
            } else {
                0
            }
            &&& w.col == 0 ==> w2 == w
        }),
{
}

/// Law: tab from column `c` lands on the smallest multiple of `TAB_SIZE`
/// strictly greater than `c`, or performs exactly one line break when that
/// stop is at or past the buffer width; cells are never touched except by
/// the scroll of that single line break.
pub proof fn lemma_tab_stop(w: WriterView)
    requires
        view_wf(w),
    ensures
        next_tab_stop(w.col) % (TAB_SIZE as int) == 0,
        w.col < next_tab_stop(w.col) <= w.col + TAB_SIZE as int,
        forall|m: int| #[trigger] (m % (TAB_SIZE as int)) == 0 && m > w.col ==> m >= next_tab_stop(
            w.col,
        ),
        next_tab_stop(w.col) < BUFFER_WIDTH as int ==> write_byte_spec(w, TAB_BYTE)
            == (WriterView { col: next_tab_stop(w.col), ..w }),
        next_tab_stop(w.col) >= BUFFER_WIDTH as int ==> write_byte_spec(w, TAB_BYTE) == line_feed(
            w,
        ),
{
    let t = TAB_SIZE as int;
    let c = w.col;
    vstd::arithmetic::div_mod::lemma_fundamental_div_mod(c, t);
    vstd::arithmetic::div_mod::lemma_mod_division_less_than_divisor(c, t);
    assert(next_tab_stop(c) == t * (c / t) + t);
    assert(next_tab_stop(c) % t == 0) by {
        vstd::arithmetic::div_mod::lemma_mod_multiples_basic(c / t + 1, t);
        assert(t * (c / t + 1) == t * (c / t) + t) by (nonlinear_arith);
    }
    assert forall|m: int| #[trigger] (m % t) == 0 && m > c implies m >= next_tab_stop(c) by {
        vstd::arithmetic::div_mod::lemma_fundamental_div_mod(m, t);
        assert(m == t * (m / t));
        assert(t * (m / t) > t * (c / t) ==> m / t >= c / t + 1) by (nonlinear_arith)
            requires
                t > 0,
        ;
        assert(m / t >= c / t + 1);
        assert(t * (m / t) >= t * (c / t + 1)) by (nonlinear_arith)
            requires
                t > 0,
                m / t >= c / t + 1,
        ;
        assert(t * (c / t + 1) == t * (c / t) + t) by (nonlinear_arith);
    }
}

/// Law: a byte outside the printable range and outside the four
/// cursor-control bytes is always substituted with the unprintable glyph,
/// which is then rendered as a cell — never dropped.
pub proof fn lemma_unprintable_substituted(w: WriterView, b: u8)
    requires
        view_wf(w),
        !is_passthrough_byte(b),
    ensures
        filter_byte(b) == UNPRINTABLE_GLYPH,
        write_string_spec(w, seq![b]) == put_char_spec(w, UNPRINTABLE_GLYPH),
        ({
            let w2 = write_string_spec(w, seq![b]);
            &&& 0 < w2.col <= BUFFER_WIDTH as int
            &&& w2.grid[w2.row][w2.col - 1] == ScreenChar {
                ascii_character: UNPRINTABLE_GLYPH,
                color_code: w.color,
            }
        }),
{
    assert(filtered(seq![b]) =~= seq![UNPRINTABLE_GLYPH]);
    assert(seq![UNPRINTABLE_GLYPH].skip(1) =~= Seq::<u8>::empty());
    assert(seq![UNPRINTABLE_GLYPH][0] == UNPRINTABLE_GLYPH);
    assert(write_bytes_spec(w, seq![UNPRINTABLE_GLYPH]) == write_bytes_spec(
        write_byte_spec(w, UNPRINTABLE_GLYPH),
        Seq::<u8>::empty(),
    ));
    assert(write_bytes_spec(write_byte_spec(w, UNPRINTABLE_GLYPH), Seq::<u8>::empty())
        == write_byte_spec(w, UNPRINTABLE_GLYPH));
    let v = if w.col >= BUFFER_WIDTH as int {
        line_feed(w)
    } else {
        w
    };
    let w2 = put_char_spec(w, UNPRINTABLE_GLYPH);
    assert(w2.grid[v.row] == v.grid[v.row].update(
        v.col,
        ScreenChar { ascii_character: UNPRINTABLE_GLYPH, color_code: v.color },
    ));
}

/// Law: a run of printable bytes advances the column by the run's length
/// modulo the buffer width (with a column of `BUFFER_WIDTH` standing for a
/// full row whose wrap is still pending).
pub proof fn lemma_printable_run_column(w: WriterView, bytes: Seq<u8>)
    requires
        view_wf(w),
        bytes.len() > 0,
        forall|i: int| 0 <= i < bytes.len() ==> is_printable_byte(#[trigger] bytes[i]),
    ensures
        view_wf(write_bytes_spec(w, bytes)),
        write_bytes_spec(w, bytes).col == ((w.col + bytes.len() - 1) % (BUFFER_WIDTH as int)) + 1,
        write_bytes_spec(w, bytes).col % (BUFFER_WIDTH as int) == (w.col + bytes.len()) % (
        BUFFER_WIDTH as int),
    decreases bytes.len(),
{
    let wd = BUFFER_WIDTH as int;
    lemma_write_byte_wf(w, bytes[0]);
    let w1 = write_byte_spec(w, bytes[0]);
    assert(w1 == put_char_spec(w, bytes[0]));
    assert(w1.col == (w.col % wd) + 1) by {
        if w.col < wd {
            vstd::arithmetic::div_mod::lemma_small_mod(w.col as nat, wd as nat);
        } else {
            assert(w.col == wd);
            vstd::arithmetic::div_mod::lemma_mod_self_0(wd);
        }
    };
    assert(write_bytes_spec(w, bytes) == write_bytes_spec(w1, bytes.skip(1)));
    if bytes.len() == 1 {
        assert(bytes.skip(1) =~= Seq::<u8>::empty());
        assert(write_bytes_spec(w1, Seq::<u8>::empty()) == w1);
        vstd::arithmetic::div_mod::lemma_mod_twice(w.col, wd);
    } else {
        assert(forall|i: int|
            0 <= i < bytes.skip(1).len() ==> is_printable_byte(#[trigger] bytes.skip(1)[i]));
        lemma_printable_run_column(w1, bytes.skip(1));
        let n = bytes.len();
        assert(write_bytes_spec(w, bytes).col == ((w.col % wd + n - 1) % wd) + 1);
        assert((w.col % wd + n - 1) % wd == (w.col + n - 1) % wd) by {
            vstd::arithmetic::div_mod::lemma_mod_twice(w.col, wd);
            vstd::arithmetic::div_mod::lemma_add_mod_noop(w.col, n - 1, wd);
            vstd::arithmetic::div_mod::lemma_add_mod_noop(w.col % wd, n - 1, wd);
        };
    }
    let x = w.col + bytes.len() - 1;
    let colp = write_bytes_spec(w, bytes).col;
    vstd::arithmetic::div_mod::lemma_mod_division_less_than_divisor(x, wd);
    vstd::arithmetic::div_mod::lemma_small_mod(1nat, wd as nat);
    vstd::arithmetic::div_mod::lemma_mod_twice(x, wd);
    vstd::arithmetic::div_mod::lemma_add_mod_noop(x, 1, wd);
    if x % wd + 1 < wd {
        vstd::arithmetic::div_mod::lemma_small_mod((x % wd + 1) as nat, wd as nat);
    } else {
        assert(x % wd + 1 == wd);
        vstd::arithmetic::div_mod::lemma_mod_self_0(wd);
    }
    assert(colp % wd == (x % wd + 1) % wd);
}

/// Law: a run of printable bytes that fits on the current row is stored
/// cell for cell, in order, in the active color, and no other cell changes —
/// no character of the run is lost.
pub proof fn lemma_printable_run_no_loss(w: WriterView, bytes: Seq<u8>)
    requires
        view_wf(w),
        forall|i: int| 0 <= i < bytes.len() ==> is_printable_byte(#[trigger] bytes[i]),
        w.col + bytes.len() <= BUFFER_WIDTH as int,
    ensures
        ({
            let w2 = write_bytes_spec(w, bytes);
            &&& w2.row == w.row
            &&& w2.col == w.col + bytes.len()
            &&& w2.color == w.color
            &&& forall|i: int|
                0 <= i < bytes.len() ==> w2.grid[w.row][w.col + i] == (ScreenChar {
                    ascii_character: bytes[i],
                    color_code: w.color,
                })
            &&& forall|r: int, c: int|
                0 <= r < BUFFER_HEIGHT as int && 0 <= c < BUFFER_WIDTH as int && !(r == w.row
                    && w.col <= c < w.col + bytes.len()) ==> w2.grid[r][c] == w.grid[r][c]
        }),
    decreases bytes.len(),
{
    if bytes.len() > 0 {
        let w1 = write_byte_spec(w, bytes[0]);
        assert(w1 == put_char_spec(w, bytes[0]));
        lemma_write_byte_wf(w, bytes[0]);
        assert(forall|i: int|
            0 <= i < bytes.skip(1).len() ==> is_printable_byte(#[trigger] bytes.skip(1)[i]));
        lemma_printable_run_no_loss(w1, bytes.skip(1));
        let w2 = write_bytes_spec(w, bytes);
        assert(w2 == write_bytes_spec(w1, bytes.skip(1)));
        assert(w1.row == w.row && w1.col == w.col + 1 && w1.color == w.color);
        assert forall|i: int| 0 <= i < bytes.len() implies w2.grid[w.row][w.col + i]
            == (ScreenChar { ascii_character: bytes[i], color_code: w.color }) by {
            if i == 0 {
                assert(w1.grid[w.row][w.col] == ScreenChar {
                    ascii_character: bytes[0],
                    color_code: w.color,
                });
                assert(w2.grid[w.row][w.col] == w1.grid[w.row][w.col]);
            } else {
                assert(bytes.skip(1)[i - 1] == bytes[i]);
                assert(w2.grid[w1.row][w1.col + (i - 1)] == (ScreenChar {
                    ascii_character: bytes.skip(1)[i - 1],
                    color_code: w1.color,
                }));
                assert(w.col + i == w1.col + (i - 1));
            }
        }
    }
}

/// Law: a line break taken on the last row scrolls every row up by one —
/// the content of row 1 moves to row 0 — and blanks the freed last row in
/// the currently active color.
pub proof fn lemma_scroll_from_last_row(w: WriterView)
    requires
        view_wf(w),
        w.row == BUFFER_HEIGHT as int - 1,
    ensures
        ({
            let w2 = write_byte_spec(w, NEWLINE_BYTE);
            &&& w2.row == BUFFER_HEIGHT as int - 1
            &&& w2.col == 0
            &&& w2.color == w.color
            &&& forall|r: int| 0 <= r < BUFFER_HEIGHT as int - 1 ==> w2.grid[r] == w.grid[r + 1]
            &&& w2.grid[BUFFER_HEIGHT as int - 1] == blank_row(w.color)
            &&& forall|c: int|
                0 <= c < BUFFER_WIDTH as int ==> #[trigger] w2.grid[BUFFER_HEIGHT as int - 1][c]
                    == blank_char(w.color)
        }),
{
    let w2 = write_byte_spec(w, NEWLINE_BYTE);
    assert(w2 == line_feed(w));
    assert forall|r: int| 0 <= r < BUFFER_HEIGHT as int - 1 implies w2.grid[r] == w.grid[r + 1] by {
        assert(scrolled(w.grid, w.color)[r] == w.grid.subrange(1, w.grid.len() as int)[r]);
    }
}

/// The console writer: cursor position, active color, and the owned image of
/// the cell grid.
pub struct Writer {
    row_position: usize,
    column_position: usize,
    color_code: ColorCode,
    buffer: Vec<Vec<ScreenChar>>,
}

impl View for Writer {
    type V = WriterView;

    closed spec fn view(&self) -> WriterView {
        WriterView {
            row: self.row_position as int,
            col: self.column_position as int,
            color: self.color_code,
            grid: Seq::new(self.buffer@.len(), |r: int| self.buffer@[r]@),
        }
    }
}

impl Writer {
    pub open spec fn wf(self) -> bool {
        view_wf(self@)
    }

    /// A writer at the top left corner over a grid blanked in the given
    /// color.
    pub fn new(color_code: ColorCode) -> (w: Writer)
        ensures
            w.wf(),
            w@.row == 0,
            w@.col == 0,
            w@.color == color_code,
            w@.grid == Seq::new(BUFFER_HEIGHT as nat, |r: int| blank_row(color_code)),
    {
        let mut buffer: Vec<Vec<ScreenChar>> = Vec::new();
        while buffer.len() < BUFFER_HEIGHT
            invariant
                buffer@.len() <= BUFFER_HEIGHT as int,
                forall|r: int| 0 <= r < buffer@.len() ==> (#[trigger] buffer@[r])@ =~= blank_row(
                    color_code,
                ),
            decreases BUFFER_HEIGHT as int - buffer@.len(),
        {
            let mut row: Vec<ScreenChar> = Vec::new();
            while row.len() < BUFFER_WIDTH
                invariant
                    row@.len() <= BUFFER_WIDTH as int,
                    forall|c: int| 0 <= c < row@.len() ==> row@[c] == blank_char(color_code),
                decreases BUFFER_WIDTH as int - row@.len(),
            {
                row.push(ScreenChar { ascii_character: BLANK_BYTE, color_code });
            }
            proof {
                assert(row@ =~= blank_row(color_code));
            }
            buffer.push(row);
        }
        let w = Writer { row_position: 0, column_position: 0, color_code, buffer };
        proof {
            assert(w@.grid =~= Seq::new(BUFFER_HEIGHT as nat, |r: int| blank_row(color_code)));
        }
        w
    }

    pub fn row_position(&self) -> (r: usize)
        ensures
            r == self@.row,
    {
        self.row_position
    }

    pub fn column_position(&self) -> (c: usize)
        ensures
            c == self@.col,
    {
        self.column_position
    }

    pub fn color_code(&self) -> (c: ColorCode)
        ensures
            c == self@.color,
    {
        self.color_code
    }

    /// The cell at the given grid position.
    pub fn char_at(&self, row: usize, col: usize) -> (ch: ScreenChar)
        requires
            self.wf(),
            row < BUFFER_HEIGHT,
            col < BUFFER_WIDTH,
        ensures
            ch == self@.grid[row as int][col as int],
    {
        proof {
            assert(self@.grid[row as int] == self.buffer@[row as int]@);
        }
        self.buffer[row][col]
    }

    /// Store one cell of the grid; the cursor and color stay put.
    fn set_cell(&mut self, row: usize, col: usize, ch: ScreenChar)
        requires
            old(self).wf(),
            row < BUFFER_HEIGHT,
            col < BUFFER_WIDTH,
        ensures
            final(self).wf(),
            final(self)@ == (WriterView {
                grid: old(self)@.grid.update(
                    row as int,
                    old(self)@.grid[row as int].update(col as int, ch),
                ),
                ..old(self)@
            }),
    {
        proof {
            assert(self@.grid[row as int] == self.buffer@[row as int]@);
        }
        self.buffer[row][col] = ch;
        proof {
            let g = old(self)@;
            assert(self@.grid[row as int] =~= g.grid[row as int].update(col as int, ch));
            assert forall|r: int|
                0 <= r < BUFFER_HEIGHT as int && r != row as int implies self@.grid[r] == g.grid[
                r
            ] by {
                assert(self.buffer@[r] == old(self).buffer@[r]);
            }
            assert(self@.grid =~~= g.grid.update(
                row as int,
                g.grid[row as int].update(col as int, ch),
            ));
        }
    }

    fn backspace(&mut self)
        requires
            old(self).wf(),
        ensures
            final(self).wf(),
            final(self)@ == backspace_spec(old(self)@),
    {
        if self.column_position > 0 {
            self.column_position = self.column_position - 1;
        }
        proof {
            assert(self@ =~~= backspace_spec(old(self)@));
        }
    }

    fn carriage_return(&mut self)
        requires
            old(self).wf(),
        ensures
            final(self).wf(),
            final(self)@ == carriage_return_spec(old(self)@),
    {
        self.column_position = 0;
        proof {
            assert(self@ =~~= carriage_return_spec(old(self)@));
        }
    }

    /// Blank one row in the currently active color; the cursor stays put.
    fn clear_row(&mut self, row: usize)
        requires
            old(self).wf(),
            row < BUFFER_HEIGHT,
        ensures
            final(self).wf(),
            final(self)@ == (WriterView {
                grid: old(self)@.grid.update(row as int, blank_row(old(self)@.color)),
                ..old(self)@
            }),
    {
        let ghost g = self@;
        let blank = ScreenChar { ascii_character: BLANK_BYTE, color_code: self.color_code };
        let mut col: usize = 0;
        while col < BUFFER_WIDTH
            invariant
                g == old(self)@,
                view_wf(g),
                row < BUFFER_HEIGHT,
                col <= BUFFER_WIDTH,
                blank == blank_char(g.color),
                view_wf(self@),
                self@.row == g.row,
                self@.col == g.col,
                self@.color == g.color,
                forall|c: int| 0 <= c < col ==> self@.grid[row as int][c] == blank_char(g.color),
                forall|c: int|
                    col <= c < BUFFER_WIDTH as int ==> self@.grid[row as int][c] == g.grid[row as int][c],
                forall|r: int|
                    0 <= r < BUFFER_HEIGHT as int && r != row as int ==> self@.grid[r] == g.grid[r],
            decreases BUFFER_WIDTH as int - col as int,
        {
            self.set_cell(row, col, blank);
            col = col + 1;
        }
        proof {
            assert(self@.grid[row as int] =~= blank_row(g.color));
            assert(self@.grid =~~= g.grid.update(row as int, blank_row(g.color)));
            assert(self@ =~~= (WriterView {
                grid: g.grid.update(row as int, blank_row(g.color)),
                ..g
            }));
        }
    }

    /// Row forward, column 0; from the last row the grid scrolls up one row
    /// and the freed last row is blanked in the active color.
    fn new_line(&mut self)
        requires
            old(self).wf(),
        ensures
            final(self).wf(),
            final(self)@ == line_feed(old(self)@),
    {
        let ghost g = self@;
        if self.row_position >= BUFFER_HEIGHT - 1 {
            let mut row: usize = 0;
            while row < BUFFER_HEIGHT - 1
                invariant
                    g == old(self)@,
                    view_wf(g),
                    g.row == BUFFER_HEIGHT as int - 1,
                    row <= BUFFER_HEIGHT - 1,
                    view_wf(self@),
                    self@.row == g.row,
                    self@.col == g.col,
                    self@.color == g.color,
                    forall|r: int, c: int|
                        0 <= r < row as int && 0 <= c < BUFFER_WIDTH as int ==> self@.grid[r][c]
                            == g.grid[r + 1][c],
                    forall|r: int, c: int|
                        row as int <= r < BUFFER_HEIGHT as int && 0 <= c < BUFFER_WIDTH as int
                            ==> self@.grid[r][c] == g.grid[r][c],
                decreases BUFFER_HEIGHT as int - row as int,
            {
                let mut col: usize = 0;
                while col < BUFFER_WIDTH
                    invariant
                        g == old(self)@,
                        view_wf(g),
                        row < BUFFER_HEIGHT - 1,
                        col <= BUFFER_WIDTH,
                        view_wf(self@),
                        self@.row == g.row,
                        self@.col == g.col,
                        self@.color == g.color,
                        forall|r: int, c: int|
                            0 <= r < row as int && 0 <= c < BUFFER_WIDTH as int ==> self@.grid[r][c]
                                == g.grid[r + 1][c],
                        forall|c: int|
                            0 <= c < col as int ==> self@.grid[row as int][c] == g.grid[row as int + 1][c],
                        forall|c: int|
                            col as int <= c < BUFFER_WIDTH as int ==> self@.grid[row as int][c]
                                == g.grid[row as int][c],
                        forall|r: int, c: int|
                            (row as int) < r < (BUFFER_HEIGHT as int) && 0 <= c < BUFFER_WIDTH as int
                                ==> self@.grid[r][c] == g.grid[r][c],
                    decreases BUFFER_WIDTH as int - col as int,
                {
                    let ch = self.char_at(row + 1, col);
                    self.set_cell(row, col, ch);
                    col = col + 1;
                }
                row = row + 1;
            }
            self.clear_row(BUFFER_HEIGHT - 1);
            self.column_position = 0;
            proof {
                assert forall|r: int| 0 <= r < BUFFER_HEIGHT as int implies self@.grid[r]
                    =~= scrolled(g.grid, g.color)[r] by {
                    if r < BUFFER_HEIGHT as int - 1 {
                        assert(scrolled(g.grid, g.color)[r] == g.grid.subrange(
                            1,
                            g.grid.len() as int,
                        )[r]);
                    }
                }
                assert(self@.grid =~~= scrolled(g.grid, g.color));
                assert(self@ =~~= line_feed(g));
            }
        } else {
            self.row_position = self.row_position + 1;
            self.column_position = 0;
            proof {
                assert(self@ =~~= line_feed(g));
            }
        }
    }

    /// Advance the column to the next tab stop, or break the line once when
    /// that stop is at or past the buffer width.
    fn horizontal_tab(&mut self)
        requires
            old(self).wf(),
        ensures
            final(self).wf(),
            final(self)@ == tab_spec(old(self)@),
    {
        let next = self.column_position + (TAB_SIZE - self.column_position % TAB_SIZE);
        if next >= BUFFER_WIDTH {
            self.new_line();
        } else {
            self.column_position = next;
            proof {
                assert(self@ =~~= tab_spec(old(self)@));
            }
        }
    }

    /// Write one byte under the byte-write policy: backspace, tab, newline
    /// and carriage return move the cursor; every other byte is rendered as a
    /// glyph at the cursor in the active color.
    pub fn write_byte(&mut self, byte: u8)
        requires
            old(self).wf(),
        ensures
            final(self).wf(),
            final(self)@ == write_byte_spec(old(self)@, byte),
    {
        if byte == BACKSPACE_BYTE {
            self.backspace();
        } else if byte == TAB_BYTE {
            self.horizontal_tab();
        } else if byte == NEWLINE_BYTE {
            self.new_line();
        } else if byte == CARRIAGE_RETURN_BYTE {
            self.carriage_return();
        } else {
            if self.column_position >= BUFFER_WIDTH {
                self.new_line();
            }
            let ghost v = self@;
            let row = self.row_position;
            let col = self.column_position;
            let color_code = self.color_code;
            self.set_cell(row, col, ScreenChar { ascii_character: byte, color_code });
            self.column_position = col + 1;
            proof {
                assert(self@ =~~= put_char_spec(old(self)@, byte));
            }
        }
    }

    /// Write a whole string: printable ASCII and the four cursor-control
    /// bytes pass through to the byte-write policy unchanged; every other
    /// byte of the string's encoding is substituted with the unprintable
    /// glyph, so the console never renders an undefined glyph code.
    pub fn write_string(&mut self, s: &str)
        requires
            old(self).wf(),
        ensures
            final(self).wf(),
            final(self)@ == write_string_spec(old(self)@, s.spec_bytes()),
    {
        let ghost g = self@;
        let bytes: &[u8] = s.as_bytes();
        let mut i: usize = 0;
        while i < bytes.len()
            invariant
                g == old(self)@,
                view_wf(g),
                bytes@ == s.spec_bytes(),
                i <= bytes@.len(),
                self.wf(),
                self@ == write_bytes_spec(g, filtered(bytes@.take(i as int))),
            decreases bytes@.len() - i as int,
        {
            let byte = bytes[i];
            let out = if (0x20 <= byte && byte <= 0x7e) || byte == NEWLINE_BYTE || byte
                == CARRIAGE_RETURN_BYTE || byte == TAB_BYTE || byte == BACKSPACE_BYTE {
                byte
            } else {
                UNPRINTABLE_GLYPH
            };
            proof {
                assert(out == filter_byte(bytes@[i as int]));
                assert(filtered(bytes@.take(i as int + 1)) =~= filtered(
                    bytes@.take(i as int),
                ).push(filter_byte(bytes@[i as int])));
                lemma_write_bytes_push(g, filtered(bytes@.take(i as int)), out);
            }
            self.write_byte(out);
            i = i + 1;
        }
        proof {
            assert(bytes@.take(bytes@.len() as int) =~= bytes@);
        }
    }

    /// Write one character the way its encoded byte stream would fare under
    /// the string filter: an ASCII character as one filtered byte, any wider
    /// character as one unprintable glyph per encoded byte.
    pub fn write_char(&mut self, c: char)
        requires
            old(self).wf(),
        ensures
            final(self).wf(),
            final(self)@ == write_bytes_spec(old(self)@, char_render_bytes(c)),
    {
        let ghost g = self@;
        let u = c as u32;
        if u < 0x80 {
            let byte = u as u8;
            let out = if (0x20 <= byte && byte <= 0x7e) || byte == NEWLINE_BYTE || byte
                == CARRIAGE_RETURN_BYTE || byte == TAB_BYTE || byte == BACKSPACE_BYTE {
                byte
            } else {
                UNPRINTABLE_GLYPH
            };
            self.write_byte(out);
            proof {
                lemma_write_bytes_push(g, Seq::<u8>::empty(), out);
                assert(Seq::<u8>::empty().push(out) =~= char_render_bytes(c));
            }
        } else if u < 0x800 {
            self.write_byte(UNPRINTABLE_GLYPH);
            self.write_byte(UNPRINTABLE_GLYPH);
            proof {
                lemma_write_bytes_push(g, Seq::<u8>::empty(), UNPRINTABLE_GLYPH);
                lemma_write_bytes_push(
                    g,
                    Seq::<u8>::empty().push(UNPRINTABLE_GLYPH),
                    UNPRINTABLE_GLYPH,
                );
                assert(Seq::<u8>::empty().push(UNPRINTABLE_GLYPH).push(UNPRINTABLE_GLYPH)
                    =~= char_render_bytes(c));
            }
        } else if u < 0x10000 {
            self.write_byte(UNPRINTABLE_GLYPH);
            self.write_byte(UNPRINTABLE_GLYPH);
            self.write_byte(UNPRINTABLE_GLYPH);
            proof {
                lemma_write_bytes_push(g, Seq::<u8>::empty(), UNPRINTABLE_GLYPH);
                lemma_write_bytes_push(
                    g,
                    Seq::<u8>::empty().push(UNPRINTABLE_GLYPH),
                    UNPRINTABLE_GLYPH,
                );
                lemma_write_bytes_push(
                    g,
                    Seq::<u8>::empty().push(UNPRINTABLE_GLYPH).push(UNPRINTABLE_GLYPH),
                    UNPRINTABLE_GLYPH,
                );
                assert(Seq::<u8>::empty().push(UNPRINTABLE_GLYPH).push(UNPRINTABLE_GLYPH).push(
                    UNPRINTABLE_GLYPH,
                ) =~= char_render_bytes(c));
            }
        } else {
            self.write_byte(UNPRINTABLE_GLYPH);
            self.write_byte(UNPRINTABLE_GLYPH);
            self.write_byte(UNPRINTABLE_GLYPH);
            self.write_byte(UNPRINTABLE_GLYPH);
            proof {
                lemma_write_bytes_push(g, Seq::<u8>::empty(), UNPRINTABLE_GLYPH);
                lemma_write_bytes_push(
                    g,
                    Seq::<u8>::empty().push(UNPRINTABLE_GLYPH),
                    UNPRINTABLE_GLYPH,
                );
                lemma_write_bytes_push(
                    g,
                    Seq::<u8>::empty().push(UNPRINTABLE_GLYPH).push(UNPRINTABLE_GLYPH),
                    UNPRINTABLE_GLYPH,
                );
                lemma_write_bytes_push(
                    g,
                    Seq::<u8>::empty().push(UNPRINTABLE_GLYPH).push(UNPRINTABLE_GLYPH).push(
                        UNPRINTABLE_GLYPH,
                    ),
                    UNPRINTABLE_GLYPH,
                );
                assert(Seq::<u8>::empty().push(UNPRINTABLE_GLYPH).push(UNPRINTABLE_GLYPH).push(
                    UNPRINTABLE_GLYPH,
                ).push(UNPRINTABLE_GLYPH) =~= char_render_bytes(c));
            }
        }
    }
}

} // verus!
