//! The virtual screen of one session: a terminal emulator's screen buffer fed
//! with the session's output, together with the scanner that answers
//! cursor-position queries found in that output.
//!
//! The emulator is kept in a state in which it takes every byte. It runs with
//! at least two rows and between two columns and [`MAX_EMULATED_COLS`]: a
//! screen asked to be smaller or wider is emulated at the nearest size in
//! that range. And it is never resized in place, which can leave half of a
//! wide character at the edge: a screen that changes its size gets a new
//! emulator, which is fed what the old one showed.

use vstd::prelude::*;
use crate::scanner::{cursor_reply, dsr_matches, dsr_state_after, repeated, scan_chunk, DsrState};
use crate::size::TerminalSize;

verus! {

/// The fewest rows the emulator is run with: a line that wraps at the bottom
/// must have a row above it to scroll into.
pub const MIN_EMULATED_ROWS: u16 = 2;

/// The fewest columns the emulator is run with: a character two columns wide
/// must fit in a row.
pub const MIN_EMULATED_COLS: u16 = 2;

/// The most columns the emulator is run with: a tab from the last column must
/// stay within the range of column numbers.
pub const MAX_EMULATED_COLS: u16 = 65520;

/// The terminal emulator of the `vt100` crate, as re-exported by `tui_term`.
/// Its inside is opaque here.
#[verifier::external_type_specification]
#[verifier::external_body]
pub struct ExParser(tui_term::vt100::Parser);

/// The `(rows, cols)` that `vt100::Screen::size` reports for a parser's screen.
pub uninterp spec fn emulator_size(parser: tui_term::vt100::Parser) -> (u16, u16);

/// The zero-based `(row, col)` that `vt100::Screen::cursor_position` reports.
pub uninterp spec fn emulator_cursor(parser: tui_term::vt100::Parser) -> (u16, u16);

/// The plain text that `vt100::Screen::contents` reports for a parser's
/// screen.
pub uninterp spec fn emulator_text(parser: tui_term::vt100::Parser) -> Seq<char>;

/// The parser after `vt100::Parser::process` took the bytes, one after
/// another in their order.
pub uninterp spec fn emulator_fed(parser: tui_term::vt100::Parser, bytes: Seq<u8>) -> tui_term::vt100::Parser;

/// The parser that `vt100::Parser::new` makes for a screen of the size
/// `(rows, cols)` without scrollback.
pub uninterp spec fn emulator_made(dims: (u16, u16)) -> tui_term::vt100::Parser;

/// The bytes that `vt100::Screen::state_formatted` gives for a parser's
/// screen: terminal output that brings an empty screen to the same input
/// modes, contents, colours and cursor.
pub uninterp spec fn emulator_state(parser: tui_term::vt100::Parser) -> Seq<u8>;

/// Whether the emulator takes every byte at the size `(rows, cols)`.
pub open spec fn emulable(dims: (u16, u16)) -> bool {
    dims.0 >= MIN_EMULATED_ROWS && MIN_EMULATED_COLS <= dims.1 <= MAX_EMULATED_COLS
}

/// The size the emulator is run with for a screen of size `size`: the rows
/// raised to two, the columns brought into the range of the emulator.
pub open spec fn emulated(size: TerminalSize) -> (u16, u16) {
    (
        if size.rows < MIN_EMULATED_ROWS {
            MIN_EMULATED_ROWS
        } else {
            size.rows
        },
        if size.cols < MIN_EMULATED_COLS {
            MIN_EMULATED_COLS
        } else if size.cols > MAX_EMULATED_COLS {
            MAX_EMULATED_COLS
        } else {
            size.cols
        },
    )
}

/// Wraps `vt100::Parser::new` with no scrollback. The new screen has the size
/// asked for and its cursor in the top left corner. Sizes outside the range
/// of the emulator are left out: it subtracts one from the row count, and
/// writing to a screen of that size could fail.
#[verifier::external_body]
fn emulator_new(rows: u16, cols: u16) -> (parser: tui_term::vt100::Parser)
    requires
        emulable((rows, cols)),
    ensures
        parser == emulator_made((rows, cols)),
        emulator_size(parser) == (rows, cols),
        emulator_cursor(parser) == (0u16, 0u16),
{
    tui_term::vt100::Parser::new(rows, cols, 0)
}

/// Wraps `vt100::Parser::process`: the bytes are interpreted as terminal
/// output, in their order. Nothing in the emulator changes the screen's size
/// while it does so. A screen outside the range of the emulator is left out:
/// on one row a wrapping line, on one column a wide character, and past
/// [`MAX_EMULATED_COLS`] a tab make the emulator subtract or add beyond the
/// range of its row and column numbers.
#[verifier::external_body]
fn emulator_process(parser: &mut tui_term::vt100::Parser, bytes: &[u8])
    requires
        emulable(emulator_size(*old(parser))),
    ensures
        *final(parser) == emulator_fed(*old(parser), bytes@),
        emulator_size(*final(parser)) == emulator_size(*old(parser)),
{
    parser.process(bytes)
}

/// Wraps `vt100::Screen::state_formatted`.
#[verifier::external_body]
fn emulator_state_formatted(parser: &tui_term::vt100::Parser) -> (state: Vec<u8>)
    ensures
        state@ == emulator_state(*parser),
{
    parser.screen().state_formatted()
}

/// Wraps `vt100::Screen::cursor_position`.
#[verifier::external_body]
fn emulator_cursor_position(parser: &tui_term::vt100::Parser) -> (pos: (u16, u16))
    ensures
        pos == emulator_cursor(*parser),
{
    parser.screen().cursor_position()
}

/// Wraps `vt100::Screen::contents`: the plain text on the screen, row by
/// row.
#[verifier::external_body]
fn emulator_contents(parser: &tui_term::vt100::Parser) -> (text: String)
    ensures
        text@ == emulator_text(*parser),
{
    parser.screen().contents()
}

/// A session's screen: the emulator, the size the screen was asked to have,
/// and the state of the query scanner.
pub struct ScreenBuffer {
    parser: tui_term::vt100::Parser,
    size: TerminalSize,
    scanner: DsrState,
}

impl ScreenBuffer {
    /// The size the screen was asked to have.
    pub closed spec fn size(&self) -> TerminalSize {
        self.size
    }

    /// The emulator behind the screen.
    pub closed spec fn screen(&self) -> tui_term::vt100::Parser {
        self.parser
    }

    /// The state of the query scanner.
    pub closed spec fn scanner(&self) -> DsrState {
        self.scanner
    }

    /// The `(rows, cols)` the emulator runs with.
    pub open spec fn grid(&self) -> (u16, u16) {
        emulator_size(self.screen())
    }

    /// The zero-based `(row, col)` of the cursor.
    pub open spec fn cursor(&self) -> (u16, u16) {
        emulator_cursor(self.screen())
    }

    /// The plain text on the screen.
    pub open spec fn text(&self) -> Seq<char> {
        emulator_text(self.screen())
    }

    /// The screen's own invariant: the emulator runs at the size that stands
    /// for the size asked for. Every screen made by [`ScreenBuffer::new`] has
    /// it and every method keeps it.
    pub open spec fn wf(&self) -> bool {
        self.grid() == emulated(self.size())
    }

    /// The size to run the emulator with for a screen of size `size`.
    fn emulated_size(size: TerminalSize) -> (dims: (u16, u16))
        ensures
            dims == emulated(size),
            emulable(dims),
    {
        let rows = if size.rows < MIN_EMULATED_ROWS {
            MIN_EMULATED_ROWS
        } else {
            size.rows
        };
        let cols = if size.cols < MIN_EMULATED_COLS {
            MIN_EMULATED_COLS
        } else if size.cols > MAX_EMULATED_COLS {
            MAX_EMULATED_COLS
        } else {
            size.cols
        };
        (rows, cols)
    }

    /// An empty screen of the given size with the scanner at rest.
    pub fn new(size: TerminalSize) -> (screen: Self)
        ensures
            screen.wf(),
            screen.size() == size,
            screen.cursor() == (0u16, 0u16),
            screen.scanner() == DsrState::Idle,
    {
        let (rows, cols) = Self::emulated_size(size);
        ScreenBuffer { parser: emulator_new(rows, cols), size, scanner: DsrState::Idle }
    }

    /// Takes one chunk of the session's output. Each cursor-position query
    /// completed in the chunk is answered with the cursor as it stood before
    /// the chunk; every byte of the chunk is then given to the emulator, in
    /// order. Returns the replies to write back to the session, in order.
    pub fn feed(&mut self, bytes: &[u8]) -> (replies: Vec<u8>)
        requires
            old(self).wf(),
        ensures
            final(self).wf(),
            replies@ == repeated(
                cursor_reply(old(self).cursor().0, old(self).cursor().1),
                dsr_matches(old(self).scanner(), bytes@),
            ),
            final(self).scanner() == dsr_state_after(old(self).scanner(), bytes@),
            final(self).screen() == emulator_fed(old(self).screen(), bytes@),
            final(self).size() == old(self).size(),
    {
        let (row, col) = emulator_cursor_position(&self.parser);
        let (next, replies) = scan_chunk(self.scanner, bytes, row, col);
        emulator_process(&mut self.parser, bytes);
        self.scanner = next;
        replies
    }

    /// Gives the screen a new size. Where that changes the size the emulator
    /// runs with, a new emulator of that size takes the place of the old one
    /// and is fed the state of the old screen, so that it shows what the old
    /// one showed as far as it fits. The scanner is not touched.
    pub fn resize(&mut self, size: TerminalSize)
        requires
            old(self).wf(),
        ensures
            final(self).wf(),
            final(self).size() == size,
            final(self).screen() == if emulated(size) == old(self).grid() {
                old(self).screen()
            } else {
                emulator_fed(emulator_made(emulated(size)), emulator_state(old(self).screen()))
            },
            final(self).scanner() == old(self).scanner(),
    {
        let (old_rows, old_cols) = Self::emulated_size(self.size);
        let (rows, cols) = Self::emulated_size(size);
        if rows != old_rows || cols != old_cols {
            let state = emulator_state_formatted(&self.parser);
            let mut parser = emulator_new(rows, cols);
            emulator_process(&mut parser, state.as_slice());
            self.parser = parser;
        }
        self.size = size;
    }

    /// The size the screen was asked to have.
    pub fn dimensions(&self) -> (size: TerminalSize)
        ensures
            size == self.size(),
    {
        self.size
    }

    /// The zero-based `(row, col)` of the cursor.
    pub fn cursor_position(&self) -> (pos: (u16, u16))
        ensures
            pos == self.cursor(),
    {
        emulator_cursor_position(&self.parser)
    }

    /// The plain text on the screen, row by row.
    pub fn contents(&self) -> (text: String)
        ensures
            text@ == self.text(),
    {
        emulator_contents(&self.parser)
    }

    /// The emulator, to read the cells, colours and cursor of the screen.
    pub fn emulator(&self) -> (parser: &tui_term::vt100::Parser)
        ensures
            *parser == self.screen(),
    {
        &self.parser
    }
}

} // verus!
