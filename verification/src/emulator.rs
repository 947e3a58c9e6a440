//! A terminal emulator over the `vt100` parser: it feeds PTY output to the
//! parser and renders the screen.
use vstd::prelude::*;
use core::num::NonZeroU16;

verus! {

/// A `vt100::Parser` (with no callbacks). Its state is opaque: it is read and
/// changed only through the functions below, whose contracts say what
/// `vt100` does.
#[verifier::external_body]
pub struct Vt100Screen {
    parser: vt100::Parser,
}

/// The (rows, cols) size of the parser's screen, as `Screen::size` reports it.
pub uninterp spec fn vt100_screen_size(parser: Vt100Screen) -> (u16, u16);

/// The plain text of the visible screen, as `Screen::contents` returns it.
pub uninterp spec fn vt100_screen_contents(parser: Vt100Screen) -> Seq<char>;

/// The visible screen with basic formatting escapes, as
/// `Screen::contents_formatted_basic` returns it.
pub uninterp spec fn vt100_screen_contents_formatted_basic(parser: Vt100Screen) -> Seq<char>;

/// How many rows the view is scrolled back into the history, as
/// `Screen::scrollback` returns it.
pub uninterp spec fn vt100_scrollback_position(parser: Vt100Screen) -> usize;

/// How many rows of history the active screen holds, as
/// `Screen::scrollback_len` returns it.
pub uninterp spec fn vt100_scrollback_len(parser: Vt100Screen) -> usize;

/// The (row, col) cursor position, as `Screen::cursor_position` returns it.
pub uninterp spec fn vt100_cursor_position(parser: Vt100Screen) -> (u16, u16);

/// How many rows of history the active screen keeps at most, as
/// `Screen::scrollback_capacity` returns it.
pub uninterp spec fn vt100_scrollback_capacity(parser: Vt100Screen) -> usize;

/// The plain text of the live screen: what `Screen::contents` returns when the
/// view is not scrolled back (the rows of the active grid, without history).
pub uninterp spec fn vt100_live_contents(parser: Vt100Screen) -> Seq<char>;

/// The text with its line breaks taken out.
pub open spec fn without_line_breaks(text: Seq<char>) -> Seq<char> {
    text.filter(|c: char| c != '\n')
}

/// A piece of input after which the input may be cut: empty, or at least
/// three bytes long and ending with an ASCII byte. It then takes in whole
/// whatever UTF-8 character an earlier piece left half read (at most three
/// more bytes) and leaves none half read itself.
pub open spec fn splits_cleanly(bytes: Seq<u8>) -> bool {
    bytes.len() == 0 || (bytes.len() >= 3 && bytes.last() < 0x80)
}

/// The parser that `Parser::new(rows, cols, scrollback)` makes.
pub uninterp spec fn vt100_new_parser(rows: u16, cols: u16, scrollback: usize) -> Vt100Screen;

/// The parser after `Parser::process` has been fed `bytes`.
pub uninterp spec fn vt100_processed(parser: Vt100Screen, bytes: Seq<u8>) -> Vt100Screen;

/// The parser after `Screen::set_size(rows, cols)`.
pub uninterp spec fn vt100_resized(parser: Vt100Screen, rows: u16, cols: u16) -> Vt100Screen;

/// The parser after `Screen::set_scrollback(rows)`.
pub uninterp spec fn vt100_scrolled(parser: Vt100Screen, rows: usize) -> Vt100Screen;

/// When the view is not scrolled back, the text shown is the live screen
/// (the visible rows are then exactly the rows of the active grid).
pub open spec fn vt100_shows_live_when_unscrolled(parser: Vt100Screen) -> bool {
    vt100_scrollback_position(parser) == 0 ==> vt100_screen_contents(parser)
        == vt100_live_contents(parser)
}

/// `vt100::Parser::new`: a parser whose screen has the given size (the
/// grid is created with exactly that size), holds no text (every cell is
/// blank, and `contents` drops the newlines that trail it), has the cursor
/// in the top left corner, and an empty history of the given capacity that is
/// not scrolled. The parser takes non-zero sizes.
#[verifier::external_body]
fn vt100_parser_new(rows: u16, cols: u16, scrollback: usize) -> (parser: Vt100Screen)
    requires
        rows >= 1,
        cols >= 1,
    ensures
        parser == vt100_new_parser(rows, cols, scrollback),
        vt100_screen_size(parser) == (rows, cols),
        vt100_screen_contents(parser) == Seq::<char>::empty(),
        vt100_cursor_position(parser) == (0u16, 0u16),
        vt100_live_contents(parser) == Seq::<char>::empty(),
        vt100_scrollback_capacity(parser) == scrollback,
        vt100_scrollback_len(parser) == 0,
        vt100_scrollback_position(parser) == 0,
{
    let parser = vt100::Parser::new(
        NonZeroU16::new(rows).unwrap(),
        NonZeroU16::new(cols).unwrap(),
        scrollback,
    );
    Vt100Screen { parser }
}

/// `vt100::Parser::process`: feeds bytes to the parser.
///
/// - No escape sequence that the parser handles changes the screen size.
/// - Empty input changes nothing (vte's `advance` reads no byte, and a pending
///   partial character stays pending).
/// - Input can be cut after a piece that `splits_cleanly`: vte completes a
///   character left half read by an earlier piece from at most the next three
///   bytes, and keeps bytes back only when its input ends inside a multi-byte
///   character. Such a piece therefore ends in the state in which vte would
///   reach what follows if everything were fed at once, so feeding more
///   afterwards gives the parser that feeding everything at once gives. (Cut
///   inside a UTF-8 character, or just after one that an earlier piece began,
///   this does not hold: vte then reads the completing bytes differently.)
/// - A view at the live screen stays there: history only moves the view when
///   it is already scrolled back, entering the alternate screen first scrolls
///   the main screen to 0, and a reset builds a new, unscrolled screen.
#[verifier::external_body]
fn vt100_process(parser: &mut Vt100Screen, bytes: &[u8])
    ensures
        *final(parser) == vt100_processed(*old(parser), bytes@),
        vt100_screen_size(*final(parser)) == vt100_screen_size(*old(parser)),
        bytes@.len() == 0 ==> *final(parser) == *old(parser),
        splits_cleanly(bytes@) ==> forall|more: Seq<u8>|
            #![trigger vt100_processed(*final(parser), more)]
            vt100_processed(*final(parser), more) == vt100_processed(*old(parser), bytes@ + more),
        vt100_scrollback_position(*old(parser)) == 0 ==> vt100_scrollback_position(*final(parser)) == 0,
        vt100_shows_live_when_unscrolled(*final(parser)),
{
    parser.parser.process(bytes)
}

/// `vt100::Screen::contents` of the parser's screen.
#[verifier::external_body]
fn vt100_contents(parser: &Vt100Screen) -> (text: String)
    ensures
        text@ == vt100_screen_contents(*parser),
{
    parser.parser.screen().contents()
}

/// `vt100::Screen::contents_formatted_basic` of the parser's screen.
#[verifier::external_body]
fn vt100_contents_formatted_basic(parser: &Vt100Screen) -> (text: String)
    ensures
        text@ == vt100_screen_contents_formatted_basic(*parser),
{
    parser.parser.screen().contents_formatted_basic()
}

/// `vt100::Screen::cursor_position` of the parser's screen. The row is
/// always a row of the screen; the column is at most the column count (it
/// equals it after a character was written in the last column, until the next
/// one wraps).
#[verifier::external_body]
fn vt100_cursor(parser: &Vt100Screen) -> (pos: (u16, u16))
    ensures
        pos == vt100_cursor_position(*parser),
        pos.0 < vt100_screen_size(*parser).0,
        pos.1 <= vt100_screen_size(*parser).1,
{
    parser.parser.screen().cursor_position()
}

/// `vt100::Screen::size` of the parser's screen; both values are non-zero
/// (the screen stores them as `NonZeroU16`).
#[verifier::external_body]
fn vt100_size(parser: &Vt100Screen) -> (size: (u16, u16))
    ensures
        size == vt100_screen_size(*parser),
        size.0 >= 1,
        size.1 >= 1,
{
    let (rows, cols) = parser.parser.screen().size();
    (rows.get(), cols.get())
}

/// `vt100::Screen::set_size` on the parser's screen: afterwards the screen
/// (and the alternate screen, which always has the same size) has exactly the
/// given size. A grid that already has that size is left as it is, so a resize
/// to the current size changes nothing; a real resize scrolls the view back to
/// the live screen. Widening the screen without changing its row count only
/// adds blank cells to the end of each row (and ends the wrapping of rows that
/// grew): the cursor stays, and the live text keeps every character, only
/// line breaks may be added where wrapped rows end. The UTF-8 decoder is not
/// touched.
#[verifier::external_body]
fn vt100_set_size(parser: &mut Vt100Screen, rows: u16, cols: u16)
    requires
        rows >= 1,
        cols >= 1,
    ensures
        *final(parser) == vt100_resized(*old(parser), rows, cols),
        vt100_screen_size(*final(parser)) == (rows, cols),
        vt100_screen_size(*old(parser)) == (rows, cols) ==> *final(parser) == *old(parser),
        vt100_screen_size(*old(parser)) != (rows, cols) ==> vt100_scrollback_position(*final(parser)) == 0,
        rows == vt100_screen_size(*old(parser)).0 && cols >= vt100_screen_size(*old(parser)).1 ==> (
        without_line_breaks(vt100_live_contents(*final(parser))) == without_line_breaks(
            vt100_live_contents(*old(parser)),
        ) && vt100_cursor_position(*final(parser)) == vt100_cursor_position(*old(parser))),
        vt100_shows_live_when_unscrolled(*final(parser)),
{
    parser.parser.screen_mut().set_size(NonZeroU16::new(rows).unwrap(), NonZeroU16::new(cols).unwrap())
}

/// `vt100::Screen::set_scrollback`: scrolls the view of the active screen to
/// `rows` rows back, clamped to the history it holds (a screen without history,
/// such as the alternate screen, holds none and stays at 0). The history
/// length, the screen size, the rows of the live screen and the cursor are not
/// touched.
#[verifier::external_body]
fn vt100_set_scrollback(parser: &mut Vt100Screen, rows: usize)
    ensures
        *final(parser) == vt100_scrolled(*old(parser), rows),
        vt100_live_contents(*final(parser)) == vt100_live_contents(*old(parser)),
        vt100_cursor_position(*final(parser)) == vt100_cursor_position(*old(parser)),
        vt100_shows_live_when_unscrolled(*final(parser)),
        vt100_screen_size(*final(parser)) == vt100_screen_size(*old(parser)),
        vt100_scrollback_len(*final(parser)) == vt100_scrollback_len(*old(parser)),
        vt100_scrollback_position(*final(parser)) == min_usize(rows, vt100_scrollback_len(*old(parser))),
{
    parser.parser.screen_mut().set_scrollback(rows)
}

/// An in-memory VT100 terminal that renders PTY output.
pub struct TerminalEmulator {
    parser: Vt100Screen,
}

impl TerminalEmulator {
    /// The (rows, cols) size of the screen.
    pub closed spec fn dims(&self) -> (u16, u16) {
        vt100_screen_size(self.parser)
    }

    /// The plain-text rendering of the screen.
    pub closed spec fn text(&self) -> Seq<char> {
        vt100_screen_contents(self.parser)
    }

    /// The rendering of the screen with basic formatting escapes.
    pub closed spec fn formatted_text(&self) -> Seq<char> {
        vt100_screen_contents_formatted_basic(self.parser)
    }

    /// How many rows the view is scrolled back into the history (0 is the
    /// live screen).
    pub closed spec fn scroll_position(&self) -> usize {
        vt100_scrollback_position(self.parser)
    }

    /// How many rows of history the screen holds.
    pub closed spec fn history_len(&self) -> usize {
        vt100_scrollback_len(self.parser)
    }

    /// The (row, col) cursor position.
    pub closed spec fn cursor(&self) -> (u16, u16) {
        vt100_cursor_position(self.parser)
    }

    /// How many rows of history the screen keeps at most.
    pub closed spec fn capacity(&self) -> usize {
        vt100_scrollback_capacity(self.parser)
    }

    /// The plain text of the live screen, whatever the scroll position.
    pub closed spec fn live_text(&self) -> Seq<char> {
        vt100_live_contents(self.parser)
    }

    /// When the view is not scrolled back, it shows the live screen.
    pub closed spec fn shows_live_when_unscrolled(&self) -> bool {
        vt100_shows_live_when_unscrolled(self.parser)
    }

    /// A fresh terminal as `new(rows, cols, scrollback)` makes it.
    pub closed spec fn fresh(rows: u16, cols: u16, scrollback: usize) -> Self {
        TerminalEmulator { parser: vt100_new_parser(rows, cols, scrollback) }
    }

    /// The terminal after it has been fed `bytes`.
    pub closed spec fn after_processing(self, bytes: Seq<u8>) -> Self {
        TerminalEmulator { parser: vt100_processed(self.parser, bytes) }
    }

    /// The terminal after its screen has been resized to `rows` x `cols`.
    pub closed spec fn after_resize(self, rows: u16, cols: u16) -> Self {
        TerminalEmulator { parser: vt100_resized(self.parser, rows, cols) }
    }

    /// The terminal after its view has been scrolled to `rows` rows back.
    pub closed spec fn after_scroll(self, rows: usize) -> Self {
        TerminalEmulator { parser: vt100_scrolled(self.parser, rows) }
    }

    /// A blank terminal of `rows` x `cols` cells, with the cursor in the top
    /// left corner, keeping up to `scrollback` rows of history (none yet, and
    /// the view not scrolled back).
    pub fn new(rows: u16, cols: u16, scrollback: usize) -> (emulator: Self)
        requires
            rows >= 1,
            cols >= 1,
        ensures
            emulator.dims() == (rows, cols),
            emulator.text() == Seq::<char>::empty(),
            emulator.cursor() == (0u16, 0u16),
            emulator.live_text() == Seq::<char>::empty(),
            emulator.capacity() == scrollback,
            emulator.history_len() == 0,
            emulator.scroll_position() == 0,
            emulator.shows_live_when_unscrolled(),
            emulator == Self::fresh(rows, cols, scrollback),
    {
        TerminalEmulator { parser: vt100_parser_new(rows, cols, scrollback) }
    }

    /// Feeds PTY output to the terminal and returns the rendering of the
    /// screen afterwards.
    pub fn process(&mut self, bytes: &[u8]) -> (rendered: String)
        ensures
            process_step(*old(self), bytes@, *final(self)),
            rendered@ == final(self).text(),
    {
        vt100_process(&mut self.parser, bytes);
        self.render()
    }

    /// The plain-text rendering of the screen.
    pub fn render(&self) -> (rendered: String)
        ensures
            rendered@ == self.text(),
    {
        vt100_contents(&self.parser)
    }

    /// The rendering of the screen with basic formatting escapes.
    pub fn render_formatted_basic(&self) -> (rendered: String)
        ensures
            rendered@ == self.formatted_text(),
    {
        vt100_contents_formatted_basic(&self.parser)
    }

    /// The (row, col) position of the cursor.
    pub fn cursor_position(&self) -> (pos: (u16, u16))
        ensures
            pos == self.cursor(),
            pos.0 < self.dims().0,
            pos.1 <= self.dims().1,
    {
        vt100_cursor(&self.parser)
    }

    /// The (rows, cols) size of the screen.
    pub fn size(&self) -> (size: (u16, u16))
        ensures
            size == self.dims(),
            size.0 >= 1,
            size.1 >= 1,
    {
        vt100_size(&self.parser)
    }

    /// Resizes the screen; a zero row or column count is raised to one. A
    /// resize to the size the screen already has changes nothing.
    pub fn set_size(&mut self, rows: u16, cols: u16)
        ensures
            resize_step(*old(self), rows, cols, *final(self)),
    {
        let rows = if rows < 1 { 1 } else { rows };
        let cols = if cols < 1 { 1 } else { cols };
        vt100_set_size(&mut self.parser, rows, cols);
    }

    /// Scrolls the view `rows` rows back into the history (0 is the live
    /// screen), at most as far as the history goes; the history and the size
    /// of the screen are kept.
    /// The live screen and the cursor are not touched.
    pub fn set_scrollback(&mut self, rows: usize)
        ensures
            scroll_step(*old(self), rows, *final(self)),
    {
        vt100_set_scrollback(&mut self.parser, rows);
    }
}

/// `after` is what `set_size(rows, cols)` makes of `before`: the requested size
/// with zeros raised to one, and `before` unchanged where it already has it.
pub open spec fn resize_step(before: TerminalEmulator, rows: u16, cols: u16, after: TerminalEmulator) -> bool {
    &&& after == before.after_resize(clamp_to_one(rows), clamp_to_one(cols))
    &&& after.dims() == (clamp_to_one(rows), clamp_to_one(cols))
    &&& before.dims() == (clamp_to_one(rows), clamp_to_one(cols)) ==> after == before
    &&& before.dims() != (clamp_to_one(rows), clamp_to_one(cols)) ==> after.scroll_position() == 0
    &&& clamp_to_one(rows) == before.dims().0 && clamp_to_one(cols) >= before.dims().1 ==> (
    without_line_breaks(after.live_text()) == without_line_breaks(before.live_text())
        && after.cursor() == before.cursor())
    &&& after.shows_live_when_unscrolled()
}

/// `after` is what `process(bytes)` makes of `before`: the terminal fed the
/// bytes, at the same size; empty input changes nothing; a view at the live
/// screen stays there.
pub open spec fn process_step(before: TerminalEmulator, bytes: Seq<u8>, after: TerminalEmulator) -> bool {
    &&& after == before.after_processing(bytes)
    &&& after.dims() == before.dims()
    &&& bytes.len() == 0 ==> after == before
    &&& splits_cleanly(bytes) ==> forall|more: Seq<u8>|
        #![trigger after.after_processing(more)]
        after.after_processing(more) == before.after_processing(bytes + more)
    &&& before.scroll_position() == 0 ==> after.scroll_position() == 0
    &&& after.shows_live_when_unscrolled()
}

/// `after` is what `set_scrollback(rows)` makes of `before`: the view scrolled
/// back `rows` rows at most as far as the history goes, with the history, the
/// size, the live screen and the cursor kept.
pub open spec fn scroll_step(before: TerminalEmulator, rows: usize, after: TerminalEmulator) -> bool {
    &&& after == before.after_scroll(rows)
    &&& after.scroll_position() == min_usize(rows, before.history_len())
    &&& after.history_len() == before.history_len()
    &&& after.dims() == before.dims()
    &&& after.live_text() == before.live_text()
    &&& after.cursor() == before.cursor()
    &&& after.shows_live_when_unscrolled()
}

/// Processing loses no input and does not depend on how the input is cut, as
/// long as the first piece `splits_cleanly` (empty, or three bytes or more
/// ending with an ASCII byte): feeding `a` and then `b` gives the terminal that
/// feeding `a + b` at once gives.
pub proof fn lemma_input_splits_after_ascii(
    e0: TerminalEmulator,
    e1: TerminalEmulator,
    e2: TerminalEmulator,
    a: Seq<u8>,
    b: Seq<u8>,
)
    requires
        splits_cleanly(a),
        process_step(e0, a, e1),
        process_step(e1, b, e2),
    ensures
        e2 == e0.after_processing(a + b),
        e2.text() == e0.after_processing(a + b).text(),
        e2.cursor() == e0.after_processing(a + b).cursor(),
{
    assert(e2 == e1.after_processing(b));
}

/// Input cut into three pieces, each cut after a piece that `splits_cleanly`,
/// gives the terminal that one call gives.
pub proof fn lemma_three_pieces(
    e0: TerminalEmulator,
    e1: TerminalEmulator,
    e2: TerminalEmulator,
    e3: TerminalEmulator,
    a: Seq<u8>,
    b: Seq<u8>,
    c: Seq<u8>,
)
    requires
        splits_cleanly(a),
        splits_cleanly(b),
        process_step(e0, a, e1),
        process_step(e1, b, e2),
        process_step(e2, c, e3),
    ensures
        e3 == e0.after_processing(a + b + c),
{
    if a.len() == 0 {
        assert(e1 == e0);
        assert(a + b + c =~= b + c);
        assert(e2 == e1.after_processing(b));
    } else {
        assert(e3 == e2.after_processing(c));
        assert(e3 == e1.after_processing(b + c));
        assert(a + (b + c) =~= a + b + c);
    }
}

/// Widening the screen without changing its row count keeps the cursor and
/// every character of the live text: nothing is cut, only line breaks may be
/// added where wrapped rows end.
pub proof fn lemma_widening_keeps_text(e0: TerminalEmulator, e1: TerminalEmulator, rows: u16, cols: u16)
    requires
        resize_step(e0, rows, cols, e1),
        clamp_to_one(rows) == e0.dims().0,
        clamp_to_one(cols) >= e0.dims().1,
    ensures
        without_line_breaks(e1.live_text()) == without_line_breaks(e0.live_text()),
        e1.cursor() == e0.cursor(),
        e1.dims() == (e0.dims().0, clamp_to_one(cols)),
{
}

/// Empty input leaves the terminal exactly as it was.
pub proof fn lemma_empty_input_changes_nothing(e0: TerminalEmulator, e1: TerminalEmulator, bytes: Seq<u8>)
    requires
        bytes.len() == 0,
        process_step(e0, bytes, e1),
    ensures
        e1 == e0,
        e1.text() == e0.text(),
        e1.cursor() == e0.cursor(),
        e1.dims() == e0.dims(),
{
}

/// Resizing twice to the same size is the same as resizing once: the second
/// resize leaves the terminal exactly as the first left it.
pub proof fn lemma_resize_twice_is_resize_once(
    e0: TerminalEmulator,
    e1: TerminalEmulator,
    e2: TerminalEmulator,
    rows: u16,
    cols: u16,
)
    requires
        resize_step(e0, rows, cols, e1),
        resize_step(e1, rows, cols, e2),
    ensures
        e2 == e1,
        e2.text() == e1.text(),
        e2.cursor() == e1.cursor(),
        e2.dims() == (clamp_to_one(rows), clamp_to_one(cols)),
{
}

/// Scrolling back into the history and then back to 0 restores what the
/// terminal showed at the live screen: the same text, cursor and size.
pub proof fn lemma_scroll_back_restores_live_screen(
    e0: TerminalEmulator,
    e1: TerminalEmulator,
    e2: TerminalEmulator,
    n: usize,
)
    requires
        e0.shows_live_when_unscrolled(),
        e0.scroll_position() == 0,
        scroll_step(e0, n, e1),
        scroll_step(e1, 0, e2),
    ensures
        e2.text() == e0.text(),
        e2.cursor() == e0.cursor(),
        e2.dims() == e0.dims(),
        e2.scroll_position() == 0,
{
}

/// The smaller of `a` and `b`.
pub open spec fn min_usize(a: usize, b: usize) -> usize {
    if a <= b { a } else { b }
}

/// `n`, or 1 where `n` is 0.
pub open spec fn clamp_to_one(n: u16) -> u16 {
    if n < 1 { 1 } else { n }
}

/// A resize always leaves at least one row and one column, keeps a non-zero
/// request exactly, and resizing again to the size it produced changes nothing.
pub proof fn lemma_set_size_clamps(rows: u16, cols: u16)
    ensures
        clamp_to_one(rows) >= 1,
        clamp_to_one(cols) >= 1,
        clamp_to_one(clamp_to_one(rows)) == clamp_to_one(rows),
        clamp_to_one(clamp_to_one(cols)) == clamp_to_one(cols),
        rows >= 1 ==> clamp_to_one(rows) == rows,
        cols >= 1 ==> clamp_to_one(cols) == cols,
{
}

} // verus!
