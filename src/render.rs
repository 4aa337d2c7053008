//! What the field sends to the terminal: the set-up sequence, and the frame
//! that draws or clears one cell; and a screen that records what each
//! coordinate shows, to read the effect of those frames back.

use crate::ansi::{
    clear_all_code, clear_all_spec, csi, disable_line_wrap_code, disable_line_wrap_spec,
    green_foreground_code, green_foreground_spec, hide_cursor_code, hide_cursor_spec, move_to_code,
    move_to_spec, no_blink_code, no_blink_spec, set_size_code, set_size_spec,
};
use crate::grid::{scan_index, Cell, GRID_SIZE, HEIGHT, WIDTH};
use vstd::prelude::*;

verus! {

/// What a coordinate of the screen shows.
#[derive(Clone, Copy, Debug, PartialEq, Eq, Structural)]
pub enum Glyph {
    /// A filled square, U+25A0: a live cell.
    Square,
    /// A space: nothing.
    Blank,
}

impl Glyph {
    /// The UTF-8 bytes written for the glyph.
    pub open spec fn bytes(self) -> Seq<u8> {
        match self {
            Glyph::Square => seq![0xe2u8, 0x96u8, 0xa0u8],
            Glyph::Blank => seq![0x20u8],
        }
    }

    /// The UTF-8 bytes written for the glyph.
    pub fn to_bytes(&self) -> (r: Vec<u8>)
        ensures
            r@ == self.bytes(),
    {
        match self {
            Glyph::Square => vec![0xe2u8, 0x96u8, 0xa0u8],
            Glyph::Blank => vec![0x20u8],
        }
    }
}

/// The terminal set-up, in order: resize to the grid, clear the screen, set a
/// green foreground, turn blinking off, hide the cursor and turn line
/// wrapping off.
pub open spec fn init_spec() -> Seq<u8> {
    set_size_spec(WIDTH, HEIGHT) + clear_all_spec() + green_foreground_spec() + no_blink_spec()
        + hide_cursor_spec() + disable_line_wrap_spec()
}

/// The frame that shows `glyph` at `cell`: move the cursor there, then write
/// the glyph.
pub open spec fn frame_spec(cell: Cell, glyph: Glyph) -> Seq<u8> {
    move_to_spec(cell.0, cell.1) + glyph.bytes()
}

/// The bytes that put the terminal into the field's mode. The result depends
/// on nothing, so sending it again sets the same mode again.
pub fn init_sequence() -> (r: Vec<u8>)
    ensures
        r@ == init_spec(),
{
    let mut r = set_size_code(WIDTH, HEIGHT);
    let mut part = clear_all_code();
    r.append(&mut part);
    let mut part = green_foreground_code();
    r.append(&mut part);
    let mut part = no_blink_code();
    r.append(&mut part);
    let mut part = hide_cursor_code();
    r.append(&mut part);
    let mut part = disable_line_wrap_code();
    r.append(&mut part);
    assert(r@ =~= init_spec());
    r
}

/// The frame that shows `glyph` at `cell`.
pub fn cell_frame(cell: &Cell, glyph: Glyph) -> (r: Vec<u8>)
    requires
        cell.0 < u16::MAX,
        cell.1 < u16::MAX,
    ensures
        r@ == frame_spec(*cell, glyph),
{
    let mut r = move_to_code(cell.0, cell.1);
    let mut g = glyph.to_bytes();
    r.append(&mut g);
    r
}

/// The frame that draws a live cell: the cursor moves to it and a filled
/// square is written.
pub fn draw_cell(cell: &Cell) -> (r: Vec<u8>)
    requires
        cell.0 < u16::MAX,
        cell.1 < u16::MAX,
    ensures
        r@ == frame_spec(*cell, Glyph::Square),
{
    cell_frame(cell, Glyph::Square)
}

/// The frame that erases a cell: the cursor moves to it and a space is
/// written.
pub fn clear_cell(cell: &Cell) -> (r: Vec<u8>)
    requires
        cell.0 < u16::MAX,
        cell.1 < u16::MAX,
    ensures
        r@ == frame_spec(*cell, Glyph::Blank),
{
    cell_frame(cell, Glyph::Blank)
}

/// A record of what each coordinate of the grid shows, in scan order.
pub struct Screen {
    glyphs: Vec<Glyph>,
}

impl View for Screen {
    type V = Seq<Glyph>;

    closed spec fn view(&self) -> Seq<Glyph> {
        self.glyphs@
    }
}

impl Screen {
    /// One glyph for each coordinate of the grid.
    pub open spec fn wf(&self) -> bool {
        self@.len() == GRID_SIZE
    }

    /// What the screen shows at `cell`.
    pub open spec fn glyph_spec(&self, cell: Cell) -> Glyph {
        self@[scan_index(cell.0 as int, cell.1 as int)]
    }

    /// A blank screen.
    pub fn new() -> (s: Screen)
        ensures
            s.wf(),
            forall|i: int| 0 <= i < GRID_SIZE ==> s@[i] == Glyph::Blank,
    {
        Screen { glyphs: vec![Glyph::Blank; GRID_SIZE] }
    }

    /// Records the effect of `cell_frame(cell, glyph)`: the coordinate shows
    /// `glyph`, and every other coordinate is unchanged.
    pub fn show(&mut self, cell: &Cell, glyph: Glyph)
        requires
            old(self).wf(),
            cell.in_grid(),
        ensures
            final(self).wf(),
            final(self)@ == old(self)@.update(scan_index(cell.0 as int, cell.1 as int), glyph),
            final(self).glyph_spec(*cell) == glyph,
    {
        let i: usize = cell.0 as usize * 100 + cell.1 as usize;
        self.glyphs[i] = glyph;
    }

    /// Records the effect of `draw_cell(cell)`.
    pub fn draw(&mut self, cell: &Cell)
        requires
            old(self).wf(),
            cell.in_grid(),
        ensures
            final(self).wf(),
            final(self)@ == old(self)@.update(scan_index(cell.0 as int, cell.1 as int), Glyph::Square),
    {
        self.show(cell, Glyph::Square);
    }

    /// Records the effect of `clear_cell(cell)`.
    pub fn clear(&mut self, cell: &Cell)
        requires
            old(self).wf(),
            cell.in_grid(),
        ensures
            final(self).wf(),
            final(self)@ == old(self)@.update(scan_index(cell.0 as int, cell.1 as int), Glyph::Blank),
    {
        self.show(cell, Glyph::Blank);
    }

    /// The glyph shown at `cell`.
    pub fn glyph_at(&self, cell: &Cell) -> (g: Glyph)
        requires
            self.wf(),
            cell.in_grid(),
        ensures
            g == self.glyph_spec(*cell),
    {
        let i: usize = cell.0 as usize * 100 + cell.1 as usize;
        self.glyphs[i]
    }

    /// The bytes last written at `cell`.
    pub fn bytes_at(&self, cell: &Cell) -> (r: Vec<u8>)
        requires
            self.wf(),
            cell.in_grid(),
        ensures
            r@ == self.glyph_spec(*cell).bytes(),
    {
        self.glyph_at(cell).to_bytes()
    }
}

/// Reading the screen back at the coordinate of a frame gives the frame's
/// glyph, whatever the screen showed before: the bytes of a filled square
/// after drawing, a single space after clearing, also when clearing follows
/// drawing. Those are the bytes with which the frame ends, after the cursor
/// move.
pub proof fn lemma_frame_read_back(s: Screen, cell: Cell, glyph: Glyph)
    requires
        s.wf(),
        cell.in_grid(),
    ensures
        ({
            let i = scan_index(cell.0 as int, cell.1 as int);
            &&& frame_spec(cell, glyph) == move_to_spec(cell.0, cell.1) + s@.update(i, glyph)[i].bytes()
            &&& s@.update(i, Glyph::Square)[i].bytes() == seq![0xe2u8, 0x96u8, 0xa0u8]
            &&& s@.update(i, Glyph::Blank)[i].bytes() == seq![0x20u8]
            &&& s@.update(i, Glyph::Square).update(i, Glyph::Blank)[i].bytes() == seq![0x20u8]
        }),
{
    let i = scan_index(cell.0 as int, cell.1 as int);
    assert(0 <= i < GRID_SIZE);
}

} // verus!
