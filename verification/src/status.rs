//! Fixed status-bar lines: geometry, composition and rendering.
//!
//! A status bar is one fixed-width line, left text left-aligned, right text
//! right-aligned, the gap filled with spaces.  Padding is computed from the
//! displayed column width of the texts, not from their byte length, so a
//! wide or multi-byte character cannot corrupt the alignment.  The rendered
//! bytes save the cursor, paint the bar on its fixed row in the bar colors,
//! and restore the cursor, so printing a bar never disturbs the scroll
//! region.

use unicode_width::UnicodeWidthStr;
use vstd::prelude::*;
use vstd::string::StringExecFns;
use vstd::utf8::encode_utf8;

use crate::ansi::{
    cursor_to_bytes, restore_cursor_bytes, save_cursor_bytes, sgr_bytes, push_cursor_to,
    push_restore_cursor, push_save_cursor, push_sgr,
};
use crate::keymap::encode_str;

verus! {

/// The displayed column width of a character sequence, as the terminal
/// renders it.
pub uninterp spec fn display_width(s: Seq<char>) -> nat;

/// Relies on unicode_width's `UnicodeWidthStr::width`: the displayed width
/// of a string in columns, a pure function of its characters.
#[verifier::external_body]
fn text_width(s: &str) -> (w: usize)
    ensures
        w as nat == display_width(s@),
{
    UnicodeWidthStr::width(s)
}

/// Terminal geometry in character cells: width, then height.
#[derive(Clone, Copy, Debug)]
pub struct TermSize(pub u16, pub u16);

impl TermSize {
    /// The width in columns.
    pub fn width(&self) -> (w: u16)
        ensures
            w == self.0,
    {
        self.0
    }

    /// The height in rows.
    pub fn height(&self) -> (h: u16)
        ensures
            h == self.1,
    {
        self.1
    }
}

impl From<(u16, u16)> for TermSize {
    fn from(wh: (u16, u16)) -> (size: Self) {
        TermSize(wh.0, wh.1)
    }
}

impl vstd::std_specs::convert::FromSpecImpl<(u16, u16)> for TermSize {
    open spec fn obeys_from_spec() -> bool {
        true
    }

    open spec fn from_spec(wh: (u16, u16)) -> Self {
        TermSize(wh.0, wh.1)
    }
}

/// Which fixed row a status bar occupies.
#[derive(Clone, Copy, Debug, PartialEq, Eq, Structural)]
pub enum Position {
    Top,
    Bottom,
}

impl Position {
    /// The 1-based row of the bar: the top bar sits on the first row, the
    /// bottom bar on the last.
    pub open spec fn spec_row(self, size: TermSize) -> u16 {
        match self {
            Position::Top => 1,
            Position::Bottom => size.1,
        }
    }

    /// The 1-based terminal row of a bar at this position.
    pub fn row(self, size: &TermSize) -> (r: u16)
        requires
            size.1 >= 1,
        ensures
            r == self.spec_row(*size),
    {
        match self {
            Position::Top => 1,
            Position::Bottom => size.1,
        }
    }
}

/// A run of spaces, as characters.
pub open spec fn spaces(n: nat) -> Seq<char> {
    Seq::new(n, |i: int| ' ')
}

/// The composed bar line: left text, then the padding that brings the
/// displayed width up to `width`, then right text.
pub open spec fn compose_model(width: nat, l: Seq<char>, r: Seq<char>) -> Seq<char>
    recommends
        display_width(l) + display_width(r) <= width,
{
    l + spaces((width - display_width(l) - display_width(r)) as nat) + r
}

/// Composes a status-bar line of `width` columns from a left-aligned and a
/// right-aligned text.  Yields nothing when the two texts' displayed widths
/// together exceed the width, and exactly the composed line otherwise.
pub fn compose(width: usize, left: &str, right: &str) -> (line: Option<String>)
    ensures
        line is Some <==> display_width(left@) + display_width(right@) <= width,
        line is Some ==> line->Some_0@ == compose_model(width as nat, left@, right@),
{
    let lw = text_width(left);
    if lw > width {
        return None;
    }
    let rw = text_width(right);
    if rw > width - lw {
        return None;
    }
    let pad = width - lw - rw;
    let mut line = String::new();
    line.append(left);
    let mut i: usize = 0;
    proof {
        assert(line@ =~= left@ + spaces(0));
    }
    while i < pad
        invariant
            i <= pad,
            line@ == left@ + spaces(i as nat),
        decreases pad - i,
    {
        line.append(" ");
        proof {
            reveal_strlit(" ");
            assert(line@ =~= left@ + spaces((i + 1) as nat));
        }
        i = i + 1;
    }
    line.append(right);
    proof {
        assert(line@ =~= compose_model(width as nat, left@, right@));
    }
    Some(line)
}

/// The background color parameter of the bars: blue.
pub open spec fn bar_background() -> nat {
    44
}

/// The foreground color parameter of the bars: white.
pub open spec fn bar_foreground() -> nat {
    37
}

/// The full byte render of one bar line on its row: save the cursor, move
/// to the row, set the bar colors, print the line, reset the colors,
/// restore the cursor.
pub open spec fn bar_render_model(row: nat, line: Seq<char>) -> Seq<u8> {
    save_cursor_bytes() + cursor_to_bytes(row, 1) + sgr_bytes(bar_background()) + sgr_bytes(
        bar_foreground(),
    ) + encode_utf8(line) + sgr_bytes(0) + restore_cursor_bytes()
}

/// Renders an already-composed bar line on the given 1-based row.
pub fn render_bar_line(row: u16, line: &str) -> (out: Vec<u8>)
    ensures
        out@ == bar_render_model(row as nat, line@),
{
    let mut out: Vec<u8> = Vec::new();
    push_save_cursor(&mut out);
    push_cursor_to(&mut out, row, 1);
    push_sgr(&mut out, 44);
    push_sgr(&mut out, 37);
    let mut text = encode_str(line);
    out.append(&mut text);
    push_sgr(&mut out, 0);
    push_restore_cursor(&mut out);
    proof {
        assert(out@ =~= bar_render_model(row as nat, line@));
    }
    out
}

/// One status bar: the geometry it is laid out for, its fixed position,
/// and its left- and right-aligned texts.
#[derive(Debug)]
pub struct Statusbar {
    pub size: TermSize,
    pub pos: Position,
    pub left: String,
    pub right: String,
}

impl Statusbar {
    /// A bar at the given position.
    pub fn new(size: TermSize, pos: Position, left: String, right: String) -> (bar: Statusbar)
        ensures
            bar.size == size,
            bar.pos == pos,
            bar.left == left,
            bar.right == right,
    {
        Statusbar { size, pos, left, right }
    }

    /// A bar on the top row.
    pub fn top(size: TermSize, left: String, right: String) -> (bar: Statusbar)
        ensures
            bar.size == size,
            bar.pos == Position::Top,
            bar.left == left,
            bar.right == right,
    {
        Statusbar { size, pos: Position::Top, left, right }
    }

    /// A bar on the bottom row.
    pub fn bottom(size: TermSize, left: String, right: String) -> (bar: Statusbar)
        ensures
            bar.size == size,
            bar.pos == Position::Bottom,
            bar.left == left,
            bar.right == right,
    {
        Statusbar { size, pos: Position::Bottom, left, right }
    }

    /// Renders the bar: the composed fixed-width line, painted on the bar's
    /// row.  Yields nothing when the texts do not fit the width.
    pub fn render(&self) -> (out: Option<Vec<u8>>)
        requires
            self.size.1 >= 1,
        ensures
            out is Some <==> display_width(self.left@) + display_width(self.right@)
                <= self.size.0,
            out is Some ==> out->Some_0@ == bar_render_model(
                self.pos.spec_row(self.size) as nat,
                compose_model(self.size.0 as nat, self.left@, self.right@),
            ),
    {
        let width = self.size.width() as usize;
        match compose(width, self.left.as_str(), self.right.as_str()) {
            Some(line) => {
                let row = self.pos.row(&self.size);
                Some(render_bar_line(row, line.as_str()))
            },
            None => None,
        }
    }
}

} // verus!
