//! The renderer's event loop: terminal display discipline and key handling.
//!
//! A single cooperative loop owns all terminal output.  This module holds
//! its decisions: how one operator key event, redraw notice, resize or
//! device loss changes the renderer's state and what the loop must then do.
//! It also builds, byte for byte, the control sequences that establish and
//! restore the reserved scroll region and that print the visible tail of
//! the history without disturbing the status bars.

use vstd::prelude::*;
use vstd::utf8::{encode_scalar, encode_utf8};

use crate::ansi::{
    clear_line_bytes, cursor_to_bytes, push_clear_line, push_cursor_to, push_restore_cursor,
    push_save_cursor, push_sgr, restore_cursor_bytes, save_cursor_bytes, set_margin_bytes,
    sgr_bytes, SetMargin,
};
use crate::history::chunks_view;
use crate::keymap::{
    encode_char, encode_chars, is_control_maskable, is_misreported_control_digit, translate,
    translate_model, KeyCode, KeyEvent,
};
use crate::status::TermSize;

verus! {

/// The renderer's lifecycle.
#[derive(Clone, Copy, Debug, PartialEq, Eq, Structural)]
pub enum Mode {
    /// The terminal is not set up yet.
    Starting,
    /// The loop is processing events.
    Running,
    /// A shutdown was demanded; nothing is processed any more.
    ShuttingDown,
}

/// One occurrence the renderer's loop wakes up for.
#[derive(Clone, Copy, Debug)]
pub enum UiEvent {
    /// The operator pressed a key.
    Key(KeyEvent),
    /// The ingest side stored a chunk and asks for a redraw.
    Redraw,
    /// The terminal was resized to this width and height.
    Resize(u16, u16),
    /// The ingest side reports the device gone.
    DeviceLost,
}

/// What the loop must do after one step.
#[derive(Debug, PartialEq, Eq)]
pub enum RendererAction {
    /// Forward these bytes to the device.
    SendChunk(Vec<u8>),
    /// Re-render the visible tail of the history and the status bars.
    Redraw,
    /// Leave the loop: restore the scroll region and release raw mode.
    Shutdown,
    /// Nothing to do.
    Idle,
}

/// The demanded action, at the specification level.
pub enum ActionModel {
    SendChunk(Seq<u8>),
    Redraw,
    Shutdown,
    Idle,
}

/// True when the executable action is the one the model demands.
pub open spec fn action_matches(act: RendererAction, model: ActionModel) -> bool {
    match (act, model) {
        (RendererAction::SendChunk(v), ActionModel::SendChunk(s)) => v@ == s,
        (RendererAction::Redraw, ActionModel::Redraw) => true,
        (RendererAction::Shutdown, ActionModel::Shutdown) => true,
        (RendererAction::Idle, ActionModel::Idle) => true,
        _ => false,
    }
}

/// The designated exit key combination: the interrupt character, Ctrl+C.
pub open spec fn is_interrupt(k: KeyEvent) -> bool {
    k.ctrl && (k.code matches KeyCode::Char(c) && c == 'c')
}

/// A control combination that is sent to the device at once.
pub open spec fn is_control_send(k: KeyEvent) -> bool {
    k.ctrl && (k.code matches KeyCode::Char(c) && (is_control_maskable(c)
        || is_misreported_control_digit(c)))
}

/// A key whose escape sequence is sent to the device at once.
pub open spec fn is_special_send(code: KeyCode) -> bool {
    match code {
        KeyCode::Left => true,
        KeyCode::Right => true,
        KeyCode::Up => true,
        KeyCode::Down => true,
        KeyCode::Home => true,
        KeyCode::End => true,
        KeyCode::Tab => true,
        KeyCode::Delete => true,
        KeyCode::Insert => true,
        KeyCode::Esc => true,
        _ => false,
    }
}

/// The bytes a submitted input line sends: its UTF-8 encoding terminated
/// by carriage-return + line-feed.
pub open spec fn submit_bytes(input: Seq<char>) -> Seq<u8> {
    encode_utf8(input) + seq![0x0Du8, 0x0Au8]
}

/// One decision step of the running loop: from mode, pending input line,
/// geometry and event to the new state and the demanded action.
pub open spec fn step_model(mode: Mode, input: Seq<char>, size: TermSize, event: UiEvent) -> (
    Mode,
    Seq<char>,
    TermSize,
    ActionModel,
) {
    if !(mode is Running) {
        (mode, input, size, ActionModel::Idle)
    } else {
        match event {
            UiEvent::Key(k) => {
                if is_interrupt(k) {
                    (Mode::ShuttingDown, input, size, ActionModel::Shutdown)
                } else if k.code is Enter {
                    (Mode::Running, Seq::<char>::empty(), size, ActionModel::SendChunk(
                        submit_bytes(input),
                    ))
                } else if k.code is Backspace {
                    (
                        Mode::Running,
                        if input.len() > 0 {
                            input.drop_last()
                        } else {
                            input
                        },
                        size,
                        ActionModel::Idle,
                    )
                } else if is_control_send(k) || is_special_send(k.code) {
                    (Mode::Running, input, size, ActionModel::SendChunk(
                        translate_model(k)->Some_0,
                    ))
                } else {
                    match k.code {
                        KeyCode::Char(c) => if k.ctrl {
                            // an unmapped control combination: the character
                            // is sent as itself, as terminals conventionally do
                            (Mode::Running, input, size, ActionModel::SendChunk(
                                encode_scalar(c as u32),
                            ))
                        } else {
                            (Mode::Running, input.push(c), size, ActionModel::Idle)
                        },
                        _ => (Mode::Running, input, size, ActionModel::Idle),
                    }
                }
            },
            UiEvent::Redraw => (Mode::Running, input, size, ActionModel::Redraw),
            UiEvent::Resize(w, h) => (Mode::Running, input, TermSize(w, h), ActionModel::Redraw),
            UiEvent::DeviceLost => (Mode::ShuttingDown, input, size, ActionModel::Shutdown),
        }
    }
}

/// A renderer that is not running is inert: no event changes its state or
/// demands any work, so once a shutdown begins nothing is processed any
/// more and the shutdown action cannot be demanded a second time.
pub proof fn lemma_not_running_is_inert(mode: Mode, input: Seq<char>, size: TermSize, event: UiEvent)
    requires
        !(mode is Running),
    ensures
        step_model(mode, input, size, event) == (mode, input, size, ActionModel::Idle),
{
}

/// The renderer's state: its lifecycle mode, the operator's pending input
/// line, and the current terminal geometry.
pub struct Renderer {
    mode: Mode,
    input: Vec<char>,
    size: TermSize,
}

impl Renderer {
    /// The lifecycle mode.
    pub closed spec fn spec_mode(&self) -> Mode {
        self.mode
    }

    /// The pending, not yet submitted input line.
    pub closed spec fn input_line(&self) -> Seq<char> {
        self.input@
    }

    /// The geometry of the last start or resize.
    pub closed spec fn geometry(&self) -> TermSize {
        self.size
    }

    /// A renderer that has not set the terminal up yet.
    pub fn new(size: TermSize) -> (r: Renderer)
        ensures
            r.spec_mode() is Starting,
            r.input_line() == Seq::<char>::empty(),
            r.geometry() == size,
    {
        Renderer { mode: Mode::Starting, input: Vec::new(), size }
    }

    /// Enters the running loop, once the terminal is set up.
    pub fn start(&mut self)
        requires
            old(self).spec_mode() is Starting,
        ensures
            final(self).spec_mode() is Running,
            final(self).input_line() == old(self).input_line(),
            final(self).geometry() == old(self).geometry(),
    {
        self.mode = Mode::Running;
    }

    /// Processes one event, following `step_model` exactly.
    pub fn step(&mut self, event: UiEvent) -> (act: RendererAction)
        ensures
            ({
                let (mode, input, size, model) = step_model(
                    old(self).spec_mode(),
                    old(self).input_line(),
                    old(self).geometry(),
                    event,
                );
                &&& final(self).spec_mode() == mode
                &&& final(self).input_line() == input
                &&& final(self).geometry() == size
                &&& action_matches(act, model)
            }),
    {
        match self.mode {
            Mode::Running => {},
            _ => {
                return RendererAction::Idle;
            },
        }
        match event {
            UiEvent::Key(k) => self.handle_key(k),
            UiEvent::Redraw => RendererAction::Redraw,
            UiEvent::Resize(w, h) => {
                self.size = TermSize(w, h);
                RendererAction::Redraw
            },
            UiEvent::DeviceLost => {
                self.mode = Mode::ShuttingDown;
                RendererAction::Shutdown
            },
        }
    }

    /// The key-event part of one running step.
    fn handle_key(&mut self, k: KeyEvent) -> (act: RendererAction)
        requires
            old(self).spec_mode() is Running,
        ensures
            ({
                let (mode, input, size, model) = step_model(
                    Mode::Running,
                    old(self).input_line(),
                    old(self).geometry(),
                    UiEvent::Key(k),
                );
                &&& final(self).spec_mode() == mode
                &&& final(self).input_line() == input
                &&& final(self).geometry() == size
                &&& action_matches(act, model)
            }),
    {
        match k.code {
            KeyCode::Char(c) => {
                if k.ctrl && c == 'c' {
                    self.mode = Mode::ShuttingDown;
                    RendererAction::Shutdown
                } else if k.ctrl && ((('a' <= c) && (c <= 'z')) || c == ' ' || (('4' <= c) && (c
                    <= '7'))) {
                    match translate(&k) {
                        Some(bytes) => RendererAction::SendChunk(bytes),
                        None => RendererAction::Idle,
                    }
                } else if k.ctrl {
                    RendererAction::SendChunk(encode_char(c))
                } else {
                    self.input.push(c);
                    RendererAction::Idle
                }
            },
            KeyCode::Enter => {
                let mut bytes = encode_chars(&self.input);
                bytes.push(0x0D);
                bytes.push(0x0A);
                self.input = Vec::new();
                proof {
                    assert(bytes@ =~= submit_bytes(old(self).input_line()));
                }
                RendererAction::SendChunk(bytes)
            },
            KeyCode::Backspace => {
                if self.input.len() > 0 {
                    self.input.pop();
                }
                RendererAction::Idle
            },
            KeyCode::Function(_) => RendererAction::Idle,
            KeyCode::Other => RendererAction::Idle,
            _ => {
                match translate(&k) {
                    Some(bytes) => RendererAction::SendChunk(bytes),
                    None => RendererAction::Idle,
                }
            },
        }
    }

    /// A copy of the pending input line, for display.
    pub fn input_chars(&self) -> (chars: Vec<char>)
        ensures
            chars@ == self.input_line(),
    {
        vstd::slice::slice_to_vec(self.input.as_slice())
    }

    /// How many rows of history the scroll region can show: everything but
    /// the two status-bar rows.
    pub fn visible_rows(&self) -> (rows: u16)
        requires
            self.geometry().1 >= 3,
        ensures
            rows == self.geometry().1 - 2,
    {
        self.size.height() - 2
    }
}

/// A run of line feeds.
pub open spec fn newline_run(n: nat) -> Seq<u8> {
    Seq::new(n, |i: int| 0x0Au8)
}

/// The bytes that set the screen up: scroll past the old contents, home
/// the cursor, reserve the first and last rows by constraining the scroll
/// region to the rows between, and park the cursor on the first scroll row.
pub open spec fn screen_setup_model(size: TermSize) -> Seq<u8>
    recommends
        size.1 >= 3,
{
    newline_run((size.1 - 1) as nat) + cursor_to_bytes(1, 1) + set_margin_bytes(
        2,
        (size.1 - 1) as nat,
    ) + cursor_to_bytes(2, 1)
}

/// The bytes that restore the screen on shutdown: give the scroll region
/// the whole screen back, wipe both bar rows, restore the cursor and reset
/// the colors.
pub open spec fn screen_restore_model(size: TermSize) -> Seq<u8>
    recommends
        size.1 >= 1,
{
    save_cursor_bytes() + set_margin_bytes(1, size.1 as nat) + cursor_to_bytes(1, 1)
        + clear_line_bytes() + cursor_to_bytes(size.1 as nat, 1) + clear_line_bytes()
        + restore_cursor_bytes() + sgr_bytes(0)
}

/// The visible tail, rendered: each chunk's bytes terminated by
/// carriage-return + line-feed.
pub open spec fn tail_render_model(rows: Seq<Seq<u8>>) -> Seq<u8>
    decreases rows.len(),
{
    if rows.len() == 0 {
        Seq::<u8>::empty()
    } else {
        rows[0] + seq![0x0Du8, 0x0Au8] + tail_render_model(rows.skip(1))
    }
}

/// Rendering one more row appends its bytes and the line break.
pub proof fn lemma_tail_render_push(rows: Seq<Seq<u8>>, row: Seq<u8>)
    ensures
        tail_render_model(rows.push(row)) == tail_render_model(rows) + row + seq![0x0Du8, 0x0Au8],
    decreases rows.len(),
{
    let p = rows.push(row);
    if rows.len() == 0 {
        assert(p[0] == row);
        assert(p.skip(1) =~= Seq::<Seq<u8>>::empty());
        assert(tail_render_model(p.skip(1)) == Seq::<u8>::empty());
        assert(tail_render_model(p) == p[0] + seq![0x0Du8, 0x0Au8] + tail_render_model(p.skip(1)));
        assert(tail_render_model(rows) == Seq::<u8>::empty());
        assert(tail_render_model(p) =~= tail_render_model(rows) + row + seq![0x0Du8, 0x0Au8]);
    } else {
        lemma_tail_render_push(rows.skip(1), row);
        assert(p[0] == rows[0]);
        assert(p.skip(1) =~= rows.skip(1).push(row));
        assert(tail_render_model(p) == p[0] + seq![0x0Du8, 0x0Au8] + tail_render_model(p.skip(1)));
        assert(tail_render_model(p.skip(1)) == tail_render_model(rows.skip(1)) + row + seq![
            0x0Du8,
            0x0Au8,
        ]);
        assert(tail_render_model(rows) == rows[0] + seq![0x0Du8, 0x0Au8] + tail_render_model(
            rows.skip(1),
        ));
        assert(tail_render_model(p) =~= tail_render_model(rows) + row + seq![0x0Du8, 0x0Au8]);
    }
}

/// Builds the screen-setup bytes for the given geometry.
pub fn screen_setup(size: &TermSize) -> (out: Vec<u8>)
    requires
        size.1 >= 3,
    ensures
        out@ == screen_setup_model(*size),
{
    let mut out: Vec<u8> = Vec::new();
    let mut i: u16 = 0;
    while i < size.1 - 1
        invariant
            i <= size.1 - 1,
            out@ =~= newline_run(i as nat),
        decreases size.1 - 1 - i,
    {
        out.push(0x0A);
        proof {
            assert(out@ =~= newline_run((i + 1) as nat));
        }
        i = i + 1;
    }
    push_cursor_to(&mut out, 1, 1);
    let margin = SetMargin(2, size.1 - 1);
    let mut margin_bytes = margin.ansi_bytes();
    out.append(&mut margin_bytes);
    push_cursor_to(&mut out, 2, 1);
    proof {
        assert(out@ =~= screen_setup_model(*size));
    }
    out
}

/// Builds the screen-restore bytes for the given geometry.
pub fn screen_restore(size: &TermSize) -> (out: Vec<u8>)
    requires
        size.1 >= 1,
    ensures
        out@ == screen_restore_model(*size),
{
    let mut out: Vec<u8> = Vec::new();
    push_save_cursor(&mut out);
    let margin = SetMargin(1, size.1);
    let mut margin_bytes = margin.ansi_bytes();
    out.append(&mut margin_bytes);
    push_cursor_to(&mut out, 1, 1);
    push_clear_line(&mut out);
    push_cursor_to(&mut out, size.1, 1);
    push_clear_line(&mut out);
    push_restore_cursor(&mut out);
    push_sgr(&mut out, 0);
    proof {
        assert(out@ =~= screen_restore_model(*size));
    }
    out
}

/// Renders the visible tail of the history: each row's raw bytes, each
/// terminated by carriage-return + line-feed.
pub fn render_tail(rows: &Vec<Vec<u8>>) -> (out: Vec<u8>)
    ensures
        out@ == tail_render_model(chunks_view(*rows)),
{
    let mut out: Vec<u8> = Vec::new();
    let mut i: usize = 0;
    proof {
        assert(chunks_view(*rows).take(0) =~= Seq::<Seq<u8>>::empty());
    }
    while i < rows.len()
        invariant
            i <= rows.len(),
            out@ == tail_render_model(chunks_view(*rows).take(i as int)),
        decreases rows.len() - i,
    {
        let mut row = vstd::slice::slice_to_vec(rows[i].as_slice());
        out.append(&mut row);
        out.push(0x0D);
        out.push(0x0A);
        proof {
            let view = chunks_view(*rows);
            lemma_tail_render_push(view.take(i as int), view[i as int]);
            assert(view.take(i as int).push(view[i as int]) =~= view.take(i + 1));
            assert(out@ =~= tail_render_model(view.take(i + 1)));
        }
        i = i + 1;
    }
    proof {
        let view = chunks_view(*rows);
        assert(view.take(view.len() as int) =~= view);
    }
    out
}

} // verus!
