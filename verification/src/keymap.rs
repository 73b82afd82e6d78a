//! Translation of operator keystrokes into the bytes a serial device expects.
//!
//! The mapping is total and side-effect-free: every key event either yields
//! one definite byte sequence (a UTF-8 encoded character, a control code, or
//! an ANSI/VT escape sequence) or yields nothing at all.

use vstd::prelude::*;
use vstd::std_specs::iter::IteratorSpec;
use vstd::utf8::{encode_scalar, encode_utf8};

verus! {

/// The key part of an operator key event.  Keys that the translation does
/// not map are collapsed into `Function` (function keys) and `Other`.
#[derive(Clone, Copy, Debug)]
pub enum KeyCode {
    Backspace,
    Enter,
    Left,
    Right,
    Up,
    Down,
    Home,
    End,
    Tab,
    Delete,
    Insert,
    Esc,
    Function(u8),
    Char(char),
    Other,
}

/// One discrete operator input occurrence: a key together with whether the
/// control modifier was held.
#[derive(Clone, Copy, Debug)]
pub struct KeyEvent {
    pub code: KeyCode,
    pub ctrl: bool,
}

impl KeyEvent {
    /// A key event without the control modifier.
    pub fn plain(code: KeyCode) -> (e: KeyEvent)
        ensures
            e == (KeyEvent { code, ctrl: false }),
    {
        KeyEvent { code, ctrl: false }
    }

    /// A key event with the control modifier held.
    pub fn with_ctrl(code: KeyCode) -> (e: KeyEvent)
        ensures
            e == (KeyEvent { code, ctrl: true }),
    {
        KeyEvent { code, ctrl: true }
    }
}

/// The control code of a character: its value masked to the low five bits,
/// the standard terminal convention (Ctrl+A is 0x01, Ctrl+Space is 0x00).
pub open spec fn control_code(c: char) -> u8 {
    ((c as u32) % 32) as u8
}

/// The control code reported for the digits '4' through '7', which terminal
/// input libraries misreport: the character value is offset by 8 before the
/// five-bit mask, giving 0x1C through 0x1F.
pub open spec fn digit_control_code(c: char) -> u8 {
    (((c as u32) + 8) % 32) as u8
}

/// True for the characters whose control combination is the plain five-bit
/// mask: lower-case letters and space.
pub open spec fn is_control_maskable(c: char) -> bool {
    ('a' <= c && c <= 'z') || c == ' '
}

/// True for the digits whose control combination is misreported.
pub open spec fn is_misreported_control_digit(c: char) -> bool {
    '4' <= c && c <= '7'
}

/// The full key-to-bytes truth table.  `None` means the event produces no
/// output; it is not an error.
pub open spec fn translate_model(e: KeyEvent) -> Option<Seq<u8>> {
    match e.code {
        KeyCode::Backspace => Some(seq![0x08u8]),
        KeyCode::Enter => Some(seq![0x0Du8, 0x0Au8]),
        KeyCode::Left => Some(seq![0x1Bu8, 0x5Bu8, 0x44u8]),
        KeyCode::Right => Some(seq![0x1Bu8, 0x5Bu8, 0x43u8]),
        KeyCode::Up => Some(seq![0x1Bu8, 0x5Bu8, 0x41u8]),
        KeyCode::Down => Some(seq![0x1Bu8, 0x5Bu8, 0x42u8]),
        KeyCode::Home => Some(seq![0x1Bu8, 0x5Bu8, 0x48u8]),
        KeyCode::End => Some(seq![0x1Bu8, 0x5Bu8, 0x46u8]),
        KeyCode::Tab => Some(seq![0x09u8]),
        KeyCode::Delete => Some(seq![0x1Bu8, 0x5Bu8, 0x33u8, 0x7Eu8]),
        KeyCode::Insert => Some(seq![0x1Bu8, 0x5Bu8, 0x32u8, 0x7Eu8]),
        KeyCode::Esc => Some(seq![0x1Bu8]),
        KeyCode::Char(c) => if e.ctrl && is_control_maskable(c) {
            Some(seq![control_code(c)])
        } else if e.ctrl && is_misreported_control_digit(c) {
            Some(seq![digit_control_code(c)])
        } else {
            Some(encode_scalar(c as u32))
        },
        KeyCode::Function(_) => None,
        KeyCode::Other => None,
    }
}

/// The UTF-8 encoding of a single character, as executable code.
pub fn encode_char(c: char) -> (bytes: Vec<u8>)
    ensures
        bytes@ == encode_scalar(c as u32),
{
    let v = c as u32;
    let mut bytes: Vec<u8> = Vec::new();
    if v <= 0x7F {
        bytes.push((v & 0x7F) as u8);
        proof {
            assert(bytes@ =~= encode_scalar(c as u32));
        }
    } else if v <= 0x7FF {
        bytes.push(0xC0u8 | ((v >> 6u32) & 0x1F) as u8);
        bytes.push(0x80u8 | (v & 0x3F) as u8);
        proof {
            assert(bytes@ =~= encode_scalar(c as u32));
        }
    } else if v <= 0xFFFF {
        bytes.push(0xE0u8 | ((v >> 12u32) & 0x0F) as u8);
        bytes.push(0x80u8 | ((v >> 6u32) & 0x3F) as u8);
        bytes.push(0x80u8 | (v & 0x3F) as u8);
        proof {
            assert(bytes@ =~= encode_scalar(c as u32));
        }
    } else {
        bytes.push(0xF0u8 | ((v >> 18u32) & 0x7) as u8);
        bytes.push(0x80u8 | ((v >> 12u32) & 0x3F) as u8);
        bytes.push(0x80u8 | ((v >> 6u32) & 0x3F) as u8);
        bytes.push(0x80u8 | (v & 0x3F) as u8);
        proof {
            assert(bytes@ =~= encode_scalar(c as u32));
        }
    }
    bytes
}

/// Encoding a character sequence one character at a time agrees with
/// encoding it whole.
pub proof fn lemma_encode_utf8_push(s: Seq<char>, c: char)
    ensures
        encode_utf8(s.push(c)) == encode_utf8(s) + encode_scalar(c as u32),
    decreases s.len(),
{
    let p = s.push(c);
    if s.len() == 0 {
        assert(p[0] == c);
        assert(p.drop_first() =~= Seq::<char>::empty());
        assert(encode_utf8(p.drop_first()) == Seq::<u8>::empty());
        assert(encode_utf8(p) =~= encode_scalar(c as u32));
        assert(encode_utf8(s) == Seq::<u8>::empty());
        assert(encode_utf8(p) =~= encode_utf8(s) + encode_scalar(c as u32));
    } else {
        lemma_encode_utf8_push(s.drop_first(), c);
        assert(p[0] == s[0]);
        assert(p.drop_first() =~= s.drop_first().push(c));
        assert(encode_utf8(p) == encode_scalar(s[0] as u32) + encode_utf8(s.drop_first().push(c)));
        assert(encode_utf8(s) == encode_scalar(s[0] as u32) + encode_utf8(s.drop_first()));
        assert(encode_utf8(p) =~= encode_utf8(s) + encode_scalar(c as u32));
    }
}

/// The UTF-8 encoding of a character vector, as executable code.
pub fn encode_chars(chars: &Vec<char>) -> (out: Vec<u8>)
    ensures
        out@ == encode_utf8(chars@),
{
    let mut out: Vec<u8> = Vec::new();
    let mut i: usize = 0;
    proof {
        assert(chars@.take(0) =~= Seq::<char>::empty());
    }
    while i < chars.len()
        invariant
            i <= chars.len(),
            out@ == encode_utf8(chars@.take(i as int)),
        decreases chars.len() - i,
    {
        let mut bytes = encode_char(chars[i]);
        out.append(&mut bytes);
        proof {
            lemma_encode_utf8_push(chars@.take(i as int), chars@[i as int]);
            assert(chars@.take(i as int).push(chars@[i as int]) =~= chars@.take(i + 1));
        }
        i = i + 1;
    }
    proof {
        assert(chars@.take(chars@.len() as int) =~= chars@);
    }
    out
}

/// The UTF-8 encoding of a whole string, as executable code.
pub fn encode_str(s: &str) -> (out: Vec<u8>)
    ensures
        out@ == encode_utf8(s@),
{
    broadcast use vstd::string::axiom_spec_iter, vstd::string::next_postcondition;

    let mut it = s.chars();
    let mut out: Vec<u8> = Vec::new();
    let ghost mut done: Seq<char> = Seq::empty();
    proof {
        assert(done + it.remaining() =~= s@);
        assert(out@ =~= encode_utf8(done));
    }
    loop
        invariant
            it.obeys_prophetic_iter_laws(),
            it.decrease() is Some,
            done + it.remaining() == s@,
            out@ == encode_utf8(done),
        decreases it.decrease()->0,
    {
        match it.next() {
            Some(c) => {
                let mut bytes = encode_char(c);
                out.append(&mut bytes);
                proof {
                    lemma_encode_utf8_push(done, c);
                    assert(done.push(c) + it.remaining() =~= s@);
                    done = done.push(c);
                }
            },
            None => {
                proof {
                    assert(done =~= s@);
                }
                return out;
            },
        }
    }
}

/// Translates one key event into the bytes to send to the device, following
/// `translate_model` exactly.  An unmapped event yields `None`.
pub fn translate(e: &KeyEvent) -> (out: Option<Vec<u8>>)
    ensures
        match out {
            Some(v) => translate_model(*e) == Some(v@),
            None => translate_model(*e) is None,
        },
{
    match e.code {
        KeyCode::Backspace => Some(byte1(0x08)),
        KeyCode::Enter => Some(byte2(0x0D, 0x0A)),
        KeyCode::Left => Some(byte3(0x1B, 0x5B, 0x44)),
        KeyCode::Right => Some(byte3(0x1B, 0x5B, 0x43)),
        KeyCode::Up => Some(byte3(0x1B, 0x5B, 0x41)),
        KeyCode::Down => Some(byte3(0x1B, 0x5B, 0x42)),
        KeyCode::Home => Some(byte3(0x1B, 0x5B, 0x48)),
        KeyCode::End => Some(byte3(0x1B, 0x5B, 0x46)),
        KeyCode::Tab => Some(byte1(0x09)),
        KeyCode::Delete => Some(byte4(0x1B, 0x5B, 0x33, 0x7E)),
        KeyCode::Insert => Some(byte4(0x1B, 0x5B, 0x32, 0x7E)),
        KeyCode::Esc => Some(byte1(0x1B)),
        KeyCode::Char(c) => {
            if e.ctrl && ((('a' <= c) && (c <= 'z')) || c == ' ') {
                Some(byte1((c as u32 % 32) as u8))
            } else if e.ctrl && (('4' <= c) && (c <= '7')) {
                Some(byte1(((c as u32 + 8) % 32) as u8))
            } else {
                Some(encode_char(c))
            }
        },
        KeyCode::Function(_) => None,
        KeyCode::Other => None,
    }
}

/// A one-byte chunk.
fn byte1(b0: u8) -> (v: Vec<u8>)
    ensures
        v@ == seq![b0],
{
    let mut v: Vec<u8> = Vec::new();
    v.push(b0);
    proof {
        assert(v@ =~= seq![b0]);
    }
    v
}

/// A two-byte chunk.
fn byte2(b0: u8, b1: u8) -> (v: Vec<u8>)
    ensures
        v@ == seq![b0, b1],
{
    let mut v: Vec<u8> = Vec::new();
    v.push(b0);
    v.push(b1);
    proof {
        assert(v@ =~= seq![b0, b1]);
    }
    v
}

/// A three-byte chunk.
fn byte3(b0: u8, b1: u8, b2: u8) -> (v: Vec<u8>)
    ensures
        v@ == seq![b0, b1, b2],
{
    let mut v: Vec<u8> = Vec::new();
    v.push(b0);
    v.push(b1);
    v.push(b2);
    proof {
        assert(v@ =~= seq![b0, b1, b2]);
    }
    v
}

/// A four-byte chunk.
fn byte4(b0: u8, b1: u8, b2: u8, b3: u8) -> (v: Vec<u8>)
    ensures
        v@ == seq![b0, b1, b2, b3],
{
    let mut v: Vec<u8> = Vec::new();
    v.push(b0);
    v.push(b1);
    v.push(b2);
    v.push(b3);
    proof {
        assert(v@ =~= seq![b0, b1, b2, b3]);
    }
    v
}

} // verus!
