//! ANSI/VT control sequences, built as plain bytes.
//!
//! The renderer keeps the status bars out of the scroll region with a small
//! fixed set of control sequences: setting scroll margins, saving and
//! restoring the cursor, absolute cursor moves, colors and line clearing.
//! Everything here is byte-exact: each builder's output is pinned to a
//! sequence model down to the digits.

use vstd::prelude::*;

verus! {

/// The ASCII decimal digits of `n`, most significant first.
pub open spec fn dec_digits(n: nat) -> Seq<u8>
    decreases n,
{
    if n < 10 {
        seq![(0x30 + n) as u8]
    } else {
        dec_digits(n / 10).push((0x30 + n % 10) as u8)
    }
}

/// The two-byte control sequence introducer, ESC `[`.
pub open spec fn csi() -> Seq<u8> {
    seq![0x1Bu8, 0x5Bu8]
}

/// The scroll-margin sequence: CSI `first;last r`, rows 1-based.
pub open spec fn set_margin_bytes(first: nat, last: nat) -> Seq<u8> {
    csi() + dec_digits(first) + seq![0x3Bu8] + dec_digits(last) + seq![0x72u8]
}

/// The absolute cursor move: CSI `row;col H`, both 1-based.
pub open spec fn cursor_to_bytes(row: nat, col: nat) -> Seq<u8> {
    csi() + dec_digits(row) + seq![0x3Bu8] + dec_digits(col) + seq![0x48u8]
}

/// Save cursor position, ESC `7`.
pub open spec fn save_cursor_bytes() -> Seq<u8> {
    seq![0x1Bu8, 0x37u8]
}

/// Restore cursor position, ESC `8`.
pub open spec fn restore_cursor_bytes() -> Seq<u8> {
    seq![0x1Bu8, 0x38u8]
}

/// Select graphic rendition with one parameter: CSI `n m`.
pub open spec fn sgr_bytes(n: nat) -> Seq<u8> {
    csi() + dec_digits(n) + seq![0x6Du8]
}

/// Clear the whole current line: CSI `2K`.
pub open spec fn clear_line_bytes() -> Seq<u8> {
    csi() + seq![0x32u8, 0x4Bu8]
}

/// Appends the ASCII decimal digits of `n` to `out`.
pub fn push_decimal(out: &mut Vec<u8>, n: u16)
    ensures
        final(out)@ == old(out)@ + dec_digits(n as nat),
    decreases n,
{
    if n < 10 {
        out.push(0x30u8 + (n as u8));
        proof {
            assert(out@ =~= old(out)@ + dec_digits(n as nat));
        }
    } else {
        push_decimal(out, n / 10);
        out.push(0x30u8 + ((n % 10) as u8));
        proof {
            assert((n / 10) as nat == n as nat / 10);
            assert(out@ =~= old(out)@ + dec_digits(n as nat));
        }
    }
}

/// Appends ESC `[` to `out`.
pub fn push_csi(out: &mut Vec<u8>)
    ensures
        final(out)@ == old(out)@ + csi(),
{
    out.push(0x1B);
    out.push(0x5B);
    proof {
        assert(out@ =~= old(out)@ + csi());
    }
}

/// Scroll-region command: the rows `first` through `last`, 1-based and
/// inclusive, become the scrolling part of the screen.  Emitting it also
/// homes the cursor.
#[derive(Clone, Copy, Debug)]
pub struct SetMargin(pub u16, pub u16);

impl SetMargin {
    /// The bytes of the command.
    pub fn ansi_bytes(&self) -> (out: Vec<u8>)
        ensures
            out@ == set_margin_bytes(self.0 as nat, self.1 as nat),
    {
        let mut out: Vec<u8> = Vec::new();
        push_csi(&mut out);
        push_decimal(&mut out, self.0);
        out.push(0x3B);
        push_decimal(&mut out, self.1);
        out.push(0x72);
        proof {
            assert(out@ =~= set_margin_bytes(self.0 as nat, self.1 as nat));
        }
        out
    }
}

/// Appends the absolute cursor move to `row`, `col` (1-based).
pub fn push_cursor_to(out: &mut Vec<u8>, row: u16, col: u16)
    ensures
        final(out)@ == old(out)@ + cursor_to_bytes(row as nat, col as nat),
{
    push_csi(out);
    push_decimal(out, row);
    out.push(0x3B);
    push_decimal(out, col);
    out.push(0x48);
    proof {
        assert(out@ =~= old(out)@ + cursor_to_bytes(row as nat, col as nat));
    }
}

/// Appends the save-cursor sequence.
pub fn push_save_cursor(out: &mut Vec<u8>)
    ensures
        final(out)@ == old(out)@ + save_cursor_bytes(),
{
    out.push(0x1B);
    out.push(0x37);
    proof {
        assert(out@ =~= old(out)@ + save_cursor_bytes());
    }
}

/// Appends the restore-cursor sequence.
pub fn push_restore_cursor(out: &mut Vec<u8>)
    ensures
        final(out)@ == old(out)@ + restore_cursor_bytes(),
{
    out.push(0x1B);
    out.push(0x38);
    proof {
        assert(out@ =~= old(out)@ + restore_cursor_bytes());
    }
}

/// Appends one select-graphic-rendition sequence.
pub fn push_sgr(out: &mut Vec<u8>, n: u16)
    ensures
        final(out)@ == old(out)@ + sgr_bytes(n as nat),
{
    push_csi(out);
    push_decimal(out, n);
    out.push(0x6D);
    proof {
        assert(out@ =~= old(out)@ + sgr_bytes(n as nat));
    }
}

/// Appends the clear-current-line sequence.
pub fn push_clear_line(out: &mut Vec<u8>)
    ensures
        final(out)@ == old(out)@ + clear_line_bytes(),
{
    push_csi(out);
    out.push(0x32);
    out.push(0x4B);
    proof {
        assert(out@ =~= old(out)@ + clear_line_bytes());
    }
}

} // verus!
