//! Display text for the port-listing command.
//!
//! Enumerating the devices is platform I/O and happens outside the
//! library; what each found port is called on screen — the heading with
//! the count, the port-type label, the four-digit hexadecimal USB ids —
//! is computed here, character-exact.

use vstd::prelude::*;
use vstd::string::StringExecFns;

verus! {

/// The decimal digit characters.
pub open spec fn digit_char(d: nat) -> char {
    if d == 0 {
        '0'
    } else if d == 1 {
        '1'
    } else if d == 2 {
        '2'
    } else if d == 3 {
        '3'
    } else if d == 4 {
        '4'
    } else if d == 5 {
        '5'
    } else if d == 6 {
        '6'
    } else if d == 7 {
        '7'
    } else if d == 8 {
        '8'
    } else {
        '9'
    }
}

/// The lower-case hexadecimal digit characters.
pub open spec fn hex_digit_char(d: nat) -> char {
    if d < 10 {
        digit_char(d)
    } else if d == 10 {
        'a'
    } else if d == 11 {
        'b'
    } else if d == 12 {
        'c'
    } else if d == 13 {
        'd'
    } else if d == 14 {
        'e'
    } else {
        'f'
    }
}

/// The decimal digits of `n`, most significant first, as characters.
pub open spec fn dec_chars(n: nat) -> Seq<char>
    decreases n,
{
    if n < 10 {
        seq![digit_char(n)]
    } else {
        dec_chars(n / 10).push(digit_char(n % 10))
    }
}

/// The four-digit, zero-padded, lower-case hexadecimal form of a 16-bit id.
pub open spec fn hex4_chars(n: nat) -> Seq<char> {
    seq![
        hex_digit_char(n / 4096 % 16),
        hex_digit_char(n / 256 % 16),
        hex_digit_char(n / 16 % 16),
        hex_digit_char(n % 16),
    ]
}

/// Appends one decimal digit character.
fn push_digit(s: &mut String, d: usize)
    requires
        d < 10,
    ensures
        final(s)@ == old(s)@ + seq![digit_char(d as nat)],
{
    match d {
        0 => {
            s.append("0");
            proof {
                reveal_strlit("0");
                assert(s@ =~= old(s)@ + seq![digit_char(d as nat)]);
            }
        },
        1 => {
            s.append("1");
            proof {
                reveal_strlit("1");
                assert(s@ =~= old(s)@ + seq![digit_char(d as nat)]);
            }
        },
        2 => {
            s.append("2");
            proof {
                reveal_strlit("2");
                assert(s@ =~= old(s)@ + seq![digit_char(d as nat)]);
            }
        },
        3 => {
            s.append("3");
            proof {
                reveal_strlit("3");
                assert(s@ =~= old(s)@ + seq![digit_char(d as nat)]);
            }
        },
        4 => {
            s.append("4");
            proof {
                reveal_strlit("4");
                assert(s@ =~= old(s)@ + seq![digit_char(d as nat)]);
            }
        },
        5 => {
            s.append("5");
            proof {
                reveal_strlit("5");
                assert(s@ =~= old(s)@ + seq![digit_char(d as nat)]);
            }
        },
        6 => {
            s.append("6");
            proof {
                reveal_strlit("6");
                assert(s@ =~= old(s)@ + seq![digit_char(d as nat)]);
            }
        },
        7 => {
            s.append("7");
            proof {
                reveal_strlit("7");
                assert(s@ =~= old(s)@ + seq![digit_char(d as nat)]);
            }
        },
        8 => {
            s.append("8");
            proof {
                reveal_strlit("8");
                assert(s@ =~= old(s)@ + seq![digit_char(d as nat)]);
            }
        },
        _ => {
            s.append("9");
            proof {
                reveal_strlit("9");
                assert(s@ =~= old(s)@ + seq![digit_char(d as nat)]);
            }
        },
    }
}

/// Appends one lower-case hexadecimal digit character.
fn push_hex_digit(s: &mut String, d: usize)
    requires
        d < 16,
    ensures
        final(s)@ == old(s)@ + seq![hex_digit_char(d as nat)],
{
    if d < 10 {
        push_digit(s, d);
    } else {
        match d {
            10 => {
                s.append("a");
                proof {
                    reveal_strlit("a");
                    assert(s@ =~= old(s)@ + seq![hex_digit_char(d as nat)]);
                }
            },
            11 => {
                s.append("b");
                proof {
                    reveal_strlit("b");
                    assert(s@ =~= old(s)@ + seq![hex_digit_char(d as nat)]);
                }
            },
            12 => {
                s.append("c");
                proof {
                    reveal_strlit("c");
                    assert(s@ =~= old(s)@ + seq![hex_digit_char(d as nat)]);
                }
            },
            13 => {
                s.append("d");
                proof {
                    reveal_strlit("d");
                    assert(s@ =~= old(s)@ + seq![hex_digit_char(d as nat)]);
                }
            },
            14 => {
                s.append("e");
                proof {
                    reveal_strlit("e");
                    assert(s@ =~= old(s)@ + seq![hex_digit_char(d as nat)]);
                }
            },
            _ => {
                s.append("f");
                proof {
                    reveal_strlit("f");
                    assert(s@ =~= old(s)@ + seq![hex_digit_char(d as nat)]);
                }
            },
        }
    }
}

/// Appends the decimal digits of `n`.
pub fn push_decimal_chars(s: &mut String, n: usize)
    ensures
        final(s)@ == old(s)@ + dec_chars(n as nat),
    decreases n,
{
    if n < 10 {
        push_digit(s, n);
    } else {
        push_decimal_chars(s, n / 10);
        push_digit(s, n % 10);
        proof {
            assert((n / 10) as nat == n as nat / 10);
            assert(s@ =~= old(s)@ + dec_chars(n as nat));
        }
    }
}

/// What kind of port the platform reported, with the USB vendor and
/// product ids where it is a USB port.
#[derive(Clone, Copy, Debug)]
pub enum PortKind {
    Usb(u16, u16),
    Bluetooth,
    Pci,
    Unknown,
}

/// The label of each port kind.
pub open spec fn kind_label_model(kind: PortKind) -> Seq<char> {
    match kind {
        PortKind::Usb(_, _) => "USB"@,
        PortKind::Bluetooth => "Bluetooth"@,
        PortKind::Pci => "PCI"@,
        PortKind::Unknown => "Unknown"@,
    }
}

/// The on-screen label of a port kind.
pub fn kind_label(kind: &PortKind) -> (label: String)
    ensures
        label@ == kind_label_model(*kind),
{
    match kind {
        PortKind::Usb(_, _) => String::from_str("USB"),
        PortKind::Bluetooth => String::from_str("Bluetooth"),
        PortKind::Pci => String::from_str("PCI"),
        PortKind::Unknown => String::from_str("Unknown"),
    }
}

/// The USB id line body: `VID:` and `PID:` with the four-digit
/// hexadecimal ids.
pub open spec fn usb_id_model(vid: u16, pid: u16) -> Seq<char> {
    "VID:"@ + hex4_chars(vid as nat) + " PID:"@ + hex4_chars(pid as nat)
}

/// Formats the USB vendor and product ids, four hexadecimal digits each.
pub fn usb_id_label(vid: u16, pid: u16) -> (label: String)
    ensures
        label@ == usb_id_model(vid, pid),
{
    let mut label = String::from_str("VID:");
    push_hex4(&mut label, vid);
    label.append(" PID:");
    push_hex4(&mut label, pid);
    proof {
        assert(label@ =~= usb_id_model(vid, pid));
    }
    label
}

/// Appends the four-digit hexadecimal form of a 16-bit id.
fn push_hex4(s: &mut String, n: u16)
    ensures
        final(s)@ == old(s)@ + hex4_chars(n as nat),
{
    push_hex_digit(s, (n as usize / 4096) % 16);
    push_hex_digit(s, (n as usize / 256) % 16);
    push_hex_digit(s, (n as usize / 16) % 16);
    push_hex_digit(s, n as usize % 16);
    proof {
        assert(s@ =~= old(s)@ + hex4_chars(n as nat));
    }
}

/// The heading of the listing, by the number of ports found.
pub open spec fn heading_model(n: nat) -> Seq<char> {
    if n == 0 {
        "No ports found."@
    } else if n == 1 {
        "Found 1 port:"@
    } else {
        "Found "@ + dec_chars(n) + " ports:"@
    }
}

/// The heading of the port listing.
pub fn ports_heading(count: usize) -> (heading: String)
    ensures
        heading@ == heading_model(count as nat),
{
    if count == 0 {
        String::from_str("No ports found.")
    } else if count == 1 {
        String::from_str("Found 1 port:")
    } else {
        let mut heading = String::from_str("Found ");
        push_decimal_chars(&mut heading, count);
        heading.append(" ports:");
        proof {
            assert(heading@ =~= heading_model(count as nat));
        }
        heading
    }
}

} // verus!
