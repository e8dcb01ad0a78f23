//! The optional trace formatter: renders a decoded instruction as one line
//! of assembler-style text, mnemonic first, hex fields uppercase and
//! zero-padded to the operand width.

use vstd::prelude::*;
use vstd::string::StringExecFns;

use crate::isa::AddressingMode;
use crate::isa::Operand;

verus! {

/// The uppercase hexadecimal digit for a value below sixteen.
pub open spec fn hex_digit(n: u8) -> char {
    if n == 0 {
        '0'
    } else if n == 1 {
        '1'
    } else if n == 2 {
        '2'
    } else if n == 3 {
        '3'
    } else if n == 4 {
        '4'
    } else if n == 5 {
        '5'
    } else if n == 6 {
        '6'
    } else if n == 7 {
        '7'
    } else if n == 8 {
        '8'
    } else if n == 9 {
        '9'
    } else if n == 10 {
        'A'
    } else if n == 11 {
        'B'
    } else if n == 12 {
        'C'
    } else if n == 13 {
        'D'
    } else if n == 14 {
        'E'
    } else {
        'F'
    }
}

/// A byte as two uppercase hex digits.
pub open spec fn hex2(v: u8) -> Seq<char> {
    seq![hex_digit(v / 16), hex_digit(v % 16)]
}

/// A 16-bit word as four uppercase hex digits.
pub open spec fn hex4(v: u16) -> Seq<char> {
    hex2((v / 0x100) as u8) + hex2((v % 0x100) as u8)
}

/// The exact trace rendering of one decoded instruction: the mnemonic, then
/// the operand in the notation of its addressing mode.
pub open spec fn spec_trace(name: Seq<char>, mode: AddressingMode, o: Operand) -> Seq<char> {
    match mode {
        AddressingMode::Implied => name,
        AddressingMode::Immediate => name + " #$"@ + hex2(o.value),
        AddressingMode::Relative => name + " $"@ + hex4(o.addr),
        AddressingMode::Zeropage => name + " $"@ + hex2((o.addr % 0x100) as u8),
        AddressingMode::ZeropageX => name + " $"@ + hex2((o.addr % 0x100) as u8) + ",X"@,
        AddressingMode::Absolute => name + " $"@ + hex4(o.addr),
        AddressingMode::AbsoluteX => name + " $"@ + hex4(o.addr) + ",X"@,
        AddressingMode::AbsoluteY => name + " $"@ + hex4(o.addr) + ",Y"@,
        AddressingMode::IndirectX => name + " ($"@ + hex2(o.pointer) + ",X)"@,
        AddressingMode::IndirectY => name + " ($"@ + hex2(o.pointer) + "),Y"@,
        AddressingMode::Invalid => name,
    }
}

fn hex_digit_str(n: u8) -> (r: &'static str)
    requires
        n < 16,
    ensures
        r@ == seq![hex_digit(n)],
{
    proof {
        reveal_strlit("0");
        reveal_strlit("1");
        reveal_strlit("2");
        reveal_strlit("3");
        reveal_strlit("4");
        reveal_strlit("5");
        reveal_strlit("6");
        reveal_strlit("7");
        reveal_strlit("8");
        reveal_strlit("9");
        reveal_strlit("A");
        reveal_strlit("B");
        reveal_strlit("C");
        reveal_strlit("D");
        reveal_strlit("E");
        reveal_strlit("F");
    }
    if n == 0 {
        "0"
    } else if n == 1 {
        "1"
    } else if n == 2 {
        "2"
    } else if n == 3 {
        "3"
    } else if n == 4 {
        "4"
    } else if n == 5 {
        "5"
    } else if n == 6 {
        "6"
    } else if n == 7 {
        "7"
    } else if n == 8 {
        "8"
    } else if n == 9 {
        "9"
    } else if n == 10 {
        "A"
    } else if n == 11 {
        "B"
    } else if n == 12 {
        "C"
    } else if n == 13 {
        "D"
    } else if n == 14 {
        "E"
    } else {
        "F"
    }
}

fn append_hex2(s: &mut String, v: u8)
    ensures
        final(s)@ == old(s)@ + hex2(v),
{
    s.append(hex_digit_str(v / 16));
    s.append(hex_digit_str(v % 16));
    proof {
        assert(s@ =~= old(s)@ + hex2(v));
    }
}

fn append_hex4(s: &mut String, v: u16)
    ensures
        final(s)@ == old(s)@ + hex4(v),
{
    append_hex2(s, (v / 0x100) as u8);
    append_hex2(s, (v % 0x100) as u8);
    proof {
        assert(s@ =~= old(s)@ + hex4(v));
    }
}

/// Renders the trace line for one decoded instruction.
pub fn render_trace(name: &str, mode: AddressingMode, o: Operand) -> (r: String)
    ensures
        r@ == spec_trace(name@, mode, o),
{
    let mut s = name.to_owned();
    match mode {
        AddressingMode::Implied => {
        },
        AddressingMode::Immediate => {
            s.append(" #$");
            append_hex2(&mut s, o.value);
            proof {
                assert(s@ =~= spec_trace(name@, mode, o));
            }
        },
        AddressingMode::Relative => {
            s.append(" $");
            append_hex4(&mut s, o.addr);
            proof {
                assert(s@ =~= spec_trace(name@, mode, o));
            }
        },
        AddressingMode::Zeropage => {
            s.append(" $");
            append_hex2(&mut s, (o.addr % 0x100) as u8);
            proof {
                assert(s@ =~= spec_trace(name@, mode, o));
            }
        },
        AddressingMode::ZeropageX => {
            s.append(" $");
            append_hex2(&mut s, (o.addr % 0x100) as u8);
            s.append(",X");
            proof {
                assert(s@ =~= spec_trace(name@, mode, o));
            }
        },
        AddressingMode::Absolute => {
            s.append(" $");
            append_hex4(&mut s, o.addr);
            proof {
                assert(s@ =~= spec_trace(name@, mode, o));
            }
        },
        AddressingMode::AbsoluteX => {
            s.append(" $");
            append_hex4(&mut s, o.addr);
            s.append(",X");
            proof {
                assert(s@ =~= spec_trace(name@, mode, o));
            }
        },
        AddressingMode::AbsoluteY => {
            s.append(" $");
            append_hex4(&mut s, o.addr);
            s.append(",Y");
            proof {
                assert(s@ =~= spec_trace(name@, mode, o));
            }
        },
        AddressingMode::IndirectX => {
            s.append(" ($");
            append_hex2(&mut s, o.pointer);
            s.append(",X)");
            proof {
                assert(s@ =~= spec_trace(name@, mode, o));
            }
        },
        AddressingMode::IndirectY => {
            s.append(" ($");
            append_hex2(&mut s, o.pointer);
            s.append("),Y");
            proof {
                assert(s@ =~= spec_trace(name@, mode, o));
            }
        },
        AddressingMode::Invalid => {
        },
    }
    s
}

} // verus!
