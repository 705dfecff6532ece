//! The text of the diagnostics log.
//!
//! Each entry makes one line. A line starts with the index register as four
//! hexadecimal digits behind `0x`; for a word that is no instruction the
//! word follows, behind `0x` again, with as many digits as it needs and at
//! least two.

use vstd::prelude::*;
use vstd::string::StringExecFns;
use crate::state::Diagnostic;

verus! {

/// The character for one hexadecimal digit, in upper case.
pub open spec fn hex_digit(n: int) -> char {
    if n == 0 {
        '0'
    } else if n == 1 {
        '1'
    } else if n == 2 {
        '2'
    } else if n == 3 {
        '3'
    } else if n == 4 {
        '4'
    } else if n == 5 {
        '5'
    } else if n == 6 {
        '6'
    } else if n == 7 {
        '7'
    } else if n == 8 {
        '8'
    } else if n == 9 {
        '9'
    } else if n == 10 {
        'A'
    } else if n == 11 {
        'B'
    } else if n == 12 {
        'C'
    } else if n == 13 {
        'D'
    } else if n == 14 {
        'E'
    } else {
        'F'
    }
}

/// The last `digits` hexadecimal digits of `value`, highest first.
pub open spec fn hex(value: u16, digits: nat) -> Seq<char>
    decreases digits,
{
    if digits == 0 {
        Seq::empty()
    } else {
        hex((value / 16) as u16, (digits - 1) as nat).push(hex_digit(value as int % 16))
    }
}

/// The number of hexadecimal digits that `value` needs, and at least two.
pub open spec fn digits_needed(value: u16) -> nat {
    if value >= 0x1000 {
        4
    } else if value >= 0x100 {
        3
    } else {
        2
    }
}

/// The line that stands for `entry` in the text of the log.
pub open spec fn line_of(entry: Diagnostic) -> Seq<char> {
    match entry {
        Diagnostic::UnknownOpcode { index, opcode } => "0x"@ + hex(index, 4) + ": Unknown opcode - 0x"@
            + hex(opcode, digits_needed(opcode)) + "\n"@,
        Diagnostic::SoundNotImplemented { index } => "0x"@ + hex(index, 4)
            + ": Sound not implemented\n"@,
    }
}

/// The text of a log: the lines of its entries, oldest first.
pub open spec fn text_of(log: Seq<Diagnostic>) -> Seq<char>
    decreases log.len(),
{
    if log.len() == 0 {
        Seq::empty()
    } else {
        text_of(log.drop_last()) + line_of(log.last())
    }
}

/// Appends the hexadecimal digit for `n` to `text`.
fn push_hex_digit(text: &mut String, n: u16)
    requires
        n < 16,
    ensures
        final(text)@ == old(text)@.push(hex_digit(n as int)),
{
    proof {
        reveal_strlit("0");
        reveal_strlit("1");
        reveal_strlit("2");
        reveal_strlit("3");
        reveal_strlit("4");
        reveal_strlit("5");
        reveal_strlit("6");
        reveal_strlit("7");
        reveal_strlit("8");
        reveal_strlit("9");
        reveal_strlit("A");
        reveal_strlit("B");
        reveal_strlit("C");
        reveal_strlit("D");
        reveal_strlit("E");
        reveal_strlit("F");
    }
    let digit: &str = match n {
        0 => "0",
        1 => "1",
        2 => "2",
        3 => "3",
        4 => "4",
        5 => "5",
        6 => "6",
        7 => "7",
        8 => "8",
        9 => "9",
        10 => "A",
        11 => "B",
        12 => "C",
        13 => "D",
        14 => "E",
        _ => "F",
    };
    text.append(digit);
    assert(final(text)@ =~= old(text)@.push(hex_digit(n as int)));
}

/// Appends the last `digits` hexadecimal digits of `value` to `text`.
fn push_hex(text: &mut String, value: u16, digits: u8)
    requires
        2 <= digits <= 4,
    ensures
        final(text)@ == old(text)@ + hex(value, digits as nat),
{
    reveal_with_fuel(hex, 5);
    if digits >= 4 {
        push_hex_digit(text, (value / 16 / 16 / 16) % 16);
    }
    if digits >= 3 {
        push_hex_digit(text, (value / 16 / 16) % 16);
    }
    push_hex_digit(text, (value / 16) % 16);
    push_hex_digit(text, value % 16);
    assert(final(text)@ =~= old(text)@ + hex(value, digits as nat));
}

impl Diagnostic {
    /// The line that stands for this entry in the text of the log.
    pub fn line(&self) -> (text: String)
        ensures
            text@ == line_of(*self),
    {
        let mut text: String = String::new();
        match self {
            Diagnostic::UnknownOpcode { index, opcode } => {
                text.append("0x");
                push_hex(&mut text, *index, 4);
                text.append(": Unknown opcode - 0x");
                let digits: u8 = if *opcode >= 0x1000 {
                    4
                } else if *opcode >= 0x100 {
                    3
                } else {
                    2
                };
                push_hex(&mut text, *opcode, digits);
                text.append("\n");
            },
            Diagnostic::SoundNotImplemented { index } => {
                text.append("0x");
                push_hex(&mut text, *index, 4);
                text.append(": Sound not implemented\n");
            },
        }
        assert(text@ =~= line_of(*self));
        text
    }
}

/// The text of a log: the lines of its entries, oldest first.
pub fn log_text(log: &Vec<Diagnostic>) -> (text: String)
    ensures
        text@ == text_of(log@),
{
    let mut text: String = String::new();
    let mut k: usize = 0;
    while k < log.len()
        invariant
            k <= log@.len(),
            text@ == text_of(log@.take(k as int)),
        decreases log@.len() - k,
    {
        let line: String = log[k].line();
        text.append(line.as_str());
        proof {
            assert(log@.take(k + 1).drop_last() =~= log@.take(k as int));
        }
        k += 1;
    }
    assert(log@.take(k as int) =~= log@);
    text
}

} // verus!
