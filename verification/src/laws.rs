//! Laws of the instruction set: what holds of every state and every operand.
//!
//! Each law is stated over the model of the machine, [`CpuState`], and the
//! semantics that the processor is proved to follow, [`next_state`].

use vstd::prelude::*;
use crate::display::{drawn, erases, sprite_lit};
use crate::instruction::{decoded, family_of, n_of, nn_of, x_of, y_of, Instruction};
use crate::semantics::{next_state, outcome, wrap16};
use crate::state::{CpuState, Diagnostic, Fault, Progress};
use crate::timer::decayed;

verus! {

/// Every instruction word decodes to an instruction whose register indices,
/// addresses and row count are in range.
pub proof fn law_decoded_well_formed(opcode: u16)
    ensures
        decoded(opcode).well_formed(),
{
}

/// The words that are no instruction: in family `0` all but `0000`, `00E0`
/// and `00EE`; in families `5` and `9` those whose last nibble is not 0; in
/// family `8` those whose last nibble is 8 to D or F; in family `E` all but
/// `Ex9E` and `ExA1`; in family `F` all whose low byte is none of the nine
/// that are defined. Every word of the other families is an instruction.
pub proof fn law_unknown_words(opcode: u16)
    ensures
        decoded(opcode) is Unknown <==> {
            let family = family_of(opcode);
            let n = n_of(opcode);
            let nn = nn_of(opcode);
            ||| family == 0x0 && opcode != 0x0000 && opcode != 0x00E0 && opcode != 0x00EE
            ||| (family == 0x5 || family == 0x9) && n != 0
            ||| family == 0x8 && (8 <= n <= 0xD || n == 0xF)
            ||| family == 0xE && nn != 0x9E && nn != 0xA1
            ||| family == 0xF && nn != 0x07 && nn != 0x0A && nn != 0x15 && nn != 0x18 && nn != 0x1E
                && nn != 0x29 && nn != 0x33 && nn != 0x55 && nn != 0x65
        },
        decoded(opcode) matches Instruction::Unknown { opcode: word } ==> word == opcode,
{
}

/// An instruction leaves a well-formed state well-formed: memory, registers,
/// framebuffer and keys keep their sizes, and the stack never holds more
/// than sixteen return addresses.
pub proof fn law_well_formed_preserved(s: CpuState, instr: Instruction, random: u8, elapsed_ms: nat)
    requires
        s.well_formed(),
        instr.well_formed(),
    ensures
        next_state(s, instr, random, elapsed_ms).well_formed(),
{
}

/// An instruction that faults, and a wait for a key while none is held,
/// leave the machine exactly as it was. Every other instruction completes.
pub proof fn law_no_progress_no_change(s: CpuState, instr: Instruction, random: u8, elapsed_ms: nat)
    ensures
        outcome(s, instr) != Ok::<Progress, Fault>(Progress::Completed) ==> next_state(
            s,
            instr,
            random,
            elapsed_ms,
        ) == s,
        outcome(s, instr) is Err <==> (instr is Call && s.sp >= 16) || (instr is Return && s.sp
            == 0),
{
}

/// No instruction touches the halt flag or the keys, and none removes or
/// alters an entry of the diagnostics log: the log only grows, and by at
/// most one entry per instruction.
pub proof fn law_host_state_kept(s: CpuState, instr: Instruction, random: u8, elapsed_ms: nat)
    ensures
        next_state(s, instr, random, elapsed_ms).halt == s.halt,
        next_state(s, instr, random, elapsed_ms).keys == s.keys,
        next_state(s, instr, random, elapsed_ms).sound == s.sound,
        next_state(s, instr, random, elapsed_ms).log == s.log || exists|entry: Diagnostic|
            next_state(s, instr, random, elapsed_ms).log == #[trigger] s.log.push(entry),
{
    match instr {
        Instruction::SetSound { .. } => {
            assert(next_state(s, instr, random, elapsed_ms).log == s.log.push(
                Diagnostic::SoundNotImplemented { index: s.i },
            ));
        },
        Instruction::Unknown { opcode } => {
            assert(next_state(s, instr, random, elapsed_ms).log == s.log.push(
                Diagnostic::UnknownOpcode { index: s.i, opcode },
            ));
        },
        _ => {},
    }
}

/// The random byte matters to `Cxnn` alone and the clock to `Fx07` alone:
/// every other instruction has one result whatever the two are.
pub proof fn law_outside_inputs(
    s: CpuState,
    instr: Instruction,
    random: u8,
    elapsed_ms: nat,
    other_random: u8,
    other_elapsed_ms: nat,
)
    ensures
        !(instr is Random) ==> next_state(s, instr, random, elapsed_ms) == next_state(
            s,
            instr,
            other_random,
            elapsed_ms,
        ),
        !(instr is ReadDelay) ==> next_state(s, instr, random, elapsed_ms) == next_state(
            s,
            instr,
            random,
            other_elapsed_ms,
        ),
{
}

/// `8xy4`: `VF` becomes 1 exactly if the sum of the two registers exceeds
/// 255, and 0 otherwise. `V[x]` becomes the sum modulo 256, unless `x` is
/// the flag register itself, which then holds the flag.
pub proof fn law_add_sets_carry(s: CpuState, opcode: u16, random: u8, elapsed_ms: nat)
    requires
        s.well_formed(),
        family_of(opcode) == 0x8,
        n_of(opcode) == 0x4,
    ensures
        ({
            let x = x_of(opcode) as int;
            let y = y_of(opcode) as int;
            let t = next_state(s, decoded(opcode), random, elapsed_ms);
            &&& t.v[15] == 1 <==> s.v[x] + s.v[y] > 255
            &&& t.v[15] == 0 <==> s.v[x] + s.v[y] <= 255
            &&& x != 15 ==> t.v[x] == (s.v[x] + s.v[y]) % 256
            &&& forall|k: int| 0 <= k < 15 && k != x ==> t.v[k] == s.v[k]
        }),
{
}

/// `8xy5`: `VF` becomes 1 exactly if the subtraction borrows, that is if
/// `V[x] < V[y]`, and 0 otherwise. `V[x]` becomes the difference modulo 256,
/// unless `x` is the flag register itself, which then holds the flag.
pub proof fn law_subtract_sets_borrow(s: CpuState, opcode: u16, random: u8, elapsed_ms: nat)
    requires
        s.well_formed(),
        family_of(opcode) == 0x8,
        n_of(opcode) == 0x5,
    ensures
        ({
            let x = x_of(opcode) as int;
            let y = y_of(opcode) as int;
            let t = next_state(s, decoded(opcode), random, elapsed_ms);
            &&& t.v[15] == 1 <==> s.v[x] < s.v[y]
            &&& t.v[15] == 0 <==> s.v[x] >= s.v[y]
            &&& x != 15 ==> t.v[x] == (s.v[x] - s.v[y]) % 256
            &&& forall|k: int| 0 <= k < 15 && k != x ==> t.v[k] == s.v[k]
        }),
{
}

/// `8xy7`: as `8xy5` with the operands exchanged: `V[x]` becomes
/// `V[y] - V[x]` modulo 256 and `VF` is 1 exactly if `V[y] < V[x]`.
pub proof fn law_subtract_from_sets_borrow(s: CpuState, opcode: u16, random: u8, elapsed_ms: nat)
    requires
        s.well_formed(),
        family_of(opcode) == 0x8,
        n_of(opcode) == 0x7,
    ensures
        ({
            let x = x_of(opcode) as int;
            let y = y_of(opcode) as int;
            let t = next_state(s, decoded(opcode), random, elapsed_ms);
            &&& t.v[15] == 1 <==> s.v[y] < s.v[x]
            &&& t.v[15] == 0 <==> s.v[y] >= s.v[x]
            &&& x != 15 ==> t.v[x] == (s.v[y] - s.v[x]) % 256
        }),
{
}

/// `00E0`, any `Dxyn`, `00E0`: the framebuffer is all off after the first
/// clearing and again, identically, after the second.
pub proof fn law_clear_draw_clear(
    s: CpuState,
    x: u8,
    y: u8,
    rows: u8,
    random: u8,
    elapsed_ms: nat,
)
    ensures
        ({
            let cleared = next_state(s, Instruction::ClearScreen, random, elapsed_ms);
            let painted = next_state(cleared, Instruction::Draw { x, y, rows }, random, elapsed_ms);
            let again = next_state(painted, Instruction::ClearScreen, random, elapsed_ms);
            &&& again.pixels == cleared.pixels
            &&& again.pixels.len() == 2048
            &&& forall|p: int| 0 <= p < 2048 ==> !again.pixels[p]
        }),
{
}

/// No instruction but a call writes to the stack, and a call writes one
/// slot only: the one that the stack pointer names, which takes the address
/// of the call. The pointer moves up by one on a call, down by one on a
/// return, and stays where it is otherwise.
pub proof fn law_stack_kept(s: CpuState, instr: Instruction, random: u8, elapsed_ms: nat)
    requires
        s.well_formed(),
    ensures
        ({
            let t = next_state(s, instr, random, elapsed_ms);
            &&& !(instr is Call && s.sp < 16) ==> t.stack == s.stack
            &&& instr is Call && s.sp < 16 ==> t.stack == s.stack.update(s.sp as int, s.pc) && t.sp
                == s.sp + 1
            &&& instr is Return && s.sp > 0 ==> t.sp == s.sp - 1
            &&& !(instr is Call && s.sp < 16) && !(instr is Return && s.sp > 0) ==> t.sp == s.sp
        }),
{
}

/// `2nnn` followed by `00EE`: if the stack has room for the call, the pair
/// leaves the program counter two past where the call stood (modulo 65536),
/// the stack pointer where it was and every pending return address as it
/// was. The slot that the call used keeps the address of the call; nothing
/// else changes.
pub proof fn law_call_then_return(s: CpuState, addr: u16, random: u8, elapsed_ms: nat)
    requires
        s.well_formed(),
        s.sp < 16,
    ensures
        ({
            let called = next_state(s, Instruction::Call { addr }, random, elapsed_ms);
            let returned = next_state(called, Instruction::Return, random, elapsed_ms);
            &&& outcome(s, Instruction::Call { addr }) == Ok::<Progress, Fault>(Progress::Completed)
            &&& outcome(called, Instruction::Return) == Ok::<Progress, Fault>(Progress::Completed)
            &&& called.pc == addr
            &&& returned == CpuState {
                pc: wrap16(s.pc + 2),
                stack: s.stack.update(s.sp as int, s.pc),
                ..s
            }
            &&& returned.sp == s.sp
            &&& forall|k: int| 0 <= k < 16 && k != s.sp ==> returned.stack[k] == s.stack[k]
            &&& s.pc <= 0xFFFD ==> returned.pc == s.pc + 2
        }),
{
}

/// `Dxyn` twice at the same place: if the first drawing leaves `V[x]` and
/// `V[y]` as they were, the second restores the framebuffer to what it was
/// before the first. The flag is 0 afterwards only if it was 0 before and
/// the sprite has no lit bit inside the buffer: wherever the sprite has one,
/// one of the two drawings turns a pixel off and raises the flag.
pub proof fn law_draw_twice(s: CpuState, x: u8, y: u8, rows: u8, random: u8, elapsed_ms: nat)
    requires
        s.well_formed(),
        x < 16,
        y < 16,
        next_state(s, Instruction::Draw { x, y, rows }, random, elapsed_ms).v[x as int] == s.v[x as int],
        next_state(s, Instruction::Draw { x, y, rows }, random, elapsed_ms).v[y as int] == s.v[y as int],
    ensures
        ({
            let draw = Instruction::Draw { x, y, rows };
            let once = next_state(s, draw, random, elapsed_ms);
            let twice = next_state(once, draw, random, elapsed_ms);
            &&& twice.pixels == s.pixels
            &&& twice.memory == s.memory
            &&& twice.i == s.i
            &&& twice.v[15] == 0 <==> s.v[15] == 0 && forall|p: int|
                0 <= p < 2048 ==> !sprite_lit(s.memory, s.i, s.v[x as int], s.v[y as int], rows, p)
        }),
{
    let draw = Instruction::Draw { x, y, rows };
    let once = next_state(s, draw, random, elapsed_ms);
    let twice = next_state(once, draw, random, elapsed_ms);
    let cx = s.v[x as int];
    let cy = s.v[y as int];
    assert(once.pixels == drawn(s.pixels, s.memory, s.i, cx, cy, rows));
    assert(twice.pixels == drawn(once.pixels, s.memory, s.i, cx, cy, rows));
    assert(twice.pixels =~= s.pixels);
    let first = erases(s.pixels, s.memory, s.i, cx, cy, rows);
    let second = erases(once.pixels, s.memory, s.i, cx, cy, rows);
    if exists|p: int| 0 <= p < 2048 && sprite_lit(s.memory, s.i, cx, cy, rows, p) {
        let p = choose|p: int| 0 <= p < 2048 && sprite_lit(s.memory, s.i, cx, cy, rows, p);
        if s.pixels[p] {
            assert(first);
        } else {
            assert(once.pixels[p]);
            assert(second);
        }
    }
}

/// A word that is no instruction adds exactly one entry to the diagnostics
/// log, which names the word and the index register, moves the program
/// counter on by two and changes nothing else.
pub proof fn law_unknown_word_logged(s: CpuState, opcode: u16, random: u8, elapsed_ms: nat)
    requires
        decoded(opcode) is Unknown,
    ensures
        next_state(s, decoded(opcode), random, elapsed_ms) == (CpuState {
            pc: wrap16(s.pc + 2),
            log: s.log.push(Diagnostic::UnknownOpcode { index: s.i, opcode }),
            ..s
        }),
        next_state(s, decoded(opcode), random, elapsed_ms).log.len() == s.log.len() + 1,
        outcome(s, decoded(opcode)) == Ok::<Progress, Fault>(Progress::Completed),
{
}

/// The delay timer shows `max(0, value - elapsed_ms / 16)`: the value it was
/// set to at first, never more as time passes, and zero from `16 * value`
/// milliseconds on.
pub proof fn law_timer_decay(value: u8, elapsed_ms: nat, later_ms: nat)
    requires
        elapsed_ms <= later_ms,
    ensures
        decayed(value, 0) == value,
        decayed(value, elapsed_ms) as int == if value - elapsed_ms / 16 > 0 {
            value - elapsed_ms / 16
        } else {
            0
        },
        decayed(value, later_ms) <= decayed(value, elapsed_ms),
        decayed(value, elapsed_ms) == 0 <==> elapsed_ms >= 16 * value,
{
}

} // verus!
