//! The processor: it owns every other component and runs the
//! fetch-decode-execute cycle.

use vstd::prelude::*;

use nanorand::{WyRand, RNG};
use std::time::Instant;

use crate::display::{collides, drawn, Display, EXT_HEIGHT, EXT_WIDTH, HEIGHT, WIDTH};
use crate::keypad::{lowest_down, KeyCode, KeyState, KEYCODE_SIZE};
use crate::memory::{
    bcd_digits, initial_ram, written, LoadError, Memory, AVAILABLE_STORAGE, CALL_STACK_START_ADDR, EACH_FONT_SIZE,
    FONTS_SET_ADDR, INSTRUCTION_SIZE, RAM_SIZE, ROM_START_ADDR, TOTAL_HEXI,
};
use crate::opcode::{decoded, operands_in_range, DecodeError, OpcodeKind};
use crate::register::{Registers, REG_TOTAL, VF};
use crate::stack::{Stack, MAX_STACK};
use crate::timer::{delay_after, DelayTimer, SoundTimer, MIN_SOUND_DURATION};

verus! {

broadcast use Registers::lemma_len, KeyState::lemma_len;

/// The source of the random instruction's bytes.
#[verifier::external_type_specification]
#[verifier::external_body]
pub struct ExWyRand(WyRand);

/// Relies on `nanorand::WyRand::new`: a generator seeded from system
/// entropy; nothing is known of its state.
pub assume_specification[ WyRand::new ]() -> WyRand;

/// Relies on nanorand's `RNG::generate::<u8>` for `WyRand`: the next
/// pseudo-random byte; nothing is known of its value.
#[verifier::external_body]
fn random_byte(rng: &mut WyRand) -> (r: u8) {
    rng.generate::<u8>()
}

/// Whether the processor runs cycles.
#[derive(Clone, Copy, Debug, PartialEq, Eq, Structural)]
pub enum CpuState {
    /// Cycles run one after another.
    Running,
    /// Cycles run one at a time, at the host's request.
    Step,
    /// A key-wait instruction found no key down; the host resumes the
    /// processor once a key is pressed.
    Paused,
}

/// Which of the historically divergent behaviours the processor follows.
#[derive(Clone, Copy, Debug, PartialEq, Eq, Structural)]
pub enum Mode {
    /// The COSMAC VIP as first shipped: `Bnnn` jumps from `V0`, shifts read `Vy`,
    /// font digits are masked to their low nibble, register dump and load
    /// advance `I`, and `I + Vx` must stay addressable.
    Classic,
    /// The widely adopted reinterpretation: `Bxnn` jumps from `Vx`, shifts
    /// read `Vx`, font digits must be below 16, dump and load leave `I`, and
    /// `I + Vx` is kept addressable with `VF` flagging the overflow. Keeping
    /// it addressable is done by wrapping modulo the memory size, so that
    /// `I` ends where a 12-bit address register would.
    Modern,
    /// As `Modern`, on a 128 by 64 screen.
    Extended,
}

/// What stops the processor: the running program is broken or unsupported.
#[derive(Clone, Copy, Debug, PartialEq, Eq, Structural)]
pub enum Fault {
    /// The word at `pc` is not an instruction this machine runs.
    Decode(DecodeError),
    /// A call with sixteen return addresses already on the stack.
    StackOverflow,
    /// A return with no return address on the stack.
    StackUnderflow,
    /// A jump, call, return, skip or fetch that would take `pc` here, out of
    /// the program area.
    PcOutOfRange(u16),
    /// `I` would be moved past the end of memory, to this sum.
    IndexOutOfRange(u16),
    /// A read or write of memory from `I` (this address) past its end.
    MemoryOutOfRange(u16),
    /// A font glyph was asked for a value that is not a hexadecimal digit.
    FontDigit(u8),
    /// The sound timer was given a duration below the shortest one.
    SoundTooShort(u8),
    /// A key was tested by a number that names no key.
    BadKey(u8),
}

/// The whole machine state as the instructions see it.
pub struct CpuView {
    /// `V0`..`VF`.
    pub regs: Seq<u8>,
    /// The address space.
    pub ram: Seq<u8>,
    /// The program counter.
    pub pc: u16,
    /// The index register `I`.
    pub i: u16,
    /// Return addresses, the newest last.
    pub stack: Seq<u16>,
    /// The delay timer's value as last stored or brought up to date.
    pub delay: u8,
    /// The sound timer's value.
    pub sound: u8,
    /// Which keys are down.
    pub keys: Seq<bool>,
    /// The framebuffer, row-major.
    pub screen: Seq<bool>,
    /// Screen width in pixels.
    pub width: u16,
    /// Screen height in pixels.
    pub height: u16,
    /// The run state.
    pub state: CpuState,
    /// Whether the current cycle touched the screen.
    pub should_draw: bool,
    /// The compatibility mode.
    pub mode: Mode,
}

/// `s` with `pc` moved to `addr`, if `addr` lies in the program area.
pub open spec fn jump_to(s: CpuView, addr: int) -> Result<CpuView, Fault> {
    if ROM_START_ADDR <= addr <= CALL_STACK_START_ADDR {
        Ok(CpuView { pc: addr as u16, ..s })
    } else {
        Err(Fault::PcOutOfRange(addr as u16))
    }
}

/// `s` with the next instruction skipped when `cond` holds.
pub open spec fn skip_if(s: CpuView, cond: bool) -> Result<CpuView, Fault> {
    if !cond {
        Ok(s)
    } else if s.pc <= RAM_SIZE {
        Ok(CpuView { pc: (s.pc + INSTRUCTION_SIZE) as u16, ..s })
    } else {
        Err(Fault::PcOutOfRange(s.pc))
    }
}

/// `s` with register `x` set to `value`.
pub open spec fn set_reg(s: CpuView, x: u8, value: u8) -> CpuView {
    CpuView { regs: s.regs.update(x as int, value), ..s }
}

/// `s` with register `x` set to `value`, then `VF` set to `flag`.
pub open spec fn set_reg_flag(s: CpuView, x: u8, value: u8, flag: u8) -> CpuView {
    CpuView { regs: s.regs.update(x as int, value).update(VF as int, flag), ..s }
}

/// `s` with `VF` set to `flag`, then register `x` set to `value`.
pub open spec fn set_flag_reg(s: CpuView, x: u8, value: u8, flag: u8) -> CpuView {
    CpuView { regs: s.regs.update(VF as int, flag).update(x as int, value), ..s }
}

/// The register a shift reads: `Vy` in classic mode, `Vx` otherwise.
pub open spec fn shift_source(s: CpuView, x: u8, y: u8) -> u8 {
    if s.mode == Mode::Classic {
        s.regs[y as int]
    } else {
        s.regs[x as int]
    }
}

/// `I` after a classic-mode register dump or load of `count` bytes.
pub open spec fn index_after_block(s: CpuView, count: int) -> u16 {
    if s.mode == Mode::Classic {
        ((s.i + count) % (RAM_SIZE as int)) as u16
    } else {
        s.i
    }
}

/// The state after executing `k` in state `s`, where `rand` is the random
/// byte drawn for it and `nanos` the time since the delay timer was last
/// updated; or the fault that stops the processor.
pub open spec fn step(s: CpuView, k: OpcodeKind, rand: u8, nanos: u128) -> Result<CpuView, Fault> {
    match k {
        OpcodeKind::JpAddr { addr } => jump_to(s, addr as int),
        OpcodeKind::JpVxAddr { x, addr } => {
            let base = if s.mode == Mode::Classic { s.regs[0] } else { s.regs[x as int] };
            jump_to(s, addr + base)
        },
        OpcodeKind::Ret => {
            if s.stack.len() == 0 {
                Err(Fault::StackUnderflow)
            } else {
                jump_to(CpuView { stack: s.stack.drop_last(), ..s }, s.stack.last() as int)
            }
        },
        OpcodeKind::Call { addr } => {
            if s.stack.len() >= MAX_STACK {
                Err(Fault::StackOverflow)
            } else {
                jump_to(CpuView { stack: s.stack.push(s.pc), ..s }, addr as int)
            }
        },
        OpcodeKind::SkipVxByte { eq, x, byte } => skip_if(s, (s.regs[x as int] == byte) == eq),
        OpcodeKind::SkipVxVy { eq, x, y } => skip_if(s, (s.regs[x as int] == s.regs[y as int]) == eq),
        OpcodeKind::LoadVxByte { x, byte } => Ok(set_reg(s, x, byte)),
        OpcodeKind::AddVxByte { x, byte } => Ok(set_reg(s, x, ((s.regs[x as int] + byte) % 256) as u8)),
        OpcodeKind::LoadVxVy { x, y } => Ok(set_reg(s, x, s.regs[y as int])),
        OpcodeKind::Or { x, y } => Ok(set_reg(s, x, s.regs[x as int] | s.regs[y as int])),
        OpcodeKind::And { x, y } => Ok(set_reg(s, x, s.regs[x as int] & s.regs[y as int])),
        OpcodeKind::Xor { x, y } => Ok(set_reg(s, x, s.regs[x as int] ^ s.regs[y as int])),
        OpcodeKind::Add { x, y } => {
            let sum = s.regs[x as int] + s.regs[y as int];
            Ok(set_reg_flag(s, x, (sum % 256) as u8, if sum > 255 { 1 } else { 0 }))
        },
        OpcodeKind::Subtract { x_y, x, y } => {
            let (a, b) = if x_y {
                (s.regs[x as int], s.regs[y as int])
            } else {
                (s.regs[y as int], s.regs[x as int])
            };
            Ok(set_reg_flag(s, x, ((a - b + 256) % 256) as u8, if a >= b { 1 } else { 0 }))
        },
        OpcodeKind::ShiftRight { x, y } => {
            let src = shift_source(s, x, y);
            Ok(set_flag_reg(s, x, src / 2, src % 2))
        },
        OpcodeKind::ShiftLeft { x, y } => {
            let src = shift_source(s, x, y);
            Ok(set_flag_reg(s, x, ((src * 2) % 256) as u8, src / 128))
        },
        OpcodeKind::Random { x, byte } => Ok(set_reg(s, x, rand & byte)),
        OpcodeKind::LoadDT { x } => {
            let d = delay_after(s.delay, nanos);
            Ok(CpuView { delay: d, ..set_reg(s, x, d) })
        },
        OpcodeKind::StoreDT { x } => Ok(CpuView { delay: s.regs[x as int], ..s }),
        OpcodeKind::StoreST { x } => {
            if s.regs[x as int] < MIN_SOUND_DURATION {
                Err(Fault::SoundTooShort(s.regs[x as int]))
            } else {
                Ok(CpuView { sound: s.regs[x as int], ..s })
            }
        },
        OpcodeKind::LoadK { x } => match lowest_down(s.keys) {
            Some(key) => Ok(set_reg(s, x, key)),
            None => {
                if s.pc >= INSTRUCTION_SIZE {
                    Ok(CpuView { state: CpuState::Paused, pc: (s.pc - INSTRUCTION_SIZE) as u16, ..s })
                } else {
                    Err(Fault::PcOutOfRange(s.pc))
                }
            },
        },
        OpcodeKind::SkipIfKey { eq, x } => {
            let key = s.regs[x as int];
            if key >= KEYCODE_SIZE {
                Err(Fault::BadKey(key))
            } else {
                skip_if(s, s.keys[key as int] == eq)
            }
        },
        OpcodeKind::LoadI { addr } => Ok(CpuView { i: addr, ..s }),
        OpcodeKind::AddIVx { x } => {
            let sum = s.i + s.regs[x as int];
            if s.mode == Mode::Classic {
                if sum >= RAM_SIZE {
                    Err(Fault::IndexOutOfRange(sum as u16))
                } else {
                    Ok(CpuView { i: sum as u16, ..s })
                }
            } else {
                Ok(CpuView {
                    i: (sum % (RAM_SIZE as int)) as u16,
                    regs: s.regs.update(VF as int, if sum >= RAM_SIZE { 1u8 } else { 0u8 }),
                    ..s
                })
            }
        },
        OpcodeKind::LoadBcd { x } => {
            if s.i + 3 > RAM_SIZE {
                Err(Fault::MemoryOutOfRange(s.i))
            } else {
                Ok(CpuView { ram: written(s.ram, s.i as int, bcd_digits(s.regs[x as int])), ..s })
            }
        },
        OpcodeKind::PushRegs { x } => {
            if s.i + x + 1 > RAM_SIZE {
                Err(Fault::MemoryOutOfRange(s.i))
            } else {
                Ok(CpuView {
                    ram: written(s.ram, s.i as int, s.regs.subrange(0, x + 1)),
                    i: index_after_block(s, x + 1),
                    ..s
                })
            }
        },
        OpcodeKind::PopRegs { x } => {
            if s.i + x + 1 > RAM_SIZE {
                Err(Fault::MemoryOutOfRange(s.i))
            } else {
                Ok(CpuView {
                    regs: s.ram.subrange(s.i as int, s.i + x + 1) + s.regs.subrange(x + 1, REG_TOTAL as int),
                    i: index_after_block(s, x + 1),
                    ..s
                })
            }
        },
        OpcodeKind::Cls => Ok(CpuView {
            screen: Seq::new(s.screen.len(), |p: int| false),
            should_draw: true,
            ..s
        }),
        OpcodeKind::Draw { x, y, n } => {
            if s.i + n > RAM_SIZE {
                Err(Fault::MemoryOutOfRange(s.i))
            } else {
                let sprites = s.ram.subrange(s.i as int, s.i + n);
                let (w, h) = (s.width as int, s.height as int);
                let (vx, vy) = (s.regs[x as int], s.regs[y as int]);
                Ok(CpuView {
                    screen: drawn(s.screen, w, h, vx, vy, sprites),
                    regs: s.regs.update(VF as int, if collides(s.screen, w, h, vx, vy, sprites) { 1u8 } else { 0u8 }),
                    should_draw: true,
                    ..s
                })
            }
        },
        OpcodeKind::LoadFont { x } => {
            let d = s.regs[x as int];
            if s.mode == Mode::Classic {
                Ok(CpuView { i: (FONTS_SET_ADDR + EACH_FONT_SIZE * (d % 16)) as u16, ..s })
            } else if d < TOTAL_HEXI {
                Ok(CpuView { i: (FONTS_SET_ADDR + EACH_FONT_SIZE * d) as u16, ..s })
            } else {
                Err(Fault::FontDigit(d))
            }
        },
    }
}

/// The big-endian word at `pc`.
pub open spec fn word_at(s: CpuView) -> u16 {
    (s.ram[s.pc as int] as int * 256 + s.ram[s.pc + 1]) as u16
}

/// One whole cycle from state `s`: fetch the word at `pc` and step over it,
/// decode it, execute it (with `rand` and `nanos` as in `step`), then count
/// the sound timer down. `should_draw` ends up telling whether the
/// instruction touched the screen.
pub open spec fn cycle(s: CpuView, rand: u8, nanos: u128) -> Result<CpuView, Fault> {
    if s.pc + INSTRUCTION_SIZE > RAM_SIZE {
        Err(Fault::PcOutOfRange(s.pc))
    } else {
        match decoded(word_at(s)) {
            Err(e) => Err(Fault::Decode(e)),
            Ok(k) => match step(
                CpuView { pc: (s.pc + INSTRUCTION_SIZE) as u16, should_draw: false, ..s },
                k,
                rand,
                nanos,
            ) {
                Ok(t) => Ok(CpuView { sound: if t.sound == 0 { 0 } else { (t.sound - 1) as u8 }, ..t }),
                Err(f) => Err(f),
            },
        }
    }
}

/// The state at power-on, in mode `mode`.
pub open spec fn power_on(mode: Mode) -> CpuView {
    let (w, h) = if mode == Mode::Extended { (EXT_WIDTH, EXT_HEIGHT) } else { (WIDTH, HEIGHT) };
    CpuView {
        regs: Seq::new(REG_TOTAL as nat, |r: int| 0u8),
        ram: initial_ram(),
        pc: ROM_START_ADDR,
        i: FONTS_SET_ADDR,
        stack: Seq::empty(),
        delay: 0,
        sound: 0,
        keys: Seq::new(KEYCODE_SIZE as nat, |k: int| false),
        screen: Seq::new((w * h) as nat, |p: int| false),
        width: w,
        height: h,
        state: CpuState::Running,
        should_draw: true,
        mode,
    }
}

/// Adding two registers sets `VF` to 1 exactly when the 8-bit sum
/// overflows, and keeps the sum modulo 256 in `Vx` (unless `Vx` is `VF`).
pub proof fn lemma_add_flag(s: CpuView, x: u8, y: u8, rand: u8, nanos: u128)
    requires
        s.regs.len() == REG_TOTAL,
        x < REG_TOTAL,
        y < REG_TOTAL,
    ensures
        step(s, OpcodeKind::Add { x, y }, rand, nanos) matches Ok(t) && t.regs[VF as int] == (if s.regs[x as int]
            + s.regs[y as int] > 255 { 1u8 } else { 0u8 }) && (x != VF ==> t.regs[x as int] == (s.regs[x as int]
            + s.regs[y as int]) % 256),
{
}

/// Subtraction sets `VF` to 1 exactly when no borrow occurs: `Vx >= Vy` for
/// `Vx - Vy`, and `Vy >= Vx` for `Vy - Vx`.
pub proof fn lemma_subtract_flag(s: CpuView, x_y: bool, x: u8, y: u8, rand: u8, nanos: u128)
    requires
        s.regs.len() == REG_TOTAL,
        x < REG_TOTAL,
        y < REG_TOTAL,
    ensures
        step(s, OpcodeKind::Subtract { x_y, x, y }, rand, nanos) matches Ok(t) && t.regs[VF as int] == (if x_y {
            if s.regs[x as int] >= s.regs[y as int] { 1u8 } else { 0u8 }
        } else {
            if s.regs[y as int] >= s.regs[x as int] { 1u8 } else { 0u8 }
        }),
{
}

/// Shifts read `Vy` in classic mode and `Vx` otherwise; the shifted value
/// lands in `Vx` and the bit shifted out in `VF` (when `Vx` is not `VF`).
pub proof fn lemma_shift_source(s: CpuView, x: u8, y: u8, rand: u8, nanos: u128)
    requires
        s.regs.len() == REG_TOTAL,
        x < VF,
        y < REG_TOTAL,
    ensures
        ({
            let src = if s.mode == Mode::Classic { s.regs[y as int] } else { s.regs[x as int] };
            &&& step(s, OpcodeKind::ShiftRight { x, y }, rand, nanos) matches Ok(t) && t.regs[x as int] == src / 2
                && t.regs[VF as int] == src % 2
            &&& step(s, OpcodeKind::ShiftLeft { x, y }, rand, nanos) matches Ok(t) && t.regs[x as int] == (src * 2)
                % 256 && t.regs[VF as int] == src / 128
        }),
{
}

/// A cycle on the key-wait instruction with no key down pauses the
/// processor and leaves `pc` on that instruction, registers untouched.
pub proof fn lemma_key_wait_pauses(s: CpuView, x: u8, rand: u8, nanos: u128)
    requires
        s.pc + INSTRUCTION_SIZE <= RAM_SIZE,
        decoded(word_at(s)) == Ok::<OpcodeKind, DecodeError>(OpcodeKind::LoadK { x }),
        forall|k: int| 0 <= k < s.keys.len() ==> !s.keys[k],
    ensures
        cycle(s, rand, nanos) matches Ok(t) && t.state == CpuState::Paused && t.pc == s.pc && t.regs == s.regs
            && t.ram == s.ram && t.keys == s.keys,
{
}

/// Once a key is down, a cycle on the key-wait instruction stores the
/// lowest key that is down in `Vx` and moves on to the next instruction.
pub proof fn lemma_key_wait_resumes(s: CpuView, x: u8, key: int, rand: u8, nanos: u128)
    requires
        s.pc + INSTRUCTION_SIZE <= RAM_SIZE,
        decoded(word_at(s)) == Ok::<OpcodeKind, DecodeError>(OpcodeKind::LoadK { x }),
        0 <= key < s.keys.len(),
        s.keys[key],
    ensures
        lowest_down(s.keys) matches Some(k) && (cycle(s, rand, nanos) matches Ok(t) && t.state == s.state && t.pc
            == s.pc + INSTRUCTION_SIZE && t.regs == s.regs.update(x as int, k)),
{
}

/// The whole key wait: a cycle on the key-wait instruction with no key down
/// pauses on it; once key `key` goes down and the host resumes the
/// processor, the next cycle stores `key` in `Vx` and moves past the wait.
#[verifier::rlimit(50)]
pub proof fn lemma_key_wait_round_trip(s: CpuView, x: u8, key: u8, rand: u8, nanos: u128)
    requires
        s.pc + INSTRUCTION_SIZE <= RAM_SIZE,
        decoded(word_at(s)) == Ok::<OpcodeKind, DecodeError>(OpcodeKind::LoadK { x }),
        forall|k: int| 0 <= k < s.keys.len() ==> !s.keys[k],
        key < s.keys.len(),
    ensures
        cycle(s, rand, nanos) matches Ok(t) && ({
            let resumed = CpuView { keys: t.keys.update(key as int, true), state: CpuState::Running, ..t };
            cycle(resumed, rand, nanos) matches Ok(u) && u.state == CpuState::Running && u.pc == s.pc
                + INSTRUCTION_SIZE && u.regs == s.regs.update(x as int, key)
        }),
{
    lemma_key_wait_pauses(s, x, rand, nanos);
    let t = cycle(s, rand, nanos)->Ok_0;
    let resumed = CpuView { keys: t.keys.update(key as int, true), state: CpuState::Running, ..t };
    assert(word_at(resumed) == word_at(s));
    lemma_key_wait_resumes(resumed, x, key as int, rand, nanos);
    let c = choose|c: int|
        0 <= c < resumed.keys.len() && resumed.keys[c] && forall|j: int| 0 <= j < c ==> !resumed.keys[j];
    assert(resumed.keys[key as int]);
    assert(c == key as int);
}

/// A return undoes a call: calling `addr` from `s` and then returning gives
/// back `s`; and whenever the stack holds some stack `rest` with an address
/// `p` of the program area on top, a return jumps to `p` and leaves `rest`.
pub proof fn lemma_return_undoes_call(s: CpuView, addr: u16, rest: Seq<u16>, p: u16, rand: u8, nanos: u128)
    requires
        ROM_START_ADDR <= s.pc <= CALL_STACK_START_ADDR,
        ROM_START_ADDR <= addr <= CALL_STACK_START_ADDR,
        s.stack.len() < MAX_STACK,
        ROM_START_ADDR <= p <= CALL_STACK_START_ADDR,
    ensures
        step(s, OpcodeKind::Call { addr }, rand, nanos) matches Ok(t) && t.pc == addr && t.stack == s.stack.push(
            s.pc,
        ) && step(t, OpcodeKind::Ret, rand, nanos) == Ok::<CpuView, Fault>(s),
        step(CpuView { stack: rest.push(p), ..s }, OpcodeKind::Ret, rand, nanos) == Ok::<CpuView, Fault>(
            CpuView { stack: rest, pc: p, ..s },
        ),
{
    assert(s.stack.push(s.pc).drop_last() =~= s.stack);
    assert(rest.push(p).drop_last() =~= rest);
}

/// Only the random and delay-read instructions depend on the outside
/// values: for any other instruction the step is the same whatever random
/// byte and elapsed time are given.
pub proof fn lemma_step_ignores_outside_values(s: CpuView, k: OpcodeKind, r1: u8, n1: u128, r2: u8, n2: u128)
    requires
        !(k matches OpcodeKind::Random { .. }),
        !(k matches OpcodeKind::LoadDT { .. }),
    ensures
        step(s, k, r1, n1) == step(s, k, r2, n2),
{
}

/// A cycle on a word that is not a random or delay-read instruction is
/// determined by the state alone, so `execute_cycle` is exact there and a
/// program made of such words runs the same way every time from the same
/// state.
pub proof fn lemma_cycle_is_determined(s: CpuView, r1: u8, n1: u128, r2: u8, n2: u128)
    requires
        s.pc + INSTRUCTION_SIZE <= RAM_SIZE ==> !(decoded(word_at(s)) matches Ok(OpcodeKind::Random { .. }))
            && !(decoded(word_at(s)) matches Ok(OpcodeKind::LoadDT { .. })),
    ensures
        cycle(s, r1, n1) == cycle(s, r2, n2),
{
    if s.pc + INSTRUCTION_SIZE <= RAM_SIZE {
        if let Ok(k) = decoded(word_at(s)) {
            let s1 = CpuView { pc: (s.pc + INSTRUCTION_SIZE) as u16, should_draw: false, ..s };
            lemma_step_ignores_outside_values(s1, k, r1, n1, r2, n2);
        }
    }
}

/// The processor.
pub struct Cpu {
    memory: Memory,
    v: Registers,
    stack: Stack,
    delay_timer: DelayTimer,
    sound_timer: SoundTimer,
    keypad: KeyState,
    display: Display,
    randgen: WyRand,
    state: CpuState,
    should_draw: bool,
    mode: Mode,
}

impl View for Cpu {
    type V = CpuView;

    closed spec fn view(&self) -> CpuView {
        CpuView {
            regs: self.v@,
            ram: self.memory@,
            pc: self.memory.pc_addr(),
            i: self.memory.i_addr(),
            stack: self.stack@,
            delay: self.delay_timer.value(),
            sound: self.sound_timer.value(),
            keys: self.keypad@,
            screen: self.display@,
            width: self.display.spec_width(),
            height: self.display.spec_height(),
            state: self.state,
            should_draw: self.should_draw,
            mode: self.mode,
        }
    }
}

/// Whether the result `r` and the state `after` are what `expected` says
/// of the state `before`: the state it gives, or the fault it names with
/// the state left as it was.
pub open spec fn outcome(r: Result<(), Fault>, before: CpuView, after: CpuView, expected: Result<CpuView, Fault>) -> bool {
    match expected {
        Ok(t) => r is Ok && after == t,
        Err(f) => r == Err::<(), Fault>(f) && after == before,
    }
}

impl Cpu {
    pub closed spec fn wf(&self) -> bool {
        &&& self.memory.wf()
        &&& self.stack.wf()
        &&& self.display.wf()
        &&& (self.mode == Mode::Extended) == (self.display.spec_width() == EXT_WIDTH)
    }

    /// The instant the delay timer's countdown is measured from.
    pub closed spec fn delay_reference(&self) -> Instant {
        self.delay_timer.reference()
    }

    /// What every well-formed processor's state satisfies.
    pub proof fn lemma_view_wf(&self)
        requires
            self.wf(),
        ensures
            self@.regs.len() == REG_TOTAL,
            self@.keys.len() == KEYCODE_SIZE,
            self@.ram.len() == RAM_SIZE,
            self@.stack.len() <= MAX_STACK,
            self@.i < RAM_SIZE,
            self@.pc <= RAM_SIZE + INSTRUCTION_SIZE,
            self@.screen.len() == self@.width * self@.height,
            self@.mode == Mode::Extended ==> self@.width == EXT_WIDTH && self@.height == EXT_HEIGHT,
            self@.mode != Mode::Extended ==> self@.width == WIDTH && self@.height == HEIGHT,
    {
        self.stack.lemma_wf();
    }

    /// A processor at power-on in the modern mode on the standard screen.
    pub fn new() -> (r: Self)
        ensures
            r.wf(),
            r@ == power_on(Mode::Modern),
    {
        Self::with_mode(Mode::Modern)
    }

    /// A processor at power-on in mode `mode`.
    pub fn with_mode(mode: Mode) -> (r: Self)
        ensures
            r.wf(),
            r@ == power_on(mode),
    {
        let display = match mode {
            Mode::Extended => Display::new_extended(),
            _ => Display::new(),
        };
        let r = Self {
            memory: Memory::new(),
            v: Registers::zero(),
            stack: Stack::new(),
            delay_timer: DelayTimer::new(),
            sound_timer: SoundTimer::new(),
            keypad: KeyState::new(),
            display,
            randgen: WyRand::new(),
            state: CpuState::Running,
            should_draw: true,
            mode,
        };
        assert(r@.screen =~= power_on(mode).screen);
        r
    }

    /// Back to power-on, keeping the mode.
    pub fn reset(&mut self)
        requires
            old(self).wf(),
        ensures
            final(self).wf(),
            final(self)@ == power_on(old(self)@.mode),
    {
        self.memory.reset();
        self.v.reset();
        self.stack.reset();
        self.delay_timer.reset();
        self.sound_timer.reset();
        self.display.reset();
        self.keypad.reset();
        self.state = CpuState::Running;
        self.should_draw = true;
        assert(self@.screen =~= power_on(self.mode).screen);
    }

    /// Loads a program image at the program origin; an image that does not
    /// fit below the call-stack area is refused and nothing changes.
    pub fn load_game(&mut self, text: &[u8]) -> (r: Result<(), LoadError>)
        requires
            old(self).wf(),
        ensures
            final(self).wf(),
            text@.len() >= AVAILABLE_STORAGE ==> r == Err::<(), LoadError>(LoadError::RomTooBig(text@.len() as usize))
                && final(self)@ == old(self)@,
            text@.len() < AVAILABLE_STORAGE ==> r is Ok
                && final(self)@ == (CpuView { ram: written(old(self)@.ram, ROM_START_ADDR as int, text@), ..old(self)@ }),
    {
        self.memory.load_program(text)
    }

    /// Marks key `kc` as down or up.
    pub fn set_key_state(&mut self, kc: KeyCode, pressed: bool)
        requires
            old(self).wf(),
        ensures
            final(self).wf(),
            final(self)@ == (CpuView { keys: old(self)@.keys.update(kc.spec_number() as int, pressed), ..old(self)@ }),
    {
        self.keypad.set(kc, pressed);
    }

    /// The framebuffer, row-major.
    pub fn get_vram(&self) -> (r: &[bool])
        ensures
            r@ == self@.screen,
    {
        self.display.get_buf()
    }

    /// The run state.
    pub fn state(&self) -> (r: CpuState)
        ensures
            r == self@.state,
    {
        self.state
    }

    /// Sets the run state; the host resumes a paused processor this way.
    pub fn set_state(&mut self, state: CpuState)
        requires
            old(self).wf(),
        ensures
            final(self).wf(),
            final(self)@ == (CpuView { state, ..old(self)@ }),
    {
        self.state = state;
    }

    /// Executes one decoded instruction. `rand` is the random byte that the
    /// random instruction uses and `nanos` the time since the delay timer
    /// was last updated, which the delay-read instruction uses; the other
    /// instructions ignore both.
    pub fn execute(&mut self, kind: OpcodeKind, rand: u8, nanos: u128) -> (r: Result<(), Fault>)
        requires
            old(self).wf(),
            operands_in_range(kind),
        ensures
            final(self).wf(),
            outcome(r, old(self)@, final(self)@, step(old(self)@, kind, rand, nanos)),
            final(self).delay_reference() != old(self).delay_reference() ==> (kind matches OpcodeKind::StoreDT { .. })
                || final(self)@.delay < old(self)@.delay,
    {
        match kind {
            OpcodeKind::JpAddr { addr } => self.jump(addr),
            OpcodeKind::JpVxAddr { x, addr } => {
                let base = if self.mode == Mode::Classic { self.v.get(0) } else { self.v.get(x) };
                self.jump(addr + base as u16)
            },
            OpcodeKind::Ret => self.call_back(),
            OpcodeKind::Call { addr } => self.call_to(addr),
            OpcodeKind::SkipVxByte { eq, x, byte } => {
                let cond = (self.v.get(x) == byte) == eq;
                self.skip_if(cond)
            },
            OpcodeKind::SkipVxVy { eq, x, y } => {
                let cond = (self.v.get(x) == self.v.get(y)) == eq;
                self.skip_if(cond)
            },
            OpcodeKind::LoadVxByte { x, byte } => {
                self.v.set(x, byte);
                Ok(())
            },
            OpcodeKind::AddVxByte { x, byte } => {
                let sum = self.v.get(x) as u16 + byte as u16;
                self.v.set(x, (sum % 256) as u8);
                Ok(())
            },
            OpcodeKind::LoadVxVy { x, y } => {
                let value = self.v.get(y);
                self.v.set(x, value);
                Ok(())
            },
            OpcodeKind::Or { x, y } => {
                let value = self.v.get(x) | self.v.get(y);
                self.v.set(x, value);
                Ok(())
            },
            OpcodeKind::And { x, y } => {
                let value = self.v.get(x) & self.v.get(y);
                self.v.set(x, value);
                Ok(())
            },
            OpcodeKind::Xor { x, y } => {
                let value = self.v.get(x) ^ self.v.get(y);
                self.v.set(x, value);
                Ok(())
            },
            OpcodeKind::Add { x, y } => {
                let sum = self.v.get(x) as u16 + self.v.get(y) as u16;
                self.v.set(x, (sum % 256) as u8);
                self.v.set_vf(if sum > 255 { 1 } else { 0 });
                Ok(())
            },
            OpcodeKind::Subtract { x_y, x, y } => {
                let (a, b) = if x_y {
                    (self.v.get(x), self.v.get(y))
                } else {
                    (self.v.get(y), self.v.get(x))
                };
                let diff = ((a as u16 + 256 - b as u16) % 256) as u8;
                self.v.set(x, diff);
                self.v.set_vf(if a >= b { 1 } else { 0 });
                Ok(())
            },
            OpcodeKind::ShiftRight { x, y } => {
                let src = if self.mode == Mode::Classic { self.v.get(y) } else { self.v.get(x) };
                assert(src & 1u8 == src % 2 && src >> 1u8 == src / 2) by (bit_vector);
                self.v.set_vf(src & 1);
                self.v.set(x, src >> 1);
                Ok(())
            },
            OpcodeKind::ShiftLeft { x, y } => {
                let src = if self.mode == Mode::Classic { self.v.get(y) } else { self.v.get(x) };
                assert((src & 0x80u8) >> 7u8 == src / 128) by (bit_vector);
                assert(src << 1u8 == ((src as u16 * 2) % 256) as u8) by (bit_vector);
                self.v.set_vf((src & 0x80) >> 7);
                self.v.set(x, src << 1);
                Ok(())
            },
            OpcodeKind::Random { x, byte } => {
                self.v.set(x, rand & byte);
                Ok(())
            },
            OpcodeKind::LoadDT { x } => {
                let d = if self.delay_timer.stored() > 0 {
                    self.delay_timer.advance(nanos)
                } else {
                    0
                };
                self.v.set(x, d);
                Ok(())
            },
            OpcodeKind::StoreDT { x } => {
                let value = self.v.get(x);
                self.delay_timer.store(value);
                Ok(())
            },
            OpcodeKind::StoreST { x } => {
                let value = self.v.get(x);
                if value < MIN_SOUND_DURATION {
                    Err(Fault::SoundTooShort(value))
                } else {
                    self.sound_timer.store(value);
                    Ok(())
                }
            },
            OpcodeKind::LoadK { x } => match self.keypad.any() {
                Some(key) => {
                    self.v.set(x, key);
                    Ok(())
                },
                None => {
                    let pc = self.memory.pc();
                    if pc >= INSTRUCTION_SIZE {
                        self.memory.rewind();
                        self.state = CpuState::Paused;
                        Ok(())
                    } else {
                        Err(Fault::PcOutOfRange(pc))
                    }
                },
            },
            OpcodeKind::SkipIfKey { eq, x } => {
                let key = self.v.get(x);
                if key as usize >= KEYCODE_SIZE {
                    Err(Fault::BadKey(key))
                } else {
                    let cond = self.keypad.key_down(key) == eq;
                    self.skip_if(cond)
                }
            },
            OpcodeKind::LoadI { addr } => {
                self.memory.store_i(addr);
                Ok(())
            },
            OpcodeKind::AddIVx { x } => {
                let value = self.v.get(x);
                let flagging = self.mode != Mode::Classic;
                let sum = self.memory.i() + value as u16;
                if !flagging && sum >= RAM_SIZE {
                    Err(Fault::IndexOutOfRange(sum))
                } else {
                    let overflow = self.memory.add_to_i(value, flagging);
                    if flagging {
                        self.v.set_vf(if overflow { 1 } else { 0 });
                    }
                    Ok(())
                }
            },
            OpcodeKind::LoadBcd { x } => {
                let i = self.memory.i();
                if i as usize + 3 > RAM_SIZE as usize {
                    Err(Fault::MemoryOutOfRange(i))
                } else {
                    let value = self.v.get(x);
                    self.memory.store_bcd(value);
                    Ok(())
                }
            },
            OpcodeKind::PushRegs { x } => self.regs_dump(x),
            OpcodeKind::PopRegs { x } => self.regs_load(x),
            OpcodeKind::Cls => {
                self.cls();
                Ok(())
            },
            OpcodeKind::Draw { x, y, n } => self.draw(x, y, n),
            OpcodeKind::LoadFont { x } => {
                let d = self.v.get(x);
                let masked = self.mode == Mode::Classic;
                if !masked && d as u16 >= TOTAL_HEXI {
                    Err(Fault::FontDigit(d))
                } else {
                    self.memory.point_to_font(d, masked);
                    Ok(())
                }
            },
        }
    }

    /// Runs one cycle: fetches the instruction at `pc`, decodes and
    /// executes it, and counts the sound timer down. Returns whether the
    /// screen was touched, or the fault that stops the processor.
    pub fn execute_cycle(&mut self) -> (r: Result<bool, Fault>)
        requires
            old(self).wf(),
        ensures
            final(self).wf(),
            exists|rand: u8, nanos: u128|
                match #[trigger] cycle(old(self)@, rand, nanos) {
                    Ok(t) => r == Ok::<bool, Fault>(t.should_draw) && final(self)@ == t,
                    Err(f) => r == Err::<bool, Fault>(f) && final(self)@ == old(self)@,
                },
            final(self).delay_reference() != old(self).delay_reference() ==> (r is Ok && ((decoded(
                word_at(old(self)@),
            ) matches Ok(OpcodeKind::StoreDT { .. })) || final(self)@.delay < old(self)@.delay)),
    {
        let was_drawn = self.should_draw;
        self.should_draw = false;
        let op = match self.memory.fetch() {
            Some(op) => op,
            None => {
                self.should_draw = was_drawn;
                let pc = self.memory.pc();
                assert(cycle(old(self)@, 0, 0) == Err::<CpuView, Fault>(Fault::PcOutOfRange(pc)));
                return Err(Fault::PcOutOfRange(pc));
            },
        };
        let kind = match op.decode() {
            Ok(kind) => kind,
            Err(e) => {
                self.memory.rewind();
                self.should_draw = was_drawn;
                assert(self@ == old(self)@);
                assert(word_at(old(self)@) == op.word());
                assert(cycle(old(self)@, 0, 0) == Err::<CpuView, Fault>(Fault::Decode(e)));
                return Err(Fault::Decode(e));
            },
        };
        let rand = match kind {
            OpcodeKind::Random { .. } => random_byte(&mut self.randgen),
            _ => 0,
        };
        let nanos = match kind {
            OpcodeKind::LoadDT { .. } => self.delay_timer.elapsed_nanos(),
            _ => 0,
        };
        assert(word_at(old(self)@) == op.word());
        assert(self@ == (CpuView { pc: (old(self)@.pc + INSTRUCTION_SIZE) as u16, should_draw: false, ..old(self)@ }));
        let res = self.execute(kind, rand, nanos);
        match res {
            Ok(()) => {
                self.sound_timer.decrease();
                assert(match cycle(old(self)@, rand, nanos) {
                    Ok(t) => Ok::<bool, Fault>(self.should_draw) == Ok::<bool, Fault>(t.should_draw) && self@ == t,
                    Err(f) => false,
                });
                Ok(self.should_draw)
            },
            Err(f) => {
                self.memory.rewind();
                self.should_draw = was_drawn;
                assert(self@ == old(self)@);
                assert(cycle(old(self)@, rand, nanos) == Err::<CpuView, Fault>(f));
                Err(f)
            },
        }
    }

    /// The value of register `x`.
    pub fn register(&self, x: u8) -> (r: u8)
        requires
            x < REG_TOTAL,
        ensures
            r == self@.regs[x as int],
    {
        self.v.get(x)
    }

    /// The program counter.
    pub fn pc(&self) -> (r: u16)
        ensures
            r == self@.pc,
    {
        self.memory.pc()
    }

    /// The index register `I`.
    pub fn index(&self) -> (r: u16)
        ensures
            r == self@.i,
    {
        self.memory.i()
    }

    /// The mode the processor was built in.
    pub fn mode(&self) -> (r: Mode)
        ensures
            r == self@.mode,
    {
        self.mode
    }

    /// The screen's width in pixels.
    pub fn display_width(&self) -> (r: u16)
        ensures
            r == self@.width,
    {
        self.display.width()
    }

    /// The screen's height in pixels.
    pub fn display_height(&self) -> (r: u16)
        ensures
            r == self@.height,
    {
        self.display.height()
    }

    /// Whether the machine should beep now.
    pub fn is_sounding(&self) -> (r: bool)
        ensures
            r == (self@.sound > 0),
    {
        self.sound_timer.is_sounding()
    }

    fn jump(&mut self, addr: u16) -> (r: Result<(), Fault>)
        requires
            old(self).wf(),
        ensures
            final(self).wf(),
            outcome(r, old(self)@, final(self)@, jump_to(old(self)@, addr as int)),
            final(self).delay_reference() == old(self).delay_reference(),
    {
        if ROM_START_ADDR <= addr && addr <= CALL_STACK_START_ADDR {
            self.memory.jump(addr);
            Ok(())
        } else {
            Err(Fault::PcOutOfRange(addr))
        }
    }

    fn skip_if(&mut self, cond: bool) -> (r: Result<(), Fault>)
        requires
            old(self).wf(),
        ensures
            final(self).wf(),
            outcome(r, old(self)@, final(self)@, skip_if(old(self)@, cond)),
            final(self).delay_reference() == old(self).delay_reference(),
    {
        if !cond {
            Ok(())
        } else if self.memory.pc() <= RAM_SIZE {
            self.memory.skip_next();
            Ok(())
        } else {
            Err(Fault::PcOutOfRange(self.memory.pc()))
        }
    }

    fn call_to(&mut self, addr: u16) -> (r: Result<(), Fault>)
        requires
            old(self).wf(),
        ensures
            final(self).wf(),
            outcome(r, old(self)@, final(self)@, step(old(self)@, OpcodeKind::Call { addr }, 0, 0)),
            final(self).delay_reference() == old(self).delay_reference(),
    {
        if self.stack.is_full() {
            return Err(Fault::StackOverflow);
        }
        if addr < ROM_START_ADDR || addr > CALL_STACK_START_ADDR {
            return Err(Fault::PcOutOfRange(addr));
        }
        let pc = self.memory.pc();
        let _ = self.stack.push(pc);
        self.jump(addr)
    }

    fn call_back(&mut self) -> (r: Result<(), Fault>)
        requires
            old(self).wf(),
        ensures
            final(self).wf(),
            outcome(r, old(self)@, final(self)@, step(old(self)@, OpcodeKind::Ret, 0, 0)),
            final(self).delay_reference() == old(self).delay_reference(),
    {
        match self.stack.peek() {
            None => Err(Fault::StackUnderflow),
            Some(addr) => {
                if addr < ROM_START_ADDR || addr > CALL_STACK_START_ADDR {
                    return Err(Fault::PcOutOfRange(addr));
                }
                let _ = self.stack.pop();
                self.jump(addr)
            },
        }
    }

    fn regs_dump(&mut self, x: u8) -> (r: Result<(), Fault>)
        requires
            old(self).wf(),
            x < REG_TOTAL,
        ensures
            final(self).wf(),
            outcome(r, old(self)@, final(self)@, step(old(self)@, OpcodeKind::PushRegs { x }, 0, 0)),
            final(self).delay_reference() == old(self).delay_reference(),
    {
        let i = self.memory.i();
        if i as usize + x as usize + 1 > RAM_SIZE as usize {
            return Err(Fault::MemoryOutOfRange(i));
        }
        let regs = self.v.up_to(x);
        self.memory.save_bytes_to_i(regs.as_slice());
        if self.mode == Mode::Classic {
            let _ = self.memory.add_to_i(x + 1, true);
        }
        Ok(())
    }

    fn regs_load(&mut self, x: u8) -> (r: Result<(), Fault>)
        requires
            old(self).wf(),
            x < REG_TOTAL,
        ensures
            final(self).wf(),
            outcome(r, old(self)@, final(self)@, step(old(self)@, OpcodeKind::PopRegs { x }, 0, 0)),
            final(self).delay_reference() == old(self).delay_reference(),
    {
        let i = self.memory.i();
        if i as usize + x as usize + 1 > RAM_SIZE as usize {
            return Err(Fault::MemoryOutOfRange(i));
        }
        let dump = self.memory.read_bytes_from_i(x + 1);
        self.v.load_up_to(x, dump.as_slice());
        if self.mode == Mode::Classic {
            let _ = self.memory.add_to_i(x + 1, true);
        }
        Ok(())
    }

    fn cls(&mut self)
        requires
            old(self).wf(),
        ensures
            final(self).wf(),
            outcome(Ok(()), old(self)@, final(self)@, step(old(self)@, OpcodeKind::Cls, 0, 0)),
            final(self).delay_reference() == old(self).delay_reference(),
    {
        self.should_draw = true;
        self.display.clear_screen();
        assert(self@.screen =~= Seq::new(old(self)@.screen.len(), |p: int| false));
    }

    fn draw(&mut self, x: u8, y: u8, n: u8) -> (r: Result<(), Fault>)
        requires
            old(self).wf(),
            x < REG_TOTAL,
            y < REG_TOTAL,
        ensures
            final(self).wf(),
            outcome(r, old(self)@, final(self)@, step(old(self)@, OpcodeKind::Draw { x, y, n }, 0, 0)),
            final(self).delay_reference() == old(self).delay_reference(),
    {
        let i = self.memory.i();
        if i as usize + n as usize > RAM_SIZE as usize {
            return Err(Fault::MemoryOutOfRange(i));
        }
        let sprites = self.memory.read_bytes_from_i(n);
        let vx = self.v.get(x);
        let vy = self.v.get(y);
        let overlapped = self.display.draw((vx, vy), sprites.as_slice());
        self.v.set_vf(if overlapped { 1 } else { 0 });
        self.should_draw = true;
        Ok(())
    }
}

} // verus!
