//! The 4 KiB address space: the built-in font, the loaded program and its
//! data, with the program counter and the index register `I`.

use vstd::prelude::*;

use crate::opcode::Opcode;

verus! {

/// Where programs are loaded and execution starts.
pub const ROM_START_ADDR: u16 = 0x200;

/// Number of addressable bytes.
pub const RAM_SIZE: u16 = 0x1000;

/// Start of the area reserved for the call stack; programs end below it.
pub const CALL_STACK_START_ADDR: u16 = 0xEA0;

/// Width of an instruction, in bytes.
pub const INSTRUCTION_SIZE: u16 = 2;

/// Where the built-in font starts.
pub const FONTS_SET_ADDR: u16 = 0x0050;

/// Bytes in one font glyph.
pub const EACH_FONT_SIZE: u16 = 5;

/// Number of font glyphs, one per hexadecimal digit.
pub const TOTAL_HEXI: u16 = 16;

/// Bytes in the whole font.
pub const FONTS_SET_LEN: usize = 80;

/// Largest program image plus one: the room between the program origin and
/// the call-stack area.
pub const AVAILABLE_STORAGE: u16 = CALL_STACK_START_ADDR - ROM_START_ADDR;

/// The built-in font: five rows of four pixels for each of `0`..`F`.
pub open spec fn font_glyphs() -> Seq<u8> {
    seq![
        0xF0u8, 0x90u8, 0x90u8, 0x90u8, 0xF0u8,
        0x20u8, 0x60u8, 0x20u8, 0x20u8, 0x70u8,
        0xF0u8, 0x10u8, 0xF0u8, 0x80u8, 0xF0u8,
        0xF0u8, 0x10u8, 0xF0u8, 0x10u8, 0xF0u8,
        0x90u8, 0x90u8, 0xF0u8, 0x10u8, 0x10u8,
        0xF0u8, 0x80u8, 0xF0u8, 0x10u8, 0xF0u8,
        0xF0u8, 0x80u8, 0xF0u8, 0x90u8, 0xF0u8,
        0xF0u8, 0x10u8, 0x20u8, 0x40u8, 0x40u8,
        0xF0u8, 0x90u8, 0xF0u8, 0x90u8, 0xF0u8,
        0xF0u8, 0x90u8, 0xF0u8, 0x10u8, 0xF0u8,
        0xF0u8, 0x90u8, 0xF0u8, 0x90u8, 0x90u8,
        0xE0u8, 0x90u8, 0xE0u8, 0x90u8, 0xE0u8,
        0xF0u8, 0x80u8, 0x80u8, 0x80u8, 0xF0u8,
        0xE0u8, 0x90u8, 0x90u8, 0x90u8, 0xE0u8,
        0xF0u8, 0x80u8, 0xF0u8, 0x80u8, 0xF0u8,
        0xF0u8, 0x80u8, 0xF0u8, 0x80u8, 0x80u8,
    ]
}

/// The built-in font.
pub fn fonts_set() -> (r: [u8; FONTS_SET_LEN])
    ensures
        r@ == font_glyphs(),
{
    let r: [u8; FONTS_SET_LEN] = [
        0xF0, 0x90, 0x90, 0x90, 0xF0, // 0
        0x20, 0x60, 0x20, 0x20, 0x70, // 1
        0xF0, 0x10, 0xF0, 0x80, 0xF0, // 2
        0xF0, 0x10, 0xF0, 0x10, 0xF0, // 3
        0x90, 0x90, 0xF0, 0x10, 0x10, // 4
        0xF0, 0x80, 0xF0, 0x10, 0xF0, // 5
        0xF0, 0x80, 0xF0, 0x90, 0xF0, // 6
        0xF0, 0x10, 0x20, 0x40, 0x40, // 7
        0xF0, 0x90, 0xF0, 0x90, 0xF0, // 8
        0xF0, 0x90, 0xF0, 0x10, 0xF0, // 9
        0xF0, 0x90, 0xF0, 0x90, 0x90, // A
        0xE0, 0x90, 0xE0, 0x90, 0xE0, // B
        0xF0, 0x80, 0x80, 0x80, 0xF0, // C
        0xE0, 0x90, 0x90, 0x90, 0xE0, // D
        0xF0, 0x80, 0xF0, 0x80, 0xF0, // E
        0xF0, 0x80, 0xF0, 0x80, 0x80, // F
    ];
    assert(r@ =~= font_glyphs());
    r
}

/// Memory as it is at power-on: the font in place, every other byte zero.
pub open spec fn initial_ram() -> Seq<u8> {
    Seq::new(
        RAM_SIZE as nat,
        |a: int|
            if FONTS_SET_ADDR <= a < FONTS_SET_ADDR + FONTS_SET_LEN {
                font_glyphs()[a - FONTS_SET_ADDR]
            } else {
                0u8
            },
    )
}

/// `ram` with `bytes` written from address `at` on.
pub open spec fn written(ram: Seq<u8>, at: int, bytes: Seq<u8>) -> Seq<u8> {
    Seq::new(ram.len(), |a: int| if at <= a < at + bytes.len() { bytes[a - at] } else { ram[a] })
}

/// The three decimal digits of `x`: hundreds, tens, ones.
pub open spec fn bcd_digits(x: u8) -> Seq<u8> {
    seq![x / 100, (x / 10) % 10, x % 10]
}

/// The decimal digits of `x`, hundreds first.
pub fn bcd(x: u8) -> (r: [u8; 3])
    ensures
        r@ == bcd_digits(x),
{
    let r = [x / 100, x / 10 % 10, x % 10];
    assert(r@ =~= bcd_digits(x));
    r
}

/// Memory addresses containing the data for a given sprite (graphics).
pub struct I(u16);

/// The address of the next instruction.
#[derive(Copy, Clone)]
pub struct ProgramCounter(u16);

/// Why a program image was not loaded.
#[derive(Clone, Copy, Debug, PartialEq, Eq, Structural)]
pub enum LoadError {
    /// The image, of this many bytes, does not fit below the call-stack area.
    RomTooBig(usize),
}

pub struct Memory {
    pc: ProgramCounter,
    i: I,
    ram: Vec<u8>,
}

impl View for Memory {
    type V = Seq<u8>;

    /// The bytes of the address space.
    closed spec fn view(&self) -> Seq<u8> {
        self.ram@
    }
}

impl ProgramCounter {
    pub closed spec fn value(&self) -> u16 {
        self.0
    }

    pub fn as_u16(&self) -> (r: u16)
        ensures
            r == self.value(),
    {
        self.0
    }

    /// Jumps to `addr`, which must lie in the program area.
    pub fn set(&mut self, addr: u16)
        requires
            ROM_START_ADDR <= addr <= CALL_STACK_START_ADDR,
        ensures
            final(self).value() == addr,
    {
        self.0 = addr;
    }

    /// Steps over one instruction.
    pub fn skip_next(&mut self)
        requires
            old(self).value() <= RAM_SIZE,
        ensures
            final(self).value() == old(self).value() + INSTRUCTION_SIZE,
    {
        self.0 += INSTRUCTION_SIZE;
    }

    /// Steps back by one instruction.
    pub fn decrease(&mut self)
        requires
            old(self).value() >= INSTRUCTION_SIZE,
        ensures
            final(self).value() == old(self).value() - INSTRUCTION_SIZE,
    {
        self.0 -= INSTRUCTION_SIZE;
    }
}

impl I {
    pub closed spec fn value(&self) -> u16 {
        self.0
    }

    pub fn as_u16(&self) -> (r: u16)
        ensures
            r == self.value(),
    {
        self.0
    }

    /// Adds `value`. With `flagging`, a sum past the end of the address
    /// space wraps round it (taken modulo its size) and the result tells
    /// whether that happened; without it, the sum must stay addressable and
    /// the result is `false`.
    pub fn add_assign(&mut self, value: u8, flagging: bool) -> (overflow: bool)
        requires
            old(self).value() < RAM_SIZE,
            flagging || old(self).value() + value < RAM_SIZE,
        ensures
            final(self).value() == (old(self).value() + value) % (RAM_SIZE as int),
            overflow == (old(self).value() + value >= RAM_SIZE),
            !flagging ==> final(self).value() == old(self).value() + value && !overflow,
    {
        let sum = self.0 + value as u16;
        if sum >= RAM_SIZE {
            self.0 = sum - RAM_SIZE;
            true
        } else {
            self.0 = sum;
            false
        }
    }

    /// Points at the built-in glyph of the hexadecimal digit `x`. With
    /// `masked`, any value is taken and its low nibble names the digit;
    /// without it, `x` must itself be a digit.
    pub fn set_to_builtin_fonts_addr(&mut self, x: u8, masked: bool)
        requires
            masked || x < TOTAL_HEXI,
        ensures
            masked ==> final(self).value() == FONTS_SET_ADDR + EACH_FONT_SIZE * (x % 16),
            !masked ==> final(self).value() == FONTS_SET_ADDR + EACH_FONT_SIZE * x,
    {
        let digit = if masked {
            assert(x & 0xFu8 == x % 16) by (bit_vector);
            x & 0xF
        } else {
            x
        };
        self.0 = FONTS_SET_ADDR + EACH_FONT_SIZE * (digit as u16);
    }

    /// Points at `addr`, which must be addressable.
    pub fn store(&mut self, addr: u16)
        requires
            addr < RAM_SIZE,
        ensures
            final(self).value() == addr,
    {
        self.0 = addr;
    }
}

impl Memory {
    /// The program counter.
    pub closed spec fn pc_addr(&self) -> u16 {
        self.pc.value()
    }

    /// The index register `I`.
    pub closed spec fn i_addr(&self) -> u16 {
        self.i.value()
    }

    /// The program counter.
    pub fn pc(&self) -> (r: u16)
        ensures
            r == self.pc_addr(),
    {
        self.pc.0
    }

    /// The index register `I`.
    pub fn i(&self) -> (r: u16)
        ensures
            r == self.i_addr(),
    {
        self.i.0
    }

    pub open spec fn wf(&self) -> bool {
        &&& self@.len() == RAM_SIZE
        &&& self.i_addr() < RAM_SIZE
        &&& self.pc_addr() <= RAM_SIZE + INSTRUCTION_SIZE
    }

    /// Power-on memory: the font in place, `pc` at the program origin and
    /// `I` at the font.
    pub fn new() -> (r: Self)
        ensures
            r.wf(),
            r@ == initial_ram(),
            r.pc_addr() == ROM_START_ADDR,
            r.i_addr() == FONTS_SET_ADDR,
    {
        let font = fonts_set();
        let mut ram: Vec<u8> = Vec::with_capacity(RAM_SIZE as usize);
        let mut a: usize = 0;
        while a < RAM_SIZE as usize
            invariant
                a <= RAM_SIZE,
                font@ == font_glyphs(),
                ram@ == initial_ram().subrange(0, a as int),
            decreases RAM_SIZE - a,
        {
            let byte = if FONTS_SET_ADDR as usize <= a && a < FONTS_SET_ADDR as usize + FONTS_SET_LEN {
                font[a - FONTS_SET_ADDR as usize]
            } else {
                0u8
            };
            ram.push(byte);
            a += 1;
            assert(ram@ =~= initial_ram().subrange(0, a as int));
        }
        assert(ram@ =~= initial_ram());
        Self { pc: ProgramCounter(ROM_START_ADDR), i: I(FONTS_SET_ADDR), ram }
    }

    /// Back to power-on memory.
    pub fn reset(&mut self)
        ensures
            final(self).wf(),
            final(self)@ == initial_ram(),
            final(self).pc_addr() == ROM_START_ADDR,
            final(self).i_addr() == FONTS_SET_ADDR,
    {
        *self = Memory::new();
    }

    /// Jumps to `addr`, which must lie in the program area.
    pub fn jump(&mut self, addr: u16)
        requires
            old(self).wf(),
            ROM_START_ADDR <= addr <= CALL_STACK_START_ADDR,
        ensures
            final(self).wf(),
            final(self)@ == old(self)@,
            final(self).pc_addr() == addr,
            final(self).i_addr() == old(self).i_addr(),
    {
        self.pc.set(addr);
    }

    /// Steps `pc` over one instruction.
    pub fn skip_next(&mut self)
        requires
            old(self).wf(),
            old(self).pc_addr() <= RAM_SIZE,
        ensures
            final(self).wf(),
            final(self)@ == old(self)@,
            final(self).pc_addr() == old(self).pc_addr() + INSTRUCTION_SIZE,
            final(self).i_addr() == old(self).i_addr(),
    {
        self.pc.skip_next();
    }

    /// Steps `pc` back by one instruction, so that the one just fetched is
    /// fetched again.
    pub fn rewind(&mut self)
        requires
            old(self).wf(),
            old(self).pc_addr() >= INSTRUCTION_SIZE,
        ensures
            final(self).wf(),
            final(self)@ == old(self)@,
            final(self).pc_addr() == old(self).pc_addr() - INSTRUCTION_SIZE,
            final(self).i_addr() == old(self).i_addr(),
    {
        self.pc.decrease();
    }

    /// Points `I` at `addr`, which must be addressable.
    pub fn store_i(&mut self, addr: u16)
        requires
            old(self).wf(),
            addr < RAM_SIZE,
        ensures
            final(self).wf(),
            final(self)@ == old(self)@,
            final(self).pc_addr() == old(self).pc_addr(),
            final(self).i_addr() == addr,
    {
        self.i.store(addr);
    }

    /// Adds `value` to `I`. With `flagging`, a sum past the end of memory
    /// wraps round it and the result tells whether that happened; without
    /// it, the sum must stay addressable and the result is `false`.
    pub fn add_to_i(&mut self, value: u8, flagging: bool) -> (overflow: bool)
        requires
            old(self).wf(),
            flagging || old(self).i_addr() + value < RAM_SIZE,
        ensures
            final(self).wf(),
            final(self)@ == old(self)@,
            final(self).pc_addr() == old(self).pc_addr(),
            final(self).i_addr() == (old(self).i_addr() + value) % (RAM_SIZE as int),
            overflow == (old(self).i_addr() + value >= RAM_SIZE),
            !flagging ==> final(self).i_addr() == old(self).i_addr() + value && !overflow,
    {
        self.i.add_assign(value, flagging)
    }

    /// Points `I` at the built-in glyph of a hexadecimal digit: the low
    /// nibble of `x` with `masked`, `x` itself (which must be a digit)
    /// without it.
    pub fn point_to_font(&mut self, x: u8, masked: bool)
        requires
            old(self).wf(),
            masked || x < TOTAL_HEXI,
        ensures
            final(self).wf(),
            final(self)@ == old(self)@,
            final(self).pc_addr() == old(self).pc_addr(),
            masked ==> final(self).i_addr() == FONTS_SET_ADDR + EACH_FONT_SIZE * (x % 16),
            !masked ==> final(self).i_addr() == FONTS_SET_ADDR + EACH_FONT_SIZE * x,
    {
        self.i.set_to_builtin_fonts_addr(x, masked);
    }

    /// Writes the decimal digits of `x` at `I`, `I+1`, `I+2`.
    pub fn store_bcd(&mut self, x: u8)
        requires
            old(self).wf(),
            old(self).i_addr() + 3 <= RAM_SIZE,
        ensures
            final(self).wf(),
            final(self)@ == written(old(self)@, old(self).i_addr() as int, bcd_digits(x)),
            final(self).pc_addr() == old(self).pc_addr(),
            final(self).i_addr() == old(self).i_addr(),
    {
        let abc = bcd(x);
        self.save_bytes_to_i(abc.as_slice());
    }

    /// A copy of the `n` bytes from `I` on.
    pub fn read_bytes_from_i(&self, n: u8) -> (r: Vec<u8>)
        requires
            self.wf(),
            self.i_addr() + n <= RAM_SIZE,
        ensures
            r@ == self@.subrange(self.i_addr() as int, self.i_addr() + n),
    {
        let begin = self.i.0 as usize;
        let mut out: Vec<u8> = Vec::with_capacity(n as usize);
        let mut k: usize = 0;
        while k < n as usize
            invariant
                k <= n,
                begin == self.i_addr(),
                begin + n <= self.ram@.len(),
                out@ == self@.subrange(begin as int, begin + k),
            decreases n - k,
        {
            out.push(self.ram[begin + k]);
            k += 1;
            assert(out@ =~= self@.subrange(begin as int, begin + k));
        }
        out
    }

    /// Writes `bytes` from `I` on.
    pub fn save_bytes_to_i(&mut self, bytes: &[u8])
        requires
            old(self).wf(),
            old(self).i_addr() + bytes@.len() <= RAM_SIZE,
        ensures
            final(self).wf(),
            final(self)@ == written(old(self)@, old(self).i_addr() as int, bytes@),
            final(self).pc_addr() == old(self).pc_addr(),
            final(self).i_addr() == old(self).i_addr(),
    {
        let begin = self.i.0 as usize;
        let mut k: usize = 0;
        while k < bytes.len()
            invariant
                k <= bytes@.len(),
                begin == self.i_addr(),
                begin + bytes@.len() <= RAM_SIZE,
                self.wf(),
                self.pc_addr() == old(self).pc_addr(),
                self.i_addr() == old(self).i_addr(),
                self@.len() == old(self)@.len(),
                forall|a: int|
                    0 <= a < self@.len() ==> #[trigger] self@[a] == if begin <= a < begin + k {
                        bytes@[a - begin]
                    } else {
                        old(self)@[a]
                    },
            decreases bytes@.len() - k,
        {
            self.ram.set(begin + k, bytes[k]);
            k += 1;
        }
        assert(self@ =~= written(old(self)@, begin as int, bytes@));
    }

    /// Copies the program image to the program origin; an image that does
    /// not fit below the call-stack area is refused and nothing is written.
    pub fn load_program(&mut self, text: &[u8]) -> (r: Result<(), LoadError>)
        requires
            old(self).wf(),
        ensures
            final(self).wf(),
            final(self).pc_addr() == old(self).pc_addr(),
            final(self).i_addr() == old(self).i_addr(),
            text@.len() >= AVAILABLE_STORAGE ==> r == Err::<(), LoadError>(LoadError::RomTooBig(text@.len() as usize))
                && final(self)@ == old(self)@,
            text@.len() < AVAILABLE_STORAGE ==> r is Ok
                && final(self)@ == written(old(self)@, ROM_START_ADDR as int, text@),
    {
        let len = text.len();
        if len >= AVAILABLE_STORAGE as usize {
            Err(LoadError::RomTooBig(len))
        } else {
            let begin = ROM_START_ADDR as usize;
            let mut k: usize = 0;
            while k < len
                invariant
                    k <= len,
                    len == text@.len(),
                    len < AVAILABLE_STORAGE,
                    begin == ROM_START_ADDR,
                    self.wf(),
                    self.pc_addr() == old(self).pc_addr(),
                    self.i_addr() == old(self).i_addr(),
                    self@.len() == old(self)@.len(),
                    forall|a: int|
                        0 <= a < self@.len() ==> #[trigger] self@[a] == if begin <= a < begin + k {
                            text@[a - begin]
                        } else {
                            old(self)@[a]
                        },
                decreases len - k,
            {
                self.ram.set(begin + k, text[k]);
                k += 1;
            }
            assert(self@ =~= written(old(self)@, begin as int, text@));
            Ok(())
        }
    }

    /// Reads the big-endian word at `pc` and steps `pc` over it; `None`,
    /// with nothing changed, when the word would lie past the end of memory.
    pub fn fetch(&mut self) -> (r: Option<Opcode>)
        requires
            old(self).wf(),
        ensures
            final(self).wf(),
            final(self)@ == old(self)@,
            final(self).i_addr() == old(self).i_addr(),
            old(self).pc_addr() + INSTRUCTION_SIZE <= RAM_SIZE ==> (r matches Some(op)
                && op.word() == old(self)@[old(self).pc_addr() as int] as int * 256
                    + old(self)@[old(self).pc_addr() + 1]
                && final(self).pc_addr() == old(self).pc_addr() + INSTRUCTION_SIZE),
            old(self).pc_addr() + INSTRUCTION_SIZE > RAM_SIZE ==> r is None && final(self).pc_addr() == old(self).pc_addr(),
    {
        let pc = self.pc.0 as usize;
        if pc + 2 > RAM_SIZE as usize {
            return None;
        }
        let hi = self.ram[pc];
        let lo = self.ram[pc + 1];
        self.pc.0 = self.pc.0 + INSTRUCTION_SIZE;
        let word: u16 = ((hi as u16) << 8u16) | (lo as u16);
        assert(((hi as u16) << 8u16) | (lo as u16) == hi as u16 * 256 + lo as u16) by (bit_vector);
        Some(Opcode::new(word))
    }
}

} // verus!
