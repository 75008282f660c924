//! The execution core: fetching from the instruction stream, resolving
//! addressing modes, and the load and store instructions.

use crate::memory::{aliases, lemma_compose, stored, word_at, Memory, ADDRESS_SPACE};
use crate::registers::{bit7, lemma_result_flags, Flag, Registers};
use vstd::prelude::*;

verus! {

/// How an instruction locates its operand.
#[derive(Clone, Copy, Debug, PartialEq, Eq, Structural)]
pub enum AddrMode {
    /// The accumulator itself.
    A,
    /// A 16-bit address in the instruction stream.
    Abs,
    /// Absolute, plus X.
    AbsX,
    /// Absolute, plus Y.
    AbsY,
    /// A literal byte in the instruction stream.
    Imm,
    /// The address stored at a 16-bit address.
    Ind,
    /// The address stored at a zero-page pointer that X has been added to.
    XInd,
    /// The address stored at a zero-page pointer, plus Y.
    IndY,
    /// A signed offset from the program counter.
    Rel,
    /// An 8-bit address in the zero page.
    Zpg,
    /// Zero page, plus X.
    ZpgX,
    /// Zero page, plus Y.
    ZpgY,
}

impl AddrMode {
    /// Whether the mode names a memory address. The accumulator and a
    /// literal have none.
    pub open spec fn has_address(self) -> bool {
        self != AddrMode::A && self != AddrMode::Imm
    }

    /// Whether the mode addresses the zero page directly.
    pub open spec fn is_zero_page(self) -> bool {
        self == AddrMode::Zpg || self == AddrMode::ZpgX || self == AddrMode::ZpgY
    }

    /// Number of bytes that resolving the mode takes from the instruction
    /// stream.
    pub open spec fn operand_len(self) -> int {
        match self {
            AddrMode::A => 0,
            AddrMode::Abs | AddrMode::AbsX | AddrMode::AbsY | AddrMode::Ind => 2,
            _ => 1,
        }
    }
}

/// `n` reduced to a 16-bit address.
pub open spec fn wrap16(n: int) -> u16 {
    (n % 0x1_0000) as u16
}

/// `n` reduced to a zero-page address.
pub open spec fn wrap8(n: int) -> u8 {
    (n % 0x100) as u8
}

/// The byte `b` read as a two's-complement number.
pub open spec fn signed(b: u8) -> int {
    if b < 0x80 {
        b as int
    } else {
        b - 0x100
    }
}

/// What a processor is, to its contracts: the register file and the byte
/// that each of the 65536 addresses reads.
pub struct State {
    /// The register file.
    pub registers: Registers,
    /// The byte read at each address, mirrors included.
    pub space: Seq<u8>,
}

impl State {
    /// The address space is complete.
    pub open spec fn wf(self) -> bool {
        self.space.len() == ADDRESS_SPACE
    }

    /// The byte `k` places after the program counter.
    pub open spec fn stream_byte(self, k: int) -> u8 {
        self.space[(self.registers.pc + k) % 0x1_0000]
    }

    /// The next two bytes of the instruction stream as a word, low byte
    /// first.
    pub open spec fn stream_word(self) -> u16 {
        (self.stream_byte(0) + 0x100 * self.stream_byte(1)) as u16
    }

    /// The state with the program counter moved `n` bytes on, wrapping from
    /// `0xFFFF` to `0x0000`.
    pub open spec fn advanced(self, n: int) -> State {
        State {
            registers: Registers { pc: wrap16(self.registers.pc + n), ..self.registers },
            space: self.space,
        }
    }

    /// The zero-page pointer of the mode that adds X before the indirection.
    pub open spec fn x_indirect_pointer(self) -> u8 {
        wrap8(self.stream_byte(0) + self.registers.x)
    }

    /// The address that `mode` resolves to when its operand bytes start at
    /// the program counter.
    ///
    /// Index registers are added modulo 65536, except in the zero-page modes
    /// and for the pointer of [`AddrMode::XInd`], where the sum is taken
    /// modulo 256 and so stays in the zero page. A pointer's two bytes are
    /// read at the pointer and at the address after it, as every word is:
    /// a pointer at `0x00FF` or at the end of any other page has its high
    /// byte in the next page. The accumulator and a literal have no address;
    /// for them the function is 0, and nothing uses it.
    pub open spec fn effective_address(self, mode: AddrMode) -> u16
        recommends
            mode.has_address(),
    {
        match mode {
            AddrMode::Abs => self.stream_word(),
            AddrMode::AbsX => wrap16(self.stream_word() + self.registers.x),
            AddrMode::AbsY => wrap16(self.stream_word() + self.registers.y),
            AddrMode::Ind => word_at(self.space, self.stream_word()),
            AddrMode::XInd => word_at(self.space, self.x_indirect_pointer() as u16),
            AddrMode::IndY => wrap16(
                word_at(self.space, self.stream_byte(0) as u16) + self.registers.y,
            ),
            AddrMode::Rel => wrap16(self.registers.pc + 1 + signed(self.stream_byte(0))),
            AddrMode::Zpg => self.stream_byte(0) as u16,
            AddrMode::ZpgX => wrap8(self.stream_byte(0) + self.registers.x) as u16,
            AddrMode::ZpgY => wrap8(self.stream_byte(0) + self.registers.y) as u16,
            AddrMode::A | AddrMode::Imm => 0,
        }
    }

    /// The byte that an instruction reads through `mode`: the accumulator,
    /// the literal in the instruction stream, or the byte at the effective
    /// address.
    pub open spec fn operand(self, mode: AddrMode) -> u8 {
        match mode {
            AddrMode::A => self.registers.a,
            AddrMode::Imm => self.stream_byte(0),
            _ => self.space[self.effective_address(mode) as int],
        }
    }

    /// The state after an instruction has written `data` through `mode`:
    /// into the accumulator, or into memory at the effective address, with
    /// the operand bytes consumed.
    pub open spec fn written(self, mode: AddrMode, data: u8) -> State
        recommends
            mode != AddrMode::Imm,
    {
        match mode {
            AddrMode::A => State {
                registers: Registers { a: data, ..self.registers },
                space: self.space,
            },
            _ => State {
                registers: self.advanced(mode.operand_len()).registers,
                space: stored(self.space, self.effective_address(mode), data),
            },
        }
    }

    /// The registers after a load through `mode`, before the loaded byte is
    /// put into its register: the operand bytes are consumed and the byte is
    /// recorded in the Zero and Negative flags.
    pub open spec fn load_registers(self, mode: AddrMode) -> Registers {
        self.advanced(mode.operand_len()).registers.with_result_flags(self.operand(mode))
    }
}

/// The processor: a register file and the memory it addresses.
pub struct CPU {
    /// The register file.
    pub registers: Registers,
    /// The address space.
    pub memory: Memory,
}

impl View for CPU {
    type V = State;

    open spec fn view(&self) -> State {
        State { registers: self.registers, space: self.memory@ }
    }
}

impl CPU {
    /// The state of every processor is complete: its view has a byte for
    /// each address.
    pub proof fn lemma_view_wf(&self)
        ensures
            self@.wf(),
    {
        self.memory.lemma_view();
    }

    /// A processor at power-on: registers and memory all zero.
    pub fn new() -> (cpu: Self)
        ensures
            cpu@.wf(),
            cpu.registers == (Registers { a: 0, x: 0, y: 0, pc: 0, sp: 0, sr: 0 }),
            cpu.memory@ == Seq::new(ADDRESS_SPACE as nat, |a: int| 0u8),
    {
        CPU { registers: Registers::new(), memory: Memory::new() }
    }

    /// Reads the byte at the program counter and moves the counter one byte
    /// on.
    pub fn fetch(&mut self) -> (data: u8)
        ensures
            data == old(self)@.stream_byte(0),
            final(self)@ == old(self)@.advanced(1),
            final(self).memory == old(self).memory,
    {
        let address: u16 = self.registers.pc;
        let data: u8 = self.memory.read(address);
        self.registers.pc = self.registers.pc.wrapping_add(1);
        data
    }

    /// Reads two bytes from the instruction stream, low byte first, and
    /// joins them into a word.
    #[allow(non_snake_case)]
    pub fn fetchWord(&mut self) -> (data: u16)
        ensures
            data == old(self)@.stream_word(),
            final(self)@ == old(self)@.advanced(2),
            final(self).memory == old(self).memory,
    {
        let lo_byte: u16 = self.fetch() as u16;
        let hi_byte: u16 = self.fetch() as u16;
        proof {
            lemma_compose(lo_byte, hi_byte);
        }
        let data: u16 = (hi_byte << 8) | lo_byte;
        data
    }

    /// Resolves `mode` to its effective address, taking the operand bytes
    /// from the instruction stream. A mode without an address is a fault in
    /// the caller's instruction table; the precondition rules it out.
    pub fn get_address(&mut self, mode: AddrMode) -> (address: u16)
        requires
            mode.has_address(),
        ensures
            address == old(self)@.effective_address(mode),
            final(self)@ == old(self)@.advanced(mode.operand_len()),
            final(self).memory == old(self).memory,
            mode.is_zero_page() ==> address < 0x100,
    {
        match mode {
            AddrMode::Abs => self.fetchWord(),
            AddrMode::AbsX => {
                let base: u16 = self.fetchWord();
                let address: u16 = base.wrapping_add(self.registers.x as u16);
                assert(address == wrap16(base + self.registers.x));
                address
            },
            AddrMode::AbsY => {
                let base: u16 = self.fetchWord();
                let address: u16 = base.wrapping_add(self.registers.y as u16);
                assert(address == wrap16(base + self.registers.y));
                address
            },
            AddrMode::Ind => {
                let address: u16 = self.fetchWord();
                self.memory.readWord(address)
            },
            AddrMode::XInd => {
                let base: u8 = self.fetch();
                let pointer: u8 = base.wrapping_add(self.registers.x);
                assert(pointer == wrap8(base + self.registers.x));
                self.memory.readWord(pointer as u16)
            },
            AddrMode::IndY => {
                let pointer: u8 = self.fetch();
                let base: u16 = self.memory.readWord(pointer as u16);
                let address: u16 = base.wrapping_add(self.registers.y as u16);
                assert(address == wrap16(base + self.registers.y));
                address
            },
            AddrMode::Rel => {
                let offset: u8 = self.fetch();
                let signed_offset: i8 = #[verifier::truncate] (offset as i8);
                let extended: u16 = #[verifier::truncate] (signed_offset as u16);
                proof {
                    lemma_sign_extend(offset);
                    lemma_relative(old(self).registers.pc, offset);
                }
                self.registers.pc.wrapping_add(extended)
            },
            AddrMode::Zpg => self.fetch() as u16,
            AddrMode::ZpgX => {
                let base: u8 = self.fetch();
                let address: u8 = base.wrapping_add(self.registers.x);
                assert(address == wrap8(base + self.registers.x));
                address as u16
            },
            AddrMode::ZpgY => {
                let base: u8 = self.fetch();
                let address: u8 = base.wrapping_add(self.registers.y);
                assert(address == wrap8(base + self.registers.y));
                address as u16
            },
            AddrMode::A | AddrMode::Imm => vstd::pervasive::unreached(),
        }
    }

    /// Reads the operand of an instruction through `mode`.
    pub fn read_data(&mut self, mode: AddrMode) -> (data: u8)
        ensures
            data == old(self)@.operand(mode),
            final(self)@ == old(self)@.advanced(mode.operand_len()),
            final(self).memory == old(self).memory,
    {
        match mode {
            AddrMode::A => self.registers.a,
            AddrMode::Imm => self.fetch(),
            _ => {
                let address: u16 = self.get_address(mode);
                self.memory.read(address)
            },
        }
    }

    /// Writes `data` where `mode` says: into the accumulator, or into
    /// memory at the effective address. A literal cannot be written to.
    pub fn write_data(&mut self, mode: AddrMode, data: u8)
        requires
            mode != AddrMode::Imm,
        ensures
            final(self)@ == old(self)@.written(mode, data),
    {
        match mode {
            AddrMode::A => {
                self.registers.a = data;
            },
            _ => {
                let address: u16 = self.get_address(mode);
                self.memory.write(address, data);
            },
        }
    }

    /// Loads X with the operand and records it in the Zero and Negative
    /// flags.
    pub fn ldx(&mut self, mode: AddrMode)
        ensures
            final(self).registers == (Registers {
                x: old(self)@.operand(mode),
                ..old(self)@.load_registers(mode)
            }),
            final(self).registers.flag(Flag::Z) == (old(self)@.operand(mode) == 0),
            final(self).registers.flag(Flag::N) == bit7(old(self)@.operand(mode)),
            forall|g: Flag|
                g != Flag::Z && g != Flag::N ==> final(self).registers.flag(g) == old(
                    self,
                ).registers.flag(g),
            final(self).memory == old(self).memory,
    {
        let data: u8 = self.read_data(mode);
        self.registers.x = data;
        self.registers.set_result_flags(data);
    }

    /// Loads Y with the operand and records it in the Zero and Negative
    /// flags.
    pub fn ldy(&mut self, mode: AddrMode)
        ensures
            final(self).registers == (Registers {
                y: old(self)@.operand(mode),
                ..old(self)@.load_registers(mode)
            }),
            final(self).registers.flag(Flag::Z) == (old(self)@.operand(mode) == 0),
            final(self).registers.flag(Flag::N) == bit7(old(self)@.operand(mode)),
            forall|g: Flag|
                g != Flag::Z && g != Flag::N ==> final(self).registers.flag(g) == old(
                    self,
                ).registers.flag(g),
            final(self).memory == old(self).memory,
    {
        let data: u8 = self.read_data(mode);
        self.registers.y = data;
        self.registers.set_result_flags(data);
    }

    /// Loads the accumulator with the operand and records it in the Zero
    /// and Negative flags.
    pub fn lda(&mut self, mode: AddrMode)
        ensures
            final(self).registers == (Registers {
                a: old(self)@.operand(mode),
                ..old(self)@.load_registers(mode)
            }),
            final(self).registers.flag(Flag::Z) == (old(self)@.operand(mode) == 0),
            final(self).registers.flag(Flag::N) == bit7(old(self)@.operand(mode)),
            forall|g: Flag|
                g != Flag::Z && g != Flag::N ==> final(self).registers.flag(g) == old(
                    self,
                ).registers.flag(g),
            final(self).memory == old(self).memory,
    {
        let data: u8 = self.read_data(mode);
        self.registers.a = data;
        self.registers.set_result_flags(data);
    }

    /// Stores X through `mode`. No flag changes.
    pub fn stx(&mut self, mode: AddrMode)
        requires
            mode != AddrMode::Imm,
        ensures
            final(self)@ == old(self)@.written(mode, old(self).registers.x),
    {
        let data: u8 = self.registers.x;
        self.write_data(mode, data);
    }

    /// Stores Y through `mode`. No flag changes.
    pub fn sty(&mut self, mode: AddrMode)
        requires
            mode != AddrMode::Imm,
        ensures
            final(self)@ == old(self)@.written(mode, old(self).registers.y),
    {
        let data: u8 = self.registers.y;
        self.write_data(mode, data);
    }

    /// Stores the accumulator through `mode`. No flag changes.
    pub fn sta(&mut self, mode: AddrMode)
        requires
            mode != AddrMode::Imm,
        ensures
            final(self)@ == old(self)@.written(mode, old(self).registers.a),
    {
        let data: u8 = self.registers.a;
        self.write_data(mode, data);
    }
}

/// The word taken from the instruction stream is the word that a word read
/// at the program counter gives: both put the byte at the lower address
/// into the low half.
pub proof fn lemma_stream_word_is_word_at_pc(s: State)
    requires
        s.wf(),
    ensures
        s.stream_word() == word_at(s.space, s.registers.pc),
        s.stream_word() == s.space[s.registers.pc as int] + 0x100 * s.space[(s.registers.pc + 1)
            % 0x1_0000],
{
}

/// The three zero-page modes resolve into the zero page, whatever the index
/// register holds.
pub proof fn lemma_zero_page_stays_in_page(s: State, mode: AddrMode)
    requires
        mode.is_zero_page(),
    ensures
        s.effective_address(mode) < 0x100,
        mode == AddrMode::Zpg ==> s.effective_address(mode) == s.stream_byte(0),
        mode == AddrMode::ZpgX ==> s.effective_address(mode) == (s.stream_byte(0)
            + s.registers.x) % 0x100,
        mode == AddrMode::ZpgY ==> s.effective_address(mode) == (s.stream_byte(0)
            + s.registers.y) % 0x100,
{
}

/// In the two indirect zero-page modes only the pointer wraps within the
/// zero page. The word read through the pointer is a full 16-bit address:
/// with X it is the effective address as it stands, with Y it is the base
/// that Y is added to modulo 65536.
pub proof fn lemma_indirect_wraps_pointer_only(s: State)
    requires
        s.wf(),
    ensures
        s.x_indirect_pointer() == (s.stream_byte(0) + s.registers.x) % 0x100,
        s.x_indirect_pointer() < 0x100,
        s.effective_address(AddrMode::XInd) == s.space[s.x_indirect_pointer() as int] + 0x100
            * s.space[s.x_indirect_pointer() + 1],
        s.effective_address(AddrMode::IndY) == (s.space[s.stream_byte(0) as int] + 0x100
            * s.space[s.stream_byte(0) + 1] + s.registers.y) % 0x1_0000,
{
}

/// A byte stored through one mode is the operand of a later load whose
/// mode resolves to the same cell, in whatever region the cell lies and
/// through whichever of its mirrors either instruction reaches it.
pub proof fn lemma_store_then_load(
    before: State,
    store_mode: AddrMode,
    data: u8,
    after: State,
    load_mode: AddrMode,
)
    requires
        before.wf(),
        store_mode.has_address(),
        load_mode.has_address(),
        after.space == before.written(store_mode, data).space,
        aliases(after.effective_address(load_mode), before.effective_address(store_mode)),
    ensures
        after.operand(load_mode) == data,
{
}

/// A load records the loaded byte, whichever mode it came through: Zero is
/// set exactly when the byte is zero, Negative exactly when its bit 7 is
/// set, and the other flags keep their values.
pub proof fn lemma_load_flags(s: State, mode: AddrMode)
    ensures
        s.load_registers(mode).flag(Flag::Z) == (s.operand(mode) == 0),
        s.load_registers(mode).flag(Flag::N) == (s.operand(mode) >= 0x80),
        forall|g: Flag|
            g != Flag::Z && g != Flag::N ==> s.load_registers(mode).flag(g) == s.registers.flag(
                g,
            ),
{
    let r: Registers = s.advanced(mode.operand_len()).registers;
    lemma_result_flags(r, s.operand(mode));
    assert forall|g: Flag| g != Flag::Z && g != Flag::N implies s.load_registers(mode).flag(g)
        == s.registers.flag(g) by {
        assert(r.with_result_flags(s.operand(mode)).flag(g) == r.flag(g));
    }
}

/// Adding a sign-extended offset to the address after the offset byte, with
/// 16-bit wrapping, moves the address by the signed offset.
proof fn lemma_relative(pc: u16, offset: u8)
    ensures
        wrap16(pc + 1).wrapping_add(
            if offset < 0x80 {
                offset as u16
            } else {
                (0xFF00 + offset) as u16
            },
        ) == wrap16(pc + 1 + signed(offset)),
{
}

/// Narrowing a byte to a signed byte and widening that to a word extends
/// the sign: `0x80..=0xFF` gain an upper byte of `0xFF`.
pub proof fn lemma_sign_extend(b: u8)
    by (bit_vector)
    ensures
        ((b as i8) as u16) == (if b < 0x80 {
            b as u16
        } else {
            (0xFF00 + b) as u16
        }),
{
}

} // verus!
