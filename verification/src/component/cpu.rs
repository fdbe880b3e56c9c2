//! The processor: its register file with the flags, its memory bus, and the
//! dispatch of one instruction.

use crate::cpu::operations::{inst_len1, inst_len2, inst_len3};
use crate::lookups::{
    grand_opcode_lookup, instruction_len, instruction_len_spec, is_illegal_opcode, EXIT_ILLEGAL,
    EXIT_OK, EXIT_UNIMPLEMENTED, EXIT_UNKNOWN_PREFIXED, GRAND_OPCODE, STOP_OPCODE,
};
use vstd::prelude::*;

verus! {

/// The four indicators of the flag byte, which is the low half of the
/// accumulator-and-flags pair.
#[derive(Clone, Copy, Debug, PartialEq, Eq)]
pub enum Flag {
    /// Zero.
    Z,
    /// Subtract.
    N,
    /// Half-carry.
    H,
    /// Carry.
    C,
}

/// The eight 8-bit registers. Each is one half of a 16-bit pair: `A` and `F`
/// of `af`, `B` and `C` of `bc`, `D` and `E` of `de`, `H` and `L` of `hl`, the
/// first of each the high half.
#[derive(Clone, Copy, Debug, PartialEq, Eq)]
pub enum Register {
    A,
    F,
    B,
    C,
    D,
    E,
    H,
    L,
}

/// The register file: four register pairs, the program counter and the stack
/// pointer.
#[derive(Clone, Copy, Debug, PartialEq, Eq)]
pub struct Registers {
    pub af: u16,
    pub bc: u16,
    pub de: u16,
    pub hl: u16,
    pub pc: u16,
    pub sp: u16,
}

/// The processor: the memory bus, the register file and the operand bytes of
/// the instruction that was fetched last.
pub struct Cpu {
    pub memory: [u8; 65536],
    pub registers: Registers,
    pub cache: Vec<u8>,
}

/// The state of a processor as plain values.
#[verifier::ext_equal]
pub struct CpuState {
    /// The 65536 bytes of the memory bus, by address.
    pub memory: Seq<u8>,
    pub registers: Registers,
    /// The operand bytes that follow the opcode fetched last, in address
    /// order.
    pub cache: Seq<u8>,
}

/// What a trace of one instruction shows. It is taken after the instruction
/// was fetched and before its handler runs.
#[derive(Clone, Copy, Debug, PartialEq, Eq)]
pub struct TraceEvent {
    /// The address that the opcode was fetched from.
    pub address: u16,
    /// The mnemonic of the opcode.
    pub mnemonic: &'static str,
    /// The first operand byte, where the instruction has one.
    pub first_operand: Option<u8>,
    /// The second operand byte, where the instruction has one.
    pub second_operand: Option<u8>,
    pub af: u16,
    pub bc: u16,
    pub de: u16,
    pub hl: u16,
    pub zero: bool,
    pub subtract: bool,
    pub half_carry: bool,
    pub carry: bool,
}

impl View for Cpu {
    type V = CpuState;

    open spec fn view(&self) -> CpuState {
        CpuState { memory: self.memory@, registers: self.registers, cache: self.cache@ }
    }
}

/// The high half of a register pair.
pub open spec fn high_byte(pair: u16) -> u8 {
    (pair >> 8) as u8
}

/// The low half of a register pair.
pub open spec fn low_byte(pair: u16) -> u8 {
    (pair & 0x00FF) as u8
}

/// The pair with its high half replaced.
pub open spec fn with_high_byte(pair: u16, value: u8) -> u16 {
    (pair & 0x00FF) | ((value as u16) << 8)
}

/// The pair with its low half replaced.
pub open spec fn with_low_byte(pair: u16, value: u8) -> u16 {
    (pair & 0xFF00) | (value as u16)
}

/// The 16-bit value made of two bytes.
pub open spec fn join_bytes(high: u8, low: u8) -> u16 {
    ((high as u16) << 8) | (low as u16)
}

/// What an argument of `set_multi_flags` makes of a flag: 0 clears it, 1 sets
/// it, and every other value leaves it as it is.
pub open spec fn tri_state(arg: i8, current: bool) -> bool {
    if arg == 0 {
        false
    } else if arg == 1 {
        true
    } else {
        current
    }
}

impl Flag {
    /// The position of the flag's bit in the flag byte.
    pub open spec fn spec_bit(self) -> u8 {
        match self {
            Flag::Z => 7,
            Flag::N => 6,
            Flag::H => 5,
            Flag::C => 4,
        }
    }

    /// The flag's bit in the accumulator-and-flags pair.
    pub open spec fn spec_mask(self) -> u16 {
        match self {
            Flag::Z => 0x0080,
            Flag::N => 0x0040,
            Flag::H => 0x0020,
            Flag::C => 0x0010,
        }
    }

    /// The position of the flag's bit in the flag byte.
    #[verifier::when_used_as_spec(spec_bit)]
    pub fn bit(self) -> (b: u8)
        ensures
            b == self.spec_bit(),
            4 <= b <= 7,
    {
        match self {
            Flag::Z => 7,
            Flag::N => 6,
            Flag::H => 5,
            Flag::C => 4,
        }
    }

    /// The flag's bit in the accumulator-and-flags pair.
    #[verifier::when_used_as_spec(spec_mask)]
    pub fn mask(self) -> (m: u16)
        ensures
            m == self.spec_mask(),
            m == 1u16 << self.spec_bit(),
    {
        assert(1u16 << 7u8 == 0x0080 && 1u16 << 6u8 == 0x0040 && 1u16 << 5u8 == 0x0020 && 1u16
            << 4u8 == 0x0010) by (bit_vector);
        match self {
            Flag::Z => 0x0080,
            Flag::N => 0x0040,
            Flag::H => 0x0020,
            Flag::C => 0x0010,
        }
    }
}

impl Register {
    /// Whether the register is the high half of its pair.
    pub open spec fn is_high(self) -> bool {
        self is A || self is B || self is D || self is H
    }

    /// The other half of the register's pair.
    pub open spec fn sibling(self) -> Register {
        match self {
            Register::A => Register::F,
            Register::F => Register::A,
            Register::B => Register::C,
            Register::C => Register::B,
            Register::D => Register::E,
            Register::E => Register::D,
            Register::H => Register::L,
            Register::L => Register::H,
        }
    }
}

impl Registers {
    /// The values at power-on.
    pub open spec fn power_on() -> Registers {
        Registers { af: 0x0100, bc: 0x0014, de: 0x0000, hl: 0xC060, pc: 0x00FF, sp: 0xFFFE }
    }

    /// The invariant of the register file: the low nibble of the flag byte is
    /// zero.
    pub open spec fn wf(self) -> bool {
        self.af & 0x000F == 0
    }

    /// The pair that holds `register`.
    pub open spec fn pair_of(self, register: Register) -> u16 {
        match register {
            Register::A | Register::F => self.af,
            Register::B | Register::C => self.bc,
            Register::D | Register::E => self.de,
            Register::H | Register::L => self.hl,
        }
    }

    /// The register file with the pair that holds `register` replaced.
    pub open spec fn with_pair_of(self, register: Register, pair: u16) -> Registers {
        match register {
            Register::A | Register::F => Registers { af: pair, ..self },
            Register::B | Register::C => Registers { bc: pair, ..self },
            Register::D | Register::E => Registers { de: pair, ..self },
            Register::H | Register::L => Registers { hl: pair, ..self },
        }
    }

    /// The value of an 8-bit register.
    pub open spec fn get(self, register: Register) -> u8 {
        if register.is_high() {
            high_byte(self.pair_of(register))
        } else {
            low_byte(self.pair_of(register))
        }
    }

    /// The register file after `value` is written to an 8-bit register. The
    /// other half of the pair stays, and of a value written to the flag byte
    /// only the high nibble is kept.
    pub open spec fn set(self, register: Register, value: u8) -> Registers {
        let pair = self.pair_of(register);
        if register.is_high() {
            self.with_pair_of(register, with_high_byte(pair, value))
        } else if register is F {
            self.with_pair_of(register, with_low_byte(pair, value & 0xF0))
        } else {
            self.with_pair_of(register, with_low_byte(pair, value))
        }
    }

    /// Whether a flag is set.
    pub open spec fn flag(self, flag: Flag) -> bool {
        self.af & flag.spec_mask() != 0
    }

    /// The register file with one flag set or cleared and nothing else
    /// changed.
    pub open spec fn with_flag(self, flag: Flag, on: bool) -> Registers {
        if on {
            Registers { af: self.af | flag.spec_mask(), ..self }
        } else {
            Registers { af: self.af & !flag.spec_mask(), ..self }
        }
    }

    /// The register file with one flag cleared, set or kept, as `tri_state`
    /// reads the argument.
    pub open spec fn with_tri_state(self, flag: Flag, arg: i8) -> Registers {
        self.with_flag(flag, tri_state(arg, self.flag(flag)))
    }

    /// The register file with each of the four flags cleared, set or kept,
    /// as `tri_state` reads its argument.
    pub open spec fn with_multi_flags(self, z: i8, n: i8, h: i8, c: i8) -> Registers {
        self.with_tri_state(Flag::Z, z).with_tri_state(Flag::N, n).with_tri_state(
            Flag::H,
            h,
        ).with_tri_state(Flag::C, c)
    }

    /// The half of the accumulator-and-flags pair that
    /// `logical_and_register_u8` works on for a given register: the
    /// accumulator for a register that is the high half of its pair, the flag
    /// byte for one that is the low half.
    pub open spec fn and_target(register: Register) -> Register {
        if register.is_high() {
            Register::A
        } else {
            Register::F
        }
    }

    /// The register file at power-on.
    pub fn new() -> (registers: Registers)
        ensures
            registers == Registers::power_on(),
            registers.wf(),
    {
        assert(0x0100u16 & 0x000F == 0) by (bit_vector);
        Registers { af: 0x0100, bc: 0x0014, de: 0x0000, hl: 0xC060, pc: 0x00FF, sp: 0xFFFE }
    }

    /// A byte written to a register is read back from it (from the flag byte
    /// its high nibble). The other half of the pair and every other register
    /// keep their values, and so do the program counter, the stack pointer
    /// and the invariant.
    pub proof fn lemma_set_then_get(self, written: Register, value: u8, read: Register)
        ensures
            self.set(written, value).get(read) == if read != written {
                self.get(read)
            } else if written is F {
                value & 0xF0
            } else {
                value
            },
            self.set(written, value).get(written.sibling()) == self.get(written.sibling()),
            self.set(written, value).pc == self.pc,
            self.set(written, value).sp == self.sp,
            self.wf() || written is F ==> self.set(written, value).wf(),
    {
        let pair = self.pair_of(written);
        lemma_pair_halves(pair, value);
        lemma_pair_halves(pair, value & 0xF0);
    }

    /// Writing a flag makes it read as written and leaves the other three
    /// flags, the low nibble of the flag byte and every register but `F` as
    /// they were.
    pub proof fn lemma_with_flag(self, written: Flag, on: bool, read: Flag)
        ensures
            self.with_flag(written, on).flag(read) == if read == written {
                on
            } else {
                self.flag(read)
            },
            forall|r: Register| r != Register::F ==> self.with_flag(written, on).get(r) == self.get(r),
            self.with_flag(written, on).af & 0x000F == self.af & 0x000F,
            self.with_flag(written, on).pc == self.pc,
            self.with_flag(written, on).sp == self.sp,
            self.wf() ==> self.with_flag(written, on).wf(),
            on == self.flag(written) ==> self.with_flag(written, on) == self,
    {
        lemma_flag_bits(self.af, written.spec_mask(), read.spec_mask());
    }

    /// Each argument of `with_multi_flags` decides its own flag, whatever the
    /// other three arguments are: 0 clears the flag, 1 sets it, any other
    /// value keeps it. Nothing else in the register file changes.
    pub proof fn lemma_with_multi_flags(self, z: i8, n: i8, h: i8, c: i8)
        ensures
            self.with_multi_flags(z, n, h, c).flag(Flag::Z) == tri_state(z, self.flag(Flag::Z)),
            self.with_multi_flags(z, n, h, c).flag(Flag::N) == tri_state(n, self.flag(Flag::N)),
            self.with_multi_flags(z, n, h, c).flag(Flag::H) == tri_state(h, self.flag(Flag::H)),
            self.with_multi_flags(z, n, h, c).flag(Flag::C) == tri_state(c, self.flag(Flag::C)),
            forall|r: Register|
                r != Register::F ==> self.with_multi_flags(z, n, h, c).get(r) == self.get(r),
            self.with_multi_flags(z, n, h, c).af & 0x000F == self.af & 0x000F,
            self.with_multi_flags(z, n, h, c).pc == self.pc,
            self.with_multi_flags(z, n, h, c).sp == self.sp,
            self.wf() ==> self.with_multi_flags(z, n, h, c).wf(),
    {
        let after_z = self.with_tri_state(Flag::Z, z);
        let after_n = after_z.with_tri_state(Flag::N, n);
        let after_h = after_n.with_tri_state(Flag::H, h);
        self.lemma_with_tri_state(Flag::Z, z);
        after_z.lemma_with_tri_state(Flag::N, n);
        after_n.lemma_with_tri_state(Flag::H, h);
        after_h.lemma_with_tri_state(Flag::C, c);
    }

    /// What `lemma_with_flag` says of a flag that is cleared, set or kept,
    /// for each of the four flags that may be read afterwards.
    proof fn lemma_with_tri_state(self, written: Flag, arg: i8)
        ensures
            forall|read: Flag|
                #![trigger self.with_tri_state(written, arg).flag(read)]
                self.with_tri_state(written, arg).flag(read) == if read == written {
                    tri_state(arg, self.flag(written))
                } else {
                    self.flag(read)
                },
            forall|r: Register|
                r != Register::F ==> self.with_tri_state(written, arg).get(r) == self.get(r),
            self.with_tri_state(written, arg).af & 0x000F == self.af & 0x000F,
            self.with_tri_state(written, arg).pc == self.pc,
            self.with_tri_state(written, arg).sp == self.sp,
            self.wf() ==> self.with_tri_state(written, arg).wf(),
    {
        let on = tri_state(arg, self.flag(written));
        self.lemma_with_flag(written, on, Flag::Z);
        self.lemma_with_flag(written, on, Flag::N);
        self.lemma_with_flag(written, on, Flag::H);
        self.lemma_with_flag(written, on, Flag::C);
    }
}

impl CpuState {
    /// The state of a processor that was just made: zeroed memory, the
    /// power-on registers, no operand bytes.
    pub open spec fn power_on() -> CpuState {
        CpuState {
            memory: Seq::new(65536, |i: int| 0u8),
            registers: Registers::power_on(),
            cache: Seq::empty(),
        }
    }

    /// What holds of the state of every processor: the memory bus has 65536
    /// bytes.
    pub open spec fn wf(self) -> bool {
        self.memory.len() == 65536
    }

    /// The state with the register file replaced.
    pub open spec fn with_registers(self, registers: Registers) -> CpuState {
        CpuState { registers, ..self }
    }

    /// The state with one byte of memory replaced.
    pub open spec fn with_byte(self, address: u16, value: u8) -> CpuState {
        CpuState { memory: self.memory.update(address as int, value), ..self }
    }

    /// The state after a byte is pushed: the stack pointer goes down by one,
    /// from 0 round to 0xFFFF, and the byte is stored where it then points.
    pub open spec fn push_stack(self, data: u8) -> CpuState {
        let sp = self.registers.sp.wrapping_sub(1);
        CpuState {
            memory: self.memory.update(sp as int, data),
            registers: Registers { sp, ..self.registers },
            cache: self.cache,
        }
    }

    /// The state after a byte is popped, and the byte: it is the one the
    /// stack pointer points to, and the stack pointer then goes up by one,
    /// from 0xFFFF round to 0.
    pub open spec fn pop_stack(self) -> (CpuState, u8) {
        let sp = self.registers.sp;
        (
            self.with_registers(Registers { sp: sp.wrapping_add(1), ..self.registers }),
            self.memory[sp as int],
        )
    }

    /// The address that `opcode` was fetched from, once its operand bytes
    /// have been fetched too: the program counter then points to the last
    /// byte of the instruction.
    pub open spec fn opcode_address(self, opcode: u8) -> u16 {
        self.registers.pc.wrapping_sub((instruction_len_spec(opcode) - 1) as u16)
    }

    /// What a trace shows of the instruction with this opcode, once it has
    /// been fetched: where its opcode came from, its mnemonic, the cached
    /// operand bytes, the four register pairs and the four flags.
    pub open spec fn trace_state(self, opcode: u8) -> TraceEvent {
        TraceEvent {
            address: self.opcode_address(opcode),
            mnemonic: GRAND_OPCODE@[opcode as int].1,
            first_operand: if self.cache.len() > 0 {
                Some(self.cache[0])
            } else {
                None
            },
            second_operand: if self.cache.len() > 1 {
                Some(self.cache[1])
            } else {
                None
            },
            af: self.registers.af,
            bc: self.registers.bc,
            de: self.registers.de,
            hl: self.registers.hl,
            zero: self.registers.flag(Flag::Z),
            subtract: self.registers.flag(Flag::N),
            half_carry: self.registers.flag(Flag::H),
            carry: self.registers.flag(Flag::C),
        }
    }

    /// Whether enough operand bytes are cached to dispatch `opcode`. The halt
    /// opcode and the illegal opcodes need none.
    pub open spec fn can_execute(self, opcode: u8) -> bool {
        opcode == STOP_OPCODE || is_illegal_opcode(opcode) || self.cache.len()
            >= instruction_len_spec(opcode) - 1
    }

    /// The state after the instruction with this opcode and the cached
    /// operand bytes, and what its handler reports: nothing, or the exit
    /// code that ends the run.
    pub open spec fn execute(self, opcode: u8) -> (CpuState, Option<u8>) {
        let first = self.cache[0];
        let second = self.cache[1];
        match opcode {
            0x10 => (self, Some(EXIT_OK)),
            0xD3 | 0xDB | 0xDD | 0xE3 | 0xE4 | 0xEB | 0xEC | 0xED | 0xF4 | 0xFC | 0xFD => (
                self,
                Some(EXIT_ILLEGAL),
            ),
            0x00 | 0xF3 | 0xFB => (self, None),
            0xAF => (self.xor_a(), None),
            0x47 => (self.ld_b_a(), None),
            0x2F => (self.cpl(), None),
            0xFE => (self.cp_a(first), None),
            0x28 => (self.jr_z(first), None),
            0x18 => (self.jr(first), None),
            0x20 => (self.jr_nz(first), None),
            0xE0 => (self.ld_a8_a(first), None),
            0x3E => (self.ld_a_u8(first), None),
            0xE6 => (self.and_u8(first), None),
            0xF0 => (self.ld_a_a(first), None),
            0xCB => if first == 0x87 {
                (self.cb_rst_0_a(), None)
            } else {
                (self, Some(EXIT_UNKNOWN_PREFIXED))
            },
            0xC3 => (self.jp(first, second), None),
            0xEA => (self.ld_a(first, second), None),
            0xCD => (self.call(first, second), None),
            _ => (self, Some(EXIT_UNIMPLEMENTED)),
        }
    }
}

impl Cpu {
    /// A processor at power-on: zeroed memory, the power-on registers and no
    /// operand bytes.
    pub fn new() -> (cpu: Cpu)
        ensures
            cpu@ == CpuState::power_on(),
            cpu@.wf(),
            cpu.registers.wf(),
    {
        Cpu { memory: [0u8; 65536], registers: Registers::new(), cache: Vec::new() }
    }

    /// Dispatches one instruction: resolves the handler of `opcode` and runs
    /// it on the cached operand bytes. The halt opcode reports exit code 0
    /// and an illegal opcode exit code 4, whatever the state. An opcode
    /// without a handler reports exit code 3, a sub-opcode of the extended
    /// space without one exit code 6. A handler that reports an exit code
    /// changes nothing.
    pub fn execute(&mut self, opcode: u8) -> (exit: Option<u8>)
        requires
            old(self)@.can_execute(opcode),
        ensures
            (final(self)@, exit) == old(self)@.execute(opcode),
            opcode == STOP_OPCODE ==> exit == Some(EXIT_OK),
            is_illegal_opcode(opcode) ==> exit == Some(EXIT_ILLEGAL),
            exit matches Some(code) ==> (code == EXIT_OK || code == EXIT_UNIMPLEMENTED || code
                == EXIT_ILLEGAL || code == EXIT_UNKNOWN_PREFIXED) && final(self)@ == old(self)@,
            final(self)@.cache == old(self)@.cache,
            old(self).registers.wf() ==> final(self).registers.wf(),
    {
        match opcode {
            0x10 => Some(0),
            0xD3 | 0xDB | 0xDD | 0xE3 | 0xE4 | 0xEB | 0xEC | 0xED | 0xF4 | 0xFC | 0xFD => Some(4),
            _ => {
                match instruction_len(&opcode) {
                    1 => {
                        let inst = inst_len1(self, opcode);
                        inst.run(self, opcode)
                    },
                    2 => {
                        let arg = self.cache[0];
                        let inst = inst_len2(self, opcode, arg);
                        inst.run(self, opcode, arg)
                    },
                    _ => {
                        // The length table gives no length but 1, 2 and 3.
                        let low = self.cache[0];
                        let high = self.cache[1];
                        let inst = inst_len3(self, opcode, low, high);
                        inst.run(self, opcode, low, high)
                    },
                }
            },
        }
    }

    /// Sets a flag and changes nothing else.
    pub fn set_flag(&mut self, flag: Flag)
        ensures
            final(self)@ == old(self)@.with_registers(old(self).registers.with_flag(flag, true)),
            final(self).registers.flag(flag),
            old(self).registers.wf() ==> final(self).registers.wf(),
    {
        proof {
            self.registers.lemma_with_flag(flag, true, flag);
        }
        self.registers.af |= flag.mask();
    }

    /// Clears a flag and changes nothing else.
    pub fn clear_flag(&mut self, flag: Flag)
        ensures
            final(self)@ == old(self)@.with_registers(old(self).registers.with_flag(flag, false)),
            !final(self).registers.flag(flag),
            old(self).registers.wf() ==> final(self).registers.wf(),
    {
        proof {
            self.registers.lemma_with_flag(flag, false, flag);
        }
        self.registers.af &= !flag.mask();
    }

    /// Whether a flag is set.
    pub fn get_flag(&self, flag: Flag) -> (on: bool)
        ensures
            on == self.registers.flag(flag),
    {
        self.registers.af & flag.mask() != 0
    }

    /// Reads the byte at an address of the memory bus.
    pub fn read(&self, address: u16) -> (value: u8)
        ensures
            value == self@.memory[address as int],
    {
        self.memory[address as usize]
    }

    /// Writes a byte at an address of the memory bus. Every address can be
    /// written: none is protected as ROM.
    pub fn write(&mut self, address: u16, value: u8)
        ensures
            final(self)@ == old(self)@.with_byte(address, value),
    {
        self.memory[address as usize] = value;
    }

    /// Pushes a byte on the stack, which grows downwards: the stack pointer
    /// goes down by one, from 0 round to 0xFFFF, and the byte is stored where
    /// it then points.
    pub fn push_stack(&mut self, data: u8)
        ensures
            final(self)@ == old(self)@.push_stack(data),
    {
        self.registers.sp = self.registers.sp.wrapping_sub(1);
        self.write(self.registers.sp, data);
    }

    /// Pops a byte off the stack: reads the byte that the stack pointer
    /// points to and moves the stack pointer up by one, from 0xFFFF round to
    /// 0.
    pub fn pop_stack(&mut self) -> (data: u8)
        ensures
            (final(self)@, data) == old(self)@.pop_stack(),
    {
        let data = self.read(self.registers.sp);
        self.registers.sp = self.registers.sp.wrapping_add(1);
        data
    }

    /// Reads an 8-bit register.
    pub fn get_register(&self, register: Register) -> (value: u8)
        ensures
            value == self.registers.get(register),
    {
        match register {
            Register::A => (self.registers.af >> 8) as u8,
            Register::F => (self.registers.af & 0x00FF) as u8,
            Register::B => (self.registers.bc >> 8) as u8,
            Register::C => (self.registers.bc & 0x00FF) as u8,
            Register::D => (self.registers.de >> 8) as u8,
            Register::E => (self.registers.de & 0x00FF) as u8,
            Register::H => (self.registers.hl >> 8) as u8,
            Register::L => (self.registers.hl & 0x00FF) as u8,
        }
    }

    /// Writes an 8-bit register. The other half of its pair keeps its value;
    /// of a value written to the flag byte only the high nibble is kept.
    pub fn set_register(&mut self, register: Register, value: u8)
        ensures
            final(self)@ == old(self)@.with_registers(old(self).registers.set(register, value)),
            old(self).registers.wf() || register is F ==> final(self).registers.wf(),
    {
        proof {
            self.registers.lemma_set_then_get(register, value, register);
        }
        match register {
            Register::A => self.registers.af = (self.registers.af & 0x00FF) | ((value as u16) << 8),
            Register::F => self.registers.af = (self.registers.af & 0xFF00) | ((value & 0xF0) as u16),
            Register::B => self.registers.bc = (self.registers.bc & 0x00FF) | ((value as u16) << 8),
            Register::C => self.registers.bc = (self.registers.bc & 0xFF00) | (value as u16),
            Register::D => self.registers.de = (self.registers.de & 0x00FF) | ((value as u16) << 8),
            Register::E => self.registers.de = (self.registers.de & 0xFF00) | (value as u16),
            Register::H => self.registers.hl = (self.registers.hl & 0x00FF) | ((value as u16) << 8),
            Register::L => self.registers.hl = (self.registers.hl & 0xFF00) | (value as u16),
        }
    }

    /// Copies the value of `source` into `target`.
    pub fn load_inter_register(&mut self, target: Register, source: Register)
        ensures
            final(self)@ == old(self)@.with_registers(
                old(self).registers.set(target, old(self).registers.get(source)),
            ),
            old(self).registers.wf() || target is F ==> final(self).registers.wf(),
    {
        let value = self.get_register(source);
        self.set_register(target, value);
    }

    /// Takes the logical AND of `byte` and one half of the
    /// accumulator-and-flags pair, and stores it there: in the accumulator
    /// where `register` is the high half of its pair, in the flag byte where
    /// it is the low half.
    pub fn logical_and_register_u8(&mut self, byte: u8, register: Register)
        ensures
            final(self)@ == old(self)@.with_registers(
                old(self).registers.set(
                    Registers::and_target(register),
                    old(self).registers.get(Registers::and_target(register)) & byte,
                ),
            ),
            old(self).registers.wf() ==> final(self).registers.wf(),
    {
        let target = match register {
            Register::A | Register::B | Register::D | Register::H => Register::A,
            Register::F | Register::C | Register::E | Register::L => Register::F,
        };
        let value = self.get_register(target) & byte;
        self.set_register(target, value);
    }

    /// Takes the logical AND of the accumulator and `register`, and stores it
    /// in the accumulator.
    pub fn logical_and_inter_register(&mut self, register: Register)
        ensures
            final(self)@ == old(self)@.with_registers(
                old(self).registers.set(
                    Register::A,
                    old(self).registers.get(Register::A) & old(self).registers.get(register),
                ),
            ),
            old(self).registers.wf() ==> final(self).registers.wf(),
    {
        let value = self.get_register(register);
        self.logical_and_register_u8(value, Register::A);
    }

    /// Clears, sets or keeps one flag: an argument of 0 clears it, 1 sets it,
    /// and any other value keeps it.
    fn set_tri_state(&mut self, flag: Flag, arg: i8)
        ensures
            final(self)@ == old(self)@.with_registers(
                old(self).registers.with_tri_state(flag, arg),
            ),
    {
        proof {
            self.registers.lemma_with_flag(flag, self.registers.flag(flag), flag);
        }
        match arg {
            0 => self.clear_flag(flag),
            1 => self.set_flag(flag),
            _ => {},
        }
    }

    /// Sets, clears or keeps each of the four flags: an argument of 0 clears
    /// its flag, 1 sets it, and any other value keeps it, whatever the other
    /// three arguments are. Nothing but the four flag bits changes.
    pub fn set_multi_flags(&mut self, z: i8, n: i8, h: i8, c: i8)
        ensures
            final(self)@ == old(self)@.with_registers(
                old(self).registers.with_multi_flags(z, n, h, c),
            ),
            final(self).registers.flag(Flag::Z) == tri_state(z, old(self).registers.flag(Flag::Z)),
            final(self).registers.flag(Flag::N) == tri_state(n, old(self).registers.flag(Flag::N)),
            final(self).registers.flag(Flag::H) == tri_state(h, old(self).registers.flag(Flag::H)),
            final(self).registers.flag(Flag::C) == tri_state(c, old(self).registers.flag(Flag::C)),
            forall|r: Register|
                r != Register::F ==> final(self).registers.get(r) == old(self).registers.get(r),
            final(self).registers.af & 0x000F == old(self).registers.af & 0x000F,
            old(self).registers.wf() ==> final(self).registers.wf(),
    {
        proof {
            self.registers.lemma_with_multi_flags(z, n, h, c);
        }
        self.set_tri_state(Flag::Z, z);
        self.set_tri_state(Flag::N, n);
        self.set_tri_state(Flag::H, h);
        self.set_tri_state(Flag::C, c);
    }

    /// What a trace shows of the instruction that was just fetched: where its
    /// opcode came from, its mnemonic, the cached operand bytes, the four
    /// register pairs and the four flags.
    pub fn trace_state(&self, opcode: u8) -> (event: TraceEvent)
        ensures
            event == self@.trace_state(opcode),
    {
        let operands: u16 = (instruction_len(&opcode) - 1) as u16;
        TraceEvent {
            address: self.registers.pc.wrapping_sub(operands),
            mnemonic: grand_opcode_lookup(opcode).1,
            first_operand: if self.cache.len() > 0 {
                Some(self.cache[0])
            } else {
                None
            },
            second_operand: if self.cache.len() > 1 {
                Some(self.cache[1])
            } else {
                None
            },
            af: self.registers.af,
            bc: self.registers.bc,
            de: self.registers.de,
            hl: self.registers.hl,
            zero: self.get_flag(Flag::Z),
            subtract: self.get_flag(Flag::N),
            half_carry: self.get_flag(Flag::H),
            carry: self.get_flag(Flag::C),
        }
    }
}

/// Bytes taken out of a pair and put into one are what they were, and
/// replacing one half of a pair leaves the other half and, of the low nibble,
/// what the written byte does not cover.
pub proof fn lemma_pair_halves(pair: u16, value: u8)
    by (bit_vector)
    ensures
        high_byte(with_high_byte(pair, value)) == value,
        low_byte(with_high_byte(pair, value)) == low_byte(pair),
        low_byte(with_low_byte(pair, value)) == value,
        high_byte(with_low_byte(pair, value)) == high_byte(pair),
        with_high_byte(pair, value) & 0x000F == pair & 0x000F,
        with_low_byte(pair, value & 0xF0) & 0x000F == 0,
        join_bytes(high_byte(pair), low_byte(pair)) == pair,
        high_byte(join_bytes(value, low_byte(pair))) == value,
        low_byte(join_bytes(high_byte(pair), value)) == value,
{
}

/// Setting or clearing one flag bit changes that bit of the pair and no
/// other, and changes nothing where the bit is already as asked.
proof fn lemma_flag_bits(af: u16, m: u16, k: u16)
    by (bit_vector)
    requires
        m == 0x0080 || m == 0x0040 || m == 0x0020 || m == 0x0010,
        k == 0x0080 || k == 0x0040 || k == 0x0020 || k == 0x0010,
    ensures
        (af | m) & m != 0,
        (af & !m) & m == 0,
        m != k ==> (af | m) & k == af & k,
        m != k ==> (af & !m) & k == af & k,
        (af | m) & 0x000F == af & 0x000F,
        (af & !m) & 0x000F == af & 0x000F,
        (af | m) >> 8 == af >> 8,
        (af & !m) >> 8 == af >> 8,
        af & m != 0 ==> af | m == af,
        af & m == 0 ==> af & !m == af,
{
}

} // verus!
