//! The instruction handlers, and the decoders that resolve an opcode to its
//! handler.

use crate::component::cpu::{
    high_byte, join_bytes, lemma_pair_halves, low_byte, Cpu, CpuState, Flag, Register, Registers,
};
use crate::lookups::{
    instruction_len_spec, is_illegal_opcode, EXIT_UNIMPLEMENTED, EXIT_UNKNOWN_PREFIXED,
    STOP_OPCODE,
};
use vstd::prelude::*;

verus! {

/// The handlers of the instructions that are one byte long.
#[derive(Clone, Copy, Debug, PartialEq, Eq)]
pub enum Handler1 {
    Nop,
    XorA,
    Di,
    Ei,
    LdBA,
    Cpl,
    /// The fallback for an opcode that has no handler yet.
    BadOpcode,
}

/// The handlers of the instructions that are two bytes long.
#[derive(Clone, Copy, Debug, PartialEq, Eq)]
pub enum Handler2 {
    CpA,
    JrZ,
    Jr,
    JrNz,
    LdA8A,
    LdAU8,
    AndU8,
    LdAA,
    /// The one handler of the extended space.
    CbRst0A,
    /// The fallback for a sub-opcode of the extended space that has no
    /// handler.
    BadPrefixedOpcode,
    /// The fallback for an opcode that has no handler yet.
    BadOpcode,
}

/// The handlers of the instructions that are three bytes long.
#[derive(Clone, Copy, Debug, PartialEq, Eq)]
pub enum Handler3 {
    Jp,
    LdA,
    Call,
    /// The fallback for an opcode that has no handler yet.
    BadOpcode,
}

/// 1 for `true` and 0 for `false`, as an argument of `set_multi_flags`.
pub open spec fn flag_arg(on: bool) -> i8 {
    if on {
        1
    } else {
        0
    }
}

impl CpuState {
    /// After a relative jump: the displacement, taken as unsigned, is added
    /// to the program counter, modulo 65536.
    pub open spec fn jr(self, arg: u8) -> CpuState {
        self.with_registers(
            Registers { pc: self.registers.pc.wrapping_add(arg as u16), ..self.registers },
        )
    }

    /// After an absolute jump: the program counter holds the address before
    /// the target, modulo 65536. The advance that ends the step moves it to
    /// the target, where the next fetch is made.
    pub open spec fn jp(self, low: u8, high: u8) -> CpuState {
        self.with_registers(
            Registers { pc: join_bytes(high, low).wrapping_sub(1), ..self.registers },
        )
    }

    /// After the accumulator is XORed with itself: it is zero, Zero is set,
    /// and Subtract, Half-carry and Carry are clear.
    pub open spec fn xor_a(self) -> CpuState {
        self.with_registers(self.registers.set(Register::A, 0).with_multi_flags(1, 0, 0, 0))
    }

    /// After the accumulator is ANDed with an immediate: Zero says whether
    /// the result is zero, Subtract is clear, Half-carry set, Carry clear.
    pub open spec fn and_u8(self, arg: u8) -> CpuState {
        let result = self.registers.get(Register::A) & arg;
        self.with_registers(
            self.registers.set(Register::A, result).with_multi_flags(
                flag_arg(result == 0),
                0,
                1,
                0,
            ),
        )
    }

    /// After the accumulator is stored at the address `high`, `low`.
    pub open spec fn ld_a(self, low: u8, high: u8) -> CpuState {
        self.with_byte(join_bytes(high, low), self.registers.get(Register::A))
    }

    /// After the accumulator is stored in the page at 0xFF00, at offset
    /// `arg`.
    pub open spec fn ld_a8_a(self, arg: u8) -> CpuState {
        self.with_byte(join_bytes(0xFF, arg), self.registers.get(Register::A))
    }

    /// After an immediate is loaded into the accumulator.
    pub open spec fn ld_a_u8(self, arg: u8) -> CpuState {
        self.with_registers(self.registers.set(Register::A, arg))
    }

    /// After the accumulator is loaded from the last byte of the page whose
    /// high address byte is `arg`.
    pub open spec fn ld_a_a(self, arg: u8) -> CpuState {
        self.with_registers(
            self.registers.set(Register::A, self.memory[join_bytes(arg, 0xFF) as int]),
        )
    }

    /// After the accumulator is copied into `B`.
    pub open spec fn ld_b_a(self) -> CpuState {
        self.with_registers(self.registers.set(Register::B, self.registers.get(Register::A)))
    }

    /// After the accumulator is replaced by its one's complement.
    pub open spec fn cpl(self) -> CpuState {
        self.with_registers(self.registers.set(Register::A, !self.registers.get(Register::A)))
    }

    /// After the accumulator is compared with an immediate. Zero says whether
    /// the two are equal and Subtract is set. Half-carry is set where both
    /// are 0x0F, and Carry where the immediate is not below the accumulator.
    pub open spec fn cp_a(self, arg: u8) -> CpuState {
        let a = self.registers.get(Register::A);
        self.with_registers(
            self.registers.with_multi_flags(
                flag_arg(a == arg),
                1,
                flag_arg(a == arg && a == 0x0F),
                flag_arg(arg >= a),
            ),
        )
    }

    /// After a relative jump that is taken only where Zero is set.
    pub open spec fn jr_z(self, arg: u8) -> CpuState {
        if self.registers.flag(Flag::Z) {
            self.jr(arg)
        } else {
            self
        }
    }

    /// After a relative jump that is taken only where Zero is clear.
    pub open spec fn jr_nz(self, arg: u8) -> CpuState {
        if self.registers.flag(Flag::Z) {
            self
        } else {
            self.jr(arg)
        }
    }

    /// After a call: the program counter is pushed, its high byte first, and
    /// then holds the address before the target, modulo 65536.
    pub open spec fn call(self, low: u8, high: u8) -> CpuState {
        let pc = self.registers.pc;
        self.push_stack(high_byte(pc)).push_stack(low_byte(pc)).jp(low, high)
    }

    /// After the lowest bit of the accumulator is cleared.
    pub open spec fn cb_rst_0_a(self) -> CpuState {
        self.with_registers(
            self.registers.set(Register::A, self.registers.get(Register::A) & 0xFE),
        )
    }
}

impl Handler1 {
    /// The handler of a one-byte opcode.
    pub open spec fn decode(opcode: u8) -> Handler1 {
        match opcode {
            0x00 => Handler1::Nop,
            0xAF => Handler1::XorA,
            0xF3 => Handler1::Di,
            0xFB => Handler1::Ei,
            0x47 => Handler1::LdBA,
            0x2F => Handler1::Cpl,
            _ => Handler1::BadOpcode,
        }
    }

    /// The state after the handler has run, and what it reports.
    pub open spec fn run_spec(self, state: CpuState) -> (CpuState, Option<u8>) {
        match self {
            Handler1::Nop | Handler1::Di | Handler1::Ei => (state, None),
            Handler1::XorA => (state.xor_a(), None),
            Handler1::LdBA => (state.ld_b_a(), None),
            Handler1::Cpl => (state.cpl(), None),
            Handler1::BadOpcode => (state, Some(EXIT_UNIMPLEMENTED)),
        }
    }

    /// Runs the handler.
    pub fn run(self, cpu: &mut Cpu, opcode: u8) -> (exit: Option<u8>)
        ensures
            (final(cpu)@, exit) == self.run_spec(old(cpu)@),
            old(cpu).registers.wf() ==> final(cpu).registers.wf(),
    {
        match self {
            Handler1::Nop => nop(cpu, opcode),
            Handler1::XorA => xor_a(cpu, opcode),
            Handler1::Di => di(cpu, opcode),
            Handler1::Ei => ei(cpu, opcode),
            Handler1::LdBA => ld_b_a(cpu, opcode),
            Handler1::Cpl => cpl(cpu, opcode),
            Handler1::BadOpcode => bad_opcode1(cpu, opcode),
        }
    }
}

impl Handler2 {
    /// The handler of a two-byte opcode. After the prefix opcode the operand
    /// is the sub-opcode, and selects the handler.
    pub open spec fn decode(opcode: u8, arg: u8) -> Handler2 {
        match opcode {
            0xFE => Handler2::CpA,
            0x28 => Handler2::JrZ,
            0x18 => Handler2::Jr,
            0x20 => Handler2::JrNz,
            0xE0 => Handler2::LdA8A,
            0x3E => Handler2::LdAU8,
            0xE6 => Handler2::AndU8,
            0xF0 => Handler2::LdAA,
            0xCB => Handler2::decode_prefixed(arg),
            _ => Handler2::BadOpcode,
        }
    }

    /// The handler of a sub-opcode of the extended space.
    pub open spec fn decode_prefixed(ext_opcode: u8) -> Handler2 {
        if ext_opcode == 0x87 {
            Handler2::CbRst0A
        } else {
            Handler2::BadPrefixedOpcode
        }
    }

    /// The state after the handler has run, and what it reports.
    pub open spec fn run_spec(self, state: CpuState, arg: u8) -> (CpuState, Option<u8>) {
        match self {
            Handler2::CpA => (state.cp_a(arg), None),
            Handler2::JrZ => (state.jr_z(arg), None),
            Handler2::Jr => (state.jr(arg), None),
            Handler2::JrNz => (state.jr_nz(arg), None),
            Handler2::LdA8A => (state.ld_a8_a(arg), None),
            Handler2::LdAU8 => (state.ld_a_u8(arg), None),
            Handler2::AndU8 => (state.and_u8(arg), None),
            Handler2::LdAA => (state.ld_a_a(arg), None),
            Handler2::CbRst0A => (state.cb_rst_0_a(), None),
            Handler2::BadPrefixedOpcode => (state, Some(EXIT_UNKNOWN_PREFIXED)),
            Handler2::BadOpcode => (state, Some(EXIT_UNIMPLEMENTED)),
        }
    }

    /// Runs the handler.
    pub fn run(self, cpu: &mut Cpu, opcode: u8, arg: u8) -> (exit: Option<u8>)
        ensures
            (final(cpu)@, exit) == self.run_spec(old(cpu)@, arg),
            old(cpu).registers.wf() ==> final(cpu).registers.wf(),
    {
        match self {
            Handler2::CpA => cp_a(cpu, opcode, arg),
            Handler2::JrZ => jr_z(cpu, opcode, arg),
            Handler2::Jr => jr(cpu, opcode, arg),
            Handler2::JrNz => jr_nz(cpu, opcode, arg),
            Handler2::LdA8A => ld_a8_a(cpu, opcode, arg),
            Handler2::LdAU8 => ld_a_u8(cpu, opcode, arg),
            Handler2::AndU8 => and_u8(cpu, opcode, arg),
            Handler2::LdAA => ld_a_a(cpu, opcode, arg),
            Handler2::CbRst0A => cb_rst_0_a(cpu, opcode, arg),
            Handler2::BadPrefixedOpcode => bad_prefixed_opcode(cpu, opcode, arg),
            Handler2::BadOpcode => bad_opcode2(cpu, opcode, arg),
        }
    }
}

impl Handler3 {
    /// The handler of a three-byte opcode.
    pub open spec fn decode(opcode: u8) -> Handler3 {
        match opcode {
            0xC3 => Handler3::Jp,
            0xEA => Handler3::LdA,
            0xCD => Handler3::Call,
            _ => Handler3::BadOpcode,
        }
    }

    /// The state after the handler has run, and what it reports.
    pub open spec fn run_spec(self, state: CpuState, low: u8, high: u8) -> (
        CpuState,
        Option<u8>,
    ) {
        match self {
            Handler3::Jp => (state.jp(low, high), None),
            Handler3::LdA => (state.ld_a(low, high), None),
            Handler3::Call => (state.call(low, high), None),
            Handler3::BadOpcode => (state, Some(EXIT_UNIMPLEMENTED)),
        }
    }

    /// Runs the handler.
    pub fn run(self, cpu: &mut Cpu, opcode: u8, low: u8, high: u8) -> (exit: Option<u8>)
        ensures
            (final(cpu)@, exit) == self.run_spec(old(cpu)@, low, high),
            old(cpu).registers.wf() ==> final(cpu).registers.wf(),
    {
        match self {
            Handler3::Jp => jp(cpu, opcode, low, high),
            Handler3::LdA => ld_a(cpu, opcode, low, high),
            Handler3::Call => call(cpu, opcode, low, high),
            Handler3::BadOpcode => bad_opcode3(cpu, opcode, low, high),
        }
    }
}

/// Resolves a one-byte opcode to its handler. An opcode without a handler of
/// its own resolves to the fallback.
pub fn inst_len1(cpu: &mut Cpu, opcode: u8) -> (handler: Handler1)
    ensures
        handler == Handler1::decode(opcode),
        *final(cpu) == *old(cpu),
{
    match opcode {
        0x00 => Handler1::Nop,
        0xAF => Handler1::XorA,
        0xF3 => Handler1::Di,
        0xFB => Handler1::Ei,
        0x47 => Handler1::LdBA,
        0x2F => Handler1::Cpl,
        _ => Handler1::BadOpcode,
    }
}

/// Resolves a two-byte opcode and its operand to a handler. An opcode
/// without a handler of its own resolves to the fallback.
pub fn inst_len2(cpu: &mut Cpu, opcode: u8, arg: u8) -> (handler: Handler2)
    ensures
        handler == Handler2::decode(opcode, arg),
        *final(cpu) == *old(cpu),
{
    match opcode {
        0xFE => Handler2::CpA,
        0x28 => Handler2::JrZ,
        0x18 => Handler2::Jr,
        0x20 => Handler2::JrNz,
        0xE0 => Handler2::LdA8A,
        0x3E => Handler2::LdAU8,
        0xE6 => Handler2::AndU8,
        0xF0 => Handler2::LdAA,
        0xCB => match_prefixed_opcode(cpu, 0xCB, arg),
        _ => Handler2::BadOpcode,
    }
}

/// Resolves a three-byte opcode to its handler. An opcode without a handler
/// of its own resolves to the fallback.
pub fn inst_len3(cpu: &mut Cpu, opcode: u8, low: u8, high: u8) -> (handler: Handler3)
    ensures
        handler == Handler3::decode(opcode),
        *final(cpu) == *old(cpu),
{
    match opcode {
        0xC3 => Handler3::Jp,
        0xEA => Handler3::LdA,
        0xCD => Handler3::Call,
        _ => Handler3::BadOpcode,
    }
}

/// The fallback of the one-byte opcodes: reports the opcode as
/// unimplemented.
pub fn bad_opcode1(cpu: &mut Cpu, opcode: u8) -> (exit: Option<u8>)
    ensures
        exit == Some(EXIT_UNIMPLEMENTED),
        *final(cpu) == *old(cpu),
{
    Some(3)
}

/// The fallback of the two-byte opcodes: reports the opcode as
/// unimplemented.
pub fn bad_opcode2(cpu: &mut Cpu, opcode: u8, arg: u8) -> (exit: Option<u8>)
    ensures
        exit == Some(EXIT_UNIMPLEMENTED),
        *final(cpu) == *old(cpu),
{
    Some(3)
}

/// The fallback of the three-byte opcodes: reports the opcode as
/// unimplemented.
pub fn bad_opcode3(cpu: &mut Cpu, opcode: u8, low: u8, high: u8) -> (exit: Option<u8>)
    ensures
        exit == Some(EXIT_UNIMPLEMENTED),
        *final(cpu) == *old(cpu),
{
    Some(3)
}

/// 0x00: no operation.
pub fn nop(cpu: &mut Cpu, opcode: u8) -> (exit: Option<u8>)
    ensures
        exit is None,
        *final(cpu) == *old(cpu),
{
    None
}

/// 0x18: relative jump. The displacement is taken as unsigned.
pub fn jr(cpu: &mut Cpu, opcode: u8, arg: u8) -> (exit: Option<u8>)
    ensures
        exit is None,
        final(cpu)@ == old(cpu)@.jr(arg),
{
    cpu.registers.pc = cpu.registers.pc.wrapping_add(arg as u16);
    None
}

/// 0xC3: absolute jump to the address `high`, `low`.
pub fn jp(cpu: &mut Cpu, opcode: u8, low: u8, high: u8) -> (exit: Option<u8>)
    ensures
        exit is None,
        final(cpu)@ == old(cpu)@.jp(low, high),
{
    cpu.registers.pc = (((high as u16) << 8) | (low as u16)).wrapping_sub(1);
    None
}

/// 0xAF: XOR of the accumulator with itself. Whatever the accumulator held,
/// it is then zero, Zero is set, and Subtract, Half-carry and Carry are
/// clear.
pub fn xor_a(cpu: &mut Cpu, opcode: u8) -> (exit: Option<u8>)
    ensures
        exit is None,
        final(cpu)@ == old(cpu)@.xor_a(),
        final(cpu).registers.get(Register::A) == 0,
        final(cpu).registers.flag(Flag::Z),
        !final(cpu).registers.flag(Flag::N),
        !final(cpu).registers.flag(Flag::H),
        !final(cpu).registers.flag(Flag::C),
        old(cpu).registers.wf() ==> final(cpu).registers.wf(),
{
    let a = cpu.get_register(Register::A);
    let result = a ^ a;
    assert(a ^ a == 0) by (bit_vector);
    cpu.set_register(Register::A, result);
    proof {
        old(cpu).registers.lemma_set_then_get(Register::A, 0, Register::A);
    }
    cpu.set_multi_flags(if result == 0 { 1 } else { 0 }, 0, 0, 0);
    None
}

/// 0xE6: AND of the accumulator and an immediate, stored in the accumulator.
/// Zero is set if and only if the result is zero; Subtract is cleared,
/// Half-carry set and Carry cleared.
pub fn and_u8(cpu: &mut Cpu, opcode: u8, arg: u8) -> (exit: Option<u8>)
    ensures
        exit is None,
        final(cpu)@ == old(cpu)@.and_u8(arg),
        final(cpu).registers.get(Register::A) == old(cpu).registers.get(Register::A) & arg,
        final(cpu).registers.flag(Flag::Z) == (final(cpu).registers.get(Register::A) == 0),
        !final(cpu).registers.flag(Flag::N),
        final(cpu).registers.flag(Flag::H),
        !final(cpu).registers.flag(Flag::C),
        old(cpu).registers.wf() ==> final(cpu).registers.wf(),
{
    let result = cpu.get_register(Register::A) & arg;
    cpu.set_register(Register::A, result);
    proof {
        old(cpu).registers.lemma_set_then_get(Register::A, result, Register::A);
    }
    cpu.set_multi_flags(if result == 0 { 1 } else { 0 }, 0, 1, 0);
    None
}

/// 0xEA: stores the accumulator at the address `high`, `low`. Every address
/// can be written.
pub fn ld_a(cpu: &mut Cpu, opcode: u8, low: u8, high: u8) -> (exit: Option<u8>)
    ensures
        exit is None,
        final(cpu)@ == old(cpu)@.ld_a(low, high),
{
    let address = ((high as u16) << 8) | (low as u16);
    let a = cpu.get_register(Register::A);
    cpu.write(address, a);
    None
}

/// 0xE0: stores the accumulator in the page at 0xFF00, at offset `arg`.
pub fn ld_a8_a(cpu: &mut Cpu, opcode: u8, arg: u8) -> (exit: Option<u8>)
    ensures
        exit is None,
        final(cpu)@ == old(cpu)@.ld_a8_a(arg),
{
    let address = ((0xFFu8 as u16) << 8) | (arg as u16);
    let a = cpu.get_register(Register::A);
    cpu.write(address, a);
    None
}

/// 0x3E: loads an immediate into the accumulator.
pub fn ld_a_u8(cpu: &mut Cpu, opcode: u8, arg: u8) -> (exit: Option<u8>)
    ensures
        exit is None,
        final(cpu)@ == old(cpu)@.ld_a_u8(arg),
        old(cpu).registers.wf() ==> final(cpu).registers.wf(),
{
    cpu.set_register(Register::A, arg);
    None
}

/// 0xF0: loads the accumulator from the last byte of the page whose high
/// address byte is `arg`.
pub fn ld_a_a(cpu: &mut Cpu, opcode: u8, arg: u8) -> (exit: Option<u8>)
    ensures
        exit is None,
        final(cpu)@ == old(cpu)@.ld_a_a(arg),
        old(cpu).registers.wf() ==> final(cpu).registers.wf(),
{
    let address = ((arg as u16) << 8) | (0xFFu8 as u16);
    let value = cpu.read(address);
    cpu.set_register(Register::A, value);
    None
}

/// 0x47: copies the accumulator into `B`.
pub fn ld_b_a(cpu: &mut Cpu, opcode: u8) -> (exit: Option<u8>)
    ensures
        exit is None,
        final(cpu)@ == old(cpu)@.ld_b_a(),
        old(cpu).registers.wf() ==> final(cpu).registers.wf(),
{
    cpu.load_inter_register(Register::B, Register::A);
    None
}

/// 0xF3: disables interrupts. A placeholder: nothing changes.
pub fn di(cpu: &mut Cpu, opcode: u8) -> (exit: Option<u8>)
    ensures
        exit is None,
        *final(cpu) == *old(cpu),
{
    None
}

/// 0xFB: enables interrupts. A placeholder: nothing changes.
pub fn ei(cpu: &mut Cpu, opcode: u8) -> (exit: Option<u8>)
    ensures
        exit is None,
        *final(cpu) == *old(cpu),
{
    None
}

/// 0x2F: replaces the accumulator by its one's complement.
pub fn cpl(cpu: &mut Cpu, opcode: u8) -> (exit: Option<u8>)
    ensures
        exit is None,
        final(cpu)@ == old(cpu)@.cpl(),
        old(cpu).registers.wf() ==> final(cpu).registers.wf(),
{
    let a = cpu.get_register(Register::A);
    cpu.set_register(Register::A, !a);
    None
}

/// 0xFE: compares the accumulator with an immediate. Zero is set if and only
/// if they are equal, and Subtract is set. Half-carry is set if and only if
/// both are 0x0F, Carry if and only if the immediate is not below the
/// accumulator. The accumulator keeps its value.
pub fn cp_a(cpu: &mut Cpu, opcode: u8, arg: u8) -> (exit: Option<u8>)
    ensures
        exit is None,
        final(cpu)@ == old(cpu)@.cp_a(arg),
        final(cpu).registers.get(Register::A) == old(cpu).registers.get(Register::A),
        final(cpu).registers.flag(Flag::Z) == (old(cpu).registers.get(Register::A) == arg),
        final(cpu).registers.flag(Flag::N),
        final(cpu).registers.flag(Flag::H) == (old(cpu).registers.get(Register::A) == arg && arg
            == 0x0F),
        final(cpu).registers.flag(Flag::C) == (arg >= old(cpu).registers.get(Register::A)),
        old(cpu).registers.wf() ==> final(cpu).registers.wf(),
{
    let a = cpu.get_register(Register::A);
    cpu.set_multi_flags(
        if a == arg { 1 } else { 0 },
        1,
        if a == arg && a == 0x0F { 1 } else { 0 },
        if arg >= a { 1 } else { 0 },
    );
    None
}

/// 0x28: relative jump, taken only where Zero is set.
pub fn jr_z(cpu: &mut Cpu, opcode: u8, arg: u8) -> (exit: Option<u8>)
    ensures
        exit is None,
        final(cpu)@ == old(cpu)@.jr_z(arg),
{
    if cpu.get_flag(Flag::Z) {
        cpu.registers.pc = cpu.registers.pc.wrapping_add(arg as u16);
    }
    None
}

/// 0x20: relative jump, taken only where Zero is clear.
pub fn jr_nz(cpu: &mut Cpu, opcode: u8, arg: u8) -> (exit: Option<u8>)
    ensures
        exit is None,
        final(cpu)@ == old(cpu)@.jr_nz(arg),
{
    if !cpu.get_flag(Flag::Z) {
        cpu.registers.pc = cpu.registers.pc.wrapping_add(arg as u16);
    }
    None
}

/// 0xCD: call. Pushes the program counter, high byte first, and jumps to the
/// address `high`, `low`.
pub fn call(cpu: &mut Cpu, opcode: u8, low: u8, high: u8) -> (exit: Option<u8>)
    ensures
        exit is None,
        final(cpu)@ == old(cpu)@.call(low, high),
{
    let pc = cpu.registers.pc;
    cpu.push_stack((pc >> 8) as u8);
    cpu.push_stack((pc & 0x00FF) as u8);
    cpu.registers.pc = (((high as u16) << 8) | (low as u16)).wrapping_sub(1);
    None
}

/// Resolves a sub-opcode of the extended space to a handler. Every
/// sub-opcode but 0x87 resolves to the fallback of the extended space.
pub fn match_prefixed_opcode(cpu: &mut Cpu, prefix: u8, ext_opcode: u8) -> (handler: Handler2)
    ensures
        handler == Handler2::decode_prefixed(ext_opcode),
        *final(cpu) == *old(cpu),
{
    match ext_opcode {
        0x87 => Handler2::CbRst0A,
        _ => Handler2::BadPrefixedOpcode,
    }
}

/// The fallback of the extended space: reports the sub-opcode as unknown.
pub fn bad_prefixed_opcode(cpu: &mut Cpu, prefix: u8, ext_opcode: u8) -> (exit: Option<u8>)
    ensures
        exit == Some(EXIT_UNKNOWN_PREFIXED),
        *final(cpu) == *old(cpu),
{
    Some(6)
}

/// 0xCB 0x87: clears the lowest bit of the accumulator.
pub fn cb_rst_0_a(cpu: &mut Cpu, prefix: u8, ext_opcode: u8) -> (exit: Option<u8>)
    ensures
        exit is None,
        final(cpu)@ == old(cpu)@.cb_rst_0_a(),
        old(cpu).registers.wf() ==> final(cpu).registers.wf(),
{
    let a = cpu.get_register(Register::A);
    cpu.set_register(Register::A, a & 0xFE);
    None
}

/// A call followed by two pops undoes what the call did to the stack: the
/// first pop gives back the low byte of the program counter that the call
/// pushed, the second its high byte, and the stack pointer is then what it
/// was before the call. This holds for every stack pointer, those at the two
/// ends of the address space too, where the stack pointer wraps round.
pub proof fn lemma_call_then_pop(state: CpuState, low: u8, high: u8)
    requires
        state.wf(),
    ensures
        ({
            let called = state.call(low, high);
            let (first, popped_low) = called.pop_stack();
            let (second, popped_high) = first.pop_stack();
            &&& popped_low == low_byte(state.registers.pc)
            &&& popped_high == high_byte(state.registers.pc)
            &&& join_bytes(popped_high, popped_low) == state.registers.pc
            &&& second.registers.sp == state.registers.sp
            &&& second.registers.pc == join_bytes(high, low).wrapping_sub(1)
        }),
{
    lemma_pair_halves(state.registers.pc, 0);
}

/// A byte that was pushed is the byte that the next pop gives back, and the
/// stack pointer is then what it was before the push, whatever it was.
pub proof fn lemma_push_then_pop(state: CpuState, data: u8)
    requires
        state.wf(),
    ensures
        state.push_stack(data).pop_stack().1 == data,
        state.push_stack(data).pop_stack().0.registers == state.registers,
{
}

/// Every opcode that a decoder resolves to a handler of its own has the
/// length that the decoder is for, so that dispatch by length reaches every
/// handler.
pub proof fn lemma_handlers_match_lengths(opcode: u8, arg: u8)
    ensures
        Handler1::decode(opcode) != Handler1::BadOpcode ==> instruction_len_spec(opcode) == 1,
        Handler2::decode(opcode, arg) != Handler2::BadOpcode ==> instruction_len_spec(opcode)
            == 2,
        Handler3::decode(opcode) != Handler3::BadOpcode ==> instruction_len_spec(opcode) == 3,
{
}

/// An opcode that neither halts nor is illegal is dispatched to exactly one
/// handler: the one that the decoder for its length resolves it to, run on
/// the cached operand bytes.
pub proof fn lemma_execute_dispatches_by_length(state: CpuState, opcode: u8)
    requires
        opcode != STOP_OPCODE,
        !is_illegal_opcode(opcode),
    ensures
        instruction_len_spec(opcode) == 1 ==> state.execute(opcode) == Handler1::decode(
            opcode,
        ).run_spec(state),
        instruction_len_spec(opcode) == 2 ==> state.execute(opcode) == Handler2::decode(
            opcode,
            state.cache[0],
        ).run_spec(state, state.cache[0]),
        instruction_len_spec(opcode) == 3 ==> state.execute(opcode) == Handler3::decode(
            opcode,
        ).run_spec(state, state.cache[0], state.cache[1]),
{
}

} // verus!
