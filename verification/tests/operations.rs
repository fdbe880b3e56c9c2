use gameboy_core::component::cpu::{Cpu, Flag, Registers};
use gameboy_core::lookups::instruction_len;
use gameboy_core::cpu::operations::{
    and_u8, bad_opcode1, bad_opcode2, bad_opcode3, bad_prefixed_opcode, call, cb_rst_0_a, cp_a,
    cpl, di, ei, inst_len1, inst_len2, inst_len3, jp, jr, jr_nz, jr_z, ld_a, ld_a8_a, ld_a_a,
    ld_a_u8, ld_b_a, match_prefixed_opcode, nop, xor_a, Handler1, Handler2, Handler3,
};

fn flags(cpu: &Cpu) -> (bool, bool, bool, bool) {
    (cpu.get_flag(Flag::Z), cpu.get_flag(Flag::N), cpu.get_flag(Flag::H), cpu.get_flag(Flag::C))
}

#[test]
fn xor_a_zeroes_every_accumulator_value() {
    for a in 0..=255u16 {
        for f in [0x00u16, 0xF0, 0x50, 0xA0] {
            let mut cpu = Cpu::new();
            cpu.registers.af = (a << 8) | f;
            assert_eq!(xor_a(&mut cpu, 0xAF), None);
            assert_eq!(cpu.registers.af, 0x0080);
            assert_eq!(flags(&cpu), (true, false, false, false));
            assert_eq!(cpu.registers.bc, 0x0014);
            assert_eq!(cpu.registers.pc, 0x00FF);
        }
    }
}

#[test]
fn and_u8_sets_the_flags() {
    let mut cpu = Cpu::new();
    cpu.registers.af = 0x5AD0;
    assert_eq!(and_u8(&mut cpu, 0xE6, 0x0F), None);
    assert_eq!(cpu.registers.af, 0x0A20);
    assert_eq!(flags(&cpu), (false, false, true, false));

    cpu.registers.af = 0xF0D0;
    assert_eq!(and_u8(&mut cpu, 0xE6, 0x0F), None);
    assert_eq!(cpu.registers.af, 0x00A0);
    assert_eq!(flags(&cpu), (true, false, true, false));
}

#[test]
fn and_u8_zero_flag_for_every_pair() {
    for a in 0..=255u8 {
        for arg in [0x00u8, 0x01, 0x0F, 0x55, 0x80, 0xAA, 0xFF] {
            let mut cpu = Cpu::new();
            cpu.registers.af = (a as u16) << 8;
            and_u8(&mut cpu, 0xE6, arg);
            assert_eq!(cpu.registers.af >> 8, (a & arg) as u16);
            assert_eq!(flags(&cpu), ((a & arg) == 0, false, true, false));
        }
    }
}

#[test]
fn cp_a_flags() {
    let mut cpu = Cpu::new();
    cpu.registers.af = 0x4200;
    assert_eq!(cp_a(&mut cpu, 0xFE, 0x42), None);
    assert_eq!(flags(&cpu), (true, true, false, true));
    assert_eq!(cpu.registers.af, 0x42D0);

    cpu.registers.af = 0x0F00;
    cp_a(&mut cpu, 0xFE, 0x0F);
    assert_eq!(flags(&cpu), (true, true, true, true));
    assert_eq!(cpu.registers.af, 0x0FF0);

    cpu.registers.af = 0x10F0;
    cp_a(&mut cpu, 0xFE, 0x20);
    assert_eq!(flags(&cpu), (false, true, false, true));
    assert_eq!(cpu.registers.af, 0x1050);

    cpu.registers.af = 0x20F0;
    cp_a(&mut cpu, 0xFE, 0x10);
    assert_eq!(flags(&cpu), (false, true, false, false));
    assert_eq!(cpu.registers.af, 0x2040);

    cpu.registers.af = 0x0F00;
    cp_a(&mut cpu, 0xFE, 0x0E);
    assert_eq!(flags(&cpu), (false, true, false, false));
}

#[test]
fn jr_adds_the_unsigned_displacement() {
    let mut cpu = Cpu::new();
    cpu.registers.pc = 0x0150;
    assert_eq!(jr(&mut cpu, 0x18, 0x10), None);
    assert_eq!(cpu.registers.pc, 0x0160);
    assert_eq!(jr(&mut cpu, 0x18, 0xFE), None);
    assert_eq!(cpu.registers.pc, 0x025E);
    assert_eq!(jr(&mut cpu, 0x18, 0x00), None);
    assert_eq!(cpu.registers.pc, 0x025E);
}

#[test]
fn jr_wraps_round_the_address_space() {
    let mut cpu = Cpu::new();
    cpu.registers.pc = 0xFFF0;
    jr(&mut cpu, 0x18, 0x20);
    assert_eq!(cpu.registers.pc, 0x0010);
    cpu.registers.pc = 0xFFFF;
    jr(&mut cpu, 0x18, 0x01);
    assert_eq!(cpu.registers.pc, 0x0000);
}

#[test]
fn jr_z_and_jr_nz_follow_the_zero_flag() {
    let mut cpu = Cpu::new();
    cpu.registers.pc = 0x0200;
    cpu.registers.af = 0x0080;
    assert_eq!(jr_z(&mut cpu, 0x28, 0x05), None);
    assert_eq!(cpu.registers.pc, 0x0205);
    assert_eq!(jr_nz(&mut cpu, 0x20, 0x05), None);
    assert_eq!(cpu.registers.pc, 0x0205);
    cpu.registers.af = 0x0070;
    assert_eq!(jr_z(&mut cpu, 0x28, 0x05), None);
    assert_eq!(cpu.registers.pc, 0x0205);
    assert_eq!(jr_nz(&mut cpu, 0x20, 0x05), None);
    assert_eq!(cpu.registers.pc, 0x020A);
    assert_eq!(cpu.registers.af, 0x0070);
}

#[test]
fn jp_stores_the_address_before_the_target() {
    let mut cpu = Cpu::new();
    assert_eq!(jp(&mut cpu, 0xC3, 0x34, 0x12), None);
    assert_eq!(cpu.registers.pc, 0x1233);
    jp(&mut cpu, 0xC3, 0x00, 0x00);
    assert_eq!(cpu.registers.pc, 0xFFFF);
    jp(&mut cpu, 0xC3, 0x50, 0x01);
    assert_eq!(cpu.registers.pc, 0x014F);
    assert_eq!(cpu.registers.sp, 0xFFFE);
}

#[test]
fn call_pushes_the_program_counter_high_byte_first() {
    let mut cpu = Cpu::new();
    cpu.registers.pc = 0x0152;
    cpu.registers.sp = 0xFFFE;
    assert_eq!(call(&mut cpu, 0xCD, 0x00, 0x40), None);
    assert_eq!(cpu.registers.sp, 0xFFFC);
    assert_eq!(cpu.memory[0xFFFD], 0x01);
    assert_eq!(cpu.memory[0xFFFC], 0x52);
    assert_eq!(cpu.registers.pc, 0x3FFF);
}

#[test]
fn call_then_pop_restores_the_program_counter() {
    for sp in [0x0000u16, 0x0001, 0x0002, 0x0003, 0x8000, 0xFFFD, 0xFFFE, 0xFFFF] {
        for pc in [0x0000u16, 0x0102, 0x0152, 0x1234, 0xABCD, 0xFFFF] {
            let mut cpu = Cpu::new();
            cpu.registers.pc = pc;
            cpu.registers.sp = sp;
            call(&mut cpu, 0xCD, 0x78, 0x56);
            assert_eq!(cpu.registers.pc, 0x5677);
            assert_eq!(cpu.registers.sp, sp.wrapping_sub(2));
            let low = cpu.pop_stack();
            let high = cpu.pop_stack();
            assert_eq!(((high as u16) << 8) | (low as u16), pc);
            assert_eq!(cpu.registers.sp, sp);
        }
    }
}

#[test]
fn call_with_the_stack_pointer_at_one() {
    let mut cpu = Cpu::new();
    cpu.registers.pc = 0x0102;
    cpu.registers.sp = 0x0001;
    cpu.cache.push(0x34);
    cpu.cache.push(0x12);
    assert_eq!(cpu.execute(0xCD), None);
    assert_eq!(cpu.registers.pc, 0x1233);
    assert_eq!(cpu.registers.sp, 0xFFFF);
    assert_eq!(cpu.memory[0x0000], 0x01);
    assert_eq!(cpu.memory[0xFFFF], 0x02);
    let low = cpu.pop_stack();
    assert_eq!(cpu.registers.sp, 0x0000);
    let high = cpu.pop_stack();
    assert_eq!((low, high), (0x02, 0x01));
    assert_eq!(cpu.registers.sp, 0x0001);
}

#[test]
fn ld_a_stores_the_accumulator() {
    let mut cpu = Cpu::new();
    cpu.registers.af = 0x9900;
    assert_eq!(ld_a(&mut cpu, 0xEA, 0x34, 0xC2), None);
    assert_eq!(cpu.memory[0xC234], 0x99);
    assert_eq!(ld_a(&mut cpu, 0xEA, 0x00, 0x00), None);
    assert_eq!(cpu.memory[0x0000], 0x99);
    assert_eq!(cpu.memory.iter().filter(|byte| **byte != 0).count(), 2);
    assert_eq!(cpu.registers, Registers { af: 0x9900, ..Registers::new() });
}

#[test]
fn ld_a8_a_stores_in_the_high_page() {
    let mut cpu = Cpu::new();
    cpu.registers.af = 0x4500;
    assert_eq!(ld_a8_a(&mut cpu, 0xE0, 0x80), None);
    assert_eq!(cpu.memory[0xFF80], 0x45);
    ld_a8_a(&mut cpu, 0xE0, 0x00);
    assert_eq!(cpu.memory[0xFF00], 0x45);
    ld_a8_a(&mut cpu, 0xE0, 0xFF);
    assert_eq!(cpu.memory[0xFFFF], 0x45);
    assert_eq!(cpu.memory.iter().filter(|byte| **byte != 0).count(), 3);
}

#[test]
fn ld_a_u8_loads_the_immediate() {
    let mut cpu = Cpu::new();
    cpu.registers.af = 0xF0B0;
    assert_eq!(ld_a_u8(&mut cpu, 0x3E, 0x0F), None);
    assert_eq!(cpu.registers.af, 0x0FB0);
    ld_a_u8(&mut cpu, 0x3E, 0x00);
    assert_eq!(cpu.registers.af, 0x00B0);
}

#[test]
fn ld_a_a_loads_from_the_end_of_a_page() {
    let mut cpu = Cpu::new();
    cpu.memory[0x12FF] = 0x6B;
    cpu.memory[0xFF12] = 0x01;
    cpu.registers.af = 0x00C0;
    assert_eq!(ld_a_a(&mut cpu, 0xF0, 0x12), None);
    assert_eq!(cpu.registers.af, 0x6BC0);
    cpu.memory[0x00FF] = 0x2A;
    ld_a_a(&mut cpu, 0xF0, 0x00);
    assert_eq!(cpu.registers.af, 0x2AC0);
}

#[test]
fn ld_b_a_copies_the_accumulator() {
    let mut cpu = Cpu::new();
    cpu.registers.af = 0x3C40;
    cpu.registers.bc = 0xFF14;
    assert_eq!(ld_b_a(&mut cpu, 0x47), None);
    assert_eq!(cpu.registers.bc, 0x3C14);
    assert_eq!(cpu.registers.af, 0x3C40);
}

#[test]
fn cpl_complements_the_accumulator() {
    let mut cpu = Cpu::new();
    cpu.registers.af = 0x35A0;
    assert_eq!(cpl(&mut cpu, 0x2F), None);
    assert_eq!(cpu.registers.af, 0xCAA0);
    assert_eq!(cpl(&mut cpu, 0x2F), None);
    assert_eq!(cpu.registers.af, 0x35A0);
}

#[test]
fn cb_rst_0_a_clears_the_lowest_accumulator_bit() {
    let mut cpu = Cpu::new();
    cpu.registers.af = 0xFFF0;
    assert_eq!(cb_rst_0_a(&mut cpu, 0xCB, 0x87), None);
    assert_eq!(cpu.registers.af, 0xFEF0);
    assert_eq!(cb_rst_0_a(&mut cpu, 0xCB, 0x87), None);
    assert_eq!(cpu.registers.af, 0xFEF0);
    cpu.registers.af = 0x0100;
    cb_rst_0_a(&mut cpu, 0xCB, 0x87);
    assert_eq!(cpu.registers.af, 0x0000);
}

#[test]
fn placeholders_change_nothing() {
    let mut cpu = Cpu::new();
    cpu.registers.af = 0x12F0;
    cpu.memory[0x4000] = 9;
    cpu.cache.push(1);
    assert_eq!(nop(&mut cpu, 0x00), None);
    assert_eq!(di(&mut cpu, 0xF3), None);
    assert_eq!(ei(&mut cpu, 0xFB), None);
    assert_eq!(cpu.registers, Registers { af: 0x12F0, ..Registers::new() });
    assert_eq!(cpu.memory[0x4000], 9);
    assert_eq!(cpu.cache, vec![1]);
}

#[test]
fn fallbacks_report_their_exit_codes() {
    let mut cpu = Cpu::new();
    assert_eq!(bad_opcode1(&mut cpu, 0x01), Some(3));
    assert_eq!(bad_opcode2(&mut cpu, 0x06, 0x00), Some(3));
    assert_eq!(bad_opcode3(&mut cpu, 0x01, 0x00, 0x00), Some(3));
    assert_eq!(bad_prefixed_opcode(&mut cpu, 0xCB, 0x00), Some(6));
    assert_eq!(cpu.registers, Registers::new());
}

#[test]
fn inst_len1_resolves_the_handlers() {
    let mut cpu = Cpu::new();
    assert_eq!(inst_len1(&mut cpu, 0x00), Handler1::Nop);
    assert_eq!(inst_len1(&mut cpu, 0xAF), Handler1::XorA);
    assert_eq!(inst_len1(&mut cpu, 0xF3), Handler1::Di);
    assert_eq!(inst_len1(&mut cpu, 0xFB), Handler1::Ei);
    assert_eq!(inst_len1(&mut cpu, 0x47), Handler1::LdBA);
    assert_eq!(inst_len1(&mut cpu, 0x2F), Handler1::Cpl);
    assert_eq!(inst_len1(&mut cpu, 0x01), Handler1::BadOpcode);
    assert_eq!(inst_len1(&mut cpu, 0x76), Handler1::BadOpcode);
    assert_eq!(inst_len1(&mut cpu, 0xFF), Handler1::BadOpcode);
}

#[test]
fn inst_len2_resolves_the_handlers() {
    let mut cpu = Cpu::new();
    assert_eq!(inst_len2(&mut cpu, 0xFE, 0), Handler2::CpA);
    assert_eq!(inst_len2(&mut cpu, 0x28, 0), Handler2::JrZ);
    assert_eq!(inst_len2(&mut cpu, 0x18, 0), Handler2::Jr);
    assert_eq!(inst_len2(&mut cpu, 0x20, 0), Handler2::JrNz);
    assert_eq!(inst_len2(&mut cpu, 0xE0, 0), Handler2::LdA8A);
    assert_eq!(inst_len2(&mut cpu, 0x3E, 0), Handler2::LdAU8);
    assert_eq!(inst_len2(&mut cpu, 0xE6, 0), Handler2::AndU8);
    assert_eq!(inst_len2(&mut cpu, 0xF0, 0), Handler2::LdAA);
    assert_eq!(inst_len2(&mut cpu, 0xCB, 0x87), Handler2::CbRst0A);
    assert_eq!(inst_len2(&mut cpu, 0xCB, 0x86), Handler2::BadPrefixedOpcode);
    assert_eq!(inst_len2(&mut cpu, 0x06, 0x87), Handler2::BadOpcode);
    assert_eq!(inst_len2(&mut cpu, 0x30, 0), Handler2::BadOpcode);
}

#[test]
fn inst_len3_resolves_the_handlers() {
    let mut cpu = Cpu::new();
    assert_eq!(inst_len3(&mut cpu, 0xC3, 0, 0), Handler3::Jp);
    assert_eq!(inst_len3(&mut cpu, 0xEA, 0, 0), Handler3::LdA);
    assert_eq!(inst_len3(&mut cpu, 0xCD, 0, 0), Handler3::Call);
    assert_eq!(inst_len3(&mut cpu, 0x01, 0, 0), Handler3::BadOpcode);
    assert_eq!(inst_len3(&mut cpu, 0xC2, 0, 0), Handler3::BadOpcode);
}

#[test]
fn match_prefixed_opcode_has_one_handler() {
    let mut cpu = Cpu::new();
    for ext_opcode in 0..=255u8 {
        let expected =
            if ext_opcode == 0x87 { Handler2::CbRst0A } else { Handler2::BadPrefixedOpcode };
        assert_eq!(match_prefixed_opcode(&mut cpu, 0xCB, ext_opcode), expected);
    }
}

#[test]
fn handlers_run_their_functions() {
    let mut cpu = Cpu::new();
    cpu.registers.af = 0x5500;
    assert_eq!(Handler1::Cpl.run(&mut cpu, 0x2F), None);
    assert_eq!(cpu.registers.af, 0xAA00);
    assert_eq!(Handler1::BadOpcode.run(&mut cpu, 0x01), Some(3));
    assert_eq!(Handler2::LdAU8.run(&mut cpu, 0x3E, 0x77), None);
    assert_eq!(cpu.registers.af, 0x7700);
    assert_eq!(Handler2::BadPrefixedOpcode.run(&mut cpu, 0xCB, 0x00), Some(6));
    assert_eq!(Handler2::BadOpcode.run(&mut cpu, 0x06, 0x00), Some(3));
    assert_eq!(Handler3::Jp.run(&mut cpu, 0xC3, 0x00, 0x02), None);
    assert_eq!(cpu.registers.pc, 0x01FF);
    assert_eq!(Handler3::BadOpcode.run(&mut cpu, 0x01, 0, 0), Some(3));
}

#[test]
fn decoders_agree_with_the_length_table() {
    let mut cpu = Cpu::new();
    let mut with_handler = 0;
    for opcode in 0..=255u8 {
        if inst_len1(&mut cpu, opcode) != Handler1::BadOpcode {
            assert_eq!(instruction_len(&opcode), 1);
            with_handler += 1;
        }
        if inst_len2(&mut cpu, opcode, 0x87) != Handler2::BadOpcode {
            assert_eq!(instruction_len(&opcode), 2);
            with_handler += 1;
        }
        if inst_len3(&mut cpu, opcode, 0, 0) != Handler3::BadOpcode {
            assert_eq!(instruction_len(&opcode), 3);
            with_handler += 1;
        }
    }
    assert_eq!(with_handler, 6 + 9 + 3);
}
