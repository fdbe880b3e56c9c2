//! The tables of the machine: cartridge types, instruction lengths,
//! mnemonics and exit codes.

use vstd::prelude::*;

verus! {

/// What a cartridge-type byte stands for: the controller's name, the number of
/// ROM banks, the number of RAM banks, whether a battery is present and whether
/// a timer is present. Every byte outside the table stands for the `INVALID`
/// entry.
pub open spec fn mbc_type_spec(byte: u8) -> (&'static str, u16, u8, bool, bool) {
    match byte {
        0x00 => ("ROM ONLY", 1, 0, false, false),
        0x01 => ("MBC1", 128, 0, false, false),
        0x02 => ("MBC1 + RAM", 128, 4, false, false),
        0x03 => ("MBC1 + RAM + Battery", 128, 4, true, false),
        0x05 => ("MBC2", 16, 255, false, false),
        0x06 => ("MBC2 + Battery", 16, 255, false, false),
        0x0F => ("MBC3 + Battery + Timer", 128, 0, true, true),
        0x10 => ("MBC3 + RAM + Battery + Timer", 128, 4, true, true),
        0x11 => ("MBC3", 128, 0, false, false),
        0x12 => ("MBC3 + RAM", 128, 4, false, false),
        0x13 => ("MBC3 + RAM + Battery", 128, 4, true, false),
        0x19 => ("MBC5", 512, 16, false, false),
        0x1A => ("MBC5 + RAM", 512, 0, false, false),
        0x1B => ("MBC5 + RAM + Battery", 512, 16, true, false),
        _ => ("INVALID", 0, 0, false, false),
    }
}

/// Whether a cartridge-type byte has an entry of its own in the table.
pub open spec fn mbc_type_known(byte: u8) -> bool {
    byte <= 0x03 || byte == 0x05 || byte == 0x06 || (0x0F <= byte <= 0x13) || (0x19 <= byte <= 0x1B)
}

/// Looks a cartridge-type byte up in the closed table of memory bank
/// controllers.
pub fn mbc_type(byte: u8) -> (r: (&'static str, u16, u8, bool, bool))
    ensures
        r == mbc_type_spec(byte),
        !mbc_type_known(byte) ==> r == ("INVALID", 0u16, 0u8, false, false),
{
    match byte {
        0x00 => ("ROM ONLY", 1, 0, false, false),
        0x01 => ("MBC1", 128, 0, false, false),
        0x02 => ("MBC1 + RAM", 128, 4, false, false),
        0x03 => ("MBC1 + RAM + Battery", 128, 4, true, false),
        0x05 => ("MBC2", 16, 255, false, false),
        0x06 => ("MBC2 + Battery", 16, 255, false, false),
        0x0F => ("MBC3 + Battery + Timer", 128, 0, true, true),
        0x10 => ("MBC3 + RAM + Battery + Timer", 128, 4, true, true),
        0x11 => ("MBC3", 128, 0, false, false),
        0x12 => ("MBC3 + RAM", 128, 4, false, false),
        0x13 => ("MBC3 + RAM + Battery", 128, 4, true, false),
        0x19 => ("MBC5", 512, 16, false, false),
        0x1A => ("MBC5 + RAM", 512, 0, false, false),
        0x1B => ("MBC5 + RAM + Battery", 512, 16, true, false),
        _ => ("INVALID", 0, 0, false, false),
    }
}

/// The opcode that selects the extended instruction space; the byte after it
/// is the sub-opcode.
pub const PREFIX_OPCODE: u8 = 0xCB;

/// The opcode that halts the machine cleanly.
pub const STOP_OPCODE: u8 = 0x10;

/// Exit code of a clean halt.
pub const EXIT_OK: u8 = 0;

/// Exit code of a general error.
pub const EXIT_GENERAL_ERROR: u8 = 1;

/// Exit code of an opcode that is valid but has no handler yet.
pub const EXIT_UNIMPLEMENTED: u8 = 3;

/// Exit code of an opcode that is never valid on this processor.
pub const EXIT_ILLEGAL: u8 = 4;

/// Exit code of a sub-opcode of the extended space that has no handler.
pub const EXIT_UNKNOWN_PREFIXED: u8 = 6;

/// The byte values that are never a valid opcode on this processor.
pub open spec fn is_illegal_opcode(opcode: u8) -> bool {
    opcode == 0xD3 || opcode == 0xDB || opcode == 0xDD || opcode == 0xE3 || opcode == 0xE4
        || opcode == 0xEB || opcode == 0xEC || opcode == 0xED || opcode == 0xF4 || opcode == 0xFC
        || opcode == 0xFD
}

/// The canonical length in bytes of the instruction that `opcode` starts:
/// the opcode itself and its operand bytes.
pub open spec fn instruction_len_spec(opcode: u8) -> u8 {
    match opcode {
        0x06 | 0x0E | 0x16 | 0x18 | 0x1E | 0x20 | 0x26 | 0x28 | 0x2E | 0x30 | 0x36 | 0x38 | 0x3E
        | 0xC6 | 0xCB | 0xCE | 0xD6 | 0xDE | 0xE0 | 0xE6 | 0xE8 | 0xEE | 0xF0 | 0xF6 | 0xF8
        | 0xFE => 2,
        0x01 | 0x08 | 0x11 | 0x21 | 0x31 | 0xC2 | 0xC3 | 0xC4 | 0xCA | 0xCC | 0xCD | 0xD2 | 0xD4
        | 0xDA | 0xDC | 0xEA | 0xFA => 3,
        _ => 1,
    }
}

/// The length table of the primary opcode space. No opcode resolves to a
/// length outside 1, 2 and 3.
pub fn instruction_len(opcode: &u8) -> (len: u8)
    ensures
        len == instruction_len_spec(*opcode),
        1 <= len <= 3,
{
    match *opcode {
        0x06 | 0x0E | 0x16 | 0x18 | 0x1E | 0x20 | 0x26 | 0x28 | 0x2E | 0x30 | 0x36 | 0x38 | 0x3E
        | 0xC6 | 0xCB | 0xCE | 0xD6 | 0xDE | 0xE0 | 0xE6 | 0xE8 | 0xEE | 0xF0 | 0xF6 | 0xF8
        | 0xFE => 2,
        0x01 | 0x08 | 0x11 | 0x21 | 0x31 | 0xC2 | 0xC3 | 0xC4 | 0xCA | 0xCC | 0xCD | 0xD2 | 0xD4
        | 0xDA | 0xDC | 0xEA | 0xFA => 3,
        _ => 1,
    }
}

/// The length in bytes of every instruction of the extended space: the prefix
/// byte and the sub-opcode.
pub open spec fn prefixed_instruction_len_spec(sub_opcode: u8) -> u8 {
    2
}

/// The length table of the extended opcode space.
pub fn prefixed_instruction_len(sub_opcode: &u8) -> (len: u8)
    ensures
        len == prefixed_instruction_len_spec(*sub_opcode),
        len == instruction_len_spec(PREFIX_OPCODE),
{
    2
}

/// The fixed label of an exit code. Codes outside the vocabulary are
/// `Undefined`.
pub open spec fn exit_label(exit_code: u8) -> &'static str {
    match exit_code {
        0 => "Ok",
        1 => "General error",
        3 => "Unimplemented opcode",
        4 => "Unknown opcode",
        6 => "Unknown prefixed opcode",
        _ => "Undefined",
    }
}

/// Names an exit code for the operator.
pub fn exit_codes(exit_code: u8) -> (label: &'static str)
    ensures
        label == exit_label(exit_code),
{
    match exit_code {
        0 => "Ok",
        1 => "General error",
        3 => "Unimplemented opcode",
        4 => "Unknown opcode",
        6 => "Unknown prefixed opcode",
        _ => "Undefined",
    }
}

/// Opcode master list: for each opcode of the primary space, the opcode, its
/// mnemonic and its length in bytes.
pub const GRAND_OPCODE: [(u8, &'static str, u8); 256] = [
    (0x00, "NOP", 1),
    (0x01, "LD", 3),
    (0x02, "LD", 1),
    (0x03, "INC", 1),
    (0x04, "INC", 1),
    (0x05, "DEC", 1),
    (0x06, "LD", 2),
    (0x07, "RLCA", 1),
    (0x08, "LD", 3),
    (0x09, "ADD", 1),
    (0x0A, "LD", 1),
    (0x0B, "DEC", 1),
    (0x0C, "INC", 1),
    (0x0D, "DEC", 1),
    (0x0E, "LD", 2),
    (0x0F, "RRCA", 1),
    (0x10, "STOP", 1),
    (0x11, "LD", 3),
    (0x12, "LD", 1),
    (0x13, "INC", 1),
    (0x14, "INC", 1),
    (0x15, "DEC", 1),
    (0x16, "LD", 2),
    (0x17, "RLA", 1),
    (0x18, "JR", 2),
    (0x19, "ADD", 1),
    (0x1A, "LD", 1),
    (0x1B, "DEC", 1),
    (0x1C, "INC", 1),
    (0x1D, "DEC", 1),
    (0x1E, "LD", 2),
    (0x1F, "RRA", 1),
    (0x20, "JR_NZ", 2),
    (0x21, "LD", 3),
    (0x22, "LD", 1),
    (0x23, "INC", 1),
    (0x24, "INC", 1),
    (0x25, "DEC", 1),
    (0x26, "LD", 2),
    (0x27, "DAA", 1),
    (0x28, "JR_Z", 2),
    (0x29, "ADD", 1),
    (0x2A, "LD", 1),
    (0x2B, "DEC", 1),
    (0x2C, "INC", 1),
    (0x2D, "DEC", 1),
    (0x2E, "LD", 2),
    (0x2F, "CPL", 1),
    (0x30, "JR_NC", 2),
    (0x31, "LD", 3),
    (0x32, "LD", 1),
    (0x33, "INC", 1),
    (0x34, "INC", 1),
    (0x35, "DEC", 1),
    (0x36, "LD", 2),
    (0x37, "SCF", 1),
    (0x38, "JR_C", 2),
    (0x39, "ADD", 1),
    (0x3A, "LD", 1),
    (0x3B, "DEC", 1),
    (0x3C, "INC", 1),
    (0x3D, "DEC", 1),
    (0x3E, "LD_A_8", 2),
    (0x3F, "CCF", 1),
    (0x40, "LD", 1),
    (0x41, "LD", 1),
    (0x42, "LD", 1),
    (0x43, "LD", 1),
    (0x44, "LD", 1),
    (0x45, "LD", 1),
    (0x46, "LD", 1),
    (0x47, "LD", 1),
    (0x48, "LD", 1),
    (0x49, "LD", 1),
    (0x4A, "LD", 1),
    (0x4B, "LD", 1),
    (0x4C, "LD", 1),
    (0x4D, "LD", 1),
    (0x4E, "LD", 1),
    (0x4F, "LD", 1),
    (0x50, "LD", 1),
    (0x51, "LD", 1),
    (0x52, "LD", 1),
    (0x53, "LD", 1),
    (0x54, "LD", 1),
    (0x55, "LD", 1),
    (0x56, "LD", 1),
    (0x57, "LD", 1),
    (0x58, "LD", 1),
    (0x59, "LD", 1),
    (0x5A, "LD", 1),
    (0x5B, "LD", 1),
    (0x5C, "LD", 1),
    (0x5D, "LD", 1),
    (0x5E, "LD", 1),
    (0x5F, "LD", 1),
    (0x60, "LD", 1),
    (0x61, "LD", 1),
    (0x62, "LD", 1),
    (0x63, "LD", 1),
    (0x64, "LD", 1),
    (0x65, "LD", 1),
    (0x66, "LD", 1),
    (0x67, "LD", 1),
    (0x68, "LD", 1),
    (0x69, "LD", 1),
    (0x6A, "LD", 1),
    (0x6B, "LD", 1),
    (0x6C, "LD", 1),
    (0x6D, "LD", 1),
    (0x6E, "LD", 1),
    (0x6F, "LD", 1),
    (0x70, "LD", 1),
    (0x71, "LD", 1),
    (0x72, "LD", 1),
    (0x73, "LD", 1),
    (0x74, "LD", 1),
    (0x75, "LD", 1),
    (0x76, "HALT", 1),
    (0x77, "LD", 1),
    (0x78, "LD", 1),
    (0x79, "LD", 1),
    (0x7A, "LD", 1),
    (0x7B, "LD", 1),
    (0x7C, "LD", 1),
    (0x7D, "LD", 1),
    (0x7E, "LD", 1),
    (0x7F, "LD", 1),
    (0x80, "ADD", 1),
    (0x81, "ADD", 1),
    (0x82, "ADD", 1),
    (0x83, "ADD", 1),
    (0x84, "ADD", 1),
    (0x85, "ADD", 1),
    (0x86, "ADD", 1),
    (0x87, "ADD", 1),
    (0x88, "ADC", 1),
    (0x89, "ADC", 1),
    (0x8A, "ADC", 1),
    (0x8B, "ADC", 1),
    (0x8C, "ADC", 1),
    (0x8D, "ADC", 1),
    (0x8E, "ADC", 1),
    (0x8F, "ADC", 1),
    (0x90, "SUB", 1),
    (0x91, "SUB", 1),
    (0x92, "SUB", 1),
    (0x93, "SUB", 1),
    (0x94, "SUB", 1),
    (0x95, "SUB", 1),
    (0x96, "SUB", 1),
    (0x97, "SUB", 1),
    (0x98, "SBC", 1),
    (0x99, "SBC", 1),
    (0x9A, "SBC", 1),
    (0x9B, "SBC", 1),
    (0x9C, "SBC", 1),
    (0x9D, "SBC", 1),
    (0x9E, "SBC", 1),
    (0x9F, "SBC", 1),
    (0xA0, "AND", 1),
    (0xA1, "AND", 1),
    (0xA2, "AND", 1),
    (0xA3, "AND", 1),
    (0xA4, "AND", 1),
    (0xA5, "AND", 1),
    (0xA6, "AND", 1),
    (0xA7, "AND", 1),
    (0xA8, "XOR", 1),
    (0xA9, "XOR", 1),
    (0xAA, "XOR", 1),
    (0xAB, "XOR", 1),
    (0xAC, "XOR", 1),
    (0xAD, "XOR", 1),
    (0xAE, "XOR", 1),
    (0xAF, "XOR_A", 1),
    (0xB0, "OR", 1),
    (0xB1, "OR", 1),
    (0xB2, "OR", 1),
    (0xB3, "OR", 1),
    (0xB4, "OR", 1),
    (0xB5, "OR", 1),
    (0xB6, "OR", 1),
    (0xB7, "OR", 1),
    (0xB8, "CP", 1),
    (0xB9, "CP", 1),
    (0xBA, "CP", 1),
    (0xBB, "CP", 1),
    (0xBC, "CP", 1),
    (0xBD, "CP", 1),
    (0xBE, "CP", 1),
    (0xBF, "CP", 1),
    (0xC0, "RET", 1),
    (0xC1, "POP", 1),
    (0xC2, "JP", 3),
    (0xC3, "JP", 3),
    (0xC4, "CALL", 3),
    (0xC5, "PUSH", 1),
    (0xC6, "ADD", 2),
    (0xC7, "RST", 1),
    (0xC8, "RET", 1),
    (0xC9, "RET", 1),
    (0xCA, "JP", 3),
    (0xCB, "PRFIX", 2),
    (0xCC, "CALL", 3),
    (0xCD, "CALL", 3),
    (0xCE, "ADC", 2),
    (0xCF, "RST", 1),
    (0xD0, "RET", 1),
    (0xD1, "POP", 1),
    (0xD2, "JP", 3),
    (0xD3, "ILLEGAL_D3", 1),
    (0xD4, "CALL", 3),
    (0xD5, "PUSH", 1),
    (0xD6, "SUB", 2),
    (0xD7, "RST", 1),
    (0xD8, "RET", 1),
    (0xD9, "RETI", 1),
    (0xDA, "JP", 3),
    (0xDB, "ILLEGAL_DB", 1),
    (0xDC, "CALL", 3),
    (0xDD, "ILLEGAL_DD", 1),
    (0xDE, "SBC", 2),
    (0xDF, "RST", 1),
    (0xE0, "LD_a_A", 2),
    (0xE1, "POP", 1),
    (0xE2, "LD", 1),
    (0xE3, "ILLEGAL_E3", 1),
    (0xE4, "ILLEGAL_E4", 1),
    (0xE5, "PUSH", 1),
    (0xE6, "AND", 2),
    (0xE7, "RST", 1),
    (0xE8, "ADD", 2),
    (0xE9, "JP", 1),
    (0xEA, "LD_A", 3),
    (0xEB, "ILLEGAL_EB", 1),
    (0xEC, "ILLEGAL_EC", 1),
    (0xED, "ILLEGAL_ED", 1),
    (0xEE, "XOR", 2),
    (0xEF, "RST", 1),
    (0xF0, "LD_A,a", 2),
    (0xF1, "POP", 1),
    (0xF2, "LD", 1),
    (0xF3, "DI", 1),
    (0xF4, "ILLEGAL_F4", 1),
    (0xF5, "PUSH", 1),
    (0xF6, "OR", 2),
    (0xF7, "RST", 1),
    (0xF8, "LD", 2),
    (0xF9, "LD", 1),
    (0xFA, "LD", 3),
    (0xFB, "EI", 1),
    (0xFC, "ILLEGAL_FC", 1),
    (0xFD, "ILLEGAL_FD", 1),
    (0xFE, "CP", 2),
    (0xFF, "RST", 1),
];

/// Master list of the extended space: for each sub-opcode, the sub-opcode, the
/// mnemonic of its family and the length in bytes of the whole instruction.
pub const PREFIXED_OPCODE: [(u8, &'static str, u8); 256] = [
    (0x00, "RLC", 2),
    (0x01, "RLC", 2),
    (0x02, "RLC", 2),
    (0x03, "RLC", 2),
    (0x04, "RLC", 2),
    (0x05, "RLC", 2),
    (0x06, "RLC", 2),
    (0x07, "RLC", 2),
    (0x08, "RRC", 2),
    (0x09, "RRC", 2),
    (0x0A, "RRC", 2),
    (0x0B, "RRC", 2),
    (0x0C, "RRC", 2),
    (0x0D, "RRC", 2),
    (0x0E, "RRC", 2),
    (0x0F, "RRC", 2),
    (0x10, "RL", 2),
    (0x11, "RL", 2),
    (0x12, "RL", 2),
    (0x13, "RL", 2),
    (0x14, "RL", 2),
    (0x15, "RL", 2),
    (0x16, "RL", 2),
    (0x17, "RL", 2),
    (0x18, "RR", 2),
    (0x19, "RR", 2),
    (0x1A, "RR", 2),
    (0x1B, "RR", 2),
    (0x1C, "RR", 2),
    (0x1D, "RR", 2),
    (0x1E, "RR", 2),
    (0x1F, "RR", 2),
    (0x20, "SLA", 2),
    (0x21, "SLA", 2),
    (0x22, "SLA", 2),
    (0x23, "SLA", 2),
    (0x24, "SLA", 2),
    (0x25, "SLA", 2),
    (0x26, "SLA", 2),
    (0x27, "SLA", 2),
    (0x28, "SRA", 2),
    (0x29, "SRA", 2),
    (0x2A, "SRA", 2),
    (0x2B, "SRA", 2),
    (0x2C, "SRA", 2),
    (0x2D, "SRA", 2),
    (0x2E, "SRA", 2),
    (0x2F, "SRA", 2),
    (0x30, "SWAP", 2),
    (0x31, "SWAP", 2),
    (0x32, "SWAP", 2),
    (0x33, "SWAP", 2),
    (0x34, "SWAP", 2),
    (0x35, "SWAP", 2),
    (0x36, "SWAP", 2),
    (0x37, "SWAP", 2),
    (0x38, "SRL", 2),
    (0x39, "SRL", 2),
    (0x3A, "SRL", 2),
    (0x3B, "SRL", 2),
    (0x3C, "SRL", 2),
    (0x3D, "SRL", 2),
    (0x3E, "SRL", 2),
    (0x3F, "SRL", 2),
    (0x40, "BIT", 2),
    (0x41, "BIT", 2),
    (0x42, "BIT", 2),
    (0x43, "BIT", 2),
    (0x44, "BIT", 2),
    (0x45, "BIT", 2),
    (0x46, "BIT", 2),
    (0x47, "BIT", 2),
    (0x48, "BIT", 2),
    (0x49, "BIT", 2),
    (0x4A, "BIT", 2),
    (0x4B, "BIT", 2),
    (0x4C, "BIT", 2),
    (0x4D, "BIT", 2),
    (0x4E, "BIT", 2),
    (0x4F, "BIT", 2),
    (0x50, "BIT", 2),
    (0x51, "BIT", 2),
    (0x52, "BIT", 2),
    (0x53, "BIT", 2),
    (0x54, "BIT", 2),
    (0x55, "BIT", 2),
    (0x56, "BIT", 2),
    (0x57, "BIT", 2),
    (0x58, "BIT", 2),
    (0x59, "BIT", 2),
    (0x5A, "BIT", 2),
    (0x5B, "BIT", 2),
    (0x5C, "BIT", 2),
    (0x5D, "BIT", 2),
    (0x5E, "BIT", 2),
    (0x5F, "BIT", 2),
    (0x60, "BIT", 2),
    (0x61, "BIT", 2),
    (0x62, "BIT", 2),
    (0x63, "BIT", 2),
    (0x64, "BIT", 2),
    (0x65, "BIT", 2),
    (0x66, "BIT", 2),
    (0x67, "BIT", 2),
    (0x68, "BIT", 2),
    (0x69, "BIT", 2),
    (0x6A, "BIT", 2),
    (0x6B, "BIT", 2),
    (0x6C, "BIT", 2),
    (0x6D, "BIT", 2),
    (0x6E, "BIT", 2),
    (0x6F, "BIT", 2),
    (0x70, "BIT", 2),
    (0x71, "BIT", 2),
    (0x72, "BIT", 2),
    (0x73, "BIT", 2),
    (0x74, "BIT", 2),
    (0x75, "BIT", 2),
    (0x76, "BIT", 2),
    (0x77, "BIT", 2),
    (0x78, "BIT", 2),
    (0x79, "BIT", 2),
    (0x7A, "BIT", 2),
    (0x7B, "BIT", 2),
    (0x7C, "BIT", 2),
    (0x7D, "BIT", 2),
    (0x7E, "BIT", 2),
    (0x7F, "BIT", 2),
    (0x80, "RES", 2),
    (0x81, "RES", 2),
    (0x82, "RES", 2),
    (0x83, "RES", 2),
    (0x84, "RES", 2),
    (0x85, "RES", 2),
    (0x86, "RES", 2),
    (0x87, "RES", 2),
    (0x88, "RES", 2),
    (0x89, "RES", 2),
    (0x8A, "RES", 2),
    (0x8B, "RES", 2),
    (0x8C, "RES", 2),
    (0x8D, "RES", 2),
    (0x8E, "RES", 2),
    (0x8F, "RES", 2),
    (0x90, "RES", 2),
    (0x91, "RES", 2),
    (0x92, "RES", 2),
    (0x93, "RES", 2),
    (0x94, "RES", 2),
    (0x95, "RES", 2),
    (0x96, "RES", 2),
    (0x97, "RES", 2),
    (0x98, "RES", 2),
    (0x99, "RES", 2),
    (0x9A, "RES", 2),
    (0x9B, "RES", 2),
    (0x9C, "RES", 2),
    (0x9D, "RES", 2),
    (0x9E, "RES", 2),
    (0x9F, "RES", 2),
    (0xA0, "RES", 2),
    (0xA1, "RES", 2),
    (0xA2, "RES", 2),
    (0xA3, "RES", 2),
    (0xA4, "RES", 2),
    (0xA5, "RES", 2),
    (0xA6, "RES", 2),
    (0xA7, "RES", 2),
    (0xA8, "RES", 2),
    (0xA9, "RES", 2),
    (0xAA, "RES", 2),
    (0xAB, "RES", 2),
    (0xAC, "RES", 2),
    (0xAD, "RES", 2),
    (0xAE, "RES", 2),
    (0xAF, "RES", 2),
    (0xB0, "RES", 2),
    (0xB1, "RES", 2),
    (0xB2, "RES", 2),
    (0xB3, "RES", 2),
    (0xB4, "RES", 2),
    (0xB5, "RES", 2),
    (0xB6, "RES", 2),
    (0xB7, "RES", 2),
    (0xB8, "RES", 2),
    (0xB9, "RES", 2),
    (0xBA, "RES", 2),
    (0xBB, "RES", 2),
    (0xBC, "RES", 2),
    (0xBD, "RES", 2),
    (0xBE, "RES", 2),
    (0xBF, "RES", 2),
    (0xC0, "SET", 2),
    (0xC1, "SET", 2),
    (0xC2, "SET", 2),
    (0xC3, "SET", 2),
    (0xC4, "SET", 2),
    (0xC5, "SET", 2),
    (0xC6, "SET", 2),
    (0xC7, "SET", 2),
    (0xC8, "SET", 2),
    (0xC9, "SET", 2),
    (0xCA, "SET", 2),
    (0xCB, "SET", 2),
    (0xCC, "SET", 2),
    (0xCD, "SET", 2),
    (0xCE, "SET", 2),
    (0xCF, "SET", 2),
    (0xD0, "SET", 2),
    (0xD1, "SET", 2),
    (0xD2, "SET", 2),
    (0xD3, "SET", 2),
    (0xD4, "SET", 2),
    (0xD5, "SET", 2),
    (0xD6, "SET", 2),
    (0xD7, "SET", 2),
    (0xD8, "SET", 2),
    (0xD9, "SET", 2),
    (0xDA, "SET", 2),
    (0xDB, "SET", 2),
    (0xDC, "SET", 2),
    (0xDD, "SET", 2),
    (0xDE, "SET", 2),
    (0xDF, "SET", 2),
    (0xE0, "SET", 2),
    (0xE1, "SET", 2),
    (0xE2, "SET", 2),
    (0xE3, "SET", 2),
    (0xE4, "SET", 2),
    (0xE5, "SET", 2),
    (0xE6, "SET", 2),
    (0xE7, "SET", 2),
    (0xE8, "SET", 2),
    (0xE9, "SET", 2),
    (0xEA, "SET", 2),
    (0xEB, "SET", 2),
    (0xEC, "SET", 2),
    (0xED, "SET", 2),
    (0xEE, "SET", 2),
    (0xEF, "SET", 2),
    (0xF0, "SET", 2),
    (0xF1, "SET", 2),
    (0xF2, "SET", 2),
    (0xF3, "SET", 2),
    (0xF4, "SET", 2),
    (0xF5, "SET", 2),
    (0xF6, "SET", 2),
    (0xF7, "SET", 2),
    (0xF8, "SET", 2),
    (0xF9, "SET", 2),
    (0xFA, "SET", 2),
    (0xFB, "SET", 2),
    (0xFC, "SET", 2),
    (0xFD, "SET", 2),
    (0xFE, "SET", 2),
    (0xFF, "SET", 2),
];

/// Reads the entry of `opcode` in the master list.
pub fn grand_opcode_lookup(opcode: u8) -> (entry: (u8, &'static str, u8))
    ensures
        entry == GRAND_OPCODE@[opcode as int],
        entry.0 == opcode,
        entry.2 == instruction_len_spec(opcode),
{
    GRAND_OPCODE[opcode as usize]
}

/// Reads the entry of `sub_opcode` in the master list of the extended space.
pub fn prefixed_opcode_lookup(sub_opcode: u8) -> (entry: (u8, &'static str, u8))
    ensures
        entry == PREFIXED_OPCODE@[sub_opcode as int],
        entry.0 == sub_opcode,
        entry.2 == prefixed_instruction_len_spec(sub_opcode),
{
    PREFIXED_OPCODE[sub_opcode as usize]
}

/// The length table and the master list agree on every opcode: the entry of
/// an opcode carries that opcode and the canonical length, which is 1, 2 or 3.
pub proof fn lemma_opcode_tables_agree(opcode: u8)
    ensures
        GRAND_OPCODE@[opcode as int].0 == opcode,
        GRAND_OPCODE@[opcode as int].2 == instruction_len_spec(opcode),
        1 <= instruction_len_spec(opcode) <= 3,
{
}

/// The tables of the extended space agree on every sub-opcode, and with the
/// length that the primary table gives the prefix byte.
pub proof fn lemma_prefixed_tables_agree(sub_opcode: u8)
    ensures
        PREFIXED_OPCODE@[sub_opcode as int].0 == sub_opcode,
        PREFIXED_OPCODE@[sub_opcode as int].2 == prefixed_instruction_len_spec(sub_opcode),
        prefixed_instruction_len_spec(sub_opcode) == instruction_len_spec(PREFIX_OPCODE),
{
}

} // verus!
