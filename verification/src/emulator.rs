//! The console: a processor with a cartridge slot, the checks that are made
//! of a cartridge's header, and the run of its program.

use crate::component::cartridge::{
    destination_of, ram_size_kib, read_destination, read_ram_size, read_rom_size, read_title,
    rom_size_kib, title_of, Cartridge, Destination, CART_TYPE_OFFSET, DESTINATION_OFFSET,
    GLOBAL_CHECKSUM_HIGH_OFFSET, GLOBAL_CHECKSUM_LOW_OFFSET, HEADER_CHECKSUM_OFFSET, HEADER_END,
    LOGO_LEN, LOGO_START, RAM_SIZE_OFFSET, ROM_SIZE_OFFSET, SGB_FLAG_OFFSET, SGB_SUPPORTED,
    TITLE_START, VERSION_OFFSET,
};
use crate::component::cpu::{join_bytes, Cpu, CpuState, Registers};
use crate::cpu::engine::{lemma_nop_step, lemma_nops_never_exit, RunStatus};
use crate::lookups::{lemma_opcode_tables_agree, mbc_type, mbc_type_spec};
use vstd::prelude::*;

verus! {

/// The logo that every official cartridge holds in its header.
pub const LOGO_DUMP: [u8; 48] = [
    0xCE, 0xED, 0x66, 0x66, 0xCC, 0x0D, 0x00, 0x0B, 0x03, 0x73, 0x00, 0x83,
    0x00, 0x0C, 0x00, 0x0D, 0x00, 0x08, 0x11, 0x1F, 0x88, 0x89, 0x00, 0x0E,
    0xDC, 0xCC, 0x6E, 0xE6, 0xDD, 0xDD, 0xD9, 0x99, 0xBB, 0xBB, 0x67, 0x63,
    0x6E, 0x0E, 0xEC, 0xCC, 0xDD, 0xDC, 0x99, 0x9F, 0xBB, 0xB9, 0x33, 0x3E,
];

/// The address at which the program of a cartridge is entered.
pub const ENTRY_ADDRESS: u16 = 0x0100;

/// The console: a processor and, once one is inserted, a cartridge.
pub struct Gameboy {
    pub cartridge: Option<Cartridge>,
    pub cpu: Cpu,
}

/// What the checks of a cartridge's header found. A checksum or a logo that
/// does not match is reported and stops nothing.
pub struct CartridgeReport {
    /// The header checksum as computed.
    pub header_checksum: u8,
    /// The header checksum as stored in the ROM.
    pub stored_header_checksum: u8,
    /// The checksum of the whole ROM as computed.
    pub global_checksum: u16,
    /// The checksum of the whole ROM as stored in it, high byte first.
    pub stored_global_checksum: u16,
    pub title: String,
    /// Whether the logo is the official one.
    pub logo_valid: bool,
    /// Whether the enhanced console is supported.
    pub sgb_supported: bool,
    /// The cartridge type, as `mbc_type` describes it.
    pub cart_specs: (&'static str, u16, u8, bool, bool),
    /// The size of the ROM in KiB, where 16 bits can hold it.
    pub rom_size: Option<u16>,
    /// The size of the RAM in KiB, where the RAM-size byte is a known one.
    pub ram_size: Option<u8>,
    pub destination: Destination,
    /// The version of the mask ROM.
    pub version: u8,
}

/// The running accumulator of the header checksum once the bytes from the
/// title offset up to, not including, `end` have been taken in. It starts at
/// zero; each byte is subtracted from it and then one more, modulo 256.
pub open spec fn header_checksum_upto(rom: Seq<u8>, end: int) -> u8
    decreases end,
{
    if end <= TITLE_START {
        0
    } else {
        header_checksum_upto(rom, end - 1).wrapping_sub(rom[end - 1]).wrapping_sub(1)
    }
}

/// The header checksum of a ROM: the accumulator once the bytes from the
/// title through the version have been taken in.
pub open spec fn header_checksum(rom: Seq<u8>) -> u8 {
    header_checksum_upto(rom, VERSION_OFFSET + 1)
}

/// The sum of the bytes of `rom` from `start` up to, not including, `end`.
pub open spec fn byte_sum(rom: Seq<u8>, start: int, end: int) -> int
    decreases end - start,
{
    if end <= start {
        0
    } else {
        byte_sum(rom, start, end - 1) + rom[end - 1]
    }
}

/// The sum of the bytes of `rom` before `end`, without the two bytes that
/// store the checksum of the whole ROM.
pub open spec fn global_sum(rom: Seq<u8>, end: int) -> int
    decreases end,
{
    if end <= 0 {
        0
    } else if end - 1 == GLOBAL_CHECKSUM_HIGH_OFFSET || end - 1 == GLOBAL_CHECKSUM_LOW_OFFSET {
        global_sum(rom, end - 1)
    } else {
        global_sum(rom, end - 1) + rom[end - 1]
    }
}

/// The checksum of a whole ROM: the sum modulo 65536 of all its bytes but
/// the two that store this checksum.
pub open spec fn global_checksum(rom: Seq<u8>) -> u16 {
    (global_sum(rom, rom.len() as int) % 0x10000) as u16
}

/// Whether the logo in the header of a ROM is the official one.
pub open spec fn logo_matches(rom: Seq<u8>) -> bool {
    rom.subrange(LOGO_START as int, LOGO_START + LOGO_LEN) == LOGO_DUMP@
}

impl CpuState {
    /// The state of a processor made ready to run a ROM: the memory bus holds
    /// the ROM from address 0 on, as far as either reaches, the program
    /// counter holds the entry address and no operand bytes are cached. The
    /// first opcode is read at the entry address.
    pub open spec fn boot(self, rom: Seq<u8>) -> CpuState {
        CpuState {
            memory: Seq::new(
                65536,
                |i: int|
                    if i < rom.len() {
                        rom[i]
                    } else {
                        self.memory[i]
                    },
            ),
            registers: Registers { pc: ENTRY_ADDRESS, ..self.registers },
            cache: Seq::empty(),
        }
    }
}

impl CartridgeReport {
    /// Whether the report is what the header checks find in `rom`.
    pub open spec fn describes(self, rom: Seq<u8>) -> bool {
        &&& self.header_checksum == header_checksum(rom)
        &&& self.stored_header_checksum == rom[HEADER_CHECKSUM_OFFSET as int]
        &&& self.global_checksum == global_checksum(rom)
        &&& self.stored_global_checksum == join_bytes(
            rom[GLOBAL_CHECKSUM_HIGH_OFFSET as int],
            rom[GLOBAL_CHECKSUM_LOW_OFFSET as int],
        )
        &&& self.title@ == title_of(rom)
        &&& self.logo_valid == logo_matches(rom)
        &&& self.sgb_supported == (rom[SGB_FLAG_OFFSET as int] == SGB_SUPPORTED)
        &&& self.cart_specs == mbc_type_spec(rom[CART_TYPE_OFFSET as int])
        &&& self.rom_size == rom_size_kib(rom[ROM_SIZE_OFFSET as int])
        &&& self.ram_size == ram_size_kib(rom[RAM_SIZE_OFFSET as int])
        &&& self.destination == destination_of(rom[DESTINATION_OFFSET as int])
        &&& self.version == rom[VERSION_OFFSET as int]
    }

    /// Whether the computed header checksum is the stored one.
    pub open spec fn header_checksum_matches(self) -> bool {
        self.header_checksum == self.stored_header_checksum
    }

    /// Whether the computed checksum of the whole ROM is the stored one.
    pub open spec fn global_checksum_matches(self) -> bool {
        self.global_checksum == self.stored_global_checksum
    }

    /// Whether the computed header checksum is the stored one.
    pub fn header_checksum_ok(&self) -> (ok: bool)
        ensures
            ok == self.header_checksum_matches(),
    {
        self.header_checksum == self.stored_header_checksum
    }

    /// Whether the computed checksum of the whole ROM is the stored one.
    pub fn global_checksum_ok(&self) -> (ok: bool)
        ensures
            ok == self.global_checksum_matches(),
    {
        self.global_checksum == self.stored_global_checksum
    }
}

/// Compares the logo in the header of a ROM with the official one, byte for
/// byte.
pub fn check_logo(rom: &Vec<u8>) -> (valid: bool)
    requires
        rom@.len() >= LOGO_START + LOGO_LEN,
    ensures
        valid == logo_matches(rom@),
{
    let ghost region = rom@.subrange(LOGO_START as int, LOGO_START + LOGO_LEN);
    let mut i: usize = 0;
    while i < LOGO_LEN
        invariant
            i <= LOGO_LEN,
            rom@.len() >= LOGO_START + LOGO_LEN,
            region == rom@.subrange(LOGO_START as int, LOGO_START + LOGO_LEN),
            forall|k: int| 0 <= k < i ==> region[k] == LOGO_DUMP@[k],
        decreases LOGO_LEN - i,
    {
        if rom[LOGO_START + i] != LOGO_DUMP[i] {
            assert(region[i as int] != LOGO_DUMP@[i as int]);
            return false;
        }
        i += 1;
    }
    assert(region =~= LOGO_DUMP@);
    true
}

impl Gameboy {
    /// A console at power-on, with no cartridge.
    pub fn construct() -> (gameboy: Gameboy)
        ensures
            gameboy.cartridge is None,
            gameboy.cpu@ == CpuState::power_on(),
            gameboy.cpu.registers.wf(),
    {
        Gameboy { cartridge: None, cpu: Cpu::new() }
    }

    /// Inserts a cartridge in place of the one that may be there. The
    /// processor is not touched.
    pub fn insert_cartridge(&mut self, cart: Cartridge)
        ensures
            final(self).cartridge == Some(cart),
            final(self).cpu == old(self).cpu,
    {
        self.cartridge = Some(cart);
    }

    /// The header checksum of the inserted cartridge.
    pub fn compute_checksum(&self) -> (checksum: u8)
        requires
            self.cartridge is Some,
            self.cartridge->0.rom@.len() > VERSION_OFFSET,
        ensures
            checksum == header_checksum(self.cartridge->0.rom@),
    {
        let rom = &self.cart().rom;
        let mut x: u8 = 0;
        let mut i: usize = TITLE_START;
        while i <= VERSION_OFFSET
            invariant
                TITLE_START <= i <= VERSION_OFFSET + 1,
                rom@.len() > VERSION_OFFSET,
                x == header_checksum_upto(rom@, i as int),
            decreases VERSION_OFFSET + 1 - i,
        {
            x = x.wrapping_sub(rom[i]).wrapping_sub(1);
            i += 1;
        }
        x
    }

    /// The checksum of the whole ROM of the inserted cartridge. The console
    /// itself never checks it.
    pub fn compute_dumb_checksum(&self) -> (checksum: u16)
        requires
            self.cartridge is Some,
        ensures
            checksum == global_checksum(self.cartridge->0.rom@),
    {
        let rom = &self.cart().rom;
        let mut x: u16 = 0;
        let mut i: usize = 0;
        while i < rom.len()
            invariant
                i <= rom@.len(),
                x == global_sum(rom@, i as int) % 0x10000,
            decreases rom@.len() - i,
        {
            if i != GLOBAL_CHECKSUM_HIGH_OFFSET && i != GLOBAL_CHECKSUM_LOW_OFFSET {
                x = x.wrapping_add(rom[i] as u16);
            }
            i += 1;
        }
        x
    }

    /// The inserted cartridge.
    pub fn cart(&self) -> (cart: &Cartridge)
        requires
            self.cartridge is Some,
        ensures
            *cart == self.cartridge->0,
    {
        self.cartridge.as_ref().unwrap()
    }

    /// Checks the header of the inserted cartridge and reports what it
    /// found. Without a cartridge there is nothing to report.
    pub fn read_cart_data(&self) -> (report: Option<CartridgeReport>)
        requires
            self.cartridge is Some ==> self.cartridge->0.rom@.len() >= HEADER_END,
        ensures
            report is Some <==> self.cartridge is Some,
            report matches Some(r) ==> r.describes(self.cartridge->0.rom@),
    {
        if self.cartridge.is_none() {
            return None;
        }
        let rom = &self.cart().rom;
        let header_checksum = self.compute_checksum();
        let global_checksum = self.compute_dumb_checksum();
        let high = rom[GLOBAL_CHECKSUM_HIGH_OFFSET];
        let low = rom[GLOBAL_CHECKSUM_LOW_OFFSET];
        let stored_global_checksum = ((high as u16) << 8) | (low as u16);
        Some(
            CartridgeReport {
                header_checksum,
                stored_header_checksum: rom[HEADER_CHECKSUM_OFFSET],
                global_checksum,
                stored_global_checksum,
                title: read_title(rom),
                logo_valid: check_logo(rom),
                sgb_supported: rom[SGB_FLAG_OFFSET] == SGB_SUPPORTED,
                cart_specs: mbc_type(rom[CART_TYPE_OFFSET]),
                rom_size: read_rom_size(rom[ROM_SIZE_OFFSET]),
                ram_size: read_ram_size(rom[RAM_SIZE_OFFSET]),
                destination: read_destination(rom[DESTINATION_OFFSET]),
                version: rom[VERSION_OFFSET],
            },
        )
    }

    /// Makes the processor ready to run the inserted cartridge: seeds the
    /// memory bus with the ROM, as far as either reaches, sets the program
    /// counter to the entry address and empties the operand cache.
    pub fn load_cart(&mut self)
        requires
            old(self).cartridge is Some,
        ensures
            final(self).cartridge == old(self).cartridge,
            final(self).cpu@ == old(self).cpu@.boot(old(self).cartridge->0.rom@),
            old(self).cpu.registers.wf() ==> final(self).cpu.registers.wf(),
    {
        let ghost before = self.cpu@;
        let ghost rom = self.cartridge->0.rom@;
        let mut i: usize = 0;
        while i < 65536 && i < self.cart().rom.len()
            invariant
                i <= 65536,
                i <= rom.len(),
                self.cartridge == old(self).cartridge,
                self.cartridge is Some,
                rom == self.cartridge->0.rom@,
                self.cpu.registers == old(self).cpu.registers,
                self.cpu.cache == old(self).cpu.cache,
                forall|k: int| 0 <= k < i ==> self.cpu.memory@[k] == rom[k],
                forall|k: int| i <= k < 65536 ==> self.cpu.memory@[k] == before.memory[k],
            decreases 65536 - i,
        {
            let byte = self.cart().rom[i];
            self.cpu.memory[i] = byte;
            i += 1;
        }
        self.cpu.registers.pc = ENTRY_ADDRESS;
        self.cpu.cache.clear();
        assert(self.cpu@.memory =~= before.boot(rom).memory);
    }

    /// Runs the inserted cartridge from its entry address until a handler
    /// reports an exit code, and for at most `budget` instructions.
    pub fn start_cart(&mut self, budget: u64) -> (status: RunStatus)
        requires
            old(self).cartridge is Some,
        ensures
            final(self).cartridge == old(self).cartridge,
            (final(self).cpu@, status) == old(self).cpu@.boot(old(self).cartridge->0.rom@).run(
                budget as nat,
            ),
            old(self).cpu.registers.wf() ==> final(self).cpu.registers.wf(),
    {
        self.load_cart();
        self.cpu.run(budget)
    }
}

/// The header checksum in closed form: the bytes it covers are summed, their
/// number is added, and the checksum is the negative of that modulo 256.
pub proof fn lemma_header_checksum_closed_form(rom: Seq<u8>, end: int)
    requires
        TITLE_START <= end,
    ensures
        header_checksum_upto(rom, end) == (-(byte_sum(rom, TITLE_START as int, end) + (end
            - TITLE_START))) % 256,
    decreases end,
{
    if end > TITLE_START {
        lemma_header_checksum_closed_form(rom, end - 1);
    }
}

/// The checksum of a whole ROM takes in every byte but the two that store
/// it: it is the sum of all the bytes less those two, modulo 65536.
pub proof fn lemma_global_sum_closed_form(rom: Seq<u8>, end: int)
    requires
        0 <= end,
    ensures
        global_sum(rom, end) == byte_sum(rom, 0, end) - (if end > GLOBAL_CHECKSUM_HIGH_OFFSET {
            rom[GLOBAL_CHECKSUM_HIGH_OFFSET as int] as int
        } else {
            0
        }) - (if end > GLOBAL_CHECKSUM_LOW_OFFSET {
            rom[GLOBAL_CHECKSUM_LOW_OFFSET as int] as int
        } else {
            0
        }),
    decreases end,
{
    if end > 0 {
        lemma_global_sum_closed_form(rom, end - 1);
    }
}

/// Two ROMs of one length that differ at most in the two bytes that store
/// the checksum of the whole ROM have the same such checksum: what is stored
/// there does not change what is computed.
pub proof fn lemma_global_checksum_ignores_stored(rom: Seq<u8>, other: Seq<u8>)
    requires
        rom.len() == other.len(),
        forall|i: int|
            0 <= i < rom.len() && i != GLOBAL_CHECKSUM_HIGH_OFFSET && i
                != GLOBAL_CHECKSUM_LOW_OFFSET ==> rom[i] == other[i],
    ensures
        global_checksum(rom) == global_checksum(other),
{
    lemma_global_sum_agrees(rom, other, rom.len() as int);
}

/// The sums of two ROMs that agree before `end`, but perhaps for the two
/// bytes that store the checksum, are equal.
proof fn lemma_global_sum_agrees(rom: Seq<u8>, other: Seq<u8>, end: int)
    requires
        0 <= end <= rom.len(),
        forall|i: int|
            0 <= i < end && i != GLOBAL_CHECKSUM_HIGH_OFFSET && i != GLOBAL_CHECKSUM_LOW_OFFSET
                ==> rom[i] == other[i],
    ensures
        global_sum(rom, end) == global_sum(other, end),
    decreases end,
{
    if end > 0 {
        lemma_global_sum_agrees(rom, other, end - 1);
    }
}

/// A processor made ready to run a ROM reads its first opcode at the entry
/// address, from the ROM where the ROM reaches that far.
pub proof fn lemma_boot_then_fetch(state: CpuState, rom: Seq<u8>)
    requires
        state.wf(),
    ensures
        state.boot(rom).wf(),
        state.boot(rom).registers.pc == ENTRY_ADDRESS,
        state.boot(rom).fetch().1 == state.boot(rom).memory[ENTRY_ADDRESS as int],
        rom.len() > ENTRY_ADDRESS ==> state.boot(rom).fetch().1 == rom[ENTRY_ADDRESS as int],
        state.boot(rom).step().1.trace.address == ENTRY_ADDRESS,
{
    let booted = state.boot(rom);
    lemma_opcode_tables_agree(booted.memory[ENTRY_ADDRESS as int]);
}

/// A ROM whose byte at the entry address is the no-op opcode is entered
/// there: the first step reads that byte, advances the program counter by
/// exactly one, changes nothing else and reports no exit code, whatever the
/// rest of the ROM holds: a run of one instruction ends on its budget, ready
/// for a second fetch.
pub proof fn lemma_entry_nop_step(state: CpuState, rom: Seq<u8>)
    requires
        state.wf(),
        rom.len() > ENTRY_ADDRESS,
        rom[ENTRY_ADDRESS as int] == 0x00,
    ensures
        state.boot(rom).step().1.opcode == 0x00,
        state.boot(rom).step().1.trace.address == ENTRY_ADDRESS,
        state.boot(rom).step().1.exit is None,
        state.boot(rom).step().0.registers == (Registers {
            pc: (ENTRY_ADDRESS + 1) as u16,
            ..state.registers
        }),
        state.boot(rom).step().0.memory == state.boot(rom).memory,
        state.boot(rom).run(1) == (state.boot(rom).step().0, RunStatus::BudgetExhausted),
{
    reveal_with_fuel(CpuState::run, 2);
    lemma_nop_step(state.boot(rom));
}

/// A ROM that fills the memory bus with the no-op opcode is run without ever
/// reaching a terminal state: whatever the budget, the run uses it up, and
/// has then advanced the program counter from the entry address by one for
/// each instruction, modulo 65536.
pub proof fn lemma_nop_rom_never_exits(state: CpuState, rom: Seq<u8>, budget: nat)
    requires
        state.wf(),
        rom.len() >= 65536,
        forall|i: int| 0 <= i < 65536 ==> rom[i] == 0x00,
    ensures
        state.boot(rom).run(budget).1 == RunStatus::BudgetExhausted,
        state.boot(rom).run(budget).0.registers.pc == (ENTRY_ADDRESS + budget) % 0x10000,
{
    lemma_nops_never_exit(state.boot(rom), budget);
}

} // verus!
