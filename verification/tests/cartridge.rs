use gameboy_core::component::cartridge::{
    populate_cart_meta, read_destination, read_logo, read_ram_size, read_rom_size, read_title,
    Cartridge, Destination,
};
use gameboy_core::component::cpu::Registers;
use gameboy_core::cpu::engine::RunStatus;
use gameboy_core::emulator::{check_logo, Gameboy, LOGO_DUMP};

fn console_with(rom: Vec<u8>) -> Gameboy {
    let mut gameboy = Gameboy::construct();
    gameboy.insert_cartridge(Cartridge::from_rom(rom).unwrap());
    gameboy
}

fn sample_rom(len: usize) -> Vec<u8> {
    let mut rom = vec![0u8; len];
    rom[0x104..0x134].copy_from_slice(&LOGO_DUMP);
    rom[0x134..0x13A].copy_from_slice(b"TETRIS");
    rom[0x146] = 0x03;
    rom[0x147] = 0x13;
    rom[0x148] = 0x02;
    rom[0x149] = 0x03;
    rom[0x14A] = 0x01;
    rom[0x14C] = 0x01;
    rom
}

#[test]
fn from_rom_needs_the_header() {
    assert!(Cartridge::from_rom(Vec::new()).is_none());
    assert!(Cartridge::from_rom(vec![0u8; 0x14C]).is_none());
    assert!(Cartridge::from_rom(vec![0u8; 0x14D]).is_some());
    assert!(Cartridge::from_rom(vec![0u8; 0x8000]).is_some());
}

#[test]
fn from_rom_keeps_the_rom_and_has_no_ram() {
    let rom = sample_rom(0x8000);
    let cartridge = Cartridge::from_rom(rom.clone()).unwrap();
    assert_eq!(cartridge.rom, rom);
    assert!(cartridge.ram.is_empty());
    assert_eq!(cartridge.meta.title, "TETRIS\0\0\0\0\0\0\0\0\0\0");
}

#[test]
fn populate_cart_meta_reads_the_header() {
    let rom = sample_rom(0x150);
    let meta = populate_cart_meta(&rom);
    assert_eq!(meta.title, "TETRIS\0\0\0\0\0\0\0\0\0\0");
    assert_eq!(meta.title.chars().count(), 16);
    assert!(meta.sgb_supported);
    assert_eq!(meta.cart_specs, ("MBC3 + RAM + Battery", 128, 4, true, false));
    assert_eq!(meta.rom_size, Some(128));
    assert_eq!(meta.destination, Destination::Global);
    assert_eq!(meta.version, 0x01);
    assert_eq!(meta.logo, LOGO_DUMP);
}

#[test]
fn populate_cart_meta_of_an_empty_header() {
    let meta = populate_cart_meta(&vec![0u8; 0x14D]);
    assert_eq!(meta.title, "\0".repeat(16));
    assert!(!meta.sgb_supported);
    assert_eq!(meta.cart_specs, ("ROM ONLY", 1, 0, false, false));
    assert_eq!(meta.rom_size, Some(32));
    assert_eq!(meta.destination, Destination::Japan);
    assert_eq!(meta.version, 0);
    assert_eq!(meta.logo, [0u8; 48]);
}

#[test]
fn populate_cart_meta_unknown_type_is_invalid() {
    let mut rom = sample_rom(0x150);
    rom[0x147] = 0x04;
    rom[0x146] = 0x02;
    let meta = populate_cart_meta(&rom);
    assert_eq!(meta.cart_specs, ("INVALID", 0, 0, false, false));
    assert!(!meta.sgb_supported);
}

#[test]
fn title_takes_one_character_per_byte() {
    let mut rom = vec![0u8; 0x150];
    for offset in 0..16 {
        rom[0x134 + offset] = 0x41 + offset as u8;
    }
    rom[0x133] = b'x';
    rom[0x144] = b'y';
    assert_eq!(read_title(&rom), "ABCDEFGHIJKLMNOP");
    rom[0x134] = 0xE9;
    rom[0x143] = 0xFF;
    let title: Vec<char> = read_title(&rom).chars().collect();
    assert_eq!(title.len(), 16);
    assert_eq!(title[0], '\u{E9}');
    assert_eq!(title[1], 'B');
    assert_eq!(title[15], '\u{FF}');
}

#[test]
fn logo_is_the_region_at_its_offset() {
    let mut rom = vec![0u8; 0x150];
    for offset in 0..48 {
        rom[0x104 + offset] = offset as u8 + 1;
    }
    let logo = read_logo(&rom);
    for offset in 0..48 {
        assert_eq!(logo[offset], offset as u8 + 1);
    }
}

#[test]
fn rom_size_is_32_kib_shifted() {
    assert_eq!(read_rom_size(0), Some(32));
    assert_eq!(read_rom_size(1), Some(64));
    assert_eq!(read_rom_size(2), Some(128));
    assert_eq!(read_rom_size(5), Some(1024));
    assert_eq!(read_rom_size(8), Some(8192));
    assert_eq!(read_rom_size(10), Some(32768));
    assert_eq!(read_rom_size(11), None);
    assert_eq!(read_rom_size(16), None);
    assert_eq!(read_rom_size(255), None);
}

#[test]
fn ram_size_table() {
    assert_eq!(read_ram_size(0), Some(0));
    assert_eq!(read_ram_size(1), None);
    assert_eq!(read_ram_size(2), Some(8));
    assert_eq!(read_ram_size(3), Some(32));
    assert_eq!(read_ram_size(4), Some(128));
    assert_eq!(read_ram_size(5), Some(64));
    assert_eq!(read_ram_size(6), None);
    assert_eq!(read_ram_size(255), None);
}

#[test]
fn destination_has_two_categories() {
    for code in 0..=255u8 {
        let mut rom = vec![0u8; 0x150];
        rom[0x14A] = code;
        let expected = if code == 0 { Destination::Japan } else { Destination::Global };
        assert_eq!(populate_cart_meta(&rom).destination, expected);
        assert_eq!(read_destination(code), expected);
    }
    assert_eq!(Destination::Japan.label(), "Japan");
    assert_eq!(Destination::Global.label(), "Global");
}

#[test]
fn header_checksum_of_known_bytes() {
    // 25 zero bytes: 0 - 25 * (0 + 1) = -25 = 0xE7 modulo 256.
    assert_eq!(console_with(vec![0u8; 0x150]).compute_checksum(), 0xE7);

    // The bytes 0x34 up to 0x4C sum to 1600; -(1600 + 25) = 0xA7 modulo 256.
    let rom: Vec<u8> = (0..0x150usize).map(|i| (i & 0xFF) as u8).collect();
    assert_eq!(console_with(rom).compute_checksum(), 0xA7);

    // "TETRIS" sums to 475 and the version adds 1; -(476 + 25) = 0x0B.
    let mut rom = vec![0u8; 0x150];
    rom[0x134..0x13A].copy_from_slice(b"TETRIS");
    rom[0x14C] = 0x01;
    assert_eq!(console_with(rom).compute_checksum(), 0x0B);
}

#[test]
fn header_checksum_covers_title_through_version_only() {
    let mut rom = vec![0u8; 0x150];
    rom[0x133] = 0xFF;
    rom[0x14D] = 0xFF;
    rom[0x14E] = 0xFF;
    rom[0x000] = 0x55;
    assert_eq!(console_with(rom.clone()).compute_checksum(), 0xE7);
    rom[0x134] = 1;
    assert_eq!(console_with(rom.clone()).compute_checksum(), 0xE6);
    rom[0x14C] = 2;
    assert_eq!(console_with(rom).compute_checksum(), 0xE4);
}

#[test]
fn global_checksum_of_a_64_kib_image() {
    // 65534 bytes of 1 are counted.
    assert_eq!(console_with(vec![1u8; 65536]).compute_dumb_checksum(), 0xFFFE);

    // 65534 bytes of 0xFF sum to 16711170 = 0xFE02 modulo 65536.
    assert_eq!(console_with(vec![0xFFu8; 65536]).compute_dumb_checksum(), 0xFE02);

    // Bytes i % 251 sum to 8189175; without the 83 and the 84 at the two
    // storage bytes that is 8189008 = 0xF450 modulo 65536.
    let rom: Vec<u8> = (0..65536usize).map(|i| (i % 251) as u8).collect();
    assert_eq!(console_with(rom).compute_dumb_checksum(), 0xF450);
}

#[test]
fn global_checksum_leaves_out_its_own_bytes() {
    let mut rom = vec![0u8; 65536];
    rom[0x14D] = 3;
    rom[0x150] = 4;
    assert_eq!(console_with(rom.clone()).compute_dumb_checksum(), 7);
    for (high, low) in [(0u8, 0u8), (0x12, 0x34), (0xFF, 0xFF)] {
        rom[0x14E] = high;
        rom[0x14F] = low;
        assert_eq!(console_with(rom.clone()).compute_dumb_checksum(), 7);
    }
}

#[test]
fn global_checksum_takes_every_byte_of_the_rom() {
    assert_eq!(console_with(vec![0xFFu8; 0x8000]).compute_dumb_checksum(), 0x7E02);
    let mut rom = vec![0u8; 0x20000];
    rom[0x1FFFF] = 9;
    rom[0x10000] = 1;
    assert_eq!(console_with(rom).compute_dumb_checksum(), 10);
    assert_eq!(console_with(vec![2u8; 0x14D]).compute_dumb_checksum(), 2 * 0x14D);
}

#[test]
fn construct_has_no_cartridge() {
    let gameboy = Gameboy::construct();
    assert!(gameboy.cartridge.is_none());
    assert_eq!(gameboy.cpu.registers, Registers::new());
    assert!(gameboy.cpu.memory.iter().all(|byte| *byte == 0));
    assert!(gameboy.cpu.cache.is_empty());
}

#[test]
fn insert_cartridge_replaces_the_cartridge() {
    let mut gameboy = Gameboy::construct();
    gameboy.insert_cartridge(Cartridge::from_rom(vec![1u8; 0x150]).unwrap());
    assert_eq!(gameboy.cart().rom, vec![1u8; 0x150]);
    gameboy.insert_cartridge(Cartridge::from_rom(vec![2u8; 0x200]).unwrap());
    assert_eq!(gameboy.cart().rom, vec![2u8; 0x200]);
    assert_eq!(gameboy.cpu.registers, Registers::new());
    assert!(gameboy.cpu.memory.iter().all(|byte| *byte == 0));
}

#[test]
fn read_cart_data_without_a_cartridge() {
    assert!(Gameboy::construct().read_cart_data().is_none());
}

#[test]
fn read_cart_data_reports_the_header() {
    let mut rom = sample_rom(0x8000);
    rom[0x14D] = 0x12;
    rom[0x14E] = 0xAB;
    rom[0x14F] = 0xCD;
    let report = console_with(rom.clone()).read_cart_data().unwrap();
    let mut expected: u8 = 0;
    for byte in &rom[0x134..=0x14C] {
        expected = expected.wrapping_sub(*byte).wrapping_sub(1);
    }
    assert_eq!(report.header_checksum, expected);
    assert_eq!(report.stored_header_checksum, 0x12);
    assert!(!report.header_checksum_ok());
    assert_eq!(report.stored_global_checksum, 0xABCD);
    assert!(!report.global_checksum_ok());
    assert_eq!(report.title, "TETRIS\0\0\0\0\0\0\0\0\0\0");
    assert!(report.logo_valid);
    assert_eq!(report.cart_specs, ("MBC3 + RAM + Battery", 128, 4, true, false));
    assert_eq!(report.rom_size, Some(128));
    assert_eq!(report.ram_size, Some(32));
    assert!(report.sgb_supported);
    assert_eq!(report.destination, Destination::Global);
    assert_eq!(report.version, 0x01);
}

#[test]
fn read_cart_data_accepts_matching_checksums() {
    let mut rom = sample_rom(0x8000);
    let with_zeroes = console_with(rom.clone());
    rom[0x14D] = with_zeroes.compute_checksum();
    let global = console_with(rom.clone()).compute_dumb_checksum();
    rom[0x14E] = (global >> 8) as u8;
    rom[0x14F] = (global & 0xFF) as u8;
    let report = console_with(rom).read_cart_data().unwrap();
    assert!(report.header_checksum_ok());
    assert!(report.global_checksum_ok());
    assert_eq!(report.global_checksum, global);
    assert_eq!(report.stored_global_checksum, global);
}

#[test]
fn logo_mismatch_is_reported() {
    let rom = sample_rom(0x150);
    assert!(check_logo(&rom));
    for offset in [0usize, 1, 24, 47] {
        let mut changed = rom.clone();
        changed[0x104 + offset] ^= 0x01;
        assert!(!check_logo(&changed));
        assert!(!console_with(changed).read_cart_data().unwrap().logo_valid);
    }
    let mut changed = rom.clone();
    changed[0x103] = 0xFF;
    changed[0x134] = 0xFF;
    assert!(check_logo(&changed));
    assert!(!check_logo(&vec![0u8; 0x150]));
}

#[test]
fn load_cart_seeds_the_memory() {
    let rom: Vec<u8> = (0..0x8000usize).map(|i| (i % 253) as u8).collect();
    let mut gameboy = console_with(rom.clone());
    gameboy.cpu.memory[0x9000] = 0x77;
    gameboy.cpu.cache.push(1);
    gameboy.cpu.registers.pc = 0x4444;
    gameboy.load_cart();
    assert_eq!(&gameboy.cpu.memory[..0x8000], &rom[..]);
    assert_eq!(gameboy.cpu.memory[0x9000], 0x77);
    assert!(gameboy.cpu.memory[0x8000..0x9000].iter().all(|byte| *byte == 0));
    assert_eq!(gameboy.cpu.registers, Registers { pc: 0x0100, ..Registers::new() });
    assert!(gameboy.cpu.cache.is_empty());
    assert_eq!(gameboy.cart().rom, rom);
}

#[test]
fn load_cart_takes_the_first_64_kib() {
    let rom: Vec<u8> = (0..0x20000usize).map(|i| (i / 0x100) as u8).collect();
    let mut gameboy = console_with(rom.clone());
    gameboy.load_cart();
    assert_eq!(&gameboy.cpu.memory[..], &rom[..0x10000]);
}

#[test]
fn start_cart_runs_a_rom_of_nops() {
    let mut gameboy = console_with(vec![0u8; 0x8000]);
    assert_eq!(gameboy.start_cart(1), RunStatus::BudgetExhausted);
    assert_eq!(gameboy.cpu.registers.pc, 0x0101);
    assert_eq!(gameboy.start_cart(500), RunStatus::BudgetExhausted);
    assert_eq!(gameboy.cpu.registers.pc, 0x0100 + 500);
}

#[test]
fn start_cart_runs_the_program_of_the_rom() {
    let mut rom = sample_rom(0x8000);
    rom[0x0FF] = 0x10;
    rom[0x100] = 0x00;
    rom[0x101] = 0xC3;
    rom[0x102] = 0x50;
    rom[0x103] = 0x01;
    rom[0x14F] = 0x10;
    rom[0x150] = 0x3E;
    rom[0x151] = 0x5A;
    rom[0x152] = 0xEA;
    rom[0x153] = 0x00;
    rom[0x154] = 0xC0;
    rom[0x155] = 0xFC;
    let mut gameboy = console_with(rom);
    assert_eq!(
        gameboy.start_cart(1000),
        RunStatus::Exited { code: 4, label: "Unknown opcode", opcode: 0xFC, address: 0x0155 }
    );
    assert_eq!(gameboy.cpu.memory[0xC000], 0x5A);
    assert_eq!(gameboy.cpu.registers.af, 0x5A00);
    assert_eq!(gameboy.cpu.registers.pc, 0x0155);
}

#[test]
fn first_opcode_is_read_at_the_entry_address() {
    // The no-op at the entry address is run: the halt opcode after it is
    // reached only by the second step.
    let mut rom = vec![0u8; 0x8000];
    rom[0x100] = 0x00;
    rom[0x101] = 0x10;
    let mut gameboy = console_with(rom.clone());
    assert_eq!(gameboy.start_cart(1), RunStatus::BudgetExhausted);
    assert_eq!(gameboy.cpu.registers.pc, 0x0101);
    assert!(gameboy.cpu.cache.is_empty());
    assert_eq!(
        gameboy.start_cart(2),
        RunStatus::Exited { code: 0, label: "Ok", opcode: 0x10, address: 0x0101 }
    );

    // The halt opcode at the entry address ends the run in its first step.
    rom[0x100] = 0x10;
    rom[0x101] = 0x00;
    let mut gameboy = console_with(rom);
    assert_eq!(
        gameboy.start_cart(1),
        RunStatus::Exited { code: 0, label: "Ok", opcode: 0x10, address: 0x0100 }
    );
    assert_eq!(gameboy.cpu.registers.pc, 0x0100);
}

#[test]
fn load_cart_sets_the_entry_address() {
    let mut rom = vec![0u8; 0x8000];
    rom[0x100] = 0xC3;
    rom[0x101] = 0x50;
    rom[0x102] = 0x01;
    let mut gameboy = console_with(rom);
    gameboy.load_cart();
    assert_eq!(gameboy.cpu.registers.pc, 0x0100);
    let step = gameboy.cpu.step();
    assert_eq!((step.opcode, step.exit), (0xC3, None));
    assert_eq!(step.trace.address, 0x0100);
    assert_eq!(gameboy.cpu.registers.pc, 0x0150);
}

#[test]
fn start_cart_on_a_short_rom_runs_into_the_old_memory() {
    let mut gameboy = console_with(vec![0u8; 0x14D]);
    gameboy.cpu.memory[0x0200] = 0xDB;
    assert_eq!(
        gameboy.start_cart(1000),
        RunStatus::Exited { code: 4, label: "Unknown opcode", opcode: 0xDB, address: 0x0200 }
    );
}
