use gbmu::cartridge::{Cartridge, MapperType};
use gbmu::input_memory::InputState;
use gbmu::memory_bus::MemoryBus;
use gbmu::ppu_memory::PixelColour;

fn rom_image(kind: u8, size_code: u8, ram_code: u8, banks: usize) -> Vec<u8> {
    let mut rom = vec![0u8; banks * 0x4000];
    for bank in 0..banks {
        rom[bank * 0x4000] = bank as u8;
        rom[bank * 0x4000 + 1] = (bank >> 8) as u8;
    }
    rom[0x147] = kind;
    rom[0x148] = size_code;
    rom[0x149] = ram_code;
    rom
}

#[test]
fn wram_and_hram_round_trip() {
    let mut bus = MemoryBus::new(None, false);
    for &(addr, v) in &[(0xC000u16, 0x11u8), (0xCFFF, 0x22), (0xD123, 0x33), (0xFF80, 0x44), (0xFFFE, 0x55)] {
        bus.write_byte(addr, v);
        assert_eq!(bus.read_byte(addr), v);
    }
    // echo of work RAM
    bus.write_byte(0xE010, 0x66);
    assert_eq!(bus.read_byte(0xC010), 0x66);
    // the unusable range reads zero
    bus.write_byte(0xFEA5, 0x77);
    assert_eq!(bus.read_byte(0xFEA5), 0x00);
}

#[test]
fn mbc1_banking() {
    let rom = rom_image(0x01, 0x06, 0x00, 128);
    let mut cart = Cartridge::new(Some(rom));
    assert_eq!(cart.mapper_type, MapperType::MBC1);
    cart.write(0x6000, 0x01);
    cart.write(0x4000, 0x02);
    cart.write(0x2000, 0x05);
    assert_eq!(cart.read(0x4000), 0x45);
    assert_eq!(cart.read(0x0000), 0x40);
    // bank 0 selects bank 1
    cart.write(0x2000, 0x00);
    cart.write(0x4000, 0x00);
    assert_eq!(cart.read(0x4000), 0x01);
}

#[test]
fn cartridge_ram_needs_enable() {
    let rom = rom_image(0x03, 0x00, 0x03, 2);
    let mut cart = Cartridge::new(Some(rom));
    assert!(cart.has_battery);
    cart.write(0xA010, 0x5A);
    assert_eq!(cart.read(0xA010), 0xFF);
    cart.write(0x0000, 0x0A);
    cart.write(0xA010, 0x5A);
    assert_eq!(cart.read(0xA010), 0x5A);
    cart.write(0x0000, 0x00);
    assert_eq!(cart.read(0xA010), 0xFF);
    let blob = cart.save_blob();
    assert_eq!(blob.len(), 4 * 0x2000);
    assert_eq!(blob[0x10], 0x5A);
}

#[test]
fn save_blob_reloads() {
    let rom = rom_image(0x03, 0x00, 0x02, 2);
    let mut cart = Cartridge::new(Some(rom.clone()));
    cart.write(0x0000, 0x0A);
    cart.write(0xA001, 0x99);
    let blob = cart.save_blob();
    let mut again = Cartridge::new(Some(rom));
    again.load_save(&blob);
    again.write(0x0000, 0x0A);
    assert_eq!(again.read(0xA001), 0x99);
}

#[test]
fn mbc2_ram_is_four_bits() {
    let rom = rom_image(0x06, 0x00, 0x00, 2);
    let mut cart = Cartridge::new(Some(rom));
    cart.write(0x0000, 0x0A);
    cart.write(0xA000, 0x3C);
    assert_eq!(cart.read(0xA000), 0xFC);
    assert_eq!(cart.read(0xA200), 0xFC);
}

#[test]
fn mbc3_rtc_registers() {
    let rom = rom_image(0x10, 0x00, 0x02, 2);
    let mut cart = Cartridge::new(Some(rom));
    cart.set_time(1000);
    cart.write(0x0000, 0x0A);
    cart.write(0x4000, 0x08);
    cart.write(0xA000, 30);
    cart.write(0x4000, 0x09);
    cart.write(0xA000, 5);
    cart.set_time(1010);
    cart.write(0x4000, 0x08);
    assert_eq!(cart.read(0xA000), 40);
    cart.write(0x4000, 0x09);
    assert_eq!(cart.read(0xA000), 5);
    let blob = cart.save_blob();
    assert_eq!(blob.len(), 0x2000 + 18);
}

#[test]
fn bgp_round_trip_and_palette() {
    let mut bus = MemoryBus::new(None, false);
    bus.write_byte(0xFF47, 0xE4);
    assert_eq!(bus.read_byte(0xFF47), 0xE4);
    assert_eq!(bus.ppu_memory.bg_palette_colour(0), PixelColour::White);
    assert_eq!(bus.ppu_memory.bg_palette_colour(1), PixelColour::LightGray);
    assert_eq!(bus.ppu_memory.bg_palette_colour(2), PixelColour::DarkGray);
    assert_eq!(bus.ppu_memory.bg_palette_colour(3), PixelColour::Black);
    bus.write_byte(0xFF47, 0x1B);
    assert_eq!(bus.ppu_memory.bg_palette_colour(0), PixelColour::Black);
    assert_eq!(bus.ppu_memory.bg_palette_colour(3), PixelColour::White);
}

#[test]
fn cgb_palette_auto_increment() {
    let mut bus = MemoryBus::new(None, false);
    bus.write_byte(0xFF68, 0x80);
    bus.write_byte(0xFF69, 0x1F);
    bus.write_byte(0xFF69, 0x7C);
    assert_eq!(bus.read_byte(0xFF68), 0x82);
    assert_eq!(bus.ppu_memory.cgb_bg_colour(0, 0), PixelColour::RGBColour(0xF8, 0x00, 0xF8));
}

#[test]
fn joypad_select_and_interrupt() {
    let mut bus = MemoryBus::new(None, false);
    bus.write_byte(0xFF00, 0x20);
    assert_eq!(bus.read_byte(0xFF00), 0xEF);
    let mut state = InputState {
        is_up_pressed: false,
        is_down_pressed: false,
        is_left_pressed: false,
        is_right_pressed: true,
        is_a_pressed: false,
        is_b_pressed: false,
        is_start_pressed: false,
        is_select_pressed: false,
    };
    bus.update_input(&state);
    assert_eq!(bus.read_byte(0xFF00), 0xEE);
    assert_eq!(bus.read_byte(0xFF0F) & 0x10, 0x10);
    state.is_right_pressed = false;
    bus.update_input(&state);
    assert_eq!(bus.read_byte(0xFF00), 0xEF);
}

#[test]
fn boot_rom_unmaps() {
    let rom = rom_image(0x00, 0x00, 0x00, 2);
    let mut bus = MemoryBus::new(Some(rom), false);
    assert_eq!(bus.read_byte(0x0000), 0x31);
    bus.write_byte(0xFF50, 0x01);
    assert_eq!(bus.read_byte(0x0000), 0x00);
    bus.write_byte(0xFF50, 0x00);
    assert_eq!(bus.read_byte(0x0000), 0x00);
}

#[test]
fn wram_bank_switching_on_cgb() {
    let mut rom = rom_image(0x00, 0x00, 0x00, 2);
    rom[0x143] = 0x80;
    let mut bus = MemoryBus::new(Some(rom), false);
    assert!(bus.is_cgb);
    bus.write_byte(0xD000, 0x01);
    bus.write_byte(0xFF70, 0x02);
    assert_eq!(bus.read_byte(0xFF70), 0x02);
    assert_eq!(bus.read_byte(0xD000), 0x00);
    bus.write_byte(0xD000, 0x02);
    bus.write_byte(0xFF70, 0x00);
    assert_eq!(bus.read_byte(0xFF70), 0x01);
    assert_eq!(bus.read_byte(0xD000), 0x01);
}

#[test]
fn rtc_save_reloads() {
    let rom = rom_image(0x10, 0x00, 0x02, 2);
    let mut cart = Cartridge::new(Some(rom.clone()));
    cart.set_time(5000);
    cart.write(0x0000, 0x0A);
    cart.write(0x4000, 0x0A);
    cart.write(0xA000, 7);
    let blob = cart.save_blob();
    let mut again = Cartridge::new(Some(rom));
    again.load_save(&blob);
    again.set_time(5000);
    again.write(0x0000, 0x0A);
    again.write(0x4000, 0x0A);
    assert_eq!(again.read(0xA000), 7);
    assert_eq!(again.mbc3_rtc_last_update_timestamp, 5000);
}
