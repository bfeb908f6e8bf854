use gbmu::cpu::Cpu;
use gbmu::emulator::run_instruction;
use gbmu::memory_bus::MemoryBus;
use gbmu::ppu::{Ppu, PPUModes, FRAMEBUFFER_LEN};
use gbmu::timer::Timer;

const LOGO: [u8; 48] = [
    0xCE, 0xED, 0x66, 0x66, 0xCC, 0x0D, 0x00, 0x0B, 0x03, 0x73, 0x00, 0x83, 0x00, 0x0C, 0x00, 0x0D, 0x00, 0x08,
    0x11, 0x1F, 0x88, 0x89, 0x00, 0x0E, 0xDC, 0xCC, 0x6E, 0xE6, 0xDD, 0xDD, 0xD9, 0x99, 0xBB, 0xBB, 0x67, 0x63,
    0x6E, 0x0E, 0xEC, 0xCC, 0xDD, 0xDC, 0x99, 0x9F, 0xBB, 0xB9, 0x33, 0x3E,
];

#[test]
fn dmg_boot_reaches_cartridge() {
    let mut rom = vec![0u8; 0x8000];
    rom[0x104..0x134].copy_from_slice(&LOGO);
    rom[0x14D] = 0xE7;
    let mut bus = MemoryBus::new(Some(rom), true);
    let mut cpu = Cpu::new();
    let mut ppu = Ppu::new();
    let mut timer = Timer::new();
    let mut fb = vec![0u8; FRAMEBUFFER_LEN];
    let mut steps = 0u32;
    while bus.bootrom_reg == 0 && steps < 5_000_000 {
        run_instruction(&mut cpu, &mut bus, &mut ppu, &mut timer, &mut fb).unwrap();
        steps += 1;
    }
    assert_ne!(bus.bootrom_reg, 0);
    assert_eq!(bus.read_byte(0xFF40), 0x91);
    assert_eq!(bus.read_byte(0xFF47), 0xFC);
    assert_eq!(bus.read_byte(0xFF42), 0x00);
    assert_eq!(bus.read_byte(0xFF43), 0x00);
    assert_eq!(cpu.registers.a, 0x01);
    assert!(cpu.registers.f.zero);
    assert!(!cpu.registers.f.substract);
    assert!(cpu.registers.f.half_carry);
    assert!(cpu.registers.f.carry);
    // the logo was drawn: some pixel of the frame is black
    assert!(fb.chunks(4).any(|p| p[0] == 0 && p[1] == 0 && p[2] == 0));
}

#[test]
fn frame_takes_70224_dots() {
    let mut bus = MemoryBus::new(None, false);
    let mut ppu = Ppu::new();
    let mut fb = vec![0u8; FRAMEBUFFER_LEN];
    bus.write_byte(0xFF40, 0x91);
    let (done, _) = ppu.tick(&mut bus, &mut fb);
    assert!(done);
    let mut dots = 0u32;
    loop {
        dots += 1;
        let (done, _) = ppu.tick(&mut bus, &mut fb);
        if done {
            break;
        }
    }
    assert_eq!(dots, 70224);
}

#[test]
fn vblank_and_stat_interrupts() {
    let mut bus = MemoryBus::new(None, false);
    let mut ppu = Ppu::new();
    let mut fb = vec![0u8; FRAMEBUFFER_LEN];
    bus.write_byte(0xFF40, 0x91);
    bus.write_byte(0xFF41, 0x40);
    bus.write_byte(0xFF45, 0x05);
    let mut stat_count = 0;
    let mut vblank_count = 0;
    for _ in 0..70224 {
        ppu.tick(&mut bus, &mut fb);
        let f = bus.read_byte(0xFF0F);
        if f & 0x02 != 0 {
            stat_count += 1;
            bus.write_byte(0xFF0F, f & !0x02);
        }
        if f & 0x01 != 0 {
            vblank_count += 1;
            bus.write_byte(0xFF0F, f & !0x01);
        }
    }
    assert_eq!(stat_count, 1);
    assert_eq!(vblank_count, 1);
}

#[test]
fn lcd_off_parks_pipeline() {
    let mut bus = MemoryBus::new(None, false);
    let mut ppu = Ppu::new();
    let mut fb = vec![0u8; FRAMEBUFFER_LEN];
    bus.write_byte(0xFF40, 0x91);
    for _ in 0..500 {
        ppu.tick(&mut bus, &mut fb);
    }
    bus.write_byte(0xFF40, 0x11);
    assert_eq!(bus.read_byte(0xFF44), 0);
    ppu.tick(&mut bus, &mut fb);
    assert_eq!(ppu.ppu_mode, PPUModes::OAMSearch(0, 0));
}

#[test]
fn oam_dma_copies_page() {
    let mut bus = MemoryBus::new(None, false);
    let mut ppu = Ppu::new();
    let mut fb = vec![0u8; FRAMEBUFFER_LEN];
    for i in 0..0xA0u16 {
        bus.write_byte(0xC100 + i, i as u8);
    }
    bus.write_byte(0xFF46, 0xC1);
    for _ in 0..644 {
        ppu.tick(&mut bus, &mut fb);
    }
    assert!(!bus.ppu_memory.oam_dma_is_active);
    assert_eq!(bus.read_byte(0xFE00), 0x00);
    assert_eq!(bus.read_byte(0xFE9F), 0x9F);
}

#[test]
fn gdma_copies_and_holds_cpu() {
    let mut rom = vec![0u8; 0x8000];
    rom[0x143] = 0x80;
    let mut bus = MemoryBus::new(Some(rom), false);
    assert!(bus.is_cgb);
    let mut ppu = Ppu::new();
    let mut fb = vec![0u8; FRAMEBUFFER_LEN];
    for i in 0..32u16 {
        bus.write_byte(0xC000 + i, 0x40 + i as u8);
    }
    bus.write_byte(0xFF51, 0xC0);
    bus.write_byte(0xFF52, 0x00);
    bus.write_byte(0xFF53, 0x01);
    bus.write_byte(0xFF54, 0x00);
    bus.write_byte(0xFF55, 0x01);
    for _ in 0..32 {
        let (_, holds) = ppu.tick(&mut bus, &mut fb);
        assert!(holds);
    }
    let (_, holds) = ppu.tick(&mut bus, &mut fb);
    assert!(!holds);
    assert_eq!(bus.read_byte(0xFF55), 0xFF);
    assert_eq!(bus.read_byte(0x8100), 0x40);
    assert_eq!(bus.read_byte(0x811F), 0x5F);
}

#[test]
fn lcd_reenable_starts_line_zero() {
    let mut bus = MemoryBus::new(None, false);
    let mut ppu = Ppu::new();
    let mut fb = vec![0u8; FRAMEBUFFER_LEN];
    bus.write_byte(0xFF40, 0x11);
    ppu.tick(&mut bus, &mut fb);
    bus.write_byte(0xFF40, 0x91);
    let (done, _) = ppu.tick(&mut bus, &mut fb);
    assert!(!done);
    assert_eq!(bus.read_byte(0xFF44), 0);
    assert_eq!(ppu.ppu_mode, PPUModes::OAMSearch(0, 1));
}
