use gbmu::memory_bus::MemoryBus;
use gbmu::timer::Timer;

#[test]
fn test_timer() {
    let mut memory_bus = MemoryBus::new(None, false);
    let mut timer = Timer::new();
    println!("DIV is {:x}, TIMA is {:x}", memory_bus.timer_memory.read(0xFF04), memory_bus.timer_memory.read(0xFF05));
    for _ in 0..0x100 {
        timer.tick(&mut memory_bus);
        println!("DIV is {:x}, TIMA is {:x}", memory_bus.timer_memory.read(0xFF04), memory_bus.timer_memory.read(0xFF05));
    }
    assert_eq!(memory_bus.timer_memory.read(0xFF04), 0x01);
    assert_eq!(memory_bus.timer_memory.read(0xFF05), 0x00);
    memory_bus.timer_memory.write(0xFF07, 0x04);
    for _ in 0..0x400 {
        timer.tick(&mut memory_bus);
        println!("DIV is {:x}, TIMA is {:x}", memory_bus.timer_memory.read(0xFF04), memory_bus.timer_memory.read(0xFF05));
    }
    assert_eq!(memory_bus.timer_memory.read(0xFF04), 0x05);
    assert_eq!(memory_bus.timer_memory.read(0xFF05), 0x01);
    memory_bus.timer_memory.write(0xFF07, 0x05);
    for _ in 0..0x100 {
        timer.tick(&mut memory_bus);
        println!("DIV is {:x}, TIMA is {:x}", memory_bus.timer_memory.read(0xFF04), memory_bus.timer_memory.read(0xFF05));
    }
    assert_eq!(memory_bus.timer_memory.read(0xFF04), 0x06);
    assert_eq!(memory_bus.timer_memory.read(0xFF05), 0x11);
}

#[test]
fn timer_overflow_reloads_and_interrupts() {
    let mut bus = MemoryBus::new(None, false);
    let mut timer = Timer::new();
    bus.write_byte(0xFF07, 0x05);
    bus.write_byte(0xFF05, 0xFF);
    bus.write_byte(0xFF06, 0xAB);
    for _ in 0..16 {
        timer.tick(&mut bus);
    }
    assert_eq!(bus.read_byte(0xFF05), 0xAB);
    assert_eq!(bus.read_byte(0xFF0F) & 0x04, 0x04);
}

#[test]
fn div_write_resets() {
    let mut bus = MemoryBus::new(None, false);
    let mut timer = Timer::new();
    for _ in 0..0x300 {
        timer.tick(&mut bus);
    }
    assert_eq!(bus.read_byte(0xFF04), 0x03);
    bus.write_byte(0xFF04, 0x77);
    assert_eq!(bus.read_byte(0xFF04), 0x00);
}
