//! A Game Boy (DMG / CGB) emulator core: SM83 CPU, memory bus with cartridge
//! mappers, picture processing unit, timer and joypad.
pub mod registers;
pub mod alu;
pub mod timer_memory;
pub mod input_memory;
pub mod cartridge;
pub mod ppu_memory;
pub mod boot_rom;
pub mod memory_bus;
pub mod timer;
pub mod instructions;
pub mod cpu;
pub mod ppu;
pub mod emulator;
