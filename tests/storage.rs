use chip8::fault::Fault;
use chip8::memory::{Memory, MEMORY_SIZE, ROM_START};
use chip8::stack::Stack;

#[test]
fn fresh_memory_is_zero() {
    let memory = Memory::new();
    assert_eq!(memory.read_u8(0), 0);
    assert_eq!(memory.read_u8(0x200), 0);
    assert_eq!(memory.read_u8(0xFFF), 0);
}

#[test]
fn rom_of_exact_size_loads() {
    let mut memory = Memory::new();
    let mut rom = vec![0u8; MEMORY_SIZE - ROM_START];
    rom[0] = 0x12;
    let last = rom.len() - 1;
    rom[last] = 0x34;
    assert_eq!(memory.load_rom(&rom), Ok(()));
    assert_eq!(memory.read_u8(0x200), 0x12);
    assert_eq!(memory.read_u8(0xFFF), 0x34);
}

#[test]
fn rom_one_byte_too_large_fails() {
    let mut memory = Memory::new();
    let rom = vec![0xAAu8; MEMORY_SIZE - ROM_START + 1];
    assert_eq!(memory.load_rom(&rom), Err(Fault::RomTooLarge { len: 0xE01 }));
    assert_eq!(memory.read_u8(0x200), 0);
}

#[test]
fn rom_leaves_reserved_area_alone() {
    let mut memory = Memory::new();
    memory.write_u8(0x50, 0xF0);
    assert_eq!(memory.load_rom(&vec![1, 2, 3]), Ok(()));
    assert_eq!(memory.read_u8(0x50), 0xF0);
    assert_eq!(memory.read_u8(0x1FF), 0);
    assert_eq!(memory.read_u8(0x202), 3);
    assert_eq!(memory.read_u8(0x203), 0);
}

#[test]
fn word_fetch_is_big_endian() {
    let mut memory = Memory::new();
    assert_eq!(memory.load_rom(&vec![0x61, 0x02]), Ok(()));
    assert_eq!(memory.read_u16(0x200), 0x6102);
}

#[test]
fn stack_is_last_in_first_out() {
    let mut stack = Stack::new();
    assert_eq!(stack.push(0x202), Ok(()));
    assert_eq!(stack.push(0x304), Ok(()));
    assert_eq!(stack.pop(), Ok(0x304));
    assert_eq!(stack.pop(), Ok(0x202));
}

#[test]
fn seventeenth_push_overflows() {
    let mut stack = Stack::new();
    for k in 0..16u16 {
        assert_eq!(stack.push(k), Ok(()));
    }
    assert_eq!(stack.push(16), Err(Fault::StackOverflow));
    assert_eq!(stack.pop(), Ok(15));
}

#[test]
fn pop_of_empty_stack_underflows() {
    let mut stack = Stack::new();
    assert_eq!(stack.pop(), Err(Fault::StackUnderflow));
    assert_eq!(stack.push(7), Ok(()));
    assert_eq!(stack.pop(), Ok(7));
    assert_eq!(stack.pop(), Err(Fault::StackUnderflow));
}
