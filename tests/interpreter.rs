use chip8::cpu::Cpu;
use chip8::fault::Fault;
use chip8::instruction::Instruction;
use chip8::machine::Pause;

fn machine(rom: &[u8]) -> Cpu {
    let mut cpu = Cpu::new();
    assert_eq!(cpu.load_rom(&rom.to_vec()), Ok(()));
    cpu
}

fn run(cpu: &mut Cpu, steps: usize) {
    for _ in 0..steps {
        assert_eq!(cpu.step(0), Ok(()));
    }
}

#[test]
fn fresh_interpreter_state() {
    let cpu = Cpu::new();
    assert_eq!(cpu.pc(), 0x200);
    assert_eq!(cpu.index(), 0);
    assert_eq!(cpu.pause(), Pause::Running);
    assert_eq!(cpu.dt, 0);
    assert_eq!(cpu.st, 0);
    assert!(!cpu.drawn_this_frame);
    for x in 0..16 {
        assert_eq!(cpu.register(x), 0);
    }
}

#[test]
fn add_sets_carry() {
    let mut cpu = machine(&[0x60, 0xFF, 0x61, 0x01, 0x80, 0x14]);
    run(&mut cpu, 3);
    assert_eq!(cpu.register(0), 0x00);
    assert_eq!(cpu.register(0xF), 1);
    assert_eq!(cpu.pc(), 0x206);
}

#[test]
fn add_without_carry_clears_flag() {
    let mut cpu = machine(&[0x6F, 0x01, 0x60, 0x10, 0x61, 0x20, 0x80, 0x14]);
    run(&mut cpu, 4);
    assert_eq!(cpu.register(0), 0x30);
    assert_eq!(cpu.register(0xF), 0);
}

#[test]
fn sub_reports_borrow() {
    let mut cpu = machine(&[0x60, 0x01, 0x61, 0x02, 0x80, 0x15]);
    run(&mut cpu, 3);
    assert_eq!(cpu.register(0), 0xFF);
    assert_eq!(cpu.register(0xF), 0);
}

#[test]
fn sub_of_equal_values_is_not_greater() {
    let mut cpu = machine(&[0x60, 0x05, 0x61, 0x05, 0x80, 0x15]);
    run(&mut cpu, 3);
    assert_eq!(cpu.register(0), 0);
    assert_eq!(cpu.register(0xF), 0);
}

#[test]
fn subn_subtracts_from_vy() {
    let mut cpu = machine(&[0x60, 0x01, 0x61, 0x03, 0x80, 0x17]);
    run(&mut cpu, 3);
    assert_eq!(cpu.register(0), 0x02);
    assert_eq!(cpu.register(0xF), 1);
}

#[test]
fn shift_right_uses_vy() {
    let mut cpu = machine(&[0x60, 0x00, 0x61, 0x81, 0x80, 0x16]);
    run(&mut cpu, 3);
    assert_eq!(cpu.register(0), 0x40);
    assert_eq!(cpu.register(0xF), 1);
    assert_eq!(cpu.register(1), 0x81);
}

#[test]
fn shift_left_uses_vy() {
    let mut cpu = machine(&[0x60, 0x01, 0x61, 0x81, 0x80, 0x1E]);
    run(&mut cpu, 3);
    assert_eq!(cpu.register(0), 0x02);
    assert_eq!(cpu.register(0xF), 1);
}

#[test]
fn flag_register_keeps_flag_over_result() {
    let mut cpu = machine(&[0x6F, 0xFF, 0x61, 0x01, 0x8F, 0x14]);
    run(&mut cpu, 3);
    assert_eq!(cpu.register(0xF), 1);
}

#[test]
fn logic_ops_clear_flag() {
    let mut cpu = machine(&[
        0x6F, 0x05, 0x60, 0x0C, 0x61, 0x0A, 0x80, 0x11, 0x6F, 0x05, 0x62, 0x0C, 0x82, 0x12,
        0x6F, 0x05, 0x63, 0x0C, 0x83, 0x13,
    ]);
    run(&mut cpu, 4);
    assert_eq!(cpu.register(0), 0x0E);
    assert_eq!(cpu.register(0xF), 0);
    run(&mut cpu, 3);
    assert_eq!(cpu.register(2), 0x08);
    assert_eq!(cpu.register(0xF), 0);
    run(&mut cpu, 3);
    assert_eq!(cpu.register(3), 0x06);
    assert_eq!(cpu.register(0xF), 0);
}

#[test]
fn add_byte_wraps_without_flag() {
    let mut cpu = machine(&[0x6F, 0x07, 0x60, 0xF0, 0x70, 0x20]);
    run(&mut cpu, 3);
    assert_eq!(cpu.register(0), 0x10);
    assert_eq!(cpu.register(0xF), 0x07);
}

#[test]
fn skips_compare_registers_and_bytes() {
    let mut cpu = machine(&[0x60, 0x05, 0x30, 0x05]);
    run(&mut cpu, 2);
    assert_eq!(cpu.pc(), 0x206);
    let mut cpu = machine(&[0x60, 0x05, 0x40, 0x05]);
    run(&mut cpu, 2);
    assert_eq!(cpu.pc(), 0x204);
    let mut cpu = machine(&[0x60, 0x05, 0x61, 0x05, 0x50, 0x10]);
    run(&mut cpu, 3);
    assert_eq!(cpu.pc(), 0x208);
    let mut cpu = machine(&[0x60, 0x05, 0x61, 0x05, 0x90, 0x10]);
    run(&mut cpu, 3);
    assert_eq!(cpu.pc(), 0x206);
}

#[test]
fn jumps_set_program_counter() {
    let mut cpu = machine(&[0x13, 0x45]);
    run(&mut cpu, 1);
    assert_eq!(cpu.pc(), 0x345);
    let mut cpu = machine(&[0x60, 0x10, 0xB3, 0x00]);
    run(&mut cpu, 2);
    assert_eq!(cpu.pc(), 0x310);
}

#[test]
fn call_then_return_restores_pc() {
    let mut rom = vec![0u8; 0x102];
    rom[0] = 0x23;
    rom[1] = 0x00;
    rom[0x100] = 0x00;
    rom[0x101] = 0xEE;
    let mut cpu = machine(&rom);
    run(&mut cpu, 1);
    assert_eq!(cpu.pc(), 0x300);
    assert_eq!(cpu.stack().entries(), vec![0x202]);
    run(&mut cpu, 1);
    assert_eq!(cpu.pc(), 0x202);
    assert_eq!(cpu.stack().entries(), Vec::<u16>::new());
}

#[test]
fn seventeenth_call_overflows() {
    let mut cpu = machine(&[0x22, 0x00]);
    run(&mut cpu, 16);
    assert_eq!(cpu.step(0), Err(Fault::StackOverflow));
    assert_eq!(cpu.pc(), 0x200);
    assert_eq!(cpu.stack().entries().len(), 16);
}

#[test]
fn return_with_empty_stack_underflows() {
    let mut cpu = machine(&[0x00, 0xEE]);
    assert_eq!(cpu.step(0), Err(Fault::StackUnderflow));
    assert_eq!(cpu.pc(), 0x200);
}

#[test]
fn unknown_opcode_is_fatal() {
    let mut cpu = machine(&[0x80, 0x08]);
    assert_eq!(cpu.step(0), Err(Fault::UnknownOpcode { raw: 0x8008 }));
    assert_eq!(cpu.pc(), 0x200);
    let mut cpu = machine(&[0xF0, 0xFF]);
    assert_eq!(cpu.step(0), Err(Fault::UnknownOpcode { raw: 0xF0FF }));
}

#[test]
fn machine_call_is_ignored() {
    let mut cpu = machine(&[0x01, 0x23]);
    run(&mut cpu, 1);
    assert_eq!(cpu.pc(), 0x202);
}

#[test]
fn fetch_past_end_of_memory_is_fatal() {
    let mut cpu = machine(&[0x1F, 0xFF]);
    run(&mut cpu, 1);
    assert_eq!(cpu.step(0), Err(Fault::AddressOutOfRange { addr: 0xFFF }));
    assert_eq!(cpu.pc(), 0xFFF);
}

#[test]
fn fetch_reads_big_endian_word() {
    let mut cpu = machine(&[0x61, 0x02]);
    assert_eq!(cpu.memory().read_u16(0x200), 0x6102);
    run(&mut cpu, 1);
    assert_eq!(cpu.register(1), 0x02);
}

#[test]
fn cpu_rom_boundary() {
    let mut cpu = Cpu::new();
    assert_eq!(cpu.load_rom(&vec![0u8; 4096 - 0x200]), Ok(()));
    let mut cpu = Cpu::new();
    assert_eq!(cpu.load_rom(&vec![0u8; 4096 - 0x200 + 1]), Err(Fault::RomTooLarge { len: 3585 }));
}

#[test]
fn clear_screen_instruction() {
    let mut cpu = machine(&[0xA2, 0x06, 0xD0, 0x01, 0x00, 0xE0, 0x80]);
    run(&mut cpu, 2);
    assert_eq!(cpu.display().pixels()[0], 255);
    run(&mut cpu, 1);
    assert!(cpu.display().pixels().iter().all(|c| *c == 0));
}

#[test]
fn drawing_twice_sets_collision_flag() {
    let mut cpu = machine(&[0xA2, 0x08, 0xD0, 0x01, 0xD0, 0x01, 0x00, 0x00, 0x80]);
    run(&mut cpu, 2);
    assert_eq!(cpu.register(0xF), 0);
    assert_eq!(cpu.display().pixels()[0], 255);
    cpu.begin_frame();
    run(&mut cpu, 1);
    assert_eq!(cpu.register(0xF), 1);
    assert_eq!(cpu.display().pixels()[0], 0);
}

#[test]
fn second_draw_in_frame_waits_for_boundary() {
    let mut cpu = machine(&[0xA2, 0x08, 0xD0, 0x01, 0xD0, 0x01, 0x00, 0x00, 0x80]);
    run(&mut cpu, 2);
    assert!(cpu.drawn_this_frame);
    assert_eq!(cpu.pc(), 0x204);
    run(&mut cpu, 1);
    assert_eq!(cpu.pc(), 0x204);
    assert_eq!(cpu.display().pixels()[0], 255);
    run(&mut cpu, 1);
    assert_eq!(cpu.pc(), 0x204);
    cpu.begin_frame();
    assert!(!cpu.drawn_this_frame);
    run(&mut cpu, 1);
    assert_eq!(cpu.pc(), 0x206);
    assert_eq!(cpu.display().pixels()[0], 0);
}

#[test]
fn sprite_rows_come_from_index() {
    let mut cpu = machine(&[0x60, 0x02, 0x61, 0x01, 0xA2, 0x0A, 0xD0, 0x12, 0x00, 0x00, 0xC0, 0x30]);
    run(&mut cpu, 4);
    let pixels = cpu.display().pixels();
    assert_eq!(pixels[64 + 2], 255);
    assert_eq!(pixels[64 + 3], 255);
    assert_eq!(pixels[64 + 4], 0);
    assert_eq!(pixels[128 + 4], 255);
    assert_eq!(pixels[128 + 5], 255);
    assert_eq!(pixels[128 + 2], 0);
}

#[test]
fn key_wait_stores_on_press_and_resumes_on_release() {
    let mut cpu = machine(&[0xF5, 0x0A, 0x61, 0x07]);
    run(&mut cpu, 1);
    assert_eq!(cpu.pause(), Pause::AwaitingPress { register: 5 });
    cpu.begin_frame();
    run(&mut cpu, 3);
    assert_eq!(cpu.pause(), Pause::AwaitingPress { register: 5 });
    assert_eq!(cpu.pc(), 0x202);
    cpu.begin_frame();
    cpu.set_key(0xA, true);
    run(&mut cpu, 3);
    assert_eq!(cpu.register(5), 0xA);
    assert_eq!(cpu.pause(), Pause::AwaitingRelease { register: 5, key: 0xA });
    assert_eq!(cpu.pc(), 0x202);
    cpu.begin_frame();
    cpu.set_key(0xA, false);
    run(&mut cpu, 1);
    assert_eq!(cpu.pause(), Pause::Running);
    assert_eq!(cpu.pc(), 0x202);
    run(&mut cpu, 1);
    assert_eq!(cpu.register(1), 0x07);
}

#[test]
fn key_held_before_wait_is_not_taken() {
    let mut cpu = machine(&[0xF0, 0x0A]);
    cpu.set_key(3, true);
    cpu.begin_frame();
    run(&mut cpu, 2);
    assert_eq!(cpu.pause(), Pause::AwaitingPress { register: 0 });
}

#[test]
fn key_skips_read_current_frame() {
    let mut cpu = machine(&[0x60, 0x15, 0xE0, 0x9E]);
    cpu.set_key(5, true);
    run(&mut cpu, 2);
    assert_eq!(cpu.pc(), 0x206);
    let mut cpu = machine(&[0x60, 0x05, 0xE0, 0xA1]);
    run(&mut cpu, 2);
    assert_eq!(cpu.pc(), 0x206);
    let mut cpu = machine(&[0x60, 0x05, 0xE0, 0xA1]);
    cpu.set_key(5, true);
    run(&mut cpu, 2);
    assert_eq!(cpu.pc(), 0x204);
}

#[test]
fn timers_load_store_and_tick() {
    let mut cpu = machine(&[0x60, 0x03, 0xF0, 0x15, 0x61, 0x01, 0xF1, 0x18, 0xF2, 0x07]);
    run(&mut cpu, 4);
    assert_eq!(cpu.dt, 3);
    assert_eq!(cpu.st, 1);
    assert!(cpu.tick_timers());
    assert_eq!(cpu.dt, 2);
    assert_eq!(cpu.st, 0);
    assert!(!cpu.tick_timers());
    assert_eq!(cpu.st, 0);
    run(&mut cpu, 1);
    assert_eq!(cpu.register(2), 1);
}

#[test]
fn index_instructions() {
    let mut cpu = machine(&[0xA1, 0x23, 0x60, 0x10, 0xF0, 0x1E]);
    run(&mut cpu, 3);
    assert_eq!(cpu.index(), 0x133);
    let mut cpu = machine(&[0x60, 0x07, 0xF0, 0x29]);
    run(&mut cpu, 2);
    assert_eq!(cpu.index(), 0x50 + 7 * 5);
    let mut cpu = machine(&[0x60, 0xFF, 0xF0, 0x29]);
    run(&mut cpu, 2);
    assert_eq!(cpu.index(), 0x50 + 255 * 5);
}

#[test]
fn bcd_stores_decimal_digits() {
    let mut cpu = machine(&[0x60, 0xFE, 0xA4, 0x00, 0xF0, 0x33]);
    run(&mut cpu, 3);
    assert_eq!(cpu.memory().read_u8(0x400), 2);
    assert_eq!(cpu.memory().read_u8(0x401), 5);
    assert_eq!(cpu.memory().read_u8(0x402), 4);
    assert_eq!(cpu.index(), 0x400);
}

#[test]
fn bcd_past_end_of_memory_is_fatal() {
    let mut cpu = machine(&[0xAF, 0xFE, 0xF0, 0x33]);
    run(&mut cpu, 1);
    assert_eq!(cpu.step(0), Err(Fault::AddressOutOfRange { addr: 0xFFE }));
    assert_eq!(cpu.pc(), 0x202);
}

#[test]
fn bulk_store_and_load_advance_index() {
    let mut cpu = machine(&[
        0x60, 0x01, 0x61, 0x02, 0x62, 0x03, 0xA4, 0x00, 0xF2, 0x55, 0x60, 0x00, 0x61, 0x00, 0x62,
        0x00, 0xA4, 0x00, 0xF1, 0x65,
    ]);
    run(&mut cpu, 5);
    assert_eq!(cpu.memory().read_u8(0x400), 1);
    assert_eq!(cpu.memory().read_u8(0x401), 2);
    assert_eq!(cpu.memory().read_u8(0x402), 3);
    assert_eq!(cpu.memory().read_u8(0x403), 0);
    assert_eq!(cpu.index(), 0x403);
    run(&mut cpu, 5);
    assert_eq!(cpu.register(0), 1);
    assert_eq!(cpu.register(1), 2);
    assert_eq!(cpu.register(2), 0);
    assert_eq!(cpu.index(), 0x402);
}

#[test]
fn bulk_store_past_end_of_memory_is_fatal() {
    let mut cpu = machine(&[0xAF, 0xFD, 0xF3, 0x55]);
    run(&mut cpu, 1);
    assert_eq!(cpu.step(0), Err(Fault::AddressOutOfRange { addr: 0xFFD }));
    assert_eq!(cpu.index(), 0xFFD);
}

#[test]
fn random_masks_drawn_byte() {
    let mut cpu = machine(&[0xC0, 0x0F]);
    assert_eq!(cpu.step(0xAB), Ok(()));
    assert_eq!(cpu.register(0), 0x0B);
}

#[test]
fn random_from_generator_respects_mask() {
    let mut cpu = machine(&[0x60, 0xFF, 0xC0, 0x00, 0xC1, 0x0F]);
    for _ in 0..3 {
        assert_eq!(cpu.decode_next_instruction(), Ok(()));
    }
    assert_eq!(cpu.register(0), 0);
    assert!(cpu.register(1) <= 0x0F);
    assert_eq!(cpu.pc(), 0x206);
}

#[test]
fn execute_instruction_runs_one_opcode() {
    let mut cpu = Cpu::new();
    assert_eq!(cpu.execute_instruction(&Instruction::new(0x6AFF)), Ok(()));
    assert_eq!(cpu.register(0xA), 0xFF);
    assert_eq!(cpu.pc(), 0x200);
    assert_eq!(cpu.execute(&Instruction::new(0x8AA4), 0), Ok(()));
    assert_eq!(cpu.register(0xA), 0xFE);
    assert_eq!(cpu.register(0xF), 1);
    assert_eq!(
        cpu.execute_instruction(&Instruction::new(0xE0FF)),
        Err(Fault::UnknownOpcode { raw: 0xE0FF })
    );
}
