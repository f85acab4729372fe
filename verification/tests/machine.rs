use chip8::decoder::DecodedOpcode;
use chip8::processor::Processor;
use chip8::{MAX_ROM_SIZE, MEMORY_SIZE, RESERVED_MEMORY_SIZE};

// Dirty-flag coalescing: without an intervening pixel mutation, a second pass
// of the display-refresh path owes no redraw.
#[test]
fn test_refresh_coalescing() {
    let mut processor = Processor::new();
    processor.screen.set_pixel(7, true);
    assert_eq!(processor.screen.refresh(), true);
    assert_eq!(processor.screen.refresh(), false);
    processor.screen.set_pixel(7, false);
    assert_eq!(processor.screen.refresh(), true);
    assert_eq!(processor.screen.refresh(), false);
}

// A timer already at zero stays at zero; a nonzero timer moves one step down.
#[test]
fn test_timer_floor() {
    let mut processor = Processor::new();
    processor.delay_timer = 0;
    processor.sound_timer = 1;
    processor.decrement_timers();
    assert_eq!(processor.delay_timer, 0);
    assert_eq!(processor.sound_timer, 0);
    processor.decrement_timers();
    assert_eq!(processor.delay_timer, 0);
    assert_eq!(processor.sound_timer, 0);
}

// An unknown opcode is reported, not executed: the program counter advances by
// one instruction and nothing else changes.
#[test]
fn test_unknown_opcode_advances() {
    let mut processor = Processor::new();
    let registers_before = processor.v_registers.clone();
    processor.execute_opcode(processor.decode_opcode(0x800F));
    assert_eq!(processor.program_counter, 0x202);
    assert_eq!(processor.v_registers, registers_before);
    assert_eq!(processor.stack_pointer, 0);
}

// The legacy machine-subroutine form is reported the same way.
#[test]
fn test_sys_opcode_reported() {
    let mut processor = Processor::new();
    let decoded = processor.decode_opcode(0x0123);
    assert_eq!(decoded, DecodedOpcode::SysNnn { nnn: 0x123 });
    processor.execute_opcode(decoded);
    assert_eq!(processor.program_counter, 0x202);
}

// A return with an empty call stack is reported and skipped, never wrapped.
#[test]
fn test_ret_empty_stack_reported() {
    let mut processor = Processor::new();
    processor.execute_opcode(processor.decode_opcode(0x00EE));
    assert_eq!(processor.stack_pointer, 0);
    assert_eq!(processor.program_counter, 0x202);
}

// A call with a full call stack is reported and skipped, never clobbered.
#[test]
fn test_call_full_stack_reported() {
    let mut processor = Processor::new();
    processor.stack_pointer = 16;
    processor.execute_opcode(processor.decode_opcode(0x2ABC));
    assert_eq!(processor.stack_pointer, 16);
    assert_eq!(processor.program_counter, 0x202);
}

// An oversized program is truncated to the region's capacity; the bytes that
// fit are copied, the rest are dropped.
#[test]
fn test_oversized_rom_truncates() {
    let mut processor = Processor::new();
    let rom: Vec<u8> = (0..4000u16).map(|k| (k % 251) as u8).collect();
    processor.memory.reset(&rom, rom.len());
    assert_eq!(processor.memory.rom_size, 4000);
    assert_eq!(processor.memory.load(RESERVED_MEMORY_SIZE), rom[0]);
    assert_eq!(
        processor.memory.load(MEMORY_SIZE - 1),
        rom[MAX_ROM_SIZE - 1]
    );
}

// An empty program leaves the program region as it was.
#[test]
fn test_empty_rom_changes_nothing() {
    let mut processor = Processor::new();
    processor.memory.reset(&[], 0);
    assert_eq!(processor.memory.rom_size, 0);
    assert_eq!(processor.memory.load(RESERVED_MEMORY_SIZE), 0);
}

// ADD I, Vx flags against the documented threshold 0xF00, not the end of the
// address space.
#[test]
fn test_add_i_threshold() {
    let mut processor = Processor::new();
    processor.i_register = 0xEFF;
    processor.v_registers[1] = 1;
    processor.execute_opcode(processor.decode_opcode(0xF11E));
    assert_eq!(processor.i_register, 0xF00);
    assert_eq!(processor.v_registers[0xF], 0);

    processor.v_registers[1] = 1;
    processor.execute_opcode(processor.decode_opcode(0xF11E));
    assert_eq!(processor.i_register, 0xF01);
    assert_eq!(processor.v_registers[0xF], 1);
}

// A reported cycle hands the offending instruction back to the caller.
#[test]
fn test_tick_reports_unknown_opcode() {
    let mut processor = Processor::new();
    processor.memory.reset(&[0x80, 0x0F], 2);
    let reported = processor.tick(0);
    assert_eq!(reported, Some(DecodedOpcode::Unknown { opcode: 0x800F }));
    assert_eq!(processor.program_counter, 0x202);
    let reported = processor.tick(0);
    assert_eq!(reported, Some(DecodedOpcode::SysNnn { nnn: 0 }));
    assert_eq!(processor.program_counter, 0x204);
}

// An ordinary cycle reports nothing.
#[test]
fn test_tick_reports_nothing_when_executing() {
    let mut processor = Processor::new();
    processor.memory.reset(&[0x65, 0x2A], 2);
    assert_eq!(processor.tick(0), None);
}

// The deterministic core of the random instruction masks the supplied byte.
#[test]
fn test_rnd_core_masks_supplied_byte() {
    let mut processor = Processor::new();
    processor.execute_rnd_vx_nn_with(4, 0x0F, 0xAB);
    assert_eq!(processor.v_registers[4], 0x0B);
    processor.execute_rnd_vx_nn_with(4, 0x00, 0xFF);
    assert_eq!(processor.v_registers[4], 0x00);
}

// A full running cycle: fetch the word at the program counter, decode it,
// execute it.
#[test]
fn test_tick_runs_loaded_program() {
    let mut processor = Processor::new();
    // LD V5, 0x2A then LD V6, V5
    processor.memory.reset(&[0x65, 0x2A, 0x86, 0x50], 4);
    processor.tick(0);
    assert_eq!(processor.v_registers[5], 0x2A);
    assert_eq!(processor.program_counter, 0x202);
    processor.tick(0);
    assert_eq!(processor.v_registers[6], 0x2A);
    assert_eq!(processor.program_counter, 0x204);
}

// The key that ends a wait is the lowest-numbered one pressed.
#[test]
fn test_wait_takes_lowest_key() {
    let mut processor = Processor::new();
    processor.execute_opcode(processor.decode_opcode(0xF30A));
    assert!(processor.keypad_wait);
    processor.tick(0b1010_0000);
    assert!(!processor.keypad_wait);
    assert_eq!(processor.v_registers[3], 5);
    assert_eq!(processor.program_counter, 0x202);
}

// A zero-height sprite draws nothing and clears the collision flag.
#[test]
fn test_draw_zero_rows() {
    let mut processor = Processor::new();
    processor.v_registers[0xF] = 1;
    processor.execute_opcode(processor.decode_opcode(0xD000));
    for index in 0..64 * 32 {
        assert_eq!(processor.screen.get_pixel(index), false);
    }
    assert_eq!(processor.v_registers[0xF], 0);
    assert_eq!(processor.program_counter, 0x202);
}

// Drawing the same sprite twice erases it and reports the collision.
#[test]
fn test_draw_twice_erases() {
    let mut processor = Processor::new();
    processor.i_register = 0x300;
    processor.memory.store(0x300, 0b1111_0000);
    processor.execute_opcode(processor.decode_opcode(0xD001));
    assert_eq!(processor.v_registers[0xF], 0);
    assert_eq!(processor.screen.get_pixel(0), true);
    processor.program_counter = 0x200;
    processor.execute_opcode(processor.decode_opcode(0xD001));
    assert_eq!(processor.v_registers[0xF], 1);
    for index in 0..64 * 32 {
        assert_eq!(processor.screen.get_pixel(index), false);
    }
}
