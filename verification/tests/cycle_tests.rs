use crusty_chip::VirtualMachine;
use crusty_chip::DISPLAY_WIDTH;
use crusty_chip::MEM_SIZE;

fn load_program(words: &[u16]) -> VirtualMachine {
    let mut rom = Vec::new();
    for w in words {
        rom.push((w >> 8) as u8);
        rom.push((w & 0xFF) as u8);
    }
    let mut vm = VirtualMachine::new();
    vm.load_rom(&rom);
    vm
}

#[test]
fn test_rom_load_exact_capacity() {
    let rom: Vec<u8> = (0..(MEM_SIZE - 0x200)).map(|k| (k % 256) as u8).collect();
    let mut vm = VirtualMachine::new();
    vm.load_rom(&rom);
    assert_eq!(vm.ram[0x200], rom[0]);
    assert_eq!(vm.ram[0x5FF], rom[0x3FF]);
    assert_eq!(vm.ram[4095], rom[3583]);
}

#[test]
fn test_rom_load_oversize_truncated() {
    let rom: Vec<u8> = (0..(MEM_SIZE - 0x200 + 1)).map(|k| (k % 251) as u8).collect();
    let mut vm = VirtualMachine::new();
    vm.load_rom(&rom);
    assert_eq!(vm.ram.len(), MEM_SIZE);
    assert_eq!(vm.ram[4095], rom[3583]);
    assert_eq!(vm.pc(), 0x200);
}

#[test]
fn test_do_cycle_runs_program() {
    let mut vm = load_program(&[0x6005, 0x6103, 0x8014]);
    vm.do_cycle();
    vm.do_cycle();
    vm.do_cycle();
    assert_eq!(vm.v[0], 8);
    assert_eq!(vm.v[1], 3);
    assert_eq!(vm.v[15], 0);
    assert_eq!(vm.pc(), 0x206);
}

#[test]
fn test_get_ins_reads_without_advancing() {
    let mut vm = load_program(&[0x6005]);
    assert_eq!(vm.get_ins(), 0x6005);
    assert_eq!(vm.pc(), 0x200);
    assert!(!vm.halt);
}

#[test]
fn test_unknown_opcode_logged_and_execution_continues() {
    let mut vm = load_program(&[0x5231, 0x6042]);
    vm.do_cycle();
    assert!(!vm.halt);
    assert_eq!(vm.pc(), 0x202);
    assert!(vm.log.contains("Unknown instruction"));
    vm.do_cycle();
    assert_eq!(vm.v[0], 0x42);
}

#[test]
fn test_fetch_out_of_bounds_halts_permanently() {
    let mut vm = VirtualMachine::new();
    vm.pc = 4095;
    vm.do_cycle();
    assert!(vm.halt);
    assert_eq!(vm.pc(), 4095);
    let log_len = vm.log.len();
    vm.do_cycle();
    assert!(vm.halt);
    assert_eq!(vm.pc(), 4095);
    assert_eq!(vm.log.len(), log_len);
}

#[test]
fn test_jump_to_sys_routine_is_noop() {
    let mut vm = load_program(&[0x0123]);
    vm.do_cycle();
    assert!(!vm.halt);
    assert_eq!(vm.pc(), 0x202);
    assert!(vm.log.is_empty());
}

#[test]
fn test_call_return_round_trip() {
    let mut vm = load_program(&[0x2300]);
    vm.do_cycle();
    assert_eq!(vm.pc(), 0x300);
    assert_eq!(vm.sp, 1);
    assert_eq!(vm.stack[0], 0x202);
    vm.ram[0x300] = 0x00;
    vm.ram[0x301] = 0xEE;
    vm.do_cycle();
    assert_eq!(vm.pc(), 0x202);
    assert_eq!(vm.sp, 0);
}

#[test]
fn test_sixteen_nested_calls_and_overflow() {
    let mut vm = VirtualMachine::new();
    for k in 0..16 {
        vm.call_subroutine(0x400 + k);
        assert_eq!(vm.sp, (k + 1) as u8);
    }
    assert_eq!(vm.pc(), 0x40F);
    let log_len = vm.log.len();
    vm.call_subroutine(0x500);
    assert_eq!(vm.sp, 16);
    assert_eq!(vm.pc(), 0x500);
    assert!(vm.log.len() > log_len);
    assert_eq!(vm.stack[15], 0x40E);
    for _ in 0..16 {
        vm.ret_from_subroutine();
    }
    assert_eq!(vm.sp, 0);
    assert_eq!(vm.pc(), 0x200);
}

#[test]
fn test_return_with_empty_stack_is_logged_noop() {
    let mut vm = VirtualMachine::new();
    vm.ret_from_subroutine();
    assert_eq!(vm.sp, 0);
    assert_eq!(vm.pc(), 0x200);
    assert!(!vm.log.is_empty());
    assert!(!vm.halt);
}

#[test]
fn test_key_wait_round_trip() {
    let mut vm = load_program(&[0xF10A, 0x6310]);
    vm.do_cycle();
    assert!(vm.waiting_for_key());
    assert_eq!(vm.pc(), 0x202);
    vm.do_cycle();
    assert!(vm.waiting_for_key());
    assert_eq!(vm.pc(), 0x202);
    assert_eq!(vm.v[3], 0);
    vm.press_key(5);
    assert!(!vm.waiting_for_key());
    assert_eq!(vm.v[1], 5);
    vm.do_cycle();
    assert_eq!(vm.v[3], 0x10);
    assert_eq!(vm.pc(), 0x204);
}

#[test]
fn test_release_key_does_not_resolve_wait() {
    let mut vm = load_program(&[0xF10A]);
    vm.do_cycle();
    assert!(vm.waiting_for_key());
    vm.release_key(5);
    assert!(vm.waiting_for_key());
}

#[test]
fn test_sprite_draw_double_xor_restores_display() {
    let mut vm = VirtualMachine::new();
    vm.i = 0;
    vm.v[0] = 3;
    vm.v[1] = 2;
    let before: Vec<u8> = vm.display().clone();
    vm.display_sprite(0, 1, 5);
    assert_eq!(vm.v[15], 0);
    assert!(vm.display_updated());
    let idx = 2 * DISPLAY_WIDTH + 3;
    assert_eq!(vm.display()[idx], 1);
    vm.display_sprite(0, 1, 5);
    assert_eq!(vm.v[15], 1);
    assert_eq!(vm.display(), &before);
}

#[test]
fn test_sprite_draw_glyph_pattern() {
    let mut vm = VirtualMachine::new();
    vm.v[0] = 0;
    vm.v[1] = 0;
    vm.i = 5;
    vm.display_sprite(0, 1, 5);
    let row = |y: usize| -> u8 {
        let mut b = 0u8;
        for x in 0..8 {
            b = (b << 1) | vm.display()[y * DISPLAY_WIDTH + x];
        }
        b
    };
    assert_eq!(row(0), 0x20);
    assert_eq!(row(1), 0x60);
    assert_eq!(row(2), 0x20);
    assert_eq!(row(3), 0x20);
    assert_eq!(row(4), 0x70);
}

#[test]
fn test_sprite_draw_clips_at_frame_edge() {
    let mut vm = VirtualMachine::new();
    vm.ram[0x700] = 0xFF;
    vm.i = 0x700;
    vm.v[0] = 60;
    vm.v[1] = 31;
    vm.display_sprite(0, 1, 1);
    let base = 31 * DISPLAY_WIDTH;
    assert_eq!(vm.display()[base + 59], 0);
    assert_eq!(vm.display()[base + 60], 1);
    assert_eq!(vm.display()[base + 63], 1);
    assert_eq!(vm.display()[0], 0);
    assert_eq!(vm.display()[60], 0);
    let set: usize = vm.display().iter().map(|&p| p as usize).sum();
    assert_eq!(set, 4);
}

#[test]
fn test_sprite_read_out_of_bounds_halts() {
    let mut vm = VirtualMachine::new();
    vm.i = 4095;
    vm.display_sprite(0, 1, 2);
    assert!(vm.halt);
    assert!(!vm.display_updated());
}
