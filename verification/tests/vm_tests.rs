use crusty_chip::nth_bit;
use crusty_chip::VirtualMachine;

#[test]
fn test_nth_bit() {
    assert_eq!(nth_bit(0b10000000, 0), 1);
    for i in 1..8 {
        assert_eq!(nth_bit(0b10000000, i), 0);
    }
    assert_eq!(nth_bit(0b01000000, 1), 1);
    assert_eq!(nth_bit(0b00100000, 2), 1);
    assert_eq!(nth_bit(0b00010000, 3), 1);
    assert_eq!(nth_bit(0b00001000, 4), 1);
    assert_eq!(nth_bit(0b00000100, 5), 1);
    assert_eq!(nth_bit(0b00000010, 6), 1);
    assert_eq!(nth_bit(0b00000001, 7), 1);
}

#[test]
fn ops_test_strore_bcd_of_vx_to_i() {
    let mut vm = VirtualMachine::new();
    vm.v[0] = 146;
    vm.i = 0;
    vm.store_bcd_of_vx_to_i(0);
    assert!(vm.ram[0] == 1);
    assert!(vm.ram[1] == 4);
    assert!(vm.ram[2] == 6);
}

#[test]
fn crustychip_test_strore_bcd_of_vx_to_i() {
    let mut vm = VirtualMachine::new();
    vm.v[0] = 146;
    vm.i = 0;
    vm.store_bcd_of_vx_to_i(0);
    assert!(vm.ram[0] == 1);
    assert!(vm.ram[1] == 4);
    assert!(vm.ram[2] == 6);
}

#[test]
fn test_bcd_zero_and_max() {
    let mut vm = VirtualMachine::new();
    vm.v[7] = 0;
    vm.i = 0x300;
    vm.store_bcd_of_vx_to_i(7);
    assert_eq!(&vm.ram[0x300..0x303], &[0, 0, 0]);
    vm.v[7] = 255;
    vm.store_bcd_of_vx_to_i(7);
    assert_eq!(&vm.ram[0x300..0x303], &[2, 5, 5]);
}

#[test]
fn test_bcd_out_of_bounds_halts() {
    let mut vm = VirtualMachine::new();
    vm.v[0] = 42;
    vm.i = 4094;
    vm.store_bcd_of_vx_to_i(0);
    assert!(vm.halt);
    assert!(!vm.log.is_empty());
}

#[test]
fn test_new_machine_state() {
    let vm = VirtualMachine::new();
    assert_eq!(vm.pc(), 0x200);
    assert_eq!(vm.ram[0], 0xF0);
    assert_eq!(vm.ram[79], 0x80);
    assert_eq!(vm.ram[80], 0);
    assert_eq!(vm.i, 0);
    assert_eq!(vm.sp, 0);
    assert_eq!(vm.delay_timer, 0);
    assert_eq!(vm.sound_timer, 0);
    assert!(vm.display().iter().all(|&p| p == 0));
    assert!(!vm.display_updated());
    assert!(!vm.waiting_for_key());
    assert!(!vm.halt);
}

#[test]
fn test_add_with_carry() {
    let mut vm = VirtualMachine::new();
    vm.v[1] = 200;
    vm.v[2] = 100;
    vm.add_vx_vy(1, 2);
    assert_eq!(vm.v[1], 44);
    assert_eq!(vm.v[15], 1);
    vm.v[3] = 5;
    vm.v[4] = 10;
    vm.add_vx_vy(3, 4);
    assert_eq!(vm.v[3], 15);
    assert_eq!(vm.v[15], 0);
}

#[test]
fn test_add_boundary_255() {
    let mut vm = VirtualMachine::new();
    vm.v[1] = 255;
    vm.v[2] = 0;
    vm.add_vx_vy(1, 2);
    assert_eq!(vm.v[1], 255);
    assert_eq!(vm.v[15], 0);
    vm.v[1] = 255;
    vm.v[2] = 1;
    vm.add_vx_vy(1, 2);
    assert_eq!(vm.v[1], 0);
    assert_eq!(vm.v[15], 1);
}

#[test]
fn test_sub_with_borrow_flag() {
    let mut vm = VirtualMachine::new();
    vm.v[1] = 10;
    vm.v[2] = 5;
    vm.sub_vx_vy(1, 2);
    assert_eq!(vm.v[1], 5);
    assert_eq!(vm.v[15], 1);
    vm.v[3] = 5;
    vm.v[4] = 10;
    vm.sub_vx_vy(3, 4);
    assert_eq!(vm.v[3], 251);
    assert_eq!(vm.v[15], 0);
    vm.v[5] = 7;
    vm.v[6] = 7;
    vm.sub_vx_vy(5, 6);
    assert_eq!(vm.v[5], 0);
    assert_eq!(vm.v[15], 0);
}

#[test]
fn test_subn_reverse_subtract() {
    let mut vm = VirtualMachine::new();
    vm.v[1] = 5;
    vm.v[2] = 10;
    vm.subn_vx_vy(1, 2);
    assert_eq!(vm.v[1], 5);
    assert_eq!(vm.v[15], 1);
    vm.v[3] = 10;
    vm.v[4] = 5;
    vm.subn_vx_vy(3, 4);
    assert_eq!(vm.v[3], 251);
    assert_eq!(vm.v[15], 0);
}

#[test]
fn test_shift_right_vy_into_vx() {
    let mut vm = VirtualMachine::new();
    vm.v[2] = 0b10000001;
    vm.set_vx_to_vy_shr_1(1, 2);
    assert_eq!(vm.v[15], 1);
    assert_eq!(vm.v[1], 0b01000000);
    assert_eq!(vm.v[2], 0b10000001);
    vm.v[4] = 0b00000010;
    vm.set_vx_to_vy_shr_1(3, 4);
    assert_eq!(vm.v[15], 0);
    assert_eq!(vm.v[3], 0b00000001);
}

#[test]
fn test_shift_left_vy_into_vx() {
    let mut vm = VirtualMachine::new();
    vm.v[2] = 0b10000001;
    vm.set_vx_to_vy_shl_1(1, 2);
    assert_eq!(vm.v[15], 1);
    assert_eq!(vm.v[1], 0b00000010);
    vm.v[4] = 0b01000000;
    vm.set_vx_to_vy_shl_1(3, 4);
    assert_eq!(vm.v[15], 0);
    assert_eq!(vm.v[3], 0b10000000);
}

#[test]
fn test_logic_ops() {
    let mut vm = VirtualMachine::new();
    vm.v[1] = 0b1100;
    vm.v[2] = 0b1010;
    vm.set_vx_to_vx_or_vy(1, 2);
    assert_eq!(vm.v[1], 0b1110);
    vm.v[1] = 0b1100;
    vm.set_vx_to_vx_and_vy(1, 2);
    assert_eq!(vm.v[1], 0b1000);
    vm.v[1] = 0b1100;
    vm.set_vx_to_vx_xor_vy(1, 2);
    assert_eq!(vm.v[1], 0b0110);
}

#[test]
fn test_add_vx_byte_wraps_without_carry() {
    let mut vm = VirtualMachine::new();
    vm.v[0] = 250;
    vm.v[15] = 7;
    vm.add_vx_byte(0, 10);
    assert_eq!(vm.v[0], 4);
    assert_eq!(vm.v[15], 7);
}

#[test]
fn test_timers_floor_at_zero() {
    let mut vm = VirtualMachine::new();
    vm.v[0] = 3;
    vm.set_delay_timer(0);
    vm.v[1] = 2;
    vm.set_sound_timer(1);
    for _ in 0..5 {
        vm.decrement_timers();
    }
    assert_eq!(vm.delay_timer, 0);
    assert_eq!(vm.sound_timer, 0);
}

#[test]
fn test_set_vx_to_delay_timer() {
    let mut vm = VirtualMachine::new();
    vm.v[0] = 9;
    vm.set_delay_timer(0);
    vm.set_vx_to_delay_timer(4);
    assert_eq!(vm.v[4], 9);
}

#[test]
fn test_rand_masked() {
    let mut vm = VirtualMachine::new();
    vm.v[3] = 0xAA;
    vm.set_vx_rand_and(3, 0);
    assert_eq!(vm.v[3], 0);
    vm.set_vx_rand_and(3, 0x0F);
    assert!(vm.v[3] <= 0x0F);
}

#[test]
fn test_font_digit_address() {
    let mut vm = VirtualMachine::new();
    vm.v[0] = 0xA;
    vm.set_i_to_loc_of_digit_vx(0);
    assert_eq!(vm.i, 50);
    assert_eq!(vm.ram[50], 0xF0);
}

#[test]
fn test_add_vx_to_i() {
    let mut vm = VirtualMachine::new();
    vm.i = 10;
    vm.v[0] = 5;
    vm.add_vx_to_i(0);
    assert_eq!(vm.i, 15);
    assert!(!vm.halt);
}

#[test]
fn test_add_vx_to_i_overflow_halts() {
    let mut vm = VirtualMachine::new();
    vm.i = 0xFFFF;
    vm.v[0] = 1;
    vm.add_vx_to_i(0);
    assert!(vm.halt);
    assert!(!vm.log.is_empty());
}

#[test]
fn test_block_store_and_load_round_trip() {
    let mut vm = VirtualMachine::new();
    vm.v[0] = 11;
    vm.v[1] = 22;
    vm.v[2] = 33;
    vm.v[3] = 44;
    vm.i = 0x300;
    vm.copy_v0_through_vx_to_mem(3);
    assert_eq!(&vm.ram[0x300..0x304], &[11, 22, 33, 44]);
    assert_eq!(vm.i, 0x304);
    let mut vm2 = VirtualMachine::new();
    vm2.ram[0x300..0x304].copy_from_slice(&[11, 22, 33, 44]);
    vm2.i = 0x300;
    vm2.read_v0_through_vx_from_mem(3);
    assert_eq!(&vm2.v[0..4], &[11, 22, 33, 44]);
    assert_eq!(vm2.v[4], 0);
    assert_eq!(vm2.i, 0x304);
}

#[test]
fn test_block_store_out_of_bounds_halts() {
    let mut vm = VirtualMachine::new();
    vm.i = 4094;
    vm.copy_v0_through_vx_to_mem(3);
    assert!(vm.halt);
    let mut vm2 = VirtualMachine::new();
    vm2.i = 4094;
    vm2.read_v0_through_vx_from_mem(3);
    assert!(vm2.halt);
}

#[test]
fn test_press_and_release_key() {
    let mut vm = VirtualMachine::new();
    vm.press_key(3);
    assert!(vm.keys[3]);
    vm.release_key(3);
    assert!(!vm.keys[3]);
}

#[test]
fn test_skip_key_ops() {
    let mut vm = VirtualMachine::new();
    vm.v[0] = 4;
    vm.press_key(4);
    let pc = vm.pc();
    vm.skip_next_key_vx_pressed(0);
    assert_eq!(vm.pc(), pc + 2);
    vm.skip_next_key_vx_not_pressed(0);
    assert_eq!(vm.pc(), pc + 2);
    vm.release_key(4);
    vm.skip_next_key_vx_not_pressed(0);
    assert_eq!(vm.pc(), pc + 4);
}

#[test]
fn test_skip_register_compares() {
    let mut vm = VirtualMachine::new();
    vm.v[0] = 5;
    vm.v[1] = 5;
    let pc = vm.pc();
    vm.skip_next_vx_eq(0, 5);
    assert_eq!(vm.pc(), pc + 2);
    vm.skip_next_vx_eq(0, 6);
    assert_eq!(vm.pc(), pc + 2);
    vm.skip_next_vx_ne(0, 6);
    assert_eq!(vm.pc(), pc + 4);
    vm.skip_next_vx_eq_vy(0, 1);
    assert_eq!(vm.pc(), pc + 6);
    vm.skip_next_vx_ne_vy(0, 1);
    assert_eq!(vm.pc(), pc + 6);
}

#[test]
fn test_clear_display_and_du_flag() {
    let mut vm = VirtualMachine::new();
    vm.i = 0;
    vm.v[0] = 0;
    vm.v[1] = 0;
    vm.display_sprite(0, 1, 5);
    assert!(vm.display_updated());
    assert!(vm.display().iter().any(|&p| p == 1));
    vm.clear_du_flag();
    assert!(!vm.display_updated());
    vm.clear_display();
    assert!(vm.display().iter().all(|&p| p == 0));
}
