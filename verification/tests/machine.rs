use chip8_core::{Emu, Fault, FONTSET, FONTSET_SIZE, RAM_SIZE, SCREEN_HEIGHT, SCREEN_WIDTH,
    STACK_SIZE, START_ADDR};

/// Write `bytes` into memory starting at `addr`, as the host does when it
/// loads a program.
fn load(emu: &mut Emu, addr: usize, bytes: &[u8]) {
    for (i, b) in bytes.iter().enumerate() {
        emu.ram[addr + i] = *b;
    }
}

#[test]
fn new_starts_at_start_addr_with_font_loaded() {
    let emu = Emu::new();
    assert_eq!(emu.pc, START_ADDR);
    assert_eq!(emu.ram.len(), RAM_SIZE);
    assert_eq!(&emu.ram[..FONTSET_SIZE], &FONTSET[..]);
    assert!(emu.ram[FONTSET_SIZE..].iter().all(|b| *b == 0));
    assert_eq!(emu.screen.len(), SCREEN_WIDTH * SCREEN_HEIGHT);
    assert!(emu.screen.iter().all(|p| !*p));
    assert!(emu.v_reg.iter().all(|v| *v == 0));
    assert!(emu.stack.iter().all(|a| *a == 0));
    assert!(emu.keys.iter().all(|k| !*k));
    assert_eq!(emu.i_reg, 0);
    assert_eq!(emu.sp, 0);
    assert_eq!(emu.dt, 0);
    assert_eq!(emu.st, 0);
}

#[test]
fn load_imm_sets_register() {
    let mut emu = Emu::new();
    load(&mut emu, 0x200, &[0x60, 0x2A]);
    assert!(emu.tick().is_ok());
    assert_eq!(emu.v_reg[0], 0x2A);
    assert_eq!(emu.pc, 0x202);

    let mut emu = Emu::new();
    load(&mut emu, 0x200, &[0x6F, 0xFF]);
    assert!(emu.tick().is_ok());
    assert_eq!(emu.v_reg[0xF], 0xFF);
}

#[test]
fn add_imm_wraps_modulo_256() {
    let mut emu = Emu::new();
    // V3 := 0xF0; V3 += 0x20 twice: 0xF0 + 0x20 + 0x20 == 0x130, kept mod 256.
    load(&mut emu, 0x200, &[0x63, 0xF0, 0x73, 0x20, 0x73, 0x20]);
    assert!(emu.tick().is_ok());
    assert!(emu.tick().is_ok());
    assert_eq!(emu.v_reg[3], 0x10);
    assert!(emu.tick().is_ok());
    assert_eq!(emu.v_reg[3], 0x30);
    assert_eq!(emu.pc, 0x206);
}

#[test]
fn add_imm_from_zero_is_sum_mod_256() {
    let mut emu = Emu::new();
    // From a cleared register, two additions leave (0xAB + 0xCD) % 256.
    load(&mut emu, 0x200, &[0x70, 0xAB, 0x70, 0xCD]);
    assert!(emu.tick().is_ok());
    assert!(emu.tick().is_ok());
    assert_eq!(emu.v_reg[0] as u32, (0xAB + 0xCD) % 256);
}

#[test]
fn call_ret_restores_pc_through_full_stack_depth() {
    let mut emu = Emu::new();
    // Sixteen nested calls: the call at 0x200 + 4i pushes 0x202 + 4i and
    // jumps to the next call site at 0x204 + 4i.
    for i in 0..16u16 {
        let site = 0x200 + 4 * i;
        let target = site + 4;
        load(
            &mut emu,
            site as usize,
            &[0x20 | (target >> 8) as u8, (target & 0xFF) as u8],
        );
        // A return at the pushed address unwinds one level.
        load(&mut emu, site as usize + 2, &[0x00, 0xEE]);
    }
    // The deepest call lands at 0x240.
    load(&mut emu, 0x240, &[0x00, 0xEE]);

    for _ in 0..16 {
        assert!(emu.tick().is_ok());
    }
    assert_eq!(emu.sp, STACK_SIZE as u16);
    assert_eq!(emu.pc, 0x240);
    // The stack holds each return address in push order.
    for i in 0..16u16 {
        assert_eq!(emu.stack[i as usize], 0x202 + 4 * i);
    }

    // Sixteen returns unwind to the address right after the first call.
    for _ in 0..16 {
        assert!(emu.tick().is_ok());
    }
    assert_eq!(emu.sp, 0);
    assert_eq!(emu.pc, 0x202);
}

#[test]
fn pop_on_empty_stack_is_bounds_fault() {
    let mut emu = Emu::new();
    load(&mut emu, 0x200, &[0x00, 0xEE]);
    assert_eq!(emu.tick(), Err(Fault::Bounds));
    // The stack is untouched; only the fetch advanced the program counter.
    assert_eq!(emu.sp, 0);
    assert_eq!(emu.pc, 0x202);
    assert!(emu.stack.iter().all(|a| *a == 0));
}

#[test]
fn push_on_full_stack_is_bounds_fault() {
    let mut emu = Emu::new();
    load(&mut emu, 0x200, &[0x23, 0x00]);
    emu.sp = STACK_SIZE as u16;
    assert_eq!(emu.tick(), Err(Fault::Bounds));
    // A seventeenth address is never written and the pointer stays put.
    assert_eq!(emu.sp, STACK_SIZE as u16);
    assert!(emu.stack.iter().all(|a| *a == 0));
    assert_eq!(emu.pc, 0x202);
}

#[test]
fn cls_clears_every_pixel() {
    let mut emu = Emu::new();
    for i in (0..emu.screen.len()).step_by(3) {
        emu.screen[i] = true;
    }
    load(&mut emu, 0x200, &[0x00, 0xE0]);
    assert!(emu.tick().is_ok());
    assert!(emu.screen.iter().all(|p| !*p));
    assert_eq!(emu.screen.len(), SCREEN_WIDTH * SCREEN_HEIGHT);
}

#[test]
fn skip_eq_imm_advances_by_4_when_equal_else_2() {
    let mut emu = Emu::new();
    emu.v_reg[2] = 0x42;
    load(&mut emu, 0x200, &[0x32, 0x42]);
    assert!(emu.tick().is_ok());
    assert_eq!(emu.pc, 0x204);

    let mut emu = Emu::new();
    emu.v_reg[2] = 0x41;
    load(&mut emu, 0x200, &[0x32, 0x42]);
    assert!(emu.tick().is_ok());
    assert_eq!(emu.pc, 0x202);
}

#[test]
fn skip_neq_imm_advances_by_4_when_different_else_2() {
    let mut emu = Emu::new();
    emu.v_reg[7] = 0x01;
    load(&mut emu, 0x200, &[0x47, 0x02]);
    assert!(emu.tick().is_ok());
    assert_eq!(emu.pc, 0x204);

    let mut emu = Emu::new();
    emu.v_reg[7] = 0x02;
    load(&mut emu, 0x200, &[0x47, 0x02]);
    assert!(emu.tick().is_ok());
    assert_eq!(emu.pc, 0x202);
}

#[test]
fn skip_eq_reg_advances_by_4_when_registers_agree_else_2() {
    let mut emu = Emu::new();
    emu.v_reg[1] = 0x33;
    emu.v_reg[2] = 0x33;
    load(&mut emu, 0x200, &[0x51, 0x20]);
    assert!(emu.tick().is_ok());
    assert_eq!(emu.pc, 0x204);

    let mut emu = Emu::new();
    emu.v_reg[1] = 0x33;
    emu.v_reg[2] = 0x34;
    load(&mut emu, 0x200, &[0x51, 0x20]);
    assert!(emu.tick().is_ok());
    assert_eq!(emu.pc, 0x202);
}

#[test]
fn reset_reproduces_construction_exactly() {
    let mut emu = Emu::new();
    // Dirty every component of the state.
    load(&mut emu, 0x200, &[0x6A, 0x55, 0x00, 0xE0, 0x2F, 0x00]);
    for _ in 0..3 {
        assert!(emu.tick().is_ok());
    }
    emu.screen[17] = true;
    emu.keys[4] = true;
    emu.i_reg = 0x123;
    emu.dt = 9;
    emu.st = 9;

    emu.reset();
    let fresh = Emu::new();
    assert_eq!(emu.pc, fresh.pc);
    assert_eq!(emu.ram, fresh.ram);
    assert_eq!(emu.screen, fresh.screen);
    assert_eq!(emu.v_reg, fresh.v_reg);
    assert_eq!(emu.i_reg, fresh.i_reg);
    assert_eq!(emu.sp, fresh.sp);
    assert_eq!(emu.stack, fresh.stack);
    assert_eq!(emu.keys, fresh.keys);
    assert_eq!(emu.dt, fresh.dt);
    assert_eq!(emu.st, fresh.st);
}

#[test]
fn timers_stop_at_zero() {
    let mut emu = Emu::new();
    emu.dt = 2;
    emu.st = 1;
    emu.tick_timers();
    assert_eq!(emu.dt, 1);
    assert_eq!(emu.st, 0);
    emu.tick_timers();
    assert_eq!(emu.dt, 0);
    assert_eq!(emu.st, 0);
    emu.tick_timers();
    assert_eq!(emu.dt, 0);
    assert_eq!(emu.st, 0);
}

#[test]
fn jmp_moves_pc_to_address() {
    let mut emu = Emu::new();
    load(&mut emu, 0x200, &[0x1A, 0xBC]);
    assert!(emu.tick().is_ok());
    assert_eq!(emu.pc, 0xABC);
}

#[test]
fn nop_only_advances_pc() {
    let mut emu = Emu::new();
    let before_v = emu.v_reg.clone();
    assert!(emu.tick().is_ok());
    assert_eq!(emu.pc, 0x202);
    assert_eq!(emu.v_reg, before_v);
    assert_eq!(emu.sp, 0);
}

#[test]
fn copy_and_bitwise_ops_compute_exact_values() {
    let mut emu = Emu::new();
    emu.v_reg[0] = 0b1100_1010;
    emu.v_reg[1] = 0b1010_0110;
    // V2 := V0; V2 &= V1; V3 := V0; V3 ^= V1.
    load(&mut emu, 0x200, &[0x82, 0x00, 0x82, 0x12, 0x83, 0x00, 0x83, 0x13]);
    for _ in 0..4 {
        assert!(emu.tick().is_ok());
    }
    assert_eq!(emu.v_reg[2], 0b1100_1010 & 0b1010_0110);
    assert_eq!(emu.v_reg[3], 0b1100_1010 ^ 0b1010_0110);
    assert_eq!(emu.v_reg[0], 0b1100_1010);
    assert_eq!(emu.v_reg[1], 0b1010_0110);
}

#[test]
fn unhandled_opcode_surfaces_its_value() {
    let mut emu = Emu::new();
    load(&mut emu, 0x200, &[0xF0, 0x65]);
    assert_eq!(emu.tick(), Err(Fault::Unhandled(0xF065)));
    assert_eq!(emu.pc, 0x202);

    let mut emu = Emu::new();
    // A 5-family opcode whose last nibble is not zero is unhandled.
    load(&mut emu, 0x200, &[0x51, 0x21]);
    assert_eq!(emu.tick(), Err(Fault::Unhandled(0x5121)));

    let mut emu = Emu::new();
    // An 8-family opcode beyond XOR is unhandled.
    load(&mut emu, 0x200, &[0x81, 0x24]);
    assert_eq!(emu.tick(), Err(Fault::Unhandled(0x8124)));
}

#[test]
fn fetch_past_end_of_memory_is_bounds_fault() {
    let mut emu = Emu::new();
    emu.pc = (RAM_SIZE - 1) as u16;
    assert_eq!(emu.tick(), Err(Fault::Bounds));
    // The machine is unchanged: the fetch never advanced.
    assert_eq!(emu.pc, (RAM_SIZE - 1) as u16);

    let mut emu = Emu::new();
    emu.pc = RAM_SIZE as u16;
    assert_eq!(emu.tick(), Err(Fault::Bounds));
    assert_eq!(emu.pc, RAM_SIZE as u16);
}

#[test]
fn scenario_load_add_or() {
    let mut emu = Emu::new();
    // V0 := 5; V1 := 3; V0 |= V1.
    load(&mut emu, 0x200, &[0x60, 0x05, 0x61, 0x03, 0x80, 0x11]);
    for _ in 0..3 {
        assert!(emu.tick().is_ok());
    }
    assert_eq!(emu.v_reg[0], 7);
    assert_eq!(emu.v_reg[1], 3);
    assert_eq!(emu.pc, 0x206);
}

#[test]
fn scenario_call_then_ret_resumes_after_call() {
    let mut emu = Emu::new();
    // CALL 0x208, NOP padding, then RET at 0x208.
    load(&mut emu, 0x200, &[0x22, 0x08, 0x00, 0x00, 0x00, 0x00, 0x00, 0x00, 0x00, 0xEE]);
    assert!(emu.tick().is_ok());
    assert_eq!(emu.pc, 0x208);
    assert_eq!(emu.sp, 1);
    assert!(emu.tick().is_ok());
    assert_eq!(emu.pc, 0x202);
    assert_eq!(emu.sp, 0);
}
