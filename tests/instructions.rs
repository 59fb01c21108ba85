use chip8::execute::Effect;
use chip8::instruction::{decode, Instruction};
use chip8::machine::{MachineError, CPU};

const NO_KEYS: [bool; 16] = [false; 16];

fn run(cpu: &mut CPU, word: u16) -> Result<Effect, MachineError> {
    cpu.execute(decode(word), &NO_KEYS, 0)
}

#[test]
fn add_sets_carry_on_overflow() {
    let mut cpu = CPU::new();
    run(&mut cpu, 0x61c8).unwrap(); // V1 := 200
    run(&mut cpu, 0x6264).unwrap(); // V2 := 100
    run(&mut cpu, 0x8124).unwrap();
    assert_eq!(cpu.register(1), 44);
    assert_eq!(cpu.register(0xf), 1);
}

#[test]
fn add_clears_carry_without_overflow() {
    let mut cpu = CPU::new();
    run(&mut cpu, 0x610a).unwrap();
    run(&mut cpu, 0x6214).unwrap();
    run(&mut cpu, 0x6f07).unwrap();
    run(&mut cpu, 0x8124).unwrap();
    assert_eq!(cpu.register(1), 30);
    assert_eq!(cpu.register(0xf), 0);
}

#[test]
fn add_carry_holds_for_all_pairs() {
    for a in 0..=255u16 {
        for b in [0u16, 1, 55, 127, 128, 200, 255] {
            let mut cpu = CPU::new();
            cpu.set_register(3, a as u8);
            cpu.set_register(4, b as u8);
            run(&mut cpu, 0x8344).unwrap();
            assert_eq!(cpu.register(3) as u16, (a + b) % 256);
            assert_eq!(cpu.register(0xf) == 1, a + b >= 256);
        }
    }
}

#[test]
fn sub_borrow_flag() {
    let mut cpu = CPU::new();
    cpu.set_register(1, 5);
    cpu.set_register(2, 10);
    run(&mut cpu, 0x8125).unwrap();
    assert_eq!(cpu.register(1), 251);
    assert_eq!(cpu.register(0xf), 0);

    let mut cpu = CPU::new();
    cpu.set_register(1, 10);
    cpu.set_register(2, 5);
    run(&mut cpu, 0x8125).unwrap();
    assert_eq!(cpu.register(1), 5);
    assert_eq!(cpu.register(0xf), 1);

    let mut cpu = CPU::new();
    cpu.set_register(1, 9);
    cpu.set_register(2, 9);
    run(&mut cpu, 0x8125).unwrap();
    assert_eq!(cpu.register(1), 0);
    assert_eq!(cpu.register(0xf), 1);
}

#[test]
fn reverse_sub_borrow_flag() {
    let mut cpu = CPU::new();
    cpu.set_register(1, 10);
    cpu.set_register(2, 3);
    run(&mut cpu, 0x8127).unwrap();
    assert_eq!(cpu.register(1), 249);
    assert_eq!(cpu.register(0xf), 0);
}

#[test]
fn shifts_flag_the_bit_shifted_out_for_every_byte() {
    for a in 0..=255u8 {
        let mut cpu = CPU::new();
        cpu.set_register(5, a);
        run(&mut cpu, 0x8506).unwrap();
        assert_eq!(cpu.register(0xf), a & 1);
        assert_eq!(cpu.register(5), a >> 1);

        let mut cpu = CPU::new();
        cpu.set_register(5, a);
        run(&mut cpu, 0x850e).unwrap();
        assert_eq!(cpu.register(0xf), a >> 7);
        assert_eq!(cpu.register(5), a.wrapping_shl(1));
    }
}

#[test]
fn logic_and_moves() {
    let mut cpu = CPU::new();
    cpu.set_register(1, 0b1100);
    cpu.set_register(2, 0b1010);
    run(&mut cpu, 0x8121).unwrap();
    assert_eq!(cpu.register(1), 0b1110);
    cpu.set_register(1, 0b1100);
    run(&mut cpu, 0x8122).unwrap();
    assert_eq!(cpu.register(1), 0b1000);
    cpu.set_register(1, 0b1100);
    run(&mut cpu, 0x8123).unwrap();
    assert_eq!(cpu.register(1), 0b0110);
    run(&mut cpu, 0x8120).unwrap();
    assert_eq!(cpu.register(1), 0b1010);
    run(&mut cpu, 0x71ff).unwrap();
    assert_eq!(cpu.register(1), 0b1001);
}

#[test]
fn decimal_digits_store() {
    let mut cpu = CPU::new();
    cpu.set_register(3, 253);
    run(&mut cpu, 0xa300).unwrap();
    run(&mut cpu, 0xf333).unwrap();
    assert_eq!(cpu.read_memory(0x300), 2);
    assert_eq!(cpu.read_memory(0x301), 5);
    assert_eq!(cpu.read_memory(0x302), 3);

    cpu.set_register(3, 7);
    run(&mut cpu, 0xf333).unwrap();
    assert_eq!(cpu.read_memory(0x300), 0);
    assert_eq!(cpu.read_memory(0x301), 0);
    assert_eq!(cpu.read_memory(0x302), 7);
}

#[test]
fn jump_sets_pc_exactly() {
    let mut cpu = CPU::new();
    run(&mut cpu, 0x1234).unwrap();
    assert_eq!(cpu.pc, 0x234);
}

#[test]
fn jump_with_offset_adds_v0() {
    let mut cpu = CPU::new();
    cpu.set_register(0, 0x10);
    run(&mut cpu, 0xb300).unwrap();
    assert_eq!(cpu.pc, 0x310);
}

#[test]
fn skip_advances_by_four_or_two() {
    let mut cpu = CPU::new();
    cpu.set_register(1, 0x42);
    run(&mut cpu, 0x3142).unwrap();
    assert_eq!(cpu.pc, 0x204);
    run(&mut cpu, 0x3143).unwrap();
    assert_eq!(cpu.pc, 0x206);
    run(&mut cpu, 0x4143).unwrap();
    assert_eq!(cpu.pc, 0x20a);
    cpu.set_register(2, 0x42);
    run(&mut cpu, 0x5120).unwrap();
    assert_eq!(cpu.pc, 0x20e);
    run(&mut cpu, 0x9120).unwrap();
    assert_eq!(cpu.pc, 0x210);
}

#[test]
fn key_skips_follow_key_state() {
    let mut keys = [false; 16];
    keys[0xb] = true;
    let mut cpu = CPU::new();
    cpu.set_register(4, 0xb);
    cpu.execute(decode(0xe49e), &keys, 0).unwrap();
    assert_eq!(cpu.pc, 0x204);
    cpu.execute(decode(0xe4a1), &keys, 0).unwrap();
    assert_eq!(cpu.pc, 0x206);
    cpu.set_register(4, 0x30);
    cpu.execute(decode(0xe4a1), &keys, 0).unwrap();
    assert_eq!(cpu.pc, 0x20a);
}

#[test]
fn sixteen_nested_calls_then_overflow() {
    let mut cpu = CPU::new();
    for _ in 0..16 {
        run(&mut cpu, 0x2300).unwrap();
    }
    assert_eq!(cpu.sp, 16);
    assert_eq!(run(&mut cpu, 0x2300).unwrap_err(), MachineError::StackOverflow);
    assert_eq!(cpu.sp, 16);
}

#[test]
fn return_pops_and_advances() {
    let mut cpu = CPU::new();
    run(&mut cpu, 0x2400).unwrap();
    assert_eq!(cpu.pc, 0x400);
    run(&mut cpu, 0x00ee).unwrap();
    assert_eq!(cpu.pc, 0x202);
    assert_eq!(cpu.sp, 0);
}

#[test]
fn return_on_empty_stack_underflows() {
    let mut cpu = CPU::new();
    assert_eq!(run(&mut cpu, 0x00ee).unwrap_err(), MachineError::StackUnderflow);
    assert_eq!(cpu.pc, 0x200);
}

#[test]
fn timers_and_index_instructions() {
    let mut cpu = CPU::new();
    cpu.set_register(2, 9);
    run(&mut cpu, 0xf215).unwrap();
    run(&mut cpu, 0xf218).unwrap();
    assert_eq!(cpu.dt, 9);
    assert_eq!(cpu.st, 9);
    run(&mut cpu, 0xf307).unwrap();
    assert_eq!(cpu.register(3), 9);
    run(&mut cpu, 0xa100).unwrap();
    run(&mut cpu, 0xf21e).unwrap();
    assert_eq!(cpu.i, 0x109);
    cpu.set_register(2, 0xa);
    run(&mut cpu, 0xf229).unwrap();
    assert_eq!(cpu.i, 0xa0);
}

#[test]
fn store_and_load_registers() {
    let mut cpu = CPU::new();
    for r in 0..16 {
        cpu.set_register(r, (r as u8) * 3 + 1);
    }
    run(&mut cpu, 0xa500).unwrap();
    run(&mut cpu, 0xf355).unwrap();
    assert_eq!(cpu.read_memory(0x500), 1);
    assert_eq!(cpu.read_memory(0x503), 10);
    assert_eq!(cpu.read_memory(0x504), 0);
    cpu.write_memory(0x504, 77);
    cpu.write_memory(0x500, 66);
    run(&mut cpu, 0xf465).unwrap();
    assert_eq!(cpu.register(0), 66);
    assert_eq!(cpu.register(4), 77);
    assert_eq!(cpu.register(5), 16);
}

#[test]
fn random_is_masked() {
    let mut cpu = CPU::new();
    cpu.execute(decode(0xc70f), &NO_KEYS, 0xab).unwrap();
    assert_eq!(cpu.register(7), 0x0b);
}

#[test]
fn draw_hands_out_sprite_rows() {
    let mut cpu = CPU::new();
    cpu.set_register(1, 3);
    cpu.set_register(2, 4);
    run(&mut cpu, 0xa0a0).unwrap();
    match run(&mut cpu, 0xd125).unwrap() {
        Effect::DrawSprite { x, y, rows } => {
            assert_eq!((x, y), (3, 4));
            assert_eq!(rows, vec![0xf0, 0x90, 0xf0, 0x90, 0x90]);
        }
        other => panic!("unexpected effect {:?}", other),
    }
    cpu.record_collision(true);
    assert_eq!(cpu.register(0xf), 1);
    cpu.record_collision(false);
    assert_eq!(cpu.register(0xf), 0);
}

#[test]
fn clear_and_unknown_words() {
    let mut cpu = CPU::new();
    assert!(matches!(run(&mut cpu, 0x00e0).unwrap(), Effect::ClearScreen));
    assert!(matches!(run(&mut cpu, 0x0000).unwrap(), Effect::Unrecognized { word: 0x0000 }));
    assert!(matches!(run(&mut cpu, 0x8128).unwrap(), Effect::Unrecognized { word: 0x8128 }));
    assert!(matches!(run(&mut cpu, 0xf199).unwrap(), Effect::Unrecognized { word: 0xf199 }));
    assert_eq!(cpu.pc, 0x208);
}

#[test]
fn decode_fields() {
    assert_eq!(decode(0xd12f), Instruction::Draw { x: 1, y: 2, n: 0xf });
    assert_eq!(decode(0x2abc), Instruction::Call { addr: 0xabc });
    assert_eq!(decode(0x7e05), Instruction::AddImm { x: 0xe, kk: 5 });
    assert_eq!(decode(0xf50a), Instruction::WaitKey { x: 5 });
    assert_eq!(decode(0x5120), Instruction::SkipEqReg { x: 1, y: 2 });
    assert_eq!(decode(0x9120), Instruction::SkipNeReg { x: 1, y: 2 });
    assert_eq!(decode(0x5121), Instruction::Unknown { word: 0x5121 });
    assert_eq!(decode(0x912f), Instruction::Unknown { word: 0x912f });
    assert_eq!(decode(0xe19f), Instruction::Unknown { word: 0xe19f });
}

#[test]
fn register_skips_need_a_zero_low_nibble() {
    let mut cpu = CPU::new();
    cpu.set_register(1, 7);
    cpu.set_register(2, 7);
    assert!(matches!(run(&mut cpu, 0x5121).unwrap(), Effect::Unrecognized { word: 0x5121 }));
    assert_eq!(cpu.pc, 0x202);
    cpu.set_register(2, 8);
    assert!(matches!(run(&mut cpu, 0x9123).unwrap(), Effect::Unrecognized { word: 0x9123 }));
    assert_eq!(cpu.pc, 0x204);
}
