use chip8::cipher::{encrypt_decrypt, get_key};
use chip8::execute::Effect;
use chip8::machine::{MachineError, CPU};
use chip8::nibble::{get_bit, get_hex_digits, is_bit_set};
use chip8::run::{Machine, Mode};

#[test]
fn hex_digit_extraction() {
    assert_eq!(get_hex_digits(&0xabcd, 1, 0), 0xd);
    assert_eq!(get_hex_digits(&0xabcd, 1, 3), 0xa);
    assert_eq!(get_hex_digits(&0xabcd, 2, 1), 0xbc);
    assert_eq!(get_hex_digits(&0xabcd, 3, 0), 0xbcd);
    assert_eq!(get_hex_digits(&0xabcd, 3, 1), 0xabc);
}

#[test]
fn bit_queries() {
    assert!(is_bit_set(&0b1000_0001, 0));
    assert!(is_bit_set(&0b1000_0001, 7));
    assert!(!is_bit_set(&0b1000_0001, 3));
    assert_eq!(get_bit(&0b0100_0000, 6), 1);
    assert_eq!(get_bit(&0b0100_0000, 5), 0);
}

#[test]
fn glyph_for_digit_a_is_preloaded() {
    let cpu = CPU::new();
    let a: Vec<u8> = (0..5).map(|k| cpu.read_memory(16 * 0xa + k)).collect();
    assert_eq!(a, vec![0xf0, 0x90, 0xf0, 0x90, 0x90]);
    assert_eq!(cpu.read_memory(16 * 0xa + 5), 0);
    assert_eq!(cpu.read_memory(0), 0xf0);
    assert_eq!(cpu.read_memory(0x1f), 0);
    assert_eq!(cpu.read_memory(0x200), 0);
    assert_eq!(cpu.pc, 0x200);
}

#[test]
fn program_load_bound() {
    let mut cpu = CPU::new();
    let fits = vec![0x5au8; 4096 - 512 - 1];
    assert_eq!(cpu.load_rom(&fits), Ok(()));
    assert_eq!(cpu.read_memory(512), 0x5a);
    assert_eq!(cpu.read_memory(4094), 0x5a);
    assert_eq!(cpu.read_memory(4095), 0);

    let mut cpu = CPU::new();
    let too_big = vec![1u8; 4096 - 512];
    assert_eq!(cpu.load_rom(&too_big), Err(MachineError::ProgramTooLarge));
    assert_eq!(cpu.read_memory(512), 0);
}

#[test]
fn empty_program_loads() {
    let mut cpu = CPU::new();
    assert_eq!(cpu.load_rom(&Vec::new()), Ok(()));
    assert_eq!(cpu.read_memory(512), 0);
}

fn machine_with(program: &[u8]) -> Machine {
    let mut m = Machine::new();
    m.cpu.load_rom(&program.to_vec()).unwrap();
    m
}

#[test]
fn key_wait_suspends_until_a_new_press() {
    // V3 := 1; wait for key into V5; V6 := 9
    let mut m = machine_with(&[0x63, 0x01, 0xf5, 0x0a, 0x66, 0x09]);
    let mut keys = [false; 16];
    keys[2] = true; // held before the wait: not a new press
    m.step_with(&keys, 0).unwrap();
    m.step_with(&keys, 0).unwrap();
    assert_eq!(m.mode, Mode::AwaitingKey { x: 5 });
    assert_eq!(m.cpu.pc, 0x204);
    for _ in 0..20 {
        let out = m.step_with(&keys, 0).unwrap();
        assert!(matches!(out.effect, Effect::Continue));
        assert_eq!(m.cpu.pc, 0x204);
        assert_eq!(m.cpu.register(6), 0);
    }
    keys[0xc] = true;
    keys[0x7] = true;
    m.step_with(&keys, 0).unwrap();
    assert_eq!(m.mode, Mode::Running);
    assert_eq!(m.cpu.register(5), 0x7);
    assert_eq!(m.cpu.register(6), 0);
    assert_eq!(m.cpu.pc, 0x204);
    m.step_with(&keys, 0).unwrap();
    assert_eq!(m.cpu.register(6), 9);
    assert_eq!(m.cpu.pc, 0x206);
}

#[test]
fn timers_tick_every_eighth_iteration() {
    // V1 := 3; DT := V1; ST := V1; then jump to self
    let mut m = machine_with(&[0x61, 0x03, 0xf1, 0x15, 0xf1, 0x18, 0x12, 0x06]);
    let keys = [false; 16];
    let mut ticks = Vec::new();
    for _ in 0..32 {
        let out = m.step_with(&keys, 0).unwrap();
        if out.tick {
            ticks.push((out.tone, m.cpu.dt, m.cpu.st));
        }
    }
    assert_eq!(ticks, vec![(true, 2, 2), (true, 1, 1), (true, 0, 0), (false, 0, 0)]);
}

#[test]
fn loop_halts_at_end_of_memory() {
    let mut m = machine_with(&[0x1f, 0xff]);
    let keys = [false; 16];
    let out = m.step_with(&keys, 0).unwrap();
    assert!(!out.halted);
    assert_eq!(m.cpu.pc, 0xfff);
    let out = m.step_with(&keys, 0).unwrap();
    assert!(out.halted);
}

#[test]
fn loop_reports_stack_errors() {
    let mut m = machine_with(&[0x00, 0xee]);
    assert_eq!(m.step(&[false; 16]).unwrap_err(), MachineError::StackUnderflow);
}

#[test]
fn loop_step_draws_random_masked_by_zero() {
    let mut m = machine_with(&[0xc4, 0x00]);
    m.cpu.set_register(4, 0xff);
    m.step(&[false; 16]).unwrap();
    assert_eq!(m.cpu.register(4), 0);
    assert_eq!(m.cpu.pc, 0x202);
}

#[test]
fn cipher_round_trip() {
    let key = get_key();
    assert_eq!(key, 42);
    let mut data = vec![0u8, 42, 255, 7];
    encrypt_decrypt(&mut data, key);
    assert_eq!(data, vec![42, 0, 213, 45]);
    encrypt_decrypt(&mut data, key);
    assert_eq!(data, vec![0, 42, 255, 7]);
}

#[test]
fn loop_halts_at_end_of_memory_while_awaiting_a_key() {
    let mut m = machine_with(&[0x1f, 0xfe]);
    m.cpu.write_memory(0xffe, 0xf3);
    m.cpu.write_memory(0xfff, 0x0a);
    let keys = [false; 16];
    m.step_with(&keys, 0).unwrap();
    assert_eq!(m.cpu.pc, 0xffe);
    let out = m.step_with(&keys, 0).unwrap();
    assert!(!out.halted);
    assert_eq!(m.mode, Mode::AwaitingKey { x: 3 });
    assert_eq!(m.cpu.pc, 0x1000);
    let out = m.step_with(&keys, 0).unwrap();
    assert!(out.halted);
}

#[test]
fn seventeenth_nested_call_leaves_the_machine_unchanged() {
    // Each call goes to the next word, which is again a call.
    let mut program = Vec::new();
    for k in 0..17u16 {
        let target = 0x202 + 2 * k;
        program.push(0x20 | (target >> 8) as u8);
        program.push((target & 0xff) as u8);
    }
    let mut m = machine_with(&program);
    let keys = [false; 16];
    for k in 0..16usize {
        m.step_with(&keys, 0).unwrap();
        assert_eq!(m.cpu.sp, k + 1);
        assert_eq!(m.cpu.pc, 0x202 + 2 * k);
        assert_eq!(m.cpu.stack[k] as usize, 0x200 + 2 * k);
    }
    let countdown = m.countdown;
    assert_eq!(m.step_with(&keys, 0).unwrap_err(), MachineError::StackOverflow);
    assert_eq!(m.cpu.sp, 16);
    assert_eq!(m.cpu.pc, 0x220);
    assert_eq!(m.countdown, countdown);
    assert_eq!(m.mode, Mode::Running);
}
