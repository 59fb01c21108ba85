use vstd::prelude::*;

use crate::execute::{advance, execute_spec, key_down, word_at};
use crate::instruction::{decode_word, family, Instruction};
use crate::machine::{boot_memory, glyph, CpuState, MachineError, MEMORY_SIZE, STACK_SIZE};
use crate::run::{first_press, iterate_spec, step_holds, Machine, Mode, Outcome};

verus! {

/// Register `x` set to `a`, register `y` set to `b`, then `y` added into `x`: `x` holds
/// the sum modulo 256 and the flag register holds 1 exactly when the sum reaches 256.
pub proof fn lemma_add_carry(s: CpuState, x: u8, y: u8, a: u8, b: u8)
    requires
        s.v.len() == 16,
        x < 15,
        y < 16,
        x != y,
    ensures
        ({
            let s1 = execute_spec(s, Instruction::LoadImm { x, kk: a }, seq![], 0)->Ok_0;
            let s2 = execute_spec(s1, Instruction::LoadImm { x: y, kk: b }, seq![], 0)->Ok_0;
            let r = execute_spec(s2, Instruction::AddReg { x, y }, seq![], 0);
            &&& r is Ok
            &&& r->Ok_0.v[x as int] == (a + b) % 256
            &&& (r->Ok_0.v[15] == 1) == (a + b >= 256)
            &&& (r->Ok_0.v[15] == 0) == (a + b < 256)
        }),
{
}

/// Subtracting register `y` (holding `b`) from register `x` (holding `a`) leaves
/// `(a - b) mod 256` in `x`, and the flag register 0 exactly when `a < b`, else 1.
pub proof fn lemma_sub_borrow(s: CpuState, x: u8, y: u8)
    requires
        s.v.len() == 16,
        x < 15,
        y < 16,
    ensures
        ({
            let (a, b) = (s.v[x as int], s.v[y as int]);
            let r = execute_spec(s, Instruction::SubReg { x, y }, seq![], 0);
            &&& r is Ok
            &&& r->Ok_0.v[x as int] == (a - b) % 256
            &&& (r->Ok_0.v[15] == 0) == (a < b)
            &&& (r->Ok_0.v[15] == 1) == (a >= b)
        }),
{
}

/// Shifting register `x` right leaves its former low bit in the flag register and half
/// its value in `x`; shifting it left leaves its former high bit in the flag register and
/// twice its value modulo 256 in `x`.
pub proof fn lemma_shift_flags(s: CpuState, x: u8)
    requires
        s.v.len() == 16,
        x < 15,
    ensures
        ({
            let a = s.v[x as int];
            let r = execute_spec(s, Instruction::ShiftRight { x }, seq![], 0)->Ok_0;
            &&& r.v[15] == a % 2
            &&& r.v[x as int] == a / 2
        }),
        ({
            let a = s.v[x as int];
            let l = execute_spec(s, Instruction::ShiftLeft { x }, seq![], 0)->Ok_0;
            &&& l.v[15] == a / 128
            &&& l.v[x as int] == (2 * a) % 256
        }),
{
    let a = s.v[x as int];
    assert(((a >> 0u8) & 1u8) as u8 == a % 2) by (bit_vector);
    assert(a >> 1u8 == a / 2) by (bit_vector);
    assert(((a >> 7u8) & 1u8) as u8 == a / 128) by (bit_vector);
    assert((a << 1u8) as u8 == (2 * a) % 256) by (bit_vector);
}

/// A jump word `0x1nnn` sets the program counter to exactly `nnn`, with no further advance.
pub proof fn lemma_jump_exact(s: CpuState, w: u16, keys: Seq<bool>, random: u8)
    requires
        family(w) == 1,
    ensures
        execute_spec(s, decode_word(w), keys, random) == Ok::<CpuState, MachineError>(
            CpuState { pc: (w - 0x1000) as nat, ..s },
        ),
{
}

/// Whether `ins` is one of the conditional skip instructions.
pub open spec fn is_skip(ins: Instruction) -> bool {
    ||| ins is SkipEqImm
    ||| ins is SkipNeImm
    ||| ins is SkipEqReg
    ||| ins is SkipNeReg
    ||| ins is SkipKeyDown
    ||| ins is SkipKeyUp
}

/// Whether the condition of skip instruction `ins` holds in state `s` with keys `keys`.
pub open spec fn skip_condition(s: CpuState, ins: Instruction, keys: Seq<bool>) -> bool {
    match ins {
        Instruction::SkipEqImm { x, kk } => s.v[x as int] == kk,
        Instruction::SkipNeImm { x, kk } => s.v[x as int] != kk,
        Instruction::SkipEqReg { x, y } => s.v[x as int] == s.v[y as int],
        Instruction::SkipNeReg { x, y } => s.v[x as int] != s.v[y as int],
        Instruction::SkipKeyDown { x } => key_down(keys, s.v[x as int]),
        Instruction::SkipKeyUp { x } => !key_down(keys, s.v[x as int]),
        _ => false,
    }
}

/// A conditional skip moves the program counter 4 bytes past the instruction's own
/// address when its condition holds and 2 bytes when it does not, changing nothing else.
pub proof fn lemma_skip_distance(s: CpuState, ins: Instruction, keys: Seq<bool>, random: u8)
    requires
        is_skip(ins),
    ensures
        execute_spec(s, ins, keys, random) == Ok::<CpuState, MachineError>(
            CpuState {
                pc: if skip_condition(s, ins, keys) {
                    s.pc + 4
                } else {
                    s.pc + 2
                },
                ..s
            },
        ),
{
}

/// The state after calling the addresses of `addrs` in turn, or the first error raised.
pub open spec fn nested_calls(s: CpuState, addrs: Seq<u16>) -> Result<CpuState, MachineError>
    decreases addrs.len(),
{
    if addrs.len() == 0 {
        Ok(s)
    } else {
        match nested_calls(s, addrs.drop_last()) {
            Ok(t) => execute_spec(t, Instruction::Call { addr: addrs.last() }, seq![], 0),
            Err(e) => Err(e),
        }
    }
}

/// From an empty stack, up to sixteen nested calls succeed and leave one return address
/// per call; a seventeenth fails with `StackOverflow`.
pub proof fn lemma_call_depth(s: CpuState, addrs: Seq<u16>)
    requires
        s.sp == 0,
        s.stack.len() == STACK_SIZE,
        addrs.len() <= STACK_SIZE + 1,
    ensures
        addrs.len() <= STACK_SIZE ==> nested_calls(s, addrs) is Ok && nested_calls(
            s,
            addrs,
        )->Ok_0.sp == addrs.len(),
        addrs.len() == STACK_SIZE + 1 ==> nested_calls(s, addrs) == Err::<CpuState, MachineError>(
            MachineError::StackOverflow,
        ),
    decreases addrs.len(),
{
    if addrs.len() > 0 {
        lemma_call_depth(s, addrs.drop_last());
    }
}

/// A return with an empty stack fails with `StackUnderflow`.
pub proof fn lemma_return_empty(s: CpuState, keys: Seq<bool>, random: u8)
    requires
        s.sp == 0,
    ensures
        execute_spec(s, Instruction::Return, keys, random) == Err::<CpuState, MachineError>(
            MachineError::StackUnderflow,
        ),
{
}

/// Executing the key-wait instruction suspends execution with its register as target;
/// while suspended, an iteration with no newly pressed key executes nothing and changes
/// nothing; the first newly pressed key has its index stored in the target register and
/// execution resumes, with no instruction executed in that iteration.
pub proof fn lemma_key_wait(
    cpu: CpuState,
    x: u8,
    keys: Seq<bool>,
    prev: Seq<bool>,
    random: u8,
)
    requires
        cpu.pc + 1 < cpu.ram.len(),
    ensures
        decode_word(word_at(cpu)) == (Instruction::WaitKey { x }) ==> iterate_spec(
            cpu,
            Mode::Running,
            keys,
            prev,
            random,
        ) == Ok::<(CpuState, Mode), MachineError>((advance(cpu), Mode::AwaitingKey { x })),
        first_press(keys, prev, 0) is None ==> iterate_spec(
            cpu,
            Mode::AwaitingKey { x },
            keys,
            prev,
            random,
        ) == Ok::<(CpuState, Mode), MachineError>((cpu, Mode::AwaitingKey { x })),
        first_press(keys, prev, 0) matches Some(k) ==> iterate_spec(
            cpu,
            Mode::AwaitingKey { x },
            keys,
            prev,
            random,
        ) == Ok::<(CpuState, Mode), MachineError>(
            (CpuState { v: cpu.v.update(x as int, k as u8), ..cpu }, Mode::Running),
        ),
{
}

/// While the loop awaits a key and no key is newly pressed, iteration after iteration
/// executes no instruction: each one succeeds with no effect and without halting, the
/// mode stays, and the machine state differs from the one at the start only in its two
/// timers.
pub proof fn lemma_key_wait_holds(
    ms: Seq<Machine>,
    keys: Seq<Seq<bool>>,
    randoms: Seq<u8>,
    results: Seq<Result<Outcome, MachineError>>,
)
    requires
        ms.len() == keys.len() + 1,
        randoms.len() == keys.len(),
        results.len() == keys.len(),
        ms[0].mode is AwaitingKey,
        ms[0].cpu.pc + 1 < MEMORY_SIZE,
        forall|j: int|
            0 <= j < keys.len() ==> step_holds(
                &ms[j],
                &#[trigger] ms[j + 1],
                keys[j],
                randoms[j],
                results[j],
            ),
        forall|j: int| 0 <= j < keys.len() ==> (#[trigger] first_press(keys[j], ms[j].prev_keys@, 0)) is None,
    ensures
        forall|j: int|
            0 <= j < ms.len() ==> (#[trigger] ms[j]).mode == ms[0].mode && ms[j].cpu@ == (CpuState {
                dt: ms[j].cpu.dt,
                st: ms[j].cpu.st,
                ..ms[0].cpu@
            }),
        forall|j: int|
            0 <= j < keys.len() ==> (#[trigger] results[j]) is Ok && results[j]->Ok_0.effect is Continue
                && !results[j]->Ok_0.halted,
    decreases keys.len(),
{
    if keys.len() > 0 {
        let n = keys.len() - 1;
        let (ms0, keys0, randoms0, results0) = (
            ms.drop_last(),
            keys.drop_last(),
            randoms.drop_last(),
            results.drop_last(),
        );
        assert forall|j: int| 0 <= j < keys0.len() implies step_holds(
            &ms0[j],
            &#[trigger] ms0[j + 1],
            keys0[j],
            randoms0[j],
            results0[j],
        ) by {
            assert(ms0[j] == ms[j] && ms0[j + 1] == ms[j + 1]);
            assert(step_holds(&ms[j], &ms[j + 1], keys[j], randoms[j], results[j]));
        }
        assert forall|j: int| 0 <= j < keys0.len() implies (#[trigger] first_press(
            keys0[j],
            ms0[j].prev_keys@,
            0,
        )) is None by {
            assert(first_press(keys[j], ms[j].prev_keys@, 0) is None);
        }
        lemma_key_wait_holds(ms0, keys0, randoms0, results0);
        assert(ms0[n] == ms[n]);
        assert(step_holds(&ms[n], &ms[n + 1], keys[n], randoms[n], results[n]));
        assert(first_press(keys[n], ms[n].prev_keys@, 0) is None);
        assert forall|j: int| 0 <= j < ms.len() implies (#[trigger] ms[j]).mode == ms[0].mode
            && ms[j].cpu@ == (CpuState { dt: ms[j].cpu.dt, st: ms[j].cpu.st, ..ms[0].cpu@ }) by {
            if j < ms0.len() {
                assert(ms0[j] == ms[j]);
            }
        }
        assert forall|j: int| 0 <= j < keys.len() implies (#[trigger] results[j]) is Ok
            && results[j]->Ok_0.effect is Continue && !results[j]->Ok_0.halted by {
            if j < keys0.len() {
                assert(results0[j] == results[j]);
            }
        }
    }
}

/// Each of the sixteen glyphs sits at sixteen times its digit in boot memory.
pub proof fn lemma_glyph_layout(d: int, k: int)
    requires
        0 <= d < 16,
        0 <= k < 5,
    ensures
        boot_memory()[16 * d + k] == glyph(d)[k],
{
    assert((16 * d + k) / 16 == d && (16 * d + k) % 16 == k) by (nonlinear_arith)
        requires
            0 <= d < 16,
            0 <= k < 5,
    ;
}

} // verus!
