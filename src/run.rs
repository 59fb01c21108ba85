use vstd::prelude::*;

use crate::execute::{effect_of, execute_spec, set_v, word_at, Effect};
use crate::instruction::{decode, decode_word, Instruction};
use crate::machine::{CPU, CpuState, MachineError, MEMORY_SIZE};

verus! {

/// Loop iterations per peripheral tick (timer decrement and display flush).
pub const TICK_INTERVAL: usize = 8;

/// Whether the loop executes instructions or waits for a key press.
#[derive(Debug, Clone, Copy, PartialEq, Eq, Structural)]
pub enum Mode {
    Running,
    /// Execution is suspended; the index of the next newly pressed key goes to register `x`.
    AwaitingKey { x: u8 },
}

/// What one loop iteration asks of the host.
#[derive(Debug, Clone)]
pub struct Outcome {
    /// What the executed instruction asks for; `Continue` when none was executed.
    pub effect: Effect,
    /// The program counter left memory: the loop stops.
    pub halted: bool,
    /// A peripheral tick happened: flush the display and set the tone.
    pub tick: bool,
    /// On a tick, whether the tone plays.
    pub tone: bool,
}

/// The machine together with the loop's own state.
pub struct Machine {
    pub cpu: CPU,
    pub mode: Mode,
    /// Iterations left until the next peripheral tick.
    pub countdown: usize,
    /// Key states seen on the previous iteration.
    pub prev_keys: [bool; 16],
}

/// The lowest key index at or after `from` that is down in `keys` and was up in `prev`.
pub open spec fn first_press(keys: Seq<bool>, prev: Seq<bool>, from: nat) -> Option<nat>
    decreases 16 - from,
{
    if from >= 16 {
        None
    } else if keys[from as int] && !prev[from as int] {
        Some(from)
    } else {
        first_press(keys, prev, from + 1)
    }
}

/// `s` after a peripheral tick: both timers count down toward zero.
pub open spec fn tick_timers(s: CpuState) -> CpuState {
    CpuState {
        dt: if s.dt > 0 { (s.dt - 1) as u8 } else { 0 },
        st: if s.st > 0 { (s.st - 1) as u8 } else { 0 },
        ..s
    }
}

/// `s` after the peripheral accounting of one iteration that began with `countdown`.
pub open spec fn account(s: CpuState, countdown: usize) -> CpuState {
    if countdown == 1 {
        tick_timers(s)
    } else {
        s
    }
}

/// The machine state and mode after the key handling or the instruction of one
/// iteration, before the peripheral accounting, or the fatal error raised.
pub open spec fn iterate_spec(
    cpu: CpuState,
    mode: Mode,
    keys: Seq<bool>,
    prev: Seq<bool>,
    random: u8,
) -> Result<(CpuState, Mode), MachineError> {
    match mode {
        Mode::AwaitingKey { x } => match first_press(keys, prev, 0) {
            Some(k) => Ok((set_v(cpu, x as int, k as u8), Mode::Running)),
            None => Ok((cpu, mode)),
        },
        Mode::Running => {
            let ins = decode_word(word_at(cpu));
            match execute_spec(cpu, ins, keys, random) {
                Ok(s) => Ok(
                    (
                        s,
                        match ins {
                            Instruction::WaitKey { x } => Mode::AwaitingKey { x },
                            _ => Mode::Running,
                        },
                    ),
                ),
                Err(e) => Err(e),
            }
        },
    }
}

/// Whether the program counter of `m` leaves no room to fetch an instruction.
pub open spec fn out_of_memory(m: &Machine) -> bool {
    m.cpu.pc + 1 >= MEMORY_SIZE
}

/// Whether one iteration from `pre` with keys `keys` and random byte `random` may end in
/// `post` with result `r`.
pub open spec fn step_holds(
    pre: &Machine,
    post: &Machine,
    keys: Seq<bool>,
    random: u8,
    r: Result<Outcome, MachineError>,
) -> bool {
    if out_of_memory(pre) {
        r is Ok && r->Ok_0.halted && r->Ok_0.effect is Continue && !r->Ok_0.tick
            && post.cpu@ == pre.cpu@ && post.mode == pre.mode && post.countdown == pre.countdown
            && post.prev_keys@ == pre.prev_keys@
    } else {
        match iterate_spec(pre.cpu@, pre.mode, keys, pre.prev_keys@, random) {
            Err(e) => {
                &&& r == Err::<Outcome, MachineError>(e)
                &&& post.cpu@ == pre.cpu@
                &&& post.mode == pre.mode
                &&& post.countdown == pre.countdown
                &&& post.prev_keys@ == pre.prev_keys@
            },
            Ok((s, mode)) => {
                &&& r is Ok
                &&& !r->Ok_0.halted
                &&& post.cpu@ == account(s, pre.countdown)
                &&& post.mode == mode
                &&& post.prev_keys@ == keys
                &&& r->Ok_0.tick == (pre.countdown == 1)
                &&& r->Ok_0.tone == (pre.countdown == 1 && s.st > 0)
                &&& post.countdown == if pre.countdown == 1 {
                    TICK_INTERVAL
                } else {
                    (pre.countdown - 1) as usize
                }
                &&& if pre.mode is Running {
                    effect_of(r->Ok_0.effect, pre.cpu@, decode_word(word_at(pre.cpu@)))
                } else {
                    r->Ok_0.effect is Continue
                }
            },
        }
    }
}

/// Relies on `rand::random::<u8>`: a byte from the thread-local generator. Nothing is
/// promised of its value.
#[verifier::external_body]
fn random_byte() -> (r: u8) {
    rand::random::<u8>()
}

/// The lowest key index that is down in `keys` and was up in `prev`.
fn find_press(keys: &[bool; 16], prev: &[bool; 16]) -> (r: Option<u8>)
    ensures
        r matches Some(k) ==> first_press(keys@, prev@, 0) == Some(k as nat),
        r is None ==> first_press(keys@, prev@, 0) is None,
{
    let mut j: usize = 0;
    while j < 16
        invariant
            j <= 16,
            first_press(keys@, prev@, 0) == first_press(keys@, prev@, j as nat),
        decreases 16 - j,
    {
        if keys[j] && !prev[j] {
            return Some(j as u8);
        }
        j = j + 1;
    }
    None
}

impl Machine {
    /// Whether the loop state is consistent.
    pub open spec fn wf(&self) -> bool {
        &&& self.cpu.wf()
        &&& 1 <= self.countdown <= TICK_INTERVAL
        &&& self.mode matches Mode::AwaitingKey { x } ==> x < 16
    }

    /// A fresh machine, running, with no keys down and a full tick countdown.
    pub fn new() -> (r: Machine)
        ensures
            r.wf(),
            r.cpu@ == crate::machine::boot_state(),
            r.mode == Mode::Running,
            r.countdown == TICK_INTERVAL,
            forall|k: int| 0 <= k < 16 ==> !#[trigger] r.prev_keys@[k],
    {
        Machine { cpu: CPU::new(), mode: Mode::Running, countdown: TICK_INTERVAL, prev_keys: [false; 16] }
    }

    /// One loop iteration with keys `keys` down and `random` as the byte the
    /// random-number instruction draws.
    ///
    /// While awaiting a key, the lowest newly pressed key (down now, up on the previous
    /// iteration) is stored and execution resumes on the next iteration; no instruction
    /// runs. While running, the instruction at the program counter is executed, unless
    /// the counter leaves no room to fetch one: then the loop halts, whatever the mode.
    /// Every iteration that does not halt counts down toward a peripheral tick. A fatal
    /// error leaves the machine as it was.
    pub fn step_with(&mut self, keys: &[bool; 16], random: u8) -> (r: Result<Outcome, MachineError>)
        requires
            old(self).wf(),
        ensures
            final(self).wf(),
            step_holds(old(self), final(self), keys@, random, r),
    {
        if self.cpu.pc >= MEMORY_SIZE - 1 {
            return Ok(Outcome { effect: Effect::Continue, halted: true, tick: false, tone: false });
        }
        let press = find_press(keys, &self.prev_keys);
        let effect = match self.mode {
            Mode::AwaitingKey { x } => {
                self.prev_keys = *keys;
                if let Some(k) = press {
                    self.cpu.set_register(x as usize, k);
                    self.mode = Mode::Running;
                }
                Effect::Continue
            },
            Mode::Running => {
                let ins = decode(self.cpu.fetch());
                let e = self.cpu.execute(ins, keys, random)?;
                self.prev_keys = *keys;
                if let Instruction::WaitKey { x } = ins {
                    self.mode = Mode::AwaitingKey { x };
                }
                e
            },
        };
        let tick = self.countdown == 1;
        let tone = tick && self.cpu.st > 0;
        if tick {
            self.cpu.tick_timers();
            self.countdown = TICK_INTERVAL;
        } else {
            self.countdown = self.countdown - 1;
        }
        Ok(Outcome { effect, halted: false, tick, tone })
    }

    /// One loop iteration with keys `keys` down; the random-number instruction draws
    /// its byte from the thread-local generator.
    pub fn step(&mut self, keys: &[bool; 16]) -> (r: Result<Outcome, MachineError>)
        requires
            old(self).wf(),
        ensures
            final(self).wf(),
            exists|random: u8| step_holds(old(self), final(self), keys@, random, r),
    {
        let random = random_byte();
        self.step_with(keys, random)
    }
}

impl CPU {
    /// A peripheral tick: both timers count down toward zero.
    pub fn tick_timers(&mut self)
        ensures
            final(self)@ == tick_timers(old(self)@),
            final(self).sp == old(self).sp,
    {
        if self.dt > 0 {
            self.dt = self.dt - 1;
        }
        if self.st > 0 {
            self.st = self.st - 1;
        }
        assert(self@ =~= tick_timers(old(self)@));
    }
}

} // verus!
