use vstd::prelude::*;

use crate::instruction::Instruction;
use crate::machine::{CPU, CpuState, MachineError, FLAG, MEMORY_SIZE, STACK_SIZE};
use crate::nibble::{bit_of, get_bit};

verus! {

/// What an executed instruction asks of the machine's surroundings.
#[derive(Debug, Clone)]
pub enum Effect {
    /// Nothing beyond the change of state.
    Continue,
    /// Clear the display.
    ClearScreen,
    /// Draw the sprite `rows` at pixel (`x`, `y`); the collision flag comes back later.
    DrawSprite { x: u8, y: u8, rows: Vec<u8> },
    /// Suspend execution until a key is pressed; its index goes to register `x`.
    AwaitKey { x: u8 },
    /// The word is no instruction; it was executed as a no-op.
    Unrecognized { word: u16 },
}

/// Memory address `j` bytes past the index register `i`, wrapping at the end of memory.
pub open spec fn mem_addr(i: u16, j: int) -> int {
    (i as int + j) % (MEMORY_SIZE as int)
}

/// The `n` bytes of memory from the index register on.
pub open spec fn sprite(s: CpuState, n: nat) -> Seq<u8> {
    Seq::new(n, |j: int| s.ram[mem_addr(s.i, j)])
}

/// `ram` after registers `0..n` of `v` were stored from the index register `i` on.
pub open spec fn stored(ram: Seq<u8>, v: Seq<u8>, i: u16, n: nat) -> Seq<u8>
    decreases n,
{
    if n == 0 {
        ram
    } else {
        stored(ram, v, i, (n - 1) as nat).update(mem_addr(i, n - 1), v[n - 1])
    }
}

/// `v` after registers `0..n` were loaded from memory at the index register `i` on.
pub open spec fn loaded(v: Seq<u8>, ram: Seq<u8>, i: u16, n: nat) -> Seq<u8>
    decreases n,
{
    if n == 0 {
        v
    } else {
        loaded(v, ram, i, (n - 1) as nat).update(n - 1, ram[mem_addr(i, n - 1)])
    }
}

/// Whether key `k` is down; values beyond the sixteen keys name no key.
pub open spec fn key_down(keys: Seq<bool>, k: u8) -> bool {
    k < 16 && keys[k as int]
}

/// `s` with register `x` set to `val`.
pub open spec fn set_v(s: CpuState, x: int, val: u8) -> CpuState {
    CpuState { v: s.v.update(x, val), ..s }
}

/// `s` moved on to the next instruction.
pub open spec fn advance(s: CpuState) -> CpuState {
    CpuState { pc: s.pc + 2, ..s }
}

/// `s` moved on past the next instruction when `c` holds, else to it.
pub open spec fn skip_if(s: CpuState, c: bool) -> CpuState {
    CpuState { pc: if c { s.pc + 4 } else { s.pc + 2 }, ..s }
}

/// The 16-bit word stored big-endian at the program counter.
pub open spec fn word_at(s: CpuState) -> u16 {
    (s.ram[s.pc as int] * 256 + s.ram[s.pc + 1int]) as u16
}

/// The state after executing `ins` in state `s`, with keys `keys` down and `random` drawn,
/// or the fatal error it raises.
pub open spec fn execute_spec(s: CpuState, ins: Instruction, keys: Seq<bool>, random: u8) -> Result<
    CpuState,
    MachineError,
> {
    match ins {
        Instruction::ClearScreen => Ok(advance(s)),
        Instruction::Return => if s.sp == 0 {
            Err(MachineError::StackUnderflow)
        } else {
            Ok(CpuState { sp: (s.sp - 1) as nat, pc: (s.stack[s.sp - 1] + 2) as nat, ..s })
        },
        Instruction::Jump { addr } => Ok(CpuState { pc: addr as nat, ..s }),
        Instruction::Call { addr } => if s.sp == STACK_SIZE {
            Err(MachineError::StackOverflow)
        } else {
            Ok(
                CpuState {
                    stack: s.stack.update(s.sp as int, s.pc as u16),
                    sp: s.sp + 1,
                    pc: addr as nat,
                    ..s
                },
            )
        },
        Instruction::SkipEqImm { x, kk } => Ok(skip_if(s, s.v[x as int] == kk)),
        Instruction::SkipNeImm { x, kk } => Ok(skip_if(s, s.v[x as int] != kk)),
        Instruction::SkipEqReg { x, y } => Ok(skip_if(s, s.v[x as int] == s.v[y as int])),
        Instruction::SkipNeReg { x, y } => Ok(skip_if(s, s.v[x as int] != s.v[y as int])),
        Instruction::LoadImm { x, kk } => Ok(advance(set_v(s, x as int, kk))),
        Instruction::AddImm { x, kk } => Ok(
            advance(set_v(s, x as int, ((s.v[x as int] + kk) % 256) as u8)),
        ),
        Instruction::Move { x, y } => Ok(advance(set_v(s, x as int, s.v[y as int]))),
        Instruction::Or { x, y } => Ok(advance(set_v(s, x as int, s.v[x as int] | s.v[y as int]))),
        Instruction::And { x, y } => Ok(
            advance(set_v(s, x as int, s.v[x as int] & s.v[y as int])),
        ),
        Instruction::Xor { x, y } => Ok(
            advance(set_v(s, x as int, s.v[x as int] ^ s.v[y as int])),
        ),
        Instruction::AddReg { x, y } => {
            let sum = s.v[x as int] + s.v[y as int];
            Ok(
                advance(
                    set_v(
                        set_v(s, x as int, (sum % 256) as u8),
                        FLAG as int,
                        if sum >= 256 {
                            1
                        } else {
                            0
                        },
                    ),
                ),
            )
        },
        Instruction::SubReg { x, y } => {
            let (a, b) = (s.v[x as int], s.v[y as int]);
            Ok(
                advance(
                    set_v(
                        set_v(s, x as int, ((a - b) % 256) as u8),
                        FLAG as int,
                        if a < b {
                            0
                        } else {
                            1
                        },
                    ),
                ),
            )
        },
        Instruction::SubRev { x, y } => {
            let (a, b) = (s.v[x as int], s.v[y as int]);
            Ok(
                advance(
                    set_v(
                        set_v(s, x as int, ((b - a) % 256) as u8),
                        FLAG as int,
                        if b < a {
                            0
                        } else {
                            1
                        },
                    ),
                ),
            )
        },
        Instruction::ShiftRight { x } => {
            let a = s.v[x as int];
            Ok(advance(set_v(set_v(s, FLAG as int, bit_of(a, 0)), x as int, a >> 1u8)))
        },
        Instruction::ShiftLeft { x } => {
            let a = s.v[x as int];
            Ok(advance(set_v(set_v(s, FLAG as int, bit_of(a, 7)), x as int, (a << 1u8) as u8)))
        },
        Instruction::LoadIndex { addr } => Ok(advance(CpuState { i: addr, ..s })),
        Instruction::JumpOffset { addr } => Ok(CpuState { pc: (addr + s.v[0]) as nat, ..s }),
        Instruction::Random { x, kk } => Ok(advance(set_v(s, x as int, random & kk))),
        Instruction::Draw { x, y, n } => Ok(advance(s)),
        Instruction::SkipKeyDown { x } => Ok(skip_if(s, key_down(keys, s.v[x as int]))),
        Instruction::SkipKeyUp { x } => Ok(skip_if(s, !key_down(keys, s.v[x as int]))),
        Instruction::ReadDelay { x } => Ok(advance(set_v(s, x as int, s.dt))),
        Instruction::WaitKey { x } => Ok(advance(s)),
        Instruction::SetDelay { x } => Ok(advance(CpuState { dt: s.v[x as int], ..s })),
        Instruction::SetSound { x } => Ok(advance(CpuState { st: s.v[x as int], ..s })),
        Instruction::AddIndex { x } => Ok(
            advance(CpuState { i: ((s.i + s.v[x as int]) % 0x10000) as u16, ..s }),
        ),
        Instruction::GlyphAddress { x } => Ok(
            advance(CpuState { i: (16 * s.v[x as int]) as u16, ..s }),
        ),
        Instruction::StoreDecimal { x } => {
            let a = s.v[x as int];
            Ok(
                advance(
                    CpuState {
                        ram: s.ram.update(mem_addr(s.i, 0), a / 100).update(
                            mem_addr(s.i, 1),
                            (a % 100) / 10,
                        ).update(mem_addr(s.i, 2), a % 10),
                        ..s
                    },
                ),
            )
        },
        Instruction::StoreRegisters { x } => Ok(
            advance(CpuState { ram: stored(s.ram, s.v, s.i, (x + 1) as nat), ..s }),
        ),
        Instruction::LoadRegisters { x } => Ok(
            advance(CpuState { v: loaded(s.v, s.ram, s.i, (x + 1) as nat), ..s }),
        ),
        Instruction::Unknown { word } => Ok(advance(s)),
    }
}

/// Whether `e` is what executing `ins` in state `s` asks of the surroundings.
pub open spec fn effect_of(e: Effect, s: CpuState, ins: Instruction) -> bool {
    match ins {
        Instruction::ClearScreen => e is ClearScreen,
        Instruction::Draw { x, y, n } => e is DrawSprite && e->DrawSprite_x == s.v[x as int]
            && e->DrawSprite_y == s.v[y as int] && e->DrawSprite_rows@ == sprite(s, n as nat),
        Instruction::WaitKey { x } => e is AwaitKey && e->AwaitKey_x == x,
        Instruction::Unknown { word } => e is Unrecognized && e->Unrecognized_word == word,
        _ => e is Continue,
    }
}

impl CPU {
    /// Executes `ins` with keys `keys` down, using `random` as the drawn byte of the
    /// random-number instruction. On a fatal error the state is left as it was.
    pub fn execute(&mut self, ins: Instruction, keys: &[bool; 16], random: u8) -> (r: Result<
        Effect,
        MachineError,
    >)
        requires
            old(self).wf(),
            ins.wf(),
            old(self).pc < MEMORY_SIZE,
        ensures
            final(self).wf(),
            match execute_spec(old(self)@, ins, keys@, random) {
                Ok(s) => r is Ok && final(self)@ == s && effect_of(r->Ok_0, old(self)@, ins),
                Err(e) => r == Err::<Effect, MachineError>(e) && final(self)@ == old(self)@,
            },
    {
        let ghost s = self@;
        match ins {
            Instruction::ClearScreen => {
                self.pc = self.pc + 2;
                assert(self@ =~= advance(s));
                Ok(Effect::ClearScreen)
            },
            Instruction::Return => {
                if self.sp == 0 {
                    return Err(MachineError::StackUnderflow);
                }
                self.sp = self.sp - 1;
                self.pc = self.stack[self.sp] as usize + 2;
                assert(self@ =~= execute_spec(s, ins, keys@, random)->Ok_0);
                Ok(Effect::Continue)
            },
            Instruction::Jump { addr } => {
                self.pc = addr as usize;
                assert(self@ =~= execute_spec(s, ins, keys@, random)->Ok_0);
                Ok(Effect::Continue)
            },
            Instruction::Call { addr } => {
                if self.sp == STACK_SIZE {
                    return Err(MachineError::StackOverflow);
                }
                self.stack[self.sp] = self.pc as u16;
                self.sp = self.sp + 1;
                self.pc = addr as usize;
                assert(self@ =~= execute_spec(s, ins, keys@, random)->Ok_0);
                Ok(Effect::Continue)
            },
            Instruction::SkipEqImm { x, kk } => {
                self.skip_if(self.v[x as usize] == kk);
                Ok(Effect::Continue)
            },
            Instruction::SkipNeImm { x, kk } => {
                self.skip_if(self.v[x as usize] != kk);
                Ok(Effect::Continue)
            },
            Instruction::SkipEqReg { x, y } => {
                self.skip_if(self.v[x as usize] == self.v[y as usize]);
                Ok(Effect::Continue)
            },
            Instruction::SkipNeReg { x, y } => {
                self.skip_if(self.v[x as usize] != self.v[y as usize]);
                Ok(Effect::Continue)
            },
            Instruction::LoadImm { x, kk } => {
                self.v[x as usize] = kk;
                self.pc = self.pc + 2;
                assert(self@ =~= execute_spec(s, ins, keys@, random)->Ok_0);
                Ok(Effect::Continue)
            },
            Instruction::AddImm { x, kk } => {
                let sum = self.v[x as usize] as u16 + kk as u16;
                self.v[x as usize] = (sum % 256) as u8;
                self.pc = self.pc + 2;
                assert(self@ =~= execute_spec(s, ins, keys@, random)->Ok_0);
                Ok(Effect::Continue)
            },
            Instruction::Move { x, y } => {
                self.v[x as usize] = self.v[y as usize];
                self.pc = self.pc + 2;
                assert(self@ =~= execute_spec(s, ins, keys@, random)->Ok_0);
                Ok(Effect::Continue)
            },
            Instruction::Or { x, y } => {
                self.v[x as usize] = self.v[x as usize] | self.v[y as usize];
                self.pc = self.pc + 2;
                assert(self@ =~= execute_spec(s, ins, keys@, random)->Ok_0);
                Ok(Effect::Continue)
            },
            Instruction::And { x, y } => {
                self.v[x as usize] = self.v[x as usize] & self.v[y as usize];
                self.pc = self.pc + 2;
                assert(self@ =~= execute_spec(s, ins, keys@, random)->Ok_0);
                Ok(Effect::Continue)
            },
            Instruction::Xor { x, y } => {
                self.v[x as usize] = self.v[x as usize] ^ self.v[y as usize];
                self.pc = self.pc + 2;
                assert(self@ =~= execute_spec(s, ins, keys@, random)->Ok_0);
                Ok(Effect::Continue)
            },
            Instruction::AddReg { x, y } => {
                let sum = self.v[x as usize] as u16 + self.v[y as usize] as u16;
                self.v[x as usize] = (sum % 256) as u8;
                self.v[FLAG] = if sum >= 256 { 1 } else { 0 };
                self.pc = self.pc + 2;
                assert(self@ =~= execute_spec(s, ins, keys@, random)->Ok_0);
                Ok(Effect::Continue)
            },
            Instruction::SubReg { x, y } => {
                let a = self.v[x as usize];
                let b = self.v[y as usize];
                self.v[x as usize] = ((a as u16 + 256 - b as u16) % 256) as u8;
                self.v[FLAG] = if a < b { 0 } else { 1 };
                self.pc = self.pc + 2;
                assert(((a as u16 + 256 - b as u16) % 256) as u8 == ((a - b) % 256) as u8);
                assert(self@ =~= execute_spec(s, ins, keys@, random)->Ok_0);
                Ok(Effect::Continue)
            },
            Instruction::SubRev { x, y } => {
                let a = self.v[x as usize];
                let b = self.v[y as usize];
                self.v[x as usize] = ((b as u16 + 256 - a as u16) % 256) as u8;
                self.v[FLAG] = if b < a { 0 } else { 1 };
                self.pc = self.pc + 2;
                assert(((b as u16 + 256 - a as u16) % 256) as u8 == ((b - a) % 256) as u8);
                assert(self@ =~= execute_spec(s, ins, keys@, random)->Ok_0);
                Ok(Effect::Continue)
            },
            Instruction::ShiftRight { x } => {
                let a = self.v[x as usize];
                self.v[FLAG] = get_bit(&a, 0);
                self.v[x as usize] = a >> 1u8;
                self.pc = self.pc + 2;
                assert(self@ =~= execute_spec(s, ins, keys@, random)->Ok_0);
                Ok(Effect::Continue)
            },
            Instruction::ShiftLeft { x } => {
                let a = self.v[x as usize];
                self.v[FLAG] = get_bit(&a, 7);
                self.v[x as usize] = a << 1u8;
                self.pc = self.pc + 2;
                assert(self@ =~= execute_spec(s, ins, keys@, random)->Ok_0);
                Ok(Effect::Continue)
            },
            Instruction::LoadIndex { addr } => {
                self.i = addr;
                self.pc = self.pc + 2;
                assert(self@ =~= execute_spec(s, ins, keys@, random)->Ok_0);
                Ok(Effect::Continue)
            },
            Instruction::JumpOffset { addr } => {
                self.pc = addr as usize + self.v[0] as usize;
                assert(self@ =~= execute_spec(s, ins, keys@, random)->Ok_0);
                Ok(Effect::Continue)
            },
            Instruction::Random { x, kk } => {
                self.v[x as usize] = random & kk;
                self.pc = self.pc + 2;
                assert(self@ =~= execute_spec(s, ins, keys@, random)->Ok_0);
                Ok(Effect::Continue)
            },
            Instruction::Draw { x, y, n } => {
                let rows = self.sprite_rows(n);
                let e = Effect::DrawSprite { x: self.v[x as usize], y: self.v[y as usize], rows };
                self.pc = self.pc + 2;
                assert(self@ =~= advance(s));
                Ok(e)
            },
            Instruction::SkipKeyDown { x } => {
                let k = self.v[x as usize];
                self.skip_if(k < 16 && keys[k as usize]);
                Ok(Effect::Continue)
            },
            Instruction::SkipKeyUp { x } => {
                let k = self.v[x as usize];
                self.skip_if(!(k < 16 && keys[k as usize]));
                Ok(Effect::Continue)
            },
            Instruction::ReadDelay { x } => {
                self.v[x as usize] = self.dt;
                self.pc = self.pc + 2;
                assert(self@ =~= execute_spec(s, ins, keys@, random)->Ok_0);
                Ok(Effect::Continue)
            },
            Instruction::WaitKey { x } => {
                self.pc = self.pc + 2;
                assert(self@ =~= advance(s));
                Ok(Effect::AwaitKey { x })
            },
            Instruction::SetDelay { x } => {
                self.dt = self.v[x as usize];
                self.pc = self.pc + 2;
                assert(self@ =~= execute_spec(s, ins, keys@, random)->Ok_0);
                Ok(Effect::Continue)
            },
            Instruction::SetSound { x } => {
                self.st = self.v[x as usize];
                self.pc = self.pc + 2;
                assert(self@ =~= execute_spec(s, ins, keys@, random)->Ok_0);
                Ok(Effect::Continue)
            },
            Instruction::AddIndex { x } => {
                self.i = ((self.i as u32 + self.v[x as usize] as u32) % 0x10000) as u16;
                self.pc = self.pc + 2;
                assert(self@ =~= execute_spec(s, ins, keys@, random)->Ok_0);
                Ok(Effect::Continue)
            },
            Instruction::GlyphAddress { x } => {
                self.i = 16 * self.v[x as usize] as u16;
                self.pc = self.pc + 2;
                assert(self@ =~= execute_spec(s, ins, keys@, random)->Ok_0);
                Ok(Effect::Continue)
            },
            Instruction::StoreDecimal { x } => {
                let a = self.v[x as usize];
                let base = self.i as usize;
                self.ram[base % MEMORY_SIZE] = a / 100;
                self.ram[(base + 1) % MEMORY_SIZE] = (a % 100) / 10;
                self.ram[(base + 2) % MEMORY_SIZE] = a % 10;
                self.pc = self.pc + 2;
                assert(self@ =~= execute_spec(s, ins, keys@, random)->Ok_0);
                Ok(Effect::Continue)
            },
            Instruction::StoreRegisters { x } => {
                self.store_registers(x);
                self.pc = self.pc + 2;
                assert(self@ =~= execute_spec(s, ins, keys@, random)->Ok_0);
                Ok(Effect::Continue)
            },
            Instruction::LoadRegisters { x } => {
                self.load_registers(x);
                self.pc = self.pc + 2;
                assert(self@ =~= execute_spec(s, ins, keys@, random)->Ok_0);
                Ok(Effect::Continue)
            },
            Instruction::Unknown { word } => {
                self.pc = self.pc + 2;
                assert(self@ =~= advance(s));
                Ok(Effect::Unrecognized { word })
            },
        }
    }

    /// Moves past the next instruction when `c` holds, else to it.
    fn skip_if(&mut self, c: bool)
        requires
            old(self).pc < MEMORY_SIZE,
        ensures
            final(self)@ == skip_if(old(self)@, c),
            final(self).sp == old(self).sp,
    {
        self.pc = if c { self.pc + 4 } else { self.pc + 2 };
        assert(self@ =~= skip_if(old(self)@, c));
    }

    /// The `n` bytes of memory from the index register on.
    fn sprite_rows(&self, n: u8) -> (r: Vec<u8>)
        ensures
            r@ == sprite(self@, n as nat),
    {
        let mut rows: Vec<u8> = Vec::new();
        let mut j: usize = 0;
        while j < n as usize
            invariant
                j <= n,
                rows@ == sprite(self@, j as nat),
            decreases n - j,
        {
            rows.push(self.ram[(self.i as usize + j) % MEMORY_SIZE]);
            j = j + 1;
            assert(rows@ =~= sprite(self@, j as nat));
        }
        rows
    }

    /// Stores registers `0..=x` into memory from the index register on.
    fn store_registers(&mut self, x: u8)
        requires
            x < 16,
        ensures
            final(self)@ == (CpuState {
                ram: stored(old(self)@.ram, old(self)@.v, old(self).i, (x + 1) as nat),
                ..old(self)@
            }),
            final(self).sp == old(self).sp,
            final(self).pc == old(self).pc,
    {
        let ghost s = self@;
        let mut j: usize = 0;
        while j <= x as usize
            invariant
                j <= x + 1,
                x < 16,
                self@ == (CpuState { ram: stored(s.ram, s.v, s.i, j as nat), ..s }),
                self.sp == s.sp,
                self.pc == s.pc,
                self.v@ == s.v,
                self.i == s.i,
            decreases x + 1 - j,
        {
            self.ram[(self.i as usize + j) % MEMORY_SIZE] = self.v[j];
            j = j + 1;
            assert(self@ =~= CpuState { ram: stored(s.ram, s.v, s.i, j as nat), ..s });
        }
    }

    /// Loads registers `0..=x` from memory at the index register on.
    fn load_registers(&mut self, x: u8)
        requires
            x < 16,
        ensures
            final(self)@ == (CpuState {
                v: loaded(old(self)@.v, old(self)@.ram, old(self).i, (x + 1) as nat),
                ..old(self)@
            }),
            final(self).sp == old(self).sp,
            final(self).pc == old(self).pc,
    {
        let ghost s = self@;
        let mut j: usize = 0;
        while j <= x as usize
            invariant
                j <= x + 1,
                x < 16,
                self@ == (CpuState { v: loaded(s.v, s.ram, s.i, j as nat), ..s }),
                self.sp == s.sp,
                self.pc == s.pc,
                self.ram@ == s.ram,
                self.i == s.i,
            decreases x + 1 - j,
        {
            self.v[j] = self.ram[(self.i as usize + j) % MEMORY_SIZE];
            j = j + 1;
            assert(self@ =~= CpuState { v: loaded(s.v, s.ram, s.i, j as nat), ..s });
        }
    }
    /// The instruction word at the program counter.
    pub fn fetch(&self) -> (r: u16)
        requires
            self.pc + 1 < MEMORY_SIZE,
        ensures
            r == word_at(self@),
    {
        let hi = self.ram[self.pc] as u16;
        let lo = self.ram[self.pc + 1] as u16;
        hi * 256 + lo
    }

    /// Sets the flag register to the collision result of the last sprite draw.
    pub fn record_collision(&mut self, collided: bool)
        ensures
            final(self)@ == set_v(old(self)@, FLAG as int, if collided { 1 } else { 0 }),
    {
        self.v[FLAG] = if collided { 1 } else { 0 };
        assert(self@ =~= set_v(old(self)@, FLAG as int, if collided { 1u8 } else { 0u8 }));
    }
}

} // verus!
