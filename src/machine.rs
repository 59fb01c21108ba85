use vstd::prelude::*;

verus! {

/// Bytes of addressable memory.
pub const MEMORY_SIZE: usize = 4096;

/// General-purpose registers; the last one doubles as the flag register.
pub const REGISTER_COUNT: usize = 16;

/// Return addresses the call stack can hold.
pub const STACK_SIZE: usize = 16;

/// Address at which programs are loaded and execution starts.
pub const PROGRAM_START: usize = 0x200;

/// Index of the carry / borrow / collision flag register.
pub const FLAG: usize = 0xf;

/// Distance in memory between the glyphs of consecutive digits.
pub const GLYPH_STRIDE: usize = 0x10;

/// Rows (bytes) in a glyph.
pub const GLYPH_ROWS: usize = 5;

/// The fatal conditions of the machine.
#[derive(Debug, Clone, Copy, PartialEq, Eq, Structural)]
pub enum MachineError {
    /// The program does not fit between the program start and the end of memory.
    ProgramTooLarge,
    /// A call found all stack slots in use.
    StackOverflow,
    /// A return found the stack empty.
    StackUnderflow,
}

/// The five-row bitmap of hexadecimal digit `d`.
pub open spec fn glyph(d: int) -> Seq<u8> {
    if d == 0x0 {
        seq![0xf0u8, 0x90, 0x90, 0x90, 0xf0]
    } else if d == 0x1 {
        seq![0x20u8, 0x60, 0x20, 0x20, 0x70]
    } else if d == 0x2 {
        seq![0xf0u8, 0x10, 0xf0, 0x80, 0xf0]
    } else if d == 0x3 {
        seq![0xf0u8, 0x10, 0xf0, 0x10, 0xf0]
    } else if d == 0x4 {
        seq![0x90u8, 0x90, 0xf0, 0x10, 0x10]
    } else if d == 0x5 {
        seq![0xf0u8, 0x80, 0xf0, 0x10, 0xf0]
    } else if d == 0x6 {
        seq![0xf0u8, 0x80, 0xf0, 0x90, 0xf0]
    } else if d == 0x7 {
        seq![0xf0u8, 0x10, 0x20, 0x40, 0x40]
    } else if d == 0x8 {
        seq![0xf0u8, 0x90, 0xf0, 0x90, 0xf0]
    } else if d == 0x9 {
        seq![0xf0u8, 0x90, 0xf0, 0x10, 0xf0]
    } else if d == 0xa {
        seq![0xf0u8, 0x90, 0xf0, 0x90, 0x90]
    } else if d == 0xb {
        seq![0xe0u8, 0x90, 0xe0, 0x90, 0xe0]
    } else if d == 0xc {
        seq![0xf0u8, 0x80, 0x80, 0x80, 0xf0]
    } else if d == 0xd {
        seq![0xe0u8, 0x90, 0x90, 0x90, 0xe0]
    } else if d == 0xe {
        seq![0xf0u8, 0x80, 0xf0, 0x80, 0xf0]
    } else {
        seq![0xf0u8, 0x80, 0xf0, 0x80, 0x80]
    }
}

/// The byte at address `a` of a freshly built machine: glyph rows below 256, zero elsewhere.
pub open spec fn boot_byte(a: int) -> u8 {
    if 0 <= a < 256 && a % 16 < 5 {
        glyph(a / 16)[a % 16]
    } else {
        0
    }
}

/// `ram` with the sixteen glyphs written into low memory, digit `d` at address `16 * d`;
/// every other byte as it was.
pub open spec fn with_glyphs(ram: Seq<u8>) -> Seq<u8> {
    Seq::new(ram.len(), |a: int| if 0 <= a < 256 && a % 16 < 5 { boot_byte(a) } else { ram[a] })
}

/// The memory of a freshly built machine.
pub open spec fn boot_memory() -> Seq<u8> {
    Seq::new(MEMORY_SIZE as nat, |a: int| boot_byte(a))
}

/// The abstract state of the machine.
#[verifier::ext_equal]
pub struct CpuState {
    pub ram: Seq<u8>,
    pub v: Seq<u8>,
    pub i: u16,
    pub dt: u8,
    pub st: u8,
    pub stack: Seq<u16>,
    pub sp: nat,
    pub pc: nat,
}

/// The machine: memory, registers, index register, timers, call stack and program counter.
pub struct CPU {
    pub ram: [u8; 4096],
    pub v: [u8; 16],
    pub i: u16,
    pub dt: u8,
    pub st: u8,
    pub stack: [u16; 16],
    pub sp: usize,
    pub pc: usize,
}

impl View for CPU {
    type V = CpuState;

    open spec fn view(&self) -> CpuState {
        CpuState {
            ram: self.ram@,
            v: self.v@,
            i: self.i,
            dt: self.dt,
            st: self.st,
            stack: self.stack@,
            sp: self.sp as nat,
            pc: self.pc as nat,
        }
    }
}

/// The state of a freshly built machine.
pub open spec fn boot_state() -> CpuState {
    CpuState {
        ram: boot_memory(),
        v: Seq::new(REGISTER_COUNT as nat, |j: int| 0u8),
        i: 0,
        dt: 0,
        st: 0,
        stack: Seq::new(STACK_SIZE as nat, |j: int| 0u16),
        sp: 0,
        pc: PROGRAM_START as nat,
    }
}

/// Whether `len` bytes of program fit between the program start and the end of memory.
pub open spec fn program_fits(len: nat) -> bool {
    PROGRAM_START + len < MEMORY_SIZE
}

/// `ram` with `rom` written from the program start on.
pub open spec fn with_program(ram: Seq<u8>, rom: Seq<u8>) -> Seq<u8> {
    ram.take(PROGRAM_START as int) + rom + ram.skip(PROGRAM_START + rom.len())
}

/// The five rows of the glyph of digit `d`.
fn glyph_rows(d: usize) -> (r: [u8; 5])
    requires
        d < 16,
    ensures
        r@ == glyph(d as int),
{
    let r: [u8; 5] = if d == 0x0 {
        [0xf0, 0x90, 0x90, 0x90, 0xf0]
    } else if d == 0x1 {
        [0x20, 0x60, 0x20, 0x20, 0x70]
    } else if d == 0x2 {
        [0xf0, 0x10, 0xf0, 0x80, 0xf0]
    } else if d == 0x3 {
        [0xf0, 0x10, 0xf0, 0x10, 0xf0]
    } else if d == 0x4 {
        [0x90, 0x90, 0xf0, 0x10, 0x10]
    } else if d == 0x5 {
        [0xf0, 0x80, 0xf0, 0x10, 0xf0]
    } else if d == 0x6 {
        [0xf0, 0x80, 0xf0, 0x90, 0xf0]
    } else if d == 0x7 {
        [0xf0, 0x10, 0x20, 0x40, 0x40]
    } else if d == 0x8 {
        [0xf0, 0x90, 0xf0, 0x90, 0xf0]
    } else if d == 0x9 {
        [0xf0, 0x90, 0xf0, 0x10, 0xf0]
    } else if d == 0xa {
        [0xf0, 0x90, 0xf0, 0x90, 0x90]
    } else if d == 0xb {
        [0xe0, 0x90, 0xe0, 0x90, 0xe0]
    } else if d == 0xc {
        [0xf0, 0x80, 0x80, 0x80, 0xf0]
    } else if d == 0xd {
        [0xe0, 0x90, 0x90, 0x90, 0xe0]
    } else if d == 0xe {
        [0xf0, 0x80, 0xf0, 0x80, 0xf0]
    } else {
        [0xf0, 0x80, 0xf0, 0x80, 0x80]
    };
    assert(r@ =~= glyph(d as int));
    r
}

impl CPU {
    /// Whether the stack pointer lies within the stack.
    pub open spec fn wf(&self) -> bool {
        self.sp <= STACK_SIZE
    }

    /// A machine with zeroed registers, timers and stack, the glyphs in low memory,
    /// and the program counter at the program start.
    pub fn new() -> (r: CPU)
        ensures
            r.wf(),
            r@ == boot_state(),
    {
        let mut ret = CPU {
            ram: [0u8; 4096],
            v: [0u8; 16],
            i: 0,
            dt: 0,
            st: 0,
            stack: [0u16; 16],
            sp: 0,
            pc: PROGRAM_START,
        };
        ret.preload_ram();
        assert(ret.v@ =~= boot_state().v);
        assert(ret.stack@ =~= boot_state().stack);
        assert(ret.ram@ =~= boot_memory());
        ret
    }

    /// Writes the sixteen glyphs into low memory, digit `d` at address `16 * d`.
    fn preload_ram(&mut self)
        ensures
            final(self).ram@ == with_glyphs(old(self).ram@),
            forall|d: int, k: int|
                0 <= d < 16 && 0 <= k < GLYPH_ROWS ==> #[trigger] final(self).ram@[16 * d + k]
                    == glyph(d)[k],
            final(self).v == old(self).v,
            final(self).i == old(self).i,
            final(self).dt == old(self).dt,
            final(self).st == old(self).st,
            final(self).stack == old(self).stack,
            final(self).sp == old(self).sp,
            final(self).pc == old(self).pc,
    {
        let ghost old_ram = self.ram@;
        let mut a: usize = 0;
        while a < 256
            invariant
                a <= 256,
                old_ram == old(self).ram@,
                self.v == old(self).v,
                self.i == old(self).i,
                self.dt == old(self).dt,
                self.st == old(self).st,
                self.stack == old(self).stack,
                self.sp == old(self).sp,
                self.pc == old(self).pc,
                forall|b: int| 0 <= b < a ==> #[trigger] self.ram@[b] == with_glyphs(old_ram)[b],
                forall|b: int| a <= b < MEMORY_SIZE ==> #[trigger] self.ram@[b] == old_ram[b],
            decreases 256 - a,
        {
            if a % GLYPH_STRIDE < GLYPH_ROWS {
                let rows = glyph_rows(a / GLYPH_STRIDE);
                self.ram[a] = rows[a % GLYPH_STRIDE];
            }
            a = a + 1;
        }
        assert(self.ram@ =~= with_glyphs(old_ram));
        assert forall|d: int, k: int| 0 <= d < 16 && 0 <= k < GLYPH_ROWS implies #[trigger] self.ram@[16
            * d + k] == glyph(d)[k] by {
            assert((16 * d + k) / 16 == d && (16 * d + k) % 16 == k) by (nonlinear_arith)
                requires
                    0 <= d < 16,
                    0 <= k < 5,
            ;
        }
    }

    /// Copies `rom` into memory from the program start on; fails with `ProgramTooLarge`,
    /// changing nothing, when the program start plus its length reaches the end of memory.
    pub fn load_rom(&mut self, rom: &Vec<u8>) -> (r: Result<(), MachineError>)
        ensures
            r is Ok <==> program_fits(rom@.len()),
            r is Err ==> r == Err::<(), MachineError>(MachineError::ProgramTooLarge)
                && final(self)@ == old(self)@,
            r is Ok ==> final(self)@ == (CpuState {
                ram: with_program(old(self)@.ram, rom@),
                ..old(self)@
            }),
    {
        if rom.len() >= MEMORY_SIZE - PROGRAM_START {
            return Err(MachineError::ProgramTooLarge);
        }
        let ghost old_ram = self.ram@;
        let mut j: usize = 0;
        while j < rom.len()
            invariant
                j <= rom@.len(),
                PROGRAM_START + rom@.len() < MEMORY_SIZE,
                old_ram == old(self).ram@,
                self.ram@ == old_ram.take(PROGRAM_START as int) + rom@.take(j as int)
                    + old_ram.skip(PROGRAM_START + j),
                self.v == old(self).v,
                self.i == old(self).i,
                self.dt == old(self).dt,
                self.st == old(self).st,
                self.stack == old(self).stack,
                self.sp == old(self).sp,
                self.pc == old(self).pc,
            decreases rom@.len() - j,
        {
            self.ram[PROGRAM_START + j] = rom[j];
            j = j + 1;
            assert(self.ram@ =~= old_ram.take(PROGRAM_START as int) + rom@.take(j as int)
                + old_ram.skip(PROGRAM_START + j));
        }
        assert(rom@.take(j as int) =~= rom@);
        assert(self.ram@ =~= with_program(old_ram, rom@));
        Ok(())
    }

    /// The byte at `addr`.
    pub fn read_memory(&self, addr: usize) -> (r: u8)
        requires
            addr < MEMORY_SIZE,
        ensures
            r == self@.ram[addr as int],
    {
        self.ram[addr]
    }

    /// Stores `value` at `addr`.
    pub fn write_memory(&mut self, addr: usize, value: u8)
        requires
            addr < MEMORY_SIZE,
        ensures
            final(self)@ == (CpuState { ram: old(self)@.ram.update(addr as int, value), ..old(self)@ }),
    {
        self.ram[addr] = value;
        assert(self@ =~= CpuState { ram: old(self)@.ram.update(addr as int, value), ..old(self)@ });
    }

    /// The value of register `x`.
    pub fn register(&self, x: usize) -> (r: u8)
        requires
            x < REGISTER_COUNT,
        ensures
            r == self@.v[x as int],
    {
        self.v[x]
    }

    /// Sets register `x` to `value`.
    pub fn set_register(&mut self, x: usize, value: u8)
        requires
            x < REGISTER_COUNT,
        ensures
            final(self)@ == (CpuState { v: old(self)@.v.update(x as int, value), ..old(self)@ }),
    {
        self.v[x] = value;
        assert(self@ =~= CpuState { v: old(self)@.v.update(x as int, value), ..old(self)@ });
    }
}

} // verus!
