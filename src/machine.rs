use vstd::prelude::*;
use crate::loader::{load_spec, words_from_bytes, LoadError};
use crate::isa::{alu, alu_spec, compare, compare_spec, decode, decode_spec, well_formed, FaultKind, Instruction};
use crate::memory::{cell_index, DataMemory, MemoryView};
use crate::regs::{read_spec, RegisterFile};
use crate::render::FRAME_PAGE;

verus! {

/// Number of instruction words the program store holds.
pub const PROGRAM_CAPACITY: usize = 4096;

/// A fault together with the address of the instruction that raised it.
#[derive(Clone, Copy, Debug, PartialEq, Eq, Structural)]
pub struct Fault {
    pub kind: FaultKind,
    pub pc: u16,
}

/// The whole state of the machine.
pub struct MachineView {
    pub regs: Seq<u8>,
    pub mem: MemoryView,
    pub program: Seq<u16>,
    pub pc: nat,
    pub stack: Seq<u16>,
    pub flag: bool,
}

/// Register `i` as instructions read it.
pub open spec fn reg(m: MachineView, i: u8) -> u8 {
    read_spec(m.regs, i as int)
}

/// The counter has run past the program store.
pub open spec fn halted_spec(m: MachineView) -> bool {
    m.pc >= PROGRAM_CAPACITY
}

/// A state the machine can be in: every component sized, the counter at most
/// one past the store, and every return address inside the store.
pub open spec fn valid(m: MachineView) -> bool {
    &&& m.regs.len() == 16
    &&& m.mem.cells.len() == 65536
    &&& m.program.len() == PROGRAM_CAPACITY
    &&& m.pc <= PROGRAM_CAPACITY
    &&& forall|k: int| 0 <= k < m.stack.len() ==> #[trigger] m.stack[k] < PROGRAM_CAPACITY
}

/// The state after executing `ins` as the instruction at `m.pc`.
///
/// The counter moves to the next instruction, except that a branch whose flag
/// is false stays on itself, a taken branch continues at its target (which it
/// also pushes), and a return with a non-empty stack continues at the popped
/// address.
pub open spec fn execute_spec(m: MachineView, ins: Instruction) -> Result<MachineView, FaultKind> {
    let next = MachineView { pc: m.pc + 1, ..m };
    match ins {
        Instruction::Alu { op, rd, rs, rt } => match alu_spec(op, reg(m, rs), reg(m, rt)) {
            Some(v) => Ok(MachineView { regs: m.regs.update(rd as int, v), ..next }),
            None => Err(FaultKind::DivideByZero),
        },
        Instruction::Ret => if m.stack.len() > 0 {
            Ok(MachineView { pc: m.stack.last() as nat, stack: m.stack.drop_last(), ..m })
        } else {
            Ok(next)
        },
        Instruction::Bir { target } => if m.flag {
            Ok(MachineView { pc: target as nat, stack: m.stack.push(target), ..m })
        } else {
            Ok(m)
        },
        Instruction::Ldm { rd, ra } => Ok(
            MachineView {
                regs: m.regs.update(rd as int, m.mem.cells[cell_index(m.mem.active, reg(m, ra))]),
                ..next
            },
        ),
        Instruction::Str { ra, rs } => Ok(
            MachineView {
                mem: MemoryView {
                    cells: m.mem.cells.update(cell_index(m.mem.active, reg(m, ra)), reg(m, rs)),
                    active: m.mem.active,
                },
                ..next
            },
        ),
        Instruction::Ldi { rd, imm } => Ok(MachineView { regs: m.regs.update(rd as int, imm), ..next }),
        Instruction::Cmp { mode, rs, rt } => Ok(
            MachineView { flag: compare_spec(mode, reg(m, rs), reg(m, rt)), ..next },
        ),
        Instruction::Spg { rs } => Ok(
            MachineView { mem: MemoryView { cells: m.mem.cells, active: reg(m, rs) }, ..next },
        ),
    }
}

/// One tick: fetch the word at `m.pc`, decode it and execute it.
pub open spec fn step_spec(m: MachineView) -> Result<MachineView, Fault> {
    let at = m.pc as u16;
    match decode_spec(m.program[m.pc as int]) {
        Err(kind) => Err(Fault { kind, pc: at }),
        Ok(ins) => match execute_spec(m, ins) {
            Ok(n) => Ok(n),
            Err(kind) => Err(Fault { kind, pc: at }),
        },
    }
}

/// The state after at most `n` ticks, stopping early once halted.
pub open spec fn run_spec(m: MachineView, n: nat) -> Result<MachineView, Fault>
    decreases n,
{
    if n == 0 || halted_spec(m) {
        Ok(m)
    } else {
        match step_spec(m) {
            Ok(next) => run_spec(next, (n - 1) as nat),
            Err(f) => Err(f),
        }
    }
}

/// The program store after an image of words `words` is written from address 0 on.
pub open spec fn with_words(program: Seq<u16>, words: Seq<u16>) -> Seq<u16> {
    Seq::new(program.len(), |i: int| if i < words.len() { words[i] } else { program[i] })
}

/// Registers, paged memory, program store, counter, call stack and flag.
pub struct Machine {
    regs: RegisterFile,
    mem: DataMemory,
    program: Vec<u16>,
    pc: u16,
    stack: Vec<u16>,
    flag: bool,
}

impl View for Machine {
    type V = MachineView;

    closed spec fn view(&self) -> MachineView {
        MachineView {
            regs: self.regs@,
            mem: self.mem@,
            program: self.program@,
            pc: self.pc as nat,
            stack: self.stack@,
            flag: self.flag,
        }
    }
}

impl Machine {
    pub open spec fn wf(&self) -> bool {
        valid(self@)
    }

    /// Everything zero or empty: registers, memory, program, counter, stack,
    /// flag and active page.
    pub fn new() -> (r: Machine)
        ensures
            r.wf(),
            r@.regs == Seq::new(16, |i: int| 0u8),
            forall|i: int| 0 <= i < 65536 ==> #[trigger] r@.mem.cells[i] == 0,
            r@.mem.active == 0,
            r@.program == Seq::new(PROGRAM_CAPACITY as nat, |i: int| 0u16),
            r@.pc == 0,
            r@.stack == Seq::<u16>::empty(),
            !r@.flag,
    {
        let mut program: Vec<u16> = Vec::new();
        let mut k: usize = 0;
        while k < PROGRAM_CAPACITY
            invariant
                k <= PROGRAM_CAPACITY,
                program@ == Seq::new(k as nat, |i: int| 0u16),
            decreases PROGRAM_CAPACITY - k,
        {
            program.push(0);
            k = k + 1;
            assert(program@ =~= Seq::new(k as nat, |i: int| 0u16));
        }
        let r = Machine {
            regs: RegisterFile::new(),
            mem: DataMemory::new(),
            program,
            pc: 0,
            stack: Vec::new(),
            flag: false,
        };
        assert(r@.stack =~= Seq::<u16>::empty());
        r
    }

    /// Executes `ins` as the instruction at the current counter.
    pub fn execute(&mut self, ins: Instruction) -> (r: Result<(), FaultKind>)
        requires
            old(self).wf(),
            well_formed(ins),
            !halted_spec(old(self)@),
        ensures
            final(self).wf(),
            match execute_spec(old(self)@, ins) {
                Ok(n) => r is Ok && final(self)@ == n,
                Err(k) => r == Err::<(), FaultKind>(k) && final(self)@ == old(self)@,
            },
    {
        match ins {
            Instruction::Alu { op, rd, rs, rt } => {
                let a = self.regs.read(rs);
                let b = self.regs.read(rt);
                match alu(op, a, b) {
                    Some(v) => {
                        self.regs.write(rd, v);
                        self.pc = self.pc + 1;
                        Ok(())
                    },
                    None => Err(FaultKind::DivideByZero),
                }
            },
            Instruction::Ret => {
                match self.stack.pop() {
                    Some(t) => {
                        self.pc = t;
                    },
                    None => {
                        self.pc = self.pc + 1;
                    },
                }
                Ok(())
            },
            Instruction::Bir { target } => {
                if self.flag {
                    self.stack.push(target);
                    self.pc = target;
                }
                Ok(())
            },
            Instruction::Ldm { rd, ra } => {
                let offset = self.regs.read(ra);
                let v = self.mem.load(offset);
                self.regs.write(rd, v);
                self.pc = self.pc + 1;
                Ok(())
            },
            Instruction::Str { ra, rs } => {
                let offset = self.regs.read(ra);
                let v = self.regs.read(rs);
                self.mem.store(offset, v);
                self.pc = self.pc + 1;
                Ok(())
            },
            Instruction::Ldi { rd, imm } => {
                self.regs.write(rd, imm);
                self.pc = self.pc + 1;
                Ok(())
            },
            Instruction::Cmp { mode, rs, rt } => {
                let a = self.regs.read(rs);
                let b = self.regs.read(rt);
                self.flag = compare(mode, a, b);
                self.pc = self.pc + 1;
                Ok(())
            },
            Instruction::Spg { rs } => {
                let p = self.regs.read(rs);
                self.mem.select_page(p);
                self.pc = self.pc + 1;
                Ok(())
            },
        }
    }

    /// One fetch-decode-execute cycle. On a fault nothing changes.
    pub fn tick(&mut self) -> (r: Result<(), Fault>)
        requires
            old(self).wf(),
            !halted_spec(old(self)@),
        ensures
            final(self).wf(),
            match step_spec(old(self)@) {
                Ok(n) => r is Ok && final(self)@ == n,
                Err(f) => r == Err::<(), Fault>(f) && final(self)@ == old(self)@,
            },
    {
        let at = self.pc;
        let w = self.program[at as usize];
        match decode(w) {
            Err(kind) => Err(Fault { kind, pc: at }),
            Ok(ins) => match self.execute(ins) {
                Ok(()) => Ok(()),
                Err(kind) => Err(Fault { kind, pc: at }),
            },
        }
    }

    /// Fills the program store from a big-endian image, from address 0 on.
    /// An image of odd length or of more than 4096 words is refused and
    /// nothing changes.
    pub fn load_program(&mut self, bytes: &Vec<u8>) -> (r: Result<(), LoadError>)
        requires
            old(self).wf(),
        ensures
            final(self).wf(),
            match load_spec(bytes@) {
                Ok(ws) => r is Ok && final(self)@ == MachineView {
                    program: with_words(old(self)@.program, ws),
                    ..old(self)@
                },
                Err(e) => r == Err::<(), LoadError>(e) && final(self)@ == old(self)@,
            },
    {
        let words = match words_from_bytes(bytes) {
            Ok(ws) => ws,
            Err(e) => return Err(e),
        };
        let ghost old_program = self.program@;
        let mut i: usize = 0;
        while i < words.len()
            invariant
                words@.len() <= PROGRAM_CAPACITY,
                i <= words@.len(),
                self.program@.len() == PROGRAM_CAPACITY,
                old_program.len() == PROGRAM_CAPACITY,
                forall|k: int|
                    0 <= k < PROGRAM_CAPACITY ==> #[trigger] self.program@[k] == if k < i {
                        words@[k]
                    } else {
                        old_program[k]
                    },
                self.regs == old(self).regs,
                self.mem == old(self).mem,
                self.pc == old(self).pc,
                self.stack == old(self).stack,
                self.flag == old(self).flag,
            decreases words@.len() - i,
        {
            self.program.set(i, words[i]);
            i = i + 1;
        }
        assert(self.program@ =~= with_words(old_program, words@));
        Ok(())
    }

    /// The counter has run past the program store.
    pub fn halted(&self) -> (r: bool)
        ensures
            r == halted_spec(self@),
    {
        self.pc as usize >= PROGRAM_CAPACITY
    }

    /// Ticks until the machine halts, faults, or `max_ticks` ticks have run.
    pub fn run(&mut self, max_ticks: u64) -> (r: Result<(), Fault>)
        requires
            old(self).wf(),
        ensures
            final(self).wf(),
            match run_spec(old(self)@, max_ticks as nat) {
                Ok(n) => r is Ok && final(self)@ == n,
                Err(f) => r == Err::<(), Fault>(f),
            },
    {
        let mut left: u64 = max_ticks;
        while left > 0 && !self.halted()
            invariant
                self.wf(),
                run_spec(old(self)@, max_ticks as nat) == run_spec(self@, left as nat),
            decreases left,
        {
            match self.tick() {
                Ok(()) => {},
                Err(f) => return Err(f),
            }
            left = left - 1;
        }
        Ok(())
    }

    /// The program counter.
    pub fn pc(&self) -> (r: u16)
        ensures
            r as nat == self@.pc,
    {
        self.pc
    }

    /// Register `i` as instructions read it: 0 for register 0.
    pub fn read_reg(&self, i: u8) -> (r: u8)
        requires
            self.wf(),
            i < 16,
        ensures
            r == reg(self@, i),
    {
        self.regs.read(i)
    }

    /// The comparison flag.
    pub fn flag(&self) -> (r: bool)
        ensures
            r == self@.flag,
    {
        self.flag
    }

    /// The page that loads and stores address.
    pub fn active_page(&self) -> (r: u8)
        ensures
            r == self@.mem.active,
    {
        self.mem.active_page()
    }

    /// The return addresses, most recent last.
    pub fn call_stack(&self) -> (r: &Vec<u16>)
        ensures
            r@ == self@.stack,
    {
        &self.stack
    }

    /// Byte `offset` of page `page`.
    pub fn memory_byte(&self, page: u8, offset: u8) -> (r: u8)
        requires
            self.wf(),
        ensures
            r == self@.mem.cells[cell_index(page, offset)],
    {
        self.mem.load_from(page, offset)
    }

    /// Word `i` of the program store.
    pub fn program_word(&self, i: usize) -> (r: u16)
        requires
            self.wf(),
            i < PROGRAM_CAPACITY,
        ensures
            r == self@.program[i as int],
    {
        self.program[i]
    }

    /// The 256 bytes of the page that is drawn, row by row.
    pub fn frame(&self) -> (r: Vec<u8>)
        requires
            self.wf(),
        ensures
            r@.len() == 256,
            forall|o: int| 0 <= o < 256 ==> #[trigger] r@[o] == self@.mem.cells[FRAME_PAGE as int * 256 + o],
    {
        self.mem.page(FRAME_PAGE)
    }
}

} // verus!
