use vstd::prelude::*;
use crate::isa::{fields_spec, FaultKind, Fields, Instruction};
use crate::machine::{execute_spec, halted_spec, reg, step_spec, valid, Fault, MachineView};
use crate::memory::cell_index;

verus! {

/// The fields of the word the counter points at.
pub open spec fn fetched(m: MachineView) -> Fields {
    fields_spec(m.program[m.pc as int])
}

/// ADD and SUB never fault: they store the sum or difference of their operands
/// modulo 256.
pub proof fn add_sub_wrap_around(m: MachineView)
    requires
        valid(m),
        !halted_spec(m),
        fetched(m).opcode == 0 || fetched(m).opcode == 1,
    ensures
        (step_spec(m) is Ok),
        ({
            let f = fetched(m);
            let n = step_spec(m)->Ok_0;
            &&& n.regs[f.r1 as int] as int == if f.opcode == 0 {
                (reg(m, f.r2) + reg(m, f.r3)) % 256
            } else {
                (reg(m, f.r2) - reg(m, f.r3)) % 256
            }
            &&& n.pc == m.pc + 1
        }),
{
}

/// DIV faults, at its own address, exactly when its divisor reads 0; otherwise
/// it stores the quotient rounded toward zero.
pub proof fn div_by_zero_faults(m: MachineView)
    requires
        valid(m),
        !halted_spec(m),
        fetched(m).opcode == 2,
    ensures
        ({
            let f = fetched(m);
            if reg(m, f.r3) == 0 {
                step_spec(m) == Err::<MachineView, Fault>(
                    Fault { kind: FaultKind::DivideByZero, pc: m.pc as u16 },
                )
            } else {
                &&& step_spec(m) is Ok
                &&& step_spec(m)->Ok_0.regs[f.r1 as int] as int == reg(m, f.r2) as int / reg(m, f.r3) as int
                &&& reg(m, f.r2) as int / reg(m, f.r3) as int * reg(m, f.r3) as int <= reg(m, f.r2) as int
            }
        }),
{
    let f = fetched(m);
    if reg(m, f.r3) != 0 {
        let a = reg(m, f.r2) as int;
        let b = reg(m, f.r3) as int;
        assert(a / b * b <= a) by (nonlinear_arith)
            requires
                0 <= a,
                0 < b,
        ;
    }
}

/// CMP sets the flag to `==`, `>`, `<`, `>=`, `<=` or `!=` of its operands for
/// modes 0 to 5, and faults on any other mode.
pub proof fn compare_modes(m: MachineView)
    requires
        valid(m),
        !halted_spec(m),
        fetched(m).opcode == 14,
    ensures
        ({
            let f = fetched(m);
            let a = reg(m, f.r2);
            let b = reg(m, f.r3);
            if f.r1 <= 5 {
                &&& step_spec(m) is Ok
                &&& step_spec(m)->Ok_0.flag == if f.r1 == 0 {
                    a == b
                } else if f.r1 == 1 {
                    a > b
                } else if f.r1 == 2 {
                    a < b
                } else if f.r1 == 3 {
                    a >= b
                } else if f.r1 == 4 {
                    a <= b
                } else {
                    a != b
                }
            } else {
                step_spec(m) == Err::<MachineView, Fault>(
                    Fault { kind: FaultKind::InvalidCompareMode(f.r1), pc: m.pc as u16 },
                )
            }
        }),
{
}

/// BIR with the flag false leaves the whole state as it was, so the next tick
/// runs it again; with the flag true it pushes its 12-bit target and the next
/// tick runs the instruction at that target.
pub proof fn branch_spins_or_jumps(m: MachineView)
    requires
        valid(m),
        !halted_spec(m),
        fetched(m).opcode == 10,
    ensures
        (step_spec(m) is Ok),
        !m.flag ==> step_spec(m)->Ok_0 == m,
        m.flag ==> step_spec(m)->Ok_0.pc == fetched(m).addr12 as nat,
        m.flag ==> step_spec(m)->Ok_0.stack == m.stack.push(fetched(m).addr12),
{
}

/// RET pops the most recent return address and continues there; on an empty
/// stack it only moves on to the next instruction.
pub proof fn return_pops_or_continues(m: MachineView)
    requires
        valid(m),
        !halted_spec(m),
        fetched(m).opcode == 9,
    ensures
        (step_spec(m) is Ok),
        m.stack.len() > 0 ==> step_spec(m)->Ok_0 == (MachineView {
            pc: m.stack.last() as nat,
            stack: m.stack.drop_last(),
            ..m
        }),
        m.stack.len() == 0 ==> step_spec(m)->Ok_0 == (MachineView { pc: m.pc + 1, ..m }),
{
}

/// A taken branch followed, anywhere, by a return comes back to the branch's
/// own target with the stack as it was before the branch.
pub proof fn return_reenters_branch_target(m: MachineView, target: u16)
    requires
        valid(m),
        m.flag,
        target < 4096,
    ensures
        ({
            let b = execute_spec(m, Instruction::Bir { target })->Ok_0;
            let r = execute_spec(b, Instruction::Ret)->Ok_0;
            r.pc == target as nat && r.stack == m.stack
        }),
{
    let b = execute_spec(m, Instruction::Bir { target })->Ok_0;
    assert(b.stack.drop_last() =~= m.stack);
}

/// SPG makes the value of its register the active page, and changes no memory.
pub proof fn select_page(m: MachineView)
    requires
        valid(m),
        !halted_spec(m),
        fetched(m).opcode == 15,
    ensures
        (step_spec(m) is Ok),
        step_spec(m)->Ok_0.mem.active == reg(m, fetched(m).r1),
        step_spec(m)->Ok_0.mem.cells == m.mem.cells,
{
}

/// A store changes one byte of the active page and no byte of any other page.
pub proof fn store_stays_on_active_page(m: MachineView, ra: u8, rs: u8, page: u8, offset: u8)
    requires
        valid(m),
        ra < 16,
        rs < 16,
        page != m.mem.active,
    ensures
        ({
            let n = execute_spec(m, Instruction::Str { ra, rs })->Ok_0;
            &&& n.mem.cells[cell_index(page, offset)] == m.mem.cells[cell_index(page, offset)]
            &&& n.mem.cells[cell_index(m.mem.active, reg(m, ra))] == reg(m, rs)
            &&& n.mem.active == m.mem.active
        }),
{
}

/// A load from the offset just stored to, on the same page, gives the stored
/// value back.
pub proof fn load_after_store_same_page(m: MachineView, ra: u8, rs: u8, rd: u8)
    requires
        valid(m),
        ra < 16,
        rs < 16,
        0 < rd < 16,
    ensures
        ({
            let n = execute_spec(m, Instruction::Str { ra, rs })->Ok_0;
            let l = execute_spec(n, Instruction::Ldm { rd, ra })->Ok_0;
            reg(l, rd) == reg(m, rs)
        }),
{
}

/// With a switch to another page between a store and a load at the same
/// offset, the load sees that page's byte as it was before the store.
pub proof fn load_after_store_other_page(m: MachineView, ra: u8, rs: u8, rp: u8, rd: u8)
    requires
        valid(m),
        ra < 16,
        rs < 16,
        rp < 16,
        0 < rd < 16,
        reg(m, rp) != m.mem.active,
    ensures
        ({
            let n = execute_spec(m, Instruction::Str { ra, rs })->Ok_0;
            let s = execute_spec(n, Instruction::Spg { rs: rp })->Ok_0;
            let l = execute_spec(s, Instruction::Ldm { rd, ra })->Ok_0;
            reg(l, rd) == m.mem.cells[cell_index(reg(m, rp), reg(m, ra))]
        }),
{
}

/// A tick never writes the program store, and from a valid state it reaches a
/// valid state.
pub proof fn step_keeps_program(m: MachineView)
    requires
        valid(m),
        !halted_spec(m),
    ensures
        step_spec(m) is Ok ==> step_spec(m)->Ok_0.program == m.program,
        step_spec(m) is Ok ==> valid(step_spec(m)->Ok_0),
{
    crate::isa::lemma_decode_well_formed(m.program[m.pc as int]);
}

} // verus!
