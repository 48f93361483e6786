use vstd::prelude::*;

verus! {

/// The nine register-to-register operations of the opcode table.
#[derive(Clone, Copy, Debug, PartialEq, Eq, Structural)]
pub enum AluOp {
    Add,
    Sub,
    Div,
    And,
    Orr,
    Xor,
    Not,
    Lsh,
    Rsh,
}

/// The six relations the compare instruction can test.
#[derive(Clone, Copy, Debug, PartialEq, Eq, Structural)]
pub enum CmpMode {
    Eq,
    Gt,
    Lt,
    Ge,
    Le,
    Ne,
}

/// One decoded instruction. Register operands are indices below 16.
#[derive(Clone, Copy, Debug, PartialEq, Eq, Structural)]
pub enum Instruction {
    /// `rd := op(read(rs), read(rt))` (`rt` is ignored by `Not`).
    Alu { op: AluOp, rd: u8, rs: u8, rt: u8 },
    /// Pop the call stack into the program counter; nothing if it is empty.
    Ret,
    /// Conditional branch-and-link to a 12-bit absolute address.
    Bir { target: u16 },
    /// `rd := memory[active page][read(ra)]`.
    Ldm { rd: u8, ra: u8 },
    /// `memory[active page][read(ra)] := read(rs)`.
    Str { ra: u8, rs: u8 },
    /// `rd := imm`.
    Ldi { rd: u8, imm: u8 },
    /// `flag := mode(read(rs), read(rt))`.
    Cmp { mode: CmpMode, rs: u8, rt: u8 },
    /// `active page := read(rs)`.
    Spg { rs: u8 },
}

/// Why the machine stopped on an instruction.
#[derive(Clone, Copy, Debug, PartialEq, Eq, Structural)]
pub enum FaultKind {
    /// A compare instruction whose mode field is not one of 0 to 5.
    InvalidCompareMode(u8),
    /// A division whose divisor register reads 0.
    DivideByZero,
}

/// Every field of an instruction word, decoded whatever the opcode.
#[derive(Clone, Copy, Debug, PartialEq, Eq, Structural)]
pub struct Fields {
    pub opcode: u8,
    pub r1: u8,
    pub r2: u8,
    pub r3: u8,
    pub addr12: u16,
    pub imm8: u8,
}

pub open spec fn fields_spec(w: u16) -> Fields {
    Fields {
        opcode: (w / 4096) as u8,
        r1: ((w / 256) % 16) as u8,
        r2: ((w / 16) % 16) as u8,
        r3: (w % 16) as u8,
        addr12: w % 4096,
        imm8: (w % 256) as u8,
    }
}

/// Splits a word into bits 15..12, 11..8, 7..4, 3..0, 11..0 and 7..0.
pub fn decode_fields(w: u16) -> (f: Fields)
    ensures
        f == fields_spec(w),
        f.opcode < 16 && f.r1 < 16 && f.r2 < 16 && f.r3 < 16,
        f.addr12 < 4096,
{
    Fields {
        opcode: (w / 4096) as u8,
        r1: ((w / 256) % 16) as u8,
        r2: ((w / 16) % 16) as u8,
        r3: (w % 16) as u8,
        addr12: w % 4096,
        imm8: (w % 256) as u8,
    }
}

pub open spec fn cmp_mode_spec(mode: u8) -> Option<CmpMode> {
    if mode == 0 {
        Some(CmpMode::Eq)
    } else if mode == 1 {
        Some(CmpMode::Gt)
    } else if mode == 2 {
        Some(CmpMode::Lt)
    } else if mode == 3 {
        Some(CmpMode::Ge)
    } else if mode == 4 {
        Some(CmpMode::Le)
    } else if mode == 5 {
        Some(CmpMode::Ne)
    } else {
        None
    }
}

pub open spec fn alu_op_spec(opcode: u8) -> AluOp {
    if opcode == 0 {
        AluOp::Add
    } else if opcode == 1 {
        AluOp::Sub
    } else if opcode == 2 {
        AluOp::Div
    } else if opcode == 3 {
        AluOp::And
    } else if opcode == 4 {
        AluOp::Orr
    } else if opcode == 5 {
        AluOp::Xor
    } else if opcode == 6 {
        AluOp::Not
    } else if opcode == 7 {
        AluOp::Lsh
    } else {
        AluOp::Rsh
    }
}

/// The instruction a word encodes, or the decode fault it raises.
pub open spec fn decode_spec(w: u16) -> Result<Instruction, FaultKind> {
    let f = fields_spec(w);
    if f.opcode <= 8 {
        Ok(Instruction::Alu { op: alu_op_spec(f.opcode), rd: f.r1, rs: f.r2, rt: f.r3 })
    } else if f.opcode == 9 {
        Ok(Instruction::Ret)
    } else if f.opcode == 10 {
        Ok(Instruction::Bir { target: f.addr12 })
    } else if f.opcode == 11 {
        Ok(Instruction::Ldm { rd: f.r1, ra: f.r2 })
    } else if f.opcode == 12 {
        Ok(Instruction::Str { ra: f.r1, rs: f.r2 })
    } else if f.opcode == 13 {
        Ok(Instruction::Ldi { rd: f.r1, imm: f.imm8 })
    } else if f.opcode == 14 {
        match cmp_mode_spec(f.r1) {
            Some(mode) => Ok(Instruction::Cmp { mode, rs: f.r2, rt: f.r3 }),
            None => Err(FaultKind::InvalidCompareMode(f.r1)),
        }
    } else {
        Ok(Instruction::Spg { rs: f.r1 })
    }
}

/// Register operands below 16 and a branch target below 4096.
pub open spec fn well_formed(i: Instruction) -> bool {
    match i {
        Instruction::Alu { rd, rs, rt, .. } => rd < 16 && rs < 16 && rt < 16,
        Instruction::Ret => true,
        Instruction::Bir { target } => target < 4096,
        Instruction::Ldm { rd, ra } => rd < 16 && ra < 16,
        Instruction::Str { ra, rs } => ra < 16 && rs < 16,
        Instruction::Ldi { rd, .. } => rd < 16,
        Instruction::Cmp { rs, rt, .. } => rs < 16 && rt < 16,
        Instruction::Spg { rs } => rs < 16,
    }
}

/// Every instruction a word decodes to has register operands below 16 and a
/// target below 4096.
pub proof fn lemma_decode_well_formed(w: u16)
    ensures
        decode_spec(w) is Ok ==> well_formed(decode_spec(w)->Ok_0),
{
}

fn cmp_mode(mode: u8) -> (r: Option<CmpMode>)
    ensures
        r == cmp_mode_spec(mode),
{
    match mode {
        0 => Some(CmpMode::Eq),
        1 => Some(CmpMode::Gt),
        2 => Some(CmpMode::Lt),
        3 => Some(CmpMode::Ge),
        4 => Some(CmpMode::Le),
        5 => Some(CmpMode::Ne),
        _ => None,
    }
}

/// Decodes one instruction word.
pub fn decode(w: u16) -> (r: Result<Instruction, FaultKind>)
    ensures
        r == decode_spec(w),
        r is Ok ==> well_formed(r->Ok_0),
{
    let f = decode_fields(w);
    match f.opcode {
        0 => Ok(Instruction::Alu { op: AluOp::Add, rd: f.r1, rs: f.r2, rt: f.r3 }),
        1 => Ok(Instruction::Alu { op: AluOp::Sub, rd: f.r1, rs: f.r2, rt: f.r3 }),
        2 => Ok(Instruction::Alu { op: AluOp::Div, rd: f.r1, rs: f.r2, rt: f.r3 }),
        3 => Ok(Instruction::Alu { op: AluOp::And, rd: f.r1, rs: f.r2, rt: f.r3 }),
        4 => Ok(Instruction::Alu { op: AluOp::Orr, rd: f.r1, rs: f.r2, rt: f.r3 }),
        5 => Ok(Instruction::Alu { op: AluOp::Xor, rd: f.r1, rs: f.r2, rt: f.r3 }),
        6 => Ok(Instruction::Alu { op: AluOp::Not, rd: f.r1, rs: f.r2, rt: f.r3 }),
        7 => Ok(Instruction::Alu { op: AluOp::Lsh, rd: f.r1, rs: f.r2, rt: f.r3 }),
        8 => Ok(Instruction::Alu { op: AluOp::Rsh, rd: f.r1, rs: f.r2, rt: f.r3 }),
        9 => Ok(Instruction::Ret),
        10 => Ok(Instruction::Bir { target: f.addr12 }),
        11 => Ok(Instruction::Ldm { rd: f.r1, ra: f.r2 }),
        12 => Ok(Instruction::Str { ra: f.r1, rs: f.r2 }),
        13 => Ok(Instruction::Ldi { rd: f.r1, imm: f.imm8 }),
        14 => match cmp_mode(f.r1) {
            Some(mode) => Ok(Instruction::Cmp { mode, rs: f.r2, rt: f.r3 }),
            None => Err(FaultKind::InvalidCompareMode(f.r1)),
        },
        _ => Ok(Instruction::Spg { rs: f.r1 }),
    }
}

/// Left shift of a byte; shifting by 8 or more gives 0.
pub open spec fn shl_spec(a: u8, n: u8) -> u8 {
    if n >= 8 {
        0
    } else {
        a << n
    }
}

/// Right shift of a byte; shifting by 8 or more gives 0.
pub open spec fn shr_spec(a: u8, n: u8) -> u8 {
    if n >= 8 {
        0
    } else {
        a >> n
    }
}

/// What an operation yields on two operand values; `None` for a division by 0.
pub open spec fn alu_spec(op: AluOp, a: u8, b: u8) -> Option<u8> {
    match op {
        AluOp::Add => Some(((a + b) % 256) as u8),
        AluOp::Sub => Some(((a - b) % 256) as u8),
        AluOp::Div => if b == 0 {
            None
        } else {
            Some((a / b) as u8)
        },
        AluOp::And => Some(a & b),
        AluOp::Orr => Some(a | b),
        AluOp::Xor => Some(a ^ b),
        AluOp::Not => Some(!a),
        AluOp::Lsh => Some(shl_spec(a, b)),
        AluOp::Rsh => Some(shr_spec(a, b)),
    }
}

/// Applies an operation to two operand values.
pub fn alu(op: AluOp, a: u8, b: u8) -> (r: Option<u8>)
    ensures
        r == alu_spec(op, a, b),
{
    match op {
        AluOp::Add => Some(a.wrapping_add(b)),
        AluOp::Sub => Some(a.wrapping_sub(b)),
        AluOp::Div => if b == 0 {
            None
        } else {
            Some(a / b)
        },
        AluOp::And => Some(a & b),
        AluOp::Orr => Some(a | b),
        AluOp::Xor => Some(a ^ b),
        AluOp::Not => Some(!a),
        AluOp::Lsh => if b >= 8 {
            Some(0)
        } else {
            Some(a << b)
        },
        AluOp::Rsh => if b >= 8 {
            Some(0)
        } else {
            Some(a >> b)
        },
    }
}

pub open spec fn compare_spec(mode: CmpMode, a: u8, b: u8) -> bool {
    match mode {
        CmpMode::Eq => a == b,
        CmpMode::Gt => a > b,
        CmpMode::Lt => a < b,
        CmpMode::Ge => a >= b,
        CmpMode::Le => a <= b,
        CmpMode::Ne => a != b,
    }
}

/// Tests the relation `mode` between two operand values.
pub fn compare(mode: CmpMode, a: u8, b: u8) -> (r: bool)
    ensures
        r == compare_spec(mode, a, b),
{
    match mode {
        CmpMode::Eq => a == b,
        CmpMode::Gt => a > b,
        CmpMode::Lt => a < b,
        CmpMode::Ge => a >= b,
        CmpMode::Le => a <= b,
        CmpMode::Ne => a != b,
    }
}

} // verus!
