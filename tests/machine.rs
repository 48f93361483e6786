use riscz::isa::{alu, compare, decode, decode_fields, AluOp, CmpMode, FaultKind, Instruction};
use riscz::loader::{words_from_bytes, LoadError};
use riscz::machine::{Fault, Machine, PROGRAM_CAPACITY};
use riscz::regs::RegisterFile;
use riscz::render::pixel_channels;

fn image(words: &[u16]) -> Vec<u8> {
    let mut bytes = Vec::new();
    for w in words {
        bytes.push((w >> 8) as u8);
        bytes.push((w & 0xFF) as u8);
    }
    bytes
}

fn machine_with(words: &[u16]) -> Machine {
    let mut m = Machine::new();
    m.load_program(&image(words)).unwrap();
    m
}

fn ticks(m: &mut Machine, n: usize) {
    for _ in 0..n {
        m.tick().unwrap();
    }
}

#[test]
fn loader_pairs_bytes_big_endian() {
    let ws = words_from_bytes(&vec![0x12, 0x34, 0x56, 0x78]).unwrap();
    assert_eq!(ws, vec![0x1234, 0x5678]);
    let mut m = Machine::new();
    m.load_program(&vec![0x12, 0x34, 0x56, 0x78]).unwrap();
    assert_eq!(m.program_word(0), 0x1234);
    assert_eq!(m.program_word(1), 0x5678);
    assert_eq!(m.program_word(2), 0);
}

#[test]
fn loader_refuses_odd_length() {
    assert_eq!(words_from_bytes(&vec![1, 2, 3]), Err(LoadError::OddLength));
    let mut m = Machine::new();
    assert_eq!(m.load_program(&vec![0xD1]), Err(LoadError::OddLength));
    assert_eq!(m.program_word(0), 0);
}

#[test]
fn loader_accepts_full_store_and_refuses_more() {
    let full = vec![0xABu8; 2 * PROGRAM_CAPACITY];
    let ws = words_from_bytes(&full).unwrap();
    assert_eq!(ws.len(), PROGRAM_CAPACITY);
    assert_eq!(ws[PROGRAM_CAPACITY - 1], 0xABAB);
    let over = vec![0u8; 2 * PROGRAM_CAPACITY + 2];
    assert_eq!(words_from_bytes(&over), Err(LoadError::TooLarge));
    assert_eq!(words_from_bytes(&vec![]), Ok(vec![]));
}

#[test]
fn decode_splits_every_field() {
    let f = decode_fields(0xABCD);
    assert_eq!((f.opcode, f.r1, f.r2, f.r3), (0xA, 0xB, 0xC, 0xD));
    assert_eq!(f.addr12, 0xBCD);
    assert_eq!(f.imm8, 0xCD);
    assert_eq!(decode(0x0312), Ok(Instruction::Alu { op: AluOp::Add, rd: 3, rs: 1, rt: 2 }));
    assert_eq!(decode(0x6450), Ok(Instruction::Alu { op: AluOp::Not, rd: 4, rs: 5, rt: 0 }));
    assert_eq!(decode(0x9000), Ok(Instruction::Ret));
    assert_eq!(decode(0xA123), Ok(Instruction::Bir { target: 0x123 }));
    assert_eq!(decode(0xB120), Ok(Instruction::Ldm { rd: 1, ra: 2 }));
    assert_eq!(decode(0xC120), Ok(Instruction::Str { ra: 1, rs: 2 }));
    assert_eq!(decode(0xD1FF), Ok(Instruction::Ldi { rd: 1, imm: 0xFF }));
    assert_eq!(decode(0xE512), Ok(Instruction::Cmp { mode: CmpMode::Ne, rs: 1, rt: 2 }));
    assert_eq!(decode(0xF300), Ok(Instruction::Spg { rs: 3 }));
    assert_eq!(decode(0xE612), Err(FaultKind::InvalidCompareMode(6)));
    assert_eq!(decode(0xEF12), Err(FaultKind::InvalidCompareMode(15)));
}

#[test]
fn add_and_sub_wrap_around() {
    assert_eq!(alu(AluOp::Add, 200, 100), Some(44));
    assert_eq!(alu(AluOp::Add, 255, 1), Some(0));
    assert_eq!(alu(AluOp::Sub, 3, 5), Some(254));
    assert_eq!(alu(AluOp::Sub, 0, 255), Some(1));
    // LDI r1,200; LDI r2,100; ADD r3,r1,r2; SUB r4,r2,r1
    let mut m = machine_with(&[0xD1C8, 0xD264, 0x0312, 0x1421]);
    ticks(&mut m, 4);
    assert_eq!(m.read_reg(3), 44);
    assert_eq!(m.read_reg(4), 156);
}

#[test]
fn logic_and_shift_operations() {
    assert_eq!(alu(AluOp::And, 0b1100, 0b1010), Some(0b1000));
    assert_eq!(alu(AluOp::Orr, 0b1100, 0b1010), Some(0b1110));
    assert_eq!(alu(AluOp::Xor, 0b1100, 0b1010), Some(0b0110));
    assert_eq!(alu(AluOp::Not, 0x0F, 99), Some(0xF0));
    assert_eq!(alu(AluOp::Lsh, 0x81, 1), Some(0x02));
    assert_eq!(alu(AluOp::Rsh, 0x81, 7), Some(0x01));
}

#[test]
fn shifts_by_eight_or_more_give_zero() {
    assert_eq!(alu(AluOp::Lsh, 0xFF, 8), Some(0));
    assert_eq!(alu(AluOp::Rsh, 0xFF, 8), Some(0));
    assert_eq!(alu(AluOp::Lsh, 1, 200), Some(0));
    assert_eq!(alu(AluOp::Rsh, 0x80, 255), Some(0));
    assert_eq!(alu(AluOp::Lsh, 1, 7), Some(0x80));
}

#[test]
fn register_zero_reads_zero() {
    let mut r = RegisterFile::new();
    r.write(0, 77);
    assert_eq!(r.read(0), 0);
    r.write(5, 9);
    assert_eq!(r.read(5), 9);
    // LDI r0,42; ADD r1,r0,r0
    let mut m = machine_with(&[0xD02A, 0x0100]);
    m.tick().unwrap();
    assert_eq!(m.read_reg(0), 0);
    m.tick().unwrap();
    assert_eq!(m.read_reg(1), 0);
}

#[test]
fn division_truncates_and_faults_on_zero() {
    assert_eq!(alu(AluOp::Div, 7, 2), Some(3));
    assert_eq!(alu(AluOp::Div, 255, 16), Some(15));
    assert_eq!(alu(AluOp::Div, 1, 0), None);
    // LDI r1,17; LDI r2,5; DIV r3,r1,r2; DIV r4,r1,r5
    let mut m = machine_with(&[0xD111, 0xD205, 0x2312, 0x2415]);
    ticks(&mut m, 3);
    assert_eq!(m.read_reg(3), 3);
    assert_eq!(m.tick(), Err(Fault { kind: FaultKind::DivideByZero, pc: 3 }));
    assert_eq!(m.pc(), 3);
    assert_eq!(m.read_reg(4), 0);
}

#[test]
fn compare_modes_set_flag() {
    assert!(compare(CmpMode::Eq, 4, 4));
    assert!(!compare(CmpMode::Eq, 4, 5));
    assert!(compare(CmpMode::Gt, 5, 4));
    assert!(!compare(CmpMode::Gt, 4, 4));
    assert!(compare(CmpMode::Lt, 3, 4));
    assert!(compare(CmpMode::Ge, 4, 4));
    assert!(!compare(CmpMode::Ge, 3, 4));
    assert!(compare(CmpMode::Le, 4, 4));
    assert!(!compare(CmpMode::Le, 5, 4));
    assert!(compare(CmpMode::Ne, 1, 2));
    // LDI r1,3; LDI r2,9; CMP lt r1,r2; CMP gt r1,r2
    let mut m = machine_with(&[0xD103, 0xD209, 0xE212, 0xE112]);
    ticks(&mut m, 3);
    assert!(m.flag());
    m.tick().unwrap();
    assert!(!m.flag());
}

#[test]
fn compare_with_bad_mode_faults() {
    // LDI r1,1; CMP mode 7
    let mut m = machine_with(&[0xD101, 0xE712]);
    m.tick().unwrap();
    assert_eq!(m.tick(), Err(Fault { kind: FaultKind::InvalidCompareMode(7), pc: 1 }));
    assert_eq!(m.pc(), 1);
}

#[test]
fn untaken_branch_spins_on_itself() {
    // BIR 0x020 with the flag false
    let mut m = machine_with(&[0xA020]);
    ticks(&mut m, 5);
    assert_eq!(m.pc(), 0);
    assert!(m.call_stack().is_empty());
}

#[test]
fn taken_branch_pushes_and_jumps_to_target() {
    // CMP eq r0,r0 (true); BIR 0x010; ... at 0x010: LDI r1,7
    let mut words = vec![0u16; 0x11];
    words[0] = 0xE000;
    words[1] = 0xA010;
    words[0x10] = 0xD107;
    let mut m = machine_with(&words);
    ticks(&mut m, 2);
    assert_eq!(m.pc(), 0x10);
    assert_eq!(m.call_stack(), &vec![0x10u16]);
    m.tick().unwrap();
    assert_eq!(m.read_reg(1), 7);
}

#[test]
fn branch_to_address_zero() {
    // CMP eq r0,r0; BIR 0x000
    let mut m = machine_with(&[0xE000, 0xA000]);
    ticks(&mut m, 2);
    assert_eq!(m.pc(), 0);
    assert_eq!(m.call_stack(), &vec![0u16]);
}

#[test]
fn return_pops_latest_target_or_does_nothing() {
    // CMP eq; BIR 0x004; (2,3 unused); at 4: BIR 0x008; at 8: RET
    let mut words = vec![0u16; 9];
    words[0] = 0xE000;
    words[1] = 0xA004;
    words[4] = 0xA008;
    words[8] = 0x9000;
    let mut m = machine_with(&words);
    ticks(&mut m, 3);
    assert_eq!(m.pc(), 8);
    assert_eq!(m.call_stack(), &vec![4u16, 8u16]);
    m.tick().unwrap();
    assert_eq!(m.pc(), 8);
    assert_eq!(m.call_stack(), &vec![4u16]);
    m.tick().unwrap();
    assert_eq!(m.pc(), 4);
    assert!(m.call_stack().is_empty());

    let mut e = machine_with(&[0x9000, 0x9000]);
    e.tick().unwrap();
    assert_eq!(e.pc(), 1);
    assert!(e.call_stack().is_empty());
}

#[test]
fn page_select_routes_loads_and_stores() {
    // LDI r1,5; SPG r1; LDI r2,9; LDI r3,77; STR [r2],r3; LDM r4,[r2]
    let mut m = machine_with(&[0xD105, 0xF100, 0xD209, 0xD34D, 0xC230, 0xB420]);
    ticks(&mut m, 6);
    assert_eq!(m.active_page(), 5);
    assert_eq!(m.read_reg(4), 77);
    assert_eq!(m.memory_byte(5, 9), 77);
    assert_eq!(m.memory_byte(0, 9), 0);
    assert_eq!(m.memory_byte(6, 9), 0);
}

#[test]
fn page_select_through_register_zero_is_page_zero() {
    // LDI r1,3; SPG r1; SPG r0
    let mut m = machine_with(&[0xD103, 0xF100, 0xF000]);
    ticks(&mut m, 2);
    assert_eq!(m.active_page(), 3);
    m.tick().unwrap();
    assert_eq!(m.active_page(), 0);
}

#[test]
fn three_instruction_program_end_to_end() {
    // LDI r1,5; LDI r2,3; ADD r3,r1,r2
    let mut m = machine_with(&[0xD105, 0xD203, 0x0312]);
    ticks(&mut m, 3);
    assert_eq!(m.read_reg(3), 8);
    assert_eq!(m.pc(), 3);
}

#[test]
fn store_then_load_same_page_and_other_page() {
    // LDI r1,10; LDI r2,123; STR [r1],r2; LDM r3,[r1]
    let mut m = machine_with(&[0xD10A, 0xD27B, 0xC120, 0xB310]);
    ticks(&mut m, 4);
    assert_eq!(m.read_reg(3), 123);
    // LDI r1,10; LDI r2,123; LDI r5,1; STR [r1],r2; SPG r5; LDM r3,[r1]
    let mut o = machine_with(&[0xD10A, 0xD27B, 0xD501, 0xC120, 0xF500, 0xB310]);
    ticks(&mut o, 6);
    assert_eq!(o.read_reg(3), 0);
    assert_eq!(o.memory_byte(0, 10), 123);
}

#[test]
fn run_stops_at_end_of_store() {
    let mut m = machine_with(&[0xD105, 0xD203, 0x0312]);
    assert_eq!(m.run(2), Ok(()));
    assert_eq!(m.pc(), 2);
    assert_eq!(m.run(10_000), Ok(()));
    assert!(m.halted());
    assert_eq!(m.pc() as usize, PROGRAM_CAPACITY);
    assert_eq!(m.read_reg(3), 8);
}

#[test]
fn run_reports_fault() {
    // LDI r1,1; DIV r2,r1,r0
    let mut m = machine_with(&[0xD101, 0x2210]);
    assert_eq!(m.run(100), Err(Fault { kind: FaultKind::DivideByZero, pc: 1 }));
}

#[test]
fn frame_is_last_page() {
    // LDI r1,255; SPG r1; LDI r2,17; LDI r3,0xE3; STR [r2],r3
    let mut m = machine_with(&[0xD1FF, 0xF100, 0xD211, 0xD3E3, 0xC230]);
    ticks(&mut m, 5);
    let f = m.frame();
    assert_eq!(f.len(), 256);
    assert_eq!(f[17], 0xE3);
    assert_eq!(f[16], 0);
}

#[test]
fn pixel_channels_split_bits() {
    assert_eq!(pixel_channels(0xFF), (7, 7, 3));
    assert_eq!(pixel_channels(0b101_011_10), (5, 3, 2));
    assert_eq!(pixel_channels(0), (0, 0, 0));
}

#[test]
fn new_machine_is_zeroed() {
    let m = Machine::new();
    assert_eq!(m.pc(), 0);
    assert!(!m.flag());
    assert_eq!(m.active_page(), 0);
    assert!(m.call_stack().is_empty());
    assert!(!m.halted());
    for i in 0..16u8 {
        assert_eq!(m.read_reg(i), 0);
    }
}
