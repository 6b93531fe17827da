use vm::Instr;
use vm::Process;

fn raw_program() -> [u8; 8] {
    [0, 0, 0, 0, 0, 0, 0, 1]
}

#[test]
fn process_test_test_next() {
    let program = raw_program();
    let mut process = Process::new(&program);
    assert_eq!(process.next_usize(), 1usize);
}

#[test]
fn process_test_test_push_pop() {
    let program = raw_program();
    let mut process = Process::new(&program);
    process.push_u64(1);
    assert_eq!(process.pop_u64(), 1);
}

#[test]
fn push_pop_roundtrip_all_widths() {
    let program: [u8; 0] = [];
    let mut p = Process::new(&program);
    p.push_u8(0xAB);
    assert_eq!(p.pop_u8(), 0xAB);
    assert_eq!(p.stack.len(), 0);
    p.push_u16(0xABCD);
    assert_eq!(p.pop_u16(), 0xABCD);
    assert_eq!(p.stack.len(), 0);
    p.push_u32(0xDEAD_BEEF);
    assert_eq!(p.pop_u32(), 0xDEAD_BEEF);
    assert_eq!(p.stack.len(), 0);
    p.push_u64(0x0123_4567_89AB_CDEF);
    assert_eq!(p.pop_u64(), 0x0123_4567_89AB_CDEF);
    assert_eq!(p.stack.len(), 0);
}

#[test]
fn copy_pops_same_value_twice() {
    let program: [u8; 0] = [];
    let mut p = Process::new(&program);
    p.push_u8(9);
    p.copy_u8();
    assert_eq!(p.pop_u8(), 9);
    assert_eq!(p.pop_u8(), 9);
    let mut p = Process::new(&program);
    p.push_u16(0x1234);
    p.copy_u16();
    assert_eq!(p.pop_u16(), 0x1234);
    assert_eq!(p.pop_u16(), 0x1234);
    let mut p = Process::new(&program);
    p.push_u32(0x89AB_CDEF);
    p.copy_u32();
    assert_eq!(p.pop_u32(), 0x89AB_CDEF);
    assert_eq!(p.pop_u32(), 0x89AB_CDEF);
    let mut p = Process::new(&program);
    p.push_u64(0xFFEE_DDCC_BBAA_0099);
    p.copy_u64();
    assert_eq!(p.pop_u64(), 0xFFEE_DDCC_BBAA_0099);
    assert_eq!(p.pop_u64(), 0xFFEE_DDCC_BBAA_0099);
}

#[test]
fn add_u8_wraps_around() {
    let program: [u8; 0] = [];
    let mut p = Process::new(&program);
    p.push_u8(255);
    p.push_u8(1);
    p.add_u8();
    assert_eq!(p.pop_u8(), 0);
}

#[test]
fn wrapping_other_widths() {
    let program: [u8; 0] = [];
    let mut p = Process::new(&program);
    p.push_u16(0xFFFF);
    p.push_u16(1);
    p.add_u16();
    assert_eq!(p.pop_u16(), 0);
    p.push_u32(0);
    p.push_u32(1);
    p.sub_u32();
    assert_eq!(p.pop_u32(), 0xFFFF_FFFF);
    p.push_u64(0x8000_0000_0000_0000);
    p.push_u64(2);
    p.mul_u64();
    assert_eq!(p.pop_u64(), 0);
}

#[test]
fn to_u16_u32_u64_assemble_big_endian() {
    assert_eq!(Process::to_u16(0x12, 0x34), 0x1234);
    assert_eq!(Process::to_u32(0x12, 0x34, 0x56, 0x78), 0x1234_5678);
    assert_eq!(
        Process::to_u64(0x01, 0x23, 0x45, 0x67, 0x89, 0xAB, 0xCD, 0xEF),
        0x0123_4567_89AB_CDEF
    );
}

#[test]
fn signed_division_truncates_toward_zero() {
    let program: [u8; 0] = [];
    let mut p = Process::new(&program);
    p.push_u8((-7i8) as u8);
    p.push_u8(2);
    p.div_i8();
    assert_eq!(p.pop_u8() as i8, -3);
    p.push_u8((-7i8) as u8);
    p.push_u8(2);
    p.rem_i8();
    assert_eq!(p.pop_u8() as i8, -1);
    p.push_u16(7);
    p.push_u16((-2i16) as u16);
    p.div_i16();
    assert_eq!(p.pop_u16() as i16, -3);
}

#[test]
fn signed_division_wraps_on_min_by_minus_one() {
    let program: [u8; 0] = [];
    let mut p = Process::new(&program);
    p.push_u8(i8::MIN as u8);
    p.push_u8((-1i8) as u8);
    p.div_i8();
    assert_eq!(p.pop_u8() as i8, i8::MIN);
    p.push_u8(i8::MIN as u8);
    p.push_u8((-1i8) as u8);
    p.rem_i8();
    assert_eq!(p.pop_u8(), 0);
}

#[test]
fn shifts_take_amount_modulo_width() {
    let program: [u8; 0] = [];
    let mut p = Process::new(&program);
    p.push_u8(1);
    p.push_u8(9);
    p.shl_u8();
    assert_eq!(p.pop_u8(), 2);
    p.push_u8(0x80);
    p.push_u8(1);
    p.shr_u8();
    assert_eq!(p.pop_u8(), 0x40);
    p.push_u8(0x80);
    p.push_u8(1);
    p.shr_i8();
    assert_eq!(p.pop_u8(), 0xC0);
}

#[test]
fn not_and_neg() {
    let program: [u8; 0] = [];
    let mut p = Process::new(&program);
    p.push_u8(0);
    p.not_u8();
    assert_eq!(p.pop_u8(), 255);
    p.push_u8(1);
    p.neg_u8();
    assert_eq!(p.pop_u8(), 255);
    p.push_u16(0x00FF);
    p.not_u16();
    assert_eq!(p.pop_u16(), 0xFF00);
}

#[test]
fn comparisons_signed_and_unsigned_differ() {
    let program: [u8; 0] = [];
    let mut p = Process::new(&program);
    p.push_u8(0xFF);
    p.push_u8(0);
    p.lt_u8();
    assert_eq!(p.pop_u8(), 0);
    p.push_u8(0xFF);
    p.push_u8(0);
    p.lt_i8();
    assert_eq!(p.pop_u8(), 1);
    p.push_u32(5);
    p.push_u32(5);
    p.eq_u32();
    assert_eq!(p.pop_u8(), 1);
}

#[test]
fn bitwise_logic() {
    let program: [u8; 0] = [];
    let mut p = Process::new(&program);
    p.push_u8(0b1100);
    p.push_u8(0b1010);
    p.and_u8();
    assert_eq!(p.pop_u8(), 0b1000);
    p.push_u8(0b1100);
    p.push_u8(0b1010);
    p.or_u8();
    assert_eq!(p.pop_u8(), 0b1110);
    p.push_u8(0b1100);
    p.push_u8(0b1010);
    p.xor_u8();
    assert_eq!(p.pop_u8(), 0b0110);
}

#[test]
fn instr_from_byte_matches_discriminants() {
    assert_eq!(Instr::from_byte(0), Some(Instr::nop));
    assert_eq!(Instr::from_byte(Instr::halt as u8), Some(Instr::halt));
    assert_eq!(Instr::from_byte(Instr::call as u8), Some(Instr::call));
    assert_eq!(Instr::from_byte(Instr::type_int as u8), Some(Instr::type_int));
    assert_eq!(Instr::from_byte(Instr::size_64 as u8), Some(Instr::size_64));
    assert_eq!(Instr::from_byte(Instr::push_u8 as u8), Some(Instr::push_u8));
    assert_eq!(Instr::from_byte(Instr::neq_f64 as u8), Some(Instr::neq_f64));
    assert_eq!(Instr::from_byte(Instr::neq_f64 as u8 + 1), None);
    assert_eq!(Instr::from_byte(255), None);
}

#[test]
fn registers_coerce_between_banks() {
    let mut r = vm::Regs::new();
    r.set_u64(0, 0x1FF);
    assert_eq!(r.get_u8(0), 0xFF);
    assert_eq!(r.get_u64(0), 0xFF);
    r.set_u8(30, 7);
    assert_eq!(r.get_u64(30), 7);
    r.set_u16(8, 0xABCD);
    assert_eq!(r.get_u8(8), 0xCD);
    assert_eq!(r.get_u32(8), 0xABCD);
    r.set_u64(24, 0x1122_3344_5566_7788);
    assert_eq!(r.get_u16(24), 0x7788);
}
