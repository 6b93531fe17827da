//! The opcode byte space and its validated decoder.
//!
//! Each instruction is one opcode byte followed by the operand encodings the
//! opcode requires.  The same byte space also carries the operand tags
//! (`type_int`, `type_ptr`, `type_ptr_off`, `type_idr_ptr`,
//! `type_idr_ptr_off`, `type_reg`) and the size tags (`size_8` .. `size_64`)
//! that self-describing operands are built from.  A raw byte becomes an
//! [`Instr`] only through [`Instr::from_byte`], which rejects every byte
//! outside the defined range instead of reinterpreting it.

use vstd::prelude::*;

verus! {

/// One-byte operation selector, operand tag, or size tag.
///
/// The discriminants are assigned in declaration order, starting at zero, so
/// `Instr::nop as u8 == 0` and each later variant is one higher.
/// [`Instr::from_byte`] is the inverse of that numbering.
#[allow(non_camel_case_types)]
#[derive(Debug, Clone, Copy, Eq, PartialEq, Structural)]
pub enum Instr {
    nop,
    halt,
    wait,
    spawn,
    if_jmp,
    jmp,
    call,
    ret,
    type_ptr,
    type_int,
    type_ptr_off,
    type_idr_ptr,
    type_idr_ptr_off,
    type_reg,
    size_8,
    size_16,
    size_32,
    size_64,
    push_u8,
    push_u16,
    push_u32,
    push_u64,
    push_i8,
    push_i16,
    push_i32,
    push_i64,
    push_f32,
    push_f64,
    pop_u8,
    pop_u16,
    pop_u32,
    pop_u64,
    pop_i8,
    pop_i16,
    pop_i32,
    pop_i64,
    pop_f32,
    pop_f64,
    copy_u8,
    copy_u16,
    copy_u32,
    copy_u64,
    copy_i8,
    copy_i16,
    copy_i32,
    copy_i64,
    copy_f32,
    copy_f64,
    load_u8,
    load_u16,
    load_u32,
    load_u64,
    load_i8,
    load_i16,
    load_i32,
    load_i64,
    load_f32,
    load_f64,
    save_u8,
    save_u16,
    save_u32,
    save_u64,
    save_i8,
    save_i16,
    save_i32,
    save_i64,
    save_f32,
    save_f64,
    add_u8,
    add_u16,
    add_u32,
    add_u64,
    add_i8,
    add_i16,
    add_i32,
    add_i64,
    add_f32,
    add_f64,
    sub_u8,
    sub_u16,
    sub_u32,
    sub_u64,
    sub_i8,
    sub_i16,
    sub_i32,
    sub_i64,
    sub_f32,
    sub_f64,
    mul_u8,
    mul_u16,
    mul_u32,
    mul_u64,
    mul_i8,
    mul_i16,
    mul_i32,
    mul_i64,
    mul_f32,
    mul_f64,
    div_u8,
    div_u16,
    div_u32,
    div_u64,
    div_i8,
    div_i16,
    div_i32,
    div_i64,
    div_f32,
    div_f64,
    rem_u8,
    rem_u16,
    rem_u32,
    rem_u64,
    rem_i8,
    rem_i16,
    rem_i32,
    rem_i64,
    rem_f32,
    rem_f64,
    and_u8,
    and_u16,
    and_u32,
    and_u64,
    and_i8,
    and_i16,
    and_i32,
    and_i64,
    or_u8,
    or_u16,
    or_u32,
    or_u64,
    or_i8,
    or_i16,
    or_i32,
    or_i64,
    xor_u8,
    xor_u16,
    xor_u32,
    xor_u64,
    xor_i8,
    xor_i16,
    xor_i32,
    xor_i64,
    shl_u8,
    shl_u16,
    shl_u32,
    shl_u64,
    shl_i8,
    shl_i16,
    shl_i32,
    shl_i64,
    shr_u8,
    shr_u16,
    shr_u32,
    shr_u64,
    shr_i8,
    shr_i16,
    shr_i32,
    shr_i64,
    not_u8,
    not_u16,
    not_u32,
    not_u64,
    not_i8,
    not_i16,
    not_i32,
    not_i64,
    neg_u8,
    neg_u16,
    neg_u32,
    neg_u64,
    neg_i8,
    neg_i16,
    neg_i32,
    neg_i64,
    neg_f32,
    neg_f64,
    lt_u8,
    lt_u16,
    lt_u32,
    lt_u64,
    lt_i8,
    lt_i16,
    lt_i32,
    lt_i64,
    lt_f32,
    lt_f64,
    lte_u8,
    lte_u16,
    lte_u32,
    lte_u64,
    lte_i8,
    lte_i16,
    lte_i32,
    lte_i64,
    lte_f32,
    lte_f64,
    gt_u8,
    gt_u16,
    gt_u32,
    gt_u64,
    gt_i8,
    gt_i16,
    gt_i32,
    gt_i64,
    gt_f32,
    gt_f64,
    gte_u8,
    gte_u16,
    gte_u32,
    gte_u64,
    gte_i8,
    gte_i16,
    gte_i32,
    gte_i64,
    gte_f32,
    gte_f64,
    eq_u8,
    eq_u16,
    eq_u32,
    eq_u64,
    eq_i8,
    eq_i16,
    eq_i32,
    eq_i64,
    eq_f32,
    eq_f64,
    neq_u8,
    neq_u16,
    neq_u32,
    neq_u64,
    neq_i8,
    neq_i16,
    neq_i32,
    neq_i64,
    neq_f32,
    neq_f64,
}

/// The instruction a byte denotes, or `None` for a byte outside the defined
/// opcode range.
pub open spec fn decode_byte(b: u8) -> Option<Instr> {
    if b == 0 {
        Some(Instr::nop)
    } else if b == 1 {
        Some(Instr::halt)
    } else if b == 2 {
        Some(Instr::wait)
    } else if b == 3 {
        Some(Instr::spawn)
    } else if b == 4 {
        Some(Instr::if_jmp)
    } else if b == 5 {
        Some(Instr::jmp)
    } else if b == 6 {
        Some(Instr::call)
    } else if b == 7 {
        Some(Instr::ret)
    } else if b == 8 {
        Some(Instr::type_ptr)
    } else if b == 9 {
        Some(Instr::type_int)
    } else if b == 10 {
        Some(Instr::type_ptr_off)
    } else if b == 11 {
        Some(Instr::type_idr_ptr)
    } else if b == 12 {
        Some(Instr::type_idr_ptr_off)
    } else if b == 13 {
        Some(Instr::type_reg)
    } else if b == 14 {
        Some(Instr::size_8)
    } else if b == 15 {
        Some(Instr::size_16)
    } else if b == 16 {
        Some(Instr::size_32)
    } else if b == 17 {
        Some(Instr::size_64)
    } else if b == 18 {
        Some(Instr::push_u8)
    } else if b == 19 {
        Some(Instr::push_u16)
    } else if b == 20 {
        Some(Instr::push_u32)
    } else if b == 21 {
        Some(Instr::push_u64)
    } else if b == 22 {
        Some(Instr::push_i8)
    } else if b == 23 {
        Some(Instr::push_i16)
    } else if b == 24 {
        Some(Instr::push_i32)
    } else if b == 25 {
        Some(Instr::push_i64)
    } else if b == 26 {
        Some(Instr::push_f32)
    } else if b == 27 {
        Some(Instr::push_f64)
    } else if b == 28 {
        Some(Instr::pop_u8)
    } else if b == 29 {
        Some(Instr::pop_u16)
    } else if b == 30 {
        Some(Instr::pop_u32)
    } else if b == 31 {
        Some(Instr::pop_u64)
    } else if b == 32 {
        Some(Instr::pop_i8)
    } else if b == 33 {
        Some(Instr::pop_i16)
    } else if b == 34 {
        Some(Instr::pop_i32)
    } else if b == 35 {
        Some(Instr::pop_i64)
    } else if b == 36 {
        Some(Instr::pop_f32)
    } else if b == 37 {
        Some(Instr::pop_f64)
    } else if b == 38 {
        Some(Instr::copy_u8)
    } else if b == 39 {
        Some(Instr::copy_u16)
    } else if b == 40 {
        Some(Instr::copy_u32)
    } else if b == 41 {
        Some(Instr::copy_u64)
    } else if b == 42 {
        Some(Instr::copy_i8)
    } else if b == 43 {
        Some(Instr::copy_i16)
    } else if b == 44 {
        Some(Instr::copy_i32)
    } else if b == 45 {
        Some(Instr::copy_i64)
    } else if b == 46 {
        Some(Instr::copy_f32)
    } else if b == 47 {
        Some(Instr::copy_f64)
    } else if b == 48 {
        Some(Instr::load_u8)
    } else if b == 49 {
        Some(Instr::load_u16)
    } else if b == 50 {
        Some(Instr::load_u32)
    } else if b == 51 {
        Some(Instr::load_u64)
    } else if b == 52 {
        Some(Instr::load_i8)
    } else if b == 53 {
        Some(Instr::load_i16)
    } else if b == 54 {
        Some(Instr::load_i32)
    } else if b == 55 {
        Some(Instr::load_i64)
    } else if b == 56 {
        Some(Instr::load_f32)
    } else if b == 57 {
        Some(Instr::load_f64)
    } else if b == 58 {
        Some(Instr::save_u8)
    } else if b == 59 {
        Some(Instr::save_u16)
    } else if b == 60 {
        Some(Instr::save_u32)
    } else if b == 61 {
        Some(Instr::save_u64)
    } else if b == 62 {
        Some(Instr::save_i8)
    } else if b == 63 {
        Some(Instr::save_i16)
    } else if b == 64 {
        Some(Instr::save_i32)
    } else if b == 65 {
        Some(Instr::save_i64)
    } else if b == 66 {
        Some(Instr::save_f32)
    } else if b == 67 {
        Some(Instr::save_f64)
    } else if b == 68 {
        Some(Instr::add_u8)
    } else if b == 69 {
        Some(Instr::add_u16)
    } else if b == 70 {
        Some(Instr::add_u32)
    } else if b == 71 {
        Some(Instr::add_u64)
    } else if b == 72 {
        Some(Instr::add_i8)
    } else if b == 73 {
        Some(Instr::add_i16)
    } else if b == 74 {
        Some(Instr::add_i32)
    } else if b == 75 {
        Some(Instr::add_i64)
    } else if b == 76 {
        Some(Instr::add_f32)
    } else if b == 77 {
        Some(Instr::add_f64)
    } else if b == 78 {
        Some(Instr::sub_u8)
    } else if b == 79 {
        Some(Instr::sub_u16)
    } else if b == 80 {
        Some(Instr::sub_u32)
    } else if b == 81 {
        Some(Instr::sub_u64)
    } else if b == 82 {
        Some(Instr::sub_i8)
    } else if b == 83 {
        Some(Instr::sub_i16)
    } else if b == 84 {
        Some(Instr::sub_i32)
    } else if b == 85 {
        Some(Instr::sub_i64)
    } else if b == 86 {
        Some(Instr::sub_f32)
    } else if b == 87 {
        Some(Instr::sub_f64)
    } else if b == 88 {
        Some(Instr::mul_u8)
    } else if b == 89 {
        Some(Instr::mul_u16)
    } else if b == 90 {
        Some(Instr::mul_u32)
    } else if b == 91 {
        Some(Instr::mul_u64)
    } else if b == 92 {
        Some(Instr::mul_i8)
    } else if b == 93 {
        Some(Instr::mul_i16)
    } else if b == 94 {
        Some(Instr::mul_i32)
    } else if b == 95 {
        Some(Instr::mul_i64)
    } else if b == 96 {
        Some(Instr::mul_f32)
    } else if b == 97 {
        Some(Instr::mul_f64)
    } else if b == 98 {
        Some(Instr::div_u8)
    } else if b == 99 {
        Some(Instr::div_u16)
    } else if b == 100 {
        Some(Instr::div_u32)
    } else if b == 101 {
        Some(Instr::div_u64)
    } else if b == 102 {
        Some(Instr::div_i8)
    } else if b == 103 {
        Some(Instr::div_i16)
    } else if b == 104 {
        Some(Instr::div_i32)
    } else if b == 105 {
        Some(Instr::div_i64)
    } else if b == 106 {
        Some(Instr::div_f32)
    } else if b == 107 {
        Some(Instr::div_f64)
    } else if b == 108 {
        Some(Instr::rem_u8)
    } else if b == 109 {
        Some(Instr::rem_u16)
    } else if b == 110 {
        Some(Instr::rem_u32)
    } else if b == 111 {
        Some(Instr::rem_u64)
    } else if b == 112 {
        Some(Instr::rem_i8)
    } else if b == 113 {
        Some(Instr::rem_i16)
    } else if b == 114 {
        Some(Instr::rem_i32)
    } else if b == 115 {
        Some(Instr::rem_i64)
    } else if b == 116 {
        Some(Instr::rem_f32)
    } else if b == 117 {
        Some(Instr::rem_f64)
    } else if b == 118 {
        Some(Instr::and_u8)
    } else if b == 119 {
        Some(Instr::and_u16)
    } else if b == 120 {
        Some(Instr::and_u32)
    } else if b == 121 {
        Some(Instr::and_u64)
    } else if b == 122 {
        Some(Instr::and_i8)
    } else if b == 123 {
        Some(Instr::and_i16)
    } else if b == 124 {
        Some(Instr::and_i32)
    } else if b == 125 {
        Some(Instr::and_i64)
    } else if b == 126 {
        Some(Instr::or_u8)
    } else if b == 127 {
        Some(Instr::or_u16)
    } else if b == 128 {
        Some(Instr::or_u32)
    } else if b == 129 {
        Some(Instr::or_u64)
    } else if b == 130 {
        Some(Instr::or_i8)
    } else if b == 131 {
        Some(Instr::or_i16)
    } else if b == 132 {
        Some(Instr::or_i32)
    } else if b == 133 {
        Some(Instr::or_i64)
    } else if b == 134 {
        Some(Instr::xor_u8)
    } else if b == 135 {
        Some(Instr::xor_u16)
    } else if b == 136 {
        Some(Instr::xor_u32)
    } else if b == 137 {
        Some(Instr::xor_u64)
    } else if b == 138 {
        Some(Instr::xor_i8)
    } else if b == 139 {
        Some(Instr::xor_i16)
    } else if b == 140 {
        Some(Instr::xor_i32)
    } else if b == 141 {
        Some(Instr::xor_i64)
    } else if b == 142 {
        Some(Instr::shl_u8)
    } else if b == 143 {
        Some(Instr::shl_u16)
    } else if b == 144 {
        Some(Instr::shl_u32)
    } else if b == 145 {
        Some(Instr::shl_u64)
    } else if b == 146 {
        Some(Instr::shl_i8)
    } else if b == 147 {
        Some(Instr::shl_i16)
    } else if b == 148 {
        Some(Instr::shl_i32)
    } else if b == 149 {
        Some(Instr::shl_i64)
    } else if b == 150 {
        Some(Instr::shr_u8)
    } else if b == 151 {
        Some(Instr::shr_u16)
    } else if b == 152 {
        Some(Instr::shr_u32)
    } else if b == 153 {
        Some(Instr::shr_u64)
    } else if b == 154 {
        Some(Instr::shr_i8)
    } else if b == 155 {
        Some(Instr::shr_i16)
    } else if b == 156 {
        Some(Instr::shr_i32)
    } else if b == 157 {
        Some(Instr::shr_i64)
    } else if b == 158 {
        Some(Instr::not_u8)
    } else if b == 159 {
        Some(Instr::not_u16)
    } else if b == 160 {
        Some(Instr::not_u32)
    } else if b == 161 {
        Some(Instr::not_u64)
    } else if b == 162 {
        Some(Instr::not_i8)
    } else if b == 163 {
        Some(Instr::not_i16)
    } else if b == 164 {
        Some(Instr::not_i32)
    } else if b == 165 {
        Some(Instr::not_i64)
    } else if b == 166 {
        Some(Instr::neg_u8)
    } else if b == 167 {
        Some(Instr::neg_u16)
    } else if b == 168 {
        Some(Instr::neg_u32)
    } else if b == 169 {
        Some(Instr::neg_u64)
    } else if b == 170 {
        Some(Instr::neg_i8)
    } else if b == 171 {
        Some(Instr::neg_i16)
    } else if b == 172 {
        Some(Instr::neg_i32)
    } else if b == 173 {
        Some(Instr::neg_i64)
    } else if b == 174 {
        Some(Instr::neg_f32)
    } else if b == 175 {
        Some(Instr::neg_f64)
    } else if b == 176 {
        Some(Instr::lt_u8)
    } else if b == 177 {
        Some(Instr::lt_u16)
    } else if b == 178 {
        Some(Instr::lt_u32)
    } else if b == 179 {
        Some(Instr::lt_u64)
    } else if b == 180 {
        Some(Instr::lt_i8)
    } else if b == 181 {
        Some(Instr::lt_i16)
    } else if b == 182 {
        Some(Instr::lt_i32)
    } else if b == 183 {
        Some(Instr::lt_i64)
    } else if b == 184 {
        Some(Instr::lt_f32)
    } else if b == 185 {
        Some(Instr::lt_f64)
    } else if b == 186 {
        Some(Instr::lte_u8)
    } else if b == 187 {
        Some(Instr::lte_u16)
    } else if b == 188 {
        Some(Instr::lte_u32)
    } else if b == 189 {
        Some(Instr::lte_u64)
    } else if b == 190 {
        Some(Instr::lte_i8)
    } else if b == 191 {
        Some(Instr::lte_i16)
    } else if b == 192 {
        Some(Instr::lte_i32)
    } else if b == 193 {
        Some(Instr::lte_i64)
    } else if b == 194 {
        Some(Instr::lte_f32)
    } else if b == 195 {
        Some(Instr::lte_f64)
    } else if b == 196 {
        Some(Instr::gt_u8)
    } else if b == 197 {
        Some(Instr::gt_u16)
    } else if b == 198 {
        Some(Instr::gt_u32)
    } else if b == 199 {
        Some(Instr::gt_u64)
    } else if b == 200 {
        Some(Instr::gt_i8)
    } else if b == 201 {
        Some(Instr::gt_i16)
    } else if b == 202 {
        Some(Instr::gt_i32)
    } else if b == 203 {
        Some(Instr::gt_i64)
    } else if b == 204 {
        Some(Instr::gt_f32)
    } else if b == 205 {
        Some(Instr::gt_f64)
    } else if b == 206 {
        Some(Instr::gte_u8)
    } else if b == 207 {
        Some(Instr::gte_u16)
    } else if b == 208 {
        Some(Instr::gte_u32)
    } else if b == 209 {
        Some(Instr::gte_u64)
    } else if b == 210 {
        Some(Instr::gte_i8)
    } else if b == 211 {
        Some(Instr::gte_i16)
    } else if b == 212 {
        Some(Instr::gte_i32)
    } else if b == 213 {
        Some(Instr::gte_i64)
    } else if b == 214 {
        Some(Instr::gte_f32)
    } else if b == 215 {
        Some(Instr::gte_f64)
    } else if b == 216 {
        Some(Instr::eq_u8)
    } else if b == 217 {
        Some(Instr::eq_u16)
    } else if b == 218 {
        Some(Instr::eq_u32)
    } else if b == 219 {
        Some(Instr::eq_u64)
    } else if b == 220 {
        Some(Instr::eq_i8)
    } else if b == 221 {
        Some(Instr::eq_i16)
    } else if b == 222 {
        Some(Instr::eq_i32)
    } else if b == 223 {
        Some(Instr::eq_i64)
    } else if b == 224 {
        Some(Instr::eq_f32)
    } else if b == 225 {
        Some(Instr::eq_f64)
    } else if b == 226 {
        Some(Instr::neq_u8)
    } else if b == 227 {
        Some(Instr::neq_u16)
    } else if b == 228 {
        Some(Instr::neq_u32)
    } else if b == 229 {
        Some(Instr::neq_u64)
    } else if b == 230 {
        Some(Instr::neq_i8)
    } else if b == 231 {
        Some(Instr::neq_i16)
    } else if b == 232 {
        Some(Instr::neq_i32)
    } else if b == 233 {
        Some(Instr::neq_i64)
    } else if b == 234 {
        Some(Instr::neq_f32)
    } else if b == 235 {
        Some(Instr::neq_f64)
    } else {
        None
    }
}

impl Instr {
    /// Decode one raw byte, rejecting bytes outside the opcode range.
    pub fn from_byte(b: u8) -> (r: Option<Instr>)
        ensures
            r == decode_byte(b),
    {
        match b {
            0 => Some(Instr::nop),
            1 => Some(Instr::halt),
            2 => Some(Instr::wait),
            3 => Some(Instr::spawn),
            4 => Some(Instr::if_jmp),
            5 => Some(Instr::jmp),
            6 => Some(Instr::call),
            7 => Some(Instr::ret),
            8 => Some(Instr::type_ptr),
            9 => Some(Instr::type_int),
            10 => Some(Instr::type_ptr_off),
            11 => Some(Instr::type_idr_ptr),
            12 => Some(Instr::type_idr_ptr_off),
            13 => Some(Instr::type_reg),
            14 => Some(Instr::size_8),
            15 => Some(Instr::size_16),
            16 => Some(Instr::size_32),
            17 => Some(Instr::size_64),
            18 => Some(Instr::push_u8),
            19 => Some(Instr::push_u16),
            20 => Some(Instr::push_u32),
            21 => Some(Instr::push_u64),
            22 => Some(Instr::push_i8),
            23 => Some(Instr::push_i16),
            24 => Some(Instr::push_i32),
            25 => Some(Instr::push_i64),
            26 => Some(Instr::push_f32),
            27 => Some(Instr::push_f64),
            28 => Some(Instr::pop_u8),
            29 => Some(Instr::pop_u16),
            30 => Some(Instr::pop_u32),
            31 => Some(Instr::pop_u64),
            32 => Some(Instr::pop_i8),
            33 => Some(Instr::pop_i16),
            34 => Some(Instr::pop_i32),
            35 => Some(Instr::pop_i64),
            36 => Some(Instr::pop_f32),
            37 => Some(Instr::pop_f64),
            38 => Some(Instr::copy_u8),
            39 => Some(Instr::copy_u16),
            40 => Some(Instr::copy_u32),
            41 => Some(Instr::copy_u64),
            42 => Some(Instr::copy_i8),
            43 => Some(Instr::copy_i16),
            44 => Some(Instr::copy_i32),
            45 => Some(Instr::copy_i64),
            46 => Some(Instr::copy_f32),
            47 => Some(Instr::copy_f64),
            48 => Some(Instr::load_u8),
            49 => Some(Instr::load_u16),
            50 => Some(Instr::load_u32),
            51 => Some(Instr::load_u64),
            52 => Some(Instr::load_i8),
            53 => Some(Instr::load_i16),
            54 => Some(Instr::load_i32),
            55 => Some(Instr::load_i64),
            56 => Some(Instr::load_f32),
            57 => Some(Instr::load_f64),
            58 => Some(Instr::save_u8),
            59 => Some(Instr::save_u16),
            60 => Some(Instr::save_u32),
            61 => Some(Instr::save_u64),
            62 => Some(Instr::save_i8),
            63 => Some(Instr::save_i16),
            64 => Some(Instr::save_i32),
            65 => Some(Instr::save_i64),
            66 => Some(Instr::save_f32),
            67 => Some(Instr::save_f64),
            68 => Some(Instr::add_u8),
            69 => Some(Instr::add_u16),
            70 => Some(Instr::add_u32),
            71 => Some(Instr::add_u64),
            72 => Some(Instr::add_i8),
            73 => Some(Instr::add_i16),
            74 => Some(Instr::add_i32),
            75 => Some(Instr::add_i64),
            76 => Some(Instr::add_f32),
            77 => Some(Instr::add_f64),
            78 => Some(Instr::sub_u8),
            79 => Some(Instr::sub_u16),
            80 => Some(Instr::sub_u32),
            81 => Some(Instr::sub_u64),
            82 => Some(Instr::sub_i8),
            83 => Some(Instr::sub_i16),
            84 => Some(Instr::sub_i32),
            85 => Some(Instr::sub_i64),
            86 => Some(Instr::sub_f32),
            87 => Some(Instr::sub_f64),
            88 => Some(Instr::mul_u8),
            89 => Some(Instr::mul_u16),
            90 => Some(Instr::mul_u32),
            91 => Some(Instr::mul_u64),
            92 => Some(Instr::mul_i8),
            93 => Some(Instr::mul_i16),
            94 => Some(Instr::mul_i32),
            95 => Some(Instr::mul_i64),
            96 => Some(Instr::mul_f32),
            97 => Some(Instr::mul_f64),
            98 => Some(Instr::div_u8),
            99 => Some(Instr::div_u16),
            100 => Some(Instr::div_u32),
            101 => Some(Instr::div_u64),
            102 => Some(Instr::div_i8),
            103 => Some(Instr::div_i16),
            104 => Some(Instr::div_i32),
            105 => Some(Instr::div_i64),
            106 => Some(Instr::div_f32),
            107 => Some(Instr::div_f64),
            108 => Some(Instr::rem_u8),
            109 => Some(Instr::rem_u16),
            110 => Some(Instr::rem_u32),
            111 => Some(Instr::rem_u64),
            112 => Some(Instr::rem_i8),
            113 => Some(Instr::rem_i16),
            114 => Some(Instr::rem_i32),
            115 => Some(Instr::rem_i64),
            116 => Some(Instr::rem_f32),
            117 => Some(Instr::rem_f64),
            118 => Some(Instr::and_u8),
            119 => Some(Instr::and_u16),
            120 => Some(Instr::and_u32),
            121 => Some(Instr::and_u64),
            122 => Some(Instr::and_i8),
            123 => Some(Instr::and_i16),
            124 => Some(Instr::and_i32),
            125 => Some(Instr::and_i64),
            126 => Some(Instr::or_u8),
            127 => Some(Instr::or_u16),
            128 => Some(Instr::or_u32),
            129 => Some(Instr::or_u64),
            130 => Some(Instr::or_i8),
            131 => Some(Instr::or_i16),
            132 => Some(Instr::or_i32),
            133 => Some(Instr::or_i64),
            134 => Some(Instr::xor_u8),
            135 => Some(Instr::xor_u16),
            136 => Some(Instr::xor_u32),
            137 => Some(Instr::xor_u64),
            138 => Some(Instr::xor_i8),
            139 => Some(Instr::xor_i16),
            140 => Some(Instr::xor_i32),
            141 => Some(Instr::xor_i64),
            142 => Some(Instr::shl_u8),
            143 => Some(Instr::shl_u16),
            144 => Some(Instr::shl_u32),
            145 => Some(Instr::shl_u64),
            146 => Some(Instr::shl_i8),
            147 => Some(Instr::shl_i16),
            148 => Some(Instr::shl_i32),
            149 => Some(Instr::shl_i64),
            150 => Some(Instr::shr_u8),
            151 => Some(Instr::shr_u16),
            152 => Some(Instr::shr_u32),
            153 => Some(Instr::shr_u64),
            154 => Some(Instr::shr_i8),
            155 => Some(Instr::shr_i16),
            156 => Some(Instr::shr_i32),
            157 => Some(Instr::shr_i64),
            158 => Some(Instr::not_u8),
            159 => Some(Instr::not_u16),
            160 => Some(Instr::not_u32),
            161 => Some(Instr::not_u64),
            162 => Some(Instr::not_i8),
            163 => Some(Instr::not_i16),
            164 => Some(Instr::not_i32),
            165 => Some(Instr::not_i64),
            166 => Some(Instr::neg_u8),
            167 => Some(Instr::neg_u16),
            168 => Some(Instr::neg_u32),
            169 => Some(Instr::neg_u64),
            170 => Some(Instr::neg_i8),
            171 => Some(Instr::neg_i16),
            172 => Some(Instr::neg_i32),
            173 => Some(Instr::neg_i64),
            174 => Some(Instr::neg_f32),
            175 => Some(Instr::neg_f64),
            176 => Some(Instr::lt_u8),
            177 => Some(Instr::lt_u16),
            178 => Some(Instr::lt_u32),
            179 => Some(Instr::lt_u64),
            180 => Some(Instr::lt_i8),
            181 => Some(Instr::lt_i16),
            182 => Some(Instr::lt_i32),
            183 => Some(Instr::lt_i64),
            184 => Some(Instr::lt_f32),
            185 => Some(Instr::lt_f64),
            186 => Some(Instr::lte_u8),
            187 => Some(Instr::lte_u16),
            188 => Some(Instr::lte_u32),
            189 => Some(Instr::lte_u64),
            190 => Some(Instr::lte_i8),
            191 => Some(Instr::lte_i16),
            192 => Some(Instr::lte_i32),
            193 => Some(Instr::lte_i64),
            194 => Some(Instr::lte_f32),
            195 => Some(Instr::lte_f64),
            196 => Some(Instr::gt_u8),
            197 => Some(Instr::gt_u16),
            198 => Some(Instr::gt_u32),
            199 => Some(Instr::gt_u64),
            200 => Some(Instr::gt_i8),
            201 => Some(Instr::gt_i16),
            202 => Some(Instr::gt_i32),
            203 => Some(Instr::gt_i64),
            204 => Some(Instr::gt_f32),
            205 => Some(Instr::gt_f64),
            206 => Some(Instr::gte_u8),
            207 => Some(Instr::gte_u16),
            208 => Some(Instr::gte_u32),
            209 => Some(Instr::gte_u64),
            210 => Some(Instr::gte_i8),
            211 => Some(Instr::gte_i16),
            212 => Some(Instr::gte_i32),
            213 => Some(Instr::gte_i64),
            214 => Some(Instr::gte_f32),
            215 => Some(Instr::gte_f64),
            216 => Some(Instr::eq_u8),
            217 => Some(Instr::eq_u16),
            218 => Some(Instr::eq_u32),
            219 => Some(Instr::eq_u64),
            220 => Some(Instr::eq_i8),
            221 => Some(Instr::eq_i16),
            222 => Some(Instr::eq_i32),
            223 => Some(Instr::eq_i64),
            224 => Some(Instr::eq_f32),
            225 => Some(Instr::eq_f64),
            226 => Some(Instr::neq_u8),
            227 => Some(Instr::neq_u16),
            228 => Some(Instr::neq_u32),
            229 => Some(Instr::neq_u64),
            230 => Some(Instr::neq_i8),
            231 => Some(Instr::neq_i16),
            232 => Some(Instr::neq_i32),
            233 => Some(Instr::neq_i64),
            234 => Some(Instr::neq_f32),
            235 => Some(Instr::neq_f64),
            _ => None,
        }
    }
}

} // verus!
