use crate::cpu::{HartState, RiscV32};
use crate::extensions::rv32a::RV32AInstruction;
use crate::extensions::rv32i::{raise, RV32IInstruction};
use crate::extensions::rv32m::RV32MInstruction;
use crate::extensions::rv32zicsr::RV32ZicsrInstruction;
use crate::extensions::Execute;
use crate::trap::{Trap, TrapRetInstruction};
use vstd::arithmetic::power2::{lemma2_to64, pow2};
use vstd::prelude::*;

verus! {

/// A decoded instruction, tagged by the extension that executes it.
#[derive(Debug, Clone, Copy, PartialEq, Eq, Structural)]
pub enum RV32Instruction {
    Unknown,
    RV32I(RV32IInstruction),
    RV32M(RV32MInstruction),
    RV32A(RV32AInstruction),
    RV32Zicsr(RV32ZicsrInstruction),
    TrapReturn(TrapRetInstruction),
}

/// The instruction formats, which fix where the operand fields lie.
#[derive(Debug, Clone, Copy, PartialEq, Eq, Structural)]
pub enum Type {
    R,
    I,
    S,
    B,
    U,
    J,
}

pub open spec fn opcode(i: u32) -> u8 {
    (i & 0x7F) as u8
}

pub open spec fn rd(i: u32) -> u8 {
    ((i >> 7u32) & 0x1F) as u8
}

pub open spec fn funct3(i: u32) -> u8 {
    ((i >> 12u32) & 0x7) as u8
}

pub open spec fn rs1(i: u32) -> u8 {
    ((i >> 15u32) & 0x1F) as u8
}

pub open spec fn rs2(i: u32) -> u8 {
    ((i >> 20u32) & 0x1F) as u8
}

pub open spec fn funct7(i: u32) -> u8 {
    ((i >> 25u32) & 0x7F) as u8
}

/// Bits 31:20, unsigned: the I-type immediate field, also the CSR address.
pub open spec fn imm12(i: u32) -> u32 {
    (i >> 20u32) & 0xFFF
}

/// `v`, read as an `n`-bit two's-complement number.
pub open spec fn sext(n: nat, v: int) -> int {
    if v >= pow2((n - 1) as nat) {
        v - pow2(n)
    } else {
        v
    }
}

/// The `len` bits of `i` from bit `lo` up, as an unsigned number.
pub open spec fn bits(i: u32, lo: nat, len: nat) -> int {
    (i as int / pow2(lo) as int) % pow2(len) as int
}

/// The I-type immediate: bits 31:20, sign-extended.
pub open spec fn imm_i(i: u32) -> i32 {
    sext(12, bits(i, 20, 12)) as i32
}

/// The S-type immediate: bits 31:25 above bits 11:7, sign-extended.
pub open spec fn imm_s(i: u32) -> i32 {
    sext(12, bits(i, 25, 7) * 0x20 + bits(i, 7, 5)) as i32
}

/// The B-type immediate, a multiple of 2: bit 12 from bit 31, bit 11 from
/// bit 7, bits 10:5 from 30:25 and bits 4:1 from 11:8, sign-extended.
pub open spec fn imm_b(i: u32) -> i32 {
    sext(
        13,
        bits(i, 31, 1) * 0x1000 + bits(i, 7, 1) * 0x800 + bits(i, 25, 6) * 0x20 + bits(i, 8, 4) * 2,
    ) as i32
}

/// The U-type immediate: bits 31:12 in place, low 12 bits zero.
pub open spec fn imm_u(i: u32) -> i32 {
    sext(32, bits(i, 12, 20) * 0x1000) as i32
}

/// The J-type immediate, a multiple of 2: bit 20 from bit 31, bits 19:12 in
/// place, bit 11 from bit 20 and bits 10:1 from 30:21, sign-extended.
pub open spec fn imm_j(i: u32) -> i32 {
    sext(
        21,
        bits(i, 31, 1) * 0x10_0000 + bits(i, 12, 8) * 0x1000 + bits(i, 20, 1) * 0x800 + bits(
            i,
            21,
            10,
        ) * 2,
    ) as i32
}

/// The format of each opcode this hart implements.
pub open spec fn format(opcode: u8) -> Option<Type> {
    match opcode {
        0x03u8 => Some(Type::I),
        0x0Fu8 => Some(Type::I),
        0x13u8 => Some(Type::I),
        0x17u8 => Some(Type::U),
        0x23u8 => Some(Type::S),
        0x2Fu8 => Some(Type::R),
        0x33u8 => Some(Type::R),
        0x37u8 => Some(Type::U),
        0x63u8 => Some(Type::B),
        0x67u8 => Some(Type::I),
        0x6Fu8 => Some(Type::J),
        0x73u8 => Some(Type::I),
        _ => None,
    }
}

pub fn format_of(opcode: u8) -> (r: Option<Type>)
    ensures
        r == format(opcode),
{
    match opcode {
        0x03u8 => Some(Type::I),
        0x0Fu8 => Some(Type::I),
        0x13u8 => Some(Type::I),
        0x17u8 => Some(Type::U),
        0x23u8 => Some(Type::S),
        0x2Fu8 => Some(Type::R),
        0x33u8 => Some(Type::R),
        0x37u8 => Some(Type::U),
        0x63u8 => Some(Type::B),
        0x67u8 => Some(Type::I),
        0x6Fu8 => Some(Type::J),
        0x73u8 => Some(Type::I),
        _ => None,
    }
}

/// Register-register operations (opcode 0x33) by `funct3` and `funct7`.
pub open spec fn decode_op(i: u32) -> RV32Instruction {
    let (d, a, b) = (rd(i), rs1(i), rs2(i));
    match (funct3(i), funct7(i)) {
        (0u8, 0x00u8) => RV32Instruction::RV32I(RV32IInstruction::Add(d, a, b)),
        (0u8, 0x20u8) => RV32Instruction::RV32I(RV32IInstruction::Sub(d, a, b)),
        (1u8, 0x00u8) => RV32Instruction::RV32I(RV32IInstruction::Sll(d, a, b)),
        (2u8, 0x00u8) => RV32Instruction::RV32I(RV32IInstruction::Slt(d, a, b)),
        (3u8, 0x00u8) => RV32Instruction::RV32I(RV32IInstruction::Sltu(d, a, b)),
        (4u8, 0x00u8) => RV32Instruction::RV32I(RV32IInstruction::Xor(d, a, b)),
        (5u8, 0x00u8) => RV32Instruction::RV32I(RV32IInstruction::Srl(d, a, b)),
        (5u8, 0x20u8) => RV32Instruction::RV32I(RV32IInstruction::Sra(d, a, b)),
        (6u8, 0x00u8) => RV32Instruction::RV32I(RV32IInstruction::Or(d, a, b)),
        (7u8, 0x00u8) => RV32Instruction::RV32I(RV32IInstruction::And(d, a, b)),
        (0u8, 0x01u8) => RV32Instruction::RV32M(RV32MInstruction::Mul(d, a, b)),
        (1u8, 0x01u8) => RV32Instruction::RV32M(RV32MInstruction::Mulh(d, a, b)),
        (2u8, 0x01u8) => RV32Instruction::RV32M(RV32MInstruction::Mulhsu(d, a, b)),
        (3u8, 0x01u8) => RV32Instruction::RV32M(RV32MInstruction::Mulhu(d, a, b)),
        (4u8, 0x01u8) => RV32Instruction::RV32M(RV32MInstruction::Div(d, a, b)),
        (5u8, 0x01u8) => RV32Instruction::RV32M(RV32MInstruction::Divu(d, a, b)),
        (6u8, 0x01u8) => RV32Instruction::RV32M(RV32MInstruction::Rem(d, a, b)),
        (7u8, 0x01u8) => RV32Instruction::RV32M(RV32MInstruction::Remu(d, a, b)),
        _ => RV32Instruction::Unknown,
    }
}

/// Atomics (opcode 0x2F, word width) by the top five bits of `funct7`; the
/// acquire/release bits are ignored. LR.W is an ordinary word load, as there
/// is no reservation to take.
pub open spec fn decode_amo(i: u32) -> RV32Instruction {
    let (d, a, b) = (rd(i), rs1(i), rs2(i));
    if funct3(i) != 2 {
        RV32Instruction::Unknown
    } else {
        match funct7(i) >> 2u8 {
            0x00u8 => RV32Instruction::RV32A(RV32AInstruction::AmoaddW(d, a, b)),
            0x01u8 => RV32Instruction::RV32A(RV32AInstruction::AmoswapW(d, a, b)),
            0x02u8 => RV32Instruction::RV32I(RV32IInstruction::Lw(d, a, 0)),
            0x03u8 => RV32Instruction::RV32A(RV32AInstruction::ScW(d, a, b)),
            0x04u8 => RV32Instruction::RV32A(RV32AInstruction::AmoxorW(d, a, b)),
            0x0Cu8 => RV32Instruction::RV32A(RV32AInstruction::AmoandW(d, a, b)),
            0x08u8 => RV32Instruction::RV32A(RV32AInstruction::AmoorW(d, a, b)),
            0x10u8 => RV32Instruction::RV32A(RV32AInstruction::AmominW(d, a, b)),
            0x14u8 => RV32Instruction::RV32A(RV32AInstruction::AmomaxW(d, a, b)),
            0x18u8 => RV32Instruction::RV32A(RV32AInstruction::AmominuW(d, a, b)),
            0x1Cu8 => RV32Instruction::RV32A(RV32AInstruction::AmomaxuW(d, a, b)),
            _ => RV32Instruction::Unknown,
        }
    }
}

/// Loads (opcode 0x03) by `funct3`.
pub open spec fn decode_load(i: u32) -> RV32Instruction {
    let (d, a, imm) = (rd(i), rs1(i), imm_i(i));
    match funct3(i) {
        0u8 => RV32Instruction::RV32I(RV32IInstruction::Lb(d, a, imm)),
        1u8 => RV32Instruction::RV32I(RV32IInstruction::Lh(d, a, imm)),
        2u8 => RV32Instruction::RV32I(RV32IInstruction::Lw(d, a, imm)),
        4u8 => RV32Instruction::RV32I(RV32IInstruction::Lbu(d, a, imm)),
        5u8 => RV32Instruction::RV32I(RV32IInstruction::Lhu(d, a, imm)),
        _ => RV32Instruction::Unknown,
    }
}

/// Fences (opcode 0x0F) by the whole immediate field.
pub open spec fn decode_fence(i: u32) -> RV32Instruction {
    let u = imm12(i);
    if u == 0x833 {
        RV32Instruction::RV32I(RV32IInstruction::FenceTSO)
    } else if u == 0x010 {
        RV32Instruction::RV32I(RV32IInstruction::Pause)
    } else {
        RV32Instruction::RV32I(
            RV32IInstruction::Fence(
                rd(i),
                rs1(i),
                (u & 0xF) as u8,
                ((u >> 4u32) & 0xF) as u8,
                ((u >> 8u32) & 0xF) as u8,
            ),
        )
    }
}

/// Register-immediate operations (opcode 0x13) by `funct3`; the right shifts
/// by the upper seven bits of the immediate.
pub open spec fn decode_op_imm(i: u32) -> RV32Instruction {
    let (d, a, imm) = (rd(i), rs1(i), imm_i(i));
    let shamt = (imm12(i) & 0x1F) as u8;
    match funct3(i) {
        0u8 => RV32Instruction::RV32I(RV32IInstruction::Addi(d, a, imm)),
        1u8 => RV32Instruction::RV32I(RV32IInstruction::Slli(d, a, shamt)),
        2u8 => RV32Instruction::RV32I(RV32IInstruction::Slti(d, a, imm)),
        3u8 => RV32Instruction::RV32I(RV32IInstruction::Sltiu(d, a, imm)),
        4u8 => RV32Instruction::RV32I(RV32IInstruction::Xori(d, a, imm)),
        5u8 => if imm12(i) >> 5u32 == 0 {
            RV32Instruction::RV32I(RV32IInstruction::Srli(d, a, shamt))
        } else if imm12(i) >> 5u32 == 0x20 {
            RV32Instruction::RV32I(RV32IInstruction::Srai(d, a, shamt))
        } else {
            RV32Instruction::Unknown
        },
        6u8 => RV32Instruction::RV32I(RV32IInstruction::Ori(d, a, imm)),
        _ => RV32Instruction::RV32I(RV32IInstruction::Andi(d, a, imm)),
    }
}

/// System instructions (opcode 0x73): environment calls, trap returns and
/// CSR access.
pub open spec fn decode_system(i: u32) -> RV32Instruction {
    let (d, a, csr) = (rd(i), rs1(i), imm12(i) as u16);
    match funct3(i) {
        0u8 => if imm12(i) == 0 {
            RV32Instruction::RV32I(RV32IInstruction::Ecall)
        } else if imm12(i) == 1 {
            RV32Instruction::RV32I(RV32IInstruction::Ebreak)
        } else if imm12(i) == 0x102 {
            RV32Instruction::TrapReturn(TrapRetInstruction::Sret)
        } else if imm12(i) == 0x302 {
            RV32Instruction::TrapReturn(TrapRetInstruction::Mret)
        } else {
            RV32Instruction::Unknown
        },
        1u8 => RV32Instruction::RV32Zicsr(RV32ZicsrInstruction::Csrrw(d, a, csr)),
        2u8 => RV32Instruction::RV32Zicsr(RV32ZicsrInstruction::Csrrs(d, a, csr)),
        3u8 => RV32Instruction::RV32Zicsr(RV32ZicsrInstruction::Csrrc(d, a, csr)),
        5u8 => RV32Instruction::RV32Zicsr(RV32ZicsrInstruction::Csrrwi(d, a, csr)),
        6u8 => RV32Instruction::RV32Zicsr(RV32ZicsrInstruction::Csrrsi(d, a, csr)),
        7u8 => RV32Instruction::RV32Zicsr(RV32ZicsrInstruction::Csrrci(d, a, csr)),
        _ => RV32Instruction::Unknown,
    }
}

/// Stores (opcode 0x23) by `funct3`.
pub open spec fn decode_store(i: u32) -> RV32Instruction {
    let (a, b, imm) = (rs1(i), rs2(i), imm_s(i));
    match funct3(i) {
        0u8 => RV32Instruction::RV32I(RV32IInstruction::Sb(a, b, imm)),
        1u8 => RV32Instruction::RV32I(RV32IInstruction::Sh(a, b, imm)),
        2u8 => RV32Instruction::RV32I(RV32IInstruction::Sw(a, b, imm)),
        _ => RV32Instruction::Unknown,
    }
}

/// Conditional branches (opcode 0x63) by `funct3`.
pub open spec fn decode_branch(i: u32) -> RV32Instruction {
    let (a, b, imm) = (rs1(i), rs2(i), imm_b(i));
    match funct3(i) {
        0u8 => RV32Instruction::RV32I(RV32IInstruction::Beq(a, b, imm)),
        1u8 => RV32Instruction::RV32I(RV32IInstruction::Bne(a, b, imm)),
        4u8 => RV32Instruction::RV32I(RV32IInstruction::Blt(a, b, imm)),
        5u8 => RV32Instruction::RV32I(RV32IInstruction::Bge(a, b, imm)),
        6u8 => RV32Instruction::RV32I(RV32IInstruction::Bltu(a, b, imm)),
        7u8 => RV32Instruction::RV32I(RV32IInstruction::Bgeu(a, b, imm)),
        _ => RV32Instruction::Unknown,
    }
}

/// The instruction that the word `i` encodes; `Unknown` for any pattern this
/// hart does not implement.
pub open spec fn decoded(i: u32) -> RV32Instruction {
    match opcode(i) {
        0x33u8 => decode_op(i),
        0x2Fu8 => decode_amo(i),
        0x03u8 => decode_load(i),
        0x0Fu8 => decode_fence(i),
        0x13u8 => decode_op_imm(i),
        0x67u8 => RV32Instruction::RV32I(RV32IInstruction::Jalr(rd(i), rs1(i), imm_i(i))),
        0x73u8 => decode_system(i),
        0x23u8 => decode_store(i),
        0x63u8 => decode_branch(i),
        0x37u8 => RV32Instruction::RV32I(RV32IInstruction::Lui(rd(i), imm_u(i))),
        0x17u8 => RV32Instruction::RV32I(RV32IInstruction::Auipc(rd(i), imm_u(i))),
        0x6Fu8 => RV32Instruction::RV32I(RV32IInstruction::Jal(rd(i), imm_j(i))),
        _ => RV32Instruction::Unknown,
    }
}

fn get_opcode(i: u32) -> (r: u8)
    ensures
        r == opcode(i),
{
    #[verifier::truncate]
    ((i & 0x7F) as u8)
}

fn get_rd(i: u32) -> (r: u8)
    ensures
        r == rd(i),
{
    #[verifier::truncate]
    (((i >> 7u32) & 0x1F) as u8)
}

fn get_funct3(i: u32) -> (r: u8)
    ensures
        r == funct3(i),
{
    #[verifier::truncate]
    (((i >> 12u32) & 0x7) as u8)
}

fn get_rs1(i: u32) -> (r: u8)
    ensures
        r == rs1(i),
{
    #[verifier::truncate]
    (((i >> 15u32) & 0x1F) as u8)
}

fn get_rs2(i: u32) -> (r: u8)
    ensures
        r == rs2(i),
{
    #[verifier::truncate]
    (((i >> 20u32) & 0x1F) as u8)
}

fn get_funct7(i: u32) -> (r: u8)
    ensures
        r == funct7(i),
{
    #[verifier::truncate]
    (((i >> 25u32) & 0x7F) as u8)
}

fn get_imm12(i: u32) -> (r: u32)
    ensures
        r == imm12(i),
{
    (i >> 20u32) & 0xFFF
}

fn get_imm_i(i: u32) -> (r: i32)
    ensures
        r == imm_i(i),
{
    proof {
        lemma2_to64();
        assert((i >> 20u32) & 0xFFF == (i / 0x10_0000) % 0x1000) by (bit_vector);
    }
    let u: u32 = (i >> 20u32) & 0xFFF;
    if u >= 0x800 {
        u as i32 - 0x1000
    } else {
        u as i32
    }
}

fn get_imm_s(i: u32) -> (r: i32)
    ensures
        r == imm_s(i),
{
    proof {
        lemma2_to64();
        assert((i >> 25u32) & 0x7F == (i / 0x200_0000) % 0x80 && (i >> 7u32) & 0x1F == (i / 0x80)
            % 0x20) by (bit_vector);
    }
    let u: u32 = ((i >> 25u32) & 0x7F) * 0x20 + ((i >> 7u32) & 0x1F);
    if u >= 0x800 {
        u as i32 - 0x1000
    } else {
        u as i32
    }
}

fn get_imm_b(i: u32) -> (r: i32)
    ensures
        r == imm_b(i),
{
    proof {
        lemma2_to64();
        assert((i >> 31u32) & 1 == (i / 0x8000_0000) % 2 && (i >> 7u32) & 1 == (i / 0x80) % 2 && (i
            >> 25u32) & 0x3F == (i / 0x200_0000) % 0x40 && (i >> 8u32) & 0xF == (i / 0x100) % 0x10)
            by (bit_vector);
    }
    let u: u32 = ((i >> 31u32) & 1) * 0x1000 + ((i >> 7u32) & 1) * 0x800 + ((i >> 25u32) & 0x3F)
        * 0x20 + ((i >> 8u32) & 0xF) * 2;
    if u >= 0x1000 {
        u as i32 - 0x2000
    } else {
        u as i32
    }
}

fn get_imm_u(i: u32) -> (r: i32)
    ensures
        r == imm_u(i),
{
    proof {
        lemma2_to64();
        assert((i >> 12u32) & 0xF_FFFF == (i / 0x1000) % 0x10_0000) by (bit_vector);
    }
    let u: u32 = ((i >> 12u32) & 0xF_FFFF) * 0x1000;
    if u >= 0x8000_0000 {
        (u as i64 - 0x1_0000_0000) as i32
    } else {
        u as i32
    }
}

fn get_imm_j(i: u32) -> (r: i32)
    ensures
        r == imm_j(i),
{
    proof {
        lemma2_to64();
        assert((i >> 31u32) & 1 == (i / 0x8000_0000) % 2 && (i >> 12u32) & 0xFF == (i / 0x1000)
            % 0x100 && (i >> 20u32) & 1 == (i / 0x10_0000) % 2 && (i >> 21u32) & 0x3FF == (i
            / 0x20_0000) % 0x400) by (bit_vector);
    }
    let u: u32 = ((i >> 31u32) & 1) * 0x10_0000 + ((i >> 12u32) & 0xFF) * 0x1000 + ((i >> 20u32)
        & 1) * 0x800 + ((i >> 21u32) & 0x3FF) * 2;
    if u >= 0x10_0000 {
        u as i32 - 0x20_0000
    } else {
        u as i32
    }
}

fn exec_decode_op(i: u32) -> (r: RV32Instruction)
    ensures
        r == decode_op(i),
{
    let (d, a, b) = (get_rd(i), get_rs1(i), get_rs2(i));
    match (get_funct3(i), get_funct7(i)) {
        (0u8, 0x00u8) => RV32Instruction::RV32I(RV32IInstruction::Add(d, a, b)),
        (0u8, 0x20u8) => RV32Instruction::RV32I(RV32IInstruction::Sub(d, a, b)),
        (1u8, 0x00u8) => RV32Instruction::RV32I(RV32IInstruction::Sll(d, a, b)),
        (2u8, 0x00u8) => RV32Instruction::RV32I(RV32IInstruction::Slt(d, a, b)),
        (3u8, 0x00u8) => RV32Instruction::RV32I(RV32IInstruction::Sltu(d, a, b)),
        (4u8, 0x00u8) => RV32Instruction::RV32I(RV32IInstruction::Xor(d, a, b)),
        (5u8, 0x00u8) => RV32Instruction::RV32I(RV32IInstruction::Srl(d, a, b)),
        (5u8, 0x20u8) => RV32Instruction::RV32I(RV32IInstruction::Sra(d, a, b)),
        (6u8, 0x00u8) => RV32Instruction::RV32I(RV32IInstruction::Or(d, a, b)),
        (7u8, 0x00u8) => RV32Instruction::RV32I(RV32IInstruction::And(d, a, b)),
        (0u8, 0x01u8) => RV32Instruction::RV32M(RV32MInstruction::Mul(d, a, b)),
        (1u8, 0x01u8) => RV32Instruction::RV32M(RV32MInstruction::Mulh(d, a, b)),
        (2u8, 0x01u8) => RV32Instruction::RV32M(RV32MInstruction::Mulhsu(d, a, b)),
        (3u8, 0x01u8) => RV32Instruction::RV32M(RV32MInstruction::Mulhu(d, a, b)),
        (4u8, 0x01u8) => RV32Instruction::RV32M(RV32MInstruction::Div(d, a, b)),
        (5u8, 0x01u8) => RV32Instruction::RV32M(RV32MInstruction::Divu(d, a, b)),
        (6u8, 0x01u8) => RV32Instruction::RV32M(RV32MInstruction::Rem(d, a, b)),
        (7u8, 0x01u8) => RV32Instruction::RV32M(RV32MInstruction::Remu(d, a, b)),
        _ => RV32Instruction::Unknown,
    }
}

fn exec_decode_amo(i: u32) -> (r: RV32Instruction)
    ensures
        r == decode_amo(i),
{
    let (d, a, b) = (get_rd(i), get_rs1(i), get_rs2(i));
    if get_funct3(i) != 2 {
        RV32Instruction::Unknown
    } else {
        match get_funct7(i) >> 2u8 {
            0x00u8 => RV32Instruction::RV32A(RV32AInstruction::AmoaddW(d, a, b)),
            0x01u8 => RV32Instruction::RV32A(RV32AInstruction::AmoswapW(d, a, b)),
            0x02u8 => RV32Instruction::RV32I(RV32IInstruction::Lw(d, a, 0)),
            0x03u8 => RV32Instruction::RV32A(RV32AInstruction::ScW(d, a, b)),
            0x04u8 => RV32Instruction::RV32A(RV32AInstruction::AmoxorW(d, a, b)),
            0x0Cu8 => RV32Instruction::RV32A(RV32AInstruction::AmoandW(d, a, b)),
            0x08u8 => RV32Instruction::RV32A(RV32AInstruction::AmoorW(d, a, b)),
            0x10u8 => RV32Instruction::RV32A(RV32AInstruction::AmominW(d, a, b)),
            0x14u8 => RV32Instruction::RV32A(RV32AInstruction::AmomaxW(d, a, b)),
            0x18u8 => RV32Instruction::RV32A(RV32AInstruction::AmominuW(d, a, b)),
            0x1Cu8 => RV32Instruction::RV32A(RV32AInstruction::AmomaxuW(d, a, b)),
            _ => RV32Instruction::Unknown,
        }
    }
}

fn exec_decode_load(i: u32) -> (r: RV32Instruction)
    ensures
        r == decode_load(i),
{
    let (d, a, imm) = (get_rd(i), get_rs1(i), get_imm_i(i));
    match get_funct3(i) {
        0u8 => RV32Instruction::RV32I(RV32IInstruction::Lb(d, a, imm)),
        1u8 => RV32Instruction::RV32I(RV32IInstruction::Lh(d, a, imm)),
        2u8 => RV32Instruction::RV32I(RV32IInstruction::Lw(d, a, imm)),
        4u8 => RV32Instruction::RV32I(RV32IInstruction::Lbu(d, a, imm)),
        5u8 => RV32Instruction::RV32I(RV32IInstruction::Lhu(d, a, imm)),
        _ => RV32Instruction::Unknown,
    }
}

fn exec_decode_fence(i: u32) -> (r: RV32Instruction)
    ensures
        r == decode_fence(i),
{
    let u: u32 = get_imm12(i);
    if u == 0x833 {
        RV32Instruction::RV32I(RV32IInstruction::FenceTSO)
    } else if u == 0x010 {
        RV32Instruction::RV32I(RV32IInstruction::Pause)
    } else {
        RV32Instruction::RV32I(
            RV32IInstruction::Fence(
                get_rd(i),
                get_rs1(i),
                #[verifier::truncate] ((u & 0xF) as u8),
                #[verifier::truncate] (((u >> 4u32) & 0xF) as u8),
                #[verifier::truncate] (((u >> 8u32) & 0xF) as u8),
            ),
        )
    }
}

fn exec_decode_op_imm(i: u32) -> (r: RV32Instruction)
    ensures
        r == decode_op_imm(i),
{
    let (d, a, imm) = (get_rd(i), get_rs1(i), get_imm_i(i));
    let shamt: u8 = #[verifier::truncate] ((get_imm12(i) & 0x1F) as u8);
    match get_funct3(i) {
        0u8 => RV32Instruction::RV32I(RV32IInstruction::Addi(d, a, imm)),
        1u8 => RV32Instruction::RV32I(RV32IInstruction::Slli(d, a, shamt)),
        2u8 => RV32Instruction::RV32I(RV32IInstruction::Slti(d, a, imm)),
        3u8 => RV32Instruction::RV32I(RV32IInstruction::Sltiu(d, a, imm)),
        4u8 => RV32Instruction::RV32I(RV32IInstruction::Xori(d, a, imm)),
        5u8 => if get_imm12(i) >> 5u32 == 0 {
            RV32Instruction::RV32I(RV32IInstruction::Srli(d, a, shamt))
        } else if get_imm12(i) >> 5u32 == 0x20 {
            RV32Instruction::RV32I(RV32IInstruction::Srai(d, a, shamt))
        } else {
            RV32Instruction::Unknown
        },
        6u8 => RV32Instruction::RV32I(RV32IInstruction::Ori(d, a, imm)),
        _ => RV32Instruction::RV32I(RV32IInstruction::Andi(d, a, imm)),
    }
}

fn exec_decode_system(i: u32) -> (r: RV32Instruction)
    ensures
        r == decode_system(i),
{
    let (d, a, csr) = (get_rd(i), get_rs1(i), #[verifier::truncate] (get_imm12(i) as u16));
    match get_funct3(i) {
        0u8 => if get_imm12(i) == 0 {
            RV32Instruction::RV32I(RV32IInstruction::Ecall)
        } else if get_imm12(i) == 1 {
            RV32Instruction::RV32I(RV32IInstruction::Ebreak)
        } else if get_imm12(i) == 0x102 {
            RV32Instruction::TrapReturn(TrapRetInstruction::Sret)
        } else if get_imm12(i) == 0x302 {
            RV32Instruction::TrapReturn(TrapRetInstruction::Mret)
        } else {
            RV32Instruction::Unknown
        },
        1u8 => RV32Instruction::RV32Zicsr(RV32ZicsrInstruction::Csrrw(d, a, csr)),
        2u8 => RV32Instruction::RV32Zicsr(RV32ZicsrInstruction::Csrrs(d, a, csr)),
        3u8 => RV32Instruction::RV32Zicsr(RV32ZicsrInstruction::Csrrc(d, a, csr)),
        5u8 => RV32Instruction::RV32Zicsr(RV32ZicsrInstruction::Csrrwi(d, a, csr)),
        6u8 => RV32Instruction::RV32Zicsr(RV32ZicsrInstruction::Csrrsi(d, a, csr)),
        7u8 => RV32Instruction::RV32Zicsr(RV32ZicsrInstruction::Csrrci(d, a, csr)),
        _ => RV32Instruction::Unknown,
    }
}

fn exec_decode_store(i: u32) -> (r: RV32Instruction)
    ensures
        r == decode_store(i),
{
    let (a, b, imm) = (get_rs1(i), get_rs2(i), get_imm_s(i));
    match get_funct3(i) {
        0u8 => RV32Instruction::RV32I(RV32IInstruction::Sb(a, b, imm)),
        1u8 => RV32Instruction::RV32I(RV32IInstruction::Sh(a, b, imm)),
        2u8 => RV32Instruction::RV32I(RV32IInstruction::Sw(a, b, imm)),
        _ => RV32Instruction::Unknown,
    }
}

fn exec_decode_branch(i: u32) -> (r: RV32Instruction)
    ensures
        r == decode_branch(i),
{
    let (a, b, imm) = (get_rs1(i), get_rs2(i), get_imm_b(i));
    match get_funct3(i) {
        0u8 => RV32Instruction::RV32I(RV32IInstruction::Beq(a, b, imm)),
        1u8 => RV32Instruction::RV32I(RV32IInstruction::Bne(a, b, imm)),
        4u8 => RV32Instruction::RV32I(RV32IInstruction::Blt(a, b, imm)),
        5u8 => RV32Instruction::RV32I(RV32IInstruction::Bge(a, b, imm)),
        6u8 => RV32Instruction::RV32I(RV32IInstruction::Bltu(a, b, imm)),
        7u8 => RV32Instruction::RV32I(RV32IInstruction::Bgeu(a, b, imm)),
        _ => RV32Instruction::Unknown,
    }
}

pub fn rv32_decode(i: u32) -> (r: RV32Instruction)
    ensures
        r == decoded(i),
{
    match get_opcode(i) {
        0x33u8 => exec_decode_op(i),
        0x2Fu8 => exec_decode_amo(i),
        0x03u8 => exec_decode_load(i),
        0x0Fu8 => exec_decode_fence(i),
        0x13u8 => exec_decode_op_imm(i),
        0x67u8 => RV32Instruction::RV32I(RV32IInstruction::Jalr(get_rd(i), get_rs1(i), get_imm_i(i))),
        0x73u8 => exec_decode_system(i),
        0x23u8 => exec_decode_store(i),
        0x63u8 => exec_decode_branch(i),
        0x37u8 => RV32Instruction::RV32I(RV32IInstruction::Lui(get_rd(i), get_imm_u(i))),
        0x17u8 => RV32Instruction::RV32I(RV32IInstruction::Auipc(get_rd(i), get_imm_u(i))),
        0x6Fu8 => RV32Instruction::RV32I(RV32IInstruction::Jal(get_rd(i), get_imm_j(i))),
        _ => RV32Instruction::Unknown,
    }
}

impl RV32Instruction {
    /// Whether executing the instruction moves the PC without trapping:
    /// a jump or taken branch to an aligned target, or a trap return that the
    /// current privilege allows.
    pub open spec fn redirects(self, s: HartState) -> bool {
        match self {
            RV32Instruction::RV32I(op) => op.redirects(s),
            RV32Instruction::TrapReturn(TrapRetInstruction::Mret) => s.privilege == 3,
            RV32Instruction::TrapReturn(TrapRetInstruction::Sret) => s.privilege == 3
                || s.privilege == 1,
            _ => false,
        }
    }
}

/// An instruction that does not redirect the PC either completes with the PC
/// where it was (the step then adds 4), or traps with the PC at the masked
/// `mtvec` or `stvec` and the matching `mepc` or `sepc` holding the PC of the
/// instruction.
pub proof fn lemma_execute_keeps_pc_or_traps(instr: RV32Instruction, s: HartState)
    requires
        !instr.redirects(s),
    ensures
        ({
            let (t, r) = instr.effect(s);
            match r {
                None => t.pc == s.pc,
                Some(_) => (t.pc == s.csr.mtvec & !3u32 && t.csr.mepc == s.pc) || (t.pc
                    == s.csr.stvec & !3u32 && t.csr.sepc == s.pc),
            }
        }),
{
}

/// No instruction changes the size of RAM.
pub proof fn lemma_execute_keeps_ram_size(instr: RV32Instruction, s: HartState)
    ensures
        instr.effect(s).0.ram.len() == s.ram.len(),
{
}

impl Execute for RV32Instruction {
    /// Dispatch to the extension's executor; an unknown pattern is an illegal
    /// instruction.
    open spec fn effect(self, s: HartState) -> (HartState, Option<Trap>) {
        match self {
            RV32Instruction::Unknown => raise(s, Trap::IllegalInstruction, 0),
            RV32Instruction::RV32I(op) => op.effect(s),
            RV32Instruction::RV32M(op) => op.effect(s),
            RV32Instruction::RV32A(op) => op.effect(s),
            RV32Instruction::RV32Zicsr(op) => op.effect(s),
            RV32Instruction::TrapReturn(op) => op.effect(s),
        }
    }

    fn execute(self, cpu: &mut RiscV32) -> (r: Option<Trap>) {
        match self {
            RV32Instruction::Unknown => Some(Trap::IllegalInstruction.take(cpu, 0)),
            RV32Instruction::RV32I(op) => op.execute(cpu),
            RV32Instruction::RV32M(op) => op.execute(cpu),
            RV32Instruction::RV32A(op) => op.execute(cpu),
            RV32Instruction::RV32Zicsr(op) => op.execute(cpu),
            RV32Instruction::TrapReturn(op) => op.execute(cpu),
        }
    }
}

} // verus!
