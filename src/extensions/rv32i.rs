use crate::cpu::{HartState, RiscV32};
use crate::extensions::Execute;
use crate::memory::{
    le16, le32, lemma_half_word_round_trip, lemma_word_round_trip, put16, put32,
};
use crate::trap::Trap;
use crate::uart::{in_uart, match_addr, uart_read, uart_write, UartState};
use vstd::prelude::*;

verus! {

/// The base integer instruction set. Operands are register indices (`u8`),
/// sign-extended immediates (`i32`) and shift amounts.
#[derive(Debug, Clone, Copy, PartialEq, Eq, Structural)]
pub enum RV32IInstruction {
    Lui(u8, i32),
    Auipc(u8, i32),
    Jal(u8, i32),
    Jalr(u8, u8, i32),
    Beq(u8, u8, i32),
    Bne(u8, u8, i32),
    Blt(u8, u8, i32),
    Bge(u8, u8, i32),
    Bltu(u8, u8, i32),
    Bgeu(u8, u8, i32),
    Lb(u8, u8, i32),
    Lh(u8, u8, i32),
    Lw(u8, u8, i32),
    Lbu(u8, u8, i32),
    Lhu(u8, u8, i32),
    Sb(u8, u8, i32),
    Sh(u8, u8, i32),
    Sw(u8, u8, i32),
    Addi(u8, u8, i32),
    Slti(u8, u8, i32),
    Sltiu(u8, u8, i32),
    Xori(u8, u8, i32),
    Ori(u8, u8, i32),
    Andi(u8, u8, i32),
    Slli(u8, u8, u8),
    Srli(u8, u8, u8),
    Srai(u8, u8, u8),
    Add(u8, u8, u8),
    Sub(u8, u8, u8),
    Sll(u8, u8, u8),
    Slt(u8, u8, u8),
    Sltu(u8, u8, u8),
    Xor(u8, u8, u8),
    Srl(u8, u8, u8),
    Sra(u8, u8, u8),
    Or(u8, u8, u8),
    And(u8, u8, u8),
    Fence(u8, u8, u8, u8, u8),
    FenceTSO,
    Pause,
    Ecall,
    Ebreak,
}

/// The state with the UART's queues replaced by those of `u`.
pub open spec fn with_uart(s: HartState, u: UartState) -> HartState {
    HartState { rx: u.rx, tx: u.tx, ..s }
}

/// The UART's part of the state.
pub open spec fn uart_of(s: HartState) -> UartState {
    UartState { rx: s.rx, tx: s.tx }
}

/// `s` with exception `t` taken.
pub open spec fn raise(s: HartState, t: Trap, tval: u32) -> (HartState, Option<Trap>) {
    (s.take_trap(t, tval), Some(t))
}

/// A control transfer to `target`, linking the return address into `rd`. The
/// PC is left 4 short of the target, since the step adds 4 after every
/// instruction that does not trap. A target off a 4-byte boundary traps
/// instead, with nothing written.
pub open spec fn jump_effect(s: HartState, rd: u8, target: u32) -> (HartState, Option<Trap>) {
    if target & 3 != 0 {
        raise(s, Trap::MisalignedInstructionAddress, target)
    } else {
        (s.set_reg(rd, s.pc.wrapping_add(4)).set_pc(target.wrapping_sub(4)), None)
    }
}

/// A conditional branch by `imm` when `taken`.
pub open spec fn branch_effect(s: HartState, taken: bool, imm: i32) -> (HartState, Option<Trap>) {
    if !taken {
        (s, None)
    } else {
        let target = s.pc.wrapping_add_signed(imm);
        if target & 3 != 0 {
            raise(s, Trap::MisalignedInstructionAddress, target)
        } else {
            (s.set_pc(target.wrapping_sub(4)), None)
        }
    }
}

/// A byte load from `a` into `rd`, sign- or zero-extended. The UART window
/// is read through the UART (its registers that cannot be read give 0);
/// an address past the end of RAM faults.
pub open spec fn load_byte_effect(s: HartState, rd: u8, a: u32, signed: bool) -> (
    HartState,
    Option<Trap>,
) {
    if in_uart(a) {
        let (u, v) = uart_read(uart_of(s), a);
        let b = match v {
            Some(b) => b,
            None => 0u8,
        };
        (with_uart(s, u).set_reg(rd, extend_byte(b, signed)), None)
    } else if a < s.ram.len() {
        (s.set_reg(rd, extend_byte(s.ram[a as int], signed)), None)
    } else {
        raise(s, Trap::LoadAccessFault, a)
    }
}

pub open spec fn extend_byte(b: u8, signed: bool) -> u32 {
    if signed {
        b as i8 as u32
    } else {
        b as u32
    }
}

pub open spec fn extend_half(h: u16, signed: bool) -> u32 {
    if signed {
        h as i16 as u32
    } else {
        h as u32
    }
}

/// A half-word load from `a` into `rd`; the UART window and addresses past
/// the end of RAM fault.
pub open spec fn load_half_effect(s: HartState, rd: u8, a: u32, signed: bool) -> (
    HartState,
    Option<Trap>,
) {
    if in_uart(a) || a + 2 > s.ram.len() {
        raise(s, Trap::LoadAccessFault, a)
    } else {
        (s.set_reg(rd, extend_half(le16(s.ram, a as int), signed)), None)
    }
}

/// A word load from `a` into `rd`; the UART window and addresses past the
/// end of RAM fault.
pub open spec fn load_word_effect(s: HartState, rd: u8, a: u32) -> (HartState, Option<Trap>) {
    if in_uart(a) || a + 4 > s.ram.len() {
        raise(s, Trap::LoadAccessFault, a)
    } else {
        (s.set_reg(rd, le32(s.ram, a as int)), None)
    }
}

/// A byte store of `b` to `a`; the UART window is written through the UART.
pub open spec fn store_byte_effect(s: HartState, a: u32, b: u8) -> (HartState, Option<Trap>) {
    if in_uart(a) {
        (with_uart(s, uart_write(uart_of(s), a, b)), None)
    } else if a < s.ram.len() {
        (s.set_ram(s.ram.update(a as int, b)), None)
    } else {
        raise(s, Trap::StoreAccessFault, a)
    }
}

/// A half-word store of `h` to `a`; the UART window and addresses past the
/// end of RAM fault.
pub open spec fn store_half_effect(s: HartState, a: u32, h: u16) -> (HartState, Option<Trap>) {
    if in_uart(a) || a + 2 > s.ram.len() {
        raise(s, Trap::StoreAccessFault, a)
    } else {
        (s.set_ram(put16(s.ram, a as int, h)), None)
    }
}

/// A word store of `w` to `a`; the UART window and addresses past the end of
/// RAM fault.
pub open spec fn store_word_effect(s: HartState, a: u32, w: u32) -> (HartState, Option<Trap>) {
    if in_uart(a) || a + 4 > s.ram.len() {
        raise(s, Trap::StoreAccessFault, a)
    } else {
        (s.set_ram(put32(s.ram, a as int, w)), None)
    }
}

/// Outside the UART window, a load right after a store of the same width at
/// the same address reads back the stored value (zero-extended), for every
/// width, wherever the access lies in RAM.
pub proof fn lemma_store_then_load(s: HartState, rd: u8, a: u32, v: u32)
    requires
        !in_uart(a),
    ensures
        a < s.ram.len() ==> ({
            let t = store_byte_effect(s, a, v as u8).0;
            load_byte_effect(t, rd, a, false) == (t.set_reg(rd, (v as u8) as u32), None::<Trap>)
        }),
        a + 2 <= s.ram.len() ==> ({
            let t = store_half_effect(s, a, v as u16).0;
            load_half_effect(t, rd, a, false) == (t.set_reg(rd, (v as u16) as u32), None::<Trap>)
        }),
        a + 4 <= s.ram.len() ==> ({
            let t = store_word_effect(s, a, v).0;
            load_word_effect(t, rd, a) == (t.set_reg(rd, v), None::<Trap>)
        }),
{
    if a + 2 <= s.ram.len() {
        lemma_half_word_round_trip(s.ram, a as int, v as u16);
    }
    if a + 4 <= s.ram.len() {
        lemma_word_round_trip(s.ram, a as int, v);
    }
}

/// `rd` set to `v`, with no trap.
pub open spec fn write_effect(s: HartState, rd: u8, v: u32) -> (HartState, Option<Trap>) {
    (s.set_reg(rd, v), None)
}

/// The environment call raised from privilege `p`.
pub open spec fn env_call(p: u8) -> Trap {
    if p == 0 {
        Trap::UModeEnvCall
    } else if p == 1 {
        Trap::SModeEnvCall
    } else if p == 3 {
        Trap::MModeEnvCall
    } else {
        Trap::IllegalInstruction
    }
}

pub open spec fn flag(b: bool) -> u32 {
    if b {
        1
    } else {
        0
    }
}

impl RV32IInstruction {
    /// Whether the instruction moves the PC elsewhere than the next
    /// instruction without trapping: a jump to an aligned target, or a taken
    /// branch to one.
    pub open spec fn redirects(self, s: HartState) -> bool {
        let aligned = |t: u32| t & 3 == 0;
        match self {
            RV32IInstruction::Jal(_, imm) => aligned(s.pc.wrapping_add_signed(imm)),
            RV32IInstruction::Jalr(_, rs1, imm) => aligned(
                s.reg(rs1).wrapping_add_signed(imm) & !1u32,
            ),
            RV32IInstruction::Beq(a, b, imm) => s.reg(a) == s.reg(b) && aligned(
                s.pc.wrapping_add_signed(imm),
            ),
            RV32IInstruction::Bne(a, b, imm) => s.reg(a) != s.reg(b) && aligned(
                s.pc.wrapping_add_signed(imm),
            ),
            RV32IInstruction::Blt(a, b, imm) => (s.reg(a) as i32) < (s.reg(b) as i32) && aligned(
                s.pc.wrapping_add_signed(imm),
            ),
            RV32IInstruction::Bge(a, b, imm) => (s.reg(a) as i32) >= (s.reg(b) as i32) && aligned(
                s.pc.wrapping_add_signed(imm),
            ),
            RV32IInstruction::Bltu(a, b, imm) => s.reg(a) < s.reg(b) && aligned(
                s.pc.wrapping_add_signed(imm),
            ),
            RV32IInstruction::Bgeu(a, b, imm) => s.reg(a) >= s.reg(b) && aligned(
                s.pc.wrapping_add_signed(imm),
            ),
            _ => false,
        }
    }
}

/// The address `rs1 + imm` of a load or store.
pub open spec fn effective_address(s: HartState, rs1: u8, imm: i32) -> u32 {
    s.reg(rs1).wrapping_add_signed(imm)
}

/// Whether a byte access at `a` goes through: in the UART window or in RAM.
pub open spec fn byte_access_ok(s: HartState, a: u32) -> bool {
    in_uart(a) || a < s.ram.len()
}

/// Whether an access of `width` bytes at `a` goes through: outside the UART
/// window and in RAM.
pub open spec fn wide_access_ok(s: HartState, a: u32, width: int) -> bool {
    !in_uart(a) && a + width <= s.ram.len()
}

impl RV32IInstruction {
    /// Whether the instruction completes where it stands: LUI, AUIPC, the
    /// arithmetic and logic operations, the fences, and loads and stores whose
    /// access goes through.
    pub open spec fn completes_in_place(self, s: HartState) -> bool {
        match self {
            RV32IInstruction::Lb(_, rs1, imm) => byte_access_ok(s, effective_address(s, rs1, imm)),
            RV32IInstruction::Lbu(_, rs1, imm) => byte_access_ok(s, effective_address(s, rs1, imm)),
            RV32IInstruction::Sb(rs1, _, imm) => byte_access_ok(s, effective_address(s, rs1, imm)),
            RV32IInstruction::Lh(_, rs1, imm) => wide_access_ok(s, effective_address(s, rs1, imm), 2),
            RV32IInstruction::Lhu(_, rs1, imm) => wide_access_ok(s, effective_address(s, rs1, imm), 2),
            RV32IInstruction::Sh(rs1, _, imm) => wide_access_ok(s, effective_address(s, rs1, imm), 2),
            RV32IInstruction::Lw(_, rs1, imm) => wide_access_ok(s, effective_address(s, rs1, imm), 4),
            RV32IInstruction::Sw(rs1, _, imm) => wide_access_ok(s, effective_address(s, rs1, imm), 4),
            RV32IInstruction::Jal(_, _) => false,
            RV32IInstruction::Jalr(_, _, _) => false,
            RV32IInstruction::Beq(_, _, _) => false,
            RV32IInstruction::Bne(_, _, _) => false,
            RV32IInstruction::Blt(_, _, _) => false,
            RV32IInstruction::Bge(_, _, _) => false,
            RV32IInstruction::Bltu(_, _, _) => false,
            RV32IInstruction::Bgeu(_, _, _) => false,
            RV32IInstruction::Ecall => false,
            RV32IInstruction::Ebreak => false,
            _ => true,
        }
    }
}

/// An instruction that completes where it stands raises no trap and leaves
/// the PC (the step adds 4 afterwards), the privilege and the CSRs as they
/// were, and x0 at zero.
pub proof fn lemma_completes_in_place(op: RV32IInstruction, s: HartState)
    requires
        op.completes_in_place(s),
        s.x.len() == 32,
        s.x[0] == 0,
    ensures
        ({
            let (t, r) = op.effect(s);
            &&& r is None
            &&& t.pc == s.pc
            &&& t.privilege == s.privilege
            &&& t.csr == s.csr
            &&& t.x[0] == 0
        }),
{
}

impl Execute for RV32IInstruction {
    open spec fn effect(self, s: HartState) -> (HartState, Option<Trap>) {
        match self {
            RV32IInstruction::Lui(rd, imm) => write_effect(s, rd, imm as u32),
            RV32IInstruction::Auipc(rd, imm) => write_effect(s, rd, s.pc.wrapping_add_signed(imm)),
            RV32IInstruction::Jal(rd, imm) => jump_effect(s, rd, s.pc.wrapping_add_signed(imm)),
            RV32IInstruction::Jalr(rd, rs1, imm) => jump_effect(
                s,
                rd,
                s.reg(rs1).wrapping_add_signed(imm) & !1u32,
            ),
            RV32IInstruction::Beq(rs1, rs2, imm) => branch_effect(s, s.reg(rs1) == s.reg(rs2), imm),
            RV32IInstruction::Bne(rs1, rs2, imm) => branch_effect(s, s.reg(rs1) != s.reg(rs2), imm),
            RV32IInstruction::Blt(rs1, rs2, imm) => branch_effect(
                s,
                (s.reg(rs1) as i32) < (s.reg(rs2) as i32),
                imm,
            ),
            RV32IInstruction::Bge(rs1, rs2, imm) => branch_effect(
                s,
                (s.reg(rs1) as i32) >= (s.reg(rs2) as i32),
                imm,
            ),
            RV32IInstruction::Bltu(rs1, rs2, imm) => branch_effect(s, s.reg(rs1) < s.reg(rs2), imm),
            RV32IInstruction::Bgeu(rs1, rs2, imm) => branch_effect(s, s.reg(rs1) >= s.reg(rs2), imm),
            RV32IInstruction::Lb(rd, rs1, imm) => load_byte_effect(
                s,
                rd,
                s.reg(rs1).wrapping_add_signed(imm),
                true,
            ),
            RV32IInstruction::Lh(rd, rs1, imm) => load_half_effect(
                s,
                rd,
                s.reg(rs1).wrapping_add_signed(imm),
                true,
            ),
            RV32IInstruction::Lw(rd, rs1, imm) => load_word_effect(
                s,
                rd,
                s.reg(rs1).wrapping_add_signed(imm),
            ),
            RV32IInstruction::Lbu(rd, rs1, imm) => load_byte_effect(
                s,
                rd,
                s.reg(rs1).wrapping_add_signed(imm),
                false,
            ),
            RV32IInstruction::Lhu(rd, rs1, imm) => load_half_effect(
                s,
                rd,
                s.reg(rs1).wrapping_add_signed(imm),
                false,
            ),
            RV32IInstruction::Sb(rs1, rs2, imm) => store_byte_effect(
                s,
                s.reg(rs1).wrapping_add_signed(imm),
                s.reg(rs2) as u8,
            ),
            RV32IInstruction::Sh(rs1, rs2, imm) => store_half_effect(
                s,
                s.reg(rs1).wrapping_add_signed(imm),
                s.reg(rs2) as u16,
            ),
            RV32IInstruction::Sw(rs1, rs2, imm) => store_word_effect(
                s,
                s.reg(rs1).wrapping_add_signed(imm),
                s.reg(rs2),
            ),
            RV32IInstruction::Addi(rd, rs1, imm) => write_effect(
                s,
                rd,
                s.reg(rs1).wrapping_add_signed(imm),
            ),
            RV32IInstruction::Slti(rd, rs1, imm) => write_effect(
                s,
                rd,
                flag((s.reg(rs1) as i32) < imm),
            ),
            RV32IInstruction::Sltiu(rd, rs1, imm) => write_effect(
                s,
                rd,
                flag(s.reg(rs1) < imm as u32),
            ),
            RV32IInstruction::Xori(rd, rs1, imm) => write_effect(s, rd, s.reg(rs1) ^ imm as u32),
            RV32IInstruction::Ori(rd, rs1, imm) => write_effect(s, rd, s.reg(rs1) | imm as u32),
            RV32IInstruction::Andi(rd, rs1, imm) => write_effect(s, rd, s.reg(rs1) & imm as u32),
            RV32IInstruction::Slli(rd, rs1, shamt) => write_effect(
                s,
                rd,
                s.reg(rs1) << (shamt as u32 & 0x1F),
            ),
            RV32IInstruction::Srli(rd, rs1, shamt) => write_effect(
                s,
                rd,
                s.reg(rs1) >> (shamt as u32 & 0x1F),
            ),
            RV32IInstruction::Srai(rd, rs1, shamt) => write_effect(
                s,
                rd,
                ((s.reg(rs1) as i32) >> (shamt as u32 & 0x1F)) as u32,
            ),
            RV32IInstruction::Add(rd, rs1, rs2) => write_effect(
                s,
                rd,
                s.reg(rs1).wrapping_add(s.reg(rs2)),
            ),
            RV32IInstruction::Sub(rd, rs1, rs2) => write_effect(
                s,
                rd,
                s.reg(rs1).wrapping_sub(s.reg(rs2)),
            ),
            RV32IInstruction::Sll(rd, rs1, rs2) => write_effect(
                s,
                rd,
                s.reg(rs1) << (s.reg(rs2) & 0x1F),
            ),
            RV32IInstruction::Slt(rd, rs1, rs2) => write_effect(
                s,
                rd,
                flag((s.reg(rs1) as i32) < (s.reg(rs2) as i32)),
            ),
            RV32IInstruction::Sltu(rd, rs1, rs2) => write_effect(
                s,
                rd,
                flag(s.reg(rs1) < s.reg(rs2)),
            ),
            RV32IInstruction::Xor(rd, rs1, rs2) => write_effect(s, rd, s.reg(rs1) ^ s.reg(rs2)),
            RV32IInstruction::Srl(rd, rs1, rs2) => write_effect(
                s,
                rd,
                s.reg(rs1) >> (s.reg(rs2) & 0x1F),
            ),
            RV32IInstruction::Sra(rd, rs1, rs2) => write_effect(
                s,
                rd,
                ((s.reg(rs1) as i32) >> (s.reg(rs2) & 0x1F)) as u32,
            ),
            RV32IInstruction::Or(rd, rs1, rs2) => write_effect(s, rd, s.reg(rs1) | s.reg(rs2)),
            RV32IInstruction::And(rd, rs1, rs2) => write_effect(s, rd, s.reg(rs1) & s.reg(rs2)),
            RV32IInstruction::Fence(_, _, _, _, _) => (s, None),
            RV32IInstruction::FenceTSO => (s, None),
            RV32IInstruction::Pause => (s, None),
            RV32IInstruction::Ecall => raise(s, env_call(s.privilege), 0),
            RV32IInstruction::Ebreak => raise(s, Trap::Breakpoint, s.pc),
        }
    }

    fn execute(self, cpu: &mut RiscV32) -> (r: Option<Trap>) {
        match self {
            RV32IInstruction::Lui(rd, imm) => {
                cpu.regs.write(rd, imm as u32);
                None
            },
            RV32IInstruction::Auipc(rd, imm) => {
                let v: u32 = cpu.regs.pc.wrapping_add_signed(imm);
                cpu.regs.write(rd, v);
                None
            },
            RV32IInstruction::Jal(rd, imm) => {
                let target: u32 = cpu.regs.pc.wrapping_add_signed(imm);
                jump(cpu, rd, target)
            },
            RV32IInstruction::Jalr(rd, rs1, imm) => {
                let target: u32 = cpu.regs.read(rs1).wrapping_add_signed(imm) & !1u32;
                jump(cpu, rd, target)
            },
            RV32IInstruction::Beq(rs1, rs2, imm) => {
                let taken: bool = cpu.regs.read(rs1) == cpu.regs.read(rs2);
                branch(cpu, taken, imm)
            },
            RV32IInstruction::Bne(rs1, rs2, imm) => {
                let taken: bool = cpu.regs.read(rs1) != cpu.regs.read(rs2);
                branch(cpu, taken, imm)
            },
            RV32IInstruction::Blt(rs1, rs2, imm) => {
                let taken: bool = signed(cpu.regs.read(rs1)) < signed(cpu.regs.read(rs2));
                branch(cpu, taken, imm)
            },
            RV32IInstruction::Bge(rs1, rs2, imm) => {
                let taken: bool = signed(cpu.regs.read(rs1)) >= signed(cpu.regs.read(rs2));
                branch(cpu, taken, imm)
            },
            RV32IInstruction::Bltu(rs1, rs2, imm) => {
                let taken: bool = cpu.regs.read(rs1) < cpu.regs.read(rs2);
                branch(cpu, taken, imm)
            },
            RV32IInstruction::Bgeu(rs1, rs2, imm) => {
                let taken: bool = cpu.regs.read(rs1) >= cpu.regs.read(rs2);
                branch(cpu, taken, imm)
            },
            RV32IInstruction::Lb(rd, rs1, imm) => {
                let a: u32 = cpu.regs.read(rs1).wrapping_add_signed(imm);
                load_byte(cpu, rd, a, true)
            },
            RV32IInstruction::Lh(rd, rs1, imm) => {
                let a: u32 = cpu.regs.read(rs1).wrapping_add_signed(imm);
                load_half(cpu, rd, a, true)
            },
            RV32IInstruction::Lw(rd, rs1, imm) => {
                let a: u32 = cpu.regs.read(rs1).wrapping_add_signed(imm);
                load_word(cpu, rd, a)
            },
            RV32IInstruction::Lbu(rd, rs1, imm) => {
                let a: u32 = cpu.regs.read(rs1).wrapping_add_signed(imm);
                load_byte(cpu, rd, a, false)
            },
            RV32IInstruction::Lhu(rd, rs1, imm) => {
                let a: u32 = cpu.regs.read(rs1).wrapping_add_signed(imm);
                load_half(cpu, rd, a, false)
            },
            RV32IInstruction::Sb(rs1, rs2, imm) => {
                let a: u32 = cpu.regs.read(rs1).wrapping_add_signed(imm);
                let b: u8 = #[verifier::truncate] (cpu.regs.read(rs2) as u8);
                store_byte(cpu, a, b)
            },
            RV32IInstruction::Sh(rs1, rs2, imm) => {
                let a: u32 = cpu.regs.read(rs1).wrapping_add_signed(imm);
                let h: u16 = #[verifier::truncate] (cpu.regs.read(rs2) as u16);
                store_half(cpu, a, h)
            },
            RV32IInstruction::Sw(rs1, rs2, imm) => {
                let a: u32 = cpu.regs.read(rs1).wrapping_add_signed(imm);
                let w: u32 = cpu.regs.read(rs2);
                store_word(cpu, a, w)
            },
            RV32IInstruction::Addi(rd, rs1, imm) => {
                let v: u32 = cpu.regs.read(rs1).wrapping_add_signed(imm);
                cpu.regs.write(rd, v);
                None
            },
            RV32IInstruction::Slti(rd, rs1, imm) => {
                let v: u32 = if signed(cpu.regs.read(rs1)) < imm {
                    1
                } else {
                    0
                };
                cpu.regs.write(rd, v);
                None
            },
            RV32IInstruction::Sltiu(rd, rs1, imm) => {
                let v: u32 = if cpu.regs.read(rs1) < imm as u32 {
                    1
                } else {
                    0
                };
                cpu.regs.write(rd, v);
                None
            },
            RV32IInstruction::Xori(rd, rs1, imm) => {
                let v: u32 = cpu.regs.read(rs1) ^ imm as u32;
                cpu.regs.write(rd, v);
                None
            },
            RV32IInstruction::Ori(rd, rs1, imm) => {
                let v: u32 = cpu.regs.read(rs1) | imm as u32;
                cpu.regs.write(rd, v);
                None
            },
            RV32IInstruction::Andi(rd, rs1, imm) => {
                let v: u32 = cpu.regs.read(rs1) & imm as u32;
                cpu.regs.write(rd, v);
                None
            },
            RV32IInstruction::Slli(rd, rs1, shamt) => {
                let v: u32 = cpu.regs.read(rs1) << shift_amount(shamt as u32);
                cpu.regs.write(rd, v);
                None
            },
            RV32IInstruction::Srli(rd, rs1, shamt) => {
                let v: u32 = cpu.regs.read(rs1) >> shift_amount(shamt as u32);
                cpu.regs.write(rd, v);
                None
            },
            RV32IInstruction::Srai(rd, rs1, shamt) => {
                let v: u32 = (signed(cpu.regs.read(rs1)) >> shift_amount(shamt as u32)) as u32;
                cpu.regs.write(rd, v);
                None
            },
            RV32IInstruction::Add(rd, rs1, rs2) => {
                let v: u32 = cpu.regs.read(rs1).wrapping_add(cpu.regs.read(rs2));
                cpu.regs.write(rd, v);
                None
            },
            RV32IInstruction::Sub(rd, rs1, rs2) => {
                let v: u32 = cpu.regs.read(rs1).wrapping_sub(cpu.regs.read(rs2));
                cpu.regs.write(rd, v);
                None
            },
            RV32IInstruction::Sll(rd, rs1, rs2) => {
                let v: u32 = cpu.regs.read(rs1) << shift_amount(cpu.regs.read(rs2));
                cpu.regs.write(rd, v);
                None
            },
            RV32IInstruction::Slt(rd, rs1, rs2) => {
                let v: u32 = if signed(cpu.regs.read(rs1)) < signed(cpu.regs.read(rs2)) {
                    1
                } else {
                    0
                };
                cpu.regs.write(rd, v);
                None
            },
            RV32IInstruction::Sltu(rd, rs1, rs2) => {
                let v: u32 = if cpu.regs.read(rs1) < cpu.regs.read(rs2) {
                    1
                } else {
                    0
                };
                cpu.regs.write(rd, v);
                None
            },
            RV32IInstruction::Xor(rd, rs1, rs2) => {
                let v: u32 = cpu.regs.read(rs1) ^ cpu.regs.read(rs2);
                cpu.regs.write(rd, v);
                None
            },
            RV32IInstruction::Srl(rd, rs1, rs2) => {
                let v: u32 = cpu.regs.read(rs1) >> shift_amount(cpu.regs.read(rs2));
                cpu.regs.write(rd, v);
                None
            },
            RV32IInstruction::Sra(rd, rs1, rs2) => {
                let v: u32 = (signed(cpu.regs.read(rs1)) >> shift_amount(cpu.regs.read(rs2))) as u32;
                cpu.regs.write(rd, v);
                None
            },
            RV32IInstruction::Or(rd, rs1, rs2) => {
                let v: u32 = cpu.regs.read(rs1) | cpu.regs.read(rs2);
                cpu.regs.write(rd, v);
                None
            },
            RV32IInstruction::And(rd, rs1, rs2) => {
                let v: u32 = cpu.regs.read(rs1) & cpu.regs.read(rs2);
                cpu.regs.write(rd, v);
                None
            },
            RV32IInstruction::Fence(_, _, _, _, _) => None,
            RV32IInstruction::FenceTSO => None,
            RV32IInstruction::Pause => None,
            RV32IInstruction::Ecall => {
                let t: Trap = if cpu.privilege == 0 {
                    Trap::UModeEnvCall
                } else if cpu.privilege == 1 {
                    Trap::SModeEnvCall
                } else if cpu.privilege == 3 {
                    Trap::MModeEnvCall
                } else {
                    Trap::IllegalInstruction
                };
                Some(t.take(cpu, 0))
            },
            RV32IInstruction::Ebreak => {
                let pc: u32 = cpu.regs.pc;
                Some(Trap::Breakpoint.take(cpu, pc))
            },
        }
    }
}

/// `v` read as a two's-complement number.
fn signed(v: u32) -> (r: i32)
    ensures
        r == v as i32,
{
    #[verifier::truncate]
    (v as i32)
}

/// The low five bits of `v`: how far RV32 shifts by `v`.
fn shift_amount(v: u32) -> (r: u32)
    ensures
        r == v & 0x1F,
        r < 32,
{
    assert(v & 0x1F < 32) by (bit_vector);
    v & 0x1F
}

fn jump(cpu: &mut RiscV32, rd: u8, target: u32) -> (r: Option<Trap>)
    requires
        old(cpu).wf(),
    ensures
        final(cpu).wf(),
        (final(cpu)@, r) == jump_effect(old(cpu)@, rd, target),
{
    if target & 3 != 0 {
        return Some(Trap::MisalignedInstructionAddress.take(cpu, target));
    }
    let link: u32 = cpu.regs.pc.wrapping_add(4);
    cpu.regs.write(rd, link);
    cpu.regs.pc = target.wrapping_sub(4);
    None
}

fn branch(cpu: &mut RiscV32, taken: bool, imm: i32) -> (r: Option<Trap>)
    requires
        old(cpu).wf(),
    ensures
        final(cpu).wf(),
        (final(cpu)@, r) == branch_effect(old(cpu)@, taken, imm),
{
    if !taken {
        return None;
    }
    let target: u32 = cpu.regs.pc.wrapping_add_signed(imm);
    if target & 3 != 0 {
        return Some(Trap::MisalignedInstructionAddress.take(cpu, target));
    }
    cpu.regs.pc = target.wrapping_sub(4);
    None
}

fn load_byte(cpu: &mut RiscV32, rd: u8, a: u32, sign: bool) -> (r: Option<Trap>)
    requires
        old(cpu).wf(),
    ensures
        final(cpu).wf(),
        (final(cpu)@, r) == load_byte_effect(old(cpu)@, rd, a, sign),
{
    let b: u8 = if match_addr(a) {
        match cpu.uart.read(a) {
            Some(b) => b,
            None => 0,
        }
    } else if (a as usize) < cpu.mem.ram.len() {
        cpu.mem.read_byte(a as usize)
    } else {
        return Some(Trap::LoadAccessFault.take(cpu, a));
    };
    let v: u32 = if sign {
        #[verifier::truncate]
        ((#[verifier::truncate] (b as i8)) as u32)
    } else {
        b as u32
    };
    cpu.regs.write(rd, v);
    None
}

fn load_half(cpu: &mut RiscV32, rd: u8, a: u32, sign: bool) -> (r: Option<Trap>)
    requires
        old(cpu).wf(),
    ensures
        final(cpu).wf(),
        (final(cpu)@, r) == load_half_effect(old(cpu)@, rd, a, sign),
{
    if match_addr(a) || a as usize >= cpu.mem.ram.len() || cpu.mem.ram.len() - (a as usize) < 2 {
        return Some(Trap::LoadAccessFault.take(cpu, a));
    }
    let h: u16 = cpu.mem.read_half_word(a as usize);
    let v: u32 = if sign {
        #[verifier::truncate]
        ((#[verifier::truncate] (h as i16)) as u32)
    } else {
        h as u32
    };
    cpu.regs.write(rd, v);
    None
}

fn load_word(cpu: &mut RiscV32, rd: u8, a: u32) -> (r: Option<Trap>)
    requires
        old(cpu).wf(),
    ensures
        final(cpu).wf(),
        (final(cpu)@, r) == load_word_effect(old(cpu)@, rd, a),
{
    if match_addr(a) || a as usize >= cpu.mem.ram.len() || cpu.mem.ram.len() - (a as usize) < 4 {
        return Some(Trap::LoadAccessFault.take(cpu, a));
    }
    let v: u32 = cpu.mem.read_word(a as usize);
    cpu.regs.write(rd, v);
    None
}

fn store_byte(cpu: &mut RiscV32, a: u32, b: u8) -> (r: Option<Trap>)
    requires
        old(cpu).wf(),
    ensures
        final(cpu).wf(),
        (final(cpu)@, r) == store_byte_effect(old(cpu)@, a, b),
{
    if match_addr(a) {
        cpu.uart.write(a, b);
        None
    } else if (a as usize) < cpu.mem.ram.len() {
        cpu.mem.write_byte(a as usize, b);
        None
    } else {
        Some(Trap::StoreAccessFault.take(cpu, a))
    }
}

fn store_half(cpu: &mut RiscV32, a: u32, h: u16) -> (r: Option<Trap>)
    requires
        old(cpu).wf(),
    ensures
        final(cpu).wf(),
        (final(cpu)@, r) == store_half_effect(old(cpu)@, a, h),
{
    if match_addr(a) || a as usize >= cpu.mem.ram.len() || cpu.mem.ram.len() - (a as usize) < 2 {
        return Some(Trap::StoreAccessFault.take(cpu, a));
    }
    cpu.mem.write_half_word(a as usize, h);
    None
}

pub(crate) fn store_word(cpu: &mut RiscV32, a: u32, w: u32) -> (r: Option<Trap>)
    requires
        old(cpu).wf(),
    ensures
        final(cpu).wf(),
        (final(cpu)@, r) == store_word_effect(old(cpu)@, a, w),
{
    if match_addr(a) || a as usize >= cpu.mem.ram.len() || cpu.mem.ram.len() - (a as usize) < 4 {
        return Some(Trap::StoreAccessFault.take(cpu, a));
    }
    cpu.mem.write_word(a as usize, w);
    None
}

} // verus!
