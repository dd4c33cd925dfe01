use crate::cpu::{HartState, RiscV32};
use crate::csr::{csr_readable, csr_update, csr_value, csr_write_ok};
use crate::extensions::rv32i::raise;
use crate::extensions::Execute;
use crate::trap::Trap;
use vstd::prelude::*;

verus! {

/// CSR access: `(rd, rs1, csr)` for the register forms and `(rd, zimm, csr)`
/// for the immediate forms, where `zimm` is the 5-bit unsigned immediate.
#[derive(Debug, Clone, Copy, PartialEq, Eq, Structural)]
pub enum RV32ZicsrInstruction {
    Csrrw(u8, u8, u16),
    Csrrs(u8, u8, u16),
    Csrrc(u8, u8, u16),
    Csrrwi(u8, u8, u16),
    Csrrsi(u8, u8, u16),
    Csrrci(u8, u8, u16),
}

impl RV32ZicsrInstruction {
    pub open spec fn operands(self) -> (u8, u8, u16) {
        match self {
            RV32ZicsrInstruction::Csrrw(rd, src, csr) => (rd, src, csr),
            RV32ZicsrInstruction::Csrrs(rd, src, csr) => (rd, src, csr),
            RV32ZicsrInstruction::Csrrc(rd, src, csr) => (rd, src, csr),
            RV32ZicsrInstruction::Csrrwi(rd, src, csr) => (rd, src, csr),
            RV32ZicsrInstruction::Csrrsi(rd, src, csr) => (rd, src, csr),
            RV32ZicsrInstruction::Csrrci(rd, src, csr) => (rd, src, csr),
        }
    }

    /// The source operand: register `src` for the register forms, the
    /// immediate for the others.
    pub open spec fn source(self, s: HartState) -> u32 {
        match self {
            RV32ZicsrInstruction::Csrrw(_, src, _) => s.reg(src),
            RV32ZicsrInstruction::Csrrs(_, src, _) => s.reg(src),
            RV32ZicsrInstruction::Csrrc(_, src, _) => s.reg(src),
            RV32ZicsrInstruction::Csrrwi(_, zimm, _) => (zimm & 0x1F) as u32,
            RV32ZicsrInstruction::Csrrsi(_, zimm, _) => (zimm & 0x1F) as u32,
            RV32ZicsrInstruction::Csrrci(_, zimm, _) => (zimm & 0x1F) as u32,
        }
    }

    /// Whether the CSR is written: always for the read-write forms; for the
    /// set and clear forms only when the source field is non-zero (x0 or a
    /// zero immediate), so that those forms can read without side effects.
    pub open spec fn writes(self) -> bool {
        match self {
            RV32ZicsrInstruction::Csrrw(_, _, _) => true,
            RV32ZicsrInstruction::Csrrwi(_, _, _) => true,
            RV32ZicsrInstruction::Csrrs(_, src, _) => src != 0,
            RV32ZicsrInstruction::Csrrc(_, src, _) => src != 0,
            RV32ZicsrInstruction::Csrrsi(_, zimm, _) => zimm & 0x1F != 0,
            RV32ZicsrInstruction::Csrrci(_, zimm, _) => zimm & 0x1F != 0,
        }
    }

    /// The new CSR value from the old one and the source operand.
    pub open spec fn new_value(self, old: u32, src: u32) -> u32 {
        match self {
            RV32ZicsrInstruction::Csrrw(_, _, _) => src,
            RV32ZicsrInstruction::Csrrwi(_, _, _) => src,
            RV32ZicsrInstruction::Csrrs(_, _, _) => old | src,
            RV32ZicsrInstruction::Csrrsi(_, _, _) => old | src,
            RV32ZicsrInstruction::Csrrc(_, _, _) => old & !src,
            RV32ZicsrInstruction::Csrrci(_, _, _) => old & !src,
        }
    }
}

impl Execute for RV32ZicsrInstruction {
    /// A read, or a write the instruction makes, that the CSR file refuses
    /// is an illegal instruction, with nothing changed. Otherwise the old value
    /// goes to `rd` and the new one, when written, to the CSR.
    open spec fn effect(self, s: HartState) -> (HartState, Option<Trap>) {
        let (rd, _, csr) = self.operands();
        if !csr_readable(s.privilege, csr) || (self.writes() && !csr_write_ok(s.privilege, csr)) {
            raise(s, Trap::IllegalInstruction, 0)
        } else {
            let old = csr_value(s.csr, csr);
            let t = if self.writes() {
                s.set_csrs(csr_update(s.csr, csr, self.new_value(old, self.source(s))))
            } else {
                s
            };
            (t.set_reg(rd, old), None)
        }
    }

    fn execute(self, cpu: &mut RiscV32) -> (r: Option<Trap>) {
        let (rd, src, csr, imm) = match self {
            RV32ZicsrInstruction::Csrrw(rd, src, csr) => (rd, src, csr, false),
            RV32ZicsrInstruction::Csrrs(rd, src, csr) => (rd, src, csr, false),
            RV32ZicsrInstruction::Csrrc(rd, src, csr) => (rd, src, csr, false),
            RV32ZicsrInstruction::Csrrwi(rd, src, csr) => (rd, src, csr, true),
            RV32ZicsrInstruction::Csrrsi(rd, src, csr) => (rd, src, csr, true),
            RV32ZicsrInstruction::Csrrci(rd, src, csr) => (rd, src, csr, true),
        };
        let old: u32 = match cpu.read_csr(csr) {
            Ok(v) => v,
            Err(t) => return Some(t),
        };
        let zimm: u8 = src & 0x1F;
        let operand: u32 = if imm {
            zimm as u32
        } else {
            cpu.regs.read(src)
        };
        let (writes, new): (bool, u32) = match self {
            RV32ZicsrInstruction::Csrrw(_, _, _) => (true, operand),
            RV32ZicsrInstruction::Csrrwi(_, _, _) => (true, operand),
            RV32ZicsrInstruction::Csrrs(_, _, _) => (src != 0, old | operand),
            RV32ZicsrInstruction::Csrrsi(_, _, _) => (zimm != 0, old | operand),
            RV32ZicsrInstruction::Csrrc(_, _, _) => (src != 0, old & !operand),
            RV32ZicsrInstruction::Csrrci(_, _, _) => (zimm != 0, old & !operand),
        };
        if writes {
            if let Some(t) = cpu.write_csr(csr, new) {
                return Some(t);
            }
        }
        cpu.regs.write(rd, old);
        None
    }
}

} // verus!
