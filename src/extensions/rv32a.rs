use crate::cpu::{HartState, RiscV32};
use crate::extensions::rv32i::{raise, store_word, store_word_effect};
use crate::extensions::Execute;
use crate::memory::{le32, put32};
use crate::trap::Trap;
use crate::uart::{in_uart, match_addr};
use vstd::prelude::*;

verus! {

/// Atomic memory operations on the word at `[rs1]`: `(rd, rs1, rs2)`. With a
/// single hart there is no reservation to track, so SC.W always succeeds.
#[derive(Debug, Clone, Copy, PartialEq, Eq, Structural)]
pub enum RV32AInstruction {
    ScW(u8, u8, u8),
    AmoswapW(u8, u8, u8),
    AmoaddW(u8, u8, u8),
    AmoxorW(u8, u8, u8),
    AmoandW(u8, u8, u8),
    AmoorW(u8, u8, u8),
    AmominW(u8, u8, u8),
    AmomaxW(u8, u8, u8),
    AmominuW(u8, u8, u8),
    AmomaxuW(u8, u8, u8),
}

impl RV32AInstruction {
    pub open spec fn operands(self) -> (u8, u8, u8) {
        match self {
            RV32AInstruction::ScW(rd, rs1, rs2) => (rd, rs1, rs2),
            RV32AInstruction::AmoswapW(rd, rs1, rs2) => (rd, rs1, rs2),
            RV32AInstruction::AmoaddW(rd, rs1, rs2) => (rd, rs1, rs2),
            RV32AInstruction::AmoxorW(rd, rs1, rs2) => (rd, rs1, rs2),
            RV32AInstruction::AmoandW(rd, rs1, rs2) => (rd, rs1, rs2),
            RV32AInstruction::AmoorW(rd, rs1, rs2) => (rd, rs1, rs2),
            RV32AInstruction::AmominW(rd, rs1, rs2) => (rd, rs1, rs2),
            RV32AInstruction::AmomaxW(rd, rs1, rs2) => (rd, rs1, rs2),
            RV32AInstruction::AmominuW(rd, rs1, rs2) => (rd, rs1, rs2),
            RV32AInstruction::AmomaxuW(rd, rs1, rs2) => (rd, rs1, rs2),
        }
    }

    /// The word an AMO stores, from the source register `src` and the word
    /// `old` found in memory.
    pub open spec fn combine(self, src: u32, old: u32) -> u32 {
        match self {
            RV32AInstruction::ScW(_, _, _) => src,
            RV32AInstruction::AmoswapW(_, _, _) => src,
            RV32AInstruction::AmoaddW(_, _, _) => src.wrapping_add(old),
            RV32AInstruction::AmoxorW(_, _, _) => src ^ old,
            RV32AInstruction::AmoandW(_, _, _) => src & old,
            RV32AInstruction::AmoorW(_, _, _) => src | old,
            RV32AInstruction::AmominW(_, _, _) => if (src as i32) < (old as i32) {
                src
            } else {
                old
            },
            RV32AInstruction::AmomaxW(_, _, _) => if (src as i32) > (old as i32) {
                src
            } else {
                old
            },
            RV32AInstruction::AmominuW(_, _, _) => if src < old {
                src
            } else {
                old
            },
            RV32AInstruction::AmomaxuW(_, _, _) => if src > old {
                src
            } else {
                old
            },
        }
    }
}

fn combine(op: RV32AInstruction, src: u32, old: u32) -> (r: u32)
    ensures
        r == op.combine(src, old),
{
    let s: i32 = #[verifier::truncate] (src as i32);
    let o: i32 = #[verifier::truncate] (old as i32);
    match op {
        RV32AInstruction::ScW(_, _, _) => src,
        RV32AInstruction::AmoswapW(_, _, _) => src,
        RV32AInstruction::AmoaddW(_, _, _) => src.wrapping_add(old),
        RV32AInstruction::AmoxorW(_, _, _) => src ^ old,
        RV32AInstruction::AmoandW(_, _, _) => src & old,
        RV32AInstruction::AmoorW(_, _, _) => src | old,
        RV32AInstruction::AmominW(_, _, _) => if s < o {
            src
        } else {
            old
        },
        RV32AInstruction::AmomaxW(_, _, _) => if s > o {
            src
        } else {
            old
        },
        RV32AInstruction::AmominuW(_, _, _) => if src < old {
            src
        } else {
            old
        },
        RV32AInstruction::AmomaxuW(_, _, _) => if src > old {
            src
        } else {
            old
        },
    }
}

impl Execute for RV32AInstruction {
    /// SC.W stores `rs2` and reports success with 0 in `rd`; an AMO loads the
    /// word, stores its combination with `rs2`, and puts the loaded word in
    /// `rd`. The UART window and addresses past the end of RAM fault.
    open spec fn effect(self, s: HartState) -> (HartState, Option<Trap>) {
        let (rd, rs1, rs2) = self.operands();
        let a = s.reg(rs1);
        match self {
            RV32AInstruction::ScW(_, _, _) => {
                let (t, r) = store_word_effect(s, a, s.reg(rs2));
                if r is None {
                    (t.set_reg(rd, 0), None)
                } else {
                    (t, r)
                }
            },
            _ => if in_uart(a) || a + 4 > s.ram.len() {
                raise(s, Trap::StoreAccessFault, a)
            } else {
                let old = le32(s.ram, a as int);
                (
                    s.set_ram(put32(s.ram, a as int, self.combine(s.reg(rs2), old))).set_reg(
                        rd,
                        old,
                    ),
                    None,
                )
            },
        }
    }

    fn execute(self, cpu: &mut RiscV32) -> (r: Option<Trap>) {
        let (rd, rs1, rs2) = match self {
            RV32AInstruction::ScW(rd, rs1, rs2) => (rd, rs1, rs2),
            RV32AInstruction::AmoswapW(rd, rs1, rs2) => (rd, rs1, rs2),
            RV32AInstruction::AmoaddW(rd, rs1, rs2) => (rd, rs1, rs2),
            RV32AInstruction::AmoxorW(rd, rs1, rs2) => (rd, rs1, rs2),
            RV32AInstruction::AmoandW(rd, rs1, rs2) => (rd, rs1, rs2),
            RV32AInstruction::AmoorW(rd, rs1, rs2) => (rd, rs1, rs2),
            RV32AInstruction::AmominW(rd, rs1, rs2) => (rd, rs1, rs2),
            RV32AInstruction::AmomaxW(rd, rs1, rs2) => (rd, rs1, rs2),
            RV32AInstruction::AmominuW(rd, rs1, rs2) => (rd, rs1, rs2),
            RV32AInstruction::AmomaxuW(rd, rs1, rs2) => (rd, rs1, rs2),
        };
        let a: u32 = cpu.regs.read(rs1);
        let src: u32 = cpu.regs.read(rs2);
        if let RV32AInstruction::ScW(_, _, _) = self {
            let r: Option<Trap> = store_word(cpu, a, src);
            if r.is_none() {
                cpu.regs.write(rd, 0);
            }
            return r;
        }
        if match_addr(a) || a as usize >= cpu.mem.ram.len() || cpu.mem.ram.len() - (a as usize) < 4 {
            return Some(Trap::StoreAccessFault.take(cpu, a));
        }
        let old: u32 = cpu.mem.read_word(a as usize);
        cpu.mem.write_word(a as usize, combine(self, src, old));
        cpu.regs.write(rd, old);
        None
    }
}

} // verus!
