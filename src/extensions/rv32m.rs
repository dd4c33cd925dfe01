use crate::cpu::{HartState, RiscV32};
use crate::extensions::Execute;
use crate::trap::Trap;
use vstd::prelude::*;

verus! {

/// Integer multiplication and division: `(rd, rs1, rs2)`.
#[derive(Debug, Clone, Copy, PartialEq, Eq, Structural)]
pub enum RV32MInstruction {
    Mul(u8, u8, u8),
    Mulh(u8, u8, u8),
    Mulhsu(u8, u8, u8),
    Mulhu(u8, u8, u8),
    Div(u8, u8, u8),
    Divu(u8, u8, u8),
    Rem(u8, u8, u8),
    Remu(u8, u8, u8),
}

pub open spec fn abs(x: int) -> int {
    if x < 0 {
        -x
    } else {
        x
    }
}

/// High 32 bits of the 64-bit product, both operands signed.
pub open spec fn mulh(a: u32, b: u32) -> u32 {
    ((((a as i32) as int) * ((b as i32) as int)) as i64 >> 32u64) as u32
}

/// High 32 bits of the 64-bit product, `a` signed and `b` unsigned.
pub open spec fn mulhsu(a: u32, b: u32) -> u32 {
    ((((a as i32) as int) * (b as int)) as i64 >> 32u64) as u32
}

/// High 32 bits of the 64-bit product, both operands unsigned.
pub open spec fn mulhu(a: u32, b: u32) -> u32 {
    (((a as int) * (b as int)) as u64 >> 32u64) as u32
}

/// Signed division rounding toward zero. Division by zero gives all ones;
/// the one overflowing case, -2^31 / -1, gives -2^31.
pub open spec fn div(a: u32, b: u32) -> u32 {
    let x = (a as i32) as int;
    let y = (b as i32) as int;
    if y == 0 {
        0xFFFF_FFFF
    } else {
        let q = (abs(x) / abs(y)) as u32;
        if (x < 0) != (y < 0) {
            0u32.wrapping_sub(q)
        } else {
            q
        }
    }
}

/// Unsigned division; division by zero gives all ones.
pub open spec fn divu(a: u32, b: u32) -> u32 {
    if b == 0 {
        0xFFFF_FFFF
    } else {
        a / b
    }
}

/// Remainder of the signed division, with the sign of the dividend;
/// division by zero gives the dividend.
pub open spec fn rem(a: u32, b: u32) -> u32 {
    let x = (a as i32) as int;
    let y = (b as i32) as int;
    if y == 0 {
        a
    } else {
        let r = (abs(x) % abs(y)) as u32;
        if x < 0 {
            0u32.wrapping_sub(r)
        } else {
            r
        }
    }
}

/// Remainder of the unsigned division; division by zero gives the dividend.
pub open spec fn remu(a: u32, b: u32) -> u32 {
    if b == 0 {
        a
    } else {
        a % b
    }
}

impl RV32MInstruction {
    /// The value written to `rd` from the source operands.
    pub open spec fn result(self, a: u32, b: u32) -> u32 {
        match self {
            RV32MInstruction::Mul(_, _, _) => a.wrapping_mul(b),
            RV32MInstruction::Mulh(_, _, _) => mulh(a, b),
            RV32MInstruction::Mulhsu(_, _, _) => mulhsu(a, b),
            RV32MInstruction::Mulhu(_, _, _) => mulhu(a, b),
            RV32MInstruction::Div(_, _, _) => div(a, b),
            RV32MInstruction::Divu(_, _, _) => divu(a, b),
            RV32MInstruction::Rem(_, _, _) => rem(a, b),
            RV32MInstruction::Remu(_, _, _) => remu(a, b),
        }
    }

    pub open spec fn operands(self) -> (u8, u8, u8) {
        match self {
            RV32MInstruction::Mul(rd, rs1, rs2) => (rd, rs1, rs2),
            RV32MInstruction::Mulh(rd, rs1, rs2) => (rd, rs1, rs2),
            RV32MInstruction::Mulhsu(rd, rs1, rs2) => (rd, rs1, rs2),
            RV32MInstruction::Mulhu(rd, rs1, rs2) => (rd, rs1, rs2),
            RV32MInstruction::Div(rd, rs1, rs2) => (rd, rs1, rs2),
            RV32MInstruction::Divu(rd, rs1, rs2) => (rd, rs1, rs2),
            RV32MInstruction::Rem(rd, rs1, rs2) => (rd, rs1, rs2),
            RV32MInstruction::Remu(rd, rs1, rs2) => (rd, rs1, rs2),
        }
    }
}

/// `|v|` of `v` read as a two's-complement number, and whether it is negative.
fn magnitude(v: u32) -> (r: (u32, bool))
    ensures
        r.0 as int == abs((v as i32) as int),
        r.1 == ((v as i32) < 0),
        r.0 <= 0x8000_0000,
        r.0 == 0 <==> v == 0,
{
    assert(v == 0 <==> (v as i32) == 0) by (bit_vector);
    let x: i32 = #[verifier::truncate] (v as i32);
    if x < 0 {
        (#[verifier::truncate] ((-(x as i64)) as u32), true)
    } else {
        (x as u32, false)
    }
}

fn compute(op: RV32MInstruction, a: u32, b: u32) -> (r: u32)
    ensures
        r == op.result(a, b),
{
    match op {
        RV32MInstruction::Mul(_, _, _) => a.wrapping_mul(b),
        RV32MInstruction::Mulh(_, _, _) => {
            let x: i64 = (#[verifier::truncate] (a as i32)) as i64;
            let y: i64 = (#[verifier::truncate] (b as i32)) as i64;
            assert(-0x8000_0000 <= x <= 0x7FFF_FFFF && -0x8000_0000 <= y <= 0x7FFF_FFFF);
            assert(-0x4000_0000_0000_0000 <= x * y <= 0x4000_0000_0000_0000) by (nonlinear_arith)
                requires
                    -0x8000_0000 <= x <= 0x7FFF_FFFF,
                    -0x8000_0000 <= y <= 0x7FFF_FFFF,
            ;
            let p: i64 = x * y;
            #[verifier::truncate]
            ((p >> 32u64) as u32)
        },
        RV32MInstruction::Mulhsu(_, _, _) => {
            let x: i64 = (#[verifier::truncate] (a as i32)) as i64;
            let y: i64 = b as i64;
            assert(-0x8000_0000 <= x <= 0x7FFF_FFFF && 0 <= y <= 0xFFFF_FFFF);
            assert(-0x8000_0000_0000_0000 < x * y < 0x8000_0000_0000_0000) by (nonlinear_arith)
                requires
                    -0x8000_0000 <= x <= 0x7FFF_FFFF,
                    0 <= y <= 0xFFFF_FFFF,
            ;
            let p: i64 = x * y;
            #[verifier::truncate]
            ((p >> 32u64) as u32)
        },
        RV32MInstruction::Mulhu(_, _, _) => {
            let x: u64 = a as u64;
            let y: u64 = b as u64;
            assert(x * y <= 0xFFFF_FFFE_0000_0001) by (nonlinear_arith)
                requires
                    x <= 0xFFFF_FFFF,
                    y <= 0xFFFF_FFFF,
            ;
            let p: u64 = x * y;
            #[verifier::truncate]
            ((p >> 32u64) as u32)
        },
        RV32MInstruction::Div(_, _, _) => {
            if b == 0 {
                return 0xFFFF_FFFF;
            }
            let (ua, na) = magnitude(a);
            let (ub, nb) = magnitude(b);
            let q: u32 = ua / ub;
            if na != nb {
                0u32.wrapping_sub(q)
            } else {
                q
            }
        },
        RV32MInstruction::Divu(_, _, _) => {
            if b == 0 {
                0xFFFF_FFFF
            } else {
                a / b
            }
        },
        RV32MInstruction::Rem(_, _, _) => {
            if b == 0 {
                return a;
            }
            let (ua, na) = magnitude(a);
            let (ub, _) = magnitude(b);
            let r: u32 = ua % ub;
            if na {
                0u32.wrapping_sub(r)
            } else {
                r
            }
        },
        RV32MInstruction::Remu(_, _, _) => {
            if b == 0 {
                a
            } else {
                a % b
            }
        },
    }
}

impl Execute for RV32MInstruction {
    open spec fn effect(self, s: HartState) -> (HartState, Option<Trap>) {
        let (rd, rs1, rs2) = self.operands();
        (s.set_reg(rd, self.result(s.reg(rs1), s.reg(rs2))), None)
    }

    fn execute(self, cpu: &mut RiscV32) -> (r: Option<Trap>) {
        let (rd, rs1, rs2) = match self {
            RV32MInstruction::Mul(rd, rs1, rs2) => (rd, rs1, rs2),
            RV32MInstruction::Mulh(rd, rs1, rs2) => (rd, rs1, rs2),
            RV32MInstruction::Mulhsu(rd, rs1, rs2) => (rd, rs1, rs2),
            RV32MInstruction::Mulhu(rd, rs1, rs2) => (rd, rs1, rs2),
            RV32MInstruction::Div(rd, rs1, rs2) => (rd, rs1, rs2),
            RV32MInstruction::Divu(rd, rs1, rs2) => (rd, rs1, rs2),
            RV32MInstruction::Rem(rd, rs1, rs2) => (rd, rs1, rs2),
            RV32MInstruction::Remu(rd, rs1, rs2) => (rd, rs1, rs2),
        };
        let v: u32 = compute(self, cpu.regs.read(rs1), cpu.regs.read(rs2));
        cpu.regs.write(rd, v);
        None
    }
}

} // verus!
