use crate::cpu::{HartState, RV32CSRs, RiscV32};
use crate::memory::{le64, put64};
use vstd::prelude::*;

verus! {

pub const CLINT_BASE: usize = 0x0200_0000;

/// Address of the 64-bit `mtime` counter.
pub const CLINT_MTIME: usize = 0x0200_BFF8;

/// Address of the 64-bit `mtimecmp` register.
pub const CLINT_MTIMECMP: usize = 0x0200_4000;

/// The machine timer interrupt pending bit (MTIP) of `mip`.
pub const MIP_MTIP: u32 = 0x80;

pub open spec fn mtime(ram: Seq<u8>) -> u64 {
    le64(ram, CLINT_MTIME as int)
}

pub open spec fn mtimecmp(ram: Seq<u8>) -> u64 {
    le64(ram, CLINT_MTIMECMP as int)
}

/// `mip` with MTIP set when `time` has reached `cmp`, and cleared otherwise.
pub open spec fn mip_for(mip: u32, time: u64, cmp: u64) -> u32 {
    if time >= cmp {
        mip | MIP_MTIP
    } else {
        mip & !MIP_MTIP
    }
}

/// One timer tick: `mtime` goes up by one (wrapping), then MTIP follows the
/// comparison with `mtimecmp`.
pub open spec fn tick(s: HartState) -> HartState {
    let t = mtime(s.ram).wrapping_add(1);
    let ram = put64(s.ram, CLINT_MTIME as int, t);
    HartState {
        ram,
        csr: RV32CSRs { mip: mip_for(s.csr.mip, t, mtimecmp(ram)), ..s.csr },
        ..s
    }
}

fn check_cmp(time: u64, cpu: &mut RiscV32)
    requires
        old(cpu).wf(),
    ensures
        final(cpu).wf(),
        final(cpu)@ == old(cpu)@.set_csrs(
            RV32CSRs {
                mip: mip_for(old(cpu)@.csr.mip, time, mtimecmp(old(cpu)@.ram)),
                ..old(cpu)@.csr
            },
        ),
{
    if time >= cpu.mem.read_double_word(CLINT_MTIMECMP) {
        cpu.regs.csr.mip = cpu.regs.csr.mip | MIP_MTIP;
    } else {
        cpu.regs.csr.mip = cpu.regs.csr.mip & !MIP_MTIP;
    }
}

/// Advances `mtime` by one and updates MTIP.
pub fn update(cpu: &mut RiscV32)
    requires
        old(cpu).wf(),
    ensures
        final(cpu).wf(),
        final(cpu)@ == tick(old(cpu)@),
        final(cpu).status == old(cpu).status,
{
    let time: u64 = cpu.mem.read_double_word(CLINT_MTIME).wrapping_add(1);
    cpu.mem.write_double_word(CLINT_MTIME, time);
    check_cmp(time, cpu);
}

} // verus!
