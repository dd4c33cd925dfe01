use crate::cpu::{HartState, RV32CSRs, RiscV32};
use crate::extensions::Execute;
use vstd::prelude::*;

verus! {

/// Synchronous exception causes, in the order of their RISC-V cause codes.
#[derive(Debug, Clone, Copy, PartialEq, Eq, Structural)]
pub enum Trap {
    MisalignedInstructionAddress,
    InstructionAccessFault,
    IllegalInstruction,
    Breakpoint,
    MisalignedLoadAddr,
    LoadAccessFault,
    MisalignedStoreAddr,
    StoreAccessFault,
    UModeEnvCall,
    SModeEnvCall,
    VSModeEnvCall,
    MModeEnvCall,
    InstructionPageFault,
    LoadPageFault,
    Reserved,
    StorePageFault,
    InstructionGuestPageFault,
    LoadGuestPageFault,
    VirtualInstruction,
    StoreGuestPageFault,
}

/// The bit that marks an asynchronous cause in `mcause` / `scause`.
pub const INTERRUPT_BIT: u32 = 0x8000_0000;

impl Trap {
    /// The RISC-V exception code of this cause.
    pub open spec fn code(self) -> u32 {
        match self {
            Trap::MisalignedInstructionAddress => 0,
            Trap::InstructionAccessFault => 1,
            Trap::IllegalInstruction => 2,
            Trap::Breakpoint => 3,
            Trap::MisalignedLoadAddr => 4,
            Trap::LoadAccessFault => 5,
            Trap::MisalignedStoreAddr => 6,
            Trap::StoreAccessFault => 7,
            Trap::UModeEnvCall => 8,
            Trap::SModeEnvCall => 9,
            Trap::VSModeEnvCall => 10,
            Trap::MModeEnvCall => 11,
            Trap::InstructionPageFault => 12,
            Trap::LoadPageFault => 13,
            Trap::Reserved => 14,
            Trap::StorePageFault => 15,
            Trap::InstructionGuestPageFault => 16,
            Trap::LoadGuestPageFault => 17,
            Trap::VirtualInstruction => 18,
            Trap::StoreGuestPageFault => 19,
        }
    }

    pub fn cause(&self) -> (r: u32)
        ensures
            r == self.code(),
            r < 20,
    {
        match self {
            Trap::MisalignedInstructionAddress => 0,
            Trap::InstructionAccessFault => 1,
            Trap::IllegalInstruction => 2,
            Trap::Breakpoint => 3,
            Trap::MisalignedLoadAddr => 4,
            Trap::LoadAccessFault => 5,
            Trap::MisalignedStoreAddr => 6,
            Trap::StoreAccessFault => 7,
            Trap::UModeEnvCall => 8,
            Trap::SModeEnvCall => 9,
            Trap::VSModeEnvCall => 10,
            Trap::MModeEnvCall => 11,
            Trap::InstructionPageFault => 12,
            Trap::LoadPageFault => 13,
            Trap::Reserved => 14,
            Trap::StorePageFault => 15,
            Trap::InstructionGuestPageFault => 16,
            Trap::LoadGuestPageFault => 17,
            Trap::VirtualInstruction => 18,
            Trap::StoreGuestPageFault => 19,
        }
    }

    /// Takes this trap for the instruction at the current PC, with `tval` as
    /// the trap value, and returns it.
    pub fn take(self, cpu: &mut RiscV32, tval: u32) -> (r: Trap)
        requires
            old(cpu).wf(),
        ensures
            r == self,
            final(cpu).wf(),
            final(cpu)@ == old(cpu)@.take_trap(self, tval),
            final(cpu).status == old(cpu).status,
    {
        let cause: u32 = self.cause();
        if cpu.privilege < 3 && cpu.regs.csr.medeleg & (1u32 << cause) != 0 {
            enter_supervisor(cpu, cause, tval);
        } else {
            enter_machine(cpu, cause, tval);
        }
        self
    }
}

/// `mstatus` on entry to a machine-mode handler from privilege `p`: MPP takes
/// `p`, MPIE takes MIE, and MIE is cleared.
pub open spec fn mstatus_on_trap(mstatus: u32, p: u8) -> u32 {
    (mstatus & !0x1888u32) | (((p & 3) as u32) << 11u32) | (((mstatus >> 3u32) & 1) << 7u32)
}

/// `sstatus` on entry to a supervisor-mode handler from privilege `p`: SPP
/// takes the low bit of `p`, SPIE takes SIE, and SIE is cleared.
pub open spec fn sstatus_on_trap(sstatus: u32, p: u8) -> u32 {
    (sstatus & !0x122u32) | (((p & 1) as u32) << 8u32) | (((sstatus >> 1u32) & 1) << 5u32)
}

/// `mstatus` after MRET: MIE takes MPIE, MPIE is set, MPP becomes user.
pub open spec fn mstatus_on_mret(mstatus: u32) -> u32 {
    (mstatus & !0x1888u32) | (((mstatus >> 7u32) & 1) << 3u32) | 0x80u32
}

/// `sstatus` after SRET: SIE takes SPIE, SPIE is set, SPP becomes user.
pub open spec fn sstatus_on_sret(sstatus: u32) -> u32 {
    (sstatus & !0x122u32) | (((sstatus >> 5u32) & 1) << 1u32) | 0x20u32
}

impl HartState {
    /// Entry into the machine-mode handler with `cause` and `tval`.
    pub open spec fn enter_m(self, cause: u32, tval: u32) -> HartState {
        HartState {
            pc: self.csr.mtvec & !3u32,
            privilege: 3,
            csr: RV32CSRs {
                mepc: self.pc,
                mcause: cause,
                mtval: tval,
                mstatus: mstatus_on_trap(self.csr.mstatus, self.privilege),
                ..self.csr
            },
            ..self
        }
    }

    /// Entry into the supervisor-mode handler with `cause` and `tval`.
    pub open spec fn enter_s(self, cause: u32, tval: u32) -> HartState {
        HartState {
            pc: self.csr.stvec & !3u32,
            privilege: 1,
            csr: RV32CSRs {
                sepc: self.pc,
                scause: cause,
                stval: tval,
                sstatus: sstatus_on_trap(self.csr.sstatus, self.privilege),
                ..self.csr
            },
            ..self
        }
    }

    /// Whether `medeleg` hands exception `t` to supervisor mode from the
    /// current privilege.
    pub open spec fn delegates(self, t: Trap) -> bool {
        self.privilege < 3 && self.csr.medeleg & (1u32 << t.code()) != 0
    }

    /// The state after taking exception `t` at the current PC.
    pub open spec fn take_trap(self, t: Trap, tval: u32) -> HartState {
        if self.delegates(t) {
            self.enter_s(t.code(), tval)
        } else {
            self.enter_m(t.code(), tval)
        }
    }
}

/// Enters the machine-mode handler with `cause` and `tval`.
pub fn enter_machine(cpu: &mut RiscV32, cause: u32, tval: u32)
    requires
        old(cpu).wf(),
    ensures
        final(cpu).wf(),
        final(cpu)@ == old(cpu)@.enter_m(cause, tval),
{
    let mstatus: u32 = cpu.regs.csr.mstatus;
    cpu.regs.csr.mepc = cpu.regs.pc;
    cpu.regs.csr.mcause = cause;
    cpu.regs.csr.mtval = tval;
    cpu.regs.csr.mstatus = (mstatus & !0x1888u32) | (((cpu.privilege & 3) as u32) << 11u32) | (((
    mstatus >> 3u32) & 1) << 7u32);
    cpu.privilege = 3;
    cpu.regs.pc = cpu.regs.csr.mtvec & !3u32;
}

/// Enters the supervisor-mode handler with `cause` and `tval`.
pub fn enter_supervisor(cpu: &mut RiscV32, cause: u32, tval: u32)
    requires
        old(cpu).wf(),
    ensures
        final(cpu).wf(),
        final(cpu)@ == old(cpu)@.enter_s(cause, tval),
{
    let sstatus: u32 = cpu.regs.csr.sstatus;
    cpu.regs.csr.sepc = cpu.regs.pc;
    cpu.regs.csr.scause = cause;
    cpu.regs.csr.stval = tval;
    cpu.regs.csr.sstatus = (sstatus & !0x122u32) | (((cpu.privilege & 1) as u32) << 8u32) | (((
    sstatus >> 1u32) & 1) << 5u32);
    cpu.privilege = 1;
    cpu.regs.pc = cpu.regs.csr.stvec & !3u32;
}

/// Returns from a machine- or supervisor-mode handler.
#[derive(Debug, Clone, Copy, PartialEq, Eq, Structural)]
pub enum TrapRetInstruction {
    Sret,
    Mret,
}

impl Execute for TrapRetInstruction {
    /// MRET (from machine mode) and SRET (from supervisor or machine mode)
    /// resume at the saved PC, restore the privilege and interrupt enable;
    /// from a lower privilege they are illegal. The PC is left 4 short of the
    /// target, as the step adds 4 after every instruction that does not trap.
    open spec fn effect(self, s: HartState) -> (HartState, Option<Trap>) {
        match self {
            TrapRetInstruction::Mret => if s.privilege == 3 {
                (
                    HartState {
                        pc: s.csr.mepc.wrapping_sub(4),
                        privilege: ((s.csr.mstatus >> 11u32) & 3) as u8,
                        csr: RV32CSRs { mstatus: mstatus_on_mret(s.csr.mstatus), ..s.csr },
                        ..s
                    },
                    None,
                )
            } else {
                (s.take_trap(Trap::IllegalInstruction, 0), Some(Trap::IllegalInstruction))
            },
            TrapRetInstruction::Sret => if s.privilege == 3 || s.privilege == 1 {
                (
                    HartState {
                        pc: s.csr.sepc.wrapping_sub(4),
                        privilege: ((s.csr.sstatus >> 8u32) & 1) as u8,
                        csr: RV32CSRs { sstatus: sstatus_on_sret(s.csr.sstatus), ..s.csr },
                        ..s
                    },
                    None,
                )
            } else {
                (s.take_trap(Trap::IllegalInstruction, 0), Some(Trap::IllegalInstruction))
            },
        }
    }

    fn execute(self, cpu: &mut RiscV32) -> (r: Option<Trap>) {
        match self {
            TrapRetInstruction::Mret => {
                if cpu.privilege != 3 {
                    return Some(Trap::IllegalInstruction.take(cpu, 0));
                }
                let mstatus: u32 = cpu.regs.csr.mstatus;
                cpu.regs.pc = cpu.regs.csr.mepc.wrapping_sub(4);
                cpu.privilege = ((mstatus >> 11u32) & 3) as u8;
                cpu.regs.csr.mstatus = (mstatus & !0x1888u32) | (((mstatus >> 7u32) & 1) << 3u32)
                    | 0x80u32;
                None
            },
            TrapRetInstruction::Sret => {
                if cpu.privilege != 3 && cpu.privilege != 1 {
                    return Some(Trap::IllegalInstruction.take(cpu, 0));
                }
                let sstatus: u32 = cpu.regs.csr.sstatus;
                cpu.regs.pc = cpu.regs.csr.sepc.wrapping_sub(4);
                cpu.privilege = ((sstatus >> 8u32) & 1) as u8;
                cpu.regs.csr.sstatus = (sstatus & !0x122u32) | (((sstatus >> 5u32) & 1) << 1u32)
                    | 0x20u32;
                None
            },
        }
    }
}

} // verus!
