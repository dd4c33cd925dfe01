use crate::cpu::{HartState, RV32CSRs, RiscV32};
use crate::trap::Trap;
use vstd::prelude::*;

verus! {

/// User-level counters: open at every privilege.
pub open spec fn is_counter_csr(csr: u16) -> bool {
    0xC00 <= csr <= 0xC82
}

/// Supervisor-level CSRs: open to supervisor and machine mode.
pub open spec fn is_supervisor_csr(csr: u16) -> bool {
    csr == 0x100 || csr == 0x104 || csr == 0x105 || csr == 0x106 || csr == 0x10A || csr == 0x120
        || (0x140 <= csr <= 0x144) || csr == 0xDA0 || csr == 0x180 || csr == 0x5A8 || (0x10C <= csr
        <= 0x10F)
}

/// Machine-level CSRs, the PMP range included: open to machine mode only.
pub open spec fn is_machine_csr(csr: u16) -> bool {
    (0xF11 <= csr <= 0xF15) || (0x300 <= csr <= 0x306) || csr == 0x310 || csr == 0x312 || (0x340
        <= csr <= 0x344) || csr == 0x34A || csr == 0x34B || csr == 0x30A || csr == 0x31A || csr
        == 0x747 || csr == 0x757 || (0x3A0 <= csr <= 0x3EF)
}

/// Whether code at `privilege` may access `csr`.
pub open spec fn csr_allowed(privilege: u8, csr: u16) -> bool {
    is_counter_csr(csr) || ((privilege == 3 || privilege == 1) && is_supervisor_csr(csr)) || (
    privilege == 3 && is_machine_csr(csr))
}

/// The value `csr` reads as. Addresses without storage (the PMP range among
/// them) read zero.
pub open spec fn csr_value(c: RV32CSRs, csr: u16) -> u32 {
    if csr == 0xC00 {
        c.cycle
    } else if csr == 0xC01 {
        c.time
    } else if csr == 0xC02 {
        c.instret
    } else if csr == 0xC80 {
        c.cycleh
    } else if csr == 0xC81 {
        c.timeh
    } else if csr == 0xC82 {
        c.instreth
    } else if csr == 0x100 {
        c.sstatus
    } else if csr == 0x104 {
        c.sie
    } else if csr == 0x105 {
        c.stvec
    } else if csr == 0x140 {
        c.sscratch
    } else if csr == 0x141 {
        c.sepc
    } else if csr == 0x142 {
        c.scause
    } else if csr == 0x143 {
        c.stval
    } else if csr == 0x144 {
        c.sip
    } else if csr == 0x180 {
        c.satp
    } else if csr == 0xF11 {
        c.mvendorid
    } else if csr == 0xF12 {
        c.marchid
    } else if csr == 0xF13 {
        c.mimpid
    } else if csr == 0xF14 {
        c.mhartid
    } else if csr == 0x300 {
        c.mstatus
    } else if csr == 0x301 {
        c.misa
    } else if csr == 0x302 {
        c.medeleg
    } else if csr == 0x303 {
        c.mideleg
    } else if csr == 0x304 {
        c.mie
    } else if csr == 0x305 {
        c.mtvec
    } else if csr == 0x306 {
        c.mcounteren
    } else if csr == 0x340 {
        c.mscratch
    } else if csr == 0x341 {
        c.mepc
    } else if csr == 0x342 {
        c.mcause
    } else if csr == 0x343 {
        c.mtval
    } else if csr == 0x344 {
        c.mip
    } else {
        0
    }
}

/// Whether `csr` has a field in the CSR record.
pub open spec fn csr_stored(csr: u16) -> bool {
    (0xC00 <= csr <= 0xC02) || (0xC80 <= csr <= 0xC82) || csr == 0x100 || csr == 0x104 || csr
        == 0x105 || (0x140 <= csr <= 0x144) || csr == 0x180 || (0xF11 <= csr <= 0xF14) || (0x300
        <= csr <= 0x306) || (0x340 <= csr <= 0x344)
}

/// Whether `csr` stores what is written to it: every field but the read-only
/// vendor, architecture and hart identifiers.
pub open spec fn csr_writable(csr: u16) -> bool {
    csr_stored(csr) && csr != 0xF11 && csr != 0xF12 && csr != 0xF14
}

/// The PMP range: implementation-defined CSRs that read zero and drop writes.
pub open spec fn is_pmp_csr(csr: u16) -> bool {
    0x3A0 <= csr <= 0x3EF
}

/// Whether a read of `csr` at `privilege` succeeds: the access is allowed and
/// the address has a field or lies in the PMP range.
pub open spec fn csr_readable(privilege: u8, csr: u16) -> bool {
    csr_allowed(privilege, csr) && (csr_stored(csr) || is_pmp_csr(csr))
}

/// Whether a write of `csr` at `privilege` succeeds: the access is allowed and
/// the address has a writable field or lies in the PMP range.
pub open spec fn csr_write_ok(privilege: u8, csr: u16) -> bool {
    csr_allowed(privilege, csr) && (csr_writable(csr) || is_pmp_csr(csr))
}

/// The CSR file after writing `data` to `csr`.
pub open spec fn csr_update(c: RV32CSRs, csr: u16, data: u32) -> RV32CSRs {
    if csr == 0xC00 {
        RV32CSRs { cycle: data, ..c }
    } else if csr == 0xC01 {
        RV32CSRs { time: data, ..c }
    } else if csr == 0xC02 {
        RV32CSRs { instret: data, ..c }
    } else if csr == 0xC80 {
        RV32CSRs { cycleh: data, ..c }
    } else if csr == 0xC81 {
        RV32CSRs { timeh: data, ..c }
    } else if csr == 0xC82 {
        RV32CSRs { instreth: data, ..c }
    } else if csr == 0x100 {
        RV32CSRs { sstatus: data, ..c }
    } else if csr == 0x104 {
        RV32CSRs { sie: data, ..c }
    } else if csr == 0x105 {
        RV32CSRs { stvec: data, ..c }
    } else if csr == 0x140 {
        RV32CSRs { sscratch: data, ..c }
    } else if csr == 0x141 {
        RV32CSRs { sepc: data, ..c }
    } else if csr == 0x142 {
        RV32CSRs { scause: data, ..c }
    } else if csr == 0x143 {
        RV32CSRs { stval: data, ..c }
    } else if csr == 0x144 {
        RV32CSRs { sip: data, ..c }
    } else if csr == 0x180 {
        RV32CSRs { satp: data, ..c }
    } else if csr == 0xF13 {
        RV32CSRs { mimpid: data, ..c }
    } else if csr == 0x300 {
        RV32CSRs { mstatus: data, ..c }
    } else if csr == 0x301 {
        RV32CSRs { misa: data, ..c }
    } else if csr == 0x302 {
        RV32CSRs { medeleg: data, ..c }
    } else if csr == 0x303 {
        RV32CSRs { mideleg: data, ..c }
    } else if csr == 0x304 {
        RV32CSRs { mie: data, ..c }
    } else if csr == 0x305 {
        RV32CSRs { mtvec: data, ..c }
    } else if csr == 0x306 {
        RV32CSRs { mcounteren: data, ..c }
    } else if csr == 0x340 {
        RV32CSRs { mscratch: data, ..c }
    } else if csr == 0x341 {
        RV32CSRs { mepc: data, ..c }
    } else if csr == 0x342 {
        RV32CSRs { mcause: data, ..c }
    } else if csr == 0x343 {
        RV32CSRs { mtval: data, ..c }
    } else if csr == 0x344 {
        RV32CSRs { mip: data, ..c }
    } else {
        c
    }
}

/// A write that succeeds, followed by a read of the same CSR at the same
/// privilege, reads back what was written; the PMP range, which reads zero,
/// is the one exception.
pub proof fn lemma_csr_round_trip(c: RV32CSRs, privilege: u8, csr: u16, data: u32)
    requires
        csr_write_ok(privilege, csr),
        !is_pmp_csr(csr),
    ensures
        csr_readable(privilege, csr),
        csr_value(csr_update(c, csr, data), csr) == data,
{
}

impl RiscV32 {
    /// Whether the current privilege may access `csr`.
    pub fn check_privilege(&self, csr: u16) -> (r: bool)
        ensures
            r == csr_allowed(self.privilege, csr),
    {
        if csr >= 0xC00 && csr <= 0xC82 {
            return true;
        }
        if (self.privilege == 3 || self.privilege == 1) && (csr == 0x100 || csr == 0x104 || csr
            == 0x105 || csr == 0x106 || csr == 0x10A || csr == 0x120 || (csr >= 0x140 && csr
            <= 0x144) || csr == 0xDA0 || csr == 0x180 || csr == 0x5A8 || (csr >= 0x10C && csr
            <= 0x10F)) {
            return true;
        }
        self.privilege == 3 && ((csr >= 0xF11 && csr <= 0xF15) || (csr >= 0x300 && csr <= 0x306)
            || csr == 0x310 || csr == 0x312 || (csr >= 0x340 && csr <= 0x344) || csr == 0x34A
            || csr == 0x34B || csr == 0x30A || csr == 0x31A || csr == 0x747 || csr == 0x757 || (
        csr >= 0x3A0 && csr <= 0x3EF))
    }

    /// Reads `csr`. An access the current privilege does not allow, or one to
    /// an address with no field outside the PMP range, takes an
    /// illegal-instruction trap and returns it.
    pub fn read_csr(&mut self, csr: u16) -> (r: Result<u32, Trap>)
        requires
            old(self).wf(),
        ensures
            final(self).wf(),
            csr_readable(old(self).privilege, csr) ==> r == Ok::<u32, Trap>(
                csr_value(old(self).regs.csr, csr),
            ) && final(self)@ == old(self)@,
            !csr_readable(old(self).privilege, csr) ==> r == Err::<u32, Trap>(
                Trap::IllegalInstruction,
            ) && final(self)@ == old(self)@.take_trap(Trap::IllegalInstruction, 0),
    {
        if !self.check_privilege(csr) {
            return Err(Trap::IllegalInstruction.take(self, 0));
        }
        let c: &RV32CSRs = &self.regs.csr;
        let v: u32 = match csr {
            0xC00 => c.cycle,
            0xC01 => c.time,
            0xC02 => c.instret,
            0xC80 => c.cycleh,
            0xC81 => c.timeh,
            0xC82 => c.instreth,
            0x100 => c.sstatus,
            0x104 => c.sie,
            0x105 => c.stvec,
            0x140 => c.sscratch,
            0x141 => c.sepc,
            0x142 => c.scause,
            0x143 => c.stval,
            0x144 => c.sip,
            0x180 => c.satp,
            0xF11 => c.mvendorid,
            0xF12 => c.marchid,
            0xF13 => c.mimpid,
            0xF14 => c.mhartid,
            0x300 => c.mstatus,
            0x301 => c.misa,
            0x302 => c.medeleg,
            0x303 => c.mideleg,
            0x304 => c.mie,
            0x305 => c.mtvec,
            0x306 => c.mcounteren,
            0x340 => c.mscratch,
            0x341 => c.mepc,
            0x342 => c.mcause,
            0x343 => c.mtval,
            0x344 => c.mip,
            0x3A0..=0x3EF => 0,
            _ => {
                return Err(Trap::IllegalInstruction.take(self, 0));
            },
        };
        Ok(v)
    }

    /// Writes `data` to `csr`; the PMP range drops the write. An access the
    /// current privilege does not allow, or one to an address with no writable
    /// field outside the PMP range, takes an illegal-instruction trap and
    /// returns it.
    pub fn write_csr(&mut self, csr: u16, data: u32) -> (r: Option<Trap>)
        requires
            old(self).wf(),
        ensures
            final(self).wf(),
            csr_write_ok(old(self).privilege, csr) ==> r == None::<Trap> && final(self)@ == old(
                self,
            )@.set_csrs(csr_update(old(self).regs.csr, csr, data)),
            !csr_write_ok(old(self).privilege, csr) ==> r == Some(Trap::IllegalInstruction)
                && final(self)@ == old(self)@.take_trap(Trap::IllegalInstruction, 0),
    {
        if !self.check_privilege(csr) {
            return Some(Trap::IllegalInstruction.take(self, 0));
        }
        let c: &mut RV32CSRs = &mut self.regs.csr;
        match csr {
            0xC00 => c.cycle = data,
            0xC01 => c.time = data,
            0xC02 => c.instret = data,
            0xC80 => c.cycleh = data,
            0xC81 => c.timeh = data,
            0xC82 => c.instreth = data,
            0x100 => c.sstatus = data,
            0x104 => c.sie = data,
            0x105 => c.stvec = data,
            0x140 => c.sscratch = data,
            0x141 => c.sepc = data,
            0x142 => c.scause = data,
            0x143 => c.stval = data,
            0x144 => c.sip = data,
            0x180 => c.satp = data,
            0xF13 => c.mimpid = data,
            0x300 => c.mstatus = data,
            0x301 => c.misa = data,
            0x302 => c.medeleg = data,
            0x303 => c.mideleg = data,
            0x304 => c.mie = data,
            0x305 => c.mtvec = data,
            0x306 => c.mcounteren = data,
            0x340 => c.mscratch = data,
            0x341 => c.mepc = data,
            0x342 => c.mcause = data,
            0x343 => c.mtval = data,
            0x344 => c.mip = data,
            0x3A0..=0x3EF => {},
            _ => {
                return Some(Trap::IllegalInstruction.take(self, 0));
            },
        }
        None
    }
}

} // verus!
