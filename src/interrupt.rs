use crate::cpu::{HartState, RV32CSRs, RiscV32};
use crate::trap::{enter_machine, enter_supervisor, INTERRUPT_BIT};
use vstd::prelude::*;

verus! {

/// Interrupts pending and enabled for machine mode, and not delegated.
pub open spec fn pending_m(c: RV32CSRs) -> u32 {
    c.mie & c.mip & !c.mideleg
}

/// Interrupts pending and enabled for supervisor mode, and delegated.
pub open spec fn pending_s(c: RV32CSRs) -> u32 {
    c.sie & c.sip & c.mideleg
}

/// Whether interrupt `i` is taken in machine mode: pending there, with
/// `mstatus.MIE` set.
pub open spec fn m_ready(s: HartState, i: u32) -> bool {
    pending_m(s.csr) & (1u32 << i) != 0 && s.csr.mstatus & 8 != 0
}

/// Whether interrupt `i` is taken in supervisor mode: pending there, with
/// `sstatus.SIE` set.
pub open spec fn s_ready(s: HartState, i: u32) -> bool {
    pending_s(s.csr) & (1u32 << i) != 0 && s.csr.sstatus & 2 != 0
}

/// The interrupt bit examined in round `k` (6 down to 1): 11, 9, 7, 5, 3, 1.
pub open spec fn candidate(k: nat) -> u32 {
    (2 * k - 1) as u32
}

/// The state after examining the candidates of rounds `k` down to 1, highest
/// first: the first one ready is taken, in machine mode before supervisor
/// mode, and at most one is taken.
pub open spec fn scan_interrupts(s: HartState, k: nat) -> HartState
    decreases k,
{
    if k == 0 {
        s
    } else if m_ready(s, candidate(k)) {
        s.enter_m(INTERRUPT_BIT | candidate(k), 0)
    } else if s_ready(s, candidate(k)) {
        s.enter_s(INTERRUPT_BIT | candidate(k), 0)
    } else {
        scan_interrupts(s, (k - 1) as nat)
    }
}

/// The state after the interrupt check that precedes each fetch.
pub open spec fn interrupt_check(s: HartState) -> HartState {
    scan_interrupts(s, 6)
}

/// The interrupt check leaves RAM alone.
pub(crate) proof fn lemma_scan_keeps_ram(s: HartState, k: nat)
    ensures
        scan_interrupts(s, k).ram == s.ram,
    decreases k,
{
    if k > 0 {
        lemma_scan_keeps_ram(s, (k - 1) as nat);
    }
}

/// With no candidate above round `k` ready, the scan from the top reaches
/// round `k` untouched.
proof fn lemma_scan_skips_idle(s: HartState, k: nat, top: nat)
    requires
        k <= top <= 6,
        forall|j: nat| k < j <= 6 ==> !m_ready(s, #[trigger] candidate(j)) && !s_ready(
            s,
            candidate(j),
        ),
    ensures
        scan_interrupts(s, top) == scan_interrupts(s, k),
    decreases top,
{
    if top > k {
        lemma_scan_skips_idle(s, k, (top - 1) as nat);
    }
}

/// If machine interrupt `i` is pending, enabled and not delegated
/// (`mip & mie & !mideleg` has bit `i`) and `mstatus.MIE` is set, and no
/// interrupt of higher priority is ready, the check enters the machine-mode
/// handler: the next fetch is at the masked `mtvec`, `mcause` is
/// `0x8000_0000 | i`, and `mepc` holds the PC the hart was about to fetch.
pub proof fn lemma_machine_interrupt_taken(s: HartState, i: u32)
    requires
        i % 2 == 1,
        i <= 11,
        m_ready(s, i),
        forall|j: u32|
            i < j <= 11 && j % 2 == 1 ==> !m_ready(s, j) && !s_ready(s, j),
    ensures
        interrupt_check(s).pc == s.csr.mtvec & !3u32,
        interrupt_check(s).csr.mcause == INTERRUPT_BIT | i,
        interrupt_check(s).csr.mepc == s.pc,
        interrupt_check(s).privilege == 3,
{
    let k: nat = ((i + 1) / 2) as nat;
    assert(candidate(k) == i);
    assert forall|j: nat| k < j <= 6 implies !m_ready(s, #[trigger] candidate(j)) && !s_ready(
        s,
        candidate(j),
    ) by {
        let c = candidate(j);
        assert(i < c <= 11 && c % 2 == 1);
    }
    lemma_scan_skips_idle(s, k, 6);
}

/// Takes the highest-priority interrupt that is pending and enabled, if any.
pub fn check(cpu: &mut RiscV32)
    requires
        old(cpu).wf(),
    ensures
        final(cpu).wf(),
        final(cpu)@ == interrupt_check(old(cpu)@),
        final(cpu).status == old(cpu).status,
{
    let c: RV32CSRs = cpu.regs.csr;
    let pending_m: u32 = c.mie & c.mip & !c.mideleg;
    let pending_s: u32 = c.sie & c.sip & c.mideleg;
    let mut k: u32 = 6;
    while k > 0
        invariant
            k <= 6,
            cpu@ == old(cpu)@,
            cpu.wf(),
            pending_m == self::pending_m(old(cpu)@.csr),
            pending_s == self::pending_s(old(cpu)@.csr),
            interrupt_check(old(cpu)@) == scan_interrupts(old(cpu)@, k as nat),
        decreases k,
    {
        let i: u32 = 2 * k - 1;
        assert(i == candidate(k as nat));
        if pending_m & (1u32 << i) != 0 && cpu.regs.csr.mstatus & 8 != 0 {
            enter_machine(cpu, INTERRUPT_BIT | i, 0);
            return;
        }
        if pending_s & (1u32 << i) != 0 && cpu.regs.csr.sstatus & 2 != 0 {
            enter_supervisor(cpu, INTERRUPT_BIT | i, 0);
            return;
        }
        k = k - 1;
    }
}

} // verus!
