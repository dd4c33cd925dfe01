use crate::cpu::{HartState, RiscV32};
use crate::trap::Trap;
use vstd::prelude::*;

pub mod rv32a;
pub mod rv32i;
pub mod rv32m;
pub mod rv32zicsr;

verus! {

/// A decoded instruction that runs on the hart.
pub trait Execute: Sized {
    /// The state after running `self` from `s`, and the trap it raised, if
    /// any. A trap has been taken already: the PC is at the handler.
    spec fn effect(self, s: HartState) -> (HartState, Option<Trap>);

    fn execute(self, cpu: &mut RiscV32) -> (r: Option<Trap>)
        requires
            old(cpu).wf(),
        ensures
            final(cpu).wf(),
            final(cpu).status == old(cpu).status,
            (final(cpu)@, r) == self.effect(old(cpu)@),
    ;
}

} // verus!
