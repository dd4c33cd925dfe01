use crate::decode::{decoded, lemma_execute_keeps_ram_size, rv32_decode, RV32Instruction};
use crate::extensions::rv32i::raise;
use crate::extensions::Execute;
use crate::interrupt::{check, interrupt_check, lemma_scan_keeps_ram};
use crate::memory::{lemma_double_word_round_trip, le32, put64, RV32Memory};
use crate::timer::{mtime, tick, update, CLINT_MTIME, CLINT_MTIMECMP};
use crate::trap::Trap;
use crate::uart::UART;
use vstd::prelude::*;

verus! {

/// The smallest RAM a hart runs with: it has to hold the CLINT registers.
pub const MIN_RAM_SIZE: usize = 0x0200_C000;

/// `misa` at reset: XLEN = 32 with the I, M, A, S and U extensions.
pub const MISA_RV32IMASU: u32 = 0x4014_1101;

/// The control and status registers that have storage.
#[derive(Clone, Copy)]
pub struct RV32CSRs {
    pub mstatus: u32,
    pub misa: u32,
    pub medeleg: u32,
    pub mideleg: u32,
    pub mie: u32,
    pub mtvec: u32,
    pub mcounteren: u32,
    pub mscratch: u32,
    pub mepc: u32,
    pub mcause: u32,
    pub mtval: u32,
    pub mip: u32,
    pub mhartid: u32,
    pub mvendorid: u32,
    pub marchid: u32,
    pub mimpid: u32,
    pub sstatus: u32,
    pub sie: u32,
    pub stvec: u32,
    pub sscratch: u32,
    pub sepc: u32,
    pub scause: u32,
    pub stval: u32,
    pub sip: u32,
    pub satp: u32,
    pub cycle: u32,
    pub time: u32,
    pub instret: u32,
    pub cycleh: u32,
    pub timeh: u32,
    pub instreth: u32,
}

/// Every CSR zero.
pub open spec fn zero_csrs() -> RV32CSRs {
    RV32CSRs {
        mstatus: 0,
        misa: 0,
        medeleg: 0,
        mideleg: 0,
        mie: 0,
        mtvec: 0,
        mcounteren: 0,
        mscratch: 0,
        mepc: 0,
        mcause: 0,
        mtval: 0,
        mip: 0,
        mhartid: 0,
        mvendorid: 0,
        marchid: 0,
        mimpid: 0,
        sstatus: 0,
        sie: 0,
        stvec: 0,
        sscratch: 0,
        sepc: 0,
        scause: 0,
        stval: 0,
        sip: 0,
        satp: 0,
        cycle: 0,
        time: 0,
        instret: 0,
        cycleh: 0,
        timeh: 0,
        instreth: 0,
    }
}

impl RV32CSRs {
    pub fn zeroed() -> (r: RV32CSRs)
        ensures
            r == zero_csrs(),
    {
        RV32CSRs {
            mstatus: 0,
            misa: 0,
            medeleg: 0,
            mideleg: 0,
            mie: 0,
            mtvec: 0,
            mcounteren: 0,
            mscratch: 0,
            mepc: 0,
            mcause: 0,
            mtval: 0,
            mip: 0,
            mhartid: 0,
            mvendorid: 0,
            marchid: 0,
            mimpid: 0,
            sstatus: 0,
            sie: 0,
            stvec: 0,
            sscratch: 0,
            sepc: 0,
            scause: 0,
            stval: 0,
            sip: 0,
            satp: 0,
            cycle: 0,
            time: 0,
            instret: 0,
            cycleh: 0,
            timeh: 0,
            instreth: 0,
        }
    }
}

/// The value register `reg` reads as: x0 and indices past x31 read zero.
pub open spec fn reg_value(x: Seq<u32>, reg: u8) -> u32 {
    if 0 < reg < 32 {
        x[reg as int]
    } else {
        0
    }
}

/// The register file after writing `data` to `reg`: writes to x0, and to
/// indices past x31, are dropped.
pub open spec fn with_reg(x: Seq<u32>, reg: u8, data: u32) -> Seq<u32> {
    if 0 < reg < 32 {
        x.update(reg as int, data)
    } else {
        x
    }
}

/// Register x0 reads zero whatever was written to it.
pub proof fn lemma_x0_reads_zero(x: Seq<u32>, data: u32)
    ensures
        reg_value(with_reg(x, 0, data), 0) == 0,
{
}

/// The integer registers, the program counter and the CSR file.
pub struct RV32Regs {
    pub x: [u32; 32],
    pub pc: u32,
    pub csr: RV32CSRs,
}

impl RV32Regs {
    pub fn new() -> (r: RV32Regs)
        ensures
            forall|i: int| 0 <= i < 32 ==> r.x@[i] == 0u32,
            r.pc == 0,
            r.csr == zero_csrs(),
    {
        RV32Regs { x: [0u32; 32], pc: 0, csr: RV32CSRs::zeroed() }
    }

    pub fn read(&self, reg: u8) -> (r: u32)
        ensures
            r == reg_value(self.x@, reg),
    {
        if reg > 0 && reg < 32 {
            self.x[reg as usize]
        } else {
            0
        }
    }

    pub fn write(&mut self, reg: u8, data: u32)
        ensures
            final(self).x@ == with_reg(old(self).x@, reg, data),
            final(self).pc == old(self).pc,
            final(self).csr == old(self).csr,
    {
        if reg > 0 && reg < 32 {
            self.x[reg as usize] = data;
        }
    }
}

/// The architectural state of the hart, as the guest observes it.
pub struct HartState {
    pub x: Seq<u32>,
    pub pc: u32,
    pub csr: RV32CSRs,
    pub privilege: u8,
    pub status: bool,
    pub ram: Seq<u8>,
    /// Bytes received by the UART and not yet read by the guest.
    pub rx: Seq<u8>,
    /// Bytes transmitted by the guest and not yet handed to the host.
    pub tx: Seq<u8>,
}

impl HartState {
    pub open spec fn reg(self, reg: u8) -> u32 {
        reg_value(self.x, reg)
    }

    pub open spec fn set_reg(self, reg: u8, data: u32) -> HartState {
        HartState { x: with_reg(self.x, reg, data), ..self }
    }

    pub open spec fn set_pc(self, pc: u32) -> HartState {
        HartState { pc, ..self }
    }

    pub open spec fn set_ram(self, ram: Seq<u8>) -> HartState {
        HartState { ram, ..self }
    }

    pub open spec fn set_csrs(self, csr: RV32CSRs) -> HartState {
        HartState { csr, ..self }
    }
}

/// A single RV32IMA hart with its RAM and devices.
pub struct RiscV32 {
    pub regs: RV32Regs,
    pub mem: RV32Memory,
    pub uart: UART,
    /// 0 = user, 1 = supervisor, 3 = machine.
    pub privilege: u8,
    /// Whether the hart runs.
    pub status: bool,
}

impl View for RiscV32 {
    type V = HartState;

    open spec fn view(&self) -> HartState {
        HartState {
            x: self.regs.x@,
            pc: self.regs.pc,
            csr: self.regs.csr,
            privilege: self.privilege,
            status: self.status,
            ram: self.mem.ram@,
            rx: self.uart@.rx,
            tx: self.uart@.tx,
        }
    }
}

impl RiscV32 {
    /// RAM holds the CLINT registers, and register x0 is zero.
    pub open spec fn wf(&self) -> bool {
        &&& self.mem.ram@.len() >= MIN_RAM_SIZE
        &&& self.regs.x@[0] == 0
    }

    /// A hart in user mode, not running, with everything zeroed and a RAM
    /// covering the whole address space.
    pub fn new() -> (r: RiscV32)
        ensures
            r.wf(),
            r.mem.ram@.len() == crate::memory::host_ram_size(),
            r@.pc == 0,
            r@.csr == zero_csrs(),
            r@.privilege == 0,
            !r@.status,
            forall|i: int| 0 <= i < 32 ==> r@.x[i] == 0u32,
            forall|i: int| 0 <= i < r@.ram.len() ==> r@.ram[i] == 0u8,
            r@.rx.len() == 0,
            r@.tx.len() == 0,
    {
        RiscV32 {
            regs: RV32Regs::new(),
            mem: RV32Memory::new(),
            uart: UART::new(),
            privilege: 0,
            status: false,
        }
    }

    /// Like `new`, with a RAM of `size` bytes.
    pub fn with_ram_size(size: usize) -> (r: RiscV32)
        requires
            size >= MIN_RAM_SIZE,
        ensures
            r.wf(),
            r@.ram.len() == size,
            r@.pc == 0,
            r@.csr == zero_csrs(),
            r@.privilege == 0,
            !r@.status,
            forall|i: int| 0 <= i < 32 ==> r@.x[i] == 0u32,
            forall|i: int| 0 <= i < r@.ram.len() ==> r@.ram[i] == 0u8,
            r@.rx.len() == 0,
            r@.tx.len() == 0,
    {
        RiscV32 {
            regs: RV32Regs::new(),
            mem: RV32Memory::with_size(size),
            uart: UART::new(),
            privilege: 0,
            status: false,
        }
    }

    /// Puts the hart in its power-on state: running in machine mode at PC 0,
    /// registers, RAM and CSRs zeroed but for `misa`, the timer compare
    /// register at its maximum, and the UART empty.
    pub fn reset(&mut self)
        requires
            old(self).wf(),
        ensures
            final(self).wf(),
            final(self)@.status,
            final(self)@.privilege == 3,
            final(self)@.pc == 0,
            forall|i: int| 0 <= i < 32 ==> final(self)@.x[i] == 0u32,
            final(self)@.csr == (RV32CSRs { misa: MISA_RV32IMASU, ..zero_csrs() }),
            final(self)@.ram == put64(
                Seq::new(old(self)@.ram.len(), |i: int| 0u8),
                CLINT_MTIMECMP as int,
                0xFFFF_FFFF_FFFF_FFFFu64,
            ),
            final(self)@.rx.len() == 0,
            final(self)@.tx.len() == 0,
    {
        let n: usize = self.mem.ram.len();
        let mut i: usize = 0;
        while i < n
            invariant
                self.mem.ram@.len() == n,
                n == old(self).mem.ram@.len(),
                i <= n,
                forall|j: int| 0 <= j < i ==> self.mem.ram@[j] == 0u8,
            decreases n - i,
        {
            self.mem.ram.set(i, 0);
            i = i + 1;
        }
        proof {
            assert(self.mem.ram@ =~= Seq::new(n as nat, |i: int| 0u8));
        }
        self.status = true;
        self.privilege = 3;
        self.regs = RV32Regs::new();
        self.regs.csr.misa = MISA_RV32IMASU;
        self.regs.csr.mhartid = 0;
        self.mem.write_double_word(CLINT_MTIMECMP, 0xFFFF_FFFF_FFFF_FFFFu64);
        self.uart.reset();
    }
}

/// Fetch, decode and execute the instruction at the PC. Past an instruction
/// that does not trap the PC moves on by 4; control transfers have left it 4
/// short of their target for this. A trap has already moved it to the
/// handler. A fetch past the end of RAM is an instruction access fault.
#[verifier::opaque]
pub open spec fn fetch_execute(s: HartState) -> (HartState, Option<Trap>) {
    if s.pc + 4 > s.ram.len() {
        raise(s, Trap::InstructionAccessFault, s.pc)
    } else {
        let (t, r) = decoded(le32(s.ram, s.pc as int)).effect(s);
        if r is None {
            (t.set_pc(t.pc.wrapping_add(4)), None)
        } else {
            (t, r)
        }
    }
}

/// One tick of the hart: fetch and execute, advance the timer, then check for
/// interrupts. The trap the instruction raised, if any, comes along.
pub open spec fn step_spec(s: HartState) -> (HartState, Option<Trap>) {
    let (t, r) = fetch_execute(s);
    (interrupt_check(tick(t)), r)
}

/// The state after `n` ticks.
pub open spec fn run(s: HartState, n: nat) -> HartState
    decreases n,
{
    if n == 0 {
        s
    } else {
        step_spec(run(s, (n - 1) as nat)).0
    }
}

/// A tick keeps the size of RAM, and puts in `mtime` one more (wrapping)
/// than the instruction left there.
proof fn lemma_step_ticks(s: HartState)
    requires
        s.ram.len() >= MIN_RAM_SIZE,
    ensures
        step_spec(s).0.ram.len() == s.ram.len(),
        mtime(step_spec(s).0.ram) == mtime(fetch_execute(s).0.ram).wrapping_add(1),
{
    reveal(fetch_execute);
    let t = fetch_execute(s).0;
    if s.pc + 4 <= s.ram.len() {
        lemma_execute_keeps_ram_size(decoded(le32(s.ram, s.pc as int)), s);
    }
    assert(t.ram.len() == s.ram.len());
    lemma_double_word_round_trip(t.ram, CLINT_MTIME as int, mtime(t.ram).wrapping_add(1));
    lemma_scan_keeps_ram(tick(t), 6);
}

/// The timer counts instructions: after `n` ticks `mtime` has gone up by
/// exactly `n` (modulo 2^64), provided none of the instructions executed in
/// between wrote to `mtime` itself.
pub proof fn lemma_mtime_counts_ticks(s: HartState, n: nat)
    requires
        s.ram.len() >= MIN_RAM_SIZE,
        forall|k: nat|
            k < n ==> mtime(#[trigger] fetch_execute(run(s, k)).0.ram) == mtime(run(s, k).ram),
    ensures
        run(s, n).ram.len() == s.ram.len(),
        mtime(run(s, n).ram) == (mtime(s.ram) + n) % 0x1_0000_0000_0000_0000,
    decreases n,
{
    if n > 0 {
        let m = (n - 1) as nat;
        lemma_mtime_counts_ticks(s, m);
        let p = run(s, m);
        lemma_step_ticks(p);
        assert(fetch_execute(run(s, m)).0.ram == fetch_execute(p).0.ram);
        let x = mtime(p.ram);
        let a = mtime(s.ram) as int;
        assert(x == (a + m) % 0x1_0000_0000_0000_0000);
        assert(x.wrapping_add(1) == (x + 1) % 0x1_0000_0000_0000_0000int);
        vstd::arithmetic::div_mod::lemma_add_mod_noop(a + m, 1, 0x1_0000_0000_0000_0000int);
    }
}

impl RiscV32 {
    /// Runs one tick of the hart and returns the trap taken by the
    /// instruction, if any.
    pub fn step(&mut self) -> (r: Option<Trap>)
        requires
            old(self).wf(),
        ensures
            final(self).wf(),
            final(self).status == old(self).status,
            (final(self)@, r) == step_spec(old(self)@),
    {
        proof {
            reveal(fetch_execute);
        }
        let pc: u32 = self.regs.pc;
        let r: Option<Trap> = if pc as usize >= self.mem.ram.len() || self.mem.ram.len() - (
        pc as usize) < 4 {
            Some(Trap::InstructionAccessFault.take(self, pc))
        } else {
            let instr: u32 = self.mem.read_word(pc as usize);
            let decoded: RV32Instruction = rv32_decode(instr);
            let r: Option<Trap> = decoded.execute(self);
            if r.is_none() {
                self.regs.pc = self.regs.pc.wrapping_add(4);
            }
            r
        };
        update(self);
        check(self);
        r
    }

    /// Runs the hart while it is running, for at most `max_steps` ticks, and
    /// returns how many ticks ran. Traps are taken by the guest and do not
    /// stop it.
    pub fn execute(&mut self, max_steps: u64) -> (n: u64)
        requires
            old(self).wf(),
        ensures
            final(self).wf(),
            final(self)@ == run(old(self)@, n as nat),
            n == if old(self)@.status {
                max_steps
            } else {
                0
            },
    {
        let mut n: u64 = 0;
        while n < max_steps && self.status
            invariant
                self.wf(),
                self@ == run(old(self)@, n as nat),
                self.status == old(self).status,
                n <= max_steps,
                !old(self).status ==> n == 0,
            decreases max_steps - n,
        {
            let _ = self.step();
            n = n + 1;
        }
        n
    }
}

} // verus!
