use crate::cpu::{HartState, RiscV32};
use crate::memory::{put64, RV32Memory};
use crate::timer::CLINT_MTIMECMP;
use vstd::prelude::*;

verus! {

/// Where the kernel image is placed, and where the hart starts.
pub const KERNEL_BASE: u32 = 0x8000_0000;

/// Gap left between the device-tree blob and the top of RAM.
pub const DTB_TOP_GAP: usize = 0x1000;

/// The paths of the two images the loader places.
pub struct BootloaderInfo {
    pub dtb: String,
    pub kernelimg: String,
}

impl BootloaderInfo {
    pub fn from(dtb: String, kernelimg: String) -> (r: BootloaderInfo)
        ensures
            r.dtb@ == dtb@,
            r.kernelimg@ == kernelimg@,
    {
        BootloaderInfo { dtb, kernelimg }
    }
}

/// `ram` with `data` copied in from `start` on.
pub open spec fn copy_into(ram: Seq<u8>, data: Seq<u8>, start: int) -> Seq<u8> {
    Seq::new(
        ram.len(),
        |i: int|
            if start <= i < start + data.len() {
                data[i - start]
            } else {
                ram[i]
            },
    )
}

/// Where the device-tree blob goes: 4 KiB below the top of RAM.
pub open spec fn dtb_address(ram_len: nat, dtb_len: nat) -> int {
    ram_len - dtb_len - DTB_TOP_GAP
}

/// Whether both images fit in a RAM of `ram_len` bytes at their places.
pub open spec fn images_fit(ram_len: nat, dtb_len: nat, kernel_len: nat) -> bool {
    dtb_len + DTB_TOP_GAP <= ram_len && dtb_address(ram_len, dtb_len) <= u32::MAX && KERNEL_BASE
        + kernel_len <= ram_len
}

/// The state in which the kernel starts: the blob and the image in RAM, the
/// timer compare register at its maximum, `a0` (x10) holding hart id 0, `a1`
/// (x11) the blob's address, and the PC at the kernel.
pub open spec fn booted(s: HartState, dtb: Seq<u8>, kernel: Seq<u8>) -> HartState {
    let a = dtb_address(s.ram.len(), dtb.len());
    let ram = copy_into(
        put64(copy_into(s.ram, dtb, a), CLINT_MTIMECMP as int, 0xFFFF_FFFF_FFFF_FFFFu64),
        kernel,
        KERNEL_BASE as int,
    );
    HartState { ram, pc: KERNEL_BASE, x: s.x.update(10, 0).update(11, a as u32), ..s }
}

fn write_to_ram(mem: &mut RV32Memory, buffer: &Vec<u8>, start: usize)
    requires
        start + buffer@.len() <= old(mem).ram.len(),
    ensures
        final(mem).ram@ == copy_into(old(mem).ram@, buffer@, start as int),
{
    let mut i: usize = 0;
    while i < buffer.len()
        invariant
            start + buffer@.len() <= mem.ram.len(),
            mem.ram@.len() == old(mem).ram@.len(),
            i <= buffer@.len(),
            forall|j: int|
                0 <= j < mem.ram@.len() ==> mem.ram@[j] == if start <= j < start + i {
                    buffer@[j - start]
                } else {
                    old(mem).ram@[j]
                },
        decreases buffer@.len() - i,
    {
        mem.ram.set(start + i, buffer[i]);
        i = i + 1;
    }
    proof {
        assert(mem.ram@ =~= copy_into(old(mem).ram@, buffer@, start as int));
    }
}

/// Loads the device-tree blob and the kernel image and sets the registers
/// the kernel expects at entry; returns the blob's address.
pub fn rvll(cpu: &mut RiscV32, dtb: &Vec<u8>, kernel: &Vec<u8>) -> (r: u32)
    requires
        old(cpu).wf(),
        images_fit(old(cpu)@.ram.len(), dtb@.len(), kernel@.len()),
    ensures
        final(cpu).wf(),
        r as int == dtb_address(old(cpu)@.ram.len(), dtb@.len()),
        final(cpu)@ == booted(old(cpu)@, dtb@, kernel@),
{
    let len: usize = cpu.mem.ram.len();
    let start: usize = len - dtb.len() - DTB_TOP_GAP;
    write_to_ram(&mut cpu.mem, dtb, start);
    cpu.regs.x[10] = 0;
    cpu.regs.x[11] = start as u32;
    cpu.mem.write_double_word(CLINT_MTIMECMP, 0xFFFF_FFFF_FFFF_FFFFu64);
    write_to_ram(&mut cpu.mem, kernel, KERNEL_BASE as usize);
    cpu.regs.pc = KERNEL_BASE;
    start as u32
}

} // verus!
