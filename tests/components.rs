use marv32::bootloader::{rvll, BootloaderInfo, KERNEL_BASE};
use marv32::cpu::{RV32Regs, RiscV32, MIN_RAM_SIZE};
use marv32::decode::{format_of, rv32_decode, RV32Instruction, Type};
use marv32::extensions::rv32a::RV32AInstruction;
use marv32::extensions::rv32i::RV32IInstruction;
use marv32::extensions::rv32m::RV32MInstruction;
use marv32::extensions::rv32zicsr::RV32ZicsrInstruction;
use marv32::extensions::Execute;
use marv32::interrupt::check;
use marv32::memory::RV32Memory;
use marv32::timer::CLINT_MTIMECMP;
use marv32::trap::{Trap, TrapRetInstruction};
use marv32::uart::match_addr;

fn hart() -> RiscV32 {
    let mut cpu = RiscV32::with_ram_size(MIN_RAM_SIZE);
    cpu.reset();
    cpu
}

#[test]
fn register_zero_reads_zero() {
    let mut regs = RV32Regs::new();
    regs.write(0, 0x1234);
    assert_eq!(regs.read(0), 0);
    regs.write(31, 7);
    assert_eq!(regs.read(31), 7);
    regs.write(32, 9);
    assert_eq!(regs.read(32), 0);
}

#[test]
fn memory_round_trips_every_width() {
    let mut mem = RV32Memory::with_size(64);
    mem.write_byte(1, 0xAB);
    assert_eq!(mem.read_byte(1), 0xAB);
    mem.write_half_word(3, 0xBEEF);
    assert_eq!(mem.read_half_word(3), 0xBEEF);
    assert_eq!(mem.read_byte(3), 0xEF);
    assert_eq!(mem.read_byte(4), 0xBE);
    mem.write_word(9, 0xDEAD_BEEF);
    assert_eq!(mem.read_word(9), 0xDEAD_BEEF);
    assert_eq!(mem.read_byte(9), 0xEF);
    mem.write_double_word(20, 0x0123_4567_89AB_CDEF);
    assert_eq!(mem.read_double_word(20), 0x0123_4567_89AB_CDEF);
    assert_eq!(mem.read_word(20), 0x89AB_CDEF);
    assert_eq!(mem.read_word(24), 0x0123_4567);
    assert_eq!(mem.read_byte(28), 0);
}

#[test]
fn csr_write_then_read() {
    let mut cpu = hart();
    assert_eq!(cpu.write_csr(0x100, 0x22), None);
    assert_eq!(cpu.read_csr(0x100), Ok(0x22));
    assert_eq!(cpu.write_csr(0x305, 0x8000_0100), None);
    assert_eq!(cpu.read_csr(0x305), Ok(0x8000_0100));
    assert_eq!(cpu.regs.csr.mtvec, 0x8000_0100);
    assert_eq!(cpu.read_csr(0x301), Ok(0x4014_1101));
}

#[test]
fn pmp_range_reads_zero_and_drops_writes() {
    let mut cpu = hart();
    assert_eq!(cpu.write_csr(0x3A0, 0xFFFF), None);
    assert_eq!(cpu.read_csr(0x3A0), Ok(0));
    assert_eq!(cpu.read_csr(0x3EF), Ok(0));
}

#[test]
fn mimpid_is_stored() {
    let mut cpu = hart();
    assert_eq!(cpu.write_csr(0xF13, 5), None);
    assert_eq!(cpu.read_csr(0xF13), Ok(5));
    assert_eq!(cpu.regs.csr.mimpid, 5);
}

#[test]
fn read_only_identifiers_refuse_writes() {
    let mut cpu = hart();
    cpu.regs.csr.mtvec = 0x640;
    assert_eq!(cpu.read_csr(0xF14), Ok(0));
    assert_eq!(cpu.write_csr(0xF14, 3), Some(Trap::IllegalInstruction));
    assert_eq!(cpu.regs.csr.mhartid, 0);
    assert_eq!(cpu.regs.pc, 0x640);
    assert_eq!(cpu.write_csr(0xF11, 3), Some(Trap::IllegalInstruction));
    assert_eq!(cpu.write_csr(0xF12, 3), Some(Trap::IllegalInstruction));
}

#[test]
fn legal_csr_without_storage_is_illegal() {
    let mut cpu = hart();
    cpu.regs.csr.mtvec = 0x680;
    cpu.regs.pc = 0x24;
    assert_eq!(cpu.read_csr(0x106), Err(Trap::IllegalInstruction));
    assert_eq!(cpu.regs.pc, 0x680);
    assert_eq!(cpu.regs.csr.mepc, 0x24);
    assert_eq!(cpu.read_csr(0xC03), Err(Trap::IllegalInstruction));
    assert_eq!(cpu.write_csr(0x747, 1), Some(Trap::IllegalInstruction));
    assert_eq!(cpu.read_csr(0xF15), Err(Trap::IllegalInstruction));
}

#[test]
fn mscratch_and_sscratch_are_distinct() {
    let mut cpu = hart();
    assert_eq!(cpu.write_csr(0x340, 1), None);
    assert_eq!(cpu.write_csr(0x140, 2), None);
    assert_eq!(cpu.read_csr(0x340), Ok(1));
    assert_eq!(cpu.read_csr(0x140), Ok(2));
}

#[test]
fn csrrw_to_read_only_csr_traps_without_writing_rd() {
    let mut cpu = hart();
    cpu.regs.csr.mtvec = 0x6C0;
    cpu.regs.x[1] = 9;
    cpu.regs.x[2] = 0x55;
    let op = RV32ZicsrInstruction::Csrrw(2, 1, 0xF11);
    assert_eq!(op.execute(&mut cpu), Some(Trap::IllegalInstruction));
    assert_eq!(cpu.regs.x[2], 0x55);
    assert_eq!(cpu.regs.pc, 0x6C0);
    assert_eq!(RV32ZicsrInstruction::Csrrs(2, 0, 0xF11).execute(&mut cpu), None);
    assert_eq!(cpu.regs.x[2], 0);
}

#[test]
fn decoder_immediates_at_their_extremes() {
    assert_eq!(rv32_decode(0x80000093), RV32Instruction::RV32I(RV32IInstruction::Addi(1, 0, -2048)));
    assert_eq!(rv32_decode(0x7FF00093), RV32Instruction::RV32I(RV32IInstruction::Addi(1, 0, 2047)));
    assert_eq!(rv32_decode(0x80000063), RV32Instruction::RV32I(RV32IInstruction::Beq(0, 0, -4096)));
    assert_eq!(rv32_decode(0x800000EF), RV32Instruction::RV32I(RV32IInstruction::Jal(1, -0x10_0000)));
    assert_eq!(rv32_decode(0x80000237), RV32Instruction::RV32I(RV32IInstruction::Lui(4, i32::MIN)));
    assert_eq!(rv32_decode(0x80102023), RV32Instruction::RV32I(RV32IInstruction::Sw(0, 1, -2048)));
}

#[test]
fn machine_csr_from_supervisor_is_illegal() {
    let mut cpu = hart();
    cpu.privilege = 1;
    cpu.regs.pc = 0x44;
    cpu.regs.csr.mtvec = 0x600;
    assert_eq!(cpu.read_csr(0x300), Err(Trap::IllegalInstruction));
    assert_eq!(cpu.privilege, 3);
    assert_eq!(cpu.regs.pc, 0x600);
    assert_eq!(cpu.regs.csr.mepc, 0x44);
    assert_eq!(cpu.regs.csr.mcause, 2);
}

#[test]
fn supervisor_csr_from_user_is_illegal() {
    let mut cpu = hart();
    cpu.privilege = 0;
    assert!(!cpu.check_privilege(0x105));
    assert!(cpu.check_privilege(0xC01));
    assert_eq!(cpu.write_csr(0x105, 1), Some(Trap::IllegalInstruction));
    assert_eq!(cpu.regs.csr.stvec, 0);
    assert_eq!(cpu.privilege, 3);
}

#[test]
fn check_privilege_table() {
    let mut cpu = hart();
    assert!(cpu.check_privilege(0x300));
    assert!(cpu.check_privilege(0x3EF));
    assert!(!cpu.check_privilege(0x3F0));
    assert!(!cpu.check_privilege(0x7FF));
    cpu.privilege = 1;
    assert!(cpu.check_privilege(0x180));
    assert!(!cpu.check_privilege(0x341));
}

#[test]
fn csrrs_with_x0_does_not_write() {
    let mut cpu = hart();
    cpu.regs.csr.mscratch = 5;
    let op = RV32ZicsrInstruction::Csrrs(7, 0, 0x340);
    assert_eq!(op.execute(&mut cpu), None);
    assert_eq!(cpu.regs.x[7], 5);
    assert_eq!(cpu.regs.csr.mscratch, 5);
    cpu.regs.x[1] = 0x30;
    assert_eq!(RV32ZicsrInstruction::Csrrc(8, 1, 0x340).execute(&mut cpu), None);
    assert_eq!(cpu.regs.x[8], 5);
    assert_eq!(cpu.regs.csr.mscratch, 5);
    assert_eq!(RV32ZicsrInstruction::Csrrsi(8, 0x12, 0x340).execute(&mut cpu), None);
    assert_eq!(cpu.regs.csr.mscratch, 0x17);
    assert_eq!(RV32ZicsrInstruction::Csrrci(8, 0x3, 0x340).execute(&mut cpu), None);
    assert_eq!(cpu.regs.csr.mscratch, 0x14);
    assert_eq!(RV32ZicsrInstruction::Csrrwi(9, 0x1F, 0x340).execute(&mut cpu), None);
    assert_eq!(cpu.regs.x[9], 0x14);
    assert_eq!(cpu.regs.csr.mscratch, 0x1F);
}

#[test]
fn alu_instructions() {
    let mut cpu = hart();
    cpu.regs.x[1] = 0x8000_0000;
    cpu.regs.x[2] = 33;
    assert_eq!(RV32IInstruction::Sra(3, 1, 2).execute(&mut cpu), None);
    assert_eq!(cpu.regs.x[3], 0xC000_0000);
    assert_eq!(RV32IInstruction::Srl(3, 1, 2).execute(&mut cpu), None);
    assert_eq!(cpu.regs.x[3], 0x4000_0000);
    assert_eq!(RV32IInstruction::Sll(3, 2, 2).execute(&mut cpu), None);
    assert_eq!(cpu.regs.x[3], 66);
    assert_eq!(RV32IInstruction::Srai(3, 1, 4).execute(&mut cpu), None);
    assert_eq!(cpu.regs.x[3], 0xF800_0000);
    assert_eq!(RV32IInstruction::Slt(3, 1, 2).execute(&mut cpu), None);
    assert_eq!(cpu.regs.x[3], 1);
    assert_eq!(RV32IInstruction::Sltu(3, 1, 2).execute(&mut cpu), None);
    assert_eq!(cpu.regs.x[3], 0);
    assert_eq!(RV32IInstruction::Sub(3, 2, 1).execute(&mut cpu), None);
    assert_eq!(cpu.regs.x[3], 0x8000_0021);
    assert_eq!(RV32IInstruction::Slti(3, 1, -1).execute(&mut cpu), None);
    assert_eq!(cpu.regs.x[3], 1);
    assert_eq!(RV32IInstruction::Sltiu(3, 2, -1).execute(&mut cpu), None);
    assert_eq!(cpu.regs.x[3], 1);
    assert_eq!(RV32IInstruction::Andi(3, 2, 0x21).execute(&mut cpu), None);
    assert_eq!(cpu.regs.x[3], 33);
    assert_eq!(RV32IInstruction::Addi(0, 2, 5).execute(&mut cpu), None);
    assert_eq!(cpu.regs.read(0), 0);
    assert_eq!(cpu.regs.pc, 0);
}

#[test]
fn loads_extend_as_specified() {
    let mut cpu = hart();
    cpu.mem.write_word(0x100, 0x0000_8080);
    cpu.regs.x[1] = 0x100;
    assert_eq!(RV32IInstruction::Lb(2, 1, 0).execute(&mut cpu), None);
    assert_eq!(cpu.regs.x[2], 0xFFFF_FF80);
    assert_eq!(RV32IInstruction::Lbu(2, 1, 0).execute(&mut cpu), None);
    assert_eq!(cpu.regs.x[2], 0x80);
    assert_eq!(RV32IInstruction::Lh(2, 1, 0).execute(&mut cpu), None);
    assert_eq!(cpu.regs.x[2], 0xFFFF_8080);
    assert_eq!(RV32IInstruction::Lhu(2, 1, 0).execute(&mut cpu), None);
    assert_eq!(cpu.regs.x[2], 0x8080);
    assert_eq!(RV32IInstruction::Lw(2, 1, 0).execute(&mut cpu), None);
    assert_eq!(cpu.regs.x[2], 0x8080);
}

#[test]
fn store_then_load_through_instructions() {
    let mut cpu = hart();
    cpu.regs.x[1] = 0x200;
    cpu.regs.x[2] = 0xCAFE_F00D;
    assert_eq!(RV32IInstruction::Sw(1, 2, 8).execute(&mut cpu), None);
    assert_eq!(RV32IInstruction::Lw(3, 1, 8).execute(&mut cpu), None);
    assert_eq!(cpu.regs.x[3], 0xCAFE_F00D);
    assert_eq!(RV32IInstruction::Sh(1, 2, -2).execute(&mut cpu), None);
    assert_eq!(cpu.mem.read_half_word(0x1FE), 0xF00D);
    assert_eq!(RV32IInstruction::Sb(1, 2, 1).execute(&mut cpu), None);
    assert_eq!(cpu.mem.read_byte(0x201), 0x0D);
}

#[test]
fn wide_uart_access_faults() {
    let mut cpu = hart();
    cpu.regs.x[1] = 0x1000_0000;
    cpu.regs.csr.mtvec = 0x700;
    assert_eq!(RV32IInstruction::Lw(2, 1, 0).execute(&mut cpu), Some(Trap::LoadAccessFault));
    assert_eq!(cpu.regs.csr.mcause, 5);
    assert_eq!(cpu.regs.csr.mtval, 0x1000_0000);
    assert_eq!(cpu.regs.pc, 0x700);
    assert_eq!(RV32IInstruction::Sh(1, 2, 4).execute(&mut cpu), Some(Trap::StoreAccessFault));
    assert_eq!(cpu.regs.csr.mcause, 7);
    assert_eq!(cpu.regs.csr.mtval, 0x1000_0004);
}

#[test]
fn load_past_ram_faults() {
    let mut cpu = hart();
    cpu.regs.x[1] = MIN_RAM_SIZE as u32;
    assert_eq!(RV32IInstruction::Lbu(2, 1, 0).execute(&mut cpu), Some(Trap::LoadAccessFault));
    assert_eq!(RV32IInstruction::Sb(1, 2, 0).execute(&mut cpu), Some(Trap::StoreAccessFault));
}

#[test]
fn jumps_link_and_check_alignment() {
    let mut cpu = hart();
    cpu.regs.pc = 0x100;
    assert_eq!(RV32IInstruction::Jal(1, 0x20).execute(&mut cpu), None);
    assert_eq!(cpu.regs.x[1], 0x104);
    assert_eq!(cpu.regs.pc, 0x11C);
    cpu.regs.pc = 0x100;
    assert_eq!(RV32IInstruction::Jal(0, 0x20).execute(&mut cpu), None);
    assert_eq!(cpu.regs.x[1], 0x104);
    cpu.regs.pc = 0x100;
    cpu.regs.x[5] = 0x301;
    assert_eq!(RV32IInstruction::Jalr(5, 5, 3).execute(&mut cpu), None);
    assert_eq!(cpu.regs.x[5], 0x104);
    assert_eq!(cpu.regs.pc, 0x300);
    cpu.regs.pc = 0x100;
    cpu.regs.csr.mtvec = 0x900;
    assert_eq!(
        RV32IInstruction::Jal(1, 6).execute(&mut cpu),
        Some(Trap::MisalignedInstructionAddress)
    );
    assert_eq!(cpu.regs.csr.mepc, 0x100);
    assert_eq!(cpu.regs.csr.mtval, 0x106);
    assert_eq!(cpu.regs.pc, 0x900);
}

#[test]
fn auipc_adds_to_pc() {
    let mut cpu = hart();
    cpu.regs.pc = 0x1000;
    assert_eq!(RV32IInstruction::Auipc(4, 0x2000).execute(&mut cpu), None);
    assert_eq!(cpu.regs.x[4], 0x3000);
    assert_eq!(cpu.regs.pc, 0x1000);
}

#[test]
fn fences_are_no_ops() {
    let mut cpu = hart();
    assert_eq!(RV32IInstruction::FenceTSO.execute(&mut cpu), None);
    assert_eq!(RV32IInstruction::Pause.execute(&mut cpu), None);
    assert_eq!(RV32IInstruction::Fence(0, 0, 3, 3, 0).execute(&mut cpu), None);
    assert_eq!(cpu.regs.pc, 0);
}

#[test]
fn m_extension_results() {
    let mut cpu = hart();
    let cases: [(RV32MInstruction, u32, u32, u32); 14] = [
        (RV32MInstruction::Mul(3, 1, 2), 7, 6, 42),
        (RV32MInstruction::Mul(3, 1, 2), 0xFFFF_FFFF, 0xFFFF_FFFF, 1),
        (RV32MInstruction::Mulh(3, 1, 2), 0xFFFF_FFFF, 0xFFFF_FFFF, 0),
        (RV32MInstruction::Mulh(3, 1, 2), 0x8000_0000, 0x8000_0000, 0x4000_0000),
        (RV32MInstruction::Mulhsu(3, 1, 2), 0xFFFF_FFFF, 0xFFFF_FFFF, 0xFFFF_FFFF),
        (RV32MInstruction::Mulhu(3, 1, 2), 0xFFFF_FFFF, 0xFFFF_FFFF, 0xFFFF_FFFE),
        (RV32MInstruction::Div(3, 1, 2), (-7i32) as u32, 2, (-3i32) as u32),
        (RV32MInstruction::Div(3, 1, 2), 5, 0, 0xFFFF_FFFF),
        (RV32MInstruction::Div(3, 1, 2), 0x8000_0000, 0xFFFF_FFFF, 0x8000_0000),
        (RV32MInstruction::Divu(3, 1, 2), 7, 0, 0xFFFF_FFFF),
        (RV32MInstruction::Rem(3, 1, 2), (-7i32) as u32, 2, (-1i32) as u32),
        (RV32MInstruction::Rem(3, 1, 2), 0x8000_0000, 0xFFFF_FFFF, 0),
        (RV32MInstruction::Rem(3, 1, 2), 9, 0, 9),
        (RV32MInstruction::Remu(3, 1, 2), 9, 4, 1),
    ];
    for (op, a, b, expected) in cases {
        cpu.regs.x[1] = a;
        cpu.regs.x[2] = b;
        assert_eq!(op.execute(&mut cpu), None);
        assert_eq!(cpu.regs.x[3], expected, "{:?} {:#x} {:#x}", op, a, b);
    }
}

#[test]
fn atomics_read_modify_write() {
    let mut cpu = hart();
    cpu.regs.x[1] = 0x300;
    cpu.mem.write_word(0x300, 10);
    cpu.regs.x[2] = 5;
    assert_eq!(RV32AInstruction::AmoaddW(3, 1, 2).execute(&mut cpu), None);
    assert_eq!(cpu.regs.x[3], 10);
    assert_eq!(cpu.mem.read_word(0x300), 15);
    cpu.regs.x[2] = (-1i32) as u32;
    assert_eq!(RV32AInstruction::AmominW(3, 1, 2).execute(&mut cpu), None);
    assert_eq!(cpu.mem.read_word(0x300), 0xFFFF_FFFF);
    cpu.regs.x[2] = 4;
    assert_eq!(RV32AInstruction::AmomaxuW(3, 1, 2).execute(&mut cpu), None);
    assert_eq!(cpu.mem.read_word(0x300), 0xFFFF_FFFF);
    assert_eq!(RV32AInstruction::AmomaxW(3, 1, 2).execute(&mut cpu), None);
    assert_eq!(cpu.mem.read_word(0x300), 4);
    assert_eq!(RV32AInstruction::AmoswapW(3, 1, 0).execute(&mut cpu), None);
    assert_eq!(cpu.regs.x[3], 4);
    assert_eq!(cpu.mem.read_word(0x300), 0);
    cpu.regs.x[2] = 0x77;
    cpu.regs.x[3] = 9;
    assert_eq!(RV32AInstruction::ScW(3, 1, 2).execute(&mut cpu), None);
    assert_eq!(cpu.regs.x[3], 0);
    assert_eq!(cpu.mem.read_word(0x300), 0x77);
    cpu.regs.x[1] = 0x1000_0000;
    assert_eq!(RV32AInstruction::AmoorW(3, 1, 2).execute(&mut cpu), Some(Trap::StoreAccessFault));
}

#[test]
fn decoder_recognises_each_format() {
    assert_eq!(rv32_decode(0x123452B7), RV32Instruction::RV32I(RV32IInstruction::Lui(5, 0x1234_5000)));
    assert_eq!(rv32_decode(0x67828293), RV32Instruction::RV32I(RV32IInstruction::Addi(5, 5, 0x678)));
    assert_eq!(rv32_decode(0x00108463), RV32Instruction::RV32I(RV32IInstruction::Beq(1, 1, 8)));
    assert_eq!(rv32_decode(0xFE000EE3), RV32Instruction::RV32I(RV32IInstruction::Beq(0, 0, -4)));
    assert_eq!(rv32_decode(0xFFDFF0EF), RV32Instruction::RV32I(RV32IInstruction::Jal(1, -4)));
    assert_eq!(rv32_decode(0x008000EF), RV32Instruction::RV32I(RV32IInstruction::Jal(1, 8)));
    assert_eq!(rv32_decode(0xFE112E23), RV32Instruction::RV32I(RV32IInstruction::Sw(2, 1, -4)));
    assert_eq!(rv32_decode(0xFFF00093), RV32Instruction::RV32I(RV32IInstruction::Addi(1, 0, -1)));
    assert_eq!(rv32_decode(0x4030D093), RV32Instruction::RV32I(RV32IInstruction::Srai(1, 1, 3)));
    assert_eq!(rv32_decode(0x02208033), RV32Instruction::RV32M(RV32MInstruction::Mul(0, 1, 2)));
    assert_eq!(rv32_decode(0x34009073), RV32Instruction::RV32Zicsr(RV32ZicsrInstruction::Csrrw(0, 1, 0x340)));
    assert_eq!(rv32_decode(0x00000073), RV32Instruction::RV32I(RV32IInstruction::Ecall));
    assert_eq!(rv32_decode(0x00100073), RV32Instruction::RV32I(RV32IInstruction::Ebreak));
    assert_eq!(rv32_decode(0x30200073), RV32Instruction::TrapReturn(TrapRetInstruction::Mret));
    assert_eq!(rv32_decode(0x10200073), RV32Instruction::TrapReturn(TrapRetInstruction::Sret));
    assert_eq!(rv32_decode(0x0820A1AF), RV32Instruction::RV32A(RV32AInstruction::AmoswapW(3, 1, 2)));
    assert_eq!(rv32_decode(0x1000A1AF), RV32Instruction::RV32I(RV32IInstruction::Lw(3, 1, 0)));
    assert_eq!(rv32_decode(0x8330000F), RV32Instruction::RV32I(RV32IInstruction::FenceTSO));
    assert_eq!(rv32_decode(0x0100000F), RV32Instruction::RV32I(RV32IInstruction::Pause));
    assert_eq!(rv32_decode(0x00000000), RV32Instruction::Unknown);
    assert_eq!(rv32_decode(0x10500073), RV32Instruction::Unknown);
    assert_eq!(format_of(0x33), Some(Type::R));
    assert_eq!(format_of(0x6F), Some(Type::J));
    assert_eq!(format_of(0x7F), None);
}

#[test]
fn trap_causes() {
    assert_eq!(Trap::MisalignedInstructionAddress.cause(), 0);
    assert_eq!(Trap::IllegalInstruction.cause(), 2);
    assert_eq!(Trap::UModeEnvCall.cause(), 8);
    assert_eq!(Trap::SModeEnvCall.cause(), 9);
    assert_eq!(Trap::MModeEnvCall.cause(), 11);
    assert_eq!(Trap::StorePageFault.cause(), 15);
    assert_eq!(Trap::StoreGuestPageFault.cause(), 19);
}

#[test]
fn supervisor_interrupt_is_taken_when_delegated() {
    let mut cpu = hart();
    cpu.privilege = 0;
    cpu.regs.pc = 0x50;
    cpu.regs.csr.mideleg = 1 << 5;
    cpu.regs.csr.sie = 1 << 5;
    cpu.regs.csr.sip = 1 << 5;
    cpu.regs.csr.sstatus = 1 << 1;
    cpu.regs.csr.stvec = 0xA00;
    check(&mut cpu);
    assert_eq!(cpu.regs.pc, 0xA00);
    assert_eq!(cpu.regs.csr.scause, 0x8000_0005);
    assert_eq!(cpu.regs.csr.sepc, 0x50);
    assert_eq!(cpu.privilege, 1);
    assert_eq!(cpu.regs.csr.sstatus, 1 << 5);
}

#[test]
fn highest_interrupt_wins_and_disabled_is_ignored() {
    let mut cpu = hart();
    cpu.regs.pc = 0x60;
    cpu.regs.csr.mie = (1 << 3) | (1 << 11);
    cpu.regs.csr.mip = (1 << 3) | (1 << 11);
    cpu.regs.csr.mtvec = 0xB00;
    check(&mut cpu);
    assert_eq!(cpu.regs.pc, 0x60);
    cpu.regs.csr.mstatus = 1 << 3;
    check(&mut cpu);
    assert_eq!(cpu.regs.pc, 0xB00);
    assert_eq!(cpu.regs.csr.mcause, 0x8000_000B);
    assert_eq!(cpu.regs.csr.mepc, 0x60);
}

#[test]
fn bootloader_info_keeps_paths() {
    let info = BootloaderInfo::from(String::from("a.dtb"), String::from("Image"));
    assert_eq!(info.dtb, "a.dtb");
    assert_eq!(info.kernelimg, "Image");
}

#[test]
fn loader_places_images_and_seeds_registers() {
    let size: usize = 0x8000_2000;
    let mut cpu = RiscV32::with_ram_size(size);
    let dtb: Vec<u8> = vec![0xD0, 0x0D, 0xFE, 0xED];
    let kernel: Vec<u8> = vec![0x13, 0, 0, 0, 0x73, 0, 0x10, 0];
    cpu.regs.x[10] = 5;
    let addr = rvll(&mut cpu, &dtb, &kernel);
    assert_eq!(addr as usize, size - 4 - 0x1000);
    assert_eq!(cpu.regs.x[10], 0);
    assert_eq!(cpu.regs.x[11], addr);
    assert_eq!(cpu.regs.pc, KERNEL_BASE);
    assert_eq!(cpu.mem.read_word(addr as usize), 0xEDFE_0DD0);
    assert_eq!(cpu.mem.read_word(KERNEL_BASE as usize + 4), 0x0010_0073);
    assert_eq!(cpu.mem.read_double_word(CLINT_MTIMECMP), u64::MAX);
}

#[test]
fn uart_window() {
    assert!(match_addr(0x1000_0000));
    assert!(match_addr(0x1000_0007));
    assert!(!match_addr(0x1000_0008));
    assert!(!match_addr(0x0FFF_FFFF));
}
