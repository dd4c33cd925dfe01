use marv32::cpu::{RiscV32, MIN_RAM_SIZE, MISA_RV32IMASU};
use marv32::timer::{CLINT_MTIME, CLINT_MTIMECMP};
use marv32::trap::Trap;
use marv32::uart::{UART_LSR, UART_RBR};

fn hart() -> RiscV32 {
    let mut cpu = RiscV32::with_ram_size(MIN_RAM_SIZE);
    cpu.reset();
    cpu
}

fn load_program(cpu: &mut RiscV32, base: usize, words: &[u32]) {
    for (k, w) in words.iter().enumerate() {
        cpu.mem.write_word(base + 4 * k, *w);
    }
}

fn i_type(imm: u32, rs1: u32, funct3: u32, rd: u32, opcode: u32) -> u32 {
    (imm << 20) | (rs1 << 15) | (funct3 << 12) | (rd << 7) | opcode
}

#[test]
fn lui_then_addi() {
    let mut cpu = hart();
    load_program(&mut cpu, 0, &[0x123452B7, 0x67828293]);
    assert_eq!(cpu.step(), None);
    assert_eq!(cpu.regs.x[5], 0x1234_5000);
    assert_eq!(cpu.step(), None);
    assert_eq!(cpu.regs.x[5], 0x1234_5678);
    assert_eq!(cpu.regs.pc, 8);
}

#[test]
fn branch_taken_skips_ebreak() {
    let mut cpu = hart();
    load_program(&mut cpu, 0, &[0x00100093, 0x00108463, 0x00100073, 0x05500113]);
    for _ in 0..3 {
        assert_eq!(cpu.step(), None);
    }
    assert_eq!(cpu.regs.pc, 16);
    assert_eq!(cpu.regs.x[1], 1);
    assert_eq!(cpu.regs.x[2], 0x55);
}

#[test]
fn ebreak_traps_to_machine_vector() {
    let mut cpu = hart();
    cpu.regs.csr.mtvec = 0x400;
    load_program(&mut cpu, 0, &[0x00100093, 0x00100073]);
    assert_eq!(cpu.step(), None);
    assert_eq!(cpu.step(), Some(Trap::Breakpoint));
    assert_eq!(cpu.regs.pc, 0x400);
    assert_eq!(cpu.regs.csr.mcause, 3);
    assert_eq!(cpu.regs.csr.mepc, 4);
}

#[test]
fn csr_round_trip_in_machine_mode() {
    let mut cpu = hart();
    cpu.regs.x[1] = 0xDEAD_BEEF;
    load_program(&mut cpu, 0, &[0x34009073]);
    assert_eq!(cpu.step(), None);
    assert_eq!(cpu.regs.csr.mscratch, 0xDEAD_BEEF);
    assert_eq!(cpu.regs.read(0), 0);
    assert_eq!(cpu.read_csr(0x340), Ok(0xDEAD_BEEF));
}

#[test]
fn ecall_from_user_is_delegated() {
    let mut cpu = hart();
    cpu.regs.csr.medeleg |= 1 << 8;
    cpu.regs.csr.stvec = 0x2003;
    cpu.privilege = 0;
    load_program(&mut cpu, 0x100, &[0x00000073]);
    cpu.regs.pc = 0x100;
    assert_eq!(cpu.step(), Some(Trap::UModeEnvCall));
    assert_eq!(cpu.privilege, 1);
    assert_eq!(cpu.regs.csr.scause, 8);
    assert_eq!(cpu.regs.csr.sepc, 0x100);
    assert_eq!(cpu.regs.pc, 0x2000);
}

#[test]
fn ecall_from_machine_is_not_delegated() {
    let mut cpu = hart();
    cpu.regs.csr.medeleg = 0xFFFF_FFFF;
    cpu.regs.csr.mtvec = 0x3000;
    load_program(&mut cpu, 0, &[0x00000073]);
    assert_eq!(cpu.step(), Some(Trap::MModeEnvCall));
    assert_eq!(cpu.privilege, 3);
    assert_eq!(cpu.regs.csr.mcause, 11);
    assert_eq!(cpu.regs.csr.mepc, 0);
    assert_eq!(cpu.regs.pc, 0x3000);
}

#[test]
fn timer_interrupt_after_five_instructions() {
    let mut cpu = hart();
    cpu.mem.write_double_word(CLINT_MTIMECMP, 5);
    cpu.regs.csr.mie |= 1 << 7;
    cpu.regs.csr.mstatus |= 1 << 3;
    cpu.regs.csr.mtvec = 0x800;
    load_program(&mut cpu, 0, &[0x00000013; 8]);
    for k in 0..4 {
        assert_eq!(cpu.step(), None);
        assert_eq!(cpu.regs.pc, 4 * (k + 1));
    }
    assert_eq!(cpu.step(), None);
    assert_eq!(cpu.regs.pc, 0x800);
    assert_eq!(cpu.regs.csr.mcause, 0x8000_0007);
    assert_eq!(cpu.regs.csr.mepc, 20);
    assert_eq!(cpu.privilege, 3);
    assert_eq!(cpu.regs.csr.mstatus & (1 << 3), 0);
    assert_eq!(cpu.regs.csr.mstatus & (1 << 7), 1 << 7);
}

#[test]
fn uart_echo() {
    let mut cpu = hart();
    cpu.uart.receive(b'A');
    cpu.regs.x[2] = 0x1000_0000;
    load_program(
        &mut cpu,
        0,
        &[
            i_type(5, 2, 4, 1, 0x03),
            i_type(0, 2, 4, 3, 0x03),
            i_type(5, 2, 4, 4, 0x03),
            0x00300023 | (2 << 15),
        ],
    );
    for _ in 0..4 {
        assert_eq!(cpu.step(), None);
    }
    assert_eq!(cpu.regs.x[1], 0x61);
    assert_eq!(cpu.regs.x[3], 0x41);
    assert_eq!(cpu.regs.x[4], 0x60);
    assert_eq!(cpu.uart.take_output(), vec![0x41]);
    assert!(cpu.uart.take_output().is_empty());
}

#[test]
fn uart_registers_directly() {
    let mut cpu = hart();
    assert_eq!(cpu.uart.read(UART_LSR), Some(0x60));
    assert_eq!(cpu.uart.read(UART_RBR), Some(0));
    cpu.uart.receive(7);
    cpu.uart.receive(8);
    assert_eq!(cpu.uart.read(UART_LSR), Some(0x61));
    assert_eq!(cpu.uart.read(UART_RBR), Some(7));
    assert_eq!(cpu.uart.read(UART_LSR), Some(0x61));
    assert_eq!(cpu.uart.read(UART_RBR), Some(8));
    assert_eq!(cpu.uart.read(UART_LSR), Some(0x60));
    assert_eq!(cpu.uart.read(0x1000_0002), None);
    cpu.uart.write(0x1000_0001, 9);
    assert!(cpu.uart.take_output().is_empty());
}

#[test]
fn mtime_counts_executed_instructions() {
    let mut cpu = hart();
    load_program(&mut cpu, 0, &[0x00000013; 16]);
    let before = cpu.mem.read_double_word(CLINT_MTIME);
    assert_eq!(cpu.execute(10), 10);
    assert_eq!(cpu.mem.read_double_word(CLINT_MTIME), before + 10);
    assert_eq!(cpu.regs.pc, 40);
}

#[test]
fn stopped_hart_does_not_run() {
    let mut cpu = RiscV32::with_ram_size(MIN_RAM_SIZE);
    assert_eq!(cpu.execute(10), 0);
    assert_eq!(cpu.regs.pc, 0);
}

#[test]
fn mtime_wraps_around() {
    let mut cpu = hart();
    cpu.mem.write_double_word(CLINT_MTIME, u64::MAX);
    marv32::timer::update(&mut cpu);
    assert_eq!(cpu.mem.read_double_word(CLINT_MTIME), 0);
    assert_eq!(cpu.regs.csr.mip & 0x80, 0);
}

#[test]
fn timer_sets_and_clears_mtip() {
    let mut cpu = hart();
    cpu.mem.write_double_word(CLINT_MTIMECMP, 2);
    marv32::timer::update(&mut cpu);
    assert_eq!(cpu.regs.csr.mip & 0x80, 0);
    marv32::timer::update(&mut cpu);
    assert_eq!(cpu.regs.csr.mip & 0x80, 0x80);
    cpu.mem.write_double_word(CLINT_MTIMECMP, 100);
    marv32::timer::update(&mut cpu);
    assert_eq!(cpu.regs.csr.mip & 0x80, 0);
}

#[test]
fn reset_state() {
    let mut cpu = RiscV32::with_ram_size(MIN_RAM_SIZE);
    cpu.regs.x[3] = 9;
    cpu.mem.write_byte(100, 1);
    cpu.reset();
    assert!(cpu.status);
    assert_eq!(cpu.privilege, 3);
    assert_eq!(cpu.regs.x[3], 0);
    assert_eq!(cpu.mem.read_byte(100), 0);
    assert_eq!(cpu.regs.csr.misa, MISA_RV32IMASU);
    assert_eq!(cpu.regs.csr.misa, (1 << 30) | (1 << 20) | (1 << 18) | (1 << 12) | (1 << 8) | 1);
    assert_eq!(cpu.regs.csr.mhartid, 0);
    assert_eq!(cpu.mem.read_double_word(CLINT_MTIMECMP), u64::MAX);
}

#[test]
fn fetch_past_ram_is_access_fault() {
    let mut cpu = hart();
    cpu.regs.csr.mtvec = 0x100;
    cpu.regs.pc = (MIN_RAM_SIZE - 2) as u32;
    assert_eq!(cpu.step(), Some(Trap::InstructionAccessFault));
    assert_eq!(cpu.regs.pc, 0x100);
    assert_eq!(cpu.regs.csr.mepc, (MIN_RAM_SIZE - 2) as u32);
    assert_eq!(cpu.regs.csr.mtval, (MIN_RAM_SIZE - 2) as u32);
}

#[test]
fn unknown_instruction_is_illegal() {
    let mut cpu = hart();
    cpu.regs.csr.mtvec = 0x200;
    load_program(&mut cpu, 0, &[0xFFFF_FFFF]);
    assert_eq!(cpu.step(), Some(Trap::IllegalInstruction));
    assert_eq!(cpu.regs.pc, 0x200);
    assert_eq!(cpu.regs.csr.mcause, 2);
    assert_eq!(cpu.regs.csr.mepc, 0);
}

#[test]
fn mret_returns_to_mepc() {
    let mut cpu = hart();
    cpu.regs.csr.mepc = 0x40;
    cpu.regs.csr.mstatus = (1 << 11) | (1 << 7);
    load_program(&mut cpu, 0, &[0x30200073]);
    assert_eq!(cpu.step(), None);
    assert_eq!(cpu.regs.pc, 0x40);
    assert_eq!(cpu.privilege, 1);
    assert_eq!(cpu.regs.csr.mstatus, (1 << 7) | (1 << 3));
}

#[test]
fn sret_returns_to_sepc() {
    let mut cpu = hart();
    cpu.privilege = 1;
    cpu.regs.csr.sepc = 0x80;
    cpu.regs.csr.sstatus = 1 << 5;
    load_program(&mut cpu, 0, &[0x10200073]);
    assert_eq!(cpu.step(), None);
    assert_eq!(cpu.regs.pc, 0x80);
    assert_eq!(cpu.privilege, 0);
    assert_eq!(cpu.regs.csr.sstatus, (1 << 5) | (1 << 1));
}

#[test]
fn mret_from_user_is_illegal() {
    let mut cpu = hart();
    cpu.privilege = 0;
    cpu.regs.csr.mtvec = 0x500;
    load_program(&mut cpu, 0, &[0x30200073]);
    assert_eq!(cpu.step(), Some(Trap::IllegalInstruction));
    assert_eq!(cpu.regs.pc, 0x500);
    assert_eq!(cpu.privilege, 3);
    assert_eq!(cpu.regs.csr.mstatus & (3 << 11), 0);
}
