//! A single-hart RV32IMA + Zicsr system emulator core: RAM, register and CSR
//! files, decoder, per-extension executors, trap machinery, a 16550-style UART
//! and a CLINT timer, each with a functional model that its code is proved
//! against.
pub mod bootloader;
pub mod cpu;
pub mod csr;
pub mod decode;
pub mod extensions;
pub mod interrupt;
pub mod memory;
pub mod timer;
pub mod trap;
pub mod uart;
