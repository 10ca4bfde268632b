//! Early-boot core of a bare-metal x86 kernel: the boot memory map, a
//! physical bump allocator, segment and interrupt descriptor tables, the
//! legacy interrupt controller, I/O port ownership and a spin mutex, with
//! the text terminal and framebuffer that report what happens.
pub mod allocator;
pub mod bits;
pub mod framebuffer;
pub mod gdt;
pub mod interrupt;
pub mod multiboot;
pub mod mutex;
pub mod pic;
pub mod ports;
pub mod vga;
pub mod volatile;
