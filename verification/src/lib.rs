//! A minimal preemptive kernel core for a single-core RISC-V microcontroller:
//! a fixed-capacity round-robin task scheduler, a trap dispatcher with a
//! full-register context-switch protocol, and a periodic preemption timer,
//! together with the board's LED-matrix framebuffer and UART models.

pub mod hub75;
pub mod sched;
pub mod timer;
pub mod trap;
pub mod uart;
