//! The verified core of a minimal virtual-machine monitor.
//!
//! The monitor creates one virtual CPU on the kernel's virtualization
//! facility, loads a flat binary at guest address 0 and serves the exits of
//! the guest: halt, port transfers, internal error and shutdown. This
//! library holds what the monitor computes and decides, with contracts that
//! are proved; the system calls, the console and the clock belong to the
//! program around it.
//!
//! - [`request`]: the requests made of the kernel, their codes, and the
//!   reading of the status that comes back.
//! - [`memory`]: the guest's memory region and the loading of an image.
//! - [`registers`]: the register state before the first run.
//! - [`page`]: the control page shared with the kernel, read and written as
//!   bytes at fixed offsets.
//! - [`console`]: integers in decimal, written and read.
//! - [`dispatch`]: the state machine that answers each exit and each line
//!   of input with the next state and a list of effects.

pub mod console;
pub mod dispatch;
pub mod memory;
pub mod page;
pub mod registers;
pub mod request;
