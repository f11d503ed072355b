//! Hardware abstraction for the digital I/O and the serial devices of the
//! STM32L4R5 microcontroller.
//!
//! Firmware claims a pin or a serial device from the [`arbiter`], gets a
//! handle that stands for exclusive access to it, and moves the handle
//! through the modes that the hardware knows. Every write goes through a
//! [`registers::RegisterFile`] and changes the bits of the caller's resource
//! and no others; the contracts say which.

pub mod arbiter;
pub mod bits;
pub mod clock;
pub mod gpio;
pub mod registers;
pub mod uart;
