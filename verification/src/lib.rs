//! Register-level access to the GPIO peripheral of a Raspberry Pi class
//! single-board computer, together with a pin ownership and mode lifecycle.
//!
//! The register block is modelled word for word: [`gpio::mem::GpioMem`] owns
//! the 32-bit register window and performs all bit-field arithmetic for pin
//! function-select, output-set, output-clear and level-read operations. The
//! memory-mapped, volatile access to the real device cannot be reasoned about
//! here; an embedding program performs it with the word indices and bit
//! encodings this crate computes and proves correct.
//!
//! [`gpio::Gpio`] tracks which pins are claimed, so that at most one live
//! handle exists per pin. A claimed [`gpio::pin::Pin`] is converted into a
//! mode-specific handle such as [`gpio::pin::OutputPin`], which remembers the
//! pin's prior mode and can restore it on release.

pub mod gpio;
pub mod system;
