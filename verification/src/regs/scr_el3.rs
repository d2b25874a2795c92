//! Secure Configuration Register - EL3, page D12.2.99 of armv8arm.
//!
//! Defines the configuration of the current Security state. It specifies:
//! - The Security state of EL0, EL1, and EL2. The Security state is either
//!   Secure or Non-secure.
//! - The Execution state at lower Exception levels.
//! - Whether IRQ, FIQ, SError interrupts, and External abort exceptions are
//!   taken to EL3.
//! - Whether various operations are trapped to EL3.

use vstd::prelude::*;

verus! {

/// Handle for the register `SCR_EL3`.
///
/// The handle holds no state: reading and writing the register itself is
/// left to the code that runs on the processor.
pub struct Reg;

} // verus!
