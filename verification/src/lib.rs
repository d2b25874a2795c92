//! Typed AArch64 memory addresses.
//!
//! [`addr`] holds the virtual and physical address types, the alignment
//! arithmetic they share and the decomposition of a virtual address into the
//! indices of a four-level, 4 KiB-granule translation table walk. [`regs`]
//! names the system registers that go with them.
//!
//! Verus proves the contract of every function of this crate from its body.
//! The exceptions are gathered in [`addr::bits`] and [`addr::text`], where
//! functions of other crates and of the standard library are given the
//! contracts that the rest is proved from.

pub mod addr;
pub mod regs;
