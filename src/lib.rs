//! A dynamic binary translator core: a typed SSA-style IR, an AArch64 frontend
//! that lowers guest instructions into translation blocks, a textual backend,
//! and the runtime's scheduling rules.

use vstd::prelude::*;

/// The AArch64 frontend: decoding guest instructions and lowering them to IR.
pub mod arm64;
/// Bit-field extraction helpers over instruction words.
pub mod bits;
/// The frontend: translation blocks, guest memory and the AArch64 disassembler.
pub mod guest;
/// The backend contract and the textual IR backend.
pub mod host;
/// The IR: value types, storage, operators and their constructors.
pub mod ir;
/// The runtime: the pending-PC queue, trap protocol and program loading.
pub mod runtime;

verus! {

} // verus!
