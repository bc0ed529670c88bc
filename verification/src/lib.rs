//! Native code emission for a translated WebAssembly module.
//!
//! The functions of a module are verified and compiled one after the other by
//! the Cretonne code generator, the relocations reported while their machine
//! code is emitted are recorded, and the code is added to a faerie artifact,
//! from which an object file is written.
//!
//! The code generator is driven from outside this crate. What is decided here
//! is what to do with each of its answers: see [`emit_module`].

pub mod artifact;
pub mod emit_module;
pub mod pretty_error;
pub mod reloc_sink;
pub mod theorems;

pub use emit_module::{
    emit_module, start, Advance, Compilation, Compiled, CompileJob, EmitJob, Fatal, Stop, VerifyJob,
};
pub use pretty_error::{pretty_error, pretty_verifier_error, CtonError, InstText, VerifierError};
pub use reloc_sink::{
    CodeOffset, Ebb, FaerieRelocSink, FuncRef, JumpTable, Reloc, RelocRef, RelocSinkView,
};
