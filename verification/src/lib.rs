//! Single-slot process supervisor.
//!
//! The library manages "the currently running user program": a shared slot
//! holding at most one process handle, with atomic replace and take
//! operations, and the decision logic of the compile-and-run pipeline that
//! feeds it. Compilation, spawning and termination are outside work performed
//! by the embedding program, which hands their outcomes back to the verified
//! decision functions here.

pub mod bundle;
pub mod laws;
pub mod pipeline;
pub mod slot;

pub use bundle::SourceBundle;
pub use pipeline::CompileError;
pub use pipeline::TerminationError;
pub use slot::ProcessHandle;
pub use slot::ProcessSlot;
