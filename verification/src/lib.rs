//! A verified traversal-and-dispatch core for batch letterbox removal.
//!
//! The library walks a file-system path (a single file or a directory
//! tree), classifies each discovered entry by its syntactic form, and
//! routes it to the appropriate removal operation with a caller-supplied
//! detection threshold. All file-system and image I/O is performed by the
//! surrounding application: the library is a state machine that, fed the
//! outcome of each I/O step, decides the next action and enforces the
//! traversal policy (recursion only on request, warnings for non-images,
//! fail-fast on the first failure).

pub mod classify;
pub mod config;
pub mod driver;
