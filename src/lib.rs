//! Conformance checks for interactive compute kernels that speak the Jupyter
//! messaging protocol.
//!
//! The library holds the parts of a conformance run that decide things: the
//! per-language snippet table, the result and report model, the correlation
//! and deadline rules of the kernel driver, the catalog of checks and the
//! planning of a suite run. Performing the socket and process work is left to
//! the caller, which feeds what it observed back into these functions.

mod clock;
pub mod catalog;
pub mod checks;
pub mod driver;
pub mod message;
pub mod snippets;
pub mod text;
pub mod types;
pub mod verdict;
