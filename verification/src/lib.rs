//! Bridge for the error state of an embedded, reference-counted dynamic
//! runtime driven through a foreign-function boundary.
//!
//! The runtime keeps its pending error in a single process-wide slot made of
//! three reference-counted handles (type, value, traceback). This crate pulls
//! that triple out of the slot atomically, owns it with host value semantics,
//! normalizes it on demand, and pushes it back when re-raising.
//!
//! The runtime itself is represented by the explicit capability value
//! [`runtime::Python`]: every operation that talks to the runtime takes it as
//! a parameter, which makes the single-lock-holder discipline visible at each
//! call site. The module [`model`] gives the mathematical view of the runtime
//! state over which all contracts are stated; [`err`] holds the error triple
//! [`err::PyErr`] and the result adapters; [`laws`] states and proves the
//! crate-wide properties.

pub mod model;
pub mod runtime;
pub mod err;
pub mod laws;
