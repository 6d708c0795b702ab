//! Runtime support for selecting an optimized backend: CPU capability
//! detection and the proof tokens that come out of it.
//!
//! Every capability decision is a function of an explicit description of the
//! host (its architecture, the build's disable switches, the process's
//! override variables and what the processor or operating system reports),
//! so the same rules can be checked for every host, not only the one this
//! code happens to run on. Results are memoised per capability in a
//! [`intrinsics::detect::Cache`].
//!
//! A proof token says what its capability's decision said of the host that
//! was described; it speaks for the running processor when that description
//! is the running process's, as the process-wide entry points build it.

pub mod intrinsics;
