//! The vector-width carry-less multiplication capabilities under their
//! Bouncy Castle names.
pub use super::PclmulqdqV256 as V256;
pub use super::PclmulqdqV512 as V512;
