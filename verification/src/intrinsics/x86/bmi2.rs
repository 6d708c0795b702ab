//! The BMI2 capabilities under their Bouncy Castle names.
pub use super::Bmi2X64 as X64;
