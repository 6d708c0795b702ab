//! The BMI1 capability under its Bouncy Castle name.
pub use super::Bmi1X64 as X64;
