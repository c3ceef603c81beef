//! The pin configuration.
pub mod regs;

pub use regs::{FilterClockSelect, FilterType, FunctionSelect, Pull};
