//! TipJar SDK: transaction simulation, previews, fee estimates and the
//! pure parts of the tip analytics, with their behaviour stated and proved.
pub mod analytics;
pub mod simulation;
pub mod text;

pub use simulation::{CostCalculator, PreviewGenerator, TransactionSimulator};
