//! Transaction simulation, human-readable previews and fee estimates.
pub mod cost_calculator;
pub mod preview;
pub mod simulator;

pub use cost_calculator::CostCalculator;
pub use preview::PreviewGenerator;
pub use simulator::TransactionSimulator;
pub mod laws;
