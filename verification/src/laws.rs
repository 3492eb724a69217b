//! What holds of the operations as a whole, said of what goes in and what comes
//! out.

pub mod audit;
pub mod cases;
pub mod disclosure;
pub mod export;
pub mod public;
pub mod triage;
