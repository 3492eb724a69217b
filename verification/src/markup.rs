//! The fixed text of the pages.

pub mod audit;
pub mod cases;
pub mod disclosure;
pub mod export;
pub mod public;
pub mod triage;
