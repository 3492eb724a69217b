//! The pages and the decisions behind each route.

pub mod audit;
pub mod cases;
pub mod disclosure;
pub mod export;
pub mod public;
pub mod triage;
