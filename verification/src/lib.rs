//! Reconciles a container engine's inventory with its live statistics
//! snapshot and plans the gauge writes of one scrape.

pub mod collector;
pub mod error;
pub mod inventory;
pub mod laws;
pub mod metrics;
pub mod plan;
pub mod registry;
pub mod state;
pub mod stats;
pub mod value;
