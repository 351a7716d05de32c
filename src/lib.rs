//! Navigation, projection and input handling for a terminal viewer over a
//! snapshot of VATSIM network data (pilots and controllers).
//!
//! The snapshot itself is fetched and decoded by the surrounding program; this
//! library holds the data model, the navigation state machine, the per-frame
//! view projection and the keyboard dispatcher, all with verified contracts.

pub mod api;
pub mod input;
pub mod models;
pub mod sorting;
pub mod state;
