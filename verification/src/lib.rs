//! Records of a team/player/match score-keeping service: the shapes of the
//! records, how they are laid out as key-value items of the table that
//! stores them, the keys and queries the service asks for, and the
//! responses it answers with.

pub mod item;
pub mod models;
pub mod utils;
mod status;
pub mod records;
pub mod ddb;
pub mod ids;
pub mod api;
pub mod laws;
