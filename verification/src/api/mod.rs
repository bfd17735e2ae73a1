//! What each request handler of the service decides: the keys it looks
//! up, the records it creates, and what it answers for what the table
//! gave back.

pub mod game;
pub mod player;
pub mod team;
