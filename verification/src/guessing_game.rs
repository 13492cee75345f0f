pub mod chance;
pub mod error;
pub mod game;
pub mod laws;
pub mod message;
pub mod number;
