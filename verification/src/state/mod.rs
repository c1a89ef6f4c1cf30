pub mod generation;
pub mod approval;
pub mod challenge;
pub mod connection;
pub mod dialogue;
pub mod game;
pub mod session;
