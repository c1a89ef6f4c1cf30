pub mod message;
pub mod event;
