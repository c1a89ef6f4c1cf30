pub mod dm_marker;
pub mod event_card;
pub mod timeline;
