use vstd::prelude::*;

pub mod copy;
pub mod dto;
pub mod seqs;
pub mod skills;
pub mod state;
pub mod text;
pub mod handlers;
pub mod services;
pub mod dice;
pub mod story_arc;
pub mod actions;
pub mod spectator;
pub mod workflow;
pub mod forms;
pub mod director;
pub mod settings;
pub mod views;
