use vstd::prelude::*;

pub mod agent;
pub mod cli;
pub mod config;
pub mod engine_plan;
pub mod json;
pub mod llm;
pub mod message;
pub mod models;
pub mod screen;
pub mod mouse;
pub mod text;
pub mod tool;
pub mod tool_run;
pub mod ui;
pub mod widgets;
