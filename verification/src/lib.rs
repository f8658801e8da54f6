//! Verified core of a command-line tool that treats language models as Unix text filters.

pub mod text;
pub mod json_repair;
pub mod tokens;
pub mod output;
pub mod config;
pub mod llm;
pub mod rules;
pub mod commands;
pub mod context;
pub mod chunk;
pub mod input;
pub mod prompts;
pub mod repl;
pub mod error;
pub mod cli;
pub mod parsers;
pub mod wire;
pub mod pipeline;
pub mod agent;
