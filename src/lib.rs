//! Commit messages, tag annotations and changelog sections from a repository's history.

pub mod text;
pub mod git;
pub mod changelog;
pub mod cli;
pub mod config;
pub mod llm;
pub mod prompts;
mod backend;
