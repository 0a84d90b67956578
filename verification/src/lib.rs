//! Terminal-session multiplexer for git worktrees: the session, workspace and
//! interaction-mode logic, stated over plain values and verified.

pub mod add_worktree;
pub mod app;
pub mod commands;
pub mod completions;
pub mod config;
pub mod context;
pub mod docker;
pub mod git;
pub mod gui;
pub mod jira;
pub mod keymap;
pub mod paths;
pub mod scanner;
pub mod screen;
pub mod session;
pub mod size;
pub mod status;
pub mod text;
pub mod title;
pub mod workspace;
