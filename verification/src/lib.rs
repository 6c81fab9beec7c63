//! Live-preview pipeline for a continuously executed compute shader: a
//! single-slot frame relay between a producer and a consumer running at
//! independent cadences, a mutex-guarded control channel, a typed event
//! channel, a dependency-aware shader import resolver, a watch-set manager
//! with debouncing, and a rolling-window rate estimator.

pub mod cli;
pub mod file_watcher;
pub mod multi_file_watcher;
pub mod screen;
pub mod shader_import;
pub mod shader_shell;
pub mod terminal_buffer;
pub mod terminal_render;
pub mod terminal_renderer;
pub mod text;
pub mod threading;
pub mod validation;
