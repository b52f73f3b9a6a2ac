//! A project-scaffolding engine: the descriptor model of a template, the
//! resolution of configuration values with their precedence rules, the render
//! context with its substitution, and the plan that turns a file tree into the
//! directories and files of a new project.

pub mod model;
pub mod resolve;
pub mod vcs;
pub mod context;
pub mod plan;
pub mod laws;
pub mod builtin;
