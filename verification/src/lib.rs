//! Deployment orchestration for a composed application: a declarative
//! configuration is resolved into environments, and each verb (`login`,
//! `build`, `push`, `deploy` and their composites) is planned as a pipeline of
//! steps for the caller to perform, with the rule that decides after each step
//! how the pipeline goes on.
//!
//! - `document`: configuration documents, read from text with the `toml` crate.
//! - `config`: the resolution of a document into a `Configuration`.
//! - `compose`: the composition manifest and its deployment overlay.
//! - `exec`: argument lists for remote programs, and build arguments.
//! - `credentials`: the registry credentials document.
//! - `pipeline`: steps, errors, and how a pipeline proceeds.
//! - `flow`: the pipelines of `build`, `push` and `deploy`.
//! - `provider::docker`: the verbs, `login`, and the dispatch.
//! - `text`: strings, paths and white space.

pub mod compose;
pub mod config;
pub mod credentials;
pub mod document;
pub mod exec;
pub mod flow;
pub mod pipeline;
pub mod provider;
pub mod text;
