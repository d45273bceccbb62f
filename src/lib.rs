//! Build reconciliation and bounded-concurrency job scheduling for
//! containerised workers.
//!
//! - `reconcile`, `apply`, `state`, `version`, `hashing`, `worker_config`:
//!   when a worker image is rebuilt and what each apply or build records.
//! - `jobs`, `container`, `project`, `api`: the job registry, its admission
//!   control, the containers of admitted jobs, and the HTTP surface's values.
//! - `settings`, `cli_support`, `text`, `describe`, `diff`, `dockerfile`, `yaml_tree`,
//!   `json`: the registry of workers and the pure parts of the command line.
pub mod api;
pub mod apply;
pub mod cli_support;
pub mod container;
pub mod describe;
pub mod diff;
pub mod dockerfile;
pub mod hashing;
pub mod jobs;
pub mod json;
pub mod project;
pub mod project_run;
pub mod reconcile;
pub mod run;
pub mod settings;
pub mod state;
pub mod text;
pub mod version;
pub mod worker_config;
pub mod yaml_tree;
