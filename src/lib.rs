//! Maps the dependencies detected in a project to the packaging inputs that a
//! reproducible development shell needs, through a versioned dependency
//! registry.
//!
//! - `target`, `dev_env`: configuration layers and the environment they are
//!   folded into, in the canonical order of names that `order` defines, with
//!   `laws` stating what every composition satisfies;
//! - `registry`, `refresh`, `store`: the registry snapshot, how it is loaded,
//!   how a newer one replaces it, and the store that shares it;
//! - `metadata`, `configuration`: what projects report about themselves, and
//!   a layer that reports the variables it overrides;
//! - `flake`, `nix_dev_env`, `version`, `cli`: the shell description, the
//!   environment of commands run in it, release checks and argument rules.
pub mod model;
pub mod order;

pub mod target;
pub mod dev_env;
pub mod laws;

pub mod registry;
pub mod refresh;
pub mod store;

pub mod metadata;
pub mod configuration;

pub mod flake;
pub mod nix_dev_env;
pub mod version;
pub mod cli;
