//! Keybinding profile engine for a compositor overlay daemon: key combos and
//! actions, profile validation, the switch/restore planner with conflict
//! arbitration, window geometry, usage statistics, health reporting, the
//! wire vocabulary and the Lua command builders.
pub mod text;
pub mod error;
pub mod binding;
pub mod profile_metadata;
pub mod conflict;
pub mod profile;
pub mod state;
pub mod keyed;
pub mod protocol;
pub mod presets;
pub mod layout;
pub mod named;
pub mod stats;
pub mod hypr;
pub mod health;
pub mod plugin;
pub mod backend;
pub mod daemon;
pub mod requests;
pub mod cli;
pub mod tui;
