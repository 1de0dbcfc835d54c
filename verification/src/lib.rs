//! Shell event coordination for a desktop and mobile productivity application.
//!
//! Raw shell events (tray clicks, menu selections, global shortcuts) are mapped
//! to semantic actions by the adapters, and the coordinator turns each action
//! into the commands that the host has to carry out on the window, the UI
//! layer and the operating system. Nothing in this crate performs I/O: every
//! function takes the outcome of outside work as a plain value and answers
//! with the next thing to do.
//!
//! - [`action`]: the catalog of actions.
//! - [`binding`]: tables from event keys to actions, checked for collisions.
//! - [`menu`], [`tray`], [`shortcut`]: the three adapters and their tables.
//! - [`window`]: the window state tracker; [`window_laws`]: what its
//!   operations achieve.
//! - [`coordinator`]: the dispatcher; [`coordinator_laws`]: what handling an
//!   action comes to; [`events`]: the entry points for the platform's
//!   callbacks.
//! - [`settings`], [`reconciler`], [`reconciler_laws`]: the persisted
//!   preferences and the auto-launch registration; [`json`]: the stored
//!   documents.
//! - [`notifications`], [`haptics`], [`platform`]: the smaller services.
//! - [`text`]: string comparison.

pub mod action;
pub mod binding;
pub mod coordinator;
pub mod coordinator_laws;
pub mod events;
pub mod haptics;
pub mod json;
pub mod menu;
pub mod notifications;
pub mod platform;
pub mod reconciler;
pub mod reconciler_laws;
pub mod settings;
pub mod shortcut;
pub mod text;
pub mod tray;
pub mod window;
pub mod window_laws;
