//! Roster and lifecycle engine for "looking for group" event posts.

pub mod activities;
pub mod commands;
pub mod components;
pub mod error;
pub mod guild;
pub mod lemmas;
pub mod modals;
pub mod post;
pub mod reconcile;
pub mod reminders;
pub mod text;

pub use error::Error;
pub use post::{PostBuilder, PostRow};
