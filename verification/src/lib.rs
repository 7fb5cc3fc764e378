//! Transient user-facing notifications for a single application workspace:
//! a registry of active notifications deduplicated by (kind, instance id),
//! a process-wide tracker of notifications already shown once, and an
//! adapter that turns failed results into a generic error notification.

pub mod adapter;
pub mod lemmas;
pub mod message;
pub mod tracker;
pub mod workspace;
