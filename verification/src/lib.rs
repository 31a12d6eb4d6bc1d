//! Core of a chat moderation agent that removes a targeted kind of media
//! message a fixed grace period after it was posted, in chats where the agent
//! is known to hold delete permission.
//!
//! Two independent components share the work: a [`permission::PermissionCache`]
//! that memoizes one capability check per chat, and a [`pending::PendingSet`]
//! that holds admitted messages and, once per tick, drains those whose grace
//! period has elapsed. The surrounding process (event stream, backend calls,
//! timers) lives outside this crate and drives these components with plain
//! values.

pub mod ingest;
pub mod lifecycle;
pub mod permission;
pub mod pending;
