//! Core of a multi-tenant scheduling service: users own and join groups,
//! groups own events, and users form unidirectional friendships.
//!
//! The crate is the authorization and relationship-resolution core: it decides
//! which events, groups and notifications a user may see or modify, drives the
//! participation state machine that governs group membership, and performs the
//! friend-graph mutations. Persistence is modelled by an explicit [`store::Store`]
//! value handed into every call; session transport and page rendering stay with
//! the caller.

pub mod endpoints;
pub mod events;
pub mod friends;
pub mod group;
pub mod hashing;
pub mod notifications;
pub mod page_template;
pub mod seq_util;
pub mod session;
pub mod store;
pub mod users;
