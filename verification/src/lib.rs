//! Campaign, session and attendance bookkeeping for tabletop-game communities.
//!
//! The crate models a community-partitioned registry of campaigns, the
//! sessions scheduled under them, the attendance responses recorded against
//! those sessions, and per-community role settings.  All records live in a
//! [`store::Store`], an explicit storage handle that every operation takes;
//! the chat front end and the persistence layer stay outside this crate.

pub mod campaign_ops;
pub mod dates;
pub mod ids;
pub mod laws;
pub mod model;
pub mod response_ops;
pub mod session_ops;
pub mod settings_ops;
pub mod store;
pub mod text;
