//! The document model: albums, their groups and pictures, the closed set of
//! edit events, and the transient per-row deletion state.

pub mod album;
pub mod caption;
pub mod group;
pub mod group_update;
pub mod notif;
pub mod oid;
pub mod page;
pub mod picture;
pub mod sharing;
pub mod state;
pub mod trip;
pub mod user;
