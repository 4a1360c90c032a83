//! A verified core for a hierarchical photo-album editor.
//!
//! An album holds an ordered sequence of groups, each holding an ordered
//! sequence of pictures. Leaf editors never touch this document directly:
//! they emit typed deltas ([`models::group_update::GroupUpdate`]) that the
//! reducer ([`reducer`]) applies, and deletion of whole entities runs through
//! the orchestrator ([`orchestrator`]), which fans out one remote deletion
//! per child picture, counts resolutions, and only issues the parent deletion
//! once every child attempt has resolved.

pub mod gateway;
pub mod models;
pub mod orchestrator;
pub mod reducer;
pub mod slides;
pub mod store;
