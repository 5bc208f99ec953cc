//! Interaction core of a terminal dashboard for a fantasy-football squad:
//! the card grid and its navigation, the routing of fetched player images,
//! the dispatcher's decisions, and the text and layout that cards show.

pub mod squad;
pub mod card;
pub mod layout;
pub mod text;
pub mod action;
pub mod board;
pub mod group;
pub mod home;
pub mod dispatch;
pub mod summary;
