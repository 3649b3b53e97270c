//! View-model core of an artist details screen.
//!
//! A single store owns the application state. View-models read it through
//! projections, dispatch actions to change it, and schedule fetches whose
//! outcomes come back as actions on the same path.

pub mod actions;
pub mod api;
pub mod app_model;
pub mod app_state;
pub mod artist_details_model;
pub mod browser_state;
pub mod dispatcher;
pub mod list_store;
pub mod models;
pub mod pagination;
pub mod playlist_model;
