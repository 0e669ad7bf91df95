//! Core logic of a portfolio single-page application: route resolution,
//! navigation-chrome animation phases, pointer-to-grid avatar selection,
//! gallery/lightbox state, and the contact-form submission protocol.
//!
//! Everything here is plain data and decisions; rendering, timers and
//! network transport live outside the library and feed events in.

pub mod text;
pub mod router;
pub mod chrome;
pub mod nav;
pub mod avatar;
pub mod gallery;
pub mod contact;
pub mod style;
pub mod tabs;
pub mod viewer;
