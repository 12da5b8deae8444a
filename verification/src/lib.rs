//! The state of a small theme editor for egui: its defaults, the edits a
//! user makes, and what a start makes of what was kept of the last run.
//!
//! [`state`] holds the state and the edits, [`theme`] the editable colours
//! of the theme, [`persist`] the fields that are kept between runs with
//! [`state::TemplateApp::new`] and [`state::TemplateApp::save`], and [`laws`]
//! what is proved of them.

pub mod color;
pub mod laws;
pub mod persist;
pub mod state;
pub mod theme;
