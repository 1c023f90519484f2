//! Workflow controller of a save editor for a community level archive:
//! the course catalog, the model of the opened save, the event reducer
//! and the derivation of the listeners that the current state needs.
pub mod app;
pub mod catalog;
pub mod laws;
pub mod panel;
pub mod reducer;
