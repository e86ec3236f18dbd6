//! Verified core of the x9 transfer tool: the events that flow from the copy
//! engine to the dashboard, the rules by which the dashboard reacts to them,
//! the per-file transfer workflow, and the text and path helpers they use.
pub mod events;
pub mod text;
pub mod paths;
pub mod dashboard;
pub mod transfer;
pub mod laws;
