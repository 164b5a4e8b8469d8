//! A self-updating launcher: compares the installed version against the
//! newest published release, plans the update when they differ, and decides
//! each step of a run from the outcome of the step before.

pub mod feed;
pub mod launcher;
pub mod update;
pub mod version;
