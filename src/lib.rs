//! Batch editing of audio tags from a script.
//!
//! A script holds a default block of tag values, then one block per file
//! that overrides them. [`script`] parses it, [`validate`] checks the files
//! it names, [`resolve`] computes effective values and expands rename
//! templates, [`plan`] turns a script into the commands to run, and [`run`]
//! decides how a run proceeds as those commands finish. [`scaffold`] writes a
//! starting script for a directory.

pub mod plan;
pub mod resolve;
pub mod run;
pub mod scaffold;
pub mod script;
pub mod text;
pub mod validate;
