//! The migration engine: manifests, the migration and recovery state
//! machines, and their helpers.
pub mod manifest;
pub mod paths;
pub mod run;
pub mod recovery;
pub mod control;
pub mod locks;
pub mod walk;
pub mod undo;
pub mod messages;
