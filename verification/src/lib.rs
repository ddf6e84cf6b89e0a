//! Registrar for configuration (ini) entry definitions in the record layout
//! that a foreign native runtime's registration entry point consumes.
//!
//! The library builds validated entry records ([`entry::IniEntryDef`]),
//! always appends the all-zero terminator record that tells the runtime
//! where the list ends, and models the irreversible hand-off of the
//! materialized block as consuming operations on move-only handle types
//! ([`registrar::RawEntryList`], [`registrar::RegistrationRequest`]).
//! The foreign call itself is an unverified concern of the surrounding
//! program; this crate decides what is handed across the boundary and what
//! each possible outcome of the call means.

pub mod entry;
pub mod permission;
pub mod registrar;
