//! Error taxonomy for playbook operations.
//!
//! All failures are value-returned: `NotFound` when a name is absent where
//! presence is required, `InvalidShortName` for a malformed role code, and
//! `NoCurrentPlay` when a draft operation is attempted with no draft loaded.
//! Soft "not performed" outcomes (an insert that found the name taken) are
//! reported as `Ok(false)`, never as errors.

use vstd::prelude::*;

verus! {

/// Error values surfaced by the entity store and the edit-session controller.
#[derive(Debug)]
pub enum PbcError {
    /// A name was looked up (or referenced by a mutating operation) and was
    /// absent from its store. Carries the offending name.
    NotFound(String),
    /// An entity already exists under the given name.
    AlreadyExists(String),
    /// A construction argument was malformed.
    InvalidInput(String),
    /// A role short name was not exactly four characters.
    InvalidShortName,
    /// A draft operation (save, save-as) was attempted while no draft play
    /// is loaded.
    NoCurrentPlay,
}

impl Clone for PbcError {
    fn clone(&self) -> (r: Self)
        ensures
            r == *self,
    {
        match self {
            PbcError::NotFound(s) => PbcError::NotFound(s.clone()),
            PbcError::AlreadyExists(s) => PbcError::AlreadyExists(s.clone()),
            PbcError::InvalidInput(s) => PbcError::InvalidInput(s.clone()),
            PbcError::InvalidShortName => PbcError::InvalidShortName,
            PbcError::NoCurrentPlay => PbcError::NoCurrentPlay,
        }
    }
}

impl PbcError {
    /// True exactly when this is a `NotFound` error.
    pub fn is_not_found(&self) -> (r: bool)
        ensures
            r == (self is NotFound),
    {
        match self {
            PbcError::NotFound(_) => true,
            _ => false,
        }
    }
}

} // verus!
