//! Errors of the service's configuration.

use vstd::prelude::*;

verus! {

/// `std::io::Error`, carried through unchanged.
#[verifier::external_type_specification]
#[verifier::external_body]
pub struct ExIoError(std::io::Error);

/// Why the configuration could not be had.
#[derive(Debug)]
pub enum ConfigError {
    /// Reading failed.
    IoError(std::io::Error),
    /// The configuration sources could not be loaded, or the url they hold is
    /// no text; the text is the `config` crate's message.
    Load(String),
}

} // verus!
