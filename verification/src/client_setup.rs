//! Decisions taken while a client is built: the data directory is
//! required, and the identity key comes from the caller, from the key file
//! in the data directory, or is generated and saved there.

use vstd::prelude::*;
use std::path::PathBuf;
use crate::error::MePassaError;
use crate::text::string_of;

verus! {

/// Where the identity key of a new client comes from.
#[derive(Debug, Clone, Copy, PartialEq, Eq, Structural)]
pub enum KeypairSource {
    /// The key handed to the builder.
    Given,
    /// The key file in the data directory; a new key is generated if it
    /// cannot be read.
    LoadFromFile,
    /// A new key, saved to the key file.
    GenerateAndSave,
}

/// The source of the identity key: the given key first, then an existing
/// key file, and otherwise a new key.
pub fn keypair_source(key_given: bool, key_file_exists: bool) -> (res: KeypairSource)
    ensures
        res == if key_given {
            KeypairSource::Given
        } else if key_file_exists {
            KeypairSource::LoadFromFile
        } else {
            KeypairSource::GenerateAndSave
        },
{
    if key_given {
        KeypairSource::Given
    } else if key_file_exists {
        KeypairSource::LoadFromFile
    } else {
        KeypairSource::GenerateAndSave
    }
}

/// The data directory of a client, which must have been set.
pub fn require_data_dir(data_dir: Option<PathBuf>) -> (res: Result<PathBuf, MePassaError>)
    ensures
        match data_dir {
            Some(d) => res matches Ok(r) && r == d,
            None => res matches Err(MePassaError::Other(m)) && m@ == "Data directory is required"@,
        },
{
    match data_dir {
        Some(d) => Ok(d),
        None => Err(MePassaError::Other(string_of("Data directory is required"))),
    }
}

} // verus!
