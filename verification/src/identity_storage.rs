//! Location of the file-based identity store (for development and tests):
//! one JSON file, `identity.json`, in a data directory. Reading and writing
//! the file are the caller's part.

use vstd::prelude::*;
use std::path::PathBuf;

verus! {

/// The path `Path::join` makes of a base path and a name: the name pushed
/// onto the base. A `PathBuf` has no model in this library, so the path is
/// named rather than described.
pub uninterp spec fn path_joined(base: PathBuf, name: Seq<char>) -> PathBuf;

/// Calls `base.join(name)`. Claimed: the result is the named join of the
/// base path and the name (a function of the two alone).
#[verifier::external_body]
fn path_join(base: &PathBuf, name: &str) -> (res: PathBuf)
    ensures
        res == path_joined(*base, name@),
{
    base.join(name)
}

/// File-based identity storage. It keeps keys in plaintext and is meant
/// for development only.
pub struct FileIdentityStorage {
    data_dir: PathBuf,
}

impl FileIdentityStorage {
    /// The data directory.
    pub closed spec fn data_dir_spec(&self) -> PathBuf {
        self.data_dir
    }

    /// A storage whose identity file lies in `data_dir`.
    pub fn new(data_dir: PathBuf) -> (res: Self)
        ensures
            res.data_dir_spec() == data_dir,
    {
        Self { data_dir }
    }

    /// The data directory.
    pub fn data_dir(&self) -> (res: &PathBuf)
        ensures
            *res == self.data_dir_spec(),
    {
        &self.data_dir
    }

    /// Path of the identity file: `identity.json` in the data directory.
    pub fn identity_path(&self) -> (res: PathBuf)
        ensures
            res == path_joined(self.data_dir_spec(), "identity.json"@),
    {
        path_join(&self.data_dir, "identity.json")
    }
}

} // verus!
