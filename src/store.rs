//! Where the ledger is stored, and the check of a stored file's format
//! version. Reading and writing the file belongs to the host.
use vstd::prelude::*;

verus! {

/// The name of the ledger file inside the store's directory.
pub const FILE_NAME: &'static str = "ledger.data";

/// The format version written in the header of every ledger file.
pub const CURRENT_VERSION: u32 = 0;

pub struct FileStore {
    root_path: String,
}

pub open spec fn version_mismatch_message() -> Seq<char> {
    "Version mismatch, cannot load file"@
}

impl FileStore {
    /// A store in the directory `root_path`.
    pub fn new(root_path: &str) -> (r: FileStore)
        ensures
            r.root_view() == root_path@,
    {
        FileStore { root_path: String::from_str(root_path) }
    }

    pub closed spec fn root_view(&self) -> Seq<char> {
        self.root_path@
    }

    pub fn root_path(&self) -> (r: &String)
        ensures
            r@ == self.root_view(),
    {
        &self.root_path
    }

    /// Accepts a file whose header carries the current format version.
    pub fn check_version(version: u32) -> (r: Result<(), String>)
        ensures
            version == CURRENT_VERSION <==> r is Ok,
            r matches Err(m) ==> m@ == version_mismatch_message(),
    {
        if version != CURRENT_VERSION {
            return Err(String::from_str("Version mismatch, cannot load file"));
        }
        Ok(())
    }
}

} // verus!
