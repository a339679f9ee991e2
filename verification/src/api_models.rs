//! Records exchanged with the service's file-listing API: plain data.

use vstd::prelude::*;

verus! {

/// One remote file, as the listing API reports it.
#[derive(Debug)]
pub struct FileEntry {
    pub key: String,
    pub size: i64,
    pub last_modified: Option<String>,
    pub content_hash: Option<String>,
}

} // verus!
