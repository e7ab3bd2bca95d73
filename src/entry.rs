use vstd::prelude::*;

verus! {

/// One entry of a directory as it was read from the file system.
///
/// Every field that needs the file system to be known is filled in by the
/// reader before any decision is taken here.
pub struct DirEntryInfo {
    /// The entry's file name, or `None` where it is not valid UTF-8.
    pub name: Option<String>,
    /// The entry rendered for messages (its debug form).
    pub shown: String,
    /// Whether the entry is a directory, or the text of the error met while
    /// asking for its file type.
    pub is_dir: Result<bool, String>,
    /// The entry's canonical path rendered for messages and code, or the text
    /// of the error met while resolving it.
    pub canonical: Result<String, String>,
    /// The entries of the directory, or the text of the error met while
    /// listing it (also where the entry is a file that was not listed).
    pub listing: Listing,
}

/// One item produced while listing a directory: an entry, or the text of the
/// error met while reading it.
pub type ReadResult = Result<DirEntryInfo, String>;

/// The outcome of listing a directory: its items, or the text of the error
/// met while opening it.
pub type Listing = Result<Vec<ReadResult>, String>;

} // verus!
