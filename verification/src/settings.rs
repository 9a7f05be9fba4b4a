//! Where the journal is kept when the entries are stored in a JSON file.

use vstd::prelude::*;
use std::path::PathBuf;
use crate::error::EditorError;

verus! {

/// A path of the file system, carried as std has it.
#[verifier::external_type_specification]
#[verifier::external_body]
pub struct ExPathBuf(PathBuf);

/// The path that `PathBuf::from` makes of a text.
pub uninterp spec fn path_of(text: Seq<char>) -> PathBuf;

/// The path of the file of entries that is used where none is configured.
pub const DEFAULT_JSON_PATH: &'static str =
    "/Users/nunezcha/Documents/log_cold_storage/entries.json";

/// The settings of the JSON store.
#[derive(Debug)]
pub struct JsonBackend {
    /// The path of the file of entries, if one is configured.
    pub file_path: Option<PathBuf>,
}

impl Default for JsonBackend {
    /// No path is configured.
    fn default() -> (out: JsonBackend)
        ensures
            out.file_path is None,
    {
        JsonBackend { file_path: None }
    }
}

/// `PathBuf::from` of a string slice: the path that holds the text. The path
/// is a function of the text alone.
#[verifier::external_body]
fn path_from(text: &str) -> (path: PathBuf)
    ensures
        path == path_of(text@),
{
    PathBuf::from(text)
}

/// The fixed path of the file of entries. It is always given.
pub fn get_default_json_path() -> (out: Result<PathBuf, EditorError>)
    ensures
        out == Ok::<PathBuf, EditorError>(path_of(DEFAULT_JSON_PATH@)),
{
    Ok(path_from(DEFAULT_JSON_PATH))
}

} // verus!
