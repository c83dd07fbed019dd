//! The file editor: search and replace within a file.

use vstd::prelude::*;
use crate::text::concat;
use crate::tools::file::{apply_edit, edited};

verus! {

/// Error when the text to replace is not in the file.
pub const EDIT_NOT_FOUND: &'static str = "The target string 'old_str' was not found in the file. Make sure indentation matches exactly.";

/// Schema of the file editor's arguments (JSON text).
pub const FILE_EDIT_SCHEMA: &'static str = "{\"type\":\"object\",\"properties\":{\"file_path\":{\"type\":\"string\",\"description\":\"Path to the file to edit\"},\"old_str\":{\"type\":\"string\",\"description\":\"The exact contiguous block of text to replace. Must match the file contents perfectly including whitespace and indentation.\"},\"new_str\":{\"type\":\"string\",\"description\":\"The new block of text that will replace old_str.\"}},\"required\":[\"file_path\",\"old_str\",\"new_str\"]}";

/// Edits a file by replacing a block of text.
pub struct FileEditTool;

impl FileEditTool {
    pub fn new() -> Self {
        FileEditTool
    }

    pub fn name(&self) -> (r: &'static str)
        ensures
            r@ == "file_edit"@,
    {
        "file_edit"
    }

    pub fn description(&self) -> (r: &'static str)
        ensures
            r@ == "Edit a file by finding a specific string block and replacing it. This is useful for editing existing code."@,
    {
        "Edit a file by finding a specific string block and replacing it. This is useful for editing existing code."
    }

    pub fn input_schema(&self) -> (r: &'static str)
        ensures
            r@ == FILE_EDIT_SCHEMA@,
    {
        FILE_EDIT_SCHEMA
    }

    /// The error when `path` cannot be read.
    pub fn read_failure(&self, path: &str) -> (r: String)
        ensures
            r@ == "Failed to read file: "@ + path@,
    {
        concat("Failed to read file: ", path)
    }

    /// The error when the edited `path` cannot be written.
    pub fn write_failure(&self, path: &str) -> (r: String)
        ensures
            r@ == "Failed to write edited file: "@ + path@,
    {
        concat("Failed to write edited file: ", path)
    }

    /// The file's new content, or the error when `old_str` does not occur.
    pub fn edit(&self, content: &str, old_str: &str, new_str: &str) -> (r: Result<String, String>)
        ensures
            match (r, edited(content@, old_str@, new_str@, EDIT_NOT_FOUND@)) {
                (Ok(s), Ok(t)) => s@ == t,
                (Err(e), Err(m)) => e@ == m,
                _ => false,
            },
    {
        apply_edit(content, old_str, new_str, EDIT_NOT_FOUND)
    }

    /// The reply after editing `path`.
    pub fn reply(&self, path: &str) -> (r: String)
        ensures
            r@ == "Successfully edited "@ + path@,
    {
        concat("Successfully edited ", path)
    }
}

} // verus!
