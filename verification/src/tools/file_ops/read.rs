//! The file reader.

use vstd::prelude::*;
use crate::text::concat;

verus! {

/// Schema of the file reader's arguments (JSON text).
pub const FILE_READ_SCHEMA: &'static str = "{\"type\":\"object\",\"properties\":{\"file_path\":{\"type\":\"string\",\"description\":\"Absolute or relative path to the file to read\"}},\"required\":[\"file_path\"]}";

/// Reads the contents of a file.
pub struct FileReadTool;

impl FileReadTool {
    pub fn new() -> Self {
        FileReadTool
    }

    pub fn name(&self) -> (r: &'static str)
        ensures
            r@ == "FileRead"@,
    {
        "FileRead"
    }

    pub fn description(&self) -> (r: &'static str)
        ensures
            r@ == "Read the contents of a file. Returns file content."@,
    {
        "Read the contents of a file. Returns file content."
    }

    pub fn input_schema(&self) -> (r: &'static str)
        ensures
            r@ == FILE_READ_SCHEMA@,
    {
        FILE_READ_SCHEMA
    }

    /// The error when `path` cannot be read.
    pub fn read_failure(&self, path: &str) -> (r: String)
        ensures
            r@ == "Failed to read file: "@ + path@,
    {
        concat("Failed to read file: ", path)
    }
}

} // verus!
