//! The file writer.

use vstd::prelude::*;
use crate::text::concat;
use crate::tools::file::{byte_len, written_reply, wrote_reply};

verus! {

/// Reply when the user refuses the write.
pub const WRITE_DENIED: &'static str = "User denied permission to write to this file.";

/// Schema of the file writer's arguments (JSON text).
pub const FILE_WRITE_SCHEMA: &'static str = "{\"type\":\"object\",\"properties\":{\"file_path\":{\"type\":\"string\",\"description\":\"Absolute or relative path to the file to write\"},\"file_text\":{\"type\":\"string\",\"description\":\"The complete text content to write into the file\"}},\"required\":[\"file_path\",\"file_text\"]}";

/// Writes text to a file, after the user allows it.
pub struct FileWriteTool;

impl FileWriteTool {
    pub fn new() -> Self {
        FileWriteTool
    }

    pub fn name(&self) -> (r: &'static str)
        ensures
            r@ == "FileWrite"@,
    {
        "FileWrite"
    }

    pub fn description(&self) -> (r: &'static str)
        ensures
            r@ == "Write text to a file, overwriting its current contents."@,
    {
        "Write text to a file, overwriting its current contents."
    }

    pub fn input_schema(&self) -> (r: &'static str)
        ensures
            r@ == FILE_WRITE_SCHEMA@,
    {
        FILE_WRITE_SCHEMA
    }

    /// The error when `path` cannot be written.
    pub fn write_failure(&self, path: &str) -> (r: String)
        ensures
            r@ == "Failed to write file: "@ + path@,
    {
        concat("Failed to write file: ", path)
    }

    /// The reply after writing `text` to `path`.
    pub fn reply(&self, text: &str, path: &str) -> (r: String)
        ensures
            r@ == written_reply((byte_len(text@) as usize) as nat, path@),
    {
        wrote_reply(text, path)
    }
}

} // verus!
