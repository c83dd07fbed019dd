//! The first-generation file tools (`file_read`, `file_write`, `file_edit`):
//! their descriptions and what they report.

use vstd::prelude::*;
use crate::text::{chars_of, concat, contains_chars, contains_seq, decimal_seq, replace_chars, replace_seq, string_of, u64_to_string};

verus! {

/// The reply after writing `nbytes` bytes to `path`.
pub open spec fn written_reply(nbytes: nat, path: Seq<char>) -> Seq<char> {
    "Successfully wrote "@ + decimal_seq(nbytes) + " bytes to "@ + path
}

/// Length in bytes of the UTF-8 encoding of a text.
pub open spec fn byte_len(s: Seq<char>) -> nat {
    vstd::utf8::encode_utf8(s).len()
}

/// The reply after writing `text` to `path`.
pub fn wrote_reply(text: &str, path: &str) -> (r: String)
    ensures
        r@ == written_reply((byte_len(text@) as usize) as nat, path@),
{
    let n = text.len();
    let mut s = String::from_str("Successfully wrote ");
    s.append(u64_to_string(n as u64).as_str());
    s.append(" bytes to ");
    s.append(path);
    s
}

/// The content after replacing every `old` by `new`, if `old` occurs;
/// otherwise the error `missing`.
pub open spec fn edited(content: Seq<char>, old: Seq<char>, new: Seq<char>, missing: Seq<char>) -> Result<Seq<char>, Seq<char>> {
    if contains_seq(content, old) {
        Ok(replace_seq(content, old, new))
    } else {
        Err(missing)
    }
}

/// Replaces every `old` in `content` by `new`; refuses with `missing` when
/// `old` does not occur.
pub fn apply_edit(content: &str, old: &str, new: &str, missing: &str) -> (r: Result<String, String>)
    ensures
        match (r, edited(content@, old@, new@, missing@)) {
            (Ok(s), Ok(t)) => s@ == t,
            (Err(e), Err(m)) => e@ == m,
            _ => false,
        },
{
    let c = chars_of(content);
    let o = chars_of(old);
    if !contains_chars(&c, &o) {
        return Err(String::from_str(missing));
    }
    let n = chars_of(new);
    Ok(string_of(&replace_chars(&c, &o, &n)))
}

/// Reads a file.
pub struct FileReadTool;

impl FileReadTool {
    pub fn new() -> Self {
        FileReadTool
    }

    pub fn name(&self) -> (r: &'static str)
        ensures
            r@ == "file_read"@,
    {
        "file_read"
    }

    pub fn description(&self) -> (r: &'static str)
        ensures
            r@ == "Read the contents of a file. Returns file content. Requires { 'file_path': 'path/to/file' }"@,
    {
        "Read the contents of a file. Returns file content. Requires { 'file_path': 'path/to/file' }"
    }

    /// The error when `path` cannot be read.
    pub fn read_failure(&self, path: &str) -> (r: String)
        ensures
            r@ == "Failed to read file: "@ + path@,
    {
        concat("Failed to read file: ", path)
    }
}

/// Writes a file.
pub struct FileWriteTool;

impl FileWriteTool {
    pub fn new() -> Self {
        FileWriteTool
    }

    pub fn name(&self) -> (r: &'static str)
        ensures
            r@ == "file_write"@,
    {
        "file_write"
    }

    pub fn description(&self) -> (r: &'static str)
        ensures
            r@ == "Write text to a file, overwriting its current contents. Requires { 'file_path': '...', 'file_text': '...' }"@,
    {
        "Write text to a file, overwriting its current contents. Requires { 'file_path': '...', 'file_text': '...' }"
    }

    /// The error when `path` cannot be written.
    pub fn write_failure(&self, path: &str) -> (r: String)
        ensures
            r@ == "Failed to write file: "@ + path@,
    {
        concat("Failed to write file: ", path)
    }

    /// The reply after writing `text` to `path`.
    pub fn reply(&self, text: &str, path: &str) -> (r: String)
        ensures
            r@ == written_reply((byte_len(text@) as usize) as nat, path@),
    {
        wrote_reply(text, path)
    }
}

/// Error when the text to replace is not in the file.
pub const EDIT_TARGET_MISSING: &'static str = "The target string 'old_str' was not found in the file.";

/// Edits a file by replacing a block of text.
pub struct FileEditTool;

impl FileEditTool {
    pub fn new() -> Self {
        FileEditTool
    }

    pub fn name(&self) -> (r: &'static str)
        ensures
            r@ == "file_edit"@,
    {
        "file_edit"
    }

    pub fn description(&self) -> (r: &'static str)
        ensures
            r@ == "Edit a file by finding a specific string block and replacing it. Requires { 'file_path': '...', 'old_str': '...', 'new_str': '...' }"@,
    {
        "Edit a file by finding a specific string block and replacing it. Requires { 'file_path': '...', 'old_str': '...', 'new_str': '...' }"
    }

    /// The file's new content, or the error when `old_str` does not occur.
    pub fn edit(&self, content: &str, old_str: &str, new_str: &str) -> (r: Result<String, String>)
        ensures
            match (r, edited(content@, old_str@, new_str@, EDIT_TARGET_MISSING@)) {
                (Ok(s), Ok(t)) => s@ == t,
                (Err(e), Err(m)) => e@ == m,
                _ => false,
            },
    {
        apply_edit(content, old_str, new_str, EDIT_TARGET_MISSING)
    }

    /// The reply after editing `path`.
    pub fn reply(&self, path: &str) -> (r: String)
        ensures
            r@ == "Successfully edited "@ + path@,
    {
        concat("Successfully edited ", path)
    }
}

} // verus!
