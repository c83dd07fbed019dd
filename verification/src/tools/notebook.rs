//! The notebook tool: edits cells of a Jupyter notebook (simulated).

use vstd::prelude::*;
use crate::text::{ends_with_seq, str_ends_with, str_eq};

verus! {

/// Arguments of the notebook tool.
pub struct NotebookEditArgs {
    pub notebook_path: String,
    pub cell_id: Option<String>,
    pub new_source: String,
    pub cell_type: Option<String>,
    pub edit_mode: String,
}

/// The edit mode used when none is given.
pub fn default_edit_mode() -> (r: String)
    ensures
        r@ == "replace"@,
{
    String::from_str("replace")
}

/// The cell id shown, or `dflt` when none was given.
pub open spec fn id_or(id: Option<Seq<char>>, dflt: Seq<char>) -> Seq<char> {
    match id {
        Some(i) => i,
        None => dflt,
    }
}

/// The reply to a notebook edit.
pub open spec fn notebook_reply(path: Seq<char>, cell_id: Option<Seq<char>>, mode: Seq<char>) -> Result<Seq<char>, Seq<char>> {
    if !ends_with_seq(path, ".ipynb"@) {
        Err("File must be a Jupyter notebook (.ipynb file)"@)
    } else if mode == "replace"@ {
        Ok("Successfully replaced cell "@ + id_or(cell_id, "unknown"@) + " in "@ + path)
    } else if mode == "insert"@ {
        Ok("Successfully inserted new cell after "@ + id_or(cell_id, "start"@) + " in "@ + path)
    } else if mode == "delete"@ {
        Ok("Successfully deleted cell "@ + id_or(cell_id, "unknown"@) + " in "@ + path)
    } else {
        Err("Unknown edit mode: "@ + mode)
    }
}

/// Schema of the notebook tool's arguments (JSON text).
pub const NOTEBOOK_SCHEMA: &'static str = "{\"type\":\"object\",\"properties\":{\"notebook_path\":{\"type\":\"string\",\"description\":\"The absolute path to the Jupyter notebook file to edit\"},\"cell_id\":{\"type\":\"string\",\"description\":\"The ID of the cell to edit. When inserting a new cell, the new cell will be inserted after the cell with this ID.\"},\"new_source\":{\"type\":\"string\",\"description\":\"The new source for the cell\"},\"cell_type\":{\"type\":\"string\",\"enum\":[\"code\",\"markdown\"],\"description\":\"The type of the cell (code or markdown).\"},\"edit_mode\":{\"type\":\"string\",\"enum\":[\"replace\",\"insert\",\"delete\"],\"description\":\"The type of edit to make. Defaults to replace.\"}},\"required\":[\"notebook_path\",\"new_source\"]}";

fn id_text(id: &Option<String>, dflt: &str) -> (r: String)
    ensures
        r@ == id_or(crate::text::opt_view(*id), dflt@),
{
    match id {
        Some(i) => i.clone(),
        None => String::from_str(dflt),
    }
}

/// Replaces, inserts or deletes notebook cells.
pub struct NotebookEditTool;

impl NotebookEditTool {
    pub fn new() -> Self {
        NotebookEditTool
    }

    pub fn name(&self) -> (r: &'static str)
        ensures
            r@ == "NotebookEdit"@,
    {
        "NotebookEdit"
    }

    pub fn description(&self) -> (r: &'static str)
        ensures
            r@ == "Edit Jupyter notebook cells (.ipynb). Allows replacing, inserting, or deleting cells."@,
    {
        "Edit Jupyter notebook cells (.ipynb). Allows replacing, inserting, or deleting cells."
    }

    pub fn input_schema(&self) -> (r: &'static str)
        ensures
            r@ == NOTEBOOK_SCHEMA@,
    {
        NOTEBOOK_SCHEMA
    }

    /// Checks the file is a notebook and reports the edit.
    pub fn execute(&self, args: &NotebookEditArgs) -> (r: Result<String, String>)
        ensures
            match (r, notebook_reply(args.notebook_path@, crate::text::opt_view(args.cell_id), args.edit_mode@)) {
                (Ok(s), Ok(t)) => s@ == t,
                (Err(e), Err(m)) => e@ == m,
                _ => false,
            },
    {
        let path = args.notebook_path.as_str();
        if !str_ends_with(path, ".ipynb") {
            return Err(String::from_str("File must be a Jupyter notebook (.ipynb file)"));
        }
        let mode = args.edit_mode.as_str();
        if str_eq(mode, "replace") {
            let mut s = String::from_str("Successfully replaced cell ");
            s.append(id_text(&args.cell_id, "unknown").as_str());
            s.append(" in ");
            s.append(path);
            Ok(s)
        } else if str_eq(mode, "insert") {
            let mut s = String::from_str("Successfully inserted new cell after ");
            s.append(id_text(&args.cell_id, "start").as_str());
            s.append(" in ");
            s.append(path);
            Ok(s)
        } else if str_eq(mode, "delete") {
            let mut s = String::from_str("Successfully deleted cell ");
            s.append(id_text(&args.cell_id, "unknown").as_str());
            s.append(" in ");
            s.append(path);
            Ok(s)
        } else {
            let mut e = String::from_str("Unknown edit mode: ");
            e.append(mode);
            Err(e)
        }
    }
}

} // verus!
