//! The in-memory record of one tracked file.
use vstd::prelude::*;
use vstd::string::StringExecFns;

verus! {

/// One tracked file of the index, with its skip-worktree bit.
pub struct FileItem {
    pub path: String,
    pub skipped: bool,
}

impl View for FileItem {
    type V = (Seq<char>, bool);

    open spec fn view(&self) -> (Seq<char>, bool) {
        (self.path@, self.skipped)
    }
}

/// The row shown for a record: `[x] ` when its bit is set, `[ ] ` when it
/// is not, then its path.
pub open spec fn label_of(e: (Seq<char>, bool)) -> Seq<char> {
    (if e.1 { "[x] "@ } else { "[ ] "@ }) + e.0
}

impl FileItem {
    /// The row shown for this file in the list.
    pub fn label(&self) -> (r: String)
        ensures
            r@ == label_of(self@),
    {
        let mut r = if self.skipped { "[x] ".to_owned() } else { "[ ] ".to_owned() };
        r.append(self.path.as_str());
        r
    }
}

/// The records of a list, path and bit, in order.
pub open spec fn views(v: Seq<FileItem>) -> Seq<(Seq<char>, bool)> {
    v.map_values(|f: FileItem| f@)
}

} // verus!
