//! What is done to files, one action after the other, and what that leaves.

use vstd::prelude::*;

verus! {

/// Something that is done to files.
pub enum FileAction {
    /// Write what is at hand to a file and give that the mode, where there is one.
    Write { path: String, mode: Option<u32> },
    /// Copy a file and give the copy the mode.
    Copy { from: String, to: String, mode: u32 },
    /// Move a file over another, in one step.
    Rename { from: String, to: String },
}

impl FileAction {
    /// Whether what is at hand is written to the path, with the mode.
    pub open spec fn writes(self, to: Seq<char>, with: Option<u32>) -> bool {
        self matches FileAction::Write { path, mode } && path@ == to && mode == with
    }

    /// Whether a file is copied, with the mode.
    pub open spec fn copies(self, source: Seq<char>, target: Seq<char>, with: u32) -> bool {
        self matches FileAction::Copy { from, to, mode } && from@ == source && to@ == target && mode
            == with
    }

    /// Whether a file is moved.
    pub open spec fn moves(self, source: Seq<char>, target: Seq<char>) -> bool {
        self matches FileAction::Rename { from, to } && from@ == source && to@ == target
    }
}

/// What a file holds, if it is there. Each path has a file of its own.
pub open spec fn held_at(files: Map<Seq<char>, Seq<u8>>, path: Seq<char>) -> Option<Seq<u8>> {
    if files.contains_key(path) {
        Some(files[path])
    } else {
        None
    }
}

/// Whether the files are as an action leaves them that succeeded or failed, with
/// `content` at hand. One that fails midway may leave anything in the file that it
/// writes; a move happens as a whole or not at all.
pub open spec fn acted(
    action: FileAction,
    content: Seq<u8>,
    before: Map<Seq<char>, Seq<u8>>,
    after: Map<Seq<char>, Seq<u8>>,
    success: bool,
) -> bool {
    match action {
        FileAction::Write { path, .. } => {
            &&& forall|p: Seq<char>|
                p != path@ ==> #[trigger] held_at(after, p) == held_at(before, p)
            &&& success ==> held_at(after, path@) == Some(content)
        },
        FileAction::Copy { from, to, .. } => {
            &&& forall|p: Seq<char>|
                p != to@ ==> #[trigger] held_at(after, p) == held_at(before, p)
            &&& success ==> held_at(after, to@) == held_at(before, from@)
        },
        FileAction::Rename { from, to } => if success {
            &&& held_at(after, to@) == held_at(before, from@)
            &&& from@ != to@ ==> held_at(after, from@) is None
            &&& forall|p: Seq<char>|
                p != from@ && p != to@ ==> #[trigger] held_at(after, p) == held_at(before, p)
        } else {
            after == before
        },
    }
}

} // verus!
