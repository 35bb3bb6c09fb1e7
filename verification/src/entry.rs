//! One child of a directory: its name and what kind of thing it is.

use vstd::prelude::*;

verus! {

/// What a child of a directory is. Everything that is neither a directory nor
/// a regular file (a symlink, a socket, a device) is `Other`.
#[derive(Clone, Copy, Debug, PartialEq, Eq, Structural)]
pub enum EntryKind {
    Directory,
    File,
    Other,
}

impl EntryKind {
    /// The kind for the two answers of a file-type query. A directory is a
    /// directory whatever the second answer says.
    pub open spec fn classify(is_dir: bool, is_file: bool) -> EntryKind {
        if is_dir {
            EntryKind::Directory
        } else if is_file {
            EntryKind::File
        } else {
            EntryKind::Other
        }
    }

    /// Turns the two answers of a file-type query into a kind.
    pub fn from_flags(is_dir: bool, is_file: bool) -> (kind: EntryKind)
        ensures
            kind == EntryKind::classify(is_dir, is_file),
    {
        if is_dir {
            EntryKind::Directory
        } else if is_file {
            EntryKind::File
        } else {
            EntryKind::Other
        }
    }
}

/// One child of a directory, as a listing yields it.
#[derive(Clone, Debug, PartialEq, Eq)]
pub struct DirectoryEntry {
    pub name: String,
    pub kind: EntryKind,
}

/// A `DirectoryEntry` as contracts see it.
pub struct EntryView {
    pub name: Seq<char>,
    pub kind: EntryKind,
}

impl View for DirectoryEntry {
    type V = EntryView;

    open spec fn view(&self) -> EntryView {
        EntryView { name: self.name@, kind: self.kind }
    }
}

/// A name is hidden when it begins with a dot.
pub open spec fn is_hidden(name: Seq<char>) -> bool {
    name.len() > 0 && name[0] == '.'
}

impl EntryView {
    /// Whether a walk shows this entry: it is a directory or a regular file,
    /// and it is not hidden unless hidden entries were asked for.
    pub open spec fn shown(self, include_hidden: bool) -> bool {
        self.kind != EntryKind::Other && (include_hidden || !is_hidden(self.name))
    }

    /// What the entry adds to the count of directories: one or nothing.
    pub open spec fn dirs(self, include_hidden: bool) -> nat {
        if self.shown(include_hidden) && self.kind == EntryKind::Directory {
            1
        } else {
            0
        }
    }

    /// What the entry adds to the count of files: one or nothing.
    pub open spec fn files(self, include_hidden: bool) -> nat {
        if self.shown(include_hidden) && self.kind == EntryKind::File {
            1
        } else {
            0
        }
    }
}

/// Tells whether `name` begins with a dot.
pub fn hidden(name: &str) -> (h: bool)
    ensures
        h == is_hidden(name@),
{
    !name.is_empty() && name.get_char(0) == '.'
}

impl DirectoryEntry {
    /// An entry with this name and kind.
    pub fn new(name: String, kind: EntryKind) -> (entry: DirectoryEntry)
        ensures
            entry@ == (EntryView { name: name@, kind }),
    {
        DirectoryEntry { name, kind }
    }

    /// Tells whether a walk shows this entry.
    pub fn is_shown(&self, include_hidden: bool) -> (shown: bool)
        ensures
            shown == self@.shown(include_hidden),
    {
        match self.kind {
            EntryKind::Other => false,
            _ => include_hidden || !hidden(self.name.as_str()),
        }
    }
}

} // verus!
