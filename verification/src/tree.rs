//! The counters of a walk, and the lines that are counted.

use vstd::prelude::*;
use crate::entry::{DirectoryEntry, EntryKind};
use crate::line::{entry_line, line_view, Line, LineKind, LineView};
use crate::text::{dir_line, file_line, indent, push_counted, summary};

verus! {

/// How many regular files and directories a walk has shown so far.
#[derive(Clone, Copy, Debug, PartialEq, Eq, Structural)]
pub struct Tree {
    pub total_files: usize,
    pub total_dirs: usize,
}

/// The last line of a walk that showed `dirs` directories and `files` files.
pub open spec fn summary_line(dirs: nat, files: nat) -> LineView {
    LineView { kind: LineKind::Summary, text: summary(dirs, files) }
}

impl Tree {
    /// The counters of a walk that has shown nothing yet.
    pub fn new() -> (tree: Tree)
        ensures
            tree.total_files == 0,
            tree.total_dirs == 0,
    {
        Tree { total_files: 0, total_dirs: 0 }
    }

    /// Counts a regular file and gives its line.
    pub fn display_file(&mut self, target_name: &str, depth: usize) -> (line: Line)
        requires
            old(self).total_files < usize::MAX,
        ensures
            final(self).total_files == old(self).total_files + 1,
            final(self).total_dirs == old(self).total_dirs,
            line@.kind == LineKind::File,
            line@.text == file_line(target_name@, depth as nat),
    {
        self.total_files = self.total_files + 1;
        let mut text = indent(depth);
        text.append("├── ");
        text.append(target_name);
        Line::new(LineKind::File, text)
    }

    /// Counts a directory and gives its line.
    pub fn display_dir(&mut self, target_name: &str, depth: usize) -> (line: Line)
        requires
            old(self).total_dirs < usize::MAX,
        ensures
            final(self).total_dirs == old(self).total_dirs + 1,
            final(self).total_files == old(self).total_files,
            line@.kind == LineKind::Directory,
            line@.text == dir_line(target_name@, depth as nat),
    {
        self.total_dirs = self.total_dirs + 1;
        let mut text = indent(depth);
        text.append("\u{001b}[34m");
        text.append("├── ");
        text.append(target_name);
        text.append("\u{001b}[0m");
        Line::new(LineKind::Directory, text)
    }

    /// Decides what becomes of one entry at `depth`. An entry that is shown
    /// is counted and gets its line; any other leaves no trace.
    pub fn display(&mut self, entry: &DirectoryEntry, depth: usize, include_hidden: bool) -> (line:
        Option<Line>)
        requires
            old(self).total_dirs + entry@.dirs(include_hidden) <= usize::MAX,
            old(self).total_files + entry@.files(include_hidden) <= usize::MAX,
        ensures
            final(self).total_dirs == old(self).total_dirs + entry@.dirs(include_hidden),
            final(self).total_files == old(self).total_files + entry@.files(include_hidden),
            line_view(line) == if entry@.shown(include_hidden) {
                Some(entry_line(entry@, depth as nat))
            } else {
                None
            },
    {
        if !entry.is_shown(include_hidden) {
            return None;
        }
        match entry.kind {
            EntryKind::Directory => Some(self.display_dir(entry.name.as_str(), depth)),
            _ => Some(self.display_file(entry.name.as_str(), depth)),
        }
    }

    /// The last line of a walk: both counts, each with its noun in the
    /// singular for exactly one and in the plural otherwise.
    pub fn display_result(&self) -> (line: Line)
        ensures
            line@ == summary_line(self.total_dirs as nat, self.total_files as nat),
    {
        let mut text = String::new();
        push_counted(&mut text, self.total_dirs, "directory", "directories");
        text.append(", ");
        push_counted(&mut text, self.total_files, "file", "files");
        Line::new(LineKind::Summary, text)
    }
}

} // verus!
