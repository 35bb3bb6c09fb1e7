//! A line of output: its text and where it belongs.

use vstd::prelude::*;
use crate::entry::{EntryKind, EntryView};
use crate::text::{dir_line, file_line};

verus! {

/// What a line is for. A `Report` goes to the error stream, every other kind
/// to the output stream.
#[derive(Clone, Copy, Debug, PartialEq, Eq, Structural)]
pub enum LineKind {
    /// The path that the walk starts from.
    Header,
    /// A directory that was found.
    Directory,
    /// A regular file that was found.
    File,
    /// The counts, at the end of a walk.
    Summary,
    /// The message of a failure.
    Report,
}

/// A line to write, without its line break.
#[derive(Clone, Debug, PartialEq, Eq)]
pub struct Line {
    pub kind: LineKind,
    pub text: String,
}

/// A `Line` as contracts see it.
pub struct LineView {
    pub kind: LineKind,
    pub text: Seq<char>,
}

impl View for Line {
    type V = LineView;

    open spec fn view(&self) -> LineView {
        LineView { kind: self.kind, text: self.text@ }
    }
}

/// An optional line as contracts see it.
pub open spec fn line_view(line: Option<Line>) -> Option<LineView> {
    match line {
        Some(l) => Some(l@),
        None => None,
    }
}

/// The line of an entry that is shown at `depth`.
pub open spec fn entry_line(entry: EntryView, depth: nat) -> LineView {
    if entry.kind == EntryKind::Directory {
        LineView { kind: LineKind::Directory, text: dir_line(entry.name, depth) }
    } else {
        LineView { kind: LineKind::File, text: file_line(entry.name, depth) }
    }
}

/// The line that reports a failure.
pub open spec fn report_line(message: Seq<char>) -> LineView {
    LineView { kind: LineKind::Report, text: message }
}

impl Line {
    /// A line of this kind with this text.
    pub fn new(kind: LineKind, text: String) -> (line: Line)
        ensures
            line@ == (LineView { kind, text: text@ }),
    {
        Line { kind, text }
    }

    /// The line that reports a failure with this message.
    pub fn report(message: String) -> (line: Line)
        ensures
            line@ == report_line(message@),
    {
        Line { kind: LineKind::Report, text: message }
    }

    /// Whether the line belongs on the error stream.
    pub fn is_report(&self) -> (report: bool)
        ensures
            report == (self@.kind == LineKind::Report),
    {
        match self.kind {
            LineKind::Report => true,
            _ => false,
        }
    }
}

} // verus!
