//! The walk as a state machine. The walker does no input or output: it says
//! what it waits for, takes what the file system answered, and hands back the
//! line to write, if any. Whoever drives it lists the directories and writes
//! the lines.

use vstd::prelude::*;
use crate::entry::{DirectoryEntry, EntryKind, EntryView};
use crate::line::{entry_line, line_view, report_line, Line, LineKind, LineView};
use crate::text::{child_path, join};
use crate::tree::{summary_line, Tree};

verus! {

/// What a walker waits for, or how it ended.
#[derive(Clone, Copy, Debug, PartialEq, Eq, Structural)]
pub enum Status {
    /// It waits for the listing of its target to be opened.
    Opening,
    /// It waits for the next item of the innermost open listing.
    Reading,
    /// The walk is complete and the summary was handed out.
    Done,
    /// The starting directory could not be listed.
    Failed,
}

/// What the file system answers to a walker.
pub enum Event {
    /// The listing of the target is open.
    Opened,
    /// The target could not be listed.
    OpenFailed(Seq<char>),
    /// The innermost listing yielded this entry.
    Entry(EntryView),
    /// The innermost listing yielded something that could not be classified.
    EntryFailed(Seq<char>),
    /// The innermost listing is exhausted.
    End,
}

/// A walker as contracts see it.
#[verifier::ext_equal]
pub struct WalkerView {
    /// Directories shown so far.
    pub dirs: nat,
    /// Regular files shown so far.
    pub files: nat,
    /// Whether hidden entries are shown.
    pub include_hidden: bool,
    /// Whether no failure was reported so far.
    pub clean: bool,
    /// The paths of the directories whose listings are open, outermost first.
    pub open: Seq<Seq<char>>,
    /// The path to list next while the status is `Opening`, else empty.
    pub target: Seq<char>,
    pub status: Status,
}

/// The first line of a walk: the path it starts from, as it was given.
pub open spec fn header_line(target: Seq<char>) -> LineView {
    LineView { kind: LineKind::Header, text: target }
}

impl WalkerView {
    /// The walker at the start of a walk from `target`.
    pub open spec fn start(target: Seq<char>, include_hidden: bool) -> WalkerView {
        WalkerView {
            dirs: 0,
            files: 0,
            include_hidden,
            clean: true,
            open: Seq::empty(),
            target,
            status: Status::Opening,
        }
    }

    /// The states that a walk can reach.
    pub open spec fn wf(self) -> bool {
        match self.status {
            Status::Opening => true,
            Status::Reading => self.open.len() > 0 && self.target.len() == 0,
            Status::Done | Status::Failed => self.open.len() == 0 && self.target.len() == 0,
        }
    }

    /// The nesting level of the entries that the innermost open listing
    /// yields: 1 for the children of the starting directory.
    pub open spec fn depth(self) -> nat {
        self.open.len()
    }

    /// Whether the walk ran to its end and met no failure on the way.
    pub open spec fn succeeded(self) -> bool {
        self.status == Status::Done && self.clean
    }

    /// Whether `event` answers what the walker waits for.
    pub open spec fn accepts(self, event: Event) -> bool {
        match self.status {
            Status::Opening => event is Opened || event is OpenFailed,
            Status::Reading => event is Entry || event is EntryFailed || event is End,
            Status::Done | Status::Failed => false,
        }
    }

    /// The walker after a listing was opened: the target is the innermost
    /// open directory now.
    pub open spec fn opened(self) -> WalkerView {
        WalkerView {
            open: self.open.push(self.target),
            target: Seq::empty(),
            status: Status::Reading,
            ..self
        }
    }

    /// The walker after its target could not be listed: that ends the walk
    /// if the target was the starting directory, and only that branch if not.
    pub open spec fn refused(self) -> WalkerView {
        WalkerView {
            clean: false,
            target: Seq::empty(),
            status: if self.open.len() == 0 {
                Status::Failed
            } else {
                Status::Reading
            },
            ..self
        }
    }

    /// The walker after an entry: an entry that is shown is counted, and a
    /// directory that is shown becomes the target.
    pub open spec fn visited(self, entry: EntryView) -> WalkerView {
        let descend = entry.dirs(self.include_hidden) == 1;
        WalkerView {
            dirs: self.dirs + entry.dirs(self.include_hidden),
            files: self.files + entry.files(self.include_hidden),
            target: if descend {
                child_path(self.open.last(), entry.name)
            } else {
                Seq::empty()
            },
            status: if descend {
                Status::Opening
            } else {
                Status::Reading
            },
            ..self
        }
    }

    /// The walker after the innermost listing ended.
    pub open spec fn closed(self) -> WalkerView {
        WalkerView {
            open: self.open.drop_last(),
            status: if self.open.len() <= 1 {
                Status::Done
            } else {
                Status::Reading
            },
            ..self
        }
    }

    /// One step of the walk: the walker after `event`, and the line to write.
    pub open spec fn step(self, event: Event) -> (WalkerView, Option<LineView>) {
        match event {
            Event::Opened => (self.opened(), None),
            Event::OpenFailed(message) => (self.refused(), Some(report_line(message))),
            Event::Entry(entry) => (
                self.visited(entry),
                if entry.shown(self.include_hidden) {
                    Some(entry_line(entry, self.depth()))
                } else {
                    None
                },
            ),
            Event::EntryFailed(message) => (
                WalkerView { clean: false, ..self },
                Some(report_line(message)),
            ),
            Event::End => (
                self.closed(),
                if self.open.len() <= 1 {
                    Some(summary_line(self.dirs, self.files))
                } else {
                    None
                },
            ),
        }
    }
}

/// The event that the outcome of opening a listing stands for.
pub open spec fn listing_event(listing: Result<(), String>) -> Event {
    match listing {
        Ok(_) => Event::Opened,
        Err(message) => Event::OpenFailed(message@),
    }
}

/// The event that one entry of a listing stands for.
pub open spec fn entry_event(entry: Result<DirectoryEntry, String>) -> Event {
    match entry {
        Ok(entry) => Event::Entry(entry@),
        Err(message) => Event::EntryFailed(message@),
    }
}

/// The event that one item of a listing stands for; no item is its end.
pub open spec fn item_event(item: Option<Result<DirectoryEntry, String>>) -> Event {
    match item {
        Some(entry) => entry_event(entry),
        None => Event::End,
    }
}

/// A walk in progress.
pub struct Walker {
    tree: Tree,
    include_hidden: bool,
    clean: bool,
    open: Vec<String>,
    target: String,
    status: Status,
}

impl View for Walker {
    type V = WalkerView;

    closed spec fn view(&self) -> WalkerView {
        WalkerView {
            dirs: self.tree.total_dirs as nat,
            files: self.tree.total_files as nat,
            include_hidden: self.include_hidden,
            clean: self.clean,
            open: self.open@.map_values(|path: String| path@),
            target: self.target@,
            status: self.status,
        }
    }
}

impl Walker {
    /// Starts a walk from `target`. The walker waits for the listing of
    /// `target`; the line is the header, to be written before anything else.
    pub fn new(target: &str, include_hidden: bool) -> (started: (Walker, Line))
        ensures
            started.0@ == WalkerView::start(target@, include_hidden),
            started.0@.wf(),
            started.1@ == header_line(target@),
    {
        let walker = Walker {
            tree: Tree::new(),
            include_hidden,
            clean: true,
            open: Vec::new(),
            target: String::from_str(target),
            status: Status::Opening,
        };
        assert(walker@.open =~= Seq::empty());
        (walker, Line::new(LineKind::Header, String::from_str(target)))
    }

    /// What the walker waits for, or how it ended.
    pub fn status(&self) -> (status: Status)
        ensures
            status == self@.status,
    {
        self.status
    }

    /// The path to list while the status is `Opening`.
    pub fn target(&self) -> (target: &str)
        ensures
            target@ == self@.target,
    {
        self.target.as_str()
    }

    /// The counters so far.
    pub fn tree(&self) -> (tree: Tree)
        ensures
            tree.total_dirs == self@.dirs,
            tree.total_files == self@.files,
    {
        self.tree
    }

    /// Whether hidden entries are shown.
    pub fn include_hidden(&self) -> (include_hidden: bool)
        ensures
            include_hidden == self@.include_hidden,
    {
        self.include_hidden
    }

    /// Whether the walk ran to its end and met no failure on the way: a
    /// walk that failed, or that had to report a directory or an entry, did
    /// not succeed.
    pub fn succeeded(&self) -> (succeeded: bool)
        ensures
            succeeded == self@.succeeded(),
    {
        match self.status {
            Status::Done => self.clean,
            _ => false,
        }
    }

    /// The number of listings that are open.
    pub fn depth(&self) -> (depth: usize)
        ensures
            depth == self@.depth(),
    {
        self.open.len()
    }

    /// Takes the outcome of opening the listing of the target. On success the
    /// walker goes on to read it. A failure is reported; it ends the walk if
    /// the target was the starting directory, and only that branch if not.
    pub fn crawl_target(&mut self, listing: Result<(), String>) -> (line: Option<Line>)
        requires
            old(self)@.wf(),
            old(self)@.status == Status::Opening,
        ensures
            final(self)@ == old(self)@.step(listing_event(listing)).0,
            line_view(line) == old(self)@.step(listing_event(listing)).1,
            final(self)@.wf(),
    {
        let mut path = String::new();
        std::mem::swap(&mut self.target, &mut path);
        match listing {
            Ok(_) => {
                proof {
                    old(self).open@.lemma_push_map_commute(|path: String| path@, path);
                }
                self.open.push(path);
                self.status = Status::Reading;
                None
            },
            Err(message) => {
                self.clean = false;
                if self.open.len() == 0 {
                    self.status = Status::Failed;
                } else {
                    self.status = Status::Reading;
                }
                Some(Line::report(message))
            },
        }
    }

    /// Takes one item of the innermost open listing; no item is its end.
    /// At the end of the outermost listing the walk is done and the line is
    /// the summary.
    pub fn read_target(&mut self, item: Option<Result<DirectoryEntry, String>>) -> (line: Option<
        Line,
    >)
        requires
            old(self)@.wf(),
            old(self)@.status == Status::Reading,
            old(self)@.step(item_event(item)).0.dirs <= usize::MAX,
            old(self)@.step(item_event(item)).0.files <= usize::MAX,
        ensures
            final(self)@ == old(self)@.step(item_event(item)).0,
            line_view(line) == old(self)@.step(item_event(item)).1,
            final(self)@.wf(),
    {
        match item {
            Some(entry) => self.get_content_type(entry),
            None => {
                self.open.pop();
                assert(self@.open =~= old(self)@.open.drop_last());
                if self.open.len() == 0 {
                    self.status = Status::Done;
                    Some(self.tree.display_result())
                } else {
                    None
                }
            },
        }
    }

    /// Takes one entry of the innermost open listing. An entry that could
    /// not be classified is reported and passed over.
    pub fn get_content_type(&mut self, entry: Result<DirectoryEntry, String>) -> (line: Option<
        Line,
    >)
        requires
            old(self)@.wf(),
            old(self)@.status == Status::Reading,
            old(self)@.step(entry_event(entry)).0.dirs <= usize::MAX,
            old(self)@.step(entry_event(entry)).0.files <= usize::MAX,
        ensures
            final(self)@ == old(self)@.step(entry_event(entry)).0,
            line_view(line) == old(self)@.step(entry_event(entry)).1,
            final(self)@.wf(),
    {
        match entry {
            Ok(entry) => self.display(&entry),
            Err(message) => {
                self.clean = false;
                Some(Line::report(message))
            },
        }
    }

    /// Takes one classified entry of the innermost open listing: shows and
    /// counts it or passes it over, and makes a directory that is shown the
    /// next target.
    pub fn display(&mut self, entry: &DirectoryEntry) -> (line: Option<Line>)
        requires
            old(self)@.wf(),
            old(self)@.status == Status::Reading,
            old(self)@.dirs + entry@.dirs(old(self)@.include_hidden) <= usize::MAX,
            old(self)@.files + entry@.files(old(self)@.include_hidden) <= usize::MAX,
        ensures
            final(self)@ == old(self)@.visited(entry@),
            line_view(line) == old(self)@.step(Event::Entry(entry@)).1,
            final(self)@.wf(),
    {
        let depth = self.open.len();
        let line = self.tree.display(entry, depth, self.include_hidden);
        let descend = match (&line, entry.kind) {
            (Some(_), EntryKind::Directory) => true,
            _ => false,
        };
        if descend {
            self.target = join(self.open[depth - 1].as_str(), entry.name.as_str());
            self.status = Status::Opening;
        }
        assert(self@.target =~= old(self)@.visited(entry@).target);
        line
    }
}

} // verus!
