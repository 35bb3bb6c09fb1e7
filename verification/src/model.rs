//! A file system as a tree, and the walk of a walker over it: which
//! directories it asks to list and which lines it writes, in order.

use vstd::prelude::*;
use crate::entry::{is_hidden, EntryKind, EntryView};
use crate::line::{entry_line, report_line, LineKind, LineView};
use crate::text::child_path;
use crate::tree::summary_line;
use crate::walker::{header_line, Event, Status, WalkerView};

verus! {

/// What an attempt to list a path yields.
pub enum Listing {
    /// The path cannot be listed; the failure has this message.
    Denied { message: Seq<char> },
    /// The children, in the order in which the file system yields them.
    Entries { nodes: Seq<Node> },
}

/// One item of a listing.
pub enum Node {
    /// Something that could not be classified; the failure has this message.
    Unreadable { message: Seq<char> },
    /// An entry, with what an attempt to list it yields.
    Entry { name: Seq<char>, kind: EntryKind, listing: Listing },
}

impl Node {
    /// The event that a listing yields for this node.
    pub open spec fn event(self) -> Event {
        match self {
            Node::Unreadable { message } => Event::EntryFailed(message),
            Node::Entry { name, kind, .. } => Event::Entry(EntryView { name, kind }),
        }
    }
}

/// Something that a walk does to the outside.
pub enum Action {
    /// It asks for the listing of the directory at this path.
    List(Seq<char>),
    /// It writes this line.
    Write(LineView),
}

/// What a step writes: its line, or nothing.
pub open spec fn written(line: Option<LineView>) -> Seq<Action> {
    match line {
        Some(line) => seq![Action::Write(line)],
        None => Seq::empty(),
    }
}

impl Action {
    /// Whether the action writes a line of `kind`.
    pub open spec fn writes(self, kind: LineKind) -> bool {
        self matches Action::Write(line) && line.kind == kind
    }
}

/// How many lines of `kind` a trace writes.
pub open spec fn count(trace: Seq<Action>, kind: LineKind) -> nat {
    trace.filter(|action: Action| action.writes(kind)).len()
}

/// The walker with the directories and files that a trace shows added to
/// its counters, and no longer clean if the trace reports a failure.
pub open spec fn counting(walker: WalkerView, trace: Seq<Action>) -> WalkerView {
    WalkerView {
        dirs: walker.dirs + count(trace, LineKind::Directory),
        files: walker.files + count(trace, LineKind::File),
        clean: walker.clean && count(trace, LineKind::Report) == 0,
        ..walker
    }
}

/// A walk so far: the walker, and what it has done to the outside.
#[verifier::ext_equal]
pub struct Run {
    pub walker: WalkerView,
    pub trace: Seq<Action>,
}

impl Run {
    /// The walk after the walker took `event` and its line was written.
    pub open spec fn takes(self, event: Event) -> Run {
        let (walker, line) = self.walker.step(event);
        Run { walker, trace: self.trace + written(line) }
    }

    /// The walk after the listing of the walker's target was asked for.
    pub open spec fn asked(self) -> Run {
        Run { walker: self.walker, trace: self.trace.push(Action::List(self.walker.target)) }
    }
}

/// The walk goes on from a walker that waits for a listing to be opened:
/// the listing is asked for, and read to its end if there is one.
pub open spec fn walk_listing(run: Run, listing: Listing) -> Run
    decreases listing,
{
    match listing {
        Listing::Denied { message } => run.asked().takes(Event::OpenFailed(message)),
        Listing::Entries { nodes } => walk_nodes(run.asked().takes(Event::Opened), nodes).takes(
            Event::End,
        ),
    }
}

/// The walk goes on through the items of the innermost open listing.
pub open spec fn walk_nodes(run: Run, nodes: Seq<Node>) -> Run
    decreases nodes,
{
    if nodes.len() == 0 {
        run
    } else {
        walk_nodes(walk_node(run, nodes.first()), nodes.drop_first())
    }
}

/// The walk goes on with one item: the walker takes it, and where it then
/// waits for a listing, the walk goes into that of the item.
pub open spec fn walk_node(run: Run, node: Node) -> Run
    decreases node,
{
    let after = run.takes(node.event());
    match node {
        Node::Entry { listing, .. } if after.walker.status == Status::Opening => walk_listing(
            after,
            listing,
        ),
        _ => after,
    }
}

/// Where the walk through a listing ends, said outright: the walker has
/// counted what the trace shows and has left the listing; a walk whose
/// first listing fails has failed, and one whose first listing is read to
/// its end is done and has written the summary.
pub open spec fn after_listing(run: Run, listing: Listing) -> Run {
    let walker = run.walker;
    let trace = trace_of_listing(
        walker.target,
        listing,
        walker.depth() + 1,
        walker.include_hidden,
    );
    let counted = counting(walker, trace);
    if walker.open.len() > 0 {
        Run {
            walker: WalkerView { target: Seq::empty(), status: Status::Reading, ..counted },
            trace: run.trace + trace,
        }
    } else if listing is Denied {
        Run {
            walker: WalkerView { target: Seq::empty(), status: Status::Failed, ..counted },
            trace: run.trace + trace,
        }
    } else {
        Run {
            walker: WalkerView { target: Seq::empty(), status: Status::Done, ..counted },
            trace: run.trace + trace + seq![
                Action::Write(summary_line(counted.dirs, counted.files)),
            ],
        }
    }
}

/// Where the walk through some items of the innermost open listing ends,
/// said outright: the walker has counted what the trace shows.
pub open spec fn after_items(run: Run, trace: Seq<Action>) -> Run {
    Run { walker: counting(run.walker, trace), trace: run.trace + trace }
}

/// The whole walk from `target`, whose listing is `listing`: the header,
/// then the walk through the listing.
pub open spec fn walk(target: Seq<char>, listing: Listing, include_hidden: bool) -> Run {
    walk_listing(
        Run {
            walker: WalkerView::start(target, include_hidden),
            trace: seq![Action::Write(header_line(target))],
        },
        listing,
    )
}

/// What a walk does for the listing of `path`, whose entries are at `depth`.
pub open spec fn trace_of_listing(
    path: Seq<char>,
    listing: Listing,
    depth: nat,
    include_hidden: bool,
) -> Seq<Action>
    decreases listing,
{
    seq![Action::List(path)] + match listing {
        Listing::Denied { message } => seq![Action::Write(report_line(message))],
        Listing::Entries { nodes } => trace_of_nodes(path, nodes, depth, include_hidden),
    }
}

/// What a walk does for the items of the directory at `path`, one after the
/// other.
pub open spec fn trace_of_nodes(
    path: Seq<char>,
    nodes: Seq<Node>,
    depth: nat,
    include_hidden: bool,
) -> Seq<Action>
    decreases nodes,
{
    if nodes.len() == 0 {
        Seq::empty()
    } else {
        trace_of_node(path, nodes.first(), depth, include_hidden) + trace_of_nodes(
            path,
            nodes.drop_first(),
            depth,
            include_hidden,
        )
    }
}

/// What a walk does for one item of the directory at `path`: a failure is
/// reported; an entry that is shown gets its line, and a directory is
/// listed right after its line; anything else leaves no trace.
pub open spec fn trace_of_node(
    path: Seq<char>,
    node: Node,
    depth: nat,
    include_hidden: bool,
) -> Seq<Action>
    decreases node,
{
    match node {
        Node::Unreadable { message } => seq![Action::Write(report_line(message))],
        Node::Entry { name, kind, listing } => {
            let entry = EntryView { name, kind };
            if !entry.shown(include_hidden) {
                Seq::empty()
            } else if kind == EntryKind::Directory {
                seq![Action::Write(entry_line(entry, depth))] + trace_of_listing(
                    child_path(path, name),
                    listing,
                    depth + 1,
                    include_hidden,
                )
            } else {
                seq![Action::Write(entry_line(entry, depth))]
            }
        },
    }
}

/// The listing without its hidden entries, at every level.
pub open spec fn visible_listing(listing: Listing) -> Listing
    decreases listing,
{
    match listing {
        Listing::Denied { message } => listing,
        Listing::Entries { nodes } => Listing::Entries { nodes: visible_nodes(nodes) },
    }
}

/// The items without the hidden entries, at every level.
pub open spec fn visible_nodes(nodes: Seq<Node>) -> Seq<Node>
    decreases nodes,
{
    if nodes.len() == 0 {
        Seq::empty()
    } else {
        visible_node(nodes.first()) + visible_nodes(nodes.drop_first())
    }
}

/// The item, unless it is a hidden entry, without the hidden entries below it.
pub open spec fn visible_node(node: Node) -> Seq<Node>
    decreases node,
{
    match node {
        Node::Unreadable { message } => seq![node],
        Node::Entry { name, kind, listing } => if is_hidden(name) {
            Seq::empty()
        } else {
            seq![Node::Entry { name, kind, listing: visible_listing(listing) }]
        },
    }
}

} // verus!
