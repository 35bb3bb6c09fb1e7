//! What holds of every walk.

use vstd::prelude::*;
use crate::entry::{is_hidden, EntryKind, EntryView};
use crate::line::{entry_line, report_line, LineKind};
use crate::model::{
    after_items, after_listing, count, trace_of_listing, trace_of_node, trace_of_nodes,
    visible_listing, visible_node, visible_nodes, walk, walk_listing, walk_node, walk_nodes,
    written,
    Action, Listing, Node, Run,
};
use crate::text::child_path;
use crate::tree::summary_line;
use crate::walker::{header_line, Event, Status, WalkerView};

verus! {

/// A trace that is put together from two counts what the two count.
pub proof fn lemma_count_add(first: Seq<Action>, second: Seq<Action>)
    ensures
        forall|kind: LineKind| #[trigger]
            count(first + second, kind) == count(first, kind) + count(second, kind),
{
    assert forall|kind: LineKind| #[trigger]
        count(first + second, kind) == count(first, kind) + count(second, kind) by {
        Seq::filter_distributes_over_add(first, second, |action: Action| action.writes(kind));
    }
}

/// An empty trace counts nothing.
pub proof fn lemma_count_none()
    ensures
        forall|kind: LineKind| #[trigger] count(Seq::empty(), kind) == 0,
{
}

/// A trace of one action counts one if the action writes a line of the
/// kind, and nothing otherwise.
pub proof fn lemma_count_one(action: Action)
    ensures
        forall|kind: LineKind| #[trigger]
            count(seq![action], kind) == if action.writes(kind) {
                1nat
            } else {
                0nat
            },
{
    assert forall|kind: LineKind| #[trigger]
        count(seq![action], kind) == if action.writes(kind) {
            1nat
        } else {
            0nat
        } by {
        reveal_with_fuel(Seq::filter, 2);
    }
}

/// The walk through a listing ends where `after_listing` says.
pub proof fn lemma_walk_listing(run: Run, listing: Listing)
    requires
        run.walker.wf(),
        run.walker.status == Status::Opening,
    ensures
        walk_listing(run, listing) == after_listing(run, listing),
    decreases listing,
{
    let walker = run.walker;
    let depth = walker.depth() + 1;
    let hidden = walker.include_hidden;
    let asking = Action::List(walker.target);
    match listing {
        Listing::Denied { message } => {
            let report = Action::Write(report_line(message));
            lemma_count_add(seq![asking], seq![report]);
            lemma_count_one(asking);
            lemma_count_one(report);
        },
        Listing::Entries { nodes } => {
            let opened = run.asked().takes(Event::Opened);
            let inner = trace_of_nodes(walker.target, nodes, depth, hidden);
            lemma_walk_nodes(opened, nodes);
            lemma_count_add(seq![asking], inner);
            lemma_count_one(asking);
        },
    }
}

/// The walk through the items of a listing does what `trace_of_nodes`
/// says, and the walker counts what that shows.
pub proof fn lemma_walk_nodes(run: Run, nodes: Seq<Node>)
    requires
        run.walker.wf(),
        run.walker.status == Status::Reading,
    ensures
        walk_nodes(run, nodes) == after_items(
            run,
            trace_of_nodes(
                run.walker.open.last(),
                nodes,
                run.walker.depth(),
                run.walker.include_hidden,
            ),
        ),
    decreases nodes,
{
    let walker = run.walker;
    let path = walker.open.last();
    if nodes.len() == 0 {
        lemma_count_none();
    } else {
        let first = trace_of_node(path, nodes.first(), walker.depth(), walker.include_hidden);
        let rest = trace_of_nodes(path, nodes.drop_first(), walker.depth(), walker.include_hidden);
        lemma_walk_node(run, nodes.first());
        lemma_walk_nodes(walk_node(run, nodes.first()), nodes.drop_first());
        lemma_count_add(first, rest);
    }
}

/// The walk for one item does what `trace_of_node` says, and the walker
/// counts what that shows.
pub proof fn lemma_walk_node(run: Run, node: Node)
    requires
        run.walker.wf(),
        run.walker.status == Status::Reading,
    ensures
        walk_node(run, node) == after_items(
            run,
            trace_of_node(
                run.walker.open.last(),
                node,
                run.walker.depth(),
                run.walker.include_hidden,
            ),
        ),
    decreases node,
{
    let walker = run.walker;
    let path = walker.open.last();
    let depth = walker.depth();
    let hidden = walker.include_hidden;
    match node {
        Node::Unreadable { message } => {
            lemma_count_one(Action::Write(report_line(message)));
        },
        Node::Entry { name, kind, listing } => {
            let entry = EntryView { name, kind };
            let line = Action::Write(entry_line(entry, depth));
            lemma_count_one(line);
            lemma_count_none();
            if entry.shown(hidden) && kind == EntryKind::Directory {
                let below = trace_of_listing(child_path(path, name), listing, depth + 1, hidden);
                lemma_walk_listing(run.takes(node.event()), listing);
                lemma_count_add(seq![line], below);
            }
        },
    }
}

/// What a walk does for two runs of items, one after the other, is what it
/// does for the first and then what it does for the second.
pub proof fn lemma_trace_of_nodes_add(
    path: Seq<char>,
    first: Seq<Node>,
    second: Seq<Node>,
    depth: nat,
    include_hidden: bool,
)
    ensures
        trace_of_nodes(path, first + second, depth, include_hidden) == trace_of_nodes(
            path,
            first,
            depth,
            include_hidden,
        ) + trace_of_nodes(path, second, depth, include_hidden),
    decreases first.len(),
{
    if first.len() > 0 {
        assert((first + second).drop_first() =~= first.drop_first() + second);
        lemma_trace_of_nodes_add(path, first.drop_first(), second, depth, include_hidden);
    }
}

/// What a walk does for a single item as a listing's only one.
pub proof fn lemma_trace_of_nodes_one(path: Seq<char>, node: Node, depth: nat, include_hidden: bool)
    ensures
        trace_of_nodes(path, seq![node], depth, include_hidden) == trace_of_node(
            path,
            node,
            depth,
            include_hidden,
        ),
{
    assert(seq![node].drop_first() =~= Seq::<Node>::empty());
    assert(trace_of_nodes(path, Seq::<Node>::empty(), depth, include_hidden) =~= Seq::<
        Action,
    >::empty());
}

/// A step that answers what the walker waits for keeps the walker in the
/// states that a walk can reach.
pub proof fn law_step_wf(walker: WalkerView, event: Event)
    requires
        walker.wf(),
        walker.accepts(event),
    ensures
        walker.step(event).0.wf(),
{
}

/// Every step counts what it writes: the counter of directories grows by
/// one with a directory's line and the counter of files by one with a
/// file's line, and neither moves otherwise, so that no counter ever goes
/// down; a walker is clean after a step if it was before and the step
/// reports no failure.
pub proof fn law_step_counts(walker: WalkerView, event: Event)
    ensures
        walker.step(event).0.dirs == walker.dirs + count(
            written(walker.step(event).1),
            LineKind::Directory,
        ),
        walker.step(event).0.files == walker.files + count(
            written(walker.step(event).1),
            LineKind::File,
        ),
        walker.step(event).0.clean == (walker.clean && count(
            written(walker.step(event).1),
            LineKind::Report,
        ) == 0),
        walker.step(event).0.dirs >= walker.dirs,
        walker.step(event).0.files >= walker.files,
{
    match walker.step(event).1 {
        Some(line) => {
            lemma_count_one(Action::Write(line));
        },
        None => {
            lemma_count_none();
        },
    }
}

/// A whole walk, said outright. It writes the header and asks for the
/// listing of the starting directory. If that fails, the failure is
/// reported and the walk has failed: nothing else is written, no summary
/// either. Otherwise the walk does what `trace_of_nodes` says for the
/// entries, is done, and has written the summary of what it counted as its
/// last line.
pub proof fn law_walk(target: Seq<char>, listing: Listing, include_hidden: bool)
    ensures
        ({
            let end = walk(target, listing, include_hidden);
            let header = Action::Write(header_line(target));
            match listing {
                Listing::Denied { message } => {
                    &&& end.trace == seq![
                        header,
                        Action::List(target),
                        Action::Write(report_line(message)),
                    ]
                    &&& end.walker.status == Status::Failed
                    &&& end.walker.dirs == 0
                    &&& end.walker.files == 0
                    &&& !end.walker.clean
                },
                Listing::Entries { nodes } => {
                    let shown = trace_of_nodes(target, nodes, 1, include_hidden);
                    &&& end.trace == seq![header, Action::List(target)] + shown + seq![
                        Action::Write(summary_line(end.walker.dirs, end.walker.files)),
                    ]
                    &&& end.walker.status == Status::Done
                    &&& end.walker.dirs == count(shown, LineKind::Directory)
                    &&& end.walker.files == count(shown, LineKind::File)
                    &&& end.walker.clean == (count(shown, LineKind::Report) == 0)
                },
            }
        }),
{
    let start = Run {
        walker: WalkerView::start(target, include_hidden),
        trace: seq![Action::Write(header_line(target))],
    };
    let asking = Action::List(target);
    lemma_walk_listing(start, listing);
    lemma_count_one(asking);
    match listing {
        Listing::Denied { message } => {
            let report = Action::Write(report_line(message));
            lemma_count_one(report);
            lemma_count_add(seq![asking], seq![report]);
        },
        Listing::Entries { nodes } => {
            let shown = trace_of_nodes(target, nodes, 1, include_hidden);
            lemma_count_add(seq![asking], shown);
        },
    }
}

/// At the end of a whole walk the counters say how many lines were written
/// for directories and how many for files, the walker is clean just when
/// no failure was reported, and a walk that is done has written the
/// summary of just these counters as its last line.
pub proof fn law_counts(target: Seq<char>, listing: Listing, include_hidden: bool)
    ensures
        ({
            let end = walk(target, listing, include_hidden);
            &&& count(end.trace, LineKind::Directory) == end.walker.dirs
            &&& count(end.trace, LineKind::File) == end.walker.files
            &&& end.walker.clean == (count(end.trace, LineKind::Report) == 0)
            &&& end.walker.status == Status::Done ==> end.trace.last() == Action::Write(
                summary_line(end.walker.dirs, end.walker.files),
            )
        }),
{
    let end = walk(target, listing, include_hidden);
    let header = Action::Write(header_line(target));
    let asking = Action::List(target);
    law_walk(target, listing, include_hidden);
    lemma_count_one(header);
    lemma_count_one(asking);
    match listing {
        Listing::Denied { message } => {
            let report = Action::Write(report_line(message));
            lemma_count_one(report);
            assert(end.trace =~= seq![header] + (seq![asking] + seq![report]));
            lemma_count_add(seq![asking], seq![report]);
            lemma_count_add(seq![header], seq![asking] + seq![report]);
        },
        Listing::Entries { nodes } => {
            let shown = trace_of_nodes(target, nodes, 1, include_hidden);
            let summary = Action::Write(summary_line(end.walker.dirs, end.walker.files));
            lemma_count_one(summary);
            assert(end.trace =~= seq![header] + (seq![asking] + (shown + seq![summary])));
            lemma_count_add(shown, seq![summary]);
            lemma_count_add(seq![asking], shown + seq![summary]);
            lemma_count_add(seq![header], seq![asking] + (shown + seq![summary]));
        },
    }
}

/// A walk that leaves hidden entries out does for a listing what any walk
/// does for the listing without its hidden entries.
pub proof fn lemma_hidden_listing(path: Seq<char>, listing: Listing, depth: nat, any: bool)
    ensures
        trace_of_listing(path, listing, depth, false) == trace_of_listing(
            path,
            visible_listing(listing),
            depth,
            any,
        ),
    decreases listing,
{
    match listing {
        Listing::Denied { message } => {},
        Listing::Entries { nodes } => {
            lemma_hidden_nodes(path, nodes, depth, any);
        },
    }
}

/// A walk that leaves hidden entries out does for the items of a listing
/// what any walk does for the items without the hidden entries.
pub proof fn lemma_hidden_nodes(path: Seq<char>, nodes: Seq<Node>, depth: nat, any: bool)
    ensures
        trace_of_nodes(path, nodes, depth, false) == trace_of_nodes(
            path,
            visible_nodes(nodes),
            depth,
            any,
        ),
    decreases nodes,
{
    if nodes.len() > 0 {
        let first = nodes.first();
        lemma_hidden_nodes(path, nodes.drop_first(), depth, any);
        lemma_trace_of_nodes_add(
            path,
            visible_node(first),
            visible_nodes(nodes.drop_first()),
            depth,
            any,
        );
        match first {
            Node::Unreadable { message } => {
                lemma_trace_of_nodes_one(path, first, depth, any);
            },
            Node::Entry { name, kind, listing } => {
                if !is_hidden(name) {
                    let kept = Node::Entry { name, kind, listing: visible_listing(listing) };
                    lemma_trace_of_nodes_one(path, kept, depth, any);
                    lemma_hidden_listing(child_path(path, name), listing, depth + 1, any);
                }
            },
        }
        assert(trace_of_node(path, first, depth, false) == trace_of_nodes(
            path,
            visible_node(first),
            depth,
            any,
        ));
    }
}

/// Hidden entries leave no trace. A walk that leaves them out writes,
/// lists and counts just what a walk does, with or without them, where no
/// hidden entry exists at any level: neither a hidden entry nor anything
/// below a hidden directory is written, listed or counted.
pub proof fn law_hidden(target: Seq<char>, listing: Listing, any: bool)
    ensures
        walk(target, listing, false).trace == walk(target, visible_listing(listing), any).trace,
        walk(target, listing, false).walker.dirs == walk(
            target,
            visible_listing(listing),
            any,
        ).walker.dirs,
        walk(target, listing, false).walker.files == walk(
            target,
            visible_listing(listing),
            any,
        ).walker.files,
        walk(target, listing, false).walker.status == walk(
            target,
            visible_listing(listing),
            any,
        ).walker.status,
        walk(target, listing, false).walker.clean == walk(
            target,
            visible_listing(listing),
            any,
        ).walker.clean,
{
    law_walk(target, listing, false);
    law_walk(target, visible_listing(listing), any);
    match listing {
        Listing::Denied { message } => {},
        Listing::Entries { nodes } => {
            lemma_hidden_nodes(target, nodes, 1, any);
        },
    }
}

/// A hidden entry leaves no trace where it stands. A walk that leaves
/// hidden entries out goes through a listing as it goes through the
/// listing without one hidden entry: it writes, lists and counts the same,
/// and ends in the same state, whatever is below that entry.
pub proof fn law_hidden_entry(run: Run, nodes: Seq<Node>, at: int)
    requires
        run.walker.wf(),
        run.walker.status == Status::Reading,
        !run.walker.include_hidden,
        0 <= at < nodes.len(),
        nodes[at] is Entry,
        is_hidden(nodes[at]->name),
    ensures
        walk_nodes(run, nodes) == walk_nodes(run, nodes.remove(at)),
{
    let walker = run.walker;
    let path = walker.open.last();
    let depth = walker.depth();
    let before = nodes.take(at);
    let behind = nodes.skip(at + 1);
    lemma_walk_nodes(run, nodes);
    lemma_walk_nodes(run, nodes.remove(at));
    assert(nodes =~= before + (seq![nodes[at]] + behind));
    lemma_trace_of_nodes_add(path, before, seq![nodes[at]] + behind, depth, false);
    lemma_trace_of_nodes_add(path, seq![nodes[at]], behind, depth, false);
    lemma_trace_of_nodes_add(path, before, behind, depth, false);
    lemma_trace_of_nodes_one(path, nodes[at], depth, false);
}

/// Pre-order. Among the items of one listing, a directory that is shown has
/// its line written after all that the walk does for the items before it;
/// what the walk does below the directory follows its line at once; and
/// what the walk does for the items after it comes only then.
pub proof fn law_preorder(run: Run, nodes: Seq<Node>, at: int)
    requires
        run.walker.wf(),
        run.walker.status == Status::Reading,
        0 <= at < nodes.len(),
        nodes[at] is Entry,
        nodes[at]->kind == EntryKind::Directory,
        (EntryView { name: nodes[at]->name, kind: nodes[at]->kind }).shown(
            run.walker.include_hidden,
        ),
    ensures
        ({
            let walker = run.walker;
            let path = walker.open.last();
            let depth = walker.depth();
            let entry = EntryView { name: nodes[at]->name, kind: nodes[at]->kind };
            walk_nodes(run, nodes).trace == run.trace + trace_of_nodes(
                path,
                nodes.take(at),
                depth,
                walker.include_hidden,
            ) + seq![Action::Write(entry_line(entry, depth))] + trace_of_listing(
                child_path(path, entry.name),
                nodes[at]->listing,
                depth + 1,
                walker.include_hidden,
            ) + trace_of_nodes(path, nodes.skip(at + 1), depth, walker.include_hidden)
        }),
{
    let walker = run.walker;
    let path = walker.open.last();
    let depth = walker.depth();
    let hidden = walker.include_hidden;
    let before = nodes.take(at);
    let behind = nodes.skip(at + 1);
    lemma_walk_nodes(run, nodes);
    assert(nodes =~= before + (seq![nodes[at]] + behind));
    lemma_trace_of_nodes_add(path, before, seq![nodes[at]] + behind, depth, hidden);
    lemma_trace_of_nodes_add(path, seq![nodes[at]], behind, depth, hidden);
    lemma_trace_of_nodes_one(path, nodes[at], depth, hidden);
}

} // verus!
