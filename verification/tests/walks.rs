use lls::entry::{DirectoryEntry, EntryKind};
use lls::line::{Line, LineKind};
use lls::tree::Tree;
use lls::walker::{Status, Walker};

const BLUE: &str = "\u{001b}[34m";
const RESET: &str = "\u{001b}[0m";

/// One item of a listing held in memory.
#[derive(Clone)]
enum Item {
    Bad(&'static str),
    File(&'static str),
    Other(&'static str),
    Dir(&'static str, Result<Vec<Item>, &'static str>),
}

/// What a walk over a tree held in memory did.
struct Seen {
    walker: Walker,
    out: Vec<String>,
    err: Vec<String>,
    all: Vec<Line>,
    listed: Vec<String>,
}

fn take(seen: &mut Seen, line: Option<Line>) {
    if let Some(line) = line {
        if line.is_report() {
            seen.err.push(line.text.clone());
        } else {
            seen.out.push(line.text.clone());
        }
        seen.all.push(line);
    }
}

/// Drives a walker as a front end does, with the tree in place of the file
/// system.
fn drive(target: &str, root: Result<Vec<Item>, &'static str>, include_hidden: bool) -> Seen {
    let (walker, header) = Walker::new(target, include_hidden);
    let mut seen = Seen { walker, out: vec![], err: vec![], all: vec![], listed: vec![] };
    take(&mut seen, Some(header));
    let mut asked = Some(root);
    let mut open: Vec<std::vec::IntoIter<Item>> = vec![];
    loop {
        match seen.walker.status() {
            Status::Opening => {
                seen.listed.push(seen.walker.target().to_string());
                let line = match asked.take().expect("only a directory is listed") {
                    Ok(items) => {
                        open.push(items.into_iter());
                        seen.walker.crawl_target(Ok(()))
                    }
                    Err(why) => seen.walker.crawl_target(Err(why.to_string())),
                };
                take(&mut seen, line);
            }
            Status::Reading => {
                assert_eq!(seen.walker.depth(), open.len());
                let next = open.last_mut().expect("a listing is open").next();
                let item = match next {
                    None => {
                        open.pop();
                        None
                    }
                    Some(Item::Bad(why)) => Some(Err(why.to_string())),
                    Some(Item::File(name)) => {
                        Some(Ok(DirectoryEntry::new(name.to_string(), EntryKind::File)))
                    }
                    Some(Item::Other(name)) => {
                        Some(Ok(DirectoryEntry::new(name.to_string(), EntryKind::Other)))
                    }
                    Some(Item::Dir(name, listing)) => {
                        asked = Some(listing);
                        Some(Ok(DirectoryEntry::new(name.to_string(), EntryKind::Directory)))
                    }
                };
                let line = seen.walker.read_target(item);
                take(&mut seen, line);
            }
            Status::Done | Status::Failed => {
                assert!(open.is_empty());
                return seen;
            }
        }
    }
}

fn dir_line(indent: &str, name: &str) -> String {
    format!("{}{}├── {}{}", indent, BLUE, name, RESET)
}

fn count(seen: &Seen, kind: LineKind) -> usize {
    seen.all.iter().filter(|line| line.kind == kind).count()
}

fn sample() -> Vec<Item> {
    vec![
        Item::File("README"),
        Item::Dir(
            "src",
            Ok(vec![
                Item::File("lib.rs"),
                Item::Dir(".cache", Ok(vec![Item::File("x"), Item::Dir("y", Ok(vec![]))])),
                Item::Dir("bin", Ok(vec![Item::File("main.rs"), Item::File(".keep")])),
                Item::Other("link"),
            ]),
        ),
        Item::File(".gitignore"),
        Item::Dir(".git", Ok(vec![Item::File("HEAD"), Item::Dir("objects", Err("denied"))])),
        Item::Bad("stale handle"),
        Item::Dir("locked", Err("permission denied")),
        Item::Dir("empty", Ok(vec![])),
        Item::File("z"),
    ]
}

#[test]
fn new_walker_waits_for_the_root() {
    let (walker, header) = Walker::new("some/where", true);
    assert_eq!(walker.status(), Status::Opening);
    assert_eq!(walker.target(), "some/where");
    assert_eq!(walker.depth(), 0);
    assert_eq!(walker.tree(), Tree::new());
    assert!(walker.include_hidden());
    assert!(!walker.succeeded());
    assert_eq!(header, Line::new(LineKind::Header, "some/where".to_string()));
}

#[test]
fn header_is_the_path_as_given() {
    let (_, header) = Walker::new("./a/../.hidden/", false);
    assert_eq!(header.text, "./a/../.hidden/");
    assert_eq!(header.kind, LineKind::Header);
}

#[test]
fn one_file_and_one_directory_with_one_file() {
    let root = vec![Item::Dir("b", Ok(vec![Item::File("c.txt")])), Item::File("a.txt")];
    let seen = drive("root", Ok(root), false);
    assert_eq!(
        seen.out,
        vec![
            "root".to_string(),
            dir_line("", "b"),
            "    ├── c.txt".to_string(),
            "├── a.txt".to_string(),
            "1 directory, 2 files".to_string(),
        ]
    );
    assert!(seen.err.is_empty());
    assert_eq!(seen.walker.status(), Status::Done);
    assert_eq!(seen.walker.tree(), Tree { total_files: 2, total_dirs: 1 });
    assert!(seen.walker.succeeded());
    assert_eq!(seen.listed, vec!["root", "root/b"]);
}

#[test]
fn listing_order_is_kept() {
    let root = vec![Item::File("a.txt"), Item::Dir("b", Ok(vec![Item::File("c.txt")]))];
    let seen = drive("root", Ok(root), false);
    assert_eq!(
        seen.out,
        vec![
            "root".to_string(),
            "├── a.txt".to_string(),
            dir_line("", "b"),
            "    ├── c.txt".to_string(),
            "1 directory, 2 files".to_string(),
        ]
    );
}

#[test]
fn only_a_hidden_file_without_all() {
    let seen = drive(".", Ok(vec![Item::File(".secret")]), false);
    assert_eq!(seen.out, vec![".", "0 directories, 0 files"]);
    assert!(seen.err.is_empty());
    assert_eq!(seen.walker.tree(), Tree::new());
    assert!(seen.walker.succeeded());
}

#[test]
fn only_a_hidden_file_with_all() {
    let seen = drive(".", Ok(vec![Item::File(".secret")]), true);
    assert_eq!(seen.out, vec![".", "├── .secret", "0 directories, 1 file"]);
    assert!(seen.err.is_empty());
    assert_eq!(seen.walker.tree(), Tree { total_files: 1, total_dirs: 0 });
}

#[test]
fn unreadable_root_fails_the_walk() {
    let seen = drive("/root", Err("Permission denied (os error 13)"), false);
    assert_eq!(seen.out, vec!["/root"]);
    assert_eq!(seen.err, vec!["Permission denied (os error 13)"]);
    assert_eq!(seen.walker.status(), Status::Failed);
    assert!(!seen.walker.succeeded());
    assert_eq!(seen.walker.tree(), Tree::new());
    assert_eq!(count(&seen, LineKind::Summary), 0);
    assert_eq!(seen.listed, vec!["/root"]);
}

#[test]
fn empty_root() {
    let seen = drive("x", Ok(vec![]), false);
    assert_eq!(seen.out, vec!["x", "0 directories, 0 files"]);
    assert_eq!(seen.walker.status(), Status::Done);
    assert!(seen.walker.succeeded());
}

#[test]
fn unreadable_directory_below_the_root_ends_only_its_branch() {
    let root = vec![
        Item::Dir("locked", Err("permission denied")),
        Item::Dir("open", Ok(vec![Item::File("f")])),
        Item::File("g"),
    ];
    let seen = drive("r", Ok(root), false);
    assert_eq!(
        seen.out,
        vec![
            "r".to_string(),
            dir_line("", "locked"),
            dir_line("", "open"),
            "    ├── f".to_string(),
            "├── g".to_string(),
            "2 directories, 2 files".to_string(),
        ]
    );
    assert_eq!(seen.err, vec!["permission denied"]);
    assert_eq!(seen.walker.status(), Status::Done);
    assert!(!seen.walker.succeeded());
    assert_eq!(seen.listed, vec!["r", "r/locked", "r/open"]);
}

#[test]
fn unreadable_directory_deep_below_goes_back_to_its_parent() {
    let root = vec![Item::Dir(
        "a",
        Ok(vec![Item::Dir("b", Ok(vec![Item::Dir("c", Err("gone")), Item::File("d")]))]),
    )];
    let seen = drive("r", Ok(root), false);
    assert_eq!(
        seen.out,
        vec![
            "r".to_string(),
            dir_line("", "a"),
            dir_line("    ", "b"),
            dir_line("      ", "c"),
            "      ├── d".to_string(),
            "3 directories, 1 file".to_string(),
        ]
    );
    assert_eq!(seen.err, vec!["gone"]);
    assert_eq!(seen.listed, vec!["r", "r/a", "r/a/b", "r/a/b/c"]);
}

#[test]
fn entry_that_cannot_be_classified_is_reported_and_passed_over() {
    let root = vec![Item::File("a"), Item::Bad("stale handle"), Item::File("b")];
    let seen = drive(".", Ok(root), false);
    assert_eq!(seen.out, vec![".", "├── a", "├── b", "0 directories, 2 files"]);
    assert_eq!(seen.err, vec!["stale handle"]);
    assert_eq!(seen.walker.status(), Status::Done);
    assert!(!seen.walker.succeeded());
    let kinds: Vec<LineKind> = seen.all.iter().map(|line| line.kind).collect();
    assert_eq!(
        kinds,
        vec![
            LineKind::Header,
            LineKind::File,
            LineKind::Report,
            LineKind::File,
            LineKind::Summary
        ]
    );
}

#[test]
fn other_kinds_leave_no_trace() {
    let root = vec![Item::Other("socket"), Item::File("a"), Item::Other(".link")];
    for include_hidden in [false, true] {
        let seen = drive(".", Ok(root.clone()), include_hidden);
        assert_eq!(seen.out, vec![".", "├── a", "0 directories, 1 file"]);
        assert!(seen.err.is_empty());
        assert!(seen.walker.succeeded());
        assert_eq!(seen.listed, vec!["."]);
    }
}

#[test]
fn hidden_directory_is_not_listed() {
    let root = vec![
        Item::Dir(".git", Ok(vec![Item::File("HEAD"), Item::Dir("objects", Err("denied"))])),
        Item::File("a"),
    ];
    let seen = drive(".", Ok(root), false);
    assert_eq!(seen.out, vec![".", "├── a", "0 directories, 1 file"]);
    assert!(seen.err.is_empty());
    assert_eq!(seen.listed, vec!["."]);
}

#[test]
fn hidden_directory_is_walked_with_all() {
    let root = vec![
        Item::Dir(".git", Ok(vec![Item::File("HEAD"), Item::Dir("objects", Err("denied"))])),
        Item::File("a"),
    ];
    let seen = drive(".", Ok(root), true);
    assert_eq!(
        seen.out,
        vec![
            ".".to_string(),
            dir_line("", ".git"),
            "    ├── HEAD".to_string(),
            dir_line("    ", "objects"),
            "├── a".to_string(),
            "2 directories, 2 files".to_string(),
        ]
    );
    assert_eq!(seen.err, vec!["denied"]);
    assert_eq!(seen.listed, vec![".", "./.git", "./.git/objects"]);
}

#[test]
fn sample_tree_without_hidden_entries() {
    let seen = drive("p", Ok(sample()), false);
    assert_eq!(
        seen.out,
        vec![
            "p".to_string(),
            "├── README".to_string(),
            dir_line("", "src"),
            "    ├── lib.rs".to_string(),
            dir_line("    ", "bin"),
            "      ├── main.rs".to_string(),
            dir_line("", "locked"),
            dir_line("", "empty"),
            "├── z".to_string(),
            "4 directories, 4 files".to_string(),
        ]
    );
    assert_eq!(seen.err, vec!["stale handle", "permission denied"]);
    assert_eq!(seen.listed, vec!["p", "p/src", "p/src/bin", "p/locked", "p/empty"]);
    assert_eq!(seen.walker.tree(), Tree { total_files: 4, total_dirs: 4 });
    assert_eq!(seen.walker.status(), Status::Done);
    assert!(!seen.walker.succeeded());
}

#[test]
fn sample_tree_with_hidden_entries() {
    let seen = drive("p", Ok(sample()), true);
    assert_eq!(
        seen.out,
        vec![
            "p".to_string(),
            "├── README".to_string(),
            dir_line("", "src"),
            "    ├── lib.rs".to_string(),
            dir_line("    ", ".cache"),
            "      ├── x".to_string(),
            dir_line("      ", "y"),
            dir_line("    ", "bin"),
            "      ├── main.rs".to_string(),
            "      ├── .keep".to_string(),
            "├── .gitignore".to_string(),
            dir_line("", ".git"),
            "    ├── HEAD".to_string(),
            dir_line("    ", "objects"),
            dir_line("", "locked"),
            dir_line("", "empty"),
            "├── z".to_string(),
            "8 directories, 8 files".to_string(),
        ]
    );
    assert_eq!(seen.err, vec!["denied", "stale handle", "permission denied"]);
    assert_eq!(
        seen.listed,
        vec![
            "p",
            "p/src",
            "p/src/.cache",
            "p/src/.cache/y",
            "p/src/bin",
            "p/.git",
            "p/.git/objects",
            "p/locked",
            "p/empty"
        ]
    );
}

#[test]
fn counters_say_how_many_lines_of_each_kind_were_written() {
    for include_hidden in [false, true] {
        let seen = drive("p", Ok(sample()), include_hidden);
        let tree = seen.walker.tree();
        assert_eq!(count(&seen, LineKind::Directory), tree.total_dirs);
        assert_eq!(count(&seen, LineKind::File), tree.total_files);
        assert_eq!(count(&seen, LineKind::Header), 1);
        assert_eq!(count(&seen, LineKind::Summary), 1);
        assert_eq!(seen.all.last().map(|line| line.text.clone()), Some(tree.display_result().text));
        assert_eq!(seen.walker.succeeded(), count(&seen, LineKind::Report) == 0);
    }
}

fn without_hidden(items: &[Item]) -> Vec<Item> {
    let mut kept = vec![];
    for item in items {
        match item {
            Item::Bad(why) => kept.push(Item::Bad(why)),
            Item::File(name) | Item::Other(name) | Item::Dir(name, _) if name.starts_with('.') => {}
            Item::Dir(name, Ok(below)) => kept.push(Item::Dir(name, Ok(without_hidden(below)))),
            other => kept.push(other.clone()),
        }
    }
    kept
}

#[test]
fn hidden_entries_leave_no_trace() {
    let plain = drive("p", Ok(sample()), false);
    for include_hidden in [false, true] {
        let pruned = drive("p", Ok(without_hidden(&sample())), include_hidden);
        assert_eq!(plain.all, pruned.all);
        assert_eq!(plain.listed, pruned.listed);
        assert_eq!(plain.walker.tree(), pruned.walker.tree());
        assert_eq!(plain.walker.status(), pruned.walker.status());
    }
    assert!(plain.out.iter().all(|line| !line.contains("├── .")));
}

#[test]
fn lines_below_a_directory_follow_its_line_at_once() {
    let below = vec![Item::File("1"), Item::Dir("2", Ok(vec![Item::File("3")])), Item::File("4")];
    let root = vec![Item::File("a"), Item::Dir("d", Ok(below.clone())), Item::File("z")];
    let whole = drive("r", Ok(root), false);
    let inner = drive("r/d", Ok(below), false);
    let at = whole.out.iter().position(|line| *line == dir_line("", "d")).unwrap();
    assert_eq!(at, 2);
    assert_eq!(whole.out[1], "├── a");
    let inside = &whole.out[at + 1..at + 1 + 4];
    assert_eq!(inside, ["    ├── 1", &dir_line("    ", "2"), "      ├── 3", "    ├── 4"]);
    assert_eq!(whole.out[at + 5], "├── z");
    assert_eq!(inner.out.len(), 1 + 4 + 1);
}

#[test]
fn crawl_target_opens_the_root() {
    let (mut walker, _) = Walker::new("r", false);
    assert_eq!(walker.crawl_target(Ok(())), None);
    assert_eq!(walker.status(), Status::Reading);
    assert_eq!(walker.depth(), 1);
    assert_eq!(walker.target(), "");
}

#[test]
fn crawl_target_reports_a_failure() {
    let (mut walker, _) = Walker::new("r", false);
    let line = walker.crawl_target(Err("not a directory".to_string()));
    assert_eq!(line, Some(Line::report("not a directory".to_string())));
    assert_eq!(walker.status(), Status::Failed);
    assert_eq!(walker.depth(), 0);
    assert_eq!(walker.target(), "");
}

#[test]
fn read_target_asks_for_a_directory_that_is_shown() {
    let (mut walker, _) = Walker::new("r", false);
    walker.crawl_target(Ok(()));
    let entry = DirectoryEntry::new("sub".to_string(), EntryKind::Directory);
    let line = walker.read_target(Some(Ok(entry)));
    assert_eq!(line, Some(Line::new(LineKind::Directory, dir_line("", "sub"))));
    assert_eq!(walker.status(), Status::Opening);
    assert_eq!(walker.target(), "r/sub");
    assert_eq!(walker.depth(), 1);
    assert_eq!(walker.tree(), Tree { total_files: 0, total_dirs: 1 });
    assert_eq!(walker.crawl_target(Ok(())), None);
    assert_eq!(walker.depth(), 2);
    let entry = DirectoryEntry::new("deep".to_string(), EntryKind::Directory);
    walker.read_target(Some(Ok(entry)));
    assert_eq!(walker.target(), "r/sub/deep");
}

#[test]
fn read_target_goes_on_reading_after_a_file() {
    let (mut walker, _) = Walker::new("r", false);
    walker.crawl_target(Ok(()));
    let entry = DirectoryEntry::new("f".to_string(), EntryKind::File);
    let line = walker.read_target(Some(Ok(entry)));
    assert_eq!(line, Some(Line::new(LineKind::File, "├── f".to_string())));
    assert_eq!(walker.status(), Status::Reading);
    assert_eq!(walker.tree(), Tree { total_files: 1, total_dirs: 0 });
}

#[test]
fn read_target_at_the_end_of_an_inner_listing_writes_nothing() {
    let (mut walker, _) = Walker::new("r", false);
    walker.crawl_target(Ok(()));
    walker.read_target(Some(Ok(DirectoryEntry::new("sub".to_string(), EntryKind::Directory))));
    walker.crawl_target(Ok(()));
    assert_eq!(walker.read_target(None), None);
    assert_eq!(walker.status(), Status::Reading);
    assert_eq!(walker.depth(), 1);
    let line = walker.read_target(None);
    assert_eq!(line, Some(Line::new(LineKind::Summary, "1 directory, 0 files".to_string())));
    assert_eq!(walker.status(), Status::Done);
    assert_eq!(walker.depth(), 0);
}

#[test]
fn get_content_type_reports_a_failure_and_goes_on() {
    let (mut walker, _) = Walker::new("r", false);
    walker.crawl_target(Ok(()));
    let line = walker.get_content_type(Err("input/output error".to_string()));
    assert_eq!(line, Some(Line::report("input/output error".to_string())));
    assert_eq!(walker.status(), Status::Reading);
    assert_eq!(walker.tree(), Tree::new());
    let entry = DirectoryEntry::new("f".to_string(), EntryKind::File);
    assert!(walker.get_content_type(Ok(entry)).is_some());
    walker.read_target(None);
    assert_eq!(walker.status(), Status::Done);
    assert!(!walker.succeeded());
}

#[test]
fn walker_display_passes_over_what_is_not_shown() {
    let (mut walker, _) = Walker::new("r", false);
    walker.crawl_target(Ok(()));
    let hidden = DirectoryEntry::new(".sub".to_string(), EntryKind::Directory);
    assert_eq!(walker.display(&hidden), None);
    assert_eq!(walker.status(), Status::Reading);
    assert_eq!(walker.target(), "");
    let other = DirectoryEntry::new("dev".to_string(), EntryKind::Other);
    assert_eq!(walker.display(&other), None);
    assert_eq!(walker.status(), Status::Reading);
    assert_eq!(walker.tree(), Tree::new());
}

#[test]
fn walker_display_with_all_goes_into_a_hidden_directory() {
    let (mut walker, _) = Walker::new(".", true);
    walker.crawl_target(Ok(()));
    let hidden = DirectoryEntry::new(".sub".to_string(), EntryKind::Directory);
    assert_eq!(walker.display(&hidden), Some(Line::new(LineKind::Directory, dir_line("", ".sub"))));
    assert_eq!(walker.status(), Status::Opening);
    assert_eq!(walker.target(), "./.sub");
}
