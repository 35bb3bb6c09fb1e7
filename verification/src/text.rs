//! The text of the lines: indentation, connector, colour, decimal numbers and
//! the summary with its singular and plural nouns.

use vstd::prelude::*;

verus! {

/// The glyph that stands in front of every name.
pub open spec fn connector() -> Seq<char> {
    "├── "@
}

/// The escape sequence that switches the terminal to blue.
pub open spec fn blue() -> Seq<char> {
    "\u{001b}[34m"@
}

/// The escape sequence that switches the colour off again.
pub open spec fn reset() -> Seq<char> {
    "\u{001b}[0m"@
}

/// `count` spaces.
pub open spec fn spaces(count: nat) -> Seq<char> {
    Seq::new(count, |i: int| ' ')
}

/// The blanks in front of a line at `depth`: none for the children of the
/// root (depth 1), two per level below that.
pub open spec fn indentation(depth: nat) -> Seq<char> {
    if depth == 1 {
        Seq::empty()
    } else {
        spaces(2 * depth)
    }
}

/// The line of a regular file: indentation, connector, name.
pub open spec fn file_line(name: Seq<char>, depth: nat) -> Seq<char> {
    indentation(depth) + connector() + name
}

/// The line of a directory: as a file's, with connector and name in blue.
pub open spec fn dir_line(name: Seq<char>, depth: nat) -> Seq<char> {
    indentation(depth) + blue() + connector() + name + reset()
}

/// The path of the child `name` of the directory at `path`.
pub open spec fn child_path(path: Seq<char>, name: Seq<char>) -> Seq<char> {
    path + "/"@ + name
}

/// The decimal digit for `d`, which is below ten.
pub open spec fn digit(d: nat) -> Seq<char>
    recommends
        d < 10,
{
    if d == 0 {
        "0"@
    } else if d == 1 {
        "1"@
    } else if d == 2 {
        "2"@
    } else if d == 3 {
        "3"@
    } else if d == 4 {
        "4"@
    } else if d == 5 {
        "5"@
    } else if d == 6 {
        "6"@
    } else if d == 7 {
        "7"@
    } else if d == 8 {
        "8"@
    } else {
        "9"@
    }
}

/// `n` in decimal, without leading zeros.
pub open spec fn decimal(n: nat) -> Seq<char>
    decreases n,
{
    if n < 10 {
        digit(n)
    } else {
        decimal(n / 10) + digit(n % 10)
    }
}

/// The noun that goes with a count: `one` for exactly one, `many` for zero
/// and for two or more.
pub open spec fn noun(n: nat, one: Seq<char>, many: Seq<char>) -> Seq<char> {
    if n == 1 {
        one
    } else {
        many
    }
}

/// A count with its noun, as in "1 file" or "0 files".
pub open spec fn counted(n: nat, one: Seq<char>, many: Seq<char>) -> Seq<char> {
    decimal(n) + " "@ + noun(n, one, many)
}

/// The last line of a walk, as in "1 directory, 2 files".
pub open spec fn summary(dirs: nat, files: nat) -> Seq<char> {
    counted(dirs, "directory"@, "directories"@) + ", "@ + counted(files, "file"@, "files"@)
}

/// The blanks in front of a line at `depth`.
pub fn indent(depth: usize) -> (text: String)
    ensures
        text@ == indentation(depth as nat),
{
    let mut text = String::new();
    if depth == 1 {
        return text;
    }
    let mut level: usize = 0;
    while level < depth
        invariant
            level <= depth,
            text@ == spaces(2 * (level as nat)),
        decreases depth - level,
    {
        proof {
            reveal_strlit("  ");
        }
        text.append("  ");
        level = level + 1;
    }
    text
}

/// The text for one digit.
fn digit_text(d: usize) -> (text: &'static str)
    requires
        d < 10,
    ensures
        text@ == digit(d as nat),
{
    if d == 0 {
        "0"
    } else if d == 1 {
        "1"
    } else if d == 2 {
        "2"
    } else if d == 3 {
        "3"
    } else if d == 4 {
        "4"
    } else if d == 5 {
        "5"
    } else if d == 6 {
        "6"
    } else if d == 7 {
        "7"
    } else if d == 8 {
        "8"
    } else {
        "9"
    }
}

/// Appends `n` in decimal to `text`.
pub fn push_decimal(text: &mut String, n: usize)
    ensures
        final(text)@ == old(text)@ + decimal(n as nat),
    decreases n,
{
    if n >= 10 {
        push_decimal(text, n / 10);
    }
    text.append(digit_text(n % 10));
}

/// Appends a count with its noun to `text`.
pub fn push_counted(text: &mut String, n: usize, one: &str, many: &str)
    ensures
        final(text)@ == old(text)@ + counted(n as nat, one@, many@),
{
    push_decimal(text, n);
    text.append(" ");
    if n == 1 {
        text.append(one);
    } else {
        text.append(many);
    }
}

/// The path of the child `name` of the directory at `path`.
pub fn join(path: &str, name: &str) -> (joined: String)
    ensures
        joined@ == child_path(path@, name@),
{
    let mut joined = String::from_str(path);
    joined.append("/");
    joined.append(name);
    joined
}

} // verus!
