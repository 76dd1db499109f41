//! Walking the directory tree for the log.
//!
//! When the configuration file cannot be read, the tree is listed so that
//! the log shows what the filesystem holds. Reading a directory is the
//! caller's part. [`visit`] decides what to do with each entry as it is
//! read, and [`list`] writes the lines of a tree that has been read.

use vstd::prelude::*;
use vstd::string::StringExecFns;
use vstd::string::StrSliceExecFns;

verus! {

/// The two kinds of directory entry.
#[derive(Debug, Clone, Copy, PartialEq, Eq, Structural)]
pub enum FileType {
    File,
    Dir,
}

/// What the walk does with one entry.
#[derive(Debug, Clone, Copy, PartialEq, Eq, Structural)]
pub enum Visit {
    /// Pass over it: the directory's own `.` or `..`.
    Skip,
    /// Log it.
    Report,
    /// Log it, then list what it holds.
    Descend,
}

/// True when `name` is one of the two names that every directory holds for
/// itself and its parent.
pub open spec fn is_dot_name(name: Seq<char>) -> bool {
    name == seq!['.'] || name == seq!['.', '.']
}

/// What the walk does with an entry of kind `kind` named `name`.
pub open spec fn visit_spec(kind: FileType, name: Seq<char>) -> Visit {
    match kind {
        FileType::File => Visit::Report,
        FileType::Dir => if is_dot_name(name) {
            Visit::Skip
        } else {
            Visit::Descend
        },
    }
}

/// The line that the log shows for an entry: `F` or `D`, a space, the path.
pub open spec fn entry_line_spec(kind: FileType, path: Seq<char>) -> Seq<char> {
    match kind {
        FileType::File => seq!['F', ' '] + path,
        FileType::Dir => seq!['D', ' '] + path,
    }
}

/// Decides what the walk does with an entry. Files are logged; directories
/// are logged and entered, but for `.` and `..`, which would never end.
pub fn visit(kind: FileType, name: &str) -> (visit: Visit)
    ensures
        visit == visit_spec(kind, name@),
{
    match kind {
        FileType::File => Visit::Report,
        FileType::Dir => {
            let len = name.unicode_len();
            let dots = if len == 1 {
                name.get_char(0) == '.'
            } else if len == 2 {
                name.get_char(0) == '.' && name.get_char(1) == '.'
            } else {
                false
            };
            proof {
                if dots {
                    assert(name@ =~= seq!['.'] || name@ =~= seq!['.', '.']);
                }
            }
            if dots {
                Visit::Skip
            } else {
                Visit::Descend
            }
        },
    }
}

/// Writes the log line of an entry.
pub fn entry_line(kind: FileType, path: &str) -> (line: String)
    ensures
        line@ == entry_line_spec(kind, path@),
{
    proof {
        reveal_strlit("F ");
        reveal_strlit("D ");
    }
    let mark = match kind {
        FileType::File => "F ",
        FileType::Dir => "D ",
    };
    assert(mark@ =~= (match kind {
        FileType::File => seq!['F', ' '],
        FileType::Dir => seq!['D', ' '],
    }));
    String::from_str(mark).concat(path)
}

/// A directory entry together with what it holds: for a directory that
/// the walk enters, its own entries in the order in which they are read.
#[derive(Debug)]
pub struct DirEntry {
    pub kind: FileType,
    pub name: String,
    pub path: String,
    pub entries: Vec<DirEntry>,
}

/// The lines that the walk logs for one entry and all beneath it.
pub open spec fn entry_listing(entry: DirEntry) -> Seq<Seq<char>>
    decreases entry, 1nat,
{
    match visit_spec(entry.kind, entry.name@) {
        Visit::Skip => Seq::empty(),
        Visit::Report => seq![entry_line_spec(entry.kind, entry.path@)],
        Visit::Descend => seq![entry_line_spec(entry.kind, entry.path@)] + listing(entry.entries@),
    }
}

/// The lines that the walk logs for a directory that holds `entries`: each
/// entry in its turn, and a directory's contents right after its own line.
pub open spec fn listing(entries: Seq<DirEntry>) -> Seq<Seq<char>>
    decreases entries, 0nat,
{
    if entries.len() == 0 {
        Seq::empty()
    } else {
        listing(entries.drop_last()) + entry_listing(entries.last())
    }
}

/// Walks a directory tree and returns the lines for the log, in the order
/// in which the walk comes by them.
pub fn list(entries: &Vec<DirEntry>) -> (lines: Vec<String>)
    ensures
        lines.deep_view() == listing(entries@),
    decreases entries,
{
    let mut lines: Vec<String> = Vec::new();
    let mut i: usize = 0;
    while i < entries.len()
        invariant
            i <= entries.len(),
            lines.deep_view() == listing(entries@.take(i as int)),
        decreases entries.len() - i,
    {
        let entry = &entries[i];
        let ghost before = lines.deep_view();
        match visit(entry.kind, entry.name.as_str()) {
            Visit::Skip => {},
            Visit::Report => {
                lines.push(entry_line(entry.kind, entry.path.as_str()));
            },
            Visit::Descend => {
                lines.push(entry_line(entry.kind, entry.path.as_str()));
                let mut below = list(&entry.entries);
                lines.append(&mut below);
            },
        }
        proof {
            assert(entries@.take(i + 1).drop_last() =~= entries@.take(i as int));
            assert(lines.deep_view() =~= before + entry_listing(entries@[i as int]));
        }
        i += 1;
    }
    proof {
        assert(entries@.take(entries@.len() as int) =~= entries@);
    }
    lines
}

} // verus!
