//! Filesystem entry model: the classification of a single node and the
//! items a tree walk produces.

use vstd::prelude::*;

verus! {

/// The kind of one filesystem node, taken from the node's own metadata.
/// A symbolic link is `Link` regardless of what it points at.
#[derive(Clone, Copy, Debug, PartialEq, Eq, Structural)]
pub enum EntryType {
    Dir,
    File,
    Link,
}

/// What `parse_entry_type` returns for a given tag.
pub open spec fn spec_parse_entry_type(tag: Seq<char>) -> Option<EntryType> {
    if tag.len() == 1 {
        if tag[0] == 'f' {
            Some(EntryType::File)
        } else if tag[0] == 'd' {
            Some(EntryType::Dir)
        } else if tag[0] == 'l' {
            Some(EntryType::Link)
        } else {
            None
        }
    } else {
        None
    }
}

/// Parses a command-line type tag: `f` is a file, `d` a directory,
/// `l` a symbolic link; anything else is rejected.
pub fn parse_entry_type(tag: &str) -> (r: Option<EntryType>)
    ensures
        r == spec_parse_entry_type(tag@),
{
    if tag.unicode_len() == 1 {
        let c = tag.get_char(0);
        if c == 'f' {
            Some(EntryType::File)
        } else if c == 'd' {
            Some(EntryType::Dir)
        } else if c == 'l' {
            Some(EntryType::Link)
        } else {
            None
        }
    } else {
        None
    }
}

/// Classifies one node from its own metadata flags, as a `stat` that does
/// not follow links reports them: a symbolic link is always `Link`, even
/// when its target is a directory or a file; otherwise a directory flag
/// means `Dir`, and anything else is a plain file.
pub fn classify_entry(is_symlink: bool, is_dir: bool) -> (r: EntryType)
    ensures
        r == (if is_symlink {
            EntryType::Link
        } else if is_dir {
            EntryType::Dir
        } else {
            EntryType::File
        }),
        is_symlink <==> r == EntryType::Link,
{
    if is_symlink {
        EntryType::Link
    } else if is_dir {
        EntryType::Dir
    } else {
        EntryType::File
    }
}

/// One successfully discovered filesystem node: the path to display, its
/// base name (the final path component, what name patterns are matched
/// against), and its classified type.
pub struct WalkEntry {
    pub path: String,
    pub base_name: String,
    pub entry_type: EntryType,
}

/// One step of a tree walk: either a discovered node or the message of a
/// failure at one node. A failure never aborts the walk; it flows through
/// the same stream and is diverted to diagnostics by the driver.
pub enum WalkItem {
    Entry(WalkEntry),
    Error(String),
}

} // verus!
