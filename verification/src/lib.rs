//! A small filesystem-search library: the verified core of a `find`-like
//! utility. Given a configuration of starting paths, name patterns and
//! entry types, it decides which discovered filesystem entries to report.
//!
//! The library itself never touches the filesystem: callers walk the tree,
//! classify each node from its own metadata, and hand the resulting stream
//! of entries (or per-node errors) to the search driver here.

use vstd::prelude::*;

pub mod config;
pub mod entry;
pub mod filter;
pub mod pattern;
pub mod render;
pub mod search;

pub use config::Config;
pub use config::ConfigError;
pub use entry::EntryType;
pub use entry::WalkEntry;
pub use entry::WalkItem;
pub use entry::classify_entry;
pub use entry::parse_entry_type;
pub use filter::entry_included;
pub use pattern::Pattern;
pub use render::join_lines;
pub use search::SearchOutcome;
pub use search::search_root;

verus! {

/// The views of a sequence of strings: their character sequences.
pub open spec fn string_views(ss: Seq<String>) -> Seq<Seq<char>> {
    ss.map_values(|s: String| s@)
}

pub broadcast proof fn lemma_string_views_len(ss: Seq<String>)
    ensures
        #[trigger] string_views(ss).len() == ss.len(),
{
}

pub broadcast proof fn lemma_string_views_index(ss: Seq<String>, i: int)
    requires
        0 <= i < ss.len(),
    ensures
        #[trigger] string_views(ss)[i] == ss[i]@,
{
}

} // verus!
