//! The filter engine: the type predicate and the name predicate, composed
//! with logical AND. An empty type set or an empty pattern set places no
//! restriction on that dimension — it means "match everything", not
//! "match nothing".

use vstd::prelude::*;
use crate::entry::EntryType;
use crate::entry::WalkEntry;
use crate::pattern::Pattern;
use crate::pattern::pattern_views;
use crate::pattern::regex_match;
use crate::config::Config;

verus! {

/// The type predicate: an empty type set allows every entry; otherwise the
/// entry's type must be one of the configured types.
pub open spec fn type_set_allows(types: Seq<EntryType>, t: EntryType) -> bool {
    types.len() == 0 || types.contains(t)
}

/// The name predicate: an empty pattern set allows every name; otherwise
/// at least one pattern must match the name (logical OR over the patterns).
pub open spec fn name_set_allows(pats: Seq<Seq<char>>, name: Seq<char>) -> bool {
    pats.len() == 0 || exists|i: int| 0 <= i < pats.len() && regex_match(pats[i], name)
}

/// Whether the filter engine includes an entry: both predicates must hold,
/// and the name predicate reads the base name only, never the full path.
pub open spec fn spec_included(c: Config, e: WalkEntry) -> bool {
    &&& type_set_allows(c.entry_types@, e.entry_type)
    &&& name_set_allows(pattern_views(c.names@), e.base_name@)
}

/// Decides the type predicate for one entry type.
pub fn type_included(types: &Vec<EntryType>, t: EntryType) -> (r: bool)
    ensures
        r == type_set_allows(types@, t),
{
    if types.len() == 0 {
        return true;
    }
    let mut i: usize = 0;
    while i < types.len()
        invariant
            0 <= i <= types.len(),
            forall|j: int| 0 <= j < i ==> types@[j] != t,
        decreases types.len() - i,
    {
        if types[i] == t {
            return true;
        }
        i = i + 1;
    }
    false
}

/// Decides the name predicate for one base name.
pub fn name_included(names: &Vec<Pattern>, base_name: &str) -> (r: bool)
    ensures
        r == name_set_allows(pattern_views(names@), base_name@),
{
    if names.len() == 0 {
        return true;
    }
    let mut i: usize = 0;
    while i < names.len()
        invariant
            0 <= i <= names.len(),
            forall|j: int| 0 <= j < i ==> !regex_match(pattern_views(names@)[j], base_name@),
        decreases names.len() - i,
    {
        if names[i].is_match(base_name) {
            assert(regex_match(pattern_views(names@)[i as int], base_name@));
            return true;
        }
        i = i + 1;
    }
    false
}

/// Decides inclusion of one entry under a configuration: the type test and
/// the name test, the latter against the entry's base name only.
pub fn entry_included(c: &Config, e: &WalkEntry) -> (r: bool)
    ensures
        r == spec_included(*c, *e),
{
    type_included(&c.entry_types, e.entry_type) && name_included(&c.names, e.base_name.as_str())
}

/// Adding a type to the filter never removes an included entry of that
/// type: an entry allowed by the old set whose type is the added one is
/// still allowed by the grown set.
pub proof fn lemma_type_filter_monotonic(types: Seq<EntryType>, t: EntryType)
    requires
        type_set_allows(types, t),
    ensures
        type_set_allows(types.push(t), t),
{
    assert(types.push(t)[types.len() as int] == t);
}

/// Inclusion depends on an entry's base name and type alone: two entries
/// that agree on both are included or excluded together, whatever their
/// full paths — a pattern that matches only a parent directory's name
/// never causes inclusion.
pub proof fn lemma_inclusion_ignores_path(c: Config, e1: WalkEntry, e2: WalkEntry)
    requires
        e1.base_name@ == e2.base_name@,
        e1.entry_type == e2.entry_type,
    ensures
        spec_included(c, e1) == spec_included(c, e2),
{
}

/// The name patterns act as a logical OR: one matching pattern suffices
/// for the name predicate.
pub proof fn lemma_name_patterns_or(pats: Seq<Seq<char>>, name: Seq<char>, i: int)
    requires
        0 <= i < pats.len(),
        regex_match(pats[i], name),
    ensures
        name_set_allows(pats, name),
{
}

/// A symbolic link is never matched as its target's type: a directory-only
/// filter excludes every link, and a link-only filter includes every link.
pub proof fn lemma_link_type_filtering()
    ensures
        !type_set_allows(seq![EntryType::Dir], EntryType::Link),
        type_set_allows(seq![EntryType::Link], EntryType::Link),
{
    assert(seq![EntryType::Link][0] == EntryType::Link);
    assert forall|i: int| 0 <= i < 1 implies seq![EntryType::Dir][i] != EntryType::Link by {
        assert(seq![EntryType::Dir][i] == EntryType::Dir);
    }
}

} // verus!
