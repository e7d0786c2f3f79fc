//! The search driver: given a configuration and the stream of items one
//! tree walk produced for a single starting path, it diverts errors to
//! diagnostics, applies the filter engine to each discovered entry, and
//! collects the surviving entries' display paths in traversal order.
//! Each starting path is processed independently; nothing carries over
//! from one root to the next.

use vstd::prelude::*;
use crate::config::Config;
use crate::entry::WalkItem;
use crate::filter::entry_included;
use crate::filter::spec_included;
use crate::filter::type_set_allows;
use crate::filter::name_set_allows;
use crate::pattern::pattern_views;
use crate::string_views;

verus! {

broadcast use crate::lemma_string_views_len, crate::lemma_string_views_index;

/// The display paths of the entries a configuration includes, in stream
/// order: errors contribute nothing, and an entry contributes its path
/// exactly when the filter engine includes it.
pub open spec fn matched_paths(c: Config, items: Seq<WalkItem>) -> Seq<Seq<char>>
    decreases items.len(),
{
    if items.len() == 0 {
        Seq::empty()
    } else {
        let rest = matched_paths(c, items.drop_last());
        match items.last() {
            WalkItem::Entry(e) => if spec_included(c, e) {
                rest.push(e.path@)
            } else {
                rest
            },
            WalkItem::Error(_) => rest,
        }
    }
}

/// The diagnostic messages of a stream, in stream order: entries
/// contribute nothing.
pub open spec fn error_messages(items: Seq<WalkItem>) -> Seq<Seq<char>>
    decreases items.len(),
{
    if items.len() == 0 {
        Seq::empty()
    } else {
        let rest = error_messages(items.drop_last());
        match items.last() {
            WalkItem::Entry(_) => rest,
            WalkItem::Error(m) => rest.push(m@),
        }
    }
}

/// The display paths of every entry of a stream, in stream order: the
/// full traversal, with only errors left out.
pub open spec fn entry_paths(items: Seq<WalkItem>) -> Seq<Seq<char>>
    decreases items.len(),
{
    if items.len() == 0 {
        Seq::empty()
    } else {
        let rest = entry_paths(items.drop_last());
        match items.last() {
            WalkItem::Entry(e) => rest.push(e.path@),
            WalkItem::Error(_) => rest,
        }
    }
}

/// What one run of the driver on one starting path yields: the included
/// entries' display paths and the diagnostic messages, each in stream
/// order.
pub struct SearchOutcome {
    pub matches: Vec<String>,
    pub errors: Vec<String>,
}

/// Runs the driver on the items one tree walk yielded for one starting
/// path: every error becomes a diagnostic, every entry that passes both
/// filter predicates contributes its display path, in stream order.
pub fn search_root(c: &Config, items: &Vec<WalkItem>) -> (r: SearchOutcome)
    ensures
        string_views(r.matches@) == matched_paths(*c, items@),
        string_views(r.errors@) == error_messages(items@),
{
    let mut matches: Vec<String> = Vec::new();
    let mut errors: Vec<String> = Vec::new();
    let mut i: usize = 0;
    while i < items.len()
        invariant
            0 <= i <= items@.len(),
            string_views(matches@) == matched_paths(*c, items@.take(i as int)),
            string_views(errors@) == error_messages(items@.take(i as int)),
        decreases items@.len() - i,
    {
        proof {
            assert(items@.take(i + 1).drop_last() =~= items@.take(i as int));
            assert(items@.take(i + 1).last() == items@[i as int]);
        }
        match &items[i] {
            WalkItem::Entry(e) => {
                if entry_included(c, e) {
                    let ghost pre = matches@;
                    matches.push(String::from_str(e.path.as_str()));
                    proof {
                        assert(string_views(matches@) =~= string_views(pre).push(e.path@));
                    }
                }
            },
            WalkItem::Error(m) => {
                let ghost pre = errors@;
                errors.push(String::from_str(m.as_str()));
                proof {
                    assert(string_views(errors@) =~= string_views(pre).push(m@));
                }
            },
        }
        i = i + 1;
    }
    proof {
        assert(items@.take(items@.len() as int) =~= items@);
    }
    SearchOutcome { matches, errors }
}

/// With no type restriction and no name restriction, the driver reports
/// the full traversal: every discovered entry's path, in stream order.
pub proof fn lemma_no_filters_full_traversal(c: Config, items: Seq<WalkItem>)
    requires
        c.entry_types@.len() == 0,
        c.names@.len() == 0,
    ensures
        matched_paths(c, items) == entry_paths(items),
    decreases items.len(),
{
    if items.len() == 0 {
    } else {
        lemma_no_filters_full_traversal(c, items.drop_last());
        match items.last() {
            WalkItem::Entry(e) => {
                assert(type_set_allows(c.entry_types@, e.entry_type));
                assert(pattern_views(c.names@).len() == 0) by {
                    crate::pattern::lemma_pattern_views_len(c.names@);
                }
                assert(name_set_allows(pattern_views(c.names@), e.base_name@));
            },
            WalkItem::Error(_) => {},
        }
    }
}

/// A failure at one node never suppresses other results: removing an
/// error item from anywhere in the stream leaves the reported paths
/// unchanged — so an unreadable node costs exactly its own subtree,
/// never its siblings.
pub proof fn lemma_error_does_not_suppress(
    c: Config,
    before: Seq<WalkItem>,
    err: WalkItem,
    after: Seq<WalkItem>,
)
    requires
        err is Error,
    ensures
        matched_paths(c, before + seq![err] + after) == matched_paths(c, before + after),
    decreases after.len(),
{
    if after.len() == 0 {
        assert((before + seq![err] + after).drop_last() =~= before);
        assert((before + seq![err] + after).last() == err);
        assert(before + after =~= before);
    } else {
        lemma_error_does_not_suppress(c, before, err, after.drop_last());
        assert((before + seq![err] + after).drop_last() =~= before + seq![err]
            + after.drop_last());
        assert((before + seq![err] + after).last() == after.last());
        assert((before + after).drop_last() =~= before + after.drop_last());
        assert((before + after).last() == after.last());
    }
}

} // verus!
