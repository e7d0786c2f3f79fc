//! The search configuration: starting paths, compiled name patterns and
//! requested entry types, built once from validated user input and
//! read-only thereafter. An invalid pattern or type tag is a
//! configuration-time error; no traversal happens after one.

use vstd::prelude::*;
use crate::entry::EntryType;
use crate::entry::parse_entry_type;
use crate::entry::spec_parse_entry_type;
use crate::pattern::Pattern;
use crate::pattern::pattern_valid;
use crate::pattern::pattern_views;
use crate::string_views;

verus! {

broadcast use crate::lemma_string_views_len, crate::lemma_string_views_index, crate::pattern::lemma_pattern_views_len, crate::pattern::lemma_pattern_views_index;

/// An immutable search configuration. An empty `names` or `entry_types`
/// means no restriction on that dimension; `paths` is never empty (it
/// defaults to the current directory).
pub struct Config {
    pub paths: Vec<String>,
    pub names: Vec<Pattern>,
    pub entry_types: Vec<EntryType>,
}

/// A configuration-time error: the offending name pattern or type tag.
pub enum ConfigError {
    InvalidName(String),
    InvalidType(String),
}

/// Whether every pattern in the sequence is a valid regular expression.
pub open spec fn all_patterns_valid(pats: Seq<Seq<char>>) -> bool {
    forall|i: int| 0 <= i < pats.len() ==> pattern_valid(pats[i])
}

/// Whether every type tag in the sequence is one of `f`, `d`, `l`.
pub open spec fn all_tags_valid(tags: Seq<Seq<char>>) -> bool {
    forall|i: int| 0 <= i < tags.len() ==> spec_parse_entry_type(tags[i]) is Some
}

/// The entry types a sequence of valid tags denotes, in order.
pub open spec fn parsed_types(tags: Seq<Seq<char>>) -> Seq<EntryType> {
    tags.map_values(|t: Seq<char>| spec_parse_entry_type(t)->Some_0)
}

impl ConfigError {
    /// A human-readable diagnostic line for this error.
    pub fn message(&self) -> (r: String)
        ensures
            self matches ConfigError::InvalidName(n) ==> r@ == "Invalid --name \""@ + n@
                + "\""@,
            self matches ConfigError::InvalidType(t) ==> r@ == "Invalid --type \""@ + t@
                + "\""@,
    {
        match self {
            ConfigError::InvalidName(n) => {
                let mut s = String::from_str("Invalid --name \"");
                s.append(n.as_str());
                s.append("\"");
                s
            },
            ConfigError::InvalidType(t) => {
                let mut s = String::from_str("Invalid --type \"");
                s.append(t.as_str());
                s.append("\"");
                s
            },
        }
    }
}

impl Config {
    /// Builds a configuration from raw user input: starting paths (the
    /// current directory when none are given), name patterns to compile,
    /// and type tags to parse. Succeeds exactly when every pattern is a
    /// valid regular expression and every tag is one of `f`, `d`, `l`;
    /// otherwise reports the first offending pattern, or — with all
    /// patterns valid — the first offending tag.
    pub fn build(paths: Vec<String>, name_patterns: Vec<String>, type_tags: Vec<String>) -> (r:
        Result<Config, ConfigError>)
        ensures
            (r is Ok) == (all_patterns_valid(string_views(name_patterns@)) && all_tags_valid(
                string_views(type_tags@),
            )),
            r matches Ok(c) ==> {
                &&& string_views(c.paths@) == (if paths@.len() == 0 {
                    seq!["."@]
                } else {
                    string_views(paths@)
                })
                &&& pattern_views(c.names@) == string_views(name_patterns@)
                &&& c.entry_types@ == parsed_types(string_views(type_tags@))
            },
            r matches Err(ConfigError::InvalidName(n)) ==> exists|i: int|
                0 <= i < name_patterns@.len() && !pattern_valid(name_patterns@[i]@) && n@
                    == name_patterns@[i]@ && (forall|j: int|
                    0 <= j < i ==> pattern_valid(name_patterns@[j]@)),
            r matches Err(ConfigError::InvalidType(t)) ==> all_patterns_valid(
                string_views(name_patterns@),
            ) && exists|i: int|
                0 <= i < type_tags@.len() && spec_parse_entry_type(type_tags@[i]@) is None && t@
                    == type_tags@[i]@ && (forall|j: int|
                    0 <= j < i ==> spec_parse_entry_type(type_tags@[j]@) is Some),
    {
        let mut names: Vec<Pattern> = Vec::new();
        let mut i: usize = 0;
        while i < name_patterns.len()
            invariant
                0 <= i <= name_patterns@.len(),
                names@.len() == i,
                forall|j: int|
                    0 <= j < i ==> pattern_valid(name_patterns@[j]@) && names@[j]@
                        == name_patterns@[j]@,
            decreases name_patterns@.len() - i,
        {
            match Pattern::new(name_patterns[i].as_str()) {
                Some(p) => {
                    names.push(p);
                },
                None => {
                    proof {
                        assert(string_views(name_patterns@)[i as int] == name_patterns@[i as int]@);
                        assert(!all_patterns_valid(string_views(name_patterns@)));
                    }
                    return Err(ConfigError::InvalidName(String::from_str(
                        name_patterns[i].as_str(),
                    )));
                },
            }
            i = i + 1;
        }
        proof {
            assert(all_patterns_valid(string_views(name_patterns@))) by {
                assert forall|j: int|
                    0 <= j < string_views(name_patterns@).len() implies pattern_valid(
                    string_views(name_patterns@)[j],
                ) by {
                    assert(string_views(name_patterns@)[j] == name_patterns@[j]@);
                }
            }
        }

        let mut entry_types: Vec<EntryType> = Vec::new();
        let mut k: usize = 0;
        while k < type_tags.len()
            invariant
                0 <= k <= type_tags@.len(),
                entry_types@.len() == k,
                all_patterns_valid(string_views(name_patterns@)),
                forall|j: int|
                    0 <= j < k ==> (#[trigger] spec_parse_entry_type(type_tags@[j]@)) is Some,
                forall|j: int|
                    0 <= j < k ==> (#[trigger] entry_types@[j]) == spec_parse_entry_type(
                        type_tags@[j]@,
                    )->Some_0,
            decreases type_tags@.len() - k,
        {
            match parse_entry_type(type_tags[k].as_str()) {
                Some(t) => {
                    entry_types.push(t);
                    proof {
                        assert(spec_parse_entry_type(type_tags@[k as int]@) is Some);
                        assert(entry_types@[k as int] == spec_parse_entry_type(
                            type_tags@[k as int]@,
                        )->Some_0);
                    }
                },
                None => {
                    proof {
                        assert(string_views(type_tags@)[k as int] == type_tags@[k as int]@);
                        assert(!all_tags_valid(string_views(type_tags@)));
                        assert((k as int) < type_tags@.len() && spec_parse_entry_type(
                            type_tags@[k as int]@,
                        ) is None && (forall|j: int|
                            0 <= j < k as int ==> spec_parse_entry_type(
                                type_tags@[j]@,
                            ) is Some));
                    }
                    return Err(ConfigError::InvalidType(String::from_str(type_tags[k].as_str())));
                },
            }
            k = k + 1;
        }
        proof {
            assert(all_tags_valid(string_views(type_tags@))) by {
                assert forall|j: int|
                    0 <= j < string_views(type_tags@).len() implies spec_parse_entry_type(
                    string_views(type_tags@)[j],
                ) is Some by {
                    assert(string_views(type_tags@)[j] == type_tags@[j]@);
                }
            }
        }

        let root_paths = if paths.len() == 0 {
            let mut v: Vec<String> = Vec::new();
            v.push(String::from_str("."));
            v
        } else {
            paths
        };

        let c = Config { paths: root_paths, names, entry_types };
        proof {
            assert(pattern_views(c.names@) =~= string_views(name_patterns@));
            assert(c.entry_types@ =~= parsed_types(string_views(type_tags@)));
            if paths@.len() == 0 {
                assert(string_views(c.paths@) =~= seq!["."@]);
            }
        }
        Ok(c)
    }
}

} // verus!
