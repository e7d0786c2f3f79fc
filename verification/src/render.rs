//! Output rendering: one starting path's matches become one block of
//! text, the paths joined by newlines.

use vstd::prelude::*;
use crate::string_views;

verus! {

broadcast use crate::lemma_string_views_len, crate::lemma_string_views_index;

/// The lines joined by a single newline between neighbours: empty for no
/// lines, and no trailing newline.
pub open spec fn spec_join_lines(lines: Seq<Seq<char>>) -> Seq<char>
    decreases lines.len(),
{
    if lines.len() == 0 {
        Seq::empty()
    } else if lines.len() == 1 {
        lines[0]
    } else {
        spec_join_lines(lines.drop_last()).push('\n') + lines.last()
    }
}

/// Joins the lines with newlines between them, as one output block.
pub fn join_lines(lines: &Vec<String>) -> (r: String)
    ensures
        r@ == spec_join_lines(string_views(lines@)),
{
    let mut out = String::from_str("");
    proof {
        reveal_strlit("");
        assert(out@ =~= Seq::<char>::empty());
    }
    let mut i: usize = 0;
    while i < lines.len()
        invariant
            0 <= i <= lines@.len(),
            out@ == spec_join_lines(string_views(lines@).take(i as int)),
        decreases lines@.len() - i,
    {
        proof {
            reveal_strlit("\n");
            assert(string_views(lines@).take(i + 1).drop_last() =~= string_views(lines@).take(
                i as int,
            ));
            assert(string_views(lines@).take(i + 1).last() == lines@[i as int]@);
        }
        if i > 0 {
            out.append("\n");
            proof {
                assert("\n"@ =~= seq!['\n']);
            }
        }
        out.append(lines[i].as_str());
        proof {
            if i == 0 {
                assert(string_views(lines@).take(1) =~= seq![lines@[0]@]);
            }
            assert(out@ =~= spec_join_lines(string_views(lines@).take(i + 1)));
        }
        i = i + 1;
    }
    proof {
        assert(string_views(lines@).take(lines@.len() as int) =~= string_views(lines@));
    }
    out
}

} // verus!
