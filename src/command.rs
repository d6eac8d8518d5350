use vstd::prelude::*;
use vstd::string::*;

use crate::log::lines_view;

verus! {

/// The pieces of `s` between single ASCII spaces, from left to right.
///
/// Every space ends a piece, so consecutive spaces give empty pieces, and
/// the empty text gives one empty piece.
pub open spec fn split_spaces(s: Seq<char>) -> Seq<Seq<char>>
    decreases s.len(),
{
    if s.len() == 0 {
        seq![seq![]]
    } else {
        let prev = split_spaces(s.drop_last());
        if s.last() == ' ' {
            prev.push(seq![])
        } else {
            prev.update(prev.len() - 1, prev.last().push(s.last()))
        }
    }
}

pub proof fn lemma_split_spaces_nonempty(s: Seq<char>)
    ensures
        split_spaces(s).len() >= 1,
    decreases s.len(),
{
    if s.len() > 0 {
        lemma_split_spaces_nonempty(s.drop_last());
    }
}

/// Splits a command line on single spaces, with no quoting.
pub fn split_command(command: &str) -> (r: Vec<String>)
    ensures
        lines_view(r@) == split_spaces(command@),
{
    let n = command.unicode_len();
    let mut pieces: Vec<String> = Vec::new();
    let mut start: usize = 0;
    let mut i: usize = 0;
    proof {
        assert(lines_view(pieces@) =~= seq![]);
        assert(command@.subrange(0, 0) =~= seq![]);
        assert(command@.take(0) =~= seq![]);
        assert(lines_view(pieces@).push(command@.subrange(0, 0)) =~= seq![seq![]]);
    }
    while i < n
        invariant
            n == command@.len(),
            start <= i <= n,
            lines_view(pieces@).push(command@.subrange(start as int, i as int))
                == split_spaces(command@.take(i as int)),
        decreases n - i,
    {
        let c = command.get_char(i);
        proof {
            let s = command@.take(i as int + 1);
            assert(s.drop_last() =~= command@.take(i as int));
            assert(s.last() == c);
            lemma_split_spaces_nonempty(command@.take(i as int));
        }
        if c == ' ' {
            let piece = command.substring_char(start, i).to_owned();
            let ghost before = pieces@;
            pieces.push(piece);
            proof {
                assert(lines_view(pieces@) =~= lines_view(before).push(piece@));
                assert(command@.subrange(i as int + 1, i as int + 1) =~= seq![]);
            }
            start = i + 1;
        } else {
            proof {
                let prev = split_spaces(command@.take(i as int));
                assert(command@.subrange(start as int, i as int + 1)
                    =~= command@.subrange(start as int, i as int).push(c));
                assert(lines_view(pieces@).push(command@.subrange(start as int, i as int + 1))
                    =~= prev.update(prev.len() - 1, prev.last().push(c)));
            }
        }
        i = i + 1;
    }
    let last = command.substring_char(start, n).to_owned();
    let ghost before = pieces@;
    pieces.push(last);
    proof {
        assert(command@.take(n as int) =~= command@);
        assert(lines_view(pieces@) =~= lines_view(before).push(last@));
    }
    pieces
}

} // verus!
