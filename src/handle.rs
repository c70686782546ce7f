use vstd::prelude::*;
use crate::text::{concat, first_index, lacks, lemma_first_index, split_once, split_once_of};

verus! {

/// Textual form of a paired key handle: classical handle, `~`, post-quantum handle.
pub open spec fn paired_handle_of(classical: Seq<char>, pq: Seq<char>) -> Seq<char> {
    classical + seq!['~'] + pq
}

/// Joins two key handles into their paired form.
pub fn pair_handles(classical: &str, pq: &str) -> (r: String)
    ensures
        r@ == paired_handle_of(classical@, pq@),
{
    let sep = "~";
    proof {
        reveal_strlit("~");
    }
    let left = concat(classical, sep);
    let r = concat(left.as_str(), pq);
    assert(r@ =~= paired_handle_of(classical@, pq@));
    r
}

/// Splits a paired handle at its first `~` into the classical and the
/// post-quantum handle; `None` when there is no `~`.
pub fn split_paired_handle(s: &str) -> (r: Option<(String, String)>)
    ensures
        match r {
            Some((a, b)) => split_once_of(s@, '~') == Some((a@, b@)),
            None => split_once_of(s@, '~').is_none(),
        },
        r is None <==> lacks(s@, '~'),
{
    let r = split_once(s, '~');
    proof {
        if lacks(s@, '~') {
            lemma_first_index(s@, '~', s@.len() as int);
        } else {
            let k = choose|k: int| 0 <= k < s@.len() && s@[k] == '~';
            lemma_first_index_bound(s@, '~', k);
        }
    }
    r
}

proof fn lemma_first_index_bound(s: Seq<char>, c: char, k: int)
    requires
        0 <= k < s.len(),
        s[k] == c,
    ensures
        first_index(s, c) <= k,
    decreases s.len(),
{
    if s[0] != c {
        lemma_first_index_bound(s.drop_first(), c, k - 1);
    }
}

/// Splitting a paired handle gives back the two handles it was made of,
/// whenever the classical handle holds no `~`.
pub proof fn lemma_split_pair(classical: Seq<char>, pq: Seq<char>)
    requires
        lacks(classical, '~'),
    ensures
        split_once_of(paired_handle_of(classical, pq), '~') == Some((classical, pq)),
{
    let s = paired_handle_of(classical, pq);
    lemma_first_index(s, '~', classical.len() as int);
    assert(s.take(classical.len() as int) =~= classical);
    assert(s.skip(classical.len() as int + 1) =~= pq);
}

} // verus!
