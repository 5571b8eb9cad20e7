//! The incremental search overlay's matching: case-insensitive substring
//! containment of the query in each listing entry's name, collecting the
//! matching indices in listing order.

use crate::text::contains_seq;
use crate::text::str_contains;
use vstd::prelude::*;

verus! {

/// One entry of the directory listing, as the directory provider reports
/// it: a file name and whether it names a directory.
#[derive(Debug)]
pub struct DirEntry {
    pub name: String,
    pub is_dir: bool,
}

/// The Unicode lowercase mapping of a text, a function of its characters
/// alone; named here, stated nowhere.
pub uninterp spec fn lower_of(s: Seq<char>) -> Seq<char>;

/// Relies on str::to_lowercase: the Unicode lowercase mapping of the text,
/// which depends on the characters alone; an empty text stays empty.
#[verifier::external_body]
fn fold_case(s: &str) -> (r: String)
    ensures
        r@ == lower_of(s@),
        s@.len() == 0 ==> r@.len() == 0,
{
    s.to_lowercase()
}

/// A listing entry matches a query when the case-folded query occurs in
/// the case-folded file name.
pub open spec fn entry_matches(e: DirEntry, query: Seq<char>) -> bool {
    contains_seq(lower_of(e.name@), lower_of(query))
}

/// The indices of the entries that match `query`, in listing order.
pub open spec fn match_indices(entries: Seq<DirEntry>, query: Seq<char>) -> Seq<usize>
    decreases entries.len(),
{
    if entries.len() == 0 {
        Seq::empty()
    } else {
        let rest = match_indices(entries.drop_last(), query);
        if entry_matches(entries.last(), query) {
            rest.push((entries.len() - 1) as usize)
        } else {
            rest
        }
    }
}

/// Every match index addresses an entry of the listing it was computed
/// from.
pub proof fn lemma_match_indices_in_bounds(entries: Seq<DirEntry>, query: Seq<char>)
    ensures
        forall|k: int|
            0 <= k < match_indices(entries, query).len() ==> (match_indices(entries, query)[k]
                as int) < entries.len(),
    decreases entries.len(),
{
    if entries.len() > 0 {
        lemma_match_indices_in_bounds(entries.drop_last(), query);
        let rest = match_indices(entries.drop_last(), query);
        let whole = match_indices(entries, query);
        assert forall|k: int| 0 <= k < whole.len() implies (whole[k] as int) < entries.len() by {
            if entry_matches(entries.last(), query) {
                assert(whole == rest.push((entries.len() - 1) as usize));
                if k < rest.len() {
                    assert(whole[k] == rest[k]);
                }
            } else {
                assert(whole == rest);
            }
        }
    }
}

/// The match list preserves listing order: its indices are strictly
/// increasing.
pub proof fn lemma_match_indices_sorted(entries: Seq<DirEntry>, query: Seq<char>)
    requires
        entries.len() <= usize::MAX,
    ensures
        forall|k1: int, k2: int|
            0 <= k1 < k2 < match_indices(entries, query).len() ==> match_indices(entries, query)[k1]
                < match_indices(entries, query)[k2],
    decreases entries.len(),
{
    if entries.len() > 0 {
        lemma_match_indices_sorted(entries.drop_last(), query);
        lemma_match_indices_in_bounds(entries.drop_last(), query);
        let rest = match_indices(entries.drop_last(), query);
        let whole = match_indices(entries, query);
        assert forall|k1: int, k2: int|
            0 <= k1 < k2 < whole.len() implies whole[k1] < whole[k2] by {
            if entry_matches(entries.last(), query) {
                assert(whole == rest.push((entries.len() - 1) as usize));
                if k2 < rest.len() {
                    assert(whole[k1] == rest[k1] && whole[k2] == rest[k2]);
                } else {
                    assert(whole[k1] == rest[k1]);
                    assert((rest[k1] as int) < entries.drop_last().len());
                    assert(whole[k2] == (entries.len() - 1) as usize);
                }
            } else {
                assert(whole == rest);
            }
        }
    }
}

/// Collect the indices of the listing entries whose case-folded name
/// contains the case-folded query, in listing order.
pub fn compute_matches(entries: &Vec<DirEntry>, query: &str) -> (r: Vec<usize>)
    ensures
        r@ == match_indices(entries@, query@),
{
    let folded_query = fold_case(query);
    let mut out: Vec<usize> = Vec::new();
    let mut i: usize = 0;
    proof {
        assert(entries@.take(0) =~= Seq::<DirEntry>::empty());
    }
    while i < entries.len()
        invariant
            i <= entries@.len(),
            folded_query@ == lower_of(query@),
            out@ == match_indices(entries@.take(i as int), query@),
        decreases entries@.len() - i,
    {
        proof {
            assert(entries@.take(i + 1).drop_last() =~= entries@.take(i as int));
            assert(entries@.take(i + 1).last() == entries@[i as int]);
        }
        let folded_name = fold_case(entries[i].name.as_str());
        if str_contains(folded_name.as_str(), folded_query.as_str()) {
            out.push(i);
        }
        i = i + 1;
    }
    proof {
        assert(entries@.take(entries@.len() as int) =~= entries@);
    }
    out
}

} // verus!
