//! Verified text primitives used by the search overlay and the wire-format
//! parsers: first occurrence of a character, substring containment, and
//! splitting a provider's output into lines.

use vstd::prelude::*;
use vstd::string::StrSliceExecFns;

verus! {

/// Index of the first occurrence of `c` in `s`, or `-1` when `c` does not
/// occur.
pub open spec fn find_char_at(s: Seq<char>, c: char) -> int
    decreases s.len(),
{
    if s.len() == 0 {
        -1
    } else if s[0] == c {
        0
    } else {
        let r = find_char_at(s.drop_first(), c);
        if r < 0 {
            -1
        } else {
            r + 1
        }
    }
}

/// `find_char_at` names the first occurrence: the character is there, and
/// nowhere earlier; `-1` means it is nowhere at all.
pub proof fn lemma_find_char_at(s: Seq<char>, c: char)
    ensures
        find_char_at(s, c) == -1 <==> (forall|t: int| 0 <= t < s.len() ==> s[t] != c),
        find_char_at(s, c) != -1 ==> 0 <= find_char_at(s, c) < s.len(),
        find_char_at(s, c) != -1 ==> s[find_char_at(s, c)] == c,
        find_char_at(s, c) != -1 ==> (forall|t: int| 0 <= t < find_char_at(s, c) ==> s[t] != c),
    decreases s.len(),
{
    if s.len() > 0 && s[0] != c {
        lemma_find_char_at(s.drop_first(), c);
        assert(forall|t: int| 0 < t < s.len() ==> s[t] == s.drop_first()[t - 1]);
    }
}

/// First occurrence of `c` in `s` at or after position `from`.
pub fn find_char_from(s: &str, c: char, from: usize) -> (r: Option<usize>)
    requires
        from <= s@.len(),
    ensures
        match r {
            Some(i) => from <= i < s@.len() && find_char_at(s@.subrange(from as int, s@.len() as int), c)
                == i - from,
            None => find_char_at(s@.subrange(from as int, s@.len() as int), c) == -1,
        },
{
    let n = s.unicode_len();
    let ghost suffix = s@.subrange(from as int, s@.len() as int);
    let mut i = from;
    while i < n
        invariant
            from <= i <= n,
            n == s@.len(),
            suffix == s@.subrange(from as int, s@.len() as int),
            forall|t: int| from <= t < i ==> s@[t] != c,
        decreases n - i,
    {
        if s.get_char(i) == c {
            proof {
                lemma_find_char_at(suffix, c);
                assert(suffix[i - from] == s@[i as int]);
                assert(forall|t: int| 0 <= t < i - from ==> suffix[t] == s@[t + from] && s@[t
                    + from] != c);
            }
            return Some(i);
        }
        i = i + 1;
    }
    proof {
        lemma_find_char_at(suffix, c);
        assert(forall|t: int| 0 <= t < suffix.len() ==> suffix[t] == s@[t + from] && s@[t + from]
            != c);
    }
    None
}

/// `needle` occurs in `hay` starting at position `i`.
pub open spec fn match_at(hay: Seq<char>, needle: Seq<char>, i: int) -> bool {
    &&& 0 <= i
    &&& i + needle.len() <= hay.len()
    &&& hay.subrange(i, i + needle.len()) == needle
}

/// `needle` occurs somewhere in `hay`; every text contains the empty text.
pub open spec fn contains_seq(hay: Seq<char>, needle: Seq<char>) -> bool {
    exists|i: int| match_at(hay, needle, i)
}

fn is_match_at(hay: &str, needle: &str, i: usize) -> (r: bool)
    requires
        i + needle@.len() <= hay@.len(),
        hay@.len() <= usize::MAX,
    ensures
        r == match_at(hay@, needle@, i as int),
{
    let m = needle.unicode_len();
    let mut k: usize = 0;
    while k < m
        invariant
            k <= m,
            m == needle@.len(),
            i + m <= hay@.len() <= usize::MAX,
            forall|t: int| 0 <= t < k ==> hay@[i + t] == needle@[t],
        decreases m - k,
    {
        if hay.get_char(i + k) != needle.get_char(k) {
            assert(hay@.subrange(i as int, i + m) != needle@) by {
                assert(hay@.subrange(i as int, i + m)[k as int] == hay@[i + k]);
            }
            return false;
        }
        k = k + 1;
    }
    assert(hay@.subrange(i as int, i + m) =~= needle@);
    true
}

/// Substring containment: whether `needle` occurs contiguously in `hay`.
pub fn str_contains(hay: &str, needle: &str) -> (r: bool)
    ensures
        r == contains_seq(hay@, needle@),
{
    let n = hay.unicode_len();
    let m = needle.unicode_len();
    if m > n {
        return false;
    }
    if m == 0 {
        proof {
            assert(hay@.subrange(0, 0) =~= needle@);
            assert(match_at(hay@, needle@, 0));
        }
        return true;
    }
    let mut i: usize = 0;
    while i <= n - m
        invariant
            0 < m <= n,
            n == hay@.len(),
            m == needle@.len(),
            i <= n - m + 1,
            forall|j: int| 0 <= j < i ==> !match_at(hay@, needle@, j),
        decreases n - m + 1 - i,
    {
        if is_match_at(hay, needle, i) {
            return true;
        }
        i = i + 1;
    }
    false
}

/// A line with one trailing carriage return removed, as the line splitter
/// reports it.
pub open spec fn strip_cr(l: Seq<char>) -> Seq<char> {
    if l.len() > 0 && l.last() == '\r' {
        l.drop_last()
    } else {
        l
    }
}

/// The lines of `s`: pieces between newline characters, each with one
/// trailing carriage return removed, the final line ending optional.
pub open spec fn lines_of(s: Seq<char>) -> Seq<Seq<char>>
    decreases s.len(),
{
    if s.len() == 0 {
        Seq::empty()
    } else {
        let i = find_char_at(s, '\n');
        if 0 <= i < s.len() {
            seq![strip_cr(s.subrange(0, i))] + lines_of(s.subrange(i + 1, s.len() as int))
        } else {
            seq![strip_cr(s)]
        }
    }
}

/// Split `s` into lines at newline characters, dropping one trailing
/// carriage return per line; a final line ending yields no empty line.
pub fn split_lines(s: &str) -> (r: Vec<String>)
    ensures
        r.deep_view() == lines_of(s@),
{
    let n = s.unicode_len();
    let mut out: Vec<String> = Vec::new();
    let mut start: usize = 0;
    proof {
        assert(s@.subrange(0, n as int) =~= s@);
        assert(out.deep_view() + lines_of(s@) =~= lines_of(s@));
    }
    while start < n
        invariant
            start <= n,
            n == s@.len(),
            out.deep_view() + lines_of(s@.subrange(start as int, n as int)) == lines_of(s@),
        decreases n - start,
    {
        let ghost st0 = start as int;
        let ghost suffix = s@.subrange(st0, n as int);
        let ghost pre_dv = out.deep_view();
        let (piece_end, next_start) = match find_char_from(s, '\n', start) {
            Some(j) => (j, j + 1),
            None => (n, n),
        };
        let end = if piece_end > start && s.get_char(piece_end - 1) == '\r' {
            piece_end - 1
        } else {
            piece_end
        };
        let piece = s.substring_char(start, end).to_owned();
        let ghost raw = s@.subrange(st0, piece_end as int);
        proof {
            if piece_end > start && s@[piece_end - 1] == '\r' {
                assert(raw.last() == '\r');
                assert(piece@ =~= strip_cr(raw));
            } else {
                assert(piece@ =~= strip_cr(raw));
            }
        }
        out.push(piece);
        start = next_start;
        proof {
            let tail = s@.subrange(start as int, n as int);
            let rel = find_char_at(suffix, '\n');
            if piece_end < n {
                assert(rel == piece_end - st0);
                assert(suffix.subrange(0, rel) =~= raw);
                assert(suffix.subrange(rel + 1, suffix.len() as int) =~= tail);
                assert(lines_of(suffix) == seq![strip_cr(suffix.subrange(0, rel))] + lines_of(
                    suffix.subrange(rel + 1, suffix.len() as int),
                ));
            } else {
                assert(rel == -1);
                assert(suffix =~= raw);
                assert(lines_of(suffix) == seq![strip_cr(suffix)]);
                assert(tail.len() == 0);
                assert(lines_of(tail) =~= Seq::<Seq<char>>::empty());
            }
            assert(lines_of(suffix) =~= seq![strip_cr(raw)] + lines_of(tail));
            assert(out.deep_view() =~= pre_dv.push(piece@));
            assert(pre_dv.push(piece@) + lines_of(tail) =~= pre_dv + lines_of(suffix));
        }
    }
    proof {
        assert(lines_of(s@.subrange(n as int, n as int)) =~= Seq::<Seq<char>>::empty());
        assert(out.deep_view() + lines_of(s@.subrange(n as int, n as int)) =~= out.deep_view());
    }
    out
}

} // verus!
