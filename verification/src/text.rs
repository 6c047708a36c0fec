//! Character-level text utilities shared by route matching and parameter
//! parsing: splitting on a separator, searching and comparing.
use vstd::prelude::*;
use vstd::string::StringSliceAdditionalSpecFns;
use vstd::utf8::encode_utf8_decode_utf8;

verus! {

/// The character that separates the segments of a route path.
pub const SLASH: char = '/';

/// The segments of `s` separated by `sep`, empty ones included: appending a
/// separator opens a new, empty segment, appending any other character
/// extends the last segment. There is always at least one segment.
pub open spec fn split_all(s: Seq<char>, sep: char) -> Seq<Seq<char>>
    decreases s.len(),
{
    if s.len() == 0 {
        seq![Seq::<char>::empty()]
    } else {
        let prefix = split_all(s.drop_last(), sep);
        if s.last() == sep {
            prefix.push(Seq::<char>::empty())
        } else {
            prefix.update(prefix.len() - 1, prefix.last().push(s.last()))
        }
    }
}

/// The segments of `s` separated by `sep`, as `str::split_terminator` yields
/// them: like [`split_all`], except that an empty last segment is dropped.
pub open spec fn split_terminator(s: Seq<char>, sep: char) -> Seq<Seq<char>> {
    let all = split_all(s, sep);
    if all.last().len() == 0 {
        all.drop_last()
    } else {
        all
    }
}

/// Whether `needle` occurs in `hay` as a contiguous run of characters.
pub open spec fn occurs_in(hay: Seq<char>, needle: Seq<char>) -> bool {
    exists|i: int|
        0 <= i && i + needle.len() <= hay.len() && #[trigger] hay.subrange(i, i + needle.len())
            == needle
}

/// The pieces of `s` that a list of ranges delimits.
pub open spec fn pieces(s: Seq<char>, ranges: Seq<(usize, usize)>) -> Seq<Seq<char>> {
    ranges.map_values(|r: (usize, usize)| s.subrange(r.0 as int, r.1 as int))
}

/// Whether every range lies within `s`.
pub open spec fn ranges_within(s: Seq<char>, ranges: Seq<(usize, usize)>) -> bool {
    forall|i: int| 0 <= i < ranges.len() ==> #[trigger] ranges[i].0 <= ranges[i].1 <= s.len()
}

proof fn lemma_split_all_nonempty(s: Seq<char>, sep: char)
    ensures
        split_all(s, sep).len() >= 1,
    decreases s.len(),
{
    if s.len() > 0 {
        lemma_split_all_nonempty(s.drop_last(), sep);
    }
}

/// The characters of a string.
pub fn to_chars(s: &str) -> (chars: Vec<char>)
    ensures
        chars@ == s@,
{
    broadcast use vstd::string::group_string_axioms;

    let mut chars: Vec<char> = Vec::new();
    for c in it: s.chars()
        invariant
            chars@ == it.seq().take(it.index() as int),
    {
        chars.push(c);
    }
    chars
}

/// Splits `s` on `sep` into the ranges of all its segments, empty ones
/// included.
pub fn split_ranges(s: &[char], sep: char) -> (ranges: Vec<(usize, usize)>)
    ensures
        ranges_within(s@, ranges@),
        pieces(s@, ranges@) == split_all(s@, sep),
{
    let mut done: Vec<(usize, usize)> = Vec::new();
    let mut start: usize = 0;
    let mut i: usize = 0;
    proof {
        assert(pieces(s@, done@) =~= Seq::<Seq<char>>::empty());
        assert(s@.subrange(0, 0) =~= Seq::<char>::empty());
    }
    while i < s.len()
        invariant
            start <= i <= s.len(),
            ranges_within(s@, done@),
            pieces(s@, done@).push(s@.subrange(start as int, i as int)) == split_all(
                s@.subrange(0, i as int),
                sep,
            ),
        decreases s.len() - i,
    {
        let c = s[i];
        proof {
            let pre = s@.subrange(0, i as int);
            let next = s@.subrange(0, i + 1);
            assert(next.drop_last() == pre);
            assert(next.last() == c);
            lemma_split_all_nonempty(pre, sep);
            assert(s@.subrange(start as int, i + 1) == s@.subrange(start as int, i as int).push(c));
        }
        if c == sep {
            let ghost before = done@;
            done.push((start, i));
            proof {
                assert(pieces(s@, done@) == pieces(s@, before).push(s@.subrange(start as int, i as int)));
                assert(s@.subrange(i + 1, i + 1) == Seq::<char>::empty());
            }
            start = i + 1;
        }
        i = i + 1;
    }
    proof {
        assert(s@.subrange(0, s@.len() as int) == s@);
    }
    let ghost before = done@;
    done.push((start, i));
    proof {
        assert(pieces(s@, done@) == pieces(s@, before).push(s@.subrange(start as int, i as int)));
    }
    done
}

/// Splits `s` on `sep` into the ranges of its segments, the way
/// `str::split_terminator` does.
pub fn split_terminator_ranges(s: &[char], sep: char) -> (ranges: Vec<(usize, usize)>)
    ensures
        ranges_within(s@, ranges@),
        pieces(s@, ranges@) == split_terminator(s@, sep),
{
    let mut ranges = split_ranges(s, sep);
    proof {
        lemma_split_all_nonempty(s@, sep);
    }
    let n = ranges.len();
    let (a, b) = ranges[n - 1];
    proof {
        assert(pieces(s@, ranges@)[n - 1] == s@.subrange(a as int, b as int));
    }
    if a == b {
        let ghost all = ranges@;
        ranges.pop();
        proof {
            assert(ranges@ == all.drop_last());
            assert(pieces(s@, ranges@) =~= pieces(s@, all).drop_last());
        }
    }
    ranges
}

/// Whether the characters of `s` in `start..end` are those of `t`.
pub fn range_eq(s: &[char], start: usize, end: usize, t: &[char]) -> (equal: bool)
    requires
        start <= end <= s@.len(),
    ensures
        equal == (s@.subrange(start as int, end as int) == t@),
{
    if end - start != t.len() {
        return false;
    }
    let mut j: usize = 0;
    while j < t.len()
        invariant
            j <= t.len(),
            start + t@.len() == end <= s@.len(),
            forall|k: int| 0 <= k < j ==> s@[start + k] == t@[k],
        decreases t.len() - j,
    {
        if s[start + j] != t[j] {
            proof {
                assert(s@.subrange(start as int, end as int)[j as int] != t@[j as int]);
            }
            return false;
        }
        j = j + 1;
    }
    proof {
        assert(s@.subrange(start as int, end as int) =~= t@);
    }
    true
}

/// Whether `needle` occurs in `hay`, as `str::contains` with a string pattern
/// answers.
pub fn contains_chars(hay: &[char], needle: &[char]) -> (found: bool)
    ensures
        found == occurs_in(hay@, needle@),
{
    if needle.len() > hay.len() {
        return false;
    }
    let last = hay.len() - needle.len();
    let mut i: usize = 0;
    loop
        invariant
            i <= last,
            last + needle@.len() == hay@.len(),
            hay@.len() == hay.len(),
            forall|k: int|
                0 <= k < i ==> #[trigger] hay@.subrange(k, k + needle@.len()) != needle@,
        decreases last - i,
    {
        if range_eq(hay, i, i + needle.len(), needle) {
            return true;
        }
        if i == last {
            return false;
        }
        i = i + 1;
    }
}

/// Whether two byte strings are equal.
pub fn bytes_eq(a: &[u8], b: &[u8]) -> (equal: bool)
    ensures
        equal == (a@ == b@),
{
    if a.len() != b.len() {
        return false;
    }
    let mut i: usize = 0;
    while i < a.len()
        invariant
            i <= a.len(),
            a@.len() == b@.len(),
            forall|j: int| 0 <= j < i ==> a@[j] == b@[j],
        decreases a.len() - i,
    {
        if a[i] != b[i] {
            return false;
        }
        i = i + 1;
    }
    proof {
        assert(a@ =~= b@);
    }
    true
}

/// Whether two strings hold the same characters.
pub fn str_eq(a: &str, b: &str) -> (equal: bool)
    ensures
        equal == (a@ == b@),
{
    let equal = bytes_eq(a.as_bytes(), b.as_bytes());
    proof {
        if equal {
            encode_utf8_decode_utf8(a@);
            encode_utf8_decode_utf8(b@);
            assert(a.spec_bytes() == b.spec_bytes());
        }
    }
    equal
}

} // verus!
