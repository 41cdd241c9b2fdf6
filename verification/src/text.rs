//! Text as sequences of characters: tokens between separators, comparison
//! with fixed words, and trimming of white space.
//!
//! The executable functions work on slices of `char`; their contracts speak of
//! the slice's view, a `Seq<char>`.
use vstd::prelude::*;
use vstd::string::*;

verus! {

/// The number of items of `s` in front of the first `sep`, or the length of
/// `s` where it holds no `sep`.
pub open spec fn token_len<A>(s: Seq<A>, sep: A) -> nat
    decreases s.len(),
{
    if s.len() == 0 || s[0] == sep {
        0
    } else {
        1 + token_len(s.drop_first(), sep)
    }
}

/// The pieces of `s` between occurrences of `sep`, in order. A sequence
/// without `sep` is one piece; `n` separators give `n + 1` pieces, some of
/// which may be empty.
pub open spec fn split<A>(s: Seq<A>, sep: A) -> Seq<Seq<A>>
    decreases s.len(),
{
    let n = token_len(s, sep) as int;
    if n >= s.len() {
        seq![s]
    } else {
        seq![s.take(n)] + split(s.skip(n + 1), sep)
    }
}

/// The piece of `s` in front of its first `sep`.
pub open spec fn first_token<A>(s: Seq<A>, sep: A) -> Seq<A> {
    s.take(token_len(s, sep) as int)
}

/// `token_len` is the one index that has no `sep` before it and either ends
/// the sequence or holds `sep`.
pub proof fn lemma_token_len<A>(s: Seq<A>, sep: A, n: int)
    requires
        0 <= n <= s.len(),
        forall|k: int| 0 <= k < n ==> s[k] != sep,
        n == s.len() || s[n] == sep,
    ensures
        token_len(s, sep) == n,
    decreases s.len(),
{
    if n > 0 {
        let rest = s.drop_first();
        assert forall|k: int| 0 <= k < n - 1 implies rest[k] != sep by {
            assert(rest[k] == s[k + 1]);
        }
        lemma_token_len(rest, sep, n - 1);
    }
}

/// The characters of a string, in a vector.
pub fn chars_of(s: &str) -> (out: Vec<char>)
    ensures
        out@ == s@,
{
    let mut out: Vec<char> = Vec::new();
    for c in it: s.chars()
        invariant
            out@ == it.seq().take(it.index()),
            it.seq() == s@,
    {
        out.push(c);
    }
    out
}

/// Whether `word` stands in `s` at index `at`.
pub(crate) fn word_at(s: &[char], at: usize, word: &[char]) -> (r: bool)
    requires
        at <= s@.len(),
    ensures
        r == (at + word@.len() <= s@.len() && s@.subrange(at as int, at + word@.len()) == word@),
{
    if word.len() > s.len() - at {
        return false;
    }
    let mut i: usize = 0;
    while i < word.len()
        invariant
            i <= word.len(),
            at + word.len() <= s.len(),
            forall|k: int| 0 <= k < i ==> s@[at + k] == word@[k],
        decreases word@.len() - i,
    {
        if s[at + i] != word[i] {
            assert(s@.subrange(at as int, at + word@.len())[i as int] != word@[i as int]);
            return false;
        }
        i += 1;
    }
    assert(s@.subrange(at as int, at + word@.len()) =~= word@);
    true
}

/// Whether the part of `s` from `from` up to `to` is the word.
pub(crate) fn range_is(s: &[char], from: usize, to: usize, word: &[char]) -> (r: bool)
    requires
        from <= to <= s@.len(),
    ensures
        r == (s@.subrange(from as int, to as int) == word@),
{
    if to - from != word.len() {
        assert(s@.subrange(from as int, to as int).len() != word@.len());
        return false;
    }
    word_at(s, from, word)
}

/// Whether `s` is the word.
pub fn is_word(s: &[char], word: &str) -> (r: bool)
    ensures
        r == (s@ == word@),
{
    let chars = chars_of(word);
    assert(s@.subrange(0, s@.len() as int) =~= s@);
    range_is(s, 0, s.len(), chars.as_slice())
}

/// Whether the part of `s` from `from` up to `to` begins with the word.
pub(crate) fn range_starts_with(s: &[char], from: usize, to: usize, word: &[char]) -> (r: bool)
    requires
        from <= to <= s@.len(),
    ensures
        r == word@.is_prefix_of(s@.subrange(from as int, to as int)),
{
    if to - from < word.len() {
        return false;
    }
    let r = word_at(s, from, word);
    assert(s@.subrange(from as int, to as int).subrange(0, word@.len() as int) =~= s@.subrange(
        from as int,
        from + word@.len(),
    ));
    r
}

/// Whether `s` ends with the word.
pub fn ends_with(s: &[char], word: &[char]) -> (r: bool)
    ensures
        r == word@.is_suffix_of(s@),
{
    if s.len() < word.len() {
        return false;
    }
    word_at(s, s.len() - word.len(), word)
}

/// Where the piece that begins at `start` ends: the index of the next `sep`,
/// or the length of `s`.
pub(crate) fn token_end(s: &[char], sep: char, start: usize) -> (end: usize)
    requires
        start <= s@.len(),
    ensures
        start <= end <= s@.len(),
        end - start == token_len(s@.skip(start as int), sep),
{
    let mut i: usize = start;
    while i < s.len() && s[i] != sep
        invariant
            start <= i <= s@.len(),
            forall|k: int| start <= k < i ==> s@[k] != sep,
        decreases s@.len() - i,
    {
        i += 1;
    }
    proof {
        lemma_token_len(s@.skip(start as int), sep, i - start);
    }
    i
}

/// `bounds` gives, for each piece of `s` in order, where it begins and ends.
pub open spec fn marks_pieces(bounds: Seq<(usize, usize)>, s: Seq<char>, sep: char) -> bool {
    &&& bounds.len() == split(s, sep).len()
    &&& forall|k: int|
        0 <= k < bounds.len() ==> (#[trigger] bounds[k]).0 <= bounds[k].1 <= s.len() && split(
            s,
            sep,
        )[k] == s.subrange(bounds[k].0 as int, bounds[k].1 as int)
}

/// Where each piece of `s` begins and ends, in order.
pub fn token_bounds(s: &[char], sep: char) -> (out: Vec<(usize, usize)>)
    ensures
        marks_pieces(out@, s@, sep),
{
    let mut out: Vec<(usize, usize)> = Vec::new();
    let mut pos: usize = 0;
    let ghost done: Seq<Seq<char>> = Seq::empty();
    assert(s@.skip(0) =~= s@);
    loop
        invariant_except_break
            pos <= s@.len(),
            split(s@, sep) == done + split(s@.skip(pos as int), sep),
            out@.len() == done.len(),
            forall|k: int|
                0 <= k < out@.len() ==> (#[trigger] out@[k]).0 <= out@[k].1 <= s@.len() && done[k]
                    == s@.subrange(out@[k].0 as int, out@[k].1 as int),
        ensures
            marks_pieces(out@, s@, sep),
        decreases s@.len() - pos,
    {
        let end = token_end(s, sep, pos);
        let ghost rest = s@.skip(pos as int);
        out.push((pos, end));
        if end >= s.len() {
            proof {
                assert(rest =~= s@.subrange(pos as int, end as int));
                assert(split(rest, sep) == seq![rest]);
                assert(split(s@, sep) =~= done.push(rest));
            }
            break;
        }
        proof {
            assert(rest.take(end - pos) =~= s@.subrange(pos as int, end as int));
            assert(rest.skip(end - pos + 1) =~= s@.skip(end + 1));
            assert(split(rest, sep) == seq![rest.take(end - pos)] + split(
                rest.skip(end - pos + 1),
                sep,
            ));
            assert(split(s@, sep) =~= done.push(rest.take(end - pos)) + split(
                s@.skip(end + 1),
                sep,
            ));
            done = done.push(rest.take(end - pos));
        }
        pos = end + 1;
    }
    out
}

/// White space: the characters that Unicode gives the property White_Space.
pub open spec fn is_space(c: char) -> bool {
    let n = c as u32;
    ||| 0x09 <= n <= 0x0d
    ||| n == 0x20
    ||| n == 0x85
    ||| n == 0xa0
    ||| n == 0x1680
    ||| 0x2000 <= n <= 0x200a
    ||| n == 0x2028
    ||| n == 0x2029
    ||| n == 0x202f
    ||| n == 0x205f
    ||| n == 0x3000
}

/// `s` without the white space at its beginning.
pub open spec fn trim_start(s: Seq<char>) -> Seq<char>
    decreases s.len(),
{
    if s.len() > 0 && is_space(s[0]) {
        trim_start(s.drop_first())
    } else {
        s
    }
}

/// `s` without the white space at its end.
pub open spec fn trim_end(s: Seq<char>) -> Seq<char>
    decreases s.len(),
{
    if s.len() > 0 && is_space(s.last()) {
        trim_end(s.drop_last())
    } else {
        s
    }
}

/// `s` without the white space at either end.
pub open spec fn trim(s: Seq<char>) -> Seq<char> {
    trim_end(trim_start(s))
}

/// Where the leading white space is known to stop, `trim_start` cuts there.
pub proof fn lemma_trim_start(s: Seq<char>, n: int)
    requires
        0 <= n <= s.len(),
        forall|k: int| 0 <= k < n ==> is_space(s[k]),
        n == s.len() || !is_space(s[n]),
    ensures
        trim_start(s) == s.skip(n),
    decreases s.len(),
{
    if n > 0 {
        let rest = s.drop_first();
        assert forall|k: int| 0 <= k < n - 1 implies is_space(rest[k]) by {
            assert(rest[k] == s[k + 1]);
        }
        lemma_trim_start(rest, n - 1);
        assert(rest.skip(n - 1) =~= s.skip(n));
    } else {
        assert(s.skip(0) =~= s);
    }
}

/// Where the trailing white space is known to begin, `trim_end` cuts there.
pub proof fn lemma_trim_end(s: Seq<char>, n: int)
    requires
        0 <= n <= s.len(),
        forall|k: int| n <= k < s.len() ==> is_space(s[k]),
        n == 0 || !is_space(s[n - 1]),
    ensures
        trim_end(s) == s.take(n),
    decreases s.len(),
{
    if n < s.len() {
        let rest = s.drop_last();
        lemma_trim_end(rest, n);
        assert(rest.take(n) =~= s.take(n));
    } else {
        assert(s.take(n) =~= s);
    }
}

/// Whether `c` is white space.
pub fn is_whitespace(c: char) -> (r: bool)
    ensures
        r == is_space(c),
{
    let n: u32 = c as u32;
    (0x09 <= n && n <= 0x0d) || n == 0x20 || n == 0x85 || n == 0xa0 || n == 0x1680 || (0x2000 <= n
        && n <= 0x200a) || n == 0x2028 || n == 0x2029 || n == 0x202f || n == 0x205f || n == 0x3000
}

/// Where the part of `s` from `from` up to `to` begins and ends once its
/// white space at either end is left out.
pub(crate) fn trim_range(s: &[char], from: usize, to: usize) -> (r: (usize, usize))
    requires
        from <= to <= s@.len(),
    ensures
        from <= r.0 <= r.1 <= to,
        s@.subrange(r.0 as int, r.1 as int) == trim(s@.subrange(from as int, to as int)),
{
    let mut a: usize = from;
    while a < to && is_whitespace(s[a])
        invariant
            from <= a <= to <= s@.len(),
            forall|k: int| from <= k < a ==> is_space(s@[k]),
        decreases to - a,
    {
        a += 1;
    }
    let mut b: usize = to;
    while b > a && is_whitespace(s[b - 1])
        invariant
            a <= b <= to <= s@.len(),
            forall|k: int| b <= k < to ==> is_space(s@[k]),
        decreases b,
    {
        b -= 1;
    }
    proof {
        let whole = s@.subrange(from as int, to as int);
        lemma_trim_start(whole, a - from);
        let tail = whole.skip(a - from);
        assert(tail =~= s@.subrange(a as int, to as int));
        if b > a {
            assert(tail[b - a - 1] == s@[b - 1]);
        }
        lemma_trim_end(tail, b - a);
        assert(tail.take(b - a) =~= s@.subrange(a as int, b as int));
    }
    (a, b)
}

/// Where `s` begins and ends once the white space at either end is left
/// out.
pub fn trim_bounds(s: &[char]) -> (r: (usize, usize))
    ensures
        r.0 <= r.1 <= s@.len(),
        s@.subrange(r.0 as int, r.1 as int) == trim(s@),
{
    assert(s@.subrange(0, s@.len() as int) =~= s@);
    trim_range(s, 0, s.len())
}

/// The parts one after another, with `sep` between each two.
pub open spec fn join(parts: Seq<Seq<char>>, sep: Seq<char>) -> Seq<char>
    decreases parts.len(),
{
    if parts.len() == 0 {
        Seq::empty()
    } else if parts.len() == 1 {
        parts[0]
    } else {
        join(parts.drop_last(), sep) + sep + parts.last()
    }
}

/// The parts one after another, with `sep` between each two.
pub fn join_with(parts: &Vec<String>, sep: &str) -> (out: String)
    ensures
        out@ == join(parts.deep_view(), sep@),
{
    let mut out = String::new();
    let mut i: usize = 0;
    assert(parts.deep_view().take(0) =~= Seq::empty());
    while i < parts.len()
        invariant
            i <= parts@.len(),
            out@ == join(parts.deep_view().take(i as int), sep@),
        decreases parts@.len() - i,
    {
        let ghost seen = parts.deep_view().take(i as int);
        let ghost next = parts.deep_view().take(i + 1);
        assert(next.drop_last() =~= seen);
        assert(next.last() == parts@[i as int]@);
        if i > 0 {
            out.append(sep);
        }
        out.append(parts[i].as_str());
        assert(out@ =~= join(next, sep@)) by {
            if i == 0 {
                assert(join(seen, sep@) =~= Seq::<char>::empty());
            }
        }
        i += 1;
    }
    assert(parts.deep_view().take(i as int) =~= parts.deep_view());
    out
}

} // verus!
