//! Character-level text utilities: substring search, line splitting and
//! conversions between strings and character slices.

use vstd::prelude::*;
use vstd::slice::slice_subrange;

verus! {

/// Assumed of the standard library, not proved: `String::push` appends the
/// character `ch` at the end of the string and leaves the characters before
/// it as they were.
pub assume_specification[ String::push ](s: &mut String, ch: char)
    ensures
        final(s)@ == old(s)@.push(ch),
;

/// `needle` occurs in `hay` starting at position `at`.
pub open spec fn occurs_at(hay: Seq<char>, needle: Seq<char>, at: int) -> bool {
    &&& 0 <= at
    &&& at + needle.len() <= hay.len()
    &&& hay.subrange(at, at + needle.len()) == needle
}

/// `needle` occurs somewhere in `hay` as a contiguous run of characters.
pub open spec fn contains_seq(hay: Seq<char>, needle: Seq<char>) -> bool {
    exists|at: int| occurs_at(hay, needle, at)
}

/// The position of the first line feed in `s`, or `s.len()` if it has none.
pub open spec fn line_break(s: Seq<char>) -> int
    decreases s.len(),
{
    if s.len() == 0 || s[0] == '\n' {
        0
    } else {
        1 + line_break(s.drop_first())
    }
}

/// `line` without a carriage return at its end, if it has one there.
pub open spec fn without_carriage_return(line: Seq<char>) -> Seq<char> {
    if line.len() > 0 && line.last() == '\r' {
        line.drop_last()
    } else {
        line
    }
}

/// The lines of `s`. A line ends at a line feed, or at a carriage return
/// directly followed by a line feed; the terminator is not part of the line.
/// The last line needs no terminator, and a text that ends in a terminator has
/// no empty line after it. A carriage return that is not followed by a line
/// feed belongs to its line.
pub open spec fn lines_of(s: Seq<char>) -> Seq<Seq<char>>
    decreases s.len(),
{
    let n = line_break(s);
    if s.len() == 0 {
        Seq::empty()
    } else if 0 <= n < s.len() {
        seq![without_carriage_return(s.take(n))] + lines_of(s.skip(n + 1))
    } else {
        seq![s]
    }
}

/// The pieces of `s` that the half-open index pairs in `spans` select.
pub open spec fn span_texts(s: Seq<char>, spans: Seq<(usize, usize)>) -> Seq<Seq<char>> {
    Seq::new(spans.len(), |i: int| s.subrange(spans[i].0 as int, spans[i].1 as int))
}

/// Every pair in `spans` is a valid half-open range of a text of length `len`.
pub open spec fn spans_within(spans: Seq<(usize, usize)>, len: nat) -> bool {
    forall|i: int| 0 <= i < spans.len() ==> (#[trigger] spans[i]).0 <= spans[i].1 <= len
}

/// A position with no line feed before it, which is the end of the text or
/// holds a line feed, is the line break.
pub proof fn lemma_line_break_is(s: Seq<char>, n: int)
    requires
        0 <= n <= s.len(),
        forall|j: int| 0 <= j < n ==> s[j] != '\n',
        n == s.len() || s[n] == '\n',
    ensures
        line_break(s) == n,
    decreases s.len(),
{
    if n > 0 {
        let rest = s.drop_first();
        assert forall|j: int| 0 <= j < n - 1 implies rest[j] != '\n' by {
            assert(rest[j] == s[j + 1]);
        }
        lemma_line_break_is(rest, n - 1);
    }
}

/// Collects the characters of `s`.
pub fn chars_of(s: &str) -> (v: Vec<char>)
    ensures
        v@ == s@,
{
    let mut v: Vec<char> = Vec::new();
    for c in it: s.chars()
        invariant
            it.seq() == s@,
            v@ == it.seq().take(it.index()),
    {
        v.push(c);
    }
    v
}

/// Builds the string that holds the characters of `chars`, in order.
pub fn string_of(chars: &[char]) -> (s: String)
    ensures
        s@ == chars@,
{
    let mut s = String::new();
    let mut i: usize = 0;
    while i < chars.len()
        invariant
            i <= chars.len(),
            s@ == chars@.take(i as int),
        decreases chars.len() - i,
    {
        s.push(chars[i]);
        i += 1;
    }
    s
}

/// Tests whether `needle` occurs in `hay` at position `at`.
pub fn starts_at(hay: &[char], needle: &[char], at: usize) -> (found: bool)
    ensures
        found == occurs_at(hay@, needle@, at as int),
{
    if needle.len() > hay.len() || at > hay.len() - needle.len() {
        return false;
    }
    let mut k: usize = 0;
    while k < needle.len()
        invariant
            k <= needle.len(),
            at + needle.len() <= hay.len(),
            forall|j: int| 0 <= j < k ==> hay@[at + j] == needle@[j],
        decreases needle.len() - k,
    {
        if hay[at + k] != needle[k] {
            proof {
                let window = hay@.subrange(at as int, at + needle@.len());
                assert(window[k as int] == hay@[at + k]);
            }
            return false;
        }
        k += 1;
    }
    proof {
        assert(hay@.subrange(at as int, at + needle@.len()) =~= needle@);
    }
    true
}

/// Tests whether `needle` occurs anywhere in `hay`. The empty needle occurs
/// in every text.
pub fn contains(hay: &[char], needle: &[char]) -> (found: bool)
    ensures
        found == contains_seq(hay@, needle@),
{
    if needle.len() > hay.len() {
        return false;
    }
    let last: usize = hay.len() - needle.len();
    let mut at: usize = 0;
    loop
        invariant
            at <= last,
            last == hay.len() - needle.len(),
            forall|a: int| 0 <= a < at ==> !occurs_at(hay@, needle@, a),
        decreases last - at,
    {
        if starts_at(hay, needle, at) {
            return true;
        }
        if at == last {
            return false;
        }
        at += 1;
    }
}

/// Splits `s` into its lines and returns, for each line in order, the
/// half-open range of positions that it occupies in `s`.
pub fn split_lines(s: &[char]) -> (spans: Vec<(usize, usize)>)
    ensures
        spans_within(spans@, s@.len()),
        span_texts(s@, spans@) == lines_of(s@),
{
    let mut spans: Vec<(usize, usize)> = Vec::new();
    let mut start: usize = 0;
    proof {
        assert(s@.skip(0) == s@);
        assert(span_texts(s@, spans@) + lines_of(s@) == lines_of(s@));
    }
    while start < s.len()
        invariant
            start <= s.len(),
            spans_within(spans@, s@.len()),
            span_texts(s@, spans@) + lines_of(s@.skip(start as int)) == lines_of(s@),
        decreases s.len() - start,
    {
        let mut end: usize = start;
        while end < s.len() && s[end] != '\n'
            invariant
                start <= end <= s.len(),
                forall|j: int| start <= j < end ==> s@[j] != '\n',
            decreases s.len() - end,
        {
            end += 1;
        }
        let ghost rest = s@.skip(start as int);
        let ghost before = span_texts(s@, spans@);
        proof {
            lemma_line_break_is(rest, end - start);
        }
        if end == s.len() {
            spans.push((start, end));
            proof {
                assert(lines_of(rest) == seq![rest]);
                assert(s@.subrange(start as int, end as int) == rest);
                assert(span_texts(s@, spans@) == before.push(rest));
                assert(lines_of(s@.skip(end as int)) == Seq::<Seq<char>>::empty());
                assert(before.push(rest) + Seq::<Seq<char>>::empty() == before + seq![rest]);
            }
            start = end;
        } else {
            let stop: usize = if end > start && s[end - 1] == '\r' {
                end - 1
            } else {
                end
            };
            spans.push((start, stop));
            proof {
                let raw = rest.take(end - start);
                let line = without_carriage_return(raw);
                assert(raw == s@.subrange(start as int, end as int));
                assert(line == s@.subrange(start as int, stop as int));
                assert(rest.skip(end - start + 1) == s@.skip(end + 1));
                assert(lines_of(rest) == seq![line] + lines_of(s@.skip(end + 1)));
                assert(span_texts(s@, spans@) == before.push(line));
                assert(before.push(line) + lines_of(s@.skip(end + 1)) == before + (seq![line]
                    + lines_of(s@.skip(end + 1))));
            }
            start = end + 1;
        }
    }
    proof {
        assert(s@.skip(start as int).len() == 0);
        assert(span_texts(s@, spans@) + Seq::<Seq<char>>::empty() == span_texts(s@, spans@));
    }
    spans
}

/// Borrows the part of `s` that `span` selects.
pub(crate) fn slice_of<'a>(s: &'a [char], span: (usize, usize)) -> (part: &'a [char])
    requires
        span.0 <= span.1 <= s@.len(),
    ensures
        part@ == s@.subrange(span.0 as int, span.1 as int),
{
    slice_subrange(s, span.0, span.1)
}

} // verus!
