//! Taking text apart: pieces between separators, lines, words, and text
//! without the blanks around it. Each function does what the method of
//! `str` with the same purpose does.

use vstd::prelude::*;
use vstd::string::*;
use crate::text::to_chars;

verus! {

/// The pieces of `s` between the occurrences of `sep`, as `str::split`
/// gives them: one piece more than there are separators.
pub open spec fn split(s: Seq<char>, sep: char) -> Seq<Seq<char>>
    decreases s.len(),
{
    if s.len() == 0 {
        seq![Seq::empty()]
    } else {
        let rest = split(s.drop_last(), sep);
        if s.last() == sep {
            rest.push(Seq::empty())
        } else {
            rest.drop_last().push(rest.last().push(s.last()))
        }
    }
}

/// There is always at least one piece.
pub proof fn lemma_split_len(s: Seq<char>, sep: char)
    ensures
        split(s, sep).len() >= 1,
    decreases s.len(),
{
    if s.len() > 0 {
        lemma_split_len(s.drop_last(), sep);
    }
}

/// The pieces of `s` between the occurrences of `sep`.
pub fn split_on(s: &str, sep: char) -> (r: Vec<String>)
    ensures
        r.deep_view() == split(s@, sep),
        r.len() >= 1,
{
    let chars = to_chars(s);
    let n = chars.len();
    assert(s@.len() == n);
    let mut pieces: Vec<String> = Vec::new();
    let mut start: usize = 0;
    let mut i: usize = 0;
    assert(s@.take(0) =~= Seq::<char>::empty());
    assert(split(s@.take(0), sep) =~= pieces.deep_view().push(s@.subrange(0, 0)));
    while i < n
        invariant
            start <= i <= n,
            n == chars.len(),
            n == s@.len(),
            chars@ == s@,
            split(s@.take(i as int), sep) == pieces.deep_view().push(s@.subrange(start as int, i as int)),
        decreases n - i,
    {
        let ghost before = pieces.deep_view();
        let ghost prefix = s@.take(i + 1);
        proof {
            assert(prefix.drop_last() =~= s@.take(i as int));
            assert(prefix.last() == chars[i as int]);
            let rest = split(s@.take(i as int), sep);
            assert(rest.drop_last() =~= before);
            assert(rest.last() == s@.subrange(start as int, i as int));
        }
        if chars[i] == sep {
            pieces.push(String::from_str(s.substring_char(start, i)));
            assert(pieces.deep_view() =~= before.push(s@.subrange(start as int, i as int)));
            start = i + 1;
            assert(s@.subrange(start as int, i + 1) =~= Seq::<char>::empty());
            assert(split(prefix, sep) =~= pieces.deep_view().push(s@.subrange(start as int, i + 1)));
        } else {
            assert(s@.subrange(start as int, i + 1) =~= s@.subrange(start as int, i as int).push(chars[i as int]));
            assert(split(prefix, sep) =~= pieces.deep_view().push(s@.subrange(start as int, i + 1)));
        }
        i = i + 1;
    }
    assert(s@.take(n as int) =~= s@);
    let ghost before = pieces.deep_view();
    pieces.push(String::from_str(s.substring_char(start, n)));
    assert(pieces.deep_view() =~= before.push(s@.subrange(start as int, n as int)));
    pieces
}


/// A line without the carriage return at its end, if it has one.
pub open spec fn strip_cr(line: Seq<char>) -> Seq<char> {
    if line.len() > 0 && line.last() == '\r' {
        line.drop_last()
    } else {
        line
    }
}

/// The lines of `s`, as `str::lines` gives them: the text is cut at every
/// line feed; a carriage return before a line feed goes with it; what
/// follows the last line feed is a line of its own unless it is empty.
pub open spec fn lines(s: Seq<char>) -> Seq<Seq<char>> {
    let parts = split(s, '\n');
    let ended = Seq::new((parts.len() - 1) as nat, |i: int| strip_cr(parts[i]));
    if parts.last().len() > 0 {
        ended.push(parts.last())
    } else {
        ended
    }
}

/// The lines of `s`.
pub fn lines_of(s: &str) -> (r: Vec<String>)
    ensures
        r.deep_view() == lines(s@),
{
    let parts = split_on(s, '\n');
    let ghost all = parts.deep_view();
    let mut result: Vec<String> = Vec::new();
    let last = parts.len() - 1;
    let mut i: usize = 0;
    while i < last
        invariant
            i <= last,
            last == parts.len() - 1,
            all == parts.deep_view(),
            result.len() == i,
            forall|k: int| 0 <= k < i ==> (#[trigger] result[k])@ == strip_cr(all[k]),
        decreases last - i,
    {
        let part = parts[i].as_str();
        assert(part@ == all[i as int]);
        let n = part.unicode_len();
        if n > 0 && part.get_char(n - 1) == '\r' {
            result.push(String::from_str(part.substring_char(0, n - 1)));
            assert(part@.subrange(0, n - 1) =~= part@.drop_last());
        } else {
            result.push(String::from_str(part));
        }
        i = i + 1;
    }
    let ghost ended = result.deep_view();
    assert(ended =~= Seq::new((all.len() - 1) as nat, |i: int| strip_cr(all[i])));
    let tail = parts[last].as_str();
    assert(tail@ == all.last());
    if tail.unicode_len() > 0 {
        result.push(String::from_str(tail));
        assert(result.deep_view() =~= ended.push(all.last()));
    }
    result
}

/// Whether `c` is white space, as `char::is_whitespace` decides it: one of
/// the characters with the Unicode property `White_Space`.
pub open spec fn is_space(c: char) -> bool {
    ('\u{9}' <= c && c <= '\u{d}') || c == ' ' || c == '\u{85}' || c == '\u{a0}' || c == '\u{1680}' || ('\u{2000}'
        <= c && c <= '\u{200a}') || c == '\u{2028}' || c == '\u{2029}' || c == '\u{202f}' || c == '\u{205f}' || c
        == '\u{3000}'
}

/// Whether `c` is white space.
pub fn is_whitespace(c: char) -> (r: bool)
    ensures
        r == is_space(c),
{
    ('\u{9}' <= c && c <= '\u{d}') || c == ' ' || c == '\u{85}' || c == '\u{a0}' || c == '\u{1680}' || ('\u{2000}'
        <= c && c <= '\u{200a}') || c == '\u{2028}' || c == '\u{2029}' || c == '\u{202f}' || c == '\u{205f}' || c
        == '\u{3000}'
}

/// The words of `s` that are complete, and the word that `s` ends in the
/// middle of (empty where it ends in white space).
pub open spec fn scan_words(s: Seq<char>) -> (Seq<Seq<char>>, Seq<char>)
    decreases s.len(),
{
    if s.len() == 0 {
        (Seq::empty(), Seq::empty())
    } else {
        let (done, current) = scan_words(s.drop_last());
        if is_space(s.last()) {
            (
                if current.len() > 0 {
                    done.push(current)
                } else {
                    done
                },
                Seq::empty(),
            )
        } else {
            (done, current.push(s.last()))
        }
    }
}

/// The words of `s`, as `str::split_whitespace` gives them: the longest
/// runs of characters that are no white space.
pub open spec fn words(s: Seq<char>) -> Seq<Seq<char>> {
    let (done, current) = scan_words(s);
    if current.len() > 0 {
        done.push(current)
    } else {
        done
    }
}

/// The words of `s`.
pub fn words_of(s: &str) -> (r: Vec<String>)
    ensures
        r.deep_view() == words(s@),
{
    let chars = to_chars(s);
    let n = chars.len();
    assert(s@.len() == n);
    let mut done: Vec<String> = Vec::new();
    let mut start: usize = 0;
    let mut i: usize = 0;
    assert(s@.take(0) =~= Seq::<char>::empty());
    assert(done.deep_view() =~= Seq::<Seq<char>>::empty());
    assert(s@.subrange(0, 0) =~= Seq::<char>::empty());
    while i < n
        invariant
            start <= i <= n,
            n == chars.len(),
            n == s@.len(),
            chars@ == s@,
            scan_words(s@.take(i as int)) == (done.deep_view(), s@.subrange(start as int, i as int)),
        decreases n - i,
    {
        let ghost before = done.deep_view();
        let ghost prefix = s@.take(i + 1);
        proof {
            assert(prefix.drop_last() =~= s@.take(i as int));
            assert(prefix.last() == chars[i as int]);
        }
        if is_whitespace(chars[i]) {
            if start < i {
                done.push(String::from_str(s.substring_char(start, i)));
                assert(done.deep_view() =~= before.push(s@.subrange(start as int, i as int)));
            }
            start = i + 1;
            assert(s@.subrange(start as int, i + 1) =~= Seq::<char>::empty());
        } else {
            assert(s@.subrange(start as int, i + 1) =~= s@.subrange(start as int, i as int).push(chars[i as int]));
        }
        i = i + 1;
    }
    assert(s@.take(n as int) =~= s@);
    if start < n {
        let ghost before = done.deep_view();
        done.push(String::from_str(s.substring_char(start, n)));
        assert(done.deep_view() =~= before.push(s@.subrange(start as int, n as int)));
    }
    done
}

/// `s` without the white space at its end.
pub open spec fn trim_end(s: Seq<char>) -> Seq<char>
    decreases s.len(),
{
    if s.len() > 0 && is_space(s.last()) {
        trim_end(s.drop_last())
    } else {
        s
    }
}

/// `s` without the white space at its start.
pub open spec fn trim_start(s: Seq<char>) -> Seq<char>
    decreases s.len(),
{
    if s.len() > 0 && is_space(s[0]) {
        trim_start(s.drop_first())
    } else {
        s
    }
}

/// `s` without the white space around it, as `str::trim` gives it.
pub open spec fn trim(s: Seq<char>) -> Seq<char> {
    trim_start(trim_end(s))
}

/// `s` without the white space around it.
pub fn trimmed(s: &str) -> (r: String)
    ensures
        r@ == trim(s@),
{
    let chars = to_chars(s);
    let mut end: usize = chars.len();
    assert(s@.take(end as int) =~= s@);
    while end > 0 && is_whitespace(chars[end - 1])
        invariant
            end <= chars.len(),
            chars@ == s@,
            trim_end(s@) == trim_end(s@.take(end as int)),
        decreases end,
    {
        assert(s@.take(end as int).drop_last() =~= s@.take(end - 1));
        end = end - 1;
    }
    let ghost kept = s@.take(end as int);
    assert(trim_end(s@) == kept);
    let mut start: usize = 0;
    assert(kept.skip(0) =~= kept);
    while start < end && is_whitespace(chars[start])
        invariant
            start <= end <= chars.len(),
            chars@ == s@,
            kept == s@.take(end as int),
            trim_start(kept) == trim_start(kept.skip(start as int)),
        decreases end - start,
    {
        assert(kept.skip(start as int)[0] == chars[start as int]);
        assert(kept.skip(start as int).drop_first() =~= kept.skip(start + 1));
        start = start + 1;
    }
    assert(kept.skip(start as int) =~= s@.subrange(start as int, end as int));
    if start < end {
        assert(kept.skip(start as int)[0] == chars[start as int]);
    }
    String::from_str(s.substring_char(start, end))
}

/// The position of the first `sep` in `s`, if there is one.
pub open spec fn first_index(s: Seq<char>, sep: char) -> Option<int> {
    if exists|i: int| 0 <= i < s.len() && s[i] == sep {
        Some(choose|i: int| 0 <= i < s.len() && s[i] == sep && forall|j: int| 0 <= j < i ==> s[j] != sep)
    } else {
        None
    }
}

/// What stands before and after the first `sep` in `s`, as `str::split_once`
/// gives it; `None` where `s` holds no `sep`.
pub open spec fn split_once(s: Seq<char>, sep: char) -> Option<(Seq<char>, Seq<char>)> {
    match first_index(s, sep) {
        Some(i) => Some((s.subrange(0, i), s.subrange(i + 1, s.len() as int))),
        None => None,
    }
}

/// What stands before and after the first `sep` in `s`.
pub fn split_first(s: &str, sep: char) -> (r: Option<(String, String)>)
    ensures
        r.deep_view() == split_once(s@, sep),
{
    let chars = to_chars(s);
    let n = chars.len();
    let mut i: usize = 0;
    while i < n
        invariant
            i <= n,
            n == chars.len(),
            chars@ == s@,
            forall|j: int| 0 <= j < i ==> s@[j] != sep,
        decreases n - i,
    {
        if chars[i] == sep {
            proof {
                let found = choose|k: int| 0 <= k < s@.len() && s@[k] == sep && forall|j: int| 0 <= j < k ==> s@[j] != sep;
                assert(s@[i as int] == sep);
                assert(found == i) by {
                    if found < i {
                        assert(s@[found] != sep);
                    } else if i < found {
                        assert(s@[i as int] != sep);
                    }
                }
            }
            return Some((String::from_str(s.substring_char(0, i)), String::from_str(s.substring_char(i + 1, n))));
        }
        i = i + 1;
    }
    None
}

/// `s` without the run of `c` at its end, as `str::trim_end_matches` gives it.
pub open spec fn strip_trailing(s: Seq<char>, c: char) -> Seq<char>
    decreases s.len(),
{
    if s.len() > 0 && s.last() == c {
        strip_trailing(s.drop_last(), c)
    } else {
        s
    }
}

/// `s` without the run of `c` at its end.
pub fn without_trailing(s: &str, c: char) -> (r: String)
    ensures
        r@ == strip_trailing(s@, c),
{
    let chars = to_chars(s);
    let mut end: usize = chars.len();
    assert(s@.take(end as int) =~= s@);
    while end > 0 && chars[end - 1] == c
        invariant
            end <= chars.len(),
            chars@ == s@,
            strip_trailing(s@, c) == strip_trailing(s@.take(end as int), c),
        decreases end,
    {
        assert(s@.take(end as int).drop_last() =~= s@.take(end - 1));
        end = end - 1;
    }
    assert(s@.take(end as int) =~= s@.subrange(0, end as int));
    String::from_str(s.substring_char(0, end))
}

} // verus!
