//! Character sequences: the model that the contracts of this crate speak of,
//! and the verified primitives that work on `str`, `String` and `Vec<char>`.
//!
//! A string is seen as its sequence of characters. Two things are left to
//! the standard library and only named here, because they rest on Unicode
//! tables: which characters are alphanumeric, and what the lower-case form
//! of a string is.

use vstd::prelude::*;
use vstd::string::StringExecFns;

verus! {

/// Whether `c` is white space: one of the characters that Unicode gives
/// the property White_Space, which is what `char::is_whitespace` tests.
pub open spec fn is_whitespace(c: char) -> bool {
    let code = c as u32;
    ||| 0x0009 <= code <= 0x000D
    ||| code == 0x0020
    ||| code == 0x0085
    ||| code == 0x00A0
    ||| code == 0x1680
    ||| 0x2000 <= code <= 0x200A
    ||| code == 0x2028
    ||| code == 0x2029
    ||| code == 0x202F
    ||| code == 0x205F
    ||| code == 0x3000
}

/// Whether `c` is a letter or a number in the sense of
/// `char::is_alphanumeric`.
pub uninterp spec fn is_alphanumeric(c: char) -> bool;

/// The lower-case form of `s` in the sense of `str::to_lowercase`.
pub uninterp spec fn lowercase(s: Seq<char>) -> Seq<char>;

/// `needle` stands in `hay` at index `at`.
pub open spec fn occurs_at(needle: Seq<char>, hay: Seq<char>, at: int) -> bool {
    &&& 0 <= at
    &&& at + needle.len() <= hay.len()
    &&& hay.subrange(at, at + needle.len()) == needle
}

/// `needle` stands somewhere in `hay`. The empty sequence stands in every
/// sequence.
pub open spec fn is_substring(needle: Seq<char>, hay: Seq<char>) -> bool {
    exists|at: int| occurs_at(needle, hay, at)
}

/// `s` begins with `prefix`.
pub open spec fn starts_with(s: Seq<char>, prefix: Seq<char>) -> bool {
    occurs_at(prefix, s, 0)
}

/// `s` without the white space at its front.
pub open spec fn trim_start(s: Seq<char>) -> Seq<char>
    decreases s.len(),
{
    if s.len() > 0 && is_whitespace(s.first()) {
        trim_start(s.drop_first())
    } else {
        s
    }
}

/// `s` without the white space at its end.
pub open spec fn trim_end(s: Seq<char>) -> Seq<char>
    decreases s.len(),
{
    if s.len() > 0 && is_whitespace(s.last()) {
        trim_end(s.drop_last())
    } else {
        s
    }
}

/// `s` without the white space at either end.
pub open spec fn trim(s: Seq<char>) -> Seq<char> {
    trim_end(trim_start(s))
}

/// The pieces of `s` between its line feeds, in order. There is always one
/// piece more than there are line feeds, so a text that ends in a line feed
/// ends in an empty piece.
pub open spec fn split_lines(s: Seq<char>) -> Seq<Seq<char>>
    decreases s.len(),
{
    if s.len() == 0 {
        seq![Seq::empty()]
    } else {
        let before = split_lines(s.drop_last());
        if s.last() == '\n' {
            before.push(Seq::empty())
        } else {
            before.drop_last().push(before.last().push(s.last()))
        }
    }
}

/// `s` with every underscore replaced by a space.
pub open spec fn spaced(s: Seq<char>) -> Seq<char> {
    Seq::new(
        s.len(),
        |i: int|
            if s[i] == '_' {
                ' '
            } else {
                s[i]
            },
    )
}

/// `s` without its last character; the empty sequence stays empty.
pub open spec fn without_last(s: Seq<char>) -> Seq<char> {
    if s.len() == 0 {
        s
    } else {
        s.drop_last()
    }
}

/// `char::is_whitespace`: whether the character has Unicode's property
/// White_Space.
#[verifier::external_body]
pub(crate) fn char_is_whitespace(c: char) -> (r: bool)
    ensures
        r == is_whitespace(c),
{
    c.is_whitespace()
}

/// `char::is_alphanumeric`. The result is named, not described: the Unicode
/// properties behind it are tables.
#[verifier::external_body]
pub(crate) fn char_is_alphanumeric(c: char) -> (r: bool)
    ensures
        r == is_alphanumeric(c),
{
    c.is_alphanumeric()
}

/// `str::to_lowercase`. The result is named, not described: the mapping is
/// Unicode's, and it depends on nothing but the characters given.
#[verifier::external_body]
pub(crate) fn str_to_lowercase(s: &str) -> (r: String)
    ensures
        r@ == lowercase(s@),
{
    s.to_lowercase()
}

/// `String::push`: appends one character at the end.
#[verifier::external_body]
pub(crate) fn string_push(s: &mut String, c: char)
    ensures
        final(s)@ == old(s)@.push(c),
{
    s.push(c)
}

/// `String::pop`: removes the last character and returns it, or returns
/// `None` and leaves the string as it is when it is empty.
#[verifier::external_body]
pub(crate) fn string_pop(s: &mut String) -> (r: Option<char>)
    ensures
        final(s)@ == without_last(old(s)@),
        r == if old(s)@.len() == 0 {
            None
        } else {
            Some(old(s)@.last())
        },
{
    s.pop()
}

/// The characters of a string slice, in order.
pub fn chars_of(s: &str) -> (v: Vec<char>)
    ensures
        v@ == s@,
{
    let mut v: Vec<char> = Vec::new();
    for c in it: s.chars()
        invariant
            v@ == it.seq().take(it.index() as int),
            it.seq() == s@,
    {
        v.push(c);
    }
    v
}

/// The string made of the characters `v[start..end]`.
pub fn string_of(v: &Vec<char>, start: usize, end: usize) -> (s: String)
    requires
        start <= end <= v.len(),
    ensures
        s@ == v@.subrange(start as int, end as int),
{
    let mut s = String::new();
    let mut i: usize = start;
    while i < end
        invariant
            start <= i <= end <= v.len(),
            s@ == v@.subrange(start as int, i as int),
        decreases end - i,
    {
        string_push(&mut s, v[i]);
        i += 1;
        assert(s@ =~= v@.subrange(start as int, i as int));
    }
    s
}

/// Whether `needle` stands in `hay` at index `at`.
pub fn occurs_at_index(hay: &Vec<char>, needle: &Vec<char>, at: usize) -> (r: bool)
    ensures
        r == occurs_at(needle@, hay@, at as int),
{
    if needle.len() > hay.len() || at > hay.len() - needle.len() {
        return false;
    }
    let ghost window = hay@.subrange(at as int, at + needle@.len());
    let mut k: usize = 0;
    while k < needle.len()
        invariant
            k <= needle.len(),
            at + needle.len() <= hay.len(),
            window == hay@.subrange(at as int, at + needle@.len()),
            forall|j: int| 0 <= j < k ==> window[j] == needle@[j],
        decreases needle.len() - k,
    {
        if hay[at + k] != needle[k] {
            assert(window[k as int] != needle@[k as int]);
            return false;
        }
        k += 1;
    }
    assert(window =~= needle@);
    true
}

/// Whether `needle` stands somewhere in `hay`.
pub fn contains_chars(hay: &Vec<char>, needle: &Vec<char>) -> (r: bool)
    ensures
        r == is_substring(needle@, hay@),
{
    if needle.len() > hay.len() {
        return false;
    }
    let last: usize = hay.len() - needle.len();
    let mut at: usize = 0;
    loop
        invariant
            last == hay.len() - needle.len(),
            at <= last,
            forall|j: int| 0 <= j < at ==> !occurs_at(needle@, hay@, j),
        decreases last - at,
    {
        if occurs_at_index(hay, needle, at) {
            return true;
        }
        if at == last {
            return false;
        }
        at += 1;
    }
}

/// Whether `needle` stands somewhere in `hay`, character by character.
pub fn contains(hay: &str, needle: &str) -> (r: bool)
    ensures
        r == is_substring(needle@, hay@),
{
    let hay_chars = chars_of(hay);
    let needle_chars = chars_of(needle);
    contains_chars(&hay_chars, &needle_chars)
}

/// The end of the line that starts at `start`: the index of the next line
/// feed, or the length of `v` where none follows.
pub fn line_end(v: &Vec<char>, start: usize) -> (end: usize)
    requires
        start <= v.len(),
    ensures
        start <= end <= v.len(),
        forall|j: int| start <= j < end ==> v@[j] != '\n',
        end < v.len() ==> v@[end as int] == '\n',
{
    let mut end: usize = start;
    while end < v.len() && v[end] != '\n'
        invariant
            start <= end <= v.len(),
            forall|j: int| start <= j < end ==> v@[j] != '\n',
        decreases v.len() - end,
    {
        end += 1;
    }
    end
}

/// Appending characters that are no line feeds lengthens the last line.
pub proof fn lemma_split_lines_grow(s: Seq<char>, before: Seq<Seq<char>>, start: int, end: int)
    requires
        0 <= start <= end <= s.len(),
        split_lines(s.take(start)) == before.push(Seq::empty()),
        forall|j: int| start <= j < end ==> s[j] != '\n',
    ensures
        split_lines(s.take(end)) == before.push(s.subrange(start, end)),
    decreases end - start,
{
    if end == start {
        assert(s.subrange(start, end) =~= Seq::<char>::empty());
    } else {
        lemma_split_lines_grow(s, before, start, end - 1);
        let shorter = s.take(end - 1);
        assert(s.take(end).drop_last() =~= shorter);
        assert(s.take(end).last() == s[end - 1]);
        let lines = split_lines(shorter);
        assert(lines.drop_last() =~= before);
        assert(lines.last().push(s[end - 1]) =~= s.subrange(start, end));
    }
}

/// A line feed closes the last line and opens an empty one.
pub proof fn lemma_split_lines_feed(s: Seq<char>, lines: Seq<Seq<char>>, end: int)
    requires
        0 <= end < s.len(),
        s[end] == '\n',
        split_lines(s.take(end)) == lines,
    ensures
        split_lines(s.take(end + 1)) == lines.push(Seq::empty()),
{
    assert(s.take(end + 1).drop_last() =~= s.take(end));
    assert(s.take(end + 1).last() == s[end]);
}

/// No character of `s` is a line feed.
pub open spec fn single_line(s: Seq<char>) -> bool {
    forall|i: int| 0 <= i < s.len() ==> s[i] != '\n'
}

/// One of `lines` holds `needle`.
pub open spec fn some_line_holds(lines: Seq<Seq<char>>, needle: Seq<char>) -> bool {
    exists|i: int| 0 <= i < lines.len() && is_substring(needle, #[trigger] lines[i])
}

/// The last line of a text is the end of that text, from just behind its
/// last line feed on.
pub proof fn lemma_last_line(s: Seq<char>)
    ensures
        split_lines(s).len() >= 1,
        split_lines(s).last().len() <= s.len(),
        split_lines(s).last() == s.skip(s.len() - split_lines(s).last().len()),
        single_line(split_lines(s).last()),
        split_lines(s).last().len() < s.len() ==> s[s.len() - split_lines(s).last().len() - 1]
            == '\n',
    decreases s.len(),
{
    if s.len() == 0 {
        assert(split_lines(s).last() =~= s.skip(0));
    } else {
        let front = s.drop_last();
        lemma_last_line(front);
        let last = split_lines(s).last();
        if s.last() == '\n' {
            assert(last =~= s.skip(s.len() - 0));
        } else {
            let before = split_lines(front).last();
            assert(last == before.push(s.last()));
            assert(last =~= s.skip(s.len() - last.len())) by {
                assert(before == front.skip(front.len() - before.len()));
            }
        }
    }
}

/// What stands in the end of a text stands in the text, as far further in
/// as the end begins.
pub proof fn lemma_occurs_in_end(needle: Seq<char>, s: Seq<char>, from: int, at: int)
    requires
        0 <= from <= s.len(),
    ensures
        occurs_at(needle, s.skip(from), at) <==> at >= 0 && occurs_at(needle, s, from + at),
{
    if 0 <= at && from + at + needle.len() <= s.len() {
        assert(s.skip(from).subrange(at, at + needle.len()) =~= s.subrange(
            from + at,
            from + at + needle.len(),
        ));
    }
}

/// What stands in a text stands at the same place in every text that
/// begins with it.
pub proof fn lemma_occurs_in_longer(needle: Seq<char>, s: Seq<char>, longer: Seq<char>, at: int)
    requires
        s.len() <= longer.len(),
        longer.take(s.len() as int) == s,
        0 <= at,
        at + needle.len() <= s.len(),
    ensures
        occurs_at(needle, s, at) <==> occurs_at(needle, longer, at),
{
    assert(s.subrange(at, at + needle.len()) =~= longer.take(s.len() as int).subrange(
        at,
        at + needle.len(),
    ));
    assert(longer.take(s.len() as int).subrange(at, at + needle.len()) =~= longer.subrange(
        at,
        at + needle.len(),
    ));
}

/// A needle without a line feed stands in a text exactly when it stands
/// in one of the text's lines.
pub proof fn lemma_line_holds_iff_text_holds(s: Seq<char>, needle: Seq<char>)
    requires
        single_line(needle),
    ensures
        some_line_holds(split_lines(s), needle) <==> is_substring(needle, s),
    decreases s.len(),
{
    let lines = split_lines(s);
    lemma_last_line(s);
    if needle.len() == 0 {
        assert(occurs_at(needle, s, 0)) by {
            assert(s.subrange(0, 0) =~= needle);
        }
        assert(occurs_at(needle, lines[0], 0)) by {
            assert(lines[0].subrange(0, 0) =~= needle);
        }
        assert(is_substring(needle, lines[0]));
    } else if s.len() == 0 {
        assert(!is_substring(needle, s));
        assert(!some_line_holds(lines, needle)) by {
            assert(forall|i: int| 0 <= i < lines.len() ==> !is_substring(needle, #[trigger] lines[i]));
        }
    } else {
        let front = s.drop_last();
        let front_lines = split_lines(front);
        lemma_line_holds_iff_text_holds(front, needle);
        lemma_last_line(front);
        assert(s.take(front.len() as int) =~= front);
        let start = s.len() - lines.last().len();
        if some_line_holds(lines, needle) {
            let i = choose|i: int| 0 <= i < lines.len() && is_substring(needle, #[trigger] lines[i]);
            let at = choose|at: int| occurs_at(needle, lines[i], at);
            if i == lines.len() - 1 {
                lemma_occurs_in_end(needle, s, start, at);
                assert(occurs_at(needle, s, start + at));
            } else {
                assert(lines[i] == front_lines[i]);
                assert(some_line_holds(front_lines, needle));
                let place = choose|place: int| occurs_at(needle, front, place);
                lemma_occurs_in_longer(needle, front, s, place);
                assert(occurs_at(needle, s, place));
            }
        }
        if is_substring(needle, s) {
            let at = choose|at: int| occurs_at(needle, s, at);
            if at + needle.len() <= front.len() {
                lemma_occurs_in_longer(needle, front, s, at);
                assert(is_substring(needle, front));
                let i = choose|i: int|
                    0 <= i < front_lines.len() && is_substring(needle, #[trigger] front_lines[i]);
                if i < front_lines.len() - 1 {
                    assert(lines[i] == front_lines[i]);
                } else {
                    assert(s.last() != '\n' ==> is_substring(needle, lines.last())) by {
                        if s.last() != '\n' {
                            let place = choose|place: int| occurs_at(needle, front_lines[i], place);
                            assert(lines.last() == front_lines[i].push(s.last()));
                            assert(lines.last().take(front_lines[i].len() as int)
                                =~= front_lines[i]);
                            lemma_occurs_in_longer(needle, front_lines[i], lines.last(), place);
                        }
                    }
                    if s.last() == '\n' {
                        assert(lines[i] == front_lines[i]);
                    } else {
                        assert(is_substring(needle, lines[lines.len() - 1]));
                    }
                }
                assert(some_line_holds(lines, needle));
            } else {
                assert(s.subrange(at, at + needle.len())[needle.len() - 1] == s.last());
                assert(s.last() != '\n');
                if at < start {
                    assert(s.subrange(at, at + needle.len())[start - 1 - at] == s[start - 1]);
                }
                lemma_occurs_in_end(needle, s, start, at - start);
                assert(occurs_at(needle, lines.last(), at - start));
                assert(is_substring(needle, lines[lines.len() - 1]));
            }
        }
    }
}

/// The bounds of `v[start..end]` without the white space at either end.
pub fn trim_range(v: &Vec<char>, start: usize, end: usize) -> (r: (usize, usize))
    requires
        start <= end <= v.len(),
    ensures
        start <= r.0 <= r.1 <= end,
        v@.subrange(r.0 as int, r.1 as int) == trim(v@.subrange(start as int, end as int)),
{
    let mut a: usize = start;
    while a < end && char_is_whitespace(v[a])
        invariant
            start <= a <= end <= v.len(),
            trim_start(v@.subrange(start as int, end as int)) == trim_start(
                v@.subrange(a as int, end as int),
            ),
        decreases end - a,
    {
        assert(v@.subrange(a as int, end as int).drop_first() =~= v@.subrange(
            a + 1,
            end as int,
        ));
        a += 1;
    }
    let mut b: usize = end;
    while b > a && char_is_whitespace(v[b - 1])
        invariant
            a <= b <= end <= v.len(),
            trim_end(v@.subrange(a as int, end as int)) == trim_end(
                v@.subrange(a as int, b as int),
            ),
        decreases b - a,
    {
        assert(v@.subrange(a as int, b as int).drop_last() =~= v@.subrange(a as int, b - 1));
        b -= 1;
    }
    (a, b)
}

/// Whether `v[start..end]` begins with `prefix`.
pub fn range_starts_with(v: &Vec<char>, start: usize, end: usize, prefix: &Vec<char>) -> (r: bool)
    requires
        start <= end <= v.len(),
    ensures
        r == starts_with(v@.subrange(start as int, end as int), prefix@),
{
    if prefix.len() > end - start {
        return false;
    }
    let ghost line = v@.subrange(start as int, end as int);
    let ghost head = line.subrange(0, prefix@.len() as int);
    let mut k: usize = 0;
    while k < prefix.len()
        invariant
            k <= prefix.len() <= end - start,
            start <= end <= v.len(),
            line == v@.subrange(start as int, end as int),
            head == line.subrange(0, prefix@.len() as int),
            forall|j: int| 0 <= j < k ==> head[j] == prefix@[j],
        decreases prefix.len() - k,
    {
        if v[start + k] != prefix[k] {
            assert(head[k as int] != prefix@[k as int]);
            return false;
        }
        k += 1;
    }
    assert(head =~= prefix@);
    true
}

/// A copy of `s` with every underscore replaced by a space.
pub fn replace_underscores(s: &str) -> (r: String)
    ensures
        r@ == spaced(s@),
{
    let chars = chars_of(s);
    let mut r = String::new();
    let mut i: usize = 0;
    while i < chars.len()
        invariant
            i <= chars.len(),
            chars@ == s@,
            r@ == spaced(s@).take(i as int),
        decreases chars.len() - i,
    {
        let c = chars[i];
        if c == '_' {
            string_push(&mut r, ' ');
        } else {
            string_push(&mut r, c);
        }
        i += 1;
        assert(r@ =~= spaced(s@).take(i as int));
    }
    assert(r@ =~= spaced(s@));
    r
}

/// `front` followed by `back`.
pub fn concat(front: &str, back: &str) -> (r: String)
    ensures
        r@ == front@ + back@,
{
    let mut r = String::from_str(front);
    r.append(back);
    r
}

} // verus!
