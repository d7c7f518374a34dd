//! Texts as sequences of characters: the conversions between `String` and
//! `Vec<char>`, and the small vocabulary of whitespace, lines, words, joining
//! and trimming that the parsers of this crate are stated in.

use vstd::prelude::*;

verus! {

/// `String::push` appends the character to the end of the text.
pub assume_specification[ String::push ](text: &mut String, c: char)
    ensures
        final(text)@ == old(text)@.push(c),
;

/// The lower-case form of a text, as `str::to_lowercase` gives it.
pub uninterp spec fn lowercase(text: Seq<char>) -> Seq<char>;

/// `str::to_lowercase`: the text with every character taken to its
/// lower-case form, by the Unicode tables that std carries.
#[verifier::external_body]
pub(crate) fn to_lowercase(text: &str) -> (lower: String)
    ensures
        lower@ == lowercase(text@),
{
    text.to_lowercase()
}

/// The characters of a text, in order.
pub fn chars_of(text: &str) -> (chars: Vec<char>)
    ensures
        chars@ == text@,
{
    broadcast use vstd::string::group_string_axioms;

    let mut chars: Vec<char> = Vec::new();
    for c in it: text.chars()
        invariant
            it.seq() == text@,
            chars@ == it.seq().take(it.index()),
    {
        chars.push(c);
    }
    chars
}

/// The text that holds the given characters, in order.
pub fn text_of(chars: &[char]) -> (text: String)
    ensures
        text@ == chars@,
{
    let mut text = String::new();
    let mut i: usize = 0;
    while i < chars.len()
        invariant
            i <= chars.len(),
            text@ == chars@.take(i as int),
        decreases chars.len() - i,
    {
        text.push(chars[i]);
        i += 1;
    }
    text
}

/// The view of a list of character rows.
pub open spec fn rows(list: Vec<Vec<char>>) -> Seq<Seq<char>> {
    list@.map_values(|row: Vec<char>| row@)
}

/// Whether the character is white space: one of the code points with the
/// Unicode property `White_Space`.
pub open spec fn is_space(c: char) -> bool {
    let u = c as u32;
    ||| 0x09 <= u <= 0x0D
    ||| u == 0x20
    ||| u == 0x85
    ||| u == 0xA0
    ||| u == 0x1680
    ||| 0x2000 <= u <= 0x200A
    ||| u == 0x2028
    ||| u == 0x2029
    ||| u == 0x202F
    ||| u == 0x205F
    ||| u == 0x3000
}

/// Whether the character is white space.
pub fn is_whitespace(c: char) -> (r: bool)
    ensures
        r == is_space(c),
{
    let u: u32 = c as u32;
    (0x09 <= u && u <= 0x0D) || u == 0x20 || u == 0x85 || u == 0xA0 || u == 0x1680 || (0x2000 <= u
        && u <= 0x200A) || u == 0x2028 || u == 0x2029 || u == 0x202F || u == 0x205F || u == 0x3000
}

/// The code of the character, with the letters `A` to `Z` taken to `a` to `z`.
pub open spec fn ascii_lower(c: char) -> int {
    let u = c as u32;
    if 0x41 <= u <= 0x5A {
        u + 0x20
    } else {
        u as int
    }
}

/// Whether two texts are equal up to the case of their ASCII letters.
pub open spec fn same_ignoring_ascii_case(a: Seq<char>, b: Seq<char>) -> bool {
    &&& a.len() == b.len()
    &&& forall|i: int| 0 <= i < a.len() ==> ascii_lower(#[trigger] a[i]) == ascii_lower(b[i])
}

/// The code of the character, with an ASCII capital taken to its small
/// letter.
fn lower_code(c: char) -> (r: u32)
    ensures
        r == ascii_lower(c),
{
    let u: u32 = c as u32;
    if 0x41 <= u && u <= 0x5A {
        u + 0x20
    } else {
        u
    }
}

/// Whether two texts are equal up to the case of their ASCII letters.
pub fn eq_ignore_ascii_case(a: &[char], b: &[char]) -> (r: bool)
    ensures
        r == same_ignoring_ascii_case(a@, b@),
{
    if a.len() != b.len() {
        return false;
    }
    let mut i: usize = 0;
    while i < a.len()
        invariant
            i <= a.len(),
            a.len() == b.len(),
            forall|j: int| 0 <= j < i ==> ascii_lower(#[trigger] a@[j]) == ascii_lower(b@[j]),
        decreases a.len() - i,
    {
        if lower_code(a[i]) != lower_code(b[i]) {
            return false;
        }
        i += 1;
    }
    true
}

/// A copy of the characters from `from` up to `to`.
pub fn copy_range(chars: &[char], from: usize, to: usize) -> (part: Vec<char>)
    requires
        from <= to <= chars@.len(),
    ensures
        part@ == chars@.subrange(from as int, to as int),
{
    let mut part: Vec<char> = Vec::new();
    let mut i: usize = from;
    while i < to
        invariant
            from <= i <= to <= chars@.len(),
            part@ == chars@.subrange(from as int, i as int),
        decreases to - i,
    {
        part.push(chars[i]);
        i += 1;
    }
    part
}

/// How many characters from `from` on stand before the next line feed, or
/// before the end where no line feed follows.
pub open spec fn line_len(s: Seq<char>, from: int) -> nat
    decreases s.len() - from,
{
    if 0 <= from < s.len() && s[from] != '\n' {
        1 + line_len(s, from + 1)
    } else {
        0
    }
}

/// A line ends at the end of the text at the latest.
pub proof fn lemma_line_len_bound(s: Seq<char>, from: int)
    requires
        0 <= from <= s.len(),
    ensures
        from + line_len(s, from) <= s.len(),
    decreases s.len() - from,
{
    if from < s.len() && s[from] != '\n' {
        lemma_line_len_bound(s, from + 1);
    }
}

/// The line that starts at `from`: the characters up to the next line feed,
/// without a carriage return that stands directly before that line feed.
pub open spec fn line_at(s: Seq<char>, from: int) -> Seq<char> {
    let end = from + line_len(s, from);
    let raw = s.subrange(from, end);
    if end < s.len() && raw.len() > 0 && raw.last() == '\r' {
        raw.drop_last()
    } else {
        raw
    }
}

/// The lines of the text from `from` on.
pub open spec fn lines_from(s: Seq<char>, from: int) -> Seq<Seq<char>>
    decreases s.len() + 1 - from,
{
    if 0 <= from < s.len() {
        proof {
            lemma_line_len_bound(s, from);
        }
        seq![line_at(s, from)] + lines_from(s, from + line_len(s, from) + 1)
    } else {
        Seq::empty()
    }
}

/// The lines of a text. A line ends at a line feed, or at a carriage return
/// directly followed by one; the line ending belongs to no line, and the
/// last line needs none. The empty text has no line.
pub open spec fn lines(s: Seq<char>) -> Seq<Seq<char>> {
    lines_from(s, 0)
}

/// Splits a text into its lines.
pub fn split_lines(chars: &[char]) -> (list: Vec<Vec<char>>)
    ensures
        rows(list) == lines(chars@),
{
    let ghost s = chars@;
    let mut list: Vec<Vec<char>> = Vec::new();
    let mut pos: usize = 0;
    while pos < chars.len()
        invariant
            s == chars@,
            pos <= chars.len(),
            rows(list) + lines_from(s, pos as int) == lines(s),
        decreases chars.len() - pos,
    {
        let mut end: usize = pos;
        while end < chars.len() && chars[end] != '\n'
            invariant
                s == chars@,
                pos <= end <= chars.len(),
                line_len(s, pos as int) == (end - pos) + line_len(s, end as int),
            decreases chars.len() - end,
        {
            end += 1;
        }
        let terminated = end < chars.len();
        let stop: usize = if terminated && end > pos && chars[end - 1] == '\r' {
            end - 1
        } else {
            end
        };
        let line = copy_range(chars, pos, stop);
        proof {
            let raw = s.subrange(pos as int, end as int);
            if stop < end {
                assert(raw.drop_last() =~= s.subrange(pos as int, stop as int));
            }
            assert(rows(list).push(line@) + lines_from(s, end + 1) =~= rows(list) + lines_from(
                s,
                pos as int,
            ));
        }
        list.push(line);
        if terminated {
            pos = end + 1;
        } else {
            pos = end;
        }
    }
    list
}

/// How many characters from `from` on stand before the next white space, or
/// before the end where none follows.
pub open spec fn word_len(s: Seq<char>, from: int) -> nat
    decreases s.len() - from,
{
    if 0 <= from < s.len() && !is_space(s[from]) {
        1 + word_len(s, from + 1)
    } else {
        0
    }
}

/// A word ends at the end of the text at the latest.
pub proof fn lemma_word_len_bound(s: Seq<char>, from: int)
    requires
        0 <= from <= s.len(),
    ensures
        from + word_len(s, from) <= s.len(),
    decreases s.len() - from,
{
    if from < s.len() && !is_space(s[from]) {
        lemma_word_len_bound(s, from + 1);
    }
}

/// The words of the text from `from` on.
pub open spec fn words_from(s: Seq<char>, from: int) -> Seq<Seq<char>>
    decreases s.len() - from,
{
    if 0 <= from < s.len() {
        if is_space(s[from]) {
            words_from(s, from + 1)
        } else {
            proof {
                lemma_word_len_bound(s, from);
            }
            seq![s.subrange(from, from + word_len(s, from))] + words_from(
                s,
                from + word_len(s, from),
            )
        }
    } else {
        Seq::empty()
    }
}

/// The words of a text: its longest runs of characters that are not white
/// space, in order.
pub open spec fn words(s: Seq<char>) -> Seq<Seq<char>> {
    words_from(s, 0)
}

/// Splits a text into its words.
pub fn split_words(chars: &[char]) -> (list: Vec<Vec<char>>)
    ensures
        rows(list) == words(chars@),
{
    let ghost s = chars@;
    let mut list: Vec<Vec<char>> = Vec::new();
    let mut pos: usize = 0;
    while pos < chars.len()
        invariant
            s == chars@,
            pos <= chars.len(),
            rows(list) + words_from(s, pos as int) == words(s),
        decreases chars.len() - pos,
    {
        if is_whitespace(chars[pos]) {
            pos += 1;
        } else {
            let mut end: usize = pos;
            while end < chars.len() && !is_whitespace(chars[end])
                invariant
                    s == chars@,
                    pos <= end <= chars.len(),
                    word_len(s, pos as int) == (end - pos) + word_len(s, end as int),
                decreases chars.len() - end,
            {
                end += 1;
            }
            let word = copy_range(chars, pos, end);
            list.push(word);
            pos = end;
        }
    }
    list
}

/// The parts in order, with the separator between each two neighbours.
pub open spec fn joined(parts: Seq<Seq<char>>, sep: char) -> Seq<char>
    decreases parts.len(),
{
    if parts.len() == 0 {
        Seq::empty()
    } else if parts.len() == 1 {
        parts[0]
    } else {
        joined(parts.drop_last(), sep).push(sep) + parts.last()
    }
}

/// Joins the parts from index `from` on.
pub fn join_from(parts: &Vec<Vec<char>>, from: usize, sep: char) -> (text: Vec<char>)
    requires
        from <= parts.len(),
    ensures
        text@ == joined(rows(*parts).skip(from as int), sep),
{
    let ghost all = rows(*parts);
    let mut text: Vec<char> = Vec::new();
    if from >= parts.len() {
        return text;
    }
    let mut i: usize = from;
    while i < parts.len()
        invariant
            all == rows(*parts),
            from <= i <= parts.len(),
            from < parts.len(),
            text@ == joined(all.subrange(from as int, i as int), sep),
        decreases parts.len() - i,
    {
        let ghost done = all.subrange(from as int, i as int);
        let ghost next = all.subrange(from as int, i + 1);
        assert(next.drop_last() =~= done);
        if i > from {
            text.push(sep);
        }
        let part = &parts[i];
        let ghost base = text@;
        let mut j: usize = 0;
        while j < part.len()
            invariant
                j <= part.len(),
                text@ == base + part@.take(j as int),
            decreases part.len() - j,
        {
            text.push(part[j]);
            j += 1;
        }
        i += 1;
    }
    text
}

/// How many white-space characters stand at `from` and directly after it.
pub open spec fn leading_spaces(s: Seq<char>, from: int) -> nat
    decreases s.len() - from,
{
    if 0 <= from < s.len() && is_space(s[from]) {
        1 + leading_spaces(s, from + 1)
    } else {
        0
    }
}

/// How many white-space characters stand at the end of the text.
pub open spec fn trailing_spaces(s: Seq<char>) -> nat
    decreases s.len(),
{
    if s.len() > 0 && is_space(s.last()) {
        1 + trailing_spaces(s.drop_last())
    } else {
        0
    }
}

/// The text without the white space at its start and at its end.
pub open spec fn trimmed(s: Seq<char>) -> Seq<char> {
    let start = leading_spaces(s, 0) as int;
    if start >= s.len() {
        Seq::empty()
    } else {
        s.subrange(start, s.len() - trailing_spaces(s))
    }
}

/// The text without the white space at its start and at its end.
pub fn trim(chars: &[char]) -> (part: Vec<char>)
    ensures
        part@ == trimmed(chars@),
{
    let ghost s = chars@;
    let mut start: usize = 0;
    while start < chars.len() && is_whitespace(chars[start])
        invariant
            s == chars@,
            start <= chars.len(),
            leading_spaces(s, 0) == start + leading_spaces(s, start as int),
        decreases chars.len() - start,
    {
        start += 1;
    }
    if start >= chars.len() {
        return Vec::new();
    }
    let mut end: usize = chars.len();
    assert(s.take(end as int) =~= s);
    while end > start + 1 && is_whitespace(chars[end - 1])
        invariant
            s == chars@,
            start < end <= chars.len(),
            !is_space(s[start as int]),
            trailing_spaces(s) == (chars.len() - end) + trailing_spaces(s.take(end as int)),
        decreases end,
    {
        assert(s.take(end as int).drop_last() =~= s.take(end - 1));
        end -= 1;
    }
    copy_range(chars, start, end)
}

} // verus!
