//! Cleaning of text content: NUL characters are dropped, runs of whitespace
//! collapse to one space, figure and table labels are removed, and the
//! result is trimmed.

use vstd::prelude::*;

verus! {

/// The characters that carry the Unicode property `White_Space`.
pub open spec fn spec_is_whitespace(c: char) -> bool {
    let n = c as u32;
    ||| 0x09 <= n <= 0x0D
    ||| n == 0x20
    ||| n == 0x85
    ||| n == 0xA0
    ||| n == 0x1680
    ||| 0x2000 <= n <= 0x200A
    ||| n == 0x2028
    ||| n == 0x2029
    ||| n == 0x202F
    ||| n == 0x205F
    ||| n == 0x3000
}

/// The ASCII decimal digits.
pub open spec fn spec_is_digit(c: char) -> bool {
    '0' <= c && c <= '9'
}

/// `c` with an ASCII capital letter mapped to its small letter.
pub open spec fn spec_to_ascii_lowercase(c: char) -> char {
    if 'A' <= c && c <= 'Z' {
        ((c as u32) + 32) as char
    } else {
        c
    }
}

/// Tests whether `c` is whitespace.
pub fn is_whitespace(c: char) -> (b: bool)
    ensures
        b == spec_is_whitespace(c),
{
    let n: u32 = c as u32;
    (0x09 <= n && n <= 0x0D) || n == 0x20 || n == 0x85 || n == 0xA0 || n == 0x1680 || (0x2000 <= n
        && n <= 0x200A) || n == 0x2028 || n == 0x2029 || n == 0x202F || n == 0x205F || n == 0x3000
}

/// Tests whether `c` is an ASCII decimal digit.
pub fn is_digit(c: char) -> (b: bool)
    ensures
        b == spec_is_digit(c),
{
    '0' <= c && c <= '9'
}

/// `String::push` appends one character at the end of the string and leaves
/// what was there before in place.
pub assume_specification[ String::push ](s: &mut String, c: char)
    ensures
        final(s)@ == old(s)@.push(c),
;

/// The characters of `s`, in order.
pub fn to_chars(s: &str) -> (v: Vec<char>)
    ensures
        v@ == s@,
{
    let mut v: Vec<char> = Vec::new();
    for c in it: s.chars()
        invariant
            it.seq() == s@,
            v@ == s@.take(it.index()),
    {
        assert(s@.take(it.index() + 1) == s@.take(it.index()).push(c));
        v.push(c);
    }
    assert(s@.take(s@.len() as int) == s@);
    v
}

/// `s` without its NUL characters.
pub open spec fn spec_strip_nul(s: Seq<char>) -> Seq<char>
    decreases s.len(),
{
    if s.len() == 0 {
        s
    } else if s.last() == '\0' {
        spec_strip_nul(s.drop_last())
    } else {
        spec_strip_nul(s.drop_last()).push(s.last())
    }
}

/// `s` with every maximal run of whitespace replaced by one space.
pub open spec fn spec_collapse_whitespace(s: Seq<char>) -> Seq<char>
    decreases s.len(),
{
    if s.len() == 0 {
        s
    } else if !spec_is_whitespace(s.last()) {
        spec_collapse_whitespace(s.drop_last()).push(s.last())
    } else if s.len() >= 2 && spec_is_whitespace(s[s.len() - 2]) {
        spec_collapse_whitespace(s.drop_last())
    } else {
        spec_collapse_whitespace(s.drop_last()).push(' ')
    }
}

/// How many whitespace characters stand in a row in `s` from index `from` on.
pub open spec fn spec_whitespace_run(s: Seq<char>, from: int) -> nat
    decreases s.len() - from,
{
    if 0 <= from < s.len() && spec_is_whitespace(s[from]) {
        1 + spec_whitespace_run(s, from + 1)
    } else {
        0
    }
}

/// How many ASCII digits stand in a row in `s` from index `from` on.
pub open spec fn spec_digit_run(s: Seq<char>, from: int) -> nat
    decreases s.len() - from,
{
    if 0 <= from < s.len() && spec_is_digit(s[from]) {
        1 + spec_digit_run(s, from + 1)
    } else {
        0
    }
}

/// `s` with each character mapped by `spec_to_ascii_lowercase`.
pub open spec fn spec_lowercase(s: Seq<char>) -> Seq<char> {
    s.map_values(|c: char| spec_to_ascii_lowercase(c))
}

/// Whether `word` stands in `s` at index `i`, capital ASCII letters of `s`
/// counting as their small letters.
pub open spec fn spec_has_keyword(s: Seq<char>, i: int, word: Seq<char>) -> bool {
    &&& 0 <= i <= s.len()
    &&& word.is_prefix_of(spec_lowercase(s.skip(i)))
}

/// The word that opens the label of a figure.
pub open spec fn spec_figure() -> Seq<char> {
    seq!['f', 'i', 'g', 'u', 'r', 'e']
}

/// The word that opens the label of a table.
pub open spec fn spec_table() -> Seq<char> {
    seq!['t', 'a', 'b', 'l', 'e']
}

/// The index just behind the keyword that stands in `s` at `i`, if one does.
pub open spec fn spec_keyword_end(s: Seq<char>, i: int) -> Option<int> {
    if spec_has_keyword(s, i, spec_figure()) {
        Some(i + 6)
    } else if spec_has_keyword(s, i, spec_table()) {
        Some(i + 5)
    } else {
        None
    }
}

/// The index just behind the label that starts in `s` at `i`, if one does. A
/// label is the word `figure` or `table` in any mix of cases, then at least
/// one whitespace character, then at least one ASCII digit, then a full stop.
pub open spec fn spec_try_remove_label(s: Seq<char>, i: int) -> Option<int> {
    match spec_keyword_end(s, i) {
        None => None,
        Some(a) => {
            let b = a + spec_whitespace_run(s, a);
            let d = b + spec_digit_run(s, b);
            if b > a && d > b && d < s.len() && s[d] == '.' {
                Some(d + 1)
            } else {
                None
            }
        },
    }
}

/// What is left of `s` from index `i` on when each label met on the way from
/// left to right is taken out.
pub open spec fn spec_remove_label_from(s: Seq<char>, i: int) -> Seq<char>
    decreases s.len() - i,
{
    if i < 0 || i >= s.len() {
        Seq::empty()
    } else {
        match spec_try_remove_label(s, i) {
            Some(n) => spec_remove_label_from(s, n),
            None => seq![s[i]] + spec_remove_label_from(s, i + 1),
        }
    }
}

/// `s` without its labels.
pub open spec fn spec_remove_label(s: Seq<char>) -> Seq<char> {
    spec_remove_label_from(s, 0)
}

/// `s` without its trailing whitespace.
pub open spec fn spec_trim_end(s: Seq<char>) -> Seq<char>
    decreases s.len(),
{
    if s.len() > 0 && spec_is_whitespace(s.last()) {
        spec_trim_end(s.drop_last())
    } else {
        s
    }
}

/// `s` without its leading whitespace.
pub open spec fn spec_trim_start(s: Seq<char>) -> Seq<char> {
    s.skip(spec_whitespace_run(s, 0) as int)
}

/// `s` without its leading and trailing whitespace.
pub open spec fn spec_trim(s: Seq<char>) -> Seq<char> {
    spec_trim_end(spec_trim_start(s))
}

/// The cleaned form of `s`.
pub open spec fn spec_clean_content(s: Seq<char>) -> Seq<char> {
    spec_trim(spec_remove_label(spec_collapse_whitespace(spec_strip_nul(s))))
}

/// Removes the NUL characters of `s`.
pub fn strip_nul(s: &str) -> (out: String)
    ensures
        out@ == spec_strip_nul(s@),
{
    let mut out = String::new();
    for c in it: s.chars()
        invariant
            it.seq() == s@,
            out@ == spec_strip_nul(s@.take(it.index())),
    {
        assert(s@.take(it.index() + 1).drop_last() == s@.take(it.index()));
        if c != '\0' {
            out.push(c);
        }
    }
    assert(s@.take(s@.len() as int) == s@);
    out
}

/// Replaces every run of whitespace in `s` by one space.
pub fn collapse_whitespace(s: &str) -> (out: String)
    ensures
        out@ == spec_collapse_whitespace(s@),
{
    let mut out = String::new();
    let mut prev_was_whitespace = false;
    for c in it: s.chars()
        invariant
            it.seq() == s@,
            out@ == spec_collapse_whitespace(s@.take(it.index())),
            prev_was_whitespace <==> it.index() > 0 && spec_is_whitespace(s@[it.index() - 1]),
    {
        assert(s@.take(it.index() + 1).drop_last() == s@.take(it.index()));
        if is_whitespace(c) {
            if !prev_was_whitespace {
                out.push(' ');
                prev_was_whitespace = true;
            }
        } else {
            out.push(c);
            prev_was_whitespace = false;
        }
    }
    assert(s@.take(s@.len() as int) == s@);
    out
}

/// Tests whether `c` is `w` once an ASCII capital letter is mapped to its
/// small letter.
pub fn is_lowercase_of(c: char, w: char) -> (b: bool)
    ensures
        b == (spec_to_ascii_lowercase(c) == w),
{
    if 'A' <= c && c <= 'Z' {
        c as u32 + 32 == w as u32
    } else {
        c == w
    }
}

/// Tests whether `word` stands in `s` at index `i`, without regard to the
/// case of ASCII letters in `s`.
pub fn has_keyword(s: &[char], i: usize, word: &[char]) -> (b: bool)
    ensures
        b == spec_has_keyword(s@, i as int, word@),
        b ==> i + word@.len() <= s@.len(),
{
    let len: usize = s.len();
    if i > len || word.len() > len - i {
        return false;
    }
    let ghost rest = spec_lowercase(s@.skip(i as int));
    let mut j: usize = 0;
    while j < word.len()
        invariant
            len == s@.len(),
            i + word@.len() <= len,
            j <= word@.len(),
            rest == spec_lowercase(s@.skip(i as int)),
            forall|k: int| 0 <= k < j ==> rest[k] == word@[k],
        decreases word@.len() - j,
    {
        if !is_lowercase_of(s[i + j], word[j]) {
            assert(rest[j as int] != word@[j as int]);
            return false;
        }
        j += 1;
    }
    assert(word@ =~= rest.subrange(0, word@.len() as int));
    true
}

/// Looks for a label that starts in `s` at index `i` and returns the index
/// just behind it.
pub fn try_remove_label(s: &[char], i: usize) -> (next: Option<usize>)
    ensures
        match spec_try_remove_label(s@, i as int) {
            Some(n) => next == Some(n as usize) && i < n <= s@.len(),
            None => next is None,
        },
{
    let figure = vec!['f', 'i', 'g', 'u', 'r', 'e'];
    let table = vec!['t', 'a', 'b', 'l', 'e'];
    assert(figure@ =~= spec_figure());
    assert(table@ =~= spec_table());
    let len: usize = s.len();
    let after: usize = if has_keyword(s, i, figure.as_slice()) {
        i + 6
    } else if has_keyword(s, i, table.as_slice()) {
        i + 5
    } else {
        return None;
    };
    assert(spec_keyword_end(s@, i as int) == Some(after as int));
    let mut next_idx: usize = after;
    while next_idx < s.len() && is_whitespace(s[next_idx])
        invariant
            after <= next_idx <= s@.len(),
            next_idx + spec_whitespace_run(s@, next_idx as int) == after + spec_whitespace_run(
                s@,
                after as int,
            ),
        decreases s@.len() - next_idx,
    {
        next_idx += 1;
    }
    if next_idx == after {
        return None;
    }
    let start_digits: usize = next_idx;
    while next_idx < s.len() && is_digit(s[next_idx])
        invariant
            start_digits <= next_idx <= s@.len(),
            next_idx + spec_digit_run(s@, next_idx as int) == start_digits + spec_digit_run(
                s@,
                start_digits as int,
            ),
        decreases s@.len() - next_idx,
    {
        next_idx += 1;
    }
    if next_idx == start_digits {
        return None;
    }
    if next_idx < s.len() && s[next_idx] == '.' {
        Some(next_idx + 1)
    } else {
        None
    }
}

/// Removes the labels of `s`.
pub fn remove_label(s: &str) -> (out: String)
    ensures
        out@ == spec_remove_label(s@),
{
    let chars = to_chars(s);
    let mut out = String::new();
    let mut i: usize = 0;
    while i < chars.len()
        invariant
            chars@ == s@,
            i <= chars@.len(),
            out@ + spec_remove_label_from(s@, i as int) == spec_remove_label(s@),
        decreases chars@.len() - i,
    {
        match try_remove_label(chars.as_slice(), i) {
            Some(next_idx) => {
                i = next_idx;
            },
            None => {
                let ch = chars[i];
                assert(out@.push(ch) + spec_remove_label_from(s@, i + 1) == out@
                    + spec_remove_label_from(s@, i as int));
                out.push(ch);
                i += 1;
            },
        }
    }
    assert(out@ + Seq::<char>::empty() == out@);
    out
}

/// Removes the leading and trailing whitespace of `s`.
pub fn trim(s: &str) -> (out: String)
    ensures
        out@ == spec_trim(s@),
{
    let chars = to_chars(s);
    let mut start: usize = 0;
    while start < chars.len() && is_whitespace(chars[start])
        invariant
            chars@ == s@,
            start <= chars@.len(),
            start + spec_whitespace_run(s@, start as int) == spec_whitespace_run(s@, 0),
        decreases chars@.len() - start,
    {
        start += 1;
    }
    let mut end: usize = chars.len();
    while end > start && is_whitespace(chars[end - 1])
        invariant
            chars@ == s@,
            start <= end <= chars@.len(),
            spec_trim_end(s@.subrange(start as int, end as int)) == spec_trim(s@),
        decreases end,
    {
        assert(s@.subrange(start as int, end as int).drop_last() == s@.subrange(
            start as int,
            end - 1,
        ));
        end -= 1;
    }
    let mut out = String::new();
    let mut i: usize = start;
    while i < end
        invariant
            chars@ == s@,
            start <= i <= end <= chars@.len(),
            out@ == s@.subrange(start as int, i as int),
        decreases end - i,
    {
        out.push(chars[i]);
        i += 1;
    }
    out
}

/// Cleans `content`: drops its NUL characters, collapses each run of
/// whitespace to one space, removes figure and table labels, and trims the
/// result.
pub fn clean_content(content: &str) -> (out: String)
    ensures
        out@ == spec_clean_content(content@),
{
    let without_nul = strip_nul(content);
    let collapsed = collapse_whitespace(without_nul.as_str());
    let unlabelled = remove_label(collapsed.as_str());
    trim(unlabelled.as_str())
}

} // verus!
