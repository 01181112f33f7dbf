//! Small text tools over sequences of characters: blanks, runs and trimming.

use vstd::prelude::*;
use vstd::string::StrSliceExecFns;

verus! {

/// The text of a string that may be missing.
pub open spec fn option_text(value: Option<String>) -> Option<Seq<char>> {
    match value {
        Some(value) => Some(value@),
        None => None,
    }
}

/// The lower-case form of `text` as `str::to_lowercase` gives it.
pub uninterp spec fn lowercase_of(text: Seq<char>) -> Seq<char>;

/// Calls `str::to_lowercase`. Nothing is proved of the result: the
/// contract only gives it the name [`lowercase_of`].
#[verifier::external_body]
pub(crate) fn to_lowercase(text: &str) -> (lower: String)
    ensures
        lower@ == lowercase_of(text@),
{
    text.to_lowercase()
}

/// Whether `c` is white space: one of the characters that Unicode gives
/// the property `White_Space`.
pub open spec fn is_whitespace(c: char) -> bool {
    ||| ('\u{0009}' <= c && c <= '\u{000D}')
    ||| c == '\u{0020}'
    ||| c == '\u{0085}'
    ||| c == '\u{00A0}'
    ||| c == '\u{1680}'
    ||| ('\u{2000}' <= c && c <= '\u{200A}')
    ||| c == '\u{2028}'
    ||| c == '\u{2029}'
    ||| c == '\u{202F}'
    ||| c == '\u{205F}'
    ||| c == '\u{3000}'
}

/// The end of the run that starts at `from`: the first position at or
/// after `from` whose character is white space unlike `blank` says, or
/// the length of `s` where the run reaches the end.
pub open spec fn run_end(s: Seq<char>, from: int, blank: bool) -> int
    decreases s.len() - from,
{
    if 0 <= from < s.len() && is_whitespace(s[from]) == blank {
        run_end(s, from + 1, blank)
    } else {
        from
    }
}

/// The length of `s` without the white space at its end.
pub open spec fn trimmed_len(s: Seq<char>) -> int
    decreases s.len(),
{
    if s.len() > 0 && is_whitespace(s.last()) {
        trimmed_len(s.drop_last())
    } else {
        s.len() as int
    }
}

/// `s` without the white space at its start and at its end.
pub open spec fn trimmed(s: Seq<char>) -> Seq<char> {
    let start = run_end(s, 0, true);
    let end = trimmed_len(s);
    if start < end {
        s.subrange(start, end)
    } else {
        Seq::empty()
    }
}

/// The end of the line that starts at `from`: the position of the first
/// line feed at or after `from`, or the length of `s` where none follows.
pub open spec fn line_end(s: Seq<char>, from: int) -> int
    decreases s.len() - from,
{
    if 0 <= from < s.len() && s[from] != '\n' {
        line_end(s, from + 1)
    } else {
        from
    }
}

/// The second of the words of `line`, where words are the runs of
/// characters other than white space; `None` where `line` has fewer than
/// two words.
pub open spec fn second_word(line: Seq<char>) -> Option<Seq<char>> {
    let first_start = run_end(line, 0, true);
    let first_end = run_end(line, first_start, false);
    let second_start = run_end(line, first_end, true);
    let second_end = run_end(line, second_start, false);
    if second_start < second_end {
        Some(line.subrange(second_start, second_end))
    } else {
        None
    }
}

/// A run ends between its start and the end of the text, every character
/// in it is of the run's kind, and the one after it is not.
pub proof fn lemma_run_end(s: Seq<char>, from: int, blank: bool)
    requires
        0 <= from <= s.len(),
    ensures
        from <= run_end(s, from, blank) <= s.len(),
        forall|i: int| from <= i < run_end(s, from, blank) ==> is_whitespace(s[i]) == blank,
        run_end(s, from, blank) < s.len() ==> is_whitespace(s[run_end(s, from, blank)]) != blank,
    decreases s.len() - from,
{
    if from < s.len() && is_whitespace(s[from]) == blank {
        lemma_run_end(s, from + 1, blank);
    }
}

/// A line ends between its start and the end of the text, at a line feed
/// unless the text ends first, and holds no line feed.
pub proof fn lemma_line_end(s: Seq<char>, from: int)
    requires
        0 <= from <= s.len(),
    ensures
        from <= line_end(s, from) <= s.len(),
        forall|i: int| from <= i < line_end(s, from) ==> s[i] != '\n',
        line_end(s, from) < s.len() ==> s[line_end(s, from)] == '\n',
    decreases s.len() - from,
{
    if from < s.len() && s[from] != '\n' {
        lemma_line_end(s, from + 1);
    }
}

/// The trailing white space of a text is all white space, and the
/// character before it is not.
pub proof fn lemma_trimmed_len(s: Seq<char>)
    ensures
        0 <= trimmed_len(s) <= s.len(),
        forall|i: int| trimmed_len(s) <= i < s.len() ==> is_whitespace(s[i]),
        trimmed_len(s) > 0 ==> !is_whitespace(s[trimmed_len(s) - 1]),
    decreases s.len(),
{
    if s.len() > 0 && is_whitespace(s.last()) {
        let front = s.drop_last();
        lemma_trimmed_len(front);
        assert forall|i: int| trimmed_len(s) <= i < s.len() implies is_whitespace(s[i]) by {
            if i < front.len() {
                assert(front[i] == s[i]);
            }
        }
        if trimmed_len(s) > 0 {
            assert(front[trimmed_len(s) - 1] == s[trimmed_len(s) - 1]);
        }
    }
}

/// A trimmed text neither begins nor ends with white space and is no
/// longer than the text it came from; a text of white space alone trims
/// to the empty text.
pub proof fn lemma_trimmed_has_no_margin(s: Seq<char>)
    ensures
        trimmed(s).len() > 0 ==> !is_whitespace(trimmed(s)[0]) && !is_whitespace(trimmed(s).last()),
        trimmed(s).len() <= s.len(),
        (forall|i: int| 0 <= i < s.len() ==> is_whitespace(s[i])) ==> trimmed(s).len() == 0,
{
    lemma_run_end(s, 0, true);
    lemma_trimmed_len(s);
}

/// Whether `c` is white space.
pub fn is_blank(c: char) -> (blank: bool)
    ensures
        blank == is_whitespace(c),
{
    ('\u{0009}' <= c && c <= '\u{000D}') || c == '\u{0020}' || c == '\u{0085}' || c == '\u{00A0}'
        || c == '\u{1680}' || ('\u{2000}' <= c && c <= '\u{200A}') || c == '\u{2028}' || c
        == '\u{2029}' || c == '\u{202F}' || c == '\u{205F}' || c == '\u{3000}'
}

/// The characters of `s`, one by one.
pub fn chars_of(s: &str) -> (chars: Vec<char>)
    ensures
        chars@ == s@,
{
    let mut chars: Vec<char> = Vec::new();
    for c in it: s.chars()
        invariant
            chars@ == it.seq().take(it.index() as int),
            it.seq() == s@,
    {
        chars.push(c);
    }
    chars
}

/// The end of the run of blanks (`blank`) or of other characters that
/// starts at `from`.
pub fn scan_run(chars: &Vec<char>, from: usize, blank: bool) -> (end: usize)
    ensures
        end == run_end(chars@, from as int, blank),
        from <= end,
        from <= chars@.len() ==> end <= chars@.len(),
{
    let mut end = from;
    while end < chars.len() && is_blank(chars[end]) == blank
        invariant
            from <= end,
            from <= chars@.len() ==> end <= chars@.len(),
            run_end(chars@, from as int, blank) == run_end(chars@, end as int, blank),
        decreases chars@.len() - end,
    {
        end += 1;
    }
    end
}

/// `input` without the white space at its start and at its end.
pub fn trim(input: &str) -> (text: String)
    ensures
        text@ == trimmed(input@),
{
    let chars = chars_of(input);
    let start = scan_run(&chars, 0, true);
    let mut end = chars.len();
    assert(chars@.take(end as int) =~= chars@);
    while end > 0 && is_blank(chars[end - 1])
        invariant
            end <= chars@.len(),
            trimmed_len(chars@) == trimmed_len(chars@.take(end as int)),
        decreases end,
    {
        assert(chars@.take(end as int).drop_last() =~= chars@.take(end - 1));
        end -= 1;
    }
    proof {
        let rest = chars@.take(end as int);
        assert(trimmed_len(rest) == end) by {
            if end > 0 {
                assert(rest.last() == chars@[end - 1]);
            }
        }
    }
    if start < end {
        input.substring_char(start, end).to_owned()
    } else {
        let text = String::new();
        assert(text@ =~= Seq::<char>::empty());
        text
    }
}

/// The end of the line that starts at `from`.
pub fn find_line_end(chars: &Vec<char>, from: usize) -> (end: usize)
    ensures
        end == line_end(chars@, from as int),
        from <= end,
        from <= chars@.len() ==> end <= chars@.len(),
        end < chars@.len() ==> chars@[end as int] == '\n',
        forall|i: int| from <= i < end ==> chars@[i] != '\n',
{
    let mut end = from;
    while end < chars.len() && chars[end] != '\n'
        invariant
            from <= end,
            from <= chars@.len() ==> end <= chars@.len(),
            line_end(chars@, from as int) == line_end(chars@, end as int),
            forall|i: int| from <= i < end ==> chars@[i] != '\n',
        decreases chars@.len() - end,
    {
        end += 1;
    }
    end
}

/// Whether `chars` begins with `key`.
pub fn starts_with(chars: &Vec<char>, key: &Vec<char>) -> (found: bool)
    ensures
        found == key@.is_prefix_of(chars@),
{
    if key.len() > chars.len() {
        return false;
    }
    let mut i: usize = 0;
    while i < key.len()
        invariant
            i <= key@.len() <= chars@.len(),
            forall|j: int| 0 <= j < i ==> key@[j] == chars@[j],
        decreases key@.len() - i,
    {
        if key[i] != chars[i] {
            assert(chars@.subrange(0, key@.len() as int)[i as int] != key@[i as int]);
            return false;
        }
        i += 1;
    }
    assert(key@ =~= chars@.subrange(0, key@.len() as int));
    true
}

/// The second word of `line`, if it has two.
pub fn find_second_word(line: &str) -> (word: Option<String>)
    ensures
        option_text(word) == second_word(line@),
{
    let chars = chars_of(line);
    let first_start = scan_run(&chars, 0, true);
    let first_end = scan_run(&chars, first_start, false);
    let second_start = scan_run(&chars, first_end, true);
    let second_end = scan_run(&chars, second_start, false);
    if second_start < second_end {
        Some(line.substring_char(second_start, second_end).to_owned())
    } else {
        None
    }
}

} // verus!
