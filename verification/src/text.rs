//! Character classes, trimming and comparison of text, and entries under keys that are text.

use vstd::prelude::*;
use vstd::string::*;

verus! {

/// The control characters: general category `Cc` of Unicode.
pub open spec fn is_control(c: char) -> bool {
    c as u32 <= 0x1f || 0x7f <= c as u32 <= 0x9f
}

/// The characters with the `White_Space` property of Unicode.
pub open spec fn is_whitespace(c: char) -> bool {
    ||| 0x9 <= c as u32 <= 0xd
    ||| c as u32 == 0x20
    ||| c as u32 == 0x85
    ||| c as u32 == 0xa0
    ||| c as u32 == 0x1680
    ||| 0x2000 <= c as u32 <= 0x200a
    ||| c as u32 == 0x2028
    ||| c as u32 == 0x2029
    ||| c as u32 == 0x202f
    ||| c as u32 == 0x205f
    ||| c as u32 == 0x3000
}

/// Nothing but white space; the empty text is blank.
pub open spec fn is_blank(text: Seq<char>) -> bool {
    forall|i: int| 0 <= i < text.len() ==> is_whitespace(#[trigger] text[i])
}

/// Some character of the text is a control character.
pub open spec fn has_control(text: Seq<char>) -> bool {
    exists|i: int| 0 <= i < text.len() && is_control(#[trigger] text[i])
}

/// The text without its leading white space.
pub open spec fn trimmed_start(text: Seq<char>) -> Seq<char>
    decreases text.len(),
{
    if text.len() > 0 && is_whitespace(text.first()) {
        trimmed_start(text.drop_first())
    } else {
        text
    }
}

/// The text without its trailing white space.
pub open spec fn trimmed_end(text: Seq<char>) -> Seq<char>
    decreases text.len(),
{
    if text.len() > 0 && is_whitespace(text.last()) {
        trimmed_end(text.drop_last())
    } else {
        text
    }
}

/// The text without the white space at both of its ends.
pub open spec fn trimmed(text: Seq<char>) -> Seq<char> {
    trimmed_end(trimmed_start(text))
}

/// Trimming is idempotent, it leaves nothing exactly when the text is blank, and
/// what it leaves neither starts nor ends with white space.
pub proof fn law_trimmed(text: Seq<char>)
    ensures
        trimmed(trimmed(text)) == trimmed(text),
        trimmed(text).len() == 0 <==> is_blank(text),
        trimmed(text).len() > 0 ==> {
            &&& !is_whitespace(trimmed(text).first())
            &&& !is_whitespace(trimmed(text).last())
        },
{
    lemma_trimmed_start(text);
    lemma_trimmed_end(trimmed_start(text));
}

/// What trimming at the start leaves.
proof fn lemma_trimmed_start(text: Seq<char>)
    ensures
        trimmed_start(text).len() > 0 ==> !is_whitespace(trimmed_start(text).first()),
        is_blank(trimmed_start(text)) <==> is_blank(text),
        is_blank(text) ==> trimmed_start(text).len() == 0,
    decreases text.len(),
{
    if text.len() > 0 && is_whitespace(text.first()) {
        let rest = text.drop_first();
        lemma_trimmed_start(rest);
        assert(is_blank(text) <==> is_blank(rest)) by {
            assert(forall|i: int| 0 <= i < rest.len() ==> rest[i] == text[i + 1]);
            if is_blank(rest) {
                assert forall|i: int| 0 <= i < text.len() implies is_whitespace(
                    #[trigger] text[i],
                ) by {
                    if i > 0 {
                        assert(rest[i - 1] == text[i]);
                    }
                }
            }
        }
    } else if text.len() > 0 {
        assert(!is_whitespace(text[0]));
    }
}

/// What trimming at the end leaves.
proof fn lemma_trimmed_end(text: Seq<char>)
    requires
        text.len() > 0 ==> !is_whitespace(text.first()),
    ensures
        trimmed_end(text).len() > 0 ==> {
            &&& !is_whitespace(trimmed_end(text).first())
            &&& !is_whitespace(trimmed_end(text).last())
        },
        trimmed_end(text).len() == 0 <==> is_blank(text),
    decreases text.len(),
{
    if text.len() > 0 {
        assert(!is_whitespace(text[0]));
        if is_whitespace(text.last()) {
            assert(text.len() > 1);
            assert(text.drop_last().first() == text.first());
            lemma_trimmed_end(text.drop_last());
            assert(text.drop_last()[0] == text[0]);
        }
    }
}

/// Whether `c` is a control character.
pub fn is_control_char(c: char) -> (result: bool)
    ensures
        result == is_control(c),
{
    let code: u32 = c as u32;
    code <= 0x1f || (0x7f <= code && code <= 0x9f)
}

/// Whether `c` is white space.
pub fn is_whitespace_char(c: char) -> (result: bool)
    ensures
        result == is_whitespace(c),
{
    let code: u32 = c as u32;
    (0x9 <= code && code <= 0xd) || code == 0x20 || code == 0x85 || code == 0xa0 || code == 0x1680
        || (0x2000 <= code && code <= 0x200a) || code == 0x2028 || code == 0x2029 || code == 0x202f
        || code == 0x205f || code == 0x3000
}

/// The characters of `text`, one by one.
pub fn chars_of(text: &str) -> (chars: Vec<char>)
    ensures
        chars@ == text@,
{
    let mut chars: Vec<char> = Vec::new();
    for c in iter: text.chars()
        invariant
            chars@ == iter.seq().take(iter.index() as int),
            iter.seq() == text@,
    {
        chars.push(c);
    }
    chars
}

/// Whether `text` holds a control character.
pub fn contains_control(text: &str) -> (result: bool)
    ensures
        result == has_control(text@),
{
    let chars = chars_of(text);
    let mut i: usize = 0;
    while i < chars.len()
        invariant
            chars@ == text@,
            i <= chars.len(),
            forall|j: int| 0 <= j < i ==> !is_control(#[trigger] text@[j]),
        decreases chars.len() - i,
    {
        if is_control_char(chars[i]) {
            assert(is_control(text@[i as int]));
            return true;
        }
        i += 1;
    }
    false
}

/// `text` without the white space at both of its ends.
pub fn trim(text: &str) -> (result: &str)
    ensures
        result@ == trimmed(text@),
{
    let chars = chars_of(text);
    let mut start: usize = 0;
    let mut end: usize = chars.len();
    assert(text@.skip(0) =~= text@);
    while start < end && is_whitespace_char(chars[start])
        invariant
            chars@ == text@,
            start <= end == chars.len(),
            trimmed_start(text@.skip(start as int)) == trimmed_start(text@),
        decreases end - start,
    {
        assert(text@.skip(start as int).drop_first() =~= text@.skip(start + 1));
        start += 1;
    }
    assert(trimmed_start(text@) == text@.skip(start as int));
    assert(text@.skip(start as int) =~= text@.subrange(start as int, end as int));
    while start < end && is_whitespace_char(chars[end - 1])
        invariant
            chars@ == text@,
            start <= end <= chars.len(),
            trimmed_end(text@.subrange(start as int, end as int)) == trimmed(text@),
        decreases end - start,
    {
        assert(text@.subrange(start as int, end as int).drop_last() =~= text@.subrange(
            start as int,
            end - 1,
        ));
        end -= 1;
    }
    text.substring_char(start, end)
}

/// Whether the two texts hold the same characters.
pub fn same_text(left: &str, right: &str) -> (result: bool)
    ensures
        result == (left@ == right@),
{
    left.to_owned() == right.to_owned()
}

/// The place of the last entry under `key`.
pub open spec fn last_entry<T>(entries: Seq<(String, T)>, key: Seq<char>) -> Option<int>
    decreases entries.len(),
{
    if entries.len() == 0 {
        None
    } else if entries.last().0@ == key {
        Some(entries.len() - 1)
    } else {
        last_entry(entries.drop_last(), key)
    }
}

/// The last entry is one of the entries.
pub proof fn lemma_last_entry<T>(entries: Seq<(String, T)>, key: Seq<char>)
    ensures
        last_entry(entries, key) matches Some(i) ==> 0 <= i < entries.len(),
    decreases entries.len(),
{
    if entries.len() > 0 {
        lemma_last_entry(entries.drop_last(), key);
    }
}

/// Finds the last entry under `key`.
pub fn find_last_entry<T>(entries: &Vec<(String, T)>, key: &str) -> (found: Option<usize>)
    ensures
        match found {
            Some(i) => i < entries.len() && last_entry(entries@, key@) == Some(i as int),
            None => last_entry(entries@, key@) is None,
        },
{
    let mut i: usize = entries.len();
    assert(entries@.take(i as int) =~= entries@);
    while i > 0
        invariant
            i <= entries.len(),
            last_entry(entries@.take(i as int), key@) == last_entry(entries@, key@),
        decreases i,
    {
        i -= 1;
        assert(entries@.take(i + 1).drop_last() =~= entries@.take(i as int));
        if same_text(entries[i].0.as_str(), key) {
            return Some(i);
        }
    }
    None
}

/// The characters of each string.
pub open spec fn texts(strings: Seq<String>) -> Seq<Seq<char>> {
    strings.map_values(|string: String| string@)
}

/// The characters of each name.
pub open spec fn names(strings: Seq<&'static str>) -> Seq<Seq<char>> {
    strings.map_values(|string: &'static str| string@)
}

/// What trimming at the start takes off: how many characters.
proof fn lemma_taken_off_start(text: Seq<char>) -> (start: int)
    ensures
        0 <= start <= text.len(),
        trimmed_start(text) == text.skip(start),
        forall|i: int| 0 <= i < start ==> is_whitespace(#[trigger] text[i]),
    decreases text.len(),
{
    if text.len() > 0 && is_whitespace(text.first()) {
        let rest = text.drop_first();
        let start = lemma_taken_off_start(rest);
        assert(rest.skip(start) =~= text.skip(start + 1));
        assert forall|i: int| 0 <= i < start + 1 implies is_whitespace(#[trigger] text[i]) by {
            if i > 0 {
                assert(rest[i - 1] == text[i]);
            }
        }
        start + 1
    } else {
        assert(text.skip(0) =~= text);
        0
    }
}

/// What trimming at the end leaves: how many characters.
proof fn lemma_left_at_end(text: Seq<char>) -> (end: int)
    ensures
        0 <= end <= text.len(),
        trimmed_end(text) == text.take(end),
        forall|i: int| end <= i < text.len() ==> is_whitespace(#[trigger] text[i]),
    decreases text.len(),
{
    if text.len() > 0 && is_whitespace(text.last()) {
        let end = lemma_left_at_end(text.drop_last());
        assert(text.drop_last().take(end) =~= text.take(end));
        assert forall|i: int| end <= i < text.len() implies is_whitespace(#[trigger] text[i]) by {
            if i < text.len() - 1 {
                assert(text.drop_last()[i] == text[i]);
            }
        }
        end
    } else {
        assert(text.take(text.len() as int) =~= text);
        text.len() as int
    }
}

/// The text from `start` to `end` is what is left of a text without the white space around it.
pub open spec fn is_middle(text: Seq<char>, start: int, end: int) -> bool {
    &&& 0 <= start <= end <= text.len()
    &&& forall|i: int| 0 <= i < start ==> is_whitespace(#[trigger] text[i])
    &&& forall|i: int| end <= i < text.len() ==> is_whitespace(#[trigger] text[i])
    &&& start < end ==> !is_whitespace(text[start]) && !is_whitespace(text[end - 1])
}

/// A trimmed text is the part of the text that neither starts nor ends with white space, with
/// nothing but white space around it.
pub proof fn law_trimming_keeps_the_middle(text: Seq<char>)
    ensures
        exists|start: int, end: int|
            is_middle(text, start, end) && trimmed(text) == #[trigger] text.subrange(start, end),
{
    let start = lemma_taken_off_start(text);
    let rest = text.skip(start);
    let left = lemma_left_at_end(rest);
    assert forall|i: int| start + left <= i < text.len() implies is_whitespace(
        #[trigger] text[i],
    ) by {
        assert(rest[i - start] == text[i]);
    }
    law_trimmed(text);
    assert(rest.take(left) =~= text.subrange(start, start + left));
    assert(is_middle(text, start, start + left));
}

/// No other part of a text is what trimming leaves: the middle of a text is the trimmed text.
pub proof fn law_the_middle_is_trimmed(text: Seq<char>, start: int, end: int)
    requires
        is_middle(text, start, end),
    ensures
        trimmed(text) == text.subrange(start, end),
{
    law_trimming_keeps_the_middle(text);
    let (s, e) = choose|s: int, e: int|
        is_middle(text, s, e) && trimmed(text) == #[trigger] text.subrange(s, e);
    if s == e && start < end {
        if start < s {
            assert(is_whitespace(text[start]));
        } else {
            assert(is_whitespace(text[start]));
        }
    }
    if start == end && s < e {
        assert(is_whitespace(text[s]));
    }
    if s < e && start < end {
        assert(s == start) by {
            if s < start {
                assert(is_whitespace(text[s]));
            }
            if start < s {
                assert(is_whitespace(text[start]));
            }
        }
        assert(e == end) by {
            if e < end {
                assert(is_whitespace(text[end - 1]));
            }
            if end < e {
                assert(is_whitespace(text[e - 1]));
            }
        }
    }
    assert(text.subrange(s, e) =~= text.subrange(start, end));
}

/// A text is blank exactly where each of its characters is white space, and holds a control
/// character exactly where one of them is such a character.
pub proof fn law_classes_of_texts(text: Seq<char>)
    ensures
        is_blank(text) <==> !(exists|i: int|
            0 <= i < text.len() && !is_whitespace(#[trigger] text[i])),
        has_control(text) <==> !(forall|i: int|
            0 <= i < text.len() ==> !is_control(#[trigger] text[i])),
        text.len() == 0 ==> is_blank(text) && !has_control(text),
{
}

/// Trimming a string gives its middle.
pub proof fn law_trim(text: &str, result: &str)
    requires
        call_ensures(trim, (text,), result),
    ensures
        exists|start: int, end: int|
            is_middle(text@, start, end) && result@ == #[trigger] text@.subrange(start, end),
{
    law_trimming_keeps_the_middle(text@);
}

/// A control character is found exactly where the string holds one.
pub proof fn law_contains_control(text: &str, result: bool)
    requires
        call_ensures(contains_control, (text,), result),
    ensures
        result <==> exists|i: int| 0 <= i < text@.len() && is_control(#[trigger] text@[i]),
{
}

/// The characters of strings are listed one for one, in the order of the strings.
pub proof fn law_lists_of_texts(strings: Seq<String>, literals: Seq<&'static str>)
    ensures
        texts(strings).len() == strings.len(),
        forall|i: int| 0 <= i < strings.len() ==> #[trigger] texts(strings)[i] == strings[i]@,
        names(literals).len() == literals.len(),
        forall|i: int| 0 <= i < literals.len() ==> #[trigger] names(literals)[i] == literals[i]@,
{
}

/// The last entry under a key has that key and no later entry has it; without one, no entry has
/// the key.
pub proof fn law_last_entry<T>(entries: Seq<(String, T)>, key: Seq<char>)
    ensures
        match last_entry(entries, key) {
            Some(i) => {
                &&& 0 <= i < entries.len()
                &&& entries[i].0@ == key
                &&& forall|j: int| i < j < entries.len() ==> (#[trigger] entries[j]).0@ != key
            },
            None => forall|j: int| 0 <= j < entries.len() ==> (#[trigger] entries[j]).0@ != key,
        },
    decreases entries.len(),
{
    if entries.len() > 0 && entries.last().0@ != key {
        let front = entries.drop_last();
        law_last_entry(front, key);
        let low = match last_entry(front, key) {
            Some(i) => i,
            None => -1,
        };
        assert forall|j: int| low < j < entries.len() implies (#[trigger] entries[j]).0@
            != key by {
            if j < front.len() {
                assert(front[j] == entries[j]);
            }
        }
    }
}

} // verus!
