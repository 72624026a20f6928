//! Character-level string helpers.
//!
//! Everything here is stated over `Seq<char>`, the view of a Rust string, so
//! no operation can ever cut through the middle of a multi-byte character.

use vstd::prelude::*;
use vstd::string::*;

verus! {

/// The marker appended to a text that was cut short.
pub open spec fn ellipsis() -> Seq<char> {
    seq!['.', '.', '.']
}

/// What `truncate_string` yields: the text itself when it has at most
/// `max_chars` characters, otherwise its first `max_chars - 3` characters
/// (none when `max_chars < 3`) followed by the ellipsis marker.
pub open spec fn truncated(s: Seq<char>, max_chars: int) -> Seq<char> {
    if s.len() <= max_chars {
        s
    } else if max_chars >= 3 {
        s.subrange(0, max_chars - 3) + ellipsis()
    } else {
        ellipsis()
    }
}

/// Shortens `s` to a character budget, counting characters rather than
/// bytes. With a budget of three or more the result never exceeds it.
pub fn truncate_string(s: &str, max_chars: usize) -> (out: String)
    ensures
        out@ == truncated(s@, max_chars as int),
        s@.len() <= max_chars ==> out@ == s@,
        max_chars >= 3 ==> out@.len() <= max_chars,
{
    proof {
        if max_chars >= 3 {
            lemma_truncated_fits(s@, max_chars as int);
        }
    }
    let n: usize = s.unicode_len();
    if n <= max_chars {
        String::from_str(s)
    } else {
        let keep: usize = if max_chars >= 3 {
            max_chars - 3
        } else {
            0
        };
        let head = s.substring_char(0, keep);
        let mut out = String::from_str(head);
        out.append("...");
        proof {
            reveal_strlit("...");
            assert("..."@ =~= ellipsis());
            assert(s@.subrange(0, 0) + ellipsis() =~= ellipsis());
        }
        out
    }
}

/// A truncated text fits the budget whenever the budget leaves room for the
/// marker, is the text itself when that already fits, and otherwise is a
/// prefix of the text's characters followed by the marker.
pub proof fn lemma_truncated_fits(s: Seq<char>, max_chars: int)
    requires
        max_chars >= 3,
    ensures
        truncated(s, max_chars).len() <= max_chars,
        s.len() <= max_chars ==> truncated(s, max_chars) == s,
        s.len() > max_chars ==> {
            &&& truncated(s, max_chars).len() == max_chars
            &&& truncated(s, max_chars).subrange(0, max_chars - 3) == s.subrange(0, max_chars - 3)
            &&& truncated(s, max_chars).subrange(max_chars - 3, max_chars) == ellipsis()
        },
{
    if s.len() > max_chars {
        let t = truncated(s, max_chars);
        assert(t.subrange(0, max_chars - 3) =~= s.subrange(0, max_chars - 3));
        assert(t.subrange(max_chars - 3, max_chars) =~= ellipsis());
    }
}

/// Whether a text holds no line feed.
pub open spec fn on_one_line(s: Seq<char>) -> bool {
    forall|i: int| 0 <= i < s.len() ==> s[i] != '\n'
}

/// The characters of a string, one vector element per character.
pub fn chars_of(s: &str) -> (v: Vec<char>)
    ensures
        v@ == s@,
{
    let mut v: Vec<char> = Vec::new();
    for c in it: s.chars()
        invariant
            v@ == it.seq().take(it.index() as int),
            it.seq() == s@,
    {
        v.push(c);
    }
    v
}

/// The characters with the Unicode `White_Space` property.
pub open spec fn is_whitespace(c: char) -> bool {
    let u = c as u32;
    ||| 0x09 <= u <= 0x0D
    ||| u == 0x20
    ||| u == 0x85
    ||| u == 0xA0
    ||| u == 0x1680
    ||| 0x2000 <= u <= 0x200A
    ||| u == 0x2028
    ||| u == 0x2029
    ||| u == 0x202F
    ||| u == 0x205F
    ||| u == 0x3000
}

/// Tells whether `c` is a whitespace character.
pub fn is_whitespace_char(c: char) -> (b: bool)
    ensures
        b == is_whitespace(c),
{
    let u: u32 = c as u32;
    (0x09 <= u && u <= 0x0D) || u == 0x20 || u == 0x85 || u == 0xA0 || u == 0x1680 || (0x2000 <= u
        && u <= 0x200A) || u == 0x2028 || u == 0x2029 || u == 0x202F || u == 0x205F || u == 0x3000
}

/// `s` without its leading whitespace.
pub open spec fn trim_start(s: Seq<char>) -> Seq<char>
    decreases s.len(),
{
    if s.len() > 0 && is_whitespace(s[0]) {
        trim_start(s.drop_first())
    } else {
        s
    }
}

/// `s` without its trailing whitespace.
pub open spec fn trim_end(s: Seq<char>) -> Seq<char>
    decreases s.len(),
{
    if s.len() > 0 && is_whitespace(s.last()) {
        trim_end(s.drop_last())
    } else {
        s
    }
}

/// `s` without leading and trailing whitespace.
pub open spec fn trim(s: Seq<char>) -> Seq<char> {
    trim_end(trim_start(s))
}

/// `s` without `prefix` in front, or `s` itself when it does not start with it.
pub open spec fn strip_prefix(s: Seq<char>, prefix: Seq<char>) -> Seq<char> {
    if prefix.is_prefix_of(s) {
        s.skip(prefix.len() as int)
    } else {
        s
    }
}

/// `s` with every leading repetition of `pattern` removed.
pub open spec fn strip_repeated(s: Seq<char>, pattern: Seq<char>) -> Seq<char>
    decreases s.len(),
{
    if pattern.len() > 0 && pattern.is_prefix_of(s) {
        strip_repeated(s.skip(pattern.len() as int), pattern)
    } else {
        s
    }
}

/// The number of characters of `s` in front of the first `separator`.
pub open spec fn segment_len(s: Seq<char>, separator: char) -> nat
    decreases s.len(),
{
    if s.len() == 0 || s[0] == separator {
        0
    } else {
        1 + segment_len(s.drop_first(), separator)
    }
}

/// The part of `s` in front of the first `separator`, all of `s` when it
/// holds none.
pub open spec fn first_segment(s: Seq<char>, separator: char) -> Seq<char> {
    s.take(segment_len(s, separator) as int)
}

/// Whether `needle` occurs in `haystack` as a contiguous run of characters.
pub open spec fn has_substring(haystack: Seq<char>, needle: Seq<char>) -> bool {
    exists|i: int|
        0 <= i && i + needle.len() <= haystack.len() && #[trigger] haystack.subrange(
            i,
            i + needle.len(),
        ) == needle
}

/// Whether `pattern` stands in `text` at position `at`.
fn matches_at(text: &Vec<char>, at: usize, pattern: &Vec<char>) -> (b: bool)
    requires
        at <= text.len(),
    ensures
        b == pattern@.is_prefix_of(text@.skip(at as int)),
        b == (at + pattern.len() <= text.len() && text@.subrange(at as int, at + pattern.len())
            == pattern@),
{
    let n: usize = pattern.len();
    if n > text.len() - at {
        return false;
    }
    let mut i: usize = 0;
    while i < n
        invariant
            at + n <= text.len(),
            n == pattern.len(),
            i <= n,
            forall|j: int| 0 <= j < i ==> text@[at + j] == pattern@[j],
        decreases n - i,
    {
        if text[at + i] != pattern[i] {
            proof {
                let t = text@.skip(at as int);
                assert(t.subrange(0, n as int)[i as int] != pattern@[i as int]);
                assert(text@.subrange(at as int, at + n)[i as int] != pattern@[i as int]);
            }
            return false;
        }
        i = i + 1;
    }
    proof {
        assert(text@.skip(at as int).subrange(0, n as int) =~= pattern@);
        assert(text@.subrange(at as int, at + n) =~= pattern@);
    }
    true
}

/// The position reached from `at` after stepping over every repetition of
/// `pattern` that follows.
fn skip_repeated(text: &Vec<char>, at: usize, pattern: &Vec<char>) -> (end: usize)
    requires
        at <= text.len(),
    ensures
        at <= end <= text.len(),
        text@.skip(end as int) == strip_repeated(text@.skip(at as int), pattern@),
{
    let n: usize = pattern.len();
    let mut i: usize = at;
    if n == 0 {
        return i;
    }
    while matches_at(text, i, pattern)
        invariant
            n == pattern.len(),
            n > 0,
            at <= i <= text.len(),
            strip_repeated(text@.skip(i as int), pattern@) == strip_repeated(
                text@.skip(at as int),
                pattern@,
            ),
        decreases text.len() - i,
    {
        proof {
            assert(text@.skip(i as int).skip(n as int) =~= text@.skip(i + n));
        }
        i = i + n;
    }
    i
}

/// The position of the first non-whitespace character at or after `at`.
fn skip_whitespace(text: &Vec<char>, at: usize) -> (end: usize)
    requires
        at <= text.len(),
    ensures
        at <= end <= text.len(),
        text@.skip(end as int) == trim_start(text@.skip(at as int)),
{
    let mut i: usize = at;
    while i < text.len() && is_whitespace_char(text[i])
        invariant
            at <= i <= text.len(),
            trim_start(text@.skip(i as int)) == trim_start(text@.skip(at as int)),
        decreases text.len() - i,
    {
        proof {
            assert(text@.skip(i as int).drop_first() =~= text@.skip(i + 1));
        }
        i = i + 1;
    }
    i
}

/// The position just past the last non-whitespace character of the range
/// that starts at `from`.
fn skip_whitespace_back(text: &Vec<char>, from: usize) -> (end: usize)
    requires
        from <= text.len(),
    ensures
        from <= end <= text.len(),
        text@.subrange(from as int, end as int) == trim_end(text@.skip(from as int)),
{
    let mut j: usize = text.len();
    proof {
        assert(text@.subrange(from as int, j as int) =~= text@.skip(from as int));
    }
    while j > from && is_whitespace_char(text[j - 1])
        invariant
            from <= j <= text.len(),
            trim_end(text@.subrange(from as int, j as int)) == trim_end(text@.skip(from as int)),
        decreases j,
    {
        proof {
            assert(text@.subrange(from as int, j as int).drop_last() =~= text@.subrange(
                from as int,
                j - 1,
            ));
        }
        j = j - 1;
    }
    j
}

/// The position of the first `separator` at or after `at`, the length of the
/// text when there is none.
fn find_separator(text: &Vec<char>, at: usize, separator: char) -> (end: usize)
    requires
        at <= text.len(),
    ensures
        at <= end <= text.len(),
        end - at == segment_len(text@.skip(at as int), separator),
{
    let mut j: usize = at;
    while j < text.len() && text[j] != separator
        invariant
            at <= j <= text.len(),
            segment_len(text@.skip(at as int), separator) == (j - at) + segment_len(
                text@.skip(j as int),
                separator,
            ),
        decreases text.len() - j,
    {
        proof {
            assert(text@.skip(j as int).drop_first() =~= text@.skip(j + 1));
        }
        j = j + 1;
    }
    j
}

/// Tells whether `needle` occurs somewhere in `haystack`.
pub fn contains(haystack: &str, needle: &str) -> (b: bool)
    ensures
        b == has_substring(haystack@, needle@),
{
    let text = chars_of(haystack);
    let pattern = chars_of(needle);
    if pattern.len() > text.len() {
        return false;
    }
    let last: usize = text.len() - pattern.len();
    let mut i: usize = 0;
    while i <= last
        invariant
            last == text.len() - pattern.len(),
            text@ == haystack@,
            pattern@ == needle@,
            i <= last + 1,
            forall|k: int|
                0 <= k < i ==> #[trigger] text@.subrange(k, k + pattern.len()) != pattern@,
        decreases last + 1 - i,
    {
        if matches_at(&text, i, &pattern) {
            return true;
        }
        i = i + 1;
    }
    false
}

/// A query without the plugin's keyword in front and without surrounding
/// whitespace.
pub open spec fn query_text(query: Seq<char>, keyword: Seq<char>) -> Seq<char> {
    trim(strip_prefix(query, keyword))
}

/// Strips the invocation keyword and the surrounding whitespace from a
/// query as the host sent it.
pub fn strip_keyword(query: &str, keyword: &str) -> (out: String)
    ensures
        out@ == query_text(query@, keyword@),
{
    let text = chars_of(query);
    let prefix = chars_of(keyword);
    let start: usize = if matches_at(&text, 0, &prefix) {
        prefix.len()
    } else {
        0
    };
    proof {
        assert(text@.skip(0) =~= text@);
    }
    let lo = skip_whitespace(&text, start);
    let hi = skip_whitespace_back(&text, lo);
    String::from_str(query.substring_char(lo, hi))
}

/// `s` without leading and trailing whitespace, as an owned string.
pub fn trimmed(s: &str) -> (out: String)
    ensures
        out@ == trim(s@),
{
    let text = chars_of(s);
    proof {
        assert(text@.skip(0) =~= text@);
    }
    let lo = skip_whitespace(&text, 0);
    let hi = skip_whitespace_back(&text, lo);
    String::from_str(s.substring_char(lo, hi))
}

/// The host part of a URI: the text after any leading `https://` and
/// `http://`, up to the first `/`.
pub open spec fn host_of(uri: Seq<char>) -> Seq<char> {
    first_segment(strip_repeated(strip_repeated(uri, "https://"@), "http://"@), '/')
}

/// Extracts the host part of a URI for display.
pub fn domain_of(uri: &str) -> (out: String)
    ensures
        out@ == host_of(uri@),
{
    let text = chars_of(uri);
    let secure = chars_of("https://");
    let plain = chars_of("http://");
    proof {
        assert(text@.skip(0) =~= text@);
    }
    let a = skip_repeated(&text, 0, &secure);
    let b = skip_repeated(&text, a, &plain);
    let c = find_separator(&text, b, '/');
    proof {
        assert(text@.skip(b as int).take(c - b) =~= text@.subrange(b as int, c as int));
    }
    String::from_str(uri.substring_char(b, c))
}

/// Tells whether two strings hold the same characters.
pub fn same_text(a: &str, b: &str) -> (same: bool)
    ensures
        same == (a@ == b@),
{
    let left = chars_of(a);
    let right = chars_of(b);
    if left.len() != right.len() {
        return false;
    }
    proof {
        assert(left@.subrange(0, left.len() as int) =~= left@);
    }
    matches_at(&left, 0, &right)
}

/// Joins two pieces of text into one string.
pub fn concat(a: &str, b: &str) -> (out: String)
    ensures
        out@ == a@ + b@,
{
    let mut out = String::from_str(a);
    out.append(b);
    out
}

/// Joins three pieces of text into one string.
pub fn concat3(a: &str, b: &str, c: &str) -> (out: String)
    ensures
        out@ == a@ + b@ + c@,
{
    let mut out = String::from_str(a);
    out.append(b);
    out.append(c);
    out
}

} // verus!
