use vstd::prelude::*;

verus! {

// ---------------------------------------------------------------------------
// Character classes and case mapping that std defines through Unicode tables.
// ---------------------------------------------------------------------------
/// Whether a character has the Unicode `White_Space` property: the tab, line feed,
/// vertical tab, form feed, carriage return, space, next line, no-break space, Ogham
/// space mark, the spaces U+2000 to U+200A, the line and paragraph separators, the
/// narrow no-break space, the medium mathematical space and the ideographic space.
pub open spec fn unicode_white_space(c: char) -> bool {
    ||| '\u{0009}' <= c && c <= '\u{000D}'
    ||| c == '\u{0020}'
    ||| c == '\u{0085}'
    ||| c == '\u{00A0}'
    ||| c == '\u{1680}'
    ||| '\u{2000}' <= c && c <= '\u{200A}'
    ||| c == '\u{2028}'
    ||| c == '\u{2029}'
    ||| c == '\u{202F}'
    ||| c == '\u{205F}'
    ||| c == '\u{3000}'
}

/// Whether a character is alphabetic or numeric in the Unicode sense.
pub uninterp spec fn unicode_alphanumeric(c: char) -> bool;

/// Whether a character belongs to the Unicode general category `Cc`: U+0000 to
/// U+001F and U+007F to U+009F.
pub open spec fn unicode_control(c: char) -> bool {
    ||| c <= '\u{001F}'
    ||| '\u{007F}' <= c && c <= '\u{009F}'
}

/// The full Unicode lowercase mapping of a string.
pub uninterp spec fn lowercase_of(s: Seq<char>) -> Seq<char>;

/// `s` without its leading white space.
pub open spec fn trim_start_spec(s: Seq<char>) -> Seq<char>
    decreases s.len(),
{
    if s.len() > 0 && unicode_white_space(s[0]) {
        trim_start_spec(s.drop_first())
    } else {
        s
    }
}

/// `s` without its trailing white space.
pub open spec fn trim_end_spec(s: Seq<char>) -> Seq<char>
    decreases s.len(),
{
    if s.len() > 0 && unicode_white_space(s.last()) {
        trim_end_spec(s.drop_last())
    } else {
        s
    }
}

/// `s` without leading and trailing white space.
pub open spec fn trim_spec(s: Seq<char>) -> Seq<char> {
    trim_end_spec(trim_start_spec(s))
}

/// The form under which endpoint names are compared: trimmed, then lowercased.
pub open spec fn normalized_name(s: Seq<char>) -> Seq<char> {
    lowercase_of(trim_spec(s))
}

/// Calls `str::trim`, which removes leading and trailing characters that have the
/// Unicode `White_Space` property; the result is the remaining middle of `s`.
#[verifier::external_body]
fn std_trim(s: &str) -> (t: &str)
    ensures
        t@ == trim_spec(s@),
        t@.len() > 0 ==> !unicode_white_space(t@[0]) && !unicode_white_space(t@.last()),
{
    s.trim()
}

/// Calls `str::to_lowercase`; the result is the Unicode lowercase mapping of `s`,
/// which this crate names without restating.
#[verifier::external_body]
fn std_to_lowercase(s: &str) -> (t: String)
    ensures
        t@ == lowercase_of(s@),
{
    s.to_lowercase()
}

/// Calls `char::is_alphanumeric`; the result is the Unicode alphanumeric property of
/// `c`, which this crate names without restating.
#[verifier::external_body]
fn std_is_alphanumeric(c: char) -> (b: bool)
    ensures
        b == unicode_alphanumeric(c),
{
    c.is_alphanumeric()
}

/// Calls `String::push`, which appends one character at the end.
#[verifier::external_body]
fn std_push_char(s: &mut String, c: char)
    ensures
        final(s)@ == old(s)@.push(c),
{
    s.push(c)
}

// ---------------------------------------------------------------------------
// Conversions between strings and character vectors.
// ---------------------------------------------------------------------------
/// The characters of a string slice.
pub fn to_chars(s: &str) -> (chars: Vec<char>)
    ensures
        chars@ == s@,
{
    let mut chars: Vec<char> = Vec::new();
    for c in it: s.chars()
        invariant
            it.seq() == s@,
            chars@ == it.seq().take(it.index() as int),
    {
        chars.push(c);
    }
    chars
}

/// A string made of the given characters.
pub fn from_chars(chars: &[char]) -> (s: String)
    ensures
        s@ == chars@,
{
    let mut s = String::new();
    let mut i: usize = 0;
    while i < chars.len()
        invariant
            i <= chars@.len(),
            s@ == chars@.take(i as int),
        decreases chars@.len() - i,
    {
        std_push_char(&mut s, chars[i]);
        assert(chars@.take(i as int).push(chars@[i as int]) =~= chars@.take(i + 1));
        i = i + 1;
    }
    assert(chars@.take(chars@.len() as int) =~= chars@);
    s
}

/// Two strings one after the other.
pub fn concat(a: &str, b: &str) -> (s: String)
    ensures
        s@ == a@ + b@,
{
    let mut chars = to_chars(a);
    let tail = to_chars(b);
    let mut k: usize = 0;
    while k < tail.len()
        invariant
            k <= tail@.len(),
            tail@ == b@,
            chars@ == a@ + tail@.take(k as int),
        decreases tail@.len() - k,
    {
        chars.push(tail[k]);
        assert(tail@.take(k as int).push(tail@[k as int]) =~= tail@.take(k + 1));
        k = k + 1;
    }
    assert(tail@.take(tail@.len() as int) =~= tail@);
    from_chars(chars.as_slice())
}

/// A string without its leading and trailing white space.
pub fn trim(s: &str) -> (t: &str)
    ensures
        t@ == trim_spec(s@),
{
    std_trim(s)
}

/// The trimmed, lowercased characters of an endpoint name.
pub fn normalize_name(s: &str) -> (chars: Vec<char>)
    ensures
        chars@ == normalized_name(s@),
{
    let trimmed = std_trim(s);
    let lowered = std_to_lowercase(trimmed);
    to_chars(lowered.as_str())
}

/// The lowercased characters of a string (without trimming).
pub fn lowercase_chars(s: &str) -> (chars: Vec<char>)
    ensures
        chars@ == lowercase_of(s@),
{
    let lowered = std_to_lowercase(s);
    to_chars(lowered.as_str())
}

/// Whether a string holds only white space.
pub fn is_blank(s: &str) -> (blank: bool)
    ensures
        blank == (trim_spec(s@).len() == 0),
{
    let trimmed = std_trim(s);
    trimmed.is_empty()
}

/// Whether a character is alphanumeric in the Unicode sense.
pub fn is_alphanumeric(c: char) -> (b: bool)
    ensures
        b == unicode_alphanumeric(c),
{
    std_is_alphanumeric(c)
}

/// Whether a character is a control character, as `char::is_control` answers.
pub fn is_control(c: char) -> (b: bool)
    ensures
        b == unicode_control(c),
{
    c <= '\u{001F}' || ('\u{007F}' <= c && c <= '\u{009F}')
}

// ---------------------------------------------------------------------------
// Searching.
// ---------------------------------------------------------------------------
/// `needle` occurs in `hay` starting at `at`.
pub open spec fn occurs_at(hay: Seq<char>, needle: Seq<char>, at: int) -> bool {
    0 <= at && at + needle.len() <= hay.len() && hay.subrange(at, at + needle.len()) == needle
}

/// `needle` occurs somewhere in `hay`.
pub open spec fn contains_spec(hay: Seq<char>, needle: Seq<char>) -> bool {
    exists|at: int| occurs_at(hay, needle, at)
}

/// Whether `needle` starts at position `at` of `hay`.
pub fn matches_at(hay: &[char], needle: &[char], at: usize) -> (found: bool)
    requires
        at + needle@.len() <= hay@.len(),
    ensures
        found == occurs_at(hay@, needle@, at as int),
{
    let n = hay.len();
    let mut k: usize = 0;
    while k < needle.len()
        invariant
            k <= needle@.len(),
            at + needle@.len() <= hay@.len(),
            n == hay@.len(),
            forall|j: int| 0 <= j < k ==> hay@[at + j] == needle@[j],
        decreases needle@.len() - k,
    {
        if hay[at + k] != needle[k] {
            assert(hay@.subrange(at as int, at + needle@.len())[k as int] != needle@[k as int]);
            return false;
        }
        k = k + 1;
    }
    assert(hay@.subrange(at as int, at + needle@.len()) =~= needle@);
    true
}

/// Whether `needle` occurs in `hay`.
pub fn contains(hay: &[char], needle: &[char]) -> (found: bool)
    ensures
        found == contains_spec(hay@, needle@),
{
    if needle.len() > hay.len() {
        assert forall|at: int| !occurs_at(hay@, needle@, at) by {}
        return false;
    }
    if needle.len() == 0 {
        assert(hay@.subrange(0, 0) =~= needle@);
        assert(occurs_at(hay@, needle@, 0));
        return true;
    }
    let n = hay.len();
    let last = n - needle.len();
    let mut at: usize = 0;
    while at <= last
        invariant
            last + needle@.len() == hay@.len(),
            needle@.len() > 0,
            n == hay@.len(),
            at <= last + 1,
            forall|j: int| 0 <= j < at ==> !occurs_at(hay@, needle@, j),
        decreases last + 1 - at,
    {
        if matches_at(hay, needle, at) {
            return true;
        }
        at = at + 1;
    }
    assert forall|j: int| !occurs_at(hay@, needle@, j) by {}
    false
}

/// Whether a string contains the given literal text.
pub fn contains_str(hay: &[char], needle: &str) -> (found: bool)
    ensures
        found == contains_spec(hay@, needle@),
{
    let needle_chars = to_chars(needle);
    contains(hay, needle_chars.as_slice())
}

/// Whether two character sequences are equal.
pub fn chars_equal(a: &[char], b: &[char]) -> (equal: bool)
    ensures
        equal == (a@ == b@),
{
    if a.len() != b.len() {
        return false;
    }
    let mut i: usize = 0;
    while i < a.len()
        invariant
            i <= a@.len(),
            a@.len() == b@.len(),
            forall|j: int| 0 <= j < i ==> a@[j] == b@[j],
        decreases a@.len() - i,
    {
        if a[i] != b[i] {
            return false;
        }
        i = i + 1;
    }
    assert(a@ =~= b@);
    true
}

/// Whether two strings are equal.
pub fn str_equal(a: &str, b: &str) -> (equal: bool)
    ensures
        equal == (a@ == b@),
{
    let x = to_chars(a);
    let y = to_chars(b);
    chars_equal(x.as_slice(), y.as_slice())
}

} // verus!
