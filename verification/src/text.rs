//! Text primitives shared by the rest of the library: a model of the parts of
//! `str` that the logic relies on (trimming, searching, line splitting,
//! joining, ASCII case folding) stated over `Seq<char>`, with executable
//! versions proved against those models.
use vstd::prelude::*;
use vstd::string::StringExecFns;
use vstd::utf8::{decode_utf8, encode_utf8, valid_utf8};

verus! {

/// Appends one character to a `String` (std's `String::push`).
#[verifier::external_body]
pub fn push_char(s: &mut String, c: char)
    ensures
        final(s)@ == old(s)@.push(c),
{
    s.push(c);
}

/// `std::str::from_utf8`: the text that the bytes encode when they are
/// valid UTF-8, `None` otherwise.
#[verifier::external_body]
pub fn utf8_text(bytes: &[u8]) -> (r: Option<&str>)
    ensures
        match r {
            Some(t) => valid_utf8(bytes@) && t@ == decode_utf8(bytes@),
            None => !valid_utf8(bytes@),
        },
{
    std::str::from_utf8(bytes).ok()
}

/// The UTF-8 bytes of a text, as a new vector.
pub fn utf8_bytes(s: &str) -> (r: Vec<u8>)
    ensures
        r@ == encode_utf8(s@),
{
    let b = s.as_bytes();
    let mut r: Vec<u8> = Vec::new();
    let mut i: usize = 0;
    while i < b.len()
        invariant
            i <= b@.len(),
            b@ == encode_utf8(s@),
            r@ == b@.take(i as int),
        decreases b@.len() - i,
    {
        r.push(b[i]);
        assert(b@.take(i + 1) == b@.take(i as int).push(b@[i as int]));
        i += 1;
    }
    assert(b@.take(b@.len() as int) == b@);
    r
}

/// The characters of a string slice, in order.
pub fn chars_of(s: &str) -> (r: Vec<char>)
    ensures
        r@ == s@,
{
    let mut r: Vec<char> = Vec::new();
    for c in it: s.chars()
        invariant
            r@ == it.seq().take(it.index() as int),
    {
        r.push(c);
    }
    r
}

/// A new `String` holding `chars[lo..hi]`.
pub fn string_from(chars: &Vec<char>, lo: usize, hi: usize) -> (r: String)
    requires
        lo <= hi <= chars@.len(),
    ensures
        r@ == chars@.subrange(lo as int, hi as int),
{
    let mut r = String::new();
    let mut i = lo;
    while i < hi
        invariant
            lo <= i <= hi <= chars@.len(),
            r@ == chars@.subrange(lo as int, i as int),
        decreases hi - i,
    {
        push_char(&mut r, chars[i]);
        assert(chars@.subrange(lo as int, i + 1) == chars@.subrange(lo as int, i as int).push(
            chars@[i as int],
        ));
        i += 1;
    }
    r
}

/// A `String` holding the given text.
pub fn owned(s: &str) -> (r: String)
    ensures
        r@ == s@,
{
    String::from_str(s)
}

/// Concatenation of two texts.
pub fn concat2(a: &str, b: &str) -> (r: String)
    ensures
        r@ == a@ + b@,
{
    String::from_str(a).concat(b)
}

/// Concatenation of three texts.
pub fn concat3(a: &str, b: &str, c: &str) -> (r: String)
    ensures
        r@ == a@ + b@ + c@,
{
    String::from_str(a).concat(b).concat(c)
}

/// Concatenation of four texts.
pub fn concat4(a: &str, b: &str, c: &str, d: &str) -> (r: String)
    ensures
        r@ == a@ + b@ + c@ + d@,
{
    String::from_str(a).concat(b).concat(c).concat(d)
}

/// Concatenation of five texts.
pub fn concat5(a: &str, b: &str, c: &str, d: &str, e: &str) -> (r: String)
    ensures
        r@ == a@ + b@ + c@ + d@ + e@,
{
    String::from_str(a).concat(b).concat(c).concat(d).concat(e)
}

/// Equality of two texts.
pub fn text_eq(a: &str, b: &str) -> (r: bool)
    ensures
        r == (a@ == b@),
{
    let x = String::from_str(a);
    let y = String::from_str(b);
    x == y
}

// ---------------------------------------------------------------------
// Character classes
// ---------------------------------------------------------------------

/// `char::is_whitespace`: the Unicode `White_Space` property.
pub open spec fn is_whitespace(c: char) -> bool {
    let v = c as u32;
    ||| 0x09 <= v <= 0x0D
    ||| v == 0x20
    ||| v == 0x85
    ||| v == 0xA0
    ||| v == 0x1680
    ||| 0x2000 <= v <= 0x200A
    ||| v == 0x2028
    ||| v == 0x2029
    ||| v == 0x202F
    ||| v == 0x205F
    ||| v == 0x3000
}

/// `char::is_ascii_whitespace`: space, tab, line feed, form feed, carriage return.
pub open spec fn is_ascii_whitespace(c: char) -> bool {
    c == ' ' || c == '\t' || c == '\n' || c == '\x0C' || c == '\r'
}

pub open spec fn is_ascii_digit(c: char) -> bool {
    '0' <= c <= '9'
}

pub open spec fn is_ascii_upper(c: char) -> bool {
    'A' <= c <= 'Z'
}

pub open spec fn is_ascii_lower(c: char) -> bool {
    'a' <= c <= 'z'
}

pub open spec fn is_ascii_alphanumeric(c: char) -> bool {
    is_ascii_digit(c) || is_ascii_upper(c) || is_ascii_lower(c)
}

/// A set of characters that trimming functions strip.
#[derive(Clone, Copy, Debug, PartialEq, Eq, Structural)]
pub enum CharClass {
    /// Unicode white space, as `str::trim` uses.
    Whitespace,
    /// One particular character, as `str::trim_matches(c)` uses.
    Exactly(char),
}

pub open spec fn in_class(class: CharClass, c: char) -> bool {
    match class {
        CharClass::Whitespace => is_whitespace(c),
        CharClass::Exactly(x) => c == x,
    }
}

pub fn char_is_whitespace(c: char) -> (r: bool)
    ensures
        r == is_whitespace(c),
{
    let v = c as u32;
    (0x09 <= v && v <= 0x0D) || v == 0x20 || v == 0x85 || v == 0xA0 || v == 0x1680 || (0x2000
        <= v && v <= 0x200A) || v == 0x2028 || v == 0x2029 || v == 0x202F || v == 0x205F || v
        == 0x3000
}

pub fn char_is_ascii_whitespace(c: char) -> (r: bool)
    ensures
        r == is_ascii_whitespace(c),
{
    c == ' ' || c == '\t' || c == '\n' || c == '\x0C' || c == '\r'
}

pub fn char_is_ascii_alphanumeric(c: char) -> (r: bool)
    ensures
        r == is_ascii_alphanumeric(c),
{
    ('0' <= c && c <= '9') || ('A' <= c && c <= 'Z') || ('a' <= c && c <= 'z')
}

pub fn char_in_class(class: CharClass, c: char) -> (r: bool)
    ensures
        r == in_class(class, c),
{
    match class {
        CharClass::Whitespace => char_is_whitespace(c),
        CharClass::Exactly(x) => c == x,
    }
}

// ---------------------------------------------------------------------
// Trimming
// ---------------------------------------------------------------------

/// What `trim_start_matches` leaves: the text without its leading run of
/// characters of the class.
pub open spec fn trim_start_by(s: Seq<char>, class: CharClass) -> Seq<char>
    decreases s.len(),
{
    if s.len() > 0 && in_class(class, s[0]) {
        trim_start_by(s.drop_first(), class)
    } else {
        s
    }
}

/// What `trim_end_matches` leaves: the text without its trailing run of
/// characters of the class.
pub open spec fn trim_end_by(s: Seq<char>, class: CharClass) -> Seq<char>
    decreases s.len(),
{
    if s.len() > 0 && in_class(class, s.last()) {
        trim_end_by(s.drop_last(), class)
    } else {
        s
    }
}

/// What `trim_matches` leaves.
pub open spec fn trim_by(s: Seq<char>, class: CharClass) -> Seq<char> {
    trim_end_by(trim_start_by(s, class), class)
}

/// `str::trim`.
pub open spec fn trim(s: Seq<char>) -> Seq<char> {
    trim_by(s, CharClass::Whitespace)
}

/// `str::trim_start`.
pub open spec fn trim_start(s: Seq<char>) -> Seq<char> {
    trim_start_by(s, CharClass::Whitespace)
}

/// `str::trim_end`.
pub open spec fn trim_end(s: Seq<char>) -> Seq<char> {
    trim_end_by(s, CharClass::Whitespace)
}

pub proof fn lemma_trim_start_skip(s: Seq<char>, class: CharClass, i: int)
    requires
        0 <= i <= s.len(),
        forall|k: int| 0 <= k < i ==> in_class(class, #[trigger] s[k]),
        i == s.len() || !in_class(class, s[i]),
    ensures
        trim_start_by(s, class) == s.skip(i),
    decreases i,
{
    if i == 0 {
        assert(s.skip(0) == s);
    } else {
        assert(in_class(class, s[0]));
        let t = s.drop_first();
        assert forall|k: int| 0 <= k < i - 1 implies in_class(class, #[trigger] t[k]) by {
            assert(t[k] == s[k + 1]);
        }
        lemma_trim_start_skip(t, class, i - 1);
        assert(t.skip(i - 1) == s.skip(i));
    }
}

pub proof fn lemma_trim_end_take(s: Seq<char>, class: CharClass, j: int)
    requires
        0 <= j <= s.len(),
        forall|k: int| j <= k < s.len() ==> in_class(class, #[trigger] s[k]),
        j == 0 || !in_class(class, s[j - 1]),
    ensures
        trim_end_by(s, class) == s.take(j),
    decreases s.len() - j,
{
    if j == s.len() {
        assert(s.take(j) == s);
    } else {
        assert(in_class(class, s.last()));
        let t = s.drop_last();
        assert forall|k: int| j <= k < t.len() implies in_class(class, #[trigger] t[k]) by {
            assert(t[k] == s[k]);
        }
        lemma_trim_end_take(t, class, j);
        assert(t.take(j) == s.take(j));
    }
}

/// Bounds `(lo, hi)` such that `trim_by(s, class) == s[lo..hi]`.
pub fn trim_bounds(s: &Vec<char>, class: CharClass) -> (r: (usize, usize))
    ensures
        r.0 <= r.1 <= s@.len(),
        trim_by(s@, class) == s@.subrange(r.0 as int, r.1 as int),
        trim_start_by(s@, class) == s@.skip(r.0 as int),
{
    let n = s.len();
    let mut lo: usize = 0;
    while lo < n && char_in_class(class, s[lo])
        invariant
            lo <= n == s@.len(),
            forall|k: int| 0 <= k < lo ==> in_class(class, #[trigger] s@[k]),
        decreases n - lo,
    {
        lo += 1;
    }
    proof {
        lemma_trim_start_skip(s@, class, lo as int);
    }
    let mut hi: usize = n;
    while hi > lo && char_in_class(class, s[hi - 1])
        invariant
            lo <= hi <= n == s@.len(),
            forall|k: int| hi <= k < n ==> in_class(class, #[trigger] s@[k]),
        decreases hi,
    {
        hi -= 1;
    }
    proof {
        let t = s@.skip(lo as int);
        assert forall|k: int| hi - lo <= k < t.len() implies in_class(class, #[trigger] t[k]) by {
            assert(t[k] == s@[k + lo]);
        }
        if hi > lo {
            assert(t[hi - lo - 1] == s@[hi - 1]);
        }
        lemma_trim_end_take(t, class, hi - lo);
        assert(t.take(hi - lo) == s@.subrange(lo as int, hi as int));
    }
    (lo, hi)
}

/// `str::trim_matches` for a class of characters.
pub fn trim_class(s: &str, class: CharClass) -> (r: String)
    ensures
        r@ == trim_by(s@, class),
{
    let cs = chars_of(s);
    let (lo, hi) = trim_bounds(&cs, class);
    string_from(&cs, lo, hi)
}

/// `str::trim`.
pub fn trim_str(s: &str) -> (r: String)
    ensures
        r@ == trim(s@),
{
    trim_class(s, CharClass::Whitespace)
}

/// `str::trim_start_matches` for a class of characters.
pub fn trim_start_class(s: &str, class: CharClass) -> (r: String)
    ensures
        r@ == trim_start_by(s@, class),
{
    let cs = chars_of(s);
    let (lo, hi) = trim_bounds(&cs, class);
    string_from(&cs, lo, cs.len())
}

/// `str::trim_end_matches` for a class of characters.
pub fn trim_end_class(s: &str, class: CharClass) -> (r: String)
    ensures
        r@ == trim_end_by(s@, class),
{
    let cs = chars_of(s);
    let n = cs.len();
    let mut hi: usize = n;
    while hi > 0 && char_in_class(class, cs[hi - 1])
        invariant
            hi <= n == cs@.len(),
            forall|k: int| hi <= k < n ==> in_class(class, #[trigger] cs@[k]),
        decreases hi,
    {
        hi -= 1;
    }
    proof {
        lemma_trim_end_take(cs@, class, hi as int);
        assert(cs@.take(hi as int) == cs@.subrange(0, hi as int));
    }
    string_from(&cs, 0, hi)
}

/// Whether the text is empty once trimmed (`s.trim().is_empty()`).
pub fn is_blank(s: &str) -> (r: bool)
    ensures
        r == (trim(s@).len() == 0),
{
    let cs = chars_of(s);
    let (lo, hi) = trim_bounds(&cs, CharClass::Whitespace);
    lo == hi
}

// ---------------------------------------------------------------------
// Searching
// ---------------------------------------------------------------------

/// `needle` occurs in `hay` at position `i`.
pub open spec fn occurs_at(hay: Seq<char>, needle: Seq<char>, i: int) -> bool {
    0 <= i && i + needle.len() <= hay.len() && hay.subrange(i, i + needle.len()) == needle
}

/// `str::contains` with a string pattern.
pub open spec fn contains(hay: Seq<char>, needle: Seq<char>) -> bool {
    exists|i: int| occurs_at(hay, needle, i)
}

/// `str::starts_with`.
pub open spec fn starts_with(hay: Seq<char>, prefix: Seq<char>) -> bool {
    occurs_at(hay, prefix, 0)
}

/// `str::ends_with`.
pub open spec fn ends_with(hay: Seq<char>, suffix: Seq<char>) -> bool {
    occurs_at(hay, suffix, hay.len() - suffix.len())
}

fn occurs_at_exec(hay: &Vec<char>, needle: &Vec<char>, i: usize) -> (r: bool)
    requires
        i + needle@.len() <= hay@.len(),
    ensures
        r == occurs_at(hay@, needle@, i as int),
{
    let m = needle.len();
    let hl = hay.len();
    let mut k: usize = 0;
    while k < m
        invariant
            k <= m == needle@.len(),
            hl == hay@.len(),
            i + m <= hay@.len(),
            forall|j: int| 0 <= j < k ==> hay@[i + j] == needle@[j],
        decreases m - k,
    {
        if hay[i + k] != needle[k] {
            proof {
                assert(hay@.subrange(i as int, i + m)[k as int] != needle@[k as int]);
            }
            return false;
        }
        k += 1;
    }
    assert(hay@.subrange(i as int, i + m) == needle@);
    true
}

/// Whether `needle` occurs in `hay`.
pub fn contains_chars(hay: &Vec<char>, needle: &Vec<char>) -> (r: bool)
    ensures
        r == contains(hay@, needle@),
{
    if needle.len() > hay.len() {
        return false;
    }
    if needle.len() == 0 {
        assert(hay@.subrange(0, 0) =~= needle@);
        assert(occurs_at(hay@, needle@, 0));
        return true;
    }
    let hl = hay.len();
    let last = hl - needle.len();
    let mut i: usize = 0;
    while i <= last
        invariant
            hl == hay@.len(),
            needle@.len() > 0,
            last + needle@.len() == hay@.len(),
            forall|j: int| 0 <= j < i ==> !occurs_at(hay@, needle@, j),
        decreases last + 1 - i,
    {
        if occurs_at_exec(hay, needle, i) {
            return true;
        }
        i += 1;
    }
    false
}

/// `str::contains` with a string pattern.
pub fn contains_str(hay: &str, needle: &str) -> (r: bool)
    ensures
        r == contains(hay@, needle@),
{
    let h = chars_of(hay);
    let n = chars_of(needle);
    contains_chars(&h, &n)
}

/// `str::starts_with` with a string pattern.
pub fn starts_with_str(hay: &str, prefix: &str) -> (r: bool)
    ensures
        r == starts_with(hay@, prefix@),
{
    let h = chars_of(hay);
    let p = chars_of(prefix);
    if p.len() > h.len() {
        false
    } else {
        occurs_at_exec(&h, &p, 0)
    }
}

/// `str::ends_with` with a string pattern.
pub fn ends_with_str(hay: &str, suffix: &str) -> (r: bool)
    ensures
        r == ends_with(hay@, suffix@),
{
    let h = chars_of(hay);
    let p = chars_of(suffix);
    if p.len() > h.len() {
        false
    } else {
        occurs_at_exec(&h, &p, h.len() - p.len())
    }
}

/// Index of the first occurrence of `c` in `s`.
pub open spec fn index_of_char(s: Seq<char>, c: char) -> Option<int>
    decreases s.len(),
{
    if s.len() == 0 {
        None
    } else if s[0] == c {
        Some(0)
    } else {
        match index_of_char(s.drop_first(), c) {
            Some(i) => Some(i + 1),
            None => None,
        }
    }
}

pub proof fn lemma_index_of_char(s: Seq<char>, c: char, i: int)
    requires
        0 <= i <= s.len(),
        forall|k: int| 0 <= k < i ==> #[trigger] s[k] != c,
    ensures
        i < s.len() && s[i] == c ==> index_of_char(s, c) == Some(i),
        i == s.len() ==> index_of_char(s, c) == None::<int>,
    decreases i,
{
    if i > 0 {
        let t = s.drop_first();
        assert forall|k: int| 0 <= k < i - 1 implies #[trigger] t[k] != c by {
            assert(t[k] == s[k + 1]);
        }
        assert(s[0] != c);
        lemma_index_of_char(t, c, i - 1);
        if i < s.len() && s[i] == c {
            assert(t[i - 1] == s[i]);
        }
    }
}

pub proof fn lemma_index_of_char_found(s: Seq<char>, c: char)
    ensures
        index_of_char(s, c) matches Some(i) ==> 0 <= i < s.len() && s[i] == c && forall|k: int|
            0 <= k < i ==> #[trigger] s[k] != c,
        index_of_char(s, c) is None ==> forall|k: int| 0 <= k < s.len() ==> #[trigger] s[k] != c,
    decreases s.len(),
{
    if s.len() > 0 && s[0] != c {
        let t = s.drop_first();
        lemma_index_of_char_found(t, c);
        assert forall|k: int| 1 <= k < s.len() implies s[k] == t[k - 1] by {}
    }
}

/// Position of the first `c` in `s`.
pub fn find_char(s: &Vec<char>, c: char) -> (r: Option<usize>)
    ensures
        r matches Some(i) ==> index_of_char(s@, c) == Some(i as int),
        r is None ==> index_of_char(s@, c) is None,
{
    let n = s.len();
    let mut i: usize = 0;
    while i < n
        invariant
            i <= n == s@.len(),
            forall|k: int| 0 <= k < i ==> #[trigger] s@[k] != c,
        decreases n - i,
    {
        if s[i] == c {
            proof {
                lemma_index_of_char(s@, c, i as int);
            }
            return Some(i);
        }
        i += 1;
    }
    proof {
        lemma_index_of_char(s@, c, i as int);
    }
    None
}

/// `str::split_once` with a character pattern.
pub open spec fn split_once(s: Seq<char>, c: char) -> Option<(Seq<char>, Seq<char>)> {
    match index_of_char(s, c) {
        Some(i) => Some((s.take(i), s.skip(i + 1))),
        None => None,
    }
}

/// `str::split_once` with a character pattern.
pub fn split_once_char(s: &str, c: char) -> (r: Option<(String, String)>)
    ensures
        match r {
            Some((a, b)) => split_once(s@, c) == Some((a@, b@)),
            None => split_once(s@, c) is None,
        },
{
    let cs = chars_of(s);
    match find_char(&cs, c) {
        Some(i) => {
            proof {
                lemma_index_of_char_found(cs@, c);
            }
            let a = string_from(&cs, 0, i);
            let b = string_from(&cs, i + 1, cs.len());
            proof {
                assert(cs@.subrange(0, i as int) == cs@.take(i as int));
                assert(cs@.subrange(i + 1, cs@.len() as int) == cs@.skip(i + 1));
            }
            Some((a, b))
        },
        None => None,
    }
}

// ---------------------------------------------------------------------
// Case folding
// ---------------------------------------------------------------------

pub open spec fn ascii_lower_char(c: char) -> char {
    if is_ascii_upper(c) {
        ((c as u32) + 32) as char
    } else {
        c
    }
}

/// `str::to_ascii_lowercase`.
pub open spec fn ascii_lowercase(s: Seq<char>) -> Seq<char> {
    s.map_values(|c: char| ascii_lower_char(c))
}

pub fn lower_char(c: char) -> (r: char)
    ensures
        r == ascii_lower_char(c),
{
    if 'A' <= c && c <= 'Z' {
        let b = (c as u8) + 32;
        b as char
    } else {
        c
    }
}

/// `str::to_ascii_lowercase`.
pub fn to_ascii_lowercase(s: &str) -> (r: String)
    ensures
        r@ == ascii_lowercase(s@),
{
    let cs = chars_of(s);
    let mut r = String::new();
    let mut i: usize = 0;
    while i < cs.len()
        invariant
            i <= cs@.len(),
            r@ == ascii_lowercase(cs@.take(i as int)),
        decreases cs@.len() - i,
    {
        let l = lower_char(cs[i]);
        push_char(&mut r, l);
        assert(ascii_lowercase(cs@.take(i + 1)) == ascii_lowercase(cs@.take(i as int)).push(l));
        i += 1;
    }
    assert(cs@.take(cs@.len() as int) == cs@);
    r
}

} // verus!

verus! {

/// Index of the last occurrence of `c` in `s`.
pub open spec fn last_index_of_char(s: Seq<char>, c: char) -> Option<int>
    decreases s.len(),
{
    if s.len() == 0 {
        None
    } else if s.last() == c {
        Some(s.len() - 1)
    } else {
        last_index_of_char(s.drop_last(), c)
    }
}

pub proof fn lemma_last_index_of_char(s: Seq<char>, c: char, i: int)
    requires
        -1 <= i < s.len(),
        forall|k: int| i < k < s.len() ==> #[trigger] s[k] != c,
    ensures
        i >= 0 && s[i] == c ==> last_index_of_char(s, c) == Some(i),
        i == -1 ==> last_index_of_char(s, c) == None::<int>,
    decreases s.len() - i,
{
    if i < s.len() - 1 {
        let t = s.drop_last();
        assert(s.last() != c);
        assert forall|k: int| i < k < t.len() implies #[trigger] t[k] != c by {
            assert(t[k] == s[k]);
        }
        lemma_last_index_of_char(t, c, i);
        if i >= 0 && s[i] == c {
            assert(t[i] == s[i]);
        }
    }
}

/// Position of the last `c` in `s`.
pub fn rfind_char(s: &Vec<char>, c: char) -> (r: Option<usize>)
    ensures
        r matches Some(i) ==> last_index_of_char(s@, c) == Some(i as int) && i < s@.len(),
        r is None ==> last_index_of_char(s@, c) is None,
{
    let mut i: usize = s.len();
    while i > 0
        invariant
            i <= s@.len(),
            forall|k: int| i <= k < s@.len() ==> #[trigger] s@[k] != c,
        decreases i,
    {
        if s[i - 1] == c {
            proof {
                lemma_last_index_of_char(s@, c, i - 1);
            }
            return Some(i - 1);
        }
        i -= 1;
    }
    proof {
        lemma_last_index_of_char(s@, c, -1);
    }
    None
}

/// The text up to (not including) its first `c`, or the whole text.
pub open spec fn before_first(s: Seq<char>, c: char) -> Seq<char> {
    match index_of_char(s, c) {
        Some(i) => s.take(i),
        None => s,
    }
}

/// The text after its last `c`, or the whole text.
pub open spec fn after_last(s: Seq<char>, c: char) -> Seq<char> {
    match last_index_of_char(s, c) {
        Some(i) => s.skip(i + 1),
        None => s,
    }
}

} // verus!

verus! {

/// Position of the first occurrence of `needle` in `hay`.
pub open spec fn find_sub(hay: Seq<char>, needle: Seq<char>) -> Option<int>
    decreases hay.len(),
{
    if occurs_at(hay, needle, 0) {
        Some(0)
    } else if hay.len() == 0 {
        None
    } else {
        match find_sub(hay.drop_first(), needle) {
            Some(i) => Some(i + 1),
            None => None,
        }
    }
}

pub proof fn lemma_occurs_at_drop_first(hay: Seq<char>, needle: Seq<char>, k: int)
    requires
        hay.len() > 0,
        k >= 0,
    ensures
        occurs_at(hay.drop_first(), needle, k) == occurs_at(hay, needle, k + 1),
{
    if k + needle.len() <= hay.len() - 1 {
        assert(hay.drop_first().subrange(k, k + needle.len()) =~= hay.subrange(
            k + 1,
            k + 1 + needle.len(),
        ));
    }
}

pub proof fn lemma_find_sub(hay: Seq<char>, needle: Seq<char>, i: int)
    requires
        0 <= i,
        forall|k: int| 0 <= k < i ==> !#[trigger] occurs_at(hay, needle, k),
    ensures
        occurs_at(hay, needle, i) ==> find_sub(hay, needle) == Some(i),
        i > hay.len() ==> find_sub(hay, needle) == None::<int>,
    decreases hay.len(),
{
    if i > 0 && hay.len() > 0 {
        assert(!occurs_at(hay, needle, 0));
        let t = hay.drop_first();
        assert forall|k: int| 0 <= k < i - 1 implies !#[trigger] occurs_at(t, needle, k) by {
            lemma_occurs_at_drop_first(hay, needle, k);
        }
        lemma_occurs_at_drop_first(hay, needle, i - 1);
        lemma_find_sub(t, needle, i - 1);
    } else if i > 0 {
        assert(!occurs_at(hay, needle, 0));
    }
}

/// Position of the first occurrence of `needle` in `hay`.
pub fn find_str(hay: &Vec<char>, needle: &Vec<char>) -> (r: Option<usize>)
    ensures
        r matches Some(i) ==> find_sub(hay@, needle@) == Some(i as int) && occurs_at(
            hay@,
            needle@,
            i as int,
        ),
        r is None ==> find_sub(hay@, needle@) is None,
{
    if needle.len() > hay.len() {
        proof {
            assert forall|k: int| 0 <= k < hay@.len() + 1 implies !#[trigger] occurs_at(
                hay@,
                needle@,
                k,
            ) by {}
            lemma_find_sub(hay@, needle@, hay@.len() + 1int);
        }
        return None;
    }
    let hl = hay.len();
    let last = hl - needle.len();
    let mut i: usize = 0;
    while i <= last
        invariant
            hl == hay@.len(),
            last + needle@.len() == hay@.len(),
            forall|k: int| 0 <= k < i ==> !#[trigger] occurs_at(hay@, needle@, k),
        decreases last + 1 - i,
    {
        if occurs_at_exec(hay, needle, i) {
            proof {
                lemma_find_sub(hay@, needle@, i as int);
            }
            return Some(i);
        }
        if i == last {
            proof {
                assert forall|k: int| 0 <= k < hay@.len() + 1 implies !#[trigger] occurs_at(
                    hay@,
                    needle@,
                    k,
                ) by {}
                lemma_find_sub(hay@, needle@, hay@.len() + 1int);
            }
            return None;
        }
        i += 1;
    }
    proof {
        lemma_find_sub(hay@, needle@, hay@.len() + 1int);
    }
    None
}

} // verus!

verus! {

/// `n` spaces.
pub open spec fn spaces(n: nat) -> Seq<char> {
    Seq::new(n, |i: int| ' ')
}

/// `format!("{:<w$}", s)`: the text, then spaces up to `w` characters.
pub open spec fn padded_end(s: Seq<char>, w: nat) -> Seq<char> {
    if s.len() >= w {
        s
    } else {
        s + spaces((w - s.len()) as nat)
    }
}

/// `format!("{:>w$}", s)`: spaces up to `w` characters, then the text.
pub open spec fn padded_start(s: Seq<char>, w: nat) -> Seq<char> {
    if s.len() >= w {
        s
    } else {
        spaces((w - s.len()) as nat) + s
    }
}

/// `n` spaces.
pub fn spaces_string(n: usize) -> (r: String)
    ensures
        r@ == spaces(n as nat),
{
    let mut r = String::new();
    let mut i: usize = 0;
    while i < n
        invariant
            i <= n,
            r@ == spaces(i as nat),
        decreases n - i,
    {
        push_char(&mut r, ' ');
        assert(r@ =~= spaces((i + 1) as nat));
        i += 1;
    }
    r
}

/// `format!("{:<w$}", s)`.
pub fn pad_end(s: &str, w: usize) -> (r: String)
    ensures
        r@ == padded_end(s@, w as nat),
{
    let n = chars_of(s).len();
    if n >= w {
        owned(s)
    } else {
        concat2(s, spaces_string(w - n).as_str())
    }
}

/// `format!("{:>w$}", s)`.
pub fn pad_start(s: &str, w: usize) -> (r: String)
    ensures
        r@ == padded_start(s@, w as nat),
{
    let n = chars_of(s).len();
    if n >= w {
        owned(s)
    } else {
        concat2(spaces_string(w - n).as_str(), s)
    }
}

} // verus!
