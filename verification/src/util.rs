//! Profile names, names derived from subscription URLs, the clock, and JSON
//! string quoting.
use vstd::prelude::*;
use vstd::string::StringExecFns;
use crate::number::{decimal, decimal_string};
use crate::text::{
    after_last, before_first, chars_of, concat3, find_char, find_str, find_sub, in_class,
    index_of_char, is_ascii_alphanumeric, last_index_of_char, lemma_index_of_char_found,
    lemma_trim_end_take, lemma_trim_start_skip, owned, push_char, rfind_char, string_from,
    trim_bounds, trim_by, trim_end_by, trim_start_by, CharClass,
};

verus! {

/// A character that a profile name may hold: an ASCII letter or digit, `.`,
/// `_` or `-`.
pub open spec fn name_char_ok(c: char) -> bool {
    is_ascii_alphanumeric(c) || c == '.' || c == '_' || c == '-'
}

/// A profile name: not empty, and only letters, numbers, dot, dash or
/// underscore.
pub open spec fn valid_profile_name(s: Seq<char>) -> bool {
    s.len() > 0 && forall|i: int| 0 <= i < s.len() ==> name_char_ok(#[trigger] s[i])
}

pub fn name_char(c: char) -> (r: bool)
    ensures
        r == name_char_ok(c),
{
    crate::text::char_is_ascii_alphanumeric(c) || c == '.' || c == '_' || c == '-'
}

/// Whether `name` is a valid profile name.
pub fn profile_name_ok(name: &str) -> (r: bool)
    ensures
        r == valid_profile_name(name@),
{
    let cs = chars_of(name);
    if cs.len() == 0 {
        return false;
    }
    let mut i: usize = 0;
    while i < cs.len()
        invariant
            i <= cs@.len(),
            cs@ == name@,
            forall|k: int| 0 <= k < i ==> name_char_ok(#[trigger] cs@[k]),
        decreases cs@.len() - i,
    {
        if !name_char(cs[i]) {
            return false;
        }
        i += 1;
    }
    true
}

/// The error for an invalid profile name.
pub open spec fn invalid_name_message(name: Seq<char>) -> Seq<char> {
    "invalid profile name '"@ + name + "'. Use letters, numbers, dot, dash, or underscore."@
}

/// `Ok` for a valid profile name, else the error that explains the rule.
pub fn require_profile_name(name: &str) -> (r: Result<(), String>)
    ensures
        r is Ok <==> valid_profile_name(name@),
        r matches Err(e) ==> e@ == invalid_name_message(name@),
{
    if profile_name_ok(name) {
        Ok(())
    } else {
        Err(concat3("invalid profile name '", name, "'. Use letters, numbers, dot, dash, or underscore."))
    }
}

/// The number of bytes that UTF-8 spends on a character.
pub open spec fn utf8_len(c: char) -> nat {
    if (c as u32) < 0x80 {
        1
    } else if (c as u32) < 0x800 {
        2
    } else if (c as u32) < 0x10000 {
        3
    } else {
        4
    }
}

/// A character of a slug as its bytes become: itself when it may stand in a
/// profile name, else one dash per UTF-8 byte.
pub open spec fn slug_piece(c: char) -> Seq<char> {
    if name_char_ok(c) {
        seq![c]
    } else {
        Seq::new(utf8_len(c), |i: int| '-')
    }
}

pub open spec fn slug_chars(s: Seq<char>) -> Seq<char>
    decreases s.len(),
{
    if s.len() == 0 {
        Seq::empty()
    } else {
        slug_chars(s.drop_last()) + slug_piece(s.last())
    }
}

/// A text reduced to profile-name characters, without leading or trailing
/// dashes.
pub open spec fn sanitized(s: Seq<char>) -> Seq<char> {
    trim_by(slug_chars(s), CharClass::Exactly('-'))
}

fn utf8_len_exec(c: char) -> (r: usize)
    ensures
        r == utf8_len(c),
{
    let v = c as u32;
    if v < 0x80 {
        1
    } else if v < 0x800 {
        2
    } else if v < 0x10000 {
        3
    } else {
        4
    }
}

fn sanitize_slug(value: &str) -> (r: String)
    ensures
        r@ == sanitized(value@),
{
    let cs = chars_of(value);
    let mut out: Vec<char> = Vec::new();
    let mut i: usize = 0;
    while i < cs.len()
        invariant
            i <= cs@.len(),
            cs@ == value@,
            out@ == slug_chars(cs@.take(i as int)),
        decreases cs@.len() - i,
    {
        let c = cs[i];
        let ghost before = out@;
        if name_char(c) {
            out.push(c);
        } else {
            let n = utf8_len_exec(c);
            let mut k: usize = 0;
            while k < n
                invariant
                    k <= n == utf8_len(c),
                    out@ == before + Seq::new(k as nat, |j: int| '-'),
                decreases n - k,
            {
                out.push('-');
                assert(out@ =~= before + Seq::new((k + 1) as nat, |j: int| '-'));
                k += 1;
            }
        }
        proof {
            let t = cs@.take(i + 1);
            assert(t.drop_last() == cs@.take(i as int));
            assert(t.last() == c);
            assert(out@ =~= slug_chars(cs@.take(i as int)) + slug_piece(c));
        }
        i += 1;
    }
    assert(cs@.take(cs@.len() as int) == cs@);
    let (lo, hi) = trim_bounds(&out, CharClass::Exactly('-'));
    string_from(&out, lo, hi)
}

/// A URL without its scheme.
pub open spec fn without_scheme(url: Seq<char>) -> Seq<char> {
    match find_sub(url, "://"@) {
        Some(i) => url.skip(i + 3),
        None => url,
    }
}

/// The text before its first `?` or `#`.
pub open spec fn before_query(s: Seq<char>) -> Seq<char>
    decreases s.len(),
{
    if s.len() == 0 || s[0] == '?' || s[0] == '#' {
        Seq::empty()
    } else {
        seq![s[0]] + before_query(s.drop_first())
    }
}

proof fn lemma_before_query(s: Seq<char>, i: int)
    requires
        0 <= i <= s.len(),
        forall|k: int| 0 <= k < i ==> #[trigger] s[k] != '?' && s[k] != '#',
        i == s.len() || s[i] == '?' || s[i] == '#',
    ensures
        before_query(s) == s.take(i),
    decreases i,
{
    if i > 0 {
        let t = s.drop_first();
        assert forall|k: int| 0 <= k < i - 1 implies #[trigger] t[k] != '?' && t[k] != '#' by {
            assert(t[k] == s[k + 1]);
        }
        assert(s[0] != '?' && s[0] != '#');
        lemma_before_query(t, i - 1);
        assert(seq![s[0]] + t.take(i - 1) =~= s.take(i));
    } else {
        assert(s.take(0) =~= Seq::<char>::empty());
    }
}

/// The path of a subscription URL that names it: scheme, query and fragment
/// removed, slashes trimmed.
pub open spec fn url_path(url: Seq<char>) -> Seq<char> {
    trim_by(before_query(without_scheme(url)), CharClass::Exactly('/'))
}

/// The raw name of a subscription URL: its host, joined with a dash to the
/// last path segment when that differs from the host.
pub open spec fn raw_slug(url: Seq<char>) -> Seq<char> {
    let clean = url_path(url);
    let host = before_first(clean, '/');
    let last = after_last(clean, '/');
    if host.len() == 0 {
        last
    } else if last.len() == 0 || last == host {
        host
    } else {
        host + "-"@ + last
    }
}

/// The profile name derived from a subscription URL at time `now`.
pub open spec fn slug_at(url: Seq<char>, now: nat) -> Seq<char> {
    let slug = sanitized(raw_slug(url));
    if slug.len() == 0 {
        "subscription-"@ + decimal(now)
    } else {
        slug
    }
}

/// The profile name derived from a subscription URL, with `now` (seconds
/// since the Unix epoch) naming the profile when the URL yields no name.
pub fn slug_from_url_at(url: &str, now: u64) -> (r: String)
    ensures
        r@ == slug_at(url@, now as nat),
{
    let u = chars_of(url);
    let sep = chars_of("://");
    let ul = u.len();
    let start = match find_str(&u, &sep) {
        Some(i) => {
            proof {
                reveal_strlit("://");
            }
            assert(i + sep@.len() <= ul);
            i + sep.len()
        },
        None => 0,
    };
    assert(u@.skip(start as int) == without_scheme(url@)) by {
        reveal_strlit("://");
        if start == 0 {
            assert(u@.skip(0) == u@);
        }
    }
    let mut end: usize = start;
    while end < u.len() && u[end] != '?' && u[end] != '#'
        invariant
            start <= end <= u@.len(),
            forall|k: int| start <= k < end ==> #[trigger] u@[k] != '?' && u@[k] != '#',
        decreases u@.len() - end,
    {
        end += 1;
    }
    proof {
        let w = u@.skip(start as int);
        assert forall|k: int| 0 <= k < end - start implies #[trigger] w[k] != '?' && w[k] != '#' by {
            assert(w[k] == u@[start + k]);
        }
        if end < u@.len() {
            assert(w[end - start] == u@[end as int]);
        }
        lemma_before_query(w, end - start);
        assert(w.take(end - start) == u@.subrange(start as int, end as int));
    }
    let query_free = string_from(&u, start, end);
    let qf = chars_of(query_free.as_str());
    let (lo, hi) = trim_bounds(&qf, CharClass::Exactly('/'));
    let clean = string_from(&qf, lo, hi);
    let cc = chars_of(clean.as_str());
    proof {
        lemma_index_of_char_found(cc@, '/');
    }
    let host = match find_char(&cc, '/') {
        Some(i) => string_from(&cc, 0, i),
        None => clean.clone(),
    };
    let last = match rfind_char(&cc, '/') {
        Some(i) => string_from(&cc, i + 1, cc.len()),
        None => clean.clone(),
    };
    proof {
        assert(cc@.subrange(0, 0) == cc@.take(0));
        match index_of_char(cc@, '/') {
            Some(i) => {
                assert(cc@.subrange(0, i) == cc@.take(i));
            },
            None => {},
        }
        match last_index_of_char(cc@, '/') {
            Some(i) => {
                assert(cc@.subrange(i + 1, cc@.len() as int) == cc@.skip(i + 1));
            },
            None => {},
        }
    }
    let host_len = chars_of(host.as_str()).len();
    let last_len = chars_of(last.as_str()).len();
    let raw = if host_len == 0 {
        last
    } else if last_len == 0 || last == host {
        host
    } else {
        concat3(host.as_str(), "-", last.as_str())
    };
    let slug = sanitize_slug(raw.as_str());
    if chars_of(slug.as_str()).len() == 0 {
        owned("subscription-").concat(decimal_string(now).as_str())
    } else {
        slug
    }
}

/// Seconds since the Unix epoch (std's `SystemTime::now`), or 0 when the clock
/// reads earlier than the epoch.
#[verifier::external_body]
pub fn unix_timestamp() -> u64 {
    std::time::SystemTime::now().duration_since(std::time::UNIX_EPOCH).map(|d| d.as_secs()).unwrap_or_default()
}

/// The profile name derived from a subscription URL now.
pub fn slug_from_url(url: &str) -> (r: String)
    ensures
        exists|now: nat| r@ == slug_at(url@, now),
{
    let now = unix_timestamp();
    slug_from_url_at(url, now)
}

/// A lower-case hexadecimal digit.
pub open spec fn lower_hex_digit(d: u32) -> char {
    if d < 10 {
        (48 + d) as char
    } else {
        (87 + d) as char
    }
}

/// How `serde_json` writes a character inside a string literal: `"` and `\`
/// behind a backslash; backspace, tab, line feed, form feed and carriage
/// return as `\b \t \n \f \r`; every other character below U+0020 as
/// `\u00` and two lower-case hexadecimal digits; anything else as itself.
pub open spec fn json_escaped_char(c: char) -> Seq<char> {
    if c == '"' {
        seq!['\\', '"']
    } else if c == '\\' {
        seq!['\\', '\\']
    } else if c == '\u{8}' {
        seq!['\\', 'b']
    } else if c == '\t' {
        seq!['\\', 't']
    } else if c == '\n' {
        seq!['\\', 'n']
    } else if c == '\u{c}' {
        seq!['\\', 'f']
    } else if c == '\r' {
        seq!['\\', 'r']
    } else if (c as u32) < 0x20 {
        seq!['\\', 'u', '0', '0', lower_hex_digit((c as u32) / 16), lower_hex_digit((c as u32) % 16)]
    } else {
        seq![c]
    }
}

/// The characters of a text, each written as `json_escaped_char` says.
pub open spec fn json_escaped(s: Seq<char>) -> Seq<char>
    decreases s.len(),
{
    if s.len() == 0 {
        Seq::empty()
    } else {
        json_escaped(s.drop_last()) + json_escaped_char(s.last())
    }
}

/// What `serde_json::to_string` makes of a string: the JSON string literal
/// that denotes it, the escaped text between double quotes.
pub open spec fn json_quoted(s: Seq<char>) -> Seq<char> {
    seq!['"'] + json_escaped(s) + seq!['"']
}

/// The JSON string literal for `value` (`serde_json::to_string` on a `str`).
#[verifier::external_body]
pub fn json_string(value: &str) -> (r: String)
    ensures
        r@ == json_quoted(value@),
{
    serde_json::to_string(value).unwrap_or_else(|_| "\"\"".to_string())
}

} // verus!

verus! {

pub open spec fn all_name_chars(s: Seq<char>) -> bool {
    forall|i: int| 0 <= i < s.len() ==> name_char_ok(#[trigger] s[i])
}

proof fn lemma_slug_chars_ok(s: Seq<char>)
    ensures
        all_name_chars(slug_chars(s)),
    decreases s.len(),
{
    if s.len() > 0 {
        lemma_slug_chars_ok(s.drop_last());
        let a = slug_chars(s.drop_last());
        let b = slug_piece(s.last());
        assert forall|i: int| 0 <= i < (a + b).len() implies name_char_ok(#[trigger] (a + b)[i]) by {
            if i >= a.len() {
                assert((a + b)[i] == b[i - a.len()]);
            }
        }
    }
}

proof fn lemma_trim_keeps_name_chars(s: Seq<char>, class: CharClass)
    requires
        all_name_chars(s),
    ensures
        all_name_chars(trim_start_by(s, class)),
        all_name_chars(trim_by(s, class)),
    decreases s.len(),
{
    if s.len() > 0 && in_class(class, s[0]) {
        let t = s.drop_first();
        assert forall|i: int| 0 <= i < t.len() implies name_char_ok(#[trigger] t[i]) by {
            assert(t[i] == s[i + 1]);
        }
        lemma_trim_keeps_name_chars(t, class);
    }
    lemma_trim_end_keeps_name_chars(trim_start_by(s, class), class);
}

proof fn lemma_trim_end_keeps_name_chars(s: Seq<char>, class: CharClass)
    requires
        all_name_chars(s),
    ensures
        all_name_chars(trim_end_by(s, class)),
    decreases s.len(),
{
    if s.len() > 0 && in_class(class, s.last()) {
        let t = s.drop_last();
        assert forall|i: int| 0 <= i < t.len() implies name_char_ok(#[trigger] t[i]) by {
            assert(t[i] == s[i]);
        }
        lemma_trim_end_keeps_name_chars(t, class);
    }
}

proof fn lemma_decimal_name_chars(n: nat)
    ensures
        all_name_chars(decimal(n)),
    decreases n,
{
    if n >= 10 {
        lemma_decimal_name_chars(n / 10);
        let d = decimal(n / 10);
        assert(decimal(n) == d.push(crate::number::digit_char(n % 10)));
        assert forall|i: int| 0 <= i < decimal(n).len() implies name_char_ok(
            #[trigger] decimal(n)[i],
        ) by {
            if i < d.len() {
                assert(decimal(n)[i] == d[i]);
            }
        }
    }
}

/// A profile name derived from a subscription URL is always a valid profile
/// name, so adding a subscription without a name never fails the name rule.
pub proof fn lemma_slug_is_valid_name(url: Seq<char>, now: nat)
    ensures
        valid_profile_name(slug_at(url, now)),
{
    let s = slug_chars(raw_slug(url));
    lemma_slug_chars_ok(raw_slug(url));
    lemma_trim_keeps_name_chars(s, CharClass::Exactly('-'));
    if sanitized(raw_slug(url)).len() == 0 {
        reveal_strlit("subscription-");
        lemma_decimal_name_chars(now);
        let p = "subscription-"@;
        let d = decimal(now);
        assert(all_name_chars(p));
        assert forall|i: int| 0 <= i < (p + d).len() implies name_char_ok(#[trigger] (p + d)[i]) by {
            if i >= p.len() {
                assert((p + d)[i] == d[i - p.len()]);
            }
        }
    }
}

} // verus!
