//! Decimal text of unsigned integers: formatting (`Display` for `u64`) and
//! parsing (`str::parse` for unsigned types).
use vstd::prelude::*;
use vstd::string::StringExecFns;
use crate::text::{chars_of, push_char};

verus! {

pub open spec fn digit_char(d: nat) -> char {
    ((('0' as u32) + d) as u32) as char
}

pub open spec fn digit_value(c: char) -> nat {
    ((c as u32) - ('0' as u32)) as nat
}

pub open spec fn is_digit(c: char) -> bool {
    '0' <= c <= '9'
}

/// Decimal representation without sign or leading zeros.
pub open spec fn decimal(n: nat) -> Seq<char>
    decreases n,
{
    if n < 10 {
        seq![digit_char(n)]
    } else {
        decimal(n / 10).push(digit_char(n % 10))
    }
}

fn digit(d: u64) -> (c: char)
    requires
        d < 10,
    ensures
        c == digit_char(d as nat),
{
    let b = (d as u8) + 48;
    b as char
}

/// The decimal text of `n`, as `n.to_string()` writes it.
pub fn decimal_string(n: u64) -> (r: String)
    ensures
        r@ == decimal(n as nat),
    decreases n,
{
    if n < 10 {
        let mut s = String::new();
        push_char(&mut s, digit(n));
        s
    } else {
        let mut s = decimal_string(n / 10);
        push_char(&mut s, digit(n % 10));
        s
    }
}

/// The number that a run of decimal digits denotes.
pub open spec fn digits_value(ds: Seq<char>) -> nat
    decreases ds.len(),
{
    if ds.len() == 0 {
        0
    } else {
        digits_value(ds.drop_last()) * 10 + digit_value(ds.last())
    }
}

pub open spec fn all_digits(ds: Seq<char>) -> bool {
    forall|i: int| 0 <= i < ds.len() ==> is_digit(#[trigger] ds[i])
}

/// The digits after an optional leading `+`.
pub open spec fn unsigned_digits(s: Seq<char>) -> Seq<char> {
    if s.len() > 0 && s[0] == '+' {
        s.drop_first()
    } else {
        s
    }
}

/// `str::parse` for an unsigned integer type whose largest value is `max`:
/// an optional `+`, then at least one decimal digit, and nothing else; the
/// value must not exceed `max`.
pub open spec fn parse_unsigned(s: Seq<char>, max: nat) -> Option<nat> {
    let ds = unsigned_digits(s);
    if ds.len() > 0 && all_digits(ds) && digits_value(ds) <= max {
        Some(digits_value(ds))
    } else {
        None
    }
}

pub proof fn lemma_digits_value_monotone(ds: Seq<char>, j: int)
    requires
        0 <= j <= ds.len(),
        all_digits(ds),
    ensures
        digits_value(ds.take(j)) <= digits_value(ds),
    decreases ds.len() - j,
{
    if j < ds.len() {
        let t = ds.drop_last();
        assert(all_digits(t)) by {
            assert forall|i: int| 0 <= i < t.len() implies is_digit(#[trigger] t[i]) by {
                assert(t[i] == ds[i]);
            }
        }
        lemma_digits_value_monotone(t, j);
        assert(t.take(j) == ds.take(j));
        let v = digits_value(t);
        assert(v <= v * 10 + digit_value(ds.last())) by (nonlinear_arith);
    } else {
        assert(ds.take(j) == ds);
    }
}

/// `str::parse::<T>()` for an unsigned integer type `T` whose largest value is
/// `max`.
pub fn parse_unsigned_str(s: &str, max: u64) -> (r: Option<u64>)
    requires
        max <= 0xFFFF_FFFF,
    ensures
        r matches Some(v) ==> parse_unsigned(s@, max as nat) == Some(v as nat),
        r is None ==> parse_unsigned(s@, max as nat) is None,
{
    let cs = chars_of(s);
    let n = cs.len();
    let mut i: usize = 0;
    if n > 0 && cs[0] == '+' {
        i = 1;
    }
    let start = i;
    let ghost ds = unsigned_digits(cs@);
    assert(ds == cs@.skip(start as int));
    if start == n {
        return None;
    }
    let mut acc: u64 = 0;
    while i < n
        invariant
            n == cs@.len(),
            cs@ == s@,
            ds == cs@.skip(start as int),
            ds == unsigned_digits(s@),
            start <= i <= n,
            max <= 0xFFFF_FFFF,
            acc <= max,
            all_digits(ds.take(i - start)),
            acc as nat == digits_value(ds.take(i - start)),
        decreases n - i,
    {
        let c = cs[i];
        if !('0' <= c && c <= '9') {
            proof {
                assert(ds[i - start] == c);
                assert(!is_digit(ds[i - start]));
            }
            return None;
        }
        let d = (c as u64) - 48;
        let ghost prev = ds.take(i - start);
        let ghost next = ds.take(i - start + 1);
        proof {
            assert(next.drop_last() == prev);
            assert(next.last() == c);
            assert(all_digits(next)) by {
                assert forall|k: int| 0 <= k < next.len() implies is_digit(#[trigger] next[k]) by {
                    if k < prev.len() {
                        assert(next[k] == prev[k]);
                    }
                }
            }
        }
        assert(acc * 10 + d <= 0xFFFF_FFFF * 10 + 9) by (nonlinear_arith)
            requires
                acc <= 0xFFFF_FFFF,
                d < 10,
        ;
        assert(digit_value(c) == d);
        assert(digits_value(next) == digits_value(prev) * 10 + digit_value(c));
        acc = acc * 10 + d;
        i += 1;
        if acc > max {
            proof {
                if all_digits(ds) {
                    lemma_digits_value_monotone(ds, i - start);
                    assert(next == ds.take(i - start));
                }
            }
            return None;
        }
    }
    assert(ds.take(n - start) == ds);
    Some(acc)
}

/// `str::parse::<u16>()`.
pub fn parse_u16(s: &str) -> (r: Option<u16>)
    ensures
        r matches Some(v) ==> parse_unsigned(s@, 0xFFFF) == Some(v as nat),
        r is None ==> parse_unsigned(s@, 0xFFFF) is None,
{
    match parse_unsigned_str(s, 0xFFFF) {
        Some(v) => Some(v as u16),
        None => None,
    }
}

/// `str::parse::<u32>()`.
pub fn parse_u32(s: &str) -> (r: Option<u32>)
    ensures
        r matches Some(v) ==> parse_unsigned(s@, 0xFFFF_FFFF) == Some(v as nat),
        r is None ==> parse_unsigned(s@, 0xFFFF_FFFF) is None,
{
    match parse_unsigned_str(s, 0xFFFF_FFFF) {
        Some(v) => Some(v as u32),
        None => None,
    }
}

/// The decimal text of a number is a nonempty run of digits that denotes it.
pub proof fn lemma_decimal_digits(n: nat)
    ensures
        decimal(n).len() > 0,
        all_digits(decimal(n)),
        digits_value(decimal(n)) == n,
    decreases n,
{
    if n < 10 {
        let c = digit_char(n);
        assert(c as u32 == 48 + n);
        assert(digit_value(c) == n);
        assert(decimal(n).drop_last() =~= Seq::<char>::empty());
        assert(digits_value(Seq::<char>::empty()) == 0);
        assert(digits_value(decimal(n)) == 0 * 10 + digit_value(c));
    } else {
        lemma_decimal_digits(n / 10);
        let c = digit_char(n % 10);
        assert(c as u32 == 48 + n % 10);
        let d = decimal(n);
        assert(d.drop_last() == decimal(n / 10));
        assert(d.last() == c);
        assert forall|i: int| 0 <= i < d.len() implies is_digit(#[trigger] d[i]) by {
            if i < d.len() - 1 {
                assert(d[i] == decimal(n / 10)[i]);
            }
        }
        assert(digits_value(d) == digits_value(decimal(n / 10)) * 10 + digit_value(c));
        assert((n / 10) * 10 + n % 10 == n) by (nonlinear_arith);
    }
}

/// Scanning digits left to right from the value `acc`: the error at the
/// first character that is no digit, or at the first digit with which the
/// value passes `max`; `None` when there is neither.
pub open spec fn scan_error(ds: Seq<char>, acc: nat, max: nat) -> Option<Seq<char>>
    decreases ds.len(),
{
    if ds.len() == 0 {
        None
    } else if !is_digit(ds[0]) {
        Some("invalid digit found in string"@)
    } else if acc * 10 + digit_value(ds[0]) > max {
        Some("number too large to fit in target type"@)
    } else {
        scan_error(ds.drop_first(), acc * 10 + digit_value(ds[0]), max)
    }
}

/// The message of the error that `str::parse` gives for a text it refuses as
/// an unsigned integer whose largest value is `max`.
pub open spec fn parse_error_text(s: Seq<char>, max: nat) -> Seq<char> {
    if s.len() == 0 {
        "cannot parse integer from empty string"@
    } else if unsigned_digits(s).len() == 0 {
        "invalid digit found in string"@
    } else {
        match scan_error(unsigned_digits(s), 0, max) {
            Some(e) => e,
            None => Seq::empty(),
        }
    }
}

/// `str::parse::<u16>()` with the message of its error.
pub fn parse_u16_text(s: &str) -> (r: Result<u16, String>)
    ensures
        match r {
            Ok(v) => parse_unsigned(s@, 0xFFFF) == Some(v as nat),
            Err(e) => parse_unsigned(s@, 0xFFFF) is None && e@ == parse_error_text(s@, 0xFFFF),
        },
{
    if let Some(v) = parse_u16(s) {
        return Ok(v);
    }
    let cs = chars_of(s);
    let n = cs.len();
    if n == 0 {
        return Err(String::from_str("cannot parse integer from empty string"));
    }
    let start: usize = if cs[0] == '+' {
        1
    } else {
        0
    };
    let ghost ds = unsigned_digits(s@);
    assert(ds == cs@.skip(start as int));
    if start == n {
        return Err(String::from_str("invalid digit found in string"));
    }
    let mut acc: u64 = 0;
    let mut i: usize = start;
    assert(ds.skip(0) == ds);
    while i < n
        invariant
            n == cs@.len(),
            cs@ == s@,
            ds == cs@.skip(start as int),
            start <= i <= n,
            acc <= 0xFFFF,
            parse_unsigned(s@, 0xFFFF) is None,
            s@.len() > 0,
            ds == unsigned_digits(s@),
            ds.len() > 0,
            scan_error(ds, 0, 0xFFFF) == scan_error(ds.skip(i - start), acc as nat, 0xFFFF),
        decreases n - i,
    {
        let c = cs[i];
        let ghost rest = ds.skip(i - start);
        assert(rest[0] == c);
        assert(rest.drop_first() == ds.skip(i - start + 1));
        if !('0' <= c && c <= '9') {
            return Err(String::from_str("invalid digit found in string"));
        }
        let d = (c as u64) - 48;
        assert(digit_value(c) == d);
        if acc * 10 + d > 0xFFFF {
            return Err(String::from_str("number too large to fit in target type"));
        }
        acc = acc * 10 + d;
        i += 1;
    }
    assert(ds.skip(n - start) =~= Seq::<char>::empty());
    Err(String::new())
}

} // verus!
