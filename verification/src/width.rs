//! Terminal column widths of text (through `unicode-width`) and the padding
//! and truncation that lay text out in columns.
use vstd::prelude::*;
use vstd::string::StringExecFns;
use crate::text::{chars_of, is_blank, owned, push_char, spaces, spaces_string, trim};

verus! {

/// The columns that `unicode_width::UnicodeWidthChar::width` gives a
/// character; `None` for a control character.
pub uninterp spec fn char_columns(c: char) -> Option<nat>;

/// The columns that `unicode_width::UnicodeWidthStr::width` gives a text.
pub uninterp spec fn text_columns(s: Seq<char>) -> nat;

/// `unicode_width::UnicodeWidthChar::width`: the character's width in
/// columns, `None` for a control character.
#[verifier::external_body]
fn char_width(c: char) -> (r: Option<usize>)
    ensures
        match r {
            Some(w) => char_columns(c) == Some(w as nat),
            None => char_columns(c) is None,
        },
{
    unicode_width::UnicodeWidthChar::width(c)
}

/// `unicode_width::UnicodeWidthStr::width`: the text's width in columns.
#[verifier::external_body]
pub fn text_width(s: &str) -> (r: usize)
    ensures
        r as nat == text_columns(s@),
{
    unicode_width::UnicodeWidthStr::width(s)
}

/// The columns a character takes, counting a control character as none.
pub open spec fn columns_of(c: char) -> nat {
    match char_columns(c) {
        Some(w) => w,
        None => 0,
    }
}

/// The text padded with spaces on the right to `width` columns; unchanged
/// when it is that wide already.
pub open spec fn padded_to(s: Seq<char>, width: nat) -> Seq<char> {
    if text_columns(s) >= width {
        s
    } else {
        s + spaces((width - text_columns(s)) as nat)
    }
}

/// The text padded with spaces on the left to `width` columns.
pub open spec fn left_padded_to(s: Seq<char>, width: nat) -> Seq<char> {
    if text_columns(s) >= width {
        s
    } else {
        spaces((width - text_columns(s)) as nat) + s
    }
}

/// The longest prefix of the text, taken character by character, that fits
/// in `room` columns.
pub open spec fn take_columns(s: Seq<char>, room: nat) -> Seq<char>
    decreases s.len(),
{
    if s.len() == 0 {
        s
    } else if columns_of(s[0]) > room {
        Seq::empty()
    } else {
        seq![s[0]] + take_columns(s.drop_first(), (room - columns_of(s[0])) as nat)
    }
}

/// The text cut to `width` columns, ending in `...` when it was cut and
/// there is room for the dots.
pub open spec fn truncated_to(s: Seq<char>, width: nat) -> Seq<char> {
    if text_columns(s) <= width {
        s
    } else if width <= 3 {
        take_columns(s, width)
    } else {
        take_columns(s, (width - 3) as nat) + "..."@
    }
}

/// `-` for blank text, the text otherwise.
pub open spec fn dash_if_blank(s: Seq<char>) -> Seq<char> {
    if trim(s).len() == 0 {
        "-"@
    } else {
        s
    }
}

/// The text padded with spaces on the right to `width` columns.
pub fn pad_display_width(value: &str, width: usize) -> (r: String)
    ensures
        r@ == padded_to(value@, width as nat),
{
    let w = text_width(value);
    if w >= width {
        owned(value)
    } else {
        let pad = spaces_string(width - w);
        owned(value).concat(pad.as_str())
    }
}

/// The text padded with spaces on the left to `width` columns.
pub fn pad_left_display_width(value: &str, width: usize) -> (r: String)
    ensures
        r@ == left_padded_to(value@, width as nat),
{
    let w = text_width(value);
    if w >= width {
        owned(value)
    } else {
        spaces_string(width - w).concat(value)
    }
}

/// The longest prefix of the text that fits in `width` columns.
pub fn take_display_width(value: &str, width: usize) -> (r: String)
    ensures
        r@ == take_columns(value@, width as nat),
{
    let cs = chars_of(value);
    let mut out = String::new();
    let mut used: usize = 0;
    let mut i: usize = 0;
    assert(cs@.skip(0) == cs@);
    while i < cs.len()
        invariant
            i <= cs@.len(),
            used <= width,
            cs@ == value@,
            take_columns(value@, width as nat) == out@ + take_columns(
                cs@.skip(i as int),
                (width - used) as nat,
            ),
        decreases cs@.len() - i,
    {
        let c = cs[i];
        let ghost rest = cs@.skip(i as int);
        assert(rest[0] == c);
        assert(rest.drop_first() == cs@.skip(i + 1));
        let cw = match char_width(c) {
            Some(w) => w,
            None => 0,
        };
        if cw > width - used {
            assert(out@ + Seq::<char>::empty() == out@);
            return out;
        }
        let ghost before = out@;
        push_char(&mut out, c);
        used = used + cw;
        assert(before + (seq![c] + take_columns(cs@.skip(i + 1), (width - used) as nat)) =~= out@
            + take_columns(cs@.skip(i + 1), (width - used) as nat));
        i += 1;
    }
    assert(cs@.skip(i as int) =~= Seq::<char>::empty());
    assert(out@ + Seq::<char>::empty() == out@);
    out
}

/// The text cut to fit a column of `width` columns, marked with `...` when cut.
pub fn truncate_for_column(value: &str, width: usize) -> (r: String)
    ensures
        r@ == truncated_to(value@, width as nat),
{
    if text_width(value) <= width {
        return owned(value);
    }
    if width <= 3 {
        return take_display_width(value, width);
    }
    take_display_width(value, width - 3).concat("...")
}

/// `-` for blank text, the text otherwise.
pub fn empty_as_dash(value: &str) -> (r: String)
    ensures
        r@ == dash_if_blank(value@),
{
    if is_blank(value) {
        owned("-")
    } else {
        owned(value)
    }
}

} // verus!
