//! Decoding base64 text as subscription providers wrap configs in it: the
//! standard and URL-safe alphabets, with or without padding.
use vstd::prelude::*;

verus! {

/// The value of one base64 character, with 64 standing for `=`; `None` for a
/// character outside the alphabets, or for any character but `=` after a `=`.
pub open spec fn sextet(b: u8, saw_padding: bool) -> Option<u8> {
    if b == 61 {
        Some(64u8)
    } else if saw_padding {
        None
    } else if 65 <= b <= 90 {
        Some((b - 65) as u8)
    } else if 97 <= b <= 122 {
        Some((b - 71) as u8)
    } else if 48 <= b <= 57 {
        Some((b + 4) as u8)
    } else if b == 43 || b == 45 {
        Some(62u8)
    } else if b == 47 || b == 95 {
        Some(63u8)
    } else {
        None
    }
}

/// The values of all characters, or `None` if one has none.
pub open spec fn sextets(input: Seq<u8>, saw_padding: bool) -> Option<Seq<u8>>
    decreases input.len(),
{
    if input.len() == 0 {
        Some(Seq::empty())
    } else {
        match sextet(input[0], saw_padding) {
            None => None,
            Some(v) => match sextets(input.drop_first(), saw_padding || v == 64) {
                Some(rest) => Some(seq![v] + rest),
                None => None,
            },
        }
    }
}

/// The bytes of one group of four values: one, two or three bytes as the
/// padding allows; `None` when padding stands where a value must.
pub open spec fn chunk_bytes(c: Seq<u8>) -> Option<Seq<u8>> {
    if c[0] == 64 || c[1] == 64 || (c[2] == 64 && c[3] != 64) {
        None
    } else {
        let b1 = (c[0] * 4 + c[1] / 16) as u8;
        let b2 = ((c[1] % 16) * 16 + c[2] / 4) as u8;
        let b3 = ((c[2] % 4) * 64 + c[3]) as u8;
        Some(
            seq![b1] + (if c[2] != 64 {
                seq![b2]
            } else {
                Seq::empty()
            }) + (if c[3] != 64 {
                seq![b3]
            } else {
                Seq::empty()
            }),
        )
    }
}

/// The bytes of groups of four values; a last group of two or three values is
/// completed with padding; a last group of one value is an error.
pub open spec fn decode_chunks(vals: Seq<u8>) -> Option<Seq<u8>>
    decreases vals.len(),
{
    if vals.len() == 0 {
        Some(Seq::empty())
    } else if vals.len() < 4 {
        if vals.len() == 1 {
            None
        } else {
            chunk_bytes(vals + Seq::new((4 - vals.len()) as nat, |i: int| 64u8))
        }
    } else {
        match chunk_bytes(vals.take(4)) {
            None => None,
            Some(b) => match decode_chunks(vals.skip(4)) {
                Some(r) => Some(b + r),
                None => None,
            },
        }
    }
}

/// The bytes that base64 text denotes, or `None` when it is not base64.
pub open spec fn base64_decoded(input: Seq<u8>) -> Option<Seq<u8>> {
    match sextets(input, false) {
        Some(v) => decode_chunks(v),
        None => None,
    }
}

fn sextet_of(b: u8, saw_padding: bool) -> (r: Option<u8>)
    ensures
        r == sextet(b, saw_padding),
{
    if b == 61 {
        Some(64)
    } else if saw_padding {
        None
    } else if 65 <= b && b <= 90 {
        Some(b - 65)
    } else if 97 <= b && b <= 122 {
        Some(b - 71)
    } else if 48 <= b && b <= 57 {
        Some(b + 4)
    } else if b == 43 || b == 45 {
        Some(62)
    } else if b == 47 || b == 95 {
        Some(63)
    } else {
        None
    }
}

/// Appends the bytes of one group of four values; `false` when the group is
/// malformed.
pub fn push_base64_chunk(output: &mut Vec<u8>, c0: u8, c1: u8, c2: u8, c3: u8) -> (r: bool)
    requires
        c0 <= 64 && c1 <= 64 && c2 <= 64 && c3 <= 64,
    ensures
        match chunk_bytes(seq![c0, c1, c2, c3]) {
            Some(b) => r && final(output)@ == old(output)@ + b,
            None => !r && final(output)@ == old(output)@,
        },
{
    let ghost c = seq![c0, c1, c2, c3];
    if c0 == 64 || c1 == 64 || (c2 == 64 && c3 != 64) {
        return false;
    }
    let b1 = c0 * 4 + c1 / 16;
    output.push(b1);
    if c2 != 64 {
        let b2 = (c1 % 16) * 16 + c2 / 4;
        output.push(b2);
    }
    if c3 != 64 {
        let b3 = (c2 % 4) * 64 + c3;
        output.push(b3);
    }
    proof {
        let b = chunk_bytes(c)->0;
        assert(output@ =~= old(output)@ + b);
    }
    true
}

/// The bytes that base64 text denotes, or `None` when it is not base64.
pub fn decode_base64(input: &[u8]) -> (r: Option<Vec<u8>>)
    ensures
        match r {
            Some(v) => base64_decoded(input@) == Some(v@),
            None => base64_decoded(input@) is None,
        },
{
    let mut vals: Vec<u8> = Vec::new();
    let mut saw_padding = false;
    let mut i: usize = 0;
    assert(input@.skip(0) == input@);
    while i < input.len()
        invariant
            i <= input@.len(),
            forall|k: int| 0 <= k < vals@.len() ==> #[trigger] vals@[k] <= 64,
            sextets(input@, false) == match sextets(input@.skip(i as int), saw_padding) {
                Some(rest) => Some(vals@ + rest),
                None => None::<Seq<u8>>,
            },
        decreases input@.len() - i,
    {
        let ghost rest = input@.skip(i as int);
        assert(rest[0] == input@[i as int]);
        assert(rest.drop_first() == input@.skip(i + 1));
        match sextet_of(input[i], saw_padding) {
            None => return None,
            Some(v) => {
                let ghost before = vals@;
                vals.push(v);
                if v == 64 {
                    saw_padding = true;
                }
                proof {
                    match sextets(input@.skip(i + 1), saw_padding) {
                        Some(r2) => {
                            assert(before + (seq![v] + r2) =~= vals@ + r2);
                        },
                        None => {},
                    }
                }
            },
        }
        i += 1;
    }
    assert(input@.skip(input@.len() as int) =~= Seq::<u8>::empty());
    assert(vals@ + Seq::<u8>::empty() =~= vals@);
    let mut output: Vec<u8> = Vec::new();
    let mut k: usize = 0;
    assert(vals@.skip(0) == vals@);
    assert(output@ + Seq::<u8>::empty() =~= output@);
    while vals.len() - k >= 4
        invariant
            k <= vals@.len(),
            forall|m: int| 0 <= m < vals@.len() ==> #[trigger] vals@[m] <= 64,
            base64_decoded(input@) == decode_chunks(vals@),
            decode_chunks(vals@) == match decode_chunks(vals@.skip(k as int)) {
                Some(rest) => Some(output@ + rest),
                None => None::<Seq<u8>>,
            },
        decreases vals@.len() - k,
    {
        let ghost rest = vals@.skip(k as int);
        let ghost before = output@;
        assert(rest.take(4) =~= seq![vals@[k as int], vals@[k + 1], vals@[k + 2], vals@[k + 3]]);
        assert(rest.skip(4) == vals@.skip(k + 4));
        if !push_base64_chunk(&mut output, vals[k], vals[k + 1], vals[k + 2], vals[k + 3]) {
            return None;
        }
        proof {
            match decode_chunks(vals@.skip(k + 4)) {
                Some(r2) => {
                    let b = chunk_bytes(rest.take(4))->0;
                    assert(before + (b + r2) =~= output@ + r2);
                },
                None => {},
            }
        }
        k += 4;
    }
    let left = vals.len() - k;
    let ghost rest = vals@.skip(k as int);
    if left == 1 {
        return None;
    }
    if left > 0 {
        let c2 = if left > 2 {
            vals[k + 2]
        } else {
            64
        };
        assert(rest + Seq::new((4 - rest.len()) as nat, |i: int| 64u8) =~= seq![
            vals@[k as int],
            vals@[k + 1],
            c2,
            64u8,
        ]);
        if !push_base64_chunk(&mut output, vals[k], vals[k + 1], c2, 64) {
            return None;
        }
    } else {
        assert(rest =~= Seq::<u8>::empty());
        assert(output@ + Seq::<u8>::empty() =~= output@);
    }
    Some(output)
}

// ---------------------------------------------------------------------
// Encoding, and the round trip
// ---------------------------------------------------------------------

/// The character for a value below 64, in the standard alphabet (`+`, `/`)
/// or the URL-safe one (`-`, `_`).
pub open spec fn base64_char(v: u8, url_safe: bool) -> u8 {
    if v < 26 {
        (65 + v) as u8
    } else if v < 52 {
        (71 + v) as u8
    } else if v < 62 {
        (v - 4) as u8
    } else if v == 62 {
        if url_safe {
            45u8
        } else {
            43u8
        }
    } else if url_safe {
        95u8
    } else {
        47u8
    }
}

/// The values of a group of one to three bytes: two, three or four of them,
/// as many as the bytes need.
pub open spec fn group_values(b: Seq<u8>) -> Seq<u8> {
    let b0 = b[0];
    let b1: u8 = if b.len() > 1 {
        b[1]
    } else {
        0
    };
    let b2: u8 = if b.len() > 2 {
        b[2]
    } else {
        0
    };
    let v0 = (b0 / 4) as u8;
    let v1 = ((b0 % 4) * 16 + b1 / 16) as u8;
    let v2 = ((b1 % 16) * 4 + b2 / 64) as u8;
    let v3 = (b2 % 64) as u8;
    if b.len() == 1 {
        seq![v0, v1]
    } else if b.len() == 2 {
        seq![v0, v1, v2]
    } else {
        seq![v0, v1, v2, v3]
    }
}

/// The characters of values below 64.
pub open spec fn value_chars(vals: Seq<u8>, url_safe: bool) -> Seq<u8> {
    vals.map_values(|v: u8| base64_char(v, url_safe))
}

/// `=` as many times as a group of values lacks to make four.
pub open spec fn padding(vals: Seq<u8>) -> Seq<u8> {
    Seq::new((4 - vals.len()) as nat, |i: int| 61u8)
}

/// The base64 encoding of bytes (RFC 4648): each group of three bytes as
/// four characters, a last group of one or two bytes as two or three
/// characters, followed by `=` up to four when `padded`.
pub open spec fn base64_encoded(b: Seq<u8>, url_safe: bool, padded: bool) -> Seq<u8>
    decreases b.len(),
{
    if b.len() == 0 {
        Seq::empty()
    } else if b.len() <= 3 {
        let vals = group_values(b);
        value_chars(vals, url_safe) + if padded {
            padding(vals)
        } else {
            Seq::empty()
        }
    } else {
        value_chars(group_values(b.take(3)), url_safe) + base64_encoded(b.skip(3), url_safe, padded)
    }
}

proof fn lemma_char_value(v: u8, url_safe: bool)
    requires
        v < 64,
    ensures
        sextet(base64_char(v, url_safe), false) == Some(v),
        base64_char(v, url_safe) != 61,
{
}

proof fn lemma_group_values(b: Seq<u8>)
    requires
        1 <= b.len() <= 3,
    ensures
        group_values(b).len() == b.len() + 1,
        forall|i: int| 0 <= i < group_values(b).len() ==> #[trigger] group_values(b)[i] < 64,
        chunk_bytes(group_values(b) + Seq::new((4 - group_values(b).len()) as nat, |i: int| 64u8))
            == Some(b),
{
    let b0 = b[0];
    let b1: u8 = if b.len() > 1 {
        b[1]
    } else {
        0
    };
    let b2: u8 = if b.len() > 2 {
        b[2]
    } else {
        0
    };
    let v0 = (b0 / 4) as u8;
    let v1 = ((b0 % 4) * 16 + b1 / 16) as u8;
    let v2 = ((b1 % 16) * 4 + b2 / 64) as u8;
    let v3 = (b2 % 64) as u8;
    assert(v0 * 4 + v1 / 16 == b0) by (nonlinear_arith)
        requires
            v0 == b0 / 4,
            v1 == (b0 % 4) * 16 + b1 / 16,
            b1 < 256,
            b0 < 256,
    ;
    assert((v1 % 16) * 16 + v2 / 4 == b1) by (nonlinear_arith)
        requires
            v1 == (b0 % 4) * 16 + b1 / 16,
            v2 == (b1 % 16) * 4 + b2 / 64,
            b1 < 256,
            b2 < 256,
            b0 < 256,
    ;
    assert((v2 % 4) * 64 + v3 == b2) by (nonlinear_arith)
        requires
            v2 == (b1 % 16) * 4 + b2 / 64,
            v3 == b2 % 64,
            b1 < 256,
            b2 < 256,
    ;
    let g = group_values(b);
    let c = g + Seq::new((4 - g.len()) as nat, |i: int| 64u8);
    assert(c[0] == v0 && c[1] == v1);
    if b.len() == 1 {
        assert(c[2] == 64 && c[3] == 64);
        assert(seq![b0] =~= b);
    } else if b.len() == 2 {
        assert(c[2] == v2 && c[3] == 64);
        assert(seq![b0] + seq![b1] =~= b);
    } else {
        assert(c =~= g);
        assert(seq![b0] + seq![b1] + seq![b2] =~= b);
    }
}

/// Values below 64, written as characters, read back as the values; what
/// follows is read on its own.
proof fn lemma_sextets_values(vals: Seq<u8>, url_safe: bool, rest: Seq<u8>)
    requires
        forall|i: int| 0 <= i < vals.len() ==> #[trigger] vals[i] < 64,
    ensures
        sextets(value_chars(vals, url_safe) + rest, false) == match sextets(rest, false) {
            Some(r) => Some(vals + r),
            None => None::<Seq<u8>>,
        },
    decreases vals.len(),
{
    let x = value_chars(vals, url_safe) + rest;
    if vals.len() == 0 {
        assert(x =~= rest);
        match sextets(rest, false) {
            Some(r) => {
                assert(vals + r =~= r);
            },
            None => {},
        }
    } else {
        let t = vals.drop_first();
        assert forall|i: int| 0 <= i < t.len() implies #[trigger] t[i] < 64 by {
            assert(t[i] == vals[i + 1]);
        }
        lemma_sextets_values(t, url_safe, rest);
        lemma_char_value(vals[0], url_safe);
        assert(x[0] == base64_char(vals[0], url_safe));
        assert(x.drop_first() =~= value_chars(t, url_safe) + rest);
        match sextets(rest, false) {
            Some(r) => {
                assert(seq![vals[0]] + (t + r) =~= vals + r);
            },
            None => {},
        }
    }
}

/// Padding reads back as values of 64.
proof fn lemma_sextets_padding(n: nat)
    requires
        n <= 2,
    ensures
        sextets(Seq::new(n, |i: int| 61u8), false) == Some(Seq::new(n, |i: int| 64u8)),
{
    let p = Seq::new(n, |i: int| 61u8);
    if n == 1 {
        assert(p.drop_first() =~= Seq::<u8>::empty());
        assert(seq![64u8] =~= Seq::new(n, |i: int| 64u8));
    } else if n == 2 {
        let q = p.drop_first();
        assert(q.drop_first() =~= Seq::<u8>::empty());
        assert(q[0] == 61u8);
        assert(sextets(q.drop_first(), true) == Some(Seq::<u8>::empty()));
        assert(seq![64u8] + Seq::<u8>::empty() =~= seq![64u8]);
        assert(sextets(q, true) == Some(seq![64u8]));
        assert(p[0] == 61u8);
        assert(seq![64u8] + seq![64u8] =~= Seq::new(n, |i: int| 64u8));
    } else {
        assert(p =~= Seq::<u8>::empty());
        assert(Seq::new(n, |i: int| 64u8) =~= Seq::<u8>::empty());
    }
}

/// Decoding the base64 encoding of bytes, in either alphabet, with or
/// without padding, gives the bytes back.
pub proof fn lemma_base64_round_trip(b: Seq<u8>, url_safe: bool, padded: bool)
    ensures
        base64_decoded(base64_encoded(b, url_safe, padded)) == Some(b),
    decreases b.len(),
{
    let e = base64_encoded(b, url_safe, padded);
    if b.len() == 0 {
        assert(decode_chunks(Seq::<u8>::empty()) == Some(Seq::<u8>::empty()));
    } else if b.len() <= 3 {
        let g = group_values(b);
        lemma_group_values(b);
        let fill = Seq::new((4 - g.len()) as nat, |i: int| 64u8);
        if padded {
            let pad = padding(g);
            lemma_sextets_padding(pad.len());
            assert(pad =~= Seq::new(pad.len(), |i: int| 61u8));
            lemma_sextets_values(g, url_safe, pad);
            assert(fill =~= Seq::new(pad.len(), |i: int| 64u8));
            let vals = g + fill;
            assert(vals.len() == 4);
            assert(vals.take(4) =~= vals);
            assert(vals.skip(4) =~= Seq::<u8>::empty());
            assert(decode_chunks(Seq::<u8>::empty()) == Some(Seq::<u8>::empty()));
            assert(b + Seq::<u8>::empty() =~= b);
        } else {
            lemma_sextets_values(g, url_safe, Seq::empty());
            assert(e =~= value_chars(g, url_safe) + Seq::<u8>::empty());
            assert(g + Seq::<u8>::empty() =~= g);
            if g.len() == 4 {
                assert(fill =~= Seq::<u8>::empty());
                assert(g + fill =~= g);
                assert(g.take(4) =~= g);
                assert(g.skip(4) =~= Seq::<u8>::empty());
                assert(decode_chunks(Seq::<u8>::empty()) == Some(Seq::<u8>::empty()));
                assert(b + Seq::<u8>::empty() =~= b);
            }
        }
    } else {
        let h = b.take(3);
        let t = b.skip(3);
        let g = group_values(h);
        lemma_group_values(h);
        let fill = Seq::new((4 - g.len()) as nat, |i: int| 64u8);
        assert(fill =~= Seq::<u8>::empty());
        assert(g + fill =~= g);
        lemma_base64_round_trip(t, url_safe, padded);
        let et = base64_encoded(t, url_safe, padded);
        lemma_sextets_values(g, url_safe, et);
        let rv = sextets(et, false)->0;
        let vals = g + rv;
        assert(vals.take(4) =~= g);
        assert(vals.skip(4) =~= rv);
        assert(h + t =~= b);
    }
}

/// A byte of a base64 alphabet (standard or URL-safe) or the padding `=`.
pub open spec fn alphabet_byte(x: u8) -> bool {
    ||| 48 <= x <= 57
    ||| 65 <= x <= 90
    ||| 97 <= x <= 122
    ||| x == 43 || x == 47 || x == 45 || x == 95 || x == 61
}

/// Every byte of a base64 encoding is a character of its alphabet or `=`.
pub proof fn lemma_encoded_alphabet(b: Seq<u8>, url_safe: bool, padded: bool)
    ensures
        forall|i: int|
            0 <= i < base64_encoded(b, url_safe, padded).len() ==> alphabet_byte(
                #[trigger] base64_encoded(b, url_safe, padded)[i],
            ),
    decreases b.len(),
{
    let e = base64_encoded(b, url_safe, padded);
    if b.len() == 0 {
    } else {
        let g = if b.len() <= 3 {
            group_values(b)
        } else {
            group_values(b.take(3))
        };
        if b.len() <= 3 {
            lemma_group_values(b);
        } else {
            lemma_group_values(b.take(3));
        }
        let vc = value_chars(g, url_safe);
        assert forall|i: int| 0 <= i < vc.len() implies alphabet_byte(#[trigger] vc[i]) by {
            assert(g[i] < 64);
        }
        let rest = if b.len() <= 3 {
            if padded {
                padding(g)
            } else {
                Seq::empty()
            }
        } else {
            base64_encoded(b.skip(3), url_safe, padded)
        };
        if b.len() > 3 {
            lemma_encoded_alphabet(b.skip(3), url_safe, padded);
        }
        assert(forall|i: int| 0 <= i < rest.len() ==> alphabet_byte(#[trigger] rest[i]));
        assert(e == vc + rest);
        assert forall|i: int| 0 <= i < e.len() implies alphabet_byte(#[trigger] e[i]) by {
            if i < vc.len() {
                assert(e[i] == vc[i]);
            } else {
                assert(e[i] == rest[i - vc.len()]);
            }
        }
    }
}

} // verus!
