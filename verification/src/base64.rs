//! Base64 (RFC 4648, standard alphabet) for `data:` URL payloads.
//!
//! Decoding skips ASCII whitespace and accepts the payload with or without its
//! trailing `=` padding, as long as the padding that is present is the right one.

use vstd::prelude::*;
use vstd::string::StringSliceAdditionalSpecFns;
use vstd::utf8::{encode_utf8, is_ascii_chars, is_ascii_chars_encode_utf8};

use crate::error::{BunodeError, BunodeErrorView, CliUsageError, UsageErrorView};

verus! {

pub open spec fn is_b64(b: u8) -> bool {
    (65 <= b && b <= 90) || (97 <= b && b <= 122) || (48 <= b && b <= 57) || b == 43 || b == 47
}

/// The 6-bit value of an alphabet byte.
pub open spec fn b64_value(b: u8) -> u8 {
    if 65 <= b && b <= 90 {
        (b - 65) as u8
    } else if 97 <= b && b <= 122 {
        (b - 71) as u8
    } else if 48 <= b && b <= 57 {
        (b + 4) as u8
    } else if b == 43 {
        62
    } else {
        63
    }
}

/// The alphabet byte of a 6-bit value.
pub open spec fn b64_byte(v: u8) -> u8 {
    if v < 26 {
        (v + 65) as u8
    } else if v < 52 {
        (v + 71) as u8
    } else if v < 62 {
        (v - 4) as u8
    } else if v == 62 {
        43
    } else {
        47
    }
}

/// The 6-bit values that encode `x`, three bytes to four values, without padding.
pub open spec fn encode_values(x: Seq<u8>) -> Seq<u8>
    decreases x.len(),
{
    if x.len() == 0 {
        Seq::empty()
    } else if x.len() == 1 {
        seq![(x[0] / 4) as u8, ((x[0] % 4) * 16) as u8]
    } else if x.len() == 2 {
        seq![(x[0] / 4) as u8, ((x[0] % 4) * 16 + x[1] / 16) as u8, ((x[1] % 16) * 4) as u8]
    } else {
        seq![
            (x[0] / 4) as u8,
            ((x[0] % 4) * 16 + x[1] / 16) as u8,
            ((x[1] % 16) * 4 + x[2] / 64) as u8,
            (x[2] % 64) as u8,
        ] + encode_values(x.skip(3))
    }
}

/// `=` padding after the encoded values of a payload of `n` bytes.
pub open spec fn padding(n: nat) -> Seq<char> {
    if n % 3 == 1 { seq!['=', '='] } else if n % 3 == 2 { seq!['='] } else { Seq::empty() }
}

/// The Base64 text of `x`.
pub open spec fn spec_encode_base64(x: Seq<u8>) -> Seq<char> {
    encode_values(x).map_values(|v: u8| b64_byte(v) as char) + padding(x.len())
}

/// The first byte of a group: all six bits of `a`, the top two of `b`.
pub open spec fn d0(a: u8, b: u8) -> u8 {
    (a * 4 + b / 16) as u8
}

/// The second byte of a group: the low four bits of `b`, the top four of `c`.
pub open spec fn d1(b: u8, c: u8) -> u8 {
    ((b % 16) * 16 + c / 4) as u8
}

/// The third byte of a group: the low two bits of `c`, all six bits of `d`.
pub open spec fn d2(c: u8, d: u8) -> u8 {
    ((c % 4) * 64 + d) as u8
}

/// The bytes that 6-bit values decode to, four values to three bytes; a trailing group
/// of two or three values yields one or two bytes.
pub open spec fn decode_values(v: Seq<u8>) -> Seq<u8>
    decreases v.len(),
{
    if v.len() >= 4 {
        seq![d0(v[0], v[1]), d1(v[1], v[2]), d2(v[2], v[3])] + decode_values(v.skip(4))
    } else if v.len() == 3 {
        seq![d0(v[0], v[1]), d1(v[1], v[2])]
    } else if v.len() == 2 {
        seq![d0(v[0], v[1])]
    } else {
        Seq::empty()
    }
}

/// ASCII whitespace, as `u8::is_ascii_whitespace` defines it.
pub open spec fn is_ascii_ws(b: u8) -> bool {
    b == 32 || b == 9 || b == 10 || b == 12 || b == 13
}

pub open spec fn strip_ws(s: Seq<u8>) -> Seq<u8>
    decreases s.len(),
{
    if s.len() == 0 {
        s
    } else {
        let rest = strip_ws(s.drop_last());
        if is_ascii_ws(s.last()) { rest } else { rest.push(s.last()) }
    }
}

/// Where the `=` padding starts (the length when there is none).
pub open spec fn padding_start(f: Seq<u8>) -> nat
    decreases f.len(),
{
    if f.len() == 0 {
        0
    } else if f[0] == 61 {
        0
    } else {
        1 + padding_start(f.drop_first())
    }
}

/// At most two `=`, only `=` after the first one, and the amount the data length calls for.
pub open spec fn valid_layout(f: Seq<u8>) -> bool {
    let ps = padding_start(f);
    let pc = f.len() - ps;
    &&& pc <= 2
    &&& forall|j: int| ps <= j < f.len() ==> f[j] == 61
    &&& ps % 4 != 1
    &&& pc > 0 ==> ((ps % 4 == 2 && pc == 2) || (ps % 4 == 3 && pc == 1))
}

/// The bytes a Base64 text decodes to, or `None` when it is not valid Base64.
pub open spec fn spec_decode_base64(s: Seq<u8>) -> Option<Seq<u8>> {
    let f = strip_ws(s);
    let ps = padding_start(f);
    if !valid_layout(f) {
        None
    } else if !(forall|j: int| 0 <= j < ps ==> is_b64(#[trigger] f[j])) {
        None
    } else {
        Some(decode_values(f.take(ps as int).map_values(|b: u8| b64_value(b))))
    }
}

pub fn base64_value(byte: u8) -> (value: Option<u8>)
    ensures
        match value {
            Some(v) => is_b64(byte) && v == b64_value(byte),
            None => !is_b64(byte),
        },
{
    if 65 <= byte && byte <= 90 {
        Some(byte - 65)
    } else if 97 <= byte && byte <= 122 {
        Some(byte - 71)
    } else if 48 <= byte && byte <= 57 {
        Some(byte + 4)
    } else if byte == 43 {
        Some(62)
    } else if byte == 47 {
        Some(63)
    } else {
        None
    }
}

fn alphabet(v: u8) -> (c: char)
    requires
        v < 64,
    ensures
        c == b64_byte(v) as char,
{
    if v < 26 {
        (v + 65) as char
    } else if v < 52 {
        (v + 71) as char
    } else if v < 62 {
        (v - 4) as char
    } else if v == 62 {
        '+'
    } else {
        '/'
    }
}

proof fn lemma_encode_values_bounded(x: Seq<u8>)
    ensures
        forall|i: int| 0 <= i < encode_values(x).len() ==> #[trigger] encode_values(x)[i] < 64,
    decreases x.len(),
{
    if x.len() >= 3 {
        lemma_encode_values_bounded(x.skip(3));
        let head = seq![
            (x[0] / 4) as u8,
            ((x[0] % 4) * 16 + x[1] / 16) as u8,
            ((x[1] % 16) * 4 + x[2] / 64) as u8,
            (x[2] % 64) as u8,
        ];
        assert(encode_values(x) == head + encode_values(x.skip(3)));
        assert forall|i: int| 0 <= i < encode_values(x).len() implies #[trigger] encode_values(x)[i] < 64 by {
            if i >= 4 {
                assert(encode_values(x)[i] == encode_values(x.skip(3))[i - 4]);
            }
        }
    }
}

/// The Base64 text of `value`.
pub fn encode_base64(value: &[u8]) -> (text: String)
    ensures
        text@ == spec_encode_base64(value@),
{
    let ghost x = value@;
    let mut text = String::new();
    let mut i: usize = 0;
    proof {
        lemma_encode_values_bounded(x);
    }
    assert(x.skip(0) =~= x);
    while value.len() - i >= 3
        invariant
            x == value@,
            i <= x.len(),
            i % 3 == 0,
            text@ + encode_values(x.skip(i as int)).map_values(|v: u8| b64_byte(v) as char)
                == encode_values(x).map_values(|v: u8| b64_byte(v) as char),
        decreases value.len() - i,
    {
        let first = value[i];
        let second = value[i + 1];
        let third = value[i + 2];
        let ghost rest = x.skip(i as int);
        assert(rest.skip(3) =~= x.skip(i + 3));
        assert(rest[0] == first && rest[1] == second && rest[2] == third);
        let ghost before = text@;
        text.push(alphabet(first / 4));
        text.push(alphabet((first % 4) * 16 + second / 16));
        text.push(alphabet((second % 16) * 4 + third / 64));
        text.push(alphabet(third % 64));
        let ghost chunk = seq![
            (first / 4) as u8,
            ((first % 4) * 16 + second / 16) as u8,
            ((second % 16) * 4 + third / 64) as u8,
            (third % 64) as u8,
        ];
        assert(encode_values(rest) == chunk + encode_values(x.skip(i + 3)));
        assert(text@ =~= before + chunk.map_values(|v: u8| b64_byte(v) as char));
        assert(encode_values(rest).map_values(|v: u8| b64_byte(v) as char)
            =~= chunk.map_values(|v: u8| b64_byte(v) as char) + encode_values(x.skip(i + 3)).map_values(|v: u8| b64_byte(v) as char));
        i += 3;
    }
    let ghost rest = x.skip(i as int);
    let ghost before = text@;
    if value.len() - i == 1 {
        let first = value[i];
        text.push(alphabet(first / 4));
        text.push(alphabet((first % 4) * 16));
        assert(rest.len() == 1 && rest[0] == first);
        assert(text@ =~= before + encode_values(rest).map_values(|v: u8| b64_byte(v) as char));
        text.push('=');
        text.push('=');
    } else if value.len() - i == 2 {
        let first = value[i];
        let second = value[i + 1];
        text.push(alphabet(first / 4));
        text.push(alphabet((first % 4) * 16 + second / 16));
        text.push(alphabet((second % 16) * 4));
        assert(rest.len() == 2 && rest[0] == first && rest[1] == second);
        assert(text@ =~= before + encode_values(rest).map_values(|v: u8| b64_byte(v) as char));
        text.push('=');
    } else {
        assert(rest.len() == 0);
        assert(encode_values(rest).map_values(|v: u8| b64_byte(v) as char) =~= Seq::<char>::empty());
    }
    assert(text@ =~= spec_encode_base64(x));
    text
}

fn strip_whitespace(bytes: &[u8]) -> (out: Vec<u8>)
    ensures
        out@ == strip_ws(bytes@),
{
    let mut out: Vec<u8> = Vec::new();
    let mut i: usize = 0;
    while i < bytes.len()
        invariant
            i <= bytes.len(),
            out@ == strip_ws(bytes@.take(i as int)),
        decreases bytes.len() - i,
    {
        let b = bytes[i];
        assert(bytes@.take(i + 1).drop_last() =~= bytes@.take(i as int));
        if !(b == 32 || b == 9 || b == 10 || b == 12 || b == 13) {
            out.push(b);
        }
        i += 1;
    }
    assert(bytes@.take(bytes.len() as int) =~= bytes@);
    out
}

proof fn lemma_padding_start(f: Seq<u8>, i: int)
    requires
        0 <= i <= f.len(),
        forall|j: int| 0 <= j < i ==> f[j] != 61,
        i == f.len() || f[i] == 61,
    ensures
        padding_start(f) == i,
    decreases i,
{
    if i > 0 {
        let g = f.drop_first();
        assert forall|j: int| 0 <= j < i - 1 implies g[j] != 61 by {
            assert(g[j] == f[j + 1]);
        }
        lemma_padding_start(g, i - 1);
    }
}

fn find_padding(f: &Vec<u8>) -> (ps: usize)
    ensures
        ps == padding_start(f@),
        ps <= f.len(),
{
    let mut i: usize = 0;
    while i < f.len() && f[i] != 61
        invariant
            i <= f.len(),
            forall|j: int| 0 <= j < i ==> f@[j] != 61,
        decreases f.len() - i,
    {
        i += 1;
    }
    proof {
        lemma_padding_start(f@, i as int);
    }
    i
}

fn layout_ok(f: &Vec<u8>, ps: usize) -> (ok: bool)
    requires
        ps == padding_start(f@),
        ps <= f.len(),
    ensures
        ok == valid_layout(f@),
{
    let pc = f.len() - ps;
    if pc > 2 {
        return false;
    }
    let mut j: usize = ps;
    while j < f.len()
        invariant
            ps <= j <= f.len(),
            ps == padding_start(f@),
            forall|k: int| ps <= k < j ==> f@[k] == 61,
        decreases f.len() - j,
    {
        if f[j] != 61 {
            return false;
        }
        j += 1;
    }
    if ps % 4 == 1 {
        return false;
    }
    if pc > 0 {
        (ps % 4 == 2 && pc == 2) || (ps % 4 == 3 && pc == 1)
    } else {
        true
    }
}

proof fn lemma_decode_values_step(v: Seq<u8>, i: int)
    requires
        0 <= i,
        i + 4 <= v.len(),
    ensures
        decode_values(v.skip(i)) == seq![d0(v[i], v[i + 1]), d1(v[i + 1], v[i + 2]), d2(v[i + 2], v[i + 3])]
            + decode_values(v.skip(i + 4)),
{
    let r = v.skip(i);
    assert(r.skip(4) =~= v.skip(i + 4));
    assert(r[0] == v[i] && r[1] == v[i + 1] && r[2] == v[i + 2] && r[3] == v[i + 3]);
}

fn decode_groups(values: &Vec<u8>) -> (out: Vec<u8>)
    requires
        forall|k: int| 0 <= k < values.len() ==> #[trigger] values@[k] < 64,
    ensures
        out@ == decode_values(values@),
{
    let ghost v = values@;
    let mut out: Vec<u8> = Vec::new();
    let mut i: usize = 0;
    assert(v.skip(0) =~= v);
    while values.len() - i >= 4
        invariant
            v == values@,
            i <= v.len(),
            forall|k: int| 0 <= k < values.len() ==> #[trigger] values@[k] < 64,
            out@ + decode_values(v.skip(i as int)) == decode_values(v),
        decreases values.len() - i,
    {
        let a = values[i];
        let b = values[i + 1];
        let c = values[i + 2];
        let d = values[i + 3];
        proof {
            lemma_decode_values_step(v, i as int);
        }
        let ghost before = out@;
        out.push(a * 4 + b / 16);
        out.push((b % 16) * 16 + c / 4);
        out.push((c % 4) * 64 + d);
        assert(out@ =~= before + seq![d0(a, b), d1(b, c), d2(c, d)]);
        i += 4;
    }
    let ghost rest = v.skip(i as int);
    let ghost before = out@;
    let left = values.len() - i;
    if left == 3 {
        let a = values[i];
        let b = values[i + 1];
        let c = values[i + 2];
        out.push(a * 4 + b / 16);
        out.push((b % 16) * 16 + c / 4);
        assert(rest.len() == 3 && rest[0] == a && rest[1] == b && rest[2] == c);
        assert(out@ =~= before + decode_values(rest));
    } else if left == 2 {
        let a = values[i];
        let b = values[i + 1];
        out.push(a * 4 + b / 16);
        assert(rest.len() == 2 && rest[0] == a && rest[1] == b);
        assert(out@ =~= before + decode_values(rest));
    } else {
        assert(decode_values(rest) =~= Seq::<u8>::empty());
    }
    assert(out@ =~= decode_values(v));
    out
}

/// Decodes Base64 bytes: whitespace is skipped, padding is optional but must be
/// right when present, and any other byte outside the alphabet is an error.
pub fn decode_base64_bytes(bytes: &[u8]) -> (result: Result<Vec<u8>, BunodeError>)
    ensures
        match result {
            Ok(out) => spec_decode_base64(bytes@) == Some(out@),
            Err(e) => spec_decode_base64(bytes@) is None
                && e@ == BunodeErrorView::Usage(UsageErrorView::InvalidDataUrlBase64Payload),
        },
{
    let f = strip_whitespace(bytes);
    let ps = find_padding(&f);
    if !layout_ok(&f, ps) {
        return Err(BunodeError::Usage(CliUsageError::InvalidDataUrlBase64Payload));
    }
    let mut values: Vec<u8> = Vec::new();
    let mut j: usize = 0;
    while j < ps
        invariant
            j <= ps,
            ps <= f.len(),
            f@ == strip_ws(bytes@),
            ps == padding_start(f@),
            valid_layout(f@),
            values@ =~= f@.take(j as int).map_values(|b: u8| b64_value(b)),
            forall|k: int| 0 <= k < j ==> is_b64(#[trigger] f@[k]),
            forall|k: int| 0 <= k < values.len() ==> #[trigger] values@[k] < 64,
        decreases ps - j,
    {
        match base64_value(f[j]) {
            Some(v) => {
                values.push(v);
                assert(f@.take(j + 1).map_values(|b: u8| b64_value(b))
                    =~= f@.take(j as int).map_values(|b: u8| b64_value(b)).push(b64_value(f@[j as int])));
            },
            None => {
                assert(!is_b64(f@[j as int]));
                return Err(BunodeError::Usage(CliUsageError::InvalidDataUrlBase64Payload));
            },
        }
        j += 1;
    }
    Ok(decode_groups(&values))
}

/// Decodes the Base64 text `value` (see [`decode_base64_bytes`]).
pub fn decode_base64(value: &str) -> (result: Result<Vec<u8>, BunodeError>)
    ensures
        match result {
            Ok(out) => spec_decode_base64(value.spec_bytes()) == Some(out@),
            Err(e) => spec_decode_base64(value.spec_bytes()) is None
                && e@ == BunodeErrorView::Usage(UsageErrorView::InvalidDataUrlBase64Payload),
        },
{
    decode_base64_bytes(value.as_bytes())
}

proof fn lemma_encode_values_len(x: Seq<u8>)
    ensures
        encode_values(x).len() == 4 * (x.len() / 3) + (if x.len() % 3 == 0 { 0 } else { x.len() % 3 + 1 }),
    decreases x.len(),
{
    if x.len() >= 3 {
        lemma_encode_values_len(x.skip(3));
    }
}

proof fn lemma_group_bits(a: u8, b: u8, c: u8)
    by (bit_vector)
    ensures
        d0((a / 4) as u8, ((a % 4) * 16 + b / 16) as u8) == a,
        d1(((a % 4) * 16 + b / 16) as u8, ((b % 16) * 4 + c / 64) as u8) == b,
        d2(((b % 16) * 4 + c / 64) as u8, (c % 64) as u8) == c,
        d0((a / 4) as u8, ((a % 4) * 16) as u8) == a,
        d1(((a % 4) * 16 + b / 16) as u8, ((b % 16) * 4) as u8) == b,
{
}

proof fn lemma_decode_encode_values(x: Seq<u8>)
    ensures
        decode_values(encode_values(x)) == x,
    decreases x.len(),
{
    let e = encode_values(x);
    if x.len() >= 3 {
        lemma_decode_encode_values(x.skip(3));
        lemma_group_bits(x[0], x[1], x[2]);
        assert(e.skip(4) =~= encode_values(x.skip(3)));
        assert(x =~= seq![x[0], x[1], x[2]] + x.skip(3));
    } else if x.len() == 2 {
        lemma_group_bits(x[0], x[1], 0);
        assert(x =~= seq![x[0], x[1]]);
    } else if x.len() == 1 {
        lemma_group_bits(x[0], 0, 0);
        assert(x =~= seq![x[0]]);
    }
}

proof fn lemma_strip_ws_none(s: Seq<u8>)
    requires
        forall|i: int| 0 <= i < s.len() ==> !is_ascii_ws(#[trigger] s[i]),
    ensures
        strip_ws(s) == s,
    decreases s.len(),
{
    if s.len() > 0 {
        let r = s.drop_last();
        assert forall|i: int| 0 <= i < r.len() implies !is_ascii_ws(#[trigger] r[i]) by {
            assert(r[i] == s[i]);
        }
        lemma_strip_ws_none(r);
        assert(r.push(s.last()) =~= s);
    }
}

/// Decoding the Base64 text of any bytes gives those bytes back.
pub proof fn lemma_base64_round_trip(x: Seq<u8>)
    ensures
        spec_decode_base64(encode_utf8(spec_encode_base64(x))) == Some(x),
{
    let e = encode_values(x);
    let t = spec_encode_base64(x);
    let p = padding(x.len());
    lemma_encode_values_bounded(x);
    lemma_encode_values_len(x);
    assert(t.len() == e.len() + p.len());
    assert forall|i: int| 0 <= i < t.len() implies
        (if i < e.len() { t[i] == b64_byte(e[i]) as char } else { t[i] == '=' }) by {
        if i >= e.len() {
            assert(t[i] == p[i - e.len()]);
        }
    }
    assert(is_ascii_chars(t));
    is_ascii_chars_encode_utf8(t);
    let b = encode_utf8(t);
    assert forall|i: int| 0 <= i < b.len() implies
        (if i < e.len() { b[i] == b64_byte(e[i]) && is_b64(b[i]) } else { b[i] == 61 })
        && !is_ascii_ws(#[trigger] b[i]) by {
        assert(b[i] == t[i] as u8);
    }
    lemma_strip_ws_none(b);
    assert forall|j: int| 0 <= j < e.len() implies b[j] != 61 by {
        assert(b[j] == b64_byte(e[j]));
    }
    if e.len() < b.len() {
        assert(b[e.len() as int] == 61);
    }
    lemma_padding_start(b, e.len() as int);
    assert(valid_layout(b));
    assert(b.take(e.len() as int).map_values(|c: u8| b64_value(c)) =~= e);
    lemma_decode_encode_values(x);
}

/// A character of the Base64 alphabet: `A`–`Z`, `a`–`z`, `0`–`9`, `+` or `/`.
pub open spec fn is_b64_char(c: char) -> bool {
    ('A' <= c && c <= 'Z') || ('a' <= c && c <= 'z') || ('0' <= c && c <= '9') || c == '+' || c == '/'
}

/// The Base64 text of `n` bytes ends with this many `=`: none, two or one.
pub open spec fn padding_count(n: nat) -> nat {
    if n % 3 == 0 { 0 } else { (3 - n % 3) as nat }
}

/// The Base64 text of any bytes has four characters for every started group of three
/// bytes; all of them are alphabet characters except at most two trailing `=`.
pub proof fn law_base64_text_shape(x: Seq<u8>)
    ensures
        spec_encode_base64(x).len() == 4 * ((x.len() + 2) / 3),
        padding_count(x.len()) <= 2,
        forall|i: int| 0 <= i < spec_encode_base64(x).len() - padding_count(x.len())
            ==> is_b64_char(#[trigger] spec_encode_base64(x)[i]),
        forall|i: int| spec_encode_base64(x).len() - padding_count(x.len()) <= i < spec_encode_base64(x).len()
            ==> #[trigger] spec_encode_base64(x)[i] == '=',
{
    let e = encode_values(x);
    let t = spec_encode_base64(x);
    let p = padding(x.len());
    lemma_encode_values_bounded(x);
    lemma_encode_values_len(x);
    assert(p.len() == padding_count(x.len()));
    assert(t.len() == e.len() + p.len());
    assert forall|i: int| 0 <= i < t.len() - padding_count(x.len()) implies is_b64_char(#[trigger] t[i]) by {
        assert(t[i] == b64_byte(e[i]) as char);
        assert(e[i] < 64);
    }
    assert forall|i: int| t.len() - padding_count(x.len()) <= i < t.len() implies #[trigger] t[i] == '=' by {
        assert(t[i] == p[i - e.len()]);
    }
}

} // verus!
