use base64::Engine;
use vstd::prelude::*;

verus! {

/// The character of the standard base64 alphabet for a 6-bit value.
pub open spec fn base64_symbol(x: int) -> u8 {
    if x < 26 {
        (65 + x) as u8
    } else if x < 52 {
        (97 + x - 26) as u8
    } else if x < 62 {
        (48 + x - 52) as u8
    } else if x == 62 {
        43u8
    } else {
        47u8
    }
}

/// Standard base64 (RFC 4648, alphabet `A-Z a-z 0-9 + /`) with `=` padding,
/// as ASCII bytes.
pub open spec fn base64_encode(v: Seq<u8>) -> Seq<u8>
    decreases v.len(),
{
    if v.len() == 0 {
        seq![]
    } else if v.len() == 1 {
        seq![base64_symbol((v[0] as int) / 4), base64_symbol(((v[0] as int) % 4) * 16), 61u8, 61u8]
    } else if v.len() == 2 {
        seq![
            base64_symbol((v[0] as int) / 4),
            base64_symbol(((v[0] as int) % 4) * 16 + (v[1] as int) / 16),
            base64_symbol(((v[1] as int) % 16) * 4),
            61u8,
        ]
    } else {
        seq![
            base64_symbol((v[0] as int) / 4),
            base64_symbol(((v[0] as int) % 4) * 16 + (v[1] as int) / 16),
            base64_symbol(((v[1] as int) % 16) * 4 + (v[2] as int) / 64),
            base64_symbol((v[2] as int) % 64),
        ] + base64_encode(v.skip(3))
    }
}

/// Every byte of a base64 encoding is an ASCII character.
pub proof fn lemma_base64_encode_ascii(v: Seq<u8>)
    ensures
        forall|i: int| 0 <= i < base64_encode(v).len() ==> #[trigger] base64_encode(v)[i] < 128,
    decreases v.len(),
{
    if v.len() > 2 {
        lemma_base64_encode_ascii(v.skip(3));
        let head = seq![
            base64_symbol((v[0] as int) / 4),
            base64_symbol(((v[0] as int) % 4) * 16 + (v[1] as int) / 16),
            base64_symbol(((v[1] as int) % 16) * 4 + (v[2] as int) / 64),
            base64_symbol((v[2] as int) % 64),
        ];
        assert forall|i: int| 0 <= i < base64_encode(v).len() implies #[trigger] base64_encode(v)[i] < 128 by {
            if i >= 4 {
                assert(base64_encode(v)[i] == base64_encode(v.skip(3))[i - 4]);
            } else {
                assert(base64_encode(v)[i] == head[i]);
            }
        }
    }
}

/// The byte string whose standard encoding is `s`, if there is one (there is
/// at most one, by `lemma_base64_encode_injective`).
pub open spec fn base64_decode(s: Seq<u8>) -> Option<Seq<u8>> {
    if exists|v: Seq<u8>| #[trigger] base64_encode(v) == s {
        Some(choose|v: Seq<u8>| #[trigger] base64_encode(v) == s)
    } else {
        None
    }
}

proof fn lemma_base64_symbol(x: int, y: int)
    requires
        0 <= x < 64,
        0 <= y < 64,
    ensures
        base64_symbol(x) != 61,
        base64_symbol(x) == base64_symbol(y) ==> x == y,
{
}

/// An encoding is empty exactly when the input is, and holds at least four
/// characters otherwise.
proof fn lemma_base64_encode_len(v: Seq<u8>)
    ensures
        v.len() == 0 <==> base64_encode(v).len() == 0,
        v.len() > 0 ==> base64_encode(v).len() >= 4,
{
}

/// The first four characters of a nonempty encoding.
proof fn lemma_base64_encode_head(v: Seq<u8>)
    requires
        v.len() > 0,
    ensures
        base64_encode(v)[0] == base64_symbol((v[0] as int) / 4),
        v.len() == 1 ==> base64_encode(v)[1] == base64_symbol(((v[0] as int) % 4) * 16)
            && base64_encode(v)[2] == 61 && base64_encode(v)[3] == 61,
        v.len() == 2 ==> base64_encode(v)[1] == base64_symbol(
            ((v[0] as int) % 4) * 16 + (v[1] as int) / 16,
        ) && base64_encode(v)[2] == base64_symbol(((v[1] as int) % 16) * 4) && base64_encode(v)[3]
            == 61,
        v.len() >= 3 ==> base64_encode(v)[1] == base64_symbol(
            ((v[0] as int) % 4) * 16 + (v[1] as int) / 16,
        ) && base64_encode(v)[2] == base64_symbol(((v[1] as int) % 16) * 4 + (v[2] as int) / 64)
            && base64_encode(v)[3] == base64_symbol((v[2] as int) % 64),
{
}

/// Different byte strings have different standard encodings.
pub proof fn lemma_base64_encode_injective(a: Seq<u8>, b: Seq<u8>)
    requires
        base64_encode(a) == base64_encode(b),
    ensures
        a == b,
    decreases a.len(),
{
    let e = base64_encode(a);
    lemma_base64_encode_len(a);
    lemma_base64_encode_len(b);
    if a.len() == 0 {
        assert(a =~= b);
        return;
    }
    lemma_base64_encode_head(a);
    lemma_base64_encode_head(b);
    let a0 = a[0] as int;
    let b0 = b[0] as int;
    lemma_base64_symbol(a0 / 4, b0 / 4);
    assert(a0 / 4 == b0 / 4);
    if a.len() == 1 {
        if b.len() >= 2 {
            let b1 = b[1] as int;
            lemma_base64_symbol(((b1 % 16) * 4), 0);
            if b.len() >= 3 {
                lemma_base64_symbol((b1 % 16) * 4 + (b[2] as int) / 64, 0);
            }
        }
        assert(b.len() == 1);
        lemma_base64_symbol((a0 % 4) * 16, (b0 % 4) * 16);
        assert(a0 == b0);
        assert(a =~= b);
        return;
    }
    let a1 = a[1] as int;
    if a.len() == 2 {
        lemma_base64_symbol((a1 % 16) * 4, 0);
        assert(b.len() != 1);
        if b.len() >= 3 {
            lemma_base64_symbol(b[2] as int % 64, 0);
        }
        assert(b.len() == 2);
        let b1 = b[1] as int;
        lemma_base64_symbol((a0 % 4) * 16 + a1 / 16, (b0 % 4) * 16 + b1 / 16);
        lemma_base64_symbol((a1 % 16) * 4, (b1 % 16) * 4);
        assert(a0 == b0);
        assert(a1 == b1);
        assert(a =~= b);
        return;
    }
    let a2 = a[2] as int;
    lemma_base64_symbol((a1 % 16) * 4 + a2 / 64, 0);
    lemma_base64_symbol(a2 % 64, 0);
    assert(b.len() != 1);
    assert(b.len() != 2);
    let b1 = b[1] as int;
    let b2 = b[2] as int;
    lemma_base64_symbol((a0 % 4) * 16 + a1 / 16, (b0 % 4) * 16 + b1 / 16);
    lemma_base64_symbol((a1 % 16) * 4 + a2 / 64, (b1 % 16) * 4 + b2 / 64);
    lemma_base64_symbol(a2 % 64, b2 % 64);
    assert(a0 == b0);
    assert(a1 == b1);
    assert(a2 == b2);
    assert(base64_encode(a.skip(3)) =~= e.skip(4));
    assert(base64_encode(b.skip(3)) =~= e.skip(4));
    lemma_base64_encode_injective(a.skip(3), b.skip(3));
    assert(a =~= b.take(3) + b.skip(3));
    assert(a =~= b);
}

/// Decoding an encoding gives back what was encoded.
pub proof fn lemma_base64_decode_encode(v: Seq<u8>)
    ensures
        base64_decode(base64_encode(v)) == Some(v),
{
    let e = base64_encode(v);
    assert(exists|w: Seq<u8>| #[trigger] base64_encode(w) == e);
    let w = choose|w: Seq<u8>| #[trigger] base64_encode(w) == e;
    lemma_base64_encode_injective(v, w);
}

/// How many `=` end the standard encoding of `n` bytes.
pub open spec fn base64_pad_count(n: nat) -> nat {
    if n % 3 == 1 {
        2
    } else if n % 3 == 2 {
        1
    } else {
        0
    }
}

/// A character of the standard alphabet: `A-Z`, `a-z`, `0-9`, `+` or `/`.
pub open spec fn is_base64_symbol(b: u8) -> bool {
    (65 <= b <= 90) || (97 <= b <= 122) || (48 <= b <= 57) || b == 43 || b == 47
}

/// A standard encoding is a whole number of four-character groups: alphabet
/// characters followed by the `=` padding that the input length calls for.
pub proof fn lemma_base64_encode_shape(v: Seq<u8>)
    ensures
        base64_encode(v).len() == 4 * ((v.len() + 2) / 3),
        base64_encode(v).len() >= base64_pad_count(v.len()),
        forall|i: int|
            0 <= i < base64_encode(v).len() - base64_pad_count(v.len()) ==> is_base64_symbol(
                #[trigger] base64_encode(v)[i],
            ),
        forall|i: int|
            base64_encode(v).len() - base64_pad_count(v.len()) <= i < base64_encode(v).len()
                ==> #[trigger] base64_encode(v)[i] == 61,
    decreases v.len(),
{
    let e = base64_encode(v);
    if v.len() == 0 {
        return;
    }
    lemma_base64_encode_head(v);
    let a0 = v[0] as int;
    assert(0 <= a0 / 4 < 64);
    assert(0 <= (a0 % 4) * 16 < 64);
    if v.len() == 1 {
        assert(e.len() == 4);
        return;
    }
    let a1 = v[1] as int;
    assert(0 <= (a0 % 4) * 16 + a1 / 16 < 64);
    assert(0 <= (a1 % 16) * 4 < 64);
    if v.len() == 2 {
        assert(e.len() == 4);
        return;
    }
    let a2 = v[2] as int;
    assert(0 <= (a1 % 16) * 4 + a2 / 64 < 64);
    assert(0 <= a2 % 64 < 64);
    let rest = v.skip(3);
    lemma_base64_encode_shape(rest);
    let er = base64_encode(rest);
    assert(e.len() == 4 + er.len());
    assert(base64_pad_count(v.len()) == base64_pad_count(rest.len()));
    assert forall|i: int| 4 <= i < e.len() implies e[i] == er[i - 4] by {}
}

/// Encodes bytes with the base64 crate's `STANDARD` engine
/// (`Engine::encode`). Trusted: the result is the padded standard encoding
/// above, read as ASCII characters. The crate panics when the encoded length
/// overflows `usize`; `requires` leaves those inputs out.
#[verifier::external_body]
pub(crate) fn base64_standard_encode(data: &[u8]) -> (s: String)
    requires
        data@.len() <= usize::MAX / 2,
    ensures
        s@ == crate::text::ascii_chars(base64_encode(data@)),
{
    base64::engine::general_purpose::STANDARD.encode(data)
}

/// The message of the error that the base64 crate's `STANDARD` engine
/// reports for an input it refuses (the `Display` of its `DecodeError`).
pub uninterp spec fn base64_decode_error_text(input: Seq<u8>) -> Seq<char>;

/// Decodes with the base64 crate's `STANDARD` engine (`Engine::decode`),
/// which requires canonical padding and rejects nonzero trailing bits; an
/// error is handed on as its message. Trusted: it succeeds exactly on the
/// inputs that are the standard encoding of some byte string, and then
/// returns that byte string.
#[verifier::external_body]
fn base64_standard_decode(input: &[u8]) -> (res: Result<Vec<u8>, String>)
    ensures
        res matches Ok(v) ==> base64_encode(v@) == input@,
        res is Err ==> forall|v: Seq<u8>| base64_encode(v) != input@,
        res matches Err(t) ==> t@ == base64_decode_error_text(input@),
{
    match base64::engine::general_purpose::STANDARD.decode(input) {
        Ok(v) => Ok(v),
        Err(e) => Err(e.to_string()),
    }
}

/// Standard base64 decoding: succeeds exactly on the standard encodings and
/// gives back what was encoded; otherwise hands on the engine's message.
pub fn decode_base64(input: &[u8]) -> (res: Result<Vec<u8>, String>)
    ensures
        res is Ok <==> base64_decode(input@) is Some,
        res matches Ok(v) ==> base64_decode(input@) == Some(v@),
        res matches Err(t) ==> t@ == base64_decode_error_text(input@),
{
    let r = base64_standard_decode(input);
    proof {
        if let Ok(v) = &r {
            assert(base64_encode(v@) == input@);
            let w = choose|w: Seq<u8>| #[trigger] base64_encode(w) == input@;
            lemma_base64_encode_injective(v@, w);
        }
    }
    r
}

} // verus!
