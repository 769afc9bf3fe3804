//! The test image of the vision check, inlined as a `data:` URL.
use vstd::prelude::*;
use base64::Engine;

verus! {

/// The character of a six-bit value in the standard base64 alphabet
/// (`A`-`Z`, `a`-`z`, `0`-`9`, `+`, `/`).
pub open spec fn b64_char(v: int) -> char {
    if v < 26 {
        (('A' as int) + v) as char
    } else if v < 52 {
        (('a' as int) + (v - 26)) as char
    } else if v < 62 {
        (('0' as int) + (v - 52)) as char
    } else if v == 62 {
        '+'
    } else {
        '/'
    }
}

/// The six-bit value of a character of the standard base64 alphabet.
pub open spec fn b64_value(c: char) -> int {
    if 'A' <= c <= 'Z' {
        c as int - 'A' as int
    } else if 'a' <= c <= 'z' {
        c as int - 'a' as int + 26
    } else if '0' <= c <= '9' {
        c as int - '0' as int + 52
    } else if c == '+' {
        62
    } else {
        63
    }
}

/// The standard base64 encoding (RFC 4648, section 4: standard alphabet,
/// `=` padding) of `bytes`: each group of three bytes becomes four
/// characters, and a last group of one or two bytes is padded with `=`.
pub open spec fn base64_standard(b: Seq<u8>) -> Seq<char>
    decreases b.len(),
{
    if b.len() == 0 {
        Seq::empty()
    } else if b.len() == 1 {
        seq![b64_char(b[0] as int / 4), b64_char((b[0] as int % 4) * 16), '=', '=']
    } else if b.len() == 2 {
        seq![
            b64_char(b[0] as int / 4),
            b64_char((b[0] as int % 4) * 16 + b[1] as int / 16),
            b64_char((b[1] as int % 16) * 4),
            '=',
        ]
    } else {
        seq![
            b64_char(b[0] as int / 4),
            b64_char((b[0] as int % 4) * 16 + b[1] as int / 16),
            b64_char((b[1] as int % 16) * 4 + b[2] as int / 64),
            b64_char(b[2] as int % 64),
        ] + base64_standard(b.skip(3))
    }
}

/// The bytes that a padded standard base64 text stands for.
pub open spec fn base64_decode(t: Seq<char>) -> Seq<u8>
    decreases t.len(),
{
    if t.len() < 4 {
        Seq::empty()
    } else {
        let v0 = b64_value(t[0]);
        let v1 = b64_value(t[1]);
        let v2 = b64_value(t[2]);
        let v3 = b64_value(t[3]);
        let x0 = (v0 * 4 + v1 / 16) as u8;
        if t[2] == '=' {
            seq![x0]
        } else {
            let x1 = ((v1 % 16) * 16 + v2 / 4) as u8;
            if t[3] == '=' {
                seq![x0, x1]
            } else {
                seq![x0, x1, ((v2 % 4) * 64 + v3) as u8] + base64_decode(t.skip(4))
            }
        }
    }
}

/// A six-bit value's character is in the alphabet, is not the padding
/// character, and reads back as the value.
proof fn lemma_b64_char(v: int)
    requires
        0 <= v < 64,
    ensures
        b64_value(b64_char(v)) == v,
        b64_char(v) != '=',
        is_base64_char(b64_char(v)),
{
}

/// The four characters of a group of three bytes read back as those bytes.
proof fn lemma_group(a: u8, b: u8, c: u8)
    ensures
        ((a as int / 4) * 4 + ((a as int % 4) * 16 + b as int / 16) / 16) as u8 == a,
        ((((a as int % 4) * 16 + b as int / 16) % 16) * 16 + ((b as int % 16) * 4 + c as int / 64) / 4) as u8 == b,
        ((((b as int % 16) * 4 + c as int / 64) % 4) * 64 + c as int % 64) as u8 == c,
        0 <= (a as int % 4) * 16 + b as int / 16 < 64,
        0 <= (b as int % 16) * 4 + c as int / 64 < 64,
{
    assert(((a as int / 4) * 4 + ((a as int % 4) * 16 + b as int / 16) / 16) == a) by (nonlinear_arith);
    assert(((((a as int % 4) * 16 + b as int / 16) % 16) * 16 + ((b as int % 16) * 4 + c as int / 64) / 4) == b) by (nonlinear_arith);
    assert(((((b as int % 16) * 4 + c as int / 64) % 4) * 64 + c as int % 64) == c) by (nonlinear_arith);
    assert(0 <= (a as int % 4) * 16 + b as int / 16 < 64) by (nonlinear_arith);
    assert(0 <= (b as int % 16) * 4 + c as int / 64 < 64) by (nonlinear_arith);
}

/// Standard base64 text is made of the alphabet and `=`, has four characters
/// for every three bytes or part of three, and decodes back to the bytes.
pub proof fn lemma_base64_roundtrip(b: Seq<u8>)
    ensures
        base64_standard(b).len() == spec_encoded_len(b.len()),
        forall|i: int| 0 <= i < base64_standard(b).len() ==> is_base64_char(#[trigger] base64_standard(b)[i]),
        base64_decode(base64_standard(b)) == b,
    decreases b.len(),
{
    let t = base64_standard(b);
    if b.len() == 0 {
    } else if b.len() == 1 {
        lemma_group(b[0], 0, 0);
        lemma_b64_char(b[0] as int / 4);
        lemma_b64_char((b[0] as int % 4) * 16);
        assert(base64_decode(t) =~= b);
    } else if b.len() == 2 {
        lemma_group(b[0], b[1], 0);
        lemma_b64_char(b[0] as int / 4);
        lemma_b64_char((b[0] as int % 4) * 16 + b[1] as int / 16);
        lemma_b64_char((b[1] as int % 16) * 4);
        assert(base64_decode(t) =~= b);
    } else {
        let rest = b.skip(3);
        lemma_base64_roundtrip(rest);
        lemma_group(b[0], b[1], b[2]);
        lemma_b64_char(b[0] as int / 4);
        lemma_b64_char((b[0] as int % 4) * 16 + b[1] as int / 16);
        lemma_b64_char((b[1] as int % 16) * 4 + b[2] as int / 64);
        lemma_b64_char(b[2] as int % 64);
        assert(t.skip(4) =~= base64_standard(rest));
        assert(b =~= seq![b[0], b[1], b[2]] + rest);
        assert(base64_decode(t) =~= b);
    }
}

/// The length of the padded base64 encoding of `n` bytes.
pub open spec fn spec_encoded_len(n: nat) -> nat {
    4 * ((n + 2) / 3)
}

/// A character of the standard base64 alphabet, or the padding character.
pub open spec fn is_base64_char(c: char) -> bool {
    ('A' <= c <= 'Z') || ('a' <= c <= 'z') || ('0' <= c <= '9') || c == '+' || c == '/' || c == '='
}

/// `base64::Engine::encode` on the `STANDARD` engine: the padded standard
/// base64 text of the bytes (RFC 4648, standard alphabet, `=` padding). The
/// engine panics when the text's length does not fit in `usize`, so such
/// inputs are left out.
#[verifier::external_body]
fn encode_standard(bytes: &[u8]) -> (res: String)
    requires
        spec_encoded_len(bytes@.len()) <= usize::MAX,
    ensures
        res@ == base64_standard(bytes@),
{
    base64::engine::general_purpose::STANDARD.encode(bytes)
}

/// Whether the base64 text of `n` bytes has a length that fits in `usize`.
pub fn encoded_len_fits(n: usize) -> (res: bool)
    ensures
        res == (spec_encoded_len(n as nat) <= usize::MAX),
{
    let groups: usize = n / 3 + if n % 3 > 0 { 1 } else { 0 };
    proof {
        assert(groups == (n + 2) / 3);
    }
    groups <= usize::MAX / 4
}

/// The base64 text of the test image.
pub fn test_image_base64(png: &[u8]) -> (res: String)
    requires
        spec_encoded_len(png@.len()) <= usize::MAX,
    ensures
        res@ == base64_standard(png@),
        res@.len() == spec_encoded_len(png@.len()),
        forall|i: int| 0 <= i < res@.len() ==> is_base64_char(#[trigger] res@[i]),
        base64_decode(res@) == png@,
{
    let res = encode_standard(png);
    proof {
        lemma_base64_roundtrip(png@);
    }
    res
}

/// The `data:` URL of a PNG image: the media type and the image in base64.
pub open spec fn spec_png_data_url(png: Seq<u8>) -> Seq<char> {
    "data:image/png;base64,"@ + base64_standard(png)
}

/// The test image as a `data:` URL for the vision request.
pub fn png_data_url(png: &[u8]) -> (res: String)
    requires
        spec_encoded_len(png@.len()) <= usize::MAX,
    ensures
        res@ == spec_png_data_url(png@),
        res@.len() == 22 + spec_encoded_len(png@.len()),
{
    let encoded = test_image_base64(png);
    let mut url = "data:image/png;base64,".to_owned();
    url.append(encoded.as_str());
    proof {
        reveal_strlit("data:image/png;base64,");
    }
    url
}

/// The test image's URL is the `data:` prefix for a base64 PNG followed by
/// text that decodes back to the image.
pub proof fn law_png_data_url(png: Seq<u8>)
    ensures
        spec_png_data_url(png).subrange(0, 22) == "data:image/png;base64,"@,
        base64_decode(spec_png_data_url(png).subrange(22, spec_png_data_url(png).len() as int)) == png,
{
    reveal_strlit("data:image/png;base64,");
    lemma_base64_roundtrip(png);
    assert(spec_png_data_url(png).subrange(0, 22) =~= "data:image/png;base64,"@);
    assert(spec_png_data_url(png).subrange(22, spec_png_data_url(png).len() as int) =~= base64_standard(png));
}

} // verus!
