//! Cover art: the picture's size from its PNG header, and its base64 text.
use vstd::prelude::*;

verus! {

/// A big-endian 32-bit number from four bytes.
pub open spec fn be_u32(a: u8, b: u8, c: u8, d: u8) -> nat {
    a as nat * 16777216 + b as nat * 65536 + c as nat * 256 + d as nat
}

/// The width and height a PNG's header gives: bytes 16 to 19 and 20 to 23, big-endian,
/// when the data is long enough and bytes 12 to 15 read `IHDR`; else zero by zero.
pub open spec fn png_size(data: Seq<u8>) -> (nat, nat) {
    if data.len() >= 24 && data[12] == 73 && data[13] == 72 && data[14] == 68 && data[15] == 82 {
        (be_u32(data[16], data[17], data[18], data[19]), be_u32(data[20], data[21], data[22], data[23]))
    } else {
        (0, 0)
    }
}

/// Four bytes read as a big-endian number.
pub fn from_be_bytes(a: u8, b: u8, c: u8, d: u8) -> (n: u32)
    ensures
        n as nat == be_u32(a, b, c, d),
{
    (a as u32) * 16777216 + (b as u32) * 65536 + (c as u32) * 256 + (d as u32)
}

/// The width and height of a PNG picture, from its header (zero by zero when there is
/// none).
pub fn png_dimensions(data: &[u8]) -> (wh: (u32, u32))
    ensures
        (wh.0 as nat, wh.1 as nat) == png_size(data@),
{
    if data.len() >= 24 && data[12] == 73 && data[13] == 72 && data[14] == 68 && data[15] == 82 {
        let w = from_be_bytes(data[16], data[17], data[18], data[19]);
        let h = from_be_bytes(data[20], data[21], data[22], data[23]);
        (w, h)
    } else {
        (0, 0)
    }
}

/// The character of a base64 digit (`A-Z`, `a-z`, `0-9`, `+`, `/`).
pub open spec fn b64_digit(v: nat) -> char {
    if v < 26 {
        (('A' as nat) + v) as char
    } else if v < 52 {
        (('a' as nat) + v - 26) as char
    } else if v < 62 {
        (('0' as nat) + v - 52) as char
    } else if v == 62 {
        '+'
    } else {
        '/'
    }
}

/// One group of one to three bytes in base64: four characters, `=` filling in for the
/// bytes that are missing.
pub open spec fn b64_group(chunk: Seq<u8>) -> Seq<char> {
    let b0 = chunk[0] as nat;
    let b1 = if chunk.len() > 1 { chunk[1] as nat } else { 0 };
    let b2 = if chunk.len() > 2 { chunk[2] as nat } else { 0 };
    let n = b0 * 65536 + b1 * 256 + b2;
    seq![
        b64_digit(n / 262144),
        b64_digit((n / 4096) % 64),
        if chunk.len() > 1 { b64_digit((n / 64) % 64) } else { '=' },
        if chunk.len() > 2 { b64_digit(n % 64) } else { '=' },
    ]
}

/// Bytes in standard base64 with padding (RFC 4648): each group of three bytes, and
/// the shorter group at the end, as four characters.
pub open spec fn base64_of(data: Seq<u8>) -> Seq<char>
    decreases data.len(),
{
    if data.len() == 0 {
        Seq::empty()
    } else {
        let k = if data.len() < 3 { data.len() as int } else { 3 };
        b64_group(data.take(k)) + base64_of(data.skip(k))
    }
}

/// Base64 text has four characters for every group of up to three bytes, every one of
/// them ASCII, and it is empty exactly when the data is.
pub proof fn lemma_base64_shape(data: Seq<u8>)
    ensures
        base64_of(data).len() == 4 * ((data.len() + 2) / 3),
        forall|i: int| 0 <= i < base64_of(data).len() ==> (#[trigger] base64_of(data)[i] as u32) < 128,
        (base64_of(data).len() == 0) == (data.len() == 0),
    decreases data.len(),
{
    if data.len() > 0 {
        let k = if data.len() < 3 { data.len() as int } else { 3 };
        let rest = data.skip(k);
        lemma_base64_shape(rest);
        let g = b64_group(data.take(k));
        assert forall|v: nat| (#[trigger] b64_digit(v) as u32) < 128 by {
            lemma_b64_digit_ascii(v);
        }
        assert(base64_of(data) == g + base64_of(rest));
        assert forall|i: int| 0 <= i < base64_of(data).len() implies (#[trigger] base64_of(data)[i] as u32) < 128 by {
            if i < 4 {
                assert(base64_of(data)[i] == g[i]);
            } else {
                assert(base64_of(data)[i] == base64_of(rest)[i - 4]);
            }
        }
    }
}

/// Every base64 digit character is ASCII.
proof fn lemma_b64_digit_ascii(v: nat)
    ensures
        (b64_digit(v) as u32) < 128,
{
}

/// `base64::engine::general_purpose::STANDARD.encode`: standard base64 with padding.
/// The contract states the text it gives.
#[verifier::external_body]
pub(crate) fn encode_base64(data: &[u8]) -> (out: String)
    requires
        (data@.len() / 3) * 4 + 4 <= usize::MAX,
    ensures
        out@ == base64_of(data@),
{
    base64::Engine::encode(&base64::engine::general_purpose::STANDARD, data)
}

} // verus!
