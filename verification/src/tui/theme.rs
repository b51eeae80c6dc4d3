//! Small helpers of the terminal interface's look: whether the terminal draws
//! pictures, and base64 for pictures sent to it.
use vstd::prelude::*;
use crate::gui::cover::{b64_digit, b64_group, base64_of};
use crate::text::str_eq;

verus! {

/// Whether the terminal draws pictures sent to it, judged from the `TERM` and
/// `TERM_PROGRAM` settings (empty when unset): only kitty does.
pub fn supports_graphics_protocol(term: &str, term_program: &str) -> (b: bool)
    ensures
        b == (term@ == "xterm-kitty"@ || term_program@ == "kitty"@),
{
    str_eq(term, "xterm-kitty") || str_eq(term_program, "kitty")
}

/// The character of base64 digit `v`.
fn b64_digit_exec(v: u32) -> (c: char)
    requires
        v < 64,
    ensures
        c == b64_digit(v as nat),
{
    if v < 26 {
        char_add('A', v)
    } else if v < 52 {
        char_add('a', v - 26)
    } else if v < 62 {
        char_add('0', v - 52)
    } else if v == 62 {
        '+'
    } else {
        '/'
    }
}

/// The character `k` places after `base`, within an ASCII run of letters or digits.
fn char_add(base: char, k: u32) -> (c: char)
    requires
        (base == 'A' && k < 26) || (base == 'a' && k < 26) || (base == '0' && k < 10),
    ensures
        c == ((base as nat) + k) as char,
{
    let table: [char; 26] = if base == 'A' {
        ['A', 'B', 'C', 'D', 'E', 'F', 'G', 'H', 'I', 'J', 'K', 'L', 'M', 'N', 'O', 'P', 'Q', 'R', 'S', 'T', 'U', 'V', 'W', 'X', 'Y', 'Z']
    } else if base == 'a' {
        ['a', 'b', 'c', 'd', 'e', 'f', 'g', 'h', 'i', 'j', 'k', 'l', 'm', 'n', 'o', 'p', 'q', 'r', 's', 't', 'u', 'v', 'w', 'x', 'y', 'z']
    } else {
        ['0', '1', '2', '3', '4', '5', '6', '7', '8', '9', '0', '0', '0', '0', '0', '0', '0', '0', '0', '0', '0', '0', '0', '0', '0', '0']
    };
    table[k as usize]
}

/// Bytes in standard base64 with padding.
pub fn base64_encode(data: &[u8]) -> (out: String)
    ensures
        out@ == base64_of(data@),
{
    let mut out = String::new();
    let mut i: usize = 0;
    assert(data@.skip(0) =~= data@);
    while i < data.len()
        invariant
            i <= data@.len(),
            out@ + base64_of(data@.skip(i as int)) == base64_of(data@),
        decreases data@.len() - i,
    {
        let left = data.len() - i;
        let k: usize = if left < 3 { left } else { 3 };
        let b0 = data[i] as u32;
        let b1 = if k > 1 { data[i + 1] as u32 } else { 0 };
        let b2 = if k > 2 { data[i + 2] as u32 } else { 0 };
        let n = b0 * 65536 + b1 * 256 + b2;
        let ghost rest = data@.skip(i as int);
        let ghost chunk = rest.take(k as int);
        assert(chunk[0] == data@[i as int]);
        assert(k > 1 ==> chunk[1] == data@[i + 1]);
        assert(k > 2 ==> chunk[2] == data@[i + 2]);
        let ghost before = out@;
        let c0 = b64_digit_exec(n / 262144);
        let c1 = b64_digit_exec((n / 4096) % 64);
        let c2 = if k > 1 { b64_digit_exec((n / 64) % 64) } else { '=' };
        let c3 = if k > 2 { b64_digit_exec(n % 64) } else { '=' };
        crate::text::push_char(&mut out, c0);
        crate::text::push_char(&mut out, c1);
        crate::text::push_char(&mut out, c2);
        crate::text::push_char(&mut out, c3);
        assert(out@ =~= before + b64_group(chunk));
        assert(rest.skip(k as int) =~= data@.skip(i + k));
        i = i + k;
    }
    assert(data@.skip(i as int) =~= Seq::<u8>::empty());
    assert(out@ + Seq::<char>::empty() =~= out@);
    out
}


/// A box `percent_x` percent as wide as `(x, y, w, h)` and `height` high (at most as high
/// as the area), centered in it: `(x, y, width, height)`.
pub open spec fn centered(percent_x: nat, height: nat, x: nat, y: nat, w: nat, h: nat) -> (nat, nat, nat, nat) {
    let bw = w * percent_x / 100;
    (
        (x + (if w >= bw { w - bw } else { 0 }) / 2) as nat,
        (y + (if h >= height { h - height } else { 0 }) / 2) as nat,
        bw,
        if height < h { height } else { h },
    )
}

/// A box centered in an area, for pop-ups.
pub fn centered_rect(percent_x: u16, height: u16, x: u16, y: u16, w: u16, h: u16) -> (r: (u16, u16, u16, u16))
    requires
        w * percent_x <= u16::MAX,
        x + w / 2 <= u16::MAX,
        y + h / 2 <= u16::MAX,
    ensures
        (r.0 as nat, r.1 as nat, r.2 as nat, r.3 as nat) == centered(percent_x as nat, height as nat, x as nat, y as nat, w as nat, h as nat),
{
    let bw = w * percent_x / 100;
    let rx = x + w.saturating_sub(bw) / 2;
    let ry = y + h.saturating_sub(height) / 2;
    let rh = if height < h { height } else { h };
    (rx, ry, bw, rh)
}

} // verus!
