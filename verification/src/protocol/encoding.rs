//! Image payloads: Base64 text and `data:` URLs.
use vstd::prelude::*;

use crate::text::{ascii_lowercase, char_from_ascii, push_str, str_eq, to_ascii_lowercase};

verus! {

/// The Base64 digit for a six-bit value (`A`-`Z`, `a`-`z`, `0`-`9`, `+`, `/`).
pub open spec fn b64_digit(i: int) -> char {
    if i < 26 {
        (65 + i) as char
    } else if i < 52 {
        (97 + (i - 26)) as char
    } else if i < 62 {
        (48 + (i - 52)) as char
    } else if i == 62 {
        '+'
    } else {
        '/'
    }
}

/// Standard Base64 with `=` padding: each group of three bytes gives four digits;
/// a last group of one or two bytes is padded with `=` to four characters.
pub open spec fn base64_of(b: Seq<u8>) -> Seq<char>
    decreases b.len(),
{
    if b.len() == 0 {
        Seq::empty()
    } else if b.len() == 1 {
        seq![b64_digit(b[0] as int / 4), b64_digit((b[0] as int % 4) * 16), '=', '=']
    } else if b.len() == 2 {
        seq![
            b64_digit(b[0] as int / 4),
            b64_digit((b[0] as int % 4) * 16 + b[1] as int / 16),
            b64_digit((b[1] as int % 16) * 4),
            '=',
        ]
    } else {
        seq![
            b64_digit(b[0] as int / 4),
            b64_digit((b[0] as int % 4) * 16 + b[1] as int / 16),
            b64_digit((b[1] as int % 16) * 4 + b[2] as int / 64),
            b64_digit(b[2] as int % 64),
        ] + base64_of(b.skip(3))
    }
}

fn digit(i: u8) -> (r: char)
    requires
        i < 64,
    ensures
        r == b64_digit(i as int),
{
    if i < 26 {
        char_from_ascii(65 + i as u32)
    } else if i < 52 {
        char_from_ascii(97 + (i - 26) as u32)
    } else if i < 62 {
        char_from_ascii(48 + (i - 52) as u32)
    } else if i == 62 {
        '+'
    } else {
        '/'
    }
}

/// Standard Base64 encoding of `bytes`.
pub fn base64_encode(bytes: &[u8]) -> (r: String)
    ensures
        r@ == base64_of(bytes@),
{
    let n = bytes.len();
    let mut out = String::new();
    let mut i: usize = 0;
    assert(bytes@.skip(0) =~= bytes@);
    while i < n
        invariant
            n == bytes@.len(),
            0 <= i <= n,
            base64_of(bytes@) == out@ + base64_of(bytes@.skip(i as int)),
        decreases n - i,
    {
        let rest = n - i;
        let ghost tail = bytes@.skip(i as int);
        let b0 = bytes[i];
        assert(tail[0] == b0);
        out.push(digit(b0 / 4));
        if rest == 1 {
            out.push(digit((b0 % 4) * 16));
            out.push('=');
            out.push('=');
            i = n;
        } else {
            let b1 = bytes[i + 1];
            assert(tail[1] == b1);
            out.push(digit((b0 % 4) * 16 + b1 / 16));
            if rest == 2 {
                out.push(digit((b1 % 16) * 4));
                out.push('=');
                i = n;
            } else {
                let b2 = bytes[i + 2];
                assert(tail[2] == b2);
                out.push(digit((b1 % 16) * 4 + b2 / 64));
                out.push(digit(b2 % 64));
                assert(tail.skip(3) =~= bytes@.skip(i + 3));
                i = i + 3;
            }
        }
        assert(bytes@.skip(i as int).len() == 0 ==> base64_of(bytes@.skip(i as int)) =~= Seq::<
            char,
        >::empty());
    }
    assert(base64_of(bytes@.skip(i as int)) =~= Seq::<char>::empty());
    assert(out@ + Seq::<char>::empty() =~= out@);
    out
}

/// The MIME type an image file's extension names: `jpg`/`jpeg`, `gif` and `svg`
/// (in any letter case) are recognized; anything else, or no extension, is PNG.
pub open spec fn image_mime(extension: Option<Seq<char>>) -> Seq<char> {
    match extension {
        Some(e) => if ascii_lowercase(e) == "jpg"@ || ascii_lowercase(e) == "jpeg"@ {
            "image/jpeg"@
        } else if ascii_lowercase(e) == "gif"@ {
            "image/gif"@
        } else if ascii_lowercase(e) == "svg"@ {
            "image/svg+xml"@
        } else {
            "image/png"@
        },
        None => "image/png"@,
    }
}

pub open spec fn opt_str_view(o: Option<&str>) -> Option<Seq<char>> {
    match o {
        Some(s) => Some(s@),
        None => None,
    }
}

/// The MIME type of an image file with the given extension.
pub fn mime_for_extension(extension: Option<&str>) -> (r: &'static str)
    ensures
        r@ == image_mime(opt_str_view(extension)),
{
    match extension {
        Some(e) => {
            let lower = to_ascii_lowercase(e);
            if str_eq(lower.as_str(), "jpg") || str_eq(lower.as_str(), "jpeg") {
                "image/jpeg"
            } else if str_eq(lower.as_str(), "gif") {
                "image/gif"
            } else if str_eq(lower.as_str(), "svg") {
                "image/svg+xml"
            } else {
                "image/png"
            }
        },
        None => "image/png",
    }
}

/// `data:{mime};base64,{bytes in Base64}`.
pub open spec fn data_url_text(mime: Seq<char>, bytes: Seq<u8>) -> Seq<char> {
    "data:"@ + mime + ";base64,"@ + base64_of(bytes)
}

/// A `data:` URL carrying `bytes` as the given MIME type.
pub fn data_url(mime: &str, bytes: &[u8]) -> (r: String)
    ensures
        r@ == data_url_text(mime@, bytes@),
{
    let mut out = String::new();
    push_str(&mut out, "data:");
    push_str(&mut out, mime);
    push_str(&mut out, ";base64,");
    let encoded = base64_encode(bytes);
    push_str(&mut out, encoded.as_str());
    out
}

} // verus!
