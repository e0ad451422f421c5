//! Rendering of the identifiers of process and library images.
//!
//! A resolved entry names an image by 32 hexadecimal digits, or by nothing at
//! all.  A row shows the digits in five groups of 8, 4, 4, 4 and 12, joined
//! by hyphens.

use vstd::prelude::*;
use vstd::string::*;

verus! {

/// Whether `c` is one of `0`-`9`, `a`-`f`, `A`-`F`.
pub open spec fn is_hex_digit(c: char) -> bool {
    ||| '0' <= c <= '9'
    ||| 'a' <= c <= 'f'
    ||| 'A' <= c <= 'F'
}

/// Whether `s` is 32 hexadecimal digits.
pub open spec fn is_uuid_digits(s: Seq<char>) -> bool {
    &&& s.len() == 32
    &&& forall|i: int| 0 <= i < 32 ==> is_hex_digit(#[trigger] s[i])
}

/// Whether `s` is a hyphenated identifier: 36 characters, a hyphen at the
/// places 8, 13, 18 and 23, a hexadecimal digit at every other.
pub open spec fn is_hyphenated_uuid(s: Seq<char>) -> bool {
    &&& s.len() == 36
    &&& forall|i: int|
        0 <= i < 36 ==> if i == 8 || i == 13 || i == 18 || i == 23 {
            #[trigger] s[i] == '-'
        } else {
            is_hex_digit(s[i])
        }
}

/// The characters of `s` in groups of 8, 4, 4, 4 and the rest, joined by
/// hyphens.
pub open spec fn hyphenated(s: Seq<char>) -> Seq<char> {
    s.subrange(0, 8) + seq!['-'] + s.subrange(8, 12) + seq!['-'] + s.subrange(12, 16) + seq!['-']
        + s.subrange(16, 20) + seq!['-'] + s.subrange(20, s.len() as int)
}

/// What `render_uuid` makes of `raw`: nothing of nothing, the hyphenated form
/// of 32 hexadecimal digits, and no rendering of anything else.
pub open spec fn rendered_uuid(raw: Seq<char>) -> Option<Seq<char>> {
    if raw.len() == 0 {
        Some(Seq::empty())
    } else if is_uuid_digits(raw) {
        Some(hyphenated(raw))
    } else {
        None
    }
}

/// The hyphenated form of 32 hexadecimal digits is a hyphenated identifier,
/// and it holds the digits in their order: taking the hyphens out gives them
/// back.
pub proof fn law_rendering_is_canonical(raw: Seq<char>)
    requires
        is_uuid_digits(raw),
    ensures
        is_hyphenated_uuid(hyphenated(raw)),
        hyphenated(raw).subrange(0, 8) + hyphenated(raw).subrange(9, 13) + hyphenated(
            raw,
        ).subrange(14, 18) + hyphenated(raw).subrange(19, 23) + hyphenated(raw).subrange(24, 36)
            =~= raw,
{
    let h = hyphenated(raw);
    assert(h.len() == 36);
    assert forall|i: int| 0 <= i < 36 implies if i == 8 || i == 13 || i == 18 || i == 23 {
        #[trigger] h[i] == '-'
    } else {
        is_hex_digit(h[i])
    } by {
        if i < 8 {
            assert(h[i] == raw[i]);
        } else if i == 8 {
        } else if i < 13 {
            assert(h[i] == raw[i - 1]);
        } else if i == 13 {
        } else if i < 18 {
            assert(h[i] == raw[i - 2]);
        } else if i == 18 {
        } else if i < 23 {
            assert(h[i] == raw[i - 3]);
        } else if i == 23 {
        } else {
            assert(h[i] == raw[i - 4]);
        }
    }
}

/// Whether the byte is an ASCII hexadecimal digit.
fn is_hex_byte(b: u8) -> (hex: bool)
    ensures
        hex == is_hex_digit(b as char),
{
    (b >= 0x30 && b <= 0x39) || (b >= 0x61 && b <= 0x66) || (b >= 0x41 && b <= 0x46)
}

/// Whether `raw` is 32 hexadecimal digits.
pub fn is_uuid_text(raw: &str) -> (valid: bool)
    ensures
        valid == is_uuid_digits(raw@),
{
    if !raw.is_ascii() {
        proof {
            if is_uuid_digits(raw@) {
                assert forall|i: int| 0 <= i < raw@.len() implies '\0' <= #[trigger] raw@[i]
                    <= '\u{7f}' by {
                    assert(is_hex_digit(raw@[i]));
                }
            }
        }
        return false;
    }
    proof {
        is_ascii_spec_bytes(raw);
    }
    if raw.as_bytes().len() != 32 {
        return false;
    }
    let mut i: usize = 0;
    while i < 32
        invariant
            i <= 32,
            raw@.len() == 32,
            is_ascii(raw),
            forall|k: int| 0 <= k < i ==> is_hex_digit(#[trigger] raw@[k]),
        decreases 32 - i,
    {
        let b = raw.get_ascii(i);
        assert(b as char == raw@[i as int]);
        if !is_hex_byte(b) {
            return false;
        }
        i += 1;
    }
    true
}

/// Renders the identifier of an image for a row.
///
/// An empty identifier stays empty.  32 hexadecimal digits come out in the
/// hyphenated form, with their case unchanged.  Anything else has no
/// rendering: it is never cut into groups.
pub fn render_uuid(raw: &str) -> (out: Option<String>)
    ensures
        out is Some <==> raw@.len() == 0 || is_uuid_digits(raw@),
        match out {
            Some(text) => Some(text@) == rendered_uuid(raw@),
            None => rendered_uuid(raw@) is None,
        },
        out matches Some(text) ==> if raw@.len() == 0 {
            text@.len() == 0
        } else {
            is_hyphenated_uuid(text@)
        },
{
    if raw.is_empty() {
        return Some(String::new());
    }
    if !is_uuid_text(raw) {
        return None;
    }
    proof {
        reveal_strlit("-");
        law_rendering_is_canonical(raw@);
        assert forall|i: int| 0 <= i < raw@.len() implies '\0' <= #[trigger] raw@[i]
            <= '\u{7f}' by {
            assert(is_hex_digit(raw@[i]));
        }
    }
    let mut text = String::from_str(raw.substring_ascii(0, 8));
    text.append("-");
    text.append(raw.substring_ascii(8, 12));
    text.append("-");
    text.append(raw.substring_ascii(12, 16));
    text.append("-");
    text.append(raw.substring_ascii(16, 20));
    text.append("-");
    text.append(raw.substring_ascii(20, 32));
    assert("-"@ =~= seq!['-']);
    Some(text)
}

} // verus!
