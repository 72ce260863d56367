//! Decimal and hexadecimal rendering used by the human-readable error descriptions.
use vstd::prelude::*;

verus! {

/// The upper-case character of a digit below sixteen.
pub open spec fn digit_char(digit: nat) -> char {
    if digit < 10 {
        (48 + digit) as char
    } else {
        (55 + digit) as char
    }
}

/// The decimal representation of `value`, without leading zeros.
pub open spec fn decimal(value: nat) -> Seq<char>
    decreases value,
{
    if value < 10 {
        seq![digit_char(value)]
    } else {
        decimal(value / 10).push(digit_char(value % 10))
    }
}

/// The upper-case hexadecimal representation of `value`, zero-padded to at least `width` digits.
pub open spec fn hexadecimal(value: nat, width: nat) -> Seq<char>
    decreases value + width,
{
    if value < 16 && width <= 1 {
        seq![digit_char(value)]
    } else {
        hexadecimal(value / 16, if width > 0 { (width - 1) as nat } else { 0 }).push(
            digit_char(value % 16),
        )
    }
}

/// The decimal representation of a signed value, with a leading minus sign when negative.
pub open spec fn signed_decimal(value: int) -> Seq<char> {
    if value < 0 {
        seq!['-'] + decimal((-value) as nat)
    } else {
        decimal(value as nat)
    }
}

fn push_digit(text: &mut String, digit: u64)
    requires
        digit < 16,
    ensures
        final(text)@ == old(text)@.push(digit_char(digit as nat)),
{
    match digit {
        0 => {
            proof {
                reveal_strlit("0");
            }
            text.append("0");
        },
        1 => {
            proof {
                reveal_strlit("1");
            }
            text.append("1");
        },
        2 => {
            proof {
                reveal_strlit("2");
            }
            text.append("2");
        },
        3 => {
            proof {
                reveal_strlit("3");
            }
            text.append("3");
        },
        4 => {
            proof {
                reveal_strlit("4");
            }
            text.append("4");
        },
        5 => {
            proof {
                reveal_strlit("5");
            }
            text.append("5");
        },
        6 => {
            proof {
                reveal_strlit("6");
            }
            text.append("6");
        },
        7 => {
            proof {
                reveal_strlit("7");
            }
            text.append("7");
        },
        8 => {
            proof {
                reveal_strlit("8");
            }
            text.append("8");
        },
        9 => {
            proof {
                reveal_strlit("9");
            }
            text.append("9");
        },
        10 => {
            proof {
                reveal_strlit("A");
            }
            text.append("A");
        },
        11 => {
            proof {
                reveal_strlit("B");
            }
            text.append("B");
        },
        12 => {
            proof {
                reveal_strlit("C");
            }
            text.append("C");
        },
        13 => {
            proof {
                reveal_strlit("D");
            }
            text.append("D");
        },
        14 => {
            proof {
                reveal_strlit("E");
            }
            text.append("E");
        },
        15 => {
            proof {
                reveal_strlit("F");
            }
            text.append("F");
        },
        _ => {
            proof {
                reveal_strlit("F");
            }
            text.append("F");
        },
    }
}

/// Appends the decimal representation of `value`.
pub fn push_decimal(text: &mut String, value: u64)
    ensures
        final(text)@ == old(text)@ + decimal(value as nat),
    decreases value,
{
    if value >= 10 {
        push_decimal(text, value / 10);
    }
    push_digit(text, value % 10);
    assert(final(text)@ =~= old(text)@ + decimal(value as nat));
}

/// Appends the decimal representation of a signed value.
pub fn push_signed_decimal(text: &mut String, value: i64)
    ensures
        final(text)@ == old(text)@ + signed_decimal(value as int),
{
    if value < 0 {
        proof {
            reveal_strlit("-");
        }
        text.append("-");
        let magnitude: u64 = if value == i64::MIN {
            0x8000_0000_0000_0000u64
        } else {
            (-value) as u64
        };
        push_decimal(text, magnitude);
        assert(final(text)@ =~= old(text)@ + signed_decimal(value as int));
    } else {
        push_decimal(text, value as u64);
    }
}

/// Appends the upper-case hexadecimal representation of `value`, zero-padded to `width` digits.
pub fn push_hexadecimal(text: &mut String, value: u64, width: u64)
    requires
        width <= 64,
    ensures
        final(text)@ == old(text)@ + hexadecimal(value as nat, width as nat),
    decreases value + width,
{
    if !(value < 16 && width <= 1) {
        push_hexadecimal(text, value / 16, if width > 0 { width - 1 } else { 0 });
    }
    push_digit(text, value % 16);
    assert(final(text)@ =~= old(text)@ + hexadecimal(value as nat, width as nat));
}

/// Appends a string slice.
pub fn push_str(text: &mut String, part: &str)
    ensures
        final(text)@ == old(text)@ + part@,
{
    text.append(part);
}

/// The decimal representation of `value` as a new string.
pub fn decimal_text(value: u64) -> (text: String)
    ensures
        text@ == decimal(value as nat),
{
    let mut text = String::new();
    push_decimal(&mut text, value);
    assert(text@ =~= decimal(value as nat));
    text
}

} // verus!

verus! {

/// `std::str::from_utf8`: accepts exactly the byte sequences that are valid UTF-8, and then yields
/// the characters they encode (here as an owned string).
#[verifier::external_body]
pub(crate) fn utf8_text(bytes: &[u8]) -> (text: Option<String>)
    ensures
        text is Some <==> vstd::utf8::valid_utf8(bytes@),
        text matches Some(t) ==> t@ == vstd::utf8::decode_utf8(bytes@),
{
    match std::str::from_utf8(bytes) {
        Ok(text) => Some(text.to_owned()),
        Err(_) => None,
    }
}

/// The characters whose codes are the given bytes.
pub open spec fn ascii_chars(bytes: Seq<u8>) -> Seq<char> {
    Seq::new(bytes.len(), |i: int| bytes[i] as char)
}

/// Bytes below 0x80 are valid UTF-8 and decode to the characters with those codes.
pub proof fn lemma_ascii_bytes_decode(bytes: Seq<u8>)
    requires
        forall|i: int| 0 <= i < bytes.len() ==> bytes[i] < 0x80,
    ensures
        vstd::utf8::valid_utf8(bytes),
        vstd::utf8::decode_utf8(bytes) == ascii_chars(bytes),
{
    let chars = ascii_chars(bytes);
    assert(vstd::utf8::is_ascii_chars(chars)) by {
        assert forall|i| 0 <= i < chars.len() implies '\0' <= #[trigger] chars[i] <= '\u{7f}' by {
            let b = bytes[i];
            assert(chars[i] == b as char);
        }
    }
    vstd::utf8::is_ascii_chars_encode_utf8(chars);
    assert forall|i| 0 <= i < bytes.len() implies vstd::utf8::encode_utf8(chars)[i] == bytes[i] by {
        assert(chars[i] as u8 == vstd::utf8::encode_utf8(chars)[i]);
        let b = bytes[i];
        assert((b as char) as u8 == b);
    }
    assert(vstd::utf8::encode_utf8(chars) =~= bytes);
    vstd::utf8::encode_utf8_valid_utf8(chars);
    vstd::utf8::encode_utf8_decode_utf8(chars);
}

} // verus!

verus! {

/// Whether two string slices hold the same characters.
pub fn str_eq(left: &str, right: &str) -> (equal: bool)
    ensures
        equal == (left@ == right@),
{
    let length = left.unicode_len();
    if length != right.unicode_len() {
        return false;
    }
    let mut index: usize = 0;
    while index < length
        invariant
            length == left@.len(),
            length == right@.len(),
            index <= length,
            forall|i: int| 0 <= i < index ==> left@[i] == right@[i],
        decreases length - index,
    {
        if left.get_char(index) != right.get_char(index) {
            return false;
        }
        index += 1;
    }
    assert(left@ =~= right@);
    true
}

} // verus!

verus! {

/// Whether a character has the Unicode `White_Space` property (as `char::is_whitespace` tests).
pub open spec fn is_whitespace(c: char) -> bool {
    let code = c as u32;
    (9 <= code <= 13) || code == 32 || code == 0x85 || code == 0xA0 || code == 0x1680 || (0x2000
        <= code <= 0x200A) || code == 0x2028 || code == 0x2029 || code == 0x202F || code == 0x205F
        || code == 0x3000
}

/// Whether a character has the Unicode `White_Space` property.
pub fn whitespace(c: char) -> (result: bool)
    ensures
        result == is_whitespace(c),
{
    let code = c as u32;
    (9 <= code && code <= 13) || code == 32 || code == 0x85 || code == 0xA0 || code == 0x1680 || (
    0x2000 <= code && code <= 0x200A) || code == 0x2028 || code == 0x2029 || code == 0x202F || code
        == 0x205F || code == 0x3000
}

} // verus!
