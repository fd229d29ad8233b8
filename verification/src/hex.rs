//! Lower-case hexadecimal text for byte strings.
//!
//! Digests and the numeric fields of a session token travel as text. The
//! encoding is the plain one: two digits per byte, high nibble first,
//! `0`-`9` and `a`-`f`. Decoding accepts exactly what encoding produces, so
//! the two are inverse to each other.

use vstd::prelude::*;
use vstd::string::*;

verus! {

/// The digit for a nibble.
pub open spec fn digit_of(nibble: int) -> char {
    if nibble == 0 {
        '0'
    } else if nibble == 1 {
        '1'
    } else if nibble == 2 {
        '2'
    } else if nibble == 3 {
        '3'
    } else if nibble == 4 {
        '4'
    } else if nibble == 5 {
        '5'
    } else if nibble == 6 {
        '6'
    } else if nibble == 7 {
        '7'
    } else if nibble == 8 {
        '8'
    } else if nibble == 9 {
        '9'
    } else if nibble == 10 {
        'a'
    } else if nibble == 11 {
        'b'
    } else if nibble == 12 {
        'c'
    } else if nibble == 13 {
        'd'
    } else if nibble == 14 {
        'e'
    } else {
        'f'
    }
}

/// The nibble a digit stands for, if it is one of the sixteen digits.
pub open spec fn value_of(c: char) -> Option<int> {
    if '0' <= c <= '9' {
        Some(c as int - '0' as int)
    } else if 'a' <= c <= 'f' {
        Some(c as int - 'a' as int + 10)
    } else {
        None
    }
}

/// Whether every character is one of the sixteen digits.
pub open spec fn all_digits(text: Seq<char>) -> bool {
    forall|i: int| 0 <= i < text.len() ==> (#[trigger] value_of(text[i])) is Some
}

/// The text of a byte string: two digits per byte, high nibble first.
pub open spec fn encoded(bytes: Seq<u8>) -> Seq<char> {
    Seq::new(
        2 * bytes.len(),
        |i: int|
            if i % 2 == 0 {
                digit_of(bytes[i / 2] as int / 16)
            } else {
                digit_of(bytes[i / 2] as int % 16)
            },
    )
}

/// The byte string a text stands for: `Some` exactly for an even number of
/// digits.
pub open spec fn decoded(text: Seq<char>) -> Option<Seq<u8>> {
    if text.len() % 2 == 0 && all_digits(text) {
        Some(
            Seq::new(
                text.len() / 2,
                |i: int| (16 * value_of(text[2 * i]).unwrap() + value_of(text[2 * i + 1]).unwrap()) as u8,
            ),
        )
    } else {
        None
    }
}

/// A digit's value is the nibble it was made from.
pub proof fn lemma_digit_value(nibble: int)
    requires
        0 <= nibble < 16,
    ensures
        value_of(digit_of(nibble)) == Some(nibble),
{
}

/// A digit is made from its own value.
pub proof fn lemma_value_digit(c: char)
    requires
        value_of(c) is Some,
    ensures
        0 <= value_of(c).unwrap() < 16,
        digit_of(value_of(c).unwrap()) == c,
{
}

/// Decoding undoes encoding.
pub proof fn lemma_decode_encode(bytes: Seq<u8>)
    ensures
        decoded(encoded(bytes)) == Some(bytes),
{
    let text = encoded(bytes);
    assert forall|i: int| 0 <= i < text.len() implies (#[trigger] value_of(text[i])) is Some by {
        if i % 2 == 0 {
            lemma_digit_value(bytes[i / 2] as int / 16);
        } else {
            lemma_digit_value(bytes[i / 2] as int % 16);
        }
    }
    let back = decoded(text).unwrap();
    assert forall|i: int| 0 <= i < bytes.len() implies back[i] == bytes[i] by {
        lemma_digit_value(bytes[i] as int / 16);
        lemma_digit_value(bytes[i] as int % 16);
        assert(text[2 * i] == digit_of(bytes[i] as int / 16));
        assert(text[2 * i + 1] == digit_of(bytes[i] as int % 16));
    }
    assert(back =~= bytes);
}

/// Encoding undoes decoding: a text that decodes is the encoding of what
/// it decodes to.
pub proof fn lemma_encode_decode(text: Seq<char>)
    requires
        decoded(text) is Some,
    ensures
        encoded(decoded(text).unwrap()) == text,
{
    let bytes = decoded(text).unwrap();
    let again = encoded(bytes);
    assert forall|i: int| 0 <= i < text.len() implies again[i] == text[i] by {
        let k = i / 2;
        assert(value_of(text[2 * k]) is Some);
        assert(value_of(text[2 * k + 1]) is Some);
        lemma_value_digit(text[2 * k]);
        lemma_value_digit(text[2 * k + 1]);
    }
    assert(again =~= text);
}

/// Two byte strings with the same text are the same.
pub proof fn lemma_encoded_injective(a: Seq<u8>, b: Seq<u8>)
    requires
        encoded(a) == encoded(b),
    ensures
        a == b,
{
    lemma_decode_encode(a);
    lemma_decode_encode(b);
}

/// The one-character text of a nibble's digit.
fn digit_text(nibble: u8) -> (t: &'static str)
    requires
        nibble < 16,
    ensures
        t@ == seq![digit_of(nibble as int)],
{
    proof {
        reveal_strlit("0");
        reveal_strlit("1");
        reveal_strlit("2");
        reveal_strlit("3");
        reveal_strlit("4");
        reveal_strlit("5");
        reveal_strlit("6");
        reveal_strlit("7");
        reveal_strlit("8");
        reveal_strlit("9");
        reveal_strlit("a");
        reveal_strlit("b");
        reveal_strlit("c");
        reveal_strlit("d");
        reveal_strlit("e");
        reveal_strlit("f");
    }
    let t = match nibble {
        0 => "0",
        1 => "1",
        2 => "2",
        3 => "3",
        4 => "4",
        5 => "5",
        6 => "6",
        7 => "7",
        8 => "8",
        9 => "9",
        10 => "a",
        11 => "b",
        12 => "c",
        13 => "d",
        14 => "e",
        _ => "f",
    };
    assert(t@ =~= seq![digit_of(nibble as int)]);
    t
}

/// Writes a byte string as text.
pub fn encode(bytes: &[u8]) -> (text: String)
    ensures
        text@ == encoded(bytes@),
{
    let mut text = String::new();
    let mut i: usize = 0;
    while i < bytes.len()
        invariant
            i <= bytes.len(),
            text@.len() == 2 * i,
            forall|k: int| 0 <= k < 2 * i ==> text@[k] == #[trigger] encoded(bytes@)[k],
        decreases bytes.len() - i,
    {
        let b = bytes[i];
        let ghost before = text@;
        text.append(digit_text(b / 16));
        text.append(digit_text(b % 16));
        assert(text@ =~= before.push(digit_of(b as int / 16)).push(digit_of(b as int % 16)));
        assert(encoded(bytes@)[2 * i] == digit_of(b as int / 16));
        assert(encoded(bytes@)[2 * i + 1] == digit_of(b as int % 16));
        i += 1;
    }
    assert(text@ =~= encoded(bytes@));
    text
}

/// The value of an ASCII byte read as a digit.
fn nibble_of(b: u8) -> (v: Option<u8>)
    ensures
        b < 128 ==> (v is Some <==> value_of(b as char) is Some),
        b < 128 && v is Some ==> v.unwrap() as int == value_of(b as char).unwrap(),
        b >= 128 ==> v is None,
{
    if 48 <= b && b <= 57 {
        Some(b - 48)
    } else if 97 <= b && b <= 102 {
        Some(b - 97 + 10)
    } else {
        None
    }
}

/// Reads a text back into the byte string it stands for.
pub fn decode(text: &str) -> (bytes: Option<Vec<u8>>)
    ensures
        bytes is Some <==> decoded(text@) is Some,
        bytes is Some ==> bytes.unwrap()@ == decoded(text@).unwrap(),
{
    if !text.is_ascii() {
        proof {
            if all_digits(text@) {
                assert forall|i: int| 0 <= i < text@.len() implies '\0' <= #[trigger] text@[i]
                    <= '\u{7f}' by {
                    assert(value_of(text@[i]) is Some);
                }
            }
        }
        return None;
    }
    let n: usize = text.unicode_len();
    if n % 2 != 0 {
        return None;
    }
    let mut bytes: Vec<u8> = Vec::new();
    let mut i: usize = 0;
    while i < n / 2
        invariant
            is_ascii(text),
            n == text@.len(),
            n % 2 == 0,
            i <= n / 2,
            bytes@.len() == i,
            forall|k: int| 0 <= k < 2 * i ==> (#[trigger] value_of(text@[k])) is Some,
            forall|k: int|
                0 <= k < i ==> (#[trigger] bytes@[k]) as int == 16 * value_of(
                    text@[2 * k],
                ).unwrap() + value_of(text@[2 * k + 1]).unwrap(),
        decreases n / 2 - i,
    {
        let hi_byte = text.get_ascii(2 * i);
        let lo_byte = text.get_ascii(2 * i + 1);
        let ghost hi_char = text@[2 * i as int];
        let ghost lo_char = text@[2 * i + 1];
        assert(hi_byte < 128 && hi_byte as char == hi_char);
        assert(lo_byte < 128 && lo_byte as char == lo_char);
        let hi = nibble_of(hi_byte);
        let lo = nibble_of(lo_byte);
        match (hi, lo) {
            (Some(h), Some(l)) => {
                bytes.push(h * 16 + l);
            },
            _ => {
                assert(!all_digits(text@));
                return None;
            },
        }
        i += 1;
    }
    assert(all_digits(text@));
    assert(bytes@ =~= decoded(text@).unwrap());
    Some(bytes)
}

} // verus!
