//! Hexadecimal text: what it decodes to, and how bytes are written in it.
use vstd::prelude::*;
use vstd::string::*;

verus! {

/// Why a text is not hexadecimal.
#[derive(Clone, Copy, Debug, PartialEq, Eq)]
pub enum HexFault {
    /// A character that is neither a hexadecimal digit nor white space, and where it stands.
    InvalidCharacter { found: char, position: usize },
    /// The digits do not pair up into bytes.
    OddLength,
}

/// White space that may stand anywhere between digits.
pub open spec fn is_blank(c: char) -> bool {
    c == ' ' || c == '\r' || c == '\n' || c == '\t'
}

/// The value of a hexadecimal digit, or -1 for any other character.
pub open spec fn digit_value(c: char) -> int {
    if '0' <= c <= '9' {
        c as int - 48
    } else if 'a' <= c <= 'f' {
        c as int - 87
    } else if 'A' <= c <= 'F' {
        c as int - 55
    } else {
        -1
    }
}

/// The small-letter hexadecimal digit for a value below sixteen.
pub open spec fn digit_char(value: int) -> char {
    if value < 10 {
        (48 + value) as char
    } else {
        (87 + value) as char
    }
}

/// A character that hexadecimal text may not hold.
pub open spec fn is_foreign(c: char) -> bool {
    !is_blank(c) && digit_value(c) < 0
}

/// Where the first foreign character stands; the length of the text if it has none.
pub open spec fn first_foreign(text: Seq<char>) -> int
    decreases text.len(),
{
    if text.len() == 0 {
        0
    } else if is_foreign(text[0]) {
        0
    } else {
        1 + first_foreign(text.drop_first())
    }
}

/// The text without its white space.
pub open spec fn significant(text: Seq<char>) -> Seq<char>
    decreases text.len(),
{
    if text.len() == 0 {
        text
    } else if is_blank(text.last()) {
        significant(text.drop_last())
    } else {
        significant(text.drop_last()).push(text.last())
    }
}

/// The bytes that pairs of digits stand for, the high half first.
pub open spec fn paired(digits: Seq<char>) -> Seq<u8> {
    Seq::new(
        digits.len() / 2,
        |k: int| (16 * digit_value(digits[2 * k]) + digit_value(digits[2 * k + 1])) as u8,
    )
}

/// What a text decodes to: the first foreign character is reported before an
/// odd number of digits, and white space is passed over.
pub open spec fn hex_decoded(text: Seq<char>) -> Result<Seq<u8>, HexFault> {
    let at = first_foreign(text);
    let digits = significant(text);
    if at < text.len() {
        Err(HexFault::InvalidCharacter { found: text[at], position: at as usize })
    } else if digits.len() % 2 != 0 {
        Err(HexFault::OddLength)
    } else {
        Ok(paired(digits))
    }
}

/// The bytes written as small-letter hexadecimal digits, two per byte.
pub open spec fn hex_encoded(bytes: Seq<u8>) -> Seq<char> {
    Seq::new(
        2 * bytes.len(),
        |i: int|
            if i % 2 == 0 {
                digit_char(bytes[i / 2] as int / 16)
            } else {
                digit_char(bytes[i / 2] as int % 16)
            },
    )
}

/// Calls `rustc_hex::FromHex::from_hex` on the text. The contract claims what
/// that function's source shows: it walks the text once, passes over blanks,
/// stops at the first character that is no digit and names it with its
/// offset, pairs the digits into bytes, and refuses an odd number of digits.
#[verifier::external_body]
pub(crate) fn from_hex(text: &str) -> (result: Result<Vec<u8>, HexFault>)
    ensures
        match result {
            Ok(bytes) => hex_decoded(text@) == Ok::<Seq<u8>, HexFault>(bytes@),
            Err(fault) => hex_decoded(text@) == Err::<Seq<u8>, HexFault>(fault),
        },
{
    match rustc_hex::FromHex::from_hex(text) {
        Ok(bytes) => Ok(bytes),
        Err(rustc_hex::FromHexError::InvalidHexCharacter(found, position)) => Err(
            HexFault::InvalidCharacter { found, position },
        ),
        Err(rustc_hex::FromHexError::InvalidHexLength) => Err(HexFault::OddLength),
    }
}

fn digit_text(value: u8) -> (digit: &'static str)
    requires
        value < 16,
    ensures
        digit@ == seq![digit_char(value as int)],
{
    let digit = match value {
        0 => "0",
        1 => "1",
        2 => "2",
        3 => "3",
        4 => "4",
        5 => "5",
        6 => "6",
        7 => "7",
        8 => "8",
        9 => "9",
        10 => "a",
        11 => "b",
        12 => "c",
        13 => "d",
        14 => "e",
        _ => "f",
    };
    proof {
        reveal_strlit("0");
        reveal_strlit("1");
        reveal_strlit("2");
        reveal_strlit("3");
        reveal_strlit("4");
        reveal_strlit("5");
        reveal_strlit("6");
        reveal_strlit("7");
        reveal_strlit("8");
        reveal_strlit("9");
        reveal_strlit("a");
        reveal_strlit("b");
        reveal_strlit("c");
        reveal_strlit("d");
        reveal_strlit("e");
        reveal_strlit("f");
        assert(digit@ =~= seq![digit_char(value as int)]);
    }
    digit
}

/// Writes bytes as small-letter hexadecimal digits, two per byte.
pub fn encode(bytes: &[u8]) -> (text: String)
    ensures
        text@ == hex_encoded(bytes@),
{
    let mut text = String::new();
    let mut i: usize = 0;
    while i < bytes.len()
        invariant
            i <= bytes@.len(),
            text@ == hex_encoded(bytes@.take(i as int)),
        decreases bytes@.len() - i,
    {
        let byte: u8 = bytes[i];
        text.append(digit_text(byte / 16));
        text.append(digit_text(byte % 16));
        proof {
            assert(text@ =~= hex_encoded(bytes@.take(i as int + 1)));
        }
        i = i + 1;
    }
    proof {
        assert(bytes@.take(bytes@.len() as int) =~= bytes@);
    }
    text
}

proof fn lemma_digit_kept(value: int)
    requires
        0 <= value < 16,
    ensures
        digit_value(digit_char(value)) == value,
        !is_blank(digit_char(value)),
        !is_foreign(digit_char(value)),
{
}

proof fn lemma_nothing_foreign(text: Seq<char>)
    requires
        forall|i: int| 0 <= i < text.len() ==> !is_foreign(text[i]),
    ensures
        first_foreign(text) == text.len(),
    decreases text.len(),
{
    if text.len() > 0 {
        let rest = text.drop_first();
        assert forall|i: int| 0 <= i < rest.len() implies !is_foreign(rest[i]) by {
            assert(rest[i] == text[i + 1]);
        }
        lemma_nothing_foreign(rest);
    }
}

proof fn lemma_nothing_blank(text: Seq<char>)
    requires
        forall|i: int| 0 <= i < text.len() ==> !is_blank(text[i]),
    ensures
        significant(text) == text,
    decreases text.len(),
{
    if text.len() > 0 {
        let front = text.drop_last();
        assert forall|i: int| 0 <= i < front.len() implies !is_blank(front[i]) by {
            assert(front[i] == text[i]);
        }
        lemma_nothing_blank(front);
        assert(front.push(text.last()) =~= text);
    }
}

/// Bytes written in hexadecimal decode to themselves.
pub proof fn lemma_round_trip(bytes: Seq<u8>)
    ensures
        hex_decoded(hex_encoded(bytes)) == Ok::<Seq<u8>, HexFault>(bytes),
{
    let text = hex_encoded(bytes);
    assert forall|i: int| 0 <= i < text.len() implies !is_foreign(text[i]) && !is_blank(
        text[i],
    ) by {
        let byte = bytes[i / 2] as int;
        if i % 2 == 0 {
            lemma_digit_kept(byte / 16);
        } else {
            lemma_digit_kept(byte % 16);
        }
    }
    lemma_nothing_foreign(text);
    lemma_nothing_blank(text);
    assert forall|k: int| 0 <= k < bytes.len() implies paired(text)[k] == bytes[k] by {
        let byte = bytes[k] as int;
        lemma_digit_kept(byte / 16);
        lemma_digit_kept(byte % 16);
        assert(text[2 * k] == digit_char(byte / 16));
        assert(text[2 * k + 1] == digit_char(byte % 16));
    }
    assert(paired(text) =~= bytes);
}

proof fn lemma_first_foreign_is_early(text: Seq<char>, at: int)
    requires
        0 <= at < text.len(),
        is_foreign(text[at]),
    ensures
        0 <= first_foreign(text) <= at,
    decreases text.len(),
{
    if !is_foreign(text[0]) {
        let rest = text.drop_first();
        assert(rest[at - 1] == text[at]);
        lemma_first_foreign_is_early(rest, at - 1);
    }
}

/// A text that holds a character which is neither a digit nor white space
/// decodes to nothing, wherever the character stands.
pub proof fn lemma_foreign_is_refused(text: Seq<char>, at: int)
    requires
        0 <= at < text.len(),
        is_foreign(text[at]),
    ensures
        hex_decoded(text) is Err,
{
    lemma_first_foreign_is_early(text, at);
}

} // verus!
