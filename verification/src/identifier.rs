use vstd::prelude::*;
use vstd::string::StrSliceExecFns;
use bson::oid::ObjectId;

verus! {

/// The hexadecimal digit, in lower case, of a number below sixteen.
pub open spec fn hex_digit(n: int) -> char {
    if n < 10 {
        ((48 + n) as u8) as char
    } else {
        ((87 + n) as u8) as char
    }
}

/// The number that a hexadecimal digit stands for, in either case.
pub open spec fn digit_value(c: char) -> Option<int> {
    if '0' <= c && c <= '9' {
        Some((c as u8) - 48)
    } else if 'a' <= c && c <= 'f' {
        Some((c as u8) - 87)
    } else if 'A' <= c && c <= 'F' {
        Some((c as u8) - 55)
    } else {
        None
    }
}

/// Whether a character is a hexadecimal digit in lower case.
pub open spec fn is_lower_hex(c: char) -> bool {
    ('0' <= c && c <= '9') || ('a' <= c && c <= 'f')
}

/// Bytes written out in hexadecimal: two digits a byte, the high half first,
/// letters in lower case.
pub open spec fn hex_of(bytes: Seq<u8>) -> Seq<char> {
    Seq::new(
        2 * bytes.len(),
        |i: int|
            if i % 2 == 0 {
                hex_digit(bytes[i / 2] as int / 16)
            } else {
                hex_digit(bytes[i / 2] as int % 16)
            },
    )
}

/// The bytes that a text of hexadecimal digits stands for, two digits a byte.
pub open spec fn bytes_of_hex(s: Seq<char>) -> Seq<u8> {
    Seq::new(
        s.len() / 2,
        |i: int| (digit_value(s[2 * i])->0 * 16 + digit_value(s[2 * i + 1])->0) as u8,
    )
}

/// Whether a text can be read as an identifier of the store: twenty-four
/// hexadecimal digits, in either case.
pub open spec fn is_identifier(s: Seq<char>) -> bool {
    &&& s.len() == 24
    &&& forall|i: int| 0 <= i < s.len() ==> digit_value(#[trigger] s[i]) is Some
}

/// Whether a text is an identifier as the store writes it: twenty-four
/// hexadecimal digits, letters in lower case.
pub open spec fn is_canonical(s: Seq<char>) -> bool {
    &&& s.len() == 24
    &&& forall|i: int| 0 <= i < s.len() ==> is_lower_hex(#[trigger] s[i])
}

/// A digit stands for the number that it was written from.
pub proof fn lemma_digit_round_trip(n: int)
    requires
        0 <= n < 16,
    ensures
        digit_value(hex_digit(n)) == Some(n),
        is_lower_hex(hex_digit(n)),
{
}

/// A digit in lower case is written again from the number that it stands
/// for.
pub proof fn lemma_lower_digit_round_trip(c: char)
    requires
        is_lower_hex(c),
    ensures
        digit_value(c) matches Some(n) && 0 <= n < 16 && hex_digit(n) == c,
{
}

/// Bytes are read back from the text that they were written as; that text
/// is an identifier as the store writes it, where the bytes are twelve.
pub proof fn law_bytes_round_trip(bytes: Seq<u8>)
    ensures
        bytes_of_hex(hex_of(bytes)) == bytes,
        bytes.len() == 12 ==> is_canonical(hex_of(bytes)),
        bytes.len() == 12 ==> is_identifier(hex_of(bytes)),
{
    let s = hex_of(bytes);
    assert forall|i: int| 0 <= i < s.len() implies is_lower_hex(#[trigger] s[i]) && digit_value(
        s[i],
    ) is Some by {
        let b = bytes[i / 2] as int;
        lemma_digit_round_trip(b / 16);
        lemma_digit_round_trip(b % 16);
    }
    assert forall|k: int| 0 <= k < bytes.len() implies #[trigger] bytes_of_hex(s)[k] == bytes[k] by {
        let b = bytes[k] as int;
        lemma_digit_round_trip(b / 16);
        lemma_digit_round_trip(b % 16);
        assert((2 * k) % 2 == 0);
        assert((2 * k + 1) % 2 == 1);
        assert((2 * k) / 2 == k);
        assert((2 * k + 1) / 2 == k);
        assert(s[2 * k] == hex_digit(b / 16));
        assert(s[2 * k + 1] == hex_digit(b % 16));
    }
    assert(bytes_of_hex(s) =~= bytes);
}

/// An identifier as the store writes it is written again from the bytes
/// that it stands for.
pub proof fn law_canonical_round_trip(s: Seq<char>)
    requires
        is_canonical(s),
    ensures
        hex_of(bytes_of_hex(s)) == s,
        is_identifier(s),
        bytes_of_hex(s).len() == 12,
{
    let bytes = bytes_of_hex(s);
    assert forall|i: int| 0 <= i < s.len() implies digit_value(#[trigger] s[i]) is Some by {
        lemma_lower_digit_round_trip(s[i]);
    }
    assert forall|i: int| 0 <= i < s.len() implies #[trigger] hex_of(bytes)[i] == s[i] by {
        let k = i / 2;
        lemma_lower_digit_round_trip(s[2 * k]);
        lemma_lower_digit_round_trip(s[2 * k + 1]);
        let hi = digit_value(s[2 * k])->0;
        let lo = digit_value(s[2 * k + 1])->0;
        assert(bytes[k] == (hi * 16 + lo) as u8);
        assert((hi * 16 + lo) / 16 == hi);
        assert((hi * 16 + lo) % 16 == lo);
        if i % 2 == 0 {
            assert(i == 2 * k);
        } else {
            assert(i == 2 * k + 1);
        }
    }
    assert(hex_of(bytes) =~= s);
}

/// `bson::oid::Error`: why `ObjectId::with_string` did not take a text. It is
/// handed on as it comes and never looked into.
#[verifier::external_type_specification]
#[verifier::external_body]
pub struct ExObjectIdError(bson::oid::Error);

/// `bson::oid::ObjectId::with_string`, followed by `ObjectId::bytes`. The
/// text is taken exactly when it is twenty-four hexadecimal digits, in
/// either case; the bytes are those that the digits stand for, two digits a
/// byte.
#[verifier::external_body]
fn object_id_with_string(s: &str) -> (r: Result<[u8; 12], bson::oid::Error>)
    ensures
        r is Ok <==> is_identifier(s@),
        r matches Ok(bytes) ==> bytes@ == bytes_of_hex(s@),
{
    ObjectId::with_string(s).map(|oid| oid.bytes())
}

/// `bson::oid::ObjectId::to_hex`, on the identifier made of the bytes by
/// `ObjectId::with_bytes`. The text is the bytes in hexadecimal, letters in
/// lower case.
#[verifier::external_body]
fn object_id_to_hex(bytes: &[u8; 12]) -> (s: String)
    ensures
        s@ == hex_of(bytes@),
{
    ObjectId::with_bytes(*bytes).to_hex()
}

/// Reads a text as an identifier of the store.
pub fn parse_identifier(s: &str) -> (r: Option<[u8; 12]>)
    ensures
        r is Some <==> is_identifier(s@),
        r matches Some(bytes) ==> bytes@ == bytes_of_hex(s@),
{
    match object_id_with_string(s) {
        Ok(bytes) => Some(bytes),
        Err(_) => None,
    }
}

/// Writes an identifier of the store as the text by which recipes are
/// known.
pub fn identifier_text(bytes: &[u8; 12]) -> (s: String)
    ensures
        s@ == hex_of(bytes@),
        is_canonical(s@),
{
    proof {
        law_bytes_round_trip(bytes@);
    }
    object_id_to_hex(bytes)
}

/// Whether a text is an identifier as the store writes it.
pub fn is_canonical_identifier(s: &str) -> (ok: bool)
    ensures
        ok == is_canonical(s@),
{
    let n: usize = s.unicode_len();
    if n != 24 {
        return false;
    }
    let mut i: usize = 0;
    while i < n
        invariant
            i <= n,
            n == s@.len(),
            forall|j: int| 0 <= j < i ==> is_lower_hex(#[trigger] s@[j]),
        decreases n - i,
    {
        let c: char = s.get_char(i);
        if !(('0' <= c && c <= '9') || ('a' <= c && c <= 'f')) {
            return false;
        }
        i += 1;
    }
    true
}

} // verus!
