//! Request identifiers: 128-bit UUIDs, their text form, and how they are made.

use vstd::prelude::*;

verus! {

/// `uuid::Error`, of which nothing is known.
#[verifier::external_type_specification]
#[verifier::external_body]
pub struct ExUuidError(uuid::Error);

/// The bits that tell the version and the variant of a UUID.
pub const VERSION_MASK: u128 = 0x0000_0000_0000_f000_c000_0000_0000_0000u128;

/// What those bits hold in a random (version 4) UUID.
pub const VERSION_RANDOM: u128 = 0x0000_0000_0000_4000_8000_0000_0000_0000u128;

/// The lower-case hexadecimal digit for a value below 16.
pub open spec fn hex_char(d: u128) -> char {
    seq!['0', '1', '2', '3', '4', '5', '6', '7', '8', '9', 'a', 'b', 'c', 'd', 'e', 'f'][d as int]
}

/// The `k`-th hexadecimal digit of `v`, counted from the most significant one.
pub open spec fn hex_digit_at(v: u128, k: int) -> u128 {
    (v >> ((4 * (31 - k)) as u128)) & 0xf
}

/// Whether the `i`-th character of the hyphenated form is a hyphen.
pub open spec fn is_hyphen_slot(i: int) -> bool {
    i == 8 || i == 13 || i == 18 || i == 23
}

/// Which hexadecimal digit the `i`-th character of the hyphenated form holds.
pub open spec fn digit_slot(i: int) -> int {
    if i < 8 {
        i
    } else if i < 13 {
        i - 1
    } else if i < 18 {
        i - 2
    } else if i < 23 {
        i - 3
    } else {
        i - 4
    }
}

/// The hyphenated form of a UUID: 32 lower-case hexadecimal digits in groups
/// of 8, 4, 4, 4 and 12.
pub open spec fn uuid_text(v: u128) -> Seq<char> {
    Seq::new(
        36,
        |i: int|
            if is_hyphen_slot(i) {
                '-'
            } else {
                hex_char(hex_digit_at(v, digit_slot(i)))
            },
    )
}

/// The UUID that a text spells in one of the forms that the UUID reader
/// accepts; `None` where it spells none.
pub uninterp spec fn uuid_parsed(text: Seq<char>) -> Option<u128>;

/// The identifier that a text spells. A text in hyphenated form spells the
/// identifier that is printed so.
pub open spec fn request_id_of(text: Seq<char>) -> Option<RequestId> {
    if exists|v: u128| uuid_text(v) == text {
        Some(RequestId { value: choose|v: u128| uuid_text(v) == text })
    } else {
        match uuid_parsed(text) {
            Some(v) => Some(RequestId { value: v }),
            None => None,
        }
    }
}

/// Different digits are written with different characters.
pub proof fn lemma_hex_char_injective(x: u128, y: u128)
    requires
        x < 16,
        y < 16,
        hex_char(x) == hex_char(y),
    ensures
        x == y,
{
    let digits = seq![
        '0',
        '1',
        '2',
        '3',
        '4',
        '5',
        '6',
        '7',
        '8',
        '9',
        'a',
        'b',
        'c',
        'd',
        'e',
        'f',
    ];
    assert(forall|i: int, j: int| 0 <= i < j < 16 ==> digits[i] != digits[j]);
}

/// Two UUIDs with the same hyphenated form agree in the digit that a given
/// place of the form holds.
proof fn lemma_same_digit(a: u128, b: u128, i: int)
    requires
        uuid_text(a) == uuid_text(b),
        0 <= i < 36,
        !is_hyphen_slot(i),
    ensures
        hex_digit_at(a, digit_slot(i)) == hex_digit_at(b, digit_slot(i)),
{
    let k = digit_slot(i);
    let x = hex_digit_at(a, k);
    let y = hex_digit_at(b, k);
    let amount = (4 * (31 - k)) as u128;
    assert(x < 16 && y < 16) by {
        assert((a >> amount) & 0xf < 16) by (bit_vector);
        assert((b >> amount) & 0xf < 16) by (bit_vector);
    }
    assert(uuid_text(a)[i] == hex_char(x));
    assert(uuid_text(b)[i] == hex_char(y));
    lemma_hex_char_injective(x, y);
}

/// Different UUIDs have different hyphenated forms.
pub proof fn lemma_uuid_text_injective(a: u128, b: u128)
    requires
        uuid_text(a) == uuid_text(b),
    ensures
        a == b,
{
    lemma_same_digit(a, b, 0);
    lemma_same_digit(a, b, 1);
    lemma_same_digit(a, b, 2);
    lemma_same_digit(a, b, 3);
    lemma_same_digit(a, b, 4);
    lemma_same_digit(a, b, 5);
    lemma_same_digit(a, b, 6);
    lemma_same_digit(a, b, 7);
    lemma_same_digit(a, b, 9);
    lemma_same_digit(a, b, 10);
    lemma_same_digit(a, b, 11);
    lemma_same_digit(a, b, 12);
    lemma_same_digit(a, b, 14);
    lemma_same_digit(a, b, 15);
    lemma_same_digit(a, b, 16);
    lemma_same_digit(a, b, 17);
    lemma_same_digit(a, b, 19);
    lemma_same_digit(a, b, 20);
    lemma_same_digit(a, b, 21);
    lemma_same_digit(a, b, 22);
    lemma_same_digit(a, b, 24);
    lemma_same_digit(a, b, 25);
    lemma_same_digit(a, b, 26);
    lemma_same_digit(a, b, 27);
    lemma_same_digit(a, b, 28);
    lemma_same_digit(a, b, 29);
    lemma_same_digit(a, b, 30);
    lemma_same_digit(a, b, 31);
    lemma_same_digit(a, b, 32);
    lemma_same_digit(a, b, 33);
    lemma_same_digit(a, b, 34);
    lemma_same_digit(a, b, 35);
    assert(a == b) by (bit_vector)
        requires
            (a >> 124) & 0xf == (b >> 124) & 0xf,
            (a >> 120) & 0xf == (b >> 120) & 0xf,
            (a >> 116) & 0xf == (b >> 116) & 0xf,
            (a >> 112) & 0xf == (b >> 112) & 0xf,
            (a >> 108) & 0xf == (b >> 108) & 0xf,
            (a >> 104) & 0xf == (b >> 104) & 0xf,
            (a >> 100) & 0xf == (b >> 100) & 0xf,
            (a >> 96) & 0xf == (b >> 96) & 0xf,
            (a >> 92) & 0xf == (b >> 92) & 0xf,
            (a >> 88) & 0xf == (b >> 88) & 0xf,
            (a >> 84) & 0xf == (b >> 84) & 0xf,
            (a >> 80) & 0xf == (b >> 80) & 0xf,
            (a >> 76) & 0xf == (b >> 76) & 0xf,
            (a >> 72) & 0xf == (b >> 72) & 0xf,
            (a >> 68) & 0xf == (b >> 68) & 0xf,
            (a >> 64) & 0xf == (b >> 64) & 0xf,
            (a >> 60) & 0xf == (b >> 60) & 0xf,
            (a >> 56) & 0xf == (b >> 56) & 0xf,
            (a >> 52) & 0xf == (b >> 52) & 0xf,
            (a >> 48) & 0xf == (b >> 48) & 0xf,
            (a >> 44) & 0xf == (b >> 44) & 0xf,
            (a >> 40) & 0xf == (b >> 40) & 0xf,
            (a >> 36) & 0xf == (b >> 36) & 0xf,
            (a >> 32) & 0xf == (b >> 32) & 0xf,
            (a >> 28) & 0xf == (b >> 28) & 0xf,
            (a >> 24) & 0xf == (b >> 24) & 0xf,
            (a >> 20) & 0xf == (b >> 20) & 0xf,
            (a >> 16) & 0xf == (b >> 16) & 0xf,
            (a >> 12) & 0xf == (b >> 12) & 0xf,
            (a >> 8) & 0xf == (b >> 8) & 0xf,
            (a >> 4) & 0xf == (b >> 4) & 0xf,
            (a >> 0) & 0xf == (b >> 0) & 0xf,
    ;
}

/// The hyphenated form of an identifier spells that identifier.
pub proof fn lemma_request_id_round_trip(id: RequestId)
    ensures
        request_id_of(uuid_text(id.value)) == Some(id),
{
    let text = uuid_text(id.value);
    let found = choose|v: u128| uuid_text(v) == text;
    lemma_uuid_text_injective(found, id.value);
}

/// `uuid::Uuid::new_v4`, as a number: whatever was drawn, the version and
/// variant bits are those of a random UUID.
#[verifier::external_body]
fn random_uuid() -> (v: u128)
    ensures
        v & VERSION_MASK == VERSION_RANDOM,
{
    uuid::Uuid::new_v4().as_u128()
}

/// `uuid::Uuid::parse_str`, as a number: the UUID that the text spells. The
/// hyphenated form of a UUID is read back as that UUID.
#[verifier::external_body]
fn parse_uuid(text: &str) -> (r: Result<u128, uuid::Error>)
    ensures
        match r {
            Ok(v) => uuid_parsed(text@) == Some(v),
            Err(_) => uuid_parsed(text@) is None,
        },
        forall|v: u128| #[trigger] uuid_text(v) == text@ ==> r is Ok && r->Ok_0 == v,
{
    uuid::Uuid::parse_str(text).map(|u| u.as_u128())
}

/// `Display` of `uuid::Uuid` through `to_string`: the hyphenated form.
#[verifier::external_body]
fn print_uuid(v: u128) -> (s: String)
    ensures
        s@ == uuid_text(v),
{
    uuid::Uuid::from_u128(v).to_string()
}

/// The identifier of one request.
#[derive(Clone, Copy, Debug, PartialEq, Eq, Structural)]
pub struct RequestId {
    pub value: u128,
}

impl RequestId {
    /// Whether the identifier is marked as drawn at random.
    pub open spec fn is_random(self) -> bool {
        self.value & VERSION_MASK == VERSION_RANDOM
    }

    /// A new identifier, drawn at random.
    pub fn fresh() -> (id: RequestId)
        ensures
            id.is_random(),
    {
        RequestId { value: random_uuid() }
    }

    /// Reads an identifier from text, in any of the forms that the UUID
    /// reader accepts.
    pub fn parse(text: &str) -> (r: Option<RequestId>)
        ensures
            r == request_id_of(text@),
    {
        match parse_uuid(text) {
            Ok(v) => Some(RequestId { value: v }),
            Err(_) => None,
        }
    }

    /// The hyphenated form of the identifier.
    pub fn to_text(&self) -> (s: String)
        ensures
            s@ == uuid_text(self.value),
    {
        print_uuid(self.value)
    }
}

} // verus!
