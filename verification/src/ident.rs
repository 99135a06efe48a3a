//! Random identifiers.

use uuid::Uuid;
use vstd::prelude::*;

verus! {

#[verifier::external_type_specification]
#[verifier::external_body]
pub struct ExUuid(Uuid);

/// The bytes of a UUID.
pub uninterp spec fn uuid_bytes(uuid: Uuid) -> Seq<u8>;

/// `bytes` are those of a random UUID of the usual variant.
pub open spec fn is_v4(bytes: Seq<u8>) -> bool {
    &&& bytes.len() == 16
    &&& bytes[6] >> 4 == 4
    &&& bytes[8] >> 6 == 2
}

/// `Uuid::new_v4`: a random UUID.
pub assume_specification[ Uuid::new_v4 ]() -> (uuid: Uuid)
    ensures
        is_v4(uuid_bytes(uuid)),
;

/// A hexadecimal digit, in lower case.
pub open spec fn hex_digit(nibble: u8) -> char {
    if nibble < 10 {
        (nibble + '0' as u8) as char
    } else {
        (nibble - 10 + 'a' as u8) as char
    }
}

/// Two hexadecimal digits for each byte.
pub open spec fn hex(bytes: Seq<u8>) -> Seq<char> {
    Seq::new(
        2 * bytes.len(),
        |i: int| hex_digit(if i % 2 == 0 { bytes[i / 2] >> 4 } else { bytes[i / 2] & 0x0f }),
    )
}

/// The text of a UUID: its bytes in hexadecimal, in groups of 4, 2, 2, 2 and 6 bytes
/// with hyphens between them.
pub open spec fn uuid_text(bytes: Seq<u8>) -> Seq<char> {
    hex(bytes.subrange(0, 4)) + seq!['-'] + hex(bytes.subrange(4, 6)) + seq!['-'] + hex(
        bytes.subrange(6, 8),
    ) + seq!['-'] + hex(bytes.subrange(8, 10)) + seq!['-'] + hex(bytes.subrange(10, 16))
}

/// `Uuid::to_string`: the hyphenated text in lower case.
#[verifier::external_body]
fn uuid_to_string(uuid: &Uuid) -> (text: String)
    ensures
        text@ == uuid_text(uuid_bytes(*uuid)),
{
    uuid.to_string()
}

/// A random identifier: the text of a random UUID.
pub fn uuid() -> (text: String)
    ensures
        exists|uuid: Uuid|
            {
                &&& #[trigger] call_ensures(Uuid::new_v4, (), uuid)
                &&& is_v4(uuid_bytes(uuid))
                &&& text@ == uuid_text(uuid_bytes(uuid))
            },
{
    let id = Uuid::new_v4();
    assert(call_ensures(Uuid::new_v4, (), id));
    uuid_to_string(&id)
}

/// Where the first digit of byte `i` stands in the text of a UUID.
pub open spec fn digit_position(i: int) -> int {
    2 * i + if i < 4 {
        0int
    } else if i < 6 {
        1
    } else if i < 8 {
        2
    } else if i < 10 {
        3
    } else {
        4
    }
}

proof fn lemma_digits_of_byte(bytes: Seq<u8>, i: int)
    requires
        bytes.len() == 16,
        0 <= i < 16,
    ensures
        uuid_text(bytes)[digit_position(i)] == hex_digit(bytes[i] >> 4),
        uuid_text(bytes)[digit_position(i) + 1] == hex_digit(bytes[i] & 0x0f),
{
    let start = if i < 4 {
        0int
    } else if i < 6 {
        4
    } else if i < 8 {
        6
    } else if i < 10 {
        8
    } else {
        10
    };
    let end = if i < 4 {
        4int
    } else if i < 6 {
        6
    } else if i < 8 {
        8
    } else if i < 10 {
        10
    } else {
        16
    };
    let group = bytes.subrange(start, end);
    assert(group[i - start] == bytes[i]);
    assert(hex(group)[2 * (i - start)] == hex_digit(bytes[i] >> 4));
    assert(hex(group)[2 * (i - start) + 1] == hex_digit(bytes[i] & 0x0f));
}

/// A hexadecimal digit in lower case.
pub open spec fn is_hex_digit(c: char) -> bool {
    ('0' <= c && c <= '9') || ('a' <= c && c <= 'f')
}

/// The text of a random UUID has 36 characters: hyphens between its five groups, the
/// version and the variant where they belong, and hexadecimal digits in lower case
/// everywhere but at the hyphens.
pub proof fn law_uuid_text_shape(bytes: Seq<u8>)
    requires
        is_v4(bytes),
    ensures
        uuid_text(bytes).len() == 36,
        uuid_text(bytes)[8] == '-',
        uuid_text(bytes)[13] == '-',
        uuid_text(bytes)[14] == '4',
        uuid_text(bytes)[18] == '-',
        uuid_text(bytes)[19] == '8' || uuid_text(bytes)[19] == '9' || uuid_text(bytes)[19] == 'a'
            || uuid_text(bytes)[19] == 'b',
        uuid_text(bytes)[23] == '-',
        forall|p: int|
            0 <= p < 36 && p != 8 && p != 13 && p != 18 && p != 23 ==> is_hex_digit(
                #[trigger] uuid_text(bytes)[p],
            ),
{
    lemma_digits_of_byte(bytes, 6);
    lemma_digits_of_byte(bytes, 8);
    let variant = bytes[8];
    assert(8 <= variant >> 4 && variant >> 4 <= 11) by (bit_vector)
        requires
            variant >> 6 == 2,
    ;
    assert forall|p: int|
        0 <= p < 36 && p != 8 && p != 13 && p != 18 && p != 23 implies is_hex_digit(
        #[trigger] uuid_text(bytes)[p],
    ) by {
        let i = if p < 8 {
            p / 2
        } else if p < 13 {
            (p - 1) / 2
        } else if p < 18 {
            (p - 2) / 2
        } else if p < 23 {
            (p - 3) / 2
        } else {
            (p - 4) / 2
        };
        lemma_digits_of_byte(bytes, i);
        assert(p == digit_position(i) || p == digit_position(i) + 1);
        let x = bytes[i];
        assert(x >> 4 < 16 && x & 0x0f < 16) by (bit_vector);
    }
}

/// The number that a hexadecimal digit in lower case stands for.
pub open spec fn digit_value(c: char) -> int {
    if c <= '9' {
        c as int - '0' as int
    } else {
        c as int - 'a' as int + 10
    }
}

/// The bytes that the text of a UUID spells.
pub open spec fn uuid_of_text(text: Seq<char>) -> Seq<u8> {
    Seq::new(
        16,
        |i: int|
            (16 * digit_value(text[digit_position(i)]) + digit_value(
                text[digit_position(i) + 1],
            )) as u8,
    )
}

/// The text of a UUID spells the bytes that it was made of: it loses nothing of them.
pub proof fn law_uuid_text_reads_back(bytes: Seq<u8>)
    requires
        bytes.len() == 16,
    ensures
        uuid_of_text(uuid_text(bytes)) == bytes,
{
    assert forall|i: int| 0 <= i < 16 implies uuid_of_text(uuid_text(bytes))[i] == bytes[i] by {
        lemma_digits_of_byte(bytes, i);
        let x = bytes[i];
        assert(x >> 4 < 16 && x & 0x0f < 16 && 16 * (x >> 4) + (x & 0x0f) == x) by (bit_vector);
        assert(digit_value(hex_digit(x >> 4)) == x >> 4);
        assert(digit_value(hex_digit(x & 0x0f)) == x & 0x0f);
    }
    assert(uuid_of_text(uuid_text(bytes)) =~= bytes);
}

/// Two UUIDs have the same text if and only if they are the same.
pub proof fn law_uuid_text_tells_uuid(a: Seq<u8>, b: Seq<u8>)
    requires
        a.len() == 16,
        b.len() == 16,
    ensures
        uuid_text(a) == uuid_text(b) <==> a == b,
{
    law_uuid_text_reads_back(a);
    law_uuid_text_reads_back(b);
}

/// A random identifier is the text of a UUID that was drawn for it, and tells its bytes.
pub proof fn law_identifier_is_a_drawn_uuid(text: String)
    requires
        call_ensures(uuid, (), text),
    ensures
        exists|drawn: Uuid|
            {
                &&& #[trigger] call_ensures(Uuid::new_v4, (), drawn)
                &&& uuid_of_text(text@) == uuid_bytes(drawn)
            },
        text@.len() == 36,
        text@[14] == '4',
{
    let drawn = choose|drawn: Uuid|
        {
            &&& #[trigger] call_ensures(Uuid::new_v4, (), drawn)
            &&& is_v4(uuid_bytes(drawn))
            &&& text@ == uuid_text(uuid_bytes(drawn))
        };
    law_uuid_text_shape(uuid_bytes(drawn));
    law_uuid_text_reads_back(uuid_bytes(drawn));
    assert(call_ensures(Uuid::new_v4, (), drawn));
}

} // verus!
