use vstd::prelude::*;

verus! {

/// The store-assigned identifier of a stored file: twelve raw bytes, shown
/// to clients as 24 lowercase hexadecimal digits.
#[derive(Clone, Copy, Debug)]
pub struct FileId {
    pub bytes: [u8; 12],
}

pub open spec fn is_hex_char(c: char) -> bool {
    ('0' <= c && c <= '9') || ('a' <= c && c <= 'f') || ('A' <= c && c <= 'F')
}

/// Value of a hexadecimal digit, in either case.
pub open spec fn hex_value(c: char) -> int {
    if '0' <= c && c <= '9' {
        c as int - '0' as int
    } else if 'a' <= c && c <= 'f' {
        c as int - 'a' as int + 10
    } else {
        c as int - 'A' as int + 10
    }
}

/// Lowercase digit for a value in `0..16`.
pub open spec fn hex_digit(d: int) -> char {
    if d == 0 { '0' }
    else if d == 1 { '1' }
    else if d == 2 { '2' }
    else if d == 3 { '3' }
    else if d == 4 { '4' }
    else if d == 5 { '5' }
    else if d == 6 { '6' }
    else if d == 7 { '7' }
    else if d == 8 { '8' }
    else if d == 9 { '9' }
    else if d == 10 { 'a' }
    else if d == 11 { 'b' }
    else if d == 12 { 'c' }
    else if d == 13 { 'd' }
    else if d == 14 { 'e' }
    else { 'f' }
}

/// Two lowercase digits per byte, high nibble first.
pub open spec fn encode_hex(b: Seq<u8>) -> Seq<char> {
    Seq::new(
        2 * b.len(),
        |i: int|
            if i % 2 == 0 {
                hex_digit(b[i / 2] as int / 16)
            } else {
                hex_digit(b[i / 2] as int % 16)
            },
    )
}

/// One byte per pair of digits, the first digit of each pair being the high nibble.
pub open spec fn decode_hex(s: Seq<char>) -> Seq<u8> {
    Seq::new(
        s.len() / 2,
        |i: int| (hex_value(s[2 * i]) * 16 + hex_value(s[2 * i + 1])) as u8,
    )
}

/// The textual form that the store accepts as an identifier: exactly 24
/// hexadecimal digits.
pub open spec fn is_object_id_text(s: Seq<char>) -> bool {
    s.len() == 24 && forall|i: int| 0 <= i < s.len() ==> #[trigger] is_hex_char(s[i])
}

/// Relies on bson's `ObjectId::parse_str`, which hex-decodes the text and
/// accepts it exactly when it decodes to twelve bytes.
#[verifier::external_body]
fn parse_object_id(s: &str) -> (r: Option<FileId>)
    ensures
        r is Some <==> is_object_id_text(s@),
        r matches Some(id) ==> id.bytes@ == decode_hex(s@),
{
    match bson::oid::ObjectId::parse_str(s) {
        Ok(oid) => Some(FileId { bytes: oid.bytes() }),
        Err(_) => None,
    }
}

/// Relies on bson's `ObjectId::to_hex`, which is `hex::encode` of the
/// twelve bytes (lowercase digits).
#[verifier::external_body]
fn object_id_to_hex(id: &FileId) -> (r: String)
    ensures
        r@ == encode_hex(id.bytes@),
{
    bson::oid::ObjectId::from_bytes(id.bytes).to_hex()
}

impl FileId {
    pub fn from_bytes(bytes: [u8; 12]) -> (r: FileId)
        ensures
            r.bytes == bytes,
    {
        FileId { bytes }
    }

    /// Parses the client-facing form of an identifier.
    pub fn parse_str(s: &str) -> (r: Option<FileId>)
        ensures
            r is Some <==> is_object_id_text(s@),
            r matches Some(id) ==> id.bytes@ == decode_hex(s@),
    {
        parse_object_id(s)
    }

    /// The client-facing form of this identifier.
    pub fn to_hex(&self) -> (r: String)
        ensures
            r@ == encode_hex(self.bytes@),
    {
        object_id_to_hex(self)
    }
}

proof fn lemma_hex_digit(d: int)
    requires
        0 <= d < 16,
    ensures
        is_hex_char(hex_digit(d)),
        hex_value(hex_digit(d)) == d,
{
}

proof fn lemma_byte_digits(v: u8)
    ensures
        is_hex_char(hex_digit(v as int / 16)),
        is_hex_char(hex_digit(v as int % 16)),
        (hex_value(hex_digit(v as int / 16)) * 16 + hex_value(hex_digit(v as int % 16))) as u8 == v,
{
    lemma_hex_digit(v as int / 16);
    lemma_hex_digit(v as int % 16);
}

/// The text of an identifier is accepted as an identifier and parses back
/// to the same twelve bytes.
pub proof fn lemma_hex_round_trip(id: FileId)
    ensures
        is_object_id_text(encode_hex(id.bytes@)),
        decode_hex(encode_hex(id.bytes@)) == id.bytes@,
{
    let b = id.bytes@;
    let s = encode_hex(b);
    assert forall|i: int| 0 <= i < s.len() implies #[trigger] is_hex_char(s[i]) by {
        lemma_byte_digits(b[i / 2]);
    }
    assert forall|j: int| 0 <= j < b.len() implies #[trigger] decode_hex(s)[j] == b[j] by {
        lemma_byte_digits(b[j]);
        assert(s[2 * j] == hex_digit(b[j] as int / 16));
        assert(s[2 * j + 1] == hex_digit(b[j] as int % 16));
    }
    assert(decode_hex(s) =~= b);
}

/// Distinct identifiers have distinct textual forms.
pub proof fn lemma_distinct_ids_distinct_text(a: FileId, b: FileId)
    requires
        a.bytes@ != b.bytes@,
    ensures
        encode_hex(a.bytes@) != encode_hex(b.bytes@),
{
    lemma_hex_round_trip(a);
    lemma_hex_round_trip(b);
}

} // verus!
