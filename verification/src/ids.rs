//! Session identifiers and the resource names derived from them.
//!
//! A session id is a UUID, held here as its 128-bit value. Its text is the
//! one the `uuid` crate writes; the SpurJob resource of a session is named
//! after the first eight bytes of that text.
use vstd::prelude::*;
use vstd::arithmetic::power::pow;
use vstd::utf8::*;

verus! {

/// The lowercase hexadecimal digit for a value in 0..16.
pub open spec fn hex_char(d: int) -> char {
    if d == 0 {
        '0'
    } else if d == 1 {
        '1'
    } else if d == 2 {
        '2'
    } else if d == 3 {
        '3'
    } else if d == 4 {
        '4'
    } else if d == 5 {
        '5'
    } else if d == 6 {
        '6'
    } else if d == 7 {
        '7'
    } else if d == 8 {
        '8'
    } else if d == 9 {
        '9'
    } else if d == 10 {
        'a'
    } else if d == 11 {
        'b'
    } else if d == 12 {
        'c'
    } else if d == 13 {
        'd'
    } else if d == 14 {
        'e'
    } else {
        'f'
    }
}

/// The 32 hex digits of a 128-bit value, most significant first.
pub open spec fn uuid_hex(id: u128) -> Seq<char> {
    Seq::new(32, |i: int| hex_char((id as int / pow(16, (31 - i) as nat)) % 16))
}

/// The hyphenated text of a UUID: its hex digits grouped 8-4-4-4-12.
pub open spec fn hyphenated(id: u128) -> Seq<char> {
    let h = uuid_hex(id);
    h.subrange(0, 8) + seq!['-'] + h.subrange(8, 12) + seq!['-'] + h.subrange(12, 16) + seq!['-']
        + h.subrange(16, 20) + seq!['-'] + h.subrange(20, 32)
}

/// Calls `uuid::Uuid::from_u128` and the `Display` impl of `uuid::Uuid` (through
/// `to_string`). The crate's source writes the 32 lowercase hex digits of the
/// value, most significant first, with a hyphen after the 8th, 12th, 16th and
/// 20th digit.
#[verifier::external_body]
fn uuid_to_text(id: u128) -> (s: String)
    ensures
        s@ == hyphenated(id),
{
    uuid::Uuid::from_u128(id).to_string()
}

/// The text of a session id.
pub fn session_id_text(id: u128) -> (s: String)
    ensures
        s@ == hyphenated(id),
{
    uuid_to_text(id)
}

/// The characters whose UTF-8 encoding is the first `n` bytes of that of `s`.
pub open spec fn byte_prefix(s: Seq<char>, n: int) -> Seq<char> {
    decode_utf8(encode_utf8(s).subrange(0, n))
}

/// Byte `n` of `s`'s UTF-8 encoding starts a character (or ends the text).
pub open spec fn byte_boundary(s: Seq<char>, n: int) -> bool {
    is_char_boundary(encode_utf8(s), n)
}

/// In ASCII text every position is a byte boundary, and a byte prefix is a character prefix.
pub proof fn lemma_ascii_byte_prefix(s: Seq<char>, n: int)
    requires
        is_ascii_chars(s),
        0 <= n <= s.len(),
    ensures
        byte_boundary(s, n),
        byte_prefix(s, n) == s.take(n),
{
    let bytes = encode_utf8(s);
    is_ascii_chars_encode_utf8(s);
    encode_utf8_valid_utf8(s);
    if n == s.len() {
        is_char_boundary_start_end_of_seq(bytes);
    } else {
        is_ascii_chars_nat_bound(s);
        assert((s[n] as nat) < 128);
        assert(bytes[n] == s[n] as u8);
        is_char_boundary_iff_not_is_continuation_byte(bytes, n);
    }
    let p = s.take(n);
    assert(is_ascii_chars(p));
    is_ascii_chars_encode_utf8(p);
    assert(bytes.subrange(0, n) =~= encode_utf8(p));
    encode_utf8_decode_utf8(p);
}

/// The text of a UUID is ASCII, 36 characters long.
pub proof fn lemma_hyphenated_ascii(id: u128)
    ensures
        is_ascii_chars(hyphenated(id)),
        hyphenated(id).len() == 36,
        hyphenated(id).take(8) == uuid_hex(id).take(8),
{
    let h = uuid_hex(id);
    assert forall|i: int| 0 <= i < h.len() implies '\0' <= #[trigger] h[i] <= '\u{7f}' by {
        let d = (id as int / pow(16, (31 - i) as nat)) % 16;
        assert(h[i] == hex_char(d));
    }
    let t = hyphenated(id);
    assert forall|i: int| 0 <= i < t.len() implies '\0' <= #[trigger] t[i] <= '\u{7f}' by {
        if i < 8 {
            assert(t[i] == h[i]);
        } else if i == 8 || i == 13 || i == 18 || i == 23 {
            assert(t[i] == '-');
        } else if i < 13 {
            assert(t[i] == h[i - 1]);
        } else if i < 18 {
            assert(t[i] == h[i - 2]);
        } else if i < 23 {
            assert(t[i] == h[i - 3]);
        } else {
            assert(t[i] == h[i - 4]);
        }
    }
    assert(t.take(8) =~= h.take(8));
}

} // verus!
