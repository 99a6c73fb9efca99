//! Text codecs of the wire formats the core reads and writes: hex-encoded
//! binary fields (commitments, signatures, session ids, transaction ids) and
//! decimal amount strings.

use vstd::prelude::*;

use vstd::string::StringSliceAdditionalSpecFns;

use crate::errors::EscrowError;

verus! {

// ---------------------------------------------------------------------------
// Hex strings
// ---------------------------------------------------------------------------

pub open spec fn is_hex_digit(c: char) -> bool {
    ('0' <= c && c <= '9') || ('a' <= c && c <= 'f') || ('A' <= c && c <= 'F')
}

/// The numeric value of one hex digit.
pub open spec fn hex_digit_value(c: char) -> u8 {
    if '0' <= c && c <= '9' {
        (c as u32 - '0' as u32) as u8
    } else if 'a' <= c && c <= 'f' {
        (c as u32 - 'a' as u32 + 10) as u8
    } else {
        (c as u32 - 'A' as u32 + 10) as u8
    }
}

/// A decodable hex string: an even number of hex digits (upper or lower case).
pub open spec fn is_hex_string(s: Seq<char>) -> bool {
    s.len() % 2 == 0 && (forall|i: int| 0 <= i < s.len() ==> is_hex_digit(#[trigger] s[i]))
}

/// The bytes a hex string denotes, two digits to a byte, big-endian within
/// the byte.
pub open spec fn hex_decoded(s: Seq<char>) -> Seq<u8>
    decreases s.len(),
{
    if s.len() < 2 {
        Seq::empty()
    } else {
        seq![(hex_digit_value(s[0]) as int * 16 + hex_digit_value(s[1]) as int) as u8]
            + hex_decoded(s.skip(2))
    }
}

/// The lower-case hex digit of a value below 16 (0x30 is '0', 0x57 + 10 is 'a').
pub open spec fn hex_char_of(v: u8) -> char {
    if v < 10 {
        ((v + 0x30) as u8) as char
    } else {
        ((v + 0x57) as u8) as char
    }
}

/// The lower-case hex encoding of a byte sequence, two digits per byte.
pub open spec fn hex_encoded(b: Seq<u8>) -> Seq<char>
    decreases b.len(),
{
    if b.len() == 0 {
        Seq::empty()
    } else {
        seq![hex_char_of(b[0] / 16), hex_char_of(b[0] % 16)] + hex_encoded(b.skip(1))
    }
}

pub proof fn lemma_hex_decoded_len(s: Seq<char>)
    requires
        s.len() % 2 == 0,
    ensures
        hex_decoded(s).len() == s.len() / 2,
    decreases s.len(),
{
    if s.len() >= 2 {
        lemma_hex_decoded_len(s.skip(2));
    }
}

pub proof fn lemma_hex_encoded_len(b: Seq<u8>)
    ensures
        hex_encoded(b).len() == 2 * b.len(),
    decreases b.len(),
{
    if b.len() > 0 {
        lemma_hex_encoded_len(b.skip(1));
    }
}

pub proof fn lemma_hex_encoded_is_hex_string(b: Seq<u8>)
    ensures
        is_hex_string(hex_encoded(b)),
    decreases b.len(),
{
    if b.len() > 0 {
        lemma_hex_encoded_is_hex_string(b.skip(1));
        assert(is_hex_digit(hex_char_of(b[0] / 16)));
        assert(is_hex_digit(hex_char_of(b[0] % 16)));
    }
}

/// Relies on `hex::encode`: it writes each input byte as two hex digits in
/// order, high nibble first, using lower-case letters.
#[verifier::external_body]
pub(crate) fn hex_encode_bytes(data: &Vec<u8>) -> (r: String)
    ensures
        r@ == hex_encoded(data@),
{
    hex::encode(data)
}

/// Relies on `hex::decode`: it succeeds exactly on strings holding an even
/// number of hex digits (either case), and then returns the denoted bytes.
#[verifier::external_body]
pub(crate) fn hex_decode_string(s: &str) -> (r: Option<Vec<u8>>)
    ensures
        r is Some <==> is_hex_string(s@),
        r is Some ==> r->0@ == hex_decoded(s@),
{
    match hex::decode(s) {
        Ok(v) => Some(v),
        Err(_) => None,
    }
}

/// Decodes a hex-encoded 32-byte binary field (a commitment, a partial
/// signature, a session id or a transaction id). Anything but exactly 64 hex
/// digits is rejected as `InvalidInput`.
pub fn decode_fixed32(s: &str) -> (r: Result<Vec<u8>, EscrowError>)
    ensures
        r is Ok <==> is_hex_string(s@) && s@.len() == 64,
        r is Ok ==> r->Ok_0@ == hex_decoded(s@) && r->Ok_0@.len() == 32,
        r is Err ==> r->Err_0 == EscrowError::InvalidInput,
{
    if s.len() != 64 {
        // `len` counts bytes; 64 bytes of UTF-8 are 64 characters only when
        // all are ASCII, but a string of 64 hex digits is all ASCII, so a
        // byte length other than 64 rules it out.
        proof {
            byte_len_64_iff_hex64(s);
        }
        return Err(EscrowError::InvalidInput);
    }
    match hex_decode_string(s) {
        Some(v) => {
            proof {
                byte_len_64_iff_hex64(s);
                lemma_hex_decoded_len(s@);
            }
            if v.len() == 32 {
                Ok(v)
            } else {
                Err(EscrowError::InvalidInput)
            }
        },
        None => Err(EscrowError::InvalidInput),
    }
}

/// A string of 64 hex digits occupies exactly 64 bytes of UTF-8, and
/// conversely a 64-byte string of hex digits has 64 characters.
proof fn byte_len_64_iff_hex64(s: &str)
    ensures
        (is_hex_string(s@) && s@.len() == 64) ==> s.spec_bytes().len() == 64,
        (s.spec_bytes().len() == 64 && is_hex_string(s@)) ==> s@.len() == 64,
{
    if is_hex_string(s@) {
        assert forall|i: int| 0 <= i < s@.len() implies '\0' <= #[trigger] s@[i] <= '\u{7f}' by {
            assert(is_hex_digit(s@[i]));
        }
        assert(vstd::utf8::is_ascii_chars(s@));
        vstd::utf8::is_ascii_chars_encode_utf8(s@);
        assert(s.spec_bytes().len() == s@.len());
    }
}

// ---------------------------------------------------------------------------
// Decimal amount strings
// ---------------------------------------------------------------------------

pub open spec fn is_dec_digit(c: char) -> bool {
    '0' <= c && c <= '9'
}

/// A well-formed amount string: at least one digit, nothing else.
pub open spec fn is_dec_string(s: Seq<char>) -> bool {
    s.len() > 0 && (forall|i: int| 0 <= i < s.len() ==> is_dec_digit(#[trigger] s[i]))
}

/// The number a digit string denotes, most significant digit first.
pub open spec fn dec_value(s: Seq<char>) -> nat
    decreases s.len(),
{
    if s.len() == 0 {
        0
    } else {
        (dec_value(s.drop_last()) * 10 + (s.last() as u32 - '0' as u32)) as nat
    }
}

/// An amount string the core accepts: digits only, value within `u64`.
pub open spec fn amount_parseable(s: Seq<char>) -> bool {
    is_dec_string(s) && dec_value(s) <= u64::MAX
}

/// Appending digits never shrinks the denoted value.
proof fn lemma_dec_value_prefix_le(s: Seq<char>, n: int)
    requires
        0 <= n <= s.len(),
        forall|i: int| 0 <= i < s.len() ==> is_dec_digit(#[trigger] s[i]),
    ensures
        dec_value(s.take(n)) <= dec_value(s),
    decreases s.len() - n,
{
    if n < s.len() {
        lemma_dec_value_prefix_le(s, n + 1);
        assert(s.take(n + 1).drop_last() =~= s.take(n));
        assert(dec_value(s.take(n + 1)) == dec_value(s.take(n)) * 10 + (s[n] as u32 - '0' as u32));
        assert(dec_value(s.take(n)) <= dec_value(s.take(n)) * 10) by (nonlinear_arith);
    } else {
        assert(s.take(n) =~= s);
    }
}

/// Parses a decimal amount string into base units. Accepts exactly the
/// strings made of one or more decimal digits whose value fits in `u64`;
/// everything else is `InvalidInput`.
pub fn parse_amount(s: &str) -> (r: Result<u64, EscrowError>)
    ensures
        r is Ok <==> amount_parseable(s@),
        r is Ok ==> r->Ok_0 == dec_value(s@),
        r is Err ==> r->Err_0 == EscrowError::InvalidInput,
{
    broadcast use vstd::string::is_ascii_spec_bytes;

    if !s.is_ascii() {
        proof {
            // A non-ASCII string holds a character above '\u{7f}', which is
            // no decimal digit.
            assert(!vstd::utf8::is_ascii_chars(s@));
            let i = choose|i: int| !(0 <= i < s@.len() ==> '\0' <= #[trigger] s@[i] <= '\u{7f}');
            assert(0 <= i < s@.len() && !is_dec_digit(s@[i]));
        }
        return Err(EscrowError::InvalidInput);
    }
    let bytes = s.as_bytes();
    proof {
        assert(bytes@ =~= Seq::new(s@.len(), |i: int| s@[i] as u8));
    }
    if bytes.len() == 0 {
        return Err(EscrowError::InvalidInput);
    }
    let mut acc: u64 = 0;
    let mut i: usize = 0;
    while i < bytes.len()
        invariant
            0 <= i <= bytes.len(),
            bytes@.len() == s@.len(),
            forall|j: int| 0 <= j < s@.len() ==> bytes@[j] == (#[trigger] s@[j]) as u8,
            vstd::utf8::is_ascii_chars(s@),
            forall|j: int| 0 <= j < i ==> is_dec_digit(#[trigger] s@[j]),
            acc == dec_value(s@.take(i as int)),
        decreases bytes.len() - i,
    {
        let b = bytes[i];
        if b < 0x30 || b > 0x39 {
            proof {
                assert(s@[i as int] as u8 == b);
                assert(!is_dec_digit(s@[i as int]));
            }
            return Err(EscrowError::InvalidInput);
        }
        let d: u64 = (b - 0x30) as u64;
        proof {
            assert(s@[i as int] as u32 >= s@[i as int] as u8 as u32 == b as u32);
            assert('\0' <= s@[i as int] <= '\u{7f}');
            assert(s@[i as int] as u32 == b as u32);
            assert(is_dec_digit(s@[i as int]));
            assert(d == (s@[i as int] as u32 - '0' as u32));
        }
        if acc > (u64::MAX - d) / 10 {
            proof {
                // The next accumulated value would exceed u64::MAX, and the
                // value only grows with further digits.
                assert(acc * 10 + d > u64::MAX) by (nonlinear_arith)
                    requires
                        acc > (u64::MAX - d) / 10,
                        d <= 9,
                ;
                assert(s@.take(i as int + 1).drop_last() =~= s@.take(i as int));
                assert(dec_value(s@.take(i as int + 1)) == acc * 10 + d);
                if forall|j: int| 0 <= j < s@.len() ==> is_dec_digit(#[trigger] s@[j]) {
                    lemma_dec_value_prefix_le(s@, i as int + 1);
                }
            }
            return Err(EscrowError::InvalidInput);
        }
        proof {
            assert(acc * 10 + d <= u64::MAX) by (nonlinear_arith)
                requires
                    acc <= (u64::MAX - d) / 10,
                    d <= 9,
            ;
            assert(s@.take(i as int + 1).drop_last() =~= s@.take(i as int));
        }
        acc = acc * 10 + d;
        i = i + 1;
    }
    proof {
        assert(s@.take(i as int) =~= s@);
    }
    Ok(acc)
}

} // verus!
