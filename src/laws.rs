use vstd::prelude::*;

use crate::hex::{hex_char_value, hex_digit, hex_pair, is_hex_char, nibble};
use crate::uuid::{has_variant, v1_bytes, version_tag, versioned, with_variant, with_version};
use crate::digest::{v3_bytes, v5_bytes};
use crate::error::ParseError;
use crate::text::{
    decode_pairs, format_text, pair_offset, parse_result_is, parse_text, text_char, SEP,
};
use crate::uuid::Uuid;

verus! {

/// A hex digit is a valid hex character, and it decodes to its value.
pub proof fn lemma_hex_digit_value(n: int)
    requires
        0 <= n < 16,
    ensures
        is_hex_char(hex_digit(n)),
        hex_char_value(hex_digit(n)) == n,
{
}

/// Encoding a byte as its two hex digits and decoding them gives the byte back.
pub proof fn lemma_hex_round_trip(b: u8)
    ensures
        hex_pair(seq![hex_digit(nibble(b, 1)), hex_digit(nibble(b, 0))], 0) == Ok::<
            u8,
            crate::error::ParseError,
        >(b),
{
    lemma_hex_digit_value(nibble(b, 1));
    lemma_hex_digit_value(nibble(b, 0));
}

proof fn lemma_format_pair(b: Seq<u8>, i: int)
    requires
        b.len() == 16,
        0 <= i < 16,
    ensures
        hex_pair(format_text(b), pair_offset(true, i)) == Ok::<u8, crate::error::ParseError>(b[i]),
{
    let p = pair_offset(true, i);
    assert(text_char(b, p) == hex_digit(nibble(b[i], 1)));
    assert(text_char(b, p + 1) == hex_digit(nibble(b[i], 0)));
    lemma_hex_digit_value(nibble(b[i], 1));
    lemma_hex_digit_value(nibble(b[i], 0));
}

proof fn lemma_decode_format(b: Seq<u8>, n: nat)
    requires
        b.len() == 16,
        n <= 16,
    ensures
        decode_pairs(format_text(b), true, n) == Ok::<Seq<u8>, crate::error::ParseError>(
            b.take(n as int),
        ),
    decreases n,
{
    if n == 0 {
        assert(b.take(0) =~= Seq::<u8>::empty());
    } else {
        lemma_decode_format(b, (n - 1) as nat);
        lemma_format_pair(b, n - 1);
        assert(b.take(n as int) =~= b.take(n - 1).push(b[n - 1]));
    }
}

/// Parsing the canonical text of any UUID's bytes gives those bytes back.
pub proof fn lemma_parse_format(b: Seq<u8>)
    requires
        b.len() == 16,
    ensures
        parse_text(format_text(b)) == Ok::<Seq<u8>, crate::error::ParseError>(b),
{
    let f = format_text(b);
    assert(f[8] == SEP && f[13] == SEP && f[18] == SEP && f[23] == SEP);
    lemma_decode_format(b, 16);
    assert(b.take(16) =~= b);
}

/// Setting the variant twice is the same as setting it once.
pub proof fn lemma_variant_idempotent(b: Seq<u8>)
    requires
        b.len() == 16,
    ensures
        with_variant(with_variant(b)) == with_variant(b),
{
    assert(with_variant(with_variant(b)) =~= with_variant(b));
}

/// Setting a version twice is the same as setting it once.
pub proof fn lemma_version_idempotent(b: Seq<u8>, v: u8)
    requires
        b.len() == 16,
        v < 16,
    ensures
        with_version(with_version(b, v), v) == with_version(b, v),
{
    assert(with_version(with_version(b, v), v) =~= with_version(b, v));
}

/// A UUID built as version 4 from any 16 bytes declares version 4 and the RFC4122 variant.
pub proof fn lemma_v4_bits(b: Seq<u8>)
    requires
        b.len() == 16,
    ensures
        version_tag(versioned(b, 4)) == 4,
        has_variant(versioned(b, 4)),
{
}

/// A time-based UUID always declares version 1 and the RFC4122 variant, whatever the
/// timestamp and the MAC address.
pub proof fn lemma_v1_bits(ticks: u64, counter: u16, mac: Seq<u8>)
    requires
        mac.len() == 6,
    ensures
        version_tag(v1_bytes(ticks, counter, mac)) == 1,
        has_variant(v1_bytes(ticks, counter, mac)),
{
}

/// Parsing the canonical text of any UUID gives the same UUID back.
pub proof fn lemma_round_trip(u: Uuid, r: Result<Uuid, ParseError>)
    requires
        parse_result_is(format_text(u@), r),
    ensures
        r == Ok::<Uuid, ParseError>(u),
{
    Uuid::lemma_view(u, u);
    lemma_parse_format(u@);
    if let Ok(v) = r {
        Uuid::lemma_view(v, u);
    }
}

/// Name-based UUIDs depend on the namespace and the name alone: equal inputs give equal
/// UUIDs, for both hashes.
pub proof fn lemma_name_based_deterministic(
    ns1: Uuid,
    ns2: Uuid,
    name1: Seq<u8>,
    name2: Seq<u8>,
)
    requires
        ns1 == ns2,
        name1 == name2,
    ensures
        v3_bytes(ns1@, name1) == v3_bytes(ns2@, name2),
        v5_bytes(ns1@, name1) == v5_bytes(ns2@, name2),
{
}

proof fn lemma_decode_error_is_byte(s: Seq<u8>, dashed: bool, n: nat)
    requires
        decode_pairs(s, dashed, n) is Err,
    ensures
        decode_pairs(s, dashed, n)->Err_0 is InvalidByte,
    decreases n,
{
    if n > 0 && decode_pairs(s, dashed, (n - 1) as nat) is Err {
        lemma_decode_error_is_byte(s, dashed, (n - 1) as nat);
    }
}

/// Texts of 32 and 36 bytes are the only ones that get past the length check: every other
/// length fails with `InvalidLength`, and those two never do.
pub proof fn lemma_parse_length(s: Seq<u8>)
    ensures
        (s.len() != 32 && s.len() != 36) <==> parse_text(s) == Err::<Seq<u8>, ParseError>(
            ParseError::InvalidLength(s.len() as usize),
        ),
{
    if s.len() == 32 || s.len() == 36 {
        let dashed = s.len() == 36;
        if decode_pairs(s, dashed, 16) is Err {
            lemma_decode_error_is_byte(s, dashed, 16);
        }
    }
}

} // verus!
