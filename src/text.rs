use vstd::prelude::*;
use vstd::string::StringSliceAdditionalSpecFns;

use crate::error::ParseError;
use crate::hex::{byte_to_hex, hex_digit, hex_pair, hex_to_byte, nibble};
use crate::uuid::{Uuid, UUID_SIZE};

use str_buf::StrBuf;

verus! {

broadcast use vstd::array::group_array_axioms;

/// Length of the canonical hyphenated text form.
pub const TEXT_LEN: usize = 36;

/// Length of the compact text form, without separators.
pub const COMPACT_LEN: usize = 32;

/// The ASCII hyphen that separates the groups.
pub const SEP: u8 = 45;

/// How many separators stand before the `i`-th byte's digits in the hyphenated form.
pub open spec fn seps_before(i: int) -> int {
    if i < 4 {
        0
    } else if i < 6 {
        1
    } else if i < 8 {
        2
    } else if i < 10 {
        3
    } else {
        4
    }
}

/// Position of the first of the two digits of the `i`-th byte, with or without separators.
pub open spec fn pair_offset(dashed: bool, i: int) -> int {
    if dashed {
        2 * i + seps_before(i)
    } else {
        2 * i
    }
}

/// Whether position `j` of the hyphenated form holds a separator.
pub open spec fn is_sep_pos(j: int) -> bool {
    j == 8 || j == 13 || j == 18 || j == 23
}

/// How many separators stand before position `j` of the hyphenated form.
pub open spec fn seps_before_pos(j: int) -> int {
    if j < 8 {
        0
    } else if j < 13 {
        1
    } else if j < 18 {
        2
    } else if j < 23 {
        3
    } else {
        4
    }
}

/// Character at position `j` of the canonical text of the UUID bytes `b`.
pub open spec fn text_char(b: Seq<u8>, j: int) -> u8 {
    if is_sep_pos(j) {
        SEP
    } else {
        let k = j - seps_before_pos(j);
        hex_digit(nibble(b[k / 2], if k % 2 == 0 { 1 } else { 0 }))
    }
}

/// The canonical text of the UUID bytes `b`: 36 characters, lowercase hex digits and
/// hyphens at positions 8, 13, 18 and 23.
pub open spec fn format_text(b: Seq<u8>) -> Seq<u8> {
    Seq::new(36, |j: int| text_char(b, j))
}

/// Decoding the first `n` bytes of `s`, left to right, stopping at the first invalid digit.
pub open spec fn decode_pairs(s: Seq<u8>, dashed: bool, n: nat) -> Result<Seq<u8>, ParseError>
    decreases n,
{
    if n == 0 {
        Ok(Seq::empty())
    } else {
        match decode_pairs(s, dashed, (n - 1) as nat) {
            Err(e) => Err(e),
            Ok(prefix) => match hex_pair(s, pair_offset(dashed, n - 1)) {
                Err(e) => Err(e),
                Ok(b) => Ok(prefix.push(b)),
            },
        }
    }
}

/// Once decoding fails, decoding more bytes fails with the same error.
proof fn lemma_decode_error_stays(s: Seq<u8>, dashed: bool, n: nat, m: nat)
    requires
        n <= m,
        decode_pairs(s, dashed, n) is Err,
    ensures
        decode_pairs(s, dashed, m) == decode_pairs(s, dashed, n),
    decreases m - n,
{
    if n < m {
        lemma_decode_error_stays(s, dashed, n, (m - 1) as nat);
    }
}

/// The result of parsing the text `s`: its length is checked first, then, in the hyphenated
/// form, the four separators in order, then the hex digits from left to right.
pub open spec fn parse_text(s: Seq<u8>) -> Result<Seq<u8>, ParseError> {
    if s.len() == 36 {
        if s[8] != SEP {
            Err(ParseError::InvalidGroup(1))
        } else if s[13] != SEP {
            Err(ParseError::InvalidGroup(2))
        } else if s[18] != SEP {
            Err(ParseError::InvalidGroup(3))
        } else if s[23] != SEP {
            Err(ParseError::InvalidGroup(4))
        } else {
            decode_pairs(s, true, 16)
        }
    } else if s.len() == 32 {
        decode_pairs(s, false, 16)
    } else {
        Err(ParseError::InvalidLength(s.len() as usize))
    }
}

/// What parsing `s` gives as a UUID's bytes or an error, matched against `r`.
pub open spec fn parse_result_is(s: Seq<u8>, r: Result<Uuid, ParseError>) -> bool {
    match r {
        Ok(u) => parse_text(s) == Ok::<Seq<u8>, ParseError>(u@),
        Err(e) => parse_text(s) == Err::<Seq<u8>, ParseError>(e),
    }
}

fn pair_offset_of(dashed: bool, i: usize) -> (r: usize)
    requires
        i < 16,
    ensures
        r == pair_offset(dashed, i as int),
{
    if !dashed {
        2 * i
    } else if i < 4 {
        2 * i
    } else if i < 6 {
        2 * i + 1
    } else if i < 8 {
        2 * i + 2
    } else if i < 10 {
        2 * i + 3
    } else {
        2 * i + 4
    }
}

#[verifier::external_type_specification]
#[verifier::external_body]
pub struct ExStrBuf<const N: usize>(StrBuf<N>);

/// The text held by a buffer of 36 bytes of capacity.
pub uninterp spec fn buf_text(b: StrBuf<37>) -> Seq<u8>;

/// Relies on `core::str::from_utf8`: ASCII bytes are valid UTF-8 and read as the same text.
#[verifier::external_body]
fn ascii_str(bytes: &[u8]) -> (r: &str)
    requires
        forall|i: int| 0 <= i < bytes@.len() ==> bytes@[i] < 128,
    ensures
        r.spec_bytes() == bytes@,
{
    match core::str::from_utf8(bytes) {
        Ok(text) => text,
        Err(_) => "",
    }
}

/// Relies on `str_buf::StrBuf::from_str`: the buffer holds a copy of `text`, which fits its
/// 36 bytes of capacity.
#[verifier::external_body]
fn buf_from_str(text: &str) -> (r: StrBuf<37>)
    requires
        text.spec_bytes().len() <= 36,
    ensures
        buf_text(r) == text.spec_bytes(),
{
    StrBuf::from_str(text)
}

/// Relies on `str_buf::StrBuf::as_slice`: the bytes of the text held.
#[verifier::external_body]
fn buf_as_slice(b: &StrBuf<37>) -> (r: &[u8])
    ensures
        r@ == buf_text(*b),
{
    b.as_slice()
}

/// Relies on `str_buf::StrBuf::as_str`: the text held.
#[verifier::external_body]
fn buf_as_str(b: &StrBuf<37>) -> (r: &str)
    ensures
        r.spec_bytes() == buf_text(*b),
{
    b.as_str()
}

/// Textual representation of a UUID, in a buffer of fixed capacity.
#[derive(Clone, Copy, Debug)]
pub struct TextRepr {
    buf: StrBuf<37>,
}

impl View for TextRepr {
    type V = Seq<u8>;

    closed spec fn view(&self) -> Seq<u8> {
        buf_text(self.buf)
    }
}

impl TextRepr {
    /// Returns the raw bytes of the text.
    pub fn as_bytes(&self) -> (r: &[u8])
        ensures
            r@ == self@,
    {
        buf_as_slice(&self.buf)
    }

    /// Returns the text as a string slice.
    pub fn as_str(&self) -> (r: &str)
        ensures
            r.spec_bytes() == self@,
    {
        buf_as_str(&self.buf)
    }
}

impl core::ops::Deref for TextRepr {
    type Target = str;

    fn deref(&self) -> (r: &str)
        ensures
            r.spec_bytes() == self@,
    {
        self.as_str()
    }
}

fn bytes_eq(a: &[u8], b: &[u8]) -> (r: bool)
    ensures
        r == (a@ == b@),
{
    if a.len() != b.len() {
        return false;
    }
    let mut i: usize = 0;
    while i < a.len()
        invariant
            i <= a@.len(),
            a@.len() == b@.len(),
            forall|j: int| 0 <= j < i ==> a@[j] == b@[j],
        decreases a@.len() - i,
    {
        if a[i] != b[i] {
            return false;
        }
        i += 1;
    }
    assert(a@ =~= b@);
    true
}

impl PartialEq<str> for TextRepr {
    fn eq(&self, other: &str) -> (r: bool) {
        bytes_eq(self.as_bytes(), other.as_bytes())
    }
}

impl vstd::std_specs::cmp::PartialEqSpecImpl<str> for TextRepr {
    open spec fn obeys_eq_spec() -> bool {
        true
    }

    open spec fn eq_spec(&self, other: &str) -> bool {
        self@ == other.spec_bytes()
    }
}

impl PartialEq<&str> for TextRepr {
    fn eq(&self, other: &&str) -> (r: bool) {
        bytes_eq(self.as_bytes(), other.as_bytes())
    }
}

impl vstd::std_specs::cmp::PartialEqSpecImpl<&str> for TextRepr {
    open spec fn obeys_eq_spec() -> bool {
        true
    }

    open spec fn eq_spec(&self, other: &&str) -> bool {
        self@ == other.spec_bytes()
    }
}

impl PartialEq<TextRepr> for str {
    fn eq(&self, other: &TextRepr) -> (r: bool) {
        bytes_eq(self.as_bytes(), other.as_bytes())
    }
}

impl vstd::std_specs::cmp::PartialEqSpecImpl<TextRepr> for str {
    open spec fn obeys_eq_spec() -> bool {
        true
    }

    open spec fn eq_spec(&self, other: &TextRepr) -> bool {
        self.spec_bytes() == other@
    }
}

impl PartialEq<TextRepr> for &str {
    fn eq(&self, other: &TextRepr) -> (r: bool) {
        bytes_eq(self.as_bytes(), other.as_bytes())
    }
}

impl vstd::std_specs::cmp::PartialEqSpecImpl<TextRepr> for &str {
    open spec fn obeys_eq_spec() -> bool {
        true
    }

    open spec fn eq_spec(&self, other: &TextRepr) -> bool {
        self.spec_bytes() == other@
    }
}

/// Every character of the canonical text is ASCII.
proof fn lemma_format_ascii(b: Seq<u8>)
    requires
        b.len() == 16,
    ensures
        forall|i: int| 0 <= i < 36 ==> format_text(b)[i] < 128,
{
}

fn text_char_of(b: &[u8; UUID_SIZE], j: usize) -> (r: u8)
    requires
        j < TEXT_LEN,
    ensures
        r == text_char(b@, j as int),
{
    if j == 8 || j == 13 || j == 18 || j == 23 {
        SEP
    } else {
        let k: usize = if j < 8 {
            j
        } else if j < 13 {
            j - 1
        } else if j < 18 {
            j - 2
        } else if j < 23 {
            j - 3
        } else {
            j - 4
        };
        let idx: usize = if k % 2 == 0 {
            1
        } else {
            0
        };
        byte_to_hex(b[k / 2], idx)
    }
}

impl Uuid {
    /// Creates the canonical textual representation: 36 characters, lowercase, hyphenated.
    pub fn to_str(&self) -> (r: TextRepr)
        ensures
            r@ == format_text(self@),
    {
        let b = self.bytes();
        let mut text = [0u8; TEXT_LEN];
        let mut j: usize = 0;
        while j < TEXT_LEN
            invariant
                j <= TEXT_LEN,
                b@ == self@,
                forall|k: int| 0 <= k < j ==> text@[k] == text_char(self@, k),
            decreases TEXT_LEN - j,
        {
            text[j] = text_char_of(&b, j);
            j += 1;
        }
        assert(text@ =~= format_text(self@));
        proof {
            lemma_format_ascii(self@);
        }
        let s = ascii_str(text.as_slice());
        TextRepr { buf: buf_from_str(s) }
    }

    /// Creates a new UUID by parsing ASCII text given as bytes.
    ///
    /// Accepts the 36-character hyphenated form and the 32-character compact form, with hex
    /// digits in either case.
    pub fn parse_ascii_bytes(input: &[u8]) -> (r: Result<Self, ParseError>)
        ensures
            parse_result_is(input@, r),
    {
        let len = input.len();
        if len != TEXT_LEN && len != COMPACT_LEN {
            return Err(ParseError::InvalidLength(len));
        }
        let dashed = len == TEXT_LEN;
        if dashed {
            if input[8] != SEP {
                return Err(ParseError::InvalidGroup(1));
            } else if input[13] != SEP {
                return Err(ParseError::InvalidGroup(2));
            } else if input[18] != SEP {
                return Err(ParseError::InvalidGroup(3));
            } else if input[23] != SEP {
                return Err(ParseError::InvalidGroup(4));
            }
        }
        let mut data = [0u8; UUID_SIZE];
        let mut i: usize = 0;
        assert(data@.take(0) =~= Seq::<u8>::empty());
        while i < UUID_SIZE
            invariant
                i <= UUID_SIZE,
                input@.len() == len,
                dashed <==> len == 36,
                len == 36 || len == 32,
                dashed ==> input@[8] == SEP && input@[13] == SEP && input@[18] == SEP
                    && input@[23] == SEP,
                decode_pairs(input@, dashed, i as nat) == Ok::<Seq<u8>, ParseError>(
                    data@.take(i as int),
                ),
            decreases UUID_SIZE - i,
        {
            let cursor = pair_offset_of(dashed, i);
            let ghost prefix = data@.take(i as int);
            match hex_to_byte(input, cursor) {
                Ok(b) => {
                    data[i] = b;
                },
                Err(e) => {
                    proof {
                        lemma_decode_error_stays(input@, dashed, (i + 1) as nat, 16);
                    }
                    return Err(e);
                },
            }
            assert(data@.take(i + 1) =~= prefix.push(data@[i as int]));
            i += 1;
        }
        assert(data@.take(16) =~= data@);
        Ok(Self::from_bytes(data))
    }

    /// Creates a new UUID by parsing the given string.
    pub fn parse_str(input: &str) -> (r: Result<Self, ParseError>)
        ensures
            parse_result_is(input.spec_bytes(), r),
    {
        Self::parse_ascii_bytes(input.as_bytes())
    }
}

impl core::str::FromStr for Uuid {
    type Err = ParseError;

    fn from_str(input: &str) -> (r: Result<Self, ParseError>) {
        Self::parse_str(input)
    }
}

} // verus!
