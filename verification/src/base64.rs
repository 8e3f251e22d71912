//! Standard base64 (RFC 4648 alphabet, `=` padding) for stored credentials.
//!
//! Encoding turns every group of three bytes into four alphabet characters;
//! a final group of one or two bytes gives two or three characters followed
//! by `==` or `=`.
//!
//! Decoding is lenient in the way the stored files need: ASCII spaces, tabs,
//! carriage returns and line feeds are ignored, and every trailing `=` is
//! dropped. Each remaining byte must be an alphabet character, and their
//! number must not leave a single character over after the groups of four
//! (no encoding ends that way). The 6-bit values are then packed into bytes
//! from the most significant bit on; the zero bits that a final group of two
//! or three characters carries beyond its last whole byte are dropped.

use vstd::prelude::*;
use crate::text::push_char;
use vstd::utf8::{encode_scalar, encode_utf8};

verus! {

/// The padding byte, `=`.
pub const PAD: u8 = 61;

/// Why stored base64 text could not be decoded.
#[derive(Debug, Clone, Copy, PartialEq, Eq)]
pub enum DecodeError {
    /// A byte that is neither an alphabet character, ignored whitespace, nor
    /// trailing padding.
    InvalidSymbol,
    /// A number of characters that leaves one over after the groups of four.
    InvalidLength,
}

impl DecodeError {
    /// The human-readable description of the error.
    pub fn message(&self) -> (res: &'static str)
        ensures
            res@ == (match self {
                DecodeError::InvalidSymbol => "invalid base64 character in stored credential"@,
                DecodeError::InvalidLength => "invalid base64 length in stored credential"@,
            }),
    {
        match self {
            DecodeError::InvalidSymbol => "invalid base64 character in stored credential",
            DecodeError::InvalidLength => "invalid base64 length in stored credential",
        }
    }
}

/// The ASCII code of the alphabet character for the 6-bit value `v`.
pub open spec fn alphabet_code(v: u8) -> u8 {
    if v < 26 {
        (65 + v) as u8
    } else if v < 52 {
        (97 + (v - 26)) as u8
    } else if v < 62 {
        (48 + (v - 52)) as u8
    } else if v == 62 {
        43
    } else {
        47
    }
}

/// The 6-bit value of an alphabet character, `None` for any other byte.
pub open spec fn symbol_value(b: u8) -> Option<u8> {
    if 65 <= b <= 90 {
        Some((b - 65) as u8)
    } else if 97 <= b <= 122 {
        Some((b - 97 + 26) as u8)
    } else if 48 <= b <= 57 {
        Some((b - 48 + 52) as u8)
    } else if b == 43 {
        Some(62)
    } else if b == 47 {
        Some(63)
    } else {
        None
    }
}

/// The 6-bit values for one group of one to three bytes (`len` of them are
/// real; the others read as zero): `len + 1` values.
pub open spec fn group_sextets(b0: u8, b1: u8, b2: u8, len: int) -> Seq<u8> {
    let s0 = (b0 / 4) as u8;
    let s1 = ((b0 % 4) * 16 + b1 / 16) as u8;
    let s2 = ((b1 % 16) * 4 + b2 / 64) as u8;
    let s3 = (b2 % 64) as u8;
    if len == 1 {
        seq![s0, s1]
    } else if len == 2 {
        seq![s0, s1, s2]
    } else {
        seq![s0, s1, s2, s3]
    }
}

/// The 6-bit values of the first group of `b` (at most three bytes).
pub open spec fn chunk_sextets(b: Seq<u8>) -> Seq<u8> {
    let b1: u8 = if b.len() > 1 { b[1] } else { 0 };
    let b2: u8 = if b.len() > 2 { b[2] } else { 0 };
    group_sextets(b[0], b1, b2, if b.len() >= 3 { 3 } else { b.len() as int })
}

/// The characters for one group of one to three bytes, padding included.
pub open spec fn encode_chunk(b: Seq<u8>) -> Seq<char> {
    let s = chunk_sextets(b);
    let chars = Seq::new(s.len(), |i: int| alphabet_code(s[i]) as char);
    if b.len() == 1 {
        chars + seq!['=', '=']
    } else if b.len() == 2 {
        chars + seq!['=']
    } else {
        chars
    }
}

/// The base64 text of `b`.
pub open spec fn encoding(b: Seq<u8>) -> Seq<char>
    decreases b.len(),
{
    if b.len() == 0 {
        seq![]
    } else if b.len() <= 3 {
        encode_chunk(b)
    } else {
        encode_chunk(b.take(3)) + encoding(b.skip(3))
    }
}

/// Whether the decoder skips this byte.
pub open spec fn is_skipped_space(b: u8) -> bool {
    b == 32 || b == 9 || b == 13 || b == 10
}

/// `s` without the bytes the decoder skips.
pub open spec fn without_spaces(s: Seq<u8>) -> Seq<u8>
    decreases s.len(),
{
    if s.len() == 0 {
        s
    } else if is_skipped_space(s.last()) {
        without_spaces(s.drop_last())
    } else {
        without_spaces(s.drop_last()).push(s.last())
    }
}

/// `s` without its trailing padding bytes.
pub open spec fn without_padding(s: Seq<u8>) -> Seq<u8>
    decreases s.len(),
{
    if s.len() > 0 && s.last() == PAD {
        without_padding(s.drop_last())
    } else {
        s
    }
}

/// The byte produced when the value at position `k` (`k % 4 != 0`) follows
/// the value `p` at position `k - 1`.
pub open spec fn joined(p: u8, w: u8, r: int) -> u8 {
    if r == 1 {
        (p * 4 + w / 16) as u8
    } else if r == 2 {
        ((p % 16) * 16 + w / 4) as u8
    } else {
        ((p % 4) * 64 + w) as u8
    }
}

/// The bytes that a sequence of 6-bit values packs into.
pub open spec fn pack(vals: Seq<u8>) -> Seq<u8>
    decreases vals.len(),
{
    if vals.len() == 0 {
        seq![]
    } else {
        let k = vals.len() - 1;
        if k % 4 == 0 {
            pack(vals.drop_last())
        } else {
            pack(vals.drop_last()).push(joined(vals[k - 1], vals[k], k % 4))
        }
    }
}

/// The 6-bit values of the alphabet characters in `s`.
pub open spec fn sextets(s: Seq<u8>) -> Seq<u8> {
    Seq::new(s.len(), |i: int| symbol_value(s[i])->0)
}

/// What decoding the bytes `input` gives: an invalid symbol when a byte left
/// after dropping spaces and trailing padding is not an alphabet character,
/// else an invalid length when those bytes leave one over after the groups
/// of four.
pub open spec fn decoding(input: Seq<u8>) -> Result<Seq<u8>, DecodeError> {
    let symbols = without_padding(without_spaces(input));
    if !(forall|i: int| 0 <= i < symbols.len() ==> (#[trigger] symbol_value(symbols[i])) is Some) {
        Err(DecodeError::InvalidSymbol)
    } else if symbols.len() % 4 == 1 {
        Err(DecodeError::InvalidLength)
    } else {
        Ok(pack(sextets(symbols)))
    }
}

proof fn lemma_split_group(b0: u8, b1: u8, b2: u8)
    ensures
        ((((b0 as u32) << 16u32) | ((b1 as u32) << 8u32) | (b2 as u32)) >> 18u32) & 0x3F == b0 / 4,
        ((((b0 as u32) << 16u32) | ((b1 as u32) << 8u32) | (b2 as u32)) >> 12u32) & 0x3F == (b0 % 4)
            * 16 + b1 / 16,
        ((((b0 as u32) << 16u32) | ((b1 as u32) << 8u32) | (b2 as u32)) >> 6u32) & 0x3F == (b1 % 16)
            * 4 + b2 / 64,
        (((b0 as u32) << 16u32) | ((b1 as u32) << 8u32) | (b2 as u32)) & 0x3F == b2 % 64,
{
    assert(((((b0 as u32) << 16u32) | ((b1 as u32) << 8u32) | (b2 as u32)) >> 18u32) & 0x3F == b0
        / 4) by (bit_vector);
    assert(((((b0 as u32) << 16u32) | ((b1 as u32) << 8u32) | (b2 as u32)) >> 12u32) & 0x3F == (b0
        % 4) * 16 + b1 / 16) by (bit_vector);
    assert(((((b0 as u32) << 16u32) | ((b1 as u32) << 8u32) | (b2 as u32)) >> 6u32) & 0x3F == (b1
        % 16) * 4 + b2 / 64) by (bit_vector);
    assert((((b0 as u32) << 16u32) | ((b1 as u32) << 8u32) | (b2 as u32)) & 0x3F == b2 % 64)
        by (bit_vector);
}

/// The alphabet character for a 6-bit value.
fn alphabet_char(v: u8) -> (c: char)
    requires
        v < 64,
    ensures
        c == alphabet_code(v) as char,
{
    if v < 26 {
        (65 + v) as char
    } else if v < 52 {
        (97 + (v - 26)) as char
    } else if v < 62 {
        (48 + (v - 52)) as char
    } else if v == 62 {
        '+'
    } else {
        '/'
    }
}

/// Encodes bytes as standard base64 text with `=` padding.
pub fn encode(input: &[u8]) -> (res: String)
    ensures
        res@ == encoding(input@),
{
    let mut out = String::new();
    let n = input.len();
    let mut i: usize = 0;
    assert(input@.skip(0) == input@);
    while i < n
        invariant
            i <= n == input@.len(),
            encoding(input@) == out@ + encoding(input@.skip(i as int)),
        decreases n - i,
    {
        let ghost rest = input@.skip(i as int);
        let len = if n - i >= 3 { 3 } else { n - i };
        let b0 = input[i];
        let b1 = if len > 1 { input[i + 1] } else { 0 };
        let b2 = if len > 2 { input[i + 2] } else { 0 };
        let triple: u32 = ((b0 as u32) << 16u32) | ((b1 as u32) << 8u32) | (b2 as u32);
        proof {
            lemma_split_group(b0, b1, b2);
        }
        let ghost before = out@;
        push_char(&mut out, alphabet_char(((triple >> 18u32) & 0x3F) as u8));
        push_char(&mut out, alphabet_char(((triple >> 12u32) & 0x3F) as u8));
        if len > 1 {
            push_char(&mut out, alphabet_char(((triple >> 6u32) & 0x3F) as u8));
        } else {
            push_char(&mut out, '=');
        }
        if len > 2 {
            push_char(&mut out, alphabet_char((triple & 0x3F) as u8));
        } else {
            push_char(&mut out, '=');
        }
        proof {
            let chunk = rest.take(len as int);
            if rest.len() <= 3 {
                assert(chunk == rest);
            }
            assert(chunk[0] == b0);
            assert(len > 1 ==> chunk[1] == b1);
            assert(len > 2 ==> chunk[2] == b2);
            assert(out@ == before + encode_chunk(chunk));
            if rest.len() <= 3 {
                assert(input@.skip(i + len) == Seq::<u8>::empty());
                assert(encoding(input@.skip(i + len)) == Seq::<char>::empty());
                assert(out@ == before + encoding(rest));
            } else {
                assert(rest.skip(3) == input@.skip(i + 3));
            }
        }
        i = i + len;
    }
    out
}

/// Maps a single base64 character to its 6-bit value.
pub fn decode_symbol(symbol: u8) -> (res: Result<u8, DecodeError>)
    ensures
        res matches Ok(v) ==> symbol_value(symbol) == Some(v),
        res is Err ==> symbol_value(symbol) is None && res == Err::<u8, DecodeError>(
            DecodeError::InvalidSymbol,
        ),
{
    if 65 <= symbol && symbol <= 90 {
        Ok(symbol - 65)
    } else if 97 <= symbol && symbol <= 122 {
        Ok(symbol - 97 + 26)
    } else if 48 <= symbol && symbol <= 57 {
        Ok(symbol - 48 + 52)
    } else if symbol == 43 {
        Ok(62)
    } else if symbol == 47 {
        Ok(63)
    } else {
        Err(DecodeError::InvalidSymbol)
    }
}


proof fn lemma_accumulate(acc: u32, w: u32, p: u32)
    requires
        w < 64,
        p < 64,
    ensures
        ((acc << 6u32) | w) & 63 == w,
        ((acc << 6u32) | w) & 15 == w % 16,
        ((acc << 6u32) | w) & 3 == w % 4,
        (acc & 63) == p ==> (((acc << 6u32) | w) >> 4u32) as u8 == (p * 4 + w / 16) as u8,
        (acc & 15) == p % 16 ==> (((acc << 6u32) | w) >> 2u32) as u8 == ((p % 16) * 16 + w / 4) as u8,
        (acc & 3) == p % 4 ==> (((acc << 6u32) | w) >> 0u32) as u8 == ((p % 4) * 64 + w) as u8,
{
    assert(((acc << 6u32) | w) & 63 == w) by (bit_vector)
        requires
            w < 64,
    ;
    assert(((acc << 6u32) | w) & 15 == w % 16) by (bit_vector)
        requires
            w < 64,
    ;
    assert(((acc << 6u32) | w) & 3 == w % 4) by (bit_vector)
        requires
            w < 64,
    ;
    assert((acc & 63) == p ==> (((acc << 6u32) | w) >> 4u32) as u8 == (p * 4 + w / 16) as u8)
        by (bit_vector)
        requires
            w < 64,
            p < 64,
    ;
    assert((acc & 15) == p % 16 ==> (((acc << 6u32) | w) >> 2u32) as u8 == ((p % 16) * 16 + w / 4)
        as u8) by (bit_vector)
        requires
            w < 64,
            p < 64,
    ;
    assert((acc & 3) == p % 4 ==> (((acc << 6u32) | w) >> 0u32) as u8 == ((p % 4) * 64 + w) as u8)
        by (bit_vector)
        requires
            w < 64,
            p < 64,
    ;
}

/// Packs the 6-bit values of `symbols[..len]` into bytes, failing on the
/// first byte that is not an alphabet character.
fn pack_symbols(symbols: &Vec<u8>, len: usize) -> (res: Result<Vec<u8>, DecodeError>)
    requires
        len <= symbols@.len(),
    ensures
        ({
            let sym = symbols@.take(len as int);
            &&& res is Ok == (forall|i: int|
                0 <= i < sym.len() ==> (#[trigger] symbol_value(sym[i])) is Some)
            &&& res matches Ok(v) ==> v@ == pack(sextets(sym))
            &&& res is Err ==> res == Err::<Vec<u8>, DecodeError>(DecodeError::InvalidSymbol)
        }),
{
    let ghost sym = symbols@.take(len as int);
    let ghost vals = sextets(sym);
    let mut out: Vec<u8> = Vec::new();
    let mut accumulator: u32 = 0;
    let mut bits: u32 = 0;
    let mut k: usize = 0;
    while k < len
        invariant
            len <= symbols@.len(),
            sym == symbols@.take(len as int),
            vals == sextets(sym),
            k <= len,
            forall|j: int| 0 <= j < k ==> (#[trigger] symbol_value(sym[j])) is Some,
            out@ == pack(vals.take(k as int)),
            bits == (if k % 4 == 0 {
                0u32
            } else if k % 4 == 1 {
                6u32
            } else if k % 4 == 2 {
                4u32
            } else {
                2u32
            }),
            k % 4 == 1 ==> accumulator & 63 == vals[k - 1],
            k % 4 == 2 ==> accumulator & 15 == vals[k - 1] % 16,
            k % 4 == 3 ==> accumulator & 3 == vals[k - 1] % 4,
        decreases len - k,
    {
        let value = match decode_symbol(symbols[k]) {
            Ok(v) => v,
            Err(_) => {
                assert(sym[k as int] == symbols@[k as int]);
                assert(!(symbol_value(sym[k as int]) is Some));
                return Err(DecodeError::InvalidSymbol);
            },
        };
        assert(sym[k as int] == symbols@[k as int]);
        assert(vals[k as int] == value);
        let ghost p: u8 = if k > 0 { vals[k - 1] } else { 0 };
        let ghost r: int = (k % 4) as int;
        proof {
            if k > 0 {
                assert(symbol_value(sym[k - 1]) is Some);
            }
            lemma_accumulate(accumulator, value as u32, p as u32);
            assert(vals.take(k + 1).drop_last() == vals.take(k as int));
            assert(vals.take(k + 1)[k as int] == value);
            if k > 0 {
                assert(vals.take(k + 1)[k - 1] == p);
            }
        }
        let ghost old_out = out@;
        let ghost old_acc = accumulator;
        accumulator = (accumulator << 6u32) | value as u32;
        bits += 6;
        if bits >= 8 {
            bits -= 8;
            let byte = (accumulator >> bits) as u8;
            assert(byte == joined(p, value, r));
            out.push(byte);
        }
        k += 1;
    }
    assert(vals.take(len as int) == vals);
    Ok(out)
}

/// Decodes base64 text as described in the module documentation.
pub fn decode(input: &str) -> (res: Result<Vec<u8>, DecodeError>)
    ensures
        match res {
            Ok(v) => decoding(encode_utf8(input@)) == Ok::<Seq<u8>, DecodeError>(v@),
            Err(e) => decoding(encode_utf8(input@)) == Err::<Seq<u8>, DecodeError>(e),
        },
{
    let bytes = input.as_bytes();
    let n = bytes.len();
    let mut symbols: Vec<u8> = Vec::new();
    let mut i: usize = 0;
    while i < n
        invariant
            i <= n == bytes@.len(),
            symbols@ == without_spaces(bytes@.take(i as int)),
        decreases n - i,
    {
        let byte = bytes[i];
        assert(bytes@.take(i + 1).drop_last() == bytes@.take(i as int));
        if !(byte == 32 || byte == 9 || byte == 13 || byte == 10) {
            symbols.push(byte);
        }
        i += 1;
    }
    assert(bytes@.take(n as int) == bytes@);
    let mut data_len = symbols.len();
    assert(symbols@.take(data_len as int) == symbols@);
    while data_len > 0 && symbols[data_len - 1] == PAD
        invariant
            data_len <= symbols@.len(),
            without_padding(symbols@) == without_padding(symbols@.take(data_len as int)),
        decreases data_len,
    {
        assert(symbols@.take(data_len as int).drop_last() == symbols@.take(data_len - 1));
        data_len -= 1;
    }
    assert(without_padding(without_spaces(bytes@)) == symbols@.take(data_len as int));
    let packed = match pack_symbols(&symbols, data_len) {
        Ok(packed) => packed,
        Err(e) => return Err(e),
    };
    if data_len % 4 == 1 {
        return Err(DecodeError::InvalidLength);
    }
    Ok(packed)
}

/// The 6-bit values that [`encoding`] turns into alphabet characters.
pub open spec fn all_sextets(b: Seq<u8>) -> Seq<u8>
    decreases b.len(),
{
    if b.len() == 0 {
        seq![]
    } else if b.len() <= 3 {
        chunk_sextets(b)
    } else {
        chunk_sextets(b.take(3)) + all_sextets(b.skip(3))
    }
}

/// The alphabet characters for a sequence of 6-bit values.
pub open spec fn sextet_chars(s: Seq<u8>) -> Seq<char> {
    Seq::new(s.len(), |i: int| alphabet_code(s[i]) as char)
}

/// The padding that ends the encoding of `n` bytes.
pub open spec fn padding(n: int) -> Seq<char> {
    if n % 3 == 1 {
        seq!['=', '=']
    } else if n % 3 == 2 {
        seq!['=']
    } else {
        seq![]
    }
}

proof fn lemma_group_values(b0: u8, b1: u8, b2: u8)
    ensures
        b0 / 4 < 64,
        (b0 % 4) * 16 + b1 / 16 < 64,
        (b1 % 16) * 4 + b2 / 64 < 64,
        b2 % 64 < 64,
        joined((b0 / 4) as u8, ((b0 % 4) * 16 + b1 / 16) as u8, 1) == b0,
        joined(((b0 % 4) * 16 + b1 / 16) as u8, ((b1 % 16) * 4 + b2 / 64) as u8, 2) == b1,
        joined(((b1 % 16) * 4 + b2 / 64) as u8, (b2 % 64) as u8, 3) == b2,
{
}

proof fn lemma_chunk_sextets(b: Seq<u8>)
    requires
        1 <= b.len() <= 3,
    ensures
        chunk_sextets(b).len() == b.len() + 1,
        forall|i: int| 0 <= i < chunk_sextets(b).len() ==> #[trigger] chunk_sextets(b)[i] < 64,
        pack(chunk_sextets(b)) == b,
{
    let b0 = b[0];
    let b1: u8 = if b.len() > 1 { b[1] } else { 0 };
    let b2: u8 = if b.len() > 2 { b[2] } else { 0 };
    lemma_group_values(b0, b1, b2);
    let s = chunk_sextets(b);
    assert(pack(s.take(1)) == Seq::<u8>::empty()) by {
        assert(s.take(1).drop_last() == s.take(0));
        assert(pack(s.take(0)) == Seq::<u8>::empty());
    }
    assert(pack(s.take(2)) == seq![b0]) by {
        assert(s.take(2).drop_last() == s.take(1));
    }
    if b.len() >= 2 {
        assert(pack(s.take(3)) == seq![b0, b1]) by {
            assert(s.take(3).drop_last() == s.take(2));
        }
    }
    if b.len() == 3 {
        assert(pack(s.take(4)) == seq![b0, b1, b2]) by {
            assert(s.take(4).drop_last() == s.take(3));
        }
    }
    assert(s.take(s.len() as int) == s);
    if b.len() == 1 {
        assert(b == seq![b0]);
    } else if b.len() == 2 {
        assert(b == seq![b0, b1]);
    } else {
        assert(b == seq![b0, b1, b2]);
    }
}

proof fn lemma_pack_concat(a: Seq<u8>, c: Seq<u8>)
    requires
        a.len() % 4 == 0,
    ensures
        pack(a + c) == pack(a) + pack(c),
    decreases c.len(),
{
    if c.len() == 0 {
        assert(a + c == a);
        assert(pack(a) + pack(c) == pack(a));
    } else {
        lemma_pack_concat(a, c.drop_last());
        assert((a + c).drop_last() == a + c.drop_last());
        let k = (a + c).len() - 1;
        let kc = c.len() - 1;
        assert(k % 4 == kc % 4);
        assert((a + c)[k] == c[kc]);
        if kc % 4 != 0 {
            assert((a + c)[k - 1] == c[kc - 1]);
        }
    }
}

proof fn lemma_all_sextets(b: Seq<u8>)
    ensures
        forall|i: int| 0 <= i < all_sextets(b).len() ==> #[trigger] all_sextets(b)[i] < 64,
        pack(all_sextets(b)) == b,
        b.len() > 0 ==> all_sextets(b).len() > 0,
        all_sextets(b).len() % 4 != 1,
    decreases b.len(),
{
    if b.len() == 0 {
    } else if b.len() <= 3 {
        lemma_chunk_sextets(b);
    } else {
        let head = chunk_sextets(b.take(3));
        lemma_chunk_sextets(b.take(3));
        lemma_all_sextets(b.skip(3));
        lemma_pack_concat(head, all_sextets(b.skip(3)));
        assert(b.take(3) + b.skip(3) == b);
        assert forall|i: int| 0 <= i < all_sextets(b).len() implies #[trigger] all_sextets(b)[i]
            < 64 by {
            if i >= 4 {
                assert(all_sextets(b)[i] == all_sextets(b.skip(3))[i - 4]);
            } else {
                assert(all_sextets(b)[i] == head[i]);
            }
        }
    }
}

proof fn lemma_encoding_form(b: Seq<u8>)
    ensures
        encoding(b) == sextet_chars(all_sextets(b)) + padding(b.len() as int),
    decreases b.len(),
{
    if b.len() == 0 {
        assert(sextet_chars(all_sextets(b)) + padding(0) == Seq::<char>::empty());
    } else if b.len() <= 3 {
        lemma_chunk_sextets(b);
        assert(Seq::new(chunk_sextets(b).len(), |i: int| alphabet_code(chunk_sextets(b)[i]) as char)
            == sextet_chars(all_sextets(b)));
    } else {
        lemma_encoding_form(b.skip(3));
        lemma_chunk_sextets(b.take(3));
        let head = chunk_sextets(b.take(3));
        let tail = all_sextets(b.skip(3));
        assert(sextet_chars(head + tail) == sextet_chars(head) + sextet_chars(tail));
        assert(padding(b.len() as int) == padding(b.skip(3).len() as int));
        assert(encode_chunk(b.take(3)) == sextet_chars(head));
    }
}

proof fn lemma_alphabet_code(v: u8)
    requires
        v < 64,
    ensures
        symbol_value(alphabet_code(v)) == Some(v),
        alphabet_code(v) != PAD,
        !is_skipped_space(alphabet_code(v)),
        alphabet_code(v) < 128,
{
}

proof fn lemma_without_spaces_id(x: Seq<u8>)
    requires
        forall|i: int| 0 <= i < x.len() ==> !is_skipped_space(#[trigger] x[i]),
    ensures
        without_spaces(x) == x,
    decreases x.len(),
{
    if x.len() > 0 {
        lemma_without_spaces_id(x.drop_last());
        assert(x.drop_last().push(x.last()) == x);
    }
}

proof fn lemma_without_padding_tail(c: Seq<u8>, p: Seq<u8>)
    requires
        forall|i: int| 0 <= i < p.len() ==> #[trigger] p[i] == PAD,
        c.len() == 0 || c.last() != PAD,
    ensures
        without_padding(c + p) == c,
    decreases p.len(),
{
    if p.len() == 0 {
        assert(c + p == c);
    } else {
        assert((c + p).drop_last() == c + p.drop_last());
        lemma_without_padding_tail(c, p.drop_last());
    }
}

/// What [`encoding`] gives, in order: one alphabet character for each 6-bit
/// value of the bytes, then `(3 - n % 3) % 3` padding characters `=` for `n`
/// bytes.
pub proof fn encoding_form(b: Seq<u8>)
    ensures
        ({
            let s = all_sextets(b);
            &&& encoding(b) == sextet_chars(s) + padding(b.len() as int)
            &&& padding(b.len() as int).len() == (3 - b.len() % 3) % 3
            &&& forall|i: int|
                0 <= i < s.len() ==> #[trigger] s[i] < 64 && symbol_value(alphabet_code(s[i])) == Some(
                    s[i],
                ) && encoding(b)[i] == alphabet_code(s[i]) as char
            &&& forall|i: int| s.len() <= i < encoding(b).len() ==> #[trigger] encoding(b)[i] == '='
        }),
{
    lemma_encoding_form(b);
    lemma_all_sextets(b);
    let s = all_sextets(b);
    assert forall|i: int| 0 <= i < s.len() implies #[trigger] s[i] < 64 && symbol_value(
        alphabet_code(s[i]),
    ) == Some(s[i]) && encoding(b)[i] == alphabet_code(s[i]) as char by {
        lemma_alphabet_code(s[i]);
    }
}

proof fn lemma_without_spaces_concat(a: Seq<u8>, c: Seq<u8>)
    ensures
        without_spaces(a + c) == without_spaces(a) + without_spaces(c),
    decreases c.len(),
{
    if c.len() == 0 {
        assert(a + c == a);
        assert(without_spaces(a) + without_spaces(c) == without_spaces(a));
    } else {
        lemma_without_spaces_concat(a, c.drop_last());
        assert((a + c).drop_last() == a + c.drop_last());
        assert((a + c).last() == c.last());
    }
}

proof fn lemma_encode_utf8_concat(a: Seq<char>, c: Seq<char>)
    ensures
        encode_utf8(a + c) == encode_utf8(a) + encode_utf8(c),
    decreases a.len(),
{
    if a.len() == 0 {
        assert(a + c == c);
        assert(encode_utf8(a) + encode_utf8(c) == encode_utf8(c));
    } else {
        lemma_encode_utf8_concat(a.drop_first(), c);
        assert((a + c).drop_first() == a.drop_first() + c);
        assert((a + c)[0] == a[0]);
    }
}

/// Inputs that agree once spaces, tabs, carriage returns and line feeds are
/// dropped decode alike: decoding does not see those bytes, wherever they
/// stand.
pub proof fn decoding_ignores_whitespace(s: Seq<u8>, t: Seq<u8>)
    requires
        without_spaces(s) == without_spaces(t),
    ensures
        decoding(s) == decoding(t),
{
}

/// Inserting a space, tab, carriage return or line feed at any position of a
/// text leaves what [`decode`] gives of it unchanged.
pub proof fn decode_ignores_inserted_whitespace(text: Seq<char>, i: int, w: char)
    requires
        0 <= i <= text.len(),
        w == ' ' || w == '\t' || w == '\r' || w == '\n',
    ensures
        decoding(encode_utf8(text.take(i) + seq![w] + text.skip(i))) == decoding(encode_utf8(text)),
{
    let a = text.take(i);
    let c = text.skip(i);
    assert(a + c == text);
    lemma_encode_utf8_concat(a + seq![w], c);
    lemma_encode_utf8_concat(a, seq![w]);
    lemma_encode_utf8_concat(a, c);
    let wb: u8 = if w == ' ' {
        32
    } else if w == '\t' {
        9
    } else if w == '\r' {
        13
    } else {
        10
    };
    assert(encode_utf8(seq![w]) == seq![wb]) by {
        let one: Seq<char> = seq![w];
        let nothing: Seq<char> = seq![];
        assert(one.drop_first() == nothing);
        assert(encode_utf8(nothing) == Seq::<u8>::empty());
        assert(one[0] == w);
        let u: u32 = w as u32;
        assert(u == wb as u32);
        assert(u < 128);
        assert((u & 0x7F) as u8 == wb) by (bit_vector)
            requires
                u == wb as u32,
                u < 128,
        ;
        assert(encode_scalar(u) == seq![wb]);
        assert(encode_utf8(one) == encode_scalar(u) + encode_utf8(nothing));
    }
    assert(is_skipped_space(wb));
    lemma_without_spaces_concat(encode_utf8(a) + seq![wb], encode_utf8(c));
    lemma_without_spaces_concat(encode_utf8(a), seq![wb]);
    lemma_without_spaces_concat(encode_utf8(a), encode_utf8(c));
    let e: Seq<u8> = seq![];
    assert(seq![wb].drop_last() == e);
    assert(seq![wb].last() == wb);
    assert(without_spaces(e) == e);
    assert(without_spaces(seq![wb]) == e);
    assert(without_spaces(encode_utf8(a)) + e == without_spaces(encode_utf8(a)));
}

/// The base64 alphabet in order: the character for the 6-bit value `v` is
/// the one at position `v`.
pub open spec fn alphabet() -> Seq<char> {
    "ABCDEFGHIJKLMNOPQRSTUVWXYZabcdefghijklmnopqrstuvwxyz0123456789+/"@
}

/// Each 6-bit value is written as the character at its position in the
/// alphabet `A`-`Z`, `a`-`z`, `0`-`9`, `+`, `/`; decoding reads each alphabet
/// character back as its position, and every other byte as no symbol.
pub proof fn alphabet_order(v: u8, b: u8)
    ensures
        alphabet().len() == 64,
        v < 64 ==> alphabet_code(v) as char == alphabet()[v as int],
        symbol_value(b) == Some(v) <==> (v < 64 && alphabet()[v as int] == b as char),
{
    reveal_strlit("ABCDEFGHIJKLMNOPQRSTUVWXYZabcdefghijklmnopqrstuvwxyz0123456789+/");
    if v < 64 {
        assert(alphabet_code(v) as char == alphabet()[v as int]);
        lemma_alphabet_code(v);
    }
}

/// Every three bytes are written as four alphabet characters, each standing
/// for six of their 24 bits from the most significant on: the top six bits
/// of the first byte; its low two and the top four of the second; the low
/// four of the second and the top two of the third; the low six of the
/// third. One or two final bytes are written alike with the missing bits
/// zero, followed by `==` or `=`. Longer input is written group by group.
pub proof fn encoding_by_groups(b0: u8, b1: u8, b2: u8, rest: Seq<u8>)
    ensures
        encoding(seq![b0, b1, b2] + rest) == seq![
            alphabet()[b0 as int / 4],
            alphabet()[(b0 % 4) * 16 + b1 / 16],
            alphabet()[(b1 % 16) * 4 + b2 / 64],
            alphabet()[b2 as int % 64],
        ] + encoding(rest),
        encoding(seq![b0, b1]) == seq![
            alphabet()[b0 as int / 4],
            alphabet()[(b0 % 4) * 16 + b1 / 16],
            alphabet()[(b1 % 16) * 4],
            '=',
        ],
        encoding(seq![b0]) == seq![alphabet()[b0 as int / 4], alphabet()[(b0 % 4) * 16], '=', '='],
{
    let s0 = (b0 / 4) as u8;
    let s1 = ((b0 % 4) * 16 + b1 / 16) as u8;
    let s2 = ((b1 % 16) * 4 + b2 / 64) as u8;
    let s3 = (b2 % 64) as u8;
    let t1 = ((b0 % 4) * 16 + 0u8 / 16) as u8;
    let t2 = ((b1 % 16) * 4 + 0u8 / 64) as u8;
    alphabet_order(s0, 0);
    alphabet_order(s1, 0);
    alphabet_order(s2, 0);
    alphabet_order(s3, 0);
    alphabet_order(t1, 0);
    alphabet_order(t2, 0);
    let g: Seq<u8> = seq![b0, b1, b2];
    let b = g + rest;
    if rest.len() == 0 {
        assert(b == g);
    } else {
        assert(b.take(3) == g);
        assert(b.skip(3) == rest);
    }
    let c3 = chunk_sextets(g);
    assert(c3 == seq![s0, s1, s2, s3]);
    assert(encode_chunk(g) =~= seq![
        alphabet()[b0 as int / 4],
        alphabet()[(b0 % 4) * 16 + b1 / 16],
        alphabet()[(b1 % 16) * 4 + b2 / 64],
        alphabet()[b2 as int % 64],
    ]);
    if rest.len() == 0 {
        assert(encoding(rest) == Seq::<char>::empty());
    }
    let two: Seq<u8> = seq![b0, b1];
    assert(chunk_sextets(two) == seq![s0, s1, t2]);
    assert(encode_chunk(two) =~= seq![
        alphabet()[b0 as int / 4],
        alphabet()[(b0 % 4) * 16 + b1 / 16],
        alphabet()[(b1 % 16) * 4],
        '=',
    ]);
    let one: Seq<u8> = seq![b0];
    assert(chunk_sextets(one) == seq![s0, t1]);
    assert(encode_chunk(one) =~= seq![alphabet()[b0 as int / 4], alphabet()[(b0 % 4) * 16], '=', '=']);
}

/// Decoding the bytes of an encoding gives back exactly the encoded bytes.
pub proof fn base64_round_trip(b: Seq<u8>)
    ensures
        decoding(encode_utf8(encoding(b))) == Ok::<Seq<u8>, DecodeError>(b),
{
    lemma_encoding_form(b);
    lemma_all_sextets(b);
    let s = all_sextets(b);
    let text = encoding(b);
    let codes = Seq::new(s.len(), |i: int| alphabet_code(s[i]));
    let pads = Seq::new(padding(b.len() as int).len(), |i: int| PAD);
    assert forall|i: int| 0 <= i < s.len() implies symbol_value(#[trigger] codes[i]) == Some(s[i])
        && codes[i] != PAD && !is_skipped_space(codes[i]) && codes[i] < 128 by {
        lemma_alphabet_code(s[i]);
    }
    assert(vstd::utf8::is_ascii_chars(text)) by {
        assert forall|i: int| 0 <= i < text.len() implies '\0' <= #[trigger] text[i] <= '\u{7f}' by {
            if i < s.len() {
                assert(text[i] == alphabet_code(s[i]) as char);
                lemma_alphabet_code(s[i]);
            } else {
                assert(text[i] == '=');
            }
        }
    }
    vstd::utf8::is_ascii_chars_encode_utf8(text);
    let bytes = encode_utf8(text);
    assert(bytes == codes + pads) by {
        assert forall|i: int| 0 <= i < bytes.len() implies #[trigger] bytes[i] == (codes + pads)[i] by {
            assert(text[i] as u8 == bytes[i]);
            if i < s.len() {
                assert(text[i] == alphabet_code(s[i]) as char);
                lemma_alphabet_code(s[i]);
            } else {
                assert(text[i] == '=');
            }
        }
    }
    lemma_without_spaces_id(bytes);
    lemma_without_padding_tail(codes, pads);
    assert(sextets(codes) == s);
}

/// Base64 text holds only alphabet characters and `=`: no whitespace.
pub proof fn encoding_has_no_whitespace(b: Seq<u8>)
    ensures
        forall|i: int|
            0 <= i < encoding(b).len() ==> !crate::text::is_white_space(#[trigger] encoding(b)[i]),
        encoding(b).len() == 0 <==> b.len() == 0,
{
    lemma_encoding_form(b);
    lemma_all_sextets(b);
    let s = all_sextets(b);
    assert forall|i: int| 0 <= i < encoding(b).len() implies !crate::text::is_white_space(
        #[trigger] encoding(b)[i],
    ) by {
        if i < s.len() {
            assert(encoding(b)[i] == alphabet_code(s[i]) as char);
            lemma_alphabet_code(s[i]);
        } else {
            assert(encoding(b)[i] == '=');
        }
    }
}

/// Base64 text is four characters for every started group of three bytes.
pub proof fn encoding_length(b: Seq<u8>)
    ensures
        encoding(b).len() == 4 * ((b.len() + 2) / 3),
    decreases b.len(),
{
    if b.len() > 3 {
        encoding_length(b.skip(3));
        lemma_chunk_sextets(b.take(3));
    } else if b.len() > 0 {
        lemma_chunk_sextets(b);
    }
}

} // verus!
