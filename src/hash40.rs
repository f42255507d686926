use vstd::prelude::*;

verus! {

/// A 40-bit identifier: the CRC-32 of a byte string in the low 32 bits and its
/// length in the byte above, kept right-aligned in a 64-bit word.
#[derive(Clone, Copy, Debug, PartialEq, Eq, Structural, PartialOrd, Ord, Hash)]
pub struct Hash40(pub u64);

/// The IEEE CRC-32 (reflected polynomial 0x04C11DB7, initial and final XOR
/// 0xFFFFFFFF) of a byte string.
pub uninterp spec fn crc32_of(bytes: Seq<u8>) -> u32;

/// Relies on `crc32fast::hash`: the IEEE CRC-32 of the slice, a function of its bytes alone.
#[verifier::external_body]
fn crc32(bytes: &[u8]) -> (r: u32)
    ensures
        r == crc32_of(bytes@),
{
    crc32fast::hash(bytes)
}

/// The hash word of a byte string: its length shifted above the CRC-32.
/// Only the low 32 bits of the length survive the shift, as in a 64-bit word.
pub open spec fn hash40_word(bytes: Seq<u8>) -> u64 {
    ((bytes.len() % 0x1_0000_0000) * 0x1_0000_0000 + crc32_of(bytes) as int) as u64
}

impl Hash40 {
    pub fn as_u64(self) -> (r: u64)
        ensures
            r == self.0,
    {
        self.0
    }

    /// The length byte (bits 32 to 39).
    pub fn len(self) -> (r: u8)
        ensures
            r as int == (self.0 as int / 0x1_0000_0000) % 0x100,
    {
        let x = self.0;
        assert((x >> 32u64) as u8 == ((x / 0x1_0000_0000u64) % 0x100u64) as u8) by (bit_vector);
        (self.0 >> 32u64) as u8
    }

    /// The CRC-32 part (the low 32 bits).
    pub fn crc32(self) -> (r: u32)
        ensures
            r as int == self.0 as int % 0x1_0000_0000,
    {
        (self.0 % 0x1_0000_0000u64) as u32
    }
}

impl From<u64> for Hash40 {
    fn from(hash: u64) -> (r: Hash40)
        ensures
            r == Hash40(hash),
    {
        Hash40(hash)
    }
}

impl vstd::std_specs::convert::FromSpecImpl<u64> for Hash40 {
    open spec fn obeys_from_spec() -> bool {
        true
    }

    open spec fn from_spec(hash: u64) -> Hash40 {
        Hash40(hash)
    }
}

impl<'a> From<&'a str> for Hash40 {
    fn from(string: &'a str) -> (r: Hash40)
        ensures
            r.0 == hash40_word(vstd::utf8::encode_utf8(string@)),
    {
        hash40(string)
    }
}

impl<'a> vstd::std_specs::convert::FromSpecImpl<&'a str> for Hash40 {
    open spec fn obeys_from_spec() -> bool {
        true
    }

    open spec fn from_spec(string: &'a str) -> Hash40 {
        Hash40(hash40_word(vstd::utf8::encode_utf8(string@)))
    }
}

impl Hash40 {
    /// The hash of a byte string of length `len` whose CRC-32 is `crc`: the
    /// low 32 bits of the length shifted above the CRC.
    pub fn from_crc32_and_len(crc: u32, len: u64) -> (r: Hash40)
        ensures
            r.0 == (len as int % 0x1_0000_0000) * 0x1_0000_0000 + crc as int,
    {
        let low: u64 = len % 0x1_0000_0000u64;
        assert(low * 0x1_0000_0000 + crc as int <= u64::MAX) by (nonlinear_arith)
            requires
                low < 0x1_0000_0000,
                crc <= u32::MAX,
        ;
        Hash40(low * 0x1_0000_0000u64 + crc as u64)
    }
}

/// The `Hash40` of a byte string.
pub fn hash40_from_bytes(bytes: &[u8]) -> (r: Hash40)
    ensures
        r.0 == hash40_word(bytes@),
{
    let crc = crc32(bytes);
    Hash40::from_crc32_and_len(crc, bytes.len() as u64)
}

/// The `Hash40` of a string: that of its UTF-8 bytes.
pub fn hash40(string: &str) -> (r: Hash40)
    ensures
        r.0 == hash40_word(vstd::utf8::encode_utf8(string@)),
{
    hash40_from_bytes(string.as_bytes())
}

/// A `Hash40` written as a string: `"0x…"` in hexadecimal, or else a label
/// whose hash it is.
#[derive(Clone, Copy, Debug, PartialEq, Eq, Structural, PartialOrd, Ord, Hash)]
pub struct Hash40String(pub Hash40);

/// The value of an ASCII hexadecimal digit.
pub open spec fn hex_digit(b: u8) -> Option<nat> {
    if 0x30 <= b <= 0x39 {
        Some((b - 0x30) as nat)
    } else if 0x61 <= b <= 0x66 {
        Some((b - 0x61 + 10) as nat)
    } else if 0x41 <= b <= 0x46 {
        Some((b - 0x41 + 10) as nat)
    } else {
        None
    }
}

/// The value of a string of hexadecimal digits, most significant first.
pub open spec fn hex_value(d: Seq<u8>) -> nat
    decreases d.len(),
{
    if d.len() == 0 {
        0
    } else {
        hex_value(d.drop_last()) * 16 + match hex_digit(d.last()) {
            Some(v) => v,
            None => 0,
        }
    }
}

/// Every byte is a hexadecimal digit.
pub open spec fn all_hex(t: Seq<u8>) -> bool {
    forall|i: int| 0 <= i < t.len() ==> hex_digit(#[trigger] t[i]) is Some
}

/// One or more hexadecimal digits, of a value that fits in 64 bits.
pub open spec fn radix16_digits(t: Seq<u8>) -> Option<u64> {
    if t.len() > 0 && all_hex(t) && hex_value(t) <= u64::MAX {
        Some(hex_value(t) as u64)
    } else {
        None
    }
}

/// A 64-bit number in hexadecimal: an optional `+`, then one or more digits,
/// of a value that fits.
pub open spec fn radix16(d: Seq<u8>) -> Option<u64> {
    if d.len() > 0 && d[0] == 0x2B {
        radix16_digits(d.drop_first())
    } else {
        radix16_digits(d)
    }
}

/// The bytes after every leading `"0x"`.
pub open spec fn strip_hex_prefixes(d: Seq<u8>) -> Seq<u8>
    decreases d.len(),
{
    if d.len() >= 2 && d[0] == 0x30 && d[1] == 0x78 {
        strip_hex_prefixes(d.subrange(2, d.len() as int))
    } else {
        d
    }
}

/// What a string names: after `"0x"`, the hexadecimal number that follows
/// every leading `"0x"`, if it is one; otherwise the hash of the string.
pub open spec fn hash40_string_form(d: Seq<u8>) -> Hash40 {
    if d.len() >= 2 && d[0] == 0x30 && d[1] == 0x78 {
        match radix16(strip_hex_prefixes(d)) {
            Some(v) => Hash40(v),
            None => Hash40(hash40_word(d)),
        }
    } else {
        Hash40(hash40_word(d))
    }
}

proof fn lemma_hex_value_grows(d: Seq<u8>, k: int)
    requires
        0 <= k <= d.len(),
    ensures
        hex_value(d.subrange(0, k)) <= hex_value(d),
    decreases d.len() - k,
{
    if k < d.len() {
        lemma_hex_value_grows(d, k + 1);
        assert(d.subrange(0, k + 1).drop_last() =~= d.subrange(0, k));
    } else {
        assert(d.subrange(0, k) =~= d);
    }
}

fn hex_digit_of(b: u8) -> (r: Option<u64>)
    ensures
        match hex_digit(b) {
            Some(v) => r == Some(v as u64),
            None => r is None,
        },
{
    if 0x30 <= b && b <= 0x39 {
        Some((b - 0x30) as u64)
    } else if 0x61 <= b && b <= 0x66 {
        Some((b - 0x61 + 10) as u64)
    } else if 0x41 <= b && b <= 0x46 {
        Some((b - 0x41 + 10) as u64)
    } else {
        None
    }
}

/// Reads bytes as `radix16` says.
fn parse_radix16(d: &[u8]) -> (r: Option<u64>)
    ensures
        r == radix16(d@),
{
    let n = d.len();
    let start: usize = if n > 0 && d[0] == 0x2B { 1 } else { 0 };
    let ghost t = if d@.len() > 0 && d@[0] == 0x2B { d@.drop_first() } else { d@ };
    assert(t =~= d@.subrange(start as int, n as int));
    assert(radix16(d@) == radix16_digits(t));
    if start == n {
        return None;
    }
    let mut acc: u64 = 0;
    let mut i: usize = start;
    while i < n
        invariant
            start <= i <= n == d@.len(),
            t =~= d@.subrange(start as int, n as int),
            radix16(d@) == radix16_digits(t),
            acc == hex_value(t.subrange(0, i - start)),
            all_hex(t.subrange(0, i - start)),
        decreases n - i,
    {
        let ghost k = i - start;
        assert(t.subrange(0, k + 1).drop_last() =~= t.subrange(0, k));
        assert(t.subrange(0, k + 1).last() == d@[i as int]);
        let v = match hex_digit_of(d[i]) {
            Some(v) => v,
            None => {
                assert(hex_digit(t[k]) is None);
                assert(!all_hex(t));
                return None;
            },
        };
        assert(hex_value(t.subrange(0, k + 1)) == acc * 16 + v);
        if acc > (u64::MAX - v) / 16 {
            proof {
                assert(acc * 16 + v > u64::MAX) by (nonlinear_arith)
                    requires
                        acc > (u64::MAX - v) / 16,
                        v < 16,
                ;
                lemma_hex_value_grows(t, k + 1);
            }
            return None;
        }
        assert(acc * 16 + v <= u64::MAX) by (nonlinear_arith)
            requires
                acc <= (u64::MAX - v) / 16,
                v < 16,
        ;
        acc = acc * 16 + v;
        i = i + 1;
    }
    assert(t.subrange(0, n - start) =~= t);
    Some(acc)
}

impl Hash40String {
    /// What a string names, as `hash40_string_form` says.
    pub fn parse(s: &str) -> (r: Hash40String)
        ensures
            r.0 == hash40_string_form(vstd::utf8::encode_utf8(s@)),
    {
        let b = s.as_bytes();
        if b.len() >= 2 && b[0] == 0x30 && b[1] == 0x78 {
            let mut rest = b;
            while rest.len() >= 2 && rest[0] == 0x30 && rest[1] == 0x78
                invariant
                    strip_hex_prefixes(rest@) == strip_hex_prefixes(b@),
                decreases rest@.len(),
            {
                rest = vstd::slice::slice_subrange(rest, 2, rest.len());
            }
            if let Some(v) = parse_radix16(rest) {
                return Hash40String(Hash40(v));
            }
        }
        Hash40String(hash40_from_bytes(b))
    }
}

} // verus!
