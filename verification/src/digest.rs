//! The 64-bit FNV-1a digest used for stable fingerprints, rendered as 16
//! lower-case hexadecimal digits.
use sha2::Digest;
use vstd::prelude::*;
use vstd::string::StringSliceAdditionalSpecFns;
use vstd::string::StringExecFns;

verus! {

pub const FNV_OFFSET: u64 = 0xcbf29ce484222325;

pub const FNV_PRIME: u64 = 0x100000001b3;

pub open spec fn fnv_step(h: u64, b: u8) -> u64 {
    (h ^ (b as u64)).wrapping_mul(FNV_PRIME)
}

pub open spec fn fnv1a(s: Seq<u8>) -> u64
    decreases s.len(),
{
    if s.len() == 0 {
        FNV_OFFSET
    } else {
        fnv_step(fnv1a(s.drop_last()), s.last())
    }
}

/// The lower-case hexadecimal digit of a nibble.
pub open spec fn hex_char(d: u64) -> char {
    if d < 10 {
        (48 + d) as char
    } else {
        (87 + d) as char
    }
}

pub open spec fn nibble(v: u64, k: int) -> u64 {
    (v >> ((60 - 4 * k) as u64)) & 15u64
}

/// `v` as exactly 16 lower-case hexadecimal digits, most significant first.
pub open spec fn hex16(v: u64) -> Seq<char> {
    Seq::new(16, |k: int| hex_char(nibble(v, k)))
}

/// Every rendering of a digest is 16 hexadecimal digits, one byte each.
pub proof fn lemma_hex16_is_hex(v: u64)
    ensures
        crate::text::hex_of_len(hex16(v), 16),
        crate::text::lower_hex_of_len(hex16(v), 16),
{
    let s = hex16(v);
    assert forall|k: int| 0 <= k < 16 implies nibble(v, k) < 16 by {
        let sh = (60 - 4 * k) as u64;
        assert((v >> sh) & 15u64 < 16) by (bit_vector);
    }
    assert(vstd::utf8::is_ascii_chars(s));
    vstd::utf8::is_ascii_chars_encode_utf8(s);
}

/// The fingerprint of a byte string: its FNV-1a digest in hexadecimal.
pub open spec fn fingerprint_of(s: Seq<u8>) -> Seq<char> {
    hex16(fnv1a(s))
}

pub fn fnv1a_bytes(s: &[u8]) -> (h: u64)
    ensures
        h == fnv1a(s@),
{
    let mut h: u64 = FNV_OFFSET;
    let mut i: usize = 0;
    assert(s@.take(0) =~= Seq::<u8>::empty());
    while i < s.len()
        invariant
            i <= s@.len(),
            h == fnv1a(s@.take(i as int)),
        decreases s@.len() - i,
    {
        assert(s@.take(i + 1).drop_last() =~= s@.take(i as int));
        h = (h ^ (s[i] as u64)).wrapping_mul(FNV_PRIME);
        i = i + 1;
    }
    assert(s@.take(i as int) =~= s@);
    h
}

fn hex_digit(d: u64) -> (r: &'static str)
    requires
        d < 16,
    ensures
        r@ == seq![hex_char(d)],
{
    proof {
        reveal_strlit("0");
        reveal_strlit("1");
        reveal_strlit("2");
        reveal_strlit("3");
        reveal_strlit("4");
        reveal_strlit("5");
        reveal_strlit("6");
        reveal_strlit("7");
        reveal_strlit("8");
        reveal_strlit("9");
        reveal_strlit("a");
        reveal_strlit("b");
        reveal_strlit("c");
        reveal_strlit("d");
        reveal_strlit("e");
        reveal_strlit("f");
    }
    match d {
        0 => "0",
        1 => "1",
        2 => "2",
        3 => "3",
        4 => "4",
        5 => "5",
        6 => "6",
        7 => "7",
        8 => "8",
        9 => "9",
        10 => "a",
        11 => "b",
        12 => "c",
        13 => "d",
        14 => "e",
        _ => "f",
    }
}

/// Renders `v` as 16 lower-case hexadecimal digits.
pub fn to_hex16(v: u64) -> (r: String)
    ensures
        r@ == hex16(v),
{
    let mut out = String::new();
    let mut k: u64 = 0;
    while k < 16
        invariant
            k <= 16,
            out@.len() == k,
            forall|j: int| 0 <= j < k ==> #[trigger] out@[j] == hex_char(nibble(v, j)),
        decreases 16 - k,
    {
        let shift: u64 = 60 - 4 * k;
        let d = (v >> shift) & 15;
        assert(d < 16) by (bit_vector)
            requires
                d == (v >> shift) & 15u64,
        ;
        assert(d == nibble(v, k as int));
        out.append(hex_digit(d));
        k = k + 1;
    }
    assert(out@ =~= hex16(v));
    out
}

/// The stable fingerprint of a text: FNV-1a over its UTF-8 bytes, in hex.
pub fn fingerprint(s: &str) -> (r: String)
    ensures
        r@ == fingerprint_of(s.spec_bytes()),
{
    to_hex16(fnv1a_bytes(s.as_bytes()))
}


/// The decimal digits of `n`, most significant first.
pub open spec fn decimal(n: nat) -> Seq<char>
    decreases n,
{
    if n < 10 {
        seq![hex_char(n as u64)]
    } else {
        decimal(n / 10) + seq![hex_char((n % 10) as u64)]
    }
}

/// Renders `n` in decimal.
pub fn to_decimal(n: usize) -> (r: String)
    ensures
        r@ == decimal(n as nat),
    decreases n,
{
    if n < 10 {
        let mut s = String::new();
        s.append(hex_digit(n as u64));
        assert(s@ =~= decimal(n as nat));
        s
    } else {
        let mut s = to_decimal(n / 10);
        s.append(hex_digit((n % 10) as u64));
        assert(s@ =~= decimal(n as nat));
        s
    }
}

/// Renders a 64-bit `n` in decimal.
pub fn to_decimal_u64(n: u64) -> (r: String)
    ensures
        r@ == decimal(n as nat),
    decreases n,
{
    if n < 10 {
        let mut s = String::new();
        s.append(hex_digit(n));
        assert(s@ =~= decimal(n as nat));
        s
    } else {
        let mut s = to_decimal_u64(n / 10);
        s.append(hex_digit(n % 10));
        assert(s@ =~= decimal(n as nat));
        s
    }
}

/// Each byte of `b` as two lower-case hexadecimal digits.
pub open spec fn hex_bytes(b: Seq<u8>) -> Seq<char>
    decreases b.len(),
{
    if b.len() == 0 {
        seq![]
    } else {
        hex_bytes(b.drop_last()) + seq![
            hex_char((b.last() / 16) as u64),
            hex_char((b.last() % 16) as u64),
        ]
    }
}

/// Renders each byte as two lower-case hexadecimal digits.
pub fn lower_hex(b: &[u8]) -> (r: String)
    ensures
        r@ == hex_bytes(b@),
{
    let mut out = String::new();
    let mut i: usize = 0;
    assert(b@.take(0) =~= Seq::<u8>::empty());
    while i < b.len()
        invariant
            i <= b@.len(),
            out@ == hex_bytes(b@.take(i as int)),
        decreases b@.len() - i,
    {
        assert(b@.take(i + 1).drop_last() =~= b@.take(i as int));
        out.append(hex_digit((b[i] / 16) as u64));
        out.append(hex_digit((b[i] % 16) as u64));
        i = i + 1;
    }
    assert(b@.take(i as int) =~= b@);
    out
}

/// The SHA-256 hash of a byte string.
pub uninterp spec fn sha256_of(bytes: Seq<u8>) -> Seq<u8>;

/// Calls `sha2::Sha256::digest`: the result is the hash of the bytes, 32
/// bytes long; which bytes they are is left to sha2.
#[verifier::external_body]
pub(crate) fn sha256(bytes: &[u8]) -> (r: Vec<u8>)
    ensures
        r@ == sha256_of(bytes@),
        r@.len() == 32,
{
    sha2::Sha256::digest(bytes).to_vec()
}

/// The hexadecimal rendering has two digits per byte.
pub proof fn lemma_hex_bytes_len(b: Seq<u8>)
    ensures
        hex_bytes(b).len() == 2 * b.len(),
    decreases b.len(),
{
    if b.len() > 0 {
        lemma_hex_bytes_len(b.drop_last());
    }
}

} // verus!
