//! Big-endian integers and UTF-8 text as they appear in binary column payloads.
use byteorder::{BigEndian, ByteOrder};
use vstd::prelude::*;
use vstd::string::StrSliceExecFns;
use vstd::utf8::{decode_utf8, valid_utf8};

verus! {

/// `256` raised to `n`.
pub open spec fn pow256(n: nat) -> nat
    decreases n,
{
    if n == 0 {
        1
    } else {
        256 * pow256((n - 1) as nat)
    }
}

/// Unsigned value of a big-endian byte sequence.
pub open spec fn be_nat(b: Seq<u8>) -> nat
    decreases b.len(),
{
    if b.len() == 0 {
        0
    } else {
        be_nat(b.drop_last()) * 256 + b.last() as nat
    }
}

/// Two's-complement value of a non-empty big-endian byte sequence.
pub open spec fn be_int(b: Seq<u8>) -> int {
    let u = be_nat(b);
    if u >= pow256(b.len()) / 2 {
        u - pow256(b.len())
    } else {
        u as int
    }
}

/// The `n`-byte big-endian encoding of `x`, keeping its `n` low bytes.
pub open spec fn be_bytes(x: nat, n: nat) -> Seq<u8>
    decreases n,
{
    if n == 0 {
        Seq::empty()
    } else {
        be_bytes(x / 256, (n - 1) as nat).push((x % 256) as u8)
    }
}

/// Reading back an encoding gives the value it was made from.
pub proof fn lemma_be_bytes_round_trip(x: nat, n: nat)
    requires
        x < pow256(n),
    ensures
        be_bytes(x, n).len() == n,
        be_nat(be_bytes(x, n)) == x,
    decreases n,
{
    if n > 0 {
        let m = (n - 1) as nat;
        assert(x / 256 < pow256(m)) by (nonlinear_arith)
            requires
                x < 256 * pow256(m),
        ;
        lemma_be_bytes_round_trip(x / 256, m);
        let s = be_bytes(x, n);
        assert(s.drop_last() =~= be_bytes(x / 256, m));
        assert((x / 256) * 256 + x % 256 == x) by (nonlinear_arith);
    }
}

/// Relies on byteorder's `BigEndian::read_i16`: the first two bytes as a big-endian `i16`.
#[verifier::external_body]
pub(crate) fn read_i16(b: &[u8]) -> (r: i16)
    requires
        b@.len() == 2,
    ensures
        r as int == be_int(b@),
{
    BigEndian::read_i16(b)
}

/// Relies on byteorder's `BigEndian::read_i32`: the first four bytes as a big-endian `i32`.
#[verifier::external_body]
pub(crate) fn read_i32(b: &[u8]) -> (r: i32)
    requires
        b@.len() == 4,
    ensures
        r as int == be_int(b@),
{
    BigEndian::read_i32(b)
}

/// Relies on byteorder's `BigEndian::read_i64`: the first eight bytes as a big-endian `i64`.
#[verifier::external_body]
pub(crate) fn read_i64(b: &[u8]) -> (r: i64)
    requires
        b@.len() == 8,
    ensures
        r as int == be_int(b@),
{
    BigEndian::read_i64(b)
}

/// Relies on byteorder's `BigEndian::read_u128`: the first sixteen bytes as a big-endian `u128`.
#[verifier::external_body]
pub(crate) fn read_u128(b: &[u8]) -> (r: u128)
    requires
        b@.len() == 16,
    ensures
        r as nat == be_nat(b@),
{
    BigEndian::read_u128(b)
}

/// Relies on `std::str::from_utf8`: it accepts exactly the valid UTF-8 sequences,
/// and the text is the characters they encode.
#[verifier::external_body]
pub(crate) fn utf8_text(b: &[u8]) -> (r: Option<String>)
    ensures
        r is Some <==> valid_utf8(b@),
        r matches Some(s) ==> s@ == decode_utf8(b@),
{
    std::str::from_utf8(b).ok().map(|s| s.to_string())
}

/// Whether two strings hold the same characters.
pub fn same_text(s: &str, t: &str) -> (r: bool)
    ensures
        r == (s@ == t@),
{
    let n = s.unicode_len();
    if n != t.unicode_len() {
        return false;
    }
    let mut i: usize = 0;
    while i < n
        invariant
            n == s@.len(),
            n == t@.len(),
            i <= n,
            forall|j: int| 0 <= j < i ==> s@[j] == t@[j],
        decreases n - i,
    {
        if s.get_char(i) != t.get_char(i) {
            return false;
        }
        i = i + 1;
    }
    assert(s@ =~= t@);
    true
}

} // verus!
