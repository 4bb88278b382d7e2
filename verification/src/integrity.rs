//! The two integrity checks shared by every message of the sensor family:
//! an 8-bit additive checksum (wrap-around sum) and an 8-bit CRC with the
//! Dallas/Maxim polynomial, as used for 1-Wire device integrity.

use vstd::prelude::*;
use vstd::arithmetic::div_mod::{
    lemma_add_mod_noop_right, lemma_fundamental_div_mod, lemma_mod_bound,
};

verus! {

/// Plain (unreduced) sum of a byte sequence.
pub open spec fn sum_int(s: Seq<u8>) -> int
    decreases s.len(),
{
    if s.len() == 0 {
        0
    } else {
        sum_int(s.drop_last()) + s.last()
    }
}

/// Wrap-around sum of a byte sequence: the additive checksum of the protocol.
pub open spec fn sum_bytes(s: Seq<u8>) -> u8 {
    (sum_int(s) % 256) as u8
}

/// The Dallas/Maxim CRC-8 of a byte sequence. The polynomial arithmetic is
/// the CRC library's business; the contracts only rely on the value being a
/// function of the bytes alone.
pub uninterp spec fn crc8_maxim_of(data: Seq<u8>) -> u8;

/// Relies on crc_any::CRCu8::crc8maxim (with digest and get_crc): the
/// Dallas/Maxim CRC-8 of the digested bytes, a function of those bytes alone.
#[verifier::external_body]
pub(crate) fn crc8_maxim(data: &[u8]) -> (r: u8)
    ensures
        r == crc8_maxim_of(data@),
{
    let mut crc = crc_any::CRCu8::crc8maxim();
    crc.digest(data);
    crc.get_crc()
}

proof fn lemma_sum_int_bounds(s: Seq<u8>)
    ensures
        0 <= sum_int(s) <= 255 * s.len(),
    decreases s.len(),
{
    if s.len() > 0 {
        lemma_sum_int_bounds(s.drop_last());
    }
}

/// Wrap-around sum of the bytes of `data`.
pub fn checksum(data: &[u8]) -> (r: u8)
    ensures
        r == sum_bytes(data@),
{
    let mut acc: u8 = 0;
    let mut i: usize = 0;
    while i < data.len()
        invariant
            0 <= i <= data@.len(),
            acc == sum_bytes(data@.subrange(0, i as int)),
        decreases data@.len() - i,
    {
        let prefix = Ghost(data@.subrange(0, i as int));
        let b = data[i];
        proof {
            assert(data@.subrange(0, i + 1 as int).drop_last() =~= prefix@);
            assert(data@.subrange(0, i + 1 as int).last() == b);
            lemma_add_mod_noop_right(b as int, sum_int(prefix@), 256);
            assert((b + sum_int(prefix@) % 256) % 256 == (b + sum_int(prefix@)) % 256);
            lemma_mod_bound(sum_int(prefix@) + b, 256);
            lemma_sum_int_bounds(prefix@);
            lemma_mod_bound(sum_int(prefix@), 256);
        }
        acc = (((acc as u16 + b as u16) % 256) as u8);
        i = i + 1;
    }
    proof {
        assert(data@.subrange(0, data@.len() as int) =~= data@);
    }
    acc
}

/// Replacing one byte of a sequence shifts its plain sum by the difference
/// of the new and the old byte.
pub proof fn lemma_sum_int_update(s: Seq<u8>, i: int, v: u8)
    requires
        0 <= i < s.len(),
    ensures
        sum_int(s.update(i, v)) == sum_int(s) - s[i] + v,
    decreases s.len(),
{
    if i == s.len() - 1 {
        assert(s.update(i, v).drop_last() =~= s.drop_last());
    } else {
        assert(s.update(i, v).drop_last() =~= s.drop_last().update(i, v));
        lemma_sum_int_update(s.drop_last(), i, v);
    }
}

/// Two integers closer together than the modulus have equal residues only
/// when they are equal.
proof fn lemma_mod_injective_nearby(a: int, b: int, m: int)
    requires
        m > 0,
        a - b < m,
        b - a < m,
        a % m == b % m,
    ensures
        a == b,
{
    lemma_fundamental_div_mod(a, m);
    lemma_fundamental_div_mod(b, m);
    let qa = a / m;
    let qb = b / m;
    assert(a - b == m * (qa - qb)) by (nonlinear_arith)
        requires
            a == m * qa + a % m,
            b == m * qb + b % m,
            a % m == b % m,
    ;
    if qa != qb {
        assert(m * (qa - qb) >= m || m * (qa - qb) <= -m) by (nonlinear_arith)
            requires
                m > 0,
                qa != qb,
        ;
    }
}

/// Replacing one byte of a sequence by a different byte always changes the
/// wrap-around sum: the additive checksum detects every single-byte change.
pub proof fn lemma_sum_bytes_update_changes(s: Seq<u8>, i: int, v: u8)
    requires
        0 <= i < s.len(),
        v != s[i],
    ensures
        sum_bytes(s.update(i, v)) != sum_bytes(s),
{
    lemma_sum_int_update(s, i, v);
    lemma_mod_bound(sum_int(s), 256);
    lemma_mod_bound(sum_int(s.update(i, v)), 256);
    if sum_bytes(s.update(i, v)) == sum_bytes(s) {
        lemma_mod_injective_nearby(sum_int(s.update(i, v)), sum_int(s), 256);
    }
}

} // verus!
