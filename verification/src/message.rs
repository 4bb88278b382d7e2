//! Message framing and integrity verification: locating a message behind its
//! synchronization marker inside a noisy capture, and validating it with the
//! two independent integrity checks before its body is decoded.

use vstd::prelude::*;
use vstd::slice::slice_subrange;

use crate::integrity::{checksum, crc8_maxim, crc8_maxim_of, sum_bytes};

verus! {

/// The fixed three-byte synchronization marker that precedes every message.
pub open spec fn spec_preamble() -> Seq<u8> {
    seq![0xaau8, 0x2du8, 0xd4u8]
}

/// The synchronization marker as bytes, for callers that assemble captures.
pub fn preamble() -> (r: Vec<u8>)
    ensures
        r@ == spec_preamble(),
{
    let mut v: Vec<u8> = Vec::new();
    v.push(0xaa);
    v.push(0x2d);
    v.push(0xd4);
    proof {
        assert(v@ =~= spec_preamble());
    }
    v
}

/// True when the synchronization marker starts at position `i` of `s`.
pub open spec fn preamble_at(s: Seq<u8>, i: int) -> bool {
    &&& 0 <= i
    &&& i + 3 <= s.len()
    &&& s[i] == 0xaau8
    &&& s[i + 1] == 0x2du8
    &&& s[i + 2] == 0xd4u8
}

/// Position of the first occurrence of the marker at or after `i`.
pub open spec fn find_preamble_from(s: Seq<u8>, i: int) -> Option<int>
    decreases s.len() - i,
{
    if i < 0 || i + 3 > s.len() {
        None
    } else if preamble_at(s, i) {
        Some(i)
    } else {
        find_preamble_from(s, i + 1)
    }
}

/// The payload of a capture: everything strictly after the first occurrence
/// of the marker, provided it is non-empty.
pub open spec fn spec_payload(s: Seq<u8>) -> Option<Seq<u8>> {
    match find_preamble_from(s, 0) {
        Some(i) => if i + 3 < s.len() {
            Some(s.subrange(i + 3, s.len() as int))
        } else {
            None
        },
        None => None,
    }
}

/// A found position lies at or after the start of the search and holds the
/// marker.
proof fn lemma_find_preamble_found(s: Seq<u8>, i: int)
    ensures
        match find_preamble_from(s, i) {
            Some(j) => i <= j && preamble_at(s, j),
            None => true,
        },
    decreases s.len() - i,
{
    if !(i < 0 || i + 3 > s.len()) && !preamble_at(s, i) {
        lemma_find_preamble_found(s, i + 1);
    }
}

/// A payload, where there is one, has at least its device-type byte.
pub proof fn lemma_payload_nonempty(s: Seq<u8>)
    ensures
        match spec_payload(s) {
            Some(p) => p.len() > 0,
            None => true,
        },
{
    if find_preamble_from(s, 0) is Some {
        lemma_find_preamble_found(s, 0);
    }
}

/// Scan a capture for the first occurrence of the synchronization marker and
/// return the bytes strictly after it. Noise-only captures, and captures
/// where nothing follows the marker, give no payload; that is not an error.
pub fn bitstream_to_payload(bitstream: &[u8]) -> (r: Option<&[u8]>)
    ensures
        match r {
            Some(p) => spec_payload(bitstream@) == Some(p@),
            None => spec_payload(bitstream@) is None,
        },
{
    let n = bitstream.len();
    if n < 3 {
        return None;
    }
    let mut i: usize = 0;
    while i <= n - 3
        invariant
            n == bitstream@.len(),
            3 <= n,
            0 <= i <= n - 2,
            find_preamble_from(bitstream@, 0) == find_preamble_from(bitstream@, i as int),
        decreases n - i,
    {
        if bitstream[i] == 0xaa && bitstream[i + 1] == 0x2d && bitstream[i + 2] == 0xd4 {
            assert(preamble_at(bitstream@, i as int));
            assert(find_preamble_from(bitstream@, i as int) == Some(i as int));
            if i + 3 < n {
                let p = slice_subrange(bitstream, i + 3, n);
                return Some(p);
            } else {
                return None;
            }
        }
        assert(!preamble_at(bitstream@, i as int));
        i = i + 1;
    }
    None
}

/// A stretch of positions without the marker does not move the search.
proof fn lemma_find_preamble_advance(s: Seq<u8>, i: int, j: int)
    requires
        0 <= i <= j,
        forall|k: int| i <= k < j ==> !preamble_at(s, k),
    ensures
        find_preamble_from(s, i) == find_preamble_from(s, j),
    decreases j - i,
{
    if i < j {
        if i + 3 > s.len() {
            assert(find_preamble_from(s, i) is None);
            assert(find_preamble_from(s, j) is None);
        } else {
            lemma_find_preamble_advance(s, i + 1, j);
        }
    }
}

/// Searching the concatenation from inside the second part is searching the
/// second part, with every position shifted by the first part's length.
proof fn lemma_find_preamble_shift(pad: Seq<u8>, buf: Seq<u8>, t: int)
    requires
        0 <= t,
    ensures
        match find_preamble_from(buf, t) {
            Some(j) => find_preamble_from(pad + buf, pad.len() + t) == Some(pad.len() + j),
            None => find_preamble_from(pad + buf, pad.len() + t) is None,
        },
    decreases buf.len() - t,
{
    let s = pad + buf;
    if t + 3 > buf.len() {
        assert(find_preamble_from(buf, t) is None);
        assert(pad.len() + t + 3 > s.len());
        assert(find_preamble_from(s, pad.len() + t) is None);
    } else if preamble_at(buf, t) {
        assert(preamble_at(s, pad.len() + t));
    } else {
        assert(!preamble_at(s, pad.len() + t));
        lemma_find_preamble_shift(pad, buf, t + 1);
    }
}

/// Leading padding that itself holds no occurrence of the marker (not even
/// one straddling into the real capture) does not change the payload: the
/// locator finds the earliest true match whatever noise precedes it.
pub proof fn lemma_padding_preserves_payload(pad: Seq<u8>, buf: Seq<u8>)
    requires
        forall|k: int| 0 <= k < pad.len() ==> !preamble_at(pad + buf, k),
    ensures
        spec_payload(pad + buf) == spec_payload(buf),
{
    let s = pad + buf;
    lemma_find_preamble_advance(s, 0, pad.len() as int);
    lemma_find_preamble_shift(pad, buf, 0);
    match find_preamble_from(buf, 0) {
        Some(j) => {
            lemma_find_preamble_found(buf, 0);
            if j + 3 < buf.len() {
                assert(s.subrange(pad.len() + j + 3, s.len() as int) =~= buf.subrange(
                    j + 3,
                    buf.len() as int,
                ));
            }
        },
        None => {},
    }
}

/// Any run of sync bytes (the marker's first byte) before a capture that
/// does not begin with the marker's second byte is padding in the sense of
/// `lemma_padding_preserves_payload`: captures are often preceded by exactly
/// such runs.
pub proof fn lemma_sync_padding_preserves_payload(pad: Seq<u8>, buf: Seq<u8>)
    requires
        forall|k: int| 0 <= k < pad.len() ==> pad[k] == 0xaau8,
        buf.len() == 0 || buf[0] != 0x2du8,
    ensures
        spec_payload(pad + buf) == spec_payload(buf),
{
    let s = pad + buf;
    assert forall|k: int| 0 <= k < pad.len() implies !preamble_at(s, k) by {
        if preamble_at(s, k) {
            if k + 1 < pad.len() {
                assert(s[k + 1] == 0xaau8);
            } else {
                assert(s[k + 1] == buf[0]);
            }
        }
    };
    lemma_padding_preserves_payload(pad, buf);
}

/// Why a candidate payload was rejected before decoding.
#[derive(Clone, Copy, Debug, PartialEq, Eq)]
pub enum SensorError {
    /// The payload held no bytes at all.
    EmptyMessage,
    /// The payload was shorter than the device's message length.
    TruncatedMessage,
    /// The leading device-type byte was not the expected one; it is carried
    /// along for the caller's dispatch decisions.
    IncorrectMessageType(u8),
    /// The CRC residue over the message and its CRC byte was not zero.
    InvalidCrc,
    /// The wrap-around sum of the message did not match its checksum byte.
    InvalidChecksum,
}

/// What validating a payload against an expected device type and message
/// length returns: the verified message body, or the first failed check.
/// In relaxed mode (`strict` false) the two integrity checks are skipped;
/// production decoding is strict.
pub open spec fn spec_validate(
    payload: Seq<u8>,
    expected_id: u8,
    expected_len: int,
    strict: bool,
) -> Result<Seq<u8>, SensorError>
    recommends
        expected_len >= 2,
{
    if payload.len() == 0 {
        Err(SensorError::EmptyMessage)
    } else if payload[0] != expected_id {
        Err(SensorError::IncorrectMessageType(payload[0]))
    } else if payload.len() < expected_len {
        Err(SensorError::TruncatedMessage)
    } else if strict && crc8_maxim_of(payload.subrange(0, expected_len - 1)) != 0 {
        Err(SensorError::InvalidCrc)
    } else if strict && sum_bytes(payload.subrange(0, expected_len - 1)) != payload[expected_len
        - 1] {
        Err(SensorError::InvalidChecksum)
    } else {
        Ok(payload.subrange(0, expected_len - 2))
    }
}

/// Validate a payload: check the device-type byte, the length, and (when
/// strict) the CRC and the additive checksum, and hand back the message body
/// with the two integrity bytes stripped.
pub fn payload_to_message<'a>(
    payload: &'a [u8],
    expected_id: u8,
    expected_len: usize,
    strict: bool,
) -> (r: Result<&'a [u8], SensorError>)
    requires
        expected_len >= 2,
    ensures
        match r {
            Ok(body) => spec_validate(payload@, expected_id, expected_len as int, strict)
                == Ok::<Seq<u8>, SensorError>(body@),
            Err(e) => spec_validate(payload@, expected_id, expected_len as int, strict)
                == Err::<Seq<u8>, SensorError>(e),
        },
{
    if payload.len() == 0 {
        return Err(SensorError::EmptyMessage);
    }
    let id = payload[0];
    if id != expected_id {
        return Err(SensorError::IncorrectMessageType(id));
    }
    if payload.len() < expected_len {
        return Err(SensorError::TruncatedMessage);
    }
    let checked = slice_subrange(payload, 0, expected_len - 1);
    if strict {
        if crc8_maxim(checked) != 0 {
            return Err(SensorError::InvalidCrc);
        }
        if checksum(checked) != payload[expected_len - 1] {
            return Err(SensorError::InvalidChecksum);
        }
    }
    Ok(slice_subrange(payload, 0, expected_len - 2))
}

/// Flipping any single bit of the data portion of a message that validates
/// strictly makes strict validation fail with `InvalidCrc` or
/// `InvalidChecksum`: there is no silent wrong-value decode. The leading
/// device-type byte is not covered: a flip there is still rejected, but with
/// `IncorrectMessageType`.
pub proof fn lemma_bit_flip_detected(
    payload: Seq<u8>,
    expected_id: u8,
    expected_len: int,
    i: int,
    k: u8,
)
    requires
        expected_len >= 2,
        spec_validate(payload, expected_id, expected_len, true) is Ok,
        1 <= i < expected_len - 2,
        k < 8,
    ensures
        ({
            let flipped = payload.update(i, payload[i] ^ (1u8 << k));
            spec_validate(flipped, expected_id, expected_len, true) == Err::<
                Seq<u8>,
                SensorError,
            >(SensorError::InvalidCrc) || spec_validate(flipped, expected_id, expected_len, true)
                == Err::<Seq<u8>, SensorError>(SensorError::InvalidChecksum)
        }),
{
    let x = payload[i];
    let v = (x ^ (1u8 << k)) as u8;
    assert(v != x) by (bit_vector)
        requires
            v == (x ^ (1u8 << k)),
            k < 8,
    ;
    let flipped = payload.update(i, v);
    let checked = payload.subrange(0, expected_len - 1);
    let checked_flipped = flipped.subrange(0, expected_len - 1);
    assert(checked_flipped =~= checked.update(i, v));
    crate::integrity::lemma_sum_bytes_update_changes(checked, i, v);
    assert(sum_bytes(checked) == payload[expected_len - 1]);
    assert(flipped[expected_len - 1] == payload[expected_len - 1]);
    assert(flipped[0] == expected_id);
    assert(flipped.len() == payload.len() >= expected_len);
    if crc8_maxim_of(checked_flipped) != 0 {
        assert(spec_validate(flipped, expected_id, expected_len, true) == Err::<
            Seq<u8>,
            SensorError,
        >(SensorError::InvalidCrc));
    } else {
        assert(spec_validate(flipped, expected_id, expected_len, true) == Err::<
            Seq<u8>,
            SensorError,
        >(SensorError::InvalidChecksum));
    }
}

} // verus!
