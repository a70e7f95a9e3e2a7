//! The VLESS-style header record and its decoder.
//!
//! The wire layout, offsets relative to the start of the buffer and all
//! multi-byte integers big-endian:
//!
//! | offset   | size           | field                                   |
//! |----------|----------------|-----------------------------------------|
//! | 0        | 1              | version                                 |
//! | 1        | 16             | client identifier (raw bytes)           |
//! | 17       | 1              | addons length `N`; the block is skipped |
//! | 18 + N   | 1              | command (1 = TCP, 2 = UDP, else passed) |
//! | 19 + N   | 2              | port                                    |
//! | 21 + N   | 1              | address type (1, 2 or 3)                |
//! | 22 + N   | 4 / 1 + m / 16 | address (IPv4 / domain / IPv6)          |
//!
//! [`spec_decode`] states the whole decoding as a function of the byte
//! sequence; [`parse_vless_header`] is proved to return exactly that.

use vstd::prelude::*;
use vstd::slice::{slice_index_get, slice_subrange};

use crate::ipv6::{format_ipv6, spec_ipv6_text};
use crate::text::{format_ipv4, spec_ipv4_text, spec_uuid_text};

verus! {

/// Which of the three mutually exclusive address encodings a header uses,
/// selected on the wire by a single byte: 1, 2 or 3 respectively.
#[derive(Clone, Copy, Debug, PartialEq, Eq, Structural)]
pub enum AddressType {
    IPv4,
    Domain,
    IPv6,
}

/// A terminal decode failure; malformed input is never recoverable in place.
#[derive(Clone, Copy, Debug, PartialEq, Eq, Structural)]
pub enum DecodeError {
    /// Fewer than 24 bytes overall, or too few bytes remain for some field.
    BufferTooShort,
    /// The address-type byte lies outside `{1, 2, 3}`; carries that byte.
    UnsupportedAddressType(u8),
}

/// A decoded header. Constructed atomically: either every field is set from
/// a validated buffer, or decoding fails and no record is produced.
#[derive(Debug, PartialEq, Eq)]
pub struct VlessHeader {
    /// Wire protocol version tag, passed through unvalidated.
    pub version: u8,
    /// The 16 identifier bytes rendered as canonical hyphenated lowercase hex.
    pub uuid: String,
    /// 1 for TCP, 2 for UDP; other values are passed through as-is.
    pub command: u8,
    /// Destination port, decoded big-endian.
    pub port: u16,
    /// Which address encoding the header used.
    pub address_type: AddressType,
    /// Dotted-decimal for IPv4, lossily decoded text for a domain,
    /// canonical compressed colon-hex for IPv6.
    pub address: String,
    /// Index of the first byte after the header; never past the buffer end.
    pub raw_data_index: usize,
}

/// The mathematical image of a decoded header.
#[verifier::ext_equal]
pub ghost struct SpecHeader {
    pub version: u8,
    pub uuid: Seq<char>,
    pub command: u8,
    pub port: u16,
    pub address_type: AddressType,
    pub address: Seq<char>,
    pub raw_data_index: int,
}

impl View for VlessHeader {
    type V = SpecHeader;

    open spec fn view(&self) -> SpecHeader {
        SpecHeader {
            version: self.version,
            uuid: self.uuid@,
            command: self.command,
            port: self.port,
            address_type: self.address_type,
            address: self.address@,
            raw_data_index: self.raw_data_index as int,
        }
    }
}

/// What `String::from_utf8_lossy` yields for the given bytes: a lossy
/// decoding in which invalid UTF-8 sequences are replaced, never rejected.
pub uninterp spec fn utf8_lossy(bytes: Seq<u8>) -> Seq<char>;

/// The 16-bit group `i` (0 to 7) of an IPv6 address whose bytes start at
/// `base`, big-endian.
pub open spec fn spec_segment(b: Seq<u8>, base: int, i: int) -> u16 {
    ((b[base + 2 * i] as int) * 256 + (b[base + 2 * i + 1] as int)) as u16
}

/// All eight 16-bit groups of an IPv6 address whose bytes start at `base`.
pub open spec fn spec_segments(b: Seq<u8>, base: int) -> Seq<u16> {
    Seq::new(8, |i: int| spec_segment(b, base, i))
}

/// The whole decoding as a function of the byte sequence: either the full
/// record or the error, exactly as the decoder returns it.
pub open spec fn spec_decode(b: Seq<u8>) -> Result<SpecHeader, DecodeError> {
    if b.len() < 24 {
        Err(DecodeError::BufferTooShort)
    } else {
        let c = 18 + b[17] as int;
        if b.len() < c + 4 {
            Err(DecodeError::BufferTooShort)
        } else {
            let base = c + 4;
            let atype = b[c + 3];
            if atype == 1 {
                if b.len() < base + 4 {
                    Err(DecodeError::BufferTooShort)
                } else {
                    Ok(spec_header(b, AddressType::IPv4, spec_ipv4_text(b[base], b[base + 1],
                    b[base + 2], b[base + 3]), base + 4))
                }
            } else if atype == 2 {
                if b.len() < base + 1 {
                    Err(DecodeError::BufferTooShort)
                } else if b.len() < base + 1 + b[base] as int {
                    Err(DecodeError::BufferTooShort)
                } else {
                    Ok(spec_header(b, AddressType::Domain, utf8_lossy(b.subrange(base + 1, base + 1
                    + b[base] as int)), base + 1 + b[base] as int))
                }
            } else if atype == 3 {
                if b.len() < base + 16 {
                    Err(DecodeError::BufferTooShort)
                } else {
                    Ok(spec_header(b, AddressType::IPv6, spec_ipv6_text(spec_segments(b, base)),
                    base + 16))
                }
            } else {
                Err(DecodeError::UnsupportedAddressType(atype))
            }
        }
    }
}

/// The record for a buffer whose checks all passed: the fixed fields read at
/// their wire offsets, plus the already decoded address and payload offset.
pub open spec fn spec_header(
    b: Seq<u8>,
    address_type: AddressType,
    address: Seq<char>,
    raw_data_index: int,
) -> SpecHeader {
    let c = 18 + b[17] as int;
    SpecHeader {
        version: b[0],
        uuid: spec_uuid_text(b.subrange(1, 17)),
        command: b[c],
        port: ((b[c + 1] as int) * 256 + (b[c + 2] as int)) as u16,
        address_type: address_type,
        address: address,
        raw_data_index: raw_data_index,
    }
}

/// Relies on `uuid::Uuid::from_bytes` (which keeps the bytes as given) and
/// on `Uuid`'s `Display` via `to_string`: the canonical hyphenated,
/// lowercase-hex rendering of the 16 bytes, groups of 4, 2, 2, 2 and 6.
#[verifier::external_body]
fn uuid_hyphenated(bytes: &[u8]) -> (r: String)
    requires
        bytes@.len() == 16,
    ensures
        r@ == spec_uuid_text(bytes@),
{
    let mut raw = [0u8; 16];
    raw.copy_from_slice(bytes);
    uuid::Uuid::from_bytes(raw).to_string()
}

/// Relies on `String::from_utf8_lossy`: its result depends on the bytes
/// alone, named here by [`utf8_lossy`].
#[verifier::external_body]
fn utf8_lossy_string(bytes: &[u8]) -> (r: String)
    ensures
        r@ == utf8_lossy(bytes@),
{
    String::from_utf8_lossy(bytes).into_owned()
}

/// Decodes a header from the start of `buffer`.
///
/// Returns exactly what [`spec_decode`] states for the bytes: the populated
/// record with the offset of the first payload byte, or the typed failure.
/// Never reads past the end of the buffer, whatever the byte values.
pub fn parse_vless_header(buffer: &[u8]) -> (r: Result<VlessHeader, DecodeError>)
    ensures
        ({
            let s = spec_decode(buffer@);
            match r {
                Ok(h) => s is Ok && h@ == s->Ok_0,
                Err(e) => s is Err && e == s->Err_0,
            }
        }),
{
    let n = buffer.len();
    if n < 24 {
        return Err(DecodeError::BufferTooShort);
    }
    let version = *slice_index_get(buffer, 0);
    let uuid = uuid_hyphenated(slice_subrange(buffer, 1, 17));
    let addons_len = *slice_index_get(buffer, 17);
    let c: usize = 18 + addons_len as usize;
    if n < c + 4 {
        return Err(DecodeError::BufferTooShort);
    }
    let command = *slice_index_get(buffer, c);
    let port_hi = *slice_index_get(buffer, c + 1);
    let port_lo = *slice_index_get(buffer, c + 2);
    let port: u16 = (port_hi as u16) * 256 + (port_lo as u16);
    let atype = *slice_index_get(buffer, c + 3);
    let base: usize = c + 4;
    match atype {
        1 => {
            if n < base + 4 {
                return Err(DecodeError::BufferTooShort);
            }
            let address = format_ipv4(
                *slice_index_get(buffer, base),
                *slice_index_get(buffer, base + 1),
                *slice_index_get(buffer, base + 2),
                *slice_index_get(buffer, base + 3),
            );
            let header = VlessHeader {
                version,
                uuid,
                command,
                port,
                address_type: AddressType::IPv4,
                address,
                raw_data_index: base + 4,
            };
            proof {
                assert(header@ =~= spec_decode(buffer@)->Ok_0);
            }
            Ok(header)
        },
        2 => {
            if n < base + 1 {
                return Err(DecodeError::BufferTooShort);
            }
            let domain_len = *slice_index_get(buffer, base) as usize;
            if n < base + 1 + domain_len {
                return Err(DecodeError::BufferTooShort);
            }
            let address = utf8_lossy_string(
                slice_subrange(buffer, base + 1, base + 1 + domain_len),
            );
            let header = VlessHeader {
                version,
                uuid,
                command,
                port,
                address_type: AddressType::Domain,
                address,
                raw_data_index: base + 1 + domain_len,
            };
            proof {
                assert(header@ =~= spec_decode(buffer@)->Ok_0);
            }
            Ok(header)
        },
        3 => {
            if n < base + 16 {
                return Err(DecodeError::BufferTooShort);
            }
            let mut segs: Vec<u16> = Vec::new();
            let mut k: usize = 0;
            while k < 8
                invariant
                    base <= 277,
                    base + 16 <= buffer@.len(),
                    k <= 8,
                    segs@.len() == k as int,
                    forall|j: int|
                        0 <= j < k ==> segs@[j] == spec_segment(buffer@, base as int, j),
                decreases 8 - k,
            {
                let hi = *slice_index_get(buffer, base + 2 * k);
                let lo = *slice_index_get(buffer, base + 2 * k + 1);
                segs.push((hi as u16) * 256 + (lo as u16));
                k = k + 1;
            }
            proof {
                assert(segs@ =~= spec_segments(buffer@, base as int));
            }
            let address = format_ipv6(&segs);
            let header = VlessHeader {
                version,
                uuid,
                command,
                port,
                address_type: AddressType::IPv6,
                address,
                raw_data_index: base + 16,
            };
            proof {
                assert(header@ =~= spec_decode(buffer@)->Ok_0);
            }
            Ok(header)
        },
        _ => Err(DecodeError::UnsupportedAddressType(atype)),
    }
}

/// Law: every buffer of fewer than 24 bytes is rejected as too short,
/// before any byte of it is examined.
pub proof fn lemma_short_buffer_rejected(b: Seq<u8>)
    requires
        b.len() < 24,
    ensures
        spec_decode(b) == Err::<SpecHeader, DecodeError>(DecodeError::BufferTooShort),
{
}

/// Law: on success the payload offset accounts exactly for every consumed
/// byte — version, identifier, addons length byte and skipped addons block,
/// command, port, address type, then the address (with its length prefix for
/// a domain) — and never lies past the end of the buffer.
pub proof fn lemma_payload_offset(b: Seq<u8>)
    requires
        spec_decode(b) is Ok,
    ensures
        ({
            let h = spec_decode(b)->Ok_0;
            let skip = b[17] as int;
            &&& h.raw_data_index <= b.len()
            &&& (h.address_type == AddressType::IPv4 ==> h.raw_data_index == 1 + 16 + 1 + skip + 1
                + 2 + 1 + 4)
            &&& (h.address_type == AddressType::Domain ==> h.raw_data_index == 1 + 16 + 1 + skip
                + 1 + 2 + 1 + 1 + b[22 + skip] as int)
            &&& (h.address_type == AddressType::IPv6 ==> h.raw_data_index == 1 + 16 + 1 + skip + 1
                + 2 + 1 + 16)
        }),
{
}

/// Law: the port is decoded big-endian — on success it is exactly 256 times
/// the first port byte plus the second, wherever the addons skip put them.
pub proof fn lemma_port_big_endian(b: Seq<u8>)
    requires
        spec_decode(b) is Ok,
    ensures
        spec_decode(b)->Ok_0.port == 256 * (b[19 + b[17] as int] as int) + (b[20
            + b[17] as int] as int),
{
}

/// Law: whenever the address-type byte exists but lies outside `{1, 2, 3}`,
/// decoding fails with `UnsupportedAddressType` carrying exactly that byte.
pub proof fn lemma_unsupported_address_type(b: Seq<u8>)
    requires
        b.len() >= 24,
        b.len() >= 22 + b[17] as int,
        b[21 + b[17] as int] != 1,
        b[21 + b[17] as int] != 2,
        b[21 + b[17] as int] != 3,
    ensures
        spec_decode(b) == Err::<SpecHeader, DecodeError>(
            DecodeError::UnsupportedAddressType(b[21 + b[17] as int]),
        ),
{
}

/// Law: decoding is deterministic — it is a function of the byte sequence
/// alone, so identical inputs always yield identical results.
pub proof fn lemma_decode_deterministic(b1: Seq<u8>, b2: Seq<u8>)
    requires
        b1 == b2,
    ensures
        spec_decode(b1) == spec_decode(b2),
{
}

} // verus!

