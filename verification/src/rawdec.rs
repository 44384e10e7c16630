//! The raw-attribute fallback decoder: reinterprets the payload of a kind
//! code that the structured schema omits, according to a fixed table of
//! extension kinds. Unknown kinds are dropped; a malformed nul-terminated
//! string is fatal.

use vstd::prelude::*;
use vstd::string::StringExecFns;
use vstd::utf8::decode_utf8;
use vstd::utf8::valid_utf8;

use crate::error::CliError;

verus! {

/// Learned-address count of a bridge (32-bit).
pub const KIND_FDB_N_LEARNED: u16 = 48;

/// Learned-address limit of a bridge (32-bit).
pub const KIND_FDB_MAX_LEARNED: u16 = 49;

/// Link-local learning disabled flag of a bridge (boolean byte).
pub const KIND_NO_LL_LEARN: u16 = 51;

/// Per-VLAN multicast snooping flag of a bridge (boolean byte).
pub const KIND_VLAN_MCAST_SNOOPING: u16 = 52;

/// Multiple-spanning-tree flag of a bridge (boolean byte).
pub const KIND_MST_ENABLED: u16 = 53;

/// Parent device name of a link (nul-terminated string).
pub const KIND_PARENT_DEV_NAME: u16 = 56;

/// Parent bus name of a link (nul-terminated string).
pub const KIND_PARENT_DEV_BUS_NAME: u16 = 57;

/// Generic-receive-offload size limit of a link (32-bit).
pub const KIND_GRO_MAX_SIZE: u16 = 58;

/// Segmentation-offload size limit of a link (32-bit).
pub const KIND_TSO_MAX_SIZE: u16 = 59;

/// Segmentation-offload segment limit of a link (32-bit).
pub const KIND_TSO_MAX_SEGS: u16 = 60;

/// All-multicast counter of a link (32-bit).
pub const KIND_ALLMULTI: u16 = 61;

/// IPv4 segmentation-offload size limit of a link (32-bit).
pub const KIND_GSO_IPV4_MAX_SIZE: u16 = 63;

/// IPv4 receive-offload size limit of a link (32-bit).
pub const KIND_GRO_IPV4_MAX_SIZE: u16 = 64;

/// A value recovered by the fallback decoder.
pub enum RawValue {
    Uint32(u32),
    BoolByte(u8),
    Text(String),
}

/// The ghost image of a recovered value.
pub ghost enum RawValueV {
    Uint32(u32),
    BoolByte(u8),
    Text(Seq<char>),
}

impl View for RawValue {
    type V = RawValueV;

    open spec fn view(&self) -> RawValueV {
        match self {
            RawValue::Uint32(v) => RawValueV::Uint32(*v),
            RawValue::BoolByte(v) => RawValueV::BoolByte(*v),
            RawValue::Text(s) => RawValueV::Text(s@),
        }
    }
}

/// Extension kinds carrying a 32-bit integer.
pub open spec fn is_raw_u32_kind(k: u16) -> bool {
    k == KIND_FDB_N_LEARNED || k == KIND_FDB_MAX_LEARNED || k == KIND_GRO_MAX_SIZE || k
        == KIND_TSO_MAX_SIZE || k == KIND_TSO_MAX_SEGS || k == KIND_ALLMULTI || k
        == KIND_GSO_IPV4_MAX_SIZE || k == KIND_GRO_IPV4_MAX_SIZE
}

/// Extension kinds carrying a boolean byte.
pub open spec fn is_raw_bool_kind(k: u16) -> bool {
    k == KIND_NO_LL_LEARN || k == KIND_VLAN_MCAST_SNOOPING || k == KIND_MST_ENABLED
}

/// Extension kinds carrying a nul-terminated string.
pub open spec fn is_raw_str_kind(k: u16) -> bool {
    k == KIND_PARENT_DEV_NAME || k == KIND_PARENT_DEV_BUS_NAME
}

/// The 32-bit value held by four payload bytes, least significant first
/// (the byte order of the supported targets).
pub open spec fn le32(p: Seq<u8>) -> u32
    recommends
        p.len() == 4,
{
    (p[0] + p[1] * 0x100 + p[2] * 0x10000 + p[3] * 0x1000000) as u32
}

/// A well-formed nul-terminated string payload: non-empty, terminated by a
/// single trailing nul, valid UTF-8 before it.
pub open spec fn nul_str_ok(p: Seq<u8>) -> bool {
    &&& p.len() >= 1
    &&& p.last() == 0
    &&& (forall|i: int| 0 <= i < p.len() - 1 ==> p[i] != 0)
    &&& valid_utf8(p.drop_last())
}

/// The characters of a well-formed nul-terminated string payload.
pub open spec fn nul_str_chars(p: Seq<u8>) -> Seq<char> {
    decode_utf8(p.drop_last())
}

/// What the fallback decoder recovers from a kind and payload. A kind
/// outside the table, a fixed-width payload of the wrong width, and a
/// malformed string payload all decode to nothing; only the string case is
/// additionally fatal (see [`decode_raw`]).
pub open spec fn raw_decoded(kind: u16, p: Seq<u8>) -> Option<RawValueV> {
    if is_raw_u32_kind(kind) {
        if p.len() == 4 {
            Some(RawValueV::Uint32(le32(p)))
        } else {
            None
        }
    } else if is_raw_bool_kind(kind) {
        if p.len() == 1 {
            Some(RawValueV::BoolByte(p[0]))
        } else {
            None
        }
    } else if is_raw_str_kind(kind) {
        if nul_str_ok(p) {
            Some(RawValueV::Text(nul_str_chars(p)))
        } else {
            None
        }
    } else {
        None
    }
}

/// Relies on `String::from_utf8`: succeeds exactly on valid UTF-8 input and
/// yields the characters that the bytes encode.
#[verifier::external_body]
fn bytes_to_utf8(v: Vec<u8>) -> (r: Option<String>)
    ensures
        r is Some <==> valid_utf8(v@),
        r is Some ==> r->0@ == decode_utf8(v@),
{
    match String::from_utf8(v) {
        Ok(s) => Some(s),
        Err(_) => None,
    }
}

/// The 32-bit value of a four-byte payload.
fn u32_from_bytes(p: &[u8]) -> (r: u32)
    requires
        p@.len() == 4,
    ensures
        r == le32(p@),
{
    (p[0] as u32) + (p[1] as u32) * 0x100 + (p[2] as u32) * 0x10000 + (p[3] as u32) * 0x1000000
}

/// Decodes the prefix of a nul-terminated payload, failing on a missing
/// terminator, an interior nul, or invalid UTF-8.
fn decode_nul_string(p: &[u8]) -> (r: Option<String>)
    ensures
        r is Some <==> nul_str_ok(p@),
        r matches Some(s) ==> s@ == nul_str_chars(p@),
{
    let n: usize = p.len();
    if n == 0 {
        return None;
    }
    if p[n - 1] != 0 {
        return None;
    }
    let mut prefix: Vec<u8> = Vec::new();
    let mut i: usize = 0;
    while i < n - 1
        invariant
            i <= n - 1,
            n == p@.len(),
            n >= 1,
            prefix@ == p@.take(i as int),
            forall|j: int| 0 <= j < i ==> p@[j] != 0,
        decreases n - 1 - i,
    {
        if p[i] == 0 {
            return None;
        }
        prefix.push(p[i]);
        i = i + 1;
        assert(prefix@ =~= p@.take(i as int));
    }
    assert(prefix@ =~= p@.drop_last());
    bytes_to_utf8(prefix)
}

/// The raw-attribute fallback decoder. `Ok(None)` means the attribute is
/// dropped (unknown kind, or a fixed-width payload of the wrong width);
/// `Err` reports a malformed nul-terminated string payload, which is fatal.
pub fn decode_raw(kind: u16, payload: &[u8]) -> (r: Result<Option<RawValue>, CliError>)
    ensures
        r is Err <==> (is_raw_str_kind(kind) && !nul_str_ok(payload@)),
        r matches Ok(Some(v)) ==> raw_decoded(kind, payload@) == Some(v@),
        r matches Ok(None) ==> raw_decoded(kind, payload@) is None,
{
    if kind == KIND_FDB_N_LEARNED || kind == KIND_FDB_MAX_LEARNED || kind == KIND_GRO_MAX_SIZE
        || kind == KIND_TSO_MAX_SIZE || kind == KIND_TSO_MAX_SEGS || kind == KIND_ALLMULTI || kind
        == KIND_GSO_IPV4_MAX_SIZE || kind == KIND_GRO_IPV4_MAX_SIZE {
        if payload.len() == 4 {
            Ok(Some(RawValue::Uint32(u32_from_bytes(payload))))
        } else {
            Ok(None)
        }
    } else if kind == KIND_NO_LL_LEARN || kind == KIND_VLAN_MCAST_SNOOPING || kind
        == KIND_MST_ENABLED {
        if payload.len() == 1 {
            Ok(Some(RawValue::BoolByte(payload[0])))
        } else {
            Ok(None)
        }
    } else if kind == KIND_PARENT_DEV_NAME || kind == KIND_PARENT_DEV_BUS_NAME {
        match decode_nul_string(payload) {
            Some(s) => Ok(Some(RawValue::Text(s))),
            None => Err(CliError::new(String::from_str("malformed string attribute payload"))),
        }
    } else {
        Ok(None)
    }
}

} // verus!
