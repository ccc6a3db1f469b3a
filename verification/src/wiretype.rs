//! The wire-type resolver: a total map from the textual type tag of an
//! attribute declaration to a wire-type descriptor giving the numeric type
//! tag, the byte width, and the value domain. Unrecognized tags degrade to
//! an opaque passthrough descriptor instead of failing.
use crate::bytes::bytes_eq;
use vstd::prelude::*;

verus! {

/// The value domain of a wire type: what family of values it carries and
/// how bounds and defaults are interpreted for it.
#[derive(PartialEq, Debug, Clone)]
pub enum Domain {
    /// No data at all.
    NoData,
    /// Raw fixed-width data bytes.
    Raw,
    /// A boolean with a reserved "invalid" encoding.
    Boolean,
    /// A fixed-width bit map.
    Bitmap,
    /// A fixed-width unsigned integer.
    Unsigned,
    /// A fixed-width signed integer, two's complement.
    Signed,
    /// An IEEE floating-point number.
    Float,
    /// A length-prefixed byte string.
    Octets,
    /// A length-prefixed character string.
    Chars,
    /// A value of the named enumeration; `wide` selects the 16-bit form.
    Enumeration { wide: bool, name: Vec<u8> },
    /// A time of day.
    TimeOfDay,
    /// A calendar date.
    Date,
    /// A UTC timestamp.
    UtcTime,
    /// A cluster identifier.
    ClusterId,
    /// An attribute identifier.
    AttributeId,
    /// A BACnet object identifier.
    BacnetOid,
    /// An IEEE address.
    IeeeAddress,
    /// A 128-bit security key.
    SecurityKey,
    /// The explicitly unknown type.
    Unknown,
    /// A passthrough for an unrecognized tag, kept verbatim.
    Other(Vec<u8>),
}

/// The mathematical image of a `Domain`.
pub ghost enum DomainView {
    NoData,
    Raw,
    Boolean,
    Bitmap,
    Unsigned,
    Signed,
    Float,
    Octets,
    Chars,
    Enumeration { wide: bool, name: Seq<u8> },
    TimeOfDay,
    Date,
    UtcTime,
    ClusterId,
    AttributeId,
    BacnetOid,
    IeeeAddress,
    SecurityKey,
    Unknown,
    Other(Seq<u8>),
}

impl View for Domain {
    type V = DomainView;

    open spec fn view(&self) -> DomainView {
        match self {
            Domain::NoData => DomainView::NoData,
            Domain::Raw => DomainView::Raw,
            Domain::Boolean => DomainView::Boolean,
            Domain::Bitmap => DomainView::Bitmap,
            Domain::Unsigned => DomainView::Unsigned,
            Domain::Signed => DomainView::Signed,
            Domain::Float => DomainView::Float,
            Domain::Octets => DomainView::Octets,
            Domain::Chars => DomainView::Chars,
            Domain::Enumeration { wide, name } => DomainView::Enumeration { wide: *wide, name: name@ },
            Domain::TimeOfDay => DomainView::TimeOfDay,
            Domain::Date => DomainView::Date,
            Domain::UtcTime => DomainView::UtcTime,
            Domain::ClusterId => DomainView::ClusterId,
            Domain::AttributeId => DomainView::AttributeId,
            Domain::BacnetOid => DomainView::BacnetOid,
            Domain::IeeeAddress => DomainView::IeeeAddress,
            Domain::SecurityKey => DomainView::SecurityKey,
            Domain::Unknown => DomainView::Unknown,
            Domain::Other(t) => DomainView::Other(t@),
        }
    }
}

/// A wire-type descriptor: numeric type tag, byte width, and value domain.
/// For length-prefixed kinds the width is that of the length prefix.
#[derive(PartialEq, Debug, Clone)]
pub struct WireType {
    /// The numeric type tag.
    pub id: u8,
    /// The byte width of the encoding (of the length prefix, for
    /// length-prefixed kinds).
    pub width: u8,
    /// The value domain.
    pub domain: Domain,
}

/// The mathematical image of a `WireType`.
pub ghost struct WireTypeView {
    pub id: u8,
    pub width: u8,
    pub domain: DomainView,
}

impl View for WireType {
    type V = WireTypeView;

    open spec fn view(&self) -> WireTypeView {
        WireTypeView { id: self.id, width: self.width, domain: self.domain@ }
    }
}

/// The type tag `nodata`, as a byte sequence.
pub open spec fn spec_kw_nodata() -> Seq<u8> {
    seq!['n' as u8, 'o' as u8, 'd' as u8, 'a' as u8, 't' as u8, 'a' as u8]
}

/// The type tag `data8`, as a byte sequence.
pub open spec fn spec_kw_data8() -> Seq<u8> {
    seq!['d' as u8, 'a' as u8, 't' as u8, 'a' as u8, '8' as u8]
}

/// The type tag `data16`, as a byte sequence.
pub open spec fn spec_kw_data16() -> Seq<u8> {
    seq!['d' as u8, 'a' as u8, 't' as u8, 'a' as u8, '1' as u8, '6' as u8]
}

/// The type tag `data24`, as a byte sequence.
pub open spec fn spec_kw_data24() -> Seq<u8> {
    seq!['d' as u8, 'a' as u8, 't' as u8, 'a' as u8, '2' as u8, '4' as u8]
}

/// The type tag `data32`, as a byte sequence.
pub open spec fn spec_kw_data32() -> Seq<u8> {
    seq!['d' as u8, 'a' as u8, 't' as u8, 'a' as u8, '3' as u8, '2' as u8]
}

/// The type tag `data40`, as a byte sequence.
pub open spec fn spec_kw_data40() -> Seq<u8> {
    seq!['d' as u8, 'a' as u8, 't' as u8, 'a' as u8, '4' as u8, '0' as u8]
}

/// The type tag `data48`, as a byte sequence.
pub open spec fn spec_kw_data48() -> Seq<u8> {
    seq!['d' as u8, 'a' as u8, 't' as u8, 'a' as u8, '4' as u8, '8' as u8]
}

/// The type tag `data56`, as a byte sequence.
pub open spec fn spec_kw_data56() -> Seq<u8> {
    seq!['d' as u8, 'a' as u8, 't' as u8, 'a' as u8, '5' as u8, '6' as u8]
}

/// The type tag `data64`, as a byte sequence.
pub open spec fn spec_kw_data64() -> Seq<u8> {
    seq!['d' as u8, 'a' as u8, 't' as u8, 'a' as u8, '6' as u8, '4' as u8]
}

/// The type tag `bool`, as a byte sequence.
pub open spec fn spec_kw_boolean() -> Seq<u8> {
    seq!['b' as u8, 'o' as u8, 'o' as u8, 'l' as u8]
}

/// The type tag `map8`, as a byte sequence.
pub open spec fn spec_kw_map8() -> Seq<u8> {
    seq!['m' as u8, 'a' as u8, 'p' as u8, '8' as u8]
}

/// The type tag `map16`, as a byte sequence.
pub open spec fn spec_kw_map16() -> Seq<u8> {
    seq!['m' as u8, 'a' as u8, 'p' as u8, '1' as u8, '6' as u8]
}

/// The type tag `map24`, as a byte sequence.
pub open spec fn spec_kw_map24() -> Seq<u8> {
    seq!['m' as u8, 'a' as u8, 'p' as u8, '2' as u8, '4' as u8]
}

/// The type tag `map32`, as a byte sequence.
pub open spec fn spec_kw_map32() -> Seq<u8> {
    seq!['m' as u8, 'a' as u8, 'p' as u8, '3' as u8, '2' as u8]
}

/// The type tag `map40`, as a byte sequence.
pub open spec fn spec_kw_map40() -> Seq<u8> {
    seq!['m' as u8, 'a' as u8, 'p' as u8, '4' as u8, '0' as u8]
}

/// The type tag `map48`, as a byte sequence.
pub open spec fn spec_kw_map48() -> Seq<u8> {
    seq!['m' as u8, 'a' as u8, 'p' as u8, '4' as u8, '8' as u8]
}

/// The type tag `map56`, as a byte sequence.
pub open spec fn spec_kw_map56() -> Seq<u8> {
    seq!['m' as u8, 'a' as u8, 'p' as u8, '5' as u8, '6' as u8]
}

/// The type tag `map64`, as a byte sequence.
pub open spec fn spec_kw_map64() -> Seq<u8> {
    seq!['m' as u8, 'a' as u8, 'p' as u8, '6' as u8, '4' as u8]
}

/// The type tag `uint8`, as a byte sequence.
pub open spec fn spec_kw_uint8() -> Seq<u8> {
    seq!['u' as u8, 'i' as u8, 'n' as u8, 't' as u8, '8' as u8]
}

/// The type tag `uint16`, as a byte sequence.
pub open spec fn spec_kw_uint16() -> Seq<u8> {
    seq!['u' as u8, 'i' as u8, 'n' as u8, 't' as u8, '1' as u8, '6' as u8]
}

/// The type tag `uint24`, as a byte sequence.
pub open spec fn spec_kw_uint24() -> Seq<u8> {
    seq!['u' as u8, 'i' as u8, 'n' as u8, 't' as u8, '2' as u8, '4' as u8]
}

/// The type tag `uint32`, as a byte sequence.
pub open spec fn spec_kw_uint32() -> Seq<u8> {
    seq!['u' as u8, 'i' as u8, 'n' as u8, 't' as u8, '3' as u8, '2' as u8]
}

/// The type tag `uint40`, as a byte sequence.
pub open spec fn spec_kw_uint40() -> Seq<u8> {
    seq!['u' as u8, 'i' as u8, 'n' as u8, 't' as u8, '4' as u8, '0' as u8]
}

/// The type tag `uint48`, as a byte sequence.
pub open spec fn spec_kw_uint48() -> Seq<u8> {
    seq!['u' as u8, 'i' as u8, 'n' as u8, 't' as u8, '4' as u8, '8' as u8]
}

/// The type tag `uint56`, as a byte sequence.
pub open spec fn spec_kw_uint56() -> Seq<u8> {
    seq!['u' as u8, 'i' as u8, 'n' as u8, 't' as u8, '5' as u8, '6' as u8]
}

/// The type tag `uint64`, as a byte sequence.
pub open spec fn spec_kw_uint64() -> Seq<u8> {
    seq!['u' as u8, 'i' as u8, 'n' as u8, 't' as u8, '6' as u8, '4' as u8]
}

/// The type tag `int8`, as a byte sequence.
pub open spec fn spec_kw_int8() -> Seq<u8> {
    seq!['i' as u8, 'n' as u8, 't' as u8, '8' as u8]
}

/// The type tag `int16`, as a byte sequence.
pub open spec fn spec_kw_int16() -> Seq<u8> {
    seq!['i' as u8, 'n' as u8, 't' as u8, '1' as u8, '6' as u8]
}

/// The type tag `int24`, as a byte sequence.
pub open spec fn spec_kw_int24() -> Seq<u8> {
    seq!['i' as u8, 'n' as u8, 't' as u8, '2' as u8, '4' as u8]
}

/// The type tag `int32`, as a byte sequence.
pub open spec fn spec_kw_int32() -> Seq<u8> {
    seq!['i' as u8, 'n' as u8, 't' as u8, '3' as u8, '2' as u8]
}

/// The type tag `int40`, as a byte sequence.
pub open spec fn spec_kw_int40() -> Seq<u8> {
    seq!['i' as u8, 'n' as u8, 't' as u8, '4' as u8, '0' as u8]
}

/// The type tag `int48`, as a byte sequence.
pub open spec fn spec_kw_int48() -> Seq<u8> {
    seq!['i' as u8, 'n' as u8, 't' as u8, '4' as u8, '8' as u8]
}

/// The type tag `int56`, as a byte sequence.
pub open spec fn spec_kw_int56() -> Seq<u8> {
    seq!['i' as u8, 'n' as u8, 't' as u8, '5' as u8, '6' as u8]
}

/// The type tag `int64`, as a byte sequence.
pub open spec fn spec_kw_int64() -> Seq<u8> {
    seq!['i' as u8, 'n' as u8, 't' as u8, '6' as u8, '4' as u8]
}

/// The type tag `single`, as a byte sequence.
pub open spec fn spec_kw_single() -> Seq<u8> {
    seq!['s' as u8, 'i' as u8, 'n' as u8, 'g' as u8, 'l' as u8, 'e' as u8]
}

/// The type tag `double`, as a byte sequence.
pub open spec fn spec_kw_double() -> Seq<u8> {
    seq!['d' as u8, 'o' as u8, 'u' as u8, 'b' as u8, 'l' as u8, 'e' as u8]
}

/// The type tag `octstr`, as a byte sequence.
pub open spec fn spec_kw_octstr() -> Seq<u8> {
    seq!['o' as u8, 'c' as u8, 't' as u8, 's' as u8, 't' as u8, 'r' as u8]
}

/// The type tag `string`, as a byte sequence.
pub open spec fn spec_kw_charstr() -> Seq<u8> {
    seq!['s' as u8, 't' as u8, 'r' as u8, 'i' as u8, 'n' as u8, 'g' as u8]
}

/// The type tag `octstr16`, as a byte sequence.
pub open spec fn spec_kw_octstr16() -> Seq<u8> {
    seq!['o' as u8, 'c' as u8, 't' as u8, 's' as u8, 't' as u8, 'r' as u8, '1' as u8, '6' as u8]
}

/// The type tag `string16`, as a byte sequence.
pub open spec fn spec_kw_charstr16() -> Seq<u8> {
    seq!['s' as u8, 't' as u8, 'r' as u8, 'i' as u8, 'n' as u8, 'g' as u8, '1' as u8, '6' as u8]
}

/// The type tag `ToD`, as a byte sequence.
pub open spec fn spec_kw_tod() -> Seq<u8> {
    seq!['T' as u8, 'o' as u8, 'D' as u8]
}

/// The type tag `date`, as a byte sequence.
pub open spec fn spec_kw_date() -> Seq<u8> {
    seq!['d' as u8, 'a' as u8, 't' as u8, 'e' as u8]
}

/// The type tag `UTC`, as a byte sequence.
pub open spec fn spec_kw_utc() -> Seq<u8> {
    seq!['U' as u8, 'T' as u8, 'C' as u8]
}

/// The type tag `clusterId`, as a byte sequence.
pub open spec fn spec_kw_cluster_id() -> Seq<u8> {
    seq!['c' as u8, 'l' as u8, 'u' as u8, 's' as u8, 't' as u8, 'e' as u8, 'r' as u8, 'I' as u8, 'd' as u8]
}

/// The type tag `attribId`, as a byte sequence.
pub open spec fn spec_kw_attrib_id() -> Seq<u8> {
    seq!['a' as u8, 't' as u8, 't' as u8, 'r' as u8, 'i' as u8, 'b' as u8, 'I' as u8, 'd' as u8]
}

/// The type tag `bacOID`, as a byte sequence.
pub open spec fn spec_kw_bac_oid() -> Seq<u8> {
    seq!['b' as u8, 'a' as u8, 'c' as u8, 'O' as u8, 'I' as u8, 'D' as u8]
}

/// The type tag `EUI64`, as a byte sequence.
pub open spec fn spec_kw_eui64() -> Seq<u8> {
    seq!['E' as u8, 'U' as u8, 'I' as u8, '6' as u8, '4' as u8]
}

/// The type tag `key128`, as a byte sequence.
pub open spec fn spec_kw_key128() -> Seq<u8> {
    seq!['k' as u8, 'e' as u8, 'y' as u8, '1' as u8, '2' as u8, '8' as u8]
}

/// The type tag `unk`, as a byte sequence.
pub open spec fn spec_kw_unk() -> Seq<u8> {
    seq!['u' as u8, 'n' as u8, 'k' as u8]
}

/// The qualified prefix `enum8:`, as a byte sequence.
pub open spec fn spec_kw_enum8_prefix() -> Seq<u8> {
    seq!['e' as u8, 'n' as u8, 'u' as u8, 'm' as u8, '8' as u8, ':' as u8]
}

/// The qualified prefix `enum16:`, as a byte sequence.
pub open spec fn spec_kw_enum16_prefix() -> Seq<u8> {
    seq!['e' as u8, 'n' as u8, 'u' as u8, 'm' as u8, '1' as u8, '6' as u8, ':' as u8]
}

/// The type tag `enum8`, as a byte sequence.
pub open spec fn spec_kw_enum8() -> Seq<u8> {
    seq!['e' as u8, 'n' as u8, 'u' as u8, 'm' as u8, '8' as u8]
}

/// The type tag `enum16`, as a byte sequence.
pub open spec fn spec_kw_enum16() -> Seq<u8> {
    seq!['e' as u8, 'n' as u8, 'u' as u8, 'm' as u8, '1' as u8, '6' as u8]
}

/// Tests whether `p` is a prefix of `s`.
pub open spec fn spec_has_prefix(s: Seq<u8>, p: Seq<u8>) -> bool {
    s.len() >= p.len() && s.take(p.len() as int) == p
}

/// The wire type of a type tag, as a mathematical value. `name` is the
/// declaring attribute's own name: a bare `enum8`/`enum16` tag names the
/// attribute's enumeration after the attribute itself, while a qualified
/// `enum8:Name`/`enum16:Name` tag names it explicitly. The resolver is
/// total: an unrecognized tag maps to an opaque passthrough descriptor.
pub open spec fn spec_resolve_kind(name: Seq<u8>, kind: Seq<u8>) -> WireTypeView {
    if kind == spec_kw_nodata() {
        WireTypeView { id: 0x00, width: 0, domain: DomainView::NoData }
    } else if kind == spec_kw_data8() {
        WireTypeView { id: 0x08, width: 1, domain: DomainView::Raw }
    } else if kind == spec_kw_data16() {
        WireTypeView { id: 0x09, width: 2, domain: DomainView::Raw }
    } else if kind == spec_kw_data24() {
        WireTypeView { id: 0x0a, width: 3, domain: DomainView::Raw }
    } else if kind == spec_kw_data32() {
        WireTypeView { id: 0x0b, width: 4, domain: DomainView::Raw }
    } else if kind == spec_kw_data40() {
        WireTypeView { id: 0x0c, width: 5, domain: DomainView::Raw }
    } else if kind == spec_kw_data48() {
        WireTypeView { id: 0x0d, width: 6, domain: DomainView::Raw }
    } else if kind == spec_kw_data56() {
        WireTypeView { id: 0x0e, width: 7, domain: DomainView::Raw }
    } else if kind == spec_kw_data64() {
        WireTypeView { id: 0x0f, width: 8, domain: DomainView::Raw }
    } else if kind == spec_kw_boolean() {
        WireTypeView { id: 0x10, width: 1, domain: DomainView::Boolean }
    } else if kind == spec_kw_map8() {
        WireTypeView { id: 0x18, width: 1, domain: DomainView::Bitmap }
    } else if kind == spec_kw_map16() {
        WireTypeView { id: 0x19, width: 2, domain: DomainView::Bitmap }
    } else if kind == spec_kw_map24() {
        WireTypeView { id: 0x1a, width: 3, domain: DomainView::Bitmap }
    } else if kind == spec_kw_map32() {
        WireTypeView { id: 0x1b, width: 4, domain: DomainView::Bitmap }
    } else if kind == spec_kw_map40() {
        WireTypeView { id: 0x1c, width: 5, domain: DomainView::Bitmap }
    } else if kind == spec_kw_map48() {
        WireTypeView { id: 0x1d, width: 6, domain: DomainView::Bitmap }
    } else if kind == spec_kw_map56() {
        WireTypeView { id: 0x1e, width: 7, domain: DomainView::Bitmap }
    } else if kind == spec_kw_map64() {
        WireTypeView { id: 0x1f, width: 8, domain: DomainView::Bitmap }
    } else if kind == spec_kw_uint8() {
        WireTypeView { id: 0x20, width: 1, domain: DomainView::Unsigned }
    } else if kind == spec_kw_uint16() {
        WireTypeView { id: 0x21, width: 2, domain: DomainView::Unsigned }
    } else if kind == spec_kw_uint24() {
        WireTypeView { id: 0x22, width: 3, domain: DomainView::Unsigned }
    } else if kind == spec_kw_uint32() {
        WireTypeView { id: 0x23, width: 4, domain: DomainView::Unsigned }
    } else if kind == spec_kw_uint40() {
        WireTypeView { id: 0x24, width: 5, domain: DomainView::Unsigned }
    } else if kind == spec_kw_uint48() {
        WireTypeView { id: 0x25, width: 6, domain: DomainView::Unsigned }
    } else if kind == spec_kw_uint56() {
        WireTypeView { id: 0x26, width: 7, domain: DomainView::Unsigned }
    } else if kind == spec_kw_uint64() {
        WireTypeView { id: 0x27, width: 8, domain: DomainView::Unsigned }
    } else if kind == spec_kw_int8() {
        WireTypeView { id: 0x28, width: 1, domain: DomainView::Signed }
    } else if kind == spec_kw_int16() {
        WireTypeView { id: 0x29, width: 2, domain: DomainView::Signed }
    } else if kind == spec_kw_int24() {
        WireTypeView { id: 0x2a, width: 3, domain: DomainView::Signed }
    } else if kind == spec_kw_int32() {
        WireTypeView { id: 0x2b, width: 4, domain: DomainView::Signed }
    } else if kind == spec_kw_int40() {
        WireTypeView { id: 0x2c, width: 5, domain: DomainView::Signed }
    } else if kind == spec_kw_int48() {
        WireTypeView { id: 0x2d, width: 6, domain: DomainView::Signed }
    } else if kind == spec_kw_int56() {
        WireTypeView { id: 0x2e, width: 7, domain: DomainView::Signed }
    } else if kind == spec_kw_int64() {
        WireTypeView { id: 0x2f, width: 8, domain: DomainView::Signed }
    } else if kind == spec_kw_single() {
        WireTypeView { id: 0x39, width: 4, domain: DomainView::Float }
    } else if kind == spec_kw_double() {
        WireTypeView { id: 0x3a, width: 8, domain: DomainView::Float }
    } else if kind == spec_kw_octstr() {
        WireTypeView { id: 0x41, width: 1, domain: DomainView::Octets }
    } else if kind == spec_kw_charstr() {
        WireTypeView { id: 0x42, width: 1, domain: DomainView::Chars }
    } else if kind == spec_kw_octstr16() {
        WireTypeView { id: 0x43, width: 2, domain: DomainView::Octets }
    } else if kind == spec_kw_charstr16() {
        WireTypeView { id: 0x44, width: 2, domain: DomainView::Chars }
    } else if kind == spec_kw_tod() {
        WireTypeView { id: 0xe0, width: 4, domain: DomainView::TimeOfDay }
    } else if kind == spec_kw_date() {
        WireTypeView { id: 0xe1, width: 4, domain: DomainView::Date }
    } else if kind == spec_kw_utc() {
        WireTypeView { id: 0xe2, width: 4, domain: DomainView::UtcTime }
    } else if kind == spec_kw_cluster_id() {
        WireTypeView { id: 0xe8, width: 2, domain: DomainView::ClusterId }
    } else if kind == spec_kw_attrib_id() {
        WireTypeView { id: 0xe9, width: 2, domain: DomainView::AttributeId }
    } else if kind == spec_kw_bac_oid() {
        WireTypeView { id: 0xea, width: 4, domain: DomainView::BacnetOid }
    } else if kind == spec_kw_eui64() {
        WireTypeView { id: 0xf0, width: 8, domain: DomainView::IeeeAddress }
    } else if kind == spec_kw_key128() {
        WireTypeView { id: 0xf1, width: 16, domain: DomainView::SecurityKey }
    } else if kind == spec_kw_unk() {
        WireTypeView { id: 0xff, width: 0, domain: DomainView::Unknown }
    } else if kind == spec_kw_enum8() {
        WireTypeView { id: 0x30, width: 1, domain: DomainView::Enumeration { wide: false, name: name } }
    } else if kind == spec_kw_enum16() {
        WireTypeView { id: 0x31, width: 2, domain: DomainView::Enumeration { wide: true, name: name } }
    } else if spec_has_prefix(kind, spec_kw_enum8_prefix()) {
        WireTypeView { id: 0x30, width: 1, domain: DomainView::Enumeration { wide: false, name: kind.skip(6) } }
    } else if spec_has_prefix(kind, spec_kw_enum16_prefix()) {
        WireTypeView { id: 0x31, width: 2, domain: DomainView::Enumeration { wide: true, name: kind.skip(7) } }
    } else {
        WireTypeView { id: 0xff, width: 0, domain: DomainView::Other(kind) }
    }
}

/// The type tag `nodata`.
fn kw_nodata() -> (r: Vec<u8>)
    ensures
        r@ == spec_kw_nodata(),
{
    let r: Vec<u8> = vec!['n' as u8, 'o' as u8, 'd' as u8, 'a' as u8, 't' as u8, 'a' as u8];
    proof {
        assert(r@ =~= spec_kw_nodata());
    }
    r
}

/// The type tag `data8`.
fn kw_data8() -> (r: Vec<u8>)
    ensures
        r@ == spec_kw_data8(),
{
    let r: Vec<u8> = vec!['d' as u8, 'a' as u8, 't' as u8, 'a' as u8, '8' as u8];
    proof {
        assert(r@ =~= spec_kw_data8());
    }
    r
}

/// The type tag `data16`.
fn kw_data16() -> (r: Vec<u8>)
    ensures
        r@ == spec_kw_data16(),
{
    let r: Vec<u8> = vec!['d' as u8, 'a' as u8, 't' as u8, 'a' as u8, '1' as u8, '6' as u8];
    proof {
        assert(r@ =~= spec_kw_data16());
    }
    r
}

/// The type tag `data24`.
fn kw_data24() -> (r: Vec<u8>)
    ensures
        r@ == spec_kw_data24(),
{
    let r: Vec<u8> = vec!['d' as u8, 'a' as u8, 't' as u8, 'a' as u8, '2' as u8, '4' as u8];
    proof {
        assert(r@ =~= spec_kw_data24());
    }
    r
}

/// The type tag `data32`.
fn kw_data32() -> (r: Vec<u8>)
    ensures
        r@ == spec_kw_data32(),
{
    let r: Vec<u8> = vec!['d' as u8, 'a' as u8, 't' as u8, 'a' as u8, '3' as u8, '2' as u8];
    proof {
        assert(r@ =~= spec_kw_data32());
    }
    r
}

/// The type tag `data40`.
fn kw_data40() -> (r: Vec<u8>)
    ensures
        r@ == spec_kw_data40(),
{
    let r: Vec<u8> = vec!['d' as u8, 'a' as u8, 't' as u8, 'a' as u8, '4' as u8, '0' as u8];
    proof {
        assert(r@ =~= spec_kw_data40());
    }
    r
}

/// The type tag `data48`.
fn kw_data48() -> (r: Vec<u8>)
    ensures
        r@ == spec_kw_data48(),
{
    let r: Vec<u8> = vec!['d' as u8, 'a' as u8, 't' as u8, 'a' as u8, '4' as u8, '8' as u8];
    proof {
        assert(r@ =~= spec_kw_data48());
    }
    r
}

/// The type tag `data56`.
fn kw_data56() -> (r: Vec<u8>)
    ensures
        r@ == spec_kw_data56(),
{
    let r: Vec<u8> = vec!['d' as u8, 'a' as u8, 't' as u8, 'a' as u8, '5' as u8, '6' as u8];
    proof {
        assert(r@ =~= spec_kw_data56());
    }
    r
}

/// The type tag `data64`.
fn kw_data64() -> (r: Vec<u8>)
    ensures
        r@ == spec_kw_data64(),
{
    let r: Vec<u8> = vec!['d' as u8, 'a' as u8, 't' as u8, 'a' as u8, '6' as u8, '4' as u8];
    proof {
        assert(r@ =~= spec_kw_data64());
    }
    r
}

/// The type tag `bool`.
fn kw_boolean() -> (r: Vec<u8>)
    ensures
        r@ == spec_kw_boolean(),
{
    let r: Vec<u8> = vec!['b' as u8, 'o' as u8, 'o' as u8, 'l' as u8];
    proof {
        assert(r@ =~= spec_kw_boolean());
    }
    r
}

/// The type tag `map8`.
fn kw_map8() -> (r: Vec<u8>)
    ensures
        r@ == spec_kw_map8(),
{
    let r: Vec<u8> = vec!['m' as u8, 'a' as u8, 'p' as u8, '8' as u8];
    proof {
        assert(r@ =~= spec_kw_map8());
    }
    r
}

/// The type tag `map16`.
fn kw_map16() -> (r: Vec<u8>)
    ensures
        r@ == spec_kw_map16(),
{
    let r: Vec<u8> = vec!['m' as u8, 'a' as u8, 'p' as u8, '1' as u8, '6' as u8];
    proof {
        assert(r@ =~= spec_kw_map16());
    }
    r
}

/// The type tag `map24`.
fn kw_map24() -> (r: Vec<u8>)
    ensures
        r@ == spec_kw_map24(),
{
    let r: Vec<u8> = vec!['m' as u8, 'a' as u8, 'p' as u8, '2' as u8, '4' as u8];
    proof {
        assert(r@ =~= spec_kw_map24());
    }
    r
}

/// The type tag `map32`.
fn kw_map32() -> (r: Vec<u8>)
    ensures
        r@ == spec_kw_map32(),
{
    let r: Vec<u8> = vec!['m' as u8, 'a' as u8, 'p' as u8, '3' as u8, '2' as u8];
    proof {
        assert(r@ =~= spec_kw_map32());
    }
    r
}

/// The type tag `map40`.
fn kw_map40() -> (r: Vec<u8>)
    ensures
        r@ == spec_kw_map40(),
{
    let r: Vec<u8> = vec!['m' as u8, 'a' as u8, 'p' as u8, '4' as u8, '0' as u8];
    proof {
        assert(r@ =~= spec_kw_map40());
    }
    r
}

/// The type tag `map48`.
fn kw_map48() -> (r: Vec<u8>)
    ensures
        r@ == spec_kw_map48(),
{
    let r: Vec<u8> = vec!['m' as u8, 'a' as u8, 'p' as u8, '4' as u8, '8' as u8];
    proof {
        assert(r@ =~= spec_kw_map48());
    }
    r
}

/// The type tag `map56`.
fn kw_map56() -> (r: Vec<u8>)
    ensures
        r@ == spec_kw_map56(),
{
    let r: Vec<u8> = vec!['m' as u8, 'a' as u8, 'p' as u8, '5' as u8, '6' as u8];
    proof {
        assert(r@ =~= spec_kw_map56());
    }
    r
}

/// The type tag `map64`.
fn kw_map64() -> (r: Vec<u8>)
    ensures
        r@ == spec_kw_map64(),
{
    let r: Vec<u8> = vec!['m' as u8, 'a' as u8, 'p' as u8, '6' as u8, '4' as u8];
    proof {
        assert(r@ =~= spec_kw_map64());
    }
    r
}

/// The type tag `uint8`.
fn kw_uint8() -> (r: Vec<u8>)
    ensures
        r@ == spec_kw_uint8(),
{
    let r: Vec<u8> = vec!['u' as u8, 'i' as u8, 'n' as u8, 't' as u8, '8' as u8];
    proof {
        assert(r@ =~= spec_kw_uint8());
    }
    r
}

/// The type tag `uint16`.
fn kw_uint16() -> (r: Vec<u8>)
    ensures
        r@ == spec_kw_uint16(),
{
    let r: Vec<u8> = vec!['u' as u8, 'i' as u8, 'n' as u8, 't' as u8, '1' as u8, '6' as u8];
    proof {
        assert(r@ =~= spec_kw_uint16());
    }
    r
}

/// The type tag `uint24`.
fn kw_uint24() -> (r: Vec<u8>)
    ensures
        r@ == spec_kw_uint24(),
{
    let r: Vec<u8> = vec!['u' as u8, 'i' as u8, 'n' as u8, 't' as u8, '2' as u8, '4' as u8];
    proof {
        assert(r@ =~= spec_kw_uint24());
    }
    r
}

/// The type tag `uint32`.
fn kw_uint32() -> (r: Vec<u8>)
    ensures
        r@ == spec_kw_uint32(),
{
    let r: Vec<u8> = vec!['u' as u8, 'i' as u8, 'n' as u8, 't' as u8, '3' as u8, '2' as u8];
    proof {
        assert(r@ =~= spec_kw_uint32());
    }
    r
}

/// The type tag `uint40`.
fn kw_uint40() -> (r: Vec<u8>)
    ensures
        r@ == spec_kw_uint40(),
{
    let r: Vec<u8> = vec!['u' as u8, 'i' as u8, 'n' as u8, 't' as u8, '4' as u8, '0' as u8];
    proof {
        assert(r@ =~= spec_kw_uint40());
    }
    r
}

/// The type tag `uint48`.
fn kw_uint48() -> (r: Vec<u8>)
    ensures
        r@ == spec_kw_uint48(),
{
    let r: Vec<u8> = vec!['u' as u8, 'i' as u8, 'n' as u8, 't' as u8, '4' as u8, '8' as u8];
    proof {
        assert(r@ =~= spec_kw_uint48());
    }
    r
}

/// The type tag `uint56`.
fn kw_uint56() -> (r: Vec<u8>)
    ensures
        r@ == spec_kw_uint56(),
{
    let r: Vec<u8> = vec!['u' as u8, 'i' as u8, 'n' as u8, 't' as u8, '5' as u8, '6' as u8];
    proof {
        assert(r@ =~= spec_kw_uint56());
    }
    r
}

/// The type tag `uint64`.
fn kw_uint64() -> (r: Vec<u8>)
    ensures
        r@ == spec_kw_uint64(),
{
    let r: Vec<u8> = vec!['u' as u8, 'i' as u8, 'n' as u8, 't' as u8, '6' as u8, '4' as u8];
    proof {
        assert(r@ =~= spec_kw_uint64());
    }
    r
}

/// The type tag `int8`.
fn kw_int8() -> (r: Vec<u8>)
    ensures
        r@ == spec_kw_int8(),
{
    let r: Vec<u8> = vec!['i' as u8, 'n' as u8, 't' as u8, '8' as u8];
    proof {
        assert(r@ =~= spec_kw_int8());
    }
    r
}

/// The type tag `int16`.
fn kw_int16() -> (r: Vec<u8>)
    ensures
        r@ == spec_kw_int16(),
{
    let r: Vec<u8> = vec!['i' as u8, 'n' as u8, 't' as u8, '1' as u8, '6' as u8];
    proof {
        assert(r@ =~= spec_kw_int16());
    }
    r
}

/// The type tag `int24`.
fn kw_int24() -> (r: Vec<u8>)
    ensures
        r@ == spec_kw_int24(),
{
    let r: Vec<u8> = vec!['i' as u8, 'n' as u8, 't' as u8, '2' as u8, '4' as u8];
    proof {
        assert(r@ =~= spec_kw_int24());
    }
    r
}

/// The type tag `int32`.
fn kw_int32() -> (r: Vec<u8>)
    ensures
        r@ == spec_kw_int32(),
{
    let r: Vec<u8> = vec!['i' as u8, 'n' as u8, 't' as u8, '3' as u8, '2' as u8];
    proof {
        assert(r@ =~= spec_kw_int32());
    }
    r
}

/// The type tag `int40`.
fn kw_int40() -> (r: Vec<u8>)
    ensures
        r@ == spec_kw_int40(),
{
    let r: Vec<u8> = vec!['i' as u8, 'n' as u8, 't' as u8, '4' as u8, '0' as u8];
    proof {
        assert(r@ =~= spec_kw_int40());
    }
    r
}

/// The type tag `int48`.
fn kw_int48() -> (r: Vec<u8>)
    ensures
        r@ == spec_kw_int48(),
{
    let r: Vec<u8> = vec!['i' as u8, 'n' as u8, 't' as u8, '4' as u8, '8' as u8];
    proof {
        assert(r@ =~= spec_kw_int48());
    }
    r
}

/// The type tag `int56`.
fn kw_int56() -> (r: Vec<u8>)
    ensures
        r@ == spec_kw_int56(),
{
    let r: Vec<u8> = vec!['i' as u8, 'n' as u8, 't' as u8, '5' as u8, '6' as u8];
    proof {
        assert(r@ =~= spec_kw_int56());
    }
    r
}

/// The type tag `int64`.
fn kw_int64() -> (r: Vec<u8>)
    ensures
        r@ == spec_kw_int64(),
{
    let r: Vec<u8> = vec!['i' as u8, 'n' as u8, 't' as u8, '6' as u8, '4' as u8];
    proof {
        assert(r@ =~= spec_kw_int64());
    }
    r
}

/// The type tag `single`.
fn kw_single() -> (r: Vec<u8>)
    ensures
        r@ == spec_kw_single(),
{
    let r: Vec<u8> = vec!['s' as u8, 'i' as u8, 'n' as u8, 'g' as u8, 'l' as u8, 'e' as u8];
    proof {
        assert(r@ =~= spec_kw_single());
    }
    r
}

/// The type tag `double`.
fn kw_double() -> (r: Vec<u8>)
    ensures
        r@ == spec_kw_double(),
{
    let r: Vec<u8> = vec!['d' as u8, 'o' as u8, 'u' as u8, 'b' as u8, 'l' as u8, 'e' as u8];
    proof {
        assert(r@ =~= spec_kw_double());
    }
    r
}

/// The type tag `octstr`.
fn kw_octstr() -> (r: Vec<u8>)
    ensures
        r@ == spec_kw_octstr(),
{
    let r: Vec<u8> = vec!['o' as u8, 'c' as u8, 't' as u8, 's' as u8, 't' as u8, 'r' as u8];
    proof {
        assert(r@ =~= spec_kw_octstr());
    }
    r
}

/// The type tag `string`.
fn kw_charstr() -> (r: Vec<u8>)
    ensures
        r@ == spec_kw_charstr(),
{
    let r: Vec<u8> = vec!['s' as u8, 't' as u8, 'r' as u8, 'i' as u8, 'n' as u8, 'g' as u8];
    proof {
        assert(r@ =~= spec_kw_charstr());
    }
    r
}

/// The type tag `octstr16`.
fn kw_octstr16() -> (r: Vec<u8>)
    ensures
        r@ == spec_kw_octstr16(),
{
    let r: Vec<u8> = vec!['o' as u8, 'c' as u8, 't' as u8, 's' as u8, 't' as u8, 'r' as u8, '1' as u8, '6' as u8];
    proof {
        assert(r@ =~= spec_kw_octstr16());
    }
    r
}

/// The type tag `string16`.
fn kw_charstr16() -> (r: Vec<u8>)
    ensures
        r@ == spec_kw_charstr16(),
{
    let r: Vec<u8> = vec!['s' as u8, 't' as u8, 'r' as u8, 'i' as u8, 'n' as u8, 'g' as u8, '1' as u8, '6' as u8];
    proof {
        assert(r@ =~= spec_kw_charstr16());
    }
    r
}

/// The type tag `ToD`.
fn kw_tod() -> (r: Vec<u8>)
    ensures
        r@ == spec_kw_tod(),
{
    let r: Vec<u8> = vec!['T' as u8, 'o' as u8, 'D' as u8];
    proof {
        assert(r@ =~= spec_kw_tod());
    }
    r
}

/// The type tag `date`.
fn kw_date() -> (r: Vec<u8>)
    ensures
        r@ == spec_kw_date(),
{
    let r: Vec<u8> = vec!['d' as u8, 'a' as u8, 't' as u8, 'e' as u8];
    proof {
        assert(r@ =~= spec_kw_date());
    }
    r
}

/// The type tag `UTC`.
fn kw_utc() -> (r: Vec<u8>)
    ensures
        r@ == spec_kw_utc(),
{
    let r: Vec<u8> = vec!['U' as u8, 'T' as u8, 'C' as u8];
    proof {
        assert(r@ =~= spec_kw_utc());
    }
    r
}

/// The type tag `clusterId`.
fn kw_cluster_id() -> (r: Vec<u8>)
    ensures
        r@ == spec_kw_cluster_id(),
{
    let r: Vec<u8> = vec!['c' as u8, 'l' as u8, 'u' as u8, 's' as u8, 't' as u8, 'e' as u8, 'r' as u8, 'I' as u8, 'd' as u8];
    proof {
        assert(r@ =~= spec_kw_cluster_id());
    }
    r
}

/// The type tag `attribId`.
fn kw_attrib_id() -> (r: Vec<u8>)
    ensures
        r@ == spec_kw_attrib_id(),
{
    let r: Vec<u8> = vec!['a' as u8, 't' as u8, 't' as u8, 'r' as u8, 'i' as u8, 'b' as u8, 'I' as u8, 'd' as u8];
    proof {
        assert(r@ =~= spec_kw_attrib_id());
    }
    r
}

/// The type tag `bacOID`.
fn kw_bac_oid() -> (r: Vec<u8>)
    ensures
        r@ == spec_kw_bac_oid(),
{
    let r: Vec<u8> = vec!['b' as u8, 'a' as u8, 'c' as u8, 'O' as u8, 'I' as u8, 'D' as u8];
    proof {
        assert(r@ =~= spec_kw_bac_oid());
    }
    r
}

/// The type tag `EUI64`.
fn kw_eui64() -> (r: Vec<u8>)
    ensures
        r@ == spec_kw_eui64(),
{
    let r: Vec<u8> = vec!['E' as u8, 'U' as u8, 'I' as u8, '6' as u8, '4' as u8];
    proof {
        assert(r@ =~= spec_kw_eui64());
    }
    r
}

/// The type tag `key128`.
fn kw_key128() -> (r: Vec<u8>)
    ensures
        r@ == spec_kw_key128(),
{
    let r: Vec<u8> = vec!['k' as u8, 'e' as u8, 'y' as u8, '1' as u8, '2' as u8, '8' as u8];
    proof {
        assert(r@ =~= spec_kw_key128());
    }
    r
}

/// The type tag `unk`.
fn kw_unk() -> (r: Vec<u8>)
    ensures
        r@ == spec_kw_unk(),
{
    let r: Vec<u8> = vec!['u' as u8, 'n' as u8, 'k' as u8];
    proof {
        assert(r@ =~= spec_kw_unk());
    }
    r
}

/// The type tag `enum8`.
fn kw_enum8() -> (r: Vec<u8>)
    ensures
        r@ == spec_kw_enum8(),
{
    let r: Vec<u8> = vec!['e' as u8, 'n' as u8, 'u' as u8, 'm' as u8, '8' as u8];
    proof {
        assert(r@ =~= spec_kw_enum8());
    }
    r
}

/// The type tag `enum16`.
fn kw_enum16() -> (r: Vec<u8>)
    ensures
        r@ == spec_kw_enum16(),
{
    let r: Vec<u8> = vec!['e' as u8, 'n' as u8, 'u' as u8, 'm' as u8, '1' as u8, '6' as u8];
    proof {
        assert(r@ =~= spec_kw_enum16());
    }
    r
}

/// Tests whether `kind` starts with `enum8:` and, on success, returns the
/// name after the prefix.
fn match_enum_prefix(kind: &Vec<u8>, wide: bool) -> (r: Option<Vec<u8>>)
    ensures
        ({
            let p = if wide { spec_kw_enum16_prefix() } else { spec_kw_enum8_prefix() };
            match r {
                Some(n) => spec_has_prefix(kind@, p) && n@ == kind@.skip(p.len() as int),
                None => !spec_has_prefix(kind@, p),
            }
        }),
{
    let plen: usize = if wide { 7 } else { 6 };
    let ghost p = if wide { spec_kw_enum16_prefix() } else { spec_kw_enum8_prefix() };
    if kind.len() < plen {
        return None;
    }
    let ok = if wide {
        kind[0] == 'e' as u8 && kind[1] == 'n' as u8 && kind[2] == 'u' as u8 && kind[3] == 'm' as u8
            && kind[4] == '1' as u8 && kind[5] == '6' as u8 && kind[6] == ':' as u8
    } else {
        kind[0] == 'e' as u8 && kind[1] == 'n' as u8 && kind[2] == 'u' as u8 && kind[3] == 'm' as u8
            && kind[4] == '8' as u8 && kind[5] == ':' as u8
    };
    if !ok {
        proof {
            assert(kind@.take(p.len() as int).len() == p.len());
            assert(kind@.take(p.len() as int) != p) by {
                if kind@.take(p.len() as int) == p {
                    assert(forall|i: int| 0 <= i < p.len() ==> kind@[i] == p[i]) by {
                        assert(forall|i: int|
                            0 <= i < p.len() ==> kind@.take(p.len() as int)[i] == kind@[i]);
                    }
                }
            }
        }
        return None;
    }
    let tail = vstd::slice::slice_to_vec(vstd::slice::slice_subrange(
        kind.as_slice(),
        plen,
        kind.len(),
    ));
    proof {
        assert(kind@.take(p.len() as int) =~= p);
    }
    Some(tail)
}

/// Resolves a textual type tag to its wire-type descriptor. The resolution
/// is total: it never fails, and unrecognized tags degrade to an opaque
/// passthrough descriptor.
#[verifier::rlimit(100)]
pub fn resolve_kind(name: &Vec<u8>, kind: &Vec<u8>) -> (r: WireType)
    ensures
        r@ == spec_resolve_kind(name@, kind@),
{
    if bytes_eq(kind, &kw_nodata()) {
        return WireType { id: 0x00, width: 0, domain: Domain::NoData };
    }
    if bytes_eq(kind, &kw_data8()) {
        return WireType { id: 0x08, width: 1, domain: Domain::Raw };
    }
    if bytes_eq(kind, &kw_data16()) {
        return WireType { id: 0x09, width: 2, domain: Domain::Raw };
    }
    if bytes_eq(kind, &kw_data24()) {
        return WireType { id: 0x0a, width: 3, domain: Domain::Raw };
    }
    if bytes_eq(kind, &kw_data32()) {
        return WireType { id: 0x0b, width: 4, domain: Domain::Raw };
    }
    if bytes_eq(kind, &kw_data40()) {
        return WireType { id: 0x0c, width: 5, domain: Domain::Raw };
    }
    if bytes_eq(kind, &kw_data48()) {
        return WireType { id: 0x0d, width: 6, domain: Domain::Raw };
    }
    if bytes_eq(kind, &kw_data56()) {
        return WireType { id: 0x0e, width: 7, domain: Domain::Raw };
    }
    if bytes_eq(kind, &kw_data64()) {
        return WireType { id: 0x0f, width: 8, domain: Domain::Raw };
    }
    if bytes_eq(kind, &kw_boolean()) {
        return WireType { id: 0x10, width: 1, domain: Domain::Boolean };
    }
    if bytes_eq(kind, &kw_map8()) {
        return WireType { id: 0x18, width: 1, domain: Domain::Bitmap };
    }
    if bytes_eq(kind, &kw_map16()) {
        return WireType { id: 0x19, width: 2, domain: Domain::Bitmap };
    }
    if bytes_eq(kind, &kw_map24()) {
        return WireType { id: 0x1a, width: 3, domain: Domain::Bitmap };
    }
    if bytes_eq(kind, &kw_map32()) {
        return WireType { id: 0x1b, width: 4, domain: Domain::Bitmap };
    }
    if bytes_eq(kind, &kw_map40()) {
        return WireType { id: 0x1c, width: 5, domain: Domain::Bitmap };
    }
    if bytes_eq(kind, &kw_map48()) {
        return WireType { id: 0x1d, width: 6, domain: Domain::Bitmap };
    }
    if bytes_eq(kind, &kw_map56()) {
        return WireType { id: 0x1e, width: 7, domain: Domain::Bitmap };
    }
    if bytes_eq(kind, &kw_map64()) {
        return WireType { id: 0x1f, width: 8, domain: Domain::Bitmap };
    }
    if bytes_eq(kind, &kw_uint8()) {
        return WireType { id: 0x20, width: 1, domain: Domain::Unsigned };
    }
    if bytes_eq(kind, &kw_uint16()) {
        return WireType { id: 0x21, width: 2, domain: Domain::Unsigned };
    }
    if bytes_eq(kind, &kw_uint24()) {
        return WireType { id: 0x22, width: 3, domain: Domain::Unsigned };
    }
    if bytes_eq(kind, &kw_uint32()) {
        return WireType { id: 0x23, width: 4, domain: Domain::Unsigned };
    }
    if bytes_eq(kind, &kw_uint40()) {
        return WireType { id: 0x24, width: 5, domain: Domain::Unsigned };
    }
    if bytes_eq(kind, &kw_uint48()) {
        return WireType { id: 0x25, width: 6, domain: Domain::Unsigned };
    }
    if bytes_eq(kind, &kw_uint56()) {
        return WireType { id: 0x26, width: 7, domain: Domain::Unsigned };
    }
    if bytes_eq(kind, &kw_uint64()) {
        return WireType { id: 0x27, width: 8, domain: Domain::Unsigned };
    }
    if bytes_eq(kind, &kw_int8()) {
        return WireType { id: 0x28, width: 1, domain: Domain::Signed };
    }
    if bytes_eq(kind, &kw_int16()) {
        return WireType { id: 0x29, width: 2, domain: Domain::Signed };
    }
    if bytes_eq(kind, &kw_int24()) {
        return WireType { id: 0x2a, width: 3, domain: Domain::Signed };
    }
    if bytes_eq(kind, &kw_int32()) {
        return WireType { id: 0x2b, width: 4, domain: Domain::Signed };
    }
    if bytes_eq(kind, &kw_int40()) {
        return WireType { id: 0x2c, width: 5, domain: Domain::Signed };
    }
    if bytes_eq(kind, &kw_int48()) {
        return WireType { id: 0x2d, width: 6, domain: Domain::Signed };
    }
    if bytes_eq(kind, &kw_int56()) {
        return WireType { id: 0x2e, width: 7, domain: Domain::Signed };
    }
    if bytes_eq(kind, &kw_int64()) {
        return WireType { id: 0x2f, width: 8, domain: Domain::Signed };
    }
    if bytes_eq(kind, &kw_single()) {
        return WireType { id: 0x39, width: 4, domain: Domain::Float };
    }
    if bytes_eq(kind, &kw_double()) {
        return WireType { id: 0x3a, width: 8, domain: Domain::Float };
    }
    if bytes_eq(kind, &kw_octstr()) {
        return WireType { id: 0x41, width: 1, domain: Domain::Octets };
    }
    if bytes_eq(kind, &kw_charstr()) {
        return WireType { id: 0x42, width: 1, domain: Domain::Chars };
    }
    if bytes_eq(kind, &kw_octstr16()) {
        return WireType { id: 0x43, width: 2, domain: Domain::Octets };
    }
    if bytes_eq(kind, &kw_charstr16()) {
        return WireType { id: 0x44, width: 2, domain: Domain::Chars };
    }
    if bytes_eq(kind, &kw_tod()) {
        return WireType { id: 0xe0, width: 4, domain: Domain::TimeOfDay };
    }
    if bytes_eq(kind, &kw_date()) {
        return WireType { id: 0xe1, width: 4, domain: Domain::Date };
    }
    if bytes_eq(kind, &kw_utc()) {
        return WireType { id: 0xe2, width: 4, domain: Domain::UtcTime };
    }
    if bytes_eq(kind, &kw_cluster_id()) {
        return WireType { id: 0xe8, width: 2, domain: Domain::ClusterId };
    }
    if bytes_eq(kind, &kw_attrib_id()) {
        return WireType { id: 0xe9, width: 2, domain: Domain::AttributeId };
    }
    if bytes_eq(kind, &kw_bac_oid()) {
        return WireType { id: 0xea, width: 4, domain: Domain::BacnetOid };
    }
    if bytes_eq(kind, &kw_eui64()) {
        return WireType { id: 0xf0, width: 8, domain: Domain::IeeeAddress };
    }
    if bytes_eq(kind, &kw_key128()) {
        return WireType { id: 0xf1, width: 16, domain: Domain::SecurityKey };
    }
    if bytes_eq(kind, &kw_unk()) {
        return WireType { id: 0xff, width: 0, domain: Domain::Unknown };
    }
    if bytes_eq(kind, &kw_enum8()) {
        return WireType {
            id: 0x30,
            width: 1,
            domain: Domain::Enumeration { wide: false, name: name.clone() },
        };
    }
    if bytes_eq(kind, &kw_enum16()) {
        return WireType {
            id: 0x31,
            width: 2,
            domain: Domain::Enumeration { wide: true, name: name.clone() },
        };
    }
    if let Some(n) = match_enum_prefix(kind, false) {
        return WireType { id: 0x30, width: 1, domain: Domain::Enumeration { wide: false, name: n } };
    }
    if let Some(n) = match_enum_prefix(kind, true) {
        return WireType { id: 0x31, width: 2, domain: Domain::Enumeration { wide: true, name: n } };
    }
    WireType { id: 0xff, width: 0, domain: Domain::Other(kind.clone()) }
}

} // verus!