//! Value types of the wire-type system: each carries its own encoded byte
//! length and, where the protocol reserves one, a "no value" sentinel.
use vstd::prelude::*;

verus! {

/// A value that can be carried by an attribute: it knows the byte length of
/// its encoding.
pub trait ZclCompatibleType {
    /// The byte length of the encoded value, as a mathematical number.
    spec fn spec_len(&self) -> nat;

    /// Executable byte length of the encoded value.
    fn len(&self) -> (r: usize)
        requires
            self.spec_len() <= usize::MAX,
        ensures
            r as nat == self.spec_len(),
    ;
}

/// A wire type: a carried value type together with the numeric type tag and
/// the reserved "no value" encoding, where the protocol defines one.
pub trait ZclType: ZclCompatibleType {
    /// The carried value representation.
    type T;

    /// The reserved "no value" encoding, if the type has one.
    spec fn spec_non_value() -> Option<Self::T>;

    /// The numeric type tag of this wire type.
    spec fn spec_id() -> u8;

    /// Executable form of the reserved "no value" encoding.
    fn non_value() -> (r: Option<Self::T>)
        ensures
            r == Self::spec_non_value(),
    ;

    /// Executable form of the numeric type tag.
    fn id() -> (r: u8)
        ensures
            r == Self::spec_id(),
    ;
}

/// An enumeration usable as the parameter of `Enum8` or `Enum16`: it names
/// the variant that stands for "invalid/none".
pub trait ZclEnum {
    /// The variant reserved for "invalid/none".
    spec fn spec_non_value() -> Self where Self: core::marker::Sized;

    /// Executable form of the reserved variant.
    fn non_value() -> (r: Self) where Self: core::marker::Sized
        ensures
            r == Self::spec_non_value(),
    ;
}

/// An 8-bit enumeration value.
#[derive(PartialEq, Debug, Copy, Clone)]
pub struct Enum8<T: ZclEnum>(pub T);

impl<T: ZclEnum> ZclCompatibleType for Enum8<T> {
    open spec fn spec_len(&self) -> nat {
        1
    }

    fn len(&self) -> (r: usize)
        ensures
            r as nat == self.spec_len(),
    {
        0x1
    }
}

impl<T: ZclEnum> ZclType for Enum8<T> {
    type T = T;

    open spec fn spec_non_value() -> Option<T> {
        Some(T::spec_non_value())
    }

    open spec fn spec_id() -> u8 {
        0x30
    }

    fn non_value() -> (r: Option<T>)
        ensures
            r == Self::spec_non_value(),
    {
        Some(T::non_value())
    }

    fn id() -> (r: u8)
        ensures
            r == Self::spec_id(),
    {
        0x30
    }
}

/// A 16-bit enumeration value.
#[derive(PartialEq, Debug, Copy, Clone)]
pub struct Enum16<T: ZclEnum>(pub T);

impl<T: ZclEnum> ZclCompatibleType for Enum16<T> {
    open spec fn spec_len(&self) -> nat {
        2
    }

    fn len(&self) -> (r: usize)
        ensures
            r as nat == self.spec_len(),
    {
        0x2
    }
}

impl<T: ZclEnum> ZclType for Enum16<T> {
    type T = T;

    open spec fn spec_non_value() -> Option<T> {
        Some(T::spec_non_value())
    }

    open spec fn spec_id() -> u8 {
        0x31
    }

    fn non_value() -> (r: Option<T>)
        ensures
            r == Self::spec_non_value(),
    {
        Some(T::non_value())
    }

    fn id() -> (r: u8)
        ensures
            r == Self::spec_id(),
    {
        0x31
    }
}

/// A length-prefixed byte string with a one-byte length prefix; `None` is
/// the "no value" encoding.
#[derive(PartialEq, Debug, Clone)]
pub struct OctetString(pub Option<Vec<u8>>);

impl ZclCompatibleType for OctetString {
    open spec fn spec_len(&self) -> nat {
        match self.0 {
            Some(x) => x@.len() + 1,
            None => 1,
        }
    }

    fn len(&self) -> (r: usize)
        ensures
            r as nat == self.spec_len(),
    {
        match &self.0 {
            Some(x) => x.len() + 1,
            None => 1,
        }
    }
}

impl ZclType for OctetString {
    type T = Option<Vec<u8>>;

    open spec fn spec_non_value() -> Option<Option<Vec<u8>>> {
        Some(None)
    }

    open spec fn spec_id() -> u8 {
        0x41
    }

    fn non_value() -> (r: Option<Option<Vec<u8>>>)
        ensures
            r == Self::spec_non_value(),
    {
        Some(None)
    }

    fn id() -> (r: u8)
        ensures
            r == Self::spec_id(),
    {
        0x41
    }
}

/// A length-prefixed character string (UTF-8 bytes) with a one-byte length
/// prefix; `None` is the "no value" encoding.
#[derive(PartialEq, Debug, Clone)]
pub struct CharacterString(pub Option<Vec<u8>>);

impl ZclCompatibleType for CharacterString {
    open spec fn spec_len(&self) -> nat {
        match self.0 {
            Some(x) => x@.len() + 1,
            None => 1,
        }
    }

    fn len(&self) -> (r: usize)
        ensures
            r as nat == self.spec_len(),
    {
        match &self.0 {
            Some(x) => x.len() + 1,
            None => 1,
        }
    }
}

impl ZclType for CharacterString {
    type T = Option<Vec<u8>>;

    open spec fn spec_non_value() -> Option<Option<Vec<u8>>> {
        Some(None)
    }

    open spec fn spec_id() -> u8 {
        0x42
    }

    fn non_value() -> (r: Option<Option<Vec<u8>>>)
        ensures
            r == Self::spec_non_value(),
    {
        Some(None)
    }

    fn id() -> (r: u8)
        ensures
            r == Self::spec_id(),
    {
        0x42
    }
}

/// A length-prefixed byte string with a two-byte length prefix.
#[derive(PartialEq, Debug, Clone)]
pub struct LongOctetString(pub Option<Vec<u8>>);

impl ZclCompatibleType for LongOctetString {
    open spec fn spec_len(&self) -> nat {
        match self.0 {
            Some(x) => x@.len() + 2,
            None => 2,
        }
    }

    fn len(&self) -> (r: usize)
        ensures
            r as nat == self.spec_len(),
    {
        match &self.0 {
            Some(x) => x.len() + 2,
            None => 2,
        }
    }
}

impl ZclType for LongOctetString {
    type T = Option<Vec<u8>>;

    open spec fn spec_non_value() -> Option<Option<Vec<u8>>> {
        Some(None)
    }

    open spec fn spec_id() -> u8 {
        0x43
    }

    fn non_value() -> (r: Option<Option<Vec<u8>>>)
        ensures
            r == Self::spec_non_value(),
    {
        Some(None)
    }

    fn id() -> (r: u8)
        ensures
            r == Self::spec_id(),
    {
        0x43
    }
}

/// A length-prefixed character string (UTF-8 bytes) with a two-byte length
/// prefix.
#[derive(PartialEq, Debug, Clone)]
pub struct LongCharacterString(pub Option<Vec<u8>>);

impl ZclCompatibleType for LongCharacterString {
    open spec fn spec_len(&self) -> nat {
        match self.0 {
            Some(x) => x@.len() + 2,
            None => 2,
        }
    }

    fn len(&self) -> (r: usize)
        ensures
            r as nat == self.spec_len(),
    {
        match &self.0 {
            Some(x) => x.len() + 2,
            None => 2,
        }
    }
}

impl ZclType for LongCharacterString {
    type T = Option<Vec<u8>>;

    open spec fn spec_non_value() -> Option<Option<Vec<u8>>> {
        Some(None)
    }

    open spec fn spec_id() -> u8 {
        0x44
    }

    fn non_value() -> (r: Option<Option<Vec<u8>>>)
        ensures
            r == Self::spec_non_value(),
    {
        Some(None)
    }

    fn id() -> (r: u8)
        ensures
            r == Self::spec_id(),
    {
        0x44
    }
}

/// The sum of the encoded lengths of the first `n` elements of a sequence.
pub open spec fn seq_len_sum<T: ZclCompatibleType>(s: Seq<T>, n: int) -> nat
    decreases n,
{
    if n <= 0 {
        0
    } else {
        seq_len_sum(s, n - 1) + s[n - 1].spec_len()
    }
}

/// An ordered collection of same-typed elements, prefixed by a two-byte
/// element count; `None` is the "no value" encoding.
#[derive(PartialEq, Debug, Clone)]
pub struct Array<T>(pub Option<Vec<T>>);

impl<T: ZclCompatibleType> ZclCompatibleType for Array<T> {
    open spec fn spec_len(&self) -> nat {
        match self.0 {
            Some(xs) => 2 + seq_len_sum(xs@, xs@.len() as int),
            None => 2,
        }
    }

    fn len(&self) -> (r: usize)
        ensures
            r as nat == self.spec_len(),
    {
        match &self.0 {
            Some(xs) => {
                let mut total: usize = 2;
                let mut i: usize = 0;
                while i < xs.len()
                    invariant
                        i <= xs@.len(),
                        total as nat == 2 + seq_len_sum(xs@, i as int),
                        2 + seq_len_sum(xs@, xs@.len() as int) <= usize::MAX,
                    decreases xs@.len() - i,
                {
                    proof {
                        lemma_seq_len_sum_monotonic(xs@, i + 1 as int, xs@.len() as int);
                    }
                    let el = xs[i].len();
                    total = total + el;
                    i = i + 1;
                }
                total
            },
            None => 2,
        }
    }
}

/// The partial sums of `seq_len_sum` never exceed the full sum.
proof fn lemma_seq_len_sum_monotonic<T: ZclCompatibleType>(s: Seq<T>, i: int, j: int)
    requires
        i <= j,
    ensures
        seq_len_sum(s, i) <= seq_len_sum(s, j),
    decreases j - i,
{
    if i < j {
        lemma_seq_len_sum_monotonic(s, i, j - 1);
    }
}

impl<T: ZclCompatibleType> ZclType for Array<T> {
    type T = Option<Vec<T>>;

    open spec fn spec_non_value() -> Option<Option<Vec<T>>> {
        Some(None)
    }

    open spec fn spec_id() -> u8 {
        0x48
    }

    fn non_value() -> (r: Option<Option<Vec<T>>>)
        ensures
            r == Self::spec_non_value(),
    {
        Some(None)
    }

    fn id() -> (r: u8)
        ensures
            r == Self::spec_id(),
    {
        0x48
    }
}

/// A value that can stand as the body of a `Structure`: it also reports its
/// member count, which the protocol encodes in two bytes.
pub trait StructureCompatibleType: ZclCompatibleType {
    /// The member count, as a mathematical number.
    spec fn spec_num_members(&self) -> u16;

    /// Executable member count.
    fn num_members(&self) -> (r: u16)
        ensures
            r == self.spec_num_members(),
    ;
}

/// A structured value, prefixed by its two-byte member count; `None` is the
/// "no value" encoding.
#[derive(PartialEq, Debug, Clone)]
pub struct Structure<T>(pub Option<T>);

impl<T: StructureCompatibleType> ZclCompatibleType for Structure<T> {
    open spec fn spec_len(&self) -> nat {
        match self.0 {
            Some(x) => (x.spec_num_members() + 2) as nat,
            None => 2,
        }
    }

    fn len(&self) -> (r: usize)
        ensures
            r as nat == self.spec_len(),
    {
        match &self.0 {
            Some(x) => x.num_members() as usize + 2,
            None => 2,
        }
    }
}

impl<T: StructureCompatibleType> ZclType for Structure<T> {
    type T = Option<T>;

    open spec fn spec_non_value() -> Option<Option<T>> {
        Some(None)
    }

    open spec fn spec_id() -> u8 {
        0x4c
    }

    fn non_value() -> (r: Option<Option<T>>)
        ensures
            r == Self::spec_non_value(),
    {
        Some(None)
    }

    fn id() -> (r: u8)
        ensures
            r == Self::spec_id(),
    {
        0x4c
    }
}

/// A time of day in hours, minutes, seconds and hundredths; the all-0xff
/// value is the "no value" encoding.
#[derive(PartialEq, Eq, Structural, Debug, Copy, Clone)]
pub struct TimeOfDay {
    pub hours: u8,
    pub minutes: u8,
    pub seconds: u8,
    pub hundredths: u8,
}

impl TimeOfDay {
    /// The reserved "invalid" encoding: every field 0xff.
    pub fn invalid() -> (r: TimeOfDay)
        ensures
            r == TimeOfDay::spec_invalid(),
    {
        TimeOfDay { hours: 0xff, minutes: 0xff, seconds: 0xff, hundredths: 0xff }
    }

    /// The reserved "invalid" encoding, as a mathematical value.
    pub open spec fn spec_invalid() -> TimeOfDay {
        TimeOfDay { hours: 0xff, minutes: 0xff, seconds: 0xff, hundredths: 0xff }
    }
}

impl ZclCompatibleType for TimeOfDay {
    open spec fn spec_len(&self) -> nat {
        4
    }

    fn len(&self) -> (r: usize)
        ensures
            r as nat == self.spec_len(),
    {
        0x4
    }
}

impl ZclType for TimeOfDay {
    type T = TimeOfDay;

    open spec fn spec_non_value() -> Option<TimeOfDay> {
        Some(TimeOfDay::spec_invalid())
    }

    open spec fn spec_id() -> u8 {
        0xe0
    }

    fn non_value() -> (r: Option<TimeOfDay>)
        ensures
            r == Self::spec_non_value(),
    {
        Some(TimeOfDay::invalid())
    }

    fn id() -> (r: u8)
        ensures
            r == Self::spec_id(),
    {
        0xe0
    }
}

/// A calendar date; the all-0xff value is the "no value" encoding.
#[derive(PartialEq, Eq, Structural, Debug, Copy, Clone)]
pub struct Date {
    /// Year, counted from 1900.
    pub year: u8,
    /// Month, 1 to 12.
    pub month: u8,
    /// Day of the month, 1 to 31.
    pub day_of_month: u8,
    /// Day of the week, 1 to 7.
    pub day_of_week: u8,
}

impl Date {
    /// The reserved "invalid" encoding: every field 0xff.
    pub fn invalid() -> (r: Date)
        ensures
            r == Date::spec_invalid(),
    {
        Date { year: 0xff, month: 0xff, day_of_month: 0xff, day_of_week: 0xff }
    }

    /// The reserved "invalid" encoding, as a mathematical value.
    pub open spec fn spec_invalid() -> Date {
        Date { year: 0xff, month: 0xff, day_of_month: 0xff, day_of_week: 0xff }
    }
}

impl ZclCompatibleType for Date {
    open spec fn spec_len(&self) -> nat {
        4
    }

    fn len(&self) -> (r: usize)
        ensures
            r as nat == self.spec_len(),
    {
        0x4
    }
}

impl ZclType for Date {
    type T = Date;

    open spec fn spec_non_value() -> Option<Date> {
        Some(Date::spec_invalid())
    }

    open spec fn spec_id() -> u8 {
        0xe1
    }

    fn non_value() -> (r: Option<Date>)
        ensures
            r == Self::spec_non_value(),
    {
        Some(Date::invalid())
    }

    fn id() -> (r: u8)
        ensures
            r == Self::spec_id(),
    {
        0xe1
    }
}

} // verus!
