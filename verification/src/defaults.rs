//! The default resolver: turns the default token of an attribute
//! declaration into a validated typed value consistent with the attribute's
//! wire type, the `non` keyword standing for the wire type's reserved
//! "no value" encoding.
use crate::attribute::TypedValue;
use crate::attribute::TypedValueView;
use crate::bytes::bytes_eq;
use crate::enums::spec_find_value;
use crate::enums::CompiledEnum;
use crate::enums::CompiledEnumView;
use crate::literal::parse_uint;
use crate::literal::spec_literal_value;
use crate::literal::spec_typed_int_value;
use crate::literal::typed_int;
use crate::literal::IntValue;
use crate::types::Date;
use crate::types::TimeOfDay;
use crate::wiretype::Domain;
use crate::wiretype::DomainView;
use crate::wiretype::WireType;
use crate::wiretype::WireTypeView;
use crate::CompileError;
use vstd::prelude::*;

verus! {

/// The default token `-`: no default.
pub open spec fn spec_kw_no_default() -> Seq<u8> {
    seq!['-' as u8]
}

/// The default token `non`: the wire type's "no value" encoding.
pub open spec fn spec_kw_non() -> Seq<u8> {
    seq!['n' as u8, 'o' as u8, 'n' as u8]
}

/// The token `true`.
pub open spec fn spec_kw_true() -> Seq<u8> {
    seq!['t' as u8, 'r' as u8, 'u' as u8, 'e' as u8]
}

/// The token `false`.
pub open spec fn spec_kw_false() -> Seq<u8> {
    seq!['f' as u8, 'a' as u8, 'l' as u8, 's' as u8, 'e' as u8]
}

/// The largest value of an unsigned integer family of the given byte width:
/// the family's reserved "no value" encoding.
pub open spec fn spec_unsigned_max(width: nat) -> u64 {
    (crate::literal::unsigned_bound(width) - 1) as u64
}

/// The least value of a signed integer family of the given byte width: the
/// family's reserved "no value" encoding.
pub open spec fn spec_signed_min(width: nat) -> i64 {
    (-crate::literal::signed_half_bound(width)) as i64
}

/// The reserved "no value" encoding of a wire type, as a typed value, or
/// `None` where the type defines no sentinel. Unsigned integer families
/// reserve their largest encoding, signed ones their least; booleans,
/// strings and structured time types have a designated "invalid" encoding;
/// floating-point types reserve a quiet not-a-number encoding, carried as
/// raw bits; enumerations reserve the representation's maximum value. Raw
/// data, bit maps, security keys and unknown types have none.
pub open spec fn spec_non_value_of(wt: WireTypeView) -> Option<TypedValueView> {
    match wt.domain {
        DomainView::Boolean => Some(TypedValueView::Boolean(None)),
        DomainView::Unsigned => Some(
            TypedValueView::Int(IntValue::Unsigned(spec_unsigned_max(wt.width as nat))),
        ),
        DomainView::Signed => Some(
            TypedValueView::Int(IntValue::Signed(spec_signed_min(wt.width as nat))),
        ),
        DomainView::Float => if wt.width == 4 {
            Some(TypedValueView::FloatBits(0x7fc0_0000))
        } else {
            Some(TypedValueView::FloatBits(0x7ff8_0000_0000_0000))
        },
        DomainView::Octets => Some(TypedValueView::Octets(None)),
        DomainView::Chars => Some(TypedValueView::Chars(None)),
        DomainView::Enumeration { wide, name } => Some(
            TypedValueView::Enumerant(crate::enums::spec_sentinel(wide)),
        ),
        DomainView::TimeOfDay => Some(TypedValueView::Time(TimeOfDay::spec_invalid())),
        DomainView::Date => Some(TypedValueView::Day(Date::spec_invalid())),
        DomainView::UtcTime => Some(
            TypedValueView::Int(IntValue::Unsigned(spec_unsigned_max(wt.width as nat))),
        ),
        DomainView::ClusterId => Some(
            TypedValueView::Int(IntValue::Unsigned(spec_unsigned_max(wt.width as nat))),
        ),
        DomainView::AttributeId => Some(
            TypedValueView::Int(IntValue::Unsigned(spec_unsigned_max(wt.width as nat))),
        ),
        DomainView::BacnetOid => Some(
            TypedValueView::Int(IntValue::Unsigned(spec_unsigned_max(wt.width as nat))),
        ),
        DomainView::IeeeAddress => Some(
            TypedValueView::Int(IntValue::Unsigned(spec_unsigned_max(wt.width as nat))),
        ),
        _ => None,
    }
}

/// The reserved "no value" encoding of a wire type, as a typed value.
pub fn non_value_of(wt: &WireType) -> (r: Option<TypedValue>)
    ensures
        match r {
            Some(v) => spec_non_value_of(wt@) == Some(v@),
            None => spec_non_value_of(wt@) is None,
        },
{
    let unsigned_max: u64 = match wt.width {
        1 => 0xff,
        2 => 0xffff,
        3 => 0xff_ffff,
        4 => 0xffff_ffff,
        5 => 0xff_ffff_ffff,
        6 => 0xffff_ffff_ffff,
        7 => 0xff_ffff_ffff_ffff,
        _ => 0xffff_ffff_ffff_ffff,
    };
    let signed_floor: i64 = match wt.width {
        1 => -0x80,
        2 => -0x8000,
        3 => -0x80_0000,
        4 => -0x8000_0000,
        5 => -0x80_0000_0000,
        6 => -0x8000_0000_0000,
        7 => -0x80_0000_0000_0000,
        _ => i64::MIN,
    };
    match &wt.domain {
        Domain::Boolean => Some(TypedValue::Boolean(None)),
        Domain::Unsigned => Some(TypedValue::Int(IntValue::Unsigned(unsigned_max))),
        Domain::Signed => Some(TypedValue::Int(IntValue::Signed(signed_floor))),
        Domain::Float => if wt.width == 4 {
            Some(TypedValue::FloatBits(0x7fc0_0000))
        } else {
            Some(TypedValue::FloatBits(0x7ff8_0000_0000_0000))
        },
        Domain::Octets => Some(TypedValue::Octets(None)),
        Domain::Chars => Some(TypedValue::Chars(None)),
        Domain::Enumeration { wide, .. } => Some(
            TypedValue::Enumerant(
                if *wide {
                    0xffff
                } else {
                    0xff
                },
            ),
        ),
        Domain::TimeOfDay => Some(TypedValue::Time(TimeOfDay::invalid())),
        Domain::Date => Some(TypedValue::Day(Date::invalid())),
        Domain::UtcTime => Some(TypedValue::Int(IntValue::Unsigned(unsigned_max))),
        Domain::ClusterId => Some(TypedValue::Int(IntValue::Unsigned(unsigned_max))),
        Domain::AttributeId => Some(TypedValue::Int(IntValue::Unsigned(unsigned_max))),
        Domain::BacnetOid => Some(TypedValue::Int(IntValue::Unsigned(unsigned_max))),
        Domain::IeeeAddress => Some(TypedValue::Int(IntValue::Unsigned(unsigned_max))),
        _ => None,
    }
}

/// The content of a string default token: surrounding double quotes, where
/// both stand, are stripped.
pub open spec fn spec_unquote(t: Seq<u8>) -> Seq<u8> {
    if t.len() >= 2 && t[0] == '"' as u8 && t[t.len() - 1] == '"' as u8 {
        t.subrange(1, t.len() - 1)
    } else {
        t
    }
}

/// Strips surrounding double quotes from a string default token.
fn unquote(t: &Vec<u8>) -> (r: Vec<u8>)
    ensures
        r@ == spec_unquote(t@),
{
    if t.len() >= 2 && t[0] == '"' as u8 && t[t.len() - 1] == '"' as u8 {
        vstd::slice::slice_to_vec(vstd::slice::slice_subrange(t.as_slice(), 1, t.len() - 1))
    } else {
        t.clone()
    }
}

/// The first index whose enumeration carries the given name, if any.
pub open spec fn spec_find_enum(es: Seq<CompiledEnumView>, name: Seq<u8>) -> Option<int>
    decreases es.len(),
{
    if es.len() == 0 {
        None
    } else if es[0].name == name {
        Some(0)
    } else {
        match spec_find_enum(es.skip(1), name) {
            Some(i) => Some(i + 1),
            None => None,
        }
    }
}

/// What `spec_find_enum` finds: the first enumeration carrying the name, or
/// nothing when none carries it.
pub proof fn lemma_find_enum(es: Seq<CompiledEnumView>, name: Seq<u8>)
    ensures
        match spec_find_enum(es, name) {
            Some(i) => 0 <= i < es.len() && es[i].name == name && (forall|j: int|
                0 <= j < i ==> es[j].name != name),
            None => forall|j: int| 0 <= j < es.len() ==> es[j].name != name,
        },
    decreases es.len(),
{
    if es.len() > 0 && es[0].name != name {
        lemma_find_enum(es.skip(1), name);
        match spec_find_enum(es.skip(1), name) {
            Some(i) => {
                assert(es.skip(1)[i] == es[i + 1]);
                assert forall|j: int| 0 <= j < i + 1 implies es[j].name != name by {
                    if j > 0 {
                        assert(es.skip(1)[j - 1] == es[j]);
                    }
                }
            },
            None => {
                assert forall|j: int| 0 <= j < es.len() implies es[j].name != name by {
                    if j > 0 {
                        assert(es.skip(1)[j - 1] == es[j]);
                    }
                }
            },
        }
    }
}

/// Finds the first enumeration with the given name.
pub fn find_enum<'a>(es: &'a Vec<CompiledEnum>, name: &Vec<u8>) -> (r: Option<&'a CompiledEnum>)
    ensures
        ({
            let esv = es@.map_values(|e: CompiledEnum| e@);
            match r {
                Some(e) => spec_find_enum(esv, name@) matches Some(i) && esv[i] == e@,
                None => spec_find_enum(esv, name@) is None,
            }
        }),
{
    let ghost esv = es@.map_values(|e: CompiledEnum| e@);
    let mut i: usize = 0;
    while i < es.len()
        invariant
            0 <= i <= es@.len(),
            esv == es@.map_values(|e: CompiledEnum| e@),
            forall|j: int| 0 <= j < i ==> esv[j].name != name@,
        decreases es@.len() - i,
    {
        proof {
            assert(esv[i as int] == es@[i as int]@);
        }
        if bytes_eq(&es[i].name, name) {
            proof {
                assert(esv[i as int].name == name@);
                lemma_find_enum(esv, name@);
                match spec_find_enum(esv, name@) {
                    Some(k) => {
                        if k < i as int {
                            assert(esv[k].name != name@);
                        }
                        if k > i as int {
                            assert(esv[i as int].name != name@);
                        }
                    },
                    None => {
                        assert(false);
                    },
                }
            }
            return Some(&es[i]);
        }
        i = i + 1;
    }
    proof {
        lemma_find_enum(esv, name@);
    }
    None
}

/// The enumeration a name resolves to: the cluster's own enumerations are
/// searched first, then the global ones.
pub open spec fn spec_lookup_enum(
    local: Seq<CompiledEnumView>,
    global: Seq<CompiledEnumView>,
    name: Seq<u8>,
) -> Option<CompiledEnumView> {
    match spec_find_enum(local, name) {
        Some(i) => Some(local[i]),
        None => match spec_find_enum(global, name) {
            Some(i) => Some(global[i]),
            None => None,
        },
    }
}

/// The resolution of a default token against a wire type, as a mathematical
/// value: `-` means no default; `non` means the wire type's reserved
/// "no value" encoding, which the type must have; any other token is a
/// literal of the wire type's domain — an integer for the integer families,
/// `true`/`false` for booleans, the token's text (quotes stripped) for the
/// string kinds, and for an enumeration an integer that must decode through
/// the named enumeration's compiled variants.
pub open spec fn spec_resolve_default(
    line: usize,
    wt: WireTypeView,
    local: Seq<CompiledEnumView>,
    global: Seq<CompiledEnumView>,
    token: Seq<u8>,
) -> Result<Option<TypedValueView>, CompileError> {
    if token == spec_kw_no_default() {
        Ok(None)
    } else if token == spec_kw_non() {
        match spec_non_value_of(wt) {
            Some(v) => Ok(Some(v)),
            None => Err(CompileError::MissingSentinel { line }),
        }
    } else {
        match wt.domain {
            DomainView::Boolean => if token == spec_kw_true() {
                Ok(Some(TypedValueView::Boolean(Some(true))))
            } else if token == spec_kw_false() {
                Ok(Some(TypedValueView::Boolean(Some(false))))
            } else {
                Err(CompileError::InvalidLiteral { line })
            },
            DomainView::Octets => Ok(Some(TypedValueView::Octets(Some(spec_unquote(token))))),
            DomainView::Chars => Ok(Some(TypedValueView::Chars(Some(spec_unquote(token))))),
            DomainView::Enumeration { wide, name } => {
                match spec_literal_value(token) {
                    Some(n) => if n <= u64::MAX {
                        match spec_lookup_enum(local, global, name) {
                            Some(e) => if spec_find_value(e.variants, n as u64) is Some {
                                Ok(Some(TypedValueView::Enumerant(n as u64)))
                            } else {
                                Err(CompileError::InvalidLiteral { line })
                            },
                            None => Err(CompileError::InvalidLiteral { line }),
                        }
                    } else {
                        Err(CompileError::InvalidLiteral { line })
                    },
                    None => Err(CompileError::InvalidLiteral { line }),
                }
            },
            _ => {
                match crate::bounds::spec_int_domain(wt.domain) {
                    Some(signed) => {
                        match spec_literal_value(token) {
                            Some(n) => if 1 <= wt.width <= 8 && n <= u64::MAX
                                && spec_typed_int_value(n, signed, wt.width as nat) is Some {
                                Ok(
                                    Some(
                                        TypedValueView::Int(
                                            spec_typed_int_value(
                                                n,
                                                signed,
                                                wt.width as nat,
                                            ).unwrap(),
                                        ),
                                    ),
                                )
                            } else {
                                Err(CompileError::InvalidLiteral { line })
                            },
                            None => Err(CompileError::InvalidLiteral { line }),
                        }
                    },
                    None => Err(CompileError::InvalidLiteral { line }),
                }
            },
        }
    }
}

/// The default token `-`.
fn kw_no_default() -> (r: Vec<u8>)
    ensures
        r@ == spec_kw_no_default(),
{
    let r: Vec<u8> = vec!['-' as u8];
    proof {
        assert(r@ =~= spec_kw_no_default());
    }
    r
}

/// The default token `non`.
fn kw_non() -> (r: Vec<u8>)
    ensures
        r@ == spec_kw_non(),
{
    let r: Vec<u8> = vec!['n' as u8, 'o' as u8, 'n' as u8];
    proof {
        assert(r@ =~= spec_kw_non());
    }
    r
}

/// The token `true`.
fn kw_true() -> (r: Vec<u8>)
    ensures
        r@ == spec_kw_true(),
{
    let r: Vec<u8> = vec!['t' as u8, 'r' as u8, 'u' as u8, 'e' as u8];
    proof {
        assert(r@ =~= spec_kw_true());
    }
    r
}

/// The token `false`.
fn kw_false() -> (r: Vec<u8>)
    ensures
        r@ == spec_kw_false(),
{
    let r: Vec<u8> = vec!['f' as u8, 'a' as u8, 'l' as u8, 's' as u8, 'e' as u8];
    proof {
        assert(r@ =~= spec_kw_false());
    }
    r
}

/// Resolves a default token against the attribute's wire type and the
/// enumerations in scope. A missing sentinel for `non`, or a literal that
/// does not fit the wire type's domain, is a fatal error pointing at the
/// declaration's line.
pub fn resolve_default(
    line: usize,
    wt: &WireType,
    local: &Vec<CompiledEnum>,
    global: &Vec<CompiledEnum>,
    token: &Vec<u8>,
) -> (r: Result<Option<TypedValue>, CompileError>)
    ensures
        ({
            let localv = local@.map_values(|e: CompiledEnum| e@);
            let globalv = global@.map_values(|e: CompiledEnum| e@);
            match r {
                Ok(Some(v)) => spec_resolve_default(line, wt@, localv, globalv, token@) == Ok::<
                    Option<TypedValueView>,
                    CompileError,
                >(Some(v@)),
                Ok(None) => spec_resolve_default(line, wt@, localv, globalv, token@) == Ok::<
                    Option<TypedValueView>,
                    CompileError,
                >(None),
                Err(e) => spec_resolve_default(line, wt@, localv, globalv, token@) == Err::<
                    Option<TypedValueView>,
                    CompileError,
                >(e),
            }
        }),
{
    if bytes_eq(token, &kw_no_default()) {
        return Ok(None);
    }
    if bytes_eq(token, &kw_non()) {
        return match non_value_of(wt) {
            Some(v) => Ok(Some(v)),
            None => Err(CompileError::MissingSentinel { line }),
        };
    }
    match &wt.domain {
        Domain::Boolean => {
            if bytes_eq(token, &kw_true()) {
                Ok(Some(TypedValue::Boolean(Some(true))))
            } else if bytes_eq(token, &kw_false()) {
                Ok(Some(TypedValue::Boolean(Some(false))))
            } else {
                Err(CompileError::InvalidLiteral { line })
            }
        },
        Domain::Octets => Ok(Some(TypedValue::Octets(Some(unquote(token))))),
        Domain::Chars => Ok(Some(TypedValue::Chars(Some(unquote(token))))),
        Domain::Enumeration { wide, name } => {
            match parse_uint(token) {
                Some(n) => {
                    match find_enum(local, name) {
                        Some(e) => {
                            match e.decode(n) {
                                Ok(_) => Ok(Some(TypedValue::Enumerant(n))),
                                Err(_) => Err(CompileError::InvalidLiteral { line }),
                            }
                        },
                        None => {
                            match find_enum(global, name) {
                                Some(e) => {
                                    match e.decode(n) {
                                        Ok(_) => Ok(Some(TypedValue::Enumerant(n))),
                                        Err(_) => Err(CompileError::InvalidLiteral { line }),
                                    }
                                },
                                None => Err(CompileError::InvalidLiteral { line }),
                            }
                        },
                    }
                },
                None => Err(CompileError::InvalidLiteral { line }),
            }
        },
        Domain::Unsigned
        | Domain::Bitmap
        | Domain::UtcTime
        | Domain::ClusterId
        | Domain::AttributeId
        | Domain::BacnetOid
        | Domain::IeeeAddress
        | Domain::Signed => {
            let signed = match &wt.domain {
                Domain::Signed => true,
                _ => false,
            };
            match parse_uint(token) {
                Some(n) => {
                    if wt.width < 1 || wt.width > 8 {
                        Err(CompileError::InvalidLiteral { line })
                    } else {
                        match typed_int(n, signed, wt.width) {
                            Some(x) => Ok(Some(TypedValue::Int(x))),
                            None => Err(CompileError::InvalidLiteral { line }),
                        }
                    }
                },
                None => Err(CompileError::InvalidLiteral { line }),
            }
        },
        _ => Err(CompileError::InvalidLiteral { line }),
    }
}

} // verus!
