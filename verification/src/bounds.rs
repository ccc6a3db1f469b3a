//! The bound resolver: turns the range tokens of an attribute declaration
//! into a typed `AttributeRange`, resolving named bounds against the sibling
//! attributes of the same cluster.
use crate::attribute::AttributeRange;
use crate::bytes::bytes_eq;
use crate::bytes::find_byte;
use crate::bytes::lemma_find_byte;
use crate::bytes::spec_find_byte;
use crate::literal::parse_literal;
use crate::literal::parse_uint;
use crate::literal::spec_literal_value;
use crate::literal::spec_typed_int_value;
use crate::literal::typed_int;
use crate::literal::ParsedLiteral;
use crate::wiretype::DomainView;
use crate::wiretype::WireType;
use crate::wiretype::WireTypeView;
use crate::CompileError;
use vstd::prelude::*;

verus! {

/// The header of a sibling attribute, for resolving named bounds: its code
/// and its name.
#[derive(PartialEq, Debug, Clone)]
pub struct AttrHeader {
    /// The attribute's code.
    pub code: u16,
    /// The attribute's name.
    pub name: Vec<u8>,
}

/// The mathematical image of an `AttrHeader`.
pub ghost struct AttrHeaderView {
    pub code: u16,
    pub name: Seq<u8>,
}

impl View for AttrHeader {
    type V = AttrHeaderView;

    open spec fn view(&self) -> AttrHeaderView {
        AttrHeaderView { code: self.code, name: self.name@ }
    }
}

/// The first index whose header carries the given name, if any.
pub open spec fn spec_find_attr(hs: Seq<AttrHeaderView>, name: Seq<u8>) -> Option<int>
    decreases hs.len(),
{
    if hs.len() == 0 {
        None
    } else if hs[0].name == name {
        Some(0)
    } else {
        match spec_find_attr(hs.skip(1), name) {
            Some(i) => Some(i + 1),
            None => None,
        }
    }
}

/// What `spec_find_attr` finds: the first header carrying the name, or
/// nothing when no header carries it.
pub proof fn lemma_find_attr(hs: Seq<AttrHeaderView>, name: Seq<u8>)
    ensures
        match spec_find_attr(hs, name) {
            Some(i) => 0 <= i < hs.len() && hs[i].name == name && (forall|j: int|
                0 <= j < i ==> hs[j].name != name),
            None => forall|j: int| 0 <= j < hs.len() ==> hs[j].name != name,
        },
    decreases hs.len(),
{
    if hs.len() > 0 && hs[0].name != name {
        lemma_find_attr(hs.skip(1), name);
        match spec_find_attr(hs.skip(1), name) {
            Some(i) => {
                assert(hs.skip(1)[i] == hs[i + 1]);
                assert forall|j: int| 0 <= j < i + 1 implies hs[j].name != name by {
                    if j > 0 {
                        assert(hs.skip(1)[j - 1] == hs[j]);
                    }
                }
            },
            None => {
                assert forall|j: int| 0 <= j < hs.len() implies hs[j].name != name by {
                    if j > 0 {
                        assert(hs.skip(1)[j - 1] == hs[j]);
                    }
                }
            },
        }
    }
}

/// Finds the first sibling attribute with the given name.
pub fn find_attr(hs: &Vec<AttrHeader>, name: &Vec<u8>) -> (r: Option<usize>)
    ensures
        ({
            let hsv = hs@.map_values(|h: AttrHeader| h@);
            match r {
                Some(i) => spec_find_attr(hsv, name@) == Some(i as int),
                None => spec_find_attr(hsv, name@) is None,
            }
        }),
{
    let ghost hsv = hs@.map_values(|h: AttrHeader| h@);
    let mut i: usize = 0;
    while i < hs.len()
        invariant
            0 <= i <= hs@.len(),
            hsv == hs@.map_values(|h: AttrHeader| h@),
            forall|j: int| 0 <= j < i ==> hsv[j].name != name@,
        decreases hs@.len() - i,
    {
        proof {
            assert(hsv[i as int] == hs@[i as int]@);
        }
        if bytes_eq(&hs[i].name, name) {
            proof {
                assert(hsv[i as int].name == name@);
                lemma_find_attr(hsv, name@);
                match spec_find_attr(hsv, name@) {
                    Some(k) => {
                        if k < i as int {
                            assert(hsv[k].name != name@);
                        }
                        if k > i as int {
                            assert(hsv[i as int].name != name@);
                        }
                    },
                    None => {
                        assert(false);
                    },
                }
            }
            return Some(i);
        }
        i = i + 1;
    }
    proof {
        lemma_find_attr(hsv, name@);
    }
    None
}

/// The shorthand token `-`.
pub open spec fn spec_kw_dash() -> Seq<u8> {
    seq!['-' as u8]
}

/// The shorthand token `value`.
pub open spec fn spec_kw_value() -> Seq<u8> {
    seq!['v' as u8, 'a' as u8, 'l' as u8, 'u' as u8, 'e' as u8]
}

/// The shorthand token `full`.
pub open spec fn spec_kw_full() -> Seq<u8> {
    seq!['f' as u8, 'u' as u8, 'l' as u8, 'l' as u8]
}

/// The shorthand token `full-non`.
pub open spec fn spec_kw_full_non() -> Seq<u8> {
    seq![
        'f' as u8,
        'u' as u8,
        'l' as u8,
        'l' as u8,
        '-' as u8,
        'n' as u8,
        'o' as u8,
        'n' as u8,
    ]
}

/// Whether the domain is an integer family, and with what sign: fixed-width
/// unsigned quantities (unsigned integers, bit maps, timestamps and
/// identifiers) or signed integers.
pub open spec fn spec_int_domain(d: DomainView) -> Option<bool> {
    match d {
        DomainView::Unsigned => Some(false),
        DomainView::Bitmap => Some(false),
        DomainView::UtcTime => Some(false),
        DomainView::ClusterId => Some(false),
        DomainView::AttributeId => Some(false),
        DomainView::BacnetOid => Some(false),
        DomainView::IeeeAddress => Some(false),
        DomainView::Signed => Some(true),
        _ => None,
    }
}

/// Whether the domain is a length-prefixed string kind.
pub open spec fn spec_string_domain(d: DomainView) -> bool {
    d is Octets || d is Chars
}

/// The min and max tokens of a range: separate tokens where two stand, or
/// the halves of a single token split at its first comma.
pub open spec fn spec_min_max(tokens: Seq<Seq<u8>>) -> Option<(Seq<u8>, Seq<u8>)> {
    if tokens.len() == 2 {
        Some((tokens[0], tokens[1]))
    } else if tokens.len() == 1 {
        match spec_find_byte(tokens[0], ',' as u8) {
            Some(i) => Some((tokens[0].take(i), tokens[0].skip(i + 1))),
            None => None,
        }
    } else {
        None
    }
}

/// The resolution of an attribute's range tokens, as a mathematical value.
/// In priority order: an absent range or the `-` placeholder is `Ignore`
/// and the shorthands `value`, `full` and `full-non` name their range
/// policies directly; an enumeration is range-less (`Ignore`); a string
/// kind takes a single integer literal as a byte-size cap; anything else is
/// a `min,max` pair — two integer literals make an immediate inclusive
/// range typed by the wire type's integer domain, and any other pair is
/// looked up among the sibling attributes by name, which must both resolve.
pub open spec fn spec_resolve_range(
    line: usize,
    wt: WireTypeView,
    tokens: Seq<Seq<u8>>,
    ctx: Option<Seq<AttrHeaderView>>,
) -> Result<AttributeRange, CompileError> {
    if tokens.len() == 0 {
        Ok(AttributeRange::Ignore)
    } else if tokens.len() == 1 && tokens[0] == spec_kw_dash() {
        Ok(AttributeRange::Ignore)
    } else if tokens.len() == 1 && tokens[0] == spec_kw_value() {
        Ok(AttributeRange::Value)
    } else if tokens.len() == 1 && tokens[0] == spec_kw_full() {
        Ok(AttributeRange::Full)
    } else if tokens.len() == 1 && tokens[0] == spec_kw_full_non() {
        Ok(AttributeRange::FullWithNone)
    } else if wt.domain is Enumeration {
        Ok(AttributeRange::Ignore)
    } else if spec_string_domain(wt.domain) {
        if tokens.len() == 1 {
            match spec_literal_value(tokens[0]) {
                Some(n) => if n <= usize::MAX {
                    Ok(AttributeRange::Size(n as usize))
                } else {
                    Err(CompileError::InvalidLiteral { line })
                },
                None => Err(CompileError::InvalidLiteral { line }),
            }
        } else {
            Err(CompileError::InvalidLiteral { line })
        }
    } else {
        match spec_min_max(tokens) {
            None => Err(CompileError::InvalidLiteral { line }),
            Some((mintok, maxtok)) => {
                if spec_literal_value(mintok) is Some && spec_literal_value(maxtok) is Some {
                    let a = spec_literal_value(mintok).unwrap();
                    let b = spec_literal_value(maxtok).unwrap();
                    match spec_int_domain(wt.domain) {
                        None => Err(CompileError::InvalidLiteral { line }),
                        Some(signed) => {
                            if 1 <= wt.width <= 8 && a <= u64::MAX && b <= u64::MAX
                                && spec_typed_int_value(
                                a,
                                signed,
                                wt.width as nat,
                            ) is Some && spec_typed_int_value(b, signed, wt.width as nat) is Some {
                                Ok(
                                    AttributeRange::InclusiveRange(
                                        spec_typed_int_value(a, signed, wt.width as nat).unwrap(),
                                        spec_typed_int_value(b, signed, wt.width as nat).unwrap(),
                                    ),
                                )
                            } else {
                                Err(CompileError::InvalidLiteral { line })
                            }
                        },
                    }
                } else {
                    match ctx {
                        None => Err(CompileError::UnresolvedBoundReference { line }),
                        Some(hs) => {
                            if spec_find_attr(hs, mintok) is Some && spec_find_attr(
                                hs,
                                maxtok,
                            ) is Some {
                                Ok(
                                    AttributeRange::InclusiveRangeReference(
                                        hs[spec_find_attr(hs, mintok).unwrap()].code,
                                        hs[spec_find_attr(hs, maxtok).unwrap()].code,
                                    ),
                                )
                            } else {
                                Err(CompileError::UnresolvedBoundReference { line })
                            }
                        },
                    }
                }
            },
        }
    }
}

/// The shorthand token `-`.
fn kw_dash() -> (r: Vec<u8>)
    ensures
        r@ == spec_kw_dash(),
{
    let r: Vec<u8> = vec!['-' as u8];
    proof {
        assert(r@ =~= spec_kw_dash());
    }
    r
}

/// The shorthand token `value`.
fn kw_value() -> (r: Vec<u8>)
    ensures
        r@ == spec_kw_value(),
{
    let r: Vec<u8> = vec!['v' as u8, 'a' as u8, 'l' as u8, 'u' as u8, 'e' as u8];
    proof {
        assert(r@ =~= spec_kw_value());
    }
    r
}

/// The shorthand token `full`.
fn kw_full() -> (r: Vec<u8>)
    ensures
        r@ == spec_kw_full(),
{
    let r: Vec<u8> = vec!['f' as u8, 'u' as u8, 'l' as u8, 'l' as u8];
    proof {
        assert(r@ =~= spec_kw_full());
    }
    r
}

/// The shorthand token `full-non`.
fn kw_full_non() -> (r: Vec<u8>)
    ensures
        r@ == spec_kw_full_non(),
{
    let r: Vec<u8> = vec![
        'f' as u8,
        'u' as u8,
        'l' as u8,
        'l' as u8,
        '-' as u8,
        'n' as u8,
        'o' as u8,
        'n' as u8,
    ];
    proof {
        assert(r@ =~= spec_kw_full_non());
    }
    r
}

/// Splits the range tokens into min and max tokens.
fn min_max(tokens: &Vec<Vec<u8>>) -> (r: Option<(Vec<u8>, Vec<u8>)>)
    ensures
        match r {
            Some(p) => spec_min_max(tokens.deep_view()) == Some((p.0@, p.1@)),
            None => spec_min_max(tokens.deep_view()) is None,
        },
{
    if tokens.len() == 2 {
        proof {
            assert(tokens.deep_view()[0] == tokens@[0]@);
            assert(tokens.deep_view()[1] == tokens@[1]@);
        }
        Some((tokens[0].clone(), tokens[1].clone()))
    } else if tokens.len() == 1 {
        proof {
            assert(tokens.deep_view()[0] == tokens@[0]@);
        }
        let t = &tokens[0];
        match find_byte(t, ',' as u8) {
            Some(i) => {
                proof {
                    lemma_find_byte(t@, ',' as u8);
                    assert(i < t@.len());
                }
                let tlen = t.len();
                let lo = vstd::slice::slice_to_vec(vstd::slice::slice_subrange(t.as_slice(), 0, i));
                let hi = vstd::slice::slice_to_vec(
                    vstd::slice::slice_subrange(t.as_slice(), i + 1, tlen),
                );
                proof {
                    assert(lo@ =~= t@.take(i as int));
                    assert(hi@ =~= t@.skip(i + 1));
                }
                Some((lo, hi))
            },
            None => None,
        }
    } else {
        None
    }
}

/// Resolves an attribute's range tokens against its wire type and, where
/// one exists, the sibling attributes of its cluster. A named bound that
/// does not resolve, a malformed pair, or a literal that does not fit the
/// wire type's integer domain is a fatal error pointing at the declaration's
/// line.
pub fn resolve_range(
    line: usize,
    wt: &WireType,
    tokens: &Vec<Vec<u8>>,
    ctx: Option<&Vec<AttrHeader>>,
) -> (r: Result<AttributeRange, CompileError>)
    ensures
        ({
            let ctxv = match ctx {
                Some(hs) => Some(hs@.map_values(|h: AttrHeader| h@)),
                None => None,
            };
            r == spec_resolve_range(line, wt@, tokens.deep_view(), ctxv)
        }),
{
    let ghost ctxv = match ctx {
        Some(hs) => Some(hs@.map_values(|h: AttrHeader| h@)),
        None => None,
    };
    if tokens.len() == 0 {
        return Ok(AttributeRange::Ignore);
    }
    if tokens.len() == 1 {
        proof {
            assert(tokens.deep_view()[0] == tokens@[0]@);
        }
        let t = &tokens[0];
        if bytes_eq(t, &kw_dash()) {
            return Ok(AttributeRange::Ignore);
        }
        if bytes_eq(t, &kw_value()) {
            return Ok(AttributeRange::Value);
        }
        if bytes_eq(t, &kw_full()) {
            return Ok(AttributeRange::Full);
        }
        if bytes_eq(t, &kw_full_non()) {
            return Ok(AttributeRange::FullWithNone);
        }
    }
    let is_enum = match &wt.domain {
        crate::wiretype::Domain::Enumeration { .. } => true,
        _ => false,
    };
    if is_enum {
        return Ok(AttributeRange::Ignore);
    }
    let is_string = match &wt.domain {
        crate::wiretype::Domain::Octets => true,
        crate::wiretype::Domain::Chars => true,
        _ => false,
    };
    if is_string {
        if tokens.len() == 1 {
            proof {
                assert(tokens.deep_view()[0] == tokens@[0]@);
            }
            match parse_uint(&tokens[0]) {
                Some(n) => {
                    if n <= usize::MAX as u64 {
                        return Ok(AttributeRange::Size(n as usize));
                    } else {
                        return Err(CompileError::InvalidLiteral { line });
                    }
                },
                None => {
                    return Err(CompileError::InvalidLiteral { line });
                },
            }
        } else {
            return Err(CompileError::InvalidLiteral { line });
        }
    }
    let signed = match &wt.domain {
        crate::wiretype::Domain::Unsigned => Some(false),
        crate::wiretype::Domain::Bitmap => Some(false),
        crate::wiretype::Domain::UtcTime => Some(false),
        crate::wiretype::Domain::ClusterId => Some(false),
        crate::wiretype::Domain::AttributeId => Some(false),
        crate::wiretype::Domain::BacnetOid => Some(false),
        crate::wiretype::Domain::IeeeAddress => Some(false),
        crate::wiretype::Domain::Signed => Some(true),
        _ => None,
    };
    match min_max(tokens) {
        None => Err(CompileError::InvalidLiteral { line }),
        Some((mintok, maxtok)) => {
            let lo = parse_literal(&mintok);
            let hi = parse_literal(&maxtok);
            match (lo, hi) {
                (ParsedLiteral::Value(a), ParsedLiteral::Value(b)) => {
                    match signed {
                        None => Err(CompileError::InvalidLiteral { line }),
                        Some(s) => {
                            if wt.width < 1 || wt.width > 8 {
                                Err(CompileError::InvalidLiteral { line })
                            } else {
                                match (typed_int(a, s, wt.width), typed_int(b, s, wt.width)) {
                                    (Some(x), Some(y)) => Ok(AttributeRange::InclusiveRange(x, y)),
                                    _ => Err(CompileError::InvalidLiteral { line }),
                                }
                            }
                        },
                    }
                },
                (ParsedLiteral::Overflow, ParsedLiteral::Value(_))
                | (ParsedLiteral::Value(_), ParsedLiteral::Overflow)
                | (ParsedLiteral::Overflow, ParsedLiteral::Overflow) => {
                    // Both sides are literals, but one does not fit any
                    // integer domain.
                    Err(CompileError::InvalidLiteral { line })
                },
                _ => {
                    match ctx {
                        None => Err(CompileError::UnresolvedBoundReference { line }),
                        Some(hs) => {
                            let fi = find_attr(hs, &mintok);
                            let fj = find_attr(hs, &maxtok);
                            match (fi, fj) {
                                (Some(i), Some(j)) => {
                                    proof {
                                        lemma_find_attr(
                                            hs@.map_values(|h: AttrHeader| h@),
                                            mintok@,
                                        );
                                        lemma_find_attr(
                                            hs@.map_values(|h: AttrHeader| h@),
                                            maxtok@,
                                        );
                                        assert(hs@.map_values(|h: AttrHeader| h@)[i as int]
                                            == hs@[i as int]@);
                                        assert(hs@.map_values(|h: AttrHeader| h@)[j as int]
                                            == hs@[j as int]@);
                                    }
                                    Ok(
                                        AttributeRange::InclusiveRangeReference(
                                            hs[i].code,
                                            hs[j].code,
                                        ),
                                    )
                                },
                                _ => Err(CompileError::UnresolvedBoundReference { line }),
                            }
                        },
                    }
                },
            }
        },
    }
}

/// Law: a range pair in which either side is not an integer literal
/// resolves by name — to an inclusive-range reference carrying the codes of
/// the first sibling attributes bearing the two names exactly when both
/// names resolve, and to a fatal error when either name is missing or no
/// cluster context exists.
pub proof fn law_reference_resolution(
    line: usize,
    wt: WireTypeView,
    mintok: Seq<u8>,
    maxtok: Seq<u8>,
    ctx: Option<Seq<AttrHeaderView>>,
)
    requires
        !(wt.domain is Enumeration),
        !spec_string_domain(wt.domain),
        spec_literal_value(mintok) is None || spec_literal_value(maxtok) is None,
    ensures
        ({
            let r = spec_resolve_range(line, wt, seq![mintok, maxtok], ctx);
            match ctx {
                None => r == Err::<AttributeRange, CompileError>(
                    CompileError::UnresolvedBoundReference { line },
                ),
                Some(hs) => {
                    if spec_find_attr(hs, mintok) is Some && spec_find_attr(hs, maxtok) is Some {
                        r == Ok::<AttributeRange, CompileError>(
                            AttributeRange::InclusiveRangeReference(
                                hs[spec_find_attr(hs, mintok).unwrap()].code,
                                hs[spec_find_attr(hs, maxtok).unwrap()].code,
                            ),
                        )
                    } else {
                        r == Err::<AttributeRange, CompileError>(
                            CompileError::UnresolvedBoundReference { line },
                        )
                    }
                },
            }
        }),
{
    let tokens = seq![mintok, maxtok];
    assert(tokens.len() == 2);
    assert(spec_min_max(tokens) == Some((mintok, maxtok)));
}

/// Law: for a string or byte-string wire type, a single range token that is
/// not a shorthand must be an integer literal, read as a byte-size cap;
/// any other token fails compilation.
pub proof fn law_string_size(
    line: usize,
    wt: WireTypeView,
    tok: Seq<u8>,
    ctx: Option<Seq<AttrHeaderView>>,
)
    requires
        spec_string_domain(wt.domain),
        tok != spec_kw_dash(),
        tok != spec_kw_value(),
        tok != spec_kw_full(),
        tok != spec_kw_full_non(),
    ensures
        ({
            let r = spec_resolve_range(line, wt, seq![tok], ctx);
            match spec_literal_value(tok) {
                Some(n) => if n <= usize::MAX {
                    r == Ok::<AttributeRange, CompileError>(AttributeRange::Size(n as usize))
                } else {
                    r == Err::<AttributeRange, CompileError>(CompileError::InvalidLiteral { line })
                },
                None => r == Err::<AttributeRange, CompileError>(
                    CompileError::InvalidLiteral { line },
                ),
            }
        }),
{
    let tokens = seq![tok];
    assert(tokens.len() == 1);
    assert(tokens[0] == tok);
}

} // verus!
