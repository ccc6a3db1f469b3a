//! The enumeration compiler: a declared enumeration becomes a closed,
//! totally decodable one. Where no declared entry occupies the
//! representation's maximum value, a variant named `None` is synthesized
//! there, so every compiled enumeration has exactly one designated
//! "invalid/none" encoding.
use crate::decl::EnumDecl;
use crate::decl::EnumDeclView;
use crate::decl::RawVariantView;
use crate::literal::parse_uint;
use crate::literal::spec_literal_value;
use crate::CompileError;
use crate::ZclError;
use vstd::prelude::*;

verus! {

/// A compiled enumeration variant: a numeric value and its name.
#[derive(PartialEq, Debug, Clone)]
pub struct EnumVariant {
    /// The numeric value.
    pub value: u64,
    /// The variant's name.
    pub name: Vec<u8>,
}

/// The mathematical image of an `EnumVariant`.
pub ghost struct EnumVariantView {
    pub value: u64,
    pub name: Seq<u8>,
}

impl View for EnumVariant {
    type V = EnumVariantView;

    open spec fn view(&self) -> EnumVariantView {
        EnumVariantView { value: self.value, name: self.name@ }
    }
}

/// The reserved sentinel value of an enumeration representation: the
/// maximum value of the 8- or 16-bit width.
pub open spec fn spec_sentinel(wide: bool) -> u64 {
    if wide {
        0xffff
    } else {
        0xff
    }
}

/// The name given to a synthesized sentinel variant.
pub open spec fn spec_none_name() -> Seq<u8> {
    seq!['N' as u8, 'o' as u8, 'n' as u8, 'e' as u8]
}

/// The first index whose variant carries the given value, if any. Where
/// duplicate values are declared, the first declaration wins.
pub open spec fn spec_find_value(vs: Seq<EnumVariantView>, v: u64) -> Option<int>
    decreases vs.len(),
{
    if vs.len() == 0 {
        None
    } else if vs[0].value == v {
        Some(0)
    } else {
        match spec_find_value(vs.skip(1), v) {
            Some(i) => Some(i + 1),
            None => None,
        }
    }
}

/// What `spec_find_value` finds: the first index carrying the value, or
/// nothing when no variant carries it.
pub proof fn lemma_find_value(vs: Seq<EnumVariantView>, v: u64)
    ensures
        match spec_find_value(vs, v) {
            Some(i) => 0 <= i < vs.len() && vs[i].value == v && (forall|j: int|
                0 <= j < i ==> vs[j].value != v),
            None => forall|j: int| 0 <= j < vs.len() ==> vs[j].value != v,
        },
    decreases vs.len(),
{
    if vs.len() > 0 && vs[0].value != v {
        lemma_find_value(vs.skip(1), v);
        match spec_find_value(vs.skip(1), v) {
            Some(i) => {
                assert(vs.skip(1)[i] == vs[i + 1]);
                assert forall|j: int| 0 <= j < i + 1 implies vs[j].value != v by {
                    if j > 0 {
                        assert(vs.skip(1)[j - 1] == vs[j]);
                    }
                }
            },
            None => {
                assert forall|j: int| 0 <= j < vs.len() implies vs[j].value != v by {
                    if j > 0 {
                        assert(vs.skip(1)[j - 1] == vs[j]);
                    }
                }
            },
        }
    }
}

/// A failed prefix fails the whole entry compilation, with the same error.
proof fn lemma_compile_variants_err(vs: Seq<RawVariantView>, wide: bool, i: int)
    requires
        0 <= i <= vs.len(),
        spec_compile_variants(vs.take(i), wide) is Err,
    ensures
        spec_compile_variants(vs, wide) == spec_compile_variants(vs.take(i), wide),
    decreases vs.len() - i,
{
    if i < vs.len() {
        assert(vs.take(i + 1).drop_last() =~= vs.take(i));
        lemma_compile_variants_err(vs, wide, i + 1);
    } else {
        assert(vs.take(i) =~= vs);
    }
}

/// The compilation of the declared entries of an enumeration: each value
/// token must be an integer literal that fits the representation width.
/// The first failing entry aborts with `InvalidLiteral` at its line.
pub open spec fn spec_compile_variants(vs: Seq<RawVariantView>, wide: bool) -> Result<
    Seq<EnumVariantView>,
    CompileError,
>
    decreases vs.len(),
{
    if vs.len() == 0 {
        Ok(Seq::empty())
    } else {
        match spec_compile_variants(vs.drop_last(), wide) {
            Err(e) => Err(e),
            Ok(done) => {
                let raw = vs.last();
                match spec_literal_value(raw.value) {
                    Some(n) => if n <= spec_sentinel(wide) {
                        Ok(done.push(EnumVariantView { value: n as u64, name: raw.name }))
                    } else {
                        Err(CompileError::InvalidLiteral { line: raw.line })
                    },
                    None => Err(CompileError::InvalidLiteral { line: raw.line }),
                }
            },
        }
    }
}

/// A compiled enumeration: closed, totally decodable, with exactly one
/// designated "invalid/none" encoding at the representation's maximum
/// value, synthesized under the name `None` where no declared entry
/// occupies it.
#[derive(PartialEq, Debug, Clone)]
pub struct CompiledEnum {
    /// Whether the representation is 16-bit rather than 8-bit.
    pub wide: bool,
    /// The enumeration's name.
    pub name: Vec<u8>,
    /// The variants: the declared entries in order, possibly followed by
    /// the synthesized sentinel variant.
    pub variants: Vec<EnumVariant>,
}

/// The mathematical image of a `CompiledEnum`.
pub ghost struct CompiledEnumView {
    pub wide: bool,
    pub name: Seq<u8>,
    pub variants: Seq<EnumVariantView>,
}

impl View for CompiledEnum {
    type V = CompiledEnumView;

    open spec fn view(&self) -> CompiledEnumView {
        CompiledEnumView {
            wide: self.wide,
            name: self.name@,
            variants: self.variants@.map_values(|v: EnumVariant| v@),
        }
    }
}

/// The compilation of a declared enumeration, as a mathematical value.
pub open spec fn spec_compile_enum(d: EnumDeclView) -> Result<CompiledEnumView, CompileError> {
    match spec_compile_variants(d.variants, d.wide) {
        Err(e) => Err(e),
        Ok(vs) => {
            if spec_find_value(vs, spec_sentinel(d.wide)) is Some {
                Ok(CompiledEnumView { wide: d.wide, name: d.name, variants: vs })
            } else {
                Ok(
                    CompiledEnumView {
                        wide: d.wide,
                        name: d.name,
                        variants: vs.push(
                            EnumVariantView {
                                value: spec_sentinel(d.wide),
                                name: spec_none_name(),
                            },
                        ),
                    },
                )
            }
        },
    }
}

impl CompiledEnum {
    /// The reserved sentinel value of this enumeration's representation.
    pub fn sentinel_value(&self) -> (r: u64)
        ensures
            r == spec_sentinel(self.wide),
    {
        if self.wide {
            0xffff
        } else {
            0xff
        }
    }

    /// Decodes a numeric value to the index of its variant. Decoding
    /// succeeds exactly on the declared (or synthesized) values: the result
    /// is the first variant carrying the value, and any other value is a
    /// `ValueOutOfRange` error, never a silent coercion.
    pub fn decode(&self, v: u64) -> (r: Result<usize, ZclError>)
        ensures
            match r {
                Ok(i) => spec_find_value(self@.variants, v) == Some(i as int),
                Err(e) => spec_find_value(self@.variants, v) is None && e
                    == ZclError::ValueOutOfRange,
            },
    {
        let mut i: usize = 0;
        while i < self.variants.len()
            invariant
                0 <= i <= self.variants@.len(),
                self@.variants.len() == self.variants@.len(),
                forall|j: int| 0 <= j < i ==> self@.variants[j].value != v,
            decreases self.variants@.len() - i,
        {
            proof {
                assert(self@.variants[i as int] == self.variants@[i as int]@);
            }
            if self.variants[i].value == v {
                proof {
                    assert(self@.variants[i as int].value == v);
                    lemma_find_value(self@.variants, v);
                    match spec_find_value(self@.variants, v) {
                        Some(k) => {
                            if k < i as int {
                                assert(self@.variants[k].value != v);
                            }
                            if k > i as int {
                                assert(self@.variants[i as int].value != v);
                            }
                            assert(k == i as int);
                        },
                        None => {
                            assert(false);
                        },
                    }
                }
                return Ok(i);
            }
            i = i + 1;
        }
        proof {
            lemma_find_value(self@.variants, v);
        }
        Err(ZclError::ValueOutOfRange)
    }
}

/// Compiles a declared enumeration: validates every entry's value token
/// against the representation width and synthesizes the sentinel variant
/// where no declared entry occupies the reserved maximum value.
pub fn compile_enum(d: &EnumDecl) -> (r: Result<CompiledEnum, CompileError>)
    ensures
        match r {
            Ok(c) => spec_compile_enum(d@) == Ok::<CompiledEnumView, CompileError>(c@),
            Err(e) => spec_compile_enum(d@) == Err::<CompiledEnumView, CompileError>(e),
        },
{
    let sentinel: u64 = if d.wide {
        0xffff
    } else {
        0xff
    };
    let mut vs: Vec<EnumVariant> = Vec::new();
    let mut i: usize = 0;
    proof {
        assert(d@.variants.take(0) =~= Seq::<RawVariantView>::empty());
        assert(vs@.map_values(|v: EnumVariant| v@) =~= Seq::<EnumVariantView>::empty());
    }
    while i < d.variants.len()
        invariant
            0 <= i <= d.variants@.len(),
            d@.variants.len() == d.variants@.len(),
            sentinel == spec_sentinel(d.wide),
            spec_compile_variants(d@.variants.take(i as int), d.wide) == Ok::<
                Seq<EnumVariantView>,
                CompileError,
            >(vs@.map_values(|v: EnumVariant| v@)),
        decreases d.variants@.len() - i,
    {
        let raw = &d.variants[i];
        proof {
            assert(d@.variants.take(i + 1).drop_last() =~= d@.variants.take(i as int));
            assert(d@.variants.take(i + 1).last() == d@.variants[i as int]);
            assert(d@.variants[i as int] == d.variants@[i as int]@);
        }
        match parse_uint(&raw.value) {
            Some(n) if n <= sentinel => {
                let ghost old_vs = vs@;
                vs.push(EnumVariant { value: n, name: raw.name.clone() });
                proof {
                    assert(vs@.map_values(|v: EnumVariant| v@) =~= old_vs.map_values(
                        |v: EnumVariant| v@,
                    ).push(EnumVariantView { value: n, name: raw.name@ }));
                }
            },
            _ => {
                proof {
                    assert(spec_compile_variants(d@.variants.take(i + 1), d.wide) == Err::<
                        Seq<EnumVariantView>,
                        CompileError,
                    >(CompileError::InvalidLiteral { line: raw.line }));
                    lemma_compile_variants_err(d@.variants, d.wide, i + 1);
                }
                return Err(CompileError::InvalidLiteral { line: raw.line });
            },
        }
        i = i + 1;
    }
    proof {
        assert(d@.variants.take(i as int) =~= d@.variants);
    }
    // Scan for a declared entry at the sentinel value; synthesize one
    // named `None` where there is none.
    let ghost mapped0 = vs@.map_values(|v: EnumVariant| v@);
    let mut has_sentinel = false;
    let mut k: usize = 0;
    while k < vs.len()
        invariant
            0 <= k <= vs@.len(),
            mapped0 == vs@.map_values(|v: EnumVariant| v@),
            has_sentinel ==> spec_find_value(mapped0, spec_sentinel(d.wide)) is Some,
            !has_sentinel ==> forall|j: int|
                0 <= j < k ==> mapped0[j].value != spec_sentinel(d.wide),
            sentinel == spec_sentinel(d.wide),
        decreases vs@.len() - k,
    {
        if !has_sentinel && vs[k].value == sentinel {
            proof {
                assert(mapped0[k as int].value == spec_sentinel(d.wide));
                lemma_find_value(mapped0, spec_sentinel(d.wide));
            }
            has_sentinel = true;
        }
        k = k + 1;
    }
    proof {
        if !has_sentinel {
            lemma_find_value(mapped0, spec_sentinel(d.wide));
            match spec_find_value(mapped0, spec_sentinel(d.wide)) {
                Some(i) => {
                    assert(mapped0[i].value == spec_sentinel(d.wide));
                    assert(false);
                },
                None => {
                },
            }
        }
    }
    if !has_sentinel {
        let none_name: Vec<u8> = vec!['N' as u8, 'o' as u8, 'n' as u8, 'e' as u8];
        proof {
            assert(none_name@ =~= spec_none_name());
        }
        let ghost old_vs = vs@;
        vs.push(EnumVariant { value: sentinel, name: none_name });
        proof {
            assert(vs@.map_values(|v: EnumVariant| v@) =~= old_vs.map_values(
                |v: EnumVariant| v@,
            ).push(EnumVariantView { value: spec_sentinel(d.wide), name: spec_none_name() }));
        }
    }
    let r = CompiledEnum { wide: d.wide, name: d.name.clone(), variants: vs };
    proof {
        assert(r@.variants == r.variants@.map_values(|v: EnumVariant| v@));
        assert(spec_compile_enum(d@) == Ok::<CompiledEnumView, CompileError>(r@));
    }
    Ok(r)
}

/// Law: where no declared entry occupies the reserved sentinel value, the
/// compiled enumeration carries exactly one variant there — a synthesized
/// one named `None`, standing last — and decoding the sentinel yields it.
pub proof fn law_sentinel_injection(d: EnumDeclView, declared: Seq<EnumVariantView>)
    requires
        spec_compile_variants(d.variants, d.wide) == Ok::<Seq<EnumVariantView>, CompileError>(
            declared,
        ),
        forall|j: int| 0 <= j < declared.len() ==> declared[j].value != spec_sentinel(d.wide),
    ensures
        spec_compile_enum(d) matches Ok(c) && {
            let vs = c.variants;
            &&& vs.len() == declared.len() + 1
            &&& vs.last() == (EnumVariantView {
                value: spec_sentinel(d.wide),
                name: spec_none_name(),
            })
            &&& (forall|j: int|
                0 <= j < vs.len() - 1 ==> vs[j].value != spec_sentinel(d.wide))
            &&& spec_find_value(vs, spec_sentinel(d.wide)) == Some(vs.len() - 1)
        },
{
    lemma_find_value(declared, spec_sentinel(d.wide));
    let c = spec_compile_enum(d).unwrap();
    let vs = c.variants;
    assert(vs == declared.push(
        EnumVariantView { value: spec_sentinel(d.wide), name: spec_none_name() },
    ));
    lemma_find_value(vs, spec_sentinel(d.wide));
    match spec_find_value(vs, spec_sentinel(d.wide)) {
        Some(i) => {
            assert(vs[i].value == spec_sentinel(d.wide));
            if i < vs.len() - 1 {
                assert(declared[i].value == spec_sentinel(d.wide));
            }
        },
        None => {
            assert(vs.last().value == spec_sentinel(d.wide));
        },
    }
}

/// Every compiled entry's value fits the representation width.
proof fn lemma_compile_variants_values(vs: Seq<RawVariantView>, wide: bool)
    requires
        spec_compile_variants(vs, wide) is Ok,
    ensures
        forall|i: int|
            0 <= i < spec_compile_variants(vs, wide).unwrap().len() ==> spec_compile_variants(
                vs,
                wide,
            ).unwrap()[i].value <= spec_sentinel(wide),
    decreases vs.len(),
{
    if vs.len() > 0 {
        lemma_compile_variants_values(vs.drop_last(), wide);
    }
}

/// Law: a compiled enumeration is closed over its representation width and
/// always carries its reserved "invalid/none" encoding: every variant value
/// fits the width, and decoding the sentinel value succeeds — whether the
/// sentinel entry was declared or synthesized.
pub proof fn law_compiled_enum_closed(d: EnumDeclView)
    requires
        spec_compile_enum(d) is Ok,
    ensures
        ({
            let c = spec_compile_enum(d).unwrap();
            &&& c.wide == d.wide
            &&& spec_find_value(c.variants, spec_sentinel(c.wide)) is Some
            &&& forall|i: int|
                0 <= i < c.variants.len() ==> c.variants[i].value <= spec_sentinel(c.wide)
        }),
{
    let vs = spec_compile_variants(d.variants, d.wide).unwrap();
    lemma_compile_variants_values(d.variants, d.wide);
    let c = spec_compile_enum(d).unwrap();
    lemma_find_value(vs, spec_sentinel(d.wide));
    if spec_find_value(vs, spec_sentinel(d.wide)) is None {
        // The sentinel variant was synthesized at the end.
        assert(c.variants == vs.push(
            EnumVariantView { value: spec_sentinel(d.wide), name: spec_none_name() },
        ));
        lemma_find_value(c.variants, spec_sentinel(d.wide));
        match spec_find_value(c.variants, spec_sentinel(d.wide)) {
            Some(_) => {
            },
            None => {
                assert(c.variants[c.variants.len() - 1].value == spec_sentinel(d.wide));
            },
        }
    }
}

/// Law: decoding is total on the declared domain and nowhere else — a value
/// decodes successfully exactly when some variant carries it.
pub proof fn law_decode_total(vs: Seq<EnumVariantView>, v: u64)
    ensures
        (spec_find_value(vs, v) is Some) <==> (exists|j: int|
            0 <= j < vs.len() && vs[j].value == v),
{
    lemma_find_value(vs, v);
    match spec_find_value(vs, v) {
        Some(i) => {
            assert(0 <= i < vs.len() && vs[i].value == v);
        },
        None => {
        },
    }
}

} // verus!
