//! The compiler: parsed declarations become immutable descriptors. Global
//! enumerations are compiled first, then global attributes, then each
//! cluster — its enumerations, then its attribute headers (the reference
//! context for named bounds), then its attributes in order. The first fatal
//! error aborts the whole compile.
use crate::attribute::Attribute;
use crate::attribute::AttributeSide;
use crate::attribute::AttributeView;
use crate::bounds::resolve_range;
use crate::bounds::spec_resolve_range;
use crate::bounds::AttrHeader;
use crate::bounds::AttrHeaderView;
use crate::decl::AttrDecl;
use crate::decl::AttrDeclView;
use crate::decl::ClusterDecl;
use crate::decl::ClusterDeclView;
use crate::decl::EnumDecl;
use crate::decl::EnumDeclView;
use crate::decl::SchemaModel;
use crate::decl::SchemaModelView;
use crate::defaults::resolve_default;
use crate::defaults::spec_resolve_default;
use crate::enums::compile_enum;
use crate::enums::spec_compile_enum;
use crate::enums::CompiledEnum;
use crate::enums::CompiledEnumView;
use crate::literal::parse_uint;
use crate::literal::spec_literal_value;
use crate::parser::parse;
use crate::parser::spec_parse;
use crate::wiretype::resolve_kind;
use crate::wiretype::spec_resolve_kind;
use crate::CompileError;
use crate::Diagnostic;
use vstd::prelude::*;

verus! {

/// A compiled cluster: its code, name, attribute descriptors and local
/// enumerations, in declaration order.
#[derive(PartialEq, Debug, Clone)]
pub struct Cluster {
    /// The cluster code.
    pub code: u16,
    /// The cluster's name.
    pub name: Vec<u8>,
    /// The compiled attributes, in declaration order.
    pub attributes: Vec<Attribute>,
    /// The compiled local enumerations, in declaration order.
    pub enums: Vec<CompiledEnum>,
}

/// The mathematical image of a `Cluster`.
pub ghost struct ClusterView {
    pub code: u16,
    pub name: Seq<u8>,
    pub attributes: Seq<AttributeView>,
    pub enums: Seq<CompiledEnumView>,
}

impl View for Cluster {
    type V = ClusterView;

    open spec fn view(&self) -> ClusterView {
        ClusterView {
            code: self.code,
            name: self.name@,
            attributes: self.attributes@.map_values(|a: Attribute| a@),
            enums: self.enums@.map_values(|e: CompiledEnum| e@),
        }
    }
}

impl Cluster {
    /// The cluster's attributes as pairs of name and numeric wire-type tag,
    /// in declaration order.
    pub fn attrs(&self) -> (r: Vec<(Vec<u8>, u8)>)
        ensures
            r@.len() == self@.attributes.len(),
            forall|i: int|
                0 <= i < r@.len() ==> r@[i].0@ == self@.attributes[i].name && r@[i].1
                    == self@.attributes[i].wire_type.id,
    {
        let mut r: Vec<(Vec<u8>, u8)> = Vec::new();
        let mut i: usize = 0;
        while i < self.attributes.len()
            invariant
                0 <= i <= self.attributes@.len(),
                r@.len() == i,
                self@.attributes.len() == self.attributes@.len(),
                forall|j: int|
                    0 <= j < i ==> r@[j].0@ == self@.attributes[j].name && r@[j].1
                        == self@.attributes[j].wire_type.id,
            decreases self.attributes@.len() - i,
        {
            proof {
                assert(self@.attributes[i as int] == self.attributes@[i as int]@);
            }
            r.push((self.attributes[i].name.clone(), self.attributes[i].wire_type.id));
            i = i + 1;
        }
        r
    }
}

/// The compiled registry: the immutable output of a whole compile.
#[derive(PartialEq, Debug, Clone)]
pub struct Registry {
    /// Attributes declared outside any cluster.
    pub global_attributes: Vec<Attribute>,
    /// The compiled clusters, in declaration order.
    pub clusters: Vec<Cluster>,
    /// Enumerations declared outside any cluster.
    pub global_enums: Vec<CompiledEnum>,
}

/// The mathematical image of a `Registry`.
pub ghost struct RegistryView {
    pub global_attributes: Seq<AttributeView>,
    pub clusters: Seq<ClusterView>,
    pub global_enums: Seq<CompiledEnumView>,
}

impl View for Registry {
    type V = RegistryView;

    open spec fn view(&self) -> RegistryView {
        RegistryView {
            global_attributes: self.global_attributes@.map_values(|a: Attribute| a@),
            clusters: self.clusters@.map_values(|c: Cluster| c@),
            global_enums: self.global_enums@.map_values(|e: CompiledEnum| e@),
        }
    }
}

/// A code token read as a 16-bit code, as a mathematical value.
pub open spec fn spec_parse_code(code: Seq<u8>, line: usize) -> Result<u16, CompileError> {
    match spec_literal_value(code) {
        Some(n) => if n <= 0xffff {
            Ok(n as u16)
        } else {
            Err(CompileError::InvalidLiteral { line })
        },
        None => Err(CompileError::InvalidLiteral { line }),
    }
}

/// Reads a code token as a 16-bit code.
pub fn parse_code(code: &Vec<u8>, line: usize) -> (r: Result<u16, CompileError>)
    ensures
        r == spec_parse_code(code@, line),
{
    match parse_uint(code) {
        Some(n) => if n <= 0xffff {
            Ok(n as u16)
        } else {
            Err(CompileError::InvalidLiteral { line })
        },
        None => Err(CompileError::InvalidLiteral { line }),
    }
}

/// Whether an access token carries the given flag letter.
pub open spec fn spec_has_flag(access: Seq<u8>, flag: u8) -> bool {
    exists|i: int| 0 <= i < access.len() && access[i] == flag
}

/// Tests whether an access token carries the given flag letter.
pub fn has_flag(access: &Vec<u8>, flag: u8) -> (r: bool)
    ensures
        r == spec_has_flag(access@, flag),
{
    let mut i: usize = 0;
    while i < access.len()
        invariant
            0 <= i <= access@.len(),
            forall|j: int| 0 <= j < i ==> access@[j] != flag,
        decreases access@.len() - i,
    {
        if access[i] == flag {
            return true;
        }
        i = i + 1;
    }
    false
}

/// The mandatory-flag token `M`.
pub open spec fn spec_kw_mandatory() -> Seq<u8> {
    seq!['M' as u8]
}

/// The compilation of one attribute declaration, as a mathematical value:
/// the code token must be a 16-bit integer literal; the type tag resolves
/// to the wire type; the range tokens and the default token resolve against
/// it; the access token's letters `R`, `W`, `P` and `S` set the access
/// flags; and the attribute is mandatory exactly when its last field is
/// `M`. Attributes are server-side.
pub open spec fn spec_compile_attr(
    d: AttrDeclView,
    ctx: Option<Seq<AttrHeaderView>>,
    local: Seq<CompiledEnumView>,
    global: Seq<CompiledEnumView>,
) -> Result<AttributeView, CompileError> {
    match spec_parse_code(d.code, d.line) {
        Err(e) => Err(e),
        Ok(code) => {
            let wt = spec_resolve_kind(d.name, d.kind);
            match spec_resolve_range(d.line, wt, d.range, ctx) {
                Err(e) => Err(e),
                Ok(range) => match spec_resolve_default(d.line, wt, local, global, d.default) {
                    Err(e) => Err(e),
                    Ok(default) => Ok(
                        AttributeView {
                            code: code,
                            name: d.name,
                            side: AttributeSide::Server,
                            readable: spec_has_flag(d.access, 'R' as u8),
                            writable: spec_has_flag(d.access, 'W' as u8),
                            reportable: spec_has_flag(d.access, 'P' as u8),
                            scene: spec_has_flag(d.access, 'S' as u8),
                            mandatory: d.mandatory == spec_kw_mandatory(),
                            wire_type: wt,
                            default: default,
                            range: range,
                        },
                    ),
                },
            }
        },
    }
}

/// Compiles one attribute declaration against its cluster context and the
/// enumerations in scope.
pub fn compile_attr(
    d: &AttrDecl,
    ctx: Option<&Vec<AttrHeader>>,
    local: &Vec<CompiledEnum>,
    global: &Vec<CompiledEnum>,
) -> (r: Result<Attribute, CompileError>)
    ensures
        ({
            let ctxv = match ctx {
                Some(hs) => Some(hs@.map_values(|h: AttrHeader| h@)),
                None => None,
            };
            let localv = local@.map_values(|e: CompiledEnum| e@);
            let globalv = global@.map_values(|e: CompiledEnum| e@);
            match r {
                Ok(a) => spec_compile_attr(d@, ctxv, localv, globalv) == Ok::<
                    AttributeView,
                    CompileError,
                >(a@),
                Err(e) => spec_compile_attr(d@, ctxv, localv, globalv) == Err::<
                    AttributeView,
                    CompileError,
                >(e),
            }
        }),
{
    let code = match parse_code(&d.code, d.line) {
        Ok(c) => c,
        Err(e) => {
            return Err(e);
        },
    };
    let wt = resolve_kind(&d.name, &d.kind);
    let range = match resolve_range(d.line, &wt, &d.range, ctx) {
        Ok(rg) => rg,
        Err(e) => {
            return Err(e);
        },
    };
    let default = match resolve_default(d.line, &wt, local, global, &d.default) {
        Ok(df) => df,
        Err(e) => {
            return Err(e);
        },
    };
    let mandatory_kw: Vec<u8> = vec!['M' as u8];
    proof {
        assert(mandatory_kw@ =~= spec_kw_mandatory());
    }
    let a = Attribute {
        code,
        name: d.name.clone(),
        side: AttributeSide::Server,
        readable: has_flag(&d.access, 'R' as u8),
        writable: has_flag(&d.access, 'W' as u8),
        reportable: has_flag(&d.access, 'P' as u8),
        scene: has_flag(&d.access, 'S' as u8),
        mandatory: crate::bytes::bytes_eq(&d.mandatory, &mandatory_kw),
        wire_type: wt,
        default,
        range,
    };
    Ok(a)
}

/// The attribute headers of a cluster, as a mathematical value: every
/// attribute's code token read as a 16-bit code, next to its name. The
/// first invalid code aborts.
pub open spec fn spec_headers(ds: Seq<AttrDeclView>) -> Result<Seq<AttrHeaderView>, CompileError>
    decreases ds.len(),
{
    if ds.len() == 0 {
        Ok(Seq::empty())
    } else {
        match spec_headers(ds.drop_last()) {
            Err(e) => Err(e),
            Ok(done) => {
                let d = ds.last();
                match spec_parse_code(d.code, d.line) {
                    Ok(code) => Ok(done.push(AttrHeaderView { code: code, name: d.name })),
                    Err(e) => Err(e),
                }
            },
        }
    }
}

/// A failed prefix fails the whole header pass, with the same error.
proof fn lemma_headers_err(ds: Seq<AttrDeclView>, i: int)
    requires
        0 <= i <= ds.len(),
        spec_headers(ds.take(i)) is Err,
    ensures
        spec_headers(ds) == spec_headers(ds.take(i)),
    decreases ds.len() - i,
{
    if i < ds.len() {
        assert(ds.take(i + 1).drop_last() =~= ds.take(i));
        lemma_headers_err(ds, i + 1);
    } else {
        assert(ds.take(i) =~= ds);
    }
}

/// Reads the attribute headers of a cluster: the reference context for
/// named bounds.
pub fn headers(ds: &Vec<AttrDecl>) -> (r: Result<Vec<AttrHeader>, CompileError>)
    ensures
        ({
            let dsv = ds@.map_values(|d: AttrDecl| d@);
            match r {
                Ok(hs) => spec_headers(dsv) == Ok::<Seq<AttrHeaderView>, CompileError>(
                    hs@.map_values(|h: AttrHeader| h@),
                ),
                Err(e) => spec_headers(dsv) == Err::<Seq<AttrHeaderView>, CompileError>(e),
            }
        }),
{
    let ghost dsv = ds@.map_values(|d: AttrDecl| d@);
    let mut hs: Vec<AttrHeader> = Vec::new();
    let mut i: usize = 0;
    proof {
        assert(dsv.take(0) =~= Seq::<AttrDeclView>::empty());
        assert(hs@.map_values(|h: AttrHeader| h@) =~= Seq::<AttrHeaderView>::empty());
    }
    while i < ds.len()
        invariant
            0 <= i <= ds@.len(),
            dsv == ds@.map_values(|d: AttrDecl| d@),
            dsv.len() == ds@.len(),
            spec_headers(dsv.take(i as int)) == Ok::<Seq<AttrHeaderView>, CompileError>(
                hs@.map_values(|h: AttrHeader| h@),
            ),
        decreases ds@.len() - i,
    {
        proof {
            assert(dsv.take(i + 1).drop_last() =~= dsv.take(i as int));
            assert(dsv.take(i + 1).last() == dsv[i as int]);
            assert(dsv[i as int] == ds@[i as int]@);
        }
        match parse_code(&ds[i].code, ds[i].line) {
            Ok(code) => {
                let ghost old_hs = hs@;
                hs.push(AttrHeader { code, name: ds[i].name.clone() });
                proof {
                    assert(hs@.map_values(|h: AttrHeader| h@) =~= old_hs.map_values(
                        |h: AttrHeader| h@,
                    ).push(AttrHeaderView { code: code, name: ds@[i as int].name@ }));
                }
            },
            Err(e) => {
                proof {
                    lemma_headers_err(dsv, i + 1);
                }
                return Err(e);
            },
        }
        i = i + 1;
    }
    proof {
        assert(dsv.take(i as int) =~= dsv);
    }
    Ok(hs)
}

/// The compilation of a list of enumeration declarations, in order, as a
/// mathematical value. The first failing declaration aborts.
pub open spec fn spec_compile_enums(ds: Seq<EnumDeclView>) -> Result<
    Seq<CompiledEnumView>,
    CompileError,
>
    decreases ds.len(),
{
    if ds.len() == 0 {
        Ok(Seq::empty())
    } else {
        match spec_compile_enums(ds.drop_last()) {
            Err(e) => Err(e),
            Ok(done) => match spec_compile_enum(ds.last()) {
                Ok(c) => Ok(done.push(c)),
                Err(e) => Err(e),
            },
        }
    }
}

/// A failed prefix fails the whole enumeration pass, with the same error.
proof fn lemma_compile_enums_err(ds: Seq<EnumDeclView>, i: int)
    requires
        0 <= i <= ds.len(),
        spec_compile_enums(ds.take(i)) is Err,
    ensures
        spec_compile_enums(ds) == spec_compile_enums(ds.take(i)),
    decreases ds.len() - i,
{
    if i < ds.len() {
        assert(ds.take(i + 1).drop_last() =~= ds.take(i));
        lemma_compile_enums_err(ds, i + 1);
    } else {
        assert(ds.take(i) =~= ds);
    }
}

/// Compiles a list of enumeration declarations, in order.
pub fn compile_enums(ds: &Vec<EnumDecl>) -> (r: Result<Vec<CompiledEnum>, CompileError>)
    ensures
        ({
            let dsv = ds@.map_values(|d: EnumDecl| d@);
            match r {
                Ok(es) => spec_compile_enums(dsv) == Ok::<Seq<CompiledEnumView>, CompileError>(
                    es@.map_values(|e: CompiledEnum| e@),
                ),
                Err(e) => spec_compile_enums(dsv) == Err::<Seq<CompiledEnumView>, CompileError>(e),
            }
        }),
{
    let ghost dsv = ds@.map_values(|d: EnumDecl| d@);
    let mut es: Vec<CompiledEnum> = Vec::new();
    let mut i: usize = 0;
    proof {
        assert(dsv.take(0) =~= Seq::<EnumDeclView>::empty());
        assert(es@.map_values(|e: CompiledEnum| e@) =~= Seq::<CompiledEnumView>::empty());
    }
    while i < ds.len()
        invariant
            0 <= i <= ds@.len(),
            dsv == ds@.map_values(|d: EnumDecl| d@),
            dsv.len() == ds@.len(),
            spec_compile_enums(dsv.take(i as int)) == Ok::<Seq<CompiledEnumView>, CompileError>(
                es@.map_values(|e: CompiledEnum| e@),
            ),
        decreases ds@.len() - i,
    {
        proof {
            assert(dsv.take(i + 1).drop_last() =~= dsv.take(i as int));
            assert(dsv.take(i + 1).last() == dsv[i as int]);
            assert(dsv[i as int] == ds@[i as int]@);
        }
        match compile_enum(&ds[i]) {
            Ok(c) => {
                let ghost old_es = es@;
                es.push(c);
                proof {
                    assert(es@.map_values(|e: CompiledEnum| e@) =~= old_es.map_values(
                        |e: CompiledEnum| e@,
                    ).push(es@.last()@));
                }
            },
            Err(e) => {
                proof {
                    lemma_compile_enums_err(dsv, i + 1);
                }
                return Err(e);
            },
        }
        i = i + 1;
    }
    proof {
        assert(dsv.take(i as int) =~= dsv);
    }
    Ok(es)
}

/// The compilation of a list of attribute declarations, in order, as a
/// mathematical value. The first failing declaration aborts.
pub open spec fn spec_compile_attrs(
    ds: Seq<AttrDeclView>,
    ctx: Option<Seq<AttrHeaderView>>,
    local: Seq<CompiledEnumView>,
    global: Seq<CompiledEnumView>,
) -> Result<Seq<AttributeView>, CompileError>
    decreases ds.len(),
{
    if ds.len() == 0 {
        Ok(Seq::empty())
    } else {
        match spec_compile_attrs(ds.drop_last(), ctx, local, global) {
            Err(e) => Err(e),
            Ok(done) => match spec_compile_attr(ds.last(), ctx, local, global) {
                Ok(a) => Ok(done.push(a)),
                Err(e) => Err(e),
            },
        }
    }
}

/// A failed prefix fails the whole attribute pass, with the same error.
proof fn lemma_compile_attrs_err(
    ds: Seq<AttrDeclView>,
    ctx: Option<Seq<AttrHeaderView>>,
    local: Seq<CompiledEnumView>,
    global: Seq<CompiledEnumView>,
    i: int,
)
    requires
        0 <= i <= ds.len(),
        spec_compile_attrs(ds.take(i), ctx, local, global) is Err,
    ensures
        spec_compile_attrs(ds, ctx, local, global) == spec_compile_attrs(
            ds.take(i),
            ctx,
            local,
            global,
        ),
    decreases ds.len() - i,
{
    if i < ds.len() {
        assert(ds.take(i + 1).drop_last() =~= ds.take(i));
        lemma_compile_attrs_err(ds, ctx, local, global, i + 1);
    } else {
        assert(ds.take(i) =~= ds);
    }
}

/// Compiles a list of attribute declarations, in order.
pub fn compile_attrs(
    ds: &Vec<AttrDecl>,
    ctx: Option<&Vec<AttrHeader>>,
    local: &Vec<CompiledEnum>,
    global: &Vec<CompiledEnum>,
) -> (r: Result<Vec<Attribute>, CompileError>)
    ensures
        ({
            let dsv = ds@.map_values(|d: AttrDecl| d@);
            let ctxv = match ctx {
                Some(hs) => Some(hs@.map_values(|h: AttrHeader| h@)),
                None => None,
            };
            let localv = local@.map_values(|e: CompiledEnum| e@);
            let globalv = global@.map_values(|e: CompiledEnum| e@);
            match r {
                Ok(attrs) => spec_compile_attrs(dsv, ctxv, localv, globalv) == Ok::<
                    Seq<AttributeView>,
                    CompileError,
                >(attrs@.map_values(|a: Attribute| a@)),
                Err(e) => spec_compile_attrs(dsv, ctxv, localv, globalv) == Err::<
                    Seq<AttributeView>,
                    CompileError,
                >(e),
            }
        }),
{
    let ghost dsv = ds@.map_values(|d: AttrDecl| d@);
    let ghost ctxv = match ctx {
        Some(hs) => Some(hs@.map_values(|h: AttrHeader| h@)),
        None => None,
    };
    let ghost localv = local@.map_values(|e: CompiledEnum| e@);
    let ghost globalv = global@.map_values(|e: CompiledEnum| e@);
    let mut attrs: Vec<Attribute> = Vec::new();
    let mut i: usize = 0;
    proof {
        assert(dsv.take(0) =~= Seq::<AttrDeclView>::empty());
        assert(attrs@.map_values(|a: Attribute| a@) =~= Seq::<AttributeView>::empty());
    }
    while i < ds.len()
        invariant
            0 <= i <= ds@.len(),
            dsv == ds@.map_values(|d: AttrDecl| d@),
            dsv.len() == ds@.len(),
            ctxv == match ctx {
                Some(hs) => Some(hs@.map_values(|h: AttrHeader| h@)),
                None => None,
            },
            localv == local@.map_values(|e: CompiledEnum| e@),
            globalv == global@.map_values(|e: CompiledEnum| e@),
            spec_compile_attrs(dsv.take(i as int), ctxv, localv, globalv) == Ok::<
                Seq<AttributeView>,
                CompileError,
            >(attrs@.map_values(|a: Attribute| a@)),
        decreases ds@.len() - i,
    {
        proof {
            assert(dsv.take(i + 1).drop_last() =~= dsv.take(i as int));
            assert(dsv.take(i + 1).last() == dsv[i as int]);
            assert(dsv[i as int] == ds@[i as int]@);
        }
        match compile_attr(&ds[i], ctx, local, global) {
            Ok(a) => {
                let ghost old_attrs = attrs@;
                attrs.push(a);
                proof {
                    assert(attrs@.map_values(|a: Attribute| a@) =~= old_attrs.map_values(
                        |a: Attribute| a@,
                    ).push(attrs@.last()@));
                }
            },
            Err(e) => {
                proof {
                    lemma_compile_attrs_err(dsv, ctxv, localv, globalv, i + 1);
                }
                return Err(e);
            },
        }
        i = i + 1;
    }
    proof {
        assert(dsv.take(i as int) =~= dsv);
    }
    Ok(attrs)
}

/// The compilation of one cluster, as a mathematical value: its code is
/// validated, its enumerations are compiled, its attribute headers are read
/// (they are the context for named bounds, so declaration order within the
/// cluster does not affect whether a reference resolves), and then each
/// attribute is compiled in order.
pub open spec fn spec_compile_cluster(d: ClusterDeclView, global: Seq<CompiledEnumView>) -> Result<
    ClusterView,
    CompileError,
> {
    match spec_parse_code(d.code, d.line) {
        Err(e) => Err(e),
        Ok(code) => match spec_compile_enums(d.enums) {
            Err(e) => Err(e),
            Ok(enums) => match spec_headers(d.attributes) {
                Err(e) => Err(e),
                Ok(hs) => match spec_compile_attrs(d.attributes, Some(hs), enums, global) {
                    Err(e) => Err(e),
                    Ok(attrs) => Ok(
                        ClusterView { code: code, name: d.name, attributes: attrs, enums: enums },
                    ),
                },
            },
        },
    }
}

/// Compiles one cluster against the global enumerations.
pub fn compile_cluster(d: &ClusterDecl, global: &Vec<CompiledEnum>) -> (r: Result<
    Cluster,
    CompileError,
>)
    ensures
        ({
            let globalv = global@.map_values(|e: CompiledEnum| e@);
            match r {
                Ok(c) => spec_compile_cluster(d@, globalv) == Ok::<ClusterView, CompileError>(c@),
                Err(e) => spec_compile_cluster(d@, globalv) == Err::<ClusterView, CompileError>(e),
            }
        }),
{
    let code = match parse_code(&d.code, d.line) {
        Ok(c) => c,
        Err(e) => {
            return Err(e);
        },
    };
    let enums = match compile_enums(&d.enums) {
        Ok(es) => es,
        Err(e) => {
            return Err(e);
        },
    };
    let hs = match headers(&d.attributes) {
        Ok(hs) => hs,
        Err(e) => {
            return Err(e);
        },
    };
    let attrs = match compile_attrs(&d.attributes, Some(&hs), &enums, global) {
        Ok(attrs) => attrs,
        Err(e) => {
            return Err(e);
        },
    };
    Ok(Cluster { code, name: d.name.clone(), attributes: attrs, enums })
}

/// The compilation of a list of cluster declarations, in order, as a
/// mathematical value. The first failing cluster aborts.
pub open spec fn spec_compile_clusters(
    ds: Seq<ClusterDeclView>,
    global: Seq<CompiledEnumView>,
) -> Result<Seq<ClusterView>, CompileError>
    decreases ds.len(),
{
    if ds.len() == 0 {
        Ok(Seq::empty())
    } else {
        match spec_compile_clusters(ds.drop_last(), global) {
            Err(e) => Err(e),
            Ok(done) => match spec_compile_cluster(ds.last(), global) {
                Ok(c) => Ok(done.push(c)),
                Err(e) => Err(e),
            },
        }
    }
}

/// A failed prefix fails the whole cluster pass, with the same error.
proof fn lemma_compile_clusters_err(
    ds: Seq<ClusterDeclView>,
    global: Seq<CompiledEnumView>,
    i: int,
)
    requires
        0 <= i <= ds.len(),
        spec_compile_clusters(ds.take(i), global) is Err,
    ensures
        spec_compile_clusters(ds, global) == spec_compile_clusters(ds.take(i), global),
    decreases ds.len() - i,
{
    if i < ds.len() {
        assert(ds.take(i + 1).drop_last() =~= ds.take(i));
        lemma_compile_clusters_err(ds, global, i + 1);
    } else {
        assert(ds.take(i) =~= ds);
    }
}

/// Compiles a list of cluster declarations, in order.
pub fn compile_clusters(ds: &Vec<ClusterDecl>, global: &Vec<CompiledEnum>) -> (r: Result<
    Vec<Cluster>,
    CompileError,
>)
    ensures
        ({
            let dsv = ds@.map_values(|d: ClusterDecl| d@);
            let globalv = global@.map_values(|e: CompiledEnum| e@);
            match r {
                Ok(cs) => spec_compile_clusters(dsv, globalv) == Ok::<
                    Seq<ClusterView>,
                    CompileError,
                >(cs@.map_values(|c: Cluster| c@)),
                Err(e) => spec_compile_clusters(dsv, globalv) == Err::<
                    Seq<ClusterView>,
                    CompileError,
                >(e),
            }
        }),
{
    let ghost dsv = ds@.map_values(|d: ClusterDecl| d@);
    let ghost globalv = global@.map_values(|e: CompiledEnum| e@);
    let mut cs: Vec<Cluster> = Vec::new();
    let mut i: usize = 0;
    proof {
        assert(dsv.take(0) =~= Seq::<ClusterDeclView>::empty());
        assert(cs@.map_values(|c: Cluster| c@) =~= Seq::<ClusterView>::empty());
    }
    while i < ds.len()
        invariant
            0 <= i <= ds@.len(),
            dsv == ds@.map_values(|d: ClusterDecl| d@),
            dsv.len() == ds@.len(),
            globalv == global@.map_values(|e: CompiledEnum| e@),
            spec_compile_clusters(dsv.take(i as int), globalv) == Ok::<
                Seq<ClusterView>,
                CompileError,
            >(cs@.map_values(|c: Cluster| c@)),
        decreases ds@.len() - i,
    {
        proof {
            assert(dsv.take(i + 1).drop_last() =~= dsv.take(i as int));
            assert(dsv.take(i + 1).last() == dsv[i as int]);
            assert(dsv[i as int] == ds@[i as int]@);
        }
        match compile_cluster(&ds[i], global) {
            Ok(c) => {
                let ghost old_cs = cs@;
                cs.push(c);
                proof {
                    assert(cs@.map_values(|c: Cluster| c@) =~= old_cs.map_values(
                        |c: Cluster| c@,
                    ).push(cs@.last()@));
                }
            },
            Err(e) => {
                proof {
                    lemma_compile_clusters_err(dsv, globalv, i + 1);
                }
                return Err(e);
            },
        }
        i = i + 1;
    }
    proof {
        assert(dsv.take(i as int) =~= dsv);
    }
    Ok(cs)
}

/// The compilation of a parsed model, as a mathematical value: global
/// enumerations first (they are in scope everywhere), then the global
/// attributes (which have no cluster context), then each cluster.
pub open spec fn spec_compile_model(m: SchemaModelView) -> Result<RegistryView, CompileError> {
    match spec_compile_enums(m.global_enums) {
        Err(e) => Err(e),
        Ok(genums) => match spec_compile_attrs(
            m.global_attributes,
            None,
            Seq::empty(),
            genums,
        ) {
            Err(e) => Err(e),
            Ok(gattrs) => match spec_compile_clusters(m.clusters, genums) {
                Err(e) => Err(e),
                Ok(cs) => Ok(
                    RegistryView {
                        global_attributes: gattrs,
                        clusters: cs,
                        global_enums: genums,
                    },
                ),
            },
        },
    }
}

/// Compiles a parsed model into the descriptor registry.
pub fn compile_model(m: &SchemaModel) -> (r: Result<Registry, CompileError>)
    ensures
        match r {
            Ok(reg) => spec_compile_model(m@) == Ok::<RegistryView, CompileError>(reg@),
            Err(e) => spec_compile_model(m@) == Err::<RegistryView, CompileError>(e),
        },
{
    let genums = match compile_enums(&m.global_enums) {
        Ok(es) => es,
        Err(e) => {
            return Err(e);
        },
    };
    let no_local: Vec<CompiledEnum> = Vec::new();
    proof {
        assert(no_local@.map_values(|e: CompiledEnum| e@) =~= Seq::<CompiledEnumView>::empty());
    }
    let gattrs = match compile_attrs(&m.global_attributes, None, &no_local, &genums) {
        Ok(attrs) => attrs,
        Err(e) => {
            return Err(e);
        },
    };
    let cs = match compile_clusters(&m.clusters, &genums) {
        Ok(cs) => cs,
        Err(e) => {
            return Err(e);
        },
    };
    Ok(Registry { global_attributes: gattrs, clusters: cs, global_enums: genums })
}

/// The compilation of a whole schema text, as a mathematical value: the parse
/// of the text, then the compilation of the parsed model; the non-fatal
/// diagnostics ride along.
pub open spec fn spec_compile(input: Seq<u8>) -> Result<
    (RegistryView, Seq<Diagnostic>),
    CompileError,
> {
    match spec_parse(input) {
        Err(e) => Err(e),
        Ok((m, diags)) => match spec_compile_model(m) {
            Err(e) => Err(e),
            Ok(reg) => Ok((reg, diags)),
        },
    }
}

/// Compiles a whole schema text into the descriptor registry, together with
/// the non-fatal diagnostics for dropped records. Given identical spec
/// text, the result is identical: the compile is a mathematical function of
/// its input.
pub fn compile(input: &Vec<u8>) -> (r: Result<(Registry, Vec<Diagnostic>), CompileError>)
    ensures
        match r {
            Ok(p) => spec_compile(input@) == Ok::<(RegistryView, Seq<Diagnostic>), CompileError>(
                (p.0@, p.1@),
            ),
            Err(e) => spec_compile(input@) == Err::<(RegistryView, Seq<Diagnostic>), CompileError>(
                e,
            ),
        },
{
    let (m, diags) = match parse(input) {
        Ok(p) => p,
        Err(e) => {
            return Err(e);
        },
    };
    match compile_model(&m) {
        Ok(reg) => Ok((reg, diags)),
        Err(e) => Err(e),
    }
}

} // verus!
