//! The intermediate model produced by the schema parser: declarations still
//! carry their fields as raw tokens, together with the line each came from.
use vstd::prelude::*;

verus! {

/// A declared enumeration entry, still unparsed: `<value> <name>`.
#[derive(PartialEq, Debug, Clone)]
pub struct RawVariant {
    /// The line the entry came from.
    pub line: usize,
    /// The value token.
    pub value: Vec<u8>,
    /// The entry's name.
    pub name: Vec<u8>,
}

/// The mathematical image of a `RawVariant`.
pub ghost struct RawVariantView {
    pub line: usize,
    pub value: Seq<u8>,
    pub name: Seq<u8>,
}

impl View for RawVariant {
    type V = RawVariantView;

    open spec fn view(&self) -> RawVariantView {
        RawVariantView { line: self.line, value: self.value@, name: self.name@ }
    }
}

/// A declared enumeration: width, name, and entries in declaration order.
#[derive(PartialEq, Debug, Clone)]
pub struct EnumDecl {
    /// The line the opener came from.
    pub line: usize,
    /// Whether the representation is 16-bit (`enum16`) rather than 8-bit.
    pub wide: bool,
    /// The enumeration's name.
    pub name: Vec<u8>,
    /// The declared entries, in order.
    pub variants: Vec<RawVariant>,
}

/// The mathematical image of an `EnumDecl`.
pub ghost struct EnumDeclView {
    pub line: usize,
    pub wide: bool,
    pub name: Seq<u8>,
    pub variants: Seq<RawVariantView>,
}

impl View for EnumDecl {
    type V = EnumDeclView;

    open spec fn view(&self) -> EnumDeclView {
        EnumDeclView {
            line: self.line,
            wide: self.wide,
            name: self.name@,
            variants: self.variants@.map_values(|v: RawVariant| v@),
        }
    }
}

/// A declared attribute, still unparsed: the fields of an `attr` line.
#[derive(PartialEq, Debug, Clone)]
pub struct AttrDecl {
    /// The line the declaration came from.
    pub line: usize,
    /// The code token.
    pub code: Vec<u8>,
    /// The attribute's name.
    pub name: Vec<u8>,
    /// The type tag.
    pub kind: Vec<u8>,
    /// The range tokens: none, one merged token, or separate min and max.
    pub range: Vec<Vec<u8>>,
    /// The access-flag token.
    pub access: Vec<u8>,
    /// The default token.
    pub default: Vec<u8>,
    /// The mandatory-flag token.
    pub mandatory: Vec<u8>,
}

/// The mathematical image of an `AttrDecl`.
pub ghost struct AttrDeclView {
    pub line: usize,
    pub code: Seq<u8>,
    pub name: Seq<u8>,
    pub kind: Seq<u8>,
    pub range: Seq<Seq<u8>>,
    pub access: Seq<u8>,
    pub default: Seq<u8>,
    pub mandatory: Seq<u8>,
}

impl View for AttrDecl {
    type V = AttrDeclView;

    open spec fn view(&self) -> AttrDeclView {
        AttrDeclView {
            line: self.line,
            code: self.code@,
            name: self.name@,
            kind: self.kind@,
            range: self.range.deep_view(),
            access: self.access@,
            default: self.default@,
            mandatory: self.mandatory@,
        }
    }
}

/// A declared cluster: its attributes and local enumerations, in order.
#[derive(PartialEq, Debug, Clone)]
pub struct ClusterDecl {
    /// The line the opener came from.
    pub line: usize,
    /// The cluster's name.
    pub name: Vec<u8>,
    /// The code token.
    pub code: Vec<u8>,
    /// The attributes declared in the cluster, in order.
    pub attributes: Vec<AttrDecl>,
    /// The enumerations declared in the cluster, in order.
    pub enums: Vec<EnumDecl>,
}

/// The mathematical image of a `ClusterDecl`.
pub ghost struct ClusterDeclView {
    pub line: usize,
    pub name: Seq<u8>,
    pub code: Seq<u8>,
    pub attributes: Seq<AttrDeclView>,
    pub enums: Seq<EnumDeclView>,
}

impl View for ClusterDecl {
    type V = ClusterDeclView;

    open spec fn view(&self) -> ClusterDeclView {
        ClusterDeclView {
            line: self.line,
            name: self.name@,
            code: self.code@,
            attributes: self.attributes@.map_values(|a: AttrDecl| a@),
            enums: self.enums@.map_values(|e: EnumDecl| e@),
        }
    }
}

/// The parsed form of a whole schema text: global attributes, clusters, and
/// global enumerations, each in declaration order.
#[derive(PartialEq, Debug, Clone)]
pub struct SchemaModel {
    /// Attributes declared outside any cluster.
    pub global_attributes: Vec<AttrDecl>,
    /// The declared clusters.
    pub clusters: Vec<ClusterDecl>,
    /// Enumerations declared outside any cluster.
    pub global_enums: Vec<EnumDecl>,
}

/// The mathematical image of a `SchemaModel`.
pub ghost struct SchemaModelView {
    pub global_attributes: Seq<AttrDeclView>,
    pub clusters: Seq<ClusterDeclView>,
    pub global_enums: Seq<EnumDeclView>,
}

impl View for SchemaModel {
    type V = SchemaModelView;

    open spec fn view(&self) -> SchemaModelView {
        SchemaModelView {
            global_attributes: self.global_attributes@.map_values(|a: AttrDecl| a@),
            clusters: self.clusters@.map_values(|c: ClusterDecl| c@),
            global_enums: self.global_enums@.map_values(|e: EnumDecl| e@),
        }
    }
}

} // verus!
