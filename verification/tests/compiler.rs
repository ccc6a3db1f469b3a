use zcl_schema::attribute::AttributeRange;
use zcl_schema::attribute::AttributeSide;
use zcl_schema::attribute::TypedValue;
use zcl_schema::attribute::ValueOrAttributeReference;
use zcl_schema::compile::compile;
use zcl_schema::literal::IntValue;
use zcl_schema::CompileError;
use zcl_schema::ZclError;

fn compiled(text: &str) -> zcl_schema::compile::Registry {
    let (registry, diagnostics) = compile(&text.as_bytes().to_vec()).expect("compile failed");
    assert!(diagnostics.is_empty());
    registry
}

fn compile_err(text: &str) -> CompileError {
    compile(&text.as_bytes().to_vec()).expect_err("compile unexpectedly succeeded")
}

#[test]
fn basic_cluster_attribute() {
    let text = "# the basic cluster\n\
                cluster Basic 0x0000 {\n\
                attr 0x0000 ZclVersion uint8 0x00 0xff R 8 M\n\
                }\n";
    let registry = compiled(text);
    assert_eq!(registry.clusters.len(), 1);
    let cluster = &registry.clusters[0];
    assert_eq!(cluster.code, 0x0000);
    assert_eq!(cluster.name, b"Basic".to_vec());
    assert_eq!(cluster.attributes.len(), 1);
    let attr = &cluster.attributes[0];
    assert_eq!(attr.code, 0x0000);
    assert_eq!(attr.name, b"ZclVersion".to_vec());
    assert_eq!(attr.side, AttributeSide::Server);
    assert!(attr.readable);
    assert!(!attr.writable);
    assert!(!attr.reportable);
    assert!(!attr.scene);
    assert!(attr.mandatory);
    assert_eq!(attr.default, Some(TypedValue::Int(IntValue::Unsigned(8))));
    assert_eq!(
        attr.range,
        AttributeRange::InclusiveRange(IntValue::Unsigned(0), IntValue::Unsigned(255))
    );
}

#[test]
fn enum_sentinel_injected() {
    let text = "enum8 ReportingStatus {\n\
                0 Pending\n\
                1 Complete\n\
                }\n";
    let registry = compiled(text);
    assert_eq!(registry.global_enums.len(), 1);
    let en = &registry.global_enums[0];
    assert_eq!(en.name, b"ReportingStatus".to_vec());
    assert_eq!(en.variants.len(), 3);
    assert_eq!(en.variants[0].value, 0);
    assert_eq!(en.variants[0].name, b"Pending".to_vec());
    assert_eq!(en.variants[1].value, 1);
    assert_eq!(en.variants[1].name, b"Complete".to_vec());
    assert_eq!(en.variants[2].value, 0xff);
    assert_eq!(en.variants[2].name, b"None".to_vec());
    assert_eq!(en.decode(0xff), Ok(2));
    assert_eq!(en.decode(2), Err(ZclError::ValueOutOfRange));
}

#[test]
fn enum_sentinel_not_injected_when_declared() {
    let text = "enum8 Odd {\n\
                0xff Declared\n\
                }\n";
    let registry = compiled(text);
    let en = &registry.global_enums[0];
    assert_eq!(en.variants.len(), 1);
    assert_eq!(en.variants[0].name, b"Declared".to_vec());
    assert_eq!(en.decode(0xff), Ok(0));
}

#[test]
fn enum_decode_total_on_declared_domain() {
    let text = "enum16 Wide {\n\
                0 Zero\n\
                300 ThreeHundred\n\
                }\n";
    let registry = compiled(text);
    let en = &registry.global_enums[0];
    assert!(en.wide);
    assert_eq!(en.sentinel_value(), 0xffff);
    assert_eq!(en.decode(0), Ok(0));
    assert_eq!(en.decode(300), Ok(1));
    assert_eq!(en.decode(0xffff), Ok(2));
    for bad in [1u64, 299, 301, 0xfffe] {
        assert_eq!(en.decode(bad), Err(ZclError::ValueOutOfRange));
    }
}

#[test]
fn enum_duplicate_value_first_wins() {
    let text = "enum8 Dup {\n\
                1 First\n\
                1 Second\n\
                }\n";
    let registry = compiled(text);
    let en = &registry.global_enums[0];
    let idx = en.decode(1).unwrap();
    assert_eq!(idx, 0);
    assert_eq!(en.variants[idx].name, b"First".to_vec());
}

#[test]
fn enum_default_uses_sentinel() {
    let text = "attr 0xfffe AttributeReportingStatus enum8 R non O\n";
    let registry = compiled(text);
    assert_eq!(registry.global_attributes.len(), 1);
    let attr = &registry.global_attributes[0];
    assert_eq!(attr.code, 0xfffe);
    assert!(!attr.mandatory);
    assert_eq!(attr.default, Some(TypedValue::Enumerant(0xff)));
    assert_eq!(attr.range, AttributeRange::Ignore);
}

#[test]
fn enum_default_literal_decodes() {
    let text = "cluster Basic 0x0000 {\n\
                enum8 PowerSource {\n\
                0 Unknown\n\
                1 Mains\n\
                }\n\
                attr 0x0007 PowerSource enum8 R 1 M\n\
                }\n";
    let registry = compiled(text);
    let attr = &registry.clusters[0].attributes[0];
    assert_eq!(attr.default, Some(TypedValue::Enumerant(1)));
}

#[test]
fn enum_default_undeclared_value_fails() {
    let text = "cluster Basic 0x0000 {\n\
                enum8 PowerSource {\n\
                0 Unknown\n\
                }\n\
                attr 0x0007 PowerSource enum8 R 5 M\n\
                }\n";
    assert_eq!(compile_err(text), CompileError::InvalidLiteral { line: 5 });
}

#[test]
fn signed_bound_reinterpreted() {
    let text = "cluster Temperature 0x0402 {\n\
                attr 0x0000 MeasuredValue int8 0x80 0xff R non M\n\
                }\n";
    let registry = compiled(text);
    let attr = &registry.clusters[0].attributes[0];
    assert_eq!(
        attr.range,
        AttributeRange::InclusiveRange(IntValue::Signed(-128), IntValue::Signed(-1))
    );
    assert_eq!(attr.default, Some(TypedValue::Int(IntValue::Signed(i8::MIN as i64))));
}

#[test]
fn signed_sixteen_bit_bounds() {
    let text = "cluster Temperature 0x0402 {\n\
                attr 0x0000 MeasuredValue int16 0x954d 0x7ffe R non M\n\
                }\n";
    let registry = compiled(text);
    let attr = &registry.clusters[0].attributes[0];
    assert_eq!(
        attr.range,
        AttributeRange::InclusiveRange(IntValue::Signed(-27315), IntValue::Signed(32766))
    );
}

#[test]
fn bound_reference_resolves() {
    let text = "cluster Temperature 0x0402 {\n\
                attr 0x0000 MeasuredValue int16 MinMeasuredValue,MaxMeasuredValue R non M\n\
                attr 0x0001 MinMeasuredValue int16 0x954d 0x7ffe R non M\n\
                attr 0x0002 MaxMeasuredValue int16 0x954e 0x7fff R non M\n\
                }\n";
    let registry = compiled(text);
    let attr = &registry.clusters[0].attributes[0];
    assert_eq!(attr.range, AttributeRange::InclusiveRangeReference(0x0001, 0x0002));
}

#[test]
fn bound_reference_two_tokens_resolves() {
    let text = "cluster Temperature 0x0402 {\n\
                attr 0x0000 MeasuredValue int16 MinMeasuredValue MaxMeasuredValue R non M\n\
                attr 0x0001 MinMeasuredValue int16 0x954d 0x7ffe R non M\n\
                attr 0x0002 MaxMeasuredValue int16 0x954e 0x7fff R non M\n\
                }\n";
    let registry = compiled(text);
    let attr = &registry.clusters[0].attributes[0];
    assert_eq!(attr.range, AttributeRange::InclusiveRangeReference(0x0001, 0x0002));
}

#[test]
fn bound_reference_missing_name_fails() {
    let text = "cluster Temperature 0x0402 {\n\
                attr 0x0000 MeasuredValue int16 MinMeasuredValue,MaxMeasuredValue R non M\n\
                attr 0x0001 MinMeasuredValue int16 0x954d 0x7ffe R non M\n\
                }\n";
    assert_eq!(compile_err(text), CompileError::UnresolvedBoundReference { line: 2 });
}

#[test]
fn bound_reference_without_cluster_fails() {
    let text = "attr 0x0000 MeasuredValue int16 Lo,Hi R non M\n";
    assert_eq!(compile_err(text), CompileError::UnresolvedBoundReference { line: 1 });
}

#[test]
fn string_size_bound() {
    let text = "cluster Basic 0x0000 {\n\
                attr 0x0004 ManufacturerName string 32 R \"\" O\n\
                }\n";
    let registry = compiled(text);
    let attr = &registry.clusters[0].attributes[0];
    assert_eq!(attr.range, AttributeRange::Size(32));
    assert_eq!(attr.default, Some(TypedValue::Chars(Some(Vec::new()))));
}

#[test]
fn string_size_bound_must_be_integer() {
    let text = "cluster Basic 0x0000 {\n\
                attr 0x0004 ManufacturerName string big R \"\" O\n\
                }\n";
    assert_eq!(compile_err(text), CompileError::InvalidLiteral { line: 2 });
}

#[test]
fn string_default_keeps_text() {
    let text = "cluster Basic 0x0000 {\n\
                attr 0x0005 ModelIdentifier string 32 R \"lamp\" O\n\
                }\n";
    let registry = compiled(text);
    let attr = &registry.clusters[0].attributes[0];
    assert_eq!(attr.default, Some(TypedValue::Chars(Some(b"lamp".to_vec()))));
}

#[test]
fn range_shorthands() {
    let text = "attr 0x0000 A uint8 - R 0 O\n\
                attr 0x0001 B uint8 value R 0 O\n\
                attr 0x0002 C uint8 full R 0 O\n\
                attr 0x0003 D uint8 full-non R 0 O\n\
                attr 0x0004 E bool full-non RW true O\n";
    let registry = compiled(text);
    let attrs = &registry.global_attributes;
    assert_eq!(attrs[0].range, AttributeRange::Ignore);
    assert_eq!(attrs[1].range, AttributeRange::Value);
    assert_eq!(attrs[2].range, AttributeRange::Full);
    assert_eq!(attrs[3].range, AttributeRange::FullWithNone);
    assert_eq!(attrs[4].range, AttributeRange::FullWithNone);
    assert_eq!(attrs[4].default, Some(TypedValue::Boolean(Some(true))));
    assert!(attrs[4].writable);
}

#[test]
fn absent_range_is_ignored() {
    let text = "attr 0x000b ProductUrl string R \"\" O\n";
    let registry = compiled(text);
    assert_eq!(registry.global_attributes[0].range, AttributeRange::Ignore);
}

#[test]
fn cluster_revision_global_attribute() {
    let text = "attr 0xfffd ClusterRevision uint16 0x0001 0xfffe R 0x0000 M\n";
    let registry = compiled(text);
    let attr = &registry.global_attributes[0];
    assert_eq!(attr.code, 0xfffd);
    assert!(attr.mandatory);
    assert_eq!(
        attr.range,
        AttributeRange::InclusiveRange(IntValue::Unsigned(1), IntValue::Unsigned(0xfffe))
    );
    assert_eq!(attr.default, Some(TypedValue::Int(IntValue::Unsigned(0))));
}

#[test]
fn non_default_on_unsigned_is_type_max() {
    let text = "attr 0x0000 Token uint16 - R non O\n";
    let registry = compiled(text);
    let attr = &registry.global_attributes[0];
    assert_eq!(attr.default, Some(TypedValue::Int(IntValue::Unsigned(0xffff))));
}

#[test]
fn non_default_without_sentinel_fails() {
    let text = "attr 0x0000 Mask map8 - R non O\n";
    assert_eq!(compile_err(text), CompileError::MissingSentinel { line: 1 });
}

#[test]
fn bitmap_bound_out_of_width_fails() {
    let text = "attr 0x0000 Mask map8 0x00 0x100 R 0 O\n";
    assert_eq!(compile_err(text), CompileError::InvalidLiteral { line: 1 });
}

#[test]
fn malformed_attribute_record_is_dropped() {
    let text = "attr 0x0000 TooFew\n\
                attr 0x0001 Ok uint8 - R 0 O\n";
    let (registry, diagnostics) = compile(&text.as_bytes().to_vec()).unwrap();
    assert_eq!(diagnostics.len(), 1);
    assert_eq!(diagnostics[0].line, 1);
    assert_eq!(registry.global_attributes.len(), 1);
    assert_eq!(registry.global_attributes[0].name, b"Ok".to_vec());
}

#[test]
fn stray_closer_fails() {
    let text = "}\n";
    assert_eq!(compile_err(text), CompileError::UnbalancedScope { line: 1 });
}

#[test]
fn unterminated_cluster_fails() {
    let text = "cluster Basic 0x0000 {\n";
    assert_eq!(compile_err(text), CompileError::UnbalancedScope { line: 1 });
}

#[test]
fn unterminated_enum_fails() {
    let text = "enum8 Status {\n0 Fine\n";
    assert_eq!(compile_err(text), CompileError::UnbalancedScope { line: 1 });
}

#[test]
fn opener_inside_enum_fails() {
    let text = "enum8 Status {\n\
                cluster Basic 0x0000 {\n\
                }\n";
    assert_eq!(compile_err(text), CompileError::UnbalancedScope { line: 2 });
}

#[test]
fn enum_body_with_bad_value_fails() {
    let text = "enum8 Status {\nzero Fine\n}\n";
    assert_eq!(compile_err(text), CompileError::InvalidLiteral { line: 2 });
}

#[test]
fn enum_value_beyond_width_fails() {
    let text = "enum8 Status {\n0x100 TooBig\n}\n";
    assert_eq!(compile_err(text), CompileError::InvalidLiteral { line: 2 });
}

#[test]
fn enum_closes_before_cluster() {
    let text = "cluster Basic 0x0000 {\n\
                enum8 Inner {\n\
                0 Zero\n\
                }\n\
                attr 0x0000 After uint8 - R 0 O\n\
                }\n";
    let registry = compiled(text);
    let cluster = &registry.clusters[0];
    assert_eq!(cluster.enums.len(), 1);
    assert_eq!(cluster.enums[0].name, b"Inner".to_vec());
    assert_eq!(cluster.attributes.len(), 1);
    assert!(registry.global_enums.is_empty());
}

#[test]
fn qualified_enum_tag_names_enum() {
    let text = "enum8 ReportingStatus {\n\
                0 Pending\n\
                }\n\
                attr 0xfffe AttributeReportingStatus enum8:ReportingStatus R 0 O\n";
    let registry = compiled(text);
    let attr = &registry.global_attributes[0];
    assert_eq!(attr.default, Some(TypedValue::Enumerant(0)));
    match &attr.wire_type.domain {
        zcl_schema::wiretype::Domain::Enumeration { wide, name } => {
            assert!(!wide);
            assert_eq!(name, &b"ReportingStatus".to_vec());
        }
        other => panic!("unexpected domain {:?}", other),
    }
}

#[test]
fn cluster_local_enum_shadows_global() {
    let text = "enum8 Mode {\n\
                0 GlobalOnly\n\
                }\n\
                cluster Thing 0x0001 {\n\
                enum8 Mode {\n\
                0 LocalZero\n\
                1 LocalOne\n\
                }\n\
                attr 0x0000 Mode enum8 R 1 O\n\
                }\n";
    let registry = compiled(text);
    let attr = &registry.clusters[0].attributes[0];
    assert_eq!(attr.default, Some(TypedValue::Enumerant(1)));
}

#[test]
fn attribute_code_must_fit_sixteen_bits() {
    let text = "attr 0x10000 Big uint8 - R 0 O\n";
    assert_eq!(compile_err(text), CompileError::InvalidLiteral { line: 1 });
}

#[test]
fn range_bound_accessors() {
    let immediate = AttributeRange::InclusiveRange(IntValue::Signed(-5), IntValue::Signed(5));
    assert_eq!(
        immediate.min_bound(),
        Some(ValueOrAttributeReference::Value(IntValue::Signed(-5)))
    );
    assert_eq!(
        immediate.max_bound(),
        Some(ValueOrAttributeReference::Value(IntValue::Signed(5)))
    );
    let by_name = AttributeRange::InclusiveRangeReference(0x0001, 0x0002);
    assert_eq!(
        by_name.min_bound(),
        Some(ValueOrAttributeReference::AttributeReference(0x0001))
    );
    assert_eq!(
        by_name.max_bound(),
        Some(ValueOrAttributeReference::AttributeReference(0x0002))
    );
    assert_eq!(AttributeRange::Full.min_bound(), None);
    assert_eq!(AttributeRange::Size(3).max_bound(), None);
}

#[test]
fn empty_input_compiles_to_empty_registry() {
    let registry = compiled("");
    assert!(registry.global_attributes.is_empty());
    assert!(registry.clusters.is_empty());
    assert!(registry.global_enums.is_empty());
}

#[test]
fn comments_and_blank_lines_are_skipped() {
    let text = "\n# a comment\n   \n# another\n";
    let registry = compiled(text);
    assert!(registry.global_attributes.is_empty());
}

#[test]
fn carriage_returns_are_whitespace() {
    let text = "cluster Basic 0x0000 {\r\nattr 0x0000 ZclVersion uint8 0x00 0xff R 8 M\r\n}\r\n";
    let registry = compiled(text);
    assert_eq!(registry.clusters[0].attributes[0].code, 0x0000);
}

#[test]
fn attribute_record_with_too_many_fields_is_dropped() {
    let text = "attr 0x0000 A uint8 0x00 0xff R 8 M extra extra2\n";
    let (registry, diagnostics) = compile(&text.as_bytes().to_vec()).unwrap();
    assert_eq!(diagnostics.len(), 1);
    assert!(registry.global_attributes.is_empty());
}

#[test]
fn cluster_attrs_lists_names_and_type_tags() {
    let text = "cluster Basic 0x0000 {\n\
                attr 0x0000 ZclVersion uint8 0x00 0xff R 8 M\n\
                attr 0x0004 ManufacturerName string 32 R \"\" O\n\
                }\n";
    let registry = compiled(text);
    let pairs = registry.clusters[0].attrs();
    assert_eq!(pairs.len(), 2);
    assert_eq!(pairs[0], (b"ZclVersion".to_vec(), 0x20));
    assert_eq!(pairs[1], (b"ManufacturerName".to_vec(), 0x42));
}

#[test]
fn oversized_literal_bound_is_invalid_not_a_name() {
    let text = "cluster Big 0x0001 {\n\
                attr 0x0000 Value uint64 0x10000000000000000,5 R 0 O\n\
                attr 0x0001 Other uint64 0 5 R 0 O\n\
                }\n";
    assert_eq!(compile_err(text), CompileError::InvalidLiteral { line: 2 });
}

#[test]
fn merged_range_token_with_comma() {
    let text = "attr 0x0000 ZclVersion uint8 0x00,0xff R 8 M\n";
    let registry = compiled(text);
    assert_eq!(
        registry.global_attributes[0].range,
        AttributeRange::InclusiveRange(IntValue::Unsigned(0), IntValue::Unsigned(255))
    );
}

#[test]
fn several_clusters_in_order() {
    let text = "cluster Basic 0x0000 {\n\
                attr 0x0000 ZclVersion uint8 0x00 0xff R 8 M\n\
                }\n\
                cluster Identify 0x0003 {\n\
                attr 0x0000 IdentifyTime uint16 0x0000 0xffff RW 0 M\n\
                }\n\
                attr 0xfffd ClusterRevision uint16 0x0001 0xfffe R 0x0000 M\n";
    let registry = compiled(text);
    assert_eq!(registry.clusters.len(), 2);
    assert_eq!(registry.clusters[0].name, b"Basic".to_vec());
    assert_eq!(registry.clusters[1].name, b"Identify".to_vec());
    assert_eq!(registry.clusters[1].code, 0x0003);
    assert!(registry.clusters[1].attributes[0].writable);
    assert_eq!(registry.global_attributes.len(), 1);
    assert_eq!(registry.global_attributes[0].code, 0xfffd);
}

#[test]
fn comment_inside_enum_body_is_skipped() {
    let text = "enum8 Status {\n\
                # zero means fine\n\
                0 Fine\n\
                }\n";
    let registry = compiled(text);
    assert_eq!(registry.global_enums[0].variants.len(), 2);
    assert_eq!(registry.global_enums[0].variants[0].name, b"Fine".to_vec());
}

#[test]
fn compile_is_deterministic() {
    let text = "cluster Basic 0x0000 {\n\
                attr 0x0000 ZclVersion uint8 0x00 0xff R 8 M\n\
                }\n";
    let first = compile(&text.as_bytes().to_vec()).unwrap();
    let second = compile(&text.as_bytes().to_vec()).unwrap();
    assert_eq!(first, second);
}
