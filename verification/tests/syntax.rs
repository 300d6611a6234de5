use sourcepawn_lsp::lsp::{Position, Range};
use sourcepawn_lsp::syntax_kind::{TSKind, TS_KIND_COUNT};
use sourcepawn_lsp::ts::{node_range, node_text, position_of_point, span_text, TextError};
use sourcepawn_lsp::type_ref::TypeRef;
use sourcepawn_lsp::item_tree::Name;

fn parse(source: &str) -> tree_sitter::Tree {
    let mut parser = tree_sitter::Parser::new();
    parser.set_language(&tree_sitter_sourcepawn::language()).unwrap();
    parser.parse(source, None).unwrap()
}

#[test]
fn kind_ids_round_trip() {
    for id in 0..TS_KIND_COUNT {
        let kind = TSKind::from_kind_id(id).unwrap();
        assert_eq!(kind.id(), id);
    }
    assert_eq!(TSKind::from_kind_id(TS_KIND_COUNT), None);
    assert_eq!(TSKind::from_kind_id(u16::MAX), None);
    assert_eq!(TSKind::identifier.id(), 1);
    assert_eq!(TSKind::from_kind_id(149), Some(TSKind::function_definition));
    assert_eq!(TSKind::anon_int.id(), 85);
}

#[test]
fn kind_of_parsed_nodes() {
    let source = "int f() {}";
    let tree = parse(source);
    let root = tree.root_node();
    assert_eq!(TSKind::from_node(&root), Some(TSKind::source_file));
    let function = root.named_child(0).unwrap();
    assert_eq!(TSKind::from_node(&function), Some(TSKind::function_definition));
    let name = function.child_by_field_name("name").unwrap();
    assert_eq!(TSKind::from_node(&name), Some(TSKind::identifier));
    assert_eq!(node_text(&name, source), Ok("f".to_string()));
    assert_eq!(
        node_range(&name),
        Range { start: Position { line: 0, character: 4 }, end: Position { line: 0, character: 5 } }
    );
}

#[test]
fn type_ref_texts() {
    assert_eq!(TypeRef::Int.to_str(), "int");
    assert_eq!(TypeRef::Bool.to_str(), "bool");
    assert_eq!(TypeRef::Float.to_str(), "float");
    assert_eq!(TypeRef::Char.to_str(), "char");
    assert_eq!(TypeRef::Void.to_str(), "void");
    assert_eq!(TypeRef::Any.to_str(), "any");
    assert_eq!(TypeRef::OldString.to_str(), "String");
    assert_eq!(TypeRef::OldFloat.to_str(), "Float");
    assert_eq!(TypeRef::Name(Name("Handle".to_string())).to_str(), "Handle");
}

#[test]
fn type_ref_of_keywords_and_names() {
    assert_eq!(TypeRef::keyword(TSKind::anon_int), Some(TypeRef::Int));
    assert_eq!(TypeRef::keyword(TSKind::anon_Float), Some(TypeRef::OldFloat));
    assert_eq!(TypeRef::keyword(TSKind::any_type), Some(TypeRef::Any));
    assert_eq!(TypeRef::keyword(TSKind::identifier), None);
    assert_eq!(TypeRef::from_kind(TSKind::anon_String, "String"), TypeRef::OldString);
    assert_eq!(
        TypeRef::from_kind(TSKind::identifier, "Handle"),
        TypeRef::Name(Name("Handle".to_string()))
    );
}

#[test]
fn type_ref_from_parts() {
    let source = "Handle h";
    assert_eq!(TypeRef::from_parts(TSKind::anon_void.id(), source, 0, 6), Ok(TypeRef::Void));
    assert_eq!(
        TypeRef::from_parts(TSKind::identifier.id(), source, 0, 6),
        Ok(TypeRef::Name(Name("Handle".to_string())))
    );
    assert_eq!(TypeRef::from_parts(TSKind::identifier.id(), source, 4, 20), Err(TextError::OutOfRange));
    assert_eq!(TypeRef::from_parts(TSKind::identifier.id(), source, 5, 4), Err(TextError::OutOfRange));
    assert_eq!(TypeRef::from_parts(u16::MAX, source, 7, 8), Ok(TypeRef::Name(Name("h".to_string()))));
}

#[test]
fn type_ref_from_parsed_node() {
    let source = "int f() {}\nHandle g() {}";
    let tree = parse(source);
    let root = tree.root_node();
    let f = root.named_child(0).unwrap();
    let ret = f.child_by_field_name("returnType").unwrap();
    let ret = if ret.named_child_count() > 0 { ret.named_child(0).unwrap() } else { ret };
    let t = TypeRef::from_node(&ret, source).unwrap();
    assert_eq!(t.to_str(), "int");
    let g = root.named_child(1).unwrap();
    let ret = g.child_by_field_name("returnType").unwrap();
    let t = TypeRef::from_node(&ret, source).unwrap();
    assert_eq!(t, TypeRef::Name(Name("Handle".to_string())));
}

#[test]
fn span_text_reads_and_refuses() {
    assert_eq!(span_text("héllo", 0, 1), Ok("h".to_string()));
    assert_eq!(span_text("héllo", 1, 3), Ok("é".to_string()));
    assert_eq!(span_text("héllo", 1, 2), Err(TextError::InvalidUtf8));
    assert_eq!(span_text("héllo", 3, 99), Err(TextError::OutOfRange));
    assert_eq!(span_text("", 0, 0), Ok(String::new()));
}

#[test]
fn positions_are_truncated_to_u32() {
    assert_eq!(position_of_point((3, 9)), Position { line: 3, character: 9 });
    assert_eq!(
        position_of_point(((u32::MAX as usize) + 2, 1)),
        Position { line: 1, character: 1 }
    );
}
