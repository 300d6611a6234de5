use sourcepawn_lsp::call_hierarchy::{
    call_item_from_parts, callee_choice, callee_node, enclosing_function_position,
    group_call_ranges, incoming_call_groups, incoming_call_items, is_definition_site,
    is_function_container, outgoing_call_groups, outgoing_call_items, symbol_kind, CallItem,
    CalleeChoice, FunctionType, SymbolKind,
};
use sourcepawn_lsp::db::FunctionId;
use sourcepawn_lsp::item_tree::FileId;
use sourcepawn_lsp::lsp::{Position, Range};
use sourcepawn_lsp::syntax_kind::TSKind;
use sourcepawn_lsp::ts::TextError;

fn range(l: u32, a: u32, b: u32) -> Range {
    Range { start: Position { line: l, character: a }, end: Position { line: l, character: b } }
}

fn parse(source: &str) -> tree_sitter::Tree {
    let mut parser = tree_sitter::Parser::new();
    parser.set_language(&tree_sitter_sourcepawn::language()).unwrap();
    parser.parse(source, None).unwrap()
}

fn calls<'t>(node: tree_sitter::Node<'t>, out: &mut Vec<tree_sitter::Node<'t>>) {
    if node.kind() == "call_expression" {
        out.push(node);
    }
    for i in 0..node.named_child_count() {
        calls(node.named_child(i).unwrap(), out);
    }
}

#[test]
fn function_kinds_show_as_symbols() {
    assert_eq!(symbol_kind(FunctionType::Function), SymbolKind::Function);
    assert_eq!(symbol_kind(FunctionType::Constructor), SymbolKind::Constructor);
    assert_eq!(symbol_kind(FunctionType::Destructor), SymbolKind::Destructor);
    assert_eq!(symbol_kind(FunctionType::Method), SymbolKind::Method);
    assert_eq!(symbol_kind(FunctionType::Getter), SymbolKind::Method);
    assert_eq!(symbol_kind(FunctionType::Setter), SymbolKind::Method);
}

#[test]
fn function_containers_are_recognised() {
    assert!(is_function_container(Some(TSKind::function_definition)));
    assert!(is_function_container(Some(TSKind::methodmap_property_getter)));
    assert!(is_function_container(Some(TSKind::enum_struct_method)));
    assert!(!is_function_container(Some(TSKind::block)));
    assert!(!is_function_container(Some(TSKind::methodmap_property)));
    assert!(!is_function_container(None));
}

#[test]
fn enclosing_function_is_the_nearest_container_below_the_root() {
    let ancestors = vec![
        Some(TSKind::expression_statement),
        Some(TSKind::block),
        Some(TSKind::function_definition),
        Some(TSKind::source_file),
    ];
    assert_eq!(enclosing_function_position(&ancestors), Some(2));
    let nested = vec![
        Some(TSKind::block),
        Some(TSKind::methodmap_property_getter),
        Some(TSKind::methodmap_property),
        Some(TSKind::methodmap),
        Some(TSKind::source_file),
    ];
    assert_eq!(enclosing_function_position(&nested), Some(1));
    let none = vec![Some(TSKind::global_variable_declaration), Some(TSKind::source_file)];
    assert_eq!(enclosing_function_position(&none), None);
    let root_only = vec![Some(TSKind::function_definition)];
    assert_eq!(enclosing_function_position(&root_only), None);
    assert_eq!(enclosing_function_position(&vec![]), None);
}

#[test]
fn callee_choice_by_kind() {
    assert_eq!(callee_choice(Some(TSKind::identifier)), CalleeChoice::Itself);
    assert_eq!(callee_choice(Some(TSKind::field_access)), CalleeChoice::Field);
    assert_eq!(callee_choice(Some(TSKind::builtin_type)), CalleeChoice::Skip);
    assert_eq!(callee_choice(None), CalleeChoice::Skip);
}

#[test]
fn callee_nodes_of_parsed_calls() {
    let source = "void f() {\n    g(1);\n    h(g(2));\n}\n";
    let tree = parse(source);
    let mut found = Vec::new();
    calls(tree.root_node(), &mut found);
    assert_eq!(found.len(), 3);
    let first = callee_node(&found[0]).unwrap();
    assert_eq!(first.utf8_text(source.as_bytes()).unwrap(), "g");
    let second = callee_node(&found[1]).unwrap();
    assert_eq!(second.utf8_text(source.as_bytes()).unwrap(), "h");
    let third = callee_node(&found[2]).unwrap();
    assert_eq!(third.start_position().row, 2);
}

#[test]
fn definition_site_is_the_name_itself() {
    assert!(is_definition_site(FileId(1), range(3, 4, 7), FileId(1), range(3, 4, 7)));
    assert!(!is_definition_site(FileId(2), range(3, 4, 7), FileId(1), range(3, 4, 7)));
    assert!(!is_definition_site(FileId(1), range(3, 4, 8), FileId(1), range(3, 4, 7)));
}

#[test]
fn call_item_needs_readable_text() {
    let item = call_item_from_parts(
        Ok("void f()".to_string()),
        FunctionType::Getter,
        true,
        "void f()".to_string(),
        FileId(3),
        range(0, 0, 10),
        Some(range(0, 5, 6)),
        FunctionId(8),
    )
    .unwrap();
    assert_eq!(item.name, "void f()");
    assert_eq!(item.kind, SymbolKind::Method);
    assert!(item.deprecated);
    assert_eq!(item.file_id, FileId(3));
    assert_eq!(item.focus_range, Some(range(0, 5, 6)));
    assert_eq!(item.data, Some(FunctionId(8)));
    assert!(call_item_from_parts(
        Err(TextError::InvalidUtf8),
        FunctionType::Function,
        false,
        String::new(),
        FileId(3),
        range(0, 0, 10),
        None,
        FunctionId(8),
    )
    .is_none());
}

#[test]
fn call_ranges_are_grouped_by_function() {
    let groups = group_call_ranges(vec![
        (FunctionId(2), range(1, 0, 1)),
        (FunctionId(5), range(2, 0, 1)),
        (FunctionId(2), range(3, 0, 1)),
        (FunctionId(2), range(4, 0, 1)),
    ]);
    assert_eq!(groups.len(), 2);
    assert_eq!(groups[0].0, FunctionId(2));
    assert_eq!(groups[0].1, vec![range(1, 0, 1), range(3, 0, 1), range(4, 0, 1)]);
    assert_eq!(groups[1].0, FunctionId(5));
    assert_eq!(groups[1].1, vec![range(2, 0, 1)]);
    assert!(group_call_ranges(vec![]).is_empty());
}

fn item(name: &str, id: u32) -> CallItem {
    call_item_from_parts(
        Ok(name.to_string()),
        FunctionType::Function,
        false,
        name.to_string(),
        FileId(0),
        range(0, 0, 1),
        None,
        FunctionId(id),
    )
    .unwrap()
}

#[test]
fn outgoing_calls_skip_unresolved_callees() {
    let groups = outgoing_call_groups(vec![
        (Some(FunctionId(1)), range(1, 4, 5)),
        (None, range(2, 4, 5)),
        (Some(FunctionId(3)), range(3, 4, 5)),
        (Some(FunctionId(1)), range(4, 4, 5)),
    ]);
    assert_eq!(groups.len(), 2);
    assert_eq!(groups[0], (FunctionId(1), vec![range(1, 4, 5), range(4, 4, 5)]));
    assert_eq!(groups[1], (FunctionId(3), vec![range(3, 4, 5)]));
}

#[test]
fn incoming_calls_skip_the_definition_and_top_level_references() {
    let name_range = range(0, 5, 6);
    let groups = incoming_call_groups(
        vec![
            (FileId(0), name_range, Some(FunctionId(9))),
            (FileId(1), name_range, Some(FunctionId(2))),
            (FileId(0), range(7, 2, 3), None),
            (FileId(0), range(8, 2, 3), Some(FunctionId(2))),
            (FileId(0), range(9, 2, 3), Some(FunctionId(4))),
        ],
        FileId(0),
        name_range,
    );
    assert_eq!(groups.len(), 2);
    assert_eq!(groups[0], (FunctionId(2), vec![name_range, range(8, 2, 3)]));
    assert_eq!(groups[1], (FunctionId(4), vec![range(9, 2, 3)]));
}

#[test]
fn call_items_keep_the_groups_whose_function_has_an_item() {
    let groups = vec![
        (FunctionId(2), vec![range(1, 0, 1)]),
        (FunctionId(4), vec![range(2, 0, 1)]),
        (FunctionId(6), vec![range(3, 0, 1), range(4, 0, 1)]),
    ];
    let items = vec![Some(item("a", 2)), None, Some(item("c", 6))];
    let incoming = incoming_call_items(groups.clone(), items.clone());
    assert_eq!(incoming.len(), 2);
    assert_eq!(incoming[0].call_item, item("a", 2));
    assert_eq!(incoming[0].ranges, vec![range(1, 0, 1)]);
    assert_eq!(incoming[1].call_item, item("c", 6));
    assert_eq!(incoming[1].ranges, vec![range(3, 0, 1), range(4, 0, 1)]);
    let outgoing = outgoing_call_items(groups, items);
    assert_eq!(outgoing.len(), 2);
    assert_eq!(outgoing[1].call_item.name, "c");
}
