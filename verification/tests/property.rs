use sourcepawn_lsp::item_tree::FileId;
use sourcepawn_lsp::lsp::{Position, Range};
use sourcepawn_lsp::property::{
    LineOffsets, MethodmapItem, Offset, Parser, PropertyError, PropertyItem,
};
use sourcepawn_lsp::ts::TextError;

fn range(l: u32, a: u32, b: u32) -> Range {
    Range { start: Position { line: l, character: a }, end: Position { line: l, character: b } }
}

fn parser(source: &str) -> Parser {
    Parser::new(source.to_string(), "file:///w/a.sp".to_string(), FileId(5), vec![])
}

fn methodmap(name: &str) -> MethodmapItem {
    MethodmapItem { name: name.to_string(), children: vec![] }
}

fn item(name: &str, parent: &str) -> PropertyItem {
    PropertyItem {
        name: name.to_string(),
        range: range(0, 0, 1),
        v_range: range(0, 0, 1),
        full_range: range(0, 0, 9),
        v_full_range: range(0, 0, 9),
        type_: "int".to_string(),
        description: String::new(),
        uri: "file:///w/a.sp".to_string(),
        file_id: FileId(5),
        parent: parent.to_string(),
    }
}

fn parse(source: &str) -> tree_sitter::Tree {
    let mut parser = tree_sitter::Parser::new();
    parser.set_language(&tree_sitter_sourcepawn::language()).unwrap();
    parser.parse(source, None).unwrap()
}

fn find_kind<'t>(node: tree_sitter::Node<'t>, kind: &str) -> Option<tree_sitter::Node<'t>> {
    if node.kind() == kind {
        return Some(node);
    }
    for i in 0..node.named_child_count() {
        if let Some(found) = find_kind(node.named_child(i).unwrap(), kind) {
            return Some(found);
        }
    }
    None
}

#[test]
fn property_key_joins_parent_and_name() {
    assert_eq!(item("Size", "ArrayList").key(), "ArrayList-Size");
}

#[test]
fn property_from_parts_builds_the_item() {
    let p = parser("");
    let parent = methodmap("Foo");
    let r = p.property_from_parts(
        Some((Ok("Bar".to_string()), range(1, 17, 20))),
        Some(Ok("int".to_string())),
        range(1, 4, 40),
        Some("The bar.".to_string()),
        &parent,
    );
    let it = r.unwrap();
    assert_eq!(it.name, "Bar");
    assert_eq!(it.type_, "int");
    assert_eq!(it.range, range(1, 17, 20));
    assert_eq!(it.v_range, range(1, 17, 20));
    assert_eq!(it.full_range, range(1, 4, 40));
    assert_eq!(it.v_full_range, range(1, 4, 40));
    assert_eq!(it.description, "The bar.");
    assert_eq!(it.uri, "file:///w/a.sp");
    assert_eq!(it.file_id, FileId(5));
    assert_eq!(it.parent, "Foo");
    let it = p
        .property_from_parts(Some((Ok("B".to_string()), range(0, 0, 1))), Some(Ok("int".to_string())), range(0, 0, 1), None, &parent)
        .unwrap();
    assert_eq!(it.description, "");
}

#[test]
fn property_from_parts_reports_the_first_error() {
    let p = parser("");
    let parent = methodmap("Foo");
    let full = range(0, 0, 9);
    assert_eq!(
        p.property_from_parts(None, None, full, None, &parent),
        Err(PropertyError::NameMissing)
    );
    assert_eq!(
        p.property_from_parts(Some((Err(TextError::InvalidUtf8), full)), None, full, None, &parent),
        Err(PropertyError::Text(TextError::InvalidUtf8))
    );
    assert_eq!(
        p.property_from_parts(Some((Ok("a".to_string()), full)), None, full, None, &parent),
        Err(PropertyError::TypeMissing)
    );
    assert_eq!(
        p.property_from_parts(
            Some((Ok("a".to_string()), full)),
            Some(Err(TextError::OutOfRange)),
            full,
            None,
            &parent
        ),
        Err(PropertyError::Text(TextError::OutOfRange))
    );
    assert_eq!(PropertyError::NameMissing.message(), "Property name is empty.");
    assert_eq!(PropertyError::TypeMissing.message(), "Property type is empty.");
}

#[test]
fn declare_then_lookup_gives_back_the_item() {
    let mut p = parser("");
    p.declare("A-x".to_string(), item("x", "A"));
    p.declare("A-y".to_string(), item("y", "A"));
    assert_eq!(p.declaration(&"A-x".to_string()), Some(&item("x", "A")));
    let mut replaced = item("x", "A");
    replaced.type_ = "float".to_string();
    p.declare("A-x".to_string(), replaced.clone());
    assert_eq!(p.declaration(&"A-x".to_string()), Some(&replaced));
    assert_eq!(p.declaration(&"A-y".to_string()), Some(&item("y", "A")));
    assert_eq!(p.declaration(&"B-x".to_string()), None);
    assert_eq!(p.declarations.len(), 2);
}

#[test]
fn add_property_fills_parent_and_declarations() {
    let mut p = parser("");
    let mut parent = methodmap("A");
    p.add_property(&mut parent, item("x", "A"));
    assert_eq!(parent.children, vec![item("x", "A")]);
    assert_eq!(p.declaration(&"A-x".to_string()), Some(&item("x", "A")));
}

#[test]
fn parse_property_of_a_methodmap() {
    let source = "methodmap Foo {\n    property int Bar {\n        public get() { return 1; }\n    }\n}\n";
    let tree = parse(source);
    let node = find_kind(tree.root_node(), "methodmap_property").unwrap();
    let mut p = parser(source);
    let mut parent = methodmap("Foo");
    let r = p.parse_property(&node, &mut parent, Some("doc".to_string()));
    assert_eq!(r, Ok(()));
    assert_eq!(parent.children.len(), 1);
    let it = &parent.children[0];
    assert_eq!(it.name, "Bar");
    assert_eq!(it.type_, "int");
    assert_eq!(it.range, range(1, 17, 20));
    assert_eq!(it.full_range.start, Position { line: 1, character: 4 });
    assert_eq!(it.full_range.end, Position { line: 3, character: 5 });
    assert_eq!(it.description, "doc");
    assert_eq!(it.parent, "Foo");
    assert_eq!(p.declaration(&"Foo-Bar".to_string()), Some(it));
}

#[test]
fn parse_property_without_a_name_changes_nothing() {
    let source = "int x;\n";
    let tree = parse(source);
    let mut p = parser(source);
    let mut parent = methodmap("Foo");
    let r = p.parse_property(&tree.root_node(), &mut parent, None);
    assert_eq!(r, Err(PropertyError::NameMissing));
    assert!(parent.children.is_empty());
    assert!(p.declarations.is_empty());
}

fn offset_parser(source: &str) -> Parser {
    Parser::new(
        source.to_string(),
        "file:///w/a.sp".to_string(),
        FileId(5),
        vec![
            LineOffsets { line: 1, offsets: vec![Offset { col: 2, diff: 3 }, Offset { col: 30, diff: -4 }] },
            LineOffsets { line: 4, offsets: vec![Offset { col: 0, diff: 100 }] },
        ],
    )
}

#[test]
fn v_ranges_undo_the_preprocessing_offsets() {
    let p = offset_parser("");
    // On line 1 the change at column 2 lies before character 17; the one at 30 does not.
    assert_eq!(p.build_v_range(&range(1, 17, 20)), range(1, 14, 17));
    // Past column 30 both changes apply: 40 - 3 + 4.
    assert_eq!(p.build_v_range(&range(1, 0, 40)), range(1, 0, 41));
    // A change is taken off only where its column lies before the character.
    assert_eq!(p.build_v_range(&range(1, 2, 2)), range(1, 2, 2));
    // The result is held at zero.
    assert_eq!(p.build_v_range(&range(4, 5, 200)), range(4, 0, 100));
    // Lines without changes keep their positions.
    assert_eq!(p.build_v_range(&range(2, 17, 20)), range(2, 17, 20));
}

#[test]
fn parsed_property_has_v_ranges() {
    let source = "methodmap Foo {\n    property int Bar {\n        public get() { return 1; }\n    }\n}\n";
    let tree = parse(source);
    let node = find_kind(tree.root_node(), "methodmap_property").unwrap();
    let mut p = offset_parser(source);
    let mut parent = methodmap("Foo");
    assert_eq!(p.parse_property(&node, &mut parent, None), Ok(()));
    let it = &parent.children[0];
    assert_eq!(it.range, range(1, 17, 20));
    assert_eq!(it.v_range, range(1, 14, 17));
    assert_eq!(it.full_range.start, Position { line: 1, character: 4 });
    assert_eq!(it.v_full_range.start, Position { line: 1, character: 1 });
    assert_eq!(it.v_full_range.end, it.full_range.end);
}
