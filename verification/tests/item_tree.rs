use sourcepawn_lsp::db::{DefDatabase, FunctionId, ItemTreeId, Lookup, TreeId};
use sourcepawn_lsp::item_tree::{
    Enum, EnumStruct, EnumStructItemId, Field, FileId, FileItem, FileItemTreeId, Function, IdxSpan,
    ItemTree, Macro, Name, Param, RawVisibilityId, Variable, Variant,
};
use sourcepawn_lsp::pretty::{print_item_tree, Printer};
use sourcepawn_lsp::type_ref::TypeRef;

fn name(s: &str) -> Name {
    Name(s.to_string())
}

fn sample_tree() -> ItemTree {
    let mut tree = ItemTree::new();
    let m = tree.alloc_macro(Macro { name: name("FOO"), ast_id: 1 });
    let v = tree.alloc_variable(Variable { name: name("g_x"), ts_node_id: 0 });
    tree.alloc_param(Param { type_ref: Some(TypeRef::Int), ast_id: 3 });
    tree.alloc_param(Param { type_ref: None, ast_id: 4 });
    let f = tree.alloc_function(Function {
        name: name("Add"),
        visibility: RawVisibilityId { public: true, stock: true, static_: false },
        ret_type: Some(TypeRef::Int),
        params: IdxSpan { start: 0, end: 2 },
        ast_id: 2,
        ts_node_id: 0,
    });
    tree.alloc_variant(Variant { name: name("Red"), ast_id: 6 });
    tree.alloc_variant(Variant { name: name("Green"), ast_id: 7 });
    let e = tree.alloc_enum(Enum { name: name("Color"), variants: IdxSpan { start: 0, end: 2 }, ast_id: 5 });
    let x = tree.alloc_field(Field { name: name("x"), type_ref: TypeRef::Float, ast_id: 9 });
    let len = tree.alloc_function(Function {
        name: name("Len"),
        visibility: RawVisibilityId::none(),
        ret_type: None,
        params: IdxSpan { start: 2, end: 2 },
        ast_id: 10,
        ts_node_id: 0,
    });
    let es = tree.alloc_enum_struct(EnumStruct {
        name: name("Point"),
        items: vec![EnumStructItemId::Field(x), EnumStructItemId::Method(len)],
        ast_id: 8,
    });
    tree.push_top_level(FileItem::Macro(FileItemTreeId::new(m)));
    tree.push_top_level(FileItem::Variable(FileItemTreeId::new(v)));
    tree.push_top_level(FileItem::Function(FileItemTreeId::new(f)));
    tree.push_top_level(FileItem::Enum(FileItemTreeId::new(e)));
    tree.push_top_level(FileItem::EnumStruct(FileItemTreeId::new(es)));
    tree.push_top_level(FileItem::Variant(FileItemTreeId::new(0)));
    tree
}

#[test]
fn print_item_tree_prints_every_item() {
    let db = DefDatabase::new();
    let tree = sample_tree();
    let text = print_item_tree(&db, &tree);
    let expected = [
        "// 1\n#define FOO\n",
        "g_x\n",
        "// 2\npublic stock int Add(\n  // 3\n  int,) {\n  /* body */\n}\n",
        "// 5\nenum Color {\n  // 6\n  Red,\n  // 7\n  Green,\n  };\n",
        "// 8\nPoint {\n  // 8\n  float x;\n  // 10\n  Len() {\n    /* body */\n  }\n  \n}\n",
    ]
    .join("");
    assert_eq!(text, expected);
}

#[test]
fn print_item_tree_of_empty_tree_is_empty() {
    let db = DefDatabase::new();
    let tree = ItemTree::new();
    assert_eq!(print_item_tree(&db, &tree), "");
}

#[test]
fn printer_prints_single_items() {
    let tree = sample_tree();
    let mut printer = Printer::new(&tree);
    printer.print_macro(&FileItemTreeId::new(0));
    assert_eq!(printer.into_string(), "// 1\n#define FOO\n");

    let mut printer = Printer::new(&tree);
    printer.print_enum(&FileItemTreeId::new(0));
    assert_eq!(printer.into_string(), "// 5\nenum Color {\n  // 6\n  Red,\n  // 7\n  Green,\n  };\n");

    let mut printer = Printer::new(&tree);
    printer.print_function(&FileItemTreeId::new(1));
    assert_eq!(printer.into_string(), "// 10\nLen() {\n  /* body */\n}\n");

    let mut printer = Printer::new(&tree);
    printer.print_enum_struct(&FileItemTreeId::new(0));
    assert_eq!(
        printer.into_string(),
        "// 8\nPoint {\n  // 8\n  float x;\n  // 10\n  Len() {\n    /* body */\n  }\n  \n}\n"
    );
}

#[test]
fn printer_indent_then_dedent_restores_the_level() {
    let tree = ItemTree::new();
    let mut printer = Printer::new(&tree);
    printer.indent();
    printer.newline();
    printer.push("a");
    printer.dedent();
    printer.newline();
    printer.push("b");
    assert_eq!(printer.indent_level, 0);
    assert_eq!(printer.into_string(), "\n  a\nb");
}

#[test]
fn visibility_text_lists_keywords() {
    let v = RawVisibilityId { public: true, stock: false, static_: true };
    assert_eq!(v.to_text(), "public static");
    assert!(!v.is_none());
    assert!(RawVisibilityId::none().is_none());
    assert_eq!(RawVisibilityId::none().to_text(), "");
}

#[test]
fn alloc_returns_consecutive_indices() {
    let mut tree = ItemTree::new();
    assert_eq!(tree.alloc_macro(Macro { name: name("A"), ast_id: 0 }), 0);
    assert_eq!(tree.alloc_macro(Macro { name: name("B"), ast_id: 1 }), 1);
    assert_eq!(tree.macro_at(1).name, name("B"));
    assert_eq!(tree.top_level_len(), 0);
}

#[test]
fn interning_gives_back_the_location() {
    let mut db = DefDatabase::new();
    let a: ItemTreeId<Function> = ItemTreeId::new(TreeId::new(FileId(3)), 7);
    let b: ItemTreeId<Function> = ItemTreeId::new(TreeId::new(FileId(4)), 7);
    let ia = db.intern_function(a);
    let ib = db.intern_function(b);
    let ia2 = db.intern_function(ItemTreeId::new(TreeId::new(FileId(3)), 7));
    assert_eq!(ia, FunctionId(0));
    assert_eq!(ib, FunctionId(1));
    assert_eq!(ia2, ia);
    assert!(db.lookup_intern_function(ia).eq_item(&a));
    assert!(ib.lookup(&db).eq_item(&b));
    assert_eq!(db.function_locs.len(), 2);
}

#[test]
fn item_tree_of_a_file_is_empty() {
    let db = DefDatabase::new();
    let id = TreeId::new(FileId(2));
    assert_eq!(id.file_id(), FileId(2));
    let tree = id.item_tree(&db);
    assert_eq!(tree.top_level_len(), 0);
    assert!(tree.data.is_none());
}
