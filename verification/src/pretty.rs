//! A textual rendering of an item tree, used to inspect what a file declares.
//!
//! The text of each item is stated below as a spec function of the tree and
//! the indentation level at which the item is printed; every printing method
//! appends exactly that text and leaves the indentation level as it found it.

use vstd::prelude::*;

use crate::item_tree::{
    EnumStructItemId, Enum, EnumStruct, FileItem, FileItemTreeId, Function, ItemTree, Macro,
    Param, Variant,
};
use crate::db::DefDatabase;
use crate::text::{decimal, newline_text, push_decimal, push_newline};

verus! {

/// `// <ast id>`: the comment that precedes every printed item.
pub open spec fn comment_text(ast_id: u32) -> Seq<char> {
    "// "@ + decimal(ast_id as nat)
}

/// The text of a macro printed at `level`.
pub open spec fn macro_text(m: Macro, level: nat) -> Seq<char> {
    comment_text(m.ast_id) + newline_text(level) + "#define "@ + m.name.0@ + newline_text(level)
}

/// The text of one enum variant printed at `level`.
pub open spec fn variant_text(v: Variant, level: nat) -> Seq<char> {
    comment_text(v.ast_id) + newline_text(level) + v.name.0@ + ","@ + newline_text(level)
}

/// The texts of `vs`, one after the other, printed at `level`.
pub open spec fn variants_text(vs: Seq<Variant>, level: nat) -> Seq<char>
    decreases vs.len(),
{
    if vs.len() == 0 {
        Seq::empty()
    } else {
        variants_text(vs.drop_last(), level) + variant_text(vs.last(), level)
    }
}

/// The variants that `e` ranges over in `tree`.
pub open spec fn enum_variants(tree: ItemTree, e: Enum) -> Seq<Variant> {
    tree.spec_variants().subrange(e.variants.start as int, e.variants.end as int)
}

/// The text of an enum printed at `level`: its header, its variants one
/// level deeper, and the closing `};`.
pub open spec fn enum_text(tree: ItemTree, e: Enum, level: nat) -> Seq<char> {
    comment_text(e.ast_id) + newline_text(level) + "enum "@ + e.name.0@ + " {"@ + newline_text(
        level + 1,
    ) + variants_text(enum_variants(tree, e), level + 1) + "};"@ + newline_text(level)
}

/// An enum prints exactly the variants of its own range, in order: as many
/// as its range is long, the `i`-th being the variant at `start + i` of the
/// tree's variant arena, and no variant of another enum.
pub proof fn lemma_enum_variants(tree: ItemTree, e: Enum)
    requires
        e.variants.within(tree.spec_variants().len()),
    ensures
        enum_variants(tree, e).len() == e.variants.end - e.variants.start,
        forall|i: int|
            0 <= i < enum_variants(tree, e).len() ==> #[trigger] enum_variants(tree, e)[i]
                == tree.spec_variants()[e.variants.start + i],
        enum_text(tree, e, 0) == comment_text(e.ast_id) + newline_text(0) + "enum "@ + e.name.0@
            + " {"@ + newline_text(1) + variants_text(enum_variants(tree, e), 1) + "};"@
            + newline_text(0),
{
}

/// The text of one parameter printed at `level`; a parameter without a type
/// prints nothing.
pub open spec fn param_text(p: Param, level: nat) -> Seq<char> {
    match p.type_ref {
        Some(t) => newline_text(level) + comment_text(p.ast_id) + newline_text(level) + t.spec_text()
            + ","@,
        None => Seq::empty(),
    }
}

/// The texts of `ps`, one after the other, printed at `level`.
pub open spec fn params_text(ps: Seq<Param>, level: nat) -> Seq<char>
    decreases ps.len(),
{
    if ps.len() == 0 {
        Seq::empty()
    } else {
        params_text(ps.drop_last(), level) + param_text(ps.last(), level)
    }
}

/// The parameters that `f` ranges over in `tree`.
pub open spec fn function_params(tree: ItemTree, f: Function) -> Seq<Param> {
    tree.spec_params().subrange(f.params.start as int, f.params.end as int)
}

/// The visibility keywords of `f` followed by a space, if it has any.
pub open spec fn visibility_prefix(f: Function) -> Seq<char> {
    if f.visibility.spec_is_none() {
        Seq::empty()
    } else {
        f.visibility.spec_text() + " "@
    }
}

/// The return type of `f` followed by a space, if it has one.
pub open spec fn ret_type_prefix(f: Function) -> Seq<char> {
    match f.ret_type {
        Some(t) => t.spec_text() + " "@,
        None => Seq::empty(),
    }
}

/// The text of a function printed at `level`: its comment, its signature with
/// the typed parameters one level deeper, and a placeholder body.
pub open spec fn function_text(tree: ItemTree, f: Function, level: nat) -> Seq<char> {
    comment_text(f.ast_id) + newline_text(level) + visibility_prefix(f) + ret_type_prefix(f)
        + f.name.0@ + "("@ + params_text(function_params(tree, f), level + 1) + ") {"@
        + newline_text(level + 1) + "/* body */"@ + newline_text(level) + "}"@ + newline_text(
        level,
    )
}

/// The text of one item of an enum struct whose comment id is `ast_id`,
/// printed at `level`. A field is printed with the enum struct's own id.
pub open spec fn struct_item_text(
    tree: ItemTree,
    ast_id: u32,
    item: EnumStructItemId,
    level: nat,
) -> Seq<char> {
    match item {
        EnumStructItemId::Field(i) => {
            let field = tree.spec_fields()[i as int];
            comment_text(ast_id) + newline_text(level) + field.type_ref.spec_text() + " "@
                + field.name.0@ + ";"@ + newline_text(level)
        },
        EnumStructItemId::Method(i) => function_text(tree, tree.spec_functions()[i as int], level),
    }
}

/// The texts of `items`, one after the other, printed at `level`.
pub open spec fn struct_items_text(
    tree: ItemTree,
    ast_id: u32,
    items: Seq<EnumStructItemId>,
    level: nat,
) -> Seq<char>
    decreases items.len(),
{
    if items.len() == 0 {
        Seq::empty()
    } else {
        struct_items_text(tree, ast_id, items.drop_last(), level) + struct_item_text(
            tree,
            ast_id,
            items.last(),
            level,
        )
    }
}

/// The text of an enum struct printed at `level`: its header, its fields and
/// methods one level deeper, and the closing brace.
pub open spec fn enum_struct_text(tree: ItemTree, es: EnumStruct, level: nat) -> Seq<char> {
    comment_text(es.ast_id) + newline_text(level) + es.name.0@ + " {"@ + newline_text(level + 1)
        + struct_items_text(tree, es.ast_id, es.items@, level + 1) + newline_text(level) + "}"@
        + newline_text(level)
}

/// The text of a top-level item: a variable prints its name on a line of its
/// own, a variant prints nothing, and every other item prints as above at
/// level zero.
pub open spec fn file_item_text(tree: ItemTree, item: FileItem) -> Seq<char> {
    match item {
        FileItem::Function(id) => function_text(tree, tree.spec_functions()[id.index as int], 0),
        FileItem::Variable(id) => tree.spec_variables()[id.index as int].name.0@ + "\n"@,
        FileItem::EnumStruct(id) => enum_struct_text(
            tree,
            tree.spec_enum_structs()[id.index as int],
            0,
        ),
        FileItem::Enum(id) => enum_text(tree, tree.spec_enums()[id.index as int], 0),
        FileItem::Macro(id) => macro_text(tree.spec_macros()[id.index as int], 0),
        FileItem::Variant(_) => Seq::empty(),
    }
}

/// The texts of `items`, one after the other.
pub open spec fn file_items_text(tree: ItemTree, items: Seq<FileItem>) -> Seq<char>
    decreases items.len(),
{
    if items.len() == 0 {
        Seq::empty()
    } else {
        file_items_text(tree, items.drop_last()) + file_item_text(tree, items.last())
    }
}

/// The text of a whole item tree: its top-level items in order.
pub open spec fn item_tree_text(tree: ItemTree) -> Seq<char> {
    file_items_text(tree, tree.spec_top_level())
}

/// A buffer that item texts are appended to, with the current indentation.
pub struct Printer<'a> {
    pub buf: String,
    pub indent_level: usize,
    pub tree: &'a ItemTree,
}

impl<'a> Printer<'a> {
    /// A printer for `tree` with an empty buffer at indentation zero.
    pub fn new(tree: &'a ItemTree) -> (r: Printer<'a>)
        ensures
            r.buf@ == Seq::<char>::empty(),
            r.indent_level == 0,
            *r.tree == *tree,
    {
        Printer { buf: String::new(), indent_level: 0, tree }
    }

    /// Indents one level deeper.
    pub fn indent(&mut self)
        requires
            old(self).indent_level < usize::MAX,
        ensures
            final(self).indent_level == old(self).indent_level + 1,
            final(self).buf == old(self).buf,
            final(self).tree == old(self).tree,
    {
        self.indent_level = self.indent_level + 1;
    }

    /// Indents one level less deep.
    pub fn dedent(&mut self)
        requires
            old(self).indent_level > 0,
        ensures
            final(self).indent_level == old(self).indent_level - 1,
            final(self).buf == old(self).buf,
            final(self).tree == old(self).tree,
    {
        self.indent_level = self.indent_level - 1;
    }

    /// Starts a new line at the current indentation.
    pub fn newline(&mut self)
        ensures
            final(self).buf@ == old(self).buf@ + newline_text(old(self).indent_level as nat),
            final(self).indent_level == old(self).indent_level,
            final(self).tree == old(self).tree,
    {
        push_newline(&mut self.buf, self.indent_level);
    }

    /// Appends `s`.
    pub fn push(&mut self, s: &str)
        ensures
            final(self).buf@ == old(self).buf@ + s@,
            final(self).indent_level == old(self).indent_level,
            final(self).tree == old(self).tree,
    {
        self.buf.append(s);
    }

    /// Appends `// <ast id>`.
    fn push_comment(&mut self, ast_id: u32)
        ensures
            final(self).buf@ == old(self).buf@ + comment_text(ast_id),
            final(self).indent_level == old(self).indent_level,
            final(self).tree == old(self).tree,
    {
        self.buf.append("// ");
        push_decimal(&mut self.buf, ast_id as u64);
        proof {
            assert(self.buf@ =~= old(self).buf@ + comment_text(ast_id));
        }
    }

    /// The text printed so far.
    pub fn into_string(self) -> (r: String)
        ensures
            r == self.buf,
    {
        self.buf
    }

    /// Prints the macro at `idx`.
    pub fn print_macro(&mut self, idx: &FileItemTreeId<Macro>)
        requires
            old(self).tree.data is Some,
            idx.index < old(self).tree.spec_macros().len(),
        ensures
            final(self).buf@ == old(self).buf@ + macro_text(
                old(self).tree.spec_macros()[idx.index as int],
                old(self).indent_level as nat,
            ),
            final(self).indent_level == old(self).indent_level,
            final(self).tree == old(self).tree,
    {
        let m = self.tree.macro_at(idx.index);
        self.push_comment(m.ast_id);
        self.newline();
        self.push("#define ");
        self.push(m.name.0.as_str());
        self.newline();
        proof {
            assert(self.buf@ =~= old(self).buf@ + macro_text(*m, old(self).indent_level as nat));
        }
    }

    /// Prints the enum at `idx` and its variants.
    pub fn print_enum(&mut self, idx: &FileItemTreeId<Enum>)
        requires
            old(self).tree.wf(),
            old(self).tree.data is Some,
            idx.index < old(self).tree.spec_enums().len(),
            old(self).indent_level < usize::MAX,
        ensures
            final(self).buf@ == old(self).buf@ + enum_text(
                *old(self).tree,
                old(self).tree.spec_enums()[idx.index as int],
                old(self).indent_level as nat,
            ),
            final(self).indent_level == old(self).indent_level,
            final(self).tree == old(self).tree,
    {
        let tree: &'a ItemTree = self.tree;
        let e = tree.enum_at(idx.index);
        assert(e.variants.within(tree.spec_variants().len()));
        self.push_comment(e.ast_id);
        self.newline();
        self.push("enum ");
        self.push(e.name.0.as_str());
        self.push(" {");
        self.indent();
        self.newline();
        let ghost head = self.buf@;
        let ghost level = self.indent_level as nat;
        let mut i = e.variants.start;
        while i < e.variants.end
            invariant
                self.tree == tree,
                tree.data is Some,
                e.variants.within(tree.spec_variants().len()),
                e.variants.start <= i <= e.variants.end,
                self.indent_level == level,
                self.buf@ == head + variants_text(
                    tree.spec_variants().subrange(e.variants.start as int, i as int),
                    level,
                ),
            decreases e.variants.end - i,
        {
            let v = tree.variant_at(i);
            self.push_comment(v.ast_id);
            self.newline();
            self.push(v.name.0.as_str());
            self.push(",");
            self.newline();
            proof {
                let vs = tree.spec_variants().subrange(e.variants.start as int, i + 1);
                assert(vs.drop_last() =~= tree.spec_variants().subrange(
                    e.variants.start as int,
                    i as int,
                ));
                assert(vs.last() == *v);
                assert(self.buf@ =~= head + variants_text(vs, level));
            }
            i = i + 1;
        }
        self.dedent();
        self.push("};");
        self.newline();
        proof {
            assert(self.buf@ =~= old(self).buf@ + enum_text(
                *tree,
                *e,
                old(self).indent_level as nat,
            ));
        }
    }

    /// Appends the visibility keywords of `f` and a space, if it has any.
    fn push_visibility(&mut self, f: &Function)
        ensures
            final(self).buf@ == old(self).buf@ + visibility_prefix(*f),
            final(self).indent_level == old(self).indent_level,
            final(self).tree == old(self).tree,
    {
        if !f.visibility.is_none() {
            let vis = f.visibility.to_text();
            self.push(vis.as_str());
            self.push(" ");
        }
        assert(self.buf@ =~= old(self).buf@ + visibility_prefix(*f));
    }

    /// Appends the return type of `f` and a space, if it has one.
    fn push_ret_type(&mut self, f: &Function)
        ensures
            final(self).buf@ == old(self).buf@ + ret_type_prefix(*f),
            final(self).indent_level == old(self).indent_level,
            final(self).tree == old(self).tree,
    {
        match &f.ret_type {
            Some(ret_type) => {
                let t = ret_type.to_str();
                self.push(t.as_str());
                self.push(" ");
            },
            None => {},
        }
        assert(self.buf@ =~= old(self).buf@ + ret_type_prefix(*f));
    }

    /// Appends the texts of the parameters in `start..end` at the current level.
    fn push_params(&mut self, start: u32, end: u32)
        requires
            old(self).tree.data is Some,
            start <= end <= old(self).tree.spec_params().len(),
        ensures
            final(self).buf@ == old(self).buf@ + params_text(
                old(self).tree.spec_params().subrange(start as int, end as int),
                old(self).indent_level as nat,
            ),
            final(self).indent_level == old(self).indent_level,
            final(self).tree == old(self).tree,
    {
        let tree: &'a ItemTree = self.tree;
        let ghost level = self.indent_level as nat;
        let mut i = start;
        while i < end
            invariant
                self.tree == tree,
                tree.data is Some,
                start <= i <= end <= tree.spec_params().len(),
                self.indent_level == level,
                self.buf@ == old(self).buf@ + params_text(
                    tree.spec_params().subrange(start as int, i as int),
                    level,
                ),
            decreases end - i,
        {
            let param = tree.param_at(i);
            let ghost before = self.buf@;
            match &param.type_ref {
                Some(type_ref) => {
                    self.newline();
                    self.push_comment(param.ast_id);
                    self.newline();
                    let t = type_ref.to_str();
                    self.push(t.as_str());
                    self.push(",");
                },
                None => {},
            }
            proof {
                assert(self.buf@ =~= before + param_text(*param, level));
                let ps = tree.spec_params().subrange(start as int, i + 1);
                assert(ps.drop_last() =~= tree.spec_params().subrange(start as int, i as int));
                assert(ps.last() == *param);
                assert(self.buf@ =~= old(self).buf@ + params_text(ps, level));
            }
            i = i + 1;
        }
    }

    /// Prints the function at `idx`: its signature, its typed parameters and
    /// a placeholder body.
    pub fn print_function(&mut self, idx: &FileItemTreeId<Function>)
        requires
            old(self).tree.wf(),
            old(self).tree.data is Some,
            idx.index < old(self).tree.spec_functions().len(),
            old(self).indent_level < usize::MAX,
        ensures
            final(self).buf@ == old(self).buf@ + function_text(
                *old(self).tree,
                old(self).tree.spec_functions()[idx.index as int],
                old(self).indent_level as nat,
            ),
            final(self).indent_level == old(self).indent_level,
            final(self).tree == old(self).tree,
    {
        let tree: &'a ItemTree = self.tree;
        let f = tree.function_at(idx.index);
        assert(f.params.within(tree.spec_params().len()));
        self.push_comment(f.ast_id);
        self.newline();
        self.push_visibility(f);
        self.push_ret_type(f);
        self.push(f.name.0.as_str());
        self.push("(");
        self.indent();
        self.push_params(f.params.start, f.params.end);
        self.push(") {");
        self.newline();
        self.push("/* body */");
        self.dedent();
        self.newline();
        self.push("}");
        self.newline();
        proof {
            assert(self.buf@ =~= old(self).buf@ + function_text(
                *tree,
                *f,
                old(self).indent_level as nat,
            ));
        }
    }

    /// Prints an item of an enum struct whose declaration has the id
    /// `ast_id`: a field as its type and name, a method as a function.
    fn print_struct_item(&mut self, ast_id: u32, item: EnumStructItemId)
        requires
            old(self).tree.wf(),
            old(self).tree.data is Some,
            old(self).tree.struct_item_in_bounds(item),
            old(self).indent_level < usize::MAX,
        ensures
            final(self).buf@ == old(self).buf@ + struct_item_text(
                *old(self).tree,
                ast_id,
                item,
                old(self).indent_level as nat,
            ),
            final(self).indent_level == old(self).indent_level,
            final(self).tree == old(self).tree,
    {
        let tree: &'a ItemTree = self.tree;
        match item {
            EnumStructItemId::Field(fi) => {
                let field = tree.field_at(fi);
                self.push_comment(ast_id);
                self.newline();
                let t = field.type_ref.to_str();
                self.push(t.as_str());
                self.push(" ");
                self.push(field.name.0.as_str());
                self.push(";");
                self.newline();
                assert(self.buf@ =~= old(self).buf@ + struct_item_text(
                    *tree,
                    ast_id,
                    item,
                    old(self).indent_level as nat,
                ));
            },
            EnumStructItemId::Method(mi) => {
                let id: FileItemTreeId<Function> = FileItemTreeId::new(mi);
                self.print_function(&id);
            },
        }
    }

    /// Prints the enum struct at `idx`: its fields and its methods.
    #[verifier::spinoff_prover]
    #[verifier::rlimit(40)]
    pub fn print_enum_struct(&mut self, idx: &FileItemTreeId<EnumStruct>)
        requires
            old(self).tree.wf(),
            old(self).tree.data is Some,
            idx.index < old(self).tree.spec_enum_structs().len(),
            old(self).indent_level + 1 < usize::MAX,
        ensures
            final(self).buf@ == old(self).buf@ + enum_struct_text(
                *old(self).tree,
                old(self).tree.spec_enum_structs()[idx.index as int],
                old(self).indent_level as nat,
            ),
            final(self).indent_level == old(self).indent_level,
            final(self).tree == old(self).tree,
    {
        let tree: &'a ItemTree = self.tree;
        let es = tree.enum_struct_at(idx.index);
        self.push_comment(es.ast_id);
        self.newline();
        self.push(es.name.0.as_str());
        self.push(" {");
        self.indent();
        self.newline();
        let ghost head = self.buf@;
        let ghost level = self.indent_level as nat;
        let mut j: usize = 0;
        while j < es.items.len()
            invariant
                self.tree == tree,
                tree.wf(),
                tree.data is Some,
                idx.index < tree.spec_enum_structs().len(),
                *es == tree.spec_enum_structs()[idx.index as int],
                j <= es.items.len(),
                self.indent_level == level,
                level < usize::MAX,
                self.buf@ == head + struct_items_text(*tree, es.ast_id, es.items@.take(j as int), level),
            decreases es.items.len() - j,
        {
            let item = es.items[j];
            assert(tree.struct_item_in_bounds(tree.spec_enum_structs()[idx.index as int].items@[j as int]));
            self.print_struct_item(es.ast_id, item);
            proof {
                let items = es.items@.take(j + 1);
                assert(items.drop_last() =~= es.items@.take(j as int));
                assert(items.last() == item);
                assert(self.buf@ =~= head + struct_items_text(*tree, es.ast_id, items, level));
            }
            j = j + 1;
        }
        proof {
            assert(es.items@.take(es.items.len() as int) =~= es.items@);
        }
        self.dedent();
        self.newline();
        self.push("}");
        self.newline();
        proof {
            assert(self.buf@ =~= old(self).buf@ + enum_struct_text(
                *tree,
                *es,
                old(self).indent_level as nat,
            ));
        }
    }
}

/// Prints every top-level item of `tree`, in order. The database is not
/// read.
pub fn print_item_tree(_db: &DefDatabase, tree: &ItemTree) -> (r: String)
    requires
        tree.wf(),
    ensures
        r@ == item_tree_text(*tree),
{
    let mut printer = Printer::new(tree);
    let n = tree.top_level_len();
    let mut i: usize = 0;
    while i < n
        invariant
            printer.tree == tree,
            tree.wf(),
            n == tree.spec_top_level().len(),
            i <= n,
            printer.indent_level == 0,
            printer.buf@ == file_items_text(*tree, tree.spec_top_level().take(i as int)),
        decreases n - i,
    {
        let item = tree.top_level_item(i);
        assert(tree.item_in_bounds(tree.spec_top_level()[i as int]));
        let ghost before = printer.buf@;
        match item {
            FileItem::Function(idx) => printer.print_function(idx),
            FileItem::Variable(idx) => {
                let v = tree.variable_at(idx.index);
                printer.push(v.name.0.as_str());
                printer.push("\n");
            },
            FileItem::EnumStruct(idx) => printer.print_enum_struct(idx),
            FileItem::Enum(idx) => printer.print_enum(idx),
            FileItem::Macro(idx) => printer.print_macro(idx),
            FileItem::Variant(_) => {},
        }
        proof {
            assert(printer.buf@ =~= before + file_item_text(*tree, *item));
            let items = tree.spec_top_level().take(i + 1);
            assert(items.drop_last() =~= tree.spec_top_level().take(i as int));
            assert(items.last() == *item);
        }
        i = i + 1;
    }
    proof {
        assert(tree.spec_top_level().take(n as int) =~= tree.spec_top_level());
    }
    printer.into_string()
}

} // verus!
