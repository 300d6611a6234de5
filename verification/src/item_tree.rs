//! The item tree of a source file: the top-level items that a file declares,
//! with the data of every item held in per-kind arenas.

use core::marker::PhantomData;
use la_arena::Arena;
use vstd::prelude::*;

use crate::arena::{
    function_arena_items, new_function_arena, function_arena_alloc, function_arena_get, variable_arena_items, new_variable_arena, variable_arena_alloc, variable_arena_get, param_arena_items, new_param_arena, param_arena_alloc, param_arena_get, macro_arena_items, new_macro_arena, macro_arena_alloc, macro_arena_get, enum_arena_items, new_enum_arena, enum_arena_alloc, enum_arena_get, variant_arena_items, new_variant_arena, variant_arena_alloc, variant_arena_get, enum_struct_arena_items, new_enum_struct_arena, enum_struct_arena_alloc, enum_struct_arena_get, field_arena_items, new_field_arena, field_arena_alloc, field_arena_get,
};
use crate::small_vec::{
    new_top_level_items, top_level_items, top_level_items_get, top_level_items_len,
    top_level_items_push, TopLevelItems,
};
use crate::type_ref::TypeRef;

verus! {

/// Identifies a source file.
#[derive(Debug, Clone, Copy, PartialEq, Eq, Structural, Hash, PartialOrd, Ord)]
pub struct FileId(pub u32);

/// `Name` is a wrapper around string, which is used in hir for both references
/// and declarations.
#[derive(Debug, Clone, PartialEq, Eq, Hash, PartialOrd, Ord)]
pub struct Name(pub String);

impl Name {
    /// The name whose text is `text`.
    pub fn from_str(text: &str) -> (r: Name)
        ensures
            r.0@ == text@,
    {
        Name(String::from_str(text))
    }

    /// A copy of this name.
    pub fn duplicate(&self) -> (r: Name)
        ensures
            r == *self,
    {
        Name(self.0.clone())
    }
}

/// A half-open range `start..end` of raw indices into one arena.
#[derive(Debug, Clone, Copy, PartialEq, Eq, Structural, Hash)]
pub struct IdxSpan {
    pub start: u32,
    pub end: u32,
}

impl IdxSpan {
    /// The range is well ordered and lies within an arena of `len` values.
    pub open spec fn within(self, len: nat) -> bool {
        self.start <= self.end && self.end <= len
    }
}

/// The visibility and storage keywords that a declaration carries.
#[derive(Debug, Clone, Copy, PartialEq, Eq, Structural, Hash)]
pub struct RawVisibilityId {
    pub public: bool,
    pub stock: bool,
    pub static_: bool,
}

/// The text `public`.
pub open spec fn public_word() -> Seq<char> {
    seq!['p', 'u', 'b', 'l', 'i', 'c']
}

/// The text `stock`.
pub open spec fn stock_word() -> Seq<char> {
    seq!['s', 't', 'o', 'c', 'k']
}

/// The text `static`.
pub open spec fn static_word() -> Seq<char> {
    seq!['s', 't', 'a', 't', 'i', 'c']
}

/// `first`, followed by a space and `rest` where `rest` is not empty.
pub open spec fn spaced(first: Seq<char>, rest: Seq<char>) -> Seq<char> {
    if first.len() == 0 {
        rest
    } else if rest.len() == 0 {
        first
    } else {
        first + seq![' '] + rest
    }
}

impl RawVisibilityId {
    /// A declaration without visibility or storage keywords.
    pub fn none() -> (r: RawVisibilityId)
        ensures
            r.spec_is_none(),
    {
        RawVisibilityId { public: false, stock: false, static_: false }
    }

    /// The declaration carries no keyword.
    pub open spec fn spec_is_none(self) -> bool {
        !self.public && !self.stock && !self.static_
    }

    /// The declaration carries no keyword.
    pub fn is_none(&self) -> (r: bool)
        ensures
            r == self.spec_is_none(),
    {
        !self.public && !self.stock && !self.static_
    }

    /// The keywords, in the order `public stock static`, separated by spaces.
    pub open spec fn spec_text(self) -> Seq<char> {
        spaced(
            if self.public { public_word() } else { Seq::empty() },
            spaced(
                if self.stock { stock_word() } else { Seq::empty() },
                if self.static_ { static_word() } else { Seq::empty() },
            ),
        )
    }

    /// The keywords, in the order `public stock static`, separated by spaces.
    pub fn to_text(&self) -> (r: String)
        ensures
            r@ == self.spec_text(),
    {
        proof {
            reveal_strlit("public");
            reveal_strlit("stock");
            reveal_strlit("static");
            reveal_strlit(" ");
        }
        let mut s = String::new();
        if self.public {
            s.append("public");
        }
        if self.stock {
            if self.public {
                s.append(" ");
            }
            s.append("stock");
        }
        if self.static_ {
            if self.public || self.stock {
                s.append(" ");
            }
            s.append("static");
        }
        proof {
            assert(s@ =~= self.spec_text());
        }
        s
    }
}

/// A function or method declaration.
#[derive(Debug, Clone, Eq, PartialEq, Hash)]
pub struct Function {
    pub name: Name,
    pub visibility: RawVisibilityId,
    pub ret_type: Option<TypeRef>,
    pub params: IdxSpan,
    pub ast_id: u32,
    pub ts_node_id: usize,
}

/// A parameter of a function.
#[derive(Debug, Clone, Eq, PartialEq, Hash)]
pub struct Param {
    pub type_ref: Option<TypeRef>,
    pub ast_id: u32,
}

/// A global variable.
#[derive(Debug, Clone, Eq, PartialEq, Hash)]
pub struct Variable {
    pub name: Name,
    pub ts_node_id: usize,
}

/// A `#define` macro.
#[derive(Debug, Clone, Eq, PartialEq, Hash)]
pub struct Macro {
    pub name: Name,
    pub ast_id: u32,
}

/// An enum, with its variants as a range of the variant arena.
#[derive(Debug, Clone, Eq, PartialEq, Hash)]
pub struct Enum {
    pub name: Name,
    pub variants: IdxSpan,
    pub ast_id: u32,
}

/// A variant of an enum.
#[derive(Debug, Clone, Eq, PartialEq, Hash)]
pub struct Variant {
    pub name: Name,
    pub ast_id: u32,
}

/// An item of an enum struct: a field or a method, by raw index into the
/// field or the function arena.
#[derive(Debug, Clone, Copy, Eq, PartialEq, Structural, Hash)]
pub enum EnumStructItemId {
    Field(u32),
    Method(u32),
}

/// An enum struct, with its fields and methods in declaration order.
#[derive(Debug, Clone, Eq, PartialEq, Hash)]
pub struct EnumStruct {
    pub name: Name,
    pub items: Vec<EnumStructItemId>,
    pub ast_id: u32,
}

/// A field of an enum struct.
#[derive(Debug, Clone, Eq, PartialEq, Hash)]
pub struct Field {
    pub name: Name,
    pub type_ref: TypeRef,
    pub ast_id: u32,
}

/// Trait implemented by all item nodes in the item tree.
pub trait ItemTreeNode: Clone {
    /// Upcasts a `FileItemTreeId` to a generic `FileItem`.
    fn id_to_mod_item(id: FileItemTreeId<Self>) -> FileItem;
}

/// The index of an item of kind `N` in its arena of an item tree.
#[derive(Debug, PartialEq, Eq, Hash)]
pub struct FileItemTreeId<N: ItemTreeNode> {
    pub index: u32,
    pub _p: PhantomData<N>,
}

impl<N: ItemTreeNode> Clone for FileItemTreeId<N> {
    fn clone(&self) -> (r: Self)
        ensures
            r == *self,
    {
        FileItemTreeId { index: self.index, _p: PhantomData }
    }
}

impl<N: ItemTreeNode> Copy for FileItemTreeId<N> {}

impl<N: ItemTreeNode> FileItemTreeId<N> {
    /// The id of the item at raw index `index`.
    pub fn new(index: u32) -> (r: FileItemTreeId<N>)
        ensures
            r.index == index,
    {
        FileItemTreeId { index, _p: PhantomData }
    }
}

/// A top-level item of a file, by its index in its arena.
#[derive(Debug, Clone, Eq, PartialEq, Hash)]
pub enum FileItem {
    Function(FileItemTreeId<Function>),
    Variable(FileItemTreeId<Variable>),
    EnumStruct(FileItemTreeId<EnumStruct>),
    Enum(FileItemTreeId<Enum>),
    Macro(FileItemTreeId<Macro>),
    Variant(FileItemTreeId<Variant>),
}

impl ItemTreeNode for Function {
    fn id_to_mod_item(id: FileItemTreeId<Self>) -> (r: FileItem)
        ensures
            r == FileItem::Function(id),
    {
        FileItem::Function(id)
    }
}

impl ItemTreeNode for Variable {
    fn id_to_mod_item(id: FileItemTreeId<Self>) -> (r: FileItem)
        ensures
            r == FileItem::Variable(id),
    {
        FileItem::Variable(id)
    }
}

impl ItemTreeNode for EnumStruct {
    fn id_to_mod_item(id: FileItemTreeId<Self>) -> (r: FileItem)
        ensures
            r == FileItem::EnumStruct(id),
    {
        FileItem::EnumStruct(id)
    }
}

impl ItemTreeNode for Enum {
    fn id_to_mod_item(id: FileItemTreeId<Self>) -> (r: FileItem)
        ensures
            r == FileItem::Enum(id),
    {
        FileItem::Enum(id)
    }
}

impl ItemTreeNode for Macro {
    fn id_to_mod_item(id: FileItemTreeId<Self>) -> (r: FileItem)
        ensures
            r == FileItem::Macro(id),
    {
        FileItem::Macro(id)
    }
}

impl ItemTreeNode for Variant {
    fn id_to_mod_item(id: FileItemTreeId<Self>) -> (r: FileItem)
        ensures
            r == FileItem::Variant(id),
    {
        FileItem::Variant(id)
    }
}

/// The arenas that hold the data of every item of a tree.
pub struct ItemTreeData {
    pub functions: Arena<Function>,
    pub variables: Arena<Variable>,
    pub params: Arena<Param>,
    pub macros: Arena<Macro>,
    pub enums: Arena<Enum>,
    pub variants: Arena<Variant>,
    pub enum_structs: Arena<EnumStruct>,
    pub fields: Arena<Field>,
}

impl ItemTreeData {
    /// Data whose arenas are all empty.
    pub open spec fn spec_is_empty(self) -> bool {
        &&& function_arena_items(self.functions).len() == 0
        &&& variable_arena_items(self.variables).len() == 0
        &&& param_arena_items(self.params).len() == 0
        &&& macro_arena_items(self.macros).len() == 0
        &&& enum_arena_items(self.enums).len() == 0
        &&& variant_arena_items(self.variants).len() == 0
        &&& enum_struct_arena_items(self.enum_structs).len() == 0
        &&& field_arena_items(self.fields).len() == 0
    }

    /// Data whose arenas are all empty.
    pub fn new() -> (r: ItemTreeData)
        ensures
            r.spec_is_empty(),
    {
        ItemTreeData {
            functions: new_function_arena(),
            variables: new_variable_arena(),
            params: new_param_arena(),
            macros: new_macro_arena(),
            enums: new_enum_arena(),
            variants: new_variant_arena(),
            enum_structs: new_enum_struct_arena(),
            fields: new_field_arena(),
        }
    }
}

/// The item tree of a source file.
pub struct ItemTree {
    pub top_level: TopLevelItems,
    pub data: Option<Box<ItemTreeData>>,
}

impl ItemTree {
    /// The top-level items of the file, in order.
    pub open spec fn spec_top_level(self) -> Seq<FileItem> {
        top_level_items(self.top_level)
    }

    /// The functions of the tree, in allocation order.
    pub open spec fn spec_functions(self) -> Seq<Function> {
        match self.data {
            Some(d) => function_arena_items(d.functions),
            None => Seq::empty(),
        }
    }

    /// The variables of the tree, in allocation order.
    pub open spec fn spec_variables(self) -> Seq<Variable> {
        match self.data {
            Some(d) => variable_arena_items(d.variables),
            None => Seq::empty(),
        }
    }

    /// The params of the tree, in allocation order.
    pub open spec fn spec_params(self) -> Seq<Param> {
        match self.data {
            Some(d) => param_arena_items(d.params),
            None => Seq::empty(),
        }
    }

    /// The macros of the tree, in allocation order.
    pub open spec fn spec_macros(self) -> Seq<Macro> {
        match self.data {
            Some(d) => macro_arena_items(d.macros),
            None => Seq::empty(),
        }
    }

    /// The enums of the tree, in allocation order.
    pub open spec fn spec_enums(self) -> Seq<Enum> {
        match self.data {
            Some(d) => enum_arena_items(d.enums),
            None => Seq::empty(),
        }
    }

    /// The variants of the tree, in allocation order.
    pub open spec fn spec_variants(self) -> Seq<Variant> {
        match self.data {
            Some(d) => variant_arena_items(d.variants),
            None => Seq::empty(),
        }
    }

    /// The enum_structs of the tree, in allocation order.
    pub open spec fn spec_enum_structs(self) -> Seq<EnumStruct> {
        match self.data {
            Some(d) => enum_struct_arena_items(d.enum_structs),
            None => Seq::empty(),
        }
    }

    /// The fields of the tree, in allocation order.
    pub open spec fn spec_fields(self) -> Seq<Field> {
        match self.data {
            Some(d) => field_arena_items(d.fields),
            None => Seq::empty(),
        }
    }

    /// A top-level item refers to a value of its arena.
    pub open spec fn item_in_bounds(self, item: FileItem) -> bool {
        match item {
            FileItem::Function(id) => id.index < self.spec_functions().len(),
            FileItem::Variable(id) => id.index < self.spec_variables().len(),
            FileItem::EnumStruct(id) => id.index < self.spec_enum_structs().len(),
            FileItem::Enum(id) => id.index < self.spec_enums().len(),
            FileItem::Macro(id) => id.index < self.spec_macros().len(),
            FileItem::Variant(id) => id.index < self.spec_variants().len(),
        }
    }

    /// An item of an enum struct refers to a value of its arena.
    pub open spec fn struct_item_in_bounds(self, item: EnumStructItemId) -> bool {
        match item {
            EnumStructItemId::Field(i) => i < self.spec_fields().len(),
            EnumStructItemId::Method(i) => i < self.spec_functions().len(),
        }
    }

    /// Every index that the tree holds refers to a value of the tree: the
    /// top-level items, the parameter range of each function, the variant
    /// range of each enum and the items of each enum struct.
    pub open spec fn wf(self) -> bool {
        &&& (self.spec_top_level().len() > 0 ==> self.data is Some)
        &&& forall|i: int|
            0 <= i < self.spec_top_level().len() ==> #[trigger] self.item_in_bounds(
                self.spec_top_level()[i],
            )
        &&& forall|i: int|
            0 <= i < self.spec_functions().len() ==> (#[trigger] self.spec_functions()[i]).params.within(
                self.spec_params().len(),
            )
        &&& forall|i: int|
            0 <= i < self.spec_enums().len() ==> (#[trigger] self.spec_enums()[i]).variants.within(
                self.spec_variants().len(),
            )
        &&& forall|i: int, j: int|
            0 <= i < self.spec_enum_structs().len() && 0 <= j < self.spec_enum_structs()[i].items.len()
                ==> #[trigger] self.struct_item_in_bounds(self.spec_enum_structs()[i].items@[j])
    }

    /// Every arena but the function arena holds what it holds in `other`.
    pub open spec fn others_unchanged_but_functions(self, other: ItemTree) -> bool {
        self.spec_variables() == other.spec_variables() && self.spec_params() == other.spec_params() && self.spec_macros() == other.spec_macros() && self.spec_enums() == other.spec_enums() && self.spec_variants() == other.spec_variants() && self.spec_enum_structs() == other.spec_enum_structs() && self.spec_fields() == other.spec_fields()
    }

    /// Every arena but the variable arena holds what it holds in `other`.
    pub open spec fn others_unchanged_but_variables(self, other: ItemTree) -> bool {
        self.spec_functions() == other.spec_functions() && self.spec_params() == other.spec_params() && self.spec_macros() == other.spec_macros() && self.spec_enums() == other.spec_enums() && self.spec_variants() == other.spec_variants() && self.spec_enum_structs() == other.spec_enum_structs() && self.spec_fields() == other.spec_fields()
    }

    /// Every arena but the param arena holds what it holds in `other`.
    pub open spec fn others_unchanged_but_params(self, other: ItemTree) -> bool {
        self.spec_functions() == other.spec_functions() && self.spec_variables() == other.spec_variables() && self.spec_macros() == other.spec_macros() && self.spec_enums() == other.spec_enums() && self.spec_variants() == other.spec_variants() && self.spec_enum_structs() == other.spec_enum_structs() && self.spec_fields() == other.spec_fields()
    }

    /// Every arena but the macro arena holds what it holds in `other`.
    pub open spec fn others_unchanged_but_macros(self, other: ItemTree) -> bool {
        self.spec_functions() == other.spec_functions() && self.spec_variables() == other.spec_variables() && self.spec_params() == other.spec_params() && self.spec_enums() == other.spec_enums() && self.spec_variants() == other.spec_variants() && self.spec_enum_structs() == other.spec_enum_structs() && self.spec_fields() == other.spec_fields()
    }

    /// Every arena but the enum arena holds what it holds in `other`.
    pub open spec fn others_unchanged_but_enums(self, other: ItemTree) -> bool {
        self.spec_functions() == other.spec_functions() && self.spec_variables() == other.spec_variables() && self.spec_params() == other.spec_params() && self.spec_macros() == other.spec_macros() && self.spec_variants() == other.spec_variants() && self.spec_enum_structs() == other.spec_enum_structs() && self.spec_fields() == other.spec_fields()
    }

    /// Every arena but the variant arena holds what it holds in `other`.
    pub open spec fn others_unchanged_but_variants(self, other: ItemTree) -> bool {
        self.spec_functions() == other.spec_functions() && self.spec_variables() == other.spec_variables() && self.spec_params() == other.spec_params() && self.spec_macros() == other.spec_macros() && self.spec_enums() == other.spec_enums() && self.spec_enum_structs() == other.spec_enum_structs() && self.spec_fields() == other.spec_fields()
    }

    /// Every arena but the enum_struct arena holds what it holds in `other`.
    pub open spec fn others_unchanged_but_enum_structs(self, other: ItemTree) -> bool {
        self.spec_functions() == other.spec_functions() && self.spec_variables() == other.spec_variables() && self.spec_params() == other.spec_params() && self.spec_macros() == other.spec_macros() && self.spec_enums() == other.spec_enums() && self.spec_variants() == other.spec_variants() && self.spec_fields() == other.spec_fields()
    }

    /// Every arena but the field arena holds what it holds in `other`.
    pub open spec fn others_unchanged_but_fields(self, other: ItemTree) -> bool {
        self.spec_functions() == other.spec_functions() && self.spec_variables() == other.spec_variables() && self.spec_params() == other.spec_params() && self.spec_macros() == other.spec_macros() && self.spec_enums() == other.spec_enums() && self.spec_variants() == other.spec_variants() && self.spec_enum_structs() == other.spec_enum_structs()
    }

    /// An item tree with no items and no data.
    pub fn new() -> (r: ItemTree)
        ensures
            r.spec_top_level().len() == 0,
            r.data is None,
            r.wf(),
    {
        ItemTree { top_level: new_top_level_items(), data: None }
    }

    /// The number of top-level items.
    pub fn top_level_len(&self) -> (r: usize)
        ensures
            r == self.spec_top_level().len(),
    {
        top_level_items_len(&self.top_level)
    }

    /// The top-level item at position `i`.
    pub fn top_level_item(&self, i: usize) -> (r: &FileItem)
        requires
            i < self.spec_top_level().len(),
        ensures
            *r == self.spec_top_level()[i as int],
    {
        top_level_items_get(&self.top_level, i)
    }

    /// Appends `item` to the top-level items.
    pub fn push_top_level(&mut self, item: FileItem)
        ensures
            final(self).spec_top_level() == old(self).spec_top_level().push(item),
            final(self).data == old(self).data,
    {
        top_level_items_push(&mut self.top_level, item)
    }

    /// The data of the tree, which a tree with items has.
    pub fn data(&self) -> (r: &ItemTreeData)
        requires
            self.data is Some,
        ensures
            *r == *self.data.unwrap(),
    {
        self.data.as_ref().unwrap()
    }

    /// The function at raw index `i` of the tree's data.
    pub fn function_at(&self, i: u32) -> (r: &Function)
        requires
            self.data is Some,
            (i as int) < self.spec_functions().len(),
        ensures
            *r == self.spec_functions()[i as int],
    {
        function_arena_get(&self.data().functions, i)
    }

    /// The variable at raw index `i` of the tree's data.
    pub fn variable_at(&self, i: u32) -> (r: &Variable)
        requires
            self.data is Some,
            (i as int) < self.spec_variables().len(),
        ensures
            *r == self.spec_variables()[i as int],
    {
        variable_arena_get(&self.data().variables, i)
    }

    /// The param at raw index `i` of the tree's data.
    pub fn param_at(&self, i: u32) -> (r: &Param)
        requires
            self.data is Some,
            (i as int) < self.spec_params().len(),
        ensures
            *r == self.spec_params()[i as int],
    {
        param_arena_get(&self.data().params, i)
    }

    /// The macro at raw index `i` of the tree's data.
    pub fn macro_at(&self, i: u32) -> (r: &Macro)
        requires
            self.data is Some,
            (i as int) < self.spec_macros().len(),
        ensures
            *r == self.spec_macros()[i as int],
    {
        macro_arena_get(&self.data().macros, i)
    }

    /// The enum at raw index `i` of the tree's data.
    pub fn enum_at(&self, i: u32) -> (r: &Enum)
        requires
            self.data is Some,
            (i as int) < self.spec_enums().len(),
        ensures
            *r == self.spec_enums()[i as int],
    {
        enum_arena_get(&self.data().enums, i)
    }

    /// The variant at raw index `i` of the tree's data.
    pub fn variant_at(&self, i: u32) -> (r: &Variant)
        requires
            self.data is Some,
            (i as int) < self.spec_variants().len(),
        ensures
            *r == self.spec_variants()[i as int],
    {
        variant_arena_get(&self.data().variants, i)
    }

    /// The enum_struct at raw index `i` of the tree's data.
    pub fn enum_struct_at(&self, i: u32) -> (r: &EnumStruct)
        requires
            self.data is Some,
            (i as int) < self.spec_enum_structs().len(),
        ensures
            *r == self.spec_enum_structs()[i as int],
    {
        enum_struct_arena_get(&self.data().enum_structs, i)
    }

    /// The field at raw index `i` of the tree's data.
    pub fn field_at(&self, i: u32) -> (r: &Field)
        requires
            self.data is Some,
            (i as int) < self.spec_fields().len(),
        ensures
            *r == self.spec_fields()[i as int],
    {
        field_arena_get(&self.data().fields, i)
    }

    /// The data of the tree, created empty if the tree has none yet.
    pub fn data_mut(&mut self) -> (r: &mut ItemTreeData)
        ensures
            *r == (match old(self).data {
                Some(d) => *d,
                None => *r,
            }),
            old(self).data is None ==> r.spec_is_empty(),
            final(self).data == Some(Box::new(*final(r))),
            final(self).top_level == old(self).top_level,
    {
        if self.data.is_none() {
            self.data = Some(Box::new(ItemTreeData::new()));
        }
        let b = self.data.as_mut().unwrap();
        &mut **b
    }

    /// Allocates `v` in the function arena of the tree's data (creating the data
    /// if the tree has none) and returns its raw index.
    pub fn alloc_function(&mut self, v: Function) -> (r: u32)
        requires
            old(self).spec_functions().len() < u32::MAX,
        ensures
            final(self).spec_functions() == old(self).spec_functions().push(v),
            r == old(self).spec_functions().len(),
            final(self).spec_top_level() == old(self).spec_top_level(),
            final(self).others_unchanged_but_functions(*old(self)),
    {
        let data = self.data_mut();
        let r = function_arena_alloc(&mut data.functions, v);
        proof {
            assert(self.spec_variables() =~= old(self).spec_variables());
            assert(self.spec_params() =~= old(self).spec_params());
            assert(self.spec_macros() =~= old(self).spec_macros());
            assert(self.spec_enums() =~= old(self).spec_enums());
            assert(self.spec_variants() =~= old(self).spec_variants());
            assert(self.spec_enum_structs() =~= old(self).spec_enum_structs());
            assert(self.spec_fields() =~= old(self).spec_fields());
            assert(self.spec_functions() =~= old(self).spec_functions().push(v));
        }
        r
    }

    /// Allocates `v` in the variable arena of the tree's data (creating the data
    /// if the tree has none) and returns its raw index.
    pub fn alloc_variable(&mut self, v: Variable) -> (r: u32)
        requires
            old(self).spec_variables().len() < u32::MAX,
        ensures
            final(self).spec_variables() == old(self).spec_variables().push(v),
            r == old(self).spec_variables().len(),
            final(self).spec_top_level() == old(self).spec_top_level(),
            final(self).others_unchanged_but_variables(*old(self)),
    {
        let data = self.data_mut();
        let r = variable_arena_alloc(&mut data.variables, v);
        proof {
            assert(self.spec_functions() =~= old(self).spec_functions());
            assert(self.spec_params() =~= old(self).spec_params());
            assert(self.spec_macros() =~= old(self).spec_macros());
            assert(self.spec_enums() =~= old(self).spec_enums());
            assert(self.spec_variants() =~= old(self).spec_variants());
            assert(self.spec_enum_structs() =~= old(self).spec_enum_structs());
            assert(self.spec_fields() =~= old(self).spec_fields());
            assert(self.spec_variables() =~= old(self).spec_variables().push(v));
        }
        r
    }

    /// Allocates `v` in the param arena of the tree's data (creating the data
    /// if the tree has none) and returns its raw index.
    pub fn alloc_param(&mut self, v: Param) -> (r: u32)
        requires
            old(self).spec_params().len() < u32::MAX,
        ensures
            final(self).spec_params() == old(self).spec_params().push(v),
            r == old(self).spec_params().len(),
            final(self).spec_top_level() == old(self).spec_top_level(),
            final(self).others_unchanged_but_params(*old(self)),
    {
        let data = self.data_mut();
        let r = param_arena_alloc(&mut data.params, v);
        proof {
            assert(self.spec_functions() =~= old(self).spec_functions());
            assert(self.spec_variables() =~= old(self).spec_variables());
            assert(self.spec_macros() =~= old(self).spec_macros());
            assert(self.spec_enums() =~= old(self).spec_enums());
            assert(self.spec_variants() =~= old(self).spec_variants());
            assert(self.spec_enum_structs() =~= old(self).spec_enum_structs());
            assert(self.spec_fields() =~= old(self).spec_fields());
            assert(self.spec_params() =~= old(self).spec_params().push(v));
        }
        r
    }

    /// Allocates `v` in the macro arena of the tree's data (creating the data
    /// if the tree has none) and returns its raw index.
    pub fn alloc_macro(&mut self, v: Macro) -> (r: u32)
        requires
            old(self).spec_macros().len() < u32::MAX,
        ensures
            final(self).spec_macros() == old(self).spec_macros().push(v),
            r == old(self).spec_macros().len(),
            final(self).spec_top_level() == old(self).spec_top_level(),
            final(self).others_unchanged_but_macros(*old(self)),
    {
        let data = self.data_mut();
        let r = macro_arena_alloc(&mut data.macros, v);
        proof {
            assert(self.spec_functions() =~= old(self).spec_functions());
            assert(self.spec_variables() =~= old(self).spec_variables());
            assert(self.spec_params() =~= old(self).spec_params());
            assert(self.spec_enums() =~= old(self).spec_enums());
            assert(self.spec_variants() =~= old(self).spec_variants());
            assert(self.spec_enum_structs() =~= old(self).spec_enum_structs());
            assert(self.spec_fields() =~= old(self).spec_fields());
            assert(self.spec_macros() =~= old(self).spec_macros().push(v));
        }
        r
    }

    /// Allocates `v` in the enum arena of the tree's data (creating the data
    /// if the tree has none) and returns its raw index.
    pub fn alloc_enum(&mut self, v: Enum) -> (r: u32)
        requires
            old(self).spec_enums().len() < u32::MAX,
        ensures
            final(self).spec_enums() == old(self).spec_enums().push(v),
            r == old(self).spec_enums().len(),
            final(self).spec_top_level() == old(self).spec_top_level(),
            final(self).others_unchanged_but_enums(*old(self)),
    {
        let data = self.data_mut();
        let r = enum_arena_alloc(&mut data.enums, v);
        proof {
            assert(self.spec_functions() =~= old(self).spec_functions());
            assert(self.spec_variables() =~= old(self).spec_variables());
            assert(self.spec_params() =~= old(self).spec_params());
            assert(self.spec_macros() =~= old(self).spec_macros());
            assert(self.spec_variants() =~= old(self).spec_variants());
            assert(self.spec_enum_structs() =~= old(self).spec_enum_structs());
            assert(self.spec_fields() =~= old(self).spec_fields());
            assert(self.spec_enums() =~= old(self).spec_enums().push(v));
        }
        r
    }

    /// Allocates `v` in the variant arena of the tree's data (creating the data
    /// if the tree has none) and returns its raw index.
    pub fn alloc_variant(&mut self, v: Variant) -> (r: u32)
        requires
            old(self).spec_variants().len() < u32::MAX,
        ensures
            final(self).spec_variants() == old(self).spec_variants().push(v),
            r == old(self).spec_variants().len(),
            final(self).spec_top_level() == old(self).spec_top_level(),
            final(self).others_unchanged_but_variants(*old(self)),
    {
        let data = self.data_mut();
        let r = variant_arena_alloc(&mut data.variants, v);
        proof {
            assert(self.spec_functions() =~= old(self).spec_functions());
            assert(self.spec_variables() =~= old(self).spec_variables());
            assert(self.spec_params() =~= old(self).spec_params());
            assert(self.spec_macros() =~= old(self).spec_macros());
            assert(self.spec_enums() =~= old(self).spec_enums());
            assert(self.spec_enum_structs() =~= old(self).spec_enum_structs());
            assert(self.spec_fields() =~= old(self).spec_fields());
            assert(self.spec_variants() =~= old(self).spec_variants().push(v));
        }
        r
    }

    /// Allocates `v` in the enum_struct arena of the tree's data (creating the data
    /// if the tree has none) and returns its raw index.
    pub fn alloc_enum_struct(&mut self, v: EnumStruct) -> (r: u32)
        requires
            old(self).spec_enum_structs().len() < u32::MAX,
        ensures
            final(self).spec_enum_structs() == old(self).spec_enum_structs().push(v),
            r == old(self).spec_enum_structs().len(),
            final(self).spec_top_level() == old(self).spec_top_level(),
            final(self).others_unchanged_but_enum_structs(*old(self)),
    {
        let data = self.data_mut();
        let r = enum_struct_arena_alloc(&mut data.enum_structs, v);
        proof {
            assert(self.spec_functions() =~= old(self).spec_functions());
            assert(self.spec_variables() =~= old(self).spec_variables());
            assert(self.spec_params() =~= old(self).spec_params());
            assert(self.spec_macros() =~= old(self).spec_macros());
            assert(self.spec_enums() =~= old(self).spec_enums());
            assert(self.spec_variants() =~= old(self).spec_variants());
            assert(self.spec_fields() =~= old(self).spec_fields());
            assert(self.spec_enum_structs() =~= old(self).spec_enum_structs().push(v));
        }
        r
    }

    /// Allocates `v` in the field arena of the tree's data (creating the data
    /// if the tree has none) and returns its raw index.
    pub fn alloc_field(&mut self, v: Field) -> (r: u32)
        requires
            old(self).spec_fields().len() < u32::MAX,
        ensures
            final(self).spec_fields() == old(self).spec_fields().push(v),
            r == old(self).spec_fields().len(),
            final(self).spec_top_level() == old(self).spec_top_level(),
            final(self).others_unchanged_but_fields(*old(self)),
    {
        let data = self.data_mut();
        let r = field_arena_alloc(&mut data.fields, v);
        proof {
            assert(self.spec_functions() =~= old(self).spec_functions());
            assert(self.spec_variables() =~= old(self).spec_variables());
            assert(self.spec_params() =~= old(self).spec_params());
            assert(self.spec_macros() =~= old(self).spec_macros());
            assert(self.spec_enums() =~= old(self).spec_enums());
            assert(self.spec_variants() =~= old(self).spec_variants());
            assert(self.spec_enum_structs() =~= old(self).spec_enum_structs());
            assert(self.spec_fields() =~= old(self).spec_fields().push(v));
        }
        r
    }
}

} // verus!
