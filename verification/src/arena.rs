//! The arenas of `la_arena` that hold the items of an item tree.
//!
//! An arena is held as it is; what it holds is named per item type, and each
//! arena method that the item tree calls has a trusted wrapper that states,
//! over that name, what `la_arena`'s source does: `Arena::new` holds nothing,
//! `alloc` pushes the value and returns the former length as the index, and
//! indexing returns the value at that position of the arena's vector.

use la_arena::{Arena, Idx, RawIdx};
use vstd::prelude::*;

use crate::item_tree::{Enum, EnumStruct, Field, Function, Macro, Param, Variable, Variant};

verus! {

/// `la_arena::Arena<T>`, held opaque; its contents are named per item type below.
#[verifier::external_type_specification]
#[verifier::external_body]
#[verifier::reject_recursive_types(T)]
pub struct ExArena<T>(Arena<T>);

/// The values that an arena of `Function` holds, in the order of allocation.
pub uninterp spec fn function_arena_items(a: Arena<Function>) -> Seq<Function>;

/// Calls `Arena::new`, which makes an arena whose vector is empty.
#[verifier::external_body]
pub(crate) fn new_function_arena() -> (r: Arena<Function>)
    ensures
        function_arena_items(r) == Seq::<Function>::empty(),
{
    Arena::new()
}

/// Calls `Arena::alloc`, which pushes `v` on the arena's vector and returns
/// the former length as the index (truncated to 32 bits).
#[verifier::external_body]
pub(crate) fn function_arena_alloc(a: &mut Arena<Function>, v: Function) -> (r: u32)
    ensures
        function_arena_items(*final(a)) == function_arena_items(*old(a)).push(v),
        function_arena_items(*old(a)).len() <= u32::MAX ==> r == function_arena_items(*old(a)).len(),
{
    a.alloc(v).into_raw().into_u32()
}

/// Calls `Arena`'s `Index<Idx<T>>`, which returns the value at that position of
/// the arena's vector; the index is built from its raw number.
#[verifier::external_body]
pub(crate) fn function_arena_get(a: &Arena<Function>, i: u32) -> (r: &Function)
    requires
        (i as int) < function_arena_items(*a).len(),
    ensures
        *r == function_arena_items(*a)[i as int],
{
    &a[Idx::from_raw(RawIdx::from_u32(i))]
}

/// The values that an arena of `Variable` holds, in the order of allocation.
pub uninterp spec fn variable_arena_items(a: Arena<Variable>) -> Seq<Variable>;

/// Calls `Arena::new`, which makes an arena whose vector is empty.
#[verifier::external_body]
pub(crate) fn new_variable_arena() -> (r: Arena<Variable>)
    ensures
        variable_arena_items(r) == Seq::<Variable>::empty(),
{
    Arena::new()
}

/// Calls `Arena::alloc`, which pushes `v` on the arena's vector and returns
/// the former length as the index (truncated to 32 bits).
#[verifier::external_body]
pub(crate) fn variable_arena_alloc(a: &mut Arena<Variable>, v: Variable) -> (r: u32)
    ensures
        variable_arena_items(*final(a)) == variable_arena_items(*old(a)).push(v),
        variable_arena_items(*old(a)).len() <= u32::MAX ==> r == variable_arena_items(*old(a)).len(),
{
    a.alloc(v).into_raw().into_u32()
}

/// Calls `Arena`'s `Index<Idx<T>>`, which returns the value at that position of
/// the arena's vector; the index is built from its raw number.
#[verifier::external_body]
pub(crate) fn variable_arena_get(a: &Arena<Variable>, i: u32) -> (r: &Variable)
    requires
        (i as int) < variable_arena_items(*a).len(),
    ensures
        *r == variable_arena_items(*a)[i as int],
{
    &a[Idx::from_raw(RawIdx::from_u32(i))]
}

/// The values that an arena of `Param` holds, in the order of allocation.
pub uninterp spec fn param_arena_items(a: Arena<Param>) -> Seq<Param>;

/// Calls `Arena::new`, which makes an arena whose vector is empty.
#[verifier::external_body]
pub(crate) fn new_param_arena() -> (r: Arena<Param>)
    ensures
        param_arena_items(r) == Seq::<Param>::empty(),
{
    Arena::new()
}

/// Calls `Arena::alloc`, which pushes `v` on the arena's vector and returns
/// the former length as the index (truncated to 32 bits).
#[verifier::external_body]
pub(crate) fn param_arena_alloc(a: &mut Arena<Param>, v: Param) -> (r: u32)
    ensures
        param_arena_items(*final(a)) == param_arena_items(*old(a)).push(v),
        param_arena_items(*old(a)).len() <= u32::MAX ==> r == param_arena_items(*old(a)).len(),
{
    a.alloc(v).into_raw().into_u32()
}

/// Calls `Arena`'s `Index<Idx<T>>`, which returns the value at that position of
/// the arena's vector; the index is built from its raw number.
#[verifier::external_body]
pub(crate) fn param_arena_get(a: &Arena<Param>, i: u32) -> (r: &Param)
    requires
        (i as int) < param_arena_items(*a).len(),
    ensures
        *r == param_arena_items(*a)[i as int],
{
    &a[Idx::from_raw(RawIdx::from_u32(i))]
}

/// The values that an arena of `Macro` holds, in the order of allocation.
pub uninterp spec fn macro_arena_items(a: Arena<Macro>) -> Seq<Macro>;

/// Calls `Arena::new`, which makes an arena whose vector is empty.
#[verifier::external_body]
pub(crate) fn new_macro_arena() -> (r: Arena<Macro>)
    ensures
        macro_arena_items(r) == Seq::<Macro>::empty(),
{
    Arena::new()
}

/// Calls `Arena::alloc`, which pushes `v` on the arena's vector and returns
/// the former length as the index (truncated to 32 bits).
#[verifier::external_body]
pub(crate) fn macro_arena_alloc(a: &mut Arena<Macro>, v: Macro) -> (r: u32)
    ensures
        macro_arena_items(*final(a)) == macro_arena_items(*old(a)).push(v),
        macro_arena_items(*old(a)).len() <= u32::MAX ==> r == macro_arena_items(*old(a)).len(),
{
    a.alloc(v).into_raw().into_u32()
}

/// Calls `Arena`'s `Index<Idx<T>>`, which returns the value at that position of
/// the arena's vector; the index is built from its raw number.
#[verifier::external_body]
pub(crate) fn macro_arena_get(a: &Arena<Macro>, i: u32) -> (r: &Macro)
    requires
        (i as int) < macro_arena_items(*a).len(),
    ensures
        *r == macro_arena_items(*a)[i as int],
{
    &a[Idx::from_raw(RawIdx::from_u32(i))]
}

/// The values that an arena of `Enum` holds, in the order of allocation.
pub uninterp spec fn enum_arena_items(a: Arena<Enum>) -> Seq<Enum>;

/// Calls `Arena::new`, which makes an arena whose vector is empty.
#[verifier::external_body]
pub(crate) fn new_enum_arena() -> (r: Arena<Enum>)
    ensures
        enum_arena_items(r) == Seq::<Enum>::empty(),
{
    Arena::new()
}

/// Calls `Arena::alloc`, which pushes `v` on the arena's vector and returns
/// the former length as the index (truncated to 32 bits).
#[verifier::external_body]
pub(crate) fn enum_arena_alloc(a: &mut Arena<Enum>, v: Enum) -> (r: u32)
    ensures
        enum_arena_items(*final(a)) == enum_arena_items(*old(a)).push(v),
        enum_arena_items(*old(a)).len() <= u32::MAX ==> r == enum_arena_items(*old(a)).len(),
{
    a.alloc(v).into_raw().into_u32()
}

/// Calls `Arena`'s `Index<Idx<T>>`, which returns the value at that position of
/// the arena's vector; the index is built from its raw number.
#[verifier::external_body]
pub(crate) fn enum_arena_get(a: &Arena<Enum>, i: u32) -> (r: &Enum)
    requires
        (i as int) < enum_arena_items(*a).len(),
    ensures
        *r == enum_arena_items(*a)[i as int],
{
    &a[Idx::from_raw(RawIdx::from_u32(i))]
}

/// The values that an arena of `Variant` holds, in the order of allocation.
pub uninterp spec fn variant_arena_items(a: Arena<Variant>) -> Seq<Variant>;

/// Calls `Arena::new`, which makes an arena whose vector is empty.
#[verifier::external_body]
pub(crate) fn new_variant_arena() -> (r: Arena<Variant>)
    ensures
        variant_arena_items(r) == Seq::<Variant>::empty(),
{
    Arena::new()
}

/// Calls `Arena::alloc`, which pushes `v` on the arena's vector and returns
/// the former length as the index (truncated to 32 bits).
#[verifier::external_body]
pub(crate) fn variant_arena_alloc(a: &mut Arena<Variant>, v: Variant) -> (r: u32)
    ensures
        variant_arena_items(*final(a)) == variant_arena_items(*old(a)).push(v),
        variant_arena_items(*old(a)).len() <= u32::MAX ==> r == variant_arena_items(*old(a)).len(),
{
    a.alloc(v).into_raw().into_u32()
}

/// Calls `Arena`'s `Index<Idx<T>>`, which returns the value at that position of
/// the arena's vector; the index is built from its raw number.
#[verifier::external_body]
pub(crate) fn variant_arena_get(a: &Arena<Variant>, i: u32) -> (r: &Variant)
    requires
        (i as int) < variant_arena_items(*a).len(),
    ensures
        *r == variant_arena_items(*a)[i as int],
{
    &a[Idx::from_raw(RawIdx::from_u32(i))]
}

/// The values that an arena of `EnumStruct` holds, in the order of allocation.
pub uninterp spec fn enum_struct_arena_items(a: Arena<EnumStruct>) -> Seq<EnumStruct>;

/// Calls `Arena::new`, which makes an arena whose vector is empty.
#[verifier::external_body]
pub(crate) fn new_enum_struct_arena() -> (r: Arena<EnumStruct>)
    ensures
        enum_struct_arena_items(r) == Seq::<EnumStruct>::empty(),
{
    Arena::new()
}

/// Calls `Arena::alloc`, which pushes `v` on the arena's vector and returns
/// the former length as the index (truncated to 32 bits).
#[verifier::external_body]
pub(crate) fn enum_struct_arena_alloc(a: &mut Arena<EnumStruct>, v: EnumStruct) -> (r: u32)
    ensures
        enum_struct_arena_items(*final(a)) == enum_struct_arena_items(*old(a)).push(v),
        enum_struct_arena_items(*old(a)).len() <= u32::MAX ==> r == enum_struct_arena_items(*old(a)).len(),
{
    a.alloc(v).into_raw().into_u32()
}

/// Calls `Arena`'s `Index<Idx<T>>`, which returns the value at that position of
/// the arena's vector; the index is built from its raw number.
#[verifier::external_body]
pub(crate) fn enum_struct_arena_get(a: &Arena<EnumStruct>, i: u32) -> (r: &EnumStruct)
    requires
        (i as int) < enum_struct_arena_items(*a).len(),
    ensures
        *r == enum_struct_arena_items(*a)[i as int],
{
    &a[Idx::from_raw(RawIdx::from_u32(i))]
}

/// The values that an arena of `Field` holds, in the order of allocation.
pub uninterp spec fn field_arena_items(a: Arena<Field>) -> Seq<Field>;

/// Calls `Arena::new`, which makes an arena whose vector is empty.
#[verifier::external_body]
pub(crate) fn new_field_arena() -> (r: Arena<Field>)
    ensures
        field_arena_items(r) == Seq::<Field>::empty(),
{
    Arena::new()
}

/// Calls `Arena::alloc`, which pushes `v` on the arena's vector and returns
/// the former length as the index (truncated to 32 bits).
#[verifier::external_body]
pub(crate) fn field_arena_alloc(a: &mut Arena<Field>, v: Field) -> (r: u32)
    ensures
        field_arena_items(*final(a)) == field_arena_items(*old(a)).push(v),
        field_arena_items(*old(a)).len() <= u32::MAX ==> r == field_arena_items(*old(a)).len(),
{
    a.alloc(v).into_raw().into_u32()
}

/// Calls `Arena`'s `Index<Idx<T>>`, which returns the value at that position of
/// the arena's vector; the index is built from its raw number.
#[verifier::external_body]
pub(crate) fn field_arena_get(a: &Arena<Field>, i: u32) -> (r: &Field)
    requires
        (i as int) < field_arena_items(*a).len(),
    ensures
        *r == field_arena_items(*a)[i as int],
{
    &a[Idx::from_raw(RawIdx::from_u32(i))]
}

} // verus!
