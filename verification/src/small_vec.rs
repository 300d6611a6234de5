//! The `smallvec` vector that holds the top-level items of an item tree.
//!
//! The vector lives in a private field of [`TopLevelItems`], whose contents
//! are named; each method of the vector that the item tree calls has a
//! trusted wrapper that states, over that name, what `smallvec`'s source does.

use smallvec::SmallVec;
use vstd::prelude::*;

use crate::item_tree::FileItem;

verus! {

/// A `smallvec::SmallVec<[FileItem; 1]>` of top-level items. (Verus does not
/// take a declaration of `SmallVec` itself, whose parameter is bound by the
/// crate's `Array` trait.)
#[verifier::external_body]
pub struct TopLevelItems {
    items: SmallVec<[FileItem; 1]>,
}

/// The items that the vector holds, in order.
pub uninterp spec fn top_level_items(v: TopLevelItems) -> Seq<FileItem>;

/// Calls `SmallVec::new`, which makes a vector of length zero.
#[verifier::external_body]
pub(crate) fn new_top_level_items() -> (r: TopLevelItems)
    ensures
        top_level_items(r) == Seq::<FileItem>::empty(),
{
    TopLevelItems { items: SmallVec::new() }
}

/// Calls `SmallVec::push`, which appends the item at the end.
#[verifier::external_body]
pub(crate) fn top_level_items_push(v: &mut TopLevelItems, item: FileItem)
    ensures
        top_level_items(*final(v)) == top_level_items(*old(v)).push(item),
{
    v.items.push(item)
}

/// Calls `SmallVec::len`, the number of items held.
#[verifier::external_body]
pub(crate) fn top_level_items_len(v: &TopLevelItems) -> (r: usize)
    ensures
        r == top_level_items(*v).len(),
{
    v.items.len()
}

/// Calls `SmallVec`'s `Index<usize>`, the item at position `i`.
#[verifier::external_body]
pub(crate) fn top_level_items_get(v: &TopLevelItems, i: usize) -> (r: &FileItem)
    requires
        i < top_level_items(*v).len(),
    ensures
        *r == top_level_items(*v)[i as int],
{
    &v.items[i]
}

} // verus!
