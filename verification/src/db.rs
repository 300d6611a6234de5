//! The definitions database: the item tree of each file, and the interning
//! of function locations into small ids that can be looked up again.

use std::sync::Arc;
use vstd::prelude::*;

use crate::item_tree::{FileId, FileItemTreeId, Function, ItemTree, ItemTreeNode};

verus! {

/// Identifies a particular [`ItemTree`].
#[derive(Debug, PartialEq, Eq, Structural, Clone, Copy, Hash)]
pub struct TreeId {
    pub file: FileId,
}

impl TreeId {
    /// The id of the item tree of `file`.
    pub fn new(file: FileId) -> (r: TreeId)
        ensures
            r.file == file,
    {
        TreeId { file }
    }

    /// The item tree that `db` holds for this tree's file.
    pub fn item_tree(&self, db: &DefDatabase) -> (r: Arc<ItemTree>)
        ensures
            r.spec_top_level().len() == 0,
            r.data is None,
    {
        db.file_item_tree(self.file)
    }

    /// The file of this tree.
    pub fn file_id(self) -> (r: FileId)
        ensures
            r == self.file,
    {
        self.file
    }
}

/// An item of kind `N` of the item tree of one file.
#[derive(Debug, PartialEq, Eq, Hash)]
pub struct ItemTreeId<N: ItemTreeNode> {
    pub tree: TreeId,
    pub value: FileItemTreeId<N>,
}

impl<N: ItemTreeNode> Clone for ItemTreeId<N> {
    fn clone(&self) -> (r: Self)
        ensures
            r == *self,
    {
        ItemTreeId { tree: self.tree, value: self.value.clone() }
    }
}

impl<N: ItemTreeNode> Copy for ItemTreeId<N> {}

impl<N: ItemTreeNode> ItemTreeId<N> {
    /// The two ids name the same item of the same file.
    pub open spec fn same_item(self, other: ItemTreeId<N>) -> bool {
        self.tree == other.tree && self.value.index == other.value.index
    }

    /// The id of the item at raw index `index` of the tree `tree`.
    pub fn new(tree: TreeId, index: u32) -> (r: ItemTreeId<N>)
        ensures
            r.tree == tree,
            r.value.index == index,
    {
        ItemTreeId { tree, value: FileItemTreeId::new(index) }
    }

    /// The item tree that `db` holds for this item's file.
    pub fn item_tree(self, db: &DefDatabase) -> (r: Arc<ItemTree>)
        ensures
            r.spec_top_level().len() == 0,
            r.data is None,
    {
        self.tree.item_tree(db)
    }

    /// The two ids name the same item of the same file.
    pub fn eq_item(&self, other: &ItemTreeId<N>) -> (r: bool)
        ensures
            r == self.same_item(*other),
    {
        self.tree.file.0 == other.tree.file.0 && self.value.index == other.value.index
    }
}

/// The location of a function: the function of the item tree of a file.
pub type FunctionLoc = ItemTreeId<Function>;

/// A small id that a [`FunctionLoc`] is interned as.
#[derive(Debug, Clone, Copy, PartialEq, Eq, Structural, Hash)]
pub struct FunctionId(pub u32);

/// The definitions database. Function locations are interned in the order in
/// which they are first seen: the id of a location is its position in
/// `function_locs`.
pub struct DefDatabase {
    pub function_locs: Vec<FunctionLoc>,
}

/// The position of the first location of `locs` that names the same item as
/// `loc`, if there is one.
pub open spec fn position_of(locs: Seq<FunctionLoc>, loc: FunctionLoc) -> Option<int>
    decreases locs.len(),
{
    if locs.len() == 0 {
        None
    } else {
        match position_of(locs.drop_last(), loc) {
            Some(i) => Some(i),
            None => if locs.last().same_item(loc) {
                Some(locs.len() - 1)
            } else {
                None
            },
        }
    }
}

/// The locations and the id after interning `loc` into `locs`: a location
/// seen before keeps its id; a new one is appended and gets the next id.
pub open spec fn spec_intern(locs: Seq<FunctionLoc>, loc: FunctionLoc) -> (Seq<FunctionLoc>, int) {
    match position_of(locs, loc) {
        Some(i) => (locs, i),
        None => (locs.push(loc), locs.len() as int),
    }
}

/// `position_of` finds a location that names the same item, before which no
/// location does so; it finds none only where no location does so.
pub proof fn lemma_position_of(locs: Seq<FunctionLoc>, loc: FunctionLoc)
    ensures
        position_of(locs, loc) matches Some(i) ==> {
            &&& 0 <= i < locs.len()
            &&& locs[i].same_item(loc)
            &&& forall|j: int| 0 <= j < i ==> !(#[trigger] locs[j]).same_item(loc)
        },
        position_of(locs, loc) is None ==> forall|j: int|
            0 <= j < locs.len() ==> !(#[trigger] locs[j]).same_item(loc),
    decreases locs.len(),
{
    if locs.len() > 0 {
        lemma_position_of(locs.drop_last(), loc);
        assert forall|j: int| 0 <= j < locs.len() - 1 implies #[trigger] locs[j] == locs.drop_last()[j] by {}
    }
}

/// Looking up the id that interning gives back names the interned location.
pub proof fn lemma_lookup_after_intern(locs: Seq<FunctionLoc>, loc: FunctionLoc)
    ensures
        0 <= spec_intern(locs, loc).1 < spec_intern(locs, loc).0.len(),
        spec_intern(locs, loc).0[spec_intern(locs, loc).1].same_item(loc),
{
    lemma_position_of(locs, loc);
}

/// Interning keeps every id that was given before: the locations only grow
/// at the end.
pub proof fn lemma_intern_keeps_ids(locs: Seq<FunctionLoc>, loc: FunctionLoc)
    ensures
        locs.len() <= spec_intern(locs, loc).0.len() <= locs.len() + 1,
        forall|j: int| 0 <= j < locs.len() ==> #[trigger] spec_intern(locs, loc).0[j] == locs[j],
{
}

/// Interning a location twice gives the same id both times, and the second
/// time leaves the locations as they are.
pub proof fn lemma_intern_idempotent(locs: Seq<FunctionLoc>, loc: FunctionLoc)
    ensures
        spec_intern(spec_intern(locs, loc).0, loc) == spec_intern(locs, loc),
{
    lemma_position_of(locs, loc);
    let locs2 = spec_intern(locs, loc).0;
    lemma_position_of(locs2, loc);
    if position_of(locs, loc) is None {
        assert(locs2.drop_last() =~= locs);
        assert(locs2.last() == loc);
    }
}

impl DefDatabase {
    /// A database with no interned location.
    pub fn new() -> (r: DefDatabase)
        ensures
            r.function_locs@ == Seq::<FunctionLoc>::empty(),
    {
        DefDatabase { function_locs: Vec::new() }
    }

    /// The item tree of `file`: every file's tree is built empty.
    pub fn file_item_tree(&self, file: FileId) -> (r: Arc<ItemTree>)
        ensures
            r.spec_top_level().len() == 0,
            r.data is None,
    {
        Arc::new(ItemTree::new())
    }

    /// Interns `loc`: the id of the first location that names the same item,
    /// or a new id for a location not seen before.
    pub fn intern_function(&mut self, loc: FunctionLoc) -> (r: FunctionId)
        requires
            old(self).function_locs.len() < u32::MAX,
        ensures
            final(self).function_locs@ == spec_intern(old(self).function_locs@, loc).0,
            r.0 == spec_intern(old(self).function_locs@, loc).1,
    {
        let n = self.function_locs.len();
        let mut i: usize = 0;
        while i < n
            invariant
                n == self.function_locs.len(),
                n < u32::MAX,
                self.function_locs@ == old(self).function_locs@,
                i <= n,
                position_of(self.function_locs@.take(i as int), loc) is None,
            decreases n - i,
        {
            let ghost locs = self.function_locs@;
            proof {
                assert(locs.take(i + 1).drop_last() =~= locs.take(i as int));
            }
            if self.function_locs[i].eq_item(&loc) {
                proof {
                    assert(locs.take(i + 1).last() == locs[i as int]);
                    assert(position_of(locs.take(i + 1), loc) == Some(i as int));
                    lemma_prefix_position(locs, i as int + 1, loc);
                }
                return FunctionId(i as u32);
            }
            i = i + 1;
        }
        proof {
            assert(self.function_locs@.take(n as int) =~= self.function_locs@);
        }
        self.function_locs.push(loc);
        FunctionId(n as u32)
    }

    /// The location that `id` was interned from.
    pub fn lookup_intern_function(&self, id: FunctionId) -> (r: FunctionLoc)
        requires
            id.0 < self.function_locs.len(),
        ensures
            r == self.function_locs@[id.0 as int],
    {
        self.function_locs[id.0 as usize]
    }
}

/// Where a prefix of `locs` holds a location naming the item of `loc`, the
/// first such location of `locs` is the first one of the prefix.
proof fn lemma_prefix_position(locs: Seq<FunctionLoc>, k: int, loc: FunctionLoc)
    requires
        0 <= k <= locs.len(),
    ensures
        position_of(locs.take(k), loc) is Some ==> position_of(locs, loc) == position_of(
            locs.take(k),
            loc,
        ),
    decreases locs.len() - k,
{
    if k < locs.len() {
        lemma_prefix_position(locs, k + 1, loc);
        assert(locs.take(k + 1).drop_last() =~= locs.take(k));
    } else {
        assert(locs.take(k) =~= locs);
    }
}

/// A value that can be interned in the database.
pub trait Intern {
    type ID;

    fn intern(self, db: &mut DefDatabase) -> Self::ID
        requires
            old(db).function_locs.len() < u32::MAX,
    ;
}

impl Intern for FunctionLoc {
    type ID = FunctionId;

    fn intern(self, db: &mut DefDatabase) -> (r: FunctionId)
        ensures
            final(db).function_locs@ == spec_intern(old(db).function_locs@, self).0,
            r.0 == spec_intern(old(db).function_locs@, self).1,
    {
        db.intern_function(self)
    }
}

/// An interned id whose data can be looked up in the database.
pub trait Lookup {
    type Data;

    /// The id was given by the database.
    spec fn spec_is_known(&self, db: &DefDatabase) -> bool;

    fn lookup(&self, db: &DefDatabase) -> Self::Data
        requires
            self.spec_is_known(db),
    ;
}

impl Lookup for FunctionId {
    type Data = FunctionLoc;

    open spec fn spec_is_known(&self, db: &DefDatabase) -> bool {
        self.0 < db.function_locs.len()
    }

    fn lookup(&self, db: &DefDatabase) -> (r: FunctionLoc)
        ensures
            r == db.function_locs@[self.0 as int],
    {
        db.lookup_intern_function(*self)
    }
}

} // verus!
