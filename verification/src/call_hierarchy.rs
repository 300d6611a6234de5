//! The decisions of the call hierarchy: which syntax nodes hold a function,
//! which node of a call names the callee, which reference is the definition
//! itself, what an item of the hierarchy shows, and how call sites are
//! grouped by the function they call or are made from.

use tree_sitter::Node;
use vstd::prelude::*;

use crate::db::FunctionId;
use crate::grouping::{
    group_position, lemma_group_pairs, lemma_group_position, lemma_group_position_prefix,
    spec_group_pairs,
};
use crate::item_tree::FileId;
use crate::lsp::Range;
use crate::syntax_kind::TSKind;
use crate::ts::{field_child, kind_id_of, node_child_by_field_name, TextError};

verus! {

/// The kind of a function, as its declaration makes it.
#[derive(Debug, Clone, Copy, PartialEq, Eq, Structural, Hash)]
pub enum FunctionType {
    Function,
    Constructor,
    Destructor,
    Method,
    Getter,
    Setter,
}

/// The kind of symbol that an item of the hierarchy is shown as.
#[derive(Debug, Clone, Copy, PartialEq, Eq, Structural, Hash)]
pub enum SymbolKind {
    Function,
    Constructor,
    Destructor,
    Method,
}

/// The kind of symbol that a function of kind `kind` is shown as: methods,
/// getters and setters are all methods.
pub open spec fn spec_symbol_kind(kind: FunctionType) -> SymbolKind {
    match kind {
        FunctionType::Function => SymbolKind::Function,
        FunctionType::Constructor => SymbolKind::Constructor,
        FunctionType::Destructor => SymbolKind::Destructor,
        FunctionType::Method | FunctionType::Getter | FunctionType::Setter => SymbolKind::Method,
    }
}

/// The kind of symbol that a function of kind `kind` is shown as.
pub fn symbol_kind(kind: FunctionType) -> (r: SymbolKind)
    ensures
        r == spec_symbol_kind(kind),
{
    match kind {
        FunctionType::Function => SymbolKind::Function,
        FunctionType::Constructor => SymbolKind::Constructor,
        FunctionType::Destructor => SymbolKind::Destructor,
        FunctionType::Method | FunctionType::Getter | FunctionType::Setter => SymbolKind::Method,
    }
}

/// A node of kind `kind` holds the body of a function: a function
/// definition, an enum struct method, or a native, method, constructor,
/// destructor or property accessor of a methodmap.
pub open spec fn spec_is_function_container(kind: Option<TSKind>) -> bool {
    match kind {
        Some(TSKind::function_definition) => true,
        Some(TSKind::enum_struct_method) => true,
        Some(TSKind::methodmap_native) => true,
        Some(TSKind::methodmap_native_constructor) => true,
        Some(TSKind::methodmap_native_destructor) => true,
        Some(TSKind::methodmap_method) => true,
        Some(TSKind::methodmap_method_constructor) => true,
        Some(TSKind::methodmap_method_destructor) => true,
        Some(TSKind::methodmap_property_getter) => true,
        Some(TSKind::methodmap_property_setter) => true,
        Some(TSKind::methodmap_property_native) => true,
        Some(TSKind::methodmap_property_method) => true,
        _ => false,
    }
}

/// A node of kind `kind` holds the body of a function.
pub fn is_function_container(kind: Option<TSKind>) -> (r: bool)
    ensures
        r == spec_is_function_container(kind),
{
    match kind {
        Some(TSKind::function_definition) => true,
        Some(TSKind::enum_struct_method) => true,
        Some(TSKind::methodmap_native) => true,
        Some(TSKind::methodmap_native_constructor) => true,
        Some(TSKind::methodmap_native_destructor) => true,
        Some(TSKind::methodmap_method) => true,
        Some(TSKind::methodmap_method_constructor) => true,
        Some(TSKind::methodmap_method_destructor) => true,
        Some(TSKind::methodmap_property_getter) => true,
        Some(TSKind::methodmap_property_setter) => true,
        Some(TSKind::methodmap_property_native) => true,
        Some(TSKind::methodmap_property_method) => true,
        _ => false,
    }
}

/// The position, among the kinds of the ancestors of a node (its parent
/// first, the root last), of the function that holds the node: the nearest
/// ancestor that holds a function, provided it is not the root. `None` where
/// no ancestor but the root holds a function.
pub fn enclosing_function_position(ancestors: &Vec<Option<TSKind>>) -> (r: Option<usize>)
    ensures
        enclosing_position_meets(ancestors@, r),
        r matches Some(i) ==> {
            &&& i + 1 < ancestors@.len()
            &&& spec_is_function_container(ancestors@[i as int])
            &&& forall|j: int| 0 <= j < i ==> !spec_is_function_container(#[trigger] ancestors@[j])
        },
        r is None ==> forall|j: int|
            0 <= j < ancestors@.len() - 1 ==> !spec_is_function_container(#[trigger] ancestors@[j]),
{
    let mut i: usize = 0;
    while i < ancestors.len()
        invariant
            i <= ancestors@.len(),
            forall|j: int| 0 <= j < i ==> !spec_is_function_container(#[trigger] ancestors@[j]),
        decreases ancestors@.len() - i,
    {
        if is_function_container(ancestors[i]) {
            if i + 1 < ancestors.len() {
                return Some(i);
            } else {
                return None;
            }
        }
        i = i + 1;
    }
    None
}

/// The nodes that hold a function's body are exactly those of the twelve
/// function kinds: function definitions, enum struct methods, and the
/// natives, methods, constructors, destructors and property accessors of
/// methodmaps; no other kind, and no unknown kind, holds one.
pub proof fn lemma_function_container_kinds(k: TSKind)
    ensures
        spec_is_function_container(Some(k)) <==> (k == TSKind::function_definition || k
            == TSKind::enum_struct_method || k == TSKind::methodmap_native || k
            == TSKind::methodmap_native_constructor || k == TSKind::methodmap_native_destructor || k
            == TSKind::methodmap_method || k == TSKind::methodmap_method_constructor || k
            == TSKind::methodmap_method_destructor || k == TSKind::methodmap_property_getter || k
            == TSKind::methodmap_property_setter || k == TSKind::methodmap_property_native || k
            == TSKind::methodmap_property_method),
        !spec_is_function_container(None),
{
}

/// The function that holds a node is its nearest ancestor of one of the
/// twelve function kinds, unless that ancestor is the root: where the
/// ancestor at `i` (parent first) is of such a kind, no nearer one is, and a
/// further ancestor exists, the enclosing function is the one at `i`.
pub proof fn lemma_enclosing_function(ancestors: Seq<Option<TSKind>>, i: int, k: TSKind)
    requires
        0 <= i < ancestors.len() - 1,
        ancestors[i] == Some(k),
        k == TSKind::function_definition || k == TSKind::enum_struct_method || k
            == TSKind::methodmap_native || k == TSKind::methodmap_native_constructor || k
            == TSKind::methodmap_native_destructor || k == TSKind::methodmap_method || k
            == TSKind::methodmap_method_constructor || k == TSKind::methodmap_method_destructor || k
            == TSKind::methodmap_property_getter || k == TSKind::methodmap_property_setter || k
            == TSKind::methodmap_property_native || k == TSKind::methodmap_property_method,
        forall|j: int|
            0 <= j < i ==> !spec_is_function_container(#[trigger] ancestors[j]),
    ensures
        spec_is_function_container(ancestors[i]),
        forall|r: Option<usize>|
            #![trigger enclosing_position_meets(ancestors, r)]
            enclosing_position_meets(ancestors, r) ==> r == Some(i as usize),
{
    lemma_function_container_kinds(k);
    assert forall|r: Option<usize>| #![trigger enclosing_position_meets(ancestors, r)]
        enclosing_position_meets(ancestors, r) implies r == Some(i as usize) by {
        match r {
            Some(p) => {
                if (p as int) < i {
                    assert(!spec_is_function_container(ancestors[p as int]));
                } else if (p as int) > i {
                    assert(!spec_is_function_container(ancestors[i]));
                }
            },
            None => {
                assert(!spec_is_function_container(ancestors[i]));
            },
        }
    }
}

/// `r` meets what [`enclosing_function_position`] promises of its result for
/// the ancestor kinds `ancestors`.
pub open spec fn enclosing_position_meets(ancestors: Seq<Option<TSKind>>, r: Option<usize>) -> bool {
    &&& r matches Some(i) ==> {
        &&& i + 1 < ancestors.len()
        &&& spec_is_function_container(ancestors[i as int])
        &&& forall|j: int| 0 <= j < i ==> !spec_is_function_container(#[trigger] ancestors[j])
    }
    &&& r is None ==> forall|j: int|
        0 <= j < ancestors.len() - 1 ==> !spec_is_function_container(#[trigger] ancestors[j])
}

/// The node that names the callee of a call: for a call whose `function`
/// child is an identifier, that identifier; for one whose `function` child
/// is a field access, the access's `field` child (the method's name, not the
/// whole access); for any other `function` child, or none, no node.
pub proof fn lemma_callee_node(call: Node, f: Node)
    ensures
        field_child(call, "function"@) is None ==> spec_callee_node(call) is None,
        field_child(call, "function"@) == Some(f) ==> {
            &&& TSKind::spec_from_id(kind_id_of(f)) == Some(TSKind::identifier) ==> spec_callee_node(
                call,
            ) == Some(f)
            &&& TSKind::spec_from_id(kind_id_of(f)) == Some(TSKind::field_access)
                ==> spec_callee_node(call) == field_child(f, "field"@)
            &&& TSKind::spec_from_id(kind_id_of(f)) != Some(TSKind::identifier)
                && TSKind::spec_from_id(kind_id_of(f)) != Some(TSKind::field_access)
                ==> spec_callee_node(call) is None
        },
{
}

/// Which node of a call names the called function, from the kind of the
/// call's `function` node.
#[derive(Debug, Clone, Copy, PartialEq, Eq, Structural)]
pub enum CalleeChoice {
    /// The `function` node itself, an identifier.
    Itself,
    /// The `field` child of the `function` node, a field access.
    Field,
    /// No node: the call is not of a named function.
    Skip,
}

/// Which node of a call names the called function, from the kind of the
/// call's `function` node.
pub open spec fn spec_callee_choice(kind: Option<TSKind>) -> CalleeChoice {
    match kind {
        Some(TSKind::identifier) => CalleeChoice::Itself,
        Some(TSKind::field_access) => CalleeChoice::Field,
        _ => CalleeChoice::Skip,
    }
}

/// Which node of a call names the called function.
pub fn callee_choice(kind: Option<TSKind>) -> (r: CalleeChoice)
    ensures
        r == spec_callee_choice(kind),
{
    match kind {
        Some(TSKind::identifier) => CalleeChoice::Itself,
        Some(TSKind::field_access) => CalleeChoice::Field,
        _ => CalleeChoice::Skip,
    }
}

/// The node of the call expression `call` that names the called function:
/// its `function` child where that is an identifier, the `field` child of
/// that child where it is a field access, else none.
pub open spec fn spec_callee_node(call: Node) -> Option<Node> {
    match field_child(call, "function"@) {
        None => None,
        Some(f) => match spec_callee_choice(TSKind::spec_from_id(kind_id_of(f))) {
            CalleeChoice::Itself => Some(f),
            CalleeChoice::Field => field_child(f, "field"@),
            CalleeChoice::Skip => None,
        },
    }
}

/// The node of the call expression `call` that names the called function:
/// its `function` child where that is an identifier, the `field` child of
/// that child where it is a field access, else none.
pub fn callee_node<'tree>(call: &Node<'tree>) -> (r: Option<Node<'tree>>)
    ensures
        r == spec_callee_node(*call),
{
    let function = node_child_by_field_name(call, "function")?;
    match callee_choice(TSKind::from_node(&function)) {
        CalleeChoice::Itself => Some(function),
        CalleeChoice::Field => node_child_by_field_name(&function, "field"),
        CalleeChoice::Skip => None,
    }
}

/// A reference at `range` of the file `file` is the name of the definition
/// itself, of the function defined in `def_file` whose name spans
/// `name_range`.
pub fn is_definition_site(file: FileId, range: Range, def_file: FileId, name_range: Range) -> (r:
    bool)
    ensures
        r == (file == def_file && range == name_range),
{
    file.0 == def_file.0 && range.start.line == name_range.start.line && range.start.character
        == name_range.start.character && range.end.line == name_range.end.line
        && range.end.character == name_range.end.character
}

/// An item of the call hierarchy: a function, as the hierarchy shows it.
#[derive(Debug, Clone, PartialEq, Eq)]
pub struct CallItem {
    pub name: String,
    pub kind: SymbolKind,
    pub deprecated: bool,
    pub details: String,
    pub file_id: FileId,
    pub full_range: Range,
    pub focus_range: Option<Range>,
    pub data: Option<FunctionId>,
}

/// A function that calls the function asked about, with the ranges of its
/// calls.
#[derive(Debug, Clone, PartialEq, Eq)]
pub struct IncomingCallItem {
    pub call_item: CallItem,
    pub ranges: Vec<Range>,
}

/// A function that the function asked about calls, with the ranges of the
/// calls.
#[derive(Debug, Clone, PartialEq, Eq)]
pub struct OutgoingCallItem {
    pub call_item: CallItem,
    pub ranges: Vec<Range>,
}

/// The item of the hierarchy for the function `func` of kind `kind`, from
/// what was read of its declaration: the text of the declaration (or the
/// error met in reading it), whether it is deprecated, its signature, its
/// file, the range of the declaration and that of its name, if it has one.
/// `None` where the text cannot be read.
pub fn call_item_from_parts(
    name: Result<String, TextError>,
    kind: FunctionType,
    deprecated: bool,
    details: String,
    file_id: FileId,
    full_range: Range,
    focus_range: Option<Range>,
    func: FunctionId,
) -> (r: Option<CallItem>)
    ensures
        r is Some <==> name is Ok,
        r matches Some(item) ==> {
            &&& item.name@ == name->Ok_0@
            &&& item.kind == spec_symbol_kind(kind)
            &&& item.deprecated == deprecated
            &&& item.details == details
            &&& item.file_id == file_id
            &&& item.full_range == full_range
            &&& item.focus_range == focus_range
            &&& item.data == Some(func)
        },
{
    let name = match name {
        Ok(n) => n,
        Err(_) => return None,
    };
    Some(
        CallItem {
            name,
            kind: symbol_kind(kind),
            deprecated,
            details,
            file_id,
            full_range,
            focus_range,
            data: Some(func),
        },
    )
}

/// The call sites `calls`, each a function with the range of one call,
/// grouped by function: no function twice, each with the ranges of its calls
/// in their order.
pub fn group_call_ranges(calls: Vec<(FunctionId, Range)>) -> (r: Vec<(FunctionId, Vec<Range>)>)
    ensures
        r@.map_values(|g: (FunctionId, Vec<Range>)| (g.0, g.1@)) == spec_group_pairs(calls@),
        distinct_keys(r@.map_values(|g: (FunctionId, Vec<Range>)| (g.0, g.1@))),
        forall|k: int| 0 <= k < r@.len() ==> (#[trigger] r@[k]).1@.len() > 0,
{
    proof {
        lemma_group_pairs(calls@);
    }
    let ghost ps = calls@;
    let mut groups: Vec<(FunctionId, Vec<Range>)> = Vec::new();
    let mut i: usize = 0;
    proof {
        assert(groups@.map_values(|g: (FunctionId, Vec<Range>)| (g.0, g.1@)) =~= spec_group_pairs(
            ps.take(0),
        ));
    }
    while i < calls.len()
        invariant
            ps == calls@,
            i <= calls@.len(),
            groups@.map_values(|g: (FunctionId, Vec<Range>)| (g.0, g.1@)) == spec_group_pairs(
                ps.take(i as int),
            ),
        decreases calls@.len() - i,
    {
        let (func, range) = calls[i];
        let ghost before = groups@.map_values(|g: (FunctionId, Vec<Range>)| (g.0, g.1@));
        proof {
            assert(ps.take(i + 1).drop_last() =~= ps.take(i as int));
            assert(ps.take(i + 1).last() == (func, range));
            lemma_group_position(before, func);
        }
        match find_call_group(&groups, func) {
            Some(k) => {
                let ghost groups_before = groups@;
                let (key, mut ranges) = groups.remove(k);
                let ghost old_ranges = ranges@;
                ranges.push(range);
                let ghost new_group = (key, ranges);
                groups.insert(k, (key, ranges));
                proof {
                    assert(groups@ =~= groups_before.update(k as int, new_group));
                    assert(groups@.map_values(|g: (FunctionId, Vec<Range>)| (g.0, g.1@))
                        =~= before.update(
                        k as int,
                        (before[k as int].0, before[k as int].1.push(range)),
                    ));
                }
            },
            None => {
                let mut ranges = Vec::new();
                ranges.push(range);
                groups.push((func, ranges));
                proof {
                    assert(ranges@ =~= seq![range]);
                    assert(groups@.map_values(|g: (FunctionId, Vec<Range>)| (g.0, g.1@))
                        =~= before.push((func, seq![range])));
                }
            },
        }
        i = i + 1;
    }
    proof {
        assert(ps.take(i as int) =~= ps);
        let gv = groups@.map_values(|g: (FunctionId, Vec<Range>)| (g.0, g.1@));
        assert forall|k: int| 0 <= k < groups@.len() implies (#[trigger] groups@[k]).1@.len() > 0 by {
            assert(gv[k] == (groups@[k].0, groups@[k].1@));
        }
    }
    groups
}


/// The calls whose callee was resolved to a function, each with its range,
/// in order.
pub open spec fn spec_resolved_calls(calls: Seq<(Option<FunctionId>, Range)>) -> Seq<
    (FunctionId, Range),
>
    decreases calls.len(),
{
    if calls.len() == 0 {
        Seq::empty()
    } else {
        let rest = spec_resolved_calls(calls.drop_last());
        match calls.last().0 {
            Some(f) => rest.push((f, calls.last().1)),
            None => rest,
        }
    }
}

/// The references to a function, each a file, a range and the function that
/// holds the reference where one was found, without the references that are
/// the definition's own name (in `def_file` at `name_range`) and those that
/// no function holds; in order.
pub open spec fn spec_incoming_calls(
    refs: Seq<(FileId, Range, Option<FunctionId>)>,
    def_file: FileId,
    name_range: Range,
) -> Seq<(FunctionId, Range)>
    decreases refs.len(),
{
    if refs.len() == 0 {
        Seq::empty()
    } else {
        let rest = spec_incoming_calls(refs.drop_last(), def_file, name_range);
        let (file, range, caller) = refs.last();
        if file == def_file && range == name_range {
            rest
        } else {
            match caller {
                Some(f) => rest.push((f, range)),
                None => rest,
            }
        }
    }
}

/// The calls that a function makes, each with the function it resolves to
/// (if any) and its range, grouped by the called function; the calls that
/// resolve to no function are left out.
pub fn outgoing_call_groups(calls: Vec<(Option<FunctionId>, Range)>) -> (r: Vec<
    (FunctionId, Vec<Range>),
>)
    ensures
        r@.map_values(|g: (FunctionId, Vec<Range>)| (g.0, g.1@)) == spec_group_pairs(
            spec_resolved_calls(calls@),
        ),
        distinct_keys(r@.map_values(|g: (FunctionId, Vec<Range>)| (g.0, g.1@))),
        forall|k: int| 0 <= k < r@.len() ==> (#[trigger] r@[k]).1@.len() > 0,
{
    let mut resolved: Vec<(FunctionId, Range)> = Vec::new();
    let mut i: usize = 0;
    while i < calls.len()
        invariant
            i <= calls@.len(),
            resolved@ == spec_resolved_calls(calls@.take(i as int)),
        decreases calls@.len() - i,
    {
        proof {
            assert(calls@.take(i + 1).drop_last() =~= calls@.take(i as int));
        }
        let (callee, range) = calls[i];
        match callee {
            Some(f) => resolved.push((f, range)),
            None => {},
        }
        i = i + 1;
    }
    proof {
        assert(calls@.take(calls@.len() as int) =~= calls@);
    }
    group_call_ranges(resolved)
}

/// The references to the function defined in `def_file` whose name spans
/// `name_range`, each with its file, its range and the function that holds
/// it (if any), grouped by that function; the definition's own name and the
/// references that no function holds are left out.
pub fn incoming_call_groups(
    refs: Vec<(FileId, Range, Option<FunctionId>)>,
    def_file: FileId,
    name_range: Range,
) -> (r: Vec<(FunctionId, Vec<Range>)>)
    ensures
        r@.map_values(|g: (FunctionId, Vec<Range>)| (g.0, g.1@)) == spec_group_pairs(
            spec_incoming_calls(refs@, def_file, name_range),
        ),
        distinct_keys(r@.map_values(|g: (FunctionId, Vec<Range>)| (g.0, g.1@))),
        forall|k: int| 0 <= k < r@.len() ==> (#[trigger] r@[k]).1@.len() > 0,
{
    let mut kept: Vec<(FunctionId, Range)> = Vec::new();
    let mut i: usize = 0;
    while i < refs.len()
        invariant
            i <= refs@.len(),
            kept@ == spec_incoming_calls(refs@.take(i as int), def_file, name_range),
        decreases refs@.len() - i,
    {
        proof {
            assert(refs@.take(i + 1).drop_last() =~= refs@.take(i as int));
        }
        let (file, range, caller) = refs[i];
        if !is_definition_site(file, range, def_file, name_range) {
            match caller {
                Some(f) => kept.push((f, range)),
                None => {},
            }
        }
        i = i + 1;
    }
    proof {
        assert(refs@.take(refs@.len() as int) =~= refs@);
    }
    group_call_ranges(kept)
}

/// The groups whose function has an item, each with that item, in order.
pub open spec fn spec_items_with_ranges(
    groups: Seq<(FunctionId, Seq<Range>)>,
    items: Seq<Option<CallItem>>,
) -> Seq<(CallItem, Seq<Range>)>
    decreases groups.len(),
{
    if groups.len() == 0 || items.len() == 0 {
        Seq::empty()
    } else {
        let rest = spec_items_with_ranges(groups.drop_last(), items.drop_last());
        match items.last() {
            Some(item) => rest.push((item, groups.last().1)),
            None => rest,
        }
    }
}

/// Each item names the function of its group: the items stand beside the
/// groups, one for each group, in the same order.
pub open spec fn items_tied(groups: Seq<(FunctionId, Seq<Range>)>, items: Seq<Option<CallItem>>) -> bool {
    &&& items.len() == groups.len()
    &&& forall|k: int|
        0 <= k < items.len() ==> (#[trigger] items[k] matches Some(it) ==> it.data == Some(
            groups[k].0,
        ))
}

/// No two groups are of the same function.
pub open spec fn distinct_keys(groups: Seq<(FunctionId, Seq<Range>)>) -> bool {
    forall|i: int, j: int|
        0 <= i < j < groups.len() ==> (#[trigger] groups[i]).0 != (#[trigger] groups[j]).0
}

/// No function is listed twice.
pub open spec fn listed_once(out: Seq<(CallItem, Seq<Range>)>) -> bool {
    forall|i: int, j: int|
        0 <= i < j < out.len() ==> (#[trigger] out[i]).0.data != (#[trigger] out[j]).0.data
}

/// Each listed item names the function of some group and stands with that
/// group's ranges.
pub open spec fn from_groups(out: Seq<(CallItem, Seq<Range>)>, groups: Seq<(FunctionId, Seq<Range>)>) -> bool {
    forall|i: int|
        0 <= i < out.len() ==> exists|k: int|
            0 <= k < groups.len() && (#[trigger] out[i]).0.data == Some(groups[k].0) && out[i].1
                == groups[k].1
}

/// Where each item names its group's function and no two groups are of the
/// same function, the items listed are each from their group and no function
/// is listed twice.
pub proof fn lemma_items_with_ranges(
    groups: Seq<(FunctionId, Seq<Range>)>,
    items: Seq<Option<CallItem>>,
)
    requires
        items_tied(groups, items),
        distinct_keys(groups),
    ensures
        listed_once(spec_items_with_ranges(groups, items)),
        from_groups(spec_items_with_ranges(groups, items), groups),
    decreases groups.len(),
{
    if groups.len() > 0 {
        let gs = groups.drop_last();
        let its = items.drop_last();
        assert forall|k: int| 0 <= k < its.len() implies (#[trigger] its[k] matches Some(it) ==> it.data
            == Some(gs[k].0)) by {
            assert(its[k] == items[k]);
            assert(gs[k] == groups[k]);
        }
        assert forall|i: int, j: int| 0 <= i < j < gs.len() implies (#[trigger] gs[i]).0 != (
        #[trigger] gs[j]).0 by {
            assert(gs[i] == groups[i]);
            assert(gs[j] == groups[j]);
        }
        lemma_items_with_ranges(gs, its);
        let rest = spec_items_with_ranges(gs, its);
        let last = groups.len() - 1;
        assert forall|i: int| 0 <= i < rest.len() implies exists|k: int|
            0 <= k < groups.len() && (#[trigger] rest[i]).0.data == Some(groups[k].0) && rest[i].1
                == groups[k].1 by {
            let k = choose|k: int|
                0 <= k < gs.len() && rest[i].0.data == Some(gs[k].0) && rest[i].1 == gs[k].1;
            assert(gs[k] == groups[k]);
        }
        match items.last() {
            Some(item) => {
                let out = rest.push((item, groups.last().1));
                assert(items[last] == items.last());
                assert(item.data == Some(groups[last].0));
                assert forall|i: int| 0 <= i < out.len() implies exists|k: int|
                    0 <= k < groups.len() && (#[trigger] out[i]).0.data == Some(groups[k].0)
                        && out[i].1 == groups[k].1 by {
                    if i < rest.len() {
                        assert(out[i] == rest[i]);
                    } else {
                        assert(out[i] == (item, groups[last].1));
                    }
                }
                assert forall|i: int, j: int| 0 <= i < j < out.len() implies (#[trigger] out[i]).0.data
                    != (#[trigger] out[j]).0.data by {
                    assert(out[i] == rest[i]);
                    if j < rest.len() {
                        assert(out[j] == rest[j]);
                    } else {
                        let k = choose|k: int|
                            0 <= k < groups.len() && rest[i].0.data == Some(groups[k].0)
                                && rest[i].1 == groups[k].1;
                        let k2 = choose|k2: int|
                            0 <= k2 < gs.len() && rest[i].0.data == Some(gs[k2].0)
                                && rest[i].1 == gs[k2].1;
                        assert(gs[k2] == groups[k2]);
                        assert(groups[k2].0 != groups[last].0);
                    }
                }
            },
            None => {},
        }
    }
}

/// The incoming calls of a hierarchy: each group of call ranges with the item
/// of its function, where `items` (one for each group, in the same order)
/// holds one; groups whose function has no item are left out.
pub fn incoming_call_items(groups: Vec<(FunctionId, Vec<Range>)>, items: Vec<Option<CallItem>>) -> (r:
    Vec<IncomingCallItem>)
    requires
        items_tied(groups@.map_values(|g: (FunctionId, Vec<Range>)| (g.0, g.1@)), items@),
        distinct_keys(groups@.map_values(|g: (FunctionId, Vec<Range>)| (g.0, g.1@))),
    ensures
        r@.map_values(|c: IncomingCallItem| (c.call_item, c.ranges@)) == spec_items_with_ranges(
            groups@.map_values(|g: (FunctionId, Vec<Range>)| (g.0, g.1@)),
            items@,
        ),
        listed_once(r@.map_values(|c: IncomingCallItem| (c.call_item, c.ranges@))),
        from_groups(
            r@.map_values(|c: IncomingCallItem| (c.call_item, c.ranges@)),
            groups@.map_values(|g: (FunctionId, Vec<Range>)| (g.0, g.1@)),
        ),
{
    proof {
        lemma_items_with_ranges(groups@.map_values(|g: (FunctionId, Vec<Range>)| (g.0, g.1@)), items@);
    }
    let ghost gs = groups@.map_values(|g: (FunctionId, Vec<Range>)| (g.0, g.1@));
    let ghost its = items@;
    let n = groups.len();
    let mut groups = groups;
    let mut items = items;
    let mut r: Vec<IncomingCallItem> = Vec::new();
    let mut i: usize = 0;
    while i < n
        invariant
            i <= n,
            n == gs.len() == its.len(),
            groups@.map_values(|g: (FunctionId, Vec<Range>)| (g.0, g.1@)) == gs.skip(i as int),
            items@ == its.skip(i as int),
            r@.map_values(|c: IncomingCallItem| (c.call_item, c.ranges@)) == spec_items_with_ranges(
                gs.take(i as int),
                its.take(i as int),
            ),
        decreases n - i,
    {
        let ghost before_groups = groups@;
        let ghost before_items = items@;
        let ghost before = r@.map_values(|c: IncomingCallItem| (c.call_item, c.ranges@));
        proof {
            let gv = groups@.map_values(|g: (FunctionId, Vec<Range>)| (g.0, g.1@));
            assert(gv.len() == groups@.len());
            assert(gs.skip(i as int).len() == n - i);
            assert(gv[0] == (groups@[0].0, groups@[0].1@));
        }
        let (_, ranges) = groups.remove(0);
        let item = items.remove(0);
        proof {
            assert(gs.skip(i as int)[0] == gs[i as int]);
            assert(before_groups[0].1@ == gs[i as int].1);
            assert(item == its[i as int]);
            assert(gs.take(i + 1).drop_last() =~= gs.take(i as int));
            assert(its.take(i + 1).drop_last() =~= its.take(i as int));
            let bv = before_groups.map_values(|g: (FunctionId, Vec<Range>)| (g.0, g.1@));
            assert(bv == gs.skip(i as int));
            let gv2 = groups@.map_values(|g: (FunctionId, Vec<Range>)| (g.0, g.1@));
            assert forall|j: int| 0 <= j < groups@.len() implies #[trigger] gv2[j] == gs.skip(
                i + 1,
            )[j] by {
                assert(groups@[j] == before_groups[j + 1]);
                assert(bv[j + 1] == gs.skip(i as int)[j + 1]);
            }
            assert(groups@.map_values(|g: (FunctionId, Vec<Range>)| (g.0, g.1@)) =~= gs.skip(i + 1));
            assert(items@ =~= its.skip(i + 1));
        }
        match item {
            Some(call_item) => {
                let ghost entry = (call_item, ranges@);
                r.push(IncomingCallItem { call_item, ranges });
                proof {
                    assert(r@.map_values(|c: IncomingCallItem| (c.call_item, c.ranges@)) =~= before.push(
                        entry,
                    ));
                }
            },
            None => {},
        }
        i = i + 1;
    }
    proof {
        assert(gs.take(n as int) =~= gs);
        assert(its.take(n as int) =~= its);
    }
    r
}

/// The outgoing calls of a hierarchy: each group of call ranges with the item
/// of its function, where `items` (one for each group, in the same order)
/// holds one; groups whose function has no item are left out.
pub fn outgoing_call_items(groups: Vec<(FunctionId, Vec<Range>)>, items: Vec<Option<CallItem>>) -> (r:
    Vec<OutgoingCallItem>)
    requires
        items_tied(groups@.map_values(|g: (FunctionId, Vec<Range>)| (g.0, g.1@)), items@),
        distinct_keys(groups@.map_values(|g: (FunctionId, Vec<Range>)| (g.0, g.1@))),
    ensures
        r@.map_values(|c: OutgoingCallItem| (c.call_item, c.ranges@)) == spec_items_with_ranges(
            groups@.map_values(|g: (FunctionId, Vec<Range>)| (g.0, g.1@)),
            items@,
        ),
        listed_once(r@.map_values(|c: OutgoingCallItem| (c.call_item, c.ranges@))),
        from_groups(
            r@.map_values(|c: OutgoingCallItem| (c.call_item, c.ranges@)),
            groups@.map_values(|g: (FunctionId, Vec<Range>)| (g.0, g.1@)),
        ),
{
    proof {
        lemma_items_with_ranges(groups@.map_values(|g: (FunctionId, Vec<Range>)| (g.0, g.1@)), items@);
    }
    let incoming = incoming_call_items(groups, items);
    let ghost target = incoming@.map_values(|c: IncomingCallItem| (c.call_item, c.ranges@));
    let mut rest = incoming;
    let mut r: Vec<OutgoingCallItem> = Vec::new();
    let ghost mut i: int = 0;
    while rest.len() > 0
        invariant
            0 <= i <= target.len(),
            rest@.map_values(|c: IncomingCallItem| (c.call_item, c.ranges@)) == target.skip(i),
            r@.map_values(|c: OutgoingCallItem| (c.call_item, c.ranges@)) == target.take(i),
        decreases rest.len(),
    {
        let ghost before_rest = rest@;
        proof {
            let rv = rest@.map_values(|c: IncomingCallItem| (c.call_item, c.ranges@));
            assert(rv.len() == rest@.len());
            assert(rv[0] == target[i]);
        }
        let c = rest.remove(0);
        r.push(OutgoingCallItem { call_item: c.call_item, ranges: c.ranges });
        proof {
            let rv2 = rest@.map_values(|c: IncomingCallItem| (c.call_item, c.ranges@));
            assert forall|j: int| 0 <= j < rest@.len() implies #[trigger] rv2[j] == target.skip(
                i + 1,
            )[j] by {
                assert(rest@[j] == before_rest[j + 1]);
                assert(before_rest.map_values(|c: IncomingCallItem| (c.call_item, c.ranges@))[j + 1]
                    == target.skip(i)[j + 1]);
            }
            assert(rv2 =~= target.skip(i + 1));
            assert(target.take(i + 1).drop_last() =~= target.take(i));
            i = i + 1;
            assert(r@.map_values(|c: OutgoingCallItem| (c.call_item, c.ranges@)) =~= target.take(i));
        }
    }
    proof {
        assert(target.take(i) =~= target);
    }
    r
}

/// The position of the group of `func` in `groups`, if there is one.
fn find_call_group(groups: &Vec<(FunctionId, Vec<Range>)>, func: FunctionId) -> (r: Option<usize>)
    ensures
        r matches Some(k) ==> group_position(
            groups@.map_values(|g: (FunctionId, Vec<Range>)| (g.0, g.1@)),
            func,
        ) == Some(k as int),
        r is None ==> group_position(
            groups@.map_values(|g: (FunctionId, Vec<Range>)| (g.0, g.1@)),
            func,
        ) is None,
{
    let ghost gv = groups@.map_values(|g: (FunctionId, Vec<Range>)| (g.0, g.1@));
    let mut j: usize = 0;
    while j < groups.len()
        invariant
            gv == groups@.map_values(|g: (FunctionId, Vec<Range>)| (g.0, g.1@)),
            j <= groups@.len(),
            group_position(gv.take(j as int), func) is None,
        decreases groups@.len() - j,
    {
        proof {
            assert(gv.take(j + 1).drop_last() =~= gv.take(j as int));
            assert(gv.take(j + 1).last() == gv[j as int]);
        }
        if groups[j].0.0 == func.0 {
            proof {
                lemma_group_position_prefix(gv, j as int + 1, func);
            }
            return Some(j);
        }
        j = j + 1;
    }
    proof {
        assert(gv.take(groups@.len() as int) =~= gv);
    }
    None
}

} // verus!
