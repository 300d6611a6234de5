//! Parsing the properties of a methodmap: the item that a property
//! declaration makes, the parent that holds it and the declarations that it
//! is entered in.

use tree_sitter::Node;
use vstd::prelude::*;

use crate::item_tree::FileId;
use crate::lsp::{Position, Range};
use crate::ts::{
    field_child, node_child_by_field_name, node_range, node_text, spec_node_range, spec_node_text,
    TextError,
};
use vstd::utf8::encode_utf8;

verus! {

/// A property of a methodmap.
#[derive(Debug, Clone, PartialEq, Eq)]
pub struct PropertyItem {
    /// Name of the property.
    pub name: String,
    /// Range of the name of the property.
    pub range: Range,
    /// Range of the name of the property, in the source the user sees.
    pub v_range: Range,
    /// Range of the whole property declaration.
    pub full_range: Range,
    /// Range of the whole property declaration, in the source the user sees.
    pub v_full_range: Range,
    /// Type of the property.
    pub type_: String,
    /// Description of the property.
    pub description: String,
    /// Uri of the file where the property is declared.
    pub uri: String,
    /// File id of the file where the property is declared.
    pub file_id: FileId,
    /// Name of the methodmap that holds the property.
    pub parent: String,
}

/// The key under which a property of the methodmap `parent` named `name` is
/// declared: the two names joined by a dash.
pub open spec fn spec_property_key(parent: Seq<char>, name: Seq<char>) -> Seq<char> {
    parent + seq!['-'] + name
}

impl PropertyItem {
    /// A copy of this property.
    pub fn duplicate(&self) -> (r: PropertyItem)
        ensures
            r == *self,
    {
        PropertyItem {
            name: self.name.clone(),
            range: self.range,
            v_range: self.v_range,
            full_range: self.full_range,
            v_full_range: self.v_full_range,
            type_: self.type_.clone(),
            description: self.description.clone(),
            uri: self.uri.clone(),
            file_id: self.file_id,
            parent: self.parent.clone(),
        }
    }

    /// The key under which the property is declared.
    pub fn key(&self) -> (r: String)
        ensures
            r@ == spec_property_key(self.parent@, self.name@),
    {
        let mut k = self.parent.clone();
        proof {
            reveal_strlit("-");
        }
        k.append("-");
        k.append(self.name.as_str());
        proof {
            assert(k@ =~= spec_property_key(self.parent@, self.name@));
        }
        k
    }
}

/// A methodmap, the parent of the properties it declares.
#[derive(Debug, Clone, PartialEq, Eq)]
pub struct MethodmapItem {
    /// Name of the methodmap.
    pub name: String,
    /// The properties of the methodmap, in the order of their declarations.
    pub children: Vec<PropertyItem>,
}

/// The first item declared under `key` in `decls`, if any.
pub open spec fn decl_lookup(decls: Seq<(String, PropertyItem)>, key: Seq<char>) -> Option<
    PropertyItem,
>
    decreases decls.len(),
{
    if decls.len() == 0 {
        None
    } else if decls[0].0@ == key {
        Some(decls[0].1)
    } else {
        decl_lookup(decls.drop_first(), key)
    }
}

/// No key is declared twice.
pub open spec fn decl_keys_distinct(decls: Seq<(String, PropertyItem)>) -> bool {
    forall|i: int, j: int|
        0 <= i < decls.len() && 0 <= j < decls.len() && i != j ==> #[trigger] decls[i].0@
            != #[trigger] decls[j].0@
}

/// Why a property declaration could not be parsed.
#[derive(Debug, Clone, Copy, PartialEq, Eq, Structural)]
pub enum PropertyError {
    /// The declaration has no name.
    NameMissing,
    /// The declaration has no type.
    TypeMissing,
    /// The text of the name or of the type could not be read.
    Text(TextError),
}

impl PropertyError {
    /// The message of the error.
    pub open spec fn spec_message(self) -> Seq<char> {
        match self {
            PropertyError::NameMissing => "Property name is empty."@,
            PropertyError::TypeMissing => "Property type is empty."@,
            PropertyError::Text(TextError::OutOfRange) => "Text range out of bounds."@,
            PropertyError::Text(TextError::InvalidUtf8) => "Text is not valid UTF-8."@,
        }
    }

    /// The message of the error.
    pub fn message(&self) -> (r: String)
        ensures
            r@ == self.spec_message(),
    {
        match self {
            PropertyError::NameMissing => String::from_str("Property name is empty."),
            PropertyError::TypeMissing => String::from_str("Property type is empty."),
            PropertyError::Text(TextError::OutOfRange) => String::from_str(
                "Text range out of bounds.",
            ),
            PropertyError::Text(TextError::InvalidUtf8) => String::from_str(
                "Text is not valid UTF-8.",
            ),
        }
    }
}

/// A change of length that preprocessing made on a line: past the column
/// `col` of the preprocessed text, the text that the user sees is `diff`
/// characters shorter.
#[derive(Debug, Clone, Copy, PartialEq, Eq, Structural)]
pub struct Offset {
    pub col: u32,
    pub diff: i32,
}

/// The changes of length that preprocessing made on the line `line`, in the
/// order in which they were made.
#[derive(Debug, Clone, PartialEq, Eq)]
pub struct LineOffsets {
    pub line: u32,
    pub offsets: Vec<Offset>,
}

/// The parser of one file's declarations.
pub struct Parser {
    /// The text of the file, as preprocessing left it.
    pub source: String,
    /// Uri of the file.
    pub uri: String,
    /// File id of the file.
    pub file_id: FileId,
    /// The declarations made so far, each under its key.
    pub declarations: Vec<(String, PropertyItem)>,
    /// The changes of length that preprocessing made, by line.
    pub offsets: Vec<LineOffsets>,
}

/// The offsets hold each line once, and no change of length is `i32::MIN`
/// (whose negation overflows).
pub open spec fn offsets_wf(offsets: Seq<LineOffsets>) -> bool {
    &&& forall|i: int, j: int|
        0 <= i < j < offsets.len() ==> (#[trigger] offsets[i]).line != (#[trigger] offsets[j]).line
    &&& forall|i: int, j: int|
        0 <= i < offsets.len() && 0 <= j < offsets[i].offsets@.len() ==> (
        #[trigger] offsets[i].offsets@[j]).diff != i32::MIN
}

/// The changes of length made on the line `line`, if any.
pub open spec fn line_offsets(offsets: Seq<LineOffsets>, line: u32) -> Option<Seq<Offset>>
    decreases offsets.len(),
{
    if offsets.len() == 0 {
        None
    } else if offsets[0].line == line {
        Some(offsets[0].offsets@)
    } else {
        line_offsets(offsets.drop_first(), line)
    }
}

/// `x` held within the range of `u32`.
pub open spec fn saturate(x: int) -> u32 {
    if x < 0 {
        0
    } else if x > u32::MAX {
        u32::MAX
    } else {
        x as u32
    }
}

/// The character `c` after the changes `offs`, in order: each change whose
/// column lies before `at` takes its length off, held within `u32`.
pub open spec fn shifted(c: u32, at: u32, offs: Seq<Offset>) -> u32
    decreases offs.len(),
{
    if offs.len() == 0 {
        c
    } else {
        let before = shifted(c, at, offs.drop_last());
        if offs.last().col < at {
            saturate(before - offs.last().diff)
        } else {
            before
        }
    }
}

/// The position that the user sees of the preprocessed position `p`.
pub open spec fn spec_v_position(offsets: Seq<LineOffsets>, p: Position) -> Position {
    match line_offsets(offsets, p.line) {
        Some(offs) => Position { line: p.line, character: shifted(p.character, p.character, offs) },
        None => p,
    }
}

/// The range that the user sees of the preprocessed range `r`.
pub open spec fn spec_v_range(offsets: Seq<LineOffsets>, r: Range) -> Range {
    Range { start: spec_v_position(offsets, r.start), end: spec_v_position(offsets, r.end) }
}

/// The character `c` after the changes `offs` whose column lies before it.
fn shift_character(c: u32, offs: &Vec<Offset>) -> (r: u32)
    requires
        forall|j: int| 0 <= j < offs@.len() ==> (#[trigger] offs@[j]).diff != i32::MIN,
    ensures
        r == shifted(c, c, offs@),
{
    let mut v = c;
    let mut i: usize = 0;
    while i < offs.len()
        invariant
            i <= offs@.len(),
            v == shifted(c, c, offs@.take(i as int)),
        decreases offs@.len() - i,
    {
        proof {
            assert(offs@.take(i + 1).drop_last() =~= offs@.take(i as int));
            assert(offs@.take(i + 1).last() == offs@[i as int]);
        }
        let o = offs[i];
        if o.col < c {
            let x: i64 = v as i64 - o.diff as i64;
            v = if x < 0 {
                0
            } else if x > u32::MAX as i64 {
                u32::MAX
            } else {
                x as u32
            };
        }
        i = i + 1;
    }
    proof {
        assert(offs@.take(offs@.len() as int) =~= offs@);
    }
    v
}

/// What parsing a property declaration gives, from what was read of it: the
/// name (absent, or its text or the error met in reading it), the type
/// likewise, the ranges of the name and of the whole declaration, and the
/// description.
pub open spec fn spec_property_from_parts(
    name: Option<(Result<String, TextError>, Range)>,
    type_: Option<Result<String, TextError>>,
    full_range: Range,
    description: Seq<char>,
    uri: Seq<char>,
    file_id: FileId,
    parent: Seq<char>,
    offsets: Seq<LineOffsets>,
    item: PropertyItem,
) -> bool {
    match name {
        None => false,
        Some((Err(_), _)) => false,
        Some((Ok(n), range)) => match type_ {
            None => false,
            Some(Err(_)) => false,
            Some(Ok(t)) => {
                &&& item.name@ == n@
                &&& item.range == range
                &&& item.v_range == spec_v_range(offsets, range)
                &&& item.full_range == full_range
                &&& item.v_full_range == spec_v_range(offsets, full_range)
                &&& item.type_@ == t@
                &&& item.description@ == description
                &&& item.uri@ == uri
                &&& item.file_id == file_id
                &&& item.parent@ == parent
            },
        },
    }
}

/// The error that parsing a property declaration meets, from what was read
/// of it, if any: a missing name first, then an unreadable name, a missing
/// type and an unreadable type.
pub open spec fn spec_property_error(
    name: Option<(Result<String, TextError>, Range)>,
    type_: Option<Result<String, TextError>>,
) -> Option<PropertyError> {
    match name {
        None => Some(PropertyError::NameMissing),
        Some((Err(e), _)) => Some(PropertyError::Text(e)),
        Some(_) => match type_ {
            None => Some(PropertyError::TypeMissing),
            Some(Err(e)) => Some(PropertyError::Text(e)),
            Some(Ok(_)) => None,
        },
    }
}

/// The error that parsing the property declaration `node` of the text
/// `source` meets, if any: a missing `name` child first, then an unreadable
/// name, a missing `type` child and an unreadable type.
pub open spec fn spec_parse_property_error(node: Node, source: Seq<char>) -> Option<PropertyError> {
    let bytes = encode_utf8(source);
    match field_child(node, "name"@) {
        None => Some(PropertyError::NameMissing),
        Some(n) => match spec_node_text(n, bytes) {
            Err(e) => Some(PropertyError::Text(e)),
            Ok(_) => match field_child(node, "type"@) {
                None => Some(PropertyError::TypeMissing),
                Some(t) => match spec_node_text(t, bytes) {
                    Err(e) => Some(PropertyError::Text(e)),
                    Ok(_) => None,
                },
            },
        },
    }
}

/// `item` is the property that the declaration `node` of the text `source`
/// makes: its name and type are the texts of the `name` and `type` children,
/// its range that of the name, its full range that of the declaration, and
/// the rest is given.
pub open spec fn is_parsed_property(
    item: PropertyItem,
    node: Node,
    source: Seq<char>,
    description: Seq<char>,
    uri: Seq<char>,
    file_id: FileId,
    parent: Seq<char>,
    offsets: Seq<LineOffsets>,
) -> bool {
    let bytes = encode_utf8(source);
    &&& field_child(node, "name"@) matches Some(n)
    &&& spec_node_text(n, bytes) == Ok::<Seq<char>, TextError>(item.name@)
    &&& item.range == spec_node_range(n)
    &&& item.v_range == spec_v_range(offsets, item.range)
    &&& field_child(node, "type"@) matches Some(t)
    &&& spec_node_text(t, bytes) == Ok::<Seq<char>, TextError>(item.type_@)
    &&& item.full_range == spec_node_range(node)
    &&& item.v_full_range == spec_v_range(offsets, item.full_range)
    &&& item.description@ == description
    &&& item.uri@ == uri
    &&& item.file_id == file_id
    &&& item.parent@ == parent
}

/// What reading a child of a declaration gives, as
/// [`Parser::property_from_parts`] takes it.
pub open spec fn read_of(r: Result<String, TextError>) -> Result<Seq<char>, TextError> {
    match r {
        Ok(t) => Ok(t@),
        Err(e) => Err(e),
    }
}

impl Parser {
    /// A parser of the file `file_id` at `uri` whose text is `source`, with no
    /// declaration made yet.
    pub fn new(source: String, uri: String, file_id: FileId, offsets: Vec<LineOffsets>) -> (r:
        Parser)
        ensures
            r.source == source,
            r.uri == uri,
            r.file_id == file_id,
            r.declarations@.len() == 0,
            r.offsets == offsets,
    {
        Parser { source, uri, file_id, declarations: Vec::new(), offsets }
    }

    /// The position that the user sees of the preprocessed position `p`:
    /// its character shifted by the changes of its line whose column lies
    /// before it.
    pub fn build_v_position(&self, p: Position) -> (r: Position)
        requires
            offsets_wf(self.offsets@),
        ensures
            r == spec_v_position(self.offsets@, p),
    {
        let mut i: usize = 0;
        proof {
            assert(self.offsets@.skip(0) =~= self.offsets@);
        }
        while i < self.offsets.len()
            invariant
                i <= self.offsets@.len(),
                offsets_wf(self.offsets@),
                line_offsets(self.offsets@, p.line) == line_offsets(
                    self.offsets@.skip(i as int),
                    p.line,
                ),
            decreases self.offsets@.len() - i,
        {
            proof {
                assert(self.offsets@.skip(i as int).drop_first() =~= self.offsets@.skip(i + 1));
            }
            if self.offsets[i].line == p.line {
                proof {
                    assert forall|j: int| 0 <= j < self.offsets[i as int].offsets@.len() implies (
                    #[trigger] self.offsets[i as int].offsets@[j]).diff != i32::MIN by {
                        assert(self.offsets@[i as int].offsets@[j] == self.offsets[i as int].offsets@[j]);
                    }
                }
                let character = shift_character(p.character, &self.offsets[i].offsets);
                return Position { line: p.line, character };
            }
            i = i + 1;
        }
        p
    }

    /// The range that the user sees of the preprocessed range `range`.
    pub fn build_v_range(&self, range: &Range) -> (r: Range)
        requires
            offsets_wf(self.offsets@),
        ensures
            r == spec_v_range(self.offsets@, *range),
    {
        Range { start: self.build_v_position(range.start), end: self.build_v_position(range.end) }
    }

    /// The item declared under `key`, if any.
    pub fn declaration(&self, key: &String) -> (r: Option<&PropertyItem>)
        ensures
            r matches Some(item) ==> decl_lookup(self.declarations@, key@) == Some(*item),
            r is None ==> decl_lookup(self.declarations@, key@) is None,
    {
        let mut i: usize = 0;
        proof {
            assert(self.declarations@.skip(0) =~= self.declarations@);
        }
        while i < self.declarations.len()
            invariant
                i <= self.declarations@.len(),
                decl_lookup(self.declarations@, key@) == decl_lookup(
                    self.declarations@.skip(i as int),
                    key@,
                ),
            decreases self.declarations@.len() - i,
        {
            proof {
                assert(self.declarations@.skip(i as int).drop_first() =~= self.declarations@.skip(
                    i + 1,
                ));
            }
            if self.declarations[i].0 == *key {
                return Some(&self.declarations[i].1);
            }
            i = i + 1;
        }
        None
    }

    /// Enters `item` under `key`, in place of what was declared under it.
    pub fn declare(&mut self, key: String, item: PropertyItem)
        requires
            decl_keys_distinct(old(self).declarations@),
        ensures
            decl_keys_distinct(final(self).declarations@),
            decl_lookup(final(self).declarations@, key@) == Some(item),
            forall|k: Seq<char>|
                k != key@ ==> decl_lookup(final(self).declarations@, k) == decl_lookup(
                    old(self).declarations@,
                    k,
                ),
            final(self).source == old(self).source,
            final(self).uri == old(self).uri,
            final(self).file_id == old(self).file_id,
            final(self).offsets == old(self).offsets,
    {
        let ghost old_decls = self.declarations@;
        let mut i: usize = 0;
        while i < self.declarations.len()
            invariant
                i <= self.declarations@.len(),
                self.declarations@ == old_decls,
                old_decls == old(self).declarations@,
                decl_keys_distinct(old_decls),
                self.source == old(self).source,
                self.uri == old(self).uri,
                self.file_id == old(self).file_id,
                self.offsets == old(self).offsets,
                forall|j: int| 0 <= j < i ==> (#[trigger] old_decls[j]).0@ != key@,
            decreases self.declarations@.len() - i,
        {
            if self.declarations[i].0 == key {
                let ghost new_entry = (key, item);
                self.declarations.set(i, (key, item));
                proof {
                    lemma_decl_lookup_update(old_decls, i as int, new_entry);
                }
                return;
            }
            i = i + 1;
        }
        let ghost new_entry = (key, item);
        self.declarations.push((key, item));
        proof {
            lemma_decl_lookup_push(old_decls, new_entry);
        }
    }

    /// The property that the parts read of a declaration give, or the error
    /// that they meet. `name` is the name's text (or the error met in reading
    /// it) with the name's range, `None` where the declaration has no name;
    /// `type_` is the type's text likewise; `full_range` is the range of the
    /// whole declaration and `doc` its documentation, if any.
    pub fn property_from_parts(
        &self,
        name: Option<(Result<String, TextError>, Range)>,
        type_: Option<Result<String, TextError>>,
        full_range: Range,
        doc: Option<String>,
        parent: &MethodmapItem,
    ) -> (r: Result<PropertyItem, PropertyError>)
        requires
            offsets_wf(self.offsets@),
        ensures
            r matches Err(e) ==> spec_property_error(name, type_) == Some(e),
            r matches Ok(item) ==> spec_property_error(name, type_) is None
                && spec_property_from_parts(
                name,
                type_,
                full_range,
                match doc {
                    Some(d) => d@,
                    None => Seq::empty(),
                },
                self.uri@,
                self.file_id,
                parent.name@,
                self.offsets@,
                item,
            ),
            spec_property_error(name, type_) is None ==> r is Ok,
    {
        let (name, range) = match name {
            None => return Err(PropertyError::NameMissing),
            Some((Err(e), _)) => return Err(PropertyError::Text(e)),
            Some((Ok(n), range)) => (n, range),
        };
        let type_ = match type_ {
            None => return Err(PropertyError::TypeMissing),
            Some(Err(e)) => return Err(PropertyError::Text(e)),
            Some(Ok(t)) => t,
        };
        let description = match doc {
            Some(d) => d,
            None => String::new(),
        };
        let v_range = self.build_v_range(&range);
        let v_full_range = self.build_v_range(&full_range);
        Ok(
            PropertyItem {
                name,
                range,
                v_range,
                full_range,
                v_full_range,
                type_,
                description,
                uri: self.uri.clone(),
                file_id: self.file_id,
                parent: parent.name.clone(),
            },
        )
    }

    /// Adds `item` to the children of `parent` and declares it under its key.
    pub fn add_property(&mut self, parent: &mut MethodmapItem, item: PropertyItem)
        requires
            decl_keys_distinct(old(self).declarations@),
        ensures
            final(parent).name == old(parent).name,
            final(parent).children@ == old(parent).children@.push(item),
            decl_keys_distinct(final(self).declarations@),
            decl_lookup(final(self).declarations@, spec_property_key(item.parent@, item.name@))
                == Some(item),
            forall|k: Seq<char>|
                k != spec_property_key(item.parent@, item.name@) ==> decl_lookup(
                    final(self).declarations@,
                    k,
                ) == decl_lookup(old(self).declarations@, k),
            final(self).source == old(self).source,
            final(self).uri == old(self).uri,
            final(self).file_id == old(self).file_id,
            final(self).offsets == old(self).offsets,
    {
        let key = item.key();
        let copy = item.duplicate();
        parent.children.push(copy);
        self.declare(key, item);
    }

    /// Parses the property declaration `node` of the methodmap `parent`: adds
    /// the property to the children of `parent` and declares it under its
    /// key. `doc` is the documentation found above the declaration, if any.
    /// The property's name and type are texts of the source. An error, and
    /// nothing changed, where the declaration has no name or no type or where
    /// their text cannot be read from the source.
    pub fn parse_property(
        &mut self,
        node: &Node,
        parent: &mut MethodmapItem,
        doc: Option<String>,
    ) -> (r: Result<(), PropertyError>)
        requires
            decl_keys_distinct(old(self).declarations@),
            offsets_wf(old(self).offsets@),
        ensures
            decl_keys_distinct(final(self).declarations@),
            final(self).source == old(self).source,
            final(self).uri == old(self).uri,
            final(self).file_id == old(self).file_id,
            final(self).offsets == old(self).offsets,
            final(parent).name == old(parent).name,
            r is Err ==> final(self).declarations@ == old(self).declarations@
                && final(parent).children@ == old(parent).children@,
            r matches Err(e) ==> spec_parse_property_error(*node, old(self).source@) == Some(e),
            r is Ok <==> spec_parse_property_error(*node, old(self).source@) is None,
            r is Ok ==> {
                let item = final(parent).children@.last();
                &&& final(parent).children@ == old(parent).children@.push(item)
                &&& is_parsed_property(
                    item,
                    *node,
                    old(self).source@,
                    match doc {
                        Some(d) => d@,
                        None => Seq::empty(),
                    },
                    old(self).uri@,
                    old(self).file_id,
                    old(parent).name@,
                    old(self).offsets@,
                )
                &&& decl_lookup(
                    final(self).declarations@,
                    spec_property_key(item.parent@, item.name@),
                ) == Some(item)
                &&& forall|k: Seq<char>|
                    k != spec_property_key(item.parent@, item.name@) ==> decl_lookup(
                        final(self).declarations@,
                        k,
                    ) == decl_lookup(old(self).declarations@, k)
            },
    {
        let ghost src = self.source@;
        let ghost bytes = encode_utf8(src);
        let name = match node_child_by_field_name(node, "name") {
            None => None,
            Some(name_node) => Some(
                (node_text(&name_node, self.source.as_str()), node_range(&name_node)),
            ),
        };
        let type_ = match node_child_by_field_name(node, "type") {
            None => None,
            Some(type_node) => Some(node_text(&type_node, self.source.as_str())),
        };
        let full_range = node_range(node);
        proof {
            match field_child(*node, "name"@) {
                Some(n) => {
                    let (t, rg) = name.unwrap();
                    assert(read_of(t) == spec_node_text(n, bytes));
                    assert(rg == spec_node_range(n));
                },
                None => {},
            }
            match field_child(*node, "type"@) {
                Some(n) => {
                    assert(read_of(type_.unwrap()) == spec_node_text(n, bytes));
                },
                None => {},
            }
        }
        match self.property_from_parts(name, type_, full_range, doc, parent) {
            Ok(item) => {
                self.add_property(parent, item);
                Ok(())
            },
            Err(e) => Err(e),
        }
    }
}

/// Looking a key up after the entry at `i` is replaced by one under the same
/// key finds the new entry under that key and what was there under every
/// other key.
proof fn lemma_decl_lookup_update(
    decls: Seq<(String, PropertyItem)>,
    i: int,
    entry: (String, PropertyItem),
)
    requires
        0 <= i < decls.len(),
        decls[i].0@ == entry.0@,
        decl_keys_distinct(decls),
        forall|j: int| 0 <= j < i ==> (#[trigger] decls[j]).0@ != entry.0@,
    ensures
        decl_keys_distinct(decls.update(i, entry)),
        decl_lookup(decls.update(i, entry), entry.0@) == Some(entry.1),
        forall|k: Seq<char>|
            k != entry.0@ ==> decl_lookup(decls.update(i, entry), k) == decl_lookup(decls, k),
    decreases decls.len(),
{
    let d2 = decls.update(i, entry);
    assert forall|a: int, b: int|
        0 <= a < d2.len() && 0 <= b < d2.len() && a != b implies #[trigger] d2[a].0@
        != #[trigger] d2[b].0@ by {
        if a != i && b != i {
            assert(decls[a].0@ != decls[b].0@);
        } else if a == i {
            assert(decls[i].0@ != decls[b].0@);
        } else {
            assert(decls[a].0@ != decls[i].0@);
        }
    }
    if i == 0 {
        assert(d2.drop_first() =~= decls.drop_first());
        assert forall|k: Seq<char>| k != entry.0@ implies decl_lookup(d2, k) == decl_lookup(
            decls,
            k,
        ) by {
            assert(d2[0].0@ == entry.0@);
            assert(decls[0].0@ == entry.0@);
        }
    } else {
        assert(d2.drop_first() =~= decls.drop_first().update(i - 1, entry));
        assert forall|a: int, b: int|
            0 <= a < decls.drop_first().len() && 0 <= b < decls.drop_first().len() && a
                != b implies #[trigger] decls.drop_first()[a].0@
            != #[trigger] decls.drop_first()[b].0@ by {
            assert(decls[a + 1].0@ != decls[b + 1].0@);
        }
        assert forall|j: int| 0 <= j < i - 1 implies (#[trigger] decls.drop_first()[j]).0@
            != entry.0@ by {
            assert(decls[j + 1].0@ != entry.0@);
        }
        lemma_decl_lookup_update(decls.drop_first(), i - 1, entry);
        assert(decls[0].0@ != entry.0@);
        assert(d2[0] == decls[0]);
        assert forall|k: Seq<char>| k != entry.0@ implies decl_lookup(d2, k) == decl_lookup(
            decls,
            k,
        ) by {
            if decls[0].0@ != k {
                assert(decl_lookup(decls.drop_first().update(i - 1, entry), k) == decl_lookup(
                    decls.drop_first(),
                    k,
                ));
            }
        }
    }
}

/// Looking a key up after an entry under a new key is pushed finds the new
/// entry under that key and what was there under every other key.
proof fn lemma_decl_lookup_push(decls: Seq<(String, PropertyItem)>, entry: (String, PropertyItem))
    requires
        decl_keys_distinct(decls),
        forall|j: int| 0 <= j < decls.len() ==> (#[trigger] decls[j]).0@ != entry.0@,
    ensures
        decl_keys_distinct(decls.push(entry)),
        decl_lookup(decls.push(entry), entry.0@) == Some(entry.1),
        forall|k: Seq<char>|
            k != entry.0@ ==> decl_lookup(decls.push(entry), k) == decl_lookup(decls, k),
    decreases decls.len(),
{
    let d2 = decls.push(entry);
    assert forall|a: int, b: int|
        0 <= a < d2.len() && 0 <= b < d2.len() && a != b implies #[trigger] d2[a].0@
        != #[trigger] d2[b].0@ by {
        if a < decls.len() && b < decls.len() {
            assert(decls[a].0@ != decls[b].0@);
        } else if a < decls.len() {
            assert(decls[a].0@ != entry.0@);
        } else {
            assert(decls[b].0@ != entry.0@);
        }
    }
    if decls.len() == 0 {
        assert(d2.drop_first() =~= Seq::<(String, PropertyItem)>::empty());
        assert forall|k: Seq<char>| k != entry.0@ implies decl_lookup(d2, k) == decl_lookup(
            decls,
            k,
        ) by {
            assert(decl_lookup(d2.drop_first(), k) is None);
        }
    } else {
        assert(d2.drop_first() =~= decls.drop_first().push(entry));
        assert forall|a: int, b: int|
            0 <= a < decls.drop_first().len() && 0 <= b < decls.drop_first().len() && a
                != b implies #[trigger] decls.drop_first()[a].0@
            != #[trigger] decls.drop_first()[b].0@ by {
            assert(decls[a + 1].0@ != decls[b + 1].0@);
        }
        assert forall|j: int| 0 <= j < decls.drop_first().len() implies (
        #[trigger] decls.drop_first()[j]).0@ != entry.0@ by {
            assert(decls[j + 1].0@ != entry.0@);
        }
        lemma_decl_lookup_push(decls.drop_first(), entry);
        assert(decls[0].0@ != entry.0@);
        assert(d2[0] == decls[0]);
        assert forall|k: Seq<char>| k != entry.0@ implies decl_lookup(d2, k) == decl_lookup(
            decls,
            k,
        ) by {
            if decls[0].0@ != k {
                assert(decl_lookup(decls.drop_first().push(entry), k) == decl_lookup(
                    decls.drop_first(),
                    k,
                ));
            }
        }
    }
}

} // verus!
