//! Reading nodes of a `tree_sitter` syntax tree: their kind, their fields,
//! their text in the source and their positions.
//!
//! A node is opaque to the library. What each method of a node returns is a
//! function of the node (and of the field asked for); the wrappers below name
//! those results, and the functions that read nodes are stated over the names.

use std::str::from_utf8;
use tree_sitter::Node;
use vstd::prelude::*;
use vstd::slice::slice_subrange;
use vstd::string::StringSliceAdditionalSpecFns;
use vstd::utf8::{decode_utf8, valid_utf8};

use crate::item_tree::Name;
use crate::lsp::{Position, Range};
use crate::syntax_kind::TSKind;
use crate::type_ref::TypeRef;

verus! {

/// `tree_sitter::Node`, held opaque.
#[verifier::external_type_specification]
#[verifier::external_body]
pub struct ExNode<'tree>(Node<'tree>);

/// The grammar's number for the kind of `node`, as `Node::kind_id` gives it.
pub uninterp spec fn kind_id_of(node: Node) -> u16;

/// The child of `node` in the field `field`, as `Node::child_by_field_name`
/// gives it; `None` where the node has no child in that field.
pub uninterp spec fn field_child(node: Node, field: Seq<char>) -> Option<Node>;

/// The offset of the first byte of `node`, as `Node::start_byte` gives it.
pub uninterp spec fn start_byte_of(node: Node) -> usize;

/// The offset just past the last byte of `node`, as `Node::end_byte` gives it.
pub uninterp spec fn end_byte_of(node: Node) -> usize;

/// The row and column where `node` begins, as `Node::start_position` gives them.
pub uninterp spec fn start_point_of(node: Node) -> (usize, usize);

/// The row and column where `node` ends, as `Node::end_position` gives them.
pub uninterp spec fn end_point_of(node: Node) -> (usize, usize);

/// Calls `Node::kind_id`, the grammar's number for the node's kind.
#[verifier::external_body]
pub(crate) fn node_kind_id(node: &Node) -> (r: u16)
    ensures
        r == kind_id_of(*node),
{
    node.kind_id()
}

/// Calls `Node::child_by_field_name`, the node's child in the field `field`.
#[verifier::external_body]
pub(crate) fn node_child_by_field_name<'tree>(node: &Node<'tree>, field: &str) -> (r: Option<
    Node<'tree>,
>)
    ensures
        r == field_child(*node, field@),
{
    node.child_by_field_name(field)
}

/// Calls `Node::start_byte`, the offset of the node's first byte in the source.
#[verifier::external_body]
pub(crate) fn node_start_byte(node: &Node) -> (r: usize)
    ensures
        r == start_byte_of(*node),
{
    node.start_byte()
}

/// Calls `Node::end_byte`, the offset just past the node's last byte.
#[verifier::external_body]
pub(crate) fn node_end_byte(node: &Node) -> (r: usize)
    ensures
        r == end_byte_of(*node),
{
    node.end_byte()
}

/// Calls `Node::start_position`, the row and column where the node begins.
#[verifier::external_body]
pub(crate) fn node_start_position(node: &Node) -> (r: (usize, usize))
    ensures
        r == start_point_of(*node),
{
    let p = node.start_position();
    (p.row, p.column)
}

/// Calls `Node::end_position`, the row and column where the node ends.
#[verifier::external_body]
pub(crate) fn node_end_position(node: &Node) -> (r: (usize, usize))
    ensures
        r == end_point_of(*node),
{
    let p = node.end_position();
    (p.row, p.column)
}

/// Calls `std::str::from_utf8`, which reads the bytes as a string exactly
/// where they are valid UTF-8.
#[verifier::external_body]
pub(crate) fn str_from_utf8(bytes: &[u8]) -> (r: Option<&str>)
    ensures
        r is Some <==> valid_utf8(bytes@),
        r matches Some(s) ==> s@ == decode_utf8(bytes@),
{
    from_utf8(bytes).ok()
}

impl TSKind {
    /// The kind of `node`; `None` where the grammar's number for it names no
    /// kind of this list.
    pub fn from_node(node: &Node) -> (r: Option<TSKind>)
        ensures
            r == TSKind::spec_from_id(kind_id_of(*node)),
            r matches Some(k) ==> k.spec_id() < crate::syntax_kind::TS_KIND_COUNT,
    {
        let r = TSKind::from_kind_id(node_kind_id(node));
        proof {
            if let Some(k) = r {
                crate::syntax_kind::lemma_kind_id_roundtrip(k);
            }
        }
        r
    }
}

/// Why the text of a node could not be read.
#[derive(Debug, Clone, Copy, PartialEq, Eq, Structural)]
pub enum TextError {
    /// The node's bytes do not lie within the source.
    OutOfRange,
    /// The node's bytes are not valid UTF-8.
    InvalidUtf8,
}

/// The text of the bytes `start..end` of `source`: the decoded bytes where
/// they lie within the source and are valid UTF-8.
pub open spec fn spec_span_text(source: Seq<u8>, start: int, end: int) -> Result<Seq<char>, TextError> {
    if !(0 <= start <= end <= source.len()) {
        Err(TextError::OutOfRange)
    } else if !valid_utf8(source.subrange(start, end)) {
        Err(TextError::InvalidUtf8)
    } else {
        Ok(decode_utf8(source.subrange(start, end)))
    }
}

/// The text of the bytes `start..end` of `source`.
pub fn span_text(source: &str, start: usize, end: usize) -> (r: Result<String, TextError>)
    ensures
        r matches Ok(t) ==> spec_span_text(source.spec_bytes(), start as int, end as int) == Ok::<
            Seq<char>,
            TextError,
        >(t@),
        r matches Err(e) ==> spec_span_text(source.spec_bytes(), start as int, end as int) == Err::<
            Seq<char>,
            TextError,
        >(e),
{
    let bytes = source.as_bytes();
    if !(start <= end && end <= bytes.len()) {
        return Err(TextError::OutOfRange);
    }
    match str_from_utf8(slice_subrange(bytes, start, end)) {
        Some(s) => Ok(String::from_str(s)),
        None => Err(TextError::InvalidUtf8),
    }
}

/// The text of `node` in the bytes `source`: the bytes that the node spans,
/// decoded, or the error met in reading them.
pub open spec fn spec_node_text(node: Node, source: Seq<u8>) -> Result<Seq<char>, TextError> {
    spec_span_text(source, start_byte_of(node) as int, end_byte_of(node) as int)
}

/// The text of `node` in `source`, as `Node::utf8_text` reads it: the bytes
/// that the node spans, decoded. An error where they do not lie within the
/// source or are not valid UTF-8.
pub fn node_text(node: &Node, source: &str) -> (r: Result<String, TextError>)
    ensures
        text_is_span(r, source.spec_bytes(), start_byte_of(*node), end_byte_of(*node)),
{
    let start = node_start_byte(node);
    let end = node_end_byte(node);
    span_text(source, start, end)
}

/// `r` is what reading the bytes `start..end` of `source` gives.
pub open spec fn text_is_span(
    r: Result<String, TextError>,
    source: Seq<u8>,
    start: usize,
    end: usize,
) -> bool {
    match r {
        Ok(t) => spec_span_text(source, start as int, end as int) == Ok::<Seq<char>, TextError>(t@),
        Err(e) => spec_span_text(source, start as int, end as int) == Err::<Seq<char>, TextError>(e),
    }
}

/// The protocol's position of a row and column of a syntax tree; both are
/// read modulo 2^32.
pub open spec fn spec_position(point: (usize, usize)) -> Position {
    Position { line: point.0 as u32, character: point.1 as u32 }
}

/// The protocol's position of a row and column of a syntax tree.
pub fn position_of_point(point: (usize, usize)) -> (r: Position)
    ensures
        r == spec_position(point),
{
    Position {
        line: #[verifier::truncate] (point.0 as u32),
        character: #[verifier::truncate] (point.1 as u32),
    }
}

/// The protocol's range of `node`: its start and end points, converted.
pub open spec fn spec_node_range(node: Node) -> Range {
    Range { start: spec_position(start_point_of(node)), end: spec_position(end_point_of(node)) }
}

/// The protocol's range of `node`: its start and end points, converted.
pub fn node_range(node: &Node) -> (r: Range)
    ensures
        r == spec_node_range(*node),
{
    let s = node_start_position(node);
    let e = node_end_position(node);
    Range { start: position_of_point(s), end: position_of_point(e) }
}

impl TypeRef {
    /// `r` is the type that a node whose kind number is `kind_id` and which
    /// spans the bytes `start..end` of `source` writes: the built-in type of
    /// a keyword kind; else the type named by the node's text, or the error
    /// met in reading that text.
    pub open spec fn is_from_parts(
        r: Result<TypeRef, TextError>,
        kind_id: u16,
        source: Seq<u8>,
        start: usize,
        end: usize,
    ) -> bool {
        let keyword = match TSKind::spec_from_id(kind_id) {
            Some(k) => TypeRef::spec_keyword(k),
            None => None,
        };
        match keyword {
            Some(t) => r == Ok::<TypeRef, TextError>(t),
            None => match spec_span_text(source, start as int, end as int) {
                Ok(text) => r matches Ok(TypeRef::Name(n)) && n.0@ == text,
                Err(e) => r == Err::<TypeRef, TextError>(e),
            },
        }
    }

    /// The type that a node whose kind number is `kind_id` and which spans the
    /// bytes `start..end` of `source` writes.
    pub fn from_parts(kind_id: u16, source: &str, start: usize, end: usize) -> (r: Result<
        TypeRef,
        TextError,
    >)
        ensures
            Self::is_from_parts(r, kind_id, source.spec_bytes(), start, end),
    {
        let keyword = match TSKind::from_kind_id(kind_id) {
            Some(kind) => TypeRef::keyword(kind),
            None => None,
        };
        match keyword {
            Some(t) => Ok(t),
            None => match span_text(source, start, end) {
                Ok(text) => Ok(TypeRef::Name(Name::from_str(text.as_str()))),
                Err(e) => Err(e),
            },
        }
    }

    /// The type that `node` writes in `source`: the built-in type of a keyword
    /// node, else the type named by the node's text. An error where that text
    /// cannot be read.
    pub fn from_node(node: &Node, source: &str) -> (r: Result<TypeRef, TextError>)
        ensures
            Self::is_from_parts(
                r,
                kind_id_of(*node),
                source.spec_bytes(),
                start_byte_of(*node),
                end_byte_of(*node),
            ),
    {
        let kind_id = node_kind_id(node);
        let start = node_start_byte(node);
        let end = node_end_byte(node);
        TypeRef::from_parts(kind_id, source, start, end)
    }
}

} // verus!
