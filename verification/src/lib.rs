//! A verified core of a SourcePawn language server: syntax kinds, type
//! references, item trees and their printer, compiler-output parsing, the
//! document store and the server's indexing decisions.

pub mod syntax_kind;
pub mod text;
pub mod arena;
pub mod item_tree;
pub mod small_vec;
pub mod type_ref;
pub mod pretty;
pub mod db;
pub mod linter;
pub mod lsp;
pub mod paths;
pub mod store;
pub mod server;
pub mod ts;
pub mod property;
pub mod grouping;
pub mod call_hierarchy;
