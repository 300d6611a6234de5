# sourcepawn_lsp

The core of a language server for SourcePawn, written in Verus. The
library's own functions under `src/` carry contracts that Verus proves. The
calls into outside crates and std that Verus cannot read (tree-sitter nodes,
`la_arena`, `smallvec`, `regex`, `url` and `std::path`) go through small
`#[verifier::external_body]` wrappers whose contracts are trusted, not proved;
each says in its doc comment what it claims of the call it makes.

- `syntax_kind`, `ts`: the kinds of the grammar's syntax nodes and the reading
  of nodes (kind, text, range) of a `tree_sitter` tree.
- `type_ref`, `item_tree`, `arena`, `small_vec`, `db`: type references, the
  item tree of a file held in `la_arena` arenas, and the interning of
  function locations.
- `pretty`: the textual rendering of an item tree, stated as spec functions.
- `linter`, `store`, `paths`, `lsp`: running the compiler (`spcomp`): its
  command line, the parsing of its messages, their grouping by file, and the
  document store.
- `server`: the indexing decisions of the server, as steps for the caller to
  perform.
- `property`: parsing methodmap properties into declarations.
- `grouping`, `call_hierarchy`: the decisions of the call hierarchy and the
  grouping of call sites by function.

`app/main.rs` is a small command-line front end that performs the I/O (files,
the compiler process, printing) around the library. `tests/` holds the tests.
