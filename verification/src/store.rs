//! The store of documents that the server knows, and what it does with the
//! compiler's output: clearing the documents' diagnostics and reading the
//! compiler's messages.

use vstd::prelude::*;

use crate::item_tree::FileId;
use crate::linter::{
    group_by_uri, groups_view, parse_spcomp_errors, spec_group_by_uri, spec_parse_spcomp_errors,
    utf8_lossy, lossy_utf8, DiagnosticGroups,
};
use crate::lsp::Diagnostic;
use crate::text::prefixed;
use crate::paths::{
    file_path_of_url, joined_path, parent_path, path_join, path_parent, url_file_path,
};

verus! {

/// A document of the workspace.
pub struct Document {
    pub file_id: FileId,
    /// The text of the document's URL.
    pub uri: String,
    pub text: String,
    pub parsed: bool,
    pub diagnostics: Vec<Diagnostic>,
}

impl Document {
    /// The two documents agree in everything but their diagnostics.
    pub open spec fn same_but_diagnostics(self, other: Document) -> bool {
        &&& self.file_id == other.file_id
        &&& self.uri == other.uri
        &&& self.text == other.text
        &&& self.parsed == other.parsed
    }

    /// A copy of this document.
    pub fn duplicate(&self) -> (r: Document)
        ensures
            r.same_but_diagnostics(*self),
            r.diagnostics@ == self.diagnostics@,
    {
        let mut diagnostics: Vec<Diagnostic> = Vec::new();
        let mut i: usize = 0;
        while i < self.diagnostics.len()
            invariant
                i <= self.diagnostics.len(),
                diagnostics@ == self.diagnostics@.take(i as int),
            decreases self.diagnostics.len() - i,
        {
            diagnostics.push(self.diagnostics[i].duplicate());
            proof {
                assert(diagnostics@ =~= self.diagnostics@.take(i + 1));
            }
            i = i + 1;
        }
        proof {
            assert(self.diagnostics@.take(self.diagnostics.len() as int) =~= self.diagnostics@);
        }
        Document {
            file_id: self.file_id,
            uri: self.uri.clone(),
            text: self.text.clone(),
            parsed: self.parsed,
            diagnostics,
        }
    }
}

/// The options of the server that running the compiler reads.
pub struct Options {
    /// The path of the compiler.
    pub spcomp_path: String,
    /// The directories that the compiler searches for includes.
    pub includes_directories: Vec<String>,
}

/// The environment of the server.
pub struct Environment {
    pub options: Options,
}

/// The documents that the server knows and what it knows of them.
pub struct Store {
    pub documents: Vec<Document>,
    pub environment: Environment,
    /// The folders of the workspace and its include directories.
    pub folders: Vec<String>,
    /// The text of the URL of each file id: file id `i` is the URL at `i`.
    pub path_interner: Vec<String>,
    /// The main files of the projects of the workspace.
    pub projects: Vec<FileId>,
}

impl Store {
    /// The store holds each file id once among its documents and each URL
    /// once in its interner, as maps from ids and URLs would.
    pub open spec fn wf(self) -> bool {
        &&& forall|i: int, j: int|
            0 <= i < j < self.documents@.len() ==> (#[trigger] self.documents@[i]).file_id != (
            #[trigger] self.documents@[j]).file_id
        &&& forall|i: int, j: int|
            0 <= i < j < self.path_interner@.len() ==> (#[trigger] self.path_interner@[i])@ != (
            #[trigger] self.path_interner@[j])@
    }
}

/// Where two stores agree in everything but their documents' diagnostics,
/// the one is well formed where the other is.
pub proof fn lemma_wf_but_diagnostics(a: Store, b: Store)
    requires
        a.documents@.len() == b.documents@.len(),
        forall|i: int|
            0 <= i < a.documents@.len() ==> (#[trigger] a.documents@[i]).same_but_diagnostics(
                b.documents@[i],
            ),
        a.path_interner == b.path_interner,
    ensures
        a.wf() == b.wf(),
{
    if b.wf() {
        assert forall|i: int, j: int| 0 <= i < j < a.documents@.len() implies (
        #[trigger] a.documents@[i]).file_id != (#[trigger] a.documents@[j]).file_id by {
            assert(a.documents@[i].same_but_diagnostics(b.documents@[i]));
            assert(a.documents@[j].same_but_diagnostics(b.documents@[j]));
        }
    }
    if a.wf() {
        assert forall|i: int, j: int| 0 <= i < j < b.documents@.len() implies (
        #[trigger] b.documents@[i]).file_id != (#[trigger] b.documents@[j]).file_id by {
            assert(a.documents@[i].same_but_diagnostics(b.documents@[i]));
            assert(a.documents@[j].same_but_diagnostics(b.documents@[j]));
        }
    }
}

/// The position of the first document of `docs` with the file id `id`.
pub open spec fn document_position(docs: Seq<Document>, id: FileId) -> Option<int>
    decreases docs.len(),
{
    if docs.len() == 0 {
        None
    } else {
        match document_position(docs.drop_last(), id) {
            Some(i) => Some(i),
            None => if docs.last().file_id == id {
                Some(docs.len() - 1)
            } else {
                None
            },
        }
    }
}

/// `document_position` finds the first document with the id, and none only
/// where no document has it.
pub proof fn lemma_document_position(docs: Seq<Document>, id: FileId)
    ensures
        document_position(docs, id) matches Some(k) ==> {
            &&& 0 <= k < docs.len()
            &&& docs[k].file_id == id
            &&& forall|j: int| 0 <= j < k ==> (#[trigger] docs[j]).file_id != id
        },
        document_position(docs, id) is None ==> forall|j: int|
            0 <= j < docs.len() ==> (#[trigger] docs[j]).file_id != id,
    decreases docs.len(),
{
    if docs.len() > 0 {
        lemma_document_position(docs.drop_last(), id);
        assert forall|j: int| 0 <= j < docs.len() - 1 implies #[trigger] docs[j] == docs.drop_last()[j] by {}
    }
}

/// Where a prefix of `docs` has a document with the id, the first such
/// document of `docs` is the first one of the prefix.
proof fn lemma_document_position_prefix(docs: Seq<Document>, k: int, id: FileId)
    requires
        0 <= k <= docs.len(),
    ensures
        document_position(docs.take(k), id) is Some ==> document_position(docs, id)
            == document_position(docs.take(k), id),
    decreases docs.len() - k,
{
    if k < docs.len() {
        lemma_document_position_prefix(docs, k + 1, id);
        assert(docs.take(k + 1).drop_last() =~= docs.take(k));
    } else {
        assert(docs.take(k) =~= docs);
    }
}

/// The file name of the compiler's output, which is put beside the file and
/// removed after the run.
pub open spec fn out_file_name() -> Seq<char> {
    "tmp6306493182.smx"@
}

/// The directory of the file that the URL `uri` names.
pub open spec fn spec_file_dir(uri: Seq<char>) -> Option<Seq<char>> {
    match url_file_path(uri) {
        Some(path) => parent_path(path),
        None => None,
    }
}

/// The path of the compiler's output for the file that `uri` names: the
/// output file in the file's directory.
pub open spec fn spec_out_path(uri: Seq<char>) -> Option<Seq<char>> {
    match spec_file_dir(uri) {
        Some(dir) => Some(joined_path(dir, out_file_name())),
        None => None,
    }
}

/// The `include` directory beside the file that `uri` names.
pub open spec fn spec_include_dir(uri: Seq<char>) -> Option<Seq<char>> {
    match spec_file_dir(uri) {
        Some(dir) => Some(joined_path(dir, "include"@)),
        None => None,
    }
}

/// The command line that runs the compiler on the file `file` of the
/// directory `dir`: the compiler, the file, `-i` with each include directory
/// of the options, `-i` with the file's directory, `-i` with the path
/// `include_path` where there is one, and `-o` with the output path.
pub open spec fn spec_compile_args(
    spcomp_path: Seq<char>,
    includes: Seq<Seq<char>>,
    file: Seq<char>,
    dir: Seq<char>,
    include_path: Option<Seq<char>>,
    out_path: Seq<char>,
) -> Seq<Seq<char>> {
    seq![spcomp_path, file] + includes.map_values(|d: Seq<char>| "-i"@ + d) + seq!["-i"@ + dir] + (
    match include_path {
        Some(p) => seq!["-i"@ + p],
        None => Seq::empty(),
    }) + seq!["-o"@ + out_path]
}

/// The command line that runs the compiler on the file that `uri` names,
/// with its `include` directory where that exists. `None` where the URL
/// names no file or the file has no directory.
pub open spec fn spec_build_args(
    spcomp_path: Seq<char>,
    includes: Seq<Seq<char>>,
    uri: Seq<char>,
    include_dir_exists: bool,
) -> Option<Seq<Seq<char>>> {
    match url_file_path(uri) {
        Some(file) => match parent_path(file) {
            Some(dir) => Some(
                spec_compile_args(
                    spcomp_path,
                    includes,
                    file,
                    dir,
                    if include_dir_exists {
                        Some(joined_path(dir, "include"@))
                    } else {
                        None
                    },
                    joined_path(dir, out_file_name()),
                ),
            ),
            None => None,
        },
        None => None,
    }
}

/// The text of a sequence of strings.
pub open spec fn strings_view(v: Seq<String>) -> Seq<Seq<char>> {
    v.map_values(|s: String| s@)
}

/// The directory of the file that the URL `uri` names.
fn file_dir(uri: &str) -> (r: Option<String>)
    ensures
        r matches Some(d) ==> spec_file_dir(uri@) == Some(d@),
        r is None ==> spec_file_dir(uri@) is None,
{
    match file_path_of_url(uri) {
        Some(path) => path_parent(path.as_str()),
        None => None,
    }
}

/// The path of the compiler's output for the file that `uri` names.
pub fn get_out_path(uri: &str) -> (r: Option<String>)
    ensures
        r matches Some(p) ==> spec_out_path(uri@) == Some(p@),
        r is None ==> spec_out_path(uri@) is None,
{
    match file_dir(uri) {
        Some(dir) => Some(path_join(dir.as_str(), "tmp6306493182.smx")),
        None => None,
    }
}

/// The `include` directory beside the file that `uri` names, whose existence
/// decides whether the compiler searches it.
pub fn include_dir_of(uri: &str) -> (r: Option<String>)
    ensures
        r matches Some(p) ==> spec_include_dir(uri@) == Some(p@),
        r is None ==> spec_include_dir(uri@) is None,
{
    match file_dir(uri) {
        Some(dir) => Some(path_join(dir.as_str(), "include")),
        None => None,
    }
}

/// Why the compiler's diagnostics could not be had.
#[derive(Debug)]
pub enum LinterError {
    /// The compiler wrote to its error stream; the message quotes it.
    SpcompFailed(String),
    /// The compiler's output holds a message that does not read as a
    /// diagnostic.
    MalformedOutput,
}

/// The message of a failed compiler run: `Failed to run spcomp with error: `
/// followed by what the compiler wrote to its error stream.
pub open spec fn spcomp_failure_message(stderr: Seq<char>) -> Seq<char> {
    "Failed to run spcomp with error: "@ + stderr
}

impl Store {
    /// Removes the diagnostics of every document; nothing else changes.
    pub fn clear_all_diagnostics(&mut self)
        ensures
            final(self).documents.len() == old(self).documents.len(),
            forall|i: int|
                0 <= i < final(self).documents.len() ==> (#[trigger] final(self).documents@[i]).same_but_diagnostics(
                    old(self).documents@[i],
                ) && final(self).documents@[i].diagnostics@.len() == 0,
            final(self).environment == old(self).environment,
            final(self).folders == old(self).folders,
            final(self).path_interner == old(self).path_interner,
            final(self).projects == old(self).projects,
            final(self).wf() == old(self).wf(),
    {
        let n = self.documents.len();
        let mut i: usize = 0;
        while i < n
            invariant
                n == self.documents.len() == old(self).documents.len(),
                i <= n,
                forall|j: int|
                    0 <= j < n ==> (#[trigger] self.documents@[j]).same_but_diagnostics(
                        old(self).documents@[j],
                    ),
                forall|j: int| 0 <= j < i ==> (#[trigger] self.documents@[j]).diagnostics@.len() == 0,
                forall|j: int| i <= j < n ==> #[trigger] self.documents@[j] == old(self).documents@[j],
                self.environment == old(self).environment,
                self.folders == old(self).folders,
                self.path_interner == old(self).path_interner,
                self.projects == old(self).projects,
            decreases n - i,
        {
            self.documents[i].diagnostics.clear();
            i = i + 1;
        }
        proof {
            lemma_wf_but_diagnostics(*self, *old(self));
        }
    }

    /// A copy of the first document with the file id `id`, if there is one.
    pub fn get_cloned(&self, id: FileId) -> (r: Option<Document>)
        ensures
            r matches Some(d) ==> (document_position(self.documents@, id) matches Some(k)
                && d.same_but_diagnostics(self.documents@[k]) && d.diagnostics@
                == self.documents@[k].diagnostics@),
            r is None ==> document_position(self.documents@, id) is None,
    {
        let n = self.documents.len();
        let mut i: usize = 0;
        while i < n
            invariant
                n == self.documents.len(),
                i <= n,
                document_position(self.documents@.take(i as int), id) is None,
            decreases n - i,
        {
            proof {
                assert(self.documents@.take(i + 1).drop_last() =~= self.documents@.take(i as int));
                assert(self.documents@.take(i + 1).last() == self.documents@[i as int]);
            }
            if self.documents[i].file_id.0 == id.0 {
                proof {
                    lemma_document_position_prefix(self.documents@, i + 1, id);
                }
                return Some(self.documents[i].duplicate());
            }
            i = i + 1;
        }
        proof {
            assert(self.documents@.take(n as int) =~= self.documents@);
        }
        None
    }

    /// The command line that runs the compiler on the file that `uri` names;
    /// `include_dir_exists` tells whether the `include` directory beside the
    /// file (see [`include_dir_of`]) exists. `None` where the URL names no file
    /// or the file has no directory.
    pub fn build_args(&self, uri: &str, include_dir_exists: bool) -> (r: Option<Vec<String>>)
        ensures
            r matches Some(v) ==> spec_build_args(
                self.environment.options.spcomp_path@,
                strings_view(self.environment.options.includes_directories@),
                uri@,
                include_dir_exists,
            ) == Some(strings_view(v@)),
            r is None ==> spec_build_args(
                self.environment.options.spcomp_path@,
                strings_view(self.environment.options.includes_directories@),
                uri@,
                include_dir_exists,
            ) is None,
    {
        let file_path = match file_path_of_url(uri) {
            Some(p) => p,
            None => return None,
        };
        let dir = match path_parent(file_path.as_str()) {
            Some(d) => d,
            None => return None,
        };
        let include_path = if include_dir_exists {
            Some(path_join(dir.as_str(), "include"))
        } else {
            None
        };
        let out_path = path_join(dir.as_str(), "tmp6306493182.smx");
        Some(self.compile_args(file_path, dir.as_str(), include_path, out_path.as_str()))
    }

    /// The command line that runs the compiler on the file `file` of the
    /// directory `dir`, searching `include_path` too where there is one, and
    /// writing its output to `out_path`.
    pub fn compile_args(
        &self,
        file: String,
        dir: &str,
        include_path: Option<String>,
        out_path: &str,
    ) -> (r: Vec<String>)
        ensures
            strings_view(r@) == spec_compile_args(
                self.environment.options.spcomp_path@,
                strings_view(self.environment.options.includes_directories@),
                file@,
                dir@,
                match include_path {
                    Some(p) => Some(p@),
                    None => None,
                },
                out_path@,
            ),
    {
        let options = &self.environment.options;
        let ghost includes = strings_view(options.includes_directories@);
        let mut args: Vec<String> = Vec::new();
        args.push(options.spcomp_path.clone());
        let ghost file_view = file@;
        args.push(file);
        let ghost head = strings_view(args@);
        proof {
            assert(head =~= seq![options.spcomp_path@, file_view]);
        }
        let mut i: usize = 0;
        while i < options.includes_directories.len()
            invariant
                includes == strings_view(options.includes_directories@),
                i <= options.includes_directories.len(),
                strings_view(args@) == head + includes.take(i as int).map_values(
                    |d: Seq<char>| "-i"@ + d,
                ),
            decreases options.includes_directories.len() - i,
        {
            let arg = prefixed("-i", options.includes_directories[i].as_str());
            let ghost before = strings_view(args@);
            args.push(arg);
            proof {
                assert(strings_view(args@) =~= before.push(arg@));
                assert(includes.take(i + 1).map_values(|d: Seq<char>| "-i"@ + d) =~= includes.take(
                    i as int,
                ).map_values(|d: Seq<char>| "-i"@ + d).push("-i"@ + includes[i as int]));
                assert(strings_view(args@) =~= head + includes.take(i + 1).map_values(
                    |d: Seq<char>| "-i"@ + d,
                ));
            }
            i = i + 1;
        }
        proof {
            assert(includes.take(includes.len() as int) =~= includes);
        }
        let ghost with_includes = strings_view(args@);
        args.push(prefixed("-i", dir));
        let ghost with_dir = strings_view(args@);
        let ghost include_view = match &include_path {
            Some(p) => Some(p@),
            None => None::<Seq<char>>,
        };
        match &include_path {
            Some(p) => args.push(prefixed("-i", p.as_str())),
            None => {},
        }
        let ghost with_include_dir = strings_view(args@);
        args.push(prefixed("-o", out_path));
        proof {
            assert(strings_view(args@) =~= with_include_dir.push("-o"@ + out_path@));
            assert(with_includes =~= seq![options.spcomp_path@, file_view] + includes.map_values(
                |d: Seq<char>| "-i"@ + d,
            ));
            assert(with_dir =~= with_includes.push("-i"@ + dir@));
            match include_view {
                Some(p) => assert(with_include_dir =~= with_dir.push("-i"@ + p)),
                None => assert(with_include_dir =~= with_dir),
            }
            assert(strings_view(args@) =~= spec_compile_args(
                options.spcomp_path@,
                includes,
                file_view,
                dir@,
                include_view,
                out_path@,
            ));
        }
        args
    }

    /// Reads the compiler's output after the documents' diagnostics are
    /// removed: the two streams are decoded, invalid UTF-8 replaced, and read
    /// as [`Store::read_spcomp_output`] reads them.
    pub fn get_spcomp_diagnostics(&mut self, stdout: &[u8], stderr: &[u8]) -> (r: Result<
        DiagnosticGroups,
        LinterError,
    >)
        ensures
            final(self).documents.len() == old(self).documents.len(),
            forall|i: int|
                0 <= i < final(self).documents.len() ==> (#[trigger] final(self).documents@[i]).same_but_diagnostics(
                    old(self).documents@[i],
                ) && final(self).documents@[i].diagnostics@.len() == 0,
            final(self).environment == old(self).environment,
            final(self).folders == old(self).folders,
            final(self).path_interner == old(self).path_interner,
            final(self).projects == old(self).projects,
            spcomp_outcome(r, lossy_utf8(stdout@), lossy_utf8(stderr@)),
            final(self).wf() == old(self).wf(),
            stderr@.len() > 0 ==> r matches Err(LinterError::SpcompFailed(_)),
    {
        let errors = utf8_lossy(stderr);
        let output = utf8_lossy(stdout);
        self.read_spcomp_output(output.as_str(), errors.as_str())
    }

    /// Reads the compiler's output after the documents' diagnostics are
    /// removed: an error quoting the error stream where the compiler wrote
    /// to it, else the diagnostics of the standard output grouped by file, or
    /// an error where a message of it does not read as a diagnostic.
    pub fn read_spcomp_output(&mut self, stdout: &str, stderr: &str) -> (r: Result<
        DiagnosticGroups,
        LinterError,
    >)
        ensures
            final(self).documents.len() == old(self).documents.len(),
            forall|i: int|
                0 <= i < final(self).documents.len() ==> (#[trigger] final(self).documents@[i]).same_but_diagnostics(
                    old(self).documents@[i],
                ) && final(self).documents@[i].diagnostics@.len() == 0,
            final(self).environment == old(self).environment,
            final(self).folders == old(self).folders,
            final(self).path_interner == old(self).path_interner,
            final(self).projects == old(self).projects,
            spcomp_outcome(r, stdout@, stderr@),
            final(self).wf() == old(self).wf(),
    {
        self.clear_all_diagnostics();
        if stderr.unicode_len() > 0 {
            return Err(LinterError::SpcompFailed(prefixed(
                "Failed to run spcomp with error: ",
                stderr,
            )));
        }
        match parse_spcomp_errors(stdout) {
            Some(diagnostics) => Ok(group_by_uri(diagnostics)),
            None => Err(LinterError::MalformedOutput),
        }
    }
}

/// `r` is what reading the compiler's standard output `stdout` and error
/// stream `stderr` gives: an error quoting a non-empty error stream, else
/// the diagnostics of the output grouped by file, or an error where a
/// message does not read as a diagnostic.
pub open spec fn spcomp_outcome(
    r: Result<DiagnosticGroups, LinterError>,
    stdout: Seq<char>,
    stderr: Seq<char>,
) -> bool {
    if stderr.len() > 0 {
        r matches Err(LinterError::SpcompFailed(m)) && m@ == spcomp_failure_message(stderr)
    } else {
        match spec_parse_spcomp_errors(stdout) {
            Some(ds) => r matches Ok(gs) && groups_view(gs@) == spec_group_by_uri(ds),
            None => r matches Err(LinterError::MalformedOutput),
        }
    }
}

} // verus!
