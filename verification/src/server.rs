//! The server's decisions when it indexes the workspace: which progress and
//! status it reports, which folders it scans, which projects it parses, and
//! what it does with a document that it does not know yet.
//!
//! Scanning folders, parsing documents and talking to the client are work
//! outside the library; the functions here return the steps to take, in
//! order, as [`ServerAction`]s, and take the outcome of that work as
//! arguments.

use vstd::prelude::*;

use crate::item_tree::FileId;
use crate::paths::{file_path_of_url, parent_path, path_parent, url_file_path};
use crate::store::{document_position, Document, Store};
use crate::text::{decimal, decimal_string, prefixed, push_decimal};

verus! {

/// The phase of a progress report.
#[derive(Debug, Clone, Copy, PartialEq, Eq, Structural)]
pub enum ProgressKind {
    Begin,
    Report,
    End,
}

/// A step of work outside the library that the server takes.
#[derive(Debug)]
pub enum ServerAction {
    /// Tells the client whether the server is quiescent (not indexing).
    SendStatus { quiescent: bool },
    /// Reports progress of the task `title`.
    Progress { title: String, kind: ProgressKind, message: Option<String> },
    /// Shows the client a warning.
    ShowWarning { message: String },
    /// Discovers the documents of a folder on disk.
    DiscoverDocuments { path: String },
    /// Scans the folders of the workspace (see [`Server::parse_directories`]).
    ParseDirectories,
    /// Loads the graph of projects from the includes of the documents, and
    /// finds its roots (see [`Server::reparse_roots`]).
    LoadProjectsGraph,
    /// Parses the project whose main file is `file_id` (see
    /// [`Server::parse_project`]).
    ParseProject { file_id: FileId },
}

/// The view of a [`ServerAction`], its texts as sequences of characters.
pub enum ActionView {
    SendStatus { quiescent: bool },
    Progress { title: Seq<char>, kind: ProgressKind, message: Option<Seq<char>> },
    ShowWarning { message: Seq<char> },
    DiscoverDocuments { path: Seq<char> },
    ParseDirectories,
    LoadProjectsGraph,
    ParseProject { file_id: FileId },
}

impl View for ServerAction {
    type V = ActionView;

    open spec fn view(&self) -> ActionView {
        match self {
            ServerAction::SendStatus { quiescent } => ActionView::SendStatus { quiescent: *quiescent },
            ServerAction::Progress { title, kind, message } => ActionView::Progress {
                title: title@,
                kind: *kind,
                message: match message {
                    Some(m) => Some(m@),
                    None => None,
                },
            },
            ServerAction::ShowWarning { message } => ActionView::ShowWarning { message: message@ },
            ServerAction::DiscoverDocuments { path } => ActionView::DiscoverDocuments { path: path@ },
            ServerAction::ParseDirectories => ActionView::ParseDirectories,
            ServerAction::LoadProjectsGraph => ActionView::LoadProjectsGraph,
            ServerAction::ParseProject { file_id } => ActionView::ParseProject { file_id: *file_id },
        }
    }
}

/// The views of a sequence of actions.
pub open spec fn actions_view(v: Seq<ServerAction>) -> Seq<ActionView> {
    v.map_values(|a: ServerAction| a@)
}

/// A progress report without message.
pub open spec fn progress(title: Seq<char>, kind: ProgressKind) -> ActionView {
    ActionView::Progress { title, kind, message: None }
}

/// Makes a progress report without message.
fn progress_action(title: &str, kind: ProgressKind) -> (r: ServerAction)
    ensures
        r@ == progress(title@, kind),
{
    ServerAction::Progress { title: String::from_str(title), kind, message: None }
}

/// The main file of a project that indexing found, with the file name that
/// its progress report shows, if it has one.
pub struct ProjectRoot {
    pub file_id: FileId,
    pub file_name: Option<String>,
}

/// The steps for one root: a progress report that names the file, where it
/// has a name, then the parsing of the project.
pub open spec fn root_actions(root: ProjectRoot) -> Seq<ActionView> {
    match root.file_name {
        Some(name) => seq![
            ActionView::Progress {
                title: "Parsing"@,
                kind: ProgressKind::Report,
                message: Some("("@ + name@ + ")"@),
            },
            ActionView::ParseProject { file_id: root.file_id },
        ],
        None => seq![ActionView::ParseProject { file_id: root.file_id }],
    }
}

/// The steps for the roots, one root after the other.
pub open spec fn roots_actions(roots: Seq<ProjectRoot>) -> Seq<ActionView>
    decreases roots.len(),
{
    if roots.len() == 0 {
        Seq::empty()
    } else {
        roots_actions(roots.drop_last()) + root_actions(roots.last())
    }
}

/// The steps of scanning the folder `path` at position `i` of `n` folders:
/// a warning where it does not exist, else a progress report `i+1/n folders`
/// and the discovery of its documents.
pub open spec fn folder_actions(path: Seq<char>, i: nat, n: nat, exists: bool) -> Seq<ActionView> {
    if !exists {
        seq![ActionView::ShowWarning { message: "Invalid IncludeDirectory path: "@ + path }]
    } else {
        seq![
            ActionView::Progress {
                title: "Indexing"@,
                kind: ProgressKind::Report,
                message: Some(decimal(i + 1) + "/"@ + decimal(n) + " folders"@),
            },
            ActionView::DiscoverDocuments { path },
        ]
    }
}

/// The steps of scanning the first `k` of the folders `paths`.
pub open spec fn folders_actions(paths: Seq<Seq<char>>, exists: Seq<bool>, k: nat) -> Seq<ActionView>
    decreases k,
{
    if k == 0 {
        Seq::empty()
    } else {
        folders_actions(paths, exists, (k - 1) as nat) + folder_actions(
            paths[k - 1],
            (k - 1) as nat,
            paths.len(),
            exists[k - 1],
        )
    }
}

/// The text and URL of a document to parse.
pub struct OpenDocument {
    pub uri: String,
    pub text: String,
}

/// Why a project could not be parsed.
#[derive(Debug, Clone, Copy, PartialEq, Eq, Structural)]
pub enum ProjectError {
    /// No document has the main file's id.
    MainPathMissing(FileId),
    /// Parsing the main file failed.
    ParseFailed(FileId),
}

/// `FileId(<n>)`: how a file id is written in messages.
pub open spec fn file_id_text(id: FileId) -> Seq<char> {
    "FileId("@ + decimal(id.0 as nat) + ")"@
}

impl ProjectError {
    /// The message of the error.
    pub open spec fn spec_message(self) -> Seq<char> {
        match self {
            ProjectError::MainPathMissing(id) => "Main Path does not exist for id "@ + file_id_text(id),
            ProjectError::ParseFailed(id) => "Could not parse file at id "@ + file_id_text(id),
        }
    }

    /// The message of the error.
    pub fn message(&self) -> (r: String)
        ensures
            r@ == self.spec_message(),
    {
        let (mut s, id) = match self {
            ProjectError::MainPathMissing(id) => (String::from_str("Main Path does not exist for id "), *id),
            ProjectError::ParseFailed(id) => (String::from_str("Could not parse file at id "), *id),
        };
        let ghost start = s@;
        s.append("FileId(");
        push_decimal(&mut s, id.0 as u64);
        s.append(")");
        proof {
            assert(s@ =~= start + file_id_text(id));
        }
        s
    }
}

/// What the server does with a document that it was asked about.
#[derive(Debug)]
pub enum UnscannedDocument {
    /// The document is known: nothing to do.
    Known,
    /// The document is not known: the documents of `parent_dir` are to be
    /// discovered, and then every document not yet parsed is to be parsed
    /// (see [`Server::unparsed_documents`]).
    Discover { parent_dir: String },
}

/// Why a document that the server was asked about could not be scanned.
#[derive(Debug)]
pub enum FilesError {
    /// The URL has no file id.
    NoFileId { uri: String },
    /// The URL names no file path.
    NoFilePath { uri: String },
    /// The file has no parent directory.
    NoParentDirectory { uri: String },
}

impl FilesError {
    /// The message of the error, which quotes the URL.
    pub open spec fn spec_message(&self) -> Seq<char> {
        match self {
            FilesError::NoFileId { uri } => "Couldn't get a file id from the path interner for "@
                + uri@,
            FilesError::NoFilePath { uri } => "Couldn't extract a path from "@ + uri@,
            FilesError::NoParentDirectory { uri } => "Couldn't get the parent directory of "@
                + uri@,
        }
    }

    /// The message of the error, which quotes the URL.
    pub fn message(&self) -> (r: String)
        ensures
            r@ == self.spec_message(),
    {
        match self {
            FilesError::NoFileId { uri } => prefixed(
                "Couldn't get a file id from the path interner for ",
                uri.as_str(),
            ),
            FilesError::NoFilePath { uri } => prefixed("Couldn't extract a path from ", uri.as_str()),
            FilesError::NoParentDirectory { uri } => prefixed(
                "Couldn't get the parent directory of ",
                uri.as_str(),
            ),
        }
    }
}

/// The outcome of a project whose main file `main_id` was opened for parsing:
/// nothing to report where parsing it succeeded, else the parse-failed error.
pub fn project_parse_result(main_id: FileId, parsed: bool) -> (r: Result<(), ProjectError>)
    ensures
        parsed ==> r is Ok,
        !parsed ==> r == Err::<(), ProjectError>(ProjectError::ParseFailed(main_id)),
{
    if parsed {
        Ok(())
    } else {
        Err(ProjectError::ParseFailed(main_id))
    }
}

/// The position of the first URL of `urls` that is `uri`.
pub open spec fn url_position(urls: Seq<String>, uri: Seq<char>) -> Option<int>
    decreases urls.len(),
{
    if urls.len() == 0 {
        None
    } else {
        match url_position(urls.drop_last(), uri) {
            Some(i) => Some(i),
            None => if urls.last()@ == uri {
                Some(urls.len() - 1)
            } else {
                None
            },
        }
    }
}

/// Where a prefix of `urls` holds `uri`, its first position there is its
/// first position in `urls`.
proof fn lemma_url_position_prefix(urls: Seq<String>, k: int, uri: Seq<char>)
    requires
        0 <= k <= urls.len(),
    ensures
        url_position(urls.take(k), uri) is Some ==> url_position(urls, uri) == url_position(
            urls.take(k),
            uri,
        ),
    decreases urls.len() - k,
{
    if k < urls.len() {
        lemma_url_position_prefix(urls, k + 1, uri);
        assert(urls.take(k + 1).drop_last() =~= urls.take(k));
    } else {
        assert(urls.take(k) =~= urls);
    }
}

/// `url_position` finds a position that holds the URL.
proof fn lemma_url_position(urls: Seq<String>, uri: Seq<char>)
    ensures
        url_position(urls, uri) matches Some(k) ==> 0 <= k < urls.len() && urls[k]@ == uri,
    decreases urls.len(),
{
    if urls.len() > 0 {
        lemma_url_position(urls.drop_last(), uri);
    }
}

/// What checking the document of a URL comes to (see
/// [`Server::read_unscanned_document`]).
pub enum UnscannedOutcome {
    Known,
    Discover(Seq<char>),
    NoFileId,
    NoFilePath,
    NoParentDirectory,
}

/// What the server does with the document of URL `uri`: an error where the
/// URL has no file id; nothing where a document has that id; else an error
/// where the URL names no file or the file no directory, and the discovery
/// of the file's directory otherwise.
pub open spec fn spec_unscanned(store: Store, uri: Seq<char>) -> UnscannedOutcome {
    match url_position(store.path_interner@, uri) {
        None => UnscannedOutcome::NoFileId,
        Some(k) => if document_position(store.documents@, FileId(k as u32)) is Some {
            UnscannedOutcome::Known
        } else {
            match url_file_path(uri) {
                None => UnscannedOutcome::NoFilePath,
                Some(path) => match parent_path(path) {
                    None => UnscannedOutcome::NoParentDirectory,
                    Some(dir) => UnscannedOutcome::Discover(dir),
                },
            }
        },
    }
}

/// The documents of `docs` that are not parsed yet, in order.
pub open spec fn spec_unparsed(docs: Seq<Document>) -> Seq<(Seq<char>, Seq<char>)>
    decreases docs.len(),
{
    if docs.len() == 0 {
        Seq::empty()
    } else if docs.last().parsed {
        spec_unparsed(docs.drop_last())
    } else {
        spec_unparsed(docs.drop_last()).push((docs.last().uri@, docs.last().text@))
    }
}

/// The state of the server that indexing reads and changes.
pub struct Server {
    /// The server is indexing the workspace.
    pub indexing: bool,
    pub store: Store,
}

impl Server {
    /// Starts indexing the workspace: the server is then indexing, and the
    /// steps are to report that it is not quiescent, scan the folders,
    /// begin resolving the roots and load the projects graph.
    pub fn reparse_all(&mut self) -> (r: Vec<ServerAction>)
        ensures
            final(self).indexing,
            final(self).store == old(self).store,
            actions_view(r@) == seq![
                ActionView::SendStatus { quiescent: false },
                ActionView::ParseDirectories,
                progress("Resolving roots"@, ProgressKind::Begin),
                ActionView::LoadProjectsGraph,
            ],
    {
        self.indexing = true;
        let mut actions: Vec<ServerAction> = Vec::new();
        actions.push(ServerAction::SendStatus { quiescent: !self.indexing });
        actions.push(ServerAction::ParseDirectories);
        actions.push(progress_action("Resolving roots", ProgressKind::Begin));
        actions.push(ServerAction::LoadProjectsGraph);
        proof {
            assert(actions_view(actions@) =~= seq![
                ActionView::SendStatus { quiescent: false },
                ActionView::ParseDirectories,
                progress("Resolving roots"@, ProgressKind::Begin),
                ActionView::LoadProjectsGraph,
            ]);
        }
        actions
    }

    /// Finishes indexing once the projects graph is loaded: `projects` (the
    /// graph, by the file ids of its files) becomes the store's projects and
    /// the server stops indexing; `roots` are the graph's roots; the
    /// steps are to end resolving the roots, parse each root's project with a
    /// report of its file name where it has one, and report that the server
    /// is quiescent again.
    pub fn reparse_roots(&mut self, projects: Vec<FileId>, roots: Vec<ProjectRoot>) -> (r: Vec<
        ServerAction,
    >)
        ensures
            !final(self).indexing,
            final(self).store.projects@ == projects@,
            final(self).store.documents == old(self).store.documents,
            final(self).store.environment == old(self).store.environment,
            final(self).store.folders == old(self).store.folders,
            final(self).store.path_interner == old(self).store.path_interner,
            final(self).store.wf() == old(self).store.wf(),
            actions_view(r@) == seq![
                progress("Resolving roots"@, ProgressKind::End),
                progress("Parsing"@, ProgressKind::Begin),
            ] + roots_actions(roots@) + seq![
                progress("Parsing"@, ProgressKind::End),
                ActionView::SendStatus { quiescent: true },
            ],
    {
        let mut actions: Vec<ServerAction> = Vec::new();
        actions.push(progress_action("Resolving roots", ProgressKind::End));
        actions.push(progress_action("Parsing", ProgressKind::Begin));
        let ghost head = actions_view(actions@);
        let mut i: usize = 0;
        while i < roots.len()
            invariant
                i <= roots.len(),
                actions_view(actions@) == head + roots_actions(roots@.take(i as int)),
            decreases roots.len() - i,
        {
            let root = &roots[i];
            let ghost before = actions_view(actions@);
            match &root.file_name {
                Some(name) => {
                    let mut message = prefixed("(", name.as_str());
                    message.append(")");
                    actions.push(
                        ServerAction::Progress {
                            title: String::from_str("Parsing"),
                            kind: ProgressKind::Report,
                            message: Some(message),
                        },
                    );
                },
                None => {},
            }
            actions.push(ServerAction::ParseProject { file_id: root.file_id });
            proof {
                assert(actions_view(actions@) =~= before + root_actions(*root));
                assert(roots@.take(i + 1).drop_last() =~= roots@.take(i as int));
                assert(roots@.take(i + 1).last() == *root);
                assert(actions_view(actions@) =~= head + roots_actions(roots@.take(i + 1)));
            }
            i = i + 1;
        }
        proof {
            assert(roots@.take(roots.len() as int) =~= roots@);
        }
        let ghost middle = actions_view(actions@);
        actions.push(progress_action("Parsing", ProgressKind::End));
        self.store.projects = projects;
        self.indexing = false;
        actions.push(ServerAction::SendStatus { quiescent: !self.indexing });
        proof {
            assert(actions_view(actions@) =~= middle + seq![
                progress("Parsing"@, ProgressKind::End),
                ActionView::SendStatus { quiescent: true },
            ]);
            assert(self.store.documents@ == old(self).store.documents@);
            assert(self.store.path_interner@ == old(self).store.path_interner@);
        }
        actions
    }

    /// The document to parse for the project whose main file is `main_id`:
    /// the first document with that id, or an error where there is none.
    pub fn parse_project(&self, main_id: FileId) -> (r: Result<OpenDocument, ProjectError>)
        ensures
            r matches Ok(d) ==> (document_position(self.store.documents@, main_id) matches Some(k)
                && d.uri@ == self.store.documents@[k].uri@ && d.text@
                == self.store.documents@[k].text@),
            r matches Err(e) ==> (e == ProjectError::MainPathMissing(main_id) && document_position(
                self.store.documents@,
                main_id,
            ) is None),
    {
        match self.store.get_cloned(main_id) {
            Some(document) => Ok(OpenDocument { uri: document.uri, text: document.text }),
            None => Err(ProjectError::MainPathMissing(main_id)),
        }
    }

    /// The steps of scanning the folders of the store, where `folder_exists`
    /// tells of each folder whether it exists on disk: begin indexing, then
    /// for each folder a warning where it does not exist, else a progress
    /// report `i/n folders` and the discovery of its documents; end indexing.
    pub fn parse_directories(&self, folder_exists: &Vec<bool>) -> (r: Vec<ServerAction>)
        requires
            folder_exists.len() == self.store.folders.len(),
        ensures
            actions_view(r@) == seq![progress("Indexing"@, ProgressKind::Begin)] + folders_actions(
                self.store.folders@.map_values(|f: String| f@),
                folder_exists@,
                self.store.folders.len() as nat,
            ) + seq![progress("Indexing"@, ProgressKind::End)],
    {
        let folders = &self.store.folders;
        let ghost paths = folders@.map_values(|f: String| f@);
        let n = folders.len();
        let mut actions: Vec<ServerAction> = Vec::new();
        actions.push(progress_action("Indexing", ProgressKind::Begin));
        let ghost head = actions_view(actions@);
        let mut i: usize = 0;
        while i < n
            invariant
                n == folders.len() == folder_exists.len(),
                paths == folders@.map_values(|f: String| f@),
                i <= n,
                actions_view(actions@) == head + folders_actions(paths, folder_exists@, i as nat),
            decreases n - i,
        {
            let ghost before = actions_view(actions@);
            if !folder_exists[i] {
                actions.push(
                    ServerAction::ShowWarning {
                        message: prefixed("Invalid IncludeDirectory path: ", folders[i].as_str()),
                    },
                );
            } else {
                let mut message = decimal_string((i + 1) as u64);
                message.append("/");
                push_decimal(&mut message, n as u64);
                message.append(" folders");
                actions.push(
                    ServerAction::Progress {
                        title: String::from_str("Indexing"),
                        kind: ProgressKind::Report,
                        message: Some(message),
                    },
                );
                actions.push(ServerAction::DiscoverDocuments { path: folders[i].clone() });
            }
            proof {
                assert(paths[i as int] == folders@[i as int]@);
                assert(actions_view(actions@) =~= before + folder_actions(
                    paths[i as int],
                    i as nat,
                    n as nat,
                    folder_exists@[i as int],
                ));
            }
            i = i + 1;
        }
        actions.push(progress_action("Indexing", ProgressKind::End));
        proof {
            assert(actions_view(actions@) =~= head + folders_actions(paths, folder_exists@, n as nat)
                + seq![progress("Indexing"@, ProgressKind::End)]);
        }
        actions
    }

    /// Checks whether the document of URL `uri` is known: an error where the
    /// URL has no file id; nothing to do where a document has that id; else
    /// the directory of the file, whose documents are to be discovered, or an
    /// error where the URL names no file or the file no directory.
    pub fn read_unscanned_document(&self, uri: &str) -> (r: Result<UnscannedDocument, FilesError>)
        requires
            self.store.path_interner.len() <= u32::MAX,
        ensures
            r matches Ok(UnscannedDocument::Known) ==> spec_unscanned(self.store, uri@)
                is Known,
            r matches Ok(UnscannedDocument::Discover { parent_dir }) ==> spec_unscanned(
                self.store,
                uri@,
            ) == UnscannedOutcome::Discover(parent_dir@),
            r matches Err(FilesError::NoFileId { uri: u }) ==> (u@ == uri@ && spec_unscanned(
                self.store,
                uri@,
            ) is NoFileId),
            r matches Err(FilesError::NoFilePath { uri: u }) ==> (u@ == uri@ && spec_unscanned(
                self.store,
                uri@,
            ) is NoFilePath),
            r matches Err(FilesError::NoParentDirectory { uri: u }) ==> (u@ == uri@
                && spec_unscanned(self.store, uri@) is NoParentDirectory),
    {
        let urls = &self.store.path_interner;
        let key = String::from_str(uri);
        let mut k: usize = 0;
        let mut found = false;
        while !found && k < urls.len()
            invariant
                k <= urls.len() <= u32::MAX,
                key@ == uri@,
                !found ==> url_position(urls@.take(k as int), uri@) is None,
                found ==> k < urls.len() && url_position(urls@, uri@) == Some(k as int),
            decreases urls.len() - k + (if found { 0int } else { 1int }),
        {
            proof {
                assert(urls@.take(k + 1).drop_last() =~= urls@.take(k as int));
                assert(urls@.take(k + 1).last() == urls@[k as int]);
            }
            if urls[k] == key {
                proof {
                    lemma_url_position_prefix(urls@, k + 1, uri@);
                }
                found = true;
            } else {
                k = k + 1;
            }
        }
        if !found {
            proof {
                assert(urls@.take(k as int) =~= urls@);
            }
            return Err(FilesError::NoFileId { uri: key });
        }
        let file_id = FileId(k as u32);
        if self.store.get_cloned(file_id).is_some() {
            return Ok(UnscannedDocument::Known);
        }
        let path = match file_path_of_url(uri) {
            Some(p) => p,
            None => return Err(FilesError::NoFilePath { uri: key }),
        };
        match path_parent(path.as_str()) {
            Some(parent_dir) => Ok(UnscannedDocument::Discover { parent_dir }),
            None => Err(FilesError::NoParentDirectory { uri: key }),
        }
    }

    /// The URL and text of every document not parsed yet, in order: the
    /// documents to parse after a folder is discovered.
    pub fn unparsed_documents(&self) -> (r: Vec<OpenDocument>)
        ensures
            r@.map_values(|d: OpenDocument| (d.uri@, d.text@)) == spec_unparsed(self.store.documents@),
    {
        let docs = &self.store.documents;
        let mut r: Vec<OpenDocument> = Vec::new();
        let mut i: usize = 0;
        while i < docs.len()
            invariant
                i <= docs.len(),
                r@.map_values(|d: OpenDocument| (d.uri@, d.text@)) == spec_unparsed(docs@.take(i as int)),
            decreases docs.len() - i,
        {
            let ghost before = r@.map_values(|d: OpenDocument| (d.uri@, d.text@));
            proof {
                assert(docs@.take(i + 1).drop_last() =~= docs@.take(i as int));
                assert(docs@.take(i + 1).last() == docs@[i as int]);
            }
            if !docs[i].parsed {
                r.push(OpenDocument { uri: docs[i].uri.clone(), text: docs[i].text.clone() });
                proof {
                    assert(r@.map_values(|d: OpenDocument| (d.uri@, d.text@)) =~= before.push(
                        (docs@[i as int].uri@, docs@[i as int].text@),
                    ));
                }
            } else {
                proof {
                    assert(r@.map_values(|d: OpenDocument| (d.uri@, d.text@)) =~= before);
                }
            }
            i = i + 1;
        }
        proof {
            assert(docs@.take(docs.len() as int) =~= docs@);
        }
        r
    }
}

} // verus!
