use sourcepawn_lsp::item_tree::FileId;
use sourcepawn_lsp::lsp::{Diagnostic, DiagnosticSeverity, Position, Range};
use sourcepawn_lsp::server::{
    project_parse_result, FilesError, ProgressKind, ProjectError, ProjectRoot, Server,
    ServerAction, UnscannedDocument,
};
use sourcepawn_lsp::store::{Document, Environment, Options, Store};

fn document(id: u32, uri: &str, parsed: bool) -> Document {
    Document {
        file_id: FileId(id),
        uri: uri.to_string(),
        text: format!("text {}", id),
        parsed,
        diagnostics: vec![Diagnostic {
            range: Range {
                start: Position { line: 0, character: 0 },
                end: Position { line: 0, character: 1 },
            },
            severity: Some(DiagnosticSeverity::Warning),
            message: "w".to_string(),
        }],
    }
}

fn server() -> Server {
    Server {
        indexing: false,
        store: Store {
            documents: vec![
                document(0, "file:///w/a.sp", true),
                document(2, "file:///w/c.sp", false),
                document(3, "file:///w/d.sp", false),
            ],
            environment: Environment {
                options: Options { spcomp_path: "spcomp".to_string(), includes_directories: vec![] },
            },
            folders: vec!["/w".to_string(), "/missing".to_string(), "/x".to_string()],
            path_interner: vec![
                "file:///w/a.sp".to_string(),
                "file:///w/b.sp".to_string(),
                "file:///w/c.sp".to_string(),
                "file:///".to_string(),
                "http://example.com/e.sp".to_string(),
            ],
            projects: vec![FileId(9)],
        },
    }
}

fn is_progress(a: &ServerAction, t: &str, k: ProgressKind, m: Option<&str>) -> bool {
    match a {
        ServerAction::Progress { title, kind, message } => {
            title == t && *kind == k && message.as_deref() == m
        },
        _ => false,
    }
}

#[test]
fn reparse_all_starts_indexing() {
    let mut s = server();
    let actions = s.reparse_all();
    assert!(s.indexing);
    assert_eq!(actions.len(), 4);
    assert!(matches!(actions[0], ServerAction::SendStatus { quiescent: false }));
    assert!(matches!(actions[1], ServerAction::ParseDirectories));
    assert!(is_progress(&actions[2], "Resolving roots", ProgressKind::Begin, None));
    assert!(matches!(actions[3], ServerAction::LoadProjectsGraph));
}

#[test]
fn reparse_roots_parses_each_root_and_ends_indexing() {
    let mut s = server();
    let _ = s.reparse_all();
    let roots = vec![
        ProjectRoot { file_id: FileId(0), file_name: Some("a.sp".to_string()) },
        ProjectRoot { file_id: FileId(4), file_name: None },
    ];
    let actions = s.reparse_roots(vec![FileId(0), FileId(2), FileId(4)], roots);
    assert!(!s.indexing);
    assert_eq!(s.store.projects, vec![FileId(0), FileId(2), FileId(4)]);
    assert_eq!(actions.len(), 7);
    assert!(is_progress(&actions[0], "Resolving roots", ProgressKind::End, None));
    assert!(is_progress(&actions[1], "Parsing", ProgressKind::Begin, None));
    assert!(is_progress(&actions[2], "Parsing", ProgressKind::Report, Some("(a.sp)")));
    assert!(matches!(actions[3], ServerAction::ParseProject { file_id: FileId(0) }));
    assert!(matches!(actions[4], ServerAction::ParseProject { file_id: FileId(4) }));
    assert!(is_progress(&actions[5], "Parsing", ProgressKind::End, None));
    assert!(matches!(actions[6], ServerAction::SendStatus { quiescent: true }));
}

#[test]
fn parse_project_opens_the_main_document() {
    let s = server();
    let d = s.parse_project(FileId(2)).ok().unwrap();
    assert_eq!(d.uri, "file:///w/c.sp");
    assert_eq!(d.text, "text 2");
    let e = s.parse_project(FileId(7)).err().unwrap();
    assert_eq!(e, ProjectError::MainPathMissing(FileId(7)));
    assert_eq!(e.message(), "Main Path does not exist for id FileId(7)");
    assert_eq!(
        ProjectError::ParseFailed(FileId(12)).message(),
        "Could not parse file at id FileId(12)"
    );
}

#[test]
fn parse_directories_warns_of_missing_folders() {
    let s = server();
    let actions = s.parse_directories(&vec![true, false, true]);
    assert_eq!(actions.len(), 7);
    assert!(is_progress(&actions[0], "Indexing", ProgressKind::Begin, None));
    assert!(is_progress(&actions[1], "Indexing", ProgressKind::Report, Some("1/3 folders")));
    assert!(matches!(&actions[2], ServerAction::DiscoverDocuments { path } if path == "/w"));
    assert!(matches!(
        &actions[3],
        ServerAction::ShowWarning { message } if message == "Invalid IncludeDirectory path: /missing"
    ));
    assert!(is_progress(&actions[4], "Indexing", ProgressKind::Report, Some("3/3 folders")));
    assert!(matches!(&actions[5], ServerAction::DiscoverDocuments { path } if path == "/x"));
    assert!(is_progress(&actions[6], "Indexing", ProgressKind::End, None));
}

#[test]
fn read_unscanned_document_decides_what_to_scan() {
    let s = server();
    assert!(matches!(s.read_unscanned_document("file:///w/a.sp"), Ok(UnscannedDocument::Known)));
    assert!(matches!(s.read_unscanned_document("file:///w/c.sp"), Ok(UnscannedDocument::Known)));
    match s.read_unscanned_document("file:///w/b.sp") {
        Ok(UnscannedDocument::Discover { parent_dir }) => assert_eq!(parent_dir, "/w"),
        _ => panic!("expected a folder to discover"),
    }
    assert!(matches!(
        s.read_unscanned_document("file:///w/zzz.sp"),
        Err(FilesError::NoFileId { uri }) if uri == "file:///w/zzz.sp"
    ));
    assert!(matches!(
        s.read_unscanned_document("http://example.com/e.sp"),
        Err(FilesError::NoFilePath { .. })
    ));
}

#[test]
fn read_unscanned_document_of_a_root_has_no_parent() {
    let mut s = server();
    s.store.documents.retain(|d| d.file_id != FileId(3));
    assert!(matches!(
        s.read_unscanned_document("file:///"),
        Err(FilesError::NoParentDirectory { .. })
    ));
}

#[test]
fn unparsed_documents_are_listed_in_order() {
    let s = server();
    let docs = s.unparsed_documents();
    assert_eq!(docs.len(), 2);
    assert_eq!(docs[0].uri, "file:///w/c.sp");
    assert_eq!(docs[1].uri, "file:///w/d.sp");
    assert_eq!(docs[1].text, "text 3");
}

#[test]
fn files_errors_quote_the_url() {
    assert_eq!(
        FilesError::NoFileId { uri: "file:///w/z.sp".to_string() }.message(),
        "Couldn't get a file id from the path interner for file:///w/z.sp"
    );
    assert_eq!(
        FilesError::NoFilePath { uri: "http://e/a.sp".to_string() }.message(),
        "Couldn't extract a path from http://e/a.sp"
    );
    assert_eq!(
        FilesError::NoParentDirectory { uri: "file:///".to_string() }.message(),
        "Couldn't get the parent directory of file:///"
    );
}

#[test]
fn project_parse_result_reports_a_failed_parse() {
    assert_eq!(project_parse_result(FileId(3), true), Ok(()));
    let e = project_parse_result(FileId(3), false).err().unwrap();
    assert_eq!(e, ProjectError::ParseFailed(FileId(3)));
    assert_eq!(e.message(), "Could not parse file at id FileId(3)");
}
