use sourcepawn_lsp::item_tree::FileId;
use sourcepawn_lsp::linter::{
    diagnostic_from_captures, diagnostics_from_captures, group_by_uri, parse_spcomp_errors,
    SPCompDiagnostic, SPCompSeverity, LINE_END_CHARACTER,
};
use sourcepawn_lsp::lsp::{Diagnostic, DiagnosticSeverity, Position, Range};
use sourcepawn_lsp::store::{
    get_out_path, include_dir_of, Document, Environment, LinterError, Options, Store,
};

fn diagnostic(line: u32) -> Diagnostic {
    Diagnostic {
        range: Range {
            start: Position { line, character: 0 },
            end: Position { line, character: 1 },
        },
        severity: Some(DiagnosticSeverity::Hint),
        message: "old".to_string(),
    }
}

fn document(id: u32, uri: &str, parsed: bool) -> Document {
    Document {
        file_id: FileId(id),
        uri: uri.to_string(),
        text: format!("text {}", id),
        parsed,
        diagnostics: vec![diagnostic(id), diagnostic(id + 1)],
    }
}

fn store() -> Store {
    Store {
        documents: vec![
            document(0, "file:///home/u/proj/a.sp", true),
            document(1, "file:///home/u/proj/b.sp", false),
        ],
        environment: Environment {
            options: Options {
                spcomp_path: "/usr/bin/spcomp".to_string(),
                includes_directories: vec!["/inc".to_string(), "/opt/sm/include".to_string()],
            },
        },
        folders: vec!["/home/u/proj".to_string()],
        path_interner: vec![
            "file:///home/u/proj/a.sp".to_string(),
            "file:///home/u/proj/b.sp".to_string(),
        ],
        projects: vec![],
    }
}

#[test]
fn severities_map_to_the_protocol() {
    assert_eq!(SPCompSeverity::Warning.to_lsp_severity(), DiagnosticSeverity::Warning);
    assert_eq!(SPCompSeverity::Error.to_lsp_severity(), DiagnosticSeverity::Error);
    assert_eq!(SPCompSeverity::FatalError.to_lsp_severity(), DiagnosticSeverity::Error);
    assert_eq!(DiagnosticSeverity::Error.code(), 1);
    assert_eq!(DiagnosticSeverity::Warning.code(), 2);
    assert_eq!(DiagnosticSeverity::Information.code(), 3);
    assert_eq!(DiagnosticSeverity::Hint.code(), 4);
}

#[test]
fn compiler_diagnostic_covers_its_line() {
    let d = SPCompDiagnostic {
        uri: "file:///a.sp".to_string(),
        line_index: 4,
        severity: SPCompSeverity::FatalError,
        message: "cannot read from file".to_string(),
    };
    let l = d.to_lsp_diagnostic();
    assert_eq!(l.range.start, Position { line: 4, character: 0 });
    assert_eq!(l.range.end, Position { line: 4, character: LINE_END_CHARACTER });
    assert_eq!(LINE_END_CHARACTER, 1000);
    assert_eq!(l.message, "cannot read from file");
    assert_eq!(l.severity, Some(DiagnosticSeverity::Error));
}

#[test]
fn parse_spcomp_errors_reads_each_message() {
    let stdout = "SourcePawn Compiler 1.11\n\
/home/u/proj/a.sp(12) : error 017: undefined symbol \"x\"\n\
/home/u/proj/b.sp(3) : warning 204: symbol is assigned a value that is never used: \"y\"\n\
/home/u/proj/a.sp(40) : fatal error 183: too many errors\n\
1 Error.\n";
    let ds = parse_spcomp_errors(stdout).unwrap();
    assert_eq!(ds.len(), 3);
    assert_eq!(ds[0].uri, "file:///home/u/proj/a.sp");
    assert_eq!(ds[0].line_index, 11);
    assert_eq!(ds[0].severity, SPCompSeverity::Error);
    assert_eq!(ds[0].message, "undefined symbol \"x\"");
    assert_eq!(ds[1].uri, "file:///home/u/proj/b.sp");
    assert_eq!(ds[1].line_index, 2);
    assert_eq!(ds[1].severity, SPCompSeverity::Warning);
    assert_eq!(ds[2].severity, SPCompSeverity::FatalError);
    assert_eq!(ds[2].line_index, 39);
    assert_eq!(ds[2].message, "too many errors");
}

#[test]
fn parse_spcomp_errors_of_clean_output_is_empty() {
    assert_eq!(parse_spcomp_errors("Code size: 100 bytes\nDone.\n").unwrap().len(), 0);
    assert_eq!(parse_spcomp_errors("").unwrap().len(), 0);
}

#[test]
fn parse_spcomp_errors_refuses_line_zero_and_relative_paths() {
    assert!(parse_spcomp_errors("/a.sp(0) : error 001: bad\n").is_none());
    assert!(parse_spcomp_errors("a.sp(3) : error 001: bad\n").is_none());
}

#[test]
fn group_by_uri_keeps_order_within_a_file() {
    let stdout = "/p/a.sp(1) : error 001: one\n/p/b.sp(2) : error 002: two\n/p/a.sp(3) : warning 003: three\n";
    let groups = group_by_uri(parse_spcomp_errors(stdout).unwrap());
    assert_eq!(groups.len(), 2);
    assert_eq!(groups[0].0, "file:///p/a.sp");
    assert_eq!(groups[0].1.len(), 2);
    assert_eq!(groups[0].1[0].message, "one");
    assert_eq!(groups[0].1[1].message, "three");
    assert_eq!(groups[1].0, "file:///p/b.sp");
    assert_eq!(groups[1].1.len(), 1);
    assert_eq!(groups[1].1[0].line_index, 1);
}

#[test]
fn out_path_and_include_dir_sit_beside_the_file() {
    assert_eq!(
        get_out_path("file:///home/u/proj/a.sp"),
        Some("/home/u/proj/tmp6306493182.smx".to_string())
    );
    assert_eq!(include_dir_of("file:///home/u/proj/a.sp"), Some("/home/u/proj/include".to_string()));
    assert_eq!(get_out_path("not a url"), None);
    assert_eq!(get_out_path("http://example.com/a.sp"), None);
}

#[test]
fn build_args_lists_the_command_line() {
    let s = store();
    let args = s.build_args("file:///home/u/proj/a.sp", true).unwrap();
    assert_eq!(
        args,
        vec![
            "/usr/bin/spcomp",
            "/home/u/proj/a.sp",
            "-i/inc",
            "-i/opt/sm/include",
            "-i/home/u/proj",
            "-i/home/u/proj/include",
            "-o/home/u/proj/tmp6306493182.smx",
        ]
    );
    let args = s.build_args("file:///home/u/proj/a.sp", false).unwrap();
    assert_eq!(args.len(), 6);
    assert_eq!(args[5], "-o/home/u/proj/tmp6306493182.smx");
    assert_eq!(s.build_args("no url", true), None);
}

#[test]
fn clear_all_diagnostics_keeps_the_documents() {
    let mut s = store();
    s.clear_all_diagnostics();
    assert_eq!(s.documents.len(), 2);
    for d in s.documents.iter() {
        assert!(d.diagnostics.is_empty());
    }
    assert_eq!(s.documents[1].uri, "file:///home/u/proj/b.sp");
    assert_eq!(s.documents[1].text, "text 1");
    assert!(!s.documents[1].parsed);
}

#[test]
fn get_cloned_finds_the_document() {
    let s = store();
    let d = s.get_cloned(FileId(1)).unwrap();
    assert_eq!(d.uri, "file:///home/u/proj/b.sp");
    assert_eq!(d.diagnostics.len(), 2);
    assert!(s.get_cloned(FileId(9)).is_none());
}

#[test]
fn spcomp_error_stream_is_an_error() {
    let mut s = store();
    let r = s.get_spcomp_diagnostics(b"/p/a.sp(1) : error 001: one\n", b"boom");
    match r {
        Err(LinterError::SpcompFailed(m)) => {
            assert_eq!(m, "Failed to run spcomp with error: boom")
        },
        _ => panic!("expected a failure"),
    }
    assert!(s.documents.iter().all(|d| d.diagnostics.is_empty()));
}

#[test]
fn spcomp_output_is_grouped_by_file() {
    let mut s = store();
    let r = s.get_spcomp_diagnostics(
        b"/p/a.sp(1) : error 001: one\n/p/b.sp(5) : warning 002: two\n",
        b"",
    );
    let groups = match r {
        Ok(g) => g,
        Err(_) => panic!("expected diagnostics"),
    };
    assert_eq!(groups.len(), 2);
    assert_eq!(groups[1].1[0].line_index, 4);
    assert!(s.documents.iter().all(|d| d.diagnostics.is_empty()));
    assert!(matches!(
        s.get_spcomp_diagnostics(b"/p/a.sp(0) : error 001: one\n", b""),
        Err(LinterError::MalformedOutput)
    ));
}

#[test]
fn invalid_utf8_on_the_error_stream_is_replaced() {
    let mut s = store();
    match s.get_spcomp_diagnostics(b"", &[0xff]) {
        Err(LinterError::SpcompFailed(m)) => {
            assert_eq!(m, "Failed to run spcomp with error: \u{fffd}")
        },
        _ => panic!("expected a failure"),
    }
}

fn groups(path: &str, line: &str, kind: &str, message: &str) -> Vec<Option<String>> {
    vec![
        Some(format!("{}({}) : {} 001: {}", path, line, kind, message)),
        Some(path.to_string()),
        Some(line.to_string()),
        Some(format!("{} 001", kind)),
        Some(kind.to_string()),
        Some("001".to_string()),
        Some(message.to_string()),
    ]
}

#[test]
fn diagnostics_from_captured_groups() {
    let d = diagnostic_from_captures(&groups("/a/b.sp", "7", "warning", "unused")).unwrap();
    assert_eq!(d.uri, "file:///a/b.sp");
    assert_eq!(d.line_index, 6);
    assert_eq!(d.severity, SPCompSeverity::Warning);
    assert_eq!(d.message, "unused");
    assert!(diagnostic_from_captures(&groups("/a/b.sp", "7", "note", "x")).is_none());
    assert!(diagnostic_from_captures(&groups("/a/b.sp", "x7", "error", "x")).is_none());
    assert!(diagnostic_from_captures(&groups("/a/b.sp", "0", "error", "x")).is_none());
    let mut missing = groups("/a/b.sp", "7", "error", "x");
    missing[6] = None;
    assert!(diagnostic_from_captures(&missing).is_none());
    assert!(diagnostic_from_captures(&vec![None, None]).is_none());
    let all = diagnostics_from_captures(&vec![
        groups("/a/b.sp", "1", "error", "one"),
        groups("/a/c.sp", "2", "fatal error", "two"),
    ])
    .unwrap();
    assert_eq!(all.len(), 2);
    assert_eq!(all[1].severity, SPCompSeverity::FatalError);
    assert!(diagnostics_from_captures(&vec![
        groups("/a/b.sp", "1", "error", "one"),
        groups("b.sp", "2", "error", "two"),
    ])
    .is_none());
    assert_eq!(diagnostics_from_captures(&vec![]).unwrap().len(), 0);
}

#[test]
fn compile_args_from_paths() {
    let s = store();
    let args = s.compile_args("/p/a.sp".to_string(), "/p", None, "/p/out.smx");
    assert_eq!(args, vec!["/usr/bin/spcomp", "/p/a.sp", "-i/inc", "-i/opt/sm/include", "-i/p", "-o/p/out.smx"]);
    let args = s.compile_args("/p/a.sp".to_string(), "/p", Some("/p/include".to_string()), "/p/out.smx");
    assert_eq!(args[5], "-i/p/include");
    assert_eq!(args.len(), 7);
}

#[test]
fn read_spcomp_output_from_text() {
    let mut s = store();
    assert!(matches!(
        s.read_spcomp_output("", "error: no input"),
        Err(LinterError::SpcompFailed(m)) if m == "Failed to run spcomp with error: error: no input"
    ));
    assert!(s.documents.iter().all(|d| d.diagnostics.is_empty()));
    match s.read_spcomp_output("/p/a.sp(2) : warning 204: unused\n", "") {
        Ok(groups) => {
            assert_eq!(groups.len(), 1);
            assert_eq!(groups[0].0, "file:///p/a.sp");
            assert_eq!(groups[0].1[0].line_index, 1);
        },
        Err(_) => panic!("expected diagnostics"),
    }
}
