use shadertui::shader_import::{
    process_imports, DependencyTracker, FileRecord, FileSet, ImportError, MAX_IMPORT_DEPTH,
};

fn record(path: &str, content: &str) -> FileRecord {
    FileRecord { path: path.to_string(), canon: path.to_string(), content: content.to_string() }
}

#[test]
fn passthrough_without_directives() {
    let files = FileSet { files: Vec::new() };
    let (flat, deps) = process_imports("/p/main.wgsl", "line one\nline two", &files).unwrap();
    assert_eq!(flat, "line one\nline two");
    assert_eq!(deps.all_files, vec!["/p/main.wgsl".to_string()]);
    assert!(deps.dependencies.is_empty());
}

#[test]
fn single_import_spliced_in_place() {
    let files = FileSet { files: vec![record("/p/util.wgsl", "fn helper() { }")] };
    let source = "// @import \"util.wgsl\"\nfn main_body() { }";
    let (flat, deps) = process_imports("/p/main.wgsl", source, &files).unwrap();
    assert_eq!(flat, "fn helper() { }\nfn main_body() { }");
    assert_eq!(deps.dependencies.len(), 1);
    assert_eq!(deps.dependencies[0].from, "/p/main.wgsl");
    assert_eq!(deps.dependencies[0].imports, vec!["/p/util.wgsl".to_string()]);
    assert_eq!(
        deps.all_files,
        vec!["/p/util.wgsl".to_string(), "/p/main.wgsl".to_string()]
    );
}

#[test]
fn cycle_is_reported_with_full_chain() {
    let files = FileSet {
        files: vec![
            record("/p/a.wgsl", "// @import \"b.wgsl\""),
            record("/p/b.wgsl", "// @import \"a.wgsl\""),
        ],
    };
    let result = process_imports("/p/a.wgsl", "// @import \"b.wgsl\"", &files);
    match result {
        Err(ImportError::CircularDependency { chain }) => {
            assert_eq!(
                chain,
                vec![
                    "/p/a.wgsl".to_string(),
                    "/p/b.wgsl".to_string(),
                    "/p/a.wgsl".to_string()
                ]
            );
        }
        other => panic!("expected a cycle error, got {:?}", other.is_ok()),
    }
}

#[test]
fn diamond_splices_shared_file_once_at_first_reference() {
    let files = FileSet {
        files: vec![
            record("/p/a.wgsl", "// @import \"s.wgsl\"\nA"),
            record("/p/b.wgsl", "// @import \"s.wgsl\"\nB"),
            record("/p/s.wgsl", "S"),
        ],
    };
    let entry = "// @import \"a.wgsl\"\n// @import \"b.wgsl\"";
    let (flat, deps) = process_imports("/p/e.wgsl", entry, &files).unwrap();
    assert_eq!(flat, "S\nA\nB");
    assert_eq!(flat.matches('S').count(), 1);
    // Both importers still record their edge to the shared file.
    let a_entry = deps
        .dependencies
        .iter()
        .find(|d| d.from == "/p/a.wgsl")
        .unwrap();
    assert_eq!(a_entry.imports, vec!["/p/s.wgsl".to_string()]);
    let b_entry = deps
        .dependencies
        .iter()
        .find(|d| d.from == "/p/b.wgsl")
        .unwrap();
    assert_eq!(b_entry.imports, vec!["/p/s.wgsl".to_string()]);
}

#[test]
fn chain_deeper_than_limit_fails_with_recursion_limit() {
    let mut files = Vec::new();
    for i in 1..=MAX_IMPORT_DEPTH + 1 {
        let path = format!("/p/f{}.wgsl", i);
        let content = if i < MAX_IMPORT_DEPTH + 1 {
            format!("// @import \"f{}.wgsl\"", i + 1)
        } else {
            String::new()
        };
        files.push(FileRecord { path: path.clone(), canon: path, content });
    }
    let files = FileSet { files };
    let result = process_imports("/p/f0.wgsl", "// @import \"f1.wgsl\"", &files);
    match result {
        Err(ImportError::RecursionLimit { depth }) => {
            assert_eq!(depth, MAX_IMPORT_DEPTH + 1);
        }
        other => panic!("expected a recursion-limit error, got {:?}", other.is_ok()),
    }
}

#[test]
fn missing_file_names_the_importer() {
    let files = FileSet { files: Vec::new() };
    let result = process_imports("/p/main.wgsl", "// @import \"gone.wgsl\"", &files);
    match result {
        Err(ImportError::FileNotFound { path, import_location }) => {
            assert_eq!(path, "/p/gone.wgsl");
            assert_eq!(import_location, "/p/main.wgsl");
        }
        other => panic!("expected a missing-file error, got {:?}", other.is_ok()),
    }
}

#[test]
fn import_error_messages() {
    let e = ImportError::FileNotFound {
        path: "/p/x.wgsl".to_string(),
        import_location: "/p/main.wgsl".to_string(),
    };
    assert_eq!(
        e.message(),
        "Import file not found: '/p/x.wgsl' (imported from /p/main.wgsl)"
    );
    let e = ImportError::IoError {
        path: "/p/x.wgsl".to_string(),
        message: "permission denied".to_string(),
    };
    assert_eq!(
        e.message(),
        "Error reading import file '/p/x.wgsl': permission denied"
    );
    let e = ImportError::RecursionLimit { depth: 33 };
    assert_eq!(
        e.message(),
        "Import recursion limit exceeded (depth: 33). Check for circular dependencies."
    );
    let e = ImportError::CircularDependency {
        chain: vec!["a".to_string(), "b".to_string(), "a".to_string()],
    };
    assert_eq!(e.message(), "Circular dependency detected: a -> b -> a");
}

#[test]
fn tracker_enter_exit_and_dependencies() {
    let mut t = DependencyTracker::new();
    assert!(t.enter_file("/p/a.wgsl".to_string()).is_ok());
    assert!(t.enter_file("/p/b.wgsl".to_string()).is_ok());
    match t.enter_file("/p/a.wgsl".to_string()) {
        Err(ImportError::CircularDependency { chain }) => {
            assert_eq!(chain, vec!["/p/a.wgsl", "/p/b.wgsl", "/p/a.wgsl"]);
        }
        _ => panic!("expected a cycle"),
    }
    t.add_dependency(&"/p/a.wgsl".to_string(), &"/p/b.wgsl".to_string());
    t.add_dependency(&"/p/a.wgsl".to_string(), &"/p/c.wgsl".to_string());
    t.exit_file();
    t.exit_file();
    let info = t.get_dependency_info();
    assert_eq!(info.all_files, vec!["/p/b.wgsl".to_string(), "/p/a.wgsl".to_string()]);
    assert_eq!(info.dependencies.len(), 1);
    assert_eq!(info.dependencies[0].from, "/p/a.wgsl");
    assert_eq!(
        info.dependencies[0].imports,
        vec!["/p/b.wgsl".to_string(), "/p/c.wgsl".to_string()]
    );
}

#[test]
fn directive_must_quote_a_nonempty_path() {
    let files = FileSet { files: Vec::new() };
    // An empty quoted path is not a directive; the line passes through.
    let (flat, _) = process_imports("/p/m.wgsl", "// @import \"\"", &files).unwrap();
    assert_eq!(flat, "// @import \"\"");
}
