use xcraft::error::XcraftError;
use xcraft::select::Resolution;
use xcraft::workspace::{
    detect_type, detect_workspaces, generated_workspace, is_candidate, resolve_workspace, Generation,
    Workspace, WorkspaceType,
};

fn ws(path: &str) -> Workspace {
    Workspace::new(path.to_string())
}

#[test]
fn types_from_file_names() {
    assert_eq!(detect_type("proj/Package.swift"), WorkspaceType::Spm);
    assert_eq!(detect_type("proj/Project.swift"), WorkspaceType::Tuist);
    assert_eq!(detect_type("proj/App.xcworkspace"), WorkspaceType::Xcode);
    assert_eq!(detect_type("Package.swift"), WorkspaceType::Spm);
    assert_eq!(detect_type("proj/Package.swift/"), WorkspaceType::Spm);
    assert_eq!(detect_type("proj/package.swift"), WorkspaceType::Xcode);
    assert_eq!(detect_type(".."), WorkspaceType::Xcode);
    assert_eq!(detect_type(""), WorkspaceType::Xcode);
}

#[test]
fn new_keeps_path() {
    let w = ws("/src/app/Package.swift");
    assert_eq!(w.path, "/src/app/Package.swift");
    assert_eq!(w.ws_type, WorkspaceType::Spm);
}

#[test]
fn working_dirs() {
    assert_eq!(ws("/src/app/Package.swift").working_dir(), "/src/app");
    assert_eq!(ws("proj/App.xcworkspace").working_dir(), "proj");
    assert_eq!(ws("App.xcworkspace").working_dir(), "");
    assert_eq!(ws("/").working_dir(), "/");
}

#[test]
fn names_keys_and_labels() {
    assert_eq!(WorkspaceType::Xcode.name(), "Xcode");
    assert_eq!(WorkspaceType::Spm.name(), "SPM");
    assert_eq!(WorkspaceType::Tuist.name(), "Tuist");
    assert_eq!(WorkspaceType::Xcode.key(), "xcode");
    assert_eq!(WorkspaceType::Spm.key(), "spm");
    assert_eq!(WorkspaceType::Tuist.key(), "tuist");
    assert_eq!(ws("a/Package.swift").label(), "[SPM] a/Package.swift");
    assert_eq!(ws("b/App.xcworkspace").label(), "[Xcode] b/App.xcworkspace");
}

#[test]
fn ensure_generated_for_each_type() {
    match ws("p/App.xcworkspace").ensure_generated() {
        Generation::Ready(w) => {
            assert_eq!(w.path, "p/App.xcworkspace");
            assert_eq!(w.ws_type, WorkspaceType::Xcode);
        }
        _ => panic!(),
    }
    match ws("p/Package.swift").ensure_generated() {
        Generation::Ready(w) => assert_eq!(w.ws_type, WorkspaceType::Spm),
        _ => panic!(),
    }
    match ws("/work/p/Project.swift").ensure_generated() {
        Generation::Generate(cmd) => {
            assert_eq!(cmd.program, "tuist");
            assert_eq!(cmd.args, vec!["generate", "--no-open", "--path", "/work/p"]);
            assert!(cmd.env.is_empty());
            assert!(cmd.current_dir.is_none());
        }
        _ => panic!(),
    }
}

#[test]
fn generated_workspace_is_first_xcworkspace() {
    let entries = vec![
        "/p/Project.swift".to_string(),
        "/p/.xcworkspace".to_string(),
        "/p/App.xcodeproj".to_string(),
        "/p/App.xcworkspace".to_string(),
        "/p/Other.xcworkspace".to_string(),
    ];
    let w = generated_workspace("/p", entries).unwrap();
    assert_eq!(w.path, "/p/App.xcworkspace");
    assert_eq!(w.ws_type, WorkspaceType::Xcode);
    match generated_workspace("/p", vec!["/p/Project.swift".to_string()]) {
        Err(XcraftError::NoGeneratedWorkspace { dir }) => assert_eq!(dir, "/p"),
        _ => panic!(),
    }
}

#[test]
fn candidates() {
    assert!(is_candidate("/r/a/Package.swift"));
    assert!(is_candidate("/r/a/Project.swift"));
    assert!(is_candidate("/r/a/App.xcworkspace"));
    assert!(is_candidate("App.xcworkspace"));
    assert!(!is_candidate("./App.xcworkspace"));
    assert!(is_candidate("./Package.swift"));
    assert!(!is_candidate("/r/a/App.xcodeproj"));
    assert!(!is_candidate("/r/a/Package.swift.bak"));
    assert!(!is_candidate("/r"));
}

#[test]
fn detect_in_walk_order() {
    let found = detect_workspaces(vec![
        "/r".to_string(),
        "/r/Package.swift".to_string(),
        "/r/Sources".to_string(),
        "/r/Demo/Demo.xcworkspace".to_string(),
        "/r/Tool/Project.swift".to_string(),
    ]);
    let paths: Vec<&str> = found.iter().map(|w| w.path.as_str()).collect();
    assert_eq!(paths, vec!["/r/Package.swift", "/r/Demo/Demo.xcworkspace", "/r/Tool/Project.swift"]);
    assert_eq!(found[0].ws_type, WorkspaceType::Spm);
    assert_eq!(found[1].ws_type, WorkspaceType::Xcode);
    assert_eq!(found[2].ws_type, WorkspaceType::Tuist);
}

#[test]
fn resolve_workspace_cases() {
    match resolve_workspace(Some("x/Package.swift"), None, None) {
        Resolution::Chosen(w) => assert_eq!(w.ws_type, WorkspaceType::Spm),
        _ => panic!(),
    }
    assert!(matches!(resolve_workspace(None, None, None), Resolution::NeedCandidates));
    assert!(matches!(
        resolve_workspace(None, None, Some(vec![])),
        Resolution::Failed(XcraftError::NoWorkspaceFound)
    ));
    match resolve_workspace(None, Some("whatever"), Some(vec![ws("only/App.xcworkspace")])) {
        Resolution::Chosen(w) => assert_eq!(w.path, "only/App.xcworkspace"),
        _ => panic!(),
    }
    let many = vec![ws("a/Package.swift"), ws("b/App.xcworkspace"), ws("c/Project.swift")];
    match resolve_workspace(None, Some("b//App.xcworkspace"), Some(many)) {
        Resolution::Ask(p) => {
            assert_eq!(p.default_index, 1);
            assert_eq!(p.labels[2], "[Tuist] c/Project.swift");
            assert_eq!(p.pick(0).path, "a/Package.swift");
        }
        _ => panic!(),
    }
    let many = vec![ws("a/Package.swift"), ws("b/App.xcworkspace")];
    match resolve_workspace(None, None, Some(many)) {
        Resolution::Ask(p) => assert_eq!(p.default_index, 0),
        _ => panic!(),
    }
}
