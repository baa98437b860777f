use xcraft::error::XcraftError;
use xcraft::scheme::{
    list_configurations, list_schemes, resolve_configuration, resolve_scheme, spm_schemes,
    xcode_configurations, xcode_schemes, ConfigInner, ConfigList, ConfigQuery, SchemeList,
    SchemeQuery, SpmPackage, SpmProduct, SpmTarget,
};
use xcraft::select::Resolution;
use xcraft::workspace::Workspace;

fn strings(v: &[&str]) -> Vec<String> {
    v.iter().map(|s| s.to_string()).collect()
}

fn product(name: &str, keys: Option<&[&str]>) -> SpmProduct {
    SpmProduct { name: name.to_string(), type_keys: keys.map(strings) }
}

fn target(name: &str, kind: Option<&str>) -> SpmTarget {
    SpmTarget { name: name.to_string(), target_type: kind.map(|k| k.to_string()) }
}

#[test]
fn spm_products_then_executable_targets() {
    let pkg = SpmPackage {
        name: "Pkg".into(),
        products: vec![
            product("CLI", Some(&["executable"])),
            product("Lib", Some(&["library"])),
            product("Plugin", Some(&["plugin"])),
            product("Odd", None),
        ],
        targets: vec![
            target("CLI", Some("executable")),
            target("Tool", Some("executable")),
            target("LibCore", Some("regular")),
            target("Tests", Some("test")),
            target("NoType", None),
        ],
    };
    assert_eq!(spm_schemes(&pkg), vec!["CLI", "Lib", "Tool"]);
}

#[test]
fn spm_falls_back_to_package_name() {
    let pkg = SpmPackage { name: "Empty".into(), products: vec![product("P", Some(&["plugin"]))], targets: vec![] };
    assert_eq!(spm_schemes(&pkg), vec!["Empty"]);
}

#[test]
fn spm_duplicate_products_are_kept() {
    let pkg = SpmPackage {
        name: "X".into(),
        products: vec![product("A", Some(&["library"])), product("A", Some(&["executable", "library"]))],
        targets: vec![target("A", Some("executable")), target("B", Some("executable")), target("B", Some("executable"))],
    };
    assert_eq!(spm_schemes(&pkg), vec!["A", "A", "B"]);
}

#[test]
fn xcode_scheme_lists() {
    let l = SchemeList { workspace: Some(strings(&["App", "AppTests"])), project: Some(strings(&["Proj"])) };
    assert_eq!(xcode_schemes(l).unwrap(), vec!["App", "AppTests"]);
    let l = SchemeList { workspace: None, project: Some(strings(&["Proj"])) };
    assert_eq!(xcode_schemes(l).unwrap(), vec!["Proj"]);
    let l = SchemeList { workspace: Some(vec![]), project: Some(strings(&["Proj"])) };
    assert_eq!(xcode_schemes(l), Err(XcraftError::NoSchemesInWorkspace));
    let l = SchemeList { workspace: None, project: None };
    assert_eq!(xcode_schemes(l), Err(XcraftError::NoSchemesInWorkspace));
}

#[test]
fn xcode_configuration_lists() {
    let l = ConfigList {
        workspace: Some(ConfigInner { configurations: Some(strings(&["Debug", "Beta", "Release"])) }),
        project: None,
    };
    assert_eq!(xcode_configurations(l), vec!["Debug", "Beta", "Release"]);
    let l = ConfigList {
        workspace: Some(ConfigInner { configurations: None }),
        project: Some(ConfigInner { configurations: Some(strings(&["Staging"])) }),
    };
    assert_eq!(xcode_configurations(l), vec!["Debug", "Release"]);
    let l = ConfigList { workspace: None, project: Some(ConfigInner { configurations: Some(strings(&["Staging"])) }) };
    assert_eq!(xcode_configurations(l), vec!["Staging"]);
    let l = ConfigList { workspace: None, project: None };
    assert_eq!(xcode_configurations(l), vec!["Debug", "Release"]);
}

#[test]
fn scheme_queries() {
    match list_schemes(&Workspace::new("/w/pkg/Package.swift".into())) {
        SchemeQuery::Spm(cmd) => {
            assert_eq!(cmd.program, "swift");
            assert_eq!(cmd.args, vec!["package", "dump-package"]);
            assert_eq!(cmd.current_dir.as_deref(), Some("/w/pkg"));
        }
        _ => panic!(),
    }
    match list_schemes(&Workspace::new("/w/App.xcworkspace".into())) {
        SchemeQuery::Xcode(cmd) => {
            assert_eq!(cmd.program, "xcodebuild");
            assert_eq!(cmd.args, vec!["-list", "-json", "-workspace", "/w/App.xcworkspace"]);
            assert!(cmd.current_dir.is_none());
        }
        _ => panic!(),
    }
}

#[test]
fn configuration_queries() {
    match list_configurations(&Workspace::new("/w/Package.swift".into())) {
        ConfigQuery::Known(c) => assert_eq!(c, vec!["Debug", "Release"]),
        _ => panic!(),
    }
    match list_configurations(&Workspace::new("/w/App.xcworkspace".into())) {
        ConfigQuery::Xcode(cmd) => assert_eq!(cmd.args, vec!["-list", "-json", "-workspace", "/w/App.xcworkspace"]),
        _ => panic!(),
    }
}

#[test]
fn resolve_scheme_cases() {
    match resolve_scheme(Some("Given"), None, None) {
        Resolution::Chosen(s) => assert_eq!(s, "Given"),
        _ => panic!(),
    }
    assert!(matches!(resolve_scheme(None, None, None), Resolution::NeedCandidates));
    assert!(matches!(resolve_scheme(None, None, Some(vec![])), Resolution::Failed(XcraftError::NoSchemes)));
    match resolve_scheme(None, Some("Other"), Some(strings(&["Only"]))) {
        Resolution::Chosen(s) => assert_eq!(s, "Only"),
        _ => panic!(),
    }
    match resolve_scheme(None, Some("B"), Some(strings(&["A", "B", "B"]))) {
        Resolution::Ask(p) => {
            assert_eq!(p.default_index, 1);
            assert_eq!(p.labels, vec!["A", "B", "B"]);
        }
        _ => panic!(),
    }
    match resolve_scheme(None, Some("Z"), Some(strings(&["A", "B"]))) {
        Resolution::Ask(p) => assert_eq!(p.default_index, 0),
        _ => panic!(),
    }
}

#[test]
fn configuration_defaults_to_debug_for_the_standard_pair() {
    match resolve_configuration(None, None, Some(strings(&["Release", "Debug"]))) {
        Resolution::Chosen(c) => assert_eq!(c, "Debug"),
        _ => panic!(),
    }
    // With a default, the user is asked, starting at the default.
    match resolve_configuration(None, Some("Release"), Some(strings(&["Debug", "Release"]))) {
        Resolution::Ask(p) => assert_eq!(p.default_index, 1),
        _ => panic!(),
    }
    match resolve_configuration(Some("Beta"), None, None) {
        Resolution::Chosen(c) => assert_eq!(c, "Beta"),
        _ => panic!(),
    }
    match resolve_configuration(None, None, Some(strings(&["Staging"]))) {
        Resolution::Chosen(c) => assert_eq!(c, "Staging"),
        _ => panic!(),
    }
    match resolve_configuration(None, None, Some(strings(&["Debug", "Beta", "Release"]))) {
        Resolution::Ask(p) => assert_eq!(p.items.len(), 3),
        _ => panic!(),
    }
    match resolve_configuration(None, None, Some(strings(&["Debug", "Debug"]))) {
        Resolution::Ask(p) => assert_eq!(p.default_index, 0),
        _ => panic!(),
    }
    match resolve_configuration(None, None, Some(vec![])) {
        Resolution::Ask(p) => assert!(p.items.is_empty()),
        _ => panic!(),
    }
    assert!(matches!(resolve_configuration(None, None, None), Resolution::NeedCandidates));
}
