use xcraft::destination::Destination;
use xcraft::error::XcraftError;
use xcraft::workspace::Workspace;
use xcraft::xcodebuild::{
    build, clean, get_build_settings, get_launch_info, launch_settings_query, setting, symroot,
    BuildOptions, BuildSettingsEntry,
};

fn entry(pairs: &[(&str, &str)]) -> BuildSettingsEntry {
    BuildSettingsEntry {
        build_settings: pairs.iter().map(|(k, v)| (k.to_string(), v.to_string())).collect(),
    }
}

#[test]
fn setting_lookup() {
    let e = entry(&[("A", "1"), ("B", "2")]);
    assert_eq!(setting(&e, "B").as_deref(), Some("2"));
    assert_eq!(setting(&e, "C"), None);
}

#[test]
fn build_settings_command_for_xcode() {
    let ws = Workspace::new("/w/App.xcworkspace".into());
    let cmd = get_build_settings(&ws, "App", "Debug", Some("iphonesimulator"), Some("platform=iOS,id=1"), Some("/dd"));
    assert_eq!(cmd.program, "xcodebuild");
    assert_eq!(
        cmd.args,
        vec![
            "-showBuildSettings", "-scheme", "App", "-configuration", "Debug", "-sdk", "iphonesimulator",
            "-destination", "platform=iOS,id=1", "-derivedDataPath", "/dd", "-workspace", "/w/App.xcworkspace", "-json",
        ]
    );
    assert!(cmd.current_dir.is_none());
}

#[test]
fn build_settings_command_for_spm() {
    let ws = Workspace::new("/w/pkg/Package.swift".into());
    let cmd = get_build_settings(&ws, "Tool", "Release", None, None, None);
    assert_eq!(cmd.args, vec!["-showBuildSettings", "-scheme", "Tool", "-configuration", "Release", "-json"]);
    assert_eq!(cmd.current_dir.as_deref(), Some("/w/pkg"));
}

#[test]
fn launch_settings_query_names_destination() {
    let ws = Workspace::new("/w/App.xcworkspace".into());
    let dest = Destination::Simulator { udid: "S1".into(), name: "".into(), os: "".into(), state: None };
    let cmd = launch_settings_query(&ws, "App", "Debug", &dest, None);
    assert_eq!(
        cmd.args,
        vec![
            "-showBuildSettings", "-scheme", "App", "-configuration", "Debug", "-destination",
            "platform=iOS Simulator,id=S1", "-workspace", "/w/App.xcworkspace", "-json",
        ]
    );
}

#[test]
fn launch_info_from_settings() {
    let entries = vec![
        entry(&[
            ("TARGET_BUILD_DIR", "/build/Debug-iphonesimulator"),
            ("PRODUCT_BUNDLE_IDENTIFIER", "com.example.App"),
            ("WRAPPER_NAME", "App.app"),
            ("FULL_PRODUCT_NAME", "Other.app"),
            ("EXECUTABLE_PATH", "App.app/App"),
        ]),
        entry(&[("TARGET_BUILD_DIR", "/ignored")]),
    ];
    let info = get_launch_info(&entries).unwrap();
    assert_eq!(info.app_path, "/build/Debug-iphonesimulator/App.app");
    assert_eq!(info.executable_path.as_deref(), Some("/build/Debug-iphonesimulator/App.app/App"));
    assert_eq!(info.bundle_id, "com.example.App");
}

#[test]
fn app_name_fallbacks() {
    let e = vec![entry(&[
        ("TARGET_BUILD_DIR", "/b/"),
        ("PRODUCT_BUNDLE_IDENTIFIER", "id"),
        ("FULL_PRODUCT_NAME", "Full.app"),
    ])];
    let info = get_launch_info(&e).unwrap();
    assert_eq!(info.app_path, "/b/Full.app");
    assert!(info.executable_path.is_none());
    let e = vec![entry(&[("TARGET_BUILD_DIR", "/b"), ("PRODUCT_BUNDLE_IDENTIFIER", "id"), ("PRODUCT_NAME", "Prod")])];
    assert_eq!(get_launch_info(&e).unwrap().app_path, "/b/Prod.app");
    let e = vec![entry(&[("TARGET_BUILD_DIR", "/b"), ("PRODUCT_BUNDLE_IDENTIFIER", "id"), ("EXECUTABLE_PATH", "/abs/exe")])];
    assert_eq!(get_launch_info(&e).err(), Some(XcraftError::NoAppName));
}

#[test]
fn launch_info_errors() {
    assert_eq!(get_launch_info(&vec![]).err(), Some(XcraftError::NoBuildSettings));
    let e = vec![entry(&[("PRODUCT_BUNDLE_IDENTIFIER", "id")])];
    assert_eq!(
        get_launch_info(&e).err(),
        Some(XcraftError::MissingBuildSetting { key: "TARGET_BUILD_DIR".into() })
    );
    let e = vec![entry(&[("TARGET_BUILD_DIR", "/b"), ("WRAPPER_NAME", "A.app")])];
    assert_eq!(
        get_launch_info(&e).err(),
        Some(XcraftError::MissingBuildSetting { key: "PRODUCT_BUNDLE_IDENTIFIER".into() })
    );
}

#[test]
fn symroot_lookup() {
    assert_eq!(symroot(&vec![entry(&[("SYMROOT", "/dd/Build/Products")])]).unwrap(), "/dd/Build/Products");
    assert_eq!(symroot(&vec![]), Err(XcraftError::NoBuildSettings));
    assert_eq!(
        symroot(&vec![entry(&[("OTHER", "x")])]),
        Err(XcraftError::MissingBuildSetting { key: "SYMROOT".into() })
    );
}

#[test]
fn build_arguments_split_settings_and_flags() {
    let ws = Workspace::new("/w/App.xcworkspace".into());
    let extra: Vec<String> = ["CODE_SIGNING_ALLOWED=NO", "-quiet", "build", "-jobs=4", "plain", "A=B=C"]
        .iter()
        .map(|s| s.to_string())
        .collect();
    let env = vec![("K".to_string(), "V".to_string())];
    let opts = BuildOptions {
        ws: &ws,
        scheme: "App",
        configuration: "Debug",
        destination_raw: "platform=macOS,arch=arm64",
        derived_data: Some("/dd"),
        allow_provisioning_updates: true,
        xcbeautify: Some(false),
        extra_args: &extra,
        extra_env: &env,
    };
    let inv = build(&opts);
    assert_eq!(inv.command.program, "xcodebuild");
    assert_eq!(
        inv.command.args,
        vec![
            "CODE_SIGNING_ALLOWED=NO", "A=B=C", "-scheme", "App", "-configuration", "Debug", "-destination",
            "platform=macOS,arch=arm64", "-derivedDataPath", "/dd", "-allowProvisioningUpdates", "-workspace",
            "/w/App.xcworkspace", "build", "-quiet", "-jobs=4", "plain",
        ]
    );
    assert_eq!(inv.command.env, env);
    assert!(inv.command.current_dir.is_none());
    assert_eq!(inv.xcbeautify, Some(false));
}

#[test]
fn build_arguments_for_spm() {
    let ws = Workspace::new("/w/pkg/Package.swift".into());
    let opts = BuildOptions {
        ws: &ws,
        scheme: "Tool",
        configuration: "Release",
        destination_raw: "platform=macOS,arch=x86_64",
        derived_data: None,
        allow_provisioning_updates: false,
        xcbeautify: None,
        extra_args: &[],
        extra_env: &[],
    };
    let inv = build(&opts);
    assert_eq!(
        inv.command.args,
        vec!["-scheme", "Tool", "-configuration", "Release", "-destination", "platform=macOS,arch=x86_64", "build"]
    );
    assert_eq!(inv.command.current_dir.as_deref(), Some("/w/pkg"));
    assert_eq!(inv.xcbeautify, None);
}

#[test]
fn clean_arguments() {
    let ws = Workspace::new("/w/App.xcworkspace".into());
    let inv = clean(&ws, "App", "Debug", "platform=iOS,id=1", Some("/dd"), Some(true));
    assert_eq!(
        inv.command.args,
        vec![
            "-scheme", "App", "-configuration", "Debug", "-destination", "platform=iOS,id=1",
            "-derivedDataPath", "/dd", "-workspace", "/w/App.xcworkspace", "clean",
        ]
    );
    assert_eq!(inv.xcbeautify, Some(true));
    let spm = Workspace::new("/p/Package.swift".into());
    let inv = clean(&spm, "S", "Release", "d", None, None);
    assert_eq!(inv.command.args, vec!["-scheme", "S", "-configuration", "Release", "-destination", "d", "clean"]);
    assert_eq!(inv.command.current_dir.as_deref(), Some("/p"));
}
