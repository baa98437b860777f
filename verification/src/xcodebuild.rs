//! `xcodebuild` invocations and what is read from their build settings.
use vstd::prelude::*;

use crate::command::{pair_views, ToolCommand};
use crate::destination::{xcodebuild_destination_spec, Destination};
use crate::error::XcraftError;
use crate::paths::{join, join_spec};
use crate::text::{str_concat, contains_char, opt_str_view, owned, starts_with, str_eq, string_views};
use crate::workspace::{working_dir_spec, Workspace, WorkspaceType};

verus! {

// ---------------------------------------------------------------------------
// Build settings
// ---------------------------------------------------------------------------

/// One target's entry of `xcodebuild -showBuildSettings -json`: its
/// string-valued settings as (key, value) pairs.
pub struct BuildSettingsEntry {
    pub build_settings: Vec<(String, String)>,
}

/// The value of the first setting named `key`, if any.
pub open spec fn lookup(settings: Seq<(String, String)>, key: Seq<char>) -> Option<Seq<char>>
    decreases settings.len(),
{
    if settings.len() == 0 {
        None
    } else if settings[0].0@ == key {
        Some(settings[0].1@)
    } else {
        lookup(settings.drop_first(), key)
    }
}

/// Extract a string build setting value.
pub fn setting(entry: &BuildSettingsEntry, key: &str) -> (r: Option<String>)
    ensures
        match r {
            Some(v) => lookup(entry.build_settings@, key@) == Some(v@),
            None => lookup(entry.build_settings@, key@) is None,
        },
{
    let s = &entry.build_settings;
    let mut i: usize = 0;
    assert(s@.skip(0) =~= s@);
    while i < s.len()
        invariant
            i <= s.len(),
            s@ == entry.build_settings@,
            lookup(s@, key@) == lookup(s@.skip(i as int), key@),
        decreases s.len() - i,
    {
        assert(s@.skip(i as int)[0] == s@[i as int]);
        if str_eq(s[i].0.as_str(), key) {
            let v = s[i].1.clone();
            assert(lookup(s@.skip(i as int), key@) == Some(s@[i as int].1@));
            return Some(v);
        }
        assert(s@.skip(i as int).drop_first() =~= s@.skip(i + 1));
        i = i + 1;
    }
    None
}

/// `flag` and `value` when a value is given, else nothing.
pub open spec fn opt_flag(flag: Seq<char>, value: Option<Seq<char>>) -> Seq<Seq<char>> {
    match value {
        Some(v) => seq![flag, v],
        None => Seq::empty(),
    }
}

/// The arguments of `xcodebuild -showBuildSettings`.
pub open spec fn build_settings_args(
    ws: Workspace,
    scheme: Seq<char>,
    configuration: Seq<char>,
    sdk: Option<Seq<char>>,
    destination_raw: Option<Seq<char>>,
    derived_data: Option<Seq<char>>,
) -> Seq<Seq<char>> {
    seq!["-showBuildSettings"@, "-scheme"@, scheme, "-configuration"@, configuration] + opt_flag(
        "-sdk"@,
        sdk,
    ) + opt_flag("-destination"@, destination_raw) + opt_flag("-derivedDataPath"@, derived_data)
        + (if ws.ws_type == WorkspaceType::Xcode {
        seq!["-workspace"@, ws.path@]
    } else {
        Seq::empty()
    }) + seq!["-json"@]
}

/// Appends `flag` and `value` when a value is given.
fn push_opt_flag(args: &mut Vec<String>, flag: &str, value: Option<&str>)
    ensures
        string_views(final(args)@) == string_views(old(args)@) + opt_flag(flag@, opt_str_view(value)),
{
    if let Some(v) = value {
        let ghost before = args@;
        args.push(owned(flag));
        args.push(owned(v));
        assert(string_views(args@) =~= string_views(before) + seq![flag@, v@]);
    } else {
        assert(string_views(args@) =~= string_views(args@) + Seq::<Seq<char>>::empty());
    }
}

/// Appends `value`.
fn push_str(args: &mut Vec<String>, value: &str)
    ensures
        string_views(final(args)@) == string_views(old(args)@).push(value@),
{
    let ghost before = args@;
    args.push(owned(value));
    assert(string_views(args@) =~= string_views(before).push(value@));
}

/// The `xcodebuild -showBuildSettings -json` run for the given scheme,
/// configuration and sdk; it runs in the working directory unless the
/// workspace is an Xcode workspace, which is named instead.
pub fn get_build_settings(
    ws: &Workspace,
    scheme: &str,
    configuration: &str,
    sdk: Option<&str>,
    destination_raw: Option<&str>,
    derived_data: Option<&str>,
) -> (r: ToolCommand)
    ensures
        r.program@ == "xcodebuild"@,
        string_views(r.args@) == build_settings_args(
            *ws,
            scheme@,
            configuration@,
            opt_str_view(sdk),
            opt_str_view(destination_raw),
            opt_str_view(derived_data),
        ),
        r.env@.len() == 0,
        ws.ws_type == WorkspaceType::Xcode ==> r.current_dir is None,
        ws.ws_type != WorkspaceType::Xcode ==> (r.current_dir matches Some(d) && d@
            == working_dir_spec(ws.path@)),
{
    let mut args: Vec<String> = Vec::new();
    push_str(&mut args, "-showBuildSettings");
    push_str(&mut args, "-scheme");
    push_str(&mut args, scheme);
    push_str(&mut args, "-configuration");
    push_str(&mut args, configuration);
    assert(string_views(args@) =~= seq![
        "-showBuildSettings"@,
        "-scheme"@,
        scheme@,
        "-configuration"@,
        configuration@,
    ]);
    push_opt_flag(&mut args, "-sdk", sdk);
    push_opt_flag(&mut args, "-destination", destination_raw);
    push_opt_flag(&mut args, "-derivedDataPath", derived_data);
    let ghost before = string_views(args@);
    let current_dir = if ws.ws_type == WorkspaceType::Xcode {
        push_str(&mut args, "-workspace");
        push_str(&mut args, ws.path.as_str());
        assert(string_views(args@) =~= before + seq!["-workspace"@, ws.path@]);
        None
    } else {
        assert(string_views(args@) =~= before + Seq::<Seq<char>>::empty());
        Some(ws.working_dir())
    };
    let ghost mid = string_views(args@);
    push_str(&mut args, "-json");
    assert(string_views(args@) =~= mid + seq!["-json"@]);
    ToolCommand { program: owned("xcodebuild"), args, env: Vec::new(), current_dir }
}

/// Resolved paths and identifiers needed for launching.
pub struct LaunchInfo {
    pub app_path: String,
    pub executable_path: Option<String>,
    pub bundle_id: String,
}

/// The name of the app bundle: `WRAPPER_NAME`, else `FULL_PRODUCT_NAME`,
/// else `PRODUCT_NAME` with `.app` appended.
pub open spec fn app_name_spec(settings: Seq<(String, String)>) -> Option<Seq<char>> {
    match lookup(settings, "WRAPPER_NAME"@) {
        Some(n) => Some(n),
        None => match lookup(settings, "FULL_PRODUCT_NAME"@) {
            Some(n) => Some(n),
            None => match lookup(settings, "PRODUCT_NAME"@) {
                Some(n) => Some(n + ".app"@),
                None => None,
            },
        },
    }
}

/// The `xcodebuild -showBuildSettings` run whose first entry describes the
/// app to launch on `dest`.
pub fn launch_settings_query(
    ws: &Workspace,
    scheme: &str,
    configuration: &str,
    dest: &Destination,
    derived_data: Option<&str>,
) -> (r: ToolCommand)
    ensures
        r.program@ == "xcodebuild"@,
        string_views(r.args@) == build_settings_args(
            *ws,
            scheme@,
            configuration@,
            None,
            Some(xcodebuild_destination_spec(dest@)),
            opt_str_view(derived_data),
        ),
        r.env@.len() == 0,
        ws.ws_type == WorkspaceType::Xcode ==> r.current_dir is None,
        ws.ws_type != WorkspaceType::Xcode ==> (r.current_dir matches Some(d) && d@
            == working_dir_spec(ws.path@)),
{
    let dest_str = dest.xcodebuild_destination_string();
    let r = get_build_settings(
        ws,
        scheme,
        configuration,
        None,
        Some(dest_str.as_str()),
        derived_data,
    );
    r
}

/// The launch info in the first entry of the build settings: the app bundle
/// under `TARGET_BUILD_DIR`, the executable at `EXECUTABLE_PATH` under it (if
/// set), and `PRODUCT_BUNDLE_IDENTIFIER`.
pub fn get_launch_info(entries: &Vec<BuildSettingsEntry>) -> (r: Result<LaunchInfo, XcraftError>)
    ensures
        entries.len() == 0 ==> r == Err::<LaunchInfo, XcraftError>(XcraftError::NoBuildSettings),
        entries.len() > 0 ==> {
            let s = entries@[0].build_settings@;
            match (
                lookup(s, "TARGET_BUILD_DIR"@),
                lookup(s, "PRODUCT_BUNDLE_IDENTIFIER"@),
                app_name_spec(s),
            ) {
                (None, _, _) => r matches Err(XcraftError::MissingBuildSetting { key: k }) && k@
                    == "TARGET_BUILD_DIR"@,
                (Some(_), None, _) => r matches Err(XcraftError::MissingBuildSetting { key: k })
                    && k@ == "PRODUCT_BUNDLE_IDENTIFIER"@,
                (Some(_), Some(_), None) => r == Err::<LaunchInfo, XcraftError>(
                    XcraftError::NoAppName,
                ),
                (Some(dir), Some(id), Some(name)) => r matches Ok(info) && {
                    &&& info.app_path@ == join_spec(dir, name)
                    &&& info.bundle_id@ == id
                    &&& match lookup(s, "EXECUTABLE_PATH"@) {
                        Some(e) => info.executable_path matches Some(p) && p@ == join_spec(dir, e),
                        None => info.executable_path is None,
                    }
                },
            }
        },
{
    if entries.len() == 0 {
        return Err(XcraftError::NoBuildSettings);
    }
    let entry = &entries[0];
    let target_build_dir = match setting(entry, "TARGET_BUILD_DIR") {
        Some(d) => d,
        None => return Err(XcraftError::MissingBuildSetting { key: owned("TARGET_BUILD_DIR") }),
    };
    let bundle_id = match setting(entry, "PRODUCT_BUNDLE_IDENTIFIER") {
        Some(b) => b,
        None => return Err(
            XcraftError::MissingBuildSetting { key: owned("PRODUCT_BUNDLE_IDENTIFIER") },
        ),
    };
    // App path: TARGET_BUILD_DIR / (WRAPPER_NAME or FULL_PRODUCT_NAME or PRODUCT_NAME.app)
    let app_name = match setting(entry, "WRAPPER_NAME") {
        Some(n) => n,
        None => match setting(entry, "FULL_PRODUCT_NAME") {
            Some(n) => n,
            None => match setting(entry, "PRODUCT_NAME") {
                Some(n) => str_concat(n.as_str(), ".app"),
                None => return Err(XcraftError::NoAppName),
            },
        },
    };
    let app_path = join(target_build_dir.as_str(), app_name.as_str());
    // Executable path (for macOS): TARGET_BUILD_DIR / EXECUTABLE_PATH
    let executable_path = match setting(entry, "EXECUTABLE_PATH") {
        Some(ep) => Some(join(target_build_dir.as_str(), ep.as_str())),
        None => None,
    };
    Ok(LaunchInfo { app_path, executable_path, bundle_id })
}

/// `SYMROOT` in the first entry of the build settings.
pub fn symroot(entries: &Vec<BuildSettingsEntry>) -> (r: Result<String, XcraftError>)
    ensures
        entries.len() == 0 ==> r == Err::<String, XcraftError>(XcraftError::NoBuildSettings),
        entries.len() > 0 ==> match lookup(entries@[0].build_settings@, "SYMROOT"@) {
            Some(v) => r matches Ok(s) && s@ == v,
            None => r matches Err(XcraftError::MissingBuildSetting { key: k }) && k@
                == "SYMROOT"@,
        },
{
    if entries.len() == 0 {
        return Err(XcraftError::NoBuildSettings);
    }
    match setting(&entries[0], "SYMROOT") {
        Some(s) => Ok(s),
        None => Err(XcraftError::MissingBuildSetting { key: owned("SYMROOT") }),
    }
}

// ---------------------------------------------------------------------------
// Build execution
// ---------------------------------------------------------------------------

/// What `build` is asked to do.
pub struct BuildOptions<'a> {
    pub ws: &'a Workspace,
    pub scheme: &'a str,
    pub configuration: &'a str,
    pub destination_raw: &'a str,
    pub derived_data: Option<&'a str>,
    pub allow_provisioning_updates: bool,
    pub xcbeautify: Option<bool>,
    pub extra_args: &'a [String],
    pub extra_env: &'a [(String, String)],
}

/// Whether an extra argument is a build setting (`KEY=VALUE`, not a flag).
pub open spec fn is_build_setting(a: Seq<char>) -> bool {
    a.contains('=') && !"-"@.is_prefix_of(a)
}

/// Whether an extra argument is passed after the `build` action: anything
/// that is not a build setting, except `build` itself.
pub open spec fn is_trailing_flag(a: Seq<char>) -> bool {
    !is_build_setting(a) && a != "build"@
}

/// `is_build_setting` as a predicate.
pub open spec fn setting_pred() -> spec_fn(Seq<char>) -> bool {
    |a: Seq<char>| is_build_setting(a)
}

/// `is_trailing_flag` as a predicate.
pub open spec fn flag_pred() -> spec_fn(Seq<char>) -> bool {
    |a: Seq<char>| is_trailing_flag(a)
}

/// The arguments of `xcodebuild build`: the build settings among the extra
/// arguments, the scheme, configuration and destination, the derived data
/// path, provisioning updates and the workspace as asked, the `build` action,
/// then the remaining extra arguments.
pub open spec fn build_args_spec(
    extra: Seq<Seq<char>>,
    scheme: Seq<char>,
    configuration: Seq<char>,
    destination_raw: Seq<char>,
    derived_data: Option<Seq<char>>,
    allow_provisioning_updates: bool,
    ws: Workspace,
) -> Seq<Seq<char>> {
    extra.filter(setting_pred()) + seq![
        "-scheme"@,
        scheme,
        "-configuration"@,
        configuration,
        "-destination"@,
        destination_raw,
    ] + opt_flag("-derivedDataPath"@, derived_data) + (if allow_provisioning_updates {
        seq!["-allowProvisioningUpdates"@]
    } else {
        Seq::empty()
    }) + (if ws.ws_type == WorkspaceType::Xcode {
        seq!["-workspace"@, ws.path@]
    } else {
        Seq::empty()
    }) + seq!["build"@] + extra.filter(flag_pred())
}

/// An `xcodebuild build` run: the command, and whether to pipe its output
/// through xcbeautify (`None`: when xcbeautify is installed).
pub struct BuildInvocation {
    pub command: ToolCommand,
    pub xcbeautify: Option<bool>,
}

/// Whether `a` is a build setting.
fn build_setting(a: &str) -> (r: bool)
    ensures
        r == is_build_setting(a@),
{
    contains_char(a, '=') && !starts_with(a, "-")
}

/// Appends the extra arguments that satisfy `keep_settings ? is_build_setting
/// : is_trailing_flag`, in order.
fn push_filtered(args: &mut Vec<String>, extra: &[String], keep_settings: bool)
    ensures
        string_views(final(args)@) == string_views(old(args)@) + (if keep_settings {
            string_views(extra@).filter(setting_pred())
        } else {
            string_views(extra@).filter(flag_pred())
        }),
{
    let ghost base = string_views(args@);
    let ghost all = string_views(extra@);
    let ghost pred = if keep_settings {
        setting_pred()
    } else {
        flag_pred()
    };
    let mut i: usize = 0;
    while i < extra.len()
        invariant
            i <= extra.len(),
            all == string_views(extra@),
            pred == (if keep_settings {
                setting_pred()
            } else {
                flag_pred()
            }),
            string_views(args@) == base + all.take(i as int).filter(pred),
        decreases extra.len() - i,
    {
        proof {
            reveal_with_fuel(Seq::<_>::filter, 1);
            assert(all.take(i + 1).drop_last() =~= all.take(i as int));
            assert(all.take(i + 1).last() == extra@[i as int]@);
        }
        let a = extra[i].as_str();
        let setting = build_setting(a);
        let keep = if keep_settings {
            setting
        } else {
            !setting && !str_eq(a, "build")
        };
        if keep {
            let ghost before = string_views(args@);
            args.push(extra[i].clone());
            assert(string_views(args@) =~= before.push(extra@[i as int]@));
        }
        i = i + 1;
    }
    assert(all.take(extra.len() as int) =~= all);
}

/// Run `xcodebuild build` with the given options: the command to run, in the
/// package directory for SPM workspaces, with the extra environment.
pub fn build(opts: &BuildOptions) -> (r: BuildInvocation)
    ensures
        r.command.program@ == "xcodebuild"@,
        string_views(r.command.args@) == build_args_spec(
            string_views(opts.extra_args@),
            opts.scheme@,
            opts.configuration@,
            opts.destination_raw@,
            opt_str_view(opts.derived_data),
            opts.allow_provisioning_updates,
            *opts.ws,
        ),
        pair_views(r.command.env@) == pair_views(opts.extra_env@),
        opts.ws.ws_type == WorkspaceType::Spm ==> (r.command.current_dir matches Some(d) && d@
            == working_dir_spec(opts.ws.path@)),
        opts.ws.ws_type != WorkspaceType::Spm ==> r.command.current_dir is None,
        r.xcbeautify == opts.xcbeautify,
{
    let mut args: Vec<String> = Vec::new();
    // Build settings from extra_args (KEY=VALUE).
    push_filtered(&mut args, opts.extra_args, true);
    let ghost s0 = string_views(args@);
    push_str(&mut args, "-scheme");
    push_str(&mut args, opts.scheme);
    push_str(&mut args, "-configuration");
    push_str(&mut args, opts.configuration);
    push_str(&mut args, "-destination");
    push_str(&mut args, opts.destination_raw);
    assert(string_views(args@) =~= s0 + seq![
        "-scheme"@,
        opts.scheme@,
        "-configuration"@,
        opts.configuration@,
        "-destination"@,
        opts.destination_raw@,
    ]);
    push_opt_flag(&mut args, "-derivedDataPath", opts.derived_data);
    let ghost s1 = string_views(args@);
    if opts.allow_provisioning_updates {
        push_str(&mut args, "-allowProvisioningUpdates");
        assert(string_views(args@) =~= s1 + seq!["-allowProvisioningUpdates"@]);
    } else {
        assert(string_views(args@) =~= s1 + Seq::<Seq<char>>::empty());
    }
    let ghost s2 = string_views(args@);
    if opts.ws.ws_type == WorkspaceType::Xcode {
        push_str(&mut args, "-workspace");
        push_str(&mut args, opts.ws.path.as_str());
        assert(string_views(args@) =~= s2 + seq!["-workspace"@, opts.ws.path@]);
    } else {
        assert(string_views(args@) =~= s2 + Seq::<Seq<char>>::empty());
    }
    let ghost s3 = string_views(args@);
    push_str(&mut args, "build");
    assert(string_views(args@) =~= s3 + seq!["build"@]);
    // Non-build-setting extra args (flags).
    push_filtered(&mut args, opts.extra_args, false);
    let mut env: Vec<(String, String)> = Vec::new();
    let mut i: usize = 0;
    while i < opts.extra_env.len()
        invariant
            i <= opts.extra_env.len(),
            pair_views(env@) == pair_views(opts.extra_env@.take(i as int)),
        decreases opts.extra_env.len() - i,
    {
        let ghost before = env@;
        env.push((opts.extra_env[i].0.clone(), opts.extra_env[i].1.clone()));
        assert(opts.extra_env@.take(i + 1) =~= opts.extra_env@.take(i as int).push(
            opts.extra_env@[i as int],
        ));
        assert(pair_views(env@) =~= pair_views(before).push(
            (opts.extra_env@[i as int].0@, opts.extra_env@[i as int].1@),
        ));
        assert(pair_views(opts.extra_env@.take(i + 1)) =~= pair_views(
            opts.extra_env@.take(i as int),
        ).push((opts.extra_env@[i as int].0@, opts.extra_env@[i as int].1@)));
        i = i + 1;
    }
    assert(opts.extra_env@.take(opts.extra_env.len() as int) =~= opts.extra_env@);
    let current_dir = if opts.ws.ws_type == WorkspaceType::Spm {
        Some(opts.ws.working_dir())
    } else {
        None
    };
    BuildInvocation {
        command: ToolCommand { program: owned("xcodebuild"), args, env, current_dir },
        xcbeautify: opts.xcbeautify,
    }
}

} // verus!

verus! {

/// The arguments of `xcodebuild clean`: the scheme, configuration and
/// destination, the derived data path when given, the workspace for Xcode
/// workspaces, then the `clean` action.
pub open spec fn clean_args_spec(
    ws: Workspace,
    scheme: Seq<char>,
    configuration: Seq<char>,
    destination_raw: Seq<char>,
    derived_data: Option<Seq<char>>,
) -> Seq<Seq<char>> {
    seq!["-scheme"@, scheme, "-configuration"@, configuration, "-destination"@, destination_raw]
        + opt_flag("-derivedDataPath"@, derived_data) + (if ws.ws_type == WorkspaceType::Xcode {
        seq!["-workspace"@, ws.path@]
    } else {
        Seq::empty()
    }) + seq!["clean"@]
}

/// Clean build products: the `xcodebuild clean` run for the resolved scheme,
/// configuration and destination, in the package directory for SPM
/// workspaces, piped through xcbeautify as `xcbeautify` asks.
pub fn clean(
    ws: &Workspace,
    scheme: &str,
    configuration: &str,
    destination_raw: &str,
    derived_data: Option<&str>,
    xcbeautify: Option<bool>,
) -> (r: BuildInvocation)
    ensures
        r.command.program@ == "xcodebuild"@,
        string_views(r.command.args@) == clean_args_spec(
            *ws,
            scheme@,
            configuration@,
            destination_raw@,
            opt_str_view(derived_data),
        ),
        r.command.env@.len() == 0,
        ws.ws_type == WorkspaceType::Spm ==> (r.command.current_dir matches Some(d) && d@
            == working_dir_spec(ws.path@)),
        ws.ws_type != WorkspaceType::Spm ==> r.command.current_dir is None,
        r.xcbeautify == xcbeautify,
{
    let mut args: Vec<String> = Vec::new();
    push_str(&mut args, "-scheme");
    push_str(&mut args, scheme);
    push_str(&mut args, "-configuration");
    push_str(&mut args, configuration);
    push_str(&mut args, "-destination");
    push_str(&mut args, destination_raw);
    assert(string_views(args@) =~= seq![
        "-scheme"@,
        scheme@,
        "-configuration"@,
        configuration@,
        "-destination"@,
        destination_raw@,
    ]);
    push_opt_flag(&mut args, "-derivedDataPath", derived_data);
    let ghost s1 = string_views(args@);
    if ws.ws_type == WorkspaceType::Xcode {
        push_str(&mut args, "-workspace");
        push_str(&mut args, ws.path.as_str());
        assert(string_views(args@) =~= s1 + seq!["-workspace"@, ws.path@]);
    } else {
        assert(string_views(args@) =~= s1 + Seq::<Seq<char>>::empty());
    }
    let ghost s2 = string_views(args@);
    push_str(&mut args, "clean");
    assert(string_views(args@) =~= s2 + seq!["clean"@]);
    let current_dir = if ws.ws_type == WorkspaceType::Spm {
        Some(ws.working_dir())
    } else {
        None
    };
    BuildInvocation {
        command: ToolCommand { program: owned("xcodebuild"), args, env: Vec::new(), current_dir },
        xcbeautify,
    }
}

/// Every extra argument except `build` itself reaches `xcodebuild build`:
/// build settings before the action, the others after it.
pub proof fn lemma_build_keeps_extra_args(
    extra: Seq<Seq<char>>,
    scheme: Seq<char>,
    configuration: Seq<char>,
    destination_raw: Seq<char>,
    derived_data: Option<Seq<char>>,
    allow_provisioning_updates: bool,
    ws: Workspace,
    a: Seq<char>,
)
    requires
        extra.contains(a),
        a != "build"@,
    ensures
        build_args_spec(
            extra,
            scheme,
            configuration,
            destination_raw,
            derived_data,
            allow_provisioning_updates,
            ws,
        ).contains(a),
{
    let settings = extra.filter(setting_pred());
    let flags = extra.filter(flag_pred());
    let all = build_args_spec(
        extra,
        scheme,
        configuration,
        destination_raw,
        derived_data,
        allow_provisioning_updates,
        ws,
    );
    let p1 = settings + seq![
        "-scheme"@,
        scheme,
        "-configuration"@,
        configuration,
        "-destination"@,
        destination_raw,
    ];
    let p2 = p1 + opt_flag("-derivedDataPath"@, derived_data);
    let p3 = p2 + (if allow_provisioning_updates {
        seq!["-allowProvisioningUpdates"@]
    } else {
        Seq::empty()
    });
    let p4 = p3 + (if ws.ws_type == WorkspaceType::Xcode {
        seq!["-workspace"@, ws.path@]
    } else {
        Seq::empty()
    });
    let p5 = p4 + seq!["build"@];
    assert(all == p5 + flags);
    let i = choose|i: int| 0 <= i < extra.len() && extra[i] == a;
    if is_build_setting(a) {
        extra.lemma_filter_contains(setting_pred(), i);
        let k = choose|k: int| 0 <= k < settings.len() && settings[k] == a;
        assert(p1[k] == settings[k]);
        assert(p2[k] == p1[k]);
        assert(p3[k] == p2[k]);
        assert(p4[k] == p3[k]);
        assert(p5[k] == p4[k]);
        assert(all[k] == p5[k]);
    } else {
        extra.lemma_filter_contains(flag_pred(), i);
        let k = choose|k: int| 0 <= k < flags.len() && flags[k] == a;
        assert(all[p5.len() + k] == flags[k]);
    }
}

/// A requested derived data path always reaches `xcodebuild build`, for
/// every kind of workspace: `-derivedDataPath` directly followed by the path.
pub proof fn lemma_build_passes_derived_data(
    extra: Seq<Seq<char>>,
    scheme: Seq<char>,
    configuration: Seq<char>,
    destination_raw: Seq<char>,
    dd: Seq<char>,
    allow_provisioning_updates: bool,
    ws: Workspace,
)
    ensures
        exists|i: int|
            0 <= i && i + 1 < build_args_spec(
                extra,
                scheme,
                configuration,
                destination_raw,
                Some(dd),
                allow_provisioning_updates,
                ws,
            ).len() && #[trigger] build_args_spec(
                extra,
                scheme,
                configuration,
                destination_raw,
                Some(dd),
                allow_provisioning_updates,
                ws,
            )[i] == "-derivedDataPath"@ && build_args_spec(
                extra,
                scheme,
                configuration,
                destination_raw,
                Some(dd),
                allow_provisioning_updates,
                ws,
            )[i + 1] == dd,
{
    let args = build_args_spec(
        extra,
        scheme,
        configuration,
        destination_raw,
        Some(dd),
        allow_provisioning_updates,
        ws,
    );
    let i: int = extra.filter(setting_pred()).len() as int + 6;
    assert(args[i] == "-derivedDataPath"@);
    assert(args[i + 1] == dd);
}

/// A requested derived data path always reaches `xcodebuild
/// -showBuildSettings`, for SPM as well as Xcode workspaces:
/// `-derivedDataPath` directly followed by the path.
pub proof fn lemma_build_settings_pass_derived_data(
    ws: Workspace,
    scheme: Seq<char>,
    configuration: Seq<char>,
    sdk: Option<Seq<char>>,
    destination_raw: Option<Seq<char>>,
    dd: Seq<char>,
)
    ensures
        exists|i: int|
            0 <= i && i + 1 < build_settings_args(
                ws,
                scheme,
                configuration,
                sdk,
                destination_raw,
                Some(dd),
            ).len() && #[trigger] build_settings_args(
                ws,
                scheme,
                configuration,
                sdk,
                destination_raw,
                Some(dd),
            )[i] == "-derivedDataPath"@ && build_settings_args(
                ws,
                scheme,
                configuration,
                sdk,
                destination_raw,
                Some(dd),
            )[i + 1] == dd,
{
    let args = build_settings_args(ws, scheme, configuration, sdk, destination_raw, Some(dd));
    let i: int = 5 + opt_flag("-sdk"@, sdk).len() as int + opt_flag("-destination"@, destination_raw).len() as int;
    assert(args[i] == "-derivedDataPath"@);
    assert(args[i + 1] == dd);
}

} // verus!
