//! Installing and launching the built app on its destination.
//!
//! Launching alternates between running tools and deciding what to do next.
//! The decisions are the step function `launch_step`: from a stage and the
//! answer to the last action it gives the next stage and action. The caller
//! performs each action and answers with the matching event until the action
//! is `Finish`.
use vstd::prelude::*;

use crate::command::{pair_views, CommandModel, ToolCommand};
use crate::destination::{Destination, DestinationModel, opt_view};
use crate::text::{
    chars_of, str_concat, str_concat3, decimal_string, find_char, first_index_of, lemma_first_index_of,
    owned, parse_u32, parse_u32_spec, string_of_range, string_views, strip_prefix,
};
use crate::xcodebuild::LaunchInfo;

verus! {

// ---------------------------------------------------------------------------
// Options, stages, events and actions
// ---------------------------------------------------------------------------

/// What to launch, where, and how.
pub struct LaunchOptions<'a> {
    pub dest: &'a Destination,
    pub info: &'a LaunchInfo,
    pub args: &'a [String],
    pub env: &'a [(String, String)],
    pub foreground_simulator: bool,
    pub install_only: bool,
}

/// The mathematical value of `LaunchOptions`.
#[verifier::ext_equal]
pub struct OptionsModel {
    pub dest: DestinationModel,
    pub app_path: Seq<char>,
    pub executable_path: Option<Seq<char>>,
    pub bundle_id: Seq<char>,
    pub args: Seq<Seq<char>>,
    pub env: Seq<(Seq<char>, Seq<char>)>,
    pub foreground_simulator: bool,
    pub install_only: bool,
}

impl<'a> View for LaunchOptions<'a> {
    type V = OptionsModel;

    open spec fn view(&self) -> OptionsModel {
        OptionsModel {
            dest: self.dest@,
            app_path: self.info.app_path@,
            executable_path: opt_view(self.info.executable_path),
            bundle_id: self.info.bundle_id@,
            args: string_views(self.args@),
            env: pair_views(self.env@),
            foreground_simulator: self.foreground_simulator,
            install_only: self.install_only,
        }
    }
}

/// How a command is run.
#[derive(Debug, Clone, Copy, PartialEq, Eq, Structural)]
pub enum RunMode {
    /// Capture its output; a failure is an error.
    Capture,
    /// Let it use the terminal; a failure is an error.
    Inherit,
    /// Let it use the terminal and ignore how it ends.
    Status,
}

/// Where a launch stands.
pub enum LaunchStage {
    Start,
    MacChecked,
    MacNoted,
    MacRan,
    SimBooted,
    SimOpened,
    SimInstallNoted,
    SimInstalled,
    SimLaunchNoted,
    SimLaunched,
    DevInstallNoted,
    DevInstalled,
    DevVersion,
    DevTempFile { console: bool },
    DevLaunchNoted { console: bool, report: String },
    DevLaunched { report: String },
    DevPid,
    Finishing,
    Finished,
}

/// The mathematical value of a `LaunchStage`.
#[verifier::ext_equal]
pub enum StageModel {
    Start,
    MacChecked,
    MacNoted,
    MacRan,
    SimBooted,
    SimOpened,
    SimInstallNoted,
    SimInstalled,
    SimLaunchNoted,
    SimLaunched,
    DevInstallNoted,
    DevInstalled,
    DevVersion,
    DevTempFile { console: bool },
    DevLaunchNoted { console: bool, report: Seq<char> },
    DevLaunched { report: Seq<char> },
    DevPid,
    Finishing,
    Finished,
}

impl View for LaunchStage {
    type V = StageModel;

    open spec fn view(&self) -> StageModel {
        match self {
            LaunchStage::Start => StageModel::Start,
            LaunchStage::MacChecked => StageModel::MacChecked,
            LaunchStage::MacNoted => StageModel::MacNoted,
            LaunchStage::MacRan => StageModel::MacRan,
            LaunchStage::SimBooted => StageModel::SimBooted,
            LaunchStage::SimOpened => StageModel::SimOpened,
            LaunchStage::SimInstallNoted => StageModel::SimInstallNoted,
            LaunchStage::SimInstalled => StageModel::SimInstalled,
            LaunchStage::SimLaunchNoted => StageModel::SimLaunchNoted,
            LaunchStage::SimLaunched => StageModel::SimLaunched,
            LaunchStage::DevInstallNoted => StageModel::DevInstallNoted,
            LaunchStage::DevInstalled => StageModel::DevInstalled,
            LaunchStage::DevVersion => StageModel::DevVersion,
            LaunchStage::DevTempFile { console } => StageModel::DevTempFile { console: *console },
            LaunchStage::DevLaunchNoted { console, report } => StageModel::DevLaunchNoted {
                console: *console,
                report: report@,
            },
            LaunchStage::DevLaunched { report } => StageModel::DevLaunched { report: report@ },
            LaunchStage::DevPid => StageModel::DevPid,
            LaunchStage::Finishing => StageModel::Finishing,
            LaunchStage::Finished => StageModel::Finished,
        }
    }
}

/// The answer to the last action.
pub enum LaunchEvent {
    /// The launch begins (no action was taken yet).
    Started,
    /// Whether the file asked about exists.
    Exists(bool),
    /// The message was shown.
    Noted,
    /// The command ran: whether it succeeded, and its captured output.
    Ran { success: bool, output: String },
    /// The temporary file that was created, if it could be.
    TempFile(Option<String>),
    /// The process id in the launch report, if it holds one.
    Pid(Option<u64>),
}

/// The mathematical value of a `LaunchEvent`.
#[verifier::ext_equal]
pub enum EventModel {
    Started,
    Exists(bool),
    Noted,
    Ran { success: bool, output: Seq<char> },
    TempFile(Option<Seq<char>>),
    Pid(Option<u64>),
}

impl View for LaunchEvent {
    type V = EventModel;

    open spec fn view(&self) -> EventModel {
        match self {
            LaunchEvent::Started => EventModel::Started,
            LaunchEvent::Exists(b) => EventModel::Exists(*b),
            LaunchEvent::Noted => EventModel::Noted,
            LaunchEvent::Ran { success, output } => EventModel::Ran {
                success: *success,
                output: output@,
            },
            LaunchEvent::TempFile(p) => EventModel::TempFile(opt_view(*p)),
            LaunchEvent::Pid(p) => EventModel::Pid(*p),
        }
    }
}

/// How a launch ended.
pub enum LaunchOutcome {
    Success,
    /// The build settings name no executable (macOS).
    ExecutablePathMissing,
    /// The executable does not exist (macOS).
    ExecutableNotFound { path: String },
    /// The last command failed; its error, with `context` when given.
    CommandFailed { context: Option<String> },
    /// No temporary file could be created.
    TempFileFailed,
    /// The event does not answer the last action.
    UnexpectedEvent,
}

/// The mathematical value of a `LaunchOutcome`.
#[verifier::ext_equal]
pub enum OutcomeModel {
    Success,
    ExecutablePathMissing,
    ExecutableNotFound(Seq<char>),
    CommandFailed(Option<Seq<char>>),
    TempFileFailed,
    UnexpectedEvent,
}

impl View for LaunchOutcome {
    type V = OutcomeModel;

    open spec fn view(&self) -> OutcomeModel {
        match self {
            LaunchOutcome::Success => OutcomeModel::Success,
            LaunchOutcome::ExecutablePathMissing => OutcomeModel::ExecutablePathMissing,
            LaunchOutcome::ExecutableNotFound { path } => OutcomeModel::ExecutableNotFound(path@),
            LaunchOutcome::CommandFailed { context } => OutcomeModel::CommandFailed(
                opt_view(*context),
            ),
            LaunchOutcome::TempFileFailed => OutcomeModel::TempFileFailed,
            LaunchOutcome::UnexpectedEvent => OutcomeModel::UnexpectedEvent,
        }
    }
}

/// What the caller must do next.
pub enum LaunchAction {
    /// Tell whether the file at `path` exists (`Exists`).
    CheckExists { path: String },
    /// Show `message` on standard error (`Noted`).
    Note { message: String },
    /// Run `command` (`Ran`).
    Run { command: ToolCommand, mode: RunMode },
    /// Create a temporary file (`TempFile`).
    CreateTempFile,
    /// Read the JSON launch report at `path` and answer with the process id
    /// that `report_pid` finds in its text (`Pid`; `None` when it cannot be
    /// read).
    ReadPid { path: String },
    /// Stop with this outcome.
    Finish(LaunchOutcome),
}

/// The mathematical value of a `LaunchAction`.
#[verifier::ext_equal]
pub enum ActionModel {
    CheckExists(Seq<char>),
    Note(Seq<char>),
    Run(CommandModel, RunMode),
    CreateTempFile,
    ReadPid(Seq<char>),
    Finish(OutcomeModel),
}

impl View for LaunchAction {
    type V = ActionModel;

    open spec fn view(&self) -> ActionModel {
        match self {
            LaunchAction::CheckExists { path } => ActionModel::CheckExists(path@),
            LaunchAction::Note { message } => ActionModel::Note(message@),
            LaunchAction::Run { command, mode } => ActionModel::Run(command@, *mode),
            LaunchAction::CreateTempFile => ActionModel::CreateTempFile,
            LaunchAction::ReadPid { path } => ActionModel::ReadPid(path@),
            LaunchAction::Finish(o) => ActionModel::Finish(o@),
        }
    }
}

/// The next stage and the action to perform.
pub struct LaunchStep {
    pub stage: LaunchStage,
    pub action: LaunchAction,
}

// ---------------------------------------------------------------------------
// Specifications
// ---------------------------------------------------------------------------

/// The first line of `s`, as `s.lines().next()` gives it: up to the first
/// `\n`, without a `\r` before it; none when `s` is empty.
pub open spec fn first_line_spec(s: Seq<char>) -> Option<Seq<char>> {
    if s.len() == 0 {
        None
    } else if s.contains('\n') {
        let line = s.take(first_index_of(s, '\n'));
        if line.len() > 0 && line.last() == '\r' {
            Some(line.drop_last())
        } else {
            Some(line)
        }
    } else {
        Some(s)
    }
}

/// The text before the first `.`, as `split('.').next()` gives it.
pub open spec fn before_dot(s: Seq<char>) -> Seq<char> {
    if s.contains('.') {
        s.take(first_index_of(s, '.'))
    } else {
        s
    }
}

/// The major Xcode version in the output of `xcodebuild -version`, whose
/// first line is like `Xcode 16.0`.
pub open spec fn xcode_major_spec(output: Seq<char>) -> Option<u32> {
    match first_line_spec(output) {
        Some(line) => if "Xcode "@.is_prefix_of(line) {
            parse_u32_spec(before_dot(line.skip("Xcode "@.len() as int)))
        } else {
            None
        },
        None => None,
    }
}

/// Whether `devicectl` supports `--console` (Xcode 16 and later), judged by
/// the run of `xcodebuild -version`.
pub open spec fn console_supported(success: bool, output: Seq<char>) -> bool {
    success && match xcode_major_spec(output) {
        Some(v) => v >= 16,
        None => false,
    }
}

/// `env` with `prefix` before every key.
pub open spec fn prefixed_env(prefix: Seq<char>, env: Seq<(Seq<char>, Seq<char>)>) -> Seq<
    (Seq<char>, Seq<char>),
> {
    env.map_values(|p: (Seq<char>, Seq<char>)| (prefix + p.0, p.1))
}

/// Running `xcrun` with `args` and `env`.
pub open spec fn xcrun(
    args: Seq<Seq<char>>,
    env: Seq<(Seq<char>, Seq<char>)>,
    mode: RunMode,
) -> ActionModel {
    ActionModel::Run(CommandModel { program: "xcrun"@, args, env, current_dir: None }, mode)
}

/// The arguments of `open` that bring up Simulator.app, in the foreground or
/// the background.
pub open spec fn open_simulator_args(foreground: bool) -> Seq<Seq<char>> {
    if foreground {
        seq!["-a"@, "Simulator"@]
    } else {
        seq!["-g"@, "-a"@, "Simulator"@]
    }
}

/// The arguments of `xcrun` that launch the app on a simulator.
pub open spec fn simulator_launch_args(o: OptionsModel, udid: Seq<char>) -> Seq<Seq<char>> {
    seq![
        "simctl"@,
        "launch"@,
        "--console-pty"@,
        "--terminate-running-process"@,
        udid,
        o.bundle_id,
    ] + o.args
}

/// The arguments of `xcrun` that launch the app on a device, writing the
/// launch report to `report`.
pub open spec fn device_launch_args(
    o: OptionsModel,
    id: Seq<char>,
    console: bool,
    report: Seq<char>,
) -> Seq<Seq<char>> {
    seq!["devicectl"@, "device"@, "process"@, "launch"@] + (if console {
        seq!["--console"@]
    } else {
        Seq::empty()
    }) + seq!["--json-output"@, report, "--terminate-existing"@, "--device"@, id, o.bundle_id]
        + o.args
}

/// The message shown when only installing.
pub open spec fn install_only_message(mac: bool) -> Seq<char> {
    if mac {
        "Install-only: skipping launch (macOS has no separate install step)"@
    } else {
        "Install-only: app installed, skipping launch"@
    }
}

/// A step: the next stage and the action.
pub open spec fn step(s: StageModel, a: ActionModel) -> (StageModel, ActionModel) {
    (s, a)
}

/// Finishing with an outcome.
pub open spec fn finish(o: OutcomeModel) -> (StageModel, ActionModel) {
    (StageModel::Finished, ActionModel::Finish(o))
}

/// The step for an event that does not answer the last action.
pub open spec fn unexpected() -> (StageModel, ActionModel) {
    finish(OutcomeModel::UnexpectedEvent)
}

/// The launch decisions: from `stage`, on `event`, the next stage and action.
pub open spec fn launch_step_spec(o: OptionsModel, stage: StageModel, event: EventModel) -> (
    StageModel,
    ActionModel,
) {
    match stage {
        StageModel::Start => match o.dest {
            DestinationModel::MacOS { .. } => match o.executable_path {
                None => finish(OutcomeModel::ExecutablePathMissing),
                Some(p) => step(StageModel::MacChecked, ActionModel::CheckExists(p)),
            },
            DestinationModel::Simulator { udid, .. } => step(
                StageModel::SimBooted,
                xcrun(seq!["simctl"@, "boot"@, udid], Seq::empty(), RunMode::Capture),
            ),
            DestinationModel::Device { identifier, .. } => step(
                StageModel::DevInstallNoted,
                ActionModel::Note("Installing on device "@ + identifier + "..."@),
            ),
        },
        StageModel::MacChecked => match (event, o.executable_path) {
            (EventModel::Exists(true), Some(p)) => if o.install_only {
                step(StageModel::Finishing, ActionModel::Note(install_only_message(true)))
            } else {
                step(StageModel::MacNoted, ActionModel::Note("Running: "@ + p))
            },
            (EventModel::Exists(false), Some(p)) => finish(OutcomeModel::ExecutableNotFound(p)),
            _ => unexpected(),
        },
        StageModel::MacNoted => match (event, o.executable_path) {
            (EventModel::Noted, Some(p)) => step(
                StageModel::MacRan,
                ActionModel::Run(
                    CommandModel { program: p, args: o.args, env: o.env, current_dir: None },
                    RunMode::Inherit,
                ),
            ),
            _ => unexpected(),
        },
        StageModel::MacRan => match event {
            EventModel::Ran { success, .. } => if success {
                finish(OutcomeModel::Success)
            } else {
                finish(OutcomeModel::CommandFailed(Some("macOS app execution failed"@)))
            },
            _ => unexpected(),
        },
        StageModel::SimBooted => match event {
            EventModel::Ran { .. } => step(
                StageModel::SimOpened,
                ActionModel::Run(
                    CommandModel {
                        program: "open"@,
                        args: open_simulator_args(o.foreground_simulator),
                        env: Seq::empty(),
                        current_dir: None,
                    },
                    RunMode::Status,
                ),
            ),
            _ => unexpected(),
        },
        StageModel::SimOpened => match (event, o.dest) {
            (EventModel::Ran { .. }, DestinationModel::Simulator { udid, .. }) => step(
                StageModel::SimInstallNoted,
                ActionModel::Note("Installing on simulator "@ + udid + "..."@),
            ),
            _ => unexpected(),
        },
        StageModel::SimInstallNoted => match (event, o.dest) {
            (EventModel::Noted, DestinationModel::Simulator { udid, .. }) => step(
                StageModel::SimInstalled,
                xcrun(
                    seq!["simctl"@, "install"@, udid, o.app_path],
                    Seq::empty(),
                    RunMode::Capture,
                ),
            ),
            _ => unexpected(),
        },
        StageModel::SimInstalled => match event {
            EventModel::Ran { success, .. } => if !success {
                finish(OutcomeModel::CommandFailed(None))
            } else if o.install_only {
                step(StageModel::Finishing, ActionModel::Note(install_only_message(false)))
            } else {
                step(
                    StageModel::SimLaunchNoted,
                    ActionModel::Note("Launching "@ + o.bundle_id + "..."@),
                )
            },
            _ => unexpected(),
        },
        StageModel::SimLaunchNoted => match (event, o.dest) {
            (EventModel::Noted, DestinationModel::Simulator { udid, .. }) => step(
                StageModel::SimLaunched,
                xcrun(
                    simulator_launch_args(o, udid),
                    prefixed_env("SIMCTL_CHILD_"@, o.env),
                    RunMode::Inherit,
                ),
            ),
            _ => unexpected(),
        },
        StageModel::SimLaunched => match event {
            EventModel::Ran { success, .. } => if success {
                finish(OutcomeModel::Success)
            } else {
                finish(OutcomeModel::CommandFailed(Some("simctl launch failed"@)))
            },
            _ => unexpected(),
        },
        StageModel::DevInstallNoted => match (event, o.dest) {
            (EventModel::Noted, DestinationModel::Device { identifier, .. }) => step(
                StageModel::DevInstalled,
                xcrun(
                    seq![
                        "devicectl"@,
                        "device"@,
                        "install"@,
                        "app"@,
                        "--device"@,
                        identifier,
                        o.app_path,
                    ],
                    Seq::empty(),
                    RunMode::Capture,
                ),
            ),
            _ => unexpected(),
        },
        StageModel::DevInstalled => match event {
            EventModel::Ran { success, .. } => if !success {
                finish(OutcomeModel::CommandFailed(None))
            } else if o.install_only {
                step(StageModel::Finishing, ActionModel::Note(install_only_message(false)))
            } else {
                step(
                    StageModel::DevVersion,
                    xcrun(seq!["xcodebuild"@, "-version"@], Seq::empty(), RunMode::Capture),
                )
            },
            _ => unexpected(),
        },
        StageModel::DevVersion => match event {
            EventModel::Ran { success, output } => step(
                StageModel::DevTempFile { console: console_supported(success, output) },
                ActionModel::CreateTempFile,
            ),
            _ => unexpected(),
        },
        StageModel::DevTempFile { console } => match event {
            EventModel::TempFile(Some(report)) => step(
                StageModel::DevLaunchNoted { console, report },
                ActionModel::Note("Launching "@ + o.bundle_id + "..."@),
            ),
            EventModel::TempFile(None) => finish(OutcomeModel::TempFileFailed),
            _ => unexpected(),
        },
        StageModel::DevLaunchNoted { console, report } => match (event, o.dest) {
            (EventModel::Noted, DestinationModel::Device { identifier, .. }) => step(
                StageModel::DevLaunched { report },
                xcrun(
                    device_launch_args(o, identifier, console, report),
                    prefixed_env("DEVICECTL_CHILD_"@, o.env),
                    RunMode::Inherit,
                ),
            ),
            _ => unexpected(),
        },
        StageModel::DevLaunched { report } => match event {
            EventModel::Ran { success, .. } => if success {
                step(StageModel::DevPid, ActionModel::ReadPid(report))
            } else {
                finish(OutcomeModel::CommandFailed(Some("devicectl launch failed"@)))
            },
            _ => unexpected(),
        },
        StageModel::DevPid => match event {
            EventModel::Pid(Some(pid)) => step(
                StageModel::Finishing,
                ActionModel::Note("App launched with PID: "@ + decimal_string(pid as nat)),
            ),
            EventModel::Pid(None) => finish(OutcomeModel::Success),
            _ => unexpected(),
        },
        StageModel::Finishing => match event {
            EventModel::Noted => finish(OutcomeModel::Success),
            _ => unexpected(),
        },
        StageModel::Finished => unexpected(),
    }
}

// ---------------------------------------------------------------------------
// Helpers
// ---------------------------------------------------------------------------

/// What `serde_json` gives for the unsigned integer at the JSON pointer
/// `pointer` in the JSON text `json`.
pub uninterp spec fn json_u64_at(json: Seq<char>, pointer: Seq<char>) -> Option<u64>;

/// `serde_json::from_str::<Value>`, then `Value::pointer` and
/// `Value::as_u64`: the unsigned integer at `pointer` in the JSON text
/// `json`; `None` when the text is not JSON, nothing is at `pointer`, or what
/// is there is no `u64`. The result is named by `json_u64_at`.
#[verifier::external_body]
fn json_u64_at_pointer(json: &str, pointer: &str) -> (r: Option<u64>)
    ensures
        r == json_u64_at(json@, pointer@),
{
    serde_json::from_str::<serde_json::Value>(json).ok()?.pointer(pointer)?.as_u64()
}

/// The process id in the text of a devicectl JSON launch report: the number
/// at `/result/process/processIdentifier`.
pub fn report_pid(report: &str) -> (r: Option<u64>)
    ensures
        r == json_u64_at(report@, "/result/process/processIdentifier"@),
{
    json_u64_at_pointer(report, "/result/process/processIdentifier")
}

/// The first line of `s` (`s.lines().next()`).
pub fn first_line(s: &str) -> (r: Option<String>)
    ensures
        opt_view(r) == first_line_spec(s@),
{
    let cs = chars_of(s);
    if cs.len() == 0 {
        return None;
    }
    match find_char(s, '\n') {
        Some(k) => {
            proof {
                lemma_first_index_of(s@, '\n', k as int);
            }
            assert(cs@.subrange(0, k as int) =~= s@.take(k as int));
            if k > 0 && cs[k - 1] == '\r' {
                let line = string_of_range(&cs, 0, k - 1);
                assert(s@.take(k as int).drop_last() =~= cs@.subrange(0, k - 1));
                Some(line)
            } else {
                Some(string_of_range(&cs, 0, k))
            }
        },
        None => {
            assert(cs@.subrange(0, cs.len() as int) =~= s@);
            Some(string_of_range(&cs, 0, cs.len()))
        },
    }
}

/// The text before the first `.` (`s.split('.').next()`).
fn text_before_dot(s: &str) -> (r: String)
    ensures
        r@ == before_dot(s@),
{
    let cs = chars_of(s);
    match find_char(s, '.') {
        Some(k) => {
            proof {
                lemma_first_index_of(s@, '.', k as int);
            }
            assert(cs@.subrange(0, k as int) =~= s@.take(k as int));
            string_of_range(&cs, 0, k)
        },
        None => {
            assert(cs@.subrange(0, cs.len() as int) =~= s@);
            string_of_range(&cs, 0, cs.len())
        },
    }
}

/// The major Xcode version in the output of `xcodebuild -version`.
pub fn xcode_major_version(output: &str) -> (r: Option<u32>)
    ensures
        r == xcode_major_spec(output@),
{
    let line = match first_line(output) {
        Some(l) => l,
        None => return None,
    };
    let version = match strip_prefix(line.as_str(), "Xcode ") {
        Some(v) => v,
        None => return None,
    };
    let major = text_before_dot(version.as_str());
    parse_u32(major.as_str())
}

/// `env` with `prefix` before every key.
fn prefix_env(prefix: &str, env: &[(String, String)]) -> (r: Vec<(String, String)>)
    ensures
        pair_views(r@) == prefixed_env(prefix@, pair_views(env@)),
{
    let mut r: Vec<(String, String)> = Vec::new();
    let mut i: usize = 0;
    while i < env.len()
        invariant
            i <= env.len(),
            r.len() == i,
            forall|k: int|
                0 <= k < i ==> #[trigger] r@[k].0@ == prefix@ + env@[k].0@ && r@[k].1@
                    == env@[k].1@,
        decreases env.len() - i,
    {
        let key = str_concat(prefix, env[i].0.as_str());
        r.push((key, env[i].1.clone()));
        i = i + 1;
    }
    assert(pair_views(r@) =~= prefixed_env(prefix@, pair_views(env@)));
    r
}

/// A copy of a list of string pairs.
fn copy_pairs(v: &[(String, String)]) -> (r: Vec<(String, String)>)
    ensures
        pair_views(r@) == pair_views(v@),
{
    let mut r: Vec<(String, String)> = Vec::new();
    let mut i: usize = 0;
    while i < v.len()
        invariant
            i <= v.len(),
            r.len() == i,
            forall|k: int| 0 <= k < i ==> #[trigger] r@[k].0@ == v@[k].0@ && r@[k].1@ == v@[k].1@,
        decreases v.len() - i,
    {
        r.push((v[i].0.clone(), v[i].1.clone()));
        i = i + 1;
    }
    assert(pair_views(r@) =~= pair_views(v@));
    r
}

/// A copy of a list of strings.
fn copy_strings(v: &[String]) -> (r: Vec<String>)
    ensures
        string_views(r@) == string_views(v@),
{
    let mut r: Vec<String> = Vec::new();
    let mut i: usize = 0;
    while i < v.len()
        invariant
            i <= v.len(),
            r.len() == i,
            forall|k: int| 0 <= k < i ==> #[trigger] r@[k]@ == v@[k]@,
        decreases v.len() - i,
    {
        r.push(v[i].clone());
        i = i + 1;
    }
    assert(string_views(r@) =~= string_views(v@));
    r
}

/// Appends copies of `more` to `v`.
fn push_all(v: &mut Vec<String>, more: &[String])
    ensures
        string_views(final(v)@) == string_views(old(v)@) + string_views(more@),
{
    let ghost base = string_views(v@);
    let mut i: usize = 0;
    while i < more.len()
        invariant
            i <= more.len(),
            string_views(v@) == base + string_views(more@.take(i as int)),
        decreases more.len() - i,
    {
        let ghost before = string_views(v@);
        v.push(more[i].clone());
        assert(string_views(v@) =~= before.push(more@[i as int]@));
        assert(string_views(more@.take(i + 1)) =~= string_views(more@.take(i as int)).push(
            more@[i as int]@,
        ));
        i = i + 1;
    }
    assert(more@.take(more.len() as int) =~= more@);
}

/// A list of owned strings from literals.
fn strings(lits: &[&str]) -> (r: Vec<String>)
    ensures
        r.len() == lits.len(),
        forall|k: int| 0 <= k < lits.len() ==> #[trigger] r@[k]@ == lits@[k]@,
{
    let mut r: Vec<String> = Vec::new();
    let mut i: usize = 0;
    while i < lits.len()
        invariant
            i <= lits.len(),
            r.len() == i,
            forall|k: int| 0 <= k < i ==> #[trigger] r@[k]@ == lits@[k]@,
        decreases lits.len() - i,
    {
        r.push(owned(lits[i]));
        i = i + 1;
    }
    r
}

/// Running `xcrun` with `args` and `env`.
fn xcrun_action(args: Vec<String>, env: Vec<(String, String)>, mode: RunMode) -> (r: LaunchAction)
    ensures
        r@ == xcrun(string_views(args@), pair_views(env@), mode),
{
    LaunchAction::Run {
        command: ToolCommand { program: owned("xcrun"), args, env, current_dir: None },
        mode,
    }
}

fn finish_with(o: LaunchOutcome) -> (r: LaunchStep)
    ensures
        (r.stage@, r.action@) == finish(o@),
{
    LaunchStep { stage: LaunchStage::Finished, action: LaunchAction::Finish(o) }
}

fn unexpected_event() -> (r: LaunchStep)
    ensures
        (r.stage@, r.action@) == unexpected(),
{
    finish_with(LaunchOutcome::UnexpectedEvent)
}

fn note(stage: LaunchStage, message: String) -> (r: LaunchStep)
    ensures
        r.stage@ == stage@,
        r.action@ == ActionModel::Note(message@),
{
    LaunchStep { stage, action: LaunchAction::Note { message } }
}

// ---------------------------------------------------------------------------
// The step function
// ---------------------------------------------------------------------------

/// Launch the built app on the resolved destination: the first step.
pub fn launch(opts: &LaunchOptions) -> (r: LaunchStep)
    ensures
        (r.stage@, r.action@) == launch_step_spec(opts@, StageModel::Start, EventModel::Started),
{
    launch_step(opts, LaunchStage::Start, LaunchEvent::Started)
}

/// The next step of a launch, from `stage`, on `event`.
pub fn launch_step(opts: &LaunchOptions, stage: LaunchStage, event: LaunchEvent) -> (r: LaunchStep)
    ensures
        (r.stage@, r.action@) == launch_step_spec(opts@, stage@, event@),
{
    let ghost o = opts@;
    match stage {
        LaunchStage::Start => match opts.dest {
            Destination::MacOS { .. } => match &opts.info.executable_path {
                None => finish_with(LaunchOutcome::ExecutablePathMissing),
                Some(p) => LaunchStep {
                    stage: LaunchStage::MacChecked,
                    action: LaunchAction::CheckExists { path: p.clone() },
                },
            },
            Destination::Simulator { udid, .. } => {
                let mut args = strings(&["simctl", "boot"]);
                args.push(udid.clone());
                assert(string_views(args@) =~= seq!["simctl"@, "boot"@, udid@]);
                LaunchStep {
                    stage: LaunchStage::SimBooted,
                    action: xcrun_action(args, Vec::new(), RunMode::Capture),
                }
            },
            Destination::Device { identifier, .. } => note(
                LaunchStage::DevInstallNoted,
                str_concat3("Installing on device ", identifier.as_str(), "..."),
            ),
        },
        LaunchStage::MacChecked => match (event, &opts.info.executable_path) {
            (LaunchEvent::Exists(exists), Some(p)) => {
                if !exists {
                    finish_with(LaunchOutcome::ExecutableNotFound { path: p.clone() })
                } else if opts.install_only {
                    note(
                        LaunchStage::Finishing,
                        owned("Install-only: skipping launch (macOS has no separate install step)"),
                    )
                } else {
                    note(LaunchStage::MacNoted, str_concat("Running: ", p.as_str()))
                }
            },
            _ => unexpected_event(),
        },
        LaunchStage::MacNoted => match (event, &opts.info.executable_path) {
            (LaunchEvent::Noted, Some(p)) => {
                let env = copy_pairs(opts.env);
                LaunchStep {
                    stage: LaunchStage::MacRan,
                    action: LaunchAction::Run {
                        command: ToolCommand {
                            program: p.clone(),
                            args: copy_strings(opts.args),
                            env,
                            current_dir: None,
                        },
                        mode: RunMode::Inherit,
                    },
                }
            },
            _ => unexpected_event(),
        },
        LaunchStage::MacRan => match event {
            LaunchEvent::Ran { success, .. } => if success {
                finish_with(LaunchOutcome::Success)
            } else {
                finish_with(
                    LaunchOutcome::CommandFailed { context: Some(owned("macOS app execution failed")) },
                )
            },
            _ => unexpected_event(),
        },
        LaunchStage::SimBooted => match event {
            LaunchEvent::Ran { .. } => {
                let args = if opts.foreground_simulator {
                    strings(&["-a", "Simulator"])
                } else {
                    strings(&["-g", "-a", "Simulator"])
                };
                assert(string_views(args@) =~= open_simulator_args(opts.foreground_simulator));
                LaunchStep {
                    stage: LaunchStage::SimOpened,
                    action: LaunchAction::Run {
                        command: ToolCommand {
                            program: owned("open"),
                            args,
                            env: Vec::new(),
                            current_dir: None,
                        },
                        mode: RunMode::Status,
                    },
                }
            },
            _ => unexpected_event(),
        },
        LaunchStage::SimOpened => match (event, opts.dest) {
            (LaunchEvent::Ran { .. }, Destination::Simulator { udid, .. }) => note(
                LaunchStage::SimInstallNoted,
                str_concat3("Installing on simulator ", udid.as_str(), "..."),
            ),
            _ => unexpected_event(),
        },
        LaunchStage::SimInstallNoted => match (event, opts.dest) {
            (LaunchEvent::Noted, Destination::Simulator { udid, .. }) => {
                let mut args = strings(&["simctl", "install"]);
                args.push(udid.clone());
                args.push(opts.info.app_path.clone());
                assert(string_views(args@) =~= seq![
                    "simctl"@,
                    "install"@,
                    udid@,
                    o.app_path,
                ]);
                LaunchStep {
                    stage: LaunchStage::SimInstalled,
                    action: xcrun_action(args, Vec::new(), RunMode::Capture),
                }
            },
            _ => unexpected_event(),
        },
        LaunchStage::SimInstalled => match event {
            LaunchEvent::Ran { success, .. } => if !success {
                finish_with(LaunchOutcome::CommandFailed { context: None })
            } else if opts.install_only {
                note(LaunchStage::Finishing, owned("Install-only: app installed, skipping launch"))
            } else {
                note(
                    LaunchStage::SimLaunchNoted,
                    str_concat3("Launching ", opts.info.bundle_id.as_str(), "..."),
                )
            },
            _ => unexpected_event(),
        },
        LaunchStage::SimLaunchNoted => match (event, opts.dest) {
            (LaunchEvent::Noted, Destination::Simulator { udid, .. }) => {
                let mut args = strings(&["simctl", "launch", "--console-pty", "--terminate-running-process"]);
                args.push(udid.clone());
                args.push(opts.info.bundle_id.clone());
                let ghost head = string_views(args@);
                assert(head =~= seq![
                    "simctl"@,
                    "launch"@,
                    "--console-pty"@,
                    "--terminate-running-process"@,
                    udid@,
                    o.bundle_id,
                ]);
                push_all(&mut args, opts.args);
                let env = prefix_env("SIMCTL_CHILD_", opts.env);
                LaunchStep {
                    stage: LaunchStage::SimLaunched,
                    action: xcrun_action(args, env, RunMode::Inherit),
                }
            },
            _ => unexpected_event(),
        },
        LaunchStage::SimLaunched => match event {
            LaunchEvent::Ran { success, .. } => if success {
                finish_with(LaunchOutcome::Success)
            } else {
                finish_with(
                    LaunchOutcome::CommandFailed { context: Some(owned("simctl launch failed")) },
                )
            },
            _ => unexpected_event(),
        },
        LaunchStage::DevInstallNoted => match (event, opts.dest) {
            (LaunchEvent::Noted, Destination::Device { identifier, .. }) => {
                let mut args = strings(&["devicectl", "device", "install", "app", "--device"]);
                args.push(identifier.clone());
                args.push(opts.info.app_path.clone());
                assert(string_views(args@) =~= seq![
                    "devicectl"@,
                    "device"@,
                    "install"@,
                    "app"@,
                    "--device"@,
                    identifier@,
                    o.app_path,
                ]);
                LaunchStep {
                    stage: LaunchStage::DevInstalled,
                    action: xcrun_action(args, Vec::new(), RunMode::Capture),
                }
            },
            _ => unexpected_event(),
        },
        LaunchStage::DevInstalled => match event {
            LaunchEvent::Ran { success, .. } => if !success {
                finish_with(LaunchOutcome::CommandFailed { context: None })
            } else if opts.install_only {
                note(LaunchStage::Finishing, owned("Install-only: app installed, skipping launch"))
            } else {
                let args = strings(&["xcodebuild", "-version"]);
                assert(string_views(args@) =~= seq!["xcodebuild"@, "-version"@]);
                LaunchStep {
                    stage: LaunchStage::DevVersion,
                    action: xcrun_action(args, Vec::new(), RunMode::Capture),
                }
            },
            _ => unexpected_event(),
        },
        LaunchStage::DevVersion => match event {
            LaunchEvent::Ran { success, output } => {
                let console = success && match xcode_major_version(output.as_str()) {
                    Some(v) => v >= 16,
                    None => false,
                };
                LaunchStep {
                    stage: LaunchStage::DevTempFile { console },
                    action: LaunchAction::CreateTempFile,
                }
            },
            _ => unexpected_event(),
        },
        LaunchStage::DevTempFile { console } => match event {
            LaunchEvent::TempFile(Some(report)) => note(
                LaunchStage::DevLaunchNoted { console, report },
                str_concat3("Launching ", opts.info.bundle_id.as_str(), "..."),
            ),
            LaunchEvent::TempFile(None) => finish_with(LaunchOutcome::TempFileFailed),
            _ => unexpected_event(),
        },
        LaunchStage::DevLaunchNoted { console, report } => match (event, opts.dest) {
            (LaunchEvent::Noted, Destination::Device { identifier, .. }) => {
                let mut args = strings(&["devicectl", "device", "process", "launch"]);
                let ghost a0 = string_views(args@);
                if console {
                    args.push(owned("--console"));
                    assert(string_views(args@) =~= a0 + seq!["--console"@]);
                } else {
                    assert(string_views(args@) =~= a0 + Seq::<Seq<char>>::empty());
                }
                let ghost a1 = string_views(args@);
                args.push(owned("--json-output"));
                args.push(report.clone());
                args.push(owned("--terminate-existing"));
                args.push(owned("--device"));
                args.push(identifier.clone());
                args.push(opts.info.bundle_id.clone());
                assert(string_views(args@) =~= a1 + seq![
                    "--json-output"@,
                    report@,
                    "--terminate-existing"@,
                    "--device"@,
                    identifier@,
                    o.bundle_id,
                ]);
                push_all(&mut args, opts.args);
                let env = prefix_env("DEVICECTL_CHILD_", opts.env);
                assert(string_views(args@) =~= device_launch_args(o, identifier@, console, report@));
                LaunchStep {
                    stage: LaunchStage::DevLaunched { report },
                    action: xcrun_action(args, env, RunMode::Inherit),
                }
            },
            _ => unexpected_event(),
        },
        LaunchStage::DevLaunched { report } => match event {
            LaunchEvent::Ran { success, .. } => if success {
                LaunchStep { stage: LaunchStage::DevPid, action: LaunchAction::ReadPid { path: report } }
            } else {
                finish_with(
                    LaunchOutcome::CommandFailed { context: Some(owned("devicectl launch failed")) },
                )
            },
            _ => unexpected_event(),
        },
        LaunchStage::DevPid => match event {
            LaunchEvent::Pid(Some(pid)) => {
                let digits = crate::text::u64_to_decimal(pid);
                note(LaunchStage::Finishing, str_concat("App launched with PID: ", digits.as_str()))
            },
            LaunchEvent::Pid(None) => finish_with(LaunchOutcome::Success),
            _ => unexpected_event(),
        },
        LaunchStage::Finishing => match event {
            LaunchEvent::Noted => finish_with(LaunchOutcome::Success),
            _ => unexpected_event(),
        },
        LaunchStage::Finished => unexpected_event(),
    }
}

} // verus!

verus! {

// ---------------------------------------------------------------------------
// Laws
// ---------------------------------------------------------------------------

/// How far a stage is from the end of a launch.
pub open spec fn stage_rank(s: StageModel) -> nat {
    match s {
        StageModel::Start => 30,
        StageModel::SimBooted => 27,
        StageModel::SimOpened => 26,
        StageModel::SimInstallNoted => 25,
        StageModel::SimInstalled => 24,
        StageModel::SimLaunchNoted => 23,
        StageModel::SimLaunched => 22,
        StageModel::DevInstallNoted => 19,
        StageModel::DevInstalled => 18,
        StageModel::DevVersion => 17,
        StageModel::DevTempFile { .. } => 16,
        StageModel::DevLaunchNoted { .. } => 15,
        StageModel::DevLaunched { .. } => 14,
        StageModel::DevPid => 13,
        StageModel::MacChecked => 12,
        StageModel::MacNoted => 11,
        StageModel::MacRan => 10,
        StageModel::Finishing => 1,
        StageModel::Finished => 0,
    }
}

/// Every launch ends: each step either finishes (and stays finished) or
/// moves to a stage closer to the end, whatever the answers to the actions.
pub proof fn lemma_launch_progress(o: OptionsModel, stage: StageModel, event: EventModel)
    ensures
        launch_step_spec(o, stage, event).1 is Finish ==> launch_step_spec(o, stage, event).0
            is Finished,
        !(launch_step_spec(o, stage, event).1 is Finish) ==> stage_rank(
            launch_step_spec(o, stage, event).0,
        ) < stage_rank(stage),
{
}

/// What holds of every stage that a launch reaches from `Start`: a stage of
/// one destination kind is reached only for that kind, and with
/// `install_only` no stage after the install is reached.
pub open spec fn launch_invariant(o: OptionsModel, stage: StageModel) -> bool {
    &&& match stage {
        StageModel::MacChecked | StageModel::MacNoted | StageModel::MacRan => o.dest is MacOS,
        StageModel::SimBooted
        | StageModel::SimOpened
        | StageModel::SimInstallNoted
        | StageModel::SimInstalled
        | StageModel::SimLaunchNoted
        | StageModel::SimLaunched => o.dest is Simulator,
        StageModel::DevInstallNoted
        | StageModel::DevInstalled
        | StageModel::DevVersion
        | StageModel::DevTempFile { .. }
        | StageModel::DevLaunchNoted { .. }
        | StageModel::DevLaunched { .. }
        | StageModel::DevPid => o.dest is Device,
        _ => true,
    }
    &&& o.install_only ==> match stage {
        StageModel::MacNoted
        | StageModel::MacRan
        | StageModel::SimLaunchNoted
        | StageModel::SimLaunched
        | StageModel::DevVersion
        | StageModel::DevTempFile { .. }
        | StageModel::DevLaunchNoted { .. }
        | StageModel::DevLaunched { .. }
        | StageModel::DevPid => false,
        _ => true,
    }
}

/// The invariant holds at the start and is kept by every step.
pub proof fn lemma_launch_invariant(o: OptionsModel, stage: StageModel, event: EventModel)
    ensures
        launch_invariant(o, StageModel::Start),
        launch_invariant(o, stage) ==> launch_invariant(o, launch_step_spec(o, stage, event).0),
{
}

/// With `install_only`, the app is never launched: no step runs a command
/// that takes over the terminal (the app itself, `simctl launch` or
/// `devicectl device process launch`); the installs and the other tools run
/// with their output captured or ignored.
pub proof fn lemma_install_only_never_launches(
    o: OptionsModel,
    stage: StageModel,
    event: EventModel,
)
    requires
        o.install_only,
        launch_invariant(o, stage),
    ensures
        !(launch_step_spec(o, stage, event).1 matches ActionModel::Run(_, mode) && mode
            == RunMode::Inherit),
{
}

/// The environment given to an app launched on a simulator or a device is
/// the requested one, each key prefixed so that the launcher hands it to the
/// app (`SIMCTL_CHILD_`, `DEVICECTL_CHILD_`); on the Mac it is given as is.
pub proof fn lemma_launch_environment(o: OptionsModel, stage: StageModel, event: EventModel)
    requires
        launch_invariant(o, stage),
    ensures
        match launch_step_spec(o, stage, event).1 {
            ActionModel::Run(cmd, RunMode::Inherit) => cmd.env == match o.dest {
                DestinationModel::Simulator { .. } => prefixed_env("SIMCTL_CHILD_"@, o.env),
                DestinationModel::Device { .. } => prefixed_env("DEVICECTL_CHILD_"@, o.env),
                DestinationModel::MacOS { .. } => o.env,
            },
            _ => true,
        },
{
}

/// On a simulator, how `simctl boot` and `open` end does not matter: the
/// simulator may already be booted, so whatever the boot run answers, the
/// launch goes on to open Simulator.app (`open -a Simulator`, with `-g` to
/// keep it in the background), and whatever that answers, to the install.
pub proof fn lemma_simulator_boot_failure_ignored(
    o: OptionsModel,
    success: bool,
    output: Seq<char>,
)
    requires
        o.dest is Simulator,
    ensures
        launch_step_spec(o, StageModel::SimBooted, EventModel::Ran { success, output }) == (
            StageModel::SimOpened,
            ActionModel::Run(
                CommandModel {
                    program: "open"@,
                    args: if o.foreground_simulator {
                        seq!["-a"@, "Simulator"@]
                    } else {
                        seq!["-g"@, "-a"@, "Simulator"@]
                    },
                    env: Seq::empty(),
                    current_dir: None,
                },
                RunMode::Status,
            ),
        ),
        launch_step_spec(o, StageModel::SimOpened, EventModel::Ran { success, output }).0
            == StageModel::SimInstallNoted,
        !(launch_step_spec(o, StageModel::SimBooted, EventModel::Ran { success, output }).1 is Finish),
        !(launch_step_spec(o, StageModel::SimOpened, EventModel::Ran { success, output }).1 is Finish),
{
}

} // verus!
