//! Workspaces: `.xcworkspace` bundles, SPM `Package.swift` and Tuist
//! `Project.swift` manifests.
use vstd::prelude::*;

use crate::command::ToolCommand;
use crate::error::XcraftError;
use crate::paths::{
    extension, extension_spec, file_name, parent, path_file_name, path_has_prefix, path_parent,
    path_starts_with, path_equal, same_path,
};
use crate::select::{is_default_position, Prompt, Resolution};
use crate::text::{str_concat, ends_with, owned, str_eq, string_views};

verus! {

/// The type of Xcode workspace.
#[derive(Debug, Clone, Copy, PartialEq, Eq, Structural)]
pub enum WorkspaceType {
    Xcode,
    Spm,
    Tuist,
}

/// A detected workspace path with its type.
#[derive(Debug)]
pub struct Workspace {
    pub path: String,
    pub ws_type: WorkspaceType,
}

impl WorkspaceType {
    /// The name under which the type is shown.
    pub open spec fn name_spec(self) -> Seq<char> {
        match self {
            WorkspaceType::Xcode => "Xcode"@,
            WorkspaceType::Spm => "SPM"@,
            WorkspaceType::Tuist => "Tuist"@,
        }
    }

    /// The name under which the type is shown (`Xcode`, `SPM` or `Tuist`).
    pub fn name(&self) -> (r: String)
        ensures
            r@ == self.name_spec(),
    {
        match self {
            WorkspaceType::Xcode => owned("Xcode"),
            WorkspaceType::Spm => owned("SPM"),
            WorkspaceType::Tuist => owned("Tuist"),
        }
    }

    /// The key under which the type is listed in JSON output.
    pub open spec fn key_spec(self) -> Seq<char> {
        match self {
            WorkspaceType::Xcode => "xcode"@,
            WorkspaceType::Spm => "spm"@,
            WorkspaceType::Tuist => "tuist"@,
        }
    }

    /// The key under which the type is listed in JSON output (`xcode`, `spm`
    /// or `tuist`).
    pub fn key(&self) -> (r: String)
        ensures
            r@ == self.key_spec(),
    {
        match self {
            WorkspaceType::Xcode => owned("xcode"),
            WorkspaceType::Spm => owned("spm"),
            WorkspaceType::Tuist => owned("tuist"),
        }
    }
}

/// The type of a workspace whose file name is `name`.
pub open spec fn type_for_name(name: Option<Seq<char>>) -> WorkspaceType {
    match name {
        Some(n) => if n == "Package.swift"@ {
            WorkspaceType::Spm
        } else if n == "Project.swift"@ {
            WorkspaceType::Tuist
        } else {
            WorkspaceType::Xcode
        },
        None => WorkspaceType::Xcode,
    }
}

/// The type of the workspace at `path`, decided by its file name.
pub open spec fn detect_type_spec(path: Seq<char>) -> WorkspaceType {
    type_for_name(path_file_name(path))
}

/// What `working_dir` returns for a workspace at `path`: its parent
/// directory, or the path itself when it has none.
pub open spec fn working_dir_spec(path: Seq<char>) -> Seq<char> {
    match path_parent(path) {
        Some(p) => p,
        None => path,
    }
}

/// How a workspace is shown: `[<type>] <path>`.
pub open spec fn label_spec(ws: Workspace) -> Seq<char> {
    "["@ + ws.ws_type.name_spec() + "] "@ + ws.path@
}

/// Whether a path found while searching is a workspace candidate: a
/// `Package.swift`, a `Project.swift`, or an `.xcworkspace` that does not
/// begin with a `.` component.
pub open spec fn is_candidate_spec(path: Seq<char>) -> bool {
    match path_file_name(path) {
        Some(n) => {
            ||| n == "Package.swift"@
            ||| n == "Project.swift"@
            ||| (".xcworkspace"@.is_suffix_of(n) && !path_starts_with(path, "."@))
        },
        None => false,
    }
}

/// The workspace type for a file name, as `detect_type` decides it.
pub fn workspace_type_for_name(name: Option<&str>) -> (r: WorkspaceType)
    ensures
        r == type_for_name(
            match name {
                Some(n) => Some(n@),
                None => None,
            },
        ),
{
    match name {
        Some(n) => {
            if str_eq(n, "Package.swift") {
                WorkspaceType::Spm
            } else if str_eq(n, "Project.swift") {
                WorkspaceType::Tuist
            } else {
                WorkspaceType::Xcode
            }
        },
        None => WorkspaceType::Xcode,
    }
}

/// The type of the workspace at `path`.
pub fn detect_type(path: &str) -> (r: WorkspaceType)
    ensures
        r == detect_type_spec(path@),
{
    let name = file_name(path);
    match name {
        Some(n) => workspace_type_for_name(Some(n.as_str())),
        None => workspace_type_for_name(None),
    }
}

impl Workspace {
    /// The workspace at `path`, typed by its file name.
    pub fn new(path: String) -> (r: Self)
        ensures
            r.path@ == path@,
            r.ws_type == detect_type_spec(path@),
    {
        let ws_type = detect_type(path.as_str());
        Workspace { path, ws_type }
    }

    /// For SPM projects, the directory containing Package.swift.
    /// For Xcode projects, the parent directory of the .xcworkspace.
    pub fn working_dir(&self) -> (r: String)
        ensures
            r@ == working_dir_spec(self.path@),
    {
        match parent(self.path.as_str()) {
            Some(p) => p,
            None => self.path.clone(),
        }
    }

    /// A copy of this workspace.
    pub fn duplicate(&self) -> (r: Self)
        ensures
            r.path@ == self.path@,
            r.ws_type == self.ws_type,
    {
        Workspace { path: self.path.clone(), ws_type: self.ws_type }
    }

    /// How the workspace is shown: `[<type>] <path>`.
    pub fn label(&self) -> (r: String)
        ensures
            r@ == label_spec(*self),
    {
        let open = str_concat("[", self.ws_type.name().as_str());
        let head = str_concat(open.as_str(), "] ");
        str_concat(head.as_str(), self.path.as_str())
    }

    /// For Tuist workspaces, the `tuist generate` run that yields the Xcode
    /// workspace; for other types, a copy of self.
    pub fn ensure_generated(&self) -> (r: Generation)
        ensures
            self.ws_type == WorkspaceType::Tuist ==> (r matches Generation::Generate(cmd) && {
                &&& cmd.program@ == "tuist"@
                &&& string_views(cmd.args@) == seq![
                    "generate"@,
                    "--no-open"@,
                    "--path"@,
                    working_dir_spec(self.path@),
                ]
                &&& cmd.env@.len() == 0
                &&& cmd.current_dir is None
            }),
            self.ws_type != WorkspaceType::Tuist ==> (r matches Generation::Ready(ws) && ws.path@
                == self.path@ && ws.ws_type == self.ws_type),
    {
        match self.ws_type {
            WorkspaceType::Tuist => {
                let dir = self.working_dir();
                let mut args: Vec<String> = Vec::new();
                args.push(owned("generate"));
                args.push(owned("--no-open"));
                args.push(owned("--path"));
                args.push(dir);
                let cmd = ToolCommand {
                    program: owned("tuist"),
                    args,
                    env: Vec::new(),
                    current_dir: None,
                };
                assert(string_views(cmd.args@) =~= seq![
                    "generate"@,
                    "--no-open"@,
                    "--path"@,
                    working_dir_spec(self.path@),
                ]);
                Generation::Generate(cmd)
            },
            _ => Generation::Ready(self.duplicate()),
        }
    }
}

/// What `ensure_generated` asks for.
pub enum Generation {
    /// The workspace can be used as it is.
    Ready(Workspace),
    /// The command must run first; `generated_workspace` then finds its result.
    Generate(ToolCommand),
}

/// The first of `entries` (the paths in the project directory after
/// `tuist generate`) whose extension is `xcworkspace`, as an Xcode workspace.
pub fn generated_workspace(dir: &str, entries: Vec<String>) -> (r: Result<Workspace, XcraftError>)
    ensures
        match r {
            Ok(ws) => exists|i: int|
                0 <= i < entries.len() && extension_spec(#[trigger] entries@[i]@) == Some(
                    "xcworkspace"@,
                ) && ws.path@ == entries@[i]@ && ws.ws_type == WorkspaceType::Xcode && forall|
                    j: int,
                | 0 <= j < i ==> extension_spec(#[trigger] entries@[j]@) != Some("xcworkspace"@),
            Err(e) => e == XcraftError::NoGeneratedWorkspace { dir: e->dir } && e->dir@ == dir@
                && forall|j: int|
                0 <= j < entries.len() ==> extension_spec(#[trigger] entries@[j]@) != Some(
                    "xcworkspace"@,
                ),
        },
{
    let mut i: usize = 0;
    while i < entries.len()
        invariant
            i <= entries.len(),
            forall|j: int|
                0 <= j < i ==> extension_spec(#[trigger] entries@[j]@) != Some("xcworkspace"@),
        decreases entries.len() - i,
    {
        let ext = extension(entries[i].as_str());
        let hit = match ext {
            Some(e) => str_eq(e.as_str(), "xcworkspace"),
            None => false,
        };
        if hit {
            let ws = Workspace { path: entries[i].clone(), ws_type: WorkspaceType::Xcode };
            return Ok(ws);
        }
        i = i + 1;
    }
    Err(XcraftError::NoGeneratedWorkspace { dir: owned(dir) })
}

/// Whether `path`, found while searching, is a workspace candidate.
pub fn is_candidate(path: &str) -> (r: bool)
    ensures
        r == is_candidate_spec(path@),
{
    match file_name(path) {
        Some(n) => {
            str_eq(n.as_str(), "Package.swift") || str_eq(n.as_str(), "Project.swift") || (
            ends_with(n.as_str(), ".xcworkspace") && !path_has_prefix(path, "."))
        },
        None => false,
    }
}

/// The workspace candidates among `paths`, the entries found under the
/// search root (depth <= 4), in the order found.
pub fn detect_workspaces(paths: Vec<String>) -> (r: Vec<Workspace>)
    ensures
        r@.map_values(|w: Workspace| w.path@) == paths@.map_values(|p: String| p@).filter(
            |p: Seq<char>| is_candidate_spec(p),
        ),
        forall|i: int|
            0 <= i < r.len() ==> #[trigger] r@[i].ws_type == detect_type_spec(r@[i].path@),
{
    let ghost pred = |p: Seq<char>| is_candidate_spec(p);
    let ghost all = paths@.map_values(|p: String| p@);
    let mut r: Vec<Workspace> = Vec::new();
    let mut i: usize = 0;
    while i < paths.len()
        invariant
            i <= paths.len(),
            all == paths@.map_values(|p: String| p@),
            pred == (|p: Seq<char>| is_candidate_spec(p)),
            r@.map_values(|w: Workspace| w.path@) == all.take(i as int).filter(pred),
            forall|k: int|
                0 <= k < r.len() ==> #[trigger] r@[k].ws_type == detect_type_spec(r@[k].path@),
        decreases paths.len() - i,
    {
        proof {
            reveal_with_fuel(Seq::<_>::filter, 1);
            assert(all.take(i + 1).drop_last() =~= all.take(i as int));
            assert(all.take(i + 1).last() == paths@[i as int]@);
        }
        if is_candidate(paths[i].as_str()) {
            let ws = Workspace::new(paths[i].clone());
            let ghost before = r@;
            r.push(ws);
            assert(r@.map_values(|w: Workspace| w.path@) =~= before.map_values(
                |w: Workspace| w.path@,
            ).push(ws.path@));
        }
        i = i + 1;
    }
    assert(all.take(paths.len() as int) =~= all);
    r
}

/// The index that a prompt over `candidates` starts at: the first candidate
/// whose path equals `default`, else 0.
pub open spec fn workspace_default_index(
    candidates: Seq<Workspace>,
    default: Option<Seq<char>>,
    i: int,
) -> bool {
    match default {
        Some(d) => is_default_position(candidates, |w: Workspace| path_equal(w.path@, d), i),
        None => i == 0,
    }
}

/// Resolve the workspace: the explicit path if given; otherwise, among the
/// candidates found under the current directory, the only one, or the one
/// the user picks (starting at the one whose path is `default`).
pub fn resolve_workspace(
    explicit: Option<&str>,
    default: Option<&str>,
    candidates: Option<Vec<Workspace>>,
) -> (r: Resolution<Workspace>)
    ensures
        explicit matches Some(p) ==> (r matches Resolution::Chosen(ws) && ws.path@ == p@
            && ws.ws_type == detect_type_spec(p@)),
        explicit is None ==> match candidates {
            None => r is NeedCandidates,
            Some(c) => {
            &&& c.len() == 0 ==> r == Resolution::<Workspace>::Failed(XcraftError::NoWorkspaceFound)
            &&& c.len() == 1 ==> r == Resolution::Chosen(c@[0])
            &&& c.len() > 1 ==> (r matches Resolution::Ask(p) && {
                &&& p.items@ == c@
                &&& p.labels.len() == c.len()
                &&& forall|i: int| 0 <= i < c.len() ==> #[trigger] p.labels@[i]@ == label_spec(c@[i])
                &&& workspace_default_index(
                    c@,
                    match default {
                        Some(d) => Some(d@),
                        None => None,
                    },
                    p.default_index as int,
                )
            })
            },
        },
{
    if let Some(p) = explicit {
        return Resolution::Chosen(Workspace::new(owned(p)));
    }
    let candidates = match candidates {
        Some(c) => c,
        None => return Resolution::NeedCandidates,
    };
    if candidates.len() == 0 {
        return Resolution::Failed(XcraftError::NoWorkspaceFound);
    }
    if candidates.len() == 1 {
        let mut c = candidates;
        let only = c.remove(0);
        return Resolution::Chosen(only);
    }
    let mut labels: Vec<String> = Vec::new();
    let mut i: usize = 0;
    while i < candidates.len()
        invariant
            i <= candidates.len(),
            labels.len() == i,
            forall|k: int| 0 <= k < i ==> #[trigger] labels@[k]@ == label_spec(candidates@[k]),
        decreases candidates.len() - i,
    {
        labels.push(candidates[i].label());
        i = i + 1;
    }
    let mut default_index: usize = 0;
    if let Some(d) = default {
        let ghost pred = |w: Workspace| path_equal(w.path@, d@);
        let mut j: usize = 0;
        let mut found = false;
        while j < candidates.len() && !found
            invariant
                j <= candidates.len(),
                pred == (|w: Workspace| path_equal(w.path@, d@)),
                found ==> j < candidates.len() && pred(candidates@[j as int]),
                forall|k: int| 0 <= k < j ==> !#[trigger] pred(candidates@[k]),
            decreases candidates.len() - j + (if found { 0int } else { 1int }),
        {
            if same_path(candidates[j].path.as_str(), d) {
                found = true;
            } else {
                j = j + 1;
            }
        }
        if found {
            default_index = j;
        }
    }
    Resolution::Ask(Prompt { items: candidates, labels, default_index })
}

} // verus!
