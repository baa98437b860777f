//! Schemes and build configurations of a workspace.
use vstd::prelude::*;

use crate::command::ToolCommand;
use crate::error::XcraftError;
use crate::select::{is_default_position, Prompt, Resolution};
use crate::text::{contains_string, opt_str_view, owned, str_eq, string_views};
use crate::workspace::{working_dir_spec, Workspace, WorkspaceType};

verus! {

// ---------------------------------------------------------------------------
// SPM
// ---------------------------------------------------------------------------

/// A product of `swift package dump-package`.
pub struct SpmProduct {
    pub name: String,
    /// The keys of the product's `type` object; `None` when `type` is not an
    /// object.
    pub type_keys: Option<Vec<String>>,
}

/// A target of `swift package dump-package`.
pub struct SpmTarget {
    pub name: String,
    pub target_type: Option<String>,
}

/// The package description of `swift package dump-package`.
pub struct SpmPackage {
    pub name: String,
    pub products: Vec<SpmProduct>,
    pub targets: Vec<SpmTarget>,
}

/// Whether a product is an executable or a library.
pub open spec fn is_scheme_product(p: SpmProduct) -> bool {
    match p.type_keys {
        Some(keys) => string_views(keys@).contains("executable"@) || string_views(keys@).contains(
            "library"@,
        ),
        None => false,
    }
}

/// Whether a target is an executable.
pub open spec fn is_executable_target(t: SpmTarget) -> bool {
    t.target_type matches Some(k) && k@ == "executable"@
}

/// The names of the executable and library products, in order.
pub open spec fn product_schemes(products: Seq<SpmProduct>) -> Seq<Seq<char>>
    decreases products.len(),
{
    if products.len() == 0 {
        Seq::empty()
    } else {
        let rest = product_schemes(products.drop_last());
        if is_scheme_product(products.last()) {
            rest.push(products.last().name@)
        } else {
            rest
        }
    }
}

/// `acc` followed by the names of the executable targets that are not yet
/// in it, in order.
pub open spec fn add_target_schemes(acc: Seq<Seq<char>>, targets: Seq<SpmTarget>) -> Seq<Seq<char>>
    decreases targets.len(),
{
    if targets.len() == 0 {
        acc
    } else {
        let rest = add_target_schemes(acc, targets.drop_last());
        let t = targets.last();
        if is_executable_target(t) && !rest.contains(t.name@) {
            rest.push(t.name@)
        } else {
            rest
        }
    }
}

/// The schemes of an SPM package: its executable and library products, then
/// its executable targets not already named; the package name when there is
/// none.
pub open spec fn spm_schemes_spec(pkg: SpmPackage) -> Seq<Seq<char>> {
    let s = add_target_schemes(product_schemes(pkg.products@), pkg.targets@);
    if s.len() == 0 {
        seq![pkg.name@]
    } else {
        s
    }
}

/// Adding targets keeps what was there and names every executable target.
pub proof fn lemma_add_target_schemes(acc: Seq<Seq<char>>, targets: Seq<SpmTarget>)
    ensures
        acc.is_prefix_of(add_target_schemes(acc, targets)),
        forall|i: int|
            0 <= i < targets.len() && is_executable_target(#[trigger] targets[i]) ==> add_target_schemes(
                acc,
                targets,
            ).contains(targets[i].name@),
    decreases targets.len(),
{
    if targets.len() > 0 {
        lemma_add_target_schemes(acc, targets.drop_last());
        let rest = add_target_schemes(acc, targets.drop_last());
        let t = targets.last();
        let all = add_target_schemes(acc, targets);
        assert(rest.is_prefix_of(all));
        assert forall|i: int|
            0 <= i < targets.len() && is_executable_target(#[trigger] targets[i]) implies all.contains(
            targets[i].name@,
        ) by {
            if i < targets.len() - 1 {
                assert(targets.drop_last()[i] == targets[i]);
                let k = choose|k: int| 0 <= k < rest.len() && rest[k] == targets[i].name@;
                assert(all[k] == rest[k]);
            } else if rest.contains(t.name@) {
                let k = choose|k: int| 0 <= k < rest.len() && rest[k] == t.name@;
                assert(all[k] == rest[k]);
            } else {
                assert(all[all.len() - 1] == t.name@);
            }
        }
    }
}

/// The schemes of an SPM package (see `spm_schemes_spec`). There is always at
/// least one, and every executable target is among them.
pub fn spm_schemes(pkg: &SpmPackage) -> (r: Vec<String>)
    ensures
        string_views(r@) == spm_schemes_spec(*pkg),
        r.len() > 0,
        forall|i: int|
            0 <= i < pkg.targets.len() && is_executable_target(#[trigger] pkg.targets@[i])
                ==> string_views(r@).contains(pkg.targets@[i].name@),
{
    let mut schemes: Vec<String> = Vec::new();
    let mut i: usize = 0;
    while i < pkg.products.len()
        invariant
            i <= pkg.products.len(),
            string_views(schemes@) == product_schemes(pkg.products@.take(i as int)),
        decreases pkg.products.len() - i,
    {
        let p = &pkg.products[i];
        assert(pkg.products@.take(i + 1).drop_last() =~= pkg.products@.take(i as int));
        assert(pkg.products@.take(i + 1).last() == *p);
        let keep = match &p.type_keys {
            Some(keys) => contains_string(keys, "executable") || contains_string(keys, "library"),
            None => false,
        };
        if keep {
            let ghost before = schemes@;
            schemes.push(p.name.clone());
            assert(string_views(schemes@) =~= string_views(before).push(p.name@));
        }
        i = i + 1;
    }
    assert(pkg.products@.take(pkg.products.len() as int) =~= pkg.products@);
    let ghost base = string_views(schemes@);
    let mut j: usize = 0;
    while j < pkg.targets.len()
        invariant
            j <= pkg.targets.len(),
            base == product_schemes(pkg.products@),
            string_views(schemes@) == add_target_schemes(base, pkg.targets@.take(j as int)),
        decreases pkg.targets.len() - j,
    {
        let t = &pkg.targets[j];
        assert(pkg.targets@.take(j + 1).drop_last() =~= pkg.targets@.take(j as int));
        assert(pkg.targets@.take(j + 1).last() == *t);
        let executable = match &t.target_type {
            Some(k) => str_eq(k.as_str(), "executable"),
            None => false,
        };
        if executable && !contains_string(&schemes, t.name.as_str()) {
            let ghost before = schemes@;
            schemes.push(t.name.clone());
            assert(string_views(schemes@) =~= string_views(before).push(t.name@));
        }
        j = j + 1;
    }
    assert(pkg.targets@.take(pkg.targets.len() as int) =~= pkg.targets@);
    proof {
        lemma_add_target_schemes(base, pkg.targets@);
    }
    if schemes.len() == 0 {
        schemes.push(pkg.name.clone());
        assert(string_views(schemes@) =~= seq![pkg.name@]);
    }
    proof {
        assert forall|i: int|
            0 <= i < pkg.targets.len() && is_executable_target(
                #[trigger] pkg.targets@[i],
            ) implies string_views(schemes@).contains(pkg.targets@[i].name@) by {
            assert(add_target_schemes(base, pkg.targets@).contains(pkg.targets@[i].name@));
        }
    }
    schemes
}

// ---------------------------------------------------------------------------
// Xcode
// ---------------------------------------------------------------------------

/// The schemes part of `xcodebuild -list -json`: the `schemes` of its
/// `workspace` and of its `project` object, each when present.
pub struct SchemeList {
    pub workspace: Option<Vec<String>>,
    pub project: Option<Vec<String>>,
}

/// The schemes of an Xcode workspace: those of the `workspace` object, else
/// those of the `project` object, else none.
pub open spec fn xcode_scheme_names(list: SchemeList) -> Seq<Seq<char>> {
    match list.workspace {
        Some(s) => string_views(s@),
        None => match list.project {
            Some(s) => string_views(s@),
            None => Seq::empty(),
        },
    }
}

/// The schemes that `xcodebuild -list -json` reports; an error when there is
/// none.
pub fn xcode_schemes(list: SchemeList) -> (r: Result<Vec<String>, XcraftError>)
    ensures
        xcode_scheme_names(list).len() == 0 ==> r == Err::<Vec<String>, XcraftError>(
            XcraftError::NoSchemesInWorkspace,
        ),
        xcode_scheme_names(list).len() > 0 ==> (r matches Ok(s) && string_views(s@)
            == xcode_scheme_names(list)),
{
    let schemes = match list.workspace {
        Some(s) => s,
        None => match list.project {
            Some(s) => s,
            None => Vec::new(),
        },
    };
    if schemes.len() == 0 {
        return Err(XcraftError::NoSchemesInWorkspace);
    }
    Ok(schemes)
}

/// The configurations part of an `xcodebuild -list -json` object.
pub struct ConfigInner {
    pub configurations: Option<Vec<String>>,
}

/// The configurations part of `xcodebuild -list -json`.
pub struct ConfigList {
    pub workspace: Option<ConfigInner>,
    pub project: Option<ConfigInner>,
}

/// `Debug` and `Release`, the configurations assumed when none are listed.
pub open spec fn standard_configurations() -> Seq<Seq<char>> {
    seq!["Debug"@, "Release"@]
}

/// The configurations of an Xcode workspace: those listed in the `workspace`
/// object if it is present, else in the `project` object; `Debug` and
/// `Release` when the chosen object lists none.
pub open spec fn xcode_configurations_spec(list: ConfigList) -> Seq<Seq<char>> {
    let inner = match list.workspace {
        Some(w) => Some(w),
        None => list.project,
    };
    match inner {
        Some(i) => match i.configurations {
            Some(c) => string_views(c@),
            None => standard_configurations(),
        },
        None => standard_configurations(),
    }
}

fn standard_configuration_names() -> (r: Vec<String>)
    ensures
        string_views(r@) == standard_configurations(),
{
    let mut v: Vec<String> = Vec::new();
    v.push(owned("Debug"));
    v.push(owned("Release"));
    assert(string_views(v@) =~= standard_configurations());
    v
}

/// The configurations that `xcodebuild -list -json` reports.
pub fn xcode_configurations(list: ConfigList) -> (r: Vec<String>)
    ensures
        string_views(r@) == xcode_configurations_spec(list),
{
    let inner = match list.workspace {
        Some(w) => Some(w),
        None => list.project,
    };
    match inner {
        Some(i) => match i.configurations {
            Some(c) => c,
            None => standard_configuration_names(),
        },
        None => standard_configuration_names(),
    }
}

// ---------------------------------------------------------------------------
// Queries
// ---------------------------------------------------------------------------

/// How the schemes of a workspace are found.
pub enum SchemeQuery {
    /// Run the command and read its output with `spm_schemes`.
    Spm(ToolCommand),
    /// Run the command and read its output with `xcode_schemes`.
    Xcode(ToolCommand),
}

/// List available schemes for a workspace: the command whose output holds
/// them. Tuist workspaces are generated first (`ensure_generated`).
pub fn list_schemes(ws: &Workspace) -> (r: SchemeQuery)
    requires
        ws.ws_type != WorkspaceType::Tuist,
    ensures
        ws.ws_type == WorkspaceType::Spm ==> (r matches SchemeQuery::Spm(cmd) && {
            &&& cmd.program@ == "swift"@
            &&& string_views(cmd.args@) == seq!["package"@, "dump-package"@]
            &&& cmd.env@.len() == 0
            &&& cmd.current_dir matches Some(d) && d@ == working_dir_spec(ws.path@)
        }),
        ws.ws_type == WorkspaceType::Xcode ==> (r matches SchemeQuery::Xcode(cmd) && {
            &&& cmd.program@ == "xcodebuild"@
            &&& string_views(cmd.args@) == seq!["-list"@, "-json"@, "-workspace"@, ws.path@]
            &&& cmd.env@.len() == 0
            &&& cmd.current_dir is None
        }),
{
    match ws.ws_type {
        WorkspaceType::Spm => {
            let mut args: Vec<String> = Vec::new();
            args.push(owned("package"));
            args.push(owned("dump-package"));
            assert(string_views(args@) =~= seq!["package"@, "dump-package"@]);
            SchemeQuery::Spm(
                ToolCommand {
                    program: owned("swift"),
                    args,
                    env: Vec::new(),
                    current_dir: Some(ws.working_dir()),
                },
            )
        },
        _ => SchemeQuery::Xcode(xcodebuild_list(ws)),
    }
}

/// `xcodebuild -list -json -workspace <path>`.
fn xcodebuild_list(ws: &Workspace) -> (cmd: ToolCommand)
    ensures
        cmd.program@ == "xcodebuild"@,
        string_views(cmd.args@) == seq!["-list"@, "-json"@, "-workspace"@, ws.path@],
        cmd.env@.len() == 0,
        cmd.current_dir is None,
{
    let mut args: Vec<String> = Vec::new();
    args.push(owned("-list"));
    args.push(owned("-json"));
    args.push(owned("-workspace"));
    args.push(ws.path.clone());
    assert(string_views(args@) =~= seq!["-list"@, "-json"@, "-workspace"@, ws.path@]);
    ToolCommand { program: owned("xcodebuild"), args, env: Vec::new(), current_dir: None }
}

/// How the build configurations of a workspace are found.
pub enum ConfigQuery {
    /// The configurations are known without asking.
    Known(Vec<String>),
    /// Run the command and read its output with `xcode_configurations`.
    Xcode(ToolCommand),
}

/// List available build configurations for a workspace: `Debug` and
/// `Release` for SPM, else the command whose output holds them.
pub fn list_configurations(ws: &Workspace) -> (r: ConfigQuery)
    requires
        ws.ws_type != WorkspaceType::Tuist,
    ensures
        ws.ws_type == WorkspaceType::Spm ==> (r matches ConfigQuery::Known(c) && string_views(c@)
            == standard_configurations()),
        ws.ws_type == WorkspaceType::Xcode ==> (r matches ConfigQuery::Xcode(cmd) && {
            &&& cmd.program@ == "xcodebuild"@
            &&& string_views(cmd.args@) == seq!["-list"@, "-json"@, "-workspace"@, ws.path@]
            &&& cmd.env@.len() == 0
            &&& cmd.current_dir is None
        }),
{
    match ws.ws_type {
        WorkspaceType::Spm => ConfigQuery::Known(standard_configuration_names()),
        _ => ConfigQuery::Xcode(xcodebuild_list(ws)),
    }
}

// ---------------------------------------------------------------------------
// Resolution
// ---------------------------------------------------------------------------

/// The index that a prompt over `names` starts at: the first name equal to
/// `default`, else 0.
pub open spec fn name_default_index(names: Seq<String>, default: Option<Seq<char>>, i: int) -> bool {
    match default {
        Some(d) => is_default_position(names, |s: String| s@ == d, i),
        None => i == 0,
    }
}

/// A prompt over `names`, starting at the first one equal to `default`.
fn name_prompt(names: Vec<String>, default: Option<&str>) -> (p: Prompt<String>)
    ensures
        p.items@ == names@,
        p.labels.len() == names.len(),
        forall|i: int| 0 <= i < names.len() ==> #[trigger] p.labels@[i]@ == names@[i]@,
        name_default_index(names@, opt_str_view(default), p.default_index as int),
{
    let mut labels: Vec<String> = Vec::new();
    let mut i: usize = 0;
    while i < names.len()
        invariant
            i <= names.len(),
            labels.len() == i,
            forall|k: int| 0 <= k < i ==> #[trigger] labels@[k]@ == names@[k]@,
        decreases names.len() - i,
    {
        labels.push(names[i].clone());
        i = i + 1;
    }
    let mut default_index: usize = 0;
    if let Some(d) = default {
        let ghost dv = d@;
        let ghost pred = |s: String| s@ == dv;
        let mut j: usize = 0;
        let mut found = false;
        while j < names.len() && !found
            invariant
                j <= names.len(),
                dv == d@,
                pred == (|s: String| s@ == dv),
                found ==> j < names.len() && pred(names@[j as int]),
                forall|k: int| 0 <= k < j ==> !#[trigger] pred(names@[k]),
            decreases names.len() - j + (if found {
                0int
            } else {
                1int
            }),
        {
            if str_eq(names[j].as_str(), d) {
                found = true;
            } else {
                j = j + 1;
            }
        }
        if found {
            default_index = j;
        }
    }
    Prompt { items: names, labels, default_index }
}

/// Resolve scheme: the explicit name if given; otherwise, among the listed
/// schemes, the only one, or the one the user picks (starting at `default`).
pub fn resolve_scheme(
    explicit: Option<&str>,
    default: Option<&str>,
    candidates: Option<Vec<String>>,
) -> (r: Resolution<String>)
    ensures
        explicit matches Some(s) ==> (r matches Resolution::Chosen(c) && c@ == s@),
        explicit is None ==> match candidates {
            None => r is NeedCandidates,
            Some(c) => {
                &&& c.len() == 0 ==> r == Resolution::<String>::Failed(XcraftError::NoSchemes)
                &&& c.len() == 1 ==> (r matches Resolution::Chosen(s) && s@ == c@[0]@)
                &&& c.len() > 1 ==> (r matches Resolution::Ask(p) && {
                    &&& p.items@ == c@
                    &&& p.labels.len() == c.len()
                    &&& forall|i: int| 0 <= i < c.len() ==> #[trigger] p.labels@[i]@ == c@[i]@
                    &&& name_default_index(c@, opt_str_view(default), p.default_index as int)
                })
            },
        },
{
    if let Some(s) = explicit {
        return Resolution::Chosen(owned(s));
    }
    let schemes = match candidates {
        Some(c) => c,
        None => return Resolution::NeedCandidates,
    };
    if schemes.len() == 0 {
        return Resolution::Failed(XcraftError::NoSchemes);
    }
    if schemes.len() == 1 {
        let mut s = schemes;
        return Resolution::Chosen(s.remove(0));
    }
    Resolution::Ask(name_prompt(schemes, default))
}

/// Whether the configurations are exactly the standard pair: two of them,
/// `Debug` and `Release` among them.
pub open spec fn is_standard_pair(configs: Seq<Seq<char>>) -> bool {
    configs.len() == 2 && configs.contains("Debug"@) && configs.contains("Release"@)
}

/// Resolve configuration: the explicit name if given; otherwise `Debug` when
/// the listed configurations are exactly [Debug, Release] and no default is
/// given; the only one when there is one; else the one the user picks
/// (starting at `default`).
pub fn resolve_configuration(
    explicit: Option<&str>,
    default: Option<&str>,
    candidates: Option<Vec<String>>,
) -> (r: Resolution<String>)
    ensures
        explicit matches Some(s) ==> (r matches Resolution::Chosen(c) && c@ == s@),
        explicit is None ==> match candidates {
            None => r is NeedCandidates,
            Some(c) => if is_standard_pair(string_views(c@)) && default is None {
                r matches Resolution::Chosen(s) && s@ == "Debug"@
            } else if c.len() == 1 {
                r matches Resolution::Chosen(s) && s@ == c@[0]@
            } else {
                r matches Resolution::Ask(p) && {
                    &&& p.items@ == c@
                    &&& p.labels.len() == c.len()
                    &&& forall|i: int| 0 <= i < c.len() ==> #[trigger] p.labels@[i]@ == c@[i]@
                    &&& name_default_index(c@, opt_str_view(default), p.default_index as int)
                }
            },
        },
{
    if let Some(c) = explicit {
        return Resolution::Chosen(owned(c));
    }
    let configs = match candidates {
        Some(c) => c,
        None => return Resolution::NeedCandidates,
    };
    // Default to Debug when the standard pair is available.
    if configs.len() == 2 && contains_string(&configs, "Debug") && contains_string(
        &configs,
        "Release",
    ) && default.is_none() {
        return Resolution::Chosen(owned("Debug"));
    }
    if configs.len() == 1 {
        let mut c = configs;
        return Resolution::Chosen(c.remove(0));
    }
    Resolution::Ask(name_prompt(configs, default))
}

/// The names of the executable and library products are exactly the names
/// of products whose type has one of those keys.
proof fn lemma_product_schemes(products: Seq<SpmProduct>)
    ensures
        forall|k: int|
            0 <= k < product_schemes(products).len() ==> exists|j: int|
                0 <= j < products.len() && #[trigger] product_schemes(products)[k]
                    == products[j].name@ && is_scheme_product(products[j]),
        forall|j: int|
            0 <= j < products.len() && is_scheme_product(#[trigger] products[j])
                ==> product_schemes(products).contains(products[j].name@),
    decreases products.len(),
{
    if products.len() > 0 {
        let init = products.drop_last();
        lemma_product_schemes(init);
        let rest = product_schemes(init);
        let all = product_schemes(products);
        let n = products.len() - 1;
        assert forall|k: int| 0 <= k < all.len() implies exists|j: int|
            0 <= j < products.len() && #[trigger] all[k] == products[j].name@ && is_scheme_product(
                products[j],
            ) by {
            if k < rest.len() {
                assert(all[k] == rest[k]);
                let j = choose|j: int|
                    0 <= j < init.len() && #[trigger] rest[k] == init[j].name@ && is_scheme_product(
                        init[j],
                    );
                assert(init[j] == products[j]);
            } else {
                assert(all[k] == products[n].name@);
            }
        }
        assert forall|j: int|
            0 <= j < products.len() && is_scheme_product(#[trigger] products[j]) implies all.contains(
            products[j].name@,
        ) by {
            if j < n {
                assert(init[j] == products[j]);
                let k = choose|k: int| 0 <= k < rest.len() && rest[k] == products[j].name@;
                assert(all[k] == rest[k]);
            } else {
                assert(all[all.len() - 1] == products[j].name@);
            }
        }
    }
}

/// Adding targets adds only names of executable targets.
proof fn lemma_add_target_schemes_sound(acc: Seq<Seq<char>>, targets: Seq<SpmTarget>)
    ensures
        forall|k: int|
            0 <= k < add_target_schemes(acc, targets).len() ==> acc.contains(
                #[trigger] add_target_schemes(acc, targets)[k],
            ) || exists|j: int|
                0 <= j < targets.len() && add_target_schemes(acc, targets)[k] == targets[j].name@
                    && is_executable_target(#[trigger] targets[j]),
    decreases targets.len(),
{
    if targets.len() > 0 {
        let init = targets.drop_last();
        lemma_add_target_schemes_sound(acc, init);
        let rest = add_target_schemes(acc, init);
        let all = add_target_schemes(acc, targets);
        let n = targets.len() - 1;
        assert forall|k: int| 0 <= k < all.len() implies acc.contains(#[trigger] all[k]) || exists|j: int|
            0 <= j < targets.len() && all[k] == targets[j].name@ && is_executable_target(
                #[trigger] targets[j],
            ) by {
            if k < rest.len() {
                assert(all[k] == rest[k]);
                if !acc.contains(rest[k]) {
                    let j = choose|j: int|
                        0 <= j < init.len() && rest[k] == init[j].name@ && is_executable_target(
                            #[trigger] init[j],
                        );
                    assert(init[j] == targets[j]);
                }
            } else {
                assert(all[k] == targets[n].name@);
                assert(is_executable_target(targets[n]));
            }
        }
    }
}

/// The schemes of an SPM package are only what may be built and run: each
/// is the name of a product whose type is `executable` or `library`, or of
/// a target whose type is exactly `executable`; the package name is the one
/// scheme only when there is no such product or target. Every such product
/// and target is among them.
pub proof fn lemma_spm_schemes_are_products_and_executables(pkg: SpmPackage)
    ensures
        forall|k: int|
            0 <= k < spm_schemes_spec(pkg).len() ==> (exists|j: int|
                0 <= j < pkg.products@.len() && #[trigger] spm_schemes_spec(pkg)[k]
                    == pkg.products@[j].name@ && (pkg.products@[j].type_keys matches Some(keys) && (
                string_views(keys@).contains("executable"@) || string_views(keys@).contains(
                    "library"@,
                )))) || (exists|j: int|
                0 <= j < pkg.targets@.len() && spm_schemes_spec(pkg)[k]
                    == pkg.targets@[j].name@ && (pkg.targets@[j].target_type matches Some(t)
                    && t@ == "executable"@)) || (spm_schemes_spec(pkg) == seq![pkg.name@]
                && (forall|j: int|
                0 <= j < pkg.products@.len() ==> !((#[trigger] pkg.products@[j]).type_keys matches Some(keys)
                    && (string_views(keys@).contains("executable"@) || string_views(
                    keys@,
                ).contains("library"@)))) && (forall|j: int|
                0 <= j < pkg.targets@.len() ==> !((#[trigger] pkg.targets@[j]).target_type matches Some(t) && t@
                    == "executable"@))),
        forall|j: int|
            0 <= j < pkg.targets@.len() && ((#[trigger] pkg.targets@[j]).target_type matches Some(t) && t@
                == "executable"@) ==> spm_schemes_spec(pkg).contains(pkg.targets@[j].name@),
        forall|j: int|
            0 <= j < pkg.products@.len() && ((#[trigger] pkg.products@[j]).type_keys matches Some(keys) && (
            string_views(keys@).contains("executable"@) || string_views(keys@).contains(
                "library"@,
            ))) ==> spm_schemes_spec(pkg).contains(pkg.products@[j].name@),
{
    let ps = product_schemes(pkg.products@);
    let s = add_target_schemes(ps, pkg.targets@);
    lemma_product_schemes(pkg.products@);
    lemma_add_target_schemes(ps, pkg.targets@);
    lemma_add_target_schemes_sound(ps, pkg.targets@);
    assert forall|j: int|
        0 <= j < pkg.products@.len() && is_scheme_product(#[trigger] pkg.products@[j]) implies s.contains(
        pkg.products@[j].name@,
    ) by {
        let k = choose|k: int| 0 <= k < ps.len() && ps[k] == pkg.products@[j].name@;
        assert(s[k] == ps[k]);
    }
    if s.len() == 0 {
        assert forall|j: int| 0 <= j < pkg.products@.len() implies !is_scheme_product(
            #[trigger] pkg.products@[j],
        ) by {
            if is_scheme_product(pkg.products@[j]) {
                assert(s.contains(pkg.products@[j].name@));
            }
        }
        assert forall|j: int| 0 <= j < pkg.targets@.len() implies !is_executable_target(
            #[trigger] pkg.targets@[j],
        ) by {
            if is_executable_target(pkg.targets@[j]) {
                assert(s.contains(pkg.targets@[j].name@));
            }
        }
    } else {
        assert forall|k: int| 0 <= k < s.len() implies (exists|j: int|
            0 <= j < pkg.products@.len() && #[trigger] s[k] == pkg.products@[j].name@
                && is_scheme_product(pkg.products@[j])) || (exists|j: int|
            0 <= j < pkg.targets@.len() && s[k] == pkg.targets@[j].name@ && is_executable_target(
                pkg.targets@[j],
            )) by {
            if ps.contains(s[k]) {
                let m = choose|m: int| 0 <= m < ps.len() && ps[m] == s[k];
                let j = choose|j: int|
                    0 <= j < pkg.products@.len() && #[trigger] ps[m] == pkg.products@[j].name@
                        && is_scheme_product(pkg.products@[j]);
            }
        }
    }
}

} // verus!
