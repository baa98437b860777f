//! Resolving what to build from the command line and the cached selections,
//! and recording the selections for the next run.
use vstd::prelude::*;

use crate::cache::{BspState, CacheModel, CachedState};
use crate::destination::{Destination, DestinationModel};
use crate::paths::{join, join_spec, path_strip_prefix, strip_path_prefix};
use crate::text::{chars_of, str_concat3, find_char, opt_str_view, owned, string_of_range};

verus! {

/// Where the destination comes from.
pub enum DestinationInput {
    /// A `--destination` spec given on the command line.
    Spec(String),
    /// The destination selected last time.
    Cached(Destination),
    /// Nothing given: the user picks among the available destinations.
    Ask,
}

/// The explicit inputs of a resolution: each given on the command line or
/// else taken from the cache.
pub struct ResolveInputs {
    pub workspace: Option<String>,
    pub scheme: Option<String>,
    pub configuration: Option<String>,
    pub destination: DestinationInput,
}

/// The path under which a workspace is cached: relative to the cache root
/// when it lies under it.
pub open spec fn cached_path_spec(path: Seq<char>, root: Seq<char>) -> Seq<char> {
    match path_strip_prefix(path, root) {
        Some(rel) => rel,
        None => path,
    }
}

/// The first of two optional strings that is present.
pub open spec fn first_present(a: Option<Seq<char>>, b: Option<Seq<char>>) -> Option<Seq<char>> {
    match a {
        Some(x) => Some(x),
        None => b,
    }
}

/// The workspace recorded in the cache, as a path: joined to the cache root.
pub open spec fn cached_workspace_spec(root: Seq<char>, state: CacheModel) -> Option<Seq<char>> {
    match state.workspace {
        Some(p) => Some(join_spec(root, p)),
        None => None,
    }
}

fn opt_clone(o: &Option<String>) -> (r: Option<String>)
    ensures
        crate::destination::opt_view(r) == crate::destination::opt_view(*o),
{
    match o {
        Some(s) => Some(s.clone()),
        None => None,
    }
}

/// `r` holds the inputs of a resolution: the workspace, scheme,
/// configuration and destination given on the command line, else those of
/// the cache `state` (the workspace joined to the cache root `root`).
pub open spec fn inputs_from(
    r: ResolveInputs,
    root: Seq<char>,
    state: CacheModel,
    workspace: Option<Seq<char>>,
    scheme: Option<Seq<char>>,
    configuration: Option<Seq<char>>,
    destination: Option<Seq<char>>,
) -> bool {
    &&& crate::destination::opt_view(r.workspace) == first_present(
        workspace,
        cached_workspace_spec(root, state),
    )
    &&& crate::destination::opt_view(r.scheme) == first_present(scheme, state.scheme)
    &&& crate::destination::opt_view(r.configuration) == first_present(
        configuration,
        state.configuration,
    )
    &&& match destination {
        Some(spec) => r.destination matches DestinationInput::Spec(s) && s@ == spec,
        None => match state.destination {
            Some(d) => r.destination matches DestinationInput::Cached(c) && c@ == d,
            None => r.destination is Ask,
        },
    }
}

/// Resolve inputs, falling back to cached values: the workspace, scheme,
/// configuration and destination given on the command line, else those of
/// the cache (the workspace joined to the cache root `root`).
pub fn resolve_inputs(
    root: &str,
    state: &CachedState,
    workspace: Option<&str>,
    scheme: Option<&str>,
    configuration: Option<&str>,
    destination: Option<&str>,
) -> (r: ResolveInputs)
    ensures
        inputs_from(
            r,
            root@,
            state@,
            opt_str_view(workspace),
            opt_str_view(scheme),
            opt_str_view(configuration),
            opt_str_view(destination),
        ),
{
    let ws = match workspace {
        Some(w) => Some(owned(w)),
        None => match &state.workspace {
            Some(p) => Some(join(root, p.as_str())),
            None => None,
        },
    };
    let sc = match scheme {
        Some(s) => Some(owned(s)),
        None => opt_clone(&state.scheme),
    };
    let cf = match configuration {
        Some(c) => Some(owned(c)),
        None => opt_clone(&state.configuration),
    };
    let dest = match destination {
        Some(spec) => DestinationInput::Spec(owned(spec)),
        None => match &state.destination {
            Some(d) => DestinationInput::Cached(d.duplicate()),
            None => DestinationInput::Ask,
        },
    };
    ResolveInputs { workspace: ws, scheme: sc, configuration: cf, destination: dest }
}

/// The selections that the prompts of a resolution start at.
pub struct ResolveDefaults {
    pub workspace: Option<String>,
    pub scheme: Option<String>,
    pub configuration: Option<String>,
    pub destination: Option<Destination>,
}

/// The cache with nothing in it.
pub open spec fn empty_cache() -> CacheModel {
    CacheModel { workspace: None, scheme: None, configuration: None, destination: None, bsp: None }
}

/// Plan a resolution. Normally the inputs fall back to the cached
/// selections and the prompts start at their first item. With `configure`
/// the cached selections are not used as inputs, so that every choice is
/// asked again, and each prompt starts at the cached selection.
pub fn plan_resolution(
    root: &str,
    state: &CachedState,
    configure: bool,
    workspace: Option<&str>,
    scheme: Option<&str>,
    configuration: Option<&str>,
    destination: Option<&str>,
) -> (r: (ResolveInputs, ResolveDefaults))
    ensures
        inputs_from(
            r.0,
            root@,
            if configure {
                empty_cache()
            } else {
                state@
            },
            opt_str_view(workspace),
            opt_str_view(scheme),
            opt_str_view(configuration),
            opt_str_view(destination),
        ),
        configure ==> {
            &&& crate::destination::opt_view(r.1.workspace) == cached_workspace_spec(root@, state@)
            &&& crate::destination::opt_view(r.1.scheme) == state@.scheme
            &&& crate::destination::opt_view(r.1.configuration) == state@.configuration
            &&& match state@.destination {
                Some(d) => r.1.destination matches Some(c) && c@ == d,
                None => r.1.destination is None,
            }
        },
        !configure ==> {
            &&& r.1.workspace is None
            &&& r.1.scheme is None
            &&& r.1.configuration is None
            &&& r.1.destination is None
        },
{
    if configure {
        let fresh = CachedState::default();
        let inputs = resolve_inputs(root, &fresh, workspace, scheme, configuration, destination);
        let cached = resolve_inputs(root, state, None, None, None, None);
        let dest = match cached.destination {
            DestinationInput::Cached(d) => Some(d),
            _ => None,
        };
        let defaults = ResolveDefaults {
            workspace: cached.workspace,
            scheme: cached.scheme,
            configuration: cached.configuration,
            destination: dest,
        };
        (inputs, defaults)
    } else {
        let inputs = resolve_inputs(root, state, workspace, scheme, configuration, destination);
        let defaults = ResolveDefaults {
            workspace: None,
            scheme: None,
            configuration: None,
            destination: None,
        };
        (inputs, defaults)
    }
}

/// The cache after a resolution: the workspace (relative to `root` when under
/// it), scheme, configuration and destination replaced by those resolved;
/// the build server state kept.
pub fn record_selection(
    state: CachedState,
    root: &str,
    workspace_path: &str,
    scheme: &str,
    configuration: &str,
    dest: &Destination,
) -> (r: CachedState)
    ensures
        r@ == (CacheModel {
            workspace: Some(cached_path_spec(workspace_path@, root@)),
            scheme: Some(scheme@),
            configuration: Some(configuration@),
            destination: Some(dest@),
            ..state@
        }),
{
    let rel = match strip_path_prefix(workspace_path, root) {
        Some(r) => r,
        None => owned(workspace_path),
    };
    CachedState {
        workspace: Some(rel),
        scheme: Some(owned(scheme)),
        configuration: Some(owned(configuration)),
        destination: Some(dest.duplicate()),
        bsp: state.bsp,
    }
}

/// The cache after `bsp config`: the generated workspace (relative to `root`
/// when under it) and the build root recorded, the rest kept.
pub fn record_bsp_state(
    state: CachedState,
    root: &str,
    workspace_path: &str,
    build_root: &str,
) -> (r: CachedState)
    ensures
        r@ == (CacheModel {
            bsp: Some(
                crate::cache::BspModel {
                    generated_workspace: Some(cached_path_spec(workspace_path@, root@)),
                    build_root: Some(build_root@),
                },
            ),
            ..state@
        }),
{
    let rel = match strip_path_prefix(workspace_path, root) {
        Some(r) => r,
        None => owned(workspace_path),
    };
    CachedState {
        bsp: Some(BspState { generated_workspace: Some(rel), build_root: Some(owned(build_root)) }),
        ..state
    }
}

/// Selections recorded by one run are the inputs of the next run that names
/// none on the command line: the same scheme, configuration and destination,
/// and the workspace at its cached path under the cache root.
pub proof fn lemma_selection_round_trip(
    state: CacheModel,
    root: Seq<char>,
    workspace_path: Seq<char>,
    scheme: Seq<char>,
    configuration: Seq<char>,
    dest: DestinationModel,
)
    ensures
        ({
            let next = CacheModel {
                workspace: Some(cached_path_spec(workspace_path, root)),
                scheme: Some(scheme),
                configuration: Some(configuration),
                destination: Some(dest),
                ..state
            };
            &&& first_present(None, cached_workspace_spec(root, next)) == Some(
                join_spec(root, cached_path_spec(workspace_path, root)),
            )
            &&& first_present(None, next.scheme) == Some(scheme)
            &&& first_present(None, next.configuration) == Some(configuration)
            &&& next.destination == Some(dest)
        }),
{
}

/// A `KEY=VALUE` argument split at its first `=`; an error naming the
/// argument when it has none.
pub open spec fn key_val_spec(s: Seq<char>) -> Result<(Seq<char>, Seq<char>), Seq<char>> {
    if s.contains('=') {
        let pos = crate::text::first_index_of(s, '=');
        Ok((s.take(pos), s.skip(pos + 1)))
    } else {
        Err("invalid KEY=VALUE: no `=` found in `"@ + s + "`"@)
    }
}

/// Parse a `KEY=VALUE` argument (`--build-env`, `--env`).
pub fn parse_key_val(s: &str) -> (r: Result<(String, String), String>)
    ensures
        match key_val_spec(s@) {
            Ok((k, v)) => r matches Ok((rk, rv)) && rk@ == k && rv@ == v,
            Err(e) => r matches Err(re) && re@ == e,
        },
{
    match find_char(s, '=') {
        Some(pos) => {
            proof {
                crate::text::lemma_first_index_of(s@, '=', pos as int);
            }
            let cs = chars_of(s);
            assert(cs@.len() == cs.len());
            let k = string_of_range(&cs, 0, pos);
            let v = string_of_range(&cs, pos + 1, cs.len());
            assert(k@ =~= s@.take(pos as int));
            assert(v@ =~= s@.skip(pos + 1));
            Ok((k, v))
        },
        None => Err(str_concat3("invalid KEY=VALUE: no `=` found in `", s, "`")),
    }
}

/// A `KEY=VALUE` argument whose key has no `=` gives back its key and value.
pub proof fn lemma_key_val_round_trip(k: Seq<char>, v: Seq<char>)
    requires
        !k.contains('='),
    ensures
        key_val_spec(k + seq!['='] + v) == Ok::<(Seq<char>, Seq<char>), Seq<char>>((k, v)),
{
    let s = k + seq!['='] + v;
    assert(s[k.len() as int] == '=');
    assert forall|j: int| 0 <= j < k.len() implies s[j] != '=' by {
        assert(s[j] == k[j]);
    }
    crate::text::lemma_first_index_of(s, '=', k.len() as int);
    assert(s.take(k.len() as int) =~= k);
    assert(s.skip(k.len() as int + 1) =~= v);
}

} // verus!
