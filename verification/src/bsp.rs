//! Build Server Protocol integration: the `buildServer.json` configuration
//! and the forwarding of Content-Length framed messages.
use vstd::prelude::*;

use crate::cache::{CacheModel, CachedState};
use crate::error::XcraftError;
use crate::paths::{join, join_spec};
use crate::text::{
    str_concat, str_concat3, decimal_string, lemma_decimal_string_digits, owned, parse_usize,
    parse_usize_spec, string_views, strip_prefix, trim, trim_end, trim_spec, trim_start,
    is_whitespace, is_digit, u64_to_decimal,
};

verus! {

// ---------------------------------------------------------------------------
// buildServer.json
// ---------------------------------------------------------------------------

/// A field value of `buildServer.json`.
pub enum JsonField {
    /// A JSON string.
    Text(String),
    /// A JSON array of strings.
    TextList(Vec<String>),
    /// Any other JSON value, as its JSON text.
    Raw(String),
}

/// The mathematical value of a `JsonField`.
pub enum FieldModel {
    Text(Seq<char>),
    TextList(Seq<Seq<char>>),
    Raw(Seq<char>),
}

impl View for JsonField {
    type V = FieldModel;

    open spec fn view(&self) -> FieldModel {
        match self {
            JsonField::Text(s) => FieldModel::Text(s@),
            JsonField::TextList(v) => FieldModel::TextList(string_views(v@)),
            JsonField::Raw(s) => FieldModel::Raw(s@),
        }
    }
}

/// The fields of a JSON object, in order.
pub struct JsonObject {
    pub entries: Vec<(String, JsonField)>,
}

/// The fields of a JSON object as (key, value) views.
pub open spec fn fields(o: JsonObject) -> Seq<(Seq<char>, FieldModel)> {
    o.entries@.map_values(|e: (String, JsonField)| (e.0@, e.1@))
}

/// The value of the first field named `key`, if any.
pub open spec fn field(entries: Seq<(Seq<char>, FieldModel)>, key: Seq<char>) -> Option<FieldModel>
    decreases entries.len(),
{
    if entries.len() == 0 {
        None
    } else if entries[0].0 == key {
        Some(entries[0].1)
    } else {
        field(entries.drop_first(), key)
    }
}

/// Whether some field is named `key`.
pub open spec fn has_field(entries: Seq<(Seq<char>, FieldModel)>, key: Seq<char>) -> bool {
    exists|i: int| 0 <= i < entries.len() && entries[i].0 == key
}

/// The first index of a field named `key` (meaningful when there is one).
pub open spec fn field_index(entries: Seq<(Seq<char>, FieldModel)>, key: Seq<char>) -> int {
    choose|i: int|
        0 <= i < entries.len() && entries[i].0 == key && forall|j: int|
            0 <= j < i ==> entries[j].0 != key
}

/// `Map::insert` on a JSON object: the first field named `key` gets `value`,
/// or the field is added at the end when there is none.
pub open spec fn insert_field(
    entries: Seq<(Seq<char>, FieldModel)>,
    key: Seq<char>,
    value: FieldModel,
) -> Seq<(Seq<char>, FieldModel)> {
    if has_field(entries, key) {
        entries.update(field_index(entries, key), (key, value))
    } else {
        entries.push((key, value))
    }
}

/// Sets the field `key` of `o` to `value`.
fn set_field(o: &mut JsonObject, key: &str, value: JsonField)
    ensures
        fields(*final(o)) == insert_field(fields(*old(o)), key@, value@),
{
    let ghost before = fields(*o);
    let mut i: usize = 0;
    while i < o.entries.len()
        invariant
            i <= o.entries.len(),
            before == fields(*o),
            before == fields(*old(o)),
            forall|j: int| 0 <= j < i ==> before[j].0 != key@,
        decreases o.entries.len() - i,
    {
        if crate::text::str_eq(o.entries[i].0.as_str(), key) {
            let ghost idx = field_index(before, key@);
            assert(before[i as int].0 == key@);
            assert(has_field(before, key@));
            assert(idx == i as int) by {
                if idx < i {
                    assert(before[idx].0 != key@);
                } else if idx > i {
                    assert(before[i as int].0 != key@);
                }
            }
            let ghost v = value@;
            o.entries.set(i, (owned(key), value));
            assert(fields(*o) =~= before.update(i as int, (key@, v)));
            return;
        }
        i = i + 1;
    }
    assert(!has_field(before, key@));
    let ghost v = value@;
    o.entries.push((owned(key), value));
    assert(fields(*o) =~= before.push((key@, v)));
}

/// The languages that the build server serves.
pub open spec fn bsp_languages() -> Seq<Seq<char>> {
    seq!["c"@, "cpp"@, "objective-c"@, "objective-cpp"@, "swift"@]
}

/// A minimal `buildServer.json` with only BSP boilerplate and `argv`.
pub open spec fn minimal_config_spec(version: Seq<char>, argv: Seq<Seq<char>>) -> Seq<
    (Seq<char>, FieldModel),
> {
    seq![
        ("name"@, FieldModel::Text("xcraft bsp"@)),
        ("version"@, FieldModel::Text(version)),
        ("bspVersion"@, FieldModel::Text("2.0"@)),
        ("languages"@, FieldModel::TextList(bsp_languages())),
        ("argv"@, FieldModel::TextList(argv)),
    ]
}

/// The minimal `buildServer.json` that `bsp config` writes: BSP
/// boilerplate, the crate `version`, and the command line `argv` that starts
/// the server.
pub fn minimal_build_server_config(version: &str, argv: Vec<String>) -> (r: JsonObject)
    ensures
        fields(r) == minimal_config_spec(version@, string_views(argv@)),
{
    let mut languages: Vec<String> = Vec::new();
    languages.push(owned("c"));
    languages.push(owned("cpp"));
    languages.push(owned("objective-c"));
    languages.push(owned("objective-cpp"));
    languages.push(owned("swift"));
    assert(string_views(languages@) =~= bsp_languages());
    let mut entries: Vec<(String, JsonField)> = Vec::new();
    entries.push((owned("name"), JsonField::Text(owned("xcraft bsp"))));
    entries.push((owned("version"), JsonField::Text(owned(version))));
    entries.push((owned("bspVersion"), JsonField::Text(owned("2.0"))));
    entries.push((owned("languages"), JsonField::TextList(languages)));
    entries.push((owned("argv"), JsonField::TextList(argv)));
    let r = JsonObject { entries };
    assert(fields(r) =~= minimal_config_spec(version@, string_views(argv@)));
    r
}

/// The workspace to name in `buildServer.json`: the generated one recorded
/// by `bsp config`, else the cached workspace.
pub open spec fn bsp_workspace(state: CacheModel) -> Option<Seq<char>> {
    match state.bsp {
        Some(b) => match b.generated_workspace {
            Some(g) => Some(g),
            None => state.workspace,
        },
        None => state.workspace,
    }
}

/// Optionally insert a text field.
pub open spec fn insert_opt(
    entries: Seq<(Seq<char>, FieldModel)>,
    key: Seq<char>,
    value: Option<Seq<char>>,
) -> Seq<(Seq<char>, FieldModel)> {
    match value {
        Some(v) => insert_field(entries, key, FieldModel::Text(v)),
        None => entries,
    }
}

/// `buildServer.json` updated from the cached state: the workspace (joined to
/// `root`), the scheme and the build root when known, and `kind: xcode`.
pub open spec fn updated_config_spec(
    entries: Seq<(Seq<char>, FieldModel)>,
    root: Seq<char>,
    state: CacheModel,
) -> Seq<(Seq<char>, FieldModel)> {
    let with_ws = insert_opt(
        entries,
        "workspace"@,
        match bsp_workspace(state) {
            Some(ws) => Some(join_spec(root, ws)),
            None => None,
        },
    );
    let with_scheme = insert_opt(with_ws, "scheme"@, state.scheme);
    let with_root = insert_opt(
        with_scheme,
        "build_root"@,
        match state.bsp {
            Some(b) => b.build_root,
            None => None,
        },
    );
    insert_field(with_root, "kind"@, FieldModel::Text("xcode"@))
}

/// Update `buildServer.json` with workspace/scheme/build_root from the cached
/// state. Preserves existing fields (especially `argv`).
pub fn update_build_server_config(config: JsonObject, root: &str, state: &CachedState) -> (r:
    JsonObject)
    ensures
        fields(r) == updated_config_spec(fields(config), root@, state@),
{
    let mut config = config;
    // Inject workspace (absolute path).
    let ws_rel: Option<&String> = match &state.bsp {
        Some(b) => match &b.generated_workspace {
            Some(g) => Some(g),
            None => match &state.workspace {
                Some(w) => Some(w),
                None => None,
            },
        },
        None => match &state.workspace {
            Some(w) => Some(w),
            None => None,
        },
    };
    if let Some(ws) = ws_rel {
        let ws_abs = join(root, ws.as_str());
        set_field(&mut config, "workspace", JsonField::Text(ws_abs));
    }
    // Inject scheme.
    if let Some(scheme) = &state.scheme {
        set_field(&mut config, "scheme", JsonField::Text(scheme.clone()));
    }
    // Inject build_root.
    if let Some(bsp) = &state.bsp {
        if let Some(br) = &bsp.build_root {
            set_field(&mut config, "build_root", JsonField::Text(br.clone()));
        }
    }
    set_field(&mut config, "kind", JsonField::Text(owned("xcode")));
    config
}

/// When a field is named `key`, there is a first such field.
proof fn lemma_first_field(entries: Seq<(Seq<char>, FieldModel)>, key: Seq<char>)
    requires
        has_field(entries, key),
    ensures
        0 <= field_index(entries, key) < entries.len(),
        entries[field_index(entries, key)].0 == key,
        forall|j: int| 0 <= j < field_index(entries, key) ==> entries[j].0 != key,
    decreases entries.len(),
{
    if entries[0].0 == key {
        assert(0 <= 0int < entries.len() && entries[0].0 == key && forall|j: int|
            0 <= j < 0int ==> entries[j].0 != key);
    } else {
        let rest = entries.drop_first();
        let k = choose|k: int| 0 <= k < entries.len() && entries[k].0 == key;
        assert(rest[k - 1].0 == key);
        lemma_first_field(rest, key);
        let i = field_index(rest, key);
        assert(entries[i + 1].0 == key);
        assert forall|j: int| 0 <= j < i + 1 implies entries[j].0 != key by {
            if j > 0 {
                assert(entries[j] == rest[j - 1]);
            }
        }
    }
}

/// Inserting a field sets it and leaves every other field as it was.
pub proof fn lemma_insert_field(
    entries: Seq<(Seq<char>, FieldModel)>,
    key: Seq<char>,
    value: FieldModel,
    other: Seq<char>,
)
    ensures
        field(insert_field(entries, key, value), key) == Some(value),
        other != key ==> field(insert_field(entries, key, value), other) == field(entries, other),
    decreases entries.len(),
{
    let r = insert_field(entries, key, value);
    if entries.len() == 0 {
        assert(!has_field(entries, key));
        assert(r =~= seq![(key, value)]);
        assert(r.drop_first() =~= Seq::<(Seq<char>, FieldModel)>::empty());
        assert(field(r.drop_first(), other) is None);
        assert(other != key ==> field(r, other) == field(entries, other));
    } else if entries[0].0 == key {
        assert(has_field(entries, key));
        lemma_first_field(entries, key);
        let idx = field_index(entries, key);
        assert(idx == 0) by {
            if idx > 0 {
                assert(entries[0].0 != key);
            }
        }
        assert(r.drop_first() =~= entries.drop_first());
        assert(r[0] == (key, value));
        assert(other != key ==> field(r, other) == field(entries, other));
    } else {
        let rest = entries.drop_first();
        lemma_insert_field(rest, key, value, other);
        if has_field(entries, key) {
            lemma_first_field(entries, key);
            let idx = field_index(entries, key);
            assert(idx != 0);
            assert(r[0] == entries[0]);
            assert(has_field(rest, key)) by {
                assert(rest[idx - 1].0 == key);
            }
            lemma_first_field(rest, key);
            let ridx = field_index(rest, key);
            assert(ridx == idx - 1) by {
                if ridx < idx - 1 {
                    assert(entries[ridx + 1].0 != key);
                } else if ridx > idx - 1 {
                    assert(rest[idx - 1].0 != key);
                }
            }
            assert(r.drop_first() =~= insert_field(rest, key, value));
            assert(other != key ==> field(r, other) == field(entries, other));
        } else {
            assert(r[0] == entries[0]);
            assert(!has_field(rest, key)) by {
                if has_field(rest, key) {
                    let k = choose|k: int| 0 <= k < rest.len() && rest[k].0 == key;
                    assert(entries[k + 1].0 == key);
                }
            }
            assert(r.drop_first() =~= insert_field(rest, key, value));
            assert(other != key ==> field(r, other) == field(entries, other));
        }
    }
}

/// Updating `buildServer.json` preserves every field other than
/// `workspace`, `scheme`, `build_root` and `kind` (`argv` in particular), and
/// always sets `kind` to `xcode`.
pub proof fn lemma_update_preserves_fields(
    entries: Seq<(Seq<char>, FieldModel)>,
    root: Seq<char>,
    state: CacheModel,
    key: Seq<char>,
)
    ensures
        field(updated_config_spec(entries, root, state), "kind"@) == Some(
            FieldModel::Text("xcode"@),
        ),
        key != "workspace"@ && key != "scheme"@ && key != "build_root"@ && key != "kind"@ ==> field(
            updated_config_spec(entries, root, state),
            key,
        ) == field(entries, key),
{
    let ws = match bsp_workspace(state) {
        Some(ws) => Some(join_spec(root, ws)),
        None => None,
    };
    let br = match state.bsp {
        Some(b) => b.build_root,
        None => None,
    };
    let with_ws = insert_opt(entries, "workspace"@, ws);
    let with_scheme = insert_opt(with_ws, "scheme"@, state.scheme);
    let with_root = insert_opt(with_scheme, "build_root"@, br);
    lemma_insert_field(with_root, "kind"@, FieldModel::Text("xcode"@), key);
    if key != "workspace"@ && key != "scheme"@ && key != "build_root"@ && key != "kind"@ {
        if let Some(v) = ws {
            lemma_insert_field(entries, "workspace"@, FieldModel::Text(v), key);
        }
        if let Some(v) = state.scheme {
            lemma_insert_field(with_ws, "scheme"@, FieldModel::Text(v), key);
        }
        if let Some(v) = br {
            lemma_insert_field(with_scheme, "build_root"@, FieldModel::Text(v), key);
        }
    }
}

/// A field that `field` finds exists, and its value is that of the first
/// field with its name.
proof fn lemma_field_found(entries: Seq<(Seq<char>, FieldModel)>, key: Seq<char>)
    requires
        field(entries, key) is Some,
    ensures
        has_field(entries, key),
        field(entries, key) == Some(entries[field_index(entries, key)].1),
    decreases entries.len(),
{
    assert(entries.len() > 0);
    if entries[0].0 == key {
        assert(has_field(entries, key));
        lemma_first_field(entries, key);
        let idx = field_index(entries, key);
        assert(idx == 0) by {
            if idx > 0 {
                assert(entries[0].0 != key);
            }
        }
    } else {
        let rest = entries.drop_first();
        assert(field(entries, key) == field(rest, key));
        lemma_field_found(rest, key);
        lemma_first_field(rest, key);
        let ridx = field_index(rest, key);
        assert(rest[ridx] == entries[ridx + 1]);
        assert(has_field(entries, key)) by {
            assert(entries[ridx + 1].0 == key);
        }
        lemma_first_field(entries, key);
        let idx = field_index(entries, key);
        assert(idx == ridx + 1) by {
            if idx < ridx + 1 {
                assert(idx != 0);
                assert(rest[idx - 1] == entries[idx]);
            } else if idx > ridx + 1 {
                assert(entries[ridx + 1].0 != key);
            }
        }
    }
}

/// Setting a field to the value it already has changes nothing.
pub proof fn lemma_insert_same(
    entries: Seq<(Seq<char>, FieldModel)>,
    key: Seq<char>,
    value: FieldModel,
)
    requires
        field(entries, key) == Some(value),
    ensures
        insert_field(entries, key, value) == entries,
{
    lemma_field_found(entries, key);
    let idx = field_index(entries, key);
    lemma_first_field(entries, key);
    assert(entries[idx] == (key, value));
    assert(insert_field(entries, key, value) =~= entries);
}

/// Optionally setting a field to the value it already has changes nothing.
proof fn lemma_insert_opt_same(
    entries: Seq<(Seq<char>, FieldModel)>,
    key: Seq<char>,
    value: Option<Seq<char>>,
)
    requires
        value matches Some(v) ==> field(entries, key) == Some(FieldModel::Text(v)),
    ensures
        insert_opt(entries, key, value) == entries,
{
    if let Some(v) = value {
        lemma_insert_same(entries, key, FieldModel::Text(v));
    }
}

/// After optionally setting `key`, its field holds the value set; a field
/// named `other` (another name) is as it was.
proof fn lemma_insert_opt(
    entries: Seq<(Seq<char>, FieldModel)>,
    key: Seq<char>,
    value: Option<Seq<char>>,
    other: Seq<char>,
)
    ensures
        value matches Some(v) ==> field(insert_opt(entries, key, value), key) == Some(
            FieldModel::Text(v),
        ),
        other != key ==> field(insert_opt(entries, key, value), other) == field(entries, other),
{
    if let Some(v) = value {
        lemma_insert_field(entries, key, FieldModel::Text(v), other);
    }
}

/// Updating `buildServer.json` from the cached state is idempotent: updating
/// it a second time from the same state gives the same fields as updating it
/// once.
pub proof fn lemma_update_idempotent(
    entries: Seq<(Seq<char>, FieldModel)>,
    root: Seq<char>,
    state: CacheModel,
)
    ensures
        updated_config_spec(updated_config_spec(entries, root, state), root, state)
            == updated_config_spec(entries, root, state),
{
    reveal_strlit("workspace");
    reveal_strlit("scheme");
    reveal_strlit("build_root");
    reveal_strlit("kind");
    let w = "workspace"@;
    let s = "scheme"@;
    let b = "build_root"@;
    let k = "kind"@;
    assert(w.len() == 9 && s.len() == 6 && b.len() == 10 && k.len() == 4);
    assert(w != s && w != b && w != k && s != b && s != k && b != k);
    let ws = match bsp_workspace(state) {
        Some(ws) => Some(join_spec(root, ws)),
        None => None,
    };
    let br = match state.bsp {
        Some(bs) => bs.build_root,
        None => None,
    };
    let kind = FieldModel::Text("xcode"@);
    let with_ws = insert_opt(entries, w, ws);
    let with_scheme = insert_opt(with_ws, s, state.scheme);
    let with_root = insert_opt(with_scheme, b, br);
    let e1 = insert_field(with_root, k, kind);
    assert(e1 == updated_config_spec(entries, root, state));
    // Each value set by the first update is in place afterwards.
    lemma_insert_opt(entries, w, ws, w);
    lemma_insert_opt(with_ws, s, state.scheme, w);
    lemma_insert_opt(with_scheme, b, br, w);
    lemma_insert_field(with_root, k, kind, w);
    lemma_insert_opt(with_ws, s, state.scheme, s);
    lemma_insert_opt(with_scheme, b, br, s);
    lemma_insert_field(with_root, k, kind, s);
    lemma_insert_opt(with_scheme, b, br, b);
    lemma_insert_field(with_root, k, kind, b);
    // So the second update sets each field to the value it already has.
    lemma_insert_opt_same(e1, w, ws);
    lemma_insert_opt_same(e1, s, state.scheme);
    lemma_insert_opt_same(e1, b, br);
    lemma_insert_same(e1, k, kind);
}

/// Whether the cache can configure the build server: it must hold a
/// workspace and a scheme.
pub fn check_serve_state(state: &CachedState) -> (r: Result<(), XcraftError>)
    ensures
        r is Ok <==> (state@.workspace is Some && state@.scheme is Some),
        r is Err ==> r == Err::<(), XcraftError>(XcraftError::NoCachedState),
{
    if state.workspace.is_none() || state.scheme.is_none() {
        return Err(XcraftError::NoCachedState);
    }
    Ok(())
}

/// The command line that `buildServer.json` gives for starting the server:
/// `<exe> bsp serve`, with `--profile <p>` for a named profile.
pub fn bsp_serve_argv(exe: &str, profile: Option<&str>) -> (r: Vec<String>)
    ensures
        string_views(r@) == seq![exe@, "bsp"@, "serve"@] + match profile {
            Some(p) => seq!["--profile"@, p@],
            None => Seq::empty(),
        },
{
    let mut argv: Vec<String> = Vec::new();
    argv.push(owned(exe));
    argv.push(owned("bsp"));
    argv.push(owned("serve"));
    if let Some(p) = profile {
        argv.push(owned("--profile"));
        argv.push(owned(p));
        assert(string_views(argv@) =~= seq![exe@, "bsp"@, "serve"@] + seq!["--profile"@, p@]);
    } else {
        assert(string_views(argv@) =~= seq![exe@, "bsp"@, "serve"@] + Seq::<Seq<char>>::empty());
    }
    argv
}

// ---------------------------------------------------------------------------
// Message forwarding
// ---------------------------------------------------------------------------

/// The message length that a header line announces: the number after
/// `Content-Length:`, white space around it ignored.
pub open spec fn content_length_spec(header: Seq<char>) -> Option<usize> {
    if "Content-Length:"@.is_prefix_of(header) {
        parse_usize_spec(trim_spec(header.skip("Content-Length:"@.len() as int)))
    } else {
        None
    }
}

/// The length announced by a BSP header line.
pub fn parse_content_length(header: &str) -> (r: Option<usize>)
    ensures
        r == content_length_spec(header@),
{
    match strip_prefix(header, "Content-Length:") {
        Some(rest) => {
            let t = trim(rest.as_str());
            parse_usize(t.as_str())
        },
        None => None,
    }
}

/// The header that precedes a forwarded message body of `length` bytes:
/// `Content-Length: <length>`, then a blank line.
pub open spec fn frame_header_spec(length: usize) -> Seq<char> {
    "Content-Length: "@ + decimal_string(length as nat) + "\r\n\r\n"@
}

/// The header that precedes a forwarded message body of `length` bytes.
pub fn frame_header(length: usize) -> (r: String)
    ensures
        r@ == frame_header_spec(length),
{
    let digits = u64_to_decimal(length as u64);
    str_concat3("Content-Length: ", digits.as_str(), "\r\n\r\n")
}

/// Where the forwarding of messages stands.
pub enum ForwardState {
    /// Reading the header line of the next message.
    AwaitHeader,
    /// Reading the blank line after a header announcing `length` bytes.
    AwaitBlank { length: usize },
    /// Reading the `length` bytes of the body.
    AwaitBody { length: usize },
    /// Writing a message.
    AwaitWritten,
    /// Forwarding has ended.
    Done,
}

/// The answer to the last forwarding action.
pub enum ForwardEvent {
    /// Forwarding begins.
    Started,
    /// The line that was read, with its line ending; empty at the end of the
    /// input.
    Line(String),
    /// The body that was read.
    Body(Vec<u8>),
    /// The message was written and flushed.
    Written,
}

/// What the forwarder must do next.
pub enum ForwardAction {
    /// Read a line (`Line`).
    ReadLine,
    /// Read exactly this many bytes (`Body`).
    ReadBody(usize),
    /// Write `header`, then `body`, and flush (`Written`).
    Write { header: String, body: Vec<u8> },
    /// Stop: the input ended, or an error.
    Stop(Result<(), XcraftError>),
}

/// Begin forwarding: read the first header line.
pub fn forward_start() -> (r: (ForwardState, ForwardAction))
    ensures
        r.0 is AwaitHeader,
        r.1 is ReadLine,
{
    (ForwardState::AwaitHeader, ForwardAction::ReadLine)
}

/// Forward BSP messages, flushing after each complete message: the next
/// state and action from `state` on `event`. A header line that announces no
/// length is an error; the end of the input ends forwarding.
pub fn forward_step(state: ForwardState, event: ForwardEvent) -> (r: (ForwardState, ForwardAction))
    ensures
        match (state, event) {
            (ForwardState::AwaitHeader, ForwardEvent::Line(h)) => if h@.len() == 0 {
                r.0 is Done && r.1 matches ForwardAction::Stop(Ok(()))
            } else {
                match content_length_spec(h@) {
                    Some(n) => r.0 == ForwardState::AwaitBlank { length: n } && r.1 is ReadLine,
                    None => r.0 is Done && (r.1 matches ForwardAction::Stop(
                        Err(XcraftError::InvalidBspHeader { header: e }),
                    ) && e@ == h@),
                }
            },
            (ForwardState::AwaitBlank { length }, ForwardEvent::Line(_)) => r.0
                == ForwardState::AwaitBody { length } && r.1 == ForwardAction::ReadBody(length),
            (ForwardState::AwaitBody { length }, ForwardEvent::Body(b)) => if b@.len() == length {
                r.0 is AwaitWritten && (r.1 matches ForwardAction::Write { header, body } && header@
                    == frame_header_spec(length) && body@ == b@)
            } else {
                r.0 is Done && r.1 == ForwardAction::Stop(
                    Err(XcraftError::ShortBspBody { expected: length, got: b@.len() as usize }),
                )
            },
            (ForwardState::AwaitWritten, ForwardEvent::Written) => r.0 is AwaitHeader
                && r.1 is ReadLine,
            _ => r.0 is Done && r.1 == ForwardAction::Stop(Err(XcraftError::UnexpectedBspEvent)),
        },
{
    match (state, event) {
        (ForwardState::AwaitHeader, ForwardEvent::Line(h)) => {
            if crate::text::chars_of(h.as_str()).len() == 0 {
                return (ForwardState::Done, ForwardAction::Stop(Ok(())));
            }
            match parse_content_length(h.as_str()) {
                Some(n) => (ForwardState::AwaitBlank { length: n }, ForwardAction::ReadLine),
                None => (
                    ForwardState::Done,
                    ForwardAction::Stop(Err(XcraftError::InvalidBspHeader { header: h })),
                ),
            }
        },
        (ForwardState::AwaitBlank { length }, ForwardEvent::Line(_)) => (
            ForwardState::AwaitBody { length },
            ForwardAction::ReadBody(length),
        ),
        (ForwardState::AwaitBody { length }, ForwardEvent::Body(b)) => {
            if b.len() == length {
                (
                    ForwardState::AwaitWritten,
                    ForwardAction::Write { header: frame_header(length), body: b },
                )
            } else {
                (
                    ForwardState::Done,
                    ForwardAction::Stop(
                        Err(XcraftError::ShortBspBody { expected: length, got: b.len() }),
                    ),
                )
            }
        },
        (ForwardState::AwaitWritten, ForwardEvent::Written) => (
            ForwardState::AwaitHeader,
            ForwardAction::ReadLine,
        ),
        _ => (
            ForwardState::Done,
            ForwardAction::Stop(Err(XcraftError::UnexpectedBspEvent)),
        ),
    }
}

/// The header line of a forwarded message announces the length of its body:
/// reading back what the forwarder writes gives the same length.
pub proof fn lemma_frame_round_trip(length: usize)
    ensures
        content_length_spec("Content-Length: "@ + decimal_string(length as nat) + "\r\n"@) == Some(
            length,
        ),
        frame_header_spec(length) == "Content-Length: "@ + decimal_string(length as nat)
            + "\r\n"@ + "\r\n"@,
{
    reveal_strlit("Content-Length: ");
    reveal_strlit("Content-Length:");
    reveal_strlit("\r\n");
    reveal_strlit("\r\n\r\n");
    let d = decimal_string(length as nat);
    lemma_decimal_string_digits(length as nat);
    crate::text::lemma_parse_decimal(length);
    let line = "Content-Length: "@ + d + "\r\n"@;
    assert("Content-Length:"@.is_prefix_of(line)) by {
        assert(line.subrange(0, "Content-Length:"@.len() as int) =~= "Content-Length:"@);
    }
    let rest = line.skip("Content-Length:"@.len() as int);
    assert(rest =~= seq![' '] + (d + seq!['\r', '\n']));
    // Leading white space: the single space.
    assert(rest.drop_first() =~= d + seq!['\r', '\n']);
    assert(is_digit(d[0]));
    assert(!is_whitespace(d[0]));
    assert(trim_start(d + seq!['\r', '\n']) == d + seq!['\r', '\n']) by {
        assert((d + seq!['\r', '\n'])[0] == d[0]);
    }
    assert(trim_start(rest) == d + seq!['\r', '\n']);
    // Trailing white space: the line ending.
    let with_end = d + seq!['\r', '\n'];
    assert(with_end.drop_last() =~= d + seq!['\r']);
    assert((d + seq!['\r']).drop_last() =~= d);
    assert(is_digit(d.last()));
    assert(trim_end(d) == d);
    assert(trim_end(d + seq!['\r']) == d);
    assert(trim_end(with_end) == d);
    assert("\r\n"@ + "\r\n"@ =~= "\r\n\r\n"@);
    assert(frame_header_spec(length) =~= "Content-Length: "@ + d + "\r\n"@ + "\r\n"@);
}

} // verus!
