//! Run destinations: simulators, physical devices and the Mac itself.
use vstd::prelude::*;

use crate::error::XcraftError;
use crate::select::{is_default_position, Prompt, Resolution};
use crate::text::{
    chars_of, str_concat, str_concat3, find_char, first_index_of, owned, replace_char, replace_spec, str_eq, string_of_range,
    strip_prefix,
};

verus! {

// ---------------------------------------------------------------------------
// Types
// ---------------------------------------------------------------------------

/// Where a build runs.
pub enum Destination {
    Simulator {
        udid: String,
        name: String,
        os: String,
        /// Runtime state (e.g. "Booted"). Not kept in the cache.
        state: Option<String>,
    },
    Device {
        /// Traditional UDID (for xcodebuild -destination).
        udid: String,
        /// CoreDevice identifier (for devicectl commands).
        identifier: String,
        name: String,
        device_type: String,
    },
    MacOS { arch: String },
}

/// The mathematical value of a `Destination`: its fields as character
/// sequences.
pub enum DestinationModel {
    Simulator { udid: Seq<char>, name: Seq<char>, os: Seq<char>, state: Option<Seq<char>> },
    Device { udid: Seq<char>, identifier: Seq<char>, name: Seq<char>, device_type: Seq<char> },
    MacOS { arch: Seq<char> },
}

/// The view of an optional string.
pub open spec fn opt_view(o: Option<String>) -> Option<Seq<char>> {
    match o {
        Some(s) => Some(s@),
        None => None,
    }
}

impl View for Destination {
    type V = DestinationModel;

    open spec fn view(&self) -> DestinationModel {
        match self {
            Destination::Simulator { udid, name, os, state } => DestinationModel::Simulator {
                udid: udid@,
                name: name@,
                os: os@,
                state: opt_view(*state),
            },
            Destination::Device { udid, identifier, name, device_type } => DestinationModel::Device {
                udid: udid@,
                identifier: identifier@,
                name: name@,
                device_type: device_type@,
            },
            Destination::MacOS { arch } => DestinationModel::MacOS { arch: arch@ },
        }
    }
}

// ---------------------------------------------------------------------------
// Specifications
// ---------------------------------------------------------------------------

/// The `-destination` string for xcodebuild.
pub open spec fn xcodebuild_destination_spec(d: DestinationModel) -> Seq<char> {
    match d {
        DestinationModel::Simulator { udid, .. } => "platform=iOS Simulator,id="@ + udid,
        DestinationModel::Device { udid, .. } => "platform=iOS,id="@ + udid,
        DestinationModel::MacOS { arch } => "platform=macOS,arch="@ + arch,
    }
}

/// The spec string that `--destination` accepts for `d`.
pub open spec fn destination_spec_string(d: DestinationModel) -> Seq<char> {
    match d {
        DestinationModel::Simulator { udid, .. } => "simulator:"@ + udid,
        DestinationModel::Device { udid, .. } => "device:"@ + udid,
        DestinationModel::MacOS { .. } => "macos"@,
    }
}

/// What identifies the target of a destination: its kind and its UDID or
/// architecture.
pub open spec fn target_key(d: DestinationModel) -> (int, Seq<char>) {
    match d {
        DestinationModel::Simulator { udid, .. } => (0, udid),
        DestinationModel::Device { udid, .. } => (1, udid),
        DestinationModel::MacOS { arch } => (2, arch),
    }
}

/// Whether two destinations refer to the same target.
pub open spec fn same_target_spec(a: DestinationModel, b: DestinationModel) -> bool {
    target_key(a) == target_key(b)
}

/// How a destination is shown in lists and prompts.
pub open spec fn label_spec(d: DestinationModel) -> Seq<char> {
    match d {
        DestinationModel::Simulator { name, os, state, .. } => match state {
            Some(s) => "[Simulator] "@ + name + " ("@ + os + ")"@ + " ("@ + s + ")"@,
            None => "[Simulator] "@ + name + " ("@ + os + ")"@,
        },
        DestinationModel::Device { name, device_type, .. } => "[Device] "@ + name + " ("@
            + device_type + ")"@,
        DestinationModel::MacOS { arch } => "[macOS] My Mac ("@ + arch + ")"@,
    }
}

/// The destination that a `--destination` value denotes, where `arch` is the
/// architecture of this Mac.
pub open spec fn parse_spec(spec: Seq<char>, arch: Seq<char>) -> Option<DestinationModel> {
    if spec == "macos"@ {
        Some(DestinationModel::MacOS { arch })
    } else if "simulator:"@.is_prefix_of(spec) {
        Some(
            DestinationModel::Simulator {
                udid: spec.skip("simulator:"@.len() as int),
                name: Seq::empty(),
                os: Seq::empty(),
                state: None,
            },
        )
    } else if "device:"@.is_prefix_of(spec) {
        let udid = spec.skip("device:"@.len() as int);
        Some(
            DestinationModel::Device {
                udid,
                identifier: udid,
                name: Seq::empty(),
                device_type: Seq::empty(),
            },
        )
    } else {
        None
    }
}

/// A human-readable OS string for a simulator runtime identifier, e.g.
/// `com.apple.CoreSimulator.SimRuntime.iOS-17-2` is `iOS 17.2`.
pub open spec fn runtime_to_os_spec(runtime: Seq<char>) -> Seq<char> {
    let s = if "com.apple.CoreSimulator.SimRuntime."@.is_prefix_of(runtime) {
        runtime.skip("com.apple.CoreSimulator.SimRuntime."@.len() as int)
    } else {
        runtime
    };
    if s.contains('-') {
        let pos = first_index_of(s, '-');
        s.take(pos) + seq![' '] + replace_spec(s.skip(pos + 1), '-', '.')
    } else {
        s
    }
}

// ---------------------------------------------------------------------------
// Destination methods
// ---------------------------------------------------------------------------

impl Destination {
    /// Build the `-destination` string for xcodebuild.
    pub fn xcodebuild_destination_string(&self) -> (r: String)
        ensures
            r@ == xcodebuild_destination_spec(self@),
    {
        match self {
            Destination::Simulator { udid, .. } => str_concat(
                "platform=iOS Simulator,id=",
                udid.as_str(),
            ),
            Destination::Device { udid, .. } => str_concat("platform=iOS,id=", udid.as_str()),
            Destination::MacOS { arch } => str_concat("platform=macOS,arch=", arch.as_str()),
        }
    }

    /// Return the spec string that can be passed to `--destination`.
    /// Inverse of `parse_destination_spec`.
    pub fn spec(&self) -> (r: String)
        ensures
            r@ == destination_spec_string(self@),
    {
        match self {
            Destination::Simulator { udid, .. } => str_concat("simulator:", udid.as_str()),
            Destination::Device { udid, .. } => str_concat("device:", udid.as_str()),
            Destination::MacOS { .. } => owned("macos"),
        }
    }

    /// Check if two destinations refer to the same target (by UDID/arch),
    /// ignoring transient fields like state.
    pub fn same_target(&self, other: &Destination) -> (r: bool)
        ensures
            r == same_target_spec(self@, other@),
    {
        match (self, other) {
            (Destination::Simulator { udid: a, .. }, Destination::Simulator { udid: b, .. }) => {
                str_eq(a.as_str(), b.as_str())
            },
            (Destination::Device { udid: a, .. }, Destination::Device { udid: b, .. }) => str_eq(
                a.as_str(),
                b.as_str(),
            ),
            (Destination::MacOS { arch: a }, Destination::MacOS { arch: b }) => str_eq(
                a.as_str(),
                b.as_str(),
            ),
            _ => false,
        }
    }

    /// How the destination is shown in lists and prompts.
    pub fn label(&self) -> (r: String)
        ensures
            r@ == label_spec(self@),
    {
        match self {
            Destination::Simulator { name, os, state, .. } => {
                let head = str_concat3("[Simulator] ", name.as_str(), " (");
                let with_os = str_concat3(head.as_str(), os.as_str(), ")");
                match state {
                    Some(s) => {
                        let head2 = str_concat3(with_os.as_str(), " (", s.as_str());
                        str_concat(head2.as_str(), ")")
                    },
                    None => with_os,
                }
            },
            Destination::Device { name, device_type, .. } => {
                let head = str_concat3("[Device] ", name.as_str(), " (");
                str_concat3(head.as_str(), device_type.as_str(), ")")
            },
            Destination::MacOS { arch } => str_concat3("[macOS] My Mac (", arch.as_str(), ")"),
        }
    }

    /// A copy of this destination.
    pub fn duplicate(&self) -> (r: Destination)
        ensures
            r@ == self@,
    {
        match self {
            Destination::Simulator { udid, name, os, state } => Destination::Simulator {
                udid: udid.clone(),
                name: name.clone(),
                os: os.clone(),
                state: match state {
                    Some(s) => Some(s.clone()),
                    None => None,
                },
            },
            Destination::Device { udid, identifier, name, device_type } => Destination::Device {
                udid: udid.clone(),
                identifier: identifier.clone(),
                name: name.clone(),
                device_type: device_type.clone(),
            },
            Destination::MacOS { arch } => Destination::MacOS { arch: arch.clone() },
        }
    }
}

// ---------------------------------------------------------------------------
// Parsing
// ---------------------------------------------------------------------------

/// Parse a destination spec like "simulator:<udid>", "device:<udid>", or
/// "macos"; `arch` is the architecture of this Mac.
pub fn parse_destination_spec(spec: &str, arch: &str) -> (r: Result<Destination, XcraftError>)
    ensures
        match parse_spec(spec@, arch@) {
            Some(m) => r matches Ok(d) && d@ == m,
            None => r matches Err(XcraftError::InvalidDestinationSpec { spec: s }) && s@ == spec@,
        },
{
    if str_eq(spec, "macos") {
        return Ok(Destination::MacOS { arch: owned(arch) });
    }
    if let Some(udid) = strip_prefix(spec, "simulator:") {
        return Ok(
            Destination::Simulator {
                udid,
                name: String::new(),
                os: String::new(),
                state: None,
            },
        );
    }
    if let Some(udid) = strip_prefix(spec, "device:") {
        let identifier = udid.clone();
        return Ok(
            Destination::Device {
                udid,
                identifier,
                name: String::new(),
                device_type: String::new(),
            },
        );
    }
    Err(XcraftError::InvalidDestinationSpec { spec: owned(spec) })
}

/// Extract a human-readable OS string from a runtime identifier.
/// e.g. "com.apple.CoreSimulator.SimRuntime.iOS-17-2" -> "iOS 17.2"
pub fn runtime_to_os(runtime: &str) -> (r: String)
    ensures
        r@ == runtime_to_os_spec(runtime@),
{
    let s = match strip_prefix(runtime, "com.apple.CoreSimulator.SimRuntime.") {
        Some(rest) => rest,
        None => owned(runtime),
    };
    match find_char(s.as_str(), '-') {
        Some(pos) => {
            let ghost chosen = first_index_of(s@, '-');
            assert(chosen == pos as int) by {
                assert(s@[pos as int] == '-');
                assert(s@.contains('-'));
                if chosen < pos {
                    assert(s@[chosen] != '-');
                } else if chosen > pos {
                    assert(s@[pos as int] != '-');
                }
            }
            let cs = chars_of(s.as_str());
            assert(cs@.len() == cs.len());
            let os_name = string_of_range(&cs, 0, pos);
            let rest = string_of_range(&cs, pos + 1, cs.len());
            let version = replace_char(rest.as_str(), '-', '.');
            assert(cs@.subrange(0, pos as int) =~= s@.take(pos as int));
            assert(cs@.subrange(pos + 1, cs.len() as int) =~= s@.skip(pos + 1));
            let r = str_concat3(os_name.as_str(), " ", version.as_str());
            proof {
                reveal_strlit(" ");
                assert(" "@ =~= seq![' ']);
            }
            r
        },
        None => s,
    }
}

// ---------------------------------------------------------------------------
// Listing
// ---------------------------------------------------------------------------

/// A simulator as `xcrun simctl list --json devices` reports it.
pub struct SimDevice {
    pub udid: String,
    pub name: String,
    pub state: Option<String>,
    pub is_available: bool,
}

/// The destinations for the available simulators of one runtime.
pub open spec fn runtime_simulators_spec(os: Seq<char>, devices: Seq<SimDevice>) -> Seq<
    DestinationModel,
>
    decreases devices.len(),
{
    if devices.len() == 0 {
        Seq::empty()
    } else {
        let d = devices.last();
        let rest = runtime_simulators_spec(os, devices.drop_last());
        if d.is_available {
            rest.push(
                DestinationModel::Simulator {
                    udid: d.udid@,
                    name: d.name@,
                    os,
                    state: opt_view(d.state),
                },
            )
        } else {
            rest
        }
    }
}

/// The destinations for the available simulators of all runtimes, runtime by
/// runtime in the order given.
pub open spec fn simulators_spec(runtimes: Seq<(String, Vec<SimDevice>)>) -> Seq<DestinationModel>
    decreases runtimes.len(),
{
    if runtimes.len() == 0 {
        Seq::empty()
    } else {
        simulators_spec(runtimes.drop_last()) + runtime_simulators_spec(
            runtime_to_os_spec(runtimes.last().0@),
            runtimes.last().1@,
        )
    }
}

/// The views of a list of destinations.
pub open spec fn models(v: Seq<Destination>) -> Seq<DestinationModel> {
    v.map_values(|d: Destination| d@)
}

/// The simulator destinations in the device lists of `xcrun simctl`, keyed
/// by runtime identifier, in the order given; unavailable simulators are
/// left out.
pub fn list_simulators(runtimes: &Vec<(String, Vec<SimDevice>)>) -> (r: Vec<Destination>)
    ensures
        models(r@) == simulators_spec(runtimes@),
{
    let mut results: Vec<Destination> = Vec::new();
    let mut i: usize = 0;
    while i < runtimes.len()
        invariant
            i <= runtimes.len(),
            models(results@) == simulators_spec(runtimes@.take(i as int)),
        decreases runtimes.len() - i,
    {
        let os = runtime_to_os(runtimes[i].0.as_str());
        let devices = &runtimes[i].1;
        let ghost base = results@;
        let mut j: usize = 0;
        while j < devices.len()
            invariant
                i < runtimes.len(),
                devices == runtimes@[i as int].1,
                j <= devices.len(),
                os@ == runtime_to_os_spec(runtimes@[i as int].0@),
                models(base) == simulators_spec(runtimes@.take(i as int)),
                models(results@) == models(base) + runtime_simulators_spec(
                    os@,
                    devices@.take(j as int),
                ),
            decreases devices.len() - j,
        {
            let dev = &devices[j];
            assert(devices@.take(j + 1).drop_last() =~= devices@.take(j as int));
            assert(devices@.take(j + 1).last() == *dev);
            if dev.is_available {
                let d = Destination::Simulator {
                    udid: dev.udid.clone(),
                    name: dev.name.clone(),
                    os: os.clone(),
                    state: match &dev.state {
                        Some(s) => Some(s.clone()),
                        None => None,
                    },
                };
                let ghost before = results@;
                results.push(d);
                assert(models(results@) =~= models(before).push(d@));
            }
            j = j + 1;
        }
        assert(devices@.take(devices.len() as int) =~= devices@);
        assert(runtimes@.take(i + 1).drop_last() =~= runtimes@.take(i as int));
        assert(runtimes@.take(i + 1).last() == runtimes@[i as int]);
        i = i + 1;
    }
    assert(runtimes@.take(runtimes.len() as int) =~= runtimes@);
    results
}

/// A physical device as `xcrun devicectl list devices` reports it.
pub struct DeviceCtlDevice {
    pub identifier: String,
    pub name: String,
    pub device_type: Option<String>,
    pub udid: Option<String>,
}

/// The destination for a device: its traditional UDID, or its CoreDevice
/// identifier when it has none; `Unknown` when the type is not reported.
pub open spec fn device_spec(d: DeviceCtlDevice) -> DestinationModel {
    DestinationModel::Device {
        udid: match d.udid {
            Some(u) => u@,
            None => d.identifier@,
        },
        identifier: d.identifier@,
        name: d.name@,
        device_type: match d.device_type {
            Some(t) => t@,
            None => "Unknown"@,
        },
    }
}

/// The device destinations in the device list of `xcrun devicectl`.
pub fn list_devices(devices: &Vec<DeviceCtlDevice>) -> (r: Vec<Destination>)
    ensures
        r.len() == devices.len(),
        forall|i: int| 0 <= i < devices.len() ==> #[trigger] r@[i]@ == device_spec(devices@[i]),
{
    let mut results: Vec<Destination> = Vec::new();
    let mut i: usize = 0;
    while i < devices.len()
        invariant
            i <= devices.len(),
            results.len() == i,
            forall|k: int| 0 <= k < i ==> #[trigger] results@[k]@ == device_spec(devices@[k]),
        decreases devices.len() - i,
    {
        let d = &devices[i];
        let udid = match &d.udid {
            Some(u) => u.clone(),
            None => d.identifier.clone(),
        };
        let device_type = match &d.device_type {
            Some(t) => t.clone(),
            None => owned("Unknown"),
        };
        results.push(
            Destination::Device {
                udid,
                identifier: d.identifier.clone(),
                name: d.name.clone(),
                device_type,
            },
        );
        i = i + 1;
    }
    results
}

/// The views of an optional list of destinations (empty when absent).
pub open spec fn opt_models(o: Option<Vec<Destination>>) -> Seq<DestinationModel> {
    match o {
        Some(v) => models(v@),
        None => Seq::empty(),
    }
}

/// All destinations: the physical devices (when they could be listed), then
/// the simulators (when they could be listed), then this Mac with `arch`.
pub fn list_destinations(
    devices: Option<Vec<Destination>>,
    simulators: Option<Vec<Destination>>,
    arch: &str,
) -> (r: Vec<Destination>)
    ensures
        models(r@) == opt_models(devices) + opt_models(simulators) + seq![
            DestinationModel::MacOS { arch: arch@ },
        ],
{
    let ghost dm = opt_models(devices);
    let ghost sm = opt_models(simulators);
    let mut dests: Vec<Destination> = Vec::new();
    if let Some(mut devs) = devices {
        dests.append(&mut devs);
    }
    assert(models(dests@) =~= dm);
    let ghost mid = dests@;
    if let Some(mut sims) = simulators {
        dests.append(&mut sims);
    }
    assert(models(dests@) =~= models(mid) + sm);
    let ghost before = dests@;
    let mac = Destination::MacOS { arch: owned(arch) };
    dests.push(mac);
    assert(models(dests@) =~= models(before).push(mac@));
    assert(models(dests@) =~= dm + sm + seq![mac@]);
    dests
}

// ---------------------------------------------------------------------------
// Resolution
// ---------------------------------------------------------------------------

/// The index that a destination prompt starts at: the first candidate with
/// the same target as `default`, else 0.
pub open spec fn destination_default_index(
    candidates: Seq<Destination>,
    default: Option<DestinationModel>,
    i: int,
) -> bool {
    match default {
        Some(d) => is_default_position(candidates, |c: Destination| same_target_spec(c@, d), i),
        None => i == 0,
    }
}

/// Resolve the destination: the explicit spec if given; otherwise the one
/// the user picks among the available destinations, starting at the one with
/// the same target as `default`.
pub fn resolve_destination(
    explicit: Option<&str>,
    default: Option<&Destination>,
    arch: &str,
    candidates: Option<Vec<Destination>>,
) -> (r: Resolution<Destination>)
    ensures
        explicit matches Some(spec) ==> match parse_spec(spec@, arch@) {
            Some(m) => r matches Resolution::Chosen(d) && d@ == m,
            None => r matches Resolution::Failed(XcraftError::InvalidDestinationSpec { spec: s })
                && s@ == spec@,
        },
        explicit is None ==> match candidates {
            None => r is NeedCandidates,
            Some(c) => if c.len() == 0 {
                r == Resolution::<Destination>::Failed(XcraftError::NoDestinations)
            } else {
                r matches Resolution::Ask(p) && {
                    &&& p.items@ == c@
                    &&& p.labels.len() == c.len()
                    &&& forall|i: int|
                        0 <= i < c.len() ==> #[trigger] p.labels@[i]@ == label_spec(c@[i]@)
                    &&& destination_default_index(
                        c@,
                        match default {
                            Some(d) => Some(d@),
                            None => None,
                        },
                        p.default_index as int,
                    )
                }
            },
        },
{
    if let Some(spec) = explicit {
        return match parse_destination_spec(spec, arch) {
            Ok(d) => Resolution::Chosen(d),
            Err(e) => Resolution::Failed(e),
        };
    }
    let dests = match candidates {
        Some(c) => c,
        None => return Resolution::NeedCandidates,
    };
    if dests.len() == 0 {
        return Resolution::Failed(XcraftError::NoDestinations);
    }
    let mut labels: Vec<String> = Vec::new();
    let mut i: usize = 0;
    while i < dests.len()
        invariant
            i <= dests.len(),
            labels.len() == i,
            forall|k: int| 0 <= k < i ==> #[trigger] labels@[k]@ == label_spec(dests@[k]@),
        decreases dests.len() - i,
    {
        labels.push(dests[i].label());
        i = i + 1;
    }
    let mut default_index: usize = 0;
    if let Some(d) = default {
        let ghost pred = |c: Destination| same_target_spec(c@, d@);
        let mut j: usize = 0;
        let mut found = false;
        while j < dests.len() && !found
            invariant
                j <= dests.len(),
                pred == (|c: Destination| same_target_spec(c@, d@)),
                found ==> j < dests.len() && pred(dests@[j as int]),
                forall|k: int| 0 <= k < j ==> !#[trigger] pred(dests@[k]),
            decreases dests.len() - j + (if found {
                0int
            } else {
                1int
            }),
        {
            if dests[j].same_target(d) {
                found = true;
            } else {
                j = j + 1;
            }
        }
        if found {
            default_index = j;
        }
    }
    Resolution::Ask(Prompt { items: dests, labels, default_index })
}

// ---------------------------------------------------------------------------
// Listing entries
// ---------------------------------------------------------------------------

/// A destination as `destinations --json` lists it, with the spec string that
/// selects it.
pub enum DestinationEntry {
    Simulator { name: String, os: String, state: Option<String>, arg: String },
    Device { name: String, device_type: String, arg: String },
    MacOS { arch: String, arg: String },
}

/// The listing entry for a destination.
pub fn destination_entry(d: Destination) -> (r: DestinationEntry)
    ensures
        match (d@, r) {
            (
                DestinationModel::Simulator { name, os, state, .. },
                DestinationEntry::Simulator { name: n, os: o, state: s, arg },
            ) => n@ == name && o@ == os && opt_view(s) == state && arg@
                == destination_spec_string(d@),
            (
                DestinationModel::Device { name, device_type, .. },
                DestinationEntry::Device { name: n, device_type: t, arg },
            ) => n@ == name && t@ == device_type && arg@ == destination_spec_string(d@),
            (DestinationModel::MacOS { arch }, DestinationEntry::MacOS { arch: a, arg }) => a@
                == arch && arg@ == destination_spec_string(d@),
            _ => false,
        },
{
    let arg = d.spec();
    match d {
        Destination::Simulator { name, os, state, .. } => DestinationEntry::Simulator {
            name,
            os,
            state,
            arg,
        },
        Destination::Device { name, device_type, .. } => DestinationEntry::Device {
            name,
            device_type,
            arg,
        },
        Destination::MacOS { arch } => DestinationEntry::MacOS { arch, arg },
    }
}

} // verus!

verus! {

// ---------------------------------------------------------------------------
// Laws
// ---------------------------------------------------------------------------

/// `spec` is the inverse of `parse_destination_spec`: parsing the spec string
/// of a simulator or device gives a destination with the same target, and
/// parsing `macos` gives this Mac.
pub proof fn lemma_parse_spec_of_destination(d: DestinationModel, arch: Seq<char>)
    ensures
        match d {
            DestinationModel::MacOS { .. } => parse_spec(destination_spec_string(d), arch)
                == Some(DestinationModel::MacOS { arch }),
            _ => parse_spec(destination_spec_string(d), arch) matches Some(m) && same_target_spec(
                m,
                d,
            ),
        },
{
    reveal_strlit("macos");
    reveal_strlit("simulator:");
    reveal_strlit("device:");
    match d {
        DestinationModel::Simulator { udid, .. } => {
            let s = "simulator:"@ + udid;
            assert(s[0] == 's');
            assert("macos"@[0] == 'm');
            assert(s != "macos"@);
            assert(s.subrange(0, "simulator:"@.len() as int) =~= "simulator:"@);
            assert(s.skip("simulator:"@.len() as int) =~= udid);
        },
        DestinationModel::Device { udid, .. } => {
            let s = "device:"@ + udid;
            assert(s[0] == 'd');
            assert("macos"@[0] == 'm');
            assert(s != "macos"@);
            assert("simulator:"@[0] == 's');
            assert(!"simulator:"@.is_prefix_of(s)) by {
                if "simulator:"@.is_prefix_of(s) {
                    assert(s.subrange(0, "simulator:"@.len() as int)[0] == s[0]);
                }
            }
            assert(s.subrange(0, "device:"@.len() as int) =~= "device:"@);
            assert(s.skip("device:"@.len() as int) =~= udid);
        },
        DestinationModel::MacOS { .. } => {},
    }
}

/// Every spec string that parses is the spec string of what it parses to.
pub proof fn lemma_spec_of_parsed(s: Seq<char>, arch: Seq<char>)
    ensures
        parse_spec(s, arch) matches Some(m) ==> destination_spec_string(m) == s,
{
    if let Some(m) = parse_spec(s, arch) {
        if s == "macos"@ {
        } else if "simulator:"@.is_prefix_of(s) {
            assert("simulator:"@ + s.skip("simulator:"@.len() as int) =~= s);
        } else {
            assert("device:"@ + s.skip("device:"@.len() as int) =~= s);
        }
    }
}

/// Referring to the same target is an equivalence relation.
pub proof fn lemma_same_target_equivalence(a: DestinationModel, b: DestinationModel, c: DestinationModel)
    ensures
        same_target_spec(a, a),
        same_target_spec(a, b) ==> same_target_spec(b, a),
        same_target_spec(a, b) && same_target_spec(b, c) ==> same_target_spec(a, c),
{
}

/// Destinations with the same target build and select alike: they have the
/// same `-destination` string and the same spec string.
pub proof fn lemma_same_target_same_strings(a: DestinationModel, b: DestinationModel)
    requires
        same_target_spec(a, b),
    ensures
        xcodebuild_destination_spec(a) == xcodebuild_destination_spec(b),
        destination_spec_string(a) == destination_spec_string(b),
{
}

/// The simulators of one runtime that are listed are exactly its available
/// devices, each with its own udid, name and state and the runtime's OS.
proof fn lemma_runtime_simulators(os: Seq<char>, devices: Seq<SimDevice>)
    ensures
        forall|j: int|
            0 <= j < devices.len() && (#[trigger] devices[j]).is_available
                ==> runtime_simulators_spec(os, devices).contains(
                (DestinationModel::Simulator {
                    udid: devices[j].udid@,
                    name: devices[j].name@,
                    os,
                    state: opt_view(devices[j].state),
                }),
            ),
        forall|k: int|
            0 <= k < runtime_simulators_spec(os, devices).len() ==> exists|j: int|
                0 <= j < devices.len() && (#[trigger] devices[j]).is_available
                    && #[trigger] runtime_simulators_spec(os, devices)[k] == (DestinationModel::Simulator {
                    udid: devices[j].udid@,
                    name: devices[j].name@,
                    os,
                    state: opt_view(devices[j].state),
                }),
        runtime_simulators_spec(os, devices).len() <= devices.len(),
    decreases devices.len(),
{
    if devices.len() > 0 {
        let init = devices.drop_last();
        lemma_runtime_simulators(os, init);
        let rest = runtime_simulators_spec(os, init);
        let all = runtime_simulators_spec(os, devices);
        let n = devices.len() - 1;
        assert(rest.is_prefix_of(all));
        assert forall|j: int|
            0 <= j < devices.len() && (#[trigger] devices[j]).is_available implies all.contains(
            (DestinationModel::Simulator {
                udid: devices[j].udid@,
                name: devices[j].name@,
                os,
                state: opt_view(devices[j].state),
            }),
        ) by {
            if j < n {
                assert(init[j] == devices[j]);
                let m = (DestinationModel::Simulator {
                    udid: devices[j].udid@,
                    name: devices[j].name@,
                    os,
                    state: opt_view(devices[j].state),
                });
                assert(rest.contains(m));
                let k = choose|k: int| 0 <= k < rest.len() && rest[k] == m;
                assert(all[k] == rest[k]);
            } else {
                assert(all[all.len() - 1] == (DestinationModel::Simulator {
                    udid: devices[j].udid@,
                    name: devices[j].name@,
                    os,
                    state: opt_view(devices[j].state),
                }));
            }
        }
        assert forall|k: int| 0 <= k < all.len() implies exists|j: int|
            0 <= j < devices.len() && (#[trigger] devices[j]).is_available && #[trigger] all[k]
                == (DestinationModel::Simulator {
                udid: devices[j].udid@,
                name: devices[j].name@,
                os,
                state: opt_view(devices[j].state),
            }) by {
            if k < rest.len() {
                assert(all[k] == rest[k]);
                let j = choose|j: int|
                    0 <= j < init.len() && (#[trigger] init[j]).is_available && rest[k]
                        == (DestinationModel::Simulator {
                        udid: init[j].udid@,
                        name: init[j].name@,
                        os,
                        state: opt_view(init[j].state),
                    });
                assert(init[j] == devices[j]);
            } else {
                assert(devices[n].is_available);
            }
        }
    }
}

/// Listing simulators drops nothing but unavailable devices and invents
/// nothing: every available device of every runtime is listed, with its
/// udid, name and state and the runtime's OS name, and every listed
/// simulator is such a device.
pub proof fn lemma_simulators_listed(runtimes: Seq<(String, Vec<SimDevice>)>)
    ensures
        forall|i: int, j: int|
            0 <= i < runtimes.len() && 0 <= j < runtimes[i].1@.len() && (#[trigger] runtimes[i].1@[j]).is_available
                ==> simulators_spec(runtimes).contains(
                (DestinationModel::Simulator {
                    udid: runtimes[i].1@[j].udid@,
                    name: runtimes[i].1@[j].name@,
                    os: runtime_to_os_spec(runtimes[i].0@),
                    state: opt_view(runtimes[i].1@[j].state),
                }),
            ),
        forall|k: int|
            0 <= k < simulators_spec(runtimes).len() ==> exists|i: int, j: int|
                0 <= i < runtimes.len() && 0 <= j < runtimes[i].1@.len()
                    && (#[trigger] runtimes[i].1@[j]).is_available
                    && #[trigger] simulators_spec(runtimes)[k] == (DestinationModel::Simulator {
                    udid: runtimes[i].1@[j].udid@,
                    name: runtimes[i].1@[j].name@,
                    os: runtime_to_os_spec(runtimes[i].0@),
                    state: opt_view(runtimes[i].1@[j].state),
                }),
    decreases runtimes.len(),
{
    if runtimes.len() > 0 {
        let init = runtimes.drop_last();
        let n = runtimes.len() - 1;
        let last = runtimes[n];
        let os = runtime_to_os_spec(last.0@);
        lemma_simulators_listed(init);
        lemma_runtime_simulators(os, last.1@);
        let front = simulators_spec(init);
        let back = runtime_simulators_spec(os, last.1@);
        let all = simulators_spec(runtimes);
        assert(all == front + back);
        assert forall|i: int, j: int|
            0 <= i < runtimes.len() && 0 <= j < runtimes[i].1@.len() && (#[trigger] runtimes[i].1@[j]).is_available
                implies all.contains(
            (DestinationModel::Simulator {
                udid: runtimes[i].1@[j].udid@,
                name: runtimes[i].1@[j].name@,
                os: runtime_to_os_spec(runtimes[i].0@),
                state: opt_view(runtimes[i].1@[j].state),
            }),
        ) by {
            let m = (DestinationModel::Simulator {
                udid: runtimes[i].1@[j].udid@,
                name: runtimes[i].1@[j].name@,
                os: runtime_to_os_spec(runtimes[i].0@),
                state: opt_view(runtimes[i].1@[j].state),
            });
            if i < n {
                assert(init[i] == runtimes[i]);
                assert(init[i].1@[j].is_available);
                assert(front.contains(m));
                let k = choose|k: int| 0 <= k < front.len() && front[k] == m;
                assert(all[k] == front[k]);
            } else {
                assert(last.1@[j].is_available);
                assert(back.contains(m));
                let k = choose|k: int| 0 <= k < back.len() && back[k] == m;
                assert(all[front.len() + k] == back[k]);
            }
        }
        assert forall|k: int| 0 <= k < all.len() implies exists|i: int, j: int|
            0 <= i < runtimes.len() && 0 <= j < runtimes[i].1@.len()
                && (#[trigger] runtimes[i].1@[j]).is_available && #[trigger] all[k]
                == (DestinationModel::Simulator {
                udid: runtimes[i].1@[j].udid@,
                name: runtimes[i].1@[j].name@,
                os: runtime_to_os_spec(runtimes[i].0@),
                state: opt_view(runtimes[i].1@[j].state),
            }) by {
            if k < front.len() {
                assert(all[k] == front[k]);
                let (i, j) = choose|i: int, j: int|
                    0 <= i < init.len() && 0 <= j < init[i].1@.len()
                        && (#[trigger] init[i].1@[j]).is_available && front[k]
                        == (DestinationModel::Simulator {
                        udid: init[i].1@[j].udid@,
                        name: init[i].1@[j].name@,
                        os: runtime_to_os_spec(init[i].0@),
                        state: opt_view(init[i].1@[j].state),
                    });
                assert(init[i] == runtimes[i]);
                assert(runtimes[i].1@[j].is_available);
            } else {
                let kk = k - front.len();
                assert(all[k] == back[kk]);
                let j = choose|j: int|
                    0 <= j < last.1@.len() && (#[trigger] last.1@[j]).is_available && back[kk]
                        == (DestinationModel::Simulator {
                        udid: last.1@[j].udid@,
                        name: last.1@[j].name@,
                        os,
                        state: opt_view(last.1@[j].state),
                    });
                assert(runtimes[n].1@[j].is_available);
            }
        }
    }
}

} // verus!
