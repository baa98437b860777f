//! The errors that the library's decisions can end in.
use vstd::prelude::*;

verus! {

/// Why a resolution, a query or a launch cannot go on.
#[derive(Debug, PartialEq, Eq)]
pub enum XcraftError {
    /// No `.xcworkspace`, `Package.swift` or `Project.swift` was found.
    NoWorkspaceFound,
    /// `tuist generate` left no `.xcworkspace` in `dir`.
    NoGeneratedWorkspace { dir: String },
    /// `xcodebuild -list` reported no scheme.
    NoSchemesInWorkspace,
    /// There is no scheme to choose from.
    NoSchemes,
    /// There is no destination to choose from.
    NoDestinations,
    /// A `--destination` value that is none of the accepted forms.
    InvalidDestinationSpec { spec: String },
    /// `xcodebuild -showBuildSettings` returned no entry.
    NoBuildSettings,
    /// A build setting that the launch needs is absent.
    MissingBuildSetting { key: String },
    /// No build setting names the app bundle.
    NoAppName,
    /// A BSP message header is not `Content-Length: <N>`.
    InvalidBspHeader { header: String },
    /// A BSP message body held fewer bytes than its header announced.
    ShortBspBody { expected: usize, got: usize },
    /// The forwarder was answered with an event that does not fit its state.
    UnexpectedBspEvent,
    /// The cache holds no workspace or no scheme.
    NoCachedState,
}

} // verus!
