//! The selections kept between runs (`.xcli/state.toml`).
use vstd::prelude::*;

use crate::destination::{opt_view, Destination, DestinationModel};

verus! {

/// What `bsp config` records for the build server.
pub struct BspState {
    pub generated_workspace: Option<String>,
    pub build_root: Option<String>,
}

/// Persisted state from the last resolution.
pub struct CachedState {
    pub workspace: Option<String>,
    pub scheme: Option<String>,
    pub configuration: Option<String>,
    pub destination: Option<Destination>,
    pub bsp: Option<BspState>,
}

/// The mathematical value of a `BspState`.
pub struct BspModel {
    pub generated_workspace: Option<Seq<char>>,
    pub build_root: Option<Seq<char>>,
}

/// The mathematical value of a `CachedState`.
pub struct CacheModel {
    pub workspace: Option<Seq<char>>,
    pub scheme: Option<Seq<char>>,
    pub configuration: Option<Seq<char>>,
    pub destination: Option<DestinationModel>,
    pub bsp: Option<BspModel>,
}

impl View for BspState {
    type V = BspModel;

    open spec fn view(&self) -> BspModel {
        BspModel {
            generated_workspace: opt_view(self.generated_workspace),
            build_root: opt_view(self.build_root),
        }
    }
}

impl View for CachedState {
    type V = CacheModel;

    open spec fn view(&self) -> CacheModel {
        CacheModel {
            workspace: opt_view(self.workspace),
            scheme: opt_view(self.scheme),
            configuration: opt_view(self.configuration),
            destination: match self.destination {
                Some(d) => Some(d@),
                None => None,
            },
            bsp: match self.bsp {
                Some(b) => Some(b@),
                None => None,
            },
        }
    }
}

impl Default for CachedState {
    /// The empty state: nothing selected yet.
    fn default() -> (r: Self)
        ensures
            r@ == (CacheModel {
                workspace: None,
                scheme: None,
                configuration: None,
                destination: None,
                bsp: None,
            }),
    {
        CachedState { workspace: None, scheme: None, configuration: None, destination: None, bsp: None }
    }
}

} // verus!
