//! Choosing one item among candidates, possibly by asking the user.
use vstd::prelude::*;

use crate::error::XcraftError;

verus! {

/// A question for the user: pick one of `items`, shown as `labels`, with
/// `default_index` selected at first.
pub struct Prompt<T> {
    pub items: Vec<T>,
    pub labels: Vec<String>,
    pub default_index: usize,
}

/// The outcome of one resolution step.
pub enum Resolution<T> {
    /// The value is settled.
    Chosen(T),
    /// The candidates must be listed, and the step taken again with them.
    NeedCandidates,
    /// The user must pick among the candidates.
    Ask(Prompt<T>),
    /// The resolution cannot succeed.
    Failed(XcraftError),
}

/// `i` is what `position(p).unwrap_or(0)` gives on `s`: the first index whose
/// item satisfies `p`, or 0 when none does.
pub open spec fn is_default_position<T>(s: Seq<T>, p: spec_fn(T) -> bool, i: int) -> bool {
    if exists|j: int| 0 <= j < s.len() && #[trigger] p(s[j]) {
        &&& 0 <= i < s.len()
        &&& p(s[i])
        &&& forall|j: int| 0 <= j < i ==> !#[trigger] p(s[j])
    } else {
        i == 0
    }
}

impl<T> Prompt<T> {
    /// The item that the user picked.
    pub fn pick(self, index: usize) -> (r: T)
        requires
            index < self.items.len(),
        ensures
            r == self.items@[index as int],
    {
        let mut items = self.items;
        items.remove(index)
    }
}

} // verus!
