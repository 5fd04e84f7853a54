//! Tokens that stand for a feature of the processor.

use crate::func::Func;
use vstd::prelude::*;

verus! {

/// A token that stands for SSE being available: whoever holds one has been told so by a
/// check of the processor.
#[derive(Debug, Clone, Copy, PartialEq, Eq, PartialOrd, Ord, Hash)]
pub struct Sse {
    __private: (),
}

impl Sse {
    /// The token, if the check of the processor found SSE.
    pub fn new(detected: bool) -> (r: Option<Sse>)
        ensures
            r.is_some() == detected,
    {
        if detected {
            Some(Sse { __private: () })
        } else {
            None
        }
    }

    /// Call a given closure with SSE enabled.
    pub fn run<F: Func>(self, f: F) -> (r: F::Output)
        requires
            f.callable(),
        ensures
            f.yields(r),
    {
        f.call()
    }
}

} // verus!
