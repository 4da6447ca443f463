//! The transparent proxy, for now an empty contract that deploys and
//! accepts a call that does nothing.

use vstd::prelude::*;

verus! {

/// The proxy's storage: empty.
#[derive(Debug, Clone, Copy, PartialEq, Eq, Structural)]
pub struct TransparentProxy {}

impl TransparentProxy {
    /// Deploys the proxy.
    pub fn new() -> (proxy: Self)
        ensures
            proxy == (TransparentProxy {}),
    {
        Self {}
    }

    /// A message that changes nothing and answers nothing.
    pub fn noop(&self) {
    }
}

} // verus!
