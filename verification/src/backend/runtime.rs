//! Runtime descriptions that need no device.
use vstd::prelude::*;

verus! {

/// WGPU runtime placeholder of a build without a WGPU runtime: it records why
/// the runtime is unavailable.
#[derive(Debug)]
pub struct WgpuRuntime {
    reason: String,
}

impl WgpuRuntime {
    /// Why the runtime is unavailable.
    pub closed spec fn reason_spec(&self) -> Seq<char> {
        self.reason@
    }

    pub fn unavailable(reason: String) -> (r: Self)
        ensures
            r.reason_spec() == reason@,
    {
        WgpuRuntime { reason }
    }

    pub fn reason(&self) -> (r: &str)
        ensures
            r@ == self.reason_spec(),
    {
        self.reason.as_str()
    }
}

} // verus!
