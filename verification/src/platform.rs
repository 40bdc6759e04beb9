use vstd::prelude::*;

verus! {

/// The platform that the forge runs on: the source of its process runner,
/// environment, file system and requests.
#[derive(Default)]
pub struct PlatformImpl;

impl PlatformImpl {
    pub fn new() -> PlatformImpl {
        PlatformImpl
    }
}

/// The platform of this machine.
pub fn platform() -> PlatformImpl {
    PlatformImpl::new()
}

} // verus!
