//! Framebuffers: the pixel data that a plane shows.
use vstd::prelude::*;

use crate::control::RawHandle;

verus! {

/// The name of a framebuffer. Zero names none.
#[derive(Debug, Copy, Clone, Hash, PartialEq, Eq, Structural)]
pub struct Handle(pub RawHandle);

impl From<RawHandle> for Handle {
    fn from(raw: RawHandle) -> (handle: Handle) {
        Handle(raw)
    }
}

impl vstd::std_specs::convert::FromSpecImpl<RawHandle> for Handle {
    open spec fn obeys_from_spec() -> bool {
        true
    }

    open spec fn from_spec(raw: RawHandle) -> Handle {
        Handle(raw)
    }
}

impl From<Handle> for RawHandle {
    fn from(handle: Handle) -> (raw: RawHandle) {
        handle.0
    }
}

impl vstd::std_specs::convert::FromSpecImpl<Handle> for RawHandle {
    open spec fn obeys_from_spec() -> bool {
        true
    }

    open spec fn from_spec(handle: Handle) -> RawHandle {
        handle.0
    }
}

} // verus!
