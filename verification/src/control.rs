//! Resources of a mode-setting device, and the device that they live on.
use vstd::prelude::*;

use crate::result::Error;

pub mod crtc;
pub mod framebuffer;
pub mod plane;

verus! {

/// The number by which the kernel knows a resource.
pub type RawHandle = u32;

/// A device that carries out control transfers.
///
/// The operations of this crate borrow a device for one call and ask it for
/// one transfer. They never open, keep or close anything themselves.
pub trait Device {
    /// Whether a transfer of `request` that is handed the words `sent` may end
    /// with `outcome` and leave the words `reply` in the record.
    ///
    /// What a device answers depends on state that only the kernel holds, so
    /// this is a relation, and two transfers of the same record may end
    /// differently. A device that says nothing of itself admits every answer.
    open spec fn answers(
        &self,
        request: u32,
        sent: Seq<u32>,
        reply: Seq<u32>,
        outcome: Result<(), Error>,
    ) -> bool {
        true
    }

    /// The file descriptor that the transfers go to.
    fn as_raw_fd(&self) -> i32;

    /// Carries out the transfer `request` on `record`, which the device reads
    /// and may overwrite, and returns once it has completed or failed.
    ///
    /// All that is promised is that the outcome, with what is left in
    /// `record`, is an answer that [`Device::answers`] admits. A device that
    /// keeps the `answers` it was given promises nothing by that.
    fn control_transfer(&self, request: u32, record: &mut [u32]) -> (outcome: Result<(), Error>)
        ensures
            self.answers(request, old(record)@, final(record)@, outcome),
    ;
}

} // verus!
