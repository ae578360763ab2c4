//! Planes: what they are bound to, and how to bind them.
//!
//! A plane is either unbound, with no framebuffer attached, or bound to a
//! CRTC and a framebuffer with a geometry. [`set`] moves it between the two;
//! [`Info::load_from_device`] reads which one holds, and changes nothing. The
//! kernel keeps that state and decides what is allowed: nothing here rejects a
//! handle, a rectangle or a combination of them.
use vstd::prelude::*;
use vstd::std_specs::convert::FromSpec;

use crate::control::{crtc, framebuffer, Device, RawHandle};
use crate::ioctl::{
    GetPlane, SetPlane, GET_PLANE_WORDS, MODE_GETPLANE, MODE_SETPLANE, SET_PLANE_WORDS,
};
use crate::result::Error;
use crate::{iRect, uRect};

verus! {

/// The name of a plane.
///
/// It is the number by which the kernel knows the plane, and nothing more:
/// the kernel owns the plane, and a handle neither keeps it alive nor says
/// that it exists.
#[derive(Debug, Copy, Clone, Hash, PartialEq, Eq, Structural)]
pub struct Handle(pub RawHandle);

impl From<RawHandle> for Handle {
    fn from(raw: RawHandle) -> (handle: Handle) {
        Handle(raw)
    }
}

impl vstd::std_specs::convert::FromSpecImpl<RawHandle> for Handle {
    open spec fn obeys_from_spec() -> bool {
        true
    }

    open spec fn from_spec(raw: RawHandle) -> Handle {
        Handle(raw)
    }
}

impl From<Handle> for RawHandle {
    fn from(handle: Handle) -> (raw: RawHandle) {
        handle.0
    }
}

impl vstd::std_specs::convert::FromSpecImpl<Handle> for RawHandle {
    open spec fn obeys_from_spec() -> bool {
        true
    }

    open spec fn from_spec(handle: Handle) -> RawHandle {
        handle.0
    }
}

/// A handle made from a number gives that number back, whatever the number.
pub proof fn lemma_handle_gives_its_number_back(raw: RawHandle)
    ensures
        RawHandle::from_spec(Handle::from_spec(raw)) == raw,
{
}

/// A handle is the one that is made from its number: no two handles share a
/// number.
pub proof fn lemma_handle_is_made_from_its_number(handle: Handle)
    ensures
        Handle::from_spec(RawHandle::from_spec(handle)) == handle,
{
}

/// The field of an interlaced output that a binding applies to.
///
/// What the device reads is [`PresentFlag::bits`]. The numbering that a cast
/// of a variant gives is not it.
#[derive(Debug, Copy, Clone, Hash, PartialEq, Eq, Structural)]
pub enum PresentFlag {
    /// The top field: no bit set.
    TopField,
    /// The bottom field: bit 1 set.
    BottomField,
}

impl PresentFlag {
    /// The flag as the device reads it: the bottom field is bit 1, the top
    /// field is its absence. Flags of other bits can be or-ed to either.
    pub open spec fn spec_bits(self) -> u32 {
        match self {
            PresentFlag::TopField => 0,
            PresentFlag::BottomField => 2,
        }
    }

    /// The flag as the device reads it.
    #[verifier::when_used_as_spec(spec_bits)]
    pub fn bits(self) -> (bits: u32)
        ensures
            bits == self.spec_bits(),
            bits == 0 || bits == 2,
    {
        match self {
            PresentFlag::TopField => 0,
            PresentFlag::BottomField => 2,
        }
    }
}

/// What an [`Info`] holds, as a value that contracts can take apart.
pub struct InfoView {
    /// The plane that the snapshot is of.
    pub handle: Handle,
    /// The CRTC that showed the plane, or the zero handle.
    pub crtc: crtc::Handle,
    /// The framebuffer that was attached to the plane, or the zero handle.
    pub framebuffer: framebuffer::Handle,
    /// The number of entries in the gamma table of the plane.
    pub gamma_length: u32,
}

/// The state of a plane at the moment it was loaded.
///
/// A snapshot does not follow the plane: it cannot be changed, and to see a
/// later state is to load again.
#[derive(Debug, Copy, Clone, Hash, PartialEq, Eq, Structural)]
pub struct Info {
    handle: Handle,
    crtc: crtc::Handle,
    fb: framebuffer::Handle,
    gamma_length: u32,
}

impl View for Info {
    type V = InfoView;

    closed spec fn view(&self) -> InfoView {
        InfoView {
            handle: self.handle,
            crtc: self.crtc,
            framebuffer: self.fb,
            gamma_length: self.gamma_length,
        }
    }
}

impl Info {
    /// The record that asks about `handle`: its number as the plane, and zero
    /// in every other field.
    pub open spec fn spec_query(handle: Handle) -> GetPlane {
        GetPlane { plane_id: handle.0, ..GetPlane::zeroed() }
    }

    /// The snapshot of `handle` that the answer `record` describes.
    ///
    /// The plane is the one that was asked about, whatever `record` names as
    /// its plane: the device is not relied on to repeat it.
    pub open spec fn spec_snapshot(handle: Handle, record: GetPlane) -> InfoView {
        InfoView {
            handle,
            crtc: crtc::Handle(record.crtc_id),
            framebuffer: framebuffer::Handle(record.fb_id),
            gamma_length: record.gamma_size,
        }
    }

    /// Whether `loaded` is what a load of `handle` returns when the transfer
    /// ended with `outcome` and left the words `reply`: the snapshot that
    /// `reply` describes where the transfer completed, and else the error of
    /// the transfer, as it came.
    pub open spec fn is_loaded_from(
        loaded: Result<Info, Error>,
        handle: Handle,
        outcome: Result<(), Error>,
        reply: Seq<u32>,
    ) -> bool {
        match outcome {
            Ok(_) => loaded matches Ok(info) && info@ == Info::spec_snapshot(
                handle,
                GetPlane::spec_from_words(reply),
            ),
            Err(e) => loaded == Err::<Info, Error>(e),
        }
    }

    /// The record that asks about `handle`.
    pub fn query(handle: Handle) -> (record: GetPlane)
        ensures
            record == Info::spec_query(handle),
    {
        let mut record = GetPlane::default();
        record.plane_id = RawHandle::from(handle);
        record
    }

    /// What a load of `handle` returns once the transfer has ended with
    /// `outcome` and left `reply` in the record.
    pub fn from_transfer(
        handle: Handle,
        outcome: Result<(), Error>,
        reply: &[u32; GET_PLANE_WORDS],
    ) -> (loaded: Result<Info, Error>)
        ensures
            Info::is_loaded_from(loaded, handle, outcome, reply@),
            loaded is Ok <==> outcome is Ok,
            outcome matches Err(e) ==> loaded == Err::<Info, Error>(e),
            loaded matches Ok(info) ==> info@.handle == handle,
    {
        match outcome {
            Ok(_) => {
                let record = GetPlane::from_words(reply);
                Ok(
                    Info {
                        handle,
                        crtc: crtc::Handle::from(record.crtc_id),
                        fb: framebuffer::Handle::from(record.fb_id),
                        gamma_length: record.gamma_size,
                    },
                )
            },
            Err(e) => Err(e),
        }
    }

    /// Reads the state of the plane `handle` from `device`.
    ///
    /// One transfer is made, of [`MODE_GETPLANE`] on the record that
    /// [`Info::query`] builds, whatever `handle` is. Where it completes, the
    /// snapshot is read from what the device left; where it fails, its error
    /// is returned and no snapshot is made. Nothing is kept: each call asks
    /// the device again.
    pub fn load_from_device<T: Device>(device: &T, handle: Handle) -> (loaded: Result<Info, Error>)
        ensures
            exists|outcome: Result<(), Error>, reply: Seq<u32>|
                reply.len() == GET_PLANE_WORDS && #[trigger] device.answers(
                    MODE_GETPLANE,
                    Info::spec_query(handle).spec_to_words(),
                    reply,
                    outcome,
                ) && Info::is_loaded_from(loaded, handle, outcome, reply),
            loaded matches Ok(info) ==> info@.handle == handle,
    {
        let mut raw = Info::query(handle).to_words();
        let outcome = device.control_transfer(MODE_GETPLANE, &mut raw);
        Info::from_transfer(handle, outcome, &raw)
    }

    /// The plane that the snapshot is of.
    pub fn handle(&self) -> (handle: Handle)
        ensures
            handle == self@.handle,
    {
        self.handle
    }

    /// The CRTC that showed the plane, or the zero handle where none did.
    pub fn crtc(&self) -> (crtc: crtc::Handle)
        ensures
            crtc == self@.crtc,
    {
        self.crtc
    }

    /// The framebuffer that was attached to the plane, or the zero handle
    /// where none was.
    pub fn framebuffer(&self) -> (framebuffer: framebuffer::Handle)
        ensures
            framebuffer == self@.framebuffer,
    {
        self.fb
    }

    /// The number of entries in the gamma table of the plane.
    pub fn gamma_length(&self) -> (gamma_length: u32)
        ensures
            gamma_length == self@.gamma_length,
    {
        self.gamma_length
    }

    /// Two snapshots that hold the same are the same snapshot.
    pub proof fn lemma_view_determines_info(a: Info, b: Info)
        requires
            a@ == b@,
        ensures
            a == b,
    {
    }
}

/// The record that binds `plane` as [`set`] is asked to: each handle as its
/// number, the flag as its bits, `crtc_rect` as the place on the output and
/// `src_rect` as the region of the framebuffer, each number as it was given.
pub open spec fn spec_binding(
    plane: Handle,
    crtc: crtc::Handle,
    framebuffer: framebuffer::Handle,
    flags: PresentFlag,
    crtc_rect: iRect,
    src_rect: uRect,
) -> SetPlane {
    SetPlane {
        plane_id: plane.0,
        crtc_id: crtc.0,
        fb_id: framebuffer.0,
        flags: flags.spec_bits(),
        crtc_x: crtc_rect.0.0,
        crtc_y: crtc_rect.0.1,
        crtc_w: crtc_rect.1.0,
        crtc_h: crtc_rect.1.1,
        src_x: src_rect.0.0,
        src_y: src_rect.0.1,
        src_w: src_rect.1.0,
        src_h: src_rect.1.1,
    }
}

/// The record that binds `plane` as [`set`] is asked to.
pub fn binding(
    plane: Handle,
    crtc: crtc::Handle,
    framebuffer: framebuffer::Handle,
    flags: PresentFlag,
    crtc_rect: iRect,
    src_rect: uRect,
) -> (record: SetPlane)
    ensures
        record == spec_binding(plane, crtc, framebuffer, flags, crtc_rect, src_rect),
{
    let mut raw = SetPlane::default();

    raw.plane_id = RawHandle::from(plane);
    raw.crtc_id = RawHandle::from(crtc);
    raw.fb_id = RawHandle::from(framebuffer);
    raw.flags = flags.bits();
    raw.crtc_x = (crtc_rect.0).0;
    raw.crtc_y = (crtc_rect.0).1;
    raw.crtc_w = (crtc_rect.1).0;
    raw.crtc_h = (crtc_rect.1).1;
    raw.src_x = (src_rect.0).0;
    raw.src_y = (src_rect.0).1;
    raw.src_w = (src_rect.1).0;
    raw.src_h = (src_rect.1).1;

    raw
}

/// A binding hands each position on as it was given, a negative one too:
/// read back from the words that the device is handed, the record is the one
/// that was built, and its position is the one that was asked for.
pub proof fn lemma_binding_keeps_positions(
    plane: Handle,
    crtc: crtc::Handle,
    framebuffer: framebuffer::Handle,
    flags: PresentFlag,
    crtc_rect: iRect,
    src_rect: uRect,
)
    ensures
        ({
            let record = spec_binding(plane, crtc, framebuffer, flags, crtc_rect, src_rect);
            let read = SetPlane::spec_from_words(record.spec_to_words());
            &&& read == record
            &&& read.crtc_x == crtc_rect.0.0
            &&& read.crtc_y == crtc_rect.0.1
        }),
{
    SetPlane::lemma_record_round_trip(
        spec_binding(plane, crtc, framebuffer, flags, crtc_rect, src_rect),
    );
}

/// A binding with the zero handle as its framebuffer is built like any other:
/// it names no framebuffer, in the record and in the words that the device is
/// handed, and everything else as it was given. This is how a plane is
/// detached.
pub proof fn lemma_binding_without_framebuffer(
    plane: Handle,
    crtc: crtc::Handle,
    flags: PresentFlag,
    crtc_rect: iRect,
    src_rect: uRect,
    other: framebuffer::Handle,
)
    ensures
        ({
            let detach = spec_binding(
                plane,
                crtc,
                framebuffer::Handle(0),
                flags,
                crtc_rect,
                src_rect,
            );
            let attach = spec_binding(plane, crtc, other, flags, crtc_rect, src_rect);
            &&& detach.fb_id == 0
            &&& detach.spec_to_words().len() == SET_PLANE_WORDS
            &&& detach.spec_to_words()[2] == 0
            &&& detach == (SetPlane { fb_id: 0, ..attach })
        }),
{
}

/// Attaches a framebuffer to a CRTC's plane for hardware-composing.
///
/// The region `src_rect` of `framebuffer` is shown, scaled, at `crtc_rect` on
/// the output of `crtc`. With the zero handle as `framebuffer` the plane is
/// detached instead.
///
/// One transfer is made, of [`MODE_SETPLANE`] on the record that [`binding`]
/// builds, whatever the arguments are, and how it ended is what is returned:
/// success where it completed, and else its error, as it came. The device
/// applies a binding whole or not at all.
pub fn set<T: Device>(
    plane: Handle,
    device: &T,
    crtc: crtc::Handle,
    framebuffer: framebuffer::Handle,
    flags: PresentFlag,
    crtc_rect: iRect,
    src_rect: uRect,
) -> (outcome: Result<(), Error>)
    ensures
        exists|reply: Seq<u32>|
            reply.len() == SET_PLANE_WORDS && #[trigger] device.answers(
                MODE_SETPLANE,
                spec_binding(plane, crtc, framebuffer, flags, crtc_rect, src_rect).spec_to_words(),
                reply,
                outcome,
            ),
{
    let mut raw = binding(plane, crtc, framebuffer, flags, crtc_rect, src_rect).to_words();
    device.control_transfer(MODE_SETPLANE, &mut raw)
}

} // verus!
