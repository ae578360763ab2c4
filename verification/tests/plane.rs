use std::cell::RefCell;
use std::collections::HashSet;

use drm::control::plane::{self, Handle, Info, PresentFlag};
use drm::control::{crtc, framebuffer, Device, RawHandle};
use drm::ioctl::{GetPlane, SetPlane, MODE_GETPLANE, MODE_SETPLANE};
use drm::result::Error;

/// A device that answers every transfer alike, and keeps what it was handed.
struct Simulated {
    crtc_id: u32,
    fb_id: u32,
    gamma_size: u32,
    failure: Option<i32>,
    seen: RefCell<Vec<(u32, Vec<u32>)>>,
}

impl Simulated {
    fn answering(crtc_id: u32, fb_id: u32, gamma_size: u32) -> Simulated {
        Simulated { crtc_id, fb_id, gamma_size, failure: None, seen: RefCell::new(Vec::new()) }
    }

    fn failing(errno: i32) -> Simulated {
        Simulated {
            crtc_id: 5,
            fb_id: 9,
            gamma_size: 256,
            failure: Some(errno),
            seen: RefCell::new(Vec::new()),
        }
    }

    fn transfers(&self) -> Vec<(u32, Vec<u32>)> {
        self.seen.borrow().clone()
    }
}

impl Device for Simulated {
    fn as_raw_fd(&self) -> i32 {
        -1
    }

    fn control_transfer(&self, request: u32, record: &mut [u32]) -> Result<(), Error> {
        self.seen.borrow_mut().push((request, record.to_vec()));
        if let Some(errno) = self.failure {
            return Err(Error { errno });
        }
        if request == MODE_GETPLANE {
            let answer = GetPlane {
                plane_id: 0,
                crtc_id: self.crtc_id,
                fb_id: self.fb_id,
                possible_crtcs: 0b11,
                count_format_types: 4,
                gamma_size: self.gamma_size,
                format_type_ptr: (0, 0),
            };
            record.copy_from_slice(&answer.to_words());
        }
        Ok(())
    }
}

/// A device whose state moves on with every query.
struct Counting {
    queries: RefCell<u32>,
}

impl Device for Counting {
    fn as_raw_fd(&self) -> i32 {
        -1
    }

    fn control_transfer(&self, _request: u32, record: &mut [u32]) -> Result<(), Error> {
        *self.queries.borrow_mut() += 1;
        record[2] = *self.queries.borrow();
        Ok(())
    }
}

fn full_hd() -> ((i32, i32), (u32, u32)) {
    ((0, 0), (1920, 1080))
}

fn full_hd_source() -> ((u32, u32), (u32, u32)) {
    ((0, 0), (1920, 1080))
}

#[test]
fn handle_gives_its_number_back() {
    for raw in [0u32, 1, 3, 0x7fff_ffff, 0x8000_0000, u32::MAX] {
        let handle = Handle::from(raw);
        assert_eq!(handle, Handle(raw));
        assert_eq!(handle.0, raw);
        assert_eq!(RawHandle::from(handle), raw);
        let back: RawHandle = handle.into();
        assert_eq!(back, raw);
        let again: Handle = raw.into();
        assert_eq!(again, handle);
    }
}

#[test]
fn crtc_and_framebuffer_handles_give_their_numbers_back() {
    for raw in [0u32, 5, 9, u32::MAX] {
        assert_eq!(RawHandle::from(crtc::Handle::from(raw)), raw);
        assert_eq!(crtc::Handle::from(raw), crtc::Handle(raw));
        assert_eq!(RawHandle::from(framebuffer::Handle::from(raw)), raw);
        assert_eq!(framebuffer::Handle::from(raw), framebuffer::Handle(raw));
    }
}

#[test]
fn handles_are_equal_and_hash_by_number() {
    assert_eq!(Handle(7), Handle::from(7));
    assert_ne!(Handle(7), Handle(8));
    let mut seen = HashSet::new();
    assert!(seen.insert(Handle(7)));
    assert!(!seen.insert(Handle::from(7)));
    assert!(seen.insert(Handle(8)));
    assert_eq!(seen.len(), 2);
}

#[test]
fn present_flag_bits() {
    assert_eq!(PresentFlag::TopField.bits(), 0);
    assert_eq!(PresentFlag::BottomField.bits(), 2);
    assert_eq!(PresentFlag::TopField.bits(), 0b00);
    assert_eq!(PresentFlag::BottomField.bits(), 0b10);
}

#[test]
fn present_flag_bits_leave_room_for_others() {
    let page_flip_bit = 0b1;
    assert_eq!(PresentFlag::BottomField.bits() & page_flip_bit, 0);
    assert_eq!(PresentFlag::BottomField.bits() | page_flip_bit, 0b11);
    assert_eq!(PresentFlag::TopField.bits() | page_flip_bit, 0b01);
}

#[test]
fn query_names_the_plane_and_nothing_else() {
    let record = Info::query(Handle(3));
    assert_eq!(record, GetPlane { plane_id: 3, ..GetPlane::default() });
    assert_eq!(record.to_words(), [3, 0, 0, 0, 0, 0, 0, 0]);
    assert_eq!(Info::query(Handle(u32::MAX)).plane_id, u32::MAX);
    assert_eq!(Info::query(Handle(0)), GetPlane::default());
}

#[test]
fn load_builds_the_snapshot_from_the_answer() {
    let device = Simulated::answering(5, 9, 256);
    let info = Info::load_from_device(&device, Handle(3)).unwrap();
    assert_eq!(info.handle(), Handle(3));
    assert_eq!(info.crtc(), crtc::Handle(5));
    assert_eq!(info.framebuffer(), framebuffer::Handle(9));
    assert_eq!(info.gamma_length(), 256);
}

#[test]
fn load_hands_the_device_the_query() {
    let device = Simulated::answering(5, 9, 256);
    Info::load_from_device(&device, Handle(3)).unwrap();
    assert_eq!(device.transfers(), vec![(MODE_GETPLANE, vec![3, 0, 0, 0, 0, 0, 0, 0])]);
}

#[test]
fn load_keeps_the_handle_it_was_given() {
    // The simulated device leaves zero where the plane id went in.
    let device = Simulated::answering(5, 9, 256);
    let info = Info::load_from_device(&device, Handle(77)).unwrap();
    assert_eq!(info.handle(), Handle(77));
}

#[test]
fn load_reports_an_unbound_plane() {
    let device = Simulated::answering(0, 0, 0);
    let info = Info::load_from_device(&device, Handle(3)).unwrap();
    assert_eq!(info.crtc(), crtc::Handle(0));
    assert_eq!(info.framebuffer(), framebuffer::Handle(0));
    assert_eq!(info.gamma_length(), 0);
}

#[test]
fn load_does_not_check_the_handle() {
    for raw in [0u32, u32::MAX] {
        let device = Simulated::answering(5, 9, 256);
        let info = Info::load_from_device(&device, Handle(raw)).unwrap();
        assert_eq!(info.handle(), Handle(raw));
        assert_eq!(device.transfers().len(), 1);
        assert_eq!(device.transfers()[0].1[0], raw);
    }
}

#[test]
fn load_propagates_the_failure() {
    let device = Simulated::failing(13);
    assert_eq!(Info::load_from_device(&device, Handle(3)), Err(Error { errno: 13 }));
    assert_eq!(device.transfers().len(), 1);
}

#[test]
fn load_asks_again_each_time() {
    let device = Counting { queries: RefCell::new(0) };
    let first = Info::load_from_device(&device, Handle(3)).unwrap();
    let second = Info::load_from_device(&device, Handle(3)).unwrap();
    assert_eq!(first.framebuffer(), framebuffer::Handle(1));
    assert_eq!(second.framebuffer(), framebuffer::Handle(2));
    assert_ne!(first, second);
    assert_eq!(*device.queries.borrow(), 2);
}

#[test]
fn equal_answers_give_equal_snapshots() {
    let device = Simulated::answering(5, 9, 256);
    let first = Info::load_from_device(&device, Handle(3)).unwrap();
    let second = Info::load_from_device(&device, Handle(3)).unwrap();
    let copy = first;
    assert_eq!(first, second);
    assert_eq!(copy, first);
    let other = Info::load_from_device(&device, Handle(4)).unwrap();
    assert_ne!(first, other);
}

#[test]
fn from_transfer_reads_a_completed_transfer() {
    let reply = [0, 5, 9, 0b11, 4, 256, 0, 0];
    let info = Info::from_transfer(Handle(3), Ok(()), &reply).unwrap();
    assert_eq!(info.handle(), Handle(3));
    assert_eq!(info.crtc(), crtc::Handle(5));
    assert_eq!(info.framebuffer(), framebuffer::Handle(9));
    assert_eq!(info.gamma_length(), 256);
}

#[test]
fn from_transfer_reads_the_gamma_size_from_its_own_word() {
    // Words 3 and 4 are the CRTC mask and the format count: neither is read.
    let reply = [0, 0, 0, 111, 222, 333, 444, 555];
    let info = Info::from_transfer(Handle(1), Ok(()), &reply).unwrap();
    assert_eq!(info.gamma_length(), 333);
    assert_eq!(info.crtc(), crtc::Handle(0));
    assert_eq!(info.framebuffer(), framebuffer::Handle(0));
}

#[test]
fn from_transfer_returns_the_error_of_a_failed_transfer() {
    let reply = [3, 5, 9, 0, 0, 256, 0, 0];
    let failed = Info::from_transfer(Handle(3), Err(Error { errno: 22 }), &reply);
    assert_eq!(failed, Err(Error { errno: 22 }));
}

#[test]
fn binding_fills_every_field() {
    let record = plane::binding(
        Handle(3),
        crtc::Handle(5),
        framebuffer::Handle(9),
        PresentFlag::BottomField,
        full_hd(),
        full_hd_source(),
    );
    assert_eq!(
        record,
        SetPlane {
            plane_id: 3,
            crtc_id: 5,
            fb_id: 9,
            flags: 2,
            crtc_x: 0,
            crtc_y: 0,
            crtc_w: 1920,
            crtc_h: 1080,
            src_x: 0,
            src_y: 0,
            src_w: 1920,
            src_h: 1080,
        }
    );
}

#[test]
fn binding_tells_every_field_apart() {
    let record = plane::binding(
        Handle(1),
        crtc::Handle(2),
        framebuffer::Handle(3),
        PresentFlag::TopField,
        ((5, 6), (7, 8)),
        ((9, 10), (11, 12)),
    );
    assert_eq!(
        record,
        SetPlane {
            plane_id: 1,
            crtc_id: 2,
            fb_id: 3,
            flags: 0,
            crtc_x: 5,
            crtc_y: 6,
            crtc_w: 7,
            crtc_h: 8,
            src_x: 9,
            src_y: 10,
            src_w: 11,
            src_h: 12,
        }
    );
}

#[test]
fn set_hands_the_device_the_binding() {
    let device = Simulated::answering(0, 0, 0);
    let outcome = plane::set(
        Handle(3),
        &device,
        crtc::Handle(5),
        framebuffer::Handle(9),
        PresentFlag::BottomField,
        full_hd(),
        full_hd_source(),
    );
    assert_eq!(outcome, Ok(()));
    let transfers = device.transfers();
    assert_eq!(transfers.len(), 1);
    assert_eq!(transfers[0].0, MODE_SETPLANE);
    assert_eq!(transfers[0].1, vec![3, 5, 9, 2, 0, 0, 1920, 1080, 0, 0, 1920, 1080]);
    let mut words = [0u32; 12];
    words.copy_from_slice(&transfers[0].1);
    let record = SetPlane::from_words(&words);
    assert_eq!(record.plane_id, 3);
    assert_eq!(record.crtc_id, 5);
    assert_eq!(record.fb_id, 9);
    assert_eq!(record.flags, 2);
    assert_eq!(record.crtc_x, 0);
    assert_eq!(record.crtc_y, 0);
    assert_eq!(record.crtc_w, 1920);
    assert_eq!(record.crtc_h, 1080);
    assert_eq!(record.src_x, 0);
    assert_eq!(record.src_y, 0);
    assert_eq!(record.src_w, 1920);
    assert_eq!(record.src_h, 1080);
}

#[test]
fn set_with_no_framebuffer_still_asks_the_device() {
    let device = Simulated::answering(0, 0, 0);
    let outcome = plane::set(
        Handle(3),
        &device,
        crtc::Handle(5),
        framebuffer::Handle(0),
        PresentFlag::TopField,
        full_hd(),
        full_hd_source(),
    );
    assert_eq!(outcome, Ok(()));
    let transfers = device.transfers();
    assert_eq!(transfers.len(), 1);
    assert_eq!(transfers[0].0, MODE_SETPLANE);
    assert_eq!(transfers[0].1[2], 0);
    assert_eq!(transfers[0].1, vec![3, 5, 0, 0, 0, 0, 1920, 1080, 0, 0, 1920, 1080]);
}

#[test]
fn set_does_not_check_what_it_is_given() {
    let device = Simulated::answering(0, 0, 0);
    let outcome = plane::set(
        Handle(0),
        &device,
        crtc::Handle(0),
        framebuffer::Handle(u32::MAX),
        PresentFlag::TopField,
        ((0, 0), (0, 0)),
        ((u32::MAX, u32::MAX), (0, u32::MAX)),
    );
    assert_eq!(outcome, Ok(()));
    assert_eq!(
        device.transfers(),
        vec![(
            MODE_SETPLANE,
            vec![0, 0, u32::MAX, 0, 0, 0, 0, 0, u32::MAX, u32::MAX, 0, u32::MAX]
        )]
    );
}

#[test]
fn set_propagates_the_failure() {
    let device = Simulated::failing(16);
    let outcome = plane::set(
        Handle(3),
        &device,
        crtc::Handle(5),
        framebuffer::Handle(9),
        PresentFlag::BottomField,
        full_hd(),
        full_hd_source(),
    );
    assert_eq!(outcome, Err(Error { errno: 16 }));
    assert_eq!(device.transfers().len(), 1);
}

#[test]
fn failures_keep_their_error_number() {
    for errno in [1, 13, 16, 22, i32::MAX, -1] {
        let device = Simulated::failing(errno);
        assert_eq!(Info::load_from_device(&device, Handle(3)), Err(Error { errno }));
        let outcome = plane::set(
            Handle(3),
            &device,
            crtc::Handle(5),
            framebuffer::Handle(9),
            PresentFlag::TopField,
            full_hd(),
            full_hd_source(),
        );
        assert_eq!(outcome, Err(Error { errno }));
    }
}

#[test]
fn set_keeps_negative_positions() {
    let device = Simulated::answering(0, 0, 0);
    let outcome = plane::set(
        Handle(3),
        &device,
        crtc::Handle(5),
        framebuffer::Handle(9),
        PresentFlag::TopField,
        ((-100, -50), (1920, 1080)),
        full_hd_source(),
    );
    assert_eq!(outcome, Ok(()));
    let transfers = device.transfers();
    assert_eq!(transfers[0].1[4], 0xffff_ff9c);
    assert_eq!(transfers[0].1[5], 0xffff_ffce);
    let mut words = [0u32; 12];
    words.copy_from_slice(&transfers[0].1);
    let record = SetPlane::from_words(&words);
    assert_eq!(record.crtc_x, -100);
    assert_eq!(record.crtc_y, -50);
    assert_eq!(record.crtc_w, 1920);
    assert_eq!(record.crtc_h, 1080);
}

#[test]
fn binding_keeps_negative_positions() {
    for (x, y) in [(-1, -1), (i32::MIN, 0), (0, i32::MIN), (-1920, 1080)] {
        let record = plane::binding(
            Handle(3),
            crtc::Handle(5),
            framebuffer::Handle(9),
            PresentFlag::TopField,
            ((x, y), (1920, 1080)),
            full_hd_source(),
        );
        assert_eq!(record.crtc_x, x);
        assert_eq!(record.crtc_y, y);
    }
}
