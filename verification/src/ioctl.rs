//! The records that a control transfer carries.
//!
//! A record is a fixed run of 32-bit words, each field at its own place. The
//! device reads the words as they lie in memory, so the order and the width of
//! the fields are part of the interface: [`GetPlane::to_words`] and
//! [`SetPlane::to_words`] fix them, and the `from_words` of each reads them
//! back.
use vstd::prelude::*;

verus! {

/// The number of words in a [`GetPlane`] record.
pub const GET_PLANE_WORDS: usize = 8;

/// The number of words in a [`SetPlane`] record.
pub const SET_PLANE_WORDS: usize = 12;

/// The request code of the transfer that reads the state of a plane.
///
/// From the top: two bits for a record that travels both ways, fourteen for
/// its length in bytes, eight for the letter `d` of the display subsystem,
/// eight for the number of the transfer.
pub const MODE_GETPLANE: u32 = 0xC020_64B6;

/// The request code of the transfer that binds a plane. Composed as
/// [`MODE_GETPLANE`] is.
pub const MODE_SETPLANE: u32 = 0xC030_64B7;

/// The word that holds `x` in two's complement.
pub open spec fn spec_word_of(x: i32) -> u32 {
    if x >= 0 {
        x as u32
    } else {
        (x + 0x1_0000_0000) as u32
    }
}

/// The number that `word` holds in two's complement.
pub open spec fn spec_signed_of(word: u32) -> i32 {
    if word < 0x8000_0000 {
        word as i32
    } else {
        (word - 0x1_0000_0000) as i32
    }
}

/// The word that holds `x` in two's complement: the bits of `x`, unchanged.
pub fn word_of(x: i32) -> (word: u32)
    ensures
        word == spec_word_of(x),
{
    assert(x as u32 == spec_word_of(x)) by (bit_vector);
    x as u32
}

/// The number that `word` holds in two's complement: the bits of `word`,
/// unchanged.
pub fn signed_of(word: u32) -> (x: i32)
    ensures
        x == spec_signed_of(word),
{
    assert(word as i32 == spec_signed_of(word)) by (bit_vector);
    word as i32
}

/// The record of the transfer that reads the state of a plane.
///
/// The caller fills in `plane_id`; the device fills in the rest.
#[derive(Debug, Clone, Copy, PartialEq, Eq)]
pub struct GetPlane {
    /// The plane that is asked about.
    pub plane_id: u32,
    /// The CRTC that shows the plane, or zero.
    pub crtc_id: u32,
    /// The framebuffer that is attached to the plane, or zero.
    pub fb_id: u32,
    /// One bit for each CRTC that the plane can be shown on.
    pub possible_crtcs: u32,
    /// The number of pixel formats that the plane takes.
    pub count_format_types: u32,
    /// The number of entries in the gamma table of the plane.
    pub gamma_size: u32,
    /// The two words of the 64-bit address of the list of formats, as they lie
    /// in memory.
    pub format_type_ptr: (u32, u32),
}

impl GetPlane {
    /// The record with every field zero.
    pub open spec fn zeroed() -> GetPlane {
        GetPlane {
            plane_id: 0,
            crtc_id: 0,
            fb_id: 0,
            possible_crtcs: 0,
            count_format_types: 0,
            gamma_size: 0,
            format_type_ptr: (0, 0),
        }
    }

    /// The words of the record, in the order in which the device reads them.
    pub open spec fn spec_to_words(self) -> Seq<u32> {
        seq![
            self.plane_id,
            self.crtc_id,
            self.fb_id,
            self.possible_crtcs,
            self.count_format_types,
            self.gamma_size,
            self.format_type_ptr.0,
            self.format_type_ptr.1,
        ]
    }

    /// The record that `words` holds. It is meant for eight words.
    pub open spec fn spec_from_words(words: Seq<u32>) -> GetPlane
        recommends
            words.len() == GET_PLANE_WORDS,
    {
        GetPlane {
            plane_id: words[0],
            crtc_id: words[1],
            fb_id: words[2],
            possible_crtcs: words[3],
            count_format_types: words[4],
            gamma_size: words[5],
            format_type_ptr: (words[6], words[7]),
        }
    }

    /// Lays the record out as the device reads it.
    pub fn to_words(&self) -> (words: [u32; GET_PLANE_WORDS])
        ensures
            words@ == self.spec_to_words(),
    {
        let words: [u32; GET_PLANE_WORDS] = [
            self.plane_id,
            self.crtc_id,
            self.fb_id,
            self.possible_crtcs,
            self.count_format_types,
            self.gamma_size,
            self.format_type_ptr.0,
            self.format_type_ptr.1,
        ];
        assert(words@ =~= self.spec_to_words());
        words
    }

    /// Reads a record back from the words that the device left.
    pub fn from_words(words: &[u32; GET_PLANE_WORDS]) -> (record: GetPlane)
        ensures
            record == GetPlane::spec_from_words(words@),
    {
        GetPlane {
            plane_id: words[0],
            crtc_id: words[1],
            fb_id: words[2],
            possible_crtcs: words[3],
            count_format_types: words[4],
            gamma_size: words[5],
            format_type_ptr: (words[6], words[7]),
        }
    }

    /// Laying a record out and reading it back gives the record again.
    pub proof fn lemma_record_round_trip(record: GetPlane)
        ensures
            record.spec_to_words().len() == GET_PLANE_WORDS,
            GetPlane::spec_from_words(record.spec_to_words()) == record,
    {
    }

    /// Reading eight words and laying the record out gives the words again:
    /// no word of a record is without a field.
    pub proof fn lemma_words_round_trip(words: Seq<u32>)
        requires
            words.len() == GET_PLANE_WORDS,
        ensures
            GetPlane::spec_from_words(words).spec_to_words() == words,
    {
        assert(GetPlane::spec_from_words(words).spec_to_words() =~= words);
    }
}

impl Default for GetPlane {
    /// The record with every field zero.
    fn default() -> (record: GetPlane)
        ensures
            record == GetPlane::zeroed(),
    {
        GetPlane {
            plane_id: 0,
            crtc_id: 0,
            fb_id: 0,
            possible_crtcs: 0,
            count_format_types: 0,
            gamma_size: 0,
            format_type_ptr: (0, 0),
        }
    }
}

/// The record of the transfer that binds a plane.
///
/// The caller fills in every field, and reads none back.
#[derive(Debug, Clone, Copy, PartialEq, Eq)]
pub struct SetPlane {
    /// The plane to bind.
    pub plane_id: u32,
    /// The CRTC to show the plane on.
    pub crtc_id: u32,
    /// The framebuffer to attach, or zero to detach the plane.
    pub fb_id: u32,
    /// The presentation flags, as bits.
    pub flags: u32,
    /// Where the plane starts on the output, from the left. It may be
    /// negative: the plane then lies partly off the output.
    pub crtc_x: i32,
    /// Where the plane starts on the output, from the top. It may be negative.
    pub crtc_y: i32,
    /// The width of the plane on the output.
    pub crtc_w: u32,
    /// The height of the plane on the output.
    pub crtc_h: u32,
    /// Where the shown region starts in the framebuffer, from the left.
    pub src_x: u32,
    /// Where the shown region starts in the framebuffer, from the top.
    pub src_y: u32,
    /// The width of the shown region.
    pub src_w: u32,
    /// The height of the shown region.
    pub src_h: u32,
}

impl SetPlane {
    /// The record with every field zero.
    pub open spec fn zeroed() -> SetPlane {
        SetPlane {
            plane_id: 0,
            crtc_id: 0,
            fb_id: 0,
            flags: 0,
            crtc_x: 0,
            crtc_y: 0,
            crtc_w: 0,
            crtc_h: 0,
            src_x: 0,
            src_y: 0,
            src_w: 0,
            src_h: 0,
        }
    }

    /// The words of the record, in the order in which the device reads them.
    /// The two signed fields lie in two's complement.
    pub open spec fn spec_to_words(self) -> Seq<u32> {
        seq![
            self.plane_id,
            self.crtc_id,
            self.fb_id,
            self.flags,
            spec_word_of(self.crtc_x),
            spec_word_of(self.crtc_y),
            self.crtc_w,
            self.crtc_h,
            self.src_x,
            self.src_y,
            self.src_w,
            self.src_h,
        ]
    }

    /// The record that `words` holds. It is meant for twelve words.
    pub open spec fn spec_from_words(words: Seq<u32>) -> SetPlane
        recommends
            words.len() == SET_PLANE_WORDS,
    {
        SetPlane {
            plane_id: words[0],
            crtc_id: words[1],
            fb_id: words[2],
            flags: words[3],
            crtc_x: spec_signed_of(words[4]),
            crtc_y: spec_signed_of(words[5]),
            crtc_w: words[6],
            crtc_h: words[7],
            src_x: words[8],
            src_y: words[9],
            src_w: words[10],
            src_h: words[11],
        }
    }

    /// Lays the record out as the device reads it.
    pub fn to_words(&self) -> (words: [u32; SET_PLANE_WORDS])
        ensures
            words@ == self.spec_to_words(),
    {
        let words: [u32; SET_PLANE_WORDS] = [
            self.plane_id,
            self.crtc_id,
            self.fb_id,
            self.flags,
            word_of(self.crtc_x),
            word_of(self.crtc_y),
            self.crtc_w,
            self.crtc_h,
            self.src_x,
            self.src_y,
            self.src_w,
            self.src_h,
        ];
        assert(words@ =~= self.spec_to_words());
        words
    }

    /// Reads a record back from the words that a device was handed.
    pub fn from_words(words: &[u32; SET_PLANE_WORDS]) -> (record: SetPlane)
        ensures
            record == SetPlane::spec_from_words(words@),
    {
        SetPlane {
            plane_id: words[0],
            crtc_id: words[1],
            fb_id: words[2],
            flags: words[3],
            crtc_x: signed_of(words[4]),
            crtc_y: signed_of(words[5]),
            crtc_w: words[6],
            crtc_h: words[7],
            src_x: words[8],
            src_y: words[9],
            src_w: words[10],
            src_h: words[11],
        }
    }

    /// Laying a record out and reading it back gives the record again. A
    /// negative position comes back as it went in.
    pub proof fn lemma_record_round_trip(record: SetPlane)
        ensures
            record.spec_to_words().len() == SET_PLANE_WORDS,
            SetPlane::spec_from_words(record.spec_to_words()) == record,
    {
    }

    /// Reading twelve words and laying the record out gives the words again:
    /// no word of a record is without a field.
    pub proof fn lemma_words_round_trip(words: Seq<u32>)
        requires
            words.len() == SET_PLANE_WORDS,
        ensures
            SetPlane::spec_from_words(words).spec_to_words() == words,
    {
        assert(SetPlane::spec_from_words(words).spec_to_words() =~= words);
    }
}

impl Default for SetPlane {
    /// The record with every field zero.
    fn default() -> (record: SetPlane)
        ensures
            record == SetPlane::zeroed(),
    {
        SetPlane {
            plane_id: 0,
            crtc_id: 0,
            fb_id: 0,
            flags: 0,
            crtc_x: 0,
            crtc_y: 0,
            crtc_w: 0,
            crtc_h: 0,
            src_x: 0,
            src_y: 0,
            src_w: 0,
            src_h: 0,
        }
    }
}

/// The length in bytes of the record that travels with `request`: the
/// fourteen bits above its low sixteen.
pub open spec fn spec_record_bytes(request: u32) -> usize {
    ((request >> 16) & 0x3fff) as usize
}

/// The length in bytes of the record that travels with `request`.
///
/// A device that hands a record to the kernel has to know that the record is
/// at least that long: the kernel reads and writes that many bytes of it.
pub fn record_bytes(request: u32) -> (bytes: usize)
    ensures
        bytes == spec_record_bytes(request),
        bytes <= 0x3fff,
{
    assert((request >> 16) & 0x3fff <= 0x3fff) by (bit_vector);
    ((request >> 16) & 0x3fff) as usize
}

/// Each request code of this crate announces the length of its own record:
/// four bytes for each word.
pub proof fn lemma_request_codes_carry_record_lengths()
    ensures
        spec_record_bytes(MODE_GETPLANE) == 4 * GET_PLANE_WORDS,
        spec_record_bytes(MODE_SETPLANE) == 4 * SET_PLANE_WORDS,
{
    assert((0xC020_64B6u32 >> 16) & 0x3fff == 32) by (bit_vector);
    assert((0xC030_64B7u32 >> 16) & 0x3fff == 48) by (bit_vector);
}

} // verus!
