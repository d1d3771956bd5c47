//! Safety-oriented front for an MP3 encoding engine.
//!
//! This crate holds the pure, verified half of a binding layer around a
//! native MP3 encoder: sizing of output buffers, classification of the
//! engine's signed status codes, validation and staging of ID3 tag data,
//! and the sample-count rules of the PCM input shapes.  The thin layer
//! that actually drives the native engine lives outside this crate and
//! consumes these functions.

use vstd::prelude::*;

mod error;
mod input;
mod params;
mod tag;

pub use error::{classify_config_code, classify_encode_code, BuildError, EncodeError, Id3TagError};
pub use input::{DualPcm, FlushGap, FlushNoGap, InterleavedPcm, MonoPcm};
pub use params::{clamp_sample_rate, Bitrate, Mode, Quality, VbrMode};
pub use tag::{
    lemma_staged_text_bounded, staged_art_ok, staged_field_ok, staged_text, stage_text_field,
    Id3Tag, TagPlan, MAX_ALBUM_ART_SIZE, TEXT_FIELD_CAP,
};

verus! {

/// Slack added to every output-buffer bound: one worst-case MP3 frame.
pub const MP3_FRAME_SLACK: usize = 7200;

/// Worst-case output size for `n` input samples, as an unbounded integer:
/// the sample count plus a 25% overhead (rounded up) plus one frame of slack.
pub open spec fn required_buffer_size(n: nat) -> nat {
    n + (n + 3) / 4 + 7200
}

/// Calculates maximum required size for specified number of samples.
///
/// Note that actual requirement may vary depending on encoder parameters,
/// but this size should be generally enough for encoding given number of samples.
///
/// Never fails: if the exact bound does not fit in `usize`, the result
/// saturates at `usize::MAX`.
pub fn max_required_buffer_size(sample_number: usize) -> (size: usize)
    ensures
        required_buffer_size(sample_number as nat) <= usize::MAX
            ==> size == required_buffer_size(sample_number as nat),
        required_buffer_size(sample_number as nat) > usize::MAX ==> size == usize::MAX,
{
    let mut sample_extra_size: usize = sample_number / 4;
    if (sample_number % 4) > 0 {
        sample_extra_size = sample_extra_size + 1;
    }
    sample_number.saturating_add(sample_extra_size).saturating_add(MP3_FRAME_SLACK)
}

} // verus!
