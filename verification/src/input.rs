//! The PCM input shapes and their sample-count rules.
//!
//! Each shape fixes how many samples a buffer of a given length carries;
//! that count, together with the destination capacity, is everything the
//! engine's buffer-encode entry points are told about the caller's
//! memory, so getting it right is what keeps the native side inside the
//! caller's buffers.  The unverified layer around this crate pairs each
//! shape and element type with the matching native entry point and
//! passes along exactly the count computed here.

use vstd::prelude::*;

verus! {

/// PCM data with only 1 channel
///
/// In this case, number of samples is always equals to number of samples in slice.
pub struct MonoPcm<'a, T>(pub &'a [T]);

impl<'a, T> MonoPcm<'a, T> {
    /// How many samples this input carries: the full length of the slice.
    pub open spec fn spec_sample_count(&self) -> nat {
        self.0@.len()
    }

    /// The sample count handed to the engine.
    pub fn sample_count(&self) -> (n: usize)
        ensures
            n == self.spec_sample_count(),
    {
        self.0.len()
    }
}

/// PCM data represented by two channels.
///
/// Number of samples must be equal between left and right channels.
///
/// If you want to feed encoder single PCM data, then use [`MonoPcm`].
/// In case length of channels is not equal, it will always feed encoder
/// minimum of both length.
pub struct DualPcm<'a, T> {
    /// left channel PCM data
    pub left: &'a [T],
    /// right channel PCM data
    pub right: &'a [T],
}

impl<'a, T> DualPcm<'a, T> {
    /// How many samples this input carries: the minimum of the two
    /// channel lengths, so that neither slice is read past its end.
    pub open spec fn spec_sample_count(&self) -> nat {
        if self.left@.len() <= self.right@.len() {
            self.left@.len()
        } else {
            self.right@.len()
        }
    }

    /// The sample count handed to the engine.
    pub fn sample_count(&self) -> (n: usize)
        ensures
            n == self.spec_sample_count(),
            n <= self.left@.len(),
            n <= self.right@.len(),
    {
        if self.left.len() <= self.right.len() {
            self.left.len()
        } else {
            self.right.len()
        }
    }
}

/// PCM data in interleaved form
///
/// Interleaved input assumes you have two channels encoded within continuous
/// buffer as sequence pairs: `[<left>, <right>...]`
/// Hence, number of samples is always `data.len() / 2`.
pub struct InterleavedPcm<'a, T>(pub &'a [T]);

impl<'a, T> InterleavedPcm<'a, T> {
    /// How many left/right sample pairs this input carries: half the
    /// slice length, rounded down.  An odd trailing element is never
    /// counted, so the engine is never told about memory past the slice.
    pub open spec fn spec_sample_count(&self) -> nat {
        self.0@.len() / 2
    }

    /// The sample count handed to the engine.
    pub fn sample_count(&self) -> (n: usize)
        ensures
            n == self.spec_sample_count(),
            2 * n <= self.0@.len(),
    {
        self.0.len() / 2
    }
}

/// Performs flush, padding gaps with 0
pub struct FlushGap;

/// Performs flush, padding it with ancillary data
pub struct FlushNoGap;

} // verus!
