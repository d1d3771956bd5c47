//! Classification of the native encoder's signed status codes.
//!
//! The engine reports every outcome as a signed integer: zero or positive
//! for success, negative for failure.  Two disjoint closed taxonomies
//! cover the two call phases: configuration-time codes and encode-time
//! codes.  Each classifier is total and keeps unknown negative codes
//! verbatim in a catch-all variant.

use vstd::prelude::*;

verus! {

/// ID3 setter errors
#[derive(Debug, Copy, Clone, Eq, PartialEq, Structural)]
pub enum Id3TagError {
    /// Specified buffer exceed limit of 128kb
    AlbumArtOverflow,
}

/// Encoder builder errors
#[derive(Debug, Copy, Clone, Eq, PartialEq, Structural)]
pub enum BuildError {
    /// Generic error, indicates invalid input or state
    Generic,
    /// Failed to allocate memory
    NoMem,
    /// Invalid brate
    BadBRate,
    /// Invalid sample frequency
    BadSampleFreq,
    /// Internal error
    InternalError,
    /// Other errors, most likely unexpected.
    Other(i32),
}

/// What a configuration-time status code means: non-negative codes are
/// success, the five documented negative codes map to their named kinds,
/// and any other negative code is kept in the catch-all.
pub open spec fn classify_config_code(code: i32) -> Result<(), BuildError> {
    if code >= 0 {
        Ok(())
    } else if code == -1 {
        Err(BuildError::Generic)
    } else if code == -10 {
        Err(BuildError::NoMem)
    } else if code == -11 {
        Err(BuildError::BadBRate)
    } else if code == -12 {
        Err(BuildError::BadSampleFreq)
    } else if code == -13 {
        Err(BuildError::InternalError)
    } else {
        Err(BuildError::Other(code))
    }
}

impl BuildError {
    /// Translates a configuration-time status code of the native engine.
    pub fn from_c_int(code: i32) -> (r: Result<(), BuildError>)
        ensures
            r == classify_config_code(code),
    {
        if code >= 0 {
            return Ok(());
        }

        match code {
            -1 => Err(Self::Generic),
            -10 => Err(Self::NoMem),
            -11 => Err(Self::BadBRate),
            -12 => Err(Self::BadSampleFreq),
            -13 => Err(Self::InternalError),
            _ => Err(Self::Other(code)),
        }
    }
}

/// Encoder errors
#[derive(Debug, Copy, Clone, Eq, PartialEq, Structural)]
pub enum EncodeError {
    /// Indicates output buffer is insufficient.
    ///
    /// Consider using [`max_required_buffer_size`](crate::max_required_buffer_size)
    /// to determine required space to alloc.
    BufferTooSmall,
    /// Failed to allocate memory
    NoMem,
    /// Invalid encoder state
    ///
    /// Should not happen if encoder created through builder
    InvalidState,
    /// Psycho acoustic problems, whatever it means.
    PsychoAcoustic,
    /// Other errors, most likely unexpected.
    Other(i32),
}

/// What an encode-time status code means: a non-negative code is success
/// carrying the number of bytes written, the four documented negative
/// codes map to their named kinds, and any other negative code is kept
/// in the catch-all.
pub open spec fn classify_encode_code(code: i32) -> Result<usize, EncodeError> {
    if code >= 0 {
        Ok(code as usize)
    } else if code == -1 {
        Err(EncodeError::BufferTooSmall)
    } else if code == -2 {
        Err(EncodeError::NoMem)
    } else if code == -3 {
        Err(EncodeError::InvalidState)
    } else if code == -4 {
        Err(EncodeError::PsychoAcoustic)
    } else {
        Err(EncodeError::Other(code))
    }
}

impl EncodeError {
    /// Translates an encode-time status code of the native engine.
    pub fn from_c_int(code: i32) -> (r: Result<usize, EncodeError>)
        ensures
            r == classify_encode_code(code),
    {
        if code >= 0 {
            return Ok(code as usize);
        }

        match code {
            -1 => Err(Self::BufferTooSmall),
            -2 => Err(Self::NoMem),
            -3 => Err(Self::InvalidState),
            -4 => Err(Self::PsychoAcoustic),
            _ => Err(Self::Other(code)),
        }
    }
}

} // verus!
