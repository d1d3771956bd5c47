//! Typed values for the encoder's configuration surface.
//!
//! Each enum is a closed set of values the native engine accepts for one
//! parameter, together with a verified translation to the integer the
//! engine's setter takes.

use vstd::prelude::*;

verus! {

/// Enumeration of valid values for `set_brate`
#[derive(Copy, Clone)]
pub enum Bitrate {
    /// 8_000
    Kbps8,
    /// 16_000
    Kbps16,
    /// 24_000
    Kbps24,
    /// 32_000
    Kbps32,
    /// 40_000
    Kbps40,
    /// 48_000
    Kbps48,
    /// 64_000
    Kbps64,
    /// 80_000
    Kbps80,
    /// 96_000
    Kbps96,
    /// 112_000
    Kbps112,
    /// 128_000
    Kbps128,
    /// 160_000
    Kbps160,
    /// 192_000
    Kbps192,
    /// 224_000
    Kbps224,
    /// 256_000
    Kbps256,
    /// 320_000
    Kbps320,
}

impl Bitrate {
    /// The bitrate in kilobits per second, the value the engine's
    /// bitrate setter takes.
    pub open spec fn spec_kbps(self) -> u16 {
        match self {
            Bitrate::Kbps8 => 8,
            Bitrate::Kbps16 => 16,
            Bitrate::Kbps24 => 24,
            Bitrate::Kbps32 => 32,
            Bitrate::Kbps40 => 40,
            Bitrate::Kbps48 => 48,
            Bitrate::Kbps64 => 64,
            Bitrate::Kbps80 => 80,
            Bitrate::Kbps96 => 96,
            Bitrate::Kbps112 => 112,
            Bitrate::Kbps128 => 128,
            Bitrate::Kbps160 => 160,
            Bitrate::Kbps192 => 192,
            Bitrate::Kbps224 => 224,
            Bitrate::Kbps256 => 256,
            Bitrate::Kbps320 => 320,
        }
    }

    /// The bitrate in kilobits per second.
    pub fn kbps(&self) -> (r: u16)
        ensures
            r == self.spec_kbps(),
    {
        match self {
            Bitrate::Kbps8 => 8,
            Bitrate::Kbps16 => 16,
            Bitrate::Kbps24 => 24,
            Bitrate::Kbps32 => 32,
            Bitrate::Kbps40 => 40,
            Bitrate::Kbps48 => 48,
            Bitrate::Kbps64 => 64,
            Bitrate::Kbps80 => 80,
            Bitrate::Kbps96 => 96,
            Bitrate::Kbps112 => 112,
            Bitrate::Kbps128 => 128,
            Bitrate::Kbps160 => 160,
            Bitrate::Kbps192 => 192,
            Bitrate::Kbps224 => 224,
            Bitrate::Kbps256 => 256,
            Bitrate::Kbps320 => 320,
        }
    }
}

/// Possible VBR types
#[derive(Copy, Clone)]
pub enum VbrMode {
    /// Off.
    Off,
    /// MT.
    Mt,
    /// RH.
    Rh,
    /// ABR.
    Abr,
    /// MTRH.
    Mtrh,
}

impl VbrMode {
    /// The engine's own code for this VBR mode.
    pub open spec fn spec_native_code(self) -> i32 {
        match self {
            VbrMode::Off => 0,
            VbrMode::Mt => 1,
            VbrMode::Rh => 2,
            VbrMode::Abr => 3,
            VbrMode::Mtrh => 4,
        }
    }

    /// The engine's own code for this VBR mode.
    pub fn native_code(&self) -> (r: i32)
        ensures
            r == self.spec_native_code(),
    {
        match self {
            VbrMode::Off => 0,
            VbrMode::Mt => 1,
            VbrMode::Rh => 2,
            VbrMode::Abr => 3,
            VbrMode::Mtrh => 4,
        }
    }
}

impl Default for VbrMode {
    /// The engine's default VBR flavour.
    fn default() -> (r: Self)
        ensures
            r is Mtrh,
    {
        Self::Mtrh
    }
}

/// Possible modes for encoder
#[derive(Copy, Clone)]
pub enum Mode {
    /// Mono.
    Mono,
    /// Stereo.
    Stereo,
    /// Joint stereo.
    JointStereo,
    /// Dual channel
    ///
    /// Unsupported so far.
    DaulChannel,
    /// Not set.
    NotSet,
}

impl Mode {
    /// The engine's own code for this MPEG channel mode.
    pub open spec fn spec_native_code(self) -> i32 {
        match self {
            Mode::Mono => 3,
            Mode::Stereo => 0,
            Mode::JointStereo => 1,
            Mode::DaulChannel => 2,
            Mode::NotSet => 4,
        }
    }

    /// The engine's own code for this MPEG channel mode.
    pub fn native_code(&self) -> (r: i32)
        ensures
            r == self.spec_native_code(),
    {
        match self {
            Mode::Mono => 3,
            Mode::Stereo => 0,
            Mode::JointStereo => 1,
            Mode::DaulChannel => 2,
            Mode::NotSet => 4,
        }
    }
}

/// Possible quality parameter.
/// From best(0) to worst(9)
#[derive(Copy, Clone)]
pub enum Quality {
    /// Best possible quality
    Best,
    /// Second best
    SecondBest,
    /// Close to best
    NearBest,
    /// Very nice
    VeryNice,
    /// Nice
    Nice,
    /// Good
    Good,
    /// Decent
    Decent,
    /// Okayish
    Okayish,
    /// Almost worst
    SecondWorst,
    /// Worst
    Worst,
}

impl Quality {
    /// The numeric level the engine's quality setters take:
    /// 0 is best, 9 is worst.
    pub open spec fn spec_level(self) -> u8 {
        match self {
            Quality::Best => 0,
            Quality::SecondBest => 1,
            Quality::NearBest => 2,
            Quality::VeryNice => 3,
            Quality::Nice => 4,
            Quality::Good => 5,
            Quality::Decent => 6,
            Quality::Okayish => 7,
            Quality::SecondWorst => 8,
            Quality::Worst => 9,
        }
    }

    /// The numeric level the engine's quality setters take.
    pub fn level(&self) -> (r: u8)
        ensures
            r == self.spec_level(),
    {
        match self {
            Quality::Best => 0,
            Quality::SecondBest => 1,
            Quality::NearBest => 2,
            Quality::VeryNice => 3,
            Quality::Nice => 4,
            Quality::Good => 5,
            Quality::Decent => 6,
            Quality::Okayish => 7,
            Quality::SecondWorst => 8,
            Quality::Worst => 9,
        }
    }
}

/// Clamps a caller-supplied sample rate into the signed integer range the
/// engine's sample-rate setter takes: rates beyond the signed maximum are
/// pinned to it, so that the engine rejects them itself.
pub fn clamp_sample_rate(rate: u32) -> (r: i32)
    ensures
        rate <= i32::MAX ==> r == rate,
        rate > i32::MAX ==> r == i32::MAX,
{
    if rate <= i32::MAX as u32 {
        rate as i32
    } else {
        i32::MAX
    }
}

} // verus!
