//! Bounds-checked effect and filter parameter structures.
//!
//! Every effect and filter here is a bag of bounded parameters. The native
//! extension rejects out-of-range values at its own boundary; these
//! structures make the bounds explicit, so a value can be checked when it
//! is built (`new_checked`), after direct construction (`check`), or on
//! each assignment (the per-field setter methods). Each setter, `check`
//! and `new_checked` reports an out-of-range value as `InvalidValue` and
//! leaves the structure unchanged.
//!
//! Ratios, gains, times and frequencies are held in millionths of their
//! unit ([`ALMicro`]): a gain of one is `1_000_000`, a delay of 0.016
//! seconds is `16_000`. That keeps every bound an exact integer
//! comparison. The bounds and defaults themselves are the ones the
//! effects extension documents.

use vstd::prelude::*;

use crate::error::{ALError, ALResult};

verus! {

/// A bounded parameter in millionths of its unit (gain, seconds, hertz, or
/// a plain ratio, as the field documents).
pub type ALMicro = i64;

/// A pan vector: one component per axis, each in millionths, each bounded
/// by [-1.0, 1.0].
#[derive(Debug, Copy, Clone, PartialEq, Eq, Structural)]
pub struct ALEfxPan {
    pub x: ALMicro,
    pub y: ALMicro,
    pub z: ALMicro,
}

impl ALEfxPan {
    /// Every component within [-1.0, 1.0].
    pub open spec fn valid(self) -> bool {
        &&& -1_000_000 <= self.x <= 1_000_000
        &&& -1_000_000 <= self.y <= 1_000_000
        &&& -1_000_000 <= self.z <= 1_000_000
    }

    /// The centered pan.
    pub open spec fn spec_default() -> ALEfxPan {
        ALEfxPan { x: 0, y: 0, z: 0 }
    }

    pub fn new(x: ALMicro, y: ALMicro, z: ALMicro) -> (r: ALEfxPan)
        ensures
            r == (ALEfxPan { x, y, z }),
    {
        ALEfxPan { x, y, z }
    }

    /// Checks that all components are within their bounds.
    pub fn check(&self) -> (r: ALResult<()>)
        ensures
            r is Ok <==> self.valid(),
            r is Err ==> r == Err::<(), ALError>(ALError::InvalidValue),
    {
        if self.x < -1_000_000 || 1_000_000 < self.x {
            return Err(ALError::InvalidValue);
        }
        if self.y < -1_000_000 || 1_000_000 < self.y {
            return Err(ALError::InvalidValue);
        }
        if self.z < -1_000_000 || 1_000_000 < self.z {
            return Err(ALError::InvalidValue);
        }
        Ok(())
    }
}

impl Default for ALEfxPan {
    fn default() -> (r: ALEfxPan)
        ensures
            r == ALEfxPan::spec_default(),
    {
        ALEfxPan { x: 0, y: 0, z: 0 }
    }
}

/// Types of waveforms that can be used in the Chorus effect
#[derive(Debug, Copy, Clone, PartialEq, Eq, Structural)]
pub enum ALEfxChorusWaveform {
    Sinusoid,
    Triangle,
}

/// Types of waveforms that can be used in the Flanger effect
#[derive(Debug, Copy, Clone, PartialEq, Eq, Structural)]
pub enum ALEfxFlangerWaveform {
    Sinusoid,
    Triangle,
}

/// Directions that can be used in the Frequency Shifter effect
#[derive(Debug, Copy, Clone, PartialEq, Eq, Structural)]
pub enum ALEfxFrequencyShifterDirection {
    Down,
    Up,
    Off,
}

/// Phonemes that can be used in the Vocal Morpher effect
#[derive(Debug, Copy, Clone, PartialEq, Eq, Structural)]
pub enum ALEfxVocalMorpherPhoneme {
    A,
    E,
    I,
    O,
    U,
    AA,
    AE,
    AH,
    AO,
    EH,
    ER,
    IH,
    IY,
    UH,
    UW,
    B,
    D,
    F,
    G,
    J,
    K,
    L,
    M,
    N,
    P,
    R,
    S,
    T,
    V,
    Z,
}

/// Types of waveforms that can be used in the Vocal Morpher effect
#[derive(Debug, Copy, Clone, PartialEq, Eq, Structural)]
pub enum ALEfxVocalMorpherWaveform {
    Sinusoid,
    Triangle,
    Saw,
}

/// Types of waveforms that can be used in the Ring Modulator effect
#[derive(Debug, Copy, Clone, PartialEq, Eq, Structural)]
pub enum ALEfxRingModulatorWaveform {
    Sinusoid,
    Square,
    Saw,
}

/// Properties used for the EAX Reverb effect
#[derive(Debug, Copy, Clone, PartialEq, Eq, Structural)]
pub struct ALEfxEAXReverbProperties {
    /// [0.0, 1.0]
    pub density: ALMicro,
    /// [0.0, 1.0]
    pub diffusion: ALMicro,
    /// [0.0, 1.0]
    pub gain: ALMicro,
    /// [0.0, 1.0]
    pub gainhf: ALMicro,
    /// [0.0, 1.0]
    pub gainlf: ALMicro,
    /// Seconds [0.1, 20.0]
    pub decay_time: ALMicro,
    /// [0.1, 2.0]
    pub decay_hfratio: ALMicro,
    /// [0.1, 2.0]
    pub decay_lfratio: ALMicro,
    /// [0.0, 3.16]
    pub reflections_gain: ALMicro,
    /// Seconds [0.0, 0.3]
    pub reflections_delay: ALMicro,
    /// [[-1.0, -1.0, -1.0], [1.0, 1.0, 1.0]]
    pub reflections_pan: ALEfxPan,
    /// [0.0, 10.0]
    pub late_reverb_gain: ALMicro,
    /// Seconds [0.0, 0.1]
    pub late_reverb_delay: ALMicro,
    /// [[-1.0, -1.0, -1.0], [1.0, 1.0, 1.0]]
    pub late_reverb_pan: ALEfxPan,
    /// Seconds [0.075, 0.25]
    pub echo_time: ALMicro,
    /// [0.0, 1.0]
    pub echo_depth: ALMicro,
    /// Seconds [0.04, 4.0]
    pub modulation_time: ALMicro,
    /// [0.0, 1.0]
    pub modulation_depth: ALMicro,
    /// [0.892, 1.0]
    pub air_absorption_gainhf: ALMicro,
    /// Hertz [1000.0, 20,000.0]
    pub hfreference: ALMicro,
    /// Hertz [20.0, 1000.0]
    pub lfreference: ALMicro,
    /// [0.0, 10.0]
    pub room_rolloff_factor: ALMicro,
    pub decayhf_limit: bool,
}

impl ALEfxEAXReverbProperties {
    /// Every field within its documented bounds.
    pub open spec fn valid(self) -> bool {
        &&& 0 <= self.density <= 1_000_000
        &&& 0 <= self.diffusion <= 1_000_000
        &&& 0 <= self.gain <= 1_000_000
        &&& 0 <= self.gainhf <= 1_000_000
        &&& 0 <= self.gainlf <= 1_000_000
        &&& 100_000 <= self.decay_time <= 20_000_000
        &&& 100_000 <= self.decay_hfratio <= 2_000_000
        &&& 100_000 <= self.decay_lfratio <= 2_000_000
        &&& 0 <= self.reflections_gain <= 3_160_000
        &&& 0 <= self.reflections_delay <= 300_000
        &&& self.reflections_pan.valid()
        &&& 0 <= self.late_reverb_gain <= 10_000_000
        &&& 0 <= self.late_reverb_delay <= 100_000
        &&& self.late_reverb_pan.valid()
        &&& 75_000 <= self.echo_time <= 250_000
        &&& 0 <= self.echo_depth <= 1_000_000
        &&& 40_000 <= self.modulation_time <= 4_000_000
        &&& 0 <= self.modulation_depth <= 1_000_000
        &&& 892_000 <= self.air_absorption_gainhf <= 1_000_000
        &&& 1_000_000_000 <= self.hfreference <= 20_000_000_000
        &&& 20_000_000 <= self.lfreference <= 1_000_000_000
        &&& 0 <= self.room_rolloff_factor <= 10_000_000
    }

    /// The default configuration of this effect.
    pub open spec fn spec_default() -> Self {
        ALEfxEAXReverbProperties {
            density: 1_000_000,
            diffusion: 1_000_000,
            gain: 320_000,
            gainhf: 890_000,
            gainlf: 0,
            decay_time: 1_490_000,
            decay_hfratio: 830_000,
            decay_lfratio: 1_000_000,
            reflections_gain: 50_000,
            reflections_delay: 7_000,
            reflections_pan: ALEfxPan { x: 0, y: 0, z: 0 },
            late_reverb_gain: 1_260_000,
            late_reverb_delay: 11_000,
            late_reverb_pan: ALEfxPan { x: 0, y: 0, z: 0 },
            echo_time: 250_000,
            echo_depth: 0,
            modulation_time: 250_000,
            modulation_depth: 0,
            air_absorption_gainhf: 994_000,
            hfreference: 5_000_000_000,
            lfreference: 250_000_000,
            room_rolloff_factor: 0,
            decayhf_limit: true,
        }
    }

    /// Create a new structure from individual fields without checking
    /// bounds.
    pub fn new(density: ALMicro, diffusion: ALMicro, gain: ALMicro, gainhf: ALMicro, gainlf: ALMicro, decay_time: ALMicro, decay_hfratio: ALMicro, decay_lfratio: ALMicro, reflections_gain: ALMicro, reflections_delay: ALMicro, reflections_pan: ALEfxPan, late_reverb_gain: ALMicro, late_reverb_delay: ALMicro, late_reverb_pan: ALEfxPan, echo_time: ALMicro, echo_depth: ALMicro, modulation_time: ALMicro, modulation_depth: ALMicro, air_absorption_gainhf: ALMicro, hfreference: ALMicro, lfreference: ALMicro, room_rolloff_factor: ALMicro, decayhf_limit: bool) -> (r: Self)
        ensures
            r == (ALEfxEAXReverbProperties { density, diffusion, gain, gainhf, gainlf, decay_time, decay_hfratio, decay_lfratio, reflections_gain, reflections_delay, reflections_pan, late_reverb_gain, late_reverb_delay, late_reverb_pan, echo_time, echo_depth, modulation_time, modulation_depth, air_absorption_gainhf, hfreference, lfreference, room_rolloff_factor, decayhf_limit }),
    {
        ALEfxEAXReverbProperties { density, diffusion, gain, gainhf, gainlf, decay_time, decay_hfratio, decay_lfratio, reflections_gain, reflections_delay, reflections_pan, late_reverb_gain, late_reverb_delay, late_reverb_pan, echo_time, echo_depth, modulation_time, modulation_depth, air_absorption_gainhf, hfreference, lfreference, room_rolloff_factor, decayhf_limit }
    }

    /// Checks bounds for all fields when creating the structure.
    pub fn new_checked(density: ALMicro, diffusion: ALMicro, gain: ALMicro, gainhf: ALMicro, gainlf: ALMicro, decay_time: ALMicro, decay_hfratio: ALMicro, decay_lfratio: ALMicro, reflections_gain: ALMicro, reflections_delay: ALMicro, reflections_pan: ALEfxPan, late_reverb_gain: ALMicro, late_reverb_delay: ALMicro, late_reverb_pan: ALEfxPan, echo_time: ALMicro, echo_depth: ALMicro, modulation_time: ALMicro, modulation_depth: ALMicro, air_absorption_gainhf: ALMicro, hfreference: ALMicro, lfreference: ALMicro, room_rolloff_factor: ALMicro, decayhf_limit: bool) -> (r: ALResult<Self>)
        ensures
            (ALEfxEAXReverbProperties { density, diffusion, gain, gainhf, gainlf, decay_time, decay_hfratio, decay_lfratio, reflections_gain, reflections_delay, reflections_pan, late_reverb_gain, late_reverb_delay, late_reverb_pan, echo_time, echo_depth, modulation_time, modulation_depth, air_absorption_gainhf, hfreference, lfreference, room_rolloff_factor, decayhf_limit }).valid() ==> r == Ok::<Self, ALError>(ALEfxEAXReverbProperties { density, diffusion, gain, gainhf, gainlf, decay_time, decay_hfratio, decay_lfratio, reflections_gain, reflections_delay, reflections_pan, late_reverb_gain, late_reverb_delay, late_reverb_pan, echo_time, echo_depth, modulation_time, modulation_depth, air_absorption_gainhf, hfreference, lfreference, room_rolloff_factor, decayhf_limit }),
            !(ALEfxEAXReverbProperties { density, diffusion, gain, gainhf, gainlf, decay_time, decay_hfratio, decay_lfratio, reflections_gain, reflections_delay, reflections_pan, late_reverb_gain, late_reverb_delay, late_reverb_pan, echo_time, echo_depth, modulation_time, modulation_depth, air_absorption_gainhf, hfreference, lfreference, room_rolloff_factor, decayhf_limit }).valid() ==> r == Err::<Self, ALError>(ALError::InvalidValue),
    {
        let r = ALEfxEAXReverbProperties { density, diffusion, gain, gainhf, gainlf, decay_time, decay_hfratio, decay_lfratio, reflections_gain, reflections_delay, reflections_pan, late_reverb_gain, late_reverb_delay, late_reverb_pan, echo_time, echo_depth, modulation_time, modulation_depth, air_absorption_gainhf, hfreference, lfreference, room_rolloff_factor, decayhf_limit };
        match r.check() {
            Ok(_) => Ok(r),
            Err(e) => Err(e),
        }
    }

    /// Checks that all fields are within their bounds.
    pub fn check(&self) -> (r: ALResult<()>)
        ensures
            r is Ok <==> self.valid(),
            r is Err ==> r == Err::<(), ALError>(ALError::InvalidValue),
    {
        if self.density < 0 || 1_000_000 < self.density {
            return Err(ALError::InvalidValue);
        }
        if self.diffusion < 0 || 1_000_000 < self.diffusion {
            return Err(ALError::InvalidValue);
        }
        if self.gain < 0 || 1_000_000 < self.gain {
            return Err(ALError::InvalidValue);
        }
        if self.gainhf < 0 || 1_000_000 < self.gainhf {
            return Err(ALError::InvalidValue);
        }
        if self.gainlf < 0 || 1_000_000 < self.gainlf {
            return Err(ALError::InvalidValue);
        }
        if self.decay_time < 100_000 || 20_000_000 < self.decay_time {
            return Err(ALError::InvalidValue);
        }
        if self.decay_hfratio < 100_000 || 2_000_000 < self.decay_hfratio {
            return Err(ALError::InvalidValue);
        }
        if self.decay_lfratio < 100_000 || 2_000_000 < self.decay_lfratio {
            return Err(ALError::InvalidValue);
        }
        if self.reflections_gain < 0 || 3_160_000 < self.reflections_gain {
            return Err(ALError::InvalidValue);
        }
        if self.reflections_delay < 0 || 300_000 < self.reflections_delay {
            return Err(ALError::InvalidValue);
        }
        if self.reflections_pan.check().is_err() {
            return Err(ALError::InvalidValue);
        }
        if self.late_reverb_gain < 0 || 10_000_000 < self.late_reverb_gain {
            return Err(ALError::InvalidValue);
        }
        if self.late_reverb_delay < 0 || 100_000 < self.late_reverb_delay {
            return Err(ALError::InvalidValue);
        }
        if self.late_reverb_pan.check().is_err() {
            return Err(ALError::InvalidValue);
        }
        if self.echo_time < 75_000 || 250_000 < self.echo_time {
            return Err(ALError::InvalidValue);
        }
        if self.echo_depth < 0 || 1_000_000 < self.echo_depth {
            return Err(ALError::InvalidValue);
        }
        if self.modulation_time < 40_000 || 4_000_000 < self.modulation_time {
            return Err(ALError::InvalidValue);
        }
        if self.modulation_depth < 0 || 1_000_000 < self.modulation_depth {
            return Err(ALError::InvalidValue);
        }
        if self.air_absorption_gainhf < 892_000 || 1_000_000 < self.air_absorption_gainhf {
            return Err(ALError::InvalidValue);
        }
        if self.hfreference < 1_000_000_000 || 20_000_000_000 < self.hfreference {
            return Err(ALError::InvalidValue);
        }
        if self.lfreference < 20_000_000 || 1_000_000_000 < self.lfreference {
            return Err(ALError::InvalidValue);
        }
        if self.room_rolloff_factor < 0 || 10_000_000 < self.room_rolloff_factor {
            return Err(ALError::InvalidValue);
        }
        Ok(())
    }

    /// [0.0, 1.0]
    ///
    /// Setter that checks the field's bounds, leaving the structure
    /// unchanged when they are broken.
    pub fn density(&mut self, density: ALMicro) -> (r: ALResult<()>)
        ensures
            0 <= density <= 1_000_000 ==> r is Ok && *final(self) == (ALEfxEAXReverbProperties { density, ..*old(self) }),
            !(0 <= density <= 1_000_000) ==> r == Err::<(), ALError>(ALError::InvalidValue) && *final(self) == *old(self),
    {
        if density < 0 || 1_000_000 < density {
            return Err(ALError::InvalidValue);
        }
        self.density = density;
        Ok(())
    }

    /// [0.0, 1.0]
    ///
    /// Setter that checks the field's bounds, leaving the structure
    /// unchanged when they are broken.
    pub fn diffusion(&mut self, diffusion: ALMicro) -> (r: ALResult<()>)
        ensures
            0 <= diffusion <= 1_000_000 ==> r is Ok && *final(self) == (ALEfxEAXReverbProperties { diffusion, ..*old(self) }),
            !(0 <= diffusion <= 1_000_000) ==> r == Err::<(), ALError>(ALError::InvalidValue) && *final(self) == *old(self),
    {
        if diffusion < 0 || 1_000_000 < diffusion {
            return Err(ALError::InvalidValue);
        }
        self.diffusion = diffusion;
        Ok(())
    }

    /// [0.0, 1.0]
    ///
    /// Setter that checks the field's bounds, leaving the structure
    /// unchanged when they are broken.
    pub fn gain(&mut self, gain: ALMicro) -> (r: ALResult<()>)
        ensures
            0 <= gain <= 1_000_000 ==> r is Ok && *final(self) == (ALEfxEAXReverbProperties { gain, ..*old(self) }),
            !(0 <= gain <= 1_000_000) ==> r == Err::<(), ALError>(ALError::InvalidValue) && *final(self) == *old(self),
    {
        if gain < 0 || 1_000_000 < gain {
            return Err(ALError::InvalidValue);
        }
        self.gain = gain;
        Ok(())
    }

    /// [0.0, 1.0]
    ///
    /// Setter that checks the field's bounds, leaving the structure
    /// unchanged when they are broken.
    pub fn gainhf(&mut self, gainhf: ALMicro) -> (r: ALResult<()>)
        ensures
            0 <= gainhf <= 1_000_000 ==> r is Ok && *final(self) == (ALEfxEAXReverbProperties { gainhf, ..*old(self) }),
            !(0 <= gainhf <= 1_000_000) ==> r == Err::<(), ALError>(ALError::InvalidValue) && *final(self) == *old(self),
    {
        if gainhf < 0 || 1_000_000 < gainhf {
            return Err(ALError::InvalidValue);
        }
        self.gainhf = gainhf;
        Ok(())
    }

    /// [0.0, 1.0]
    ///
    /// Setter that checks the field's bounds, leaving the structure
    /// unchanged when they are broken.
    pub fn gainlf(&mut self, gainlf: ALMicro) -> (r: ALResult<()>)
        ensures
            0 <= gainlf <= 1_000_000 ==> r is Ok && *final(self) == (ALEfxEAXReverbProperties { gainlf, ..*old(self) }),
            !(0 <= gainlf <= 1_000_000) ==> r == Err::<(), ALError>(ALError::InvalidValue) && *final(self) == *old(self),
    {
        if gainlf < 0 || 1_000_000 < gainlf {
            return Err(ALError::InvalidValue);
        }
        self.gainlf = gainlf;
        Ok(())
    }

    /// Seconds [0.1, 20.0]
    ///
    /// Setter that checks the field's bounds, leaving the structure
    /// unchanged when they are broken.
    pub fn decay_time(&mut self, decay_time: ALMicro) -> (r: ALResult<()>)
        ensures
            100_000 <= decay_time <= 20_000_000 ==> r is Ok && *final(self) == (ALEfxEAXReverbProperties { decay_time, ..*old(self) }),
            !(100_000 <= decay_time <= 20_000_000) ==> r == Err::<(), ALError>(ALError::InvalidValue) && *final(self) == *old(self),
    {
        if decay_time < 100_000 || 20_000_000 < decay_time {
            return Err(ALError::InvalidValue);
        }
        self.decay_time = decay_time;
        Ok(())
    }

    /// [0.1, 2.0]
    ///
    /// Setter that checks the field's bounds, leaving the structure
    /// unchanged when they are broken.
    pub fn decay_hfratio(&mut self, decay_hfratio: ALMicro) -> (r: ALResult<()>)
        ensures
            100_000 <= decay_hfratio <= 2_000_000 ==> r is Ok && *final(self) == (ALEfxEAXReverbProperties { decay_hfratio, ..*old(self) }),
            !(100_000 <= decay_hfratio <= 2_000_000) ==> r == Err::<(), ALError>(ALError::InvalidValue) && *final(self) == *old(self),
    {
        if decay_hfratio < 100_000 || 2_000_000 < decay_hfratio {
            return Err(ALError::InvalidValue);
        }
        self.decay_hfratio = decay_hfratio;
        Ok(())
    }

    /// [0.1, 2.0]
    ///
    /// Setter that checks the field's bounds, leaving the structure
    /// unchanged when they are broken.
    pub fn decay_lfratio(&mut self, decay_lfratio: ALMicro) -> (r: ALResult<()>)
        ensures
            100_000 <= decay_lfratio <= 2_000_000 ==> r is Ok && *final(self) == (ALEfxEAXReverbProperties { decay_lfratio, ..*old(self) }),
            !(100_000 <= decay_lfratio <= 2_000_000) ==> r == Err::<(), ALError>(ALError::InvalidValue) && *final(self) == *old(self),
    {
        if decay_lfratio < 100_000 || 2_000_000 < decay_lfratio {
            return Err(ALError::InvalidValue);
        }
        self.decay_lfratio = decay_lfratio;
        Ok(())
    }

    /// [0.0, 3.16]
    ///
    /// Setter that checks the field's bounds, leaving the structure
    /// unchanged when they are broken.
    pub fn reflections_gain(&mut self, reflections_gain: ALMicro) -> (r: ALResult<()>)
        ensures
            0 <= reflections_gain <= 3_160_000 ==> r is Ok && *final(self) == (ALEfxEAXReverbProperties { reflections_gain, ..*old(self) }),
            !(0 <= reflections_gain <= 3_160_000) ==> r == Err::<(), ALError>(ALError::InvalidValue) && *final(self) == *old(self),
    {
        if reflections_gain < 0 || 3_160_000 < reflections_gain {
            return Err(ALError::InvalidValue);
        }
        self.reflections_gain = reflections_gain;
        Ok(())
    }

    /// Seconds [0.0, 0.3]
    ///
    /// Setter that checks the field's bounds, leaving the structure
    /// unchanged when they are broken.
    pub fn reflections_delay(&mut self, reflections_delay: ALMicro) -> (r: ALResult<()>)
        ensures
            0 <= reflections_delay <= 300_000 ==> r is Ok && *final(self) == (ALEfxEAXReverbProperties { reflections_delay, ..*old(self) }),
            !(0 <= reflections_delay <= 300_000) ==> r == Err::<(), ALError>(ALError::InvalidValue) && *final(self) == *old(self),
    {
        if reflections_delay < 0 || 300_000 < reflections_delay {
            return Err(ALError::InvalidValue);
        }
        self.reflections_delay = reflections_delay;
        Ok(())
    }

    /// [[-1.0, -1.0, -1.0], [1.0, 1.0, 1.0]]
    ///
    /// Setter that checks the field's bounds, leaving the structure
    /// unchanged when they are broken.
    pub fn reflections_pan(&mut self, reflections_pan: ALEfxPan) -> (r: ALResult<()>)
        ensures
            reflections_pan.valid() ==> r is Ok && *final(self) == (ALEfxEAXReverbProperties { reflections_pan, ..*old(self) }),
            !(reflections_pan.valid()) ==> r == Err::<(), ALError>(ALError::InvalidValue) && *final(self) == *old(self),
    {
        if reflections_pan.check().is_err() {
            return Err(ALError::InvalidValue);
        }
        self.reflections_pan = reflections_pan;
        Ok(())
    }

    /// [0.0, 10.0]
    ///
    /// Setter that checks the field's bounds, leaving the structure
    /// unchanged when they are broken.
    pub fn late_reverb_gain(&mut self, late_reverb_gain: ALMicro) -> (r: ALResult<()>)
        ensures
            0 <= late_reverb_gain <= 10_000_000 ==> r is Ok && *final(self) == (ALEfxEAXReverbProperties { late_reverb_gain, ..*old(self) }),
            !(0 <= late_reverb_gain <= 10_000_000) ==> r == Err::<(), ALError>(ALError::InvalidValue) && *final(self) == *old(self),
    {
        if late_reverb_gain < 0 || 10_000_000 < late_reverb_gain {
            return Err(ALError::InvalidValue);
        }
        self.late_reverb_gain = late_reverb_gain;
        Ok(())
    }

    /// Seconds [0.0, 0.1]
    ///
    /// Setter that checks the field's bounds, leaving the structure
    /// unchanged when they are broken.
    pub fn late_reverb_delay(&mut self, late_reverb_delay: ALMicro) -> (r: ALResult<()>)
        ensures
            0 <= late_reverb_delay <= 100_000 ==> r is Ok && *final(self) == (ALEfxEAXReverbProperties { late_reverb_delay, ..*old(self) }),
            !(0 <= late_reverb_delay <= 100_000) ==> r == Err::<(), ALError>(ALError::InvalidValue) && *final(self) == *old(self),
    {
        if late_reverb_delay < 0 || 100_000 < late_reverb_delay {
            return Err(ALError::InvalidValue);
        }
        self.late_reverb_delay = late_reverb_delay;
        Ok(())
    }

    /// [[-1.0, -1.0, -1.0], [1.0, 1.0, 1.0]]
    ///
    /// Setter that checks the field's bounds, leaving the structure
    /// unchanged when they are broken.
    pub fn late_reverb_pan(&mut self, late_reverb_pan: ALEfxPan) -> (r: ALResult<()>)
        ensures
            late_reverb_pan.valid() ==> r is Ok && *final(self) == (ALEfxEAXReverbProperties { late_reverb_pan, ..*old(self) }),
            !(late_reverb_pan.valid()) ==> r == Err::<(), ALError>(ALError::InvalidValue) && *final(self) == *old(self),
    {
        if late_reverb_pan.check().is_err() {
            return Err(ALError::InvalidValue);
        }
        self.late_reverb_pan = late_reverb_pan;
        Ok(())
    }

    /// Seconds [0.075, 0.25]
    ///
    /// Setter that checks the field's bounds, leaving the structure
    /// unchanged when they are broken.
    pub fn echo_time(&mut self, echo_time: ALMicro) -> (r: ALResult<()>)
        ensures
            75_000 <= echo_time <= 250_000 ==> r is Ok && *final(self) == (ALEfxEAXReverbProperties { echo_time, ..*old(self) }),
            !(75_000 <= echo_time <= 250_000) ==> r == Err::<(), ALError>(ALError::InvalidValue) && *final(self) == *old(self),
    {
        if echo_time < 75_000 || 250_000 < echo_time {
            return Err(ALError::InvalidValue);
        }
        self.echo_time = echo_time;
        Ok(())
    }

    /// [0.0, 1.0]
    ///
    /// Setter that checks the field's bounds, leaving the structure
    /// unchanged when they are broken.
    pub fn echo_depth(&mut self, echo_depth: ALMicro) -> (r: ALResult<()>)
        ensures
            0 <= echo_depth <= 1_000_000 ==> r is Ok && *final(self) == (ALEfxEAXReverbProperties { echo_depth, ..*old(self) }),
            !(0 <= echo_depth <= 1_000_000) ==> r == Err::<(), ALError>(ALError::InvalidValue) && *final(self) == *old(self),
    {
        if echo_depth < 0 || 1_000_000 < echo_depth {
            return Err(ALError::InvalidValue);
        }
        self.echo_depth = echo_depth;
        Ok(())
    }

    /// Seconds [0.04, 4.0]
    ///
    /// Setter that checks the field's bounds, leaving the structure
    /// unchanged when they are broken.
    pub fn modulation_time(&mut self, modulation_time: ALMicro) -> (r: ALResult<()>)
        ensures
            40_000 <= modulation_time <= 4_000_000 ==> r is Ok && *final(self) == (ALEfxEAXReverbProperties { modulation_time, ..*old(self) }),
            !(40_000 <= modulation_time <= 4_000_000) ==> r == Err::<(), ALError>(ALError::InvalidValue) && *final(self) == *old(self),
    {
        if modulation_time < 40_000 || 4_000_000 < modulation_time {
            return Err(ALError::InvalidValue);
        }
        self.modulation_time = modulation_time;
        Ok(())
    }

    /// [0.0, 1.0]
    ///
    /// Setter that checks the field's bounds, leaving the structure
    /// unchanged when they are broken.
    pub fn modulation_depth(&mut self, modulation_depth: ALMicro) -> (r: ALResult<()>)
        ensures
            0 <= modulation_depth <= 1_000_000 ==> r is Ok && *final(self) == (ALEfxEAXReverbProperties { modulation_depth, ..*old(self) }),
            !(0 <= modulation_depth <= 1_000_000) ==> r == Err::<(), ALError>(ALError::InvalidValue) && *final(self) == *old(self),
    {
        if modulation_depth < 0 || 1_000_000 < modulation_depth {
            return Err(ALError::InvalidValue);
        }
        self.modulation_depth = modulation_depth;
        Ok(())
    }

    /// [0.892, 1.0]
    ///
    /// Setter that checks the field's bounds, leaving the structure
    /// unchanged when they are broken.
    pub fn air_absorption_gainhf(&mut self, air_absorption_gainhf: ALMicro) -> (r: ALResult<()>)
        ensures
            892_000 <= air_absorption_gainhf <= 1_000_000 ==> r is Ok && *final(self) == (ALEfxEAXReverbProperties { air_absorption_gainhf, ..*old(self) }),
            !(892_000 <= air_absorption_gainhf <= 1_000_000) ==> r == Err::<(), ALError>(ALError::InvalidValue) && *final(self) == *old(self),
    {
        if air_absorption_gainhf < 892_000 || 1_000_000 < air_absorption_gainhf {
            return Err(ALError::InvalidValue);
        }
        self.air_absorption_gainhf = air_absorption_gainhf;
        Ok(())
    }

    /// Hertz [1000.0, 20,000.0]
    ///
    /// Setter that checks the field's bounds, leaving the structure
    /// unchanged when they are broken.
    pub fn hfreference(&mut self, hfreference: ALMicro) -> (r: ALResult<()>)
        ensures
            1_000_000_000 <= hfreference <= 20_000_000_000 ==> r is Ok && *final(self) == (ALEfxEAXReverbProperties { hfreference, ..*old(self) }),
            !(1_000_000_000 <= hfreference <= 20_000_000_000) ==> r == Err::<(), ALError>(ALError::InvalidValue) && *final(self) == *old(self),
    {
        if hfreference < 1_000_000_000 || 20_000_000_000 < hfreference {
            return Err(ALError::InvalidValue);
        }
        self.hfreference = hfreference;
        Ok(())
    }

    /// Hertz [20.0, 1000.0]
    ///
    /// Setter that checks the field's bounds, leaving the structure
    /// unchanged when they are broken.
    pub fn lfreference(&mut self, lfreference: ALMicro) -> (r: ALResult<()>)
        ensures
            20_000_000 <= lfreference <= 1_000_000_000 ==> r is Ok && *final(self) == (ALEfxEAXReverbProperties { lfreference, ..*old(self) }),
            !(20_000_000 <= lfreference <= 1_000_000_000) ==> r == Err::<(), ALError>(ALError::InvalidValue) && *final(self) == *old(self),
    {
        if lfreference < 20_000_000 || 1_000_000_000 < lfreference {
            return Err(ALError::InvalidValue);
        }
        self.lfreference = lfreference;
        Ok(())
    }

    /// [0.0, 10.0]
    ///
    /// Setter that checks the field's bounds, leaving the structure
    /// unchanged when they are broken.
    pub fn room_rolloff_factor(&mut self, room_rolloff_factor: ALMicro) -> (r: ALResult<()>)
        ensures
            0 <= room_rolloff_factor <= 10_000_000 ==> r is Ok && *final(self) == (ALEfxEAXReverbProperties { room_rolloff_factor, ..*old(self) }),
            !(0 <= room_rolloff_factor <= 10_000_000) ==> r == Err::<(), ALError>(ALError::InvalidValue) && *final(self) == *old(self),
    {
        if room_rolloff_factor < 0 || 10_000_000 < room_rolloff_factor {
            return Err(ALError::InvalidValue);
        }
        self.room_rolloff_factor = room_rolloff_factor;
        Ok(())
    }

    /// Setter that checks the field's bounds, leaving the structure
    /// unchanged when they are broken.
    pub fn decayhf_limit(&mut self, decayhf_limit: bool) -> (r: ALResult<()>)
        ensures
            r is Ok && *final(self) == (ALEfxEAXReverbProperties { decayhf_limit, ..*old(self) }),
    {
        self.decayhf_limit = decayhf_limit;
        Ok(())
    }

}

impl Default for ALEfxEAXReverbProperties {
    fn default() -> (r: Self)
        ensures
            r == Self::spec_default(),
    {
        ALEfxEAXReverbProperties {
            density: 1_000_000,
            diffusion: 1_000_000,
            gain: 320_000,
            gainhf: 890_000,
            gainlf: 0,
            decay_time: 1_490_000,
            decay_hfratio: 830_000,
            decay_lfratio: 1_000_000,
            reflections_gain: 50_000,
            reflections_delay: 7_000,
            reflections_pan: ALEfxPan { x: 0, y: 0, z: 0 },
            late_reverb_gain: 1_260_000,
            late_reverb_delay: 11_000,
            late_reverb_pan: ALEfxPan { x: 0, y: 0, z: 0 },
            echo_time: 250_000,
            echo_depth: 0,
            modulation_time: 250_000,
            modulation_depth: 0,
            air_absorption_gainhf: 994_000,
            hfreference: 5_000_000_000,
            lfreference: 250_000_000,
            room_rolloff_factor: 0,
            decayhf_limit: true,
        }
    }
}

/// The default EAX Reverb effect configuration is within bounds.
pub proof fn lemma_eax_reverb_default_valid()
    ensures
        ALEfxEAXReverbProperties::spec_default().valid(),
{
}

/// Properties used for the standard Reverb effect
#[derive(Debug, Copy, Clone, PartialEq, Eq, Structural)]
pub struct ALEfxReverbProperties {
    /// [0.0, 1.0]
    pub density: ALMicro,
    /// [0.0, 1.0]
    pub diffusion: ALMicro,
    /// [0.0, 1.0]
    pub gain: ALMicro,
    /// [0.0, 1.0]
    pub gainhf: ALMicro,
    /// Seconds [0.1, 20.0]
    pub decay_time: ALMicro,
    /// [0.1, 2.0]
    pub decay_hfratio: ALMicro,
    /// [0.0, 3.16]
    pub reflections_gain: ALMicro,
    /// Seconds [0.0, 0.3]
    pub reflections_delay: ALMicro,
    /// [0.0, 10.0]
    pub late_reverb_gain: ALMicro,
    /// Seconds [0.0, 0.1]
    pub late_reverb_delay: ALMicro,
    /// [0.892, 1.0]
    pub air_absorption_gainhf: ALMicro,
    /// [0.0, 10.0]
    pub room_rolloff_factor: ALMicro,
    pub decayhf_limit: bool,
}

impl ALEfxReverbProperties {
    /// Every field within its documented bounds.
    pub open spec fn valid(self) -> bool {
        &&& 0 <= self.density <= 1_000_000
        &&& 0 <= self.diffusion <= 1_000_000
        &&& 0 <= self.gain <= 1_000_000
        &&& 0 <= self.gainhf <= 1_000_000
        &&& 100_000 <= self.decay_time <= 20_000_000
        &&& 100_000 <= self.decay_hfratio <= 2_000_000
        &&& 0 <= self.reflections_gain <= 3_160_000
        &&& 0 <= self.reflections_delay <= 300_000
        &&& 0 <= self.late_reverb_gain <= 10_000_000
        &&& 0 <= self.late_reverb_delay <= 100_000
        &&& 892_000 <= self.air_absorption_gainhf <= 1_000_000
        &&& 0 <= self.room_rolloff_factor <= 10_000_000
    }

    /// The default configuration of this effect.
    pub open spec fn spec_default() -> Self {
        ALEfxReverbProperties {
            density: 1_000_000,
            diffusion: 1_000_000,
            gain: 320_000,
            gainhf: 890_000,
            decay_time: 1_490_000,
            decay_hfratio: 830_000,
            reflections_gain: 50_000,
            reflections_delay: 7_000,
            late_reverb_gain: 1_260_000,
            late_reverb_delay: 11_000,
            air_absorption_gainhf: 994_000,
            room_rolloff_factor: 0,
            decayhf_limit: true,
        }
    }

    /// Create a new structure from individual fields without checking
    /// bounds.
    pub fn new(density: ALMicro, diffusion: ALMicro, gain: ALMicro, gainhf: ALMicro, decay_time: ALMicro, decay_hfratio: ALMicro, reflections_gain: ALMicro, reflections_delay: ALMicro, late_reverb_gain: ALMicro, late_reverb_delay: ALMicro, air_absorption_gainhf: ALMicro, room_rolloff_factor: ALMicro, decayhf_limit: bool) -> (r: Self)
        ensures
            r == (ALEfxReverbProperties { density, diffusion, gain, gainhf, decay_time, decay_hfratio, reflections_gain, reflections_delay, late_reverb_gain, late_reverb_delay, air_absorption_gainhf, room_rolloff_factor, decayhf_limit }),
    {
        ALEfxReverbProperties { density, diffusion, gain, gainhf, decay_time, decay_hfratio, reflections_gain, reflections_delay, late_reverb_gain, late_reverb_delay, air_absorption_gainhf, room_rolloff_factor, decayhf_limit }
    }

    /// Checks bounds for all fields when creating the structure.
    pub fn new_checked(density: ALMicro, diffusion: ALMicro, gain: ALMicro, gainhf: ALMicro, decay_time: ALMicro, decay_hfratio: ALMicro, reflections_gain: ALMicro, reflections_delay: ALMicro, late_reverb_gain: ALMicro, late_reverb_delay: ALMicro, air_absorption_gainhf: ALMicro, room_rolloff_factor: ALMicro, decayhf_limit: bool) -> (r: ALResult<Self>)
        ensures
            (ALEfxReverbProperties { density, diffusion, gain, gainhf, decay_time, decay_hfratio, reflections_gain, reflections_delay, late_reverb_gain, late_reverb_delay, air_absorption_gainhf, room_rolloff_factor, decayhf_limit }).valid() ==> r == Ok::<Self, ALError>(ALEfxReverbProperties { density, diffusion, gain, gainhf, decay_time, decay_hfratio, reflections_gain, reflections_delay, late_reverb_gain, late_reverb_delay, air_absorption_gainhf, room_rolloff_factor, decayhf_limit }),
            !(ALEfxReverbProperties { density, diffusion, gain, gainhf, decay_time, decay_hfratio, reflections_gain, reflections_delay, late_reverb_gain, late_reverb_delay, air_absorption_gainhf, room_rolloff_factor, decayhf_limit }).valid() ==> r == Err::<Self, ALError>(ALError::InvalidValue),
    {
        let r = ALEfxReverbProperties { density, diffusion, gain, gainhf, decay_time, decay_hfratio, reflections_gain, reflections_delay, late_reverb_gain, late_reverb_delay, air_absorption_gainhf, room_rolloff_factor, decayhf_limit };
        match r.check() {
            Ok(_) => Ok(r),
            Err(e) => Err(e),
        }
    }

    /// Checks that all fields are within their bounds.
    pub fn check(&self) -> (r: ALResult<()>)
        ensures
            r is Ok <==> self.valid(),
            r is Err ==> r == Err::<(), ALError>(ALError::InvalidValue),
    {
        if self.density < 0 || 1_000_000 < self.density {
            return Err(ALError::InvalidValue);
        }
        if self.diffusion < 0 || 1_000_000 < self.diffusion {
            return Err(ALError::InvalidValue);
        }
        if self.gain < 0 || 1_000_000 < self.gain {
            return Err(ALError::InvalidValue);
        }
        if self.gainhf < 0 || 1_000_000 < self.gainhf {
            return Err(ALError::InvalidValue);
        }
        if self.decay_time < 100_000 || 20_000_000 < self.decay_time {
            return Err(ALError::InvalidValue);
        }
        if self.decay_hfratio < 100_000 || 2_000_000 < self.decay_hfratio {
            return Err(ALError::InvalidValue);
        }
        if self.reflections_gain < 0 || 3_160_000 < self.reflections_gain {
            return Err(ALError::InvalidValue);
        }
        if self.reflections_delay < 0 || 300_000 < self.reflections_delay {
            return Err(ALError::InvalidValue);
        }
        if self.late_reverb_gain < 0 || 10_000_000 < self.late_reverb_gain {
            return Err(ALError::InvalidValue);
        }
        if self.late_reverb_delay < 0 || 100_000 < self.late_reverb_delay {
            return Err(ALError::InvalidValue);
        }
        if self.air_absorption_gainhf < 892_000 || 1_000_000 < self.air_absorption_gainhf {
            return Err(ALError::InvalidValue);
        }
        if self.room_rolloff_factor < 0 || 10_000_000 < self.room_rolloff_factor {
            return Err(ALError::InvalidValue);
        }
        Ok(())
    }

    /// [0.0, 1.0]
    ///
    /// Setter that checks the field's bounds, leaving the structure
    /// unchanged when they are broken.
    pub fn density(&mut self, density: ALMicro) -> (r: ALResult<()>)
        ensures
            0 <= density <= 1_000_000 ==> r is Ok && *final(self) == (ALEfxReverbProperties { density, ..*old(self) }),
            !(0 <= density <= 1_000_000) ==> r == Err::<(), ALError>(ALError::InvalidValue) && *final(self) == *old(self),
    {
        if density < 0 || 1_000_000 < density {
            return Err(ALError::InvalidValue);
        }
        self.density = density;
        Ok(())
    }

    /// [0.0, 1.0]
    ///
    /// Setter that checks the field's bounds, leaving the structure
    /// unchanged when they are broken.
    pub fn diffusion(&mut self, diffusion: ALMicro) -> (r: ALResult<()>)
        ensures
            0 <= diffusion <= 1_000_000 ==> r is Ok && *final(self) == (ALEfxReverbProperties { diffusion, ..*old(self) }),
            !(0 <= diffusion <= 1_000_000) ==> r == Err::<(), ALError>(ALError::InvalidValue) && *final(self) == *old(self),
    {
        if diffusion < 0 || 1_000_000 < diffusion {
            return Err(ALError::InvalidValue);
        }
        self.diffusion = diffusion;
        Ok(())
    }

    /// [0.0, 1.0]
    ///
    /// Setter that checks the field's bounds, leaving the structure
    /// unchanged when they are broken.
    pub fn gain(&mut self, gain: ALMicro) -> (r: ALResult<()>)
        ensures
            0 <= gain <= 1_000_000 ==> r is Ok && *final(self) == (ALEfxReverbProperties { gain, ..*old(self) }),
            !(0 <= gain <= 1_000_000) ==> r == Err::<(), ALError>(ALError::InvalidValue) && *final(self) == *old(self),
    {
        if gain < 0 || 1_000_000 < gain {
            return Err(ALError::InvalidValue);
        }
        self.gain = gain;
        Ok(())
    }

    /// [0.0, 1.0]
    ///
    /// Setter that checks the field's bounds, leaving the structure
    /// unchanged when they are broken.
    pub fn gainhf(&mut self, gainhf: ALMicro) -> (r: ALResult<()>)
        ensures
            0 <= gainhf <= 1_000_000 ==> r is Ok && *final(self) == (ALEfxReverbProperties { gainhf, ..*old(self) }),
            !(0 <= gainhf <= 1_000_000) ==> r == Err::<(), ALError>(ALError::InvalidValue) && *final(self) == *old(self),
    {
        if gainhf < 0 || 1_000_000 < gainhf {
            return Err(ALError::InvalidValue);
        }
        self.gainhf = gainhf;
        Ok(())
    }

    /// Seconds [0.1, 20.0]
    ///
    /// Setter that checks the field's bounds, leaving the structure
    /// unchanged when they are broken.
    pub fn decay_time(&mut self, decay_time: ALMicro) -> (r: ALResult<()>)
        ensures
            100_000 <= decay_time <= 20_000_000 ==> r is Ok && *final(self) == (ALEfxReverbProperties { decay_time, ..*old(self) }),
            !(100_000 <= decay_time <= 20_000_000) ==> r == Err::<(), ALError>(ALError::InvalidValue) && *final(self) == *old(self),
    {
        if decay_time < 100_000 || 20_000_000 < decay_time {
            return Err(ALError::InvalidValue);
        }
        self.decay_time = decay_time;
        Ok(())
    }

    /// [0.1, 2.0]
    ///
    /// Setter that checks the field's bounds, leaving the structure
    /// unchanged when they are broken.
    pub fn decay_hfratio(&mut self, decay_hfratio: ALMicro) -> (r: ALResult<()>)
        ensures
            100_000 <= decay_hfratio <= 2_000_000 ==> r is Ok && *final(self) == (ALEfxReverbProperties { decay_hfratio, ..*old(self) }),
            !(100_000 <= decay_hfratio <= 2_000_000) ==> r == Err::<(), ALError>(ALError::InvalidValue) && *final(self) == *old(self),
    {
        if decay_hfratio < 100_000 || 2_000_000 < decay_hfratio {
            return Err(ALError::InvalidValue);
        }
        self.decay_hfratio = decay_hfratio;
        Ok(())
    }

    /// [0.0, 3.16]
    ///
    /// Setter that checks the field's bounds, leaving the structure
    /// unchanged when they are broken.
    pub fn reflections_gain(&mut self, reflections_gain: ALMicro) -> (r: ALResult<()>)
        ensures
            0 <= reflections_gain <= 3_160_000 ==> r is Ok && *final(self) == (ALEfxReverbProperties { reflections_gain, ..*old(self) }),
            !(0 <= reflections_gain <= 3_160_000) ==> r == Err::<(), ALError>(ALError::InvalidValue) && *final(self) == *old(self),
    {
        if reflections_gain < 0 || 3_160_000 < reflections_gain {
            return Err(ALError::InvalidValue);
        }
        self.reflections_gain = reflections_gain;
        Ok(())
    }

    /// Seconds [0.0, 0.3]
    ///
    /// Setter that checks the field's bounds, leaving the structure
    /// unchanged when they are broken.
    pub fn reflections_delay(&mut self, reflections_delay: ALMicro) -> (r: ALResult<()>)
        ensures
            0 <= reflections_delay <= 300_000 ==> r is Ok && *final(self) == (ALEfxReverbProperties { reflections_delay, ..*old(self) }),
            !(0 <= reflections_delay <= 300_000) ==> r == Err::<(), ALError>(ALError::InvalidValue) && *final(self) == *old(self),
    {
        if reflections_delay < 0 || 300_000 < reflections_delay {
            return Err(ALError::InvalidValue);
        }
        self.reflections_delay = reflections_delay;
        Ok(())
    }

    /// [0.0, 10.0]
    ///
    /// Setter that checks the field's bounds, leaving the structure
    /// unchanged when they are broken.
    pub fn late_reverb_gain(&mut self, late_reverb_gain: ALMicro) -> (r: ALResult<()>)
        ensures
            0 <= late_reverb_gain <= 10_000_000 ==> r is Ok && *final(self) == (ALEfxReverbProperties { late_reverb_gain, ..*old(self) }),
            !(0 <= late_reverb_gain <= 10_000_000) ==> r == Err::<(), ALError>(ALError::InvalidValue) && *final(self) == *old(self),
    {
        if late_reverb_gain < 0 || 10_000_000 < late_reverb_gain {
            return Err(ALError::InvalidValue);
        }
        self.late_reverb_gain = late_reverb_gain;
        Ok(())
    }

    /// Seconds [0.0, 0.1]
    ///
    /// Setter that checks the field's bounds, leaving the structure
    /// unchanged when they are broken.
    pub fn late_reverb_delay(&mut self, late_reverb_delay: ALMicro) -> (r: ALResult<()>)
        ensures
            0 <= late_reverb_delay <= 100_000 ==> r is Ok && *final(self) == (ALEfxReverbProperties { late_reverb_delay, ..*old(self) }),
            !(0 <= late_reverb_delay <= 100_000) ==> r == Err::<(), ALError>(ALError::InvalidValue) && *final(self) == *old(self),
    {
        if late_reverb_delay < 0 || 100_000 < late_reverb_delay {
            return Err(ALError::InvalidValue);
        }
        self.late_reverb_delay = late_reverb_delay;
        Ok(())
    }

    /// [0.892, 1.0]
    ///
    /// Setter that checks the field's bounds, leaving the structure
    /// unchanged when they are broken.
    pub fn air_absorption_gainhf(&mut self, air_absorption_gainhf: ALMicro) -> (r: ALResult<()>)
        ensures
            892_000 <= air_absorption_gainhf <= 1_000_000 ==> r is Ok && *final(self) == (ALEfxReverbProperties { air_absorption_gainhf, ..*old(self) }),
            !(892_000 <= air_absorption_gainhf <= 1_000_000) ==> r == Err::<(), ALError>(ALError::InvalidValue) && *final(self) == *old(self),
    {
        if air_absorption_gainhf < 892_000 || 1_000_000 < air_absorption_gainhf {
            return Err(ALError::InvalidValue);
        }
        self.air_absorption_gainhf = air_absorption_gainhf;
        Ok(())
    }

    /// [0.0, 10.0]
    ///
    /// Setter that checks the field's bounds, leaving the structure
    /// unchanged when they are broken.
    pub fn room_rolloff_factor(&mut self, room_rolloff_factor: ALMicro) -> (r: ALResult<()>)
        ensures
            0 <= room_rolloff_factor <= 10_000_000 ==> r is Ok && *final(self) == (ALEfxReverbProperties { room_rolloff_factor, ..*old(self) }),
            !(0 <= room_rolloff_factor <= 10_000_000) ==> r == Err::<(), ALError>(ALError::InvalidValue) && *final(self) == *old(self),
    {
        if room_rolloff_factor < 0 || 10_000_000 < room_rolloff_factor {
            return Err(ALError::InvalidValue);
        }
        self.room_rolloff_factor = room_rolloff_factor;
        Ok(())
    }

    /// Setter that checks the field's bounds, leaving the structure
    /// unchanged when they are broken.
    pub fn decayhf_limit(&mut self, decayhf_limit: bool) -> (r: ALResult<()>)
        ensures
            r is Ok && *final(self) == (ALEfxReverbProperties { decayhf_limit, ..*old(self) }),
    {
        self.decayhf_limit = decayhf_limit;
        Ok(())
    }

}

impl Default for ALEfxReverbProperties {
    fn default() -> (r: Self)
        ensures
            r == Self::spec_default(),
    {
        ALEfxReverbProperties {
            density: 1_000_000,
            diffusion: 1_000_000,
            gain: 320_000,
            gainhf: 890_000,
            decay_time: 1_490_000,
            decay_hfratio: 830_000,
            reflections_gain: 50_000,
            reflections_delay: 7_000,
            late_reverb_gain: 1_260_000,
            late_reverb_delay: 11_000,
            air_absorption_gainhf: 994_000,
            room_rolloff_factor: 0,
            decayhf_limit: true,
        }
    }
}

/// The default standard Reverb effect configuration is within bounds.
pub proof fn lemma_reverb_default_valid()
    ensures
        ALEfxReverbProperties::spec_default().valid(),
{
}

/// Properties used for the Chorus effect
#[derive(Debug, Copy, Clone, PartialEq, Eq, Structural)]
pub struct ALEfxChorusProperties {
    pub waveform: ALEfxChorusWaveform,
    /// Degrees [-180, 180]
    pub phase: i16,
    /// Hertz [0.0, 10.0]
    pub rate: ALMicro,
    /// [0.0, 1.0]
    pub depth: ALMicro,
    /// [-1.0, 1.0]
    pub feedback: ALMicro,
    /// Seconds [0.0, 0.016]
    pub delay: ALMicro,
}

impl ALEfxChorusProperties {
    /// Every field within its documented bounds.
    pub open spec fn valid(self) -> bool {
        &&& -180 <= self.phase <= 180
        &&& 0 <= self.rate <= 10_000_000
        &&& 0 <= self.depth <= 1_000_000
        &&& -1_000_000 <= self.feedback <= 1_000_000
        &&& 0 <= self.delay <= 16_000
    }

    /// The default configuration of this effect.
    pub open spec fn spec_default() -> Self {
        ALEfxChorusProperties {
            waveform: ALEfxChorusWaveform::Triangle,
            phase: 90,
            rate: 1_100_000,
            depth: 100_000,
            feedback: 250_000,
            delay: 16_000,
        }
    }

    /// Create a new structure from individual fields without checking
    /// bounds.
    pub fn new(waveform: ALEfxChorusWaveform, phase: i16, rate: ALMicro, depth: ALMicro, feedback: ALMicro, delay: ALMicro) -> (r: Self)
        ensures
            r == (ALEfxChorusProperties { waveform, phase, rate, depth, feedback, delay }),
    {
        ALEfxChorusProperties { waveform, phase, rate, depth, feedback, delay }
    }

    /// Checks bounds for all fields when creating the structure.
    pub fn new_checked(waveform: ALEfxChorusWaveform, phase: i16, rate: ALMicro, depth: ALMicro, feedback: ALMicro, delay: ALMicro) -> (r: ALResult<Self>)
        ensures
            (ALEfxChorusProperties { waveform, phase, rate, depth, feedback, delay }).valid() ==> r == Ok::<Self, ALError>(ALEfxChorusProperties { waveform, phase, rate, depth, feedback, delay }),
            !(ALEfxChorusProperties { waveform, phase, rate, depth, feedback, delay }).valid() ==> r == Err::<Self, ALError>(ALError::InvalidValue),
    {
        let r = ALEfxChorusProperties { waveform, phase, rate, depth, feedback, delay };
        match r.check() {
            Ok(_) => Ok(r),
            Err(e) => Err(e),
        }
    }

    /// Checks that all fields are within their bounds.
    pub fn check(&self) -> (r: ALResult<()>)
        ensures
            r is Ok <==> self.valid(),
            r is Err ==> r == Err::<(), ALError>(ALError::InvalidValue),
    {
        if self.phase < -180 || 180 < self.phase {
            return Err(ALError::InvalidValue);
        }
        if self.rate < 0 || 10_000_000 < self.rate {
            return Err(ALError::InvalidValue);
        }
        if self.depth < 0 || 1_000_000 < self.depth {
            return Err(ALError::InvalidValue);
        }
        if self.feedback < -1_000_000 || 1_000_000 < self.feedback {
            return Err(ALError::InvalidValue);
        }
        if self.delay < 0 || 16_000 < self.delay {
            return Err(ALError::InvalidValue);
        }
        Ok(())
    }

    /// Setter that checks the field's bounds, leaving the structure
    /// unchanged when they are broken.
    pub fn waveform(&mut self, waveform: ALEfxChorusWaveform) -> (r: ALResult<()>)
        ensures
            r is Ok && *final(self) == (ALEfxChorusProperties { waveform, ..*old(self) }),
    {
        self.waveform = waveform;
        Ok(())
    }

    /// Degrees [-180, 180]
    ///
    /// Setter that checks the field's bounds, leaving the structure
    /// unchanged when they are broken.
    pub fn phase(&mut self, phase: i16) -> (r: ALResult<()>)
        ensures
            -180 <= phase <= 180 ==> r is Ok && *final(self) == (ALEfxChorusProperties { phase, ..*old(self) }),
            !(-180 <= phase <= 180) ==> r == Err::<(), ALError>(ALError::InvalidValue) && *final(self) == *old(self),
    {
        if phase < -180 || 180 < phase {
            return Err(ALError::InvalidValue);
        }
        self.phase = phase;
        Ok(())
    }

    /// Hertz [0.0, 10.0]
    ///
    /// Setter that checks the field's bounds, leaving the structure
    /// unchanged when they are broken.
    pub fn rate(&mut self, rate: ALMicro) -> (r: ALResult<()>)
        ensures
            0 <= rate <= 10_000_000 ==> r is Ok && *final(self) == (ALEfxChorusProperties { rate, ..*old(self) }),
            !(0 <= rate <= 10_000_000) ==> r == Err::<(), ALError>(ALError::InvalidValue) && *final(self) == *old(self),
    {
        if rate < 0 || 10_000_000 < rate {
            return Err(ALError::InvalidValue);
        }
        self.rate = rate;
        Ok(())
    }

    /// [0.0, 1.0]
    ///
    /// Setter that checks the field's bounds, leaving the structure
    /// unchanged when they are broken.
    pub fn depth(&mut self, depth: ALMicro) -> (r: ALResult<()>)
        ensures
            0 <= depth <= 1_000_000 ==> r is Ok && *final(self) == (ALEfxChorusProperties { depth, ..*old(self) }),
            !(0 <= depth <= 1_000_000) ==> r == Err::<(), ALError>(ALError::InvalidValue) && *final(self) == *old(self),
    {
        if depth < 0 || 1_000_000 < depth {
            return Err(ALError::InvalidValue);
        }
        self.depth = depth;
        Ok(())
    }

    /// [-1.0, 1.0]
    ///
    /// Setter that checks the field's bounds, leaving the structure
    /// unchanged when they are broken.
    pub fn feedback(&mut self, feedback: ALMicro) -> (r: ALResult<()>)
        ensures
            -1_000_000 <= feedback <= 1_000_000 ==> r is Ok && *final(self) == (ALEfxChorusProperties { feedback, ..*old(self) }),
            !(-1_000_000 <= feedback <= 1_000_000) ==> r == Err::<(), ALError>(ALError::InvalidValue) && *final(self) == *old(self),
    {
        if feedback < -1_000_000 || 1_000_000 < feedback {
            return Err(ALError::InvalidValue);
        }
        self.feedback = feedback;
        Ok(())
    }

    /// Seconds [0.0, 0.016]
    ///
    /// Setter that checks the field's bounds, leaving the structure
    /// unchanged when they are broken.
    pub fn delay(&mut self, delay: ALMicro) -> (r: ALResult<()>)
        ensures
            0 <= delay <= 16_000 ==> r is Ok && *final(self) == (ALEfxChorusProperties { delay, ..*old(self) }),
            !(0 <= delay <= 16_000) ==> r == Err::<(), ALError>(ALError::InvalidValue) && *final(self) == *old(self),
    {
        if delay < 0 || 16_000 < delay {
            return Err(ALError::InvalidValue);
        }
        self.delay = delay;
        Ok(())
    }

}

impl Default for ALEfxChorusProperties {
    fn default() -> (r: Self)
        ensures
            r == Self::spec_default(),
    {
        ALEfxChorusProperties {
            waveform: ALEfxChorusWaveform::Triangle,
            phase: 90,
            rate: 1_100_000,
            depth: 100_000,
            feedback: 250_000,
            delay: 16_000,
        }
    }
}

/// The default Chorus effect configuration is within bounds.
pub proof fn lemma_chorus_default_valid()
    ensures
        ALEfxChorusProperties::spec_default().valid(),
{
}

/// Properties used for the Distortion effect
#[derive(Debug, Copy, Clone, PartialEq, Eq, Structural)]
pub struct ALEfxDistortionProperties {
    /// [0.0, 1.0]
    pub edge: ALMicro,
    /// [0.01, 1.0]
    pub gain: ALMicro,
    /// Hertz [80.0, 24000.0]
    pub lowpass_cutoff: ALMicro,
    /// Hertz [80.0, 24000.0]
    pub eqcenter: ALMicro,
    /// Hertz [80.0, 24000.0]
    pub eqbandwidth: ALMicro,
}

impl ALEfxDistortionProperties {
    /// Every field within its documented bounds.
    pub open spec fn valid(self) -> bool {
        &&& 0 <= self.edge <= 1_000_000
        &&& 10_000 <= self.gain <= 1_000_000
        &&& 80_000_000 <= self.lowpass_cutoff <= 24_000_000_000
        &&& 80_000_000 <= self.eqcenter <= 24_000_000_000
        &&& 80_000_000 <= self.eqbandwidth <= 24_000_000_000
    }

    /// The default configuration of this effect.
    pub open spec fn spec_default() -> Self {
        ALEfxDistortionProperties {
            edge: 200_000,
            gain: 50_000,
            lowpass_cutoff: 8_000_000_000,
            eqcenter: 3_600_000_000,
            eqbandwidth: 3_600_000_000,
        }
    }

    /// Create a new structure from individual fields without checking
    /// bounds.
    pub fn new(edge: ALMicro, gain: ALMicro, lowpass_cutoff: ALMicro, eqcenter: ALMicro, eqbandwidth: ALMicro) -> (r: Self)
        ensures
            r == (ALEfxDistortionProperties { edge, gain, lowpass_cutoff, eqcenter, eqbandwidth }),
    {
        ALEfxDistortionProperties { edge, gain, lowpass_cutoff, eqcenter, eqbandwidth }
    }

    /// Checks bounds for all fields when creating the structure.
    pub fn new_checked(edge: ALMicro, gain: ALMicro, lowpass_cutoff: ALMicro, eqcenter: ALMicro, eqbandwidth: ALMicro) -> (r: ALResult<Self>)
        ensures
            (ALEfxDistortionProperties { edge, gain, lowpass_cutoff, eqcenter, eqbandwidth }).valid() ==> r == Ok::<Self, ALError>(ALEfxDistortionProperties { edge, gain, lowpass_cutoff, eqcenter, eqbandwidth }),
            !(ALEfxDistortionProperties { edge, gain, lowpass_cutoff, eqcenter, eqbandwidth }).valid() ==> r == Err::<Self, ALError>(ALError::InvalidValue),
    {
        let r = ALEfxDistortionProperties { edge, gain, lowpass_cutoff, eqcenter, eqbandwidth };
        match r.check() {
            Ok(_) => Ok(r),
            Err(e) => Err(e),
        }
    }

    /// Checks that all fields are within their bounds.
    pub fn check(&self) -> (r: ALResult<()>)
        ensures
            r is Ok <==> self.valid(),
            r is Err ==> r == Err::<(), ALError>(ALError::InvalidValue),
    {
        if self.edge < 0 || 1_000_000 < self.edge {
            return Err(ALError::InvalidValue);
        }
        if self.gain < 10_000 || 1_000_000 < self.gain {
            return Err(ALError::InvalidValue);
        }
        if self.lowpass_cutoff < 80_000_000 || 24_000_000_000 < self.lowpass_cutoff {
            return Err(ALError::InvalidValue);
        }
        if self.eqcenter < 80_000_000 || 24_000_000_000 < self.eqcenter {
            return Err(ALError::InvalidValue);
        }
        if self.eqbandwidth < 80_000_000 || 24_000_000_000 < self.eqbandwidth {
            return Err(ALError::InvalidValue);
        }
        Ok(())
    }

    /// [0.0, 1.0]
    ///
    /// Setter that checks the field's bounds, leaving the structure
    /// unchanged when they are broken.
    pub fn edge(&mut self, edge: ALMicro) -> (r: ALResult<()>)
        ensures
            0 <= edge <= 1_000_000 ==> r is Ok && *final(self) == (ALEfxDistortionProperties { edge, ..*old(self) }),
            !(0 <= edge <= 1_000_000) ==> r == Err::<(), ALError>(ALError::InvalidValue) && *final(self) == *old(self),
    {
        if edge < 0 || 1_000_000 < edge {
            return Err(ALError::InvalidValue);
        }
        self.edge = edge;
        Ok(())
    }

    /// [0.01, 1.0]
    ///
    /// Setter that checks the field's bounds, leaving the structure
    /// unchanged when they are broken.
    pub fn gain(&mut self, gain: ALMicro) -> (r: ALResult<()>)
        ensures
            10_000 <= gain <= 1_000_000 ==> r is Ok && *final(self) == (ALEfxDistortionProperties { gain, ..*old(self) }),
            !(10_000 <= gain <= 1_000_000) ==> r == Err::<(), ALError>(ALError::InvalidValue) && *final(self) == *old(self),
    {
        if gain < 10_000 || 1_000_000 < gain {
            return Err(ALError::InvalidValue);
        }
        self.gain = gain;
        Ok(())
    }

    /// Hertz [80.0, 24000.0]
    ///
    /// Setter that checks the field's bounds, leaving the structure
    /// unchanged when they are broken.
    pub fn lowpass_cutoff(&mut self, lowpass_cutoff: ALMicro) -> (r: ALResult<()>)
        ensures
            80_000_000 <= lowpass_cutoff <= 24_000_000_000 ==> r is Ok && *final(self) == (ALEfxDistortionProperties { lowpass_cutoff, ..*old(self) }),
            !(80_000_000 <= lowpass_cutoff <= 24_000_000_000) ==> r == Err::<(), ALError>(ALError::InvalidValue) && *final(self) == *old(self),
    {
        if lowpass_cutoff < 80_000_000 || 24_000_000_000 < lowpass_cutoff {
            return Err(ALError::InvalidValue);
        }
        self.lowpass_cutoff = lowpass_cutoff;
        Ok(())
    }

    /// Hertz [80.0, 24000.0]
    ///
    /// Setter that checks the field's bounds, leaving the structure
    /// unchanged when they are broken.
    pub fn eqcenter(&mut self, eqcenter: ALMicro) -> (r: ALResult<()>)
        ensures
            80_000_000 <= eqcenter <= 24_000_000_000 ==> r is Ok && *final(self) == (ALEfxDistortionProperties { eqcenter, ..*old(self) }),
            !(80_000_000 <= eqcenter <= 24_000_000_000) ==> r == Err::<(), ALError>(ALError::InvalidValue) && *final(self) == *old(self),
    {
        if eqcenter < 80_000_000 || 24_000_000_000 < eqcenter {
            return Err(ALError::InvalidValue);
        }
        self.eqcenter = eqcenter;
        Ok(())
    }

    /// Hertz [80.0, 24000.0]
    ///
    /// Setter that checks the field's bounds, leaving the structure
    /// unchanged when they are broken.
    pub fn eqbandwidth(&mut self, eqbandwidth: ALMicro) -> (r: ALResult<()>)
        ensures
            80_000_000 <= eqbandwidth <= 24_000_000_000 ==> r is Ok && *final(self) == (ALEfxDistortionProperties { eqbandwidth, ..*old(self) }),
            !(80_000_000 <= eqbandwidth <= 24_000_000_000) ==> r == Err::<(), ALError>(ALError::InvalidValue) && *final(self) == *old(self),
    {
        if eqbandwidth < 80_000_000 || 24_000_000_000 < eqbandwidth {
            return Err(ALError::InvalidValue);
        }
        self.eqbandwidth = eqbandwidth;
        Ok(())
    }

}

impl Default for ALEfxDistortionProperties {
    fn default() -> (r: Self)
        ensures
            r == Self::spec_default(),
    {
        ALEfxDistortionProperties {
            edge: 200_000,
            gain: 50_000,
            lowpass_cutoff: 8_000_000_000,
            eqcenter: 3_600_000_000,
            eqbandwidth: 3_600_000_000,
        }
    }
}

/// The default Distortion effect configuration is within bounds.
pub proof fn lemma_distortion_default_valid()
    ensures
        ALEfxDistortionProperties::spec_default().valid(),
{
}

/// Properties used for the Echo effect
#[derive(Debug, Copy, Clone, PartialEq, Eq, Structural)]
pub struct ALEfxEchoProperties {
    /// Seconds [0.0, 0.207]
    pub delay: ALMicro,
    /// Seconds [0.0, 0.404]
    pub lrdelay: ALMicro,
    /// [0.0, 0.99]
    pub damping: ALMicro,
    /// [0.0, 1.0]
    pub feedback: ALMicro,
    /// [-1.0, 1.0]
    pub spread: ALMicro,
}

impl ALEfxEchoProperties {
    /// Every field within its documented bounds.
    pub open spec fn valid(self) -> bool {
        &&& 0 <= self.delay <= 207_000
        &&& 0 <= self.lrdelay <= 404_000
        &&& 0 <= self.damping <= 990_000
        &&& 0 <= self.feedback <= 1_000_000
        &&& -1_000_000 <= self.spread <= 1_000_000
    }

    /// The default configuration of this effect.
    pub open spec fn spec_default() -> Self {
        ALEfxEchoProperties {
            delay: 100_000,
            lrdelay: 100_000,
            damping: 500_000,
            feedback: 500_000,
            spread: -1_000_000i64,
        }
    }

    /// Create a new structure from individual fields without checking
    /// bounds.
    pub fn new(delay: ALMicro, lrdelay: ALMicro, damping: ALMicro, feedback: ALMicro, spread: ALMicro) -> (r: Self)
        ensures
            r == (ALEfxEchoProperties { delay, lrdelay, damping, feedback, spread }),
    {
        ALEfxEchoProperties { delay, lrdelay, damping, feedback, spread }
    }

    /// Checks bounds for all fields when creating the structure.
    pub fn new_checked(delay: ALMicro, lrdelay: ALMicro, damping: ALMicro, feedback: ALMicro, spread: ALMicro) -> (r: ALResult<Self>)
        ensures
            (ALEfxEchoProperties { delay, lrdelay, damping, feedback, spread }).valid() ==> r == Ok::<Self, ALError>(ALEfxEchoProperties { delay, lrdelay, damping, feedback, spread }),
            !(ALEfxEchoProperties { delay, lrdelay, damping, feedback, spread }).valid() ==> r == Err::<Self, ALError>(ALError::InvalidValue),
    {
        let r = ALEfxEchoProperties { delay, lrdelay, damping, feedback, spread };
        match r.check() {
            Ok(_) => Ok(r),
            Err(e) => Err(e),
        }
    }

    /// Checks that all fields are within their bounds.
    pub fn check(&self) -> (r: ALResult<()>)
        ensures
            r is Ok <==> self.valid(),
            r is Err ==> r == Err::<(), ALError>(ALError::InvalidValue),
    {
        if self.delay < 0 || 207_000 < self.delay {
            return Err(ALError::InvalidValue);
        }
        if self.lrdelay < 0 || 404_000 < self.lrdelay {
            return Err(ALError::InvalidValue);
        }
        if self.damping < 0 || 990_000 < self.damping {
            return Err(ALError::InvalidValue);
        }
        if self.feedback < 0 || 1_000_000 < self.feedback {
            return Err(ALError::InvalidValue);
        }
        if self.spread < -1_000_000 || 1_000_000 < self.spread {
            return Err(ALError::InvalidValue);
        }
        Ok(())
    }

    /// Seconds [0.0, 0.207]
    ///
    /// Setter that checks the field's bounds, leaving the structure
    /// unchanged when they are broken.
    pub fn delay(&mut self, delay: ALMicro) -> (r: ALResult<()>)
        ensures
            0 <= delay <= 207_000 ==> r is Ok && *final(self) == (ALEfxEchoProperties { delay, ..*old(self) }),
            !(0 <= delay <= 207_000) ==> r == Err::<(), ALError>(ALError::InvalidValue) && *final(self) == *old(self),
    {
        if delay < 0 || 207_000 < delay {
            return Err(ALError::InvalidValue);
        }
        self.delay = delay;
        Ok(())
    }

    /// Seconds [0.0, 0.404]
    ///
    /// Setter that checks the field's bounds, leaving the structure
    /// unchanged when they are broken.
    pub fn lrdelay(&mut self, lrdelay: ALMicro) -> (r: ALResult<()>)
        ensures
            0 <= lrdelay <= 404_000 ==> r is Ok && *final(self) == (ALEfxEchoProperties { lrdelay, ..*old(self) }),
            !(0 <= lrdelay <= 404_000) ==> r == Err::<(), ALError>(ALError::InvalidValue) && *final(self) == *old(self),
    {
        if lrdelay < 0 || 404_000 < lrdelay {
            return Err(ALError::InvalidValue);
        }
        self.lrdelay = lrdelay;
        Ok(())
    }

    /// [0.0, 0.99]
    ///
    /// Setter that checks the field's bounds, leaving the structure
    /// unchanged when they are broken.
    pub fn damping(&mut self, damping: ALMicro) -> (r: ALResult<()>)
        ensures
            0 <= damping <= 990_000 ==> r is Ok && *final(self) == (ALEfxEchoProperties { damping, ..*old(self) }),
            !(0 <= damping <= 990_000) ==> r == Err::<(), ALError>(ALError::InvalidValue) && *final(self) == *old(self),
    {
        if damping < 0 || 990_000 < damping {
            return Err(ALError::InvalidValue);
        }
        self.damping = damping;
        Ok(())
    }

    /// [0.0, 1.0]
    ///
    /// Setter that checks the field's bounds, leaving the structure
    /// unchanged when they are broken.
    pub fn feedback(&mut self, feedback: ALMicro) -> (r: ALResult<()>)
        ensures
            0 <= feedback <= 1_000_000 ==> r is Ok && *final(self) == (ALEfxEchoProperties { feedback, ..*old(self) }),
            !(0 <= feedback <= 1_000_000) ==> r == Err::<(), ALError>(ALError::InvalidValue) && *final(self) == *old(self),
    {
        if feedback < 0 || 1_000_000 < feedback {
            return Err(ALError::InvalidValue);
        }
        self.feedback = feedback;
        Ok(())
    }

    /// [-1.0, 1.0]
    ///
    /// Setter that checks the field's bounds, leaving the structure
    /// unchanged when they are broken.
    pub fn spread(&mut self, spread: ALMicro) -> (r: ALResult<()>)
        ensures
            -1_000_000 <= spread <= 1_000_000 ==> r is Ok && *final(self) == (ALEfxEchoProperties { spread, ..*old(self) }),
            !(-1_000_000 <= spread <= 1_000_000) ==> r == Err::<(), ALError>(ALError::InvalidValue) && *final(self) == *old(self),
    {
        if spread < -1_000_000 || 1_000_000 < spread {
            return Err(ALError::InvalidValue);
        }
        self.spread = spread;
        Ok(())
    }

}

impl Default for ALEfxEchoProperties {
    fn default() -> (r: Self)
        ensures
            r == Self::spec_default(),
    {
        ALEfxEchoProperties {
            delay: 100_000,
            lrdelay: 100_000,
            damping: 500_000,
            feedback: 500_000,
            spread: -1_000_000i64,
        }
    }
}

/// The default Echo effect configuration is within bounds.
pub proof fn lemma_echo_default_valid()
    ensures
        ALEfxEchoProperties::spec_default().valid(),
{
}

/// Properties used for the Flanger effect
#[derive(Debug, Copy, Clone, PartialEq, Eq, Structural)]
pub struct ALEfxFlangerProperties {
    pub waveform: ALEfxFlangerWaveform,
    /// Degrees [-180, 180]
    pub phase: i16,
    /// Hertz [0.0, 10.0]
    pub rate: ALMicro,
    /// [0.0, 1.0]
    pub depth: ALMicro,
    /// [-1.0, 1.0]
    pub feedback: ALMicro,
    /// Seconds [0.0, 0.004]
    pub delay: ALMicro,
}

impl ALEfxFlangerProperties {
    /// Every field within its documented bounds.
    pub open spec fn valid(self) -> bool {
        &&& -180 <= self.phase <= 180
        &&& 0 <= self.rate <= 10_000_000
        &&& 0 <= self.depth <= 1_000_000
        &&& -1_000_000 <= self.feedback <= 1_000_000
        &&& 0 <= self.delay <= 4_000
    }

    /// The default configuration of this effect.
    pub open spec fn spec_default() -> Self {
        ALEfxFlangerProperties {
            waveform: ALEfxFlangerWaveform::Triangle,
            phase: 0,
            rate: 270_000,
            depth: 1_000_000,
            feedback: -500_000i64,
            delay: 2_000,
        }
    }

    /// Create a new structure from individual fields without checking
    /// bounds.
    pub fn new(waveform: ALEfxFlangerWaveform, phase: i16, rate: ALMicro, depth: ALMicro, feedback: ALMicro, delay: ALMicro) -> (r: Self)
        ensures
            r == (ALEfxFlangerProperties { waveform, phase, rate, depth, feedback, delay }),
    {
        ALEfxFlangerProperties { waveform, phase, rate, depth, feedback, delay }
    }

    /// Checks bounds for all fields when creating the structure.
    pub fn new_checked(waveform: ALEfxFlangerWaveform, phase: i16, rate: ALMicro, depth: ALMicro, feedback: ALMicro, delay: ALMicro) -> (r: ALResult<Self>)
        ensures
            (ALEfxFlangerProperties { waveform, phase, rate, depth, feedback, delay }).valid() ==> r == Ok::<Self, ALError>(ALEfxFlangerProperties { waveform, phase, rate, depth, feedback, delay }),
            !(ALEfxFlangerProperties { waveform, phase, rate, depth, feedback, delay }).valid() ==> r == Err::<Self, ALError>(ALError::InvalidValue),
    {
        let r = ALEfxFlangerProperties { waveform, phase, rate, depth, feedback, delay };
        match r.check() {
            Ok(_) => Ok(r),
            Err(e) => Err(e),
        }
    }

    /// Checks that all fields are within their bounds.
    pub fn check(&self) -> (r: ALResult<()>)
        ensures
            r is Ok <==> self.valid(),
            r is Err ==> r == Err::<(), ALError>(ALError::InvalidValue),
    {
        if self.phase < -180 || 180 < self.phase {
            return Err(ALError::InvalidValue);
        }
        if self.rate < 0 || 10_000_000 < self.rate {
            return Err(ALError::InvalidValue);
        }
        if self.depth < 0 || 1_000_000 < self.depth {
            return Err(ALError::InvalidValue);
        }
        if self.feedback < -1_000_000 || 1_000_000 < self.feedback {
            return Err(ALError::InvalidValue);
        }
        if self.delay < 0 || 4_000 < self.delay {
            return Err(ALError::InvalidValue);
        }
        Ok(())
    }

    /// Setter that checks the field's bounds, leaving the structure
    /// unchanged when they are broken.
    pub fn waveform(&mut self, waveform: ALEfxFlangerWaveform) -> (r: ALResult<()>)
        ensures
            r is Ok && *final(self) == (ALEfxFlangerProperties { waveform, ..*old(self) }),
    {
        self.waveform = waveform;
        Ok(())
    }

    /// Degrees [-180, 180]
    ///
    /// Setter that checks the field's bounds, leaving the structure
    /// unchanged when they are broken.
    pub fn phase(&mut self, phase: i16) -> (r: ALResult<()>)
        ensures
            -180 <= phase <= 180 ==> r is Ok && *final(self) == (ALEfxFlangerProperties { phase, ..*old(self) }),
            !(-180 <= phase <= 180) ==> r == Err::<(), ALError>(ALError::InvalidValue) && *final(self) == *old(self),
    {
        if phase < -180 || 180 < phase {
            return Err(ALError::InvalidValue);
        }
        self.phase = phase;
        Ok(())
    }

    /// Hertz [0.0, 10.0]
    ///
    /// Setter that checks the field's bounds, leaving the structure
    /// unchanged when they are broken.
    pub fn rate(&mut self, rate: ALMicro) -> (r: ALResult<()>)
        ensures
            0 <= rate <= 10_000_000 ==> r is Ok && *final(self) == (ALEfxFlangerProperties { rate, ..*old(self) }),
            !(0 <= rate <= 10_000_000) ==> r == Err::<(), ALError>(ALError::InvalidValue) && *final(self) == *old(self),
    {
        if rate < 0 || 10_000_000 < rate {
            return Err(ALError::InvalidValue);
        }
        self.rate = rate;
        Ok(())
    }

    /// [0.0, 1.0]
    ///
    /// Setter that checks the field's bounds, leaving the structure
    /// unchanged when they are broken.
    pub fn depth(&mut self, depth: ALMicro) -> (r: ALResult<()>)
        ensures
            0 <= depth <= 1_000_000 ==> r is Ok && *final(self) == (ALEfxFlangerProperties { depth, ..*old(self) }),
            !(0 <= depth <= 1_000_000) ==> r == Err::<(), ALError>(ALError::InvalidValue) && *final(self) == *old(self),
    {
        if depth < 0 || 1_000_000 < depth {
            return Err(ALError::InvalidValue);
        }
        self.depth = depth;
        Ok(())
    }

    /// [-1.0, 1.0]
    ///
    /// Setter that checks the field's bounds, leaving the structure
    /// unchanged when they are broken.
    pub fn feedback(&mut self, feedback: ALMicro) -> (r: ALResult<()>)
        ensures
            -1_000_000 <= feedback <= 1_000_000 ==> r is Ok && *final(self) == (ALEfxFlangerProperties { feedback, ..*old(self) }),
            !(-1_000_000 <= feedback <= 1_000_000) ==> r == Err::<(), ALError>(ALError::InvalidValue) && *final(self) == *old(self),
    {
        if feedback < -1_000_000 || 1_000_000 < feedback {
            return Err(ALError::InvalidValue);
        }
        self.feedback = feedback;
        Ok(())
    }

    /// Seconds [0.0, 0.004]
    ///
    /// Setter that checks the field's bounds, leaving the structure
    /// unchanged when they are broken.
    pub fn delay(&mut self, delay: ALMicro) -> (r: ALResult<()>)
        ensures
            0 <= delay <= 4_000 ==> r is Ok && *final(self) == (ALEfxFlangerProperties { delay, ..*old(self) }),
            !(0 <= delay <= 4_000) ==> r == Err::<(), ALError>(ALError::InvalidValue) && *final(self) == *old(self),
    {
        if delay < 0 || 4_000 < delay {
            return Err(ALError::InvalidValue);
        }
        self.delay = delay;
        Ok(())
    }

}

impl Default for ALEfxFlangerProperties {
    fn default() -> (r: Self)
        ensures
            r == Self::spec_default(),
    {
        ALEfxFlangerProperties {
            waveform: ALEfxFlangerWaveform::Triangle,
            phase: 0,
            rate: 270_000,
            depth: 1_000_000,
            feedback: -500_000i64,
            delay: 2_000,
        }
    }
}

/// The default Flanger effect configuration is within bounds.
pub proof fn lemma_flanger_default_valid()
    ensures
        ALEfxFlangerProperties::spec_default().valid(),
{
}

/// Properties used for the Frequency Shifter effect
#[derive(Debug, Copy, Clone, PartialEq, Eq, Structural)]
pub struct ALEfxFrequencyShifterProperties {
    /// Hertz [0.0, 24000.0]
    pub frequency: ALMicro,
    pub left_direction: ALEfxFrequencyShifterDirection,
    pub right_direction: ALEfxFrequencyShifterDirection,
}

impl ALEfxFrequencyShifterProperties {
    /// Every field within its documented bounds.
    pub open spec fn valid(self) -> bool {
        &&& 0 <= self.frequency <= 24_000_000_000
    }

    /// The default configuration of this effect.
    pub open spec fn spec_default() -> Self {
        ALEfxFrequencyShifterProperties {
            frequency: 0,
            left_direction: ALEfxFrequencyShifterDirection::Down,
            right_direction: ALEfxFrequencyShifterDirection::Down,
        }
    }

    /// Create a new structure from individual fields without checking
    /// bounds.
    pub fn new(frequency: ALMicro, left_direction: ALEfxFrequencyShifterDirection, right_direction: ALEfxFrequencyShifterDirection) -> (r: Self)
        ensures
            r == (ALEfxFrequencyShifterProperties { frequency, left_direction, right_direction }),
    {
        ALEfxFrequencyShifterProperties { frequency, left_direction, right_direction }
    }

    /// Checks bounds for all fields when creating the structure.
    pub fn new_checked(frequency: ALMicro, left_direction: ALEfxFrequencyShifterDirection, right_direction: ALEfxFrequencyShifterDirection) -> (r: ALResult<Self>)
        ensures
            (ALEfxFrequencyShifterProperties { frequency, left_direction, right_direction }).valid() ==> r == Ok::<Self, ALError>(ALEfxFrequencyShifterProperties { frequency, left_direction, right_direction }),
            !(ALEfxFrequencyShifterProperties { frequency, left_direction, right_direction }).valid() ==> r == Err::<Self, ALError>(ALError::InvalidValue),
    {
        let r = ALEfxFrequencyShifterProperties { frequency, left_direction, right_direction };
        match r.check() {
            Ok(_) => Ok(r),
            Err(e) => Err(e),
        }
    }

    /// Checks that all fields are within their bounds.
    pub fn check(&self) -> (r: ALResult<()>)
        ensures
            r is Ok <==> self.valid(),
            r is Err ==> r == Err::<(), ALError>(ALError::InvalidValue),
    {
        if self.frequency < 0 || 24_000_000_000 < self.frequency {
            return Err(ALError::InvalidValue);
        }
        Ok(())
    }

    /// Hertz [0.0, 24000.0]
    ///
    /// Setter that checks the field's bounds, leaving the structure
    /// unchanged when they are broken.
    pub fn frequency(&mut self, frequency: ALMicro) -> (r: ALResult<()>)
        ensures
            0 <= frequency <= 24_000_000_000 ==> r is Ok && *final(self) == (ALEfxFrequencyShifterProperties { frequency, ..*old(self) }),
            !(0 <= frequency <= 24_000_000_000) ==> r == Err::<(), ALError>(ALError::InvalidValue) && *final(self) == *old(self),
    {
        if frequency < 0 || 24_000_000_000 < frequency {
            return Err(ALError::InvalidValue);
        }
        self.frequency = frequency;
        Ok(())
    }

    /// Setter that checks the field's bounds, leaving the structure
    /// unchanged when they are broken.
    pub fn left_direction(&mut self, left_direction: ALEfxFrequencyShifterDirection) -> (r: ALResult<()>)
        ensures
            r is Ok && *final(self) == (ALEfxFrequencyShifterProperties { left_direction, ..*old(self) }),
    {
        self.left_direction = left_direction;
        Ok(())
    }

    /// Setter that checks the field's bounds, leaving the structure
    /// unchanged when they are broken.
    pub fn right_direction(&mut self, right_direction: ALEfxFrequencyShifterDirection) -> (r: ALResult<()>)
        ensures
            r is Ok && *final(self) == (ALEfxFrequencyShifterProperties { right_direction, ..*old(self) }),
    {
        self.right_direction = right_direction;
        Ok(())
    }

}

impl Default for ALEfxFrequencyShifterProperties {
    fn default() -> (r: Self)
        ensures
            r == Self::spec_default(),
    {
        ALEfxFrequencyShifterProperties {
            frequency: 0,
            left_direction: ALEfxFrequencyShifterDirection::Down,
            right_direction: ALEfxFrequencyShifterDirection::Down,
        }
    }
}

/// The default Frequency Shifter effect configuration is within bounds.
pub proof fn lemma_frequency_shifter_default_valid()
    ensures
        ALEfxFrequencyShifterProperties::spec_default().valid(),
{
}

/// Properties used for the Vocal Morpher effect
#[derive(Debug, Copy, Clone, PartialEq, Eq, Structural)]
pub struct ALEfxVocalMorpherProperties {
    pub phoneme_a: ALEfxVocalMorpherPhoneme,
    pub phoneme_b: ALEfxVocalMorpherPhoneme,
    /// Semitones [-24, 24]
    pub coarse_tuning_a: i8,
    /// Semitones [-24, 24]
    pub coarse_tuning_b: i8,
    pub waveform: ALEfxVocalMorpherWaveform,
    /// Hertz [0.0, 10.0]
    pub rate: ALMicro,
}

impl ALEfxVocalMorpherProperties {
    /// Every field within its documented bounds.
    pub open spec fn valid(self) -> bool {
        &&& -24 <= self.coarse_tuning_a <= 24
        &&& -24 <= self.coarse_tuning_b <= 24
        &&& 0 <= self.rate <= 10_000_000
    }

    /// The default configuration of this effect.
    pub open spec fn spec_default() -> Self {
        ALEfxVocalMorpherProperties {
            phoneme_a: ALEfxVocalMorpherPhoneme::A,
            phoneme_b: ALEfxVocalMorpherPhoneme::A,
            coarse_tuning_a: 0,
            coarse_tuning_b: 0,
            waveform: ALEfxVocalMorpherWaveform::Sinusoid,
            rate: 1_410_000,
        }
    }

    /// Create a new structure from individual fields without checking
    /// bounds.
    pub fn new(phoneme_a: ALEfxVocalMorpherPhoneme, phoneme_b: ALEfxVocalMorpherPhoneme, coarse_tuning_a: i8, coarse_tuning_b: i8, waveform: ALEfxVocalMorpherWaveform, rate: ALMicro) -> (r: Self)
        ensures
            r == (ALEfxVocalMorpherProperties { phoneme_a, phoneme_b, coarse_tuning_a, coarse_tuning_b, waveform, rate }),
    {
        ALEfxVocalMorpherProperties { phoneme_a, phoneme_b, coarse_tuning_a, coarse_tuning_b, waveform, rate }
    }

    /// Checks bounds for all fields when creating the structure.
    pub fn new_checked(phoneme_a: ALEfxVocalMorpherPhoneme, phoneme_b: ALEfxVocalMorpherPhoneme, coarse_tuning_a: i8, coarse_tuning_b: i8, waveform: ALEfxVocalMorpherWaveform, rate: ALMicro) -> (r: ALResult<Self>)
        ensures
            (ALEfxVocalMorpherProperties { phoneme_a, phoneme_b, coarse_tuning_a, coarse_tuning_b, waveform, rate }).valid() ==> r == Ok::<Self, ALError>(ALEfxVocalMorpherProperties { phoneme_a, phoneme_b, coarse_tuning_a, coarse_tuning_b, waveform, rate }),
            !(ALEfxVocalMorpherProperties { phoneme_a, phoneme_b, coarse_tuning_a, coarse_tuning_b, waveform, rate }).valid() ==> r == Err::<Self, ALError>(ALError::InvalidValue),
    {
        let r = ALEfxVocalMorpherProperties { phoneme_a, phoneme_b, coarse_tuning_a, coarse_tuning_b, waveform, rate };
        match r.check() {
            Ok(_) => Ok(r),
            Err(e) => Err(e),
        }
    }

    /// Checks that all fields are within their bounds.
    pub fn check(&self) -> (r: ALResult<()>)
        ensures
            r is Ok <==> self.valid(),
            r is Err ==> r == Err::<(), ALError>(ALError::InvalidValue),
    {
        if self.coarse_tuning_a < -24 || 24 < self.coarse_tuning_a {
            return Err(ALError::InvalidValue);
        }
        if self.coarse_tuning_b < -24 || 24 < self.coarse_tuning_b {
            return Err(ALError::InvalidValue);
        }
        if self.rate < 0 || 10_000_000 < self.rate {
            return Err(ALError::InvalidValue);
        }
        Ok(())
    }

    /// Setter that checks the field's bounds, leaving the structure
    /// unchanged when they are broken.
    pub fn phoneme_a(&mut self, phoneme_a: ALEfxVocalMorpherPhoneme) -> (r: ALResult<()>)
        ensures
            r is Ok && *final(self) == (ALEfxVocalMorpherProperties { phoneme_a, ..*old(self) }),
    {
        self.phoneme_a = phoneme_a;
        Ok(())
    }

    /// Setter that checks the field's bounds, leaving the structure
    /// unchanged when they are broken.
    pub fn phoneme_b(&mut self, phoneme_b: ALEfxVocalMorpherPhoneme) -> (r: ALResult<()>)
        ensures
            r is Ok && *final(self) == (ALEfxVocalMorpherProperties { phoneme_b, ..*old(self) }),
    {
        self.phoneme_b = phoneme_b;
        Ok(())
    }

    /// Semitones [-24, 24]
    ///
    /// Setter that checks the field's bounds, leaving the structure
    /// unchanged when they are broken.
    pub fn coarse_tuning_a(&mut self, coarse_tuning_a: i8) -> (r: ALResult<()>)
        ensures
            -24 <= coarse_tuning_a <= 24 ==> r is Ok && *final(self) == (ALEfxVocalMorpherProperties { coarse_tuning_a, ..*old(self) }),
            !(-24 <= coarse_tuning_a <= 24) ==> r == Err::<(), ALError>(ALError::InvalidValue) && *final(self) == *old(self),
    {
        if coarse_tuning_a < -24 || 24 < coarse_tuning_a {
            return Err(ALError::InvalidValue);
        }
        self.coarse_tuning_a = coarse_tuning_a;
        Ok(())
    }

    /// Semitones [-24, 24]
    ///
    /// Setter that checks the field's bounds, leaving the structure
    /// unchanged when they are broken.
    pub fn coarse_tuning_b(&mut self, coarse_tuning_b: i8) -> (r: ALResult<()>)
        ensures
            -24 <= coarse_tuning_b <= 24 ==> r is Ok && *final(self) == (ALEfxVocalMorpherProperties { coarse_tuning_b, ..*old(self) }),
            !(-24 <= coarse_tuning_b <= 24) ==> r == Err::<(), ALError>(ALError::InvalidValue) && *final(self) == *old(self),
    {
        if coarse_tuning_b < -24 || 24 < coarse_tuning_b {
            return Err(ALError::InvalidValue);
        }
        self.coarse_tuning_b = coarse_tuning_b;
        Ok(())
    }

    /// Setter that checks the field's bounds, leaving the structure
    /// unchanged when they are broken.
    pub fn waveform(&mut self, waveform: ALEfxVocalMorpherWaveform) -> (r: ALResult<()>)
        ensures
            r is Ok && *final(self) == (ALEfxVocalMorpherProperties { waveform, ..*old(self) }),
    {
        self.waveform = waveform;
        Ok(())
    }

    /// Hertz [0.0, 10.0]
    ///
    /// Setter that checks the field's bounds, leaving the structure
    /// unchanged when they are broken.
    pub fn rate(&mut self, rate: ALMicro) -> (r: ALResult<()>)
        ensures
            0 <= rate <= 10_000_000 ==> r is Ok && *final(self) == (ALEfxVocalMorpherProperties { rate, ..*old(self) }),
            !(0 <= rate <= 10_000_000) ==> r == Err::<(), ALError>(ALError::InvalidValue) && *final(self) == *old(self),
    {
        if rate < 0 || 10_000_000 < rate {
            return Err(ALError::InvalidValue);
        }
        self.rate = rate;
        Ok(())
    }

}

impl Default for ALEfxVocalMorpherProperties {
    fn default() -> (r: Self)
        ensures
            r == Self::spec_default(),
    {
        ALEfxVocalMorpherProperties {
            phoneme_a: ALEfxVocalMorpherPhoneme::A,
            phoneme_b: ALEfxVocalMorpherPhoneme::A,
            coarse_tuning_a: 0,
            coarse_tuning_b: 0,
            waveform: ALEfxVocalMorpherWaveform::Sinusoid,
            rate: 1_410_000,
        }
    }
}

/// The default Vocal Morpher effect configuration is within bounds.
pub proof fn lemma_vocal_morpher_default_valid()
    ensures
        ALEfxVocalMorpherProperties::spec_default().valid(),
{
}

/// Properties used for the Pitch Shifter effect
#[derive(Debug, Copy, Clone, PartialEq, Eq, Structural)]
pub struct ALEfxPitchShifterProperties {
    /// Semitones [-12, 12]
    pub coarse_tune: i8,
    /// Cents [-50, 50]
    pub fine_tune: i8,
}

impl ALEfxPitchShifterProperties {
    /// Every field within its documented bounds.
    pub open spec fn valid(self) -> bool {
        &&& -12 <= self.coarse_tune <= 12
        &&& -50 <= self.fine_tune <= 50
    }

    /// The default configuration of this effect.
    pub open spec fn spec_default() -> Self {
        ALEfxPitchShifterProperties {
            coarse_tune: 0,
            fine_tune: 0,
        }
    }

    /// Create a new structure from individual fields without checking
    /// bounds.
    pub fn new(coarse_tune: i8, fine_tune: i8) -> (r: Self)
        ensures
            r == (ALEfxPitchShifterProperties { coarse_tune, fine_tune }),
    {
        ALEfxPitchShifterProperties { coarse_tune, fine_tune }
    }

    /// Checks bounds for all fields when creating the structure.
    pub fn new_checked(coarse_tune: i8, fine_tune: i8) -> (r: ALResult<Self>)
        ensures
            (ALEfxPitchShifterProperties { coarse_tune, fine_tune }).valid() ==> r == Ok::<Self, ALError>(ALEfxPitchShifterProperties { coarse_tune, fine_tune }),
            !(ALEfxPitchShifterProperties { coarse_tune, fine_tune }).valid() ==> r == Err::<Self, ALError>(ALError::InvalidValue),
    {
        let r = ALEfxPitchShifterProperties { coarse_tune, fine_tune };
        match r.check() {
            Ok(_) => Ok(r),
            Err(e) => Err(e),
        }
    }

    /// Checks that all fields are within their bounds.
    pub fn check(&self) -> (r: ALResult<()>)
        ensures
            r is Ok <==> self.valid(),
            r is Err ==> r == Err::<(), ALError>(ALError::InvalidValue),
    {
        if self.coarse_tune < -12 || 12 < self.coarse_tune {
            return Err(ALError::InvalidValue);
        }
        if self.fine_tune < -50 || 50 < self.fine_tune {
            return Err(ALError::InvalidValue);
        }
        Ok(())
    }

    /// Semitones [-12, 12]
    ///
    /// Setter that checks the field's bounds, leaving the structure
    /// unchanged when they are broken.
    pub fn coarse_tune(&mut self, coarse_tune: i8) -> (r: ALResult<()>)
        ensures
            -12 <= coarse_tune <= 12 ==> r is Ok && *final(self) == (ALEfxPitchShifterProperties { coarse_tune, ..*old(self) }),
            !(-12 <= coarse_tune <= 12) ==> r == Err::<(), ALError>(ALError::InvalidValue) && *final(self) == *old(self),
    {
        if coarse_tune < -12 || 12 < coarse_tune {
            return Err(ALError::InvalidValue);
        }
        self.coarse_tune = coarse_tune;
        Ok(())
    }

    /// Cents [-50, 50]
    ///
    /// Setter that checks the field's bounds, leaving the structure
    /// unchanged when they are broken.
    pub fn fine_tune(&mut self, fine_tune: i8) -> (r: ALResult<()>)
        ensures
            -50 <= fine_tune <= 50 ==> r is Ok && *final(self) == (ALEfxPitchShifterProperties { fine_tune, ..*old(self) }),
            !(-50 <= fine_tune <= 50) ==> r == Err::<(), ALError>(ALError::InvalidValue) && *final(self) == *old(self),
    {
        if fine_tune < -50 || 50 < fine_tune {
            return Err(ALError::InvalidValue);
        }
        self.fine_tune = fine_tune;
        Ok(())
    }

}

impl Default for ALEfxPitchShifterProperties {
    fn default() -> (r: Self)
        ensures
            r == Self::spec_default(),
    {
        ALEfxPitchShifterProperties {
            coarse_tune: 0,
            fine_tune: 0,
        }
    }
}

/// The default Pitch Shifter effect configuration is within bounds.
pub proof fn lemma_pitch_shifter_default_valid()
    ensures
        ALEfxPitchShifterProperties::spec_default().valid(),
{
}

/// Properties used for the Ring Modulator effect
#[derive(Debug, Copy, Clone, PartialEq, Eq, Structural)]
pub struct ALEfxRingModulatorProperties {
    /// Hertz [0.0, 8,000.0]
    pub frequency: ALMicro,
    /// Hertz [0.0, 24,000.0]
    pub highpass_cutoff: ALMicro,
    pub waveform: ALEfxRingModulatorWaveform,
}

impl ALEfxRingModulatorProperties {
    /// Every field within its documented bounds.
    pub open spec fn valid(self) -> bool {
        &&& 0 <= self.frequency <= 8_000_000_000
        &&& 0 <= self.highpass_cutoff <= 24_000_000_000
    }

    /// The default configuration of this effect.
    pub open spec fn spec_default() -> Self {
        ALEfxRingModulatorProperties {
            frequency: 440_000_000,
            highpass_cutoff: 800_000_000,
            waveform: ALEfxRingModulatorWaveform::Sinusoid,
        }
    }

    /// Create a new structure from individual fields without checking
    /// bounds.
    pub fn new(frequency: ALMicro, highpass_cutoff: ALMicro, waveform: ALEfxRingModulatorWaveform) -> (r: Self)
        ensures
            r == (ALEfxRingModulatorProperties { frequency, highpass_cutoff, waveform }),
    {
        ALEfxRingModulatorProperties { frequency, highpass_cutoff, waveform }
    }

    /// Checks bounds for all fields when creating the structure.
    pub fn new_checked(frequency: ALMicro, highpass_cutoff: ALMicro, waveform: ALEfxRingModulatorWaveform) -> (r: ALResult<Self>)
        ensures
            (ALEfxRingModulatorProperties { frequency, highpass_cutoff, waveform }).valid() ==> r == Ok::<Self, ALError>(ALEfxRingModulatorProperties { frequency, highpass_cutoff, waveform }),
            !(ALEfxRingModulatorProperties { frequency, highpass_cutoff, waveform }).valid() ==> r == Err::<Self, ALError>(ALError::InvalidValue),
    {
        let r = ALEfxRingModulatorProperties { frequency, highpass_cutoff, waveform };
        match r.check() {
            Ok(_) => Ok(r),
            Err(e) => Err(e),
        }
    }

    /// Checks that all fields are within their bounds.
    pub fn check(&self) -> (r: ALResult<()>)
        ensures
            r is Ok <==> self.valid(),
            r is Err ==> r == Err::<(), ALError>(ALError::InvalidValue),
    {
        if self.frequency < 0 || 8_000_000_000 < self.frequency {
            return Err(ALError::InvalidValue);
        }
        if self.highpass_cutoff < 0 || 24_000_000_000 < self.highpass_cutoff {
            return Err(ALError::InvalidValue);
        }
        Ok(())
    }

    /// Hertz [0.0, 8,000.0]
    ///
    /// Setter that checks the field's bounds, leaving the structure
    /// unchanged when they are broken.
    pub fn frequency(&mut self, frequency: ALMicro) -> (r: ALResult<()>)
        ensures
            0 <= frequency <= 8_000_000_000 ==> r is Ok && *final(self) == (ALEfxRingModulatorProperties { frequency, ..*old(self) }),
            !(0 <= frequency <= 8_000_000_000) ==> r == Err::<(), ALError>(ALError::InvalidValue) && *final(self) == *old(self),
    {
        if frequency < 0 || 8_000_000_000 < frequency {
            return Err(ALError::InvalidValue);
        }
        self.frequency = frequency;
        Ok(())
    }

    /// Hertz [0.0, 24,000.0]
    ///
    /// Setter that checks the field's bounds, leaving the structure
    /// unchanged when they are broken.
    pub fn highpass_cutoff(&mut self, highpass_cutoff: ALMicro) -> (r: ALResult<()>)
        ensures
            0 <= highpass_cutoff <= 24_000_000_000 ==> r is Ok && *final(self) == (ALEfxRingModulatorProperties { highpass_cutoff, ..*old(self) }),
            !(0 <= highpass_cutoff <= 24_000_000_000) ==> r == Err::<(), ALError>(ALError::InvalidValue) && *final(self) == *old(self),
    {
        if highpass_cutoff < 0 || 24_000_000_000 < highpass_cutoff {
            return Err(ALError::InvalidValue);
        }
        self.highpass_cutoff = highpass_cutoff;
        Ok(())
    }

    /// Setter that checks the field's bounds, leaving the structure
    /// unchanged when they are broken.
    pub fn waveform(&mut self, waveform: ALEfxRingModulatorWaveform) -> (r: ALResult<()>)
        ensures
            r is Ok && *final(self) == (ALEfxRingModulatorProperties { waveform, ..*old(self) }),
    {
        self.waveform = waveform;
        Ok(())
    }

}

impl Default for ALEfxRingModulatorProperties {
    fn default() -> (r: Self)
        ensures
            r == Self::spec_default(),
    {
        ALEfxRingModulatorProperties {
            frequency: 440_000_000,
            highpass_cutoff: 800_000_000,
            waveform: ALEfxRingModulatorWaveform::Sinusoid,
        }
    }
}

/// The default Ring Modulator effect configuration is within bounds.
pub proof fn lemma_ring_modulator_default_valid()
    ensures
        ALEfxRingModulatorProperties::spec_default().valid(),
{
}

/// Properties used for the Autowah effect
#[derive(Debug, Copy, Clone, PartialEq, Eq, Structural)]
pub struct ALEfxAutowahProperties {
    /// Seconds [0.0001, 1.0]
    pub attack_time: ALMicro,
    /// Seconds [0.0001, 1.0]
    pub release_time: ALMicro,
    /// [2.0, 1000.0]
    pub resonance: ALMicro,
    /// [0.00003, 31621.0]
    pub peak_gain: ALMicro,
}

impl ALEfxAutowahProperties {
    /// Every field within its documented bounds.
    pub open spec fn valid(self) -> bool {
        &&& 100 <= self.attack_time <= 1_000_000
        &&& 100 <= self.release_time <= 1_000_000
        &&& 2_000_000 <= self.resonance <= 1_000_000_000
        &&& 30 <= self.peak_gain <= 31_621_000_000
    }

    /// The default configuration of this effect.
    pub open spec fn spec_default() -> Self {
        ALEfxAutowahProperties {
            attack_time: 60_000,
            release_time: 60_000,
            resonance: 1_000_000_000,
            peak_gain: 11_220_000,
        }
    }

    /// Create a new structure from individual fields without checking
    /// bounds.
    pub fn new(attack_time: ALMicro, release_time: ALMicro, resonance: ALMicro, peak_gain: ALMicro) -> (r: Self)
        ensures
            r == (ALEfxAutowahProperties { attack_time, release_time, resonance, peak_gain }),
    {
        ALEfxAutowahProperties { attack_time, release_time, resonance, peak_gain }
    }

    /// Checks bounds for all fields when creating the structure.
    pub fn new_checked(attack_time: ALMicro, release_time: ALMicro, resonance: ALMicro, peak_gain: ALMicro) -> (r: ALResult<Self>)
        ensures
            (ALEfxAutowahProperties { attack_time, release_time, resonance, peak_gain }).valid() ==> r == Ok::<Self, ALError>(ALEfxAutowahProperties { attack_time, release_time, resonance, peak_gain }),
            !(ALEfxAutowahProperties { attack_time, release_time, resonance, peak_gain }).valid() ==> r == Err::<Self, ALError>(ALError::InvalidValue),
    {
        let r = ALEfxAutowahProperties { attack_time, release_time, resonance, peak_gain };
        match r.check() {
            Ok(_) => Ok(r),
            Err(e) => Err(e),
        }
    }

    /// Checks that all fields are within their bounds.
    pub fn check(&self) -> (r: ALResult<()>)
        ensures
            r is Ok <==> self.valid(),
            r is Err ==> r == Err::<(), ALError>(ALError::InvalidValue),
    {
        if self.attack_time < 100 || 1_000_000 < self.attack_time {
            return Err(ALError::InvalidValue);
        }
        if self.release_time < 100 || 1_000_000 < self.release_time {
            return Err(ALError::InvalidValue);
        }
        if self.resonance < 2_000_000 || 1_000_000_000 < self.resonance {
            return Err(ALError::InvalidValue);
        }
        if self.peak_gain < 30 || 31_621_000_000 < self.peak_gain {
            return Err(ALError::InvalidValue);
        }
        Ok(())
    }

    /// Seconds [0.0001, 1.0]
    ///
    /// Setter that checks the field's bounds, leaving the structure
    /// unchanged when they are broken.
    pub fn attack_time(&mut self, attack_time: ALMicro) -> (r: ALResult<()>)
        ensures
            100 <= attack_time <= 1_000_000 ==> r is Ok && *final(self) == (ALEfxAutowahProperties { attack_time, ..*old(self) }),
            !(100 <= attack_time <= 1_000_000) ==> r == Err::<(), ALError>(ALError::InvalidValue) && *final(self) == *old(self),
    {
        if attack_time < 100 || 1_000_000 < attack_time {
            return Err(ALError::InvalidValue);
        }
        self.attack_time = attack_time;
        Ok(())
    }

    /// Seconds [0.0001, 1.0]
    ///
    /// Setter that checks the field's bounds, leaving the structure
    /// unchanged when they are broken.
    pub fn release_time(&mut self, release_time: ALMicro) -> (r: ALResult<()>)
        ensures
            100 <= release_time <= 1_000_000 ==> r is Ok && *final(self) == (ALEfxAutowahProperties { release_time, ..*old(self) }),
            !(100 <= release_time <= 1_000_000) ==> r == Err::<(), ALError>(ALError::InvalidValue) && *final(self) == *old(self),
    {
        if release_time < 100 || 1_000_000 < release_time {
            return Err(ALError::InvalidValue);
        }
        self.release_time = release_time;
        Ok(())
    }

    /// [2.0, 1000.0]
    ///
    /// Setter that checks the field's bounds, leaving the structure
    /// unchanged when they are broken.
    pub fn resonance(&mut self, resonance: ALMicro) -> (r: ALResult<()>)
        ensures
            2_000_000 <= resonance <= 1_000_000_000 ==> r is Ok && *final(self) == (ALEfxAutowahProperties { resonance, ..*old(self) }),
            !(2_000_000 <= resonance <= 1_000_000_000) ==> r == Err::<(), ALError>(ALError::InvalidValue) && *final(self) == *old(self),
    {
        if resonance < 2_000_000 || 1_000_000_000 < resonance {
            return Err(ALError::InvalidValue);
        }
        self.resonance = resonance;
        Ok(())
    }

    /// [0.00003, 31621.0]
    ///
    /// Setter that checks the field's bounds, leaving the structure
    /// unchanged when they are broken.
    pub fn peak_gain(&mut self, peak_gain: ALMicro) -> (r: ALResult<()>)
        ensures
            30 <= peak_gain <= 31_621_000_000 ==> r is Ok && *final(self) == (ALEfxAutowahProperties { peak_gain, ..*old(self) }),
            !(30 <= peak_gain <= 31_621_000_000) ==> r == Err::<(), ALError>(ALError::InvalidValue) && *final(self) == *old(self),
    {
        if peak_gain < 30 || 31_621_000_000 < peak_gain {
            return Err(ALError::InvalidValue);
        }
        self.peak_gain = peak_gain;
        Ok(())
    }

}

impl Default for ALEfxAutowahProperties {
    fn default() -> (r: Self)
        ensures
            r == Self::spec_default(),
    {
        ALEfxAutowahProperties {
            attack_time: 60_000,
            release_time: 60_000,
            resonance: 1_000_000_000,
            peak_gain: 11_220_000,
        }
    }
}

/// The default Autowah effect configuration is within bounds.
pub proof fn lemma_autowah_default_valid()
    ensures
        ALEfxAutowahProperties::spec_default().valid(),
{
}

/// Properties used for the Compressor effect
#[derive(Debug, Copy, Clone, PartialEq, Eq, Structural)]
pub struct ALEfxCompressorProperties {
    pub enabled: bool,
}

impl ALEfxCompressorProperties {
    /// Every field within its documented bounds.
    pub open spec fn valid(self) -> bool {
        true
    }

    /// The default configuration of this effect.
    pub open spec fn spec_default() -> Self {
        ALEfxCompressorProperties {
            enabled: true,
        }
    }

    /// Create a new structure from individual fields without checking
    /// bounds.
    pub fn new(enabled: bool) -> (r: Self)
        ensures
            r == (ALEfxCompressorProperties { enabled }),
    {
        ALEfxCompressorProperties { enabled }
    }

    /// Checks bounds for all fields when creating the structure.
    pub fn new_checked(enabled: bool) -> (r: ALResult<Self>)
        ensures
            (ALEfxCompressorProperties { enabled }).valid() ==> r == Ok::<Self, ALError>(ALEfxCompressorProperties { enabled }),
            !(ALEfxCompressorProperties { enabled }).valid() ==> r == Err::<Self, ALError>(ALError::InvalidValue),
    {
        let r = ALEfxCompressorProperties { enabled };
        match r.check() {
            Ok(_) => Ok(r),
            Err(e) => Err(e),
        }
    }

    /// Checks that all fields are within their bounds.
    pub fn check(&self) -> (r: ALResult<()>)
        ensures
            r is Ok <==> self.valid(),
            r is Err ==> r == Err::<(), ALError>(ALError::InvalidValue),
    {
        Ok(())
    }

    /// Setter that checks the field's bounds, leaving the structure
    /// unchanged when they are broken.
    pub fn enabled(&mut self, enabled: bool) -> (r: ALResult<()>)
        ensures
            r is Ok && *final(self) == (ALEfxCompressorProperties { enabled, ..*old(self) }),
    {
        self.enabled = enabled;
        Ok(())
    }

}

impl Default for ALEfxCompressorProperties {
    fn default() -> (r: Self)
        ensures
            r == Self::spec_default(),
    {
        ALEfxCompressorProperties {
            enabled: true,
        }
    }
}

/// The default Compressor effect configuration is within bounds.
pub proof fn lemma_compressor_default_valid()
    ensures
        ALEfxCompressorProperties::spec_default().valid(),
{
}

/// Properties used for the Equalizer effect
#[derive(Debug, Copy, Clone, PartialEq, Eq, Structural)]
pub struct ALEfxEqualizerProperties {
    /// [0.126, 7.943]
    pub low_gain: ALMicro,
    /// Hertz [50.0, 800.0]
    pub low_cutoff: ALMicro,
    /// [0.126, 7.943]
    pub mid1_gain: ALMicro,
    /// Hertz [200.0, 3000.0]
    pub mid1_center: ALMicro,
    /// [0.126, 7.943]
    pub mid2_gain: ALMicro,
    /// Hertz [1000.0, 8000.0]
    pub mid2_center: ALMicro,
    /// [0.126, 7.943]
    pub high_gain: ALMicro,
    /// Hertz [4000.0, 16,000.0]
    pub high_cutoff: ALMicro,
}

impl ALEfxEqualizerProperties {
    /// Every field within its documented bounds.
    pub open spec fn valid(self) -> bool {
        &&& 126_000 <= self.low_gain <= 7_943_000
        &&& 50_000_000 <= self.low_cutoff <= 800_000_000
        &&& 126_000 <= self.mid1_gain <= 7_943_000
        &&& 200_000_000 <= self.mid1_center <= 3_000_000_000
        &&& 126_000 <= self.mid2_gain <= 7_943_000
        &&& 1_000_000_000 <= self.mid2_center <= 8_000_000_000
        &&& 126_000 <= self.high_gain <= 7_943_000
        &&& 4_000_000_000 <= self.high_cutoff <= 16_000_000_000
    }

    /// The default configuration of this effect.
    pub open spec fn spec_default() -> Self {
        ALEfxEqualizerProperties {
            low_gain: 1_000_000,
            low_cutoff: 200_000_000,
            mid1_gain: 1_000_000,
            mid1_center: 500_000_000,
            mid2_gain: 1_000_000,
            mid2_center: 3_000_000_000,
            high_gain: 1_000_000,
            high_cutoff: 6_000_000_000,
        }
    }

    /// Create a new structure from individual fields without checking
    /// bounds.
    pub fn new(low_gain: ALMicro, low_cutoff: ALMicro, mid1_gain: ALMicro, mid1_center: ALMicro, mid2_gain: ALMicro, mid2_center: ALMicro, high_gain: ALMicro, high_cutoff: ALMicro) -> (r: Self)
        ensures
            r == (ALEfxEqualizerProperties { low_gain, low_cutoff, mid1_gain, mid1_center, mid2_gain, mid2_center, high_gain, high_cutoff }),
    {
        ALEfxEqualizerProperties { low_gain, low_cutoff, mid1_gain, mid1_center, mid2_gain, mid2_center, high_gain, high_cutoff }
    }

    /// Checks bounds for all fields when creating the structure.
    pub fn new_checked(low_gain: ALMicro, low_cutoff: ALMicro, mid1_gain: ALMicro, mid1_center: ALMicro, mid2_gain: ALMicro, mid2_center: ALMicro, high_gain: ALMicro, high_cutoff: ALMicro) -> (r: ALResult<Self>)
        ensures
            (ALEfxEqualizerProperties { low_gain, low_cutoff, mid1_gain, mid1_center, mid2_gain, mid2_center, high_gain, high_cutoff }).valid() ==> r == Ok::<Self, ALError>(ALEfxEqualizerProperties { low_gain, low_cutoff, mid1_gain, mid1_center, mid2_gain, mid2_center, high_gain, high_cutoff }),
            !(ALEfxEqualizerProperties { low_gain, low_cutoff, mid1_gain, mid1_center, mid2_gain, mid2_center, high_gain, high_cutoff }).valid() ==> r == Err::<Self, ALError>(ALError::InvalidValue),
    {
        let r = ALEfxEqualizerProperties { low_gain, low_cutoff, mid1_gain, mid1_center, mid2_gain, mid2_center, high_gain, high_cutoff };
        match r.check() {
            Ok(_) => Ok(r),
            Err(e) => Err(e),
        }
    }

    /// Checks that all fields are within their bounds.
    pub fn check(&self) -> (r: ALResult<()>)
        ensures
            r is Ok <==> self.valid(),
            r is Err ==> r == Err::<(), ALError>(ALError::InvalidValue),
    {
        if self.low_gain < 126_000 || 7_943_000 < self.low_gain {
            return Err(ALError::InvalidValue);
        }
        if self.low_cutoff < 50_000_000 || 800_000_000 < self.low_cutoff {
            return Err(ALError::InvalidValue);
        }
        if self.mid1_gain < 126_000 || 7_943_000 < self.mid1_gain {
            return Err(ALError::InvalidValue);
        }
        if self.mid1_center < 200_000_000 || 3_000_000_000 < self.mid1_center {
            return Err(ALError::InvalidValue);
        }
        if self.mid2_gain < 126_000 || 7_943_000 < self.mid2_gain {
            return Err(ALError::InvalidValue);
        }
        if self.mid2_center < 1_000_000_000 || 8_000_000_000 < self.mid2_center {
            return Err(ALError::InvalidValue);
        }
        if self.high_gain < 126_000 || 7_943_000 < self.high_gain {
            return Err(ALError::InvalidValue);
        }
        if self.high_cutoff < 4_000_000_000 || 16_000_000_000 < self.high_cutoff {
            return Err(ALError::InvalidValue);
        }
        Ok(())
    }

    /// [0.126, 7.943]
    ///
    /// Setter that checks the field's bounds, leaving the structure
    /// unchanged when they are broken.
    pub fn low_gain(&mut self, low_gain: ALMicro) -> (r: ALResult<()>)
        ensures
            126_000 <= low_gain <= 7_943_000 ==> r is Ok && *final(self) == (ALEfxEqualizerProperties { low_gain, ..*old(self) }),
            !(126_000 <= low_gain <= 7_943_000) ==> r == Err::<(), ALError>(ALError::InvalidValue) && *final(self) == *old(self),
    {
        if low_gain < 126_000 || 7_943_000 < low_gain {
            return Err(ALError::InvalidValue);
        }
        self.low_gain = low_gain;
        Ok(())
    }

    /// Hertz [50.0, 800.0]
    ///
    /// Setter that checks the field's bounds, leaving the structure
    /// unchanged when they are broken.
    pub fn low_cutoff(&mut self, low_cutoff: ALMicro) -> (r: ALResult<()>)
        ensures
            50_000_000 <= low_cutoff <= 800_000_000 ==> r is Ok && *final(self) == (ALEfxEqualizerProperties { low_cutoff, ..*old(self) }),
            !(50_000_000 <= low_cutoff <= 800_000_000) ==> r == Err::<(), ALError>(ALError::InvalidValue) && *final(self) == *old(self),
    {
        if low_cutoff < 50_000_000 || 800_000_000 < low_cutoff {
            return Err(ALError::InvalidValue);
        }
        self.low_cutoff = low_cutoff;
        Ok(())
    }

    /// [0.126, 7.943]
    ///
    /// Setter that checks the field's bounds, leaving the structure
    /// unchanged when they are broken.
    pub fn mid1_gain(&mut self, mid1_gain: ALMicro) -> (r: ALResult<()>)
        ensures
            126_000 <= mid1_gain <= 7_943_000 ==> r is Ok && *final(self) == (ALEfxEqualizerProperties { mid1_gain, ..*old(self) }),
            !(126_000 <= mid1_gain <= 7_943_000) ==> r == Err::<(), ALError>(ALError::InvalidValue) && *final(self) == *old(self),
    {
        if mid1_gain < 126_000 || 7_943_000 < mid1_gain {
            return Err(ALError::InvalidValue);
        }
        self.mid1_gain = mid1_gain;
        Ok(())
    }

    /// Hertz [200.0, 3000.0]
    ///
    /// Setter that checks the field's bounds, leaving the structure
    /// unchanged when they are broken.
    pub fn mid1_center(&mut self, mid1_center: ALMicro) -> (r: ALResult<()>)
        ensures
            200_000_000 <= mid1_center <= 3_000_000_000 ==> r is Ok && *final(self) == (ALEfxEqualizerProperties { mid1_center, ..*old(self) }),
            !(200_000_000 <= mid1_center <= 3_000_000_000) ==> r == Err::<(), ALError>(ALError::InvalidValue) && *final(self) == *old(self),
    {
        if mid1_center < 200_000_000 || 3_000_000_000 < mid1_center {
            return Err(ALError::InvalidValue);
        }
        self.mid1_center = mid1_center;
        Ok(())
    }

    /// [0.126, 7.943]
    ///
    /// Setter that checks the field's bounds, leaving the structure
    /// unchanged when they are broken.
    pub fn mid2_gain(&mut self, mid2_gain: ALMicro) -> (r: ALResult<()>)
        ensures
            126_000 <= mid2_gain <= 7_943_000 ==> r is Ok && *final(self) == (ALEfxEqualizerProperties { mid2_gain, ..*old(self) }),
            !(126_000 <= mid2_gain <= 7_943_000) ==> r == Err::<(), ALError>(ALError::InvalidValue) && *final(self) == *old(self),
    {
        if mid2_gain < 126_000 || 7_943_000 < mid2_gain {
            return Err(ALError::InvalidValue);
        }
        self.mid2_gain = mid2_gain;
        Ok(())
    }

    /// Hertz [1000.0, 8000.0]
    ///
    /// Setter that checks the field's bounds, leaving the structure
    /// unchanged when they are broken.
    pub fn mid2_center(&mut self, mid2_center: ALMicro) -> (r: ALResult<()>)
        ensures
            1_000_000_000 <= mid2_center <= 8_000_000_000 ==> r is Ok && *final(self) == (ALEfxEqualizerProperties { mid2_center, ..*old(self) }),
            !(1_000_000_000 <= mid2_center <= 8_000_000_000) ==> r == Err::<(), ALError>(ALError::InvalidValue) && *final(self) == *old(self),
    {
        if mid2_center < 1_000_000_000 || 8_000_000_000 < mid2_center {
            return Err(ALError::InvalidValue);
        }
        self.mid2_center = mid2_center;
        Ok(())
    }

    /// [0.126, 7.943]
    ///
    /// Setter that checks the field's bounds, leaving the structure
    /// unchanged when they are broken.
    pub fn high_gain(&mut self, high_gain: ALMicro) -> (r: ALResult<()>)
        ensures
            126_000 <= high_gain <= 7_943_000 ==> r is Ok && *final(self) == (ALEfxEqualizerProperties { high_gain, ..*old(self) }),
            !(126_000 <= high_gain <= 7_943_000) ==> r == Err::<(), ALError>(ALError::InvalidValue) && *final(self) == *old(self),
    {
        if high_gain < 126_000 || 7_943_000 < high_gain {
            return Err(ALError::InvalidValue);
        }
        self.high_gain = high_gain;
        Ok(())
    }

    /// Hertz [4000.0, 16,000.0]
    ///
    /// Setter that checks the field's bounds, leaving the structure
    /// unchanged when they are broken.
    pub fn high_cutoff(&mut self, high_cutoff: ALMicro) -> (r: ALResult<()>)
        ensures
            4_000_000_000 <= high_cutoff <= 16_000_000_000 ==> r is Ok && *final(self) == (ALEfxEqualizerProperties { high_cutoff, ..*old(self) }),
            !(4_000_000_000 <= high_cutoff <= 16_000_000_000) ==> r == Err::<(), ALError>(ALError::InvalidValue) && *final(self) == *old(self),
    {
        if high_cutoff < 4_000_000_000 || 16_000_000_000 < high_cutoff {
            return Err(ALError::InvalidValue);
        }
        self.high_cutoff = high_cutoff;
        Ok(())
    }

}

impl Default for ALEfxEqualizerProperties {
    fn default() -> (r: Self)
        ensures
            r == Self::spec_default(),
    {
        ALEfxEqualizerProperties {
            low_gain: 1_000_000,
            low_cutoff: 200_000_000,
            mid1_gain: 1_000_000,
            mid1_center: 500_000_000,
            mid2_gain: 1_000_000,
            mid2_center: 3_000_000_000,
            high_gain: 1_000_000,
            high_cutoff: 6_000_000_000,
        }
    }
}

/// The default Equalizer effect configuration is within bounds.
pub proof fn lemma_equalizer_default_valid()
    ensures
        ALEfxEqualizerProperties::spec_default().valid(),
{
}

/// Properties used for the Lowpass filter effect
#[derive(Debug, Copy, Clone, PartialEq, Eq, Structural)]
pub struct ALEfxLowpassFilterProperties {
    /// [0.0, 1.0]
    pub gain: ALMicro,
    /// [0.0, 1.0]
    pub gainhf: ALMicro,
}

impl ALEfxLowpassFilterProperties {
    /// Every field within its documented bounds.
    pub open spec fn valid(self) -> bool {
        &&& 0 <= self.gain <= 1_000_000
        &&& 0 <= self.gainhf <= 1_000_000
    }

    /// The default configuration of this effect.
    pub open spec fn spec_default() -> Self {
        ALEfxLowpassFilterProperties {
            gain: 1_000_000,
            gainhf: 1_000_000,
        }
    }

    /// Create a new structure from individual fields without checking
    /// bounds.
    pub fn new(gain: ALMicro, gainhf: ALMicro) -> (r: Self)
        ensures
            r == (ALEfxLowpassFilterProperties { gain, gainhf }),
    {
        ALEfxLowpassFilterProperties { gain, gainhf }
    }

    /// Checks bounds for all fields when creating the structure.
    pub fn new_checked(gain: ALMicro, gainhf: ALMicro) -> (r: ALResult<Self>)
        ensures
            (ALEfxLowpassFilterProperties { gain, gainhf }).valid() ==> r == Ok::<Self, ALError>(ALEfxLowpassFilterProperties { gain, gainhf }),
            !(ALEfxLowpassFilterProperties { gain, gainhf }).valid() ==> r == Err::<Self, ALError>(ALError::InvalidValue),
    {
        let r = ALEfxLowpassFilterProperties { gain, gainhf };
        match r.check() {
            Ok(_) => Ok(r),
            Err(e) => Err(e),
        }
    }

    /// Checks that all fields are within their bounds.
    pub fn check(&self) -> (r: ALResult<()>)
        ensures
            r is Ok <==> self.valid(),
            r is Err ==> r == Err::<(), ALError>(ALError::InvalidValue),
    {
        if self.gain < 0 || 1_000_000 < self.gain {
            return Err(ALError::InvalidValue);
        }
        if self.gainhf < 0 || 1_000_000 < self.gainhf {
            return Err(ALError::InvalidValue);
        }
        Ok(())
    }

    /// [0.0, 1.0]
    ///
    /// Setter that checks the field's bounds, leaving the structure
    /// unchanged when they are broken.
    pub fn gain(&mut self, gain: ALMicro) -> (r: ALResult<()>)
        ensures
            0 <= gain <= 1_000_000 ==> r is Ok && *final(self) == (ALEfxLowpassFilterProperties { gain, ..*old(self) }),
            !(0 <= gain <= 1_000_000) ==> r == Err::<(), ALError>(ALError::InvalidValue) && *final(self) == *old(self),
    {
        if gain < 0 || 1_000_000 < gain {
            return Err(ALError::InvalidValue);
        }
        self.gain = gain;
        Ok(())
    }

    /// [0.0, 1.0]
    ///
    /// Setter that checks the field's bounds, leaving the structure
    /// unchanged when they are broken.
    pub fn gainhf(&mut self, gainhf: ALMicro) -> (r: ALResult<()>)
        ensures
            0 <= gainhf <= 1_000_000 ==> r is Ok && *final(self) == (ALEfxLowpassFilterProperties { gainhf, ..*old(self) }),
            !(0 <= gainhf <= 1_000_000) ==> r == Err::<(), ALError>(ALError::InvalidValue) && *final(self) == *old(self),
    {
        if gainhf < 0 || 1_000_000 < gainhf {
            return Err(ALError::InvalidValue);
        }
        self.gainhf = gainhf;
        Ok(())
    }

}

impl Default for ALEfxLowpassFilterProperties {
    fn default() -> (r: Self)
        ensures
            r == Self::spec_default(),
    {
        ALEfxLowpassFilterProperties {
            gain: 1_000_000,
            gainhf: 1_000_000,
        }
    }
}

/// The default Lowpass filter effect configuration is within bounds.
pub proof fn lemma_lowpass_filter_default_valid()
    ensures
        ALEfxLowpassFilterProperties::spec_default().valid(),
{
}

/// Properties used for the Highpass filter effect
#[derive(Debug, Copy, Clone, PartialEq, Eq, Structural)]
pub struct ALEfxHighpassFilterProperties {
    /// [0.0, 1.0]
    pub gain: ALMicro,
    /// [0.0, 1.0]
    pub gainlf: ALMicro,
}

impl ALEfxHighpassFilterProperties {
    /// Every field within its documented bounds.
    pub open spec fn valid(self) -> bool {
        &&& 0 <= self.gain <= 1_000_000
        &&& 0 <= self.gainlf <= 1_000_000
    }

    /// The default configuration of this effect.
    pub open spec fn spec_default() -> Self {
        ALEfxHighpassFilterProperties {
            gain: 1_000_000,
            gainlf: 1_000_000,
        }
    }

    /// Create a new structure from individual fields without checking
    /// bounds.
    pub fn new(gain: ALMicro, gainlf: ALMicro) -> (r: Self)
        ensures
            r == (ALEfxHighpassFilterProperties { gain, gainlf }),
    {
        ALEfxHighpassFilterProperties { gain, gainlf }
    }

    /// Checks bounds for all fields when creating the structure.
    pub fn new_checked(gain: ALMicro, gainlf: ALMicro) -> (r: ALResult<Self>)
        ensures
            (ALEfxHighpassFilterProperties { gain, gainlf }).valid() ==> r == Ok::<Self, ALError>(ALEfxHighpassFilterProperties { gain, gainlf }),
            !(ALEfxHighpassFilterProperties { gain, gainlf }).valid() ==> r == Err::<Self, ALError>(ALError::InvalidValue),
    {
        let r = ALEfxHighpassFilterProperties { gain, gainlf };
        match r.check() {
            Ok(_) => Ok(r),
            Err(e) => Err(e),
        }
    }

    /// Checks that all fields are within their bounds.
    pub fn check(&self) -> (r: ALResult<()>)
        ensures
            r is Ok <==> self.valid(),
            r is Err ==> r == Err::<(), ALError>(ALError::InvalidValue),
    {
        if self.gain < 0 || 1_000_000 < self.gain {
            return Err(ALError::InvalidValue);
        }
        if self.gainlf < 0 || 1_000_000 < self.gainlf {
            return Err(ALError::InvalidValue);
        }
        Ok(())
    }

    /// [0.0, 1.0]
    ///
    /// Setter that checks the field's bounds, leaving the structure
    /// unchanged when they are broken.
    pub fn gain(&mut self, gain: ALMicro) -> (r: ALResult<()>)
        ensures
            0 <= gain <= 1_000_000 ==> r is Ok && *final(self) == (ALEfxHighpassFilterProperties { gain, ..*old(self) }),
            !(0 <= gain <= 1_000_000) ==> r == Err::<(), ALError>(ALError::InvalidValue) && *final(self) == *old(self),
    {
        if gain < 0 || 1_000_000 < gain {
            return Err(ALError::InvalidValue);
        }
        self.gain = gain;
        Ok(())
    }

    /// [0.0, 1.0]
    ///
    /// Setter that checks the field's bounds, leaving the structure
    /// unchanged when they are broken.
    pub fn gainlf(&mut self, gainlf: ALMicro) -> (r: ALResult<()>)
        ensures
            0 <= gainlf <= 1_000_000 ==> r is Ok && *final(self) == (ALEfxHighpassFilterProperties { gainlf, ..*old(self) }),
            !(0 <= gainlf <= 1_000_000) ==> r == Err::<(), ALError>(ALError::InvalidValue) && *final(self) == *old(self),
    {
        if gainlf < 0 || 1_000_000 < gainlf {
            return Err(ALError::InvalidValue);
        }
        self.gainlf = gainlf;
        Ok(())
    }

}

impl Default for ALEfxHighpassFilterProperties {
    fn default() -> (r: Self)
        ensures
            r == Self::spec_default(),
    {
        ALEfxHighpassFilterProperties {
            gain: 1_000_000,
            gainlf: 1_000_000,
        }
    }
}

/// The default Highpass filter effect configuration is within bounds.
pub proof fn lemma_highpass_filter_default_valid()
    ensures
        ALEfxHighpassFilterProperties::spec_default().valid(),
{
}

/// Properties used for the Bandpass filter effect
#[derive(Debug, Copy, Clone, PartialEq, Eq, Structural)]
pub struct ALEfxBandpassFilterProperties {
    /// [0.0, 1.0]
    pub gain: ALMicro,
    /// [0.0, 1.0]
    pub gainlf: ALMicro,
    /// [0.0, 1.0]
    pub gainhf: ALMicro,
}

impl ALEfxBandpassFilterProperties {
    /// Every field within its documented bounds.
    pub open spec fn valid(self) -> bool {
        &&& 0 <= self.gain <= 1_000_000
        &&& 0 <= self.gainlf <= 1_000_000
        &&& 0 <= self.gainhf <= 1_000_000
    }

    /// The default configuration of this effect.
    pub open spec fn spec_default() -> Self {
        ALEfxBandpassFilterProperties {
            gain: 1_000_000,
            gainlf: 1_000_000,
            gainhf: 1_000_000,
        }
    }

    /// Create a new structure from individual fields without checking
    /// bounds.
    pub fn new(gain: ALMicro, gainlf: ALMicro, gainhf: ALMicro) -> (r: Self)
        ensures
            r == (ALEfxBandpassFilterProperties { gain, gainlf, gainhf }),
    {
        ALEfxBandpassFilterProperties { gain, gainlf, gainhf }
    }

    /// Checks bounds for all fields when creating the structure.
    pub fn new_checked(gain: ALMicro, gainlf: ALMicro, gainhf: ALMicro) -> (r: ALResult<Self>)
        ensures
            (ALEfxBandpassFilterProperties { gain, gainlf, gainhf }).valid() ==> r == Ok::<Self, ALError>(ALEfxBandpassFilterProperties { gain, gainlf, gainhf }),
            !(ALEfxBandpassFilterProperties { gain, gainlf, gainhf }).valid() ==> r == Err::<Self, ALError>(ALError::InvalidValue),
    {
        let r = ALEfxBandpassFilterProperties { gain, gainlf, gainhf };
        match r.check() {
            Ok(_) => Ok(r),
            Err(e) => Err(e),
        }
    }

    /// Checks that all fields are within their bounds.
    pub fn check(&self) -> (r: ALResult<()>)
        ensures
            r is Ok <==> self.valid(),
            r is Err ==> r == Err::<(), ALError>(ALError::InvalidValue),
    {
        if self.gain < 0 || 1_000_000 < self.gain {
            return Err(ALError::InvalidValue);
        }
        if self.gainlf < 0 || 1_000_000 < self.gainlf {
            return Err(ALError::InvalidValue);
        }
        if self.gainhf < 0 || 1_000_000 < self.gainhf {
            return Err(ALError::InvalidValue);
        }
        Ok(())
    }

    /// [0.0, 1.0]
    ///
    /// Setter that checks the field's bounds, leaving the structure
    /// unchanged when they are broken.
    pub fn gain(&mut self, gain: ALMicro) -> (r: ALResult<()>)
        ensures
            0 <= gain <= 1_000_000 ==> r is Ok && *final(self) == (ALEfxBandpassFilterProperties { gain, ..*old(self) }),
            !(0 <= gain <= 1_000_000) ==> r == Err::<(), ALError>(ALError::InvalidValue) && *final(self) == *old(self),
    {
        if gain < 0 || 1_000_000 < gain {
            return Err(ALError::InvalidValue);
        }
        self.gain = gain;
        Ok(())
    }

    /// [0.0, 1.0]
    ///
    /// Setter that checks the field's bounds, leaving the structure
    /// unchanged when they are broken.
    pub fn gainlf(&mut self, gainlf: ALMicro) -> (r: ALResult<()>)
        ensures
            0 <= gainlf <= 1_000_000 ==> r is Ok && *final(self) == (ALEfxBandpassFilterProperties { gainlf, ..*old(self) }),
            !(0 <= gainlf <= 1_000_000) ==> r == Err::<(), ALError>(ALError::InvalidValue) && *final(self) == *old(self),
    {
        if gainlf < 0 || 1_000_000 < gainlf {
            return Err(ALError::InvalidValue);
        }
        self.gainlf = gainlf;
        Ok(())
    }

    /// [0.0, 1.0]
    ///
    /// Setter that checks the field's bounds, leaving the structure
    /// unchanged when they are broken.
    pub fn gainhf(&mut self, gainhf: ALMicro) -> (r: ALResult<()>)
        ensures
            0 <= gainhf <= 1_000_000 ==> r is Ok && *final(self) == (ALEfxBandpassFilterProperties { gainhf, ..*old(self) }),
            !(0 <= gainhf <= 1_000_000) ==> r == Err::<(), ALError>(ALError::InvalidValue) && *final(self) == *old(self),
    {
        if gainhf < 0 || 1_000_000 < gainhf {
            return Err(ALError::InvalidValue);
        }
        self.gainhf = gainhf;
        Ok(())
    }

}

impl Default for ALEfxBandpassFilterProperties {
    fn default() -> (r: Self)
        ensures
            r == Self::spec_default(),
    {
        ALEfxBandpassFilterProperties {
            gain: 1_000_000,
            gainlf: 1_000_000,
            gainhf: 1_000_000,
        }
    }
}

/// The default Bandpass filter effect configuration is within bounds.
pub proof fn lemma_bandpass_filter_default_valid()
    ensures
        ALEfxBandpassFilterProperties::spec_default().valid(),
{
}

/// Types of effects supported by the effects extension.
#[derive(Debug, Copy, Clone, PartialEq, Eq, Structural)]
pub enum ALEffectType {
    Null,
    Reverb(ALEfxReverbProperties),
    EAXReverb(ALEfxEAXReverbProperties),
    Chorus(ALEfxChorusProperties),
    Distortion(ALEfxDistortionProperties),
    Echo(ALEfxEchoProperties),
    Flanger(ALEfxFlangerProperties),
    FrequencyShifter(ALEfxFrequencyShifterProperties),
    RingModulator(ALEfxRingModulatorProperties),
    Autowah(ALEfxAutowahProperties),
    Compressor(ALEfxCompressorProperties),
    Equalizer(ALEfxEqualizerProperties),
}

/// Types of filters supported by the effects extension.
#[derive(Debug, Copy, Clone, PartialEq, Eq, Structural)]
pub enum ALFilterType {
    Null,
    Lowpass(ALEfxLowpassFilterProperties),
    Highpass(ALEfxHighpassFilterProperties),
    Bandpass(ALEfxBandpassFilterProperties),
}

/// The EAX Reverb configuration a standard Reverb configuration stands
/// for: the shared parameters carry over, everything EAX-only keeps its
/// default.
pub open spec fn spec_eax_of_reverb(efx: ALEfxReverbProperties) -> ALEfxEAXReverbProperties {
    ALEfxEAXReverbProperties {
        density: efx.density,
        diffusion: efx.diffusion,
        gain: efx.gain,
        gainhf: efx.gainhf,
        decay_time: efx.decay_time,
        decay_hfratio: efx.decay_hfratio,
        reflections_gain: efx.reflections_gain,
        reflections_delay: efx.reflections_delay,
        late_reverb_gain: efx.late_reverb_gain,
        late_reverb_delay: efx.late_reverb_delay,
        air_absorption_gainhf: efx.air_absorption_gainhf,
        room_rolloff_factor: efx.room_rolloff_factor,
        decayhf_limit: efx.decayhf_limit,
        ..ALEfxEAXReverbProperties::spec_default()
    }
}

/// The standard Reverb configuration an EAX Reverb configuration reduces
/// to: the shared parameters carry over, everything EAX-only is dropped.
pub open spec fn spec_reverb_of_eax(efx: ALEfxEAXReverbProperties) -> ALEfxReverbProperties {
    ALEfxReverbProperties {
        density: efx.density,
        diffusion: efx.diffusion,
        gain: efx.gain,
        gainhf: efx.gainhf,
        decay_time: efx.decay_time,
        decay_hfratio: efx.decay_hfratio,
        reflections_gain: efx.reflections_gain,
        reflections_delay: efx.reflections_delay,
        late_reverb_gain: efx.late_reverb_gain,
        late_reverb_delay: efx.late_reverb_delay,
        air_absorption_gainhf: efx.air_absorption_gainhf,
        room_rolloff_factor: efx.room_rolloff_factor,
        decayhf_limit: efx.decayhf_limit,
    }
}

impl From<ALEfxReverbProperties> for ALEfxEAXReverbProperties {
    fn from(efx: ALEfxReverbProperties) -> (r: ALEfxEAXReverbProperties) {
        let mut r = ALEfxEAXReverbProperties::default();
        r.density = efx.density;
        r.diffusion = efx.diffusion;
        r.gain = efx.gain;
        r.gainhf = efx.gainhf;
        r.decay_time = efx.decay_time;
        r.decay_hfratio = efx.decay_hfratio;
        r.reflections_gain = efx.reflections_gain;
        r.reflections_delay = efx.reflections_delay;
        r.late_reverb_gain = efx.late_reverb_gain;
        r.late_reverb_delay = efx.late_reverb_delay;
        r.air_absorption_gainhf = efx.air_absorption_gainhf;
        r.room_rolloff_factor = efx.room_rolloff_factor;
        r.decayhf_limit = efx.decayhf_limit;
        r
    }
}

impl vstd::std_specs::convert::FromSpecImpl<ALEfxReverbProperties> for ALEfxEAXReverbProperties {
    open spec fn obeys_from_spec() -> bool {
        true
    }

    open spec fn from_spec(efx: ALEfxReverbProperties) -> Self {
        spec_eax_of_reverb(efx)
    }
}

impl From<ALEfxEAXReverbProperties> for ALEfxReverbProperties {
    fn from(efx: ALEfxEAXReverbProperties) -> (r: ALEfxReverbProperties) {
        ALEfxReverbProperties {
            density: efx.density,
            diffusion: efx.diffusion,
            gain: efx.gain,
            gainhf: efx.gainhf,
            decay_time: efx.decay_time,
            decay_hfratio: efx.decay_hfratio,
            reflections_gain: efx.reflections_gain,
            reflections_delay: efx.reflections_delay,
            late_reverb_gain: efx.late_reverb_gain,
            late_reverb_delay: efx.late_reverb_delay,
            air_absorption_gainhf: efx.air_absorption_gainhf,
            room_rolloff_factor: efx.room_rolloff_factor,
            decayhf_limit: efx.decayhf_limit,
        }
    }
}

impl vstd::std_specs::convert::FromSpecImpl<ALEfxEAXReverbProperties> for ALEfxReverbProperties {
    open spec fn obeys_from_spec() -> bool {
        true
    }

    open spec fn from_spec(efx: ALEfxEAXReverbProperties) -> Self {
        spec_reverb_of_eax(efx)
    }
}

/// Widening a standard Reverb configuration to EAX Reverb and reducing it
/// again gives back the configuration it started from.
pub proof fn lemma_reverb_eax_roundtrip(efx: ALEfxReverbProperties)
    ensures
        spec_reverb_of_eax(spec_eax_of_reverb(efx)) == efx,
{
}

/// Widening keeps a valid standard Reverb configuration valid: the shared
/// parameters have the same bounds and the EAX-only ones take their
/// (valid) defaults.
pub proof fn lemma_eax_of_reverb_valid(efx: ALEfxReverbProperties)
    requires
        efx.valid(),
    ensures
        spec_eax_of_reverb(efx).valid(),
{
}

/// Reducing keeps a valid EAX Reverb configuration valid.
pub proof fn lemma_reverb_of_eax_valid(efx: ALEfxEAXReverbProperties)
    requires
        efx.valid(),
    ensures
        spec_reverb_of_eax(efx).valid(),
{
}

} // verus!
