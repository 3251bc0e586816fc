//! Noise expressions and the methods that build them.

use vstd::prelude::*;
use crate::scalar::{Scalar, ONE};
use crate::unit::{dependable, perform, product_of, quotient_of, sum_of, Frequency, Operation};

verus! {

/// One operation of a noise expression together with the expressions it works on.
/// Every node owns its children.
#[derive(Debug)]
pub enum NoiseSettings {
    Simplex { seed: i32, frequency: Frequency },
    Perlin { seed: i32, frequency: Frequency },
    Constant { value: Scalar },
    Fbm {
        /// Total number of octaves, at least one.
        octaves: u32,
        /// Multiplier on the amplitude of each successive octave.
        gain: Scalar,
        /// Multiplier on the frequency of each successive octave.
        lacunarity: Scalar,
        /// Amplitude of the first octave, derived so that all amplitudes sum to one.
        scaled_amplitude: Scalar,
        source: Box<NoiseSettings>,
    },
    Abs { source: Box<NoiseSettings> },
    Square { source: Box<NoiseSettings> },
    AddValue { value: Scalar, source: Box<NoiseSettings> },
    MulValue { value: Scalar, source: Box<NoiseSettings> },
    Clamp { min: Scalar, max: Scalar, source: Box<NoiseSettings> },
    Range {
        low: Scalar,
        high: Scalar,
        selector: Box<NoiseSettings>,
        low_noise: Box<NoiseSettings>,
        high_noise: Box<NoiseSettings>,
    },
    Lerp {
        selector: Box<NoiseSettings>,
        low_noise: Box<NoiseSettings>,
        high_noise: Box<NoiseSettings>,
    },
    AddNoise { left: Box<NoiseSettings>, right: Box<NoiseSettings> },
    Mul { left: Box<NoiseSettings>, right: Box<NoiseSettings> },
    Max { left: Box<NoiseSettings>, right: Box<NoiseSettings> },
    Min { left: Box<NoiseSettings>, right: Box<NoiseSettings> },
}

impl NoiseSettings {
    /// Every fractal node of the expression has at least one octave.
    pub open spec fn well_formed(self) -> bool
        decreases self,
    {
        match self {
            NoiseSettings::Simplex { .. } => true,
            NoiseSettings::Perlin { .. } => true,
            NoiseSettings::Constant { .. } => true,
            NoiseSettings::Fbm { octaves, source, .. } => octaves >= 1 && source.well_formed(),
            NoiseSettings::Abs { source } => source.well_formed(),
            NoiseSettings::Square { source } => source.well_formed(),
            NoiseSettings::AddValue { source, .. } => source.well_formed(),
            NoiseSettings::MulValue { source, .. } => source.well_formed(),
            NoiseSettings::Clamp { source, .. } => source.well_formed(),
            NoiseSettings::Range { selector, low_noise, high_noise, .. } => {
                selector.well_formed() && low_noise.well_formed() && high_noise.well_formed()
            },
            NoiseSettings::Lerp { selector, low_noise, high_noise } => {
                selector.well_formed() && low_noise.well_formed() && high_noise.well_formed()
            },
            NoiseSettings::AddNoise { left, right } => left.well_formed() && right.well_formed(),
            NoiseSettings::Mul { left, right } => left.well_formed() && right.well_formed(),
            NoiseSettings::Max { left, right } => left.well_formed() && right.well_formed(),
            NoiseSettings::Min { left, right } => left.well_formed() && right.well_formed(),
        }
    }

    /// Whether every fractal node of the expression has at least one octave.
    pub fn check(&self) -> (r: bool)
        ensures
            r == self.well_formed(),
        decreases *self,
    {
        match self {
            NoiseSettings::Simplex { .. } => true,
            NoiseSettings::Perlin { .. } => true,
            NoiseSettings::Constant { .. } => true,
            NoiseSettings::Fbm { octaves, source, .. } => *octaves >= 1 && source.check(),
            NoiseSettings::Abs { source } => source.check(),
            NoiseSettings::Square { source } => source.check(),
            NoiseSettings::AddValue { source, .. } => source.check(),
            NoiseSettings::MulValue { source, .. } => source.check(),
            NoiseSettings::Clamp { source, .. } => source.check(),
            NoiseSettings::Range { selector, low_noise, high_noise, .. } => {
                selector.check() && low_noise.check() && high_noise.check()
            },
            NoiseSettings::Lerp { selector, low_noise, high_noise } => {
                selector.check() && low_noise.check() && high_noise.check()
            },
            NoiseSettings::AddNoise { left, right } => left.check() && right.check(),
            NoiseSettings::Mul { left, right } => left.check() && right.check(),
            NoiseSettings::Max { left, right } => left.check() && right.check(),
            NoiseSettings::Min { left, right } => left.check() && right.check(),
        }
    }

    /// A deep copy of the expression.
    pub fn duplicate(&self) -> (r: Self)
        ensures
            r == *self,
        decreases *self,
    {
        match self {
            NoiseSettings::Simplex { seed, frequency } => NoiseSettings::Simplex {
                seed: *seed,
                frequency: *frequency,
            },
            NoiseSettings::Perlin { seed, frequency } => NoiseSettings::Perlin {
                seed: *seed,
                frequency: *frequency,
            },
            NoiseSettings::Constant { value } => NoiseSettings::Constant { value: *value },
            NoiseSettings::Fbm { octaves, gain, lacunarity, scaled_amplitude, source } => {
                NoiseSettings::Fbm {
                    octaves: *octaves,
                    gain: *gain,
                    lacunarity: *lacunarity,
                    scaled_amplitude: *scaled_amplitude,
                    source: Box::new(source.duplicate()),
                }
            },
            NoiseSettings::Abs { source } => NoiseSettings::Abs {
                source: Box::new(source.duplicate()),
            },
            NoiseSettings::Square { source } => NoiseSettings::Square {
                source: Box::new(source.duplicate()),
            },
            NoiseSettings::AddValue { value, source } => NoiseSettings::AddValue {
                value: *value,
                source: Box::new(source.duplicate()),
            },
            NoiseSettings::MulValue { value, source } => NoiseSettings::MulValue {
                value: *value,
                source: Box::new(source.duplicate()),
            },
            NoiseSettings::Clamp { min, max, source } => NoiseSettings::Clamp {
                min: *min,
                max: *max,
                source: Box::new(source.duplicate()),
            },
            NoiseSettings::Range { low, high, selector, low_noise, high_noise } => {
                NoiseSettings::Range {
                    low: *low,
                    high: *high,
                    selector: Box::new(selector.duplicate()),
                    low_noise: Box::new(low_noise.duplicate()),
                    high_noise: Box::new(high_noise.duplicate()),
                }
            },
            NoiseSettings::Lerp { selector, low_noise, high_noise } => NoiseSettings::Lerp {
                selector: Box::new(selector.duplicate()),
                low_noise: Box::new(low_noise.duplicate()),
                high_noise: Box::new(high_noise.duplicate()),
            },
            NoiseSettings::AddNoise { left, right } => NoiseSettings::AddNoise {
                left: Box::new(left.duplicate()),
                right: Box::new(right.duplicate()),
            },
            NoiseSettings::Mul { left, right } => NoiseSettings::Mul {
                left: Box::new(left.duplicate()),
                right: Box::new(right.duplicate()),
            },
            NoiseSettings::Max { left, right } => NoiseSettings::Max {
                left: Box::new(left.duplicate()),
                right: Box::new(right.duplicate()),
            },
            NoiseSettings::Min { left, right } => NoiseSettings::Min {
                left: Box::new(left.duplicate()),
                right: Box::new(right.duplicate()),
            },
        }
    }
}

/// `gain` raised to the power `k`, for `k` of at least one, by repeated multiplication.
pub open spec fn gain_power<F: Fn(Operation) -> Scalar>(unit: &F, gain: Scalar, k: nat) -> Scalar
    decreases k,
{
    if k <= 1 {
        gain
    } else {
        product_of(unit, gain_power(unit, gain, (k - 1) as nat), gain)
    }
}

/// The amplitudes of `octaves` octaves summed up, the first being one and each next one
/// `gain` times the one before.
pub open spec fn amplitude_total<F: Fn(Operation) -> Scalar>(
    unit: &F,
    gain: Scalar,
    octaves: nat,
) -> Scalar
    decreases octaves,
{
    if octaves <= 1 {
        ONE()
    } else {
        sum_of(
            unit,
            amplitude_total(unit, gain, (octaves - 1) as nat),
            gain_power(unit, gain, (octaves - 1) as nat),
        )
    }
}

/// The amplitude of the first octave that makes the amplitudes of all octaves sum to
/// one: the reciprocal of their plain sum.
pub open spec fn normalized_amplitude<F: Fn(Operation) -> Scalar>(
    unit: &F,
    gain: Scalar,
    octaves: nat,
) -> Scalar {
    quotient_of(unit, ONE(), amplitude_total(unit, gain, octaves))
}

/// Computes [`normalized_amplitude`].
pub fn scale_amplitude<F: Fn(Operation) -> Scalar>(unit: &F, octaves: u32, gain: Scalar) -> (r:
    Scalar)
    requires
        dependable(unit),
        octaves >= 1,
    ensures
        r == normalized_amplitude(unit, gain, octaves as nat),
{
    let mut amp: Scalar = gain;
    let mut total: Scalar = Scalar::one();
    let mut done: u32 = 1;
    while done < octaves
        invariant
            dependable(unit),
            1 <= done <= octaves,
            amp == gain_power(unit, gain, done as nat),
            total == amplitude_total(unit, gain, done as nat),
        decreases octaves - done,
    {
        total = perform(unit, Operation::Add(total, amp));
        amp = perform(unit, Operation::Mul(amp, gain));
        done = done + 1;
    }
    perform(unit, Operation::Div(Scalar::one(), total))
}

/// Defines a noise: an expression and the seed of the generator that its base noise
/// draws from.
#[derive(Debug)]
pub struct Noise {
    pub seed: u64,
    pub settings: NoiseSettings,
}

impl Noise {
    /// Every fractal node of the expression has at least one octave.
    pub open spec fn well_formed(self) -> bool {
        self.settings.well_formed()
    }

    /// A deep copy of the noise.
    pub fn duplicate(&self) -> (r: Self)
        ensures
            r == *self,
    {
        Self { seed: self.seed, settings: self.settings.duplicate() }
    }

    /// Simplex noise.
    pub fn simplex(frequency: Frequency, seed: i32) -> (r: Self)
        ensures
            r.seed == 0,
            r.settings == (NoiseSettings::Simplex { seed, frequency }),
            r.well_formed(),
    {
        Self { seed: 0, settings: NoiseSettings::Simplex { seed, frequency } }
    }

    /// Perlin noise.
    pub fn perlin(frequency: Frequency, seed: i32) -> (r: Self)
        ensures
            r.seed == 0,
            r.settings == (NoiseSettings::Perlin { seed, frequency }),
            r.well_formed(),
    {
        Self { seed: 0, settings: NoiseSettings::Perlin { seed, frequency } }
    }

    /// A constant number, useful for shifting values.
    pub fn constant(value: Scalar) -> (r: Self)
        ensures
            r.seed == 0,
            r.settings == (NoiseSettings::Constant { value }),
            r.well_formed(),
    {
        Self { seed: 0, settings: NoiseSettings::Constant { value } }
    }

    /// Sets the seed of the generator. Where two noises are combined, the seed of the
    /// one the method is called on is kept.
    pub fn seed(self, seed: u32) -> (r: Self)
        ensures
            r.seed == seed,
            r.settings == self.settings,
    {
        Self { seed: seed as u64, settings: self.settings }
    }

    /// Fractal Brownian motion: `octaves` layers of the noise added together, each at
    /// `lacunarity` times the frequency and `gain` times the amplitude of the one before,
    /// with the first amplitude chosen so that the amplitudes sum to one.
    pub fn fbm<F: Fn(Operation) -> Scalar>(
        self,
        octaves: u32,
        gain: Scalar,
        lacunarity: Scalar,
        unit: &F,
    ) -> (r: Self)
        requires
            dependable(unit),
            octaves > 0,
        ensures
            r.seed == self.seed,
            r.settings == (NoiseSettings::Fbm {
                octaves,
                gain,
                lacunarity,
                scaled_amplitude: normalized_amplitude(unit, gain, octaves as nat),
                source: Box::new(self.settings),
            }),
            self.well_formed() ==> r.well_formed(),
    {
        let scaled_amplitude = scale_amplitude(unit, octaves, gain);
        Self {
            seed: self.seed,
            settings: NoiseSettings::Fbm {
                octaves,
                gain,
                lacunarity,
                scaled_amplitude,
                source: Box::new(self.settings),
            },
        }
    }

    /// The absolute value of the noise.
    pub fn abs(self) -> (r: Self)
        ensures
            r.seed == self.seed,
            r.settings == (NoiseSettings::Abs { source: Box::new(self.settings) }),
            self.well_formed() ==> r.well_formed(),
    {
        Self { seed: self.seed, settings: NoiseSettings::Abs { source: Box::new(self.settings) } }
    }

    /// The noise squared.
    pub fn square(self) -> (r: Self)
        ensures
            r.seed == self.seed,
            r.settings == (NoiseSettings::Square { source: Box::new(self.settings) }),
            self.well_formed() ==> r.well_formed(),
    {
        Self {
            seed: self.seed,
            settings: NoiseSettings::Square { source: Box::new(self.settings) },
        }
    }

    /// The noise with `value` added to it.
    pub fn add_value(self, value: Scalar) -> (r: Self)
        ensures
            r.seed == self.seed,
            r.settings == (NoiseSettings::AddValue { value, source: Box::new(self.settings) }),
            self.well_formed() ==> r.well_formed(),
    {
        Self {
            seed: self.seed,
            settings: NoiseSettings::AddValue { value, source: Box::new(self.settings) },
        }
    }

    /// The noise multiplied by `value`.
    pub fn mul_value(self, value: Scalar) -> (r: Self)
        ensures
            r.seed == self.seed,
            r.settings == (NoiseSettings::MulValue { value, source: Box::new(self.settings) }),
            self.well_formed() ==> r.well_formed(),
    {
        Self {
            seed: self.seed,
            settings: NoiseSettings::MulValue { value, source: Box::new(self.settings) },
        }
    }

    /// The noise held between `min` and `max`.
    pub fn clamp(self, min: Scalar, max: Scalar) -> (r: Self)
        ensures
            r.seed == self.seed,
            r.settings == (NoiseSettings::Clamp { min, max, source: Box::new(self.settings) }),
            self.well_formed() ==> r.well_formed(),
    {
        Self {
            seed: self.seed,
            settings: NoiseSettings::Clamp { min, max, source: Box::new(self.settings) },
        }
    }

    /// The sum of two noises; the result is not normalized.
    pub fn add(self, other: Self) -> (r: Self)
        ensures
            r.seed == self.seed,
            r.settings == (NoiseSettings::AddNoise {
                left: Box::new(self.settings),
                right: Box::new(other.settings),
            }),
            self.well_formed() && other.well_formed() ==> r.well_formed(),
    {
        Self {
            seed: self.seed,
            settings: NoiseSettings::AddNoise {
                left: Box::new(self.settings),
                right: Box::new(other.settings),
            },
        }
    }

    /// The product of two noises; the result is not normalized.
    pub fn mul(self, other: Self) -> (r: Self)
        ensures
            r.seed == self.seed,
            r.settings == (NoiseSettings::Mul {
                left: Box::new(self.settings),
                right: Box::new(other.settings),
            }),
            self.well_formed() && other.well_formed() ==> r.well_formed(),
    {
        Self {
            seed: self.seed,
            settings: NoiseSettings::Mul {
                left: Box::new(self.settings),
                right: Box::new(other.settings),
            },
        }
    }

    /// The greater of the two noises at every point.
    pub fn max(self, other: Self) -> (r: Self)
        ensures
            r.seed == self.seed,
            r.settings == (NoiseSettings::Max {
                left: Box::new(self.settings),
                right: Box::new(other.settings),
            }),
            self.well_formed() && other.well_formed() ==> r.well_formed(),
    {
        Self {
            seed: self.seed,
            settings: NoiseSettings::Max {
                left: Box::new(self.settings),
                right: Box::new(other.settings),
            },
        }
    }

    /// The lesser of the two noises at every point.
    pub fn min(self, other: Self) -> (r: Self)
        ensures
            r.seed == self.seed,
            r.settings == (NoiseSettings::Min {
                left: Box::new(self.settings),
                right: Box::new(other.settings),
            }),
            self.well_formed() && other.well_formed() ==> r.well_formed(),
    {
        Self {
            seed: self.seed,
            settings: NoiseSettings::Min {
                left: Box::new(self.settings),
                right: Box::new(other.settings),
            },
        }
    }

    /// Blends linearly between `low` and `high`, with this noise as the selector. The
    /// selector is expected to lie between minus one and one.
    pub fn lerp(self, high: Self, low: Self) -> (r: Self)
        ensures
            r.seed == self.seed,
            r.settings == (NoiseSettings::Lerp {
                selector: Box::new(self.settings),
                low_noise: Box::new(low.settings),
                high_noise: Box::new(high.settings),
            }),
            self.well_formed() && high.well_formed() && low.well_formed() ==> r.well_formed(),
    {
        Self {
            seed: self.seed,
            settings: NoiseSettings::Lerp {
                selector: Box::new(self.settings),
                low_noise: Box::new(low.settings),
                high_noise: Box::new(high.settings),
            },
        }
    }

    /// Where this noise, the selector, is above `high` the result is `high_noise`, where
    /// it is below `low` the result is `low_noise`, and in between the two are blended
    /// linearly by the selector.
    pub fn range(self, high: Scalar, low: Scalar, high_noise: Self, low_noise: Self) -> (r: Self)
        ensures
            r.seed == self.seed,
            r.settings == (NoiseSettings::Range {
                low,
                high,
                selector: Box::new(self.settings),
                low_noise: Box::new(low_noise.settings),
                high_noise: Box::new(high_noise.settings),
            }),
            self.well_formed() && high_noise.well_formed() && low_noise.well_formed()
                ==> r.well_formed(),
    {
        Self {
            seed: self.seed,
            settings: NoiseSettings::Range {
                low,
                high,
                selector: Box::new(self.settings),
                low_noise: Box::new(low_noise.settings),
                high_noise: Box::new(high_noise.settings),
            },
        }
    }
}

} // verus!
