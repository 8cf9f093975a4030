//! Color-reduction configuration.
//!
//! The enable register is independent of the format-specific thresholds, so a
//! programmed threshold is never mistaken for an active optimization.

use vstd::prelude::*;
use crate::register::{MaxwellMethodSource, MaxwellThreeDRegister};

verus! {

/// Two bytes packed in bits 7:0 and 23:16 unpack to themselves, and a word with
/// only those bits repacks to itself.
proof fn lemma_byte_pair(raw: u32, low: u8, high: u8)
    ensures
        raw & !0x00ff_00ffu32 == 0 ==> (((raw & 0xff) as u8) as u32) | (((((raw >> 16) & 0xff) as u8)
            as u32) << 16u32) == raw,
        ((low as u32) | ((high as u32) << 16u32)) & !0x00ff_00ffu32 == 0,
        (((low as u32) | ((high as u32) << 16u32)) & 0xff) as u8 == low,
        ((((low as u32) | ((high as u32) << 16u32)) >> 16) & 0xff) as u8 == high,
{
    assert({
        &&& raw & !0x00ff_00ffu32 == 0 ==> (((raw & 0xff) as u8) as u32) | (((((raw >> 16) & 0xff)
            as u8) as u32) << 16u32) == raw
        &&& ((low as u32) | ((high as u32) << 16u32)) & !0x00ff_00ffu32 == 0
        &&& (((low as u32) | ((high as u32) << 16u32)) & 0xff) as u8 == low
        &&& ((((low as u32) | ((high as u32) << 16u32)) >> 16) & 0xff) as u8 == high
    }) by (bit_vector);
}

/// One unsigned normalized eight-bit threshold component.
#[derive(Clone, Copy, Debug, PartialEq, Eq, Hash, Structural)]
pub struct MaxwellThreeDUnorm8(pub u8);

impl MaxwellThreeDUnorm8 {
    #[must_use]
    pub fn new(raw: u8) -> (r: MaxwellThreeDUnorm8)
        ensures
            r.0 == raw,
    {
        MaxwellThreeDUnorm8(raw)
    }

    pub open spec fn spec_raw(self) -> u8 {
        self.0
    }

    #[must_use]
    #[verifier::when_used_as_spec(spec_raw)]
    pub fn raw(self) -> (r: u8)
        ensures
            r == self.0,
    {
        self.0
    }
}

/// The two UNORM8 color-reduction thresholds, programmed as one word.
#[derive(Clone, Copy, Debug, PartialEq, Eq, Hash, Structural)]
pub struct MaxwellThreeDColorReductionThresholdsUnorm8 {
    pub all_covered_all_hit_once: MaxwellThreeDUnorm8,
    pub all_covered: MaxwellThreeDUnorm8,
}

impl MaxwellThreeDColorReductionThresholdsUnorm8 {
    #[must_use]
    pub fn new(all_covered_all_hit_once: MaxwellThreeDUnorm8, all_covered: MaxwellThreeDUnorm8) -> (r: MaxwellThreeDColorReductionThresholdsUnorm8)
        ensures
            r == (MaxwellThreeDColorReductionThresholdsUnorm8 { all_covered_all_hit_once, all_covered }),
    {
        MaxwellThreeDColorReductionThresholdsUnorm8 { all_covered_all_hit_once, all_covered }
    }

    /// Two bytes, in bits 7:0 and 23:16; all other bits are reserved.
    pub open spec fn spec_parse(raw: u32) -> Option<MaxwellThreeDColorReductionThresholdsUnorm8> {
        if raw & !0x00ff_00ffu32 != 0 {
            None
        } else {
            Some(
                MaxwellThreeDColorReductionThresholdsUnorm8 {
                    all_covered_all_hit_once: MaxwellThreeDUnorm8((raw & 0xff) as u8),
                    all_covered: MaxwellThreeDUnorm8(((raw >> 16) & 0xff) as u8),
                },
            )
        }
    }

    pub open spec fn spec_raw(self) -> u32 {
        (self.all_covered_all_hit_once.0 as u32) | ((self.all_covered.0 as u32) << 16u32)
    }

    #[verifier::when_used_as_spec(spec_parse)]
    pub fn parse(raw: u32) -> (r: Option<MaxwellThreeDColorReductionThresholdsUnorm8>)
        ensures
            r == MaxwellThreeDColorReductionThresholdsUnorm8::spec_parse(raw),
    {
        if raw & !0x00ff_00ffu32 != 0 {
            return None;
        }
        Some(
            MaxwellThreeDColorReductionThresholdsUnorm8::new(
                MaxwellThreeDUnorm8::new((raw & 0xff) as u8),
                MaxwellThreeDUnorm8::new(((raw >> 16) & 0xff) as u8),
            ),
        )
    }

    #[must_use]
    pub fn all_covered_all_hit_once(self) -> (r: MaxwellThreeDUnorm8)
        ensures
            r == self.all_covered_all_hit_once,
    {
        self.all_covered_all_hit_once
    }

    #[must_use]
    pub fn all_covered(self) -> (r: MaxwellThreeDUnorm8)
        ensures
            r == self.all_covered,
    {
        self.all_covered
    }

    #[must_use]
    #[verifier::when_used_as_spec(spec_raw)]
    pub fn raw(self) -> (r: u32)
        ensures
            r == self.spec_raw(),
    {
        (self.all_covered_all_hit_once.raw() as u32) | ((self.all_covered.raw() as u32) << 16u32)
    }

    /// Decoding and encoding are inverse.
    pub proof fn law_codec(raw: u32, value: MaxwellThreeDColorReductionThresholdsUnorm8)
        ensures
            MaxwellThreeDColorReductionThresholdsUnorm8::spec_parse(raw) matches Some(parsed) ==> parsed.spec_raw() == raw,
            MaxwellThreeDColorReductionThresholdsUnorm8::spec_parse(value.spec_raw()) == Some(value),
    {
        lemma_byte_pair(raw, value.all_covered_all_hit_once.0, value.all_covered.0);
    }
}

/// The two thresholds selected for UNORM10 color surfaces.
///
/// Both components are eight-bit normalized values, in a register distinct from
/// the UNORM8 thresholds.
#[derive(Clone, Copy, Debug, PartialEq, Eq, Hash, Structural)]
pub struct MaxwellThreeDColorReductionThresholdsUnorm10 {
    pub all_covered_all_hit_once: MaxwellThreeDUnorm8,
    pub all_covered: MaxwellThreeDUnorm8,
}

impl MaxwellThreeDColorReductionThresholdsUnorm10 {
    #[must_use]
    pub fn new(all_covered_all_hit_once: MaxwellThreeDUnorm8, all_covered: MaxwellThreeDUnorm8) -> (r: MaxwellThreeDColorReductionThresholdsUnorm10)
        ensures
            r == (MaxwellThreeDColorReductionThresholdsUnorm10 { all_covered_all_hit_once, all_covered }),
    {
        MaxwellThreeDColorReductionThresholdsUnorm10 { all_covered_all_hit_once, all_covered }
    }

    /// Two bytes, in bits 7:0 and 23:16; all other bits are reserved.
    pub open spec fn spec_parse(raw: u32) -> Option<MaxwellThreeDColorReductionThresholdsUnorm10> {
        if raw & !0x00ff_00ffu32 != 0 {
            None
        } else {
            Some(
                MaxwellThreeDColorReductionThresholdsUnorm10 {
                    all_covered_all_hit_once: MaxwellThreeDUnorm8((raw & 0xff) as u8),
                    all_covered: MaxwellThreeDUnorm8(((raw >> 16) & 0xff) as u8),
                },
            )
        }
    }

    pub open spec fn spec_raw(self) -> u32 {
        (self.all_covered_all_hit_once.0 as u32) | ((self.all_covered.0 as u32) << 16u32)
    }

    #[verifier::when_used_as_spec(spec_parse)]
    pub fn parse(raw: u32) -> (r: Option<MaxwellThreeDColorReductionThresholdsUnorm10>)
        ensures
            r == MaxwellThreeDColorReductionThresholdsUnorm10::spec_parse(raw),
    {
        if raw & !0x00ff_00ffu32 != 0 {
            return None;
        }
        Some(
            MaxwellThreeDColorReductionThresholdsUnorm10::new(
                MaxwellThreeDUnorm8::new((raw & 0xff) as u8),
                MaxwellThreeDUnorm8::new(((raw >> 16) & 0xff) as u8),
            ),
        )
    }

    #[must_use]
    pub fn all_covered_all_hit_once(self) -> (r: MaxwellThreeDUnorm8)
        ensures
            r == self.all_covered_all_hit_once,
    {
        self.all_covered_all_hit_once
    }

    #[must_use]
    pub fn all_covered(self) -> (r: MaxwellThreeDUnorm8)
        ensures
            r == self.all_covered,
    {
        self.all_covered
    }

    #[must_use]
    #[verifier::when_used_as_spec(spec_raw)]
    pub fn raw(self) -> (r: u32)
        ensures
            r == self.spec_raw(),
    {
        (self.all_covered_all_hit_once.raw() as u32) | ((self.all_covered.raw() as u32) << 16u32)
    }

    /// Decoding and encoding are inverse.
    pub proof fn law_codec(raw: u32, value: MaxwellThreeDColorReductionThresholdsUnorm10)
        ensures
            MaxwellThreeDColorReductionThresholdsUnorm10::spec_parse(raw) matches Some(parsed) ==> parsed.spec_raw() == raw,
            MaxwellThreeDColorReductionThresholdsUnorm10::spec_parse(value.spec_raw()) == Some(value),
    {
        lemma_byte_pair(raw, value.all_covered_all_hit_once.0, value.all_covered.0);
    }
}

/// The two thresholds selected for UNORM16 color surfaces.
#[derive(Clone, Copy, Debug, PartialEq, Eq, Hash, Structural)]
pub struct MaxwellThreeDColorReductionThresholdsUnorm16 {
    pub all_covered_all_hit_once: MaxwellThreeDUnorm8,
    pub all_covered: MaxwellThreeDUnorm8,
}

impl MaxwellThreeDColorReductionThresholdsUnorm16 {
    #[must_use]
    pub fn new(all_covered_all_hit_once: MaxwellThreeDUnorm8, all_covered: MaxwellThreeDUnorm8) -> (r: MaxwellThreeDColorReductionThresholdsUnorm16)
        ensures
            r == (MaxwellThreeDColorReductionThresholdsUnorm16 { all_covered_all_hit_once, all_covered }),
    {
        MaxwellThreeDColorReductionThresholdsUnorm16 { all_covered_all_hit_once, all_covered }
    }

    /// Two bytes, in bits 7:0 and 23:16; all other bits are reserved.
    pub open spec fn spec_parse(raw: u32) -> Option<MaxwellThreeDColorReductionThresholdsUnorm16> {
        if raw & !0x00ff_00ffu32 != 0 {
            None
        } else {
            Some(
                MaxwellThreeDColorReductionThresholdsUnorm16 {
                    all_covered_all_hit_once: MaxwellThreeDUnorm8((raw & 0xff) as u8),
                    all_covered: MaxwellThreeDUnorm8(((raw >> 16) & 0xff) as u8),
                },
            )
        }
    }

    pub open spec fn spec_raw(self) -> u32 {
        (self.all_covered_all_hit_once.0 as u32) | ((self.all_covered.0 as u32) << 16u32)
    }

    #[verifier::when_used_as_spec(spec_parse)]
    pub fn parse(raw: u32) -> (r: Option<MaxwellThreeDColorReductionThresholdsUnorm16>)
        ensures
            r == MaxwellThreeDColorReductionThresholdsUnorm16::spec_parse(raw),
    {
        if raw & !0x00ff_00ffu32 != 0 {
            return None;
        }
        Some(
            MaxwellThreeDColorReductionThresholdsUnorm16::new(
                MaxwellThreeDUnorm8::new((raw & 0xff) as u8),
                MaxwellThreeDUnorm8::new(((raw >> 16) & 0xff) as u8),
            ),
        )
    }

    #[must_use]
    pub fn all_covered_all_hit_once(self) -> (r: MaxwellThreeDUnorm8)
        ensures
            r == self.all_covered_all_hit_once,
    {
        self.all_covered_all_hit_once
    }

    #[must_use]
    pub fn all_covered(self) -> (r: MaxwellThreeDUnorm8)
        ensures
            r == self.all_covered,
    {
        self.all_covered
    }

    #[must_use]
    #[verifier::when_used_as_spec(spec_raw)]
    pub fn raw(self) -> (r: u32)
        ensures
            r == self.spec_raw(),
    {
        (self.all_covered_all_hit_once.raw() as u32) | ((self.all_covered.raw() as u32) << 16u32)
    }

    /// Decoding and encoding are inverse.
    pub proof fn law_codec(raw: u32, value: MaxwellThreeDColorReductionThresholdsUnorm16)
        ensures
            MaxwellThreeDColorReductionThresholdsUnorm16::spec_parse(raw) matches Some(parsed) ==> parsed.spec_raw() == raw,
            MaxwellThreeDColorReductionThresholdsUnorm16::spec_parse(value.spec_raw()) == Some(value),
    {
        lemma_byte_pair(raw, value.all_covered_all_hit_once.0, value.all_covered.0);
    }
}

/// One opaque eight-bit threshold component for FP16 color surfaces.
///
/// The bits are kept without a numerical reading.
#[derive(Clone, Copy, Debug, PartialEq, Eq, Hash, Structural)]
pub struct MaxwellThreeDColorReductionFp16Threshold(pub u8);

impl MaxwellThreeDColorReductionFp16Threshold {
    #[must_use]
    pub fn new(raw: u8) -> (r: MaxwellThreeDColorReductionFp16Threshold)
        ensures
            r.0 == raw,
    {
        MaxwellThreeDColorReductionFp16Threshold(raw)
    }

    pub open spec fn spec_raw(self) -> u8 {
        self.0
    }

    #[must_use]
    #[verifier::when_used_as_spec(spec_raw)]
    pub fn raw(self) -> (r: u8)
        ensures
            r == self.0,
    {
        self.0
    }
}

/// The two opaque FP16 thresholds, programmed as one word.
#[derive(Clone, Copy, Debug, PartialEq, Eq, Hash, Structural)]
pub struct MaxwellThreeDColorReductionThresholdsFp16 {
    pub all_covered_all_hit_once: MaxwellThreeDColorReductionFp16Threshold,
    pub all_covered: MaxwellThreeDColorReductionFp16Threshold,
}

impl MaxwellThreeDColorReductionThresholdsFp16 {
    #[must_use]
    pub fn new(all_covered_all_hit_once: MaxwellThreeDColorReductionFp16Threshold, all_covered: MaxwellThreeDColorReductionFp16Threshold) -> (r: MaxwellThreeDColorReductionThresholdsFp16)
        ensures
            r == (MaxwellThreeDColorReductionThresholdsFp16 { all_covered_all_hit_once, all_covered }),
    {
        MaxwellThreeDColorReductionThresholdsFp16 { all_covered_all_hit_once, all_covered }
    }

    /// Two bytes, in bits 7:0 and 23:16; all other bits are reserved.
    pub open spec fn spec_parse(raw: u32) -> Option<MaxwellThreeDColorReductionThresholdsFp16> {
        if raw & !0x00ff_00ffu32 != 0 {
            None
        } else {
            Some(
                MaxwellThreeDColorReductionThresholdsFp16 {
                    all_covered_all_hit_once: MaxwellThreeDColorReductionFp16Threshold((raw & 0xff) as u8),
                    all_covered: MaxwellThreeDColorReductionFp16Threshold(((raw >> 16) & 0xff) as u8),
                },
            )
        }
    }

    pub open spec fn spec_raw(self) -> u32 {
        (self.all_covered_all_hit_once.0 as u32) | ((self.all_covered.0 as u32) << 16u32)
    }

    #[verifier::when_used_as_spec(spec_parse)]
    pub fn parse(raw: u32) -> (r: Option<MaxwellThreeDColorReductionThresholdsFp16>)
        ensures
            r == MaxwellThreeDColorReductionThresholdsFp16::spec_parse(raw),
    {
        if raw & !0x00ff_00ffu32 != 0 {
            return None;
        }
        Some(
            MaxwellThreeDColorReductionThresholdsFp16::new(
                MaxwellThreeDColorReductionFp16Threshold::new((raw & 0xff) as u8),
                MaxwellThreeDColorReductionFp16Threshold::new(((raw >> 16) & 0xff) as u8),
            ),
        )
    }

    #[must_use]
    pub fn all_covered_all_hit_once(self) -> (r: MaxwellThreeDColorReductionFp16Threshold)
        ensures
            r == self.all_covered_all_hit_once,
    {
        self.all_covered_all_hit_once
    }

    #[must_use]
    pub fn all_covered(self) -> (r: MaxwellThreeDColorReductionFp16Threshold)
        ensures
            r == self.all_covered,
    {
        self.all_covered
    }

    #[must_use]
    #[verifier::when_used_as_spec(spec_raw)]
    pub fn raw(self) -> (r: u32)
        ensures
            r == self.spec_raw(),
    {
        (self.all_covered_all_hit_once.raw() as u32) | ((self.all_covered.raw() as u32) << 16u32)
    }

    /// Decoding and encoding are inverse.
    pub proof fn law_codec(raw: u32, value: MaxwellThreeDColorReductionThresholdsFp16)
        ensures
            MaxwellThreeDColorReductionThresholdsFp16::spec_parse(raw) matches Some(parsed) ==> parsed.spec_raw() == raw,
            MaxwellThreeDColorReductionThresholdsFp16::spec_parse(value.spec_raw()) == Some(value),
    {
        lemma_byte_pair(raw, value.all_covered_all_hit_once.0, value.all_covered.0);
    }
}

/// One opaque eight-bit threshold component for SRGB8 color surfaces.
///
/// The byte is kept without treating it as linear data.
#[derive(Clone, Copy, Debug, PartialEq, Eq, Hash, Structural)]
pub struct MaxwellThreeDColorReductionSrgb8Threshold(pub u8);

impl MaxwellThreeDColorReductionSrgb8Threshold {
    #[must_use]
    pub fn new(raw: u8) -> (r: MaxwellThreeDColorReductionSrgb8Threshold)
        ensures
            r.0 == raw,
    {
        MaxwellThreeDColorReductionSrgb8Threshold(raw)
    }

    pub open spec fn spec_raw(self) -> u8 {
        self.0
    }

    #[must_use]
    #[verifier::when_used_as_spec(spec_raw)]
    pub fn raw(self) -> (r: u8)
        ensures
            r == self.0,
    {
        self.0
    }
}

/// The two opaque SRGB8 thresholds, programmed as one word.
#[derive(Clone, Copy, Debug, PartialEq, Eq, Hash, Structural)]
pub struct MaxwellThreeDColorReductionThresholdsSrgb8 {
    pub all_covered_all_hit_once: MaxwellThreeDColorReductionSrgb8Threshold,
    pub all_covered: MaxwellThreeDColorReductionSrgb8Threshold,
}

impl MaxwellThreeDColorReductionThresholdsSrgb8 {
    #[must_use]
    pub fn new(all_covered_all_hit_once: MaxwellThreeDColorReductionSrgb8Threshold, all_covered: MaxwellThreeDColorReductionSrgb8Threshold) -> (r: MaxwellThreeDColorReductionThresholdsSrgb8)
        ensures
            r == (MaxwellThreeDColorReductionThresholdsSrgb8 { all_covered_all_hit_once, all_covered }),
    {
        MaxwellThreeDColorReductionThresholdsSrgb8 { all_covered_all_hit_once, all_covered }
    }

    /// Two bytes, in bits 7:0 and 23:16; all other bits are reserved.
    pub open spec fn spec_parse(raw: u32) -> Option<MaxwellThreeDColorReductionThresholdsSrgb8> {
        if raw & !0x00ff_00ffu32 != 0 {
            None
        } else {
            Some(
                MaxwellThreeDColorReductionThresholdsSrgb8 {
                    all_covered_all_hit_once: MaxwellThreeDColorReductionSrgb8Threshold((raw & 0xff) as u8),
                    all_covered: MaxwellThreeDColorReductionSrgb8Threshold(((raw >> 16) & 0xff) as u8),
                },
            )
        }
    }

    pub open spec fn spec_raw(self) -> u32 {
        (self.all_covered_all_hit_once.0 as u32) | ((self.all_covered.0 as u32) << 16u32)
    }

    #[verifier::when_used_as_spec(spec_parse)]
    pub fn parse(raw: u32) -> (r: Option<MaxwellThreeDColorReductionThresholdsSrgb8>)
        ensures
            r == MaxwellThreeDColorReductionThresholdsSrgb8::spec_parse(raw),
    {
        if raw & !0x00ff_00ffu32 != 0 {
            return None;
        }
        Some(
            MaxwellThreeDColorReductionThresholdsSrgb8::new(
                MaxwellThreeDColorReductionSrgb8Threshold::new((raw & 0xff) as u8),
                MaxwellThreeDColorReductionSrgb8Threshold::new(((raw >> 16) & 0xff) as u8),
            ),
        )
    }

    #[must_use]
    pub fn all_covered_all_hit_once(self) -> (r: MaxwellThreeDColorReductionSrgb8Threshold)
        ensures
            r == self.all_covered_all_hit_once,
    {
        self.all_covered_all_hit_once
    }

    #[must_use]
    pub fn all_covered(self) -> (r: MaxwellThreeDColorReductionSrgb8Threshold)
        ensures
            r == self.all_covered,
    {
        self.all_covered
    }

    #[must_use]
    #[verifier::when_used_as_spec(spec_raw)]
    pub fn raw(self) -> (r: u32)
        ensures
            r == self.spec_raw(),
    {
        (self.all_covered_all_hit_once.raw() as u32) | ((self.all_covered.raw() as u32) << 16u32)
    }

    /// Decoding and encoding are inverse.
    pub proof fn law_codec(raw: u32, value: MaxwellThreeDColorReductionThresholdsSrgb8)
        ensures
            MaxwellThreeDColorReductionThresholdsSrgb8::spec_parse(raw) matches Some(parsed) ==> parsed.spec_raw() == raw,
            MaxwellThreeDColorReductionThresholdsSrgb8::spec_parse(value.spec_raw()) == Some(value),
    {
        lemma_byte_pair(raw, value.all_covered_all_hit_once.0, value.all_covered.0);
    }
}

/// Whether later color output may consume the reduction thresholds.
#[derive(Clone, Copy, Debug, PartialEq, Eq, Hash, Structural)]
pub enum MaxwellThreeDColorReductionThresholdsEnable {
    Disabled,
    Enabled,
}

impl MaxwellThreeDColorReductionThresholdsEnable {
    /// Field encoding of each value.
    pub open spec fn spec_raw(self) -> u32 {
        match self {
            MaxwellThreeDColorReductionThresholdsEnable::Disabled => 0,
            MaxwellThreeDColorReductionThresholdsEnable::Enabled => 1,
        }
    }

    /// Value of each defined encoding.
    pub open spec fn spec_parse(raw: u32) -> Option<MaxwellThreeDColorReductionThresholdsEnable> {
        if raw == 0 {
            Some(MaxwellThreeDColorReductionThresholdsEnable::Disabled)
        } else if raw == 1 {
            Some(MaxwellThreeDColorReductionThresholdsEnable::Enabled)
        } else {
            None
        }
    }

    #[verifier::when_used_as_spec(spec_parse)]
    pub fn parse(raw: u32) -> (r: Option<MaxwellThreeDColorReductionThresholdsEnable>)
        ensures
            r == MaxwellThreeDColorReductionThresholdsEnable::spec_parse(raw),
    {
        match raw {
            0 => Some(MaxwellThreeDColorReductionThresholdsEnable::Disabled),
            1 => Some(MaxwellThreeDColorReductionThresholdsEnable::Enabled),
            _ => None,
        }
    }

    #[must_use]
    #[verifier::when_used_as_spec(spec_raw)]
    pub fn raw(self) -> (r: u32)
        ensures
            r == self.spec_raw(),
    {
        match self {
            MaxwellThreeDColorReductionThresholdsEnable::Disabled => 0,
            MaxwellThreeDColorReductionThresholdsEnable::Enabled => 1,
        }
    }

    /// Decoding and encoding are inverse: a word decodes to a value exactly
    /// when it is the encoding of that value.
    pub proof fn law_codec(raw: u32, value: MaxwellThreeDColorReductionThresholdsEnable)
        ensures
            MaxwellThreeDColorReductionThresholdsEnable::spec_parse(raw) == Some(value) <==> value.spec_raw() == raw,
    {
    }
}

/// One validated color-reduction transition.
#[derive(Clone, Copy, Debug, PartialEq, Eq, Hash, Structural)]
#[allow(inconsistent_fields)]
pub enum MaxwellThreeDColorReductionStateWrite {
    Enable { value: MaxwellThreeDColorReductionThresholdsEnable, source: MaxwellMethodSource },
    ThresholdsUnorm8 { value: MaxwellThreeDColorReductionThresholdsUnorm8, source: MaxwellMethodSource },
    ThresholdsUnorm10 { value: MaxwellThreeDColorReductionThresholdsUnorm10, source: MaxwellMethodSource },
    ThresholdsUnorm16 { value: MaxwellThreeDColorReductionThresholdsUnorm16, source: MaxwellMethodSource },
    ThresholdsFp16 { value: MaxwellThreeDColorReductionThresholdsFp16, source: MaxwellMethodSource },
    ThresholdsSrgb8 { value: MaxwellThreeDColorReductionThresholdsSrgb8, source: MaxwellMethodSource },
}

/// Persistent color-reduction configuration.
#[derive(Clone, Copy, Debug, PartialEq, Eq)]
pub struct MaxwellThreeDColorReductionState {
    pub enable: MaxwellThreeDRegister<MaxwellThreeDColorReductionThresholdsEnable>,
    pub thresholds_unorm8: MaxwellThreeDRegister<MaxwellThreeDColorReductionThresholdsUnorm8>,
    pub thresholds_unorm10: MaxwellThreeDRegister<MaxwellThreeDColorReductionThresholdsUnorm10>,
    pub thresholds_unorm16: MaxwellThreeDRegister<MaxwellThreeDColorReductionThresholdsUnorm16>,
    pub thresholds_fp16: MaxwellThreeDRegister<MaxwellThreeDColorReductionThresholdsFp16>,
    pub thresholds_srgb8: MaxwellThreeDRegister<MaxwellThreeDColorReductionThresholdsSrgb8>,
}

impl MaxwellThreeDColorReductionState {
    /// State before any method is decoded.
    pub open spec fn initial(self) -> bool {
        &&& self.enable == MaxwellThreeDRegister::<MaxwellThreeDColorReductionThresholdsEnable>::unset()
        &&& self.thresholds_unorm8 == MaxwellThreeDRegister::<MaxwellThreeDColorReductionThresholdsUnorm8>::unset()
        &&& self.thresholds_unorm10 == MaxwellThreeDRegister::<MaxwellThreeDColorReductionThresholdsUnorm10>::unset()
        &&& self.thresholds_unorm16 == MaxwellThreeDRegister::<MaxwellThreeDColorReductionThresholdsUnorm16>::unset()
        &&& self.thresholds_fp16 == MaxwellThreeDRegister::<MaxwellThreeDColorReductionThresholdsFp16>::unset()
        &&& self.thresholds_srgb8 == MaxwellThreeDRegister::<MaxwellThreeDColorReductionThresholdsSrgb8>::unset()
    }

    /// State after one transition: the addressed register holds the written word,
    /// its value and its source, and every other register is unchanged.
    pub open spec fn written(self, write: MaxwellThreeDColorReductionStateWrite) -> MaxwellThreeDColorReductionState {
        match write {
            MaxwellThreeDColorReductionStateWrite::Enable { value, source } => MaxwellThreeDColorReductionState {
                enable: MaxwellThreeDRegister::programmed(value.raw(), value, source),
                ..self
            },
            MaxwellThreeDColorReductionStateWrite::ThresholdsUnorm8 { value, source } => MaxwellThreeDColorReductionState {
                thresholds_unorm8: MaxwellThreeDRegister::programmed(value.raw(), value, source),
                ..self
            },
            MaxwellThreeDColorReductionStateWrite::ThresholdsUnorm10 { value, source } => MaxwellThreeDColorReductionState {
                thresholds_unorm10: MaxwellThreeDRegister::programmed(value.raw(), value, source),
                ..self
            },
            MaxwellThreeDColorReductionStateWrite::ThresholdsUnorm16 { value, source } => MaxwellThreeDColorReductionState {
                thresholds_unorm16: MaxwellThreeDRegister::programmed(value.raw(), value, source),
                ..self
            },
            MaxwellThreeDColorReductionStateWrite::ThresholdsFp16 { value, source } => MaxwellThreeDColorReductionState {
                thresholds_fp16: MaxwellThreeDRegister::programmed(value.raw(), value, source),
                ..self
            },
            MaxwellThreeDColorReductionStateWrite::ThresholdsSrgb8 { value, source } => MaxwellThreeDColorReductionState {
                thresholds_srgb8: MaxwellThreeDRegister::programmed(value.raw(), value, source),
                ..self
            },
        }
    }

    #[must_use]
    pub fn enable(&self) -> (r: &MaxwellThreeDRegister<MaxwellThreeDColorReductionThresholdsEnable>)
        ensures
            *r == self.enable,
    {
        &self.enable
    }

    #[must_use]
    pub fn thresholds_unorm8(&self) -> (r: &MaxwellThreeDRegister<MaxwellThreeDColorReductionThresholdsUnorm8>)
        ensures
            *r == self.thresholds_unorm8,
    {
        &self.thresholds_unorm8
    }

    #[must_use]
    pub fn thresholds_unorm10(&self) -> (r: &MaxwellThreeDRegister<MaxwellThreeDColorReductionThresholdsUnorm10>)
        ensures
            *r == self.thresholds_unorm10,
    {
        &self.thresholds_unorm10
    }

    #[must_use]
    pub fn thresholds_unorm16(&self) -> (r: &MaxwellThreeDRegister<MaxwellThreeDColorReductionThresholdsUnorm16>)
        ensures
            *r == self.thresholds_unorm16,
    {
        &self.thresholds_unorm16
    }

    #[must_use]
    pub fn thresholds_fp16(&self) -> (r: &MaxwellThreeDRegister<MaxwellThreeDColorReductionThresholdsFp16>)
        ensures
            *r == self.thresholds_fp16,
    {
        &self.thresholds_fp16
    }

    #[must_use]
    pub fn thresholds_srgb8(&self) -> (r: &MaxwellThreeDRegister<MaxwellThreeDColorReductionThresholdsSrgb8>)
        ensures
            *r == self.thresholds_srgb8,
    {
        &self.thresholds_srgb8
    }

    /// State with every register unset.
    #[must_use]
    pub fn unprogrammed() -> (r: MaxwellThreeDColorReductionState)
        ensures
            r.initial(),
    {
        MaxwellThreeDColorReductionState {
            enable: MaxwellThreeDRegister::unset(),
            thresholds_unorm8: MaxwellThreeDRegister::unset(),
            thresholds_unorm10: MaxwellThreeDRegister::unset(),
            thresholds_unorm16: MaxwellThreeDRegister::unset(),
            thresholds_fp16: MaxwellThreeDRegister::unset(),
            thresholds_srgb8: MaxwellThreeDRegister::unset(),
        }
    }

    pub fn apply(&mut self, write: MaxwellThreeDColorReductionStateWrite)
        ensures
            *final(self) == old(self).written(write),
    {
        match write {
            MaxwellThreeDColorReductionStateWrite::Enable { value, source } => {
                self.enable = MaxwellThreeDRegister::programmed(value.raw(), value, source);
            },
            MaxwellThreeDColorReductionStateWrite::ThresholdsUnorm8 { value, source } => {
                self.thresholds_unorm8 = MaxwellThreeDRegister::programmed(value.raw(), value, source);
            },
            MaxwellThreeDColorReductionStateWrite::ThresholdsUnorm10 { value, source } => {
                self.thresholds_unorm10 = MaxwellThreeDRegister::programmed(value.raw(), value, source);
            },
            MaxwellThreeDColorReductionStateWrite::ThresholdsUnorm16 { value, source } => {
                self.thresholds_unorm16 = MaxwellThreeDRegister::programmed(value.raw(), value, source);
            },
            MaxwellThreeDColorReductionStateWrite::ThresholdsFp16 { value, source } => {
                self.thresholds_fp16 = MaxwellThreeDRegister::programmed(value.raw(), value, source);
            },
            MaxwellThreeDColorReductionStateWrite::ThresholdsSrgb8 { value, source } => {
                self.thresholds_srgb8 = MaxwellThreeDRegister::programmed(value.raw(), value, source);
            },
        }
    }
}

impl Default for MaxwellThreeDColorReductionState {
    fn default() -> (r: MaxwellThreeDColorReductionState)
        ensures
            r.initial(),
    {
        MaxwellThreeDColorReductionState::unprogrammed()
    }
}

} // verus!
