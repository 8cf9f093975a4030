//! Tiled-cache registers.

use vstd::prelude::*;
use crate::register::{MaxwellMethodSource, MaxwellThreeDRegister};

verus! {

/// Tile dimensions of the tiled cache.
#[derive(Clone, Copy, Debug, PartialEq, Eq, Hash, Structural)]
pub struct MaxwellThreeDTiledCacheTileSize(pub u32);

impl MaxwellThreeDTiledCacheTileSize {
    #[must_use]
    pub fn from_raw(raw: u32) -> (r: MaxwellThreeDTiledCacheTileSize)
        ensures
            r.0 == raw,
    {
        MaxwellThreeDTiledCacheTileSize(raw)
    }

    pub open spec fn spec_raw(self) -> u32 {
        self.0
    }

    #[must_use]
    #[verifier::when_used_as_spec(spec_raw)]
    pub fn raw(self) -> (r: u32)
        ensures
            r == self.0,
    {
        self.0
    }

    /// Tile width.
    pub open spec fn spec_width(self) -> u16 {
        (self.0 & 0xffff) as u16
    }

    #[must_use]
    #[verifier::when_used_as_spec(spec_width)]
    pub fn width(self) -> (r: u16)
        ensures
            r == self.spec_width(),
    {
        (self.0 & 0xffff) as u16
    }

    /// Tile height.
    pub open spec fn spec_height(self) -> u16 {
        (self.0 >> 16) as u16
    }

    #[must_use]
    #[verifier::when_used_as_spec(spec_height)]
    pub fn height(self) -> (r: u16)
        ensures
            r == self.spec_height(),
    {
        (self.0 >> 16) as u16
    }
}

/// Configuration word without a published meaning.
#[derive(Clone, Copy, Debug, PartialEq, Eq, Hash, Structural)]
pub struct MaxwellThreeDTiledCacheUnknownConfig(pub u32);

impl MaxwellThreeDTiledCacheUnknownConfig {
    #[must_use]
    pub fn from_bits(bits: u32) -> (r: MaxwellThreeDTiledCacheUnknownConfig)
        ensures
            r.0 == bits,
    {
        MaxwellThreeDTiledCacheUnknownConfig(bits)
    }

    pub open spec fn spec_bits(self) -> u32 {
        self.0
    }

    #[must_use]
    #[verifier::when_used_as_spec(spec_bits)]
    pub fn bits(self) -> (r: u32)
        ensures
            r == self.0,
    {
        self.0
    }
}

/// Extent of one tiled-cache flush.
#[derive(Clone, Copy, Debug, PartialEq, Eq, Hash, Structural)]
pub enum MaxwellThreeDTiledCacheFlushMode {
    Flush,
    Alternate,
}

impl MaxwellThreeDTiledCacheFlushMode {
    /// Field encoding of each value.
    pub open spec fn spec_raw(self) -> u32 {
        match self {
            MaxwellThreeDTiledCacheFlushMode::Flush => 0,
            MaxwellThreeDTiledCacheFlushMode::Alternate => 1,
        }
    }

    /// Value of each defined encoding.
    pub open spec fn spec_parse(raw: u32) -> Option<MaxwellThreeDTiledCacheFlushMode> {
        if raw == 0 {
            Some(MaxwellThreeDTiledCacheFlushMode::Flush)
        } else if raw == 1 {
            Some(MaxwellThreeDTiledCacheFlushMode::Alternate)
        } else {
            None
        }
    }

    #[verifier::when_used_as_spec(spec_parse)]
    pub fn parse(raw: u32) -> (r: Option<MaxwellThreeDTiledCacheFlushMode>)
        ensures
            r == MaxwellThreeDTiledCacheFlushMode::spec_parse(raw),
    {
        match raw {
            0 => Some(MaxwellThreeDTiledCacheFlushMode::Flush),
            1 => Some(MaxwellThreeDTiledCacheFlushMode::Alternate),
            _ => None,
        }
    }

    #[must_use]
    #[verifier::when_used_as_spec(spec_raw)]
    pub fn raw(self) -> (r: u32)
        ensures
            r == self.spec_raw(),
    {
        match self {
            MaxwellThreeDTiledCacheFlushMode::Flush => 0,
            MaxwellThreeDTiledCacheFlushMode::Alternate => 1,
        }
    }

    /// Decoding and encoding are inverse: a word decodes to a value exactly
    /// when it is the encoding of that value.
    pub proof fn law_codec(raw: u32, value: MaxwellThreeDTiledCacheFlushMode)
        ensures
            MaxwellThreeDTiledCacheFlushMode::spec_parse(raw) == Some(value) <==> value.spec_raw() == raw,
    {
    }
}

/// One validated tiled-cache transition.
#[derive(Clone, Copy, Debug, PartialEq, Eq, Hash, Structural)]
#[allow(inconsistent_fields)]
pub enum MaxwellThreeDTiledCacheStateWrite {
    Enable { value: bool, source: MaxwellMethodSource },
    TileSize { value: MaxwellThreeDTiledCacheTileSize, source: MaxwellMethodSource },
    UnknownConfig { index: u8, value: MaxwellThreeDTiledCacheUnknownConfig, source: MaxwellMethodSource },
}

impl MaxwellThreeDTiledCacheStateWrite {
    /// Array indices are in range.
    pub open spec fn wf(self) -> bool {
        match self {
            MaxwellThreeDTiledCacheStateWrite::UnknownConfig { index, .. } => index < 4,
            _ => true,
        }
    }
}

/// Tiled-cache registers.
#[derive(Clone, Copy, Debug, PartialEq, Eq)]
pub struct MaxwellThreeDTiledCacheState {
    pub enabled: MaxwellThreeDRegister<bool>,
    pub tile_size: MaxwellThreeDRegister<MaxwellThreeDTiledCacheTileSize>,
    pub unknown_config: [MaxwellThreeDRegister<MaxwellThreeDTiledCacheUnknownConfig>; 4],
}

impl MaxwellThreeDTiledCacheState {
    /// State before any method is decoded.
    pub open spec fn initial(self) -> bool {
        &&& self.enabled == MaxwellThreeDRegister::<bool>::unset()
        &&& self.tile_size == MaxwellThreeDRegister::<MaxwellThreeDTiledCacheTileSize>::unset()
        &&& forall|i: int| 0 <= i < 4 ==> self.unknown_config[i] == MaxwellThreeDRegister::<MaxwellThreeDTiledCacheUnknownConfig>::unset()
    }

    /// State after one transition: the addressed register holds the written word,
    /// its value and its source, and every other register is unchanged.
    pub open spec fn written(self, write: MaxwellThreeDTiledCacheStateWrite) -> MaxwellThreeDTiledCacheState {
        match write {
            MaxwellThreeDTiledCacheStateWrite::Enable { value, source } => MaxwellThreeDTiledCacheState {
                enabled: MaxwellThreeDRegister::programmed(source.argument(), value, source),
                ..self
            },
            MaxwellThreeDTiledCacheStateWrite::TileSize { value, source } => MaxwellThreeDTiledCacheState {
                tile_size: MaxwellThreeDRegister::programmed(source.argument(), value, source),
                ..self
            },
            MaxwellThreeDTiledCacheStateWrite::UnknownConfig { index, value, source } => MaxwellThreeDTiledCacheState {
                unknown_config: vstd::array::spec_array_update(
                    self.unknown_config,
                    index as int,
                    MaxwellThreeDRegister::programmed(source.argument(), value, source),
                ),
                ..self
            },
        }
    }

    #[must_use]
    pub fn enabled(&self) -> (r: &MaxwellThreeDRegister<bool>)
        ensures
            *r == self.enabled,
    {
        &self.enabled
    }

    #[must_use]
    pub fn tile_size(&self) -> (r: &MaxwellThreeDRegister<MaxwellThreeDTiledCacheTileSize>)
        ensures
            *r == self.tile_size,
    {
        &self.tile_size
    }

    #[must_use]
    pub fn unknown_config(&self, index: u8) -> (r: &MaxwellThreeDRegister<MaxwellThreeDTiledCacheUnknownConfig>)
        requires
            index < 4,
        ensures
            *r == self.unknown_config[index as int],
    {
        &self.unknown_config[index as usize]
    }

    /// State with every register unset.
    #[must_use]
    pub fn unprogrammed() -> (r: MaxwellThreeDTiledCacheState)
        ensures
            r.initial(),
    {
        MaxwellThreeDTiledCacheState {
            enabled: MaxwellThreeDRegister::unset(),
            tile_size: MaxwellThreeDRegister::unset(),
            unknown_config: [
                MaxwellThreeDRegister::unset(),
                MaxwellThreeDRegister::unset(),
                MaxwellThreeDRegister::unset(),
                MaxwellThreeDRegister::unset(),
            ],
        }
    }

    pub fn apply(&mut self, write: MaxwellThreeDTiledCacheStateWrite)
        requires
            write.wf(),
        ensures
            *final(self) == old(self).written(write),
    {
        match write {
            MaxwellThreeDTiledCacheStateWrite::Enable { value, source } => {
                self.enabled = MaxwellThreeDRegister::programmed(source.argument(), value, source);
            },
            MaxwellThreeDTiledCacheStateWrite::TileSize { value, source } => {
                self.tile_size = MaxwellThreeDRegister::programmed(source.argument(), value, source);
            },
            MaxwellThreeDTiledCacheStateWrite::UnknownConfig { index, value, source } => {
                self.unknown_config[index as usize] = MaxwellThreeDRegister::programmed(source.argument(), value, source);
            },
        }
    }
}

impl Default for MaxwellThreeDTiledCacheState {
    fn default() -> (r: MaxwellThreeDTiledCacheState)
        ensures
            r.initial(),
    {
        MaxwellThreeDTiledCacheState::unprogrammed()
    }
}

} // verus!
