//! Embedded inline-to-memory registers.
//!
//! Bit zero of the launch word selects block-linear at zero and pitch at one.

use vstd::prelude::*;
use crate::dispatch_error::{invalid_encoding, MaxwellEngineDispatchError};
use crate::register::{GpuMethodId, MaxwellMethodSource, MaxwellThreeDRegister};

verus! {

/// Destination layout of an upload.
#[derive(Clone, Copy, Debug, PartialEq, Eq, Hash, Structural)]
pub enum MaxwellThreeDInlineToMemoryLayout {
    BlockLinear,
    Pitch,
}

/// Completion behavior of an upload.
#[derive(Clone, Copy, Debug, PartialEq, Eq, Hash, Structural)]
pub enum MaxwellThreeDInlineToMemoryCompletion {
    FlushDisabled,
    FlushOnly,
}

/// Validated launch configuration.
#[derive(Clone, Copy, Debug, PartialEq, Eq, Hash, Structural)]
pub struct MaxwellThreeDInlineToMemoryLaunch {
    pub layout: MaxwellThreeDInlineToMemoryLayout,
    pub completion: MaxwellThreeDInlineToMemoryCompletion,
    pub system_memory_barrier_disabled: bool,
}

impl MaxwellThreeDInlineToMemoryLaunch {
    #[must_use]
    pub fn layout(self) -> (r: MaxwellThreeDInlineToMemoryLayout)
        ensures
            r == self.layout,
    {
        self.layout
    }

    #[must_use]
    pub fn completion(self) -> (r: MaxwellThreeDInlineToMemoryCompletion)
        ensures
            r == self.completion,
    {
        self.completion
    }

    #[must_use]
    pub fn system_memory_barrier_disabled(self) -> (r: bool)
        ensures
            r == self.system_memory_barrier_disabled,
    {
        self.system_memory_barrier_disabled
    }
}

/// A 40-bit destination address.
#[derive(Clone, Copy, Debug, PartialEq, Eq, Hash, Structural)]
pub struct MaxwellInlineToMemoryAddress(pub u64);

impl MaxwellInlineToMemoryAddress {
    pub open spec fn wf(self) -> bool {
        self.0 < 0x100_0000_0000
    }

    /// Address of an upper and a lower word; the upper word has eight bits.
    #[must_use]
    pub fn new(upper: u32, lower: u32) -> (r: Option<MaxwellInlineToMemoryAddress>)
        ensures
            r is Some <==> upper <= 0xff,
            r matches Some(address) ==> address.0 == upper * 0x1_0000_0000 + lower && address.wf(),
    {
        if upper <= 0xff {
            Some(MaxwellInlineToMemoryAddress(upper as u64 * 0x1_0000_0000 + lower as u64))
        } else {
            None
        }
    }

    #[must_use]
    pub fn get(self) -> (r: u64)
        ensures
            r == self.0,
    {
        self.0
    }
}

/// One inline word awaiting execution against guest memory.
#[derive(Clone, Copy, Debug, PartialEq, Eq, Hash, Structural)]
pub struct MaxwellInlineToMemoryUpload {
    pub address: MaxwellInlineToMemoryAddress,
    pub offset: u32,
    pub value: u32,
    pub source: MaxwellMethodSource,
}

impl MaxwellInlineToMemoryUpload {
    #[must_use]
    pub fn new(address: MaxwellInlineToMemoryAddress, offset: u32, value: u32, source: MaxwellMethodSource) -> (r: MaxwellInlineToMemoryUpload)
        ensures
            r == (MaxwellInlineToMemoryUpload { address, offset, value, source }),
    {
        MaxwellInlineToMemoryUpload { address, offset, value, source }
    }

    #[must_use]
    pub fn address(self) -> (r: MaxwellInlineToMemoryAddress)
        ensures
            r == self.address,
    {
        self.address
    }

    #[must_use]
    pub fn offset(self) -> (r: u32)
        ensures
            r == self.offset,
    {
        self.offset
    }

    #[must_use]
    pub fn value(self) -> (r: u32)
        ensures
            r == self.value,
    {
        self.value
    }

    #[must_use]
    pub fn source(self) -> (r: MaxwellMethodSource)
        ensures
            r == self.source,
    {
        self.source
    }
}

/// An armed transfer and the byte offset of its next word.
#[derive(Clone, Copy, Debug, PartialEq, Eq, Hash, Structural)]
pub struct PendingTransfer {
    pub address: MaxwellInlineToMemoryAddress,
    pub byte_length: u32,
    pub next_offset: u32,
}

impl PendingTransfer {
    /// The transfer is word sized, unfinished, and ends inside the address space.
    pub open spec fn wf(self) -> bool {
        &&& self.byte_length % 4 == 0
        &&& self.next_offset % 4 == 0
        &&& self.next_offset < self.byte_length
        &&& self.address.0 + self.byte_length <= 0x100_0000_0000
    }
}

/// One checked transition of the upload registers.
#[derive(Clone, Copy, Debug, PartialEq, Eq, Hash, Structural)]
#[allow(inconsistent_fields)]
pub enum MaxwellThreeDInlineToMemoryStateWrite {
    LineLength { value: u32, source: MaxwellMethodSource },
    LineCount { value: u32, source: MaxwellMethodSource },
    AddressUpper { value: u8, source: MaxwellMethodSource },
    AddressLower { value: u32, source: MaxwellMethodSource },
    Pitch { value: u32, source: MaxwellMethodSource },
    BlockSize { value: u32, source: MaxwellMethodSource },
    Width { value: u32, source: MaxwellMethodSource },
    Height { value: u32, source: MaxwellMethodSource },
    Depth { value: u32, source: MaxwellMethodSource },
    Layer { value: u32, source: MaxwellMethodSource },
    OriginX { value: u32, source: MaxwellMethodSource },
    OriginY { value: u32, source: MaxwellMethodSource },
    Launch {
        value: MaxwellThreeDInlineToMemoryLaunch,
        address: MaxwellInlineToMemoryAddress,
        byte_length: u32,
        source: MaxwellMethodSource,
    },
    Data { value: u32, next_offset: u32, source: MaxwellMethodSource },
}

/// Persistent upload setup and stream cursor.
#[derive(Clone, Copy, Debug, PartialEq, Eq)]
pub struct MaxwellThreeDInlineToMemoryState {
    pub line_length: MaxwellThreeDRegister<u32>,
    pub line_count: MaxwellThreeDRegister<u32>,
    pub address_upper: MaxwellThreeDRegister<u8>,
    pub address_lower: MaxwellThreeDRegister<u32>,
    pub pitch: MaxwellThreeDRegister<u32>,
    pub block_size: MaxwellThreeDRegister<u32>,
    pub width: MaxwellThreeDRegister<u32>,
    pub height: MaxwellThreeDRegister<u32>,
    pub depth: MaxwellThreeDRegister<u32>,
    pub layer: MaxwellThreeDRegister<u32>,
    pub origin_x: MaxwellThreeDRegister<u32>,
    pub origin_y: MaxwellThreeDRegister<u32>,
    pub launch: MaxwellThreeDRegister<MaxwellThreeDInlineToMemoryLaunch>,
    pub last_data: MaxwellThreeDRegister<u32>,
    pub pending: Option<PendingTransfer>,
}

impl MaxwellThreeDInlineToMemoryState {
    /// Layout registers reset to zero; sizes and addresses are unset.
    pub open spec fn initial(self) -> bool {
        &&& self.line_length == MaxwellThreeDRegister::<u32>::spec_unset()
        &&& self.line_count == MaxwellThreeDRegister::<u32>::spec_unset()
        &&& self.address_upper == MaxwellThreeDRegister::<u8>::spec_unset()
        &&& self.address_lower == MaxwellThreeDRegister::<u32>::spec_unset()
        &&& self.pitch == MaxwellThreeDRegister::spec_verified_reset(0, Some(0u32))
        &&& self.block_size == MaxwellThreeDRegister::spec_verified_reset(0, Some(0u32))
        &&& self.width == MaxwellThreeDRegister::spec_verified_reset(0, Some(0u32))
        &&& self.height == MaxwellThreeDRegister::spec_verified_reset(0, Some(0u32))
        &&& self.depth == MaxwellThreeDRegister::spec_verified_reset(0, Some(0u32))
        &&& self.layer == MaxwellThreeDRegister::spec_verified_reset(0, Some(0u32))
        &&& self.origin_x == MaxwellThreeDRegister::spec_verified_reset(0, Some(0u32))
        &&& self.origin_y == MaxwellThreeDRegister::spec_verified_reset(0, Some(0u32))
        &&& self.launch == MaxwellThreeDRegister::<MaxwellThreeDInlineToMemoryLaunch>::spec_unset()
        &&& self.last_data == MaxwellThreeDRegister::<u32>::spec_unset()
        &&& self.pending is None
    }

    /// A pending transfer is well formed.
    pub open spec fn wf(self) -> bool {
        self.pending matches Some(pending) ==> pending.wf()
    }

    #[must_use]
    pub fn unprogrammed() -> (r: MaxwellThreeDInlineToMemoryState)
        ensures
            r.initial(),
            r.wf(),
    {
        MaxwellThreeDInlineToMemoryState {
            line_length: MaxwellThreeDRegister::unset(),
            line_count: MaxwellThreeDRegister::unset(),
            address_upper: MaxwellThreeDRegister::unset(),
            address_lower: MaxwellThreeDRegister::unset(),
            pitch: MaxwellThreeDRegister::verified_reset(0, Some(0)),
            block_size: MaxwellThreeDRegister::verified_reset(0, Some(0)),
            width: MaxwellThreeDRegister::verified_reset(0, Some(0)),
            height: MaxwellThreeDRegister::verified_reset(0, Some(0)),
            depth: MaxwellThreeDRegister::verified_reset(0, Some(0)),
            layer: MaxwellThreeDRegister::verified_reset(0, Some(0)),
            origin_x: MaxwellThreeDRegister::verified_reset(0, Some(0)),
            origin_y: MaxwellThreeDRegister::verified_reset(0, Some(0)),
            launch: MaxwellThreeDRegister::unset(),
            last_data: MaxwellThreeDRegister::unset(),
            pending: None,
        }
    }

    #[must_use]
    pub fn line_length(&self) -> (r: &MaxwellThreeDRegister<u32>)
        ensures
            *r == self.line_length,
    {
        &self.line_length
    }

    #[must_use]
    pub fn line_count(&self) -> (r: &MaxwellThreeDRegister<u32>)
        ensures
            *r == self.line_count,
    {
        &self.line_count
    }

    #[must_use]
    pub fn launch(&self) -> (r: &MaxwellThreeDRegister<MaxwellThreeDInlineToMemoryLaunch>)
        ensures
            *r == self.launch,
    {
        &self.launch
    }

    #[must_use]
    pub fn last_data(&self) -> (r: &MaxwellThreeDRegister<u32>)
        ensures
            *r == self.last_data,
    {
        &self.last_data
    }

    /// State after one transition. A launch arms a transfer at offset zero; a data
    /// word moves the cursor and disarms the transfer when it reaches the end.
    pub open spec fn written(self, write: MaxwellThreeDInlineToMemoryStateWrite) -> MaxwellThreeDInlineToMemoryState {
        match write {
            MaxwellThreeDInlineToMemoryStateWrite::LineLength { value, source } => MaxwellThreeDInlineToMemoryState { line_length: MaxwellThreeDRegister::programmed(value, value, source), ..self },
            MaxwellThreeDInlineToMemoryStateWrite::LineCount { value, source } => MaxwellThreeDInlineToMemoryState { line_count: MaxwellThreeDRegister::programmed(value, value, source), ..self },
            MaxwellThreeDInlineToMemoryStateWrite::AddressUpper { value, source } => MaxwellThreeDInlineToMemoryState { address_upper: MaxwellThreeDRegister::programmed(value as u32, value, source), ..self },
            MaxwellThreeDInlineToMemoryStateWrite::AddressLower { value, source } => MaxwellThreeDInlineToMemoryState { address_lower: MaxwellThreeDRegister::programmed(value, value, source), ..self },
            MaxwellThreeDInlineToMemoryStateWrite::Pitch { value, source } => MaxwellThreeDInlineToMemoryState { pitch: MaxwellThreeDRegister::programmed(value, value, source), ..self },
            MaxwellThreeDInlineToMemoryStateWrite::BlockSize { value, source } => MaxwellThreeDInlineToMemoryState { block_size: MaxwellThreeDRegister::programmed(value, value, source), ..self },
            MaxwellThreeDInlineToMemoryStateWrite::Width { value, source } => MaxwellThreeDInlineToMemoryState { width: MaxwellThreeDRegister::programmed(value, value, source), ..self },
            MaxwellThreeDInlineToMemoryStateWrite::Height { value, source } => MaxwellThreeDInlineToMemoryState { height: MaxwellThreeDRegister::programmed(value, value, source), ..self },
            MaxwellThreeDInlineToMemoryStateWrite::Depth { value, source } => MaxwellThreeDInlineToMemoryState { depth: MaxwellThreeDRegister::programmed(value, value, source), ..self },
            MaxwellThreeDInlineToMemoryStateWrite::Layer { value, source } => MaxwellThreeDInlineToMemoryState { layer: MaxwellThreeDRegister::programmed(value, value, source), ..self },
            MaxwellThreeDInlineToMemoryStateWrite::OriginX { value, source } => MaxwellThreeDInlineToMemoryState { origin_x: MaxwellThreeDRegister::programmed(value, value, source), ..self },
            MaxwellThreeDInlineToMemoryStateWrite::OriginY { value, source } => MaxwellThreeDInlineToMemoryState { origin_y: MaxwellThreeDRegister::programmed(value, value, source), ..self },
            MaxwellThreeDInlineToMemoryStateWrite::Launch { value, address, byte_length, source } => MaxwellThreeDInlineToMemoryState {
                launch: MaxwellThreeDRegister::programmed(source.argument, value, source),
                pending: Some(PendingTransfer { address, byte_length, next_offset: 0 }),
                ..self
            },
            MaxwellThreeDInlineToMemoryStateWrite::Data { value, next_offset, source } => MaxwellThreeDInlineToMemoryState {
                last_data: MaxwellThreeDRegister::programmed(value, value, source),
                pending: match self.pending {
                    Some(pending) if next_offset != pending.byte_length => Some(
                        PendingTransfer { next_offset, ..pending },
                    ),
                    _ => None,
                },
                ..self
            },
        }
    }

    pub fn apply(&mut self, write: MaxwellThreeDInlineToMemoryStateWrite)
        ensures
            *final(self) == old(self).written(write),
    {
        match write {
            MaxwellThreeDInlineToMemoryStateWrite::LineLength { value, source } => {
                self.line_length = MaxwellThreeDRegister::programmed(value, value, source);
            },
            MaxwellThreeDInlineToMemoryStateWrite::LineCount { value, source } => {
                self.line_count = MaxwellThreeDRegister::programmed(value, value, source);
            },
            MaxwellThreeDInlineToMemoryStateWrite::AddressUpper { value, source } => {
                self.address_upper = MaxwellThreeDRegister::programmed(value as u32, value, source);
            },
            MaxwellThreeDInlineToMemoryStateWrite::AddressLower { value, source } => {
                self.address_lower = MaxwellThreeDRegister::programmed(value, value, source);
            },
            MaxwellThreeDInlineToMemoryStateWrite::Pitch { value, source } => {
                self.pitch = MaxwellThreeDRegister::programmed(value, value, source);
            },
            MaxwellThreeDInlineToMemoryStateWrite::BlockSize { value, source } => {
                self.block_size = MaxwellThreeDRegister::programmed(value, value, source);
            },
            MaxwellThreeDInlineToMemoryStateWrite::Width { value, source } => {
                self.width = MaxwellThreeDRegister::programmed(value, value, source);
            },
            MaxwellThreeDInlineToMemoryStateWrite::Height { value, source } => {
                self.height = MaxwellThreeDRegister::programmed(value, value, source);
            },
            MaxwellThreeDInlineToMemoryStateWrite::Depth { value, source } => {
                self.depth = MaxwellThreeDRegister::programmed(value, value, source);
            },
            MaxwellThreeDInlineToMemoryStateWrite::Layer { value, source } => {
                self.layer = MaxwellThreeDRegister::programmed(value, value, source);
            },
            MaxwellThreeDInlineToMemoryStateWrite::OriginX { value, source } => {
                self.origin_x = MaxwellThreeDRegister::programmed(value, value, source);
            },
            MaxwellThreeDInlineToMemoryStateWrite::OriginY { value, source } => {
                self.origin_y = MaxwellThreeDRegister::programmed(value, value, source);
            },
            MaxwellThreeDInlineToMemoryStateWrite::Launch { value, address, byte_length, source } => {
                self.launch = MaxwellThreeDRegister::programmed(source.argument(), value, source);
                self.pending = Some(PendingTransfer { address, byte_length, next_offset: 0 });
            },
            MaxwellThreeDInlineToMemoryStateWrite::Data { value, next_offset, source } => {
                self.last_data = MaxwellThreeDRegister::programmed(value, value, source);
                self.pending = match self.pending {
                    Some(pending) => {
                        if next_offset != pending.byte_length {
                            Some(
                                PendingTransfer {
                                    address: pending.address,
                                    byte_length: pending.byte_length,
                                    next_offset,
                                },
                            )
                        } else {
                            None
                        }
                    },
                    None => None,
                };
            },
        }
    }
}

impl Default for MaxwellThreeDInlineToMemoryState {
    fn default() -> (r: MaxwellThreeDInlineToMemoryState)
        ensures
            r.initial(),
    {
        MaxwellThreeDInlineToMemoryState::unprogrammed()
    }
}

pub const LINE_LENGTH_IN: u32 = 0x0180;

pub const LINE_COUNT: u32 = 0x0184;

pub const OFFSET_OUT_UPPER: u32 = 0x0188;

pub const OFFSET_OUT: u32 = 0x018c;

pub const PITCH_OUT: u32 = 0x0190;

pub const SET_DST_BLOCK_SIZE: u32 = 0x0194;

pub const SET_DST_WIDTH: u32 = 0x0198;

pub const SET_DST_HEIGHT: u32 = 0x019c;

pub const SET_DST_DEPTH: u32 = 0x01a0;

pub const SET_DST_LAYER: u32 = 0x01a4;

pub const SET_DST_ORIGIN_BYTES_X: u32 = 0x01a8;

pub const SET_DST_ORIGIN_SAMPLES_Y: u32 = 0x01ac;

pub const LAUNCH_DMA: u32 = 0x01b0;

pub const LOAD_INLINE_DATA: u32 = 0x01b4;

/// Name of each method of the family.
pub open spec fn spec_method_name(method: GpuMethodId) -> Option<&'static str> {
    match method.0 {
        0x0180 => Some("LINE_LENGTH_IN"),
        0x0184 => Some("LINE_COUNT"),
        0x0188 => Some("OFFSET_OUT_UPPER"),
        0x018c => Some("OFFSET_OUT"),
        0x0190 => Some("PITCH_OUT"),
        0x0194 => Some("SET_DST_BLOCK_SIZE"),
        0x0198 => Some("SET_DST_WIDTH"),
        0x019c => Some("SET_DST_HEIGHT"),
        0x01a0 => Some("SET_DST_DEPTH"),
        0x01a4 => Some("SET_DST_LAYER"),
        0x01a8 => Some("SET_DST_ORIGIN_BYTES_X"),
        0x01ac => Some("SET_DST_ORIGIN_SAMPLES_Y"),
        0x01b0 => Some("LAUNCH_DMA"),
        0x01b4 => Some("LOAD_INLINE_DATA"),
        _ => None,
    }
}

#[verifier::when_used_as_spec(spec_method_name)]
pub fn method_name(method: GpuMethodId) -> (r: Option<&'static str>)
    ensures
        r == spec_method_name(method),
{
    match method.0 {
        LINE_LENGTH_IN => Some("LINE_LENGTH_IN"),
        LINE_COUNT => Some("LINE_COUNT"),
        OFFSET_OUT_UPPER => Some("OFFSET_OUT_UPPER"),
        OFFSET_OUT => Some("OFFSET_OUT"),
        PITCH_OUT => Some("PITCH_OUT"),
        SET_DST_BLOCK_SIZE => Some("SET_DST_BLOCK_SIZE"),
        SET_DST_WIDTH => Some("SET_DST_WIDTH"),
        SET_DST_HEIGHT => Some("SET_DST_HEIGHT"),
        SET_DST_DEPTH => Some("SET_DST_DEPTH"),
        SET_DST_LAYER => Some("SET_DST_LAYER"),
        SET_DST_ORIGIN_BYTES_X => Some("SET_DST_ORIGIN_BYTES_X"),
        SET_DST_ORIGIN_SAMPLES_Y => Some("SET_DST_ORIGIN_SAMPLES_Y"),
        LAUNCH_DMA => Some("LAUNCH_DMA"),
        LOAD_INLINE_DATA => Some("LOAD_INLINE_DATA"),
        _ => None,
    }
}

/// Register field written by a setup method, if the word fits the field.
pub open spec fn setup_write(source: MaxwellMethodSource) -> Option<MaxwellThreeDInlineToMemoryStateWrite> {
    let raw = source.argument;
    match source.method.0 {
        0x0180 => Some(MaxwellThreeDInlineToMemoryStateWrite::LineLength { value: raw, source }),
        0x0184 => Some(MaxwellThreeDInlineToMemoryStateWrite::LineCount { value: raw, source }),
        0x0188 => if raw <= 0xff {
            Some(MaxwellThreeDInlineToMemoryStateWrite::AddressUpper { value: raw as u8, source })
        } else {
            None
        },
        0x018c => Some(MaxwellThreeDInlineToMemoryStateWrite::AddressLower { value: raw, source }),
        0x0190 => Some(MaxwellThreeDInlineToMemoryStateWrite::Pitch { value: raw, source }),
        0x0194 => if raw & !0x0000_0fffu32 == 0 {
            Some(MaxwellThreeDInlineToMemoryStateWrite::BlockSize { value: raw, source })
        } else {
            None
        },
        0x0198 => Some(MaxwellThreeDInlineToMemoryStateWrite::Width { value: raw, source }),
        0x019c => Some(MaxwellThreeDInlineToMemoryStateWrite::Height { value: raw, source }),
        0x01a0 => Some(MaxwellThreeDInlineToMemoryStateWrite::Depth { value: raw, source }),
        0x01a4 => Some(MaxwellThreeDInlineToMemoryStateWrite::Layer { value: raw, source }),
        0x01a8 => if raw <= 0x000f_ffff {
            Some(MaxwellThreeDInlineToMemoryStateWrite::OriginX { value: raw, source })
        } else {
            None
        },
        0x01ac => if raw <= 0xffff {
            Some(MaxwellThreeDInlineToMemoryStateWrite::OriginY { value: raw, source })
        } else {
            None
        },
        _ => None,
    }
}

/// Reason for which a setup method refuses a word that does not fit its field.
pub open spec fn setup_reason(method: GpuMethodId) -> &'static str {
    match method.0 {
        0x0188 => "address upper exceeds its eight-bit field",
        0x0194 => "block-size fields set undefined bits",
        0x01a8 => "origin exceeds its twenty-bit field",
        0x01ac => "origin exceeds its sixteen-bit field",
        _ => "",
    }
}

/// First unmet precondition of a launch, in the order in which they are checked.
pub open spec fn launch_refusal(raw: u32, state: MaxwellThreeDInlineToMemoryState) -> Option<
    &'static str,
> {
    if raw & !0x51u32 != 0 {
        Some("completion, interrupt, reduction, and semaphore modes are not implemented")
    } else if state.pending is Some {
        Some("cannot replace an incomplete inline upload")
    } else if state.line_length.value is None {
        Some("launch requires LINE_LENGTH_IN")
    } else if state.line_count.value is None {
        Some("launch requires LINE_COUNT")
    } else if state.line_length.value->0 == 0 || state.line_length.value->0 % 4 != 0 {
        Some("line length must be nonzero and word-aligned")
    } else if state.line_count.value->0 != 1 {
        Some("multi-line embedded uploads are not implemented")
    } else if state.address_upper.value is None {
        Some("launch requires OFFSET_OUT_UPPER")
    } else if state.address_lower.value is None {
        Some("launch requires OFFSET_OUT")
    } else if launch_address(state) + state.line_length.value->0 > 0x100_0000_0000 {
        Some("destination range overflows")
    } else if raw & 1 == 0 && !(state.line_length.value->0 <= 64 && state.block_size.value == Some(
        0u32,
    ) && state.layer.value == Some(0u32) && state.origin_x.value == Some(0u32)
        && state.origin_y.value == Some(0u32)) {
        Some("only one contiguous row of the first block-linear GOB is implemented")
    } else {
        None
    }
}

/// Destination of a launch.
pub open spec fn launch_address(state: MaxwellThreeDInlineToMemoryState) -> int {
    state.address_upper.value->0 * 0x1_0000_0000 + state.address_lower.value->0
}

/// Configuration held in a launch word: pitch layout in bit 0, flush on
/// completion in bit 4, barrier disable in bit 6.
pub open spec fn launch_configuration(raw: u32) -> MaxwellThreeDInlineToMemoryLaunch {
    MaxwellThreeDInlineToMemoryLaunch {
        layout: if raw & 1 == 0 {
            MaxwellThreeDInlineToMemoryLayout::BlockLinear
        } else {
            MaxwellThreeDInlineToMemoryLayout::Pitch
        },
        completion: if raw & 0x10 == 0 {
            MaxwellThreeDInlineToMemoryCompletion::FlushDisabled
        } else {
            MaxwellThreeDInlineToMemoryCompletion::FlushOnly
        },
        system_memory_barrier_disabled: raw & 0x40 != 0,
    }
}

/// A decoded method: its transition, its name and the word it uploads.
pub type InlineToMemoryMethod = (
    MaxwellThreeDInlineToMemoryStateWrite,
    &'static str,
    Option<MaxwellInlineToMemoryUpload>,
);

pub open spec fn spec_preflight_launch(
    source: MaxwellMethodSource,
    state: MaxwellThreeDInlineToMemoryState,
) -> Result<InlineToMemoryMethod, MaxwellEngineDispatchError> {
    match launch_refusal(source.argument, state) {
        Some(reason) => Err(invalid_encoding(source, "LAUNCH_DMA", reason)),
        None => Ok(
            (
                MaxwellThreeDInlineToMemoryStateWrite::Launch {
                    value: launch_configuration(source.argument),
                    address: MaxwellInlineToMemoryAddress(launch_address(state) as u64),
                    byte_length: state.line_length.value->0,
                    source,
                },
                "LAUNCH_DMA",
                None,
            ),
        ),
    }
}

pub open spec fn spec_preflight_data(
    source: MaxwellMethodSource,
    state: MaxwellThreeDInlineToMemoryState,
) -> Result<InlineToMemoryMethod, MaxwellEngineDispatchError> {
    match state.pending {
        None => Err(
            invalid_encoding(
                source,
                "LOAD_INLINE_DATA",
                "inline data requires an armed LAUNCH_DMA transfer",
            ),
        ),
        Some(pending) => if pending.next_offset + 4 > u32::MAX {
            Err(
                invalid_encoding(
                    source,
                    "LOAD_INLINE_DATA",
                    "inline upload cursor overflows",
                ),
            )
        } else if pending.next_offset + 4 > pending.byte_length {
            Err(
                invalid_encoding(
                    source,
                    "LOAD_INLINE_DATA",
                    "inline data exceeds the armed transfer length",
                ),
            )
        } else {
            Ok(
                (
                    MaxwellThreeDInlineToMemoryStateWrite::Data {
                        value: source.argument,
                        next_offset: (pending.next_offset + 4) as u32,
                        source,
                    },
                    "LOAD_INLINE_DATA",
                    Some(
                        MaxwellInlineToMemoryUpload {
                            address: pending.address,
                            offset: pending.next_offset,
                            value: source.argument,
                            source,
                        },
                    ),
                ),
            )
        },
    }
}

/// Decoding of one method against the current state: `Ok(None)` outside the
/// family, otherwise the transition or the refusal.
pub open spec fn spec_preflight(
    source: MaxwellMethodSource,
    state: MaxwellThreeDInlineToMemoryState,
) -> Result<Option<InlineToMemoryMethod>, MaxwellEngineDispatchError> {
    if source.method.0 == LAUNCH_DMA {
        match spec_preflight_launch(source, state) {
            Ok(method) => Ok(Some(method)),
            Err(error) => Err(error),
        }
    } else if source.method.0 == LOAD_INLINE_DATA {
        match spec_preflight_data(source, state) {
            Ok(method) => Ok(Some(method)),
            Err(error) => Err(error),
        }
    } else {
        match spec_method_name(source.method) {
            None => Ok(None),
            Some(name) => match setup_write(source) {
                Some(write) => Ok(Some((write, name, None))),
                None => Err(invalid_encoding(source, name, setup_reason(source.method))),
            },
        }
    }
}

pub fn preflight_launch(source: MaxwellMethodSource, state: &MaxwellThreeDInlineToMemoryState) -> (r:
    Result<InlineToMemoryMethod, MaxwellEngineDispatchError>)
    ensures
        r == spec_preflight_launch(source, *state),
{
    let raw: u32 = source.argument();
    if raw & !0x51u32 != 0 {
        return Err(
            invalid_encoding(
                source,
                "LAUNCH_DMA",
                "completion, interrupt, reduction, and semaphore modes are not implemented",
            ),
        );
    }
    if state.pending.is_some() {
        return Err(
            invalid_encoding(source, "LAUNCH_DMA", "cannot replace an incomplete inline upload"),
        );
    }
    let line_length: u32 = match state.line_length.value {
        Some(value) => value,
        None => {
            return Err(invalid_encoding(source, "LAUNCH_DMA", "launch requires LINE_LENGTH_IN"));
        },
    };
    let line_count: u32 = match state.line_count.value {
        Some(value) => value,
        None => {
            return Err(invalid_encoding(source, "LAUNCH_DMA", "launch requires LINE_COUNT"));
        },
    };
    if line_length == 0 || line_length % 4 != 0 {
        return Err(
            invalid_encoding(source, "LAUNCH_DMA", "line length must be nonzero and word-aligned"),
        );
    }
    if line_count != 1 {
        return Err(
            invalid_encoding(
                source,
                "LAUNCH_DMA",
                "multi-line embedded uploads are not implemented",
            ),
        );
    }
    let upper: u8 = match state.address_upper.value {
        Some(value) => value,
        None => {
            return Err(invalid_encoding(source, "LAUNCH_DMA", "launch requires OFFSET_OUT_UPPER"));
        },
    };
    let lower: u32 = match state.address_lower.value {
        Some(value) => value,
        None => {
            return Err(invalid_encoding(source, "LAUNCH_DMA", "launch requires OFFSET_OUT"));
        },
    };
    let address = match MaxwellInlineToMemoryAddress::new(upper as u32, lower) {
        Some(address) => address,
        None => {
            return Err(
                invalid_encoding(
                    source,
                    "LAUNCH_DMA",
                    "destination exceeds the Switch 1 GPU address space",
                ),
            );
        },
    };
    if address.get() + line_length as u64 > 0x100_0000_0000 {
        return Err(invalid_encoding(source, "LAUNCH_DMA", "destination range overflows"));
    }
    let layout = if raw & 1 == 0 {
        if line_length > 64 || !register_is_zero(&state.block_size) || !register_is_zero(
            &state.layer,
        ) || !register_is_zero(&state.origin_x) || !register_is_zero(&state.origin_y) {
            return Err(
                invalid_encoding(
                    source,
                    "LAUNCH_DMA",
                    "only one contiguous row of the first block-linear GOB is implemented",
                ),
            );
        }
        MaxwellThreeDInlineToMemoryLayout::BlockLinear
    } else {
        MaxwellThreeDInlineToMemoryLayout::Pitch
    };
    let value = MaxwellThreeDInlineToMemoryLaunch {
        layout,
        completion: if raw & 0x10 == 0 {
            MaxwellThreeDInlineToMemoryCompletion::FlushDisabled
        } else {
            MaxwellThreeDInlineToMemoryCompletion::FlushOnly
        },
        system_memory_barrier_disabled: raw & 0x40 != 0,
    };
    Ok(
        (
            MaxwellThreeDInlineToMemoryStateWrite::Launch {
                value,
                address,
                byte_length: line_length,
                source,
            },
            "LAUNCH_DMA",
            None,
        ),
    )
}

fn register_is_zero(register: &MaxwellThreeDRegister<u32>) -> (r: bool)
    ensures
        r == (register.value == Some(0u32)),
{
    match register.value {
        Some(value) => value == 0,
        None => false,
    }
}

pub fn preflight_data(source: MaxwellMethodSource, state: &MaxwellThreeDInlineToMemoryState) -> (r:
    Result<InlineToMemoryMethod, MaxwellEngineDispatchError>)
    ensures
        r == spec_preflight_data(source, *state),
{
    let pending = match state.pending {
        Some(pending) => pending,
        None => {
            return Err(
                invalid_encoding(
                    source,
                    "LOAD_INLINE_DATA",
                    "inline data requires an armed LAUNCH_DMA transfer",
                ),
            );
        },
    };
    let next_offset: u32 = match pending.next_offset.checked_add(4) {
        Some(next_offset) => next_offset,
        None => {
            return Err(
                invalid_encoding(source, "LOAD_INLINE_DATA", "inline upload cursor overflows"),
            );
        },
    };
    if next_offset > pending.byte_length {
        return Err(
            invalid_encoding(
                source,
                "LOAD_INLINE_DATA",
                "inline data exceeds the armed transfer length",
            ),
        );
    }
    let upload = MaxwellInlineToMemoryUpload::new(
        pending.address,
        pending.next_offset,
        source.argument(),
        source,
    );
    Ok(
        (
            MaxwellThreeDInlineToMemoryStateWrite::Data {
                value: source.argument(),
                next_offset,
                source,
            },
            "LOAD_INLINE_DATA",
            Some(upload),
        ),
    )
}

pub fn preflight(source: MaxwellMethodSource, state: &MaxwellThreeDInlineToMemoryState) -> (r:
    Result<Option<InlineToMemoryMethod>, MaxwellEngineDispatchError>)
    ensures
        r == spec_preflight(source, *state),
{
    let raw: u32 = source.argument();
    let (write, name): (MaxwellThreeDInlineToMemoryStateWrite, &'static str) = match source.method().0 {
        LINE_LENGTH_IN => (MaxwellThreeDInlineToMemoryStateWrite::LineLength { value: raw, source }, "LINE_LENGTH_IN"),
        LINE_COUNT => (MaxwellThreeDInlineToMemoryStateWrite::LineCount { value: raw, source }, "LINE_COUNT"),
        OFFSET_OUT_UPPER => {
            if !(raw <= 0xff) {
                return Err(
                    invalid_encoding(
                        source,
                        "OFFSET_OUT_UPPER",
                        "address upper exceeds its eight-bit field",
                    ),
                );
            }
            (MaxwellThreeDInlineToMemoryStateWrite::AddressUpper { value: raw as u8, source }, "OFFSET_OUT_UPPER")
        },
        OFFSET_OUT => (MaxwellThreeDInlineToMemoryStateWrite::AddressLower { value: raw, source }, "OFFSET_OUT"),
        PITCH_OUT => (MaxwellThreeDInlineToMemoryStateWrite::Pitch { value: raw, source }, "PITCH_OUT"),
        SET_DST_BLOCK_SIZE => {
            if !(raw & !0x0000_0fffu32 == 0) {
                return Err(
                    invalid_encoding(
                        source,
                        "SET_DST_BLOCK_SIZE",
                        "block-size fields set undefined bits",
                    ),
                );
            }
            (MaxwellThreeDInlineToMemoryStateWrite::BlockSize { value: raw, source }, "SET_DST_BLOCK_SIZE")
        },
        SET_DST_WIDTH => (MaxwellThreeDInlineToMemoryStateWrite::Width { value: raw, source }, "SET_DST_WIDTH"),
        SET_DST_HEIGHT => (MaxwellThreeDInlineToMemoryStateWrite::Height { value: raw, source }, "SET_DST_HEIGHT"),
        SET_DST_DEPTH => (MaxwellThreeDInlineToMemoryStateWrite::Depth { value: raw, source }, "SET_DST_DEPTH"),
        SET_DST_LAYER => (MaxwellThreeDInlineToMemoryStateWrite::Layer { value: raw, source }, "SET_DST_LAYER"),
        SET_DST_ORIGIN_BYTES_X => {
            if !(raw <= 0x000f_ffff) {
                return Err(
                    invalid_encoding(
                        source,
                        "SET_DST_ORIGIN_BYTES_X",
                        "origin exceeds its twenty-bit field",
                    ),
                );
            }
            (MaxwellThreeDInlineToMemoryStateWrite::OriginX { value: raw, source }, "SET_DST_ORIGIN_BYTES_X")
        },
        SET_DST_ORIGIN_SAMPLES_Y => {
            if !(raw <= 0xffff) {
                return Err(
                    invalid_encoding(
                        source,
                        "SET_DST_ORIGIN_SAMPLES_Y",
                        "origin exceeds its sixteen-bit field",
                    ),
                );
            }
            (MaxwellThreeDInlineToMemoryStateWrite::OriginY { value: raw, source }, "SET_DST_ORIGIN_SAMPLES_Y")
        },
        LAUNCH_DMA => {
            return match preflight_launch(source, state) {
                Ok(method) => Ok(Some(method)),
                Err(error) => Err(error),
            };
        },
        LOAD_INLINE_DATA => {
            return match preflight_data(source, state) {
                Ok(method) => Ok(Some(method)),
                Err(error) => Err(error),
            };
        },
        _ => {
            return Ok(None);
        },
    };
    Ok(Some((write, name, None)))
}

/// Every decoded transition keeps the state well formed.
pub proof fn law_transitions_keep_state_well_formed(
    source: MaxwellMethodSource,
    state: MaxwellThreeDInlineToMemoryState,
)
    requires
        state.wf(),
    ensures
        spec_preflight(source, state) matches Ok(Some(method)) ==> state.written(method.0).wf(),
{
}

/// A data word is refused only when no transfer is armed.
pub proof fn law_armed_data_is_accepted(
    source: MaxwellMethodSource,
    state: MaxwellThreeDInlineToMemoryState,
)
    requires
        state.wf(),
        source.method.0 == LOAD_INLINE_DATA,
    ensures
        spec_preflight(source, state) is Ok <==> state.pending is Some,
{
}

/// A launch is refused while a transfer is armed.
pub proof fn law_armed_transfer_is_not_replaced(
    source: MaxwellMethodSource,
    state: MaxwellThreeDInlineToMemoryState,
)
    requires
        state.pending is Some,
        source.method.0 == LAUNCH_DMA,
    ensures
        spec_preflight(source, state) is Err,
{
}

/// State after a run of data words.
pub open spec fn fed(
    state: MaxwellThreeDInlineToMemoryState,
    words: Seq<MaxwellMethodSource>,
) -> MaxwellThreeDInlineToMemoryState
    decreases words.len(),
{
    if words.len() == 0 {
        state
    } else {
        let before = fed(state, words.drop_last());
        match spec_preflight_data(words.last(), before) {
            Ok(method) => before.written(method.0),
            Err(_) => before,
        }
    }
}

/// An armed transfer takes exactly as many words as remain: word `i` lands `4 * i`
/// bytes past the cursor and inside the destination range, and the last one
/// disarms the transfer.
pub proof fn law_transfer_completes(
    state: MaxwellThreeDInlineToMemoryState,
    words: Seq<MaxwellMethodSource>,
    pending: PendingTransfer,
)
    requires
        state.wf(),
        state.pending == Some(pending),
        pending.next_offset + 4 * words.len() <= pending.byte_length,
    ensures
        fed(state, words).wf(),
        fed(state, words).pending == (if pending.next_offset + 4 * words.len()
            == pending.byte_length {
            None
        } else {
            Some(
                PendingTransfer {
                    next_offset: (pending.next_offset + 4 * words.len()) as u32,
                    ..pending
                },
            )
        }),
        words.len() > 0 ==> (spec_preflight_data(
            words.last(),
            fed(state, words.drop_last()),
        ) matches Ok(method) && method.2 == Some(
            MaxwellInlineToMemoryUpload {
                address: pending.address,
                offset: (pending.next_offset + 4 * (words.len() - 1)) as u32,
                value: words.last().argument,
                source: words.last(),
            },
        )),
    decreases words.len(),
{
    if words.len() > 0 {
        law_transfer_completes(state, words.drop_last(), pending);
    }
}

} // verus!
