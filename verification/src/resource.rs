//! Resources: cache and storage modes, the composed resource-options
//! bitfield, purgeable states, and texture types and usage flags.
//!
//! The resource-options value is a single wire bitfield composed from
//! option groups at fixed bit offsets: the CPU cache mode occupies the low
//! four bits and the storage mode the four bits above them. Composing the
//! groups through the typed operations here keeps the shifts right by
//! construction.

use vstd::prelude::*;

use crate::misc::NSUInteger;

verus! {

/// The CPU cache mapping of a resource.
#[derive(Clone, Copy, PartialEq, Eq, Structural, Debug)]
pub enum MTLCPUCacheMode {
    Default,
    WriteCombined,
}

impl MTLCPUCacheMode {
    /// The wire integer the foreign framework assigns to this variant.
    pub open spec fn wire_spec(self) -> u64 {
        match self {
            MTLCPUCacheMode::Default => 0,
            MTLCPUCacheMode::WriteCombined => 1,
        }
    }

    /// The variant a wire integer stands for, if any.
    pub open spec fn from_wire_spec(w: u64) -> Option<MTLCPUCacheMode> {
        if w == 0 {
            Some(MTLCPUCacheMode::Default)
        } else if w == 1 {
            Some(MTLCPUCacheMode::WriteCombined)
        } else {
            None
        }
    }

    /// This variant's wire integer.
    pub fn to_wire(self) -> (w: u64)
        ensures
            w == self.wire_spec(),
    {
        match self {
            MTLCPUCacheMode::Default => 0,
            MTLCPUCacheMode::WriteCombined => 1,
        }
    }

    /// The variant a wire integer stands for, if any.
    pub fn from_wire(w: u64) -> (r: Option<MTLCPUCacheMode>)
        ensures
            r == Self::from_wire_spec(w),
    {
        if w == 0 {
            Some(MTLCPUCacheMode::Default)
        } else if w == 1 {
            Some(MTLCPUCacheMode::WriteCombined)
        } else {
            None
        }
    }

    /// Converting a variant to its wire integer and back yields the
    /// original variant.
    pub proof fn lemma_wire_round_trip(self)
        ensures
            Self::from_wire_spec(self.wire_spec()) == Some(self),
    {
    }

    /// A wire integer that decodes to a variant is exactly that
    /// variant's wire integer.
    pub proof fn lemma_wire_inverse(w: u64)
        ensures
            Self::from_wire_spec(w) matches Some(v) ==> v.wire_spec() == w,
    {
    }
}

/// The memory location and access permissions of a resource.
#[derive(Clone, Copy, PartialEq, Eq, Structural, Debug)]
pub enum MTLStorageMode {
    Shared,
    Managed,
    Private,
    Memoryless,
}

impl MTLStorageMode {
    /// The wire integer the foreign framework assigns to this variant.
    pub open spec fn wire_spec(self) -> u64 {
        match self {
            MTLStorageMode::Shared => 0,
            MTLStorageMode::Managed => 1,
            MTLStorageMode::Private => 2,
            MTLStorageMode::Memoryless => 3,
        }
    }

    /// The variant a wire integer stands for, if any.
    pub open spec fn from_wire_spec(w: u64) -> Option<MTLStorageMode> {
        if w == 0 {
            Some(MTLStorageMode::Shared)
        } else if w == 1 {
            Some(MTLStorageMode::Managed)
        } else if w == 2 {
            Some(MTLStorageMode::Private)
        } else if w == 3 {
            Some(MTLStorageMode::Memoryless)
        } else {
            None
        }
    }

    /// This variant's wire integer.
    pub fn to_wire(self) -> (w: u64)
        ensures
            w == self.wire_spec(),
    {
        match self {
            MTLStorageMode::Shared => 0,
            MTLStorageMode::Managed => 1,
            MTLStorageMode::Private => 2,
            MTLStorageMode::Memoryless => 3,
        }
    }

    /// The variant a wire integer stands for, if any.
    pub fn from_wire(w: u64) -> (r: Option<MTLStorageMode>)
        ensures
            r == Self::from_wire_spec(w),
    {
        if w == 0 {
            Some(MTLStorageMode::Shared)
        } else if w == 1 {
            Some(MTLStorageMode::Managed)
        } else if w == 2 {
            Some(MTLStorageMode::Private)
        } else if w == 3 {
            Some(MTLStorageMode::Memoryless)
        } else {
            None
        }
    }

    /// Converting a variant to its wire integer and back yields the
    /// original variant.
    pub proof fn lemma_wire_round_trip(self)
        ensures
            Self::from_wire_spec(self.wire_spec()) == Some(self),
    {
    }

    /// A wire integer that decodes to a variant is exactly that
    /// variant's wire integer.
    pub proof fn lemma_wire_inverse(w: u64)
        ensures
            Self::from_wire_spec(w) matches Some(v) ==> v.wire_spec() == w,
    {
    }
}

/// The purgeable state of a resource.
#[derive(Clone, Copy, PartialEq, Eq, Structural, Debug)]
pub enum MTLPurgeableState {
    KeepCurrent,
    NonVolatile,
    Volatile,
    Empty,
}

impl MTLPurgeableState {
    /// The wire integer the foreign framework assigns to this variant.
    pub open spec fn wire_spec(self) -> u64 {
        match self {
            MTLPurgeableState::KeepCurrent => 1,
            MTLPurgeableState::NonVolatile => 2,
            MTLPurgeableState::Volatile => 3,
            MTLPurgeableState::Empty => 4,
        }
    }

    /// The variant a wire integer stands for, if any.
    pub open spec fn from_wire_spec(w: u64) -> Option<MTLPurgeableState> {
        if w == 1 {
            Some(MTLPurgeableState::KeepCurrent)
        } else if w == 2 {
            Some(MTLPurgeableState::NonVolatile)
        } else if w == 3 {
            Some(MTLPurgeableState::Volatile)
        } else if w == 4 {
            Some(MTLPurgeableState::Empty)
        } else {
            None
        }
    }

    /// This variant's wire integer.
    pub fn to_wire(self) -> (w: u64)
        ensures
            w == self.wire_spec(),
    {
        match self {
            MTLPurgeableState::KeepCurrent => 1,
            MTLPurgeableState::NonVolatile => 2,
            MTLPurgeableState::Volatile => 3,
            MTLPurgeableState::Empty => 4,
        }
    }

    /// The variant a wire integer stands for, if any.
    pub fn from_wire(w: u64) -> (r: Option<MTLPurgeableState>)
        ensures
            r == Self::from_wire_spec(w),
    {
        if w == 1 {
            Some(MTLPurgeableState::KeepCurrent)
        } else if w == 2 {
            Some(MTLPurgeableState::NonVolatile)
        } else if w == 3 {
            Some(MTLPurgeableState::Volatile)
        } else if w == 4 {
            Some(MTLPurgeableState::Empty)
        } else {
            None
        }
    }

    /// Converting a variant to its wire integer and back yields the
    /// original variant.
    pub proof fn lemma_wire_round_trip(self)
        ensures
            Self::from_wire_spec(self.wire_spec()) == Some(self),
    {
    }

    /// A wire integer that decodes to a variant is exactly that
    /// variant's wire integer.
    pub proof fn lemma_wire_inverse(w: u64)
        ensures
            Self::from_wire_spec(w) matches Some(v) ==> v.wire_spec() == w,
    {
    }
}

/// The dimensionality and arrangement of a texture.
#[derive(Clone, Copy, PartialEq, Eq, Structural, Debug)]
pub enum MTLTextureType {
    D1,
    D1Array,
    D2,
    D2Array,
    D2Multisample,
    Cube,
    CubeArray,
    D3,
    D2MultisampleArray,
    TextureBuffer,
}

impl MTLTextureType {
    /// The wire integer the foreign framework assigns to this variant.
    pub open spec fn wire_spec(self) -> u64 {
        match self {
            MTLTextureType::D1 => 0,
            MTLTextureType::D1Array => 1,
            MTLTextureType::D2 => 2,
            MTLTextureType::D2Array => 3,
            MTLTextureType::D2Multisample => 4,
            MTLTextureType::Cube => 5,
            MTLTextureType::CubeArray => 6,
            MTLTextureType::D3 => 7,
            MTLTextureType::D2MultisampleArray => 8,
            MTLTextureType::TextureBuffer => 9,
        }
    }

    /// The variant a wire integer stands for, if any.
    pub open spec fn from_wire_spec(w: u64) -> Option<MTLTextureType> {
        if w == 0 {
            Some(MTLTextureType::D1)
        } else if w == 1 {
            Some(MTLTextureType::D1Array)
        } else if w == 2 {
            Some(MTLTextureType::D2)
        } else if w == 3 {
            Some(MTLTextureType::D2Array)
        } else if w == 4 {
            Some(MTLTextureType::D2Multisample)
        } else if w == 5 {
            Some(MTLTextureType::Cube)
        } else if w == 6 {
            Some(MTLTextureType::CubeArray)
        } else if w == 7 {
            Some(MTLTextureType::D3)
        } else if w == 8 {
            Some(MTLTextureType::D2MultisampleArray)
        } else if w == 9 {
            Some(MTLTextureType::TextureBuffer)
        } else {
            None
        }
    }

    /// This variant's wire integer.
    pub fn to_wire(self) -> (w: u64)
        ensures
            w == self.wire_spec(),
    {
        match self {
            MTLTextureType::D1 => 0,
            MTLTextureType::D1Array => 1,
            MTLTextureType::D2 => 2,
            MTLTextureType::D2Array => 3,
            MTLTextureType::D2Multisample => 4,
            MTLTextureType::Cube => 5,
            MTLTextureType::CubeArray => 6,
            MTLTextureType::D3 => 7,
            MTLTextureType::D2MultisampleArray => 8,
            MTLTextureType::TextureBuffer => 9,
        }
    }

    /// The variant a wire integer stands for, if any.
    pub fn from_wire(w: u64) -> (r: Option<MTLTextureType>)
        ensures
            r == Self::from_wire_spec(w),
    {
        if w == 0 {
            Some(MTLTextureType::D1)
        } else if w == 1 {
            Some(MTLTextureType::D1Array)
        } else if w == 2 {
            Some(MTLTextureType::D2)
        } else if w == 3 {
            Some(MTLTextureType::D2Array)
        } else if w == 4 {
            Some(MTLTextureType::D2Multisample)
        } else if w == 5 {
            Some(MTLTextureType::Cube)
        } else if w == 6 {
            Some(MTLTextureType::CubeArray)
        } else if w == 7 {
            Some(MTLTextureType::D3)
        } else if w == 8 {
            Some(MTLTextureType::D2MultisampleArray)
        } else if w == 9 {
            Some(MTLTextureType::TextureBuffer)
        } else {
            None
        }
    }

    /// Converting a variant to its wire integer and back yields the
    /// original variant.
    pub proof fn lemma_wire_round_trip(self)
        ensures
            Self::from_wire_spec(self.wire_spec()) == Some(self),
    {
    }

    /// A wire integer that decodes to a variant is exactly that
    /// variant's wire integer.
    pub proof fn lemma_wire_inverse(w: u64)
        ensures
            Self::from_wire_spec(w) matches Some(v) ==> v.wire_spec() == w,
    {
    }
}

/// A single texture-usage capability bit.
#[derive(Clone, Copy, PartialEq, Eq, Structural, Debug)]
pub enum MTLTextureUsage {
    ShaderRead,
    ShaderWrite,
    RenderTarget,
    PixelFormatView,
}

impl MTLTextureUsage {
    /// The wire integer the foreign framework assigns to this variant.
    pub open spec fn wire_spec(self) -> u64 {
        match self {
            MTLTextureUsage::ShaderRead => 1,
            MTLTextureUsage::ShaderWrite => 2,
            MTLTextureUsage::RenderTarget => 4,
            MTLTextureUsage::PixelFormatView => 16,
        }
    }

    /// The variant a wire integer stands for, if any.
    pub open spec fn from_wire_spec(w: u64) -> Option<MTLTextureUsage> {
        if w == 1 {
            Some(MTLTextureUsage::ShaderRead)
        } else if w == 2 {
            Some(MTLTextureUsage::ShaderWrite)
        } else if w == 4 {
            Some(MTLTextureUsage::RenderTarget)
        } else if w == 16 {
            Some(MTLTextureUsage::PixelFormatView)
        } else {
            None
        }
    }

    /// This variant's wire integer.
    pub fn to_wire(self) -> (w: u64)
        ensures
            w == self.wire_spec(),
    {
        match self {
            MTLTextureUsage::ShaderRead => 1,
            MTLTextureUsage::ShaderWrite => 2,
            MTLTextureUsage::RenderTarget => 4,
            MTLTextureUsage::PixelFormatView => 16,
        }
    }

    /// The variant a wire integer stands for, if any.
    pub fn from_wire(w: u64) -> (r: Option<MTLTextureUsage>)
        ensures
            r == Self::from_wire_spec(w),
    {
        if w == 1 {
            Some(MTLTextureUsage::ShaderRead)
        } else if w == 2 {
            Some(MTLTextureUsage::ShaderWrite)
        } else if w == 4 {
            Some(MTLTextureUsage::RenderTarget)
        } else if w == 16 {
            Some(MTLTextureUsage::PixelFormatView)
        } else {
            None
        }
    }

    /// Converting a variant to its wire integer and back yields the
    /// original variant.
    pub proof fn lemma_wire_round_trip(self)
        ensures
            Self::from_wire_spec(self.wire_spec()) == Some(self),
    {
    }

    /// A wire integer that decodes to a variant is exactly that
    /// variant's wire integer.
    pub proof fn lemma_wire_inverse(w: u64)
        ensures
            Self::from_wire_spec(w) matches Some(v) ==> v.wire_spec() == w,
    {
    }
}

/// A set of texture-usage capability bits, composed from named flags and
/// handed to the foreign ABI as one wire integer.
#[derive(Clone, Copy, PartialEq, Eq, Structural, Debug)]
pub struct MTLTextureUsageSet {
    bits: NSUInteger,
}

impl MTLTextureUsageSet {
    /// The composed wire bits.
    pub closed spec fn bits_spec(self) -> u64 {
        self.bits
    }

    /// The empty set: no usage bits.
    pub fn none() -> (s: MTLTextureUsageSet)
        ensures
            s.bits_spec() == 0,
    {
        MTLTextureUsageSet { bits: 0 }
    }

    /// The set with the given flag's bit also raised.
    pub fn with(self, flag: MTLTextureUsage) -> (s: MTLTextureUsageSet)
        ensures
            s.bits_spec() == self.bits_spec() | flag.wire_spec(),
    {
        MTLTextureUsageSet { bits: self.bits | flag.to_wire() }
    }

    /// Whether the given flag's bit is raised.
    pub fn contains(self, flag: MTLTextureUsage) -> (b: bool)
        ensures
            b == ((self.bits_spec() & flag.wire_spec()) != 0),
    {
        (self.bits & flag.to_wire()) != 0
    }

    /// The composed wire bits, as passed at the call boundary.
    pub fn bits(self) -> (w: NSUInteger)
        ensures
            w == self.bits_spec(),
    {
        self.bits
    }
}

/// The composed memory-option bitfield of a resource: a cache-mode flag
/// in the low four bits and a storage-mode flag shifted four bits up.
#[derive(Clone, Copy, PartialEq, Eq, Structural, Debug)]
pub struct MTLResourceOptions {
    pub bits: NSUInteger,
}

impl MTLResourceOptions {
    /// The empty options value: default cache mode, shared storage.
    pub fn new() -> (r: MTLResourceOptions)
        ensures
            r.bits == 0,
    {
        MTLResourceOptions { bits: 0 }
    }

    /// The options with the given CPU cache mode's bits raised, in the
    /// low four bits of the field.
    pub fn set_cpu_cache_mode(&self, mode: MTLCPUCacheMode) -> (r: MTLResourceOptions)
        ensures
            r.bits == self.bits | mode.wire_spec(),
    {
        MTLResourceOptions { bits: self.bits | mode.to_wire() }
    }

    /// The options with the given storage mode's bits raised, shifted
    /// four bits up from the bottom of the field.
    pub fn set_storage_mode(&self, mode: MTLStorageMode) -> (r: MTLResourceOptions)
        ensures
            r.bits == self.bits | (mode.wire_spec() << 4),
    {
        MTLResourceOptions { bits: self.bits | (mode.to_wire() << 4) }
    }
}

} // verus!
