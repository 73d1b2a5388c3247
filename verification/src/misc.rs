//! Shared scalar aliases, geometry structs, and the comparison and pixel
//! format wire constants.
//!
//! The structured argument types here mirror the exact field order and
//! field widths the foreign ABI expects; the enumerated types carry the
//! exact integer constants the foreign framework assigns, which are part
//! of the wire contract and must never be renumbered.

use vstd::prelude::*;

verus! {

/// The foreign runtime's unsigned integer word.
pub type NSUInteger = u64;

/// The foreign runtime's signed integer word.
pub type NSInteger = i64;

/// The comparison a depth, stencil, or sampler test applies.
#[derive(Clone, Copy, PartialEq, Eq, Structural, Debug)]
pub enum MTLCompareFunction {
    Never,
    Less,
    Equal,
    LessEqual,
    Greater,
    NotEqual,
    GreaterEqual,
    Always,
}

impl MTLCompareFunction {
    /// The wire integer the foreign framework assigns to this variant.
    pub open spec fn wire_spec(self) -> u64 {
        match self {
            MTLCompareFunction::Never => 0,
            MTLCompareFunction::Less => 1,
            MTLCompareFunction::Equal => 2,
            MTLCompareFunction::LessEqual => 3,
            MTLCompareFunction::Greater => 4,
            MTLCompareFunction::NotEqual => 5,
            MTLCompareFunction::GreaterEqual => 6,
            MTLCompareFunction::Always => 7,
        }
    }

    /// The variant a wire integer stands for, if any.
    pub open spec fn from_wire_spec(w: u64) -> Option<MTLCompareFunction> {
        if w == 0 {
            Some(MTLCompareFunction::Never)
        } else if w == 1 {
            Some(MTLCompareFunction::Less)
        } else if w == 2 {
            Some(MTLCompareFunction::Equal)
        } else if w == 3 {
            Some(MTLCompareFunction::LessEqual)
        } else if w == 4 {
            Some(MTLCompareFunction::Greater)
        } else if w == 5 {
            Some(MTLCompareFunction::NotEqual)
        } else if w == 6 {
            Some(MTLCompareFunction::GreaterEqual)
        } else if w == 7 {
            Some(MTLCompareFunction::Always)
        } else {
            None
        }
    }

    /// This variant's wire integer.
    pub fn to_wire(self) -> (w: u64)
        ensures
            w == self.wire_spec(),
    {
        match self {
            MTLCompareFunction::Never => 0,
            MTLCompareFunction::Less => 1,
            MTLCompareFunction::Equal => 2,
            MTLCompareFunction::LessEqual => 3,
            MTLCompareFunction::Greater => 4,
            MTLCompareFunction::NotEqual => 5,
            MTLCompareFunction::GreaterEqual => 6,
            MTLCompareFunction::Always => 7,
        }
    }

    /// The variant a wire integer stands for, if any.
    pub fn from_wire(w: u64) -> (r: Option<MTLCompareFunction>)
        ensures
            r == Self::from_wire_spec(w),
    {
        if w == 0 {
            Some(MTLCompareFunction::Never)
        } else if w == 1 {
            Some(MTLCompareFunction::Less)
        } else if w == 2 {
            Some(MTLCompareFunction::Equal)
        } else if w == 3 {
            Some(MTLCompareFunction::LessEqual)
        } else if w == 4 {
            Some(MTLCompareFunction::Greater)
        } else if w == 5 {
            Some(MTLCompareFunction::NotEqual)
        } else if w == 6 {
            Some(MTLCompareFunction::GreaterEqual)
        } else if w == 7 {
            Some(MTLCompareFunction::Always)
        } else {
            None
        }
    }

    /// Converting a variant to its wire integer and back yields the
    /// original variant.
    pub proof fn lemma_wire_round_trip(self)
        ensures
            Self::from_wire_spec(self.wire_spec()) == Some(self),
    {
    }

    /// A wire integer that decodes to a variant is exactly that
    /// variant's wire integer.
    pub proof fn lemma_wire_inverse(w: u64)
        ensures
            Self::from_wire_spec(w) matches Some(v) ==> v.wire_spec() == w,
    {
    }
}

/// The in-memory layout of a pixel, by its wire constant.
#[allow(non_camel_case_types)]
#[derive(Clone, Copy, PartialEq, Eq, Structural, Debug)]
pub enum MTLPixelFormat {
    Invalid,
    A8Unorm,
    R8Unorm,
    R8Unorm_sRGB,
    R8Snorm,
    R8Uint,
    R8Sint,
    R16Unorm,
    R16Snorm,
    R16Uint,
    R16Sint,
    R16Float,
    RG8Unorm,
    RG8Unorm_sRGB,
    RG8Snorm,
    RG8Uint,
    RG8Sint,
    B5G6R5Unorm,
    A1BGR5Unorm,
    ABGR4Unorm,
    BGR5A1Unorm,
    R32Uint,
    R32Sint,
    R32Float,
    RG16Unorm,
    RG16Snorm,
    RG16Uint,
    RG16Sint,
    RG16Float,
    RGBA8Unorm,
    RGBA8Unorm_sRGB,
    RGBA8Snorm,
    RGBA8Uint,
    RGBA8Sint,
    BGRA8Unorm,
    BGRA8Unorm_sRGB,
    RGB10A2Unorm,
    RGB10A2Uint,
    RG11B10Float,
    RGB9E5Float,
    BGR10A2Unorm,
    RG32Uint,
    RG32Sint,
    RG32Float,
    RGBA16Unorm,
    RGBA16Snorm,
    RGBA16Uint,
    RGBA16Sint,
    RGBA16Float,
    RGBA32Uint,
    RGBA32Sint,
    RGBA32Float,
    BC1_RGBA,
    BC1_RGBA_sRGB,
    BC2_RGBA,
    BC2_RGBA_sRGB,
    BC3_RGBA,
    BC3_RGBA_sRGB,
    BC4_RUnorm,
    BC4_RSnorm,
    BC5_RGUnorm,
    BC5_RGSnorm,
    BC6H_RGBFloat,
    BC6H_RGBUfloat,
    BC7_RGBAUnorm,
    BC7_RGBAUnorm_sRGB,
    PVRTC_RGB_2BPP,
    PVRTC_RGB_2BPP_sRGB,
    PVRTC_RGB_4BPP,
    PVRTC_RGB_4BPP_sRGB,
    PVRTC_RGBA_2BPP,
    PVRTC_RGBA_2BPP_sRGB,
    PVRTC_RGBA_4BPP,
    PVRTC_RGBA_4BPP_sRGB,
    EAC_R11Unorm,
    EAC_R11Snorm,
    EAC_RG11Unorm,
    EAC_RG11Snorm,
    EAC_RGBA8,
    EAC_RGBA8_sRGB,
    ETC2_RGB8,
    ETC2_RGB8_sRGB,
    ETC2_RGB8A1,
    ETC2_RGB8A1_sRGB,
    ASTC_4x4_sRGB,
    ASTC_5x4_sRGB,
    ASTC_5x5_sRGB,
    ASTC_6x5_sRGB,
    ASTC_6x6_sRGB,
    ASTC_8x5_sRGB,
    ASTC_8x6_sRGB,
    ASTC_8x8_sRGB,
    ASTC_10x5_sRGB,
    ASTC_10x6_sRGB,
    ASTC_10x8_sRGB,
    ASTC_10x10_sRGB,
    ASTC_12x10_sRGB,
    ASTC_12x12_sRGB,
    ASTC_4x4_LDR,
    ASTC_5x4_LDR,
    ASTC_5x5_LDR,
    ASTC_6x5_LDR,
    ASTC_6x6_LDR,
    ASTC_8x5_LDR,
    ASTC_8x6_LDR,
    ASTC_8x8_LDR,
    ASTC_10x5_LDR,
    ASTC_10x6_LDR,
    ASTC_10x8_LDR,
    ASTC_10x10_LDR,
    ASTC_12x10_LDR,
    ASTC_12x12_LDR,
    GBGR422,
    BGRG422,
    Depth16Unorm,
    Depth32Float,
    Stencil8,
    Depth24Unorm_Stencil8,
    Depth32Float_Stencil8,
    X32_Stencil8,
    X24_Stencil8,
    BGRA10_XR,
    BGRA10_XR_SRGB,
    BGR10_XR,
    BGR10_XR_SRGB,
}

impl MTLPixelFormat {
    /// The wire integer the foreign framework assigns to this variant.
    pub open spec fn wire_spec(self) -> u64 {
        match self {
            MTLPixelFormat::Invalid => 0,
            MTLPixelFormat::A8Unorm => 1,
            MTLPixelFormat::R8Unorm => 10,
            MTLPixelFormat::R8Unorm_sRGB => 11,
            MTLPixelFormat::R8Snorm => 12,
            MTLPixelFormat::R8Uint => 13,
            MTLPixelFormat::R8Sint => 14,
            MTLPixelFormat::R16Unorm => 20,
            MTLPixelFormat::R16Snorm => 22,
            MTLPixelFormat::R16Uint => 23,
            MTLPixelFormat::R16Sint => 24,
            MTLPixelFormat::R16Float => 25,
            MTLPixelFormat::RG8Unorm => 30,
            MTLPixelFormat::RG8Unorm_sRGB => 31,
            MTLPixelFormat::RG8Snorm => 32,
            MTLPixelFormat::RG8Uint => 33,
            MTLPixelFormat::RG8Sint => 34,
            MTLPixelFormat::B5G6R5Unorm => 40,
            MTLPixelFormat::A1BGR5Unorm => 41,
            MTLPixelFormat::ABGR4Unorm => 42,
            MTLPixelFormat::BGR5A1Unorm => 43,
            MTLPixelFormat::R32Uint => 53,
            MTLPixelFormat::R32Sint => 54,
            MTLPixelFormat::R32Float => 55,
            MTLPixelFormat::RG16Unorm => 60,
            MTLPixelFormat::RG16Snorm => 62,
            MTLPixelFormat::RG16Uint => 63,
            MTLPixelFormat::RG16Sint => 64,
            MTLPixelFormat::RG16Float => 65,
            MTLPixelFormat::RGBA8Unorm => 70,
            MTLPixelFormat::RGBA8Unorm_sRGB => 71,
            MTLPixelFormat::RGBA8Snorm => 72,
            MTLPixelFormat::RGBA8Uint => 73,
            MTLPixelFormat::RGBA8Sint => 74,
            MTLPixelFormat::BGRA8Unorm => 80,
            MTLPixelFormat::BGRA8Unorm_sRGB => 81,
            MTLPixelFormat::RGB10A2Unorm => 90,
            MTLPixelFormat::RGB10A2Uint => 91,
            MTLPixelFormat::RG11B10Float => 92,
            MTLPixelFormat::RGB9E5Float => 93,
            MTLPixelFormat::BGR10A2Unorm => 94,
            MTLPixelFormat::RG32Uint => 103,
            MTLPixelFormat::RG32Sint => 104,
            MTLPixelFormat::RG32Float => 105,
            MTLPixelFormat::RGBA16Unorm => 110,
            MTLPixelFormat::RGBA16Snorm => 112,
            MTLPixelFormat::RGBA16Uint => 113,
            MTLPixelFormat::RGBA16Sint => 114,
            MTLPixelFormat::RGBA16Float => 115,
            MTLPixelFormat::RGBA32Uint => 123,
            MTLPixelFormat::RGBA32Sint => 124,
            MTLPixelFormat::RGBA32Float => 125,
            MTLPixelFormat::BC1_RGBA => 130,
            MTLPixelFormat::BC1_RGBA_sRGB => 131,
            MTLPixelFormat::BC2_RGBA => 132,
            MTLPixelFormat::BC2_RGBA_sRGB => 133,
            MTLPixelFormat::BC3_RGBA => 134,
            MTLPixelFormat::BC3_RGBA_sRGB => 135,
            MTLPixelFormat::BC4_RUnorm => 140,
            MTLPixelFormat::BC4_RSnorm => 141,
            MTLPixelFormat::BC5_RGUnorm => 142,
            MTLPixelFormat::BC5_RGSnorm => 143,
            MTLPixelFormat::BC6H_RGBFloat => 150,
            MTLPixelFormat::BC6H_RGBUfloat => 151,
            MTLPixelFormat::BC7_RGBAUnorm => 152,
            MTLPixelFormat::BC7_RGBAUnorm_sRGB => 153,
            MTLPixelFormat::PVRTC_RGB_2BPP => 160,
            MTLPixelFormat::PVRTC_RGB_2BPP_sRGB => 161,
            MTLPixelFormat::PVRTC_RGB_4BPP => 162,
            MTLPixelFormat::PVRTC_RGB_4BPP_sRGB => 163,
            MTLPixelFormat::PVRTC_RGBA_2BPP => 164,
            MTLPixelFormat::PVRTC_RGBA_2BPP_sRGB => 165,
            MTLPixelFormat::PVRTC_RGBA_4BPP => 166,
            MTLPixelFormat::PVRTC_RGBA_4BPP_sRGB => 167,
            MTLPixelFormat::EAC_R11Unorm => 170,
            MTLPixelFormat::EAC_R11Snorm => 172,
            MTLPixelFormat::EAC_RG11Unorm => 174,
            MTLPixelFormat::EAC_RG11Snorm => 176,
            MTLPixelFormat::EAC_RGBA8 => 178,
            MTLPixelFormat::EAC_RGBA8_sRGB => 179,
            MTLPixelFormat::ETC2_RGB8 => 180,
            MTLPixelFormat::ETC2_RGB8_sRGB => 181,
            MTLPixelFormat::ETC2_RGB8A1 => 182,
            MTLPixelFormat::ETC2_RGB8A1_sRGB => 183,
            MTLPixelFormat::ASTC_4x4_sRGB => 186,
            MTLPixelFormat::ASTC_5x4_sRGB => 187,
            MTLPixelFormat::ASTC_5x5_sRGB => 188,
            MTLPixelFormat::ASTC_6x5_sRGB => 189,
            MTLPixelFormat::ASTC_6x6_sRGB => 190,
            MTLPixelFormat::ASTC_8x5_sRGB => 192,
            MTLPixelFormat::ASTC_8x6_sRGB => 193,
            MTLPixelFormat::ASTC_8x8_sRGB => 194,
            MTLPixelFormat::ASTC_10x5_sRGB => 195,
            MTLPixelFormat::ASTC_10x6_sRGB => 196,
            MTLPixelFormat::ASTC_10x8_sRGB => 197,
            MTLPixelFormat::ASTC_10x10_sRGB => 198,
            MTLPixelFormat::ASTC_12x10_sRGB => 199,
            MTLPixelFormat::ASTC_12x12_sRGB => 200,
            MTLPixelFormat::ASTC_4x4_LDR => 204,
            MTLPixelFormat::ASTC_5x4_LDR => 205,
            MTLPixelFormat::ASTC_5x5_LDR => 206,
            MTLPixelFormat::ASTC_6x5_LDR => 207,
            MTLPixelFormat::ASTC_6x6_LDR => 208,
            MTLPixelFormat::ASTC_8x5_LDR => 210,
            MTLPixelFormat::ASTC_8x6_LDR => 211,
            MTLPixelFormat::ASTC_8x8_LDR => 212,
            MTLPixelFormat::ASTC_10x5_LDR => 213,
            MTLPixelFormat::ASTC_10x6_LDR => 214,
            MTLPixelFormat::ASTC_10x8_LDR => 215,
            MTLPixelFormat::ASTC_10x10_LDR => 216,
            MTLPixelFormat::ASTC_12x10_LDR => 217,
            MTLPixelFormat::ASTC_12x12_LDR => 218,
            MTLPixelFormat::GBGR422 => 240,
            MTLPixelFormat::BGRG422 => 241,
            MTLPixelFormat::Depth16Unorm => 250,
            MTLPixelFormat::Depth32Float => 252,
            MTLPixelFormat::Stencil8 => 253,
            MTLPixelFormat::Depth24Unorm_Stencil8 => 255,
            MTLPixelFormat::Depth32Float_Stencil8 => 260,
            MTLPixelFormat::X32_Stencil8 => 261,
            MTLPixelFormat::X24_Stencil8 => 262,
            MTLPixelFormat::BGRA10_XR => 552,
            MTLPixelFormat::BGRA10_XR_SRGB => 553,
            MTLPixelFormat::BGR10_XR => 554,
            MTLPixelFormat::BGR10_XR_SRGB => 555,
        }
    }

    /// The variant a wire integer stands for, if any.
    pub open spec fn from_wire_spec(w: u64) -> Option<MTLPixelFormat> {
        if w == 0 {
            Some(MTLPixelFormat::Invalid)
        } else if w == 1 {
            Some(MTLPixelFormat::A8Unorm)
        } else if w == 10 {
            Some(MTLPixelFormat::R8Unorm)
        } else if w == 11 {
            Some(MTLPixelFormat::R8Unorm_sRGB)
        } else if w == 12 {
            Some(MTLPixelFormat::R8Snorm)
        } else if w == 13 {
            Some(MTLPixelFormat::R8Uint)
        } else if w == 14 {
            Some(MTLPixelFormat::R8Sint)
        } else if w == 20 {
            Some(MTLPixelFormat::R16Unorm)
        } else if w == 22 {
            Some(MTLPixelFormat::R16Snorm)
        } else if w == 23 {
            Some(MTLPixelFormat::R16Uint)
        } else if w == 24 {
            Some(MTLPixelFormat::R16Sint)
        } else if w == 25 {
            Some(MTLPixelFormat::R16Float)
        } else if w == 30 {
            Some(MTLPixelFormat::RG8Unorm)
        } else if w == 31 {
            Some(MTLPixelFormat::RG8Unorm_sRGB)
        } else if w == 32 {
            Some(MTLPixelFormat::RG8Snorm)
        } else if w == 33 {
            Some(MTLPixelFormat::RG8Uint)
        } else if w == 34 {
            Some(MTLPixelFormat::RG8Sint)
        } else if w == 40 {
            Some(MTLPixelFormat::B5G6R5Unorm)
        } else if w == 41 {
            Some(MTLPixelFormat::A1BGR5Unorm)
        } else if w == 42 {
            Some(MTLPixelFormat::ABGR4Unorm)
        } else if w == 43 {
            Some(MTLPixelFormat::BGR5A1Unorm)
        } else if w == 53 {
            Some(MTLPixelFormat::R32Uint)
        } else if w == 54 {
            Some(MTLPixelFormat::R32Sint)
        } else if w == 55 {
            Some(MTLPixelFormat::R32Float)
        } else if w == 60 {
            Some(MTLPixelFormat::RG16Unorm)
        } else if w == 62 {
            Some(MTLPixelFormat::RG16Snorm)
        } else if w == 63 {
            Some(MTLPixelFormat::RG16Uint)
        } else if w == 64 {
            Some(MTLPixelFormat::RG16Sint)
        } else if w == 65 {
            Some(MTLPixelFormat::RG16Float)
        } else if w == 70 {
            Some(MTLPixelFormat::RGBA8Unorm)
        } else if w == 71 {
            Some(MTLPixelFormat::RGBA8Unorm_sRGB)
        } else if w == 72 {
            Some(MTLPixelFormat::RGBA8Snorm)
        } else if w == 73 {
            Some(MTLPixelFormat::RGBA8Uint)
        } else if w == 74 {
            Some(MTLPixelFormat::RGBA8Sint)
        } else if w == 80 {
            Some(MTLPixelFormat::BGRA8Unorm)
        } else if w == 81 {
            Some(MTLPixelFormat::BGRA8Unorm_sRGB)
        } else if w == 90 {
            Some(MTLPixelFormat::RGB10A2Unorm)
        } else if w == 91 {
            Some(MTLPixelFormat::RGB10A2Uint)
        } else if w == 92 {
            Some(MTLPixelFormat::RG11B10Float)
        } else if w == 93 {
            Some(MTLPixelFormat::RGB9E5Float)
        } else if w == 94 {
            Some(MTLPixelFormat::BGR10A2Unorm)
        } else if w == 103 {
            Some(MTLPixelFormat::RG32Uint)
        } else if w == 104 {
            Some(MTLPixelFormat::RG32Sint)
        } else if w == 105 {
            Some(MTLPixelFormat::RG32Float)
        } else if w == 110 {
            Some(MTLPixelFormat::RGBA16Unorm)
        } else if w == 112 {
            Some(MTLPixelFormat::RGBA16Snorm)
        } else if w == 113 {
            Some(MTLPixelFormat::RGBA16Uint)
        } else if w == 114 {
            Some(MTLPixelFormat::RGBA16Sint)
        } else if w == 115 {
            Some(MTLPixelFormat::RGBA16Float)
        } else if w == 123 {
            Some(MTLPixelFormat::RGBA32Uint)
        } else if w == 124 {
            Some(MTLPixelFormat::RGBA32Sint)
        } else if w == 125 {
            Some(MTLPixelFormat::RGBA32Float)
        } else if w == 130 {
            Some(MTLPixelFormat::BC1_RGBA)
        } else if w == 131 {
            Some(MTLPixelFormat::BC1_RGBA_sRGB)
        } else if w == 132 {
            Some(MTLPixelFormat::BC2_RGBA)
        } else if w == 133 {
            Some(MTLPixelFormat::BC2_RGBA_sRGB)
        } else if w == 134 {
            Some(MTLPixelFormat::BC3_RGBA)
        } else if w == 135 {
            Some(MTLPixelFormat::BC3_RGBA_sRGB)
        } else if w == 140 {
            Some(MTLPixelFormat::BC4_RUnorm)
        } else if w == 141 {
            Some(MTLPixelFormat::BC4_RSnorm)
        } else if w == 142 {
            Some(MTLPixelFormat::BC5_RGUnorm)
        } else if w == 143 {
            Some(MTLPixelFormat::BC5_RGSnorm)
        } else if w == 150 {
            Some(MTLPixelFormat::BC6H_RGBFloat)
        } else if w == 151 {
            Some(MTLPixelFormat::BC6H_RGBUfloat)
        } else if w == 152 {
            Some(MTLPixelFormat::BC7_RGBAUnorm)
        } else if w == 153 {
            Some(MTLPixelFormat::BC7_RGBAUnorm_sRGB)
        } else if w == 160 {
            Some(MTLPixelFormat::PVRTC_RGB_2BPP)
        } else if w == 161 {
            Some(MTLPixelFormat::PVRTC_RGB_2BPP_sRGB)
        } else if w == 162 {
            Some(MTLPixelFormat::PVRTC_RGB_4BPP)
        } else if w == 163 {
            Some(MTLPixelFormat::PVRTC_RGB_4BPP_sRGB)
        } else if w == 164 {
            Some(MTLPixelFormat::PVRTC_RGBA_2BPP)
        } else if w == 165 {
            Some(MTLPixelFormat::PVRTC_RGBA_2BPP_sRGB)
        } else if w == 166 {
            Some(MTLPixelFormat::PVRTC_RGBA_4BPP)
        } else if w == 167 {
            Some(MTLPixelFormat::PVRTC_RGBA_4BPP_sRGB)
        } else if w == 170 {
            Some(MTLPixelFormat::EAC_R11Unorm)
        } else if w == 172 {
            Some(MTLPixelFormat::EAC_R11Snorm)
        } else if w == 174 {
            Some(MTLPixelFormat::EAC_RG11Unorm)
        } else if w == 176 {
            Some(MTLPixelFormat::EAC_RG11Snorm)
        } else if w == 178 {
            Some(MTLPixelFormat::EAC_RGBA8)
        } else if w == 179 {
            Some(MTLPixelFormat::EAC_RGBA8_sRGB)
        } else if w == 180 {
            Some(MTLPixelFormat::ETC2_RGB8)
        } else if w == 181 {
            Some(MTLPixelFormat::ETC2_RGB8_sRGB)
        } else if w == 182 {
            Some(MTLPixelFormat::ETC2_RGB8A1)
        } else if w == 183 {
            Some(MTLPixelFormat::ETC2_RGB8A1_sRGB)
        } else if w == 186 {
            Some(MTLPixelFormat::ASTC_4x4_sRGB)
        } else if w == 187 {
            Some(MTLPixelFormat::ASTC_5x4_sRGB)
        } else if w == 188 {
            Some(MTLPixelFormat::ASTC_5x5_sRGB)
        } else if w == 189 {
            Some(MTLPixelFormat::ASTC_6x5_sRGB)
        } else if w == 190 {
            Some(MTLPixelFormat::ASTC_6x6_sRGB)
        } else if w == 192 {
            Some(MTLPixelFormat::ASTC_8x5_sRGB)
        } else if w == 193 {
            Some(MTLPixelFormat::ASTC_8x6_sRGB)
        } else if w == 194 {
            Some(MTLPixelFormat::ASTC_8x8_sRGB)
        } else if w == 195 {
            Some(MTLPixelFormat::ASTC_10x5_sRGB)
        } else if w == 196 {
            Some(MTLPixelFormat::ASTC_10x6_sRGB)
        } else if w == 197 {
            Some(MTLPixelFormat::ASTC_10x8_sRGB)
        } else if w == 198 {
            Some(MTLPixelFormat::ASTC_10x10_sRGB)
        } else if w == 199 {
            Some(MTLPixelFormat::ASTC_12x10_sRGB)
        } else if w == 200 {
            Some(MTLPixelFormat::ASTC_12x12_sRGB)
        } else if w == 204 {
            Some(MTLPixelFormat::ASTC_4x4_LDR)
        } else if w == 205 {
            Some(MTLPixelFormat::ASTC_5x4_LDR)
        } else if w == 206 {
            Some(MTLPixelFormat::ASTC_5x5_LDR)
        } else if w == 207 {
            Some(MTLPixelFormat::ASTC_6x5_LDR)
        } else if w == 208 {
            Some(MTLPixelFormat::ASTC_6x6_LDR)
        } else if w == 210 {
            Some(MTLPixelFormat::ASTC_8x5_LDR)
        } else if w == 211 {
            Some(MTLPixelFormat::ASTC_8x6_LDR)
        } else if w == 212 {
            Some(MTLPixelFormat::ASTC_8x8_LDR)
        } else if w == 213 {
            Some(MTLPixelFormat::ASTC_10x5_LDR)
        } else if w == 214 {
            Some(MTLPixelFormat::ASTC_10x6_LDR)
        } else if w == 215 {
            Some(MTLPixelFormat::ASTC_10x8_LDR)
        } else if w == 216 {
            Some(MTLPixelFormat::ASTC_10x10_LDR)
        } else if w == 217 {
            Some(MTLPixelFormat::ASTC_12x10_LDR)
        } else if w == 218 {
            Some(MTLPixelFormat::ASTC_12x12_LDR)
        } else if w == 240 {
            Some(MTLPixelFormat::GBGR422)
        } else if w == 241 {
            Some(MTLPixelFormat::BGRG422)
        } else if w == 250 {
            Some(MTLPixelFormat::Depth16Unorm)
        } else if w == 252 {
            Some(MTLPixelFormat::Depth32Float)
        } else if w == 253 {
            Some(MTLPixelFormat::Stencil8)
        } else if w == 255 {
            Some(MTLPixelFormat::Depth24Unorm_Stencil8)
        } else if w == 260 {
            Some(MTLPixelFormat::Depth32Float_Stencil8)
        } else if w == 261 {
            Some(MTLPixelFormat::X32_Stencil8)
        } else if w == 262 {
            Some(MTLPixelFormat::X24_Stencil8)
        } else if w == 552 {
            Some(MTLPixelFormat::BGRA10_XR)
        } else if w == 553 {
            Some(MTLPixelFormat::BGRA10_XR_SRGB)
        } else if w == 554 {
            Some(MTLPixelFormat::BGR10_XR)
        } else if w == 555 {
            Some(MTLPixelFormat::BGR10_XR_SRGB)
        } else {
            None
        }
    }

    /// This variant's wire integer.
    pub fn to_wire(self) -> (w: u64)
        ensures
            w == self.wire_spec(),
    {
        match self {
            MTLPixelFormat::Invalid => 0,
            MTLPixelFormat::A8Unorm => 1,
            MTLPixelFormat::R8Unorm => 10,
            MTLPixelFormat::R8Unorm_sRGB => 11,
            MTLPixelFormat::R8Snorm => 12,
            MTLPixelFormat::R8Uint => 13,
            MTLPixelFormat::R8Sint => 14,
            MTLPixelFormat::R16Unorm => 20,
            MTLPixelFormat::R16Snorm => 22,
            MTLPixelFormat::R16Uint => 23,
            MTLPixelFormat::R16Sint => 24,
            MTLPixelFormat::R16Float => 25,
            MTLPixelFormat::RG8Unorm => 30,
            MTLPixelFormat::RG8Unorm_sRGB => 31,
            MTLPixelFormat::RG8Snorm => 32,
            MTLPixelFormat::RG8Uint => 33,
            MTLPixelFormat::RG8Sint => 34,
            MTLPixelFormat::B5G6R5Unorm => 40,
            MTLPixelFormat::A1BGR5Unorm => 41,
            MTLPixelFormat::ABGR4Unorm => 42,
            MTLPixelFormat::BGR5A1Unorm => 43,
            MTLPixelFormat::R32Uint => 53,
            MTLPixelFormat::R32Sint => 54,
            MTLPixelFormat::R32Float => 55,
            MTLPixelFormat::RG16Unorm => 60,
            MTLPixelFormat::RG16Snorm => 62,
            MTLPixelFormat::RG16Uint => 63,
            MTLPixelFormat::RG16Sint => 64,
            MTLPixelFormat::RG16Float => 65,
            MTLPixelFormat::RGBA8Unorm => 70,
            MTLPixelFormat::RGBA8Unorm_sRGB => 71,
            MTLPixelFormat::RGBA8Snorm => 72,
            MTLPixelFormat::RGBA8Uint => 73,
            MTLPixelFormat::RGBA8Sint => 74,
            MTLPixelFormat::BGRA8Unorm => 80,
            MTLPixelFormat::BGRA8Unorm_sRGB => 81,
            MTLPixelFormat::RGB10A2Unorm => 90,
            MTLPixelFormat::RGB10A2Uint => 91,
            MTLPixelFormat::RG11B10Float => 92,
            MTLPixelFormat::RGB9E5Float => 93,
            MTLPixelFormat::BGR10A2Unorm => 94,
            MTLPixelFormat::RG32Uint => 103,
            MTLPixelFormat::RG32Sint => 104,
            MTLPixelFormat::RG32Float => 105,
            MTLPixelFormat::RGBA16Unorm => 110,
            MTLPixelFormat::RGBA16Snorm => 112,
            MTLPixelFormat::RGBA16Uint => 113,
            MTLPixelFormat::RGBA16Sint => 114,
            MTLPixelFormat::RGBA16Float => 115,
            MTLPixelFormat::RGBA32Uint => 123,
            MTLPixelFormat::RGBA32Sint => 124,
            MTLPixelFormat::RGBA32Float => 125,
            MTLPixelFormat::BC1_RGBA => 130,
            MTLPixelFormat::BC1_RGBA_sRGB => 131,
            MTLPixelFormat::BC2_RGBA => 132,
            MTLPixelFormat::BC2_RGBA_sRGB => 133,
            MTLPixelFormat::BC3_RGBA => 134,
            MTLPixelFormat::BC3_RGBA_sRGB => 135,
            MTLPixelFormat::BC4_RUnorm => 140,
            MTLPixelFormat::BC4_RSnorm => 141,
            MTLPixelFormat::BC5_RGUnorm => 142,
            MTLPixelFormat::BC5_RGSnorm => 143,
            MTLPixelFormat::BC6H_RGBFloat => 150,
            MTLPixelFormat::BC6H_RGBUfloat => 151,
            MTLPixelFormat::BC7_RGBAUnorm => 152,
            MTLPixelFormat::BC7_RGBAUnorm_sRGB => 153,
            MTLPixelFormat::PVRTC_RGB_2BPP => 160,
            MTLPixelFormat::PVRTC_RGB_2BPP_sRGB => 161,
            MTLPixelFormat::PVRTC_RGB_4BPP => 162,
            MTLPixelFormat::PVRTC_RGB_4BPP_sRGB => 163,
            MTLPixelFormat::PVRTC_RGBA_2BPP => 164,
            MTLPixelFormat::PVRTC_RGBA_2BPP_sRGB => 165,
            MTLPixelFormat::PVRTC_RGBA_4BPP => 166,
            MTLPixelFormat::PVRTC_RGBA_4BPP_sRGB => 167,
            MTLPixelFormat::EAC_R11Unorm => 170,
            MTLPixelFormat::EAC_R11Snorm => 172,
            MTLPixelFormat::EAC_RG11Unorm => 174,
            MTLPixelFormat::EAC_RG11Snorm => 176,
            MTLPixelFormat::EAC_RGBA8 => 178,
            MTLPixelFormat::EAC_RGBA8_sRGB => 179,
            MTLPixelFormat::ETC2_RGB8 => 180,
            MTLPixelFormat::ETC2_RGB8_sRGB => 181,
            MTLPixelFormat::ETC2_RGB8A1 => 182,
            MTLPixelFormat::ETC2_RGB8A1_sRGB => 183,
            MTLPixelFormat::ASTC_4x4_sRGB => 186,
            MTLPixelFormat::ASTC_5x4_sRGB => 187,
            MTLPixelFormat::ASTC_5x5_sRGB => 188,
            MTLPixelFormat::ASTC_6x5_sRGB => 189,
            MTLPixelFormat::ASTC_6x6_sRGB => 190,
            MTLPixelFormat::ASTC_8x5_sRGB => 192,
            MTLPixelFormat::ASTC_8x6_sRGB => 193,
            MTLPixelFormat::ASTC_8x8_sRGB => 194,
            MTLPixelFormat::ASTC_10x5_sRGB => 195,
            MTLPixelFormat::ASTC_10x6_sRGB => 196,
            MTLPixelFormat::ASTC_10x8_sRGB => 197,
            MTLPixelFormat::ASTC_10x10_sRGB => 198,
            MTLPixelFormat::ASTC_12x10_sRGB => 199,
            MTLPixelFormat::ASTC_12x12_sRGB => 200,
            MTLPixelFormat::ASTC_4x4_LDR => 204,
            MTLPixelFormat::ASTC_5x4_LDR => 205,
            MTLPixelFormat::ASTC_5x5_LDR => 206,
            MTLPixelFormat::ASTC_6x5_LDR => 207,
            MTLPixelFormat::ASTC_6x6_LDR => 208,
            MTLPixelFormat::ASTC_8x5_LDR => 210,
            MTLPixelFormat::ASTC_8x6_LDR => 211,
            MTLPixelFormat::ASTC_8x8_LDR => 212,
            MTLPixelFormat::ASTC_10x5_LDR => 213,
            MTLPixelFormat::ASTC_10x6_LDR => 214,
            MTLPixelFormat::ASTC_10x8_LDR => 215,
            MTLPixelFormat::ASTC_10x10_LDR => 216,
            MTLPixelFormat::ASTC_12x10_LDR => 217,
            MTLPixelFormat::ASTC_12x12_LDR => 218,
            MTLPixelFormat::GBGR422 => 240,
            MTLPixelFormat::BGRG422 => 241,
            MTLPixelFormat::Depth16Unorm => 250,
            MTLPixelFormat::Depth32Float => 252,
            MTLPixelFormat::Stencil8 => 253,
            MTLPixelFormat::Depth24Unorm_Stencil8 => 255,
            MTLPixelFormat::Depth32Float_Stencil8 => 260,
            MTLPixelFormat::X32_Stencil8 => 261,
            MTLPixelFormat::X24_Stencil8 => 262,
            MTLPixelFormat::BGRA10_XR => 552,
            MTLPixelFormat::BGRA10_XR_SRGB => 553,
            MTLPixelFormat::BGR10_XR => 554,
            MTLPixelFormat::BGR10_XR_SRGB => 555,
        }
    }

    /// The variant a wire integer stands for, if any.
    pub fn from_wire(w: u64) -> (r: Option<MTLPixelFormat>)
        ensures
            r == Self::from_wire_spec(w),
    {
        if w == 0 {
            Some(MTLPixelFormat::Invalid)
        } else if w == 1 {
            Some(MTLPixelFormat::A8Unorm)
        } else if w == 10 {
            Some(MTLPixelFormat::R8Unorm)
        } else if w == 11 {
            Some(MTLPixelFormat::R8Unorm_sRGB)
        } else if w == 12 {
            Some(MTLPixelFormat::R8Snorm)
        } else if w == 13 {
            Some(MTLPixelFormat::R8Uint)
        } else if w == 14 {
            Some(MTLPixelFormat::R8Sint)
        } else if w == 20 {
            Some(MTLPixelFormat::R16Unorm)
        } else if w == 22 {
            Some(MTLPixelFormat::R16Snorm)
        } else if w == 23 {
            Some(MTLPixelFormat::R16Uint)
        } else if w == 24 {
            Some(MTLPixelFormat::R16Sint)
        } else if w == 25 {
            Some(MTLPixelFormat::R16Float)
        } else if w == 30 {
            Some(MTLPixelFormat::RG8Unorm)
        } else if w == 31 {
            Some(MTLPixelFormat::RG8Unorm_sRGB)
        } else if w == 32 {
            Some(MTLPixelFormat::RG8Snorm)
        } else if w == 33 {
            Some(MTLPixelFormat::RG8Uint)
        } else if w == 34 {
            Some(MTLPixelFormat::RG8Sint)
        } else if w == 40 {
            Some(MTLPixelFormat::B5G6R5Unorm)
        } else if w == 41 {
            Some(MTLPixelFormat::A1BGR5Unorm)
        } else if w == 42 {
            Some(MTLPixelFormat::ABGR4Unorm)
        } else if w == 43 {
            Some(MTLPixelFormat::BGR5A1Unorm)
        } else if w == 53 {
            Some(MTLPixelFormat::R32Uint)
        } else if w == 54 {
            Some(MTLPixelFormat::R32Sint)
        } else if w == 55 {
            Some(MTLPixelFormat::R32Float)
        } else if w == 60 {
            Some(MTLPixelFormat::RG16Unorm)
        } else if w == 62 {
            Some(MTLPixelFormat::RG16Snorm)
        } else if w == 63 {
            Some(MTLPixelFormat::RG16Uint)
        } else if w == 64 {
            Some(MTLPixelFormat::RG16Sint)
        } else if w == 65 {
            Some(MTLPixelFormat::RG16Float)
        } else if w == 70 {
            Some(MTLPixelFormat::RGBA8Unorm)
        } else if w == 71 {
            Some(MTLPixelFormat::RGBA8Unorm_sRGB)
        } else if w == 72 {
            Some(MTLPixelFormat::RGBA8Snorm)
        } else if w == 73 {
            Some(MTLPixelFormat::RGBA8Uint)
        } else if w == 74 {
            Some(MTLPixelFormat::RGBA8Sint)
        } else if w == 80 {
            Some(MTLPixelFormat::BGRA8Unorm)
        } else if w == 81 {
            Some(MTLPixelFormat::BGRA8Unorm_sRGB)
        } else if w == 90 {
            Some(MTLPixelFormat::RGB10A2Unorm)
        } else if w == 91 {
            Some(MTLPixelFormat::RGB10A2Uint)
        } else if w == 92 {
            Some(MTLPixelFormat::RG11B10Float)
        } else if w == 93 {
            Some(MTLPixelFormat::RGB9E5Float)
        } else if w == 94 {
            Some(MTLPixelFormat::BGR10A2Unorm)
        } else if w == 103 {
            Some(MTLPixelFormat::RG32Uint)
        } else if w == 104 {
            Some(MTLPixelFormat::RG32Sint)
        } else if w == 105 {
            Some(MTLPixelFormat::RG32Float)
        } else if w == 110 {
            Some(MTLPixelFormat::RGBA16Unorm)
        } else if w == 112 {
            Some(MTLPixelFormat::RGBA16Snorm)
        } else if w == 113 {
            Some(MTLPixelFormat::RGBA16Uint)
        } else if w == 114 {
            Some(MTLPixelFormat::RGBA16Sint)
        } else if w == 115 {
            Some(MTLPixelFormat::RGBA16Float)
        } else if w == 123 {
            Some(MTLPixelFormat::RGBA32Uint)
        } else if w == 124 {
            Some(MTLPixelFormat::RGBA32Sint)
        } else if w == 125 {
            Some(MTLPixelFormat::RGBA32Float)
        } else if w == 130 {
            Some(MTLPixelFormat::BC1_RGBA)
        } else if w == 131 {
            Some(MTLPixelFormat::BC1_RGBA_sRGB)
        } else if w == 132 {
            Some(MTLPixelFormat::BC2_RGBA)
        } else if w == 133 {
            Some(MTLPixelFormat::BC2_RGBA_sRGB)
        } else if w == 134 {
            Some(MTLPixelFormat::BC3_RGBA)
        } else if w == 135 {
            Some(MTLPixelFormat::BC3_RGBA_sRGB)
        } else if w == 140 {
            Some(MTLPixelFormat::BC4_RUnorm)
        } else if w == 141 {
            Some(MTLPixelFormat::BC4_RSnorm)
        } else if w == 142 {
            Some(MTLPixelFormat::BC5_RGUnorm)
        } else if w == 143 {
            Some(MTLPixelFormat::BC5_RGSnorm)
        } else if w == 150 {
            Some(MTLPixelFormat::BC6H_RGBFloat)
        } else if w == 151 {
            Some(MTLPixelFormat::BC6H_RGBUfloat)
        } else if w == 152 {
            Some(MTLPixelFormat::BC7_RGBAUnorm)
        } else if w == 153 {
            Some(MTLPixelFormat::BC7_RGBAUnorm_sRGB)
        } else if w == 160 {
            Some(MTLPixelFormat::PVRTC_RGB_2BPP)
        } else if w == 161 {
            Some(MTLPixelFormat::PVRTC_RGB_2BPP_sRGB)
        } else if w == 162 {
            Some(MTLPixelFormat::PVRTC_RGB_4BPP)
        } else if w == 163 {
            Some(MTLPixelFormat::PVRTC_RGB_4BPP_sRGB)
        } else if w == 164 {
            Some(MTLPixelFormat::PVRTC_RGBA_2BPP)
        } else if w == 165 {
            Some(MTLPixelFormat::PVRTC_RGBA_2BPP_sRGB)
        } else if w == 166 {
            Some(MTLPixelFormat::PVRTC_RGBA_4BPP)
        } else if w == 167 {
            Some(MTLPixelFormat::PVRTC_RGBA_4BPP_sRGB)
        } else if w == 170 {
            Some(MTLPixelFormat::EAC_R11Unorm)
        } else if w == 172 {
            Some(MTLPixelFormat::EAC_R11Snorm)
        } else if w == 174 {
            Some(MTLPixelFormat::EAC_RG11Unorm)
        } else if w == 176 {
            Some(MTLPixelFormat::EAC_RG11Snorm)
        } else if w == 178 {
            Some(MTLPixelFormat::EAC_RGBA8)
        } else if w == 179 {
            Some(MTLPixelFormat::EAC_RGBA8_sRGB)
        } else if w == 180 {
            Some(MTLPixelFormat::ETC2_RGB8)
        } else if w == 181 {
            Some(MTLPixelFormat::ETC2_RGB8_sRGB)
        } else if w == 182 {
            Some(MTLPixelFormat::ETC2_RGB8A1)
        } else if w == 183 {
            Some(MTLPixelFormat::ETC2_RGB8A1_sRGB)
        } else if w == 186 {
            Some(MTLPixelFormat::ASTC_4x4_sRGB)
        } else if w == 187 {
            Some(MTLPixelFormat::ASTC_5x4_sRGB)
        } else if w == 188 {
            Some(MTLPixelFormat::ASTC_5x5_sRGB)
        } else if w == 189 {
            Some(MTLPixelFormat::ASTC_6x5_sRGB)
        } else if w == 190 {
            Some(MTLPixelFormat::ASTC_6x6_sRGB)
        } else if w == 192 {
            Some(MTLPixelFormat::ASTC_8x5_sRGB)
        } else if w == 193 {
            Some(MTLPixelFormat::ASTC_8x6_sRGB)
        } else if w == 194 {
            Some(MTLPixelFormat::ASTC_8x8_sRGB)
        } else if w == 195 {
            Some(MTLPixelFormat::ASTC_10x5_sRGB)
        } else if w == 196 {
            Some(MTLPixelFormat::ASTC_10x6_sRGB)
        } else if w == 197 {
            Some(MTLPixelFormat::ASTC_10x8_sRGB)
        } else if w == 198 {
            Some(MTLPixelFormat::ASTC_10x10_sRGB)
        } else if w == 199 {
            Some(MTLPixelFormat::ASTC_12x10_sRGB)
        } else if w == 200 {
            Some(MTLPixelFormat::ASTC_12x12_sRGB)
        } else if w == 204 {
            Some(MTLPixelFormat::ASTC_4x4_LDR)
        } else if w == 205 {
            Some(MTLPixelFormat::ASTC_5x4_LDR)
        } else if w == 206 {
            Some(MTLPixelFormat::ASTC_5x5_LDR)
        } else if w == 207 {
            Some(MTLPixelFormat::ASTC_6x5_LDR)
        } else if w == 208 {
            Some(MTLPixelFormat::ASTC_6x6_LDR)
        } else if w == 210 {
            Some(MTLPixelFormat::ASTC_8x5_LDR)
        } else if w == 211 {
            Some(MTLPixelFormat::ASTC_8x6_LDR)
        } else if w == 212 {
            Some(MTLPixelFormat::ASTC_8x8_LDR)
        } else if w == 213 {
            Some(MTLPixelFormat::ASTC_10x5_LDR)
        } else if w == 214 {
            Some(MTLPixelFormat::ASTC_10x6_LDR)
        } else if w == 215 {
            Some(MTLPixelFormat::ASTC_10x8_LDR)
        } else if w == 216 {
            Some(MTLPixelFormat::ASTC_10x10_LDR)
        } else if w == 217 {
            Some(MTLPixelFormat::ASTC_12x10_LDR)
        } else if w == 218 {
            Some(MTLPixelFormat::ASTC_12x12_LDR)
        } else if w == 240 {
            Some(MTLPixelFormat::GBGR422)
        } else if w == 241 {
            Some(MTLPixelFormat::BGRG422)
        } else if w == 250 {
            Some(MTLPixelFormat::Depth16Unorm)
        } else if w == 252 {
            Some(MTLPixelFormat::Depth32Float)
        } else if w == 253 {
            Some(MTLPixelFormat::Stencil8)
        } else if w == 255 {
            Some(MTLPixelFormat::Depth24Unorm_Stencil8)
        } else if w == 260 {
            Some(MTLPixelFormat::Depth32Float_Stencil8)
        } else if w == 261 {
            Some(MTLPixelFormat::X32_Stencil8)
        } else if w == 262 {
            Some(MTLPixelFormat::X24_Stencil8)
        } else if w == 552 {
            Some(MTLPixelFormat::BGRA10_XR)
        } else if w == 553 {
            Some(MTLPixelFormat::BGRA10_XR_SRGB)
        } else if w == 554 {
            Some(MTLPixelFormat::BGR10_XR)
        } else if w == 555 {
            Some(MTLPixelFormat::BGR10_XR_SRGB)
        } else {
            None
        }
    }

    /// Converting a variant to its wire integer and back yields the
    /// original variant.
    pub proof fn lemma_wire_round_trip(self)
        ensures
            Self::from_wire_spec(self.wire_spec()) == Some(self),
    {
    }

    /// A wire integer that decodes to a variant is exactly that
    /// variant's wire integer.
    pub proof fn lemma_wire_inverse(w: u64)
        ensures
            Self::from_wire_spec(w) matches Some(v) ==> v.wire_spec() == w,
    {
    }
}

/// An extent in three dimensions.
#[derive(Clone, Copy, PartialEq, Eq, Structural, Debug)]
pub struct MTLSize {
    pub width: NSUInteger,
    pub height: NSUInteger,
    pub depth: NSUInteger,
}

/// A region of a texture: where it starts and how far it extends.
#[derive(Clone, Copy, PartialEq, Eq, Structural, Debug)]
pub struct MTLRegion {
    pub origin: MTLSize,
    pub size: MTLSize,
}

/// A location/length pair, the foreign ABI's representation of a range.
#[derive(Clone, Copy, PartialEq, Eq, Structural, Debug)]
pub struct NSRange {
    pub location: NSUInteger,
    pub length: NSUInteger,
}

impl NSRange {
    /// The foreign range covering `start..end`: host ranges are carried
    /// as start/end bounds and cross the boundary as location/length.
    pub fn from_bounds(start: NSUInteger, end: NSUInteger) -> (r: NSRange)
        requires
            start <= end,
        ensures
            r.location == start,
            r.length == end - start,
    {
        NSRange { location: start, length: end - start }
    }
}

} // verus!
