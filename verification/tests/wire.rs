use iron_oxide::commandbuffer::MTLCommandBufferStatus;
use iron_oxide::depthstencil::MTLStencilOperation;
use iron_oxide::encoder::{
    MTLCullMode, MTLDepthClipMode, MTLLoadAction, MTLMultisampleDepthResolveFilter,
    MTLScissorRect, MTLStoreAction, MTLStoreActionOptions, MTLTriangleFillMode, MTLWinding,
};
use iron_oxide::library::{MTLFunctionType, MTLLanguageVersion};
use iron_oxide::misc::{MTLCompareFunction, MTLPixelFormat, NSRange};
use iron_oxide::pipeline::{
    MTLBlendFactor, MTLBlendOperation, MTLColorWriteMask, MTLColorWriteMaskSet,
    MTLPrimitiveTopologyClass,
};
use iron_oxide::resource::{
    MTLCPUCacheMode, MTLPurgeableState, MTLResourceOptions, MTLStorageMode, MTLTextureType,
    MTLTextureUsage, MTLTextureUsageSet,
};
use iron_oxide::sampler::{
    MTLSamplerAddressMode, MTLSamplerBorderColor, MTLSamplerMinMagFilter,
};

#[test]
fn command_buffer_status_round_trip() {
    for v in [
        MTLCommandBufferStatus::NotEnqueued,
        MTLCommandBufferStatus::Enqueued,
        MTLCommandBufferStatus::Committed,
        MTLCommandBufferStatus::Scheduled,
        MTLCommandBufferStatus::Completed,
        MTLCommandBufferStatus::Error,
    ] {
        assert_eq!(MTLCommandBufferStatus::from_wire(v.to_wire()), Some(v));
    }
    assert_eq!(MTLCommandBufferStatus::Completed.to_wire(), 4);
    assert_eq!(MTLCommandBufferStatus::from_wire(6), None);
}

#[test]
fn stencil_operation_round_trip() {
    for v in [
        MTLStencilOperation::Keep,
        MTLStencilOperation::Zero,
        MTLStencilOperation::Replace,
        MTLStencilOperation::IncrementClamp,
        MTLStencilOperation::DecrementClamp,
        MTLStencilOperation::Invert,
        MTLStencilOperation::IncrementWrap,
        MTLStencilOperation::DecrementWrap,
    ] {
        assert_eq!(MTLStencilOperation::from_wire(v.to_wire()), Some(v));
    }
    assert_eq!(MTLStencilOperation::DecrementWrap.to_wire(), 7);
}

#[test]
fn pass_action_round_trips() {
    for v in [MTLLoadAction::DontCare, MTLLoadAction::Load, MTLLoadAction::Clear] {
        assert_eq!(MTLLoadAction::from_wire(v.to_wire()), Some(v));
    }
    for v in [
        MTLStoreAction::DontCare,
        MTLStoreAction::Store,
        MTLStoreAction::MultisampleResolve,
        MTLStoreAction::StoreAndMultisampleResolve,
        MTLStoreAction::Unknown,
        MTLStoreAction::CustomSampleDepthStore,
    ] {
        assert_eq!(MTLStoreAction::from_wire(v.to_wire()), Some(v));
    }
    for v in [MTLStoreActionOptions::NoOptions, MTLStoreActionOptions::CustomSamplePositions] {
        assert_eq!(MTLStoreActionOptions::from_wire(v.to_wire()), Some(v));
    }
    for v in [
        MTLMultisampleDepthResolveFilter::Sample0,
        MTLMultisampleDepthResolveFilter::FilterMin,
        MTLMultisampleDepthResolveFilter::FilterMax,
    ] {
        assert_eq!(MTLMultisampleDepthResolveFilter::from_wire(v.to_wire()), Some(v));
    }
    assert_eq!(MTLStoreAction::CustomSampleDepthStore.to_wire(), 5);
}

#[test]
fn encoder_option_round_trips() {
    for v in [MTLTriangleFillMode::Fill, MTLTriangleFillMode::Lines] {
        assert_eq!(MTLTriangleFillMode::from_wire(v.to_wire()), Some(v));
    }
    for v in [MTLWinding::Clockwise, MTLWinding::CounterClockwise] {
        assert_eq!(MTLWinding::from_wire(v.to_wire()), Some(v));
    }
    for v in [MTLCullMode::NoCulling, MTLCullMode::Front, MTLCullMode::Back] {
        assert_eq!(MTLCullMode::from_wire(v.to_wire()), Some(v));
    }
    for v in [MTLDepthClipMode::Clip, MTLDepthClipMode::Clamp] {
        assert_eq!(MTLDepthClipMode::from_wire(v.to_wire()), Some(v));
    }
    assert_eq!(MTLCullMode::Back.to_wire(), 2);
}

#[test]
fn library_option_round_trips() {
    for v in [MTLFunctionType::Vertex, MTLFunctionType::Fragment, MTLFunctionType::Kernel] {
        assert_eq!(MTLFunctionType::from_wire(v.to_wire()), Some(v));
    }
    for v in [
        MTLLanguageVersion::V10,
        MTLLanguageVersion::V11,
        MTLLanguageVersion::V12,
        MTLLanguageVersion::V20,
        MTLLanguageVersion::V21,
        MTLLanguageVersion::V22,
    ] {
        assert_eq!(MTLLanguageVersion::from_wire(v.to_wire()), Some(v));
    }
    // The language version packs major and minor versions into one word.
    assert_eq!(MTLLanguageVersion::V10.to_wire(), 1 << 16);
    assert_eq!(MTLLanguageVersion::V21.to_wire(), (2 << 16) + 1);
    assert_eq!(MTLFunctionType::from_wire(0), None);
}

#[test]
fn compare_function_round_trip() {
    for v in [
        MTLCompareFunction::Never,
        MTLCompareFunction::Less,
        MTLCompareFunction::Equal,
        MTLCompareFunction::LessEqual,
        MTLCompareFunction::Greater,
        MTLCompareFunction::NotEqual,
        MTLCompareFunction::GreaterEqual,
        MTLCompareFunction::Always,
    ] {
        assert_eq!(MTLCompareFunction::from_wire(v.to_wire()), Some(v));
    }
}

#[test]
fn pixel_format_round_trip_over_the_wire_range() {
    // Every wire integer that decodes to a pixel format encodes back to
    // itself; the constants are sparse, so sweep the whole range.
    let mut defined = 0;
    for w in 0..=600u64 {
        if let Some(v) = MTLPixelFormat::from_wire(w) {
            assert_eq!(v.to_wire(), w);
            defined += 1;
        }
    }
    assert_eq!(defined, 125);
    assert_eq!(MTLPixelFormat::BGRA8Unorm.to_wire(), 80);
    assert_eq!(MTLPixelFormat::RGBA16Float.to_wire(), 115);
    assert_eq!(MTLPixelFormat::Depth32Float_Stencil8.to_wire(), 260);
    assert_eq!(MTLPixelFormat::from_wire(2), None);
}

#[test]
fn blend_and_topology_round_trips() {
    for v in [
        MTLBlendOperation::Add,
        MTLBlendOperation::Subtract,
        MTLBlendOperation::ReverseSubtract,
        MTLBlendOperation::Min,
        MTLBlendOperation::Max,
    ] {
        assert_eq!(MTLBlendOperation::from_wire(v.to_wire()), Some(v));
    }
    for w in 0..=18u64 {
        let v = MTLBlendFactor::from_wire(w).expect("blend factors are dense");
        assert_eq!(v.to_wire(), w);
    }
    assert_eq!(MTLBlendFactor::from_wire(19), None);
    for v in [
        MTLPrimitiveTopologyClass::Unspecified,
        MTLPrimitiveTopologyClass::Point,
        MTLPrimitiveTopologyClass::Line,
        MTLPrimitiveTopologyClass::Triangle,
    ] {
        assert_eq!(MTLPrimitiveTopologyClass::from_wire(v.to_wire()), Some(v));
    }
}

#[test]
fn resource_option_round_trips() {
    for v in [MTLCPUCacheMode::Default, MTLCPUCacheMode::WriteCombined] {
        assert_eq!(MTLCPUCacheMode::from_wire(v.to_wire()), Some(v));
    }
    for v in [
        MTLStorageMode::Shared,
        MTLStorageMode::Managed,
        MTLStorageMode::Private,
        MTLStorageMode::Memoryless,
    ] {
        assert_eq!(MTLStorageMode::from_wire(v.to_wire()), Some(v));
    }
    for v in [
        MTLPurgeableState::KeepCurrent,
        MTLPurgeableState::NonVolatile,
        MTLPurgeableState::Volatile,
        MTLPurgeableState::Empty,
    ] {
        assert_eq!(MTLPurgeableState::from_wire(v.to_wire()), Some(v));
    }
    // The purgeable-state constants start at one, not zero.
    assert_eq!(MTLPurgeableState::KeepCurrent.to_wire(), 1);
    assert_eq!(MTLPurgeableState::from_wire(0), None);
    for w in 0..=9u64 {
        let v = MTLTextureType::from_wire(w).expect("texture types are dense");
        assert_eq!(v.to_wire(), w);
    }
}

#[test]
fn sampler_option_round_trips() {
    for v in [
        MTLSamplerAddressMode::ClampToEdge,
        MTLSamplerAddressMode::MirrorClampToEdge,
        MTLSamplerAddressMode::Repeat,
        MTLSamplerAddressMode::MirrorRepeat,
        MTLSamplerAddressMode::ClampToZero,
        MTLSamplerAddressMode::ClampToBorderColor,
    ] {
        assert_eq!(MTLSamplerAddressMode::from_wire(v.to_wire()), Some(v));
    }
    for v in [
        MTLSamplerBorderColor::TransparentBlack,
        MTLSamplerBorderColor::OpaqueBlack,
        MTLSamplerBorderColor::OpaqueWhite,
    ] {
        assert_eq!(MTLSamplerBorderColor::from_wire(v.to_wire()), Some(v));
    }
    for v in [MTLSamplerMinMagFilter::Nearest, MTLSamplerMinMagFilter::Linear] {
        assert_eq!(MTLSamplerMinMagFilter::from_wire(v.to_wire()), Some(v));
    }
}

#[test]
fn resource_options_compose_cache_and_storage() {
    // Write-combined cache (bit pattern 1) with private storage (bit
    // pattern 2) composes to 1 | (2 << 4) = 33.
    let o = MTLResourceOptions::new()
        .set_cpu_cache_mode(MTLCPUCacheMode::WriteCombined)
        .set_storage_mode(MTLStorageMode::Private);
    assert_eq!(o.bits, 33);
    assert_eq!(o.bits, 1 | (2 << 4));
}

#[test]
fn resource_options_defaults_compose_to_zero() {
    let o = MTLResourceOptions::new()
        .set_cpu_cache_mode(MTLCPUCacheMode::Default)
        .set_storage_mode(MTLStorageMode::Shared);
    assert_eq!(o.bits, 0);
    let managed = MTLResourceOptions::new().set_storage_mode(MTLStorageMode::Managed);
    assert_eq!(managed.bits, 1 << 4);
}

#[test]
fn texture_usage_flags_compose() {
    for v in [
        MTLTextureUsage::ShaderRead,
        MTLTextureUsage::ShaderWrite,
        MTLTextureUsage::RenderTarget,
        MTLTextureUsage::PixelFormatView,
    ] {
        assert_eq!(MTLTextureUsage::from_wire(v.to_wire()), Some(v));
    }
    let set = MTLTextureUsageSet::none()
        .with(MTLTextureUsage::ShaderRead)
        .with(MTLTextureUsage::RenderTarget);
    assert_eq!(set.bits(), 0x1 | 0x4);
    assert!(set.contains(MTLTextureUsage::ShaderRead));
    assert!(set.contains(MTLTextureUsage::RenderTarget));
    assert!(!set.contains(MTLTextureUsage::ShaderWrite));
    assert_eq!(MTLTextureUsageSet::none().bits(), 0);
}

#[test]
fn color_write_mask_flags_compose() {
    for v in [
        MTLColorWriteMask::Red,
        MTLColorWriteMask::Green,
        MTLColorWriteMask::Blue,
        MTLColorWriteMask::Alpha,
    ] {
        assert_eq!(MTLColorWriteMask::from_wire(v.to_wire()), Some(v));
    }
    let all = MTLColorWriteMaskSet::none()
        .with(MTLColorWriteMask::Red)
        .with(MTLColorWriteMask::Green)
        .with(MTLColorWriteMask::Blue)
        .with(MTLColorWriteMask::Alpha);
    assert_eq!(all.bits(), 0xf);
    let red_only = MTLColorWriteMaskSet::none().with(MTLColorWriteMask::Red);
    assert_eq!(red_only.bits(), 0x8);
    assert!(!red_only.contains(MTLColorWriteMask::Alpha));
}

#[test]
fn range_crosses_as_location_and_length() {
    let r = NSRange::from_bounds(3, 10);
    assert_eq!(r.location, 3);
    assert_eq!(r.length, 7);
    let empty = NSRange::from_bounds(5, 5);
    assert_eq!(empty.length, 0);
}

#[test]
fn scissor_rect_carries_its_fields() {
    let rect = MTLScissorRect { width: 640, height: 480, x: 16, y: 8 };
    assert_eq!((rect.width, rect.height, rect.x, rect.y), (640, 480, 16, 8));
}
