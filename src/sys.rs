//! Plain data exchanged with the backend: opaque handles, enumerations,
//! flag sets and allocation descriptors.
use vstd::prelude::*;

verus! {

/// Value of a boolean field in a descriptor: the condition does not hold.
pub const TI_FALSE: u32 = 0;

/// Value of a boolean field in a descriptor: the condition holds.
pub const TI_TRUE: u32 = 1;

/// A sentinel handle value that no successful backend call produces.
pub const TI_NULL_HANDLE: usize = 0;

/// A backend instance.
#[derive(Clone, Copy, Debug, PartialEq, Eq, Structural)]
pub struct TiRuntime(pub usize);

impl TiRuntime {
    pub fn null() -> (r: Self)
        ensures
            r.0 == TI_NULL_HANDLE,
    {
        TiRuntime(TI_NULL_HANDLE)
    }
}

/// A loaded module of precompiled kernels and compute graphs.
#[derive(Clone, Copy, Debug, PartialEq, Eq, Structural)]
pub struct TiAotModule(pub usize);

impl TiAotModule {
    pub fn null() -> (r: Self)
        ensures
            r.0 == TI_NULL_HANDLE,
    {
        TiAotModule(TI_NULL_HANDLE)
    }
}

/// A contiguous device memory allocation.
#[derive(Clone, Copy, Debug, PartialEq, Eq, Structural)]
pub struct TiMemory(pub usize);

impl TiMemory {
    pub fn null() -> (r: Self)
        ensures
            r.0 == TI_NULL_HANDLE,
    {
        TiMemory(TI_NULL_HANDLE)
    }
}

/// A device image allocation.
#[derive(Clone, Copy, Debug, PartialEq, Eq, Structural)]
pub struct TiImage(pub usize);

impl TiImage {
    pub fn null() -> (r: Self)
        ensures
            r.0 == TI_NULL_HANDLE,
    {
        TiImage(TI_NULL_HANDLE)
    }
}

/// An image sampler; the null sampler asks for the backend's default sampling.
#[derive(Clone, Copy, Debug, PartialEq, Eq, Structural)]
pub struct TiSampler(pub usize);

impl TiSampler {
    pub fn null() -> (r: Self)
        ensures
            r.0 == TI_NULL_HANDLE,
    {
        TiSampler(TI_NULL_HANDLE)
    }
}

/// A precompiled kernel inside a module.
#[derive(Clone, Copy, Debug, PartialEq, Eq, Structural)]
pub struct TiKernel(pub usize);

impl TiKernel {
    pub fn null() -> (r: Self)
        ensures
            r.0 == TI_NULL_HANDLE,
    {
        TiKernel(TI_NULL_HANDLE)
    }
}

/// A precompiled compute graph inside a module.
#[derive(Clone, Copy, Debug, PartialEq, Eq, Structural)]
pub struct TiComputeGraph(pub usize);

impl TiComputeGraph {
    pub fn null() -> (r: Self)
        ensures
            r.0 == TI_NULL_HANDLE,
    {
        TiComputeGraph(TI_NULL_HANDLE)
    }
}

/// A native buffer handed over by a host engine.
#[derive(Clone, Copy, Debug, PartialEq, Eq, Structural)]
pub struct TixNativeBufferUnity(pub usize);

impl TixNativeBufferUnity {
    pub fn null() -> (r: Self)
        ensures
            r.0 == TI_NULL_HANDLE,
    {
        TixNativeBufferUnity(TI_NULL_HANDLE)
    }
}

/// Status codes reported through the backend's last-error slot.
#[derive(Clone, Copy, Debug, PartialEq, Eq, Structural)]
pub enum TiError {
    Success,
    NotSupported,
    CorruptedData,
    NameNotFound,
    InvalidArgument,
    ArgumentNull,
    ArgumentOutOfRange,
    ArgumentNotFound,
    InvalidInterop,
    InvalidState,
    IncompatibleModule,
    OutOfMemory,
}

/// The signed code of each status: zero for success, negative for errors.
pub open spec fn error_code(e: TiError) -> int {
    match e {
        TiError::Success => 0,
        TiError::NotSupported => -1,
        TiError::CorruptedData => -2,
        TiError::NameNotFound => -3,
        TiError::InvalidArgument => -4,
        TiError::ArgumentNull => -5,
        TiError::ArgumentOutOfRange => -6,
        TiError::ArgumentNotFound => -7,
        TiError::InvalidInterop => -8,
        TiError::InvalidState => -9,
        TiError::IncompatibleModule => -10,
        TiError::OutOfMemory => -11,
    }
}

impl TiError {
    pub fn code(&self) -> (r: i32)
        ensures
            r == error_code(*self),
    {
        match self {
            TiError::Success => 0,
            TiError::NotSupported => -1,
            TiError::CorruptedData => -2,
            TiError::NameNotFound => -3,
            TiError::InvalidArgument => -4,
            TiError::ArgumentNull => -5,
            TiError::ArgumentOutOfRange => -6,
            TiError::ArgumentNotFound => -7,
            TiError::InvalidInterop => -8,
            TiError::InvalidState => -9,
            TiError::IncompatibleModule => -10,
            TiError::OutOfMemory => -11,
        }
    }

    /// The status with the given code; `None` for a code that names none.
    pub fn from_code(code: i32) -> (r: Option<TiError>)
        ensures
            match r {
                Some(e) => error_code(e) == code,
                None => forall|e: TiError| error_code(e) != code,
            },
    {
        if code == 0 {
            Some(TiError::Success)
        } else if code == -1 {
            Some(TiError::NotSupported)
        } else if code == -2 {
            Some(TiError::CorruptedData)
        } else if code == -3 {
            Some(TiError::NameNotFound)
        } else if code == -4 {
            Some(TiError::InvalidArgument)
        } else if code == -5 {
            Some(TiError::ArgumentNull)
        } else if code == -6 {
            Some(TiError::ArgumentOutOfRange)
        } else if code == -7 {
            Some(TiError::ArgumentNotFound)
        } else if code == -8 {
            Some(TiError::InvalidInterop)
        } else if code == -9 {
            Some(TiError::InvalidState)
        } else if code == -10 {
            Some(TiError::IncompatibleModule)
        } else if code == -11 {
            Some(TiError::OutOfMemory)
        } else {
            None
        }
    }
}

/// Backend architectures.
#[derive(Clone, Copy, Debug, PartialEq, Eq, Structural)]
pub enum TiArch {
    Reserved,
    Vulkan,
    Metal,
    Cuda,
    X64,
    Arm64,
    Opengl,
    Gles,
}

/// Device capabilities.
#[derive(Clone, Copy, Debug, PartialEq, Eq, Structural)]
pub enum TiCapability {
    Reserved,
    SpirvVersion,
    SpirvHasInt8,
    SpirvHasInt16,
    SpirvHasInt64,
    SpirvHasFloat16,
    SpirvHasFloat64,
    SpirvHasAtomicInt64,
    SpirvHasAtomicFloat16,
    SpirvHasAtomicFloat16Add,
    SpirvHasAtomicFloat16Minmax,
    SpirvHasAtomicFloat,
    SpirvHasAtomicFloatAdd,
    SpirvHasAtomicFloatMinmax,
    SpirvHasAtomicFloat64,
    SpirvHasAtomicFloat64Add,
    SpirvHasAtomicFloat64Minmax,
    SpirvHasVariablePtr,
    SpirvHasPhysicalStorageBuffer,
    SpirvHasSubgroupBasic,
    SpirvHasSubgroupVote,
    SpirvHasSubgroupArithmetic,
    SpirvHasSubgroupBallot,
    SpirvHasNonSemanticInfo,
    SpirvHasNoIntegerWrapDecoration,
}

/// A capability together with the level at which the device offers it.
#[derive(Clone, Copy, Debug, PartialEq, Eq, Structural)]
pub struct TiCapabilityLevelInfo {
    pub capability: TiCapability,
    pub level: u32,
}

/// Primitive element types.
#[derive(Clone, Copy, Debug, PartialEq, Eq, Structural)]
pub enum TiDataType {
    F16,
    F32,
    F64,
    I8,
    I16,
    I32,
    I64,
    U1,
    U8,
    U16,
    U32,
    U64,
    Gen,
    Unknown,
}

/// Kinds of kernel and compute graph arguments.
#[derive(Clone, Copy, Debug, PartialEq, Eq, Structural)]
pub enum TiArgumentType {
    I32,
    F32,
    Ndarray,
    Texture,
    Scalar,
}

/// How a memory allocation is used: a set of the bits below.
#[derive(Clone, Copy, Debug, PartialEq, Eq, Structural)]
pub struct TiMemoryUsageFlags {
    pub bits: u32,
}

pub const MEMORY_USAGE_STORAGE_BIT: u32 = 1;

pub const MEMORY_USAGE_UNIFORM_BIT: u32 = 2;

pub const MEMORY_USAGE_VERTEX_BIT: u32 = 4;

pub const MEMORY_USAGE_INDEX_BIT: u32 = 8;

impl TiMemoryUsageFlags {
    pub fn storage() -> (r: Self)
        ensures
            r.bits == MEMORY_USAGE_STORAGE_BIT,
    {
        TiMemoryUsageFlags { bits: MEMORY_USAGE_STORAGE_BIT }
    }

    pub fn uniform() -> (r: Self)
        ensures
            r.bits == MEMORY_USAGE_UNIFORM_BIT,
    {
        TiMemoryUsageFlags { bits: MEMORY_USAGE_UNIFORM_BIT }
    }

    pub fn vertex() -> (r: Self)
        ensures
            r.bits == MEMORY_USAGE_VERTEX_BIT,
    {
        TiMemoryUsageFlags { bits: MEMORY_USAGE_VERTEX_BIT }
    }

    pub fn index() -> (r: Self)
        ensures
            r.bits == MEMORY_USAGE_INDEX_BIT,
    {
        TiMemoryUsageFlags { bits: MEMORY_USAGE_INDEX_BIT }
    }

    /// The set holding the bits of both.
    pub fn union(self, other: Self) -> (r: Self)
        ensures
            r.bits == self.bits | other.bits,
    {
        TiMemoryUsageFlags { bits: self.bits | other.bits }
    }

    /// Whether every bit of `other` is in this set.
    pub fn contains(self, other: Self) -> (r: bool)
        ensures
            r == (self.bits & other.bits == other.bits),
    {
        self.bits & other.bits == other.bits
    }
}

/// Describes a memory allocation.
#[derive(Clone, Copy, Debug, PartialEq, Eq, Structural)]
pub struct TiMemoryAllocateInfo {
    pub size: u64,
    pub host_write: u32,
    pub host_read: u32,
    pub export_sharing: u32,
    pub usage: TiMemoryUsageFlags,
}

/// A byte range of a memory allocation.
#[derive(Clone, Copy, Debug, PartialEq, Eq, Structural)]
pub struct TiMemorySlice {
    pub memory: TiMemory,
    pub offset: u64,
    pub size: u64,
}

/// The largest number of dimensions of an array shape.
pub const MAX_DIM_COUNT: usize = 16;

/// An array shape: the first `dim_count` entries of `dims` are its extents.
#[derive(Clone, Copy, Debug, PartialEq, Eq)]
pub struct TiNdShape {
    pub dim_count: u32,
    pub dims: [u32; 16],
}

/// A memory allocation viewed as an array of elements.
#[derive(Clone, Copy, Debug, PartialEq, Eq)]
pub struct TiNdArray {
    pub memory: TiMemory,
    pub shape: TiNdShape,
    pub elem_shape: TiNdShape,
    pub elem_type: TiDataType,
}

/// How an image is used: a set of the bits below.
#[derive(Clone, Copy, Debug, PartialEq, Eq, Structural)]
pub struct TiImageUsageFlags {
    pub bits: u32,
}

pub const IMAGE_USAGE_STORAGE_BIT: u32 = 1;

pub const IMAGE_USAGE_SAMPLED_BIT: u32 = 2;

pub const IMAGE_USAGE_ATTACHMENT_BIT: u32 = 4;

impl TiImageUsageFlags {
    pub fn storage() -> (r: Self)
        ensures
            r.bits == IMAGE_USAGE_STORAGE_BIT,
    {
        TiImageUsageFlags { bits: IMAGE_USAGE_STORAGE_BIT }
    }

    pub fn sampled() -> (r: Self)
        ensures
            r.bits == IMAGE_USAGE_SAMPLED_BIT,
    {
        TiImageUsageFlags { bits: IMAGE_USAGE_SAMPLED_BIT }
    }

    pub fn attachment() -> (r: Self)
        ensures
            r.bits == IMAGE_USAGE_ATTACHMENT_BIT,
    {
        TiImageUsageFlags { bits: IMAGE_USAGE_ATTACHMENT_BIT }
    }

    /// The set holding the bits of both.
    pub fn union(self, other: Self) -> (r: Self)
        ensures
            r.bits == self.bits | other.bits,
    {
        TiImageUsageFlags { bits: self.bits | other.bits }
    }

    /// Whether every bit of `other` is in this set.
    pub fn contains(self, other: Self) -> (r: bool)
        ensures
            r == (self.bits & other.bits == other.bits),
    {
        self.bits & other.bits == other.bits
    }
}

/// Image dimensionality.
#[derive(Clone, Copy, Debug, PartialEq, Eq, Structural)]
pub enum TiImageDimension {
    D1D,
    D2D,
    D3D,
    D1DArray,
    D2DArray,
    Cube,
}

/// Image layouts.
#[derive(Clone, Copy, Debug, PartialEq, Eq, Structural)]
pub enum TiImageLayout {
    Undefined,
    ShaderRead,
    ShaderWrite,
    ShaderReadWrite,
    ColorAttachment,
    ColorAttachmentRead,
    DepthAttachment,
    DepthAttachmentRead,
    TransferDst,
    TransferSrc,
    PresentSrc,
}

/// Texel formats.
#[derive(Clone, Copy, Debug, PartialEq, Eq, Structural)]
pub enum TiFormat {
    Unknown,
    R8,
    Rg8,
    Rgba8,
    Rgba8Srgb,
    Bgra8,
    Bgra8Srgb,
    R8U,
    Rg8U,
    Rgba8U,
    R8I,
    Rg8I,
    Rgba8I,
    R16,
    Rg16,
    Rgb16,
    Rgba16,
    R16U,
    Rg16U,
    Rgb16U,
    Rgba16U,
    R16I,
    Rg16I,
    Rgb16I,
    Rgba16I,
    R16F,
    Rg16F,
    Rgb16F,
    Rgba16F,
    R32U,
    Rg32U,
    Rgb32U,
    Rgba32U,
    R32I,
    Rg32I,
    Rgb32I,
    Rgba32I,
    R32F,
    Rg32F,
    Rgb32F,
    Rgba32F,
    Depth16,
    Depth24Stencil8,
    Depth32F,
}

/// An offset into an image.
#[derive(Clone, Copy, Debug, PartialEq, Eq, Structural)]
pub struct TiImageOffset {
    pub x: u32,
    pub y: u32,
    pub z: u32,
    pub array_layer_offset: u32,
}

/// The extent of an image.
#[derive(Clone, Copy, Debug, PartialEq, Eq, Structural)]
pub struct TiImageExtent {
    pub width: u32,
    pub height: u32,
    pub depth: u32,
    pub array_layer_count: u32,
}

/// Describes an image allocation.
#[derive(Clone, Copy, Debug, PartialEq, Eq, Structural)]
pub struct TiImageAllocateInfo {
    pub dimension: TiImageDimension,
    pub extent: TiImageExtent,
    pub mip_level_count: u32,
    pub format: TiFormat,
    pub export_sharing: u32,
    pub usage: TiImageUsageFlags,
}

/// A region of one mip level of an image.
#[derive(Clone, Copy, Debug, PartialEq, Eq, Structural)]
pub struct TiImageSlice {
    pub image: TiImage,
    pub offset: TiImageOffset,
    pub extent: TiImageExtent,
    pub mip_level: u32,
}

/// Texel filters.
#[derive(Clone, Copy, Debug, PartialEq, Eq, Structural)]
pub enum TiFilter {
    Nearest,
    Linear,
}

/// Texture address modes.
#[derive(Clone, Copy, Debug, PartialEq, Eq, Structural)]
pub enum TiAddressMode {
    Repeat,
    MirroredRepeat,
    ClampToEdge,
}

/// Describes a sampler. The largest anisotropy is a 32-bit float, held as
/// its IEEE-754 bit pattern.
#[derive(Clone, Copy, Debug, PartialEq, Eq, Structural)]
pub struct TiSamplerCreateInfo {
    pub mag_filter: TiFilter,
    pub min_filter: TiFilter,
    pub address_mode: TiAddressMode,
    pub max_anisotropy_bits: u32,
}

/// Host memory handed to a CPU backend: its address and length in bytes.
#[derive(Clone, Copy, Debug, PartialEq, Eq, Structural)]
pub struct TiCpuMemoryInteropInfo {
    pub ptr: usize,
    pub size: u64,
}

/// Device memory handed to a CUDA backend: its address and length in bytes.
#[derive(Clone, Copy, Debug, PartialEq, Eq, Structural)]
pub struct TiCudaMemoryInteropInfo {
    pub ptr: usize,
    pub size: u64,
}

/// An image bound to a sampler, with the image's shape cached.
#[derive(Clone, Copy, Debug, PartialEq, Eq, Structural)]
pub struct TiTexture {
    pub image: TiImage,
    pub sampler: TiSampler,
    pub dimension: TiImageDimension,
    pub extent: TiImageExtent,
    pub format: TiFormat,
}

/// A scalar of a given type, held as its raw bits (zero-extended to 64 bits).
#[derive(Clone, Copy, Debug, PartialEq, Eq, Structural)]
pub struct TiScalar {
    pub data_type: TiDataType,
    pub bits: u64,
}

/// A kernel or compute graph argument: one value of one of the argument kinds.
/// A 32-bit float travels as its IEEE-754 bit pattern.
#[derive(Clone, Copy, Debug, PartialEq, Eq)]
pub enum TiArgument {
    I32(i32),
    F32(u32),
    Ndarray(TiNdArray),
    Texture(TiTexture),
    Scalar(TiScalar),
}

impl TiArgument {
    /// The kind of this argument.
    pub fn argument_type(&self) -> (r: TiArgumentType)
        ensures
            r == match *self {
                TiArgument::I32(_) => TiArgumentType::I32,
                TiArgument::F32(_) => TiArgumentType::F32,
                TiArgument::Ndarray(_) => TiArgumentType::Ndarray,
                TiArgument::Texture(_) => TiArgumentType::Texture,
                TiArgument::Scalar(_) => TiArgumentType::Scalar,
            },
    {
        match self {
            TiArgument::I32(_) => TiArgumentType::I32,
            TiArgument::F32(_) => TiArgumentType::F32,
            TiArgument::Ndarray(_) => TiArgumentType::Ndarray,
            TiArgument::Texture(_) => TiArgumentType::Texture,
            TiArgument::Scalar(_) => TiArgumentType::Scalar,
        }
    }
}

/// An argument bound to a parameter name.
#[derive(Clone, Debug)]
pub struct TiNamedArgument {
    pub name: String,
    pub argument: TiArgument,
}

} // verus!
