use vstd::prelude::*;

verus! {

/// The environment whose rules decide which warnings and errors are issued.
#[derive(Clone, Copy, Debug, PartialEq, Eq, Structural)]
pub enum TargetEnv {
    /// Vulkan semantics.
    Vulkan,
    /// OpenGL semantics.
    OpenGL,
    /// OpenGL semantics together with the compatibility profile functions.
    OpenGLCompat,
}

impl TargetEnv {
    /// The number by which the native library knows this environment.
    pub open spec fn spec_raw(self) -> int {
        match self {
            TargetEnv::Vulkan => 0,
            TargetEnv::OpenGL => 1,
            TargetEnv::OpenGLCompat => 2,
        }
    }

    /// Computes [`Self::spec_raw`].
    pub fn raw(self) -> (code: i32)
        ensures
            code == self.spec_raw(),
    {
        match self {
            TargetEnv::Vulkan => 0,
            TargetEnv::OpenGL => 1,
            TargetEnv::OpenGLCompat => 2,
        }
    }
}

/// A version of a target environment.
///
/// Vulkan versions are numbered as Vulkan itself numbers them: the major
/// version counts in units of `0x40_0000`, the minor in units of `0x1000`.
/// OpenGL versions carry the number of the `#version` line.
#[derive(Clone, Copy, Debug, PartialEq, Eq, Structural)]
pub enum EnvVersion {
    Vulkan1_0,
    Vulkan1_1,
    Vulkan1_2,
    Vulkan1_3,
    OpenGL4_5,
    /// Kept for callers that still name it; the environment never defined versions.
    WebGPU,
}

/// The number Vulkan gives to version `major.minor`.
pub open spec fn vulkan_version(major: int, minor: int) -> int {
    major * 0x40_0000 + minor * 0x1000
}

impl EnvVersion {
    /// The number handed to the native library as the `version` of
    /// [`crate::options::CompileOptions::set_target_env`].
    pub open spec fn spec_raw(self) -> int {
        match self {
            EnvVersion::Vulkan1_0 => vulkan_version(1, 0),
            EnvVersion::Vulkan1_1 => vulkan_version(1, 1),
            EnvVersion::Vulkan1_2 => vulkan_version(1, 2),
            EnvVersion::Vulkan1_3 => vulkan_version(1, 3),
            EnvVersion::OpenGL4_5 => 450,
            EnvVersion::WebGPU => 451,
        }
    }

    /// Computes [`Self::spec_raw`].
    pub fn raw(self) -> (code: u32)
        ensures
            code == self.spec_raw(),
    {
        match self {
            EnvVersion::Vulkan1_0 => 0x40_0000,
            EnvVersion::Vulkan1_1 => 0x40_1000,
            EnvVersion::Vulkan1_2 => 0x40_2000,
            EnvVersion::Vulkan1_3 => 0x40_3000,
            EnvVersion::OpenGL4_5 => 450,
            EnvVersion::WebGPU => 451,
        }
    }
}

/// A version of SPIR-V.
#[derive(Clone, Copy, Debug, PartialEq, Eq, Structural)]
pub enum SpirvVersion {
    V1_0,
    V1_1,
    V1_2,
    V1_3,
    V1_4,
    V1_5,
    V1_6,
}

/// The second word of a SPIR-V module of version `major.minor`: the major
/// number in bits 16 to 23, the minor number in bits 8 to 15, zero elsewhere.
pub open spec fn spirv_version_word(major: int, minor: int) -> int {
    major * 0x1_0000 + minor * 0x100
}

impl SpirvVersion {
    /// The minor number of this version; the major number is always 1.
    pub open spec fn minor(self) -> int {
        match self {
            SpirvVersion::V1_0 => 0,
            SpirvVersion::V1_1 => 1,
            SpirvVersion::V1_2 => 2,
            SpirvVersion::V1_3 => 3,
            SpirvVersion::V1_4 => 4,
            SpirvVersion::V1_5 => 5,
            SpirvVersion::V1_6 => 6,
        }
    }

    /// The number by which the native library knows this version: its version word.
    pub open spec fn spec_raw(self) -> int {
        spirv_version_word(1, self.minor())
    }

    /// Computes [`Self::spec_raw`].
    pub fn raw(self) -> (code: i32)
        ensures
            code == self.spec_raw(),
    {
        match self {
            SpirvVersion::V1_0 => 0x0001_0000,
            SpirvVersion::V1_1 => 0x0001_0100,
            SpirvVersion::V1_2 => 0x0001_0200,
            SpirvVersion::V1_3 => 0x0001_0300,
            SpirvVersion::V1_4 => 0x0001_0400,
            SpirvVersion::V1_5 => 0x0001_0500,
            SpirvVersion::V1_6 => 0x0001_0600,
        }
    }
}

/// The language a source text is written in.
#[derive(Clone, Copy, Debug, PartialEq, Eq, Structural)]
pub enum SourceLanguage {
    GLSL,
    HLSL,
}

impl SourceLanguage {
    /// The number by which the native library knows this language.
    pub open spec fn spec_raw(self) -> int {
        match self {
            SourceLanguage::GLSL => 0,
            SourceLanguage::HLSL => 1,
        }
    }

    /// Computes [`Self::spec_raw`].
    pub fn raw(self) -> (code: i32)
        ensures
            code == self.spec_raw(),
    {
        match self {
            SourceLanguage::GLSL => 0,
            SourceLanguage::HLSL => 1,
        }
    }
}

/// The kinds of resource that are bound to a pipeline through numbered descriptors.
#[derive(Clone, Copy, Debug, PartialEq, Eq, Structural)]
pub enum ResourceKind {
    /// Image and image buffer.
    Image,
    /// Pure sampler.
    Sampler,
    /// Sampled texture in GLSL, shader resource view in HLSL.
    Texture,
    /// Uniform buffer object in GLSL, `cbuffer` in HLSL.
    Buffer,
    /// Shader storage buffer object in GLSL.
    StorageBuffer,
    /// Unordered access view in HLSL: a writable storage image or storage buffer.
    UnorderedAccessView,
}

impl ResourceKind {
    /// The number by which the native library knows this kind of resource.
    pub open spec fn spec_raw(self) -> int {
        match self {
            ResourceKind::Image => 0,
            ResourceKind::Sampler => 1,
            ResourceKind::Texture => 2,
            ResourceKind::Buffer => 3,
            ResourceKind::StorageBuffer => 4,
            ResourceKind::UnorderedAccessView => 5,
        }
    }

    /// Computes [`Self::spec_raw`].
    pub fn raw(self) -> (code: i32)
        ensures
            code == self.spec_raw(),
    {
        match self {
            ResourceKind::Image => 0,
            ResourceKind::Sampler => 1,
            ResourceKind::Texture => 2,
            ResourceKind::Buffer => 3,
            ResourceKind::StorageBuffer => 4,
            ResourceKind::UnorderedAccessView => 5,
        }
    }
}

/// The pipeline stage a source text is compiled for.
///
/// A plain stage forces the compiler to treat the source as that stage,
/// whatever `#pragma` the source holds. A `Default` stage is the fallback
/// when the source holds no such `#pragma`.
#[derive(Clone, Copy, Debug, PartialEq, Eq, Structural)]
pub enum ShaderKind {
    Vertex,
    Fragment,
    Compute,
    Geometry,
    TessControl,
    TessEvaluation,
    /// The stage is whatever the `#pragma` of the source says; without one the
    /// compilation fails.
    InferFromSource,
    DefaultVertex,
    DefaultFragment,
    DefaultCompute,
    DefaultGeometry,
    DefaultTessControl,
    DefaultTessEvaluation,
    SpirvAssembly,
    RayGeneration,
    AnyHit,
    ClosestHit,
    Miss,
    Intersection,
    Callable,
    DefaultRayGeneration,
    DefaultAnyHit,
    DefaultClosestHit,
    DefaultMiss,
    DefaultIntersection,
    DefaultCallable,
    Task,
    Mesh,
    DefaultTask,
    DefaultMesh,
}

impl ShaderKind {
    /// The number by which the native library knows this stage.
    pub open spec fn spec_raw(self) -> int {
        match self {
            ShaderKind::Vertex => 0,
            ShaderKind::Fragment => 1,
            ShaderKind::Compute => 2,
            ShaderKind::Geometry => 3,
            ShaderKind::TessControl => 4,
            ShaderKind::TessEvaluation => 5,
            ShaderKind::InferFromSource => 6,
            ShaderKind::DefaultVertex => 7,
            ShaderKind::DefaultFragment => 8,
            ShaderKind::DefaultCompute => 9,
            ShaderKind::DefaultGeometry => 10,
            ShaderKind::DefaultTessControl => 11,
            ShaderKind::DefaultTessEvaluation => 12,
            ShaderKind::SpirvAssembly => 13,
            ShaderKind::RayGeneration => 14,
            ShaderKind::AnyHit => 15,
            ShaderKind::ClosestHit => 16,
            ShaderKind::Miss => 17,
            ShaderKind::Intersection => 18,
            ShaderKind::Callable => 19,
            ShaderKind::DefaultRayGeneration => 20,
            ShaderKind::DefaultAnyHit => 21,
            ShaderKind::DefaultClosestHit => 22,
            ShaderKind::DefaultMiss => 23,
            ShaderKind::DefaultIntersection => 24,
            ShaderKind::DefaultCallable => 25,
            ShaderKind::Task => 26,
            ShaderKind::Mesh => 27,
            ShaderKind::DefaultTask => 28,
            ShaderKind::DefaultMesh => 29,
        }
    }

    /// Computes [`Self::spec_raw`].
    pub fn raw(self) -> (code: i32)
        ensures
            code == self.spec_raw(),
    {
        match self {
            ShaderKind::Vertex => 0,
            ShaderKind::Fragment => 1,
            ShaderKind::Compute => 2,
            ShaderKind::Geometry => 3,
            ShaderKind::TessControl => 4,
            ShaderKind::TessEvaluation => 5,
            ShaderKind::InferFromSource => 6,
            ShaderKind::DefaultVertex => 7,
            ShaderKind::DefaultFragment => 8,
            ShaderKind::DefaultCompute => 9,
            ShaderKind::DefaultGeometry => 10,
            ShaderKind::DefaultTessControl => 11,
            ShaderKind::DefaultTessEvaluation => 12,
            ShaderKind::SpirvAssembly => 13,
            ShaderKind::RayGeneration => 14,
            ShaderKind::AnyHit => 15,
            ShaderKind::ClosestHit => 16,
            ShaderKind::Miss => 17,
            ShaderKind::Intersection => 18,
            ShaderKind::Callable => 19,
            ShaderKind::DefaultRayGeneration => 20,
            ShaderKind::DefaultAnyHit => 21,
            ShaderKind::DefaultClosestHit => 22,
            ShaderKind::DefaultMiss => 23,
            ShaderKind::DefaultIntersection => 24,
            ShaderKind::DefaultCallable => 25,
            ShaderKind::Task => 26,
            ShaderKind::Mesh => 27,
            ShaderKind::DefaultTask => 28,
            ShaderKind::DefaultMesh => 29,
        }
    }
}

/// A GLSL profile.
#[derive(Clone, Copy, Debug, PartialEq, Eq, Structural)]
pub enum GlslProfile {
    /// The version line named no profile.
    NoProfile,
    Core,
    Compatibility,
    Es,
}

impl GlslProfile {
    /// The number by which the native library knows this profile.
    pub open spec fn spec_raw(self) -> int {
        match self {
            GlslProfile::NoProfile => 0,
            GlslProfile::Core => 1,
            GlslProfile::Compatibility => 2,
            GlslProfile::Es => 3,
        }
    }

    /// Computes [`Self::spec_raw`].
    pub fn raw(self) -> (code: i32)
        ensures
            code == self.spec_raw(),
    {
        match self {
            GlslProfile::NoProfile => 0,
            GlslProfile::Core => 1,
            GlslProfile::Compatibility => 2,
            GlslProfile::Es => 3,
        }
    }

    /// The profile that the native library knows by `code`, if there is one.
    pub open spec fn spec_from_raw(code: int) -> Option<GlslProfile> {
        if code == 0 {
            Some(GlslProfile::NoProfile)
        } else if code == 1 {
            Some(GlslProfile::Core)
        } else if code == 2 {
            Some(GlslProfile::Compatibility)
        } else if code == 3 {
            Some(GlslProfile::Es)
        } else {
            None
        }
    }

    /// Reads a profile back from the number the native library reports.
    pub fn from_raw(code: i32) -> (profile: Option<GlslProfile>)
        ensures
            profile == Self::spec_from_raw(code as int),
            profile is Some <==> 0 <= code <= 3,
    {
        match code {
            0 => Some(GlslProfile::NoProfile),
            1 => Some(GlslProfile::Core),
            2 => Some(GlslProfile::Compatibility),
            3 => Some(GlslProfile::Es),
            _ => None,
        }
    }

    /// Reading a profile's number back gives the profile, and a number that
    /// reads as a profile is that profile's number.
    pub proof fn lemma_raw_round_trip(profile: GlslProfile, code: int)
        ensures
            Self::spec_from_raw(profile.spec_raw()) == Some(profile),
            Self::spec_from_raw(code) == Some(profile) ==> code == profile.spec_raw(),
    {
    }
}

/// How hard the compiler optimizes.
#[derive(Clone, Copy, Debug, PartialEq, Eq, Structural)]
pub enum OptimizationLevel {
    /// No optimization.
    Zero,
    /// Optimize for small code.
    Size,
    /// Optimize for fast code.
    Performance,
}

impl OptimizationLevel {
    /// The number by which the native library knows this level.
    pub open spec fn spec_raw(self) -> int {
        match self {
            OptimizationLevel::Zero => 0,
            OptimizationLevel::Size => 1,
            OptimizationLevel::Performance => 2,
        }
    }

    /// Computes [`Self::spec_raw`].
    pub fn raw(self) -> (code: i32)
        ensures
            code == self.spec_raw(),
    {
        match self {
            OptimizationLevel::Zero => 0,
            OptimizationLevel::Size => 1,
            OptimizationLevel::Performance => 2,
        }
    }
}

impl TargetEnv {
    /// No two environments share a number, and the numbers count up from zero.
    pub proof fn lemma_raw_distinct(a: TargetEnv, b: TargetEnv)
        ensures
            a.spec_raw() == b.spec_raw() ==> a == b,
            0 <= a.spec_raw() < 3,
    {
    }
}

impl EnvVersion {
    /// No two versions share a number.
    pub proof fn lemma_raw_distinct(a: EnvVersion, b: EnvVersion)
        ensures
            a.spec_raw() == b.spec_raw() ==> a == b,
    {
    }
}

impl SpirvVersion {
    /// No two versions share a number.
    pub proof fn lemma_raw_distinct(a: SpirvVersion, b: SpirvVersion)
        ensures
            a.spec_raw() == b.spec_raw() ==> a == b,
    {
    }
}

impl SourceLanguage {
    /// No two languages share a number, and the numbers count up from zero.
    pub proof fn lemma_raw_distinct(a: SourceLanguage, b: SourceLanguage)
        ensures
            a.spec_raw() == b.spec_raw() ==> a == b,
            0 <= a.spec_raw() < 2,
    {
    }
}

impl ResourceKind {
    /// No two kinds of resource share a number, and the numbers count up from zero.
    pub proof fn lemma_raw_distinct(a: ResourceKind, b: ResourceKind)
        ensures
            a.spec_raw() == b.spec_raw() ==> a == b,
            0 <= a.spec_raw() < 6,
    {
    }
}

impl ShaderKind {
    /// No two stages share a number, and the numbers count up from zero.
    pub proof fn lemma_raw_distinct(a: ShaderKind, b: ShaderKind)
        ensures
            a.spec_raw() == b.spec_raw() ==> a == b,
            0 <= a.spec_raw() < 30,
    {
    }
}

impl OptimizationLevel {
    /// No two levels share a number, and the numbers count up from zero.
    pub proof fn lemma_raw_distinct(a: OptimizationLevel, b: OptimizationLevel)
        ensures
            a.spec_raw() == b.spec_raw() ==> a == b,
            0 <= a.spec_raw() < 3,
    {
    }
}

} // verus!
