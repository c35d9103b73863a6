use shaderc::{
    EnvVersion, GlslProfile, IncludeType, Limit, OptimizationLevel, ResourceKind, ShaderKind,
    SourceLanguage, SpirvVersion, TargetEnv,
};

#[test]
fn target_environments_count_from_zero() {
    assert_eq!(0, TargetEnv::Vulkan.raw());
    assert_eq!(1, TargetEnv::OpenGL.raw());
    assert_eq!(2, TargetEnv::OpenGLCompat.raw());
}

#[test]
fn vulkan_versions_follow_vulkan_numbering() {
    assert_eq!(1 << 22, EnvVersion::Vulkan1_0.raw());
    assert_eq!((1 << 22) | (1 << 12), EnvVersion::Vulkan1_1.raw());
    assert_eq!((1 << 22) | (2 << 12), EnvVersion::Vulkan1_2.raw());
    assert_eq!((1 << 22) | (3 << 12), EnvVersion::Vulkan1_3.raw());
    assert_eq!(450, EnvVersion::OpenGL4_5.raw());
    assert_eq!(451, EnvVersion::WebGPU.raw());
}

#[test]
fn spirv_versions_are_version_words() {
    assert_eq!(0x0001_0000, SpirvVersion::V1_0.raw());
    assert_eq!(0x0001_0100, SpirvVersion::V1_1.raw());
    assert_eq!(0x0001_0200, SpirvVersion::V1_2.raw());
    assert_eq!(0x0001_0300, SpirvVersion::V1_3.raw());
    assert_eq!(0x0001_0400, SpirvVersion::V1_4.raw());
    assert_eq!(0x0001_0500, SpirvVersion::V1_5.raw());
    assert_eq!(0x0001_0600, SpirvVersion::V1_6.raw());
    assert_eq!((1 << 16) + (6 << 8), SpirvVersion::V1_6.raw());
}

#[test]
fn source_languages_and_levels_count_from_zero() {
    assert_eq!(0, SourceLanguage::GLSL.raw());
    assert_eq!(1, SourceLanguage::HLSL.raw());
    assert_eq!(0, OptimizationLevel::Zero.raw());
    assert_eq!(1, OptimizationLevel::Size.raw());
    assert_eq!(2, OptimizationLevel::Performance.raw());
}

#[test]
fn resource_kinds_count_from_zero() {
    assert_eq!(0, ResourceKind::Image.raw());
    assert_eq!(1, ResourceKind::Sampler.raw());
    assert_eq!(2, ResourceKind::Texture.raw());
    assert_eq!(3, ResourceKind::Buffer.raw());
    assert_eq!(4, ResourceKind::StorageBuffer.raw());
    assert_eq!(5, ResourceKind::UnorderedAccessView.raw());
}

#[test]
fn shader_kinds_keep_their_places() {
    assert_eq!(0, ShaderKind::Vertex.raw());
    assert_eq!(1, ShaderKind::Fragment.raw());
    assert_eq!(2, ShaderKind::Compute.raw());
    assert_eq!(5, ShaderKind::TessEvaluation.raw());
    assert_eq!(6, ShaderKind::InferFromSource.raw());
    assert_eq!(7, ShaderKind::DefaultVertex.raw());
    assert_eq!(12, ShaderKind::DefaultTessEvaluation.raw());
    assert_eq!(13, ShaderKind::SpirvAssembly.raw());
    assert_eq!(14, ShaderKind::RayGeneration.raw());
    assert_eq!(19, ShaderKind::Callable.raw());
    assert_eq!(20, ShaderKind::DefaultRayGeneration.raw());
    assert_eq!(25, ShaderKind::DefaultCallable.raw());
    assert_eq!(26, ShaderKind::Task.raw());
    assert_eq!(27, ShaderKind::Mesh.raw());
    assert_eq!(28, ShaderKind::DefaultTask.raw());
    assert_eq!(29, ShaderKind::DefaultMesh.raw());
}

#[test]
fn limits_keep_their_places() {
    assert_eq!(0, Limit::MaxLights.raw());
    assert_eq!(1, Limit::MaxClipPlanes.raw());
    assert_eq!(17, Limit::MinProgramTexelOffset.raw());
    assert_eq!(18, Limit::MaxProgramTexelOffset.raw());
    assert_eq!(19, Limit::MaxClipDistances.raw());
    assert_eq!(82, Limit::MaxSamples.raw());
    assert_eq!(83, Limit::MaxMeshOutputVerticesNv.raw());
    assert_eq!(91, Limit::MaxMeshViewCountNv.raw());
    assert_eq!(92, Limit::MaxMeshOutputVerticesExt.raw());
    assert_eq!(100, Limit::MaxMeshViewCountExt.raw());
    assert_eq!(101, Limit::MaxDualSourceDrawBuffersExt.raw());
}

#[test]
fn profiles_read_back_from_their_numbers() {
    assert_eq!(Some(GlslProfile::NoProfile), GlslProfile::from_raw(0));
    assert_eq!(Some(GlslProfile::Core), GlslProfile::from_raw(1));
    assert_eq!(Some(GlslProfile::Compatibility), GlslProfile::from_raw(2));
    assert_eq!(Some(GlslProfile::Es), GlslProfile::from_raw(3));
    assert_eq!(None, GlslProfile::from_raw(4));
    assert_eq!(None, GlslProfile::from_raw(-1));
    for profile in
        [GlslProfile::NoProfile, GlslProfile::Core, GlslProfile::Compatibility, GlslProfile::Es]
    {
        assert_eq!(Some(profile), GlslProfile::from_raw(profile.raw()));
    }
}

#[test]
fn kinds_of_directive_read_back_from_their_tags() {
    assert_eq!(Some(IncludeType::Relative), IncludeType::from_raw(0));
    assert_eq!(Some(IncludeType::Standard), IncludeType::from_raw(1));
    assert_eq!(None, IncludeType::from_raw(2));
    assert_eq!(None, IncludeType::from_raw(-1));
}
