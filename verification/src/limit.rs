use vstd::prelude::*;

verus! {

/// A resource limit of the compiler.
#[derive(Clone, Copy, Debug, PartialEq, Eq, Structural)]
pub enum Limit {
    MaxLights,
    MaxClipPlanes,
    MaxTextureUnits,
    MaxTextureCoords,
    MaxVertexAttribs,
    MaxVertexUniformComponents,
    MaxVaryingFloats,
    MaxVertexTextureImageUnits,
    MaxCombinedTextureImageUnits,
    MaxTextureImageUnits,
    MaxFragmentUniformComponents,
    MaxDrawBuffers,
    MaxVertexUniformVectors,
    MaxVaryingVectors,
    MaxFragmentUniformVectors,
    MaxVertexOutputVectors,
    MaxFragmentInputVectors,
    MinProgramTexelOffset,
    MaxProgramTexelOffset,
    MaxClipDistances,
    MaxComputeWorkGroupCountX,
    MaxComputeWorkGroupCountY,
    MaxComputeWorkGroupCountZ,
    MaxComputeWorkGroupSizeX,
    MaxComputeWorkGroupSizeY,
    MaxComputeWorkGroupSizeZ,
    MaxComputeUniformComponents,
    MaxComputeTextureImageUnits,
    MaxComputeImageUniforms,
    MaxComputeAtomicCounters,
    MaxComputeAtomicCounterBuffers,
    MaxVaryingComponents,
    MaxVertexOutputComponents,
    MaxGeometryInputComponents,
    MaxGeometryOutputComponents,
    MaxFragmentInputComponents,
    MaxImageUnits,
    MaxCombinedImageUnitsAndFragmentOutputs,
    MaxCombinedShaderOutputResources,
    MaxImageSamples,
    MaxVertexImageUniforms,
    MaxTessControlImageUniforms,
    MaxTessEvaluationImageUniforms,
    MaxGeometryImageUniforms,
    MaxFragmentImageUniforms,
    MaxCombinedImageUniforms,
    MaxGeometryTextureImageUnits,
    MaxGeometryOutputVertices,
    MaxGeometryTotalOutputComponents,
    MaxGeometryUniformComponents,
    MaxGeometryVaryingComponents,
    MaxTessControlInputComponents,
    MaxTessControlOutputComponents,
    MaxTessControlTextureImageUnits,
    MaxTessControlUniformComponents,
    MaxTessControlTotalOutputComponents,
    MaxTessEvaluationInputComponents,
    MaxTessEvaluationOutputComponents,
    MaxTessEvaluationTextureImageUnits,
    MaxTessEvaluationUniformComponents,
    MaxTessPatchComponents,
    MaxPatchVertices,
    MaxTessGenLevel,
    MaxViewports,
    MaxVertexAtomicCounters,
    MaxTessControlAtomicCounters,
    MaxTessEvaluationAtomicCounters,
    MaxGeometryAtomicCounters,
    MaxFragmentAtomicCounters,
    MaxCombinedAtomicCounters,
    MaxAtomicCounterBindings,
    MaxVertexAtomicCounterBuffers,
    MaxTessControlAtomicCounterBuffers,
    MaxTessEvaluationAtomicCounterBuffers,
    MaxGeometryAtomicCounterBuffers,
    MaxFragmentAtomicCounterBuffers,
    MaxCombinedAtomicCounterBuffers,
    MaxAtomicCounterBufferSize,
    MaxTransformFeedbackBuffers,
    MaxTransformFeedbackInterleavedComponents,
    MaxCullDistances,
    MaxCombinedClipAndCullDistances,
    MaxSamples,
    MaxMeshOutputVerticesNv,
    MaxMeshOutputPrimitivesNv,
    MaxMeshWorkGroupSizeXNv,
    MaxMeshWorkGroupSizeYNv,
    MaxMeshWorkGroupSizeZNv,
    MaxTaskWorkGroupSizeXNv,
    MaxTaskWorkGroupSizeYNv,
    MaxTaskWorkGroupSizeZNv,
    MaxMeshViewCountNv,
    MaxMeshOutputVerticesExt,
    MaxMeshOutputPrimitivesExt,
    MaxMeshWorkGroupSizeXExt,
    MaxMeshWorkGroupSizeYExt,
    MaxMeshWorkGroupSizeZExt,
    MaxTaskWorkGroupSizeXExt,
    MaxTaskWorkGroupSizeYExt,
    MaxTaskWorkGroupSizeZExt,
    MaxMeshViewCountExt,
    MaxDualSourceDrawBuffersExt,
}

impl Limit {
    /// The number by which the native library knows this limit.
    pub open spec fn spec_raw(self) -> int {
        match self {
            Limit::MaxLights => 0,
            Limit::MaxClipPlanes => 1,
            Limit::MaxTextureUnits => 2,
            Limit::MaxTextureCoords => 3,
            Limit::MaxVertexAttribs => 4,
            Limit::MaxVertexUniformComponents => 5,
            Limit::MaxVaryingFloats => 6,
            Limit::MaxVertexTextureImageUnits => 7,
            Limit::MaxCombinedTextureImageUnits => 8,
            Limit::MaxTextureImageUnits => 9,
            Limit::MaxFragmentUniformComponents => 10,
            Limit::MaxDrawBuffers => 11,
            Limit::MaxVertexUniformVectors => 12,
            Limit::MaxVaryingVectors => 13,
            Limit::MaxFragmentUniformVectors => 14,
            Limit::MaxVertexOutputVectors => 15,
            Limit::MaxFragmentInputVectors => 16,
            Limit::MinProgramTexelOffset => 17,
            Limit::MaxProgramTexelOffset => 18,
            Limit::MaxClipDistances => 19,
            Limit::MaxComputeWorkGroupCountX => 20,
            Limit::MaxComputeWorkGroupCountY => 21,
            Limit::MaxComputeWorkGroupCountZ => 22,
            Limit::MaxComputeWorkGroupSizeX => 23,
            Limit::MaxComputeWorkGroupSizeY => 24,
            Limit::MaxComputeWorkGroupSizeZ => 25,
            Limit::MaxComputeUniformComponents => 26,
            Limit::MaxComputeTextureImageUnits => 27,
            Limit::MaxComputeImageUniforms => 28,
            Limit::MaxComputeAtomicCounters => 29,
            Limit::MaxComputeAtomicCounterBuffers => 30,
            Limit::MaxVaryingComponents => 31,
            Limit::MaxVertexOutputComponents => 32,
            Limit::MaxGeometryInputComponents => 33,
            Limit::MaxGeometryOutputComponents => 34,
            Limit::MaxFragmentInputComponents => 35,
            Limit::MaxImageUnits => 36,
            Limit::MaxCombinedImageUnitsAndFragmentOutputs => 37,
            Limit::MaxCombinedShaderOutputResources => 38,
            Limit::MaxImageSamples => 39,
            Limit::MaxVertexImageUniforms => 40,
            Limit::MaxTessControlImageUniforms => 41,
            Limit::MaxTessEvaluationImageUniforms => 42,
            Limit::MaxGeometryImageUniforms => 43,
            Limit::MaxFragmentImageUniforms => 44,
            Limit::MaxCombinedImageUniforms => 45,
            Limit::MaxGeometryTextureImageUnits => 46,
            Limit::MaxGeometryOutputVertices => 47,
            Limit::MaxGeometryTotalOutputComponents => 48,
            Limit::MaxGeometryUniformComponents => 49,
            Limit::MaxGeometryVaryingComponents => 50,
            Limit::MaxTessControlInputComponents => 51,
            Limit::MaxTessControlOutputComponents => 52,
            Limit::MaxTessControlTextureImageUnits => 53,
            Limit::MaxTessControlUniformComponents => 54,
            Limit::MaxTessControlTotalOutputComponents => 55,
            Limit::MaxTessEvaluationInputComponents => 56,
            Limit::MaxTessEvaluationOutputComponents => 57,
            Limit::MaxTessEvaluationTextureImageUnits => 58,
            Limit::MaxTessEvaluationUniformComponents => 59,
            Limit::MaxTessPatchComponents => 60,
            Limit::MaxPatchVertices => 61,
            Limit::MaxTessGenLevel => 62,
            Limit::MaxViewports => 63,
            Limit::MaxVertexAtomicCounters => 64,
            Limit::MaxTessControlAtomicCounters => 65,
            Limit::MaxTessEvaluationAtomicCounters => 66,
            Limit::MaxGeometryAtomicCounters => 67,
            Limit::MaxFragmentAtomicCounters => 68,
            Limit::MaxCombinedAtomicCounters => 69,
            Limit::MaxAtomicCounterBindings => 70,
            Limit::MaxVertexAtomicCounterBuffers => 71,
            Limit::MaxTessControlAtomicCounterBuffers => 72,
            Limit::MaxTessEvaluationAtomicCounterBuffers => 73,
            Limit::MaxGeometryAtomicCounterBuffers => 74,
            Limit::MaxFragmentAtomicCounterBuffers => 75,
            Limit::MaxCombinedAtomicCounterBuffers => 76,
            Limit::MaxAtomicCounterBufferSize => 77,
            Limit::MaxTransformFeedbackBuffers => 78,
            Limit::MaxTransformFeedbackInterleavedComponents => 79,
            Limit::MaxCullDistances => 80,
            Limit::MaxCombinedClipAndCullDistances => 81,
            Limit::MaxSamples => 82,
            Limit::MaxMeshOutputVerticesNv => 83,
            Limit::MaxMeshOutputPrimitivesNv => 84,
            Limit::MaxMeshWorkGroupSizeXNv => 85,
            Limit::MaxMeshWorkGroupSizeYNv => 86,
            Limit::MaxMeshWorkGroupSizeZNv => 87,
            Limit::MaxTaskWorkGroupSizeXNv => 88,
            Limit::MaxTaskWorkGroupSizeYNv => 89,
            Limit::MaxTaskWorkGroupSizeZNv => 90,
            Limit::MaxMeshViewCountNv => 91,
            Limit::MaxMeshOutputVerticesExt => 92,
            Limit::MaxMeshOutputPrimitivesExt => 93,
            Limit::MaxMeshWorkGroupSizeXExt => 94,
            Limit::MaxMeshWorkGroupSizeYExt => 95,
            Limit::MaxMeshWorkGroupSizeZExt => 96,
            Limit::MaxTaskWorkGroupSizeXExt => 97,
            Limit::MaxTaskWorkGroupSizeYExt => 98,
            Limit::MaxTaskWorkGroupSizeZExt => 99,
            Limit::MaxMeshViewCountExt => 100,
            Limit::MaxDualSourceDrawBuffersExt => 101,
        }
    }

    /// Computes [`Self::spec_raw`].
    pub fn raw(self) -> (code: i32)
        ensures
            code == self.spec_raw(),
    {
        match self {
            Limit::MaxLights => 0,
            Limit::MaxClipPlanes => 1,
            Limit::MaxTextureUnits => 2,
            Limit::MaxTextureCoords => 3,
            Limit::MaxVertexAttribs => 4,
            Limit::MaxVertexUniformComponents => 5,
            Limit::MaxVaryingFloats => 6,
            Limit::MaxVertexTextureImageUnits => 7,
            Limit::MaxCombinedTextureImageUnits => 8,
            Limit::MaxTextureImageUnits => 9,
            Limit::MaxFragmentUniformComponents => 10,
            Limit::MaxDrawBuffers => 11,
            Limit::MaxVertexUniformVectors => 12,
            Limit::MaxVaryingVectors => 13,
            Limit::MaxFragmentUniformVectors => 14,
            Limit::MaxVertexOutputVectors => 15,
            Limit::MaxFragmentInputVectors => 16,
            Limit::MinProgramTexelOffset => 17,
            Limit::MaxProgramTexelOffset => 18,
            Limit::MaxClipDistances => 19,
            Limit::MaxComputeWorkGroupCountX => 20,
            Limit::MaxComputeWorkGroupCountY => 21,
            Limit::MaxComputeWorkGroupCountZ => 22,
            Limit::MaxComputeWorkGroupSizeX => 23,
            Limit::MaxComputeWorkGroupSizeY => 24,
            Limit::MaxComputeWorkGroupSizeZ => 25,
            Limit::MaxComputeUniformComponents => 26,
            Limit::MaxComputeTextureImageUnits => 27,
            Limit::MaxComputeImageUniforms => 28,
            Limit::MaxComputeAtomicCounters => 29,
            Limit::MaxComputeAtomicCounterBuffers => 30,
            Limit::MaxVaryingComponents => 31,
            Limit::MaxVertexOutputComponents => 32,
            Limit::MaxGeometryInputComponents => 33,
            Limit::MaxGeometryOutputComponents => 34,
            Limit::MaxFragmentInputComponents => 35,
            Limit::MaxImageUnits => 36,
            Limit::MaxCombinedImageUnitsAndFragmentOutputs => 37,
            Limit::MaxCombinedShaderOutputResources => 38,
            Limit::MaxImageSamples => 39,
            Limit::MaxVertexImageUniforms => 40,
            Limit::MaxTessControlImageUniforms => 41,
            Limit::MaxTessEvaluationImageUniforms => 42,
            Limit::MaxGeometryImageUniforms => 43,
            Limit::MaxFragmentImageUniforms => 44,
            Limit::MaxCombinedImageUniforms => 45,
            Limit::MaxGeometryTextureImageUnits => 46,
            Limit::MaxGeometryOutputVertices => 47,
            Limit::MaxGeometryTotalOutputComponents => 48,
            Limit::MaxGeometryUniformComponents => 49,
            Limit::MaxGeometryVaryingComponents => 50,
            Limit::MaxTessControlInputComponents => 51,
            Limit::MaxTessControlOutputComponents => 52,
            Limit::MaxTessControlTextureImageUnits => 53,
            Limit::MaxTessControlUniformComponents => 54,
            Limit::MaxTessControlTotalOutputComponents => 55,
            Limit::MaxTessEvaluationInputComponents => 56,
            Limit::MaxTessEvaluationOutputComponents => 57,
            Limit::MaxTessEvaluationTextureImageUnits => 58,
            Limit::MaxTessEvaluationUniformComponents => 59,
            Limit::MaxTessPatchComponents => 60,
            Limit::MaxPatchVertices => 61,
            Limit::MaxTessGenLevel => 62,
            Limit::MaxViewports => 63,
            Limit::MaxVertexAtomicCounters => 64,
            Limit::MaxTessControlAtomicCounters => 65,
            Limit::MaxTessEvaluationAtomicCounters => 66,
            Limit::MaxGeometryAtomicCounters => 67,
            Limit::MaxFragmentAtomicCounters => 68,
            Limit::MaxCombinedAtomicCounters => 69,
            Limit::MaxAtomicCounterBindings => 70,
            Limit::MaxVertexAtomicCounterBuffers => 71,
            Limit::MaxTessControlAtomicCounterBuffers => 72,
            Limit::MaxTessEvaluationAtomicCounterBuffers => 73,
            Limit::MaxGeometryAtomicCounterBuffers => 74,
            Limit::MaxFragmentAtomicCounterBuffers => 75,
            Limit::MaxCombinedAtomicCounterBuffers => 76,
            Limit::MaxAtomicCounterBufferSize => 77,
            Limit::MaxTransformFeedbackBuffers => 78,
            Limit::MaxTransformFeedbackInterleavedComponents => 79,
            Limit::MaxCullDistances => 80,
            Limit::MaxCombinedClipAndCullDistances => 81,
            Limit::MaxSamples => 82,
            Limit::MaxMeshOutputVerticesNv => 83,
            Limit::MaxMeshOutputPrimitivesNv => 84,
            Limit::MaxMeshWorkGroupSizeXNv => 85,
            Limit::MaxMeshWorkGroupSizeYNv => 86,
            Limit::MaxMeshWorkGroupSizeZNv => 87,
            Limit::MaxTaskWorkGroupSizeXNv => 88,
            Limit::MaxTaskWorkGroupSizeYNv => 89,
            Limit::MaxTaskWorkGroupSizeZNv => 90,
            Limit::MaxMeshViewCountNv => 91,
            Limit::MaxMeshOutputVerticesExt => 92,
            Limit::MaxMeshOutputPrimitivesExt => 93,
            Limit::MaxMeshWorkGroupSizeXExt => 94,
            Limit::MaxMeshWorkGroupSizeYExt => 95,
            Limit::MaxMeshWorkGroupSizeZExt => 96,
            Limit::MaxTaskWorkGroupSizeXExt => 97,
            Limit::MaxTaskWorkGroupSizeYExt => 98,
            Limit::MaxTaskWorkGroupSizeZExt => 99,
            Limit::MaxMeshViewCountExt => 100,
            Limit::MaxDualSourceDrawBuffersExt => 101,
        }
    }
}

impl Limit {
    /// No two limits share a number, and the numbers count up from zero.
    pub proof fn lemma_raw_distinct(a: Limit, b: Limit)
        ensures
            a.spec_raw() == b.spec_raw() ==> a == b,
            0 <= a.spec_raw() < 102,
    {
    }
}

} // verus!
