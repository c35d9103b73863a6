use shaderc::{
    CompileOptions, EnvVersion, GlslProfile, Limit, NulTerminated, OptimizationLevel,
    OptionsCall, OptionsRequest, ResourceKind, ShaderKind, SourceLanguage, SpirvVersion,
    TargetEnv,
};

fn options() -> CompileOptions {
    CompileOptions::new(0x2000).unwrap()
}

fn c(text: &str) -> NulTerminated {
    NulTerminated::new(text).unwrap()
}

fn call(request: OptionsRequest) -> OptionsCall {
    OptionsCall { options: 0x2000, request }
}

#[test]
fn there_are_no_options_without_a_native_object() {
    assert!(CompileOptions::new(0).is_none());
    assert!(CompileOptions::new(1).is_some());
    assert_eq!(0x2000, options().raw());
    assert!(!options().has_include_callback());
}

#[test]
fn a_copy_owns_the_object_it_is_given() {
    let mut first = options();
    first.add_macro_definition("E", None);
    first.set_include_callback();
    assert!(first.clone(0).is_none());
    let copy = first.clone(0x3000).unwrap();
    assert_eq!(0x3000, copy.raw());
    assert_eq!(0x2000, first.raw());
    assert!(first.has_include_callback());
    assert!(!copy.has_include_callback());
}

#[test]
fn the_target_environment_goes_by_number() {
    assert_eq!(
        call(OptionsRequest::SetTargetEnv { env: 1, version: 0 }),
        options().set_target_env(TargetEnv::OpenGL, 0)
    );
    assert_eq!(
        call(OptionsRequest::SetTargetEnv { env: 0, version: (1 << 22) | (1 << 12) }),
        options().set_target_env(TargetEnv::Vulkan, EnvVersion::Vulkan1_1.raw())
    );
    assert_eq!(
        call(OptionsRequest::SetTargetSpirv { version: 0x0001_0300 }),
        options().set_target_spirv(SpirvVersion::V1_3)
    );
}

#[test]
fn the_source_language_goes_by_number() {
    assert_eq!(
        call(OptionsRequest::SetSourceLanguage { language: 1 }),
        options().set_source_language(SourceLanguage::HLSL)
    );
    assert_eq!(
        call(OptionsRequest::SetSourceLanguage { language: 0 }),
        options().set_source_language(SourceLanguage::GLSL)
    );
}

#[test]
fn a_forced_version_keeps_its_bits() {
    assert_eq!(
        call(OptionsRequest::SetForcedVersionProfile { version: 450, profile: 1 }),
        options().set_forced_version_profile(450, GlslProfile::Core)
    );
    assert_eq!(
        call(OptionsRequest::SetForcedVersionProfile { version: 310, profile: 3 }),
        options().set_forced_version_profile(310, GlslProfile::Es)
    );
    assert_eq!(
        call(OptionsRequest::SetForcedVersionProfile { version: -1, profile: 0 }),
        options().set_forced_version_profile(u32::MAX, GlslProfile::NoProfile)
    );
    assert_eq!(
        call(OptionsRequest::SetForcedVersionProfile { version: i32::MIN, profile: 2 }),
        options().set_forced_version_profile(0x8000_0000, GlslProfile::Compatibility)
    );
    assert_eq!(
        call(OptionsRequest::SetForcedVersionProfile { version: i32::MAX, profile: 0 }),
        options().set_forced_version_profile(0x7fff_ffff, GlslProfile::NoProfile)
    );
}

#[test]
fn a_limit_goes_by_number_with_its_value() {
    assert_eq!(
        call(OptionsRequest::SetLimit { limit: 18, value: 10 }),
        options().set_limit(Limit::MaxProgramTexelOffset, 10)
    );
    assert_eq!(
        call(OptionsRequest::SetLimit { limit: 17, value: -8 }),
        options().set_limit(Limit::MinProgramTexelOffset, -8)
    );
}

#[test]
fn switches_are_passed_as_they_are() {
    assert_eq!(
        call(OptionsRequest::SetAutoBindUniforms { auto_bind: true }),
        options().set_auto_bind_uniforms(true)
    );
    assert_eq!(
        call(OptionsRequest::SetAutoBindUniforms { auto_bind: false }),
        options().set_auto_bind_uniforms(false)
    );
    assert_eq!(
        call(OptionsRequest::SetAutoCombinedImageSampler { auto_combine: true }),
        options().set_auto_combined_image_sampler(true)
    );
    assert_eq!(
        call(OptionsRequest::SetHlslIoMapping { hlsl_iomap: true }),
        options().set_hlsl_io_mapping(true)
    );
    assert_eq!(
        call(OptionsRequest::SetHlslOffsets { hlsl_offsets: false }),
        options().set_hlsl_offsets(false)
    );
    assert_eq!(
        call(OptionsRequest::SetAutoMapLocations { auto_map: true }),
        options().set_auto_map_locations(true)
    );
    assert_eq!(
        call(OptionsRequest::SetHlslFunctionality1 { enable: true }),
        options().set_hlsl_functionality1(true)
    );
    assert_eq!(call(OptionsRequest::SetInvertY { enable: false }), options().set_invert_y(false));
    assert_eq!(call(OptionsRequest::SetNanClamp { enable: true }), options().set_nan_clamp(true));
}

#[test]
fn modes_take_no_argument() {
    assert_eq!(call(OptionsRequest::SetGenerateDebugInfo), options().set_generate_debug_info());
    assert_eq!(call(OptionsRequest::SetSuppressWarnings), options().set_suppress_warnings());
    assert_eq!(call(OptionsRequest::SetWarningsAsErrors), options().set_warnings_as_errors());
}

#[test]
fn the_optimization_level_goes_by_number() {
    assert_eq!(
        call(OptionsRequest::SetOptimizationLevel { level: 0 }),
        options().set_optimization_level(OptimizationLevel::Zero)
    );
    assert_eq!(
        call(OptionsRequest::SetOptimizationLevel { level: 1 }),
        options().set_optimization_level(OptimizationLevel::Size)
    );
    assert_eq!(
        call(OptionsRequest::SetOptimizationLevel { level: 2 }),
        options().set_optimization_level(OptimizationLevel::Performance)
    );
}

#[test]
fn binding_bases_go_by_kind_and_stage() {
    assert_eq!(
        call(OptionsRequest::SetBindingBase { resource_kind: 0, base: 44 }),
        options().set_binding_base(ResourceKind::Image, 44)
    );
    assert_eq!(
        call(OptionsRequest::SetBindingBaseForStage {
            shader_kind: 0,
            resource_kind: 2,
            base: 100
        }),
        options().set_binding_base_for_stage(ShaderKind::Vertex, ResourceKind::Texture, 100)
    );
    assert_eq!(
        call(OptionsRequest::SetBindingBaseForStage {
            shader_kind: 1,
            resource_kind: 2,
            base: 100
        }),
        options().set_binding_base_for_stage(ShaderKind::Fragment, ResourceKind::Texture, 100)
    );
}

#[test]
fn registers_go_as_c_strings() {
    assert_eq!(
        call(OptionsRequest::SetHlslRegisterSetAndBinding {
            register: c("t1"),
            set: c("0"),
            binding: c("5"),
        }),
        options().set_hlsl_register_set_and_binding("t1", "0", "5")
    );
    assert_eq!(
        call(OptionsRequest::SetHlslRegisterSetAndBindingForStage {
            shader_kind: 2,
            register: c("u0"),
            set: c("1"),
            binding: c(""),
        }),
        options().set_hlsl_register_set_and_binding_for_stage(ShaderKind::Compute, "u0", "1", "")
    );
}

#[test]
fn a_macro_goes_with_the_lengths_of_its_texts() {
    assert_eq!(
        call(OptionsRequest::AddMacroDefinition {
            name: c("E"),
            name_length: 1,
            value: Some(c("main")),
            value_length: 4,
        }),
        options().add_macro_definition("E", Some("main"))
    );
    assert_eq!(
        call(OptionsRequest::AddMacroDefinition {
            name: c("E"),
            name_length: 1,
            value: Some(c("")),
            value_length: 0,
        }),
        options().add_macro_definition("E", Some(""))
    );
    assert_eq!(
        call(OptionsRequest::AddMacroDefinition {
            name: c("PI_\u{3c0}"),
            name_length: 5,
            value: Some(c("3.14")),
            value_length: 4,
        }),
        options().add_macro_definition("PI_\u{3c0}", Some("3.14"))
    );
}

#[test]
fn a_macro_without_a_value_has_no_buffer_for_it() {
    assert_eq!(
        call(OptionsRequest::AddMacroDefinition {
            name: c("E"),
            name_length: 1,
            value: None,
            value_length: 0,
        }),
        options().add_macro_definition("E", None)
    );
    assert_ne!(
        options().add_macro_definition("E", Some("")),
        options().add_macro_definition("E", None)
    );
}

#[test]
fn registering_a_resolver_is_remembered() {
    let mut options = options();
    assert!(!options.has_include_callback());
    assert_eq!(call(OptionsRequest::SetIncludeCallbacks), options.set_include_callback());
    assert!(options.has_include_callback());
    options.set_suppress_warnings();
    assert!(options.has_include_callback());
    assert_eq!(0x2000, options.raw());
}
