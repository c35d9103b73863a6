use crate::cstr::{nul_free, NulTerminated};
use crate::kinds::{
    GlslProfile, OptimizationLevel, ResourceKind, ShaderKind, SourceLanguage, SpirvVersion,
    TargetEnv,
};
use crate::limit::Limit;
use crate::raw::{signed_of, u32_to_int};
use vstd::pervasive::unreached;
use vstd::prelude::*;
use vstd::string::*;

verus! {

/// One call that changes a native options object, with the arguments as the
/// native library takes them: numbers for what is chosen from a list,
/// zero-terminated bytes for texts.
#[derive(Debug, PartialEq, Eq)]
#[allow(inconsistent_fields)]
pub enum OptionsRequest {
    SetTargetEnv { env: i32, version: u32 },
    SetTargetSpirv { version: i32 },
    SetSourceLanguage { language: i32 },
    SetForcedVersionProfile { version: i32, profile: i32 },
    /// Registers the two functions through which the native library asks for
    /// the sources of `#include` directives and gives their envelopes back.
    SetIncludeCallbacks,
    SetLimit { limit: i32, value: i32 },
    SetAutoBindUniforms { auto_bind: bool },
    SetAutoCombinedImageSampler { auto_combine: bool },
    SetHlslIoMapping { hlsl_iomap: bool },
    SetHlslOffsets { hlsl_offsets: bool },
    SetBindingBase { resource_kind: i32, base: u32 },
    SetBindingBaseForStage { shader_kind: i32, resource_kind: i32, base: u32 },
    SetHlslRegisterSetAndBinding {
        register: NulTerminated,
        set: NulTerminated,
        binding: NulTerminated,
    },
    SetAutoMapLocations { auto_map: bool },
    SetHlslRegisterSetAndBindingForStage {
        shader_kind: i32,
        register: NulTerminated,
        set: NulTerminated,
        binding: NulTerminated,
    },
    SetHlslFunctionality1 { enable: bool },
    SetInvertY { enable: bool },
    SetNanClamp { enable: bool },
    /// Defines a macro. Without a value the native library gets no buffer
    /// for it and the length zero.
    AddMacroDefinition {
        name: NulTerminated,
        name_length: usize,
        value: Option<NulTerminated>,
        value_length: usize,
    },
    SetOptimizationLevel { level: i32 },
    SetGenerateDebugInfo,
    SetSuppressWarnings,
    SetWarningsAsErrors,
}

/// An [`OptionsRequest`] with numbers as integers and texts as their bytes
/// before the terminator.
#[allow(inconsistent_fields)]
pub enum OptionsRequestView {
    SetTargetEnv { env: int, version: int },
    SetTargetSpirv { version: int },
    SetSourceLanguage { language: int },
    SetForcedVersionProfile { version: int, profile: int },
    SetIncludeCallbacks,
    SetLimit { limit: int, value: int },
    SetAutoBindUniforms { auto_bind: bool },
    SetAutoCombinedImageSampler { auto_combine: bool },
    SetHlslIoMapping { hlsl_iomap: bool },
    SetHlslOffsets { hlsl_offsets: bool },
    SetBindingBase { resource_kind: int, base: int },
    SetBindingBaseForStage { shader_kind: int, resource_kind: int, base: int },
    SetHlslRegisterSetAndBinding { register: Seq<u8>, set: Seq<u8>, binding: Seq<u8> },
    SetAutoMapLocations { auto_map: bool },
    SetHlslRegisterSetAndBindingForStage {
        shader_kind: int,
        register: Seq<u8>,
        set: Seq<u8>,
        binding: Seq<u8>,
    },
    SetHlslFunctionality1 { enable: bool },
    SetInvertY { enable: bool },
    SetNanClamp { enable: bool },
    AddMacroDefinition {
        name: Seq<u8>,
        name_length: int,
        value: Option<Seq<u8>>,
        value_length: int,
    },
    SetOptimizationLevel { level: int },
    SetGenerateDebugInfo,
    SetSuppressWarnings,
    SetWarningsAsErrors,
}

impl View for OptionsRequest {
    type V = OptionsRequestView;

    open spec fn view(&self) -> OptionsRequestView {
        match *self {
            OptionsRequest::SetTargetEnv { env, version } => OptionsRequestView::SetTargetEnv {
                env: env as int,
                version: version as int,
            },
            OptionsRequest::SetTargetSpirv { version } => OptionsRequestView::SetTargetSpirv {
                version: version as int,
            },
            OptionsRequest::SetSourceLanguage {
                language,
            } => OptionsRequestView::SetSourceLanguage { language: language as int },
            OptionsRequest::SetForcedVersionProfile {
                version,
                profile,
            } => OptionsRequestView::SetForcedVersionProfile {
                version: version as int,
                profile: profile as int,
            },
            OptionsRequest::SetIncludeCallbacks => OptionsRequestView::SetIncludeCallbacks,
            OptionsRequest::SetLimit { limit, value } => OptionsRequestView::SetLimit {
                limit: limit as int,
                value: value as int,
            },
            OptionsRequest::SetAutoBindUniforms {
                auto_bind,
            } => OptionsRequestView::SetAutoBindUniforms { auto_bind },
            OptionsRequest::SetAutoCombinedImageSampler {
                auto_combine,
            } => OptionsRequestView::SetAutoCombinedImageSampler { auto_combine },
            OptionsRequest::SetHlslIoMapping {
                hlsl_iomap,
            } => OptionsRequestView::SetHlslIoMapping { hlsl_iomap },
            OptionsRequest::SetHlslOffsets { hlsl_offsets } => OptionsRequestView::SetHlslOffsets {
                hlsl_offsets,
            },
            OptionsRequest::SetBindingBase {
                resource_kind,
                base,
            } => OptionsRequestView::SetBindingBase {
                resource_kind: resource_kind as int,
                base: base as int,
            },
            OptionsRequest::SetBindingBaseForStage {
                shader_kind,
                resource_kind,
                base,
            } => OptionsRequestView::SetBindingBaseForStage {
                shader_kind: shader_kind as int,
                resource_kind: resource_kind as int,
                base: base as int,
            },
            OptionsRequest::SetHlslRegisterSetAndBinding {
                register,
                set,
                binding,
            } => OptionsRequestView::SetHlslRegisterSetAndBinding {
                register: register@,
                set: set@,
                binding: binding@,
            },
            OptionsRequest::SetAutoMapLocations {
                auto_map,
            } => OptionsRequestView::SetAutoMapLocations { auto_map },
            OptionsRequest::SetHlslRegisterSetAndBindingForStage {
                shader_kind,
                register,
                set,
                binding,
            } => OptionsRequestView::SetHlslRegisterSetAndBindingForStage {
                shader_kind: shader_kind as int,
                register: register@,
                set: set@,
                binding: binding@,
            },
            OptionsRequest::SetHlslFunctionality1 {
                enable,
            } => OptionsRequestView::SetHlslFunctionality1 { enable },
            OptionsRequest::SetInvertY { enable } => OptionsRequestView::SetInvertY { enable },
            OptionsRequest::SetNanClamp { enable } => OptionsRequestView::SetNanClamp { enable },
            OptionsRequest::AddMacroDefinition {
                name,
                name_length,
                value,
                value_length,
            } => OptionsRequestView::AddMacroDefinition {
                name: name@,
                name_length: name_length as int,
                value: match value {
                    Some(value) => Some(value@),
                    None => None,
                },
                value_length: value_length as int,
            },
            OptionsRequest::SetOptimizationLevel {
                level,
            } => OptionsRequestView::SetOptimizationLevel { level: level as int },
            OptionsRequest::SetGenerateDebugInfo => OptionsRequestView::SetGenerateDebugInfo,
            OptionsRequest::SetSuppressWarnings => OptionsRequestView::SetSuppressWarnings,
            OptionsRequest::SetWarningsAsErrors => OptionsRequestView::SetWarningsAsErrors,
        }
    }
}

/// A call to make on the native library: the options object and what to ask of it.
#[derive(Debug, PartialEq, Eq)]
pub struct OptionsCall {
    /// The address of the native options object.
    pub options: usize,
    pub request: OptionsRequest,
}

/// What an [`OptionsCall`] holds.
pub struct OptionsCallView {
    pub options: usize,
    pub request: OptionsRequestView,
}

impl View for OptionsCall {
    type V = OptionsCallView;

    open spec fn view(&self) -> OptionsCallView {
        OptionsCallView { options: self.options, request: self.request@ }
    }
}

/// The options of a compilation.
///
/// The options themselves live in an object of the native library. This
/// value owns that object: it knows its address and words every change as
/// the call that makes it. A fresh object compiles GLSL for Vulkan.
pub struct CompileOptions {
    raw: usize,
    include_callback: bool,
    issued: Ghost<Seq<OptionsRequestView>>,
}

/// What a [`CompileOptions`] stands for.
pub struct CompileOptionsView {
    /// The address of the native options object. It is never zero.
    pub raw: usize,
    /// Whether the native object has been told how to ask for the sources of
    /// `#include` directives.
    pub include_callback: bool,
    /// The requests made of the native object so far, first to last: their
    /// sum is its state.
    pub issued: Seq<OptionsRequestView>,
}

impl CompileOptionsView {
    /// The options after one more request.
    pub open spec fn after(self, request: OptionsRequestView) -> CompileOptionsView {
        CompileOptionsView {
            raw: self.raw,
            include_callback: self.include_callback
                || request is SetIncludeCallbacks,
            issued: self.issued.push(request),
        }
    }
}

impl View for CompileOptions {
    type V = CompileOptionsView;

    closed spec fn view(&self) -> CompileOptionsView {
        CompileOptionsView {
            raw: self.raw,
            include_callback: self.include_callback,
            issued: self.issued@,
        }
    }
}

/// A text can be handed to the native library: its UTF-8 bytes hold no zero.
/// By [`crate::cstr::lemma_nul_free_text`] that is to say that the text does
/// not hold the character NUL.
pub open spec fn c_compatible(text: &str) -> bool {
    nul_free(text.spec_bytes())
}

pub(crate) fn c_text(text: &str) -> (made: NulTerminated)
    requires
        c_compatible(text),
    ensures
        made@ == text.spec_bytes(),
{
    match NulTerminated::new(text) {
        Ok(made) => made,
        Err(_) => unreached(),
    }
}

impl CompileOptions {
    #[verifier::type_invariant]
    spec fn owns_an_object(&self) -> bool {
        self.raw != 0
    }

    fn issue(&mut self, request: OptionsRequest) -> (call: OptionsCall)
        ensures
            call@ == (OptionsCallView { options: old(self)@.raw, request: request@ }),
            final(self)@ == old(self)@.after(request@),
            final(self)@.raw != 0,
    {
        proof {
            use_type_invariant(&*self);
        }
        if let OptionsRequest::SetIncludeCallbacks = request {
            self.include_callback = true;
        }
        self.issued = Ghost(self.issued@.push(request@));
        OptionsCall { options: self.raw, request }
    }

    /// Takes charge of a freshly made native options object at the address
    /// `raw`. A zero address tells that the native library could not make
    /// one, and then there are no options.
    pub fn new(raw: usize) -> (made: Option<CompileOptions>)
        ensures
            made is Some <==> raw != 0,
            made matches Some(options) ==> options@ == (CompileOptionsView {
                raw,
                include_callback: false,
                issued: Seq::empty(),
            }),
    {
        if raw == 0 {
            None
        } else {
            Some(CompileOptions { raw, include_callback: false, issued: Ghost(Seq::empty()) })
        }
    }

    /// Takes charge of the copy that the native library made of these
    /// options at the address `raw`; zero tells that it could not make one.
    ///
    /// The copy holds what was asked of these options, but it is not the
    /// owner of a resolver for `#include` directives.
    pub fn clone(&self, raw: usize) -> (made: Option<CompileOptions>)
        ensures
            made is Some <==> raw != 0,
            made matches Some(options) ==> options@ == (CompileOptionsView {
                raw,
                include_callback: false,
                issued: self@.issued,
            }),
    {
        if raw == 0 {
            None
        } else {
            Some(CompileOptions { raw, include_callback: false, issued: Ghost(self.issued@) })
        }
    }

    /// The address of the native options object.
    pub fn raw(&self) -> (raw: usize)
        ensures
            raw == self@.raw,
            raw != 0,
    {
        proof {
            use_type_invariant(self);
        }
        self.raw
    }

    /// Tells whether the native object knows how to ask for the sources of
    /// `#include` directives.
    pub fn has_include_callback(&self) -> (set: bool)
        ensures
            set == self@.include_callback,
    {
        self.include_callback
    }

    /// Sets the target environment and its version. `version` is the number
    /// of an [`crate::kinds::EnvVersion`] or zero for the default.
    pub fn set_target_env(&mut self, env: TargetEnv, version: u32) -> (call: OptionsCall)
        ensures
            call@.options == old(self)@.raw,
            call@.request == (OptionsRequestView::SetTargetEnv {
                env: env.spec_raw(),
                version: version as int,
            }),
            final(self)@ == old(self)@.after(call@.request),
    {
        self.issue(OptionsRequest::SetTargetEnv { env: env.raw(), version })
    }

    /// Sets the version of SPIR-V that modules are made for.
    pub fn set_target_spirv(&mut self, version: SpirvVersion) -> (call: OptionsCall)
        ensures
            call@.options == old(self)@.raw,
            call@.request == (OptionsRequestView::SetTargetSpirv { version: version.spec_raw() }),
            final(self)@ == old(self)@.after(call@.request),
    {
        self.issue(OptionsRequest::SetTargetSpirv { version: version.raw() })
    }

    /// Sets the language of the sources.
    pub fn set_source_language(&mut self, language: SourceLanguage) -> (call: OptionsCall)
        ensures
            call@.options == old(self)@.raw,
            call@.request == (OptionsRequestView::SetSourceLanguage {
                language: language.spec_raw(),
            }),
            final(self)@ == old(self)@.after(call@.request),
    {
        self.issue(OptionsRequest::SetSourceLanguage { language: language.raw() })
    }

    /// Forces the GLSL version and profile, whatever the `#version` line of
    /// a source says. The native library takes the version as a C `int`
    /// with the bits of `version`.
    pub fn set_forced_version_profile(&mut self, version: u32, profile: GlslProfile) -> (call:
        OptionsCall)
        ensures
            call@.options == old(self)@.raw,
            call@.request == (OptionsRequestView::SetForcedVersionProfile {
                version: signed_of(version as int),
                profile: profile.spec_raw(),
            }),
            final(self)@ == old(self)@.after(call@.request),
    {
        self.issue(
            OptionsRequest::SetForcedVersionProfile {
                version: u32_to_int(version),
                profile: profile.raw(),
            },
        )
    }

    /// Has the native library ask for the sources of `#include` directives.
    /// From now on these options answer for a resolver.
    pub fn set_include_callback(&mut self) -> (call: OptionsCall)
        ensures
            call@.options == old(self)@.raw,
            call@.request == OptionsRequestView::SetIncludeCallbacks,
            final(self)@ == old(self)@.after(call@.request),
            final(self)@.include_callback,
    {
        self.issue(OptionsRequest::SetIncludeCallbacks)
    }

    /// Sets a resource limit.
    pub fn set_limit(&mut self, limit: Limit, value: i32) -> (call: OptionsCall)
        ensures
            call@.options == old(self)@.raw,
            call@.request == (OptionsRequestView::SetLimit {
                limit: limit.spec_raw(),
                value: value as int,
            }),
            final(self)@ == old(self)@.after(call@.request),
    {
        self.issue(OptionsRequest::SetLimit { limit: limit.raw(), value })
    }

    /// Sets whether uniforms without a binding in the source get one.
    pub fn set_auto_bind_uniforms(&mut self, auto_bind: bool) -> (call: OptionsCall)
        ensures
            call@.options == old(self)@.raw,
            call@.request == (OptionsRequestView::SetAutoBindUniforms { auto_bind }),
            final(self)@ == old(self)@.after(call@.request),
    {
        self.issue(OptionsRequest::SetAutoBindUniforms { auto_bind })
    }

    /// Sets whether sampler variables are dropped and image variables turned
    /// into combined image-sampler variables.
    pub fn set_auto_combined_image_sampler(&mut self, auto_combine: bool) -> (call: OptionsCall)
        ensures
            call@.options == old(self)@.raw,
            call@.request == (OptionsRequestView::SetAutoCombinedImageSampler { auto_combine }),
            final(self)@ == old(self)@.after(call@.request),
    {
        self.issue(OptionsRequest::SetAutoCombinedImageSampler { auto_combine })
    }

    /// Sets whether bindings follow the HLSL rules for mapping input and output.
    pub fn set_hlsl_io_mapping(&mut self, hlsl_iomap: bool) -> (call: OptionsCall)
        ensures
            call@.options == old(self)@.raw,
            call@.request == (OptionsRequestView::SetHlslIoMapping { hlsl_iomap }),
            final(self)@ == old(self)@.after(call@.request),
    {
        self.issue(OptionsRequest::SetHlslIoMapping { hlsl_iomap })
    }

    /// Sets whether the members of a block are laid out by the packing rules
    /// of HLSL in place of those of GLSL.
    pub fn set_hlsl_offsets(&mut self, hlsl_offsets: bool) -> (call: OptionsCall)
        ensures
            call@.options == old(self)@.raw,
            call@.request == (OptionsRequestView::SetHlslOffsets { hlsl_offsets }),
            final(self)@ == old(self)@.after(call@.request),
    {
        self.issue(OptionsRequest::SetHlslOffsets { hlsl_offsets })
    }

    /// Sets the lowest binding number that is given out to a kind of resource.
    pub fn set_binding_base(&mut self, resource_kind: ResourceKind, base: u32) -> (call:
        OptionsCall)
        ensures
            call@.options == old(self)@.raw,
            call@.request == (OptionsRequestView::SetBindingBase {
                resource_kind: resource_kind.spec_raw(),
                base: base as int,
            }),
            final(self)@ == old(self)@.after(call@.request),
    {
        self.issue(OptionsRequest::SetBindingBase { resource_kind: resource_kind.raw(), base })
    }

    /// Like [`Self::set_binding_base`], for one stage only.
    pub fn set_binding_base_for_stage(
        &mut self,
        shader_kind: ShaderKind,
        resource_kind: ResourceKind,
        base: u32,
    ) -> (call: OptionsCall)
        ensures
            call@.options == old(self)@.raw,
            call@.request == (OptionsRequestView::SetBindingBaseForStage {
                shader_kind: shader_kind.spec_raw(),
                resource_kind: resource_kind.spec_raw(),
                base: base as int,
            }),
            final(self)@ == old(self)@.after(call@.request),
    {
        self.issue(
            OptionsRequest::SetBindingBaseForStage {
                shader_kind: shader_kind.raw(),
                resource_kind: resource_kind.raw(),
                base,
            },
        )
    }

    /// Gives an HLSL register a descriptor set and a binding in every stage.
    /// None of the texts may hold a zero byte.
    pub fn set_hlsl_register_set_and_binding(
        &mut self,
        register: &str,
        set: &str,
        binding: &str,
    ) -> (call: OptionsCall)
        requires
            c_compatible(register),
            c_compatible(set),
            c_compatible(binding),
        ensures
            call@.options == old(self)@.raw,
            call@.request == (OptionsRequestView::SetHlslRegisterSetAndBinding {
                register: register.spec_bytes(),
                set: set.spec_bytes(),
                binding: binding.spec_bytes(),
            }),
            final(self)@ == old(self)@.after(call@.request),
    {
        let register = c_text(register);
        let set = c_text(set);
        let binding = c_text(binding);
        self.issue(OptionsRequest::SetHlslRegisterSetAndBinding { register, set, binding })
    }

    /// Sets whether inputs and outputs without a location get one.
    pub fn set_auto_map_locations(&mut self, auto_map: bool) -> (call: OptionsCall)
        ensures
            call@.options == old(self)@.raw,
            call@.request == (OptionsRequestView::SetAutoMapLocations { auto_map }),
            final(self)@ == old(self)@.after(call@.request),
    {
        self.issue(OptionsRequest::SetAutoMapLocations { auto_map })
    }

    /// Like [`Self::set_hlsl_register_set_and_binding`], for one stage only.
    pub fn set_hlsl_register_set_and_binding_for_stage(
        &mut self,
        kind: ShaderKind,
        register: &str,
        set: &str,
        binding: &str,
    ) -> (call: OptionsCall)
        requires
            c_compatible(register),
            c_compatible(set),
            c_compatible(binding),
        ensures
            call@.options == old(self)@.raw,
            call@.request == (OptionsRequestView::SetHlslRegisterSetAndBindingForStage {
                shader_kind: kind.spec_raw(),
                register: register.spec_bytes(),
                set: set.spec_bytes(),
                binding: binding.spec_bytes(),
            }),
            final(self)@ == old(self)@.after(call@.request),
    {
        let register = c_text(register);
        let set = c_text(set);
        let binding = c_text(binding);
        self.issue(
            OptionsRequest::SetHlslRegisterSetAndBindingForStage {
                shader_kind: kind.raw(),
                register,
                set,
                binding,
            },
        )
    }

    /// Sets whether the extension `SPV_GOOGLE_hlsl_functionality1` is used.
    pub fn set_hlsl_functionality1(&mut self, enable: bool) -> (call: OptionsCall)
        ensures
            call@.options == old(self)@.raw,
            call@.request == (OptionsRequestView::SetHlslFunctionality1 { enable }),
            final(self)@ == old(self)@.after(call@.request),
    {
        self.issue(OptionsRequest::SetHlslFunctionality1 { enable })
    }

    /// Sets whether a vertex shader turns the sign of the second coordinate
    /// of the position it writes.
    pub fn set_invert_y(&mut self, enable: bool) -> (call: OptionsCall)
        ensures
            call@.options == old(self)@.raw,
            call@.request == (OptionsRequestView::SetInvertY { enable }),
            final(self)@ == old(self)@.after(call@.request),
    {
        self.issue(OptionsRequest::SetInvertY { enable })
    }

    /// Sets whether `max`, `min` and `clamp` favour the operands that are
    /// numbers over those that are not.
    pub fn set_nan_clamp(&mut self, enable: bool) -> (call: OptionsCall)
        ensures
            call@.options == old(self)@.raw,
            call@.request == (OptionsRequestView::SetNanClamp { enable }),
            final(self)@ == old(self)@.after(call@.request),
    {
        self.issue(OptionsRequest::SetNanClamp { enable })
    }

    /// Defines the macro `name`, as `-Dname=value` does on a command line;
    /// without a value, as `-Dname` does. Neither text may hold a zero byte.
    ///
    /// The native library gets each text with its length in bytes; for a
    /// value that is left out it gets no buffer and the length zero.
    pub fn add_macro_definition(&mut self, name: &str, value: Option<&str>) -> (call:
        OptionsCall)
        requires
            c_compatible(name),
            value matches Some(text) ==> c_compatible(text),
        ensures
            call@.options == old(self)@.raw,
            call@.request == (OptionsRequestView::AddMacroDefinition {
                name: name.spec_bytes(),
                name_length: name.spec_bytes().len() as int,
                value: match value {
                    Some(text) => Some(text.spec_bytes()),
                    None => None,
                },
                value_length: match value {
                    Some(text) => text.spec_bytes().len() as int,
                    None => 0,
                },
            }),
            final(self)@ == old(self)@.after(call@.request),
    {
        let name_length = name.as_bytes().len();
        let name = c_text(name);
        let request = match value {
            Some(text) => OptionsRequest::AddMacroDefinition {
                name,
                name_length,
                value: Some(c_text(text)),
                value_length: text.as_bytes().len(),
            },
            None => OptionsRequest::AddMacroDefinition {
                name,
                name_length,
                value: None,
                value_length: 0,
            },
        };
        self.issue(request)
    }

    /// Sets how hard the compiler optimizes.
    pub fn set_optimization_level(&mut self, level: OptimizationLevel) -> (call: OptionsCall)
        ensures
            call@.options == old(self)@.raw,
            call@.request == (OptionsRequestView::SetOptimizationLevel {
                level: level.spec_raw(),
            }),
            final(self)@ == old(self)@.after(call@.request),
    {
        self.issue(OptionsRequest::SetOptimizationLevel { level: level.raw() })
    }

    /// Has the compiler put debug information into its output.
    pub fn set_generate_debug_info(&mut self) -> (call: OptionsCall)
        ensures
            call@.options == old(self)@.raw,
            call@.request == OptionsRequestView::SetGenerateDebugInfo,
            final(self)@ == old(self)@.after(call@.request),
    {
        self.issue(OptionsRequest::SetGenerateDebugInfo)
    }

    /// Has the compiler keep its warnings to itself.
    pub fn set_suppress_warnings(&mut self) -> (call: OptionsCall)
        ensures
            call@.options == old(self)@.raw,
            call@.request == OptionsRequestView::SetSuppressWarnings,
            final(self)@ == old(self)@.after(call@.request),
    {
        self.issue(OptionsRequest::SetSuppressWarnings)
    }

    /// Has the compiler treat every warning as an error.
    pub fn set_warnings_as_errors(&mut self) -> (call: OptionsCall)
        ensures
            call@.options == old(self)@.raw,
            call@.request == OptionsRequestView::SetWarningsAsErrors,
            final(self)@ == old(self)@.after(call@.request),
    {
        self.issue(OptionsRequest::SetWarningsAsErrors)
    }
}

} // verus!
