//! The reasoning of a binding to the Shaderc shader compiler.
//!
//! Shaderc is a native library: it is driven through a C interface of opaque
//! objects, numbers and zero-terminated strings, and it calls back for the
//! sources of `#include` directives. This crate holds everything that a
//! binding has to get right about that interface, and makes no call on it:
//!
//! * [`Compiler`] and [`CompileOptions`] own a native object by its address
//!   and word every request as a [`CompileCall`] or an [`OptionsCall`], with
//!   the arguments as the native library takes them;
//! * [`Compiler::handle_compilation_result`] reads a result of the native
//!   library into a [`CompilationArtifact`] or an [`Error`];
//! * [`callback::resolver`] answers a request for a source and puts the
//!   answer into an [`IncludeEnvelope`], and [`PanicSlot`] keeps a panic
//!   until the native library has returned.
//!
//! Whoever links the native library makes the calls and hands the answers
//! back as plain values.

pub mod artifact;
pub mod callback;
pub mod compiler;
pub mod cstr;
pub mod error;
pub mod kinds;
pub mod limit;
pub mod options;
pub mod raw;
pub mod text;
pub mod version;

pub use artifact::{ByteOrder, CompilationArtifact, ShadercCompilationResult};
pub use callback::{
    EnvelopeShape, IncludeCallbackResult, IncludeDescriptor, IncludeEnvelope, IncludeType,
    IncludeViolation, PanicSlot, ResolvedInclude,
};
pub use compiler::{AssembleArgs, CompileArgs, CompileCall, Compiler};
pub use cstr::{NulError, NulTerminated};
pub use error::Error;
pub use kinds::{
    EnvVersion, GlslProfile, OptimizationLevel, ResourceKind, ShaderKind, SourceLanguage,
    SpirvVersion, TargetEnv,
};
pub use limit::Limit;
pub use options::{CompileOptions, OptionsCall, OptionsRequest};
pub use text::safe_str_from_utf8;
pub use version::{get_spirv_version, parse_version_profile};
