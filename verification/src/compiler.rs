use crate::artifact::{CompilationArtifact, CompilationResultView, ShadercCompilationResult};
use crate::cstr::NulTerminated;
use crate::error::{Error, ErrorView};
use crate::kinds::ShaderKind;
use crate::options::{c_compatible, c_text, CompileOptions};
use crate::raw::{low_u32, size_to_u32};
use crate::text::{safe_str_from_utf8, salvaged_text};
use vstd::prelude::*;
use vstd::string::*;

verus! {

/// The arguments with which the native library compiles a source.
#[derive(Debug, PartialEq, Eq)]
pub struct CompileArgs {
    /// The address of the native compiler object.
    pub compiler: usize,
    /// The source, ended by a zero byte.
    pub source_text: NulTerminated,
    /// The number of bytes of the source.
    pub source_size: usize,
    /// The number of the stage.
    pub shader_kind: i32,
    /// The name by which messages speak of the source.
    pub input_file_name: NulTerminated,
    /// The name of the entry point.
    pub entry_point_name: NulTerminated,
    /// The address of the native options object; zero where there are no options.
    pub additional_options: usize,
}

/// The arguments with which the native library assembles a module.
#[derive(Debug, PartialEq, Eq)]
pub struct AssembleArgs {
    /// The address of the native compiler object.
    pub compiler: usize,
    /// The assembly text, ended by a zero byte.
    pub source_assembly: NulTerminated,
    /// The number of bytes of the assembly text.
    pub source_size: usize,
    /// The address of the native options object; zero where there are no options.
    pub additional_options: usize,
}

/// One call of the native library that gives a result object.
#[derive(Debug, PartialEq, Eq)]
pub enum CompileCall {
    /// Compile a source into a binary module.
    IntoSpv(CompileArgs),
    /// Compile a source into assembly text.
    IntoSpvAssembly(CompileArgs),
    /// Run the preprocessor over a source.
    IntoPreprocessedText(CompileArgs),
    /// Assemble assembly text into a binary module.
    AssembleIntoSpv(AssembleArgs),
}

/// What a [`CompileArgs`] holds, texts as their bytes before the terminator.
pub struct CompileArgsView {
    pub compiler: usize,
    pub source_text: Seq<u8>,
    pub source_size: int,
    pub shader_kind: int,
    pub input_file_name: Seq<u8>,
    pub entry_point_name: Seq<u8>,
    pub additional_options: usize,
}

/// What an [`AssembleArgs`] holds, the text as its bytes before the terminator.
pub struct AssembleArgsView {
    pub compiler: usize,
    pub source_assembly: Seq<u8>,
    pub source_size: int,
    pub additional_options: usize,
}

/// What a [`CompileCall`] holds.
pub enum CompileCallView {
    IntoSpv(CompileArgsView),
    IntoSpvAssembly(CompileArgsView),
    IntoPreprocessedText(CompileArgsView),
    AssembleIntoSpv(AssembleArgsView),
}

impl View for CompileArgs {
    type V = CompileArgsView;

    open spec fn view(&self) -> CompileArgsView {
        CompileArgsView {
            compiler: self.compiler,
            source_text: self.source_text@,
            source_size: self.source_size as int,
            shader_kind: self.shader_kind as int,
            input_file_name: self.input_file_name@,
            entry_point_name: self.entry_point_name@,
            additional_options: self.additional_options,
        }
    }
}

impl View for AssembleArgs {
    type V = AssembleArgsView;

    open spec fn view(&self) -> AssembleArgsView {
        AssembleArgsView {
            compiler: self.compiler,
            source_assembly: self.source_assembly@,
            source_size: self.source_size as int,
            additional_options: self.additional_options,
        }
    }
}

impl View for CompileCall {
    type V = CompileCallView;

    open spec fn view(&self) -> CompileCallView {
        match *self {
            CompileCall::IntoSpv(args) => CompileCallView::IntoSpv(args@),
            CompileCall::IntoSpvAssembly(args) => CompileCallView::IntoSpvAssembly(args@),
            CompileCall::IntoPreprocessedText(args) => CompileCallView::IntoPreprocessedText(
                args@,
            ),
            CompileCall::AssembleIntoSpv(args) => CompileCallView::AssembleIntoSpv(args@),
        }
    }
}

impl CompileCallView {
    /// Whether the call gives a binary module; the others give text.
    pub open spec fn produces_binary(self) -> bool {
        self is IntoSpv || self is AssembleIntoSpv
    }
}

impl CompileCall {
    /// Tells whether the call gives a binary module; the others give text.
    pub fn produces_binary(&self) -> (binary: bool)
        ensures
            binary == self@.produces_binary(),
    {
        match self {
            CompileCall::IntoSpv(_) => true,
            CompileCall::IntoSpvAssembly(_) => false,
            CompileCall::IntoPreprocessedText(_) => false,
            CompileCall::AssembleIntoSpv(_) => true,
        }
    }
}

/// The address that stands for `options` in a call: zero where there are none.
pub open spec fn options_address(options: Option<&CompileOptions>) -> usize {
    match options {
        Some(options) => options@.raw,
        None => 0,
    }
}

/// The arguments for compiling `source_text`.
pub open spec fn compile_args(
    compiler: usize,
    source_text: &str,
    shader_kind: ShaderKind,
    input_file_name: &str,
    entry_point_name: &str,
    additional_options: Option<&CompileOptions>,
) -> CompileArgsView {
    CompileArgsView {
        compiler,
        source_text: source_text.spec_bytes(),
        source_size: source_text.spec_bytes().len() as int,
        shader_kind: shader_kind.spec_raw(),
        input_file_name: input_file_name.spec_bytes(),
        entry_point_name: entry_point_name.spec_bytes(),
        additional_options: options_address(additional_options),
    }
}

/// A status of the native library that this library knows what to make of.
pub open spec fn is_known_status(status: int) -> bool {
    0 <= status <= 5
}

/// The error that a status other than success stands for.
pub open spec fn error_of_status(status: int, num_errors: nat, reason: Seq<char>) -> ErrorView
    recommends
        1 <= status <= 5,
{
    if status == 1 {
        ErrorView::InvalidStage(reason)
    } else if status == 2 {
        ErrorView::CompilationError(num_errors, reason)
    } else if status == 3 {
        ErrorView::InternalError(reason)
    } else if status == 4 {
        ErrorView::NullResultObject(reason)
    } else {
        ErrorView::InvalidAssembly(reason)
    }
}

/// What a result of the native library comes to: an artifact on success,
/// else the error that its status stands for, with the number of errors cut
/// to 32 bits and the message decoded without failing.
pub open spec fn outcome_of(result: CompilationResultView) -> Result<
    CompilationResultView,
    ErrorView,
> {
    if result.status == 0 {
        Ok(result)
    } else {
        Err(
            error_of_status(
                result.status as int,
                low_u32(result.num_errors as nat),
                salvaged_text(result.error_message),
            ),
        )
    }
}

fn option_address(options: Option<&CompileOptions>) -> (address: usize)
    ensures
        address == options_address(options),
        options is Some ==> address != 0,
{
    match options {
        Some(options) => options.raw(),
        None => 0,
    }
}

/// A compiler.
///
/// The compiler itself is an object of the native library, costly to make
/// and fit for any number of compilations. This value owns that object: it
/// knows its address, words each compilation as the call that performs it and
/// reads what comes back.
#[derive(Debug)]
pub struct Compiler {
    raw: usize,
}

impl View for Compiler {
    type V = usize;

    /// The address of the native compiler object.
    closed spec fn view(&self) -> usize {
        self.raw
    }
}

impl Compiler {
    #[verifier::type_invariant]
    spec fn owns_an_object(&self) -> bool {
        self.raw != 0
    }

    /// Takes charge of a freshly made native compiler object at the address
    /// `raw`. A zero address tells that the native library could not make
    /// one, and then there is no compiler.
    pub fn new(raw: usize) -> (made: Option<Compiler>)
        ensures
            made is Some <==> raw != 0,
            made matches Some(compiler) ==> compiler@ == raw,
    {
        if raw == 0 {
            None
        } else {
            Some(Compiler { raw })
        }
    }

    /// The address of the native compiler object.
    pub fn raw(&self) -> (raw: usize)
        ensures
            raw == self@,
            raw != 0,
    {
        proof {
            use_type_invariant(self);
        }
        self.raw
    }

    fn args(
        &self,
        source_text: &str,
        shader_kind: ShaderKind,
        input_file_name: &str,
        entry_point_name: &str,
        additional_options: Option<&CompileOptions>,
    ) -> (args: CompileArgs)
        requires
            c_compatible(source_text),
            c_compatible(input_file_name),
            c_compatible(entry_point_name),
        ensures
            args@ == compile_args(
                self@,
                source_text,
                shader_kind,
                input_file_name,
                entry_point_name,
                additional_options,
            ),
    {
        CompileArgs {
            compiler: self.raw,
            source_size: source_text.as_bytes().len(),
            source_text: c_text(source_text),
            shader_kind: shader_kind.raw(),
            input_file_name: c_text(input_file_name),
            entry_point_name: c_text(entry_point_name),
            additional_options: option_address(additional_options),
        }
    }

    /// Words the compilation of `source_text` into a binary module.
    ///
    /// `input_file_name` is the name by which messages speak of the source;
    /// it need not name a file. None of the three texts may hold a zero byte.
    pub fn compile_into_spirv(
        &self,
        source_text: &str,
        shader_kind: ShaderKind,
        input_file_name: &str,
        entry_point_name: &str,
        additional_options: Option<&CompileOptions>,
    ) -> (call: CompileCall)
        requires
            c_compatible(source_text),
            c_compatible(input_file_name),
            c_compatible(entry_point_name),
        ensures
            call@ == CompileCallView::IntoSpv(
                compile_args(
                    self@,
                    source_text,
                    shader_kind,
                    input_file_name,
                    entry_point_name,
                    additional_options,
                ),
            ),
    {
        CompileCall::IntoSpv(
            self.args(
                source_text,
                shader_kind,
                input_file_name,
                entry_point_name,
                additional_options,
            ),
        )
    }

    /// Words the compilation of `source_text` into assembly text.
    /// None of the three texts may hold a zero byte.
    pub fn compile_into_spirv_assembly(
        &self,
        source_text: &str,
        shader_kind: ShaderKind,
        input_file_name: &str,
        entry_point_name: &str,
        additional_options: Option<&CompileOptions>,
    ) -> (call: CompileCall)
        requires
            c_compatible(source_text),
            c_compatible(input_file_name),
            c_compatible(entry_point_name),
        ensures
            call@ == CompileCallView::IntoSpvAssembly(
                compile_args(
                    self@,
                    source_text,
                    shader_kind,
                    input_file_name,
                    entry_point_name,
                    additional_options,
                ),
            ),
    {
        CompileCall::IntoSpvAssembly(
            self.args(
                source_text,
                shader_kind,
                input_file_name,
                entry_point_name,
                additional_options,
            ),
        )
    }

    /// Words the preprocessing of `source_text`.
    ///
    /// The stage means nothing to the preprocessor; the call names the
    /// vertex stage. None of the three texts may hold a zero byte.
    pub fn preprocess(
        &self,
        source_text: &str,
        input_file_name: &str,
        entry_point_name: &str,
        additional_options: Option<&CompileOptions>,
    ) -> (call: CompileCall)
        requires
            c_compatible(source_text),
            c_compatible(input_file_name),
            c_compatible(entry_point_name),
        ensures
            call@ == CompileCallView::IntoPreprocessedText(
                compile_args(
                    self@,
                    source_text,
                    ShaderKind::Vertex,
                    input_file_name,
                    entry_point_name,
                    additional_options,
                ),
            ),
    {
        CompileCall::IntoPreprocessedText(
            self.args(
                source_text,
                ShaderKind::Vertex,
                input_file_name,
                entry_point_name,
                additional_options,
            ),
        )
    }

    /// Words the assembling of `source_assembly` into a binary module.
    /// The text may not hold a zero byte.
    pub fn assemble(&self, source_assembly: &str, additional_options: Option<&CompileOptions>) -> (call:
        CompileCall)
        requires
            c_compatible(source_assembly),
        ensures
            call@ == CompileCallView::AssembleIntoSpv(
                AssembleArgsView {
                    compiler: self@,
                    source_assembly: source_assembly.spec_bytes(),
                    source_size: source_assembly.spec_bytes().len() as int,
                    additional_options: options_address(additional_options),
                },
            ),
    {
        CompileCall::AssembleIntoSpv(
            AssembleArgs {
                compiler: self.raw,
                source_size: source_assembly.as_bytes().len(),
                source_assembly: c_text(source_assembly),
                additional_options: option_address(additional_options),
            },
        )
    }

    /// Tells whether `status` is a status that
    /// [`Self::handle_compilation_result`] knows what to make of.
    pub fn knows_status(status: i32) -> (known: bool)
        ensures
            known == is_known_status(status as int),
    {
        0 <= status && status <= 5
    }

    /// Reads what a call gave: see [`outcome_of`].
    ///
    /// `is_binary` says whether the call gives a binary module. The status is
    /// one of the six that the native library documents, and the output data
    /// of a binary module is made of whole words.
    pub fn handle_compilation_result(result: ShadercCompilationResult, is_binary: bool) -> (outcome:
        Result<CompilationArtifact, Error>)
        requires
            is_known_status(result@.status as int),
            result@.status == 0 && is_binary ==> result@.bytes.len() % 4 == 0,
        ensures
            match outcome {
                Ok(artifact) => outcome_of(result@) == Ok::<CompilationResultView, ErrorView>(
                    artifact@.result,
                ) && artifact@.is_binary == is_binary,
                Err(error) => outcome_of(result@) == Err::<CompilationResultView, ErrorView>(
                    error@,
                ),
            },
    {
        let status = result.status;
        if status == 0 {
            Ok(CompilationArtifact::new(result, is_binary))
        } else {
            let num_errors = size_to_u32(result.num_errors);
            let reason = safe_str_from_utf8(result.error_message.as_slice());
            if status == 1 {
                Err(Error::InvalidStage(reason))
            } else if status == 2 {
                Err(Error::CompilationError(num_errors, reason))
            } else if status == 3 {
                Err(Error::InternalError(reason))
            } else if status == 4 {
                Err(Error::NullResultObject(reason))
            } else {
                Err(Error::InvalidAssembly(reason))
            }
        }
    }
}

} // verus!
