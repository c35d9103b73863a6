use shaderc::{
    AssembleArgs, CompilationArtifact, CompileArgs, CompileCall, CompileOptions, Compiler, Error,
    NulTerminated, ShaderKind, ShadercCompilationResult,
};

static VOID_MAIN: &str = "#version 310 es\n void main() {}";
static TWO_ERROR: &str = "#version 310 es\n #error one\n #error two\n void main() {}";
static TWO_ERROR_MSG: &str = "shader.glsl:2: error: '#error' : one\n\
                              shader.glsl:3: error: '#error' : two\n";
static ONE_WARNING: &str = "#version 400\n\
                            layout(location = 0) attribute float x;\n void main() {}";
static ONE_WARNING_MSG: &str = "\
shader.glsl:2: warning: attribute deprecated in version 130; may be removed in future release
";

fn compiler() -> Compiler {
    Compiler::new(0x1000).unwrap()
}

fn c(text: &str) -> NulTerminated {
    NulTerminated::new(text).unwrap()
}

fn args(source: &str, shader_kind: i32, additional_options: usize) -> CompileArgs {
    CompileArgs {
        compiler: 0x1000,
        source_text: c(source),
        source_size: source.len(),
        shader_kind,
        input_file_name: c("shader.glsl"),
        entry_point_name: c("main"),
        additional_options,
    }
}

/// What the native library answers, made up for the occasion.
fn answer(status: i32, num_errors: usize, num_warnings: usize, message: &str, bytes: &[u8]) -> ShadercCompilationResult {
    ShadercCompilationResult {
        handle: 0x4000,
        status,
        num_errors,
        num_warnings,
        error_message: message.as_bytes().to_vec(),
        bytes: bytes.to_vec(),
    }
}

fn in_host_order(words: &[u32]) -> Vec<u8> {
    let mut bytes = Vec::new();
    for word in words {
        bytes.extend_from_slice(&word.to_ne_bytes());
    }
    bytes
}

fn artifact_of(outcome: Result<CompilationArtifact, Error>) -> CompilationArtifact {
    match outcome {
        Ok(artifact) => artifact,
        Err(error) => panic!("{}", error.to_string()),
    }
}

#[test]
fn there_is_no_compiler_without_a_native_object() {
    assert!(Compiler::new(0).is_none());
    assert_eq!(0x1000, compiler().raw());
    assert_eq!(usize::MAX, Compiler::new(usize::MAX).unwrap().raw());
}

#[test]
fn compiling_into_a_module_names_source_stage_and_entry_point() {
    let call = compiler().compile_into_spirv(VOID_MAIN, ShaderKind::Vertex, "shader.glsl", "main", None);
    assert_eq!(CompileCall::IntoSpv(args(VOID_MAIN, 0, 0)), call);
    assert!(call.produces_binary());
    match call {
        CompileCall::IntoSpv(args) => {
            assert_eq!(31, args.source_size);
            assert_eq!(
                &b"#version 310 es\n void main() {}\0"[..],
                args.source_text.as_bytes_with_nul()
            );
            assert_eq!(&b"shader.glsl\0"[..], args.input_file_name.as_bytes_with_nul());
            assert_eq!(&b"main\0"[..], args.entry_point_name.as_bytes_with_nul());
        }
        _ => unreachable!(),
    }
}

#[test]
fn the_stage_goes_by_number() {
    let call = compiler().compile_into_spirv(
        VOID_MAIN,
        ShaderKind::InferFromSource,
        "shader.glsl",
        "main",
        None,
    );
    assert_eq!(CompileCall::IntoSpv(args(VOID_MAIN, 6, 0)), call);
    let call =
        compiler().compile_into_spirv(VOID_MAIN, ShaderKind::Fragment, "shader.glsl", "main", None);
    assert_eq!(CompileCall::IntoSpv(args(VOID_MAIN, 1, 0)), call);
}

#[test]
fn options_go_by_the_address_of_their_object() {
    let options = CompileOptions::new(0x2000).unwrap();
    let call = compiler().compile_into_spirv_assembly(
        VOID_MAIN,
        ShaderKind::Vertex,
        "shader.glsl",
        "main",
        Some(&options),
    );
    assert_eq!(CompileCall::IntoSpvAssembly(args(VOID_MAIN, 0, 0x2000)), call);
    assert!(!call.produces_binary());
}

#[test]
fn compiling_into_assembly_gives_text() {
    let call = compiler().compile_into_spirv_assembly(
        VOID_MAIN,
        ShaderKind::Compute,
        "shader.glsl",
        "main",
        None,
    );
    assert_eq!(CompileCall::IntoSpvAssembly(args(VOID_MAIN, 2, 0)), call);
    assert!(!call.produces_binary());
}

#[test]
fn preprocessing_names_the_vertex_stage() {
    let options = CompileOptions::new(0x2000).unwrap();
    let call = compiler().preprocess(VOID_MAIN, "shader.glsl", "main", Some(&options));
    assert_eq!(CompileCall::IntoPreprocessedText(args(VOID_MAIN, 0, 0x2000)), call);
    assert!(!call.produces_binary());
}

#[test]
fn assembling_names_no_stage() {
    let assembly = "; SPIR-V\n OpCapability Shader\n";
    let call = compiler().assemble(assembly, None);
    assert_eq!(
        CompileCall::AssembleIntoSpv(AssembleArgs {
            compiler: 0x1000,
            source_assembly: c(assembly),
            source_size: 30,
            additional_options: 0,
        }),
        call
    );
    assert!(call.produces_binary());
    let options = CompileOptions::new(0x2000).unwrap();
    match compiler().assemble("", Some(&options)) {
        CompileCall::AssembleIntoSpv(args) => {
            assert_eq!(0, args.source_size);
            assert_eq!(0x2000, args.additional_options);
        }
        _ => unreachable!(),
    }
}

#[test]
fn the_size_of_a_source_counts_bytes() {
    match compiler().compile_into_spirv("// \u{3c0}", ShaderKind::Vertex, "s", "main", None) {
        CompileCall::IntoSpv(args) => assert_eq!(5, args.source_size),
        _ => unreachable!(),
    }
}

#[test]
fn the_same_arguments_give_the_same_call() {
    let first = compiler().compile_into_spirv(TWO_ERROR, ShaderKind::Vertex, "shader.glsl", "main", None);
    let second = compiler().compile_into_spirv(TWO_ERROR, ShaderKind::Vertex, "shader.glsl", "main", None);
    assert_eq!(first, second);
}

#[test]
fn the_six_documented_statuses_are_known() {
    for status in 0..=5 {
        assert!(Compiler::knows_status(status));
    }
    assert!(!Compiler::knows_status(6));
    assert!(!Compiler::knows_status(-1));
    assert!(!Compiler::knows_status(i32::MAX));
}

#[test]
fn success_gives_a_binary_artifact() {
    let function_end_word: u32 = (1 << 16) | 56;
    let module = in_host_order(&[0x0723_0203, 0x0001_0000, 0x000d_000b, 6, 0, function_end_word]);
    let call = compiler().compile_into_spirv(VOID_MAIN, ShaderKind::Vertex, "shader.glsl", "main", None);
    let result = artifact_of(Compiler::handle_compilation_result(
        answer(0, 0, 0, "", &module),
        call.produces_binary(),
    ));
    assert!(result.len() > 20);
    assert!(result.as_binary().first() == Some(&0x0723_0203));
    assert!(result.as_binary().last() == Some(&function_end_word));
    assert_eq!(0x4000, result.raw());
}

#[test]
fn success_gives_a_text_artifact() {
    let call = compiler().preprocess(VOID_MAIN, "shader.glsl", "main", None);
    let result = artifact_of(Compiler::handle_compilation_result(
        answer(0, 0, 0, "", b"#version 310 es\n void main(){ }\n"),
        call.produces_binary(),
    ));
    assert!(!result.is_binary());
    assert_eq!("#version 310 es\n void main(){ }\n", result.as_text());
}

#[test]
fn success_keeps_the_warnings() {
    let call = compiler().compile_into_spirv(ONE_WARNING, ShaderKind::Vertex, "shader.glsl", "main", None);
    let result = artifact_of(Compiler::handle_compilation_result(
        answer(0, 0, 1, ONE_WARNING_MSG, &in_host_order(&[0x0723_0203])),
        call.produces_binary(),
    ));
    assert_eq!(1, result.get_num_warnings());
    assert_eq!(ONE_WARNING_MSG.to_string(), result.get_warning_messages());
}

#[test]
fn a_compilation_error_carries_count_and_message() {
    let result = Compiler::handle_compilation_result(answer(2, 2, 0, TWO_ERROR_MSG, b""), true);
    assert!(result.is_err());
    assert_eq!(Some(Error::CompilationError(2, TWO_ERROR_MSG.to_string())), result.err());
}

#[test]
fn an_invalid_stage_may_come_without_a_message() {
    let result = Compiler::handle_compilation_result(answer(1, 0, 0, "", b""), true);
    assert!(result.is_err());
    assert_eq!(Some(Error::InvalidStage("".to_string())), result.err());
}

#[test]
fn each_status_has_its_error() {
    let error = |status: i32| Compiler::handle_compilation_result(answer(status, 7, 0, "why", b"ignored"), false).err();
    assert_eq!(Some(Error::InvalidStage("why".to_string())), error(1));
    assert_eq!(Some(Error::CompilationError(7, "why".to_string())), error(2));
    assert_eq!(Some(Error::InternalError("why".to_string())), error(3));
    assert_eq!(Some(Error::NullResultObject("why".to_string())), error(4));
    assert_eq!(Some(Error::InvalidAssembly("why".to_string())), error(5));
    assert_eq!(None, error(0));
}

#[test]
fn a_failure_with_odd_output_data_is_still_a_failure() {
    let result = Compiler::handle_compilation_result(answer(2, 1, 0, "bad", b"abc"), true);
    assert_eq!(Some(Error::CompilationError(1, "bad".to_string())), result.err());
}

#[test]
fn a_message_that_is_not_utf8_does_not_fail() {
    let mut broken = answer(2, 1, 0, "", b"");
    broken.error_message = b"shader.glsl:1: error: \xff\xfe".to_vec();
    assert_eq!(
        Some(Error::CompilationError(
            1,
            "shader.glsl:1: error:  (followed by invalid UTF-8 characters)".to_string()
        )),
        Compiler::handle_compilation_result(broken, true).err()
    );
    let mut hopeless = answer(3, 0, 0, "", b"");
    hopeless.error_message = vec![0x80];
    assert_eq!(
        Some(Error::InternalError(
            "invalid UTF-8 string: invalid utf-8 sequence of 1 bytes from index 0".to_string()
        )),
        Compiler::handle_compilation_result(hopeless, false).err()
    );
}

#[test]
fn the_number_of_errors_is_cut_to_32_bits() {
    let result = Compiler::handle_compilation_result(answer(2, u32::MAX as usize, 0, "", b""), true);
    assert_eq!(Some(Error::CompilationError(u32::MAX, String::new())), result.err());
    if usize::BITS > 32 {
        let many = (1u64 << 32) as usize + 3;
        let result = Compiler::handle_compilation_result(answer(2, many, 0, "", b""), true);
        assert_eq!(Some(Error::CompilationError(3, String::new())), result.err());
    }
}
