use shaderc::Error;

#[test]
fn a_single_compilation_error_is_not_counted() {
    assert_eq!("compilation error", Error::CompilationError(1, String::new()).to_string());
    assert_eq!(
        "compilation error: shader.glsl:2: error: '#error' : one",
        Error::CompilationError(1, "shader.glsl:2: error: '#error' : one".to_string()).to_string()
    );
}

#[test]
fn compilation_errors_are_counted_in_decimal() {
    assert_eq!("0 compilation errors", Error::CompilationError(0, String::new()).to_string());
    assert_eq!("2 compilation errors", Error::CompilationError(2, String::new()).to_string());
    assert_eq!("10 compilation errors: x", Error::CompilationError(10, "x".to_string()).to_string());
    assert_eq!(
        "4294967295 compilation errors",
        Error::CompilationError(u32::MAX, String::new()).to_string()
    );
    assert_eq!("1203 compilation errors", Error::CompilationError(1203, String::new()).to_string());
}

#[test]
fn a_reason_of_several_lines_starts_on_its_own_line() {
    assert_eq!(
        "2 compilation errors:\none\ntwo\n",
        Error::CompilationError(2, "one\ntwo\n".to_string()).to_string()
    );
    assert_eq!(
        "compilation error:\nlast line\n",
        Error::CompilationError(1, "last line\n".to_string()).to_string()
    );
    assert_eq!(
        "3 compilation errors: on one line",
        Error::CompilationError(3, "on one line".to_string()).to_string()
    );
}

#[test]
fn other_errors_show_their_kind_and_reason() {
    assert_eq!("internal error", Error::InternalError(String::new()).to_string());
    assert_eq!("internal error: oops", Error::InternalError("oops".to_string()).to_string());
    assert_eq!("invalid stage", Error::InvalidStage(String::new()).to_string());
    assert_eq!("invalid stage: a\nb", Error::InvalidStage("a\nb".to_string()).to_string());
    assert_eq!("invalid assembly", Error::InvalidAssembly(String::new()).to_string());
    assert_eq!("invalid assembly: line 3", Error::InvalidAssembly("line 3".to_string()).to_string());
    assert_eq!("null result object", Error::NullResultObject(String::new()).to_string());
    assert_eq!("null result object: gone", Error::NullResultObject("gone".to_string()).to_string());
}

#[test]
fn description_names_the_kind_only() {
    assert_eq!("compilation error", Error::CompilationError(7, "x".to_string()).description());
    assert_eq!("internal error", Error::InternalError("x".to_string()).description());
    assert_eq!("invalid stage", Error::InvalidStage("x".to_string()).description());
    assert_eq!("invalid assembly", Error::InvalidAssembly("x".to_string()).description());
    assert_eq!("null result object", Error::NullResultObject("x".to_string()).description());
}

#[test]
fn errors_compare_by_kind_count_and_reason() {
    assert_eq!(Error::InvalidStage("".to_string()), Error::InvalidStage(String::new()));
    assert_ne!(Error::InvalidStage("".to_string()), Error::InvalidAssembly(String::new()));
    assert_ne!(
        Error::CompilationError(1, "a".to_string()),
        Error::CompilationError(2, "a".to_string())
    );
}
