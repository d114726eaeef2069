use runbot::dispatch::{
    select_backend, Backend, BackendError, DispatchError, ExecutionRequest, OtherApiResponse,
    OtherData, RustApiResponse,
};

fn param(tag: &str) -> Option<String> {
    match select_backend(tag).unwrap() {
        Backend::Rust => None,
        Backend::Generic(l) => Some(l),
    }
}

#[test]
fn language_table() {
    assert_eq!(param("rust"), None);
    for tag in ["c", "go", "cpp", "java", "cs", "r"] {
        assert_eq!(param(tag), Some(String::from(tag)));
    }
    assert_eq!(param("js"), Some(String::from("node")));
    assert_eq!(param("javascript"), Some(String::from("node")));
    assert_eq!(param("ts"), Some(String::from("ts")));
    assert_eq!(param("typescript"), Some(String::from("ts")));
    assert_eq!(param("py"), Some(String::from("py")));
    assert_eq!(param("python"), Some(String::from("py")));
    assert_eq!(select_backend("").err(), Some(DispatchError::NoLanguageSpecified));
    assert_eq!(select_backend("random_lang").err(), Some(DispatchError::UnsupportedLanguage));
    assert_eq!(select_backend("Rust").err(), Some(DispatchError::UnsupportedLanguage));
}

#[test]
fn rust_request_body() {
    let req = ExecutionRequest {
        backend: Backend::Rust,
        code: String::from("println!(\"hi\");\n"),
    };
    assert_eq!(req.endpoint(), "https://play.rust-lang.org/execute");
    assert_eq!(
        req.body(),
        "{\"backtrace\":false,\"channel\":\"stable\",\"code\":\"println!(\\\"hi\\\");\\n\",\"crateType\":\"bin\",\"edition\":\"2021\",\"mode\":\"debug\",\"tests\":false}"
    );
}

#[test]
fn generic_request_body() {
    let req = ExecutionRequest {
        backend: Backend::Generic(String::from("node")),
        code: String::from("a\tb"),
    };
    assert_eq!(
        req.endpoint(),
        "https://api2.sololearn.com/v2/codeplayground/v2/compile"
    );
    assert_eq!(
        req.body(),
        "{\"code\":\"a\\tb\",\"codeId\":\"\",\"input\":\"\",\"language\":\"node\"}"
    );
}

fn rust(success: Option<bool>, stdout: Option<&str>, stderr: Option<&str>, error: Option<&str>) -> String {
    RustApiResponse {
        success,
        stdout: stdout.map(String::from),
        stderr: stderr.map(String::from),
        error: error.map(String::from),
    }
    .output()
}

#[test]
fn rust_response_normalization() {
    assert_eq!(rust(Some(true), Some("out"), Some("err"), Some("boom")), "boom");
    assert_eq!(rust(Some(true), Some("out"), Some("err"), None), "out");
    assert_eq!(rust(Some(true), None, Some("err"), None), "stdout");
    assert_eq!(rust(Some(false), Some("out"), Some("err"), None), "err");
    assert_eq!(rust(None, Some("out"), None, None), "stderr");
}

fn other(success: Option<bool>, output: Option<&str>) -> Result<String, BackendError> {
    OtherApiResponse {
        success,
        data: OtherData {
            output: output.map(String::from),
        },
    }
    .output()
}

#[test]
fn generic_response_normalization() {
    assert_eq!(other(Some(true), Some("4\n")), Ok(String::from("4\n")));
    assert_eq!(other(Some(true), None), Err(BackendError::MissingField));
    assert_eq!(other(Some(false), Some("4\n")), Err(BackendError::CodeFailed));
    assert_eq!(other(None, Some("4\n")), Err(BackendError::MissingField));
}
