//! Routing of a code block to an execution backend, the request that the
//! backend is sent, and the normalization of what it answers.
use vstd::prelude::*;
use crate::extract::CodeBlock;
use crate::json::{json_text_of, quote_json};
use crate::text::same_text;

verus! {

/// The lower-case form of a text.
pub uninterp spec fn lower_of(s: Seq<char>) -> Seq<char>;

/// Relies on str::to_lowercase: the result depends on the characters alone,
/// and an empty text stays empty.
#[verifier::external_body]
fn lowercase(s: &str) -> (r: String)
    ensures
        r@ == lower_of(s@),
        s@.len() == 0 ==> r@.len() == 0,
{
    s.to_lowercase()
}

/// Where a block is run: the dedicated Rust service, or the shared service
/// with its language parameter.
pub enum Backend {
    Rust,
    Generic(String),
}

impl View for Backend {
    type V = Option<Seq<char>>;

    /// `None` for the Rust service, the language parameter otherwise.
    open spec fn view(&self) -> Option<Seq<char>> {
        match self {
            Backend::Rust => None,
            Backend::Generic(l) => Some(l@),
        }
    }
}

/// Why a block could not be routed.
#[derive(Clone, Copy, Debug, PartialEq, Eq)]
pub enum DispatchError {
    NoLanguageSpecified,
    UnsupportedLanguage,
}

impl DispatchError {
    pub open spec fn text(self) -> Seq<char> {
        match self {
            DispatchError::NoLanguageSpecified => "ERROR: No language specified.\nHint: '```<language>'"@,
            DispatchError::UnsupportedLanguage => "ERROR: Unsupported language."@,
        }
    }

    /// The user-facing text of the error.
    pub fn message(&self) -> (r: String)
        ensures
            r@ == self.text(),
    {
        match self {
            DispatchError::NoLanguageSpecified => String::from_str(
                "ERROR: No language specified.\nHint: '```<language>'",
            ),
            DispatchError::UnsupportedLanguage => String::from_str("ERROR: Unsupported language."),
        }
    }
}

/// The tags that the shared service takes under their own name.
pub open spec fn is_generic_tag(tag: Seq<char>) -> bool {
    tag == "c"@ || tag == "go"@ || tag == "cpp"@ || tag == "java"@ || tag == "cs"@ || tag == "r"@
}

/// The backend for a normalized (lower-case) language tag.
pub open spec fn route(tag: Seq<char>) -> Result<Option<Seq<char>>, DispatchError> {
    if tag == "rust"@ {
        Ok(None)
    } else if is_generic_tag(tag) {
        Ok(Some(tag))
    } else if tag == "js"@ || tag == "javascript"@ {
        Ok(Some("node"@))
    } else if tag == "ts"@ || tag == "typescript"@ {
        Ok(Some("ts"@))
    } else if tag == "py"@ || tag == "python"@ {
        Ok(Some("py"@))
    } else if tag.len() == 0 {
        Err(DispatchError::NoLanguageSpecified)
    } else {
        Err(DispatchError::UnsupportedLanguage)
    }
}

/// An empty tag names no language.
pub proof fn lemma_route_empty(tag: Seq<char>)
    requires
        tag.len() == 0,
    ensures
        route(tag) == Err::<Option<Seq<char>>, DispatchError>(DispatchError::NoLanguageSpecified),
{
    reveal_strlit("rust");
    reveal_strlit("c");
    reveal_strlit("go");
    reveal_strlit("cpp");
    reveal_strlit("java");
    reveal_strlit("cs");
    reveal_strlit("r");
    reveal_strlit("js");
    reveal_strlit("javascript");
    reveal_strlit("ts");
    reveal_strlit("typescript");
    reveal_strlit("py");
    reveal_strlit("python");
}

/// Chooses the backend for a normalized language tag.
pub fn select_backend(tag: &str) -> (r: Result<Backend, DispatchError>)
    ensures
        match r {
            Ok(b) => route(tag@) == Ok::<Option<Seq<char>>, DispatchError>(b@),
            Err(e) => route(tag@) == Err::<Option<Seq<char>>, DispatchError>(e),
        },
{
    if same_text(tag, "rust") {
        Ok(Backend::Rust)
    } else if same_text(tag, "c") || same_text(tag, "go") || same_text(tag, "cpp") || same_text(
        tag,
        "java",
    ) || same_text(tag, "cs") || same_text(tag, "r") {
        Ok(Backend::Generic(String::from_str(tag)))
    } else if same_text(tag, "js") || same_text(tag, "javascript") {
        Ok(Backend::Generic(String::from_str("node")))
    } else if same_text(tag, "ts") || same_text(tag, "typescript") {
        Ok(Backend::Generic(String::from_str("ts")))
    } else if same_text(tag, "py") || same_text(tag, "python") {
        Ok(Backend::Generic(String::from_str("py")))
    } else if tag.unicode_len() == 0 {
        Err(DispatchError::NoLanguageSpecified)
    } else {
        Err(DispatchError::UnsupportedLanguage)
    }
}

/// One block's code, bound for one backend.
pub struct ExecutionRequest {
    pub backend: Backend,
    pub code: String,
}

/// The routing of a block: its tag is lower-cased first.
pub open spec fn plan(block: (Seq<char>, Seq<char>)) -> Result<Option<Seq<char>>, DispatchError> {
    route(lower_of(block.0))
}

/// Routes a block to its backend.
pub fn plan_execution(block: &CodeBlock) -> (r: Result<ExecutionRequest, DispatchError>)
    ensures
        match r {
            Ok(req) => plan(block@) == Ok::<Option<Seq<char>>, DispatchError>(req.backend@)
                && req.code@ == block.code@,
            Err(e) => plan(block@) == Err::<Option<Seq<char>>, DispatchError>(e),
        },
        block.language@.len() == 0 ==> r == Err::<ExecutionRequest, DispatchError>(
            DispatchError::NoLanguageSpecified,
        ),
{
    let tag = lowercase(block.language.as_str());
    proof {
        if block.language@.len() == 0 {
            lemma_route_empty(tag@);
        }
    }
    match select_backend(tag.as_str()) {
        Ok(backend) => Ok(ExecutionRequest { backend, code: block.code.clone() }),
        Err(e) => Err(e),
    }
}

pub open spec fn rust_endpoint() -> Seq<char> {
    "https://play.rust-lang.org/execute"@
}

pub open spec fn generic_endpoint() -> Seq<char> {
    "https://api2.sololearn.com/v2/codeplayground/v2/compile"@
}

/// The JSON document sent to the Rust service: stable channel, debug mode,
/// edition 2021, a binary crate, no tests, no backtrace.
pub open spec fn rust_request_json(code: Seq<char>) -> Seq<char> {
    "{\"backtrace\":false,\"channel\":\"stable\",\"code\":"@ + json_text_of(code)
        + ",\"crateType\":\"bin\",\"edition\":\"2021\",\"mode\":\"debug\",\"tests\":false}"@
}

/// The JSON document sent to the shared service: the code, an empty id, an
/// empty input and the language parameter.
pub open spec fn generic_request_json(language: Seq<char>, code: Seq<char>) -> Seq<char> {
    "{\"code\":"@ + json_text_of(code) + ",\"codeId\":\"\",\"input\":\"\",\"language\":"@
        + json_text_of(language) + "}"@
}

impl ExecutionRequest {
    pub open spec fn endpoint_spec(&self) -> Seq<char> {
        match self.backend {
            Backend::Rust => rust_endpoint(),
            Backend::Generic(_) => generic_endpoint(),
        }
    }

    pub open spec fn body_spec(&self) -> Seq<char> {
        match self.backend {
            Backend::Rust => rust_request_json(self.code@),
            Backend::Generic(l) => generic_request_json(l@, self.code@),
        }
    }

    /// The URL that the request is posted to.
    pub fn endpoint(&self) -> (r: String)
        ensures
            r@ == self.endpoint_spec(),
    {
        match &self.backend {
            Backend::Rust => String::from_str("https://play.rust-lang.org/execute"),
            Backend::Generic(_) => String::from_str(
                "https://api2.sololearn.com/v2/codeplayground/v2/compile",
            ),
        }
    }

    /// The JSON document that is posted.
    pub fn body(&self) -> (r: String)
        ensures
            r@ == self.body_spec(),
    {
        let code = quote_json(self.code.as_str());
        match &self.backend {
            Backend::Rust => {
                let mut r = String::from_str("{\"backtrace\":false,\"channel\":\"stable\",\"code\":");
                r.append(code.as_str());
                r.append(",\"crateType\":\"bin\",\"edition\":\"2021\",\"mode\":\"debug\",\"tests\":false}");
                r
            },
            Backend::Generic(language) => {
                let lang = quote_json(language.as_str());
                let mut r = String::from_str("{\"code\":");
                r.append(code.as_str());
                r.append(",\"codeId\":\"\",\"input\":\"\",\"language\":");
                r.append(lang.as_str());
                r.append("}");
                r
            },
        }
    }
}

/// How a backend call can fail.
#[derive(Clone, Copy, Debug, PartialEq, Eq)]
pub enum BackendError {
    Transport,
    Timeout,
    MalformedResponse,
    CodeFailed,
    MissingField,
}

impl BackendError {
    pub open spec fn text(self) -> Seq<char> {
        match self {
            BackendError::Transport => "ERROR: Could not reach the execution service."@,
            BackendError::Timeout => "ERROR: The execution service timed out."@,
            BackendError::MalformedResponse => "ERROR: API Error."@,
            BackendError::CodeFailed => "ERROR: Code failed."@,
            BackendError::MissingField => "ERROR: API Error."@,
        }
    }

    /// The user-facing text of the error.
    pub fn message(&self) -> (r: String)
        ensures
            r@ == self.text(),
    {
        match self {
            BackendError::Transport => String::from_str("ERROR: Could not reach the execution service."),
            BackendError::Timeout => String::from_str("ERROR: The execution service timed out."),
            BackendError::MalformedResponse => String::from_str("ERROR: API Error."),
            BackendError::CodeFailed => String::from_str("ERROR: Code failed."),
            BackendError::MissingField => String::from_str("ERROR: API Error."),
        }
    }
}

/// What the Rust service answers.
pub struct RustApiResponse {
    pub success: Option<bool>,
    pub stdout: Option<String>,
    pub stderr: Option<String>,
    pub error: Option<String>,
}

/// The output of a Rust service answer: its error if there is one, else its
/// standard output on success and its standard error otherwise.
pub open spec fn rust_output(
    success: Option<bool>,
    stdout: Option<Seq<char>>,
    stderr: Option<Seq<char>>,
    error: Option<Seq<char>>,
) -> Seq<char> {
    match error {
        Some(e) => e,
        None => if success == Some(true) {
            match stdout {
                Some(o) => o,
                None => "stdout"@,
            }
        } else {
            match stderr {
                Some(o) => o,
                None => "stderr"@,
            }
        },
    }
}

pub open spec fn opt_view(o: Option<String>) -> Option<Seq<char>> {
    match o {
        Some(s) => Some(s@),
        None => None,
    }
}

impl RustApiResponse {
    pub open spec fn output_spec(&self) -> Seq<char> {
        rust_output(self.success, opt_view(self.stdout), opt_view(self.stderr), opt_view(self.error))
    }

    /// The output that the answer carries.
    pub fn output(self) -> (r: String)
        ensures
            r@ == self.output_spec(),
    {
        match self.error {
            Some(e) => e,
            None => if self.success == Some(true) {
                match self.stdout {
                    Some(o) => o,
                    None => String::from_str("stdout"),
                }
            } else {
                match self.stderr {
                    Some(o) => o,
                    None => String::from_str("stderr"),
                }
            },
        }
    }
}

/// The nested part of a shared service answer.
pub struct OtherData {
    pub output: Option<String>,
}

/// What the shared service answers.
pub struct OtherApiResponse {
    pub success: Option<bool>,
    pub data: OtherData,
}

/// The output of a shared service answer, or the failure that it reports.
pub open spec fn other_output(success: Option<bool>, output: Option<Seq<char>>) -> Result<
    Seq<char>,
    BackendError,
> {
    match success {
        Some(true) => match output {
            Some(o) => Ok(o),
            None => Err(BackendError::MissingField),
        },
        Some(false) => Err(BackendError::CodeFailed),
        None => Err(BackendError::MissingField),
    }
}

impl OtherApiResponse {
    pub open spec fn output_spec(&self) -> Result<Seq<char>, BackendError> {
        other_output(self.success, opt_view(self.data.output))
    }

    /// The output that the answer carries, or the failure that it reports.
    pub fn output(self) -> (r: Result<String, BackendError>)
        ensures
            match r {
                Ok(s) => self.output_spec() == Ok::<Seq<char>, BackendError>(s@),
                Err(e) => self.output_spec() == Err::<Seq<char>, BackendError>(e),
            },
    {
        match self.success {
            Some(true) => match self.data.output {
                Some(o) => Ok(o),
                None => Err(BackendError::MissingField),
            },
            Some(false) => Err(BackendError::CodeFailed),
            None => Err(BackendError::MissingField),
        }
    }
}

} // verus!
