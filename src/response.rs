//! Validation of backend output: each output is wrapped in a fence and held
//! to a line limit; the whole reply is held to the platform's length limit.
use vstd::prelude::*;
use crate::text::chars_of;

verus! {

/// A wrapped output must hold fewer newlines than this.
pub const MAX_LINES: usize = 25;

/// A reply must hold fewer characters than this.
pub const MAX_CHARS: usize = 2000;

/// Why an output or a reply was refused.
#[derive(Clone, Copy, Debug, PartialEq, Eq)]
pub enum ValidationError {
    TooManyLines,
    TooManyCharacters,
}

impl ValidationError {
    pub open spec fn text(self) -> Seq<char> {
        match self {
            ValidationError::TooManyLines => "ERROR: Output contained too many lines."@,
            ValidationError::TooManyCharacters => "ERROR: Output contained too many characters."@,
        }
    }

    /// The user-facing text of the error.
    pub fn message(&self) -> (r: String)
        ensures
            r@ == self.text(),
    {
        match self {
            ValidationError::TooManyLines => String::from_str("ERROR: Output contained too many lines."),
            ValidationError::TooManyCharacters => String::from_str(
                "ERROR: Output contained too many characters.",
            ),
        }
    }
}

/// The number of newline characters in a text.
pub open spec fn newline_count(s: Seq<char>) -> nat
    decreases s.len(),
{
    if s.len() == 0 {
        0
    } else {
        newline_count(s.drop_last()) + if s.last() == '\n' {
            1nat
        } else {
            0nat
        }
    }
}

/// An output inside a fence: three backticks and a newline, the output,
/// three backticks and a newline.
pub open spec fn wrapped(output: Seq<char>) -> Seq<char> {
    "```\n"@ + output + "```\n"@
}

/// The wrapped output, or the refusal of an output whose wrapped form holds
/// too many newlines.
pub open spec fn validate_output(output: Seq<char>) -> Result<Seq<char>, ValidationError> {
    if newline_count(wrapped(output)) < MAX_LINES {
        Ok(wrapped(output))
    } else {
        Err(ValidationError::TooManyLines)
    }
}

/// A reply as delivered: the reply itself, or the refusal of one that is too
/// long.
pub open spec fn validate_reply(reply: Seq<char>) -> Result<Seq<char>, ValidationError> {
    if reply.len() < MAX_CHARS {
        Ok(reply)
    } else {
        Err(ValidationError::TooManyCharacters)
    }
}

fn count_newlines(s: &str) -> (r: usize)
    ensures
        r == newline_count(s@),
{
    let t = chars_of(s);
    let mut n: usize = 0;
    let mut i: usize = 0;
    while i < t.len()
        invariant
            t@ == s@,
            i <= t@.len(),
            n <= i,
            n == newline_count(t@.subrange(0, i as int)),
        decreases t@.len() - i,
    {
        assert(t@.subrange(0, i + 1).drop_last() =~= t@.subrange(0, i as int));
        if t[i] == '\n' {
            n = n + 1;
        }
        i = i + 1;
    }
    assert(t@.subrange(0, i as int) =~= t@);
    n
}

/// Wraps one output in a fence and holds it to the line limit.
pub fn validate_block_output(output: &str) -> (r: Result<String, ValidationError>)
    ensures
        match r {
            Ok(w) => validate_output(output@) == Ok::<Seq<char>, ValidationError>(w@),
            Err(e) => validate_output(output@) == Err::<Seq<char>, ValidationError>(e),
        },
{
    let mut w = String::from_str("```\n");
    w.append(output);
    w.append("```\n");
    if count_newlines(w.as_str()) < MAX_LINES {
        Ok(w)
    } else {
        Err(ValidationError::TooManyLines)
    }
}

/// Holds a whole reply to the length limit.
pub fn validate_reply_length(reply: String) -> (r: Result<String, ValidationError>)
    ensures
        match r {
            Ok(w) => validate_reply(reply@) == Ok::<Seq<char>, ValidationError>(w@),
            Err(e) => validate_reply(reply@) == Err::<Seq<char>, ValidationError>(e),
        },
{
    if reply.as_str().unicode_len() < MAX_CHARS {
        Ok(reply)
    } else {
        Err(ValidationError::TooManyCharacters)
    }
}

/// The content delivered for a command, and whether it reports an error.
pub struct ValidatedResponse {
    pub content: String,
    pub is_error: bool,
}

impl View for ValidatedResponse {
    type V = (Seq<char>, bool);

    open spec fn view(&self) -> (Seq<char>, bool) {
        (self.content@, self.is_error)
    }
}

impl ValidatedResponse {
    /// Content that reports success.
    pub fn success(content: String) -> (r: ValidatedResponse)
        ensures
            r@ == (content@, false),
    {
        ValidatedResponse { content, is_error: false }
    }

    /// Content that reports an error.
    pub fn error(content: String) -> (r: ValidatedResponse)
        ensures
            r@ == (content@, true),
    {
        ValidatedResponse { content, is_error: true }
    }
}

} // verus!
