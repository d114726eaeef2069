use runbot::commands::{Command, CommandStart, CommandType, RunAction, RunSession};
use runbot::discord::{InteractionData, Message, ResolvedData};
use runbot::dispatch::{Backend, BackendError};
use runbot::extract::extract_blocks;
use runbot::response::ValidatedResponse;

fn run_data(content: &str) -> InteractionData {
    InteractionData {
        id: String::from("1"),
        command_type: 3,
        name: String::from("run"),
        resolved: Some(ResolvedData {
            messages: vec![(
                String::from("42"),
                Message {
                    content: String::from(content),
                },
            )],
        }),
    }
}

// Drives a run, answering the backend calls in order with `answers`, and
// counts the calls.
fn drive(session: RunSession, answers: &[Result<&str, BackendError>]) -> (ValidatedResponse, usize) {
    let mut session = session;
    let mut calls: usize = 0;
    loop {
        match session.next_action() {
            RunAction::Reply(v) => return (v, calls),
            RunAction::Execute(_) => {
                let answer = answers[calls].map(String::from);
                calls += 1;
                if let Some(v) = session.record(answer) {
                    return (v, calls);
                }
            }
        }
    }
}

fn run_code_command(code: &str, answers: &[Result<&str, BackendError>]) -> ValidatedResponse {
    let session = RunSession::new(extract_blocks(code).unwrap());
    drive(session, answers).0
}

#[test]
fn run_valid_rust() {
    let code = String::from("```rust\nfn main() {\nprintln!(\"Hello\");\n}\n```\n");
    let session = RunSession::new(extract_blocks(&code).unwrap());
    match session.next_action() {
        RunAction::Execute(req) => {
            assert!(matches!(req.backend, Backend::Rust));
            assert_eq!(req.code, "fn main() {\nprintln!(\"Hello\");\n}\n");
        }
        RunAction::Reply(_) => panic!("expected a backend call"),
    }
    assert_eq!(
        String::from("```\nHello\n```\n"),
        run_code_command(&code, &[Ok("Hello\n")]).content
    );
}

#[test]
fn run_valid_python() {
    let code = String::from("```py\nprint(\"Hello\")\n```\n");
    let session = RunSession::new(extract_blocks(&code).unwrap());
    match session.next_action() {
        RunAction::Execute(req) => match req.backend {
            Backend::Generic(l) => assert_eq!(l, "py"),
            Backend::Rust => panic!("expected the shared backend"),
        },
        RunAction::Reply(_) => panic!("expected a backend call"),
    }
    assert_eq!(
        String::from("```\nHello\n```\n"),
        run_code_command(&code, &[Ok("Hello\n")]).content
    );
}

#[test]
fn run_no_language() {
    let code = String::from("```\nfn main() {\nprintln!(\"Hello\");\n}\n```\n");
    let v = run_code_command(&code, &[]);
    assert_eq!(
        String::from("ERROR: No language specified.\nHint: '```<language>'"),
        v.content
    );
    assert!(v.is_error);
}

#[test]
fn run_unsupported_language() {
    let code = String::from("```random_lang\nfn main() {\nprintln!(\"Hello\");\n}\n```\n");
    let v = run_code_command(&code, &[]);
    assert_eq!(String::from("ERROR: Unsupported language."), v.content);
    assert!(v.is_error);
}

#[test]
fn ping_yields_pong() {
    let mut data = run_data("anything");
    data.name = String::from("ping");
    let c = Command::new(data).unwrap();
    match c.run() {
        CommandStart::Reply(v) => {
            assert_eq!(v.content, "Pong!");
            assert!(!v.is_error);
        }
        CommandStart::Run(_) => panic!("ping does not run code"),
    }
}

#[test]
fn pong_yields_ping_without_target() {
    let data = InteractionData {
        id: String::from("9"),
        command_type: 1,
        name: String::from("pong"),
        resolved: None,
    };
    let c = Command::new(data).unwrap();
    match c.run() {
        CommandStart::Reply(v) => {
            assert_eq!(v.content, "Ping!");
            assert!(!v.is_error);
        }
        CommandStart::Run(_) => panic!("pong does not run code"),
    }
}

#[test]
fn unknown_name_gives_no_command() {
    for name in ["PING", "help", "", "runs", " run"] {
        let mut data = run_data("x");
        data.name = String::from(name);
        assert!(Command::new(data).is_none());
    }
}

#[test]
fn classify_known_names() {
    assert_eq!(runbot::commands::classify("ping"), Some(CommandType::Ping));
    assert_eq!(runbot::commands::classify("pong"), Some(CommandType::Pong));
    assert_eq!(runbot::commands::classify("run"), Some(CommandType::Run));
    assert_eq!(runbot::commands::classify("Run"), None);
}

#[test]
fn run_without_target_message() {
    let mut data = run_data("x");
    data.resolved = None;
    let c = Command::new(data).unwrap();
    match c.run() {
        CommandStart::Reply(v) => {
            assert!(v.content.starts_with("ERROR: Couldn't get message content."));
            assert!(v.is_error);
        }
        CommandStart::Run(_) => panic!("no target"),
    }
}

#[test]
fn run_with_two_target_messages() {
    let mut data = run_data("x");
    data.resolved = Some(ResolvedData {
        messages: vec![
            (String::from("1"), Message { content: String::from("```py\na\n```") }),
            (String::from("2"), Message { content: String::from("```py\nb\n```") }),
        ],
    });
    let c = Command::new(data).unwrap();
    assert!(matches!(c.run(), CommandStart::Reply(v) if v.is_error));
}

#[test]
fn run_without_code_block() {
    let c = Command::new(run_data("just some text")).unwrap();
    match c.run() {
        CommandStart::Reply(v) => {
            assert!(v.content.starts_with("ERROR: No code block found."));
            assert!(v.is_error);
        }
        CommandStart::Run(_) => panic!("no block"),
    }
}

#[test]
fn run_through_command() {
    let c = Command::new(run_data("look:\n```rust\nfn main() {}\n```")).unwrap();
    match c.run() {
        CommandStart::Run(s) => {
            let (v, calls) = drive(s, &[Ok("done\n")]);
            assert_eq!(calls, 1);
            assert_eq!(v.content, "```\ndone\n```\n");
            assert!(!v.is_error);
        }
        CommandStart::Reply(_) => panic!("expected a run"),
    }
}

#[test]
fn uppercase_tag_is_normalized() {
    let code = "```PYTHON\nprint(1)\n```";
    let session = RunSession::new(extract_blocks(code).unwrap());
    match session.next_action() {
        RunAction::Execute(req) => match req.backend {
            Backend::Generic(l) => assert_eq!(l, "py"),
            Backend::Rust => panic!("expected the shared backend"),
        },
        RunAction::Reply(_) => panic!("expected a backend call"),
    }
}

#[test]
fn too_many_lines() {
    let output = "x\n".repeat(23);
    let v = run_code_command("```rust\nfn main() {}\n```", &[Ok(&output)]);
    assert_eq!(v.content, "ERROR: Output contained too many lines.");
    assert!(v.is_error);
}

#[test]
fn line_limit_edge() {
    let output = "x\n".repeat(22);
    let v = run_code_command("```rust\nfn main() {}\n```", &[Ok(&output)]);
    assert_eq!(v.content, format!("```\n{output}```\n"));
    assert!(!v.is_error);
}

#[test]
fn too_many_characters() {
    let output = "a".repeat(1992);
    let v = run_code_command("```rust\nfn main() {}\n```", &[Ok(&output)]);
    assert_eq!(v.content, "ERROR: Output contained too many characters.");
    assert!(v.is_error);
}

#[test]
fn character_limit_edge() {
    let output = "é".repeat(1991);
    let v = run_code_command("```rust\nfn main() {}\n```", &[Ok(&output)]);
    assert_eq!(v.content.chars().count(), 1999);
    assert!(!v.is_error);
}

#[test]
fn short_circuit_on_second_block() {
    let code = "```py\nprint(1)\n```\n```go\nbad\n```\n```py\nprint(3)\n```";
    let session = RunSession::new(extract_blocks(code).unwrap());
    let (v, calls) = drive(
        session,
        &[Ok("1\n"), Err(BackendError::CodeFailed), Ok("3\n")],
    );
    assert_eq!(calls, 2);
    assert_eq!(v.content, "ERROR: Code failed.");
    assert!(v.is_error);
}

#[test]
fn short_circuit_on_unsupported_second_block() {
    let code = "```py\nprint(1)\n```\n```cobol\nbad\n```";
    let session = RunSession::new(extract_blocks(code).unwrap());
    let (v, calls) = drive(session, &[Ok("1\n")]);
    assert_eq!(calls, 1);
    assert_eq!(v.content, "ERROR: Unsupported language.");
}

#[test]
fn two_blocks_concatenated_in_order() {
    let code = "```py\nprint(1)\n```\ntext\n```js\nconsole.log(2)\n```";
    let session = RunSession::new(extract_blocks(code).unwrap());
    let (v, calls) = drive(session, &[Ok("1\n"), Ok("2\n")]);
    assert_eq!(calls, 2);
    assert_eq!(v.content, "```\n1\n```\n```\n2\n```\n");
    assert!(!v.is_error);
}

#[test]
fn backend_error_texts() {
    let cases = [
        (BackendError::CodeFailed, "ERROR: Code failed."),
        (BackendError::MissingField, "ERROR: API Error."),
        (BackendError::MalformedResponse, "ERROR: API Error."),
        (BackendError::Timeout, "ERROR: The execution service timed out."),
        (BackendError::Transport, "ERROR: Could not reach the execution service."),
    ];
    for (e, text) in cases {
        let v = run_code_command("```c\nint main(){}\n```", &[Err(e)]);
        assert_eq!(v.content, text);
        assert!(v.is_error);
    }
}
