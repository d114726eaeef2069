use runbot::extract::{extract_blocks, ExtractionError};

fn pairs(content: &str) -> Vec<(String, String)> {
    extract_blocks(content)
        .unwrap()
        .into_iter()
        .map(|b| (b.language, b.code))
        .collect()
}

#[test]
fn single_block() {
    assert_eq!(
        pairs("```rust\nfn main() {}\n```"),
        vec![(String::from("rust"), String::from("fn main() {}\n"))]
    );
}

#[test]
fn blocks_in_document_order() {
    assert_eq!(
        pairs("a ```py\n1\n``` b ```\n2```c"),
        vec![
            (String::from("py"), String::from("1\n")),
            (String::from(""), String::from("2")),
        ]
    );
}

#[test]
fn no_block_is_an_error() {
    assert_eq!(extract_blocks("plain").err(), Some(ExtractionError::NoCodeBlock));
    assert_eq!(extract_blocks("").err(), Some(ExtractionError::NoCodeBlock));
    assert_eq!(extract_blocks("```rust\nno end").err(), Some(ExtractionError::NoCodeBlock));
    assert_eq!(extract_blocks("```ru-st\nx\n```").err(), Some(ExtractionError::NoCodeBlock));
}

#[test]
fn unicode_word_tag() {
    assert_eq!(
        pairs("```çé\nx```"),
        vec![(String::from("çé"), String::from("x"))]
    );
}

#[test]
fn later_opening_after_failed_one() {
    assert_eq!(
        pairs("``` x\n```py\nok\n```"),
        vec![(String::from("py"), String::from("ok\n"))]
    );
}
