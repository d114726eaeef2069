use runbot::discord::{InteractionData, Message, ResolvedData};

fn data(messages: Option<Vec<(&str, &str)>>) -> InteractionData {
    InteractionData {
        id: String::from("1"),
        command_type: 3,
        name: String::from("run"),
        resolved: messages.map(|m| ResolvedData {
            messages: m
                .into_iter()
                .map(|(id, c)| {
                    (
                        String::from(id),
                        Message {
                            content: String::from(c),
                        },
                    )
                })
                .collect(),
        }),
    }
}

#[test]
fn content_of_single_target() {
    assert_eq!(
        data(Some(vec![("7", "hello")])).get_content(),
        Some(String::from("hello"))
    );
}

#[test]
fn no_content_without_single_target() {
    assert_eq!(data(None).get_content(), None);
    assert_eq!(data(Some(vec![])).get_content(), None);
    assert_eq!(data(Some(vec![("1", "a"), ("2", "b")])).get_content(), None);
}
