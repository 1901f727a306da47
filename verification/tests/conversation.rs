use most_gpt::conversation::{
    assemble_request, recent_turns, ConversationTurn, Role, CONTEXT_TURNS, RETAINED_TURNS,
};

fn numbered_turns(count: usize) -> Vec<ConversationTurn> {
    let mut history = Vec::new();
    for number in 0..count {
        if number % 2 == 0 {
            history.push(ConversationTurn::user(&format!("question {}", number)));
        } else {
            history.push(ConversationTurn::assistant(&format!("answer {}", number)));
        }
    }
    history
}

#[test]
fn limits_are_ten_and_four() {
    assert_eq!(CONTEXT_TURNS, 10);
    assert_eq!(RETAINED_TURNS, 4);
}

#[test]
fn role_tags_are_those_of_the_backend() {
    assert_eq!(Role::System.as_str(), "system");
    assert_eq!(Role::User.as_str(), "user");
    assert_eq!(Role::Assistant.as_str(), "assistant");
}

#[test]
fn turn_keeps_role_and_content() {
    let turn = ConversationTurn::new(Role::Assistant, "hi".to_string());
    assert_eq!(turn.role(), Role::Assistant);
    assert_eq!(turn.content(), "hi");
    assert_eq!(turn, ConversationTurn::assistant("hi"));
    assert_ne!(turn, ConversationTurn::user("hi"));
    assert_eq!(turn.clone(), turn);
}

#[test]
fn recent_turns_of_a_short_history_is_all_of_it() {
    let history = numbered_turns(3);
    assert_eq!(recent_turns(&history, 10), history);
    assert_eq!(recent_turns(&history, 3), history);
}

#[test]
fn recent_turns_of_a_long_history_is_its_tail_in_order() {
    let history = numbered_turns(12);
    let tail = recent_turns(&history, 10);
    assert_eq!(tail.len(), 10);
    assert_eq!(tail, history[2..].to_vec());
    assert_eq!(tail[0].content(), "question 2");
    assert_eq!(tail[9].content(), "answer 11");
}

#[test]
fn recent_turns_of_nothing_or_with_no_room_is_empty() {
    assert_eq!(recent_turns(&Vec::new(), 4), Vec::new());
    assert_eq!(recent_turns(&numbered_turns(5), 0), Vec::new());
}

#[test]
fn request_opens_with_the_instruction_and_ends_with_the_message() {
    let context = numbered_turns(2);
    let request = assemble_request("chatgpt", context.clone(), "what now?");
    assert_eq!(request.len(), 4);
    assert_eq!(request[0].role(), Role::System);
    assert_eq!(
        request[0].content(),
        "您是一个名为chatgpt的有用助手，以Markdown格式提供简洁的答案"
    );
    assert_eq!(request[1], context[0]);
    assert_eq!(request[2], context[1]);
    assert_eq!(request[3], ConversationTurn::user("what now?"));
}

#[test]
fn request_without_context_has_two_turns() {
    let request = assemble_request("bot", Vec::new(), "hello");
    assert_eq!(request.len(), 2);
    assert_eq!(request[0].role(), Role::System);
    assert_eq!(request[1], ConversationTurn::user("hello"));
}
