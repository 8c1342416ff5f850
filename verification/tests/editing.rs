use openai_cli::args::{Args, ChatArgs, Command, EditArgs, ModelsArgs};
use openai_cli::edit::{
    edit_step, join_words, request_messages, EditAction, EditEvent, EditState, Message,
};

fn words(all: &[&str]) -> Vec<String> {
    all.iter().map(|word| String::from(*word)).collect()
}

fn arguments(anew: bool) -> EditArgs {
    EditArgs {
        file: String::from("main.rs"),
        instruction: words(&["add", "a", "test"]),
        new: anew,
        diff: String::from("diff"),
        model: String::from("gpt-3.5-turbo-16k"),
    }
}

fn message(role: &str, content: &str) -> Message {
    Message { role: String::from(role), content: String::from(content) }
}

const CREATE: &str = "The user will give you instructions for a program. You shall reply only with the content of that program without further instructions. Do not use codeblocks.";
const CHANGE: &str = "Apply changes to the text or code supplied by the user.";

#[test]
fn without_a_command_a_chat_is_started() {
    let args = Args { api_key: String::from("key"), command: None };
    assert_eq!(
        args.into_command(),
        Command::Chat(ChatArgs { model: String::from("gpt-3.5-turbo-16k"), debug: false })
    );
    assert_eq!(
        ChatArgs::default(),
        ChatArgs { model: String::from("gpt-3.5-turbo-16k"), debug: false }
    );
}

#[test]
fn a_given_command_is_the_one_run() {
    let edit = Args { api_key: String::new(), command: Some(Command::Edit(arguments(true))) };
    assert_eq!(edit.into_command(), Command::Edit(arguments(true)));
    let models = Args { api_key: String::new(), command: Some(Command::Models(ModelsArgs {})) };
    assert_eq!(models.into_command(), Command::Models(ModelsArgs {}));
    let chat = ChatArgs { model: String::from("gpt-4"), debug: true };
    let args = Args { api_key: String::new(), command: Some(Command::Chat(chat.clone())) };
    assert_eq!(args.into_command(), Command::Chat(chat));
}

#[test]
fn words_are_joined_with_the_separator_between_them() {
    assert_eq!(join_words(&words(&[]), " "), "");
    assert_eq!(join_words(&words(&["one"]), " "), "one");
    assert_eq!(join_words(&words(&["add", "a", "test"]), " "), "add a test");
    assert_eq!(join_words(&words(&["", "", ""]), ", "), ", , ");
    assert_eq!(join_words(&words(&["a", "b"]), ""), "ab");
    assert_eq!(join_words(&words(&["a", "b"]), " "), words(&["a", "b"]).join(" "));
}

#[test]
fn an_empty_file_is_written_anew() {
    assert_eq!(
        request_messages(false, String::new(), String::from("add a test")),
        vec![message("system", CREATE), message("user", "add a test")]
    );
}

#[test]
fn a_file_that_is_to_be_new_is_not_sent() {
    assert_eq!(
        request_messages(true, String::from("fn main() {}"), String::from("add a test")),
        vec![message("system", CREATE), message("user", "add a test")]
    );
}

#[test]
fn a_file_that_holds_something_is_sent_before_the_instruction() {
    assert_eq!(
        request_messages(false, String::from("fn main() {}"), String::from("add a test")),
        vec![
            message("system", CHANGE),
            message("user", "fn main() {}"),
            message("user", "add a test"),
        ]
    );
}

#[test]
fn the_command_begins_by_reading_the_file() {
    assert_eq!(
        edit_step(&arguments(false), EditState::Start, EditEvent::Begun),
        (EditState::Reading, EditAction::ReadFile { path: String::from("main.rs") })
    );
}

#[test]
fn the_model_is_asked_once_the_file_is_read() {
    let read = EditEvent::FileRead { content: String::from("fn main() {}") };
    assert_eq!(
        edit_step(&arguments(false), EditState::Reading, read.clone()),
        (
            EditState::Asking,
            EditAction::Ask {
                model: String::from("gpt-3.5-turbo-16k"),
                messages: vec![
                    message("system", CHANGE),
                    message("user", "fn main() {}"),
                    message("user", "add a test"),
                ],
            }
        )
    );
    assert_eq!(
        edit_step(&arguments(true), EditState::Reading, read),
        (
            EditState::Asking,
            EditAction::Ask {
                model: String::from("gpt-3.5-turbo-16k"),
                messages: vec![message("system", CREATE), message("user", "add a test")],
            }
        )
    );
}

#[test]
fn the_answer_is_shown_as_a_diff_against_the_file() {
    let replied = EditEvent::Replied { text: String::from("fn main() { test() }") };
    assert_eq!(
        edit_step(&arguments(false), EditState::Asking, replied),
        (
            EditState::Comparing { proposal: String::from("fn main() { test() }") },
            EditAction::Compare {
                tool: String::from("diff"),
                arguments: words(&["main.rs", "-", "--color=auto"]),
                input: String::from("fn main() { test() }"),
            }
        )
    );
}

#[test]
fn the_user_is_asked_once_the_diff_was_shown() {
    let comparing = EditState::Comparing { proposal: String::from("new") };
    assert_eq!(
        edit_step(&arguments(false), comparing, EditEvent::Compared),
        (
            EditState::Confirming { proposal: String::from("new") },
            EditAction::Confirm {
                question: String::from("Do you want to apply these changes?"),
                default: false,
            }
        )
    );
}

#[test]
fn a_yes_writes_the_file() {
    let confirming = EditState::Confirming { proposal: String::from("new") };
    assert_eq!(
        edit_step(&arguments(false), confirming, EditEvent::Answered { answer: Some(true) }),
        (
            EditState::Done,
            EditAction::Write {
                path: String::from("main.rs"),
                content: String::from("new"),
                notice: String::from("File written"),
            }
        )
    );
}

#[test]
fn any_other_answer_writes_nothing() {
    for answer in [Some(false), None] {
        let confirming = EditState::Confirming { proposal: String::from("new") };
        assert_eq!(
            edit_step(&arguments(false), confirming, EditEvent::Answered { answer }),
            (EditState::Done, EditAction::Stop)
        );
    }
}

#[test]
fn an_event_out_of_turn_ends_the_command() {
    let stop = (EditState::Done, EditAction::Stop);
    let args = arguments(false);
    assert_eq!(edit_step(&args, EditState::Start, EditEvent::Compared), stop);
    assert_eq!(edit_step(&args, EditState::Reading, EditEvent::Begun), stop);
    assert_eq!(
        edit_step(&args, EditState::Asking, EditEvent::Answered { answer: Some(true) }),
        stop
    );
    assert_eq!(
        edit_step(&args, EditState::Start, EditEvent::Answered { answer: Some(true) }),
        stop
    );
    assert_eq!(edit_step(&args, EditState::Done, EditEvent::Begun), stop);
    let comparing = EditState::Comparing { proposal: String::from("new") };
    assert_eq!(
        edit_step(&args, comparing, EditEvent::Answered { answer: Some(true) }),
        stop
    );
}

#[test]
fn the_whole_command_runs_in_five_steps() {
    let args = arguments(false);
    let (state, _) = edit_step(&args, EditState::Start, EditEvent::Begun);
    let (state, _) =
        edit_step(&args, state, EditEvent::FileRead { content: String::from("old") });
    let (state, _) = edit_step(&args, state, EditEvent::Replied { text: String::from("new") });
    let (state, _) = edit_step(&args, state, EditEvent::Compared);
    let (state, action) = edit_step(&args, state, EditEvent::Answered { answer: Some(true) });
    assert_eq!(state, EditState::Done);
    assert_eq!(
        action,
        EditAction::Write {
            path: String::from("main.rs"),
            content: String::from("new"),
            notice: String::from("File written"),
        }
    );
}
