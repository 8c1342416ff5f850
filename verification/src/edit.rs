//! The steps of the edit command.
//!
//! The command reads a file, asks the model for a new version of it, shows
//! the change with a diff tool, asks for a confirmation and writes the file.
//! What is read, sent, shown, asked and written is decided here, one step at a
//! time; the caller carries each step out and reports back what came of it.

use vstd::prelude::*;
use vstd::string::StringExecFns;
use crate::args::EditArgs;

verus! {

/// The role of the messages that instruct the model.
pub const SYSTEM_ROLE: &'static str = "system";

/// The role of the messages that come from the user.
pub const USER_ROLE: &'static str = "user";

/// What the model is told when it is to write a file anew.
pub const CREATE_PROMPT: &'static str =
    "The user will give you instructions for a program. You shall reply only with the content of that program without further instructions. Do not use codeblocks.";

/// What the model is told when it is to change what a file holds.
pub const CHANGE_PROMPT: &'static str = "Apply changes to the text or code supplied by the user.";

/// What stands between the words of an instruction.
pub const WORD_SEPARATOR: &'static str = " ";

/// The argument that makes the diff tool read its second file from its input.
pub const DIFF_FROM_INPUT: &'static str = "-";

/// The argument that lets the diff tool colour what it prints.
pub const DIFF_COLOR: &'static str = "--color=auto";

/// The question put before the file is written.
pub const CONFIRM_QUESTION: &'static str = "Do you want to apply these changes?";

/// What is printed once the file has been written.
pub const WRITTEN_NOTICE: &'static str = "File written";

/// A message of a conversation with the model.
#[derive(Clone, Debug, PartialEq, Eq)]
pub struct Message {
    /// Who speaks.
    pub role: String,
    /// What is said.
    pub content: String,
}

/// A message as contracts see it.
pub struct MessageView {
    pub role: Seq<char>,
    pub content: Seq<char>,
}

impl View for Message {
    type V = MessageView;

    open spec fn view(&self) -> MessageView {
        MessageView { role: self.role@, content: self.content@ }
    }
}

/// The messages `messages` as contracts see them.
pub open spec fn message_views(messages: Seq<Message>) -> Seq<MessageView> {
    Seq::new(messages.len(), |i: int| messages[i]@)
}

/// The texts `words` as contracts see them.
pub open spec fn texts(words: Seq<String>) -> Seq<Seq<char>> {
    Seq::new(words.len(), |i: int| words[i]@)
}

/// The words `words` in one text, with `separator` between each two.
pub open spec fn joined(words: Seq<Seq<char>>, separator: Seq<char>) -> Seq<char>
    decreases words.len(),
{
    if words.len() == 0 {
        Seq::empty()
    } else if words.len() == 1 {
        words[0]
    } else {
        joined(words.drop_last(), separator) + separator + words.last()
    }
}

/// The instruction of `args` as one text.
pub open spec fn instruction_of(args: EditArgs) -> Seq<char> {
    joined(texts(args.instruction@), WORD_SEPARATOR@)
}

/// The messages that ask the model for the new content of a file that holds
/// `current`. Where the file is empty or is to be written anew, the model
/// gets the instruction alone; otherwise it gets the file's content and then
/// the instruction.
pub open spec fn request_for(anew: bool, current: Seq<char>, instruction: Seq<char>) -> Seq<
    MessageView,
> {
    if current.len() == 0 || anew {
        seq![
            MessageView { role: SYSTEM_ROLE@, content: CREATE_PROMPT@ },
            MessageView { role: USER_ROLE@, content: instruction },
        ]
    } else {
        seq![
            MessageView { role: SYSTEM_ROLE@, content: CHANGE_PROMPT@ },
            MessageView { role: USER_ROLE@, content: current },
            MessageView { role: USER_ROLE@, content: instruction },
        ]
    }
}

/// The arguments with which the diff tool compares the file at `path` with
/// what it is given on its input.
pub open spec fn diff_arguments(path: Seq<char>) -> Seq<Seq<char>> {
    seq![path, DIFF_FROM_INPUT@, DIFF_COLOR@]
}

/// How far the command has come.
#[derive(Clone, Debug, PartialEq, Eq)]
pub enum EditState {
    /// Nothing has been done yet.
    Start,
    /// The file is being read.
    Reading,
    /// The model has been asked.
    Asking,
    /// The diff tool shows how `proposal` differs from the file.
    Comparing { proposal: String },
    /// The user is asked whether `proposal` is to be written.
    Confirming { proposal: String },
    /// There is nothing left to do.
    Done,
}

/// What the caller reports.
#[derive(Clone, Debug, PartialEq, Eq)]
pub enum EditEvent {
    /// The command begins.
    Begun,
    /// The file was opened and read, and holds `content`.
    FileRead { content: String },
    /// The model answered `text`.
    Replied { text: String },
    /// The diff tool has ended.
    Compared,
    /// The user answered; `None` stands for a question that failed.
    Answered { answer: Option<bool> },
}

/// What the caller is to do next.
#[derive(Clone, Debug, PartialEq, Eq)]
pub enum EditAction {
    /// Open the file at `path`, creating it if need be, and read it.
    ReadFile { path: String },
    /// Ask `model` with `messages`.
    Ask { model: String, messages: Vec<Message> },
    /// Run `tool` with `arguments`, and write `input` to its input.
    Compare { tool: String, arguments: Vec<String>, input: String },
    /// Ask `question`; `default` is the answer when none is typed.
    Confirm { question: String, default: bool },
    /// Replace what the file at `path` holds by `content`, and print `notice`.
    Write { path: String, content: String, notice: String },
    /// Nothing.
    Stop,
}

/// A state as contracts see it.
pub enum EditStateView {
    Start,
    Reading,
    Asking,
    Comparing { proposal: Seq<char> },
    Confirming { proposal: Seq<char> },
    Done,
}

/// An event as contracts see it.
pub enum EditEventView {
    Begun,
    FileRead { content: Seq<char> },
    Replied { text: Seq<char> },
    Compared,
    Answered { answer: Option<bool> },
}

/// An action as contracts see it.
pub enum EditActionView {
    ReadFile { path: Seq<char> },
    Ask { model: Seq<char>, messages: Seq<MessageView> },
    Compare { tool: Seq<char>, arguments: Seq<Seq<char>>, input: Seq<char> },
    Confirm { question: Seq<char>, default: bool },
    Write { path: Seq<char>, content: Seq<char>, notice: Seq<char> },
    Stop,
}

impl View for EditState {
    type V = EditStateView;

    open spec fn view(&self) -> EditStateView {
        match self {
            EditState::Start => EditStateView::Start,
            EditState::Reading => EditStateView::Reading,
            EditState::Asking => EditStateView::Asking,
            EditState::Comparing { proposal } => EditStateView::Comparing { proposal: proposal@ },
            EditState::Confirming { proposal } => EditStateView::Confirming {
                proposal: proposal@,
            },
            EditState::Done => EditStateView::Done,
        }
    }
}

impl View for EditEvent {
    type V = EditEventView;

    open spec fn view(&self) -> EditEventView {
        match self {
            EditEvent::Begun => EditEventView::Begun,
            EditEvent::FileRead { content } => EditEventView::FileRead { content: content@ },
            EditEvent::Replied { text } => EditEventView::Replied { text: text@ },
            EditEvent::Compared => EditEventView::Compared,
            EditEvent::Answered { answer } => EditEventView::Answered { answer: *answer },
        }
    }
}

impl View for EditAction {
    type V = EditActionView;

    open spec fn view(&self) -> EditActionView {
        match self {
            EditAction::ReadFile { path } => EditActionView::ReadFile { path: path@ },
            EditAction::Ask { model, messages } => EditActionView::Ask {
                model: model@,
                messages: message_views(messages@),
            },
            EditAction::Compare { tool, arguments, input } => EditActionView::Compare {
                tool: tool@,
                arguments: texts(arguments@),
                input: input@,
            },
            EditAction::Confirm { question, default } => EditActionView::Confirm {
                question: question@,
                default: *default,
            },
            EditAction::Write { path, content, notice } => EditActionView::Write {
                path: path@,
                content: content@,
                notice: notice@,
            },
            EditAction::Stop => EditActionView::Stop,
        }
    }
}

/// The state that follows `state` on `event`, and what is to be done then.
///
/// The steps follow one another in one order: read the file, ask the model,
/// show the change, ask the user, and write the file if the answer was yes.
/// Any other answer, and an event that the state did not wait for, ends the
/// command with nothing written.
pub open spec fn edit_next(args: EditArgs, state: EditStateView, event: EditEventView) -> (
    EditStateView,
    EditActionView,
) {
    match (state, event) {
        (EditStateView::Start, EditEventView::Begun) => (
            EditStateView::Reading,
            EditActionView::ReadFile { path: args.file@ },
        ),
        (EditStateView::Reading, EditEventView::FileRead { content }) => (
            EditStateView::Asking,
            EditActionView::Ask {
                model: args.model@,
                messages: request_for(args.new, content, instruction_of(args)),
            },
        ),
        (EditStateView::Asking, EditEventView::Replied { text }) => (
            EditStateView::Comparing { proposal: text },
            EditActionView::Compare {
                tool: args.diff@,
                arguments: diff_arguments(args.file@),
                input: text,
            },
        ),
        (EditStateView::Comparing { proposal }, EditEventView::Compared) => (
            EditStateView::Confirming { proposal },
            EditActionView::Confirm { question: CONFIRM_QUESTION@, default: false },
        ),
        (EditStateView::Confirming { proposal }, EditEventView::Answered { answer: Some(true) }) => (
            EditStateView::Done,
            EditActionView::Write { path: args.file@, content: proposal, notice: WRITTEN_NOTICE@ },
        ),
        _ => (EditStateView::Done, EditActionView::Stop),
    }
}

/// The words `words` in one text, with `separator` between each two.
pub fn join_words(words: &Vec<String>, separator: &str) -> (out: String)
    ensures
        out@ == joined(texts(words@), separator@),
{
    let mut out = String::new();
    let mut i: usize = 0;
    while i < words.len()
        invariant
            i <= words@.len(),
            out@ == joined(texts(words@.take(i as int)), separator@),
        decreases words@.len() - i,
    {
        proof {
            let next = texts(words@.take(i + 1));
            assert(next.drop_last() =~= texts(words@.take(i as int)));
            assert(next.last() == words@[i as int]@);
            if i == 0 {
                assert(out@ + words@[0]@ =~= next[0]);
            }
        }
        if i > 0 {
            out.append(separator);
        }
        out.append(words[i].as_str());
        i = i + 1;
    }
    assert(words@.take(words@.len() as int) =~= words@);
    out
}

/// The messages that ask the model for the new content of a file that holds
/// `current`, under the instruction `instruction`.
pub fn request_messages(anew: bool, current: String, instruction: String) -> (messages: Vec<
    Message,
>)
    ensures
        message_views(messages@) == request_for(anew, current@, instruction@),
{
    let mut messages: Vec<Message> = Vec::new();
    if current.as_str().is_empty() || anew {
        messages.push(
            Message { role: SYSTEM_ROLE.to_owned(), content: CREATE_PROMPT.to_owned() },
        );
        messages.push(Message { role: USER_ROLE.to_owned(), content: instruction });
    } else {
        messages.push(
            Message { role: SYSTEM_ROLE.to_owned(), content: CHANGE_PROMPT.to_owned() },
        );
        messages.push(Message { role: USER_ROLE.to_owned(), content: current });
        messages.push(Message { role: USER_ROLE.to_owned(), content: instruction });
    }
    assert(message_views(messages@) =~= request_for(anew, current@, instruction@));
    messages
}

/// Takes the command one step on: from `state`, on `event`, to the state that
/// follows and to what the caller is to do next.
pub fn edit_step(args: &EditArgs, state: EditState, event: EditEvent) -> (next: (
    EditState,
    EditAction,
))
    ensures
        (next.0@, next.1@) == edit_next(*args, state@, event@),
{
    match (state, event) {
        (EditState::Start, EditEvent::Begun) => (
            EditState::Reading,
            EditAction::ReadFile { path: args.file.clone() },
        ),
        (EditState::Reading, EditEvent::FileRead { content }) => {
            let instruction = join_words(&args.instruction, WORD_SEPARATOR);
            let messages = request_messages(args.new, content, instruction);
            (EditState::Asking, EditAction::Ask { model: args.model.clone(), messages })
        },
        (EditState::Asking, EditEvent::Replied { text }) => {
            let mut arguments: Vec<String> = Vec::new();
            arguments.push(args.file.clone());
            arguments.push(DIFF_FROM_INPUT.to_owned());
            arguments.push(DIFF_COLOR.to_owned());
            assert(texts(arguments@) =~= diff_arguments(args.file@));
            let input = text.clone();
            (
                EditState::Comparing { proposal: text },
                EditAction::Compare { tool: args.diff.clone(), arguments, input },
            )
        },
        (EditState::Comparing { proposal }, EditEvent::Compared) => (
            EditState::Confirming { proposal },
            EditAction::Confirm { question: CONFIRM_QUESTION.to_owned(), default: false },
        ),
        (EditState::Confirming { proposal }, EditEvent::Answered { answer: Some(true) }) => (
            EditState::Done,
            EditAction::Write {
                path: args.file.clone(),
                content: proposal,
                notice: WRITTEN_NOTICE.to_owned(),
            },
        ),
        _ => (EditState::Done, EditAction::Stop),
    }
}

} // verus!
