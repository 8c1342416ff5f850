//! The arguments of the program and of its commands, as plain values.

use vstd::prelude::*;

verus! {

/// The model that a command uses unless told otherwise.
pub const DEFAULT_MODEL: &'static str = "gpt-3.5-turbo-16k";

/// The diff tool that the edit command uses unless told otherwise.
pub const DEFAULT_DIFF: &'static str = "diff";

/// The arguments of the chat command.
#[derive(Clone, Debug, PartialEq, Eq)]
pub struct ChatArgs {
    /// The model to use.
    pub model: String,
    /// Print each fragment as it arrived, with the mode resolved for it,
    /// in place of the rendering.
    pub debug: bool,
}

impl Default for ChatArgs {
    fn default() -> (args: ChatArgs)
        ensures
            args.model@ == DEFAULT_MODEL@,
            !args.debug,
    {
        ChatArgs { model: DEFAULT_MODEL.to_owned(), debug: false }
    }
}

/// The arguments of the edit command.
#[derive(Clone, Debug, PartialEq, Eq)]
pub struct EditArgs {
    /// The file to create or edit.
    pub file: String,
    /// The edit instructions, word by word.
    pub instruction: Vec<String>,
    /// Create a new file, without reading the one that is there.
    pub new: bool,
    /// The diff tool to use.
    pub diff: String,
    /// The model to use.
    pub model: String,
}

/// The arguments of the models command: it has none.
#[derive(Clone, Debug, PartialEq, Eq)]
pub struct ModelsArgs {
}

/// A command of the program, with its arguments.
#[derive(Clone, Debug, PartialEq, Eq)]
pub enum Command {
    /// Start a chat session.
    Chat(ChatArgs),
    /// Edit or create a file.
    Edit(EditArgs),
    /// List all available models.
    Models(ModelsArgs),
}

/// The arguments of the program.
#[derive(Clone, Debug, PartialEq, Eq)]
pub struct Args {
    /// The API key.
    pub api_key: String,
    /// The command given, if one was.
    pub command: Option<Command>,
}

impl Args {
    /// The command to run: the one given, and a chat session with its default
    /// arguments where none was.
    pub fn into_command(self) -> (command: Command)
        ensures
            match self.command {
                Some(given) => command == given,
                None => command matches Command::Chat(chat) && chat.model@ == DEFAULT_MODEL@
                    && !chat.debug,
            },
    {
        match self.command {
            Some(given) => given,
            None => Command::Chat(ChatArgs::default()),
        }
    }
}

} // verus!
