//! Commands: messages that begin with `~`. What a command asks for, who may
//! ask for it, and what is to be done about it.

use crate::message::{note, ping, pong, say, Data, DataView};
use crate::text::{chars_of, same_text, slice_text};
use crate::words::{join_words, joined, split_words, words_of};
use vstd::prelude::*;

verus! {

/// What a command asks for.
#[derive(Clone, Debug, PartialEq, Eq)]
pub enum Command {
    /// Say this back.
    Echo(String),
    /// Answer the ping.
    Ping,
    /// Run this in the shell.
    Exec(String),
    /// Reset the session; with `all`, those of the helper bots too.
    Clear { all: bool },
    /// Give the room this model.
    Model(String),
    /// Ask the assistant this.
    Ask(String),
    /// Nothing that is known.
    Unknown,
}

/// The mathematical value of [`Command`].
pub enum CommandView {
    Echo(Seq<char>),
    Ping,
    Exec(Seq<char>),
    Clear { all: bool },
    Model(Seq<char>),
    Ask(Seq<char>),
    Unknown,
}

impl View for Command {
    type V = CommandView;

    open spec fn view(&self) -> CommandView {
        match self {
            Command::Echo(text) => CommandView::Echo(text@),
            Command::Ping => CommandView::Ping,
            Command::Exec(line) => CommandView::Exec(line@),
            Command::Clear { all } => CommandView::Clear { all: *all },
            Command::Model(model) => CommandView::Model(model@),
            Command::Ask(question) => CommandView::Ask(question@),
            Command::Unknown => CommandView::Unknown,
        }
    }
}

/// The word at position `at`, if there is one.
pub open spec fn word_at(words: Seq<Seq<char>>, at: int) -> Option<Seq<char>> {
    if 0 <= at < words.len() {
        Some(words[at])
    } else {
        None
    }
}

/// The command that the words of a message spell. The first word is `~` and
/// the command's name; the other words are its arguments, taken with one
/// blank between each two where they are taken as a text. A message whose
/// first word does not begin with `~` is no command.
pub open spec fn command_of(text: Seq<char>) -> Option<CommandView> {
    let words = words_of(text);
    if words.len() == 0 || words[0].len() == 0 || words[0][0] != '~' {
        None
    } else {
        let name = words[0].skip(1);
        let rest = joined(words, 1);
        Some(
            if name == "echo"@ {
                CommandView::Echo(rest)
            } else if name == "ping"@ {
                CommandView::Ping
            } else if name == "exec"@ {
                CommandView::Exec(rest)
            } else if name == "ai"@ {
                if word_at(words, 1) == Some("!clear"@) {
                    CommandView::Clear { all: word_at(words, 2) == Some("all"@) }
                } else if word_at(words, 1) == Some("!model"@) {
                    CommandView::Model(
                        match word_at(words, 2) {
                            Some(model) => model,
                            None => Seq::empty(),
                        },
                    )
                } else {
                    CommandView::Ask(rest)
                }
            } else {
                CommandView::Unknown
            },
        )
    }
}

fn is_word(words: &Vec<String>, at: usize, word: &str) -> (r: bool)
    ensures
        r == (word_at(words.deep_view(), at as int) == Some(word@)),
{
    if at < words.len() {
        same_text(words[at].as_str(), word)
    } else {
        false
    }
}

/// Reads the command that a message spells.
pub fn process_command(text: &str) -> (r: Option<Command>)
    ensures
        match r {
            Some(command) => command_of(text@) == Some(command@),
            None => command_of(text@) is None,
        },
{
    let words = split_words(text);
    if words.len() == 0 {
        return None;
    }
    let first = chars_of(words[0].as_str());
    if first.len() == 0 || first[0] != '~' {
        return None;
    }
    let name = slice_text(&first, 1, first.len());
    assert(name@ == words.deep_view()[0].skip(1));
    let name = name.as_str();
    let command = if same_text(name, "echo") {
        Command::Echo(join_words(&words, 1))
    } else if same_text(name, "ping") {
        Command::Ping
    } else if same_text(name, "exec") {
        Command::Exec(join_words(&words, 1))
    } else if same_text(name, "ai") {
        if is_word(&words, 1, "!clear") {
            Command::Clear { all: is_word(&words, 2, "all") }
        } else if is_word(&words, 1, "!model") {
            Command::Model(
                if words.len() > 2 {
                    words[2].clone()
                } else {
                    String::new()
                },
            )
        } else {
            Command::Ask(join_words(&words, 1))
        }
    } else {
        Command::Unknown
    };
    Some(command)
}

/// Who sent a message.
#[derive(Clone, Copy, Debug, PartialEq, Eq, Structural)]
pub enum Identity {
    /// The owner of the bot.
    Owner,
    /// Anybody else.
    User,
}

/// Tells the owner from anybody else.
pub fn get_identity(sender: u64, owner: u64) -> (r: Identity)
    ensures
        r == (if sender == owner {
            Identity::Owner
        } else {
            Identity::User
        }),
{
    if sender == owner {
        Identity::Owner
    } else {
        Identity::User
    }
}

/// Whether only the owner may give a command: running something in the
/// shell is the owner's alone everywhere; in a room, so are resetting the
/// session and choosing the model.
pub open spec fn owner_only(command: CommandView, in_group: bool) -> bool {
    command is Exec || (in_group && (command is Clear || command is Model))
}

/// Whether a sender may give a command.
pub open spec fn may_give(identity: Identity, command: CommandView, in_group: bool) -> bool {
    identity == Identity::Owner || !owner_only(command, in_group)
}

/// Whether a sender may give a command.
pub fn permits(identity: Identity, command: &Command, in_group: bool) -> (r: bool)
    ensures
        r == may_give(identity, command@, in_group),
{
    let restricted = match command {
        Command::Exec(_) => true,
        Command::Clear { .. } => in_group,
        Command::Model(_) => in_group,
        _ => false,
    };
    match identity {
        Identity::Owner => true,
        Identity::User => !restricted,
    }
}

/// What is to be done about a command.
#[derive(Clone, Debug, PartialEq, Eq)]
pub enum CommandPlan {
    /// Answer with these parts.
    Reply(Vec<Data>),
    /// Run this line in the shell and answer with what it printed.
    Run(String),
    /// Reset the sessions of these variants, then answer `Record cleared`.
    Clear(Vec<String>),
    /// Give the room this model, then answer `Model set`.
    Model(String),
    /// Ask the assistant this and answer with what it says.
    Converse(String),
}

/// The mathematical value of [`CommandPlan`].
pub enum CommandPlanView {
    Reply(Seq<DataView>),
    Run(Seq<char>),
    Clear(Seq<Seq<char>>),
    Model(Seq<char>),
    Converse(Seq<char>),
}

impl View for CommandPlan {
    type V = CommandPlanView;

    open spec fn view(&self) -> CommandPlanView {
        match self {
            CommandPlan::Reply(parts) => CommandPlanView::Reply(parts.deep_view()),
            CommandPlan::Run(line) => CommandPlanView::Run(line@),
            CommandPlan::Clear(variants) => CommandPlanView::Clear(variants.deep_view()),
            CommandPlan::Model(model) => CommandPlanView::Model(model@),
            CommandPlan::Converse(question) => CommandPlanView::Converse(question@),
        }
    }
}

/// The variants whose sessions a reset clears: that of the room's model,
/// and with `all`, outside of rooms, those of the helper bots and of the
/// bot that describes images.
pub open spec fn cleared_variants(all: bool, in_group: bool) -> Seq<Seq<char>> {
    if all && !in_group {
        seq!["main"@, "gemini_2_0"@, "jv6tFQ5q"@, "zzWzZzSg"@]
    } else {
        seq!["main"@]
    }
}

/// What is to be done about a command of a sender called `nickname`: a
/// command that the sender may not give is answered with a refusal.
pub open spec fn plan_of(
    command: CommandView,
    identity: Identity,
    nickname: Seq<char>,
    in_group: bool,
) -> CommandPlanView {
    if !may_give(identity, command, in_group) {
        CommandPlanView::Reply(note("Permission denied: Owner required"@))
    } else {
        match command {
            CommandView::Echo(text) => CommandPlanView::Reply(note(text)),
            CommandView::Ping => CommandPlanView::Reply(pong(nickname)),
            CommandView::Exec(line) => CommandPlanView::Run(line),
            CommandView::Clear { all } => CommandPlanView::Clear(cleared_variants(all, in_group)),
            CommandView::Model(model) => CommandPlanView::Model(model),
            CommandView::Ask(question) => CommandPlanView::Converse(question),
            CommandView::Unknown => CommandPlanView::Reply(note("Unknown command"@)),
        }
    }
}

/// Decides what is to be done about a command.
pub fn plan(command: Command, identity: Identity, nickname: &str, in_group: bool) -> (r:
    CommandPlan)
    ensures
        r@ == plan_of(command@, identity, nickname@, in_group),
{
    if !permits(identity, &command, in_group) {
        return CommandPlan::Reply(say("Permission denied: Owner required".to_owned()));
    }
    match command {
        Command::Echo(text) => CommandPlan::Reply(say(text)),
        Command::Ping => CommandPlan::Reply(ping(nickname)),
        Command::Exec(line) => CommandPlan::Run(line),
        Command::Clear { all } => {
            let mut variants: Vec<String> = Vec::new();
            variants.push("main".to_owned());
            if all && !in_group {
                variants.push("gemini_2_0".to_owned());
                variants.push("jv6tFQ5q".to_owned());
                variants.push("zzWzZzSg".to_owned());
            }
            assert(variants.deep_view() =~= cleared_variants(all, in_group));
            CommandPlan::Clear(variants)
        },
        Command::Model(model) => CommandPlan::Model(model),
        Command::Ask(question) => CommandPlan::Converse(question),
        Command::Unknown => CommandPlan::Reply(say("Unknown command".to_owned())),
    }
}

} // verus!
