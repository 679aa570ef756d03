use chat_relay::command::{
    get_identity, permits, plan, process_command, Command, CommandPlan, Identity,
};
use chat_relay::message::{ping, say, Data};
use chat_relay::words::{join_words, space, split_words};

fn texts(words: &[&str]) -> Vec<String> {
    words.iter().map(|w| w.to_string()).collect()
}

#[test]
fn space_is_what_the_standard_library_calls_white_space() {
    for code in 0u32..0x3100 {
        if let Some(c) = char::from_u32(code) {
            assert_eq!(space(c), c.is_whitespace(), "U+{:04X}", code);
        }
    }
    assert!(!space('~'));
    assert!(!space('\u{200B}'));
    assert!(!space('\u{FEFF}'));
}

#[test]
fn split_words_splits_at_white_space() {
    assert_eq!(split_words(" ~ai  hello\tworld\n"), texts(&["~ai", "hello", "world"]));
    assert_eq!(split_words(""), Vec::<String>::new());
    assert_eq!(split_words(" \u{3000} "), Vec::<String>::new());
    assert_eq!(split_words("one"), texts(&["one"]));
    assert_eq!(split_words("你好\u{3000}世界"), texts(&["你好", "世界"]));
    for sample in ["", " a  b ", "a", "\ta\u{A0}b\u{2003}c", "~ai !model x y"] {
        let expected: Vec<String> = sample.split_whitespace().map(|w| w.to_string()).collect();
        assert_eq!(split_words(sample), expected);
    }
}

#[test]
fn join_words_puts_one_blank_between_words() {
    let words = texts(&["~ai", "hello", "big", "world"]);
    assert_eq!(join_words(&words, 0), "~ai hello big world");
    assert_eq!(join_words(&words, 1), "hello big world");
    assert_eq!(join_words(&words, 3), "world");
    assert_eq!(join_words(&words, 4), "");
    assert_eq!(join_words(&words, 9), "");
    assert_eq!(join_words(&Vec::new(), 0), "");
}

#[test]
fn commands_are_read_from_their_words() {
    assert_eq!(process_command(" ~echo  a   b "), Some(Command::Echo("a b".to_string())));
    assert_eq!(process_command("~echo"), Some(Command::Echo(String::new())));
    assert_eq!(process_command("~ping now"), Some(Command::Ping));
    assert_eq!(process_command("~exec ls  -la"), Some(Command::Exec("ls -la".to_string())));
    assert_eq!(process_command("~ai how are you"), Some(Command::Ask("how are you".to_string())));
    assert_eq!(process_command("~ai"), Some(Command::Ask(String::new())));
    assert_eq!(process_command("~ai !clear"), Some(Command::Clear { all: false }));
    assert_eq!(process_command("~ai !clear all"), Some(Command::Clear { all: true }));
    assert_eq!(process_command("~ai !clear some"), Some(Command::Clear { all: false }));
    assert_eq!(process_command("~ai !model fast-1.0"), Some(Command::Model("fast-1.0".to_string())));
    assert_eq!(process_command("~ai !model"), Some(Command::Model(String::new())));
    assert_eq!(process_command("~ai clear"), Some(Command::Ask("clear".to_string())));
    assert_eq!(process_command("~dance"), Some(Command::Unknown));
    assert_eq!(process_command("~"), Some(Command::Unknown));
    assert_eq!(process_command("~Echo x"), Some(Command::Unknown));
}

#[test]
fn a_text_that_does_not_begin_with_a_tilde_is_no_command() {
    assert_eq!(process_command(""), None);
    assert_eq!(process_command("   "), None);
    assert_eq!(process_command("echo x"), None);
    assert_eq!(process_command("x ~echo y"), None);
}

#[test]
fn the_owner_is_told_from_the_others() {
    assert_eq!(get_identity(5, 5), Identity::Owner);
    assert_eq!(get_identity(5, 6), Identity::User);
}

#[test]
fn only_the_owner_runs_shell_lines_and_rules_rooms() {
    let exec = Command::Exec("ls".to_string());
    let clear = Command::Clear { all: false };
    let model = Command::Model("m".to_string());
    for in_group in [true, false] {
        for command in [&exec, &clear, &model, &Command::Ping, &Command::Unknown] {
            assert!(permits(Identity::Owner, command, in_group));
        }
        assert!(!permits(Identity::User, &exec, in_group));
        assert!(permits(Identity::User, &Command::Ping, in_group));
        assert!(permits(Identity::User, &Command::Echo("x".to_string()), in_group));
        assert!(permits(Identity::User, &Command::Ask("x".to_string()), in_group));
    }
    assert!(!permits(Identity::User, &clear, true));
    assert!(!permits(Identity::User, &model, true));
    assert!(permits(Identity::User, &clear, false));
    assert!(permits(Identity::User, &model, false));
}

#[test]
fn plans_follow_the_commands() {
    let denied = CommandPlan::Reply(vec![Data::Text("Permission denied: Owner required".to_string())]);
    assert_eq!(plan(Command::Exec("ls".to_string()), Identity::User, "n", false), denied);
    assert_eq!(plan(Command::Clear { all: true }, Identity::User, "n", true), denied);
    assert_eq!(
        plan(Command::Exec("ls".to_string()), Identity::Owner, "n", true),
        CommandPlan::Run("ls".to_string())
    );
    assert_eq!(
        plan(Command::Echo("a b".to_string()), Identity::User, "n", true),
        CommandPlan::Reply(vec![Data::Text("a b".to_string())])
    );
    assert_eq!(
        plan(Command::Ping, Identity::User, "Bob", true),
        CommandPlan::Reply(vec![Data::Text("pong to Bob".to_string())])
    );
    assert_eq!(
        plan(Command::Unknown, Identity::User, "Bob", false),
        CommandPlan::Reply(vec![Data::Text("Unknown command".to_string())])
    );
    assert_eq!(
        plan(Command::Model("m".to_string()), Identity::Owner, "n", true),
        CommandPlan::Model("m".to_string())
    );
    assert_eq!(
        plan(Command::Ask("q".to_string()), Identity::User, "n", true),
        CommandPlan::Converse("q".to_string())
    );
}

#[test]
fn a_reset_clears_the_helpers_only_outside_of_rooms() {
    assert_eq!(
        plan(Command::Clear { all: true }, Identity::User, "n", false),
        CommandPlan::Clear(texts(&["main", "gemini_2_0", "jv6tFQ5q", "zzWzZzSg"]))
    );
    assert_eq!(
        plan(Command::Clear { all: false }, Identity::User, "n", false),
        CommandPlan::Clear(texts(&["main"]))
    );
    assert_eq!(
        plan(Command::Clear { all: true }, Identity::Owner, "n", true),
        CommandPlan::Clear(texts(&["main"]))
    );
}

#[test]
fn parts_know_their_kind() {
    assert_eq!(Data::string("x".to_string()), Data::Text("x".to_string()));
    assert_eq!(Data::at(7), Data::At(7));
    assert_eq!(Data::reply(9), Data::Reply(9));
    assert_eq!(Data::string(String::new()).kind(), "text");
    assert_eq!(Data::at(7).kind(), "at");
    assert_eq!(Data::reply(9).kind(), "reply");
    assert_eq!(ping("Ann"), vec![Data::Text("pong to Ann".to_string())]);
    assert_eq!(say("hi".to_string()), vec![Data::Text("hi".to_string())]);
}
