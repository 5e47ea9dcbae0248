use vexus_bot::commands::{
    attachmentinput_run, dispatch_command, global_command_name, guild_command_names, id_run,
    ping_run, CommandOption, CommandOptionValue,
};
use vexus_bot::config::{embed_color, BotConfig};
use vexus_bot::guard::LoopGuard;
use vexus_bot::num::{parse_u64, u64_to_string};
use vexus_bot::presence::{current_presence, presence_for_time, ActivityKind, OnlineStatusKind};
use vexus_bot::telemetry::system_load_report;
use vexus_bot::text::{first_char_is, join_words, split_words, str_eq, strip_char};
use vexus_bot::triggers::{
    announcement_description, announcement_footer, handle_message, suggestion_description,
    suggestion_dm_footer, suggestion_notice, suggestion_reactions, MessageAction,
};

#[test]
fn short_suggestion_is_ignored() {
    assert!(suggestion_description("!").is_none());
    assert!(suggestion_description("!  ").is_none());
    let cfg = BotConfig::default();
    let action = handle_message(&cfg, cfg.suggestion_channel_id, "!", "ada");
    assert!(matches!(action, MessageAction::Ignore));
}

#[test]
fn suggestion_strips_sigil_and_joins() {
    let body = suggestion_description("! buy more coffee");
    assert_eq!(body.unwrap(), "buy more coffee");
}

#[test]
fn suggestion_action_carries_texts() {
    let cfg = BotConfig::default();
    let action = handle_message(&cfg, cfg.suggestion_channel_id, "! buy more coffee", "ada");
    match action {
        MessageAction::Suggest { description, notice, dm_footer } => {
            assert_eq!(description, "buy more coffee");
            assert_eq!(notice, "Suggestion received!");
            assert_eq!(dm_footer, "Suggestion from ada sent successfully. Great job!");
        }
        _ => panic!("expected a suggestion"),
    }
}

#[test]
fn glued_sigil_is_ignored() {
    assert!(suggestion_description("!help me").is_none());
    let cfg = BotConfig::default();
    let action = handle_message(&cfg, cfg.suggestion_channel_id, "!help me", "ada");
    assert!(matches!(action, MessageAction::Ignore));
}

#[test]
fn suggestion_needs_the_sigil_up_front() {
    let cfg = BotConfig::default();
    // the message must start with the sigil, not merely contain it
    let action = handle_message(&cfg, cfg.suggestion_channel_id, " ! a b", "ada");
    assert!(matches!(action, MessageAction::Ignore));
}

#[test]
fn suggestion_drops_only_the_first_bare_sigil() {
    let body = suggestion_description("! a ! b");
    assert_eq!(body.unwrap(), "a ! b");
}

#[test]
fn suggestion_outside_its_channel_is_ignored() {
    let cfg = BotConfig::default();
    let action = handle_message(&cfg, cfg.announcement_channel_id, "! a b", "ada");
    assert!(matches!(action, MessageAction::Ignore));
}

#[test]
fn announcement_removes_every_ampersand() {
    // only the ampersands go; the characters around them keep their places
    assert_eq!(announcement_description("&&hello&world&"), "helloworld");
    assert_eq!(announcement_description("&hello &world"), "hello world");
}

#[test]
fn announcement_action_carries_texts() {
    let cfg = BotConfig::default();
    let action = handle_message(&cfg, cfg.announcement_channel_id, "&hello &world", "ada");
    match action {
        MessageAction::Announce { description, footer } => {
            assert_eq!(description, "hello world");
            assert_eq!(footer, "On behalf of Vexus Command, ada");
        }
        _ => panic!("expected an announcement"),
    }
}

#[test]
fn announcement_outside_its_channel_is_ignored() {
    let cfg = BotConfig::default();
    let action = handle_message(&cfg, cfg.suggestion_channel_id, "&news", "ada");
    assert!(matches!(action, MessageAction::Ignore));
}

#[test]
fn guard_starts_loops_exactly_once() {
    let mut guard = LoopGuard::new();
    let first = guard.check_and_start();
    let second = guard.check_and_start();
    assert!(first);
    assert!(!second);
    assert!(!guard.check_and_start());
}

#[test]
fn unmatched_command_gets_fallback() {
    let options: Vec<CommandOption> = Vec::new();
    assert_eq!(dispatch_command("frobnicate", &options), "not implemented :(");
    assert_eq!(dispatch_command("", &options), "not implemented :(");
    assert_eq!(dispatch_command("welcome", &options), "not implemented :(");
}

#[test]
fn ping_command_replies() {
    let options: Vec<CommandOption> = Vec::new();
    assert_eq!(ping_run(&options), "Hey, I'm alive!");
    assert_eq!(dispatch_command("ping", &options), "Hey, I'm alive!");
}

#[test]
fn id_command_names_the_user() {
    let options = vec![CommandOption {
        name: String::from("id"),
        value: CommandOptionValue::User { id: 977, username: String::from("ada") },
    }];
    assert_eq!(id_run(&options), "ada's id is 977");
    assert_eq!(dispatch_command("id", &options), "ada's id is 977");
}

#[test]
fn id_command_without_user_asks_for_one() {
    let no_options: Vec<CommandOption> = Vec::new();
    assert_eq!(id_run(&no_options), "Please provide a valid user");
    let wrong = vec![CommandOption {
        name: String::from("id"),
        value: CommandOptionValue::Int(4),
    }];
    assert_eq!(id_run(&wrong), "Please provide a valid user");
}

#[test]
fn attachment_command_reports_name_and_size() {
    let options = vec![CommandOption {
        name: String::from("attachment"),
        value: CommandOptionValue::Attachment {
            filename: String::from("notes.txt"),
            size_bytes: 2048,
        },
    }];
    assert_eq!(
        attachmentinput_run(&options),
        "Attachment name: notes.txt, attachment size: 2048"
    );
    assert_eq!(
        dispatch_command("attachmentinput", &options),
        "Attachment name: notes.txt, attachment size: 2048"
    );
}

#[test]
fn attachment_command_without_attachment_asks_for_one() {
    let no_options: Vec<CommandOption> = Vec::new();
    assert_eq!(attachmentinput_run(&no_options), "Please provide a valid attachment");
}

#[test]
fn registered_command_names() {
    let names = guild_command_names();
    assert_eq!(names, vec!["ping", "id", "welcome", "numberinput", "attachmentinput"]);
    assert_eq!(global_command_name(), "wonderful_command");
}

#[test]
fn parse_u64_reads_decimal() {
    assert_eq!(parse_u64("0"), Some(0));
    assert_eq!(parse_u64("1173231671718449265"), Some(1173231671718449265));
    assert_eq!(parse_u64("18446744073709551615"), Some(u64::MAX));
}

#[test]
fn parse_u64_rejects_bad_input() {
    assert_eq!(parse_u64(""), None);
    assert_eq!(parse_u64("12a"), None);
    assert_eq!(parse_u64("-4"), None);
    assert_eq!(parse_u64(" 4"), None);
    assert_eq!(parse_u64("18446744073709551616"), None);
}

#[test]
fn u64_renders_in_decimal() {
    assert_eq!(u64_to_string(0), "0");
    assert_eq!(u64_to_string(7), "7");
    assert_eq!(u64_to_string(1234), "1234");
    assert_eq!(u64_to_string(u64::MAX), "18446744073709551615");
}

#[test]
fn words_split_on_any_whitespace() {
    let words = split_words("  one\ttwo \n three ");
    assert_eq!(words, vec!["one", "two", "three"]);
    assert_eq!(split_words(""), Vec::<String>::new());
    assert_eq!(split_words("   "), Vec::<String>::new());
}

#[test]
fn words_join_with_single_spaces() {
    let words = vec![String::from("a"), String::from("b"), String::from("c")];
    assert_eq!(join_words(&words), "a b c");
    assert_eq!(join_words(&Vec::new()), "");
}

#[test]
fn text_helpers() {
    assert_eq!(strip_char("a-b-c", '-'), "abc");
    assert_eq!(strip_char("", '-'), "");
    assert!(str_eq("same", "same"));
    assert!(!str_eq("same", "sane"));
    assert!(!str_eq("same", "sam"));
    assert!(first_char_is("!x", '!'));
    assert!(!first_char_is("", '!'));
    assert!(!first_char_is("x!", '!'));
}

#[test]
fn default_config_holds_shipped_ids() {
    let cfg = BotConfig::default();
    assert_eq!(cfg.suggestion_channel_id, 1173231671718449265);
    assert_eq!(cfg.announcement_channel_id, 1173075205267148861);
    assert_eq!(cfg.vote_up_emoji_id, 1178476355160125460);
    assert_eq!(cfg.vote_down_emoji_id, 1178476382842519724);
    assert_eq!(cfg.telemetry_interval_secs, 9000);
    assert_eq!(cfg.presence_interval_secs, 60);
    assert_eq!(embed_color(), 0x2c2d31);
}

#[test]
fn suggestion_reactions_are_the_vote_pair() {
    let cfg = BotConfig::default();
    let reactions = suggestion_reactions(&cfg);
    assert_eq!(reactions.len(), 2);
    assert!(!reactions[0].animated);
    assert_eq!(reactions[0].emoji_id, cfg.vote_up_emoji_id);
    assert_eq!(reactions[0].name, "tup");
    assert!(!reactions[1].animated);
    assert_eq!(reactions[1].emoji_id, cfg.vote_down_emoji_id);
    assert_eq!(reactions[1].name, "tdown");
}

#[test]
fn fixed_texts() {
    assert_eq!(suggestion_notice(), "Suggestion received!");
    assert_eq!(
        suggestion_dm_footer("grace"),
        "Suggestion from grace sent successfully. Great job!"
    );
    assert_eq!(announcement_footer("grace"), "On behalf of Vexus Command, grace");
}

#[test]
fn telemetry_report_text() {
    let report = system_load_report("12.34", "1024.00", "2048.00", "5.60");
    assert_eq!(report.title, "System Resource Load");
    assert_eq!(report.color, 0x2c2d31);
    assert_eq!(report.fields.len(), 3);
    assert_eq!(report.fields[0].name, "CPU Load Average / per 900 tics");
    assert_eq!(
        report.fields[0].value,
        "<:Asset5:1177282027066757170> 12.34%\n"
    );
    assert_eq!(report.fields[1].name, "Memory Usage");
    assert_eq!(
        report.fields[1].value,
        "<:Asset5:1177282027066757170> 1024.00 MB Free out of 2048.00 MB\n"
    );
    assert_eq!(report.fields[2].name, "CPU Load Average / per 60 tics");
    assert_eq!(
        report.fields[2].value,
        "<:Asset5:1177282027066757170> 5.60%\n"
    );
    assert!(!report.fields[0].inline);
    assert!(!report.fields[1].inline);
    assert!(!report.fields[2].inline);
}

#[test]
fn presence_text_for_a_time() {
    let p = presence_for_time("Tue, 1 Jul 2003 10:52:37 +0200");
    assert_eq!(p.activity_name, "with time: Tue, 1 Jul 2003 10:52:37 +0200");
    assert_eq!(p.activity_state, "I'm a bot!");
    assert_eq!(p.kind, ActivityKind::Custom);
    assert_eq!(p.status, OnlineStatusKind::Idle);
}

#[test]
fn presence_now_carries_a_time() {
    let p = current_presence();
    assert!(p.activity_name.starts_with("with time: "));
    assert!(p.activity_name.len() > "with time: ".len());
    assert_eq!(p.activity_state, "I'm a bot!");
    assert_eq!(p.kind, ActivityKind::Custom);
    assert_eq!(p.status, OnlineStatusKind::Idle);
}
