use rustycrab_api::commands::admin::{
    can_bot_manage_role, find_role, is_available_locale, language_updated_text, purge_amount,
    language_reply, prefix_reply, role_change_key, role_no_perm_key, untimeout_key, AdminCommands,
    ConfigReply,
    ChangeLanguageCommand, ChangePrefixCommand, PurgeCommand, RoleCommand, RoleError, RoleInfo,
    UntimeoutMemberCommand,
};
use rustycrab_api::commands::auto_response::{
    add_autores_reply, autores_response, color_update_reply, image_update_reply,
    split_trigger_and_value, AddAutoResponseCommand, ArgError, AutoResCommand,
    ColorUpdateAutoResCommand, ImageUpdateAutoResCommand, ListAutoResponseCommand,
};
use rustycrab_api::commands::general::{afk_command_step, afk_message_arg, afk_nickname, AfkCommand};
use rustycrab_api::commands::slash::{
    close_ticket_slash_reply, CloseTicketSlashCommand, SlashCommand, SlashCommandDispatcher, SlashCommandId,
};
use rustycrab_api::commands::voice::{
    CurrentSongCommand, JoinCommand, LeaveChannelCommand, LoopMusicCommand, LoopQueueMusicCommand,
    MusicHelpCommand, PauseMusicCommand, PlayCommand, QueueCommand, ResumeMusicCommand,
    SkipCurrentTrackCommand, SkipToTrackCommand, StopMusicCommand, UnloopMusicCommand,
    VoiceCommands,
};
use rustycrab_api::commands::{ArgType, CommandId, ParsedArg, Permission};
use rustycrab_api::messages::{Reply, ReplyColor};
use rustycrab_api::afk::AfkRegistry;

fn rep(r: Reply) -> (&'static str, Option<ReplyColor>, bool) {
    (r.key, r.color, r.ephemeral)
}

#[test]
fn admin_command_metadata() {
    assert_eq!(ChangePrefixCommand.name(), "changeprefix");
    assert_eq!(ChangePrefixCommand.aliases(), vec!["prefix", "chprefix"]);
    let a = ChangePrefixCommand.args();
    assert_eq!(a[0].name, "new prefix");
    assert_eq!(a[0].arg_type, ArgType::Arg);
    assert!(!a[0].optional);
    assert_eq!(ChangePrefixCommand.permissions(), vec![Permission::Administrator]);

    assert_eq!(ChangeLanguageCommand.name(), "language");
    assert_eq!(ChangeLanguageCommand.aliases(), vec!["locale", "changelanguage"]);
    assert_eq!(ChangeLanguageCommand.args()[0].name, "language (en/vn)");
    assert_eq!(ChangeLanguageCommand.permissions(), vec![Permission::Administrator]);

    assert_eq!(PurgeCommand.name(), "purge");
    assert_eq!(PurgeCommand.aliases(), vec!["clear"]);
    assert_eq!(PurgeCommand.args()[0].arg_type, ArgType::Number);
    assert_eq!(PurgeCommand.permissions(), vec![Permission::ManageMessages]);

    assert_eq!(RoleCommand.name(), "role");
    assert_eq!(RoleCommand.aliases(), vec!["setrole"]);
    let r = RoleCommand.args();
    assert_eq!(r.len(), 2);
    assert_eq!(r[0].arg_type, ArgType::Users);
    assert_eq!(r[1].name, "role");
    assert_eq!(r[1].arg_type, ArgType::Text);
    assert_eq!(RoleCommand.permissions(), vec![Permission::ManageRoles]);

    assert_eq!(UntimeoutMemberCommand.name(), "untimeout");
    assert_eq!(UntimeoutMemberCommand.aliases(), vec!["unmute"]);
    assert_eq!(UntimeoutMemberCommand.permissions(), vec![Permission::ModerateMembers]);

    assert_eq!(AdminCommands.name(), "Administrator");
    let all = AdminCommands.collect_commands();
    assert_eq!(all.len(), 10);
    assert_eq!(all[0], CommandId::ChangePrefix);
    assert_eq!(all[9], CommandId::AutoRes);
}

#[test]
fn auto_response_command_metadata() {
    assert_eq!(AutoResCommand.name(), "autores");
    assert_eq!(AutoResCommand.aliases(), vec!["ar", "autoresponse"]);
    assert_eq!(AutoResCommand.permissions(), vec![Permission::Administrator]);
    let subs = AutoResCommand.subcommands();
    assert_eq!(subs.len(), 8);
    assert_eq!(subs[0], CommandId::AddAutoResponse);
    assert_eq!(subs[7], CommandId::MessageUpdateAutoRes);

    assert_eq!(AddAutoResponseCommand.name(), "add");
    assert_eq!(AddAutoResponseCommand.args()[0].name, "trigger | response");
    assert_eq!(AddAutoResponseCommand.parent_command(), Some(CommandId::AutoRes));
    assert_eq!(ColorUpdateAutoResCommand.name(), "color");
    assert_eq!(ColorUpdateAutoResCommand.args()[0].name, "trigger | color hex (#fafafa)");
    assert_eq!(ImageUpdateAutoResCommand.name(), "image");
    assert_eq!(ImageUpdateAutoResCommand.aliases(), vec!["i", "iurl"]);
    assert_eq!(ImageUpdateAutoResCommand.args()[0].arg_type, ArgType::Arg);
    assert_eq!(ListAutoResponseCommand.name(), "list");
    assert_eq!(ListAutoResponseCommand.parent_command(), Some(CommandId::AutoRes));
}

#[test]
fn voice_command_metadata() {
    assert_eq!(JoinCommand {}.name(), "join");
    assert_eq!(JoinCommand {}.args()[0].arg_type, ArgType::Channel);
    assert!(JoinCommand {}.args()[0].optional);
    assert_eq!(LeaveChannelCommand {}.name(), "leave");
    assert_eq!(MusicHelpCommand {}.name(), "music");
    assert_eq!(MusicHelpCommand {}.aliases(), vec!["music help"]);
    assert_eq!(PlayCommand {}.name(), "play");
    assert_eq!(PlayCommand {}.args()[0].arg_type, ArgType::Text);
    assert_eq!(PauseMusicCommand {}.name(), "pause");
    assert_eq!(ResumeMusicCommand {}.name(), "resume");
    assert_eq!(StopMusicCommand {}.name(), "stop");
    assert_eq!(SkipCurrentTrackCommand {}.name(), "skip");
    assert_eq!(SkipCurrentTrackCommand {}.aliases(), vec!["next"]);
    assert_eq!(QueueCommand {}.name(), "queue");
    assert_eq!(CurrentSongCommand {}.name(), "song");
    assert_eq!(CurrentSongCommand {}.aliases(), vec!["currentsong", "track", "playing"]);
    assert_eq!(SkipToTrackCommand {}.name(), "skipto");
    assert_eq!(SkipToTrackCommand {}.args()[0].name, "position");
    assert_eq!(LoopMusicCommand {}.name(), "loop");
    assert!(LoopMusicCommand {}.args()[0].optional);
    assert_eq!(LoopQueueMusicCommand {}.name(), "loopq");
    assert_eq!(UnloopMusicCommand {}.name(), "unloop");
    assert_eq!(VoiceCommands.name(), "Voice & Music");
    let all = VoiceCommands.collect_commands();
    assert_eq!(all.len(), 14);
    assert_eq!(all[0], CommandId::Join);
    assert_eq!(all[13], CommandId::UnloopMusic);
    let help = MusicHelpCommand {}.listed_commands();
    assert_eq!(help.len(), 10);
    assert_eq!(help[0], CommandId::Play);
}

#[test]
fn afk_command_metadata() {
    assert_eq!(AfkCommand.name(), "afk");
    let a = AfkCommand.args();
    assert_eq!(a[0].name, "message from you");
    assert!(a[0].optional);
}

#[test]
fn permission_bits_are_discord_flags() {
    assert_eq!(Permission::Administrator.bits(), 8);
    assert_eq!(Permission::ViewChannel.bits(), 1 << 10);
    assert_eq!(Permission::SendMessages.bits(), 1 << 11);
    assert_eq!(Permission::ManageMessages.bits(), 8192);
    assert_eq!(Permission::ReadMessageHistory.bits(), 1 << 16);
    assert_eq!(Permission::ManageRoles.bits(), 1 << 28);
    assert_eq!(Permission::ModerateMembers.bits(), 1 << 40);
}

#[test]
fn split_trigger_and_value_cuts_at_the_first_bar() {
    let r = split_trigger_and_value(vec![ParsedArg::Text("  hello | world | again ".to_string())]);
    assert_eq!(r, Ok(("hello".to_string(), "world | again".to_string())));
}

#[test]
fn split_trigger_and_value_without_bar_gives_empty_value() {
    let r = split_trigger_and_value(vec![ParsedArg::Text(" hi there ".to_string())]);
    assert_eq!(r, Ok(("hi there".to_string(), String::new())));
}

#[test]
fn split_trigger_and_value_refuses_other_arguments() {
    assert_eq!(split_trigger_and_value(vec![]), Err(ArgError::InvalidCommand));
    assert_eq!(split_trigger_and_value(vec![ParsedArg::Arg("a|b".to_string())]), Err(ArgError::InvalidCommand));
    assert_eq!(split_trigger_and_value(vec![ParsedArg::Number(3)]), Err(ArgError::InvalidCommand));
    assert_eq!(ArgError::InvalidCommand.message(), "invalid command");
}

#[test]
fn purge_amount_is_kept_in_bulk_delete_bounds() {
    assert_eq!(purge_amount(50), 50);
    assert_eq!(purge_amount(1), 2);
    assert_eq!(purge_amount(0), 2);
    assert_eq!(purge_amount(500), 100);
    assert_eq!(purge_amount(-5), 100);
    assert_eq!(purge_amount(100), 100);
    assert_eq!(purge_amount(2), 2);
}

#[test]
fn available_locales() {
    assert!(is_available_locale("en"));
    assert!(is_available_locale("vn"));
    assert!(!is_available_locale("fr"));
    assert!(!is_available_locale("EN"));
}

fn roles() -> Vec<RoleInfo> {
    vec![
        RoleInfo { id: 10, name: "Moderator".to_string(), position: 5 },
        RoleInfo { id: 20, name: "Member".to_string(), position: 1 },
        RoleInfo { id: 30, name: "Bot".to_string(), position: 3 },
    ]
}

#[test]
fn can_bot_manage_role_compares_positions() {
    let rs = roles();
    assert_eq!(can_bot_manage_role(&vec![30], &rs, 20), Ok(true));
    assert_eq!(can_bot_manage_role(&vec![30], &rs, 10), Ok(false));
    assert_eq!(can_bot_manage_role(&vec![30, 10], &rs, 10), Ok(false));
    assert_eq!(can_bot_manage_role(&vec![20, 10], &rs, 30), Ok(true));
    assert_eq!(can_bot_manage_role(&vec![], &rs, 20), Ok(false));
    assert_eq!(can_bot_manage_role(&vec![30], &rs, 99), Err(RoleError::TargetRoleNotFound));
}

#[test]
fn find_role_by_id_mention_or_name() {
    let rs = roles();
    assert_eq!(find_role(&rs, "20"), Some(1));
    assert_eq!(find_role(&rs, "<@&30>"), Some(2));
    assert_eq!(find_role(&rs, "99"), None);
    assert_eq!(find_role(&rs, "moderator"), Some(0));
    assert_eq!(find_role(&rs, "MEM"), Some(1));
    assert_eq!(find_role(&rs, "admin"), None);
}

#[test]
fn afk_nickname_tags_once() {
    assert_eq!(afk_nickname("bob"), Some("[AFK] bob".to_string()));
    assert_eq!(afk_nickname("[AFK] bob"), None);
    assert_eq!(afk_nickname("  [AFK]bob"), None);
}

#[test]
fn slash_dispatcher_finds_close_ticket() {
    let mut d = SlashCommandDispatcher::new();
    assert_eq!(d.find("closeticket"), Some(SlashCommandId::CloseTicket));
    assert_eq!(d.find("open"), None);
    d.register("closeticket", SlashCommandId::CloseTicket);
    assert_eq!(d.commands.len(), 1);
    let c = CloseTicketSlashCommand {};
    assert_eq!(c.name(), "closeticket");
    assert_eq!(c.description(), "close the current ticket");
    assert_eq!(c.permissions(), None);
    assert!(!c.nsfw());
}

#[test]
fn role_and_untimeout_reply_keys() {
    assert_eq!(rep(role_change_key(true, true)), ("command-role-remove-success", Some(ReplyColor::Green), false));
    assert_eq!(rep(role_change_key(true, false)), ("command-role-remove-fail", Some(ReplyColor::Red), false));
    assert_eq!(rep(role_change_key(false, true)), ("command-role-add-success", Some(ReplyColor::Green), false));
    assert_eq!(rep(role_change_key(false, false)), ("command-role-add-fail", Some(ReplyColor::Red), false));
    assert_eq!(rep(untimeout_key(false, true)), ("command-untimeout-notfound", Some(ReplyColor::Yellow), false));
    assert_eq!(rep(untimeout_key(true, true)), ("command-untimeout-success", Some(ReplyColor::Green), false));
    assert_eq!(rep(untimeout_key(true, false)), ("command-untimeout-fail", Some(ReplyColor::Red), false));
}

#[test]
fn language_confirmation_text() {
    assert_eq!(language_updated_text("!"), "Language updated successfully. New language: `!`");
}

#[test]
fn afk_message_is_the_text_argument() {
    assert_eq!(afk_message_arg(&vec![ParsedArg::Text("out for lunch".to_string())]), Some("out for lunch".to_string()));
    assert_eq!(afk_message_arg(&vec![ParsedArg::Arg("x".to_string())]), None);
    assert_eq!(afk_message_arg(&vec![]), None);
}

#[test]
fn role_refused_without_rank() {
    assert_eq!(rep(role_no_perm_key(false).unwrap()), ("command-role-no-perm", Some(ReplyColor::Red), false));
    assert!(role_no_perm_key(true).is_none());
}

#[test]
fn auto_response_replies() {
    assert_eq!(rep(add_autores_reply(true, true)), ("autores-existed", Some(ReplyColor::Yellow), false));
    assert_eq!(rep(add_autores_reply(false, true)), ("autores-create-success", Some(ReplyColor::Green), false));
    assert_eq!(rep(add_autores_reply(false, false)), ("autores-create-failed", Some(ReplyColor::Red), false));
    assert_eq!(autores_response(""), None);
    assert_eq!(autores_response("hi"), Some(("Message", "hi".to_string())));
    assert!(matches!(image_update_reply(false, true), Err("autores-invalid-url")));
    assert_eq!(rep(image_update_reply(true, true).unwrap()), ("autores-update-success", Some(ReplyColor::Green), false));
    assert_eq!(rep(image_update_reply(true, false).unwrap()), ("autores-update-failed", Some(ReplyColor::Red), false));
    let (r, d) = color_update_reply(true, "#fafafa");
    assert_eq!(rep(r), ("autores-updated", Some(ReplyColor::Green), false));
    assert_eq!(d, Some("Color hex: #fafafa".to_string()));
    let (r, d) = color_update_reply(false, "#fafafa");
    assert_eq!(rep(r), ("autores-update-failed", Some(ReplyColor::Red), false));
    assert_eq!(d, None);
}

#[test]
fn prefix_and_language_replies() {
    assert!(matches!(prefix_reply("", true), ConfigReply::Key("command-prefix-invalid")));
    assert!(matches!(prefix_reply("?", true), ConfigReply::Key("command-prefix-success")));
    assert!(matches!(prefix_reply("?", false), ConfigReply::Text("Failed to update prefix for this guild")));
    assert_eq!(language_reply("fr", true), Some("Invalid language"));
    assert_eq!(language_reply("", true), Some("Invalid language"));
    assert_eq!(language_reply("vn", false), Some("Failed to update language for this guild"));
    assert_eq!(language_reply("en", true), None);
}

#[test]
fn afk_command_marks_the_user() {
    let mut reg = AfkRegistry::new();
    let (nick, key) = afk_command_step(&mut reg, 1, 2, &vec![ParsedArg::Text("away".to_string())], 99, "bob");
    assert_eq!(nick, Some("[AFK] bob".to_string()));
    assert_eq!(key, "command-afk-success");
    assert_eq!(reg.afk_info(1, 2), Some((99, "away".to_string())));
    let (nick, _) = afk_command_step(&mut reg, 1, 2, &vec![], 100, "[AFK] bob");
    assert_eq!(nick, None);
    assert_eq!(reg.afk_info(1, 2), Some((100, String::new())));
}

#[test]
fn close_ticket_outside_a_ticket() {
    let r = close_ticket_slash_reply(false).unwrap();
    assert_eq!(r.text, "This is not a ticket");
    assert!(r.ephemeral);
    assert!(close_ticket_slash_reply(true).is_none());
}
