use rustycrab_api::discord_client::{
    bundle_locale, fetch_page_size, fetch_plan, fetch_step, FetchPlan, get_locale_string, get_user_banner_url, is_user_in_same_channel_as_bot, user_has_role,
};
use rustycrab_api::message_create::{mention, message_plan, parse_command};
use rustycrab_api::messages::{
    assemble_response, response_kind, DiscordEmbed, MessageContent, Palette, ReplyColor,
    ResponseKind,
};
use rustycrab_api::paging::{
    bounds_of_page, numbered_list, page_button_ids, pager_button, pages_for, playing_title,
    queue_entry_label, trigger_page_description, page_layout, pager_interaction, PageLayout,
    PagedList, Pager, PagerEvent, queue_start, QueueStart,
    TRACKS_PER_PAGE, TRIGGERS_PER_PAGE,
};
use rustycrab_api::parse_url::{query_tracks, route_query, QueryRoute};
use rustycrab_api::soundcloud_api::{is_soundcloud_playlist_url, is_soundcloud_url};
use rustycrab_api::buttons::{ticket_button_step, unknown_ticket_reply, TicketAction};
use rustycrab_api::tickets::{
    mention_on_open, support_team_notice, support_team_overwrites, support_team_permissions,
    ticket_category_id, ticket_channel_name, ticket_created_note, ticket_limit_reached,
    ticket_opener_permissions, open_ticket_may_create, open_ticket_reply, ticket_channel_result,
    ticket_opened_status, welcome_close_button,
    OverwriteTarget,
};
use rustycrab_api::unique_bot_guild_entity_router::bot_guild_route;
use rustycrab_api::youtube::{
    first_video_url, youtube_search_url, YoutubeSearchResponse, YoutubeVideoId, YoutubeVideoItem,
};

fn strings(v: &[&str]) -> Vec<String> {
    v.iter().map(|s| s.to_string()).collect()
}

#[test]
fn parse_command_with_prefix() {
    let c = parse_command("  !play never gonna  ", "!", 99).unwrap();
    assert_eq!(c.name, "play");
    assert_eq!(c.args, strings(&["never", "gonna"]));
}

#[test]
fn parse_command_with_bot_mention() {
    let c = parse_command("<@99> skipto 3", "!", 99).unwrap();
    assert_eq!(c.name, "skipto");
    assert_eq!(c.args, strings(&["3"]));
    assert!(parse_command("<@98> skipto 3", "!", 99).is_none());
}

#[test]
fn parse_command_needs_a_prefix_and_a_word() {
    assert!(parse_command("hello there", "!", 1).is_none());
    assert!(parse_command("!   ", "!", 1).is_none());
    assert!(parse_command("", "!", 1).is_none());
    assert_eq!(mention(5), "<@5>");
}

#[test]
fn page_counts_round_up() {
    assert_eq!(pages_for(0, 10), 0);
    assert_eq!(pages_for(10, 10), 1);
    assert_eq!(pages_for(11, 10), 2);
    assert_eq!(pages_for(101, TRIGGERS_PER_PAGE), 3);
    assert_eq!(TRACKS_PER_PAGE, 10);
    assert_eq!(bounds_of_page(25, 10, 2), (20, 25));
    assert_eq!(bounds_of_page(25, 10, 1), (10, 20));
}

#[test]
fn trigger_page_lists_triggers_in_code_style() {
    let list = strings(&["hi", "bye"]);
    assert_eq!(trigger_page_description(&list, 0), "`hi` `bye`");
    let many: Vec<String> = (0..52).map(|i| format!("t{}", i)).collect();
    assert_eq!(trigger_page_description(&many, 1), "`t50` `t51`");
}

#[test]
fn queue_lines_are_numbered_from_the_page_start() {
    let entries = strings(&["[A](u1)", "[B](u2)"]);
    assert_eq!(numbered_list(10, &entries), "11. [A](u1)\n12. [B](u2)");
    assert_eq!(numbered_list(0, &strings(&[])), "");
    assert_eq!(queue_entry_label(true, &Some("Song".to_string()), "u"), "[Song](u)");
    assert_eq!(queue_entry_label(true, &None, "u"), "[Unknown title](u)");
    assert_eq!(queue_entry_label(false, &Some("Song".to_string()), "u"), "[Unknown track](u)");
}

#[test]
fn pager_buttons() {
    let mut p = Pager::new(3);
    assert_eq!(p.disabled(), (true, false));
    p.press(true);
    assert_eq!(p.page, 1);
    assert_eq!(p.disabled(), (false, false));
    p.press(true);
    assert_eq!(p.disabled(), (false, true));
    p.press(false);
    assert_eq!(p.page, 1);
    assert_eq!(Pager::new(1).disabled(), (false, true));
}

#[test]
fn ticket_names_and_texts() {
    assert_eq!(ticket_channel_name("ticket-{id}-{username}", 12, "bob"), "ticket-12-bob");
    assert_eq!(ticket_channel_name("{username}", -1, "{id}"), "{id}");
    assert_eq!(
        mention_on_open(&strings(&["ticket-opener", "55"]), 7),
        "<@7> <@&55>"
    );
    assert_eq!(
        support_team_notice(&strings(&["1", "2"]), &strings(&["3"])),
        "[Support team] <@&1> <@&2>, <@3>"
    );
    assert_eq!(support_team_notice(&strings(&[]), &strings(&[])), "[Support team] , ");
    assert_eq!(ticket_created_note(123), "Ticket created at <#123>");
}

#[test]
fn ticket_limit() {
    assert!(ticket_limit_reached(3, 3));
    assert!(!ticket_limit_reached(2, 3));
    assert!(ticket_limit_reached(0, 0));
    assert!(ticket_limit_reached(0, -1));
}

#[test]
fn ticket_permissions() {
    assert_eq!(ticket_opener_permissions(), (1 << 10) | (1 << 11) | (1 << 16));
    assert_eq!(
        support_team_permissions(),
        (1 << 10) | (1 << 11) | (1 << 16) | (1 << 13) | (1 << 28)
    );
}

#[test]
fn support_team_overwrites_roles_then_users() {
    let (targets, ok) = support_team_overwrites(&strings(&["10", "", "20"]), &strings(&["30"]));
    assert!(ok);
    assert_eq!(
        targets,
        vec![OverwriteTarget::Role(10), OverwriteTarget::Role(20), OverwriteTarget::Member(30)]
    );
}

#[test]
fn support_team_overwrites_stop_at_a_bad_id() {
    let (targets, ok) = support_team_overwrites(&strings(&["10", "x", "20"]), &strings(&["30"]));
    assert!(!ok);
    assert_eq!(targets, vec![OverwriteTarget::Role(10)]);
    let (targets, ok) = support_team_overwrites(&strings(&["10"]), &strings(&["31", "y"]));
    assert!(!ok);
    assert_eq!(targets, vec![OverwriteTarget::Role(10), OverwriteTarget::Member(31)]);
}

#[test]
fn ticket_category() {
    assert_eq!(ticket_category_id(""), None);
    assert_eq!(ticket_category_id("987"), Some(987));
}

#[test]
fn response_kinds() {
    assert_eq!(response_kind("Message"), ResponseKind::Text);
    assert_eq!(response_kind("1"), ResponseKind::Text);
    assert_eq!(response_kind("EMBED"), ResponseKind::Embed);
    assert_eq!(response_kind("embed and text"), ResponseKind::EmbedAndText);
    assert_eq!(response_kind("3"), ResponseKind::EmbedAndText);
    assert_eq!(response_kind("video"), ResponseKind::Unknown);
}

fn embed(desc: &str) -> DiscordEmbed {
    DiscordEmbed { description: Some(desc.to_string()), ..Default::default() }
}

#[test]
fn assemble_response_by_kind() {
    match assemble_response::<()>(ResponseKind::Text, Some("hi".to_string()), Some(embed("e"))) {
        Some(MessageContent::Text(t)) => assert_eq!(t, "hi"),
        _ => panic!("expected text"),
    }
    match assemble_response::<()>(ResponseKind::Embed, Some("hi".to_string()), Some(embed("e"))) {
        Some(MessageContent::DiscordEmbeds(v)) => {
            assert_eq!(v.len(), 1);
            assert_eq!(v[0].description, Some("e".to_string()));
        }
        _ => panic!("expected embeds"),
    }
    match assemble_response::<()>(ResponseKind::EmbedAndText, Some("hi".to_string()), Some(embed("e"))) {
        Some(MessageContent::TextAndDiscordEmbeds(t, v)) => {
            assert_eq!(t, "hi");
            assert_eq!(v.len(), 1);
        }
        _ => panic!("expected text and embeds"),
    }
    match assemble_response::<()>(ResponseKind::EmbedAndText, None, Some(embed("e"))) {
        Some(MessageContent::DiscordEmbeds(v)) => assert_eq!(v.len(), 1),
        _ => panic!("expected embeds"),
    }
    assert!(assemble_response::<()>(ResponseKind::Embed, Some("hi".to_string()), None).is_none());
    assert!(assemble_response::<()>(ResponseKind::Text, None, Some(embed("e"))).is_none());
    assert!(assemble_response::<()>(ResponseKind::Unknown, Some("hi".to_string()), None).is_none());
    assert!(MessageContent::<()>::NoContent.is_no_content());
    assert!(!MessageContent::<()>::Text(String::new()).is_no_content());
}

#[test]
fn default_embed_is_empty() {
    let e = DiscordEmbed::default();
    assert!(e.title.is_none() && e.description.is_none() && e.fields.is_none() && e.color.is_none());
}

#[test]
fn client_helpers() {
    assert_eq!(get_locale_string(Some("Xin chào".to_string()), Some("Hello".to_string()), "hello"), "Xin chào");
    assert_eq!(get_locale_string(None, Some("Hello".to_string()), "hello"), "Hello");
    assert_eq!(get_locale_string(None, None, "hello"), "hello");
    assert_eq!(
        get_user_banner_url(1, &Some("a_abc".to_string())),
        Some("https://cdn.discordapp.com/banners/1/a_abc.gif?size=512".to_string())
    );
    assert_eq!(
        get_user_banner_url(22, &Some("abc".to_string())),
        Some("https://cdn.discordapp.com/banners/22/abc.png?size=512".to_string())
    );
    assert_eq!(get_user_banner_url(22, &None), None);
    assert!(user_has_role(&vec![1, 2, 3], 2));
    assert!(!user_has_role(&vec![], 2));
    assert!(is_user_in_same_channel_as_bot(Some(4), Some(4)));
    assert!(!is_user_in_same_channel_as_bot(Some(4), Some(5)));
    assert!(!is_user_in_same_channel_as_bot(None, Some(5)));
}

#[test]
fn youtube_urls() {
    assert_eq!(
        youtube_search_url("lofi", "KEY"),
        "https://www.googleapis.com/youtube/v3/search?part=snippet&q=lofi&type=video&key=KEY"
    );
    let resp = YoutubeSearchResponse {
        items: vec![
            YoutubeVideoItem { id: YoutubeVideoId { videoId: "abc".to_string() } },
            YoutubeVideoItem { id: YoutubeVideoId { videoId: "def".to_string() } },
        ],
    };
    assert_eq!(first_video_url(&resp), Some("https://www.youtube.com/watch?v=abc".to_string()));
    assert_eq!(first_video_url(&YoutubeSearchResponse { items: vec![] }), None);
}

#[test]
fn soundcloud_links() {
    assert!(is_soundcloud_url("https://soundcloud.com/a/b"));
    assert!(!is_soundcloud_url("https://youtube.com/watch?v=1"));
    assert!(is_soundcloud_playlist_url("https://soundcloud.com/a/sets/b"));
    assert!(!is_soundcloud_playlist_url("https://soundcloud.com/a/b"));
}

#[test]
fn play_argument_routes() {
    assert_eq!(route_query("never gonna give you up", false, false), QueryRoute::Search);
    assert_eq!(route_query("https://youtube.com/watch?v=1", true, false), QueryRoute::SingleUrl);
    assert_eq!(route_query("https://youtube.com/playlist?list=1", true, true), QueryRoute::YoutubePlaylist);
    assert_eq!(route_query("https://soundcloud.com/a/sets/b", false, false), QueryRoute::SoundcloudPlaylist);
    assert_eq!(route_query("http://soundcloud.com/a/b", false, false), QueryRoute::SingleUrl);
    assert_eq!(route_query("https://vimeo.com/1", false, false), QueryRoute::Unsupported);
    assert_eq!(QueryRoute::Unsupported.error_key(), Some("music-note"));
    assert_eq!(QueryRoute::SingleUrl.error_key(), None);
}

#[test]
fn play_argument_tracks() {
    assert_eq!(query_tracks("https://x/1", QueryRoute::SingleUrl, None), Ok(strings(&["https://x/1"])));
    assert_eq!(query_tracks("https://x/1", QueryRoute::Unsupported, None), Err("music-note"));
    assert_eq!(query_tracks("q", QueryRoute::Search, Some(strings(&["u"]))), Ok(strings(&["u"])));
    assert_eq!(query_tracks("q", QueryRoute::Search, None), Err("music-search-error"));
    assert_eq!(
        query_tracks("https://p", QueryRoute::YoutubePlaylist, None),
        Err("music-playlist-fetch-error")
    );
    assert_eq!(
        query_tracks("https://p", QueryRoute::SoundcloudPlaylist, Some(strings(&["a", "b"]))),
        Ok(strings(&["a", "b"]))
    );
}

#[test]
fn bot_guild_routes() {
    assert_eq!(bot_guild_route("guild-configs"), "/guild-configs/:bot_discord_id/:guild_discord_id");
}

#[test]
fn pager_button_ids_and_presses() {
    let (prev, next) = page_button_ids("k3y");
    assert_eq!(prev, "prev_page:k3y");
    assert_eq!(next, "next_page:k3y");
    assert_eq!(pager_button(&next, "k3y"), Some(true));
    assert_eq!(pager_button(&prev, "k3y"), Some(false));
    assert_eq!(pager_button("next_page:other", "k3y"), None);
    assert_eq!(playing_title(&Some("Song".to_string())), "Playing: Song");
    assert_eq!(playing_title(&None), "Playing: Unknown");
}

#[test]
fn pager_expires_with_both_buttons_disabled() {
    let mut p = Pager::new(4);
    p.press(true);
    assert_eq!(p.disabled(), (false, false));
    p.expire();
    assert_eq!(p.disabled(), (true, true));
    assert_eq!(p.page, 1);
    assert!(p.expired);
}

#[test]
fn list_layouts() {
    assert_eq!(page_layout(PagedList::Queue, 0), PageLayout::Empty);
    assert_eq!(page_layout(PagedList::Queue, 10), PageLayout::Single);
    assert_eq!(page_layout(PagedList::Queue, 11), PageLayout::Paged(2));
    assert_eq!(page_layout(PagedList::Triggers, 50), PageLayout::Single);
    assert_eq!(page_layout(PagedList::Triggers, 120), PageLayout::Paged(3));
    assert_eq!(PagedList::Queue.empty_key(), "music-queue-empty");
    assert_eq!(PagedList::Triggers.empty_key(), "autores-list-empty");
    assert_eq!(PagedList::Queue.per_page(), 10);
    assert_eq!(PagedList::Triggers.per_page(), 50);
}

#[test]
fn only_the_author_turns_pages() {
    assert_eq!(pager_interaction("next_page:k", "k", 5, 5), PagerEvent::Press(true));
    assert_eq!(pager_interaction("prev_page:k", "k", 5, 5), PagerEvent::Press(false));
    assert_eq!(pager_interaction("next_page:k", "k", 6, 5), PagerEvent::Denied);
    assert_eq!(pager_interaction("next_page:z", "k", 5, 5), PagerEvent::Ignore);
    let denied = PagerEvent::Denied.reply().unwrap();
    assert_eq!((denied.key, denied.color, denied.ephemeral), ("interaction-denied", Some(ReplyColor::Red), true));
    assert!(PagerEvent::Press(true).reply().is_none());
}

#[test]
fn open_ticket_replies() {
    let r = open_ticket_reply(3, 3, Some(9));
    assert_eq!(r.text, "You have reached ticket limit");
    assert!(r.ephemeral);
    assert_eq!(open_ticket_reply(0, 3, None).text, "Failed to create ticket for you");
    assert_eq!(open_ticket_reply(0, 3, Some(9)).text, "Ticket created at <#9>");
    assert!(!open_ticket_may_create(3, 3));
    assert!(open_ticket_may_create(2, 3));
    let b = welcome_close_button(4);
    assert_eq!((b.custom_id.as_str(), b.label.as_str(), b.color), ("1:3:4", "Close", ReplyColor::Red));
    assert_eq!(ticket_channel_result(Some(5), false), Ok(5));
    assert_eq!(ticket_channel_result(None, false), Err("Failed to create channel"));
    assert_eq!(ticket_channel_result(None, true), Err("Failed to create thread"));
    assert_eq!(ticket_opened_status(), "Opened");
}

#[test]
fn queue_command_checks_in_order() {
    match queue_start(false, true, true, 3) {
        QueueStart::Refused(k) => assert_eq!(k, "command-guildonly"),
        _ => panic!("expected refusal"),
    }
    match queue_start(true, false, true, 3) {
        QueueStart::Refused(k) => assert_eq!(k, "music-not-same-channel"),
        _ => panic!("expected refusal"),
    }
    match queue_start(true, true, false, 3) {
        QueueStart::Refused(k) => assert_eq!(k, "music-not-same-channel"),
        _ => panic!("expected refusal"),
    }
    match queue_start(true, true, true, 0) {
        QueueStart::Empty(r) => {
            assert_eq!((r.key, r.color, r.ephemeral), ("music-queue-empty", Some(ReplyColor::Yellow), false))
        }
        _ => panic!("expected the empty reply"),
    }
    match queue_start(true, true, true, 25) {
        QueueStart::Show(l) => assert_eq!(l, PageLayout::Paged(3)),
        _ => panic!("expected the queue"),
    }
    let r = PagedList::Triggers.empty_reply();
    assert_eq!((r.key, r.color, r.ephemeral), ("autores-list-empty", Some(ReplyColor::Yellow), false));
}

#[test]
fn content_must_be_there_to_send_or_edit() {
    assert_eq!(MessageContent::<()>::NoContent.content_check(true), Err("No content provided for edit"));
    assert_eq!(MessageContent::<()>::NoContent.content_check(false), Err("No content provided for reply"));
    assert_eq!(MessageContent::<()>::Text("x".to_string()).content_check(true), Ok(()));
    let p = Palette { red: 1, green: 2, yellow: 3, blue: 4 };
    assert_eq!(p.value(ReplyColor::Green), 2);
    assert_eq!(p.value(ReplyColor::Blue), 4);
}

#[test]
fn messages_from_the_bot_or_outside_guilds_do_nothing() {
    assert!(message_plan(false, 1, 2, "!play x", "!").is_none());
    assert!(message_plan(true, 2, 2, "!play x", "!").is_none());
    let c = message_plan(true, 1, 2, "!play x", "!").unwrap().unwrap();
    assert_eq!(c.name, "play");
    assert!(message_plan(true, 1, 2, "hello", "!").unwrap().is_none());
}

#[test]
fn ticket_buttons_defer_then_act() {
    assert_eq!(ticket_button_step(false, "1:1:5"), None);
    assert_eq!(ticket_button_step(true, "1:1:5"), Some(TicketAction::Open(5)));
    assert_eq!(TicketAction::MissingId.reply().unwrap().text, "Unknown interaction");
    assert_eq!(TicketAction::UnknownAction.reply().unwrap().text, "Unknown ticket action");
    assert!(TicketAction::UnknownAction.reply().unwrap().ephemeral);
    assert!(TicketAction::Open(1).reply().is_none());
    assert_eq!(unknown_ticket_reply().text, "Unknown ticket");
}

#[test]
fn locale_bundles_and_fetch_steps() {
    assert_eq!(bundle_locale("vn"), Some("vn"));
    assert_eq!(bundle_locale("en"), Some("en"));
    assert_eq!(bundle_locale("fr"), None);
    assert_eq!(fetch_plan(Some(70000)), FetchPlan::Limit(70000u32 as u16));
    assert_eq!(fetch_plan(None), FetchPlan::Paged);
    assert_eq!(fetch_step(&vec![9, 8, 7]), Some(7));
    assert_eq!(fetch_step(&vec![]), None);
    assert_eq!(fetch_page_size(), 100);
}
