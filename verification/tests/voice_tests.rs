use rustycrab_api::commands::voice::{
    apply_loop_request, parse_loop_request, pause_toggle, play_checks, play_reply, play_urls_check,
    join_reply, music_help_author, music_help_description, music_help_line, play_track_details,
    skip_reply, skip_to_track, track_link, unloop, LoopRequest, PauseAction, PlayError, PlayReply,
    SkipToOutcome,
};
use rustycrab_api::commands::ParsedArg;
use rustycrab_api::messages::{Palette, ReplyColor};

fn pt(a: bool, b: bool, c: Option<bool>) -> (PauseAction, &'static str, Option<ReplyColor>) {
    let (act, r) = pause_toggle(a, b, c);
    (act, r.key, r.color)
}

const PALETTE: Palette = Palette { red: 0xff0000, green: 0x00ff00, yellow: 0xffff00, blue: 0x0000ff };
use rustycrab_api::voice_manager::{
    now_playing_embed, track_end_notice, CurrentSongReply, PlayerLoopState, TrackEndStep, TrackMetadata, TrackRequester, VoiceManager,
};

fn urls(v: &[&str]) -> Vec<String> {
    v.iter().map(|s| s.to_string()).collect()
}

fn metadata(title: &str) -> TrackMetadata {
    TrackMetadata {
        title: Some(title.to_string()),
        source_url: Some(format!("https://example.com/{}", title)),
        thumbnail: None,
        duration_secs: Some(215),
    }
}

fn requester(id: u64) -> TrackRequester {
    TrackRequester { id, name: "alice".to_string(), avatar: Some("hash".to_string()) }
}

#[test]
fn new_manager_is_empty() {
    let mut m = VoiceManager::new();
    assert!(!m.waiting_track_urls.contains_key(&7));
    assert!(m.get_waiting_queue(7).is_empty());
    assert!(m.waiting_track_urls.contains_key(&7));
    assert_eq!(m.get_loop_state(7), PlayerLoopState::NoLoop);
    assert!(m.get_current_song(7).is_none());
    assert_eq!(m.spinning_disk, "https://cdn.darrennathanael.com/icons/spinning_disk.gif");
}

#[test]
fn waiting_queue_is_first_in_first_out() {
    let mut m = VoiceManager::new();
    m.extend_waiting_queue(1, &urls(&["a", "b"]));
    m.extend_waiting_queue(1, &urls(&["c"]));
    assert_eq!(m.get_waiting_queue(1), urls(&["a", "b", "c"]));
    assert_eq!(m.pop_next_track_url(1), Some("a".to_string()));
    assert_eq!(m.pop_next_track_url(1), Some("b".to_string()));
    assert_eq!(m.pop_next_track_url(1), Some("c".to_string()));
    assert_eq!(m.pop_next_track_url(1), None);
    assert!(m.get_waiting_queue(1).is_empty());
}

#[test]
fn waiting_queues_are_kept_per_guild() {
    let mut m = VoiceManager::new();
    m.extend_waiting_queue(1, &urls(&["a"]));
    m.extend_waiting_queue(2, &urls(&["x", "y"]));
    m.clear_waiting_queue(1);
    assert!(m.get_waiting_queue(1).is_empty());
    assert_eq!(m.get_waiting_queue(2), urls(&["x", "y"]));
}

#[test]
fn skip_to_position_drops_the_tracks_before_it() {
    let mut m = VoiceManager::new();
    m.extend_waiting_queue(1, &urls(&["a", "b", "c", "d"]));
    assert!(m.skip_to_position(1, 3));
    assert_eq!(m.get_waiting_queue(1), urls(&["c", "d"]));
    assert_eq!(m.pop_next_track_url(1), Some("c".to_string()));
}

#[test]
fn skip_to_position_out_of_range_changes_nothing() {
    let mut m = VoiceManager::new();
    m.extend_waiting_queue(1, &urls(&["a", "b"]));
    assert!(!m.skip_to_position(1, 0));
    assert!(!m.skip_to_position(1, 3));
    assert_eq!(m.get_waiting_queue(1), urls(&["a", "b"]));
    assert!(m.skip_to_position(1, 2));
    assert_eq!(m.get_waiting_queue(1), urls(&["b"]));
}

#[test]
fn loop_state_reads_what_was_set() {
    let mut m = VoiceManager::new();
    m.set_loop_state(1, PlayerLoopState::LoopQueue);
    m.set_loop_state(2, PlayerLoopState::LoopCurrentTrack);
    assert_eq!(m.get_loop_state(1), PlayerLoopState::LoopQueue);
    assert_eq!(m.get_loop_state(2), PlayerLoopState::LoopCurrentTrack);
    assert_eq!(m.get_loop_state(3), PlayerLoopState::NoLoop);
}

#[test]
fn track_started_records_the_current_song() {
    let mut m = VoiceManager::new();
    m.track_started(5, metadata("song"), requester(42));
    let (meta, who) = m.get_current_song(5).unwrap();
    assert_eq!(meta.title, Some("song".to_string()));
    assert_eq!(meta.source_url, Some("https://example.com/song".to_string()));
    assert_eq!(meta.duration_secs, Some(215));
    assert_eq!(who.id, 42);
    assert_eq!(who.name, "alice");
    assert!(m.get_current_song(6).is_none());
    m.set_current_song(5, None);
    assert!(m.get_current_song(5).is_none());
}

#[test]
fn track_ended_in_queue_loop_puts_the_track_back() {
    let mut m = VoiceManager::new();
    m.set_loop_state(1, PlayerLoopState::LoopQueue);
    m.extend_waiting_queue(1, &urls(&["b"]));
    m.track_started(1, metadata("a"), requester(1));
    assert_eq!(m.track_ended(1, &"a".to_string()), Some("b".to_string()));
    assert_eq!(m.get_waiting_queue(1), urls(&["a"]));
    assert!(m.get_current_song(1).is_none());
    assert_eq!(m.track_ended(1, &"b".to_string()), Some("a".to_string()));
    assert_eq!(m.get_waiting_queue(1), urls(&["b"]));
}

#[test]
fn track_ended_in_queue_loop_with_empty_queue_replays_the_track() {
    let mut m = VoiceManager::new();
    m.set_loop_state(1, PlayerLoopState::LoopQueue);
    assert_eq!(m.track_ended(1, &"a".to_string()), Some("a".to_string()));
    assert!(m.get_waiting_queue(1).is_empty());
}

#[test]
fn track_ended_without_loop_takes_the_next_track() {
    let mut m = VoiceManager::new();
    m.extend_waiting_queue(1, &urls(&["b", "c"]));
    assert_eq!(m.track_ended(1, &"a".to_string()), Some("b".to_string()));
    assert_eq!(m.get_waiting_queue(1), urls(&["c"]));
    assert_eq!(m.track_ended(1, &"b".to_string()), Some("c".to_string()));
    assert_eq!(m.track_ended(1, &"c".to_string()), None);
}

#[test]
fn enqueue_tracks_on_idle_player_plays_the_first() {
    let mut m = VoiceManager::new();
    m.extend_waiting_queue(1, &urls(&["old"]));
    let now = m.enqueue_tracks(1, &urls(&["x", "y", "z"]), true);
    assert_eq!(now, Some("x".to_string()));
    assert_eq!(m.get_waiting_queue(1), urls(&["old", "y", "z"]));
}

#[test]
fn enqueue_tracks_on_busy_player_queues_them_all() {
    let mut m = VoiceManager::new();
    m.extend_waiting_queue(1, &urls(&["old"]));
    let now = m.enqueue_tracks(1, &urls(&["x", "y"]), false);
    assert_eq!(now, None);
    assert_eq!(m.get_waiting_queue(1), urls(&["old", "x", "y"]));
}

#[test]
fn parse_loop_request_reads_the_first_word() {
    assert_eq!(parse_loop_request(&vec![ParsedArg::Arg("song".to_string())]), LoopRequest::CurrentTrack);
    assert_eq!(parse_loop_request(&vec![ParsedArg::Arg("1".to_string())]), LoopRequest::CurrentTrack);
    assert_eq!(parse_loop_request(&vec![ParsedArg::Arg("one".to_string())]), LoopRequest::CurrentTrack);
    assert_eq!(parse_loop_request(&vec![ParsedArg::Arg("all".to_string())]), LoopRequest::Queue);
    assert_eq!(parse_loop_request(&vec![ParsedArg::Arg("queue".to_string())]), LoopRequest::Queue);
    assert_eq!(parse_loop_request(&vec![ParsedArg::Arg("forever".to_string())]), LoopRequest::Invalid);
    assert_eq!(parse_loop_request(&vec![]), LoopRequest::Queue);
    assert_eq!(parse_loop_request(&vec![ParsedArg::Number(1)]), LoopRequest::Queue);
}

#[test]
fn apply_loop_request_sets_the_mode_and_names_the_reply() {
    let mut m = VoiceManager::new();
    assert_eq!(apply_loop_request(&mut m, 1, LoopRequest::CurrentTrack, false), "command-loop-track-failed");
    assert_eq!(m.get_loop_state(1), PlayerLoopState::NoLoop);
    assert_eq!(apply_loop_request(&mut m, 1, LoopRequest::CurrentTrack, true), "command-loop-track");
    assert_eq!(m.get_loop_state(1), PlayerLoopState::LoopCurrentTrack);
    assert_eq!(apply_loop_request(&mut m, 1, LoopRequest::Invalid, true), "command-loop-invalid");
    assert_eq!(m.get_loop_state(1), PlayerLoopState::LoopCurrentTrack);
    assert_eq!(apply_loop_request(&mut m, 1, LoopRequest::Queue, true), "command-loop-queue");
    assert_eq!(m.get_loop_state(1), PlayerLoopState::LoopQueue);
}

#[test]
fn unloop_tells_whether_the_track_was_looping() {
    let mut m = VoiceManager::new();
    m.set_loop_state(1, PlayerLoopState::LoopCurrentTrack);
    assert!(unloop(&mut m, 1));
    assert_eq!(m.get_loop_state(1), PlayerLoopState::NoLoop);
    m.set_loop_state(1, PlayerLoopState::LoopQueue);
    assert!(!unloop(&mut m, 1));
    assert_eq!(m.get_loop_state(1), PlayerLoopState::NoLoop);
}

#[test]
fn skip_to_track_outcomes() {
    let mut m = VoiceManager::new();
    m.extend_waiting_queue(1, &urls(&["a", "b", "c"]));
    assert_eq!(skip_to_track(&mut m, 1, &vec![ParsedArg::Arg("two".to_string())]), SkipToOutcome::NoPosition);
    assert_eq!(skip_to_track(&mut m, 1, &vec![]), SkipToOutcome::NoPosition);
    assert_eq!(skip_to_track(&mut m, 1, &vec![ParsedArg::Number(9)]), SkipToOutcome::InvalidPosition);
    assert_eq!(skip_to_track(&mut m, 1, &vec![ParsedArg::Number(-1)]), SkipToOutcome::InvalidPosition);
    assert_eq!(skip_to_track(&mut m, 1, &vec![ParsedArg::Number(0)]), SkipToOutcome::InvalidPosition);
    assert_eq!(m.get_waiting_queue(1), urls(&["a", "b", "c"]));
    assert_eq!(skip_to_track(&mut m, 1, &vec![ParsedArg::Number(2)]), SkipToOutcome::Skipped);
    assert_eq!(m.get_waiting_queue(1), urls(&["b", "c"]));
}

#[test]
fn skip_to_outcome_keys() {
    assert_eq!(SkipToOutcome::Skipped.key(), "command-skipto-success");
    assert_eq!(SkipToOutcome::InvalidPosition.key(), "command-skipto-invalid");
    assert_eq!(SkipToOutcome::NoPosition.key(), "command-skipto-nopos");
}

#[test]
fn pause_toggles_the_current_track() {
    assert_eq!(pt(false, true, Some(true)), (PauseAction::Nothing, "music-not-playing", Some(ReplyColor::Red)));
    assert_eq!(pt(true, false, Some(true)), (PauseAction::Nothing, "music-not-same-channel", Some(ReplyColor::Red)));
    assert_eq!(pt(true, true, None), (PauseAction::Nothing, "music-not-playing", Some(ReplyColor::Red)));
    assert_eq!(pt(true, true, Some(true)), (PauseAction::Pause, "command-pause-paused", Some(ReplyColor::Yellow)));
    assert_eq!(pt(true, true, Some(false)), (PauseAction::Play, "command-pause-unpaused", Some(ReplyColor::Green)));
}

#[test]
fn track_link_fills_in_unknown_parts() {
    assert_eq!(track_link(&Some("Song".to_string()), &Some("https://y.t/1".to_string())), "[Song](https://y.t/1)");
    assert_eq!(track_link(&None, &None), "[Unknown](Unknown)");
}

#[test]
fn now_playing_embed_describes_the_track() {
    let meta = TrackMetadata { title: None, source_url: None, thumbnail: Some("th".to_string()), duration_secs: None };
    let e = now_playing_embed(&meta, &requester(3), Some("https://t".to_string()), "disk", None, Some("av".to_string()), 0x00ff00);
    assert_eq!(e.author_name, Some("Now playing".to_string()));
    assert_eq!(e.author_icon_url, Some("disk".to_string()));
    assert_eq!(e.title, Some("<UNKNOWN>".to_string()));
    assert_eq!(e.url, Some("https://t".to_string()));
    assert_eq!(e.thumbnail, Some("th".to_string()));
    let f = e.fields.unwrap();
    assert_eq!(f.len(), 1);
    assert_eq!(f[0].name, "Duration");
    assert_eq!(f[0].value, "<Unknown duration>");
    assert!(f[0].inline);
    assert_eq!(e.footer_text, Some("Requested by @alice".to_string()));
    assert_eq!(e.footer_icon_url, Some("av".to_string()));
    assert_eq!(e.color, Some(0x00ff00));
    let e2 = now_playing_embed(&metadata("song"), &requester(3), None, "d", Some("3:35".to_string()), None, 1);
    assert_eq!(e2.title, Some("song".to_string()));
    assert_eq!(e2.url, None);
    assert_eq!(e2.fields.unwrap()[0].value, "3:35");
}

#[test]
fn play_replies() {
    assert_eq!(play_reply(true, 3), PlayReply::AddedTracks);
    assert_eq!(play_reply(false, 2), PlayReply::AddedTracks);
    assert_eq!(play_reply(true, 1), PlayReply::Silent);
    assert_eq!(play_reply(false, 1), PlayReply::AddedTrack);
}

#[test]
fn queue_entries_appear_and_vanish_as_the_map_says() {
    let mut m = VoiceManager::new();
    assert_eq!(m.pop_next_track_url(1), None);
    assert!(!m.waiting_track_urls.contains_key(&1));
    assert!(!m.skip_to_position(1, 1));
    assert!(!m.waiting_track_urls.contains_key(&1));
    m.extend_waiting_queue(1, &urls(&["a"]));
    assert_eq!(m.pop_next_track_url(1), Some("a".to_string()));
    assert!(m.waiting_track_urls.contains_key(&1));
    assert_eq!(m.pop_next_track_url(1), None);
    assert!(m.waiting_track_urls.contains_key(&1));
    assert!(!m.skip_to_position(1, 1));
    assert!(m.waiting_track_urls.contains_key(&1));
    m.extend_waiting_queue(2, &urls(&["x"]));
    m.clear_waiting_queue(1);
    assert!(!m.waiting_track_urls.contains_key(&1));
    assert_eq!(m.pop_next_track_url(1), None);
    assert_eq!(m.get_waiting_queue(2), urls(&["x"]));
}

#[test]
fn track_end_without_queue_loop_makes_no_entry() {
    let mut m = VoiceManager::new();
    assert_eq!(m.track_ended(3, &"a".to_string()), None);
    assert!(!m.waiting_track_urls.contains_key(&3));
    m.set_loop_state(3, PlayerLoopState::LoopQueue);
    assert_eq!(m.track_ended(3, &"a".to_string()), Some("a".to_string()));
    assert!(m.waiting_track_urls.contains_key(&3));
}

#[test]
fn play_refusals_in_order() {
    let text = vec![ParsedArg::Text("song".to_string())];
    assert_eq!(play_checks(false, false, false, &text), Err(PlayError::GuildOnly));
    assert_eq!(play_checks(true, false, true, &text), Err(PlayError::NoVoice));
    assert_eq!(play_checks(true, true, false, &text), Err(PlayError::CannotConnect));
    assert_eq!(play_checks(true, true, true, &vec![]), Err(PlayError::InvalidUrl));
    assert_eq!(play_checks(true, true, true, &vec![ParsedArg::Number(1)]), Err(PlayError::InvalidUrl));
    assert_eq!(play_checks(true, true, true, &text), Ok("song".to_string()));
    assert_eq!(play_urls_check(&vec![]), Err(PlayError::InvalidUrl));
    assert_eq!(play_urls_check(&urls(&["a"])), Ok(()));
    assert_eq!(PlayError::GuildOnly.key(), "command-guildonly");
    assert_eq!(PlayError::NoVoice.key(), "music-user-novoice");
    assert_eq!(PlayError::CannotConnect.key(), "music-cannot-connect");
    assert_eq!(PlayError::InvalidUrl.key(), "command-play-invalid-url");
    assert_eq!(PlayError::TrackError.key(), "music-error-track");
}

#[test]
fn notice_when_no_track_follows() {
    assert_eq!(track_end_notice(&None), Some(("No more track to play..", ReplyColor::Red)));
    assert_eq!(track_end_notice(&Some("u".to_string())), None);
}

#[test]
fn track_start_step_announces_in_green() {
    let mut m = VoiceManager::new();
    let e = m.on_track_play(4, metadata("s"), requester(8), &"https://req".to_string(), None, None, &PALETTE);
    assert_eq!(e.color, Some(0x00ff00));
    assert_eq!(e.url, Some("https://req".to_string()));
    assert_eq!(e.title, Some("s".to_string()));
    assert_eq!(e.author_icon_url, Some(m.spinning_disk.clone()));
    assert_eq!(m.get_current_song(4).unwrap().1.id, 8);
}

#[test]
fn current_song_replies() {
    let mut m = VoiceManager::new();
    match m.current_song_reply(1, false, None, None, &PALETTE) {
        CurrentSongReply::Refused(t) => {
            assert_eq!(t, "You need to be in the same voice channel as the bot to use this command")
        }
        _ => panic!("expected refusal"),
    }
    assert!(matches!(m.current_song_reply(1, true, None, None, &PALETTE), CurrentSongReply::Nothing));
    m.track_started(1, metadata("s"), requester(2));
    match m.current_song_reply(1, true, Some("1:00".to_string()), None, &PALETTE) {
        CurrentSongReply::NowPlaying(e) => {
            assert_eq!(e.url, Some("https://example.com/s".to_string()));
            assert_eq!(e.color, Some(0x00ff00));
            assert_eq!(e.fields.unwrap()[0].value, "1:00");
        }
        _ => panic!("expected the song"),
    }
}

#[test]
fn play_reply_messages() {
    let r = PlayReply::AddedTracks.reply().unwrap();
    assert_eq!((r.key, r.color), ("command-play-added-tracks", Some(ReplyColor::Green)));
    let r = PlayReply::AddedTrack.reply().unwrap();
    assert_eq!((r.key, r.color), ("command-play-added-track", Some(ReplyColor::Green)));
    assert!(PlayReply::Silent.reply().is_none());
    assert_eq!(play_track_details(false), Err(PlayError::TrackError));
    assert_eq!(play_track_details(true), Ok(()));
}

#[test]
fn skip_join_and_help_texts() {
    let s = skip_reply(true);
    assert_eq!((s.description_key, s.footer_key, s.field_key, s.color), ("command-skip-skipped", "command-skip-author", Some("command-skip-requested-by"), ReplyColor::Yellow));
    let s = skip_reply(false);
    assert_eq!((s.description_key, s.field_key), ("command-skip-no-metadata", None));
    let j = join_reply(false, false);
    assert_eq!((j.key, j.color), ("command-join-nochannel", Some(ReplyColor::Red)));
    let j = join_reply(true, true);
    assert_eq!((j.key, j.color), ("command-join-joined", Some(ReplyColor::Green)));
    let j = join_reply(true, false);
    assert_eq!((j.key, j.color), ("command-join-failed", Some(ReplyColor::Red)));
    assert_eq!(music_help_line("play <url>", &Some("plays".to_string())), "play <url>: plays");
    assert_eq!(music_help_line("stop", &None), "stop");
    assert_eq!(music_help_author("!"), "Music commands - Prefix: !");
    assert_eq!(
        music_help_description("note", &vec!["a".to_string(), "b".to_string()]),
        "note\n```fix\na\nb```"
    );
}

#[test]
fn track_end_step_plays_next_or_notices() {
    let mut m = VoiceManager::new();
    m.extend_waiting_queue(1, &urls(&["b"]));
    assert!(matches!(m.on_track_end(1, &"a".to_string()), TrackEndStep::PlayNext(n) if n == "b"));
    match m.on_track_end(1, &"b".to_string()) {
        TrackEndStep::Notice(t, c) => {
            assert_eq!(t, "No more track to play..");
            assert_eq!(c, ReplyColor::Red);
        }
        _ => panic!("expected the notice"),
    }
}
