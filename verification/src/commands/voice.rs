//! Voice and music commands, and the decisions behind `loop`, `unloop`,
//! `loopq` and `skipto`.

use vstd::prelude::*;
use crate::text::{chars_eq, chars_of, join, join_strings, views};
use crate::messages::{Reply, ReplyColor};
use crate::voice_manager::{PlayerLoopState, VoiceManager, skip_to};
use super::{ArgSpec, ArgType, CommandId, ParsedArg, name_views};

verus! {

/// `join`: joins the author's voice channel.
pub struct JoinCommand {}

impl JoinCommand {
    pub fn name(&self) -> (r: &'static str)
        ensures
            r@ == "join"@,
    {
        "join"
    }

    pub fn args(&self) -> (r: Vec<ArgSpec>)
        ensures
            r@.len() == 1,
            r@[0].name@ == "voice channel"@,
            r@[0].arg_type == ArgType::Channel,
            r@[0].optional,
    {
        vec![ArgSpec::new("voice channel", ArgType::Channel, true)]
    }
}

/// `leave`: leaves the voice channel.
pub struct LeaveChannelCommand {}

impl LeaveChannelCommand {
    pub fn name(&self) -> (r: &'static str)
        ensures
            r@ == "leave"@,
    {
        "leave"
    }
}

/// `music`: lists the music commands.
pub struct MusicHelpCommand {}

impl MusicHelpCommand {
    pub fn name(&self) -> (r: &'static str)
        ensures
            r@ == "music"@,
    {
        "music"
    }

    pub fn aliases(&self) -> (r: Vec<&'static str>)
        ensures
            name_views(r@) == seq!["music help"@],
    {
        let r = vec!["music help"];
        assert(name_views(r@) =~= seq!["music help"@]);
        r
    }
}

/// `play`: plays a URL, a playlist or the first result of a search.
pub struct PlayCommand {}

impl PlayCommand {
    pub fn name(&self) -> (r: &'static str)
        ensures
            r@ == "play"@,
    {
        "play"
    }

    pub fn args(&self) -> (r: Vec<ArgSpec>)
        ensures
            r@.len() == 1,
            r@[0].name@ == "url"@,
            r@[0].arg_type == ArgType::Text,
            !r@[0].optional,
    {
        vec![ArgSpec::new("url", ArgType::Text, false)]
    }
}

/// `pause`: pauses or resumes the current track.
pub struct PauseMusicCommand {}

impl PauseMusicCommand {
    pub fn name(&self) -> (r: &'static str)
        ensures
            r@ == "pause"@,
    {
        "pause"
    }
}

/// `resume`: resumes a paused track.
pub struct ResumeMusicCommand {}

impl ResumeMusicCommand {
    pub fn name(&self) -> (r: &'static str)
        ensures
            r@ == "resume"@,
    {
        "resume"
    }
}

/// `stop`: stops playing.
pub struct StopMusicCommand {}

impl StopMusicCommand {
    pub fn name(&self) -> (r: &'static str)
        ensures
            r@ == "stop"@,
    {
        "stop"
    }
}

/// `skip`: skips the current track.
pub struct SkipCurrentTrackCommand {}

impl SkipCurrentTrackCommand {
    pub fn name(&self) -> (r: &'static str)
        ensures
            r@ == "skip"@,
    {
        "skip"
    }

    pub fn aliases(&self) -> (r: Vec<&'static str>)
        ensures
            name_views(r@) == seq!["next"@],
    {
        let r = vec!["next"];
        assert(name_views(r@) =~= seq!["next"@]);
        r
    }
}

/// `queue`: shows the waiting queue.
pub struct QueueCommand {}

impl QueueCommand {
    pub fn name(&self) -> (r: &'static str)
        ensures
            r@ == "queue"@,
    {
        "queue"
    }
}

/// `song`: shows the song now playing.
pub struct CurrentSongCommand {}

impl CurrentSongCommand {
    pub fn name(&self) -> (r: &'static str)
        ensures
            r@ == "song"@,
    {
        "song"
    }

    pub fn aliases(&self) -> (r: Vec<&'static str>)
        ensures
            name_views(r@) == seq!["currentsong"@, "track"@, "playing"@],
    {
        let r = vec!["currentsong", "track", "playing"];
        assert(name_views(r@) =~= seq!["currentsong"@, "track"@, "playing"@]);
        r
    }
}

/// `skipto`: skips to a position of the waiting queue.
pub struct SkipToTrackCommand {}

impl SkipToTrackCommand {
    pub fn name(&self) -> (r: &'static str)
        ensures
            r@ == "skipto"@,
    {
        "skipto"
    }

    pub fn args(&self) -> (r: Vec<ArgSpec>)
        ensures
            r@.len() == 1,
            r@[0].name@ == "position"@,
            r@[0].arg_type == ArgType::Number,
            !r@[0].optional,
    {
        vec![ArgSpec::new("position", ArgType::Number, false)]
    }
}

/// `loop`: loops the current track or the queue.
pub struct LoopMusicCommand {}

impl LoopMusicCommand {
    pub fn name(&self) -> (r: &'static str)
        ensures
            r@ == "loop"@,
    {
        "loop"
    }

    pub fn args(&self) -> (r: Vec<ArgSpec>)
        ensures
            r@.len() == 1,
            r@[0].name@ == "type: current/one/all/queue"@,
            r@[0].arg_type == ArgType::Arg,
            r@[0].optional,
    {
        vec![ArgSpec::new("type: current/one/all/queue", ArgType::Arg, true)]
    }
}

/// `loopq`: loops the queue.
pub struct LoopQueueMusicCommand {}

impl LoopQueueMusicCommand {
    pub fn name(&self) -> (r: &'static str)
        ensures
            r@ == "loopq"@,
    {
        "loopq"
    }
}

/// `unloop`: stops looping.
pub struct UnloopMusicCommand {}

impl UnloopMusicCommand {
    pub fn name(&self) -> (r: &'static str)
        ensures
            r@ == "unloop"@,
    {
        "unloop"
    }
}

impl MusicHelpCommand {
    /// The commands that the music help lists, in order.
    pub fn listed_commands(&self) -> (r: Vec<CommandId>)
        ensures
            r@ == seq![
                CommandId::Play,
                CommandId::PauseMusic,
                CommandId::ResumeMusic,
                CommandId::StopMusic,
                CommandId::Queue,
                CommandId::SkipCurrentTrack,
                CommandId::SkipToTrack,
                CommandId::CurrentSong,
                CommandId::LoopMusic,
                CommandId::UnloopMusic,
            ],
    {
        let r = vec![
            CommandId::Play,
            CommandId::PauseMusic,
            CommandId::ResumeMusic,
            CommandId::StopMusic,
            CommandId::Queue,
            CommandId::SkipCurrentTrack,
            CommandId::SkipToTrack,
            CommandId::CurrentSong,
            CommandId::LoopMusic,
            CommandId::UnloopMusic,
        ];
        assert(r@ =~= seq![
            CommandId::Play,
            CommandId::PauseMusic,
            CommandId::ResumeMusic,
            CommandId::StopMusic,
            CommandId::Queue,
            CommandId::SkipCurrentTrack,
            CommandId::SkipToTrack,
            CommandId::CurrentSong,
            CommandId::LoopMusic,
            CommandId::UnloopMusic,
        ]);
        r
    }
}

/// The voice and music command category.
pub struct VoiceCommands;

impl VoiceCommands {
    pub fn name(&self) -> (r: &'static str)
        ensures
            r@ == "Voice & Music"@,
    {
        "Voice & Music"
    }

    pub fn collect_commands(&self) -> (r: Vec<CommandId>)
        ensures
            r@ == seq![
                CommandId::Join,
                CommandId::LeaveChannel,
                CommandId::MusicHelp,
                CommandId::Play,
                CommandId::PauseMusic,
                CommandId::ResumeMusic,
                CommandId::StopMusic,
                CommandId::SkipCurrentTrack,
                CommandId::Queue,
                CommandId::CurrentSong,
                CommandId::SkipToTrack,
                CommandId::LoopMusic,
                CommandId::LoopQueueMusic,
                CommandId::UnloopMusic,
            ],
    {
        let r = vec![
            CommandId::Join,
            CommandId::LeaveChannel,
            CommandId::MusicHelp,
            CommandId::Play,
            CommandId::PauseMusic,
            CommandId::ResumeMusic,
            CommandId::StopMusic,
            CommandId::SkipCurrentTrack,
            CommandId::Queue,
            CommandId::CurrentSong,
            CommandId::SkipToTrack,
            CommandId::LoopMusic,
            CommandId::LoopQueueMusic,
            CommandId::UnloopMusic,
        ];
        assert(r@ =~= seq![
            CommandId::Join,
            CommandId::LeaveChannel,
            CommandId::MusicHelp,
            CommandId::Play,
            CommandId::PauseMusic,
            CommandId::ResumeMusic,
            CommandId::StopMusic,
            CommandId::SkipCurrentTrack,
            CommandId::Queue,
            CommandId::CurrentSong,
            CommandId::SkipToTrack,
            CommandId::LoopMusic,
            CommandId::LoopQueueMusic,
            CommandId::UnloopMusic,
        ]);
        r
    }
}

/// What `loop` was asked to loop.
#[derive(Clone, Copy, Debug, PartialEq, Eq, Structural)]
pub enum LoopRequest {
    CurrentTrack,
    Queue,
    Invalid,
}

/// The loop request that the word `arg` names.
pub open spec fn loop_request_of(arg: Seq<char>) -> LoopRequest {
    if arg == "current"@ || arg == "song"@ || arg == "track"@ || arg == "one"@ || arg == "1"@ {
        LoopRequest::CurrentTrack
    } else if arg == "queue"@ || arg == "all"@ {
        LoopRequest::Queue
    } else {
        LoopRequest::Invalid
    }
}

/// The word that `loop` reads: its first argument where that is a word, `queue` otherwise.
pub open spec fn loop_word(command_args: Seq<ParsedArg>) -> Seq<char> {
    if command_args.len() > 0 && command_args[0] is Arg {
        command_args[0]->Arg_0@
    } else {
        "queue"@
    }
}

/// Whether `w` is the word `lit`.
fn word_is(w: &Vec<char>, lit: &str) -> (r: bool)
    ensures
        r == (w@ == lit@),
{
    let l = chars_of(lit);
    chars_eq(w, &l)
}

/// What the arguments of `loop` ask for.
pub fn parse_loop_request(command_args: &Vec<ParsedArg>) -> (r: LoopRequest)
    ensures
        r == loop_request_of(loop_word(command_args@)),
{
    let w = if command_args.len() > 0 {
        match &command_args[0] {
            ParsedArg::Arg(s) => chars_of(s.as_str()),
            _ => chars_of("queue"),
        }
    } else {
        chars_of("queue")
    };
    if word_is(&w, "current") || word_is(&w, "song") || word_is(&w, "track") || word_is(&w, "one")
        || word_is(&w, "1") {
        LoopRequest::CurrentTrack
    } else if word_is(&w, "queue") || word_is(&w, "all") {
        LoopRequest::Queue
    } else {
        LoopRequest::Invalid
    }
}

/// Carries out a `loop` request in `guild` and gives the key of the reply.
/// Looping the current track takes effect only where the player could loop
/// the track (`track_loop_enabled`); looping the queue always does.
pub fn apply_loop_request(
    manager: &mut VoiceManager,
    guild: u64,
    request: LoopRequest,
    track_loop_enabled: bool,
) -> (key: &'static str)
    ensures
        request == LoopRequest::CurrentTrack && track_loop_enabled ==> key@
            == "command-loop-track"@ && final(manager).loop_mode(guild)
            == PlayerLoopState::LoopCurrentTrack,
        request == LoopRequest::CurrentTrack && !track_loop_enabled ==> key@
            == "command-loop-track-failed"@ && final(manager).loop_mode(guild) == old(manager).loop_mode(guild),
        request == LoopRequest::Queue ==> key@ == "command-loop-queue"@ && final(manager).loop_mode(guild) == PlayerLoopState::LoopQueue,
        request == LoopRequest::Invalid ==> key@ == "command-loop-invalid"@ && final(manager).loop_mode(guild) == old(manager).loop_mode(guild),
        forall|g: u64| g != guild ==> final(manager).loop_mode(g) == old(manager).loop_mode(g),
        forall|g: u64| final(manager).waiting(g) == old(manager).waiting(g),
        forall|g: u64| final(manager).playing(g) == old(manager).playing(g),
{
    match request {
        LoopRequest::CurrentTrack => {
            if track_loop_enabled {
                manager.set_loop_state(guild, PlayerLoopState::LoopCurrentTrack);
                "command-loop-track"
            } else {
                "command-loop-track-failed"
            }
        },
        LoopRequest::Queue => {
            manager.set_loop_state(guild, PlayerLoopState::LoopQueue);
            "command-loop-queue"
        },
        LoopRequest::Invalid => "command-loop-invalid",
    }
}

/// Ends looping in `guild`. Returns whether the current track was being
/// looped, in which case the player must stop looping it too.
pub fn unloop(manager: &mut VoiceManager, guild: u64) -> (was_looping_track: bool)
    ensures
        was_looping_track == (old(manager).loop_mode(guild) == PlayerLoopState::LoopCurrentTrack),
        final(manager).loop_mode(guild) == PlayerLoopState::NoLoop,
        forall|g: u64| g != guild ==> final(manager).loop_mode(g) == old(manager).loop_mode(g),
        forall|g: u64| final(manager).waiting(g) == old(manager).waiting(g),
        forall|g: u64| final(manager).playing(g) == old(manager).playing(g),
{
    let was = manager.get_loop_state(guild) == PlayerLoopState::LoopCurrentTrack;
    manager.set_loop_state(guild, PlayerLoopState::NoLoop);
    was
}

/// What came of a `skipto`.
#[derive(Clone, Copy, Debug, PartialEq, Eq, Structural)]
pub enum SkipToOutcome {
    /// The queue now starts at the requested position; the current track is to be stopped.
    Skipped,
    /// No such position in the queue.
    InvalidPosition,
    /// The first argument is not a number.
    NoPosition,
}

impl SkipToOutcome {
    /// The key of the reply.
    pub fn key(&self) -> (r: &'static str)
        ensures
            r@ == match *self {
                SkipToOutcome::Skipped => "command-skipto-success"@,
                SkipToOutcome::InvalidPosition => "command-skipto-invalid"@,
                SkipToOutcome::NoPosition => "command-skipto-nopos"@,
            },
    {
        match self {
            SkipToOutcome::Skipped => "command-skipto-success",
            SkipToOutcome::InvalidPosition => "command-skipto-invalid",
            SkipToOutcome::NoPosition => "command-skipto-nopos",
        }
    }
}

/// `skipto` in `guild` with the given arguments: a first argument that is a
/// number is the 1-indexed queue position to skip to.
pub fn skip_to_track(manager: &mut VoiceManager, guild: u64, command_args: &Vec<ParsedArg>) -> (r:
    SkipToOutcome)
    ensures
        !(command_args@.len() > 0 && command_args@[0] is Number) ==> r == SkipToOutcome::NoPosition
            && final(manager).waiting(guild) == old(manager).waiting(guild),
        command_args@.len() > 0 && command_args@[0] is Number ==> ({
            let p = command_args@[0]->Number_0 as int;
            match skip_to(old(manager).waiting(guild), p) {
                Some(q) => r == SkipToOutcome::Skipped && final(manager).waiting(guild) == q,
                None => r == SkipToOutcome::InvalidPosition && final(manager).waiting(guild)
                    == old(manager).waiting(guild),
            }
        }),
        final(manager).has_queue(guild) == old(manager).has_queue(guild),
        final(manager).same_except_queue(old(manager), guild),
{
    if command_args.len() == 0 {
        return SkipToOutcome::NoPosition;
    }
    match &command_args[0] {
        ParsedArg::Number(n) => {
            if *n < 0 || *n as u64 > usize::MAX as u64 {
                proof {
                    manager.lemma_queue_len_bound(guild);
                }
                return SkipToOutcome::InvalidPosition;
            }
            if manager.skip_to_position(guild, *n as usize) {
                SkipToOutcome::Skipped
            } else {
                SkipToOutcome::InvalidPosition
            }
        },
        _ => SkipToOutcome::NoPosition,
    }
}

/// What `pause` does to the player.
#[derive(Clone, Copy, Debug, PartialEq, Eq, Structural)]
pub enum PauseAction {
    /// Pause the playing track.
    Pause,
    /// Resume the paused track.
    Play,
    /// Leave the player alone.
    Nothing,
}

/// `pause` toggles the current track: it pauses a playing track and resumes
/// one that is not playing. `in_call` is whether the bot is in a call of the
/// guild, `same_channel` whether the author is in its channel, and
/// `current_playing` whether there is a current track and, if so, whether it
/// is playing. Gives the action and the reply: Red where nothing is done,
/// Yellow for a pause, Green for a resume.
pub fn pause_toggle(in_call: bool, same_channel: bool, current_playing: Option<bool>) -> (r: (
    PauseAction,
    Reply,
))
    ensures
        !r.1.ephemeral,
        !in_call ==> r.0 == PauseAction::Nothing && r.1.key@ == "music-not-playing"@ && r.1.color
            == Some(ReplyColor::Red),
        in_call && !same_channel ==> r.0 == PauseAction::Nothing && r.1.key@
            == "music-not-same-channel"@ && r.1.color == Some(ReplyColor::Red),
        in_call && same_channel ==> match current_playing {
            None => r.0 == PauseAction::Nothing && r.1.key@ == "music-not-playing"@ && r.1.color
                == Some(ReplyColor::Red),
            Some(true) => r.0 == PauseAction::Pause && r.1.key@ == "command-pause-paused"@
                && r.1.color == Some(ReplyColor::Yellow),
            Some(false) => r.0 == PauseAction::Play && r.1.key@ == "command-pause-unpaused"@
                && r.1.color == Some(ReplyColor::Green),
        },
{
    let red_not_playing = Reply {
        key: "music-not-playing",
        color: Some(ReplyColor::Red),
        ephemeral: false,
    };
    if !in_call {
        (PauseAction::Nothing, red_not_playing)
    } else if !same_channel {
        (
            PauseAction::Nothing,
            Reply { key: "music-not-same-channel", color: Some(ReplyColor::Red), ephemeral: false },
        )
    } else {
        match current_playing {
            None => (PauseAction::Nothing, red_not_playing),
            Some(true) => (
                PauseAction::Pause,
                Reply {
                    key: "command-pause-paused",
                    color: Some(ReplyColor::Yellow),
                    ephemeral: false,
                },
            ),
            Some(false) => (
                PauseAction::Play,
                Reply {
                    key: "command-pause-unpaused",
                    color: Some(ReplyColor::Green),
                    ephemeral: false,
                },
            ),
        }
    }
}

/// The Markdown link to a skipped track: `[title](url)`, each `Unknown`
/// where the track's metadata lacks it.
pub open spec fn track_link_of(title: Option<Seq<char>>, url: Option<Seq<char>>) -> Seq<char> {
    let t = match title {
        Some(t) => t,
        None => "Unknown"@,
    };
    let u = match url {
        Some(u) => u,
        None => "Unknown"@,
    };
    "["@ + t + "]("@ + u + ")"@
}

pub fn track_link(title: &Option<String>, url: &Option<String>) -> (r: String)
    ensures
        r@ == track_link_of(
            match title {
                Some(t) => Some(t@),
                None => None,
            },
            match url {
                Some(u) => Some(u@),
                None => None,
            },
        ),
{
    let mut r = String::from_str("[");
    match title {
        Some(t) => r.append(t.as_str()),
        None => r.append("Unknown"),
    }
    r.append("](");
    match url {
        Some(u) => r.append(u.as_str()),
        None => r.append("Unknown"),
    }
    r.append(")");
    r
}

/// How `play` answers once the tracks are queued.
#[derive(Clone, Copy, Debug, PartialEq, Eq, Structural)]
pub enum PlayReply {
    /// "Added tracks", with their count.
    AddedTracks,
    /// "Added track", with the track's details and its queue position.
    AddedTrack,
    /// No reply: the track starts at once and announces itself.
    Silent,
}

impl PlayReply {
    /// The Green message of the answer: `command-play-added-tracks` for
    /// several tracks, `command-play-added-track` for one that waits.
    pub fn reply(&self) -> (r: Option<Reply>)
        ensures
            *self == PlayReply::AddedTracks ==> (r matches Some(m) && m.key@
                == "command-play-added-tracks"@ && m.color == Some(ReplyColor::Green)
                && !m.ephemeral),
            *self == PlayReply::AddedTrack ==> (r matches Some(m) && m.key@
                == "command-play-added-track"@ && m.color == Some(ReplyColor::Green)
                && !m.ephemeral),
            *self == PlayReply::Silent ==> r is None,
    {
        match self {
            PlayReply::AddedTracks => Some(
                Reply {
                    key: "command-play-added-tracks",
                    color: Some(ReplyColor::Green),
                    ephemeral: false,
                },
            ),
            PlayReply::AddedTrack => Some(
                Reply {
                    key: "command-play-added-track",
                    color: Some(ReplyColor::Green),
                    ephemeral: false,
                },
            ),
            PlayReply::Silent => None,
        }
    }
}

/// The answer of `play` for `count` requested tracks: several tracks are
/// announced by their count; a single track is announced with its details
/// where it has to wait, and not at all where the player was idle.
pub fn play_reply(player_idle: bool, count: usize) -> (r: PlayReply)
    ensures
        count > 1 ==> r == PlayReply::AddedTracks,
        count <= 1 && player_idle ==> r == PlayReply::Silent,
        count <= 1 && !player_idle ==> r == PlayReply::AddedTrack,
{
    if count > 1 {
        PlayReply::AddedTracks
    } else if player_idle {
        PlayReply::Silent
    } else {
        PlayReply::AddedTrack
    }
}

/// Why `play` refuses a request.
#[derive(Clone, Copy, Debug, PartialEq, Eq, Structural)]
pub enum PlayError {
    /// Not in a guild.
    GuildOnly,
    /// The author is in no voice channel.
    NoVoice,
    /// The bot could not join the author's channel.
    CannotConnect,
    /// No text argument, or it gave no track.
    InvalidUrl,
    /// The details of the requested track could not be read.
    TrackError,
}

impl PlayError {
    /// The key of the message that explains the refusal.
    pub fn key(&self) -> (r: &'static str)
        ensures
            r@ == match *self {
                PlayError::GuildOnly => "command-guildonly"@,
                PlayError::NoVoice => "music-user-novoice"@,
                PlayError::CannotConnect => "music-cannot-connect"@,
                PlayError::InvalidUrl => "command-play-invalid-url"@,
                PlayError::TrackError => "music-error-track"@,
            },
    {
        match self {
            PlayError::GuildOnly => "command-guildonly",
            PlayError::NoVoice => "music-user-novoice",
            PlayError::CannotConnect => "music-cannot-connect",
            PlayError::InvalidUrl => "command-play-invalid-url",
            PlayError::TrackError => "music-error-track",
        }
    }
}

/// The checks `play` makes, in order, before it reads its argument: it must
/// be used in a guild, by an author in a voice channel that the bot could
/// join, with a text argument, which it gives back.
pub fn play_checks(in_guild: bool, in_voice: bool, joined: bool, command_args: &Vec<ParsedArg>) -> (r:
    Result<String, PlayError>)
    ensures
        !in_guild ==> r == Err::<String, PlayError>(PlayError::GuildOnly),
        in_guild && !in_voice ==> r == Err::<String, PlayError>(PlayError::NoVoice),
        in_guild && in_voice && !joined ==> r == Err::<String, PlayError>(PlayError::CannotConnect),
        in_guild && in_voice && joined ==> if command_args@.len() > 0 && command_args@[0] is Text {
            (r matches Ok(t) && t@ == command_args@[0]->Text_0@)
        } else {
            r == Err::<String, PlayError>(PlayError::InvalidUrl)
        },
{
    if !in_guild {
        return Err(PlayError::GuildOnly);
    }
    if !in_voice {
        return Err(PlayError::NoVoice);
    }
    if !joined {
        return Err(PlayError::CannotConnect);
    }
    if command_args.len() == 0 {
        return Err(PlayError::InvalidUrl);
    }
    match &command_args[0] {
        ParsedArg::Text(t) => Ok(t.clone()),
        _ => Err(PlayError::InvalidUrl),
    }
}

/// `play` refuses an argument that gave no track at all.
pub fn play_urls_check(urls: &Vec<String>) -> (r: Result<(), PlayError>)
    ensures
        urls@.len() == 0 ==> r == Err::<(), PlayError>(PlayError::InvalidUrl),
        urls@.len() > 0 ==> r is Ok,
{
    if urls.len() == 0 {
        Err(PlayError::InvalidUrl)
    } else {
        Ok(())
    }
}

/// A single track that has to wait is announced with its details; where
/// they cannot be read, `play` fails with `music-error-track` (the track
/// stays queued).
pub fn play_track_details(details_read: bool) -> (r: Result<(), PlayError>)
    ensures
        details_read ==> r is Ok,
        !details_read ==> r == Err::<(), PlayError>(PlayError::TrackError),
{
    if details_read {
        Ok(())
    } else {
        Err(PlayError::TrackError)
    }
}

/// The keys of the answer of `skip`, which is Yellow: where the skipped track
/// was known, `command-skip-skipped` with a `command-skip-requested-by` field
/// naming who asked for it; else `command-skip-no-metadata`. The footer is
/// `command-skip-author` either way.
pub struct SkipReply {
    pub description_key: &'static str,
    pub footer_key: &'static str,
    pub field_key: Option<&'static str>,
    pub color: ReplyColor,
}

pub fn skip_reply(skipped_known: bool) -> (r: SkipReply)
    ensures
        r.footer_key@ == "command-skip-author"@,
        r.color == ReplyColor::Yellow,
        skipped_known ==> r.description_key@ == "command-skip-skipped"@ && (r.field_key matches Some(
            k,
        ) && k@ == "command-skip-requested-by"@),
        !skipped_known ==> r.description_key@ == "command-skip-no-metadata"@ && r.field_key is None,
{
    if skipped_known {
        SkipReply {
            description_key: "command-skip-skipped",
            footer_key: "command-skip-author",
            field_key: Some("command-skip-requested-by"),
            color: ReplyColor::Yellow,
        }
    } else {
        SkipReply {
            description_key: "command-skip-no-metadata",
            footer_key: "command-skip-author",
            field_key: None,
            color: ReplyColor::Yellow,
        }
    }
}

/// One line of the music help: the command's usage, then `: description`
/// where it has one.
pub open spec fn help_line_of(usage: Seq<char>, description: Option<Seq<char>>) -> Seq<char> {
    match description {
        Some(d) => usage + ": "@ + d,
        None => usage,
    }
}

pub fn music_help_line(usage: &str, description: &Option<String>) -> (r: String)
    ensures
        r@ == help_line_of(
            usage@,
            match *description {
                Some(d) => Some(d@),
                None => None,
            },
        ),
{
    let mut r = String::from_str(usage);
    match description {
        Some(d) => {
            r.append(": ");
            r.append(d.as_str());
        },
        None => {},
    }
    r
}

/// The author line of the music help: `Music commands - Prefix: prefix`.
pub fn music_help_author(prefix: &str) -> (r: String)
    ensures
        r@ == "Music commands - Prefix: "@ + prefix@,
{
    let mut r = String::from_str("Music commands - Prefix: ");
    r.append(prefix);
    r
}

/// The body of the music help, shown in Blue: the music note, then the help
/// lines joined by newlines in a `fix` code block.
pub fn music_help_description(note: &str, lines: &Vec<String>) -> (r: String)
    ensures
        r@ == note@ + "\n```fix\n"@ + join(views(lines@), "\n"@) + "```"@,
{
    let mut r = String::from_str(note);
    r.append("\n```fix\n");
    let body = join_strings(lines, "\n");
    r.append(body.as_str());
    r.append("```");
    r
}

/// The reply of `join`: Red `command-join-nochannel` where the author is in
/// no voice channel; else Green `command-join-joined` or Red
/// `command-join-failed` as joining went.
pub fn join_reply(in_voice: bool, joined: bool) -> (r: Reply)
    ensures
        !in_voice ==> r.key@ == "command-join-nochannel"@ && r.color == Some(ReplyColor::Red),
        in_voice && joined ==> r.key@ == "command-join-joined"@ && r.color == Some(
            ReplyColor::Green,
        ),
        in_voice && !joined ==> r.key@ == "command-join-failed"@ && r.color == Some(
            ReplyColor::Red,
        ),
        !r.ephemeral,
{
    if !in_voice {
        Reply { key: "command-join-nochannel", color: Some(ReplyColor::Red), ephemeral: false }
    } else if joined {
        Reply { key: "command-join-joined", color: Some(ReplyColor::Green), ephemeral: false }
    } else {
        Reply { key: "command-join-failed", color: Some(ReplyColor::Red), ephemeral: false }
    }
}

/// `loop` reads each of `current`, `song`, `track`, `one` and `1` as a
/// request to loop the current track, `all` and `queue` as a request to loop
/// the queue (the argument's help text names `current/one/all/queue`), and
/// any other word as no valid request; without a word it loops the queue.
pub proof fn law_loop_words(command_args: Seq<ParsedArg>)
    ensures
        ({
            let w = loop_word(command_args);
            &&& (w == "current"@ || w == "song"@ || w == "track"@ || w == "one"@ || w == "1"@)
                ==> loop_request_of(w) == LoopRequest::CurrentTrack
            &&& (w == "all"@ || w == "queue"@) ==> loop_request_of(w) == LoopRequest::Queue
            &&& !(w == "current"@ || w == "song"@ || w == "track"@ || w == "one"@ || w == "1"@
                || w == "all"@ || w == "queue"@) ==> loop_request_of(w) == LoopRequest::Invalid
        }),
        !(command_args.len() > 0 && command_args[0] is Arg) ==> loop_request_of(
            loop_word(command_args),
        ) == LoopRequest::Queue,
        command_args.len() > 0 && command_args[0] is Arg ==> loop_word(command_args)
            == command_args[0]->Arg_0@,
{
    reveal_strlit("current");
    reveal_strlit("song");
    reveal_strlit("track");
    reveal_strlit("one");
    reveal_strlit("1");
    reveal_strlit("all");
    reveal_strlit("queue");
    assert("current"@.len() == 7 && "current"@[0] == 'c');
    assert("song"@.len() == 4 && "song"@[0] == 's');
    assert("track"@.len() == 5 && "track"@[0] == 't');
    assert("one"@.len() == 3 && "one"@[0] == 'o');
    assert("1"@.len() == 1 && "1"@[0] == '1');
    assert("all"@.len() == 3 && "all"@[0] == 'a');
    assert("queue"@.len() == 5 && "queue"@[0] == 'q');
}

} // verus!
