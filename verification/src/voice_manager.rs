//! Per-guild music state: the queue of waiting track URLs, the loop mode,
//! and the song now playing, with the decisions taken when tracks start,
//! end, are skipped or are requested.

use std::collections::HashMap;
use vstd::prelude::*;
use crate::messages::{DiscordEmbed, DiscordEmbedField, Palette, ReplyColor};

verus! {

broadcast use vstd::std_specs::hash::group_hash_axioms;

/// How the player repeats tracks.
#[derive(Clone, Copy, Debug, PartialEq, Eq, Structural)]
pub enum PlayerLoopState {
    NoLoop,
    LoopCurrentTrack,
    LoopQueue,
}

/// What is known of a track: the plain values of its metadata.
pub struct TrackMetadata {
    pub title: Option<String>,
    pub source_url: Option<String>,
    pub thumbnail: Option<String>,
    pub duration_secs: Option<u64>,
}

/// The user who asked for a track.
pub struct TrackRequester {
    pub id: u64,
    pub name: String,
    pub avatar: Option<String>,
}

/// A copy of an optional string, equal to it.
pub fn clone_opt_string(s: &Option<String>) -> (r: Option<String>)
    ensures
        r == *s,
{
    match s {
        Some(t) => Some(t.clone()),
        None => None,
    }
}

impl Clone for TrackMetadata {
    fn clone(&self) -> (r: Self)
        ensures
            r == *self,
    {
        TrackMetadata {
            title: clone_opt_string(&self.title),
            source_url: clone_opt_string(&self.source_url),
            thumbnail: clone_opt_string(&self.thumbnail),
            duration_secs: self.duration_secs,
        }
    }
}

impl Clone for TrackRequester {
    fn clone(&self) -> (r: Self)
        ensures
            r == *self,
    {
        TrackRequester {
            id: self.id,
            name: self.name.clone(),
            avatar: clone_opt_string(&self.avatar),
        }
    }
}

/// A copy of a vector of strings, equal to it.
pub fn clone_strings(v: &Vec<String>) -> (r: Vec<String>)
    ensures
        r@ == v@,
{
    let mut r: Vec<String> = Vec::new();
    let mut i: usize = 0;
    while i < v.len()
        invariant
            i <= v.len(),
            r@ == v@.take(i as int),
        decreases v.len() - i,
    {
        r.push(v[i].clone());
        assert(v@.take(i + 1) =~= v@.take(i as int).push(v@[i as int]));
        i += 1;
    }
    assert(v@.take(i as int) =~= v@);
    r
}

/// The queue after a track with URL `url` ended in loop mode `state`:
/// in `LoopQueue` mode the finished track goes back to the end of the queue.
pub open spec fn queue_after_end(q: Seq<String>, url: String, state: PlayerLoopState) -> Seq<String> {
    if state == PlayerLoopState::LoopQueue {
        q.push(url)
    } else {
        q
    }
}

/// The next track taken from the front of `q`, and the queue that remains.
pub open spec fn pop_front(q: Seq<String>) -> (Option<String>, Seq<String>) {
    if q.len() > 0 {
        (Some(q[0]), q.drop_first())
    } else {
        (None, q)
    }
}

/// The queue after skipping to the 1-indexed `position`, if that position exists:
/// the tracks before it are dropped, so it becomes the next to play.
pub open spec fn skip_to(q: Seq<String>, position: int) -> Option<Seq<String>> {
    if 1 <= position <= q.len() {
        Some(q.skip(position - 1))
    } else {
        None
    }
}

/// The music state of every guild, keyed by guild id.
pub struct VoiceManager {
    /// Upcoming track URLs, per guild.
    pub waiting_track_urls: HashMap<u64, Vec<String>>,
    /// The song now playing and who asked for it, per guild.
    pub current_song: HashMap<u64, (TrackMetadata, TrackRequester)>,
    /// The loop mode, per guild.
    pub loop_state: HashMap<u64, PlayerLoopState>,
    /// URL of the spinning disk icon shown with "now playing" messages.
    pub spinning_disk: String,
}

impl VoiceManager {
    /// The waiting queue of `guild` (empty where none was made).
    pub open spec fn waiting(&self, guild: u64) -> Seq<String> {
        if self.waiting_track_urls@.contains_key(guild) {
            self.waiting_track_urls@[guild]@
        } else {
            Seq::empty()
        }
    }

    /// The loop mode of `guild` (`NoLoop` where none was set).
    pub open spec fn loop_mode(&self, guild: u64) -> PlayerLoopState {
        if self.loop_state@.contains_key(guild) {
            self.loop_state@[guild]
        } else {
            PlayerLoopState::NoLoop
        }
    }

    /// The song now playing in `guild`, if any.
    pub open spec fn playing(&self, guild: u64) -> Option<(TrackMetadata, TrackRequester)> {
        if self.current_song@.contains_key(guild) {
            Some(self.current_song@[guild])
        } else {
            None
        }
    }

    /// Whether `guild` has an entry, possibly empty, in the map of waiting queues.
    pub open spec fn has_queue(&self, guild: u64) -> bool {
        self.waiting_track_urls@.contains_key(guild)
    }

    /// Only the waiting queue of `guild`, and whether it has one, may differ
    /// between `self` and `other`.
    pub open spec fn same_except_queue(&self, other: &Self, guild: u64) -> bool {
        &&& forall|g: u64| g != guild ==> self.waiting(g) == other.waiting(g)
        &&& forall|g: u64| g != guild ==> self.has_queue(g) == other.has_queue(g)
        &&& forall|g: u64| self.loop_mode(g) == other.loop_mode(g)
        &&& forall|g: u64| self.playing(g) == other.playing(g)
        &&& self.spinning_disk@ == other.spinning_disk@
    }

    /// A waiting queue is no longer than a vector can be.
    pub proof fn lemma_queue_len_bound(&self, guild: u64)
        ensures
            self.waiting(guild).len() <= usize::MAX,
    {
        if self.waiting_track_urls@.contains_key(guild) {
            let q = self.waiting_track_urls@[guild];
            assert(q@.len() == q.len());
        }
    }

    /// A manager with no queue, no loop mode and no song in any guild.
    pub fn new() -> (r: Self)
        ensures
            forall|g: u64| r.waiting(g) == Seq::<String>::empty(),
            forall|g: u64| r.loop_mode(g) == PlayerLoopState::NoLoop,
            forall|g: u64| r.playing(g) is None,
            r.spinning_disk@ == "https://cdn.darrennathanael.com/icons/spinning_disk.gif"@,
    {
        VoiceManager {
            waiting_track_urls: HashMap::new(),
            current_song: HashMap::new(),
            loop_state: HashMap::new(),
            spinning_disk: String::from_str("https://cdn.darrennathanael.com/icons/spinning_disk.gif"),
        }
    }

    /// Takes the entry of `guild` out of the map, if it has one.
    fn take_queue(&mut self, guild: u64) -> (q: Option<Vec<String>>)
        ensures
            q is Some == old(self).has_queue(guild),
            q is Some ==> q->0@ == old(self).waiting(guild) && q->0
                == old(self).waiting_track_urls@[guild],
            final(self).waiting_track_urls@ == old(self).waiting_track_urls@.remove(guild),
            final(self).current_song == old(self).current_song,
            final(self).loop_state == old(self).loop_state,
            final(self).spinning_disk == old(self).spinning_disk,
    {
        self.waiting_track_urls.remove(&guild)
    }

    /// Appends `urls` to the waiting queue of `guild`, which then has an entry.
    pub fn extend_waiting_queue(&mut self, guild: u64, urls: &Vec<String>)
        ensures
            final(self).waiting(guild) == old(self).waiting(guild) + urls@,
            final(self).has_queue(guild),
            final(self).same_except_queue(old(self), guild),
    {
        let mut q = match self.take_queue(guild) {
            Some(q) => q,
            None => Vec::new(),
        };
        let mut more = clone_strings(urls);
        q.append(&mut more);
        self.waiting_track_urls.insert(guild, q);
    }

    /// Removes the waiting queue of `guild`: it has no entry afterwards.
    pub fn clear_waiting_queue(&mut self, guild: u64)
        ensures
            final(self).waiting(guild) == Seq::<String>::empty(),
            !final(self).has_queue(guild),
            final(self).same_except_queue(old(self), guild),
    {
        self.waiting_track_urls.remove(&guild);
    }

    /// Removes and returns the first URL of the waiting queue of `guild`.
    /// Whether the guild has an entry does not change.
    pub fn pop_next_track_url(&mut self, guild: u64) -> (r: Option<String>)
        ensures
            (r, final(self).waiting(guild)) == pop_front(old(self).waiting(guild)),
            final(self).has_queue(guild) == old(self).has_queue(guild),
            final(self).same_except_queue(old(self), guild),
    {
        match self.take_queue(guild) {
            None => None,
            Some(mut q) => {
                if q.len() == 0 {
                    self.waiting_track_urls.insert(guild, q);
                    return None;
                }
                let first = q.remove(0);
                self.waiting_track_urls.insert(guild, q);
                Some(first)
            },
        }
    }

    /// A copy of the waiting queue of `guild`; a guild without an entry gets
    /// an empty one.
    pub fn get_waiting_queue(&mut self, guild: u64) -> (r: Vec<String>)
        ensures
            r@ == old(self).waiting(guild),
            final(self).waiting(guild) == old(self).waiting(guild),
            final(self).has_queue(guild),
            final(self).same_except_queue(old(self), guild),
    {
        match self.waiting_track_urls.get(&guild) {
            Some(q) => clone_strings(q),
            None => {
                self.waiting_track_urls.insert(guild, Vec::new());
                Vec::new()
            },
        }
    }

    /// Records the song now playing in `guild`, or that none is.
    pub fn set_current_song(&mut self, guild: u64, info: Option<(TrackMetadata, TrackRequester)>)
        ensures
            final(self).playing(guild) == info,
            forall|g: u64| g != guild ==> final(self).playing(g) == old(self).playing(g),
            final(self).waiting_track_urls == old(self).waiting_track_urls,
            final(self).loop_state == old(self).loop_state,
            final(self).spinning_disk == old(self).spinning_disk,
    {
        match info {
            Some(song) => {
                self.current_song.insert(guild, song);
            },
            None => {
                self.current_song.remove(&guild);
            },
        }
    }

    /// A copy of the song now playing in `guild`, if any.
    pub fn get_current_song(&self, guild: u64) -> (r: Option<(TrackMetadata, TrackRequester)>)
        ensures
            r == self.playing(guild),
    {
        match self.current_song.get(&guild) {
            Some(song) => Some((song.0.clone(), song.1.clone())),
            None => None,
        }
    }

    /// Skips to the 1-indexed `position` of the waiting queue of `guild`,
    /// dropping the tracks before it; `false`, with nothing changed, where
    /// the guild has no queue or the position is 0 or past its end.
    pub fn skip_to_position(&mut self, guild: u64, position: usize) -> (r: bool)
        ensures
            r == (old(self).has_queue(guild) && skip_to(
                old(self).waiting(guild),
                position as int,
            ) is Some),
            r ==> final(self).waiting(guild) == skip_to(
                old(self).waiting(guild),
                position as int,
            )->0,
            !r ==> final(self).waiting_track_urls@ == old(self).waiting_track_urls@,
            final(self).has_queue(guild) == old(self).has_queue(guild),
            final(self).same_except_queue(old(self), guild),
    {
        let ghost before = self.waiting_track_urls@;
        let q = match self.take_queue(guild) {
            None => {
                assert(self.waiting_track_urls@ =~= before);
                return false;
            },
            Some(q) => q,
        };
        if position == 0 || position > q.len() {
            self.waiting_track_urls.insert(guild, q);
            assert(self.waiting_track_urls@ =~= before);
            return false;
        }
        let mut rest: Vec<String> = Vec::new();
        let mut i = position - 1;
        while i < q.len()
            invariant
                1 <= position <= q.len(),
                position - 1 <= i <= q.len(),
                rest@ == q@.subrange(position - 1, i as int),
            decreases q.len() - i,
        {
            rest.push(q[i].clone());
            assert(q@.subrange(position - 1, i + 1) =~= q@.subrange(position - 1, i as int).push(
                q@[i as int],
            ));
            i += 1;
        }
        assert(rest@ =~= q@.skip(position - 1));
        self.waiting_track_urls.insert(guild, rest);
        true
    }

    /// Sets the loop mode of `guild`.
    pub fn set_loop_state(&mut self, guild: u64, state: PlayerLoopState)
        ensures
            final(self).loop_mode(guild) == state,
            forall|g: u64| g != guild ==> final(self).loop_mode(g) == old(self).loop_mode(g),
            final(self).waiting_track_urls == old(self).waiting_track_urls,
            final(self).current_song == old(self).current_song,
            final(self).spinning_disk == old(self).spinning_disk,
    {
        self.loop_state.insert(guild, state);
    }

    /// The loop mode of `guild`, `NoLoop` where none was set.
    pub fn get_loop_state(&self, guild: u64) -> (r: PlayerLoopState)
        ensures
            r == self.loop_mode(guild),
    {
        match self.loop_state.get(&guild) {
            Some(s) => *s,
            None => PlayerLoopState::NoLoop,
        }
    }

    /// A track started playing in `guild`: it becomes the song now playing.
    pub fn track_started(
        &mut self,
        guild: u64,
        metadata: TrackMetadata,
        requested_by: TrackRequester,
    )
        ensures
            final(self).playing(guild) == Some((metadata, requested_by)),
            forall|g: u64| g != guild ==> final(self).playing(g) == old(self).playing(g),
            final(self).waiting_track_urls == old(self).waiting_track_urls,
            final(self).loop_state == old(self).loop_state,
            final(self).spinning_disk == old(self).spinning_disk,
    {
        self.set_current_song(guild, Some((metadata, requested_by)));
    }

    /// The track with URL `url` ended in `guild`. In `LoopQueue` mode it goes
    /// back to the end of the waiting queue; nothing is playing any more; and
    /// the next URL, if any, is taken from the front of the queue to be played.
    pub fn track_ended(&mut self, guild: u64, url: &String) -> (next: Option<String>)
        ensures
            (next, final(self).waiting(guild)) == pop_front(
                queue_after_end(old(self).waiting(guild), *url, old(self).loop_mode(guild)),
            ),
            final(self).playing(guild) is None,
            final(self).has_queue(guild) == (old(self).has_queue(guild) || old(self).loop_mode(guild)
                == PlayerLoopState::LoopQueue),
            forall|g: u64| g != guild ==> final(self).playing(g) == old(self).playing(g),
            forall|g: u64| g != guild ==> final(self).waiting(g) == old(self).waiting(g),
            forall|g: u64| g != guild ==> final(self).has_queue(g) == old(self).has_queue(g),
            forall|g: u64| final(self).loop_mode(g) == old(self).loop_mode(g),
            final(self).spinning_disk@ == old(self).spinning_disk@,
    {
        let state = self.get_loop_state(guild);
        if state == PlayerLoopState::LoopQueue {
            let mut again: Vec<String> = Vec::new();
            again.push(url.clone());
            self.extend_waiting_queue(guild, &again);
            assert(old(self).waiting(guild) + again@ =~= old(self).waiting(guild).push(*url));
        }
        self.set_current_song(guild, None);
        self.pop_next_track_url(guild)
    }

    /// Tracks `urls` were requested in `guild`. Where the player is idle the
    /// first is to be played at once and the rest wait; otherwise all of them
    /// join the end of the waiting queue. Returns the URL to play at once.
    pub fn enqueue_tracks(&mut self, guild: u64, urls: &Vec<String>, player_idle: bool) -> (now:
        Option<String>)
        requires
            urls.len() > 0,
        ensures
            player_idle ==> now == Some(urls@[0]) && final(self).waiting(guild) == old(self).waiting(guild) + urls@.drop_first(),
            !player_idle ==> now is None && final(self).waiting(guild) == old(self).waiting(
                guild,
            ) + urls@,
            final(self).has_queue(guild),
            final(self).same_except_queue(old(self), guild),
    {
        if player_idle {
            let mut rest: Vec<String> = Vec::new();
            let mut i: usize = 1;
            while i < urls.len()
                invariant
                    1 <= i <= urls.len(),
                    rest@ == urls@.subrange(1, i as int),
                decreases urls.len() - i,
            {
                rest.push(urls[i].clone());
                assert(urls@.subrange(1, i + 1) =~= urls@.subrange(1, i as int).push(
                    urls@[i as int],
                ));
                i += 1;
            }
            assert(rest@ =~= urls@.drop_first());
            self.extend_waiting_queue(guild, &rest);
            Some(urls[0].clone())
        } else {
            self.extend_waiting_queue(guild, urls);
            None
        }
    }
}

/// Appending to a queue never changes which track comes next: the queue is
/// first in, first out.
pub proof fn law_queue_fifo(q: Seq<String>, urls: Seq<String>)
    ensures
        q.len() > 0 ==> pop_front(q + urls) == (Some(q[0]), q.drop_first() + urls),
        q.len() == 0 && urls.len() > 0 ==> pop_front(q + urls) == (
            Some(urls[0]),
            urls.drop_first(),
        ),
{
    if q.len() > 0 {
        assert((q + urls).drop_first() =~= q.drop_first() + urls);
    } else {
        assert(q + urls =~= urls);
    }
}

/// After skipping to a 1-indexed position that exists, the track at that
/// position is the next one taken from the queue.
pub proof fn law_skip_then_next(q: Seq<String>, position: int)
    requires
        1 <= position <= q.len(),
    ensures
        pop_front(skip_to(q, position)->0).0 == Some(q[position - 1]),
{
}

/// A skip to a position that does not exist (0, or past the end) is refused.
pub proof fn law_skip_out_of_range(q: Seq<String>, position: int)
    requires
        position < 1 || position > q.len(),
    ensures
        skip_to(q, position) is None,
{
}

/// When a track ends and the next one is taken, no track is lost: in
/// `LoopQueue` mode the next track followed by the new queue is the old queue
/// with the finished track at its end; in the other modes it is the old queue.
pub proof fn law_track_end_keeps_tracks(q: Seq<String>, url: String, state: PlayerLoopState)
    requires
        queue_after_end(q, url, state).len() > 0,
    ensures
        ({
            let (next, rest) = pop_front(queue_after_end(q, url, state));
            seq![next->0] + rest == if state == PlayerLoopState::LoopQueue {
                q.push(url)
            } else {
                q
            }
        }),
{
    let qq = queue_after_end(q, url, state);
    assert(seq![qq[0]] + qq.drop_first() =~= qq);
}

/// The title shown for a track: its own, or `<UNKNOWN>`.
pub open spec fn shown_title(title: Option<String>) -> Seq<char> {
    match title {
        Some(t) => t@,
        None => "<UNKNOWN>"@,
    }
}

/// `e` is the "Now playing" embed of a track: the spinning disk `disk` as
/// author icon, the track's title (or `<UNKNOWN>`) linking to `url`, its
/// thumbnail, one inline `Duration` field (`<Unknown duration>` where the
/// duration is not known), `Requested by @name` in the footer with the
/// requester's avatar `avatar_url`, and the colour `color`.
pub open spec fn is_now_playing(
    e: DiscordEmbed,
    metadata: TrackMetadata,
    requested_by: TrackRequester,
    url: Option<String>,
    disk: Seq<char>,
    duration_text: Option<String>,
    avatar_url: Option<String>,
    color: u32,
) -> bool {
    &&& (e.author_name matches Some(a) && a@ == "Now playing"@)
    &&& (e.author_icon_url matches Some(a) && a@ == disk)
    &&& (e.title matches Some(t) && t@ == shown_title(metadata.title))
    &&& e.url == url
    &&& e.thumbnail == metadata.thumbnail
    &&& (e.fields matches Some(f) && f@.len() == 1 && f@[0].name@ == "Duration"@ && f@[0].value@
        == (match duration_text {
        Some(d) => d@,
        None => "<Unknown duration>"@,
    }) && f@[0].inline)
    &&& (e.footer_text matches Some(t) && t@ == "Requested by @"@ + requested_by.name@)
    &&& e.footer_icon_url == avatar_url
    &&& e.color == Some(color)
    &&& e.description is None
}

/// The "Now playing" embed, sent when a track starts and by `song`.
/// `duration_text` is the formatted duration, `avatar_url` the requester's
/// avatar and `color` the embed's color.
pub fn now_playing_embed(
    metadata: &TrackMetadata,
    requested_by: &TrackRequester,
    url: Option<String>,
    spinning_disk: &str,
    duration_text: Option<String>,
    avatar_url: Option<String>,
    color: u32,
) -> (r: DiscordEmbed)
    ensures
        is_now_playing(
            r,
            *metadata,
            *requested_by,
            url,
            spinning_disk@,
            duration_text,
            avatar_url,
            color,
        ),
{
    let title = match &metadata.title {
        Some(t) => t.clone(),
        None => String::from_str("<UNKNOWN>"),
    };
    let value = match duration_text {
        Some(d) => d,
        None => String::from_str("<Unknown duration>"),
    };
    let mut footer = String::from_str("Requested by @");
    footer.append(requested_by.name.as_str());
    let field = DiscordEmbedField { name: String::from_str("Duration"), value, inline: true };
    DiscordEmbed {
        author_name: Some(String::from_str("Now playing")),
        author_icon_url: Some(String::from_str(spinning_disk)),
        title: Some(title),
        url,
        description: None,
        thumbnail: clone_opt_string(&metadata.thumbnail),
        fields: Some(vec![field]),
        footer_text: Some(footer),
        footer_icon_url: avatar_url,
        color: Some(color),
    }
}

impl VoiceManager {
    /// A track requested by the URL `url` started playing in `guild`: it
    /// becomes the song now playing, and the Green "Now playing" embed that
    /// links to `url` is returned to be sent to the channel of the request.
    pub fn on_track_play(
        &mut self,
        guild: u64,
        metadata: TrackMetadata,
        requested_by: TrackRequester,
        url: &String,
        duration_text: Option<String>,
        avatar_url: Option<String>,
        palette: &Palette,
    ) -> (r: DiscordEmbed)
        ensures
            final(self).playing(guild) == Some((metadata, requested_by)),
            forall|g: u64| g != guild ==> final(self).playing(g) == old(self).playing(g),
            final(self).waiting_track_urls == old(self).waiting_track_urls,
            final(self).loop_state == old(self).loop_state,
            final(self).spinning_disk == old(self).spinning_disk,
            is_now_playing(
                r,
                metadata,
                requested_by,
                Some(*url),
                old(self).spinning_disk@,
                duration_text,
                avatar_url,
                palette.green,
            ),
    {
        let embed = now_playing_embed(
            &metadata,
            &requested_by,
            Some(url.clone()),
            self.spinning_disk.as_str(),
            duration_text,
            avatar_url,
            palette.green,
        );
        self.track_started(guild, metadata, requested_by);
        embed
    }

    /// What `song` answers in `guild`: the plain text refusal where the author
    /// is not in the bot's voice channel; nothing where no song plays; else
    /// the Green "Now playing" embed of the song, linking to its source URL.
    pub fn current_song_reply(
        &self,
        guild: u64,
        same_channel: bool,
        duration_text: Option<String>,
        avatar_url: Option<String>,
        palette: &Palette,
    ) -> (r: CurrentSongReply)
        ensures
            !same_channel ==> (r matches CurrentSongReply::Refused(t) && t@
                == "You need to be in the same voice channel as the bot to use this command"@),
            same_channel ==> match self.playing(guild) {
                None => r is Nothing,
                Some((m, who)) => (r matches CurrentSongReply::NowPlaying(e) && is_now_playing(
                    e,
                    m,
                    who,
                    m.source_url,
                    self.spinning_disk@,
                    duration_text,
                    avatar_url,
                    palette.green,
                )),
            },
    {
        if !same_channel {
            return CurrentSongReply::Refused(
                "You need to be in the same voice channel as the bot to use this command",
            );
        }
        match self.get_current_song(guild) {
            None => CurrentSongReply::Nothing,
            Some((metadata, requested_by)) => {
                let url = clone_opt_string(&metadata.source_url);
                CurrentSongReply::NowPlaying(
                    now_playing_embed(
                        &metadata,
                        &requested_by,
                        url,
                        self.spinning_disk.as_str(),
                        duration_text,
                        avatar_url,
                        palette.green,
                    ),
                )
            },
        }
    }
}

/// What `song` answers.
pub enum CurrentSongReply {
    /// A plain text refusal.
    Refused(&'static str),
    /// No answer: no song plays.
    Nothing,
    /// The embed of the song now playing.
    NowPlaying(DiscordEmbed),
}

/// The notice sent when a track ends and no track follows it: a Red embed
/// whose description is `No more track to play..`.
pub fn track_end_notice(next: &Option<String>) -> (r: Option<(&'static str, ReplyColor)>)
    ensures
        next is None ==> (r matches Some((t, c)) && t@ == "No more track to play.."@ && c
            == ReplyColor::Red),
        next is Some ==> r is None,
{
    match next {
        None => Some(("No more track to play..", ReplyColor::Red)),
        Some(_) => None,
    }
}

/// What follows the end of a track: the next URL to queue on the player, or
/// the Red `No more track to play..` notice.
pub enum TrackEndStep {
    PlayNext(String),
    Notice(&'static str, ReplyColor),
}

impl VoiceManager {
    /// The track requested by `url` ended in `guild`: the queue moves on as
    /// `track_ended` says, and either the next track is to be queued on the
    /// player, or, where none follows, the Red notice is to be sent.
    pub fn on_track_end(&mut self, guild: u64, url: &String) -> (r: TrackEndStep)
        ensures
            match pop_front(
                queue_after_end(old(self).waiting(guild), *url, old(self).loop_mode(guild)),
            ) {
                (Some(next), rest) => (r matches TrackEndStep::PlayNext(n) && n == next)
                    && final(self).waiting(guild) == rest,
                (None, rest) => (r matches TrackEndStep::Notice(t, c) && t@
                    == "No more track to play.."@ && c == ReplyColor::Red) && final(self).waiting(
                    guild,
                ) == rest,
            },
            final(self).playing(guild) is None,
            final(self).has_queue(guild) == (old(self).has_queue(guild) || old(self).loop_mode(guild)
                == PlayerLoopState::LoopQueue),
            forall|g: u64| g != guild ==> final(self).playing(g) == old(self).playing(g),
            forall|g: u64| g != guild ==> final(self).waiting(g) == old(self).waiting(g),
            forall|g: u64| g != guild ==> final(self).has_queue(g) == old(self).has_queue(g),
            forall|g: u64| final(self).loop_mode(g) == old(self).loop_mode(g),
            final(self).spinning_disk@ == old(self).spinning_disk@,
    {
        match self.track_ended(guild, url) {
            Some(next) => TrackEndStep::PlayNext(next),
            None => TrackEndStep::Notice("No more track to play..", ReplyColor::Red),
        }
    }
}

} // verus!
