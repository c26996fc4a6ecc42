//! Who is away from keyboard in each guild: their message, since when, how
//! many messages they have sent since, and who wants to be told when they
//! are back; and the user mentions in a message.

use std::collections::HashMap;
use vstd::prelude::*;
use crate::message_create::mention_of;
use crate::buttons::{afk_button_id, afk_button_id_of};
use crate::messages::{ButtonSpec, Reply, ReplyColor};
use crate::text::{
    decimal, is_digit, law_parse_reads_decimal, lemma_decimal,
    chars_of, has_prefix, has_suffix, matches_at, parse_u64_chars, parse_u64_spec, push_decimal,
    split_whitespace, views, words,
};

verus! {

broadcast use vstd::std_specs::hash::group_hash_axioms;

/// The AFK state of one user.
pub struct UserAfkStatus {
    /// What they left as a message, if anything.
    pub message: Option<String>,
    /// When they went AFK, in seconds since the Unix epoch.
    pub since: u64,
    /// How many messages they sent since.
    pub activities_count: u32,
    /// Who asked to be told when they are back, without repetition.
    pub notify: Vec<u64>,
}

impl UserAfkStatus {
    pub fn new(message: Option<String>, since: u64) -> (r: Self)
        ensures
            r.message == message,
            r.since == since,
            r.activities_count == 0,
            r.notify@ == Seq::<u64>::empty(),
    {
        UserAfkStatus { message, since, activities_count: 0, notify: Vec::new() }
    }
}

/// The number of messages after which a user is no longer AFK: the next
/// message past this many ends it.
pub const ACTIVITY_LIMIT: u32 = 3;

/// The status after the user sent one more message: `None` once the count
/// passes the limit, for then the user is back.
pub open spec fn after_activity(st: UserAfkStatus) -> Option<UserAfkStatus> {
    if st.activities_count + 1 > ACTIVITY_LIMIT {
        None
    } else {
        Some(UserAfkStatus { activities_count: (st.activities_count + 1) as u32, ..st })
    }
}

/// `list` with `user` added at its end unless it is already there.
pub open spec fn with_notify(list: Seq<u64>, user: u64) -> Seq<u64> {
    if list.contains(user) {
        list
    } else {
        list.push(user)
    }
}

/// The AFK users of every guild.
pub struct AfkRegistry {
    pub users: HashMap<u64, HashMap<u64, UserAfkStatus>>,
}

impl AfkRegistry {
    /// The AFK state of `user` in `guild`, if they are AFK there.
    pub open spec fn status(&self, guild: u64, user: u64) -> Option<UserAfkStatus> {
        if self.users@.contains_key(guild) && self.users@[guild]@.contains_key(user) {
            Some(self.users@[guild]@[user])
        } else {
            None
        }
    }

    /// Every AFK user has a count within the limit and no repeated notifications.
    pub open spec fn wf(&self) -> bool {
        forall|g: u64, u: u64|
            #![trigger self.status(g, u)]
            self.status(g, u) is Some ==> self.status(g, u)->0.activities_count <= ACTIVITY_LIMIT
                && self.status(g, u)->0.notify@.no_duplicates()
    }

    /// Nobody's state other than that of `user` in `guild` differs.
    pub open spec fn same_except(&self, other: &Self, guild: u64, user: u64) -> bool {
        forall|g: u64, u: u64|
            #![trigger self.status(g, u)]
            !(g == guild && u == user) ==> self.status(g, u) == other.status(g, u)
    }

    pub fn new() -> (r: Self)
        ensures
            r.wf(),
            forall|g: u64, u: u64| r.status(g, u) is None,
    {
        AfkRegistry { users: HashMap::new() }
    }

    /// Takes the AFK users of `guild` out of the registry.
    fn take_guild(&mut self, guild: u64) -> (m: HashMap<u64, UserAfkStatus>)
        ensures
            final(self).users@ == old(self).users@.remove(guild),
            forall|u: u64|
                #![trigger m@.contains_key(u)]
                m@.contains_key(u) == (old(self).status(guild, u) is Some),
            forall|u: u64|
                #![trigger m@[u]]
                m@.contains_key(u) ==> Some(m@[u]) == old(self).status(guild, u),
    {
        match self.users.remove(&guild) {
            Some(m) => m,
            None => HashMap::new(),
        }
    }

    /// Marks `user` as AFK in `guild` since `since`, with `message`. A user
    /// who already was AFK keeps their count and notification list.
    pub fn set_afk(&mut self, guild: u64, user: u64, message: Option<String>, since: u64)
        requires
            old(self).wf(),
        ensures
            final(self).wf(),
            final(self).status(guild, user) is Some,
            final(self).status(guild, user)->0.message == message,
            final(self).status(guild, user)->0.since == since,
            match old(self).status(guild, user) {
                Some(st) => final(self).status(guild, user)->0.activities_count
                    == st.activities_count && final(self).status(guild, user)->0.notify
                    == st.notify,
                None => final(self).status(guild, user)->0.activities_count == 0 && final(self).status(guild, user)->0.notify@ == Seq::<u64>::empty(),
            },
            final(self).same_except(old(self), guild, user),
    {
        let mut inner = self.take_guild(guild);
        let st = match inner.remove(&user) {
            Some(st) => UserAfkStatus { message, since, ..st },
            None => UserAfkStatus::new(message, since),
        };
        inner.insert(user, st);
        self.users.insert(guild, inner);
        assert forall|g: u64, u: u64| !(g == guild && u == user) implies self.status(g, u) == old(self).status(g, u) by {
            if g == guild {
                assert(inner@.contains_key(u) == old(self).status(guild, u) is Some);
            }
        }
    }

    /// `user` sent a message in `guild`. Where they are AFK, it counts as an
    /// activity; past the limit they are back: they leave the registry and
    /// the users to notify are returned.
    pub fn record_activity(&mut self, guild: u64, user: u64) -> (back: Option<Vec<u64>>)
        requires
            old(self).wf(),
        ensures
            final(self).wf(),
            match old(self).status(guild, user) {
                None => back is None && final(self).status(guild, user) is None,
                Some(st) => match after_activity(st) {
                    None => back is Some && back->0@ == st.notify@ && final(self).status(
                        guild,
                        user,
                    ) is None,
                    Some(next) => back is None && final(self).status(guild, user) == Some(next),
                },
            },
            final(self).same_except(old(self), guild, user),
    {
        let mut inner = self.take_guild(guild);
        let r = match inner.remove(&user) {
            None => None,
            Some(st) => {
                if st.activities_count + 1 > ACTIVITY_LIMIT {
                    Some(st.notify)
                } else {
                    inner.insert(
                        user,
                        UserAfkStatus { activities_count: st.activities_count + 1, ..st },
                    );
                    None
                }
            },
        };
        self.users.insert(guild, inner);
        assert forall|g: u64, u: u64| !(g == guild && u == user) implies self.status(g, u) == old(self).status(g, u) by {
            if g == guild {
                assert(inner@.contains_key(u) == old(self).status(guild, u) is Some);
            }
        }
        r
    }

    /// When `user` went AFK in `guild` and their message (empty where they
    /// left none), if they are AFK there.
    pub fn afk_info(&self, guild: u64, user: u64) -> (r: Option<(u64, String)>)
        ensures
            match self.status(guild, user) {
                None => r is None,
                Some(st) => r matches Some((since, m)) && since == st.since && m@ == match st.message {
                    Some(msg) => msg@,
                    None => Seq::<char>::empty(),
                },
            },
    {
        match self.users.get(&guild) {
            None => None,
            Some(inner) => match inner.get(&user) {
                None => None,
                Some(st) => {
                    let m = match &st.message {
                        Some(m) => m.clone(),
                        None => String::new(),
                    };
                    Some((st.since, m))
                },
            },
        }
    }

    /// `notify_user` asks to be told when `afk_user` is back. Returns whether
    /// `afk_user` is AFK in `guild`; only then is the request recorded, once.
    pub fn add_notification(&mut self, guild: u64, afk_user: u64, notify_user: u64) -> (added:
        bool)
        requires
            old(self).wf(),
        ensures
            final(self).wf(),
            added == (old(self).status(guild, afk_user) is Some),
            added ==> final(self).status(guild, afk_user) == Some(
                UserAfkStatus {
                    notify: final(self).status(guild, afk_user)->0.notify,
                    ..old(self).status(guild, afk_user)->0
                },
            ) && final(self).status(guild, afk_user)->0.notify@ == with_notify(
                old(self).status(guild, afk_user)->0.notify@,
                notify_user,
            ),
            !added ==> final(self).status(guild, afk_user) is None,
            final(self).same_except(old(self), guild, afk_user),
    {
        let mut inner = self.take_guild(guild);
        let added = match inner.remove(&afk_user) {
            None => false,
            Some(st) => {
                let mut st = st;
                let mut found = false;
                let mut i: usize = 0;
                while i < st.notify.len()
                    invariant
                        i <= st.notify.len(),
                        found == st.notify@.take(i as int).contains(notify_user),
                    decreases st.notify.len() - i,
                {
                    let hit = st.notify[i] == notify_user;
                    proof {
                        let t = st.notify@.take(i as int);
                        let t2 = st.notify@.take(i + 1);
                        assert(t2 =~= t.push(st.notify@[i as int]));
                        if hit {
                            assert(t2[i as int] == notify_user);
                        } else if found {
                            let k = choose|k: int| 0 <= k < t.len() && t[k] == notify_user;
                            assert(t2[k] == notify_user);
                        } else {
                            assert forall|k: int| 0 <= k < t2.len() implies t2[k] != notify_user by {
                                if k < i {
                                    assert(t2[k] == t[k]);
                                }
                            }
                        }
                    }
                    found = found || hit;
                    i += 1;
                }
                assert(st.notify@.take(i as int) =~= st.notify@);
                if !found {
                    st.notify.push(notify_user);
                }
                inner.insert(afk_user, st);
                true
            },
        };
        self.users.insert(guild, inner);
        assert forall|g: u64, u: u64| !(g == guild && u == afk_user) implies self.status(g, u)
            == old(self).status(g, u) by {
            if g == guild {
                assert(inner@.contains_key(u) == old(self).status(guild, u) is Some);
            }
        }
        assert forall|g: u64, u: u64| #[trigger] self.status(g, u) is Some implies self.status(
            g,
            u,
        )->0.activities_count <= ACTIVITY_LIMIT && self.status(g, u)->0.notify@.no_duplicates() by {
            if g == guild && u == afk_user {
                let old_n = old(self).status(guild, afk_user)->0.notify@;
                assert(old_n.no_duplicates());
                if !old_n.contains(notify_user) {
                    assert forall|a: int, b: int|
                        0 <= a < b < old_n.push(notify_user).len() implies old_n.push(
                        notify_user,
                    )[a] != old_n.push(notify_user)[b] by {
                        if b == old_n.len() {
                            assert(old_n.contains(old_n[a]));
                        }
                    }
                }
            }
        }
        added
    }
}

/// A user who went AFK is kept through `ACTIVITY_LIMIT` messages and is back
/// at the next one.
pub proof fn law_afk_ends_after_limit(st: UserAfkStatus)
    requires
        st.activities_count == 0,
    ensures
        after_activity(st) is Some,
        after_activity(after_activity(st)->0) is Some,
        after_activity(after_activity(after_activity(st)->0)->0) is Some,
        after_activity(after_activity(after_activity(after_activity(st)->0)->0)->0) is None,
{
}

/// Asking twice to be notified is the same as asking once, and the list of
/// users to notify never holds anyone twice.
pub proof fn law_notify_idempotent(list: Seq<u64>, user: u64)
    requires
        list.no_duplicates(),
    ensures
        with_notify(with_notify(list, user), user) == with_notify(list, user),
        with_notify(list, user).no_duplicates(),
        with_notify(list, user).contains(user),
{
    if !list.contains(user) {
        assert(list.push(user)[list.len() as int] == user);
        assert forall|a: int, b: int|
            0 <= a < b < list.push(user).len() implies list.push(user)[a] != list.push(user)[b] by {
            if b == list.len() {
                assert(list.contains(list[a]));
            }
        }
    }
}

/// A character that `trim_matches` strips from a mention: `<`, `@` or `>`.
pub open spec fn is_mark(c: char) -> bool {
    c == '<' || c == '@' || c == '>'
}

pub open spec fn mark_prefix_len(s: Seq<char>) -> nat
    decreases s.len(),
{
    if s.len() > 0 && is_mark(s[0]) {
        1 + mark_prefix_len(s.drop_first())
    } else {
        0
    }
}

pub open spec fn mark_suffix_len(s: Seq<char>) -> nat
    decreases s.len(),
{
    if s.len() > 0 && is_mark(s.last()) {
        1 + mark_suffix_len(s.drop_last())
    } else {
        0
    }
}

/// `s` without the `<`, `@` and `>` at its ends.
pub open spec fn strip_marks(s: Seq<char>) -> Seq<char> {
    let t = s.skip(mark_prefix_len(s) as int);
    t.take(t.len() - mark_suffix_len(t))
}

/// The user that the word `w` mentions: a word `<@...>` whose inside, stripped
/// of `<`, `@` and `>`, is a user id.
pub open spec fn mention_id(w: Seq<char>) -> Option<u64> {
    if has_prefix(w, "<@"@) && has_suffix(w, ">"@) {
        parse_u64_spec(strip_marks(w))
    } else {
        None
    }
}

/// The users that the words `ws` mention, in order.
pub open spec fn mention_ids(ws: Seq<Seq<char>>) -> Seq<u64>
    decreases ws.len(),
{
    if ws.len() == 0 {
        seq![]
    } else {
        let rest = mention_ids(ws.drop_last());
        match mention_id(ws.last()) {
            Some(id) => rest.push(id),
            None => rest,
        }
    }
}

pub proof fn lemma_mark_prefix_len_bound(s: Seq<char>)
    ensures
        mark_prefix_len(s) <= s.len(),
    decreases s.len(),
{
    if s.len() > 0 && is_mark(s[0]) {
        lemma_mark_prefix_len_bound(s.drop_first());
    }
}

pub proof fn lemma_mark_suffix_len_bound(s: Seq<char>)
    ensures
        mark_suffix_len(s) <= s.len(),
    decreases s.len(),
{
    if s.len() > 0 && is_mark(s.last()) {
        lemma_mark_suffix_len_bound(s.drop_last());
    }
}

/// The user that the word `w` mentions, if any.
pub fn mention_in_word(w: &Vec<char>) -> (r: Option<u64>)
    ensures
        r == mention_id(w@),
{
    let open = chars_of("<@");
    let close = chars_of(">");
    proof {
        reveal_strlit("<@");
        reveal_strlit(">");
    }
    if w.len() < 1 || !matches_at(w, &open, 0) || !matches_at(w, &close, w.len() - 1) {
        return None;
    }
    let n = w.len();
    let mut a: usize = 0;
    assert(w@.subrange(0, n as int) =~= w@);
    while a < n && (w[a] == '<' || w[a] == '@' || w[a] == '>')
        invariant
            a <= n == w.len(),
            mark_prefix_len(w@) == a + mark_prefix_len(w@.subrange(a as int, n as int)),
        decreases n - a,
    {
        assert(w@.subrange(a as int, n as int).drop_first() =~= w@.subrange(a + 1, n as int));
        a += 1;
    }
    assert(w@.subrange(0, n as int) =~= w@);
    assert(w@.skip(a as int) =~= w@.subrange(a as int, n as int));
    let mut b: usize = n;
    while b > a && (w[b - 1] == '<' || w[b - 1] == '@' || w[b - 1] == '>')
        invariant
            a <= b <= n == w.len(),
            mark_suffix_len(w@.subrange(a as int, n as int)) == (n - b) + mark_suffix_len(
                w@.subrange(a as int, b as int),
            ),
        decreases b - a,
    {
        assert(w@.subrange(a as int, b as int).drop_last() =~= w@.subrange(a as int, b - 1));
        b -= 1;
    }
    let ghost t = w@.skip(a as int);
    assert(t.take(t.len() - mark_suffix_len(t)) =~= w@.subrange(a as int, b as int));
    parse_u64_chars(w, a, b)
}

/// The users that `content` mentions, word by word, in order.
pub fn mentioned_user_ids(content: &str) -> (r: Vec<u64>)
    ensures
        r@ == mention_ids(words(content@)),
{
    let ws = split_whitespace(content);
    let mut r: Vec<u64> = Vec::new();
    let mut i: usize = 0;
    while i < ws.len()
        invariant
            i <= ws.len(),
            views(ws@) == words(content@),
            r@ == mention_ids(views(ws@).take(i as int)),
        decreases ws.len() - i,
    {
        let w = chars_of(ws[i].as_str());
        let m = mention_in_word(&w);
        assert(views(ws@).take(i + 1).drop_last() =~= views(ws@).take(i as int));
        assert(views(ws@)[i as int] == ws@[i as int]@);
        match m {
            Some(id) => r.push(id),
            None => {},
        }
        i += 1;
    }
    assert(views(ws@).take(i as int) =~= views(ws@));
    r
}


/// A mention written by the bot (`<@id>`) is read back as the same user.
pub proof fn law_mention_roundtrip(id: u64)
    ensures
        mention_id(mention_of(id)) == Some(id),
{
    reveal_strlit("<@");
    reveal_strlit(">");
    let d = decimal(id as nat);
    lemma_decimal(id as nat);
    let w = mention_of(id);
    assert(w =~= seq!['<', '@'] + d + seq!['>']);
    assert(w.subrange(0, 2) =~= "<@"@);
    assert(w.subrange(w.len() - 1, w.len() as int) =~= ">"@);
    assert(is_digit(d[0]));
    assert(is_digit(d.last()));
    let w1 = w.drop_first();
    let w2 = w1.drop_first();
    assert(w2 =~= d + seq!['>']);
    assert(w2[0] == d[0]);
    assert(mark_prefix_len(w2) == 0);
    assert(mark_prefix_len(w1) == 1);
    assert(mark_prefix_len(w) == 2);
    let t = w.skip(2);
    assert(t =~= w2);
    assert(t.drop_last() =~= d);
    assert(mark_suffix_len(d) == 0);
    assert(mark_suffix_len(t) == 1);
    assert(strip_marks(w) =~= d);
    law_parse_reads_decimal(id);
}

/// How the time a user went AFK is shown: a relative Discord timestamp `<t:since:R>`.
pub open spec fn afk_since_of(since: u64) -> Seq<char> {
    "<t:"@ + decimal(since as nat) + ":R>"@
}

pub fn afk_since_text(since: u64) -> (r: String)
    ensures
        r@ == afk_since_of(since),
{
    let mut r = String::from_str("<t:");
    push_decimal(&mut r, since);
    r.append(":R>");
    r
}

/// How an AFK message is shown after the user's name: `: message`, or
/// nothing where the message is empty.
pub open spec fn afk_message_of(message: Seq<char>) -> Seq<char> {
    if message.len() == 0 {
        Seq::empty()
    } else {
        ": "@ + message
    }
}

pub fn afk_message_text(message: &str) -> (r: String)
    ensures
        r@ == afk_message_of(message@),
{
    if message.is_empty() {
        String::new()
    } else {
        let mut r = String::from_str(": ");
        r.append(message);
        r
    }
}

/// What the bot says of a mentioned user who is AFK: who, since when, and
/// their message (empty where they left none).
pub struct AfkNotice {
    pub user: u64,
    pub since: u64,
    pub message: String,
}

/// The AFK notices of the mentioned users `ids`, in order, for those AFK in
/// `guild` as `reg` records them.
pub open spec fn afk_notices(reg: AfkRegistry, guild: u64, ids: Seq<u64>) -> Seq<
    (u64, u64, Seq<char>),
>
    decreases ids.len(),
{
    if ids.len() == 0 {
        seq![]
    } else {
        let rest = afk_notices(reg, guild, ids.drop_last());
        match reg.status(guild, ids.last()) {
            Some(st) => rest.push(
                (
                    ids.last(),
                    st.since,
                    match st.message {
                        Some(m) => m@,
                        None => Seq::<char>::empty(),
                    },
                ),
            ),
            None => rest,
        }
    }
}

/// The plain values of a list of notices.
pub open spec fn notice_views(v: Seq<AfkNotice>) -> Seq<(u64, u64, Seq<char>)> {
    v.map_values(|n: AfkNotice| (n.user, n.since, n.message@))
}

impl AfkRegistry {
    /// The AFK check of a message that `author` sent in `guild`: the
    /// message counts as the author's activity (which may bring them back,
    /// with the users to notify), then each user it mentions who is AFK,
    /// after that, gets a notice.
    pub fn check_afk_step(&mut self, guild: u64, author: u64, content: &str) -> (r: (
        Option<Vec<u64>>,
        Vec<AfkNotice>,
    ))
        requires
            old(self).wf(),
        ensures
            final(self).wf(),
            match old(self).status(guild, author) {
                None => r.0 is None && final(self).status(guild, author) is None,
                Some(st) => match after_activity(st) {
                    None => (r.0 matches Some(v) && v@ == st.notify@) && final(self).status(
                        guild,
                        author,
                    ) is None,
                    Some(next) => r.0 is None && final(self).status(guild, author) == Some(next),
                },
            },
            final(self).same_except(old(self), guild, author),
            notice_views(r.1@) == afk_notices(*final(self), guild, mention_ids(words(content@))),
            forall|k: int|
                0 <= k < mention_ids(words(content@)).len() && (#[trigger] final(self).status(
                    guild,
                    mention_ids(words(content@))[k],
                )) is Some ==> notice_views(r.1@).contains(
                    notice_of(
                        mention_ids(words(content@))[k],
                        final(self).status(guild, mention_ids(words(content@))[k])->0,
                    ),
                ),
    {
        let back = self.record_activity(guild, author);
        let ids = mentioned_user_ids(content);
        let mut out: Vec<AfkNotice> = Vec::new();
        let mut i: usize = 0;
        while i < ids.len()
            invariant
                i <= ids.len(),
                ids@ == mention_ids(words(content@)),
                notice_views(out@) == afk_notices(*self, guild, ids@.take(i as int)),
            decreases ids.len() - i,
        {
            let ghost before = out@;
            assert(ids@.take(i + 1).drop_last() =~= ids@.take(i as int));
            match self.afk_info(guild, ids[i]) {
                Some((since, message)) => {
                    out.push(AfkNotice { user: ids[i], since, message });
                    assert(notice_views(out@) =~= notice_views(before).push(
                        (out@.last().user, out@.last().since, out@.last().message@),
                    ));
                },
                None => {},
            }
            i += 1;
        }
        assert(ids@.take(i as int) =~= ids@);
        proof {
            law_every_afk_mention_noticed(*self, guild, ids@);
        }
        (back, out)
    }
}

/// The embed that tells the channel a user is back from AFK: `afk-is-back`,
/// without colour, seen by all.
pub fn afk_back_reply() -> (r: Reply)
    ensures
        r.key@ == "afk-is-back"@,
        r.color is None,
        !r.ephemeral,
{
    Reply { key: "afk-is-back", color: None, ephemeral: false }
}

/// The key of the direct message sent to each user who asked to be told.
pub fn afk_notification_key() -> (r: &'static str)
    ensures
        r@ == "afk-notification"@,
{
    "afk-notification"
}

/// The key of the message that says a mentioned user is AFK.
pub fn afk_is_afk_key() -> (r: &'static str)
    ensures
        r@ == "afk-is-afk"@,
{
    "afk-is-afk"
}

/// The Red button under that message, labelled `label`, that asks to be
/// told when `user` is back.
pub fn afk_notify_button(user: u64, label: String) -> (r: ButtonSpec)
    ensures
        r.custom_id@ == afk_button_id_of(user),
        r.label@ == label@,
        r.color == ReplyColor::Red,
{
    ButtonSpec { custom_id: afk_button_id(user), label, color: ReplyColor::Red }
}

/// The private reply to a press of that button: Green `afk-notify-added`
/// where the request was recorded, Yellow `afk-notfound` where the user is
/// not AFK (or the button names no user).
pub fn afk_notify_reply(added: bool) -> (r: Reply)
    ensures
        added ==> r.key@ == "afk-notify-added"@ && r.color == Some(ReplyColor::Green),
        !added ==> r.key@ == "afk-notfound"@ && r.color == Some(ReplyColor::Yellow),
        r.ephemeral,
{
    if added {
        Reply { key: "afk-notify-added", color: Some(ReplyColor::Green), ephemeral: true }
    } else {
        Reply { key: "afk-notfound", color: Some(ReplyColor::Yellow), ephemeral: true }
    }
}

/// What a notice shows of a status: when the user went AFK and their message.
pub open spec fn notice_of(user: u64, st: UserAfkStatus) -> (u64, u64, Seq<char>) {
    (
        user,
        st.since,
        match st.message {
            Some(m) => m@,
            None => Seq::<char>::empty(),
        },
    )
}

/// Every mentioned user who is AFK gets a notice with when they went AFK
/// and their message, however many messages they have sent since; and every
/// notice is of a mentioned user who is AFK.
pub proof fn law_every_afk_mention_noticed(reg: AfkRegistry, guild: u64, ids: Seq<u64>)
    ensures
        forall|k: int|
            0 <= k < ids.len() && (#[trigger] reg.status(guild, ids[k])) is Some ==> afk_notices(
                reg,
                guild,
                ids,
            ).contains(notice_of(ids[k], reg.status(guild, ids[k])->0)),
        forall|n: (u64, u64, Seq<char>)|
            #[trigger] afk_notices(reg, guild, ids).contains(n) ==> exists|k: int|
                0 <= k < ids.len() && ids[k] == n.0 && (#[trigger] reg.status(guild, ids[k])) is Some
                    && n == notice_of(ids[k], reg.status(guild, ids[k])->0),
    decreases ids.len(),
{
    if ids.len() > 0 {
        let init = ids.drop_last();
        law_every_afk_mention_noticed(reg, guild, init);
        let rest = afk_notices(reg, guild, init);
        let last = ids.len() - 1;
        assert(ids[last] == ids.last());
        assert forall|k: int|
            0 <= k < ids.len() && (#[trigger] reg.status(guild, ids[k])) is Some implies afk_notices(
            reg,
            guild,
            ids,
        ).contains(notice_of(ids[k], reg.status(guild, ids[k])->0)) by {
            if k < last {
                assert(init[k] == ids[k]);
                assert(reg.status(guild, init[k]) is Some);
                let n = notice_of(ids[k], reg.status(guild, ids[k])->0);
                assert(rest.contains(n));
                let j = choose|j: int| 0 <= j < rest.len() && rest[j] == n;
                if reg.status(guild, ids.last()) is Some {
                    assert(afk_notices(reg, guild, ids)[j] == n);
                }
            } else {
                let n = notice_of(ids[k], reg.status(guild, ids[k])->0);
                assert(afk_notices(reg, guild, ids)[rest.len() as int] == n);
            }
        }
        assert forall|n: (u64, u64, Seq<char>)|
            #[trigger] afk_notices(reg, guild, ids).contains(n) implies exists|k: int|
                0 <= k < ids.len() && ids[k] == n.0 && (#[trigger] reg.status(guild, ids[k])) is Some
                    && n == notice_of(ids[k], reg.status(guild, ids[k])->0) by {
            let all = afk_notices(reg, guild, ids);
            let j = choose|j: int| 0 <= j < all.len() && all[j] == n;
            if j < rest.len() {
                assert(rest[j] == n);
                assert(rest.contains(n));
                let k = choose|k: int|
                    0 <= k < init.len() && init[k] == n.0 && (#[trigger] reg.status(guild, init[k]))
                        is Some && n == notice_of(init[k], reg.status(guild, init[k])->0);
                assert(ids[k] == init[k]);
            } else {
                assert(reg.status(guild, ids[last]) is Some);
            }
        }
    }
}

} // verus!
