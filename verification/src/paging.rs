//! Paged lists with previous/next buttons: page counts and bounds, the text
//! of a page, and the state of the buttons.

use vstd::prelude::*;
use crate::messages::{Reply, ReplyColor};
use crate::text::{
    chars_eq, chars_of, decimal, ends_with, has_suffix, join, join_strings, push_decimal, views,
};

verus! {

/// How many auto-response triggers one page lists.
pub const TRIGGERS_PER_PAGE: usize = 50;

/// How many queued tracks one page lists.
pub const TRACKS_PER_PAGE: usize = 10;

/// How many pages of `per_page` items `len` items take (the ceiling of the quotient).
pub open spec fn page_count(len: int, per_page: int) -> int {
    if len % per_page == 0 {
        len / per_page
    } else {
        len / per_page + 1
    }
}

pub fn pages_for(len: usize, per_page: usize) -> (r: usize)
    requires
        per_page > 0,
    ensures
        r == page_count(len as int, per_page as int),
{
    let q = len / per_page;
    if len % per_page == 0 {
        q
    } else {
        proof {
            vstd::arithmetic::div_mod::lemma_fundamental_div_mod(len as int, per_page as int);
        }
        assert(q < len) by (nonlinear_arith)
            requires
                q == len / per_page,
                len % per_page != 0,
                per_page > 0,
        ;
        q + 1
    }
}

/// The items of page `page`: from `page * per_page` up to the next page or the end.
pub open spec fn page_bounds(len: int, per_page: int, page: int) -> (int, int) {
    let start = page * per_page;
    let end = if (page + 1) * per_page < len {
        (page + 1) * per_page
    } else {
        len
    };
    (start, end)
}

pub fn bounds_of_page(len: usize, per_page: usize, page: usize) -> (r: (usize, usize))
    requires
        page * per_page <= len,
    ensures
        r.0 as int == page_bounds(len as int, per_page as int, page as int).0,
        r.1 as int == page_bounds(len as int, per_page as int, page as int).1,
        r.0 <= r.1 <= len,
{
    let start = page * per_page;
    let end = if per_page < len - start {
        start + per_page
    } else {
        len
    };
    assert((page + 1) * per_page == page * per_page + per_page) by (nonlinear_arith);
    (start, end)
}

/// A trigger shown in code style: `` `trigger` ``.
pub open spec fn code_span(t: Seq<char>) -> Seq<char> {
    "`"@ + t + "`"@
}

/// The text of page `page` of the trigger list: its triggers in code style,
/// separated by spaces.
pub open spec fn trigger_page_text(list: Seq<Seq<char>>, page: int) -> Seq<char> {
    let (s, e) = page_bounds(list.len() as int, TRIGGERS_PER_PAGE as int, page);
    join(list.subrange(s, e).map_values(|t: Seq<char>| code_span(t)), " "@)
}

pub fn trigger_page_description(list: &Vec<String>, page: usize) -> (r: String)
    requires
        page * TRIGGERS_PER_PAGE <= list.len(),
    ensures
        r@ == trigger_page_text(views(list@), page as int),
{
    let (s, e) = bounds_of_page(list.len(), TRIGGERS_PER_PAGE, page);
    let mut parts: Vec<String> = Vec::new();
    let mut i = s;
    while i < e
        invariant
            s <= i <= e <= list.len(),
            views(parts@) == views(list@).subrange(s as int, i as int).map_values(
                |t: Seq<char>| code_span(t),
            ),
        decreases e - i,
    {
        let mut item = String::from_str("`");
        item.append(list[i].as_str());
        item.append("`");
        let ghost before = parts@;
        parts.push(item);
        assert(views(parts@) =~= views(list@).subrange(s as int, i + 1).map_values(
            |t: Seq<char>| code_span(t),
        )) by {
            assert(views(parts@) =~= views(before).push(item@));
            assert(views(list@)[i as int] == list@[i as int]@);
        }
        i += 1;
    }
    join_strings(&parts, " ")
}

/// One line of the queue list: `n. entry`.
pub open spec fn numbered_line(n: nat, entry: Seq<char>) -> Seq<char> {
    decimal(n) + ". "@ + entry
}

/// The queue list of the entries `entries` that start at queue index `start`:
/// one numbered line each, numbered from `start + 1`.
pub open spec fn numbered_text(start: nat, entries: Seq<Seq<char>>) -> Seq<char> {
    join(
        Seq::new(entries.len(), |i: int| numbered_line((start + i + 1) as nat, entries[i])),
        "\n"@,
    )
}

pub fn numbered_list(start: usize, entries: &Vec<String>) -> (r: String)
    requires
        start + entries.len() < usize::MAX,
    ensures
        r@ == numbered_text(start as nat, views(entries@)),
{
    let mut lines: Vec<String> = Vec::new();
    let mut i: usize = 0;
    while i < entries.len()
        invariant
            i <= entries.len(),
            start + entries.len() < usize::MAX,
            views(lines@) =~= Seq::new(
                i as nat,
                |k: int| numbered_line((start + k + 1) as nat, views(entries@)[k]),
            ),
        decreases entries.len() - i,
    {
        let mut line = String::new();
        push_decimal(&mut line, (start + i + 1) as u64);
        line.append(". ");
        line.append(entries[i].as_str());
        let ghost before = lines@;
        lines.push(line);
        assert(views(lines@) =~= views(before).push(line@));
        assert(views(entries@)[i as int] == entries@[i as int]@);
        i += 1;
    }
    assert(Seq::new(
        entries@.len() as nat,
        |k: int| numbered_line((start + k + 1) as nat, views(entries@)[k]),
    ) =~= Seq::new(
        views(entries@).len(),
        |k: int| numbered_line((start + k + 1) as nat, views(entries@)[k]),
    ));
    join_strings(&lines, "\n")
}

/// How a queued track is shown: `[title](url)`, with `Unknown title` where the
/// track has none, or `[Unknown track](url)` where its metadata could not be read.
pub open spec fn queue_entry(fetched: bool, title: Option<Seq<char>>, url: Seq<char>) -> Seq<char> {
    if fetched {
        "["@ + match title {
            Some(t) => t,
            None => "Unknown title"@,
        } + "]("@ + url + ")"@
    } else {
        "[Unknown track]("@ + url + ")"@
    }
}

pub fn queue_entry_label(fetched: bool, title: &Option<String>, url: &str) -> (r: String)
    ensures
        r@ == queue_entry(
            fetched,
            match *title {
                Some(t) => Some(t@),
                None => None,
            },
            url@,
        ),
{
    if fetched {
        let mut r = String::from_str("[");
        match title {
            Some(t) => r.append(t.as_str()),
            None => r.append("Unknown title"),
        }
        r.append("](");
        r.append(url);
        r.append(")");
        r
    } else {
        let mut r = String::from_str("[Unknown track](");
        r.append(url);
        r.append(")");
        r
    }
}

/// The state of a paged message: the page shown, how many there are, and
/// whether the wait for button presses is over.
#[derive(Clone, Copy, Debug, PartialEq, Eq, Structural)]
pub struct Pager {
    pub page: usize,
    pub pages: usize,
    pub expired: bool,
}

/// Whether the previous and next buttons are disabled on `page` of `pages`:
/// on the last page only the previous one is enabled, on the first page only
/// the next one, and in between both.
pub open spec fn buttons_disabled(page: int, pages: int) -> (bool, bool) {
    if page == pages - 1 {
        (false, true)
    } else if page == 0 {
        (true, false)
    } else {
        (false, false)
    }
}

/// Whether the previous and next buttons of `p` are disabled: both once the
/// wait is over, else as `buttons_disabled` says.
pub open spec fn pager_buttons(p: Pager) -> (bool, bool) {
    if p.expired {
        (true, true)
    } else {
        buttons_disabled(p.page as int, p.pages as int)
    }
}

impl Pager {
    /// A pager on the first of `pages` pages, waiting for presses.
    pub fn new(pages: usize) -> (r: Self)
        ensures
            r.page == 0,
            r.pages == pages,
            !r.expired,
    {
        Pager { page: 0, pages, expired: false }
    }

    /// Whether the previous and next buttons are disabled (the first page
    /// starts with previous disabled and next enabled).
    pub fn disabled(&self) -> (r: (bool, bool))
        ensures
            r == pager_buttons(*self),
    {
        if self.expired {
            (true, true)
        } else if self.pages > 0 && self.page == self.pages - 1 {
            (false, true)
        } else if self.page == 0 {
            (true, false)
        } else {
            (false, false)
        }
    }

    /// A press of the next button (`next`) or of the previous one.
    pub fn press(&mut self, next: bool)
        requires
            !old(self).expired,
            next ==> old(self).page + 1 < old(self).pages,
            !next ==> old(self).page > 0,
        ensures
            final(self).pages == old(self).pages,
            !final(self).expired,
            final(self).page == if next {
                old(self).page + 1
            } else {
                old(self).page - 1
            },
    {
        if next {
            self.page = self.page + 1;
        } else {
            self.page = self.page - 1;
        }
    }

    /// The wait for presses timed out: both buttons are disabled for good.
    pub fn expire(&mut self)
        ensures
            final(self).expired,
            final(self).page == old(self).page,
            final(self).pages == old(self).pages,
            pager_buttons(*final(self)) == (true, true),
    {
        self.expired = true;
    }
}

/// On a list of several pages, a button is enabled exactly where pressing it
/// keeps the page within the list: pressing only enabled buttons never leaves it.
pub proof fn law_enabled_buttons_stay_in_range(page: int, pages: int)
    requires
        pages > 1,
        0 <= page < pages,
    ensures
        !buttons_disabled(page, pages).0 <==> page > 0,
        !buttons_disabled(page, pages).1 <==> page + 1 < pages,
{
}

/// The custom ids of the previous and next buttons of a pager whose
/// messages carry the key `key`: `prev_page:key` and `next_page:key`.
pub fn page_button_ids(key: &str) -> (r: (String, String))
    ensures
        r.0@ == "prev_page:"@ + key@,
        r.1@ == "next_page:"@ + key@,
{
    let mut prev = String::from_str("prev_page:");
    prev.append(key);
    let mut next = String::from_str("next_page:");
    next.append(key);
    (prev, next)
}

/// Which button of the pager with key `key` the custom id `custom_id` is:
/// none where it does not end with the key; the next button where it is
/// `next_page:key`; any other id ending with the key counts as previous.
pub open spec fn pager_button_of(custom_id: Seq<char>, key: Seq<char>) -> Option<bool> {
    if has_suffix(custom_id, key) {
        Some(custom_id == "next_page:"@ + key)
    } else {
        None
    }
}

pub fn pager_button(custom_id: &str, key: &str) -> (r: Option<bool>)
    ensures
        r == pager_button_of(custom_id@, key@),
{
    if !ends_with(custom_id, key) {
        return None;
    }
    let (_, next) = page_button_ids(key);
    let a = chars_of(custom_id);
    let b = chars_of(next.as_str());
    Some(chars_eq(&a, &b))
}

/// The title of the queue message while a song plays: `Playing: title`,
/// `Unknown` where the song has no title.
pub open spec fn playing_title_of(title: Option<Seq<char>>) -> Seq<char> {
    "Playing: "@ + match title {
        Some(t) => t,
        None => "Unknown"@,
    }
}

pub fn playing_title(title: &Option<String>) -> (r: String)
    ensures
        r@ == playing_title_of(
            match *title {
                Some(t) => Some(t@),
                None => None,
            },
        ),
{
    let mut r = String::from_str("Playing: ");
    match title {
        Some(t) => r.append(t.as_str()),
        None => r.append("Unknown"),
    }
    r
}

/// While the author of a paged message presses only enabled buttons, the
/// page stays within the list and the buttons are disabled exactly at its
/// ends; once the wait is over, both are disabled.
pub proof fn law_pager_buttons(p: Pager, next: bool)
    requires
        p.pages > 1,
        p.page < p.pages,
        !p.expired,
        next ==> !pager_buttons(p).1,
        !next ==> !pager_buttons(p).0,
    ensures
        ({
            let q = Pager {
                page: if next {
                    (p.page + 1) as usize
                } else {
                    (p.page - 1) as usize
                },
                ..p
            };
            &&& q.page < q.pages
            &&& pager_buttons(q).0 == (q.page == 0)
            &&& pager_buttons(q).1 == (q.page == q.pages - 1)
        }),
        pager_buttons(Pager { expired: true, ..p }) == (true, true),
{
}

/// Every item of a paged list shows on a page that exists: item `k` is on
/// page `k / per_page`, within that page's bounds.
pub proof fn law_pages_cover_items(len: int, per_page: int, k: int)
    requires
        per_page > 0,
        0 <= k < len,
    ensures
        0 <= k / per_page < page_count(len, per_page),
        page_bounds(len, per_page, k / per_page).0 <= k < page_bounds(len, per_page, k / per_page).1,
{
    let p = k / per_page;
    assert(p * per_page <= k < (p + 1) * per_page) by (nonlinear_arith)
        requires
            per_page > 0,
            p == k / per_page,
            0 <= k,
    ;
    assert(0 <= p) by (nonlinear_arith)
        requires
            per_page > 0,
            p == k / per_page,
            0 <= k,
    ;
    assert(p < page_count(len, per_page)) by (nonlinear_arith)
        requires
            per_page > 0,
            p == k / per_page,
            0 <= k < len,
            page_count(len, per_page) == (if len % per_page == 0 {
                len / per_page
            } else {
                len / per_page + 1
            }),
    ;
}

/// Which paged list a message shows.
#[derive(Clone, Copy, Debug, PartialEq, Eq, Structural)]
pub enum PagedList {
    /// The waiting queue of the music player.
    Queue,
    /// The auto-response triggers of a guild.
    Triggers,
}

impl PagedList {
    /// How many items one page of this list shows.
    pub fn per_page(&self) -> (r: usize)
        ensures
            r == match *self {
                PagedList::Queue => TRACKS_PER_PAGE,
                PagedList::Triggers => TRIGGERS_PER_PAGE,
            },
    {
        match self {
            PagedList::Queue => TRACKS_PER_PAGE,
            PagedList::Triggers => TRIGGERS_PER_PAGE,
        }
    }

    /// The reply given where this list is empty: its Yellow `empty_key`
    /// message, seen by all.
    pub fn empty_reply(&self) -> (r: Reply)
        ensures
            r.key@ == match *self {
                PagedList::Queue => "music-queue-empty"@,
                PagedList::Triggers => "autores-list-empty"@,
            },
            r.color == Some(ReplyColor::Yellow),
            !r.ephemeral,
    {
        Reply { key: self.empty_key(), color: Some(ReplyColor::Yellow), ephemeral: false }
    }

    /// The key of the reply given where this list is empty.
    pub fn empty_key(&self) -> (r: &'static str)
        ensures
            r@ == match *self {
                PagedList::Queue => "music-queue-empty"@,
                PagedList::Triggers => "autores-list-empty"@,
            },
    {
        match self {
            PagedList::Queue => "music-queue-empty",
            PagedList::Triggers => "autores-list-empty",
        }
    }
}

/// How a list is shown: an empty list gets the empty reply, a list of one
/// page is shown without buttons, a longer one with page buttons.
#[derive(Clone, Copy, Debug, PartialEq, Eq, Structural)]
pub enum PageLayout {
    Empty,
    Single,
    Paged(usize),
}

pub open spec fn page_layout_of(len: int, per_page: int) -> PageLayout {
    if len == 0 {
        PageLayout::Empty
    } else if page_count(len, per_page) == 1 {
        PageLayout::Single
    } else {
        PageLayout::Paged(page_count(len, per_page) as usize)
    }
}

pub fn page_layout(list: PagedList, len: usize) -> (r: PageLayout)
    ensures
        r == page_layout_of(
            len as int,
            match list {
                PagedList::Queue => TRACKS_PER_PAGE as int,
                PagedList::Triggers => TRIGGERS_PER_PAGE as int,
            },
        ),
{
    if len == 0 {
        return PageLayout::Empty;
    }
    let pages = pages_for(len, list.per_page());
    if pages == 1 {
        PageLayout::Single
    } else {
        PageLayout::Paged(pages)
    }
}

/// What a button press on a paged message comes to.
#[derive(Clone, Copy, Debug, PartialEq, Eq, Structural)]
pub enum PagerEvent {
    /// Not a button of this pager.
    Ignore,
    /// A button of this pager, pressed by someone other than the author of
    /// the command: refused.
    Denied,
    /// The author pressed next (`true`) or previous (`false`).
    Press(bool),
}

impl PagerEvent {
    /// The reply to a refused press: the Red `interaction-denied` message,
    /// seen only by who pressed; a press that is not refused gets none.
    pub fn reply(&self) -> (r: Option<Reply>)
        ensures
            *self == PagerEvent::Denied ==> (r matches Some(m) && m.key@ == "interaction-denied"@
                && m.color == Some(ReplyColor::Red) && m.ephemeral),
            *self != PagerEvent::Denied ==> r is None,
    {
        match self {
            PagerEvent::Denied => Some(
                Reply { key: "interaction-denied", color: Some(ReplyColor::Red), ephemeral: true },
            ),
            _ => None,
        }
    }
}

/// The press of the button `custom_id` by `clicker`, on the pager with key
/// `key` of a command that `author` sent: only the author may turn pages.
pub fn pager_interaction(custom_id: &str, key: &str, clicker: u64, author: u64) -> (r: PagerEvent)
    ensures
        r == match pager_button_of(custom_id@, key@) {
            None => PagerEvent::Ignore,
            Some(next) => if clicker != author {
                PagerEvent::Denied
            } else {
                PagerEvent::Press(next)
            },
        },
{
    match pager_button(custom_id, key) {
        None => PagerEvent::Ignore,
        Some(next) => if clicker != author {
            PagerEvent::Denied
        } else {
            PagerEvent::Press(next)
        },
    }
}

/// How `queue` starts: refused with the key of its error, an empty queue
/// answered, or the queue shown in the given layout.
pub enum QueueStart {
    Refused(&'static str),
    Empty(Reply),
    Show(PageLayout),
}

/// The checks of `queue`, in order: used in a guild (`command-guildonly`),
/// with the bot in a call of the guild and the author in its channel
/// (`music-not-same-channel` for either); then an empty waiting queue gets the
/// Yellow `music-queue-empty` reply, and any other is shown.
pub fn queue_start(in_guild: bool, in_call: bool, same_channel: bool, queue_len: usize) -> (r:
    QueueStart)
    ensures
        !in_guild ==> (r matches QueueStart::Refused(k) && k@ == "command-guildonly"@),
        in_guild && (!in_call || !same_channel) ==> (r matches QueueStart::Refused(k) && k@
            == "music-not-same-channel"@),
        in_guild && in_call && same_channel && queue_len == 0 ==> (r matches QueueStart::Empty(m)
            && m.key@ == "music-queue-empty"@ && m.color == Some(ReplyColor::Yellow)
            && !m.ephemeral),
        in_guild && in_call && same_channel && queue_len > 0 ==> (r matches QueueStart::Show(l)
            && l == page_layout_of(queue_len as int, TRACKS_PER_PAGE as int)),
{
    if !in_guild {
        return QueueStart::Refused("command-guildonly");
    }
    if !in_call || !same_channel {
        return QueueStart::Refused("music-not-same-channel");
    }
    if queue_len == 0 {
        QueueStart::Empty(PagedList::Queue.empty_reply())
    } else {
        QueueStart::Show(page_layout(PagedList::Queue, queue_len))
    }
}

} // verus!
