//! Pure parts of the Discord client: the text of a localized string when the
//! guild's language lacks it, and the URL of a user's banner.

use vstd::prelude::*;
use crate::text::{chars_eq, chars_of, decimal, has_prefix, push_decimal, starts_with};

verus! {

/// The localized text for a key: the guild language's own where it has one,
/// else English's, else the key itself.
pub fn get_locale_string(in_locale: Option<String>, in_english: Option<String>, key: &str) -> (r:
    String)
    ensures
        r@ == match in_locale {
            Some(s) => s@,
            None => match in_english {
                Some(s) => s@,
                None => key@,
            },
        },
{
    match in_locale {
        Some(s) => s,
        None => match in_english {
            Some(s) => s,
            None => String::from_str(key),
        },
    }
}

/// The URL of the banner with hash `banner` of the user `user`: animated
/// banners (hash starting `a_`) are GIFs, the others PNGs.
pub open spec fn banner_url_of(user: u64, banner: Seq<char>) -> Seq<char> {
    "https://cdn.discordapp.com/banners/"@ + decimal(user as nat) + "/"@ + banner + "."@ + (if has_prefix(
        banner,
        "a_"@,
    ) {
        "gif"@
    } else {
        "png"@
    }) + "?size=512"@
}

pub fn get_user_banner_url(user: u64, banner: &Option<String>) -> (r: Option<String>)
    ensures
        match banner {
            Some(b) => r is Some && r->0@ == banner_url_of(user, b@),
            None => r is None,
        },
{
    match banner {
        None => None,
        Some(b) => {
            let mut r = String::from_str("https://cdn.discordapp.com/banners/");
            push_decimal(&mut r, user);
            r.append("/");
            r.append(b.as_str());
            r.append(".");
            if starts_with(b.as_str(), "a_") {
                r.append("gif");
            } else {
                r.append("png");
            }
            r.append("?size=512");
            Some(r)
        },
    }
}

/// Whether a member holding the roles `member_roles` has the role `role`.
pub fn user_has_role(member_roles: &Vec<u64>, role: u64) -> (r: bool)
    ensures
        r == member_roles@.contains(role),
{
    let mut i: usize = 0;
    while i < member_roles.len()
        invariant
            i <= member_roles.len(),
            forall|k: int| 0 <= k < i ==> member_roles@[k] != role,
        decreases member_roles.len() - i,
    {
        if member_roles[i] == role {
            assert(member_roles@[i as int] == role);
            return true;
        }
        i += 1;
    }
    false
}

/// Whether a user and the bot are in the same voice channel: the channels
/// they are in are the same, where being in none counts as the same as
/// the other being in none.
pub fn is_user_in_same_channel_as_bot(user_channel: Option<u64>, bot_channel: Option<u64>) -> (r: bool)
    ensures
        r == (user_channel == bot_channel),
{
    match (user_channel, bot_channel) {
        (Some(a), Some(b)) => a == b,
        (None, None) => true,
        _ => false,
    }
}

/// The language bundle that a guild's `locale` reads from: its own where the
/// bot has one (`en`, `vn`), else the default bundle (`None`), which is English.
pub fn bundle_locale(locale: &str) -> (r: Option<&'static str>)
    ensures
        locale@ == "en"@ ==> (r matches Some(l) && l@ == "en"@),
        locale@ == "vn"@ ==> (r matches Some(l) && l@ == "vn"@),
        locale@ != "en"@ && locale@ != "vn"@ ==> r is None,
{
    let l = chars_of(locale);
    let en = chars_of("en");
    let vn = chars_of("vn");
    if chars_eq(&l, &en) {
        Some("en")
    } else if chars_eq(&l, &vn) {
        Some("vn")
    } else {
        None
    }
}

/// How the messages of a channel are fetched: at once, up to its message
/// count (cut to 16 bits, as the request takes it), where the channel gives
/// one; else page by page.
#[derive(Clone, Copy, Debug, PartialEq, Eq, Structural)]
pub enum FetchPlan {
    Limit(u16),
    Paged,
}

pub fn fetch_plan(message_count: Option<u32>) -> (r: FetchPlan)
    ensures
        match message_count {
            Some(n) => r == FetchPlan::Limit(n as u16),
            None => r == FetchPlan::Paged,
        },
{
    match message_count {
        Some(n) => FetchPlan::Limit(n as u16),
        None => FetchPlan::Paged,
    }
}

/// One step of fetching page by page: pages hold up to 100 messages, the
/// newest first; an empty page ends the fetch, else the next page is asked
/// for before the last message of this one.
pub fn fetch_step(page_ids: &Vec<u64>) -> (r: Option<u64>)
    ensures
        page_ids@.len() == 0 ==> r is None,
        page_ids@.len() > 0 ==> r == Some(page_ids@.last()),
{
    if page_ids.len() == 0 {
        None
    } else {
        Some(page_ids[page_ids.len() - 1])
    }
}

/// The number of messages a page asks for.
pub fn fetch_page_size() -> (r: u16)
    ensures
        r == 100,
{
    100
}

} // verus!
