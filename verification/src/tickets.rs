//! Texts and checks of the ticket system: the name of a ticket channel, the
//! mentions made when it opens, and the per-user ticket limit.

use vstd::prelude::*;
use crate::text::{
    chars_eq, chars_of, decimal, join, join_strings, push_decimal, push_signed_decimal, replace,
    replace_str, signed_decimal, views, parse_u64, parse_u64_spec,
};
use crate::commands::{permission_bit, Permission};
use crate::buttons::{close_button_id_of, close_ticket_button_id};
use crate::messages::{ButtonSpec, ReplyColor, TextReply};

verus! {

/// The name of a ticket's channel or thread: the panel's naming scheme with
/// `{id}` replaced by the ticket id, then `{username}` by the opener's name.
pub open spec fn ticket_name(scheme: Seq<char>, ticket_id: i32, username: Seq<char>) -> Seq<char> {
    replace(replace(scheme, "{id}"@, signed_decimal(ticket_id as int)), "{username}"@, username)
}

pub fn ticket_channel_name(naming_scheme: &str, ticket_id: i32, username: &str) -> (r: String)
    ensures
        r@ == ticket_name(naming_scheme@, ticket_id, username@),
{
    let mut id = String::new();
    push_signed_decimal(&mut id, ticket_id as i64);
    proof {
        reveal_strlit("{id}");
        reveal_strlit("{username}");
    }
    let step = replace_str(naming_scheme, "{id}", id.as_str());
    replace_str(step.as_str(), "{username}", username)
}

/// How a configured mention is written when a ticket opens: `ticket-opener`
/// stands for the user who opened it, anything else is a role id.
pub open spec fn open_mention(mention: Seq<char>, opener: u64) -> Seq<char> {
    if mention == "ticket-opener"@ {
        "<@"@ + decimal(opener as nat) + ">"@
    } else {
        "<@&"@ + mention + ">"@
    }
}

/// The message that mentions everyone the panel names when a ticket opens.
pub open spec fn open_mentions_text(mentions: Seq<Seq<char>>, opener: u64) -> Seq<char> {
    join(mentions.map_values(|m: Seq<char>| open_mention(m, opener)), " "@)
}

pub fn mention_on_open(mentions: &Vec<String>, opener: u64) -> (r: String)
    ensures
        r@ == open_mentions_text(views(mentions@), opener),
{
    let opener_word = chars_of("ticket-opener");
    let mut parts: Vec<String> = Vec::new();
    let mut i: usize = 0;
    while i < mentions.len()
        invariant
            i <= mentions.len(),
            opener_word@ == "ticket-opener"@,
            views(parts@) == views(mentions@).take(i as int).map_values(
                |m: Seq<char>| open_mention(m, opener),
            ),
        decreases mentions.len() - i,
    {
        let m = chars_of(mentions[i].as_str());
        let part = if chars_eq(&m, &opener_word) {
            let mut p = String::from_str("<@");
            push_decimal(&mut p, opener);
            p.append(">");
            p
        } else {
            let mut p = String::from_str("<@&");
            p.append(mentions[i].as_str());
            p.append(">");
            p
        };
        let ghost before = parts@;
        parts.push(part);
        assert(views(parts@) =~= views(mentions@).take(i + 1).map_values(
            |m: Seq<char>| open_mention(m, opener),
        )) by {
            assert(views(parts@) =~= views(before).push(part@));
            assert(views(mentions@)[i as int] == mentions@[i as int]@);
        }
        i += 1;
    }
    assert(views(mentions@).take(i as int) =~= views(mentions@));
    join_strings(&parts, " ")
}

/// The support-team notice: `[Support team] <roles>, <users>`, role and user
/// mentions separated by spaces.
pub open spec fn support_team_text(roles: Seq<Seq<char>>, users: Seq<Seq<char>>) -> Seq<char> {
    "[Support team] "@ + join(roles.map_values(|r: Seq<char>| "<@&"@ + r + ">"@), " "@) + ", "@
        + join(users.map_values(|u: Seq<char>| "<@"@ + u + ">"@), " "@)
}

/// Each of `ids` wrapped as `open id >`.
fn wrap_all(ids: &Vec<String>, open: &str) -> (r: Vec<String>)
    ensures
        views(r@) == views(ids@).map_values(|x: Seq<char>| open@ + x + ">"@),
{
    let mut r: Vec<String> = Vec::new();
    let mut i: usize = 0;
    while i < ids.len()
        invariant
            i <= ids.len(),
            views(r@) == views(ids@).take(i as int).map_values(|x: Seq<char>| open@ + x + ">"@),
        decreases ids.len() - i,
    {
        let mut p = String::from_str(open);
        p.append(ids[i].as_str());
        p.append(">");
        let ghost before = r@;
        r.push(p);
        assert(views(r@) =~= views(ids@).take(i + 1).map_values(|x: Seq<char>| open@ + x + ">"@))
            by {
            assert(views(r@) =~= views(before).push(p@));
            assert(views(ids@)[i as int] == ids@[i as int]@);
        }
        i += 1;
    }
    assert(views(ids@).take(i as int) =~= views(ids@));
    r
}

pub fn support_team_notice(roles: &Vec<String>, users: &Vec<String>) -> (r: String)
    ensures
        r@ == support_team_text(views(roles@), views(users@)),
{
    let rs = wrap_all(roles, "<@&");
    let us = wrap_all(users, "<@");
    let mut r = String::from_str("[Support team] ");
    let a = join_strings(&rs, " ");
    let b = join_strings(&us, " ");
    r.append(a.as_str());
    r.append(", ");
    r.append(b.as_str());
    r
}

/// Whether a user with `open_tickets` tickets may open no more under a limit
/// of `limit` per user (the count is compared as an `i32`).
pub fn ticket_limit_reached(open_tickets: usize, limit: i32) -> (r: bool)
    ensures
        r == ((open_tickets as i32) >= limit),
{
    (open_tickets as i32) >= limit
}

/// The note given to the opener: `Ticket created at <#channel>`.
pub open spec fn ticket_created_text(channel: u64) -> Seq<char> {
    "Ticket created at <#"@ + decimal(channel as nat) + ">"@
}

pub fn ticket_created_note(channel: u64) -> (r: String)
    ensures
        r@ == ticket_created_text(channel),
{
    let mut r = String::from_str("Ticket created at <#");
    push_decimal(&mut r, channel);
    r.append(">");
    r
}

/// Who a channel permission overwrite applies to.
#[derive(Clone, Copy, Debug, PartialEq, Eq, Structural)]
pub enum OverwriteTarget {
    Member(u64),
    Role(u64),
}

/// What the opener of a ticket may do in its channel: view it, send
/// messages and read its history.
pub open spec fn opener_allow() -> u64 {
    permission_bit(Permission::ViewChannel) | permission_bit(Permission::SendMessages)
        | permission_bit(Permission::ReadMessageHistory)
}

/// What the support team may do in a ticket channel: what the opener may,
/// and manage messages and roles.
pub open spec fn team_allow() -> u64 {
    opener_allow() | permission_bit(Permission::ManageMessages) | permission_bit(
        Permission::ManageRoles,
    )
}

pub fn ticket_opener_permissions() -> (r: u64)
    ensures
        r == opener_allow(),
{
    Permission::ViewChannel.bits() | Permission::SendMessages.bits()
        | Permission::ReadMessageHistory.bits()
}

pub fn support_team_permissions() -> (r: u64)
    ensures
        r == team_allow(),
{
    ticket_opener_permissions() | Permission::ManageMessages.bits() | Permission::ManageRoles.bits()
}

/// The target an id names: a role or a member.
pub open spec fn target_of(role: bool, id: u64) -> OverwriteTarget {
    if role {
        OverwriteTarget::Role(id)
    } else {
        OverwriteTarget::Member(id)
    }
}

/// The overwrite targets of a list of ids, in order, empty ids skipped; the
/// walk stops at the first id that is not a number, and the flag is `false`
/// exactly when that happened.
pub open spec fn targets_of(ids: Seq<Seq<char>>, role: bool) -> (Seq<OverwriteTarget>, bool)
    decreases ids.len(),
{
    if ids.len() == 0 {
        (seq![], true)
    } else {
        let rest = targets_of(ids.drop_first(), role);
        if ids[0].len() == 0 {
            rest
        } else {
            match parse_u64_spec(ids[0]) {
                None => (seq![], false),
                Some(n) => (seq![target_of(role, n)] + rest.0, rest.1),
            }
        }
    }
}

/// No id that the walk of `targets_of` reads is zero (a zero id is not a
/// Discord id).
pub open spec fn zero_free(ids: Seq<Seq<char>>) -> bool
    decreases ids.len(),
{
    if ids.len() == 0 {
        true
    } else if ids[0].len() == 0 {
        zero_free(ids.drop_first())
    } else {
        match parse_u64_spec(ids[0]) {
            None => true,
            Some(n) => n != 0 && zero_free(ids.drop_first()),
        }
    }
}

/// The overwrites of the support team: its roles, then, if every role id
/// was a number, its users.
pub open spec fn team_targets(roles: Seq<Seq<char>>, users: Seq<Seq<char>>) -> (
    Seq<OverwriteTarget>,
    bool,
) {
    let r = targets_of(roles, true);
    if !r.1 {
        r
    } else {
        let u = targets_of(users, false);
        (r.0 + u.0, u.1)
    }
}

proof fn lemma_targets_step(ids: Seq<Seq<char>>, i: int, role: bool)
    requires
        0 <= i < ids.len(),
    ensures
        targets_of(ids.skip(i), role) == (if ids[i].len() == 0 {
            targets_of(ids.skip(i + 1), role)
        } else {
            match parse_u64_spec(ids[i]) {
                None => (seq![], false),
                Some(n) => (
                    seq![target_of(role, n)] + targets_of(ids.skip(i + 1), role).0,
                    targets_of(ids.skip(i + 1), role).1,
                ),
            }
        }),
        zero_free(ids.skip(i)) == (if ids[i].len() == 0 {
            zero_free(ids.skip(i + 1))
        } else {
            match parse_u64_spec(ids[i]) {
                None => true,
                Some(n) => n != 0 && zero_free(ids.skip(i + 1)),
            }
        }),
{
    assert(ids.skip(i).drop_first() =~= ids.skip(i + 1));
}

/// Appends the targets of `ids` to `out`; `false` when an id is not a number.
fn push_targets(out: &mut Vec<OverwriteTarget>, ids: &Vec<String>, role: bool) -> (ok: bool)
    requires
        zero_free(views(ids@)),
    ensures
        final(out)@ == old(out)@ + targets_of(views(ids@), role).0,
        ok == targets_of(views(ids@), role).1,
{
    let ghost all = views(ids@);
    let ghost start = out@;
    let mut i: usize = 0;
    let mut ok = true;
    assert(all.skip(0) =~= all);
    while ok && i < ids.len()
        invariant
            i <= ids.len(),
            all == views(ids@),
            start.len() <= out@.len(),
            out@.take(start.len() as int) == start,
            ok ==> zero_free(all.skip(i as int)),
            ok ==> targets_of(all, role) == (
                out@.skip(start.len() as int) + targets_of(all.skip(i as int), role).0,
                targets_of(all.skip(i as int), role).1,
            ),
            !ok ==> out@ == start + targets_of(all, role).0 && !targets_of(all, role).1,
        decreases ids.len() - i,
    {
        proof {
            lemma_targets_step(all, i as int, role);
            assert(all[i as int] == ids@[i as int]@);
        }
        if !ids[i].as_str().is_empty() {
            match parse_u64(ids[i].as_str()) {
                None => {
                    proof {
                        assert(targets_of(all.skip(i as int), role).0 =~= Seq::<
                            OverwriteTarget,
                        >::empty());
                        assert(out@ =~= out@.take(start.len() as int) + out@.skip(
                            start.len() as int,
                        ));
                    }
                    ok = false;
                },
                Some(n) => {
                    let ghost before = out@;
                    let t = if role {
                        OverwriteTarget::Role(n)
                    } else {
                        OverwriteTarget::Member(n)
                    };
                    out.push(t);
                    assert(out@.skip(start.len() as int) =~= before.skip(start.len() as int).push(
                        t,
                    ));
                    assert(out@.take(start.len() as int) =~= before.take(start.len() as int));
                    assert(before.skip(start.len() as int) + (seq![t] + targets_of(
                        all.skip(i + 1),
                        role,
                    ).0) =~= out@.skip(start.len() as int) + targets_of(all.skip(i + 1), role).0);
                },
            }
        }
        i += 1;
    }
    proof {
        if ok {
            assert(all.skip(i as int) =~= Seq::<Seq<char>>::empty());
            assert(out@ =~= out@.take(start.len() as int) + out@.skip(start.len() as int));
        }
    }
    ok
}

/// The permission overwrites a ticket channel gets for its support team:
/// each role, then each user, by id, empty ids skipped. Where an id is not a
/// number the overwrites made so far stand and the flag is `false`.
pub fn support_team_overwrites(roles: &Vec<String>, users: &Vec<String>) -> (r: (
    Vec<OverwriteTarget>,
    bool,
))
    requires
        zero_free(views(roles@)),
        targets_of(views(roles@), true).1 ==> zero_free(views(users@)),
    ensures
        (r.0@, r.1) == team_targets(views(roles@), views(users@)),
{
    let mut out: Vec<OverwriteTarget> = Vec::new();
    let ok = push_targets(&mut out, roles, true);
    if !ok {
        assert(out@ =~= targets_of(views(roles@), true).0);
        return (out, false);
    }
    let ok2 = push_targets(&mut out, users, false);
    (out, ok2)
}

/// The category a ticket channel is created under: none when the panel
/// names none, else the channel whose id the panel holds.
pub fn ticket_category_id(category: &str) -> (r: Option<u64>)
    requires
        category@.len() == 0 || (parse_u64_spec(category@) is Some && parse_u64_spec(category@)
            != Some(0u64)),
    ensures
        r == (if category@.len() == 0 {
            None
        } else {
            parse_u64_spec(category@)
        }),
{
    if category.is_empty() {
        None
    } else {
        parse_u64(category)
    }
}

/// The private answer to a press of a panel's open button: refused past
/// the per-user limit; else, where no channel could be made for the
/// ticket, a failure; else where the ticket was created.
pub open spec fn open_ticket_reply_of(limit_reached: bool, channel: Option<u64>) -> Seq<char> {
    if limit_reached {
        "You have reached ticket limit"@
    } else {
        match channel {
            None => "Failed to create ticket for you"@,
            Some(c) => ticket_created_text(c),
        }
    }
}

pub fn open_ticket_reply(open_tickets: usize, limit: i32, channel: Option<u64>) -> (r: TextReply)
    ensures
        r.text@ == open_ticket_reply_of((open_tickets as i32) >= limit, channel),
        (open_tickets as i32) >= limit ==> r.text@ == "You have reached ticket limit"@,
        r.ephemeral,
{
    let text = if ticket_limit_reached(open_tickets, limit) {
        String::from_str("You have reached ticket limit")
    } else {
        match channel {
            None => String::from_str("Failed to create ticket for you"),
            Some(c) => ticket_created_note(c),
        }
    };
    TextReply { text, ephemeral: true }
}

/// Whether a press of an open button goes on to create a ticket: not once
/// the user holds as many tickets as the limit allows (then nothing is
/// created and only the refusal is sent).
pub fn open_ticket_may_create(open_tickets: usize, limit: i32) -> (r: bool)
    ensures
        r == !((open_tickets as i32) >= limit),
{
    !ticket_limit_reached(open_tickets, limit)
}

/// What came of making the channel (`thread` false) or private thread of a
/// ticket: its id, or the error `Failed to create channel` /
/// `Failed to create thread`.
pub fn ticket_channel_result(created: Option<u64>, thread: bool) -> (r: Result<u64, &'static str>)
    ensures
        created is Some ==> r == Ok::<u64, &'static str>(created->0),
        created is None && !thread ==> (r matches Err(e) && e@ == "Failed to create channel"@),
        created is None && thread ==> (r matches Err(e) && e@ == "Failed to create thread"@),
{
    match created {
        Some(id) => Ok(id),
        None => if thread {
            Err("Failed to create thread")
        } else {
            Err("Failed to create channel")
        },
    }
}

/// The button of a ticket's welcome message: a Red button reading `Close`
/// whose custom id closes the ticket.
pub fn welcome_close_button(ticket: i32) -> (r: ButtonSpec)
    ensures
        r.custom_id@ == close_button_id_of(ticket),
        r.label@ == "Close"@,
        r.color == ReplyColor::Red,
{
    ButtonSpec {
        custom_id: close_ticket_button_id(ticket),
        label: String::from_str("Close"),
        color: ReplyColor::Red,
    }
}

/// The status a ticket is given once its channel is made.
pub fn ticket_opened_status() -> (r: &'static str)
    ensures
        r@ == "Opened"@,
{
    "Opened"
}

/// A user at or past the per-user limit is refused with `You have reached
/// ticket limit`, whether or not a channel exists; below the limit the answer
/// is the failure where no channel was made, else where the ticket is.
pub proof fn law_limit_refusal_first(limit_reached: bool, channel: Option<u64>)
    ensures
        limit_reached ==> open_ticket_reply_of(limit_reached, channel)
            == "You have reached ticket limit"@,
        !limit_reached && channel is None ==> open_ticket_reply_of(limit_reached, channel)
            == "Failed to create ticket for you"@,
        !limit_reached && channel is Some ==> open_ticket_reply_of(limit_reached, channel)
            == "Ticket created at <#"@ + decimal(channel->0 as nat) + ">"@,
{
}

} // verus!
