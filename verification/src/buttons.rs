//! Routing the buttons of the bot's messages by their custom ids, which are
//! `:`-separated: `1:<action>:<id>` for tickets and `2:<user id>` for AFK
//! notifications.

use vstd::prelude::*;
use crate::messages::TextReply;
use crate::text::{
    chars_eq, chars_of, decimal, is_digit, law_parse_i32_reads_decimal,
    law_parse_reads_decimal, lemma_decimal, lemma_pieces_step, parse_i32, parse_i32_spec,
    parse_u64, parse_u64_spec, pieces, push_decimal, push_signed_decimal, signed_decimal,
    split_on, views,
};

verus! {

/// Which handler a button goes to.
#[derive(Clone, Copy, Debug, PartialEq, Eq, Structural)]
pub enum ButtonRoute {
    Tickets,
    Afk,
    Ignore,
}

/// The handler of a button whose custom id is cut into `parts` at `:`.
pub open spec fn button_route_of(parts: Seq<Seq<char>>) -> ButtonRoute {
    if parts.len() > 0 && parts[0] == "1"@ {
        ButtonRoute::Tickets
    } else if parts.len() > 0 && parts[0] == "2"@ {
        ButtonRoute::Afk
    } else {
        ButtonRoute::Ignore
    }
}

/// Whether `s` is the string `lit`.
fn is_word(s: &String, lit: &str) -> (r: bool)
    ensures
        r == (s@ == lit@),
{
    let a = chars_of(s.as_str());
    let b = chars_of(lit);
    chars_eq(&a, &b)
}

/// The handler of the button with the given custom id.
pub fn route_button(custom_id: &str) -> (r: ButtonRoute)
    ensures
        r == button_route_of(pieces(custom_id@, ':')),
{
    let parts = split_on(custom_id, ':');
    assert(views(parts@)[0] == parts@[0]@);
    if is_word(&parts[0], "1") {
        ButtonRoute::Tickets
    } else if is_word(&parts[0], "2") {
        ButtonRoute::Afk
    } else {
        ButtonRoute::Ignore
    }
}

/// What a ticket button asks for.
#[derive(Clone, Copy, Debug, PartialEq, Eq, Structural)]
pub enum TicketAction {
    /// Open a ticket from the panel with this id.
    Open(i32),
    /// Close the ticket with this id; `action` is the button's action, 3 or 4.
    Close { ticket_id: i32, action: u8 },
    /// The id is missing ("Unknown interaction").
    MissingId,
    /// The id is not a number.
    InvalidId,
    /// Neither opening nor closing ("Unknown ticket action").
    UnknownAction,
    /// No action at all: the button is ignored.
    NoAction,
}

/// The ticket action of a button whose custom id is cut into `parts` at `:`.
pub open spec fn ticket_action_of(parts: Seq<Seq<char>>) -> TicketAction {
    if parts.len() < 2 {
        TicketAction::NoAction
    } else {
        let action = parts[1];
        if action == "1"@ || action == "3"@ || action == "4"@ {
            if parts.len() < 3 {
                TicketAction::MissingId
            } else {
                match parse_i32_spec(parts[2]) {
                    None => TicketAction::InvalidId,
                    Some(id) => if action == "1"@ {
                        TicketAction::Open(id)
                    } else if action == "3"@ {
                        TicketAction::Close { ticket_id: id, action: 3 }
                    } else {
                        TicketAction::Close { ticket_id: id, action: 4 }
                    },
                }
            }
        } else {
            TicketAction::UnknownAction
        }
    }
}

/// The ticket action of the button with the given custom id.
pub fn ticket_action(custom_id: &str) -> (r: TicketAction)
    ensures
        r == ticket_action_of(pieces(custom_id@, ':')),
{
    let parts = split_on(custom_id, ':');
    if parts.len() < 2 {
        return TicketAction::NoAction;
    }
    assert(views(parts@)[1] == parts@[1]@);
    let open = is_word(&parts[1], "1");
    let three = is_word(&parts[1], "3");
    let four = is_word(&parts[1], "4");
    if !(open || three || four) {
        return TicketAction::UnknownAction;
    }
    if parts.len() < 3 {
        return TicketAction::MissingId;
    }
    assert(views(parts@)[2] == parts@[2]@);
    match parse_i32(parts[2].as_str()) {
        None => TicketAction::InvalidId,
        Some(id) => if open {
            TicketAction::Open(id)
        } else if three {
            TicketAction::Close { ticket_id: id, action: 3 }
        } else {
            TicketAction::Close { ticket_id: id, action: 4 }
        },
    }
}

/// The AFK user that a notification button names: its second part, as a user id.
pub open spec fn afk_button_user_of(parts: Seq<Seq<char>>) -> Option<u64> {
    if parts.len() > 1 {
        parse_u64_spec(parts[1])
    } else {
        None
    }
}

/// The AFK user that the notification button with the given custom id names.
pub fn afk_button_user(custom_id: &str) -> (r: Option<u64>)
    ensures
        r == afk_button_user_of(pieces(custom_id@, ':')),
{
    let parts = split_on(custom_id, ':');
    if parts.len() < 2 {
        return None;
    }
    assert(views(parts@)[1] == parts@[1]@);
    parse_u64(parts[1].as_str())
}


/// The custom id of the button that asks to be told when `user` is back: `2:user`.
pub open spec fn afk_button_id_of(user: u64) -> Seq<char> {
    "2:"@ + decimal(user as nat)
}

pub fn afk_button_id(user: u64) -> (r: String)
    ensures
        r@ == afk_button_id_of(user),
{
    let mut r = String::from_str("2:");
    push_decimal(&mut r, user);
    r
}

/// The custom id of the button that closes the ticket `ticket`: `1:3:ticket`.
pub open spec fn close_button_id_of(ticket: i32) -> Seq<char> {
    "1:3:"@ + signed_decimal(ticket as int)
}

pub fn close_ticket_button_id(ticket: i32) -> (r: String)
    ensures
        r@ == close_button_id_of(ticket),
{
    let mut r = String::from_str("1:3:");
    push_signed_decimal(&mut r, ticket as i64);
    r
}

/// The AFK notification button that the bot writes for `user` goes to the
/// AFK handler and names `user`.
pub proof fn law_afk_button_roundtrip(user: u64)
    ensures
        button_route_of(pieces(afk_button_id_of(user), ':')) == ButtonRoute::Afk,
        afk_button_user_of(pieces(afk_button_id_of(user), ':')) == Some(user),
{
    reveal_strlit("2:");
    reveal_strlit("2");
    reveal_strlit("1");
    let d = decimal(user as nat);
    lemma_decimal(user as nat);
    let s = afk_button_id_of(user);
    assert(s =~= seq!['2', ':'] + d);
    assert forall|j: int| 2 <= j < s.len() implies s[j] != ':' by {
        assert(s[j] == d[j - 2]);
        assert(is_digit(d[j - 2]));
    }
    lemma_pieces_step(s, ':', 0, 1);
    lemma_pieces_step(s, ':', 2, s.len() as int);
    assert(s.subrange(0, 1) =~= "2"@);
    assert(s.subrange(2, s.len() as int) =~= d);
    assert(pieces(s, ':') =~= seq!["2"@, d]);
    assert("2"@[0] != "1"@[0]);
    assert("2"@ != "1"@);
    law_parse_reads_decimal(user);
}

/// The close button that the bot writes for ticket `ticket` goes to the
/// ticket handler and asks to close that ticket.
pub proof fn law_close_button_roundtrip(ticket: i32)
    ensures
        button_route_of(pieces(close_button_id_of(ticket), ':')) == ButtonRoute::Tickets,
        ticket_action_of(pieces(close_button_id_of(ticket), ':')) == (TicketAction::Close {
            ticket_id: ticket,
            action: 3,
        }),
{
    reveal_strlit("1:3:");
    reveal_strlit("1");
    reveal_strlit("3");
    reveal_strlit("4");
    let d = signed_decimal(ticket as int);
    let s = close_button_id_of(ticket);
    assert(s =~= seq!['1', ':', '3', ':'] + d);
    assert forall|j: int| 0 <= j < d.len() implies d[j] != ':' by {
        if ticket < 0 {
            lemma_decimal((-ticket) as nat);
            if j > 0 {
                assert(d[j] == decimal((-ticket) as nat)[j - 1]);
                assert(is_digit(decimal((-ticket) as nat)[j - 1]));
            }
        } else {
            lemma_decimal(ticket as nat);
            assert(is_digit(d[j]));
        }
    }
    assert forall|j: int| 4 <= j < s.len() implies s[j] != ':' by {
        assert(s[j] == d[j - 4]);
    }
    lemma_pieces_step(s, ':', 0, 1);
    lemma_pieces_step(s, ':', 2, 3);
    lemma_pieces_step(s, ':', 4, s.len() as int);
    assert(s.subrange(0, 1) =~= "1"@);
    assert(s.subrange(2, 3) =~= "3"@);
    assert(s.subrange(4, s.len() as int) =~= d);
    assert(pieces(s, ':') =~= seq!["1"@, "3"@, d]);
    assert("3"@[0] != "1"@[0]);
    assert("3"@ != "1"@);
    law_parse_i32_reads_decimal(ticket);
}

impl TicketAction {
    /// The private reply that the action gets at once: `Unknown interaction`
    /// where the id is missing, `Unknown ticket action` where the action is
    /// neither opening nor closing; none for the others.
    pub fn reply(&self) -> (r: Option<TextReply>)
        ensures
            *self == TicketAction::MissingId ==> (r matches Some(t) && t.text@
                == "Unknown interaction"@ && t.ephemeral),
            *self == TicketAction::UnknownAction ==> (r matches Some(t) && t.text@
                == "Unknown ticket action"@ && t.ephemeral),
            *self != TicketAction::MissingId && *self != TicketAction::UnknownAction ==> r is None,
    {
        match self {
            TicketAction::MissingId => Some(
                TextReply { text: String::from_str("Unknown interaction"), ephemeral: true },
            ),
            TicketAction::UnknownAction => Some(
                TextReply { text: String::from_str("Unknown ticket action"), ephemeral: true },
            ),
            _ => None,
        }
    }
}

/// The private reply to a close button whose ticket cannot be found.
pub fn unknown_ticket_reply() -> (r: TextReply)
    ensures
        r.text@ == "Unknown ticket"@,
        r.ephemeral,
{
    TextReply { text: String::from_str("Unknown ticket"), ephemeral: true }
}

/// A press of a ticket button: outside a guild nothing is done; in a guild
/// the interaction is deferred first, then the action of its custom id is
/// carried out.
pub fn ticket_button_step(in_guild: bool, custom_id: &str) -> (r: Option<TicketAction>)
    ensures
        !in_guild ==> r is None,
        in_guild ==> r == Some(ticket_action_of(pieces(custom_id@, ':'))),
{
    if !in_guild {
        return None;
    }
    Some(ticket_action(custom_id))
}

} // verus!
