//! Slash commands: their names and descriptions, and the table that finds a
//! command by the name it was invoked with.

use vstd::prelude::*;
use crate::text::{chars_eq, chars_of};
use super::Permission;
use crate::messages::TextReply;

verus! {

/// Every slash command of the bot.
#[derive(Clone, Copy, Debug, PartialEq, Eq, Structural)]
pub enum SlashCommandId {
    CloseTicket,
}

/// What a slash command tells Discord when it is registered.
pub trait SlashCommand {
    fn name(&self) -> (r: &'static str);

    fn description(&self) -> (r: &'static str)
        default_ensures
            r@ == "no description"@,
    {
        "no description"
    }

    fn permissions(&self) -> (r: Option<Permission>)
        default_ensures
            r is None,
    {
        None
    }

    fn nsfw(&self) -> (r: bool)
        default_ensures
            !r,
    {
        false
    }
}

/// `/closeticket`: closes the ticket of the current channel.
pub struct CloseTicketSlashCommand {}

impl SlashCommand for CloseTicketSlashCommand {
    fn name(&self) -> (r: &'static str)
        ensures
            r@ == "closeticket"@,
    {
        "closeticket"
    }

    fn description(&self) -> (r: &'static str)
        ensures
            r@ == "close the current ticket"@,
    {
        "close the current ticket"
    }
}

/// The slash commands by name; the first command registered under a name keeps it.
pub struct SlashCommandDispatcher {
    pub commands: Vec<(String, SlashCommandId)>,
}

/// The command that `table` holds under `name`: the first entry with that name.
pub open spec fn lookup(table: Seq<(String, SlashCommandId)>, name: Seq<char>) -> Option<
    SlashCommandId,
>
    decreases table.len(),
{
    if table.len() == 0 {
        None
    } else if table[0].0@ == name {
        Some(table[0].1)
    } else {
        lookup(table.drop_first(), name)
    }
}

impl SlashCommandDispatcher {
    /// The table of the bot's slash commands.
    pub fn new() -> (r: Self)
        ensures
            lookup(r.commands@, "closeticket"@) == Some(SlashCommandId::CloseTicket),
            forall|n: Seq<char>| n != "closeticket"@ ==> lookup(r.commands@, n) is None,
    {
        let mut d = SlashCommandDispatcher { commands: Vec::new() };
        let c = CloseTicketSlashCommand {};
        d.register(c.name(), SlashCommandId::CloseTicket);
        d
    }

    /// Registers `command` under `name` unless the name is taken.
    pub fn register(&mut self, name: &str, command: SlashCommandId)
        ensures
            lookup(final(self).commands@, name@) == match lookup(old(self).commands@, name@) {
                Some(c) => Some(c),
                None => Some(command),
            },
            forall|n: Seq<char>| n != name@ ==> lookup(final(self).commands@, n) == lookup(
                old(self).commands@,
                n,
            ),
    {
        if self.find(name).is_none() {
            let ghost before = self.commands@;
            let entry = (String::from_str(name), command);
            let ghost e = entry;
            self.commands.push(entry);
            proof {
                lemma_lookup_push(before, e);
            }
        }
    }

    /// The command registered under `name`, if any.
    pub fn find(&self, name: &str) -> (r: Option<SlashCommandId>)
        ensures
            r == lookup(self.commands@, name@),
    {
        let want = chars_of(name);
        let mut i: usize = 0;
        assert(self.commands@.skip(0) =~= self.commands@);
        while i < self.commands.len()
            invariant
                i <= self.commands.len(),
                want@ == name@,
                lookup(self.commands@, name@) == lookup(self.commands@.skip(i as int), name@),
            decreases self.commands.len() - i,
        {
            assert(self.commands@.skip(i as int).drop_first() =~= self.commands@.skip(i + 1));
            let have = chars_of(self.commands[i].0.as_str());
            if chars_eq(&have, &want) {
                return Some(self.commands[i].1);
            }
            i += 1;
        }
        None
    }
}

/// Looking up in a table with an entry added at its end finds what the
/// table found before, or else the new entry where its name matches.
pub proof fn lemma_lookup_push(table: Seq<(String, SlashCommandId)>, entry: (String, SlashCommandId))
    ensures
        forall|n: Seq<char>|
            #[trigger] lookup(table.push(entry), n) == match lookup(table, n) {
                Some(c) => Some(c),
                None => if entry.0@ == n {
                    Some(entry.1)
                } else {
                    None
                },
            },
    decreases table.len(),
{
    if table.len() > 0 {
        lemma_lookup_push(table.drop_first(), entry);
        assert(table.push(entry).drop_first() =~= table.drop_first().push(entry));
        assert forall|n: Seq<char>| #[trigger]
            lookup(table.push(entry), n) == match lookup(table, n) {
                Some(c) => Some(c),
                None => if entry.0@ == n {
                    Some(entry.1)
                } else {
                    None
                },
            } by {
            assert(table.push(entry)[0] == table[0]);
            assert(lookup(table.drop_first().push(entry), n) == match lookup(table.drop_first(), n) {
                Some(c) => Some(c),
                None => if entry.0@ == n {
                    Some(entry.1)
                } else {
                    None
                },
            });
        }
    } else {
        assert(table.push(entry).drop_first() =~= Seq::<(String, SlashCommandId)>::empty());
        assert forall|n: Seq<char>| #[trigger]
            lookup(table.push(entry), n) == match lookup(table, n) {
                Some(c) => Some(c),
                None => if entry.0@ == n {
                    Some(entry.1)
                } else {
                    None
                },
            } by {
            assert(table.push(entry)[0] == entry);
            assert(lookup(table.push(entry).drop_first(), n) is None);
        }
    }
}

/// `/closeticket` in a channel: where the channel is no ticket, the private
/// text `This is not a ticket`; else none, and the ticket is closed.
pub fn close_ticket_slash_reply(is_ticket: bool) -> (r: Option<TextReply>)
    ensures
        is_ticket ==> r is None,
        !is_ticket ==> (r matches Some(t) && t.text@ == "This is not a ticket"@ && t.ephemeral),
{
    if is_ticket {
        None
    } else {
        Some(TextReply { text: String::from_str("This is not a ticket"), ephemeral: true })
    }
}

} // verus!
