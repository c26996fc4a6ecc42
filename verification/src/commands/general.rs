//! The `afk` command.

use vstd::prelude::*;
use crate::text::{has_prefix, matches_at, chars_of, trim, trim_bounds};
use super::{ArgSpec, ArgType, ParsedArg};
use crate::afk::AfkRegistry;

verus! {

/// `afk`: marks the author as away, with an optional message.
pub struct AfkCommand;

impl AfkCommand {
    pub fn name(&self) -> (r: &'static str)
        ensures
            r@ == "afk"@,
    {
        "afk"
    }

    pub fn args(&self) -> (r: Vec<ArgSpec>)
        ensures
            r@.len() == 1,
            r@[0].name@ == "message from you"@,
            r@[0].arg_type == ArgType::Text,
            r@[0].optional,
    {
        vec![ArgSpec::new("message from you", ArgType::Text, true)]
    }
}


/// The nickname given to a user who goes AFK: their current name prefixed with
/// `[AFK] `, unless the trimmed name already starts with `[AFK]` (then `None`:
/// the nickname is left alone).
pub open spec fn afk_nickname_of(current: Seq<char>) -> Option<Seq<char>> {
    if has_prefix(trim(current), "[AFK]"@) {
        None
    } else {
        Some("[AFK] "@ + current)
    }
}

pub fn afk_nickname(current_name: &str) -> (r: Option<String>)
    ensures
        match afk_nickname_of(current_name@) {
            Some(n) => r is Some && r->0@ == n,
            None => r is None,
        },
{
    let v = chars_of(current_name);
    let (a, b) = trim_bounds(&v, 0, v.len());
    assert(v@.subrange(0, v@.len() as int) =~= v@);
    let tag = chars_of("[AFK]");
    if tag.len() <= b - a && matches_at(&v, &tag, a) {
        assert(v@.subrange(a as int, b as int).subrange(0, tag@.len() as int) =~= v@.subrange(
            a as int,
            a + tag@.len(),
        ));
        return None;
    }
    proof {
        if has_prefix(trim(current_name@), "[AFK]"@) {
            assert(v@.subrange(a as int, b as int).subrange(0, tag@.len() as int) =~= v@.subrange(
                a as int,
                a + tag@.len(),
            ));
        }
    }
    let mut r = String::from_str("[AFK] ");
    r.append(current_name);
    Some(r)
}

/// The message of `afk`: its first argument where that is a text argument.
pub fn afk_message_arg(command_args: &Vec<ParsedArg>) -> (r: Option<String>)
    ensures
        command_args@.len() > 0 && command_args@[0] is Text ==> r is Some && r->0@
            == command_args@[0]->Text_0@,
        !(command_args@.len() > 0 && command_args@[0] is Text) ==> r is None,
{
    if command_args.len() == 0 {
        return None;
    }
    match &command_args[0] {
        ParsedArg::Text(m) => Some(m.clone()),
        _ => None,
    }
}

/// `afk` by `user` in `guild` at time `since`, with the arguments
/// `command_args` and the user's current display name: the user is marked AFK
/// with the command's message (keeping their count and notification list if
/// they already were); the nickname to give them, if any; and the key of the
/// confirmation, `command-afk-success`.
pub fn afk_command_step(
    registry: &mut AfkRegistry,
    guild: u64,
    user: u64,
    command_args: &Vec<ParsedArg>,
    since: u64,
    current_name: &str,
) -> (r: (Option<String>, &'static str))
    requires
        old(registry).wf(),
    ensures
        final(registry).wf(),
        final(registry).status(guild, user) is Some,
        final(registry).status(guild, user)->0.since == since,
        command_args@.len() > 0 && command_args@[0] is Text ==> (final(registry).status(
            guild,
            user,
        )->0.message matches Some(m) && m@ == command_args@[0]->Text_0@),
        !(command_args@.len() > 0 && command_args@[0] is Text) ==> final(registry).status(
            guild,
            user,
        )->0.message is None,
        match old(registry).status(guild, user) {
            Some(st) => final(registry).status(guild, user)->0.activities_count
                == st.activities_count && final(registry).status(guild, user)->0.notify
                == st.notify,
            None => final(registry).status(guild, user)->0.activities_count == 0 && final(registry).status(guild, user)->0.notify@ == Seq::<u64>::empty(),
        },
        final(registry).same_except(old(registry), guild, user),
        match afk_nickname_of(current_name@) {
            Some(n) => (r.0 matches Some(s) && s@ == n),
            None => r.0 is None,
        },
        r.1@ == "command-afk-success"@,
{
    let message = afk_message_arg(command_args);
    registry.set_afk(guild, user, message, since);
    (afk_nickname(current_name), "command-afk-success")
}

} // verus!
