//! Recognising a command in a guild message: the prefix, the command name
//! and its arguments.

use vstd::prelude::*;
use crate::text::{
    chars_of, decimal, has_prefix, matches_at, push_decimal, split_whitespace_from,
    trim, trim_bounds, views, words,
};

verus! {

/// How a user mentions the user `id`: `<@id>`.
pub open spec fn mention_of(id: u64) -> Seq<char> {
    "<@"@ + decimal(id as nat) + ">"@
}

/// The words of a message that invokes a command: the trimmed content must
/// start with the guild's prefix or, failing that, with a mention of the bot;
/// what follows is split at whitespace, and there must be a first word.
pub open spec fn command_words(content: Seq<char>, prefix: Seq<char>, bot_id: u64) -> Option<
    Seq<Seq<char>>,
> {
    let c = trim(content);
    let p = if has_prefix(c, prefix) {
        Some(prefix)
    } else if has_prefix(c, mention_of(bot_id)) {
        Some(mention_of(bot_id))
    } else {
        None
    };
    match p {
        Some(p) => {
            let ws = words(c.skip(p.len() as int));
            if ws.len() > 0 {
                Some(ws)
            } else {
                None
            }
        },
        None => None,
    }
}

/// A command invocation: the command's name and its arguments, one per word.
pub struct CommandInvocation {
    pub name: String,
    pub args: Vec<String>,
}

/// The mention `<@id>` of the user `id`.
pub fn mention(id: u64) -> (r: String)
    ensures
        r@ == mention_of(id),
{
    let mut r = String::from_str("<@");
    push_decimal(&mut r, id);
    r.append(">");
    r
}

/// The characters `v[from..to]`.
fn sub_chars(v: &Vec<char>, from: usize, to: usize) -> (r: Vec<char>)
    requires
        from <= to <= v.len(),
    ensures
        r@ == v@.subrange(from as int, to as int),
{
    let mut r: Vec<char> = Vec::new();
    let mut i = from;
    while i < to
        invariant
            from <= i <= to <= v.len(),
            r@ == v@.subrange(from as int, i as int),
        decreases to - i,
    {
        r.push(v[i]);
        assert(v@.subrange(from as int, i + 1) =~= v@.subrange(from as int, i as int).push(
            v@[i as int],
        ));
        i += 1;
    }
    r
}

/// The command that a guild message invokes, if any, for the guild's command
/// `prefix` and the bot whose id is `bot_id`.
pub fn parse_command(content: &str, prefix: &str, bot_id: u64) -> (r: Option<CommandInvocation>)
    ensures
        match command_words(content@, prefix@, bot_id) {
            Some(ws) => r is Some && r->0.name@ == ws[0] && views(r->0.args@) == ws.drop_first(),
            None => r is None,
        },
{
    let v = chars_of(content);
    let (a, b) = trim_bounds(&v, 0, v.len());
    assert(v@.subrange(0, v@.len() as int) =~= v@);
    let c = sub_chars(&v, a, b);
    let p = chars_of(prefix);
    let m = mention(bot_id);
    let mc = chars_of(m.as_str());
    let plen: usize = if matches_at(&c, &p, 0) {
        p.len()
    } else if matches_at(&c, &mc, 0) {
        mc.len()
    } else {
        return None;
    };
    let rest = sub_chars(&c, plen, c.len());
    assert(rest@ =~= c@.skip(plen as int));
    let mut ws = split_whitespace_from(&rest, 0);
    assert(words(rest@) == views(ws@));
    if ws.len() == 0 {
        return None;
    }
    let name = ws.remove(0);
    assert(views(ws@) =~= words(rest@).drop_first());
    Some(CommandInvocation { name, args: ws })
}

/// What a guild message sets off, in order: the command it invokes, if any;
/// then the AFK check; then the auto-responses. `None` where nothing is done
/// at all: outside a guild, or for a message of the bot itself.
pub fn message_plan(in_guild: bool, author: u64, bot_id: u64, content: &str, prefix: &str) -> (r:
    Option<Option<CommandInvocation>>)
    ensures
        !in_guild || author == bot_id ==> r is None,
        in_guild && author != bot_id ==> (r matches Some(c) && match command_words(
            content@,
            prefix@,
            bot_id,
        ) {
            Some(ws) => c is Some && c->0.name@ == ws[0] && views(c->0.args@) == ws.drop_first(),
            None => c is None,
        }),
{
    if !in_guild || author == bot_id {
        return None;
    }
    Some(parse_command(content, prefix, bot_id))
}

/// The whole guild prefix, of whatever length, is taken off the trimmed
/// message before it is split into the command's name and arguments; failing
/// the prefix, the whole mention of the bot is; a message that starts with
/// neither invokes nothing.
pub proof fn law_prefix_stripped_whole(content: Seq<char>, prefix: Seq<char>, bot_id: u64)
    ensures
        has_prefix(trim(content), prefix) ==> command_words(content, prefix, bot_id) == (if words(
            trim(content).skip(prefix.len() as int),
        ).len() > 0 {
            Some(words(trim(content).skip(prefix.len() as int)))
        } else {
            None
        }),
        !has_prefix(trim(content), prefix) && has_prefix(trim(content), mention_of(bot_id))
            ==> command_words(content, prefix, bot_id) == (if words(
            trim(content).skip(mention_of(bot_id).len() as int),
        ).len() > 0 {
            Some(words(trim(content).skip(mention_of(bot_id).len() as int)))
        } else {
            None
        }),
        !has_prefix(trim(content), prefix) && !has_prefix(trim(content), mention_of(bot_id))
            ==> command_words(content, prefix, bot_id) is None,
{
}

} // verus!
