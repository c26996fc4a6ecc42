//! The `autores` command and its subcommands.

use vstd::prelude::*;
use crate::text::{
    chars_of, contains, find, first_occurrence, lemma_find_is_first, lemma_ws_prefix_len_bound,
    lemma_ws_suffix_len_bound, occurs_at, string_of, trim, trim_bounds, trim_start, ws_prefix_len,
};
use super::{ArgSpec, ArgType, CommandId, ParsedArg, Permission, name_views};
use crate::messages::{Reply, ReplyColor};

verus! {

/// Why command arguments were refused.
#[derive(Debug, PartialEq, Eq, Structural)]
pub enum ArgError {
    InvalidCommand,
}

impl ArgError {
    pub fn message(&self) -> (r: &'static str)
        ensures
            r@ == "invalid command"@,
    {
        "invalid command"
    }
}

/// `s` cut at its first `|`: the trimmed part before it and the trimmed part
/// after it; without a `|`, the trimmed `s` and an empty value.
pub open spec fn split_trigger(s: Seq<char>) -> (Seq<char>, Seq<char>) {
    match first_occurrence(s, seq!['|']) {
        Some(i) => (trim(s.take(i)), trim(s.skip(i + 1))),
        None => (trim(s), Seq::empty()),
    }
}

/// Splits the text argument `trigger | value` of an auto-response command.
/// Refused unless the first argument is a text argument.
pub fn split_trigger_and_value(command_args: Vec<ParsedArg>) -> (r: Result<(String, String), ArgError>)
    ensures
        match r {
            Ok((t, v)) => command_args@.len() > 0 && command_args@[0] is Text && (t@, v@)
                == split_trigger(command_args@[0]->Text_0@),
            Err(e) => e == ArgError::InvalidCommand && !(command_args@.len() > 0
                && command_args@[0] is Text),
        },
{
    if command_args.len() == 0 {
        return Err(ArgError::InvalidCommand);
    }
    let args = match &command_args[0] {
        ParsedArg::Text(a) => a,
        _ => {
            return Err(ArgError::InvalidCommand);
        },
    };
    let v = chars_of(args.as_str());
    let bar = vec!['|'];
    assert(bar@ =~= seq!['|']);
    match find(&v, &bar) {
        Some(idx) => {
            proof {
                lemma_find_is_first(v@, bar@, idx as int);
                assert(idx < v.len());
            }
            let (a, b) = trim_bounds(&v, 0, idx);
            let (c, d) = trim_bounds(&v, idx + 1, v.len());
            assert(v@.subrange(0, idx as int) =~= v@.take(idx as int));
            assert(v@.subrange(idx + 1, v@.len() as int) =~= v@.skip(idx + 1));
            Ok((string_of(&v, a, b), string_of(&v, c, d)))
        },
        None => {
            let (a, b) = trim_bounds(&v, 0, v.len());
            assert(v@.subrange(0, v@.len() as int) =~= v@);
            Ok((string_of(&v, a, b), String::new()))
        },
    }
}

/// `autores`: manages the guild's auto-responses.
pub struct AutoResCommand;

impl AutoResCommand {
    pub fn name(&self) -> (r: &'static str)
        ensures
            r@ == "autores"@,
    {
        "autores"
    }

    pub fn permissions(&self) -> (r: Vec<Permission>)
        ensures
            r@ == seq![Permission::Administrator],
    {
        vec![Permission::Administrator]
    }

    pub fn aliases(&self) -> (r: Vec<&'static str>)
        ensures
            name_views(r@) == seq!["ar"@, "autoresponse"@],
    {
        let r = vec!["ar", "autoresponse"];
        assert(name_views(r@) =~= seq!["ar"@, "autoresponse"@]);
        r
    }

    pub fn subcommands(&self) -> (r: Vec<CommandId>)
        ensures
            r@ == seq![
                CommandId::AddAutoResponse,
                CommandId::DeleteAutoResponse,
                CommandId::ListAutoResponse,
                CommandId::ImageUpdateAutoRes,
                CommandId::ThumbnailUpdateAutoRes,
                CommandId::ColorUpdateAutoRes,
                CommandId::ContentUpdateAutoRes,
                CommandId::MessageUpdateAutoRes,
            ],
    {
        let r = vec![
            CommandId::AddAutoResponse,
            CommandId::DeleteAutoResponse,
            CommandId::ListAutoResponse,
            CommandId::ImageUpdateAutoRes,
            CommandId::ThumbnailUpdateAutoRes,
            CommandId::ColorUpdateAutoRes,
            CommandId::ContentUpdateAutoRes,
            CommandId::MessageUpdateAutoRes,
        ];
        assert(r@ =~= seq![
            CommandId::AddAutoResponse,
            CommandId::DeleteAutoResponse,
            CommandId::ListAutoResponse,
            CommandId::ImageUpdateAutoRes,
            CommandId::ThumbnailUpdateAutoRes,
            CommandId::ColorUpdateAutoRes,
            CommandId::ContentUpdateAutoRes,
            CommandId::MessageUpdateAutoRes,
        ]);
        r
    }
}

/// `autores add`: creates an auto-response `trigger | response`.
pub struct AddAutoResponseCommand;

impl AddAutoResponseCommand {
    pub fn name(&self) -> (r: &'static str)
        ensures
            r@ == "add"@,
    {
        "add"
    }

    pub fn args(&self) -> (r: Vec<ArgSpec>)
        ensures
            r@.len() == 1,
            r@[0].name@ == "trigger | response"@,
            r@[0].arg_type == ArgType::Text,
            !r@[0].optional,
    {
        vec![ArgSpec::new("trigger | response", ArgType::Text, false)]
    }

    pub fn parent_command(&self) -> (r: Option<CommandId>)
        ensures
            r == Some(CommandId::AutoRes),
    {
        Some(CommandId::AutoRes)
    }
}

/// `autores color`: sets the embed color of an auto-response.
pub struct ColorUpdateAutoResCommand;

impl ColorUpdateAutoResCommand {
    pub fn name(&self) -> (r: &'static str)
        ensures
            r@ == "color"@,
    {
        "color"
    }

    pub fn args(&self) -> (r: Vec<ArgSpec>)
        ensures
            r@.len() == 1,
            r@[0].name@ == "trigger | color hex (#fafafa)"@,
            r@[0].arg_type == ArgType::Text,
            !r@[0].optional,
    {
        vec![ArgSpec::new("trigger | color hex (#fafafa)", ArgType::Text, false)]
    }

    pub fn parent_command(&self) -> (r: Option<CommandId>)
        ensures
            r == Some(CommandId::AutoRes),
    {
        Some(CommandId::AutoRes)
    }
}

/// `autores image`: sets the embed image of an auto-response.
pub struct ImageUpdateAutoResCommand;

impl ImageUpdateAutoResCommand {
    pub fn name(&self) -> (r: &'static str)
        ensures
            r@ == "image"@,
    {
        "image"
    }

    pub fn aliases(&self) -> (r: Vec<&'static str>)
        ensures
            name_views(r@) == seq!["i"@, "iurl"@],
    {
        let r = vec!["i", "iurl"];
        assert(name_views(r@) =~= seq!["i"@, "iurl"@]);
        r
    }

    pub fn args(&self) -> (r: Vec<ArgSpec>)
        ensures
            r@.len() == 1,
            r@[0].name@ == "url"@,
            r@[0].arg_type == ArgType::Arg,
            !r@[0].optional,
    {
        vec![ArgSpec::new("url", ArgType::Arg, false)]
    }

    pub fn parent_command(&self) -> (r: Option<CommandId>)
        ensures
            r == Some(CommandId::AutoRes),
    {
        Some(CommandId::AutoRes)
    }
}

/// `autores list`: lists the triggers of the guild's auto-responses.
pub struct ListAutoResponseCommand;

impl ListAutoResponseCommand {
    pub fn name(&self) -> (r: &'static str)
        ensures
            r@ == "list"@,
    {
        "list"
    }

    pub fn parent_command(&self) -> (r: Option<CommandId>)
        ensures
            r == Some(CommandId::AutoRes),
    {
        Some(CommandId::AutoRes)
    }
}

/// Every character of `trim(t)` is a character of `t`.
proof fn lemma_trim_keeps_chars(t: Seq<char>, c: char)
    requires
        !t.contains(c),
    ensures
        !trim(t).contains(c),
{
    lemma_ws_prefix_len_bound(t);
    let u = trim_start(t);
    lemma_ws_suffix_len_bound(u);
    assert forall|k: int| 0 <= k < trim(t).len() implies trim(t)[k] != c by {
        assert(trim(t)[k] == u[k]);
        assert(u[k] == t[ws_prefix_len(t) + k]);
    }
}

/// A character of `s` that is not `|` where `|` does not occur at its index.
proof fn lemma_no_bar_at(s: Seq<char>, j: int)
    requires
        0 <= j < s.len(),
        !occurs_at(s, seq!['|'], j),
    ensures
        s[j] != '|',
{
    if s[j] == '|' {
        assert(s.subrange(j, j + 1) =~= seq!['|']);
    }
}

/// Where `p` occurs at `i`, it has a first occurrence.
proof fn lemma_least_occurrence(s: Seq<char>, p: Seq<char>, i: int)
    requires
        occurs_at(s, p, i),
    ensures
        exists|k: int| occurs_at(s, p, k) && forall|j: int| 0 <= j < k ==> !occurs_at(s, p, j),
    decreases i,
{
    if exists|j: int| 0 <= j < i && occurs_at(s, p, j) {
        let j = choose|j: int| 0 <= j < i && occurs_at(s, p, j);
        lemma_least_occurrence(s, p, j);
    } else {
        assert(occurs_at(s, p, i) && forall|j: int| 0 <= j < i ==> !occurs_at(s, p, j));
    }
}

/// The trigger that `trigger | value` gives holds no `|`: the text is cut at
/// its first bar.
pub proof fn law_trigger_has_no_bar(s: Seq<char>)
    ensures
        !split_trigger(s).0.contains('|'),
{
    let bar = seq!['|'];
    if contains(s, bar) {
        let i0 = choose|i: int| occurs_at(s, bar, i);
        lemma_least_occurrence(s, bar, i0);
        let i = first_occurrence(s, bar)->0;
        assert(occurs_at(s, bar, i) && forall|j: int| 0 <= j < i ==> !occurs_at(s, bar, j));
        let t = s.take(i);
        assert forall|k: int| 0 <= k < t.len() implies t[k] != '|' by {
            lemma_no_bar_at(s, k);
        }
        lemma_trim_keeps_chars(t, '|');
    } else {
        assert forall|k: int| 0 <= k < s.len() implies s[k] != '|' by {
            lemma_no_bar_at(s, k);
        }
        lemma_trim_keeps_chars(s, '|');
    }
}

/// The reply of `autores add`: Yellow `autores-existed` where the trigger
/// already has an auto-response; else Green `autores-create-success` or Red
/// `autores-create-failed` as the creation went.
pub fn add_autores_reply(existed: bool, created: bool) -> (r: Reply)
    ensures
        existed ==> r.key@ == "autores-existed"@ && r.color == Some(ReplyColor::Yellow),
        !existed && created ==> r.key@ == "autores-create-success"@ && r.color == Some(
            ReplyColor::Green,
        ),
        !existed && !created ==> r.key@ == "autores-create-failed"@ && r.color == Some(
            ReplyColor::Red,
        ),
        !r.ephemeral,
{
    if existed {
        Reply { key: "autores-existed", color: Some(ReplyColor::Yellow), ephemeral: false }
    } else if created {
        Reply { key: "autores-create-success", color: Some(ReplyColor::Green), ephemeral: false }
    } else {
        Reply { key: "autores-create-failed", color: Some(ReplyColor::Red), ephemeral: false }
    }
}

/// The stored response of a new auto-response: none for an empty response,
/// else a message of type `Message` holding it.
pub fn autores_response(response: &str) -> (r: Option<(&'static str, String)>)
    ensures
        response@.len() == 0 ==> r is None,
        response@.len() > 0 ==> (r matches Some((t, c)) && t@ == "Message"@ && c@ == response@),
{
    if response.is_empty() {
        None
    } else {
        Some(("Message", String::from_str(response)))
    }
}

/// The outcome of `autores image` once the auto-response was found: an
/// image URL that is not valid is refused with `autores-invalid-url`; else
/// Green `autores-update-success` or Red `autores-update-failed` as the
/// update went.
pub fn image_update_reply(url_valid: bool, updated: bool) -> (r: Result<Reply, &'static str>)
    ensures
        !url_valid ==> (r matches Err(k) && k@ == "autores-invalid-url"@),
        url_valid && updated ==> (r matches Ok(m) && m.key@ == "autores-update-success"@ && m.color
            == Some(ReplyColor::Green) && !m.ephemeral),
        url_valid && !updated ==> (r matches Ok(m) && m.key@ == "autores-update-failed"@ && m.color
            == Some(ReplyColor::Red) && !m.ephemeral),
{
    if !url_valid {
        Err("autores-invalid-url")
    } else if updated {
        Ok(Reply { key: "autores-update-success", color: Some(ReplyColor::Green), ephemeral: false })
    } else {
        Ok(Reply { key: "autores-update-failed", color: Some(ReplyColor::Red), ephemeral: false })
    }
}

/// The reply of `autores color` once the colour was read: Green
/// `autores-updated` with the description `Color hex: hex` where the update
/// went through, else Red `autores-update-failed` with no description.
pub fn color_update_reply(updated: bool, hex: &str) -> (r: (Reply, Option<String>))
    ensures
        updated ==> r.0.key@ == "autores-updated"@ && r.0.color == Some(ReplyColor::Green) && (
        r.1 matches Some(d) && d@ == "Color hex: "@ + hex@),
        !updated ==> r.0.key@ == "autores-update-failed"@ && r.0.color == Some(ReplyColor::Red)
            && r.1 is None,
        !r.0.ephemeral,
{
    if updated {
        let mut d = String::from_str("Color hex: ");
        d.append(hex);
        (Reply { key: "autores-updated", color: Some(ReplyColor::Green), ephemeral: false }, Some(d))
    } else {
        (Reply { key: "autores-update-failed", color: Some(ReplyColor::Red), ephemeral: false }, None)
    }
}

} // verus!
