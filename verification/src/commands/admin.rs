//! Administrator commands, and the pure decisions behind `purge`, `language`
//! and `role`.

use vstd::prelude::*;
use crate::messages::{Reply, ReplyColor};
use crate::text::{
    chars_eq, chars_of, contains, find, has_prefix, has_suffix, lower, lower_chars, matches_at,
    parse_u64_chars, parse_u64_spec,
};
use super::{ArgSpec, ArgType, CommandId, Permission, name_views};

verus! {

/// `changeprefix`: sets the guild's command prefix.
pub struct ChangePrefixCommand;

impl ChangePrefixCommand {
    pub fn name(&self) -> (r: &'static str)
        ensures
            r@ == "changeprefix"@,
    {
        "changeprefix"
    }

    pub fn aliases(&self) -> (r: Vec<&'static str>)
        ensures
            name_views(r@) == seq!["prefix"@, "chprefix"@],
    {
        let r = vec!["prefix", "chprefix"];
        assert(name_views(r@) =~= seq!["prefix"@, "chprefix"@]);
        r
    }

    pub fn args(&self) -> (r: Vec<ArgSpec>)
        ensures
            r@.len() == 1,
            r@[0].name@ == "new prefix"@,
            r@[0].arg_type == ArgType::Arg,
            !r@[0].optional,
    {
        vec![ArgSpec::new("new prefix", ArgType::Arg, false)]
    }

    pub fn permissions(&self) -> (r: Vec<Permission>)
        ensures
            r@ == seq![Permission::Administrator],
    {
        let r = vec![Permission::Administrator];
        assert(r@ =~= seq![Permission::Administrator]);
        r
    }
}

/// `language`: sets the guild's language.
pub struct ChangeLanguageCommand;

impl ChangeLanguageCommand {
    pub fn name(&self) -> (r: &'static str)
        ensures
            r@ == "language"@,
    {
        "language"
    }

    pub fn aliases(&self) -> (r: Vec<&'static str>)
        ensures
            name_views(r@) == seq!["locale"@, "changelanguage"@],
    {
        let r = vec!["locale", "changelanguage"];
        assert(name_views(r@) =~= seq!["locale"@, "changelanguage"@]);
        r
    }

    pub fn args(&self) -> (r: Vec<ArgSpec>)
        ensures
            r@.len() == 1,
            r@[0].name@ == "language (en/vn)"@,
            r@[0].arg_type == ArgType::Arg,
            !r@[0].optional,
    {
        vec![ArgSpec::new("language (en/vn)", ArgType::Arg, false)]
    }

    pub fn permissions(&self) -> (r: Vec<Permission>)
        ensures
            r@ == seq![Permission::Administrator],
    {
        let r = vec![Permission::Administrator];
        assert(r@ =~= seq![Permission::Administrator]);
        r
    }
}

/// `purge`: deletes recent messages of the channel.
pub struct PurgeCommand;

impl PurgeCommand {
    pub fn name(&self) -> (r: &'static str)
        ensures
            r@ == "purge"@,
    {
        "purge"
    }

    pub fn aliases(&self) -> (r: Vec<&'static str>)
        ensures
            name_views(r@) == seq!["clear"@],
    {
        let r = vec!["clear"];
        assert(name_views(r@) =~= seq!["clear"@]);
        r
    }

    pub fn args(&self) -> (r: Vec<ArgSpec>)
        ensures
            r@.len() == 1,
            r@[0].name@ == "amount of messages"@,
            r@[0].arg_type == ArgType::Number,
            !r@[0].optional,
    {
        vec![ArgSpec::new("amount of messages", ArgType::Number, false)]
    }

    pub fn permissions(&self) -> (r: Vec<Permission>)
        ensures
            r@ == seq![Permission::ManageMessages],
    {
        let r = vec![Permission::ManageMessages];
        assert(r@ =~= seq![Permission::ManageMessages]);
        r
    }
}

/// `role`: gives or takes a role from users.
pub struct RoleCommand;

impl RoleCommand {
    pub fn name(&self) -> (r: &'static str)
        ensures
            r@ == "role"@,
    {
        "role"
    }

    pub fn aliases(&self) -> (r: Vec<&'static str>)
        ensures
            name_views(r@) == seq!["setrole"@],
    {
        let r = vec!["setrole"];
        assert(name_views(r@) =~= seq!["setrole"@]);
        r
    }

    pub fn args(&self) -> (r: Vec<ArgSpec>)
        ensures
            r@.len() == 2,
            r@[0].name@ == "users"@,
            r@[0].arg_type == ArgType::Users,
            !r@[0].optional,
            r@[1].name@ == "role"@,
            r@[1].arg_type == ArgType::Text,
            !r@[1].optional,
    {
        vec![ArgSpec::new("users", ArgType::Users, false), ArgSpec::new("role", ArgType::Text, false)]
    }

    pub fn permissions(&self) -> (r: Vec<Permission>)
        ensures
            r@ == seq![Permission::ManageRoles],
    {
        let r = vec![Permission::ManageRoles];
        assert(r@ =~= seq![Permission::ManageRoles]);
        r
    }
}

/// `untimeout`: lifts the timeout of users.
pub struct UntimeoutMemberCommand;

impl UntimeoutMemberCommand {
    pub fn name(&self) -> (r: &'static str)
        ensures
            r@ == "untimeout"@,
    {
        "untimeout"
    }

    pub fn aliases(&self) -> (r: Vec<&'static str>)
        ensures
            name_views(r@) == seq!["unmute"@],
    {
        let r = vec!["unmute"];
        assert(name_views(r@) =~= seq!["unmute"@]);
        r
    }

    pub fn args(&self) -> (r: Vec<ArgSpec>)
        ensures
            r@.len() == 1,
            r@[0].name@ == "users"@,
            r@[0].arg_type == ArgType::Users,
            !r@[0].optional,
    {
        vec![ArgSpec::new("users", ArgType::Users, false)]
    }

    pub fn permissions(&self) -> (r: Vec<Permission>)
        ensures
            r@ == seq![Permission::ModerateMembers],
    {
        let r = vec![Permission::ModerateMembers];
        assert(r@ =~= seq![Permission::ModerateMembers]);
        r
    }
}

/// The administrator command category.
pub struct AdminCommands;

impl AdminCommands {
    pub fn name(&self) -> (r: &'static str)
        ensures
            r@ == "Administrator"@,
    {
        "Administrator"
    }

    pub fn collect_commands(&self) -> (r: Vec<CommandId>)
        ensures
            r@ == seq![
                CommandId::ChangePrefix,
                CommandId::ChangeLanguage,
                CommandId::Purge,
                CommandId::BanMember,
                CommandId::UnbanMember,
                CommandId::KickMember,
                CommandId::TimeoutMember,
                CommandId::UntimeoutMember,
                CommandId::Role,
                CommandId::AutoRes,
            ],
    {
        let r = vec![
            CommandId::ChangePrefix,
            CommandId::ChangeLanguage,
            CommandId::Purge,
            CommandId::BanMember,
            CommandId::UnbanMember,
            CommandId::KickMember,
            CommandId::TimeoutMember,
            CommandId::UntimeoutMember,
            CommandId::Role,
            CommandId::AutoRes,
        ];
        assert(r@ =~= seq![
            CommandId::ChangePrefix,
            CommandId::ChangeLanguage,
            CommandId::Purge,
            CommandId::BanMember,
            CommandId::UnbanMember,
            CommandId::KickMember,
            CommandId::TimeoutMember,
            CommandId::UntimeoutMember,
            CommandId::Role,
            CommandId::AutoRes,
        ]);
        r
    }
}

/// How many messages `purge` fetches and deletes for the requested `amount`:
/// a negative amount counts as 100, and the count is kept within 2..=100,
/// the bounds of Discord's bulk delete.
pub open spec fn purge_count(amount: int) -> int {
    if amount < 0 {
        100
    } else if amount > 100 {
        100
    } else if amount < 2 {
        2
    } else {
        amount
    }
}

pub fn purge_amount(amount: i64) -> (r: u64)
    ensures
        r == purge_count(amount as int),
        2 <= r <= 100,
{
    let n: u64 = if amount < 0 {
        100
    } else {
        amount as u64
    };
    if n > 100 {
        100
    } else if n < 2 {
        2
    } else {
        n
    }
}

/// Whether `language` is one of the locales the bot speaks (`en`, `vn`).
pub fn is_available_locale(language: &str) -> (r: bool)
    ensures
        r == (language@ == "en"@ || language@ == "vn"@),
{
    let l = chars_of(language);
    let en = chars_of("en");
    let vn = chars_of("vn");
    chars_eq(&l, &en) || chars_eq(&l, &vn)
}

/// What is known of a guild role: its id, name and position in the hierarchy.
pub struct RoleInfo {
    pub id: u64,
    pub name: String,
    pub position: i64,
}

/// The position of the first role in `roles` with id `id`, if any.
pub open spec fn position_of(roles: Seq<RoleInfo>, id: u64) -> Option<i64>
    decreases roles.len(),
{
    if roles.len() == 0 {
        None
    } else if roles[0].id == id {
        Some(roles[0].position)
    } else {
        position_of(roles.drop_first(), id)
    }
}

/// The highest position among the roles of `ids` that `roles` holds, if any.
pub open spec fn highest_position(ids: Seq<u64>, roles: Seq<RoleInfo>) -> Option<i64>
    decreases ids.len(),
{
    if ids.len() == 0 {
        None
    } else {
        let rest = highest_position(ids.drop_last(), roles);
        match (rest, position_of(roles, ids.last())) {
            (Some(a), Some(b)) => Some(if a >= b { a } else { b }),
            (Some(a), None) => Some(a),
            (None, b) => b,
        }
    }
}

/// Why `can_bot_manage_role` gave no answer.
#[derive(Debug, PartialEq, Eq, Structural)]
pub enum RoleError {
    TargetRoleNotFound,
}

/// The position of the first role with id `id` in `roles`.
fn find_position(roles: &Vec<RoleInfo>, id: u64) -> (r: Option<i64>)
    ensures
        r == position_of(roles@, id),
{
    let mut i: usize = 0;
    assert(roles@.skip(0) =~= roles@);
    while i < roles.len()
        invariant
            i <= roles.len(),
            position_of(roles@, id) == position_of(roles@.skip(i as int), id),
        decreases roles.len() - i,
    {
        assert(roles@.skip(i as int).drop_first() =~= roles@.skip(i + 1));
        if roles[i].id == id {
            return Some(roles[i].position);
        }
        i += 1;
    }
    None
}

/// Whether the bot, holding the roles `bot_role_ids`, ranks above the role
/// `target` among the guild's `roles`: its highest role (0 where it holds none
/// of them) must be above the target's position. An error where the guild has
/// no role `target`.
pub fn can_bot_manage_role(bot_role_ids: &Vec<u64>, roles: &Vec<RoleInfo>, target: u64) -> (r:
    Result<bool, RoleError>)
    ensures
        match position_of(roles@, target) {
            Some(p) => r == Ok::<bool, RoleError>(
                (match highest_position(bot_role_ids@, roles@) {
                    Some(h) => h,
                    None => 0,
                }) > p,
            ),
            None => r == Err::<bool, RoleError>(RoleError::TargetRoleNotFound),
        },
        position_of(roles@, target) matches Some(p) ==> (r matches Ok(b) && (b <==> ((exists|i: int|
            0 <= i < bot_role_ids@.len() && (#[trigger] position_of(roles@, bot_role_ids@[i])
                matches Some(q) && q > p)) || ((forall|i: int|
            0 <= i < bot_role_ids@.len() ==> #[trigger] position_of(roles@, bot_role_ids@[i])
                is None) && 0 > p)))),
{
    proof {
        law_highest_position(bot_role_ids@, roles@);
    }
    let mut best: Option<i64> = None;
    let mut i: usize = 0;
    while i < bot_role_ids.len()
        invariant
            i <= bot_role_ids.len(),
            best == highest_position(bot_role_ids@.take(i as int), roles@),
        decreases bot_role_ids.len() - i,
    {
        let p = find_position(roles, bot_role_ids[i]);
        assert(bot_role_ids@.take(i + 1).drop_last() =~= bot_role_ids@.take(i as int));
        best = match (best, p) {
            (Some(a), Some(b)) => Some(if a >= b { a } else { b }),
            (Some(a), None) => Some(a),
            (None, b) => b,
        };
        i += 1;
    }
    assert(bot_role_ids@.take(i as int) =~= bot_role_ids@);
    let highest: i64 = match best {
        Some(h) => h,
        None => 0,
    };
    match find_position(roles, target) {
        Some(p) => Ok(highest > p),
        None => Err(RoleError::TargetRoleNotFound),
    }
}

/// How `find_role` reads its argument: a role id, a role mention `<@&id>`,
/// or otherwise a name.
pub open spec fn role_arg_id(arg: Seq<char>) -> Option<u64> {
    match parse_u64_spec(arg) {
        Some(n) => Some(n),
        None => if has_prefix(arg, "<@&"@) && has_suffix(arg, ">"@) && arg.len() >= 4 {
            parse_u64_spec(arg.subrange(3, arg.len() - 1))
        } else {
            None
        },
    }
}

/// A role whose name equals `arg` ignoring ASCII case, or contains it in ASCII lower case.
pub open spec fn role_name_matches(name: Seq<char>, arg: Seq<char>) -> bool {
    lower(name) == lower(arg) || contains(lower(name), lower(arg))
}

/// Whether the role named `name` matches the lower-cased argument `arg_lower`.
fn name_matches(name: &String, arg_lower: &Vec<char>) -> (r: bool)
    requires
        exists|a: Seq<char>| arg_lower@ == lower(a),
    ensures
        forall|a: Seq<char>| arg_lower@ == lower(a) ==> r == role_name_matches(name@, a),
{
    let n = lower_chars(name.as_str());
    chars_eq(&n, arg_lower) || find(&n, arg_lower).is_some()
}

/// The index in `roles` of the role that `arg` designates: the first with the
/// id it gives, or where it gives none, the first whose name matches it.
/// `None` where no role fits. An argument that gives the id 0 is not accepted.
pub fn find_role(roles: &Vec<RoleInfo>, arg: &str) -> (r: Option<usize>)
    requires
        role_arg_id(arg@) != Some(0u64),
    ensures
        match role_arg_id(arg@) {
            Some(id) => match r {
                Some(i) => i < roles@.len() && roles@[i as int].id == id && forall|j: int|
                    0 <= j < i ==> roles@[j].id != id,
                None => forall|j: int| 0 <= j < roles@.len() ==> roles@[j].id != id,
            },
            None => match r {
                Some(i) => i < roles@.len() && role_name_matches(roles@[i as int].name@, arg@)
                    && forall|j: int| 0 <= j < i ==> !role_name_matches(roles@[j].name@, arg@),
                None => forall|j: int|
                    0 <= j < roles@.len() ==> !role_name_matches(roles@[j].name@, arg@),
            },
        },
{
    let v = chars_of(arg);
    let mut id = parse_u64_chars(&v, 0, v.len());
    assert(v@.subrange(0, v@.len() as int) =~= v@);
    if id.is_none() {
        let open = chars_of("<@&");
        let close = chars_of(">");
        proof {
            reveal_strlit(">");
            reveal_strlit("<@&");
        }
        if v.len() >= 4 && matches_at(&v, &open, 0) && matches_at(&v, &close, v.len() - 1) {
            id = parse_u64_chars(&v, 3, v.len() - 1);
        }
    }
    assert(id == role_arg_id(arg@));
    match id {
        Some(n) => {
            let mut i: usize = 0;
            while i < roles.len()
                invariant
                    i <= roles.len(),
                    role_arg_id(arg@) == Some(n),
                    forall|j: int| 0 <= j < i ==> roles@[j].id != n,
                decreases roles.len() - i,
            {
                if roles[i].id == n {
                    return Some(i);
                }
                i += 1;
            }
            None
        },
        None => {
            let a = lower_chars(arg);
            let mut i: usize = 0;
            while i < roles.len()
                invariant
                    i <= roles.len(),
                    a@ == lower(arg@),
                    role_arg_id(arg@) is None,
                    forall|j: int| 0 <= j < i ==> !role_name_matches(roles@[j].name@, arg@),
                decreases roles.len() - i,
            {
                if name_matches(&roles[i].name, &a) {
                    return Some(i);
                }
                i += 1;
            }
            None
        },
    }
}

/// The reply of `role` for one user: a user who had the role has it
/// removed, the others are given it; `succeeded` is whether Discord carried
/// the change out. Green on success, Red on failure.
pub fn role_change_key(had_role: bool, succeeded: bool) -> (r: Reply)
    ensures
        r.key@ == (if had_role {
            if succeeded {
                "command-role-remove-success"@
            } else {
                "command-role-remove-fail"@
            }
        } else {
            if succeeded {
                "command-role-add-success"@
            } else {
                "command-role-add-fail"@
            }
        }),
        r.color == Some(if succeeded { ReplyColor::Green } else { ReplyColor::Red }),
        !r.ephemeral,
{
    let key = if had_role {
        if succeeded {
            "command-role-remove-success"
        } else {
            "command-role-remove-fail"
        }
    } else {
        if succeeded {
            "command-role-add-success"
        } else {
            "command-role-add-fail"
        }
    };
    let color = if succeeded {
        ReplyColor::Green
    } else {
        ReplyColor::Red
    };
    Reply { key, color: Some(color), ephemeral: false }
}

/// The reply of `untimeout` for one user: a muted user is released (Green),
/// or the release failed (Red); a user who is not muted is reported as such
/// (Yellow).
pub fn untimeout_key(muted: bool, succeeded: bool) -> (r: Reply)
    ensures
        !muted ==> r.key@ == "command-untimeout-notfound"@ && r.color == Some(ReplyColor::Yellow),
        muted && succeeded ==> r.key@ == "command-untimeout-success"@ && r.color == Some(
            ReplyColor::Green,
        ),
        muted && !succeeded ==> r.key@ == "command-untimeout-fail"@ && r.color == Some(
            ReplyColor::Red,
        ),
        !r.ephemeral,
{
    if !muted {
        Reply { key: "command-untimeout-notfound", color: Some(ReplyColor::Yellow), ephemeral: false }
    } else if succeeded {
        Reply { key: "command-untimeout-success", color: Some(ReplyColor::Green), ephemeral: false }
    } else {
        Reply { key: "command-untimeout-fail", color: Some(ReplyColor::Red), ephemeral: false }
    }
}

/// The confirmation of `language`, which names the value the updated guild
/// configuration holds in its prefix field:
/// ``Language updated successfully. New language: `value` ``.
pub fn language_updated_text(value: &str) -> (r: String)
    ensures
        r@ == "Language updated successfully. New language: `"@ + value@ + "`"@,
{
    let mut r = String::from_str("Language updated successfully. New language: `");
    r.append(value);
    r.append("`");
    r
}

/// The Red refusal of `role` where the bot cannot manage the role (its
/// highest role is not above it); none where it can.
pub fn role_no_perm_key(manageable: bool) -> (r: Option<Reply>)
    ensures
        manageable ==> r is None,
        !manageable ==> (r matches Some(m) && m.key@ == "command-role-no-perm"@ && m.color == Some(
            ReplyColor::Red,
        ) && !m.ephemeral),
{
    if manageable {
        None
    } else {
        Some(Reply { key: "command-role-no-perm", color: Some(ReplyColor::Red), ephemeral: false })
    }
}

/// What `changeprefix` answers, as plain text: the `command-prefix-invalid`
/// message for an empty prefix, the `command-prefix-success` message where
/// the guild's prefix was updated, else a fixed failure text.
pub enum ConfigReply {
    Key(&'static str),
    Text(&'static str),
}

pub fn prefix_reply(new_prefix: &str, updated: bool) -> (r: ConfigReply)
    ensures
        new_prefix@.len() == 0 ==> (r matches ConfigReply::Key(k) && k@
            == "command-prefix-invalid"@),
        new_prefix@.len() > 0 && updated ==> (r matches ConfigReply::Key(k) && k@
            == "command-prefix-success"@),
        new_prefix@.len() > 0 && !updated ==> (r matches ConfigReply::Text(t) && t@
            == "Failed to update prefix for this guild"@),
{
    if new_prefix.is_empty() {
        ConfigReply::Key("command-prefix-invalid")
    } else if updated {
        ConfigReply::Key("command-prefix-success")
    } else {
        ConfigReply::Text("Failed to update prefix for this guild")
    }
}

/// The plain text refusal of `language`: `Invalid language` for a language
/// the bot does not speak, a failure text where the update failed; none
/// where the language was set (then `language_updated_text` answers).
pub fn language_reply(language: &str, updated: bool) -> (r: Option<&'static str>)
    ensures
        !(language@ == "en"@ || language@ == "vn"@) ==> (r matches Some(t) && t@
            == "Invalid language"@),
        (language@ == "en"@ || language@ == "vn"@) && !updated ==> (r matches Some(t) && t@
            == "Failed to update language for this guild"@),
        (language@ == "en"@ || language@ == "vn"@) && updated ==> r is None,
{
    if !is_available_locale(language) {
        Some("Invalid language")
    } else if !updated {
        Some("Failed to update language for this guild")
    } else {
        None
    }
}

/// The position that `position_of` gives is that of the first role in the
/// list with the id, and there is none exactly where no role has it.
pub proof fn law_position_of(roles: Seq<RoleInfo>, id: u64)
    ensures
        position_of(roles, id) is None <==> forall|j: int|
            0 <= j < roles.len() ==> #[trigger] roles[j].id != id,
        position_of(roles, id) matches Some(p) ==> exists|j: int|
            0 <= j < roles.len() && #[trigger] roles[j].id == id && roles[j].position == p && forall|
                k: int,
            | 0 <= k < j ==> roles[k].id != id,
    decreases roles.len(),
{
    if roles.len() > 0 {
        law_position_of(roles.drop_first(), id);
        if roles[0].id != id {
            assert forall|j: int| 0 < j < roles.len() implies roles[j].id == roles.drop_first()[j
                - 1].id by {}
            if position_of(roles, id) is None {
                assert forall|j: int| 0 <= j < roles.len() implies #[trigger] roles[j].id != id by {
                    if j > 0 {
                        assert(roles.drop_first()[j - 1].id != id);
                    }
                }
            } else {
                let p = position_of(roles, id)->0;
                let j1 = choose|j: int|
                    0 <= j < roles.drop_first().len() && #[trigger] roles.drop_first()[j].id == id
                        && roles.drop_first()[j].position == p && forall|k: int|
                        0 <= k < j ==> roles.drop_first()[k].id != id;
                assert(roles[j1 + 1].id == id);
                assert forall|k: int| 0 <= k < j1 + 1 implies roles[k].id != id by {
                    if k > 0 {
                        assert(roles.drop_first()[k - 1].id != id);
                    }
                }
            }
            if exists|j: int| 0 <= j < roles.len() && #[trigger] roles[j].id == id {
                let j = choose|j: int| 0 <= j < roles.len() && #[trigger] roles[j].id == id;
                assert(roles.drop_first()[j - 1].id == id);
            }
        } else {
            assert(roles[0].id == id);
        }
    }
}

/// The bot's rank is the highest position among the roles it holds that the
/// guild has, whatever their order: none of them is above it, and it is the
/// position of one of them; there is none exactly where the guild has none
/// of them.
pub proof fn law_highest_position(ids: Seq<u64>, roles: Seq<RoleInfo>)
    ensures
        highest_position(ids, roles) is None <==> forall|i: int|
            0 <= i < ids.len() ==> #[trigger] position_of(roles, ids[i]) is None,
        forall|i: int|
            0 <= i < ids.len() && (#[trigger] position_of(roles, ids[i])) is Some ==> (
            highest_position(ids, roles) is Some && position_of(roles, ids[i])->0 <= highest_position(
                ids,
                roles,
            )->0),
        highest_position(ids, roles) matches Some(h) ==> exists|i: int|
            0 <= i < ids.len() && #[trigger] position_of(roles, ids[i]) == Some(h),
    decreases ids.len(),
{
    if ids.len() > 0 {
        let init = ids.drop_last();
        law_highest_position(init, roles);
        assert forall|i: int| 0 <= i < init.len() implies init[i] == ids[i] by {}
        let last = ids.len() - 1;
        assert(ids[last] == ids.last());
        if highest_position(ids, roles) is None {
            assert forall|i: int| 0 <= i < ids.len() implies #[trigger] position_of(
                roles,
                ids[i],
            ) is None by {
                if i < last {
                    assert(position_of(roles, init[i]) is None);
                }
            }
        }
        assert forall|i: int|
            0 <= i < ids.len() && (#[trigger] position_of(roles, ids[i])) is Some implies (
            highest_position(ids, roles) is Some && position_of(roles, ids[i])->0 <= highest_position(
                ids,
                roles,
            )->0) by {
            if i < last {
                assert(position_of(roles, init[i]) is Some);
            }
        }
        if highest_position(ids, roles) is Some {
            let h = highest_position(ids, roles)->0;
            if position_of(roles, ids.last()) == Some(h) {
                assert(position_of(roles, ids[last]) == Some(h));
            } else {
                let i = choose|i: int|
                    0 <= i < init.len() && #[trigger] position_of(roles, init[i]) == Some(h);
                assert(position_of(roles, ids[i]) == Some(h));
            }
        }
    }
}

} // verus!
