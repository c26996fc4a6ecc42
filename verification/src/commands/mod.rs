//! Prefix ("context") commands: the description of their arguments, their
//! names, aliases and required permissions, and the pure parts of what they do.

pub mod admin;
pub mod auto_response;
pub mod general;
pub mod voice;
pub mod slash;

use vstd::prelude::*;
use twilight_model::guild::Permissions;

verus! {

/// The kind of value a command argument takes.
#[derive(Clone, Copy, Debug, PartialEq, Eq, Structural)]
pub enum ArgType {
    /// A single word.
    Arg,
    /// The rest of the message.
    Text,
    /// An integer.
    Number,
    /// Mentioned users.
    Users,
    /// A channel.
    Channel,
}

/// One argument of a command: its name in help texts, its kind, and whether
/// it may be left out.
pub struct ArgSpec {
    pub name: String,
    pub arg_type: ArgType,
    pub optional: bool,
}

impl ArgSpec {
    pub fn new(name: &str, arg_type: ArgType, optional: bool) -> (r: ArgSpec)
        ensures
            r.name@ == name@,
            r.arg_type == arg_type,
            r.optional == optional,
    {
        ArgSpec { name: String::from_str(name), arg_type, optional }
    }
}

/// An argument as parsed from a message, users and channels by their ids.
#[derive(Debug)]
pub enum ParsedArg {
    Arg(String),
    Text(String),
    Number(i64),
    Users(Vec<u64>),
    Channel(u64),
}

/// A guild permission, as the bot asks for it or grants it.
#[derive(Clone, Copy, Debug, PartialEq, Eq, Structural)]
pub enum Permission {
    Administrator,
    ViewChannel,
    SendMessages,
    ManageMessages,
    ReadMessageHistory,
    ManageRoles,
    ModerateMembers,
}

/// The Discord permission bit of `p`.
pub open spec fn permission_bit(p: Permission) -> u64 {
    match p {
        Permission::Administrator => 1u64 << 3u64,
        Permission::ViewChannel => 1u64 << 10u64,
        Permission::SendMessages => 1u64 << 11u64,
        Permission::ManageMessages => 1u64 << 13u64,
        Permission::ReadMessageHistory => 1u64 << 16u64,
        Permission::ManageRoles => 1u64 << 28u64,
        Permission::ModerateMembers => 1u64 << 40u64,
    }
}

/// The bits of twilight-model's `Permissions` constant of the same name
/// (`Permissions::ADMINISTRATOR` and so on), read with `Permissions::bits`;
/// the match only picks the constant that corresponds to `p`. Trusted: the
/// contract restates the shift that twilight-model declares for each
/// constant.
#[verifier::external_body]
fn flag_bits(p: Permission) -> (r: u64)
    ensures
        r == permission_bit(p),
{
    match p {
        Permission::Administrator => Permissions::ADMINISTRATOR.bits(),
        Permission::ViewChannel => Permissions::VIEW_CHANNEL.bits(),
        Permission::SendMessages => Permissions::SEND_MESSAGES.bits(),
        Permission::ManageMessages => Permissions::MANAGE_MESSAGES.bits(),
        Permission::ReadMessageHistory => Permissions::READ_MESSAGE_HISTORY.bits(),
        Permission::ManageRoles => Permissions::MANAGE_ROLES.bits(),
        Permission::ModerateMembers => Permissions::MODERATE_MEMBERS.bits(),
    }
}

impl Permission {
    /// The Discord permission bit of this permission.
    pub fn bits(&self) -> (r: u64)
        ensures
            r == permission_bit(*self),
    {
        flag_bits(*self)
    }
}

/// Every prefix command of the bot, by name of its type.
#[derive(Clone, Copy, Debug, PartialEq, Eq, Structural)]
pub enum CommandId {
    ChangePrefix,
    ChangeLanguage,
    Purge,
    BanMember,
    UnbanMember,
    KickMember,
    TimeoutMember,
    UntimeoutMember,
    Role,
    AutoRes,
    AddAutoResponse,
    DeleteAutoResponse,
    ListAutoResponse,
    ImageUpdateAutoRes,
    ThumbnailUpdateAutoRes,
    ColorUpdateAutoRes,
    ContentUpdateAutoRes,
    MessageUpdateAutoRes,
    Afk,
    Join,
    LeaveChannel,
    MusicHelp,
    Play,
    PauseMusic,
    ResumeMusic,
    StopMusic,
    SkipCurrentTrack,
    Queue,
    CurrentSong,
    SkipToTrack,
    LoopMusic,
    LoopQueueMusic,
    UnloopMusic,
}

/// The views of a list of names.
pub open spec fn name_views(v: Seq<&'static str>) -> Seq<Seq<char>> {
    v.map_values(|s: &'static str| s@)
}

} // verus!
