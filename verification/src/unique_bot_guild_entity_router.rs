//! The path of the routes that read and update an entity by the Discord ids
//! of a bot and a guild.

use vstd::prelude::*;

verus! {

/// `/<path>/:bot_discord_id/:guild_discord_id`.
pub open spec fn bot_guild_route_of(path: Seq<char>) -> Seq<char> {
    "/"@ + path + "/:bot_discord_id/:guild_discord_id"@
}

pub fn bot_guild_route(path: &str) -> (r: String)
    ensures
        r@ == bot_guild_route_of(path@),
{
    let mut r = String::from_str("/");
    r.append(path);
    r.append("/:bot_discord_id/:guild_discord_id");
    r
}

} // verus!
