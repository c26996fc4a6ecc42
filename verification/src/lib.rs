//! Verified core logic of a Discord bot: command parsing, music queues,
//! AFK tracking, role checks, paging and related text handling.

pub mod text;
pub mod voice_manager;
pub mod commands;
pub mod soundcloud_api;
pub mod youtube;
pub mod parse_url;
pub mod message_create;
pub mod buttons;
pub mod afk;
pub mod paging;
pub mod tickets;
pub mod messages;
pub mod discord_client;
pub mod unique_bot_guild_entity_router;
