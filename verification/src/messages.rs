//! The content of the bot's messages, and how a stored auto-response is
//! turned into one.

use vstd::prelude::*;
use crate::text::{chars_eq, lower, lower_chars};

verus! {

/// A field of an embed.
pub struct DiscordEmbedField {
    pub name: String,
    pub value: String,
    pub inline: bool,
}

/// An embed as the bot builds it.
pub struct DiscordEmbed {
    pub author_name: Option<String>,
    pub author_icon_url: Option<String>,
    pub title: Option<String>,
    pub url: Option<String>,
    pub description: Option<String>,
    pub thumbnail: Option<String>,
    pub fields: Option<Vec<DiscordEmbedField>>,
    pub footer_text: Option<String>,
    pub footer_icon_url: Option<String>,
    pub color: Option<u32>,
}

impl Default for DiscordEmbed {
    fn default() -> (r: Self)
        ensures
            r.author_name is None,
            r.author_icon_url is None,
            r.title is None,
            r.url is None,
            r.description is None,
            r.thumbnail is None,
            r.fields is None,
            r.footer_text is None,
            r.footer_icon_url is None,
            r.color is None,
    {
        DiscordEmbed {
            author_name: None,
            author_icon_url: None,
            title: None,
            url: None,
            description: None,
            thumbnail: None,
            fields: None,
            footer_text: None,
            footer_icon_url: None,
            color: None,
        }
    }
}

/// The content of a message: text, embeds stored in the database (`M`),
/// embeds built by the bot, text with embeds, or nothing (`NoContent`).
pub enum MessageContent<M> {
    Text(String),
    EmbedModels(Vec<M>),
    TextAndEmbedModels(String, Vec<M>),
    DiscordEmbeds(Vec<DiscordEmbed>),
    TextAndDiscordEmbeds(String, Vec<DiscordEmbed>),
    NoContent,
}

impl<M> MessageContent<M> {
    /// Whether the content can be sent (`edit` false) or put in place of a
    /// message's content (`edit` true): nothing at all is refused.
    pub fn content_check(&self, edit: bool) -> (r: Result<(), &'static str>)
        ensures
            !(*self is NoContent) ==> r is Ok,
            *self is NoContent && edit ==> (r matches Err(e) && e@ == "No content provided for edit"@),
            *self is NoContent && !edit ==> (r matches Err(e) && e@
                == "No content provided for reply"@),
    {
        match self {
            MessageContent::NoContent => if edit {
                Err("No content provided for edit")
            } else {
                Err("No content provided for reply")
            },
            _ => Ok(()),
        }
    }

    /// Whether there is nothing to send; sending or editing such content is refused.
    pub fn is_no_content(&self) -> (r: bool)
        ensures
            r == (*self is NoContent),
    {
        match self {
            MessageContent::NoContent => true,
            _ => false,
        }
    }
}

/// The kind of a stored auto-response message.
#[derive(Clone, Copy, Debug, PartialEq, Eq, Structural)]
pub enum ResponseKind {
    Text,
    Embed,
    EmbedAndText,
    Unknown,
}

/// The kind that the stored type name `t` gives, compared in lower case:
/// `message`, `text` or `1`; `embed` or `2`; `embed and text` or `3`.
pub open spec fn response_kind_of(t: Seq<char>) -> ResponseKind {
    let l = lower(t);
    if l == "message"@ || l == "text"@ || l == "1"@ {
        ResponseKind::Text
    } else if l == "embed"@ || l == "2"@ {
        ResponseKind::Embed
    } else if l == "embed and text"@ || l == "3"@ {
        ResponseKind::EmbedAndText
    } else {
        ResponseKind::Unknown
    }
}

/// Whether the characters `w` spell `lit`.
fn spells(w: &Vec<char>, lit: &str) -> (r: bool)
    ensures
        r == (w@ == lit@),
{
    let l = crate::text::chars_of(lit);
    chars_eq(w, &l)
}

pub fn response_kind(t: &str) -> (r: ResponseKind)
    ensures
        r == response_kind_of(t@),
{
    let l = lower_chars(t);
    if spells(&l, "message") || spells(&l, "text") || spells(&l, "1") {
        ResponseKind::Text
    } else if spells(&l, "embed") || spells(&l, "2") {
        ResponseKind::Embed
    } else if spells(&l, "embed and text") || spells(&l, "3") {
        ResponseKind::EmbedAndText
    } else {
        ResponseKind::Unknown
    }
}

/// The content of an auto-response of kind `kind`, from its text (after
/// placeholders were filled in) and its embed (where it has one and it could
/// be loaded). `None` where the kind asks for a part that is missing, or is unknown.
pub fn assemble_response<M>(kind: ResponseKind, text: Option<String>, embed: Option<DiscordEmbed>)
    -> (r: Option<MessageContent<M>>)
    ensures
        match kind {
            ResponseKind::Text => match text {
                Some(t) => r == Some(MessageContent::<M>::Text(t)),
                None => r is None,
            },
            ResponseKind::Embed => match embed {
                Some(e) => r matches Some(MessageContent::DiscordEmbeds(v)) && v@ == seq![e],
                None => r is None,
            },
            ResponseKind::EmbedAndText => match (text, embed) {
                (Some(t), Some(e)) => r matches Some(MessageContent::TextAndDiscordEmbeds(t2, v))
                    && t2 == t && v@ == seq![e],
                (None, Some(e)) => r matches Some(MessageContent::DiscordEmbeds(v)) && v@ == seq![
                    e,
                ],
                (Some(t), None) => r == Some(MessageContent::<M>::Text(t)),
                (None, None) => r is None,
            },
            ResponseKind::Unknown => r is None,
        },
{
    match kind {
        ResponseKind::Text => match text {
            Some(t) => Some(MessageContent::Text(t)),
            None => None,
        },
        ResponseKind::Embed => match embed {
            Some(e) => Some(MessageContent::DiscordEmbeds(vec![e])),
            None => None,
        },
        ResponseKind::EmbedAndText => match (text, embed) {
            (Some(t), Some(e)) => Some(MessageContent::TextAndDiscordEmbeds(t, vec![e])),
            (None, Some(e)) => Some(MessageContent::DiscordEmbeds(vec![e])),
            (Some(t), None) => Some(MessageContent::Text(t)),
            (None, None) => None,
        },
        ResponseKind::Unknown => None,
    }
}

/// The colours the bot gives its embeds and buttons.
#[derive(Clone, Copy, Debug, PartialEq, Eq, Structural)]
pub enum ReplyColor {
    Red,
    Green,
    Yellow,
    Blue,
}

/// The numeric value of each colour, as the bot's configuration gives it.
#[derive(Clone, Copy, Debug, PartialEq, Eq, Structural)]
pub struct Palette {
    pub red: u32,
    pub green: u32,
    pub yellow: u32,
    pub blue: u32,
}

/// The value of `c` in `p`.
pub open spec fn color_value(p: Palette, c: ReplyColor) -> u32 {
    match c {
        ReplyColor::Red => p.red,
        ReplyColor::Green => p.green,
        ReplyColor::Yellow => p.yellow,
        ReplyColor::Blue => p.blue,
    }
}

impl Palette {
    pub fn value(&self, c: ReplyColor) -> (r: u32)
        ensures
            r == color_value(*self, c),
    {
        match c {
            ReplyColor::Red => self.red,
            ReplyColor::Green => self.green,
            ReplyColor::Yellow => self.yellow,
            ReplyColor::Blue => self.blue,
        }
    }
}

/// A reply made of one localized message: its key, the colour of its embed
/// (none for a plain embed), and whether only the user who acted sees it.
#[derive(Clone, Copy, Debug)]
pub struct Reply {
    pub key: &'static str,
    pub color: Option<ReplyColor>,
    pub ephemeral: bool,
}

/// A reply of fixed text, and whether only the user who acted sees it.
pub struct TextReply {
    pub text: String,
    pub ephemeral: bool,
}

/// A message button: its custom id, its label and its colour.
pub struct ButtonSpec {
    pub custom_id: String,
    pub label: String,
    pub color: ReplyColor,
}

} // verus!
