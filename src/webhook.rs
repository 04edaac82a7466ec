//! What a webhook forward sends: which webhook, under which name and avatar,
//! with which text, embeds and files.

use crate::embed::{convert_embeds, recreates, EmbedPayload, RenderedEmbed};
use vstd::prelude::*;

verus! {

/// A file attached to a message: where it is hosted and its name.
#[derive(Clone, Debug, PartialEq, Eq)]
pub struct AttachmentRef {
    pub url: String,
    pub filename: String,
}

/// The message to forward, as it stood when the decision was taken.
#[derive(Clone, Debug, PartialEq, Eq)]
pub struct ForwardableMessage {
    pub message_id: u64,
    pub channel_id: u64,
    pub content: String,
    pub author_name: String,
    /// The author's own avatar, if they set one.
    pub author_avatar_url: Option<String>,
    /// The platform's default avatar for the author.
    pub author_default_avatar_url: String,
    pub embeds: Vec<RenderedEmbed>,
    pub attachments: Vec<AttachmentRef>,
}

/// What a webhook posts in the author's place.
#[derive(Clone, Debug, PartialEq, Eq)]
pub struct WebhookPayload {
    pub username: String,
    pub avatar_url: String,
    pub content: String,
    pub embeds: Vec<EmbedPayload>,
    /// The files to fetch and attach; one that cannot be fetched is left out.
    pub attachments: Vec<AttachmentRef>,
}

/// Why a webhook forward cannot be built.
#[derive(Clone, Copy, Debug, PartialEq, Eq, Structural)]
pub enum ForwardError {
    /// The message's channel belongs to no guild.
    NotGuildChannel,
}

/// Which webhook of the target channel to post through.
#[derive(Clone, Copy, Debug, PartialEq, Eq, Structural)]
pub enum WebhookChoice {
    /// The existing webhook at this position in the channel's list.
    Existing { index: usize },
    /// No usable webhook exists: create one.
    Create,
}

/// The character of decimal digit `d`.
pub open spec fn digit_char(d: nat) -> char {
    if d == 0 {
        '0'
    } else if d == 1 {
        '1'
    } else if d == 2 {
        '2'
    } else if d == 3 {
        '3'
    } else if d == 4 {
        '4'
    } else if d == 5 {
        '5'
    } else if d == 6 {
        '6'
    } else if d == 7 {
        '7'
    } else if d == 8 {
        '8'
    } else {
        '9'
    }
}

/// The decimal text of `n`, without leading zeros.
pub open spec fn decimal(n: nat) -> Seq<char>
    decreases n,
{
    if n < 10 {
        seq![digit_char(n)]
    } else {
        decimal(n / 10).push(digit_char(n % 10))
    }
}

/// The link back to the original message, which follows its text.
pub open spec fn back_link(guild: u64, channel: u64, message: u64) -> Seq<char> {
    "\n[Learn More \u{2192}](https://discord.com/channels/"@ + decimal(guild as nat) + "/"@
        + decimal(channel as nat) + "/"@ + decimal(message as nat) + ")"@
}

/// Picks the webhook to post through: the first one of the channel's list
/// with a usable token, or a new one when there is none. `has_token[i]` says
/// whether the `i`-th webhook has a token.
pub fn select_webhook(has_token: &Vec<bool>) -> (r: WebhookChoice)
    ensures
        match r {
            WebhookChoice::Existing { index } => index < has_token@.len() && has_token@[index as int]
                && forall|j: int| 0 <= j < index ==> !#[trigger] has_token@[j],
            WebhookChoice::Create => forall|j: int|
                0 <= j < has_token@.len() ==> !#[trigger] has_token@[j],
        },
{
    let mut i: usize = 0;
    while i < has_token.len()
        invariant
            i <= has_token@.len(),
            forall|j: int| 0 <= j < i ==> !#[trigger] has_token@[j],
        decreases has_token@.len() - i,
    {
        if has_token[i] {
            return WebhookChoice::Existing { index: i };
        }
        i = i + 1;
    }
    WebhookChoice::Create
}

fn digit_str(d: u64) -> (r: &'static str)
    requires
        d < 10,
    ensures
        r@ == seq![digit_char(d as nat)],
{
    proof {
        reveal_strlit("0");
        reveal_strlit("1");
        reveal_strlit("2");
        reveal_strlit("3");
        reveal_strlit("4");
        reveal_strlit("5");
        reveal_strlit("6");
        reveal_strlit("7");
        reveal_strlit("8");
        reveal_strlit("9");
    }
    if d == 0 {
        "0"
    } else if d == 1 {
        "1"
    } else if d == 2 {
        "2"
    } else if d == 3 {
        "3"
    } else if d == 4 {
        "4"
    } else if d == 5 {
        "5"
    } else if d == 6 {
        "6"
    } else if d == 7 {
        "7"
    } else if d == 8 {
        "8"
    } else {
        "9"
    }
}

/// Appends the decimal text of `n` to `s`.
pub fn append_decimal(s: &mut String, n: u64)
    ensures
        final(s)@ == old(s)@ + decimal(n as nat),
    decreases n,
{
    if n >= 10 {
        append_decimal(s, n / 10);
    }
    s.append(digit_str(n % 10));
    proof {
        if n >= 10 {
            assert(decimal(n as nat) == decimal((n / 10) as nat).push(digit_char((n % 10) as nat)));
        }
    }
}

/// The text of the forward: the original text followed by the link back to
/// the message.
pub fn forward_content(content: &String, guild: u64, channel: u64, message: u64) -> (r: String)
    ensures
        r@ == content@ + back_link(guild, channel, message),
{
    let mut s = content.clone();
    s.append("\n[Learn More \u{2192}](https://discord.com/channels/");
    append_decimal(&mut s, guild);
    s.append("/");
    append_decimal(&mut s, channel);
    s.append("/");
    append_decimal(&mut s, message);
    s.append(")");
    s
}

/// The avatar to post under: the author's own, or the platform's default
/// one for the author when they set none.
pub fn avatar_for(own: &Option<String>, default: &String) -> (r: String)
    ensures
        r == match own {
            Some(a) => *a,
            None => *default,
        },
{
    match own {
        Some(a) => a.clone(),
        None => default.clone(),
    }
}

/// Whether `p` is the webhook post that forwards `msg` from `guild`.
pub open spec fn forwards(msg: ForwardableMessage, guild: u64, p: WebhookPayload) -> bool {
    &&& p.username == msg.author_name
    &&& p.avatar_url == match msg.author_avatar_url {
        Some(a) => a,
        None => msg.author_default_avatar_url,
    }
    &&& p.content@ == msg.content@ + back_link(guild, msg.channel_id, msg.message_id)
    &&& p.embeds@.len() == msg.embeds@.len()
    &&& forall|i: int| 0 <= i < msg.embeds@.len() ==> recreates(#[trigger] msg.embeds@[i], p.embeds@[i])
    &&& p.attachments@ == msg.attachments@
}

fn copy_attachment(a: &AttachmentRef) -> (r: AttachmentRef)
    ensures
        r == *a,
{
    AttachmentRef { url: a.url.clone(), filename: a.filename.clone() }
}

/// Builds the webhook post that forwards `msg`. `origin_guild` is the guild
/// that owns the message's channel; a channel of no guild is an error.
pub fn plan_webhook_forward(msg: &ForwardableMessage, origin_guild: Option<u64>) -> (r: Result<
    WebhookPayload,
    ForwardError,
>)
    ensures
        match origin_guild {
            None => r == Err::<WebhookPayload, ForwardError>(ForwardError::NotGuildChannel),
            Some(g) => r matches Ok(p) && forwards(*msg, g, p),
        },
{
    let guild = match origin_guild {
        Some(g) => g,
        None => {
            return Err(ForwardError::NotGuildChannel);
        },
    };
    let mut attachments: Vec<AttachmentRef> = Vec::new();
    let mut i: usize = 0;
    while i < msg.attachments.len()
        invariant
            i <= msg.attachments@.len(),
            attachments@ == msg.attachments@.take(i as int),
        decreases msg.attachments@.len() - i,
    {
        attachments.push(copy_attachment(&msg.attachments[i]));
        proof {
            assert(msg.attachments@.take(i + 1) == msg.attachments@.take(i as int).push(
                msg.attachments@[i as int],
            ));
        }
        i = i + 1;
    }
    proof {
        assert(msg.attachments@.take(msg.attachments@.len() as int) == msg.attachments@);
    }
    Ok(
        WebhookPayload {
            username: msg.author_name.clone(),
            avatar_url: avatar_for(&msg.author_avatar_url, &msg.author_default_avatar_url),
            content: forward_content(&msg.content, guild, msg.channel_id, msg.message_id),
            embeds: convert_embeds(&msg.embeds),
            attachments,
        },
    )
}

} // verus!
