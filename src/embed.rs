//! Turns an embed as the chat platform rendered it back into a payload that
//! creates the same embed.

use vstd::prelude::*;

verus! {

/// One name/value entry of an embed.
#[derive(Clone, Debug, PartialEq, Eq)]
pub struct EmbedField {
    pub name: String,
    pub value: String,
    pub inline: bool,
}

/// The author block of a rendered embed.
#[derive(Clone, Debug, PartialEq, Eq)]
pub struct RenderedAuthor {
    pub name: String,
    pub url: Option<String>,
    pub icon_url: Option<String>,
    /// The platform's cached copy of the icon; not part of what creates an embed.
    pub proxy_icon_url: Option<String>,
}

/// The footer block of a rendered embed.
#[derive(Clone, Debug, PartialEq, Eq)]
pub struct RenderedFooter {
    pub text: String,
    pub icon_url: Option<String>,
    /// The platform's cached copy of the icon; not part of what creates an embed.
    pub proxy_icon_url: Option<String>,
}

/// An embed as received from the chat platform.
#[derive(Clone, Debug, PartialEq, Eq)]
pub struct RenderedEmbed {
    /// The kind the platform assigned (rich, image, link, ...); set by the
    /// platform, not by whoever creates the embed.
    pub kind: Option<String>,
    pub title: Option<String>,
    pub description: Option<String>,
    pub url: Option<String>,
    /// ISO 8601 text.
    pub timestamp: Option<String>,
    pub colour: Option<u32>,
    pub author: Option<RenderedAuthor>,
    pub footer: Option<RenderedFooter>,
    pub image_url: Option<String>,
    pub thumbnail_url: Option<String>,
    pub fields: Vec<EmbedField>,
}

/// The author block of an embed to create.
#[derive(Clone, Debug, PartialEq, Eq)]
pub struct AuthorPayload {
    pub name: String,
    pub url: Option<String>,
    pub icon_url: Option<String>,
}

/// The footer block of an embed to create.
#[derive(Clone, Debug, PartialEq, Eq)]
pub struct FooterPayload {
    pub text: String,
    pub icon_url: Option<String>,
}

/// An embed to create; an absent part is left out of the payload.
#[derive(Clone, Debug, PartialEq, Eq)]
pub struct EmbedPayload {
    pub title: Option<String>,
    pub description: Option<String>,
    pub url: Option<String>,
    pub timestamp: Option<String>,
    pub colour: Option<u32>,
    pub author: Option<AuthorPayload>,
    pub footer: Option<FooterPayload>,
    pub image_url: Option<String>,
    pub thumbnail_url: Option<String>,
    pub fields: Vec<EmbedField>,
}

/// The author block that recreates `a`.
pub open spec fn author_payload_of(a: RenderedAuthor) -> AuthorPayload {
    AuthorPayload { name: a.name, url: a.url, icon_url: a.icon_url }
}

/// The footer block that recreates `f`.
pub open spec fn footer_payload_of(f: RenderedFooter) -> FooterPayload {
    FooterPayload { text: f.text, icon_url: f.icon_url }
}

/// Whether `p` creates the embed `e`: every part that creates an embed is
/// copied, present where `e` has it and absent where it does not, and the
/// fields are the same, in the same order.
pub open spec fn recreates(e: RenderedEmbed, p: EmbedPayload) -> bool {
    &&& p.title == e.title
    &&& p.description == e.description
    &&& p.url == e.url
    &&& p.timestamp == e.timestamp
    &&& p.colour == e.colour
    &&& p.author == match e.author {
        Some(a) => Some(author_payload_of(a)),
        None => None,
    }
    &&& p.footer == match e.footer {
        Some(f) => Some(footer_payload_of(f)),
        None => None,
    }
    &&& p.image_url == e.image_url
    &&& p.thumbnail_url == e.thumbnail_url
    &&& p.fields@ == e.fields@
}

/// Whether `e` has none of the optional parts and no field.
pub open spec fn is_bare(e: RenderedEmbed) -> bool {
    &&& e.title is None
    &&& e.description is None
    &&& e.url is None
    &&& e.timestamp is None
    &&& e.colour is None
    &&& e.author is None
    &&& e.footer is None
    &&& e.image_url is None
    &&& e.thumbnail_url is None
    &&& e.fields@.len() == 0
}

/// Whether `e` has every optional part, with every optional sub-part of its
/// author and footer.
pub open spec fn is_full(e: RenderedEmbed) -> bool {
    &&& e.title is Some
    &&& e.description is Some
    &&& e.url is Some
    &&& e.timestamp is Some
    &&& e.colour is Some
    &&& e.author matches Some(a) && a.url is Some && a.icon_url is Some
    &&& e.footer matches Some(f) && f.icon_url is Some
    &&& e.image_url is Some
    &&& e.thumbnail_url is Some
}

fn copy_text(s: &Option<String>) -> (r: Option<String>)
    ensures
        r == *s,
{
    match s {
        Some(t) => Some(t.clone()),
        None => None,
    }
}

fn copy_field(f: &EmbedField) -> (r: EmbedField)
    ensures
        r == *f,
{
    EmbedField { name: f.name.clone(), value: f.value.clone(), inline: f.inline }
}

/// The payload that recreates a rendered embed. Never fails: an absent part
/// is left out of the payload.
pub fn convert_embed(embed: &RenderedEmbed) -> (r: EmbedPayload)
    ensures
        recreates(*embed, r),
{
    let author = match &embed.author {
        Some(a) => Some(
            AuthorPayload {
                name: a.name.clone(),
                url: copy_text(&a.url),
                icon_url: copy_text(&a.icon_url),
            },
        ),
        None => None,
    };
    let footer = match &embed.footer {
        Some(f) => Some(FooterPayload { text: f.text.clone(), icon_url: copy_text(&f.icon_url) }),
        None => None,
    };
    let mut fields: Vec<EmbedField> = Vec::new();
    let mut i: usize = 0;
    while i < embed.fields.len()
        invariant
            i <= embed.fields@.len(),
            fields@ == embed.fields@.take(i as int),
        decreases embed.fields@.len() - i,
    {
        fields.push(copy_field(&embed.fields[i]));
        proof {
            assert(embed.fields@.take(i + 1) == embed.fields@.take(i as int).push(
                embed.fields@[i as int],
            ));
        }
        i = i + 1;
    }
    proof {
        assert(embed.fields@.take(embed.fields@.len() as int) == embed.fields@);
    }
    EmbedPayload {
        title: copy_text(&embed.title),
        description: copy_text(&embed.description),
        url: copy_text(&embed.url),
        timestamp: copy_text(&embed.timestamp),
        colour: embed.colour,
        author,
        footer,
        image_url: copy_text(&embed.image_url),
        thumbnail_url: copy_text(&embed.thumbnail_url),
        fields,
    }
}

/// Converts every embed of a message, in order.
pub fn convert_embeds(embeds: &Vec<RenderedEmbed>) -> (r: Vec<EmbedPayload>)
    ensures
        r@.len() == embeds@.len(),
        forall|i: int| 0 <= i < embeds@.len() ==> recreates(#[trigger] embeds@[i], r@[i]),
{
    let mut out: Vec<EmbedPayload> = Vec::new();
    let mut i: usize = 0;
    while i < embeds.len()
        invariant
            i <= embeds@.len(),
            out@.len() == i,
            forall|j: int| 0 <= j < i ==> recreates(#[trigger] embeds@[j], out@[j]),
        decreases embeds@.len() - i,
    {
        out.push(convert_embed(&embeds[i]));
        i = i + 1;
    }
    out
}

/// Recreating an embed that has every optional part keeps the value of each
/// part exactly, and its fields in order.
pub proof fn lemma_full_embed_round_trip(e: RenderedEmbed, p: EmbedPayload)
    requires
        is_full(e),
        recreates(e, p),
    ensures
        p.title == e.title && p.title is Some,
        p.description == e.description && p.description is Some,
        p.url == e.url && p.url is Some,
        p.timestamp == e.timestamp && p.timestamp is Some,
        p.colour == e.colour && p.colour is Some,
        p.author matches Some(a) && a.name == e.author->0.name && a.url == e.author->0.url
            && a.icon_url == e.author->0.icon_url && a.url is Some && a.icon_url is Some,
        p.footer matches Some(f) && f.text == e.footer->0.text && f.icon_url
            == e.footer->0.icon_url && f.icon_url is Some,
        p.image_url == e.image_url && p.image_url is Some,
        p.thumbnail_url == e.thumbnail_url && p.thumbnail_url is Some,
        p.fields@ == e.fields@,
{
}

/// Recreating an embed that has no optional part gives a payload with no
/// part set and no field.
pub proof fn lemma_bare_embed_gives_bare_payload(e: RenderedEmbed, p: EmbedPayload)
    requires
        is_bare(e),
        recreates(e, p),
    ensures
        p.title is None && p.description is None && p.url is None && p.timestamp is None,
        p.colour is None && p.author is None && p.footer is None,
        p.image_url is None && p.thumbnail_url is None,
        p.fields@.len() == 0,
{
}

} // verus!
