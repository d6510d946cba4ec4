use vstd::prelude::*;

use crate::broadcast::{LiveStream, Timestamp, copy_opt};
use crate::text::{replace_all, replace_token};

verus! {

/// The embed title used when the platform gave neither a title nor a category.
pub const UNKNOWN_TITLE: &'static str = "タイトル不明";

/// The message text that accompanies the embeds.
pub const LIVE_STARTED: &'static str = "生放送が開始されました";

/// The page of a channel, before its login.
pub const CHANNEL_BASE: &'static str = "https://www.twitch.tv/";

/// The scheme by which the payload refers to an attached file.
pub const ATTACHMENT_SCHEME: &'static str = "attachment://";

/// The extension given to an attachment whose URL shows none.
pub const DEFAULT_EXTENSION: &'static str = "jpg";

/// An image reference inside an embed.
#[derive(Clone, Debug)]
pub struct DiscordHookEmbedImage {
    pub url: String,
}

/// One embed of the webhook message: one per new broadcast.
#[derive(Clone, Debug)]
pub struct DiscordHookEmbed {
    pub title: String,
    pub description: Option<String>,
    pub url: Option<String>,
    pub timestamp: Option<Timestamp>,
    pub color: Option<i32>,
    pub image: Option<DiscordHookEmbedImage>,
    pub thumbnail: Option<DiscordHookEmbedImage>,
}

/// The webhook message.
#[derive(Clone, Debug)]
pub struct DiscordHookBody {
    pub avatar_url: Option<String>,
    pub content: String,
    pub embeds: Vec<DiscordHookEmbed>,
}

/// The view of an optional string.
pub open spec fn opt_view(o: Option<String>) -> Option<Seq<char>> {
    match o {
        Some(s) => Some(s@),
        None => None,
    }
}

/// The embed title of a broadcast: its title, else its category, else the placeholder.
pub open spec fn title_of(s: LiveStream) -> Seq<char> {
    match s.title {
        Some(t) => t@,
        None => match s.game_name {
            Some(g) => g@,
            None => UNKNOWN_TITLE@,
        },
    }
}

/// The channel page of the user with login `login`.
pub open spec fn link_of(login: Seq<char>) -> Seq<char> {
    CHANNEL_BASE@ + login
}

/// A thumbnail template with both size placeholders set to zero (the platform's default size).
pub open spec fn sized_url(template: Seq<char>) -> Seq<char> {
    replace_all(replace_all(template, "{width}"@, "0"@), "{height}"@, "0"@)
}

/// The extension given to an attachment, from the extension its URL shows, if any.
pub open spec fn extension_or_default(ext: Option<Seq<char>>) -> Seq<char> {
    match ext {
        Some(e) => if e.len() > 0 {
            e
        } else {
            DEFAULT_EXTENSION@
        },
        None => DEFAULT_EXTENSION@,
    }
}

/// The file name of an attachment for the broadcast `id`.
pub open spec fn attachment_file_name(id: Seq<char>, ext: Option<Seq<char>>) -> Seq<char> {
    id + "."@ + extension_or_default(ext)
}

/// The extension of the last component of a path, when it has one.
pub uninterp spec fn path_extension(p: Seq<char>) -> Option<Seq<char>>;

/// The attachment file name of a broadcast's thumbnail.
pub open spec fn thumbnail_file_name(s: LiveStream) -> Seq<char> {
    attachment_file_name(
        s.id@,
        match s.thumbnail_url {
            Some(u) => path_extension(u@),
            None => None,
        },
    )
}

/// The embed of the broadcast `s`; `attached` tells whether its thumbnail goes with the message.
pub open spec fn embed_of(e: DiscordHookEmbed, s: LiveStream, attached: bool) -> bool {
    &&& e.title@ == title_of(s)
    &&& opt_view(e.description) == opt_view(s.game_name)
    &&& opt_view(e.url) == Some(link_of(s.user_login@))
    &&& e.timestamp == Some(s.started_at)
    &&& e.color is None
    &&& e.thumbnail is None
    &&& if attached {
        e.image matches Some(img) && img.url@ == ATTACHMENT_SCHEME@ + thumbnail_file_name(s)
    } else {
        e.image is None
    }
}

/// Whether entry `i` of `flags` is present and set.
pub open spec fn flag_at(flags: Seq<bool>, i: int) -> bool {
    0 <= i < flags.len() && flags[i]
}

/// Relies on std::path::Path::extension, with the extension read back as text: the part of
/// the last path component after its final dot.
#[verifier::external_body]
fn extension_of(p: &str) -> (r: Option<String>)
    ensures
        opt_view(r) == path_extension(p@),
{
    std::path::Path::new(p).extension().and_then(|e| e.to_str()).map(|e| e.to_string())
}

/// The file name `{id}.{ext}` of an attachment; `ext` is "jpg" when absent or empty.
pub fn attachment_name(id: &String, ext: &Option<String>) -> (r: String)
    ensures
        r@ == attachment_file_name(id@, opt_view(*ext)),
{
    let mut out = id.clone();
    out.append(".");
    match ext {
        Some(e) if e.unicode_len() > 0 => out.append(e.as_str()),
        _ => out.append(DEFAULT_EXTENSION),
    }
    out
}

/// The channel page of the user with login `login`.
pub fn channel_link(login: &String) -> (r: String)
    ensures
        r@ == link_of(login@),
{
    let mut out = String::from_str(CHANNEL_BASE);
    out.append(login.as_str());
    out
}

impl LiveStream {
    /// The title shown for this broadcast: its title, else its category, else the placeholder.
    pub fn embed_title(&self) -> (r: String)
        ensures
            r@ == title_of(*self),
    {
        match &self.title {
            Some(t) => t.clone(),
            None => match &self.game_name {
                Some(g) => g.clone(),
                None => String::from_str(UNKNOWN_TITLE),
            },
        }
    }

    /// The URL to fetch this broadcast's thumbnail at default size, if it has a template.
    pub fn thumbnail_fetch_url(&self) -> (r: Option<String>)
        ensures
            self.thumbnail_url is None ==> r is None,
            self.thumbnail_url matches Some(u) ==> (r matches Some(v) && v@ == sized_url(u@)),
    {
        match &self.thumbnail_url {
            Some(u) => {
                proof {
                    reveal_strlit("{width}");
                    reveal_strlit("{height}");
                }
                let w = replace_token(u.as_str(), "{width}", "0");
                let h = replace_token(w.as_str(), "{height}", "0");
                Some(h)
            },
            None => None,
        }
    }

    /// The file name of this broadcast's thumbnail attachment.
    pub fn thumbnail_name(&self) -> (r: String)
        ensures
            r@ == thumbnail_file_name(*self),
    {
        let ext = match &self.thumbnail_url {
            Some(u) => extension_of(u.as_str()),
            None => None,
        };
        attachment_name(&self.id, &ext)
    }
}

/// The embed of one broadcast; with `attached`, it shows the thumbnail sent along as a file.
pub fn build_embed(s: &LiveStream, attached: bool) -> (r: DiscordHookEmbed)
    ensures
        embed_of(r, *s, attached),
{
    let image = if attached {
        let mut url = String::from_str(ATTACHMENT_SCHEME);
        let name = s.thumbnail_name();
        url.append(name.as_str());
        Some(DiscordHookEmbedImage { url })
    } else {
        None
    };
    DiscordHookEmbed {
        title: s.embed_title(),
        description: copy_opt(&s.game_name),
        url: Some(channel_link(&s.user_login)),
        timestamp: Some(s.started_at),
        color: None,
        image,
        thumbnail: None,
    }
}

/// Whether any thumbnail was fetched, so that the message goes as multipart with files.
pub fn needs_multipart(fetched: &Vec<bool>) -> (r: bool)
    ensures
        r == exists|i: int| flag_at(fetched@, i),
{
    let mut i: usize = 0;
    while i < fetched.len()
        invariant
            i <= fetched@.len(),
            forall|j: int| 0 <= j < i ==> !(#[trigger] fetched@[j]),
        decreases fetched@.len() - i,
    {
        if fetched[i] {
            assert(flag_at(fetched@, i as int));
            return true;
        }
        i = i + 1;
    }
    assert forall|j: int| !flag_at(fetched@, j) by {
        if 0 <= j < fetched@.len() {
            assert(!fetched@[j]);
        }
    }
    false
}

/// The webhook message for the new broadcasts `streams`, where `fetched[i]` tells whether the
/// thumbnail of `streams[i]` was fetched (a missing entry counts as not fetched). There is no
/// message, and so nothing to send, when there are no new broadcasts.
pub fn build_payload(streams: &Vec<LiveStream>, fetched: &Vec<bool>) -> (r: Option<DiscordHookBody>)
    ensures
        r is None <==> streams@.len() == 0,
        r matches Some(b) ==> {
            &&& b.avatar_url is None
            &&& b.content@ == LIVE_STARTED@
            &&& b.embeds@.len() == streams@.len()
            &&& forall|i: int|
                0 <= i < streams@.len() ==> embed_of(
                    #[trigger] b.embeds@[i],
                    streams@[i],
                    flag_at(fetched@, i),
                )
        },
{
    if streams.len() == 0 {
        return None;
    }
    let mut embeds: Vec<DiscordHookEmbed> = Vec::new();
    let mut i: usize = 0;
    while i < streams.len()
        invariant
            i <= streams@.len(),
            embeds@.len() == i,
            forall|j: int|
                0 <= j < i ==> embed_of(#[trigger] embeds@[j], streams@[j], flag_at(fetched@, j)),
        decreases streams@.len() - i,
    {
        let attached = i < fetched.len() && fetched[i];
        embeds.push(build_embed(&streams[i], attached));
        i = i + 1;
    }
    Some(DiscordHookBody { avatar_url: None, content: String::from_str(LIVE_STARTED), embeds })
}

} // verus!
