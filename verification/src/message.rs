//! Which links of a chat message get embedded.
use vstd::prelude::*;
use crate::flags::TikTokEmbedFlags;
use crate::text::str_eq;
use crate::links::{UrlParts, parse_url, parsed_url};

verus! {

/// The domain of the link `input`: `None` when it is no URL, `Some(None)`
/// when its host is not a domain.
pub open spec fn url_domain(input: Seq<char>) -> Option<Option<Seq<char>>> {
    match parsed_url(input) {
        Some((domain, _)) => Some(domain),
        None => None,
    }
}

/// Whether a domain is Reddit's.
pub open spec fn is_reddit_domain(d: Seq<char>) -> bool {
    d == "www.reddit.com"@ || d == "reddit.com"@
}

/// Whether a domain is TikTok's.
pub open spec fn is_tiktok_domain(d: Seq<char>) -> bool {
    d == "vm.tiktok.com"@ || d == "tiktok.com"@ || d == "www.tiktok.com"@
}

/// How a link is embedded.
#[derive(Debug, Copy, Clone, PartialEq, Eq, Structural)]
pub enum LinkEmbed {
    /// As a Reddit post.
    Reddit,
    /// As a TikTok video; the flag says whether to delete the message afterwards.
    TikTok(bool),
}

/// How the link `url` is embedded in a server with these settings, if at all.
pub open spec fn link_embed_spec(url: Seq<char>, reddit_enabled: bool, tiktok_flags: TikTokEmbedFlags) -> Option<LinkEmbed> {
    match url_domain(url) {
        Some(Some(d)) => if is_reddit_domain(d) && reddit_enabled {
            Some(LinkEmbed::Reddit)
        } else if is_tiktok_domain(d) && tiktok_flags.is_enabled() {
            Some(LinkEmbed::TikTok(tiktok_flags.deletes_link()))
        } else {
            None
        },
        _ => None,
    }
}

/// How the link `url` is embedded in a server with these settings, if at all.
pub fn link_embed(url: &str, reddit_enabled: bool, tiktok_flags: TikTokEmbedFlags) -> (r: Option<LinkEmbed>)
    ensures
        r == link_embed_spec(url@, reddit_enabled, tiktok_flags),
{
    proof {
        let b = tiktok_flags.bits_spec();
        assert((b & 1u32 == 1u32) == (b & 1u32 != 0)) by (bit_vector);
        assert((b & 2u32 == 2u32) == (b & 2u32 != 0)) by (bit_vector);
    }
    match parse_url(url) {
        Some(UrlParts { domain: Some(domain), .. }) => {
            let d = domain.as_str();
            let reddit = str_eq(d, "www.reddit.com") || str_eq(d, "reddit.com");
            let tiktok = str_eq(d, "vm.tiktok.com") || str_eq(d, "tiktok.com") || str_eq(d, "www.tiktok.com");
            if reddit && reddit_enabled {
                Some(LinkEmbed::Reddit)
            } else if tiktok && tiktok_flags.contains(TikTokEmbedFlags::enabled()) {
                Some(LinkEmbed::TikTok(tiktok_flags.contains(TikTokEmbedFlags::delete_link())))
            } else {
                None
            }
        },
        _ => None,
    }
}

/// Whether the links of a message are looked at: only messages sent in a
/// server, and not by a bot.
pub fn message_is_embeddable(in_server: bool, author_is_bot: bool) -> (r: bool)
    ensures
        r == (in_server && !author_is_bot),
{
    in_server && !author_is_bot
}

/// The embeds of the links of a message, as pairs of the link's position and
/// how it is embedded, in the order of the links. An empty plan means the
/// message is left alone (no loading reaction either).
pub fn plan_link_embeds(urls: &Vec<String>, reddit_enabled: bool, tiktok_flags: TikTokEmbedFlags) -> (r: Vec<(usize, LinkEmbed)>)
    ensures
        forall|k: int| 0 <= k < r@.len() ==> {
            let (i, e) = #[trigger] r@[k];
            &&& i < urls@.len()
            &&& link_embed_spec(urls@[i as int]@, reddit_enabled, tiktok_flags) == Some(e)
        },
        forall|k: int, l: int| 0 <= k < l < r@.len() ==> (#[trigger] r@[k]).0 < (#[trigger] r@[l]).0,
        forall|i: int|
            0 <= i < urls@.len() && (#[trigger] link_embed_spec(urls@[i]@, reddit_enabled, tiktok_flags)) is Some
                ==> exists|k: int| 0 <= k < r@.len() && r@[k].0 == i,
        r@.len() == 0 <==> forall|i: int|
            0 <= i < urls@.len() ==> (#[trigger] link_embed_spec(urls@[i]@, reddit_enabled, tiktok_flags)) is None,
{
    let mut plan: Vec<(usize, LinkEmbed)> = Vec::new();
    let mut i: usize = 0;
    while i < urls.len()
        invariant
            i <= urls@.len(),
            forall|k: int| 0 <= k < plan@.len() ==> {
                let (j, e) = #[trigger] plan@[k];
                &&& j < i
                &&& link_embed_spec(urls@[j as int]@, reddit_enabled, tiktok_flags) == Some(e)
            },
            forall|k: int, l: int| 0 <= k < l < plan@.len() ==> (#[trigger] plan@[k]).0 < (#[trigger] plan@[l]).0,
            forall|j: int|
                0 <= j < i && (#[trigger] link_embed_spec(urls@[j]@, reddit_enabled, tiktok_flags)) is Some
                    ==> exists|k: int| 0 <= k < plan@.len() && plan@[k].0 == j,
        decreases urls@.len() - i,
    {
        let ghost before = plan@;
        match link_embed(urls[i].as_str(), reddit_enabled, tiktok_flags) {
            Some(e) => {
                plan.push((i, e));
                assert forall|j: int|
                    0 <= j < i + 1 && (#[trigger] link_embed_spec(urls@[j]@, reddit_enabled, tiktok_flags)) is Some
                        implies exists|k: int| 0 <= k < plan@.len() && plan@[k].0 == j by {
                    if j < i {
                        let k = choose|k: int| 0 <= k < before.len() && before[k].0 == j;
                        assert(plan@[k] == before[k]);
                    } else {
                        assert(plan@[before.len() as int].0 == j);
                    }
                }
            },
            None => {},
        }
        i = i + 1;
    }
    proof {
        if plan@.len() == 0 {
            assert forall|j: int| 0 <= j < urls@.len() implies (#[trigger] link_embed_spec(urls@[j]@, reddit_enabled, tiktok_flags)) is None by {
                if link_embed_spec(urls@[j]@, reddit_enabled, tiktok_flags) is Some {
                    let k = choose|k: int| 0 <= k < plan@.len() && plan@[k].0 == j;
                }
            }
        } else {
            let (j, e) = plan@[0];
            assert(link_embed_spec(urls@[j as int]@, reddit_enabled, tiktok_flags) is Some);
        }
    }
    plan
}

/// A link to reddit.com or www.reddit.com is embedded as a Reddit post
/// exactly when Reddit embeds are on, whatever the TikTok settings are.
pub proof fn law_reddit_links(url: Seq<char>, reddit_enabled: bool, tiktok_flags: TikTokEmbedFlags)
    requires
        parsed_url(url) matches Some((Some(d), _)) && (d == "www.reddit.com"@ || d == "reddit.com"@),
    ensures
        reddit_enabled ==> link_embed_spec(url, reddit_enabled, tiktok_flags) == Some(LinkEmbed::Reddit),
        !reddit_enabled ==> link_embed_spec(url, reddit_enabled, tiktok_flags) is None,
{
    lemma_domains_distinct();
}

/// A link to tiktok.com, www.tiktok.com or vm.tiktok.com is embedded as a
/// TikTok video exactly when TikTok embeds are on, whatever the Reddit
/// setting is; the message is deleted exactly when the delete-link flag is set.
pub proof fn law_tiktok_links(url: Seq<char>, reddit_enabled: bool, tiktok_flags: TikTokEmbedFlags)
    requires
        parsed_url(url) matches Some((Some(d), _)) && (d == "vm.tiktok.com"@ || d == "tiktok.com"@ || d
            == "www.tiktok.com"@),
    ensures
        tiktok_flags.is_enabled() ==> link_embed_spec(url, reddit_enabled, tiktok_flags) == Some(
            LinkEmbed::TikTok(tiktok_flags.deletes_link()),
        ),
        !tiktok_flags.is_enabled() ==> link_embed_spec(url, reddit_enabled, tiktok_flags) is None,
{
    lemma_domains_distinct();
}

/// Links to any other domain, host addresses that are no domain, and texts
/// that are no URL are never embedded.
pub proof fn law_other_links(url: Seq<char>, reddit_enabled: bool, tiktok_flags: TikTokEmbedFlags)
    requires
        !(parsed_url(url) matches Some((Some(d), _)) && (d == "www.reddit.com"@ || d == "reddit.com"@ || d
            == "vm.tiktok.com"@ || d == "tiktok.com"@ || d == "www.tiktok.com"@)),
    ensures
        link_embed_spec(url, reddit_enabled, tiktok_flags) is None,
{
}

/// The Reddit and TikTok domains are different texts.
proof fn lemma_domains_distinct()
    ensures
        "www.reddit.com"@ != "vm.tiktok.com"@,
        "www.reddit.com"@ != "tiktok.com"@,
        "www.reddit.com"@ != "www.tiktok.com"@,
        "reddit.com"@ != "vm.tiktok.com"@,
        "reddit.com"@ != "tiktok.com"@,
        "reddit.com"@ != "www.tiktok.com"@,
{
    reveal_strlit("www.reddit.com");
    reveal_strlit("reddit.com");
    reveal_strlit("vm.tiktok.com");
    reveal_strlit("tiktok.com");
    reveal_strlit("www.tiktok.com");
    assert("www.reddit.com"@[4] != "vm.tiktok.com"@[4]);
    assert("www.reddit.com"@.len() != "tiktok.com"@.len());
    assert("www.reddit.com"@[4] != "www.tiktok.com"@[4]);
    assert("reddit.com"@.len() != "vm.tiktok.com"@.len());
    assert("reddit.com"@[0] != "tiktok.com"@[0]);
    assert("reddit.com"@.len() != "www.tiktok.com"@.len());
}

} // verus!
