use pikadick::flags::TikTokEmbedFlags;
use pikadick::message::{LinkEmbed, link_embed, message_is_embeddable, plan_link_embeds};

fn all_flags() -> TikTokEmbedFlags {
    TikTokEmbedFlags::from_bits(3).unwrap()
}

#[test]
fn plans_enabled_links() {
    let urls: Vec<String> = [
        "https://www.reddit.com/r/rust/comments/1",
        "https://tiktok.com/@a/video/1",
        "https://example.com/",
        "https://reddit.com/r/x",
        "https://vm.tiktok.com/ZM123/",
    ]
    .iter()
    .map(|s| s.to_string())
    .collect();
    assert_eq!(
        plan_link_embeds(&urls, true, all_flags()),
        vec![(0, LinkEmbed::Reddit), (1, LinkEmbed::TikTok(true)), (3, LinkEmbed::Reddit), (4, LinkEmbed::TikTok(true))]
    );
    assert_eq!(
        plan_link_embeds(&urls, false, TikTokEmbedFlags::enabled()),
        vec![(1, LinkEmbed::TikTok(false)), (4, LinkEmbed::TikTok(false))]
    );
    assert!(plan_link_embeds(&urls, false, TikTokEmbedFlags::empty()).is_empty());
    assert!(plan_link_embeds(&urls, false, TikTokEmbedFlags::delete_link()).is_empty());
}

#[test]
fn other_hosts_are_left_alone() {
    assert_eq!(link_embed("https://old.reddit.com/r/x", true, all_flags()), None);
    assert_eq!(link_embed("https://127.0.0.1/", true, all_flags()), None);
    assert_eq!(link_embed("not a url", true, all_flags()), None);
    assert_eq!(link_embed("https://www.tiktok.com/@a", true, all_flags()), Some(LinkEmbed::TikTok(true)));
}

#[test]
fn only_server_messages_from_people() {
    assert!(message_is_embeddable(true, false));
    assert!(!message_is_embeddable(false, false));
    assert!(!message_is_embeddable(true, true));
}
