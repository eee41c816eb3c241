use quotify::video_url::{extract_video_id, generate_deep_link, url_supported};

#[test]
fn extracts_id_from_watch_url() {
    let id = extract_video_id("https://www.youtube.com/watch?v=dQw4w9WgXcQ");
    assert_eq!(id, "dQw4w9WgXcQ");
}

#[test]
fn watch_id_ends_at_ampersand() {
    let id = extract_video_id("https://www.youtube.com/watch?v=abc123&t=10s");
    assert_eq!(id, "abc123");
}

#[test]
fn extracts_id_from_short_url() {
    let id = extract_video_id("https://youtu.be/abc123");
    assert_eq!(id, "abc123");
}

#[test]
fn short_url_id_ends_at_question_mark() {
    let id = extract_video_id("https://youtu.be/abc123?t=42");
    assert_eq!(id, "abc123");
}

#[test]
fn extracts_id_from_embed_url() {
    let id = extract_video_id("https://www.youtube.com/embed/xyz789?autoplay=1");
    assert_eq!(id, "xyz789");
}

#[test]
fn marker_priority_is_fixed() {
    // Both markers occur; `v=` wins even when it comes later in the string.
    let id = extract_video_id("https://youtu.be/short?v=fromquery");
    assert_eq!(id, "fromquery");
}

#[test]
fn no_marker_gives_empty_id() {
    assert_eq!(extract_video_id("https://example.com/clip/42"), "");
    assert_eq!(extract_video_id(""), "");
}

#[test]
fn marker_with_empty_remainder_gives_empty_id() {
    assert_eq!(extract_video_id("https://www.youtube.com/watch?v="), "");
    assert_eq!(extract_video_id("https://youtu.be/"), "");
}

#[test]
fn deep_link_embeds_id_and_timestamp() {
    let link = generate_deep_link("https://www.youtube.com/watch?v=abc123", 754);
    assert_eq!(link, "https://youtu.be/abc123?t=754");
}

#[test]
fn deep_link_timestamp_zero() {
    let link = generate_deep_link("https://youtu.be/abc123", 0);
    assert_eq!(link, "https://youtu.be/abc123?t=0");
}

#[test]
fn deep_link_renders_the_largest_timestamp() {
    let link = generate_deep_link("https://youtu.be/abc123", u64::MAX);
    assert_eq!(link, "https://youtu.be/abc123?t=18446744073709551615");
}

#[test]
fn deep_link_is_stable_under_repeated_calls() {
    let a = generate_deep_link("https://www.youtube.com/watch?v=abc123", 9);
    let b = generate_deep_link("https://www.youtube.com/watch?v=abc123", 9);
    assert_eq!(a, b);
}

#[test]
fn deep_link_falls_back_to_original_url() {
    let url = "https://example.com/no-video-here";
    let link = generate_deep_link(url, 99);
    assert_eq!(link, url);
}

#[test]
fn supported_urls_pass_the_allow_list() {
    assert!(url_supported("https://www.youtube.com/watch?v=abc"));
    assert!(url_supported("https://youtu.be/abc"));
    assert!(!url_supported("http://www.youtube.com/watch?v=abc"));
    assert!(!url_supported("https://example.com/"));
}
