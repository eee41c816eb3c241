//! Video URL handling: the allow-list check, video-id extraction across the
//! known URL shapes, and deep-link generation.

use vstd::prelude::*;
use vstd::string::*;
use crate::text::{
    matches_at, find_from, find_char_from, spec_starts_with, spec_decimal, find_sub,
    find_char_at_or_after, starts_with_str, decimal_string, lemma_find_from_some,
    lemma_first_match_found, lemma_no_match_find_from_none,
};

verus! {

/// The URL shapes the pipeline accepts before any process or network action.
pub open spec fn spec_url_supported(s: Seq<char>) -> bool {
    spec_starts_with(s, "https://www.youtube.com/"@) || spec_starts_with(s, "https://youtu.be/"@)
}

/// The allow-list check on a URL. This is a security boundary: a URL is
/// handed to an external process only after it passes.
pub fn url_supported(url: &str) -> (r: bool)
    ensures
        r == spec_url_supported(url@),
{
    starts_with_str(url, "https://www.youtube.com/") || starts_with_str(url, "https://youtu.be/")
}

/// The characters of `s` from `start` up to the first `delim` at or after
/// `start` (to the end of `s` if there is none).
pub open spec fn spec_tail_until(s: Seq<char>, start: int, delim: char) -> Seq<char> {
    match find_char_from(s, delim, start) {
        Some(e) => s.subrange(start, e),
        None => s.subrange(start, s.len() as int),
    }
}

/// The video id of a URL: the substring after the first marker found, in the
/// fixed priority order `v=`, `youtu.be/`, `embed/`, ending at that marker's
/// terminator (`&` for the first, `?` for the other two) or at the end of the
/// URL; empty if no marker occurs.
pub open spec fn spec_extract_video_id(s: Seq<char>) -> Seq<char> {
    if find_from(s, "v="@, 0) is Some {
        spec_tail_until(s, find_from(s, "v="@, 0)->Some_0 + 2, '&')
    } else if find_from(s, "youtu.be/"@, 0) is Some {
        spec_tail_until(s, find_from(s, "youtu.be/"@, 0)->Some_0 + 9, '?')
    } else if find_from(s, "embed/"@, 0) is Some {
        spec_tail_until(s, find_from(s, "embed/"@, 0)->Some_0 + 6, '?')
    } else {
        Seq::empty()
    }
}

/// Extracts the id from the first marker found; returns the empty string when
/// no marker occurs. Extraction never fails.
pub fn extract_video_id(url: &str) -> (id: String)
    ensures
        id@ == spec_extract_video_id(url@),
{
    proof {
        reveal_strlit("v=");
        reveal_strlit("youtu.be/");
        reveal_strlit("embed/");
    }
    let len: usize = url.unicode_len();
    if let Some(p) = find_sub(url, "v=") {
        proof {
            lemma_find_from_some(url@, "v="@, 0, p as int);
        }
        extract_after(url, p + 2, '&')
    } else if let Some(p) = find_sub(url, "youtu.be/") {
        proof {
            lemma_find_from_some(url@, "youtu.be/"@, 0, p as int);
        }
        extract_after(url, p + 9, '?')
    } else if let Some(p) = find_sub(url, "embed/") {
        proof {
            lemma_find_from_some(url@, "embed/"@, 0, p as int);
        }
        extract_after(url, p + 6, '?')
    } else {
        String::new()
    }
}

/// The substring from `start` up to the first `delim` after it, or to the end.
fn extract_after(url: &str, start: usize, delim: char) -> (r: String)
    requires
        start <= url@.len(),
    ensures
        r@ == spec_tail_until(url@, start as int, delim),
{
    let len: usize = url.unicode_len();
    let end: usize = match find_char_at_or_after(url, delim, start) {
        Some(e) => e,
        None => len,
    };
    proof {
        lemma_find_char_from_in_range(url@, delim, start as int);
    }
    let sub = url.substring_char(start, end);
    sub.to_owned()
}

/// A found delimiter position lies between the search start and the length.
proof fn lemma_find_char_from_in_range(s: Seq<char>, c: char, i: int)
    requires
        0 <= i,
    ensures
        find_char_from(s, c, i) matches Some(e) ==> i <= e < s.len(),
    decreases s.len() - i,
{
    if i < 0 || i >= s.len() {
    } else if s[i] == c {
    } else {
        lemma_find_char_from_in_range(s, c, i + 1);
    }
}

/// The deep link for a URL and a whole-second timestamp: the canonical short
/// host with the id and the timestamp, or the URL unchanged when no id can be
/// extracted.
pub open spec fn spec_deep_link(s: Seq<char>, t: int) -> Seq<char> {
    let id = spec_extract_video_id(s);
    if id.len() == 0 {
        s
    } else {
        "https://youtu.be/"@ + id + "?t="@ + spec_decimal(t)
    }
}

/// Builds a shareable time-seeking URL. Never fails: when id extraction
/// yields nothing the original URL is returned byte for byte.
pub fn generate_deep_link(url: &str, timestamp: u64) -> (r: String)
    ensures
        r@ == spec_deep_link(url@, timestamp as int),
{
    let id = extract_video_id(url);
    if id.as_str().unicode_len() == 0 {
        proof {
            assert(spec_extract_video_id(url@).len() == 0);
        }
        url.to_owned()
    } else {
        let mut r = "https://youtu.be/".to_owned();
        r.append(id.as_str());
        r.append("?t=");
        let ts = decimal_string(timestamp);
        r.append(ts.as_str());
        r
    }
}

/// No marker in the URL means the extracted id is empty.
pub proof fn lemma_extract_empty_when_no_marker(s: Seq<char>)
    requires
        forall|k: int| !matches_at(s, "v="@, k),
        forall|k: int| !matches_at(s, "youtu.be/"@, k),
        forall|k: int| !matches_at(s, "embed/"@, k),
    ensures
        spec_extract_video_id(s) == Seq::<char>::empty(),
{
    lemma_no_match_find_from_none(s, "v="@, 0);
    lemma_no_match_find_from_none(s, "youtu.be/"@, 0);
    lemma_no_match_find_from_none(s, "embed/"@, 0);
}

/// When the priority marker `v=` first occurs at `i`, the id is exactly the
/// substring between the marker and the first `&` after it (or the end of
/// the URL when there is none).
pub proof fn lemma_extract_id_at_watch_marker(s: Seq<char>, i: int)
    requires
        matches_at(s, "v="@, i),
        forall|k: int| 0 <= k < i ==> !matches_at(s, "v="@, k),
    ensures
        spec_extract_video_id(s) == spec_tail_until(s, i + 2, '&'),
{
    lemma_first_match_found(s, "v="@, 0, i);
}

/// With no `v=` anywhere, the first `youtu.be/` occurrence at `i` yields the
/// substring between the marker and the first `?` after it (or the end).
pub proof fn lemma_extract_id_at_short_marker(s: Seq<char>, i: int)
    requires
        forall|k: int| !matches_at(s, "v="@, k),
        matches_at(s, "youtu.be/"@, i),
        forall|k: int| 0 <= k < i ==> !matches_at(s, "youtu.be/"@, k),
    ensures
        spec_extract_video_id(s) == spec_tail_until(s, i + 9, '?'),
{
    lemma_no_match_find_from_none(s, "v="@, 0);
    lemma_first_match_found(s, "youtu.be/"@, 0, i);
}

/// With neither `v=` nor `youtu.be/` anywhere, the first `embed/` occurrence
/// at `i` yields the substring between the marker and the first `?` after it
/// (or the end).
pub proof fn lemma_extract_id_at_embed_marker(s: Seq<char>, i: int)
    requires
        forall|k: int| !matches_at(s, "v="@, k),
        forall|k: int| !matches_at(s, "youtu.be/"@, k),
        matches_at(s, "embed/"@, i),
        forall|k: int| 0 <= k < i ==> !matches_at(s, "embed/"@, k),
    ensures
        spec_extract_video_id(s) == spec_tail_until(s, i + 6, '?'),
{
    lemma_no_match_find_from_none(s, "v="@, 0);
    lemma_no_match_find_from_none(s, "youtu.be/"@, 0);
    lemma_first_match_found(s, "embed/"@, 0, i);
}

/// Deep-link generation degrades gracefully: whenever id extraction yields
/// nothing, the deep link is the input unchanged, whatever the timestamp.
pub proof fn lemma_deep_link_falls_back(s: Seq<char>, t: int)
    requires
        spec_extract_video_id(s).len() == 0,
    ensures
        spec_deep_link(s, t) == s,
{
}

} // verus!
