//! Video metadata: the explicit schema for the fields the pipeline reads out
//! of the scraper's loosely-typed output, with the per-field default policy.
//! The caller decodes the scraper's JSON once at the boundary into `RawMetadata`
//! plain values; which fields are required and what each missing or
//! wrongly-typed field defaults to is decided and verified here.

use vstd::prelude::*;
use crate::errors::PipelineError;

verus! {

/// The metadata of one video, every field present (defaulted if need be).
pub struct VideoMetadata {
    pub title: String,
    pub channel: String,
    pub duration: i64,
    pub publish_date: String,
    pub views: i64,
    pub thumbnail: String,
    pub url: String,
}

/// The fields as found in the scraper's output: `has_title` says whether a
/// `title` field existed at all (of any type); each other field is present
/// only when it existed with the expected type.
pub struct RawMetadata {
    pub has_title: bool,
    pub title: Option<String>,
    pub channel: Option<String>,
    pub duration: Option<i64>,
    pub publish_date: Option<String>,
    pub views: Option<i64>,
    pub thumbnail: Option<String>,
    pub canonical_url: Option<String>,
}

pub open spec fn text_or(o: Option<String>, default: Seq<char>) -> Seq<char> {
    match o {
        Some(s) => s@,
        None => default,
    }
}

pub open spec fn num_or_zero(o: Option<i64>) -> i64 {
    match o {
        Some(v) => v,
        None => 0,
    }
}

/// Applies the per-field default policy. A response without any `title`
/// field is not valid video data and is rejected as malformed; every other
/// missing or wrongly-typed field falls back to its default, with the
/// request URL standing in for a missing canonical URL.
pub fn build_metadata(raw: RawMetadata, url: &str) -> (r: Result<VideoMetadata, PipelineError>)
    ensures
        r is Ok <==> raw.has_title,
        !raw.has_title ==> r == Err::<VideoMetadata, PipelineError>(
            PipelineError::MalformedResponse,
        ),
        r matches Ok(m) ==> m.title@ == text_or(raw.title, "Unknown Title"@) && m.channel@
            == text_or(raw.channel, "Unknown Channel"@) && m.duration == num_or_zero(raw.duration)
            && m.publish_date@ == text_or(raw.publish_date, ""@) && m.views == num_or_zero(
            raw.views,
        ) && m.thumbnail@ == text_or(raw.thumbnail, ""@) && m.url@ == text_or(
            raw.canonical_url,
            url@,
        ),
{
    if !raw.has_title {
        return Err(PipelineError::MalformedResponse);
    }
    let title = match raw.title {
        Some(s) => s,
        None => "Unknown Title".to_owned(),
    };
    let channel = match raw.channel {
        Some(s) => s,
        None => "Unknown Channel".to_owned(),
    };
    let duration = match raw.duration {
        Some(v) => v,
        None => 0,
    };
    let publish_date = match raw.publish_date {
        Some(s) => s,
        None => "".to_owned(),
    };
    let views = match raw.views {
        Some(v) => v,
        None => 0,
    };
    let thumbnail = match raw.thumbnail {
        Some(s) => s,
        None => "".to_owned(),
    };
    let url_out = match raw.canonical_url {
        Some(s) => s,
        None => url.to_owned(),
    };
    Ok(
        VideoMetadata {
            title,
            channel,
            duration,
            publish_date,
            views,
            thumbnail,
            url: url_out,
        },
    )
}

} // verus!
