//! Audio acquisition: planning the external download and collecting its
//! outcome. The caller runs the planned process and reads the artifact; the
//! decisions — whether a URL may reach the process at all, the exact argument
//! list, and how each outcome is reported — are made and verified here.

use vstd::prelude::*;
use crate::errors::PipelineError;
use crate::video_url::{spec_url_supported, url_supported};

verus! {

/// The downsampled audio for one URL, read back as bytes, owned by a single
/// pipeline run.
pub struct AudioArtifact {
    pub bytes: Vec<u8>,
}

/// The external download invocation: a program name and its argument list,
/// ready to run.
pub struct DownloadPlan {
    pub program: String,
    pub args: Vec<String>,
}

/// The argument list of the plan for `url` and `output_path`, in order.
pub open spec fn spec_download_args(url: Seq<char>, output_path: Seq<char>) -> Seq<Seq<char>> {
    seq![
        "--extract-audio"@,
        "--audio-format"@,
        "mp3"@,
        "--audio-quality"@,
        "192"@,
        "--output"@,
        output_path,
        url,
    ]
}

pub open spec fn plan_args_view(p: DownloadPlan) -> Seq<Seq<char>> {
    Seq::new(p.args@.len(), |i: int| p.args@[i]@)
}

/// Plans the audio download. The allow-list check is a security boundary: a
/// URL yields a plan if and only if it passes, so an unsupported URL is
/// rejected with `UnsupportedUrl` before it can ever reach a process
/// argument list.
pub fn plan_download(url: &str, output_path: &str) -> (r: Result<DownloadPlan, PipelineError>)
    ensures
        r is Ok <==> spec_url_supported(url@),
        r matches Ok(p) ==> p.program@ == "yt-dlp"@ && plan_args_view(p) == spec_download_args(
            url@,
            output_path@,
        ),
        r is Err ==> r == Err::<DownloadPlan, PipelineError>(PipelineError::UnsupportedUrl),
{
    if !url_supported(url) {
        return Err(PipelineError::UnsupportedUrl);
    }
    let mut args: Vec<String> = Vec::new();
    args.push("--extract-audio".to_owned());
    args.push("--audio-format".to_owned());
    args.push("mp3".to_owned());
    args.push("--audio-quality".to_owned());
    args.push("192".to_owned());
    args.push("--output".to_owned());
    args.push(output_path.to_owned());
    args.push(url.to_owned());
    let plan = DownloadPlan { program: "yt-dlp".to_owned(), args: args };
    proof {
        assert(plan_args_view(plan) =~= spec_download_args(url@, output_path@));
    }
    Ok(plan)
}

/// Turns the outcome of the planned run into the artifact or an error: a
/// nonzero exit is `ToolExecutionFailed` carrying the captured diagnostics;
/// a success exit whose output could not be read back is
/// `ArtifactReadFailed`; otherwise the bytes become the artifact.
pub fn collect_artifact(exit_success: bool, diagnostics: String, bytes: Option<Vec<u8>>) -> (r:
    Result<AudioArtifact, PipelineError>)
    ensures
        !exit_success ==> r == Err::<AudioArtifact, PipelineError>(
            PipelineError::ToolExecutionFailed { diagnostics },
        ),
        exit_success && bytes is None ==> r == Err::<AudioArtifact, PipelineError>(
            PipelineError::ArtifactReadFailed,
        ),
        exit_success && bytes is Some ==> (r matches Ok(a) && a.bytes@ == bytes->Some_0@),
{
    if !exit_success {
        return Err(PipelineError::ToolExecutionFailed { diagnostics });
    }
    match bytes {
        Some(b) => Ok(AudioArtifact { bytes: b }),
        None => Err(PipelineError::ArtifactReadFailed),
    }
}

} // verus!
