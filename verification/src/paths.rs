//! Tool-path resolution for the external downloader and transcoder.
//!
//! The caller probes the filesystem (which fixed candidate paths exist, what
//! a PATH lookup printed, whether a probe run of each resolved binary
//! spawned) and hands the findings in as plain values; which path is chosen,
//! in which order, and how each failure is reported are decided and verified
//! here.

use vstd::prelude::*;
use vstd::string::*;
use crate::errors::PipelineError;
use crate::text::{trim_of, trim_text, rfind_char, find_last_char};

verus! {

/// The resolved locations of the three required external tools.
pub struct ToolPaths {
    pub ffmpeg: String,
    pub ffprobe: String,
    pub yt_dlp: String,
}

/// The filesystem findings for one tool: for each fixed candidate location,
/// whether a file exists there, and the output of the PATH lookup when that
/// lookup ran and succeeded.
pub struct ToolProbe {
    pub found_at: Vec<bool>,
    pub which_output: Option<String>,
}

/// The findings for all three tools.
pub struct ProbeReport {
    pub ffmpeg: ToolProbe,
    pub ffprobe: ToolProbe,
    pub yt_dlp: ToolProbe,
}

/// The fixed candidate locations, in order of preference.
pub open spec fn spec_candidate(name: Seq<char>, i: int) -> Seq<char> {
    if i == 0 {
        "/opt/homebrew/bin/"@ + name
    } else if i == 1 {
        "/usr/local/bin/"@ + name
    } else if i == 2 {
        "/usr/bin/"@ + name
    } else {
        "/bin/"@ + name
    }
}

/// The first of the four candidate indices marked found, if any.
pub open spec fn spec_first_found(found: Seq<bool>, i: int) -> Option<int>
    decreases 4 - i,
{
    if i >= 4 {
        None
    } else if 0 <= i && i < found.len() && found[i] {
        Some(i)
    } else {
        spec_first_found(found, i + 1)
    }
}

pub open spec fn probe_which(p: ToolProbe) -> Option<Seq<char>> {
    match p.which_output {
        Some(s) => Some(s@),
        None => None,
    }
}

/// The resolved path for a tool: the first candidate location found, else
/// the trimmed PATH-lookup output when that is non-empty, else nothing.
pub open spec fn spec_find_tool(name: Seq<char>, found: Seq<bool>, which: Option<Seq<char>>) -> Option<
    Seq<char>,
> {
    match spec_first_found(found, 0) {
        Some(i) => Some(spec_candidate(name, i)),
        None => match which {
            Some(w) => if trim_of(w).len() > 0 {
                Some(trim_of(w))
            } else {
                None
            },
            None => None,
        },
    }
}

pub open spec fn probe_result(name: Seq<char>, p: ToolProbe) -> Option<Seq<char>> {
    spec_find_tool(name, p.found_at@, probe_which(p))
}

fn candidate_path(name: &str, i: usize) -> (r: String)
    requires
        i < 4,
    ensures
        r@ == spec_candidate(name@, i as int),
{
    if i == 0 {
        "/opt/homebrew/bin/".to_owned().concat(name)
    } else if i == 1 {
        "/usr/local/bin/".to_owned().concat(name)
    } else if i == 2 {
        "/usr/bin/".to_owned().concat(name)
    } else {
        "/bin/".to_owned().concat(name)
    }
}

impl ToolPaths {
    /// Resolves one tool from its probe: the first existing candidate wins;
    /// otherwise the trimmed PATH-lookup output, when non-empty; otherwise
    /// the tool is reported missing by name.
    pub fn find_tool(name: &str, probe: &ToolProbe) -> (r: Result<String, PipelineError>)
        ensures
            match probe_result(name@, *probe) {
                Some(p) => r matches Ok(s) && s@ == p,
                None => r matches Err(e) && e matches PipelineError::ToolNotFound { tool }
                    && tool@ == name@,
            },
    {
        let mut idx: usize = 0;
        while idx < 4
            invariant
                idx <= 4,
                spec_first_found(probe.found_at@, 0) == spec_first_found(
                    probe.found_at@,
                    idx as int,
                ),
            decreases 4 - idx,
        {
            let present = idx < probe.found_at.len() && probe.found_at[idx];
            if present {
                return Ok(candidate_path(name, idx));
            }
            idx += 1;
        }
        match &probe.which_output {
            Some(w) => {
                let t = trim_text(w.as_str());
                if t.as_str().unicode_len() > 0 {
                    Ok(t)
                } else {
                    Err(PipelineError::ToolNotFound { tool: name.to_owned() })
                }
            },
            None => Err(PipelineError::ToolNotFound { tool: name.to_owned() }),
        }
    }

    /// Resolves all three tools from the report, in the fixed order ffmpeg,
    /// ffprobe, yt-dlp; the first missing one is the error.
    pub fn discover(report: &ProbeReport) -> (r: Result<ToolPaths, PipelineError>)
        ensures
            r is Ok <==> (probe_result("ffmpeg"@, report.ffmpeg) is Some && probe_result(
                "ffprobe"@,
                report.ffprobe,
            ) is Some && probe_result("yt-dlp"@, report.yt_dlp) is Some),
            r matches Ok(tp) ==> tp.ffmpeg@ == probe_result("ffmpeg"@, report.ffmpeg)->Some_0
                && tp.ffprobe@ == probe_result("ffprobe"@, report.ffprobe)->Some_0 && tp.yt_dlp@
                == probe_result("yt-dlp"@, report.yt_dlp)->Some_0,
            probe_result("ffmpeg"@, report.ffmpeg) is None ==> (r matches Err(e) && e matches
                PipelineError::ToolNotFound { tool } && tool@ == "ffmpeg"@),
            probe_result("ffmpeg"@, report.ffmpeg) is Some && probe_result(
                "ffprobe"@,
                report.ffprobe,
            ) is None ==> (r matches Err(e) && e matches PipelineError::ToolNotFound { tool }
                && tool@ == "ffprobe"@),
            probe_result("ffmpeg"@, report.ffmpeg) is Some && probe_result(
                "ffprobe"@,
                report.ffprobe,
            ) is Some && probe_result("yt-dlp"@, report.yt_dlp) is None ==> (r matches Err(e)
                && e matches PipelineError::ToolNotFound { tool } && tool@ == "yt-dlp"@),
    {
        let ffmpeg = match Self::find_tool("ffmpeg", &report.ffmpeg) {
            Ok(p) => p,
            Err(e) => {
                return Err(e);
            },
        };
        let ffprobe = match Self::find_tool("ffprobe", &report.ffprobe) {
            Ok(p) => p,
            Err(e) => {
                return Err(e);
            },
        };
        let yt_dlp = match Self::find_tool("yt-dlp", &report.yt_dlp) {
            Ok(p) => p,
            Err(e) => {
                return Err(e);
            },
        };
        Ok(ToolPaths { ffmpeg, ffprobe, yt_dlp })
    }

    /// Confirms the probe runs of the resolved tools, in the same fixed
    /// order: the first tool whose probe run failed to spawn is the error.
    pub fn confirm_verified(self, ffmpeg_ok: bool, ffprobe_ok: bool, yt_dlp_ok: bool) -> (r:
        Result<ToolPaths, PipelineError>)
        ensures
            ffmpeg_ok && ffprobe_ok && yt_dlp_ok ==> r == Ok::<ToolPaths, PipelineError>(self),
            !ffmpeg_ok ==> (r matches Err(e) && e matches PipelineError::ToolVerificationFailed {
                tool,
            } && tool@ == "ffmpeg"@),
            ffmpeg_ok && !ffprobe_ok ==> (r matches Err(e) && e matches
                PipelineError::ToolVerificationFailed { tool } && tool@ == "ffprobe"@),
            ffmpeg_ok && ffprobe_ok && !yt_dlp_ok ==> (r matches Err(e) && e matches
                PipelineError::ToolVerificationFailed { tool } && tool@ == "yt-dlp"@),
    {
        if !ffmpeg_ok {
            Err(PipelineError::ToolVerificationFailed { tool: "ffmpeg".to_owned() })
        } else if !ffprobe_ok {
            Err(PipelineError::ToolVerificationFailed { tool: "ffprobe".to_owned() })
        } else if !yt_dlp_ok {
            Err(PipelineError::ToolVerificationFailed { tool: "yt-dlp".to_owned() })
        } else {
            Ok(self)
        }
    }

    /// The directory holding the resolved ffmpeg binary: the path up to its
    /// final separator (the root when the separator comes first), or nothing
    /// for a bare name.
    pub fn ffmpeg_dir(&self) -> (r: Option<String>)
        ensures
            match r {
                Some(d) => spec_parent_dir(self.ffmpeg@) == Some(d@),
                None => spec_parent_dir(self.ffmpeg@) is None,
            },
    {
        match find_last_char(self.ffmpeg.as_str(), '/') {
            Some(i) => {
                proof {
                    lemma_rfind_char_in_range(self.ffmpeg@, '/', self.ffmpeg@.len() - 1);
                }
                if i == 0 {
                    let root = "/".to_owned();
                    proof {
                        reveal_strlit("/");
                        assert(root@ =~= seq!['/']);
                    }
                    Some(root)
                } else {
                    Some(self.ffmpeg.as_str().substring_char(0, i).to_owned())
                }
            },
            None => None,
        }
    }

    /// A PATH value with the ffmpeg directory prepended, when there is one.
    pub fn enhanced_path(&self, current_path: &str) -> (r: String)
        ensures
            match spec_parent_dir(self.ffmpeg@) {
                Some(d) => r@ == d + seq![':'] + current_path@,
                None => r@ == current_path@,
            },
    {
        match self.ffmpeg_dir() {
            Some(d) => {
                let mut s = d;
                s.append(":");
                s.append(current_path);
                proof {
                    reveal_strlit(":");
                    assert(":"@ =~= seq![':']);
                }
                s
            },
            None => current_path.to_owned(),
        }
    }
}

/// The prefix of a path up to its last separator.
pub open spec fn spec_parent_dir(s: Seq<char>) -> Option<Seq<char>> {
    match rfind_char(s, '/', s.len() - 1) {
        Some(i) => if i == 0 {
            Some(seq!['/'])
        } else {
            Some(s.subrange(0, i))
        },
        None => None,
    }
}

/// A found separator position lies inside the searched range.
proof fn lemma_rfind_char_in_range(s: Seq<char>, c: char, i: int)
    ensures
        rfind_char(s, c, i) matches Some(e) ==> 0 <= e <= i && e < s.len(),
    decreases i + 1,
{
    if i < 0 || i >= s.len() {
    } else if s[i] == c {
    } else {
        lemma_rfind_char_in_range(s, c, i - 1);
    }
}

} // verus!
