use quotify::errors::PipelineError;
use quotify::paths::{ProbeReport, ToolPaths, ToolProbe};

fn probe_found_at(index: usize) -> ToolProbe {
    let mut found = vec![false; 4];
    found[index] = true;
    ToolProbe { found_at: found, which_output: None }
}

fn probe_nothing() -> ToolProbe {
    ToolProbe { found_at: vec![false; 4], which_output: None }
}

fn probe_which(output: &str) -> ToolProbe {
    ToolProbe { found_at: vec![false; 4], which_output: Some(output.to_string()) }
}

#[test]
fn first_candidate_location_wins() {
    let mut found = vec![false; 4];
    found[1] = true;
    found[3] = true;
    let probe = ToolProbe { found_at: found, which_output: Some("/elsewhere/ffmpeg".to_string()) };
    let p = ToolPaths::find_tool("ffmpeg", &probe).unwrap();
    assert_eq!(p, "/usr/local/bin/ffmpeg");
}

#[test]
fn each_candidate_maps_to_its_prefix() {
    assert_eq!(
        ToolPaths::find_tool("yt-dlp", &probe_found_at(0)).unwrap(),
        "/opt/homebrew/bin/yt-dlp"
    );
    assert_eq!(ToolPaths::find_tool("yt-dlp", &probe_found_at(2)).unwrap(), "/usr/bin/yt-dlp");
    assert_eq!(ToolPaths::find_tool("yt-dlp", &probe_found_at(3)).unwrap(), "/bin/yt-dlp");
}

#[test]
fn path_lookup_output_is_trimmed() {
    let p = ToolPaths::find_tool("yt-dlp", &probe_which("  /somewhere/yt-dlp\n")).unwrap();
    assert_eq!(p, "/somewhere/yt-dlp");
}

#[test]
fn blank_path_lookup_output_is_not_a_location() {
    let r = ToolPaths::find_tool("yt-dlp", &probe_which("   \n"));
    assert!(matches!(r, Err(PipelineError::ToolNotFound { tool }) if tool == "yt-dlp"));
}

#[test]
fn missing_tool_is_reported_by_name() {
    let r = ToolPaths::find_tool("ffprobe", &probe_nothing());
    assert!(matches!(r, Err(PipelineError::ToolNotFound { tool }) if tool == "ffprobe"));
}

#[test]
fn discover_resolves_all_three_tools() {
    let report = ProbeReport {
        ffmpeg: probe_found_at(2),
        ffprobe: probe_found_at(2),
        yt_dlp: probe_which("/somewhere/yt-dlp"),
    };
    let tools = ToolPaths::discover(&report).unwrap();
    assert_eq!(tools.ffmpeg, "/usr/bin/ffmpeg");
    assert_eq!(tools.ffprobe, "/usr/bin/ffprobe");
    assert_eq!(tools.yt_dlp, "/somewhere/yt-dlp");
}

#[test]
fn discover_reports_the_first_missing_tool() {
    let report = ProbeReport {
        ffmpeg: probe_found_at(0),
        ffprobe: probe_nothing(),
        yt_dlp: probe_nothing(),
    };
    let r = ToolPaths::discover(&report);
    assert!(matches!(r, Err(PipelineError::ToolNotFound { tool }) if tool == "ffprobe"));
}

fn some_tools() -> ToolPaths {
    ToolPaths {
        ffmpeg: "/usr/bin/ffmpeg".to_string(),
        ffprobe: "/usr/bin/ffprobe".to_string(),
        yt_dlp: "/usr/bin/yt-dlp".to_string(),
    }
}

#[test]
fn confirmation_passes_working_tools_through() {
    let tools = some_tools().confirm_verified(true, true, true).unwrap();
    assert_eq!(tools.ffmpeg, "/usr/bin/ffmpeg");
}

#[test]
fn confirmation_reports_the_first_failing_tool() {
    let r = some_tools().confirm_verified(true, false, false);
    assert!(matches!(r, Err(PipelineError::ToolVerificationFailed { tool }) if tool == "ffprobe"));
}

#[test]
fn ffmpeg_dir_is_the_path_up_to_the_last_separator() {
    assert_eq!(some_tools().ffmpeg_dir().unwrap(), "/usr/bin");
}

#[test]
fn ffmpeg_dir_of_a_root_level_path_is_the_root() {
    let mut tools = some_tools();
    tools.ffmpeg = "/ffmpeg".to_string();
    assert_eq!(tools.ffmpeg_dir().unwrap(), "/");
}

#[test]
fn ffmpeg_dir_of_a_bare_name_is_none() {
    let mut tools = some_tools();
    tools.ffmpeg = "ffmpeg".to_string();
    assert!(tools.ffmpeg_dir().is_none());
}

#[test]
fn enhanced_path_prepends_the_ffmpeg_dir() {
    let p = some_tools().enhanced_path("/usr/local/bin:/usr/bin");
    assert_eq!(p, "/usr/bin:/usr/local/bin:/usr/bin");
}

#[test]
fn enhanced_path_without_a_dir_is_unchanged() {
    let mut tools = some_tools();
    tools.ffmpeg = "ffmpeg".to_string();
    assert_eq!(tools.enhanced_path("/usr/bin"), "/usr/bin");
}
