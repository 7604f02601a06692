use video_cutter::error::ExportError;
use video_cutter::tool::{
    bundled_tool_name, choose_tool, concat_args, cut_args, manifest_text, search_path_name,
    HostOs, ToolLocation,
};

#[test]
fn bundled_names_per_os() {
    assert_eq!(bundled_tool_name(HostOs::Windows), "ffmpeg-x86_64-pc-windows-msvc.exe");
    assert_eq!(bundled_tool_name(HostOs::MacOs), "ffmpeg-x86_64-apple-darwin");
    assert_eq!(bundled_tool_name(HostOs::Linux), "ffmpeg-x86_64-unknown-linux-gnu");
    assert_eq!(search_path_name(), "ffmpeg");
}

#[test]
fn tool_search_order() {
    assert_eq!(choose_tool(true, true).unwrap(), ToolLocation::Bundled);
    assert_eq!(choose_tool(true, false).unwrap(), ToolLocation::Bundled);
    assert_eq!(choose_tool(false, true).unwrap(), ToolLocation::OnPath);
    assert!(matches!(choose_tool(false, false), Err(ExportError::ToolNotFound)));
}

#[test]
fn cut_arguments() {
    let args = cut_args(3_661_500, 2_500, "in.mov", "/tmp/w/segment_0.mp4");
    assert_eq!(
        args,
        vec![
            "-y", "-ss", "01:01:01.500", "-i", "in.mov", "-t", "2.5", "-c:v", "libx264",
            "-preset", "fast", "-crf", "18", "-c:a", "aac", "-b:a", "192k", "-movflags",
            "+faststart", "-avoid_negative_ts", "make_zero", "/tmp/w/segment_0.mp4",
        ]
    );
}

#[test]
fn concat_arguments() {
    let args = concat_args("/tmp/w/concat_list.txt", "out.mp4");
    assert_eq!(
        args,
        vec![
            "-y", "-f", "concat", "-safe", "0", "-i", "/tmp/w/concat_list.txt", "-c", "copy",
            "-movflags", "+faststart", "out.mp4",
        ]
    );
}

#[test]
fn manifest_lines() {
    let paths = vec!["C:\\t\\segment_0.mp4".to_string(), "/t/segment_1.mp4".to_string()];
    assert_eq!(
        manifest_text(&paths),
        "file 'C:/t/segment_0.mp4'\nfile '/t/segment_1.mp4'\n"
    );
    assert_eq!(manifest_text(&Vec::new()), "");
}
