//! The transcoding tool: where it is found and the command lines it is given.
//!
//! Each segment is re-encoded (H.264 video, AAC audio at a fixed quality) so
//! that cuts fall on the requested times rather than on keyframes; only the
//! final concatenation copies streams unchanged.
use vstd::prelude::*;
use crate::error::ExportError;
use crate::target::views;
use crate::timecode::{format_seconds, format_time, seconds_text, timestamp};

verus! {

/// The operating system the application runs on.
#[derive(Clone, Copy, Debug, PartialEq, Eq, Structural)]
pub enum HostOs {
    Windows,
    MacOs,
    Linux,
}

/// The file name of the bundled tool on each operating system.
pub open spec fn bundled_name(os: HostOs) -> Seq<char> {
    match os {
        HostOs::Windows => "ffmpeg-x86_64-pc-windows-msvc.exe"@,
        HostOs::MacOs => "ffmpeg-x86_64-apple-darwin"@,
        HostOs::Linux => "ffmpeg-x86_64-unknown-linux-gnu"@,
    }
}

/// The file name of the bundled tool, under the `binaries` directory of the
/// application's resources.
pub fn bundled_tool_name(os: HostOs) -> (r: String)
    ensures
        r@ == bundled_name(os),
{
    match os {
        HostOs::Windows => String::from_str("ffmpeg-x86_64-pc-windows-msvc.exe"),
        HostOs::MacOs => String::from_str("ffmpeg-x86_64-apple-darwin"),
        HostOs::Linux => String::from_str("ffmpeg-x86_64-unknown-linux-gnu"),
    }
}

/// The name under which the tool is looked up on the search path.
pub fn search_path_name() -> (r: String)
    ensures
        r@ == "ffmpeg"@,
{
    String::from_str("ffmpeg")
}

/// Which copy of the tool an export uses.
#[derive(Clone, Copy, Debug, PartialEq, Eq, Structural)]
pub enum ToolLocation {
    /// The executable bundled with the application.
    Bundled,
    /// The executable found on the search path.
    OnPath,
}

/// Picks the tool from the two probes, in order: the bundled executable where
/// it exists, else the one on the search path where a version query on it
/// could be launched.
pub fn choose_tool(bundled_exists: bool, path_probe_launched: bool) -> (r: Result<
    ToolLocation,
    ExportError,
>)
    ensures
        bundled_exists ==> r == Ok::<ToolLocation, ExportError>(ToolLocation::Bundled),
        !bundled_exists && path_probe_launched ==> r == Ok::<ToolLocation, ExportError>(
            ToolLocation::OnPath,
        ),
        !bundled_exists && !path_probe_launched ==> r is Err && r->Err_0 is ToolNotFound,
{
    if bundled_exists {
        Ok(ToolLocation::Bundled)
    } else if path_probe_launched {
        Ok(ToolLocation::OnPath)
    } else {
        Err(ExportError::ToolNotFound)
    }
}

/// The arguments that cut `duration` milliseconds from `start` out of `input`
/// into `output`.
pub open spec fn cut_command(start: nat, duration: nat, input: Seq<char>, output: Seq<char>) -> Seq<
    Seq<char>,
> {
    seq![
        "-y"@, "-ss"@, timestamp(start), "-i"@, input, "-t"@, seconds_text(duration),
        "-c:v"@, "libx264"@, "-preset"@, "fast"@, "-crf"@, "18"@,
        "-c:a"@, "aac"@, "-b:a"@, "192k"@,
        "-movflags"@, "+faststart"@, "-avoid_negative_ts"@, "make_zero"@, output
    ]
}

/// The arguments that join the files listed in `manifest` into `output`
/// without re-encoding.
pub open spec fn concat_command(manifest: Seq<char>, output: Seq<char>) -> Seq<Seq<char>> {
    seq![
        "-y"@, "-f"@, "concat"@, "-safe"@, "0"@, "-i"@, manifest,
        "-c"@, "copy"@, "-movflags"@, "+faststart"@, output
    ]
}

fn push_str(v: &mut Vec<String>, s: &str)
    ensures
        views(final(v)@) == views(old(v)@).push(s@),
{
    v.push(String::from_str(s));
    assert(views(final(v)@) =~= views(old(v)@).push(s@));
}

/// The tool's arguments for cutting one segment.
pub fn cut_args(start: u64, duration: u64, input: &str, output: &str) -> (r: Vec<String>)
    ensures
        views(r@) == cut_command(start as nat, duration as nat, input@, output@),
{
    let mut v: Vec<String> = Vec::new();
    push_str(&mut v, "-y");
    push_str(&mut v, "-ss");
    let t = format_time(start);
    push_str(&mut v, t.as_str());
    push_str(&mut v, "-i");
    push_str(&mut v, input);
    push_str(&mut v, "-t");
    let d = format_seconds(duration);
    push_str(&mut v, d.as_str());
    push_str(&mut v, "-c:v");
    push_str(&mut v, "libx264");
    push_str(&mut v, "-preset");
    push_str(&mut v, "fast");
    push_str(&mut v, "-crf");
    push_str(&mut v, "18");
    push_str(&mut v, "-c:a");
    push_str(&mut v, "aac");
    push_str(&mut v, "-b:a");
    push_str(&mut v, "192k");
    push_str(&mut v, "-movflags");
    push_str(&mut v, "+faststart");
    push_str(&mut v, "-avoid_negative_ts");
    push_str(&mut v, "make_zero");
    push_str(&mut v, output);
    assert(views(v@) =~= cut_command(start as nat, duration as nat, input@, output@));
    v
}

/// The tool's arguments for joining the cut segments.
pub fn concat_args(manifest: &str, output: &str) -> (r: Vec<String>)
    ensures
        views(r@) == concat_command(manifest@, output@),
{
    let mut v: Vec<String> = Vec::new();
    push_str(&mut v, "-y");
    push_str(&mut v, "-f");
    push_str(&mut v, "concat");
    push_str(&mut v, "-safe");
    push_str(&mut v, "0");
    push_str(&mut v, "-i");
    push_str(&mut v, manifest);
    push_str(&mut v, "-c");
    push_str(&mut v, "copy");
    push_str(&mut v, "-movflags");
    push_str(&mut v, "+faststart");
    push_str(&mut v, output);
    assert(views(v@) =~= concat_command(manifest@, output@));
    v
}

/// `p` with every backslash turned into a forward slash.
pub open spec fn forward_slashes(p: Seq<char>) -> Seq<char> {
    p.map_values(|c: char| if c == '\\' { '/' } else { c })
}

/// The manifest line that lists one file.
pub open spec fn manifest_line(p: Seq<char>) -> Seq<char> {
    "file '"@ + forward_slashes(p) + "'\n"@
}

/// The manifest that lists `paths` in order, one line each.
pub open spec fn manifest_of(paths: Seq<Seq<char>>) -> Seq<char>
    decreases paths.len(),
{
    if paths.len() == 0 {
        Seq::empty()
    } else {
        manifest_of(paths.drop_last()) + manifest_line(paths.last())
    }
}

fn push_forward_slashes(out: &mut String, p: &str)
    ensures
        final(out)@ == old(out)@ + forward_slashes(p@),
{
    let n = p.unicode_len();
    let mut i: usize = 0;
    while i < n
        invariant
            n == p@.len(),
            i <= n,
            out@ == old(out)@ + forward_slashes(p@.take(i as int)),
        decreases n - i,
    {
        let c = p.get_char(i);
        let ghost before = out@;
        proof {
            reveal_strlit("/");
        }
        if c == '\\' {
            out.append("/");
            assert(out@ =~= before.push('/'));
        } else {
            let one = p.substring_char(i, i + 1);
            assert(one@ =~= seq![c]);
            out.append(one);
            assert(out@ =~= before.push(c));
        }
        i = i + 1;
        assert(forward_slashes(p@.take(i as int)) =~= forward_slashes(p@.take(i - 1)).push(
            if c == '\\' { '/' } else { c },
        ));
        assert(out@ =~= old(out)@ + forward_slashes(p@.take(i as int)));
    }
    assert(p@.take(n as int) =~= p@);
}

/// The manifest that lists the cut segments for the concatenation.
pub fn manifest_text(paths: &Vec<String>) -> (r: String)
    ensures
        r@ == manifest_of(views(paths@)),
{
    let mut s = String::new();
    let mut i: usize = 0;
    while i < paths.len()
        invariant
            i <= paths.len(),
            s@ == manifest_of(views(paths@).take(i as int)),
        decreases paths.len() - i,
    {
        let ghost before = s@;
        s.append("file '");
        push_forward_slashes(&mut s, paths[i].as_str());
        s.append("'\n");
        i = i + 1;
        assert(views(paths@).take(i as int).drop_last() =~= views(paths@).take(i - 1));
        assert(s@ =~= before + manifest_line(paths@[i - 1]@));
    }
    assert(views(paths@).take(paths.len() as int) =~= views(paths@));
    s
}

} // verus!
