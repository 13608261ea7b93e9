//! The remux tool: whether it is at hand, and how it is called.

use vstd::prelude::*;
use vstd::string::StringExecFns;
use crate::error::AppError;
use crate::text::{chars_of, contains, decimal, find_between, u64_to_string};

verus! {

/// The systems for which the tool can be fetched.
#[derive(Clone, Copy, Debug, PartialEq, Eq)]
pub enum Os {
    /// Windows; the tool's file is `ffmpeg.exe` there.
    Windows,
    /// Linux.
    Linux,
    /// macOS.
    MacOs,
}

/// Where the tool is fetched from.
pub open spec fn ffmpeg_url(os: Os) -> Seq<char> {
    match os {
        Os::Windows => "https://github.com/BtbN/FFmpeg-Builds/releases/download/latest/ffmpeg-master-latest-win64-lgpl.zip"@,
        Os::Linux => "https://github.com/BtbN/FFmpeg-Builds/releases/download/latest/ffmpeg-master-latest-linux64-lgpl.tar.xz"@,
        Os::MacOs => "https://evermeet.cx/ffmpeg/getrelease/zip"@,
    }
}

/// The name of the tool's file.
pub open spec fn binary_name(os: Os) -> Seq<char> {
    match os {
        Os::Windows => "ffmpeg.exe"@,
        _ => "ffmpeg"@,
    }
}

/// Where the tool is fetched from.
pub fn download_url(os: Os) -> (url: &'static str)
    ensures
        url@ == ffmpeg_url(os),
{
    match os {
        Os::Windows => "https://github.com/BtbN/FFmpeg-Builds/releases/download/latest/ffmpeg-master-latest-win64-lgpl.zip",
        Os::Linux => "https://github.com/BtbN/FFmpeg-Builds/releases/download/latest/ffmpeg-master-latest-linux64-lgpl.tar.xz",
        Os::MacOs => "https://evermeet.cx/ffmpeg/getrelease/zip",
    }
}

/// The name of the tool's file.
pub fn binary(os: Os) -> (name: &'static str)
    ensures
        name@ == binary_name(os),
{
    match os {
        Os::Windows => "ffmpeg.exe",
        _ => "ffmpeg",
    }
}

/// Where the tool is installed on a system that has one place for such
/// programs.
pub fn get_default_ffmpeg_path() -> (dir: &'static str)
    ensures
        dir@ == "/usr/local/bin"@,
{
    "/usr/local/bin"
}

/// Whether an entry of the fetched archive is the tool: it is where its name
/// holds the name of the tool's file.
pub fn is_tool_entry(entry: &str, os: Os) -> (r: bool)
    ensures
        r == contains(entry@, binary_name(os)),
{
    let hay = chars_of(entry);
    let needle = chars_of(binary(os));
    proof {
        assert(hay@.subrange(0, hay.len() as int) == hay@);
    }
    find_between(&hay, &needle, 0, hay.len()).is_some()
}

/// The remux tool at a path where it was found.
#[derive(Clone, Debug, PartialEq, Eq)]
pub struct FFmpeg {
    path: String,
}

/// The text of the error where the tool is not installed.
pub open spec fn not_installed_text() -> Seq<char> {
    "FFmpeg is not installed. Please install it first - see README.md for instructions"@
}

/// The text of the error where the tool is not at a path.
pub open spec fn not_found_text(path: Seq<char>) -> Seq<char> {
    "FFmpeg not found at path: "@ + path
}

/// Whether the program can start: it can where the tool was found
/// installed.
pub fn init(installed: bool) -> (r: Result<(), AppError>)
    ensures
        if installed {
            r is Ok
        } else {
            r matches Err(AppError::FFmpeg(m)) && m@ == not_installed_text()
        },
{
    if installed {
        Ok(())
    } else {
        Err(
            AppError::FFmpeg(
                "FFmpeg is not installed. Please install it first - see README.md for instructions".to_owned(),
            ),
        )
    }
}

impl FFmpeg {
    /// The path of the tool.
    pub closed spec fn location(&self) -> Seq<char> {
        self.path@
    }

    /// The tool at `path`, where `installed` says that it answered there.
    pub fn new(path: String, installed: bool) -> (r: Result<FFmpeg, AppError>)
        ensures
            if installed {
                r matches Ok(tool) && tool.location() == path@
            } else {
                r matches Err(AppError::FFmpeg(m)) && m@ == not_found_text(path@)
            },
    {
        if installed {
            Ok(FFmpeg { path })
        } else {
            let mut text = "FFmpeg not found at path: ".to_owned();
            text.append(path.as_str());
            Err(AppError::FFmpeg(text))
        }
    }

    /// The path of the tool.
    pub fn path(&self) -> (r: &String)
        ensures
            r@ == self.location(),
    {
        &self.path
    }
}

/// The texts of a list of arguments.
pub open spec fn texts(args: Seq<String>) -> Seq<Seq<char>> {
    Seq::new(args.len(), |i: int| args[i]@)
}

/// The arguments that bring the cover in: the image as a second input that
/// is copied in as the attached picture, or a plain copy where there is no
/// cover.
pub open spec fn cover_args(thumbnail: Option<Seq<char>>) -> Seq<Seq<char>> {
    match thumbnail {
        Some(path) => seq![
            "-i"@,
            path,
            "-map"@,
            "0:a"@,
            "-map"@,
            "1:v"@,
            "-c:a"@,
            "copy"@,
            "-c:v"@,
            "copy"@,
            "-metadata:s:v"@,
            "title=Album cover"@,
            "-metadata:s:v"@,
            "comment=Cover (front)"@,
            "-disposition:v"@,
            "attached_pic"@,
        ],
        None => seq!["-c"@, "copy"@],
    }
}

/// The arguments that every call ends with.
pub open spec fn output_args(output: Seq<char>) -> Seq<Seq<char>> {
    seq!["-movflags"@, "+faststart"@, "-loglevel"@, "error"@, output]
}

/// The arguments that remux an audio file.
pub open spec fn reformat_m4a_args(
    audio: Seq<char>,
    thumbnail: Option<Seq<char>>,
    output: Seq<char>,
) -> Seq<Seq<char>> {
    seq!["-y"@, "-i"@, audio, "-threads"@, "0"@] + cover_args(thumbnail) + output_args(output)
}

/// The arguments that remux an audio file to the MP4 container, whatever
/// the name of the output says.
pub open spec fn reformat_mp4_args(
    audio: Seq<char>,
    thumbnail: Option<Seq<char>>,
    output: Seq<char>,
) -> Seq<Seq<char>> {
    seq!["-y"@, "-i"@, audio] + cover_args(thumbnail) + seq!["-f"@, "mp4"@] + output_args(output)
}

/// The arguments that fetch and join the segments of a list.
pub open spec fn process_m3u8_args(
    playlist: Seq<char>,
    thumbnail: Option<Seq<char>>,
    output: Seq<char>,
) -> Seq<Seq<char>> {
    seq![
        "-y"@,
        "-protocol_whitelist"@,
        "file,http,https,tcp,tls"@,
        "-threads"@,
        "0"@,
        "-i"@,
        playlist,
    ] + cover_args(thumbnail) + output_args(output)
}

/// An exit code in decimal, with its sign.
pub open spec fn signed_decimal(n: int) -> Seq<char> {
    if n < 0 {
        seq!['-'] + decimal((-n) as nat)
    } else {
        decimal(n as nat)
    }
}

/// The text of the error for a run that ended with `code`; a run that left
/// no code counts as one that ended with 1.
pub open spec fn exit_text(code: Option<i32>) -> Seq<char> {
    "FFmpeg failed with exit code: "@ + signed_decimal(
        match code {
            Some(c) => c as int,
            None => 1,
        },
    )
}

/// Adds one argument.
fn push_arg(args: &mut Vec<String>, arg: &str)
    ensures
        texts(final(args)@) == texts(old(args)@).push(arg@),
{
    args.push(arg.to_owned());
}

/// Adds the arguments that bring the cover in.
fn push_cover_args(args: &mut Vec<String>, thumbnail: Option<&str>)
    ensures
        texts(final(args)@) == texts(old(args)@) + cover_args(path_text(thumbnail)),
{
    match thumbnail {
        Some(path) => {
            push_arg(args, "-i");
            push_arg(args, path);
            push_arg(args, "-map");
            push_arg(args, "0:a");
            push_arg(args, "-map");
            push_arg(args, "1:v");
            push_arg(args, "-c:a");
            push_arg(args, "copy");
            push_arg(args, "-c:v");
            push_arg(args, "copy");
            push_arg(args, "-metadata:s:v");
            push_arg(args, "title=Album cover");
            push_arg(args, "-metadata:s:v");
            push_arg(args, "comment=Cover (front)");
            push_arg(args, "-disposition:v");
            push_arg(args, "attached_pic");
        },
        None => {
            push_arg(args, "-c");
            push_arg(args, "copy");
        },
    }
}

/// Adds the arguments that every call ends with.
fn push_output_args(args: &mut Vec<String>, output: &str)
    ensures
        texts(final(args)@) == texts(old(args)@) + output_args(output@),
{
    push_arg(args, "-movflags");
    push_arg(args, "+faststart");
    push_arg(args, "-loglevel");
    push_arg(args, "error");
    push_arg(args, output);
}

/// The text of the error for an output path that is no text.
pub open spec fn invalid_path_text() -> Seq<char> {
    "Invalid output path"@
}

/// The text of a path, if it is text.
pub open spec fn path_text(path: Option<&str>) -> Option<Seq<char>> {
    match path {
        Some(p) => Some(p@),
        None => None,
    }
}

/// `r` is the error for an output path that is no text.
pub open spec fn is_invalid_path(r: Result<Vec<String>, AppError>) -> bool {
    r matches Err(AppError::FFmpeg(m)) && m@ == invalid_path_text()
}

/// The output path as the tool takes it. `path` is the path as text, or
/// `None` where the path is no text; such a path is an error.
pub fn output_path<'a>(path: Option<&'a str>) -> (r: Result<&'a str, AppError>)
    ensures
        match path {
            Some(p) => r == Ok::<&str, AppError>(p),
            None => r matches Err(AppError::FFmpeg(m)) && m@ == invalid_path_text(),
        },
{
    match path {
        Some(p) => Ok(p),
        None => Err(AppError::FFmpeg("Invalid output path".to_owned())),
    }
}

/// The arguments with which the tool on the search path remuxes the audio
/// file at `audio` to an MP4 file at `output`, with the cover at `thumbnail`
/// if there is one. `output` is the path as text, or `None` where it is no
/// text.
pub fn reformat_m4a(audio: &str, thumbnail: Option<&str>, output: Option<&str>) -> (r: Result<
    Vec<String>,
    AppError,
>)
    ensures
        match output {
                Some(target) => r matches Ok(args) && texts(args@) == reformat_mp4_args(
                    audio@,
                    path_text(thumbnail),
                    target@,
                ),
                None => is_invalid_path(r),
            },
{
    let target = match output_path(output) {
        Ok(text) => text,
        Err(e) => {
            return Err(e);
        },
    };
    let mut args: Vec<String> = Vec::new();
    push_arg(&mut args, "-y");
    push_arg(&mut args, "-i");
    push_arg(&mut args, audio);
    push_cover_args(&mut args, thumbnail);
    push_arg(&mut args, "-f");
    push_arg(&mut args, "mp4");
    push_output_args(&mut args, target);
    Ok(args)
}

impl FFmpeg {
    /// The arguments with which the tool remuxes the audio file at `audio`
    /// to `output`, with the cover at `thumbnail` if there is one. `output`
    /// is the path as text, or `None` where it is no text.
    pub fn reformat_m4a(
        &self,
        audio: &str,
        thumbnail: Option<&str>,
        output: Option<&str>,
    ) -> (r: Result<Vec<String>, AppError>)
        ensures
            match output {
                Some(target) => r matches Ok(args) && texts(args@) == reformat_m4a_args(
                    audio@,
                    path_text(thumbnail),
                    target@,
                ),
                None => is_invalid_path(r),
            },
    {
        let target = match output_path(output) {
            Ok(text) => text,
            Err(e) => {
                return Err(e);
            },
        };
        let mut args: Vec<String> = Vec::new();
        push_arg(&mut args, "-y");
        push_arg(&mut args, "-i");
        push_arg(&mut args, audio);
        push_arg(&mut args, "-threads");
        push_arg(&mut args, "0");
        push_cover_args(&mut args, thumbnail);
        push_output_args(&mut args, target);
        Ok(args)
    }

    /// The arguments with which the tool fetches the segments that the list
    /// at `playlist` names and joins them to `output`, with the cover at
    /// `thumbnail` if there is one. `output` is the path as text, or `None`
    /// where it is no text.
    pub fn process_m3u8(
        &self,
        playlist: &str,
        thumbnail: Option<&str>,
        output: Option<&str>,
    ) -> (r: Result<Vec<String>, AppError>)
        ensures
            match output {
                Some(target) => r matches Ok(args) && texts(args@) == process_m3u8_args(
                    playlist@,
                    path_text(thumbnail),
                    target@,
                ),
                None => is_invalid_path(r),
            },
    {
        let target = match output_path(output) {
            Ok(text) => text,
            Err(e) => {
                return Err(e);
            },
        };
        let mut args: Vec<String> = Vec::new();
        push_arg(&mut args, "-y");
        push_arg(&mut args, "-protocol_whitelist");
        push_arg(&mut args, "file,http,https,tcp,tls");
        push_arg(&mut args, "-threads");
        push_arg(&mut args, "0");
        push_arg(&mut args, "-i");
        push_arg(&mut args, playlist);
        push_cover_args(&mut args, thumbnail);
        push_output_args(&mut args, target);
        Ok(args)
    }

    /// What a run of the tool came to: fine where it reports success, else
    /// an error that names the exit code.
    pub fn run_command(success: bool, code: Option<i32>) -> (r: Result<(), AppError>)
        ensures
            if success {
                r is Ok
            } else {
                r matches Err(AppError::FFmpeg(m)) && m@ == exit_text(code)
            },
    {
        if success {
            return Ok(());
        }
        let code: i32 = match code {
            Some(c) => c,
            None => 1,
        };
        let mut text = "FFmpeg failed with exit code: ".to_owned();
        if code < 0 {
            text.push('-');
            let magnitude: u64 = (-(code as i64)) as u64;
            text.append(u64_to_string(magnitude).as_str());
        } else {
            text.append(u64_to_string(code as u64).as_str());
        }
        Err(AppError::FFmpeg(text))
    }
}

} // verus!
