//! Request and response containers of the gateway.
//!
//! These are plain data: an invocation request carries the tool's
//! argument list and a destination, a response carries the captured
//! diagnostic text, and the inspection types mirror the records the
//! inspection tool prints. The surrounding service layer validates and
//! (de)serializes them; the core treats them as immutable values.
use vstd::prelude::*;

use std::collections::HashMap;

use crate::descriptor::Descriptor;

verus! {

/// Where a transcoding result should be delivered.
#[derive(Clone, Debug)]
pub struct Output {
    pub location: Descriptor,
}

/// One transcoding invocation: the tool's arguments, verbatim, and the
/// destination of its output.
#[derive(Clone, Debug)]
pub struct FfmpegRequest {
    pub args: Vec<String>,
    pub output: Output,
}

/// The result of a successful transcoding invocation: the tool's
/// complete diagnostic output.
#[derive(Clone, Debug)]
pub struct FfmpegResponse {
    pub stderr: String,
}

/// One inspection invocation: the medium to inspect and which record
/// sections to request.
#[derive(Clone, Debug)]
pub struct FfprobeRequest {
    /// Path or URL of the media file.
    pub input: String,
    /// Include format information.
    pub show_format: bool,
    /// Include stream information.
    pub show_streams: bool,
}

/// The records an inspection yields: the requested sections, absent when
/// not requested.
#[derive(Clone, Debug)]
pub struct FfprobeResponse {
    pub format: Option<Format>,
    pub streams: Option<Vec<Stream>>,
}

/// Container-level record of an inspected medium.
#[derive(Clone, Debug)]
pub struct Format {
    pub filename: String,
    pub nb_streams: i32,
    pub nb_programs: i32,
    pub format_name: String,
    pub format_long_name: String,
    pub start_time: Option<String>,
    pub duration: Option<String>,
    pub size: Option<String>,
    pub bit_rate: Option<String>,
    pub probe_score: Option<i32>,
    pub tags: HashMap<String, String>,
}

/// Per-stream record of an inspected medium.
#[derive(Clone, Debug)]
pub struct Stream {
    pub index: i32,
    pub codec_name: Option<String>,
    pub codec_long_name: Option<String>,
    /// One of `video`, `audio`, `subtitle` or `data`.
    pub codec_type: String,
    pub codec_tag_string: Option<String>,
    pub codec_tag: Option<String>,
    pub width: Option<i32>,
    pub height: Option<i32>,
    pub coded_width: Option<i32>,
    pub coded_height: Option<i32>,
    pub r_frame_rate: Option<String>,
    pub avg_frame_rate: Option<String>,
    pub pix_fmt: Option<String>,
    pub level: Option<i32>,
    pub color_range: Option<String>,
    pub color_space: Option<String>,
    pub sample_fmt: Option<String>,
    pub sample_rate: Option<String>,
    pub channels: Option<i32>,
    pub channel_layout: Option<String>,
    pub bits_per_sample: Option<i32>,
    pub time_base: Option<String>,
    pub start_pts: Option<i64>,
    pub start_time: Option<String>,
    pub duration_ts: Option<i64>,
    pub duration: Option<String>,
    pub bit_rate: Option<String>,
    pub nb_frames: Option<String>,
    pub disposition: Option<Disposition>,
    pub tags: HashMap<String, String>,
}

/// A canonical transcoding request, shown to callers as documentation:
/// scale the input to 720 pixels of height and deliver the produced file
/// to the root of a bucket.
pub fn example_ffmpeg_request() -> (r: FfmpegRequest)
    ensures
        r.args@.len() == 5,
        r.args@[0]@ == "-i"@,
        r.args@[1]@ == "input.mp4"@,
        r.args@[2]@ == "-vf"@,
        r.args@[3]@ == "scale=-1:720"@,
        r.args@[4]@ == "output.mp4"@,
        r.output.location.scheme@ == "s3"@,
        r.output.location.authority@ == "bucket"@,
        r.output.location.path@.len() == 0,
{
    let mut args: Vec<String> = Vec::new();
    args.push("-i".to_owned());
    args.push("input.mp4".to_owned());
    args.push("-vf".to_owned());
    args.push("scale=-1:720".to_owned());
    args.push("output.mp4".to_owned());
    FfmpegRequest {
        args,
        output: Output {
            location: Descriptor {
                scheme: "s3".to_owned(),
                authority: "bucket".to_owned(),
                path: String::new(),
            },
        },
    }
}

/// A canonical transcoding response: an empty diagnostic text.
pub fn example_ffmpeg_response() -> (r: FfmpegResponse)
    ensures
        r.stderr@.len() == 0,
{
    FfmpegResponse { stderr: String::new() }
}

/// A canonical inspection request: both record sections of a publicly
/// hosted movie.
pub fn example_ffprobe_request() -> (r: FfprobeRequest)
    ensures
        r.input@
            == "https://download.blender.org/peach/bigbuckbunny_movies/big_buck_bunny_1080p_h264.mov"@,
        r.show_format,
        r.show_streams,
{
    FfprobeRequest {
        input: "https://download.blender.org/peach/bigbuckbunny_movies/big_buck_bunny_1080p_h264.mov".to_owned(),
        show_format: true,
        show_streams: true,
    }
}

/// A canonical inspection response: no sections.
pub fn example_ffprobe_response() -> (r: FfprobeResponse)
    ensures
        r.format is None,
        r.streams is None,
{
    FfprobeResponse { format: None, streams: None }
}

/// Disposition flags of one stream, as the inspection tool reports them.
#[derive(Clone, Debug)]
pub struct Disposition {
    pub default: i32,
    pub dub: i32,
    pub original: i32,
    pub comment: i32,
    pub lyrics: i32,
    pub karaoke: i32,
    pub forced: i32,
    pub hearing_impaired: i32,
    pub visual_impaired: i32,
    pub clean_effects: i32,
    pub attached_pic: i32,
}

} // verus!
