//! The ffmpeg command line that exports one segment as DNxHR.

use vstd::prelude::*;
use crate::decimal::{decimal, digits_value, lemma_decimal_value};
use crate::decimal::decimal_string;
use crate::text::views;
use crate::timecode::{format_seconds, lemma_seconds_round_trip, read_seconds, seconds_text};
use crate::types::{profile_name, DnxProfile};

verus! {

/// An export of one segment of `input_path` into `output_path`. Times are
/// whole milliseconds.
#[derive(Debug, Clone)]
pub struct ExportJob {
    pub input_path: String,
    pub output_path: String,
    pub in_point: i64,
    pub out_point: i64,
    pub profile: DnxProfile,
    pub width: u32,
    pub height: u32,
}

/// Why an export job cannot run.
#[derive(Debug, Clone, Copy, PartialEq, Eq, Structural)]
pub enum ExportError {
    /// The OUT point is not after the IN point.
    InvalidSegment,
}

impl ExportError {
    /// The message shown for the error.
    pub fn message(&self) -> (s: &'static str)
        ensures
            s@ == "Invalid segment: out point must be after in point"@,
    {
        "Invalid segment: out point must be after in point"
    }
}

/// DNxHD needs even frame sizes: an odd size grows by one.
pub open spec fn even_size(n: nat) -> nat {
    if n % 2 != 0 {
        n + 1
    } else {
        n
    }
}

/// Rounds a frame size up to the next even number.
pub fn even_dimension(n: u32) -> (e: u32)
    requires
        n < u32::MAX,
    ensures
        e == even_size(n as nat),
        e % 2 == 0,
        n <= e <= n + 1,
{
    if n % 2 != 0 {
        n + 1
    } else {
        n
    }
}

/// The arguments given to ffmpeg for a job: seek to the IN point, read the
/// input, take the segment's length, encode DNxHR 4:2:2 at even frame sizes
/// with Lanczos scaling and square pixels, PCM audio, overwrite the output.
pub open spec fn ffmpeg_arg_list(job: ExportJob) -> Seq<Seq<char>> {
    seq![
        "-ss"@,
        seconds_text(job.in_point as int),
        "-i"@,
        job.input_path@,
        "-t"@,
        seconds_text(job.out_point - job.in_point),
        "-c:v"@,
        "dnxhd"@,
        "-profile:v"@,
        profile_name(job.profile),
        "-pix_fmt"@,
        "yuv422p"@,
        "-vf"@,
        "scale="@ + decimal(even_size(job.width as nat)) + ":"@ + decimal(even_size(job.height as nat))
            + ":flags=lanczos,setsar=1"@,
        "-c:a"@,
        "pcm_s16le"@,
        "-y"@,
        job.output_path@,
    ]
}

impl ExportJob {
    /// The length of the segment in milliseconds.
    pub fn duration(&self) -> (d: i128)
        ensures
            d == self.out_point - self.in_point,
    {
        self.out_point as i128 - self.in_point as i128
    }

    /// Builds the ffmpeg arguments for the job; refused when the OUT point
    /// is not after the IN point.
    pub fn ffmpeg_args(&self) -> (r: Result<Vec<String>, ExportError>)
        requires
            self.width < u32::MAX,
            self.height < u32::MAX,
        ensures
            r is Err <==> self.out_point <= self.in_point,
            r matches Ok(v) ==> views(v@) == ffmpeg_arg_list(*self),
    {
        let duration = self.duration();
        if duration <= 0 {
            return Err(ExportError::InvalidSegment);
        }
        let width = even_dimension(self.width);
        let height = even_dimension(self.height);
        let mut v: Vec<String> = Vec::new();
        v.push(String::from_str("-ss"));
        v.push(format_seconds(self.in_point as i128));
        v.push(String::from_str("-i"));
        v.push(self.input_path.clone());
        v.push(String::from_str("-t"));
        v.push(format_seconds(duration));
        v.push(String::from_str("-c:v"));
        v.push(String::from_str("dnxhd"));
        v.push(String::from_str("-profile:v"));
        v.push(String::from_str(self.profile.ffmpeg_profile()));
        v.push(String::from_str("-pix_fmt"));
        v.push(String::from_str("yuv422p"));
        v.push(String::from_str("-vf"));
        let mut scale = String::from_str("scale=");
        let w = decimal_string(width as u128);
        scale.append(w.as_str());
        scale.append(":");
        let h = decimal_string(height as u128);
        scale.append(h.as_str());
        scale.append(":flags=lanczos,setsar=1");
        v.push(scale);
        v.push(String::from_str("-c:a"));
        v.push(String::from_str("pcm_s16le"));
        v.push(String::from_str("-y"));
        v.push(self.output_path.clone());
        proof {
            assert(views(v@) =~= ffmpeg_arg_list(*self));
        }
        Ok(v)
    }
}

/// The ffmpeg command cuts exactly the job's segment: the value after `-ss`
/// reads back as the IN point and the value after `-t` as the segment's
/// length, and the scaled frame size is even and at most one pixel larger.
pub proof fn lemma_ffmpeg_cuts_segment(job: ExportJob)
    ensures
        ffmpeg_arg_list(job)[0] == "-ss"@,
        read_seconds(ffmpeg_arg_list(job)[1]) == job.in_point,
        ffmpeg_arg_list(job)[4] == "-t"@,
        read_seconds(ffmpeg_arg_list(job)[5]) == job.out_point - job.in_point,
        even_size(job.width as nat) % 2 == 0,
        job.width <= even_size(job.width as nat) <= job.width + 1,
        even_size(job.height as nat) % 2 == 0,
        job.height <= even_size(job.height as nat) <= job.height + 1,
{
    lemma_seconds_round_trip(job.in_point as int);
    lemma_seconds_round_trip(job.out_point - job.in_point);
}

/// The characters of the scale filter argument of a job.
pub open spec fn scale_arg(job: ExportJob) -> Seq<char> {
    ffmpeg_arg_list(job)[13]
}

/// How many digits the even width takes in the scale argument.
pub open spec fn width_digits(job: ExportJob) -> int {
    decimal(even_size(job.width as nat)).len() as int
}

/// How many digits the even height takes in the scale argument.
pub open spec fn height_digits(job: ExportJob) -> int {
    decimal(even_size(job.height as nat)).len() as int
}

/// The scale filter keeps the picture's orientation: after `scale=` comes
/// the number that reads back as the even width, then `:`, then the number
/// that reads back as the even height, then `:` and the filter options.
pub proof fn lemma_scale_keeps_orientation(job: ExportJob)
    ensures
        ffmpeg_arg_list(job)[12] == "-vf"@,
        scale_arg(job).subrange(0, 6) == "scale="@,
        digits_value(scale_arg(job).subrange(6, 6 + width_digits(job))) == even_size(job.width as nat),
        scale_arg(job)[6 + width_digits(job)] == ':',
        digits_value(scale_arg(job).subrange(7 + width_digits(job), 7 + width_digits(job) + height_digits(job)))
            == even_size(job.height as nat),
        scale_arg(job)[7 + width_digits(job) + height_digits(job)] == ':',
{
    reveal_strlit("scale=");
    reveal_strlit(":");
    reveal_strlit(":flags=lanczos,setsar=1");
    let w = decimal(even_size(job.width as nat));
    let h = decimal(even_size(job.height as nat));
    let a = scale_arg(job);
    let lw = w.len() as int;
    let lh = h.len() as int;
    assert(a =~= "scale="@ + w + ":"@ + h + ":flags=lanczos,setsar=1"@);
    assert(a.subrange(0, 6) =~= "scale="@);
    assert(a.subrange(6, 6 + lw) =~= w);
    assert(a.subrange(7 + lw, 7 + lw + lh) =~= h);
    lemma_decimal_value(even_size(job.width as nat));
    lemma_decimal_value(even_size(job.height as nat));
}

} // verus!
