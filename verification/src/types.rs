//! The data model: encoding profiles, export parameters, the project and its
//! saved segments. Times are whole milliseconds.

use vstd::prelude::*;
use crate::timecode::{format_time, timecode};

verus! {

/// DNxHD/DNxHR encoding profile presets.
#[allow(non_camel_case_types)]
#[derive(Debug, Clone, Copy, PartialEq, Eq, Structural)]
pub enum DnxProfile {
    /// 36 Mbps at 1080p.
    DnxHR_LB,
    /// 60 Mbps at 1080p.
    DnxHR_SQ,
    /// 110 Mbps at 1080p (the default).
    DnxHR_HQ,
    /// 175 Mbps at 1080p.
    DnxHR_HQX,
}

/// The name shown to the user for a profile.
pub open spec fn profile_label(p: DnxProfile) -> Seq<char> {
    match p {
        DnxProfile::DnxHR_LB => "DNxHR LB"@,
        DnxProfile::DnxHR_SQ => "DNxHR SQ"@,
        DnxProfile::DnxHR_HQ => "DNxHR HQ"@,
        DnxProfile::DnxHR_HQX => "DNxHR HQX"@,
    }
}

/// The value ffmpeg takes for `-profile:v`.
pub open spec fn profile_name(p: DnxProfile) -> Seq<char> {
    match p {
        DnxProfile::DnxHR_LB => "dnxhr_lb"@,
        DnxProfile::DnxHR_SQ => "dnxhr_sq"@,
        DnxProfile::DnxHR_HQ => "dnxhr_hq"@,
        DnxProfile::DnxHR_HQX => "dnxhr_hqx"@,
    }
}

/// The short tag used in output file names: the ffmpeg name without `dnxhr_`.
pub open spec fn profile_tag(p: DnxProfile) -> Seq<char> {
    match p {
        DnxProfile::DnxHR_LB => "lb"@,
        DnxProfile::DnxHR_SQ => "sq"@,
        DnxProfile::DnxHR_HQ => "hq"@,
        DnxProfile::DnxHR_HQX => "hqx"@,
    }
}

/// Every ffmpeg profile name is `dnxhr_` followed by the profile's tag, and
/// the tag holds no further `dnxhr_`: removing `dnxhr_` from the name leaves
/// exactly the tag.
pub proof fn lemma_profile_name_is_prefixed_tag(p: DnxProfile)
    ensures
        profile_name(p) == "dnxhr_"@ + profile_tag(p),
        profile_tag(p).len() < "dnxhr_"@.len(),
{
    reveal_strlit("dnxhr_");
    reveal_strlit("dnxhr_lb");
    reveal_strlit("dnxhr_sq");
    reveal_strlit("dnxhr_hq");
    reveal_strlit("dnxhr_hqx");
    reveal_strlit("lb");
    reveal_strlit("sq");
    reveal_strlit("hq");
    reveal_strlit("hqx");
    assert(profile_name(p) =~= "dnxhr_"@ + profile_tag(p));
}

/// A label character as it stands in a file or profile name: ASCII capitals
/// in lower case, a space as an underscore, everything else unchanged.
pub open spec fn name_char(c: char) -> char {
    if c == 'A' {
        'a'
    } else if c == 'B' {
        'b'
    } else if c == 'C' {
        'c'
    } else if c == 'D' {
        'd'
    } else if c == 'E' {
        'e'
    } else if c == 'F' {
        'f'
    } else if c == 'G' {
        'g'
    } else if c == 'H' {
        'h'
    } else if c == 'I' {
        'i'
    } else if c == 'J' {
        'j'
    } else if c == 'K' {
        'k'
    } else if c == 'L' {
        'l'
    } else if c == 'M' {
        'm'
    } else if c == 'N' {
        'n'
    } else if c == 'O' {
        'o'
    } else if c == 'P' {
        'p'
    } else if c == 'Q' {
        'q'
    } else if c == 'R' {
        'r'
    } else if c == 'S' {
        's'
    } else if c == 'T' {
        't'
    } else if c == 'U' {
        'u'
    } else if c == 'V' {
        'v'
    } else if c == 'W' {
        'w'
    } else if c == 'X' {
        'x'
    } else if c == 'Y' {
        'y'
    } else if c == 'Z' {
        'z'
    } else if c == ' ' {
        '_'
    } else {
        c
    }
}

/// Each ffmpeg profile name is the profile's label in lower case with its
/// space replaced by an underscore.
pub proof fn lemma_profile_name_from_label(p: DnxProfile)
    ensures
        profile_name(p) == profile_label(p).map_values(|c: char| name_char(c)),
{
    reveal_strlit("dnxhr_lb");
    reveal_strlit("dnxhr_sq");
    reveal_strlit("dnxhr_hq");
    reveal_strlit("dnxhr_hqx");
    reveal_strlit("DNxHR LB");
    reveal_strlit("DNxHR SQ");
    reveal_strlit("DNxHR HQ");
    reveal_strlit("DNxHR HQX");
    assert(profile_name(p) =~= profile_label(p).map_values(|c: char| name_char(c)));
}

/// Distinct profiles have distinct ffmpeg names and distinct labels.
pub proof fn lemma_profile_names_distinct(p: DnxProfile, q: DnxProfile)
    requires
        p != q,
    ensures
        profile_name(p) != profile_name(q),
        profile_label(p) != profile_label(q),
{
    reveal_strlit("dnxhr_lb");
    reveal_strlit("dnxhr_sq");
    reveal_strlit("dnxhr_hq");
    reveal_strlit("dnxhr_hqx");
    reveal_strlit("DNxHR LB");
    reveal_strlit("DNxHR SQ");
    reveal_strlit("DNxHR HQ");
    reveal_strlit("DNxHR HQX");
    assert(profile_name(p).len() != profile_name(q).len() || profile_name(p)[6] != profile_name(
        q,
    )[6] || profile_name(p)[7] != profile_name(q)[7]);
    assert(profile_label(p).len() != profile_label(q).len() || profile_label(p)[6] != profile_label(
        q,
    )[6] || profile_label(p)[7] != profile_label(q)[7]);
}

impl DnxProfile {
    /// The name shown to the user.
    pub fn label(&self) -> (s: &'static str)
        ensures
            s@ == profile_label(*self),
    {
        match self {
            DnxProfile::DnxHR_LB => "DNxHR LB",
            DnxProfile::DnxHR_SQ => "DNxHR SQ",
            DnxProfile::DnxHR_HQ => "DNxHR HQ",
            DnxProfile::DnxHR_HQX => "DNxHR HQX",
        }
    }

    /// The profile name passed to ffmpeg.
    pub fn ffmpeg_profile(&self) -> (s: &'static str)
        ensures
            s@ == profile_name(*self),
    {
        match self {
            DnxProfile::DnxHR_LB => "dnxhr_lb",
            DnxProfile::DnxHR_SQ => "dnxhr_sq",
            DnxProfile::DnxHR_HQ => "dnxhr_hq",
            DnxProfile::DnxHR_HQX => "dnxhr_hqx",
        }
    }

    /// The ffmpeg profile name with `dnxhr_` removed, used in file names.
    pub fn file_tag(&self) -> (s: &'static str)
        ensures
            s@ == profile_tag(*self),
            profile_name(*self) == "dnxhr_"@ + s@,
    {
        proof {
            lemma_profile_name_is_prefixed_tag(*self);
        }
        match self {
            DnxProfile::DnxHR_LB => "lb",
            DnxProfile::DnxHR_SQ => "sq",
            DnxProfile::DnxHR_HQ => "hq",
            DnxProfile::DnxHR_HQX => "hqx",
        }
    }

    /// All profiles, in the order the profile selector lists them.
    pub fn all() -> (v: Vec<DnxProfile>)
        ensures
            v@ == seq![
                DnxProfile::DnxHR_LB,
                DnxProfile::DnxHR_SQ,
                DnxProfile::DnxHR_HQ,
                DnxProfile::DnxHR_HQX,
            ],
    {
        vec![DnxProfile::DnxHR_LB, DnxProfile::DnxHR_SQ, DnxProfile::DnxHR_HQ, DnxProfile::DnxHR_HQX]
    }
}

/// Parameters for DNxHD/DNxHR export.
#[derive(Debug, Clone)]
pub struct ExportParams {
    pub profile: DnxProfile,
    pub output_path: Option<String>,
    pub keep_resolution: bool,
}

impl Default for ExportParams {
    fn default() -> (p: Self)
        ensures
            p.profile == DnxProfile::DnxHR_HQ,
            p.output_path is None,
            p.keep_resolution,
    {
        ExportParams { profile: DnxProfile::DnxHR_HQ, output_path: None, keep_resolution: true }
    }
}

/// Information about the loaded video file.
#[derive(Debug, Clone)]
pub struct VideoInfo {
    pub width: u32,
    pub height: u32,
    /// Frames per thousand seconds.
    pub fps_milli: u64,
    /// Length of the file in milliseconds.
    pub duration: i64,
}

/// What is known of a loaded file: nothing without its length; with it, the
/// frame rate falls back to 0 and the frame size to 0x0 when mpv did not
/// report them.
pub fn video_info_from(duration: Option<i64>, fps_milli: Option<u64>, size: Option<(u32, u32)>) -> (v:
    Option<VideoInfo>)
    ensures
        duration is None ==> v is None,
        duration matches Some(d) ==> v == Some(
            VideoInfo {
                width: match size {
                    Some(wh) => wh.0,
                    None => 0,
                },
                height: match size {
                    Some(wh) => wh.1,
                    None => 0,
                },
                fps_milli: match fps_milli {
                    Some(f) => f,
                    None => 0,
                },
                duration: d,
            },
        ),
{
    match duration {
        None => None,
        Some(d) => {
            let (width, height) = match size {
                Some(wh) => wh,
                None => (0, 0),
            };
            let fps = match fps_milli {
                Some(f) => f,
                None => 0,
            };
            Some(VideoInfo { width, height, fps_milli: fps, duration: d })
        },
    }
}

/// The main project state.
#[derive(Debug, Clone)]
pub struct Project {
    pub source_path: Option<String>,
    pub video_info: Option<VideoInfo>,
    pub in_point: Option<i64>,
    pub out_point: Option<i64>,
    pub export_params: ExportParams,
}

/// The length of the selection: both marks give their difference; an IN mark
/// alone reaches to the end of the video when its length is known; an OUT
/// mark alone counts from the start.
pub open spec fn selection_duration(
    in_point: Option<i64>,
    out_point: Option<i64>,
    video_info: Option<VideoInfo>,
) -> Option<int> {
    match (in_point, out_point, video_info) {
        (Some(i), Some(o), _) => Some(o - i),
        (Some(i), None, Some(info)) => Some(info.duration - i),
        (None, Some(o), _) => Some(o as int),
        _ => None,
    }
}

impl Default for Project {
    fn default() -> (p: Self)
        ensures
            p.source_path is None,
            p.video_info is None,
            p.in_point is None,
            p.out_point is None,
            p.export_params.profile == DnxProfile::DnxHR_HQ,
            p.export_params.output_path is None,
            p.export_params.keep_resolution,
    {
        Project {
            source_path: None,
            video_info: None,
            in_point: None,
            out_point: None,
            export_params: ExportParams::default(),
        }
    }
}

impl Project {
    /// Duration of the selected segment in milliseconds.
    pub fn segment_duration(&self) -> (d: Option<i128>)
        ensures
            d matches Some(x) ==> selection_duration(self.in_point, self.out_point, self.video_info)
                == Some(x as int),
            d is None <==> selection_duration(self.in_point, self.out_point, self.video_info) is None,
    {
        match (self.in_point, self.out_point, &self.video_info) {
            (Some(i), Some(o), _) => Some(o as i128 - i as i128),
            (Some(i), None, Some(info)) => Some(info.duration as i128 - i as i128),
            (None, Some(o), _) => Some(o as i128),
            _ => None,
        }
    }
}

/// A saved export segment with defined in/out points, in milliseconds.
#[derive(Debug, Clone, Copy, PartialEq, Eq, Structural)]
pub struct Segment {
    pub in_point: i64,
    pub out_point: i64,
}

impl Segment {
    /// Length of the segment in milliseconds (negative when OUT precedes IN).
    pub fn duration(&self) -> (d: i128)
        ensures
            d == self.out_point - self.in_point,
    {
        self.out_point as i128 - self.in_point as i128
    }

    /// `IN → OUT` as the segment list shows it.
    pub fn span_text(&self) -> (s: String)
        ensures
            s@ == timecode(self.in_point as int) + " \u{2192} "@ + timecode(self.out_point as int),
    {
        let mut s = format_time(self.in_point as i128);
        s.append(" \u{2192} ");
        let o = format_time(self.out_point as i128);
        s.append(o.as_str());
        s
    }
}

} // verus!
