use dnclip::export::{even_dimension, ExportError, ExportJob};
use dnclip::paths::{
    default_output_path, first_video_path, is_video_extension, is_video_path, numbered_output_path,
    output_name_from_stem, video_extensions,
};
use dnclip::types::DnxProfile;

fn job(in_point: i64, out_point: i64, width: u32, height: u32) -> ExportJob {
    ExportJob {
        input_path: "/videos/in put.mp4".to_string(),
        output_path: "in put_hq.mov".to_string(),
        in_point,
        out_point,
        profile: DnxProfile::DnxHR_HQ,
        width,
        height,
    }
}

#[test]
fn ffmpeg_arguments_for_segment() {
    let args = job(83_456, 150_000, 1920, 1080).ffmpeg_args().unwrap();
    let expected: Vec<String> = [
        "-ss", "83.456", "-i", "/videos/in put.mp4", "-t", "66.544", "-c:v", "dnxhd", "-profile:v",
        "dnxhr_hq", "-pix_fmt", "yuv422p", "-vf", "scale=1920:1080:flags=lanczos,setsar=1", "-c:a",
        "pcm_s16le", "-y", "in put_hq.mov",
    ]
    .iter()
    .map(|s| s.to_string())
    .collect();
    assert_eq!(args, expected);
}

#[test]
fn ffmpeg_arguments_round_odd_sizes_up() {
    let args = job(0, 1000, 1279, 719).ffmpeg_args().unwrap();
    assert_eq!(args[13], "scale=1280:720:flags=lanczos,setsar=1");
    assert_eq!(args[1], "0.000");
    assert_eq!(args[5], "1.000");
}

#[test]
fn ffmpeg_arguments_profile_lb() {
    let mut j = job(0, 1000, 2, 2);
    j.profile = DnxProfile::DnxHR_LB;
    assert_eq!(j.ffmpeg_args().unwrap()[9], "dnxhr_lb");
}

#[test]
fn export_refuses_empty_or_reversed_segment() {
    assert_eq!(job(5000, 5000, 1920, 1080).ffmpeg_args(), Err(ExportError::InvalidSegment));
    assert_eq!(job(5000, 4000, 1920, 1080).ffmpeg_args(), Err(ExportError::InvalidSegment));
    assert_eq!(
        ExportError::InvalidSegment.message(),
        "Invalid segment: out point must be after in point"
    );
}

#[test]
fn even_dimensions() {
    assert_eq!(even_dimension(0), 0);
    assert_eq!(even_dimension(1), 2);
    assert_eq!(even_dimension(1080), 1080);
    assert_eq!(even_dimension(u32::MAX - 1), u32::MAX - 1);
}

#[test]
fn job_duration() {
    assert_eq!(job(1000, 3500, 2, 2).duration(), 2500);
}

#[test]
fn default_output_path_uses_stem_and_tag() {
    assert_eq!(default_output_path("/videos/clip.mp4", &DnxProfile::DnxHR_HQ), "clip_hq.mov");
    assert_eq!(default_output_path("holiday.final.mkv", &DnxProfile::DnxHR_SQ), "holiday.final_sq.mov");
    assert_eq!(default_output_path("/videos/noext", &DnxProfile::DnxHR_HQX), "noext_hqx.mov");
}

#[test]
fn default_output_path_without_file_name() {
    assert_eq!(default_output_path("/", &DnxProfile::DnxHR_LB), "output_lb.mov");
    assert_eq!(default_output_path("", &DnxProfile::DnxHR_LB), "output_lb.mov");
    assert_eq!(default_output_path("/videos/..", &DnxProfile::DnxHR_HQ), "output_hq.mov");
}

#[test]
fn numbered_output_paths() {
    assert_eq!(numbered_output_path("/v/clip.mp4", &DnxProfile::DnxHR_HQ, 1), "clip_hq_001.mov");
    assert_eq!(numbered_output_path("/v/clip.mp4", &DnxProfile::DnxHR_HQ, 12), "clip_hq_012.mov");
    assert_eq!(numbered_output_path("/v/clip.mp4", &DnxProfile::DnxHR_HQ, 1234), "clip_hq_1234.mov");
}

#[test]
fn numbered_output_paths_are_distinct() {
    let names: Vec<String> =
        (1..=50).map(|n| numbered_output_path("/v/clip.mp4", &DnxProfile::DnxHR_SQ, n)).collect();
    for i in 0..names.len() {
        for j in 0..names.len() {
            if i != j {
                assert_ne!(names[i], names[j]);
            }
        }
    }
}

#[test]
fn output_name_from_given_stem() {
    assert_eq!(output_name_from_stem(Some("a".to_string()), &DnxProfile::DnxHR_HQ, None), "a_hq.mov");
    assert_eq!(output_name_from_stem(None, &DnxProfile::DnxHR_HQ, Some(3)), "output_hq_003.mov");
}

#[test]
fn video_extension_list() {
    assert_eq!(
        video_extensions(),
        vec!["mp4", "mov", "mkv", "avi", "webm", "mts", "m2ts", "ts", "flv", "wmv"]
    );
    assert!(is_video_extension("m2ts"));
    assert!(!is_video_extension("MP4"));
    assert!(!is_video_extension("txt"));
}

#[test]
fn dropped_paths_are_matched_case_insensitively() {
    assert!(is_video_path("/a/b/Clip.MKV"));
    assert!(is_video_path("movie.mp4"));
    assert!(!is_video_path("/a/b/notes.txt"));
    assert!(!is_video_path("/a/b/mp4"));
    assert!(!is_video_path("/a/b/.mp4"));
}

#[test]
fn first_dropped_video_wins() {
    let files = vec![
        None,
        Some("/a/readme.md".to_string()),
        Some("/a/one.MOV".to_string()),
        Some("/a/two.mp4".to_string()),
    ];
    assert_eq!(first_video_path(&files), Some(2));
    let none = vec![None, Some("/a/readme.md".to_string())];
    assert_eq!(first_video_path(&none), None);
    assert_eq!(first_video_path(&Vec::new()), None);
}

#[test]
fn profiles_give_distinct_output_names() {
    let all = DnxProfile::all();
    for a in &all {
        for b in &all {
            if a != b {
                assert_ne!(default_output_path("/v/clip.mp4", a), default_output_path("/v/clip.mp4", b));
                assert_ne!(numbered_output_path("/v/clip.mp4", a, 4), numbered_output_path("/v/clip.mp4", b, 4));
            }
        }
    }
}
