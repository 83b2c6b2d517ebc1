use dnclip::types::{DnxProfile, ExportParams, Project, Segment, VideoInfo};

#[test]
fn profile_labels_match_presets() {
    assert_eq!(DnxProfile::DnxHR_LB.label(), "DNxHR LB");
    assert_eq!(DnxProfile::DnxHR_SQ.label(), "DNxHR SQ");
    assert_eq!(DnxProfile::DnxHR_HQ.label(), "DNxHR HQ");
    assert_eq!(DnxProfile::DnxHR_HQX.label(), "DNxHR HQX");
}

#[test]
fn profile_ffmpeg_names_match_presets() {
    assert_eq!(DnxProfile::DnxHR_LB.ffmpeg_profile(), "dnxhr_lb");
    assert_eq!(DnxProfile::DnxHR_SQ.ffmpeg_profile(), "dnxhr_sq");
    assert_eq!(DnxProfile::DnxHR_HQ.ffmpeg_profile(), "dnxhr_hq");
    assert_eq!(DnxProfile::DnxHR_HQX.ffmpeg_profile(), "dnxhr_hqx");
}

#[test]
fn file_tag_is_profile_name_without_prefix() {
    for p in DnxProfile::all() {
        assert_eq!(p.file_tag(), p.ffmpeg_profile().replace("dnxhr_", ""));
    }
    assert_eq!(DnxProfile::DnxHR_HQX.file_tag(), "hqx");
}

#[test]
fn all_profiles_in_selector_order() {
    assert_eq!(
        DnxProfile::all(),
        vec![DnxProfile::DnxHR_LB, DnxProfile::DnxHR_SQ, DnxProfile::DnxHR_HQ, DnxProfile::DnxHR_HQX]
    );
}

#[test]
fn default_export_params_use_hq() {
    let p = ExportParams::default();
    assert_eq!(p.profile, DnxProfile::DnxHR_HQ);
    assert!(p.output_path.is_none());
    assert!(p.keep_resolution);
}

#[test]
fn default_project_is_empty() {
    let p = Project::default();
    assert!(p.source_path.is_none());
    assert!(p.video_info.is_none());
    assert!(p.in_point.is_none());
    assert!(p.out_point.is_none());
    assert_eq!(p.export_params.profile, DnxProfile::DnxHR_HQ);
}

fn info(duration: i64) -> VideoInfo {
    VideoInfo { width: 1920, height: 1080, fps_milli: 25000, duration }
}

#[test]
fn segment_duration_with_both_marks() {
    let mut p = Project::default();
    p.in_point = Some(1500);
    p.out_point = Some(4000);
    assert_eq!(p.segment_duration(), Some(2500));
}

#[test]
fn segment_duration_in_only_reaches_end() {
    let mut p = Project::default();
    p.in_point = Some(1500);
    assert_eq!(p.segment_duration(), None);
    p.video_info = Some(info(10_000));
    assert_eq!(p.segment_duration(), Some(8500));
}

#[test]
fn segment_duration_out_only_counts_from_start() {
    let mut p = Project::default();
    p.out_point = Some(7000);
    assert_eq!(p.segment_duration(), Some(7000));
}

#[test]
fn segment_duration_without_marks() {
    let mut p = Project::default();
    p.video_info = Some(info(10_000));
    assert_eq!(p.segment_duration(), None);
}

#[test]
fn segment_duration_can_be_negative() {
    let s = Segment { in_point: 5000, out_point: 2000 };
    assert_eq!(s.duration(), -3000);
    let s = Segment { in_point: 1000, out_point: 61_000 };
    assert_eq!(s.duration(), 60_000);
}

#[test]
fn segment_span_text() {
    let s = Segment { in_point: 1000, out_point: 61_500 };
    assert_eq!(s.span_text(), "00:00:01.000 \u{2192} 00:01:01.500");
}

#[test]
fn duration_does_not_overflow_at_extremes() {
    let s = Segment { in_point: i64::MIN, out_point: i64::MAX };
    assert_eq!(s.duration(), i64::MAX as i128 - i64::MIN as i128);
}

#[test]
fn profiles_have_distinct_names_and_labels() {
    let all = DnxProfile::all();
    for a in &all {
        for b in &all {
            if a != b {
                assert_ne!(a.ffmpeg_profile(), b.ffmpeg_profile());
                assert_ne!(a.label(), b.label());
            }
        }
    }
}

#[test]
fn ffmpeg_name_is_lower_cased_label() {
    for p in DnxProfile::all() {
        assert_eq!(p.ffmpeg_profile(), p.label().to_lowercase().replace(' ', "_"));
        assert!(p.ffmpeg_profile().starts_with("dnxhr_"));
    }
}

#[test]
fn video_info_needs_duration() {
    assert!(dnclip::types::video_info_from(None, Some(25000), Some((1920, 1080))).is_none());
    let v = dnclip::types::video_info_from(Some(60_000), None, None).unwrap();
    assert_eq!((v.width, v.height, v.fps_milli, v.duration), (0, 0, 0, 60_000));
    let v = dnclip::types::video_info_from(Some(1), Some(23976), Some((1280, 720))).unwrap();
    assert_eq!((v.width, v.height, v.fps_milli, v.duration), (1280, 720, 23976, 1));
}
