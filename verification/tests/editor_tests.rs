use dnclip::editor::{Button, EditorState, ExportStep, PlanError, ShortcutKey, UserCommand};
use dnclip::mpv::MpvCommand;
use dnclip::types::{DnxProfile, Segment, VideoInfo};

fn loaded(path: &str, duration: i64) -> EditorState {
    let mut s = EditorState::new();
    s.begin_open();
    s.file_loaded(path, Some(VideoInfo { width: 1279, height: 720, fps_milli: 23976, duration }));
    s
}

#[test]
fn new_session() {
    let s = EditorState::new();
    assert!(s.paused);
    assert!(!s.player_ready);
    assert_eq!(s.current_time, 0);
    assert!(s.segments.is_empty());
    assert_eq!(s.export_status, "");
    assert!(!s.can_export());
}

#[test]
fn shortcuts_need_a_loaded_video() {
    let mut s = EditorState::new();
    s.current_time = 1000;
    assert_eq!(s.handle_key(ShortcutKey::Space, false), UserCommand::Nothing);
    assert_eq!(s.handle_key(ShortcutKey::I, false), UserCommand::Nothing);
    assert_eq!(s.handle_key(ShortcutKey::Enter, false), UserCommand::Nothing);
    assert!(s.project.in_point.is_none());
    assert_eq!(s.handle_key(ShortcutKey::O, true), UserCommand::OpenDialog);
    assert_eq!(s.handle_key(ShortcutKey::H, false), UserCommand::Nothing);
    assert!(s.show_help);
    assert_eq!(s.handle_key(ShortcutKey::D, true), UserCommand::Nothing);
    assert!(s.debug_hover);
    assert_eq!(s.handle_key(ShortcutKey::D, false), UserCommand::Nothing);
    assert!(s.debug_hover);
}

#[test]
fn shortcuts_with_loaded_video() {
    let mut s = loaded("/v/a.mp4", 60_000);
    s.current_time = 1500;
    assert_eq!(s.handle_key(ShortcutKey::Space, false), UserCommand::TogglePause);
    assert!(s.paused);
    assert_eq!(s.handle_key(ShortcutKey::I, false), UserCommand::Nothing);
    assert_eq!(s.project.in_point, Some(1500));
    s.current_time = 9000;
    assert_eq!(s.handle_key(ShortcutKey::O, false), UserCommand::Nothing);
    assert_eq!(s.project.out_point, Some(9000));
    assert_eq!(s.handle_key(ShortcutKey::ArrowLeft, false), UserCommand::SeekRelative(-5000));
    assert_eq!(s.handle_key(ShortcutKey::ArrowRight, false), UserCommand::SeekRelative(5000));
    assert_eq!(s.handle_key(ShortcutKey::ArrowUp, false), UserCommand::FrameStep(true));
    assert_eq!(s.handle_key(ShortcutKey::ArrowDown, false), UserCommand::FrameStep(false));
    assert_eq!(s.handle_key(ShortcutKey::Enter, false), UserCommand::Export);
    assert_eq!(s.handle_key(ShortcutKey::Other, false), UserCommand::Nothing);
    assert_eq!(s.handle_key(ShortcutKey::O, true), UserCommand::OpenDialog);
    assert_eq!(s.project.out_point, Some(9000));
}

#[test]
fn user_commands_to_mpv() {
    assert!(matches!(UserCommand::TogglePause.player_command(), Some(MpvCommand::CyclePause)));
    assert!(matches!(
        UserCommand::SeekRelative(-30000).player_command(),
        Some(MpvCommand::Seek { ms: -30000, relative: true })
    ));
    assert!(matches!(
        UserCommand::FrameStep(false).player_command(),
        Some(MpvCommand::FrameStep { forward: false })
    ));
    assert!(UserCommand::Export.player_command().is_none());
    assert!(UserCommand::Nothing.player_command().is_none());
}

#[test]
fn buttons() {
    let mut s = loaded("/v/a.mp4", 60_000);
    assert_eq!(s.press(Button::Back30), UserCommand::SeekRelative(-30000));
    assert_eq!(s.press(Button::Back5), UserCommand::SeekRelative(-5000));
    assert_eq!(s.press(Button::Forward5), UserCommand::SeekRelative(5000));
    assert_eq!(s.press(Button::Forward30), UserCommand::SeekRelative(30000));
    assert_eq!(s.press(Button::FrameBack), UserCommand::FrameStep(false));
    assert_eq!(s.press(Button::FrameForward), UserCommand::FrameStep(true));
    assert_eq!(s.press(Button::OpenFile), UserCommand::OpenDialog);
    assert!(s.paused);
    assert_eq!(s.press(Button::PlayPause), UserCommand::TogglePause);
    assert!(!s.paused);
    assert_eq!(s.press(Button::Export), UserCommand::Nothing);
    s.current_time = 2000;
    s.press(Button::MarkIn);
    assert!(s.has_marks());
    assert!(!s.have_io());
    s.current_time = 5000;
    s.press(Button::MarkOut);
    assert!(s.have_io());
    assert!(s.can_export());
    assert_eq!(s.press(Button::Export), UserCommand::Export);
    s.press(Button::ClearMarks);
    assert!(!s.has_marks());
}

#[test]
fn capture_saves_marks_as_segment() {
    let mut s = loaded("/v/a.mp4", 60_000);
    s.press(Button::CaptureIo);
    assert!(s.segments.is_empty());
    s.current_time = 2000;
    s.press(Button::MarkIn);
    s.press(Button::CaptureIo);
    assert!(s.segments.is_empty());
    s.current_time = 7000;
    s.press(Button::MarkOut);
    s.press(Button::CaptureIo);
    assert_eq!(s.segments, vec![Segment { in_point: 2000, out_point: 7000 }]);
    assert!(s.project.in_point.is_none());
    assert!(s.project.out_point.is_none());
    assert!(s.can_export());
    s.remove_segment(0);
    assert!(s.segments.is_empty());
}

#[test]
fn open_file_flow() {
    let mut s = EditorState::new();
    s.project.in_point = Some(5);
    s.begin_open();
    assert!(!s.player_ready);
    assert!(s.project.in_point.is_none());
    s.launch_failed("mpv failed to create IPC socket within timeout.");
    assert_eq!(s.export_status, "Error: mpv failed to create IPC socket within timeout.");
    s.file_loaded("/v/a.mp4", None);
    assert!(s.player_ready);
    assert!(s.paused);
    assert_eq!(s.project.source_path.as_deref(), Some("/v/a.mp4"));
    assert_eq!(s.export_status, "Loaded: /v/a.mp4");
    assert_eq!(s.total_duration(), 0);
    assert!(s.wants_embedded(true) == s.embedded_initialized);
    s.embedded_initialized = true;
    assert!(s.wants_embedded(true));
    assert!(!s.wants_embedded(false));
}

#[test]
fn labels() {
    let mut s = loaded("/v/a.mp4", 300_000);
    s.current_time = 83_456;
    assert_eq!(s.time_readout(), "00:01:23.456 / 00:05:00.000");
    assert_eq!(s.in_label(), "IN:00:00:00.000");
    assert_eq!(s.out_label(), "OUT:00:00:00.000");
    assert_eq!(s.duration_label(), None);
    s.press(Button::MarkIn);
    assert_eq!(s.duration_label(), Some("Dur:00:03:36.544".to_string()));
    s.current_time = 150_000;
    s.press(Button::MarkOut);
    assert_eq!(s.duration_label(), Some("Dur:00:01:06.544".to_string()));
    assert_eq!(s.out_label(), "OUT:00:02:30.000");
}

#[test]
fn plan_without_file() {
    let s = EditorState::new();
    assert_eq!(s.plan_export().err(), Some(PlanError::NoFile));
    let mut s = s;
    s.export_refused(PlanError::NoFile);
    assert_eq!(s.export_status, "No file loaded");
}

#[test]
fn plan_with_reversed_marks() {
    let mut s = loaded("/v/a.mp4", 60_000);
    s.project.in_point = Some(9000);
    s.project.out_point = Some(3000);
    assert_eq!(s.plan_export().err(), Some(PlanError::OutNotAfterIn));
    s.export_refused(PlanError::OutNotAfterIn);
    assert_eq!(s.export_status, "Out point must be after in point");
}

#[test]
fn plan_current_marks_with_defaults() {
    let mut s = loaded("/v/clip.mp4", 60_000);
    s.project.in_point = Some(10_000);
    let steps = s.plan_export().unwrap();
    assert_eq!(steps.len(), 1);
    match &steps[0] {
        ExportStep::Run { number, job } => {
            assert_eq!(*number, 1);
            assert_eq!(job.input_path, "/v/clip.mp4");
            assert_eq!(job.output_path, "clip_hq.mov");
            assert_eq!(job.in_point, 10_000);
            assert_eq!(job.out_point, 60_000);
            assert_eq!(job.profile, DnxProfile::DnxHR_HQ);
            assert_eq!((job.width, job.height), (1279, 720));
        }
        _ => panic!("expected a job"),
    }
}

#[test]
fn plan_without_video_info_uses_fallback_size() {
    let mut s = EditorState::new();
    s.file_loaded("/v/x.mov", None);
    s.project.out_point = Some(2000);
    s.select_profile(DnxProfile::DnxHR_LB);
    let steps = s.plan_export().unwrap();
    match &steps[0] {
        ExportStep::Run { job, .. } => {
            assert_eq!((job.width, job.height), (1920, 1080));
            assert_eq!(job.in_point, 0);
            assert_eq!(job.output_path, "x_lb.mov");
            assert_eq!(job.profile, DnxProfile::DnxHR_LB);
        }
        _ => panic!("expected a job"),
    }
}

#[test]
fn plan_saved_segments_numbered() {
    let mut s = loaded("/v/clip.mp4", 60_000);
    s.segments.push(Segment { in_point: 0, out_point: 5000 });
    s.segments.push(Segment { in_point: 6000, out_point: 6050 });
    s.segments.push(Segment { in_point: 7000, out_point: 9000 });
    s.project.in_point = Some(1);
    let steps = s.plan_export().unwrap();
    assert_eq!(steps.len(), 3);
    match &steps[0] {
        ExportStep::Run { number, job } => {
            assert_eq!(*number, 1);
            assert_eq!(job.output_path, "clip_hq_001.mov");
        }
        _ => panic!("expected a job"),
    }
    assert!(matches!(steps[1], ExportStep::TooShort { number: 2 }));
    match &steps[2] {
        ExportStep::Run { number, job } => {
            assert_eq!(*number, 3);
            assert_eq!(job.output_path, "clip_hq_003.mov");
            assert_eq!((job.in_point, job.out_point), (7000, 9000));
        }
        _ => panic!("expected a job"),
    }
}

#[test]
fn finish_export_success_clears_segments() {
    let mut s = loaded("/v/clip.mp4", 60_000);
    s.segments.push(Segment { in_point: 0, out_point: 5000 });
    s.segments.push(Segment { in_point: 7000, out_point: 9000 });
    let steps = s.plan_export().unwrap();
    s.finish_export(&steps, &vec![None, None]);
    assert!(s.segments.is_empty());
    assert_eq!(s.export_status, "\u{2705} Exported 2 segment(s)");
}

#[test]
fn finish_export_reports_errors_in_order() {
    let mut s = loaded("/v/clip.mp4", 60_000);
    s.segments.push(Segment { in_point: 0, out_point: 5000 });
    s.segments.push(Segment { in_point: 6000, out_point: 6050 });
    s.segments.push(Segment { in_point: 7000, out_point: 9000 });
    let steps = s.plan_export().unwrap();
    s.finish_export(&steps, &vec![None, None, Some("ffmpeg failed:\nboom".to_string())]);
    assert_eq!(s.segments.len(), 3);
    assert_eq!(
        s.export_status,
        "\u{274c} 2 error(s): #2: segment too short; #3: ffmpeg failed:\nboom"
    );
}

#[test]
fn batch_outputs_are_distinct() {
    let mut s = loaded("/v/clip.mp4", 600_000);
    for k in 0..12 {
        s.segments.push(Segment { in_point: k * 10_000, out_point: k * 10_000 + 5000 });
    }
    let steps = s.plan_export().unwrap();
    let outs: Vec<String> = steps
        .iter()
        .filter_map(|st| match st {
            ExportStep::Run { job, .. } => Some(job.output_path.clone()),
            _ => None,
        })
        .collect();
    assert_eq!(outs.len(), 12);
    for i in 0..outs.len() {
        for j in 0..outs.len() {
            if i != j {
                assert_ne!(outs[i], outs[j]);
            }
        }
    }
}
