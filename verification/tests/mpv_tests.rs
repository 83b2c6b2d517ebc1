use dnclip::mpv::{
    ipc_socket_path, mpv_args, paused_from_property, request_from_args, socket_timeout_message,
    MpvCommand, SocketWait, WaitStep,
};

#[test]
fn load_file_request_escapes_path() {
    let r = MpvCommand::LoadFile("/v/my \"clip\"\\1.mp4".to_string()).request().unwrap();
    assert_eq!(r, r#"{"command":["loadfile","/v/my \"clip\"\\1.mp4","replace"],"request_id":1}"#);
}

#[test]
fn request_escapes_control_characters() {
    let r = MpvCommand::GetProperty("a\nb\u{1}".to_string()).request().unwrap();
    assert_eq!(r, r#"{"command":["get_property","a\nb\u0001"],"request_id":1}"#);
}

#[test]
fn pause_requests() {
    assert_eq!(
        MpvCommand::SetPause(true).request().unwrap(),
        r#"{"command":["set","pause",true],"request_id":1}"#
    );
    assert_eq!(
        MpvCommand::SetPause(false).request().unwrap(),
        r#"{"command":["set","pause",false],"request_id":1}"#
    );
    assert_eq!(MpvCommand::CyclePause.request().unwrap(), r#"{"command":["cycle","pause"],"request_id":1}"#);
}

#[test]
fn seek_requests() {
    assert_eq!(
        MpvCommand::Seek { ms: -5000, relative: true }.request().unwrap(),
        r#"{"command":["seek",-5.0,"relative"],"request_id":1}"#
    );
    assert_eq!(
        MpvCommand::Seek { ms: 83_456, relative: false }.request().unwrap(),
        r#"{"command":["seek",83.456,"absolute"],"request_id":1}"#
    );
}

#[test]
fn frame_step_requests() {
    assert_eq!(
        MpvCommand::FrameStep { forward: true }.request().unwrap(),
        r#"{"command":["frame-step"],"request_id":1}"#
    );
    assert_eq!(
        MpvCommand::FrameStep { forward: false }.request().unwrap(),
        r#"{"command":["frame-back-step"],"request_id":1}"#
    );
}

#[test]
fn requests_are_valid_json() {
    let cmds = vec![
        MpvCommand::LoadFile("x\"y".to_string()),
        MpvCommand::Seek { ms: -30_000, relative: true },
        MpvCommand::GetProperty("time-pos".to_string()),
    ];
    for c in cmds {
        let text = c.request().unwrap();
        let v: serde_json::Value = serde_json::from_str(&text).unwrap();
        assert_eq!(v["request_id"], 1);
        assert!(v["command"].is_array());
    }
}

#[test]
fn request_from_encoded_args() {
    assert_eq!(request_from_args(&vec![]), r#"{"command":[],"request_id":1}"#);
    assert_eq!(
        request_from_args(&vec!["1".to_string(), "2".to_string()]),
        r#"{"command":[1,2],"request_id":1}"#
    );
}

#[test]
fn standalone_launch_arguments() {
    assert_eq!(
        mpv_args(ipc_socket_path(), "/v/a.mp4", None),
        vec![
            "--no-terminal",
            "--keep-open=yes",
            "--osd-level=0",
            "--osc=no",
            "--input-ipc-server=/tmp/dnclip-mpv.sock",
            "/v/a.mp4",
        ]
    );
}

#[test]
fn embedded_launch_arguments() {
    assert_eq!(
        mpv_args("/tmp/s.sock", "a.mp4", Some(0x4200007)),
        vec![
            "--no-terminal",
            "--keep-open=yes",
            "--osd-level=0",
            "--osc=no",
            "--input-ipc-server=/tmp/s.sock",
            "--wid=69206023",
            "a.mp4",
        ]
    );
}

#[test]
fn socket_wait_times_out_after_twenty_looks() {
    let mut w = SocketWait::new();
    assert_eq!(w.retries, 20);
    for _ in 0..20 {
        assert_eq!(w.poll(false, false), WaitStep::Sleep);
    }
    assert_eq!(w.retries, 0);
    assert_eq!(w.poll(true, false), WaitStep::TimedOut);
    assert_eq!(w.poll(false, true), WaitStep::TimedOut);
}

#[test]
fn socket_wait_ready_and_exited() {
    let mut w = SocketWait::new();
    assert_eq!(w.poll(false, false), WaitStep::Sleep);
    assert_eq!(w.poll(true, true), WaitStep::Ready);
    assert_eq!(w.retries, 19);
    let mut w = SocketWait::new();
    assert_eq!(w.poll(false, true), WaitStep::Exited);
    assert_eq!(w.retries, 20);
}

#[test]
fn timeout_messages() {
    assert_eq!(socket_timeout_message(false), "mpv failed to create IPC socket within timeout.");
    assert_eq!(socket_timeout_message(true), "mpv failed to create IPC socket within timeout");
}

#[test]
fn pause_property_defaults_to_paused() {
    assert!(paused_from_property(None));
    assert!(paused_from_property(Some(true)));
    assert!(!paused_from_property(Some(false)));
}

#[test]
fn seek_times_match_serde_number_text() {
    for ms in [0i64, 5000, -5000, 30_000, -30_000, 83_456, 83_450, 83_400, 1, -1, 10, 100, 123_456_789] {
        let text = dnclip::timecode::format_json_seconds(ms as i128);
        assert_eq!(text, serde_json::to_string(&(ms as f64 / 1000.0)).unwrap());
    }
}
