//! The editing session behind the window: IN/OUT marks, saved segments,
//! keyboard shortcuts and buttons, opening files, and planning and reporting
//! exports. Times are whole milliseconds.

use vstd::prelude::*;
use crate::decimal::decimal;
use crate::decimal::decimal_string;
use crate::export::ExportJob;
use crate::mpv::MpvCommand;
use crate::paths::{
    default_output_path, lemma_numbered_outputs_distinct, numbered_output_path, output_path_for,
};
use crate::text::{join, joined, views};
use crate::timecode::{format_time, timecode};
use crate::types::{DnxProfile, Project, Segment, VideoInfo};

verus! {

/// The keys that have shortcuts; every other key is `Other`.
#[derive(Debug, Clone, Copy, PartialEq, Eq, Structural)]
pub enum ShortcutKey {
    D,
    O,
    H,
    Space,
    I,
    ArrowLeft,
    ArrowRight,
    ArrowUp,
    ArrowDown,
    Enter,
    Other,
}

/// The buttons of the playback bar, the marks and the segment panel.
#[derive(Debug, Clone, Copy, PartialEq, Eq, Structural)]
pub enum Button {
    Back30,
    Back5,
    PlayPause,
    Forward5,
    Forward30,
    FrameBack,
    FrameForward,
    MarkIn,
    MarkOut,
    ClearMarks,
    CaptureIo,
    OpenFile,
    Export,
}

/// What the caller must do after a key or button.
#[derive(Debug, Clone, Copy, PartialEq, Eq, Structural)]
pub enum UserCommand {
    Nothing,
    /// Show the file dialog.
    OpenDialog,
    /// Toggle mpv's pause state.
    TogglePause,
    /// Seek mpv by this many milliseconds.
    SeekRelative(i64),
    /// Step one frame forward (`true`) or back.
    FrameStep(bool),
    /// Run the export.
    Export,
}

/// The mpv command a user command sends, if any.
pub open spec fn player_command_of(c: UserCommand) -> Option<MpvCommand> {
    match c {
        UserCommand::TogglePause => Some(MpvCommand::CyclePause),
        UserCommand::SeekRelative(ms) => Some(MpvCommand::Seek { ms, relative: true }),
        UserCommand::FrameStep(forward) => Some(MpvCommand::FrameStep { forward }),
        _ => None,
    }
}

impl UserCommand {
    /// The command to send to mpv for this user command, if any.
    pub fn player_command(&self) -> (c: Option<MpvCommand>)
        ensures
            c == player_command_of(*self),
    {
        match self {
            UserCommand::TogglePause => Some(MpvCommand::CyclePause),
            UserCommand::SeekRelative(ms) => Some(MpvCommand::Seek { ms: *ms, relative: true }),
            UserCommand::FrameStep(forward) => Some(MpvCommand::FrameStep { forward: *forward }),
            _ => None,
        }
    }
}

/// One entry of an export run, numbered from 1.
#[derive(Debug, Clone)]
pub enum ExportStep {
    /// The segment is shorter than a tenth of a second and is not exported.
    TooShort { number: usize },
    /// Run this job.
    Run { number: usize, job: ExportJob },
}

/// Why an export cannot start.
#[derive(Debug, Clone, Copy, PartialEq, Eq, Structural)]
pub enum PlanError {
    /// No video is loaded.
    NoFile,
    /// With no saved segments, the current OUT point is not after the IN point.
    OutNotAfterIn,
}

impl PlanError {
    /// The status line shown for the error.
    pub fn message(&self) -> (s: &'static str)
        ensures
            *self == PlanError::NoFile ==> s@ == "No file loaded"@,
            *self == PlanError::OutNotAfterIn ==> s@ == "Out point must be after in point"@,
    {
        match self {
            PlanError::NoFile => "No file loaded",
            PlanError::OutNotAfterIn => "Out point must be after in point",
        }
    }
}

/// The state of an editing session.
#[derive(Debug)]
pub struct EditorState {
    pub project: Project,
    pub segments: Vec<Segment>,
    pub paused: bool,
    pub current_time: i64,
    pub player_ready: bool,
    pub export_status: String,
    pub show_help: bool,
    pub embedded_initialized: bool,
    pub pending_open: Option<String>,
    pub debug_hover: bool,
}

/// Segments shorter than this many milliseconds are not exported.
pub open spec fn min_export_length() -> int {
    100
}

/// Frame size used when the video's size is unknown.
pub open spec fn fallback_size() -> (u32, u32) {
    (1920, 1080)
}

/// What a key press does: Ctrl+D toggles the debug view, Ctrl+O opens the
/// file dialog, H toggles help; the rest acts only once a video is playing:
/// Space toggles pause, I and O mark the current time, the arrows seek five
/// seconds or step a frame, Enter exports.
pub open spec fn shortcut(s: EditorState, key: ShortcutKey, ctrl: bool) -> (EditorState, UserCommand) {
    if ctrl && key == ShortcutKey::D {
        (EditorState { debug_hover: !s.debug_hover, ..s }, UserCommand::Nothing)
    } else if ctrl && key == ShortcutKey::O {
        (s, UserCommand::OpenDialog)
    } else if key == ShortcutKey::H {
        (EditorState { show_help: !s.show_help, ..s }, UserCommand::Nothing)
    } else if !s.player_ready {
        (s, UserCommand::Nothing)
    } else if key == ShortcutKey::Space {
        (s, UserCommand::TogglePause)
    } else if key == ShortcutKey::I {
        (EditorState { project: Project { in_point: Some(s.current_time), ..s.project }, ..s }, UserCommand::Nothing)
    } else if key == ShortcutKey::O {
        (EditorState { project: Project { out_point: Some(s.current_time), ..s.project }, ..s }, UserCommand::Nothing)
    } else if key == ShortcutKey::ArrowLeft {
        (s, UserCommand::SeekRelative(-5000i64))
    } else if key == ShortcutKey::ArrowRight {
        (s, UserCommand::SeekRelative(5000))
    } else if key == ShortcutKey::ArrowUp {
        (s, UserCommand::FrameStep(true))
    } else if key == ShortcutKey::ArrowDown {
        (s, UserCommand::FrameStep(false))
    } else if key == ShortcutKey::Enter {
        (s, UserCommand::Export)
    } else {
        (s, UserCommand::Nothing)
    }
}

/// Both marks are set.
pub open spec fn has_io(p: Project) -> bool {
    p.in_point is Some && p.out_point is Some
}

/// Exporting is offered when both marks are set or segments are saved.
pub open spec fn export_enabled(s: EditorState) -> bool {
    has_io(s.project) || s.segments@.len() > 0
}

/// What a button does. Seek and frame buttons only talk to mpv; the play
/// button also flips the shown pause state; the marks take the current time;
/// capturing saves both marks as a segment and clears them; export runs only
/// when it is offered.
pub open spec fn button_command(s: EditorState, b: Button) -> UserCommand {
    match b {
        Button::Back30 => UserCommand::SeekRelative(-30000i64),
        Button::Back5 => UserCommand::SeekRelative(-5000i64),
        Button::PlayPause => UserCommand::TogglePause,
        Button::Forward5 => UserCommand::SeekRelative(5000),
        Button::Forward30 => UserCommand::SeekRelative(30000),
        Button::FrameBack => UserCommand::FrameStep(false),
        Button::FrameForward => UserCommand::FrameStep(true),
        Button::OpenFile => UserCommand::OpenDialog,
        Button::Export => if export_enabled(s) {
            UserCommand::Export
        } else {
            UserCommand::Nothing
        },
        _ => UserCommand::Nothing,
    }
}

/// Everything but the project and the saved segments is the same.
pub open spec fn same_session(a: EditorState, b: EditorState) -> bool {
    &&& a.paused == b.paused
    &&& a.current_time == b.current_time
    &&& a.player_ready == b.player_ready
    &&& a.export_status == b.export_status
    &&& a.show_help == b.show_help
    &&& a.embedded_initialized == b.embedded_initialized
    &&& a.pending_open == b.pending_open
    &&& a.debug_hover == b.debug_hover
}

/// Everything but the marks is the same.
pub open spec fn same_but_marks(a: EditorState, b: EditorState) -> bool {
    &&& same_session(a, b)
    &&& a.segments@ == b.segments@
    &&& a.project.source_path == b.project.source_path
    &&& a.project.video_info == b.project.video_info
    &&& a.project.export_params == b.project.export_params
}

/// The IN mark, or the start of the video.
pub open spec fn in_or_start(p: Project) -> i64 {
    match p.in_point {
        Some(i) => i,
        None => 0,
    }
}

/// The OUT mark, or the end of the video when its length is known, or 0.
pub open spec fn out_or_end(p: Project) -> i64 {
    match p.out_point {
        Some(o) => o,
        None => match p.video_info {
            Some(info) => info.duration,
            None => 0,
        },
    }
}

/// The ranges an export covers: every saved segment, or else the current
/// marks (with their defaults).
pub open spec fn export_ranges(s: EditorState) -> Seq<(i64, i64)> {
    if s.segments@.len() > 0 {
        s.segments@.map_values(|g: Segment| (g.in_point, g.out_point))
    } else {
        seq![(in_or_start(s.project), out_or_end(s.project))]
    }
}

/// The frame size exports are scaled to: the video's, or 1920x1080.
pub open spec fn export_size(p: Project) -> (u32, u32) {
    match p.video_info {
        Some(info) => (info.width, info.height),
        None => fallback_size(),
    }
}

/// The export step planned for the `i`-th of `n` ranges: too short, or a job
/// from `source` into its output file. A single export writes the default
/// output name, several are numbered.
pub open spec fn planned_step(
    step: ExportStep,
    i: int,
    n: int,
    range: (i64, i64),
    source: Seq<char>,
    profile: DnxProfile,
    size: (u32, u32),
) -> bool {
    if range.1 - range.0 < min_export_length() {
        step == ExportStep::TooShort { number: (i + 1) as usize }
    } else {
        &&& step matches ExportStep::Run { number, job }
        &&& number == i + 1
        &&& job.input_path@ == source
        &&& job.output_path@ == output_path_for(
            source,
            profile,
            if n > 1 { Some((i + 1) as nat) } else { None },
        )
        &&& job.in_point == range.0
        &&& job.out_point == range.1
        &&& job.profile == profile
        &&& job.width == size.0
        &&& job.height == size.1
    }
}

/// The error message an export step leaves: short segments always, jobs when
/// they failed with the given message.
pub open spec fn step_error(step: ExportStep, failure: Option<String>) -> Option<Seq<char>> {
    match step {
        ExportStep::TooShort { number } => Some("#"@ + decimal(number as nat) + ": segment too short"@),
        ExportStep::Run { number, job } => match failure {
            Some(e) => Some("#"@ + decimal(number as nat) + ": "@ + e@),
            None => None,
        },
    }
}

/// The failure reported for the `i`-th step; missing entries count as success.
pub open spec fn failure_at(failures: Seq<Option<String>>, i: int) -> Option<String> {
    if 0 <= i < failures.len() {
        failures[i]
    } else {
        None
    }
}

/// The error messages of an export run, in step order.
pub open spec fn export_errors(steps: Seq<ExportStep>, failures: Seq<Option<String>>) -> Seq<Seq<char>>
    decreases steps.len(),
{
    if steps.len() == 0 {
        seq![]
    } else {
        let rest = export_errors(steps.drop_last(), failures);
        match step_error(steps.last(), failure_at(failures, steps.len() - 1)) {
            Some(m) => rest.push(m),
            None => rest,
        }
    }
}

/// The status line after an export run of `total` steps.
pub open spec fn export_report(total: nat, errors: Seq<Seq<char>>) -> Seq<char> {
    if errors.len() == 0 {
        "\u{2705} Exported "@ + decimal(total) + " segment(s)"@
    } else {
        "\u{274c} "@ + decimal(errors.len()) + " error(s): "@ + joined(errors, "; "@)
    }
}

impl EditorState {
    /// A session with no file: paused, at time zero, nothing marked or saved.
    pub fn new() -> (s: EditorState)
        ensures
            s.project.source_path is None,
            s.project.video_info is None,
            s.project.in_point is None,
            s.project.out_point is None,
            s.project.export_params.profile == DnxProfile::DnxHR_HQ,
            s.project.export_params.output_path is None,
            s.project.export_params.keep_resolution,
            s.segments@.len() == 0,
            s.paused,
            s.current_time == 0,
            !s.player_ready,
            s.export_status@.len() == 0,
            !s.show_help,
            !s.embedded_initialized,
            s.pending_open is None,
            !s.debug_hover,
    {
        EditorState {
            project: Project::default(),
            segments: Vec::new(),
            paused: true,
            current_time: 0,
            player_ready: false,
            export_status: String::new(),
            show_help: false,
            embedded_initialized: false,
            pending_open: None,
            debug_hover: false,
        }
    }

    /// Applies a key press (with Ctrl held or not) and says what to do next.
    pub fn handle_key(&mut self, key: ShortcutKey, ctrl: bool) -> (c: UserCommand)
        ensures
            (*final(self), c) == shortcut(*old(self), key, ctrl),
    {
        if ctrl && key == ShortcutKey::D {
            self.debug_hover = !self.debug_hover;
            UserCommand::Nothing
        } else if ctrl && key == ShortcutKey::O {
            UserCommand::OpenDialog
        } else if key == ShortcutKey::H {
            self.show_help = !self.show_help;
            UserCommand::Nothing
        } else if !self.player_ready {
            UserCommand::Nothing
        } else if key == ShortcutKey::Space {
            UserCommand::TogglePause
        } else if key == ShortcutKey::I {
            self.project.in_point = Some(self.current_time);
            UserCommand::Nothing
        } else if key == ShortcutKey::O {
            self.project.out_point = Some(self.current_time);
            UserCommand::Nothing
        } else if key == ShortcutKey::ArrowLeft {
            UserCommand::SeekRelative(-5000i64)
        } else if key == ShortcutKey::ArrowRight {
            UserCommand::SeekRelative(5000)
        } else if key == ShortcutKey::ArrowUp {
            UserCommand::FrameStep(true)
        } else if key == ShortcutKey::ArrowDown {
            UserCommand::FrameStep(false)
        } else if key == ShortcutKey::Enter {
            UserCommand::Export
        } else {
            UserCommand::Nothing
        }
    }

    /// Whether both marks are set.
    pub fn have_io(&self) -> (b: bool)
        ensures
            b == has_io(self.project),
    {
        self.project.in_point.is_some() && self.project.out_point.is_some()
    }

    /// Whether either mark is set (the clear button is shown then).
    pub fn has_marks(&self) -> (b: bool)
        ensures
            b == (self.project.in_point is Some || self.project.out_point is Some),
    {
        self.project.in_point.is_some() || self.project.out_point.is_some()
    }

    /// Whether the export button is enabled.
    pub fn can_export(&self) -> (b: bool)
        ensures
            b == export_enabled(*self),
    {
        self.have_io() || self.segments.len() > 0
    }

    /// Applies a button press and says what to do next.
    pub fn press(&mut self, b: Button) -> (c: UserCommand)
        ensures
            c == button_command(*old(self), b),
            b == Button::PlayPause ==> final(self).paused == !old(self).paused && same_but_marks(
                EditorState { paused: old(self).paused, ..*final(self) },
                *old(self),
            ) && final(self).project == old(self).project,
            b == Button::MarkIn ==> same_but_marks(*final(self), *old(self)) && final(self).project.in_point == Some(old(self).current_time) && final(self).project.out_point
                == old(self).project.out_point,
            b == Button::MarkOut ==> same_but_marks(*final(self), *old(self)) && final(self).project.out_point == Some(old(self).current_time) && final(self).project.in_point
                == old(self).project.in_point,
            b == Button::ClearMarks ==> same_but_marks(*final(self), *old(self))
                && final(self).project.in_point is None && final(self).project.out_point is None,
            b == Button::CaptureIo && has_io(old(self).project) ==> same_session(*final(self), *old(self))
                && final(self).segments@ == old(self).segments@.push(
                Segment {
                    in_point: old(self).project.in_point.unwrap(),
                    out_point: old(self).project.out_point.unwrap(),
                },
            ) && final(self).project == (Project {
                in_point: None,
                out_point: None,
                ..old(self).project
            }),
            b == Button::CaptureIo && !has_io(old(self).project) ==> *final(self) == *old(self),
            b != Button::PlayPause && b != Button::MarkIn && b != Button::MarkOut && b
                != Button::ClearMarks && b != Button::CaptureIo ==> *final(self) == *old(self),
    {
        match b {
            Button::Back30 => UserCommand::SeekRelative(-30000i64),
            Button::Back5 => UserCommand::SeekRelative(-5000i64),
            Button::PlayPause => {
                self.paused = !self.paused;
                UserCommand::TogglePause
            },
            Button::Forward5 => UserCommand::SeekRelative(5000),
            Button::Forward30 => UserCommand::SeekRelative(30000),
            Button::FrameBack => UserCommand::FrameStep(false),
            Button::FrameForward => UserCommand::FrameStep(true),
            Button::MarkIn => {
                self.project.in_point = Some(self.current_time);
                UserCommand::Nothing
            },
            Button::MarkOut => {
                self.project.out_point = Some(self.current_time);
                UserCommand::Nothing
            },
            Button::ClearMarks => {
                self.project.in_point = None;
                self.project.out_point = None;
                UserCommand::Nothing
            },
            Button::CaptureIo => {
                match (self.project.in_point, self.project.out_point) {
                    (Some(i), Some(o)) => {
                        self.segments.push(Segment { in_point: i, out_point: o });
                        self.project.in_point = None;
                        self.project.out_point = None;
                    },
                    _ => {},
                }
                UserCommand::Nothing
            },
            Button::OpenFile => UserCommand::OpenDialog,
            Button::Export => {
                if self.can_export() {
                    UserCommand::Export
                } else {
                    UserCommand::Nothing
                }
            },
        }
    }

    /// Removes the `index`-th saved segment.
    pub fn remove_segment(&mut self, index: usize)
        requires
            index < old(self).segments@.len(),
        ensures
            final(self).segments@ == old(self).segments@.remove(index as int),
            final(self).project == old(self).project,
            same_session(*final(self), *old(self)),
    {
        self.segments.remove(index);
    }

    /// Chooses the export profile.
    pub fn select_profile(&mut self, profile: DnxProfile)
        ensures
            final(self).project == (Project {
                export_params: crate::types::ExportParams { profile, ..old(self).project.export_params },
                ..old(self).project
            }),
            final(self).segments@ == old(self).segments@,
            same_session(*final(self), *old(self)),
    {
        self.project.export_params.profile = profile;
    }

    /// The length of the loaded video, or 0 when unknown.
    pub fn total_duration(&self) -> (d: i64)
        ensures
            d == match self.project.video_info {
                Some(info) => info.duration,
                None => 0,
            },
    {
        match &self.project.video_info {
            Some(info) => info.duration,
            None => 0,
        }
    }

    /// Whether to try launching mpv inside the preview area: only once the
    /// embedding is set up and the preview area is known.
    pub fn wants_embedded(&self, has_preview: bool) -> (b: bool)
        ensures
            b == (self.embedded_initialized && has_preview),
    {
        self.embedded_initialized && has_preview
    }

    /// `current / total` below the timeline.
    pub fn time_readout(&self) -> (s: String)
        ensures
            s@ == timecode(self.current_time as int) + " / "@ + timecode(
                match self.project.video_info {
                    Some(info) => info.duration as int,
                    None => 0,
                },
            ),
    {
        let mut s = format_time(self.current_time as i128);
        s.append(" / ");
        let total = format_time(self.total_duration() as i128);
        s.append(total.as_str());
        s
    }

    /// `IN:` and the IN mark (zero when unset).
    pub fn in_label(&self) -> (s: String)
        ensures
            s@ == "IN:"@ + timecode(in_or_start(self.project) as int),
    {
        let mut s = String::from_str("IN:");
        let t = format_time(match self.project.in_point {
            Some(i) => i,
            None => 0,
        } as i128);
        s.append(t.as_str());
        s
    }

    /// `OUT:` and the OUT mark (zero when unset).
    pub fn out_label(&self) -> (s: String)
        ensures
            s@ == "OUT:"@ + timecode(
                match self.project.out_point {
                    Some(o) => o as int,
                    None => 0,
                },
            ),
    {
        let mut s = String::from_str("OUT:");
        let t = format_time(match self.project.out_point {
            Some(o) => o,
            None => 0,
        } as i128);
        s.append(t.as_str());
        s
    }

    /// `Dur:` and the selection's length, when there is one.
    pub fn duration_label(&self) -> (s: Option<String>)
        ensures
            s is None <==> crate::types::selection_duration(
                self.project.in_point,
                self.project.out_point,
                self.project.video_info,
            ) is None,
            s matches Some(t) ==> crate::types::selection_duration(
                self.project.in_point,
                self.project.out_point,
                self.project.video_info,
            ) matches Some(d) && t@ == "Dur:"@ + timecode(d),
    {
        match self.project.segment_duration() {
            Some(d) => {
                let mut s = String::from_str("Dur:");
                let t = format_time(d);
                s.append(t.as_str());
                Some(s)
            },
            None => None,
        }
    }

    /// Before a file is opened: the player is no longer ready and the project
    /// starts afresh.
    pub fn begin_open(&mut self)
        ensures
            !final(self).player_ready,
            final(self).project.source_path is None,
            final(self).project.video_info is None,
            final(self).project.in_point is None,
            final(self).project.out_point is None,
            final(self).project.export_params.profile == DnxProfile::DnxHR_HQ,
            final(self).project.export_params.output_path is None,
            final(self).project.export_params.keep_resolution,
            final(self).segments@ == old(self).segments@,
            same_session(EditorState { player_ready: old(self).player_ready, ..*final(self) }, *old(self)),
    {
        self.player_ready = false;
        self.project = Project::default();
    }

    /// mpv could not be launched: the status shows the error.
    pub fn launch_failed(&mut self, message: &str)
        ensures
            final(self).export_status@ == "Error: "@ + message@,
            final(self).project == old(self).project,
            final(self).segments@ == old(self).segments@,
            same_session(EditorState { export_status: old(self).export_status, ..*final(self) }, *old(self)),
    {
        let mut s = String::from_str("Error: ");
        s.append(message);
        self.export_status = s;
    }

    /// The file at `path` is playing; `info` is what mpv reported about it,
    /// when it could.
    pub fn file_loaded(&mut self, path: &str, info: Option<VideoInfo>)
        ensures
            final(self).project.source_path matches Some(p) && p@ == path@,
            final(self).project.video_info == info,
            final(self).project.in_point == old(self).project.in_point,
            final(self).project.out_point == old(self).project.out_point,
            final(self).project.export_params == old(self).project.export_params,
            final(self).player_ready,
            final(self).paused,
            final(self).export_status@ == "Loaded: "@ + path@,
            final(self).segments@ == old(self).segments@,
            final(self).current_time == old(self).current_time,
            final(self).show_help == old(self).show_help,
            final(self).embedded_initialized == old(self).embedded_initialized,
            final(self).pending_open == old(self).pending_open,
            final(self).debug_hover == old(self).debug_hover,
    {
        self.project.source_path = Some(String::from_str(path));
        self.project.video_info = info;
        self.player_ready = true;
        self.paused = true;
        let mut s = String::from_str("Loaded: ");
        s.append(path);
        self.export_status = s;
    }

    /// Plans an export of every saved segment, or of the current marks when
    /// none is saved.
    pub fn plan_export(&self) -> (r: Result<Vec<ExportStep>, PlanError>)
        ensures
            r == Err::<Vec<ExportStep>, PlanError>(PlanError::NoFile) <==> self.project.source_path is None,
            r == Err::<Vec<ExportStep>, PlanError>(PlanError::OutNotAfterIn) <==> (self.project.source_path is Some
                && self.segments@.len() == 0 && out_or_end(self.project) <= in_or_start(self.project)),
            r matches Ok(steps) ==> self.project.source_path matches Some(src) && steps@.len()
                == export_ranges(*self).len() && forall|i: int|
                0 <= i < steps@.len() ==> planned_step(
                    #[trigger] steps@[i],
                    i,
                    steps@.len() as int,
                    export_ranges(*self)[i],
                    src@,
                    self.project.export_params.profile,
                    export_size(self.project),
                ),
            plan_outcome(*self, r),
    {
        let source = match &self.project.source_path {
            Some(p) => p,
            None => return Err(PlanError::NoFile),
        };
        let mut ranges: Vec<(i64, i64)> = Vec::new();
        if self.segments.len() > 0 {
            let mut k: usize = 0;
            while k < self.segments.len()
                invariant
                    k <= self.segments@.len(),
                    ranges@ == self.segments@.take(k as int).map_values(|g: Segment| (g.in_point, g.out_point)),
                decreases self.segments.len() - k,
            {
                let g = self.segments[k];
                ranges.push((g.in_point, g.out_point));
                proof {
                    assert(self.segments@.take(k + 1).map_values(|g: Segment| (g.in_point, g.out_point))
                        =~= self.segments@.take(k as int).map_values(|g: Segment| (g.in_point, g.out_point)).push((g.in_point, g.out_point)));
                }
                k = k + 1;
            }
            proof {
                assert(self.segments@.take(self.segments@.len() as int) =~= self.segments@);
            }
        } else {
            let in_pt = match self.project.in_point {
                Some(i) => i,
                None => 0,
            };
            let out_pt = match self.project.out_point {
                Some(o) => o,
                None => self.total_duration(),
            };
            if out_pt <= in_pt {
                return Err(PlanError::OutNotAfterIn);
            }
            ranges.push((in_pt, out_pt));
        }
        assert(ranges@ =~= export_ranges(*self));
        let (width, height) = match &self.project.video_info {
            Some(info) => (info.width, info.height),
            None => (1920u32, 1080u32),
        };
        let profile = self.project.export_params.profile;
        let n = ranges.len();
        let mut steps: Vec<ExportStep> = Vec::new();
        let mut i: usize = 0;
        while i < n
            invariant
                n == ranges@.len(),
                ranges@ == export_ranges(*self),
                self.project.source_path == Some(*source),
                profile == self.project.export_params.profile,
                (width, height) == export_size(self.project),
                i <= n,
                steps@.len() == i,
                forall|j: int|
                    0 <= j < i ==> planned_step(
                        #[trigger] steps@[j],
                        j,
                        n as int,
                        ranges@[j],
                        source@,
                        profile,
                        (width, height),
                    ),
            decreases n - i,
        {
            let (in_pt, out_pt) = ranges[i];
            let dur: i128 = out_pt as i128 - in_pt as i128;
            if dur < 100 {
                steps.push(ExportStep::TooShort { number: i + 1 });
            } else {
                let out_path = if n > 1 {
                    numbered_output_path(source.as_str(), &profile, i + 1)
                } else {
                    default_output_path(source.as_str(), &profile)
                };
                let job = ExportJob {
                    input_path: source.clone(),
                    output_path: out_path,
                    in_point: in_pt,
                    out_point: out_pt,
                    profile,
                    width,
                    height,
                };
                steps.push(ExportStep::Run { number: i + 1, job });
            }
            i = i + 1;
        }
        Ok(steps)
    }

    /// An export could not start: the status says why.
    pub fn export_refused(&mut self, e: PlanError)
        ensures
            e == PlanError::NoFile ==> final(self).export_status@ == "No file loaded"@,
            e == PlanError::OutNotAfterIn ==> final(self).export_status@
                == "Out point must be after in point"@,
            final(self).project == old(self).project,
            final(self).segments@ == old(self).segments@,
            same_session(EditorState { export_status: old(self).export_status, ..*final(self) }, *old(self)),
    {
        self.export_status = String::from_str(e.message());
    }

    /// Reports an export run: `failures[i]` holds the error of the `i`-th
    /// step's job, if it failed. Without errors the saved segments are
    /// cleared; the status counts the exported segments or lists the errors.
    pub fn finish_export(&mut self, steps: &Vec<ExportStep>, failures: &Vec<Option<String>>)
        ensures
            final(self).export_status@ == export_report(steps@.len(), export_errors(steps@, failures@)),
            export_errors(steps@, failures@).len() == 0 ==> final(self).segments@.len() == 0,
            export_errors(steps@, failures@).len() > 0 ==> final(self).segments@ == old(self).segments@,
            final(self).project == old(self).project,
            same_session(EditorState { export_status: old(self).export_status, ..*final(self) }, *old(self)),
            export_finished(*old(self), *final(self), steps@, failures@),
    {
        let mut errors: Vec<String> = Vec::new();
        let mut i: usize = 0;
        while i < steps.len()
            invariant
                i <= steps@.len(),
                views(errors@) == export_errors(steps@.take(i as int), failures@),
            decreases steps.len() - i,
        {
            proof {
                assert(steps@.take(i + 1).drop_last() =~= steps@.take(i as int));
                assert(steps@.take(i + 1).last() == steps@[i as int]);
            }
            match &steps[i] {
                ExportStep::TooShort { number } => {
                    let mut m = String::from_str("#");
                    let d = decimal_string(*number as u128);
                    m.append(d.as_str());
                    m.append(": segment too short");
                    errors.push(m);
                    proof {
                        assert(views(errors@) =~= export_errors(steps@.take(i as int), failures@).push(m@));
                    }
                },
                ExportStep::Run { number, job } => {
                    if i < failures.len() {
                        match &failures[i] {
                            Some(e) => {
                                let mut m = String::from_str("#");
                                let d = decimal_string(*number as u128);
                                m.append(d.as_str());
                                m.append(": ");
                                m.append(e.as_str());
                                errors.push(m);
                                proof {
                                    assert(views(errors@) =~= export_errors(steps@.take(i as int), failures@).push(m@));
                                }
                            },
                            None => {},
                        }
                    }
                },
            }
            i = i + 1;
        }
        proof {
            assert(steps@.take(steps@.len() as int) =~= steps@);
        }
        if errors.len() == 0 {
            self.segments.clear();
            let mut s = String::from_str("\u{2705} Exported ");
            let d = decimal_string(steps.len() as u128);
            s.append(d.as_str());
            s.append(" segment(s)");
            self.export_status = s;
        } else {
            let mut s = String::from_str("\u{274c} ");
            let d = decimal_string(errors.len() as u128);
            s.append(d.as_str());
            s.append(" error(s): ");
            let all = join(&errors, "; ");
            s.append(all.as_str());
            self.export_status = s;
        }
    }
}

/// The file a step writes, if it runs.
pub open spec fn step_output(step: ExportStep) -> Option<Seq<char>> {
    match step {
        ExportStep::Run { job, .. } => Some(job.output_path@),
        ExportStep::TooShort { .. } => None,
    }
}

/// In a plan of several exports no two jobs write the same file.
pub proof fn lemma_batch_outputs_distinct(
    s: EditorState,
    source: Seq<char>,
    steps: Seq<ExportStep>,
    i: int,
    j: int,
)
    requires
        steps.len() > 1,
        forall|k: int|
            0 <= k < steps.len() ==> planned_step(
                #[trigger] steps[k],
                k,
                steps.len() as int,
                export_ranges(s)[k],
                source,
                s.project.export_params.profile,
                export_size(s.project),
            ),
        0 <= i < steps.len(),
        0 <= j < steps.len(),
        i != j,
        step_output(steps[i]) is Some,
        step_output(steps[j]) is Some,
    ensures
        step_output(steps[i]) != step_output(steps[j]),
{
    let p = s.project.export_params.profile;
    assert(planned_step(steps[i], i, steps.len() as int, export_ranges(s)[i], source, p, export_size(s.project)));
    assert(planned_step(steps[j], j, steps.len() as int, export_ranges(s)[j], source, p, export_size(s.project)));
    lemma_numbered_outputs_distinct(source, p, (i + 1) as nat, (j + 1) as nat);
}

/// What `plan_export` guarantees of its result `r` for the session `s`.
pub open spec fn plan_outcome(s: EditorState, r: Result<Vec<ExportStep>, PlanError>) -> bool {
    &&& (r == Err::<Vec<ExportStep>, PlanError>(PlanError::NoFile) <==> s.project.source_path is None)
    &&& (r == Err::<Vec<ExportStep>, PlanError>(PlanError::OutNotAfterIn) <==> (s.project.source_path is Some
        && s.segments@.len() == 0 && out_or_end(s.project) <= in_or_start(s.project)))
    &&& (r matches Ok(steps) ==> s.project.source_path matches Some(src) && steps@.len()
        == export_ranges(s).len() && forall|i: int|
        0 <= i < steps@.len() ==> planned_step(
            #[trigger] steps@[i],
            i,
            steps@.len() as int,
            export_ranges(s)[i],
            src@,
            s.project.export_params.profile,
            export_size(s.project),
        ))
}

/// What `finish_export` guarantees of the session after (`new`) and before
/// (`old`) reporting the run of `steps` with `failures`.
pub open spec fn export_finished(
    old: EditorState,
    new: EditorState,
    steps: Seq<ExportStep>,
    failures: Seq<Option<String>>,
) -> bool {
    &&& new.export_status@ == export_report(steps.len(), export_errors(steps, failures))
    &&& (export_errors(steps, failures).len() == 0 ==> new.segments@.len() == 0)
    &&& (export_errors(steps, failures).len() > 0 ==> new.segments@ == old.segments@)
    &&& new.project == old.project
}

/// With nothing saved and no OUT mark, an export covers the loaded video
/// from the IN mark (or its start) to its end: the plan is one job over
/// exactly that range, written to the input's default output name.
pub proof fn lemma_export_defaults_to_whole_video(
    s: EditorState,
    r: Result<Vec<ExportStep>, PlanError>,
    info: VideoInfo,
)
    requires
        plan_outcome(s, r),
        s.project.source_path is Some,
        s.segments@.len() == 0,
        s.project.out_point is None,
        s.project.video_info == Some(info),
        (match s.project.in_point {
            Some(i) => i as int,
            None => 0,
        }) + 100 <= info.duration,
    ensures
        r is Ok,
        r matches Ok(steps) ==> {
            &&& steps@.len() == 1
            &&& steps@[0] matches ExportStep::Run { number, job }
            &&& number == 1
            &&& job.in_point == (match s.project.in_point {
                Some(i) => i,
                None => 0,
            })
            &&& job.out_point == info.duration
            &&& job.input_path@ == s.project.source_path->0@
            &&& job.output_path@ == output_path_for(
                s.project.source_path->0@,
                s.project.export_params.profile,
                None,
            )
            &&& job.profile == s.project.export_params.profile
            &&& job.width == info.width
            &&& job.height == info.height
        },
{
    match r {
        Ok(steps) => {
            assert(export_ranges(s).len() == 1);
            assert(planned_step(
                steps@[0],
                0,
                steps@.len() as int,
                export_ranges(s)[0],
                s.project.source_path->0@,
                s.project.export_params.profile,
                export_size(s.project),
            ));
        },
        Err(e) => {
            assert(e == PlanError::NoFile || e == PlanError::OutNotAfterIn);
        },
    }
}

/// A job that failed is always reported: the run's errors name it as
/// `#number: message`, the status line is an error report (it starts with
/// the cross mark), and the saved segments are kept.
pub proof fn lemma_failed_job_is_reported(
    old: EditorState,
    new: EditorState,
    steps: Seq<ExportStep>,
    failures: Seq<Option<String>>,
    i: int,
    number: usize,
    job: ExportJob,
    message: String,
)
    requires
        export_finished(old, new, steps, failures),
        0 <= i < steps.len(),
        i < failures.len(),
        steps[i] == (ExportStep::Run { number, job }),
        failures[i] == Some(message),
    ensures
        export_errors(steps, failures).contains("#"@ + decimal(number as nat) + ": "@ + message@),
        new.segments@ == old.segments@,
        new.export_status@[0] == '\u{274c}',
{
    lemma_errors_hold_failure(steps, failures, i);
    reveal_strlit("\u{274c} ");
    assert(("\u{274c} "@ + decimal(export_errors(steps, failures).len()))[0] == '\u{274c}');
}

proof fn lemma_errors_hold_failure(steps: Seq<ExportStep>, failures: Seq<Option<String>>, i: int)
    requires
        0 <= i < steps.len(),
        step_error(steps[i], failure_at(failures, i)) is Some,
    ensures
        export_errors(steps, failures).contains(step_error(steps[i], failure_at(failures, i))->0),
    decreases steps.len(),
{
    let rest = export_errors(steps.drop_last(), failures);
    if i == steps.len() - 1 {
        let m = step_error(steps[i], failure_at(failures, i))->0;
        assert(export_errors(steps, failures) == rest.push(m));
        assert(export_errors(steps, failures)[rest.len() as int] == m);
    } else {
        assert(steps.drop_last()[i] == steps[i]);
        lemma_errors_hold_failure(steps.drop_last(), failures, i);
        let m = step_error(steps[i], failure_at(failures, i))->0;
        let k = choose|k: int| 0 <= k < rest.len() && rest[k] == m;
        match step_error(steps.last(), failure_at(failures, steps.len() - 1)) {
            Some(x) => {
                assert(export_errors(steps, failures) == rest.push(x));
                assert(export_errors(steps, failures)[k] == m);
            },
            None => {},
        }
    }
}

/// An export where every job ran without error and no segment was too
/// short is reported as a success and empties the list of saved segments.
pub proof fn lemma_clean_export_clears_segments(
    old: EditorState,
    new: EditorState,
    steps: Seq<ExportStep>,
    failures: Seq<Option<String>>,
)
    requires
        export_finished(old, new, steps, failures),
        forall|i: int| 0 <= i < steps.len() ==> #[trigger] steps[i] is Run,
        forall|i: int| 0 <= i < failures.len() ==> #[trigger] failures[i] is None,
    ensures
        new.segments@.len() == 0,
        new.export_status@[0] == '\u{2705}',
{
    lemma_clean_run_has_no_errors(steps, failures);
    reveal_strlit("\u{2705} Exported ");
    assert(("\u{2705} Exported "@ + decimal(steps.len()))[0] == '\u{2705}');
}

proof fn lemma_clean_run_has_no_errors(steps: Seq<ExportStep>, failures: Seq<Option<String>>)
    requires
        forall|i: int| 0 <= i < steps.len() ==> #[trigger] steps[i] is Run,
        forall|i: int| 0 <= i < failures.len() ==> #[trigger] failures[i] is None,
    ensures
        export_errors(steps, failures).len() == 0,
    decreases steps.len(),
{
    if steps.len() > 0 {
        assert forall|i: int| 0 <= i < steps.drop_last().len() implies #[trigger] steps.drop_last()[i] is Run by {
            assert(steps.drop_last()[i] == steps[i]);
        }
        lemma_clean_run_has_no_errors(steps.drop_last(), failures);
        assert(steps.last() is Run);
        if steps.len() - 1 < failures.len() {
            assert(failures[steps.len() - 1] is None);
        }
    }
}

/// Pressing I with a video loaded marks the current time as IN and leaves
/// everything else, the OUT mark included, as it was; pressing O does the
/// same for the OUT mark. Neither sends anything to mpv.
pub proof fn lemma_mark_keys_set_one_mark(s: EditorState)
    requires
        s.player_ready,
    ensures
        shortcut(s, ShortcutKey::I, false).1 == UserCommand::Nothing,
        shortcut(s, ShortcutKey::I, false).0.project.in_point == Some(s.current_time),
        shortcut(s, ShortcutKey::I, false).0.project.out_point == s.project.out_point,
        same_but_marks(shortcut(s, ShortcutKey::I, false).0, s),
        shortcut(s, ShortcutKey::O, false).1 == UserCommand::Nothing,
        shortcut(s, ShortcutKey::O, false).0.project.out_point == Some(s.current_time),
        shortcut(s, ShortcutKey::O, false).0.project.in_point == s.project.in_point,
        same_but_marks(shortcut(s, ShortcutKey::O, false).0, s),
{
}

/// The Export button runs an export exactly when it is enabled: when both
/// marks are set or at least one segment is saved.
pub proof fn lemma_export_button_runs_when_enabled(s: EditorState)
    ensures
        button_command(s, Button::Export) == UserCommand::Export <==> ((s.project.in_point is Some
            && s.project.out_point is Some) || s.segments@.len() > 0),
        button_command(s, Button::Export) != UserCommand::Export ==> button_command(s, Button::Export)
            == UserCommand::Nothing,
{
}

/// The step is a job numbered `number` over exactly `[in_point, out_point]`.
pub open spec fn runs_over(step: ExportStep, number: int, in_point: i64, out_point: i64) -> bool {
    match step {
        ExportStep::Run { number: n, job } => n == number && job.in_point == in_point && job.out_point
            == out_point,
        ExportStep::TooShort { .. } => false,
    }
}

/// With segments saved, an export plan has one step per segment, in order:
/// the `i`-th step is numbered `i + 1` and is either reported as too short
/// (under a tenth of a second) or a job over exactly that segment's range.
pub proof fn lemma_plan_follows_segments(s: EditorState, r: Result<Vec<ExportStep>, PlanError>, i: int)
    requires
        plan_outcome(s, r),
        s.project.source_path is Some,
        s.segments@.len() > 0,
        0 <= i < s.segments@.len(),
    ensures
        r is Ok,
        r matches Ok(steps) ==> {
            &&& steps@.len() == s.segments@.len()
            &&& s.segments@[i].out_point - s.segments@[i].in_point < 100 ==> steps@[i] == ExportStep::TooShort {
                number: (i + 1) as usize,
            }
            &&& s.segments@[i].out_point - s.segments@[i].in_point >= 100 ==> runs_over(
                steps@[i],
                i + 1,
                s.segments@[i].in_point,
                s.segments@[i].out_point,
            )
        },
{
    match r {
        Ok(steps) => {
            assert(export_ranges(s)[i] == (s.segments@[i].in_point, s.segments@[i].out_point));
            assert(planned_step(
                steps@[i],
                i,
                steps@.len() as int,
                export_ranges(s)[i],
                s.project.source_path->0@,
                s.project.export_params.profile,
                export_size(s.project),
            ));
        },
        Err(e) => {
            assert(e == PlanError::NoFile || e == PlanError::OutNotAfterIn);
        },
    }
}

/// Keys never touch the saved segments, the loaded file, what is known of it
/// or the export settings; only I and O (with a video loaded)
/// change a mark (O only without Ctrl, which opens the file dialog instead),
/// and neither changes the other mark.
pub proof fn lemma_keys_touch_only_marks(s: EditorState, key: ShortcutKey, ctrl: bool)
    ensures
        shortcut(s, key, ctrl).0.segments == s.segments,
        shortcut(s, key, ctrl).0.project.source_path == s.project.source_path,
        shortcut(s, key, ctrl).0.project.video_info == s.project.video_info,
        shortcut(s, key, ctrl).0.project.export_params == s.project.export_params,
        shortcut(s, key, ctrl).0.current_time == s.current_time,
        shortcut(s, key, ctrl).0.player_ready == s.player_ready,
        !(key == ShortcutKey::I && s.player_ready) ==> shortcut(s, key, ctrl).0.project.in_point
            == s.project.in_point,
        !(key == ShortcutKey::O && !ctrl && s.player_ready) ==> shortcut(s, key, ctrl).0.project.out_point
            == s.project.out_point,
        !s.player_ready && !(key == ShortcutKey::O && ctrl) ==> shortcut(s, key, ctrl).1
            == UserCommand::Nothing,
{
}

} // verus!
