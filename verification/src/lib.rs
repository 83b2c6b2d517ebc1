//! Verified core of a video cutting tool that plays a file in mpv, marks IN
//! and OUT points, and exports the marked segments as DNxHR with ffmpeg.
//!
//! Times are whole milliseconds throughout. The modules hold the number and
//! timecode rendering, the data model, file naming, the ffmpeg and mpv
//! command lines and messages, the X11 embedding bookkeeping, and the
//! editing session that ties them together.

pub mod decimal;
pub mod text;
pub mod timecode;
pub mod types;
pub mod mpv;
pub mod paths;
pub mod export;
pub mod embed;
pub mod editor;

pub use editor::{Button, EditorState, ExportStep, PlanError, ShortcutKey, UserCommand};
pub use embed::{CreatePlan, EmbeddedWindow, Placement};
pub use export::{ExportError, ExportJob};
pub use mpv::{MpvCommand, SocketWait, WaitStep};
pub use paths::default_output_path;
pub use timecode::{format_seconds, format_time};
pub use types::{DnxProfile, ExportParams, Project, Segment, VideoInfo};
