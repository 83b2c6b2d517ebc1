//! Control of an mpv process over its JSON IPC socket: the messages sent to
//! it, the command line that starts it, and the wait for its socket.

use vstd::prelude::*;
use crate::decimal::decimal;
use crate::decimal::decimal_string;
use crate::text::{join, joined, views};
use crate::timecode::{
    format_json_seconds, json_seconds_text, lemma_json_seconds_restore, read_seconds, seconds_text,
};

verus! {

#[verifier::external_type_specification]
#[verifier::external_body]
pub struct ExJsonError(serde_json::Error);

/// Lower-case hexadecimal digit for `d < 16`.
pub open spec fn hex_digit(d: nat) -> char {
    seq!['0', '1', '2', '3', '4', '5', '6', '7', '8', '9', 'a', 'b', 'c', 'd', 'e', 'f'][d as int]
}

/// How one character stands inside a JSON string literal: quote and backslash
/// are escaped, the short escapes are used where JSON has them, other ASCII
/// control characters become `\u00XX`, everything else stands as it is.
pub open spec fn json_escaped_char(c: char) -> Seq<char> {
    if c == '"' {
        seq!['\\', '"']
    } else if c == '\\' {
        seq!['\\', '\\']
    } else if c == '\x08' {
        seq!['\\', 'b']
    } else if c == '\x0c' {
        seq!['\\', 'f']
    } else if c == '\n' {
        seq!['\\', 'n']
    } else if c == '\r' {
        seq!['\\', 'r']
    } else if c == '\t' {
        seq!['\\', 't']
    } else if (c as nat) < 0x20 {
        seq!['\\', 'u', '0', '0', hex_digit((c as nat) / 16), hex_digit((c as nat) % 16)]
    } else {
        seq![c]
    }
}

/// The escaped contents of a JSON string literal.
pub open spec fn json_escaped(s: Seq<char>) -> Seq<char>
    decreases s.len(),
{
    if s.len() == 0 {
        seq![]
    } else {
        json_escaped_char(s[0]) + json_escaped(s.drop_first())
    }
}

/// A JSON string literal holding `s`.
pub open spec fn json_string(s: Seq<char>) -> Seq<char> {
    seq!['"'] + json_escaped(s) + seq!['"']
}

/// Serialises a string as a JSON string literal with `serde_json::to_string`.
/// Claimed of it: it returns `Ok` (serde_json writes into a `Vec`, which never
/// fails, and serialising a `str` has no other error), and the text is the
/// string between double quotes, with `"` and `\` escaped by a backslash,
/// backspace, form feed, line feed, carriage return and tab written
/// `\b \f \n \r \t`, the other characters below U+0020 written `\u00xx` in
/// lower-case hex, and all else unchanged.
#[verifier::external_body]
fn json_quote(s: &str) -> (r: Result<String, serde_json::Error>)
    ensures
        r is Ok,
        r matches Ok(q) ==> q@ == json_string(s@),
{
    serde_json::to_string(s)
}

/// A message that could not be encoded for mpv.
#[derive(Debug, Clone, Copy, PartialEq, Eq, Structural)]
pub enum MessageError {
    /// The JSON encoder refused a string (the contracts above show it never does).
    Encoding,
}

/// A command of mpv's JSON IPC protocol. Times are whole milliseconds.
#[derive(Debug, Clone)]
pub enum MpvCommand {
    /// `["loadfile", path, "replace"]`: play `path` in place of the current file.
    LoadFile(String),
    /// `["set", "pause", paused]`.
    SetPause(bool),
    /// `["cycle", "pause"]`.
    CyclePause,
    /// `["seek", seconds, "absolute" | "relative"]`.
    Seek { ms: i64, relative: bool },
    /// `["frame-step"]` forward, `["frame-back-step"]` backward.
    FrameStep { forward: bool },
    /// `["get_property", name]`.
    GetProperty(String),
}

/// The JSON texts of the command's array elements.
pub open spec fn command_json_args(c: MpvCommand) -> Seq<Seq<char>> {
    match c {
        MpvCommand::LoadFile(path) => seq![
            json_string("loadfile"@),
            json_string(path@),
            json_string("replace"@),
        ],
        MpvCommand::SetPause(p) => seq![
            json_string("set"@),
            json_string("pause"@),
            if p { "true"@ } else { "false"@ },
        ],
        MpvCommand::CyclePause => seq![json_string("cycle"@), json_string("pause"@)],
        MpvCommand::Seek { ms, relative } => seq![
            json_string("seek"@),
            json_seconds_text(ms as int),
            json_string(if relative { "relative"@ } else { "absolute"@ }),
        ],
        MpvCommand::FrameStep { forward } => seq![
            json_string(if forward { "frame-step"@ } else { "frame-back-step"@ }),
        ],
        MpvCommand::GetProperty(name) => seq![json_string("get_property"@), json_string(name@)],
    }
}

/// The request sent to mpv for the given array elements, as serde writes
/// `{ command, request_id: Some(1) }`.
pub open spec fn request_text(args: Seq<Seq<char>>) -> Seq<char> {
    "{\"command\":["@ + joined(args, ","@) + "],\"request_id\":1}"@
}

/// Wraps already encoded array elements into a request.
pub fn request_from_args(args: &Vec<String>) -> (s: String)
    ensures
        s@ == request_text(views(args@)),
{
    let mut s = String::from_str("{\"command\":[");
    let inner = join(args, ",");
    s.append(inner.as_str());
    s.append("],\"request_id\":1}");
    s
}

fn quoted(s: &str) -> (r: Result<String, MessageError>)
    ensures
        r is Ok,
        r matches Ok(q) ==> q@ == json_string(s@),
{
    match json_quote(s) {
        Ok(q) => Ok(q),
        Err(_) => Err(MessageError::Encoding),
    }
}

impl MpvCommand {
    /// The JSON texts of the command's array elements.
    pub fn json_args(&self) -> (r: Result<Vec<String>, MessageError>)
        ensures
            r is Ok,
            r matches Ok(v) ==> views(v@) == command_json_args(*self),
    {
        let mut v: Vec<String> = Vec::new();
        match self {
            MpvCommand::LoadFile(path) => {
                v.push(quoted("loadfile")?);
                v.push(quoted(path.as_str())?);
                v.push(quoted("replace")?);
            },
            MpvCommand::SetPause(p) => {
                v.push(quoted("set")?);
                v.push(quoted("pause")?);
                proof {
                    reveal_strlit("true");
                    reveal_strlit("false");
                }
                v.push(String::from_str(if *p { "true" } else { "false" }));
            },
            MpvCommand::CyclePause => {
                v.push(quoted("cycle")?);
                v.push(quoted("pause")?);
            },
            MpvCommand::Seek { ms, relative } => {
                v.push(quoted("seek")?);
                v.push(format_json_seconds(*ms as i128));
                v.push(quoted(if *relative { "relative" } else { "absolute" })?);
            },
            MpvCommand::FrameStep { forward } => {
                v.push(quoted(if *forward { "frame-step" } else { "frame-back-step" })?);
            },
            MpvCommand::GetProperty(name) => {
                v.push(quoted("get_property")?);
                v.push(quoted(name.as_str())?);
            },
        }
        proof {
            assert(views(v@) =~= command_json_args(*self));
        }
        Ok(v)
    }

    /// The request line (without its terminating newline) sent to mpv.
    pub fn request(&self) -> (r: Result<String, MessageError>)
        ensures
            r is Ok,
            r matches Ok(s) ==> s@ == request_text(command_json_args(*self)),
    {
        let args = self.json_args()?;
        Ok(request_from_args(&args))
    }
}

/// Where mpv is told to open its IPC socket.
pub open spec fn ipc_socket_text() -> Seq<char> {
    "/tmp/dnclip-mpv.sock"@
}

/// The IPC socket path used for the mpv process.
pub fn ipc_socket_path() -> (s: &'static str)
    ensures
        s@ == ipc_socket_text(),
{
    "/tmp/dnclip-mpv.sock"
}

/// The command-line arguments mpv is started with: no terminal, keep the
/// last frame open, no on-screen display or controller, the IPC socket, the
/// window to draw into when embedding, and the file.
pub open spec fn mpv_arg_list(socket: Seq<char>, file: Seq<char>, wid: Option<u64>) -> Seq<Seq<char>> {
    let head = seq![
        "--no-terminal"@,
        "--keep-open=yes"@,
        "--osd-level=0"@,
        "--osc=no"@,
        "--input-ipc-server="@ + socket,
    ];
    match wid {
        Some(w) => head.push("--wid="@ + decimal(w as nat)).push(file),
        None => head.push(file),
    }
}

/// Builds the arguments for launching mpv, standalone (`wid` is `None`) or
/// drawing into the X11 window `wid`.
pub fn mpv_args(socket: &str, file_path: &str, wid: Option<u64>) -> (v: Vec<String>)
    ensures
        views(v@) == mpv_arg_list(socket@, file_path@, wid),
{
    let mut v: Vec<String> = Vec::new();
    v.push(String::from_str("--no-terminal"));
    v.push(String::from_str("--keep-open=yes"));
    v.push(String::from_str("--osd-level=0"));
    v.push(String::from_str("--osc=no"));
    let mut ipc = String::from_str("--input-ipc-server=");
    ipc.append(socket);
    v.push(ipc);
    match wid {
        Some(w) => {
            let mut a = String::from_str("--wid=");
            let digits = decimal_string(w as u128);
            a.append(digits.as_str());
            v.push(a);
        },
        None => {},
    }
    v.push(String::from_str(file_path));
    proof {
        assert(views(v@) =~= mpv_arg_list(socket@, file_path@, wid));
    }
    v
}

/// How many times the launcher looks for the IPC socket before giving up.
pub open spec fn socket_attempts() -> u32 {
    20
}

/// What the launcher does after one look at the IPC socket.
#[derive(Debug, Clone, Copy, PartialEq, Eq, Structural)]
pub enum WaitStep {
    /// The socket exists: mpv is ready for commands.
    Ready,
    /// mpv exited before creating its socket.
    Exited,
    /// Wait 100 ms and look again.
    Sleep,
    /// The attempts are used up: give up.
    TimedOut,
}

/// The wait for mpv's IPC socket after launch: up to twenty looks, with a
/// pause after each look that finds nothing.
#[derive(Debug, Clone, Copy, PartialEq, Eq, Structural)]
pub struct SocketWait {
    pub retries: u32,
}

impl SocketWait {
    /// A fresh wait with all attempts left.
    pub fn new() -> (w: SocketWait)
        ensures
            w.retries == socket_attempts(),
    {
        SocketWait { retries: 20 }
    }

    /// One look at the socket. `socket_exists` tells whether the socket file is
    /// there now; `exited` whether the mpv process has already ended (always
    /// `false` when the launcher does not watch for that).
    pub fn poll(&mut self, socket_exists: bool, exited: bool) -> (step: WaitStep)
        ensures
            (final(self).retries, step) == wait_next(old(self).retries, socket_exists, exited),
    {
        if self.retries == 0 {
            WaitStep::TimedOut
        } else if socket_exists {
            WaitStep::Ready
        } else if exited {
            WaitStep::Exited
        } else {
            self.retries = self.retries - 1;
            WaitStep::Sleep
        }
    }
}

/// One look with `retries` attempts left: out of attempts it gives up without
/// looking; a socket means ready; an ended process means failure; otherwise
/// one attempt is used and the launcher sleeps.
pub open spec fn wait_next(retries: u32, socket_exists: bool, exited: bool) -> (u32, WaitStep) {
    if retries == 0 {
        (0, WaitStep::TimedOut)
    } else if socket_exists {
        (retries, WaitStep::Ready)
    } else if exited {
        (retries, WaitStep::Exited)
    } else {
        ((retries - 1) as u32, WaitStep::Sleep)
    }
}

/// How often the launcher sleeps when it looks at the socket with the given
/// observations, one after another.
pub open spec fn sleeps(retries: u32, looks: Seq<(bool, bool)>) -> nat
    decreases looks.len(),
{
    if looks.len() == 0 {
        0
    } else {
        let next = wait_next(retries, looks[0].0, looks[0].1);
        (if next.1 == WaitStep::Sleep { 1nat } else { 0nat }) + sleeps(next.0, looks.drop_first())
    }
}

/// The wait for the socket is bounded: whatever the launcher observes, it
/// sleeps at most as often as it has attempts (twenty from a fresh wait),
/// and once they are used up every further look gives up.
pub proof fn lemma_wait_is_bounded(retries: u32, looks: Seq<(bool, bool)>)
    ensures
        sleeps(retries, looks) <= retries,
        forall|e: bool, x: bool| #[trigger] wait_next(0, e, x).1 == WaitStep::TimedOut,
    decreases looks.len(),
{
    if looks.len() > 0 {
        let next = wait_next(retries, looks[0].0, looks[0].1);
        lemma_wait_is_bounded(next.0, looks.drop_first());
    }
}

/// The message given when mpv's socket did not appear in time; the embedded
/// launch words it without the final full stop.
pub fn socket_timeout_message(embedded: bool) -> (s: &'static str)
    ensures
        embedded ==> s@ == "mpv failed to create IPC socket within timeout"@,
        !embedded ==> s@ == "mpv failed to create IPC socket within timeout."@,
{
    if embedded {
        "mpv failed to create IPC socket within timeout"
    } else {
        "mpv failed to create IPC socket within timeout."
    }
}

/// Whether the player counts as paused, given the `pause` property as a
/// boolean when it is one: anything else counts as paused.
pub fn paused_from_property(value: Option<bool>) -> (p: bool)
    ensures
        p == match value {
            Some(b) => b,
            None => true,
        },
{
    match value {
        Some(b) => b,
        None => true,
    }
}

/// A seek request carries the exact target: its time argument, with its
/// fraction filled back to three digits, reads back as the requested number
/// of milliseconds.
pub proof fn lemma_seek_carries_time(ms: i64, relative: bool)
    ensures
        command_json_args(MpvCommand::Seek { ms, relative }).len() == 3,
        command_json_args(MpvCommand::Seek { ms, relative })[1] == json_seconds_text(ms as int),
        read_seconds(json_seconds_text(ms as int) + Seq::new(
            (seconds_text(ms as int).len() - json_seconds_text(ms as int).len()) as nat,
            |i: int| '0',
        )) == ms,
{
    lemma_json_seconds_restore(ms as int);
}

} // verus!
