//! The payloads of the plugin's commands, as the webview sends them.
use vstd::prelude::*;

verus! {

/// Switches memory optimisation of the runtime.
pub struct OptimizeForMemoryRequest {
    pub enabled: bool,
}

/// Creates a worklet; the `on_*` fields name the webview callbacks that
/// receive its events.
pub struct NewWorkletRequest {
    pub memory_limit: usize,
    pub assets: Option<String>,
    pub on_poll: u32,
    pub on_suspend: u32,
    pub on_wakeup: u32,
    pub on_idle: u32,
    pub on_resume: u32,
}

/// Starts a worklet on a file.
pub struct StartFileRequest {
    pub id: u8,
    pub filename: String,
    pub args: Vec<String>,
}

/// Starts a worklet on JavaScript source text.
pub struct StartUTF8Request {
    pub id: u8,
    pub filename: String,
    pub source: String,
    pub args: Vec<String>,
}

/// Starts a worklet on source bytes.
pub struct StartBytesRequest {
    pub id: u8,
    pub filename: String,
    pub source: Vec<u8>,
    pub args: Vec<String>,
}

/// Reads from a worklet's IPC.
pub struct ReadRequest {
    pub id: u8,
}

/// Changes the readiness a worklet's IPC poll waits for.
pub struct UpdateRequest {
    pub id: u8,
    pub readable: bool,
    pub writable: bool,
}

/// Suspends a worklet.
pub struct SuspendRequest {
    pub id: u8,
    pub linger: i32,
}

/// Resumes a worklet.
pub struct ResumeRequest {
    pub id: u8,
}

/// Wakes a suspended worklet.
pub struct WakeupRequest {
    pub id: u8,
    pub deadline: i32,
}

/// Terminates a worklet.
pub struct TerminateRequest {
    pub id: u8,
}

} // verus!
