//! The life cycle of one worklet: which native calls each request leads to,
//! given whether the worklet has been started and whether it has been
//! terminated.
use vstd::prelude::*;

use crate::events::event_mask;

verus! {

/// What a worklet is started on.
#[derive(Debug, PartialEq, Eq)]
pub enum WorkletSource {
    /// The file named in the start request.
    File,
    /// JavaScript source text, handed over as its UTF-8 bytes.
    Utf8(String),
    /// Source bytes (a bundle or text).
    Bytes(Vec<u8>),
}

/// A native call on one worklet, its IPC channel or its IPC poll, in the
/// order in which the caller must make them.
#[derive(Debug, PartialEq, Eq)]
pub enum WorkletOp {
    /// Allocate and initialise the worklet with the given memory limit and
    /// optional assets directory.
    Create { memory_limit: usize, assets: Option<String> },
    /// Register the suspend listener, which reports to the given webview
    /// callback.
    OnSuspend { callback: u32 },
    /// Register the wakeup listener.
    OnWakeup { callback: u32 },
    /// Register the idle listener.
    OnIdle { callback: u32 },
    /// Register the resume listener.
    OnResume { callback: u32 },
    /// Start the worklet on a file, or on the given source.
    Start { filename: String, source: WorkletSource, args: Vec<String> },
    /// Open the IPC channel of the started worklet.
    OpenIpc,
    /// Open the poll that watches the IPC channel.
    OpenPoll,
    /// Read what the IPC channel holds.
    Read,
    /// Write to the IPC channel (no data: an empty write).
    Write { data: Option<Vec<u8>> },
    /// Start polling for the given events, reporting them to the given
    /// webview callback.
    PollStart { events: u32, callback: u32 },
    /// Stop polling.
    PollStop,
    /// Suspend the worklet, giving it `linger` milliseconds to stop I/O.
    Suspend { linger: i32 },
    /// Resume the worklet.
    Resume,
    /// Wake the suspended worklet for `deadline` milliseconds.
    Wakeup { deadline: i32 },
    /// Terminate the running worklet.
    Terminate,
    /// Destroy the IPC poll.
    DestroyPoll,
    /// Destroy the IPC channel.
    DestroyIpc,
    /// Destroy the worklet.
    Destroy,
}

/// What the plugin knows of one worklet.
#[derive(Clone, Copy, Debug, PartialEq, Eq)]
pub struct BareKitWorklet {
    /// The identifier the plugin gave the worklet.
    pub id: u8,
    /// Whether a start request has been carried out.
    pub started: bool,
    /// Whether the worklet has been terminated.
    pub terminated: bool,
    /// The webview callback that receives poll events.
    pub on_poll: u32,
}

impl BareKitWorklet {
    /// The calls that create a worklet and register its four listeners.
    pub open spec fn creation_ops(
        memory_limit: usize,
        assets: Option<String>,
        on_suspend: u32,
        on_wakeup: u32,
        on_idle: u32,
        on_resume: u32,
    ) -> Seq<WorkletOp> {
        seq![
            WorkletOp::Create { memory_limit, assets },
            WorkletOp::OnSuspend { callback: on_suspend },
            WorkletOp::OnWakeup { callback: on_wakeup },
            WorkletOp::OnIdle { callback: on_idle },
            WorkletOp::OnResume { callback: on_resume },
        ]
    }

    /// Whether a start request is carried out: only on a worklet that was
    /// neither started nor terminated.
    pub open spec fn can_start(self) -> bool {
        !self.started && !self.terminated
    }

    /// The worklet after a start request.
    pub open spec fn after_start(self) -> BareKitWorklet {
        if self.can_start() {
            BareKitWorklet { started: true, ..self }
        } else {
            self
        }
    }

    /// The calls a start request leads to.
    pub open spec fn start_ops(
        self,
        filename: String,
        source: WorkletSource,
        args: Vec<String>,
    ) -> Seq<WorkletOp> {
        if self.can_start() {
            seq![WorkletOp::Start { filename, source, args }, WorkletOp::OpenIpc, WorkletOp::OpenPoll]
        } else {
            seq![]
        }
    }

    /// The calls a read request leads to: a read only on a started worklet
    /// that is not terminated.
    pub open spec fn read_ops(self) -> Seq<WorkletOp> {
        if self.started && !self.terminated {
            seq![WorkletOp::Read]
        } else {
            seq![]
        }
    }

    /// The calls an update of the poll leads to.
    pub open spec fn update_ops(self, readable: bool, writable: bool) -> Seq<WorkletOp> {
        if self.terminated {
            seq![]
        } else if readable || writable {
            seq![
                WorkletOp::PollStart {
                    events: event_mask(readable, writable),
                    callback: self.on_poll,
                },
            ]
        } else {
            seq![WorkletOp::PollStop]
        }
    }

    /// The worklet after a terminate request.
    pub open spec fn after_terminate(self) -> BareKitWorklet {
        BareKitWorklet { terminated: true, ..self }
    }

    /// The calls a terminate request leads to: none on a terminated worklet;
    /// otherwise the running worklet and its IPC are torn down, if it was
    /// started, and the worklet is destroyed.
    pub open spec fn terminate_ops(self) -> Seq<WorkletOp> {
        if self.terminated {
            seq![]
        } else if self.started {
            seq![
                WorkletOp::Terminate,
                WorkletOp::DestroyPoll,
                WorkletOp::DestroyIpc,
                WorkletOp::Destroy,
            ]
        } else {
            seq![WorkletOp::Destroy]
        }
    }

    /// A new worklet and the calls that create it.
    pub fn new(
        id: u8,
        memory_limit: usize,
        assets: Option<String>,
        on_poll: u32,
        on_suspend: u32,
        on_wakeup: u32,
        on_idle: u32,
        on_resume: u32,
    ) -> (res: (BareKitWorklet, Vec<WorkletOp>))
        ensures
            res.0 == (BareKitWorklet { id, started: false, terminated: false, on_poll }),
            res.1@ == Self::creation_ops(
                memory_limit,
                assets,
                on_suspend,
                on_wakeup,
                on_idle,
                on_resume,
            ),
    {
        let mut ops: Vec<WorkletOp> = Vec::new();
        ops.push(WorkletOp::Create { memory_limit, assets });
        ops.push(WorkletOp::OnSuspend { callback: on_suspend });
        ops.push(WorkletOp::OnWakeup { callback: on_wakeup });
        ops.push(WorkletOp::OnIdle { callback: on_idle });
        ops.push(WorkletOp::OnResume { callback: on_resume });
        let worklet = BareKitWorklet { id, started: false, terminated: false, on_poll };
        (worklet, ops)
    }

    /// Starts the worklet on `filename`, or on `source` when that holds the
    /// code; a worklet that was started or terminated is left alone.
    pub fn start(&mut self, filename: String, source: WorkletSource, args: Vec<String>) -> (ops:
        Vec<WorkletOp>)
        ensures
            *final(self) == old(self).after_start(),
            ops@ == old(self).start_ops(filename, source, args),
    {
        let mut ops: Vec<WorkletOp> = Vec::new();
        if self.started || self.terminated {
            return ops;
        }
        self.started = true;
        ops.push(WorkletOp::Start { filename, source, args });
        ops.push(WorkletOp::OpenIpc);
        ops.push(WorkletOp::OpenPoll);
        ops
    }

    /// Reads from the worklet's IPC, if it is running.
    pub fn read(&self) -> (ops: Vec<WorkletOp>)
        ensures
            ops@ == self.read_ops(),
    {
        let mut ops: Vec<WorkletOp> = Vec::new();
        if !self.started || self.terminated {
            return ops;
        }
        ops.push(WorkletOp::Read);
        ops
    }

    /// Writes to the worklet's IPC.
    pub fn write(&self, data: Option<Vec<u8>>) -> (ops: Vec<WorkletOp>)
        ensures
            ops@ == seq![WorkletOp::Write { data }],
    {
        let mut ops: Vec<WorkletOp> = Vec::new();
        ops.push(WorkletOp::Write { data });
        ops
    }

    /// Starts polling for the requested readiness, or stops polling when
    /// neither is requested; a terminated worklet is left alone.
    pub fn update(&self, readable: bool, writable: bool) -> (ops: Vec<WorkletOp>)
        ensures
            ops@ == self.update_ops(readable, writable),
    {
        let mut ops: Vec<WorkletOp> = Vec::new();
        if self.terminated {
            return ops;
        }
        let events = crate::events::poll_events(readable, writable);
        if events > 0 {
            ops.push(WorkletOp::PollStart { events, callback: self.on_poll });
        } else {
            ops.push(WorkletOp::PollStop);
        }
        ops
    }

    /// Suspends the worklet.
    pub fn suspend(&self, linger: i32) -> (ops: Vec<WorkletOp>)
        ensures
            ops@ == seq![WorkletOp::Suspend { linger }],
    {
        let mut ops: Vec<WorkletOp> = Vec::new();
        ops.push(WorkletOp::Suspend { linger });
        ops
    }

    /// Resumes the worklet.
    pub fn resume(&self) -> (ops: Vec<WorkletOp>)
        ensures
            ops@ == seq![WorkletOp::Resume],
    {
        let mut ops: Vec<WorkletOp> = Vec::new();
        ops.push(WorkletOp::Resume);
        ops
    }

    /// Wakes the worklet for `deadline` milliseconds.
    pub fn wakeup(&self, deadline: i32) -> (ops: Vec<WorkletOp>)
        ensures
            ops@ == seq![WorkletOp::Wakeup { deadline }],
    {
        let mut ops: Vec<WorkletOp> = Vec::new();
        ops.push(WorkletOp::Wakeup { deadline });
        ops
    }

    /// Terminates the worklet; a terminated worklet is left alone.
    pub fn terminate(&mut self) -> (ops: Vec<WorkletOp>)
        ensures
            *final(self) == old(self).after_terminate(),
            ops@ == old(self).terminate_ops(),
    {
        let mut ops: Vec<WorkletOp> = Vec::new();
        if self.terminated {
            return ops;
        }
        self.terminated = true;
        if self.started {
            ops.push(WorkletOp::Terminate);
            ops.push(WorkletOp::DestroyPoll);
            ops.push(WorkletOp::DestroyIpc);
        }
        ops.push(WorkletOp::Destroy);
        ops
    }
}

/// A terminated worklet is left alone by start, read, update and terminate
/// requests: they change nothing and lead to no call.
pub proof fn lemma_terminated_worklet_is_inert(
    w: BareKitWorklet,
    filename: String,
    source: WorkletSource,
    args: Vec<String>,
    readable: bool,
    writable: bool,
)
    requires
        w.terminated,
    ensures
        w.after_start() == w,
        w.start_ops(filename, source, args) == Seq::<WorkletOp>::empty(),
        w.read_ops() == Seq::<WorkletOp>::empty(),
        w.update_ops(readable, writable) == Seq::<WorkletOp>::empty(),
        w.after_terminate() == w,
        w.terminate_ops() == Seq::<WorkletOp>::empty(),
{
}

/// A worklet starts at most once: after a start or a terminate request it
/// can no longer be started, and neither request clears the started or
/// terminated mark.
pub proof fn lemma_worklet_starts_at_most_once(w: BareKitWorklet)
    ensures
        !w.after_start().can_start(),
        !w.after_terminate().can_start(),
        w.started ==> w.after_start().started && w.after_terminate().started,
        w.terminated ==> w.after_start().terminated,
        w.after_terminate().terminated,
{
}

/// A worklet is torn down at most once: a terminate request destroys it
/// exactly when it was not terminated yet, its IPC is torn down only if the
/// worklet was started, and a second terminate request leads to no call.
pub proof fn lemma_worklet_destroyed_at_most_once(w: BareKitWorklet)
    ensures
        w.terminate_ops().contains(WorkletOp::Destroy) <==> !w.terminated,
        w.terminate_ops().contains(WorkletOp::DestroyIpc) <==> (w.started && !w.terminated),
        w.after_terminate().terminate_ops() == Seq::<WorkletOp>::empty(),
{
    if !w.terminated {
        if w.started {
            assert(w.terminate_ops()[3] == WorkletOp::Destroy);
            assert(w.terminate_ops()[2] == WorkletOp::DestroyIpc);
        } else {
            assert(w.terminate_ops()[0] == WorkletOp::Destroy);
            assert(!w.terminate_ops().contains(WorkletOp::DestroyIpc)) by {
                if w.terminate_ops().contains(WorkletOp::DestroyIpc) {
                    let i = choose|i: int|
                        0 <= i < w.terminate_ops().len() && w.terminate_ops()[i]
                            == WorkletOp::DestroyIpc;
                    assert(i == 0);
                }
            }
        }
    }
}

/// The IPC is opened exactly when a start request is carried out.
pub proof fn lemma_ipc_opened_on_start(
    w: BareKitWorklet,
    filename: String,
    source: WorkletSource,
    args: Vec<String>,
)
    ensures
        w.start_ops(filename, source, args).contains(WorkletOp::OpenIpc) <==> w.can_start(),
        w.can_start() ==> w.after_start().read_ops() == seq![WorkletOp::Read],
{
    if w.can_start() {
        assert(w.start_ops(filename, source, args)[1] == WorkletOp::OpenIpc);
    }
}


} // verus!
