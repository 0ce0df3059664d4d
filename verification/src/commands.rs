//! The plugin's commands: each takes its request and answers with the native
//! calls to make, or with the error to report.
use vstd::prelude::*;

use crate::error::Error;
use crate::models::{
    NewWorkletRequest, OptimizeForMemoryRequest, ReadRequest, ResumeRequest, StartBytesRequest,
    StartFileRequest, StartUTF8Request, SuspendRequest, TerminateRequest, UpdateRequest,
    WakeupRequest,
};
use crate::plugin::BareKit;
use crate::worklet::{BareKitWorklet, WorkletOp, WorkletSource};

verus! {

/// Switches memory optimisation; on `Ok` the caller makes the switch.
pub fn bare_optimize_for_memory(kit: &BareKit, payload: OptimizeForMemoryRequest) -> (r: Result<
    (),
    Error,
>)
    ensures
        r is Ok <==> kit.last_issued() == 0,
        r is Err ==> r == Err::<(), Error>(Error::WorkletsAlreadyCreated),
{
    kit.optimize_for_memory(payload.enabled)
}

/// Creates a worklet and answers its identifier.
pub fn bare_new_worklet(kit: &mut BareKit, payload: NewWorkletRequest) -> (res: (u8, Vec<WorkletOp>))
    requires
        old(kit).wf(),
        old(kit).last_issued() < 255,
    ensures
        final(kit).wf(),
        res.0 == old(kit).last_issued() + 1,
        final(kit).last_issued() == res.0,
        !old(kit).worklets().contains_key(res.0),
        final(kit).worklets() == old(kit).worklets().insert(
            res.0,
            BareKitWorklet { id: res.0, started: false, terminated: false, on_poll: payload.on_poll },
        ),
        res.1@ == BareKitWorklet::creation_ops(
            payload.memory_limit,
            payload.assets,
            payload.on_suspend,
            payload.on_wakeup,
            payload.on_idle,
            payload.on_resume,
        ),
{
    kit.new_worklet(
        payload.memory_limit,
        payload.assets,
        payload.on_poll,
        payload.on_suspend,
        payload.on_wakeup,
        payload.on_idle,
        payload.on_resume,
    )
}

/// Starts a worklet on a file.
pub fn bare_start_file(kit: &mut BareKit, payload: StartFileRequest) -> (r: Result<
    Vec<WorkletOp>,
    Error,
>)
    requires
        old(kit).wf(),
    ensures
        final(kit).wf(),
        final(kit).last_issued() == old(kit).last_issued(),
        match r {
            Ok(ops) => old(kit).worklets().contains_key(payload.id) && final(kit).worklets()
                == old(kit).worklets().insert(
                payload.id,
                old(kit).worklets()[payload.id].after_start(),
            ) && ops@ == old(kit).worklets()[payload.id].start_ops(
                payload.filename,
                WorkletSource::File,
                payload.args,
            ),
            Err(e) => !old(kit).worklets().contains_key(payload.id) && e == Error::NoWorklet(
                payload.id,
            ) && final(kit).worklets() == old(kit).worklets(),
        },
{
    kit.start_file(payload.id, payload.filename, payload.args)
}

/// Starts a worklet on JavaScript source text.
pub fn bare_start_utf8(kit: &mut BareKit, payload: StartUTF8Request) -> (r: Result<
    Vec<WorkletOp>,
    Error,
>)
    requires
        old(kit).wf(),
    ensures
        final(kit).wf(),
        final(kit).last_issued() == old(kit).last_issued(),
        match r {
            Ok(ops) => old(kit).worklets().contains_key(payload.id) && final(kit).worklets()
                == old(kit).worklets().insert(
                payload.id,
                old(kit).worklets()[payload.id].after_start(),
            ) && ops@ == old(kit).worklets()[payload.id].start_ops(
                payload.filename,
                WorkletSource::Utf8(payload.source),
                payload.args,
            ),
            Err(e) => !old(kit).worklets().contains_key(payload.id) && e == Error::NoWorklet(
                payload.id,
            ) && final(kit).worklets() == old(kit).worklets(),
        },
{
    kit.start_utf8(payload.id, payload.filename, payload.source, payload.args)
}

/// Starts a worklet on source bytes.
pub fn bare_start_bytes(kit: &mut BareKit, payload: StartBytesRequest) -> (r: Result<
    Vec<WorkletOp>,
    Error,
>)
    requires
        old(kit).wf(),
    ensures
        final(kit).wf(),
        final(kit).last_issued() == old(kit).last_issued(),
        match r {
            Ok(ops) => old(kit).worklets().contains_key(payload.id) && final(kit).worklets()
                == old(kit).worklets().insert(
                payload.id,
                old(kit).worklets()[payload.id].after_start(),
            ) && ops@ == old(kit).worklets()[payload.id].start_ops(
                payload.filename,
                WorkletSource::Bytes(payload.source),
                payload.args,
            ),
            Err(e) => !old(kit).worklets().contains_key(payload.id) && e == Error::NoWorklet(
                payload.id,
            ) && final(kit).worklets() == old(kit).worklets(),
        },
{
    kit.start_bytes(payload.id, payload.filename, payload.source, payload.args)
}

/// Reads from a worklet's IPC.
pub fn bare_read(kit: &BareKit, payload: ReadRequest) -> (r: Result<Vec<WorkletOp>, Error>)
    ensures
        kit.answers(payload.id, r, kit.worklets()[payload.id].read_ops()),
{
    kit.read(payload.id)
}

/// Writes to a worklet's IPC: `id` and `data` come from the write payload.
pub fn bare_write(kit: &BareKit, id: u8, data: Option<Vec<u8>>) -> (r: Result<
    Vec<WorkletOp>,
    Error,
>)
    ensures
        kit.answers(id, r, seq![WorkletOp::Write { data }]),
{
    kit.write(id, data)
}

/// Changes the readiness a worklet's IPC poll waits for.
pub fn bare_update(kit: &BareKit, payload: UpdateRequest) -> (r: Result<Vec<WorkletOp>, Error>)
    ensures
        kit.answers(
            payload.id,
            r,
            kit.worklets()[payload.id].update_ops(payload.readable, payload.writable),
        ),
{
    kit.update(payload.id, payload.readable, payload.writable)
}

/// Suspends a worklet.
pub fn bare_suspend(kit: &BareKit, payload: SuspendRequest) -> (r: Result<Vec<WorkletOp>, Error>)
    ensures
        kit.answers(payload.id, r, seq![WorkletOp::Suspend { linger: payload.linger }]),
{
    kit.suspend(payload.id, payload.linger)
}

/// Resumes a worklet.
pub fn bare_resume(kit: &BareKit, payload: ResumeRequest) -> (r: Result<Vec<WorkletOp>, Error>)
    ensures
        kit.answers(payload.id, r, seq![WorkletOp::Resume]),
{
    kit.resume(payload.id)
}

/// Wakes a suspended worklet.
pub fn bare_wakeup(kit: &BareKit, payload: WakeupRequest) -> (r: Result<Vec<WorkletOp>, Error>)
    ensures
        kit.answers(payload.id, r, seq![WorkletOp::Wakeup { deadline: payload.deadline }]),
{
    kit.wakeup(payload.id, payload.deadline)
}

/// Terminates a worklet.
pub fn bare_terminate(kit: &mut BareKit, payload: TerminateRequest) -> (r: Result<
    Vec<WorkletOp>,
    Error,
>)
    requires
        old(kit).wf(),
    ensures
        final(kit).wf(),
        final(kit).last_issued() == old(kit).last_issued(),
        match r {
            Ok(ops) => old(kit).worklets().contains_key(payload.id) && final(kit).worklets()
                == old(kit).worklets().insert(
                payload.id,
                old(kit).worklets()[payload.id].after_terminate(),
            ) && ops@ == old(kit).worklets()[payload.id].terminate_ops(),
            Err(e) => !old(kit).worklets().contains_key(payload.id) && e == Error::NoWorklet(
                payload.id,
            ) && final(kit).worklets() == old(kit).worklets(),
        },
{
    kit.terminate(payload.id)
}

} // verus!
