use tauri_plugin_bare_kit::commands::{
    bare_new_worklet, bare_optimize_for_memory, bare_read, bare_start_bytes, bare_start_file,
    bare_terminate, bare_update, bare_wakeup, bare_write,
};
use tauri_plugin_bare_kit::error::Error;
use tauri_plugin_bare_kit::models::{
    NewWorkletRequest, OptimizeForMemoryRequest, ReadRequest, StartBytesRequest,
    StartFileRequest, TerminateRequest, UpdateRequest, WakeupRequest,
};
use tauri_plugin_bare_kit::plugin::BareKit;
use tauri_plugin_bare_kit::worklet::{BareKitWorklet, WorkletOp, WorkletSource};

fn new_request(on_poll: u32) -> NewWorkletRequest {
    NewWorkletRequest {
        memory_limit: 0,
        assets: None,
        on_poll,
        on_suspend: 11,
        on_wakeup: 12,
        on_idle: 13,
        on_resume: 14,
    }
}

#[test]
fn ids_count_up_from_one() {
    let mut kit = BareKit::new();
    assert_eq!(kit.last_id(), 0);
    assert_eq!(bare_new_worklet(&mut kit, new_request(1)).0, 1);
    assert_eq!(bare_new_worklet(&mut kit, new_request(2)).0, 2);
    assert_eq!(kit.last_id(), 2);
    assert_eq!(
        kit.worklet(2),
        Some(BareKitWorklet { id: 2, started: false, terminated: false, on_poll: 2 })
    );
}

#[test]
fn unknown_id_is_an_error() {
    let mut kit = BareKit::new();
    let r = bare_start_file(
        &mut kit,
        StartFileRequest { id: 4, filename: "/app.bundle".to_string(), args: vec![] },
    );
    assert_eq!(r, Err(Error::NoWorklet(4)));
    assert_eq!(bare_read(&kit, ReadRequest { id: 4 }), Err(Error::NoWorklet(4)));
    assert_eq!(bare_write(&kit, 4, None), Err(Error::NoWorklet(4)));
    assert_eq!(
        bare_wakeup(&kit, WakeupRequest { id: 4, deadline: 1 }),
        Err(Error::NoWorklet(4))
    );
    assert_eq!(bare_terminate(&mut kit, TerminateRequest { id: 4 }), Err(Error::NoWorklet(4)));
    assert_eq!(Error::NoWorklet(4).message(), "No worklet found for ID 4");
}

#[test]
fn optimize_only_before_first_worklet() {
    let mut kit = BareKit::new();
    assert_eq!(bare_optimize_for_memory(&kit, OptimizeForMemoryRequest { enabled: true }), Ok(()));
    bare_new_worklet(&mut kit, new_request(1));
    let r = bare_optimize_for_memory(&kit, OptimizeForMemoryRequest { enabled: true });
    assert_eq!(r, Err(Error::WorkletsAlreadyCreated));
    assert_eq!(
        Error::WorkletsAlreadyCreated.message(),
        "`optimize_for_memory` must be called before any worklets are created."
    );
}

#[test]
fn optimize_refused_even_after_invalidate() {
    let mut kit = BareKit::new();
    bare_new_worklet(&mut kit, new_request(1));
    kit.invalidate();
    assert_eq!(kit.optimize_for_memory(false), Err(Error::WorkletsAlreadyCreated));
}

#[test]
fn start_bytes_then_read_and_update() {
    let mut kit = BareKit::new();
    let (id, _) = bare_new_worklet(&mut kit, new_request(7));
    assert_eq!(bare_read(&kit, ReadRequest { id }), Ok(vec![]));
    let ops = bare_start_bytes(
        &mut kit,
        StartBytesRequest { id, filename: "/app.bundle".to_string(), source: vec![1, 2], args: vec![] },
    )
    .unwrap();
    assert_eq!(ops[0], WorkletOp::Start {
        filename: "/app.bundle".to_string(),
        source: WorkletSource::Bytes(vec![1, 2]),
        args: vec![],
    });
    assert_eq!(bare_read(&kit, ReadRequest { id }), Ok(vec![WorkletOp::Read]));
    assert_eq!(
        bare_update(&kit, UpdateRequest { id, readable: true, writable: true }),
        Ok(vec![WorkletOp::PollStart { events: 3, callback: 7 }])
    );
    assert_eq!(
        bare_write(&kit, id, Some(vec![5, 6])),
        Ok(vec![WorkletOp::Write { data: Some(vec![5, 6]) }])
    );
}

#[test]
fn terminate_keeps_worklet_marked() {
    let mut kit = BareKit::new();
    let (id, _) = bare_new_worklet(&mut kit, new_request(7));
    assert_eq!(bare_terminate(&mut kit, TerminateRequest { id }), Ok(vec![WorkletOp::Destroy]));
    assert_eq!(bare_terminate(&mut kit, TerminateRequest { id }), Ok(vec![]));
    assert!(kit.worklet(id).unwrap().terminated);
}

#[test]
fn invalidate_terminates_each_worklet_once_and_never_reuses_ids() {
    let mut kit = BareKit::new();
    let (a, _) = bare_new_worklet(&mut kit, new_request(1));
    let (b, _) = bare_new_worklet(&mut kit, new_request(2));
    let (c, _) = bare_new_worklet(&mut kit, new_request(3));
    bare_start_file(&mut kit, StartFileRequest { id: b, filename: "/b".to_string(), args: vec![] })
        .unwrap();
    bare_terminate(&mut kit, TerminateRequest { id: c }).unwrap();
    let all = kit.invalidate();
    assert_eq!(
        all,
        vec![
            (a, vec![WorkletOp::Destroy]),
            (
                b,
                vec![
                    WorkletOp::Terminate,
                    WorkletOp::DestroyPoll,
                    WorkletOp::DestroyIpc,
                    WorkletOp::Destroy
                ]
            ),
            (c, vec![]),
        ]
    );
    assert_eq!(kit.worklet(a), None);
    assert_eq!(kit.last_id(), 3);
    assert_eq!(bare_new_worklet(&mut kit, new_request(4)).0, 4);
    assert!(kit.invalidate().len() == 1);
}

#[test]
fn ids_follow_creations_across_other_requests() {
    let mut kit = BareKit::new();
    let (a, _) = bare_new_worklet(&mut kit, new_request(1));
    bare_terminate(&mut kit, TerminateRequest { id: a }).unwrap();
    kit.invalidate();
    let (b, _) = bare_new_worklet(&mut kit, new_request(2));
    kit.invalidate();
    kit.invalidate();
    let (c, _) = bare_new_worklet(&mut kit, new_request(3));
    assert_eq!((a, b, c), (1, 2, 3));
    kit.invalidate();
    assert_eq!(kit.optimize_for_memory(true), Err(Error::WorkletsAlreadyCreated));
}
