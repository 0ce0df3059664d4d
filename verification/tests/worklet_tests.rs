use tauri_plugin_bare_kit::plugin::BareKit;
use tauri_plugin_bare_kit::script::{event_script, suspend_script};
use tauri_plugin_bare_kit::worklet::{BareKitWorklet, WorkletOp, WorkletSource};

/// Suspend and resume of a started worklet: the calls they lead to and the
/// scripts their listeners evaluate (the native runtime is not linked here).
#[test]
fn suspend_resume() {
    let mut kit = BareKit::new();
    let (id, ops) = kit.new_worklet(0, None, 1, 2, 3, 4, 5);
    assert_eq!(id, 1);
    assert!(ops.contains(&WorkletOp::OnSuspend { callback: 2 }));
    assert!(ops.contains(&WorkletOp::OnResume { callback: 5 }));

    let ops = kit
        .start_utf8(
            id,
            "/app.js".into(),
            "console.log('Hello, World!')".into(),
            vec![],
        )
        .unwrap();
    assert_eq!(
        ops[0],
        WorkletOp::Start {
            filename: "/app.js".to_string(),
            source: WorkletSource::Utf8("console.log('Hello, World!')".to_string()),
            args: vec![],
        }
    );

    assert_eq!(kit.suspend(id, 10).unwrap(), vec![WorkletOp::Suspend { linger: 10 }]);
    assert_eq!(
        suspend_script(2, 10),
        "window.__TAURI_INTERNALS__.runCallback(2, { linger: 10 })"
    );
    assert_eq!(kit.resume(id).unwrap(), vec![WorkletOp::Resume]);
    assert_eq!(event_script(5), "window.__TAURI_INTERNALS__.runCallback(5)");

    assert_eq!(
        kit.terminate(id).unwrap(),
        vec![
            WorkletOp::Terminate,
            WorkletOp::DestroyPoll,
            WorkletOp::DestroyIpc,
            WorkletOp::Destroy
        ]
    );
}

fn fresh(id: u8) -> BareKitWorklet {
    BareKitWorklet::new(id, 1024, Some("/assets".to_string()), 9, 1, 2, 3, 4).0
}

#[test]
fn new_worklet_creates_and_registers_listeners() {
    let (w, ops) = BareKitWorklet::new(3, 1024, Some("/assets".to_string()), 9, 1, 2, 3, 4);
    assert_eq!(
        w,
        BareKitWorklet { id: 3, started: false, terminated: false, on_poll: 9 }
    );
    assert_eq!(
        ops,
        vec![
            WorkletOp::Create { memory_limit: 1024, assets: Some("/assets".to_string()) },
            WorkletOp::OnSuspend { callback: 1 },
            WorkletOp::OnWakeup { callback: 2 },
            WorkletOp::OnIdle { callback: 3 },
            WorkletOp::OnResume { callback: 4 },
        ]
    );
}

#[test]
fn start_opens_ipc_once() {
    let mut w = fresh(1);
    let ops = w.start("/app.bundle".to_string(), WorkletSource::File, vec!["--x".to_string()]);
    assert_eq!(
        ops,
        vec![
            WorkletOp::Start {
                filename: "/app.bundle".to_string(),
                source: WorkletSource::File,
                args: vec!["--x".to_string()],
            },
            WorkletOp::OpenIpc,
            WorkletOp::OpenPoll,
        ]
    );
    assert!(w.started);
    let again = w.start("/other.bundle".to_string(), WorkletSource::Bytes(vec![1]), vec![]);
    assert!(again.is_empty());
}

#[test]
fn read_only_on_running_worklet() {
    let mut w = fresh(1);
    assert!(w.read().is_empty());
    w.start("/a.bundle".to_string(), WorkletSource::File, vec![]);
    assert_eq!(w.read(), vec![WorkletOp::Read]);
    w.terminate();
    assert!(w.read().is_empty());
}

#[test]
fn update_polls_for_requested_events() {
    let w = fresh(1);
    assert_eq!(w.update(true, false), vec![WorkletOp::PollStart { events: 1, callback: 9 }]);
    assert_eq!(w.update(false, true), vec![WorkletOp::PollStart { events: 2, callback: 9 }]);
    assert_eq!(w.update(true, true), vec![WorkletOp::PollStart { events: 3, callback: 9 }]);
    assert_eq!(w.update(false, false), vec![WorkletOp::PollStop]);
}

#[test]
fn terminated_worklet_is_inert() {
    let mut w = fresh(1);
    assert_eq!(w.terminate(), vec![WorkletOp::Destroy]);
    assert!(w.terminated);
    assert!(w.terminate().is_empty());
    assert!(w.start("/a.bundle".to_string(), WorkletSource::File, vec![]).is_empty());
    assert!(!w.started);
    assert!(w.update(true, true).is_empty());
}

#[test]
fn write_suspend_resume_wakeup_always_call() {
    let mut w = fresh(1);
    w.terminate();
    assert_eq!(w.write(None), vec![WorkletOp::Write { data: None }]);
    assert_eq!(w.write(Some(vec![7])), vec![WorkletOp::Write { data: Some(vec![7]) }]);
    assert_eq!(w.suspend(-5), vec![WorkletOp::Suspend { linger: -5 }]);
    assert_eq!(w.resume(), vec![WorkletOp::Resume]);
    assert_eq!(w.wakeup(250), vec![WorkletOp::Wakeup { deadline: 250 }]);
}
