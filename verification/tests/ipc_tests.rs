use std::collections::VecDeque;

use tauri_plugin_bare_kit::events::{
    poll_events, poll_flags, read_succeeded, written_count, IPC_WOULD_BLOCK,
};
use tauri_plugin_bare_kit::ipc::{Arrival, BareIPC, FlushStep, PollChange, ReadStep, WriteStep};

/// A worklet that echoes what it receives, behind a channel that takes at
/// most `capacity` bytes per write and hands out at most `chunk` bytes per
/// read.
struct EchoWorklet {
    outgoing: VecDeque<u8>,
    capacity: usize,
    chunk: usize,
}

impl EchoWorklet {
    fn accept(&mut self, data: &[u8]) -> usize {
        let n = data.len().min(self.capacity);
        self.outgoing.extend(&data[..n]);
        n
    }

    fn read(&mut self) -> Option<Vec<u8>> {
        if self.outgoing.is_empty() {
            return None;
        }
        let n = self.outgoing.len().min(self.chunk);
        Some(self.outgoing.drain(..n).collect())
    }
}

/// The echo exchange, run on the channel state against a simulated worklet
/// that echoes what it receives (the native runtime is not linked here).
#[test]
fn ipc() {
    let mut worklet = EchoWorklet {
        outgoing: VecDeque::from(Vec::from("Hello, World!")),
        capacity: usize::MAX,
        chunk: usize::MAX,
    };
    let mut ipc = BareIPC::init();

    let first = ipc.read(worklet.read());
    let data = match first {
        ReadStep::Deliver(d) => String::from_utf8(d).unwrap(),
        ReadStep::Wait(_) => panic!("data was available"),
    };
    assert!(data == "Hello, World!");

    let reply = Vec::from("Sveikas, Pasauli!");
    let written = worklet.accept(&reply);
    assert_eq!(ipc.write(reply.clone(), written), WriteStep::Done);

    let mut quiet = EchoWorklet { outgoing: VecDeque::new(), capacity: 0, chunk: 0 };
    assert_eq!(ipc.read(quiet.read()), ReadStep::Wait(PollChange::Start { events: 1 }));

    let arrival = ipc.on_readable(worklet.read()).unwrap();
    assert_eq!(
        arrival,
        Arrival { to_reader: true, data: reply.clone(), poll: PollChange::Stop }
    );
    assert!(String::from_utf8(arrival.data).unwrap() == "Sveikas, Pasauli!");
}

/// A 4 MiB write and its echo, run on the channel state against a simulated
/// worklet that takes at most 64 KiB per write and hands out 48 KiB per read;
/// every echoed byte comes back through `BareIPC::read`.
#[test]
fn ipc_large_write() {
    let data_len = 4 * 1024 * 1024 as usize;
    let mut data: Vec<u8> = Vec::with_capacity(data_len);
    let mut seed: u32 = 0x2545_f491;
    data.resize_with(data_len, || {
        seed ^= seed << 13;
        seed ^= seed >> 17;
        seed ^= seed << 5;
        seed as u8
    });

    let mut worklet =
        EchoWorklet { outgoing: VecDeque::new(), capacity: 64 * 1024, chunk: 48 * 1024 };
    let mut ipc = BareIPC::init();

    let written = worklet.accept(&data);
    assert_eq!(
        ipc.write(data.clone(), written),
        WriteStep::Wait(PollChange::Start { events: 2 })
    );

    let mut received: Vec<u8> = Vec::new();
    loop {
        let pending = ipc.pending().expect("data is pending until the write completes").clone();
        let written = worklet.accept(&pending);
        match ipc.on_flushed(written) {
            FlushStep::Partial => {}
            FlushStep::Complete { to_writer, poll } => {
                assert!(to_writer);
                assert_eq!(poll, PollChange::Stop);
                break;
            }
        }
    }
    assert!(ipc.pending().is_none());

    while received.len() < data_len {
        match ipc.read(worklet.read()) {
            ReadStep::Deliver(chunk) => received.extend(&chunk),
            ReadStep::Wait(_) => panic!("echo is available"),
        }
    }

    assert!(data == received);
}

#[test]
fn waiting_reader_and_writer_share_the_poll() {
    let mut ipc = BareIPC::init();
    assert_eq!(ipc.poll_change(), PollChange::Stop);
    assert_eq!(ipc.read(None), ReadStep::Wait(PollChange::Start { events: 1 }));
    assert_eq!(ipc.write(vec![1, 2, 3], 1), WriteStep::Wait(PollChange::Start { events: 3 }));
    assert_eq!(ipc.pending(), Some(&vec![2, 3]));
    assert_eq!(ipc.on_flushed(1), FlushStep::Partial);
    assert_eq!(ipc.pending(), Some(&vec![3]));
    assert_eq!(
        ipc.on_flushed(1),
        FlushStep::Complete { to_writer: true, poll: PollChange::Start { events: 1 } }
    );
    assert_eq!(
        ipc.on_readable(Some(vec![9])),
        Some(Arrival { to_reader: true, data: vec![9], poll: PollChange::Stop })
    );
    assert_eq!(ipc.on_readable(None), None);
    assert_eq!(
        ipc.on_readable(Some(vec![8])),
        Some(Arrival { to_reader: false, data: vec![8], poll: PollChange::Stop })
    );
}

#[test]
fn events_and_status_codes() {
    assert_eq!(poll_events(false, false), 0);
    assert_eq!(poll_events(true, false), 1);
    assert_eq!(poll_events(false, true), 2);
    assert_eq!(poll_events(true, true), 3);
    assert_eq!(poll_flags(3), (true, true));
    assert_eq!(poll_flags(2), (false, true));
    assert_eq!(poll_flags(1), (true, false));
    assert_eq!(poll_flags(0), (false, false));
    assert!(read_succeeded(0));
    assert!(!read_succeeded(IPC_WOULD_BLOCK));
    assert_eq!(written_count(IPC_WOULD_BLOCK), 0);
    assert_eq!(written_count(12), 12);
}
