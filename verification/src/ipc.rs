//! The buffered IPC channel of a worklet: a reader that waits for data, a
//! writer whose data the channel did not take at once, and the poll that
//! must watch the channel while either waits.
use vstd::prelude::*;

use crate::events::{event_mask, poll_events};

verus! {

/// How the IPC poll must change.
#[derive(Clone, Copy, Debug, PartialEq, Eq, Structural)]
pub enum PollChange {
    /// Poll for the given events.
    Start { events: u32 },
    /// Stop polling.
    Stop,
}

/// The state of a channel as the specification sees it.
pub struct IpcView {
    /// A reader waits for data.
    pub reader_waiting: bool,
    /// A writer waits for its data to be taken.
    pub writer_waiting: bool,
    /// The part of the writer's data the channel has not taken yet.
    pub pending: Option<Seq<u8>>,
}

impl IpcView {
    /// A writer waits exactly when data is pending, and pending data is
    /// never empty.
    pub open spec fn wf(self) -> bool {
        &&& self.writer_waiting == self.pending is Some
        &&& self.pending matches Some(p) ==> p.len() > 0
    }

    /// The poll the channel needs: one that waits for what the waiting
    /// reader and writer need, or none.
    pub open spec fn poll_change(self) -> PollChange {
        if self.reader_waiting || self.writer_waiting {
            PollChange::Start { events: event_mask(self.reader_waiting, self.writer_waiting) }
        } else {
            PollChange::Stop
        }
    }

    /// After a read found no data: the reader waits.
    pub open spec fn after_read_miss(self) -> IpcView {
        IpcView { reader_waiting: true, ..self }
    }

    /// After a write of `data` of which the channel took `written` bytes:
    /// the rest, if any, is pending and the writer waits.
    pub open spec fn after_write(self, data: Seq<u8>, written: nat) -> IpcView {
        if written == data.len() {
            self
        } else {
            IpcView { writer_waiting: true, pending: Some(data.skip(written as int)), ..self }
        }
    }

    /// After data arrived while the channel was readable: no reader waits.
    pub open spec fn after_arrival(self) -> IpcView {
        IpcView { reader_waiting: false, ..self }
    }

    /// After the channel took `written` bytes of the pending data.
    pub open spec fn after_flush(self, written: nat) -> IpcView {
        match self.pending {
            Some(p) => if written == p.len() {
                IpcView {
                    writer_waiting: false,
                    pending: if self.writer_waiting {
                        None
                    } else {
                        self.pending
                    },
                    ..self
                }
            } else {
                IpcView { pending: Some(p.skip(written as int)), ..self }
            },
            None => self,
        }
    }
}

/// What a read request leads to.
#[derive(Debug, PartialEq, Eq)]
pub enum ReadStep {
    /// The data is handed to the reader at once.
    Deliver(Vec<u8>),
    /// The reader waits; the poll changes as given.
    Wait(PollChange),
}

/// What a write request leads to.
#[derive(Debug, PartialEq, Eq)]
pub enum WriteStep {
    /// The channel took all the data: the writer is told at once.
    Done,
    /// The writer waits for the rest to be taken; the poll changes as given.
    Wait(PollChange),
}

/// Data that arrived while the channel was readable.
#[derive(Debug, PartialEq, Eq)]
pub struct Arrival {
    /// Whether a reader waited for it (data nobody waits for is dropped).
    pub to_reader: bool,
    /// The data.
    pub data: Vec<u8>,
    /// How the poll changes.
    pub poll: PollChange,
}

/// What taking pending data leads to.
#[derive(Debug, PartialEq, Eq)]
pub enum FlushStep {
    /// All pending data was taken; the writer is told if it waited, and the
    /// poll changes as given.
    Complete { to_writer: bool, poll: PollChange },
    /// Part of it was taken; the rest stays pending.
    Partial,
}

/// The state of a worklet's IPC channel.
pub struct BareIPC {
    reader_waiting: bool,
    writer_waiting: bool,
    pending: Option<Vec<u8>>,
}

impl View for BareIPC {
    type V = IpcView;

    closed spec fn view(&self) -> IpcView {
        IpcView {
            reader_waiting: self.reader_waiting,
            writer_waiting: self.writer_waiting,
            pending: match self.pending {
                Some(v) => Some(v@),
                None => None,
            },
        }
    }
}

impl BareIPC {
    /// A channel on which nobody waits.
    pub fn init() -> (ipc: BareIPC)
        ensures
            ipc@ == (IpcView { reader_waiting: false, writer_waiting: false, pending: None }),
    {
        BareIPC { reader_waiting: false, writer_waiting: false, pending: None }
    }

    /// How the poll must change for the channel as it is.
    pub fn poll_change(&self) -> (change: PollChange)
        ensures
            change == self@.poll_change(),
    {
        let events = poll_events(self.reader_waiting, self.writer_waiting);
        if events > 0 {
            PollChange::Start { events }
        } else {
            PollChange::Stop
        }
    }

    /// A read request, given what reading the channel gave (`None`: nothing
    /// to read yet).
    pub fn read(&mut self, data: Option<Vec<u8>>) -> (step: ReadStep)
        ensures
            match data {
                Some(d) => step == ReadStep::Deliver(d) && final(self)@ == old(self)@,
                None => final(self)@ == old(self)@.after_read_miss() && step == ReadStep::Wait(
                    final(self)@.poll_change(),
                ),
            },
            final(self)@ == read_step(old(self)@, IpcRead::Request(bytes_view(data))),
            data is None ==> final(self)@.reader_waiting,
            data is None ==> final(self)@.writer_waiting == old(self)@.writer_waiting,
            step matches ReadStep::Deliver(d) ==> d@ == handed(
                old(self)@,
                IpcRead::Request(bytes_view(data)),
            ),
    {
        match data {
            Some(d) => ReadStep::Deliver(d),
            None => {
                self.reader_waiting = true;
                ReadStep::Wait(self.poll_change())
            },
        }
    }

    /// A write request for `data`, of which the channel took the first
    /// `written` bytes.
    pub fn write(&mut self, data: Vec<u8>, written: usize) -> (step: WriteStep)
        requires
            written <= data@.len(),
        ensures
            final(self)@ == old(self)@.after_write(data@, written as nat),
            written == data@.len() ==> step == WriteStep::Done,
            written < data@.len() ==> step == WriteStep::Wait(final(self)@.poll_change()),
    {
        if written == data.len() {
            WriteStep::Done
        } else {
            let mut data = data;
            let ghost whole = data@;
            let rest = data.split_off(written);
            assert(rest@ =~= whole.skip(written as int));
            self.pending = Some(rest);
            self.writer_waiting = true;
            WriteStep::Wait(self.poll_change())
        }
    }

    /// The channel became readable and reading it gave `data`.
    pub fn on_readable(&mut self, data: Option<Vec<u8>>) -> (arrival: Option<Arrival>)
        ensures
            match data {
                Some(d) => final(self)@ == old(self)@.after_arrival() && arrival == Some(
                    Arrival {
                        to_reader: old(self)@.reader_waiting,
                        data: d,
                        poll: final(self)@.poll_change(),
                    },
                ),
                None => final(self)@ == old(self)@ && arrival.is_none(),
            },
            final(self)@ == read_step(old(self)@, IpcRead::Readable(bytes_view(data))),
            data is Some ==> !final(self)@.reader_waiting,
            final(self)@.writer_waiting == old(self)@.writer_waiting,
            arrival matches Some(a) ==> (a.to_reader ==> a.data@ == handed(
                old(self)@,
                IpcRead::Readable(bytes_view(data)),
            )),
    {
        match data {
            Some(d) => {
                let to_reader = self.reader_waiting;
                self.reader_waiting = false;
                let poll = self.poll_change();
                Some(Arrival { to_reader, data: d, poll })
            },
            None => None,
        }
    }

    /// The data still to be written when the channel becomes writable.
    pub fn pending(&self) -> (data: Option<&Vec<u8>>)
        ensures
            match data {
                Some(d) => self@.pending == Some(d@),
                None => self@.pending.is_none(),
            },
    {
        self.pending.as_ref()
    }

    /// The channel took `written` bytes of the pending data.
    pub fn on_flushed(&mut self, written: usize) -> (step: FlushStep)
        requires
            old(self)@.pending matches Some(p) && written <= p.len(),
        ensures
            final(self)@ == old(self)@.after_flush(written as nat),
            written == old(self)@.pending.unwrap().len() ==> step == (FlushStep::Complete {
                to_writer: old(self)@.writer_waiting,
                poll: final(self)@.poll_change(),
            }),
            written < old(self)@.pending.unwrap().len() ==> step == FlushStep::Partial,
    {
        let mut pending = self.pending.take().unwrap();
        if written == pending.len() {
            let to_writer = self.writer_waiting;
            self.writer_waiting = false;
            if !to_writer {
                self.pending = Some(pending);
            }
            let poll = self.poll_change();
            FlushStep::Complete { to_writer, poll }
        } else {
            let ghost whole = pending@;
            let rest = pending.split_off(written);
            assert(rest@ =~= whole.skip(written as int));
            self.pending = Some(rest);
            FlushStep::Partial
        }
    }
}

/// The bytes the channel took, in order, when it took `takes[0]` bytes of
/// `data`, then `takes[1]` bytes of the rest, and so on.
pub open spec fn sent(data: Seq<u8>, takes: Seq<nat>) -> Seq<u8>
    decreases takes.len(),
{
    if takes.len() == 0 {
        seq![]
    } else {
        data.take(takes[0] as int) + sent(data.skip(takes[0] as int), takes.drop_first())
    }
}

/// The bytes of `data` the channel has not taken after the takes `takes`.
pub open spec fn unsent(data: Seq<u8>, takes: Seq<nat>) -> Seq<u8>
    decreases takes.len(),
{
    if takes.len() == 0 {
        data
    } else {
        unsent(data.skip(takes[0] as int), takes.drop_first())
    }
}

/// Each take is at most what is left, and only the last take may take all
/// that is left (nothing is taken once nothing is left).
pub open spec fn takes_fit(data: Seq<u8>, takes: Seq<nat>) -> bool
    decreases takes.len(),
{
    takes.len() == 0 || {
        &&& takes[0] <= data.len()
        &&& takes[0] == data.len() ==> takes.len() == 1
        &&& takes_fit(data.skip(takes[0] as int), takes.drop_first())
    }
}

/// The channel after the pending data was taken in the takes `takes`.
pub open spec fn flush_all(s: IpcView, takes: Seq<nat>) -> IpcView
    decreases takes.len(),
{
    if takes.len() == 0 {
        s
    } else {
        flush_all(s.after_flush(takes[0]), takes.drop_first())
    }
}

/// What the channel takes, followed by what it has not taken yet, is the
/// data.
pub proof fn lemma_sent_then_unsent(data: Seq<u8>, takes: Seq<nat>)
    requires
        takes_fit(data, takes),
    ensures
        sent(data, takes) + unsent(data, takes) == data,
    decreases takes.len(),
{
    if takes.len() > 0 {
        let w = takes[0] as int;
        lemma_sent_then_unsent(data.skip(w), takes.drop_first());
        assert(data.take(w) + (sent(data.skip(w), takes.drop_first()) + unsent(
            data.skip(w),
            takes.drop_first(),
        )) =~= data);
        assert(sent(data, takes) + unsent(data, takes) =~= data.take(w) + (sent(
            data.skip(w),
            takes.drop_first(),
        ) + unsent(data.skip(w), takes.drop_first())));
    } else {
        assert(sent(data, takes) + unsent(data, takes) =~= data);
    }
}

#[verifier::spinoff_prover]
proof fn lemma_flushes(u: IpcView, p: Seq<u8>, takes: Seq<nat>)
    requires
        u.wf(),
        u.pending == Some(p),
        takes_fit(p, takes),
    ensures
        flush_all(u, takes).wf(),
        flush_all(u, takes).reader_waiting == u.reader_waiting,
        unsent(p, takes).len() > 0 ==> flush_all(u, takes).pending == Some(unsent(p, takes)),
        unsent(p, takes).len() == 0 ==> flush_all(u, takes).pending is None,
    decreases takes.len(),
{
    if takes.len() > 0 {
        let w = takes[0];
        let v = u.after_flush(w);
        assert(flush_all(u, takes) == flush_all(v, takes.drop_first()));
        assert(unsent(p, takes) == unsent(p.skip(w as int), takes.drop_first()));
        if w == p.len() {
            assert(takes.drop_first().len() == 0);
            assert(flush_all(v, takes.drop_first()) == v);
            assert(p.skip(w as int).len() == 0);
            assert(unsent(p.skip(w as int), takes.drop_first()) == p.skip(w as int));
        } else {
            lemma_flushes(v, p.skip(w as int), takes.drop_first());
        }
    } else {
        assert(unsent(p, takes) == p);
        assert(flush_all(u, takes) == u);
    }
}

/// A write made while no other write is in flight hands the channel its
/// data whole and in order: after the write took `takes[0]` bytes and each
/// later flush took the next of `takes`, the bytes taken so far followed by
/// the pending bytes are the data; the writer still waits exactly when bytes
/// remain, and nothing else about the channel changed.
pub proof fn lemma_write_delivers_in_order(s: IpcView, data: Seq<u8>, takes: Seq<nat>)
    requires
        s.wf(),
        s.pending is None,
        takes.len() >= 1,
        takes_fit(data, takes),
    ensures
        sent(data, takes) + unsent(data, takes) == data,
        flush_all(s.after_write(data, takes[0]), takes.drop_first()).wf(),
        flush_all(s.after_write(data, takes[0]), takes.drop_first()).reader_waiting
            == s.reader_waiting,
        flush_all(s.after_write(data, takes[0]), takes.drop_first()).writer_waiting == (unsent(
            data,
            takes,
        ).len() > 0),
        unsent(data, takes).len() > 0 ==> flush_all(
            s.after_write(data, takes[0]),
            takes.drop_first(),
        ).pending == Some(unsent(data, takes)),
{
    lemma_sent_then_unsent(data, takes);
    let w = takes[0];
    if w == data.len() {
        assert(takes.drop_first().len() == 0);
        assert(flush_all(s.after_write(data, w), takes.drop_first()) == s);
        assert(data.skip(w as int).len() == 0);
    } else {
        lemma_flushes(s.after_write(data, w), data.skip(w as int), takes.drop_first());
    }
}

/// An event on the reading side of a channel, with what reading the channel
/// gave (`None`: nothing to read).
pub enum IpcRead {
    /// A read request.
    Request(Option<Seq<u8>>),
    /// The poll reported the channel readable.
    Readable(Option<Seq<u8>>),
}

/// The view of an optional byte vector.
pub open spec fn bytes_view(data: Option<Vec<u8>>) -> Option<Seq<u8>> {
    match data {
        Some(d) => Some(d@),
        None => None,
    }
}

/// The channel after a reading-side event.
pub open spec fn read_step(s: IpcView, e: IpcRead) -> IpcView {
    match e {
        IpcRead::Request(Some(_)) => s,
        IpcRead::Request(None) => s.after_read_miss(),
        IpcRead::Readable(Some(_)) => s.after_arrival(),
        IpcRead::Readable(None) => s,
    }
}

/// The bytes a reading-side event hands to the reader.
pub open spec fn handed(s: IpcView, e: IpcRead) -> Seq<u8> {
    match e {
        IpcRead::Request(Some(d)) => d,
        IpcRead::Readable(Some(d)) => if s.reader_waiting {
            d
        } else {
            Seq::empty()
        },
        _ => Seq::empty(),
    }
}

/// The bytes handed to the reader over the events `es`, in order.
pub open spec fn delivered(s: IpcView, es: Seq<IpcRead>) -> Seq<u8>
    decreases es.len(),
{
    if es.len() == 0 {
        Seq::empty()
    } else {
        handed(s, es[0]) + delivered(read_step(s, es[0]), es.drop_first())
    }
}

/// The bytes read from the channel over the events `es`, in order.
pub open spec fn taken_from_channel(es: Seq<IpcRead>) -> Seq<u8>
    decreases es.len(),
{
    if es.len() == 0 {
        Seq::empty()
    } else {
        (match es[0] {
            IpcRead::Request(Some(d)) => d,
            IpcRead::Readable(Some(d)) => d,
            _ => Seq::empty(),
        }) + taken_from_channel(es.drop_first())
    }
}

/// Data only arrives on a readable event while a reader waits, that is,
/// while the poll the channel asked for watches readability.
pub open spec fn arrivals_awaited(s: IpcView, es: Seq<IpcRead>) -> bool
    decreases es.len(),
{
    es.len() == 0 || {
        &&& (es[0] matches IpcRead::Readable(Some(_)) ==> s.reader_waiting)
        &&& arrivals_awaited(read_step(s, es[0]), es.drop_first())
    }
}

/// Reads hand the reader every byte read from the channel, once and in
/// order: when data arrives only while the reader waits for it, the chunks
/// handed out concatenate to the bytes read from the channel.
pub proof fn lemma_reads_deliver_in_order(s: IpcView, es: Seq<IpcRead>)
    requires
        arrivals_awaited(s, es),
    ensures
        delivered(s, es) == taken_from_channel(es),
    decreases es.len(),
{
    if es.len() > 0 {
        lemma_reads_deliver_in_order(read_step(s, es[0]), es.drop_first());
    }
}

/// A write echoed back is read back whole: if the channel took all of
/// `data` in the takes `takes`, and what the reads then took from the channel
/// is what the channel took of the write (the worklet sends back what it
/// receives, in order), the chunks handed to the reader concatenate to the
/// data.
pub proof fn lemma_echo_read_back_whole(
    data: Seq<u8>,
    takes: Seq<nat>,
    s: IpcView,
    es: Seq<IpcRead>,
)
    requires
        takes_fit(data, takes),
        unsent(data, takes).len() == 0,
        taken_from_channel(es) == sent(data, takes),
        arrivals_awaited(s, es),
    ensures
        delivered(s, es) == data,
{
    lemma_sent_then_unsent(data, takes);
    lemma_reads_deliver_in_order(s, es);
    assert(sent(data, takes) + unsent(data, takes) =~= sent(data, takes));
}

/// A read that finds no data always leaves a reader waiting, whatever the
/// writer side, and the poll it asks for watches readability; the writer
/// side is left as it was.
pub proof fn lemma_read_miss_waits_for_data(s: IpcView)
    ensures
        read_step(s, IpcRead::Request(None)).reader_waiting,
        read_step(s, IpcRead::Request(None)).writer_waiting == s.writer_waiting,
        read_step(s, IpcRead::Request(None)).pending == s.pending,
        read_step(s, IpcRead::Request(None)).poll_change() matches PollChange::Start { events }
            && crate::events::has_readable(events as i32),
        handed(s, IpcRead::Request(None)) == Seq::<u8>::empty(),
{
    lemma_poll_matches_waiters(read_step(s, IpcRead::Request(None)));
}

/// Data that arrives on a readable event answers the waiting read once: no
/// reader waits afterwards, whatever the writer side, so a second arrival
/// is handed to nobody, and the poll no longer watches readability; the
/// writer side is left as it was.
pub proof fn lemma_arrival_answers_read_once(s: IpcView, d: Seq<u8>, e: Seq<u8>)
    ensures
        !read_step(s, IpcRead::Readable(Some(d))).reader_waiting,
        read_step(s, IpcRead::Readable(Some(d))).writer_waiting == s.writer_waiting,
        read_step(s, IpcRead::Readable(Some(d))).pending == s.pending,
        s.reader_waiting ==> handed(s, IpcRead::Readable(Some(d))) == d,
        handed(read_step(s, IpcRead::Readable(Some(d))), IpcRead::Readable(Some(e)))
            == Seq::<u8>::empty(),
        read_step(s, IpcRead::Readable(Some(d))).poll_change() matches PollChange::Start {
            events,
        } ==> !crate::events::has_readable(events as i32),
{
    lemma_poll_matches_waiters(read_step(s, IpcRead::Readable(Some(d))));
}

/// Every request and event keeps a well-formed channel well-formed.
pub proof fn lemma_steps_keep_wf(s: IpcView, data: Seq<u8>, written: nat)
    requires
        s.wf(),
    ensures
        s.after_read_miss().wf(),
        s.after_arrival().wf(),
        written <= data.len() ==> s.after_write(data, written).wf(),
        (s.pending matches Some(p) && written <= p.len()) ==> s.after_flush(written).wf(),
{
}

/// The poll stops exactly when nobody waits; otherwise it waits for exactly
/// the readiness the waiting reader and writer need.
pub proof fn lemma_poll_matches_waiters(s: IpcView)
    ensures
        s.poll_change() == PollChange::Stop <==> !s.reader_waiting && !s.writer_waiting,
        s.poll_change() matches PollChange::Start { events } ==> {
            &&& crate::events::has_readable(events as i32) == s.reader_waiting
            &&& crate::events::has_writable(events as i32) == s.writer_waiting
        },
{
    crate::events::lemma_events_round_trip(s.reader_waiting, s.writer_waiting);
}

} // verus!
