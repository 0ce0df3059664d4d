//! The plugin's table of worklets: identifiers, lookups and the requests the
//! webview sends for a worklet.
use std::collections::HashMap;
use vstd::prelude::*;

use crate::error::Error;
use crate::worklet::{BareKitWorklet, WorkletOp, WorkletSource};

verus! {

broadcast use {
    vstd::std_specs::hash::group_hash_axioms,
    vstd::std_specs::hash::axiom_u8_obeys_hash_table_key_model,
    vstd::std_specs::hash::axiom_random_state_builds_valid_hashers,
};

/// The plugin state as the specification sees it.
pub struct TableView {
    /// The last identifier given out (0 before the first).
    pub last: u8,
    /// The worklets, by identifier.
    pub worklets: Map<u8, BareKitWorklet>,
}

impl TableView {
    /// Every worklet is filed under its own identifier, and that identifier
    /// was given out: it lies between 1 and the last identifier given out.
    pub open spec fn wf(self) -> bool {
        forall|k: u8| #[trigger]
            self.worklets.contains_key(k) ==> 1 <= k <= self.last && self.worklets[k].id == k
    }

    /// The identifier the next worklet gets.
    pub open spec fn next_id(self) -> u8 {
        (self.last + 1) as u8
    }

    /// After a new worklet was created with poll callback `on_poll`.
    pub open spec fn after_new(self, on_poll: u32) -> TableView {
        TableView {
            last: self.next_id(),
            worklets: self.worklets.insert(
                self.next_id(),
                BareKitWorklet { id: self.next_id(), started: false, terminated: false, on_poll },
            ),
        }
    }

    /// After a start request for worklet `id`.
    pub open spec fn after_start(self, id: u8) -> TableView {
        if self.worklets.contains_key(id) {
            TableView { worklets: self.worklets.insert(id, self.worklets[id].after_start()), ..self }
        } else {
            self
        }
    }

    /// After a terminate request for worklet `id`.
    pub open spec fn after_terminate(self, id: u8) -> TableView {
        if self.worklets.contains_key(id) {
            TableView {
                worklets: self.worklets.insert(id, self.worklets[id].after_terminate()),
                ..self
            }
        } else {
            self
        }
    }

    /// After an invalidation.
    pub open spec fn after_invalidate(self) -> TableView {
        TableView { last: self.last, worklets: Map::empty() }
    }
}

/// A request on the plugin state, as far as it matters to the table.
pub enum TableRequest {
    /// `new_worklet` with the given poll callback.
    New { on_poll: u32 },
    /// `start_file`, `start_utf8` or `start_bytes` on worklet `id`.
    Start { id: u8 },
    /// `terminate` on worklet `id`.
    Terminate { id: u8 },
    /// `invalidate`.
    Invalidate,
    /// Any request that leaves the table as it is: `optimize_for_memory`,
    /// `read`, `write`, `update`, `suspend`, `resume`, `wakeup`.
    Other,
}

/// The table after one request.
pub open spec fn apply(s: TableView, r: TableRequest) -> TableView {
    match r {
        TableRequest::New { on_poll } => s.after_new(on_poll),
        TableRequest::Start { id } => s.after_start(id),
        TableRequest::Terminate { id } => s.after_terminate(id),
        TableRequest::Invalidate => s.after_invalidate(),
        TableRequest::Other => s,
    }
}

/// The table after the requests `rs`, in order.
pub open spec fn run(s: TableView, rs: Seq<TableRequest>) -> TableView
    decreases rs.len(),
{
    if rs.len() == 0 {
        s
    } else {
        run(apply(s, rs[0]), rs.drop_first())
    }
}

/// How many of the requests `rs` create a worklet.
pub open spec fn new_count(rs: Seq<TableRequest>) -> nat
    decreases rs.len(),
{
    if rs.len() == 0 {
        0
    } else {
        (if rs[0] is New {
            1nat
        } else {
            0nat
        }) + new_count(rs.drop_first())
    }
}

/// The identifiers the creating requests among `rs` return, in order.
pub open spec fn issued(s: TableView, rs: Seq<TableRequest>) -> Seq<u8>
    decreases rs.len(),
{
    if rs.len() == 0 {
        Seq::empty()
    } else if rs[0] is New {
        seq![s.next_id()] + issued(apply(s, rs[0]), rs.drop_first())
    } else {
        issued(apply(s, rs[0]), rs.drop_first())
    }
}

/// Each creating request among `rs` files its worklet under an identifier
/// that no worklet in the table has at that moment.
pub open spec fn creations_fresh(s: TableView, rs: Seq<TableRequest>) -> bool
    decreases rs.len(),
{
    rs.len() == 0 || {
        &&& (rs[0] is New ==> !s.worklets.contains_key(s.next_id()))
        &&& creations_fresh(apply(s, rs[0]), rs.drop_first())
    }
}

/// The plugin state: the last identifier given out and the worklets that
/// have not been invalidated, by identifier.
pub struct BareKit {
    id: u8,
    worklets: HashMap<u8, BareKitWorklet>,
}

impl BareKit {
    /// The last identifier given to a worklet (0 before the first).
    pub closed spec fn last_issued(&self) -> u8 {
        self.id
    }

    /// The worklets, by identifier.
    pub closed spec fn worklets(&self) -> Map<u8, BareKitWorklet> {
        self.worklets@
    }

    /// The state as the specification sees it.
    pub closed spec fn table(&self) -> TableView {
        TableView { last: self.id, worklets: self.worklets@ }
    }

    /// Every worklet is filed under its own identifier, and that identifier
    /// was given out: it lies between 1 and the last identifier given out.
    pub closed spec fn wf(&self) -> bool {
        forall|k: u8| #[trigger]
            self.worklets@.contains_key(k) ==> 1 <= k <= self.id && self.worklets@[k].id == k
    }

    /// The table view holds the last identifier, the worklets and the
    /// well-formedness of the state.
    pub proof fn lemma_table(&self)
        ensures
            self.table().last == self.last_issued(),
            self.table().worklets == self.worklets(),
            self.table().wf() == self.wf(),
    {
        if self.wf() {
            assert forall|k: u8| #[trigger] self.table().worklets.contains_key(k) implies 1 <= k
                <= self.table().last && self.table().worklets[k].id == k by {
                assert(self.worklets@.contains_key(k));
            }
        }
        if self.table().wf() {
            assert forall|k: u8| #[trigger] self.worklets@.contains_key(k) implies 1 <= k
                <= self.id && self.worklets@[k].id == k by {
                assert(self.table().worklets.contains_key(k));
            }
        }
    }

    /// The outcome of a request on the worklet `id` that leaves the worklet
    /// as it is: the calls `ops` if it exists, `NoWorklet` otherwise.
    pub open spec fn answers(&self, id: u8, r: Result<Vec<WorkletOp>, Error>, ops: Seq<WorkletOp>) -> bool {
        match r {
            Ok(v) => self.worklets().contains_key(id) && v@ == ops,
            Err(e) => !self.worklets().contains_key(id) && e == Error::NoWorklet(id),
        }
    }

    /// A plugin without worklets.
    pub fn new() -> (kit: BareKit)
        ensures
            kit.wf(),
            kit.last_issued() == 0,
            kit.worklets() == Map::<u8, BareKitWorklet>::empty(),
    {
        BareKit { id: 0, worklets: HashMap::new() }
    }

    /// The last identifier given to a worklet (0 before the first).
    pub fn last_id(&self) -> (id: u8)
        ensures
            id == self.last_issued(),
    {
        self.id
    }

    /// The worklet with identifier `id`, if there is one.
    pub fn worklet(&self, id: u8) -> (w: Option<BareKitWorklet>)
        ensures
            w == (if self.worklets().contains_key(id) {
                Some(self.worklets()[id])
            } else {
                None
            }),
    {
        match self.worklets.get(&id) {
            Some(w) => Some(*w),
            None => None,
        }
    }

    /// Memory optimisation may only be switched before the first worklet is
    /// created; on `Ok` the caller switches it.
    pub fn optimize_for_memory(&self, enabled: bool) -> (r: Result<(), Error>)
        ensures
            r is Ok <==> self.last_issued() == 0,
            r is Err ==> r == Err::<(), Error>(Error::WorkletsAlreadyCreated),
    {
        if self.id > 0 {
            Err(Error::WorkletsAlreadyCreated)
        } else {
            Ok(())
        }
    }

    /// Terminates every worklet and forgets them all. The result holds, once
    /// for each worklet and in increasing order of identifiers, the calls
    /// that terminate it. Identifiers are not given out again.
    pub fn invalidate(&mut self) -> (r: Vec<(u8, Vec<WorkletOp>)>)
        requires
            old(self).wf(),
        ensures
            final(self).wf(),
            final(self).last_issued() == old(self).last_issued(),
            final(self).worklets() == Map::<u8, BareKitWorklet>::empty(),
            final(self).table() == old(self).table().after_invalidate(),
            forall|i: int|
                0 <= i < r@.len() ==> old(self).worklets().contains_key(#[trigger] r@[i].0)
                    && r@[i].1@ == old(self).worklets()[r@[i].0].terminate_ops(),
            forall|i: int, j: int| 0 <= i < j < r@.len() ==> r@[i].0 < r@[j].0,
            forall|k: u8|
                old(self).worklets().contains_key(k) ==> exists|i: int|
                    0 <= i < r@.len() && #[trigger] r@[i].0 == k,
    {
        let mut r: Vec<(u8, Vec<WorkletOp>)> = Vec::new();
        let last = self.id;
        let mut k: u16 = 1;
        let ghost before = self.worklets@;
        while k <= last as u16
            invariant
                last == self.id,
                self.worklets@ == before,
                self.wf(),
                1 <= k <= last + 1,
                forall|i: int|
                    0 <= i < r@.len() ==> before.contains_key(#[trigger] r@[i].0)
                        && r@[i].1@ == before[r@[i].0].terminate_ops() && r@[i].0 < k,
                forall|i: int, j: int| 0 <= i < j < r@.len() ==> r@[i].0 < r@[j].0,
                forall|m: u8|
                    before.contains_key(m) && m < k ==> exists|i: int|
                        0 <= i < r@.len() && #[trigger] r@[i].0 == m,
            decreases 256 - k,
        {
            let key = k as u8;
            let ghost r_before = r@;
            let found = self.worklets.get(&key);
            match found {
                Some(w) => {
                    let mut w = *w;
                    let ops = w.terminate();
                    r.push((key, ops));
                    proof {
                        assert(r@[r@.len() - 1].0 == key);
                    }
                },
                None => {},
            }
            proof {
                assert forall|m: u8| before.contains_key(m) && m < k + 1 implies exists|i: int|
                    0 <= i < r@.len() && #[trigger] r@[i].0 == m by {
                    if m == key {
                        assert(r@[r@.len() - 1].0 == m);
                    } else {
                        let i = choose|i: int| 0 <= i < r_before.len() && #[trigger] r_before[i].0 == m;
                        assert(r@[i] == r_before[i]);
                    }
                }
            }
            k = k + 1;
        }
        self.worklets.clear();
        r
    }

    /// Creates a worklet under the next identifier. The result holds the new
    /// identifier and the calls that create the worklet and register its
    /// listeners.
    pub fn new_worklet(
        &mut self,
        memory_limit: usize,
        assets: Option<String>,
        on_poll: u32,
        on_suspend: u32,
        on_wakeup: u32,
        on_idle: u32,
        on_resume: u32,
    ) -> (res: (u8, Vec<WorkletOp>))
        requires
            old(self).wf(),
            old(self).last_issued() < 255,
        ensures
            final(self).wf(),
            final(self).table() == old(self).table().after_new(on_poll),
            res.0 == old(self).table().next_id(),
            res.0 == old(self).last_issued() + 1,
            final(self).last_issued() == res.0,
            !old(self).worklets().contains_key(res.0),
            final(self).worklets() == old(self).worklets().insert(
                res.0,
                BareKitWorklet { id: res.0, started: false, terminated: false, on_poll },
            ),
            res.1@ == BareKitWorklet::creation_ops(
                memory_limit,
                assets,
                on_suspend,
                on_wakeup,
                on_idle,
                on_resume,
            ),
    {
        self.id = self.id + 1;
        let id = self.id;
        let (worklet, ops) = BareKitWorklet::new(
            id,
            memory_limit,
            assets,
            on_poll,
            on_suspend,
            on_wakeup,
            on_idle,
            on_resume,
        );
        self.worklets.insert(id, worklet);
        (id, ops)
    }

    /// Starts the worklet `id` on `source` (or on the file `filename`).
    fn start(&mut self, id: u8, filename: String, source: WorkletSource, args: Vec<String>) -> (r:
        Result<Vec<WorkletOp>, Error>)
        requires
            old(self).wf(),
        ensures
            final(self).wf(),
            final(self).table() == old(self).table().after_start(id),
            final(self).last_issued() == old(self).last_issued(),
            match r {
                Ok(ops) => old(self).worklets().contains_key(id) && final(self).worklets()
                    == old(self).worklets().insert(id, old(self).worklets()[id].after_start())
                    && ops@ == old(self).worklets()[id].start_ops(filename, source, args),
                Err(e) => !old(self).worklets().contains_key(id) && e == Error::NoWorklet(id)
                    && final(self).worklets() == old(self).worklets(),
            },
    {
        match self.worklets.get(&id) {
            Some(w) => {
                let mut w = *w;
                let ops = w.start(filename, source, args);
                self.worklets.insert(id, w);
                Ok(ops)
            },
            None => Err(Error::NoWorklet(id)),
        }
    }

    /// Starts the worklet `id` on the file `filename`.
    pub fn start_file(&mut self, id: u8, filename: String, args: Vec<String>) -> (r: Result<
        Vec<WorkletOp>,
        Error,
    >)
        requires
            old(self).wf(),
        ensures
            final(self).wf(),
            final(self).table() == old(self).table().after_start(id),
            final(self).last_issued() == old(self).last_issued(),
            match r {
                Ok(ops) => old(self).worklets().contains_key(id) && final(self).worklets()
                    == old(self).worklets().insert(id, old(self).worklets()[id].after_start())
                    && ops@ == old(self).worklets()[id].start_ops(
                    filename,
                    WorkletSource::File,
                    args,
                ),
                Err(e) => !old(self).worklets().contains_key(id) && e == Error::NoWorklet(id)
                    && final(self).worklets() == old(self).worklets(),
            },
    {
        self.start(id, filename, WorkletSource::File, args)
    }

    /// Starts the worklet `id` on the JavaScript text `source`, naming it
    /// `filename`.
    pub fn start_utf8(&mut self, id: u8, filename: String, source: String, args: Vec<String>) -> (r:
        Result<Vec<WorkletOp>, Error>)
        requires
            old(self).wf(),
        ensures
            final(self).wf(),
            final(self).table() == old(self).table().after_start(id),
            final(self).last_issued() == old(self).last_issued(),
            match r {
                Ok(ops) => old(self).worklets().contains_key(id) && final(self).worklets()
                    == old(self).worklets().insert(id, old(self).worklets()[id].after_start())
                    && ops@ == old(self).worklets()[id].start_ops(
                    filename,
                    WorkletSource::Utf8(source),
                    args,
                ),
                Err(e) => !old(self).worklets().contains_key(id) && e == Error::NoWorklet(id)
                    && final(self).worklets() == old(self).worklets(),
            },
    {
        self.start(id, filename, WorkletSource::Utf8(source), args)
    }

    /// Starts the worklet `id` on the bytes `source`, naming it `filename`.
    pub fn start_bytes(&mut self, id: u8, filename: String, source: Vec<u8>, args: Vec<String>) -> (r:
        Result<Vec<WorkletOp>, Error>)
        requires
            old(self).wf(),
        ensures
            final(self).wf(),
            final(self).table() == old(self).table().after_start(id),
            final(self).last_issued() == old(self).last_issued(),
            match r {
                Ok(ops) => old(self).worklets().contains_key(id) && final(self).worklets()
                    == old(self).worklets().insert(id, old(self).worklets()[id].after_start())
                    && ops@ == old(self).worklets()[id].start_ops(
                    filename,
                    WorkletSource::Bytes(source),
                    args,
                ),
                Err(e) => !old(self).worklets().contains_key(id) && e == Error::NoWorklet(id)
                    && final(self).worklets() == old(self).worklets(),
            },
    {
        self.start(id, filename, WorkletSource::Bytes(source), args)
    }

    /// Reads from the IPC of the worklet `id`: the result holds the read to
    /// make, or nothing when the worklet is not running (there is nothing to
    /// read).
    pub fn read(&self, id: u8) -> (r: Result<Vec<WorkletOp>, Error>)
        ensures
            self.answers(id, r, self.worklets()[id].read_ops()),
    {
        match self.worklets.get(&id) {
            Some(w) => Ok(w.read()),
            None => Err(Error::NoWorklet(id)),
        }
    }

    /// Writes `data` to the IPC of the worklet `id`.
    pub fn write(&self, id: u8, data: Option<Vec<u8>>) -> (r: Result<Vec<WorkletOp>, Error>)
        ensures
            self.answers(id, r, seq![WorkletOp::Write { data }]),
    {
        match self.worklets.get(&id) {
            Some(w) => Ok(w.write(data)),
            None => Err(Error::NoWorklet(id)),
        }
    }

    /// Changes which readiness the poll of the worklet `id` waits for.
    pub fn update(&self, id: u8, readable: bool, writable: bool) -> (r: Result<
        Vec<WorkletOp>,
        Error,
    >)
        ensures
            self.answers(id, r, self.worklets()[id].update_ops(readable, writable)),
    {
        match self.worklets.get(&id) {
            Some(w) => Ok(w.update(readable, writable)),
            None => Err(Error::NoWorklet(id)),
        }
    }

    /// Suspends the worklet `id`.
    pub fn suspend(&self, id: u8, linger: i32) -> (r: Result<Vec<WorkletOp>, Error>)
        ensures
            self.answers(id, r, seq![WorkletOp::Suspend { linger }]),
    {
        match self.worklets.get(&id) {
            Some(w) => Ok(w.suspend(linger)),
            None => Err(Error::NoWorklet(id)),
        }
    }

    /// Resumes the worklet `id`.
    pub fn resume(&self, id: u8) -> (r: Result<Vec<WorkletOp>, Error>)
        ensures
            self.answers(id, r, seq![WorkletOp::Resume]),
    {
        match self.worklets.get(&id) {
            Some(w) => Ok(w.resume()),
            None => Err(Error::NoWorklet(id)),
        }
    }

    /// Wakes the worklet `id` for `deadline` milliseconds.
    pub fn wakeup(&self, id: u8, deadline: i32) -> (r: Result<Vec<WorkletOp>, Error>)
        ensures
            self.answers(id, r, seq![WorkletOp::Wakeup { deadline }]),
    {
        match self.worklets.get(&id) {
            Some(w) => Ok(w.wakeup(deadline)),
            None => Err(Error::NoWorklet(id)),
        }
    }

    /// Terminates the worklet `id`. The worklet stays in the table, marked
    /// terminated.
    pub fn terminate(&mut self, id: u8) -> (r: Result<Vec<WorkletOp>, Error>)
        requires
            old(self).wf(),
        ensures
            final(self).wf(),
            final(self).table() == old(self).table().after_terminate(id),
            final(self).last_issued() == old(self).last_issued(),
            match r {
                Ok(ops) => old(self).worklets().contains_key(id) && final(self).worklets()
                    == old(self).worklets().insert(id, old(self).worklets()[id].after_terminate())
                    && ops@ == old(self).worklets()[id].terminate_ops(),
                Err(e) => !old(self).worklets().contains_key(id) && e == Error::NoWorklet(id)
                    && final(self).worklets() == old(self).worklets(),
            },
    {
        match self.worklets.get(&id) {
            Some(w) => {
                let mut w = *w;
                let ops = w.terminate();
                self.worklets.insert(id, w);
                Ok(ops)
            },
            None => Err(Error::NoWorklet(id)),
        }
    }
}

proof fn lemma_apply_step(s: TableView, r: TableRequest)
    requires
        s.wf(),
        r is New ==> s.last < 255,
    ensures
        apply(s, r).wf(),
        apply(s, r).last == s.last + (if r is New {
            1int
        } else {
            0int
        }),
        r is New ==> !s.worklets.contains_key(s.next_id()),
{
    let t = apply(s, r);
    assert forall|k: u8| #[trigger] t.worklets.contains_key(k) implies 1 <= k <= t.last
        && t.worklets[k].id == k by {
        if s.worklets.contains_key(k) {
            assert(1 <= k <= s.last && s.worklets[k].id == k);
        }
    }
}

/// Identifiers are given out as 1, 2, 3, ... in the order of the creating
/// requests: whatever other requests come between them (starts,
/// terminations, invalidations, queries), the creating requests among `rs`
/// get the identifiers after the last one given out, one by one, each is
/// filed under an identifier no worklet has at that moment (so no worklet is
/// ever replaced and no identifier is reused), and the table stays
/// well-formed. The requests are limited to those the identifier space
/// allows: a creation needs the last identifier to be below 255.
pub proof fn lemma_identifiers_issued_in_order(s: TableView, rs: Seq<TableRequest>)
    requires
        s.wf(),
        s.last + new_count(rs) <= 255,
    ensures
        run(s, rs).wf(),
        run(s, rs).last == s.last + new_count(rs),
        issued(s, rs).len() == new_count(rs),
        forall|i: int| 0 <= i < issued(s, rs).len() ==> #[trigger] issued(s, rs)[i] == s.last + 1 + i,
        creations_fresh(s, rs),
    decreases rs.len(),
{
    if rs.len() > 0 {
        let r = rs[0];
        let rest = rs.drop_first();
        lemma_apply_step(s, r);
        let t = apply(s, r);
        lemma_identifiers_issued_in_order(t, rest);
        if r is New {
            assert forall|i: int| 0 <= i < issued(s, rs).len() implies #[trigger] issued(s, rs)[i]
                == s.last + 1 + i by {
                if i > 0 {
                    assert(issued(s, rs)[i] == issued(t, rest)[i - 1]);
                }
            }
        }
    }
}

/// From a fresh plugin, the creating requests among `rs` get the
/// identifiers 1, 2, ..., n in order.
pub proof fn lemma_fresh_plugin_issues_one_to_n(rs: Seq<TableRequest>)
    requires
        new_count(rs) <= 255,
    ensures
        ({
            let s = TableView { last: 0, worklets: Map::empty() };
            &&& issued(s, rs).len() == new_count(rs)
            &&& forall|i: int| 0 <= i < issued(s, rs).len() ==> #[trigger] issued(s, rs)[i] == i + 1
            &&& creations_fresh(s, rs)
        }),
{
    let s = TableView { last: 0, worklets: Map::empty() };
    lemma_identifiers_issued_in_order(s, rs);
}

/// No request lowers the last identifier given out. Since memory
/// optimisation is allowed exactly while that identifier is 0, once a
/// worklet has been created it is refused in every later state, even after
/// all worklets were terminated or invalidated.
pub proof fn lemma_optimize_refused_once_created(s: TableView, rs: Seq<TableRequest>)
    requires
        s.wf(),
        s.last + new_count(rs) <= 255,
    ensures
        run(s, rs).last >= s.last,
        s.last > 0 ==> run(s, rs).last > 0,
{
    lemma_identifiers_issued_in_order(s, rs);
}

/// Every identifier in the table was given out already, so the identifier
/// the next worklet gets (one more than the last one given out) is not in
/// use; since no request lowers the last identifier, not even invalidation,
/// an identifier is never given out twice.
pub proof fn lemma_next_id_is_fresh(kit: BareKit, k: u8)
    requires
        kit.wf(),
        kit.worklets().contains_key(k),
    ensures
        1 <= k <= kit.last_issued(),
        k != kit.last_issued() + 1,
        kit.worklets()[k].id == k,
{
}


} // verus!
