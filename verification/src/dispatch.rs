use vstd::prelude::*;

verus! {

/// One unit of work: the host at index `host` paired with the source at
/// index `source` in the run's host and source lists.
#[derive(Clone, Copy, Debug, PartialEq, Eq, Structural)]
pub struct Unit {
    pub host: usize,
    pub source: usize,
}

/// What the loop driving a run should do next.
#[derive(Clone, Copy, Debug, PartialEq, Eq, Structural)]
pub enum Action {
    /// Admit this unit: spawn its task with a clone of the producer handle.
    Dispatch(Unit),
    /// The admission limit is reached, or nothing is left to admit:
    /// await the completion of one outstanding unit.
    AwaitOne,
    /// Every unit has completed: drop the last producer handle, so the
    /// consumer observes the end of the stream.
    Close,
    /// The run is over.
    Done,
}

/// The units of one row: `(h, 0)` through `(h, ns - 1)`.
pub open spec fn row_units(h: usize, ns: usize) -> Seq<Unit>
    decreases ns,
{
    if ns == 0 {
        Seq::empty()
    } else {
        row_units(h, (ns - 1) as usize).push(Unit { host: h, source: (ns - 1) as usize })
    }
}

/// The full cross product of `nh` hosts and `ns` sources, row by row.
pub open spec fn cross_units(nh: usize, ns: usize) -> Seq<Unit>
    decreases nh,
{
    if nh == 0 {
        Seq::empty()
    } else {
        cross_units((nh - 1) as usize, ns) + row_units((nh - 1) as usize, ns)
    }
}

pub proof fn lemma_row_units(h: usize, ns: usize)
    ensures
        row_units(h, ns).len() == ns,
        forall|k: int|
            0 <= k < ns ==> row_units(h, ns)[k] == (Unit { host: h, source: k as usize }),
    decreases ns,
{
    if ns > 0 {
        lemma_row_units(h, (ns - 1) as usize);
    }
}

/// The cross product holds exactly the units whose indices are in range.
pub proof fn lemma_cross_units_member(nh: usize, ns: usize, u: Unit)
    ensures
        cross_units(nh, ns).contains(u) <==> (u.host < nh && u.source < ns),
    decreases nh,
{
    if nh > 0 {
        lemma_cross_units_member((nh - 1) as usize, ns, u);
        lemma_row_units((nh - 1) as usize, ns);
        let whole = cross_units(nh, ns);
        let left = cross_units((nh - 1) as usize, ns);
        let row = row_units((nh - 1) as usize, ns);
        if u.host < nh && u.source < ns {
            if u.host < nh - 1 {
                let k = choose|k: int| 0 <= k < left.len() && left[k] == u;
                assert(whole[k] == u);
            } else {
                assert(row[u.source as int] == u);
                assert(whole[left.len() + u.source] == u);
            }
            assert(whole.contains(u));
        }
        if whole.contains(u) {
            let k = choose|k: int| 0 <= k < whole.len() && whole[k] == u;
            if k < left.len() {
                assert(left[k] == u);
                assert(left.contains(u));
            } else {
                assert(row[k - left.len()] == u);
            }
        }
    }
}

/// Each (host, source) pair occurs at most once in the cross product.
pub proof fn lemma_cross_units_no_dup(nh: usize, ns: usize)
    ensures
        cross_units(nh, ns).no_duplicates(),
    decreases nh,
{
    if nh > 0 {
        lemma_cross_units_no_dup((nh - 1) as usize, ns);
        lemma_row_units((nh - 1) as usize, ns);
        let whole = cross_units(nh, ns);
        let left = cross_units((nh - 1) as usize, ns);
        let row = row_units((nh - 1) as usize, ns);
        assert forall|i: int, j: int| 0 <= i < j < whole.len() implies whole[i] != whole[j] by {
            if i < left.len() && j < left.len() {
                assert(left[i] == whole[i] && left[j] == whole[j]);
            } else if i < left.len() && j >= left.len() {
                assert(left.contains(left[i]));
                lemma_cross_units_member((nh - 1) as usize, ns, left[i]);
                assert(whole[j] == row[j - left.len()]);
                assert(whole[j].host == nh - 1);
                assert(whole[i].host < nh - 1);
            } else {
                assert(whole[i] == row[i - left.len()]);
                assert(whole[j] == row[j - left.len()]);
                assert(whole[i].source == i - left.len());
                assert(whole[j].source == j - left.len());
            }
        }
    }
}

/// The cross product pairs every host with every source.
pub proof fn lemma_cross_units_len(nh: usize, ns: usize)
    ensures
        cross_units(nh, ns).len() == nh * ns,
    decreases nh,
{
    if nh > 0 {
        lemma_cross_units_len((nh - 1) as usize, ns);
        lemma_row_units((nh - 1) as usize, ns);
        assert((nh - 1) * ns + ns == nh * ns) by (nonlinear_arith);
    }
}

/// The admission-control state of one run: which units still wait to be
/// admitted, how many are in flight, and whether the producer side of
/// the aggregation channel has been closed.
pub struct Dispatcher {
    pending: Vec<Unit>,
    outstanding: usize,
    limit: usize,
    closed: bool,
}

impl Dispatcher {
    /// The units not yet admitted; the next to be admitted is last.
    pub closed spec fn pending_view(&self) -> Seq<Unit> {
        self.pending@
    }

    /// The number of admitted units that have not completed. Each holds
    /// one clone of the channel's producer handle.
    pub closed spec fn outstanding(&self) -> nat {
        self.outstanding as nat
    }

    /// The admission limit the run was configured with.
    pub closed spec fn limit(&self) -> nat {
        self.limit as nat
    }

    /// Whether the run's own producer handle has been dropped.
    pub closed spec fn is_closed(&self) -> bool {
        self.closed
    }

    /// How many producer handles of the aggregation channel are alive:
    /// one per outstanding unit, and the run's own until it closes.
    pub open spec fn producers(&self) -> nat {
        self.outstanding() + if self.is_closed() {
            0nat
        } else {
            1nat
        }
    }

    /// The invariant every reachable state satisfies: the limit is
    /// positive, the outstanding count never exceeds it, and a closed
    /// run has nothing pending or in flight.
    pub open spec fn wf(&self) -> bool {
        &&& self.limit() >= 1
        &&& self.outstanding() <= self.limit()
        &&& self.is_closed() ==> self.outstanding() == 0 && self.pending_view().len() == 0
    }

    /// What the driving loop should do in this state.
    pub open spec fn spec_next_action(&self) -> Action {
        if self.is_closed() {
            Action::Done
        } else if self.pending_view().len() > 0 && self.outstanding() < self.limit() {
            Action::Dispatch(self.pending_view().last())
        } else if self.outstanding() > 0 {
            Action::AwaitOne
        } else if self.pending_view().len() == 0 {
            Action::Close
        } else {
            Action::AwaitOne
        }
    }

    /// A fresh run over `n_hosts` hosts and `n_sources` sources: one
    /// pending unit per (host, source) pair, nothing admitted yet.
    pub fn new(n_hosts: usize, n_sources: usize, limit: usize) -> (d: Dispatcher)
        requires
            limit >= 1,
        ensures
            d.wf(),
            !d.is_closed(),
            d.outstanding() == 0,
            d.limit() == limit,
            d.pending_view() == cross_units(n_hosts, n_sources),
    {
        let mut pending: Vec<Unit> = Vec::new();
        let mut h: usize = 0;
        while h < n_hosts
            invariant
                h <= n_hosts,
                pending@ == cross_units(h, n_sources),
            decreases n_hosts - h,
        {
            let mut s: usize = 0;
            while s < n_sources
                invariant
                    h < n_hosts,
                    s <= n_sources,
                    pending@ == cross_units(h, n_sources) + row_units(h, s),
                decreases n_sources - s,
            {
                pending.push(Unit { host: h, source: s });
                proof {
                    assert(row_units(h, (s + 1) as usize) =~= row_units(h, s).push(
                        Unit { host: h, source: s },
                    ));
                    assert(pending@ =~= cross_units(h, n_sources) + row_units(h, (s + 1) as usize));
                }
                s += 1;
            }
            proof {
                assert(cross_units((h + 1) as usize, n_sources) =~= cross_units(h, n_sources) + row_units(
                    h,
                    n_sources,
                ));
            }
            h += 1;
        }
        Dispatcher { pending, outstanding: 0, limit, closed: false }
    }

    /// Reads the next thing to do; the state does not change.
    pub fn next_action(&self) -> (a: Action)
        ensures
            a == self.spec_next_action(),
    {
        if self.closed {
            Action::Done
        } else if self.pending.len() > 0 && self.outstanding < self.limit {
            Action::Dispatch(self.pending[self.pending.len() - 1])
        } else if self.outstanding > 0 {
            Action::AwaitOne
        } else if self.pending.len() == 0 {
            Action::Close
        } else {
            Action::AwaitOne
        }
    }

    /// Admits the next pending unit: the caller spawns its task with a
    /// clone of the producer handle.
    pub fn start_unit(&mut self) -> (u: Unit)
        requires
            old(self).wf(),
            !old(self).is_closed(),
            old(self).pending_view().len() > 0,
            old(self).outstanding() < old(self).limit(),
        ensures
            final(self).wf(),
            dispatch_step(*old(self), *final(self)),
            u == old(self).pending_view().last(),
    {
        let u = self.pending.pop().unwrap();
        self.outstanding = self.outstanding + 1;
        u
    }

    /// Records that one outstanding unit completed, successfully or not,
    /// and its producer handle was dropped.
    pub fn unit_completed(&mut self)
        requires
            old(self).wf(),
            old(self).outstanding() > 0,
        ensures
            final(self).wf(),
            complete_step(*old(self), *final(self)),
    {
        self.outstanding = self.outstanding - 1;
    }

    /// Drops the run's own producer handle once every unit is done: the
    /// consumer's only signal that no more batches will come.
    pub fn close(&mut self)
        requires
            old(self).wf(),
            !old(self).is_closed(),
            old(self).pending_view().len() == 0,
            old(self).outstanding() == 0,
        ensures
            final(self).wf(),
            close_step(*old(self), *final(self)),
            final(self).producers() == 0,
    {
        self.closed = true;
    }
}

/// Admission of one unit: it leaves the pending list and is in flight.
pub open spec fn dispatch_step(pre: Dispatcher, post: Dispatcher) -> bool {
    &&& !pre.is_closed()
    &&& pre.pending_view().len() > 0
    &&& pre.outstanding() < pre.limit()
    &&& post.pending_view() == pre.pending_view().drop_last()
    &&& post.outstanding() == pre.outstanding() + 1
    &&& post.limit() == pre.limit()
    &&& post.is_closed() == pre.is_closed()
}

/// Completion of one unit, successful or failed: failures never undo or
/// block other units, they only leave the in-flight count.
pub open spec fn complete_step(pre: Dispatcher, post: Dispatcher) -> bool {
    &&& !pre.is_closed()
    &&& pre.outstanding() > 0
    &&& post.pending_view() == pre.pending_view()
    &&& post.outstanding() == pre.outstanding() - 1
    &&& post.limit() == pre.limit()
    &&& post.is_closed() == pre.is_closed()
}

/// Closing the channel after all units completed.
pub open spec fn close_step(pre: Dispatcher, post: Dispatcher) -> bool {
    &&& !pre.is_closed()
    &&& pre.pending_view().len() == 0
    &&& pre.outstanding() == 0
    &&& post.pending_view() == pre.pending_view()
    &&& post.outstanding() == pre.outstanding()
    &&& post.limit() == pre.limit()
    &&& post.is_closed()
}

/// Any step a run can take.
pub open spec fn step(pre: Dispatcher, post: Dispatcher) -> bool {
    dispatch_step(pre, post) || complete_step(pre, post) || close_step(pre, post)
}

/// Every step keeps the invariant and the configured limit.
pub proof fn lemma_step_preserves_wf(pre: Dispatcher, post: Dispatcher)
    requires
        pre.wf(),
        step(pre, post),
    ensures
        post.wf(),
        post.limit() == pre.limit(),
{
}

proof fn lemma_trace_wf(trace: Seq<Dispatcher>, k: int)
    requires
        trace.len() > 0,
        trace[0].wf(),
        forall|j: int| 0 <= j < trace.len() - 1 ==> step(#[trigger] trace[j], trace[j + 1]),
        0 <= k < trace.len(),
    ensures
        trace[k].wf(),
        trace[k].limit() == trace[0].limit(),
    decreases k,
{
    if k > 0 {
        lemma_trace_wf(trace, k - 1);
        lemma_step_preserves_wf(trace[k - 1], trace[k]);
    }
}

/// For every configured limit N >= 1, the number of outstanding
/// (host, source) units never exceeds N at any point of a run: along
/// any sequence of states joined by dispatcher steps, each state keeps
/// at most the initial limit in flight.
pub proof fn lemma_outstanding_bounded(trace: Seq<Dispatcher>)
    requires
        trace.len() > 0,
        trace[0].wf(),
        forall|j: int| 0 <= j < trace.len() - 1 ==> step(#[trigger] trace[j], trace[j + 1]),
    ensures
        forall|k: int| 0 <= k < trace.len() ==> #[trigger] trace[k].outstanding()
            <= trace[0].limit(),
{
    assert forall|k: int| 0 <= k < trace.len() implies #[trigger] trace[k].outstanding()
        <= trace[0].limit() by {
        lemma_trace_wf(trace, k);
    }
}

/// The producer count reaches zero exactly by closing, and closing can
/// only happen after every dispatched unit has completed: when the
/// consumer observes the end of the stream, nothing is left in flight.
pub proof fn lemma_close_signals_completion(pre: Dispatcher, post: Dispatcher)
    requires
        pre.wf(),
        close_step(pre, post),
    ensures
        pre.pending_view().len() == 0,
        pre.outstanding() == 0,
        post.producers() == 0,
{
}

/// While a run is not closed, some producer handle is still alive, so
/// the consumer keeps waiting; afterwards none is.
pub proof fn lemma_producers_positive_until_closed(d: Dispatcher)
    requires
        d.wf(),
    ensures
        d.producers() == 0 <==> d.is_closed(),
{
}

/// How far a run still is from its end.
pub open spec fn measure(d: Dispatcher) -> int {
    2 * d.pending_view().len() + d.outstanding() + if d.is_closed() {
        0int
    } else {
        1int
    }
}

/// Every step brings the run strictly closer to its end: a run takes
/// finitely many steps, so the consumer loop terminates rather than
/// blocking indefinitely.
pub proof fn lemma_step_decreases_measure(pre: Dispatcher, post: Dispatcher)
    requires
        step(pre, post),
    ensures
        0 <= measure(post) < measure(pre),
{
}

/// In every well-formed state that is not yet closed, the advised action
/// is enabled: the run can always take its next step, and `Close` is
/// advised exactly when nothing is pending or in flight.
pub proof fn lemma_progress(d: Dispatcher)
    requires
        d.wf(),
        !d.is_closed(),
    ensures
        match d.spec_next_action() {
            Action::Dispatch(u) => d.pending_view().len() > 0 && d.outstanding() < d.limit()
                && u == d.pending_view().last(),
            Action::AwaitOne => d.outstanding() > 0,
            Action::Close => d.pending_view().len() == 0 && d.outstanding() == 0,
            Action::Done => false,
        },
{
}

} // verus!
