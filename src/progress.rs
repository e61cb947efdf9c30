//! Decisions of the progress monitor, which samples the shared pixel counter
//! until the renderer signals that it is done.
use vstd::prelude::*;

verus! {

/// What the monitor does after refreshing its display.
#[derive(Clone, Copy, Debug, PartialEq, Eq, Structural)]
pub enum MonitorAction {
    /// Sleep one polling interval, then poll again.
    Wait,
    /// Leave the polling loop.
    Stop,
}

/// The abstract state of a monitor.
pub struct MonitorView {
    pub total: nat,
    pub position: nat,
    pub stopped: bool,
}

/// One poll on the abstract state: the counter read and whether the
/// termination signal was received.
pub open spec fn step(v: MonitorView, count: nat, signalled: bool) -> (MonitorView, MonitorAction) {
    if v.stopped {
        (v, MonitorAction::Stop)
    } else if signalled {
        (MonitorView { total: v.total, position: count, stopped: true }, MonitorAction::Stop)
    } else {
        (MonitorView { total: v.total, position: count, stopped: false }, MonitorAction::Wait)
    }
}

/// The actions of successive polls from state `v`, one per event.
pub open spec fn run_actions(v: MonitorView, events: Seq<(nat, bool)>) -> Seq<MonitorAction>
    decreases events.len(),
{
    if events.len() == 0 {
        Seq::empty()
    } else {
        let (w, a) = step(v, events[0].0, events[0].1);
        seq![a].add(run_actions(w, events.drop_first()))
    }
}

/// Once the termination signal has been seen (or from a monitor that has
/// already stopped), every poll from then on, that one included, stops: the
/// monitor never sleeps again after the signal, whatever the counter reads.
pub proof fn lemma_stops_after_signal(v: MonitorView, events: Seq<(nat, bool)>, k: int, j: int)
    requires
        0 <= k <= j < events.len(),
        events[k].1 || v.stopped,
    ensures
        run_actions(v, events).len() == events.len(),
        run_actions(v, events)[j] == MonitorAction::Stop,
    decreases events.len(),
{
    let (w, a) = step(v, events[0].0, events[0].1);
    let rest = events.drop_first();
    lemma_run_len(w, rest);
    assert(run_actions(v, events) == seq![a].add(run_actions(w, rest)));
    if j == 0 {
    } else if k == 0 {
        assert(w.stopped);
        lemma_stops_after_signal(w, rest, 0, j - 1);
    } else {
        assert(rest[k - 1] == events[k]);
        lemma_stops_after_signal(w, rest, k - 1, j - 1);
    }
}

proof fn lemma_run_len(v: MonitorView, events: Seq<(nat, bool)>)
    ensures
        run_actions(v, events).len() == events.len(),
    decreases events.len(),
{
    if events.len() > 0 {
        let (w, a) = step(v, events[0].0, events[0].1);
        lemma_run_len(w, events.drop_first());
    }
}

/// Tracks the progress shown out of `total` units and whether the
/// termination signal has arrived.
pub struct ProgressMonitor {
    total: usize,
    position: usize,
    stopped: bool,
}

impl View for ProgressMonitor {
    type V = MonitorView;

    closed spec fn view(&self) -> MonitorView {
        MonitorView {
            total: self.total as nat,
            position: self.position as nat,
            stopped: self.stopped,
        }
    }
}

impl ProgressMonitor {
    /// A monitor for `total` units of work, showing none done.
    pub fn new(total: usize) -> (m: ProgressMonitor)
        ensures
            m@.total == total,
            m@.position == 0,
            !m@.stopped,
    {
        ProgressMonitor { total, position: 0, stopped: false }
    }

    pub fn total(&self) -> (r: usize)
        ensures
            r == self@.total,
    {
        self.total
    }

    /// The count to show on the display.
    pub fn position(&self) -> (r: usize)
        ensures
            r == self@.position,
    {
        self.position
    }

    pub fn is_stopped(&self) -> (r: bool)
        ensures
            r == self@.stopped,
    {
        self.stopped
    }

    /// One poll: `count` is the counter just read and `signalled` tells
    /// whether the termination signal was received. The first poll that
    /// sees the signal stops, so the monitor never sleeps after it; once
    /// stopped, the monitor stays stopped and its display no longer moves.
    pub fn poll(&mut self, count: usize, signalled: bool) -> (a: MonitorAction)
        ensures
            (final(self)@, a) == step(old(self)@, count as nat, signalled),
            final(self)@.total == old(self)@.total,
            old(self)@.stopped ==> a == MonitorAction::Stop && final(self)@ == old(self)@,
            !old(self)@.stopped ==> {
                &&& final(self)@.position == count
                &&& final(self)@.stopped == signalled
                &&& a == (if signalled {
                    MonitorAction::Stop
                } else {
                    MonitorAction::Wait
                })
            },
    {
        if self.stopped {
            return MonitorAction::Stop;
        }
        self.position = count;
        if signalled {
            self.stopped = true;
            MonitorAction::Stop
        } else {
            MonitorAction::Wait
        }
    }
}

} // verus!
