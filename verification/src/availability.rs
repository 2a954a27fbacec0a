//! Reachability of the API as every request path sees it.
//!
//! The tracker is a small state machine. Requests report what they saw of the
//! network, an administrator may suspend and resume it, and tasks that need
//! the API register to be woken when it is reachable again. Each operation
//! that can make the API reachable hands back the waiters that it released.

use vstd::prelude::*;

verus! {

/// What the tracker says of the API.
#[derive(Clone, Copy, Debug, PartialEq, Eq, Structural)]
pub enum State {
    /// The API answered when it was last tried.
    Online,
    /// A request failed to reach the API and none has succeeded since.
    Offline,
    /// Requests are paused; reports are ignored until the tracker is resumed.
    Suspended,
}

/// Why waiting for the API came to nothing.
#[derive(Clone, Copy, Debug, PartialEq, Eq, Structural)]
pub enum Error {
    /// The wait was dropped before the API came online.
    Interrupted,
}

/// One thing that can happen to the tracker.
pub enum Event {
    ReportFailure,
    ReportSuccess,
    Suspend,
    Resume,
    Wait(u64),
    Cancel(u64),
}

/// `s` without any occurrence of `id`, the rest in the same order.
pub open spec fn without(s: Seq<u64>, id: u64) -> Seq<u64>
    decreases s.len(),
{
    if s.len() == 0 {
        s
    } else if s.last() == id {
        without(s.drop_last(), id)
    } else {
        without(s.drop_last(), id).push(s.last())
    }
}

/// The abstract state of the tracker.
pub struct AvailabilityView {
    /// Whether the last report that was heeded was a failure.
    pub offline: bool,
    /// Whether the tracker is suspended.
    pub suspended: bool,
    /// The waiters that are registered, oldest first.
    pub waiters: Seq<u64>,
}

impl AvailabilityView {
    /// The state that is seen from outside. Suspension hides whether the API
    /// is reachable.
    pub open spec fn state(self) -> State {
        if self.suspended {
            State::Suspended
        } else if self.offline {
            State::Offline
        } else {
            State::Online
        }
    }

    /// What holds of every tracker: no waiter is registered twice, and none
    /// is left waiting while the API is online.
    pub open spec fn wf(self) -> bool {
        &&& self.waiters.no_duplicates()
        &&& self.state() == State::Online ==> self.waiters.len() == 0
    }

    /// The tracker at its start: online, with nobody waiting.
    pub open spec fn initial() -> AvailabilityView {
        AvailabilityView { offline: false, suspended: false, waiters: Seq::empty() }
    }

    pub open spec fn report_failure(self) -> AvailabilityView {
        if self.suspended {
            self
        } else {
            AvailabilityView { offline: true, ..self }
        }
    }

    pub open spec fn report_success(self) -> AvailabilityView {
        if self.suspended {
            self
        } else {
            AvailabilityView { offline: false, waiters: Seq::empty(), ..self }
        }
    }

    pub open spec fn suspend(self) -> AvailabilityView {
        AvailabilityView { suspended: true, ..self }
    }

    pub open spec fn resume(self) -> AvailabilityView {
        if self.offline {
            AvailabilityView { suspended: false, ..self }
        } else {
            AvailabilityView { suspended: false, waiters: Seq::empty(), ..self }
        }
    }

    pub open spec fn wait(self, id: u64) -> AvailabilityView {
        if self.state() == State::Online || self.waiters.contains(id) {
            self
        } else {
            AvailabilityView { waiters: self.waiters.push(id), ..self }
        }
    }

    pub open spec fn cancel(self, id: u64) -> AvailabilityView {
        AvailabilityView { waiters: without(self.waiters, id), ..self }
    }

    /// The waiters that a step from `self` to `next` releases: all of them
    /// where `next` is online, none otherwise.
    pub open spec fn released(self, next: AvailabilityView) -> Seq<u64> {
        if next.state() == State::Online {
            self.waiters
        } else {
            Seq::empty()
        }
    }

    /// The tracker after one event.
    pub open spec fn apply(self, event: Event) -> AvailabilityView {
        match event {
            Event::ReportFailure => self.report_failure(),
            Event::ReportSuccess => self.report_success(),
            Event::Suspend => self.suspend(),
            Event::Resume => self.resume(),
            Event::Wait(id) => self.wait(id),
            Event::Cancel(id) => self.cancel(id),
        }
    }

    /// The tracker after a run of events, the first of them applied first.
    pub open spec fn run(self, events: Seq<Event>) -> AvailabilityView
        decreases events.len(),
    {
        if events.len() == 0 {
            self
        } else {
            self.run(events.drop_last()).apply(events.last())
        }
    }
}

/// Whether `x` occurs in `s` with its last item dropped or is that item.
proof fn lemma_contains_last(s: Seq<u64>, x: u64)
    requires
        s.len() > 0,
    ensures
        s.contains(x) <==> (s.drop_last().contains(x) || s.last() == x),
{
    let head = s.drop_last();
    if s.contains(x) {
        let i = choose|i: int| 0 <= i < s.len() && s[i] == x;
        if i < head.len() {
            assert(head[i] == x);
        }
    }
    if head.contains(x) {
        let i = choose|i: int| 0 <= i < head.len() && head[i] == x;
        assert(s[i] == x);
    }
    if s.last() == x {
        assert(s[s.len() - 1] == x);
    }
}

/// What is left when `id` is taken out of a list without repetitions: a list
/// without repetitions that holds everything else and not `id`.
pub proof fn lemma_without(s: Seq<u64>, id: u64)
    ensures
        !without(s, id).contains(id),
        forall|x: u64| x != id ==> (without(s, id).contains(x) <==> s.contains(x)),
        s.no_duplicates() ==> without(s, id).no_duplicates(),
        without(s, id).len() <= s.len(),
        !s.contains(id) ==> without(s, id) == s,
    decreases s.len(),
{
    let w = without(s, id);
    if s.len() > 0 {
        let head = s.drop_last();
        let wh = without(head, id);
        lemma_without(head, id);
        lemma_contains_last(s, id);
        assert(s =~= head.push(s.last()));
        if s.last() == id {
            assert(w == wh);
            assert forall|x: u64| x != id implies (w.contains(x) <==> s.contains(x)) by {
                lemma_contains_last(s, x);
            }
        } else {
            assert(w == wh.push(s.last()));
            assert(w.drop_last() =~= wh);
            lemma_contains_last(w, id);
            assert forall|x: u64| x != id implies (w.contains(x) <==> s.contains(x)) by {
                lemma_contains_last(s, x);
                lemma_contains_last(w, x);
            }
            if s.no_duplicates() {
                assert(head.no_duplicates());
                lemma_contains_last(s, s.last());
                if head.contains(s.last()) {
                    let k = choose|k: int| 0 <= k < head.len() && head[k] == s.last();
                    assert(s[k] == s[s.len() - 1]);
                }
                assert(!wh.contains(s.last()));
                assert forall|i: int, j: int| 0 <= i < w.len() && 0 <= j < w.len() && i != j implies w[i]
                    != w[j] by {
                    if i < wh.len() && j < wh.len() {
                        assert(wh[i] != wh[j]);
                    } else if i < wh.len() {
                        assert(wh.contains(wh[i]));
                    } else {
                        assert(wh.contains(wh[j]));
                    }
                }
            }
            if !s.contains(id) {
                assert(w =~= s);
            }
        }
    }
}

/// Every event leaves the tracker well formed.
pub proof fn lemma_apply_keeps_wf(s: AvailabilityView, event: Event)
    requires
        s.wf(),
    ensures
        s.apply(event).wf(),
{
    match event {
        Event::Wait(id) => {
            if !(s.state() == State::Online || s.waiters.contains(id)) {
                let w = s.waiters.push(id);
                assert forall|i: int, j: int| 0 <= i < w.len() && 0 <= j < w.len() && i != j implies w[i]
                    != w[j] by {
                    if i == s.waiters.len() {
                        assert(s.waiters[j] != id);
                    }
                    if j == s.waiters.len() {
                        assert(s.waiters[i] != id);
                    }
                }
            }
        },
        Event::Cancel(id) => {
            lemma_without(s.waiters, id);
        },
        _ => {},
    }
}

/// Every run of events leaves the tracker well formed.
pub proof fn lemma_run_keeps_wf(s: AvailabilityView, events: Seq<Event>)
    requires
        s.wf(),
    ensures
        s.run(events).wf(),
    decreases events.len(),
{
    if events.len() > 0 {
        lemma_run_keeps_wf(s, events.drop_last());
        lemma_apply_keeps_wf(s.run(events.drop_last()), events.last());
    }
}

/// Once a failure has been reported to a tracker that is not suspended, the
/// tracker is not online, and so no wait resolves, for as long as no success
/// is reported, whatever else happens.
pub proof fn lemma_offline_until_success(s: AvailabilityView, events: Seq<Event>)
    requires
        !s.suspended,
        forall|i: int| 0 <= i < events.len() ==> !(events[i] is ReportSuccess),
    ensures
        s.report_failure().state() == State::Offline,
        s.report_failure().run(events).state() != State::Online,
        s.report_failure().run(events).offline,
    decreases events.len(),
{
    if events.len() > 0 {
        lemma_offline_until_success(s, events.drop_last());
        assert(!(events[events.len() - 1] is ReportSuccess));
    }
}

/// While a tracker is suspended, reports of failure and of success change
/// nothing of it.
pub proof fn lemma_suspended_ignores_reports(s: AvailabilityView, events: Seq<Event>)
    requires
        s.suspended,
        forall|i: int|
            0 <= i < events.len() ==> events[i] is ReportFailure || events[i] is ReportSuccess,
    ensures
        s.run(events) == s,
    decreases events.len(),
{
    if events.len() > 0 {
        lemma_suspended_ignores_reports(s, events.drop_last());
        assert(events[events.len() - 1] is ReportFailure || events[events.len() - 1]
            is ReportSuccess);
    }
}

/// Whether the event is a success or withdraws `id`.
pub open spec fn ends_wait(event: Event, id: u64) -> bool {
    event is ReportSuccess || (event matches Event::Cancel(other) && other == id)
}

/// A waiter that registered with a tracker that is not online stays
/// registered, whatever else happens, until a success is reported or the
/// waiter is withdrawn.
pub proof fn lemma_waiter_stays_until_success(s: AvailabilityView, id: u64, events: Seq<Event>)
    requires
        s.wf(),
        s.offline,
        forall|i: int| 0 <= i < events.len() ==> !ends_wait(#[trigger] events[i], id),
    ensures
        s.wait(id).run(events).offline,
        s.wait(id).run(events).waiters.contains(id),
    decreases events.len(),
{
    let registered = s.wait(id);
    if events.len() == 0 {
        if !s.waiters.contains(id) {
            assert(registered.waiters[s.waiters.len() as int] == id);
        }
    } else {
        let head = events.drop_last();
        assert forall|i: int| 0 <= i < head.len() implies !ends_wait(#[trigger] head[i], id) by {
            assert(head[i] == events[i]);
        }
        lemma_waiter_stays_until_success(s, id, head);
        let before = registered.run(head);
        let last = events[events.len() - 1];
        assert(!ends_wait(last, id));
        let k = choose|k: int| 0 <= k < before.waiters.len() && before.waiters[k] == id;
        match last {
            Event::Wait(other) => {
                if !(before.state() == State::Online || before.waiters.contains(other)) {
                    assert(before.waiters.push(other)[k] == id);
                }
            },
            Event::Cancel(other) => {
                lemma_without(before.waiters, other);
            },
            _ => {},
        }
    }
}

/// The events in which each of `ids` asks to wait, in their order.
pub open spec fn waits(ids: Seq<u64>) -> Seq<Event> {
    Seq::new(ids.len(), |i: int| Event::Wait(ids[i]))
}

/// However many ask to wait while the tracker is offline, all of them stay
/// pending, and one success releases every one of them.
pub proof fn lemma_one_success_releases_all(s: AvailabilityView, ids: Seq<u64>)
    requires
        s.wf(),
        s.offline,
        !s.suspended,
    ensures
        s.run(waits(ids)).state() == State::Offline,
        forall|i: int| 0 <= i < ids.len() ==> s.run(waits(ids)).waiters.contains(#[trigger] ids[i]),
        s.run(waits(ids)).released(s.run(waits(ids)).report_success()) == s.run(
            waits(ids),
        ).waiters,
        s.run(waits(ids)).report_success().state() == State::Online,
    decreases ids.len(),
{
    if ids.len() > 0 {
        let head = ids.drop_last();
        lemma_one_success_releases_all(s, head);
        assert(waits(ids).drop_last() =~= waits(head));
        assert(waits(ids).last() == Event::Wait(ids.last()));
        let before = s.run(waits(head));
        let after = s.run(waits(ids));
        assert(after == before.wait(ids.last()));
        assert forall|i: int| 0 <= i < ids.len() implies after.waiters.contains(
            #[trigger] ids[i],
        ) by {
            if i < head.len() {
                assert(head[i] == ids[i]);
                let k = choose|k: int| 0 <= k < before.waiters.len() && before.waiters[k] == ids[i];
                assert(after.waiters[k] == ids[i]);
            } else {
                if !before.waiters.contains(ids[i]) {
                    assert(after.waiters[before.waiters.len() as int] == ids[i]);
                }
            }
        }
    }
}

/// A success that is heeded releases every waiter, and leaves none to be
/// released by the next.
pub proof fn lemma_released_once(s: AvailabilityView)
    requires
        !s.suspended,
    ensures
        s.released(s.report_success()) == s.waiters,
        s.report_success().released(s.report_success().report_success()).len() == 0,
{
}


/// The reachability tracker that every request path shares.
#[derive(Debug)]
pub struct ApiAvailability {
    offline: bool,
    suspended: bool,
    waiters: Vec<u64>,
}

impl View for ApiAvailability {
    type V = AvailabilityView;

    closed spec fn view(&self) -> AvailabilityView {
        AvailabilityView {
            offline: self.offline,
            suspended: self.suspended,
            waiters: self.waiters@,
        }
    }
}

impl Default for ApiAvailability {
    fn default() -> (r: Self)
        ensures
            r@ == AvailabilityView::initial(),
    {
        ApiAvailability::new()
    }
}

impl Clone for ApiAvailability {
    fn clone(&self) -> (r: Self)
        ensures
            r@ == self@,
    {
        proof {
            use_type_invariant(self);
        }
        ApiAvailability {
            offline: self.offline,
            suspended: self.suspended,
            waiters: self.waiters.clone(),
        }
    }
}

impl ApiAvailability {
    #[verifier::type_invariant]
    spec fn well_formed(self) -> bool {
        self@.wf()
    }

    /// A tracker that is online, with nobody waiting.
    pub fn new() -> (r: Self)
        ensures
            r@ == AvailabilityView::initial(),
    {
        ApiAvailability { offline: false, suspended: false, waiters: Vec::new() }
    }

    /// What the tracker says of the API.
    pub fn state(&self) -> (r: State)
        ensures
            r == self@.state(),
            self@.wf(),
    {
        proof {
            use_type_invariant(self);
        }
        if self.suspended {
            State::Suspended
        } else if self.offline {
            State::Offline
        } else {
            State::Online
        }
    }

    /// Whether the API is taken to be unreachable, suspended or not.
    pub fn is_offline(&self) -> (r: bool)
        ensures
            r == self@.offline,
    {
        self.offline
    }

    /// Whether the tracker is suspended.
    pub fn is_suspended(&self) -> (r: bool)
        ensures
            r == self@.suspended,
    {
        self.suspended
    }

    /// The waiters that are registered, oldest first.
    pub fn waiting(&self) -> (r: Vec<u64>)
        ensures
            r@ == self@.waiters,
    {
        self.waiters.clone()
    }

    /// Whether `waiter` is registered.
    pub fn is_waiting(&self, waiter: u64) -> (r: bool)
        ensures
            r == self@.waiters.contains(waiter),
    {
        let mut i: usize = 0;
        while i < self.waiters.len()
            invariant
                i <= self.waiters.len(),
                forall|k: int| 0 <= k < i ==> self.waiters@[k] != waiter,
            decreases self.waiters.len() - i,
        {
            if self.waiters[i] == waiter {
                return true;
            }
            i = i + 1;
        }
        false
    }

    /// Records that a request failed to reach the API. An online tracker goes
    /// offline; a suspended one stays as it is.
    pub fn report_failure(&mut self)
        ensures
            final(self)@ == old(self)@.report_failure(),
    {
        proof {
            use_type_invariant(&*self);
        }
        if !self.suspended {
            self.offline = true;
        }
    }

    /// Records that the API answered. An offline tracker goes online and
    /// every waiter is released; a suspended one stays as it is. Returns the
    /// waiters released.
    pub fn report_success(&mut self) -> (r: Vec<u64>)
        ensures
            final(self)@ == old(self)@.report_success(),
            r@ == old(self)@.released(final(self)@),
    {
        proof {
            use_type_invariant(&*self);
        }
        if self.suspended {
            Vec::new()
        } else {
            let released = self.waiters.clone();
            self.waiters = Vec::new();
            self.offline = false;
            released
        }
    }

    /// Suspends the tracker. Doing so twice is the same as doing so once.
    pub fn suspend(&mut self)
        ensures
            final(self)@ == old(self)@.suspend(),
    {
        proof {
            use_type_invariant(&*self);
        }
        self.suspended = true;
    }

    /// Lifts the suspension. The tracker is again what the reports before the
    /// suspension made it; where that is online, every waiter is released.
    /// Returns the waiters released.
    pub fn resume(&mut self) -> (r: Vec<u64>)
        ensures
            final(self)@ == old(self)@.resume(),
            r@ == old(self)@.released(final(self)@),
    {
        proof {
            use_type_invariant(&*self);
        }
        if self.offline {
            self.suspended = false;
            Vec::new()
        } else {
            let released = self.waiters.clone();
            self.waiters = Vec::new();
            self.suspended = false;
            released
        }
    }

    /// Asks to go on once the API is online. Returns `true` where it is, and
    /// the caller goes on at once. Otherwise `waiter` is registered, unless it
    /// already is, and will be among those released when the tracker next
    /// goes online.
    pub fn wait_for_online(&mut self, waiter: u64) -> (r: bool)
        ensures
            r == (old(self)@.state() == State::Online),
            final(self)@ == old(self)@.wait(waiter),
    {
        proof {
            use_type_invariant(&*self);
            lemma_apply_keeps_wf(self@, Event::Wait(waiter));
        }
        if !self.suspended && !self.offline {
            true
        } else {
            if !self.is_waiting(waiter) {
                let mut waiters = self.waiters.clone();
                waiters.push(waiter);
                self.waiters = waiters;
            }
            false
        }
    }

    /// Withdraws `waiter`: it is no longer registered and will not be
    /// released. Withdrawing a waiter that is not registered changes nothing.
    pub fn cancel_wait(&mut self, waiter: u64)
        ensures
            final(self)@ == old(self)@.cancel(waiter),
    {
        proof {
            use_type_invariant(&*self);
            lemma_without(self.waiters@, waiter);
        }
        let mut kept: Vec<u64> = Vec::new();
        let mut i: usize = 0;
        while i < self.waiters.len()
            invariant
                i <= self.waiters.len(),
                kept@ == without(self.waiters@.subrange(0, i as int), waiter),
            decreases self.waiters.len() - i,
        {
            proof {
                let next = self.waiters@.subrange(0, i + 1);
                assert(next.drop_last() =~= self.waiters@.subrange(0, i as int));
                assert(next.last() == self.waiters@[i as int]);
            }
            if self.waiters[i] != waiter {
                kept.push(self.waiters[i]);
            }
            i = i + 1;
        }
        assert(self.waiters@.subrange(0, i as int) =~= self.waiters@);
        self.waiters = kept;
    }
}

} // verus!
