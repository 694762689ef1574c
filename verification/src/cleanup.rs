//! Container lifecycle cleanup: which runtime calls are made, in which order,
//! to leave no container of the sandbox image behind.
//!
//! [`Cleaner`] decides; the caller makes each call it asks for and hands back
//! what happened. No outcome stops the cleanup: a failed call is recorded and
//! the next one is asked for.

use vstd::prelude::*;
use vstd::string::*;
use crate::text::{
    texts, push_text, clone_texts, contains_text, trim, lines, from_utf8_lossy, trimmed, line_seq,
    lossy_text,
};

verus! {

/// One call to the container runtime.
#[derive(Clone, Debug, PartialEq, Eq)]
pub enum RuntimeCall {
    /// List the containers made from the sandbox image: the running ones, or
    /// the stopped ones as well.
    ListContainers { include_stopped: bool },
    /// Stop the container with this id.
    Stop(String),
    /// Remove the container with this id.
    Remove(String),
    /// Prune whatever the runtime no longer uses. This is not limited to the
    /// sandbox's own containers and images.
    Prune,
}

pub enum RuntimeCallView {
    ListContainers { include_stopped: bool },
    Stop(Seq<char>),
    Remove(Seq<char>),
    Prune,
}

impl View for RuntimeCall {
    type V = RuntimeCallView;

    open spec fn view(&self) -> RuntimeCallView {
        match self {
            RuntimeCall::ListContainers { include_stopped } => RuntimeCallView::ListContainers {
                include_stopped: *include_stopped,
            },
            RuntimeCall::Stop(id) => RuntimeCallView::Stop(id@),
            RuntimeCall::Remove(id) => RuntimeCallView::Remove(id@),
            RuntimeCall::Prune => RuntimeCallView::Prune,
        }
    }
}

pub open spec fn call_views(v: Seq<RuntimeCall>) -> Seq<RuntimeCallView> {
    v.map_values(|c: RuntimeCall| c@)
}

pub open spec fn optional_call_view(c: Option<RuntimeCall>) -> Option<RuntimeCallView> {
    match c {
        Some(call) => Some(call@),
        None => None,
    }
}

/// What came of the call that the cleaner last asked for.
#[derive(Clone, Debug, PartialEq, Eq)]
pub enum CleanupEvent {
    /// A listing succeeded and named these containers.
    Listed(Vec<String>),
    /// Any other call ended, well or not; a listing that failed is reported
    /// as `Completed(false)`.
    Completed(bool),
}

pub enum CleanupEventView {
    Listed(Seq<Seq<char>>),
    Completed(bool),
}

impl View for CleanupEvent {
    type V = CleanupEventView;

    open spec fn view(&self) -> CleanupEventView {
        match self {
            CleanupEvent::Listed(ids) => CleanupEventView::Listed(texts(ids@)),
            CleanupEvent::Completed(ok) => CleanupEventView::Completed(*ok),
        }
    }
}

/// Where a cleanup stands.
#[derive(Clone, Copy, Debug, PartialEq, Eq, Structural)]
pub enum CleanupPhase {
    /// Nothing has been asked for yet.
    Ready,
    /// Waiting for the list of running containers.
    ListingRunning,
    /// Waiting for a running container to stop.
    Stopping,
    /// Waiting for the removal of the container that was just stopped.
    Removing,
    /// Waiting for the list of all containers, stopped ones included.
    ListingAll,
    /// Waiting for the removal of a leftover container.
    Sweeping,
    /// Waiting for the prune.
    Pruning,
    /// Nothing is left to do.
    Finished,
}

/// What a cleanup did.
#[derive(Clone, Debug, PartialEq, Eq)]
pub struct CleanupReport {
    /// The containers that were stopped, in order.
    pub stopped: Vec<String>,
    /// The containers that were removed, in order.
    pub removed: Vec<String>,
    /// The calls that failed, in order. None of them ended the cleanup.
    pub failed: Vec<RuntimeCall>,
    /// Whether the prune succeeded.
    pub pruned: bool,
}

pub struct CleanupReportView {
    pub stopped: Seq<Seq<char>>,
    pub removed: Seq<Seq<char>>,
    pub failed: Seq<RuntimeCallView>,
    pub pruned: bool,
}

impl View for CleanupReport {
    type V = CleanupReportView;

    open spec fn view(&self) -> CleanupReportView {
        CleanupReportView {
            stopped: texts(self.stopped@),
            removed: texts(self.removed@),
            failed: call_views(self.failed@),
            pruned: self.pruned,
        }
    }
}

/// The state of one cleanup.
#[derive(Debug)]
pub struct Cleaner {
    phase: CleanupPhase,
    targets: Vec<String>,
    index: usize,
    report: CleanupReport,
}

pub struct CleanerView {
    pub phase: CleanupPhase,
    /// The containers of the pass that is under way.
    pub targets: Seq<Seq<char>>,
    /// Which of them is being dealt with.
    pub index: nat,
    pub report: CleanupReportView,
}

impl View for Cleaner {
    type V = CleanerView;

    closed spec fn view(&self) -> CleanerView {
        CleanerView {
            phase: self.phase,
            targets: texts(self.targets@),
            index: self.index as nat,
            report: self.report@,
        }
    }
}

/// A state is well formed when the container it is dealing with exists.
pub open spec fn well_formed(s: CleanerView) -> bool {
    (s.phase == CleanupPhase::Stopping || s.phase == CleanupPhase::Removing || s.phase
        == CleanupPhase::Sweeping) ==> s.index < s.targets.len()
}

/// The state before anything was asked for.
pub open spec fn initial_state() -> CleanerView {
    CleanerView {
        phase: CleanupPhase::Ready,
        targets: Seq::empty(),
        index: 0,
        report: CleanupReportView {
            stopped: Seq::empty(),
            removed: Seq::empty(),
            failed: Seq::empty(),
            pruned: false,
        },
    }
}

/// The call whose outcome the cleaner is waiting for, if any.
pub open spec fn awaited_call(s: CleanerView) -> Option<RuntimeCallView> {
    match s.phase {
        CleanupPhase::Ready => None,
        CleanupPhase::ListingRunning => Some(
            RuntimeCallView::ListContainers { include_stopped: false },
        ),
        CleanupPhase::Stopping => Some(RuntimeCallView::Stop(s.targets[s.index as int])),
        CleanupPhase::Removing => Some(RuntimeCallView::Remove(s.targets[s.index as int])),
        CleanupPhase::ListingAll => Some(
            RuntimeCallView::ListContainers { include_stopped: true },
        ),
        CleanupPhase::Sweeping => Some(RuntimeCallView::Remove(s.targets[s.index as int])),
        CleanupPhase::Pruning => Some(RuntimeCallView::Prune),
        CleanupPhase::Finished => None,
    }
}

/// Whether an event reports success.
pub open spec fn event_ok(e: CleanupEventView) -> bool {
    match e {
        CleanupEventView::Listed(_) => true,
        CleanupEventView::Completed(ok) => ok,
    }
}

/// The containers an event names: those of a listing, else none.
pub open spec fn event_ids(e: CleanupEventView) -> Seq<Seq<char>> {
    match e {
        CleanupEventView::Listed(ids) => ids,
        CleanupEventView::Completed(_) => Seq::empty(),
    }
}

/// The ids of `ids` that are not among `removed`, in order.
pub open spec fn still_present(ids: Seq<Seq<char>>, removed: Seq<Seq<char>>) -> Seq<Seq<char>> {
    ids.filter(|id: Seq<char>| !removed.contains(id))
}

/// The report after the outcome of the awaited call is noted: a failed call
/// joins the failures; a stop or a removal that succeeded is listed; a prune
/// that succeeded is marked.
pub open spec fn noted(s: CleanerView, e: CleanupEventView) -> CleanupReportView {
    let r = s.report;
    match awaited_call(s) {
        None => r,
        Some(call) => if !event_ok(e) {
            CleanupReportView { failed: r.failed.push(call), ..r }
        } else {
            match call {
                RuntimeCallView::Stop(id) => CleanupReportView { stopped: r.stopped.push(id), ..r },
                RuntimeCallView::Remove(id) => CleanupReportView {
                    removed: r.removed.push(id),
                    ..r
                },
                RuntimeCallView::Prune => CleanupReportView { pruned: true, ..r },
                RuntimeCallView::ListContainers { .. } => r,
            }
        },
    }
}

/// The state after an event. The running containers are taken one by one:
/// each is stopped, then removed whether or not the stop succeeded. Then all
/// containers are listed, and those not yet removed are removed. Then comes
/// the prune. A listing that failed counts as empty.
pub open spec fn next_state(s: CleanerView, e: CleanupEventView) -> CleanerView {
    let report = noted(s, e);
    let more = s.index + 1 < s.targets.len();
    match s.phase {
        CleanupPhase::Ready => CleanerView { phase: CleanupPhase::ListingRunning, report, ..s },
        CleanupPhase::ListingRunning => CleanerView {
            phase: if event_ids(e).len() > 0 {
                CleanupPhase::Stopping
            } else {
                CleanupPhase::ListingAll
            },
            targets: event_ids(e),
            index: 0,
            report,
        },
        CleanupPhase::Stopping => CleanerView { phase: CleanupPhase::Removing, report, ..s },
        CleanupPhase::Removing => if more {
            CleanerView { phase: CleanupPhase::Stopping, index: s.index + 1, report, ..s }
        } else {
            CleanerView { phase: CleanupPhase::ListingAll, report, ..s }
        },
        CleanupPhase::ListingAll => {
            let targets = still_present(event_ids(e), report.removed);
            CleanerView {
                phase: if targets.len() > 0 {
                    CleanupPhase::Sweeping
                } else {
                    CleanupPhase::Pruning
                },
                targets,
                index: 0,
                report,
            }
        },
        CleanupPhase::Sweeping => if more {
            CleanerView { index: s.index + 1, report, ..s }
        } else {
            CleanerView { phase: CleanupPhase::Pruning, report, ..s }
        },
        CleanupPhase::Pruning => CleanerView { phase: CleanupPhase::Finished, report, ..s },
        CleanupPhase::Finished => CleanerView { report, ..s },
    }
}

/// The container ids in the lines of a listing: each line trimmed, empty
/// ones left out.
pub open spec fn ids_in_lines(lines: Seq<Seq<char>>) -> Seq<Seq<char>> {
    lines.map_values(|l: Seq<char>| trimmed(l)).filter(|l: Seq<char>| l.len() > 0)
}

/// The non-empty strings of `v`, in order.
pub open spec fn nonempty(v: Seq<Seq<char>>) -> Seq<Seq<char>> {
    v.filter(|l: Seq<char>| l.len() > 0)
}

/// Keeps the strings of `v` that are not empty, in order.
pub fn keep_nonempty(v: &Vec<String>) -> (r: Vec<String>)
    ensures
        texts(r@) == nonempty(texts(v@)),
{
    let mut r: Vec<String> = Vec::new();
    let mut i: usize = 0;
    let ghost all = texts(v@);
    assert(all.take(0) =~= Seq::<Seq<char>>::empty());
    assert(texts(r@) =~= nonempty(all.take(0)));
    while i < v.len()
        invariant
            i <= v.len(),
            all == texts(v@),
            texts(r@) == nonempty(all.take(i as int)),
        decreases v.len() - i,
    {
        proof {
            reveal(Seq::filter);
            let next = all.take(i + 1);
            assert(next.drop_last() =~= all.take(i as int));
            assert(next.last() == v[i as int]@);
        }
        if !v[i].as_str().is_empty() {
            push_text(&mut r, v[i].clone());
        }
        i += 1;
    }
    assert(all.take(v.len() as int) =~= all);
    r
}

/// Reads the container ids out of the text of a listing, one per line.
pub fn parse_container_ids(listing: &str) -> (ids: Vec<String>)
    ensures
        texts(ids@) == ids_in_lines(line_seq(listing@)),
{
    let all = lines(listing);
    let mut stripped: Vec<String> = Vec::new();
    let mut i: usize = 0;
    let ghost want = texts(all@).map_values(|l: Seq<char>| trimmed(l));
    while i < all.len()
        invariant
            i <= all.len(),
            want == texts(all@).map_values(|l: Seq<char>| trimmed(l)),
            texts(stripped@) == want.take(i as int),
        decreases all.len() - i,
    {
        let t = trim(all[i].as_str());
        push_text(&mut stripped, t);
        assert(texts(stripped@) =~= want.take(i + 1));
        i += 1;
    }
    assert(want.take(all.len() as int) =~= want);
    keep_nonempty(&stripped)
}

/// Turns the outcome of a listing call into the event for the cleaner:
/// the ids in its output, or a failure where the call produced none.
pub fn listing_event(output: Option<Vec<u8>>) -> (e: CleanupEvent)
    ensures
        e@ == match output {
            Some(bytes) => CleanupEventView::Listed(ids_in_lines(line_seq(lossy_text(bytes@)))),
            None => CleanupEventView::Completed(false),
        },
{
    match output {
        Some(bytes) => {
            let text = from_utf8_lossy(bytes.as_slice());
            CleanupEvent::Listed(parse_container_ids(text.as_str()))
        },
        None => CleanupEvent::Completed(false),
    }
}

/// The ids of `ids` that are not among `removed`, in order.
pub fn remaining_ids(ids: &Vec<String>, removed: &Vec<String>) -> (r: Vec<String>)
    ensures
        texts(r@) == still_present(texts(ids@), texts(removed@)),
{
    let mut r: Vec<String> = Vec::new();
    let mut i: usize = 0;
    let ghost all = texts(ids@);
    let ghost gone = texts(removed@);
    assert(all.take(0) =~= Seq::<Seq<char>>::empty());
    assert(texts(r@) =~= still_present(all.take(0), gone));
    while i < ids.len()
        invariant
            i <= ids.len(),
            all == texts(ids@),
            gone == texts(removed@),
            texts(r@) == still_present(all.take(i as int), gone),
        decreases ids.len() - i,
    {
        proof {
            reveal(Seq::filter);
            let next = all.take(i + 1);
            assert(next.drop_last() =~= all.take(i as int));
            assert(next.last() == ids[i as int]@);
        }
        if !contains_text(removed, &ids[i]) {
            push_text(&mut r, ids[i].clone());
        }
        i += 1;
    }
    assert(all.take(ids.len() as int) =~= all);
    r
}

fn copy_call(call: &RuntimeCall) -> (r: RuntimeCall)
    ensures
        r@ == call@,
{
    match call {
        RuntimeCall::ListContainers { include_stopped } => RuntimeCall::ListContainers {
            include_stopped: *include_stopped,
        },
        RuntimeCall::Stop(id) => RuntimeCall::Stop(id.clone()),
        RuntimeCall::Remove(id) => RuntimeCall::Remove(id.clone()),
        RuntimeCall::Prune => RuntimeCall::Prune,
    }
}

impl Cleaner {
    /// Whether the container being dealt with exists.
    pub open spec fn wf(&self) -> bool {
        well_formed(self@)
    }

    /// A cleanup that has asked for nothing yet.
    pub fn new() -> (c: Cleaner)
        ensures
            c.wf(),
            c@ == initial_state(),
    {
        let c = Cleaner {
            phase: CleanupPhase::Ready,
            targets: Vec::new(),
            index: 0,
            report: CleanupReport {
                stopped: Vec::new(),
                removed: Vec::new(),
                failed: Vec::new(),
                pruned: false,
            },
        };
        assert(c@.targets =~= Seq::<Seq<char>>::empty());
        assert(c@.report.stopped =~= Seq::<Seq<char>>::empty());
        assert(c@.report.removed =~= Seq::<Seq<char>>::empty());
        assert(c@.report.failed =~= Seq::<RuntimeCallView>::empty());
        c
    }

    /// Where the cleanup stands.
    pub fn phase(&self) -> (p: CleanupPhase)
        ensures
            p == self@.phase,
    {
        self.phase
    }

    /// Whether nothing is left to do.
    pub fn is_finished(&self) -> (done: bool)
        ensures
            done == (self@.phase == CleanupPhase::Finished),
    {
        match self.phase {
            CleanupPhase::Finished => true,
            _ => false,
        }
    }

    /// The call whose outcome the cleanup is waiting for, if any.
    pub fn awaited(&self) -> (call: Option<RuntimeCall>)
        requires
            self.wf(),
        ensures
            optional_call_view(call) == awaited_call(self@),
    {
        match self.phase {
            CleanupPhase::Ready => None,
            CleanupPhase::ListingRunning => Some(
                RuntimeCall::ListContainers { include_stopped: false },
            ),
            CleanupPhase::Stopping => Some(RuntimeCall::Stop(self.targets[self.index].clone())),
            CleanupPhase::Removing => Some(RuntimeCall::Remove(self.targets[self.index].clone())),
            CleanupPhase::ListingAll => Some(
                RuntimeCall::ListContainers { include_stopped: true },
            ),
            CleanupPhase::Sweeping => Some(RuntimeCall::Remove(self.targets[self.index].clone())),
            CleanupPhase::Pruning => Some(RuntimeCall::Prune),
            CleanupPhase::Finished => None,
        }
    }

    /// What the cleanup did so far.
    pub fn report(&self) -> (r: CleanupReport)
        ensures
            r@ == self@.report,
    {
        let mut failed: Vec<RuntimeCall> = Vec::new();
        let mut i: usize = 0;
        while i < self.report.failed.len()
            invariant
                i <= self.report.failed.len(),
                call_views(failed@) == call_views(self.report.failed@.take(i as int)),
            decreases self.report.failed.len() - i,
        {
            let c = copy_call(&self.report.failed[i]);
            let ghost copied = call_views(failed@);
            failed.push(c);
            assert(call_views(failed@) =~= copied.push(c@));
            assert(copied.push(c@) =~= call_views(self.report.failed@.take(i + 1)));
            i += 1;
        }
        assert(self.report.failed@.take(self.report.failed.len() as int) =~= self.report.failed@);
        CleanupReport {
            stopped: clone_texts(&self.report.stopped),
            removed: clone_texts(&self.report.removed),
            failed,
            pruned: self.report.pruned,
        }
    }

    fn note(&mut self, ok: bool)
        requires
            old(self).wf(),
        ensures
            final(self).phase == old(self).phase,
            final(self).targets == old(self).targets,
            final(self).index == old(self).index,
            forall|e: CleanupEventView| event_ok(e) == ok ==> final(self)@.report == noted(old(self)@, e),
    {
        let call = self.awaited();
        let ghost before = self@;
        match call {
            None => {},
            Some(c) => {
                if !ok {
                    self.report.failed.push(c);
                    assert(self@.report.failed =~= before.report.failed.push(c@));
                } else {
                    match c {
                        RuntimeCall::Stop(id) => {
                            push_text(&mut self.report.stopped, id);
                        },
                        RuntimeCall::Remove(id) => {
                            push_text(&mut self.report.removed, id);
                        },
                        RuntimeCall::Prune => {
                            self.report.pruned = true;
                        },
                        RuntimeCall::ListContainers { .. } => {},
                    }
                }
            },
        }
    }

    /// Takes in what came of the last call and says which call is next, or
    /// `None` when the cleanup is over. The first event, before any call was
    /// made, only starts the cleanup; what it holds is not looked at.
    pub fn step(&mut self, event: CleanupEvent) -> (call: Option<RuntimeCall>)
        requires
            old(self).wf(),
        ensures
            final(self).wf(),
            final(self)@ == next_state(old(self)@, event@),
            optional_call_view(call) == awaited_call(final(self)@),
    {
        let (ok, ids) = match event {
            CleanupEvent::Listed(ids) => (true, ids),
            CleanupEvent::Completed(ok) => (ok, Vec::new()),
        };
        assert(texts(ids@) =~= event_ids(event@));
        assert(event_ok(event@) == ok);
        self.note(ok);
        assert(self@.report == noted(old(self)@, event@));
        assert(texts(ids@).len() == ids.len());
        assert(texts(self.targets@).len() == self.targets.len());
        let more = self.index < usize::MAX && self.index + 1 < self.targets.len();
        match self.phase {
            CleanupPhase::Ready => {
                self.phase = CleanupPhase::ListingRunning;
            },
            CleanupPhase::ListingRunning => {
                self.phase = if ids.len() > 0 {
                    CleanupPhase::Stopping
                } else {
                    CleanupPhase::ListingAll
                };
                self.targets = ids;
                self.index = 0;
            },
            CleanupPhase::Stopping => {
                self.phase = CleanupPhase::Removing;
            },
            CleanupPhase::Removing => {
                if more {
                    self.index = self.index + 1;
                    self.phase = CleanupPhase::Stopping;
                } else {
                    self.phase = CleanupPhase::ListingAll;
                }
            },
            CleanupPhase::ListingAll => {
                let targets = remaining_ids(&ids, &self.report.removed);
                assert(texts(targets@).len() == targets.len());
                self.phase = if targets.len() > 0 {
                    CleanupPhase::Sweeping
                } else {
                    CleanupPhase::Pruning
                };
                self.targets = targets;
                self.index = 0;
            },
            CleanupPhase::Sweeping => {
                if more {
                    self.index = self.index + 1;
                } else {
                    self.phase = CleanupPhase::Pruning;
                }
            },
            CleanupPhase::Pruning => {
                self.phase = CleanupPhase::Finished;
            },
            CleanupPhase::Finished => {},
        }
        self.awaited()
    }
}

/// A running container is stopped before it is removed, and its removal is
/// asked for whether or not the stop succeeded.
pub proof fn lemma_stop_then_remove(s: CleanerView, e: CleanupEventView)
    requires
        well_formed(s),
    ensures
        s.phase == CleanupPhase::Stopping ==> awaited_call(next_state(s, e)) == Some(
            RuntimeCallView::Remove(s.targets[s.index as int]),
        ),
        next_state(s, e).phase == CleanupPhase::Removing ==> awaited_call(s) == Some(
            RuntimeCallView::Stop(s.targets[s.index as int]),
        ) && awaited_call(next_state(s, e)) == Some(
            RuntimeCallView::Remove(s.targets[s.index as int]),
        ),
{
}

/// No event stops a cleanup: every well-formed state has a well-formed
/// successor, and a failed call only adds itself to the report's failures.
pub proof fn lemma_failures_are_recorded(s: CleanerView, e: CleanupEventView)
    requires
        well_formed(s),
    ensures
        well_formed(next_state(s, e)),
        !event_ok(e) && awaited_call(s).is_some() ==> next_state(s, e).report == (
        CleanupReportView { failed: s.report.failed.push(awaited_call(s).unwrap()), ..s.report }),
        event_ok(e) || awaited_call(s).is_none() ==> next_state(s, e).report.failed
            == s.report.failed,
{
}

/// The state after a run of events, taken in order.
pub open spec fn state_after(s: CleanerView, events: Seq<CleanupEventView>) -> CleanerView
    decreases events.len(),
{
    if events.len() == 0 {
        s
    } else {
        next_state(state_after(s, events.drop_last()), events.last())
    }
}

/// A cleanup that finds no container asks for the two listings and the
/// prune, and for no stop or removal; it ends with a report that names no
/// failure. So a second cleanup right after a first one, with no new
/// containers, reports no error.
pub proof fn lemma_cleanup_of_nothing(start: CleanupEventView, pruned: bool)
    ensures
        ({
            let none = CleanupEventView::Listed(Seq::empty());
            let done = CleanupEventView::Completed(pruned);
            let s1 = next_state(initial_state(), start);
            let s2 = next_state(s1, none);
            let s3 = next_state(s2, none);
            let s4 = next_state(s3, done);
            &&& awaited_call(s1) == Some(RuntimeCallView::ListContainers { include_stopped: false })
            &&& awaited_call(s2) == Some(RuntimeCallView::ListContainers { include_stopped: true })
            &&& awaited_call(s3) == Some(RuntimeCallView::Prune)
            &&& s4.phase == CleanupPhase::Finished
            &&& s4.report.stopped.len() == 0
            &&& s4.report.removed.len() == 0
            &&& pruned ==> s4.report.failed.len() == 0 && s4.report.pruned
        }),
{
    reveal(Seq::filter);
    let none = CleanupEventView::Listed(Seq::empty());
    let s1 = next_state(initial_state(), start);
    let s2 = next_state(s1, none);
    assert(still_present(event_ids(none), noted(s2, none).removed).len() == 0);
}

proof fn lemma_first_pass_state(s1: CleanerView, events: Seq<CleanupEventView>, j: int)
    requires
        s1.phase == CleanupPhase::Stopping,
        s1.index == 0,
        0 <= j < s1.targets.len(),
        events.len() >= 2 * j,
    ensures
        state_after(s1, events.take(2 * j)).phase == CleanupPhase::Stopping,
        state_after(s1, events.take(2 * j)).targets == s1.targets,
        state_after(s1, events.take(2 * j)).index == j,
    decreases j,
{
    if j == 0 {
        assert(events.take(0).len() == 0);
    } else {
        lemma_first_pass_state(s1, events, j - 1);
        let a = events.take(2 * j - 2);
        let b = events.take(2 * j - 1);
        let c = events.take(2 * j);
        assert(b.drop_last() =~= a);
        assert(c.drop_last() =~= b);
        assert(state_after(s1, b) == next_state(state_after(s1, a), b.last()));
        assert(state_after(s1, c) == next_state(state_after(s1, b), c.last()));
    }
}

/// The first pass over a whole cleanup: once the running containers are
/// listed, they are taken in the order of the listing, and for each the stop
/// is asked for and then the removal, whatever came of any call before. When
/// the last of them is dealt with, the listing of all containers is next.
pub proof fn lemma_running_containers_are_stopped_then_removed(
    s: CleanerView,
    ids: Seq<Seq<char>>,
    events: Seq<CleanupEventView>,
    j: int,
)
    requires
        s.phase == CleanupPhase::ListingRunning,
        0 <= j < ids.len(),
        events.len() == 2 * ids.len(),
    ensures
        ({
            let listed = next_state(s, CleanupEventView::Listed(ids));
            &&& awaited_call(state_after(listed, events.take(2 * j))) == Some(
                RuntimeCallView::Stop(ids[j]),
            )
            &&& awaited_call(state_after(listed, events.take(2 * j + 1))) == Some(
                RuntimeCallView::Remove(ids[j]),
            )
            &&& awaited_call(state_after(listed, events)) == Some(
                RuntimeCallView::ListContainers { include_stopped: true },
            )
        }),
{
    let listed = next_state(s, CleanupEventView::Listed(ids));
    lemma_first_pass_state(listed, events, j);
    let b = events.take(2 * j + 1);
    assert(b.drop_last() =~= events.take(2 * j));
    assert(state_after(listed, b) == next_state(state_after(listed, events.take(2 * j)), b.last()));
    let last = ids.len() - 1;
    lemma_first_pass_state(listed, events, last);
    let y = events.take(2 * last + 1);
    assert(y.drop_last() =~= events.take(2 * last));
    assert(events.drop_last() =~= y);
    assert(state_after(listed, y) == next_state(
        state_after(listed, events.take(2 * last)),
        y.last(),
    ));
    assert(state_after(listed, events) == next_state(state_after(listed, y), events.last()));
}

proof fn lemma_second_pass_state(s1: CleanerView, events: Seq<CleanupEventView>, j: int)
    requires
        s1.phase == CleanupPhase::Sweeping,
        s1.index == 0,
        0 <= j < s1.targets.len(),
        events.len() >= j,
    ensures
        state_after(s1, events.take(j)).phase == CleanupPhase::Sweeping,
        state_after(s1, events.take(j)).targets == s1.targets,
        state_after(s1, events.take(j)).index == j,
    decreases j,
{
    if j == 0 {
        assert(events.take(0).len() == 0);
    } else {
        lemma_second_pass_state(s1, events, j - 1);
        let a = events.take(j - 1);
        let b = events.take(j);
        assert(b.drop_last() =~= a);
        assert(state_after(s1, b) == next_state(state_after(s1, a), b.last()));
    }
}

/// The second pass over a whole cleanup: once all containers are listed,
/// those that the first pass did not remove are removed in the order of the
/// listing, whatever came of any removal before, and then the prune is
/// asked for, once; after the prune nothing is left to do.
pub proof fn lemma_leftovers_are_removed_then_pruned(
    s: CleanerView,
    ids: Seq<Seq<char>>,
    events: Seq<CleanupEventView>,
    pruned: CleanupEventView,
    j: int,
)
    requires
        s.phase == CleanupPhase::ListingAll,
        events.len() == still_present(ids, s.report.removed).len(),
        0 <= j < events.len(),
    ensures
        ({
            let listed = next_state(s, CleanupEventView::Listed(ids));
            &&& awaited_call(state_after(listed, events.take(j))) == Some(
                RuntimeCallView::Remove(still_present(ids, s.report.removed)[j]),
            )
            &&& awaited_call(state_after(listed, events)) == Some(RuntimeCallView::Prune)
            &&& next_state(state_after(listed, events), pruned).phase == CleanupPhase::Finished
        }),
{
    let listed = next_state(s, CleanupEventView::Listed(ids));
    lemma_second_pass_state(listed, events, j);
    let last = events.len() - 1;
    lemma_second_pass_state(listed, events, last);
    assert(events.drop_last() =~= events.take(last));
    assert(state_after(listed, events) == next_state(
        state_after(listed, events.take(last)),
        events.last(),
    ));
}

} // verus!
