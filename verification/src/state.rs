//! The published snapshot, the time of the last request for it, and the rules
//! by which requests, ticks of the scheduler and scrape cycles act on the two.

use vstd::prelude::*;
use crate::clock::{current_time, elapsed, elapsed_nanos, instant, Timestamp, NANOS_PER_SEC};
use crate::record::{ElevatorStatus, ElevatorView};
use crate::scrape::{outcome_view, scrape_outcome, OutcomeView, ScrapeError};

verus! {

/// The snapshot that is published.
#[derive(Debug, PartialEq, Eq)]
pub struct Status {
    pub schwebebahn: Vec<String>,
    pub elevators: Vec<ElevatorStatus>,
    pub last_updated: Option<Timestamp>,
}

/// What a `Status` says, as plain values.
pub struct StatusView {
    pub schwebebahn: Seq<Seq<char>>,
    pub elevators: Seq<ElevatorView>,
    pub last_updated: Option<Timestamp>,
}

impl View for Status {
    type V = StatusView;

    open spec fn view(&self) -> StatusView {
        StatusView {
            schwebebahn: self.schwebebahn.deep_view(),
            elevators: self.elevators.deep_view(),
            last_updated: self.last_updated,
        }
    }
}

/// The snapshot before the first successful scrape: nothing in it.
pub open spec fn empty_status() -> StatusView {
    StatusView { schwebebahn: Seq::empty(), elevators: Seq::empty(), last_updated: None }
}

/// A copy of `lines`.
fn copy_lines(lines: &Vec<String>) -> (r: Vec<String>)
    ensures
        r.deep_view() == lines.deep_view(),
{
    let mut r: Vec<String> = Vec::new();
    let n = lines.len();
    let mut i: usize = 0;
    while i < n
        invariant
            i <= n == lines@.len(),
            r@.len() == i,
            forall|k: int| 0 <= k < i ==> r@[k]@ == lines@[k]@,
        decreases n - i,
    {
        r.push(lines[i].clone());
        i += 1;
    }
    assert(r.deep_view() =~= lines.deep_view());
    r
}

/// A copy of `elevators`.
fn copy_elevators(elevators: &Vec<ElevatorStatus>) -> (r: Vec<ElevatorStatus>)
    ensures
        r.deep_view() == elevators.deep_view(),
{
    let mut r: Vec<ElevatorStatus> = Vec::new();
    let n = elevators.len();
    let mut i: usize = 0;
    while i < n
        invariant
            i <= n == elevators@.len(),
            r@.len() == i,
            forall|k: int| 0 <= k < i ==> r@[k]@ == elevators@[k]@,
        decreases n - i,
    {
        r.push(elevators[i].clone());
        i += 1;
    }
    assert(r.deep_view() =~= elevators.deep_view());
    r
}

impl Status {
    /// The snapshot before the first successful scrape.
    pub fn empty() -> (r: Status)
        ensures
            r@ == empty_status(),
    {
        let r = Status { schwebebahn: Vec::new(), elevators: Vec::new(), last_updated: None };
        assert(r.schwebebahn.deep_view() =~= Seq::empty());
        assert(r.elevators.deep_view() =~= Seq::empty());
        r
    }
}

impl Clone for Status {
    fn clone(&self) -> (r: Self)
        ensures
            r@ == self@,
    {
        Status {
            schwebebahn: copy_lines(&self.schwebebahn),
            elevators: copy_elevators(&self.elevators),
            last_updated: self.last_updated,
        }
    }
}

/// What is held between requests and scrape cycles: the snapshot, and when it
/// was last asked for.
#[derive(Debug, PartialEq, Eq)]
pub struct AppState {
    pub last_api_request: Option<Timestamp>,
    pub status: Status,
}

/// What an `AppState` holds, as plain values.
pub struct AppStateView {
    pub last_api_request: Option<Timestamp>,
    pub status: StatusView,
}

impl View for AppState {
    type V = AppStateView;

    open spec fn view(&self) -> AppStateView {
        AppStateView { last_api_request: self.last_api_request, status: self.status@ }
    }
}

/// The state at startup.
pub open spec fn startup() -> AppStateView {
    AppStateView { last_api_request: None, status: empty_status() }
}

/// The minutes after a request during which the page is still scraped.
pub const REQUEST_WINDOW_MINUTES: i64 = 20;

/// The minutes from one tick of the scheduler to the next.
pub const TICK_INTERVAL_MINUTES: u64 = 15;

/// The length of the request window in nanoseconds.
pub open spec fn request_window() -> int {
    REQUEST_WINDOW_MINUTES * 60 * NANOS_PER_SEC
}

/// Whether a tick at `now` scrapes: the snapshot has been asked for, and less
/// than the request window lies between the last request and `now`.
pub open spec fn scrape_is_due(last_request: Option<Timestamp>, now: Timestamp) -> bool {
    match last_request {
        Some(asked) => elapsed(asked, now) < request_window(),
        None => false,
    }
}

/// What the scheduler is doing.
#[derive(Clone, Copy, Debug, PartialEq, Eq, Structural)]
pub enum SchedulerState {
    /// Nobody asked for the snapshot lately: ticks pass without a scrape.
    Idle,
    /// The snapshot was asked for lately: every tick scrapes.
    Active,
}

/// The state of the scheduler at `now`.
pub open spec fn scheduler_state(
    last_request: Option<Timestamp>,
    now: Timestamp,
) -> SchedulerState {
    if scrape_is_due(last_request, now) {
        SchedulerState::Active
    } else {
        SchedulerState::Idle
    }
}

/// The snapshot after a scrape cycle that ended at `now` with `outcome`: a
/// success replaces the lines, the records and the time of the update as one;
/// a failure leaves the snapshot as it was.
pub open spec fn status_after(
    before: StatusView,
    outcome: OutcomeView,
    now: Timestamp,
) -> StatusView {
    match outcome {
        Ok(lists) => StatusView {
            schwebebahn: lists.0,
            elevators: lists.1,
            last_updated: Some(now),
        },
        Err(_) => before,
    }
}

/// The state after a request at `now`: the time is noted, the snapshot stays.
pub open spec fn after_request(state: AppStateView, now: Timestamp) -> AppStateView {
    AppStateView { last_api_request: Some(now), status: state.status }
}

/// The state after a scrape cycle that ended at `now` with `outcome`: the time
/// of the last request stays.
pub open spec fn after_cycle(
    state: AppStateView,
    outcome: OutcomeView,
    now: Timestamp,
) -> AppStateView {
    AppStateView {
        last_api_request: state.last_api_request,
        status: status_after(state.status, outcome, now),
    }
}

impl AppState {
    /// The state at startup: the empty snapshot, never asked for.
    pub fn new() -> (r: AppState)
        ensures
            r@ == startup(),
    {
        AppState { last_api_request: None, status: Status::empty() }
    }
}

/// Tells what the scheduler is doing at `now`.
pub fn scheduler_state_at(state: &AppState, now: Timestamp) -> (r: SchedulerState)
    ensures
        r == scheduler_state(state.last_api_request, now),
{
    match state.last_api_request {
        Some(asked) => {
            let window: i128 = REQUEST_WINDOW_MINUTES as i128 * 60 * NANOS_PER_SEC as i128;
            if elapsed_nanos(asked, now) < window {
                SchedulerState::Active
            } else {
                SchedulerState::Idle
            }
        },
        None => SchedulerState::Idle,
    }
}

/// Decides at a tick of the scheduler at `now` whether the page is fetched
/// and scraped.
pub fn should_check_at(state: &AppState, now: Timestamp) -> (r: bool)
    ensures
        r == scrape_is_due(state.last_api_request, now),
{
    match scheduler_state_at(state, now) {
        SchedulerState::Active => true,
        SchedulerState::Idle => false,
    }
}

/// Decides at a tick of the scheduler whether the page is fetched and
/// scraped, by the clock's reading.
pub fn should_check(state: &AppState) -> (r: bool)
    ensures
        exists|now: Timestamp| r == scrape_is_due(state.last_api_request, now),
        state.last_api_request is None ==> !r,
{
    let now = current_time();
    should_check_at(state, now)
}

/// Serves a request for the snapshot at `now`: notes the time of the request
/// and hands out the whole snapshot, which stays as it is.
pub fn status_at(state: &mut AppState, now: Timestamp) -> (r: Status)
    ensures
        r@ == old(state)@.status,
        final(state)@ == after_request(old(state)@, now),
{
    state.last_api_request = Some(now);
    state.status.clone()
}

/// Serves a request for the snapshot: notes the clock's reading as the time of
/// the request and hands out the whole snapshot, which stays as it is.
pub fn status(state: &mut AppState) -> (r: Status)
    ensures
        r@ == old(state)@.status,
        exists|now: Timestamp| final(state)@ == after_request(old(state)@, now),
        final(state)@.status == old(state)@.status,
        final(state)@.last_api_request is Some,
{
    let now = current_time();
    status_at(state, now)
}

/// Ends a scrape cycle at `now`: a success replaces the snapshot, a failure
/// leaves it in place. The time of the last request is not touched.
pub fn apply_scrape_at(
    state: &mut AppState,
    outcome: Result<(Vec<String>, Vec<ElevatorStatus>), ScrapeError>,
    now: Timestamp,
)
    ensures
        final(state)@ == after_cycle(old(state)@, outcome_view(outcome), now),
{
    match outcome {
        Ok((schwebebahn, elevators)) => {
            state.status = Status { schwebebahn, elevators, last_updated: Some(now) };
        },
        Err(_) => {},
    }
}

/// Ends a scrape cycle: a success replaces the snapshot and stamps it with the
/// clock's reading, a failure leaves it in place.
pub fn apply_scrape(
    state: &mut AppState,
    outcome: Result<(Vec<String>, Vec<ElevatorStatus>), ScrapeError>,
)
    ensures
        exists|now: Timestamp|
            final(state)@ == after_cycle(old(state)@, outcome_view(outcome), now),
        outcome is Err ==> final(state)@ == old(state)@,
        final(state)@.last_api_request == old(state)@.last_api_request,
{
    let now = current_time();
    apply_scrape_at(state, outcome, now);
}

/// What happens to the state, one thing at a time.
pub enum Event {
    /// The snapshot is asked for.
    Request(Timestamp),
    /// A scrape cycle ends.
    CycleEnd(OutcomeView, Timestamp),
}

/// The state after `event`.
pub open spec fn after_event(state: AppStateView, event: Event) -> AppStateView {
    match event {
        Event::Request(now) => after_request(state, now),
        Event::CycleEnd(outcome, now) => after_cycle(state, outcome, now),
    }
}

/// The state after `events`, in their order.
pub open spec fn after_events(state: AppStateView, events: Seq<Event>) -> AppStateView
    decreases events.len(),
{
    if events.len() == 0 {
        state
    } else {
        after_event(after_events(state, events.drop_last()), events.last())
    }
}

/// Whether every one of `events` is a request.
pub open spec fn only_requests(events: Seq<Event>) -> bool {
    forall|i: int| 0 <= i < events.len() ==> #[trigger] events[i] is Request
}

/// Requests leave the snapshot as it is, however many there are.
pub proof fn lemma_requests_keep_the_snapshot(state: AppStateView, events: Seq<Event>)
    requires
        only_requests(events),
    ensures
        after_events(state, events).status == state.status,
    decreases events.len(),
{
    if events.len() > 0 {
        assert(events.last() is Request);
        lemma_requests_keep_the_snapshot(state, events.drop_last());
    }
}

/// Events that follow one another take the state where the first of them
/// left it.
pub proof fn lemma_events_follow_one_another(
    state: AppStateView,
    first: Seq<Event>,
    second: Seq<Event>,
)
    ensures
        after_events(state, first + second) == after_events(
            after_events(state, first),
            second,
        ),
    decreases second.len(),
{
    if second.len() == 0 {
        assert(first + second =~= first);
    } else {
        assert((first + second).drop_last() =~= first + second.drop_last());
        assert((first + second).last() == second.last());
        lemma_events_follow_one_another(state, first, second.drop_last());
    }
}

/// While one scrape cycle ends among any number of requests, every request
/// finds either the snapshot from before the cycle or the snapshot that the
/// cycle left, each of them whole: the first `seen` events have happened when
/// the request is served, and the snapshot is then the old one up to the end
/// of the cycle and the new one from there on.
pub proof fn lemma_requests_see_whole_snapshots(
    state: AppStateView,
    earlier: Seq<Event>,
    outcome: OutcomeView,
    now: Timestamp,
    later: Seq<Event>,
    seen: int,
)
    requires
        only_requests(earlier),
        only_requests(later),
        0 <= seen <= earlier.len() + 1 + later.len(),
    ensures
        ({
            let events = earlier + seq![Event::CycleEnd(outcome, now)] + later;
            let found = after_events(state, events.take(seen)).status;
            if seen <= earlier.len() {
                found == state.status
            } else {
                found == status_after(state.status, outcome, now)
            }
        }),
{
    let end = seq![Event::CycleEnd(outcome, now)];
    let events = earlier + end + later;
    if seen <= earlier.len() {
        assert(events.take(seen) =~= earlier.take(seen));
        lemma_requests_keep_the_snapshot(state, earlier.take(seen));
    } else {
        let rest = later.take(seen - earlier.len() - 1);
        assert(events.take(seen) =~= (earlier + end) + rest);
        lemma_events_follow_one_another(state, earlier + end, rest);
        lemma_events_follow_one_another(state, earlier, end);
        lemma_requests_keep_the_snapshot(state, earlier);
        let before = after_events(state, earlier);
        assert(after_events(before, end) == after_cycle(before, outcome, now)) by {
            reveal_with_fuel(after_events, 2);
            assert(end.drop_last() =~= Seq::<Event>::empty());
        }
        lemma_requests_keep_the_snapshot(after_cycle(before, outcome, now), rest);
    }
}

/// What holds of every snapshot: before the first successful scrape there is
/// nothing in it, and from then on it carries the time of its update and
/// neither of its lists is empty.
pub open spec fn well_formed(status: StatusView) -> bool {
    match status.last_updated {
        None => status == empty_status(),
        Some(_) => status.schwebebahn.len() > 0 && status.elevators.len() > 0,
    }
}

/// Whether `event` is a request, or the end of a scrape cycle that hands over
/// what a scrape gives for some end of the fetch.
pub open spec fn comes_from_a_scrape(event: Event) -> bool {
    match event {
        Event::Request(_) => true,
        Event::CycleEnd(outcome, _) => exists|fetched: Result<Seq<char>, ScrapeError>|
            outcome == #[trigger] scrape_outcome(fetched),
    }
}

/// Whatever requests and scrape cycles there have been since startup, in
/// whatever order and however they ended, the snapshot is well-formed.
pub proof fn lemma_snapshots_are_well_formed(events: Seq<Event>)
    requires
        forall|i: int| 0 <= i < events.len() ==> comes_from_a_scrape(#[trigger] events[i]),
    ensures
        well_formed(after_events(startup(), events).status),
    decreases events.len(),
{
    if events.len() > 0 {
        lemma_snapshots_are_well_formed(events.drop_last());
        assert(comes_from_a_scrape(events.last()));
    }
}

/// Two scrape cycles that succeed on the same markup publish the same lines
/// and the same records: only the time of the update differs.
pub proof fn lemma_rescrape_changes_only_the_time(
    before: StatusView,
    markup: Seq<char>,
    first: Timestamp,
    second: Timestamp,
)
    requires
        scrape_outcome(Ok(markup)) is Ok,
    ensures
        ({
            let scraped = scrape_outcome(Ok(markup));
            let once = status_after(before, scraped, first);
            let twice = status_after(once, scraped, second);
            &&& twice.schwebebahn == once.schwebebahn
            &&& twice.elevators == once.elevators
            &&& once.last_updated == Some(first)
            &&& twice.last_updated == Some(second)
        }),
{
}

/// Once a snapshot carries the time of an update it always does, and while the
/// clock does not run backwards that time never goes back.
pub proof fn lemma_last_updated_never_goes_back(
    before: StatusView,
    outcome: OutcomeView,
    now: Timestamp,
)
    requires
        before.last_updated matches Some(updated) ==> instant(updated) <= instant(now),
    ensures
        before.last_updated matches Some(updated) ==> {
            &&& status_after(before, outcome, now).last_updated is Some
            &&& instant(updated) <= instant(status_after(before, outcome, now).last_updated->0)
        },
        outcome is Ok ==> status_after(before, outcome, now).last_updated == Some(now),
{
}

/// A tick scrapes if and only if the snapshot was asked for less than twenty
/// minutes before: never while it has not been asked for at all, and, counted
/// in whole minutes since the last request, up to the nineteenth.
pub proof fn lemma_ticks_scrape_within_the_window(asked: Timestamp, now: Timestamp, minutes: int)
    requires
        elapsed(asked, now) == minutes * 60 * NANOS_PER_SEC,
    ensures
        !scrape_is_due(None, now),
        scrape_is_due(Some(asked), now) <==> minutes < 20,
{
}

} // verus!
