//! The reconciliation scheduler: which users are waiting for a verification check, how many
//! sweeps each of them has left, and which checks are in flight.
//!
//! The scheduler performs no checks itself. The loop around it feeds it events (a request was
//! submitted, the sweep timer fired, a check came back) and carries out what it answers.

use crate::commands::IsVerified;
use std::collections::HashMap;
use vstd::prelude::*;

verus! {

broadcast use vstd::std_specs::hash::group_hash_axioms;

/// The number of sweeps that a user takes part in before being dropped.
pub const TRIES: u32 = 60;

/// The pause between two sweeps, in seconds.
pub const TIMEOUT_SECS: u64 = 3;

/// A user of a guild whose verification status needs attention.
#[derive(Clone, Copy, Debug, PartialEq, Eq, Structural)]
pub struct VerificationRequest {
    pub user_id: u64,
    pub guild_id: u64,
}

/// What the loop around the scheduler reports to it.
#[derive(Clone, Copy, Debug, PartialEq, Eq, Structural)]
pub enum SweepEvent {
    /// A request arrived in the inbox.
    Submitted(VerificationRequest),
    /// The sweep timer fired.
    Tick,
    /// A dispatched check came back.
    Completed(IsVerified),
}

/// Whether some request of `queue` is for `user`.
pub open spec fn holds(queue: Seq<VerificationRequest>, user: u64) -> bool {
    exists|i: int| 0 <= i < queue.len() && (#[trigger] queue[i]).user_id == user
}

/// No two requests of `queue` are for the same user.
pub open spec fn distinct_users(queue: Seq<VerificationRequest>) -> bool {
    forall|i: int, j: int|
        0 <= i < j < queue.len() ==> (#[trigger] queue[i]).user_id != (#[trigger] queue[j]).user_id
}

/// How many requests of `queue` are for `user`.
pub open spec fn occurrences(queue: Seq<VerificationRequest>, user: u64) -> nat
    decreases queue.len(),
{
    if queue.len() == 0 {
        0
    } else {
        occurrences(queue.drop_last(), user) + if queue.last().user_id == user {
            1nat
        } else {
            0nat
        }
    }
}

/// The in-flight table that a dispatched batch gives rise to: user to guild.
pub open spec fn in_flight_of(batch: Seq<VerificationRequest>) -> Map<u64, u64>
    decreases batch.len(),
{
    if batch.len() == 0 {
        Map::empty()
    } else {
        in_flight_of(batch.drop_last()).insert(batch.last().user_id, batch.last().guild_id)
    }
}

/// The mathematical content of a [`Scheduler`].
pub struct SchedulerView {
    /// The budget that a newly tracked user starts with.
    pub max_tries: u32,
    /// The sweeps that each tracked user has left.
    pub tries: Map<u64, u32>,
    /// The checks dispatched in the running sweep that have not come back: user to guild.
    pub current: Map<u64, u64>,
    /// The requests that the next sweep will dispatch, in order of arrival.
    pub upcoming: Seq<VerificationRequest>,
}

impl SchedulerView {
    /// A scheduler that tracks nobody.
    pub open spec fn empty(max_tries: u32) -> SchedulerView {
        SchedulerView { max_tries, tries: Map::empty(), current: Map::empty(), upcoming: Seq::empty() }
    }

    /// What holds of every scheduler: a user is tracked exactly when a check for them is in
    /// flight or queued, never both and never twice, and every budget is between one and the
    /// ceiling.
    pub open spec fn inv(self) -> bool {
        &&& self.current.dom().finite()
        &&& distinct_users(self.upcoming)
        &&& forall|i: int|
            0 <= i < self.upcoming.len() ==> !self.current.contains_key(
                (#[trigger] self.upcoming[i]).user_id,
            )
        &&& forall|user: u64| #[trigger]
            self.tries.contains_key(user) <==> self.current.contains_key(user) || holds(
                self.upcoming,
                user,
            )
        &&& forall|user: u64| #[trigger]
            self.tries.contains_key(user) ==> 1 <= self.tries[user] <= self.max_tries
    }

    /// Where `user` stands: not tracked, tracked with the full budget, or tracked with part
    /// of the budget spent.
    pub open spec fn tracking(self, user: u64) -> Tracking {
        if !self.tries.contains_key(user) {
            Tracking::Absent
        } else if self.tries[user] >= self.max_tries {
            Tracking::Pending
        } else {
            Tracking::Retrying
        }
    }

    /// Whether a submission for `user` starts tracking them: they are not tracked yet, and
    /// the ceiling allows at least one check.
    pub open spec fn accepts(self, user: u64) -> bool {
        self.max_tries > 0 && !self.tries.contains_key(user)
    }

    /// The scheduler after `request` was submitted. A request for a user who is already
    /// tracked changes nothing.
    pub open spec fn submit(self, request: VerificationRequest) -> SchedulerView {
        if self.accepts(request.user_id) {
            SchedulerView {
                tries: self.tries.insert(request.user_id, self.max_tries),
                upcoming: self.upcoming.push(request),
                ..self
            }
        } else {
            self
        }
    }

    /// The requests that a sweep starting now dispatches: the queued ones, unless checks of
    /// the previous sweep are still in flight.
    pub open spec fn batch(self) -> Seq<VerificationRequest> {
        if self.current.is_empty() {
            self.upcoming
        } else {
            Seq::empty()
        }
    }

    /// The scheduler after a sweep was started.
    pub open spec fn begin(self) -> SchedulerView {
        if self.current.is_empty() {
            SchedulerView { current: in_flight_of(self.upcoming), upcoming: Seq::empty(), ..self }
        } else {
            self
        }
    }

    /// What becomes of a user whose check came back.
    pub open spec fn progress(self, result: IsVerified) -> Progress {
        if !self.current.contains_key(result.user_id) {
            Progress::Ignored
        } else if result.verified {
            Progress::Resolved
        } else if self.tries[result.user_id] <= 1 {
            Progress::Exhausted
        } else {
            Progress::Retrying { remaining: (self.tries[result.user_id] - 1) as u32 }
        }
    }

    /// The scheduler after the check described by `result` came back. One sweep is taken off
    /// the user's budget. A verified user, and one whose budget is spent, is no longer
    /// tracked; any other is queued for the next sweep. A result for a user with no check in
    /// flight changes nothing.
    pub open spec fn settle(self, result: IsVerified) -> SchedulerView {
        let user = result.user_id;
        match self.progress(result) {
            Progress::Ignored => self,
            Progress::Resolved | Progress::Exhausted => SchedulerView {
                tries: self.tries.remove(user),
                current: self.current.remove(user),
                ..self
            },
            Progress::Retrying { remaining } => SchedulerView {
                tries: self.tries.insert(user, remaining),
                current: self.current.remove(user),
                upcoming: self.upcoming.push(
                    VerificationRequest { user_id: user, guild_id: self.current[user] },
                ),
                ..self
            },
        }
    }

    /// The scheduler after `event`.
    pub open spec fn step(self, event: SweepEvent) -> SchedulerView {
        match event {
            SweepEvent::Submitted(request) => self.submit(request),
            SweepEvent::Tick => self.begin(),
            SweepEvent::Completed(result) => self.settle(result),
        }
    }

    /// The checks that `event` causes to be dispatched.
    pub open spec fn dispatched(self, event: SweepEvent) -> Seq<VerificationRequest> {
        match event {
            SweepEvent::Tick => self.batch(),
            _ => Seq::empty(),
        }
    }

    /// The scheduler after the events of `events`, in order.
    pub open spec fn run(self, events: Seq<SweepEvent>) -> SchedulerView
        decreases events.len(),
    {
        if events.len() == 0 {
            self
        } else {
            self.step(events[0]).run(events.drop_first())
        }
    }

    /// How many checks for `user` are dispatched in the course of `events`.
    pub open spec fn checks(self, events: Seq<SweepEvent>, user: u64) -> nat
        decreases events.len(),
    {
        if events.len() == 0 {
            0
        } else {
            occurrences(self.dispatched(events[0]), user) + self.step(events[0]).checks(
                events.drop_first(),
                user,
            )
        }
    }

    /// Whether `event` books the result of a check that is in flight for `user`.
    pub open spec fn books(self, event: SweepEvent, user: u64) -> bool {
        match event {
            SweepEvent::Completed(result) => result.user_id == user && self.current.contains_key(
                user,
            ),
            _ => false,
        }
    }

    /// How many more checks for `user` are dispatched in the course of `events` than are
    /// booked.
    pub open spec fn outstanding(self, events: Seq<SweepEvent>, user: u64) -> int
        decreases events.len(),
    {
        if events.len() == 0 {
            0
        } else {
            let booked: int = if self.books(events[0], user) {
                1
            } else {
                0
            };
            occurrences(self.dispatched(events[0]), user) - booked + self.step(
                events[0],
            ).outstanding(events.drop_first(), user)
        }
    }

    /// The checks that `user` can still get without being submitted again.
    pub open spec fn credit(self, user: u64) -> nat {
        if !self.tries.contains_key(user) {
            0
        } else if self.current.contains_key(user) {
            (self.tries[user] - 1) as nat
        } else {
            self.tries[user] as nat
        }
    }
}

/// Where a user stands with the scheduler.
#[derive(Clone, Copy, Debug, PartialEq, Eq, Structural)]
pub enum Tracking {
    /// No work is scheduled for the user.
    Absent,
    /// The user is tracked and has the full budget.
    Pending,
    /// The user is tracked and has used part of the budget.
    Retrying,
}

/// What became of a user whose check came back.
#[derive(Clone, Copy, Debug, PartialEq, Eq, Structural)]
pub enum Progress {
    /// No check was in flight for the user; the result was dropped.
    Ignored,
    /// The user was verified and is no longer tracked.
    Resolved,
    /// The user is queued for the next sweep with `remaining` sweeps left.
    Retrying { remaining: u32 },
    /// The user's budget is spent; they are no longer tracked.
    Exhausted,
}

/// A request for `user` occurs in a queue of distinct users once if the queue holds one, and
/// not at all otherwise.
pub proof fn lemma_occurrences_of_distinct(queue: Seq<VerificationRequest>, user: u64)
    requires
        distinct_users(queue),
    ensures
        occurrences(queue, user) == if holds(queue, user) {
            1nat
        } else {
            0nat
        },
    decreases queue.len(),
{
    if queue.len() > 0 {
        let front = queue.drop_last();
        lemma_occurrences_of_distinct(front, user);
        if queue.last().user_id == user {
            assert(queue[queue.len() - 1].user_id == user);
            if holds(front, user) {
                let i = choose|i: int| 0 <= i < front.len() && (#[trigger] front[i]).user_id == user;
                assert(queue[i].user_id == user);
            }
        } else if holds(queue, user) {
            let i = choose|i: int| 0 <= i < queue.len() && (#[trigger] queue[i]).user_id == user;
            assert(front[i].user_id == user);
        } else if holds(front, user) {
            let i = choose|i: int| 0 <= i < front.len() && (#[trigger] front[i]).user_id == user;
            assert(queue[i].user_id == user);
        }
    }
}

/// The in-flight table of a batch holds exactly the users of the batch, and it is finite.
pub proof fn lemma_in_flight_of(batch: Seq<VerificationRequest>)
    ensures
        in_flight_of(batch).dom().finite(),
        forall|user: u64| #[trigger]
            in_flight_of(batch).contains_key(user) <==> holds(batch, user),
    decreases batch.len(),
{
    if batch.len() > 0 {
        let front = batch.drop_last();
        lemma_in_flight_of(front);
        assert forall|user: u64| #[trigger]
            in_flight_of(batch).contains_key(user) <==> holds(batch, user) by {
            if holds(front, user) {
                let i = choose|i: int| 0 <= i < front.len() && (#[trigger] front[i]).user_id == user;
                assert(batch[i].user_id == user);
            }
            if batch.last().user_id == user {
                assert(batch[batch.len() - 1].user_id == user);
            }
            if holds(batch, user) && batch.last().user_id != user {
                let i = choose|i: int| 0 <= i < batch.len() && (#[trigger] batch[i]).user_id == user;
                assert(front[i].user_id == user);
            }
        }
    }
}

/// Every event leaves a scheduler in order.
pub proof fn lemma_step_keeps_order(s: SchedulerView, event: SweepEvent)
    requires
        s.inv(),
    ensures
        s.step(event).inv(),
{
    let t = s.step(event);
    match event {
        SweepEvent::Submitted(request) => {
            if s.accepts(request.user_id) {
                let n = s.upcoming.len() as int;
                assert(t.upcoming[n] == request);
                assert forall|user: u64| #[trigger] t.tries.contains_key(user) implies 1
                    <= t.tries[user] <= t.max_tries by {
                    if user != request.user_id {
                        assert(s.tries.contains_key(user));
                    }
                }
                assert forall|user: u64| #[trigger]
                    t.tries.contains_key(user) <==> t.current.contains_key(user) || holds(
                        t.upcoming,
                        user,
                    ) by {
                    if holds(s.upcoming, user) {
                        let i = choose|i: int|
                            0 <= i < s.upcoming.len() && (#[trigger] s.upcoming[i]).user_id == user;
                        assert(t.upcoming[i].user_id == user);
                    }
                    if holds(t.upcoming, user) && user != request.user_id {
                        let i = choose|i: int|
                            0 <= i < t.upcoming.len() && (#[trigger] t.upcoming[i]).user_id == user;
                        assert(s.upcoming[i].user_id == user);
                    }
                }
                assert forall|i: int, j: int| 0 <= i < j < t.upcoming.len() implies (
                #[trigger] t.upcoming[i]).user_id != (#[trigger] t.upcoming[j]).user_id by {
                    if j == n {
                        assert(s.upcoming[i].user_id == t.upcoming[i].user_id);
                        assert(holds(s.upcoming, s.upcoming[i].user_id));
                    } else {
                        assert(s.upcoming[i] == t.upcoming[i]);
                        assert(s.upcoming[j] == t.upcoming[j]);
                    }
                }
                assert forall|i: int| 0 <= i < t.upcoming.len() implies !t.current.contains_key(
                    (#[trigger] t.upcoming[i]).user_id,
                ) by {
                    if i < n {
                        assert(s.upcoming[i] == t.upcoming[i]);
                    }
                }
            }
        },
        SweepEvent::Tick => {
            if s.current.is_empty() {
                lemma_in_flight_of(s.upcoming);
                assert forall|user: u64| #[trigger]
                    t.tries.contains_key(user) <==> t.current.contains_key(user) || holds(
                        t.upcoming,
                        user,
                    ) by {
                    assert(!s.current.contains_key(user));
                    assert(!holds(t.upcoming, user));
                }
            }
        },
        SweepEvent::Completed(result) => {
            let gone = result.user_id;
            match s.progress(result) {
                Progress::Ignored => {},
                Progress::Resolved | Progress::Exhausted => {
                    assert forall|user: u64| #[trigger] t.tries.contains_key(user) implies 1
                        <= t.tries[user] <= t.max_tries by {
                        assert(s.tries.contains_key(user));
                    }
                    assert forall|user: u64| #[trigger]
                        t.tries.contains_key(user) <==> t.current.contains_key(user) || holds(
                            t.upcoming,
                            user,
                        ) by {
                        if holds(s.upcoming, gone) {
                            let i = choose|i: int|
                                0 <= i < s.upcoming.len() && (#[trigger] s.upcoming[i]).user_id
                                    == gone;
                            assert(!s.current.contains_key(s.upcoming[i].user_id));
                        }
                    }
                },
                Progress::Retrying { remaining } => {
                    let n = s.upcoming.len() as int;
                    assert(t.upcoming[n].user_id == gone);
                    assert(s.tries.contains_key(gone));
                    assert forall|user: u64| #[trigger] t.tries.contains_key(user) implies 1
                        <= t.tries[user] <= t.max_tries by {
                        if user != gone {
                            assert(s.tries.contains_key(user));
                        }
                    }
                    assert forall|user: u64| #[trigger]
                        t.tries.contains_key(user) <==> t.current.contains_key(user) || holds(
                            t.upcoming,
                            user,
                        ) by {
                        if holds(s.upcoming, user) {
                            let i = choose|i: int|
                                0 <= i < s.upcoming.len() && (#[trigger] s.upcoming[i]).user_id
                                    == user;
                            assert(t.upcoming[i].user_id == user);
                        }
                        if holds(t.upcoming, user) && user != gone {
                            let i = choose|i: int|
                                0 <= i < t.upcoming.len() && (#[trigger] t.upcoming[i]).user_id
                                    == user;
                            assert(s.upcoming[i].user_id == user);
                        }
                    }
                    assert forall|i: int, j: int| 0 <= i < j < t.upcoming.len() implies (
                    #[trigger] t.upcoming[i]).user_id != (#[trigger] t.upcoming[j]).user_id by {
                        if j == n {
                            assert(s.upcoming[i] == t.upcoming[i]);
                            assert(!s.current.contains_key(s.upcoming[i].user_id));
                        } else {
                            assert(s.upcoming[i] == t.upcoming[i]);
                            assert(s.upcoming[j] == t.upcoming[j]);
                        }
                    }
                    assert forall|i: int|
                        0 <= i < t.upcoming.len() implies !t.current.contains_key(
                        (#[trigger] t.upcoming[i]).user_id,
                    ) by {
                        if i < n {
                            assert(s.upcoming[i] == t.upcoming[i]);
                        }
                    }
                },
            }
        },
    }
}

/// Whether no event of `events` submits a request for `user`.
pub open spec fn never_submitted(events: Seq<SweepEvent>, user: u64) -> bool {
    forall|i: int|
        0 <= i < events.len() ==> match #[trigger] events[i] {
            SweepEvent::Submitted(request) => request.user_id != user,
            _ => true,
        }
}

/// One event never dispatches more checks for a user than it takes off the user's credit.
pub proof fn lemma_step_spends_credit(s: SchedulerView, event: SweepEvent, user: u64)
    requires
        s.inv(),
        match event {
            SweepEvent::Submitted(request) => request.user_id != user,
            _ => true,
        },
    ensures
        occurrences(s.dispatched(event), user) + s.step(event).credit(user) <= s.credit(user),
{
    assert(occurrences(Seq::<VerificationRequest>::empty(), user) == 0);
    match event {
        SweepEvent::Submitted(request) => {},
        SweepEvent::Tick => {
            if s.current.is_empty() {
                lemma_occurrences_of_distinct(s.upcoming, user);
                lemma_in_flight_of(s.upcoming);
                assert(!s.current.contains_key(user));
                assert(s.tries.contains_key(user) <==> holds(s.upcoming, user));
                assert(s.tries.contains_key(user) ==> s.tries[user] >= 1);
            }
        },
        SweepEvent::Completed(result) => {
            if result.user_id == user && s.current.contains_key(user) {
                assert(s.tries.contains_key(user));
            }
        },
    }
}

/// A user who is not submitted again gets no more checks than their credit, which is never
/// more than the ceiling: the budget bounds the work done for a user, whatever the checks
/// answer and however the events of other users are interleaved.
pub proof fn lemma_checks_bounded(s: SchedulerView, events: Seq<SweepEvent>, user: u64)
    requires
        s.inv(),
        never_submitted(events, user),
    ensures
        s.checks(events, user) <= s.credit(user) <= s.max_tries,
        s.run(events).inv(),
    decreases events.len(),
{
    assert(s.tries.contains_key(user) ==> s.tries[user] <= s.max_tries);
    if events.len() > 0 {
        let rest = events.drop_first();
        assert(events[0] == events[0]);
        lemma_step_spends_credit(s, events[0], user);
        lemma_step_keeps_order(s, events[0]);
        assert forall|i: int| 0 <= i < rest.len() implies match #[trigger] rest[i] {
            SweepEvent::Submitted(request) => request.user_id != user,
            _ => true,
        } by {
            assert(rest[i] == events[i + 1]);
        }
        lemma_checks_bounded(s.step(events[0]), rest, user);
    }
}

/// A user who is submitted once gets at most as many checks as the ceiling allows.
pub proof fn lemma_checks_after_submission(
    s: SchedulerView,
    request: VerificationRequest,
    events: Seq<SweepEvent>,
)
    requires
        s.inv(),
        !s.tries.contains_key(request.user_id),
        never_submitted(events, request.user_id),
    ensures
        s.checks(seq![SweepEvent::Submitted(request)] + events, request.user_id) <= s.max_tries,
{
    let all = seq![SweepEvent::Submitted(request)] + events;
    assert(all[0] == SweepEvent::Submitted(request));
    assert(all.drop_first() =~= events);
    lemma_step_keeps_order(s, all[0]);
    lemma_checks_bounded(s.step(all[0]), events, request.user_id);
    assert(occurrences(Seq::<VerificationRequest>::empty(), request.user_id) == 0);
}

/// A user who is not tracked, because they were never submitted, were verified or ran out
/// of budget, gets no check until they are submitted again.
pub proof fn lemma_untracked_user_is_left_alone(
    s: SchedulerView,
    events: Seq<SweepEvent>,
    user: u64,
)
    requires
        s.inv(),
        !s.tries.contains_key(user),
        never_submitted(events, user),
    ensures
        s.checks(events, user) == 0,
        !s.run(events).tries.contains_key(user),
    decreases events.len(),
{
    if events.len() > 0 {
        let rest = events.drop_first();
        assert(events[0] == events[0]);
        lemma_step_spends_credit(s, events[0], user);
        lemma_step_keeps_order(s, events[0]);
        assert forall|i: int| 0 <= i < rest.len() implies match #[trigger] rest[i] {
            SweepEvent::Submitted(request) => request.user_id != user,
            _ => true,
        } by {
            assert(rest[i] == events[i + 1]);
        }
        let t = s.step(events[0]);
        assert(!t.tries.contains_key(user)) by {
            match events[0] {
                SweepEvent::Submitted(request) => {},
                SweepEvent::Tick => {},
                SweepEvent::Completed(result) => {},
            }
        }
        lemma_untracked_user_is_left_alone(t, rest, user);
    }
}

/// A check is dispatched for a user only while none is in flight for them: a batch goes out
/// only when every check of the batch before it has come back, it names each user at most
/// once, and it is exactly what is then in flight.
pub proof fn lemma_one_check_in_flight(s: SchedulerView, event: SweepEvent, user: u64)
    requires
        s.inv(),
    ensures
        occurrences(s.dispatched(event), user) <= 1,
        s.current.contains_key(user) ==> occurrences(s.dispatched(event), user) == 0,
        s.dispatched(event).len() > 0 ==> s.current.is_empty(),
        s.dispatched(event).len() > 0 ==> (s.step(event).current.contains_key(user) <==> holds(
            s.dispatched(event),
            user,
        )),
{
    assert(occurrences(Seq::<VerificationRequest>::empty(), user) == 0);
    match event {
        SweepEvent::Tick => {
            if s.current.is_empty() {
                lemma_occurrences_of_distinct(s.upcoming, user);
                lemma_in_flight_of(s.upcoming);
                assert(!s.current.contains_key(user));
            }
        },
        _ => {},
    }
}

/// A user whose check ended their tracking, verified or out of budget, is tracked no more.
pub proof fn lemma_settled_user_is_untracked(s: SchedulerView, result: IsVerified)
    requires
        s.inv(),
        s.progress(result) is Resolved || s.progress(result) is Exhausted,
    ensures
        !s.settle(result).tries.contains_key(result.user_id),
        !s.settle(result).current.contains_key(result.user_id),
        !holds(s.settle(result).upcoming, result.user_id),
{
    lemma_step_keeps_order(s, SweepEvent::Completed(result));
}

/// However requests, ticks and results follow one another, a user who has no check in flight
/// to begin with never has more than one: of the checks dispatched for them, at most one
/// has not been booked, and that is so exactly while the scheduler holds the user in flight.
pub proof fn lemma_at_most_one_outstanding(s: SchedulerView, events: Seq<SweepEvent>, user: u64)
    requires
        s.inv(),
        !s.current.contains_key(user),
    ensures
        0 <= s.outstanding(events, user) <= 1,
        s.outstanding(events, user) == 1 <==> s.run(events).current.contains_key(user),
{
    lemma_outstanding_is_in_flight(s, events, user);
}

/// The checks outstanding for a user after some events are those that were in flight before,
/// those dispatched since, less those booked since.
pub proof fn lemma_outstanding_is_in_flight(s: SchedulerView, events: Seq<SweepEvent>, user: u64)
    requires
        s.inv(),
    ensures
        (if s.run(events).current.contains_key(user) {
            1int
        } else {
            0int
        }) == (if s.current.contains_key(user) {
            1int
        } else {
            0int
        }) + s.outstanding(events, user),
    decreases events.len(),
{
    if events.len() > 0 {
        let event = events[0];
        let t = s.step(event);
        lemma_step_keeps_order(s, event);
        assert(occurrences(Seq::<VerificationRequest>::empty(), user) == 0);
        match event {
            SweepEvent::Tick => {
                if s.current.is_empty() {
                    lemma_occurrences_of_distinct(s.upcoming, user);
                    lemma_in_flight_of(s.upcoming);
                    assert(!s.current.contains_key(user));
                }
            },
            _ => {},
        }
        lemma_outstanding_is_in_flight(t, events.drop_first(), user);
    }
}

/// A check stays in flight until it comes back: no other event takes it out of flight.
pub proof fn lemma_in_flight_until_completed(s: SchedulerView, event: SweepEvent, user: u64)
    requires
        s.inv(),
        s.current.contains_key(user),
        match event {
            SweepEvent::Completed(result) => result.user_id != user,
            _ => true,
        },
    ensures
        s.step(event).current.contains_key(user),
{
}

/// Whatever happens, in whatever order, a scheduler stays in order.
pub proof fn lemma_run_keeps_order(s: SchedulerView, events: Seq<SweepEvent>)
    requires
        s.inv(),
    ensures
        s.run(events).inv(),
    decreases events.len(),
{
    if events.len() > 0 {
        lemma_step_keeps_order(s, events[0]);
        lemma_run_keeps_order(s.step(events[0]), events.drop_first());
    }
}

/// Submitting a user who is already tracked changes nothing: the budget is not reset and no
/// second entry appears.
pub proof fn lemma_resubmission_changes_nothing(s: SchedulerView, request: VerificationRequest)
    requires
        s.tries.contains_key(request.user_id),
    ensures
        s.submit(request) == s,
{
}

/// Submitting the same user twice in a row is the same as submitting them once.
pub proof fn lemma_submit_is_idempotent(
    s: SchedulerView,
    first: VerificationRequest,
    second: VerificationRequest,
)
    requires
        first.user_id == second.user_id,
    ensures
        s.submit(first).submit(second) == s.submit(first),
{
}

/// What the loop around the scheduler must do next.
#[derive(Debug, PartialEq, Eq)]
pub enum SweepAction {
    /// Nothing yet: more events are expected before the sweep can go on.
    Wait,
    /// Run one check for each of these requests, all at once, and report each result.
    Dispatch(Vec<VerificationRequest>),
    /// The sweep is over, or there was nothing to sweep: pause until the next tick.
    Sleep,
}

/// The reconciliation scheduler.
pub struct Scheduler {
    max_tries: u32,
    tries: HashMap<u64, u32>,
    current: HashMap<u64, u64>,
    upcoming: Vec<VerificationRequest>,
}

impl View for Scheduler {
    type V = SchedulerView;

    closed spec fn view(&self) -> SchedulerView {
        SchedulerView {
            max_tries: self.max_tries,
            tries: self.tries@,
            current: self.current@,
            upcoming: self.upcoming@,
        }
    }
}

impl Scheduler {
    /// Whether the scheduler is in order.
    pub open spec fn wf(&self) -> bool {
        self@.inv()
    }

    /// A scheduler that tracks nobody and gives each user `max_tries` sweeps.
    pub fn new(max_tries: u32) -> (scheduler: Scheduler)
        ensures
            scheduler.wf(),
            scheduler@ == SchedulerView::empty(max_tries),
    {
        let scheduler = Scheduler {
            max_tries,
            tries: HashMap::new(),
            current: HashMap::new(),
            upcoming: Vec::new(),
        };
        assert(scheduler@.tries =~= Map::<u64, u32>::empty());
        assert(scheduler@.current =~= Map::<u64, u64>::empty());
        assert(scheduler@.upcoming =~= Seq::<VerificationRequest>::empty());
        scheduler
    }

    /// The budget that a newly tracked user starts with.
    pub fn max_tries(&self) -> (max_tries: u32)
        ensures
            max_tries == self@.max_tries,
    {
        self.max_tries
    }

    /// The sweeps that `user_id` has left, or `None` if the user is not tracked.
    pub fn tries_left(&self, user_id: u64) -> (left: Option<u32>)
        ensures
            left == if self@.tries.contains_key(user_id) {
                Some(self@.tries[user_id])
            } else {
                None
            },
    {
        match self.tries.get(&user_id) {
            Some(left) => Some(*left),
            None => None,
        }
    }

    /// Where `user_id` stands.
    pub fn state_of(&self, user_id: u64) -> (state: Tracking)
        ensures
            state == self@.tracking(user_id),
    {
        match self.tries.get(&user_id) {
            None => Tracking::Absent,
            Some(left) => if *left >= self.max_tries {
                Tracking::Pending
            } else {
                Tracking::Retrying
            },
        }
    }

    /// How many checks of the running sweep have not come back.
    pub fn in_flight(&self) -> (count: usize)
        ensures
            count == self@.current.len(),
    {
        self.current.len()
    }

    /// How many requests wait for the next sweep.
    pub fn queued(&self) -> (count: usize)
        ensures
            count == self@.upcoming.len(),
    {
        self.upcoming.len()
    }

    /// Takes a request in. A user who is not tracked starts with the full budget and is
    /// queued for the next sweep; a request for a tracked user is dropped.
    pub fn submit(&mut self, request: VerificationRequest) -> (accepted: bool)
        requires
            old(self).wf(),
        ensures
            final(self).wf(),
            final(self)@ == old(self)@.submit(request),
            accepted == old(self)@.accepts(request.user_id),
    {
        proof {
            lemma_step_keeps_order(self@, SweepEvent::Submitted(request));
        }
        if self.max_tries == 0 || self.tries.contains_key(&request.user_id) {
            return false;
        }
        let _ = self.tries.insert(request.user_id, self.max_tries);
        self.upcoming.push(request);
        true
    }

    /// Starts a sweep: the queued requests become the checks in flight and are handed out
    /// for dispatch. While checks of the previous sweep are in flight nothing is handed out.
    pub fn begin_sweep(&mut self) -> (batch: Vec<VerificationRequest>)
        requires
            old(self).wf(),
        ensures
            final(self).wf(),
            final(self)@ == old(self)@.begin(),
            batch@ == old(self)@.batch(),
    {
        proof {
            lemma_step_keeps_order(self@, SweepEvent::Tick);
        }
        let mut batch: Vec<VerificationRequest> = Vec::new();
        if !self.current.is_empty() {
            return batch;
        }
        std::mem::swap(&mut self.upcoming, &mut batch);
        assert(self.current@ =~= in_flight_of(batch@.take(0)));
        let mut i: usize = 0;
        while i < batch.len()
            invariant
                i <= batch.len(),
                self.current@ == in_flight_of(batch@.take(i as int)),
                self.max_tries == old(self).max_tries,
                self.tries == old(self).tries,
                self.upcoming@ == Seq::<VerificationRequest>::empty(),
                batch@ == old(self).upcoming@,
            decreases batch.len() - i,
        {
            let request = batch[i];
            let _ = self.current.insert(request.user_id, request.guild_id);
            proof {
                assert(batch@.take(i + 1).drop_last() =~= batch@.take(i as int));
                assert(batch@.take(i + 1).last() == request);
            }
            i += 1;
        }
        assert(batch@.take(i as int) =~= batch@);
        batch
    }

    /// Books the result of a dispatched check. One sweep is taken off the user's budget. A
    /// verified user and one without budget left are forgotten; any other is queued for the
    /// next sweep. A result for a user with no check in flight is dropped.
    pub fn complete(&mut self, result: IsVerified) -> (progress: Progress)
        requires
            old(self).wf(),
        ensures
            final(self).wf(),
            final(self)@ == old(self)@.settle(result),
            progress == old(self)@.progress(result),
    {
        proof {
            lemma_step_keeps_order(self@, SweepEvent::Completed(result));
        }
        let user = result.user_id;
        let guild_id = match self.current.remove(&user) {
            Some(guild_id) => guild_id,
            None => {
                assert(self.current@ =~= old(self).current@);
                return Progress::Ignored;
            },
        };
        assert(old(self)@.tries.contains_key(user));
        let left = match self.tries.get(&user) {
            Some(left) => *left,
            None => 0,
        };
        if result.verified {
            let _ = self.tries.remove(&user);
            Progress::Resolved
        } else if left <= 1 {
            let _ = self.tries.remove(&user);
            Progress::Exhausted
        } else {
            let remaining = left - 1;
            let _ = self.tries.insert(user, remaining);
            self.upcoming.push(VerificationRequest { user_id: user, guild_id });
            Progress::Retrying { remaining }
        }
    }
}

/// One step of the reconciliation loop: books `event` and says what the loop must do next.
///
/// A submission is queued and the loop waits on. A tick starts a sweep: if requests are
/// queued and nothing is in flight, they are handed out for dispatch. A completed check is
/// booked; when it was the last one in flight, the sweep is over and the loop may sleep.
pub fn check_for_verify(scheduler: &mut Scheduler, event: SweepEvent) -> (action: SweepAction)
    requires
        old(scheduler).wf(),
    ensures
        final(scheduler).wf(),
        final(scheduler)@ == old(scheduler)@.step(event),
        match action {
            SweepAction::Dispatch(batch) => batch@.len() > 0 && batch@ == old(
                scheduler,
            )@.dispatched(event),
            SweepAction::Sleep => old(scheduler)@.dispatched(event).len() == 0
                && !(event is Submitted) && final(scheduler)@.current.is_empty(),
            SweepAction::Wait => old(scheduler)@.dispatched(event).len() == 0 && (event is Submitted
                || !final(scheduler)@.current.is_empty()),
        },
{
    match event {
        SweepEvent::Submitted(request) => {
            let _ = scheduler.submit(request);
            SweepAction::Wait
        },
        SweepEvent::Tick => {
            let batch = scheduler.begin_sweep();
            if batch.len() > 0 {
                SweepAction::Dispatch(batch)
            } else if scheduler.in_flight() == 0 {
                SweepAction::Sleep
            } else {
                SweepAction::Wait
            }
        },
        SweepEvent::Completed(result) => {
            let _ = scheduler.complete(result);
            if scheduler.in_flight() == 0 {
                SweepAction::Sleep
            } else {
                SweepAction::Wait
            }
        },
    }
}

} // verus!
