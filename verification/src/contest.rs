//! The contest scheduler: which state a contest is in at a given moment,
//! which timer is armed for it, and whether its results are aggregated.
//!
//! The scheduler holds the registries; the caller owns the clock, the
//! timers and the stores. To move a contest the caller asks `put_contest`
//! for a plan, calls `enter`, writes the status that `enter` gives to the
//! relational store, and, once that write has succeeded, calls `settle`
//! and does what it says. When a timer fires, `fire` gives the next plan.

use std::collections::{HashMap, HashSet};
use vstd::prelude::*;

verus! {

/// A contest that has not begun.
pub const PENDING: i16 = 0;

/// A contest that is under way.
pub const RUNNING: i16 = 1;

/// A contest that is over.
pub const ENDED: i16 = 2;

/// The seconds between the end of a contest and the teardown of its
/// aggregation worker.
pub const WAITING_TIME_CLOSE_JUDGING_QUEUE: u64 = 600;

/// The identity that closes an aggregation queue.
pub const CLOSE: i64 = 0;

/// Where a contest stands, and the milliseconds to what comes next.
#[derive(Debug, Clone, Copy, PartialEq, Eq, Structural)]
pub enum Plan {
    Pending { to_running: i64, to_end: i64 },
    Running { to_end: i64 },
    Ended,
}

/// The moment a contest ends: `length` minutes after `begin`.
pub open spec fn end_of(begin: i64, length: i32) -> int {
    begin + length * 60000
}

/// Where a contest stands at the moment `now`.
pub open spec fn plan_of(begin: i64, length: i32, now: i64) -> Plan {
    if begin > now {
        Plan::Pending { to_running: (begin - now) as i64, to_end: (length * 60000) as i64 }
    } else if end_of(begin, length) > now {
        Plan::Running { to_end: (end_of(begin, length) - now) as i64 }
    } else {
        Plan::Ended
    }
}

/// Whether the moments of a contest and the spans between them fit into
/// 64 bits.
pub open spec fn schedulable(begin: i64, length: i32, now: i64) -> bool {
    &&& i64::MIN <= end_of(begin, length) <= i64::MAX
    &&& i64::MIN <= begin - now <= i64::MAX
    &&& i64::MIN <= end_of(begin, length) - now <= i64::MAX
}

/// Whether the moments of a contest and the spans between them fit into
/// 64 bits.
pub fn can_schedule(begin: i64, length: i32, now: i64) -> (b: bool)
    ensures
        b == schedulable(begin, length, now),
{
    let end: i128 = (begin as i128) + (length as i128) * 60000;
    let lowest: i128 = i64::MIN as i128;
    let highest: i128 = i64::MAX as i128;
    let to_begin: i128 = (begin as i128) - (now as i128);
    let to_end: i128 = end - (now as i128);
    lowest <= end && end <= highest && lowest <= to_begin && to_begin <= highest && lowest <= to_end
        && to_end <= highest
}

/// Where a contest stands at the moment `now`: pending before its begin,
/// running from its begin to its end, ended from then on.
pub fn put_contest(begin: i64, length: i32, now: i64) -> (plan: Plan)
    requires
        schedulable(begin, length, now),
    ensures
        plan == plan_of(begin, length, now),
{
    let span: i64 = (length as i64) * 60000;
    let end: i64 = begin + span;
    if begin > now {
        Plan::Pending { to_running: begin - now, to_end: end - begin }
    } else if end > now {
        Plan::Running { to_end: end - now }
    } else {
        Plan::Ended
    }
}

/// The status that goes with a plan.
pub open spec fn status_of(plan: Plan) -> i16 {
    match plan {
        Plan::Pending { .. } => PENDING,
        Plan::Running { .. } => RUNNING,
        Plan::Ended => ENDED,
    }
}

/// A timer that is armed for a contest: when it fires, and what the contest
/// enters then.
#[derive(Debug, Clone, Copy, PartialEq, Eq, Structural)]
pub struct Timer {
    pub delay: i64,
    pub next: Plan,
}

/// What the caller has to do once a contest's status has been written.
#[derive(Debug, Clone, Copy, PartialEq, Eq, Structural)]
pub struct Settled {
    /// Start the aggregation worker of the contest.
    pub start_worker: bool,
    /// Arm this timer for the contest.
    pub arm: Option<Timer>,
    /// Call `teardown` after this many seconds.
    pub teardown_after: Option<u64>,
}

/// The registries of the scheduler as contracts see them.
#[verifier::ext_equal]
pub struct SchedulerView {
    /// The timer armed for each contest; a contest has at most one.
    pub timers: Map<i64, Timer>,
    /// The contests whose results are aggregated.
    pub workers: Set<i64>,
}

impl SchedulerView {
    /// The registries once the timer of a contest is cancelled.
    pub open spec fn entered(self, id: i64) -> SchedulerView {
        SchedulerView { timers: self.timers.remove(id), ..self }
    }

    /// What settling a plan asks of the caller.
    pub open spec fn settlement(self, id: i64, plan: Plan) -> Settled {
        match plan {
            Plan::Pending { to_running, to_end } => Settled {
                start_worker: false,
                arm: Some(Timer { delay: to_running, next: Plan::Running { to_end } }),
                teardown_after: None,
            },
            Plan::Running { to_end } => Settled {
                start_worker: !self.workers.contains(id),
                arm: Some(Timer { delay: to_end, next: Plan::Ended }),
                teardown_after: None,
            },
            Plan::Ended => Settled {
                start_worker: false,
                arm: None,
                teardown_after: Some(WAITING_TIME_CLOSE_JUDGING_QUEUE),
            },
        }
    }

    /// The registries once a plan is settled.
    pub open spec fn settled(self, id: i64, plan: Plan) -> SchedulerView {
        match plan {
            Plan::Pending { to_running, to_end } => SchedulerView {
                timers: self.timers.insert(
                    id,
                    Timer { delay: to_running, next: Plan::Running { to_end } },
                ),
                ..self
            },
            Plan::Running { to_end } => SchedulerView {
                timers: self.timers.insert(id, Timer { delay: to_end, next: Plan::Ended }),
                workers: self.workers.insert(id),
            },
            Plan::Ended => self,
        }
    }

    /// The registries once the worker of a contest is torn down.
    pub open spec fn torn_down(self, id: i64) -> SchedulerView {
        SchedulerView { workers: self.workers.remove(id), ..self }
    }

    /// The registries once a contest has entered a plan and its status is
    /// written.
    pub open spec fn moved(self, id: i64, plan: Plan) -> SchedulerView {
        self.entered(id).settled(id, plan)
    }
}

/// The scheduler's registries: the timer armed for each contest, and the
/// contests that have an aggregation worker.
pub struct Scheduler {
    timers: HashMap<i64, Timer>,
    workers: HashSet<i64>,
}

impl View for Scheduler {
    type V = SchedulerView;

    closed spec fn view(&self) -> SchedulerView {
        SchedulerView { timers: self.timers@, workers: self.workers@ }
    }
}

impl Scheduler {
    /// A scheduler with no timer armed and no worker started.
    pub fn new() -> (s: Self)
        ensures
            s@.timers == Map::<i64, Timer>::empty(),
            s@.workers == Set::<i64>::empty(),
    {
        Scheduler { timers: HashMap::new(), workers: HashSet::new() }
    }

    /// Begins the move of a contest into a plan: cancels the timer that is
    /// armed for it, and gives the status to write.
    pub fn enter(&mut self, id: i64, plan: Plan) -> (status: i16)
        ensures
            final(self)@ == old(self)@.entered(id),
            status == status_of(plan),
    {
        broadcast use vstd::std_specs::hash::group_hash_axioms;

        self.timers.remove(&id);
        match plan {
            Plan::Pending { .. } => PENDING,
            Plan::Running { .. } => RUNNING,
            Plan::Ended => ENDED,
        }
    }

    /// Completes the move of a contest once its status is written. A
    /// pending contest gets the timer to its begin. A running contest gets
    /// a worker, unless it has one, and the timer to its end. An ended
    /// contest gets no timer; its worker is torn down after the grace
    /// delay.
    pub fn settle(&mut self, id: i64, plan: Plan) -> (r: Settled)
        ensures
            final(self)@ == old(self)@.settled(id, plan),
            r == old(self)@.settlement(id, plan),
    {
        broadcast use vstd::std_specs::hash::group_hash_axioms;

        match plan {
            Plan::Pending { to_running, to_end } => {
                let timer = Timer { delay: to_running, next: Plan::Running { to_end } };
                self.timers.insert(id, timer);
                Settled { start_worker: false, arm: Some(timer), teardown_after: None }
            },
            Plan::Running { to_end } => {
                let timer = Timer { delay: to_end, next: Plan::Ended };
                let had = self.workers.contains(&id);
                self.workers.insert(id);
                self.timers.insert(id, timer);
                Settled { start_worker: !had, arm: Some(timer), teardown_after: None }
            },
            Plan::Ended => Settled {
                start_worker: false,
                arm: None,
                teardown_after: Some(WAITING_TIME_CLOSE_JUDGING_QUEUE),
            },
        }
    }

    /// The plan that a contest enters when its timer fires; `None` where
    /// no timer is armed for it.
    pub fn fire(&self, id: i64) -> (next: Option<Plan>)
        ensures
            next == if self@.timers.contains_key(id) {
                Some(self@.timers[id].next)
            } else {
                None
            },
    {
        broadcast use vstd::std_specs::hash::group_hash_axioms;

        match self.timers.get(&id) {
            Some(timer) => Some(timer.next),
            None => None,
        }
    }

    /// Whether the results of a contest are aggregated.
    pub fn has_worker(&self, id: i64) -> (b: bool)
        ensures
            b == self@.workers.contains(id),
    {
        broadcast use vstd::std_specs::hash::group_hash_axioms;

        self.workers.contains(&id)
    }

    /// Forgets the worker of a contest, and says whether there was one to
    /// close. Results that arrive later are not aggregated.
    pub fn teardown(&mut self, id: i64) -> (close: bool)
        ensures
            final(self)@ == old(self)@.torn_down(id),
            close == old(self)@.workers.contains(id),
    {
        broadcast use vstd::std_specs::hash::group_hash_axioms;

        self.workers.remove(&id)
    }
}

/// Whether an identity taken from an aggregation queue closes the queue.
pub fn is_close(sid: i64) -> (b: bool)
    ensures
        b == (sid == CLOSE),
{
    sid == CLOSE
}

/// Where the aggregation worker of a contest stands.
#[derive(Debug, Clone, Copy, PartialEq, Eq, Structural)]
pub enum Working {
    /// It waits for the next identity of its queue.
    Waiting,
    /// It reads the submission.
    Loading { sid: i64 },
    /// It marks the ranklist of the contest.
    Marking { sid: i64, cid: i64 },
    /// It folds the result into the team and into the tally of the
    /// problem, both at once, and waits for both.
    Folding { sid: i64 },
    /// Its queue is closed.
    Closed,
}

/// What the worker hears.
#[derive(Debug, Clone, Copy, PartialEq, Eq, Structural)]
pub enum Heard {
    /// The queue gave this identity.
    Taken(i64),
    /// The submission was read; it belongs to this contest.
    Loaded(i64),
    /// What was asked for is done.
    Done,
    /// What was asked for failed.
    Failed,
}

/// What the worker does next.
#[derive(Debug, Clone, Copy, PartialEq, Eq, Structural)]
pub enum Work {
    /// Take the next identity from the queue.
    Take,
    /// Read the submission.
    Load { sid: i64 },
    /// Mark the ranklist of the contest as out of date.
    Mark { cid: i64 },
    /// Fold the result into the team's result and into the tally of the
    /// problem, both at once, and wait for both.
    Fold { sid: i64 },
    /// End.
    Stop,
}

/// The phase that the worker enters and what it does, given what it
/// heard. The identity that closes the queue ends the worker. A
/// submission that cannot be read is passed over. The ranklist is marked
/// before the result is folded in, and the next identity is taken only
/// when both foldings have ended, whatever came of them.
pub open spec fn worked(phase: Working, heard: Heard) -> (Working, Work) {
    match phase {
        Working::Waiting => match heard {
            Heard::Taken(sid) => if sid == CLOSE {
                (Working::Closed, Work::Stop)
            } else {
                (Working::Loading { sid }, Work::Load { sid })
            },
            Heard::Failed => (Working::Closed, Work::Stop),
            _ => (Working::Waiting, Work::Take),
        },
        Working::Loading { sid } => match heard {
            Heard::Loaded(cid) => (Working::Marking { sid, cid }, Work::Mark { cid }),
            _ => (Working::Waiting, Work::Take),
        },
        Working::Marking { sid, cid } => (Working::Folding { sid }, Work::Fold { sid }),
        Working::Folding { sid } => (Working::Waiting, Work::Take),
        Working::Closed => (Working::Closed, Work::Stop),
    }
}

/// Takes the aggregation worker one step on. The worker begins waiting,
/// with `Work::Take`.
pub fn work(phase: Working, heard: Heard) -> (r: (Working, Work))
    ensures
        r == worked(phase, heard),
{
    match phase {
        Working::Waiting => match heard {
            Heard::Taken(sid) => {
                if sid == CLOSE {
                    (Working::Closed, Work::Stop)
                } else {
                    (Working::Loading { sid }, Work::Load { sid })
                }
            },
            Heard::Failed => (Working::Closed, Work::Stop),
            _ => (Working::Waiting, Work::Take),
        },
        Working::Loading { sid } => match heard {
            Heard::Loaded(cid) => (Working::Marking { sid, cid }, Work::Mark { cid }),
            _ => (Working::Waiting, Work::Take),
        },
        Working::Marking { sid, cid } => (Working::Folding { sid }, Work::Fold { sid }),
        Working::Folding { sid } => (Working::Waiting, Work::Take),
        Working::Closed => (Working::Closed, Work::Stop),
    }
}

/// The ranklist is marked before a result is folded in: a folding is only
/// ever begun by the step that follows the marking, for the submission
/// that was read; a marking is always followed by that folding; and the
/// next identity is taken only when the worker waits, has passed a
/// submission over, or has seen both foldings end.
pub proof fn law_mark_comes_first(phase: Working, heard: Heard)
    ensures
        ({
            let (next, action) = worked(phase, heard);
            &&& action matches Work::Fold { sid } ==> phase matches Working::Marking {
                sid: marked,
                cid,
            } && marked == sid
            &&& phase is Marking ==> action is Fold
            &&& action matches Work::Mark { cid } ==> phase is Loading && heard == Heard::Loaded(cid)
            &&& action is Take ==> phase is Waiting || phase is Loading || phase is Folding
            &&& phase is Waiting && heard == Heard::Taken(CLOSE) ==> action is Stop
            &&& phase is Closed ==> action is Stop && next is Closed
        }),
{
}

/// A contest that is put before its begin is pending with one timer, which
/// fires at the begin and leads to running; running, it has a worker and
/// one timer, which fires at the end and leads to ended; ended, it has no
/// timer.
pub proof fn law_lifecycle(v: SchedulerView, id: i64, begin: i64, length: i32, now: i64)
    requires
        schedulable(begin, length, now),
        begin > now,
        length > 0,
    ensures
        ({
            let pending = plan_of(begin, length, now);
            let v1 = v.moved(id, pending);
            let running = v1.timers[id].next;
            let v2 = v1.moved(id, running);
            let ended = v2.timers[id].next;
            let v3 = v2.moved(id, ended);
            &&& status_of(pending) == PENDING
            &&& v1.timers.contains_key(id)
            &&& v1.timers[id].delay == begin - now
            &&& status_of(running) == RUNNING
            &&& v2.timers.contains_key(id)
            &&& v2.timers[id].delay == length * 60000
            &&& v2.workers.contains(id)
            &&& status_of(ended) == ENDED
            &&& !v3.timers.contains_key(id)
            &&& v3.settlement(id, ended).teardown_after == Some(WAITING_TIME_CLOSE_JUDGING_QUEUE)
        }),
{
}

/// A contest whose begin has passed and whose end is still to come starts
/// as running; one whose end has passed starts as ended, with no timer.
pub proof fn law_late_start(v: SchedulerView, id: i64, begin: i64, length: i32, now: i64)
    requires
        schedulable(begin, length, now),
        begin <= now,
    ensures
        end_of(begin, length) > now ==> status_of(plan_of(begin, length, now)) == RUNNING
            && v.moved(id, plan_of(begin, length, now)).timers[id].delay == end_of(begin, length)
            - now,
        end_of(begin, length) <= now ==> status_of(plan_of(begin, length, now)) == ENDED
            && !v.moved(id, plan_of(begin, length, now)).timers.contains_key(id),
{
}

/// Moving a contest leaves the timers and workers of every other contest
/// as they are, and leaves the contest at most the one timer of its plan.
pub proof fn law_one_timer(v: SchedulerView, id: i64, plan: Plan, other: i64)
    requires
        other != id,
    ensures
        v.moved(id, plan).timers.contains_key(other) == v.timers.contains_key(other),
        v.timers.contains_key(other) ==> v.moved(id, plan).timers[other] == v.timers[other],
        v.moved(id, plan).workers.contains(other) == v.workers.contains(other),
        v.moved(id, plan).timers.contains_key(id) ==> Some(v.moved(id, plan).timers[id])
            == v.settlement(id, plan).arm,
        v.moved(id, plan).timers.contains_key(id) == !(plan is Ended),
{
}

} // verus!
