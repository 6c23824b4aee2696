//! Judge dispatch: the slot pool that bounds the calls to the judging
//! service, and the order of the steps that a submission goes through.

use crate::model::problem::{Checker, SpjConfig, TestCase};
use crate::model::submission::CaseResult;
use crate::status::{AC, QUEUEING, RUNNING};
use crate::text::{double_quotes, doubled_quotes};
use crate::value::{Record, Value, ValueView};
use vstd::prelude::*;

verus! {

/// How many calls to the judging service may be under way at once.
pub const MAX_JUDGE_TASKS: usize = 2;

/// The seconds a live status key lives.
pub const TMP_STATUS_EXPIRE: usize = 120;

/// The slot pool as contracts see it.
pub struct PoolView {
    pub capacity: nat,
    /// The slots that are taken.
    pub held: nat,
    /// The tickets that wait for a slot, the first in front.
    pub waiting: Seq<u64>,
}

impl PoolView {
    /// No more slots are taken than there are, and a ticket waits only
    /// while every slot is taken.
    pub open spec fn wf(self) -> bool {
        &&& self.held <= self.capacity
        &&& self.waiting.len() > 0 ==> self.held == self.capacity
    }

    /// The pool once a ticket has asked for a slot.
    pub open spec fn acquired(self, ticket: u64) -> PoolView {
        if self.held < self.capacity {
            PoolView { held: self.held + 1, ..self }
        } else {
            PoolView { waiting: self.waiting.push(ticket), ..self }
        }
    }

    /// The pool once a slot has been given back.
    pub open spec fn released(self) -> PoolView {
        if self.waiting.len() > 0 {
            PoolView { waiting: self.waiting.skip(1), ..self }
        } else {
            PoolView { held: (self.held - 1) as nat, ..self }
        }
    }
}

/// A pool of slots. A ticket that asks for a slot while all are taken
/// waits in line and gets the slot that is given back next.
pub struct SlotPool {
    capacity: usize,
    held: usize,
    waiting: Vec<u64>,
}

impl View for SlotPool {
    type V = PoolView;

    closed spec fn view(&self) -> PoolView {
        PoolView { capacity: self.capacity as nat, held: self.held as nat, waiting: self.waiting@ }
    }
}

impl SlotPool {
    /// A pool of `capacity` free slots.
    pub fn new(capacity: usize) -> (p: Self)
        ensures
            p@ == (PoolView { capacity: capacity as nat, held: 0, waiting: Seq::empty() }),
            p@.wf(),
    {
        SlotPool { capacity, held: 0, waiting: Vec::new() }
    }

    /// The slots that are taken.
    pub fn in_flight(&self) -> (n: usize)
        ensures
            n == self@.held,
    {
        self.held
    }

    /// The tickets that wait.
    pub fn queued(&self) -> (n: usize)
        ensures
            n == self@.waiting.len(),
    {
        self.waiting.len()
    }

    /// Asks for a slot. `true`: the ticket has its slot. `false`: every
    /// slot is taken and the ticket waits for a `release` to name it.
    pub fn acquire(&mut self, ticket: u64) -> (granted: bool)
        requires
            old(self)@.wf(),
        ensures
            final(self)@ == old(self)@.acquired(ticket),
            final(self)@.wf(),
            granted == (old(self)@.held < old(self)@.capacity),
    {
        if self.held < self.capacity {
            self.held += 1;
            true
        } else {
            self.waiting.push(ticket);
            false
        }
    }

    /// Gives a slot back. Where a ticket waits, the slot goes to the first
    /// in line, which is returned; else the slot is free again.
    pub fn release(&mut self) -> (next: Option<u64>)
        requires
            old(self)@.wf(),
            old(self)@.held > 0,
        ensures
            final(self)@ == old(self)@.released(),
            final(self)@.wf(),
            next == if old(self)@.waiting.len() > 0 {
                Some(old(self)@.waiting[0])
            } else {
                None
            },
    {
        if self.waiting.len() > 0 {
            let ticket = self.waiting.remove(0);
            assert(self.waiting@ =~= old(self)@.waiting.skip(1));
            Some(ticket)
        } else {
            self.held -= 1;
            None
        }
    }
}

/// What is done to a pool.
#[derive(Debug, Clone, Copy, PartialEq, Eq, Structural)]
pub enum PoolOp {
    Acquire(u64),
    Release,
}

/// The pool after a sequence of requests and returns. A return without a
/// slot taken is left out.
pub open spec fn pool_after(pool: PoolView, ops: Seq<PoolOp>) -> PoolView
    decreases ops.len(),
{
    if ops.len() == 0 {
        pool
    } else {
        let before = pool_after(pool, ops.drop_last());
        match ops.last() {
            PoolOp::Acquire(ticket) => before.acquired(ticket),
            PoolOp::Release => if before.held > 0 {
                before.released()
            } else {
                before
            },
        }
    }
}

/// Whatever is asked of a pool, in whatever order, no more calls are under
/// way than it has slots.
pub proof fn law_admission(pool: PoolView, ops: Seq<PoolOp>)
    requires
        pool.wf(),
    ensures
        pool_after(pool, ops).wf(),
        pool_after(pool, ops).held <= pool.capacity,
        pool_after(pool, ops).capacity == pool.capacity,
    decreases ops.len(),
{
    if ops.len() > 0 {
        law_admission(pool, ops.drop_last());
    }
}

/// A ticket that asks while every slot is taken waits, and it is the
/// return of a slot that lets the first in line proceed.
pub proof fn law_full_pool_waits(pool: PoolView, ticket: u64)
    requires
        pool.wf(),
        pool.held == pool.capacity,
        pool.capacity > 0,
    ensures
        pool.acquired(ticket).held == pool.held,
        pool.acquired(ticket).waiting == pool.waiting.push(ticket),
        pool.acquired(ticket).released().waiting.len() == pool.waiting.len(),
        pool.waiting.len() == 0 ==> pool.acquired(ticket).released().waiting.len() == 0
            && pool.acquired(ticket).released().held == pool.capacity,
{
}

/// Where a submission stands on its way through the judge.
#[derive(Debug, Clone, Copy, PartialEq, Eq, Structural)]
#[allow(inconsistent_fields)]
pub enum Phase {
    /// The row is being inserted.
    Created,
    /// The live status is being set to queueing.
    Queueing { sid: i64 },
    /// The submission waits for a slot.
    Waiting { sid: i64 },
    /// It holds a slot; the live status is being set to running.
    Starting { sid: i64 },
    /// It holds a slot; the judge configuration is being made.
    Configuring { sid: i64 },
    /// It holds a slot; the judging service is at work.
    Judging { sid: i64 },
    /// The slot is being given back; `status` is the verdict, if there is
    /// one.
    Releasing { sid: i64, status: Option<i32> },
    /// The result is being written and the side effects are sent off.
    Publishing { sid: i64, status: i32 },
    /// The submission is through.
    Finished,
    /// The submission was given up.
    Aborted,
}

/// What has happened to a submission.
#[derive(Debug, Clone, Copy, PartialEq, Eq, Structural)]
pub enum Event {
    /// The row was inserted under this identity.
    Inserted(i64),
    /// What was asked for is done.
    Done,
    /// What was asked for failed.
    Failed,
    /// The submission has its slot.
    Granted,
    /// The judging service gave this status.
    Verdict(i32),
}

/// What the caller has to do next for a submission.
#[derive(Debug, Clone, Copy, PartialEq, Eq, Structural)]
pub enum Action {
    /// Set the live status key of the submission.
    SetLive { sid: i64, status: i32 },
    /// Ask the slot pool for a slot.
    Acquire { sid: i64 },
    /// Read the problem and make the judge configuration.
    Configure { sid: i64 },
    /// Call the judging service.
    Judge { sid: i64 },
    /// Give the slot back.
    Release { sid: i64 },
    /// Set the live status to the verdict, write the result to the
    /// relational store, and send off the side effects.
    Publish { sid: i64, status: i32 },
    /// Report the failure to the caller: nothing was inserted.
    Reject,
    /// Nothing is left to do.
    Stop,
}

/// Whether a submission holds a slot.
pub open spec fn holds_slot(phase: Phase) -> bool {
    phase is Starting || phase is Configuring || phase is Judging
}

/// The phase and the action that an event leads to.
pub open spec fn advance(phase: Phase, event: Event) -> (Phase, Action) {
    match phase {
        Phase::Created => match event {
            Event::Inserted(sid) => (
                Phase::Queueing { sid },
                Action::SetLive { sid, status: QUEUEING },
            ),
            _ => (Phase::Aborted, Action::Reject),
        },
        Phase::Queueing { sid } => match event {
            Event::Done => (Phase::Waiting { sid }, Action::Acquire { sid }),
            _ => (Phase::Aborted, Action::Stop),
        },
        Phase::Waiting { sid } => match event {
            Event::Granted => (Phase::Starting { sid }, Action::SetLive { sid, status: RUNNING }),
            _ => (Phase::Aborted, Action::Stop),
        },
        Phase::Starting { sid } => match event {
            Event::Done => (Phase::Configuring { sid }, Action::Configure { sid }),
            _ => (Phase::Releasing { sid, status: None }, Action::Release { sid }),
        },
        Phase::Configuring { sid } => match event {
            Event::Done => (Phase::Judging { sid }, Action::Judge { sid }),
            _ => (Phase::Releasing { sid, status: None }, Action::Release { sid }),
        },
        Phase::Judging { sid } => match event {
            Event::Verdict(status) => (
                Phase::Releasing { sid, status: Some(status) },
                Action::Release { sid },
            ),
            _ => (Phase::Releasing { sid, status: None }, Action::Release { sid }),
        },
        Phase::Releasing { sid, status } => match status {
            Some(code) => (Phase::Publishing { sid, status: code }, Action::Publish { sid, status: code }),
            None => (Phase::Aborted, Action::Stop),
        },
        Phase::Publishing { sid, status } => (Phase::Finished, Action::Stop),
        Phase::Finished => (Phase::Finished, Action::Stop),
        Phase::Aborted => (Phase::Aborted, Action::Stop),
    }
}

/// Takes a submission one step on: from the phase it is in and what has
/// happened, to the phase it enters and what is to be done. The steps
/// follow one another in this order: insert the row, set the live status
/// to queueing, acquire a slot, set the live status to running, make the
/// configuration, judge, release the slot, publish.
pub fn handle_submission(phase: Phase, event: Event) -> (r: (Phase, Action))
    ensures
        r == advance(phase, event),
{
    match phase {
        Phase::Created => match event {
            Event::Inserted(sid) => (
                Phase::Queueing { sid },
                Action::SetLive { sid, status: QUEUEING },
            ),
            _ => (Phase::Aborted, Action::Reject),
        },
        Phase::Queueing { sid } => match event {
            Event::Done => (Phase::Waiting { sid }, Action::Acquire { sid }),
            _ => (Phase::Aborted, Action::Stop),
        },
        Phase::Waiting { sid } => match event {
            Event::Granted => (Phase::Starting { sid }, Action::SetLive { sid, status: RUNNING }),
            _ => (Phase::Aborted, Action::Stop),
        },
        Phase::Starting { sid } => match event {
            Event::Done => (Phase::Configuring { sid }, Action::Configure { sid }),
            _ => (Phase::Releasing { sid, status: None }, Action::Release { sid }),
        },
        Phase::Configuring { sid } => match event {
            Event::Done => (Phase::Judging { sid }, Action::Judge { sid }),
            _ => (Phase::Releasing { sid, status: None }, Action::Release { sid }),
        },
        Phase::Judging { sid } => match event {
            Event::Verdict(status) => (
                Phase::Releasing { sid, status: Some(status) },
                Action::Release { sid },
            ),
            _ => (Phase::Releasing { sid, status: None }, Action::Release { sid }),
        },
        Phase::Releasing { sid, status } => match status {
            Some(code) => (Phase::Publishing { sid, status: code }, Action::Publish { sid, status: code }),
            None => (Phase::Aborted, Action::Stop),
        },
        Phase::Publishing { sid, status } => (Phase::Finished, Action::Stop),
        Phase::Finished => (Phase::Finished, Action::Stop),
        Phase::Aborted => (Phase::Aborted, Action::Stop),
    }
}

/// A slot is taken by the one step that follows the grant, and given back
/// by the one step that leaves the phases that hold it: whatever happens
/// to a submission that holds a slot, the slot is released, and no step
/// releases a slot that is not held.
pub proof fn law_slot_is_returned(phase: Phase, event: Event)
    ensures
        ({
            let (next, action) = advance(phase, event);
            &&& (holds_slot(phase) && !holds_slot(next)) == (action is Release)
            &&& (!holds_slot(phase) && holds_slot(next)) == (phase is Waiting && event is Granted)
            &&& action is Judge ==> holds_slot(phase) && holds_slot(next)
        }),
{
}

/// Which sort of submission is on its way.
#[derive(Debug, Clone, Copy, PartialEq, Eq, Structural)]
pub enum Flow {
    Practice,
    Contest,
    Test,
}

/// A side effect of a judged submission. Each is sent off on its own; its
/// failure is the caller's to log and fails nothing else.
#[derive(Debug, Clone, Copy, PartialEq, Eq, Structural)]
pub enum Effect {
    /// Count the attempt, and the solution where it is one, in the tally
    /// of the problem.
    ProblemStats { accepted: bool },
    /// Fold the result into the statistics of the author.
    UserStats { accepted: bool },
    /// Hand the submission to the aggregation worker of its contest, where
    /// the contest has one.
    Aggregate,
}

/// The side effects of a judged submission. `written` says whether the
/// result was written to the relational store.
pub open spec fn effects_of(flow: Flow, status: i32, written: bool) -> Seq<Effect> {
    match flow {
        Flow::Practice => seq![
            Effect::ProblemStats { accepted: status == AC },
            Effect::UserStats { accepted: status == AC },
        ],
        Flow::Contest => if written {
            seq![Effect::Aggregate]
        } else {
            Seq::empty()
        },
        Flow::Test => Seq::empty(),
    }
}

/// The side effects of a judged submission. A practice submission changes
/// the tally of its problem and the statistics of its author, whether or
/// not its result could be written. A contest submission is aggregated
/// once its result is written. A test submission has none.
pub fn effects(flow: Flow, status: i32, written: bool) -> (list: Vec<Effect>)
    ensures
        list@ == effects_of(flow, status, written),
{
    let mut list: Vec<Effect> = Vec::new();
    match flow {
        Flow::Practice => {
            list.push(Effect::ProblemStats { accepted: status == AC });
            list.push(Effect::UserStats { accepted: status == AC });
        },
        Flow::Contest => {
            if written {
                list.push(Effect::Aggregate);
            }
        },
        Flow::Test => {},
    }
    assert(list@ =~= effects_of(flow, status, written));
    list
}

/// The fields of a problem that a judged submission adds one to.
pub fn counted_fields(accepted: bool) -> (names: Vec<String>)
    ensures
        crate::text::texts(names@) == if accepted {
            seq!["accepted_count"@, "all_count"@]
        } else {
            seq!["all_count"@]
        },
{
    let mut names: Vec<String> = Vec::new();
    if accepted {
        names.push(String::from_str("accepted_count"));
    }
    names.push(String::from_str("all_count"));
    assert(crate::text::texts(names@) =~= if accepted {
        seq!["accepted_count"@, "all_count"@]
    } else {
        seq!["all_count"@]
    });
    names
}

/// Whether every case of a contest submission is run: in every format but
/// `ACM`.
pub fn runs_all_cases(format: &str) -> (b: bool)
    ensures
        b == (format@ != "ACM"@),
{
    !crate::text::same_text(format, "ACM")
}

/// What the judging service is asked.
#[derive(Debug)]
pub struct JudgeConfig {
    pub lang: String,
    pub src: String,
    /// The most processor time, in milliseconds.
    pub max_cpu_time: i32,
    /// The most memory, in bytes.
    pub max_memory: i32,
    /// The directory of the test cases.
    pub io_dir: String,
    pub test_cases: Vec<TestCase>,
    pub checker: Option<Checker>,
    pub spj_config: Option<SpjConfig>,
    pub seccomp_rule: Option<String>,
    pub resource_rule: Option<i8>,
    pub test_all: Option<bool>,
}

/// What the judging service answers.
#[derive(Debug)]
pub struct JudgeResult {
    pub compile_info: String,
    pub case_count: i16,
    pub pass_count: i16,
    pub time: i32,
    pub memory: i32,
    pub total_time: i32,
    pub status: i32,
    pub error: String,
    pub results: Vec<CaseResult>,
}

/// The bytes of a mebibyte.
pub const MEBIBYTE: i32 = 1048576;

/// The most mebibytes that fit into the memory limit of a request.
pub const MOST_MEBIBYTES: i32 = 2047;

/// The request that judges `code` against a problem: the problem's index
/// names the directory of its test cases, its time limit is taken as it
/// is, its memory limit goes from mebibytes to bytes.
pub fn make_judge_config(
    index: &str,
    time_limit: i32,
    memory_limit: i32,
    test_cases: Vec<TestCase>,
    checker: Option<Checker>,
    spj_config: Option<SpjConfig>,
    lang: String,
    code: String,
    test_all: bool,
) -> (config: JudgeConfig)
    requires
        -2048 <= memory_limit <= MOST_MEBIBYTES,
    ensures
        config.lang == lang,
        config.src == code,
        config.io_dir@ == index@,
        config.max_cpu_time == time_limit,
        config.max_memory == memory_limit * MEBIBYTE,
        config.test_cases == test_cases,
        config.checker == checker,
        config.spj_config == spj_config,
        config.seccomp_rule is None,
        config.resource_rule is None,
        config.test_all == Some(test_all),
{
    JudgeConfig {
        lang,
        src: code,
        max_cpu_time: time_limit,
        max_memory: memory_limit * 1024 * 1024,
        io_dir: index.to_owned(),
        test_cases,
        checker,
        spj_config,
        seccomp_rule: None,
        resource_rule: None,
        test_all: Some(test_all),
    }
}

/// The columns that the result of the judge writes into a submission.
/// `details` is the JSON text of the results of the cases.
pub open spec fn update_fields(
    compile_info: Seq<char>,
    case_count: i16,
    pass_count: i16,
    time: i32,
    memory: i32,
    total_time: i32,
    status: i32,
    error: Seq<char>,
    details: Seq<char>,
) -> Map<Seq<char>, ValueView> {
    Map::<Seq<char>, ValueView>::empty().insert(
        "case_count"@,
        ValueView::Int(case_count as i64),
    ).insert("compile_info"@, ValueView::Text(doubled_quotes(compile_info))).insert(
        "details"@,
        ValueView::Json(details),
    ).insert("error"@, ValueView::Text(error)).insert("memory"@, ValueView::Int(memory as i64)).insert(
        "pass_count"@,
        ValueView::Int(pass_count as i64),
    ).insert("status"@, ValueView::Int(status as i64)).insert(
        "time"@,
        ValueView::Int(time as i64),
    ).insert("total_time"@, ValueView::Int(total_time as i64))
}

/// The columns that the result of the judge writes into a submission. The
/// quotes of the compiler's output are doubled.
pub fn make_update_map(res: &JudgeResult, details: &str) -> (columns: Record)
    ensures
        columns@ == update_fields(
            res.compile_info@,
            res.case_count,
            res.pass_count,
            res.time,
            res.memory,
            res.total_time,
            res.status,
            res.error@,
            details@,
        ),
        columns.distinct(),
{
    let mut columns = Record::new();
    columns.insert("case_count", Value::Int(res.case_count as i64));
    columns.insert("compile_info", Value::Text(double_quotes(res.compile_info.as_str())));
    columns.insert("details", Value::json(details));
    columns.insert("error", Value::text(res.error.as_str()));
    columns.insert("memory", Value::Int(res.memory as i64));
    columns.insert("pass_count", Value::Int(res.pass_count as i64));
    columns.insert("status", Value::Int(res.status as i64));
    columns.insert("time", Value::Int(res.time as i64));
    columns.insert("total_time", Value::Int(res.total_time as i64));
    columns
}

} // verus!
