//! Folding the result of a contest submission into the standings: the
//! team's result for the problem's label, and the contest's tally for the
//! problem.

use crate::status::{verdict, verdict_of, Verdict, AC};
use vstd::prelude::*;

verus! {

/// A problem of a contest with its tally: how often it was attempted and
/// solved, and when it was first solved.
#[derive(Debug, Clone, Default, PartialEq, Eq)]
pub struct ContestProblem {
    pub pid: i64,
    pub index: String,
    pub title: String,
    pub label: String,
    pub first_solve_time: Option<i64>,
    pub accepted_count: Option<i32>,
    pub all_count: Option<i32>,
}

/// What a team has achieved on one problem.
#[derive(Debug, Clone, Default, PartialEq, Eq)]
pub struct ProblemStatus {
    pub label: String,
    pub fail_times: i32,
    /// When the team passed the problem, in milliseconds.
    pub pass_time: Option<i64>,
    pub score: i32,
}

/// A `ProblemStatus` as contracts see it.
pub struct ProblemStatusView {
    pub label: Seq<char>,
    pub fail_times: i32,
    pub pass_time: Option<i64>,
    pub score: i32,
}

impl View for ProblemStatus {
    type V = ProblemStatusView;

    open spec fn view(&self) -> ProblemStatusView {
        ProblemStatusView {
            label: self.label@,
            fail_times: self.fail_times,
            pass_time: self.pass_time,
            score: self.score,
        }
    }
}

/// An earlier attempt of a team at a problem.
#[derive(Debug, Clone, Copy, PartialEq, Eq, Structural)]
pub struct Attempt {
    pub status: i32,
    pub created_at: i64,
}

/// The view of an optional status.
pub open spec fn status_view(s: Option<ProblemStatus>) -> Option<ProblemStatusView> {
    match s {
        Some(p) => Some(p@),
        None => None,
    }
}

/// The failures before the first accepted attempt, and the moment of that
/// attempt. Attempts that are not judged yet do not count. Where no
/// attempt is accepted, the moment stays what it was.
pub open spec fn tally(attempts: Seq<Attempt>, fails: int, pass: Option<i64>) -> (int, Option<i64>)
    decreases attempts.len(),
{
    if attempts.len() == 0 {
        (fails, pass)
    } else {
        match verdict(attempts[0].status) {
            Verdict::Waiting => tally(attempts.skip(1), fails, pass),
            Verdict::Accepted => (fails, Some(attempts[0].created_at)),
            Verdict::Rejected => tally(attempts.skip(1), fails + 1, pass),
        }
    }
}

/// What a team has on a label before a result is folded in.
pub open spec fn starting(current: Option<ProblemStatusView>, label: Seq<char>) -> ProblemStatusView {
    match current {
        Some(p) => p,
        None => ProblemStatusView { label, fail_times: 0, pass_time: None, score: 0 },
    }
}

/// What a team has on a label once a result is folded in; `None` where the
/// result changes nothing, which is so whenever the team has passed at or
/// before the moment of the submission.
pub open spec fn team_result(
    current: Option<ProblemStatusView>,
    label: Seq<char>,
    status: i32,
    created_at: i64,
    partial: i32,
    attempts: Seq<Attempt>,
) -> Option<ProblemStatusView> {
    let ps = starting(current, label);
    if ps.pass_time is Some && ps.pass_time.unwrap() <= created_at {
        None
    } else if status == AC {
        Some(
            ProblemStatusView {
                fail_times: tally(attempts, 0, ps.pass_time).0 as i32,
                pass_time: tally(attempts, 0, ps.pass_time).1,
                score: 100,
                ..ps
            },
        )
    } else {
        Some(
            ProblemStatusView {
                fail_times: (ps.fail_times + 1) as i32,
                score: if ps.score >= partial {
                    ps.score
                } else {
                    partial
                },
                ..ps
            },
        )
    }
}

/// Folds the result of a submission into what its team has on the
/// problem's label. `current` is what the team has so far, `partial` the
/// share of cases passed, in percent, and `attempts` the team's attempts
/// at the problem in the order of their creation.
///
/// An accepted result sets the score to 100, counts the failures before
/// the first accepted attempt and takes that attempt's moment as the pass
/// time. Any other result adds a failure and keeps the higher score. A
/// result that comes no earlier than a recorded pass changes nothing.
pub fn update_team_of_submission(
    current: Option<ProblemStatus>,
    label: &str,
    status: i32,
    created_at: i64,
    partial: i32,
    attempts: &Vec<Attempt>,
) -> (r: Option<ProblemStatus>)
    requires
        attempts.len() <= i32::MAX,
        current is Some ==> current.unwrap().fail_times < i32::MAX,
    ensures
        status_view(r) == team_result(
            status_view(current),
            label@,
            status,
            created_at,
            partial,
            attempts@,
        ),
{
    let mut ps = match current {
        Some(p) => p,
        None => ProblemStatus { label: label.to_owned(), fail_times: 0, pass_time: None, score: 0 },
    };
    assert(ps@ == starting(status_view(current), label@));
    match ps.pass_time {
        Some(passed) => {
            if passed <= created_at {
                return None;
            }
        },
        None => {},
    }
    if status == AC {
        let ghost before = ps.pass_time;
        let mut fails: i32 = 0;
        let mut pass = ps.pass_time;
        let mut i: usize = 0;
        let mut found = false;
        assert(attempts@.skip(0) =~= attempts@);
        while i < attempts.len() && !found
            invariant
                i <= attempts.len(),
                attempts.len() <= i32::MAX,
                0 <= fails <= i,
                !found ==> tally(attempts@, 0, before) == tally(
                    attempts@.skip(i as int),
                    fails as int,
                    before,
                ) && pass == before,
                found ==> tally(attempts@, 0, before) == (fails as int, pass),
            decreases attempts.len() - i + (if found { 0int } else { 1int }),
        {
            proof {
                assert(attempts@.skip(i as int)[0] == attempts@[i as int]);
                assert(attempts@.skip(i as int).skip(1) =~= attempts@.skip(i as int + 1));
            }
            match verdict_of(attempts[i].status) {
                Verdict::Waiting => {
                    i += 1;
                },
                Verdict::Accepted => {
                    pass = Some(attempts[i].created_at);
                    found = true;
                },
                Verdict::Rejected => {
                    fails += 1;
                    i += 1;
                },
            }
        }
        ps.fail_times = fails;
        ps.score = 100;
        ps.pass_time = pass;
    } else {
        ps.fail_times += 1;
        if ps.score < partial {
            ps.score = partial;
        }
    }
    Some(ps)
}

/// A pass that is recorded stands: a result that comes no earlier changes
/// neither the pass time nor the failures.
pub proof fn law_recorded_pass_stands(
    current: ProblemStatusView,
    label: Seq<char>,
    status: i32,
    created_at: i64,
    partial: i32,
    attempts: Seq<Attempt>,
)
    requires
        current.pass_time is Some,
        current.pass_time.unwrap() <= created_at,
    ensures
        team_result(Some(current), label, status, created_at, partial, attempts) is None,
{
}

/// Whether no attempt before position `k` was created after `moment`.
pub open spec fn earlier_up_to(attempts: Seq<Attempt>, k: int, moment: i64) -> bool {
    forall|j: int| 0 <= j < k ==> (#[trigger] attempts[j]).created_at <= moment
}

proof fn lemma_tally_finds_pass(attempts: Seq<Attempt>, fails: int, pass: Option<i64>, k: int)
    requires
        0 <= k < attempts.len(),
        verdict(attempts[k].status) == Verdict::Accepted,
        earlier_up_to(attempts, k, attempts[k].created_at),
    ensures
        tally(attempts, fails, pass).1 is Some,
        tally(attempts, fails, pass).1.unwrap() <= attempts[k].created_at,
    decreases attempts.len(),
{
    if verdict(attempts[0].status) == Verdict::Accepted {
        if k > 0 {
            assert(attempts[0].created_at <= attempts[k].created_at);
        }
    } else {
        let rest = attempts.skip(1);
        assert(rest[k - 1] == attempts[k]);
        assert forall|j: int| 0 <= j < k - 1 implies (#[trigger] rest[j]).created_at <= rest[k
            - 1].created_at by {
            assert(rest[j] == attempts[j + 1]);
        }
        lemma_tally_finds_pass(rest, fails, pass, k - 1);
        lemma_tally_finds_pass(rest, fails + 1, pass, k - 1);
    }
}

/// Folding an accepted submission in a second time changes nothing: once
/// it is among the team's attempts, and no earlier attempt was created
/// after it, the pass time that the first folding records is no later than
/// the submission, so the second folding is turned away.
pub proof fn law_replay_changes_nothing(
    current: Option<ProblemStatusView>,
    label: Seq<char>,
    created_at: i64,
    partial: i32,
    attempts: Seq<Attempt>,
    k: int,
)
    requires
        0 <= k < attempts.len(),
        attempts[k] == (Attempt { status: AC, created_at }),
        earlier_up_to(attempts, k, created_at),
    ensures
        ({
            let first = team_result(current, label, AC, created_at, partial, attempts);
            first is Some ==> team_result(first, label, AC, created_at, partial, attempts) is None
        }),
{
    let ps = starting(current, label);
    lemma_tally_finds_pass(attempts, 0, ps.pass_time, k);
}

/// A tally with every missing number set: no attempt, no solution, and a
/// first solution at the end of time.
pub open spec fn made_up(p: ContestProblem) -> ContestProblem {
    ContestProblem {
        first_solve_time: match p.first_solve_time {
            Some(t) => Some(t),
            None => Some(i64::MAX),
        },
        accepted_count: match p.accepted_count {
            Some(n) => Some(n),
            None => Some(0),
        },
        all_count: match p.all_count {
            Some(n) => Some(n),
            None => Some(0),
        },
        ..p
    }
}

/// Sets every missing number of every tally.
pub fn make_up_problems(problems: &mut Vec<ContestProblem>)
    ensures
        final(problems)@.len() == old(problems)@.len(),
        forall|i: int|
            0 <= i < old(problems)@.len() ==> #[trigger] final(problems)@[i] == made_up(
                old(problems)@[i],
            ),
{
    let n = problems.len();
    let mut i: usize = 0;
    while i < n
        invariant
            i <= n,
            n == problems@.len(),
            n == old(problems)@.len(),
            forall|k: int| 0 <= k < i ==> #[trigger] problems@[k] == made_up(old(problems)@[k]),
            forall|k: int| i <= k < n ==> #[trigger] problems@[k] == old(problems)@[k],
        decreases n - i,
    {
        if problems[i].accepted_count.is_none() {
            problems[i].accepted_count = Some(0);
        }
        if problems[i].all_count.is_none() {
            problems[i].all_count = Some(0);
        }
        if problems[i].first_solve_time.is_none() {
            problems[i].first_solve_time = Some(i64::MAX);
        }
        i += 1;
    }
}

/// A count that may be missing.
pub open spec fn count_of(n: Option<i32>) -> i32 {
    match n {
        Some(x) => x,
        None => 0,
    }
}

/// The tally of a problem with one more attempt, and, where the attempt
/// was accepted, one more solution and the earlier first solution.
pub open spec fn counted(p: ContestProblem, accepted: bool, created_at: i64) -> ContestProblem {
    if accepted {
        ContestProblem {
            all_count: Some((count_of(p.all_count) + 1) as i32),
            accepted_count: Some((count_of(p.accepted_count) + 1) as i32),
            first_solve_time: if p.first_solve_time is None || p.first_solve_time.unwrap()
                > created_at {
                Some(created_at)
            } else {
                p.first_solve_time
            },
            ..p
        }
    } else {
        ContestProblem { all_count: Some((count_of(p.all_count) + 1) as i32), ..p }
    }
}

/// Whether position `i` is the first whose problem is `pid`.
pub open spec fn first_match(problems: Seq<ContestProblem>, pid: i64, i: int) -> bool {
    &&& 0 <= i < problems.len()
    &&& problems[i].pid == pid
    &&& forall|j: int| 0 <= j < i ==> (#[trigger] problems[j]).pid != pid
}

/// Whether every count leaves room for one more.
pub open spec fn countable(problems: Seq<ContestProblem>) -> bool {
    forall|i: int|
        0 <= i < problems.len() ==> count_of((#[trigger] problems[i]).all_count) < i32::MAX
            && count_of(problems[i].accepted_count) < i32::MAX
}

/// Whether every count leaves room for one more.
pub fn can_count(problems: &Vec<ContestProblem>) -> (b: bool)
    ensures
        b == countable(problems@),
{
    let mut i: usize = 0;
    while i < problems.len()
        invariant
            i <= problems.len(),
            forall|k: int|
                0 <= k < i ==> count_of((#[trigger] problems@[k]).all_count) < i32::MAX
                    && count_of(problems@[k].accepted_count) < i32::MAX,
        decreases problems.len() - i,
    {
        let all = match problems[i].all_count {
            Some(x) => x,
            None => 0,
        };
        let accepted = match problems[i].accepted_count {
            Some(x) => x,
            None => 0,
        };
        if all == i32::MAX || accepted == i32::MAX {
            return false;
        }
        i += 1;
    }
    true
}

/// Folds the result of a submission into the tally of its problem: the
/// first problem of the list with the identity `pid`. Every other tally
/// stays as it is.
pub fn update_cproblem_of_submission(
    problems: &mut Vec<ContestProblem>,
    pid: i64,
    accepted: bool,
    created_at: i64,
)
    requires
        countable(old(problems)@),
    ensures
        final(problems)@.len() == old(problems)@.len(),
        forall|i: int|
            0 <= i < old(problems)@.len() ==> #[trigger] final(problems)@[i] == if first_match(
                old(problems)@,
                pid,
                i,
            ) {
                counted(old(problems)@[i], accepted, created_at)
            } else {
                old(problems)@[i]
            },
{
    let n = problems.len();
    let mut i: usize = 0;
    while i < n
        invariant
            i <= n,
            n == problems@.len(),
            problems@ == old(problems)@,
            countable(problems@),
            forall|j: int| 0 <= j < i ==> (#[trigger] problems@[j]).pid != pid,
        decreases n - i,
    {
        if problems[i].pid == pid {
            let all = match problems[i].all_count {
                Some(x) => x,
                None => 0,
            };
            problems[i].all_count = Some(all + 1);
            if accepted {
                let earlier = match problems[i].first_solve_time {
                    Some(t) => t <= created_at,
                    None => false,
                };
                if !earlier {
                    problems[i].first_solve_time = Some(created_at);
                }
                let solved = match problems[i].accepted_count {
                    Some(x) => x,
                    None => 0,
                };
                problems[i].accepted_count = Some(solved + 1);
            }
            assert(first_match(old(problems)@, pid, i as int));
            assert(problems@[i as int] == counted(old(problems)@[i as int], accepted, created_at));
            return ;
        }
        i += 1;
    }
}

} // verus!
