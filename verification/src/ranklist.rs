//! The ranklist cache: when the cached standings of a contest are read,
//! built or rebuilt.
//!
//! A contest is marked when a result arrives. The first reader that finds
//! the mark beside a cached list claims the rebuild; until it has finished,
//! every other reader is told to wait, so that no two rebuilds run at once.
//! The caller keeps the board behind one lock and calls `claim` and
//! `finish` under it.

use std::collections::HashMap;
use vstd::prelude::*;

verus! {

/// How the cached standings of a contest stand to the results.
#[derive(Debug, Clone, Copy, PartialEq, Eq, Structural)]
pub enum Mark {
    /// A result has arrived since the list was built.
    Dirty,
    /// A reader is rebuilding the list.
    Rebuilding,
    /// A reader is rebuilding the list, and a result has arrived since it
    /// began.
    Stale,
}

/// What a reader has to do.
#[derive(Debug, Clone, Copy, PartialEq, Eq, Structural)]
pub enum Decision {
    /// No list is cached: build one and store it.
    Build,
    /// The list is out of date: rebuild it, store it, and call `finish`.
    Rebuild,
    /// Another reader is rebuilding the list: wait and ask again.
    Wait,
    /// Read the cached list.
    Read,
}

/// The marks once a result has arrived for a contest.
pub open spec fn marked(marks: Map<i64, Mark>, cid: i64) -> Map<i64, Mark> {
    if marks.contains_key(cid) && marks[cid] != Mark::Dirty {
        marks.insert(cid, Mark::Stale)
    } else {
        marks.insert(cid, Mark::Dirty)
    }
}

/// What a reader is told.
pub open spec fn decision(marks: Map<i64, Mark>, cid: i64, cached: bool) -> Decision {
    if marks.contains_key(cid) && marks[cid] != Mark::Dirty {
        Decision::Wait
    } else if !cached {
        Decision::Build
    } else if marks.contains_key(cid) {
        Decision::Rebuild
    } else {
        Decision::Read
    }
}

/// The marks once a reader has been told what to do.
pub open spec fn claimed(marks: Map<i64, Mark>, cid: i64, cached: bool) -> Map<i64, Mark> {
    if decision(marks, cid, cached) == Decision::Rebuild {
        marks.insert(cid, Mark::Rebuilding)
    } else {
        marks
    }
}

/// The marks once a rebuild has ended. A rebuild that failed, or during
/// which a result arrived, leaves the contest marked.
pub open spec fn finished(marks: Map<i64, Mark>, cid: i64, stored: bool) -> Map<i64, Mark> {
    if !marks.contains_key(cid) || marks[cid] == Mark::Dirty {
        marks
    } else if marks[cid] == Mark::Rebuilding && stored {
        marks.remove(cid)
    } else {
        marks.insert(cid, Mark::Dirty)
    }
}

/// The marks of the contests whose cached standings are out of date.
pub struct RankBoard {
    marks: HashMap<i64, Mark>,
}

impl View for RankBoard {
    type V = Map<i64, Mark>;

    closed spec fn view(&self) -> Map<i64, Mark> {
        self.marks@
    }
}

impl RankBoard {
    /// A board without marks.
    pub fn new() -> (b: Self)
        ensures
            b@ == Map::<i64, Mark>::empty(),
    {
        RankBoard { marks: HashMap::new() }
    }

    /// Marks a contest: a result has arrived.
    pub fn mark(&mut self, cid: i64)
        ensures
            final(self)@ == marked(old(self)@, cid),
    {
        broadcast use vstd::std_specs::hash::group_hash_axioms;

        let rebuilding = match self.marks.get(&cid) {
            Some(m) => match m {
                Mark::Dirty => false,
                _ => true,
            },
            None => false,
        };
        if rebuilding {
            self.marks.insert(cid, Mark::Stale);
        } else {
            self.marks.insert(cid, Mark::Dirty);
        }
    }

    /// Whether a contest is marked.
    pub fn is_marked(&self, cid: i64) -> (b: bool)
        ensures
            b == self@.contains_key(cid),
    {
        broadcast use vstd::std_specs::hash::group_hash_axioms;

        self.marks.contains_key(&cid)
    }

    /// Tells a reader what to do, given whether a list is cached. The
    /// reader that is told to rebuild holds the rebuild until it calls
    /// `finish`.
    pub fn claim(&mut self, cid: i64, cached: bool) -> (d: Decision)
        ensures
            d == decision(old(self)@, cid, cached),
            final(self)@ == claimed(old(self)@, cid, cached),
    {
        broadcast use vstd::std_specs::hash::group_hash_axioms;

        let mark: Option<Mark> = match self.marks.get(&cid) {
            Some(m) => Some(*m),
            None => None,
        };
        match mark {
            Some(Mark::Rebuilding) => Decision::Wait,
            Some(Mark::Stale) => Decision::Wait,
            Some(Mark::Dirty) => {
                if cached {
                    self.marks.insert(cid, Mark::Rebuilding);
                    Decision::Rebuild
                } else {
                    Decision::Build
                }
            },
            None => {
                if cached {
                    Decision::Read
                } else {
                    Decision::Build
                }
            },
        }
    }

    /// Ends a rebuild; `stored` says whether the new list was stored.
    pub fn finish(&mut self, cid: i64, stored: bool)
        ensures
            final(self)@ == finished(old(self)@, cid, stored),
    {
        broadcast use vstd::std_specs::hash::group_hash_axioms;

        let mark: Option<Mark> = match self.marks.get(&cid) {
            Some(m) => Some(*m),
            None => None,
        };
        match mark {
            Some(Mark::Rebuilding) => {
                if stored {
                    self.marks.remove(&cid);
                } else {
                    self.marks.insert(cid, Mark::Dirty);
                }
            },
            Some(Mark::Stale) => {
                self.marks.insert(cid, Mark::Dirty);
            },
            _ => {},
        }
    }

    /// Forgets the mark of a contest.
    pub fn clear(&mut self, cid: i64)
        ensures
            final(self)@ == old(self)@.remove(cid),
    {
        broadcast use vstd::std_specs::hash::group_hash_axioms;

        self.marks.remove(&cid);
    }
}

/// After a result has arrived, the next reader of a cached list rebuilds
/// it; whoever reads before that rebuild has ended waits and rebuilds
/// nothing; once the rebuild has ended the mark is gone and readers read.
pub proof fn law_one_rebuild(marks: Map<i64, Mark>, cid: i64)
    requires
        !marks.contains_key(cid),
    ensures
        ({
            let dirty = marked(marks, cid);
            let held = claimed(dirty, cid, true);
            let clean = finished(held, cid, true);
            &&& decision(dirty, cid, true) == Decision::Rebuild
            &&& decision(held, cid, true) == Decision::Wait
            &&& claimed(held, cid, true) == held
            &&& !clean.contains_key(cid)
            &&& decision(clean, cid, true) == Decision::Read
            &&& claimed(clean, cid, true) == clean
        }),
{
}

/// At most one reader holds the rebuild of a contest: while one does, no
/// reader is told to rebuild, whatever has been marked since.
pub proof fn law_rebuild_is_exclusive(marks: Map<i64, Mark>, cid: i64, cached: bool)
    requires
        marks.contains_key(cid),
        marks[cid] != Mark::Dirty,
    ensures
        decision(marks, cid, cached) == Decision::Wait,
        decision(marked(marks, cid), cid, cached) == Decision::Wait,
{
}

/// A result that arrives while a list is being rebuilt is not lost: the
/// contest is marked when the rebuild ends, and the next reader rebuilds.
pub proof fn law_mark_survives_rebuild(marks: Map<i64, Mark>, cid: i64, stored: bool)
    requires
        marks.contains_key(cid),
        marks[cid] == Mark::Rebuilding,
    ensures
        decision(finished(marked(marks, cid), cid, stored), cid, true) == Decision::Rebuild,
{
}

} // verus!
