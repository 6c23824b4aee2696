//! Problems and what belongs to them.

use crate::model::traits::{Model, RedisSortedSet, StructFieldNames};
use crate::schema::{all_fields, field_names_of, Kind};
use vstd::prelude::*;

verus! {

/// How the output of a submission is compared with the expected output.
/// The tolerance of a comparison of numbers is kept as the decimal text it
/// is written in.
#[derive(Debug)]
pub struct Checker {
    pub typ: String,
    pub mode: Option<i32>,
    pub epsilon: Option<String>,
}

impl Default for Checker {
    /// The standard checker.
    fn default() -> (r: Self)
        ensures
            r.typ@ == "standard"@,
            r.mode is None,
            r.epsilon is None,
    {
        Checker { typ: String::from_str("standard"), mode: None, epsilon: None }
    }
}

/// The special judge of a problem: its language and its source.
#[derive(Debug)]
pub struct SpjConfig {
    pub spj_lang: String,
    pub spj_src: String,
}

impl Default for SpjConfig {
    fn default() -> (r: Self)
        ensures
            r.spj_lang@ == Seq::<char>::empty(),
            r.spj_src@ == Seq::<char>::empty(),
    {
        SpjConfig {
            spj_lang: String::new(),
            spj_src: String::new(),
        }
    }
}

/// A test case of a problem: its files and their sizes.
#[derive(Debug)]
pub struct TestCase {
    pub id: i32,
    pub input_name: String,
    pub input_size: i32,
    pub output_name: String,
    pub output_size: i32,
    pub max_output_size: Option<i32>,
}

impl Default for TestCase {
    fn default() -> (r: Self)
        ensures
            r.id == 0,
            r.input_name@ == Seq::<char>::empty(),
            r.input_size == 0,
            r.output_name@ == Seq::<char>::empty(),
            r.output_size == 0,
            r.max_output_size is None,
    {
        TestCase {
            id: 0,
            input_name: String::new(),
            input_size: 0,
            output_name: String::new(),
            output_size: 0,
            max_output_size: None,
        }
    }
}

/// A tag: its label and its colour.
#[derive(Debug)]
pub struct Tag {
    pub label: String,
    pub color: String,
}

impl Default for Tag {
    fn default() -> (r: Self)
        ensures
            r.label@ == Seq::<char>::empty(),
            r.color@ == Seq::<char>::empty(),
    {
        Tag {
            label: String::new(),
            color: String::new(),
        }
    }
}

/// A problem.
#[derive(Debug)]
pub struct Problem {
    pub id: i64,
    pub index: String,
    pub is_open: bool,
    pub created_at: i64,
    pub author: Option<String>,
    pub source: Option<String>,
    pub title: String,
    pub background: String,
    pub statement: String,
    pub input: String,
    pub output: String,
    pub hint: String,
    pub examples_in: Vec<String>,
    pub examples_out: Vec<String>,
    pub time_limit: i32,
    pub memory_limit: i32,
    pub tags: Vec<Tag>,
    pub accepted_count: i32,
    pub all_count: i32,
    pub spj_config: Option<SpjConfig>,
    pub test_cases: Vec<TestCase>,
    pub checker: Checker,
}

impl Default for Problem {
    fn default() -> (r: Self)
        ensures
            r.id == 0,
            r.index@ == Seq::<char>::empty(),
            !r.is_open,
            r.created_at == 0,
            r.author is None,
            r.source is None,
            r.title@ == Seq::<char>::empty(),
            r.background@ == Seq::<char>::empty(),
            r.statement@ == Seq::<char>::empty(),
            r.input@ == Seq::<char>::empty(),
            r.output@ == Seq::<char>::empty(),
            r.hint@ == Seq::<char>::empty(),
            r.examples_in@.len() == 0,
            r.examples_out@.len() == 0,
            r.time_limit == 0,
            r.memory_limit == 0,
            r.tags@.len() == 0,
            r.accepted_count == 0,
            r.all_count == 0,
            r.spj_config is None,
            r.test_cases@.len() == 0,
    {
        Problem {
            id: 0,
            index: String::new(),
            is_open: false,
            created_at: 0,
            author: None,
            source: None,
            title: String::new(),
            background: String::new(),
            statement: String::new(),
            input: String::new(),
            output: String::new(),
            hint: String::new(),
            examples_in: Vec::new(),
            examples_out: Vec::new(),
            time_limit: 0,
            memory_limit: 0,
            tags: Vec::new(),
            accepted_count: 0,
            all_count: 0,
            spj_config: None,
            test_cases: Vec::new(),
            checker: Checker::default(),
        }
    }
}

impl StructFieldNames for Problem {
    open spec fn names() -> Seq<Seq<char>> {
        all_fields(Kind::Problem)
    }

    fn field_names() -> (v: Vec<&'static str>) {
        field_names_of(Kind::Problem)
    }
}

impl Model for Problem {
    open spec fn kind_spec() -> Kind {
        Kind::Problem
    }

    fn kind() -> (k: Kind) {
        Kind::Problem
    }

    fn id(&self) -> (id: i64) {
        self.id
    }

    open spec fn identity(&self) -> i64 {
        self.id
    }
}

impl RedisSortedSet for Problem {
}

} // verus!
