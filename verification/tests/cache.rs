use hoj::cache::{Answer, Columns, Command, Key, Reply, Step, Task};
use hoj::error::ErrorType;
use hoj::schema::{one_dep_field_of, table_name, two_dep_fields_of, zset_expire_of, zset_fields_of,
    field_names_of, Dep, Kind, Scope};
use hoj::value::{Record, Value};
use hoj::wire::{key_text, statement};
use std::collections::BTreeMap;

/// The two stores in memory, with switches that make them fail.
struct Mem {
    rows: BTreeMap<String, Record>,
    hashes: BTreeMap<String, Record>,
    zsets: BTreeMap<String, Vec<(i64, Record)>>,
    next_id: i64,
    fail_rows: bool,
    fail_cache: bool,
    fail_fill: bool,
    log: Vec<String>,
}

fn row_key(kind: Kind, id: i64) -> String {
    format!("{}:{}", table_name(kind), id)
}

fn dep_value(dep: Dep) -> Value {
    match dep {
        Dep::Int(i) => Value::Int(i),
        Dep::Flag(b) => Value::Bool(b),
    }
}

fn in_scope(kind: Kind, scope: Scope, row: &Record) -> bool {
    match scope {
        Scope::Whole => true,
        Scope::By(dep) => row.get(one_dep_field_of(kind)) == Some(&dep_value(dep)),
        Scope::ByTwo(a, b) => {
            let names = two_dep_fields_of(kind);
            row.get(names.0) == Some(&dep_value(a)) && row.get(names.1) == Some(&dep_value(b))
        }
    }
}

fn pick(hash: Option<&Record>, names: &[String]) -> Record {
    let mut out = Record::new();
    for n in names {
        let v = match hash.and_then(|h| h.get(n)) {
            Some(v) => v.clone(),
            None => Value::Null,
        };
        out.insert(n, v);
    }
    out
}

fn owned(names: Vec<&'static str>) -> Vec<String> {
    names.into_iter().map(|s| s.to_string()).collect()
}

fn ratio(accepted: i64, all: i64) -> i64 {
    match all {
        0 => 1000000000,
        _ => ((accepted as f64 / all as f64) * 1000000000.0) as i64,
    }
}

impl Mem {
    fn new() -> Mem {
        Mem {
            rows: BTreeMap::new(),
            hashes: BTreeMap::new(),
            zsets: BTreeMap::new(),
            next_id: 1,
            fail_rows: false,
            fail_cache: false,
            fail_fill: false,
            log: Vec::new(),
        }
    }

    fn answer(&mut self, c: &Command) -> Reply {
        self.log.push(format!("{:?}", c).split(|ch: char| ch == ' ' || ch == '{' || ch == '(').next().unwrap().to_string());
        let to_rows = matches!(
            c,
            Command::Insert { .. } | Command::SelectRow { .. } | Command::Update { .. }
                | Command::Increment { .. } | Command::Delete { .. } | Command::Scan { .. }
        );
        if to_rows && self.fail_rows {
            return Reply::Failed;
        }
        if !to_rows && !matches!(c, Command::Accuracy { .. }) && self.fail_cache {
            return Reply::Failed;
        }
        if matches!(c, Command::HashSet { .. }) && self.fail_fill {
            return Reply::Failed;
        }
        match c {
            Command::Insert { kind, fields } => {
                let id = self.next_id;
                self.next_id += 1;
                let mut row = Record::new();
                for i in 0..fields.len() {
                    if fields.name_at(i) != "id" && !fields.value_at(i).is_null() {
                        row.insert(fields.name_at(i), fields.value_at(i).clone());
                    }
                }
                row.insert("id", Value::Int(id));
                self.rows.insert(row_key(*kind, id), row);
                Reply::Id(id)
            }
            Command::SelectRow { kind, id } => match self.rows.get(&row_key(*kind, *id)) {
                Some(r) => Reply::Row(r.clone()),
                None => Reply::Missing,
            },
            Command::Update { kind, id, columns } => {
                if let Some(row) = self.rows.get_mut(&row_key(*kind, *id)) {
                    for i in 0..columns.len() {
                        row.insert(columns.name_at(i), columns.value_at(i).clone());
                    }
                }
                Reply::Done
            }
            Command::Increment { kind, id, fields } => {
                match self.rows.get_mut(&row_key(*kind, *id)) {
                    Some(row) => {
                        for f in fields {
                            if let Some(Value::Int(v)) = row.get(f).cloned() {
                                row.insert(f, Value::Int(v + 1));
                            }
                        }
                        Reply::Count(1)
                    }
                    None => Reply::Count(0),
                }
            }
            Command::Delete { kind, id } => {
                self.rows.remove(&row_key(*kind, *id));
                Reply::Done
            }
            Command::Scan { kind, scope } => {
                let prefix = format!("{}:", table_name(*kind));
                let names = owned(zset_fields_of(*kind));
                let rows = self
                    .rows
                    .iter()
                    .filter(|(k, r)| k.starts_with(&prefix) && in_scope(*kind, *scope, r))
                    .map(|(_, r)| pick(Some(r), &names))
                    .collect();
                Reply::Rows(rows)
            }
            Command::Exists { key } => {
                let k = key_text(*key);
                Reply::Flag(match key {
                    Key::Hash(..) => self.hashes.contains_key(&k),
                    Key::View(..) => self.zsets.contains_key(&k),
                })
            }
            Command::HashSet { kind, id, fields, .. } => {
                let hash = self.hashes.entry(key_text(Key::Hash(*kind, *id))).or_insert_with(Record::new);
                for i in 0..fields.len() {
                    hash.insert(fields.name_at(i), fields.value_at(i).clone());
                }
                Reply::Done
            }
            Command::HashGet { kind, id, columns } => {
                let names = match columns {
                    Columns::All => owned(field_names_of(*kind)),
                    Columns::ViewFields => owned(zset_fields_of(*kind)),
                    Columns::Named(n) => n.clone(),
                };
                Reply::Row(pick(self.hashes.get(&key_text(Key::Hash(*kind, *id))), &names))
            }
            Command::DropHash { kind, id } => {
                self.hashes.remove(&key_text(Key::Hash(*kind, *id)));
                Reply::Done
            }
            Command::DropKeys { kind, id, scope } => {
                self.hashes.remove(&key_text(Key::Hash(*kind, *id)));
                self.zsets.remove(&key_text(Key::View(*kind, *scope)));
                Reply::Done
            }
            Command::Replace { kind, scope, remove, score, member } => {
                let set = self.zsets.entry(key_text(Key::View(*kind, *scope))).or_default();
                set.retain(|(s, m)| s != remove && m != member);
                set.push((*score, member.clone()));
                Reply::Done
            }
            Command::Fill { kind, scope, items, .. } => {
                let set = self.zsets.entry(key_text(Key::View(*kind, *scope))).or_default();
                for item in items {
                    set.retain(|(_, m)| *m != item.member);
                    set.push((item.score, item.member.clone()));
                }
                Reply::Done
            }
            Command::Range { kind, scope, low, high, reverse } => {
                let mut set = self.zsets.get(&key_text(Key::View(*kind, *scope))).cloned().unwrap_or_default();
                set.sort_by_key(|(s, _)| *s);
                if *reverse {
                    set.reverse();
                }
                let n = set.len() as i64;
                let from = if *low < 0 { (n + low).max(0) } else { *low };
                let to = if *high < 0 { n + high } else { (*high).min(n - 1) };
                if from > to || from >= n {
                    return Reply::Rows(vec![]);
                }
                Reply::Rows(set[from as usize..=to as usize].iter().map(|(_, m)| m.clone()).collect())
            }
            Command::RangeByScore { kind, scope, low, high } => {
                let mut set = self.zsets.get(&key_text(Key::View(*kind, *scope))).cloned().unwrap_or_default();
                set.sort_by_key(|(s, _)| *s);
                Reply::Rows(set.into_iter().filter(|(s, _)| low <= s && s <= high).map(|(_, m)| m).collect())
            }
            Command::Card { kind, scope } => Reply::Number(
                self.zsets.get(&key_text(Key::View(*kind, *scope))).map(|s| s.len()).unwrap_or(0) as i64,
            ),
            Command::Accuracy { pairs } => Reply::Numbers(pairs.iter().map(|(a, b)| ratio(*a, *b)).collect()),
        }
    }

    fn drive(&mut self, start: (Task, Command)) -> Result<Answer, ErrorType> {
        let (mut task, mut command) = start;
        for _ in 0..40 {
            let reply = self.answer(&command);
            match task.step(reply) {
                Step::Next(t, c) => {
                    task = t;
                    command = c;
                }
                Step::Done(outcome) => return outcome,
            }
        }
        panic!("the task did not end");
    }
}

fn team(cid: i64, uid: i64, name: &str) -> Record {
    let mut r = Record::new();
    r.insert("cid", Value::Int(cid));
    r.insert("id", Value::Int(0));
    r.insert("name", Value::text(name));
    r.insert("result", Value::text("{}"));
    r.insert("uid", Value::Int(uid));
    r
}

fn user(name: &str, solved: i64, accepted: i64, all: i64) -> Record {
    let mut r = Record::new();
    r.insert("accepted_count", Value::Int(accepted));
    r.insert("all_count", Value::Int(all));
    r.insert("avatar", Value::text("a.jpg"));
    r.insert("role", Value::text("user"));
    r.insert("school", Value::text(""));
    r.insert("solved", Value::Int(solved));
    r.insert("username", Value::text(name));
    r
}

fn row_of(a: Result<Answer, ErrorType>) -> Record {
    match a {
        Ok(Answer::Row(r)) => r,
        other => panic!("no row: {:?}", other),
    }
}

#[test]
fn get_after_insert_gives_the_inserted_fields_on_miss_and_on_hit() {
    let mut mem = Mem::new();
    let scope = Scope::By(Dep::Int(7));
    let id = match mem.drive(Task::insert(Kind::Team, team(7, 3, "ants"), scope)) {
        Ok(Answer::Id(id)) => id,
        other => panic!("{:?}", other),
    };
    assert_eq!(id, 1);
    assert!(mem.hashes.is_empty());
    let miss = row_of(mem.drive(Task::get(Kind::Team, id)));
    assert_eq!(miss.get("name"), Some(&Value::text("ants")));
    assert_eq!(miss.get("cid"), Some(&Value::Int(7)));
    assert_eq!(miss.get("uid"), Some(&Value::Int(3)));
    assert_eq!(miss.get("id"), Some(&Value::Int(1)));
    assert!(mem.hashes.contains_key("team:1"));
    let hit = row_of(mem.drive(Task::get(Kind::Team, id)));
    for name in ["id", "cid", "uid", "name", "result"] {
        assert_eq!(hit.get(name), miss.get(name));
    }
}

#[test]
fn get_reads_the_relational_store_once_and_then_the_hash() {
    let mut mem = Mem::new();
    mem.drive(Task::insert_by_fields(Kind::Team, team(1, 1, "a"))).unwrap();
    mem.log.clear();
    mem.drive(Task::get(Kind::Team, 1)).unwrap();
    assert_eq!(mem.log, ["Exists", "SelectRow", "HashSet"]);
    mem.log.clear();
    mem.drive(Task::get(Kind::Team, 1)).unwrap();
    assert_eq!(mem.log, ["Exists", "HashGet"]);
}

#[test]
fn get_of_a_missing_row_is_not_found() {
    let mut mem = Mem::new();
    assert_eq!(mem.drive(Task::get(Kind::Team, 99)), Err(ErrorType::NoneError));
    assert_eq!(
        mem.drive(Task::get_fields(Kind::Team, 99, vec!["name".to_string()])),
        Err(ErrorType::NoneError)
    );
    assert_eq!(mem.drive(Task::contains(Kind::Team, 99)), Ok(Answer::Flag(false)));
}

#[test]
fn get_fields_fills_the_whole_hash_and_reads_a_part() {
    let mut mem = Mem::new();
    mem.drive(Task::insert_by_fields(Kind::Team, team(4, 2, "bees"))).unwrap();
    let part = row_of(mem.drive(Task::get_fields(Kind::Team, 1, vec!["name".to_string()])));
    assert_eq!(part.len(), 1);
    assert_eq!(part.get("name"), Some(&Value::text("bees")));
    assert_eq!(mem.hashes["team:1"].get("cid"), Some(&Value::Int(4)));
    assert_eq!(mem.drive(Task::contains(Kind::Team, 1)), Ok(Answer::Flag(true)));
}

#[test]
fn insert_by_fields_leaves_the_cache_alone() {
    let mut mem = Mem::new();
    mem.zsets.insert("team_zset".to_string(), vec![]);
    assert_eq!(mem.drive(Task::insert_by_fields(Kind::Team, team(1, 1, "a"))), Ok(Answer::Id(1)));
    assert!(mem.hashes.is_empty());
    assert!(mem.zsets["team_zset"].is_empty());
    assert_eq!(mem.log, ["Insert"]);
}

#[test]
fn insert_adds_to_a_cached_view_only() {
    let mut mem = Mem::new();
    let scope = Scope::By(Dep::Int(7));
    mem.drive(Task::insert(Kind::Team, team(7, 1, "a"), scope)).unwrap();
    assert!(mem.zsets.is_empty());
    assert_eq!(mem.drive(Task::count(Kind::Team, scope)), Ok(Answer::Number(1)));
    mem.drive(Task::insert(Kind::Team, team(7, 2, "b"), scope)).unwrap();
    let set = &mem.zsets["team_zset:cid=7"];
    assert_eq!(set.len(), 2);
    assert!(set.iter().any(|(s, m)| *s == 2 && m.get("name") == Some(&Value::text("b"))));
}

#[test]
fn update_then_get_reflects_the_update_and_moves_the_member() {
    let mut mem = Mem::new();
    for (name, solved) in [("ann", 1), ("bob", 2), ("cyd", 3)] {
        mem.drive(Task::insert_by_fields(Kind::User, user(name, solved, solved, 10))).unwrap();
    }
    let listed = match mem.drive(Task::range(Kind::User, Scope::Whole, 0, -1, true)) {
        Ok(Answer::Rows(rows)) => rows,
        other => panic!("{:?}", other),
    };
    let names: Vec<_> = listed.iter().map(|r| r.get("username").cloned().unwrap()).collect();
    assert_eq!(names, [Value::text("cyd"), Value::text("bob"), Value::text("ann")]);

    let mut columns = Record::new();
    columns.insert("solved", Value::Int(5));
    assert_eq!(mem.drive(Task::update_fields(Kind::User, 1, columns, Scope::Whole)), Ok(Answer::Unit));

    let row = row_of(mem.drive(Task::get(Kind::User, 1)));
    assert_eq!(row.get("solved"), Some(&Value::Int(5)));
    let set = &mem.zsets["user_zset"];
    assert_eq!(set.len(), 3);
    let of_ann: Vec<_> = set.iter().filter(|(_, m)| m.get("id") == Some(&Value::Int(1))).collect();
    assert_eq!(of_ann.len(), 1);
    assert_eq!(of_ann[0].0, 5 * 10000000000 + 100000000 + 1);
    assert_eq!(of_ann[0].1.get("solved"), Some(&Value::Int(5)));
    let listed = match mem.drive(Task::range(Kind::User, Scope::Whole, 0, 0, true)) {
        Ok(Answer::Rows(rows)) => rows,
        other => panic!("{:?}", other),
    };
    assert_eq!(listed[0].get("username"), Some(&Value::text("ann")));
}

#[test]
fn update_patches_a_hash_that_is_there_and_makes_none() {
    let mut mem = Mem::new();
    mem.drive(Task::insert_by_fields(Kind::Team, team(1, 1, "a"))).unwrap();
    let mut columns = Record::new();
    columns.insert("name", Value::text("z"));
    mem.drive(Task::update_fields(Kind::Team, 1, columns, Scope::Whole)).unwrap();
    assert!(mem.hashes.is_empty());
    assert_eq!(mem.log, ["Insert", "Exists", "Update", "Exists"]);
    mem.drive(Task::get(Kind::Team, 1)).unwrap();
    let mut columns = Record::new();
    columns.insert("name", Value::text("y"));
    mem.drive(Task::update_fields(Kind::Team, 1, columns, Scope::Whole)).unwrap();
    assert_eq!(mem.hashes["team:1"].get("name"), Some(&Value::text("y")));
    assert_eq!(mem.hashes["team:1"].get("cid"), Some(&Value::Int(1)));
}

#[test]
fn a_failed_write_fails_the_update_and_touches_no_cache() {
    let mut mem = Mem::new();
    mem.drive(Task::insert_by_fields(Kind::Team, team(1, 1, "a"))).unwrap();
    mem.drive(Task::get(Kind::Team, 1)).unwrap();
    mem.fail_rows = true;
    mem.log.clear();
    let mut columns = Record::new();
    columns.insert("name", Value::text("z"));
    assert_eq!(
        mem.drive(Task::update_fields(Kind::Team, 1, columns, Scope::Whole)),
        Err(ErrorType::SystemError)
    );
    assert_eq!(mem.hashes["team:1"].get("name"), Some(&Value::text("a")));
    assert_eq!(mem.log, ["Exists", "Update"]);
    assert_eq!(mem.drive(Task::insert(Kind::Team, team(1, 2, "b"), Scope::Whole)), Err(ErrorType::SystemError));
    assert_eq!(
        mem.drive(Task::increment(Kind::Team, 1, vec!["uid".to_string()], Scope::Whole)),
        Err(ErrorType::SystemError)
    );
    assert_eq!(mem.drive(Task::delete(Kind::Team, 1, Scope::Whole)), Err(ErrorType::SystemError));
}

#[test]
fn a_cache_failure_after_the_write_is_swallowed() {
    let mut mem = Mem::new();
    mem.fail_cache = true;
    assert_eq!(mem.drive(Task::insert(Kind::Team, team(1, 1, "a"), Scope::Whole)), Ok(Answer::Id(1)));
    assert_eq!(mem.rows["team:1"].get("name"), Some(&Value::text("a")));
    assert_eq!(mem.drive(Task::delete(Kind::Team, 1, Scope::Whole)), Ok(Answer::Unit));
    assert!(mem.rows.is_empty());
    assert_eq!(mem.drive(Task::get(Kind::Team, 1)), Err(ErrorType::SystemError));
}

#[test]
fn increments_are_never_lost() {
    let mut mem = Mem::new();
    let mut contest = Record::new();
    contest.insert("team_count", Value::Int(0));
    contest.insert("title", Value::text("cup"));
    mem.drive(Task::insert_by_fields(Kind::Contest, contest)).unwrap();
    mem.drive(Task::count(Kind::Contest, Scope::Whole)).unwrap();
    for n in 1..=5 {
        if n % 2 == 0 {
            mem.drive(Task::get(Kind::Contest, 1)).unwrap();
        }
        let done = mem.drive(Task::increment(Kind::Contest, 1, vec!["team_count".to_string()], Scope::Whole));
        assert_eq!(done, Ok(Answer::Unit));
        assert_eq!(mem.rows["contest:1"].get("team_count"), Some(&Value::Int(n)));
    }
    let row = row_of(mem.drive(Task::get(Kind::Contest, 1)));
    assert_eq!(row.get("team_count"), Some(&Value::Int(5)));
    assert_eq!(mem.zsets["contest_zset"].len(), 1);
    assert_eq!(mem.zsets["contest_zset"][0].1.get("team_count"), Some(&Value::Int(5)));
}

#[test]
fn increment_drops_the_hash_and_does_not_patch_it() {
    let mut mem = Mem::new();
    let mut contest = Record::new();
    contest.insert("team_count", Value::Int(3));
    mem.drive(Task::insert_by_fields(Kind::Contest, contest)).unwrap();
    mem.drive(Task::get(Kind::Contest, 1)).unwrap();
    mem.log.clear();
    mem.drive(Task::increment(Kind::Contest, 1, vec!["team_count".to_string()], Scope::Whole)).unwrap();
    assert_eq!(mem.log, ["Exists", "Increment", "DropHash"]);
    assert!(mem.hashes.is_empty());
    mem.log.clear();
    assert_eq!(
        mem.drive(Task::increment(Kind::Contest, 9, vec!["team_count".to_string()], Scope::Whole)),
        Ok(Answer::Unit)
    );
    assert_eq!(mem.log, ["Exists", "Increment"]);
}

#[test]
fn delete_removes_row_hash_and_view() {
    let mut mem = Mem::new();
    let scope = Scope::By(Dep::Int(7));
    mem.drive(Task::insert(Kind::Team, team(7, 1, "a"), scope)).unwrap();
    mem.drive(Task::get(Kind::Team, 1)).unwrap();
    mem.drive(Task::count(Kind::Team, scope)).unwrap();
    assert_eq!(mem.drive(Task::delete(Kind::Team, 1, scope)), Ok(Answer::Unit));
    assert!(mem.rows.is_empty() && mem.hashes.is_empty() && mem.zsets.is_empty());
    assert_eq!(mem.drive(Task::get(Kind::Team, 1)), Err(ErrorType::NoneError));
}

#[test]
fn a_view_is_built_on_first_read_with_its_time_to_live() {
    let mut mem = Mem::new();
    for (cid, name) in [(7, "a"), (8, "b"), (7, "c")] {
        mem.drive(Task::insert_by_fields(Kind::Team, team(cid, 1, name))).unwrap();
    }
    let scope = Scope::By(Dep::Int(7));
    let (task, command) = Task::range(Kind::Team, scope, 0, -1, false);
    assert_eq!(command, Command::Exists { key: Key::View(Kind::Team, scope) });
    let step = task.step(Reply::Flag(false));
    let (task, command) = match step {
        Step::Next(t, c) => (t, c),
        other => panic!("{:?}", other),
    };
    assert_eq!(statement(&command).unwrap(), "SELECT id,cid,uid,name,result FROM \"team\" WHERE cid = '7'");
    let rows = match mem.answer(&command) {
        Reply::Rows(rows) => rows,
        other => panic!("{:?}", other),
    };
    match task.step(Reply::Rows(rows)) {
        Step::Next(_, Command::Fill { items, ttl, .. }) => {
            assert_eq!(ttl, zset_expire_of(Kind::Team));
            assert_eq!(ttl, 259200);
            let scores: Vec<i64> = items.iter().map(|i| i.score).collect();
            assert_eq!(scores, [1, 3]);
        }
        other => panic!("{:?}", other),
    }
    let listed = match mem.drive(Task::range(Kind::Team, scope, 0, -1, false)) {
        Ok(Answer::Rows(rows)) => rows,
        other => panic!("{:?}", other),
    };
    assert_eq!(listed.len(), 2);
    assert_eq!(listed[1].get("name"), Some(&Value::text("c")));
    let by_score = mem.drive(Task::range_by_score(Kind::Team, scope, 3, 3));
    assert_eq!(by_score, Ok(Answer::Rows(vec![listed[1].clone()])));
    assert_eq!(mem.drive(Task::count(Kind::Team, Scope::By(Dep::Int(9)))), Ok(Answer::Number(0)));
    assert!(!mem.zsets.contains_key("team_zset:cid=9"));
}

#[test]
fn problems_are_scored_by_the_number_of_their_index() {
    let mut mem = Mem::new();
    for index in ["P1002", "P1000", "P1001"] {
        let mut p = Record::new();
        p.insert("index", Value::text(index));
        p.insert("is_open", Value::Bool(true));
        p.insert("title", Value::text(index));
        mem.drive(Task::insert_by_fields(Kind::Problem, p)).unwrap();
    }
    let scope = Scope::By(Dep::Flag(true));
    let listed = match mem.drive(Task::range(Kind::Problem, scope, -1, -1, false)) {
        Ok(Answer::Rows(rows)) => rows,
        other => panic!("{:?}", other),
    };
    assert_eq!(listed[0].get("index"), Some(&Value::text("P1002")));
    let found = mem.drive(Task::range_by_score(Kind::Problem, scope, 1001, 1001));
    match found {
        Ok(Answer::Rows(rows)) => assert_eq!(rows[0].get("id"), Some(&Value::Int(3))),
        other => panic!("{:?}", other),
    }
    assert!(mem.zsets.contains_key("problem_zset:is_open=true"));
}

#[test]
fn a_row_without_a_score_fails_the_build() {
    let mut mem = Mem::new();
    let mut p = Record::new();
    p.insert("index", Value::text("Pxyz"));
    p.insert("is_open", Value::Bool(true));
    mem.drive(Task::insert_by_fields(Kind::Problem, p)).unwrap();
    assert_eq!(
        mem.drive(Task::count(Kind::Problem, Scope::By(Dep::Flag(true)))),
        Err(ErrorType::SystemError)
    );
}

#[test]
fn commands_are_written_as_statements_and_keys() {
    let (_, command) = Task::delete(Kind::Post, 5, Scope::ByTwo(Dep::Int(0), Dep::Int(3)));
    assert_eq!(statement(&command).unwrap(), "DELETE FROM \"post\" WHERE id = 5");
    assert_eq!(key_text(Key::View(Kind::Post, Scope::ByTwo(Dep::Int(0), Dep::Int(3)))), "post_zset:cid=0,pid=3");
    assert_eq!(key_text(Key::Hash(Kind::CSubmission, 12)), "csubmission:12");
    let (_, command) = Task::get(Kind::User, 1);
    assert_eq!(statement(&command), None);
}

#[test]
fn a_ratio_that_does_not_come_does_not_fail_the_update() {
    let mut mem = Mem::new();
    mem.drive(Task::insert_by_fields(Kind::User, user("ann", 1, 1, 2))).unwrap();
    mem.drive(Task::count(Kind::User, Scope::Whole)).unwrap();
    let mut columns = Record::new();
    columns.insert("solved", Value::Int(2));
    let (mut task, mut command) = Task::update_fields(Kind::User, 1, columns, Scope::Whole);
    let outcome = loop {
        let reply = match &command {
            Command::Accuracy { pairs } => {
                assert_eq!(pairs, &vec![(1, 2)]);
                Reply::Numbers(vec![])
            }
            other => mem.answer(other),
        };
        match task.step(reply) {
            Step::Next(t, c) => {
                task = t;
                command = c;
            }
            Step::Done(outcome) => break outcome,
        }
    };
    assert_eq!(outcome, Ok(Answer::Unit));
    assert_eq!(mem.rows["user:1"].get("solved"), Some(&Value::Int(2)));
    assert_eq!(mem.hashes["user:1"].get("solved"), Some(&Value::Int(2)));
}

#[test]
fn a_read_gives_the_row_though_the_hash_cannot_be_filled() {
    let mut mem = Mem::new();
    mem.drive(Task::insert_by_fields(Kind::Team, team(7, 3, "ants"))).unwrap();
    mem.fail_fill = true;
    let row = row_of(mem.drive(Task::get(Kind::Team, 1)));
    assert_eq!(row.get("name"), Some(&Value::text("ants")));
    assert_eq!(row.get("id"), Some(&Value::Int(1)));
    assert!(mem.hashes.is_empty());
    let part = row_of(mem.drive(Task::get_fields(
        Kind::Team,
        1,
        vec!["name".to_string(), "cid".to_string(), "nothing".to_string()],
    )));
    assert_eq!(part.len(), 3);
    assert_eq!(part.get("name"), Some(&Value::text("ants")));
    assert_eq!(part.get("cid"), Some(&Value::Int(7)));
    assert_eq!(part.get("nothing"), Some(&Value::Null));
    assert_eq!(mem.drive(Task::contains(Kind::Team, 1)), Ok(Answer::Flag(true)));
}

#[test]
fn a_write_goes_on_when_the_cache_fails_before_it() {
    let mut mem = Mem::new();
    let mut contest = Record::new();
    contest.insert("team_count", Value::Int(3));
    contest.insert("title", Value::text("cup"));
    mem.drive(Task::insert_by_fields(Kind::Contest, contest)).unwrap();
    mem.fail_cache = true;
    let mut columns = Record::new();
    columns.insert("title", Value::text("final"));
    assert_eq!(mem.drive(Task::update_fields(Kind::Contest, 1, columns, Scope::Whole)), Ok(Answer::Unit));
    assert_eq!(mem.rows["contest:1"].get("title"), Some(&Value::text("final")));
    let bumped = mem.drive(Task::increment(Kind::Contest, 1, vec!["team_count".to_string()], Scope::Whole));
    assert_eq!(bumped, Ok(Answer::Unit));
    assert_eq!(mem.rows["contest:1"].get("team_count"), Some(&Value::Int(4)));
}

#[test]
fn an_update_whose_fill_fails_still_moves_the_member() {
    let mut mem = Mem::new();
    mem.drive(Task::insert_by_fields(Kind::User, user("ann", 1, 1, 10))).unwrap();
    mem.drive(Task::count(Kind::User, Scope::Whole)).unwrap();
    mem.hashes.clear();
    mem.fail_fill = true;
    let mut columns = Record::new();
    columns.insert("solved", Value::Int(4));
    assert_eq!(mem.drive(Task::update_fields(Kind::User, 1, columns, Scope::Whole)), Ok(Answer::Unit));
    assert_eq!(mem.rows["user:1"].get("solved"), Some(&Value::Int(4)));
}

#[test]
fn every_task_ends_whatever_the_stores_reply() {
    let mut seed: u64 = 0x2545F4914F6CDD1D;
    let mut next = move || {
        seed ^= seed << 13;
        seed ^= seed >> 7;
        seed ^= seed << 17;
        seed
    };
    let row = || user("ann", 1, 1, 2);
    for round in 0..4000 {
        let kind = [Kind::User, Kind::Team, Kind::Problem][round % 3];
        let start = match round % 11 {
            0 => Task::get(kind, 1),
            1 => Task::get_fields(kind, 1, vec!["id".to_string()]),
            2 => Task::contains(kind, 1),
            3 => Task::insert_by_fields(kind, row()),
            4 => Task::insert(kind, row(), Scope::Whole),
            5 => Task::update_fields(kind, 1, row(), Scope::Whole),
            6 => Task::update_fields(kind, 1, Record::new(), Scope::By(Dep::Int(1))),
            7 => Task::increment(kind, 1, vec!["solved".to_string()], Scope::Whole),
            8 => Task::delete(kind, 1, Scope::Whole),
            9 => Task::range(kind, Scope::Whole, 0, -1, false),
            _ => Task::count(kind, Scope::Whole),
        };
        let mut task = start.0;
        let mut steps = 0;
        loop {
            let mut full = row();
            full.insert("id", Value::Int(1));
            full.insert("index", Value::text("P1000"));
            let reply = match next() % 12 {
                0 => Reply::Failed,
                1 => Reply::Done,
                2 => Reply::Missing,
                3 => Reply::Flag(true),
                4 => Reply::Flag(false),
                5 => Reply::Id(7),
                6 => Reply::Count(next() % 2),
                7 => Reply::Number(3),
                8 => Reply::Row(full),
                9 => Reply::Rows(vec![full.clone(), full]),
                10 => Reply::Numbers(vec![500000000]),
                _ => Reply::Numbers(vec![1, 2]),
            };
            steps += 1;
            match task.step(reply) {
                Step::Next(t, _) => task = t,
                Step::Done(_) => break,
            }
            assert!(steps < 20);
        }
    }
}
