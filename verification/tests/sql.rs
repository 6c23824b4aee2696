use hoj::schema::{Dep, Kind, Scope};
use hoj::sql::{count_sql, delete_sql, find_base_columns_sql, find_values_sql, get_id_sql,
    last_submit_sql, many_indexes_sql, submissions_sql, status_counts_sql,
    has_insertable, increment_sql, insert_sql, make_conditions_from_json_map, scan_sql,
    select_row_sql, update_sql};
use hoj::value::{Record, Value};

fn filter() -> Record {
    let mut r = Record::new();
    r.insert("cid", Value::Int(3));
    r.insert("label", Value::text("A'"));
    r
}

#[test]
fn conditions_join_the_entries_of_a_filter() {
    assert_eq!(make_conditions_from_json_map(&Record::new()), "");
    assert_eq!(make_conditions_from_json_map(&filter()), "WHERE cid = '3' AND label = 'A'''");
}

#[test]
fn an_insert_leaves_out_the_identity_and_the_nulls() {
    let mut r = Record::new();
    r.insert("id", Value::Int(9));
    r.insert("name", Value::text("x"));
    r.insert("rating", Value::Null);
    r.insert("tags", Value::json("[]"));
    assert!(has_insertable(&r));
    assert_eq!(
        insert_sql(Kind::User, &r),
        "INSERT INTO \"user\" ( name,tags ) VALUES ( 'x','[]' ) RETURNING id"
    );
    let mut none = Record::new();
    none.insert("id", Value::Int(9));
    none.insert("rating", Value::Null);
    assert!(!has_insertable(&none));
    assert!(!has_insertable(&Record::new()));
}

#[test]
fn statements_on_one_row() {
    assert_eq!(select_row_sql(Kind::Team, 4), "SELECT * FROM \"team\" WHERE id = '4'");
    assert_eq!(delete_sql(Kind::Team, 4), "DELETE FROM \"team\" WHERE id = 4");
    assert_eq!(
        update_sql(Kind::CSubmission, 8, &filter()),
        "UPDATE \"csubmission\" SET cid = '3',label = 'A''' WHERE id = '8'"
    );
    assert_eq!(
        increment_sql(Kind::Problem, 2, &vec!["accepted_count".to_string(), "all_count".to_string()]),
        "UPDATE \"problem\" set  accepted_count=accepted_count+1 ,all_count=all_count+1  WHERE id = '2'"
    );
    assert_eq!(
        increment_sql(Kind::Contest, 2, &vec!["team_count".to_string()]),
        "UPDATE \"contest\" set  team_count=team_count+1  WHERE id = '2'"
    );
    assert_eq!(increment_sql(Kind::Contest, 2, &vec![]), "UPDATE \"contest\" set  WHERE id = '2'");
}

#[test]
fn statements_that_scan() {
    assert_eq!(scan_sql(Kind::Comment, Scope::Whole), "SELECT id,created_at,uid,post_id,reply_id,content FROM \"comment\"");
    assert_eq!(
        scan_sql(Kind::Problem, Scope::By(Dep::Flag(false))),
        "SELECT id,index,is_open,created_at,author,source,title,tags,accepted_count,all_count FROM \"problem\" WHERE is_open = 'false'"
    );
    assert_eq!(
        scan_sql(Kind::TSubmission, Scope::ByTwo(Dep::Int(1), Dep::Int(2))),
        "SELECT id,uid,pid,created_at,length,lang,code,result FROM \"tsubmission\" WHERE ='1' AND ='2'"
    );
    assert_eq!(count_sql(Kind::User, &Record::new()), "SELECT count(*) FROM \"user\" ");
    assert_eq!(count_sql(Kind::User, &filter()), "SELECT count(*) FROM \"user\" WHERE cid = '3' AND label = 'A'''");
    assert_eq!(get_id_sql(Kind::User, &filter()), "SELECT id FROM \"user\" WHERE cid = '3' AND label = 'A''' LIMIT 1");
    assert_eq!(
        find_values_sql(Kind::CSubmission, &vec!["status".to_string(), "created_at".to_string()], &filter()),
        "SELECT status,created_at FROM csubmission WHERE cid = '3' AND label = 'A''' ORDER BY id ASC"
    );
    assert_eq!(
        find_base_columns_sql(Kind::Team, &filter(), true, Some(10), None),
        "SELECT id,cid,uid,name,result FROM \"team\" WHERE cid = '3' AND label = 'A''' ORDER BY id DESC LIMIT 10 "
    );
    assert_eq!(
        find_base_columns_sql(Kind::Team, &Record::new(), false, None, Some(5)),
        "SELECT id,cid,uid,name,result FROM \"team\"  ORDER BY id ASC  OFFSET 5"
    );
}

#[test]
fn statements_of_the_listings() {
    assert_eq!(many_indexes_sql(&vec![3, 1, 2]), "SELECT index FROM \"problem\" WHERE id in (3,1,2) ORDER BY id ASC");
    assert_eq!(
        last_submit_sql(4, 9),
        "SELECT id,code,lang from submission WHERE pid='9' AND uid='4' ORDER BY ID DESC LIMIT 1"
    );
    assert_eq!(
        submissions_sql(4, 9),
        "SELECT id,uid,pid,created_at,status,lang,length,time,memory,total_time,is_open FROM submission WHERE pid = 9 AND uid = 4 ORDER BY id DESC"
    );
    assert_eq!(status_counts_sql(6), "SELECT status FROM \"submission\" WHERE uid = 6");
}
