use hoj::ranklist::{Decision, RankBoard};

#[test]
fn a_result_leads_to_exactly_one_rebuild() {
    let mut board = RankBoard::new();
    assert_eq!(board.claim(3, true), Decision::Read);
    board.mark(3);
    assert!(board.is_marked(3));
    assert_eq!(board.claim(3, true), Decision::Rebuild);
    assert_eq!(board.claim(3, true), Decision::Wait);
    assert_eq!(board.claim(3, true), Decision::Wait);
    board.finish(3, true);
    assert!(!board.is_marked(3));
    assert_eq!(board.claim(3, true), Decision::Read);
}

#[test]
fn a_missing_list_is_built_and_the_mark_stays() {
    let mut board = RankBoard::new();
    assert_eq!(board.claim(3, false), Decision::Build);
    board.mark(3);
    assert_eq!(board.claim(3, false), Decision::Build);
    assert!(board.is_marked(3));
    assert_eq!(board.claim(3, true), Decision::Rebuild);
}

#[test]
fn a_result_during_a_rebuild_is_not_lost() {
    let mut board = RankBoard::new();
    board.mark(3);
    assert_eq!(board.claim(3, true), Decision::Rebuild);
    board.mark(3);
    assert_eq!(board.claim(3, true), Decision::Wait);
    board.finish(3, true);
    assert_eq!(board.claim(3, true), Decision::Rebuild);
    board.finish(3, true);
    assert_eq!(board.claim(3, true), Decision::Read);
}

#[test]
fn a_failed_rebuild_leaves_the_mark() {
    let mut board = RankBoard::new();
    board.mark(3);
    assert_eq!(board.claim(3, true), Decision::Rebuild);
    board.finish(3, false);
    assert_eq!(board.claim(3, true), Decision::Rebuild);
}

#[test]
fn contests_are_marked_apart() {
    let mut board = RankBoard::new();
    board.mark(1);
    assert_eq!(board.claim(2, true), Decision::Read);
    assert_eq!(board.claim(1, true), Decision::Rebuild);
    board.clear(1);
    assert!(!board.is_marked(1));
    board.finish(2, true);
    assert_eq!(board.claim(1, true), Decision::Read);
}
