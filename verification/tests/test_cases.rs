use hoj::test_cases::{can_pair, make_test_case_info, pair_files, role_of, FileEntry, Role};

fn file(name: &str, size: u64) -> FileEntry {
    FileEntry { name: name.to_string(), size, is_dir: false }
}

#[test]
fn a_file_has_a_number_and_is_an_input_or_an_output() {
    assert_eq!(role_of("1.in"), (Role { number: 1, input: true }, true));
    assert_eq!(role_of("test12.out"), (Role { number: 12, input: false }, true));
    assert_eq!(role_of("a-3.in"), (Role { number: 3, input: true }, true));
    assert_eq!(role_of("sample.in"), (Role { number: 0, input: true }, true));
    assert_eq!(role_of("7"), (Role { number: 0, input: false }, true));
    assert_eq!(role_of(".in"), (Role { number: 0, input: false }, true));
    assert_eq!(role_of("5.ans"), (Role { number: 5, input: false }, true));
    assert_eq!(role_of("99999999999.in"), (Role { number: 0, input: true }, true));
    assert_eq!(role_of("x.1.in"), (Role { number: 1, input: true }, true));
    assert_eq!(role_of("数1.in"), (Role { number: 1, input: true }, false));
}

#[test]
fn inputs_are_paired_with_outputs_by_rising_number() {
    let files = vec![
        file("10.in", 5),
        file("2.out", 7),
        FileEntry { name: "3.in".to_string(), size: 0, is_dir: true },
        file("2.in", 4),
        file("10.out", 6),
        file("4.in", 1),
        file("5.out", 1),
        file("2.in", 9),
    ];
    assert!(can_pair(&files));
    let cases = make_test_case_info(&files);
    assert_eq!(cases.len(), 2);
    assert_eq!(cases[0].number, 2);
    assert_eq!(cases[0].case.id, 1);
    assert_eq!(cases[0].case.input_name, "2.in");
    assert_eq!(cases[0].case.input_size, 9);
    assert_eq!(cases[0].case.output_name, "2.out");
    assert_eq!(cases[0].case.output_size, 7);
    assert_eq!(cases[0].case.max_output_size, None);
    assert_eq!(cases[1].number, 10);
    assert_eq!(cases[1].case.id, 2);
    assert_eq!(cases[1].case.input_name, "10.in");
    assert_eq!(cases[1].case.output_name, "10.out");
    assert!(make_test_case_info(&vec![]).is_empty());
    assert!(!can_pair(&vec![file("数1.in", 1)]));
    assert!(pair_files(&vec![file("数1.in", 1)]).is_none());
    assert_eq!(pair_files(&files).unwrap().len(), 2);
}
