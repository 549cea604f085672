use zlorbrs::executor::{classify, split_lines, BuildAttempt, BuildClass, BuildResult};

#[test]
fn split_lines_drops_the_trailing_newline() {
    let lines = split_lines(&b"a\nb\n".to_vec());
    assert_eq!(lines, vec![b"a".to_vec(), b"b".to_vec()]);
}

#[test]
fn split_lines_of_empty_output_is_empty() {
    assert_eq!(split_lines(&Vec::new()), Vec::<Vec<u8>>::new());
}

#[test]
fn split_lines_keeps_an_unterminated_last_line() {
    assert_eq!(split_lines(&b"abc".to_vec()), vec![b"abc".to_vec()]);
    assert_eq!(
        split_lines(&b"a\nbc".to_vec()),
        vec![b"a".to_vec(), b"bc".to_vec()]
    );
}

#[test]
fn split_lines_keeps_interior_blank_lines() {
    assert_eq!(split_lines(&b"\n".to_vec()), vec![b"".to_vec()]);
    assert_eq!(
        split_lines(&b"a\n\nb".to_vec()),
        vec![b"a".to_vec(), b"".to_vec(), b"b".to_vec()]
    );
}

#[test]
fn exit_zero_is_a_success_with_its_lines_logged() {
    let result = BuildResult::from_captured(Some(0), &b"a\nb\n".to_vec(), Vec::new());
    assert_eq!(result.stdout_lines, vec![b"a".to_vec(), b"b".to_vec()]);
    let class = classify(&BuildAttempt::Completed(result));
    assert_eq!(class, BuildClass::Success);
}

#[test]
fn exit_one_is_a_failure_with_stderr_kept() {
    let result = BuildResult::from_captured(Some(1), &Vec::new(), b"boom".to_vec());
    assert_eq!(result.stderr, b"boom".to_vec());
    let class = classify(&BuildAttempt::Completed(result));
    assert_eq!(class, BuildClass::Failure);
}

#[test]
fn other_exit_codes_stay_unclassified() {
    let two = BuildResult::from_captured(Some(2), &Vec::new(), Vec::new());
    assert_eq!(classify(&BuildAttempt::Completed(two)), BuildClass::Unclassified);

    let signaled = BuildResult::from_captured(None, &Vec::new(), Vec::new());
    assert_eq!(
        classify(&BuildAttempt::Completed(signaled)),
        BuildClass::Unclassified
    );
}

#[test]
fn a_command_that_could_not_spawn_is_a_failure() {
    assert_eq!(classify(&BuildAttempt::SpawnFailed), BuildClass::Failure);
}
