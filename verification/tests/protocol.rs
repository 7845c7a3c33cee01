use nice::{
    advance, get_current_process_priority, nice, HostCall, HostReply, Pending, Platform,
    PriorityError, Progress,
};

fn pending(progress: Progress) -> Pending {
    match progress {
        Progress::Pending(pending) => pending,
        Progress::Finished(outcome) => panic!("the operation is finished: {outcome:?}"),
    }
}

fn clearing() -> Pending {
    pending(get_current_process_priority(Platform::Unix))
}

fn querying_process() -> Pending {
    pending(advance(clearing(), HostReply::Completed))
}

fn checking(value: i32) -> Pending {
    pending(advance(querying_process(), HostReply::Returned(value)))
}

fn querying_thread() -> Pending {
    pending(get_current_process_priority(Platform::Windows))
}

fn adjusting(increment: i32) -> Pending {
    pending(nice(Platform::Unix, Some(increment)))
}

fn setting(code: i32) -> Pending {
    pending(nice(Platform::Windows, Some(code)))
}

fn reading_failure() -> Pending {
    pending(advance(adjusting(1), HostReply::Returned(-1)))
}

fn every_stage() -> Vec<Pending> {
    vec![
        clearing(),
        querying_process(),
        checking(4),
        querying_thread(),
        adjusting(-3),
        setting(-2),
        reading_failure(),
    ]
}

fn every_kind_of_reply() -> Vec<HostReply> {
    vec![
        HostReply::Completed,
        HostReply::Returned(0),
        HostReply::Returned(-1),
        HostReply::Returned(2_147_483_647),
        HostReply::Refused("no".to_string()),
    ]
}

fn copy_of(reply: &HostReply) -> HostReply {
    match reply {
        HostReply::Completed => HostReply::Completed,
        HostReply::Returned(value) => HostReply::Returned(*value),
        HostReply::Refused(text) => HostReply::Refused(text.clone()),
    }
}

fn answers(call: HostCall, reply: &HostReply) -> bool {
    match call {
        HostCall::ClearErrorIndicator => matches!(reply, HostReply::Completed),
        HostCall::SetThreadPriority { .. } => {
            matches!(reply, HostReply::Completed | HostReply::Refused(_))
        }
        _ => matches!(reply, HostReply::Returned(_)),
    }
}

#[test]
fn a_unix_read_begins_by_clearing_the_error_indicator() {
    assert_eq!(clearing().call(), HostCall::ClearErrorIndicator);
}

#[test]
fn a_unix_read_queries_the_calling_process_after_clearing() {
    assert_eq!(
        querying_process().call(),
        HostCall::QueryProcessPriority { which: 0, who: 0 }
    );
}

#[test]
fn a_unix_read_checks_the_indicator_after_the_query() {
    assert_eq!(checking(-1).call(), HostCall::ReadErrorIndicator);
    assert_eq!(checking(12).call(), HostCall::ReadErrorIndicator);
}

#[test]
fn a_clear_indicator_makes_any_queried_value_the_priority() {
    let values: Vec<i32> = vec![-20, -1, -5, 0, 7, 19, i32::MIN, i32::MAX];
    for value in values {
        let progress = advance(checking(value), HostReply::Returned(0));
        assert_eq!(progress, Progress::Finished(Ok(value)));
    }
}

#[test]
fn a_set_indicator_makes_the_read_fail_with_its_code() {
    let progress = advance(checking(-1), HostReply::Returned(3));
    assert_eq!(progress, Progress::Finished(Err(PriorityError::Os { code: 3 })));
    let progress = advance(checking(12), HostReply::Returned(-22));
    assert_eq!(progress, Progress::Finished(Err(PriorityError::Os { code: -22 })));
}

#[test]
fn a_windows_read_queries_the_calling_thread() {
    assert_eq!(querying_thread().call(), HostCall::QueryThreadPriority);
}

#[test]
fn a_windows_read_returns_the_raw_code() {
    let values: Vec<i32> = vec![-15, -2, -1, 0, 1, 2, 15, 7, 0x7fff_fffe, i32::MIN];
    for value in values {
        let progress = advance(querying_thread(), HostReply::Returned(value));
        assert_eq!(progress, Progress::Finished(Ok(value)));
    }
}

#[test]
fn a_windows_read_of_the_error_return_fetches_the_last_error() {
    let failing = pending(advance(querying_thread(), HostReply::Returned(2_147_483_647)));
    assert_eq!(failing.call(), HostCall::ReadErrorIndicator);
    let progress = advance(failing, HostReply::Returned(6));
    assert_eq!(progress, Progress::Finished(Err(PriorityError::Os { code: 6 })));
}

#[test]
fn a_unix_write_hands_the_increment_over_unchecked() {
    let increments: Vec<i32> = vec![0, 5, -5, 40, -40, i32::MAX, i32::MIN];
    for increment in increments {
        assert_eq!(adjusting(increment).call(), HostCall::AdjustNiceness { increment });
    }
}

#[test]
fn a_write_without_an_integer_uses_zero() {
    assert_eq!(
        pending(nice(Platform::Unix, None)).call(),
        HostCall::AdjustNiceness { increment: 0 }
    );
    assert_eq!(
        pending(nice(Platform::Windows, None)).call(),
        HostCall::SetThreadPriority { priority: 0 }
    );
    assert_eq!(nice(Platform::Unix, None), nice(Platform::Unix, Some(0)));
    assert_eq!(nice(Platform::Windows, None), nice(Platform::Windows, Some(0)));
}

#[test]
fn a_unix_write_returns_the_new_niceness() {
    let values: Vec<i32> = vec![-20, -2, 0, 5, 10, 19];
    for value in values {
        let progress = advance(adjusting(5), HostReply::Returned(value));
        assert_eq!(progress, Progress::Finished(Ok(value)));
    }
}

#[test]
fn a_unix_write_that_returns_minus_one_fetches_the_error() {
    let failing = pending(advance(adjusting(-5), HostReply::Returned(-1)));
    assert_eq!(failing.call(), HostCall::ReadErrorIndicator);
    let progress = advance(failing, HostReply::Returned(1));
    assert_eq!(progress, Progress::Finished(Err(PriorityError::Os { code: 1 })));
}

#[test]
fn a_windows_write_sets_the_native_constant_of_the_level() {
    let codes: Vec<i32> = vec![65536, 131072, 1, -1, 2, -15, -2, 0, 15];
    for code in codes {
        assert_eq!(setting(code).call(), HostCall::SetThreadPriority { priority: code });
    }
}

#[test]
fn a_windows_write_returns_the_code_it_applied() {
    let codes: Vec<i32> = vec![65536, 131072, 1, -1, 2, -15, -2, 0, 15];
    for code in codes {
        let progress = advance(setting(code), HostReply::Completed);
        assert_eq!(progress, Progress::Finished(Ok(code)));
    }
}

#[test]
fn a_refused_windows_write_relays_the_native_text() {
    let text = "The thread is not in background processing mode.".to_string();
    let progress = advance(setting(131072), HostReply::Refused(text.clone()));
    assert_eq!(
        progress,
        Progress::Finished(Err(PriorityError::GenericFailure { reason: text }))
    );
    let progress = advance(setting(2), HostReply::Refused(String::new()));
    assert_eq!(
        progress,
        Progress::Finished(Err(PriorityError::GenericFailure { reason: String::new() }))
    );
}

#[test]
fn an_invalid_windows_code_finishes_before_any_call() {
    let progress = nice(Platform::Windows, Some(99));
    assert_eq!(
        progress,
        Progress::Finished(Err(PriorityError::InvalidArg {
            reason: "99 is not a valid priority on Windows".to_string()
        }))
    );
}

#[test]
fn an_invalid_increment_is_no_concern_of_a_unix_write() {
    assert_eq!(adjusting(99).call(), HostCall::AdjustNiceness { increment: 99 });
    assert_eq!(adjusting(3).call(), HostCall::AdjustNiceness { increment: 3 });
}

#[test]
fn a_reply_that_does_not_answer_the_call_changes_nothing() {
    for stage in every_stage() {
        for reply in every_kind_of_reply() {
            let fits = answers(stage.call(), &reply);
            let progress = advance(stage, reply);
            if fits {
                assert_ne!(progress, Progress::Pending(stage));
            } else {
                assert_eq!(progress, Progress::Pending(stage));
            }
        }
    }
}

#[test]
fn every_operation_finishes_within_three_answered_calls() {
    let replies = every_kind_of_reply();
    for first in every_stage() {
        let mut frontier: Vec<Progress> = vec![Progress::Pending(first)];
        for _round in 0..3 {
            let mut next: Vec<Progress> = Vec::new();
            for progress in frontier {
                if let Progress::Pending(stage) = progress {
                    for reply in &replies {
                        if answers(stage.call(), reply) {
                            next.push(advance(stage, copy_of(reply)));
                        }
                    }
                }
            }
            frontier = next;
        }
        for progress in frontier {
            assert!(matches!(progress, Progress::Finished(_)));
        }
    }
}

#[test]
fn a_unix_operation_makes_no_windows_call_and_a_windows_one_no_unix_call() {
    let replies = every_kind_of_reply();
    let platforms: Vec<(Platform, bool)> = vec![(Platform::Unix, true), (Platform::Windows, false)];
    for (platform, unix) in platforms {
        let mut frontier: Vec<Progress> =
            vec![get_current_process_priority(platform), nice(platform, Some(1))];
        for _round in 0..4 {
            let mut next: Vec<Progress> = Vec::new();
            for progress in frontier {
                if let Progress::Pending(stage) = progress {
                    let offered = match stage.call() {
                        HostCall::ReadErrorIndicator => true,
                        HostCall::ClearErrorIndicator
                        | HostCall::QueryProcessPriority { .. }
                        | HostCall::AdjustNiceness { .. } => unix,
                        HostCall::QueryThreadPriority | HostCall::SetThreadPriority { .. } => {
                            !unix
                        }
                    };
                    assert!(offered);
                    for reply in &replies {
                        if answers(stage.call(), reply) {
                            next.push(advance(stage, copy_of(reply)));
                        }
                    }
                }
            }
            frontier = next;
        }
    }
}
