use latency_probe::schedule::{Action, Phase, Schedule};

fn play(rep: u128, wait_time: u128) -> Vec<Action> {
    let mut schedule = Schedule::new(rep, wait_time);
    let mut actions = Vec::new();
    while !schedule.is_finished() {
        actions.push(schedule.action());
        schedule.advance();
    }
    assert_eq!(schedule.action(), Action::Report);
    actions
}

fn requests(actions: &[Action]) -> usize {
    actions.iter().filter(|a| matches!(a, Action::Request { .. })).count()
}

fn waited(actions: &[Action]) -> u128 {
    let mut total: u128 = 0;
    for action in actions {
        match action {
            Action::Countdown { .. } => total += 1_000,
            Action::Sleep { millis } => total += u128::from(*millis),
            _ => {}
        }
    }
    total
}

#[test]
fn schedule_starts_with_the_first_request() {
    let schedule = Schedule::new(3, 1_000);
    assert_eq!(schedule, Schedule { rep: 3, wait_time: 1_000, done: 0, phase: Phase::Announce });
    assert_eq!(schedule.action(), Action::Announce { step: 1, total: 3 });
    assert!(!schedule.is_finished());
}

#[test]
fn schedule_of_no_request_is_finished() {
    let mut schedule = Schedule::new(0, 1_000);
    assert!(schedule.is_finished());
    assert_eq!(schedule.action(), Action::Report);
    schedule.advance();
    assert_eq!(schedule, Schedule { rep: 0, wait_time: 1_000, done: 0, phase: Phase::Finished });
    assert!(play(0, 1_000).is_empty());
}

#[test]
fn single_request_never_waits() {
    assert_eq!(
        play(1, 5_500),
        vec![Action::Announce { step: 1, total: 1 }, Action::Request { step: 1, total: 1 }]
    );
}

#[test]
fn run_without_delay_never_waits() {
    assert_eq!(
        play(3, 0),
        vec![
            Action::Announce { step: 1, total: 3 },
            Action::Request { step: 1, total: 3 },
            Action::Announce { step: 2, total: 3 },
            Action::Request { step: 2, total: 3 },
            Action::Announce { step: 3, total: 3 },
            Action::Request { step: 3, total: 3 },
        ]
    );
}

#[test]
fn countdown_goes_down_second_by_second() {
    assert_eq!(
        play(2, 3_250),
        vec![
            Action::Announce { step: 1, total: 2 },
            Action::Request { step: 1, total: 2 },
            Action::Announce { step: 2, total: 2 },
            Action::Countdown { step: 2, total: 2, seconds: 3 },
            Action::Countdown { step: 2, total: 2, seconds: 2 },
            Action::Countdown { step: 2, total: 2, seconds: 1 },
            Action::Sleep { millis: 250 },
            Action::Request { step: 2, total: 2 },
        ]
    );
}

#[test]
fn delay_below_a_second_has_no_countdown() {
    assert_eq!(
        play(2, 999),
        vec![
            Action::Announce { step: 1, total: 2 },
            Action::Request { step: 1, total: 2 },
            Action::Announce { step: 2, total: 2 },
            Action::Sleep { millis: 999 },
            Action::Request { step: 2, total: 2 },
        ]
    );
}

#[test]
fn delay_of_whole_seconds_ends_with_an_empty_rest() {
    assert_eq!(
        play(2, 1_000),
        vec![
            Action::Announce { step: 1, total: 2 },
            Action::Request { step: 1, total: 2 },
            Action::Announce { step: 2, total: 2 },
            Action::Countdown { step: 2, total: 2, seconds: 1 },
            Action::Sleep { millis: 0 },
            Action::Request { step: 2, total: 2 },
        ]
    );
}

#[test]
fn every_run_makes_all_its_requests() {
    for rep in 0..6u128 {
        for wait_time in [0u128, 1, 999, 1_000, 1_001, 2_500, 12_345] {
            let actions = play(rep, wait_time);
            assert_eq!(requests(&actions) as u128, rep);
            assert_eq!(waited(&actions), rep.saturating_sub(1) * wait_time);
        }
    }
}

#[test]
fn requests_are_numbered_in_order() {
    let actions = play(4, 1_500);
    let steps: Vec<u128> = actions
        .iter()
        .filter_map(|a| match a {
            Action::Request { step, total } => {
                assert_eq!(*total, 4);
                Some(*step)
            }
            _ => None,
        })
        .collect();
    assert_eq!(steps, vec![1, 2, 3, 4]);
}

#[test]
fn finished_schedule_stays_finished() {
    let mut schedule = Schedule::new(1, 0);
    schedule.advance();
    schedule.advance();
    assert!(schedule.is_finished());
    let before = schedule;
    schedule.advance();
    assert_eq!(schedule, before);
    assert_eq!(schedule.done, 1);
}

#[test]
fn largest_run_starts_like_any_other() {
    let mut schedule = Schedule::new(u128::MAX, u128::MAX);
    assert_eq!(schedule.action(), Action::Announce { step: 1, total: u128::MAX });
    schedule.advance();
    assert_eq!(schedule.action(), Action::Request { step: 1, total: u128::MAX });
    schedule.advance();
    assert_eq!(schedule.action(), Action::Announce { step: 2, total: u128::MAX });
    schedule.advance();
    assert_eq!(
        schedule.action(),
        Action::Countdown { step: 2, total: u128::MAX, seconds: u128::MAX / 1_000 }
    );
}
