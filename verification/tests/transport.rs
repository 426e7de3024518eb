use jhd1313m1_i2c::{Action, Effect, JHD1313M1, Outcome, Progress, Transaction, TransportFailure};

/// Carries out a plan on a bus whose write number `fail_at` (counted from
/// zero, delays not counted) fails; returns what was attempted and the result.
fn run_on_bus(
    plan: Vec<Effect>,
    fail_at: Option<usize>,
) -> (Vec<Effect>, Result<(), TransportFailure>) {
    let mut attempted: Vec<Effect> = Vec::new();
    let mut writes = 0usize;
    let mut t = Transaction::begin(plan);
    let mut action = t.action();
    loop {
        match action {
            Action::Perform(effect) => {
                attempted.push(effect);
                let outcome = if effect.is_write() {
                    let failed = fail_at == Some(writes);
                    writes += 1;
                    if failed { Outcome::Failed } else { Outcome::Completed }
                } else {
                    Outcome::Completed
                };
                action = t.advance(outcome);
            }
            Action::Finish => {
                assert_eq!(t.result(), Some(Ok(())));
                return (attempted, Ok(()));
            }
            Action::Abort { step } => {
                assert_eq!(t.result(), Some(Err(TransportFailure { step })));
                return (attempted, Err(TransportFailure { step }));
            }
        }
    }
}

#[test]
fn a_plan_without_failure_is_performed_whole() {
    let mut d = JHD1313M1::new();
    let plan = d.init();
    let (attempted, result) = run_on_bus(plan.clone(), None);
    assert_eq!(attempted, plan);
    assert_eq!(result, Ok(()));
}

#[test]
fn an_empty_plan_finishes_at_once() {
    let t = Transaction::begin(Vec::new());
    assert_eq!(t.progress(), Progress::Finished);
    assert_eq!(t.action(), Action::Finish);
    assert_eq!(t.result(), Some(Ok(())));
    assert_eq!(t.completed(), 0);
}

#[test]
fn create_char_failing_on_the_third_row_skips_the_rest() {
    let mut d = JHD1313M1::new();
    let pattern: [u8; 8] = [11, 12, 13, 14, 15, 16, 17, 18];
    let plan = d.create_char(2, &pattern);
    // write 0 opens the slot; writes 1 to 8 carry the rows
    let (attempted, result) = run_on_bus(plan.clone(), Some(3));
    assert_eq!(result, Err(TransportFailure { step: 3 }));
    assert_eq!(attempted.len(), 4);
    assert_eq!(attempted, plan[..4].to_vec());
    assert_eq!(
        attempted[3],
        Effect::Write { address: 0x3E, control: 0x40, value: 13 }
    );
}

#[test]
fn set_color_failing_on_green_never_writes_blue() {
    let mut d = JHD1313M1::new();
    let plan = d.set_color(1, 2, 3);
    let (attempted, result) = run_on_bus(plan, Some(1));
    assert_eq!(result, Err(TransportFailure { step: 1 }));
    assert_eq!(
        attempted,
        vec![
            Effect::Write { address: 0x62, control: 0x04, value: 1 },
            Effect::Write { address: 0x62, control: 0x03, value: 2 },
        ]
    );
}

#[test]
fn init_failing_on_its_second_write_stops_before_the_next_delay() {
    let mut d = JHD1313M1::new();
    let plan = d.init();
    let (attempted, result) = run_on_bus(plan.clone(), Some(1));
    // the second write is the fourth effect: delay, write, delay, write
    assert_eq!(result, Err(TransportFailure { step: 3 }));
    assert_eq!(attempted, plan[..4].to_vec());
}

#[test]
fn every_failing_write_of_every_operation_is_reported() {
    let mut d = JHD1313M1::new();
    let pattern: [u8; 8] = [0; 8];
    let plans = vec![
        d.init(),
        d.set_color(9, 8, 7),
        d.write("abc"),
        d.set_cursor(1, 1),
        d.clear(),
        d.home(),
        d.create_char(0, &pattern),
        d.cursor_on(true),
        d.backlight_on(true),
    ];
    for plan in plans {
        let writes: Vec<usize> =
            (0..plan.len()).filter(|i| plan[*i].is_write()).collect();
        for (nth, index) in writes.iter().enumerate() {
            let (attempted, result) = run_on_bus(plan.clone(), Some(nth));
            assert_eq!(result, Err(TransportFailure { step: *index }));
            assert_eq!(attempted, plan[..*index + 1].to_vec());
        }
    }
}

#[test]
fn transaction_steps_through_its_plan() {
    let mut d = JHD1313M1::new();
    let plan = d.clear();
    let mut t = Transaction::begin(plan.clone());
    assert_eq!(t.progress(), Progress::Awaiting);
    assert_eq!(t.result(), None);
    assert_eq!(t.completed(), 0);
    assert_eq!(t.action(), Action::Perform(plan[0]));
    assert_eq!(t.advance(Outcome::Completed), Action::Perform(plan[1]));
    assert_eq!(t.completed(), 1);
    assert_eq!(t.advance(Outcome::Completed), Action::Finish);
    assert_eq!(t.progress(), Progress::Finished);
    assert_eq!(t.completed(), 2);
    assert_eq!(t.advance(Outcome::Failed), Action::Finish);
    assert_eq!(t.advance(Outcome::Completed), Action::Finish);
    assert_eq!(t.completed(), 2);
    assert_eq!(t.result(), Some(Ok(())));
}

#[test]
fn an_aborted_transaction_stays_aborted() {
    let mut d = JHD1313M1::new();
    let mut t = Transaction::begin(d.set_color(5, 6, 7));
    assert_eq!(t.advance(Outcome::Completed), Action::Perform(Effect::backlight(0x03, 6)));
    assert_eq!(t.advance(Outcome::Failed), Action::Abort { step: 1 });
    assert_eq!(t.progress(), Progress::Aborted);
    assert_eq!(t.advance(Outcome::Completed), Action::Abort { step: 1 });
    assert_eq!(t.advance(Outcome::Failed), Action::Abort { step: 1 });
    assert_eq!(t.action(), Action::Abort { step: 1 });
    assert_eq!(t.completed(), 1);
    assert_eq!(t.result(), Some(Err(TransportFailure { step: 1 })));
}

#[test]
fn advance_all_takes_outcomes_in_order() {
    let mut d = JHD1313M1::new();
    let plan = d.init();
    let mut t = Transaction::begin(plan.clone());
    let a = t.advance_all(&[Outcome::Completed, Outcome::Completed, Outcome::Completed]);
    assert_eq!(a, Action::Perform(plan[3]));
    assert_eq!(t.completed(), 3);
    let a = t.advance_all(&[]);
    assert_eq!(a, Action::Perform(plan[3]));
    let a = t.advance_all(&[Outcome::Completed, Outcome::Failed, Outcome::Completed]);
    assert_eq!(a, Action::Abort { step: 4 });
    assert_eq!(t.completed(), 4);

    let mut whole = Transaction::begin(plan.clone());
    let all = vec![Outcome::Completed; plan.len()];
    assert_eq!(whole.advance_all(&all), Action::Finish);
    assert_eq!(whole.result(), Some(Ok(())));
}
