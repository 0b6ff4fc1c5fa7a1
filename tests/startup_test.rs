use motor_link::startup::{
    test_result, StartUpTestParam, StartupTest, TestAction, TestEvent, TestPhase,
};

fn param(total: u32, rotate: u32, relay: bool) -> StartUpTestParam {
    StartUpTestParam {
        target_speed: 2_000_000,
        total_count: total,
        rotate_duration: rotate,
        cold_duration: 1,
        has_relay: relay,
    }
}

/// Runs one cycle up to the first status query.
fn spin_up(t: &mut StartupTest, first: TestAction) {
    let mut a = first;
    if t.param.has_relay {
        assert_eq!(a, TestAction::RelayOn);
        a = t.step(TestEvent::Done);
    }
    assert_eq!(a, TestAction::Sleep { ms: 2000 });
    assert_eq!(t.step(TestEvent::Done), TestAction::SetSpeed { value: 2_000_000 });
    assert_eq!(t.step(TestEvent::Done), TestAction::Sleep { ms: 100 });
    assert_eq!(t.step(TestEvent::Done), TestAction::StartMotor);
    assert_eq!(t.step(TestEvent::Done), TestAction::QueryStatus);
}

#[test]
fn held_speed_is_one_success() {
    let (mut t, a) = StartupTest::new(param(1, 3, false));
    spin_up(&mut t, a);
    let speeds = [20_400, 19_600, 20_000];
    for (i, mrps) in speeds.iter().enumerate() {
        assert_eq!(t.step(TestEvent::Status { error_code: 0 }), TestAction::QueryRps);
        let a = t.step(TestEvent::Rps { mrps: Some(*mrps) });
        if i < 2 {
            assert_eq!(a, TestAction::PollWait);
            let ms = 1000 * (i as u64 + 1);
            assert_eq!(t.step(TestEvent::Elapsed { ms }), TestAction::QueryStatus);
        } else {
            assert_eq!(a, TestAction::StopMotor);
        }
    }
    assert_eq!(t.success_cnt, 1);
    assert_eq!(t.failed_cnt, 0);
    assert_eq!(t.step(TestEvent::Done), TestAction::Sleep { ms: 1000 });
    assert_eq!(t.step(TestEvent::Done), TestAction::Finish);
    assert_eq!(t.phase, TestPhase::Finished);
    let r = t.get_test_result();
    assert_eq!((r.progress_num, r.progress_den, r.failed_cnt, r.success_cnt), (1, 1, 0, 1));
}

#[test]
fn speed_off_target_resets_the_streak() {
    let (mut t, a) = StartupTest::new(param(1, 2, false));
    spin_up(&mut t, a);
    assert_eq!(t.step(TestEvent::Status { error_code: 0 }), TestAction::QueryRps);
    assert_eq!(t.step(TestEvent::Rps { mrps: Some(20_000) }), TestAction::PollWait);
    assert_eq!(t.reached_cnt, 1);
    assert_eq!(t.step(TestEvent::Elapsed { ms: 1000 }), TestAction::QueryStatus);
    assert_eq!(t.step(TestEvent::Status { error_code: 0 }), TestAction::QueryRps);
    assert_eq!(t.step(TestEvent::Rps { mrps: Some(20_501) }), TestAction::PollWait);
    assert_eq!(t.reached_cnt, 0);
}

#[test]
fn never_on_target_times_out_once() {
    let (mut t, a) = StartupTest::new(param(1, 3, false));
    spin_up(&mut t, a);
    let mut elapsed = 0u64;
    loop {
        assert_eq!(t.step(TestEvent::Status { error_code: 0 }), TestAction::QueryRps);
        assert_eq!(t.step(TestEvent::Rps { mrps: Some(0) }), TestAction::PollWait);
        elapsed += 1000;
        let a = t.step(TestEvent::Elapsed { ms: elapsed + 5 });
        if a == TestAction::StopMotor {
            break;
        }
        assert_eq!(a, TestAction::QueryStatus);
        assert!(elapsed < 60_000);
    }
    assert_eq!(elapsed, 6000);
    assert_eq!(t.failed_cnt, 1);
    assert_eq!(t.success_cnt, 0);
}

#[test]
fn fault_code_fails_the_cycle() {
    let (mut t, a) = StartupTest::new(param(2, 3, true));
    spin_up(&mut t, a);
    assert_eq!(t.step(TestEvent::Status { error_code: 0x10 }), TestAction::StopMotor);
    assert_eq!(t.failed_cnt, 1);
    assert_eq!(t.step(TestEvent::Done), TestAction::RelayOff);
    assert_eq!(t.step(TestEvent::Done), TestAction::Sleep { ms: 1000 });
    // a second cycle follows
    assert_eq!(t.step(TestEvent::Done), TestAction::RelayOn);
    assert_eq!(t.test_cnt, 1);
    let r = t.get_test_result();
    assert_eq!((r.progress_num, r.progress_den), (1, 2));
}

#[test]
fn cancel_mid_cycle_stops_without_classifying() {
    let (mut t, a) = StartupTest::new(param(5, 3, true));
    spin_up(&mut t, a);
    assert_eq!(t.step(TestEvent::Status { error_code: 0 }), TestAction::QueryRps);
    assert_eq!(t.step(TestEvent::Cancel), TestAction::StopMotor);
    assert_eq!(t.step(TestEvent::Done), TestAction::RelayOff);
    assert_eq!(t.step(TestEvent::Done), TestAction::Finish);
    assert_eq!((t.failed_cnt, t.success_cnt), (0, 0));
    assert_eq!(t.step(TestEvent::Done), TestAction::Finish);
}

#[test]
fn zero_cycles_asked() {
    let (t, a) = StartupTest::new(param(0, 3, false));
    assert_eq!(a, TestAction::Finish);
    let r = t.get_test_result();
    assert_eq!((r.progress_num, r.progress_den, r.failed_cnt, r.success_cnt), (0, 1, 0, 0));
}

#[test]
fn result_with_no_total_is_zero() {
    let r = test_result(0, 0, 0);
    assert_eq!((r.progress_num, r.progress_den), (0, 1));
    let r = test_result(1, 2, 4);
    assert_eq!((r.progress_num, r.progress_den), (3, 4));
    let r = test_result(1, 0, 3);
    assert_eq!((r.progress_num, r.progress_den), (1, 3));
    assert_eq!(r.progress_num as f32 / r.progress_den as f32, 1.0 / 3.0);
}

#[test]
fn negative_target_sends_zero_speed() {
    let mut p = param(1, 1, false);
    p.target_speed = -5;
    let (mut t, a) = StartupTest::new(p);
    assert_eq!(a, TestAction::Sleep { ms: 2000 });
    assert_eq!(t.step(TestEvent::Done), TestAction::SetSpeed { value: 0 });
}

#[test]
fn off_target_poll_is_no_success_even_with_zero_duration() {
    let (mut t, a) = StartupTest::new(param(1, 0, false));
    spin_up(&mut t, a);
    assert_eq!(t.step(TestEvent::Status { error_code: 0 }), TestAction::QueryRps);
    assert_eq!(t.step(TestEvent::Rps { mrps: Some(0) }), TestAction::PollWait);
    assert_eq!(t.success_cnt, 0);
    assert_eq!(t.step(TestEvent::Elapsed { ms: 1 }), TestAction::StopMotor);
    assert_eq!(t.failed_cnt, 1);
}

#[test]
fn target_keeps_five_decimals() {
    let mut p = param(1, 1, false);
    p.target_speed = 1_234_567;
    let (mut t, _) = StartupTest::new(p);
    assert_eq!(t.step(TestEvent::Done), TestAction::SetSpeed { value: 1_234_567 });
}

#[test]
fn missing_speed_reading_is_off_target() {
    let mut p = param(1, 1, false);
    p.target_speed = 0;
    let (mut t, a) = StartupTest::new(p);
    assert_eq!(a, TestAction::Sleep { ms: 2000 });
    assert_eq!(t.step(TestEvent::Done), TestAction::SetSpeed { value: 0 });
    assert_eq!(t.step(TestEvent::Done), TestAction::Sleep { ms: 100 });
    assert_eq!(t.step(TestEvent::Done), TestAction::StartMotor);
    assert_eq!(t.step(TestEvent::Done), TestAction::QueryStatus);
    assert_eq!(t.step(TestEvent::Status { error_code: 0 }), TestAction::QueryRps);
    assert_eq!(t.step(TestEvent::Rps { mrps: None }), TestAction::PollWait);
    assert_eq!(t.success_cnt, 0);
    assert_eq!(t.step(TestEvent::Elapsed { ms: 1000 }), TestAction::QueryStatus);
    assert_eq!(t.step(TestEvent::Status { error_code: 0 }), TestAction::QueryRps);
    assert_eq!(t.step(TestEvent::Rps { mrps: Some(0) }), TestAction::StopMotor);
    assert_eq!(t.success_cnt, 1);
}
