//! The unattended startup test: repeated power-on, spin-up, hold and
//! stop cycles, each classified as a success or a failure, as a state
//! machine. The caller performs each action (relay, motor request, pause)
//! and hands back what came of it; a cancellation can come in place of any
//! event.
//!
//! Measured speeds are in thousandths of a revolution per second, as the
//! drive reports them; the target is in 1e-5 revolutions per second, the
//! unit of the speed word the drive is sent.

use vstd::prelude::*;

verus! {

/// Milliseconds to wait after powering the drive.
pub const POWER_SETTLE_MS: u64 = 2000;
/// Milliseconds to wait after setting the speed.
pub const SPEED_SETTLE_MS: u64 = 100;
/// How far, in 1e-5 revolutions per second, the speed may stray from the
/// target and still count as on target.
pub const SPEED_TOLERANCE: i64 = 50_000;

/// What a test run is asked to do.
#[derive(Clone, Copy, Debug, PartialEq, Eq, Structural)]
pub struct StartUpTestParam {
    /// The target speed, in 1e-5 revolutions per second (the unit of the
    /// speed word).
    pub target_speed: i32,
    /// The number of cycles.
    pub total_count: u32,
    /// Consecutive one-second polls on target that make a success; a cycle
    /// fails once twice this many seconds have passed.
    pub rotate_duration: u32,
    /// Seconds of rest after each cycle.
    pub cold_duration: u32,
    /// Whether a relay powers the drive on and off around each cycle.
    pub has_relay: bool,
}

/// What a run waits for: the completion of the action it last asked for.
#[derive(Clone, Copy, Debug, PartialEq, Eq, Structural)]
pub enum TestPhase {
    PowerOn,
    PowerSettle,
    SetSpeed,
    SpeedSettle,
    StartMotor,
    QueryStatus,
    QueryRps,
    PollWait,
    StopMotor,
    PowerOff,
    Cooldown,
    Finished,
}

/// What to do next.
#[derive(Clone, Copy, Debug, PartialEq, Eq, Structural)]
pub enum TestAction {
    /// Power the drive through the relay.
    RelayOn,
    /// Pause this many milliseconds.
    Sleep { ms: u64 },
    /// Send this speed word (the target in 1e-5 revolutions per second).
    SetSpeed { value: u32 },
    /// Start the motor; the cycle's clock starts here.
    StartMotor,
    /// Read the drive status and report its fault code.
    QueryStatus,
    /// Read the speed and report it.
    QueryRps,
    /// Pause about a second, then report the time since the cycle's start.
    PollWait,
    /// Stop the motor.
    StopMotor,
    /// Cut the drive's power through the relay.
    RelayOff,
    /// The run is over.
    Finish,
}

/// What came of the last action.
#[derive(Clone, Copy, Debug, PartialEq, Eq, Structural)]
pub enum TestEvent {
    /// The action was carried out.
    Done,
    /// The drive reported this fault code.
    Status { error_code: u16 },
    /// The drive reported this speed, in thousandths of a revolution per
    /// second; `None` when it did not answer, which counts as off target.
    Rps { mrps: Option<i32> },
    /// This many milliseconds have passed since the motor was started.
    Elapsed { ms: u64 },
    /// The run was asked to stop.
    Cancel,
}

/// A test run: its parameters, where it stands and its counters.
#[derive(Clone, Copy, Debug, PartialEq, Eq, Structural)]
pub struct StartupTest {
    pub param: StartUpTestParam,
    pub phase: TestPhase,
    /// Cycles begun.
    pub test_cnt: u32,
    /// Consecutive polls on target in this cycle.
    pub reached_cnt: u32,
    pub failed_cnt: u32,
    pub success_cnt: u32,
    /// Whether the run was asked to stop.
    pub canceled: bool,
}

/// Whether the motor of the current cycle may be turning and the cycle is
/// not classified yet.
pub open spec fn polling(p: TestPhase) -> bool {
    p == TestPhase::StartMotor || p == TestPhase::QueryStatus || p == TestPhase::QueryRps || p
        == TestPhase::PollWait
}

/// Whether a cycle is being prepared.
pub open spec fn preparing(p: TestPhase) -> bool {
    p == TestPhase::PowerOn || p == TestPhase::PowerSettle || p == TestPhase::SetSpeed || p
        == TestPhase::SpeedSettle
}

/// The counters agree with the cycles: each begun cycle is classified at
/// most once, and no more cycles begin than were asked for.
pub open spec fn test_wf(t: StartupTest) -> bool {
    &&& t.test_cnt <= t.param.total_count
    &&& t.failed_cnt + t.success_cnt <= t.test_cnt
    &&& polling(t.phase) ==> t.failed_cnt + t.success_cnt < t.test_cnt
    &&& preparing(t.phase) ==> t.test_cnt < t.param.total_count
    &&& t.reached_cnt < t.param.rotate_duration || t.reached_cnt == 0
}

/// The speed word for a target: the target itself, or 0 for a negative
/// target.
pub open spec fn speed_word(target_speed: i32) -> u32 {
    if target_speed < 0 {
        0
    } else {
        target_speed as u32
    }
}

/// Whether a measured speed is on target.
pub open spec fn on_target(mrps: i32, target_speed: i32) -> bool {
    -SPEED_TOLERANCE <= mrps * 100 - target_speed <= SPEED_TOLERANCE
}

/// Whether a speed reading came and is on target.
pub open spec fn reading_on_target(mrps: Option<i32>, target_speed: i32) -> bool {
    match mrps {
        Some(m) => on_target(m, target_speed),
        None => false,
    }
}

/// The pending action of each phase.
pub open spec fn pending_action(t: StartupTest) -> TestAction {
    match t.phase {
        TestPhase::PowerOn => TestAction::RelayOn,
        TestPhase::PowerSettle => TestAction::Sleep { ms: POWER_SETTLE_MS },
        TestPhase::SetSpeed => TestAction::SetSpeed { value: speed_word(t.param.target_speed) },
        TestPhase::SpeedSettle => TestAction::Sleep { ms: SPEED_SETTLE_MS },
        TestPhase::StartMotor => TestAction::StartMotor,
        TestPhase::QueryStatus => TestAction::QueryStatus,
        TestPhase::QueryRps => TestAction::QueryRps,
        TestPhase::PollWait => TestAction::PollWait,
        TestPhase::StopMotor => TestAction::StopMotor,
        TestPhase::PowerOff => TestAction::RelayOff,
        TestPhase::Cooldown => TestAction::Sleep { ms: (t.param.cold_duration * 1000) as u64 },
        TestPhase::Finished => TestAction::Finish,
    }
}

/// `t` moved to phase `p`, with the action that phase asks for.
pub open spec fn go(t: StartupTest, p: TestPhase) -> (StartupTest, TestAction) {
    let u = StartupTest { phase: p, ..t };
    (u, pending_action(u))
}

/// The start of a cycle: power first when there is a relay.
pub open spec fn begin_cycle(t: StartupTest) -> (StartupTest, TestAction) {
    if t.param.has_relay {
        go(t, TestPhase::PowerOn)
    } else {
        go(t, TestPhase::PowerSettle)
    }
}

/// A run that has begun no cycle yet; none at all when no cycle is asked
/// for.
pub open spec fn initial_test(param: StartUpTestParam) -> (StartupTest, TestAction) {
    let t = StartupTest {
        param,
        phase: TestPhase::Finished,
        test_cnt: 0,
        reached_cnt: 0,
        failed_cnt: 0,
        success_cnt: 0,
        canceled: false,
    };
    if param.total_count == 0 {
        (t, TestAction::Finish)
    } else {
        begin_cycle(t)
    }
}

/// The current cycle failed.
pub open spec fn fail_cycle(t: StartupTest) -> (StartupTest, TestAction) {
    go(
        StartupTest { failed_cnt: (t.failed_cnt + 1) as u32, reached_cnt: 0, ..t },
        TestPhase::StopMotor,
    )
}

/// After the motor stopped: power off when there is a relay, then rest,
/// unless the run was canceled.
pub open spec fn after_stop(t: StartupTest) -> (StartupTest, TestAction) {
    if t.param.has_relay {
        go(t, TestPhase::PowerOff)
    } else if t.canceled {
        go(t, TestPhase::Finished)
    } else {
        go(t, TestPhase::Cooldown)
    }
}

/// One step of a run: the next state and action after event `e`.
pub open spec fn test_step(t: StartupTest, e: TestEvent) -> (StartupTest, TestAction) {
    if t.phase == TestPhase::Finished {
        (t, TestAction::Finish)
    } else if e == TestEvent::Cancel {
        let c = StartupTest { canceled: true, ..t };
        match t.phase {
            TestPhase::StopMotor => after_stop(c),
            TestPhase::PowerOff => go(c, TestPhase::Finished),
            TestPhase::Cooldown => go(c, TestPhase::Finished),
            _ => go(c, TestPhase::StopMotor),
        }
    } else {
        match (t.phase, e) {
            (TestPhase::PowerOn, TestEvent::Done) => go(t, TestPhase::PowerSettle),
            (TestPhase::PowerSettle, TestEvent::Done) => go(t, TestPhase::SetSpeed),
            (TestPhase::SetSpeed, TestEvent::Done) => go(t, TestPhase::SpeedSettle),
            (TestPhase::SpeedSettle, TestEvent::Done) => go(
                StartupTest { test_cnt: (t.test_cnt + 1) as u32, reached_cnt: 0, ..t },
                TestPhase::StartMotor,
            ),
            (TestPhase::StartMotor, TestEvent::Done) => go(t, TestPhase::QueryStatus),
            (TestPhase::QueryStatus, TestEvent::Status { error_code }) => if error_code > 0 {
                fail_cycle(t)
            } else {
                go(t, TestPhase::QueryRps)
            },
            (TestPhase::QueryRps, TestEvent::Rps { mrps }) => {
                if reading_on_target(mrps, t.param.target_speed) {
                    let r = t.reached_cnt + 1;
                    if r >= t.param.rotate_duration {
                        let u = StartupTest {
                            success_cnt: (t.success_cnt + 1) as u32,
                            reached_cnt: 0,
                            ..t
                        };
                        go(u, TestPhase::StopMotor)
                    } else {
                        go(StartupTest { reached_cnt: r as u32, ..t }, TestPhase::PollWait)
                    }
                } else {
                    go(StartupTest { reached_cnt: 0, ..t }, TestPhase::PollWait)
                }
            },
            (TestPhase::PollWait, TestEvent::Elapsed { ms }) => if ms > t.param.rotate_duration
                * 2000 {
                fail_cycle(t)
            } else {
                go(t, TestPhase::QueryStatus)
            },
            (TestPhase::StopMotor, TestEvent::Done) => after_stop(t),
            (TestPhase::PowerOff, TestEvent::Done) => if t.canceled {
                go(t, TestPhase::Finished)
            } else {
                go(t, TestPhase::Cooldown)
            },
            (TestPhase::Cooldown, TestEvent::Done) => if t.test_cnt >= t.param.total_count {
                go(t, TestPhase::Finished)
            } else {
                begin_cycle(t)
            },
            _ => (t, pending_action(t)),
        }
    }
}

/// A snapshot of a run's counters.
#[derive(Clone, Copy, Debug, PartialEq, Eq, Structural)]
pub struct TestResult {
    /// The progress is `progress_num / progress_den`: the classified cycles
    /// over the cycles asked for, and 0 / 1 when none were asked for.
    pub progress_num: u32,
    pub progress_den: u32,
    pub failed_cnt: u32,
    pub success_cnt: u32,
}

/// The snapshot of counters `failed` and `success` out of `total` cycles:
/// the progress is `(failed + success) / total`, and 0 when `total` is 0.
pub fn test_result(failed: u32, success: u32, total: u32) -> (r: TestResult)
    requires
        failed + success <= total,
    ensures
        r.failed_cnt == failed,
        r.success_cnt == success,
        r.progress_den > 0,
        total > 0 ==> r.progress_num == failed + success && r.progress_den == total,
        total == 0 ==> r.progress_num == 0 && r.progress_den == 1,
{
    if total == 0 {
        TestResult { progress_num: 0, progress_den: 1, failed_cnt: failed, success_cnt: success }
    } else {
        TestResult {
            progress_num: failed + success,
            progress_den: total,
            failed_cnt: failed,
            success_cnt: success,
        }
    }
}

impl StartupTest {
    /// A run of `param`, with the first action to perform.
    pub fn new(param: StartUpTestParam) -> (r: (StartupTest, TestAction))
        ensures
            r == initial_test(param),
            test_wf(r.0),
    {
        let t = StartupTest {
            param,
            phase: TestPhase::Finished,
            test_cnt: 0,
            reached_cnt: 0,
            failed_cnt: 0,
            success_cnt: 0,
            canceled: false,
        };
        if param.total_count == 0 {
            (t, TestAction::Finish)
        } else {
            let mut t = t;
            let a = t.begin_cycle();
            (t, a)
        }
    }

    fn pending(&self) -> (r: TestAction)
        ensures
            r == pending_action(*self),
    {
        match self.phase {
            TestPhase::PowerOn => TestAction::RelayOn,
            TestPhase::PowerSettle => TestAction::Sleep { ms: POWER_SETTLE_MS },
            TestPhase::SetSpeed => {
                let v = self.param.target_speed;
                let value: u32 = if v < 0 {
                    0
                } else {
                    v as u32
                };
                TestAction::SetSpeed { value }
            },
            TestPhase::SpeedSettle => TestAction::Sleep { ms: SPEED_SETTLE_MS },
            TestPhase::StartMotor => TestAction::StartMotor,
            TestPhase::QueryStatus => TestAction::QueryStatus,
            TestPhase::QueryRps => TestAction::QueryRps,
            TestPhase::PollWait => TestAction::PollWait,
            TestPhase::StopMotor => TestAction::StopMotor,
            TestPhase::PowerOff => TestAction::RelayOff,
            TestPhase::Cooldown => TestAction::Sleep { ms: self.param.cold_duration as u64 * 1000 },
            TestPhase::Finished => TestAction::Finish,
        }
    }

    fn go(&mut self, p: TestPhase) -> (r: TestAction)
        ensures
            (*final(self), r) == go(*old(self), p),
    {
        self.phase = p;
        self.pending()
    }

    fn begin_cycle(&mut self) -> (r: TestAction)
        ensures
            (*final(self), r) == begin_cycle(*old(self)),
    {
        if self.param.has_relay {
            self.go(TestPhase::PowerOn)
        } else {
            self.go(TestPhase::PowerSettle)
        }
    }

    fn after_stop(&mut self) -> (r: TestAction)
        ensures
            (*final(self), r) == after_stop(*old(self)),
    {
        if self.param.has_relay {
            self.go(TestPhase::PowerOff)
        } else if self.canceled {
            self.go(TestPhase::Finished)
        } else {
            self.go(TestPhase::Cooldown)
        }
    }

    /// Takes in what came of the last action and gives the next one.
    pub fn step(&mut self, e: TestEvent) -> (r: TestAction)
        requires
            test_wf(*old(self)),
        ensures
            (*final(self), r) == test_step(*old(self), e),
            test_wf(*final(self)),
    {
        if self.phase == TestPhase::Finished {
            return TestAction::Finish;
        }
        if e == TestEvent::Cancel {
            self.canceled = true;
            return match self.phase {
                TestPhase::StopMotor => self.after_stop(),
                TestPhase::PowerOff => self.go(TestPhase::Finished),
                TestPhase::Cooldown => self.go(TestPhase::Finished),
                _ => self.go(TestPhase::StopMotor),
            };
        }
        match (self.phase, e) {
            (TestPhase::PowerOn, TestEvent::Done) => self.go(TestPhase::PowerSettle),
            (TestPhase::PowerSettle, TestEvent::Done) => self.go(TestPhase::SetSpeed),
            (TestPhase::SetSpeed, TestEvent::Done) => self.go(TestPhase::SpeedSettle),
            (TestPhase::SpeedSettle, TestEvent::Done) => {
                self.test_cnt = self.test_cnt + 1;
                self.reached_cnt = 0;
                self.go(TestPhase::StartMotor)
            },
            (TestPhase::StartMotor, TestEvent::Done) => self.go(TestPhase::QueryStatus),
            (TestPhase::QueryStatus, TestEvent::Status { error_code }) => {
                if error_code > 0 {
                    self.failed_cnt = self.failed_cnt + 1;
                    self.reached_cnt = 0;
                    self.go(TestPhase::StopMotor)
                } else {
                    self.go(TestPhase::QueryRps)
                }
            },
            (TestPhase::QueryRps, TestEvent::Rps { mrps }) => {
                let on = match mrps {
                    Some(m) => {
                        let d: i64 = m as i64 * 100 - self.param.target_speed as i64;
                        -SPEED_TOLERANCE <= d && d <= SPEED_TOLERANCE
                    },
                    None => false,
                };
                if on {
                    let r: u64 = self.reached_cnt as u64 + 1;
                    if r >= self.param.rotate_duration as u64 {
                        self.success_cnt = self.success_cnt + 1;
                        self.reached_cnt = 0;
                        self.go(TestPhase::StopMotor)
                    } else {
                        self.reached_cnt = r as u32;
                        self.go(TestPhase::PollWait)
                    }
                } else {
                    self.reached_cnt = 0;
                    self.go(TestPhase::PollWait)
                }
            },
            (TestPhase::PollWait, TestEvent::Elapsed { ms }) => {
                if ms as u128 > self.param.rotate_duration as u128 * 2000 {
                    self.failed_cnt = self.failed_cnt + 1;
                    self.reached_cnt = 0;
                    self.go(TestPhase::StopMotor)
                } else {
                    self.go(TestPhase::QueryStatus)
                }
            },
            (TestPhase::StopMotor, TestEvent::Done) => self.after_stop(),
            (TestPhase::PowerOff, TestEvent::Done) => {
                if self.canceled {
                    self.go(TestPhase::Finished)
                } else {
                    self.go(TestPhase::Cooldown)
                }
            },
            (TestPhase::Cooldown, TestEvent::Done) => {
                if self.test_cnt >= self.param.total_count {
                    self.go(TestPhase::Finished)
                } else {
                    self.begin_cycle()
                }
            },
            _ => self.pending(),
        }
    }

    /// The snapshot of this run's counters.
    pub fn get_test_result(&self) -> (r: TestResult)
        requires
            test_wf(*self),
        ensures
            r.failed_cnt == self.failed_cnt,
            r.success_cnt == self.success_cnt,
            r.progress_den > 0,
            self.param.total_count > 0 ==> r.progress_num == self.failed_cnt + self.success_cnt
                && r.progress_den == self.param.total_count,
            self.param.total_count == 0 ==> r.progress_num == 0 && r.progress_den == 1,
    {
        test_result(self.failed_cnt, self.success_cnt, self.param.total_count)
    }
}

/// A cancellation classifies nothing, and the run is over once at most two
/// more actions (stopping the motor, cutting the power) are carried out.
pub proof fn lemma_cancel_ends_run(t: StartupTest)
    requires
        test_wf(t),
        t.phase != TestPhase::Finished,
    ensures
        ({
            let (t1, a1) = test_step(t, TestEvent::Cancel);
            let (t2, a2) = test_step(t1, TestEvent::Done);
            let (t3, a3) = test_step(t2, TestEvent::Done);
            &&& t1.failed_cnt == t.failed_cnt && t1.success_cnt == t.success_cnt
            &&& t3.failed_cnt == t.failed_cnt && t3.success_cnt == t.success_cnt
            &&& t3.phase == TestPhase::Finished
            &&& a3 == TestAction::Finish
        }),
{
}

/// One poll of a running cycle: fault code 0, speed `mrps`, and, when the
/// cycle goes on, `ms` milliseconds since its start.
pub open spec fn poll_round(t: StartupTest, mrps: i32, ms: u64) -> StartupTest {
    let t1 = test_step(t, TestEvent::Status { error_code: 0 }).0;
    let t2 = test_step(t1, TestEvent::Rps { mrps: Some(mrps) }).0;
    if t2.phase == TestPhase::PollWait {
        test_step(t2, TestEvent::Elapsed { ms }).0
    } else {
        t2
    }
}

/// The state after `k` polls with fault code 0, the `i`-th reading speed
/// `v[i]` and, when the cycle goes on, reporting `ms[i]` milliseconds since
/// the cycle's start.
pub open spec fn polls(t: StartupTest, v: Seq<i32>, ms: Seq<u64>, k: nat) -> StartupTest
    decreases k,
{
    if k == 0 {
        t
    } else {
        poll_round(polls(t, v, ms, (k - 1) as nat), v[k - 1], ms[k - 1])
    }
}

proof fn lemma_on_target_streak(t: StartupTest, v: Seq<i32>, ms: Seq<u64>, k: nat)
    requires
        t.phase == TestPhase::QueryStatus,
        t.reached_cnt == 0,
        k < t.param.rotate_duration,
        k <= v.len(),
        k <= ms.len(),
        forall|i: int| 0 <= i < k ==> on_target(#[trigger] v[i], t.param.target_speed),
        forall|i: int| 0 <= i < k ==> #[trigger] ms[i] <= t.param.rotate_duration * 2000,
    ensures
        polls(t, v, ms, k) == (StartupTest { reached_cnt: k as u32, ..t }),
    decreases k,
{
    if k > 0 {
        lemma_on_target_streak(t, v, ms, (k - 1) as nat);
        assert(on_target(v[k - 1], t.param.target_speed));
        assert(ms[k - 1] <= t.param.rotate_duration * 2000);
    }
}

/// A cycle whose speed stays within the tolerance of the target for
/// `rotate_duration` polls in a row, with no fault and within the time
/// limit, records exactly one success and no failure, and stops the motor.
pub proof fn lemma_held_speed_succeeds(t: StartupTest, v: Seq<i32>, ms: Seq<u64>)
    requires
        t.phase == TestPhase::QueryStatus,
        t.reached_cnt == 0,
        t.param.rotate_duration >= 1,
        t.success_cnt < u32::MAX,
        v.len() >= t.param.rotate_duration,
        ms.len() >= t.param.rotate_duration,
        forall|i: int|
            0 <= i < t.param.rotate_duration ==> on_target(#[trigger] v[i], t.param.target_speed),
        forall|i: int|
            0 <= i < t.param.rotate_duration ==> #[trigger] ms[i] <= t.param.rotate_duration
                * 2000,
    ensures
        ({
            let u = polls(t, v, ms, t.param.rotate_duration as nat);
            &&& u.success_cnt == t.success_cnt + 1
            &&& u.failed_cnt == t.failed_cnt
            &&& u.phase == TestPhase::StopMotor
        }),
{
    let d = t.param.rotate_duration as nat;
    lemma_on_target_streak(t, v, ms, (d - 1) as nat);
    assert(on_target(v[d - 1], t.param.target_speed));
}

/// Whether every poll among the first `k` reported a time within the limit.
pub open spec fn within_limit(t: StartupTest, ms: Seq<u64>, k: int) -> bool {
    forall|i: int| 0 <= i < k ==> #[trigger] ms[i] <= t.param.rotate_duration * 2000
}

proof fn lemma_off_target_rounds(t: StartupTest, v: Seq<i32>, ms: Seq<u64>, k: nat)
    requires
        t.phase == TestPhase::QueryStatus,
        t.failed_cnt < u32::MAX,
        k <= v.len(),
        k <= ms.len(),
        forall|i: int| 0 <= i < k ==> !on_target(#[trigger] v[i], t.param.target_speed),
    ensures
        within_limit(t, ms, k as int) ==> polls(t, v, ms, k) == (if k == 0 {
            t
        } else {
            StartupTest { reached_cnt: 0, ..t }
        }),
        !within_limit(t, ms, k as int) ==> polls(t, v, ms, k) == (StartupTest {
            failed_cnt: (t.failed_cnt + 1) as u32,
            reached_cnt: 0,
            phase: TestPhase::StopMotor,
            ..t
        }),
    decreases k,
{
    if k > 0 {
        lemma_off_target_rounds(t, v, ms, (k - 1) as nat);
        assert(!on_target(v[k - 1], t.param.target_speed));
        if within_limit(t, ms, k as int) {
            assert(within_limit(t, ms, k - 1));
            assert(ms[k - 1] <= t.param.rotate_duration * 2000);
        } else if within_limit(t, ms, k - 1) {
            assert(ms[k - 1] > t.param.rotate_duration * 2000);
        } else {
        }
    }
}

/// With no fault and the speed never within the tolerance, a cycle records
/// no failure while the reported time since its start is at most twice
/// `rotate_duration` seconds, and exactly one failure, stopping the motor,
/// by the poll after that. When each poll waits at least a second, the
/// cycle is over after `2 * rotate_duration + 1` polls.
pub proof fn lemma_off_target_times_out(t: StartupTest, v: Seq<i32>, ms: Seq<u64>, k: nat)
    requires
        t.phase == TestPhase::QueryStatus,
        t.failed_cnt < u32::MAX,
        k <= v.len(),
        k <= ms.len(),
        forall|i: int| 0 <= i < k ==> !on_target(#[trigger] v[i], t.param.target_speed),
    ensures
        polls(t, v, ms, k).success_cnt == t.success_cnt,
        within_limit(t, ms, k as int) ==> {
            &&& polls(t, v, ms, k).failed_cnt == t.failed_cnt
            &&& polls(t, v, ms, k).phase == TestPhase::QueryStatus
        },
        k > 0 && ms[k - 1] > t.param.rotate_duration * 2000 ==> {
            &&& polls(t, v, ms, k).failed_cnt == t.failed_cnt + 1
            &&& polls(t, v, ms, k).phase == TestPhase::StopMotor
        },
        k == 2 * t.param.rotate_duration + 1 && (forall|i: int|
            0 <= i < k ==> #[trigger] ms[i] >= (i + 1) * 1000) ==> {
            &&& polls(t, v, ms, k).failed_cnt == t.failed_cnt + 1
            &&& polls(t, v, ms, k).phase == TestPhase::StopMotor
        },
{
    lemma_off_target_rounds(t, v, ms, k);
    if k > 0 && ms[k - 1] > t.param.rotate_duration * 2000 {
        assert(!within_limit(t, ms, k as int));
    }
    if k == 2 * t.param.rotate_duration + 1 && (forall|i: int|
        0 <= i < k ==> #[trigger] ms[i] >= (i + 1) * 1000) {
        assert(ms[k - 1] >= k * 1000);
        assert(!within_limit(t, ms, k as int));
    }
}

} // verus!
