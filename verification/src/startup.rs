//! The decisions taken while the control loop starts.
//!
//! Starting the loop alternates work on the servo bus with decisions. The bus
//! work (pinging, reading voltages, rebooting, reading the first positions)
//! is done by the caller; each time it reports what came back, and
//! [`startup_next`] says what to do next. The first thing to do is
//! [`StartupAction::PingMotors`].
use vstd::prelude::*;
use crate::error::{texts, MotorError, Wait};
use crate::presence::{classify_missing_motors, labels};

verus! {

/// Lowest input voltage, in 0.1 V units, at which the 12 V rail counts as
/// stable. SM40BL and STS3025BL both run at 12 V nominal.
pub const MIN_VOLTAGE_TENTHS: u8 = 110;

/// Pause between two voltage readings while waiting for the rail, in
/// milliseconds.
pub const VOLTAGE_POLL_MS: u64 = 100;

/// How long the servos get to answer again after the startup reboot, in
/// milliseconds.
pub const STARTUP_REBOOT_TIMEOUT_MS: u64 = 1000;

/// What the caller must do next.
#[derive(Debug)]
pub enum StartupAction {
    /// Ping every servo and report the ids that did not answer.
    PingMotors,
    /// Read the input voltage of every servo.
    ReadVoltages,
    /// Wait `VOLTAGE_POLL_MS`, then read the input voltage of every servo.
    WaitThenReadVoltages,
    /// Reboot every servo and wait up to `STARTUP_REBOOT_TIMEOUT_MS` for them.
    RebootMotors,
    /// Read the first positions and the torque state.
    ReadInitialState,
    /// Everything is ready: start the control loop.
    StartLoop,
    /// Give up with this error.
    Abort(MotorError),
}

/// What the caller saw doing the last action.
#[derive(Debug)]
pub enum StartupReport {
    /// The ids that did not answer the ping; `None` when the check failed.
    MotorsPinged(Option<Vec<u8>>),
    /// The seven input voltages in 0.1 V units (`None` when the reading
    /// failed), and whether the time allowed for the rail has run out.
    VoltagesRead(Option<[u8; 7]>, bool),
    /// Whether every servo answered again after the reboot.
    MotorsRebooted(bool),
    /// Whether the first positions and the torque state could be read.
    InitialStateRead(bool),
    /// There is no servo bus to ping: the loop drives the neck alone.
    NoServoBus,
}

/// Every voltage has reached the stable level.
pub open spec fn voltages_stable(volts: Seq<u8>) -> bool {
    forall|k: int| 0 <= k < volts.len() ==> #[trigger] volts[k] >= MIN_VOLTAGE_TENTHS
}

/// `m` is the lowest of the voltages.
pub open spec fn is_lowest(m: u8, volts: Seq<u8>) -> bool {
    &&& volts.contains(m)
    &&& forall|k: int| 0 <= k < volts.len() ==> m <= #[trigger] volts[k]
}

/// The report calls for (another) voltage reading.
pub open spec fn prompts_voltage_read(report: StartupReport) -> bool {
    ||| report matches StartupReport::MotorsPinged(Some(missing)) && missing@.len() == 0
    ||| report matches StartupReport::VoltagesRead(Some(volts), timed_out) && !voltages_stable(
        volts@,
    ) && !timed_out
}

/// The report calls for the reboot.
pub open spec fn prompts_reboot(report: StartupReport) -> bool {
    report matches StartupReport::VoltagesRead(Some(volts), _) && voltages_stable(volts@)
}

/// The report calls for reading the first positions.
pub open spec fn prompts_initial_read(report: StartupReport) -> bool {
    report matches StartupReport::MotorsRebooted(true)
}

/// The report calls for starting the loop.
pub open spec fn prompts_start(report: StartupReport) -> bool {
    report matches StartupReport::InitialStateRead(true) || report is NoServoBus
}

/// The lowest of seven voltages.
pub fn lowest_voltage(volts: &[u8; 7]) -> (m: u8)
    ensures
        is_lowest(m, volts@),
{
    let mut m = volts[0];
    let mut i: usize = 1;
    assert(volts@.take(1)[0] == m);
    while i < 7
        invariant
            1 <= i <= 7,
            volts@.len() == 7,
            volts@.take(i as int).contains(m),
            forall|k: int| 0 <= k < i ==> m <= #[trigger] volts@[k],
        decreases 7 - i,
    {
        if volts[i] < m {
            m = volts[i];
            assert(volts@.take(i + 1)[i as int] == m);
        } else {
            proof {
                let j = choose|j: int| 0 <= j < i && volts@.take(i as int)[j] == m;
                assert(volts@.take(i + 1)[j] == m);
            }
        }
        i = i + 1;
    }
    assert(volts@.take(7) =~= volts@);
    m
}

/// Whether every voltage has reached `MIN_VOLTAGE_TENTHS`.
pub fn all_voltages_stable(volts: &[u8; 7]) -> (stable: bool)
    ensures
        stable == voltages_stable(volts@),
        stable <==> forall|k: int| 0 <= k < 7 ==> #[trigger] volts@[k] >= 110,
{
    let mut i: usize = 0;
    while i < 7
        invariant
            i <= 7,
            volts@.len() == 7,
            forall|k: int| 0 <= k < i ==> #[trigger] volts@[k] >= MIN_VOLTAGE_TENTHS,
        decreases 7 - i,
    {
        if volts[i] < MIN_VOLTAGE_TENTHS {
            return false;
        }
        i = i + 1;
    }
    true
}

/// The next thing to do, from what the last action showed. `timeout` is the
/// time allowed for the 12 V rail; it is reported back when the rail never
/// became stable.
///
/// - Missing servos stop the start: all seven missing means no power, fewer
///   are named; a failed check is a communication error.
/// - Voltages are read again, after a pause, until all are stable or the
///   time runs out; then the lowest voltage seen is reported.
/// - A failed reboot or first reading is a communication error.
/// - Without a servo bus the loop starts at once, for the neck alone.
pub fn startup_next(report: StartupReport, timeout: Wait) -> (action: StartupAction)
    ensures
        (action is ReadVoltages || action is WaitThenReadVoltages) <==> prompts_voltage_read(
            report,
        ),
        action is ReadVoltages <==> (report matches StartupReport::MotorsPinged(Some(missing))
            && missing@.len() == 0),
        action is RebootMotors <==> prompts_reboot(report),
        action is RebootMotors <==> (report matches StartupReport::VoltagesRead(Some(volts), _)
            && forall|k: int| 0 <= k < 7 ==> #[trigger] volts@[k] >= 110),
        action is ReadInitialState <==> prompts_initial_read(report),
        action is StartLoop <==> prompts_start(report),
        !(action is PingMotors),
        match report {
            StartupReport::MotorsPinged(None) => action matches StartupAction::Abort(
                MotorError::CommunicationError(),
            ),
            StartupReport::MotorsPinged(Some(missing)) => if missing@.len() == 7 {
                action matches StartupAction::Abort(MotorError::NoPowerError())
            } else if missing@.len() != 0 {
                action matches StartupAction::Abort(MotorError::MissingMotors(names)) && texts(
                    names@,
                ) == labels(missing@)
            } else {
                true
            },
            StartupReport::VoltagesRead(None, _) => action matches StartupAction::Abort(
                MotorError::CommunicationError(),
            ),
            StartupReport::VoltagesRead(Some(volts), timed_out) => (!voltages_stable(volts@)
                && timed_out) ==> (action matches StartupAction::Abort(
                MotorError::VoltageRampUpTimeoutError(lowest, waited),
            ) && is_lowest(lowest, volts@) && waited == timeout),
            StartupReport::MotorsRebooted(ok) => !ok ==> action matches StartupAction::Abort(
                MotorError::CommunicationError(),
            ),
            StartupReport::InitialStateRead(ok) => !ok ==> action matches StartupAction::Abort(
                MotorError::CommunicationError(),
            ),
            StartupReport::NoServoBus => true,
        },
{
    match report {
        StartupReport::MotorsPinged(None) => StartupAction::Abort(MotorError::CommunicationError()),
        StartupReport::MotorsPinged(Some(missing)) => {
            match classify_missing_motors(&missing) {
                Ok(()) => StartupAction::ReadVoltages,
                Err(e) => StartupAction::Abort(e),
            }
        },
        StartupReport::VoltagesRead(None, _) => StartupAction::Abort(
            MotorError::CommunicationError(),
        ),
        StartupReport::VoltagesRead(Some(volts), timed_out) => {
            if all_voltages_stable(&volts) {
                StartupAction::RebootMotors
            } else if !timed_out {
                StartupAction::WaitThenReadVoltages
            } else {
                StartupAction::Abort(
                    MotorError::VoltageRampUpTimeoutError(lowest_voltage(&volts), timeout),
                )
            }
        },
        StartupReport::MotorsRebooted(ok) => {
            if ok {
                StartupAction::ReadInitialState
            } else {
                StartupAction::Abort(MotorError::CommunicationError())
            }
        },
        StartupReport::InitialStateRead(ok) => {
            if ok {
                StartupAction::StartLoop
            } else {
                StartupAction::Abort(MotorError::CommunicationError())
            }
        },
        StartupReport::NoServoBus => StartupAction::StartLoop,
    }
}

/// One servo below 11.0 V is enough to hold the start back: a voltage
/// reading with any of the seven servos (arms or nose) below 110 tenths never
/// leads to the reboot; before the time runs out it leads to another reading,
/// after it to the time-out error, which reports a voltage at most that low.
pub proof fn lemma_low_voltage_blocks_reboot(report: StartupReport, k: int)
    requires
        report matches StartupReport::VoltagesRead(Some(volts), _) && 0 <= k < 7 && volts@[k]
            < 110,
    ensures
        !prompts_reboot(report),
        report matches StartupReport::VoltagesRead(_, false) ==> prompts_voltage_read(report),
        report matches StartupReport::VoltagesRead(Some(volts), true) ==> forall|m: u8|
            is_lowest(m, volts@) ==> m <= volts@[k] && m < 110,
{
    if let StartupReport::VoltagesRead(Some(volts), _) = report {
        assert(volts@[k] < MIN_VOLTAGE_TENTHS);
        assert(!voltages_stable(volts@));
    }
}

/// Every servo answered the ping.
pub open spec fn all_motors_answered(report: StartupReport) -> bool {
    report matches StartupReport::MotorsPinged(Some(missing)) && missing@.len() == 0
}

/// `report` is what the action called for by `previous` can show.
pub open spec fn answers(previous: StartupReport, report: StartupReport) -> bool {
    match report {
        StartupReport::MotorsPinged(_) => false,
        StartupReport::VoltagesRead(_, _) => prompts_voltage_read(previous),
        StartupReport::MotorsRebooted(_) => prompts_reboot(previous),
        StartupReport::InitialStateRead(_) => prompts_initial_read(previous),
        StartupReport::NoServoBus => false,
    }
}

/// The reports of a start: the first one is the ping's (or says there is no
/// servo bus to ping), and each later one shows the action that the report
/// before it called for.
pub open spec fn is_startup_run(reports: Seq<StartupReport>) -> bool {
    &&& reports.len() > 0
    &&& (reports[0] is MotorsPinged || reports[0] is NoServoBus)
    &&& forall|k: int| 1 <= k < reports.len() ==> answers(reports[k - 1], #[trigger] reports[k])
}

proof fn lemma_voltage_reads_follow_full_ping(reports: Seq<StartupReport>, k: int)
    requires
        is_startup_run(reports),
        0 <= k < reports.len(),
        prompts_voltage_read(reports[k]),
    ensures
        exists|i: int| 0 <= i <= k && #[trigger] all_motors_answered(reports[i]),
    decreases k,
{
    if all_motors_answered(reports[k]) {
    } else {
        assert(reports[k] is VoltagesRead);
        assert(k >= 1);
        assert(answers(reports[k - 1], reports[k]));
        lemma_voltage_reads_follow_full_ping(reports, k - 1);
    }
}

/// With a servo bus, the control loop starts only after every servo
/// answered the ping, the supply voltage of every servo reached
/// `MIN_VOLTAGE_TENTHS`, and every servo answered again after the reboot.
pub proof fn lemma_loop_starts_only_when_ready(reports: Seq<StartupReport>)
    requires
        is_startup_run(reports),
        prompts_start(reports.last()),
        !(reports.last() is NoServoBus),
    ensures
        exists|i: int| 0 <= i < reports.len() && #[trigger] all_motors_answered(reports[i]),
        exists|j: int| 0 <= j < reports.len() && #[trigger] prompts_reboot(reports[j]),
        exists|r: int| 0 <= r < reports.len() && #[trigger] prompts_initial_read(reports[r]),
{
    let n = reports.len() - 1;
    assert(n >= 1);
    assert(answers(reports[n - 1], reports[n]));
    assert(prompts_initial_read(reports[n - 1]));
    assert(n - 1 >= 1);
    assert(answers(reports[n - 2], reports[n - 1]));
    assert(prompts_reboot(reports[n - 2]));
    assert(n - 2 >= 1);
    assert(answers(reports[n - 3], reports[n - 2]));
    lemma_voltage_reads_follow_full_ping(reports, n - 3);
}

/// Without a servo bus the loop starts straight away, with no bus work at
/// all; "no servo bus" is only ever the first report.
pub proof fn lemma_neck_only_start(reports: Seq<StartupReport>)
    requires
        is_startup_run(reports),
    ensures
        forall|k: int| 0 < k < reports.len() ==> !(#[trigger] reports[k] is NoServoBus),
        reports[0] is NoServoBus ==> reports.len() == 1,
{
    assert forall|k: int| 0 < k < reports.len() implies !(#[trigger] reports[k] is NoServoBus) by {
        assert(answers(reports[k - 1], reports[k]));
    }
    if reports[0] is NoServoBus && reports.len() > 1 {
        assert(answers(reports[0], reports[1]));
    }
}

} // verus!
