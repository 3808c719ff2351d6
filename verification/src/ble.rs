//! BLE-side decisions: the link state machine that the BLE driver runs.
//!
//! The driver owns the radio, the timers and the channels. It hands each
//! event (a command, a notification, a timer tick, the outcome of a connect
//! attempt) to [`BleLink`] together with the current monotonic time in
//! milliseconds, and carries out the [`Step`]s it gets back in order.
//! Executing a plan of steps means: a failed [`Step::Write`] ends the plan
//! with that error; a failed [`Step::TryWrite`] is ignored; at
//! [`Step::RequireLink`] a lost link ends the plan after reporting the
//! attached update; [`Step::ArmBoost`] is handed back to
//! [`BleLink::arm_boost`] with the time it is reached.

use vstd::prelude::*;
use vstd::string::StringExecFns;

use crate::config::MotorConfig;
use crate::mqtt::spec_elapsed;
use crate::protocol::buffer::{is_frame, spec_extract, MessageBuffer};
use crate::protocol::commands::{
    battery_request, horn_command, lemma_outgoing_frames_well_formed, led_color_command, motor_command, sound_packet,
    spec_battery_request, spec_horn_command, spec_led_color_command, spec_motor_command,
    spec_sound_packet, spec_speedometer_subscribe, speedometer_subscribe,
};
use crate::protocol::messages::{
    parse_message, spec_parse_message, DeviceType, IoEvent, ParsedMessage, ParsedMessageView,
};
use crate::protocol::{
    MANUFACTURER_ID, PORT_MOTOR, PORT_MULTI, PORT_SPEAKER, SERVICE_UUID, SUBCMD_HORN, SUBCMD_LED,
};
use crate::types::{
    Command, CommandExecuted, ConnectionState, StatusUpdate, TrainCommand, TrainState,
};

verus! {

/// Disconnect after this long without a command (saves train battery).
pub const IDLE_DISCONNECT_MS: u64 = 300_000;

/// Keep-alive ping interval while connected.
pub const PING_INTERVAL_MS: u64 = 10_000;

/// How often the idle timeout is checked.
pub const IDLE_CHECK_INTERVAL_MS: u64 = 60_000;

/// How long a scan for the train may take.
pub const SCAN_TIMEOUT_MS: u64 = 30_000;

/// Window within which connection attempts are counted together.
pub const ATTEMPT_WINDOW_MS: u64 = 10_000;

/// Highest connection attempt count reported.
pub const MAX_ATTEMPTS: u8 = 3;

/// Minimum speed change before the hub sends a new speedometer reading.
pub const SPEEDOMETER_DELTA_INTERVAL: u32 = 1;

/// The attempt number after `prev_attempts`, given how long ago the last
/// attempt was (`None`: no prior attempt): 1 when the window has expired or
/// there was none, otherwise one more, capped at [`MAX_ATTEMPTS`].
pub open spec fn spec_classify_attempt(prev_attempts: u8, last_elapsed_ms: Option<u128>) -> u8 {
    match last_elapsed_ms {
        Some(e) => if e < ATTEMPT_WINDOW_MS as u128 {
            if prev_attempts + 1 < MAX_ATTEMPTS {
                (prev_attempts + 1) as u8
            } else {
                MAX_ATTEMPTS
            }
        } else {
            1
        },
        None => 1,
    }
}

/// Compute the next attempt number from the previous count and how long ago
/// (in ms) the last attempt occurred. Returns 1 if the window has expired or
/// there was no prior attempt; otherwise increments and clamps to 3 (for
/// every previous count, 255 included).
pub fn classify_attempt(prev_attempts: u8, last_elapsed_ms: Option<u128>) -> (attempt: u8)
    ensures
        attempt == spec_classify_attempt(prev_attempts, last_elapsed_ms),
{
    match last_elapsed_ms {
        Some(elapsed) => {
            if elapsed < ATTEMPT_WINDOW_MS as u128 {
                if prev_attempts < MAX_ATTEMPTS - 1 {
                    prev_attempts + 1
                } else {
                    MAX_ATTEMPTS
                }
            } else {
                1
            }
        },
        None => 1,
    }
}

/// Delay before scanning on a given attempt: none on the first, 2 s on the
/// second, 8 s on the third and beyond.
pub open spec fn spec_connect_backoff_ms(attempts: u8) -> u64 {
    if attempts == 1 {
        0
    } else if attempts == 2 {
        2000
    } else {
        8000
    }
}

/// Exponential backoff before a scan, so the adapter is not hammered while
/// the train is out of range.
pub fn connect_backoff_ms(attempts: u8) -> (delay_ms: u64)
    ensures
        delay_ms == spec_connect_backoff_ms(attempts),
{
    match attempts {
        1 => 0,
        2 => 2000,
        _ => 8000,
    }
}

/// Time left for a scan that has run `elapsed_ms`, or `None` once the scan
/// timeout has passed.
pub fn scan_time_left_ms(elapsed_ms: u64) -> (left: Option<u64>)
    ensures
        elapsed_ms < SCAN_TIMEOUT_MS ==> left == Some((SCAN_TIMEOUT_MS - elapsed_ms) as u64),
        elapsed_ms >= SCAN_TIMEOUT_MS ==> left is None,
{
    if elapsed_ms < SCAN_TIMEOUT_MS {
        Some(SCAN_TIMEOUT_MS - elapsed_ms)
    } else {
        None
    }
}

/// Whether advertised properties identify a DUPLO train hub: the LEGO
/// manufacturer id or the hub service UUID.
pub fn is_duplo_train(manufacturer_ids: &[u16], service_uuids: &[u128]) -> (found: bool)
    ensures
        found == (manufacturer_ids@.contains(MANUFACTURER_ID) || service_uuids@.contains(
            SERVICE_UUID,
        )),
{
    let mut i: usize = 0;
    while i < manufacturer_ids.len()
        invariant
            i <= manufacturer_ids@.len(),
            forall|k: int| 0 <= k < i ==> manufacturer_ids@[k] != MANUFACTURER_ID,
        decreases manufacturer_ids@.len() - i,
    {
        if manufacturer_ids[i] == MANUFACTURER_ID {
            return true;
        }
        i = i + 1;
    }
    let mut j: usize = 0;
    while j < service_uuids.len()
        invariant
            j <= service_uuids@.len(),
            forall|k: int| 0 <= k < j ==> service_uuids@[k] != SERVICE_UUID,
            !manufacturer_ids@.contains(MANUFACTURER_ID),
        decreases service_uuids@.len() - j,
    {
        if service_uuids[j] == SERVICE_UUID {
            return true;
        }
        j = j + 1;
    }
    false
}

/// One thing the driver does on behalf of the link.
#[derive(Debug)]
pub enum Step {
    /// Write a frame; failure ends the plan.
    Write(Vec<u8>),
    /// Write a frame; failure is ignored.
    TryWrite(Vec<u8>),
    /// Send a status update to the MQTT side.
    Notify(StatusUpdate),
    /// Sleep this many milliseconds.
    Wait(u64),
    /// Check the link; if it is lost, send the update and end the plan.
    RequireLink(StatusUpdate),
    /// Arm (`Some(seconds)`) or disarm (`None`) the boost expiry timer.
    ArmBoost(Option<u64>),
}

/// Mathematical value of a [`Step`].
pub enum StepView {
    Write(Seq<u8>),
    TryWrite(Seq<u8>),
    Notify(StatusUpdate),
    Wait(u64),
    RequireLink(StatusUpdate),
    ArmBoost(Option<u64>),
}

impl View for Step {
    type V = StepView;

    open spec fn view(&self) -> StepView {
        match self {
            Step::Write(p) => StepView::Write(p@),
            Step::TryWrite(p) => StepView::TryWrite(p@),
            Step::Notify(u) => StepView::Notify(*u),
            Step::Wait(ms) => StepView::Wait(*ms),
            Step::RequireLink(u) => StepView::RequireLink(*u),
            Step::ArmBoost(d) => StepView::ArmBoost(*d),
        }
    }
}

/// The values of a sequence of steps.
pub open spec fn steps_view(steps: Seq<Step>) -> Seq<StepView> {
    steps.map_values(|s: Step| s@)
}

/// What a command does on a connected train, in order.
pub open spec fn spec_command_plan(cmd: Command, config: MotorConfig) -> Seq<StepView> {
    match cmd {
        Command::Train(TrainCommand::Forward) => seq![
            StepView::Write(spec_motor_command(config.forward)),
            StepView::Notify(StatusUpdate::Motor(config.forward)),
        ],
        Command::Train(TrainCommand::Boost) => seq![
            StepView::Write(spec_motor_command(config.boost)),
            StepView::Notify(StatusUpdate::Motor(config.boost)),
            StepView::ArmBoost(config.boost_duration),
        ],
        Command::Train(TrainCommand::Backward) => seq![
            StepView::Write(spec_motor_command(0)),
            StepView::TryWrite(spec_horn_command()),
            StepView::Wait(config.backward_delay),
            StepView::RequireLink(StatusUpdate::Motor(0)),
            StepView::Write(spec_motor_command(config.backward)),
            StepView::Notify(StatusUpdate::Motor(config.backward)),
        ],
        Command::Train(TrainCommand::Stop) => seq![
            StepView::Write(spec_motor_command(0)),
            StepView::Notify(StatusUpdate::Motor(0)),
        ],
        Command::Led(color) => seq![
            StepView::Write(spec_led_color_command(color.spec_code())),
            StepView::Notify(StatusUpdate::Led(color)),
        ],
        Command::Sound(sound) => seq![
            StepView::Write(spec_sound_packet(sound.spec_code())),
            StepView::Notify(StatusUpdate::Sound(sound)),
        ],
    }
}

/// Whether a command cancels a running boost timer before it executes.
pub open spec fn spec_cancels_boost(cmd: Command) -> bool {
    cmd == Command::Train(TrainCommand::Forward) || cmd == Command::Train(TrainCommand::Backward)
        || cmd == Command::Train(TrainCommand::Stop)
}

/// Steps after a successful connection, with the connected state stamped `ts`.
pub open spec fn spec_connected_steps(ts: u64) -> Seq<StepView> {
    seq![
        StepView::Notify(StatusUpdate::ConnectionState(ConnectionState::Connected)),
        StepView::Notify(StatusUpdate::Attempts(0)),
        StepView::Notify(StatusUpdate::State(TrainState::spec_connected(ts))),
        StepView::TryWrite(spec_battery_request()),
    ]
}

/// Steps after a failed connection attempt.
pub open spec fn spec_connect_failed_steps(error: String) -> Seq<StepView> {
    seq![
        StepView::Notify(StatusUpdate::Error(error)),
        StepView::Notify(StatusUpdate::ConnectionState(ConnectionState::Standby)),
    ]
}

/// Steps after a disconnect, with the standby state stamped `ts`.
pub open spec fn spec_disconnected_steps(ts: u64) -> Seq<StepView> {
    seq![
        StepView::Notify(StatusUpdate::ConnectionState(ConnectionState::Standby)),
        StepView::Notify(StatusUpdate::Attempts(0)),
        StepView::Notify(StatusUpdate::State(TrainState::spec_standby(ts))),
    ]
}

/// The boost deadline `seconds` after `now_ms` (saturating).
pub open spec fn spec_boost_deadline(now_ms: u64, seconds: u64) -> u64 {
    if now_ms as int + seconds as int * 1000 <= u64::MAX as int {
        (now_ms as int + seconds as int * 1000) as u64
    } else {
        u64::MAX
    }
}

/// Reaction to one parsed message, given the last accepted battery level and
/// the last speedometer reading: the new pair and what to do, if anything.
///
/// Battery readings count only while the train stands still (voltage drops
/// under load), must be a percentage, and are reported only when changed.
/// An attached speedometer is subscribed to; a reading is recorded and
/// reported.
pub open spec fn spec_react(battery: Option<u8>, speed: i16, msg: ParsedMessageView) -> (
    Option<u8>,
    i16,
    Option<StepView>,
) {
    match msg {
        ParsedMessageView::Battery(pct) => {
            if speed != 0 || pct > 100 || battery == Some(pct) {
                (battery, speed, None)
            } else {
                (Some(pct), speed, Some(StepView::Notify(StatusUpdate::Battery(pct))))
            }
        },
        ParsedMessageView::HubAttachedIo { port_id, event, device_type } => {
            if event != IoEvent::Detached && device_type == Some(
                DeviceType::DuploTrainSpeedometer,
            ) {
                (
                    battery,
                    speed,
                    Some(
                        StepView::TryWrite(
                            spec_speedometer_subscribe(port_id, SPEEDOMETER_DELTA_INTERVAL),
                        ),
                    ),
                )
            } else {
                (battery, speed, None)
            }
        },
        ParsedMessageView::Speedometer(s) => (
            battery,
            s,
            Some(StepView::Notify(StatusUpdate::Speed(s))),
        ),
        _ => (battery, speed, None),
    }
}

/// An optional step as a sequence of at most one step.
pub open spec fn opt_step(s: Option<StepView>) -> Seq<StepView> {
    match s {
        Some(v) => seq![v],
        None => Seq::empty(),
    }
}

/// Reactions to a sequence of frames in order: frames that do not parse are
/// skipped. Returns the final battery level, speed and the steps.
pub open spec fn spec_react_frames(battery: Option<u8>, speed: i16, frames: Seq<Seq<u8>>) -> (
    Option<u8>,
    i16,
    Seq<StepView>,
)
    decreases frames.len(),
{
    if frames.len() == 0 {
        (battery, speed, Seq::empty())
    } else {
        let first = match spec_parse_message(frames[0]) {
            Some(m) => spec_react(battery, speed, m),
            None => (battery, speed, None),
        };
        let rest = spec_react_frames(first.0, first.1, frames.drop_first());
        (rest.0, rest.1, opt_step(first.2) + rest.2)
    }
}

/// Abstract state of the link.
pub struct BleLinkView {
    pub state: ConnectionState,
    pub attempts: u8,
    pub last_attempt_ms: Option<u64>,
    pub last_command_ms: u64,
    pub last_ping_ms: u64,
    pub buffered: Seq<u8>,
    pub last_battery: Option<u8>,
    pub last_speed: i16,
    pub boost_expires_ms: Option<u64>,
}

/// The outcome of a command on the connected train, for the driver.
#[derive(Debug)]
pub struct CommandOutcome {
    /// Confirmation to publish: motor and horn commands only.
    pub executed: Option<CommandExecuted>,
    /// Status updates to send.
    pub reports: Vec<StatusUpdate>,
    /// Whether the driver must check the link and disconnect if it is lost.
    pub check_link: bool,
}

/// What a command asks of the driver.
#[derive(Debug)]
pub enum CommandStart {
    /// The train is not connected: send the updates, wait `backoff_ms`,
    /// scan and connect, and report the result to
    /// [`BleLink::finish_wake_up`]. The command itself is not executed.
    WakeUp { updates: Vec<StatusUpdate>, backoff_ms: u64 },
    /// Execute these steps and report the result to [`command_outcome`].
    Execute(Vec<Step>),
}

/// What a keep-alive tick asks of the driver.
#[derive(Debug)]
pub enum PingAction {
    /// Nothing to do.
    Idle,
    /// The link is gone: disconnect and call [`BleLink::handle_disconnect`].
    Disconnect,
    /// Write this keep-alive frame; if the write fails and the link is gone,
    /// disconnect and call [`BleLink::handle_disconnect`].
    KeepAlive(Vec<u8>),
}

/// Plain state of the BLE side: connection state, attempt accounting,
/// timers (as monotonic milliseconds), reassembly buffer and last readings.
#[derive(Debug)]
pub struct BleLink {
    connection_state: ConnectionState,
    attempts: u8,
    last_attempt_ms: Option<u64>,
    last_command_ms: u64,
    last_ping_ms: u64,
    message_buffer: MessageBuffer,
    last_battery: Option<u8>,
    last_speed: i16,
    boost_expires_ms: Option<u64>,
}

impl View for BleLink {
    type V = BleLinkView;

    closed spec fn view(&self) -> BleLinkView {
        BleLinkView {
            state: self.connection_state,
            attempts: self.attempts,
            last_attempt_ms: self.last_attempt_ms,
            last_command_ms: self.last_command_ms,
            last_ping_ms: self.last_ping_ms,
            buffered: self.message_buffer@,
            last_battery: self.last_battery,
            last_speed: self.last_speed,
            boost_expires_ms: self.boost_expires_ms,
        }
    }
}

/// The outcome the driver reports for a command: a confirmation for motor
/// and horn commands on success; on failure the error is reported and the
/// link must be checked.
pub fn command_outcome(cmd: Command, result: Result<(), String>) -> (outcome: CommandOutcome)
    ensures
        match result {
            Ok(()) => {
                &&& outcome.reports@.len() == 0
                &&& !outcome.check_link
                &&& match cmd {
                    Command::Train(t) => outcome.executed matches Some(e) && e.cmd == t,
                    _ => outcome.executed is None,
                }
            },
            Err(e) => {
                &&& outcome.reports@ == seq![StatusUpdate::Error(e)]
                &&& outcome.check_link
                &&& outcome.executed is None
            },
        },
{
    match result {
        Ok(()) => {
            let executed = match cmd {
                Command::Train(t) => Some(CommandExecuted { cmd: t }),
                _ => None,
            };
            CommandOutcome { executed, reports: Vec::new(), check_link: false }
        },
        Err(e) => {
            let mut reports: Vec<StatusUpdate> = Vec::new();
            reports.push(StatusUpdate::Error(e));
            assert(reports@ =~= seq![StatusUpdate::Error(e)]);
            CommandOutcome { executed: None, reports, check_link: true }
        },
    }
}

/// The message reported when the link is lost at a [`Step::RequireLink`].
pub fn link_lost_error() -> (message: String)
    ensures
        message@ == "Connection lost during backward sequence"@,
{
    String::from_str("Connection lost during backward sequence")
}

fn elapsed_ms(now_ms: u64, earlier_ms: u64) -> (e: u64)
    ensures
        e == spec_elapsed(now_ms, earlier_ms),
{
    if now_ms >= earlier_ms {
        now_ms - earlier_ms
    } else {
        0
    }
}

/// The plan of a command on a connected train.
fn command_plan(cmd: Command, config: &MotorConfig) -> (steps: Vec<Step>)
    ensures
        steps_view(steps@) == spec_command_plan(cmd, *config),
{
    let mut steps: Vec<Step> = Vec::new();
    match cmd {
        Command::Train(TrainCommand::Forward) => {
            steps.push(Step::Write(motor_command(config.forward)));
            steps.push(Step::Notify(StatusUpdate::Motor(config.forward)));
        },
        Command::Train(TrainCommand::Boost) => {
            steps.push(Step::Write(motor_command(config.boost)));
            steps.push(Step::Notify(StatusUpdate::Motor(config.boost)));
            steps.push(Step::ArmBoost(config.boost_duration));
        },
        Command::Train(TrainCommand::Backward) => {
            steps.push(Step::Write(motor_command(0)));
            steps.push(Step::TryWrite(horn_command()));
            steps.push(Step::Wait(config.backward_delay));
            steps.push(Step::RequireLink(StatusUpdate::Motor(0)));
            steps.push(Step::Write(motor_command(config.backward)));
            steps.push(Step::Notify(StatusUpdate::Motor(config.backward)));
        },
        Command::Train(TrainCommand::Stop) => {
            steps.push(Step::Write(motor_command(0)));
            steps.push(Step::Notify(StatusUpdate::Motor(0)));
        },
        Command::Led(color) => {
            steps.push(Step::Write(led_color_command(color.into())));
            steps.push(Step::Notify(StatusUpdate::Led(color)));
        },
        Command::Sound(sound) => {
            steps.push(Step::Write(sound_packet(sound.into())));
            steps.push(Step::Notify(StatusUpdate::Sound(sound)));
        },
    }
    assert(steps_view(steps@) =~= spec_command_plan(cmd, *config));
    steps
}

/// Reaction to one parsed message; see [`spec_react`].
fn react(battery: Option<u8>, speed: i16, msg: ParsedMessage) -> (res: (Option<u8>, i16, Option<Step>))
    ensures
        (res.0, res.1, match res.2 {
            Some(s) => Some(s@),
            None => None,
        }) == spec_react(battery, speed, msg@),
{
    match msg {
        ParsedMessage::Battery(pct) => {
            if speed != 0 || pct > 100 {
                (battery, speed, None)
            } else {
                match battery {
                    Some(b) => {
                        if b == pct {
                            (battery, speed, None)
                        } else {
                            (Some(pct), speed, Some(Step::Notify(StatusUpdate::Battery(pct))))
                        }
                    },
                    None => (Some(pct), speed, Some(Step::Notify(StatusUpdate::Battery(pct)))),
                }
            }
        },
        ParsedMessage::HubAttachedIo { port_id, event, device_type } => {
            let attached = match event {
                IoEvent::Detached => false,
                _ => true,
            };
            let is_speedometer = match device_type {
                Some(DeviceType::DuploTrainSpeedometer) => true,
                _ => false,
            };
            if attached && is_speedometer {
                (
                    battery,
                    speed,
                    Some(Step::TryWrite(speedometer_subscribe(port_id, SPEEDOMETER_DELTA_INTERVAL))),
                )
            } else {
                (battery, speed, None)
            }
        },
        ParsedMessage::Speedometer(s) => (battery, s, Some(Step::Notify(StatusUpdate::Speed(s)))),
        _ => (battery, speed, None),
    }
}

impl BleLink {
    #[verifier::type_invariant]
    closed spec fn inv(self) -> bool {
        &&& self.attempts <= MAX_ATTEMPTS
        &&& battery_bounded(self.last_battery)
    }

    /// A link in standby with no history; timers start at `now_ms`.
    pub fn new(now_ms: u64) -> (link: Self)
        ensures
            link@ == (BleLinkView {
                state: ConnectionState::Standby,
                attempts: 0,
                last_attempt_ms: None,
                last_command_ms: now_ms,
                last_ping_ms: now_ms,
                buffered: Seq::empty(),
                last_battery: None,
                last_speed: 0,
                boost_expires_ms: None,
            }),
    {
        BleLink {
            connection_state: ConnectionState::Standby,
            attempts: 0,
            last_attempt_ms: None,
            last_command_ms: now_ms,
            last_ping_ms: now_ms,
            message_buffer: MessageBuffer::new(),
            last_battery: None,
            last_speed: 0,
            boost_expires_ms: None,
        }
    }

    /// The connection state.
    pub fn connection_state(&self) -> (state: ConnectionState)
        ensures
            state == self@.state,
    {
        self.connection_state
    }

    /// The current connection attempt count.
    pub fn attempts(&self) -> (attempts: u8)
        ensures
            attempts == self@.attempts,
            attempts <= MAX_ATTEMPTS,
    {
        proof {
            use_type_invariant(self);
        }
        self.attempts
    }

    /// When the boost timer expires, if it is armed.
    pub fn boost_deadline_ms(&self) -> (deadline: Option<u64>)
        ensures
            deadline == self@.boost_expires_ms,
    {
        self.boost_expires_ms
    }

    /// Handle an incoming command at `now_ms`.
    ///
    /// When the train is not connected the command only wakes it up: the
    /// attempt is counted, the link becomes `Connecting`, and the driver is
    /// asked to scan. Otherwise the command's plan is returned; forward,
    /// backward and stop cancel a running boost timer first.
    pub fn begin_command(&mut self, cmd: Command, config: &MotorConfig, now_ms: u64) -> (start:
        CommandStart)
        ensures
            final(self)@.last_command_ms == now_ms,
            final(self)@.last_ping_ms == old(self)@.last_ping_ms,
            final(self)@.buffered == old(self)@.buffered,
            final(self)@.last_battery == old(self)@.last_battery,
            final(self)@.last_speed == old(self)@.last_speed,
            old(self)@.state != ConnectionState::Connected ==> {
                let n = spec_classify_attempt(
                    old(self)@.attempts,
                    match old(self)@.last_attempt_ms {
                        Some(t) => Some(spec_elapsed(now_ms, t) as u128),
                        None => None,
                    },
                );
                &&& final(self)@.attempts == n
                &&& final(self)@.last_attempt_ms == Some(now_ms)
                &&& final(self)@.state == ConnectionState::Connecting
                &&& final(self)@.boost_expires_ms == old(self)@.boost_expires_ms
                &&& start matches CommandStart::WakeUp { updates, backoff_ms } && updates@ == seq![
                    StatusUpdate::ConnectionState(ConnectionState::Connecting),
                    StatusUpdate::Attempts(n),
                ] && backoff_ms == spec_connect_backoff_ms(n)
            },
            old(self)@.state == ConnectionState::Connected ==> {
                &&& final(self)@.state == old(self)@.state
                &&& final(self)@.attempts == old(self)@.attempts
                &&& final(self)@.last_attempt_ms == old(self)@.last_attempt_ms
                &&& final(self)@.boost_expires_ms == (if spec_cancels_boost(cmd) {
                    None
                } else {
                    old(self)@.boost_expires_ms
                })
                &&& start matches CommandStart::Execute(steps) && steps_view(steps@)
                    == spec_command_plan(cmd, *config)
            },
    {
        proof {
            use_type_invariant(&*self);
        }
        self.last_command_ms = now_ms;
        match self.connection_state {
            ConnectionState::Connected => {
                match cmd {
                    Command::Train(TrainCommand::Forward) | Command::Train(TrainCommand::Backward)
                    | Command::Train(TrainCommand::Stop) => {
                        self.boost_expires_ms = None;
                    },
                    _ => {},
                }
                CommandStart::Execute(command_plan(cmd, config))
            },
            _ => {
                let since_last = match self.last_attempt_ms {
                    Some(t) => Some(elapsed_ms(now_ms, t) as u128),
                    None => None,
                };
                let n = classify_attempt(self.attempts, since_last);
                self.attempts = n;
                self.last_attempt_ms = Some(now_ms);
                self.connection_state = ConnectionState::Connecting;
                let mut updates: Vec<StatusUpdate> = Vec::new();
                updates.push(StatusUpdate::ConnectionState(ConnectionState::Connecting));
                updates.push(StatusUpdate::Attempts(n));
                assert(updates@ =~= seq![
                    StatusUpdate::ConnectionState(ConnectionState::Connecting),
                    StatusUpdate::Attempts(n),
                ]);
                CommandStart::WakeUp { updates, backoff_ms: connect_backoff_ms(n) }
            },
        }
    }

    /// Record the outcome of a scan-and-connect at `now_ms`.
    ///
    /// On success the link is connected, the attempt count is reset and the
    /// keep-alive and idle timers restart; the connected state is published
    /// and a battery reading requested. On failure the link falls back to
    /// standby, keeping the attempt count for feedback.
    pub fn finish_wake_up(&mut self, result: Result<(), String>, now_ms: u64) -> (steps: Vec<Step>)
        ensures
            final(self)@.buffered == old(self)@.buffered,
            final(self)@.last_battery == old(self)@.last_battery,
            final(self)@.last_speed == old(self)@.last_speed,
            final(self)@.boost_expires_ms == old(self)@.boost_expires_ms,
            match result {
                Ok(()) => {
                    &&& final(self)@.state == ConnectionState::Connected
                    &&& final(self)@.attempts == 0
                    &&& final(self)@.last_attempt_ms is None
                    &&& final(self)@.last_command_ms == now_ms
                    &&& final(self)@.last_ping_ms == now_ms
                    &&& exists|ts: u64| steps_view(steps@) == spec_connected_steps(ts)
                },
                Err(e) => {
                    &&& final(self)@.state == ConnectionState::Standby
                    &&& final(self)@.attempts == old(self)@.attempts
                    &&& final(self)@.last_attempt_ms == old(self)@.last_attempt_ms
                    &&& final(self)@.last_command_ms == old(self)@.last_command_ms
                    &&& final(self)@.last_ping_ms == old(self)@.last_ping_ms
                    &&& steps_view(steps@) == spec_connect_failed_steps(e)
                },
            },
            forall|published: TrainState, now: u64|
                #[trigger] published_after(published, steps_view(steps@), now).status
                    == final(self)@.state,
    {
        proof {
            use_type_invariant(&*self);
        }
        let mut steps: Vec<Step> = Vec::new();
        match result {
            Ok(()) => {
                self.connection_state = ConnectionState::Connected;
                self.attempts = 0;
                self.last_attempt_ms = None;
                self.last_command_ms = now_ms;
                self.last_ping_ms = now_ms;
                let state = TrainState::connected();
                let ghost ts = state.ts;
                steps.push(Step::Notify(StatusUpdate::ConnectionState(ConnectionState::Connected)));
                steps.push(Step::Notify(StatusUpdate::Attempts(0)));
                steps.push(Step::Notify(StatusUpdate::State(state)));
                steps.push(Step::TryWrite(battery_request()));
                assert(steps_view(steps@) =~= spec_connected_steps(ts));
            },
            Err(e) => {
                self.connection_state = ConnectionState::Standby;
                steps.push(Step::Notify(StatusUpdate::Error(e)));
                steps.push(Step::Notify(StatusUpdate::ConnectionState(ConnectionState::Standby)));
                assert(steps_view(steps@) =~= spec_connect_failed_steps(e));
            },
        }
        proof {
            assert forall|published: TrainState, now: u64|
                #[trigger] published_after(published, steps_view(steps@), now).status
                    == self@.state by {
                match result {
                    Ok(()) => {
                        let ts = choose|ts: u64| steps_view(steps@) == spec_connected_steps(ts);
                        lemma_transitions_publish_link_state(published, now, ts, arbitrary());
                    },
                    Err(e) => {
                        lemma_transitions_publish_link_state(published, now, 0, e);
                    },
                }
            }
        }
        steps
    }

    /// Arm the boost timer `seconds` after `now_ms`, or disarm it (`None`).
    pub fn arm_boost(&mut self, seconds: Option<u64>, now_ms: u64)
        ensures
            final(self)@ == (BleLinkView {
                boost_expires_ms: match seconds {
                    Some(s) => Some(spec_boost_deadline(now_ms, s)),
                    None => None,
                },
                ..old(self)@
            }),
    {
        proof {
            use_type_invariant(&*self);
        }
        self.boost_expires_ms = match seconds {
            Some(s) => {
                if s <= (u64::MAX - now_ms) / 1000 {
                    Some(now_ms + s * 1000)
                } else {
                    Some(u64::MAX)
                }
            },
            None => None,
        };
    }

    /// The boost timer fired: disarm it and, when connected, revert to the
    /// forward speed.
    pub fn boost_expired(&mut self, config: &MotorConfig) -> (steps: Vec<Step>)
        ensures
            final(self)@ == (BleLinkView { boost_expires_ms: None, ..old(self)@ }),
            old(self)@.state == ConnectionState::Connected ==> steps_view(steps@) == seq![
                StepView::Write(spec_motor_command(config.forward)),
                StepView::Notify(StatusUpdate::Motor(config.forward)),
            ],
            old(self)@.state != ConnectionState::Connected ==> steps@.len() == 0,
    {
        proof {
            use_type_invariant(&*self);
        }
        self.boost_expires_ms = None;
        let mut steps: Vec<Step> = Vec::new();
        if self.connection_state == ConnectionState::Connected {
            steps.push(Step::Write(motor_command(config.forward)));
            steps.push(Step::Notify(StatusUpdate::Motor(config.forward)));
            assert(steps_view(steps@) =~= seq![
                StepView::Write(spec_motor_command(config.forward)),
                StepView::Notify(StatusUpdate::Motor(config.forward)),
            ]);
        }
        steps
    }

    /// Keep-alive tick at `now_ms`; `link_alive` is whether the radio link
    /// is still up. While connected, a lost link asks for a disconnect;
    /// otherwise a battery request is sent once the ping interval has
    /// passed since the last one.
    pub fn ping_tick(&mut self, now_ms: u64, link_alive: bool) -> (action: PingAction)
        ensures
            old(self)@.state != ConnectionState::Connected ==> action is Idle && *final(self)
                == *old(self),
            old(self)@.state == ConnectionState::Connected && !link_alive ==> action is Disconnect
                && *final(self) == *old(self),
            old(self)@.state == ConnectionState::Connected && link_alive ==> if spec_elapsed(
                now_ms,
                old(self)@.last_ping_ms,
            ) > PING_INTERVAL_MS {
                action matches PingAction::KeepAlive(p) && p@ == spec_battery_request()
                    && final(self)@ == (BleLinkView { last_ping_ms: now_ms, ..old(self)@ })
            } else {
                action is Idle && *final(self) == *old(self)
            },
    {
        proof {
            use_type_invariant(&*self);
        }
        if self.connection_state != ConnectionState::Connected {
            return PingAction::Idle;
        }
        if !link_alive {
            return PingAction::Disconnect;
        }
        if elapsed_ms(now_ms, self.last_ping_ms) > PING_INTERVAL_MS {
            self.last_ping_ms = now_ms;
            PingAction::KeepAlive(battery_request())
        } else {
            PingAction::Idle
        }
    }

    /// Whether the link has been idle too long at `now_ms` and should be
    /// disconnected to save the train's battery.
    pub fn idle_timed_out(&self, now_ms: u64) -> (timed_out: bool)
        ensures
            timed_out == (self@.state == ConnectionState::Connected && spec_elapsed(
                now_ms,
                self@.last_command_ms,
            ) > IDLE_DISCONNECT_MS),
    {
        self.connection_state == ConnectionState::Connected && elapsed_ms(
            now_ms,
            self.last_command_ms,
        ) > IDLE_DISCONNECT_MS
    }

    /// The driver has disconnected (or lost) the train: back to standby with
    /// the attempt count reset, the reassembly buffer cleared and the boost
    /// timer disarmed. The standby state is published.
    pub fn handle_disconnect(&mut self) -> (steps: Vec<Step>)
        ensures
            final(self)@ == (BleLinkView {
                state: ConnectionState::Standby,
                attempts: 0,
                last_attempt_ms: None,
                buffered: Seq::empty(),
                boost_expires_ms: None,
                ..old(self)@
            }),
            exists|ts: u64| steps_view(steps@) == spec_disconnected_steps(ts),
            forall|published: TrainState, now: u64|
                {
                    let after = #[trigger] published_after(published, steps_view(steps@), now);
                    &&& after.status == final(self)@.state
                    &&& after.motor is None
                    &&& after.speed is None
                    &&& after.attempts == final(self)@.attempts
                },
    {
        proof {
            use_type_invariant(&*self);
        }
        self.connection_state = ConnectionState::Standby;
        self.attempts = 0;
        self.last_attempt_ms = None;
        let mut buffer = MessageBuffer::new();
        std::mem::swap(&mut buffer, &mut self.message_buffer);
        buffer.clear();
        self.message_buffer = buffer;
        self.boost_expires_ms = None;
        let state = TrainState::standby();
        let ghost ts = state.ts;
        let mut steps: Vec<Step> = Vec::new();
        steps.push(Step::Notify(StatusUpdate::ConnectionState(ConnectionState::Standby)));
        steps.push(Step::Notify(StatusUpdate::Attempts(0)));
        steps.push(Step::Notify(StatusUpdate::State(state)));
        assert(steps_view(steps@) =~= spec_disconnected_steps(ts));
        proof {
            assert forall|published: TrainState, now: u64|
                {
                    let after = #[trigger] published_after(published, steps_view(steps@), now);
                    &&& after.status == self@.state
                    &&& after.motor is None
                    &&& after.speed is None
                    &&& after.attempts == self@.attempts
                } by {
                lemma_transitions_publish_link_state(published, now, ts, arbitrary());
            }
        }
        steps
    }

    /// Handle a BLE notification: reassemble frames, parse them, and react
    /// to each in order (see [`spec_react`]).
    pub fn handle_notification(&mut self, data: &[u8]) -> (steps: Vec<Step>)
        ensures
            ({
                let (frames, rest) = spec_extract(old(self)@.buffered + data@);
                let (battery, speed, out) = spec_react_frames(
                    old(self)@.last_battery,
                    old(self)@.last_speed,
                    frames,
                );
                &&& final(self)@ == (BleLinkView {
                    buffered: rest,
                    last_battery: battery,
                    last_speed: speed,
                    ..old(self)@
                })
                &&& steps_view(steps@) == out
            }),
            battery_bounded(final(self)@.last_battery),
            battery_reports_bounded(steps_view(steps@)),
            writes_frames(steps_view(steps@)),
    {
        proof {
            use_type_invariant(&*self);
        }
        let mut buffer = MessageBuffer::new();
        std::mem::swap(&mut buffer, &mut self.message_buffer);
        let frames = buffer.push(data);
        self.message_buffer = buffer;
        let ghost fs = spec_extract(old(self)@.buffered + data@).0;
        assert(crate::protocol::buffer::frames_view(frames@) == fs);
        let mut battery = self.last_battery;
        let mut speed = self.last_speed;
        let mut steps: Vec<Step> = Vec::new();
        let n = frames.len();
        let mut i: usize = 0;
        assert(fs.subrange(0, n as int) =~= fs);
        while i < n
            invariant
                n == frames@.len(),
                n == fs.len(),
                i <= n,
                forall|k: int| 0 <= k < n ==> #[trigger] frames@[k]@ == fs[k],
                ({
                    let total = spec_react_frames(
                        old(self)@.last_battery,
                        old(self)@.last_speed,
                        fs,
                    );
                    let tail = spec_react_frames(battery, speed, fs.subrange(i as int, n as int));
                    total == (tail.0, tail.1, steps_view(steps@) + tail.2)
                }),
            decreases n - i,
        {
            let ghost tail_before = fs.subrange(i as int, n as int);
            let ghost old_steps = steps@;
            let ghost b0 = battery;
            let ghost s0 = speed;
            assert(tail_before[0] == fs[i as int]);
            assert(tail_before.drop_first() =~= fs.subrange(i + 1, n as int));
            match parse_message(frames[i].as_slice()) {
                Some(msg) => {
                    let (b, s, step) = react(battery, speed, msg);
                    battery = b;
                    speed = s;
                    match step {
                        Some(st) => {
                            steps.push(st);
                        },
                        None => {},
                    }
                },
                None => {},
            }
            proof {
                let first = match spec_parse_message(fs[i as int]) {
                    Some(m) => spec_react(b0, s0, m),
                    None => (b0, s0, None),
                };
                assert(battery == first.0 && speed == first.1);
                assert(steps_view(steps@) =~= steps_view(old_steps) + opt_step(first.2));
                let rest = spec_react_frames(battery, speed, fs.subrange(i + 1, n as int));
                assert(steps_view(old_steps) + (opt_step(first.2) + rest.2) =~= steps_view(steps@)
                    + rest.2);
            }
            i = i + 1;
        }
        proof {
            lemma_react_frames_battery(old(self)@.last_battery, old(self)@.last_speed, fs);
            lemma_react_frames_writes(old(self)@.last_battery, old(self)@.last_speed, fs);
        }
        self.last_battery = battery;
        self.last_speed = speed;
        proof {
            assert(fs.subrange(n as int, n as int) =~= Seq::<Seq<u8>>::empty());
            assert(steps_view(steps@) + Seq::<StepView>::empty() =~= steps_view(steps@));
        }
        steps
    }
}


/// Every attempt number the classifier hands out lies in 1..=MAX_ATTEMPTS,
/// whatever the previous count and timing.
pub proof fn lemma_attempt_in_range(prev_attempts: u8, last_elapsed_ms: Option<u128>)
    ensures
        1 <= spec_classify_attempt(prev_attempts, last_elapsed_ms) <= MAX_ATTEMPTS,
{
}

/// Attempts inside the window count up by one until the cap; outside the
/// window (or with no prior attempt) counting restarts at one.
pub proof fn lemma_attempts_count_up(prev_attempts: u8, elapsed_ms: u128)
    ensures
        elapsed_ms < ATTEMPT_WINDOW_MS as u128 ==> spec_classify_attempt(
            prev_attempts,
            Some(elapsed_ms),
        ) as int == if prev_attempts < MAX_ATTEMPTS - 1 {
            prev_attempts as int + 1
        } else {
            MAX_ATTEMPTS as int
        },
        elapsed_ms >= ATTEMPT_WINDOW_MS as u128 ==> spec_classify_attempt(
            prev_attempts,
            Some(elapsed_ms),
        ) == 1,
        spec_classify_attempt(prev_attempts, None) == 1,
{
}

/// The backoff before a scan never shrinks as the attempt count grows, and
/// the first attempt scans at once.
pub proof fn lemma_backoff_monotonic(a: u8, b: u8)
    requires
        1 <= a <= b,
    ensures
        spec_connect_backoff_ms(a) <= spec_connect_backoff_ms(b),
        spec_connect_backoff_ms(1) == 0,
{
}

/// Whether every battery update among `steps` reports a percentage.
pub open spec fn battery_reports_bounded(steps: Seq<StepView>) -> bool {
    forall|k: int|
        0 <= k < steps.len() ==> (#[trigger] steps[k] matches StepView::Notify(
            StatusUpdate::Battery(p),
        ) ==> p <= 100)
}

/// Whether a remembered battery level is a percentage.
pub open spec fn battery_bounded(battery: Option<u8>) -> bool {
    battery matches Some(b) ==> b <= 100
}

/// Battery levels stay percentages through the reaction to any stream of
/// frames: the remembered level and every reported level are at most 100,
/// and a level is reported only while the train stands still.
pub proof fn lemma_react_frames_battery(battery: Option<u8>, speed: i16, frames: Seq<Seq<u8>>)
    requires
        battery_bounded(battery),
    ensures
        battery_bounded(spec_react_frames(battery, speed, frames).0),
        battery_reports_bounded(spec_react_frames(battery, speed, frames).2),
    decreases frames.len(),
{
    if frames.len() > 0 {
        let first = match spec_parse_message(frames[0]) {
            Some(m) => spec_react(battery, speed, m),
            None => (battery, speed, None),
        };
        lemma_react_frames_battery(first.0, first.1, frames.drop_first());
        let rest = spec_react_frames(first.0, first.1, frames.drop_first());
        let all = opt_step(first.2) + rest.2;
        assert forall|k: int| 0 <= k < all.len() implies (#[trigger] all[k] matches StepView::Notify(
            StatusUpdate::Battery(p),
        ) ==> p <= 100) by {
            if k >= opt_step(first.2).len() {
                assert(all[k] == rest.2[k - opt_step(first.2).len()]);
            }
        }
    }
}

/// Whether `s` writes `f` (required or best effort).
pub open spec fn writes(s: StepView, f: Seq<u8>) -> bool {
    s == StepView::Write(f) || s == StepView::TryWrite(f)
}

/// Whether every frame written by `steps` is a well-formed frame.
pub open spec fn writes_frames(steps: Seq<StepView>) -> bool {
    forall|k: int, f: Seq<u8>| 0 <= k < steps.len() && #[trigger] writes(steps[k], f) ==> is_frame(f)
}

/// Every frame a command plan writes to the hub is a well-formed frame.
pub proof fn lemma_command_plan_frames(cmd: Command, config: MotorConfig)
    ensures
        writes_frames(spec_command_plan(cmd, config)),
{
    let plan = spec_command_plan(cmd, config);
    assert forall|k: int, f: Seq<u8>| 0 <= k < plan.len() && #[trigger] writes(plan[k], f) implies is_frame(f) by {
        lemma_outgoing_frames_well_formed(config.forward, 0, 0, 0, 0);
        lemma_outgoing_frames_well_formed(config.boost, 0, 0, 0, 0);
        lemma_outgoing_frames_well_formed(config.backward, 0, 0, 0, 0);
        match cmd {
            Command::Led(c) => {
                lemma_outgoing_frames_well_formed(0, c.spec_code(), 0, 0, 0);
            },
            Command::Sound(snd) => {
                lemma_outgoing_frames_well_formed(0, 0, snd.spec_code(), 0, 0);
            },
            _ => {},
        }
    }
}

/// Every frame written in reaction to incoming frames (speedometer
/// subscriptions) is a well-formed frame.
pub proof fn lemma_react_frames_writes(battery: Option<u8>, speed: i16, frames: Seq<Seq<u8>>)
    ensures
        writes_frames(spec_react_frames(battery, speed, frames).2),
    decreases frames.len(),
{
    if frames.len() > 0 {
        let first = match spec_parse_message(frames[0]) {
            Some(m) => spec_react(battery, speed, m),
            None => (battery, speed, None),
        };
        lemma_react_frames_writes(first.0, first.1, frames.drop_first());
        let rest = spec_react_frames(first.0, first.1, frames.drop_first());
        let all = opt_step(first.2) + rest.2;
        assert forall|k: int, f: Seq<u8>| 0 <= k < all.len() && #[trigger] writes(all[k], f) implies is_frame(f) by {
            if k >= opt_step(first.2).len() {
                assert(all[k] == rest.2[k - opt_step(first.2).len()]);
            } else {
                match spec_parse_message(frames[0]) {
                    Some(ParsedMessageView::HubAttachedIo { port_id, .. }) => {
                        lemma_outgoing_frames_well_formed(0, 0, 0, port_id, SPEEDOMETER_DELTA_INTERVAL);
                    },
                    _ => {},
                }
            }
        }
    }
}


/// An attached speedometer is subscribed to: whenever the hub reports a
/// DUPLO train speedometer attached (physically or virtually) on port `p`,
/// the only reaction is one best-effort write of the speedometer
/// subscription for port `p` with a delta interval of 1; the battery and
/// speed readings are untouched. A detached device causes nothing.
pub proof fn lemma_speedometer_attach_subscribes(
    battery: Option<u8>,
    speed: i16,
    p: u8,
    event: IoEvent,
    device_type: Option<DeviceType>,
    frame: Seq<u8>,
)
    ensures
        event != IoEvent::Detached ==> spec_react(
            battery,
            speed,
            ParsedMessageView::HubAttachedIo {
                port_id: p,
                event,
                device_type: Some(DeviceType::DuploTrainSpeedometer),
            },
        ) == (battery, speed, Some(StepView::TryWrite(spec_speedometer_subscribe(p, 1)))),
        spec_react(
            battery,
            speed,
            ParsedMessageView::HubAttachedIo { port_id: p, event: IoEvent::Detached, device_type },
        ) == (battery, speed, None::<StepView>),
        spec_parse_message(frame) == Some(
            ParsedMessageView::HubAttachedIo {
                port_id: p,
                event,
                device_type: Some(DeviceType::DuploTrainSpeedometer),
            },
        ) && event != IoEvent::Detached ==> spec_react_frames(battery, speed, seq![frame]) == (
            battery,
            speed,
            seq![StepView::TryWrite(spec_speedometer_subscribe(p, 1))],
        ),
{
    if spec_parse_message(frame) == Some(
        ParsedMessageView::HubAttachedIo {
            port_id: p,
            event,
            device_type: Some(DeviceType::DuploTrainSpeedometer),
        },
    ) && event != IoEvent::Detached {
        reveal_with_fuel(spec_react_frames, 2);
        let fs = seq![frame];
        assert(fs[0] == frame);
        assert(fs.drop_first() =~= Seq::<Seq<u8>>::empty());
        assert(seq![StepView::TryWrite(spec_speedometer_subscribe(p, 1))] + Seq::<StepView>::empty()
            =~= seq![StepView::TryWrite(spec_speedometer_subscribe(p, 1))]);
    }
}

/// The speed a motor frame drives at is the one reported: in every command
/// plan, each motor-speed report is made right after writing the motor
/// frame for that very speed, and a train command ends by reporting its
/// target speed (stop 0, forward and boost and backward their configured
/// speeds). A stop plan writes no motor frame other than speed 0.
pub proof fn lemma_command_plan_reports_written_speed(cmd: Command, config: MotorConfig)
    ensures
        forall|k: int|
            0 <= k < spec_command_plan(cmd, config).len() ==> (#[trigger] spec_command_plan(
                cmd,
                config,
            )[k] matches StepView::Notify(StatusUpdate::Motor(m)) ==> k > 0 && spec_command_plan(
                cmd,
                config,
            )[k - 1] == StepView::Write(spec_motor_command(m))),
        cmd == Command::Train(TrainCommand::Stop) ==> spec_command_plan(cmd, config).last()
            == StepView::Notify(StatusUpdate::Motor(0)),
        cmd == Command::Train(TrainCommand::Forward) ==> spec_command_plan(cmd, config).last()
            == StepView::Notify(StatusUpdate::Motor(config.forward)),
        cmd == Command::Train(TrainCommand::Backward) ==> spec_command_plan(cmd, config).last()
            == StepView::Notify(StatusUpdate::Motor(config.backward)),
        cmd == Command::Train(TrainCommand::Boost) ==> spec_command_plan(cmd, config)[1]
            == StepView::Notify(StatusUpdate::Motor(config.boost)),
        forall|k: int|
            0 <= k < spec_command_plan(Command::Train(TrainCommand::Stop), config).len() ==> (
            #[trigger] spec_command_plan(Command::Train(TrainCommand::Stop), config)[k] matches StepView::Write(
                f,
            ) ==> f == spec_motor_command(0)),
{
    let plan = spec_command_plan(cmd, config);
    assert forall|k: int|
        0 <= k < plan.len() implies (#[trigger] plan[k] matches StepView::Notify(
            StatusUpdate::Motor(m),
        ) ==> k > 0 && plan[k - 1] == StepView::Write(spec_motor_command(m))) by {
    }
}

/// The state the MQTT side publishes after merging the status updates
/// among `steps` (in order) into `state`, each stamped `now`.
pub open spec fn published_after(state: TrainState, steps: Seq<StepView>, now: u64) -> TrainState
    decreases steps.len(),
{
    if steps.len() == 0 {
        state
    } else {
        let next = match steps[0] {
            StepView::Notify(u) => crate::mqtt::spec_merge_status(state, u, now),
            _ => state,
        };
        published_after(next, steps.drop_first(), now)
    }
}

/// The published connection status follows the link: whatever was
/// published before, merging the updates of a successful connection yields
/// `Connected` with no attempts pending; of a failed connection, `Standby`;
/// of a disconnect, `Standby` with no attempts and no motor or speed
/// reading. Battery, LED and last sound survive each of them.
pub proof fn lemma_transitions_publish_link_state(
    state: TrainState,
    now: u64,
    ts: u64,
    error: String,
)
    ensures
        published_after(state, spec_connected_steps(ts), now).status == ConnectionState::Connected,
        published_after(state, spec_connected_steps(ts), now).attempts == 0,
        published_after(state, spec_connect_failed_steps(error), now).status
            == ConnectionState::Standby,
        published_after(state, spec_disconnected_steps(ts), now).status
            == ConnectionState::Standby,
        published_after(state, spec_disconnected_steps(ts), now).attempts == 0,
        published_after(state, spec_disconnected_steps(ts), now).motor is None,
        published_after(state, spec_disconnected_steps(ts), now).speed is None,
        published_after(state, spec_disconnected_steps(ts), now).battery == state.battery,
        published_after(state, spec_disconnected_steps(ts), now).led == state.led,
        published_after(state, spec_disconnected_steps(ts), now).last_sound == state.last_sound,
        published_after(state, spec_connected_steps(ts), now).battery == state.battery,
{
    reveal_with_fuel(published_after, 5);
    let c = spec_connected_steps(ts);
    assert(c.drop_first().drop_first().drop_first().drop_first() =~= Seq::<StepView>::empty());
    assert(c.drop_first()[0] == c[1]);
    assert(c.drop_first().drop_first()[0] == c[2]);
    assert(c.drop_first().drop_first().drop_first()[0] == c[3]);
    let f = spec_connect_failed_steps(error);
    assert(f.drop_first().drop_first() =~= Seq::<StepView>::empty());
    assert(f.drop_first()[0] == f[1]);
    let d = spec_disconnected_steps(ts);
    assert(d.drop_first().drop_first().drop_first() =~= Seq::<StepView>::empty());
    assert(d.drop_first()[0] == d[1]);
    assert(d.drop_first().drop_first()[0] == d[2]);
}


/// Battery readings count only while the train stands still and only as a
/// percentage: while moving a reading is ignored; standing still, a new
/// level of at most 100 is remembered and reported once, and a repeat of
/// the remembered level is not reported again. A speedometer reading is
/// remembered as the current speed and reported.
pub proof fn lemma_battery_and_speed_reactions(battery: Option<u8>, speed: i16, pct: u8, v: i16)
    ensures
        speed != 0 ==> spec_react(battery, speed, ParsedMessageView::Battery(pct)) == (
            battery,
            speed,
            None::<StepView>,
        ),
        speed == 0 && pct <= 100 && battery != Some(pct) ==> spec_react(
            battery,
            speed,
            ParsedMessageView::Battery(pct),
        ) == (Some(pct), speed, Some(StepView::Notify(StatusUpdate::Battery(pct)))),
        pct > 100 ==> spec_react(battery, speed, ParsedMessageView::Battery(pct)).2 is None,
        spec_react(battery, speed, ParsedMessageView::Battery(pct)).1 == speed,
        spec_react(battery, speed, ParsedMessageView::Speedometer(v)) == (
            battery,
            v,
            Some(StepView::Notify(StatusUpdate::Speed(v))),
        ),
{
}

/// Each command drives the right hub output: motor commands write a motor
/// frame (port 0x32) whose speed byte is the commanded speed's
/// two's-complement byte, LED commands write a multi-port LED frame whose
/// value byte is the colour's code, sound commands write a speaker frame
/// (port 0x01) whose last byte is the sound's id; every plan reports what
/// it set. The backward plan first stops the motor and sounds the horn,
/// then waits the configured delay before reversing.
pub proof fn lemma_command_plan_targets(cmd: Command, config: MotorConfig)
    ensures
        ({
            let plan = spec_command_plan(cmd, config);
            match cmd {
                Command::Train(t) => {
                    let target: i8 = match t {
                        TrainCommand::Forward => config.forward,
                        TrainCommand::Boost => config.boost,
                        TrainCommand::Backward => config.backward,
                        TrainCommand::Stop => 0,
                    };
                    exists|k: int|
                        0 <= k && k + 1 < plan.len() && (#[trigger] plan[k] matches StepView::Write(f)
                            && f.len() == 8 && f[3] == PORT_MOTOR && f[7]
                            == crate::protocol::commands::i8_byte(target)) && plan[k + 1]
                            == StepView::Notify(StatusUpdate::Motor(target))
                },
                Command::Led(c) => plan[0] matches StepView::Write(f) && f.len() == 11 && f[3]
                    == PORT_MULTI && f[7] == SUBCMD_LED && f[9] == c.spec_code() && plan[1]
                    == StepView::Notify(StatusUpdate::Led(c)),
                Command::Sound(snd) => plan[0] matches StepView::Write(f) && f.len() == 8 && f[3]
                    == PORT_SPEAKER && f[7] == snd.spec_code() && plan[1] == StepView::Notify(
                    StatusUpdate::Sound(snd),
                ),
            }
        }),
        ({
            let plan = spec_command_plan(Command::Train(TrainCommand::Backward), config);
            &&& plan[0] matches StepView::Write(f) && f[3] == PORT_MOTOR && f[7] == 0
            &&& plan[1] matches StepView::TryWrite(h) && h[3] == PORT_MULTI && h[7] == SUBCMD_HORN
            &&& plan[2] == StepView::Wait(config.backward_delay)
            &&& plan[3] == StepView::RequireLink(StatusUpdate::Motor(0))
        }),
{
    let plan = spec_command_plan(cmd, config);
    match cmd {
        Command::Train(TrainCommand::Backward) => {
            assert(plan[4] matches StepView::Write(f) && f == spec_motor_command(config.backward));
        },
        Command::Train(_) => {
            assert(plan[0] matches StepView::Write(_));
        },
        _ => {},
    }
}

} // verus!
