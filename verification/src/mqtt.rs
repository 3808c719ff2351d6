//! MQTT-side decisions: topic layout, command routing, duplicate blocking
//! and the merging of status updates into the published train state.

use vstd::prelude::*;
use vstd::string::StringExecFns;
use vstd::utf8::{
    decode_utf8, encode_utf8, encode_utf8_decode_utf8, encode_utf8_valid_utf8, valid_utf8,
};

use crate::clock::current_timestamp;
use crate::config::MqttConfig;
use crate::text::str_equal;
use crate::types::{
    Command, ConnectionState, DuploSound, LedColor, StatusUpdate, TrainCommand, TrainState,
};

verus! {

/// Window within which a repeated non-repeatable command is dropped.
pub const DUPLICATE_WINDOW_MS: u64 = 2000;

/// Pause after a transient MQTT event-loop error before polling resumes.
pub const MQTT_ERROR_BACKOFF_MS: u64 = 5000;

/// MQTT keep-alive interval in seconds.
pub const MQTT_KEEP_ALIVE_SECS: u64 = 30;

/// MQTT quality of service "at least once".
pub const QOS_AT_LEAST_ONCE: u8 = 1;

/// How to open the broker connection: client identity, keep-alive,
/// credentials and the last will announcing the bridge offline.
#[derive(Debug)]
pub struct ConnectionPlan {
    pub client_id: String,
    pub host: String,
    pub port: u16,
    pub keep_alive_secs: u64,
    /// Username and password, sent only when both are configured.
    pub credentials: Option<(String, String)>,
    pub will_topic: String,
    pub will_payload: String,
    pub will_qos: u8,
    pub will_retain: bool,
}

/// What to do when the broker acknowledges a connection, in order:
/// publish the availability message, subscribe to `subscribe` (nothing when
/// already subscribed), then publish the current state.
#[derive(Debug)]
pub struct ConnAckPlan {
    pub availability_topic: String,
    pub availability_payload: String,
    pub availability_qos: u8,
    pub availability_retain: bool,
    pub subscribe: Vec<String>,
}

/// Runtime-constructed MQTT topics.
#[derive(Debug, Clone)]
pub struct Topics {
    pub cmd: String,
    pub led_set: String,
    pub sound_set: String,
    pub state: String,
    pub executed: String,
    pub availability: String,
}

/// Whether `t` holds the topics derived from `base`.
pub open spec fn topics_of(t: Topics, base: Seq<char>) -> bool {
    &&& t.cmd@ == base + "/cmd"@
    &&& t.led_set@ == base + "/led/set"@
    &&& t.sound_set@ == base + "/sound/set"@
    &&& t.state@ == base + "/state"@
    &&& t.executed@ == base + "/executed"@
    &&& t.availability@ == base + "/availability"@
}

/// The command an MQTT message carries: its payload text parsed according
/// to the topic it arrived on; `None` for other topics or unknown names.
pub open spec fn spec_route(topics: Topics, topic: Seq<char>, text: Seq<char>) -> Option<Command> {
    if topic == topics.cmd@ {
        match TrainCommand::spec_from_name(text) {
            Some(c) => Some(Command::Train(c)),
            None => None,
        }
    } else if topic == topics.led_set@ {
        match LedColor::spec_from_name(text) {
            Some(c) => Some(Command::Led(c)),
            None => None,
        }
    } else if topic == topics.sound_set@ {
        match DuploSound::spec_from_name(text) {
            Some(s) => Some(Command::Sound(s)),
            None => None,
        }
    } else {
        None
    }
}

/// Whether `c` has the Unicode `White_Space` property.
pub open spec fn is_white_space(c: char) -> bool {
    ||| '\u{0009}' <= c <= '\u{000D}'
    ||| c == ' '
    ||| c == '\u{0085}'
    ||| c == '\u{00A0}'
    ||| c == '\u{1680}'
    ||| '\u{2000}' <= c <= '\u{200A}'
    ||| c == '\u{2028}'
    ||| c == '\u{2029}'
    ||| c == '\u{202F}'
    ||| c == '\u{205F}'
    ||| c == '\u{3000}'
}

/// Whether `part` is `whole` with its leading and trailing white space
/// removed: `whole[i..j]`, where everything before `i` and from `j` on is
/// white space and a non-empty `part` starts and ends with other characters.
pub open spec fn is_trim_of(part: Seq<char>, whole: Seq<char>) -> bool {
    exists|i: int, j: int|
        {
            &&& 0 <= i <= j <= whole.len()
            &&& part == whole.subrange(i, j)
            &&& forall|k: int| 0 <= k < i ==> is_white_space(#[trigger] whole[k])
            &&& forall|k: int| j <= k < whole.len() ==> is_white_space(#[trigger] whole[k])
            &&& i < j ==> !is_white_space(whole[i]) && !is_white_space(whole[j - 1])
        }
}

/// The text of a payload as `String::from_utf8_lossy` decodes it.
pub uninterp spec fn spec_utf8_lossy(bytes: Seq<u8>) -> Seq<char>;

/// The text of an incoming payload: valid UTF-8 decodes exactly; anything
/// else as `String::from_utf8_lossy` decodes it.
pub open spec fn payload_text(bytes: Seq<u8>) -> Seq<char> {
    if valid_utf8(bytes) {
        decode_utf8(bytes)
    } else {
        spec_utf8_lossy(bytes)
    }
}

/// `s` without its leading white space.
pub open spec fn trim_start(s: Seq<char>) -> Seq<char>
    decreases s.len(),
{
    if s.len() > 0 && is_white_space(s[0]) {
        trim_start(s.drop_first())
    } else {
        s
    }
}

/// `s` without its trailing white space.
pub open spec fn trim_end(s: Seq<char>) -> Seq<char>
    decreases s.len(),
{
    if s.len() > 0 && is_white_space(s.last()) {
        trim_end(s.drop_last())
    } else {
        s
    }
}

/// `s` without its leading and trailing white space.
pub open spec fn spec_trim(s: Seq<char>) -> Seq<char> {
    trim_end(trim_start(s))
}

/// Leading white space up to `i`, followed by a non-space (or the end).
proof fn lemma_trim_start_at(w: Seq<char>, i: int)
    requires
        0 <= i <= w.len(),
        forall|k: int| 0 <= k < i ==> is_white_space(#[trigger] w[k]),
        i < w.len() ==> !is_white_space(w[i]),
    ensures
        trim_start(w) == w.subrange(i, w.len() as int),
    decreases i,
{
    if i == 0 {
        assert(w.subrange(0, w.len() as int) =~= w);
    } else {
        let t = w.drop_first();
        assert(is_white_space(w[0]));
        assert forall|k: int| 0 <= k < i - 1 implies is_white_space(#[trigger] t[k]) by {
            assert(t[k] == w[k + 1]);
        }
        if i - 1 < t.len() {
            assert(t[i - 1] == w[i]);
        }
        lemma_trim_start_at(t, i - 1);
        assert(t.subrange(i - 1, t.len() as int) =~= w.subrange(i, w.len() as int));
    }
}

/// Trailing white space from `j` on, preceded by a non-space (or the start).
proof fn lemma_trim_end_at(w: Seq<char>, j: int)
    requires
        0 <= j <= w.len(),
        forall|k: int| j <= k < w.len() ==> is_white_space(#[trigger] w[k]),
        j > 0 ==> !is_white_space(w[j - 1]),
    ensures
        trim_end(w) == w.subrange(0, j),
    decreases w.len() - j,
{
    if j == w.len() {
        assert(w.subrange(0, j) =~= w);
    } else {
        let t = w.drop_last();
        assert(is_white_space(w[w.len() - 1]));
        assert forall|k: int| j <= k < t.len() implies is_white_space(#[trigger] t[k]) by {
            assert(t[k] == w[k]);
        }
        if j > 0 {
            assert(t[j - 1] == w[j - 1]);
        }
        lemma_trim_end_at(t, j);
        assert(t.subrange(0, j) =~= w.subrange(0, j));
    }
}

/// What `str::trim` is documented to return is exactly [`spec_trim`].
pub proof fn lemma_trim_of_is_spec_trim(part: Seq<char>, whole: Seq<char>)
    requires
        is_trim_of(part, whole),
    ensures
        part == spec_trim(whole),
{
    let (i, j) = choose|i: int, j: int|
        {
            &&& 0 <= i <= j <= whole.len()
            &&& part == whole.subrange(i, j)
            &&& forall|k: int| 0 <= k < i ==> is_white_space(#[trigger] whole[k])
            &&& forall|k: int| j <= k < whole.len() ==> is_white_space(#[trigger] whole[k])
            &&& i < j ==> !is_white_space(whole[i]) && !is_white_space(whole[j - 1])
        };
    if i == j {
        let n = whole.len() as int;
        assert forall|k: int| 0 <= k < n implies is_white_space(#[trigger] whole[k]) by {
            if k >= j {
            }
        }
        lemma_trim_start_at(whole, n);
        let e = whole.subrange(n, n);
        assert(e.len() == 0);
        assert(trim_end(e) == e);
        assert(part =~= e);
    } else {
        lemma_trim_start_at(whole, i);
        let v = whole.subrange(i, whole.len() as int);
        assert forall|k: int| j - i <= k < v.len() implies is_white_space(#[trigger] v[k]) by {
            assert(v[k] == whole[k + i]);
        }
        assert(v[j - i - 1] == whole[j - 1]);
        lemma_trim_end_at(v, j - i);
        assert(v.subrange(0, j - i) =~= part);
    }
}

/// Calls `String::from_utf8_lossy` (then takes ownership of the result).
/// Stated: the result is named by the bytes alone, and valid UTF-8 decodes
/// to its characters. Not stated: which replacement characters invalid
/// sequences produce.
#[verifier::external_body]
fn utf8_lossy(bytes: &[u8]) -> (text: String)
    ensures
        text@ == spec_utf8_lossy(bytes@),
        valid_utf8(bytes@) ==> text@ == decode_utf8(bytes@),
{
    String::from_utf8_lossy(bytes).into_owned()
}

/// Calls `str::trim`: the text with leading and trailing white space (the
/// Unicode `White_Space` property) removed.
#[verifier::external_body]
fn trim(text: &str) -> (trimmed: &str)
    ensures
        is_trim_of(trimmed@, text@),
{
    text.trim()
}

/// The connection plan for `config`: identity and address as configured,
/// the keep-alive interval, credentials exactly when both username and
/// password are set, and a retained at-least-once last will `offline` on
/// `<base>/availability`.
pub fn connection_plan(config: &MqttConfig) -> (plan: ConnectionPlan)
    ensures
        plan.client_id@ == config.client_id@,
        plan.host@ == config.host@,
        plan.port == config.port,
        plan.keep_alive_secs == MQTT_KEEP_ALIVE_SECS,
        match (config.username, config.password) {
            (Some(u), Some(p)) => plan.credentials matches Some((pu, pp)) && pu@ == u@ && pp@
                == p@,
            _ => plan.credentials is None,
        },
        plan.will_topic@ == config.base_topic@ + "/availability"@,
        plan.will_payload@ == "offline"@,
        plan.will_qos == QOS_AT_LEAST_ONCE,
        plan.will_retain,
{
    let credentials = match (&config.username, &config.password) {
        (Some(u), Some(p)) => Some((u.clone(), p.clone())),
        _ => None,
    };
    ConnectionPlan {
        client_id: config.client_id.clone(),
        host: config.host.clone(),
        port: config.port,
        keep_alive_secs: MQTT_KEEP_ALIVE_SECS,
        credentials,
        will_topic: String::from_str(config.base_topic.as_str()).concat("/availability"),
        will_payload: String::from_str("offline"),
        will_qos: QOS_AT_LEAST_ONCE,
        will_retain: true,
    }
}

impl Topics {
    /// Topics derived from `base_topic`.
    pub fn new(base_topic: &str) -> (topics: Self)
        ensures
            topics_of(topics, base_topic@),
    {
        Topics {
            cmd: String::from_str(base_topic).concat("/cmd"),
            led_set: String::from_str(base_topic).concat("/led/set"),
            sound_set: String::from_str(base_topic).concat("/sound/set"),
            state: String::from_str(base_topic).concat("/state"),
            executed: String::from_str(base_topic).concat("/executed"),
            availability: String::from_str(base_topic).concat("/availability"),
        }
    }

    /// The command carried by already decoded payload text on `topic`.
    pub fn route_text(&self, topic: &str, text: &str) -> (command: Option<Command>)
        ensures
            command == spec_route(*self, topic@, text@),
    {
        if str_equal(topic, self.cmd.as_str()) {
            match TrainCommand::from_name(text) {
                Some(c) => Some(Command::Train(c)),
                None => None,
            }
        } else if str_equal(topic, self.led_set.as_str()) {
            match LedColor::from_name(text) {
                Some(c) => Some(Command::Led(c)),
                None => None,
            }
        } else if str_equal(topic, self.sound_set.as_str()) {
            match DuploSound::from_name(text) {
                Some(s) => Some(Command::Sound(s)),
                None => None,
            }
        } else {
            None
        }
    }

    /// Route an incoming MQTT publish to a typed command based on its topic:
    /// the payload is decoded leniently as UTF-8 and trimmed, then parsed.
    pub fn route_publish(&self, topic: &str, payload: &[u8]) -> (command: Option<Command>)
        ensures
            command == spec_route(*self, topic@, spec_trim(payload_text(payload@))),
    {
        let decoded = utf8_lossy(payload);
        let text = trim(decoded.as_str());
        proof {
            lemma_trim_of_is_spec_trim(text@, decoded@);
        }
        self.route_text(topic, text)
    }

    /// The topics to subscribe to: commands, LED colour and sound.
    pub fn command_topics(&self) -> (topics: Vec<String>)
        ensures
            topics@.len() == 3,
            topics@[0]@ == self.cmd@,
            topics@[1]@ == self.led_set@,
            topics@[2]@ == self.sound_set@,
    {
        let mut topics: Vec<String> = Vec::with_capacity(3);
        topics.push(self.cmd.clone());
        topics.push(self.led_set.clone());
        topics.push(self.sound_set.clone());
        topics
    }
}

/// Whether `cmd` repeats `last_cmd` within the duplicate window and is not
/// a command that may repeat (forward, boost).
pub open spec fn spec_blocked_duplicate(
    cmd: TrainCommand,
    last_cmd: Option<TrainCommand>,
    last_elapsed_ms: u128,
) -> bool {
    &&& !(cmd == TrainCommand::Forward || cmd == TrainCommand::Boost)
    &&& last_cmd == Some(cmd)
    &&& last_elapsed_ms < DUPLICATE_WINDOW_MS as u128
}

/// Decide whether `cmd` should be dropped because it repeats `last_cmd`
/// within the dedup window; `last_elapsed_ms` is the time since `last_cmd`
/// was accepted, in milliseconds.
pub fn is_blocked_duplicate(
    cmd: TrainCommand,
    last_cmd: Option<TrainCommand>,
    last_elapsed_ms: u128,
) -> (blocked: bool)
    ensures
        blocked == spec_blocked_duplicate(cmd, last_cmd, last_elapsed_ms),
{
    if cmd.allows_repeat() {
        return false;
    }
    match last_cmd {
        Some(last) => last == cmd && last_elapsed_ms < DUPLICATE_WINDOW_MS as u128,
        None => false,
    }
}

/// The published state after `update`, where `now` stamps every update but
/// a full state (which carries its own stamp).
pub open spec fn spec_merge_status(state: TrainState, update: StatusUpdate, now: u64) -> TrainState {
    match update {
        StatusUpdate::State(new) => TrainState::spec_apply(state, new),
        StatusUpdate::Battery(pct) => TrainState { battery: Some(pct), ts: now, ..state },
        StatusUpdate::Motor(speed) => TrainState { motor: Some(speed), ts: now, ..state },
        StatusUpdate::Speed(speed) => TrainState { speed: Some(speed), ts: now, ..state },
        StatusUpdate::Led(color) => TrainState { led: Some(color), ts: now, ..state },
        StatusUpdate::Sound(sound) => TrainState { last_sound: Some(sound), ts: now, ..state },
        StatusUpdate::ConnectionState(cs) => {
            if cs == ConnectionState::Standby {
                TrainState { status: cs, motor: None, speed: None, ts: now, ..state }
            } else {
                TrainState { status: cs, ts: now, ..state }
            }
        },
        StatusUpdate::Attempts(n) => TrainState { attempts: n, ts: now, ..state },
        StatusUpdate::Error(_) => TrainState { ts: now, ..state },
    }
}

/// Merge a status update into `state`, stamping it with `now`.
pub fn merge_status_update(state: &mut TrainState, update: StatusUpdate, now: u64)
    ensures
        *final(state) == spec_merge_status(*old(state), update, now),
{
    match update {
        StatusUpdate::State(new) => {
            state.apply(new);
        },
        StatusUpdate::Battery(pct) => {
            state.battery = Some(pct);
            state.ts = now;
        },
        StatusUpdate::Motor(speed) => {
            state.motor = Some(speed);
            state.ts = now;
        },
        StatusUpdate::Speed(speed) => {
            state.speed = Some(speed);
            state.ts = now;
        },
        StatusUpdate::Led(color) => {
            state.led = Some(color);
            state.ts = now;
        },
        StatusUpdate::Sound(sound) => {
            state.last_sound = Some(sound);
            state.ts = now;
        },
        StatusUpdate::ConnectionState(cs) => {
            state.status = cs;
            if cs == ConnectionState::Standby {
                state.motor = None;
                state.speed = None;
            }
            state.ts = now;
        },
        StatusUpdate::Attempts(n) => {
            state.attempts = n;
            state.ts = now;
        },
        StatusUpdate::Error(_) => {
            state.ts = now;
        },
    }
}

/// Milliseconds from `earlier` to `now` on a monotonic clock (0 if `now`
/// reads earlier).
pub open spec fn spec_elapsed(now: u64, earlier: u64) -> u64 {
    if now >= earlier {
        (now - earlier) as u64
    } else {
        0
    }
}

/// Decisions of the MQTT side: the published state and the command history
/// used for duplicate blocking.
#[derive(Debug)]
pub struct MqttSession {
    pub topics: Topics,
    pub current_state: TrainState,
    pub last_cmd: Option<TrainCommand>,
    /// Monotonic time (ms) at which `last_cmd` was accepted.
    pub last_cmd_ms: u64,
    /// Whether the command topics are subscribed on the current connection.
    pub subscribed: bool,
}

impl MqttSession {
    /// Session for `base_topic`: standby state, no command history, not
    /// subscribed.
    pub fn new(base_topic: &str, now_ms: u64) -> (session: Self)
        ensures
            topics_of(session.topics, base_topic@),
            session.current_state == TrainState::spec_standby(session.current_state.ts),
            session.last_cmd is None,
            session.last_cmd_ms == now_ms,
            !session.subscribed,
    {
        MqttSession {
            topics: Topics::new(base_topic),
            current_state: TrainState::standby(),
            last_cmd: None,
            last_cmd_ms: now_ms,
            subscribed: false,
        }
    }

    /// Handle an incoming publish: the command to forward to the BLE side,
    /// or `None` when the message carries no command or is a blocked
    /// duplicate. An accepted train command becomes the last command.
    pub fn accept_publish(&mut self, topic: &str, payload: &[u8], now_ms: u64) -> (command: Option<
        Command,
    >)
        ensures
            ({
                let routed = spec_route(
                    old(self).topics,
                    topic@,
                    spec_trim(payload_text(payload@)),
                );
                match routed {
                    Some(Command::Train(t)) => if spec_blocked_duplicate(
                        t,
                        old(self).last_cmd,
                        spec_elapsed(now_ms, old(self).last_cmd_ms) as u128,
                    ) {
                        command is None && *final(self) == *old(self)
                    } else {
                        command == routed && final(self).last_cmd == Some(t)
                            && final(self).last_cmd_ms == now_ms && final(self).topics
                            == old(self).topics && final(self).current_state
                            == old(self).current_state && final(self).subscribed
                            == old(self).subscribed
                    },
                    _ => command == routed && *final(self) == *old(self),
                }
            }),
    {
        let routed = self.topics.route_publish(topic, payload);
        match routed {
            Some(Command::Train(t)) => {
                let elapsed: u64 = if now_ms >= self.last_cmd_ms {
                    now_ms - self.last_cmd_ms
                } else {
                    0
                };
                if is_blocked_duplicate(t, self.last_cmd, elapsed as u128) {
                    None
                } else {
                    self.last_cmd = Some(t);
                    self.last_cmd_ms = now_ms;
                    routed
                }
            },
            _ => routed,
        }
    }

    /// Merge a status update from the BLE side into the published state,
    /// stamping it with the current time.
    pub fn handle_status_update(&mut self, update: StatusUpdate)
        ensures
            final(self).current_state == spec_merge_status(
                old(self).current_state,
                update,
                final(self).current_state.ts,
            ),
            final(self).topics == old(self).topics,
            final(self).last_cmd == old(self).last_cmd,
            final(self).last_cmd_ms == old(self).last_cmd_ms,
            final(self).subscribed == old(self).subscribed,
    {
        let now = current_timestamp();
        merge_status_update(&mut self.current_state, update, now);
    }

    /// Whether the command topics still need subscribing after a connection
    /// acknowledgement.
    pub fn needs_subscribe(&self) -> (needed: bool)
        ensures
            needed == !self.subscribed,
    {
        !self.subscribed
    }

    /// What to do on a connection acknowledgement: publish `online`,
    /// retained and at least once, on the availability topic; subscribe to
    /// the command topics unless already subscribed; then publish the state.
    pub fn connack_plan(&self) -> (plan: ConnAckPlan)
        ensures
            plan.availability_topic@ == self.topics.availability@,
            plan.availability_payload@ == "online"@,
            plan.availability_qos == QOS_AT_LEAST_ONCE,
            plan.availability_retain,
            self.subscribed ==> plan.subscribe@.len() == 0,
            !self.subscribed ==> {
                &&& plan.subscribe@.len() == 3
                &&& plan.subscribe@[0]@ == self.topics.cmd@
                &&& plan.subscribe@[1]@ == self.topics.led_set@
                &&& plan.subscribe@[2]@ == self.topics.sound_set@
            },
    {
        let subscribe = if self.subscribed {
            Vec::new()
        } else {
            self.topics.command_topics()
        };
        ConnAckPlan {
            availability_topic: self.topics.availability.clone(),
            availability_payload: String::from_str("online"),
            availability_qos: QOS_AT_LEAST_ONCE,
            availability_retain: true,
            subscribe,
        }
    }

    /// Record that the command topics are subscribed.
    pub fn mark_subscribed(&mut self)
        ensures
            *final(self) == (MqttSession { subscribed: true, ..*old(self) }),
    {
        self.subscribed = true;
    }

    /// Record a transient event-loop error: subscriptions must be renewed on
    /// the next connection. Returns how long to pause polling, in ms.
    pub fn connection_error(&mut self) -> (pause_ms: u64)
        ensures
            *final(self) == (MqttSession { subscribed: false, ..*old(self) }),
            pause_ms == MQTT_ERROR_BACKOFF_MS,
    {
        self.subscribed = false;
        MQTT_ERROR_BACKOFF_MS
    }
}

/// The six topics derived from one base are pairwise distinct, so a
/// message is routed by its topic without ambiguity.
pub proof fn lemma_topics_distinct(t: Topics, base: Seq<char>)
    requires
        topics_of(t, base),
    ensures
        t.cmd@ != t.led_set@,
        t.cmd@ != t.sound_set@,
        t.cmd@ != t.state@,
        t.cmd@ != t.executed@,
        t.cmd@ != t.availability@,
        t.led_set@ != t.sound_set@,
        t.led_set@ != t.state@,
        t.led_set@ != t.executed@,
        t.led_set@ != t.availability@,
        t.sound_set@ != t.state@,
        t.sound_set@ != t.executed@,
        t.sound_set@ != t.availability@,
        t.state@ != t.executed@,
        t.state@ != t.availability@,
        t.executed@ != t.availability@,
{
    reveal_strlit("/cmd");
    reveal_strlit("/led/set");
    reveal_strlit("/sound/set");
    reveal_strlit("/state");
    reveal_strlit("/executed");
    reveal_strlit("/availability");
    assert(t.cmd@.len() == base.len() + 4);
    assert(t.led_set@.len() == base.len() + 8);
    assert(t.sound_set@.len() == base.len() + 10);
    assert(t.state@.len() == base.len() + 6);
    assert(t.executed@.len() == base.len() + 9);
    assert(t.availability@.len() == base.len() + 13);
}

/// The name of a command, colour or sound published on its own topic is
/// routed to exactly that command.
pub proof fn lemma_route_names(
    t: Topics,
    base: Seq<char>,
    cmd: TrainCommand,
    color: LedColor,
    sound: DuploSound,
)
    requires
        topics_of(t, base),
    ensures
        spec_route(t, t.cmd@, cmd.spec_name()) == Some(Command::Train(cmd)),
        spec_route(t, t.led_set@, color.spec_name()) == Some(Command::Led(color)),
        spec_route(t, t.sound_set@, sound.spec_name()) == Some(Command::Sound(sound)),
        spec_route(t, t.state@, cmd.spec_name()) is None,
{
    lemma_topics_distinct(t, base);
    crate::types::lemma_train_command_name_roundtrip(cmd);
    crate::types::lemma_led_color_name_roundtrip(color);
    crate::types::lemma_duplo_sound_name_roundtrip(sound);
}

/// A non-empty text that neither starts nor ends with white space is left
/// as it is by trimming.
proof fn lemma_trim_keeps(s: Seq<char>)
    requires
        s.len() > 0,
        !is_white_space(s[0]),
        !is_white_space(s.last()),
    ensures
        spec_trim(s) == s,
{
}

/// Every command, colour and sound name is a non-empty text with no white
/// space at either end.
proof fn lemma_names_untrimmed(cmd: TrainCommand, color: LedColor, sound: DuploSound)
    ensures
        spec_trim(cmd.spec_name()) == cmd.spec_name(),
        spec_trim(color.spec_name()) == color.spec_name(),
        spec_trim(sound.spec_name()) == sound.spec_name(),
{
    reveal_strlit("forward");
    reveal_strlit("boost");
    reveal_strlit("backward");
    reveal_strlit("stop");
    reveal_strlit("off");
    reveal_strlit("white");
    reveal_strlit("green");
    reveal_strlit("yellow");
    reveal_strlit("light_blue");
    reveal_strlit("dark_blue");
    reveal_strlit("purple");
    reveal_strlit("purple_pink");
    reveal_strlit("light_pink");
    reveal_strlit("red_pink");
    reveal_strlit("red");
    reveal_strlit("brake");
    reveal_strlit("station_departure");
    reveal_strlit("water_refill");
    reveal_strlit("horn");
    reveal_strlit("steam");
    lemma_trim_keeps(cmd.spec_name());
    lemma_trim_keeps(color.spec_name());
    lemma_trim_keeps(sound.spec_name());
}

/// A publish whose payload is the UTF-8 encoding of a command, colour or
/// sound name, on that kind's topic, is routed to exactly that command.
pub proof fn lemma_route_name_payloads(
    t: Topics,
    base: Seq<char>,
    cmd: TrainCommand,
    color: LedColor,
    sound: DuploSound,
)
    requires
        topics_of(t, base),
    ensures
        spec_route(t, t.cmd@, spec_trim(payload_text(encode_utf8(cmd.spec_name()))))
            == Some(Command::Train(cmd)),
        spec_route(t, t.led_set@, spec_trim(payload_text(encode_utf8(color.spec_name()))))
            == Some(Command::Led(color)),
        spec_route(t, t.sound_set@, spec_trim(payload_text(encode_utf8(sound.spec_name()))))
            == Some(Command::Sound(sound)),
{
    encode_utf8_valid_utf8(cmd.spec_name());
    encode_utf8_decode_utf8(cmd.spec_name());
    encode_utf8_valid_utf8(color.spec_name());
    encode_utf8_decode_utf8(color.spec_name());
    encode_utf8_valid_utf8(sound.spec_name());
    encode_utf8_decode_utf8(sound.spec_name());
    lemma_names_untrimmed(cmd, color, sound);
    lemma_route_names(t, base, cmd, color, sound);
}

/// Forward and boost are never blocked as duplicates, however soon they
/// repeat; any command is let through once the window has passed.
pub proof fn lemma_duplicate_blocking(
    cmd: TrainCommand,
    last_cmd: Option<TrainCommand>,
    last_elapsed_ms: u128,
)
    ensures
        !spec_blocked_duplicate(TrainCommand::Forward, last_cmd, last_elapsed_ms),
        !spec_blocked_duplicate(TrainCommand::Boost, last_cmd, last_elapsed_ms),
        last_elapsed_ms >= DUPLICATE_WINDOW_MS as u128 ==> !spec_blocked_duplicate(
            cmd,
            last_cmd,
            last_elapsed_ms,
        ),
        last_cmd != Some(cmd) ==> !spec_blocked_duplicate(cmd, last_cmd, last_elapsed_ms),
{
}

/// Battery, LED and last sound survive every status update except one that
/// sets that very field; in particular they survive disconnects and
/// reconnects.
pub proof fn lemma_persistent_fields_survive(state: TrainState, update: StatusUpdate, now: u64)
    ensures
        !(update is Battery) ==> spec_merge_status(state, update, now).battery == state.battery,
        !(update is Led) ==> spec_merge_status(state, update, now).led == state.led,
        !(update is Sound) ==> spec_merge_status(state, update, now).last_sound
            == state.last_sound,
{
}

/// Only connection reports move the published connection status: an update
/// other than a connection state or a full state leaves the status, the
/// attempt count (unless it is an attempt count) and the motor reading
/// (unless it is a motor reading) as they were. Each field update sets its
/// own field to the reported value. An error report is only logged: it
/// changes nothing but the time stamp.
pub proof fn lemma_updates_touch_only_their_field(
    state: TrainState,
    update: StatusUpdate,
    now: u64,
)
    ensures
        !(update is ConnectionState) && !(update is State) ==> spec_merge_status(
            state,
            update,
            now,
        ).status == state.status,
        !(update is ConnectionState) && !(update is State) && !(update is Attempts)
            ==> spec_merge_status(state, update, now).attempts == state.attempts,
        !(update is ConnectionState) && !(update is State) && !(update is Motor)
            ==> spec_merge_status(state, update, now).motor == state.motor,
        !(update is ConnectionState) && !(update is State) && !(update is Speed)
            ==> spec_merge_status(state, update, now).speed == state.speed,
        update matches StatusUpdate::Battery(p) ==> spec_merge_status(state, update, now).battery
            == Some(p),
        update matches StatusUpdate::Motor(m) ==> spec_merge_status(state, update, now).motor
            == Some(m),
        update matches StatusUpdate::Speed(v) ==> spec_merge_status(state, update, now).speed
            == Some(v),
        update matches StatusUpdate::Attempts(n) ==> spec_merge_status(state, update, now).attempts
            == n,
        update matches StatusUpdate::ConnectionState(c) ==> spec_merge_status(
            state,
            update,
            now,
        ).status == c,
        update is Error ==> spec_merge_status(state, update, now) == (TrainState {
            ts: now,
            ..state
        }),
{
}

/// Falling back to standby forgets the motor and speed readings.
pub proof fn lemma_standby_clears_motion(state: TrainState, now: u64)
    ensures
        spec_merge_status(state, StatusUpdate::ConnectionState(ConnectionState::Standby), now).motor
            is None,
        spec_merge_status(state, StatusUpdate::ConnectionState(ConnectionState::Standby), now).speed
            is None,
        spec_merge_status(
            state,
            StatusUpdate::ConnectionState(ConnectionState::Standby),
            now,
        ).status == ConnectionState::Standby,
{
}

} // verus!
