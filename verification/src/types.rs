//! Shared types for communication between the BLE and MQTT sides.

use vstd::prelude::*;
use vstd::string::StringExecFns;

use crate::clock::current_timestamp;
use crate::text::{ascii_lower, eq_ignore_ascii_case, str_eq_ignore_ascii_case};

verus! {

/// Error returned when a text names no variant.
#[derive(Debug, Clone, Copy, PartialEq, Eq, Structural)]
pub struct UnknownName;

/// High-level train commands from MQTT.
#[derive(Debug, Clone, Copy, PartialEq, Eq, Structural)]
pub enum TrainCommand {
    Forward,
    Boost,
    Backward,
    Stop,
}

impl TrainCommand {
    /// Lower-case name of the command.
    pub open spec fn spec_name(self) -> Seq<char> {
        match self {
            TrainCommand::Forward => "forward"@,
            TrainCommand::Boost => "boost"@,
            TrainCommand::Backward => "backward"@,
            TrainCommand::Stop => "stop"@,
        }
    }

    /// The command named by `text`, ignoring ASCII case.
    pub open spec fn spec_from_name(text: Seq<char>) -> Option<TrainCommand> {
        if eq_ignore_ascii_case(text, "forward"@) {
            Some(TrainCommand::Forward)
        } else if eq_ignore_ascii_case(text, "boost"@) {
            Some(TrainCommand::Boost)
        } else if eq_ignore_ascii_case(text, "backward"@) {
            Some(TrainCommand::Backward)
        } else if eq_ignore_ascii_case(text, "stop"@) {
            Some(TrainCommand::Stop)
        } else {
            None
        }
    }

    /// Returns true if this command should not be subject to duplicate blocking.
    pub fn allows_repeat(self) -> (allowed: bool)
        ensures
            allowed == (self == TrainCommand::Forward || self == TrainCommand::Boost),
    {
        match self {
            TrainCommand::Forward | TrainCommand::Boost => true,
            _ => false,
        }
    }

    /// Lower-case name of the command.
    pub fn as_str(&self) -> (name: &'static str)
        ensures
            name@ == self.spec_name(),
    {
        match self {
            TrainCommand::Forward => "forward",
            TrainCommand::Boost => "boost",
            TrainCommand::Backward => "backward",
            TrainCommand::Stop => "stop",
        }
    }

    /// Lower-case name of the command as an owned string.
    pub fn to_string(&self) -> (name: String)
        ensures
            name@ == self.spec_name(),
    {
        String::from_str(self.as_str())
    }

    /// Parse a command name, ignoring ASCII case.
    pub fn from_name(text: &str) -> (cmd: Option<TrainCommand>)
        ensures
            cmd == Self::spec_from_name(text@),
    {
        if str_eq_ignore_ascii_case(text, "forward") {
            Some(TrainCommand::Forward)
        } else if str_eq_ignore_ascii_case(text, "boost") {
            Some(TrainCommand::Boost)
        } else if str_eq_ignore_ascii_case(text, "backward") {
            Some(TrainCommand::Backward)
        } else if str_eq_ignore_ascii_case(text, "stop") {
            Some(TrainCommand::Stop)
        } else {
            None
        }
    }
}

impl std::str::FromStr for TrainCommand {
    type Err = UnknownName;

    fn from_str(text: &str) -> (parsed: Result<TrainCommand, UnknownName>)
        ensures
            parsed == match TrainCommand::spec_from_name(text@) {
                Some(v) => Ok(v),
                None => Err(UnknownName),
            },
    {
        match TrainCommand::from_name(text) {
            Some(cmd) => Ok(cmd),
            None => Err(UnknownName),
        }
    }
}

/// LED colour on the DUPLO train hub.
#[derive(Debug, Clone, Copy, PartialEq, Eq, Structural)]
pub enum LedColor {
    Off,
    White,
    Green,
    Yellow,
    LightBlue,
    DarkBlue,
    Purple,
    PurplePink,
    LightPink,
    RedPink,
    Red,
}

impl LedColor {
    /// Snake-case name of the colour.
    pub open spec fn spec_name(self) -> Seq<char> {
        match self {
            LedColor::Off => "off"@,
            LedColor::White => "white"@,
            LedColor::Green => "green"@,
            LedColor::Yellow => "yellow"@,
            LedColor::LightBlue => "light_blue"@,
            LedColor::DarkBlue => "dark_blue"@,
            LedColor::Purple => "purple"@,
            LedColor::PurplePink => "purple_pink"@,
            LedColor::LightPink => "light_pink"@,
            LedColor::RedPink => "red_pink"@,
            LedColor::Red => "red"@,
        }
    }

    /// Protocol colour code sent to the hub.
    pub open spec fn spec_code(self) -> u8 {
        match self {
            LedColor::Off => 0x00,
            LedColor::White => 0x01,
            LedColor::Green => 0x07,
            LedColor::Yellow => 0x08,
            LedColor::LightBlue => 0x09,
            LedColor::DarkBlue => 0x0F,
            LedColor::Purple => 0x0A,
            LedColor::PurplePink => 0x0E,
            LedColor::LightPink => 0x0B,
            LedColor::RedPink => 0x0D,
            LedColor::Red => 0x0C,
        }
    }

    /// The colour named by `text`, ignoring ASCII case.
    pub open spec fn spec_from_name(text: Seq<char>) -> Option<LedColor> {
        if eq_ignore_ascii_case(text, "off"@) {
            Some(LedColor::Off)
        } else if eq_ignore_ascii_case(text, "white"@) {
            Some(LedColor::White)
        } else if eq_ignore_ascii_case(text, "green"@) {
            Some(LedColor::Green)
        } else if eq_ignore_ascii_case(text, "yellow"@) {
            Some(LedColor::Yellow)
        } else if eq_ignore_ascii_case(text, "light_blue"@) {
            Some(LedColor::LightBlue)
        } else if eq_ignore_ascii_case(text, "dark_blue"@) {
            Some(LedColor::DarkBlue)
        } else if eq_ignore_ascii_case(text, "purple"@) {
            Some(LedColor::Purple)
        } else if eq_ignore_ascii_case(text, "purple_pink"@) {
            Some(LedColor::PurplePink)
        } else if eq_ignore_ascii_case(text, "light_pink"@) {
            Some(LedColor::LightPink)
        } else if eq_ignore_ascii_case(text, "red_pink"@) {
            Some(LedColor::RedPink)
        } else if eq_ignore_ascii_case(text, "red"@) {
            Some(LedColor::Red)
        } else {
            None
        }
    }

    /// Snake-case name of the colour.
    pub fn as_str(&self) -> (name: &'static str)
        ensures
            name@ == self.spec_name(),
    {
        match self {
            LedColor::Off => "off",
            LedColor::White => "white",
            LedColor::Green => "green",
            LedColor::Yellow => "yellow",
            LedColor::LightBlue => "light_blue",
            LedColor::DarkBlue => "dark_blue",
            LedColor::Purple => "purple",
            LedColor::PurplePink => "purple_pink",
            LedColor::LightPink => "light_pink",
            LedColor::RedPink => "red_pink",
            LedColor::Red => "red",
        }
    }

    /// Snake-case name of the colour as an owned string.
    pub fn to_string(&self) -> (name: String)
        ensures
            name@ == self.spec_name(),
    {
        String::from_str(self.as_str())
    }

    /// Parse a colour name, ignoring ASCII case.
    pub fn from_name(text: &str) -> (color: Option<LedColor>)
        ensures
            color == Self::spec_from_name(text@),
    {
        if str_eq_ignore_ascii_case(text, "off") {
            Some(LedColor::Off)
        } else if str_eq_ignore_ascii_case(text, "white") {
            Some(LedColor::White)
        } else if str_eq_ignore_ascii_case(text, "green") {
            Some(LedColor::Green)
        } else if str_eq_ignore_ascii_case(text, "yellow") {
            Some(LedColor::Yellow)
        } else if str_eq_ignore_ascii_case(text, "light_blue") {
            Some(LedColor::LightBlue)
        } else if str_eq_ignore_ascii_case(text, "dark_blue") {
            Some(LedColor::DarkBlue)
        } else if str_eq_ignore_ascii_case(text, "purple") {
            Some(LedColor::Purple)
        } else if str_eq_ignore_ascii_case(text, "purple_pink") {
            Some(LedColor::PurplePink)
        } else if str_eq_ignore_ascii_case(text, "light_pink") {
            Some(LedColor::LightPink)
        } else if str_eq_ignore_ascii_case(text, "red_pink") {
            Some(LedColor::RedPink)
        } else if str_eq_ignore_ascii_case(text, "red") {
            Some(LedColor::Red)
        } else {
            None
        }
    }
}

impl std::str::FromStr for LedColor {
    type Err = UnknownName;

    fn from_str(text: &str) -> (parsed: Result<LedColor, UnknownName>)
        ensures
            parsed == match LedColor::spec_from_name(text@) {
                Some(v) => Ok(v),
                None => Err(UnknownName),
            },
    {
        match LedColor::from_name(text) {
            Some(color) => Ok(color),
            None => Err(UnknownName),
        }
    }
}

impl From<LedColor> for u8 {
    fn from(color: LedColor) -> (code: u8) {
        match color {
            LedColor::Off => 0x00,
            LedColor::White => 0x01,
            LedColor::Green => 0x07,
            LedColor::Yellow => 0x08,
            LedColor::LightBlue => 0x09,
            LedColor::DarkBlue => 0x0F,
            LedColor::Purple => 0x0A,
            LedColor::PurplePink => 0x0E,
            LedColor::LightPink => 0x0B,
            LedColor::RedPink => 0x0D,
            LedColor::Red => 0x0C,
        }
    }
}

impl vstd::std_specs::convert::FromSpecImpl<LedColor> for u8 {
    open spec fn obeys_from_spec() -> bool {
        true
    }

    open spec fn from_spec(color: LedColor) -> u8 {
        color.spec_code()
    }
}

/// Pre-recorded sound on the DUPLO train hub speaker (port 0x01, mode 0x01).
///
/// Only these five sound ids exist in the train firmware.
#[derive(Debug, Clone, Copy, PartialEq, Eq, Structural)]
pub enum DuploSound {
    Brake,
    StationDeparture,
    WaterRefill,
    Horn,
    Steam,
}

impl DuploSound {
    /// Snake-case name of the sound.
    pub open spec fn spec_name(self) -> Seq<char> {
        match self {
            DuploSound::Brake => "brake"@,
            DuploSound::StationDeparture => "station_departure"@,
            DuploSound::WaterRefill => "water_refill"@,
            DuploSound::Horn => "horn"@,
            DuploSound::Steam => "steam"@,
        }
    }

    /// Firmware sound id.
    pub open spec fn spec_code(self) -> u8 {
        match self {
            DuploSound::Brake => 3,
            DuploSound::StationDeparture => 5,
            DuploSound::WaterRefill => 7,
            DuploSound::Horn => 9,
            DuploSound::Steam => 10,
        }
    }

    /// The sound named by `text`, ignoring ASCII case.
    pub open spec fn spec_from_name(text: Seq<char>) -> Option<DuploSound> {
        if eq_ignore_ascii_case(text, "brake"@) {
            Some(DuploSound::Brake)
        } else if eq_ignore_ascii_case(text, "station_departure"@) {
            Some(DuploSound::StationDeparture)
        } else if eq_ignore_ascii_case(text, "water_refill"@) {
            Some(DuploSound::WaterRefill)
        } else if eq_ignore_ascii_case(text, "horn"@) {
            Some(DuploSound::Horn)
        } else if eq_ignore_ascii_case(text, "steam"@) {
            Some(DuploSound::Steam)
        } else {
            None
        }
    }

    /// Snake-case name of the sound.
    pub fn as_str(&self) -> (name: &'static str)
        ensures
            name@ == self.spec_name(),
    {
        match self {
            DuploSound::Brake => "brake",
            DuploSound::StationDeparture => "station_departure",
            DuploSound::WaterRefill => "water_refill",
            DuploSound::Horn => "horn",
            DuploSound::Steam => "steam",
        }
    }

    /// Snake-case name of the sound as an owned string.
    pub fn to_string(&self) -> (name: String)
        ensures
            name@ == self.spec_name(),
    {
        String::from_str(self.as_str())
    }

    /// Parse a sound name, ignoring ASCII case.
    pub fn from_name(text: &str) -> (sound: Option<DuploSound>)
        ensures
            sound == Self::spec_from_name(text@),
    {
        if str_eq_ignore_ascii_case(text, "brake") {
            Some(DuploSound::Brake)
        } else if str_eq_ignore_ascii_case(text, "station_departure") {
            Some(DuploSound::StationDeparture)
        } else if str_eq_ignore_ascii_case(text, "water_refill") {
            Some(DuploSound::WaterRefill)
        } else if str_eq_ignore_ascii_case(text, "horn") {
            Some(DuploSound::Horn)
        } else if str_eq_ignore_ascii_case(text, "steam") {
            Some(DuploSound::Steam)
        } else {
            None
        }
    }
}

impl std::str::FromStr for DuploSound {
    type Err = UnknownName;

    fn from_str(text: &str) -> (parsed: Result<DuploSound, UnknownName>)
        ensures
            parsed == match DuploSound::spec_from_name(text@) {
                Some(v) => Ok(v),
                None => Err(UnknownName),
            },
    {
        match DuploSound::from_name(text) {
            Some(sound) => Ok(sound),
            None => Err(UnknownName),
        }
    }
}

impl From<DuploSound> for u8 {
    fn from(sound: DuploSound) -> (code: u8) {
        match sound {
            DuploSound::Brake => 3,
            DuploSound::StationDeparture => 5,
            DuploSound::WaterRefill => 7,
            DuploSound::Horn => 9,
            DuploSound::Steam => 10,
        }
    }
}

impl vstd::std_specs::convert::FromSpecImpl<DuploSound> for u8 {
    open spec fn obeys_from_spec() -> bool {
        true
    }

    open spec fn from_spec(sound: DuploSound) -> u8 {
        sound.spec_code()
    }
}

/// Envelope that carries any command sent to the BLE side: motor and horn
/// commands plus auxiliary actions (LED colour, sound).
#[derive(Debug, Clone, Copy, PartialEq, Eq, Structural)]
pub enum Command {
    Train(TrainCommand),
    Led(LedColor),
    Sound(DuploSound),
}

/// Connection state machine.
#[derive(Debug, Clone, Copy, PartialEq, Eq, Structural)]
pub enum ConnectionState {
    Standby,
    Connecting,
    Connected,
}

impl Default for ConnectionState {
    fn default() -> (state: Self)
        ensures
            state == ConnectionState::Standby,
    {
        ConnectionState::Standby
    }
}

/// Train state published to MQTT.
#[derive(Debug, Clone)]
pub struct TrainState {
    pub status: ConnectionState,
    pub attempts: u8,
    pub battery: Option<u8>,
    pub motor: Option<i8>,
    pub speed: Option<i16>,
    pub led: Option<LedColor>,
    pub last_sound: Option<DuploSound>,
    pub ts: u64,
}

impl TrainState {
    /// The standby state stamped with `ts`: nothing known about the train.
    pub open spec fn spec_standby(ts: u64) -> TrainState {
        TrainState {
            status: ConnectionState::Standby,
            attempts: 0,
            battery: None,
            motor: None,
            speed: None,
            led: None,
            last_sound: None,
            ts,
        }
    }

    /// The freshly connected state stamped with `ts`: motor and speed at 0.
    pub open spec fn spec_connected(ts: u64) -> TrainState {
        TrainState {
            status: ConnectionState::Connected,
            attempts: 0,
            battery: None,
            motor: Some(0),
            speed: Some(0),
            led: None,
            last_sound: None,
            ts,
        }
    }

    /// `new` with the fields that survive standby/connect transitions
    /// (battery, LED, last sound) taken from `old`.
    pub open spec fn spec_apply(old: TrainState, new: TrainState) -> TrainState {
        TrainState { battery: old.battery, led: old.led, last_sound: old.last_sound, ..new }
    }

    /// Create a standby state stamped with `ts`.
    pub fn standby_at(ts: u64) -> (state: Self)
        ensures
            state == Self::spec_standby(ts),
    {
        TrainState {
            status: ConnectionState::Standby,
            attempts: 0,
            battery: None,
            motor: None,
            speed: None,
            led: None,
            last_sound: None,
            ts,
        }
    }

    /// Create a connected state stamped with `ts`.
    pub fn connected_at(ts: u64) -> (state: Self)
        ensures
            state == Self::spec_connected(ts),
    {
        TrainState {
            status: ConnectionState::Connected,
            attempts: 0,
            battery: None,
            motor: Some(0),
            speed: Some(0),
            led: None,
            last_sound: None,
            ts,
        }
    }

    /// Create a standby state stamped with the current time.
    pub fn standby() -> (state: Self)
        ensures
            state == Self::spec_standby(state.ts),
    {
        Self::standby_at(current_timestamp())
    }

    /// Create a connected state stamped with the current time.
    pub fn connected() -> (state: Self)
        ensures
            state == Self::spec_connected(state.ts),
    {
        Self::connected_at(current_timestamp())
    }

    /// Update the timestamp to now; every other field is unchanged.
    pub fn touch(&mut self)
        ensures
            *final(self) == (TrainState { ts: final(self).ts, ..*old(self) }),
    {
        self.ts = current_timestamp();
    }

    /// Replace self with `new`, preserving the fields that survive
    /// standby/connect transitions (battery, LED, last sound).
    pub fn apply(&mut self, new: TrainState)
        ensures
            *final(self) == Self::spec_apply(*old(self), new),
    {
        let battery = self.battery;
        let led = self.led;
        let last_sound = self.last_sound;
        *self = new;
        self.battery = battery;
        self.led = led;
        self.last_sound = last_sound;
    }
}

impl Default for TrainState {
    fn default() -> (state: Self)
        ensures
            state == Self::spec_standby(state.ts),
    {
        Self::standby()
    }
}

/// Status updates sent from the BLE side to the MQTT side.
#[derive(Debug, Clone)]
pub enum StatusUpdate {
    /// Full state update.
    State(TrainState),
    /// Battery level update (0-100 percentage).
    Battery(u8),
    /// Motor speed confirmation (commanded value).
    Motor(i8),
    /// Speedometer reading (measured value).
    Speed(i16),
    /// LED colour confirmation (last set value).
    Led(LedColor),
    /// Sound action confirmation (last triggered value).
    Sound(DuploSound),
    /// Connection state changed.
    ConnectionState(ConnectionState),
    /// Connection attempts changed (0-3, for HA feedback).
    Attempts(u8),
    /// Error occurred.
    Error(String),
}

/// Command execution result sent from the BLE side to the MQTT side.
///
/// Only motor/horn commands surface here — LED and sound state changes are
/// observable via `TrainState.led` / `TrainState.last_sound`.
#[derive(Debug, Clone)]
pub struct CommandExecuted {
    pub cmd: TrainCommand,
}

/// Equality up to ASCII case is transitive.
proof fn lemma_eq_ignore_case_transitive(a: Seq<char>, b: Seq<char>, c: Seq<char>)
    requires
        eq_ignore_ascii_case(a, b),
        eq_ignore_ascii_case(b, c),
    ensures
        eq_ignore_ascii_case(a, c),
{
}

/// Equality up to ASCII case is symmetric.
proof fn lemma_eq_ignore_case_symmetric(a: Seq<char>, b: Seq<char>)
    requires
        eq_ignore_ascii_case(a, b),
    ensures
        eq_ignore_ascii_case(b, a),
{
}

/// Two texts that differ, up to ASCII case, at position `i` are not equal
/// up to ASCII case.
proof fn lemma_differ_at(a: Seq<char>, b: Seq<char>, i: int)
    requires
        0 <= i < a.len(),
        ascii_lower(a[i]) != ascii_lower(b[i]),
    ensures
        !eq_ignore_ascii_case(a, b),
{
}

/// Command names are recognised by parsing: the name of every command
/// parses back to that command.
pub proof fn lemma_train_command_name_roundtrip(cmd: TrainCommand)
    ensures
        TrainCommand::spec_from_name(cmd.spec_name()) == Some(cmd),
{
    reveal_strlit("forward");
    reveal_strlit("boost");
    reveal_strlit("backward");
    reveal_strlit("stop");
}

/// Colour names are recognised by parsing: the name of every colour parses
/// back to that colour.
pub proof fn lemma_led_color_name_roundtrip(color: LedColor)
    ensures
        LedColor::spec_from_name(color.spec_name()) == Some(color),
{
    reveal_strlit("off");
    reveal_strlit("white");
    reveal_strlit("green");
    reveal_strlit("yellow");
    reveal_strlit("light_blue");
    reveal_strlit("dark_blue");
    reveal_strlit("purple");
    reveal_strlit("purple_pink");
    reveal_strlit("light_pink");
    reveal_strlit("red_pink");
    reveal_strlit("red");
    lemma_differ_at("red"@, "off"@, 0);
    lemma_differ_at("green"@, "white"@, 0);
    lemma_differ_at("purple"@, "yellow"@, 0);
    lemma_differ_at("light_pink"@, "light_blue"@, 6);
}

/// Sound names are recognised by parsing: the name of every sound parses
/// back to that sound.
pub proof fn lemma_duplo_sound_name_roundtrip(sound: DuploSound)
    ensures
        DuploSound::spec_from_name(sound.spec_name()) == Some(sound),
{
    reveal_strlit("brake");
    reveal_strlit("station_departure");
    reveal_strlit("water_refill");
    reveal_strlit("horn");
    reveal_strlit("steam");
    lemma_differ_at("steam"@, "brake"@, 0);
}

/// Parsing ignores ASCII case: texts equal up to ASCII case name the same
/// command, colour and sound (or none).
pub proof fn lemma_parse_ignores_ascii_case(a: Seq<char>, b: Seq<char>)
    requires
        eq_ignore_ascii_case(a, b),
    ensures
        TrainCommand::spec_from_name(a) == TrainCommand::spec_from_name(b),
        LedColor::spec_from_name(a) == LedColor::spec_from_name(b),
        DuploSound::spec_from_name(a) == DuploSound::spec_from_name(b),
{
    lemma_eq_ignore_case_symmetric(a, b);
    assert forall|n: Seq<char>| eq_ignore_ascii_case(a, n) == eq_ignore_ascii_case(b, n) by {
        if eq_ignore_ascii_case(a, n) {
            lemma_eq_ignore_case_transitive(b, a, n);
        }
        if eq_ignore_ascii_case(b, n) {
            lemma_eq_ignore_case_transitive(a, b, n);
        }
    }
}

/// A parsed name matches the canonical name of its result up to ASCII case.
pub proof fn lemma_parsed_name_matches(text: Seq<char>)
    ensures
        TrainCommand::spec_from_name(text) matches Some(c) ==> eq_ignore_ascii_case(
            text,
            c.spec_name(),
        ),
        LedColor::spec_from_name(text) matches Some(c) ==> eq_ignore_ascii_case(
            text,
            c.spec_name(),
        ),
        DuploSound::spec_from_name(text) matches Some(s) ==> eq_ignore_ascii_case(
            text,
            s.spec_name(),
        ),
{
}

/// Distinct colours are sent as distinct protocol codes, and distinct sounds
/// as distinct firmware ids.
pub proof fn lemma_codes_distinct(c1: LedColor, c2: LedColor, s1: DuploSound, s2: DuploSound)
    ensures
        c1.spec_code() == c2.spec_code() ==> c1 == c2,
        s1.spec_code() == s2.spec_code() ==> s1 == s2,
{
}

/// Applying a new state keeps battery, LED and last sound from the current
/// state and takes everything else from the new one.
pub proof fn lemma_apply_keeps_persistent_fields(old: TrainState, new: TrainState)
    ensures
        TrainState::spec_apply(old, new).battery == old.battery,
        TrainState::spec_apply(old, new).led == old.led,
        TrainState::spec_apply(old, new).last_sound == old.last_sound,
        TrainState::spec_apply(old, new).status == new.status,
        TrainState::spec_apply(old, new).attempts == new.attempts,
        TrainState::spec_apply(old, new).motor == new.motor,
        TrainState::spec_apply(old, new).speed == new.speed,
        TrainState::spec_apply(old, new).ts == new.ts,
        TrainState::spec_apply(TrainState::spec_apply(old, new), new) == TrainState::spec_apply(
            old,
            new,
        ),
{
}

} // verus!
