use vstd::prelude::*;
use crate::media::text_opt;
use crate::text::{chars_of, dec, dec2, dec2_chars, dec_chars, dec_int, dec_int_chars, extend_chars, extend_str, string_of};

verus! {

// ---------------------------------------------------------------------------
// Vehicles and commands
// ---------------------------------------------------------------------------

/// A vehicle on the connected Tesla account.
#[derive(Clone, Debug, PartialEq)]
pub struct VehicleInfo {
    pub vin: String,
    pub id: String,
    pub vehicle_id: String,
    pub name: String,
    pub state: String,
    pub selected: bool,
    pub paired: bool,
}

/// The name of the first selected vehicle, if any is selected.
pub open spec fn selected_name_of(vs: Seq<VehicleInfo>) -> Option<Seq<char>>
    decreases vs.len(),
{
    if vs.len() == 0 {
        None
    } else if vs[0].selected {
        Some(vs[0].name@)
    } else {
        selected_name_of(vs.drop_first())
    }
}

/// The name of the first selected vehicle, if any is selected.
pub fn selected_vehicle_name(vehicles: &Vec<VehicleInfo>) -> (r: Option<String>)
    ensures
        match r {
            Some(n) => selected_name_of(vehicles@) == Some(n@),
            None => selected_name_of(vehicles@) is None,
        },
{
    let mut i: usize = 0;
    assert(vehicles@.skip(0) == vehicles@);
    while i < vehicles.len()
        invariant
            i <= vehicles.len(),
            selected_name_of(vehicles@) == selected_name_of(vehicles@.skip(i as int)),
        decreases vehicles.len() - i,
    {
        if vehicles[i].selected {
            return Some(vehicles[i].name.clone());
        }
        assert(vehicles@.skip(i as int).drop_first() == vehicles@.skip(i + 1));
        i = i + 1;
    }
    None
}

/// The name shown in the header: the selected vehicle's, else "Tesla".
pub fn header_name(selected: &Option<String>) -> (s: String)
    ensures
        s@ == match selected {
            Some(n) => n@,
            None => "Tesla"@,
        },
{
    match selected {
        Some(n) => n.clone(),
        None => "Tesla".to_owned(),
    }
}

/// A command sent to the vehicle.
#[derive(Clone, Copy, Debug, PartialEq, Eq, Structural)]
pub enum Command {
    Lock,
    Unlock,
    /// Turns the climate on; remembers whether both defrosters were off when
    /// the button was pressed.
    ClimateOn { defrost_was_off: bool },
    ClimateOff,
    Defrost,
    /// Turns the defrosters off from the defrost button (sent as `climate_off`).
    DefrostOff,
    RemoteStart,
    CabinOverheatOn,
    CabinOverheatFanOnly,
    CabinOverheatOff,
    PreconditionBattery,
}

/// The name the server knows a command by.
pub open spec fn command_name_of(c: Command) -> Seq<char> {
    match c {
        Command::Lock => "lock"@,
        Command::Unlock => "unlock"@,
        Command::ClimateOn { .. } => "climate_on"@,
        Command::ClimateOff => "climate_off"@,
        Command::Defrost => "defrost"@,
        Command::DefrostOff => "climate_off"@,
        Command::RemoteStart => "remote_start"@,
        Command::CabinOverheatOn => "cabin_overheat_on"@,
        Command::CabinOverheatFanOnly => "cabin_overheat_fan_only"@,
        Command::CabinOverheatOff => "cabin_overheat_off"@,
        Command::PreconditionBattery => "precondition_battery"@,
    }
}

/// The name the server knows a command by.
pub fn command_name(c: Command) -> (s: &'static str)
    ensures
        s@ == command_name_of(c),
{
    match c {
        Command::Lock => "lock",
        Command::Unlock => "unlock",
        Command::ClimateOn { .. } => "climate_on",
        Command::ClimateOff => "climate_off",
        Command::Defrost => "defrost",
        Command::DefrostOff => "climate_off",
        Command::RemoteStart => "remote_start",
        Command::CabinOverheatOn => "cabin_overheat_on",
        Command::CabinOverheatFanOnly => "cabin_overheat_fan_only",
        Command::CabinOverheatOff => "cabin_overheat_off",
        Command::PreconditionBattery => "precondition_battery",
    }
}

/// Unlocking and remote start ask for a second factor first.
pub open spec fn sensitive(c: Command) -> bool {
    c == Command::Unlock || c == Command::RemoteStart
}

/// Whether a command asks for a second factor first.
pub fn needs_verification(c: Command) -> (b: bool)
    ensures
        b == sensitive(c),
{
    match c {
        Command::Unlock | Command::RemoteStart => true,
        _ => false,
    }
}

/// The lock button unlocks a locked car and locks it otherwise.
pub open spec fn lock_command_of(is_locked: Option<bool>) -> Command {
    if is_locked == Some(true) { Command::Unlock } else { Command::Lock }
}

/// What the lock button sends.
pub fn lock_command(is_locked: Option<bool>) -> (c: Command)
    ensures
        c == lock_command_of(is_locked),
{
    match is_locked {
        Some(true) => Command::Unlock,
        _ => Command::Lock,
    }
}

/// Whether a defroster reading counts as on (unknown counts as off).
pub open spec fn on(x: Option<bool>) -> bool {
    x == Some(true)
}

/// The climate button turns a running climate off and otherwise turns it on,
/// noting whether both defrosters were off at that moment.
pub open spec fn climate_command_of(climate_on: Option<bool>, front: Option<bool>, rear: Option<bool>) -> Command {
    if climate_on == Some(true) {
        Command::ClimateOff
    } else {
        Command::ClimateOn { defrost_was_off: !on(front) && !on(rear) }
    }
}

/// What the climate button sends.
pub fn climate_command(climate_on: Option<bool>, front: Option<bool>, rear: Option<bool>) -> (c: Command)
    ensures
        c == climate_command_of(climate_on, front, rear),
{
    let defrost_was_off = !front.unwrap_or(false) && !rear.unwrap_or(false);
    match climate_on {
        Some(true) => Command::ClimateOff,
        _ => Command::ClimateOn { defrost_was_off },
    }
}

/// The defrost button turns the defrosters off when either is on, else on.
pub open spec fn defrost_command_of(front: Option<bool>, rear: Option<bool>) -> Command {
    if on(front) || on(rear) { Command::DefrostOff } else { Command::Defrost }
}

/// The defrost button turns the defrosters off exactly when the front or the
/// rear one reads on, and turns them on otherwise (an unknown reading counts
/// as off); it sends nothing else.
pub proof fn law_defrost_button_follows_both_defrosters(front: Option<bool>, rear: Option<bool>)
    ensures
        defrost_command_of(front, rear) == Command::DefrostOff <==> (front == Some(true) || rear == Some(true)),
        defrost_command_of(front, rear) == Command::Defrost <==> !(front == Some(true) || rear == Some(true)),
{
}

/// The climate button turns the climate off exactly when it reads on, and
/// otherwise turns it on, noting that both defrosters were off exactly when
/// neither the front nor the rear one read on.
pub proof fn law_climate_button_follows_the_climate(climate_on: Option<bool>, front: Option<bool>, rear: Option<bool>)
    ensures
        climate_command_of(climate_on, front, rear) == Command::ClimateOff <==> climate_on == Some(true),
        climate_on != Some(true) ==> climate_command_of(climate_on, front, rear) == (Command::ClimateOn {
            defrost_was_off: front != Some(true) && rear != Some(true),
        }),
{
}

/// What the defrost button sends.
pub fn defrost_command(front: Option<bool>, rear: Option<bool>) -> (c: Command)
    ensures
        c == defrost_command_of(front, rear),
{
    if front.unwrap_or(false) || rear.unwrap_or(false) {
        Command::DefrostOff
    } else {
        Command::Defrost
    }
}

/// What the verification dialog says the user is about to do.
pub open spec fn action_name_of(c: Command) -> Seq<char> {
    match c {
        Command::Unlock => "unlock your Tesla"@,
        Command::RemoteStart => "start your Tesla"@,
        _ => "perform this action"@,
    }
}

/// What the verification dialog says the user is about to do.
pub fn action_name(c: Command) -> (s: &'static str)
    ensures
        s@ == action_name_of(c),
{
    match c {
        Command::Unlock => "unlock your Tesla",
        Command::RemoteStart => "start your Tesla",
        _ => "perform this action",
    }
}

// ---------------------------------------------------------------------------
// What the panel shows
// ---------------------------------------------------------------------------

/// The Font Awesome battery icon for a charge level in percent.
pub open spec fn battery_icon_of(level: int) -> Seq<char> {
    if level <= 10 {
        "fa-battery-empty"@
    } else if level <= 35 {
        "fa-battery-quarter"@
    } else if level <= 60 {
        "fa-battery-half"@
    } else if level <= 90 {
        "fa-battery-three-quarters"@
    } else {
        "fa-battery-full"@
    }
}

/// The battery icon for a charge level in percent.
pub fn battery_icon(level: i32) -> (s: &'static str)
    ensures
        s@ == battery_icon_of(level as int),
{
    if level <= 10 {
        "fa-battery-empty"
    } else if level <= 35 {
        "fa-battery-quarter"
    } else if level <= 60 {
        "fa-battery-half"
    } else if level <= 90 {
        "fa-battery-three-quarters"
    } else {
        "fa-battery-full"
    }
}

/// Whether the reported charging state is exactly "Charging".
pub open spec fn charging_of(state: Option<Seq<char>>) -> bool {
    state == Some("Charging"@)
}

/// Whether the reported charging state is exactly "Charging".
pub fn is_charging(state: &Option<String>) -> (b: bool)
    ensures
        b == charging_of(crate::media::text_opt(*state)),
{
    match state {
        Some(s) => {
            let cs = chars_of(s.as_str());
            let want = chars_of("Charging");
            crate::text::same(cs.as_slice(), want.as_slice())
        },
        None => false,
    }
}

/// The charger power, as "`n` kW", or "-- kW" when unknown.
pub open spec fn power_text_of(power: Option<i32>) -> Seq<char> {
    match power {
        Some(p) => dec_int(p as int) + " kW"@,
        None => "-- kW"@,
    }
}

/// The charger power, as shown on the charging row.
pub fn power_text(power: Option<i32>) -> (s: String)
    ensures
        s@ == power_text_of(power),
{
    match power {
        Some(p) => {
            let mut v = dec_int_chars(p as i64);
            extend_str(&mut v, " kW");
            string_of(v.as_slice())
        },
        None => "-- kW".to_owned(),
    }
}

/// The remote start countdown, as minutes, a colon and two-digit seconds.
pub open spec fn countdown_text_of(secs: nat) -> Seq<char> {
    dec(secs / 60) + seq![':'] + dec2(secs % 60)
}

/// The remote start countdown, as shown on the start button.
pub fn countdown_text(secs: u32) -> (s: String)
    ensures
        s@ == countdown_text_of(secs as nat),
{
    let mut v = dec_chars((secs / 60) as u64);
    v.push(':');
    let r = dec2_chars((secs % 60) as u64);
    extend_chars(&mut v, r.as_slice());
    string_of(v.as_slice())
}

/// The time of the last refresh, as "Updated HH:MM".
pub open spec fn refreshed_text_of(hours: nat, minutes: nat) -> Seq<char> {
    "Updated "@ + dec2(hours) + seq![':'] + dec2(minutes)
}

/// The time of the last refresh, as shown in the header.
pub fn refreshed_text(hours: u32, minutes: u32) -> (s: String)
    ensures
        s@ == refreshed_text_of(hours as nat, minutes as nat),
{
    let mut v = chars_of("Updated ");
    let h = dec2_chars(hours as u64);
    extend_chars(&mut v, h.as_slice());
    v.push(':');
    let m = dec2_chars(minutes as u64);
    extend_chars(&mut v, m.as_slice());
    string_of(v.as_slice())
}

// ---------------------------------------------------------------------------
// The control panel
// ---------------------------------------------------------------------------

/// The controls that each show a spinner while their command runs.
#[derive(Clone, Copy, Debug, PartialEq, Eq, Structural)]
pub enum Control {
    Lock,
    Climate,
    Defrost,
    RemoteStart,
    CabinOverheat,
    Precondition,
}

/// The control whose button sends a command.
pub open spec fn control_of(c: Command) -> Control {
    match c {
        Command::Lock | Command::Unlock => Control::Lock,
        Command::ClimateOn { .. } | Command::ClimateOff => Control::Climate,
        Command::Defrost | Command::DefrostOff => Control::Defrost,
        Command::RemoteStart => Control::RemoteStart,
        Command::CabinOverheatOn | Command::CabinOverheatFanOnly | Command::CabinOverheatOff => Control::CabinOverheat,
        Command::PreconditionBattery => Control::Precondition,
    }
}

/// The control whose button sends a command.
pub fn control_for(c: Command) -> (k: Control)
    ensures
        k == control_of(c),
{
    match c {
        Command::Lock | Command::Unlock => Control::Lock,
        Command::ClimateOn { .. } | Command::ClimateOff => Control::Climate,
        Command::Defrost | Command::DefrostOff => Control::Defrost,
        Command::RemoteStart => Control::RemoteStart,
        Command::CabinOverheatOn | Command::CabinOverheatFanOnly | Command::CabinOverheatOff => Control::CabinOverheat,
        Command::PreconditionBattery => Control::Precondition,
    }
}

/// Which controls are waiting for their command.
#[derive(Clone, Copy, Debug, PartialEq, Eq, Structural)]
pub struct Busy {
    pub lock: bool,
    pub climate: bool,
    pub defrost: bool,
    pub remote_start: bool,
    pub cabin_overheat: bool,
    pub precondition: bool,
}

impl Busy {
    /// Whether a control is waiting.
    pub open spec fn of(self, k: Control) -> bool {
        match k {
            Control::Lock => self.lock,
            Control::Climate => self.climate,
            Control::Defrost => self.defrost,
            Control::RemoteStart => self.remote_start,
            Control::CabinOverheat => self.cabin_overheat,
            Control::Precondition => self.precondition,
        }
    }

    /// The same flags with the one for `k` set to `v`.
    pub open spec fn with(self, k: Control, v: bool) -> Busy {
        match k {
            Control::Lock => Busy { lock: v, ..self },
            Control::Climate => Busy { climate: v, ..self },
            Control::Defrost => Busy { defrost: v, ..self },
            Control::RemoteStart => Busy { remote_start: v, ..self },
            Control::CabinOverheat => Busy { cabin_overheat: v, ..self },
            Control::Precondition => Busy { precondition: v, ..self },
        }
    }

    /// Sets the flag for `k` to `v`.
    pub fn set(&mut self, k: Control, v: bool)
        ensures
            *final(self) == old(self).with(k, v),
    {
        match k {
            Control::Lock => self.lock = v,
            Control::Climate => self.climate = v,
            Control::Defrost => self.defrost = v,
            Control::RemoteStart => self.remote_start = v,
            Control::CabinOverheat => self.cabin_overheat = v,
            Control::Precondition => self.precondition = v,
        }
    }
}

/// What is known of the vehicle.
#[derive(Clone, Debug, PartialEq)]
pub struct VehicleStatus {
    pub battery_level: Option<i32>,
    pub charging_state: Option<String>,
    pub charge_limit: Option<i32>,
    pub charger_power: Option<i32>,
    pub uses_miles: bool,
    pub is_locked: Option<bool>,
    pub climate_on: Option<bool>,
    pub front_defroster_on: Option<bool>,
    pub rear_defroster_on: Option<bool>,
}

/// A battery status answer, field by field, as far as it held each one.
#[derive(Clone, Debug, PartialEq)]
pub struct StatusReport {
    pub battery_level: Option<i32>,
    pub charging_state: Option<String>,
    pub charge_limit: Option<i32>,
    pub charger_power: Option<i32>,
    pub uses_miles: Option<bool>,
    pub locked: Option<bool>,
    pub climate_on: Option<bool>,
    pub front_defroster_on: Option<bool>,
    pub rear_defroster_on: Option<bool>,
}

/// The new value when there is one, else the old.
pub open spec fn or_keep<T>(new: Option<T>, old: Option<T>) -> Option<T> {
    if new is Some { new } else { old }
}

/// The status after a full reading (on connect and on the timed refresh): the
/// charger power follows the answer, distance units default to miles, and a
/// missing climate or defroster field reads as off.
pub open spec fn full_reading(st: VehicleStatus, r: StatusReport) -> VehicleStatus {
    VehicleStatus {
        battery_level: or_keep(r.battery_level, st.battery_level),
        charging_state: or_keep(r.charging_state, st.charging_state),
        charge_limit: or_keep(r.charge_limit, st.charge_limit),
        charger_power: r.charger_power,
        uses_miles: r.uses_miles != Some(false),
        is_locked: or_keep(r.locked, st.is_locked),
        climate_on: Some(on(r.climate_on)),
        front_defroster_on: Some(on(r.front_defroster_on)),
        rear_defroster_on: Some(on(r.rear_defroster_on)),
    }
}

/// The status after a reading asked for with the refresh button: only the
/// fields the answer held change, and the charge fields stay.
pub open spec fn manual_reading(st: VehicleStatus, r: StatusReport) -> VehicleStatus {
    VehicleStatus {
        battery_level: or_keep(r.battery_level, st.battery_level),
        charging_state: or_keep(r.charging_state, st.charging_state),
        is_locked: or_keep(r.locked, st.is_locked),
        climate_on: or_keep(r.climate_on, st.climate_on),
        front_defroster_on: or_keep(r.front_defroster_on, st.front_defroster_on),
        rear_defroster_on: or_keep(r.rear_defroster_on, st.rear_defroster_on),
        ..st
    }
}

/// What a command that went through changes in the status.
pub open spec fn succeeded(st: VehicleStatus, c: Command) -> VehicleStatus {
    match c {
        Command::Lock => VehicleStatus { is_locked: Some(true), ..st },
        Command::Unlock => VehicleStatus { is_locked: Some(false), ..st },
        Command::ClimateOn { .. } => VehicleStatus { climate_on: Some(true), ..st },
        Command::ClimateOff | Command::DefrostOff => VehicleStatus {
            climate_on: Some(false),
            front_defroster_on: Some(false),
            rear_defroster_on: Some(false),
            ..st
        },
        Command::Defrost => VehicleStatus {
            climate_on: Some(true),
            front_defroster_on: Some(true),
            rear_defroster_on: Some(true),
            ..st
        },
        _ => st,
    }
}

/// The note shown when the car turned its defrosters on by itself.
pub open spec fn auto_defrost_note() -> Seq<char> {
    "Defrost auto-activated by Tesla (cold weather)"@
}

/// The car turned a defroster on by itself: the climate was just turned on
/// while both defrosters were off, and now a defroster reading changed to on.
pub open spec fn defrost_noticed(before: VehicleStatus, after: VehicleStatus, just_on: bool, was_off: bool) -> bool {
    &&& just_on
    &&& was_off
    &&& before.front_defroster_on != after.front_defroster_on || before.rear_defroster_on != after.rear_defroster_on
    &&& on(after.front_defroster_on) || on(after.rear_defroster_on)
}

/// `defrost_noticed`, from the defroster readings before.
pub open spec fn defrost_noticed_from(front: Option<bool>, rear: Option<bool>, after: VehicleStatus, just_on: bool, was_off: bool) -> bool {
    &&& just_on
    &&& was_off
    &&& front != after.front_defroster_on || rear != after.rear_defroster_on
    &&& on(after.front_defroster_on) || on(after.rear_defroster_on)
}

/// The stage of the second-factor dialog.
#[derive(Clone, Debug)]
pub enum Stage {
    Hidden,
    /// Asking the server what the account requires.
    Loading,
    /// Offering the second factors the account has.
    Options { has_passkeys: bool, has_totp: bool, pending: Command },
    WaitingForPasskey,
    WaitingForTotp,
    Verifying,
    Failed(String),
}

/// What the server requires before a sensitive command.
#[derive(Clone, Copy, Debug, PartialEq, Eq, Structural)]
pub struct Requirements {
    pub requires_2fa: bool,
    pub has_passkeys: bool,
    pub has_totp: bool,
}

/// How a passkey prompt ended.
#[derive(Clone, Debug)]
pub enum PasskeyOutcome {
    /// The server sent no passkey options to prompt with.
    NoOptions,
    /// The browser or the user refused, for this reason.
    Failed(String),
    Verified,
}

/// How the server answered a command.
#[derive(Clone, Debug)]
pub enum CommandReply {
    /// Carried out, with the server's message if it sent one.
    Done(Option<String>),
    /// Refused by the server.
    Refused,
    /// The request did not reach the server, for this reason.
    Unreachable(String),
    /// The request could not be built, for this reason.
    Unsent(String),
}

/// What the panel does after a button press.
#[derive(Clone, Copy, Debug, PartialEq, Eq, Structural)]
pub enum Step {
    /// Send the command now.
    Send(Command),
    /// Ask the server what second factor the command needs.
    CheckVerification(Command),
}

/// The refusal message for a command.
pub open spec fn refused_text_of(c: Command) -> Seq<char> {
    if c == Command::PreconditionBattery {
        "Failed to start battery preconditioning"@
    } else {
        "Failed to execute command"@
    }
}

/// What a message about a request that could not be built starts with.
pub open spec fn unsent_prefix_of(c: Command) -> Seq<char> {
    match control_of(c) {
        Control::CabinOverheat | Control::Precondition => "Failed to create request: "@,
        _ => "Failed: "@,
    }
}

/// The message a reply leaves in the result line (`before` when the server
/// carried the command out without a message).
pub open spec fn reply_text(c: Command, reply: CommandReply, before: Option<Seq<char>>) -> Option<Seq<char>> {
    match reply {
        CommandReply::Done(m) => match m {
            Some(t) => Some(t@),
            None => before,
        },
        CommandReply::Refused => Some(refused_text_of(c)),
        CommandReply::Unreachable(e) => Some("Network error: "@ + e@),
        CommandReply::Unsent(e) => Some(unsent_prefix_of(c) + e@),
    }
}

/// Whether a command runs through the climate button.
pub open spec fn climate_control(c: Command) -> bool {
    control_of(c) == Control::Climate
}

/// A notification the user can ask for.
#[derive(Clone, Copy, Debug, PartialEq, Eq, Structural)]
pub enum Watch {
    /// When the cabin has reached its temperature.
    Climate,
    /// When charging completes.
    Charging,
}

/// A notification switch: whether it is on, and whether a change is on its way.
#[derive(Clone, Copy, Debug, PartialEq, Eq, Structural)]
pub struct Toggle {
    pub active: bool,
    pub busy: bool,
}

/// How the server answered a notification switch.
#[derive(Clone, Debug)]
pub enum NotifyReply {
    Done,
    Refused,
    /// The request did not reach the server, for this reason.
    Unreachable(String),
}

/// The endpoint that turns a notification on, or off when it is active.
pub open spec fn notify_endpoint_of(w: Watch, active: bool) -> Seq<char> {
    match w {
        Watch::Climate => if active {
            "/api/tesla/climate-notify/cancel"@
        } else {
            "/api/tesla/climate-notify/start"@
        },
        Watch::Charging => if active {
            "/api/tesla/charging-notify/cancel"@
        } else {
            "/api/tesla/charging-notify/start"@
        },
    }
}

/// The endpoint the notification switch calls.
pub fn notify_endpoint(w: Watch, active: bool) -> (s: &'static str)
    ensures
        s@ == notify_endpoint_of(w, active),
{
    match w {
        Watch::Climate => if active {
            "/api/tesla/climate-notify/cancel"
        } else {
            "/api/tesla/climate-notify/start"
        },
        Watch::Charging => if active {
            "/api/tesla/charging-notify/cancel"
        } else {
            "/api/tesla/charging-notify/start"
        },
    }
}

/// The message after a notification switch went through (`was_active`: it
/// was on before).
pub open spec fn notify_text_of(w: Watch, was_active: bool) -> Seq<char> {
    match w {
        Watch::Climate => if was_active {
            "Climate notification cancelled"@
        } else {
            "You'll be notified when your car is ready to drive"@
        },
        Watch::Charging => if was_active {
            "Charging notification cancelled"@
        } else {
            "You'll be notified when charging completes"@
        },
    }
}

/// The message a notification reply leaves in the result line.
pub open spec fn notify_reply_text(w: Watch, was_active: bool, reply: NotifyReply) -> Seq<char> {
    match reply {
        NotifyReply::Done => notify_text_of(w, was_active),
        NotifyReply::Refused => "Failed to update notification"@,
        NotifyReply::Unreachable(e) => "Error: "@ + e@,
    }
}

/// The message after the charge limit was saved, or not.
pub open spec fn limit_text_of(percent: int, ok: bool) -> Seq<char> {
    if ok {
        "Charge limit set to "@ + dec_int(percent) + seq!['%']
    } else {
        "Failed to set charge limit"@
    }
}

/// What a streamed climate command reports.
pub open spec fn stream_done(step: Seq<char>) -> bool {
    step == "done"@
}

/// What a streamed climate command reports when it fails.
pub open spec fn stream_failed(step: Seq<char>) -> bool {
    step == "error"@
}

/// The countdown one second later: it ends after its last second.
pub open spec fn ticked(c: Option<u32>) -> Option<u32> {
    match c {
        Some(s) => if s > 1 { Some((s - 1) as u32) } else { None },
        None => None,
    }
}

/// The number of timed refreshes after which they pause until the user acts
/// (half an hour at one every thirty seconds).
pub const REFRESH_LIMIT: u32 = 60;

/// The Tesla control panel.
#[derive(Clone, Debug)]
pub struct VehicleControls {
    pub status: VehicleStatus,
    pub busy: Busy,
    /// A status reading is on its way.
    pub refreshing: bool,
    /// The climate was just turned on ...
    pub climate_just_activated: bool,
    /// ... while both defrosters were off.
    pub defrost_was_off_before_climate: bool,
    /// Seconds left before a remote start lapses.
    pub countdown: Option<u32>,
    /// Timed refreshes since the user last acted.
    pub refresh_count: u32,
    pub auto_refresh_paused: bool,
    pub command_result: Option<String>,
    /// Progress of a streamed climate command.
    pub status_message: Option<String>,
    pub stage: Stage,
    pub pending_command: Option<Command>,
    pub totp_code: String,
    pub climate_notify: Toggle,
    pub charging_notify: Toggle,
    /// The charge limit slider is open ...
    pub limit_editing: bool,
    /// ... at this percentage ...
    pub limit_input: i32,
    /// ... and a new limit is being saved.
    pub limit_saving: bool,
}

/// The panel when it first shows.
pub open spec fn fresh_panel(p: VehicleControls) -> bool {
    &&& p.status.battery_level is None
    &&& p.status.charging_state is None
    &&& p.status.charge_limit is None
    &&& p.status.charger_power is None
    &&& p.status.uses_miles
    &&& p.status.is_locked is None
    &&& p.status.climate_on is None
    &&& p.status.front_defroster_on is None
    &&& p.status.rear_defroster_on is None
    &&& p.busy == Busy { lock: false, climate: false, defrost: false, remote_start: false, cabin_overheat: false, precondition: false }
    &&& !p.refreshing
    &&& !p.climate_just_activated
    &&& !p.defrost_was_off_before_climate
    &&& p.countdown is None
    &&& p.refresh_count == 0
    &&& !p.auto_refresh_paused
    &&& p.command_result is None
    &&& p.status_message is None
    &&& p.stage is Hidden
    &&& p.pending_command is None
    &&& p.totp_code@ == Seq::<char>::empty()
    &&& p.climate_notify == Toggle { active: false, busy: false }
    &&& p.charging_notify == Toggle { active: false, busy: false }
    &&& !p.limit_editing
    &&& p.limit_input == 80
    &&& !p.limit_saving
}

/// The panel after the refresh timer fired, and whether to fetch a reading.
/// Nothing happens while refreshes are paused or the page is hidden; the
/// refresh that would reach the limit pauses them instead; any other is
/// counted and made.
pub open spec fn refresh_step(p: VehicleControls, visible: bool) -> (VehicleControls, bool) {
    if p.auto_refresh_paused || !visible {
        (p, false)
    } else if p.refresh_count + 1 >= REFRESH_LIMIT {
        (VehicleControls { auto_refresh_paused: true, ..p }, false)
    } else {
        (VehicleControls { refresh_count: (p.refresh_count + 1) as u32, ..p }, true)
    }
}

/// The panel after `n` timer ticks while the page is visible.
pub open spec fn visible_ticks(p: VehicleControls, n: nat) -> VehicleControls
    decreases n,
{
    if n == 0 {
        p
    } else {
        refresh_step(visible_ticks(p, (n - 1) as nat), true).0
    }
}

/// The countdown after `n` seconds.
pub open spec fn after_seconds(c: Option<u32>, n: nat) -> Option<u32>
    decreases n,
{
    if n == 0 {
        c
    } else {
        ticked(after_seconds(c, (n - 1) as nat))
    }
}

/// The literal text as a `String`.
fn owned(s: &str) -> (out: String)
    ensures
        out@ == s@,
{
    s.to_owned()
}

/// `a` followed by `b`.
fn joined(a: &str, b: &str) -> (out: String)
    ensures
        out@ == a@ + b@,
{
    let mut v = chars_of(a);
    extend_str(&mut v, b);
    string_of(v.as_slice())
}

/// Records in the status what a command that went through changed.
fn apply_to_status(st: &mut VehicleStatus, c: Command)
    ensures
        *final(st) == succeeded(*old(st), c),
{
    match c {
        Command::Lock => st.is_locked = Some(true),
        Command::Unlock => st.is_locked = Some(false),
        Command::ClimateOn { .. } => st.climate_on = Some(true),
        Command::ClimateOff | Command::DefrostOff => {
            st.climate_on = Some(false);
            st.front_defroster_on = Some(false);
            st.rear_defroster_on = Some(false);
        },
        Command::Defrost => {
            st.climate_on = Some(true);
            st.front_defroster_on = Some(true);
            st.rear_defroster_on = Some(true);
        },
        _ => {},
    }
}

/// Records a status reading (see `full_reading` and `manual_reading`).
fn read_status(st: &mut VehicleStatus, r: StatusReport, full: bool)
    ensures
        *final(st) == if full { full_reading(*old(st), r) } else { manual_reading(*old(st), r) },
{
    let StatusReport {
        battery_level,
        charging_state,
        charge_limit,
        charger_power,
        uses_miles,
        locked,
        climate_on,
        front_defroster_on,
        rear_defroster_on,
    } = r;
    if battery_level.is_some() {
        st.battery_level = battery_level;
    }
    if charging_state.is_some() {
        st.charging_state = charging_state;
    }
    if locked.is_some() {
        st.is_locked = locked;
    }
    if full {
        if charge_limit.is_some() {
            st.charge_limit = charge_limit;
        }
        st.charger_power = charger_power;
        st.uses_miles = uses_miles.unwrap_or(true);
        st.climate_on = Some(climate_on.unwrap_or(false));
        st.front_defroster_on = Some(front_defroster_on.unwrap_or(false));
        st.rear_defroster_on = Some(rear_defroster_on.unwrap_or(false));
    } else {
        if climate_on.is_some() {
            st.climate_on = climate_on;
        }
        if front_defroster_on.is_some() {
            st.front_defroster_on = front_defroster_on;
        }
        if rear_defroster_on.is_some() {
            st.rear_defroster_on = rear_defroster_on;
        }
    }
}

/// Puts the message for a reply to command `c` in the result line.
fn settle_result(result: &mut Option<String>, c: Command, reply: CommandReply)
    ensures
        text_opt(*final(result)) == reply_text(c, reply, text_opt(*old(result))),
{
    match reply {
        CommandReply::Done(m) => {
            if let Some(t) = m {
                *result = Some(t);
            }
        },
        CommandReply::Refused => {
            *result = Some(owned(
                if matches!(c, Command::PreconditionBattery) {
                    "Failed to start battery preconditioning"
                } else {
                    "Failed to execute command"
                },
            ));
        },
        CommandReply::Unreachable(e) => {
            *result = Some(joined("Network error: ", e.as_str()));
        },
        CommandReply::Unsent(e) => {
            let prefix = match control_for(c) {
                Control::CabinOverheat | Control::Precondition => "Failed to create request: ",
                _ => "Failed: ",
            };
            *result = Some(joined(prefix, e.as_str()));
        },
    }
}

/// `after` is the panel once the server answered command `c` with `reply`
/// in panel `before`: the command's spinner stops; a command that went
/// through updates the status (a remote start begins a two-minute countdown,
/// turning the climate on remembers the defrosters); the result line shows
/// the answer; a climate command clears its progress line and a sensitive one
/// closes the dialog. A defroster that turned on by itself is then noted.
pub open spec fn replied(before: VehicleControls, after: VehicleControls, c: Command, reply: CommandReply) -> bool {
    let ok = reply is Done;
    let st = if ok { succeeded(before.status, c) } else { before.status };
    let just_on = if ok && c is ClimateOn {
        true
    } else if ok && c == Command::ClimateOff {
        false
    } else {
        before.climate_just_activated
    };
    let was_off = match c {
        Command::ClimateOn { defrost_was_off } if ok => defrost_was_off,
        _ => before.defrost_was_off_before_climate,
    };
    let noticed = defrost_noticed(before.status, st, just_on, was_off);
    &&& after == (VehicleControls {
        status: st,
        busy: before.busy.with(control_of(c), false),
        climate_just_activated: if noticed { false } else { just_on },
        defrost_was_off_before_climate: if noticed { false } else { was_off },
        countdown: if ok && c == Command::RemoteStart { Some(120u32) } else { before.countdown },
        command_result: after.command_result,
        status_message: if climate_control(c) { None } else { before.status_message },
        stage: after.stage,
        ..before
    })
    &&& text_opt(after.command_result) == if noticed {
        Some(auto_defrost_note())
    } else {
        reply_text(c, reply, text_opt(before.command_result))
    }
    &&& if sensitive(c) { after.stage is Hidden } else { after.stage == before.stage }
}

impl VehicleControls {
    /// The panel when it first shows.
    pub fn new() -> (p: Self)
        ensures
            fresh_panel(p),
    {
        VehicleControls {
            status: VehicleStatus {
                battery_level: None,
                charging_state: None,
                charge_limit: None,
                charger_power: None,
                uses_miles: true,
                is_locked: None,
                climate_on: None,
                front_defroster_on: None,
                rear_defroster_on: None,
            },
            busy: Busy { lock: false, climate: false, defrost: false, remote_start: false, cabin_overheat: false, precondition: false },
            refreshing: false,
            climate_just_activated: false,
            defrost_was_off_before_climate: false,
            countdown: None,
            refresh_count: 0,
            auto_refresh_paused: false,
            command_result: None,
            status_message: None,
            stage: Stage::Hidden,
            pending_command: None,
            totp_code: String::new(),
            climate_notify: Toggle { active: false, busy: false },
            charging_notify: Toggle { active: false, busy: false },
            limit_editing: false,
            limit_input: 80,
            limit_saving: false,
        }
    }

    /// Shows the auto-defrost note when the defrosters turned on by themselves
    /// since `before`.
    fn notice_defrost(&mut self, front: Option<bool>, rear: Option<bool>)
        ensures
            defrost_noticed_from(front, rear, old(self).status, old(self).climate_just_activated, old(self).defrost_was_off_before_climate) ==> {
                &&& *final(self) == (VehicleControls {
                    climate_just_activated: false,
                    defrost_was_off_before_climate: false,
                    command_result: final(self).command_result,
                    ..*old(self)
                })
                &&& text_opt(final(self).command_result) == Some(auto_defrost_note())
            },
            !defrost_noticed_from(front, rear, old(self).status, old(self).climate_just_activated, old(self).defrost_was_off_before_climate)
                ==> *final(self) == *old(self),
    {
        let changed = front != self.status.front_defroster_on || rear != self.status.rear_defroster_on;
        let now_on = self.status.front_defroster_on.unwrap_or(false) || self.status.rear_defroster_on.unwrap_or(false);
        if self.climate_just_activated && self.defrost_was_off_before_climate && changed && now_on {
            self.command_result = Some(owned("Defrost auto-activated by Tesla (cold weather)"));
            self.climate_just_activated = false;
            self.defrost_was_off_before_climate = false;
        }
    }

    /// A button was pressed. A sensitive command first asks what second factor
    /// it needs; any other command starts its spinner and clears the last result
    /// (and, for the climate, the progress line).
    pub fn press(&mut self, c: Command) -> (step: Step)
        ensures
            sensitive(c) ==> {
                &&& step == Step::CheckVerification(c)
                &&& *final(self) == (VehicleControls { stage: final(self).stage, pending_command: Some(c), ..*old(self) })
                &&& final(self).stage is Loading
            },
            !sensitive(c) ==> {
                &&& step == Step::Send(c)
                &&& *final(self) == (VehicleControls {
                    busy: old(self).busy.with(control_of(c), true),
                    command_result: None,
                    status_message: if climate_control(c) { None } else { old(self).status_message },
                    ..*old(self)
                })
            },
    {
        if needs_verification(c) {
            self.stage = Stage::Loading;
            self.pending_command = Some(c);
            Step::CheckVerification(c)
        } else {
            self.busy.set(control_for(c), true);
            self.command_result = None;
            if matches!(control_for(c), Control::Climate) {
                self.status_message = None;
            }
            Step::Send(c)
        }
    }

    /// What a command that went through changes: the status, the climate
    /// flags and the remote start countdown.
    fn apply_success(&mut self, c: Command)
        ensures
            *final(self) == (VehicleControls {
                status: succeeded(old(self).status, c),
                climate_just_activated: match c {
                    Command::ClimateOn { .. } => true,
                    Command::ClimateOff => false,
                    _ => old(self).climate_just_activated,
                },
                defrost_was_off_before_climate: match c {
                    Command::ClimateOn { defrost_was_off } => defrost_was_off,
                    _ => old(self).defrost_was_off_before_climate,
                },
                countdown: if c == Command::RemoteStart { Some(120u32) } else { old(self).countdown },
                ..*old(self)
            }),
    {
        apply_to_status(&mut self.status, c);
        match c {
            Command::ClimateOn { defrost_was_off } => {
                self.climate_just_activated = true;
                self.defrost_was_off_before_climate = defrost_was_off;
            },
            Command::ClimateOff => self.climate_just_activated = false,
            Command::RemoteStart => self.countdown = Some(120),
            _ => {},
        }
    }

    /// The server answered command `c` (see `replied`).
    pub fn on_command_reply(&mut self, c: Command, reply: CommandReply)
        ensures
            replied(*old(self), *final(self), c, reply),
    {
        let front = self.status.front_defroster_on;
        let rear = self.status.rear_defroster_on;
        if matches!(reply, CommandReply::Done(_)) {
            self.apply_success(c);
        }
        settle_result(&mut self.command_result, c, reply);
        self.busy.set(control_for(c), false);
        if matches!(control_for(c), Control::Climate) {
            self.status_message = None;
        }
        if needs_verification(c) {
            self.stage = Stage::Hidden;
        }
        self.notice_defrost(front, rear);
    }

    /// The server said what the pending sensitive command `c` needs. Without an
    /// answer the dialog fails; with a second factor required it offers the ones
    /// the account has; otherwise the dialog closes and the command is sent.
    pub fn on_requirements(&mut self, c: Command, req: Option<Requirements>) -> (send: Option<Command>)
        ensures
            match req {
                None => {
                    &&& send is None
                    &&& *final(self) == (VehicleControls { stage: final(self).stage, ..*old(self) })
                    &&& final(self).stage matches Stage::Failed(m) && m@ == "Failed to check 2FA requirements"@
                },
                Some(r) => if r.requires_2fa {
                    &&& send is None
                    &&& *final(self) == (VehicleControls { stage: final(self).stage, ..*old(self) })
                    &&& final(self).stage matches Stage::Options { has_passkeys, has_totp, pending }
                        && has_passkeys == r.has_passkeys && has_totp == r.has_totp && pending == c
                } else {
                    &&& send == Some(c)
                    &&& *final(self) == (VehicleControls {
                        stage: final(self).stage,
                        busy: old(self).busy.with(control_of(c), true),
                        command_result: None,
                        ..*old(self)
                    })
                    &&& final(self).stage is Hidden
                },
            },
    {
        match req {
            None => {
                self.stage = Stage::Failed(owned("Failed to check 2FA requirements"));
                None
            },
            Some(r) => {
                if r.requires_2fa {
                    self.stage = Stage::Options { has_passkeys: r.has_passkeys, has_totp: r.has_totp, pending: c };
                    None
                } else {
                    self.stage = Stage::Hidden;
                    self.busy.set(control_for(c), true);
                    self.command_result = None;
                    Some(c)
                }
            },
        }
    }

    /// The user chose to verify with a passkey.
    pub fn choose_passkey(&mut self)
        ensures
            *final(self) == (VehicleControls { stage: Stage::WaitingForPasskey, ..*old(self) }),
    {
        self.stage = Stage::WaitingForPasskey;
    }

    /// The user chose to verify with an authenticator code.
    pub fn choose_totp(&mut self)
        ensures
            *final(self) == (VehicleControls { stage: Stage::WaitingForTotp, ..*old(self) }),
    {
        self.stage = Stage::WaitingForTotp;
    }

    /// The authenticator code as typed so far.
    pub fn set_totp_code(&mut self, code: String)
        ensures
            *final(self) == (VehicleControls { totp_code: code, ..*old(self) }),
    {
        self.totp_code = code;
    }

    /// The user closed the dialog: nothing is pending any more.
    pub fn cancel_verification(&mut self)
        ensures
            *final(self) == (VehicleControls {
                stage: Stage::Hidden,
                pending_command: None,
                totp_code: final(self).totp_code,
                ..*old(self)
            }),
            final(self).totp_code@ == Seq::<char>::empty(),
    {
        self.stage = Stage::Hidden;
        self.pending_command = None;
        self.totp_code = String::new();
    }

    /// The second factor was accepted: a pending unlock or remote start is sent
    /// while the dialog says it is verifying; anything else just closes it.
    fn run_pending(&mut self) -> (send: Option<Command>)
        ensures
            match old(self).pending_command {
                Some(c) if sensitive(c) => {
                    &&& send == Some(c)
                    &&& *final(self) == (VehicleControls {
                        stage: Stage::Verifying,
                        busy: old(self).busy.with(control_of(c), true),
                        command_result: None,
                        ..*old(self)
                    })
                },
                _ => {
                    &&& send is None
                    &&& *final(self) == (VehicleControls { stage: Stage::Hidden, ..*old(self) })
                },
            },
    {
        match self.pending_command {
            Some(c) => {
                if needs_verification(c) {
                    self.stage = Stage::Verifying;
                    self.busy.set(control_for(c), true);
                    self.command_result = None;
                    Some(c)
                } else {
                    self.stage = Stage::Hidden;
                    None
                }
            },
            None => {
                self.stage = Stage::Hidden;
                None
            },
        }
    }

    /// How the passkey prompt ended.
    pub fn on_passkey(&mut self, outcome: PasskeyOutcome) -> (send: Option<Command>)
        ensures
            match outcome {
                PasskeyOutcome::NoOptions => {
                    &&& send is None
                    &&& *final(self) == (VehicleControls { stage: final(self).stage, ..*old(self) })
                    &&& final(self).stage matches Stage::Failed(m) && m@ == "No passkey options available"@
                },
                PasskeyOutcome::Failed(e) => {
                    &&& send is None
                    &&& *final(self) == (VehicleControls { stage: final(self).stage, ..*old(self) })
                    &&& final(self).stage matches Stage::Failed(m) && m@ == "Passkey verification failed: "@ + e@
                },
                PasskeyOutcome::Verified => match old(self).pending_command {
                    Some(c) if sensitive(c) => {
                        &&& send == Some(c)
                        &&& *final(self) == (VehicleControls {
                            stage: Stage::Verifying,
                            busy: old(self).busy.with(control_of(c), true),
                            command_result: None,
                            ..*old(self)
                        })
                    },
                    _ => {
                        &&& send is None
                        &&& *final(self) == (VehicleControls { stage: Stage::Hidden, ..*old(self) })
                    },
                },
            },
    {
        match outcome {
            PasskeyOutcome::NoOptions => {
                self.stage = Stage::Failed(owned("No passkey options available"));
                None
            },
            PasskeyOutcome::Failed(e) => {
                self.stage = Stage::Failed(joined("Passkey verification failed: ", e.as_str()));
                None
            },
            PasskeyOutcome::Verified => self.run_pending(),
        }
    }

    /// The user submitted the authenticator code: an empty code does nothing,
    /// any other is sent for checking while the dialog says it is verifying.
    pub fn submit_totp(&mut self) -> (check: bool)
        ensures
            check == (old(self).totp_code@.len() > 0),
            check ==> *final(self) == (VehicleControls { stage: Stage::Verifying, ..*old(self) }),
            !check ==> *final(self) == *old(self),
    {
        if self.totp_code.as_str().is_empty() {
            false
        } else {
            self.stage = Stage::Verifying;
            true
        }
    }

    /// The server checked the authenticator code: when accepted the code is
    /// cleared and the pending command runs, otherwise the dialog fails.
    pub fn on_totp(&mut self, accepted: bool) -> (send: Option<Command>)
        ensures
            !accepted ==> {
                &&& send is None
                &&& *final(self) == (VehicleControls { stage: final(self).stage, ..*old(self) })
                &&& final(self).stage matches Stage::Failed(m) && m@ == "Invalid verification code"@
            },
            accepted ==> final(self).totp_code@ == Seq::<char>::empty(),
            accepted ==> match old(self).pending_command {
                Some(c) if sensitive(c) => {
                    &&& send == Some(c)
                    &&& *final(self) == (VehicleControls {
                        stage: Stage::Verifying,
                        busy: old(self).busy.with(control_of(c), true),
                        command_result: None,
                        totp_code: final(self).totp_code,
                        ..*old(self)
                    })
                },
                _ => {
                    &&& send is None
                    &&& *final(self) == (VehicleControls {
                        stage: Stage::Hidden,
                        totp_code: final(self).totp_code,
                        ..*old(self)
                    })
                },
            },
    {
        if accepted {
            self.totp_code = String::new();
            self.run_pending()
        } else {
            self.stage = Stage::Failed(owned("Invalid verification code"));
            None
        }
    }

    /// A step of a streamed climate command: "done" settles it as a command
    /// that went through with the step's message, "error" shows the message
    /// and stops the spinner, any other step shows the message as progress.
    pub fn on_climate_step(&mut self, c: Command, step: &str, message: String)
        ensures
            stream_done(step@) ==> replied(*old(self), *final(self), c, CommandReply::Done(Some(message))),
            stream_failed(step@) ==> {
                &&& *final(self) == (VehicleControls {
                    status_message: None,
                    command_result: final(self).command_result,
                    busy: old(self).busy.with(Control::Climate, false),
                    ..*old(self)
                })
                &&& text_opt(final(self).command_result) == Some(message@)
            },
            !stream_done(step@) && !stream_failed(step@) ==> {
                &&& *final(self) == (VehicleControls { status_message: final(self).status_message, ..*old(self) })
                &&& text_opt(final(self).status_message) == Some(message@)
            },
    {
        proof {
            reveal_strlit("done");
            reveal_strlit("error");
            assert("done"@[0] != "error"@[0]);
        }
        if crate::text::is_text(step, "done") {
            self.on_command_reply(c, CommandReply::Done(Some(message)));
        } else if crate::text::is_text(step, "error") {
            self.status_message = None;
            self.command_result = Some(message);
            self.busy.set(Control::Climate, false);
        } else {
            self.status_message = Some(message);
        }
    }

    /// The climate stream broke off.
    pub fn on_climate_stream_error(&mut self)
        ensures
            *final(self) == (VehicleControls {
                status_message: None,
                command_result: final(self).command_result,
                busy: old(self).busy.with(Control::Climate, false),
                ..*old(self)
            }),
            text_opt(final(self).command_result) == Some("Connection error. Please try again."@),
    {
        self.status_message = None;
        self.command_result = Some(owned("Connection error. Please try again."));
        self.busy.set(Control::Climate, false);
    }

    /// The climate stream could not be opened; the command goes by a plain
    /// request instead.
    pub fn on_climate_stream_unavailable(&mut self)
        ensures
            *final(self) == (VehicleControls { status_message: final(self).status_message, ..*old(self) }),
            text_opt(final(self).status_message) == Some("Connecting..."@),
    {
        self.status_message = Some(owned("Connecting..."));
    }

    /// The remote start countdown after one more second.
    pub fn tick_countdown(&mut self)
        ensures
            *final(self) == (VehicleControls { countdown: ticked(old(self).countdown), ..*old(self) }),
    {
        self.countdown = match self.countdown {
            Some(s) => if s > 1 { Some(s - 1) } else { None },
            None => None,
        };
    }

    /// The refresh timer fired (see `refresh_step`).
    pub fn on_refresh_tick(&mut self, visible: bool) -> (fetch: bool)
        requires
            old(self).refresh_count < u32::MAX,
        ensures
            (*final(self), fetch) == refresh_step(*old(self), visible),
    {
        if self.auto_refresh_paused || !visible {
            return false;
        }
        let count = self.refresh_count + 1;
        if count >= REFRESH_LIMIT {
            self.auto_refresh_paused = true;
            return false;
        }
        self.refresh_count = count;
        true
    }

    /// The user asked for a reading (or the panel connected): the timed
    /// refreshes start counting again and the reading is on its way.
    pub fn start_refresh(&mut self)
        ensures
            *final(self) == (VehicleControls {
                refresh_count: 0,
                auto_refresh_paused: false,
                refreshing: true,
                ..*old(self)
            }),
    {
        self.refresh_count = 0;
        self.auto_refresh_paused = false;
        self.refreshing = true;
    }

    /// A reading asked for has come back, or failed.
    pub fn finish_refresh(&mut self)
        ensures
            *final(self) == (VehicleControls { refreshing: false, ..*old(self) }),
    {
        self.refreshing = false;
    }

    /// A status reading arrived (`full`: on connect or from the timer, else
    /// from the refresh button). A defroster that turned on by itself is noted.
    pub fn on_report(&mut self, r: StatusReport, full: bool)
        ensures
            ({
                let st = if full { full_reading(old(self).status, r) } else { manual_reading(old(self).status, r) };
                let noticed = defrost_noticed(
                    old(self).status,
                    st,
                    old(self).climate_just_activated,
                    old(self).defrost_was_off_before_climate,
                );
                &&& *final(self) == (VehicleControls {
                    status: st,
                    climate_just_activated: if noticed { false } else { old(self).climate_just_activated },
                    defrost_was_off_before_climate: if noticed { false } else { old(self).defrost_was_off_before_climate },
                    command_result: final(self).command_result,
                    ..*old(self)
                })
                &&& text_opt(final(self).command_result) == if noticed {
                    Some(auto_defrost_note())
                } else {
                    text_opt(old(self).command_result)
                }
            }),
    {
        let front = self.status.front_defroster_on;
        let rear = self.status.rear_defroster_on;
        read_status(&mut self.status, r, full);
        self.notice_defrost(front, rear);
    }

    /// The switch for a notification.
    pub open spec fn toggle_of(self, w: Watch) -> Toggle {
        match w {
            Watch::Climate => self.climate_notify,
            Watch::Charging => self.charging_notify,
        }
    }

    /// The panel with the switch for `w` replaced.
    pub open spec fn with_toggle(self, w: Watch, t: Toggle) -> VehicleControls {
        match w {
            Watch::Climate => VehicleControls { climate_notify: t, ..self },
            Watch::Charging => VehicleControls { charging_notify: t, ..self },
        }
    }

    fn set_toggle(&mut self, w: Watch, t: Toggle)
        ensures
            *final(self) == old(self).with_toggle(w, t),
    {
        match w {
            Watch::Climate => self.climate_notify = t,
            Watch::Charging => self.charging_notify = t,
        }
    }

    /// The server said whether a notification is on.
    pub fn set_notify_active(&mut self, w: Watch, active: bool)
        ensures
            *final(self) == old(self).with_toggle(w, Toggle { active, busy: old(self).toggle_of(w).busy }),
    {
        let busy = match w {
            Watch::Climate => self.climate_notify.busy,
            Watch::Charging => self.charging_notify.busy,
        };
        self.set_toggle(w, Toggle { active, busy });
    }

    /// A notification switch was pressed; returns whether it was on.
    pub fn press_notify(&mut self, w: Watch) -> (was_active: bool)
        ensures
            was_active == old(self).toggle_of(w).active,
            *final(self) == old(self).with_toggle(w, Toggle { active: was_active, busy: true }),
    {
        let active = match w {
            Watch::Climate => self.climate_notify.active,
            Watch::Charging => self.charging_notify.active,
        };
        self.set_toggle(w, Toggle { active, busy: true });
        active
    }

    /// The server answered a notification switch pressed while it was
    /// `was_active`: when it went through the switch flips.
    pub fn on_notify_reply(&mut self, w: Watch, was_active: bool, reply: NotifyReply)
        ensures
            *final(self) == (VehicleControls {
                command_result: final(self).command_result,
                ..old(self).with_toggle(w, Toggle {
                    active: if reply is Done { !was_active } else { old(self).toggle_of(w).active },
                    busy: false,
                })
            }),
            text_opt(final(self).command_result) == Some(notify_reply_text(w, was_active, reply)),
    {
        let active = match w {
            Watch::Climate => self.climate_notify.active,
            Watch::Charging => self.charging_notify.active,
        };
        let message = match reply {
            NotifyReply::Done => {
                self.set_toggle(w, Toggle { active: !was_active, busy: false });
                owned(
                    match w {
                        Watch::Climate => if was_active {
                            "Climate notification cancelled"
                        } else {
                            "You'll be notified when your car is ready to drive"
                        },
                        Watch::Charging => if was_active {
                            "Charging notification cancelled"
                        } else {
                            "You'll be notified when charging completes"
                        },
                    },
                )
            },
            NotifyReply::Refused => {
                self.set_toggle(w, Toggle { active, busy: false });
                owned("Failed to update notification")
            },
            NotifyReply::Unreachable(e) => {
                self.set_toggle(w, Toggle { active, busy: false });
                joined("Error: ", e.as_str())
            },
        };
        self.command_result = Some(message);
    }

    /// The charge limit slider opens at the current limit.
    pub fn start_limit_edit(&mut self, limit: i32)
        ensures
            *final(self) == (VehicleControls { limit_input: limit, limit_editing: true, ..*old(self) }),
    {
        self.limit_input = limit;
        self.limit_editing = true;
    }

    /// The slider moved: its value is kept when it reads as a whole number.
    pub fn set_limit_input(&mut self, text: &str)
        ensures
            *final(self) == (VehicleControls {
                limit_input: match crate::text::parsed_i32(text@) {
                    Some(v) => v,
                    None => old(self).limit_input,
                },
                ..*old(self)
            }),
    {
        if let Some(v) = crate::text::parse_i32(text) {
            self.limit_input = v;
        }
    }

    /// The slider closes without saving.
    pub fn cancel_limit_edit(&mut self)
        ensures
            *final(self) == (VehicleControls { limit_editing: false, ..*old(self) }),
    {
        self.limit_editing = false;
    }

    /// Save was pressed: returns the limit to send.
    pub fn press_save_limit(&mut self) -> (percent: i32)
        ensures
            percent == old(self).limit_input,
            *final(self) == (VehicleControls { limit_saving: true, ..*old(self) }),
    {
        self.limit_saving = true;
        self.limit_input
    }

    /// The server answered a new charge limit: when it was taken the slider
    /// closes and the limit shows it.
    pub fn on_limit_reply(&mut self, percent: i32, ok: bool)
        ensures
            *final(self) == (VehicleControls {
                status: if ok { VehicleStatus { charge_limit: Some(percent), ..old(self).status } } else { old(self).status },
                limit_editing: if ok { false } else { old(self).limit_editing },
                limit_saving: false,
                command_result: final(self).command_result,
                ..*old(self)
            }),
            text_opt(final(self).command_result) == Some(limit_text_of(percent as int, ok)),
    {
        if ok {
            self.status.charge_limit = Some(percent);
            self.limit_editing = false;
            let mut v = chars_of("Charge limit set to ");
            let d = dec_int_chars(percent as i64);
            extend_chars(&mut v, d.as_slice());
            v.push('%');
            self.command_result = Some(string_of(v.as_slice()));
        } else {
            self.command_result = Some(owned("Failed to set charge limit"));
        }
        self.limit_saving = false;
    }
}

// ---------------------------------------------------------------------------
// Laws
// ---------------------------------------------------------------------------

/// Once the lock button's command went through, the button sends the other
/// command: it unlocks what it locked and locks what it unlocked.
pub proof fn law_lock_button_alternates(st: VehicleStatus)
    ensures
        lock_command_of(succeeded(st, lock_command_of(st.is_locked)).is_locked) != lock_command_of(st.is_locked),
{
}

/// Once the climate button's command went through, the button sends the
/// other command.
pub proof fn law_climate_button_alternates(st: VehicleStatus)
    ensures
        ({
            let c = climate_command_of(st.climate_on, st.front_defroster_on, st.rear_defroster_on);
            let after = succeeded(st, c);
            (climate_command_of(after.climate_on, after.front_defroster_on, after.rear_defroster_on) == Command::ClimateOff)
                != (c == Command::ClimateOff)
        }),
{
}

/// Once the defrost button's command went through, the button sends the
/// other command.
pub proof fn law_defrost_button_alternates(st: VehicleStatus)
    ensures
        ({
            let c = defrost_command_of(st.front_defroster_on, st.rear_defroster_on);
            let after = succeeded(st, c);
            defrost_command_of(after.front_defroster_on, after.rear_defroster_on) != c
        }),
{
}

/// A remote start countdown of `s` seconds shows every second from `s` down to
/// 1 and then ends.
pub proof fn law_countdown_runs_out(s: u32, k: nat)
    requires
        s > 0,
        k <= s,
    ensures
        k < s ==> after_seconds(Some(s), k) == Some((s - k) as u32),
        k == s ==> after_seconds(Some(s), k) is None,
    decreases k,
{
    if k > 0 {
        law_countdown_runs_out(s, (k - 1) as nat);
    }
}

/// From any count below the limit, the timer makes one fetch per visible
/// tick until the count would reach the limit; the tick after the last of
/// them pauses the refreshes, and paused they stay, with no more fetches.
pub proof fn law_refreshes_pause_at_limit(p: VehicleControls, n: nat)
    requires
        p.refresh_count < REFRESH_LIMIT,
        !p.auto_refresh_paused,
    ensures
        p.refresh_count + n < REFRESH_LIMIT ==> visible_ticks(p, n).refresh_count == p.refresh_count + n
            && !visible_ticks(p, n).auto_refresh_paused,
        p.refresh_count + n + 1 < REFRESH_LIMIT <==> refresh_step(visible_ticks(p, n), true).1,
        p.refresh_count + n >= REFRESH_LIMIT ==> visible_ticks(p, n).auto_refresh_paused
            && visible_ticks(p, n).refresh_count == REFRESH_LIMIT - 1,
    decreases n,
{
    if n > 0 {
        law_refreshes_pause_at_limit(p, (n - 1) as nat);
    }
}

/// How many of `n` visible timer ticks fetch a reading.
pub open spec fn visible_fetches(p: VehicleControls, n: nat) -> nat
    decreases n,
{
    if n == 0 {
        0
    } else {
        visible_fetches(p, (n - 1) as nat) + if refresh_step(visible_ticks(p, (n - 1) as nat), true).1 { 1nat } else { 0nat }
    }
}

/// Over `n` visible ticks from a count `c` below the limit (after a manual
/// refresh, `c` is 0), the timer fetches min(n, 59 - c) readings: at most
/// 59 in all, then none until the user refreshes.
pub proof fn law_refresh_fetch_count(p: VehicleControls, n: nat)
    requires
        p.refresh_count < REFRESH_LIMIT,
        !p.auto_refresh_paused,
    ensures
        visible_fetches(p, n) == if n <= REFRESH_LIMIT - 1 - p.refresh_count {
            n as int
        } else {
            REFRESH_LIMIT - 1 - p.refresh_count
        },
    decreases n,
{
    if n > 0 {
        law_refresh_fetch_count(p, (n - 1) as nat);
        law_refreshes_pause_at_limit(p, (n - 1) as nat);
    }
}

} // verus!
