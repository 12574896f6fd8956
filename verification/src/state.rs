//! The consumer's state and its transitions: one message in, one new state
//! and at most one follow-up task out.

use crate::settings::{
    lemma_rotated, lemma_scaled, rotated, scaled, view_valid, Handler, SettingsView,
};
use crate::status::{BridgeView, ServerStatus, Status, StatusBridge};
use vstd::prelude::*;

verus! {

/// How far a rotate button turns a device, in degrees.
pub const ROTATE_STEP: i32 = 90;

/// Number of values that the counter of the searching indicator cycles
/// through.
pub const SEARCH_DOT_STATES: usize = 4;

/// Interval of the fast timer, which makes the consumer look at the bridge,
/// in milliseconds.
pub const TICK_MILLIS: u64 = 50;

/// Interval of the slow timer, which advances the searching indicator, in
/// milliseconds.
pub const DOT_MILLIS: u64 = 500;

/// Outcome of a check of the third-party controller blacklist.
#[derive(Clone, Debug, PartialEq, Eq)]
pub struct BlacklistResult {
    /// Text of the banner; no banner is shown while it is empty.
    pub info: String,
    /// Whether the banner offers to fix the blacklist.
    pub fix_button: bool,
}

/// A blacklist outcome as contracts see it.
pub ghost struct BlacklistView {
    /// Text of the banner.
    pub info: Seq<char>,
    /// Whether the banner offers to fix the blacklist.
    pub fix_button: bool,
}

impl View for BlacklistResult {
    type V = BlacklistView;

    open spec fn view(&self) -> BlacklistView {
        BlacklistView { info: self.info@, fix_button: self.fix_button }
    }
}

impl BlacklistResult {
    /// A banner that only informs.
    pub fn info(text: &str) -> (r: Self)
        ensures
            r@ == (BlacklistView { info: text@, fix_button: false }),
    {
        BlacklistResult { info: text.to_owned(), fix_button: false }
    }

    /// Whether there is anything to show.
    pub fn visible(&self) -> (r: bool)
        ensures
            r == (self@.info.len() > 0),
    {
        !self.info.as_str().is_empty()
    }
}

/// What can happen to the consumer.
#[derive(Clone, Debug, PartialEq, Eq)]
pub enum Message {
    /// The settings button was pressed.
    SettingsPressed,
    /// The fast timer fired: time to look at the bridge.
    Tick,
    /// The slow timer fired: time to advance the searching indicator.
    Dot,
    /// The server address was edited.
    AddressChange(String),
    /// The version check ended, with the newer version if there is one.
    UpdateFound(Option<String>),
    /// The update button was pressed.
    UpdatePressed,
    /// A blacklist check or fix ended.
    BlacklistChecked(BlacklistResult),
    /// The button that fixes the blacklist was pressed.
    BlacklistFixPressed,
    /// A rotate button of a device was pressed; `true` turns clockwise.
    JoyconRotate(String, bool),
    /// The scale slider of a device was moved, to a value in thousandths.
    JoyconScale(String, i32),
    /// The reset checkbox was toggled.
    SettingsResetToggled(bool),
    /// The checkbox that keeps mounting identifiers was toggled.
    SettingsIdsToggled(bool),
}

/// The one-shot task that a transition asks its caller to start.
#[derive(Clone, Copy, Debug, PartialEq, Eq, Structural)]
pub enum Command {
    /// Nothing to start.
    Nothing,
    /// Install the update that was found.
    Update,
    /// Fix the blacklist, then report with `Message::BlacklistChecked`.
    FixBlacklist,
}

/// The consumer's state.
pub struct MainState {
    /// The device statuses that were last picked up from the bridge.
    pub statuses: Vec<Status>,
    /// Counter of the searching indicator, cycling through `0..4`.
    pub search_dots: usize,
    /// Whether the settings screen is shown in place of the devices.
    pub settings_show: bool,
    /// The server connectivity that was last picked up from the bridge.
    pub server_connected: ServerStatus,
    /// The server address in use since start, for display.
    pub server_address: String,
    /// The configuration store.
    pub settings: Handler,
    /// A newer version, where the version check found one.
    pub update_found: Option<String>,
    /// The blacklist banner.
    pub blacklist_info: BlacklistResult,
}

/// The consumer's state as contracts see it.
pub ghost struct StateView {
    pub statuses: Seq<Status>,
    pub search_dots: int,
    pub settings_show: bool,
    pub server_connected: ServerStatus,
    pub server_address: Seq<char>,
    pub settings: SettingsView,
    pub update_found: Option<Seq<char>>,
    pub blacklist_info: BlacklistView,
}

impl View for MainState {
    type V = StateView;

    open spec fn view(&self) -> StateView {
        StateView {
            statuses: self.statuses@,
            search_dots: self.search_dots as int,
            settings_show: self.settings_show,
            server_connected: self.server_connected,
            server_address: self.server_address@,
            settings: self.settings@,
            update_found: match self.update_found {
                Some(version) => Some(version@),
                None => None,
            },
            blacklist_info: self.blacklist_info@,
        }
    }
}

/// The degrees by which a rotate button turns: a step clockwise or a step
/// back.
pub open spec fn rotate_degrees(clockwise: bool) -> int {
    if clockwise {
        90
    } else {
        -90
    }
}

/// The state that follows `state` on `message`, with `bridge` being what
/// waits in the slots at that moment.
///
/// A tick takes over whatever waits in either slot and keeps the rest; the
/// slow timer advances the counter modulo 4 and touches nothing else; each
/// edit changes the one field of the configuration that it names, through
/// the store's rules.
pub open spec fn next_state(state: StateView, bridge: BridgeView, message: Message) -> StateView {
    match message {
        Message::SettingsPressed => StateView { settings_show: !state.settings_show, ..state },
        Message::Tick => StateView {
            statuses: match bridge.status {
                Some(statuses) => statuses,
                None => state.statuses,
            },
            server_connected: match bridge.server {
                Some(server) => server,
                None => state.server_connected,
            },
            ..state
        },
        Message::Dot => StateView { search_dots: (state.search_dots + 1) % 4, ..state },
        Message::AddressChange(value) => StateView {
            settings: SettingsView { address: value@, ..state.settings },
            ..state
        },
        Message::UpdateFound(version) => StateView {
            update_found: match version {
                Some(version) => Some(version@),
                None => None,
            },
            ..state
        },
        Message::UpdatePressed => StateView { update_found: None, ..state },
        Message::BlacklistChecked(info) => StateView { blacklist_info: info@, ..state },
        Message::BlacklistFixPressed => StateView {
            blacklist_info: BlacklistView {
                info: "Updating steam config file....."@,
                fix_button: false,
            },
            ..state
        },
        Message::JoyconRotate(serial_number, clockwise) => StateView {
            settings: rotated(state.settings, serial_number@, rotate_degrees(clockwise)),
            ..state
        },
        Message::JoyconScale(serial_number, scale) => StateView {
            settings: scaled(state.settings, serial_number@, scale as int),
            ..state
        },
        Message::SettingsResetToggled(value) => StateView {
            settings: SettingsView { send_reset: value, ..state.settings },
            ..state
        },
        Message::SettingsIdsToggled(value) => StateView {
            settings: SettingsView { keep_ids: value, ..state.settings },
            ..state
        },
    }
}

/// The slots after `message`: a tick empties both, nothing else touches
/// them.
pub open spec fn next_bridge(bridge: BridgeView, message: Message) -> BridgeView {
    match message {
        Message::Tick => BridgeView { status: None, server: None },
        _ => bridge,
    }
}

/// The task that `message` asks for.
pub open spec fn command_of(message: Message) -> Command {
    match message {
        Message::UpdatePressed => Command::Update,
        Message::BlacklistFixPressed => Command::FixBlacklist,
        _ => Command::Nothing,
    }
}

/// Whether `message` is an edit of the configuration.
pub open spec fn edits_settings_of(message: Message) -> bool {
    match message {
        Message::AddressChange(_) => true,
        Message::JoyconRotate(_, _) => true,
        Message::JoyconScale(_, _) => true,
        Message::SettingsResetToggled(_) => true,
        Message::SettingsIdsToggled(_) => true,
        _ => false,
    }
}

/// Whether a message is an edit of the configuration, after which the
/// worker is to be handed a new copy.
pub fn edits_settings(message: &Message) -> (r: bool)
    ensures
        r == edits_settings_of(*message),
{
    match message {
        Message::AddressChange(_) => true,
        Message::JoyconRotate(_, _) => true,
        Message::JoyconScale(_, _) => true,
        Message::SettingsResetToggled(_) => true,
        Message::SettingsIdsToggled(_) => true,
        _ => false,
    }
}

impl MainState {
    /// The state at start: no device seen, the server not reached, the
    /// device screen shown, nothing known of updates or the blacklist.
    pub fn new(settings: Handler, server_address: String) -> (r: Self)
        requires
            settings.wf(),
        ensures
            r.settings.wf(),
            r@ == (StateView {
                statuses: Seq::<Status>::empty(),
                search_dots: 0,
                settings_show: false,
                server_connected: ServerStatus::Disconnected,
                server_address: server_address@,
                settings: settings@,
                update_found: None,
                blacklist_info: BlacklistView { info: Seq::<char>::empty(), fix_button: false },
            }),
    {
        MainState {
            statuses: Vec::new(),
            search_dots: 0,
            settings_show: false,
            server_connected: ServerStatus::Disconnected,
            server_address,
            settings,
            update_found: None,
            blacklist_info: BlacklistResult { info: String::new(), fix_button: false },
        }
    }

    /// Applies one message. The new state and the new slots are exactly
    /// `next_state` and `next_bridge` of the old ones, and the result is the
    /// task that the caller is to start.
    pub fn update(&mut self, bridge: &mut StatusBridge, message: Message) -> (r: Command)
        requires
            old(self).settings.wf(),
        ensures
            final(self).settings.wf(),
            final(self)@ == next_state(old(self)@, old(bridge)@, message),
            final(bridge)@ == next_bridge(old(bridge)@, message),
            r == command_of(message),
    {
        match message {
            Message::SettingsPressed => {
                self.settings_show = !self.settings_show;
            },
            Message::Tick => {
                if let Some(statuses) = bridge.poll_status() {
                    self.statuses = statuses;
                }
                if let Some(server) = bridge.poll_server() {
                    self.server_connected = server;
                }
            },
            Message::Dot => {
                self.search_dots = (self.search_dots % SEARCH_DOT_STATES + 1)
                    % SEARCH_DOT_STATES;
            },
            Message::AddressChange(value) => {
                self.settings.set_address(value);
            },
            Message::UpdateFound(version) => {
                self.update_found = version;
            },
            Message::UpdatePressed => {
                self.update_found = None;
                return Command::Update;
            },
            Message::BlacklistChecked(info) => {
                self.blacklist_info = info;
            },
            Message::BlacklistFixPressed => {
                self.blacklist_info = BlacklistResult::info("Updating steam config file.....");
                return Command::FixBlacklist;
            },
            Message::JoyconRotate(serial_number, clockwise) => {
                let degrees: i32 = if clockwise {
                    ROTATE_STEP
                } else {
                    -ROTATE_STEP
                };
                self.settings.joycon_rotation_add(serial_number, degrees);
            },
            Message::JoyconScale(serial_number, scale) => {
                self.settings.joycon_scale_set(serial_number, scale);
            },
            Message::SettingsResetToggled(value) => {
                self.settings.set_send_reset(value);
            },
            Message::SettingsIdsToggled(value) => {
                self.settings.set_keep_ids(value);
            },
        }
        Command::Nothing
    }
}

/// The counter of the searching indicator never leaves `0..4` once a slow
/// tick has passed, and the slow timer changes nothing but that counter.
pub proof fn lemma_dot_only_counts(state: StateView, bridge: BridgeView)
    ensures
        0 <= next_state(state, bridge, Message::Dot).search_dots < 4,
        next_state(state, bridge, Message::Dot) == (StateView {
            search_dots: next_state(state, bridge, Message::Dot).search_dots,
            ..state
        }),
        next_bridge(bridge, Message::Dot) == bridge,
{
}

/// A tick with nothing waiting changes nothing; a tick takes over whatever
/// waits, and the tick after it, with no publish between the two, changes
/// nothing again.
pub proof fn lemma_tick_takes_once(state: StateView, bridge: BridgeView)
    ensures
        bridge.status.is_none() && bridge.server.is_none() ==> next_state(
            state,
            bridge,
            Message::Tick,
        ) == state,
        next_state(
            next_state(state, bridge, Message::Tick),
            next_bridge(bridge, Message::Tick),
            Message::Tick,
        ) == next_state(state, bridge, Message::Tick),
        bridge.status.is_some() ==> next_state(state, bridge, Message::Tick).statuses
            == bridge.status.unwrap(),
        bridge.server.is_some() ==> next_state(state, bridge, Message::Tick).server_connected
            == bridge.server.unwrap(),
{
}

/// No message can bring a stored rotation out of `0..360` or a stored scale
/// factor out of `800..=1200`: a valid configuration stays valid through
/// every transition.
pub proof fn lemma_settings_stay_valid(state: StateView, bridge: BridgeView, message: Message)
    requires
        view_valid(state.settings),
    ensures
        view_valid(next_state(state, bridge, message).settings),
{
    match message {
        Message::JoyconRotate(serial_number, clockwise) => {
            lemma_rotated(state.settings, serial_number@, rotate_degrees(clockwise));
        },
        Message::JoyconScale(serial_number, scale) => {
            lemma_scaled(state.settings, serial_number@, scale as int);
        },
        _ => {
            let after = next_state(state, bridge, message).settings;
            assert(after.joycon == state.settings.joycon);
        },
    }
}

/// A message that is no edit leaves the whole configuration as it was, and
/// an edit leaves everything but the configuration as it was.
pub proof fn lemma_edits_touch_only_settings(
    state: StateView,
    bridge: BridgeView,
    message: Message,
)
    ensures
        !edits_settings_of(message) ==> next_state(state, bridge, message).settings
            == state.settings,
        edits_settings_of(message) ==> next_state(state, bridge, message) == (StateView {
            settings: next_state(state, bridge, message).settings,
            ..state
        }) && next_bridge(bridge, message) == bridge && command_of(message) == Command::Nothing,
{
}

} // verus!
