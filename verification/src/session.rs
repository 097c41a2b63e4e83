//! The decisions of the main loop: a state machine from the current state and
//! an event to the next state and a command that the console carries out.
use vstd::prelude::*;
use crate::config::{opt_text, AppConfig, ConfigModel};
use crate::status::ConnectionStatus;
use crate::text::join;

verus! {

/// Seconds (ticks, one a second) from a failed connection to the next attempt.
pub const RECONNECT_DELAY_SECS: u64 = 5;

/// Seconds after which the presence is sent again while connected.
pub const ACTIVITY_REFRESH_SECS: u64 = 15;

/// A key press, as far as the loop reads it.
#[derive(Debug, Clone, Copy, PartialEq, Eq, Structural)]
pub struct KeyInput {
    /// The character of the key, if it is a character key.
    pub ch: Option<char>,
    /// Whether Control was held.
    pub ctrl: bool,
}

/// What the loop reacts to.
#[derive(Debug, Clone, PartialEq, Eq)]
pub enum Event {
    /// The configuration file changed and was read again.
    ConfigReloaded(AppConfig),
    /// The configuration file changed but could not be read; the error's text.
    ConfigReloadFailed(String),
    /// A second has passed; whole seconds since the presence was last sent.
    Tick { secs_since_update: u64 },
    /// The connection attempt that `Command::Connect` asked for succeeded.
    ConnectSucceeded,
    /// The connection attempt failed; the error's text.
    ConnectFailed(String),
    /// The presence that `Command::SendActivity` asked for was sent.
    ActivitySent,
    /// Sending the presence failed; the error's text.
    ActivityFailed(String),
    /// A key was pressed.
    Key(KeyInput),
    /// The editor was left; the configuration it leaves.
    EditorClosed(AppConfig),
    /// The application is asked to stop.
    Exit,
}

/// What the console does after a step.
#[derive(Debug, Clone, Copy, PartialEq, Eq, Structural)]
pub enum Command {
    /// Nothing but drawing the dashboard again.
    Idle,
    /// Close the client and forget it (the client id changed).
    CloseClient,
    /// Draw the dashboard, create a client for the configured id and connect it;
    /// answer with `ConnectSucceeded` or `ConnectFailed`.
    Connect,
    /// Build the presence from the configuration and send it; answer with
    /// `ActivitySent` or `ActivityFailed`.
    SendActivity,
    /// Forget the client without closing it (sending failed).
    DropClient,
    /// Restart the clock of the last presence update.
    RestartClock,
    /// Queue an `Exit` event.
    QueueExit,
    /// Open the configuration editor; answer with `EditorClosed`.
    OpenEditor,
    /// Clear the presence, close the client, clear the screen, say goodbye and stop.
    Shutdown,
}

/// The state the loop keeps.
#[derive(Debug, Clone, PartialEq, Eq)]
pub struct Session {
    pub config: AppConfig,
    pub status: ConnectionStatus,
    /// The last error, shown on the dashboard.
    pub error_msg: Option<String>,
    /// Ticks left before the next connection attempt.
    pub reconnect_timer: u64,
    /// Whether the presence must be sent at the next tick while connected.
    pub force_update: bool,
}

/// Model of a [`Session`].
#[verifier::ext_equal]
pub struct SessionModel {
    pub config: ConfigModel,
    pub status: ConnectionStatus,
    pub error: Option<Seq<char>>,
    pub timer: u64,
    pub force: bool,
}

/// Model of an [`Event`].
pub enum EventModel {
    ConfigReloaded(ConfigModel),
    ConfigReloadFailed(Seq<char>),
    Tick { secs_since_update: u64 },
    ConnectSucceeded,
    ConnectFailed(Seq<char>),
    ActivitySent,
    ActivityFailed(Seq<char>),
    Key(KeyInput),
    EditorClosed(ConfigModel),
    Exit,
}

impl View for Session {
    type V = SessionModel;

    open spec fn view(&self) -> SessionModel {
        SessionModel {
            config: self.config@,
            status: self.status,
            error: opt_text(self.error_msg),
            timer: self.reconnect_timer,
            force: self.force_update,
        }
    }
}

impl View for Event {
    type V = EventModel;

    open spec fn view(&self) -> EventModel {
        match self {
            Event::ConfigReloaded(c) => EventModel::ConfigReloaded(c@),
            Event::ConfigReloadFailed(m) => EventModel::ConfigReloadFailed(m@),
            Event::Tick { secs_since_update } => EventModel::Tick {
                secs_since_update: *secs_since_update,
            },
            Event::ConnectSucceeded => EventModel::ConnectSucceeded,
            Event::ConnectFailed(m) => EventModel::ConnectFailed(m@),
            Event::ActivitySent => EventModel::ActivitySent,
            Event::ActivityFailed(m) => EventModel::ActivityFailed(m@),
            Event::Key(k) => EventModel::Key(*k),
            Event::EditorClosed(c) => EventModel::EditorClosed(c@),
            Event::Exit => EventModel::Exit,
        }
    }
}

/// The state the loop starts in.
pub open spec fn initial_model(c: ConfigModel) -> SessionModel {
    SessionModel {
        config: c,
        status: ConnectionStatus::Disconnected,
        error: None,
        timer: 0,
        force: true,
    }
}

/// The command a key press asks for.
pub open spec fn key_command(k: KeyInput) -> Command {
    if k.ch == Some('c') && k.ctrl {
        Command::QueueExit
    } else if k.ch == Some('e') || k.ch == Some('E') {
        Command::OpenEditor
    } else {
        Command::Idle
    }
}

/// One step of the loop.
pub open spec fn session_next(s: SessionModel, e: EventModel) -> (SessionModel, Command) {
    match e {
        EventModel::ConfigReloaded(c) => {
            let changed = c.client_id != s.config.client_id;
            (
                SessionModel {
                    config: c,
                    status: if changed {
                        ConnectionStatus::Disconnected
                    } else {
                        s.status
                    },
                    error: None,
                    timer: if changed {
                        0
                    } else {
                        s.timer
                    },
                    force: true,
                },
                if changed {
                    Command::CloseClient
                } else {
                    Command::Idle
                },
            )
        },
        EventModel::ConfigReloadFailed(m) => (
            SessionModel { error: Some("Error reloading config: "@ + m), ..s },
            Command::Idle,
        ),
        EventModel::Tick { secs_since_update } => if s.status != ConnectionStatus::Connected {
            if s.timer > 1 {
                (
                    SessionModel {
                        status: ConnectionStatus::Reconnecting((s.timer - 1) as u64),
                        timer: (s.timer - 1) as u64,
                        ..s
                    },
                    Command::Idle,
                )
            } else {
                (
                    SessionModel { status: ConnectionStatus::Reconnecting(0), timer: 0, ..s },
                    Command::Connect,
                )
            }
        } else if s.force || secs_since_update >= ACTIVITY_REFRESH_SECS {
            (s, Command::SendActivity)
        } else {
            (s, Command::Idle)
        },
        EventModel::ConnectSucceeded => (
            SessionModel { status: ConnectionStatus::Connected, error: None, force: true, ..s },
            Command::RestartClock,
        ),
        EventModel::ConnectFailed(m) => (
            SessionModel {
                status: ConnectionStatus::Reconnecting(RECONNECT_DELAY_SECS),
                error: Some("Error connecting to Discord IPC: "@ + m),
                timer: RECONNECT_DELAY_SECS,
                ..s
            },
            Command::Idle,
        ),
        EventModel::ActivitySent => (
            SessionModel { error: None, force: false, ..s },
            Command::RestartClock,
        ),
        EventModel::ActivityFailed(m) => (
            SessionModel {
                status: ConnectionStatus::Disconnected,
                error: Some("Error updating activity: "@ + m),
                timer: RECONNECT_DELAY_SECS,
                ..s
            },
            Command::DropClient,
        ),
        EventModel::Key(k) => (s, key_command(k)),
        EventModel::EditorClosed(c) => {
            let changed = c.client_id != s.config.client_id;
            (
                SessionModel {
                    config: c,
                    status: if changed {
                        ConnectionStatus::Disconnected
                    } else {
                        s.status
                    },
                    timer: if changed {
                        0
                    } else {
                        s.timer
                    },
                    force: true,
                    ..s
                },
                if changed {
                    Command::CloseClient
                } else {
                    Command::Idle
                },
            )
        },
        EventModel::Exit => (s, Command::Shutdown),
    }
}


/// The countdown never exceeds the reconnection delay, and a `Reconnecting(n)`
/// status shows the countdown itself.
pub open spec fn countdown_consistent(s: SessionModel) -> bool {
    &&& s.timer <= RECONNECT_DELAY_SECS
    &&& (s.status matches ConnectionStatus::Reconnecting(n) ==> n == s.timer)
}

/// The state after `k` ticks that each report `secs` seconds since the last update.
pub open spec fn after_ticks(s: SessionModel, k: nat, secs: u64) -> SessionModel
    decreases k,
{
    if k == 0 {
        s
    } else {
        session_next(after_ticks(s, (k - 1) as nat, secs), EventModel::Tick { secs_since_update: secs }).0
    }
}

/// The loop starts with a consistent countdown.
pub proof fn lemma_initial_countdown_consistent(c: ConfigModel)
    ensures
        countdown_consistent(initial_model(c)),
{
}

/// Every step, whatever the event, keeps the countdown consistent.
pub proof fn lemma_step_keeps_countdown_consistent(s: SessionModel, e: EventModel)
    requires
        countdown_consistent(s),
    ensures
        countdown_consistent(session_next(s, e).0),
{
}

/// A connection is attempted only by a tick, while not connected and once the
/// countdown has run out; the presence is sent only by a tick while connected.
pub proof fn lemma_commands_fit_status(s: SessionModel, e: EventModel)
    ensures
        session_next(s, e).1 == Command::Connect ==> {
            &&& e is Tick
            &&& s.status != ConnectionStatus::Connected
            &&& s.timer <= 1
        },
        session_next(s, e).1 == Command::SendActivity ==> {
            &&& e is Tick
            &&& s.status == ConnectionStatus::Connected
        },
{
}

/// Ticks before the one that attempts a connection, for a countdown of `t`.
pub open spec fn ticks_before_attempt(t: u64) -> nat {
    if t == 0 {
        0
    } else {
        (t - 1) as nat
    }
}

proof fn lemma_countdown_runs(s: SessionModel, j: nat, secs: u64)
    requires
        countdown_consistent(s),
        s.status != ConnectionStatus::Connected,
        j <= ticks_before_attempt(s.timer),
    ensures
        after_ticks(s, j, secs).timer == s.timer - j,
        after_ticks(s, j, secs).status != ConnectionStatus::Connected,
        after_ticks(s, j, secs).config == s.config,
    decreases j,
{
    if j > 0 {
        lemma_countdown_runs(s, (j - 1) as nat, secs);
    }
}

/// While not connected, a countdown of `t` (shown as the seconds left) means: the
/// next `t - 1` ticks attempt nothing and count down, and the tick after them,
/// the `t`-th (the first one when `t` is 0), attempts a connection.
pub proof fn lemma_reconnect_pacing(s: SessionModel, secs: u64)
    requires
        countdown_consistent(s),
        s.status != ConnectionStatus::Connected,
    ensures
        forall|j: nat|
            j < ticks_before_attempt(s.timer) ==> #[trigger] session_next(
                after_ticks(s, j, secs),
                EventModel::Tick { secs_since_update: secs },
            ).1 == Command::Idle,
        forall|j: nat|
            0 < j <= ticks_before_attempt(s.timer) ==> #[trigger] after_ticks(s, j, secs).status
                == ConnectionStatus::Reconnecting((s.timer - j) as u64),
        session_next(
            after_ticks(s, ticks_before_attempt(s.timer), secs),
            EventModel::Tick { secs_since_update: secs },
        ).1 == Command::Connect,
{
    assert forall|j: nat| j < ticks_before_attempt(s.timer) implies #[trigger] session_next(
        after_ticks(s, j, secs),
        EventModel::Tick { secs_since_update: secs },
    ).1 == Command::Idle by {
        lemma_countdown_runs(s, j, secs);
    }
    assert forall|j: nat| 0 < j <= ticks_before_attempt(s.timer) implies #[trigger] after_ticks(
        s,
        j,
        secs,
    ).status == ConnectionStatus::Reconnecting((s.timer - j) as u64) by {
        lemma_countdown_runs(s, (j - 1) as nat, secs);
    }
    lemma_countdown_runs(s, ticks_before_attempt(s.timer), secs);
}

/// After a failed connection attempt the next attempt comes with the
/// `RECONNECT_DELAY_SECS`-th tick, and no tick before it attempts anything.
pub proof fn lemma_retry_after_failed_connect(s: SessionModel, m: Seq<char>, secs: u64)
    ensures
        ({
            let f = session_next(s, EventModel::ConnectFailed(m)).0;
            &&& f.status == ConnectionStatus::Reconnecting(RECONNECT_DELAY_SECS)
            &&& forall|j: nat|
                j < RECONNECT_DELAY_SECS - 1 ==> #[trigger] session_next(
                    after_ticks(f, j, secs),
                    EventModel::Tick { secs_since_update: secs },
                ).1 == Command::Idle
            &&& session_next(
                after_ticks(f, (RECONNECT_DELAY_SECS - 1) as nat, secs),
                EventModel::Tick { secs_since_update: secs },
            ).1 == Command::Connect
        }),
{
    let f = session_next(s, EventModel::ConnectFailed(m)).0;
    lemma_reconnect_pacing(f, secs);
}

/// A new client id, whether from the reloaded file or from the editor, closes
/// the client, leaves the loop disconnected, and the next tick connects with it.
pub proof fn lemma_client_id_change_reconnects(s: SessionModel, c: ConfigModel, secs: u64)
    requires
        c.client_id != s.config.client_id,
    ensures
        session_next(s, EventModel::EditorClosed(c)).1 == Command::CloseClient,
        session_next(s, EventModel::EditorClosed(c)).0.status == ConnectionStatus::Disconnected,
        session_next(s, EventModel::EditorClosed(c)).0.config == c,
        session_next(
            session_next(s, EventModel::EditorClosed(c)).0,
            EventModel::Tick { secs_since_update: secs },
        ).1 == Command::Connect,
        session_next(s, EventModel::ConfigReloaded(c)).1 == Command::CloseClient,
        session_next(s, EventModel::ConfigReloaded(c)).0.status == ConnectionStatus::Disconnected,
        session_next(s, EventModel::ConfigReloaded(c)).0.config == c,
        session_next(
            session_next(s, EventModel::ConfigReloaded(c)).0,
            EventModel::Tick { secs_since_update: secs },
        ).1 == Command::Connect,
{
}

/// After a connection or a reloaded configuration or a closed editor, the next
/// tick while connected sends the presence, however recent the last update.
pub proof fn lemma_changes_are_pushed(s: SessionModel, e: EventModel, secs: u64)
    requires
        e is ConnectSucceeded || e is ConfigReloaded || e is EditorClosed,
        session_next(s, e).0.status == ConnectionStatus::Connected,
    ensures
        session_next(session_next(s, e).0, EventModel::Tick { secs_since_update: secs }).1
            == Command::SendActivity,
{
}

/// An exit request always ends in a shutdown that clears the presence, and
/// Control+C always queues such a request; neither changes the state.
pub proof fn lemma_exit_shuts_down(s: SessionModel, k: KeyInput)
    requires
        k.ch == Some('c'),
        k.ctrl,
    ensures
        session_next(s, EventModel::Exit) == (s, Command::Shutdown),
        session_next(s, EventModel::Key(k)) == (s, Command::QueueExit),
{
}

/// The configuration changes only with a reloaded file or a closed editor, and
/// then becomes exactly the new one, whatever its client id; a successful
/// reload also clears the error. Every other event keeps the configuration.
pub proof fn lemma_config_follows_its_sources(s: SessionModel, c: ConfigModel, e: EventModel)
    ensures
        session_next(s, EventModel::ConfigReloaded(c)).0.config == c,
        session_next(s, EventModel::ConfigReloaded(c)).0.error is None,
        session_next(s, EventModel::ConfigReloaded(c)).0.force,
        session_next(s, EventModel::EditorClosed(c)).0.config == c,
        session_next(s, EventModel::EditorClosed(c)).0.force,
        session_next(s, EventModel::EditorClosed(c)).0.error == s.error,
        !(e is ConfigReloaded) && !(e is EditorClosed) ==> session_next(s, e).0.config == s.config,
{
}

/// What each outcome of the console's work does to the state: a connection makes
/// the status `Connected` and clears the error; a failed one shows its error
/// and starts the countdown; a sent presence clears the error and the forcing;
/// a failed send drops the client, shows its error and starts the countdown.
pub proof fn lemma_outcomes(s: SessionModel, m: Seq<char>)
    ensures
        session_next(s, EventModel::ConnectSucceeded).0.status == ConnectionStatus::Connected,
        session_next(s, EventModel::ConnectSucceeded).0.error is None,
        session_next(s, EventModel::ConnectFailed(m)).0.error == Some(
            "Error connecting to Discord IPC: "@ + m,
        ),
        session_next(s, EventModel::ConnectFailed(m)).0.timer == RECONNECT_DELAY_SECS,
        session_next(s, EventModel::ActivitySent).0.error is None,
        !session_next(s, EventModel::ActivitySent).0.force,
        session_next(s, EventModel::ActivitySent).0.status == s.status,
        session_next(s, EventModel::ActivityFailed(m)) == (
            SessionModel {
                status: ConnectionStatus::Disconnected,
                error: Some("Error updating activity: "@ + m),
                timer: RECONNECT_DELAY_SECS,
                ..s
            },
            Command::DropClient,
        ),
        session_next(s, EventModel::ConfigReloadFailed(m)).0.error == Some(
            "Error reloading config: "@ + m,
        ),
        session_next(s, EventModel::ConfigReloadFailed(m)).0.status == s.status,
{
}

/// Ticks and key presses never touch the configuration or the error. While
/// connected, a tick keeps the state and sends the presence exactly when it is
/// forced or `ACTIVITY_REFRESH_SECS` seconds have passed. A key press keeps the
/// state: Control+C asks to exit, `e` or `E` opens the editor.
pub proof fn lemma_ticks_and_keys(s: SessionModel, secs: u64, k: KeyInput)
    ensures
        session_next(s, EventModel::Tick { secs_since_update: secs }).0.config == s.config,
        session_next(s, EventModel::Tick { secs_since_update: secs }).0.error == s.error,
        s.status == ConnectionStatus::Connected ==> {
            &&& session_next(s, EventModel::Tick { secs_since_update: secs }).0 == s
            &&& (session_next(s, EventModel::Tick { secs_since_update: secs }).1
                == Command::SendActivity) == (s.force || secs >= ACTIVITY_REFRESH_SECS)
        },
        session_next(s, EventModel::Key(k)).0 == s,
        k.ch == Some('c') && k.ctrl ==> session_next(s, EventModel::Key(k)).1 == Command::QueueExit,
        (k.ch == Some('e') || k.ch == Some('E')) ==> session_next(s, EventModel::Key(k)).1
            == Command::OpenEditor,
        !(k.ch == Some('c') && k.ctrl) && !(k.ch == Some('e') || k.ch == Some('E')) ==> session_next(
            s,
            EventModel::Key(k),
        ).1 == Command::Idle,
{
}

/// The command a key press asks for.
pub fn key_command_of(k: KeyInput) -> (c: Command)
    ensures
        c == key_command(k),
{
    if k.ch == Some('c') && k.ctrl {
        Command::QueueExit
    } else if k.ch == Some('e') || k.ch == Some('E') {
        Command::OpenEditor
    } else {
        Command::Idle
    }
}

impl Session {
    /// The state the loop starts in with the configuration `config`: disconnected,
    /// no error, a connection attempt due at the first tick, the presence to be sent.
    pub fn new(config: AppConfig) -> (s: Session)
        ensures
            s@ == initial_model(config@),
    {
        Session {
            config,
            status: ConnectionStatus::Disconnected,
            error_msg: None,
            reconnect_timer: 0,
            force_update: true,
        }
    }

    /// Whether the status is `Connected`.
    pub fn is_connected(&self) -> (b: bool)
        ensures
            b == (self.status == ConnectionStatus::Connected),
    {
        match self.status {
            ConnectionStatus::Connected => true,
            _ => false,
        }
    }

    /// Reacts to `event`: updates the state and returns what the console does.
    pub fn step(&mut self, event: Event) -> (c: Command)
        ensures
            (final(self)@, c) == session_next(old(self)@, event@),
    {
        match event {
            Event::ConfigReloaded(new_config) => {
                let changed = !(new_config.client_id == self.config.client_id);
                self.config = new_config;
                self.error_msg = None;
                self.force_update = true;
                if changed {
                    self.status = ConnectionStatus::Disconnected;
                    self.reconnect_timer = 0;
                    Command::CloseClient
                } else {
                    Command::Idle
                }
            },
            Event::ConfigReloadFailed(m) => {
                self.error_msg = Some(join("Error reloading config: ", m.as_str()));
                Command::Idle
            },
            Event::Tick { secs_since_update } => {
                if !self.is_connected() {
                    if self.reconnect_timer > 1 {
                        self.reconnect_timer = self.reconnect_timer - 1;
                        self.status = ConnectionStatus::Reconnecting(self.reconnect_timer);
                        Command::Idle
                    } else {
                        self.reconnect_timer = 0;
                        self.status = ConnectionStatus::Reconnecting(0);
                        Command::Connect
                    }
                } else if self.force_update || secs_since_update >= ACTIVITY_REFRESH_SECS {
                    Command::SendActivity
                } else {
                    Command::Idle
                }
            },
            Event::ConnectSucceeded => {
                self.status = ConnectionStatus::Connected;
                self.error_msg = None;
                self.force_update = true;
                Command::RestartClock
            },
            Event::ConnectFailed(m) => {
                self.error_msg = Some(join("Error connecting to Discord IPC: ", m.as_str()));
                self.status = ConnectionStatus::Reconnecting(RECONNECT_DELAY_SECS);
                self.reconnect_timer = RECONNECT_DELAY_SECS;
                Command::Idle
            },
            Event::ActivitySent => {
                self.error_msg = None;
                self.force_update = false;
                Command::RestartClock
            },
            Event::ActivityFailed(m) => {
                self.error_msg = Some(join("Error updating activity: ", m.as_str()));
                self.status = ConnectionStatus::Disconnected;
                self.reconnect_timer = RECONNECT_DELAY_SECS;
                Command::DropClient
            },
            Event::Key(k) => key_command_of(k),
            Event::EditorClosed(new_config) => {
                let changed = !(new_config.client_id == self.config.client_id);
                self.config = new_config;
                self.force_update = true;
                if changed {
                    self.status = ConnectionStatus::Disconnected;
                    self.reconnect_timer = 0;
                    Command::CloseClient
                } else {
                    Command::Idle
                }
            },
            Event::Exit => Command::Shutdown,
        }
    }
}

} // verus!
