//! Decision logic of a console tool that publishes a Discord Rich Presence
//! status read from a TOML configuration file: the configuration model, the
//! presence built from it, the dashboard texts, the interactive editor and the
//! main loop's state machine.

pub mod activity;
pub mod config;
pub mod editor;
pub mod session;
pub mod status;
pub mod text;
pub mod watch;

pub use activity::{build_activity, ActivityPlan, AssetsPlan};
pub use config::{
    choose_config_path, config_banner_str, config_file_text, default_start_timestamp, AppConfig,
    PresenceButton, PresenceConfig, MAX_BUTTONS,
};
pub use editor::{
    answer_button_choice, editor_step, parse_button_action, parse_menu_item, ButtonAction, EditorEffect, EditorState,
    MenuItem, TextField,
};
pub use session::{
    key_command_of, Command, Event, KeyInput, Session, ACTIVITY_REFRESH_SECS,
    RECONNECT_DELAY_SECS,
};
pub use status::{dashboard, format_uptime, status_label, ConnectionStatus, DashboardView, ImageLine};
pub use text::{decimal, trim, two_digits};
pub use watch::reload_wanted;
