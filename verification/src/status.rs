//! The connection status and what the dashboard shows.
use vstd::prelude::*;
use crate::config::{buttons_model, copy_buttons, copy_opt, opt_text, AppConfig, ButtonModel, ConfigModel, PresenceButton};
use vstd::arithmetic::div_mod::lemma_fundamental_div_mod_converse;
use crate::text::{decimal, decimal_text, join, two_digit_text, two_digits};

verus! {

/// The state of the link to the Discord client.
#[derive(Debug, Clone, Copy, PartialEq, Eq, Structural)]
pub enum ConnectionStatus {
    Connected,
    Disconnected,
    /// Seconds left before the next connection attempt.
    Reconnecting(u64),
}

/// An image of the presence and its hover text (empty when none is configured).
#[derive(Debug, Clone, PartialEq, Eq)]
pub struct ImageLine {
    pub image: String,
    pub text: String,
}

/// The texts of the dashboard, before colouring.
#[derive(Debug, Clone, PartialEq, Eq)]
pub struct DashboardView {
    pub status: String,
    pub uptime: String,
    pub client_id: String,
    pub details: Option<String>,
    pub state: Option<String>,
    /// Shown only when a large image is configured.
    pub large_image: Option<ImageLine>,
    /// Shown only when a small image is configured.
    pub small_image: Option<ImageLine>,
    /// The buttons; the button section is shown only when this is not empty.
    pub buttons: Vec<PresenceButton>,
    pub error: Option<String>,
}

/// Model of an [`ImageLine`].
#[verifier::ext_equal]
pub struct ImageLineModel {
    pub image: Seq<char>,
    pub text: Seq<char>,
}

/// Model of a [`DashboardView`].
#[verifier::ext_equal]
pub struct DashboardModel {
    pub status: Seq<char>,
    pub uptime: Seq<char>,
    pub client_id: Seq<char>,
    pub details: Option<Seq<char>>,
    pub state: Option<Seq<char>>,
    pub large_image: Option<ImageLineModel>,
    pub small_image: Option<ImageLineModel>,
    pub buttons: Seq<ButtonModel>,
    pub error: Option<Seq<char>>,
}

impl View for ImageLine {
    type V = ImageLineModel;

    open spec fn view(&self) -> ImageLineModel {
        ImageLineModel { image: self.image@, text: self.text@ }
    }
}

impl View for DashboardView {
    type V = DashboardModel;

    open spec fn view(&self) -> DashboardModel {
        DashboardModel {
            status: self.status@,
            uptime: self.uptime@,
            client_id: self.client_id@,
            details: opt_text(self.details),
            state: opt_text(self.state),
            large_image: match self.large_image {
                Some(l) => Some(l@),
                None => None,
            },
            small_image: match self.small_image {
                Some(l) => Some(l@),
                None => None,
            },
            buttons: buttons_model(self.buttons@),
            error: opt_text(self.error),
        }
    }
}

/// The text that names a status on the dashboard.
pub open spec fn status_text(s: ConnectionStatus) -> Seq<char> {
    match s {
        ConnectionStatus::Connected => "CONNECTED"@,
        ConnectionStatus::Disconnected => "DISCONNECTED"@,
        ConnectionStatus::Reconnecting(n) => "RECONNECTING IN "@ + decimal_text(n as nat) + "s..."@,
    }
}

/// An uptime of `secs` seconds as `HH:MM:SS`, each part padded to two digits (the
/// hours may take more).
pub open spec fn uptime_text(secs: nat) -> Seq<char> {
    two_digit_text(secs / 3600) + ":"@ + two_digit_text((secs / 60) % 60) + ":"@ + two_digit_text(
        secs % 60,
    )
}

/// The line of an image: the image and its text, or the empty text; none without image.
pub open spec fn image_line(image: Option<Seq<char>>, text: Option<Seq<char>>) -> Option<
    ImageLineModel,
> {
    match image {
        Some(i) => Some(
            ImageLineModel {
                image: i,
                text: match text {
                    Some(t) => t,
                    None => Seq::empty(),
                },
            },
        ),
        None => None,
    }
}

/// The dashboard for a status, a configuration, an uptime and the last error.
pub open spec fn dashboard_of(
    status: ConnectionStatus,
    c: ConfigModel,
    uptime_secs: nat,
    error: Option<Seq<char>>,
) -> DashboardModel {
    DashboardModel {
        status: status_text(status),
        uptime: uptime_text(uptime_secs),
        client_id: c.client_id,
        details: c.presence.details,
        state: c.presence.state,
        large_image: image_line(c.presence.large_image, c.presence.large_text),
        small_image: image_line(c.presence.small_image, c.presence.small_text),
        buttons: match c.presence.buttons {
            Some(b) => b,
            None => Seq::empty(),
        },
        error,
    }
}

/// An uptime of `h` hours, `m` minutes and `s` seconds (`m` and `s` below 60) is
/// shown as `h:m:s`, each part padded to two digits.
pub proof fn lemma_uptime_parts(h: nat, m: nat, s: nat)
    requires
        m < 60,
        s < 60,
    ensures
        uptime_text(h * 3600 + m * 60 + s) == two_digit_text(h) + ":"@ + two_digit_text(m) + ":"@
            + two_digit_text(s),
{
    let t: int = (h * 3600 + m * 60 + s) as int;
    let q: int = (h * 60 + m) as int;
    assert(t == q * 60 + s) by (nonlinear_arith)
        requires
            t == h * 3600 + m * 60 + s,
            q == h * 60 + m,
    ;
    lemma_fundamental_div_mod_converse(t, 60, q, s as int);
    lemma_fundamental_div_mod_converse(q, 60, h as int, m as int);
    lemma_fundamental_div_mod_converse(t, 3600, h as int, (m * 60 + s) as int);
}

/// The dashboard shows the configuration as it is: its client id, details and
/// state, each configured image with its own hover text (empty when there is
/// none), the configured buttons in their order with each label and URL kept,
/// and the error it is given.
pub proof fn lemma_dashboard_shows_config(
    status: ConnectionStatus,
    c: ConfigModel,
    uptime_secs: nat,
    error: Option<Seq<char>>,
)
    ensures
        ({
            let d = dashboard_of(status, c, uptime_secs, error);
            &&& d.client_id == c.client_id
            &&& d.details == c.presence.details
            &&& d.state == c.presence.state
            &&& d.error == error
            &&& (d.large_image is Some) == (c.presence.large_image is Some)
            &&& (d.small_image is Some) == (c.presence.small_image is Some)
            &&& c.presence.large_image matches Some(i) ==> d.large_image->0.image == i && (
            c.presence.large_text matches Some(t) ==> d.large_image->0.text == t) && (
            c.presence.large_text is None ==> d.large_image->0.text.len() == 0)
            &&& c.presence.small_image matches Some(i) ==> d.small_image->0.image == i && (
            c.presence.small_text matches Some(t) ==> d.small_image->0.text == t) && (
            c.presence.small_text is None ==> d.small_image->0.text.len() == 0)
            &&& c.presence.buttons is None ==> d.buttons.len() == 0
            &&& c.presence.buttons matches Some(b) ==> {
                &&& d.buttons.len() == b.len()
                &&& forall|i: int|
                    0 <= i < b.len() ==> #[trigger] d.buttons[i].label == b[i].label
                        && d.buttons[i].url == b[i].url
            }
        }),
{
}

/// The text that names `status` on the dashboard.
pub fn status_label(status: ConnectionStatus) -> (r: String)
    ensures
        r@ == status_text(status),
{
    match status {
        ConnectionStatus::Connected => String::from_str("CONNECTED"),
        ConnectionStatus::Disconnected => String::from_str("DISCONNECTED"),
        ConnectionStatus::Reconnecting(n) => {
            let r = join("RECONNECTING IN ", decimal(n).as_str());
            r.concat("s...")
        },
    }
}

/// An uptime of `secs` seconds as `HH:MM:SS`.
pub fn format_uptime(secs: u64) -> (r: String)
    ensures
        r@ == uptime_text(secs as nat),
{
    let seconds = secs % 60;
    let minutes = (secs / 60) % 60;
    let hours = secs / 3600;
    let r = two_digits(hours);
    let r = r.concat(":");
    let r = r.concat(two_digits(minutes).as_str());
    let r = r.concat(":");
    r.concat(two_digits(seconds).as_str())
}

fn image_line_of(image: &Option<String>, text: &Option<String>) -> (r: Option<ImageLine>)
    ensures
        (match r {
            Some(l) => Some(l@),
            None => None,
        }) == image_line(opt_text(*image), opt_text(*text)),
{
    match image {
        Some(i) => Some(
            ImageLine {
                image: i.clone(),
                text: match text {
                    Some(t) => t.clone(),
                    None => String::new(),
                },
            },
        ),
        None => None,
    }
}

/// The texts of the dashboard for `status`, `config`, an uptime of `uptime_secs`
/// seconds and the last error.
pub fn dashboard(
    status: ConnectionStatus,
    config: &AppConfig,
    uptime_secs: u64,
    error_msg: &Option<String>,
) -> (d: DashboardView)
    ensures
        d@ == dashboard_of(status, config@, uptime_secs as nat, opt_text(*error_msg)),
{
    let p = &config.presence;
    DashboardView {
        status: status_label(status),
        uptime: format_uptime(uptime_secs),
        client_id: config.client_id.clone(),
        details: copy_opt(&p.details),
        state: copy_opt(&p.state),
        large_image: image_line_of(&p.large_image, &p.large_text),
        small_image: image_line_of(&p.small_image, &p.small_text),
        buttons: match &p.buttons {
            Some(b) => copy_buttons(b, b.len()),
            None => Vec::new(),
        },
        error: copy_opt(error_msg),
    }
}

} // verus!
