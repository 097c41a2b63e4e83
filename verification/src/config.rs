//! The configuration model: what `config.toml` holds.
use vstd::prelude::*;

verus! {

/// The most buttons Discord shows on a presence.
pub const MAX_BUTTONS: usize = 2;

/// One clickable button attached to the presence.
#[derive(Debug, Clone, PartialEq, Eq)]
pub struct PresenceButton {
    pub label: String,
    pub url: String,
}

/// What the presence shows.
#[derive(Debug, Clone, PartialEq, Eq)]
pub struct PresenceConfig {
    pub state: Option<String>,
    pub details: Option<String>,
    pub large_image: Option<String>,
    pub large_text: Option<String>,
    pub small_image: Option<String>,
    pub small_text: Option<String>,
    pub start_timestamp: bool,
    pub buttons: Option<Vec<PresenceButton>>,
}

/// The whole configuration file.
#[derive(Debug, Clone, PartialEq, Eq)]
pub struct AppConfig {
    pub client_id: String,
    pub presence: PresenceConfig,
}

/// Mathematical model of a [`PresenceButton`].
#[verifier::ext_equal]
pub struct ButtonModel {
    pub label: Seq<char>,
    pub url: Seq<char>,
}

/// Mathematical model of a [`PresenceConfig`].
#[verifier::ext_equal]
pub struct PresenceModel {
    pub state: Option<Seq<char>>,
    pub details: Option<Seq<char>>,
    pub large_image: Option<Seq<char>>,
    pub large_text: Option<Seq<char>>,
    pub small_image: Option<Seq<char>>,
    pub small_text: Option<Seq<char>>,
    pub start_timestamp: bool,
    pub buttons: Option<Seq<ButtonModel>>,
}

/// Mathematical model of an [`AppConfig`].
#[verifier::ext_equal]
pub struct ConfigModel {
    pub client_id: Seq<char>,
    pub presence: PresenceModel,
}

/// The text of an optional string.
pub open spec fn opt_text(o: Option<String>) -> Option<Seq<char>> {
    match o {
        Some(s) => Some(s@),
        None => None,
    }
}

/// The models of a list of buttons.
pub open spec fn buttons_model(v: Seq<PresenceButton>) -> Seq<ButtonModel> {
    v.map_values(|b: PresenceButton| b@)
}

impl View for PresenceButton {
    type V = ButtonModel;

    open spec fn view(&self) -> ButtonModel {
        ButtonModel { label: self.label@, url: self.url@ }
    }
}

impl View for PresenceConfig {
    type V = PresenceModel;

    open spec fn view(&self) -> PresenceModel {
        PresenceModel {
            state: opt_text(self.state),
            details: opt_text(self.details),
            large_image: opt_text(self.large_image),
            large_text: opt_text(self.large_text),
            small_image: opt_text(self.small_image),
            small_text: opt_text(self.small_text),
            start_timestamp: self.start_timestamp,
            buttons: match self.buttons {
                Some(v) => Some(buttons_model(v@)),
                None => None,
            },
        }
    }
}

impl View for AppConfig {
    type V = ConfigModel;

    open spec fn view(&self) -> ConfigModel {
        ConfigModel { client_id: self.client_id@, presence: self.presence@ }
    }
}

/// The value `start_timestamp` takes when the file leaves it out.
pub fn default_start_timestamp() -> (b: bool)
    ensures
        b,
{
    true
}

/// A copy of an optional string.
pub fn copy_opt(o: &Option<String>) -> (r: Option<String>)
    ensures
        opt_text(r) == opt_text(*o),
{
    match o {
        Some(s) => Some(s.clone()),
        None => None,
    }
}

/// The comment that heads the configuration file written on first start.
pub open spec fn config_banner() -> Seq<char> {
    "# Konfiguracja Discord Rich Presence (DURCP)\n# \n# Aby status działał z Twoimi grafikami:\n# 1. Wejdź na https://discord.com/developers/applications\n# 2. Stwórz nową aplikację (nazwa aplikacji będzie nazwą \"gry\" w statusie)\n# 3. Skopiuj \"Application ID\" (Client ID) i wklej go poniżej jako client_id.\n# 4. Przejdź do zakładki \"Rich Presence\" -> \"Art Assets\" i prześlij grafiki.\n# 5. Użyj nazw tych grafik jako large_image i small_image.\n# 6. Zmiany w tym pliku są automatycznie wczytywane przez działającą aplikację!\n\n"@
}

/// The comment that heads the configuration file written on first start.
pub fn config_banner_str() -> (r: &'static str)
    ensures
        r@ == config_banner(),
{
    "# Konfiguracja Discord Rich Presence (DURCP)\n# \n# Aby status działał z Twoimi grafikami:\n# 1. Wejdź na https://discord.com/developers/applications\n# 2. Stwórz nową aplikację (nazwa aplikacji będzie nazwą \"gry\" w statusie)\n# 3. Skopiuj \"Application ID\" (Client ID) i wklej go poniżej jako client_id.\n# 4. Przejdź do zakładki \"Rich Presence\" -> \"Art Assets\" i prześlij grafiki.\n# 5. Użyj nazw tych grafik jako large_image i small_image.\n# 6. Zmiany w tym pliku są automatycznie wczytywane przez działającą aplikację!\n\n"
}

/// The text of the configuration file written on first start: the banner, then
/// `toml`, the configuration in TOML.
pub fn config_file_text(toml: &str) -> (r: String)
    ensures
        r@ == config_banner() + toml@,
{
    String::from_str(config_banner_str()).concat(toml)
}

/// The configuration file to use: the one in the working directory when it
/// exists there, else the one in the user's configuration directory.
pub fn choose_config_path<P>(local: P, local_exists: bool, user: P) -> (r: P)
    ensures
        r == (if local_exists {
            local
        } else {
            user
        }),
{
    if local_exists {
        local
    } else {
        user
    }
}

/// A copy of the first `n` buttons of `v` (all of them if there are fewer).
pub fn copy_buttons(v: &Vec<PresenceButton>, n: usize) -> (r: Vec<PresenceButton>)
    ensures
        buttons_model(r@) == buttons_model(v@).take(
            if v@.len() < n {
                v@.len() as int
            } else {
                n as int
            },
        ),
{
    let end = if v.len() < n {
        v.len()
    } else {
        n
    };
    let mut r: Vec<PresenceButton> = Vec::new();
    let mut i: usize = 0;
    while i < end
        invariant
            i <= end <= v@.len(),
            buttons_model(r@) =~= buttons_model(v@).take(i as int),
        decreases end - i,
    {
        let b = PresenceButton { label: v[i].label.clone(), url: v[i].url.clone() };
        r.push(b);
        assert(buttons_model(v@).take(i + 1) =~= buttons_model(v@).take(i as int).push(v@[i as int]@));
        i = i + 1;
    }
    r
}

/// The model of the configuration written on first start.
pub open spec fn default_config_model() -> ConfigModel {
    ConfigModel {
        client_id: "123456789012345678"@,
        presence: PresenceModel {
            state: Some("Piszę aplikację w Rust"@),
            details: Some("Discord Rich Presence"@),
            large_image: Some("rust"@),
            large_text: Some("Rust Language"@),
            small_image: Some("terminal"@),
            small_text: Some("Konsola"@),
            start_timestamp: true,
            buttons: Some(
                seq![
                    ButtonModel { label: "Odwiedź Rusta"@, url: "https://www.rust-lang.org"@ },
                    ButtonModel { label: "Mój GitHub"@, url: "https://github.com"@ },
                ],
            ),
        },
    }
}

impl Default for AppConfig {
    /// The configuration written on first start: a placeholder client id and a sample presence.
    fn default() -> (c: Self)
        ensures
            c@ == default_config_model(),
    {
        let buttons = vec![
            PresenceButton {
                label: String::from_str("Odwiedź Rusta"),
                url: String::from_str("https://www.rust-lang.org"),
            },
            PresenceButton {
                label: String::from_str("Mój GitHub"),
                url: String::from_str("https://github.com"),
            },
        ];
        let c = AppConfig {
            client_id: String::from_str("123456789012345678"),
            presence: PresenceConfig {
                state: Some(String::from_str("Piszę aplikację w Rust")),
                details: Some(String::from_str("Discord Rich Presence")),
                large_image: Some(String::from_str("rust")),
                large_text: Some(String::from_str("Rust Language")),
                small_image: Some(String::from_str("terminal")),
                small_text: Some(String::from_str("Konsola")),
                start_timestamp: true,
                buttons: Some(buttons),
            },
        };
        assert(buttons_model(c.presence.buttons.unwrap()@) =~= default_config_model().presence.buttons.unwrap());
        c
    }
}

} // verus!
