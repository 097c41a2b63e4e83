//! The interactive configuration editor: a state machine that the console
//! drives one input line at a time.
use vstd::prelude::*;
use crate::config::{MAX_BUTTONS, buttons_model, opt_text, AppConfig, ButtonModel, ConfigModel, PresenceButton, PresenceModel};
use crate::text::{lowercase, to_lowercase, trim, trimmed};

verus! {

/// A text field of the configuration that the editor sets from one line.
#[derive(Debug, Clone, Copy, PartialEq, Eq, Structural)]
pub enum TextField {
    ClientId,
    Details,
    State,
    LargeImage,
    LargeText,
    SmallImage,
    SmallText,
}

/// An entry of the editor's main menu.
#[derive(Debug, Clone, Copy, PartialEq, Eq, Structural)]
pub enum MenuItem {
    /// Entries 1 to 7: set a text field.
    Edit(TextField),
    /// Entry 8: the button submenu.
    Buttons,
    /// Entry 9: save and go back to the dashboard.
    Save,
}

/// An answer to the button submenu.
#[derive(Debug, Clone, Copy, PartialEq, Eq, Structural)]
pub enum ButtonAction {
    /// `c`: remove every button.
    Clear,
    /// `a`: add a button.
    Add,
    /// Anything else: back to the menu.
    Back,
}

/// Where the editor stands: what the next input line answers.
#[derive(Debug, Clone, PartialEq, Eq)]
pub enum EditorState {
    /// The main menu is shown and an option is awaited.
    Menu,
    /// The new value of a text field is awaited.
    EnterValue(TextField),
    /// The button submenu is shown: clear, add or back.
    ButtonsChoice,
    /// The label of a new button is awaited.
    ButtonLabel,
    /// The URL of a new button with this label is awaited.
    ButtonUrl(String),
}

/// Model of an [`EditorState`].
pub enum EditorModel {
    Menu,
    EnterValue(TextField),
    ButtonsChoice,
    ButtonLabel,
    ButtonUrl(Seq<char>),
}

impl View for EditorState {
    type V = EditorModel;

    open spec fn view(&self) -> EditorModel {
        match self {
            EditorState::Menu => EditorModel::Menu,
            EditorState::EnterValue(f) => EditorModel::EnterValue(*f),
            EditorState::ButtonsChoice => EditorModel::ButtonsChoice,
            EditorState::ButtonLabel => EditorModel::ButtonLabel,
            EditorState::ButtonUrl(l) => EditorModel::ButtonUrl(l@),
        }
    }
}

/// What the console does after a step of the editor.
#[derive(Debug, Clone, Copy, PartialEq, Eq, Structural)]
pub enum EditorEffect {
    /// Show the prompt of the new state and read the next line.
    Continue,
    /// Tell that no more than two buttons are allowed, wait, and show the menu again.
    ButtonLimitReached,
    /// Save the configuration and leave the editor.
    SaveAndClose,
    /// Leave the editor without saving.
    Close,
}

/// The menu entry that a trimmed answer selects, if any.
pub open spec fn menu_item(c: Seq<char>) -> Option<MenuItem> {
    if c == "1"@ {
        Some(MenuItem::Edit(TextField::ClientId))
    } else if c == "2"@ {
        Some(MenuItem::Edit(TextField::Details))
    } else if c == "3"@ {
        Some(MenuItem::Edit(TextField::State))
    } else if c == "4"@ {
        Some(MenuItem::Edit(TextField::LargeImage))
    } else if c == "5"@ {
        Some(MenuItem::Edit(TextField::LargeText))
    } else if c == "6"@ {
        Some(MenuItem::Edit(TextField::SmallImage))
    } else if c == "7"@ {
        Some(MenuItem::Edit(TextField::SmallText))
    } else if c == "8"@ {
        Some(MenuItem::Buttons)
    } else if c == "9"@ {
        Some(MenuItem::Save)
    } else {
        None
    }
}

/// The button action that a lower-cased, trimmed answer selects.
pub open spec fn button_action(c: Seq<char>) -> ButtonAction {
    if c == "c"@ {
        ButtonAction::Clear
    } else if c == "a"@ {
        ButtonAction::Add
    } else {
        ButtonAction::Back
    }
}

/// An optional text field's value for an entered text: none when it is empty.
pub open spec fn optional_text(v: Seq<char>) -> Option<Seq<char>> {
    if v.len() == 0 {
        None
    } else {
        Some(v)
    }
}

/// `c` with the field `f` set from the trimmed text `v`.
pub open spec fn set_field(c: ConfigModel, f: TextField, v: Seq<char>) -> ConfigModel {
    let p = c.presence;
    match f {
        TextField::ClientId => ConfigModel { client_id: v, presence: p },
        TextField::Details => ConfigModel {
            client_id: c.client_id,
            presence: PresenceModel { details: optional_text(v), ..p },
        },
        TextField::State => ConfigModel {
            client_id: c.client_id,
            presence: PresenceModel { state: optional_text(v), ..p },
        },
        TextField::LargeImage => ConfigModel {
            client_id: c.client_id,
            presence: PresenceModel { large_image: optional_text(v), ..p },
        },
        TextField::LargeText => ConfigModel {
            client_id: c.client_id,
            presence: PresenceModel { large_text: optional_text(v), ..p },
        },
        TextField::SmallImage => ConfigModel {
            client_id: c.client_id,
            presence: PresenceModel { small_image: optional_text(v), ..p },
        },
        TextField::SmallText => ConfigModel {
            client_id: c.client_id,
            presence: PresenceModel { small_text: optional_text(v), ..p },
        },
    }
}

/// The buttons of a configuration, none when the field is absent.
pub open spec fn button_list(c: ConfigModel) -> Seq<ButtonModel> {
    match c.presence.buttons {
        Some(b) => b,
        None => Seq::empty(),
    }
}

/// `c` with its button field replaced.
pub open spec fn with_buttons(c: ConfigModel, b: Option<Seq<ButtonModel>>) -> ConfigModel {
    ConfigModel { client_id: c.client_id, presence: PresenceModel { buttons: b, ..c.presence } }
}

/// The answer `lowered` (trimmed and lower-cased) to the button submenu: `c`
/// clears the buttons, `a` asks for a new button's label unless there are
/// already `MAX_BUTTONS`, anything else goes back to the menu.
pub open spec fn button_choice_next(c: ConfigModel, lowered: Seq<char>) -> (
    EditorModel,
    ConfigModel,
    EditorEffect,
) {
    match button_action(lowered) {
        ButtonAction::Clear => (EditorModel::Menu, with_buttons(c, None), EditorEffect::Continue),
        ButtonAction::Add => if button_list(c).len() >= MAX_BUTTONS {
            (EditorModel::Menu, c, EditorEffect::ButtonLimitReached)
        } else {
            (EditorModel::ButtonLabel, c, EditorEffect::Continue)
        },
        ButtonAction::Back => (EditorModel::Menu, c, EditorEffect::Continue),
    }
}

/// One step of the editor: the state it goes to, the configuration it leaves and
/// what the console does, for an input line (`None`: the line could not be read;
/// outside the main menu that counts as an empty line).
pub open spec fn editor_next(s: EditorModel, c: ConfigModel, input: Option<Seq<char>>) -> (
    EditorModel,
    ConfigModel,
    EditorEffect,
) {
    let line = match input {
        Some(l) => l,
        None => Seq::empty(),
    };
    match s {
        EditorModel::Menu => match input {
            None => (EditorModel::Menu, c, EditorEffect::Close),
            Some(l) => match menu_item(trimmed(l)) {
                Some(MenuItem::Save) => (EditorModel::Menu, c, EditorEffect::SaveAndClose),
                Some(MenuItem::Edit(f)) => (EditorModel::EnterValue(f), c, EditorEffect::Continue),
                Some(MenuItem::Buttons) => (EditorModel::ButtonsChoice, c, EditorEffect::Continue),
                None => (EditorModel::Menu, c, EditorEffect::Continue),
            },
        },
        EditorModel::EnterValue(f) => (
            EditorModel::Menu,
            set_field(c, f, trimmed(line)),
            EditorEffect::Continue,
        ),
        EditorModel::ButtonsChoice => button_choice_next(c, lowercase(trimmed(line))),
        EditorModel::ButtonLabel => (
            EditorModel::ButtonUrl(trimmed(line)),
            c,
            EditorEffect::Continue,
        ),
        EditorModel::ButtonUrl(label) => (
            EditorModel::Menu,
            with_buttons(
                c,
                Some(button_list(c).push(ButtonModel { label, url: trimmed(line) })),
            ),
            EditorEffect::Continue,
        ),
    }
}


/// The states that wait for a new button's label or URL are reached only while
/// the configuration has fewer than `MAX_BUTTONS` buttons.
pub open spec fn editor_consistent(s: EditorModel, c: ConfigModel) -> bool {
    (s is ButtonLabel || s is ButtonUrl) ==> button_list(c).len() < MAX_BUTTONS
}

/// The editor opens on its main menu, in a consistent state.
pub proof fn lemma_editor_opens_consistent(c: ConfigModel)
    ensures
        editor_consistent(EditorModel::Menu, c),
{
}

/// Every step keeps the editor consistent, and the editor never brings the
/// configuration to more than `MAX_BUTTONS` buttons: a step that adds a button
/// leaves at most that many.
pub proof fn lemma_editor_button_limit(s: EditorModel, c: ConfigModel, input: Option<Seq<char>>)
    requires
        editor_consistent(s, c),
    ensures
        editor_consistent(editor_next(s, c, input).0, editor_next(s, c, input).1),
        button_list(editor_next(s, c, input).1).len() > button_list(c).len() ==> button_list(
            editor_next(s, c, input).1,
        ).len() <= MAX_BUTTONS,
{
}

/// The configuration is saved only from the main menu on the answer `9`, the
/// editor is left without saving only when the menu answer cannot be read, and
/// neither of them, nor a refused button, changes the configuration.
pub proof fn lemma_editor_exits(s: EditorModel, c: ConfigModel, input: Option<Seq<char>>)
    ensures
        editor_next(s, c, input).2 == EditorEffect::SaveAndClose ==> {
            &&& s is Menu
            &&& input is Some
            &&& trimmed(input->0) == "9"@
        },
        editor_next(s, c, input).2 == EditorEffect::Close ==> s is Menu && input is None,
        editor_next(s, c, input).2 != EditorEffect::Continue ==> editor_next(s, c, input).1 == c,
{
}

/// The presence settings other than the text field `f` agree in `p` and `q`.
pub open spec fn agrees_except(p: PresenceModel, q: PresenceModel, f: TextField) -> bool {
    &&& (f != TextField::Details ==> p.details == q.details)
    &&& (f != TextField::State ==> p.state == q.state)
    &&& (f != TextField::LargeImage ==> p.large_image == q.large_image)
    &&& (f != TextField::LargeText ==> p.large_text == q.large_text)
    &&& (f != TextField::SmallImage ==> p.small_image == q.small_image)
    &&& (f != TextField::SmallText ==> p.small_text == q.small_text)
    &&& p.start_timestamp == q.start_timestamp
    &&& p.buttons == q.buttons
}

/// Entering a value for a field sets that field, and only it, from the trimmed
/// line: the client id to the text itself, an optional field to the text or to
/// none when the text is empty; the editor then goes back to its menu.
pub proof fn lemma_enter_value_sets_only_that_field(
    f: TextField,
    c: ConfigModel,
    input: Option<Seq<char>>,
)
    ensures
        ({
            let (s2, c2, eff) = editor_next(EditorModel::EnterValue(f), c, input);
            let v = trimmed(
                match input {
                    Some(l) => l,
                    None => Seq::empty(),
                },
            );
            let o = if v.len() == 0 {
                None
            } else {
                Some(v)
            };
            &&& s2 is Menu
            &&& eff == EditorEffect::Continue
            &&& agrees_except(c2.presence, c.presence, f)
            &&& f == TextField::ClientId ==> c2.client_id == v
            &&& f != TextField::ClientId ==> c2.client_id == c.client_id
            &&& f == TextField::Details ==> c2.presence.details == o
            &&& f == TextField::State ==> c2.presence.state == o
            &&& f == TextField::LargeImage ==> c2.presence.large_image == o
            &&& f == TextField::LargeText ==> c2.presence.large_text == o
            &&& f == TextField::SmallImage ==> c2.presence.small_image == o
            &&& f == TextField::SmallText ==> c2.presence.small_text == o
        }),
{
}

/// The buttons change only in two ways: the button submenu clears them all or
/// leaves them, and the URL of a new button appends that button, with the label
/// entered before and the trimmed URL, after the existing ones, which stay as
/// they were. Nothing but the buttons changes in those steps.
pub proof fn lemma_buttons_change_only_by_clear_or_append(
    s: EditorModel,
    c: ConfigModel,
    input: Option<Seq<char>>,
)
    ensures
        ({
            let c2 = editor_next(s, c, input).1;
            let line = match input {
                Some(l) => l,
                None => Seq::empty(),
            };
            &&& !(s is ButtonsChoice) && !(s is ButtonUrl) && !(s is EnterValue) ==> c2 == c
            &&& s is ButtonsChoice ==> (c2 == c || c2 == with_buttons(c, None))
            &&& (s is ButtonsChoice || s is ButtonUrl) ==> {
                &&& c2.client_id == c.client_id
                &&& agrees_except(
                    PresenceModel { buttons: c.presence.buttons, ..c2.presence },
                    c.presence,
                    TextField::ClientId,
                )
            }
            &&& s matches EditorModel::ButtonUrl(label) ==> {
                let before = button_list(c);
                let after = button_list(c2);
                &&& c2.presence.buttons is Some
                &&& after.len() == before.len() + 1
                &&& forall|i: int| 0 <= i < before.len() ==> #[trigger] after[i] == before[i]
                &&& after[before.len() as int].label == label
                &&& after[before.len() as int].url == trimmed(line)
            }
        }),
{
}

/// The menu answers `1` to `9` select, in order: client id, details, state, large
/// image key, large image text, small image key, small image text, the button
/// submenu, and saving.
pub proof fn lemma_menu_numbers()
    ensures
        menu_item("1"@) == Some(MenuItem::Edit(TextField::ClientId)),
        menu_item("2"@) == Some(MenuItem::Edit(TextField::Details)),
        menu_item("3"@) == Some(MenuItem::Edit(TextField::State)),
        menu_item("4"@) == Some(MenuItem::Edit(TextField::LargeImage)),
        menu_item("5"@) == Some(MenuItem::Edit(TextField::LargeText)),
        menu_item("6"@) == Some(MenuItem::Edit(TextField::SmallImage)),
        menu_item("7"@) == Some(MenuItem::Edit(TextField::SmallText)),
        menu_item("8"@) == Some(MenuItem::Buttons),
        menu_item("9"@) == Some(MenuItem::Save),
{
    reveal_strlit("1");
    reveal_strlit("2");
    reveal_strlit("3");
    reveal_strlit("4");
    reveal_strlit("5");
    reveal_strlit("6");
    reveal_strlit("7");
    reveal_strlit("8");
    reveal_strlit("9");
    assert("2"@[0] != "1"@[0]);
    assert("3"@[0] != "1"@[0]);
    assert("3"@[0] != "2"@[0]);
    assert("4"@[0] != "1"@[0]);
    assert("4"@[0] != "2"@[0]);
    assert("4"@[0] != "3"@[0]);
    assert("5"@[0] != "1"@[0]);
    assert("5"@[0] != "2"@[0]);
    assert("5"@[0] != "3"@[0]);
    assert("5"@[0] != "4"@[0]);
    assert("6"@[0] != "1"@[0]);
    assert("6"@[0] != "2"@[0]);
    assert("6"@[0] != "3"@[0]);
    assert("6"@[0] != "4"@[0]);
    assert("6"@[0] != "5"@[0]);
    assert("7"@[0] != "1"@[0]);
    assert("7"@[0] != "2"@[0]);
    assert("7"@[0] != "3"@[0]);
    assert("7"@[0] != "4"@[0]);
    assert("7"@[0] != "5"@[0]);
    assert("7"@[0] != "6"@[0]);
    assert("8"@[0] != "1"@[0]);
    assert("8"@[0] != "2"@[0]);
    assert("8"@[0] != "3"@[0]);
    assert("8"@[0] != "4"@[0]);
    assert("8"@[0] != "5"@[0]);
    assert("8"@[0] != "6"@[0]);
    assert("8"@[0] != "7"@[0]);
    assert("9"@[0] != "1"@[0]);
    assert("9"@[0] != "2"@[0]);
    assert("9"@[0] != "3"@[0]);
    assert("9"@[0] != "4"@[0]);
    assert("9"@[0] != "5"@[0]);
    assert("9"@[0] != "6"@[0]);
    assert("9"@[0] != "7"@[0]);
    assert("9"@[0] != "8"@[0]);
}

/// The button submenu answers `c` and `a` clear and add; any other answer goes
/// back. Clearing removes every button; adding asks for a label unless
/// `MAX_BUTTONS` are already there, and then changes nothing.
pub proof fn lemma_button_answers(c: ConfigModel, lowered: Seq<char>)
    ensures
        button_action("c"@) == ButtonAction::Clear,
        button_action("a"@) == ButtonAction::Add,
        lowered != "c"@ && lowered != "a"@ ==> button_action(lowered) == ButtonAction::Back,
        button_action(lowered) == ButtonAction::Clear ==> button_choice_next(c, lowered).1.presence.buttons is None,
        button_action(lowered) == ButtonAction::Add ==> button_choice_next(c, lowered).1 == c,
        button_action(lowered) == ButtonAction::Add ==> (button_choice_next(c, lowered).0 is ButtonLabel <==> button_list(c).len() < MAX_BUTTONS),
        button_action(lowered) == ButtonAction::Back ==> button_choice_next(c, lowered) == (EditorModel::Menu, c, EditorEffect::Continue),
{
    reveal_strlit("c");
    reveal_strlit("a");
    assert("a"@[0] != "c"@[0]);
}

/// Whether the text of `s` is `lit`.
pub fn text_is(s: &str, lit: &str) -> (b: bool)
    ensures
        b == (s@ == lit@),
{
    let n = s.unicode_len();
    let m = lit.unicode_len();
    if n != m {
        return false;
    }
    let mut i: usize = 0;
    while i < n
        invariant
            i <= n,
            n == s@.len(),
            n == lit@.len(),
            forall|k: int| 0 <= k < i ==> s@[k] == lit@[k],
        decreases n - i,
    {
        if s.get_char(i) != lit.get_char(i) {
            return false;
        }
        i = i + 1;
    }
    assert(s@ =~= lit@);
    true
}

/// The menu entry that the trimmed answer `c` selects, if any.
pub fn parse_menu_item(c: &str) -> (r: Option<MenuItem>)
    ensures
        r == menu_item(c@),
{
    if text_is(c, "1") {
        Some(MenuItem::Edit(TextField::ClientId))
    } else if text_is(c, "2") {
        Some(MenuItem::Edit(TextField::Details))
    } else if text_is(c, "3") {
        Some(MenuItem::Edit(TextField::State))
    } else if text_is(c, "4") {
        Some(MenuItem::Edit(TextField::LargeImage))
    } else if text_is(c, "5") {
        Some(MenuItem::Edit(TextField::LargeText))
    } else if text_is(c, "6") {
        Some(MenuItem::Edit(TextField::SmallImage))
    } else if text_is(c, "7") {
        Some(MenuItem::Edit(TextField::SmallText))
    } else if text_is(c, "8") {
        Some(MenuItem::Buttons)
    } else if text_is(c, "9") {
        Some(MenuItem::Save)
    } else {
        None
    }
}

/// The button action that the lower-cased, trimmed answer `c` selects.
pub fn parse_button_action(c: &str) -> (r: ButtonAction)
    ensures
        r == button_action(c@),
{
    if text_is(c, "c") {
        ButtonAction::Clear
    } else if text_is(c, "a") {
        ButtonAction::Add
    } else {
        ButtonAction::Back
    }
}

/// The value an optional field takes for the trimmed text `v`.
pub fn optional_field(v: String) -> (r: Option<String>)
    ensures
        opt_text(r) == optional_text(v@),
{
    if v.unicode_len() == 0 {
        None
    } else {
        Some(v)
    }
}

/// Sets the field `f` of `config` from the trimmed text `v`.
pub fn set_text_field(config: &mut AppConfig, f: TextField, v: String)
    ensures
        final(config)@ == set_field(old(config)@, f, v@),
{
    match f {
        TextField::ClientId => {
            config.client_id = v;
        },
        TextField::Details => {
            config.presence.details = optional_field(v);
        },
        TextField::State => {
            config.presence.state = optional_field(v);
        },
        TextField::LargeImage => {
            config.presence.large_image = optional_field(v);
        },
        TextField::LargeText => {
            config.presence.large_text = optional_field(v);
        },
        TextField::SmallImage => {
            config.presence.small_image = optional_field(v);
        },
        TextField::SmallText => {
            config.presence.small_text = optional_field(v);
        },
    }
}

/// Applies the answer `lowered` (trimmed and lower-cased) to the button submenu
/// to `config`; returns the next state and what the console does.
pub fn answer_button_choice(config: &mut AppConfig, lowered: &str) -> (r: (
    EditorState,
    EditorEffect,
))
    ensures
        (r.0@, final(config)@, r.1) == button_choice_next(old(config)@, lowered@),
{
    match parse_button_action(lowered) {
        ButtonAction::Clear => {
            config.presence.buttons = None;
            (EditorState::Menu, EditorEffect::Continue)
        },
        ButtonAction::Add => {
            let count = match &config.presence.buttons {
                Some(b) => b.len(),
                None => 0,
            };
            if count >= MAX_BUTTONS {
                (EditorState::Menu, EditorEffect::ButtonLimitReached)
            } else {
                (EditorState::ButtonLabel, EditorEffect::Continue)
            }
        },
        ButtonAction::Back => (EditorState::Menu, EditorEffect::Continue),
    }
}

/// Runs one step of the editor on the input line `input` (`None`: it could not
/// be read), updating `config`; returns the next state and what the console does.
pub fn editor_step(state: EditorState, config: &mut AppConfig, input: Option<String>) -> (r: (
    EditorState,
    EditorEffect,
))
    ensures
        (r.0@, final(config)@, r.1) == editor_next(state@, old(config)@, opt_text(input)),
{
    let missing = input.is_none();
    let line = match input {
        Some(l) => l,
        None => String::new(),
    };
    match state {
        EditorState::Menu => {
            if missing {
                return (EditorState::Menu, EditorEffect::Close);
            }
            let c = trim(line.as_str());
            match parse_menu_item(c.as_str()) {
                Some(MenuItem::Save) => (EditorState::Menu, EditorEffect::SaveAndClose),
                Some(MenuItem::Edit(f)) => (EditorState::EnterValue(f), EditorEffect::Continue),
                Some(MenuItem::Buttons) => (EditorState::ButtonsChoice, EditorEffect::Continue),
                None => (EditorState::Menu, EditorEffect::Continue),
            }
        },
        EditorState::EnterValue(f) => {
            let v = trim(line.as_str());
            set_text_field(config, f, v);
            (EditorState::Menu, EditorEffect::Continue)
        },
        EditorState::ButtonsChoice => {
            let c = trim(line.as_str());
            let lowered = to_lowercase(c.as_str());
            answer_button_choice(config, lowered.as_str())
        },
        EditorState::ButtonLabel => (EditorState::ButtonUrl(trim(line.as_str())), EditorEffect::Continue),
        EditorState::ButtonUrl(label) => {
            let url = trim(line.as_str());
            let mut list = match config.presence.buttons.take() {
                Some(b) => b,
                None => Vec::new(),
            };
            let ghost before = list@;
            list.push(PresenceButton { label, url });
            proof {
                assert(buttons_model(list@) =~= buttons_model(before).push(
                    ButtonModel { label: label@, url: url@ },
                ));
            }
            config.presence.buttons = Some(list);
            (EditorState::Menu, EditorEffect::Continue)
        },
    }
}

} // verus!
