//! The state of the terminal interface and how keys change it. A key gives
//! the next screen and an effect: quitting, a command to run, or work the
//! program must do (reading the profiles, saving the language, ...) whose
//! result it hands back to one of the `on_*` functions.
use vstd::prelude::*;
use vstd::string::StringExecFns;
use crate::i18n::{message_text, Language, Message};
use crate::json::JsonNode;
use crate::lines::views;
use crate::number::{decimal, decimal_string, parse_u16, parse_unsigned};
use crate::profile::{ProfileKind, ProfileSummary};
use crate::status::StatusSnapshot;
use crate::text::{concat2, concat3, concat4, concat5, owned, trim, trim_str};
use crate::tui::pages::{
    args_of, four_args, home_actions, next_index, previous_index, settings_items, three_args,
    two_args, wrap_next, wrap_previous, Action, CommandRequest, ConfirmPage, FormSubmit, InputForm,
    LanguagePage, ModePage, submitted, refusal_message, mode_page_for, mixed_port_form_for,
    logs_page_for, NodeTestStatus, OutputPage, ProfilePage, ProxyGroupPage, ProxyItem,
    ProxyPage, SettingsItemKind, SettingsPage, TextPage,
};

verus! {

// ---------------------------------------------------------------------
// Keys, screens and effects
// ---------------------------------------------------------------------

/// A key as the interface tells keys apart.
#[derive(Clone, Copy, Debug, PartialEq, Eq, Structural)]
pub enum KeyCode {
    Char(char),
    Enter,
    Esc,
    Backspace,
    Tab,
    BackTab,
    Up,
    Down,
    Left,
    Right,
    PageUp,
    PageDown,
    Home,
    End,
    Other,
}

/// A key press, with whether Control or Alt was held.
#[derive(Clone, Copy, Debug, PartialEq, Eq, Structural)]
pub struct KeyInput {
    pub code: KeyCode,
    pub ctrl: bool,
    pub alt: bool,
}

/// `Esc`, `q` or Backspace: back to the page before.
pub open spec fn is_back(k: KeyCode) -> bool {
    k == KeyCode::Esc || k == KeyCode::Char('q') || k == KeyCode::Backspace
}

/// Down or `j`.
pub open spec fn is_down(k: KeyCode) -> bool {
    k == KeyCode::Down || k == KeyCode::Char('j')
}

/// Up or `k`.
pub open spec fn is_up(k: KeyCode) -> bool {
    k == KeyCode::Up || k == KeyCode::Char('k')
}

fn back_key(k: KeyCode) -> (r: bool)
    ensures
        r == is_back(k),
{
    k == KeyCode::Esc || k == KeyCode::Char('q') || k == KeyCode::Backspace
}

fn down_key(k: KeyCode) -> (r: bool)
    ensures
        r == is_down(k),
{
    k == KeyCode::Down || k == KeyCode::Char('j')
}

fn up_key(k: KeyCode) -> (r: bool)
    ensures
        r == is_up(k),
{
    k == KeyCode::Up || k == KeyCode::Char('k')
}

/// The screen on show.
#[derive(Debug)]
pub enum Screen {
    Home,
    Settings(SettingsPage),
    Language(LanguagePage),
    Profiles(ProfilePage),
    Form(InputForm),
    Mode(ModePage),
    Logs(TextPage),
    Proxies(ProxyPage),
    ProxyGroup(ProxyGroupPage),
    Output(OutputPage),
    Confirm(ConfirmPage),
}

/// Work the program must do before the interface can go on; its result goes
/// to the matching `on_*` function.
#[derive(Clone, Copy, Debug, PartialEq, Eq, Structural)]
pub enum Need {
    /// Read the status again, then say so (`App::refreshed`, `App::announce_refreshed`).
    Refresh,
    /// Whether the core runs (`App::on_running_state`).
    RunningState,
    /// The profiles (`App::on_profiles`).
    ProfileList,
    /// The active profile's proxy groups (`App::on_proxy_groups`).
    ProxyGroups,
    /// Whether the shell proxy block is in `~/.bashrc` (`App::on_shell_proxy_state`).
    ShellProxyState,
    /// The configured mixed port (`App::on_mixed_port_config`).
    MixedPortConfig,
    /// The controller's configs (`App::on_controller_configs`).
    ControllerConfigs,
    /// The end of the log (`App::on_logs`).
    Logs,
    /// Save the language (`App::on_language_saved`).
    SaveLanguage(Language),
    /// Save the mixed port (`App::on_mixed_port_saved`).
    SaveMixedPort(u16),
}

/// What a key asks of the program besides the next screen.
#[derive(Debug)]
pub enum Effect {
    Nothing,
    Quit,
    /// Read the status again.
    Refresh,
    /// Run a `starail` command and show its output.
    Run(CommandRequest),
    /// Test the latency of the nodes of the group on show.
    TestProxyGroup,
    Need(Need),
}

/// The settings page with `message`, the entry `item` selected.
pub fn settings_screen_with_message(message: String, language: Language, item: SettingsItemKind) -> (r:
    Screen)
    ensures
        r matches Screen::Settings(p) && p.items@ == settings_items() && p.items@[p.selected as int]
            == item && p.message@ == message@,
{
    let mut page = SettingsPage::load(language);
    page.selected = match item {
        SettingsItemKind::Language => 0,
        SettingsItemKind::MixedPort => 1,
        SettingsItemKind::SwitchMode => 2,
        SettingsItemKind::Logs => 3,
        SettingsItemKind::CheckUpdateCore => 4,
    };
    page.message = message;
    Screen::Settings(page)
}

/// The mixed port typed into the settings form: a number from 1 to 65535,
/// after trimming.
pub open spec fn mixed_port_value(value: Seq<char>) -> Option<u16> {
    match parse_unsigned(trim(value), 0xFFFF) {
        Some(p) if p != 0 => Some(p as u16),
        _ => None,
    }
}

/// The mixed port typed into the settings form, or the error (in
/// `language`) that it is no port.
pub fn parse_mixed_port(value: &str, language: Language) -> (r: Result<u16, String>)
    ensures
        match mixed_port_value(value@) {
            Some(p) => r == Ok::<u16, String>(p),
            None => ({ &&& r matches Err(e) &&& e@ == message_text(language, Message::PortInvalid) }),
        },
{
    let t = trim_str(value);
    match parse_u16(t.as_str()) {
        Some(p) => if p != 0 {
            Ok(p)
        } else {
            Err(owned(language.tr(Message::PortInvalid)))
        },
        None => Err(owned(language.tr(Message::PortInvalid))),
    }
}

/// The question to install the core, shown at start when it is missing.
pub fn install_core_page(core_file: &str, language: Language) -> (r: ConfirmPage)
    ensures
        r.title@ == message_text(language, Message::InstallMihomoCore),
        r.question@ == message_text(language, Message::MihomoCoreMissingInstallQuestion) + " "@
            + core_file@ + "?"@,
        r.yes_label@ == message_text(language, Message::Install),
        r.no_label@ == message_text(language, Message::Later),
        r.selected_yes,
        r.request.title@ == message_text(language, Message::InstallMihomoCore),
        views(r.request.args@) == seq!["core"@, "install"@],
        r.cancel_message@ == message_text(language, Message::CoreInstallSkipped),
{
    let question = concat4(
        language.tr(Message::MihomoCoreMissingInstallQuestion),
        " ",
        core_file,
        "?",
    );
    ConfirmPage::new(
        language.tr(Message::InstallMihomoCore),
        question.as_str(),
        language.tr(Message::Install),
        language.tr(Message::Later),
        CommandRequest::new(language.tr(Message::InstallMihomoCore), two_args("core", "install")),
        language.tr(Message::CoreInstallSkipped),
    )
}

/// The question to check for a newer core.
pub fn check_update_core_page(language: Language) -> (r: ConfirmPage)
    ensures
        r.title@ == message_text(language, Message::CheckUpdateCore),
        r.question@ == message_text(language, Message::CheckUpdateCoreQuestion),
        r.yes_label@ == message_text(language, Message::CheckAction),
        r.no_label@ == message_text(language, Message::Cancel),
        r.selected_yes,
        r.request.title@ == message_text(language, Message::CheckUpdateCore),
        views(r.request.args@) == seq!["core"@, "install"@],
        r.cancel_message@ == message_text(language, Message::NoChange),
{
    ConfirmPage::new(
        language.tr(Message::CheckUpdateCore),
        language.tr(Message::CheckUpdateCoreQuestion),
        language.tr(Message::CheckAction),
        language.tr(Message::Cancel),
        CommandRequest::new(language.tr(Message::CheckUpdateCore), two_args("core", "install")),
        language.tr(Message::NoChange),
    )
}

/// The question to turn the shell proxy off (`present`) or on, "yes"
/// selected.
pub open spec fn shell_proxy_page_for(present: bool, language: Language, r: ConfirmPage) -> bool {
    &&& present ==> {
        &&& r.title@ == message_text(language, Message::DisableShellProxy)
        &&& r.question@ == message_text(language, Message::DisableShellProxyQuestion)
        &&& r.yes_label@ == message_text(language, Message::Disable)
        &&& r.request.title@ == message_text(language, Message::DisableShellProxy)
        &&& views(r.request.args@) == seq!["system-proxy"@, "off"@]
    }
    &&& !present ==> {
        &&& r.title@ == message_text(language, Message::EnableShellProxy)
        &&& r.question@ == message_text(language, Message::EnableShellProxyQuestion)
        &&& r.yes_label@ == message_text(language, Message::Enable)
        &&& r.request.title@ == message_text(language, Message::EnableShellProxy)
        &&& views(r.request.args@) == seq!["system-proxy"@, "on"@]
    }
    &&& r.no_label@ == message_text(language, Message::Cancel)
    &&& r.selected_yes
    &&& r.cancel_message@ == message_text(language, Message::NoChange)
}

/// The question to turn the shell proxy off (`present`) or on.
pub fn shell_proxy_page(present: bool, language: Language) -> (r: ConfirmPage)
    ensures
        shell_proxy_page_for(present, language, r),
{
    if present {
        ConfirmPage::new(
            language.tr(Message::DisableShellProxy),
            language.tr(Message::DisableShellProxyQuestion),
            language.tr(Message::Disable),
            language.tr(Message::Cancel),
            CommandRequest::new(
                language.tr(Message::DisableShellProxy),
                two_args("system-proxy", "off"),
            ),
            language.tr(Message::NoChange),
        )
    } else {
        ConfirmPage::new(
            language.tr(Message::EnableShellProxy),
            language.tr(Message::EnableShellProxyQuestion),
            language.tr(Message::Enable),
            language.tr(Message::Cancel),
            CommandRequest::new(
                language.tr(Message::EnableShellProxy),
                two_args("system-proxy", "on"),
            ),
            language.tr(Message::NoChange),
        )
    }
}

/// The command that starts the core, or stops it when it runs, with its
/// title.
pub open spec fn start_stop_request_for(running: bool, language: Language, r: CommandRequest) -> bool {
    &&& running ==> r.title@ == message_text(language, Message::StopMihomo) && views(r.args@)
        == seq!["stop"@]
    &&& !running ==> r.title@ == message_text(language, Message::StartMihomo) && views(r.args@)
        == seq!["start"@]
}

/// The command that starts the core, or stops it when it runs.
pub fn start_stop_request(running: bool, language: Language) -> (r: CommandRequest)
    ensures
        start_stop_request_for(running, language, r),
{
    let mut args = Vec::new();
    if running {
        args.push(owned("stop"));
        assert(views(args@) =~= seq!["stop"@]);
        CommandRequest::new(language.tr(Message::StopMihomo), args)
    } else {
        args.push(owned("start"));
        assert(views(args@) =~= seq!["start"@]);
        CommandRequest::new(language.tr(Message::StartMihomo), args)
    }
}

// ---------------------------------------------------------------------
// Keys on each page
// ---------------------------------------------------------------------

/// What a key does on the settings page: the next screen and the effect.
pub open spec fn settings_key_outcome(page: SettingsPage, key: KeyInput, language: Language, r: (Screen, Effect)) -> bool {
    &&& (is_back(key.code) ==> r.0 is Home && r.1 is Nothing)
    &&& (!is_back(key.code) && is_down(key.code) ==> ({ &&& r.0 matches Screen::Settings(p) &&& r.1 is Nothing &&& p.selected == next_index(page.selected as nat, page.items@.len()) &&& p.items@
            == page.items@ &&& p.message == page.message }))
    &&& (!is_back(key.code) && !is_down(key.code) && is_up(key.code) ==> ({ &&& r.0 matches Screen::Settings(p) &&& r.1 is Nothing &&& p.selected == previous_index(
            page.selected as nat,
            page.items@.len(),
        ) &&& p.items@ == page.items@ &&& p.message == page.message }))
    &&& (key.code == KeyCode::Enter ==> if page.selected < page.items@.len() {
            match page.items@[page.selected as int] {
                SettingsItemKind::Language => ({ &&& r.0 matches Screen::Language(l) &&& r.1 is Nothing &&& l.current == language &&& l.options@[l.selected as int] == language }),
                SettingsItemKind::MixedPort => r.1 == Effect::Need(Need::MixedPortConfig)
                    && r.0 == Screen::Settings(page),
                SettingsItemKind::SwitchMode => r.1 == Effect::Need(Need::ControllerConfigs)
                    && r.0 == Screen::Settings(page),
                SettingsItemKind::Logs => r.1 == Effect::Need(Need::Logs) && r.0 == Screen::Settings(
                    page,
                ),
                SettingsItemKind::CheckUpdateCore => ({ &&& r.0 matches Screen::Confirm(c) &&& r.1 is Nothing &&& c.title@ == message_text(language, Message::CheckUpdateCore) &&& views(c.request.args@) == seq!["core"@, "install"@] &&& c.selected_yes &&& c.cancel_message@ == message_text(language, Message::NoChange) }),
            }
        } else {
            r.1 is Nothing && r.0 == Screen::Settings(page)
        })
    &&& (!is_back(key.code) && !is_down(key.code) && !is_up(key.code) && key.code != KeyCode::Enter
            ==> r.1 is Nothing && r.0 == Screen::Settings(page))
}

/// A key on the settings page: back, move, or open the selected entry (the
/// language page; the confirmation to check the core; or, after the program
/// read what it needs, the mixed-port form, the mode page or the log).
pub fn handle_settings_key(page: SettingsPage, key: KeyInput, language: Language) -> (r: (
    Screen,
    Effect,
))
    ensures
        settings_key_outcome(page, key, language, r),
{
    let mut page = page;
    if back_key(key.code) {
        return (Screen::Home, Effect::Nothing);
    }
    if down_key(key.code) {
        page.next();
        return (Screen::Settings(page), Effect::Nothing);
    }
    if up_key(key.code) {
        page.previous();
        return (Screen::Settings(page), Effect::Nothing);
    }
    if key.code == KeyCode::Enter {
        return match page.selected_item() {
            Some(SettingsItemKind::Language) => (
                Screen::Language(LanguagePage::load(language)),
                Effect::Nothing,
            ),
            Some(SettingsItemKind::MixedPort) => (
                Screen::Settings(page),
                Effect::Need(Need::MixedPortConfig),
            ),
            Some(SettingsItemKind::SwitchMode) => (
                Screen::Settings(page),
                Effect::Need(Need::ControllerConfigs),
            ),
            Some(SettingsItemKind::Logs) => (Screen::Settings(page), Effect::Need(Need::Logs)),
            Some(SettingsItemKind::CheckUpdateCore) => (
                Screen::Confirm(check_update_core_page(language)),
                Effect::Nothing,
            ),
            None => (Screen::Settings(page), Effect::Nothing),
        };
    }
    (Screen::Settings(page), Effect::Nothing)
}

/// What a key does on the language page: the next screen and the effect.
pub open spec fn language_key_outcome(page: LanguagePage, key: KeyInput, r: (Screen, Effect)) -> bool {
    &&& (is_back(key.code) ==> ({ &&& r.0 matches Screen::Settings(p) &&& r.1 is Nothing &&& p.items@
            == settings_items() &&& p.selected == 0 &&& p.message@ == message_text(
            page.current,
            Message::SettingsLoaded,
        ) }))
    &&& (!is_back(key.code) && is_down(key.code) ==> ({ &&& r.0 matches Screen::Language(p) &&& r.1 is Nothing &&& p.selected == next_index(page.selected as nat, page.options@.len()) &&& p.options@
            == page.options@ &&& p.current == page.current &&& p.message == page.message }))
    &&& (!is_back(key.code) && !is_down(key.code) && is_up(key.code) ==> ({ &&& r.0 matches Screen::Language(p) &&& r.1 is Nothing &&& p.selected == previous_index(
            page.selected as nat,
            page.options@.len(),
        ) &&& p.options@ == page.options@ &&& p.current == page.current &&& p.message == page.message }))
    &&& (key.code == KeyCode::Enter ==> r.0 == Screen::Language(page) && r.1 == Effect::Need(
            Need::SaveLanguage(
                if page.selected < page.options@.len() {
                    page.options@[page.selected as int]
                } else {
                    Language::English
                },
            ),
        ))
    &&& (!is_back(key.code) && !is_down(key.code) && !is_up(key.code) && key.code != KeyCode::Enter
            ==> r.1 is Nothing && r.0 == Screen::Language(page))
}

/// A key on the language page: back to the settings, move, or save the
/// selected language.
pub fn handle_language_key(page: LanguagePage, key: KeyInput) -> (r: (Screen, Effect))
    ensures
        language_key_outcome(page, key, r),
{
    let mut page = page;
    if back_key(key.code) {
        return (Screen::Settings(SettingsPage::load(page.current)), Effect::Nothing);
    }
    if down_key(key.code) {
        page.next();
        return (Screen::Language(page), Effect::Nothing);
    }
    if up_key(key.code) {
        page.previous();
        return (Screen::Language(page), Effect::Nothing);
    }
    if key.code == KeyCode::Enter {
        let selected = page.selected_language();
        return (Screen::Language(page), Effect::Need(Need::SaveLanguage(selected)));
    }
    (Screen::Language(page), Effect::Nothing)
}

/// The question before a profile is removed.
pub fn remove_profile_page(name: &str, language: Language) -> (r: ConfirmPage)
    ensures
        r.title@ == message_text(language, Message::RemoveProfile),
        r.question@ == message_text(language, Message::RemoveProfileQuestion) + " '"@ + name@
            + "' ?"@,
        r.yes_label@ == message_text(language, Message::Remove),
        r.no_label@ == message_text(language, Message::Cancel),
        r.selected_yes,
        r.request.title@ == message_text(language, Message::RemoveProfile),
        views(r.request.args@) == seq!["profile"@, "remove"@, name@],
        r.cancel_message@ == message_text(language, Message::NoChange),
{
    let question = concat4(language.tr(Message::RemoveProfileQuestion), " '", name, "' ?");
    ConfirmPage::new(
        language.tr(Message::RemoveProfile),
        question.as_str(),
        language.tr(Message::Remove),
        language.tr(Message::Cancel),
        CommandRequest::new(
            language.tr(Message::RemoveProfile),
            three_args("profile", "remove", name),
        ),
        language.tr(Message::NoChange),
    )
}

/// The profiles page with a message.
pub open spec fn profiles_with_message(page: ProfilePage, message: Seq<char>, r: Screen) -> bool {
    r matches Screen::Profiles(p) && p.profiles@ == page.profiles@ && p.selected == page.selected
        && p.message@ == message
}

/// What a key does on the profiles page: the next screen and the effect.
pub open spec fn profiles_key_outcome(page: ProfilePage, key: KeyInput, language: Language, r: (Screen, Effect)) -> bool {
    ({
            let found = page.selected < page.profiles@.len();
            let sel = page.profiles@[page.selected as int];
            let k = key.code;
            &&& is_back(k) ==> r.0 is Home && r.1 is Nothing
            &&& k == KeyCode::Char('r') ==> r.0 == Screen::Profiles(page) && r.1 == Effect::Need(
                Need::ProfileList,
            )
            &&& is_down(k) ==> ({ &&& r.0 matches Screen::Profiles(p) &&& r.1 is Nothing &&& p.selected
                == next_index(page.selected as nat, page.profiles@.len()) &&& p.profiles@
                == page.profiles@ &&& p.message == page.message })
            &&& is_up(k) ==> ({ &&& r.0 matches Screen::Profiles(p) &&& r.1 is Nothing &&& p.selected
                == previous_index(page.selected as nat, page.profiles@.len()) &&& p.profiles@
                == page.profiles@ &&& p.message == page.message })
            &&& k == KeyCode::Char('a') ==> ({ &&& r.0 matches Screen::Form(f) &&& r.1 is Nothing &&& f.submit_view() == FormSubmit::AddLocalProfile &&& f.language_view() == language })
            &&& k == KeyCode::Char('s') ==> ({ &&& r.0 matches Screen::Form(f) &&& r.1 is Nothing &&& f.submit_view() == FormSubmit::AddSubscription &&& f.language_view() == language })
            &&& k == KeyCode::Char('U') ==> ({ &&& r.1 matches Effect::Run(
                q,
            ) &&& r.0 == Screen::Profiles(page) &&& q.title@ == message_text(language, Message::UpdateSubscriptions) &&& views(q.args@)
                == seq!["subscribe"@, "update"@] })
            &&& k == KeyCode::Char('u') ==> if !found {
                r.1 is Nothing && profiles_with_message(
                    page,
                    message_text(language, Message::NoProfileSelected),
                    r.0,
                )
            } else if sel.kind != ProfileKind::Subscription {
                r.1 is Nothing && profiles_with_message(
                    page,
                    message_text(language, Message::LocalProfileUpdateUnsupported),
                    r.0,
                )
            } else {
                r.1 matches Effect::Run(q) && q.title@ == message_text(
                    language,
                    Message::UpdateSubscription,
                ) && views(q.args@) == seq!["subscribe"@, "update"@, sel.name@] && r.0
                    == Screen::Profiles(page)
            }
            &&& k == KeyCode::Enter ==> if !found {
                r.1 is Nothing && profiles_with_message(
                    page,
                    message_text(language, Message::NoProfileSelected),
                    r.0,
                )
            } else {
                r.1 matches Effect::Run(q) && q.title@ == message_text(language, Message::UseProfile)
                    && views(q.args@) == seq!["profile"@, "use"@, sel.name@] && r.0
                    == Screen::Profiles(page)
            }
            &&& k == KeyCode::Char('d') ==> if !found {
                r.1 is Nothing && profiles_with_message(
                    page,
                    message_text(language, Message::NoProfileSelected),
                    r.0,
                )
            } else {({ &&& r.0 matches Screen::Confirm(c) &&& r.1 is Nothing &&& c.title@ == message_text(
                    language,
                    Message::RemoveProfile,
                ) &&& views(c.request.args@) == seq!["profile"@, "remove"@, sel.name@] &&& c.question@
                    == message_text(language, Message::RemoveProfileQuestion) + " '"@ + sel.name@
                    + "' ?"@ &&& c.selected_yes &&& c.cancel_message@ == message_text(
                    language,
                    Message::NoChange,
                ) })
            }
            &&& !is_back(k) && !is_down(k) && !is_up(k) && k != KeyCode::Char('r') && k
                != KeyCode::Char('a') && k != KeyCode::Char('s') && k != KeyCode::Char('U') && k
                != KeyCode::Char('u') && k != KeyCode::Enter && k != KeyCode::Char('d') ==> r.1 is Nothing
                && r.0 == Screen::Profiles(page)
        })
}

/// A key on the profiles page: back; reload; move; the forms to add a local
/// profile (`a`) or a subscription (`s`); update all subscriptions (`U`) or
/// the selected one (`u`); use the selected profile (Enter); or ask before
/// removing it (`d`).
pub fn handle_profiles_key(page: ProfilePage, key: KeyInput, language: Language) -> (r: (
    Screen,
    Effect,
))
    ensures
        profiles_key_outcome(page, key, language, r),
{
    let mut page = page;
    let k = key.code;
    if back_key(k) {
        return (Screen::Home, Effect::Nothing);
    }
    if k == KeyCode::Char('r') {
        return (Screen::Profiles(page), Effect::Need(Need::ProfileList));
    }
    if down_key(k) {
        page.next();
        return (Screen::Profiles(page), Effect::Nothing);
    }
    if up_key(k) {
        page.previous();
        return (Screen::Profiles(page), Effect::Nothing);
    }
    if k == KeyCode::Char('a') {
        return (Screen::Form(InputForm::local_profile(language)), Effect::Nothing);
    }
    if k == KeyCode::Char('s') {
        return (Screen::Form(InputForm::subscription(language)), Effect::Nothing);
    }
    if k == KeyCode::Char('U') {
        return (
            Screen::Profiles(page),
            Effect::Run(
                CommandRequest::new(
                    language.tr(Message::UpdateSubscriptions),
                    two_args("subscribe", "update"),
                ),
            ),
        );
    }
    if k == KeyCode::Char('u') || k == KeyCode::Enter || k == KeyCode::Char('d') {
        let (name, kind) = match page.selected_profile() {
            Some(p) => (p.name.clone(), p.kind),
            None => {
                page.message = owned(language.tr(Message::NoProfileSelected));
                return (Screen::Profiles(page), Effect::Nothing);
            },
        };
        if k == KeyCode::Char('u') {
            if kind != ProfileKind::Subscription {
                page.message = owned(language.tr(Message::LocalProfileUpdateUnsupported));
                return (Screen::Profiles(page), Effect::Nothing);
            }
            return (
                Screen::Profiles(page),
                Effect::Run(
                    CommandRequest::new(
                        language.tr(Message::UpdateSubscription),
                        three_args("subscribe", "update", name.as_str()),
                    ),
                ),
            );
        }
        if k == KeyCode::Enter {
            return (
                Screen::Profiles(page),
                Effect::Run(
                    CommandRequest::new(
                        language.tr(Message::UseProfile),
                        three_args("profile", "use", name.as_str()),
                    ),
                ),
            );
        }
        return (Screen::Confirm(remove_profile_page(name.as_str(), language)), Effect::Nothing);
    }
    (Screen::Profiles(page), Effect::Nothing)
}

/// What a key does on the form: the next screen and the effect.
pub open spec fn form_key_outcome(form: InputForm, key: KeyInput, detected: Language, r: (Screen, Effect)) -> bool {
    ({
            let k = key.code;
            let last = form.focus_view() + 1 >= form.fields_view().len();
            &&& k == KeyCode::Esc ==> r.0 is Home && r.1 is Nothing
            &&& (k == KeyCode::Tab || k == KeyCode::Down) ==> ({ &&& r.0 matches Screen::Form(
                f,
            ) &&& r.1 is Nothing &&& f.focus_view() == next_index(form.focus_view(), form.fields_view().len()) &&& f.fields_view() == form.fields_view() })
            &&& (k == KeyCode::BackTab || k == KeyCode::Up) ==> ({ &&& r.0 matches Screen::Form(f) &&& r.1 is Nothing &&& f.focus_view() == previous_index(
                form.focus_view(),
                form.fields_view().len(),
            ) &&& f.fields_view() == form.fields_view() })
            &&& k == KeyCode::Enter && !last ==> ({ &&& r.0 matches Screen::Form(f) &&& r.1 is Nothing &&& f.focus_view() == form.focus_view() + 1 &&& f.fields_view() == form.fields_view() })
            &&& k == KeyCode::Enter && last && form.submit_view() == FormSubmit::SetMixedPort
                ==> match mixed_port_value(form.fields_view()[0].value@) {
                Some(p) => r.1 == Effect::Need(Need::SaveMixedPort(p)) && r.0 == Screen::Form(form),
                None => ({ &&& r.0 matches Screen::Form(f) &&& r.1 is Nothing &&& f.message_view()
                    == message_text(detected, Message::PortInvalid) &&& f.fields_view()
                    == form.fields_view() }),
            }
            &&& k == KeyCode::Enter && last && form.submit_view() != FormSubmit::SetMixedPort
                ==> ({
                &&& r.0 matches Screen::Form(f)
                &&& f.fields_view() == form.fields_view()
                &&& match submitted(form) {
                    Some((title, args)) => ({
                        &&& r.1 matches Effect::Run(q)
                        &&& q.title@ == title
                        &&& views(q.args@) == args
                        &&& f.message_view() == form.message_view()
                    }),
                    None => r.1 is Nothing && f.message_view() == refusal_message(form),
                }
            })
            &&& k == KeyCode::Backspace ==> ({ &&& r.0 matches Screen::Form(f) &&& r.1 is Nothing &&& f.focus_view() == form.focus_view() &&& f.fields_view()[form.focus_view() as int].value@
                == (if form.fields_view()[form.focus_view() as int].value@.len() > 0 {
                form.fields_view()[form.focus_view() as int].value@.drop_last()
            } else {
                form.fields_view()[form.focus_view() as int].value@
            }) })
            &&& (k matches KeyCode::Char(c) && !key.ctrl && !key.alt) ==> ({ &&& r.0 matches Screen::Form(f) &&& r.1 is Nothing &&& f.focus_view() == form.focus_view() &&& f.fields_view()[form.focus_view() as int].value@ == form.fields_view()[form.focus_view() as int].value@.push(
                k->Char_0,
            ) })
        })
}

/// A key on a form: cancel; move between fields; Enter on a field before
/// the last moves on, on the last submits (the mixed port, when it is a
/// port, is saved by the program; other forms run their command); Backspace
/// deletes; a plain character is typed. `detected` is the language of the
/// error for a bad port.
pub fn handle_form_key(form: InputForm, key: KeyInput, detected: Language) -> (r: (Screen, Effect))
    ensures
        form_key_outcome(form, key, detected, r),
{
    let mut form = form;
    let k = key.code;
    match k {
        KeyCode::Esc => (Screen::Home, Effect::Nothing),
        KeyCode::Tab | KeyCode::Down => {
            form.next();
            (Screen::Form(form), Effect::Nothing)
        },
        KeyCode::BackTab | KeyCode::Up => {
            form.previous();
            (Screen::Form(form), Effect::Nothing)
        },
        KeyCode::Enter => {
            let count = form.field_count();
            let focus = form.focus();
            if focus + 1 < count {
                form.next();
                return (Screen::Form(form), Effect::Nothing);
            }
            if form.submit_kind() == FormSubmit::SetMixedPort {
                let value = form.fields()[0].value.clone();
                return match parse_mixed_port(value.as_str(), detected) {
                    Ok(port) => (Screen::Form(form), Effect::Need(Need::SaveMixedPort(port))),
                    Err(e) => {
                        form.set_message(e);
                        (Screen::Form(form), Effect::Nothing)
                    },
                };
            }
            match form.submit() {
                Some(request) => (Screen::Form(form), Effect::Run(request)),
                None => (Screen::Form(form), Effect::Nothing),
            }
        },
        KeyCode::Backspace => {
            form.pop();
            (Screen::Form(form), Effect::Nothing)
        },
        KeyCode::Char(c) => {
            if !key.ctrl && !key.alt {
                form.push(c);
            }
            (Screen::Form(form), Effect::Nothing)
        },
        _ => (Screen::Form(form), Effect::Nothing),
    }
}

/// What a key does on the mode page: the next screen and the effect.
pub open spec fn mode_key_outcome(page: ModePage, key: KeyInput, language: Language, r: (Screen, Effect)) -> bool {
    &&& (is_back(key.code) ==> r.0 is Home && r.1 is Nothing)
    &&& (!is_back(key.code) && is_down(key.code) ==> ({ &&& r.0 matches Screen::Mode(p) &&& r.1 is Nothing &&& p.selected_view() == next_index(page.selected_view(), 3) &&& p.current_view()
            == page.current_view() }))
    &&& (!is_back(key.code) && !is_down(key.code) && is_up(key.code) ==> ({ &&& r.0 matches Screen::Mode(p) &&& r.1 is Nothing &&& p.selected_view() == previous_index(
            page.selected_view(),
            3,
        ) &&& p.current_view() == page.current_view() }))
    &&& (key.code == KeyCode::Enter ==> ({ &&& r.1 matches Effect::Run(q) &&& r.0 == Screen::Mode(page) &&& q.title@ == message_text(language, Message::SwitchMode) &&& views(q.args@) == seq![
            "mode"@,
            crate::tui::pages::controller_modes()[page.selected_view() as int],
        ] }))
    &&& (!is_back(key.code) && !is_down(key.code) && !is_up(key.code) && key.code != KeyCode::Enter
            ==> r.1 is Nothing && r.0 == Screen::Mode(page))
}

/// A key on the mode page: back, move, or switch to the selected mode.
pub fn handle_mode_key(page: ModePage, key: KeyInput, language: Language) -> (r: (Screen, Effect))
    ensures
        mode_key_outcome(page, key, language, r),
{
    let mut page = page;
    if back_key(key.code) {
        return (Screen::Home, Effect::Nothing);
    }
    if down_key(key.code) {
        page.next();
        return (Screen::Mode(page), Effect::Nothing);
    }
    if up_key(key.code) {
        page.previous();
        return (Screen::Mode(page), Effect::Nothing);
    }
    if key.code == KeyCode::Enter {
        let mode = page.selected_mode();
        return (
            Screen::Mode(page),
            Effect::Run(CommandRequest::new(language.tr(Message::SwitchMode), two_args("mode", mode))),
        );
    }
    (Screen::Mode(page), Effect::Nothing)
}

/// What a key does on the log page: the next screen and the effect.
pub open spec fn text_key_outcome(page: TextPage, key: KeyInput, r: (Screen, Effect)) -> bool {
    ({
            let k = key.code;
            let n = page.lines@.len();
            &&& is_back(k) ==> r.0 is Home && r.1 is Nothing
            &&& k == KeyCode::Char('r') ==> r.0 == Screen::Logs(page) && r.1 == Effect::Need(
                Need::Logs,
            )
            &&& is_down(k) ==> ({ &&& r.0 matches Screen::Logs(p) &&& r.1 is Nothing &&& p.scroll
                == crate::tui::pages::scrolled_down(page.scroll as nat, 1, n) &&& p.lines@ == page.lines@ })
            &&& is_up(k) ==> ({ &&& r.0 matches Screen::Logs(p) &&& r.1 is Nothing &&& p.scroll
                == crate::tui::pages::scrolled_up(page.scroll as nat, 1) &&& p.lines@ == page.lines@ })
            &&& k == KeyCode::PageDown ==> ({ &&& r.0 matches Screen::Logs(p) &&& r.1 is Nothing &&& p.scroll
                == crate::tui::pages::scrolled_down(page.scroll as nat, 12, n) &&& p.lines@ == page.lines@ })
            &&& k == KeyCode::PageUp ==> ({ &&& r.0 matches Screen::Logs(p) &&& r.1 is Nothing &&& p.scroll
                == crate::tui::pages::scrolled_up(page.scroll as nat, 12) &&& p.lines@ == page.lines@ })
            &&& (k == KeyCode::Home || k == KeyCode::Char('g')) ==> ({ &&& r.0 matches Screen::Logs(p) &&& r.1 is Nothing &&& p.scroll == 0 &&& p.lines@ == page.lines@ })
            &&& (k == KeyCode::End || k == KeyCode::Char('G')) ==> ({ &&& r.0 matches Screen::Logs(p) &&& r.1 is Nothing &&& p.scroll == (if n > 0 {
                n - 1
            } else {
                0
            }) &&& p.lines@ == page.lines@ })
        })
}

/// A key on the log page: back; reload; scroll by a line or a page; to the
/// top or the bottom.
pub fn handle_text_key(page: TextPage, key: KeyInput) -> (r: (Screen, Effect))
    ensures
        text_key_outcome(page, key, r),
{
    let mut page = page;
    let k = key.code;
    if back_key(k) {
        return (Screen::Home, Effect::Nothing);
    }
    if k == KeyCode::Char('r') {
        return (Screen::Logs(page), Effect::Need(Need::Logs));
    }
    if down_key(k) {
        page.scroll_down(1);
    } else if up_key(k) {
        page.scroll_up(1);
    } else if k == KeyCode::PageDown {
        page.scroll_down(12);
    } else if k == KeyCode::PageUp {
        page.scroll_up(12);
    } else if k == KeyCode::Home || k == KeyCode::Char('g') {
        page.scroll = 0;
    } else if k == KeyCode::End || k == KeyCode::Char('G') {
        page.scroll = if page.lines.len() > 0 {
            page.lines.len() - 1
        } else {
            0
        };
    }
    (Screen::Logs(page), Effect::Nothing)
}

/// Every node of a group, not yet tested.
pub fn untested_results(n: usize) -> (r: Vec<NodeTestStatus>)
    ensures
        r@.len() == n,
        forall|i: int| 0 <= i < n ==> (#[trigger] r@[i]) is Untested,
{
    let mut r = Vec::new();
    let mut i: usize = 0;
    while i < n
        invariant
            i <= n,
            r@.len() == i,
            forall|j: int| 0 <= j < i ==> (#[trigger] r@[j]) is Untested,
        decreases n - i,
    {
        r.push(NodeTestStatus::Untested);
        i += 1;
    }
    r
}

/// What a key does on the proxy groups page: the next screen and the effect.
pub open spec fn proxies_key_outcome(page: ProxyPage, key: KeyInput, language: Language, r: (Screen, Effect)) -> bool {
    ({
            let k = key.code;
            &&& is_back(k) ==> r.0 is Home && r.1 is Nothing
            &&& k == KeyCode::Char('r') ==> r.0 == Screen::Proxies(page) && r.1 == Effect::Need(
                Need::ProxyGroups,
            )
            &&& is_down(k) ==> ({ &&& r.0 matches Screen::Proxies(p) &&& r.1 is Nothing &&& p.selected
                == next_index(page.selected as nat, page.items@.len()) &&& p.items@ == page.items@ })
            &&& is_up(k) ==> ({ &&& r.0 matches Screen::Proxies(p) &&& r.1 is Nothing &&& p.selected
                == previous_index(page.selected as nat, page.items@.len()) &&& p.items@ == page.items@ })
            &&& k == KeyCode::Enter ==> r.1 is Nothing && if page.selected < page.items@.len() {
                r.0 matches Screen::ProxyGroup(g) && g.group.name == page.items@[page.selected as int].name
                    && g.group.kind == page.items@[page.selected as int].kind && g.group.children@
                    == page.items@[page.selected as int].children@ && g.selected == 0 && g.back_items@
                    == page.items@ && g.back_selected == page.selected && g.node_results@.len()
                    == g.group.children@.len() && (forall|i: int|
                    0 <= i < g.node_results@.len() ==> (#[trigger] g.node_results@[i]) is Untested)
                    && g.message@ == message_text(language, Message::NodesLoadedYamlOrder)
            } else {
                r.0 matches Screen::Proxies(p) && p.items@ == page.items@ && p.selected
                    == page.selected && p.message@ == message_text(
                    language,
                    Message::NoProxyGroupSelected,
                )
            }
            &&& !is_back(k) && !is_down(k) && !is_up(k) && k != KeyCode::Char('r') && k
                != KeyCode::Enter ==> r.1 is Nothing && r.0 == Screen::Proxies(page)
        })
}

/// A key on the proxy groups page: back; reload; move; or open the selected
/// group with its nodes untested.
pub fn handle_proxies_key(page: ProxyPage, key: KeyInput, language: Language) -> (r: (
    Screen,
    Effect,
))
    ensures
        proxies_key_outcome(page, key, language, r),
{
    let mut page = page;
    let k = key.code;
    if back_key(k) {
        return (Screen::Home, Effect::Nothing);
    }
    if k == KeyCode::Char('r') {
        return (Screen::Proxies(page), Effect::Need(Need::ProxyGroups));
    }
    if down_key(k) {
        page.next();
        return (Screen::Proxies(page), Effect::Nothing);
    }
    if up_key(k) {
        page.previous();
        return (Screen::Proxies(page), Effect::Nothing);
    }
    if k == KeyCode::Enter {
        let item = match page.selected_item() {
            Some(i) => i.duplicate(),
            None => {
                page.message = owned(language.tr(Message::NoProxyGroupSelected));
                return (Screen::Proxies(page), Effect::Nothing);
            },
        };
        let node_results = untested_results(item.children.len());
        let back_selected = page.selected;
        return (
            Screen::ProxyGroup(
                ProxyGroupPage {
                    group: item,
                    selected: 0,
                    back_items: page.items,
                    back_selected,
                    node_results,
                    message: owned(language.tr(Message::NodesLoadedYamlOrder)),
                },
            ),
            Effect::Nothing,
        );
    }
    (Screen::Proxies(page), Effect::Nothing)
}

/// What a key does on the page of a proxy group: the next screen and the effect.
pub open spec fn proxy_group_key_outcome(page: ProxyGroupPage, key: KeyInput, language: Language, r: (Screen, Effect)) -> bool {
    ({
            let k = key.code;
            let n = page.group.children@.len();
            &&& is_back(k) ==> ({ &&& r.0 matches Screen::Proxies(p) &&& r.1 is Nothing &&& p.items@
                == page.back_items@ &&& p.selected == (if page.back_selected < page.back_items@.len() {
                page.back_selected as int
            } else if page.back_items@.len() > 0 {
                page.back_items@.len() - 1
            } else {
                0
            }) &&& p.message@ == message_text(language, Message::ProxyDataLoaded) })
            &&& is_down(k) ==> ({ &&& r.0 matches Screen::ProxyGroup(p) &&& r.1 is Nothing &&& p.selected
                == next_index(page.selected as nat, n) &&& p.group == page.group &&& p.node_results@ == page.node_results@ &&& p.message == page.message &&& p.back_items@ == page.back_items@ &&& p.back_selected == page.back_selected })
            &&& is_up(k) ==> ({ &&& r.0 matches Screen::ProxyGroup(p) &&& r.1 is Nothing &&& p.selected
                == previous_index(page.selected as nat, n) &&& p.group == page.group &&& p.node_results@ == page.node_results@ &&& p.message == page.message &&& p.back_items@ == page.back_items@ &&& p.back_selected == page.back_selected })
            &&& k == KeyCode::Char('t') ==> if n == 0 {({ &&& r.0 matches Screen::ProxyGroup(p) &&& r.1 is Nothing &&& p.message@ == message_text(
                    language,
                    Message::GroupNoNodesTest,
                ) &&& p.group == page.group &&& p.node_results@ == page.node_results@ &&& p.selected == page.selected &&& p.back_items@ == page.back_items@ &&& p.back_selected == page.back_selected })
            } else {
                r.1 is TestProxyGroup && r.0 == Screen::ProxyGroup(page)
            }
            &&& k == KeyCode::Enter ==> if page.selected < n {({ &&& r.1 matches Effect::Run(q) &&& r.0 == Screen::ProxyGroup(page) &&& q.title@
                    == message_text(language, Message::SelectProxyNode) &&& views(q.args@) == seq![
                    "proxy"@,
                    "select"@,
                    page.group.name@,
                    page.group.children@[page.selected as int]@,
                ] })
            } else {({ &&& r.0 matches Screen::ProxyGroup(p) &&& r.1 is Nothing &&& p.message@ == message_text(
                    language,
                    Message::NoNodeSelected,
                ) &&& p.group == page.group &&& p.selected == page.selected &&& p.node_results@ == page.node_results@ &&& p.back_items@ == page.back_items@ &&& p.back_selected == page.back_selected })
            }
            &&& !is_back(k) && !is_down(k) && !is_up(k) && k != KeyCode::Char('t') && k
                != KeyCode::Enter ==> r.1 is Nothing && r.0 == Screen::ProxyGroup(page)
        })
}

/// Moves through a group's nodes keep the way back: the groups page and the
/// group selected on it.
proof fn lemma_moves_keep_way_back(
    pages: Seq<ProxyGroupPage>,
    moves: Seq<KeyInput>,
    effects: Seq<Effect>,
    language: Language,
    n: int,
)
    requires
        pages.len() == moves.len() + 1,
        effects.len() == moves.len(),
        0 <= n <= moves.len(),
        forall|i: int|
            0 <= i < moves.len() ==> is_down(#[trigger] moves[i].code) || is_up(moves[i].code),
        forall|i: int|
            0 <= i < moves.len() ==> proxy_group_key_outcome(
                pages[i],
                #[trigger] moves[i],
                language,
                (Screen::ProxyGroup(pages[i + 1]), effects[i]),
            ),
    ensures
        pages[n].back_items@ == pages[0].back_items@,
        pages[n].back_selected == pages[0].back_selected,
    decreases n,
{
    if n > 0 {
        lemma_moves_keep_way_back(pages, moves, effects, language, n - 1);
        let k = moves[n - 1];
        assert(is_down(k.code) || is_up(k.code));
        assert(proxy_group_key_outcome(
            pages[n - 1],
            k,
            language,
            (Screen::ProxyGroup(pages[n]), effects[n - 1]),
        ));
    }
}

/// Opening a group from the groups page, moving through its nodes any number
/// of times, then going back returns to the groups page with the same groups
/// and the same group selected.
pub proof fn lemma_group_page_way_back(
    list: ProxyPage,
    open: KeyInput,
    opened: Effect,
    pages: Seq<ProxyGroupPage>,
    moves: Seq<KeyInput>,
    effects: Seq<Effect>,
    back: KeyInput,
    language: Language,
    r: (Screen, Effect),
)
    requires
        open.code == KeyCode::Enter,
        list.selected < list.items@.len(),
        proxies_key_outcome(list, open, language, (Screen::ProxyGroup(pages[0]), opened)),
        pages.len() == moves.len() + 1,
        effects.len() == moves.len(),
        forall|i: int|
            0 <= i < moves.len() ==> is_down(#[trigger] moves[i].code) || is_up(moves[i].code),
        forall|i: int|
            0 <= i < moves.len() ==> proxy_group_key_outcome(
                pages[i],
                #[trigger] moves[i],
                language,
                (Screen::ProxyGroup(pages[i + 1]), effects[i]),
            ),
        is_back(back.code),
        proxy_group_key_outcome(pages.last(), back, language, r),
    ensures
        r.0 matches Screen::Proxies(p) && p.items@ == list.items@ && p.selected == list.selected
            && p.message@ == message_text(language, Message::ProxyDataLoaded),
        r.1 is Nothing,
{
    lemma_moves_keep_way_back(pages, moves, effects, language, moves.len() as int);
    assert(pages.last() == pages[moves.len() as int]);
}

/// A key on a group's page: back to the groups (the selection kept on the
/// group, or on the last one); move; test the nodes (`t`); or select the
/// node (Enter).
pub fn handle_proxy_group_key(page: ProxyGroupPage, key: KeyInput, language: Language) -> (r: (
    Screen,
    Effect,
))
    ensures
        proxy_group_key_outcome(page, key, language, r),
{
    let mut page = page;
    let k = key.code;
    if back_key(k) {
        let n = page.back_items.len();
        let selected = if page.back_selected < n {
            page.back_selected
        } else if n > 0 {
            n - 1
        } else {
            0
        };
        return (
            Screen::Proxies(
                ProxyPage {
                    items: page.back_items,
                    selected,
                    message: owned(language.tr(Message::ProxyDataLoaded)),
                },
            ),
            Effect::Nothing,
        );
    }
    if down_key(k) {
        page.next();
        return (Screen::ProxyGroup(page), Effect::Nothing);
    }
    if up_key(k) {
        page.previous();
        return (Screen::ProxyGroup(page), Effect::Nothing);
    }
    if k == KeyCode::Char('t') {
        if page.group.children.len() == 0 {
            page.message = owned(language.tr(Message::GroupNoNodesTest));
            return (Screen::ProxyGroup(page), Effect::Nothing);
        }
        return (Screen::ProxyGroup(page), Effect::TestProxyGroup);
    }
    if k == KeyCode::Enter {
        let node = match page.selected_node() {
            Some(n) => owned(n),
            None => {
                page.message = owned(language.tr(Message::NoNodeSelected));
                return (Screen::ProxyGroup(page), Effect::Nothing);
            },
        };
        let args = four_args("proxy", "select", page.group.name.as_str(), node.as_str());
        return (
            Screen::ProxyGroup(page),
            Effect::Run(CommandRequest::new(language.tr(Message::SelectProxyNode), args)),
        );
    }
    (Screen::ProxyGroup(page), Effect::Nothing)
}

/// What a key does on the output page: the next screen and the effect.
pub open spec fn output_key_outcome(page: OutputPage, key: KeyInput, r: (Screen, Effect)) -> bool {
    ({
            let k = key.code;
            let n = page.lines@.len();
            &&& (is_back(k) || k == KeyCode::Enter) ==> r.0 is Home && r.1 is Nothing
            &&& is_down(k) ==> ({ &&& r.0 matches Screen::Output(p) &&& r.1 is Nothing &&& p.scroll
                == crate::tui::pages::scrolled_down(page.scroll as nat, 1, n) &&& p.lines@ == page.lines@ })
            &&& is_up(k) ==> ({ &&& r.0 matches Screen::Output(p) &&& r.1 is Nothing &&& p.scroll
                == crate::tui::pages::scrolled_up(page.scroll as nat, 1) &&& p.lines@ == page.lines@ })
            &&& k == KeyCode::PageDown ==> ({ &&& r.0 matches Screen::Output(p) &&& r.1 is Nothing &&& p.scroll
                == crate::tui::pages::scrolled_down(page.scroll as nat, 12, n) &&& p.lines@ == page.lines@ })
            &&& k == KeyCode::PageUp ==> ({ &&& r.0 matches Screen::Output(p) &&& r.1 is Nothing &&& p.scroll
                == crate::tui::pages::scrolled_up(page.scroll as nat, 12) &&& p.lines@ == page.lines@ })
            &&& !is_back(k) && k != KeyCode::Enter && !is_down(k) && !is_up(k) && k
                != KeyCode::PageDown && k != KeyCode::PageUp ==> r.1 is Nothing && r.0 == Screen::Output(
                page,
            )
        })
}

/// A key on a command's output: back (also Enter), or scroll.
pub fn handle_output_key(page: OutputPage, key: KeyInput) -> (r: (Screen, Effect))
    ensures
        output_key_outcome(page, key, r),
{
    let mut page = page;
    let k = key.code;
    if back_key(k) || k == KeyCode::Enter {
        return (Screen::Home, Effect::Nothing);
    }
    if down_key(k) {
        page.scroll_down(1);
    } else if up_key(k) {
        page.scroll_up(1);
    } else if k == KeyCode::PageDown {
        page.scroll_down(12);
    } else if k == KeyCode::PageUp {
        page.scroll_up(12);
    }
    (Screen::Output(page), Effect::Nothing)
}

// ---------------------------------------------------------------------
// The application
// ---------------------------------------------------------------------

/// The interface's state: the selected home action, the status, the home
/// message, the language, the language found in the environment (for the
/// port error), and the screen.
#[derive(Debug)]
pub struct App {
    selected: usize,
    status: Option<StatusSnapshot>,
    message: String,
    language: Language,
    detected: Language,
    screen: Screen,
}

/// What a key does on the home page: the app after it and the effect.
pub open spec fn home_key_outcome(before: App, key: KeyInput, after: App, r: Effect) -> bool {
    &&& (after.wf())
    &&& (after.language_view() == before.language_view())
    &&& (after.status_view() == before.status_view())
    &&& (after.message_view() == before.message_view())
    &&& ({
                let k = key.code;
                let a = home_actions()[before.selected_view() as int];
                &&& (k == KeyCode::Char('q') || k == KeyCode::Esc) ==> r is Quit
                    && after.screen_view() is Home && after.selected_view() == before.selected_view()
                &&& k == KeyCode::Char('r') ==> r == Effect::Need(Need::Refresh)
                    && after.screen_view() is Home && after.selected_view() == before.selected_view()
                &&& is_down(k) ==> r is Nothing && after.selected_view() == next_index(
                    before.selected_view(),
                    5,
                ) && after.screen_view() is Home
                &&& is_up(k) ==> r is Nothing && after.selected_view() == previous_index(
                    before.selected_view(),
                    5,
                ) && after.screen_view() is Home
                &&& k == KeyCode::Enter ==> after.selected_view() == before.selected_view()
                    && match a {
                    Action::StartStop => r == Effect::Need(Need::RunningState)
                        && after.screen_view() is Home,
                    Action::Profiles => r == Effect::Need(Need::ProfileList)
                        && after.screen_view() is Home,
                    Action::ListProxies => r == Effect::Need(Need::ProxyGroups)
                        && after.screen_view() is Home,
                    Action::ToggleShellProxy => r == Effect::Need(Need::ShellProxyState)
                        && after.screen_view() is Home,
                    Action::Settings => ({ &&& after.screen_view() matches Screen::Settings(
                        p,
                    ) &&& r is Nothing &&& p.items@ == settings_items() &&& p.selected == 0 &&& p.message@
                        == message_text(before.language_view(), Message::SettingsLoaded) }),
                }
                &&& !(k == KeyCode::Char('q') || k == KeyCode::Esc || k == KeyCode::Char('r') || is_down(k)
                    || is_up(k) || k == KeyCode::Enter) ==> r is Nothing && after.screen_view() is Home
                    && after.selected_view() == before.selected_view()
            })
}

/// What a key does on the confirmation: the app after it and the effect.
pub open spec fn confirm_key_outcome(before: App, page: ConfirmPage, key: KeyInput, after: App, r: Effect) -> bool {
    &&& (after.selected_view() == before.selected_view())
    &&& (after.language_view() == before.language_view())
    &&& (after.status_view() == before.status_view())
    &&& ({
                let k = key.code;
                let cancel = k == KeyCode::Esc || k == KeyCode::Char('q') || k == KeyCode::Char('n')
                    || (k == KeyCode::Enter && !page.selected_yes);
                let toggle = k == KeyCode::Left || k == KeyCode::Right || k == KeyCode::Tab || k
                    == KeyCode::Char('h') || k == KeyCode::Char('l');
                let run = k == KeyCode::Char('y') || (k == KeyCode::Enter && page.selected_yes);
                &&& cancel ==> r is Nothing && after.screen_view() is Home
                    && after.message_view() == page.cancel_message@
                &&& toggle ==> ({ &&& after.screen_view() matches Screen::Confirm(c) &&& r is Nothing &&& c.selected_yes == !page.selected_yes &&& c.request == page.request &&& after.message_view() == before.message_view() })
                &&& run ==> ({ &&& r matches Effect::Run(q) &&& q == page.request &&& after.screen_view() matches Screen::Confirm(c) &&& c.title
                    == page.title &&& after.message_view() == before.message_view() })
                &&& !cancel && !toggle && !run ==> r is Nothing && after.screen_view()
                    == Screen::Confirm(page) && after.message_view() == before.message_view()
            })
}

/// What a key does on a page other than home and a confirmation, given the
/// interface language and the language found in the environment.
pub open spec fn page_key_outcome(
    screen: Screen,
    key: KeyInput,
    language: Language,
    detected: Language,
    r: (Screen, Effect),
) -> bool {
    match screen {
        Screen::Settings(p) => settings_key_outcome(p, key, language, r),
        Screen::Language(p) => language_key_outcome(p, key, r),
        Screen::Profiles(p) => profiles_key_outcome(p, key, language, r),
        Screen::Form(f) => form_key_outcome(f, key, detected, r),
        Screen::Mode(p) => mode_key_outcome(p, key, language, r),
        Screen::Logs(p) => text_key_outcome(p, key, r),
        Screen::Proxies(p) => proxies_key_outcome(p, key, language, r),
        Screen::ProxyGroup(p) => proxy_group_key_outcome(p, key, language, r),
        Screen::Output(p) => output_key_outcome(p, key, r),
        _ => false,
    }
}

impl App {
    pub closed spec fn selected_view(self) -> nat {
        self.selected as nat
    }

    pub closed spec fn status_view(self) -> Option<StatusSnapshot> {
        self.status
    }

    pub closed spec fn message_view(self) -> Seq<char> {
        self.message@
    }

    pub closed spec fn language_view(self) -> Language {
        self.language
    }

    pub closed spec fn detected_view(self) -> Language {
        self.detected
    }

    pub closed spec fn screen_view(self) -> Screen {
        self.screen
    }

    /// The selection is on one of the home actions.
    pub open spec fn wf(self) -> bool {
        self.selected_view() < 5
    }

    /// The interface at start: home, the first action selected, no status
    /// yet, in the language found in the environment.
    pub fn new(detected: Language) -> (r: App)
        ensures
            r.wf(),
            r.selected_view() == 0,
            r.status_view() is None,
            r.message_view() == message_text(detected, Message::Ready),
            r.language_view() == detected,
            r.detected_view() == detected,
            r.screen_view() is Home,
    {
        App {
            selected: 0,
            status: None,
            message: owned(detected.tr(Message::Ready)),
            language: detected,
            detected,
            screen: Screen::Home,
        }
    }

    /// The home actions, in order.
    pub fn actions(&self) -> (r: Vec<Action>)
        ensures
            r@ == home_actions(),
    {
        let mut v = Vec::new();
        v.push(Action::StartStop);
        v.push(Action::Profiles);
        v.push(Action::ListProxies);
        v.push(Action::ToggleShellProxy);
        v.push(Action::Settings);
        assert(v@ =~= home_actions());
        v
    }

    /// The index of the selected home action.
    pub fn selected(&self) -> (r: usize)
        ensures
            r == self.selected_view(),
    {
        self.selected
    }

    /// The selected home action.
    pub fn selected_action(&self) -> (r: Action)
        requires
            self.wf(),
        ensures
            r == home_actions()[self.selected_view() as int],
    {
        match self.selected {
            0 => Action::StartStop,
            1 => Action::Profiles,
            2 => Action::ListProxies,
            3 => Action::ToggleShellProxy,
            _ => Action::Settings,
        }
    }

    /// The status last read, if it could be.
    pub fn status(&self) -> (r: Option<&StatusSnapshot>)
        ensures
            match r {
                Some(s) => self.status_view() == Some(*s),
                None => self.status_view() is None,
            },
    {
        match &self.status {
            Some(s) => Some(s),
            None => None,
        }
    }

    /// The home message.
    pub fn message(&self) -> (r: &str)
        ensures
            r@ == self.message_view(),
    {
        self.message.as_str()
    }

    /// The language of the interface.
    pub fn language(&self) -> (r: Language)
        ensures
            r == self.language_view(),
    {
        self.language
    }

    /// The screen on show.
    pub fn screen(&self) -> (r: &Screen)
        ensures
            *r == self.screen_view(),
    {
        &self.screen
    }

    /// Shows another screen.
    pub fn set_screen(&mut self, screen: Screen)
        ensures
            final(self).screen_view() == screen,
            final(self).selected_view() == old(self).selected_view(),
            final(self).status_view() == old(self).status_view(),
            final(self).message_view() == old(self).message_view(),
            final(self).language_view() == old(self).language_view(),
            final(self).detected_view() == old(self).detected_view(),
    {
        self.screen = screen;
    }

    /// Takes the screen on show, leaving home in its place.
    pub fn take_screen(&mut self) -> (r: Screen)
        ensures
            r == old(self).screen_view(),
            final(self).screen_view() is Home,
            final(self).selected_view() == old(self).selected_view(),
            final(self).status_view() == old(self).status_view(),
            final(self).message_view() == old(self).message_view(),
            final(self).language_view() == old(self).language_view(),
            final(self).detected_view() == old(self).detected_view(),
    {
        let mut screen = Screen::Home;
        std::mem::swap(&mut screen, &mut self.screen);
        screen
    }

    /// Takes in a new reading of the language and the status.
    pub fn refreshed(&mut self, language: Language, status: Option<StatusSnapshot>)
        ensures
            final(self).language_view() == language,
            final(self).status_view() == status,
            final(self).screen_view() == old(self).screen_view(),
            final(self).selected_view() == old(self).selected_view(),
            final(self).message_view() == old(self).message_view(),
            final(self).detected_view() == old(self).detected_view(),
    {
        self.language = language;
        self.status = status;
    }

    /// Says that the status was read again.
    pub fn announce_refreshed(&mut self)
        ensures
            final(self).message_view() == message_text(old(self).language_view(), Message::Refreshed),
            final(self).language_view() == old(self).language_view(),
            final(self).status_view() == old(self).status_view(),
            final(self).screen_view() == old(self).screen_view(),
            final(self).selected_view() == old(self).selected_view(),
            final(self).detected_view() == old(self).detected_view(),
    {
        self.message = owned(self.language.tr(Message::Refreshed));
    }

    /// Shows the question to install the missing core at `core_file`.
    pub fn ask_install_core(&mut self, core_file: &str)
        ensures
            final(self).screen_view() matches Screen::Confirm(c) && c.title@ == message_text(
                old(self).language_view(),
                Message::InstallMihomoCore,
            ) && views(c.request.args@) == seq!["core"@, "install"@] && c.question@ == message_text(
                old(self).language_view(),
                Message::MihomoCoreMissingInstallQuestion,
            ) + " "@ + core_file@ + "?"@ && c.selected_yes && c.cancel_message@ == message_text(
                old(self).language_view(),
                Message::CoreInstallSkipped,
            ),
            final(self).selected_view() == old(self).selected_view(),
            final(self).language_view() == old(self).language_view(),
            final(self).message_view() == old(self).message_view(),
    {
        self.screen = Screen::Confirm(install_core_page(core_file, self.language));
    }

    /// A key on the home page: quit; read the status again; move through the
    /// actions; or start the selected one.
    fn handle_home_key(&mut self, key: KeyInput) -> (r: Effect)
        requires
            old(self).wf(),
        ensures
            home_key_outcome(*old(self), key, *final(self), r),
    {
        let k = key.code;
        self.screen = Screen::Home;
        if k == KeyCode::Char('q') || k == KeyCode::Esc {
            return Effect::Quit;
        }
        if k == KeyCode::Char('r') {
            return Effect::Need(Need::Refresh);
        }
        if down_key(k) {
            proof {
                crate::tui::pages::lemma_moves_undo_each_other(self.selected as nat, 5);
            }
            self.selected = wrap_next(self.selected, 5);
            return Effect::Nothing;
        }
        if up_key(k) {
            proof {
                crate::tui::pages::lemma_moves_undo_each_other(self.selected as nat, 5);
            }
            self.selected = wrap_previous(self.selected, 5);
            return Effect::Nothing;
        }
        if k == KeyCode::Enter {
            return match self.selected_action() {
                Action::StartStop => Effect::Need(Need::RunningState),
                Action::Profiles => Effect::Need(Need::ProfileList),
                Action::ListProxies => Effect::Need(Need::ProxyGroups),
                Action::ToggleShellProxy => Effect::Need(Need::ShellProxyState),
                Action::Settings => {
                    self.screen = Screen::Settings(SettingsPage::load(self.language));
                    Effect::Nothing
                },
            };
        }
        Effect::Nothing
    }

    /// A key on a confirmation: cancel (the home message says so); switch
    /// the button; `y` runs the command; Enter runs it when "yes" is chosen,
    /// else cancels.
    fn handle_confirm_key(&mut self, page: ConfirmPage, key: KeyInput) -> (r: Effect)
        ensures
            confirm_key_outcome(*old(self), page, key, *final(self), r),
    {
        let mut page = page;
        let k = key.code;
        if k == KeyCode::Esc || k == KeyCode::Char('q') || k == KeyCode::Char('n') || (k
            == KeyCode::Enter && !page.selected_yes) {
            self.message = page.cancel_message.clone();
            self.screen = Screen::Home;
            return Effect::Nothing;
        }
        if k == KeyCode::Left || k == KeyCode::Right || k == KeyCode::Tab || k == KeyCode::Char('h')
            || k == KeyCode::Char('l') {
            page.toggle();
            self.screen = Screen::Confirm(page);
            return Effect::Nothing;
        }
        if k == KeyCode::Char('y') || (k == KeyCode::Enter && page.selected_yes) {
            let shown = page.duplicate();
            self.screen = Screen::Confirm(shown);
            return Effect::Run(page.request);
        }
        self.screen = Screen::Confirm(page);
        Effect::Nothing
    }

    /// A key: Control-C quits from anywhere; otherwise the page on show
    /// handles it.
    pub fn handle_key(&mut self, key: KeyInput) -> (r: Effect)
        requires
            old(self).wf(),
        ensures
            final(self).wf(),
            final(self).language_view() == old(self).language_view(),
            final(self).status_view() == old(self).status_view(),
            key.ctrl && key.code == KeyCode::Char('c') ==> r is Quit && final(self).screen_view()
                == old(self).screen_view(),
            !(key.ctrl && key.code == KeyCode::Char('c')) ==> match old(self).screen_view() {
                Screen::Home => home_key_outcome(*old(self), key, *final(self), r),
                Screen::Confirm(page) => confirm_key_outcome(*old(self), page, key, *final(self), r),
                _ => ({
                    &&& final(self).selected_view() == old(self).selected_view()
                    &&& final(self).message_view() == old(self).message_view()
                    &&& page_key_outcome(
                        old(self).screen_view(),
                        key,
                        old(self).language_view(),
                        old(self).detected_view(),
                        (final(self).screen_view(), r),
                    )
                }),
            },
    {
        if key.ctrl && key.code == KeyCode::Char('c') {
            return Effect::Quit;
        }
        let screen = self.take_screen();
        let language = self.language;
        let (next, effect) = match screen {
            Screen::Home => {
                let e = self.handle_home_key(key);
                return e;
            },
            Screen::Settings(page) => handle_settings_key(page, key, language),
            Screen::Language(page) => handle_language_key(page, key),
            Screen::Profiles(page) => handle_profiles_key(page, key, language),
            Screen::Form(form) => handle_form_key(form, key, self.detected),
            Screen::Mode(page) => handle_mode_key(page, key, language),
            Screen::Logs(page) => handle_text_key(page, key),
            Screen::Proxies(page) => handle_proxies_key(page, key, language),
            Screen::ProxyGroup(page) => handle_proxy_group_key(page, key, language),
            Screen::Output(page) => handle_output_key(page, key),
            Screen::Confirm(page) => {
                let e = self.handle_confirm_key(page, key);
                return e;
            },
        };
        self.screen = next;
        effect
    }

    // -----------------------------------------------------------------
    // Results of the work the program did
    // -----------------------------------------------------------------

    /// Whether the core runs: the command to stop or start it.
    pub fn on_running_state(&self, running: bool) -> (r: Effect)
        ensures
            r matches Effect::Run(q) && start_stop_request_for(running, self.language_view(), q),
    {
        Effect::Run(start_stop_request(running, self.language))
    }

    /// The profiles, or the error met listing them.
    pub fn on_profiles(&mut self, profiles: Result<Vec<ProfileSummary>, String>)
        ensures
            final(self).wf() == old(self).wf(),
            final(self).selected_view() == old(self).selected_view(),
            final(self).language_view() == old(self).language_view(),
            final(self).message_view() == old(self).message_view(),
            final(self).status_view() == old(self).status_view(),
            match profiles {
                Ok(v) => ({ &&& final(self).screen_view() matches Screen::Profiles(p) &&& p.profiles@ == v@ &&& p.selected == 0 &&& p.message@ == message_text(old(self).language_view(), Message::ProfilesLoaded) }),
                Err(e) => ({ &&& final(self).screen_view() matches Screen::Output(o) &&& o.title@
                    == message_text(old(self).language_view(), Message::Profiles) &&& views(o.lines@)
                    == seq![e@] &&& o.success == Some(false) }),
            },
    {
        self.screen = match profiles {
            Ok(v) => Screen::Profiles(ProfilePage::load(v, self.language)),
            Err(e) => Screen::Output(
                OutputPage::error(self.language.tr(Message::Profiles), e, self.language),
            ),
        };
    }

    /// The proxy groups page, or the error met building it.
    pub fn on_proxy_groups(&mut self, loaded: Result<ProxyPage, String>)
        ensures
            final(self).wf() == old(self).wf(),
            final(self).selected_view() == old(self).selected_view(),
            final(self).language_view() == old(self).language_view(),
            final(self).message_view() == old(self).message_view(),
            final(self).status_view() == old(self).status_view(),
            match loaded {
                Ok(p) => final(self).screen_view() == Screen::Proxies(p),
                Err(e) => ({ &&& final(self).screen_view() matches Screen::Output(o) &&& o.title@
                    == message_text(old(self).language_view(), Message::ProxyGroupsAndNodes) &&& views(o.lines@) == seq![e@] &&& o.success == Some(false) }),
            },
    {
        self.screen = match loaded {
            Ok(p) => Screen::Proxies(p),
            Err(e) => Screen::Output(
                OutputPage::error(self.language.tr(Message::ProxyGroupsAndNodes), e, self.language),
            ),
        };
    }

    /// Whether the shell proxy block is in `~/.bashrc`: the question to
    /// remove it, or to add it.
    pub fn on_shell_proxy_state(&mut self, present: bool)
        ensures
            final(self).wf() == old(self).wf(),
            final(self).selected_view() == old(self).selected_view(),
            final(self).language_view() == old(self).language_view(),
            final(self).message_view() == old(self).message_view(),
            final(self).screen_view() matches Screen::Confirm(c) && shell_proxy_page_for(
                present,
                old(self).language_view(),
                c,
            ),
    {
        self.screen = Screen::Confirm(shell_proxy_page(present, self.language));
    }

    /// The configured mixed port (`None` when the config could not be read):
    /// the form to change it.
    pub fn on_mixed_port_config(&mut self, port: Option<u16>)
        ensures
            final(self).wf() == old(self).wf(),
            final(self).selected_view() == old(self).selected_view(),
            final(self).language_view() == old(self).language_view(),
            final(self).message_view() == old(self).message_view(),
            final(self).screen_view() matches Screen::Form(f) && mixed_port_form_for(
                port,
                old(self).language_view(),
                f,
            ),
    {
        self.screen = Screen::Form(InputForm::mixed_port(port, self.language));
    }

    /// The controller's configs (`None` when it could not be reached): the
    /// mode page.
    pub fn on_controller_configs(&mut self, configs: Option<&JsonNode>)
        ensures
            final(self).wf() == old(self).wf(),
            final(self).selected_view() == old(self).selected_view(),
            final(self).language_view() == old(self).language_view(),
            final(self).message_view() == old(self).message_view(),
            final(self).screen_view() matches Screen::Mode(p) && mode_page_for(
                match configs {
                    Some(c) => Some(*c),
                    None => None,
                },
                old(self).language_view(),
                p,
            ),
    {
        self.screen = Screen::Mode(ModePage::load(configs, self.language));
    }

    /// The end of the log (or the error met reading it): the log page.
    pub fn on_logs(&mut self, path: &str, tail: Result<String, String>)
        ensures
            final(self).wf() == old(self).wf(),
            final(self).selected_view() == old(self).selected_view(),
            final(self).language_view() == old(self).language_view(),
            final(self).message_view() == old(self).message_view(),
            final(self).screen_view() matches Screen::Logs(t) && logs_page_for(
                path@,
                match tail {
                    Ok(s) => Ok(s@),
                    Err(e) => Err(e@),
                },
                old(self).language_view(),
                t,
            ),
    {
        self.screen = Screen::Logs(TextPage::logs(path, tail, self.language));
    }

    /// Whether the language was saved: on success the settings page says so
    /// in that language and the status is read again; on failure the
    /// language page shows the error.
    pub fn on_language_saved(&mut self, language: Language, saved: Result<(), String>) -> (r:
        Effect)
        ensures
            final(self).wf() == old(self).wf(),
            final(self).selected_view() == old(self).selected_view(),
            final(self).language_view() == old(self).language_view(),
            final(self).message_view() == old(self).message_view(),
            match saved {
                Ok(()) => ({ &&& final(self).screen_view() matches Screen::Settings(p) &&& r is Refresh &&& p.items@ == settings_items() &&& p.items@[p.selected as int] == SettingsItemKind::Language &&& p.message@
                    == message_text(language, Message::LanguageSaved) }),
                Err(e) => r is Nothing && match old(self).screen_view() {
                    Screen::Language(p) => ({ &&& final(self).screen_view() matches Screen::Language(q) &&& q.message@ == e@ &&& q.selected == p.selected &&& q.current == p.current }),
                    _ => final(self).screen_view() == old(self).screen_view(),
                },
            },
    {
        match saved {
            Ok(()) => {
                self.screen = settings_screen_with_message(
                    owned(language.tr(Message::LanguageSaved)),
                    language,
                    SettingsItemKind::Language,
                );
                Effect::Refresh
            },
            Err(e) => {
                let screen = self.take_screen();
                self.screen = match screen {
                    Screen::Language(mut p) => {
                        p.message = e;
                        Screen::Language(p)
                    },
                    other => other,
                };
                Effect::Nothing
            },
        }
    }

    /// Whether the mixed port was saved, with the port and the configured
    /// language: on success the settings page says so and the status is
    /// read again; on failure the form shows the error.
    pub fn on_mixed_port_saved(&mut self, saved: Result<(u16, Language), String>) -> (r: Effect)
        ensures
            final(self).wf() == old(self).wf(),
            final(self).selected_view() == old(self).selected_view(),
            final(self).language_view() == old(self).language_view(),
            final(self).message_view() == old(self).message_view(),
            match saved {
                Ok((port, language)) => ({ &&& final(self).screen_view() matches Screen::Settings(
                    p,
                ) &&& r is Refresh &&& p.items@ == settings_items() &&& p.items@[p.selected as int] == SettingsItemKind::MixedPort &&& p.message@
                    == message_text(language, Message::MixedPortSaved) + " ("@ + decimal(port as nat)
                    + ")"@ }),
                Err(e) => r is Nothing && match old(self).screen_view() {
                    Screen::Form(f) => ({ &&& final(self).screen_view() matches Screen::Form(g) &&& g.message_view() == e@ &&& g.fields_view() == f.fields_view() }),
                    _ => final(self).screen_view() == old(self).screen_view(),
                },
            },
    {
        match saved {
            Ok((port, language)) => {
                let message = concat4(
                    language.tr(Message::MixedPortSaved),
                    " (",
                    decimal_string(port as u64).as_str(),
                    ")",
                );
                self.screen = settings_screen_with_message(
                    message,
                    language,
                    SettingsItemKind::MixedPort,
                );
                Effect::Refresh
            },
            Err(e) => {
                let screen = self.take_screen();
                self.screen = match screen {
                    Screen::Form(mut f) => {
                        f.set_message(e);
                        Screen::Form(f)
                    },
                    other => other,
                };
                Effect::Nothing
            },
        }
    }
}

} // verus!
