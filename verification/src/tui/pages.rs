//! The pages of the terminal interface: what each holds, how a selection
//! moves through a list, and how each page is built.
use vstd::prelude::*;
use vstd::string::StringExecFns;
use crate::config::default_config;
use crate::i18n::{message_text, Language, Message};
use crate::json::{json_get, json_str, JsonNode};
use crate::lines::{views, join};
use crate::number::decimal;
use crate::profile::ProfileSummary;
use crate::text::{concat2, concat3, is_blank, owned, trim, trim_str};

verus! {

// ---------------------------------------------------------------------
// Moving a selection through a list
// ---------------------------------------------------------------------

/// The selection after moving down a list of `n` entries, wrapping to the
/// top; unchanged in an empty list.
pub open spec fn next_index(s: nat, n: nat) -> nat {
    if n == 0 {
        s
    } else {
        ((s + 1) % n) as nat
    }
}

/// The selection after moving up a list of `n` entries, wrapping to the
/// bottom; unchanged in an empty list.
pub open spec fn previous_index(s: nat, n: nat) -> nat {
    if n == 0 {
        s
    } else if s == 0 {
        (n - 1) as nat
    } else {
        (s - 1) as nat
    }
}

/// The selection after moving down a list of `n` entries.
pub fn wrap_next(s: usize, n: usize) -> (r: usize)
    ensures
        r == next_index(s as nat, n as nat),
{
    if n == 0 {
        s
    } else {
        let m = s % n;
        assert(((m + 1) as int) % (n as int) == ((s + 1) as int) % (n as int)) by (nonlinear_arith)
            requires
                n > 0,
                m == s % n,
        ;
        (m + 1) % n
    }
}

/// The selection after moving up a list of `n` entries.
pub fn wrap_previous(s: usize, n: usize) -> (r: usize)
    ensures
        r == previous_index(s as nat, n as nat),
{
    if n == 0 {
        s
    } else if s == 0 {
        n - 1
    } else {
        s - 1
    }
}

/// Moving down and up a nonempty list keeps the selection on an entry, and
/// each move undoes the other.
pub proof fn lemma_moves_undo_each_other(s: nat, n: nat)
    requires
        s < n,
    ensures
        next_index(s, n) < n,
        previous_index(s, n) < n,
        previous_index(next_index(s, n), n) == s,
        next_index(previous_index(s, n), n) == s,
{
    if s + 1 < n {
        assert((s + 1) % n == s + 1) by (nonlinear_arith)
            requires
                s + 1 < n,
        ;
    } else {
        assert((s + 1) % n == 0) by (nonlinear_arith)
            requires
                s + 1 == n,
        ;
    }
    if s > 0 {
        assert(((s - 1) + 1) % (n as int) == s) by (nonlinear_arith)
            requires
                0 < s < n,
        ;
    } else {
        assert(((n - 1) + 1) % (n as int) == 0) by (nonlinear_arith)
            requires
                n > 0,
        ;
    }
}

/// Moving down a nonempty list as many times as it has entries brings the
/// selection back where it was.
pub proof fn lemma_full_cycle(s: nat, n: nat)
    requires
        s < n,
    ensures
        moved_down(s, n, n) == s,
{
    lemma_moved_down_mod(s, n, n);
    assert((s + n) % n == s) by (nonlinear_arith)
        requires
            s < n,
    ;
}

proof fn lemma_moved_down_mod(s: nat, n: nat, k: nat)
    requires
        s < n,
    ensures
        moved_down(s, n, k) == (s + k) % n,
    decreases k,
{
    if k > 0 {
        lemma_moved_down_mod(s, n, (k - 1) as nat);
        let p = moved_down(s, n, (k - 1) as nat);
        assert((p + 1) % n == (s + k) % n) by (nonlinear_arith)
            requires
                p == (s + (k - 1)) % (n as int),
                n > 0,
        ;
    } else {
        assert(s % n == s) by (nonlinear_arith)
            requires
                s < n,
        ;
    }
}

/// The selection after `k` moves down.
pub open spec fn moved_down(s: nat, n: nat, k: nat) -> nat
    decreases k,
{
    if k == 0 {
        s
    } else {
        next_index(moved_down(s, n, (k - 1) as nat), n)
    }
}

// ---------------------------------------------------------------------
// Home page actions
// ---------------------------------------------------------------------

/// An action of the home page.
#[derive(Clone, Copy, Debug, PartialEq, Eq, Structural)]
pub enum Action {
    StartStop,
    Profiles,
    ListProxies,
    ToggleShellProxy,
    Settings,
}

/// The actions of the home page, in order.
pub open spec fn home_actions() -> Seq<Action> {
    seq![
        Action::StartStop,
        Action::Profiles,
        Action::ListProxies,
        Action::ToggleShellProxy,
        Action::Settings,
    ]
}

pub open spec fn action_label_message(a: Action) -> Message {
    match a {
        Action::StartStop => Message::StartStopMihomo,
        Action::Profiles => Message::Profiles,
        Action::ListProxies => Message::ProxyGroupsAndNodes,
        Action::ToggleShellProxy => Message::ToggleShellProxy,
        Action::Settings => Message::Settings,
    }
}

pub open spec fn action_detail_message(a: Action) -> Message {
    match a {
        Action::StartStop => Message::StartStopDetail,
        Action::Profiles => Message::ProfilesDetail,
        Action::ListProxies => Message::ProxyGroupsDetail,
        Action::ToggleShellProxy => Message::ToggleShellProxyDetail,
        Action::Settings => Message::SettingsDetail,
    }
}

impl Action {
    /// The action's name.
    pub fn label(self, language: Language) -> (r: &'static str)
        ensures
            r@ == message_text(language, action_label_message(self)),
    {
        match self {
            Action::StartStop => language.tr(Message::StartStopMihomo),
            Action::Profiles => language.tr(Message::Profiles),
            Action::ListProxies => language.tr(Message::ProxyGroupsAndNodes),
            Action::ToggleShellProxy => language.tr(Message::ToggleShellProxy),
            Action::Settings => language.tr(Message::Settings),
        }
    }

    /// What the action does.
    pub fn detail(self, language: Language) -> (r: &'static str)
        ensures
            r@ == message_text(language, action_detail_message(self)),
    {
        match self {
            Action::StartStop => language.tr(Message::StartStopDetail),
            Action::Profiles => language.tr(Message::ProfilesDetail),
            Action::ListProxies => language.tr(Message::ProxyGroupsDetail),
            Action::ToggleShellProxy => language.tr(Message::ToggleShellProxyDetail),
            Action::Settings => language.tr(Message::SettingsDetail),
        }
    }
}

// ---------------------------------------------------------------------
// Settings
// ---------------------------------------------------------------------

/// An entry of the settings page.
#[derive(Clone, Copy, Debug, PartialEq, Eq, Structural)]
pub enum SettingsItemKind {
    Language,
    MixedPort,
    SwitchMode,
    Logs,
    CheckUpdateCore,
}

/// The entries of the settings page, in order.
pub open spec fn settings_items() -> Seq<SettingsItemKind> {
    seq![
        SettingsItemKind::Language,
        SettingsItemKind::MixedPort,
        SettingsItemKind::SwitchMode,
        SettingsItemKind::Logs,
        SettingsItemKind::CheckUpdateCore,
    ]
}

pub open spec fn item_label_message(k: SettingsItemKind) -> Message {
    match k {
        SettingsItemKind::Language => Message::Language,
        SettingsItemKind::MixedPort => Message::CustomPort,
        SettingsItemKind::SwitchMode => Message::SwitchMode,
        SettingsItemKind::Logs => Message::Logs,
        SettingsItemKind::CheckUpdateCore => Message::CheckUpdateCore,
    }
}

pub open spec fn item_summary_message(k: SettingsItemKind) -> Message {
    match k {
        SettingsItemKind::Language => Message::LanguageSummary,
        SettingsItemKind::MixedPort => Message::CustomPortSummary,
        SettingsItemKind::SwitchMode => Message::SwitchModeSummary,
        SettingsItemKind::Logs => Message::LogsSummary,
        SettingsItemKind::CheckUpdateCore => Message::CheckUpdateCoreSummary,
    }
}

pub open spec fn item_status_message(k: SettingsItemKind) -> Message {
    match k {
        SettingsItemKind::Language | SettingsItemKind::MixedPort => Message::EditStatus,
        SettingsItemKind::SwitchMode | SettingsItemKind::Logs => Message::OpenStatus,
        SettingsItemKind::CheckUpdateCore => Message::ConfirmStatus,
    }
}

pub open spec fn item_scope_message(k: SettingsItemKind) -> Message {
    match k {
        SettingsItemKind::Language => Message::TerminalUi,
        SettingsItemKind::MixedPort => Message::RuntimeConfig,
        SettingsItemKind::SwitchMode => Message::MihomoController,
        SettingsItemKind::Logs => Message::Runtime,
        SettingsItemKind::CheckUpdateCore => Message::ManagedCore,
    }
}

pub open spec fn item_detail_message(k: SettingsItemKind) -> Message {
    match k {
        SettingsItemKind::Language => Message::LanguageDetail,
        SettingsItemKind::MixedPort => Message::CustomPortDetail,
        SettingsItemKind::SwitchMode => Message::SwitchModeDetail,
        SettingsItemKind::Logs => Message::LogsDetail,
        SettingsItemKind::CheckUpdateCore => Message::CheckUpdateCoreDetail,
    }
}

/// A line of a details panel: a labelled value, or plain text.
#[derive(Debug)]
pub enum DetailLine {
    Field(String, String),
    Text(String),
}

/// A details line as plain values: the label (`None` for plain text) and the
/// text.
pub open spec fn detail_view(d: DetailLine) -> (Option<Seq<char>>, Seq<char>) {
    match d {
        DetailLine::Field(l, v) => (Some(l@), v@),
        DetailLine::Text(t) => (None, t@),
    }
}

pub open spec fn detail_views(ds: Seq<DetailLine>) -> Seq<(Option<Seq<char>>, Seq<char>)> {
    ds.map_values(|d: DetailLine| detail_view(d))
}

/// A labelled details line.
pub fn field_line(label: &str, value: String) -> (r: DetailLine)
    ensures
        detail_view(r) == (Some(label@), value@),
{
    DetailLine::Field(owned(label), value)
}

/// A plain details line.
pub fn text_line(text: &str) -> (r: DetailLine)
    ensures
        detail_view(r) == (None::<Seq<char>>, text@),
{
    DetailLine::Text(owned(text))
}

impl SettingsItemKind {
    /// The entry's name.
    pub fn label(self, language: Language) -> (r: &'static str)
        ensures
            r@ == message_text(language, item_label_message(self)),
    {
        match self {
            SettingsItemKind::Language => language.tr(Message::Language),
            SettingsItemKind::MixedPort => language.tr(Message::CustomPort),
            SettingsItemKind::SwitchMode => language.tr(Message::SwitchMode),
            SettingsItemKind::Logs => language.tr(Message::Logs),
            SettingsItemKind::CheckUpdateCore => language.tr(Message::CheckUpdateCore),
        }
    }

    /// A short description of the entry.
    pub fn summary(self, language: Language) -> (r: &'static str)
        ensures
            r@ == message_text(language, item_summary_message(self)),
    {
        match self {
            SettingsItemKind::Language => language.tr(Message::LanguageSummary),
            SettingsItemKind::MixedPort => language.tr(Message::CustomPortSummary),
            SettingsItemKind::SwitchMode => language.tr(Message::SwitchModeSummary),
            SettingsItemKind::Logs => language.tr(Message::LogsSummary),
            SettingsItemKind::CheckUpdateCore => language.tr(Message::CheckUpdateCoreSummary),
        }
    }

    /// What choosing the entry does: edit, open or confirm.
    pub fn status(self, language: Language) -> (r: &'static str)
        ensures
            r@ == message_text(language, item_status_message(self)),
    {
        match self {
            SettingsItemKind::Language | SettingsItemKind::MixedPort => language.tr(
                Message::EditStatus,
            ),
            SettingsItemKind::SwitchMode | SettingsItemKind::Logs => language.tr(
                Message::OpenStatus,
            ),
            SettingsItemKind::CheckUpdateCore => language.tr(Message::ConfirmStatus),
        }
    }

    /// What the entry affects.
    pub fn scope(self, language: Language) -> (r: &'static str)
        ensures
            r@ == message_text(language, item_scope_message(self)),
    {
        match self {
            SettingsItemKind::Language => language.tr(Message::TerminalUi),
            SettingsItemKind::MixedPort => language.tr(Message::RuntimeConfig),
            SettingsItemKind::SwitchMode => language.tr(Message::MihomoController),
            SettingsItemKind::Logs => language.tr(Message::Runtime),
            SettingsItemKind::CheckUpdateCore => language.tr(Message::ManagedCore),
        }
    }

    /// The long description of the entry.
    pub fn detail(self, language: Language) -> (r: &'static str)
        ensures
            r@ == message_text(language, item_detail_message(self)),
    {
        match self {
            SettingsItemKind::Language => language.tr(Message::LanguageDetail),
            SettingsItemKind::MixedPort => language.tr(Message::CustomPortDetail),
            SettingsItemKind::SwitchMode => language.tr(Message::SwitchModeDetail),
            SettingsItemKind::Logs => language.tr(Message::LogsDetail),
            SettingsItemKind::CheckUpdateCore => language.tr(Message::CheckUpdateCoreDetail),
        }
    }

    /// The details panel of the entry: its name, what choosing it does, what
    /// it affects, and its description.
    pub fn detail_lines(self, language: Language) -> (r: Vec<DetailLine>)
        ensures
            detail_views(r@) == seq![
                (
                    Some(message_text(language, Message::Name)),
                    message_text(language, item_label_message(self)),
                ),
                (
                    Some(message_text(language, Message::Status)),
                    message_text(language, item_status_message(self)),
                ),
                (
                    Some(message_text(language, Message::Scope)),
                    message_text(language, item_scope_message(self)),
                ),
                (None, message_text(language, item_detail_message(self))),
            ],
    {
        let mut r: Vec<DetailLine> = Vec::new();
        r.push(field_line(language.tr(Message::Name), owned(self.label(language))));
        r.push(field_line(language.tr(Message::Status), owned(self.status(language))));
        r.push(field_line(language.tr(Message::Scope), owned(self.scope(language))));
        r.push(text_line(self.detail(language)));
        assert(detail_views(r@) =~= seq![
            detail_view(r@[0]),
            detail_view(r@[1]),
            detail_view(r@[2]),
            detail_view(r@[3]),
        ]);
        r
    }
}

/// The settings page.
#[derive(Debug)]
pub struct SettingsPage {
    pub items: Vec<SettingsItemKind>,
    pub selected: usize,
    pub message: String,
}

impl SettingsPage {
    /// The settings page with its entries, the first selected.
    pub fn load(language: Language) -> (r: SettingsPage)
        ensures
            r.items@ == settings_items(),
            r.selected == 0,
            r.message@ == message_text(language, Message::SettingsLoaded),
    {
        let mut items = Vec::new();
        items.push(SettingsItemKind::Language);
        items.push(SettingsItemKind::MixedPort);
        items.push(SettingsItemKind::SwitchMode);
        items.push(SettingsItemKind::Logs);
        items.push(SettingsItemKind::CheckUpdateCore);
        assert(items@ =~= settings_items());
        SettingsPage {
            items,
            selected: 0,
            message: owned(language.tr(Message::SettingsLoaded)),
        }
    }

    /// The selected entry, if the selection is on one.
    pub fn selected_item(&self) -> (r: Option<SettingsItemKind>)
        ensures
            r == (if self.selected < self.items@.len() {
                Some(self.items@[self.selected as int])
            } else {
                None
            }),
    {
        if self.selected < self.items.len() {
            Some(self.items[self.selected])
        } else {
            None
        }
    }

    /// Moves the selection down, wrapping.
    pub fn next(&mut self)
        ensures
            final(self).selected == next_index(old(self).selected as nat, old(self).items@.len()),
            final(self).items@ == old(self).items@,
            final(self).message == old(self).message,
    {
        self.selected = wrap_next(self.selected, self.items.len());
    }

    /// Moves the selection up, wrapping.
    pub fn previous(&mut self)
        ensures
            final(self).selected == previous_index(
                old(self).selected as nat,
                old(self).items@.len(),
            ),
            final(self).items@ == old(self).items@,
            final(self).message == old(self).message,
    {
        self.selected = wrap_previous(self.selected, self.items.len());
    }
}

// ---------------------------------------------------------------------
// Language
// ---------------------------------------------------------------------

/// The language page.
#[derive(Debug)]
pub struct LanguagePage {
    pub options: Vec<Language>,
    pub selected: usize,
    pub current: Language,
    pub message: String,
}

impl LanguagePage {
    /// The language page with the current language selected.
    pub fn load(current: Language) -> (r: LanguagePage)
        ensures
            r.options@ == seq![Language::English, Language::SimplifiedChinese],
            r.options@[r.selected as int] == current,
            r.current == current,
            r.message@ == message_text(current, Message::ChooseLanguage),
    {
        let options = Language::all();
        let selected: usize = match current {
            Language::English => 0,
            Language::SimplifiedChinese => 1,
        };
        LanguagePage {
            options,
            selected,
            current,
            message: owned(current.tr(Message::ChooseLanguage)),
        }
    }

    /// The selected language; English when the selection is on none.
    pub fn selected_language(&self) -> (r: Language)
        ensures
            r == (if self.selected < self.options@.len() {
                self.options@[self.selected as int]
            } else {
                Language::English
            }),
    {
        if self.selected < self.options.len() {
            self.options[self.selected]
        } else {
            Language::English
        }
    }

    /// Moves the selection down, wrapping.
    pub fn next(&mut self)
        ensures
            final(self).selected == next_index(
                old(self).selected as nat,
                old(self).options@.len(),
            ),
            final(self).options@ == old(self).options@,
            final(self).current == old(self).current,
            final(self).message == old(self).message,
    {
        self.selected = wrap_next(self.selected, self.options.len());
    }

    /// Moves the selection up, wrapping.
    pub fn previous(&mut self)
        ensures
            final(self).selected == previous_index(
                old(self).selected as nat,
                old(self).options@.len(),
            ),
            final(self).options@ == old(self).options@,
            final(self).current == old(self).current,
            final(self).message == old(self).message,
    {
        self.selected = wrap_previous(self.selected, self.options.len());
    }
}

// ---------------------------------------------------------------------
// Profiles
// ---------------------------------------------------------------------

/// The profiles page.
#[derive(Debug)]
pub struct ProfilePage {
    pub profiles: Vec<ProfileSummary>,
    pub selected: usize,
    pub message: String,
}

impl ProfilePage {
    /// The profiles page for the listed profiles, the first selected.
    pub fn load(profiles: Vec<ProfileSummary>, language: Language) -> (r: ProfilePage)
        ensures
            r.profiles@ == profiles@,
            r.selected == 0,
            r.message@ == message_text(language, Message::ProfilesLoaded),
    {
        ProfilePage { profiles, selected: 0, message: owned(language.tr(Message::ProfilesLoaded)) }
    }

    /// The selected profile, if the selection is on one.
    pub fn selected_profile(&self) -> (r: Option<&ProfileSummary>)
        ensures
            match r {
                Some(p) => self.selected < self.profiles@.len() && *p
                    == self.profiles@[self.selected as int],
                None => self.selected >= self.profiles@.len(),
            },
    {
        if self.selected < self.profiles.len() {
            Some(&self.profiles[self.selected])
        } else {
            None
        }
    }

    /// Moves the selection down, wrapping.
    pub fn next(&mut self)
        ensures
            final(self).selected == next_index(
                old(self).selected as nat,
                old(self).profiles@.len(),
            ),
            final(self).profiles@ == old(self).profiles@,
            final(self).message == old(self).message,
    {
        self.selected = wrap_next(self.selected, self.profiles.len());
    }

    /// Moves the selection up, wrapping.
    pub fn previous(&mut self)
        ensures
            final(self).selected == previous_index(
                old(self).selected as nat,
                old(self).profiles@.len(),
            ),
            final(self).profiles@ == old(self).profiles@,
            final(self).message == old(self).message,
    {
        self.selected = wrap_previous(self.selected, self.profiles.len());
    }
}

// ---------------------------------------------------------------------
// Commands
// ---------------------------------------------------------------------

/// A `starail` command to run, with the title of its output page.
#[derive(Debug)]
pub struct CommandRequest {
    pub title: String,
    pub args: Vec<String>,
}

impl CommandRequest {
    /// A command with the given arguments.
    pub fn new(title: &str, args: Vec<String>) -> (r: CommandRequest)
        ensures
            r.title@ == title@,
            r.args@ == args@,
    {
        CommandRequest { title: owned(title), args }
    }

    /// A command with fixed arguments.
    pub fn static_args(title: &str, args: &Vec<&str>) -> (r: CommandRequest)
        ensures
            r.title@ == title@,
            views(r.args@) == args@.map_values(|a: &str| a@),
    {
        let mut v: Vec<String> = Vec::new();
        let mut i: usize = 0;
        while i < args.len()
            invariant
                i <= args@.len(),
                views(v@) == args@.take(i as int).map_values(|a: &str| a@),
            decreases args@.len() - i,
        {
            let ghost before = v@;
            v.push(owned(args[i]));
            assert(views(v@) =~= views(before).push(args@[i as int]@));
            assert(args@.take(i + 1) =~= args@.take(i as int).push(args@[i as int]));
            assert(views(v@) =~= args@.take(i + 1).map_values(|a: &str| a@));
            i += 1;
        }
        assert(args@.take(args@.len() as int) == args@);
        CommandRequest { title: owned(title), args: v }
    }

    /// An equal copy.
    pub fn duplicate(&self) -> (r: CommandRequest)
        ensures
            r.title == self.title,
            r.args@ == self.args@,
    {
        CommandRequest { title: self.title.clone(), args: self.args.clone() }
    }
}

/// Arguments as a vector of strings.
pub fn args_of(args: &Vec<&str>) -> (r: Vec<String>)
    ensures
        views(r@) == args@.map_values(|a: &str| a@),
{
    CommandRequest::static_args("", args).args
}

/// The arguments `[a, b]`.
pub fn two_args(a: &str, b: &str) -> (r: Vec<String>)
    ensures
        views(r@) == seq![a@, b@],
{
    let mut v = Vec::new();
    v.push(owned(a));
    v.push(owned(b));
    assert(views(v@) =~= seq![a@, b@]);
    v
}

/// The arguments `[a, b, c]`.
pub fn three_args(a: &str, b: &str, c: &str) -> (r: Vec<String>)
    ensures
        views(r@) == seq![a@, b@, c@],
{
    let mut v = Vec::new();
    v.push(owned(a));
    v.push(owned(b));
    v.push(owned(c));
    assert(views(v@) =~= seq![a@, b@, c@]);
    v
}

/// The arguments `[a, b, c, d]`.
pub fn four_args(a: &str, b: &str, c: &str, d: &str) -> (r: Vec<String>)
    ensures
        views(r@) == seq![a@, b@, c@, d@],
{
    let mut v = Vec::new();
    v.push(owned(a));
    v.push(owned(b));
    v.push(owned(c));
    v.push(owned(d));
    assert(views(v@) =~= seq![a@, b@, c@, d@]);
    v
}

/// A question to confirm before a command runs.
#[derive(Debug)]
pub struct ConfirmPage {
    pub title: String,
    pub question: String,
    pub yes_label: String,
    pub no_label: String,
    pub selected_yes: bool,
    pub request: CommandRequest,
    pub cancel_message: String,
}

impl ConfirmPage {
    /// A question with "yes" selected.
    pub fn new(
        title: &str,
        question: &str,
        yes_label: &str,
        no_label: &str,
        request: CommandRequest,
        cancel_message: &str,
    ) -> (r: ConfirmPage)
        ensures
            r.title@ == title@,
            r.question@ == question@,
            r.yes_label@ == yes_label@,
            r.no_label@ == no_label@,
            r.selected_yes,
            r.request == request,
            r.cancel_message@ == cancel_message@,
    {
        ConfirmPage {
            title: owned(title),
            question: owned(question),
            yes_label: owned(yes_label),
            no_label: owned(no_label),
            selected_yes: true,
            request,
            cancel_message: owned(cancel_message),
        }
    }

    /// Moves the choice to the other button.
    pub fn toggle(&mut self)
        ensures
            final(self).selected_yes == !old(self).selected_yes,
            final(self).title == old(self).title,
            final(self).question == old(self).question,
            final(self).request == old(self).request,
            final(self).cancel_message == old(self).cancel_message,
    {
        self.selected_yes = !self.selected_yes;
    }

    /// An equal copy.
    pub fn duplicate(&self) -> (r: ConfirmPage)
        ensures
            r.title == self.title,
            r.question == self.question,
            r.yes_label == self.yes_label,
            r.no_label == self.no_label,
            r.selected_yes == self.selected_yes,
            r.request.title == self.request.title,
            r.request.args@ == self.request.args@,
            r.cancel_message == self.cancel_message,
    {
        ConfirmPage {
            title: self.title.clone(),
            question: self.question.clone(),
            yes_label: self.yes_label.clone(),
            no_label: self.no_label.clone(),
            selected_yes: self.selected_yes,
            request: self.request.duplicate(),
            cancel_message: self.cancel_message.clone(),
        }
    }
}

// ---------------------------------------------------------------------
// Forms
// ---------------------------------------------------------------------

/// A field of a form.
#[derive(Debug)]
pub struct InputField {
    pub label: &'static str,
    pub placeholder: &'static str,
    pub value: String,
}

/// What submitting a form does.
#[derive(Clone, Copy, Debug, PartialEq, Eq, Structural)]
pub enum FormSubmit {
    AddSubscription,
    AddLocalProfile,
    SetMixedPort,
}

/// The form that sets the mixed port, filled in with the configured port
/// (the default one when the config could not be read).
pub open spec fn mixed_port_form_for(configured: Option<u16>, language: Language, r: InputForm) -> bool {
    &&& r.title_view() == message_text(language, Message::CustomPort)
    &&& r.fields_view().len() == 1
    &&& r.fields_view()[0].label@ == message_text(language, Message::MixedPortLabel)
    &&& r.fields_view()[0].placeholder@ == "7890"@
    &&& r.fields_view()[0].value@ == decimal(
        match configured {
            Some(p) => p as nat,
            None => default_config().mixed_port as nat,
        },
    )
    &&& r.focus_view() == 0
    &&& r.submit_view() == FormSubmit::SetMixedPort
    &&& r.message_view() == message_text(language, Message::PortPrompt)
    &&& r.language_view() == language
}

/// The command that submitting a form runs, as its title and arguments:
/// `subscribe add <url> [name]` or `profile add <name> <config>`, with the
/// fields trimmed; `None` when a required field is blank, and for the
/// mixed-port form, which runs no command.
pub open spec fn submitted(form: InputForm) -> Option<(Seq<char>, Seq<Seq<char>>)> {
    let l = form.language_view();
    let first = trim(form.fields_view()[0].value@);
    let second = trim(form.fields_view()[1].value@);
    match form.submit_view() {
        FormSubmit::AddSubscription => if first.len() == 0 {
            None
        } else {
            Some(
                (
                    message_text(l, Message::AddSubscription),
                    if second.len() == 0 {
                        seq!["subscribe"@, "add"@, first]
                    } else {
                        seq!["subscribe"@, "add"@, first, second]
                    },
                ),
            )
        },
        FormSubmit::AddLocalProfile => if first.len() == 0 || second.len() == 0 {
            None
        } else {
            Some((message_text(l, Message::AddLocalProfile), seq!["profile"@, "add"@, first, second]))
        },
        FormSubmit::SetMixedPort => None,
    }
}

/// The form's message after a submission that runs no command: what is
/// missing, or (for the mixed-port form) the message it had.
pub open spec fn refusal_message(form: InputForm) -> Seq<char> {
    let l = form.language_view();
    match form.submit_view() {
        FormSubmit::AddSubscription => message_text(l, Message::SubscriptionUrlRequired),
        FormSubmit::AddLocalProfile => if trim(form.fields_view()[0].value@).len() == 0 {
            message_text(l, Message::ProfileNameRequired)
        } else {
            message_text(l, Message::ConfigPathRequired)
        },
        FormSubmit::SetMixedPort => form.message_view(),
    }
}

/// A form: a title, fields of which one has the focus, and a message. It
/// always has a field, and the focus is on one.
#[derive(Debug)]
pub struct InputForm {
    title: String,
    fields: Vec<InputField>,
    focus: usize,
    submit: FormSubmit,
    message: String,
    language: Language,
}

impl InputForm {
    #[verifier::type_invariant]
    spec fn focus_on_field(self) -> bool {
        &&& self.fields@.len() > 0
        &&& self.focus < self.fields@.len()
        &&& self.fields@.len() == if self.submit == FormSubmit::SetMixedPort {
            1nat
        } else {
            2nat
        }
    }

    pub closed spec fn title_view(self) -> Seq<char> {
        self.title@
    }

    pub closed spec fn fields_view(self) -> Seq<InputField> {
        self.fields@
    }

    pub closed spec fn focus_view(self) -> nat {
        self.focus as nat
    }

    pub closed spec fn submit_view(self) -> FormSubmit {
        self.submit
    }

    pub closed spec fn message_view(self) -> Seq<char> {
        self.message@
    }

    pub closed spec fn language_view(self) -> Language {
        self.language
    }

    /// The form's title.
    pub fn title(&self) -> (r: &str)
        ensures
            r@ == self.title_view(),
    {
        self.title.as_str()
    }

    /// The form's fields; there is always one.
    pub fn fields(&self) -> (r: &Vec<InputField>)
        ensures
            r@ == self.fields_view(),
            r@.len() > 0,
            self.focus_view() < r@.len(),
    {
        proof {
            use_type_invariant(self);
        }
        &self.fields
    }

    /// The form's field count: one for the mixed port, two otherwise.
    pub fn field_count(&self) -> (r: usize)
        ensures
            r == self.fields_view().len(),
            r == if self.submit_view() == FormSubmit::SetMixedPort {
                1nat
            } else {
                2nat
            },
    {
        proof {
            use_type_invariant(self);
        }
        self.fields.len()
    }

    /// The index of the field with the focus, always that of a field.
    pub fn focus(&self) -> (r: usize)
        ensures
            r == self.focus_view(),
            r < self.fields_view().len(),
    {
        proof {
            use_type_invariant(self);
        }
        self.focus
    }

    /// What submitting the form does.
    pub fn submit_kind(&self) -> (r: FormSubmit)
        ensures
            r == self.submit_view(),
    {
        self.submit
    }

    /// The form's message.
    pub fn message(&self) -> (r: &str)
        ensures
            r@ == self.message_view(),
    {
        self.message.as_str()
    }

    /// Replaces the form's message.
    pub fn set_message(&mut self, message: String)
        ensures
            final(self).message_view() == message@,
            final(self).title_view() == old(self).title_view(),
            final(self).fields_view() == old(self).fields_view(),
            final(self).focus_view() == old(self).focus_view(),
            final(self).submit_view() == old(self).submit_view(),
            final(self).language_view() == old(self).language_view(),
    {
        proof {
            use_type_invariant(&*self);
        }
        self.message = message;
    }

    /// The form that adds a subscription: its URL, then an optional name.
    pub fn subscription(language: Language) -> (r: InputForm)
        ensures
            r.title_view() == message_text(language, Message::AddSubscription),
            r.fields_view().len() == 2,
            r.fields_view()[0].label@ == message_text(language, Message::SubscriptionUrl),
            r.fields_view()[0].placeholder@ == "https://example.com/subscription"@,
            r.fields_view()[0].value@ == Seq::<char>::empty(),
            r.fields_view()[1].label@ == message_text(language, Message::ProfileName),
            r.fields_view()[1].placeholder@ == message_text(language, Message::BlankForAutomatic),
            r.fields_view()[1].value@ == Seq::<char>::empty(),
            r.focus_view() == 0,
            r.submit_view() == FormSubmit::AddSubscription,
            r.message_view() == message_text(language, Message::FormSubmitHint),
            r.language_view() == language,
    {
        let mut fields = Vec::new();
        fields.push(
            InputField {
                label: language.tr(Message::SubscriptionUrl),
                placeholder: "https://example.com/subscription",
                value: String::new(),
            },
        );
        fields.push(
            InputField {
                label: language.tr(Message::ProfileName),
                placeholder: language.tr(Message::BlankForAutomatic),
                value: String::new(),
            },
        );
        InputForm {
            title: owned(language.tr(Message::AddSubscription)),
            fields,
            focus: 0,
            submit: FormSubmit::AddSubscription,
            message: owned(language.tr(Message::FormSubmitHint)),
            language,
        }
    }

    /// The form that adds a local profile: its name, then its config's path.
    pub fn local_profile(language: Language) -> (r: InputForm)
        ensures
            r.title_view() == message_text(language, Message::AddLocalProfile),
            r.fields_view().len() == 2,
            r.fields_view()[0].label@ == message_text(language, Message::ProfileName),
            r.fields_view()[0].placeholder@ == "work"@,
            r.fields_view()[0].value@ == Seq::<char>::empty(),
            r.fields_view()[1].label@ == message_text(language, Message::ConfigPath),
            r.fields_view()[1].placeholder@ == "/home/user/config.yaml"@,
            r.fields_view()[1].value@ == Seq::<char>::empty(),
            r.focus_view() == 0,
            r.submit_view() == FormSubmit::AddLocalProfile,
            r.message_view() == message_text(language, Message::FormSubmitHint),
            r.language_view() == language,
    {
        let mut fields = Vec::new();
        fields.push(
            InputField {
                label: language.tr(Message::ProfileName),
                placeholder: "work",
                value: String::new(),
            },
        );
        fields.push(
            InputField {
                label: language.tr(Message::ConfigPath),
                placeholder: "/home/user/config.yaml",
                value: String::new(),
            },
        );
        InputForm {
            title: owned(language.tr(Message::AddLocalProfile)),
            fields,
            focus: 0,
            submit: FormSubmit::AddLocalProfile,
            message: owned(language.tr(Message::FormSubmitHint)),
            language,
        }
    }

    /// The form that sets the mixed port, filled with the configured port
    /// (the default port when the config could not be read).
    pub fn mixed_port(configured: Option<u16>, language: Language) -> (r: InputForm)
        ensures
            mixed_port_form_for(configured, language, r),
    {
        let port: u16 = match configured {
            Some(p) => p,
            None => crate::config::AppConfig::default().mixed_port,
        };
        let mut fields = Vec::new();
        fields.push(
            InputField {
                label: language.tr(Message::MixedPortLabel),
                placeholder: "7890",
                value: crate::number::decimal_string(port as u64),
            },
        );
        InputForm {
            title: owned(language.tr(Message::CustomPort)),
            fields,
            focus: 0,
            submit: FormSubmit::SetMixedPort,
            message: owned(language.tr(Message::PortPrompt)),
            language,
        }
    }

    /// The command that submitting the form runs, if the form is complete:
    /// `subscribe add <url> [name]` or `profile add <name> <config>`, with
    /// the fields trimmed; otherwise the message says what is missing. The
    /// mixed-port form runs no command.
    pub fn submit(&mut self) -> (r: Option<CommandRequest>)
        ensures
            final(self).title_view() == old(self).title_view(),
            final(self).fields_view() == old(self).fields_view(),
            final(self).focus_view() == old(self).focus_view(),
            final(self).submit_view() == old(self).submit_view(),
            final(self).language_view() == old(self).language_view(),
            match submitted(*old(self)) {
                Some((title, args)) => ({
                    &&& r matches Some(q)
                    &&& q.title@ == title
                    &&& views(q.args@) == args
                    &&& final(self).message_view() == old(self).message_view()
                }),
                None => r is None && final(self).message_view() == refusal_message(*old(self)),
            },
    {
        proof {
            use_type_invariant(&*self);
        }
        match self.submit {
            FormSubmit::AddSubscription => {
                let url = trim_str(self.fields[0].value.as_str());
                if url.as_str().is_empty() {
                    self.message = owned(self.language.tr(Message::SubscriptionUrlRequired));
                    return None;
                }
                let name = trim_str(self.fields[1].value.as_str());
                let args = if name.as_str().is_empty() {
                    three_args("subscribe", "add", url.as_str())
                } else {
                    four_args("subscribe", "add", url.as_str(), name.as_str())
                };
                Some(CommandRequest::new(self.language.tr(Message::AddSubscription), args))
            },
            FormSubmit::AddLocalProfile => {
                let name = trim_str(self.fields[0].value.as_str());
                let config = trim_str(self.fields[1].value.as_str());
                if name.as_str().is_empty() {
                    self.message = owned(self.language.tr(Message::ProfileNameRequired));
                    return None;
                }
                if config.as_str().is_empty() {
                    self.message = owned(self.language.tr(Message::ConfigPathRequired));
                    return None;
                }
                Some(
                    CommandRequest::new(
                        self.language.tr(Message::AddLocalProfile),
                        four_args("profile", "add", name.as_str(), config.as_str()),
                    ),
                )
            },
            FormSubmit::SetMixedPort => None,
        }
    }

    /// Moves the focus to the next field, wrapping.
    pub fn next(&mut self)
        ensures
            final(self).focus_view() == next_index(
                old(self).focus_view(),
                old(self).fields_view().len(),
            ),
            final(self).fields_view() == old(self).fields_view(),
            final(self).title_view() == old(self).title_view(),
            final(self).submit_view() == old(self).submit_view(),
            final(self).message_view() == old(self).message_view(),
            final(self).language_view() == old(self).language_view(),
    {
        proof {
            use_type_invariant(&*self);
            lemma_moves_undo_each_other(self.focus as nat, self.fields@.len());
        }
        self.focus = wrap_next(self.focus, self.fields.len());
    }

    /// Moves the focus to the previous field, wrapping.
    pub fn previous(&mut self)
        ensures
            final(self).focus_view() == previous_index(
                old(self).focus_view(),
                old(self).fields_view().len(),
            ),
            final(self).fields_view() == old(self).fields_view(),
            final(self).title_view() == old(self).title_view(),
            final(self).submit_view() == old(self).submit_view(),
            final(self).message_view() == old(self).message_view(),
            final(self).language_view() == old(self).language_view(),
    {
        proof {
            use_type_invariant(&*self);
            lemma_moves_undo_each_other(self.focus as nat, self.fields@.len());
        }
        self.focus = wrap_previous(self.focus, self.fields.len());
    }

    /// Types a character into the field with the focus.
    pub fn push(&mut self, value: char)
        ensures
            final(self).fields_view().len() == old(self).fields_view().len(),
            forall|i: int|
                0 <= i < old(self).fields_view().len() && i != old(self).focus_view() ==> (
                #[trigger] final(self).fields_view()[i]) == old(self).fields_view()[i],
            final(self).fields_view()[old(self).focus_view() as int].value@ == old(
                self,
            ).fields_view()[old(self).focus_view() as int].value@.push(value),
            final(self).fields_view()[old(self).focus_view() as int].label == old(
                self,
            ).fields_view()[old(self).focus_view() as int].label,
            final(self).focus_view() == old(self).focus_view(),
            final(self).title_view() == old(self).title_view(),
            final(self).submit_view() == old(self).submit_view(),
            final(self).message_view() == old(self).message_view(),
            final(self).language_view() == old(self).language_view(),
    {
        proof {
            use_type_invariant(&*self);
        }
        let i = self.focus;
        let mut text = self.fields[i].value.clone();
        crate::text::push_char(&mut text, value);
        self.fields = with_value(&self.fields, i, text);
    }

    /// Deletes the last character of the field with the focus.
    pub fn pop(&mut self)
        ensures
            final(self).fields_view().len() == old(self).fields_view().len(),
            forall|i: int|
                0 <= i < old(self).fields_view().len() && i != old(self).focus_view() ==> (
                #[trigger] final(self).fields_view()[i]) == old(self).fields_view()[i],
            final(self).fields_view()[old(self).focus_view() as int].value@ == (if old(
                self,
            ).fields_view()[old(self).focus_view() as int].value@.len() > 0 {
                old(self).fields_view()[old(self).focus_view() as int].value@.drop_last()
            } else {
                old(self).fields_view()[old(self).focus_view() as int].value@
            }),
            final(self).fields_view()[old(self).focus_view() as int].label == old(
                self,
            ).fields_view()[old(self).focus_view() as int].label,
            final(self).focus_view() == old(self).focus_view(),
            final(self).title_view() == old(self).title_view(),
            final(self).submit_view() == old(self).submit_view(),
            final(self).message_view() == old(self).message_view(),
            final(self).language_view() == old(self).language_view(),
    {
        proof {
            use_type_invariant(&*self);
        }
        let i = self.focus;
        let cs = crate::text::chars_of(self.fields[i].value.as_str());
        if cs.len() > 0 {
            let text = crate::text::string_from(&cs, 0, cs.len() - 1);
            self.fields = with_value(&self.fields, i, text);
        }
    }
}

/// The fields with the value of field `i` replaced.
fn with_value(fields: &Vec<InputField>, i: usize, value: String) -> (r: Vec<InputField>)
    requires
        i < fields@.len(),
    ensures
        r@ == fields@.update(
            i as int,
            InputField { label: fields@[i as int].label, placeholder: fields@[i as int].placeholder, value },
        ),
{
    let mut r: Vec<InputField> = Vec::new();
    let mut j: usize = 0;
    let mut value = Some(value);
    let ghost v = value->0;
    while j < fields.len()
        invariant
            j <= fields@.len(),
            i < fields@.len(),
            j <= i ==> value == Some(v),
            r@ == fields@.update(
                i as int,
                InputField { label: fields@[i as int].label, placeholder: fields@[i as int].placeholder, value: v },
            ).take(j as int),
        decreases fields@.len() - j,
    {
        let f = &fields[j];
        if j == i {
            let taken = value.take();
            let text = match taken {
                Some(t) => t,
                None => String::new(),
            };
            r.push(InputField { label: f.label, placeholder: f.placeholder, value: text });
        } else {
            r.push(InputField { label: f.label, placeholder: f.placeholder, value: f.value.clone() });
        }
        j += 1;
    }
    r
}

// ---------------------------------------------------------------------
// Mode
// ---------------------------------------------------------------------

/// The modes the controller can switch to, in order.
pub open spec fn controller_modes() -> Seq<Seq<char>> {
    seq!["rule"@, "global"@, "direct"@]
}

/// The mode page for the controller's configs (`None` when the controller
/// could not be reached): the current mode is the configs' `mode`, the
/// selection is on it (on the first mode when it is none of them), and the
/// message says whether the controller answered.
pub open spec fn mode_page_for(configs: Option<JsonNode>, language: Language, r: ModePage) -> bool {
    &&& match configs {
        Some(c) => {
            &&& r.current_view() == match json_get(c, "mode"@) {
                Some(m) => json_str(m),
                None => None,
            }
            &&& r.message_view() == message_text(language, Message::ControllerModeLoaded)
        },
        None => {
            &&& r.current_view() is None
            &&& r.message_view() == message_text(language, Message::ControllerUnreachableRetry)
        },
    }
    &&& r.selected_view() == match r.current_view() {
        Some(m) => match mode_index(m) {
            Some(i) => i,
            None => 0,
        },
        None => 0,
    }
}

/// The mode page: the modes, the selected one, and the controller's
/// current mode when it could be read.
#[derive(Debug)]
pub struct ModePage {
    selected: usize,
    current: Option<String>,
    message: String,
}

/// The index of a mode among the controller's modes.
pub open spec fn mode_index(mode: Seq<char>) -> Option<nat> {
    if mode == "rule"@ {
        Some(0)
    } else if mode == "global"@ {
        Some(1)
    } else if mode == "direct"@ {
        Some(2)
    } else {
        None
    }
}

impl ModePage {
    #[verifier::type_invariant]
    spec fn selection_on_mode(self) -> bool {
        self.selected < 3
    }

    pub closed spec fn selected_view(self) -> nat {
        self.selected as nat
    }

    pub closed spec fn current_view(self) -> Option<Seq<char>> {
        match self.current {
            Some(c) => Some(c@),
            None => None,
        }
    }

    pub closed spec fn message_view(self) -> Seq<char> {
        self.message@
    }

    /// The mode page for the controller's configs (`None` when the
    /// controller could not be reached), with the current mode selected.
    pub fn load(configs: Option<&JsonNode>, language: Language) -> (r: ModePage)
        ensures
            mode_page_for(
                match configs {
                    Some(c) => Some(*c),
                    None => None,
                },
                language,
                r,
            ),
    {
        let (current, message) = match configs {
            Some(c) => {
                let mode = match c.get("mode") {
                    Some(m) => match m.as_str() {
                        Some(s) => Some(owned(s)),
                        None => None,
                    },
                    None => None,
                };
                (mode, owned(language.tr(Message::ControllerModeLoaded)))
            },
            None => (None, owned(language.tr(Message::ControllerUnreachableRetry))),
        };
        let selected: usize = match &current {
            Some(m) => {
                if crate::text::text_eq(m.as_str(), "rule") {
                    0
                } else if crate::text::text_eq(m.as_str(), "global") {
                    1
                } else if crate::text::text_eq(m.as_str(), "direct") {
                    2
                } else {
                    0
                }
            },
            None => 0,
        };
        ModePage { selected, current, message }
    }

    /// The modes, in order.
    pub fn modes(&self) -> (r: Vec<&'static str>)
        ensures
            r@.map_values(|m: &str| m@) == controller_modes(),
    {
        let mut v: Vec<&'static str> = Vec::new();
        v.push("rule");
        v.push("global");
        v.push("direct");
        assert(v@.map_values(|m: &str| m@) =~= controller_modes());
        v
    }

    /// The index of the selected mode.
    pub fn selected(&self) -> (r: usize)
        ensures
            r == self.selected_view(),
            r < 3,
    {
        proof {
            use_type_invariant(self);
        }
        self.selected
    }

    /// The controller's current mode, if known.
    pub fn current(&self) -> (r: Option<&str>)
        ensures
            match r {
                Some(c) => self.current_view() == Some(c@),
                None => self.current_view() is None,
            },
    {
        match &self.current {
            Some(c) => Some(c.as_str()),
            None => None,
        }
    }

    /// The page's message.
    pub fn message(&self) -> (r: &str)
        ensures
            r@ == self.message_view(),
    {
        self.message.as_str()
    }

    /// The selected mode.
    pub fn selected_mode(&self) -> (r: &'static str)
        ensures
            r@ == controller_modes()[self.selected_view() as int],
    {
        proof {
            use_type_invariant(self);
        }
        if self.selected == 0 {
            "rule"
        } else if self.selected == 1 {
            "global"
        } else {
            "direct"
        }
    }

    /// Moves the selection down, wrapping.
    pub fn next(&mut self)
        ensures
            final(self).selected_view() == next_index(old(self).selected_view(), 3),
            final(self).current_view() == old(self).current_view(),
            final(self).message_view() == old(self).message_view(),
    {
        proof {
            use_type_invariant(&*self);
            lemma_moves_undo_each_other(self.selected as nat, 3);
        }
        self.selected = wrap_next(self.selected, 3);
    }

    /// Moves the selection up, wrapping.
    pub fn previous(&mut self)
        ensures
            final(self).selected_view() == previous_index(old(self).selected_view(), 3),
            final(self).current_view() == old(self).current_view(),
            final(self).message_view() == old(self).message_view(),
    {
        proof {
            use_type_invariant(&*self);
            lemma_moves_undo_each_other(self.selected as nat, 3);
        }
        self.selected = wrap_previous(self.selected, 3);
    }
}

// ---------------------------------------------------------------------
// Text pages: logs and command output
// ---------------------------------------------------------------------

/// The scroll position after scrolling down: at most the last line.
pub open spec fn scrolled_down(scroll: nat, amount: nat, lines: nat) -> nat {
    let last: nat = if lines > 0 {
        (lines - 1) as nat
    } else {
        0
    };
    if scroll + amount < last {
        scroll + amount
    } else {
        last
    }
}

/// The scroll position after scrolling up: at least the first line.
pub open spec fn scrolled_up(scroll: nat, amount: nat) -> nat {
    if scroll >= amount {
        (scroll - amount) as nat
    } else {
        0
    }
}

/// Scrolling never leaves the text: down stops at the last line (the first
/// when there are none) and up at the first, and scrolling up by as much as
/// was scrolled down from a line at most the last, with room below, goes
/// back to it.
pub proof fn lemma_scroll_stays_in_text(scroll: nat, amount: nat, lines: nat)
    ensures
        lines > 0 ==> scrolled_down(scroll, amount, lines) < lines,
        lines == 0 ==> scrolled_down(scroll, amount, lines) == 0,
        scrolled_up(scroll, amount) <= scroll,
        scroll + amount < lines ==> scrolled_up(scrolled_down(scroll, amount, lines), amount)
            == scroll,
{
}

/// The scroll position after scrolling down.
pub fn scroll_down_by(scroll: usize, amount: usize, lines: usize) -> (r: usize)
    ensures
        r == scrolled_down(scroll as nat, amount as nat, lines as nat),
{
    let last = if lines > 0 {
        lines - 1
    } else {
        0
    };
    if amount < last && scroll < last - amount {
        scroll + amount
    } else {
        last
    }
}

/// The scroll position after scrolling up.
pub fn scroll_up_by(scroll: usize, amount: usize) -> (r: usize)
    ensures
        r == scrolled_up(scroll as nat, amount as nat),
{
    if scroll >= amount {
        scroll - amount
    } else {
        0
    }
}

/// The log page, at the top, for the last lines of the log or the error met
/// reading it; `path` is the log's displayed path.
pub open spec fn logs_page_for(
    path: Seq<char>,
    tail: Result<Seq<char>, Seq<char>>,
    language: Language,
    r: TextPage,
) -> bool {
    &&& r.scroll == 0
    &&& match tail {
        Ok(t) => {
            &&& r.title@ == message_text(language, Message::Logs) + ": "@ + path
            &&& r.message@ == message_text(language, Message::LogsLoaded)
            &&& views(r.lines@) == if trim(t).len() != 0 {
                crate::lines::lines(t)
            } else {
                seq![message_text(language, Message::LogFileEmpty)]
            }
        },
        Err(e) => {
            &&& r.title@ == message_text(language, Message::Logs)
            &&& r.message@ == message_text(language, Message::UnableReadLogs)
            &&& views(r.lines@) == seq![e]
        },
    }
}

/// A page of text lines, such as the log.
#[derive(Debug)]
pub struct TextPage {
    pub title: String,
    pub lines: Vec<String>,
    pub scroll: usize,
    pub message: String,
}

impl TextPage {
    /// The log page for the last lines of the log (`tail`), or for the error
    /// met reading it; `path` is the log's displayed path.
    pub fn logs(path: &str, tail: Result<String, String>, language: Language) -> (r: TextPage)
        ensures
            logs_page_for(
                path@,
                match tail {
                    Ok(t) => Ok(t@),
                    Err(e) => Err(e@),
                },
                language,
                r,
            ),
    {
        match tail {
            Ok(t) => {
                let lines = if !is_blank(t.as_str()) {
                    crate::lines::split_lines(t.as_str())
                } else {
                    let mut v = Vec::new();
                    v.push(owned(language.tr(Message::LogFileEmpty)));
                    assert(views(v@) =~= seq![v@[0]@]);
                    v
                };
                TextPage {
                    title: concat3(language.tr(Message::Logs), ": ", path),
                    lines,
                    scroll: 0,
                    message: owned(language.tr(Message::LogsLoaded)),
                }
            },
            Err(e) => {
                let mut v = Vec::new();
                v.push(e);
                assert(views(v@) =~= seq![v@[0]@]);
                TextPage {
                    title: owned(language.tr(Message::Logs)),
                    lines: v,
                    scroll: 0,
                    message: owned(language.tr(Message::UnableReadLogs)),
                }
            },
        }
    }

    /// Scrolls down, stopping at the last line.
    pub fn scroll_down(&mut self, amount: usize)
        ensures
            final(self).scroll == scrolled_down(
                old(self).scroll as nat,
                amount as nat,
                old(self).lines@.len(),
            ),
            final(self).lines@ == old(self).lines@,
            final(self).title == old(self).title,
            final(self).message == old(self).message,
    {
        self.scroll = scroll_down_by(self.scroll, amount, self.lines.len());
    }

    /// Scrolls up, stopping at the first line.
    pub fn scroll_up(&mut self, amount: usize)
        ensures
            final(self).scroll == scrolled_up(old(self).scroll as nat, amount as nat),
            final(self).lines@ == old(self).lines@,
            final(self).title == old(self).title,
            final(self).message == old(self).message,
    {
        self.scroll = scroll_up_by(self.scroll, amount);
    }
}

// ---------------------------------------------------------------------
// Proxy groups
// ---------------------------------------------------------------------

/// A proxy group of a profile: its name, type and member nodes.
#[derive(Debug)]
pub struct ProxyItem {
    pub name: String,
    pub kind: String,
    pub children: Vec<String>,
}

impl ProxyItem {
    /// An equal copy.
    pub fn duplicate(&self) -> (r: ProxyItem)
        ensures
            r.name == self.name,
            r.kind == self.kind,
            r.children@ == self.children@,
    {
        ProxyItem {
            name: self.name.clone(),
            kind: self.kind.clone(),
            children: self.children.clone(),
        }
    }
}

/// The proxy groups page.
#[derive(Debug)]
pub struct ProxyPage {
    pub items: Vec<ProxyItem>,
    pub selected: usize,
    pub message: String,
}

impl ProxyPage {
    /// The selected group, if the selection is on one.
    pub fn selected_item(&self) -> (r: Option<&ProxyItem>)
        ensures
            match r {
                Some(p) => self.selected < self.items@.len() && *p == self.items@[self.selected as int],
                None => self.selected >= self.items@.len(),
            },
    {
        if self.selected < self.items.len() {
            Some(&self.items[self.selected])
        } else {
            None
        }
    }

    /// Moves the selection down, wrapping.
    pub fn next(&mut self)
        ensures
            final(self).selected == next_index(old(self).selected as nat, old(self).items@.len()),
            final(self).items@ == old(self).items@,
            final(self).message == old(self).message,
    {
        self.selected = wrap_next(self.selected, self.items.len());
    }

    /// Moves the selection up, wrapping.
    pub fn previous(&mut self)
        ensures
            final(self).selected == previous_index(
                old(self).selected as nat,
                old(self).items@.len(),
            ),
            final(self).items@ == old(self).items@,
            final(self).message == old(self).message,
    {
        self.selected = wrap_previous(self.selected, self.items.len());
    }
}

/// Where a node stands in a latency test.
#[derive(Debug)]
pub enum NodeTestStatus {
    Untested,
    Testing,
    Measured(String),
    Failed,
}

/// What the result column shows for a node.
pub open spec fn status_text(s: NodeTestStatus, language: Language) -> Seq<char> {
    match s {
        NodeTestStatus::Untested => "-"@,
        NodeTestStatus::Testing => message_text(language, Message::Testing),
        NodeTestStatus::Measured(delay) => delay@,
        NodeTestStatus::Failed => message_text(language, Message::Failed),
    }
}

impl NodeTestStatus {
    /// What the result column shows.
    pub fn display(&self, language: Language) -> (r: String)
        ensures
            r@ == status_text(*self, language),
    {
        match self {
            NodeTestStatus::Untested => owned("-"),
            NodeTestStatus::Testing => owned(language.tr(Message::Testing)),
            NodeTestStatus::Measured(delay) => delay.clone(),
            NodeTestStatus::Failed => owned(language.tr(Message::Failed)),
        }
    }

    /// Whether the node's test is under way.
    pub fn is_testing(&self) -> (r: bool)
        ensures
            r == (*self is Testing),
    {
        match self {
            NodeTestStatus::Testing => true,
            _ => false,
        }
    }

    /// An equal copy.
    pub fn duplicate(&self) -> (r: NodeTestStatus)
        ensures
            r == *self,
    {
        match self {
            NodeTestStatus::Untested => NodeTestStatus::Untested,
            NodeTestStatus::Testing => NodeTestStatus::Testing,
            NodeTestStatus::Measured(d) => NodeTestStatus::Measured(d.clone()),
            NodeTestStatus::Failed => NodeTestStatus::Failed,
        }
    }
}

/// A proxy group's page: its nodes with their test results, and the groups
/// page to go back to.
#[derive(Debug)]
pub struct ProxyGroupPage {
    pub group: ProxyItem,
    pub selected: usize,
    pub back_items: Vec<ProxyItem>,
    pub back_selected: usize,
    pub node_results: Vec<NodeTestStatus>,
    pub message: String,
}

impl ProxyGroupPage {
    /// Moves the selection down, wrapping.
    pub fn next(&mut self)
        ensures
            final(self).selected == next_index(
                old(self).selected as nat,
                old(self).group.children@.len(),
            ),
            final(self).group == old(self).group,
            final(self).node_results@ == old(self).node_results@,
            final(self).message == old(self).message,
            final(self).back_items@ == old(self).back_items@,
            final(self).back_selected == old(self).back_selected,
    {
        self.selected = wrap_next(self.selected, self.group.children.len());
    }

    /// Moves the selection up, wrapping.
    pub fn previous(&mut self)
        ensures
            final(self).selected == previous_index(
                old(self).selected as nat,
                old(self).group.children@.len(),
            ),
            final(self).group == old(self).group,
            final(self).node_results@ == old(self).node_results@,
            final(self).message == old(self).message,
            final(self).back_items@ == old(self).back_items@,
            final(self).back_selected == old(self).back_selected,
    {
        self.selected = wrap_previous(self.selected, self.group.children.len());
    }

    /// The selected node, if the selection is on one.
    pub fn selected_node(&self) -> (r: Option<&str>)
        ensures
            match r {
                Some(n) => self.selected < self.group.children@.len() && n@
                    == self.group.children@[self.selected as int]@,
                None => self.selected >= self.group.children@.len(),
            },
    {
        if self.selected < self.group.children.len() {
            Some(self.group.children[self.selected].as_str())
        } else {
            None
        }
    }

    /// What the result column shows for the node at `index`.
    pub fn status_at(&self, index: usize, language: Language) -> (r: String)
        ensures
            r@ == if index < self.node_results@.len() {
                status_text(self.node_results@[index as int], language)
            } else {
                "-"@
            },
    {
        if index < self.node_results.len() {
            self.node_results[index].display(language)
        } else {
            owned("-")
        }
    }

    /// What the result column shows for the selected node.
    pub fn selected_status(&self, language: Language) -> (r: String)
        ensures
            r@ == if self.selected < self.node_results@.len() {
                status_text(self.node_results@[self.selected as int], language)
            } else {
                "-"@
            },
    {
        self.status_at(self.selected, language)
    }

    /// Whether a node's test is under way.
    pub fn is_testing(&self) -> (r: bool)
        ensures
            r == exists|i: int|
                0 <= i < self.node_results@.len() && (#[trigger] self.node_results@[i]) is Testing,
    {
        let mut i: usize = 0;
        while i < self.node_results.len()
            invariant
                i <= self.node_results@.len(),
                forall|k: int| 0 <= k < i ==> !(#[trigger] self.node_results@[k] is Testing),
            decreases self.node_results@.len() - i,
        {
            if self.node_results[i].is_testing() {
                return true;
            }
            i += 1;
        }
        false
    }
}

// ---------------------------------------------------------------------
// Output of a command
// ---------------------------------------------------------------------

/// The page that shows a command's output.
#[derive(Debug)]
pub struct OutputPage {
    pub title: String,
    pub lines: Vec<String>,
    pub scroll: usize,
    pub success: Option<bool>,
    pub message: String,
}

impl OutputPage {
    /// Scrolls down, stopping at the last line.
    pub fn scroll_down(&mut self, amount: usize)
        ensures
            final(self).scroll == scrolled_down(
                old(self).scroll as nat,
                amount as nat,
                old(self).lines@.len(),
            ),
            final(self).lines@ == old(self).lines@,
            final(self).title == old(self).title,
            final(self).success == old(self).success,
            final(self).message == old(self).message,
    {
        self.scroll = scroll_down_by(self.scroll, amount, self.lines.len());
    }

    /// Scrolls up, stopping at the first line.
    pub fn scroll_up(&mut self, amount: usize)
        ensures
            final(self).scroll == scrolled_up(old(self).scroll as nat, amount as nat),
            final(self).lines@ == old(self).lines@,
            final(self).title == old(self).title,
            final(self).success == old(self).success,
            final(self).message == old(self).message,
    {
        self.scroll = scroll_up_by(self.scroll, amount);
    }

    /// The page for a command that could not be prepared.
    pub fn error(title: &str, message: String, language: Language) -> (r: OutputPage)
        ensures
            r.title@ == title@,
            views(r.lines@) == seq![message@],
            r.scroll == 0,
            r.success == Some(false),
            r.message@ == message_text(language, Message::CommandFailed),
    {
        let mut lines = Vec::new();
        lines.push(message);
        assert(views(lines@) =~= seq![lines@[0]@]);
        OutputPage {
            title: owned(title),
            lines,
            scroll: 0,
            success: Some(false),
            message: owned(language.tr(Message::CommandFailed)),
        }
    }
}

/// Submitting the subscription form with a URL and a name runs `subscribe
/// add` with the trimmed URL and then the trimmed name as its last argument,
/// so the profile is saved under the name that was typed.
pub proof fn lemma_subscription_form_passes_its_name(form: InputForm)
    requires
        form.submit_view() == FormSubmit::AddSubscription,
        trim(form.fields_view()[0].value@).len() > 0,
        trim(form.fields_view()[1].value@).len() > 0,
    ensures
        submitted(form) matches Some((_, args)) && {
            &&& args.len() == 4
            &&& args[0] == "subscribe"@ && args[1] == "add"@
            &&& args[2] == trim(form.fields_view()[0].value@)
            &&& args[3] == trim(form.fields_view()[1].value@)
        },
{
}

} // verus!
