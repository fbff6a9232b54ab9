//! What the interface shows: screen titles, the footer's message and keys,
//! status values in the interface's language with their tones, and the
//! texts of each page's lists and details panels.
use vstd::prelude::*;
use vstd::string::StringExecFns;
use crate::i18n::{message_text, Language, Message};
use crate::lines::views;
use crate::number::decimal;
use crate::status::StatusSnapshot;
use crate::text::{
    ascii_lowercase, chars_of, concat2, concat3, concat4, concat5, ends_with, occurs_at, owned,
    starts_with, starts_with_str, string_from, text_eq, to_ascii_lowercase,
};
use crate::tui::pages::{
    ConfirmPage, InputForm, LanguagePage, ModePage, OutputPage, ProfilePage, ProxyGroupPage,
    ProxyPage, SettingsPage, TextPage,
};
use crate::tui::state::{App, Screen};

verus! {

// ---------------------------------------------------------------------
// Status values
// ---------------------------------------------------------------------

/// The part of `v` between `pre` and `suf`, when `v` starts with `pre` and
/// what follows ends with `suf`.
pub open spec fn between(v: Seq<char>, pre: Seq<char>, suf: Seq<char>) -> Option<Seq<char>> {
    if starts_with(v, pre) && ends_with(v.skip(pre.len() as int), suf) {
        Some(v.subrange(pre.len() as int, v.len() - suf.len()))
    } else {
        None
    }
}

/// The part of a text between a prefix and a suffix.
fn strip_between(v: &str, pre: &str, suf: &str) -> (r: Option<String>)
    ensures
        match r {
            Some(x) => between(v@, pre@, suf@) == Some(x@),
            None => between(v@, pre@, suf@) is None,
        },
{
    let cs = chars_of(v);
    let p = chars_of(pre);
    let s = chars_of(suf);
    if !starts_with_str(v, pre) {
        return None;
    }
    let rest = string_from(&cs, p.len(), cs.len());
    if !crate::text::ends_with_str(rest.as_str(), suf) {
        return None;
    }
    Some(string_from(&cs, p.len(), cs.len() - s.len()))
}

/// The start of the last occurrence of `pat` in `v` at or before `i`.
pub open spec fn last_occurrence_upto(v: Seq<char>, pat: Seq<char>, i: int) -> Option<int>
    decreases i + 1,
{
    if i < 0 {
        None
    } else if occurs_at(v, pat, i) {
        Some(i)
    } else {
        last_occurrence_upto(v, pat, i - 1)
    }
}

/// `str::rsplit_once`: the text before and after the last occurrence of a
/// pattern.
pub open spec fn rsplit_once(v: Seq<char>, pat: Seq<char>) -> Option<(Seq<char>, Seq<char>)> {
    match last_occurrence_upto(v, pat, v.len() - pat.len()) {
        Some(i) => Some((v.take(i), v.skip(i + pat.len()))),
        None => None,
    }
}

proof fn lemma_last_occurrence_bounds(v: Seq<char>, pat: Seq<char>, i: int)
    ensures
        last_occurrence_upto(v, pat, i) matches Some(j) ==> 0 <= j <= i && occurs_at(v, pat, j),
    decreases i + 1,
{
    if i >= 0 {
        lemma_last_occurrence_bounds(v, pat, i - 1);
    }
}

/// The text before and after the last occurrence of `pat`.
fn rsplit_once_str(v: &str, pat: &str) -> (r: Option<(String, String)>)
    requires
        pat@.len() > 0,
    ensures
        match r {
            Some((a, b)) => rsplit_once(v@, pat@) == Some((a@, b@)),
            None => rsplit_once(v@, pat@) is None,
        },
{
    let cs = chars_of(v);
    let ps = chars_of(pat);
    let n = cs.len();
    let m = ps.len();
    if m > n {
        assert(last_occurrence_upto(v@, pat@, v@.len() - pat@.len()) is None);
        return None;
    }
    let mut i: usize = n - m + 1;
    while i > 0
        invariant
            0 < m <= n,
            n == cs@.len(),
            m == ps@.len(),
            i <= n - m + 1,
            cs@ == v@,
            ps@ == pat@,
            last_occurrence_upto(v@, pat@, v@.len() - pat@.len()) == last_occurrence_upto(
                v@,
                pat@,
                i - 1,
            ),
        decreases i,
    {
        let j = i - 1;
        let mut k: usize = 0;
        let mut same = true;
        while k < m
            invariant
                0 < m <= n,
                n == cs@.len(),
                m == ps@.len(),
                k <= m,
                j + m <= n,
                same == (forall|q: int| 0 <= q < k ==> cs@[j + q] == ps@[q]),
            decreases m - k,
        {
            if cs[j + k] != ps[k] {
                same = false;
            }
            k += 1;
        }
        proof {
            if same {
                assert(cs@.subrange(j as int, j + ps@.len()) =~= ps@);
            } else {
                if cs@.subrange(j as int, j + ps@.len()) == ps@ {
                    assert forall|q: int| 0 <= q < ps@.len() implies cs@[j + q] == ps@[q] by {
                        assert(cs@.subrange(j as int, j + ps@.len())[q] == cs@[j + q]);
                    }
                }
            }
        }
        if same {
            let a = string_from(&cs, 0, j);
            let b = string_from(&cs, j + m, n);
            proof {
                assert(cs@.subrange(0, j as int) == v@.take(j as int));
                assert(cs@.subrange(j + ps@.len(), cs@.len() as int) == v@.skip(j + pat@.len()));
            }
            return Some((a, b));
        }
        i -= 1;
    }
    None
}

/// A status value in the interface's language: the process and controller
/// states with their details, the count of further groups, and the plain
/// words the status uses; anything else as it is.
pub open spec fn status_display(value: Seq<char>, language: Language) -> Seq<char> {
    let t = |m: Message| message_text(language, m);
    if between(value, "running (pid "@, ")"@) is Some {
        t(Message::Running) + " (pid "@ + between(value, "running (pid "@, ")"@)->0 + ")"@
    } else if between(value, "reachable (mode: "@, ")"@) is Some {
        t(Message::Reachable) + " ("@ + t(Message::Mode) + ": "@ + between(
            value,
            "reachable (mode: "@,
            ")"@,
        )->0 + ")"@
    } else if rsplit_once(value, " (+"@) is Some && between(
        (rsplit_once(value, " (+"@)->0).1,
        Seq::empty(),
        " groups)"@,
    ) is Some {
        (rsplit_once(value, " (+"@)->0).0 + " (+"@ + between(
            (rsplit_once(value, " (+"@)->0).1,
            Seq::empty(),
            " groups)"@,
        )->0 + " "@ + t(Message::GroupUnit) + ")"@
    } else if value == "missing"@ {
        t(Message::Missing)
    } else if value == "unavailable"@ {
        t(Message::Unavailable)
    } else if value == "unknown"@ {
        t(Message::Unknown)
    } else if value == "none"@ {
        t(Message::NoneValue)
    } else if value == "stopped"@ {
        t(Message::Stopped)
    } else if value == "reachable"@ {
        t(Message::Reachable)
    } else if value == "unreachable"@ {
        t(Message::Unreachable)
    } else {
        value
    }
}

/// A status value in the interface's language.
pub fn status_display_value(value: &str, language: Language) -> (r: String)
    ensures
        r@ == status_display(value@, language),
{
    proof {
        reveal_strlit("");
        reveal_strlit(" (+");
        assert(""@ =~= Seq::<char>::empty());
    }
    if let Some(pid) = strip_between(value, "running (pid ", ")") {
        return concat4(language.tr(Message::Running), " (pid ", pid.as_str(), ")");
    }
    if let Some(mode) = strip_between(value, "reachable (mode: ", ")") {
        return concat5(language.tr(Message::Reachable), " (", language.tr(Message::Mode), ": ", mode.as_str()).concat(")");
    }
    let split = rsplit_once_str(value, " (+");
    if let Some((prefix, rest)) = split {
        if let Some(count) = strip_between(rest.as_str(), "", " groups)") {
            return concat5(prefix.as_str(), " (+", count.as_str(), " ", language.tr(Message::GroupUnit)).concat(")");
        }
    }
    if text_eq(value, "missing") {
        owned(language.tr(Message::Missing))
    } else if text_eq(value, "unavailable") {
        owned(language.tr(Message::Unavailable))
    } else if text_eq(value, "unknown") {
        owned(language.tr(Message::Unknown))
    } else if text_eq(value, "none") {
        owned(language.tr(Message::NoneValue))
    } else if text_eq(value, "stopped") {
        owned(language.tr(Message::Stopped))
    } else if text_eq(value, "reachable") {
        owned(language.tr(Message::Reachable))
    } else if text_eq(value, "unreachable") {
        owned(language.tr(Message::Unreachable))
    } else {
        owned(value)
    }
}

/// How a status value is coloured: as normal, a warning, a problem, or
/// neutral information.
#[derive(Clone, Copy, Debug, PartialEq, Eq, Structural)]
pub enum StatusTone {
    Normal,
    Warning,
    Problem,
    Neutral,
}

/// The core's location: a problem when it is missing.
pub fn core_tone(value: &str) -> (r: StatusTone)
    ensures
        r == if value@ == "missing"@ {
            StatusTone::Problem
        } else {
            StatusTone::Normal
        },
{
    if text_eq(value, "missing") {
        StatusTone::Problem
    } else {
        StatusTone::Normal
    }
}

/// The core's version: a warning when it could not be read.
pub fn version_tone(value: &str) -> (r: StatusTone)
    ensures
        r == if value@ == "unavailable"@ || value@ == "unknown"@ {
            StatusTone::Warning
        } else {
            StatusTone::Normal
        },
{
    if text_eq(value, "unavailable") || text_eq(value, "unknown") {
        StatusTone::Warning
    } else {
        StatusTone::Normal
    }
}

/// The active profile: a warning when there is none.
pub fn profile_tone(value: &str) -> (r: StatusTone)
    ensures
        r == if value@ == "none"@ {
            StatusTone::Warning
        } else {
            StatusTone::Normal
        },
{
    if text_eq(value, "none") {
        StatusTone::Warning
    } else {
        StatusTone::Normal
    }
}

/// The selected proxy: a problem when unavailable, a warning when none.
pub fn selected_proxy_tone(value: &str) -> (r: StatusTone)
    ensures
        r == if value@ == "unavailable"@ {
            StatusTone::Problem
        } else if value@ == "none"@ {
            StatusTone::Warning
        } else {
            StatusTone::Normal
        },
{
    if text_eq(value, "unavailable") {
        StatusTone::Problem
    } else if text_eq(value, "none") {
        StatusTone::Warning
    } else {
        StatusTone::Normal
    }
}

/// The process: normal while it runs, a problem otherwise.
pub fn process_tone(value: &str) -> (r: StatusTone)
    ensures
        r == if starts_with(value@, "running"@) {
            StatusTone::Normal
        } else {
            StatusTone::Problem
        },
{
    if starts_with_str(value, "running") {
        StatusTone::Normal
    } else {
        StatusTone::Problem
    }
}

/// The controller: normal when reachable, a problem otherwise.
pub fn controller_tone(value: &str) -> (r: StatusTone)
    ensures
        r == if starts_with(value@, "reachable"@) {
            StatusTone::Normal
        } else {
            StatusTone::Problem
        },
{
    if starts_with_str(value, "reachable") {
        StatusTone::Normal
    } else {
        StatusTone::Problem
    }
}

/// A line of the home page's status panel.
#[derive(Debug)]
pub struct StatusLine {
    pub label: String,
    pub value: String,
    pub tone: StatusTone,
}

/// A status line as plain values.
pub open spec fn status_line_view(l: StatusLine) -> (Seq<char>, Seq<char>, StatusTone) {
    (l.label@, l.value@, l.tone)
}

fn status_line(label: &str, value: String, tone: StatusTone) -> (r: StatusLine)
    ensures
        status_line_view(r) == (label@, value@, tone),
{
    StatusLine { label: owned(label), value, tone }
}

/// The home page's status panel: home, core, core version, active profile,
/// current group and node, mixed port, controller, process and controller
/// state, each with its tone.
pub fn home_status_lines(status: &StatusSnapshot, language: Language) -> (r: Vec<StatusLine>)
    ensures
        r@.map_values(|l: StatusLine| status_line_view(l)) == seq![
            (message_text(language, Message::Home), status.home@, StatusTone::Neutral),
            (
                message_text(language, Message::Core),
                status_display(status.core@, language),
                if status.core@ == "missing"@ {
                    StatusTone::Problem
                } else {
                    StatusTone::Normal
                },
            ),
            (
                message_text(language, Message::CoreVersion),
                status_display(status.core_version@, language),
                if status.core_version@ == "unavailable"@ || status.core_version@ == "unknown"@ {
                    StatusTone::Warning
                } else {
                    StatusTone::Normal
                },
            ),
            (
                message_text(language, Message::ActiveProfile),
                status_display(status.active_profile@, language),
                if status.active_profile@ == "none"@ {
                    StatusTone::Warning
                } else {
                    StatusTone::Normal
                },
            ),
            (
                message_text(language, Message::CurrentGroupNode),
                status_display(status.selected_proxy@, language),
                if status.selected_proxy@ == "unavailable"@ {
                    StatusTone::Problem
                } else if status.selected_proxy@ == "none"@ {
                    StatusTone::Warning
                } else {
                    StatusTone::Normal
                },
            ),
            (
                message_text(language, Message::MixedPort),
                decimal(status.mixed_port as nat),
                StatusTone::Normal,
            ),
            (message_text(language, Message::Controller), status.controller@, StatusTone::Neutral),
            (
                message_text(language, Message::Process),
                status_display(status.process@, language),
                if starts_with(status.process@, "running"@) {
                    StatusTone::Normal
                } else {
                    StatusTone::Problem
                },
            ),
            (
                message_text(language, Message::ControllerState),
                status_display(status.controller_state@, language),
                if starts_with(status.controller_state@, "reachable"@) {
                    StatusTone::Normal
                } else {
                    StatusTone::Problem
                },
            ),
        ],
{
    let mut r: Vec<StatusLine> = Vec::new();
    r.push(status_line(language.tr(Message::Home), status.home.clone(), StatusTone::Neutral));
    r.push(
        status_line(
            language.tr(Message::Core),
            status_display_value(status.core.as_str(), language),
            core_tone(status.core.as_str()),
        ),
    );
    r.push(
        status_line(
            language.tr(Message::CoreVersion),
            status_display_value(status.core_version.as_str(), language),
            version_tone(status.core_version.as_str()),
        ),
    );
    r.push(
        status_line(
            language.tr(Message::ActiveProfile),
            status_display_value(status.active_profile.as_str(), language),
            profile_tone(status.active_profile.as_str()),
        ),
    );
    r.push(
        status_line(
            language.tr(Message::CurrentGroupNode),
            status_display_value(status.selected_proxy.as_str(), language),
            selected_proxy_tone(status.selected_proxy.as_str()),
        ),
    );
    r.push(
        status_line(
            language.tr(Message::MixedPort),
            crate::number::decimal_string(status.mixed_port as u64),
            StatusTone::Normal,
        ),
    );
    r.push(
        status_line(language.tr(Message::Controller), status.controller.clone(), StatusTone::Neutral),
    );
    r.push(
        status_line(
            language.tr(Message::Process),
            status_display_value(status.process.as_str(), language),
            process_tone(status.process.as_str()),
        ),
    );
    r.push(
        status_line(
            language.tr(Message::ControllerState),
            status_display_value(status.controller_state.as_str(), language),
            controller_tone(status.controller_state.as_str()),
        ),
    );
    assert(r@.map_values(|l: StatusLine| status_line_view(l)) =~= seq![
        status_line_view(r@[0]),
        status_line_view(r@[1]),
        status_line_view(r@[2]),
        status_line_view(r@[3]),
        status_line_view(r@[4]),
        status_line_view(r@[5]),
        status_line_view(r@[6]),
        status_line_view(r@[7]),
        status_line_view(r@[8]),
    ]);
    r
}

/// A piece of the header's status: a label, or a value with its tone.
#[derive(Debug)]
pub struct StatusSpan {
    pub text: String,
    pub tone: Option<StatusTone>,
}

pub open spec fn span_view(s: StatusSpan) -> (Seq<char>, Option<StatusTone>) {
    (s.text@, s.tone)
}

/// The header's status: the process and the active profile with their
/// tones, or that the status is unavailable.
pub fn header_status_spans(status: Option<&StatusSnapshot>, language: Language) -> (r: Vec<
    StatusSpan,
>)
    ensures
        r@.map_values(|s: StatusSpan| span_view(s)) == match status {
            Some(st) => seq![
                (ascii_lowercase(message_text(language, Message::Process)) + ": "@, None),
                (
                    status_display(st.process@, language),
                    Some(
                        if starts_with(st.process@, "running"@) {
                            StatusTone::Normal
                        } else {
                            StatusTone::Problem
                        },
                    ),
                ),
                (" | "@ + message_text(language, Message::Active) + ": "@, None),
                (
                    status_display(st.active_profile@, language),
                    Some(
                        if st.active_profile@ == "none"@ {
                            StatusTone::Warning
                        } else {
                            StatusTone::Normal
                        },
                    ),
                ),
            ],
            None => seq![(message_text(language, Message::Unavailable), Some(StatusTone::Problem))],
        },
{
    let mut r: Vec<StatusSpan> = Vec::new();
    match status {
        Some(st) => {
            let process = to_ascii_lowercase(language.tr(Message::Process));
            r.push(StatusSpan { text: concat2(process.as_str(), ": "), tone: None });
            r.push(
                StatusSpan {
                    text: status_display_value(st.process.as_str(), language),
                    tone: Some(process_tone(st.process.as_str())),
                },
            );
            r.push(
                StatusSpan { text: concat3(" | ", language.tr(Message::Active), ": "), tone: None },
            );
            r.push(
                StatusSpan {
                    text: status_display_value(st.active_profile.as_str(), language),
                    tone: Some(profile_tone(st.active_profile.as_str())),
                },
            );
            assert(r@.map_values(|s: StatusSpan| span_view(s)) =~= seq![
                span_view(r@[0]),
                span_view(r@[1]),
                span_view(r@[2]),
                span_view(r@[3]),
            ]);
        },
        None => {
            r.push(
                StatusSpan {
                    text: owned(language.tr(Message::Unavailable)),
                    tone: Some(StatusTone::Problem),
                },
            );
            assert(r@.map_values(|s: StatusSpan| span_view(s)) =~= seq![span_view(r@[0])]);
        },
    }
    r
}

// ---------------------------------------------------------------------
// Titles and the footer
// ---------------------------------------------------------------------

/// The title of the screen on show.
pub open spec fn title_of(screen: Screen, language: Language) -> Seq<char> {
    match screen {
        Screen::Home => message_text(language, Message::Dashboard),
        Screen::Settings(_) => message_text(language, Message::Settings),
        Screen::Language(_) => message_text(language, Message::Language),
        Screen::Profiles(_) => message_text(language, Message::Profiles),
        Screen::Form(f) => f.title_view(),
        Screen::Mode(_) => message_text(language, Message::SwitchMode),
        Screen::Logs(_) => message_text(language, Message::Logs),
        Screen::Proxies(_) => message_text(language, Message::ProxyGroupsAndNodes),
        Screen::ProxyGroup(p) => message_text(language, Message::Group) + ": "@ + p.group.name@,
        Screen::Output(p) => p.title@,
        Screen::Confirm(p) => p.title@,
    }
}

/// The title of the screen on show.
pub fn screen_title(screen: &Screen, language: Language) -> (r: String)
    ensures
        r@ == title_of(*screen, language),
{
    match screen {
        Screen::Home => owned(language.tr(Message::Dashboard)),
        Screen::Settings(_) => owned(language.tr(Message::Settings)),
        Screen::Language(_) => owned(language.tr(Message::Language)),
        Screen::Profiles(_) => owned(language.tr(Message::Profiles)),
        Screen::Form(f) => owned(f.title()),
        Screen::Mode(_) => owned(language.tr(Message::SwitchMode)),
        Screen::Logs(_) => owned(language.tr(Message::Logs)),
        Screen::Proxies(_) => owned(language.tr(Message::ProxyGroupsAndNodes)),
        Screen::ProxyGroup(p) => concat3(language.tr(Message::Group), ": ", p.group.name.as_str()),
        Screen::Output(p) => p.title.clone(),
        Screen::Confirm(p) => p.title.clone(),
    }
}

/// A key and what it does, as the footer lists them.
#[derive(Clone, Copy, Debug)]
pub struct FooterHint {
    pub key: &'static str,
    pub label: &'static str,
}

/// The footer: the message of the screen on show and its keys.
#[derive(Debug)]
pub struct FooterContent {
    pub message: String,
    pub hints: Vec<FooterHint>,
}

pub open spec fn hint_views(hs: Seq<FooterHint>) -> Seq<(Seq<char>, Seq<char>)> {
    hs.map_values(|h: FooterHint| (h.key@, h.label@))
}

/// The keys the footer lists for a screen, with the messages that say what
/// they do; `testing` tells that a group's nodes are being tested.
pub open spec fn footer_keys(screen: Screen, testing: bool) -> Seq<(Seq<char>, Message)> {
    match screen {
        Screen::Home => seq![
            ("j/k"@, Message::Move),
            ("Enter"@, Message::Open),
            ("r"@, Message::Refresh),
            ("q"@, Message::Quit),
        ],
        Screen::Settings(_) => seq![
            ("j/k"@, Message::Move),
            ("Enter"@, Message::Select),
            ("Esc"@, Message::Back),
        ],
        Screen::Language(_) => seq![
            ("j/k"@, Message::Move),
            ("Enter"@, Message::Apply),
            ("Esc"@, Message::Back),
        ],
        Screen::Profiles(_) => seq![
            ("j/k"@, Message::Move),
            ("Enter"@, Message::Use),
            ("a"@, Message::Local),
            ("s"@, Message::Subscription),
            ("u"@, Message::Update),
            ("U"@, Message::UpdateAll),
            ("d"@, Message::Remove),
            ("r"@, Message::Refresh),
            ("Esc"@, Message::Back),
        ],
        Screen::Form(_) => seq![
            ("Tab"@, Message::Field),
            ("Enter"@, Message::NextSubmit),
            ("Esc"@, Message::Cancel),
        ],
        Screen::Mode(_) => seq![
            ("j/k"@, Message::Move),
            ("Enter"@, Message::Apply),
            ("Esc"@, Message::Back),
        ],
        Screen::Logs(_) => seq![
            ("j/k"@, Message::Scroll),
            ("PgUp/PgDn"@, Message::Fast),
            ("r"@, Message::Refresh),
            ("Esc"@, Message::Back),
        ],
        Screen::Proxies(_) => seq![
            ("j/k"@, Message::Move),
            ("Enter"@, Message::OpenGroup),
            ("r"@, Message::Refresh),
            ("Esc"@, Message::Back),
        ],
        Screen::ProxyGroup(_) => if testing {
            seq![("Esc"@, Message::Cancel), ("Ctrl-C"@, Message::Cancel)]
        } else {
            seq![
                ("j/k"@, Message::Move),
                ("Enter"@, Message::SelectNode),
                ("t"@, Message::TestGroup),
                ("Esc"@, Message::Back),
            ]
        },
        Screen::Output(_) => seq![
            ("j/k"@, Message::Scroll),
            ("PgUp/PgDn"@, Message::Fast),
            ("Enter"@, Message::Back),
            ("Esc"@, Message::Back),
        ],
        Screen::Confirm(_) => seq![
            ("Left/Right"@, Message::Choose),
            ("Enter"@, Message::ConfirmAction),
            ("Esc"@, Message::Cancel),
        ],
    }
}

/// The message the footer shows for a screen: the page's own, the home
/// message on the home page, and the prompt to choose on a confirmation.
pub open spec fn footer_message(screen: Screen, home_message: Seq<char>, language: Language) -> Seq<
    char,
> {
    match screen {
        Screen::Home => home_message,
        Screen::Settings(p) => p.message@,
        Screen::Language(p) => p.message@,
        Screen::Profiles(p) => p.message@,
        Screen::Form(f) => f.message_view(),
        Screen::Mode(p) => p.message_view(),
        Screen::Logs(p) => p.message@,
        Screen::Proxies(p) => p.message@,
        Screen::ProxyGroup(p) => p.message@,
        Screen::Output(p) => p.message@,
        Screen::Confirm(_) => message_text(language, Message::Choose),
    }
}

/// Some node of the group on show is being tested.
pub open spec fn group_testing(screen: Screen) -> bool {
    match screen {
        Screen::ProxyGroup(p) => exists|i: int|
            0 <= i < p.node_results@.len() && (#[trigger] p.node_results@[i]) is Testing,
        _ => false,
    }
}

fn add_hint(hints: &mut Vec<FooterHint>, key: &'static str, label: &'static str)
    ensures
        hint_views(final(hints)@) == hint_views(old(hints)@).push((key@, label@)),
{
    hints.push(FooterHint { key, label });
    assert(hint_views(hints@) =~= hint_views(old(hints)@).push((key@, label@)));
}

/// The footer for the interface's state.
pub fn footer_content(app: &App) -> (r: FooterContent)
    ensures
        r.message@ == footer_message(app.screen_view(), app.message_view(), app.language_view()),
        hint_views(r.hints@) == footer_keys(app.screen_view(), group_testing(app.screen_view())).map_values(
            |k: (Seq<char>, Message)| (k.0, message_text(app.language_view(), k.1)),
        ),
{
    let l = app.language();
    let mut h: Vec<FooterHint> = Vec::new();
    let screen = app.screen();
    let message = match screen {
        Screen::Home => {
            add_hint(&mut h, "j/k", l.tr(Message::Move));
            add_hint(&mut h, "Enter", l.tr(Message::Open));
            add_hint(&mut h, "r", l.tr(Message::Refresh));
            add_hint(&mut h, "q", l.tr(Message::Quit));
            owned(app.message())
        },
        Screen::Settings(p) => {
            add_hint(&mut h, "j/k", l.tr(Message::Move));
            add_hint(&mut h, "Enter", l.tr(Message::Select));
            add_hint(&mut h, "Esc", l.tr(Message::Back));
            p.message.clone()
        },
        Screen::Language(p) => {
            add_hint(&mut h, "j/k", l.tr(Message::Move));
            add_hint(&mut h, "Enter", l.tr(Message::Apply));
            add_hint(&mut h, "Esc", l.tr(Message::Back));
            p.message.clone()
        },
        Screen::Profiles(p) => {
            add_hint(&mut h, "j/k", l.tr(Message::Move));
            add_hint(&mut h, "Enter", l.tr(Message::Use));
            add_hint(&mut h, "a", l.tr(Message::Local));
            add_hint(&mut h, "s", l.tr(Message::Subscription));
            add_hint(&mut h, "u", l.tr(Message::Update));
            add_hint(&mut h, "U", l.tr(Message::UpdateAll));
            add_hint(&mut h, "d", l.tr(Message::Remove));
            add_hint(&mut h, "r", l.tr(Message::Refresh));
            add_hint(&mut h, "Esc", l.tr(Message::Back));
            p.message.clone()
        },
        Screen::Form(f) => {
            add_hint(&mut h, "Tab", l.tr(Message::Field));
            add_hint(&mut h, "Enter", l.tr(Message::NextSubmit));
            add_hint(&mut h, "Esc", l.tr(Message::Cancel));
            owned(f.message())
        },
        Screen::Mode(p) => {
            add_hint(&mut h, "j/k", l.tr(Message::Move));
            add_hint(&mut h, "Enter", l.tr(Message::Apply));
            add_hint(&mut h, "Esc", l.tr(Message::Back));
            owned(p.message())
        },
        Screen::Logs(p) => {
            add_hint(&mut h, "j/k", l.tr(Message::Scroll));
            add_hint(&mut h, "PgUp/PgDn", l.tr(Message::Fast));
            add_hint(&mut h, "r", l.tr(Message::Refresh));
            add_hint(&mut h, "Esc", l.tr(Message::Back));
            p.message.clone()
        },
        Screen::Proxies(p) => {
            add_hint(&mut h, "j/k", l.tr(Message::Move));
            add_hint(&mut h, "Enter", l.tr(Message::OpenGroup));
            add_hint(&mut h, "r", l.tr(Message::Refresh));
            add_hint(&mut h, "Esc", l.tr(Message::Back));
            p.message.clone()
        },
        Screen::ProxyGroup(p) => {
            if p.is_testing() {
                add_hint(&mut h, "Esc", l.tr(Message::Cancel));
                add_hint(&mut h, "Ctrl-C", l.tr(Message::Cancel));
            } else {
                add_hint(&mut h, "j/k", l.tr(Message::Move));
                add_hint(&mut h, "Enter", l.tr(Message::SelectNode));
                add_hint(&mut h, "t", l.tr(Message::TestGroup));
                add_hint(&mut h, "Esc", l.tr(Message::Back));
            }
            p.message.clone()
        },
        Screen::Output(p) => {
            add_hint(&mut h, "j/k", l.tr(Message::Scroll));
            add_hint(&mut h, "PgUp/PgDn", l.tr(Message::Fast));
            add_hint(&mut h, "Enter", l.tr(Message::Back));
            add_hint(&mut h, "Esc", l.tr(Message::Back));
            p.message.clone()
        },
        Screen::Confirm(_) => {
            add_hint(&mut h, "Left/Right", l.tr(Message::Choose));
            add_hint(&mut h, "Enter", l.tr(Message::ConfirmAction));
            add_hint(&mut h, "Esc", l.tr(Message::Cancel));
            owned(l.tr(Message::Choose))
        },
    };
    proof {
        assert(hint_views(h@) =~= footer_keys(app.screen_view(), group_testing(app.screen_view())).map_values(
            |k: (Seq<char>, Message)| (k.0, message_text(app.language_view(), k.1)),
        ));
    }
    FooterContent { message, hints: h }
}

} // verus!
