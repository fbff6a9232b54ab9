//! The texts of each page's list and details panel.
use vstd::prelude::*;
use vstd::string::StringExecFns;
use crate::i18n::{code_text, message_text, Language, Message};
use crate::lines::views;
use crate::number::{decimal, decimal_string};
use crate::profile::{ProfileKind, ProfileSummary};
use crate::text::{concat2, concat3, concat4, concat5, owned};
use crate::tui::pages::{
    action_detail_message, action_label_message, controller_modes, detail_view, detail_views,
    field_line, home_actions, item_label_message, item_summary_message, status_text, text_line,
    Action, DetailLine, LanguagePage, ModePage, ProfilePage, ProxyGroupPage, ProxyItem, ProxyPage,
    SettingsItemKind, SettingsPage,
};
use crate::width::{
    dash_if_blank, empty_as_dash, left_padded_to, pad_display_width, pad_left_display_width,
    padded_to, truncate_for_column, truncated_to,
};

verus! {

// ---------------------------------------------------------------------
// Home
// ---------------------------------------------------------------------

/// An entry of the home list: the action's name in 24 columns, then what it
/// does.
pub open spec fn action_text(a: Action, language: Language) -> Seq<char> {
    padded_to(message_text(language, action_label_message(a)), 24) + " "@ + message_text(
        language,
        action_detail_message(a),
    )
}

fn action_item(a: Action, language: Language) -> (r: String)
    ensures
        r@ == action_text(a, language),
{
    concat3(pad_display_width(a.label(language), 24).as_str(), " ", a.detail(language))
}

/// The entries of the home list.
pub fn home_action_items(language: Language) -> (r: Vec<String>)
    ensures
        views(r@) == home_actions().map_values(|a: Action| action_text(a, language)),
{
    let mut r: Vec<String> = Vec::new();
    r.push(action_item(Action::StartStop, language));
    r.push(action_item(Action::Profiles, language));
    r.push(action_item(Action::ListProxies, language));
    r.push(action_item(Action::ToggleShellProxy, language));
    r.push(action_item(Action::Settings, language));
    assert(views(r@) =~= home_actions().map_values(|a: Action| action_text(a, language)));
    r
}

// ---------------------------------------------------------------------
// Settings
// ---------------------------------------------------------------------

/// An entry of the settings list: its name in 24 columns, then its summary.
pub open spec fn setting_text(k: SettingsItemKind, language: Language) -> Seq<char> {
    padded_to(message_text(language, item_label_message(k)), 24) + " "@ + message_text(
        language,
        item_summary_message(k),
    )
}

/// The entries of the settings list.
pub fn settings_item_texts(page: &SettingsPage, language: Language) -> (r: Vec<String>)
    ensures
        views(r@) == page.items@.map_values(|k: SettingsItemKind| setting_text(k, language)),
{
    let mut r: Vec<String> = Vec::new();
    let mut i: usize = 0;
    while i < page.items.len()
        invariant
            i <= page.items@.len(),
            views(r@) == page.items@.take(i as int).map_values(
                |k: SettingsItemKind| setting_text(k, language),
            ),
        decreases page.items@.len() - i,
    {
        let k = page.items[i];
        let s = concat3(pad_display_width(k.label(language), 24).as_str(), " ", k.summary(language));
        let ghost before = r@;
        r.push(s);
        proof {
            assert(views(r@) =~= views(before).push(r@.last()@));
            assert(page.items@.take(i + 1) == page.items@.take(i as int).push(k));
            assert(views(r@) =~= page.items@.take(i + 1).map_values(
                |k: SettingsItemKind| setting_text(k, language),
            ));
        }
        i += 1;
    }
    assert(page.items@.take(page.items@.len() as int) == page.items@);
    r
}

/// The details panel of the settings page: the selected entry's details,
/// or that there are no entries.
pub fn settings_details(page: &SettingsPage, language: Language) -> (r: Vec<DetailLine>)
    ensures
        page.selected < page.items@.len() ==> detail_views(r@)[0] == (
            Some(message_text(language, Message::Name)),
            message_text(language, item_label_message(page.items@[page.selected as int])),
        ) && detail_views(r@).len() == 4,
        page.selected >= page.items@.len() ==> detail_views(r@) == seq![
            (None::<Seq<char>>, message_text(language, Message::SettingsNoItems)),
        ],
{
    match page.selected_item() {
        Some(item) => item.detail_lines(language),
        None => {
            let mut r = Vec::new();
            r.push(text_line(language.tr(Message::SettingsNoItems)));
            assert(detail_views(r@) =~= seq![detail_view(r@[0])]);
            r
        },
    }
}

// ---------------------------------------------------------------------
// Language
// ---------------------------------------------------------------------

/// The name of a language as shown in another.
pub open spec fn language_name(l: Language, shown_in: Language) -> Seq<char> {
    match (l, shown_in) {
        (Language::English, Language::English) => "English"@,
        (Language::SimplifiedChinese, Language::English) => "Simplified Chinese"@,
        (Language::English, Language::SimplifiedChinese) => "英语"@,
        (Language::SimplifiedChinese, Language::SimplifiedChinese) => "简体中文"@,
    }
}

/// An entry of the language list: `*` for the current language, its name in
/// 20 columns, and its code.
pub open spec fn language_text(candidate: Language, current: Language, shown_in: Language) -> Seq<
    char,
> {
    (if candidate == current {
        "*"@
    } else {
        " "@
    }) + " "@ + padded_to(language_name(candidate, shown_in), 20) + " "@ + code_text(candidate)
}

/// The entries of the language list.
pub fn language_option_texts(page: &LanguagePage, language: Language) -> (r: Vec<String>)
    ensures
        views(r@) == page.options@.map_values(
            |c: Language| language_text(c, page.current, language),
        ),
{
    let mut r: Vec<String> = Vec::new();
    let mut i: usize = 0;
    while i < page.options.len()
        invariant
            i <= page.options@.len(),
            views(r@) == page.options@.take(i as int).map_values(
                |c: Language| language_text(c, page.current, language),
            ),
        decreases page.options@.len() - i,
    {
        let c = page.options[i];
        let mark = if c == page.current {
            "*"
        } else {
            " "
        };
        let s = concat5(
            mark,
            " ",
            pad_display_width(c.display_name(language), 20).as_str(),
            " ",
            c.code(),
        );
        let ghost before = r@;
        r.push(s);
        proof {
            assert(views(r@) =~= views(before).push(r@.last()@));
            assert(page.options@.take(i + 1) == page.options@.take(i as int).push(c));
            assert(views(r@) =~= page.options@.take(i + 1).map_values(
                |c: Language| language_text(c, page.current, language),
            ));
        }
        i += 1;
    }
    assert(page.options@.take(page.options@.len() as int) == page.options@);
    r
}

/// The details panel of the language page: the current and the selected
/// language, the selected one's code, and what the setting does.
pub fn language_details(page: &LanguagePage, language: Language) -> (r: Vec<DetailLine>)
    ensures
        ({
            let sel = if page.selected < page.options@.len() {
                page.options@[page.selected as int]
            } else {
                Language::English
            };
            detail_views(r@) == seq![
                (
                    Some(message_text(language, Message::Current)),
                    language_name(page.current, language),
                ),
                (Some(message_text(language, Message::Selected)), language_name(sel, language)),
                (Some(message_text(language, Message::Code)), code_text(sel)),
                (None, message_text(language, Message::LanguageDetail)),
            ]
        }),
{
    let selected = page.selected_language();
    let mut r = Vec::new();
    r.push(
        field_line(language.tr(Message::Current), owned(page.current.display_name(language))),
    );
    r.push(field_line(language.tr(Message::Selected), owned(selected.display_name(language))));
    r.push(field_line(language.tr(Message::Code), owned(selected.code())));
    r.push(text_line(language.tr(Message::LanguageDetail)));
    assert(detail_views(r@) =~= seq![
        detail_view(r@[0]),
        detail_view(r@[1]),
        detail_view(r@[2]),
        detail_view(r@[3]),
    ]);
    r
}

// ---------------------------------------------------------------------
// Profiles
// ---------------------------------------------------------------------

/// The kind of a profile as the interface names it.
pub open spec fn kind_label(kind: ProfileKind, language: Language) -> Seq<char> {
    match kind {
        ProfileKind::Local => message_text(language, Message::Local),
        ProfileKind::Subscription => message_text(language, Message::Subscription),
    }
}

/// The kind of a profile as the interface names it.
pub fn profile_kind_label(kind: ProfileKind, language: Language) -> (r: &'static str)
    ensures
        r@ == kind_label(kind, language),
{
    match kind {
        ProfileKind::Local => language.tr(Message::Local),
        ProfileKind::Subscription => language.tr(Message::Subscription),
    }
}

/// An entry of the profile list: `*` for the active profile, its name in 30
/// columns, its kind in 12.
pub open spec fn profile_text(p: ProfileSummary, language: Language) -> Seq<char> {
    (if p.active {
        "*"@
    } else {
        " "@
    }) + " "@ + padded_to(p.name@, 30) + " "@ + padded_to(kind_label(p.kind, language), 12)
}

/// The entries of the profile list; a note when there are none.
pub fn profile_item_texts(page: &ProfilePage, language: Language) -> (r: Vec<String>)
    ensures
        page.profiles@.len() == 0 ==> views(r@) == seq![
            message_text(language, Message::NoProfilesYet),
        ],
        page.profiles@.len() > 0 ==> views(r@) == page.profiles@.map_values(
            |p: ProfileSummary| profile_text(p, language),
        ),
{
    let mut r: Vec<String> = Vec::new();
    if page.profiles.len() == 0 {
        r.push(owned(language.tr(Message::NoProfilesYet)));
        assert(views(r@) =~= seq![r@[0]@]);
        return r;
    }
    let mut i: usize = 0;
    while i < page.profiles.len()
        invariant
            i <= page.profiles@.len(),
            views(r@) == page.profiles@.take(i as int).map_values(
                |p: ProfileSummary| profile_text(p, language),
            ),
        decreases page.profiles@.len() - i,
    {
        let p = &page.profiles[i];
        let mark = if p.active {
            "*"
        } else {
            " "
        };
        let s = concat5(
            mark,
            " ",
            pad_display_width(p.name.as_str(), 30).as_str(),
            " ",
            pad_display_width(profile_kind_label(p.kind, language), 12).as_str(),
        );
        let ghost before = r@;
        r.push(s);
        proof {
            assert(views(r@) =~= views(before).push(r@.last()@));
            assert(page.profiles@.take(i + 1) == page.profiles@.take(i as int).push(*p));
            assert(views(r@) =~= page.profiles@.take(i + 1).map_values(
                |p: ProfileSummary| profile_text(p, language),
            ));
        }
        i += 1;
    }
    assert(page.profiles@.take(page.profiles@.len() as int) == page.profiles@);
    r
}

/// The details panel of the profiles page: the selected profile's name,
/// kind, whether it is active and its source; hints when none is selected.
pub fn profile_details(page: &ProfilePage, language: Language) -> (r: Vec<DetailLine>)
    ensures
        page.selected < page.profiles@.len() ==> ({
            let p = page.profiles@[page.selected as int];
            detail_views(r@) == seq![
                (Some(message_text(language, Message::Name)), p.name@),
                (Some(message_text(language, Message::Type)), kind_label(p.kind, language)),
                (
                    Some(message_text(language, Message::Active)),
                    message_text(
                        language,
                        if p.active {
                            Message::Yes
                        } else {
                            Message::No
                        },
                    ),
                ),
                (
                    Some(message_text(language, Message::Source)),
                    match p.source_url {
                        Some(u) => u@,
                        None => "-"@,
                    },
                ),
            ]
        }),
        page.selected >= page.profiles@.len() ==> detail_views(r@) == seq![
            (None::<Seq<char>>, message_text(language, Message::ProfileEmptyHint)),
            (None::<Seq<char>>, message_text(language, Message::ProfileStorageHint)),
        ],
{
    let mut r = Vec::new();
    match page.selected_profile() {
        Some(p) => {
            r.push(field_line(language.tr(Message::Name), p.name.clone()));
            r.push(
                field_line(language.tr(Message::Type), owned(profile_kind_label(p.kind, language))),
            );
            let active = if p.active {
                language.tr(Message::Yes)
            } else {
                language.tr(Message::No)
            };
            r.push(field_line(language.tr(Message::Active), owned(active)));
            let source = match &p.source_url {
                Some(u) => u.clone(),
                None => owned("-"),
            };
            r.push(field_line(language.tr(Message::Source), source));
            assert(detail_views(r@) =~= seq![
                detail_view(r@[0]),
                detail_view(r@[1]),
                detail_view(r@[2]),
                detail_view(r@[3]),
            ]);
        },
        None => {
            r.push(text_line(language.tr(Message::ProfileEmptyHint)));
            r.push(text_line(language.tr(Message::ProfileStorageHint)));
            assert(detail_views(r@) =~= seq![detail_view(r@[0]), detail_view(r@[1])]);
        },
    }
    r
}

// ---------------------------------------------------------------------
// Mode
// ---------------------------------------------------------------------

/// An entry of the mode list: `*` for the controller's current mode, then
/// the mode.
pub open spec fn mode_text(mode: Seq<char>, current: Option<Seq<char>>) -> Seq<char> {
    (if current == Some(mode) {
        "*"@
    } else {
        " "@
    }) + " "@ + mode
}

/// The entries of the mode list.
pub fn mode_item_texts(page: &ModePage) -> (r: Vec<String>)
    ensures
        views(r@) == controller_modes().map_values(|m: Seq<char>| mode_text(m, page.current_view())),
{
    let modes = page.modes();
    let mut r: Vec<String> = Vec::new();
    let mut i: usize = 0;
    while i < modes.len()
        invariant
            i <= modes@.len(),
            modes@.map_values(|m: &str| m@) == controller_modes(),
            views(r@) == controller_modes().take(i as int).map_values(
                |m: Seq<char>| mode_text(m, page.current_view()),
            ),
        decreases modes@.len() - i,
    {
        let m = modes[i];
        let mark = match page.current() {
            Some(c) => if crate::text::text_eq(c, m) {
                "*"
            } else {
                " "
            },
            None => " ",
        };
        let ghost before = r@;
        r.push(concat3(mark, " ", m));
        proof {
            assert(views(r@) =~= views(before).push(r@.last()@));
            assert(controller_modes()[i as int] == m@);
            assert(controller_modes().take(i + 1) == controller_modes().take(i as int).push(m@));
            assert(views(r@) =~= controller_modes().take(i + 1).map_values(
                |m: Seq<char>| mode_text(m, page.current_view()),
            ));
        }
        i += 1;
    }
    assert(controller_modes().take(3) == controller_modes());
    r
}

/// The details panel of the mode page: the current mode (or that it is
/// unknown), the selected one, and the page's message.
pub fn mode_details(page: &ModePage, language: Language) -> (r: Vec<DetailLine>)
    ensures
        detail_views(r@) == seq![
            (
                Some(message_text(language, Message::Current)),
                match page.current_view() {
                    Some(c) => c,
                    None => message_text(language, Message::Unknown),
                },
            ),
            (
                Some(message_text(language, Message::Selected)),
                controller_modes()[page.selected_view() as int],
            ),
            (None, page.message_view()),
        ],
{
    let mut r = Vec::new();
    let current = match page.current() {
        Some(c) => owned(c),
        None => owned(language.tr(Message::Unknown)),
    };
    r.push(field_line(language.tr(Message::Current), current));
    r.push(field_line(language.tr(Message::Selected), owned(page.selected_mode())));
    r.push(text_line(page.message()));
    assert(detail_views(r@) =~= seq![detail_view(r@[0]), detail_view(r@[1]), detail_view(r@[2])]);
    r
}

// ---------------------------------------------------------------------
// Proxy groups and their nodes
// ---------------------------------------------------------------------

/// An entry of the group list: the name in 30 columns, the type (or `-`) in
/// 12, and the number of nodes.
pub open spec fn group_text(item: ProxyItem, language: Language) -> Seq<char> {
    padded_to(item.name@, 30) + " "@ + padded_to(dash_if_blank(item.kind@), 12) + " "@ + decimal(
        item.children@.len(),
    ) + " "@ + message_text(language, Message::NodeUnit)
}

/// An entry of the group list.
pub fn proxy_item_label(item: &ProxyItem, language: Language) -> (r: String)
    ensures
        r@ == group_text(*item, language),
{
    let kind = empty_as_dash(item.kind.as_str());
    concat5(
        pad_display_width(item.name.as_str(), 30).as_str(),
        " ",
        pad_display_width(kind.as_str(), 12).as_str(),
        " ",
        decimal_string(item.children.len() as u64).as_str(),
    ).concat(" ").concat(language.tr(Message::NodeUnit))
}

/// The entries of the group list; a note when there are none.
pub fn proxy_item_texts(page: &ProxyPage, language: Language) -> (r: Vec<String>)
    ensures
        page.items@.len() == 0 ==> views(r@) == seq![
            message_text(language, Message::NoProxyGroupsFound),
        ],
        page.items@.len() > 0 ==> views(r@) == page.items@.map_values(
            |p: ProxyItem| group_text(p, language),
        ),
{
    let mut r: Vec<String> = Vec::new();
    if page.items.len() == 0 {
        r.push(owned(language.tr(Message::NoProxyGroupsFound)));
        assert(views(r@) =~= seq![r@[0]@]);
        return r;
    }
    let mut i: usize = 0;
    while i < page.items.len()
        invariant
            i <= page.items@.len(),
            views(r@) == page.items@.take(i as int).map_values(
                |p: ProxyItem| group_text(p, language),
            ),
        decreases page.items@.len() - i,
    {
        let ghost before = r@;
        r.push(proxy_item_label(&page.items[i], language));
        proof {
            assert(views(r@) =~= views(before).push(r@.last()@));
            assert(page.items@.take(i + 1) == page.items@.take(i as int).push(page.items@[i as int]));
            assert(views(r@) =~= page.items@.take(i + 1).map_values(
                |p: ProxyItem| group_text(p, language),
            ));
        }
        i += 1;
    }
    assert(page.items@.take(page.items@.len() as int) == page.items@);
    r
}

/// The details of a group: its name, type (or `-`), number of nodes, and
/// how to open it.
pub open spec fn group_detail_views(item: ProxyItem, language: Language) -> Seq<
    (Option<Seq<char>>, Seq<char>),
> {
    seq![
        (Some(message_text(language, Message::Group)), item.name@),
        (Some(message_text(language, Message::Type)), dash_if_blank(item.kind@)),
        (Some(message_text(language, Message::Nodes)), decimal(item.children@.len())),
        (None, message_text(language, Message::PressEnterViewGroupNodeList)),
    ]
}

/// The details panel of the groups page: the selected group's details, or a
/// hint when none is selected.
pub fn proxy_details(page: &ProxyPage, language: Language) -> (r: Vec<DetailLine>)
    ensures
        page.selected < page.items@.len() ==> detail_views(r@) == group_detail_views(
            page.items@[page.selected as int],
            language,
        ),
        page.selected >= page.items@.len() ==> detail_views(r@) == seq![
            (None::<Seq<char>>, message_text(language, Message::SelectActiveProfileWithProxyGroups)),
        ],
{
    let mut r = Vec::new();
    match page.selected_item() {
        Some(item) => {
            r.push(field_line(language.tr(Message::Group), item.name.clone()));
            r.push(field_line(language.tr(Message::Type), empty_as_dash(item.kind.as_str())));
            r.push(
                field_line(
                    language.tr(Message::Nodes),
                    decimal_string(item.children.len() as u64),
                ),
            );
            r.push(text_line(language.tr(Message::PressEnterViewGroupNodeList)));
            assert(detail_views(r@) =~= seq![
                detail_view(r@[0]),
                detail_view(r@[1]),
                detail_view(r@[2]),
                detail_view(r@[3]),
            ]);
        },
        None => {
            r.push(text_line(language.tr(Message::SelectActiveProfileWithProxyGroups)));
            assert(detail_views(r@) =~= seq![detail_view(r@[0])]);
        },
    }
    r
}

/// An entry of a group's node list: the node cut to 44 columns and padded
/// to them, then its test result right-aligned in 12.
pub open spec fn node_text(page: ProxyGroupPage, index: int, node: Seq<char>, language: Language) -> Seq<
    char,
> {
    let status = if 0 <= index < page.node_results@.len() {
        status_text(page.node_results@[index], language)
    } else {
        "-"@
    };
    padded_to(truncated_to(node, 44), 44) + " "@ + left_padded_to(status, 12)
}

/// An entry of a group's node list.
pub fn node_label(page: &ProxyGroupPage, index: usize, node: &str, language: Language) -> (r:
    String)
    ensures
        r@ == node_text(*page, index as int, node@, language),
{
    let status = page.status_at(index, language);
    let cut = truncate_for_column(node, 44);
    concat3(
        pad_display_width(cut.as_str(), 44).as_str(),
        " ",
        pad_left_display_width(status.as_str(), 12).as_str(),
    )
}

/// The entries of a group's node list.
pub fn node_texts(page: &ProxyGroupPage, language: Language) -> (r: Vec<String>)
    ensures
        r@.len() == page.group.children@.len(),
        forall|i: int|
            0 <= i < r@.len() ==> (#[trigger] r@[i])@ == node_text(
                *page,
                i,
                page.group.children@[i]@,
                language,
            ),
{
    let mut r: Vec<String> = Vec::new();
    let mut i: usize = 0;
    while i < page.group.children.len()
        invariant
            i <= page.group.children@.len(),
            r@.len() == i,
            forall|j: int|
                0 <= j < i ==> (#[trigger] r@[j])@ == node_text(
                    *page,
                    j,
                    page.group.children@[j]@,
                    language,
                ),
        decreases page.group.children@.len() - i,
    {
        r.push(node_label(page, i, page.group.children[i].as_str(), language));
        i += 1;
    }
    r
}

/// The title of a group's node list.
pub fn group_title(page: &ProxyGroupPage, language: Language) -> (r: String)
    ensures
        r@ == message_text(language, Message::Group) + ": "@ + page.group.name@,
{
    concat3(language.tr(Message::Group), ": ", page.group.name.as_str())
}

/// The details panel of a group's page: the group's type (or `-`), the
/// selected node (or `-`), its result, and the page's message.
pub fn proxy_group_details(page: &ProxyGroupPage, language: Language) -> (r: Vec<DetailLine>)
    ensures
        detail_views(r@) == seq![
            (Some(message_text(language, Message::Type)), dash_if_blank(page.group.kind@)),
            (
                Some(message_text(language, Message::Selected)),
                if page.selected < page.group.children@.len() {
                    page.group.children@[page.selected as int]@
                } else {
                    "-"@
                },
            ),
            (
                Some(message_text(language, Message::Result)),
                if page.selected < page.node_results@.len() {
                    status_text(page.node_results@[page.selected as int], language)
                } else {
                    "-"@
                },
            ),
            (None, page.message@),
        ],
{
    let mut r = Vec::new();
    r.push(field_line(language.tr(Message::Type), empty_as_dash(page.group.kind.as_str())));
    let node = match page.selected_node() {
        Some(n) => owned(n),
        None => owned("-"),
    };
    r.push(field_line(language.tr(Message::Selected), node));
    r.push(field_line(language.tr(Message::Result), page.selected_status(language)));
    r.push(text_line(page.message.as_str()));
    assert(detail_views(r@) =~= seq![
        detail_view(r@[0]),
        detail_view(r@[1]),
        detail_view(r@[2]),
        detail_view(r@[3]),
    ]);
    r
}

} // verus!
